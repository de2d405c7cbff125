//! What is playing: the title of the current track and its artwork.
//!
//! This query never takes the native path: only the session itself knows the
//! metadata. The host discovers the active session and hands over title and
//! art reference; the bridge decides from the reference where the artwork is
//! to be had, a local file or a remote location, and the host reads the bytes.
//! Whatever bytes come back are wrapped into a data URI. Artwork that is
//! missing, or that cannot be had, is no error: the title is reported alone.

use base64::engine::general_purpose::STANDARD;
use base64::engine::Engine;
use vstd::prelude::*;
use vstd::string::*;

verus! {

/// The standard base64 encoding of `bytes`, padded, as the `base64` crate
/// computes it.
pub uninterp spec fn base64_standard(bytes: Seq<u8>) -> Seq<char>;

/// The title reported for a track that has none.
pub open spec fn default_title() -> Seq<char> {
    "Unknown Title"@
}

/// The scheme that marks a reference to a local file.
pub open spec fn file_scheme() -> Seq<char> {
    "file://"@
}

/// The scheme of a remote reference.
pub open spec fn http_scheme() -> Seq<char> {
    "http://"@
}

/// The scheme of a remote reference over a secure channel.
pub open spec fn https_scheme() -> Seq<char> {
    "https://"@
}

/// What every artwork URI begins with. The content is declared to be PNG
/// whatever the bytes hold.
pub open spec fn data_uri_prefix() -> Seq<char> {
    "data:image/png;base64,"@
}

/// `text` without `prefix` at its start, as often as it stands there.
pub open spec fn strip_all(text: Seq<char>, prefix: Seq<char>) -> Seq<char>
    decreases text.len(),
{
    if prefix.len() > 0 && prefix.is_prefix_of(text) {
        strip_all(text.skip(prefix.len() as int), prefix)
    } else {
        text
    }
}

/// Whether the `base64` crate can encode this many bytes: the length of the
/// text, four characters for every three bytes begun, must fit in `usize`.
pub open spec fn encodable(len: nat) -> bool {
    len / 3 * 4 + 4 <= usize::MAX
}

/// Where the artwork of a track is to be had.
#[derive(Debug, PartialEq, Eq)]
pub enum ArtSource {
    /// In the local file at this path.
    File(String),
    /// At this remote location.
    Remote(String),
    /// Nowhere that the bridge can reach.
    Unsupported,
}

/// An `ArtSource` in contracts: its texts as sequences of characters.
pub enum ArtPlace {
    /// In the local file at this path.
    File(Seq<char>),
    /// At this remote location.
    Remote(Seq<char>),
    /// Nowhere that the bridge can reach.
    Unsupported,
}

impl View for ArtSource {
    type V = ArtPlace;

    open spec fn view(&self) -> ArtPlace {
        match self {
            ArtSource::File(path) => ArtPlace::File(path@),
            ArtSource::Remote(url) => ArtPlace::Remote(url@),
            ArtSource::Unsupported => ArtPlace::Unsupported,
        }
    }
}

/// The metadata of the current track, as far as this query reads it.
#[derive(Debug, PartialEq, Eq)]
pub struct Metadata {
    /// The title, if the track has one.
    pub title: Option<String>,
    /// The reference to the artwork, if the track has one.
    pub art_url: Option<String>,
}

/// A query whose artwork is still being looked for. The query hands it out
/// with the request for the artwork and takes it back with the bytes; it
/// keeps the title to report, and only the query can make one, so the title
/// reported at the end is the one that discovery gave.
#[derive(Debug, PartialEq, Eq)]
pub struct Pending {
    title: String,
}

impl View for Pending {
    type V = Seq<char>;

    /// The title that the query will report.
    closed spec fn view(&self) -> Seq<char> {
        self.title@
    }
}

impl Pending {
    /// The title that the query will report.
    pub fn title(&self) -> (text: &str)
        ensures
            text@ == self@,
    {
        self.title.as_str()
    }
}

/// What the host observed last.
#[derive(Debug, PartialEq, Eq)]
pub enum InfoSeen {
    /// Nothing yet: the query has just begun.
    Nothing,
    /// Discovery ended: with the metadata of the current track, or without,
    /// where no session is active or the session gave no metadata.
    Session(Option<Metadata>),
    /// The artwork was looked for: the pending query as it was handed out,
    /// and the bytes that were read, if any could be read.
    Artwork(Pending, Option<Vec<u8>>),
}

/// What the query needs next.
#[derive(Debug, PartialEq, Eq)]
pub enum InfoNext {
    /// Discover the active session, read the metadata of its current track
    /// and come back with `InfoSeen::Session`.
    Discover,
    /// Read the local file at this path and come back with
    /// `InfoSeen::Artwork`, handing the pending query back.
    ReadFile(String, Pending),
    /// Fetch this remote location and come back with `InfoSeen::Artwork`,
    /// handing the pending query back.
    Fetch(String, Pending),
    /// The query is over: nothing is playing, or this title and, if it could
    /// be had, this artwork as a data URI.
    Done(Option<(String, Option<String>)>),
}

/// An `InfoNext` in contracts: its texts as sequences of characters.
pub enum InfoStep {
    /// Discover the active session.
    Discover,
    /// Read the local file at this path, for a query that will report this
    /// title.
    ReadFile(Seq<char>, Seq<char>),
    /// Fetch this remote location, for a query that will report this title.
    Fetch(Seq<char>, Seq<char>),
    /// The query is over, with this title and artwork if anything is playing.
    Done(Option<(Seq<char>, Option<Seq<char>>)>),
}

impl View for InfoNext {
    type V = InfoStep;

    open spec fn view(&self) -> InfoStep {
        match self {
            InfoNext::Discover => InfoStep::Discover,
            InfoNext::ReadFile(path, pending) => InfoStep::ReadFile(path@, pending@),
            InfoNext::Fetch(url, pending) => InfoStep::Fetch(url@, pending@),
            InfoNext::Done(None) => InfoStep::Done(None),
            InfoNext::Done(Some((title, None))) => InfoStep::Done(Some((title@, None))),
            InfoNext::Done(Some((title, Some(artwork)))) => InfoStep::Done(
                Some((title@, Some(artwork@))),
            ),
        }
    }
}

/// Where the artwork behind a reference is to be had: a reference that
/// begins with the file scheme names a local file, whose path is the
/// reference without that scheme; one that begins with either HTTP scheme
/// names a remote location, which is the reference itself; any other names
/// nothing the bridge can reach.
pub open spec fn art_source_spec(url: Seq<char>) -> ArtPlace {
    if file_scheme().is_prefix_of(url) {
        ArtPlace::File(strip_all(url, file_scheme()))
    } else if http_scheme().is_prefix_of(url) || https_scheme().is_prefix_of(url) {
        ArtPlace::Remote(url)
    } else {
        ArtPlace::Unsupported
    }
}

/// The title reported: the track's own, or the default.
pub open spec fn title_spec(title: Option<String>) -> Seq<char> {
    match title {
        Some(text) => text@,
        None => default_title(),
    }
}

/// The data URI of artwork bytes.
pub open spec fn data_uri_spec(bytes: Seq<u8>) -> Seq<char> {
    data_uri_prefix() + base64_standard(bytes)
}

/// The artwork reported for what was read: the data URI of the bytes, or
/// none where nothing was read or the bytes are too many to encode.
pub open spec fn artwork_spec(bytes: Option<Vec<u8>>) -> Option<Seq<char>> {
    match bytes {
        Some(read) => if encodable(read@.len()) {
            Some(data_uri_spec(read@))
        } else {
            None
        },
        None => None,
    }
}

/// The steps of the query: discovery first; without metadata, the end with
/// nothing; with metadata, the read or the fetch that its art reference
/// calls for, pending on the title of the track, or the end with the title
/// alone where it calls for neither; and once the artwork was looked for,
/// the end with the pending title and the artwork.
pub open spec fn info_step_spec(seen: InfoSeen) -> InfoStep {
    match seen {
        InfoSeen::Nothing => InfoStep::Discover,
        InfoSeen::Session(None) => InfoStep::Done(None),
        InfoSeen::Session(Some(metadata)) => match metadata.art_url {
            None => InfoStep::Done(Some((title_spec(metadata.title), None))),
            Some(url) => match art_source_spec(url@) {
                ArtPlace::File(path) => InfoStep::ReadFile(path, title_spec(metadata.title)),
                ArtPlace::Remote(location) => InfoStep::Fetch(
                    location,
                    title_spec(metadata.title),
                ),
                ArtPlace::Unsupported => InfoStep::Done(Some((title_spec(metadata.title), None))),
            },
        },
        InfoSeen::Artwork(pending, bytes) => InfoStep::Done(Some((pending@, artwork_spec(bytes)))),
    }
}

/// The title that a step keeps pending, if it asks for artwork.
pub open spec fn pending_title(step: InfoStep) -> Option<Seq<char>> {
    match step {
        InfoStep::ReadFile(_, title) => Some(title),
        InfoStep::Fetch(_, title) => Some(title),
        _ => None,
    }
}

/// What the query reports for a track once its artwork was looked for, or
/// needed no looking for: the title of the track, and the artwork as far as
/// bytes were read.
pub open spec fn info_spec(metadata: Metadata, bytes: Option<Vec<u8>>) -> (
    Seq<char>,
    Option<Seq<char>>,
) {
    (title_spec(metadata.title), artwork_spec(bytes))
}

/// Encodes bytes with `Engine::encode` of the `base64` crate on its
/// `STANDARD` engine. The contract names the text that comes back; the
/// crate panics where the length of that text does not fit in `usize`, so
/// such inputs are left out.
#[verifier::external_body]
fn encode_standard(bytes: &[u8]) -> (text: String)
    requires
        encodable(bytes@.len()),
    ensures
        text@ == base64_standard(bytes@),
{
    STANDARD.encode(bytes)
}

/// Whether `prefix` stands in `text` at the character index `at`.
fn has_prefix_at(text: &str, at: usize, prefix: &str) -> (found: bool)
    requires
        at <= text@.len(),
    ensures
        found == prefix@.is_prefix_of(text@.skip(at as int)),
{
    let len = text.unicode_len();
    let prefix_len = prefix.unicode_len();
    if prefix_len > len - at {
        return false;
    }
    let mut matched: usize = 0;
    while matched < prefix_len
        invariant
            matched <= prefix_len,
            prefix_len == prefix@.len(),
            len == text@.len(),
            at <= len,
            prefix_len <= len - at,
            forall|i: int| 0 <= i < matched ==> text@[at + i] == prefix@[i],
        decreases prefix_len - matched,
    {
        if text.get_char(at + matched) != prefix.get_char(matched) {
            assert(text@.skip(at as int).subrange(0, prefix_len as int)[matched as int]
                != prefix@[matched as int]);
            return false;
        }
        matched = matched + 1;
    }
    assert(prefix@ =~= text@.skip(at as int).subrange(0, prefix_len as int));
    true
}

/// Whether `text` begins with `prefix`.
pub fn starts_with(text: &str, prefix: &str) -> (found: bool)
    ensures
        found == prefix@.is_prefix_of(text@),
{
    assert(text@.skip(0) =~= text@);
    has_prefix_at(text, 0, prefix)
}

/// `text` without `prefix` at its start, as often as it stands there. An
/// empty prefix strips nothing.
pub fn strip_prefixes(text: &str, prefix: &str) -> (rest: String)
    ensures
        rest@ == strip_all(text@, prefix@),
{
    let len = text.unicode_len();
    let prefix_len = prefix.unicode_len();
    let mut start: usize = 0;
    if prefix_len > 0 {
        assert(text@.skip(0) =~= text@);
        while has_prefix_at(text, start, prefix)
            invariant
                start <= len,
                len == text@.len(),
                prefix_len == prefix@.len(),
                prefix_len > 0,
                strip_all(text@, prefix@) == strip_all(text@.skip(start as int), prefix@),
            decreases len - start,
        {
            assert(text@.skip(start as int).skip(prefix_len as int) =~= text@.skip(
                start + prefix_len,
            ));
            start = start + prefix_len;
        }
    }
    assert(text@.subrange(start as int, len as int) =~= text@.skip(start as int));
    String::from_str(text.substring_char(start, len))
}

/// Decides from the art reference of a track where its artwork is to be had.
pub fn art_source(url: &str) -> (source: ArtSource)
    ensures
        source@ == art_source_spec(url@),
{
    if starts_with(url, "file://") {
        ArtSource::File(strip_prefixes(url, "file://"))
    } else if starts_with(url, "http://") || starts_with(url, "https://") {
        ArtSource::Remote(String::from_str(url))
    } else {
        ArtSource::Unsupported
    }
}

/// The title reported for a track: its own, or "Unknown Title".
pub fn title_or_default(title: Option<String>) -> (text: String)
    ensures
        text@ == title_spec(title),
{
    match title {
        Some(text) => text,
        None => String::from_str("Unknown Title"),
    }
}

/// Wraps base64 text into a data URI.
pub fn data_uri_of(encoded: &str) -> (uri: String)
    ensures
        uri@ == data_uri_prefix() + encoded@,
{
    let mut uri = String::from_str("data:image/png;base64,");
    uri.append(encoded);
    uri
}

/// The data URI of artwork bytes: the prefix, then the bytes in standard
/// base64. Bytes too many to encode give none.
pub fn data_uri(bytes: &[u8]) -> (uri: Option<String>)
    ensures
        encodable(bytes@.len()) ==> (uri matches Some(text) && text@ == data_uri_spec(bytes@)),
        !encodable(bytes@.len()) ==> uri is None,
{
    if bytes.len() / 3 <= (usize::MAX - 4) / 4 {
        let encoded = encode_standard(bytes);
        Some(data_uri_of(encoded.as_str()))
    } else {
        None
    }
}

/// Reports what is playing. Without a session, or without metadata, that is
/// nothing. Otherwise it is the title, "Unknown Title" where the track has
/// none, and the artwork as a data URI where the art reference names a
/// local file or a remote location and its bytes could be read.
pub fn get_media_info(seen: InfoSeen) -> (next: InfoNext)
    ensures
        next@ == info_step_spec(seen),
{
    match seen {
        InfoSeen::Nothing => InfoNext::Discover,
        InfoSeen::Session(None) => InfoNext::Done(None),
        InfoSeen::Session(Some(metadata)) => {
            let Metadata { title, art_url } = metadata;
            let title = title_or_default(title);
            match art_url {
                None => InfoNext::Done(Some((title, None))),
                Some(url) => match art_source(url.as_str()) {
                    ArtSource::File(path) => InfoNext::ReadFile(path, Pending { title }),
                    ArtSource::Remote(location) => InfoNext::Fetch(location, Pending { title }),
                    ArtSource::Unsupported => InfoNext::Done(Some((title, None))),
                },
            }
        },
        InfoSeen::Artwork(pending, bytes) => {
            let artwork = match bytes {
                Some(read) => data_uri(read.as_slice()),
                None => None,
            };
            InfoNext::Done(Some((pending.title, artwork)))
        },
    }
}

/// Without an active session the query is over after one discovery, with
/// nothing to report.
pub proof fn lemma_no_session_no_info()
    ensures
        info_step_spec(InfoSeen::Nothing) == InfoStep::Discover,
        info_step_spec(InfoSeen::Session(None)) == InfoStep::Done(None),
{
}

/// The title reported is the one discovered, and artwork that cannot be
/// had does not cost it: whatever a track's art reference, the query ends
/// with the title of that track, at once where the reference calls for no
/// artwork, and else once the pending query came back, with the artwork of
/// the bytes read or with none where none were read.
pub proof fn lemma_reports_the_title_discovered(
    metadata: Metadata,
    pending: Pending,
    bytes: Option<Vec<u8>>,
)
    ensures
        info_step_spec(InfoSeen::Session(Some(metadata))) is Done ==> info_step_spec(
            InfoSeen::Session(Some(metadata)),
        ) == InfoStep::Done(Some(info_spec(metadata, None))),
        pending_title(info_step_spec(InfoSeen::Session(Some(metadata)))) == Some(pending@)
            ==> info_step_spec(InfoSeen::Artwork(pending, bytes)) == InfoStep::Done(
            Some(info_spec(metadata, bytes)),
        ),
        info_spec(metadata, None).1 is None,
        info_spec(metadata, bytes).0 == title_spec(metadata.title),
{
}

} // verus!
