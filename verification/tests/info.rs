use media_bridge::media_info::{
    art_source, data_uri, data_uri_of, get_media_info, starts_with, strip_prefixes,
    title_or_default, ArtSource, InfoNext, InfoSeen, Metadata, Pending,
};

/// Runs the query on a track up to its request for artwork.
fn pending(title: Option<&str>, art_url: &str) -> (String, Pending, bool) {
    match get_media_info(InfoSeen::Session(Some(metadata(title, Some(art_url))))) {
        InfoNext::ReadFile(path, pending) => (path, pending, true),
        InfoNext::Fetch(url, pending) => (url, pending, false),
        other => panic!("no artwork asked for: {:?}", other),
    }
}

fn metadata(title: Option<&str>, art_url: Option<&str>) -> Metadata {
    Metadata { title: title.map(String::from), art_url: art_url.map(String::from) }
}

#[test]
fn prefixes_are_found_at_the_start_only() {
    assert!(starts_with("file:///tmp/a.png", "file://"));
    assert!(starts_with("file://", "file://"));
    assert!(!starts_with("file:/", "file://"));
    assert!(!starts_with("xfile://a", "file://"));
    assert!(!starts_with("", "file://"));
    assert!(starts_with("anything", ""));
    assert!(starts_with("", ""));
    assert!(!starts_with("FILE://a", "file://"));
    assert!(starts_with("ünï://x", "ünï"));
}

#[test]
fn prefixes_are_stripped_as_often_as_they_stand() {
    assert_eq!(strip_prefixes("file:///tmp/a.png", "file://"), "/tmp/a.png");
    assert_eq!(strip_prefixes("file://file:///tmp/a.png", "file://"), "/tmp/a.png");
    assert_eq!(strip_prefixes("file://", "file://"), "");
    assert_eq!(strip_prefixes("/tmp/file://a", "file://"), "/tmp/file://a");
    assert_eq!(strip_prefixes("aaab", "a"), "b");
    assert_eq!(strip_prefixes("abc", ""), "abc");
    assert_eq!(strip_prefixes("", "file://"), "");
    assert_eq!(strip_prefixes("file://ünï/ç.png", "file://"), "ünï/ç.png");
}

#[test]
fn art_reference_decides_the_source() {
    assert_eq!(art_source("file:///tmp/cover.png"), ArtSource::File(String::from("/tmp/cover.png")));
    assert_eq!(
        art_source("file://file:///tmp/cover.png"),
        ArtSource::File(String::from("/tmp/cover.png"))
    );
    assert_eq!(
        art_source("http://example.org/a.jpg"),
        ArtSource::Remote(String::from("http://example.org/a.jpg"))
    );
    assert_eq!(
        art_source("https://example.org/a.jpg"),
        ArtSource::Remote(String::from("https://example.org/a.jpg"))
    );
    assert_eq!(art_source("ftp://example.org/a.jpg"), ArtSource::Unsupported);
    assert_eq!(art_source("data:image/png;base64,AAAA"), ArtSource::Unsupported);
    assert_eq!(art_source("/tmp/cover.png"), ArtSource::Unsupported);
    assert_eq!(art_source(""), ArtSource::Unsupported);
    assert_eq!(art_source("HTTP://example.org"), ArtSource::Unsupported);
    assert_eq!(art_source("file://"), ArtSource::File(String::new()));
}

#[test]
fn missing_title_is_replaced() {
    assert_eq!(title_or_default(None), "Unknown Title");
    assert_eq!(title_or_default(Some(String::from("So What"))), "So What");
    assert_eq!(title_or_default(Some(String::new())), "");
}

#[test]
fn data_uri_wraps_base64_text() {
    assert_eq!(data_uri_of("aGVsbG8="), "data:image/png;base64,aGVsbG8=");
    assert_eq!(data_uri_of(""), "data:image/png;base64,");
}

#[test]
fn data_uri_encodes_bytes_in_standard_base64() {
    assert_eq!(data_uri(b"hello"), Some(String::from("data:image/png;base64,aGVsbG8=")));
    assert_eq!(data_uri(b""), Some(String::from("data:image/png;base64,")));
    assert_eq!(data_uri(b"f"), Some(String::from("data:image/png;base64,Zg==")));
    assert_eq!(data_uri(b"fo"), Some(String::from("data:image/png;base64,Zm8=")));
    assert_eq!(data_uri(b"foo"), Some(String::from("data:image/png;base64,Zm9v")));
    assert_eq!(data_uri(b"foobar"), Some(String::from("data:image/png;base64,Zm9vYmFy")));
    assert_eq!(
        data_uri(&[0xfb, 0xff, 0xfe, 0x00]),
        Some(String::from("data:image/png;base64,+//+AA=="))
    );
    assert_eq!(
        data_uri(&[0x89, b'P', b'N', b'G', 0x0d, 0x0a, 0x1a, 0x0a]),
        Some(String::from("data:image/png;base64,iVBORw0KGgo="))
    );
}

#[test]
fn info_starts_with_discovery() {
    assert_eq!(get_media_info(InfoSeen::Nothing), InfoNext::Discover);
}

#[test]
fn info_is_empty_without_a_player() {
    assert_eq!(get_media_info(InfoSeen::Session(None)), InfoNext::Done(None));
}

#[test]
fn info_without_art_reference_is_the_title_alone() {
    assert_eq!(
        get_media_info(InfoSeen::Session(Some(metadata(Some("Blue in Green"), None)))),
        InfoNext::Done(Some((String::from("Blue in Green"), None)))
    );
    assert_eq!(
        get_media_info(InfoSeen::Session(Some(metadata(None, None)))),
        InfoNext::Done(Some((String::from("Unknown Title"), None)))
    );
    assert_eq!(
        get_media_info(InfoSeen::Session(Some(metadata(Some("x"), Some("ftp://h/a.png"))))),
        InfoNext::Done(Some((String::from("x"), None)))
    );
}

#[test]
fn info_asks_for_the_artwork_where_it_can_be_had() {
    let (path, kept, local) = pending(Some("x"), "file:///tmp/a.png");
    assert_eq!(path, "/tmp/a.png");
    assert_eq!(kept.title(), "x");
    assert!(local);
    let (url, kept, local) = pending(None, "http://h/a.png");
    assert_eq!(url, "http://h/a.png");
    assert_eq!(kept.title(), "Unknown Title");
    assert!(!local);
    let (url, kept, local) = pending(Some("y"), "https://h/a.png");
    assert_eq!(url, "https://h/a.png");
    assert_eq!(kept.title(), "y");
    assert!(!local);
}

#[test]
fn info_ends_with_title_and_artwork() {
    let (_, kept, _) = pending(Some("x"), "file:///tmp/a.png");
    assert_eq!(
        get_media_info(InfoSeen::Artwork(kept, Some(b"hello".to_vec()))),
        InfoNext::Done(Some((
            String::from("x"),
            Some(String::from("data:image/png;base64,aGVsbG8="))
        )))
    );
    let (_, kept, _) = pending(None, "http://h/a.png");
    assert_eq!(
        get_media_info(InfoSeen::Artwork(kept, Some(Vec::new()))),
        InfoNext::Done(Some((
            String::from("Unknown Title"),
            Some(String::from("data:image/png;base64,"))
        )))
    );
}

#[test]
fn failed_artwork_keeps_the_title() {
    let (_, kept, _) = pending(Some("x"), "file:///gone.png");
    assert_eq!(
        get_media_info(InfoSeen::Artwork(kept, None)),
        InfoNext::Done(Some((String::from("x"), None)))
    );
    let (_, kept, _) = pending(None, "https://h/gone.png");
    assert_eq!(
        get_media_info(InfoSeen::Artwork(kept, None)),
        InfoNext::Done(Some((String::from("Unknown Title"), None)))
    );
}

#[test]
fn info_query_runs_to_its_end() {
    assert_eq!(get_media_info(InfoSeen::Nothing), InfoNext::Discover);
    let found = metadata(Some("Flamenco Sketches"), Some("file:///covers/kob.png"));
    let kept = match get_media_info(InfoSeen::Session(Some(found))) {
        InfoNext::ReadFile(path, kept) => {
            assert_eq!(path, "/covers/kob.png");
            kept
        }
        other => panic!("no read asked for: {:?}", other),
    };
    let done = get_media_info(InfoSeen::Artwork(kept, Some(vec![1, 2, 3])));
    assert_eq!(
        done,
        InfoNext::Done(Some((
            String::from("Flamenco Sketches"),
            Some(String::from("data:image/png;base64,AQID"))
        )))
    );
}
