//! The media bridge: playback control and playback state of the active media
//! session.
//!
//! Every operation follows the same two-path policy. The fast path is one
//! call into the native layer. Only when that call reports failure does the
//! bridge fall back: the host discovers the active session afresh, and the
//! bridge decides from what was found which call to make on it, if any. A
//! missing session is no error: the operation ends without effect.
//!
//! The bridge performs none of this itself. An operation is a function from
//! what the host observed last to what it should do next; the host does that,
//! reports what came back, and asks again until the operation is done.
//!
//! Positions and durations are whole microseconds.

pub use crate::media_info::get_media_info;
use vstd::prelude::*;

verus! {

/// Microseconds in a second.
pub const MICROS_PER_SECOND: i64 = 1_000_000;

/// The duration reported when the native layer answers the state query: it
/// knows the position but not the length of the track, so five minutes stand
/// in for the length.
pub const PLACEHOLDER_DURATION_US: u64 = 300_000_000;

/// The status with which the native layer reports success.
pub const NATIVE_OK: i64 = 0;

/// Why the media subsystem did not come up.
#[derive(Clone, Copy, Debug, PartialEq, Eq)]
pub enum MediaError {
    /// The native layer failed and no media session was found either.
    NoPlayers,
}

impl MediaError {
    /// The text of this error.
    pub open spec fn message_spec(self) -> Seq<char> {
        "No media players available"@
    }

    /// The text of this error.
    pub fn message(&self) -> (text: &'static str)
        ensures
            text@ == self.message_spec(),
    {
        "No media players available"
    }
}

/// One call on the fast path. Each replies with a status, `NATIVE_OK` for
/// success, but for `GetPosition`, which replies with the position in
/// microseconds or with a negative number for failure.
#[derive(Clone, Copy, Debug, PartialEq, Eq)]
pub enum NativeCall {
    /// Connect to the session bus.
    Init,
    /// Drop the connection.
    Cleanup,
    /// Start playback.
    Play,
    /// Pause playback.
    Pause,
    /// Skip to the next track.
    NextTrack,
    /// Go back to the previous track.
    PreviousTrack,
    /// Move the position by this many microseconds.
    Seek(i64),
    /// Move the position to this many microseconds.
    SetPosition(i64),
    /// Report the position.
    GetPosition,
}

/// One call on the session that the fallback path discovered.
#[derive(Clone, Copy, Debug, PartialEq, Eq)]
pub enum SessionCall {
    /// Start playback.
    Play,
    /// Pause playback.
    Pause,
    /// Skip to the next track.
    NextTrack,
    /// Go back to the previous track.
    PreviousTrack,
    /// Move the position of the current track to this many microseconds.
    SetPosition(u64),
}

/// What the host reads of a session when it discovers it.
#[derive(Clone, Copy, Debug, PartialEq, Eq)]
pub enum Probe {
    /// Only whether there is a session.
    Presence,
    /// The metadata of the current track.
    Metadata,
    /// The position, then the metadata of the current track.
    PositionAndMetadata,
}

/// The active session as the host found it. What was not asked for, or
/// could not be read, is absent.
#[derive(Clone, Copy, Debug, PartialEq, Eq)]
pub struct Session {
    /// The position, if it was read.
    pub position_us: Option<u64>,
    /// The length of the current track, if the metadata gave one.
    pub length_us: Option<u64>,
    /// Whether the metadata named the current track.
    pub track_known: bool,
}

/// What the host observed last.
#[derive(Clone, Copy, Debug, PartialEq, Eq)]
pub enum Seen {
    /// Nothing yet: the operation has just begun.
    Nothing,
    /// The native call returned this.
    Native(i64),
    /// Discovery ended: with the active session, or without one.
    Session(Option<Session>),
    /// The call on the session was made; the flag tells whether it succeeded.
    Performed(bool),
}

/// What an operation needs next.
#[derive(Debug, PartialEq, Eq)]
pub enum Next<T> {
    /// Make this native call and come back with `Seen::Native`.
    Native(NativeCall),
    /// Discover the active session, read this much of it, and come back with
    /// `Seen::Session`.
    Discover(Probe),
    /// Make this call on the session just discovered and come back with
    /// `Seen::Performed`.
    Session(SessionCall),
    /// The operation is over, with this result.
    Done(T),
}

/// How a playback command ended.
#[derive(Clone, Copy, Debug, PartialEq, Eq)]
pub enum Outcome {
    /// The native layer accepted it.
    Native,
    /// The native layer failed and the call was made on the session instead;
    /// the flag tells whether the session accepted it.
    Session(bool),
    /// Nothing was done: there was no session, or the session did not name
    /// the track whose position was to be set.
    NoOp,
}

/// Where playback stands.
#[derive(Clone, Copy, Debug, PartialEq, Eq)]
pub struct PlaybackState {
    /// The position in the current track.
    pub position_us: u64,
    /// The length of the current track.
    pub duration_us: u64,
}

/// A playback command.
#[derive(Clone, Copy, Debug, PartialEq, Eq)]
pub enum Command {
    /// Start playback.
    Play,
    /// Pause playback.
    Pause,
    /// Skip to the next track.
    NextTrack,
    /// Go back to the previous track.
    PreviousTrack,
    /// Move the position by this many seconds, forwards or backwards.
    Seek(i64),
    /// Move the position to this many microseconds.
    SetPosition(i64),
}

/// The `i64` nearest to `value`.
pub open spec fn saturate_i64(value: int) -> int {
    if value < i64::MIN {
        i64::MIN as int
    } else if value > i64::MAX {
        i64::MAX as int
    } else {
        value
    }
}

/// The `u64` nearest to `value`.
pub open spec fn saturate_u64(value: int) -> int {
    if value < 0 {
        0
    } else if value > u64::MAX {
        u64::MAX as int
    } else {
        value
    }
}

/// A seek offset in microseconds, as far as an `i64` reaches.
pub open spec fn seek_micros_spec(offset_secs: int) -> int {
    saturate_i64(offset_secs * MICROS_PER_SECOND)
}

/// Where a seek by `offset_secs` from `position_us` lands: never before the
/// start of the track.
pub open spec fn seek_target_spec(position_us: int, offset_secs: int) -> int {
    saturate_u64(position_us + offset_secs * MICROS_PER_SECOND)
}

/// A requested position, moved to the start of the track if it lies before.
pub open spec fn clamp_position_spec(position_us: int) -> int {
    if position_us < 0 {
        0
    } else {
        position_us
    }
}

/// The value read, or zero where nothing was read.
pub open spec fn or_zero(value: Option<u64>) -> u64 {
    match value {
        Some(read) => read,
        None => 0,
    }
}

/// The call that a command makes on the fast path.
pub open spec fn native_call_spec(command: Command) -> NativeCall {
    match command {
        Command::Play => NativeCall::Play,
        Command::Pause => NativeCall::Pause,
        Command::NextTrack => NativeCall::NextTrack,
        Command::PreviousTrack => NativeCall::PreviousTrack,
        Command::Seek(offset_secs) => NativeCall::Seek(seek_micros_spec(offset_secs as int) as i64),
        Command::SetPosition(position_us) => NativeCall::SetPosition(
            clamp_position_spec(position_us as int) as i64,
        ),
    }
}

/// What a command has read of the session when it falls back.
pub open spec fn probe_spec(command: Command) -> Probe {
    match command {
        Command::Seek(_) => Probe::PositionAndMetadata,
        Command::SetPosition(_) => Probe::Metadata,
        _ => Probe::Presence,
    }
}

/// The call that a command makes on the session it fell back to, if any. A
/// position is only set on a track that the session has named.
pub open spec fn session_call_spec(command: Command, session: Session) -> Option<SessionCall> {
    match command {
        Command::Play => Some(SessionCall::Play),
        Command::Pause => Some(SessionCall::Pause),
        Command::NextTrack => Some(SessionCall::NextTrack),
        Command::PreviousTrack => Some(SessionCall::PreviousTrack),
        Command::Seek(offset_secs) => if session.track_known {
            Some(
                SessionCall::SetPosition(
                    seek_target_spec(or_zero(session.position_us) as int, offset_secs as int) as u64,
                ),
            )
        } else {
            None
        },
        Command::SetPosition(position_us) => if session.track_known {
            Some(SessionCall::SetPosition(clamp_position_spec(position_us as int) as u64))
        } else {
            None
        },
    }
}

/// The two-path policy for a playback command: the native call first; on a
/// status other than `NATIVE_OK`, discovery; on a session, the call on it;
/// and the end of the command on success of the native call, on a missing
/// session, on nothing to call, and once the session call was made.
pub open spec fn step_spec(command: Command, seen: Seen) -> Next<Outcome> {
    match seen {
        Seen::Nothing => Next::Native(native_call_spec(command)),
        Seen::Native(status) => if status == NATIVE_OK {
            Next::Done(Outcome::Native)
        } else {
            Next::Discover(probe_spec(command))
        },
        Seen::Session(None) => Next::Done(Outcome::NoOp),
        Seen::Session(Some(session)) => match session_call_spec(command, session) {
            Some(call) => Next::Session(call),
            None => Next::Done(Outcome::NoOp),
        },
        Seen::Performed(accepted) => Next::Done(Outcome::Session(accepted)),
    }
}

/// The steps of the state query: the native position first, with the
/// placeholder for the duration; on a negative reply, discovery, and then
/// position and length as the session gave them, zero where it gave none.
pub open spec fn state_step_spec(seen: Seen) -> Next<Option<PlaybackState>> {
    match seen {
        Seen::Nothing => Next::Native(NativeCall::GetPosition),
        Seen::Native(position_us) => if position_us >= 0 {
            Next::Done(
                Some(
                    PlaybackState {
                        position_us: position_us as u64,
                        duration_us: PLACEHOLDER_DURATION_US,
                    },
                ),
            )
        } else {
            Next::Discover(Probe::PositionAndMetadata)
        },
        Seen::Session(Some(session)) => Next::Done(
            Some(
                PlaybackState {
                    position_us: or_zero(session.position_us),
                    duration_us: or_zero(session.length_us),
                },
            ),
        ),
        Seen::Session(None) => Next::Done(None),
        Seen::Performed(_) => Next::Done(None),
    }
}

/// The steps of bringing the media subsystem up: the native call first; on
/// failure, discovery, which succeeds exactly when a session is found.
pub open spec fn init_media_step_spec(seen: Seen) -> Next<Result<(), MediaError>> {
    match seen {
        Seen::Nothing => Next::Native(NativeCall::Init),
        Seen::Native(status) => if status == NATIVE_OK {
            Next::Done(Ok(()))
        } else {
            Next::Discover(Probe::Presence)
        },
        Seen::Session(Some(_)) => Next::Done(Ok(())),
        Seen::Session(None) => Next::Done(Err(MediaError::NoPlayers)),
        Seen::Performed(_) => Next::Done(Err(MediaError::NoPlayers)),
    }
}

/// The steps of shutting the media subsystem down: the native call, then
/// the end, whatever came back.
pub open spec fn cleanup_media_step_spec(seen: Seen) -> Next<()> {
    match seen {
        Seen::Nothing => Next::Native(NativeCall::Cleanup),
        _ => Next::Done(()),
    }
}

/// Converts a seek offset from seconds to microseconds, stopping at the
/// ends of `i64`.
pub fn seek_micros(offset_secs: i64) -> (micros: i64)
    ensures
        micros == seek_micros_spec(offset_secs as int),
{
    let wide: i128 = offset_secs as i128 * 1_000_000;
    assert(wide == offset_secs * MICROS_PER_SECOND);
    if wide < i64::MIN as i128 {
        i64::MIN
    } else if wide > i64::MAX as i128 {
        i64::MAX
    } else {
        wide as i64
    }
}

/// The position at which a seek by `offset_secs` from `position_us` lands:
/// the sum, but never before the start of the track nor beyond `u64`.
pub fn seek_target(position_us: u64, offset_secs: i64) -> (target: u64)
    ensures
        target == seek_target_spec(position_us as int, offset_secs as int),
{
    let wide: i128 = position_us as i128 + offset_secs as i128 * 1_000_000;
    assert(wide == position_us + offset_secs * MICROS_PER_SECOND);
    if wide < 0 {
        0
    } else if wide > u64::MAX as i128 {
        u64::MAX
    } else {
        wide as u64
    }
}

/// Moves a requested position to the start of the track if it lies before.
pub fn clamp_position(position_us: i64) -> (clamped: i64)
    ensures
        clamped == clamp_position_spec(position_us as int),
        clamped >= 0,
{
    if position_us < 0 {
        0
    } else {
        position_us
    }
}

/// The call that `command` makes on the fast path.
pub fn native_call(command: Command) -> (call: NativeCall)
    ensures
        call == native_call_spec(command),
{
    match command {
        Command::Play => NativeCall::Play,
        Command::Pause => NativeCall::Pause,
        Command::NextTrack => NativeCall::NextTrack,
        Command::PreviousTrack => NativeCall::PreviousTrack,
        Command::Seek(offset_secs) => NativeCall::Seek(seek_micros(offset_secs)),
        Command::SetPosition(position_us) => NativeCall::SetPosition(clamp_position(position_us)),
    }
}

/// The call that `command` makes on the session it fell back to, if any.
pub fn session_call(command: Command, session: Session) -> (call: Option<SessionCall>)
    ensures
        call == session_call_spec(command, session),
{
    match command {
        Command::Play => Some(SessionCall::Play),
        Command::Pause => Some(SessionCall::Pause),
        Command::NextTrack => Some(SessionCall::NextTrack),
        Command::PreviousTrack => Some(SessionCall::PreviousTrack),
        Command::Seek(offset_secs) => {
            if session.track_known {
                let position_us = match session.position_us {
                    Some(read) => read,
                    None => 0,
                };
                Some(SessionCall::SetPosition(seek_target(position_us, offset_secs)))
            } else {
                None
            }
        },
        Command::SetPosition(position_us) => {
            if session.track_known {
                Some(SessionCall::SetPosition(clamp_position(position_us) as u64))
            } else {
                None
            }
        },
    }
}

/// One step of a playback command under the two-path policy.
pub fn step(command: Command, seen: Seen) -> (next: Next<Outcome>)
    ensures
        next == step_spec(command, seen),
{
    match seen {
        Seen::Nothing => Next::Native(native_call(command)),
        Seen::Native(status) => {
            if status == NATIVE_OK {
                Next::Done(Outcome::Native)
            } else {
                let probe = match command {
                    Command::Seek(_) => Probe::PositionAndMetadata,
                    Command::SetPosition(_) => Probe::Metadata,
                    _ => Probe::Presence,
                };
                Next::Discover(probe)
            }
        },
        Seen::Session(None) => Next::Done(Outcome::NoOp),
        Seen::Session(Some(session)) => {
            match session_call(command, session) {
                Some(call) => Next::Session(call),
                None => Next::Done(Outcome::NoOp),
            }
        },
        Seen::Performed(accepted) => Next::Done(Outcome::Session(accepted)),
    }
}

/// Brings the media subsystem up: the native call first; when it fails, the
/// subsystem still counts as up if a session can be discovered.
pub fn init_media_system(seen: Seen) -> (next: Next<Result<(), MediaError>>)
    ensures
        next == init_media_step_spec(seen),
{
    match seen {
        Seen::Nothing => Next::Native(NativeCall::Init),
        Seen::Native(status) => {
            if status == NATIVE_OK {
                Next::Done(Ok(()))
            } else {
                Next::Discover(Probe::Presence)
            }
        },
        Seen::Session(Some(_)) => Next::Done(Ok(())),
        Seen::Session(None) => Next::Done(Err(MediaError::NoPlayers)),
        Seen::Performed(_) => Next::Done(Err(MediaError::NoPlayers)),
    }
}

/// Shuts the media subsystem down: one native call, whose reply is ignored.
pub fn cleanup_media_system(seen: Seen) -> (next: Next<()>)
    ensures
        next == cleanup_media_step_spec(seen),
{
    match seen {
        Seen::Nothing => Next::Native(NativeCall::Cleanup),
        _ => Next::Done(()),
    }
}

/// Moves the position by `offset_secs` seconds. The fast path seeks by the
/// offset in microseconds. The fallback reads the position, adds the offset,
/// stops at the start of the track, and sets the result as the new position
/// of the current track; if the session does not name that track, nothing
/// is done.
pub fn seek(offset_secs: i64, seen: Seen) -> (next: Next<Outcome>)
    ensures
        next == step_spec(Command::Seek(offset_secs), seen),
{
    step(Command::Seek(offset_secs), seen)
}

/// Reports position and duration. The native layer knows the position only,
/// so its answer carries `PLACEHOLDER_DURATION_US`; the fallback reports both
/// as the session gives them. Without a session there is nothing to report.
pub fn get_media_state(seen: Seen) -> (next: Next<Option<PlaybackState>>)
    ensures
        next == state_step_spec(seen),
{
    match seen {
        Seen::Nothing => Next::Native(NativeCall::GetPosition),
        Seen::Native(position_us) => {
            if position_us >= 0 {
                Next::Done(
                    Some(
                        PlaybackState {
                            position_us: position_us as u64,
                            duration_us: PLACEHOLDER_DURATION_US,
                        },
                    ),
                )
            } else {
                Next::Discover(Probe::PositionAndMetadata)
            }
        },
        Seen::Session(Some(session)) => {
            let position_us = match session.position_us {
                Some(read) => read,
                None => 0,
            };
            let duration_us = match session.length_us {
                Some(read) => read,
                None => 0,
            };
            Next::Done(Some(PlaybackState { position_us, duration_us }))
        },
        Seen::Session(None) => Next::Done(None),
        Seen::Performed(_) => Next::Done(None),
    }
}

/// Moves the position to `position_us`, or to the start of the track if
/// that lies before it, on either path.
pub fn set_position(position_us: i64, seen: Seen) -> (next: Next<Outcome>)
    ensures
        next == step_spec(Command::SetPosition(position_us), seen),
{
    step(Command::SetPosition(position_us), seen)
}

/// Skips to the next track.
pub fn next_track(seen: Seen) -> (next: Next<Outcome>)
    ensures
        next == step_spec(Command::NextTrack, seen),
{
    step(Command::NextTrack, seen)
}

/// Goes back to the previous track.
pub fn previous_track(seen: Seen) -> (next: Next<Outcome>)
    ensures
        next == step_spec(Command::PreviousTrack, seen),
{
    step(Command::PreviousTrack, seen)
}

/// Starts playback.
pub fn play(seen: Seen) -> (next: Next<Outcome>)
    ensures
        next == step_spec(Command::Play, seen),
{
    step(Command::Play, seen)
}

/// Pauses playback.
pub fn pause(seen: Seen) -> (next: Next<Outcome>)
    ensures
        next == step_spec(Command::Pause, seen),
{
    step(Command::Pause, seen)
}

/// A host and the world behind it, as the laws below see them: what the
/// native call returns, which session discovery finds, and whether that
/// session accepts a call.
pub struct Host {
    /// The reply of the native call.
    pub native: i64,
    /// The active session, if there is one.
    pub session: Option<Session>,
    /// Whether the session accepts the call made on it.
    pub accepted: bool,
}

impl Host {
    /// What the host observes when it does what `next` asks for.
    pub open spec fn answer<T>(self, next: Next<T>) -> Seen {
        match next {
            Next::Native(_) => Seen::Native(self.native),
            Next::Discover(_) => Seen::Session(self.session),
            Next::Session(_) => Seen::Performed(self.accepted),
            Next::Done(_) => Seen::Nothing,
        }
    }
}

impl Session {
    /// The session after it accepted `call`, as far as its position goes.
    pub open spec fn after(self, call: SessionCall) -> Session {
        match call {
            SessionCall::SetPosition(position_us) => Session {
                position_us: Some(position_us),
                length_us: self.length_us,
                track_known: self.track_known,
            },
            _ => self,
        }
    }
}

/// Everything an operation asks of `host`, in order, from the observation
/// `seen` on and for at most `turns` turns: each step is answered by the
/// host and the answer is the next observation, until the operation is done.
pub open spec fn trace<T>(
    operation: spec_fn(Seen) -> Next<T>,
    host: Host,
    seen: Seen,
    turns: nat,
) -> Seq<Next<T>>
    decreases turns,
{
    if turns == 0 {
        Seq::empty()
    } else {
        let next = operation(seen);
        if next is Done {
            seq![next]
        } else {
            seq![next] + trace(operation, host, host.answer(next), (turns - 1) as nat)
        }
    }
}

/// The first success wins: a command that the native layer accepts makes
/// that one call and is done, without discovery.
pub proof fn lemma_fast_path_wins(command: Command, host: Host, turns: nat)
    requires
        host.native == NATIVE_OK,
        turns >= 2,
    ensures
        trace(|seen: Seen| step_spec(command, seen), host, Seen::Nothing, turns) == seq![
            Next::Native(native_call_spec(command)),
            Next::Done(Outcome::Native),
        ],
{
    let operation = |seen: Seen| step_spec(command, seen);
    reveal_with_fuel(trace, 3);
    assert(trace(operation, host, Seen::Nothing, turns) =~= seq![
        Next::Native(native_call_spec(command)),
        Next::Done(Outcome::Native),
    ]);
}

/// The run of a command whose native call fails: the native call, then one
/// discovery, then at most one call on the session found, and the end.
pub open spec fn fallback_run(command: Command, host: Host) -> Seq<Next<Outcome>> {
    let opening = seq![
        Next::<Outcome>::Native(native_call_spec(command)),
        Next::<Outcome>::Discover(probe_spec(command)),
    ];
    match host.session {
        None => opening.push(Next::Done(Outcome::NoOp)),
        Some(session) => match session_call_spec(command, session) {
            None => opening.push(Next::Done(Outcome::NoOp)),
            Some(call) => opening.push(Next::Session(call)).push(
                Next::Done(Outcome::Session(host.accepted)),
            ),
        },
    }
}

/// When the native call of a command fails, the fallback is entered exactly
/// once, and what the session did with the call, not the native status, is
/// the outcome.
pub proof fn lemma_fallback_once(command: Command, host: Host, turns: nat)
    requires
        host.native != NATIVE_OK,
        turns >= 4,
    ensures
        trace(|seen: Seen| step_spec(command, seen), host, Seen::Nothing, turns) == fallback_run(
            command,
            host,
        ),
{
    let operation = |seen: Seen| step_spec(command, seen);
    reveal_with_fuel(trace, 5);
    assert(trace(operation, host, Seen::Nothing, turns) =~= fallback_run(command, host));
}

/// When the native call of `play` fails and a session is active, the host is
/// asked for the native call, one discovery and one `Play` on the session,
/// and the command ends with what the session made of it.
pub proof fn lemma_play_falls_back_once(host: Host, turns: nat)
    requires
        host.native != NATIVE_OK,
        host.session is Some,
        turns >= 4,
    ensures
        trace(|seen: Seen| step_spec(Command::Play, seen), host, Seen::Nothing, turns) == seq![
            Next::Native(NativeCall::Play),
            Next::Discover(Probe::Presence),
            Next::Session(SessionCall::Play),
            Next::Done(Outcome::Session(host.accepted)),
        ],
{
    lemma_fallback_once(Command::Play, host, turns);
    assert(fallback_run(Command::Play, host) =~= seq![
        Next::Native(NativeCall::Play),
        Next::Discover(Probe::Presence),
        Next::Session(SessionCall::Play),
        Next::Done(Outcome::Session(host.accepted)),
    ]);
}

/// Without an active session every playback command ends without effect,
/// and the state query has nothing to report: once the native call has
/// failed and one discovery has found nothing, nothing more is asked.
pub proof fn lemma_no_session_no_op(command: Command, host: Host, turns: nat)
    requires
        host.session is None,
        turns >= 3,
    ensures
        step_spec(command, Seen::Session(None)) == Next::Done(Outcome::NoOp),
        state_step_spec(Seen::Session(None)) == Next::<Option<PlaybackState>>::Done(None),
        host.native != NATIVE_OK ==> trace(
            |seen: Seen| step_spec(command, seen),
            host,
            Seen::Nothing,
            turns,
        ) == seq![
            Next::Native(native_call_spec(command)),
            Next::Discover(probe_spec(command)),
            Next::Done(Outcome::NoOp),
        ],
        host.native < 0 ==> trace(|seen: Seen| state_step_spec(seen), host, Seen::Nothing, turns)
            == seq![
            Next::<Option<PlaybackState>>::Native(NativeCall::GetPosition),
            Next::<Option<PlaybackState>>::Discover(Probe::PositionAndMetadata),
            Next::<Option<PlaybackState>>::Done(None),
        ],
{
    reveal_with_fuel(trace, 4);
    if host.native != NATIVE_OK {
        assert(trace(|seen: Seen| step_spec(command, seen), host, Seen::Nothing, turns) =~= seq![
            Next::Native(native_call_spec(command)),
            Next::Discover(probe_spec(command)),
            Next::Done(Outcome::NoOp),
        ]);
    }
    if host.native < 0 {
        assert(trace(|seen: Seen| state_step_spec(seen), host, Seen::Nothing, turns) =~= seq![
            Next::<Option<PlaybackState>>::Native(NativeCall::GetPosition),
            Next::<Option<PlaybackState>>::Discover(Probe::PositionAndMetadata),
            Next::<Option<PlaybackState>>::Done(None),
        ]);
    }
}

/// The fallback is entered on a failed native call and on nothing else, and
/// the session is called on a session found and on nothing else.
pub proof fn lemma_fallback_only_on_failure(command: Command, seen: Seen)
    ensures
        step_spec(command, seen) is Discover <==> (seen matches Seen::Native(status) && status
            != NATIVE_OK),
        step_spec(command, seen) is Native <==> seen is Nothing,
        step_spec(command, seen) is Session ==> (seen matches Seen::Session(found) && found is Some),
        state_step_spec(seen) is Discover <==> (seen matches Seen::Native(position_us)
            && position_us < 0),
        init_media_step_spec(seen) is Discover <==> (seen matches Seen::Native(status) && status
            != NATIVE_OK),
{
}

/// A seek on the fallback path sets the position to the old position plus
/// the offset, or to the start of the track where that sum is negative, and
/// the state query then reports that position.
pub proof fn lemma_seek_then_state(offset_secs: i64, session: Session)
    requires
        session.track_known,
    ensures
        ({
            let from = or_zero(session.position_us) as int;
            let sum = from + offset_secs * MICROS_PER_SECOND;
            &&& step_spec(Command::Seek(offset_secs), Seen::Session(Some(session))) matches Next::Session(
                call,
            )
            &&& state_step_spec(Seen::Session(Some(session.after(call)))) matches Next::Done(
                Some(state),
            )
            &&& state.position_us == seek_target_spec(from, offset_secs as int)
            &&& sum <= 0 ==> state.position_us == 0
            &&& 0 <= sum <= u64::MAX ==> state.position_us == sum
        }),
{
}

/// A position to set is never negative on either path, and a position that
/// is not negative is set as it is.
pub proof fn lemma_set_position_clamps(position_us: i64, session: Session)
    requires
        session.track_known,
    ensures
        native_call_spec(Command::SetPosition(position_us)) == NativeCall::SetPosition(
            if position_us < 0 {
                0
            } else {
                position_us
            },
        ),
        session_call_spec(Command::SetPosition(position_us), session) == Some(
            SessionCall::SetPosition(
                if position_us < 0 {
                    0
                } else {
                    position_us as u64
                },
            ),
        ),
{
}

} // verus!
