//! A bridge between a user interface and two facilities of the host: the
//! output mixer and the active media-player session.
//!
//! The crate holds the decisions of the bridge and performs no input or
//! output. Every operation is a function from what its host has observed so
//! far to the next thing to do, so the host runs a plain loop: do what is
//! asked, report what came back, until the operation is done.
//!
//! This file holds the lifecycle of the bridge: the order in which the two
//! subsystems come up and go down, and the states that the bridge passes
//! through from start to shutdown.

pub mod media_control;
pub mod media_info;
pub mod volume_control;
pub mod watcher;

use crate::media_control::MediaError;
use crate::volume_control::VolumeError;
use vstd::prelude::*;
use vstd::string::*;

verus! {

/// The exit code of a process whose bridge did not come up.
pub const EXIT_FAILED_STARTUP: i32 = 1;

/// The exit code of every other process.
pub const EXIT_OK: i32 = 0;

/// One of the two subsystems of the bridge.
#[derive(Clone, Copy, Debug, PartialEq, Eq)]
pub enum Subsystem {
    /// The volume bridge and its native handle.
    Audio,
    /// The media bridge.
    Media,
}

/// Why the bridge did not come up.
#[derive(Clone, Copy, Debug, PartialEq, Eq)]
pub enum InitError {
    /// The audio subsystem failed; the media subsystem was not tried.
    Audio(VolumeError),
    /// The audio subsystem came up and the media subsystem failed.
    Media(MediaError),
}

impl InitError {
    /// The text of this error: which subsystem failed, and why.
    pub open spec fn message_spec(self) -> Seq<char> {
        match self {
            InitError::Audio(cause) => "Audio init failed: "@ + cause.message_spec(),
            InitError::Media(cause) => "Media init failed: "@ + cause.message_spec(),
        }
    }

    /// The text of this error: which subsystem failed, and why.
    pub fn message(&self) -> (text: String)
        ensures
            text@ == self.message_spec(),
    {
        match self {
            InitError::Audio(cause) => {
                let mut text = String::from_str("Audio init failed: ");
                text.append(cause.message());
                text
            },
            InitError::Media(cause) => {
                let mut text = String::from_str("Media init failed: ");
                text.append(cause.message());
                text
            },
        }
    }
}

/// What the host has observed of the startup so far.
#[derive(Clone, Copy, Debug, PartialEq, Eq)]
pub enum Startup {
    /// Nothing yet.
    Nothing,
    /// The audio subsystem was initialised, with this result.
    Audio(Result<(), VolumeError>),
    /// The media subsystem was initialised, with this result.
    Media(Result<(), MediaError>),
}

/// What the startup needs next.
#[derive(Clone, Copy, Debug, PartialEq, Eq)]
pub enum Boot {
    /// Initialise this subsystem and come back with its result.
    Init(Subsystem),
    /// The startup is over, with this result.
    Done(Result<(), InitError>),
}

/// The steps of the startup: audio first; media only once audio is up; the
/// end at the first failure, which names the subsystem that failed, or when
/// both are up.
pub open spec fn init_step_spec(seen: Startup) -> Boot {
    match seen {
        Startup::Nothing => Boot::Init(Subsystem::Audio),
        Startup::Audio(Ok(_)) => Boot::Init(Subsystem::Media),
        Startup::Audio(Err(cause)) => Boot::Done(Err(InitError::Audio(cause))),
        Startup::Media(Ok(_)) => Boot::Done(Ok(())),
        Startup::Media(Err(cause)) => Boot::Done(Err(InitError::Media(cause))),
    }
}

/// The subsystem to shut down after `stopped` was shut down, if any is
/// left: media first, then audio, the reverse of the startup.
pub open spec fn cleanup_step_spec(stopped: Option<Subsystem>) -> Option<Subsystem> {
    match stopped {
        None => Some(Subsystem::Media),
        Some(Subsystem::Media) => Some(Subsystem::Audio),
        Some(Subsystem::Audio) => None,
    }
}

/// Brings the bridge up: the audio subsystem, then the media subsystem. The
/// first failure ends the startup, and a subsystem after it is not tried.
pub fn init_native_systems(seen: Startup) -> (next: Boot)
    ensures
        next == init_step_spec(seen),
{
    match seen {
        Startup::Nothing => Boot::Init(Subsystem::Audio),
        Startup::Audio(Ok(_)) => Boot::Init(Subsystem::Media),
        Startup::Audio(Err(cause)) => Boot::Done(Err(InitError::Audio(cause))),
        Startup::Media(Ok(_)) => Boot::Done(Ok(())),
        Startup::Media(Err(cause)) => Boot::Done(Err(InitError::Media(cause))),
    }
}

/// Takes the bridge down: names the subsystem to shut down next, given the
/// one shut down last, in the reverse order of the startup. How a shutdown
/// went is not asked: failures are ignored.
pub fn cleanup_native_systems(stopped: Option<Subsystem>) -> (next: Option<Subsystem>)
    ensures
        next == cleanup_step_spec(stopped),
{
    match stopped {
        None => Some(Subsystem::Media),
        Some(Subsystem::Media) => Some(Subsystem::Audio),
        Some(Subsystem::Audio) => None,
    }
}

/// The state of the bridge over the life of its process.
#[derive(Clone, Copy, Debug, PartialEq, Eq)]
pub enum Lifecycle {
    /// The startup has not ended yet.
    Uninitialized,
    /// Both subsystems are up; commands are served.
    Ready,
    /// The startup failed; the process is to end.
    Failed,
    /// The application is closing; the subsystems are being shut down.
    ShuttingDown,
}

impl Lifecycle {
    /// The state after the startup ended: from `Uninitialized`, `Ready` on
    /// success and `Failed` on failure; any other state stays.
    pub open spec fn after_startup(self, succeeded: bool) -> Lifecycle {
        match self {
            Lifecycle::Uninitialized => if succeeded {
                Lifecycle::Ready
            } else {
                Lifecycle::Failed
            },
            _ => self,
        }
    }

    /// The state after the application asked to close, and whether the
    /// subsystems are to be shut down now: from `Ready`, `ShuttingDown` and
    /// yes; any other state stays, and no.
    pub open spec fn after_close(self) -> (Lifecycle, bool) {
        match self {
            Lifecycle::Ready => (Lifecycle::ShuttingDown, true),
            _ => (self, false),
        }
    }

    /// The exit code of a process that ends in this state.
    pub open spec fn exit_code_spec(self) -> i32 {
        match self {
            Lifecycle::Failed => EXIT_FAILED_STARTUP,
            _ => EXIT_OK,
        }
    }

    /// The state in which every bridge begins.
    pub fn new() -> (state: Lifecycle)
        ensures
            state == Lifecycle::Uninitialized,
    {
        Lifecycle::Uninitialized
    }

    /// Records how the startup ended.
    pub fn startup_ended(self, result: &Result<(), InitError>) -> (state: Lifecycle)
        ensures
            state == self.after_startup(result is Ok),
    {
        match self {
            Lifecycle::Uninitialized => match result {
                Ok(_) => Lifecycle::Ready,
                Err(_) => Lifecycle::Failed,
            },
            Lifecycle::Ready => Lifecycle::Ready,
            Lifecycle::Failed => Lifecycle::Failed,
            Lifecycle::ShuttingDown => Lifecycle::ShuttingDown,
        }
    }

    /// Records that the application asked to close, and tells whether the
    /// subsystems are to be shut down now.
    pub fn close_requested(self) -> (after: (Lifecycle, bool))
        ensures
            after == self.after_close(),
    {
        match self {
            Lifecycle::Ready => (Lifecycle::ShuttingDown, true),
            Lifecycle::Uninitialized => (Lifecycle::Uninitialized, false),
            Lifecycle::Failed => (Lifecycle::Failed, false),
            Lifecycle::ShuttingDown => (Lifecycle::ShuttingDown, false),
        }
    }

    /// Whether commands are served in this state.
    pub fn accepts_commands(&self) -> (ready: bool)
        ensures
            ready == (*self == Lifecycle::Ready),
    {
        match self {
            Lifecycle::Ready => true,
            _ => false,
        }
    }

    /// The exit code of a process that ends in this state.
    pub fn exit_code(&self) -> (code: i32)
        ensures
            code == self.exit_code_spec(),
    {
        match self {
            Lifecycle::Failed => EXIT_FAILED_STARTUP,
            _ => EXIT_OK,
        }
    }
}

/// The startup asks for audio before media, asks for media only after audio
/// came up, and never asks for anything once a subsystem failed.
pub proof fn lemma_startup_order(seen: Startup)
    ensures
        init_step_spec(seen) == Boot::Init(Subsystem::Audio) <==> seen == Startup::Nothing,
        init_step_spec(seen) == Boot::Init(Subsystem::Media) <==> (seen matches Startup::Audio(
            result,
        ) && result is Ok),
        (init_step_spec(seen) matches Boot::Done(result) && result is Ok) <==> (
        seen matches Startup::Media(result) && result is Ok),
        (seen matches Startup::Audio(Err(cause)) ==> init_step_spec(seen) == Boot::Done(
            Err(InitError::Audio(cause)),
        )),
        (seen matches Startup::Media(Err(cause)) ==> init_step_spec(seen) == Boot::Done(
            Err(InitError::Media(cause)),
        )),
{
}

/// The shutdown takes the subsystems down in the reverse order of the
/// startup, each once, and then is over.
pub proof fn lemma_cleanup_order()
    ensures
        cleanup_step_spec(None) == Some(Subsystem::Media),
        cleanup_step_spec(cleanup_step_spec(None)) == Some(Subsystem::Audio),
        cleanup_step_spec(cleanup_step_spec(cleanup_step_spec(None))) == None::<Subsystem>,
{
}

/// The lifecycle runs one way: no step leads back to `Uninitialized`, the
/// startup is recorded once, and of any two requests to close at most the
/// first shuts the subsystems down.
pub proof fn lemma_lifecycle_one_shot(state: Lifecycle, succeeded: bool, again: bool)
    ensures
        state != Lifecycle::Uninitialized ==> state.after_startup(succeeded) == state,
        state.after_startup(succeeded) != Lifecycle::Uninitialized,
        state.after_startup(succeeded).after_startup(again) == state.after_startup(succeeded),
        state != Lifecycle::Uninitialized ==> state.after_close().0 != Lifecycle::Uninitialized,
        state.after_close().1 <==> state == Lifecycle::Ready,
        !state.after_close().0.after_close().1,
        state.after_close().0.after_close().0 == state.after_close().0,
{
}

/// A process exits with `EXIT_FAILED_STARTUP` exactly when its startup
/// failed.
pub proof fn lemma_exit_code(succeeded: bool)
    ensures
        Lifecycle::Uninitialized.after_startup(succeeded).exit_code_spec() == (if succeeded {
            EXIT_OK
        } else {
            EXIT_FAILED_STARTUP
        }),
        Lifecycle::Uninitialized.after_startup(true).after_close().0.exit_code_spec() == EXIT_OK,
{
}

} // verus!
