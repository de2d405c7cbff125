use media_bridge::media_control::MediaError;
use media_bridge::volume_control::VolumeError;
use media_bridge::watcher::{event_name, Watcher, POLL_INTERVAL_MS};
use media_bridge::{
    cleanup_native_systems, init_native_systems, Boot, InitError, Lifecycle, Startup, Subsystem,
    EXIT_FAILED_STARTUP, EXIT_OK,
};

fn start(audio: Result<(), VolumeError>, media: Result<(), MediaError>) -> (Result<(), InitError>, Vec<Subsystem>) {
    let mut asked = Vec::new();
    let mut seen = Startup::Nothing;
    loop {
        match init_native_systems(seen) {
            Boot::Init(Subsystem::Audio) => {
                asked.push(Subsystem::Audio);
                seen = Startup::Audio(audio);
            }
            Boot::Init(Subsystem::Media) => {
                asked.push(Subsystem::Media);
                seen = Startup::Media(media);
            }
            Boot::Done(result) => return (result, asked),
        }
        assert!(asked.len() <= 2);
    }
}

#[test]
fn startup_brings_audio_up_before_media() {
    let (result, asked) = start(Ok(()), Ok(()));
    assert_eq!(result, Ok(()));
    assert_eq!(asked, vec![Subsystem::Audio, Subsystem::Media]);
}

#[test]
fn audio_failure_ends_the_startup() {
    let (result, asked) = start(Err(VolumeError::Init), Ok(()));
    assert_eq!(result, Err(InitError::Audio(VolumeError::Init)));
    assert_eq!(asked, vec![Subsystem::Audio]);
    let (result, asked) = start(Err(VolumeError::Lock), Err(MediaError::NoPlayers));
    assert_eq!(result, Err(InitError::Audio(VolumeError::Lock)));
    assert_eq!(asked, vec![Subsystem::Audio]);
}

#[test]
fn media_failure_ends_the_startup() {
    let (result, asked) = start(Ok(()), Err(MediaError::NoPlayers));
    assert_eq!(result, Err(InitError::Media(MediaError::NoPlayers)));
    assert_eq!(asked, vec![Subsystem::Audio, Subsystem::Media]);
}

#[test]
fn startup_steps_one_by_one() {
    assert_eq!(init_native_systems(Startup::Nothing), Boot::Init(Subsystem::Audio));
    assert_eq!(init_native_systems(Startup::Audio(Ok(()))), Boot::Init(Subsystem::Media));
    assert_eq!(init_native_systems(Startup::Media(Ok(()))), Boot::Done(Ok(())));
    assert_eq!(
        init_native_systems(Startup::Audio(Err(VolumeError::Lock))),
        Boot::Done(Err(InitError::Audio(VolumeError::Lock)))
    );
    assert_eq!(
        init_native_systems(Startup::Media(Err(MediaError::NoPlayers))),
        Boot::Done(Err(InitError::Media(MediaError::NoPlayers)))
    );
}

#[test]
fn init_errors_name_the_subsystem() {
    assert_eq!(
        InitError::Audio(VolumeError::Init).message(),
        "Audio init failed: Failed to initialize audio system"
    );
    assert_eq!(
        InitError::Audio(VolumeError::Lock).message(),
        "Audio init failed: Failed to lock audio control"
    );
    assert_eq!(
        InitError::Media(MediaError::NoPlayers).message(),
        "Media init failed: No media players available"
    );
}

#[test]
fn cleanup_runs_in_reverse_order() {
    assert_eq!(cleanup_native_systems(None), Some(Subsystem::Media));
    assert_eq!(cleanup_native_systems(Some(Subsystem::Media)), Some(Subsystem::Audio));
    assert_eq!(cleanup_native_systems(Some(Subsystem::Audio)), None);

    let mut order = Vec::new();
    let mut stopped = None;
    while let Some(next) = cleanup_native_systems(stopped) {
        order.push(next);
        stopped = Some(next);
        assert!(order.len() <= 2);
    }
    assert_eq!(order, vec![Subsystem::Media, Subsystem::Audio]);
}

#[test]
fn lifecycle_goes_from_start_to_shutdown() {
    let state = Lifecycle::new();
    assert_eq!(state, Lifecycle::Uninitialized);
    assert!(!state.accepts_commands());
    let state = state.startup_ended(&Ok(()));
    assert_eq!(state, Lifecycle::Ready);
    assert!(state.accepts_commands());
    let (state, cleanup) = state.close_requested();
    assert_eq!(state, Lifecycle::ShuttingDown);
    assert!(cleanup);
    assert!(!state.accepts_commands());
    assert_eq!(state.exit_code(), 0);
}

#[test]
fn failed_startup_exits_with_one() {
    let state = Lifecycle::new().startup_ended(&Err(InitError::Audio(VolumeError::Init)));
    assert_eq!(state, Lifecycle::Failed);
    assert!(!state.accepts_commands());
    assert_eq!(state.exit_code(), 1);
    assert_eq!(EXIT_FAILED_STARTUP, 1);
    assert_eq!(EXIT_OK, 0);
    assert_eq!(Lifecycle::Uninitialized.exit_code(), 0);
    assert_eq!(Lifecycle::Ready.exit_code(), 0);
    assert_eq!(Lifecycle::ShuttingDown.exit_code(), 0);
}

#[test]
fn second_close_request_cleans_nothing() {
    let (state, first) = Lifecycle::Ready.close_requested();
    let (state, second) = state.close_requested();
    assert!(first);
    assert!(!second);
    assert_eq!(state, Lifecycle::ShuttingDown);
    assert_eq!(Lifecycle::Uninitialized.close_requested(), (Lifecycle::Uninitialized, false));
    assert_eq!(Lifecycle::Failed.close_requested(), (Lifecycle::Failed, false));
}

#[test]
fn lifecycle_never_goes_back() {
    for state in [Lifecycle::Ready, Lifecycle::Failed, Lifecycle::ShuttingDown] {
        assert_eq!(state.startup_ended(&Ok(())), state);
        assert_eq!(state.startup_ended(&Err(InitError::Media(MediaError::NoPlayers))), state);
        assert_ne!(state.close_requested().0, Lifecycle::Uninitialized);
    }
}

#[test]
fn watcher_emits_one_event_for_one_change() {
    let mut watcher = Watcher::new(40);
    let mut events = Vec::new();
    for reading in [40, 40, 40, 55, 55, 55, 55] {
        if let Some(payload) = watcher.observe(reading) {
            events.push(payload);
        }
    }
    assert_eq!(events, vec![55]);
    assert_eq!(watcher.last_volume(), 55);
}

#[test]
fn watcher_is_silent_while_the_volume_is_stable() {
    let mut watcher = Watcher::new(40);
    for _ in 0..1000 {
        assert_eq!(watcher.observe(40), None);
    }
    assert_eq!(watcher.last_volume(), 40);
}

#[test]
fn watcher_reports_every_change() {
    let mut watcher = Watcher::new(0);
    assert_eq!(watcher.observe(10), Some(10));
    assert_eq!(watcher.observe(10), None);
    assert_eq!(watcher.observe(0), Some(0));
    assert_eq!(watcher.observe(100), Some(100));
    assert_eq!(watcher.observe(99), Some(99));
    assert_eq!(watcher.observe(99), None);
    assert_eq!(watcher.last_volume(), 99);
}

#[test]
fn watcher_polls_ten_times_a_second() {
    assert_eq!(POLL_INTERVAL_MS, 100);
    assert_eq!(event_name(), "volume-changed");
}
