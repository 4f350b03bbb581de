use whisrs::hooks::{
    hook_actions, hook_event_for, is_runnable_hook, HookEvent, HooksConfig, MediaPauseTracker,
    MediaPlan,
};
use whisrs::mpris::PlayerState;
use whisrs::State;

#[test]
fn idle_to_recording_fires_start() {
    assert_eq!(
        hook_event_for(State::Idle, State::Recording),
        Some(HookEvent::RecordStart)
    );
}

#[test]
fn transcribing_to_recording_fires_start() {
    // Never occurs today, but entering Recording from any non-Recording
    // state is a start.
    assert_eq!(
        hook_event_for(State::Transcribing, State::Recording),
        Some(HookEvent::RecordStart)
    );
}

#[test]
fn recording_to_transcribing_fires_stop() {
    assert_eq!(
        hook_event_for(State::Recording, State::Transcribing),
        Some(HookEvent::RecordStop)
    );
}

#[test]
fn recording_to_idle_fires_stop() {
    assert_eq!(
        hook_event_for(State::Recording, State::Idle),
        Some(HookEvent::RecordStop)
    );
}

#[test]
fn duplicate_broadcasts_are_ignored() {
    assert_eq!(hook_event_for(State::Recording, State::Recording), None);
    assert_eq!(hook_event_for(State::Idle, State::Idle), None);
    assert_eq!(
        hook_event_for(State::Transcribing, State::Transcribing),
        None
    );
}

#[test]
fn read_aloud_transitions_are_ignored() {
    assert_eq!(hook_event_for(State::Idle, State::Synthesizing), None);
    assert_eq!(hook_event_for(State::Synthesizing, State::Speaking), None);
    assert_eq!(hook_event_for(State::Speaking, State::Idle), None);
}

#[test]
fn transcribing_to_idle_is_ignored() {
    assert_eq!(hook_event_for(State::Transcribing, State::Idle), None);
}

#[test]
fn empty_hook_is_noop() {
    // Neither is worth spawning a shell for.
    assert!(!is_runnable_hook(""));
    assert!(!is_runnable_hook("   "));
}

#[test]
fn non_blank_hook_runs() {
    assert!(is_runnable_hook("  notify-send rec  "));
    assert!(!is_runnable_hook("\t\n \u{3000}"));
}

fn playing(name: &str) -> PlayerState {
    PlayerState {
        name: name.to_string(),
        playing: true,
    }
}

fn not_playing(name: &str) -> PlayerState {
    PlayerState {
        name: name.to_string(),
        playing: false,
    }
}

#[test]
fn stop_resumes_exactly_what_start_paused() {
    let mut tracker = MediaPauseTracker::new();
    let bus = [playing("spotify"), playing("vlc")];

    let start = tracker.plan(HookEvent::RecordStart, &bus);
    assert_eq!(start.pause, ["spotify", "vlc"]);
    assert!(start.resume.is_empty(), "a start never resumes");
    tracker.confirm_paused(&start.pause);

    let stop = tracker.plan(HookEvent::RecordStop, &[]);
    assert_eq!(stop.resume, ["spotify", "vlc"]);
    assert!(stop.pause.is_empty(), "a stop never pauses");
}

/// The bug this tracker exists for: a tab the user paused themselves must
/// not start playing when dictation ends.
#[test]
fn a_player_already_paused_is_never_touched() {
    let mut tracker = MediaPauseTracker::new();
    let bus = [
        playing("spotify"),
        not_playing("firefox"),
        not_playing("vlc"),
    ];

    let start = tracker.plan(HookEvent::RecordStart, &bus);
    assert_eq!(
        start.pause,
        ["spotify"],
        "only the playing player may be paused"
    );
    tracker.confirm_paused(&start.pause);

    let stop = tracker.plan(HookEvent::RecordStop, &[]);
    assert_eq!(
        stop.resume,
        ["spotify"],
        "firefox and vlc were the user's to keep paused"
    );
}

#[test]
fn second_start_without_a_stop_keeps_the_first_batch() {
    let mut tracker = MediaPauseTracker::new();

    let first = tracker.plan(HookEvent::RecordStart, &[playing("spotify")]);
    tracker.confirm_paused(&first.pause);

    let second = tracker.plan(
        HookEvent::RecordStart,
        &[not_playing("spotify"), playing("vlc")],
    );
    assert_eq!(second.pause, ["vlc"]);
    tracker.confirm_paused(&second.pause);
    assert_eq!(tracker.held(), ["spotify", "vlc"]);

    let stop = tracker.plan(HookEvent::RecordStop, &[]);
    assert_eq!(
        stop.resume,
        ["spotify", "vlc"],
        "the first batch must not be stranded"
    );
}

#[test]
fn a_player_still_playing_at_a_second_start_is_paused_once() {
    let mut tracker = MediaPauseTracker::new();

    let first = tracker.plan(HookEvent::RecordStart, &[playing("spotify")]);
    tracker.confirm_paused(&first.pause);

    let second = tracker.plan(HookEvent::RecordStart, &[playing("spotify")]);
    assert_eq!(second.pause, ["spotify"]);
    tracker.confirm_paused(&second.pause);

    assert_eq!(tracker.plan(HookEvent::RecordStop, &[]).resume, ["spotify"]);
}

#[test]
fn stop_with_nothing_paused_resumes_nothing() {
    let mut tracker = MediaPauseTracker::new();
    let stop = tracker.plan(HookEvent::RecordStop, &[]);
    assert!(
        stop.resume.is_empty(),
        "a stop must never sweep the bus for players to resume"
    );
    assert!(stop.pause.is_empty());
}

#[test]
fn a_stop_forgets_its_batch() {
    let mut tracker = MediaPauseTracker::new();
    tracker.confirm_paused(&["spotify".to_string()]);

    assert_eq!(tracker.plan(HookEvent::RecordStop, &[]).resume, ["spotify"]);
    assert!(
        tracker.plan(HookEvent::RecordStop, &[]).resume.is_empty(),
        "a second stop must not resume the same batch again"
    );
    assert!(tracker.held().is_empty());
}

#[test]
fn a_pause_that_failed_is_never_resumed() {
    let mut tracker = MediaPauseTracker::new();
    let start = tracker.plan(
        HookEvent::RecordStart,
        &[playing("spotify"), playing("vlc")],
    );
    assert_eq!(start.pause, ["spotify", "vlc"]);

    // vlc refused the Pause call, so the daemon reports only spotify.
    tracker.confirm_paused(&["spotify".to_string()]);

    assert_eq!(tracker.plan(HookEvent::RecordStop, &[]).resume, ["spotify"]);
}

#[test]
fn a_start_plan_does_not_change_what_is_held() {
    let mut tracker = MediaPauseTracker::new();
    tracker.confirm_paused(&["mpv".to_string()]);
    let start = tracker.plan(HookEvent::RecordStart, &[playing("vlc")]);
    assert_eq!(start.pause, ["vlc"]);
    assert_eq!(tracker.held(), ["mpv"]);
}

#[test]
fn confirming_the_same_names_twice_holds_them_once() {
    let mut tracker = MediaPauseTracker::new();
    let names = ["a".to_string(), "b".to_string(), "a".to_string()];
    tracker.confirm_paused(&names);
    assert_eq!(tracker.held(), ["a", "b"]);
    tracker.confirm_paused(&names);
    assert_eq!(tracker.held(), ["a", "b"]);
}

#[test]
fn dispatch_follows_the_hook_event() {
    let config = HooksConfig {
        media_auto_pause: true,
        on_record_start: Some("start-cmd".to_string()),
        on_record_stop: None,
    };
    let start = hook_actions(&config, State::Idle, State::Recording);
    assert_eq!(start.event, Some(HookEvent::RecordStart));
    assert!(start.media);
    assert_eq!(start.command.as_deref(), Some("start-cmd"));

    let stop = hook_actions(&config, State::Recording, State::Transcribing);
    assert_eq!(stop.event, Some(HookEvent::RecordStop));
    assert!(stop.media);
    assert_eq!(stop.command, None);

    let none = hook_actions(&config, State::Transcribing, State::Idle);
    assert_eq!(none.event, None);
    assert!(!none.media);
    assert_eq!(none.command, None);

    let quiet = HooksConfig {
        media_auto_pause: false,
        on_record_start: None,
        on_record_stop: Some("stop-cmd".to_string()),
    };
    let stop = hook_actions(&quiet, State::Recording, State::Idle);
    assert!(!stop.media);
    assert_eq!(stop.command.as_deref(), Some("stop-cmd"));
}

#[test]
fn a_default_plan_does_nothing() {
    let plan = MediaPlan::default();
    assert!(plan.pause.is_empty());
    assert!(plan.resume.is_empty());
    assert!(MediaPauseTracker::default().held().is_empty());
}
