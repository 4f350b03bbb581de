use whisrs::mpris::{
    is_mpris_player, mpris_player_names, record_pause, record_status, resume_step, PlayerState,
    SweepAction, SweepEvent,
};

#[test]
fn mpris_player_detection() {
    assert!(is_mpris_player("org.mpris.MediaPlayer2.spotify"));
    assert!(is_mpris_player(
        "org.mpris.MediaPlayer2.plasma-browser-integration"
    ));
    assert!(is_mpris_player(
        "org.mpris.MediaPlayer2.kdeconnect.qOo4rGkeX7g"
    ));
    assert!(!is_mpris_player("org.freedesktop.DBus"));
    assert!(!is_mpris_player("org.mpris.MediaPlayer2"));
    assert!(!is_mpris_player("com.spotify.Client"));
}

#[test]
fn only_mpris_names_are_kept_in_order() {
    let names: Vec<String> = [
        "org.freedesktop.DBus",
        "org.mpris.MediaPlayer2.vlc",
        ":1.42",
        "org.mpris.MediaPlayer2.spotify",
        "org.mpris.MediaPlayer2",
    ]
    .iter()
    .map(|s| s.to_string())
    .collect();
    assert_eq!(
        mpris_player_names(&names),
        ["org.mpris.MediaPlayer2.vlc", "org.mpris.MediaPlayer2.spotify"]
    );
    assert!(mpris_player_names(&[]).is_empty());
}

#[test]
fn a_status_sweep_keeps_only_readable_players() {
    let mut seen: Vec<PlayerState> = Vec::new();
    assert_eq!(
        record_status(&mut seen, "org.mpris.MediaPlayer2.vlc", SweepEvent::Status("Playing".to_string())),
        SweepAction::Continue
    );
    assert_eq!(
        record_status(&mut seen, "org.mpris.MediaPlayer2.mpv", SweepEvent::Status("Paused".to_string())),
        SweepAction::Continue
    );
    assert_eq!(
        record_status(&mut seen, "org.mpris.MediaPlayer2.gone", SweepEvent::ProxyFailed),
        SweepAction::Continue
    );
    assert_eq!(
        record_status(&mut seen, "org.mpris.MediaPlayer2.odd", SweepEvent::CallFailed),
        SweepAction::Continue
    );
    assert_eq!(
        record_status(&mut seen, "org.mpris.MediaPlayer2.late", SweepEvent::DeadlinePassed),
        SweepAction::Stop
    );
    assert_eq!(
        seen,
        vec![
            PlayerState { name: "org.mpris.MediaPlayer2.vlc".to_string(), playing: true },
            PlayerState { name: "org.mpris.MediaPlayer2.mpv".to_string(), playing: false },
        ]
    );
}

#[test]
fn a_pause_sweep_keeps_exactly_the_players_that_paused() {
    let mut paused: Vec<String> = Vec::new();
    assert_eq!(record_pause(&mut paused, "spotify", SweepEvent::CallOk), SweepAction::Continue);
    assert_eq!(record_pause(&mut paused, "vlc", SweepEvent::CallFailed), SweepAction::Continue);
    assert_eq!(record_pause(&mut paused, "gone", SweepEvent::ProxyFailed), SweepAction::Continue);
    assert_eq!(record_pause(&mut paused, "mpv", SweepEvent::CallOk), SweepAction::Continue);
    assert_eq!(record_pause(&mut paused, "late", SweepEvent::DeadlinePassed), SweepAction::Stop);
    assert_eq!(paused, ["spotify", "mpv"]);
}

#[test]
fn a_resume_sweep_stops_only_at_the_deadline() {
    assert_eq!(resume_step(SweepEvent::CallOk), SweepAction::Continue);
    assert_eq!(resume_step(SweepEvent::CallFailed), SweepAction::Continue);
    assert_eq!(resume_step(SweepEvent::ProxyFailed), SweepAction::Continue);
    assert_eq!(resume_step(SweepEvent::DeadlinePassed), SweepAction::Stop);
}
