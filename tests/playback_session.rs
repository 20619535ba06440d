use jellytui::catalog::Catalog;
use jellytui::frames::{classify_frame, LineBuffer};
use jellytui::item::MediaItem;
use jellytui::launcher::{player_args, ticks_to_seconds};
use jellytui::monitor::{
    socket_path, subscribe_commands, MonitorAction, MonitorEvent, Phase, PlaybackMonitor,
    PlayerEvent,
};
use jellytui::session::{Credentials, UserPreferences};

fn episode(id: &str, season: i64, number: i64) -> MediaItem {
    MediaItem {
        id: id.to_string(),
        name: format!("Episode {}", number),
        type_: "Episode".to_string(),
        path: None,
        collection_type: None,
        year: None,
        overview: None,
        imdb_rating: None,
        critic_rating: None,
        runtime_ticks: Some(13_000_000_000),
        series_id: Some("show".to_string()),
        series_name: Some("Show".to_string()),
        parent_index_number: Some(season),
        index_number: Some(number),
    }
}

fn series_catalog() -> Catalog {
    Catalog::new(
        &vec![episode("s1e1", 1, 1), episode("s1e2", 1, 2), episode("s2e1", 2, 1)],
        Vec::new(),
        Vec::new(),
        Vec::new(),
    )
}

fn observing(c: &Catalog) -> PlaybackMonitor {
    let mut m = PlaybackMonitor::new(c.items[0].clone());
    match m.on_event(MonitorEvent::Connected, c) {
        MonitorAction::Subscribe { .. } => {}
        other => panic!("unexpected {:?}", other),
    }
    m
}

fn position(m: &mut PlaybackMonitor, c: &Catalog, seconds: i64, now_ms: u64) -> MonitorAction {
    m.on_event(
        MonitorEvent::Frame { event: PlayerEvent::Position { ticks: seconds * 10_000_000 }, now_ms },
        c,
    )
}

fn is_push(a: &MonitorAction) -> bool {
    matches!(a, MonitorAction::PushProgress { .. })
}

#[test]
fn connect_retries_then_times_out_without_next_item() {
    let c = series_catalog();
    let mut m = PlaybackMonitor::new(c.items[0].clone());
    match m.on_event(MonitorEvent::ConnectFailed { now_ms: 9_950 }, &c) {
        MonitorAction::RetryConnect { delay_ms } => assert_eq!(delay_ms, 50),
        other => panic!("unexpected {:?}", other),
    }
    assert_eq!(m.phase, Phase::Connecting);
    match m.on_event(MonitorEvent::ConnectFailed { now_ms: 10_000 }, &c) {
        MonitorAction::Finish { next, position_ticks } => {
            assert!(next.is_none());
            assert_eq!(position_ticks, 0);
        }
        other => panic!("unexpected {:?}", other),
    }
    assert_eq!(m.phase, Phase::Finished);
    assert!(matches!(m.on_event(MonitorEvent::Closed, &c), MonitorAction::Ignore));
}

#[test]
fn connected_session_subscribes() {
    let c = series_catalog();
    let mut m = PlaybackMonitor::new(c.items[0].clone());
    match m.on_event(MonitorEvent::Connected, &c) {
        MonitorAction::Subscribe { commands } => assert_eq!(commands, subscribe_commands()),
        other => panic!("unexpected {:?}", other),
    }
    assert_eq!(m.phase, Phase::Observing);
}

#[test]
fn subscription_commands_text() {
    assert_eq!(
        subscribe_commands(),
        "{\"command\":[\"observe_property\",1,\"playback-time\"]}\n\
         {\"command\":[\"observe_property\",2,\"pause\"]}\n\
         {\"command\":[\"observe_property\",3,\"eof-reached\"]}\n"
    );
}

#[test]
fn small_or_early_position_changes_are_throttled() {
    let c = series_catalog();
    let mut m = observing(&c);
    let mut pushes = 0;
    for (seconds, now) in [(1, 500u64), (3, 2_000), (4, 4_000), (6, 6_000), (8, 9_000)] {
        if is_push(&position(&mut m, &c, seconds, now)) {
            pushes += 1;
        }
    }
    assert_eq!(pushes, 0);
    assert_eq!(m.last_position, 0);
}

#[test]
fn position_reported_after_gap_and_distance() {
    let c = series_catalog();
    let mut m = observing(&c);
    match position(&mut m, &c, 12, 10_000) {
        MonitorAction::PushProgress { position_ticks, paused } => {
            assert_eq!(position_ticks, 120_000_000);
            assert!(paused.is_none());
        }
        other => panic!("unexpected {:?}", other),
    }
    assert_eq!(m.last_update_ms, 10_000);
    assert!(!is_push(&position(&mut m, &c, 30, 15_000)));
    assert!(!is_push(&position(&mut m, &c, 14, 25_000)));
    assert!(is_push(&position(&mut m, &c, 17, 20_000)));
}

#[test]
fn at_most_one_report_in_a_window() {
    let c = series_catalog();
    let mut m = observing(&c);
    let mut pushes = 0;
    for (seconds, now) in [(20, 10_000u64), (40, 12_000), (60, 15_000), (2, 19_999)] {
        if is_push(&position(&mut m, &c, seconds, now)) {
            pushes += 1;
        }
    }
    assert_eq!(pushes, 1);
}

#[test]
fn pause_always_reported() {
    let c = series_catalog();
    let mut m = observing(&c);
    for (paused, now) in [(true, 1u64), (false, 2), (true, 3)] {
        match m.on_event(MonitorEvent::Frame { event: PlayerEvent::Pause { paused }, now_ms: now }, &c) {
            MonitorAction::PushProgress { position_ticks, paused: p } => {
                assert_eq!(position_ticks, 0);
                assert_eq!(p, Some(paused));
            }
            other => panic!("unexpected {:?}", other),
        }
    }
}

#[test]
fn end_of_stream_resolves_next_episode() {
    let c = series_catalog();
    let mut m = observing(&c);
    match m.on_event(MonitorEvent::Frame { event: PlayerEvent::EndFile { at_end: true }, now_ms: 5 }, &c) {
        MonitorAction::Finish { next, .. } => assert_eq!(next.unwrap().id, "s1e2"),
        other => panic!("unexpected {:?}", other),
    }
    assert_eq!(m.phase, Phase::Finished);
}

#[test]
fn other_end_reason_is_ignored_and_close_stops() {
    let c = series_catalog();
    let mut m = observing(&c);
    assert!(matches!(
        m.on_event(MonitorEvent::Frame { event: PlayerEvent::EndFile { at_end: false }, now_ms: 5 }, &c),
        MonitorAction::Ignore
    ));
    assert!(matches!(
        m.on_event(MonitorEvent::Frame { event: PlayerEvent::Other, now_ms: 6 }, &c),
        MonitorAction::Ignore
    ));
    match m.on_event(MonitorEvent::Closed, &c) {
        MonitorAction::Finish { next, .. } => assert!(next.is_none()),
        other => panic!("unexpected {:?}", other),
    }
}

#[test]
fn line_buffer_splits_frames() {
    let mut b = LineBuffer::new();
    b.push_bytes(b"{\"a\":1}\n{\"b\"");
    assert_eq!(b.next_line().unwrap(), b"{\"a\":1}".to_vec());
    assert!(b.next_line().is_none());
    b.push_bytes(b":2}\n\n");
    assert_eq!(b.next_line().unwrap(), b"{\"b\":2}".to_vec());
    assert_eq!(b.next_line().unwrap(), Vec::<u8>::new());
    assert!(b.next_line().is_none());
}

#[test]
fn frames_are_classified() {
    let s = |t: &str| Some(t.to_string());
    assert!(matches!(
        classify_frame(&s("property-change"), &s("pause"), Some(true), None, &None),
        PlayerEvent::Pause { paused: true }
    ));
    assert!(matches!(
        classify_frame(&s("property-change"), &s("playback-time"), None, Some(42), &None),
        PlayerEvent::Position { ticks: 42 }
    ));
    assert!(matches!(
        classify_frame(&s("property-change"), &s("pause"), None, Some(1), &None),
        PlayerEvent::Other
    ));
    assert!(matches!(
        classify_frame(&s("end-file"), &None, None, None, &s("eof")),
        PlayerEvent::EndFile { at_end: true }
    ));
    assert!(matches!(
        classify_frame(&s("end-file"), &None, None, None, &s("quit")),
        PlayerEvent::EndFile { at_end: false }
    ));
    assert!(matches!(classify_frame(&None, &None, None, None, &None), PlayerEvent::Other));
    assert!(matches!(
        classify_frame(&s("property-change"), &s("volume"), None, Some(3), &None),
        PlayerEvent::Other
    ));
}

#[test]
fn socket_path_is_derived_from_item() {
    assert_eq!(socket_path("abc123"), "/tmp/mpv-socket-abc123");
}

#[test]
fn seconds_truncate_toward_zero() {
    assert_eq!(ticks_to_seconds(25_000_000), 2);
    assert_eq!(ticks_to_seconds(-25_000_000), -2);
    assert_eq!(ticks_to_seconds(0), 0);
}

fn credentials(audio: Option<&str>, default_track: bool, subs: &str) -> Credentials {
    Credentials {
        access_token: "tok".to_string(),
        user_id: "user".to_string(),
        preferences: UserPreferences {
            audio_language_preference: audio.map(|a| a.to_string()),
            play_default_audio_track: default_track,
            subtitle_language_preference: subs.to_string(),
        },
    }
}

#[test]
fn player_arguments_for_resumed_episode() {
    let mut e = episode("ep", 2, 5);
    e.name = "Bar".to_string();
    e.series_name = Some("Foo".to_string());
    let args = player_args("http://srv", &e, &credentials(Some("eng"), false, "fre"), 1_234_000_000, 13_000_000_000);
    assert_eq!(
        args,
        vec![
            "http://srv/Videos/ep/stream?static=true&mediaSourceId=ep&tag=tok",
            "--no-cache-pause",
            "--demuxer-lavf-probe-info=yes",
            "--demuxer-lavf-analyzeduration=10",
            "--length=1300",
            "--force-media-title=Foo - S02E05 - Bar",
            "--http-header-fields=X-MediaBrowser-Token: tok",
            "--input-ipc-server=/tmp/mpv-socket-ep",
            "--alang=eng",
            "--slang=fre",
            "--sub-auto=fuzzy",
            "--start=123",
        ]
    );
}

#[test]
fn player_arguments_without_subtitles_or_offset() {
    let mut e = episode("m", 0, 0);
    e.type_ = "Movie".to_string();
    e.name = "Title".to_string();
    e.year = Some(1999);
    let args = player_args("http://srv", &e, &credentials(Some("eng"), true, "none"), 5_000_000, 0);
    assert_eq!(args[4], "--length=0");
    assert_eq!(args[5], "--force-media-title=Title (1999)");
    assert_eq!(args[8..].to_vec(), vec!["--no-sub".to_string()]);
}
