use zen_rpc::player::{take_update, TrackUpdate};
use zen_rpc::presence::{presence_init, presence_step, Tick, TrackReport};
use zen_rpc::title::parse_soundcloud_title;
use zen_rpc::tracker::choose_window;
use zen_rpc::watch::{needs_connect, watch_init, watch_step, WatchStatus, WatchTick};

fn report(passed: u64, duration: u64, playing: bool, near_end: bool) -> TrackReport {
    TrackReport {
        track: " Song ".to_string(),
        artist: "Art".to_string(),
        passed,
        duration,
        is_playing: playing,
        cover: "https://c.example/x.jpg".to_string(),
        near_end,
    }
}

fn tick(r: Option<TrackReport>, played: u32) -> Tick {
    Tick { enabled: true, connected: true, report: r, report_age_ms: 100, now: 1000, played_count: played }
}

#[test]
fn presence_announces_a_new_track() {
    let mut s = presence_init();
    let a = presence_step(&mut s, tick(Some(report(10, 200, true, false)), 0));
    assert!(!a.clear_activity);
    assert!(a.finished.is_none());
    let p = a.activity.expect("announced");
    assert_eq!(p.details, "Song");
    assert_eq!(p.state, "by Art");
    assert_eq!(p.large_image, "https://c.example/x.jpg");
    assert_eq!(p.large_text, "Song");
    assert_eq!(p.small, Some(("play".to_string(), "Tracks: 0".to_string())));
    assert_eq!(p.timestamps, Some((990, 1190)));
    assert_eq!(s.active_track.as_deref(), Some("Song"));
    assert_eq!(s.last_passed_sec, Some(10));
}

#[test]
fn presence_stays_quiet_on_a_steady_track() {
    let mut s = presence_init();
    presence_step(&mut s, tick(Some(report(10, 200, true, false)), 0));
    let a = presence_step(&mut s, tick(Some(report(11, 200, true, false)), 0));
    assert!(a.activity.is_none());
    assert!(a.finished.is_none());
    assert_eq!(s.last_passed_sec, Some(11));
}

#[test]
fn presence_counts_once_near_the_end() {
    let mut s = presence_init();
    presence_step(&mut s, tick(Some(report(10, 200, true, false)), 0));
    let a = presence_step(&mut s, tick(Some(report(190, 200, true, true)), 0));
    let f = a.finished.expect("counted");
    assert_eq!(f.track, "Song");
    assert_eq!(f.artist, "Art");
    assert_eq!(f.duration_sec, 200);
    let p = a.activity.expect("seek announced");
    assert_eq!(p.state, "by Art • [#1]");
    assert_eq!(p.small, Some(("play".to_string(), "Tracks: 1".to_string())));
    assert!(s.track_counted);
    let b = presence_step(&mut s, tick(Some(report(191, 200, true, true)), 1));
    assert!(b.finished.is_none());
    assert!(s.track_counted);
}

#[test]
fn presence_paused_state_line() {
    let mut s = presence_init();
    let a = presence_step(&mut s, tick(Some(report(10, 200, false, false)), 3));
    let p = a.activity.expect("announced");
    assert_eq!(p.state, "⏸ На паузе • Art");
    assert!(p.small.is_none());
    assert!(p.timestamps.is_none());
}

#[test]
fn presence_clears_when_disabled_or_stale() {
    let mut s = presence_init();
    presence_step(&mut s, tick(Some(report(10, 200, true, false)), 0));
    let mut t = tick(None, 0);
    t.enabled = false;
    let a = presence_step(&mut s, t);
    assert!(a.clear_activity);
    assert!(s.active_track.is_none());
    let b = presence_step(&mut s, tick(None, 0));
    assert!(!b.clear_activity);
    presence_step(&mut s, tick(Some(report(10, 200, true, false)), 0));
    let mut stale = tick(Some(report(12, 200, true, false)), 0);
    stale.report_age_ms = 6000;
    assert!(presence_step(&mut s, stale).clear_activity);
}

#[test]
fn presence_short_track_is_not_counted() {
    let mut s = presence_init();
    let a = presence_step(&mut s, tick(Some(report(18, 19, true, true)), 0));
    assert!(a.finished.is_none());
}

#[test]
fn presence_long_cover_falls_back() {
    let mut s = presence_init();
    let mut r = report(10, 200, true, false);
    r.cover = format!("https://{}", "x".repeat(300));
    let a = presence_step(&mut s, tick(Some(r), 0));
    assert_eq!(a.activity.unwrap().large_image, "browser_icon");
}

fn update(track: &str) -> TrackUpdate {
    TrackUpdate {
        track: track.to_string(),
        artist: " Art ".to_string(),
        passed: 65,
        duration: 200,
        cover: "https://c".to_string(),
        is_playing: true,
        liked: false,
        followed: false,
        spectrum: vec![1, 0],
        client_id: "  ".to_string(),
        user_name: "Bob".to_string(),
        user_url: String::new(),
    }
}

#[test]
fn update_is_digested() {
    let n = take_update(&update("  Song  "), "").expect("accepted");
    assert_eq!(n.title, "Song");
    assert_eq!(n.artist, "Art");
    assert_eq!(n.line, "Song — Art");
    assert_eq!(n.progress, "01:05 / 03:20");
    assert!(n.is_playing);
    assert!(n.liked);
    assert!(!n.followed);
    assert!(n.client_id.is_none());
    assert_eq!(n.user_name.as_deref(), Some("Bob"));
    assert!(n.user_url.is_none());
    assert_eq!(n.new_cover.as_deref(), Some("https://c"));
    let again = take_update(&update("Song"), "https://c").expect("accepted");
    assert!(again.new_cover.is_none());
}

#[test]
fn blank_update_is_refused() {
    assert!(take_update(&update("   "), "").is_none());
}

fn watch_tick(title: Option<&str>, near_end: bool, played: u32) -> WatchTick {
    WatchTick {
        enabled: true,
        has_client: true,
        connect_ok: true,
        browser_running: true,
        sighting: title.and_then(parse_soundcloud_title),
        near_end,
        now: 5000,
        played_count: played,
    }
}

#[test]
fn watch_connects_then_announces() {
    let mut s = watch_init();
    assert!(needs_connect(&s, true, true));
    let w = watch_step(&mut s, watch_tick(Some("«Song» by Art [0:10/3:20]"), false, 2));
    assert!(s.connected);
    assert_eq!(w.status, WatchStatus::Playing);
    assert_eq!(w.track_line.as_deref(), Some("Song — Art"));
    assert_eq!(w.progress.as_deref(), Some("00:10 / 03:20"));
    assert_eq!(w.lyrics_for, Some(("Art".to_string(), "Song".to_string())));
    let x = w.announcement.expect("announced");
    assert_eq!(x.details, "Song");
    assert_eq!(x.state, "by Art • [#2]");
    assert_eq!(x.small_text, "Дослушано треков: 2");
    assert_eq!(x.large_image, "browser_icon");
    assert_eq!((x.start, x.end), (4990, Some(5190)));
    assert!(!needs_connect(&s, true, true));
}

#[test]
fn watch_waits_for_discord() {
    let mut s = watch_init();
    let mut t = watch_tick(Some("Song by Art"), false, 0);
    t.connect_ok = false;
    let w = watch_step(&mut s, t);
    assert_eq!(w.status, WatchStatus::WaitingDiscord);
    assert!(!s.connected);
    assert!(w.announcement.is_none());
}

#[test]
fn watch_counts_and_reports_idle() {
    let mut s = watch_init();
    watch_step(&mut s, watch_tick(Some("Song by Art [0:10/3:20]"), false, 0));
    let w = watch_step(&mut s, watch_tick(Some("Song by Art [3:17/3:20]"), false, 0));
    let p = w.played.expect("counted");
    assert_eq!(p.duration_sec, 200);
    assert_eq!(w.announcement.expect("seeked").state, "by Art • [#1]");
    let again = watch_step(&mut s, watch_tick(Some("Song by Art [3:18/3:20]"), false, 1));
    assert!(again.played.is_none());
    assert!(again.announcement.is_none());
    let idle = watch_step(&mut s, watch_tick(Some("Inbox"), false, 1));
    assert_eq!(idle.status, WatchStatus::WaitingTrack);
    assert!(idle.clear_activity);
    assert_eq!(idle.track_line.as_deref(), Some("Включите музыку в SoundCloud"));
    assert_eq!(idle.progress.as_deref(), Some("00:00 / 00:00"));
    let mut closed = watch_tick(None, false, 1);
    closed.browser_running = false;
    let c = watch_step(&mut s, closed);
    assert_eq!(c.status, WatchStatus::NoBrowser);
    assert!(c.unlock);
    assert!(!c.clear_activity);
    assert_eq!(c.track_line.as_deref(), Some("Браузер закрыт"));
}

#[test]
fn watch_paused_when_disabled() {
    let mut s = watch_init();
    watch_step(&mut s, watch_tick(Some("Song by Art"), false, 0));
    let mut t = watch_tick(None, false, 0);
    t.enabled = false;
    let w = watch_step(&mut s, t);
    assert_eq!(w.status, WatchStatus::Paused);
    assert!(w.clear_activity);
}

#[test]
fn window_choice_keeps_or_finds() {
    let windows = vec![
        (1usize, "Inbox".to_string()),
        (2usize, "Song by Art - Zen".to_string()),
        (3usize, "X by Y".to_string()),
    ];
    let kept = choose_window(Some(9), Some("Other by Band".to_string()), &windows);
    assert_eq!(kept.locked, Some(9));
    assert_eq!(kept.title.as_deref(), Some("Other by Band"));
    let found = choose_window(Some(9), Some("Settings".to_string()), &windows);
    assert_eq!(found.locked, Some(2));
    assert_eq!(found.title.as_deref(), Some("Song by Art - Zen"));
    let none = choose_window(None, None, &vec![(1usize, "Inbox".to_string())]);
    assert_eq!(none.locked, None);
    assert!(none.title.is_none());
}

#[test]
fn presence_same_report_sends_nothing() {
    let mut s = presence_init();
    assert!(presence_step(&mut s, tick(Some(report(42, 200, false, false)), 0)).activity.is_some());
    assert!(presence_step(&mut s, tick(Some(report(42, 200, false, false)), 0)).activity.is_none());
    assert!(presence_step(&mut s, tick(Some(report(42, 200, true, false)), 0)).activity.is_some());
}

#[test]
fn watch_same_sighting_announces_nothing() {
    let mut s = watch_init();
    assert!(watch_step(&mut s, watch_tick(Some("Song by Art [1:00/3:20]"), false, 0)).announcement.is_some());
    let w = watch_step(&mut s, watch_tick(Some("Song by Art [1:00/3:20]"), false, 0));
    assert!(w.announcement.is_none());
    assert!(w.lyrics_for.is_none());
}
