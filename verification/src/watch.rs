use vstd::prelude::*;
use crate::clock::{duration_chars, duration_text};
use crate::decimal::{decimal, decimal_chars};
use crate::presence::{holds, holds_exec, large_image_exec, large_image_of};
use crate::text::{chars_of, lit, push_all, push_str, string_of};
use crate::title::{display_name, format_str, title_view};
use crate::web::opt_view;

verus! {

/// What the window tracker remembers between turns.
pub struct WatchState {
    pub connected: bool,
    pub active_track: Option<String>,
    pub active_artist: Option<String>,
    pub last_passed_sec: Option<u64>,
    pub track_counted: bool,
}

/// What the tracker shows as its status.
#[derive(Clone, Copy, PartialEq, Eq, Structural, Debug)]
pub enum WatchStatus {
    Paused,
    WaitingDiscord,
    NoBrowser,
    Playing,
    WaitingTrack,
}

/// One turn of the tracker: whether it is switched on, whether there is a Discord client,
/// whether the connection attempt of this turn (made where `needs_connect` asks for one)
/// succeeded, whether the browser runs, the parts of the chosen window's title (as
/// `parse_soundcloud_title` gives them), whether the part played has reached 85% of the
/// length (a comparison the caller makes on the `f32` ratio), the unix time and the number of
/// tracks played so far.
pub struct WatchTick {
    pub enabled: bool,
    pub has_client: bool,
    pub connect_ok: bool,
    pub browser_running: bool,
    pub sighting: Option<(String, String, Option<u64>, Option<u64>, Option<String>)>,
    pub near_end: bool,
    pub now: i64,
    pub played_count: u32,
}

/// A track listened to the end, for the history.
pub struct PlayedTrack {
    pub track: String,
    pub artist: String,
    pub duration_sec: u64,
}

/// The rich presence to show: details and state lines, the large image and its text, the
/// text beside the small image, the start time and, where the length is known, the end.
pub struct Announcement {
    pub details: String,
    pub state: String,
    pub large_image: String,
    pub large_text: String,
    pub small_text: String,
    pub start: i64,
    pub end: Option<i64>,
}

/// What the caller does after a turn. `track_line` and `progress` are shown where they are
/// `Some`; `unlock` forgets the locked window; `lyrics_for` asks for the lyrics of an
/// (artist, track).
pub struct WatchActions {
    pub status: WatchStatus,
    pub clear_activity: bool,
    pub unlock: bool,
    pub track_line: Option<String>,
    pub progress: Option<String>,
    pub played: Option<PlayedTrack>,
    pub lyrics_for: Option<(String, String)>,
    pub announcement: Option<Announcement>,
}

/// The tracker at start: not connected, nothing shown.
pub fn watch_init() -> (s: WatchState)
    ensures
        !s.connected,
        watch_at_rest(s),
{
    WatchState {
        connected: false,
        active_track: None,
        active_artist: None,
        last_passed_sec: None,
        track_counted: false,
    }
}

/// Nothing is shown and nothing counted.
pub open spec fn watch_at_rest(s: WatchState) -> bool {
    &&& s.active_track is None
    &&& s.active_artist is None
    &&& s.last_passed_sec is None
    &&& !s.track_counted
}

/// The tracker tries to connect to Discord this turn: it is on, has a client, and is not
/// connected.
pub open spec fn wants_connect(s: WatchState, enabled: bool, has_client: bool) -> bool {
    enabled && has_client && !s.connected
}

/// Whether the caller should try to connect to Discord before the turn.
pub fn needs_connect(s: &WatchState, enabled: bool, has_client: bool) -> (b: bool)
    ensures
        b == wants_connect(*s, enabled, has_client),
{
    enabled && has_client && !s.connected
}

/// The track has been listened to the end: not counted yet, at least twenty seconds long,
/// and at most four seconds or under 15% of it left.
pub open spec fn watch_counts(s: WatchState, p: u64, d: u64, near_end: bool) -> bool {
    !s.track_counted && d >= 20 && ((d > p && d - p <= 4) || near_end)
}

/// The shown track or artist differs.
pub open spec fn watch_changed(s: WatchState, t: Seq<char>, a: Seq<char>) -> bool {
    !holds(s.active_track, t) || !holds(s.active_artist, a)
}

/// The position jumped by more than two seconds (on the wrapped `i64` difference).
pub open spec fn watch_seeked(s: WatchState, passed: Option<u64>) -> bool {
    match (passed, s.last_passed_sec) {
        (Some(c), Some(prev)) => {
            let d = vstd::wrapping::i64_specs::wrapping_sub(c as i64, prev as i64);
            d > 2 || (d < -2 && d != i64::MIN)
        },
        _ => false,
    }
}

/// The state line of the tracker's presence.
pub open spec fn watch_state_line(artist: Seq<char>, count: u32) -> Seq<char> {
    if count > 0 {
        "by "@ + artist + " • [#"@ + decimal(count as nat) + "]"@
    } else {
        "by "@ + artist
    }
}

/// The presence announced for a track.
pub open spec fn announcement_matches(
    x: Announcement,
    t: Seq<char>,
    a: Seq<char>,
    passed: Option<u64>,
    total: Option<u64>,
    cover: Option<Seq<char>>,
    count: u32,
    now: i64,
) -> bool {
    &&& x.details@ == t
    &&& x.state@ == watch_state_line(a, count)
    &&& x.large_image@ == (match cover {
        Some(c) => large_image_of(c),
        None => "browser_icon"@,
    })
    &&& x.large_text@ == t
    &&& x.small_text@ == "Дослушано треков: "@ + decimal(count as nat)
    &&& match (passed, total) {
        (Some(p), Some(d)) => {
            let start = vstd::wrapping::i64_specs::wrapping_sub(now, p as i64);
            x.start == start && x.end == Some(vstd::wrapping::i64_specs::wrapping_add(start, d as i64))
        },
        _ => x.start == now && x.end is None,
    }
}

/// The progress text while nothing plays.
pub open spec fn idle_progress() -> Seq<char> {
    "00:00 / 00:00"@
}

fn reset_watch(state: &mut WatchState) -> (clear: bool)
    ensures
        final(state).connected == old(state).connected,
        old(state).active_track is Some ==> watch_at_rest(*final(state)) && clear,
        old(state).active_track is None ==> *final(state) == *old(state) && !clear,
{
    if state.active_track.is_some() {
        state.active_track = None;
        state.active_artist = None;
        state.last_passed_sec = None;
        state.track_counted = false;
        true
    } else {
        false
    }
}

fn idle_actions(status: WatchStatus, clear: bool, unlock: bool, line: &str) -> (w: WatchActions)
    ensures
        w.status == status,
        w.clear_activity == clear,
        w.unlock == unlock,
        opt_view(w.track_line) == Some(line@),
        opt_view(w.progress) == Some(idle_progress()),
        w.played is None,
        w.lyrics_for is None,
        w.announcement is None,
{
    WatchActions {
        status,
        clear_activity: clear,
        unlock,
        track_line: Some(string_of(chars_of(line).as_slice())),
        progress: Some(string_of(chars_of("00:00 / 00:00").as_slice())),
        played: None,
        lyrics_for: None,
        announcement: None,
    }
}

fn announce_exec(
    t: &Vec<char>,
    a: &Vec<char>,
    passed: Option<u64>,
    total: Option<u64>,
    cover: &Option<String>,
    count: u32,
    now: i64,
) -> (x: Announcement)
    ensures
        announcement_matches(x, t@, a@, passed, total, opt_view(*cover), count, now),
{
    let mut st: Vec<char> = Vec::new();
    push_str(&mut st, "by ");
    push_all(&mut st, a);
    if count > 0 {
        push_str(&mut st, " • [#");
        push_all(&mut st, &decimal_chars(count as u64));
        push_str(&mut st, "]");
    }
    assert(st@ =~= watch_state_line(a@, count));
    let mut small: Vec<char> = Vec::new();
    push_str(&mut small, "Дослушано треков: ");
    push_all(&mut small, &decimal_chars(count as u64));
    let large = match cover {
        Some(c) => large_image_exec(c),
        None => string_of(chars_of("browser_icon").as_slice()),
    };
    let (start, end) = match (passed, total) {
        (Some(p), Some(d)) => {
            let start = now.wrapping_sub(p as i64);
            (start, Some(start.wrapping_add(d as i64)))
        },
        _ => (now, None),
    };
    Announcement {
        details: string_of(t.as_slice()),
        state: string_of(st.as_slice()),
        large_image: large,
        large_text: string_of(t.as_slice()),
        small_text: string_of(small.as_slice()),
        start,
        end,
    }
}

/// A turn of the tracker after the connection check, with a sighted track.
pub open spec fn sighted_turn(
    s: WatchState,
    n: WatchState,
    tick: WatchTick,
    w: WatchActions,
    t: Seq<char>,
    a: Seq<char>,
    passed: Option<u64>,
    total: Option<u64>,
    cover: Option<Seq<char>>,
) -> bool {
    let counts = match (passed, total) {
        (Some(p), Some(d)) => watch_counts(s, p, d, tick.near_end),
        _ => false,
    };
    let count = if counts {
        vstd::wrapping::u32_specs::wrapping_add(tick.played_count, 1)
    } else {
        tick.played_count
    };
    let changed = watch_changed(s, t, a);
    let moved = changed || watch_seeked(s, passed);
    &&& w.status == WatchStatus::Playing
    &&& !w.clear_activity
    &&& !w.unlock
    &&& opt_view(w.track_line) == Some(t + " — "@ + a)
    &&& opt_view(w.progress) == (match (passed, total) {
        (Some(p), Some(d)) => Some(duration_text(p) + " / "@ + duration_text(d)),
        _ => None,
    })
    &&& (match w.played {
        Some(x) => counts && x.track@ == t && x.artist@ == a && Some(x.duration_sec) == total,
        None => !counts,
    })
    &&& (match w.lyrics_for {
        Some(q) => changed && q.0@ == a && q.1@ == t,
        None => !changed,
    })
    &&& (match w.announcement {
        Some(x) => moved && announcement_matches(x, t, a, passed, total, cover, count, tick.now),
        None => !moved,
    })
    &&& n.track_counted == (!changed && (s.track_counted || counts))
    &&& n.last_passed_sec == passed
    &&& (if moved {
        holds(n.active_track, t) && holds(n.active_artist, a)
    } else {
        n.active_track == s.active_track && n.active_artist == s.active_artist
    })
}

/// One turn of the window tracker: from the state and what was observed, the next state and
/// what to show and send.
pub fn watch_step(state: &mut WatchState, tick: WatchTick) -> (w: WatchActions)
    ensures
        !tick.enabled ==> {
            &&& w.status == WatchStatus::Paused
            &&& (old(state).active_track is Some ==> watch_at_rest(*final(state)) && w.clear_activity)
            &&& (old(state).active_track is None ==> *final(state) == *old(state) && !w.clear_activity)
            &&& final(state).connected == old(state).connected
            &&& !w.unlock && w.track_line is None && w.progress is None
            &&& w.played is None && w.lyrics_for is None && w.announcement is None
        },
        tick.enabled && wants_connect(*old(state), tick.enabled, tick.has_client) && !tick.connect_ok ==> {
            &&& w.status == WatchStatus::WaitingDiscord
            &&& *final(state) == *old(state)
            &&& !w.clear_activity && !w.unlock && w.track_line is None && w.progress is None
            &&& w.played is None && w.lyrics_for is None && w.announcement is None
        },
        tick.enabled && !(wants_connect(*old(state), tick.enabled, tick.has_client) && !tick.connect_ok) ==> {
            let joined = wants_connect(*old(state), tick.enabled, tick.has_client);
            let s = if joined {
                WatchState {
                    connected: true,
                    active_track: None,
                    active_artist: None,
                    last_passed_sec: None,
                    track_counted: false,
                }
            } else {
                *old(state)
            };
            let n = *final(state);
            &&& n.connected == s.connected
            &&& if !tick.browser_running {
                &&& w.status == WatchStatus::NoBrowser
                &&& w.unlock
                &&& opt_view(w.track_line) == Some("Браузер закрыт"@)
                &&& opt_view(w.progress) == Some(idle_progress())
                &&& (s.active_track is Some ==> watch_at_rest(n) && w.clear_activity)
                &&& (s.active_track is None ==> n == s && !w.clear_activity)
                &&& w.played is None && w.lyrics_for is None && w.announcement is None
            } else {
                match title_view(tick.sighting) {
                    None => {
                        &&& w.status == WatchStatus::WaitingTrack
                        &&& !w.unlock
                        &&& opt_view(w.track_line) == Some("Включите музыку в SoundCloud"@)
                        &&& opt_view(w.progress) == Some(idle_progress())
                        &&& (s.active_track is Some ==> watch_at_rest(n) && w.clear_activity)
                        &&& (s.active_track is None ==> n == s && !w.clear_activity)
                        &&& w.played is None && w.lyrics_for is None && w.announcement is None
                    },
                    Some(v) => sighted_turn(
                        s,
                        n,
                        tick,
                        w,
                        display_name(v.0),
                        display_name(v.1),
                        v.2,
                        v.3,
                        v.4,
                    ),
                }
            }
        },
{
    if !tick.enabled {
        let clear = reset_watch(state);
        return WatchActions {
            status: WatchStatus::Paused,
            clear_activity: clear,
            unlock: false,
            track_line: None,
            progress: None,
            played: None,
            lyrics_for: None,
            announcement: None,
        };
    }
    if tick.has_client && !state.connected {
        if tick.connect_ok {
            state.connected = true;
            state.active_track = None;
            state.active_artist = None;
            state.last_passed_sec = None;
            state.track_counted = false;
        } else {
            return WatchActions {
                status: WatchStatus::WaitingDiscord,
                clear_activity: false,
                unlock: false,
                track_line: None,
                progress: None,
                played: None,
                lyrics_for: None,
                announcement: None,
            };
        }
    }
    if !tick.browser_running {
        let clear = reset_watch(state);
        return idle_actions(WatchStatus::NoBrowser, clear, true, "Браузер закрыт");
    }
    let (raw_t, raw_a, passed, total, cover) = match tick.sighting {
        Some(x) => x,
        None => {
            let clear = reset_watch(state);
            return idle_actions(WatchStatus::WaitingTrack, clear, false, "Включите музыку в SoundCloud");
        },
    };
    let t = chars_of(format_str(raw_t.as_str()).as_str());
    let a = chars_of(format_str(raw_a.as_str()).as_str());
    let mut line = chars_of(format_str(raw_t.as_str()).as_str());
    push_str(&mut line, " — ");
    push_all(&mut line, &a);
    let ghost s = *state;
    let mut played: Option<PlayedTrack> = None;
    let mut progress: Option<String> = None;
    let mut counts = false;
    match (passed, total) {
        (Some(p), Some(d)) => {
            let mut pr = duration_chars(p);
            push_str(&mut pr, " / ");
            push_all(&mut pr, &duration_chars(d));
            progress = Some(string_of(pr.as_slice()));
            if !state.track_counted && d >= 20 && ((d > p && d - p <= 4) || tick.near_end) {
                counts = true;
                state.track_counted = true;
                played = Some(
                    PlayedTrack {
                        track: string_of(t.as_slice()),
                        artist: string_of(a.as_slice()),
                        duration_sec: d,
                    },
                );
            }
        },
        _ => {},
    }
    let count = if counts {
        tick.played_count.wrapping_add(1)
    } else {
        tick.played_count
    };
    let changed = !holds_exec(&state.active_track, &t) || !holds_exec(&state.active_artist, &a);
    let jumped = match (passed, state.last_passed_sec) {
        (Some(c), Some(prev)) => {
            let d = (c as i64).wrapping_sub(prev as i64);
            d > 2 || (d < -2 && d != i64::MIN)
        },
        _ => false,
    };
    let lyrics_for = if changed {
        state.track_counted = false;
        Some((string_of(a.as_slice()), string_of(t.as_slice())))
    } else {
        None
    };
    let announcement = if changed || jumped {
        state.active_track = Some(string_of(t.as_slice()));
        state.active_artist = Some(string_of(a.as_slice()));
        state.last_passed_sec = passed;
        Some(announce_exec(&t, &a, passed, total, &cover, count, tick.now))
    } else {
        state.last_passed_sec = passed;
        None
    };
    WatchActions {
        status: WatchStatus::Playing,
        clear_activity: false,
        unlock: false,
        track_line: Some(string_of(line.as_slice())),
        progress,
        played,
        lyrics_for,
        announcement,
    }
}

impl WatchState {
    /// The Discord client failed to take the presence: the tracker counts as disconnected.
    pub fn mark_disconnected(&mut self)
        ensures
            !final(self).connected,
            final(self).active_track == old(self).active_track,
            final(self).active_artist == old(self).active_artist,
            final(self).last_passed_sec == old(self).last_passed_sec,
            final(self).track_counted == old(self).track_counted,
    {
        self.connected = false;
    }
}

/// Once a track is counted, further turns on the same track and artist do not count it
/// again and leave it counted.
pub proof fn lemma_watch_counted_once(s: WatchState, p: u64, d: u64, near_end: bool, t: Seq<char>, a: Seq<char>)
    requires
        s.track_counted,
        !watch_changed(s, t, a),
    ensures
        !watch_counts(s, p, d, near_end),
{
}

} // verus!

verus! {

/// The tracker only announces again on a change: once a track has been announced (the state
/// holds its name, artist and position, as `watch_step` leaves it), the same sighting
/// announces nothing.
pub proof fn lemma_same_sighting_is_quiet(n: WatchState, t: Seq<char>, a: Seq<char>, passed: Option<u64>)
    requires
        holds(n.active_track, t),
        holds(n.active_artist, a),
        n.last_passed_sec == passed,
    ensures
        !watch_changed(n, t, a),
        !watch_seeked(n, passed),
{
    if let Some(p) = passed {
        assert(vstd::wrapping::i64_specs::wrapping_sub(p as i64, p as i64) == 0);
    }
}

} // verus!

verus! {

/// A new track always clears the counted mark: after a turn whose sighted track or artist
/// differs from the one shown, the state is not marked counted, so a later turn on the new
/// track that reaches its end counts it.
pub proof fn law_track_change_clears_count(
    s: WatchState,
    n: WatchState,
    tick: WatchTick,
    w: WatchActions,
    t: Seq<char>,
    a: Seq<char>,
    passed: Option<u64>,
    total: Option<u64>,
    cover: Option<Seq<char>>,
)
    requires
        sighted_turn(s, n, tick, w, t, a, passed, total, cover),
        watch_changed(s, t, a),
    ensures
        !n.track_counted,
        forall|p: u64, d: u64, near_end: bool|
            d >= 20 && ((d > p && d - p <= 4) || near_end) ==> #[trigger] watch_counts(n, p, d, near_end),
{
}

} // verus!
