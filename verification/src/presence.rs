use vstd::prelude::*;
use crate::decimal::{decimal, decimal_chars};
use crate::text::{chars_of, push_all, push_str, starts_with, starts_with_chars, string_of, trim, trim_chars};

verus! {

/// What the player page last reported: the track, its artist, the seconds played and the
/// length, whether it plays, the cover url, and whether the part played has reached 85% of
/// the length (a comparison the caller makes on the `f32` ratio).
pub struct TrackReport {
    pub track: String,
    pub artist: String,
    pub passed: u64,
    pub duration: u64,
    pub is_playing: bool,
    pub cover: String,
    pub near_end: bool,
}

/// One turn of the presence loop: whether the presence is switched on, whether the Discord
/// client is connected, the last report and its age, the current unix time and the number
/// of tracks played so far.
pub struct Tick {
    pub enabled: bool,
    pub connected: bool,
    pub report: Option<TrackReport>,
    pub report_age_ms: u64,
    pub now: i64,
    pub played_count: u32,
}

/// What the loop remembers between turns.
pub struct PresenceState {
    pub active_track: Option<String>,
    pub active_artist: Option<String>,
    pub last_passed_sec: Option<u64>,
    pub last_playing: Option<bool>,
    pub track_counted: bool,
}

/// A track that has been listened to the end, to be added to the history.
pub struct FinishedTrack {
    pub track: String,
    pub artist: String,
    pub duration_sec: u64,
    pub cover: String,
}

/// The rich presence to show: details and state lines, the large image and its text, the
/// small image and its text, and the start and end times.
pub struct ActivityPlan {
    pub details: String,
    pub state: String,
    pub large_image: String,
    pub large_text: String,
    pub small: Option<(String, String)>,
    pub timestamps: Option<(i64, i64)>,
}

/// What the caller does after a turn.
pub struct PresenceActions {
    pub clear_activity: bool,
    pub finished: Option<FinishedTrack>,
    pub activity: Option<ActivityPlan>,
}

/// The loop's state at start.
pub fn presence_init() -> (s: PresenceState)
    ensures
        s.active_track is None,
        s.active_artist is None,
        s.last_passed_sec is None,
        s.last_playing is None,
        !s.track_counted,
{
    PresenceState {
        active_track: None,
        active_artist: None,
        last_passed_sec: None,
        last_playing: None,
        track_counted: false,
    }
}

/// The report of a turn when it is fresh (under five seconds old) and names a track.
pub open spec fn live_report(t: Tick) -> Option<TrackReport> {
    match t.report {
        Some(r) => if t.report_age_ms < 5000 && r.track@.len() > 0 {
            Some(r)
        } else {
            None
        },
        None => None,
    }
}

/// The track has been listened to the end in this turn: it plays, is not counted yet, is at
/// least twenty seconds long, and at most four seconds or under 15% of it are left.
pub open spec fn counts_now(s: PresenceState, r: TrackReport) -> bool {
    &&& r.is_playing
    &&& !s.track_counted
    &&& r.duration >= 20
    &&& ((r.duration > r.passed && r.duration - r.passed <= 4) || r.near_end)
}

/// `o` holds a string that spells `v`.
pub open spec fn holds(o: Option<String>, v: Seq<char>) -> bool {
    match o {
        Some(x) => x@ == v,
        None => false,
    }
}

/// The reported track or artist differs from the one shown.
pub open spec fn track_changed(s: PresenceState, r: TrackReport) -> bool {
    !holds(s.active_track, trim(r.track@)) || !holds(s.active_artist, trim(r.artist@))
}

/// The position jumped by more than two seconds since the last turn (on the wrapped `i64`
/// difference, as a release build computes it).
pub open spec fn seeked(s: PresenceState, r: TrackReport) -> bool {
    match s.last_passed_sec {
        Some(prev) => {
            let d = vstd::wrapping::i64_specs::wrapping_sub(r.passed as i64, prev as i64);
            d > 2 || (d < -2 && d != i64::MIN)
        },
        None => false,
    }
}

/// The presence is sent again: the client is connected and the track, the play state or
/// the position changed.
pub open spec fn announces(s: PresenceState, r: TrackReport, connected: bool) -> bool {
    connected && (track_changed(s, r) || s.last_playing != Some(r.is_playing) || seeked(s, r))
}

/// The number of tracks played once this turn is counted.
pub open spec fn count_after(s: PresenceState, r: TrackReport, played: u32) -> u32 {
    if counts_now(s, r) {
        vstd::wrapping::u32_specs::wrapping_add(played, 1)
    } else {
        played
    }
}

/// The state line of the presence.
pub open spec fn state_line(artist: Seq<char>, playing: bool, count: u32) -> Seq<char> {
    if playing {
        if count > 0 {
            "by "@ + artist + " • [#"@ + decimal(count as nat) + "]"@
        } else {
            "by "@ + artist
        }
    } else {
        "⏸ На паузе • "@ + artist
    }
}

/// The large image: the cover when it is an `http` url of at most 256 bytes, else the
/// default image.
pub open spec fn large_image_of(cover: Seq<char>) -> Seq<char> {
    if starts_with(cover, "http"@) && (vstd::utf8::encode_utf8(cover).len() as usize) <= 256 {
        cover
    } else {
        "browser_icon"@
    }
}

/// Start and end of the track in unix seconds (wrapping as a release build does).
pub open spec fn timestamps_of(now: i64, passed: u64, duration: u64) -> (i64, i64) {
    let start = vstd::wrapping::i64_specs::wrapping_sub(now, passed as i64);
    (start, vstd::wrapping::i64_specs::wrapping_add(start, duration as i64))
}

/// The presence sent for a report.
pub open spec fn activity_matches(a: ActivityPlan, r: TrackReport, count: u32, now: i64) -> bool {
    &&& a.details@ == trim(r.track@)
    &&& a.state@ == state_line(trim(r.artist@), r.is_playing, count)
    &&& a.large_image@ == large_image_of(r.cover@)
    &&& a.large_text@ == trim(r.track@)
    &&& (match a.small {
        Some(p) => r.is_playing && p.0@ == "play"@ && p.1@ == "Tracks: "@ + decimal(count as nat),
        None => !r.is_playing,
    })
    &&& a.timestamps == (if r.is_playing {
        Some(timestamps_of(now, r.passed, r.duration))
    } else {
        None
    })
}

/// The state is back at rest: nothing shown, nothing counted.
pub open spec fn at_rest(s: PresenceState) -> bool {
    &&& s.active_track is None
    &&& s.active_artist is None
    &&& s.last_passed_sec is None
    &&& s.last_playing is None
    &&& !s.track_counted
}

} // verus!

verus! {

fn reset_if_shown(state: &mut PresenceState) -> (a: PresenceActions)
    ensures
        old(state).active_track is Some ==> at_rest(*final(state)) && a.clear_activity,
        old(state).active_track is None ==> *final(state) == *old(state) && !a.clear_activity,
        a.finished is None,
        a.activity is None,
{
    if state.active_track.is_some() {
        state.active_track = None;
        state.active_artist = None;
        state.last_passed_sec = None;
        state.last_playing = None;
        state.track_counted = false;
        PresenceActions { clear_activity: true, finished: None, activity: None }
    } else {
        PresenceActions { clear_activity: false, finished: None, activity: None }
    }
}

pub(crate) fn holds_exec(o: &Option<String>, v: &Vec<char>) -> (b: bool)
    ensures
        b == holds(*o, v@),
{
    match o {
        Some(x) => {
            let xc = chars_of(x.as_str());
            crate::text::chars_eq(&xc, v)
        },
        None => false,
    }
}

fn state_line_exec(artist: &Vec<char>, playing: bool, count: u32) -> (s: String)
    ensures
        s@ == state_line(artist@, playing, count),
{
    let mut v: Vec<char> = Vec::new();
    if playing {
        push_str(&mut v, "by ");
        push_all(&mut v, artist);
        if count > 0 {
            push_str(&mut v, " • [#");
            let d = decimal_chars(count as u64);
            push_all(&mut v, &d);
            push_str(&mut v, "]");
        }
    } else {
        push_str(&mut v, "⏸ На паузе • ");
        push_all(&mut v, artist);
    }
    assert(v@ =~= state_line(artist@, playing, count));
    string_of(v.as_slice())
}

pub(crate) fn large_image_exec(cover: &String) -> (s: String)
    ensures
        s@ == large_image_of(cover@),
{
    let c = chars_of(cover.as_str());
    let http = chars_of("http");
    if starts_with_chars(&c, &http) && cover.as_str().len() <= 256 {
        string_of(c.as_slice())
    } else {
        let d = chars_of("browser_icon");
        string_of(d.as_slice())
    }
}

fn activity_exec(r: &TrackReport, track: &Vec<char>, artist: &Vec<char>, count: u32, now: i64) -> (a: ActivityPlan)
    requires
        track@ == trim(r.track@),
        artist@ == trim(r.artist@),
    ensures
        activity_matches(a, *r, count, now),
{
    let small = if r.is_playing {
        let mut t: Vec<char> = Vec::new();
        push_str(&mut t, "Tracks: ");
        let d = decimal_chars(count as u64);
        push_all(&mut t, &d);
        let play = chars_of("play");
        Some((string_of(play.as_slice()), string_of(t.as_slice())))
    } else {
        None
    };
    let timestamps = if r.is_playing {
        let start = now.wrapping_sub(r.passed as i64);
        Some((start, start.wrapping_add(r.duration as i64)))
    } else {
        None
    };
    ActivityPlan {
        details: string_of(track.as_slice()),
        state: state_line_exec(artist, r.is_playing, count),
        large_image: large_image_exec(&r.cover),
        large_text: string_of(track.as_slice()),
        small,
        timestamps,
    }
}

/// One turn of the presence loop: from the state and what was observed, the next state and
/// what to do (clear the presence, add a finished track to the history, send a presence).
pub fn presence_step(state: &mut PresenceState, tick: Tick) -> (a: PresenceActions)
    ensures
        !tick.enabled || live_report(tick) is None ==> {
            &&& old(state).active_track is Some ==> at_rest(*final(state)) && a.clear_activity
            &&& old(state).active_track is None ==> *final(state) == *old(state) && !a.clear_activity
            &&& a.finished is None
            &&& a.activity is None
        },
        tick.enabled && live_report(tick) is Some ==> {
            let s = *old(state);
            let n = *final(state);
            let r = live_report(tick)->0;
            &&& !a.clear_activity
            &&& n.last_passed_sec == Some(r.passed)
            &&& n.track_counted == counted_after(s, r)
            &&& if announces(s, r, tick.connected) {
                &&& holds(n.active_track, trim(r.track@))
                &&& holds(n.active_artist, trim(r.artist@))
                &&& n.last_playing == Some(r.is_playing)
            } else {
                &&& n.active_track == s.active_track
                &&& n.active_artist == s.active_artist
                &&& n.last_playing == s.last_playing
            }
            &&& match a.finished {
                Some(f) => counts_now(s, r) && f.track@ == trim(r.track@) && f.artist@ == trim(
                    r.artist@,
                ) && f.duration_sec == r.duration && f.cover@ == r.cover@,
                None => !counts_now(s, r),
            }
            &&& match a.activity {
                Some(p) => announces(s, r, tick.connected) && activity_matches(
                    p,
                    r,
                    count_after(s, r, tick.played_count),
                    tick.now,
                ),
                None => !announces(s, r, tick.connected),
            }
        },
{
    if !tick.enabled {
        return reset_if_shown(state);
    }
    let r = match tick.report {
        Some(r) => r,
        None => {
            return reset_if_shown(state);
        },
    };
    if !(tick.report_age_ms < 5000 && !r.track.as_str().is_empty()) {
        return reset_if_shown(state);
    }
    let track = trim_chars(&chars_of(r.track.as_str()));
    let artist = trim_chars(&chars_of(r.artist.as_str()));
    let ghost s = *state;
    let counts = r.is_playing && !state.track_counted && r.duration >= 20 && ((r.duration
        > r.passed && r.duration - r.passed <= 4) || r.near_end);
    let finished = if counts {
        state.track_counted = true;
        Some(
            FinishedTrack {
                track: string_of(track.as_slice()),
                artist: string_of(artist.as_slice()),
                duration_sec: r.duration,
                cover: r.cover.clone(),
            },
        )
    } else {
        None
    };
    let count_val = if counts {
        tick.played_count.wrapping_add(1)
    } else {
        tick.played_count
    };
    let changed = !holds_exec(&state.active_track, &track) || !holds_exec(
        &state.active_artist,
        &artist,
    );
    let play_changed = match state.last_playing {
        Some(b) => b != r.is_playing,
        None => true,
    };
    let jumped = match state.last_passed_sec {
        Some(prev) => {
            let d = (r.passed as i64).wrapping_sub(prev as i64);
            d > 2 || (d < -2 && d != i64::MIN)
        },
        None => false,
    };
    if changed {
        state.track_counted = false;
    }
    let activity = if tick.connected && (changed || play_changed || jumped) {
        state.active_track = Some(string_of(track.as_slice()));
        state.active_artist = Some(string_of(artist.as_slice()));
        state.last_passed_sec = Some(r.passed);
        state.last_playing = Some(r.is_playing);
        Some(activity_exec(&r, &track, &artist, count_val, tick.now))
    } else {
        state.last_passed_sec = Some(r.passed);
        None
    };
    PresenceActions { clear_activity: false, finished, activity }
}

} // verus!

verus! {

/// Whether the track is marked as counted after a turn with a live report.
pub open spec fn counted_after(s: PresenceState, r: TrackReport) -> bool {
    !track_changed(s, r) && (s.track_counted || counts_now(s, r))
}

/// A track is added to the history at most once while it keeps playing: once counted, a
/// report of the same track and artist does not count it again and leaves it counted.
pub proof fn lemma_counted_once(s: PresenceState, r: TrackReport)
    requires
        s.track_counted,
        !track_changed(s, r),
    ensures
        !counts_now(s, r),
        counted_after(s, r),
{
}

/// A report of another track or artist clears the mark, so the new track can be counted.
pub proof fn lemma_new_track_uncounted(s: PresenceState, r: TrackReport)
    requires
        track_changed(s, r),
    ensures
        !counted_after(s, r),
{
}

} // verus!

verus! {

/// The presence is only sent again on a change: once a report has been announced (the state
/// holds its track, artist, play state and position, as `presence_step` leaves it), the same
/// report sends nothing.
pub proof fn lemma_same_report_is_quiet(n: PresenceState, r: TrackReport, connected: bool)
    requires
        holds(n.active_track, trim(r.track@)),
        holds(n.active_artist, trim(r.artist@)),
        n.last_playing == Some(r.is_playing),
        n.last_passed_sec == Some(r.passed),
    ensures
        !announces(n, r, connected),
{
    assert(vstd::wrapping::i64_specs::wrapping_sub(r.passed as i64, r.passed as i64) == 0);
}

} // verus!

verus! {

/// A change of the play state alone is announced: on a live report while the client is
/// connected, where the remembered play state is the other one (the user paused, or plays
/// again), the presence is sent anew, and it shows the new state: when paused, the pause line
/// with the artist, no times and no small image; when playing, the timeline and the small
/// image.
pub proof fn law_play_state_change_announced(
    s: PresenceState,
    r: TrackReport,
    a: ActivityPlan,
    count: u32,
    now: i64,
)
    requires
        s.last_playing == Some(!r.is_playing),
    ensures
        announces(s, r, true),
        activity_matches(a, r, count, now) ==> {
            &&& (a.timestamps is Some <==> r.is_playing)
            &&& (a.small is Some <==> r.is_playing)
            &&& (!r.is_playing ==> a.state@ == "⏸ На паузе • "@ + trim(r.artist@))
        },
{
}

} // verus!
