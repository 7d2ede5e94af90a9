use vstd::prelude::*;
use crate::clock::{duration_chars, duration_text};
use crate::text::{
    chars_eq, chars_of, join, lit, push_all, push_str, starts_with, starts_with_chars, string_of,
    trim, trim_chars,
};
use crate::web::opt_view;

verus! {

/// What the browser page reports about the track it plays.
pub struct TrackUpdate {
    pub track: String,
    pub artist: String,
    pub passed: u64,
    pub duration: u64,
    pub cover: String,
    pub is_playing: bool,
    pub liked: bool,
    pub followed: bool,
    pub spectrum: Vec<u8>,
    pub client_id: String,
    pub user_name: String,
    pub user_url: String,
}

/// What the player shows and keeps of an accepted report.
pub struct NowPlaying {
    pub title: String,
    pub artist: String,
    pub line: String,
    pub progress: String,
    pub is_playing: bool,
    pub liked: bool,
    pub followed: bool,
    pub client_id: Option<String>,
    pub user_name: Option<String>,
    pub user_url: Option<String>,
    pub new_cover: Option<String>,
}

/// The text, where it holds more than white space.
pub open spec fn given(s: Seq<char>) -> Option<Seq<char>> {
    if trim(s).len() > 0 {
        Some(s)
    } else {
        None
    }
}

/// The page also marks a liked track (at 0) and a followed artist (at 1) with a 1 in its
/// spectrum.
pub open spec fn marked(spectrum: Seq<u8>, i: int) -> bool {
    0 <= i < spectrum.len() && spectrum[i] == 1
}

/// The line "track — artist", each trimmed.
pub open spec fn track_line(track: Seq<char>, artist: Seq<char>) -> Seq<char> {
    trim(track) + " — "@ + trim(artist)
}

/// The progress "MM:SS / MM:SS".
pub open spec fn progress_text(passed: u64, duration: u64) -> Seq<char> {
    duration_text(passed) + " / "@ + duration_text(duration)
}

/// A cover is fetched when its address is a web address and differs from the last one.
pub open spec fn fetches_cover(cover: Seq<char>, last_cover: Seq<char>) -> bool {
    starts_with(cover, "http"@) && cover != last_cover
}

/// Accepts a report of the browser page, unless its track name is blank, and works out what
/// the player shows: the trimmed title and artist, the line "track — artist", the progress
/// text, the liked and followed marks, the account details that were given, and the cover to
/// fetch, if it changed.
pub fn take_update(u: &TrackUpdate, last_cover: &str) -> (r: Option<NowPlaying>)
    ensures
        r is None <==> trim(u.track@).len() == 0,
        r matches Some(n) ==> {
            &&& n.title@ == trim(u.track@)
            &&& n.artist@ == trim(u.artist@)
            &&& n.line@ == track_line(u.track@, u.artist@)
            &&& n.progress@ == progress_text(u.passed, u.duration)
            &&& n.is_playing == u.is_playing
            &&& n.liked == (u.liked || marked(u.spectrum@, 0))
            &&& n.followed == (u.followed || marked(u.spectrum@, 1))
            &&& opt_view(n.client_id) == given(u.client_id@)
            &&& opt_view(n.user_name) == given(u.user_name@)
            &&& opt_view(n.user_url) == given(u.user_url@)
            &&& (n.new_cover is Some <==> fetches_cover(u.cover@, last_cover@))
            &&& (n.new_cover matches Some(c) ==> c@ == u.cover@)
        },
{
    let track = trim_chars(&chars_of(u.track.as_str()));
    if track.len() == 0 {
        return None;
    }
    let artist = trim_chars(&chars_of(u.artist.as_str()));
    let mut line = join(&track, &lit(" — "));
    push_all(&mut line, &artist);
    let mut progress = duration_chars(u.passed);
    push_str(&mut progress, " / ");
    push_all(&mut progress, &duration_chars(u.duration));
    let liked = u.liked || (u.spectrum.len() > 0 && u.spectrum[0] == 1);
    let followed = u.followed || (u.spectrum.len() > 1 && u.spectrum[1] == 1);
    let client_id = if trim_chars(&chars_of(u.client_id.as_str())).len() > 0 {
        Some(u.client_id.clone())
    } else {
        None
    };
    let user_name = if trim_chars(&chars_of(u.user_name.as_str())).len() > 0 {
        Some(u.user_name.clone())
    } else {
        None
    };
    let user_url = if trim_chars(&chars_of(u.user_url.as_str())).len() > 0 {
        Some(u.user_url.clone())
    } else {
        None
    };
    let cover = chars_of(u.cover.as_str());
    let new_cover = if starts_with_chars(&cover, &lit("http")) && !chars_eq(
        &cover,
        &chars_of(last_cover),
    ) {
        Some(u.cover.clone())
    } else {
        None
    };
    Some(
        NowPlaying {
            title: string_of(track.as_slice()),
            artist: string_of(artist.as_slice()),
            line: string_of(line.as_slice()),
            progress: string_of(progress.as_slice()),
            is_playing: u.is_playing,
            liked,
            followed,
            client_id,
            user_name,
            user_url,
            new_cover,
        },
    )
}

} // verus!

verus! {

/// The page marks a liked track and a followed artist with a level of exactly 1 at the first
/// and second place of its spectrum: a report's liked mark is its own flag or a 1 at the first
/// place, its followed mark its own flag or a 1 at the second place; any other level, or a
/// spectrum too short to have that place, adds nothing.
pub proof fn law_spectrum_marks(u: TrackUpdate)
    ensures
        (u.liked || marked(u.spectrum@, 0)) == (u.liked || (u.spectrum@.len() > 0
            && u.spectrum@[0] == 1)),
        (u.followed || marked(u.spectrum@, 1)) == (u.followed || (u.spectrum@.len() > 1
            && u.spectrum@[1] == 1)),
        forall|i: int| 0 <= i < u.spectrum@.len() && u.spectrum@[i] != 1 ==> !marked(u.spectrum@, i),
{
}

} // verus!
