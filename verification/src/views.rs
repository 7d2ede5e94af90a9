use vstd::prelude::*;
use crate::decimal::{decimal, decimal_chars};
use crate::history::ranking_view;
use crate::text::{chars_of, push_all, push_str, string_of};

verus! {

/// The favourite artist line of the statistics tab: `name (count×)` for the most played
/// artist, or `—` when there is none.
pub open spec fn favourite_text(top: Seq<(Seq<char>, nat)>) -> Seq<char> {
    if top.len() == 0 {
        "—"@
    } else {
        top[0].0 + " ("@ + decimal(top[0].1) + "×)"@
    }
}

/// The favourite artist line for a ranking of artists.
pub fn favourite_artist_text(ranking: &Vec<(String, usize)>) -> (s: String)
    ensures
        s@ == favourite_text(ranking_view(ranking@)),
{
    let mut v: Vec<char> = Vec::new();
    if ranking.len() == 0 {
        push_str(&mut v, "—");
    } else {
        push_str(&mut v, ranking[0].0.as_str());
        push_str(&mut v, " (");
        push_all(&mut v, &decimal_chars(ranking[0].1 as u64));
        push_str(&mut v, "×)");
    }
    string_of(v.as_slice())
}

/// The medal of a place in the artist list (from zero): gold, silver, bronze, then a dot.
pub open spec fn badge_of(i: nat) -> Seq<char> {
    if i == 0 {
        "🥇"@
    } else if i == 1 {
        "🥈"@
    } else if i == 2 {
        "🥉"@
    } else {
        "•"@
    }
}

/// The heading of a place in the artist list: its medal and `#place:`.
pub fn rank_heading(i: usize) -> (s: String)
    requires
        i < usize::MAX,
    ensures
        s@ == badge_of(i as nat) + " #"@ + decimal((i + 1) as nat) + ":"@,
{
    let badge = if i == 0 {
        "🥇"
    } else if i == 1 {
        "🥈"
    } else if i == 2 {
        "🥉"
    } else {
        "•"
    };
    let mut v: Vec<char> = Vec::new();
    push_str(&mut v, badge);
    push_str(&mut v, " #");
    push_all(&mut v, &decimal_chars((i + 1) as u64));
    push_str(&mut v, ":");
    string_of(v.as_slice())
}

/// The size line of a playlist: `count треков`, or `Плейлист` when the count is unknown.
pub fn playlist_size_text(track_count: u32) -> (s: String)
    ensures
        s@ == (if track_count > 0 {
            decimal(track_count as nat) + " треков"@
        } else {
            "Плейлист"@
        }),
{
    let mut v: Vec<char> = Vec::new();
    if track_count > 0 {
        push_all(&mut v, &decimal_chars(track_count as u64));
        push_str(&mut v, " треков");
    } else {
        push_str(&mut v, "Плейлист");
    }
    string_of(v.as_slice())
}

/// The command that asks the player page to play a track.
pub fn play_track_command(permalink_url: &str) -> (s: String)
    ensures
        s@ == "play_track:"@ + permalink_url@,
{
    let mut v: Vec<char> = Vec::new();
    push_str(&mut v, "play_track:");
    push_str(&mut v, permalink_url);
    string_of(v.as_slice())
}

/// A menu entry for a switch: ticked when on, indented when off.
pub fn toggle_text(on: bool, label: &str) -> (s: String)
    ensures
        s@ == (if on {
            "✔ "@
        } else {
            "   "@
        }) + label@,
{
    let mut v: Vec<char> = Vec::new();
    if on {
        push_str(&mut v, "✔ ");
    } else {
        push_str(&mut v, "   ");
    }
    push_str(&mut v, label);
    string_of(v.as_slice())
}

/// The meta line of a found track: `artist • MM:SS`.
pub fn search_meta_text(artist: &str, duration_sec: u64) -> (s: String)
    ensures
        s@ == artist@ + " • "@ + crate::clock::duration_text(duration_sec),
{
    let mut v: Vec<char> = Vec::new();
    push_str(&mut v, artist);
    push_str(&mut v, " • ");
    push_all(&mut v, &crate::clock::duration_chars(duration_sec));
    string_of(v.as_slice())
}

} // verus!
