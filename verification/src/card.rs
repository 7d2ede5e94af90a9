use vstd::prelude::*;
use crate::decimal::{decimal, decimal_chars};
use crate::history::ranking_view;
use crate::i18n::AppLanguage;
use crate::palette::{rgb, AppTheme, Rgb};
use crate::text::{chars_of, push_all, push_str, string_of};

verus! {

/// What a listening report card shows apart from the times: its background and accent
/// colours, its heading, the label over the artists, and one line for each of the top five
/// artists. The drawing, the colour fade and the time in hours are left to the caller.
pub struct CardPlan {
    pub background: Rgb,
    pub accent: Rgb,
    pub heading: String,
    pub top_label: String,
    pub artist_lines: Vec<String>,
}

/// The line of the artist at place `i` (from zero): `#place artist (count word)`.
pub open spec fn artist_line(i: nat, artist: Seq<char>, count: nat, word: Seq<char>) -> Seq<char> {
    "#"@ + decimal(i + 1) + " "@ + artist + " ("@ + decimal(count) + word + ")"@
}

/// The lines of the first five artists of a ranking.
pub open spec fn card_lines(top: Seq<(Seq<char>, nat)>, word: Seq<char>) -> Seq<Seq<char>> {
    let n = if top.len() > 5 {
        5
    } else {
        top.len()
    };
    Seq::new(n, |i: int| artist_line(i as nat, top[i].0, top[i].1, word))
}

/// The background of the player's report card.
pub open spec fn card_background(theme: AppTheme, custom_bg: [u8; 3]) -> Rgb {
    match theme {
        AppTheme::Spotify => rgb(18, 18, 18),
        AppTheme::Kawaii => rgb(24, 18, 28),
        AppTheme::Neverlose => rgb(11, 16, 26),
        AppTheme::ShadowFiend => rgb(22, 14, 18),
        AppTheme::SoundCloud => rgb(24, 20, 18),
        AppTheme::Custom => rgb(custom_bg[0], custom_bg[1], custom_bg[2]),
    }
}

/// The label over the artists of the player's card.
pub open spec fn card_top_label(lang: AppLanguage) -> Seq<char> {
    match lang {
        AppLanguage::Ru => "ТОП ИСПОЛНИТЕЛЕЙ:"@,
        AppLanguage::En => "TOP ARTISTS:"@,
        AppLanguage::Ua => "ТОП ВИКОНАВЦІВ:"@,
    }
}

/// The view of the lines of a card.
pub open spec fn lines_view(v: Seq<String>) -> Seq<Seq<char>> {
    v.map_values(|s: String| s@)
}

fn artist_lines_exec(top: &Vec<(String, usize)>, word: &str) -> (r: Vec<String>)
    ensures
        lines_view(r@) == card_lines(ranking_view(top@), word@),
{
    let ghost tv = ranking_view(top@);
    let n: usize = if top.len() > 5 {
        5
    } else {
        top.len()
    };
    let mut out: Vec<String> = Vec::new();
    let mut i: usize = 0;
    while i < n
        invariant
            n <= top.len(),
            n == (if top.len() > 5 { 5 } else { top.len() }),
            i <= n,
            tv == ranking_view(top@),
            out.len() == i,
            forall|k: int| 0 <= k < i ==> (#[trigger] out[k])@ == artist_line(k as nat, tv[k].0, tv[k].1, word@),
        decreases n - i,
    {
        let mut v: Vec<char> = Vec::new();
        push_str(&mut v, "#");
        push_all(&mut v, &decimal_chars((i + 1) as u64));
        push_str(&mut v, " ");
        push_str(&mut v, top[i].0.as_str());
        push_str(&mut v, " (");
        push_all(&mut v, &decimal_chars(top[i].1 as u64));
        push_str(&mut v, word);
        push_str(&mut v, ")");
        assert(v@ =~= artist_line(i as nat, tv[i as int].0, tv[i as int].1, word@));
        out.push(string_of(v.as_slice()));
        i += 1;
    }
    assert(lines_view(out@) =~= card_lines(tv, word@));
    out
}

/// The plan of the player's listening report card for a ranking of artists.
pub fn stats_card_plan(
    theme: AppTheme,
    custom_accent: [u8; 3],
    custom_bg: [u8; 3],
    lang: AppLanguage,
    top: &Vec<(String, usize)>,
) -> (c: CardPlan)
    ensures
        c.background == card_background(theme, custom_bg),
        c.accent == (match theme {
            AppTheme::Spotify => rgb(30, 215, 96),
            AppTheme::Kawaii => rgb(230, 95, 140),
            AppTheme::Neverlose => rgb(0, 225, 255),
            AppTheme::ShadowFiend => rgb(230, 36, 68),
            AppTheme::SoundCloud => rgb(255, 85, 0),
            AppTheme::Custom => rgb(custom_accent[0], custom_accent[1], custom_accent[2]),
        }),
        c.heading@ == "BETA HUD // LISTENING REPORT"@,
        c.top_label@ == card_top_label(lang),
        lines_view(c.artist_lines@) == card_lines(ranking_view(top@), " tr."@),
{
    let background = match theme {
        AppTheme::Spotify => Rgb { r: 18, g: 18, b: 18 },
        AppTheme::Kawaii => Rgb { r: 24, g: 18, b: 28 },
        AppTheme::Neverlose => Rgb { r: 11, g: 16, b: 26 },
        AppTheme::ShadowFiend => Rgb { r: 22, g: 14, b: 18 },
        AppTheme::SoundCloud => Rgb { r: 24, g: 20, b: 18 },
        AppTheme::Custom => Rgb { r: custom_bg[0], g: custom_bg[1], b: custom_bg[2] },
    };
    let label = match lang {
        AppLanguage::Ru => "ТОП ИСПОЛНИТЕЛЕЙ:",
        AppLanguage::En => "TOP ARTISTS:",
        AppLanguage::Ua => "ТОП ВИКОНАВЦІВ:",
    };
    CardPlan {
        background,
        accent: theme.primary_accent(custom_accent),
        heading: string_of(chars_of("BETA HUD // LISTENING REPORT").as_slice()),
        top_label: string_of(chars_of(label).as_slice()),
        artist_lines: artist_lines_exec(top, " tr."),
    }
}

/// The plan of the window tracker's summary card for a ranking of artists.
pub fn summary_card_plan(theme: crate::tracker::AppTheme, top: &Vec<(String, usize)>) -> (c: CardPlan)
    ensures
        c.background == (match theme {
            crate::tracker::AppTheme::Kawaii => rgb(24, 18, 28),
            crate::tracker::AppTheme::Neverlose => rgb(11, 16, 26),
            crate::tracker::AppTheme::ShadowFiend => rgb(22, 14, 18),
            crate::tracker::AppTheme::SoundCloud => rgb(24, 20, 18),
        }),
        c.accent == (match theme {
            crate::tracker::AppTheme::Kawaii => rgb(230, 95, 140),
            crate::tracker::AppTheme::Neverlose => rgb(0, 225, 255),
            crate::tracker::AppTheme::ShadowFiend => rgb(230, 36, 68),
            crate::tracker::AppTheme::SoundCloud => rgb(255, 85, 0),
        }),
        c.heading@ == "SOUNDCLOUD SUMMARY"@,
        c.top_label@ == "TOP ARTISTS:"@,
        lines_view(c.artist_lines@) == card_lines(ranking_view(top@), " tracks"@),
{
    let background = match theme {
        crate::tracker::AppTheme::Kawaii => Rgb { r: 24, g: 18, b: 28 },
        crate::tracker::AppTheme::Neverlose => Rgb { r: 11, g: 16, b: 26 },
        crate::tracker::AppTheme::ShadowFiend => Rgb { r: 22, g: 14, b: 18 },
        crate::tracker::AppTheme::SoundCloud => Rgb { r: 24, g: 20, b: 18 },
    };
    CardPlan {
        background,
        accent: theme.primary_accent(),
        heading: string_of(chars_of("SOUNDCLOUD SUMMARY").as_slice()),
        top_label: string_of(chars_of("TOP ARTISTS:").as_slice()),
        artist_lines: artist_lines_exec(top, " tracks"),
    }
}

} // verus!
