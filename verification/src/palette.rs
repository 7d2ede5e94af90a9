use vstd::prelude::*;
use crate::i18n::AppLanguage;
use crate::text::{chars_eq, chars_of, lit};

verus! {

/// A colour as its red, green and blue parts.
#[derive(Clone, Copy, PartialEq, Eq, Structural, Debug)]
pub struct Rgb {
    pub r: u8,
    pub g: u8,
    pub b: u8,
}

/// The colour with the given parts.
pub open spec fn rgb(r: u8, g: u8, b: u8) -> Rgb {
    Rgb { r, g, b }
}

/// `c + d`, held at 255.
pub open spec fn lighten(c: u8, d: u8) -> u8 {
    if c + d > 255 {
        255
    } else {
        (c + d) as u8
    }
}

/// The colour theme of the player.
#[derive(Clone, Copy, PartialEq, Eq, Structural, Debug)]
pub enum AppTheme {
    Spotify,
    Kawaii,
    Neverlose,
    ShadowFiend,
    SoundCloud,
    Custom,
}

impl AppTheme {
    /// The name of the theme shown in the settings; only the Kawaii theme is translated.
    pub fn label(&self, lang: AppLanguage) -> (s: &'static str)
        ensures
            s@ == (match *self {
                AppTheme::Spotify => "🟢 Spotify (Green & Dark)"@,
                AppTheme::Kawaii => match lang {
                    AppLanguage::Ru => "🌸 Кавайная (Розовая)"@,
                    AppLanguage::En => "🌸 Kawaii (Pink)"@,
                    AppLanguage::Ua => "🌸 Кавайна (Рожева)"@,
                },
                AppTheme::Neverlose => "❄️ Neverlose (Cyan)"@,
                AppTheme::ShadowFiend => "🔥 Shadow Fiend (Ruby)"@,
                AppTheme::SoundCloud => "⚡ SoundCloud (Orange)"@,
                AppTheme::Custom => "🎨 Своя тема"@,
            }),
    {
        match self {
            AppTheme::Spotify => "🟢 Spotify (Green & Dark)",
            AppTheme::Kawaii => match lang {
                AppLanguage::Ru => "🌸 Кавайная (Розовая)",
                AppLanguage::En => "🌸 Kawaii (Pink)",
                AppLanguage::Ua => "🌸 Кавайна (Рожева)",
            },
            AppTheme::Neverlose => "❄️ Neverlose (Cyan)",
            AppTheme::ShadowFiend => "🔥 Shadow Fiend (Ruby)",
            AppTheme::SoundCloud => "⚡ SoundCloud (Orange)",
            AppTheme::Custom => "🎨 Своя тема",
        }
    }

    /// The colour of the window; the custom theme takes the user's background.
    pub fn bg_color(&self, custom_bg: [u8; 3]) -> (c: Rgb)
        ensures
            c == (match *self {
                AppTheme::Spotify => rgb(18, 18, 18),
                AppTheme::Kawaii => rgb(22, 18, 26),
                AppTheme::Neverlose => rgb(11, 14, 20),
                AppTheme::ShadowFiend => rgb(20, 16, 19),
                AppTheme::SoundCloud => rgb(22, 22, 24),
                AppTheme::Custom => rgb(custom_bg[0], custom_bg[1], custom_bg[2]),
            }),
    {
        match self {
            AppTheme::Spotify => Rgb { r: 18, g: 18, b: 18 },
            AppTheme::Kawaii => Rgb { r: 22, g: 18, b: 26 },
            AppTheme::Neverlose => Rgb { r: 11, g: 14, b: 20 },
            AppTheme::ShadowFiend => Rgb { r: 20, g: 16, b: 19 },
            AppTheme::SoundCloud => Rgb { r: 22, g: 22, b: 24 },
            AppTheme::Custom => Rgb { r: custom_bg[0], g: custom_bg[1], b: custom_bg[2] },
        }
    }

    /// The colour of buttons and panels; the custom theme lightens the user's background
    /// by 14, 14 and 16, held at 255.
    pub fn widget_bg(&self, custom_bg: [u8; 3]) -> (c: Rgb)
        ensures
            c == (match *self {
                AppTheme::Spotify => rgb(32, 32, 32),
                AppTheme::Kawaii => rgb(32, 26, 38),
                AppTheme::Neverlose => rgb(18, 23, 33),
                AppTheme::ShadowFiend => rgb(32, 24, 30),
                AppTheme::SoundCloud => rgb(34, 34, 36),
                AppTheme::Custom => rgb(
                    lighten(custom_bg[0], 14),
                    lighten(custom_bg[1], 14),
                    lighten(custom_bg[2], 16),
                ),
            }),
    {
        match self {
            AppTheme::Spotify => Rgb { r: 32, g: 32, b: 32 },
            AppTheme::Kawaii => Rgb { r: 32, g: 26, b: 38 },
            AppTheme::Neverlose => Rgb { r: 18, g: 23, b: 33 },
            AppTheme::ShadowFiend => Rgb { r: 32, g: 24, b: 30 },
            AppTheme::SoundCloud => Rgb { r: 34, g: 34, b: 36 },
            AppTheme::Custom => {
                let r = custom_bg[0].saturating_add(14);
                let g = custom_bg[1].saturating_add(14);
                let b = custom_bg[2].saturating_add(16);
                Rgb { r, g, b }
            },
        }
    }

    /// The main accent colour; the custom theme takes the user's accent.
    pub fn primary_accent(&self, custom_accent: [u8; 3]) -> (c: Rgb)
        ensures
            c == (match *self {
                AppTheme::Spotify => rgb(30, 215, 96),
                AppTheme::Kawaii => rgb(230, 95, 140),
                AppTheme::Neverlose => rgb(0, 225, 255),
                AppTheme::ShadowFiend => rgb(230, 36, 68),
                AppTheme::SoundCloud => rgb(255, 85, 0),
                AppTheme::Custom => rgb(custom_accent[0], custom_accent[1], custom_accent[2]),
            }),
    {
        match self {
            AppTheme::Spotify => Rgb { r: 30, g: 215, b: 96 },
            AppTheme::Kawaii => Rgb { r: 230, g: 95, b: 140 },
            AppTheme::Neverlose => Rgb { r: 0, g: 225, b: 255 },
            AppTheme::ShadowFiend => Rgb { r: 230, g: 36, b: 68 },
            AppTheme::SoundCloud => Rgb { r: 255, g: 85, b: 0 },
            AppTheme::Custom => Rgb { r: custom_accent[0], g: custom_accent[1], b: custom_accent[2] },
        }
    }

    /// The lighter accent colour; the custom theme lightens the user's accent by 40 in each
    /// part, held at 255.
    pub fn secondary_accent(&self, custom_accent: [u8; 3]) -> (c: Rgb)
        ensures
            c == (match *self {
                AppTheme::Spotify => rgb(160, 245, 185),
                AppTheme::Kawaii => rgb(245, 185, 205),
                AppTheme::Neverlose => rgb(130, 235, 255),
                AppTheme::ShadowFiend => rgb(255, 120, 145),
                AppTheme::SoundCloud => rgb(255, 150, 70),
                AppTheme::Custom => rgb(
                    lighten(custom_accent[0], 40),
                    lighten(custom_accent[1], 40),
                    lighten(custom_accent[2], 40),
                ),
            }),
    {
        match self {
            AppTheme::Spotify => Rgb { r: 160, g: 245, b: 185 },
            AppTheme::Kawaii => Rgb { r: 245, g: 185, b: 205 },
            AppTheme::Neverlose => Rgb { r: 130, g: 235, b: 255 },
            AppTheme::ShadowFiend => Rgb { r: 255, g: 120, b: 145 },
            AppTheme::SoundCloud => Rgb { r: 255, g: 150, b: 70 },
            AppTheme::Custom => {
                let r = custom_accent[0].saturating_add(40);
                let g = custom_accent[1].saturating_add(40);
                let b = custom_accent[2].saturating_add(40);
                Rgb { r, g, b }
            },
        }
    }
}

/// The name under which the web page reads and writes a theme; the custom theme reads as
/// Spotify there.
pub open spec fn theme_name_of(t: AppTheme) -> Seq<char> {
    match t {
        AppTheme::Kawaii => "Kawaii"@,
        AppTheme::Neverlose => "Neverlose"@,
        AppTheme::ShadowFiend => "ShadowFiend"@,
        AppTheme::SoundCloud => "SoundCloud"@,
        _ => "Spotify"@,
    }
}

/// The theme the web page asks for by name; any name but the four known ones means Spotify.
pub open spec fn theme_named(name: Seq<char>) -> AppTheme {
    if name == "Kawaii"@ {
        AppTheme::Kawaii
    } else if name == "Neverlose"@ {
        AppTheme::Neverlose
    } else if name == "ShadowFiend"@ {
        AppTheme::ShadowFiend
    } else if name == "SoundCloud"@ {
        AppTheme::SoundCloud
    } else {
        AppTheme::Spotify
    }
}

/// The name of a theme for the web page.
pub fn theme_name(t: AppTheme) -> (s: &'static str)
    ensures
        s@ == theme_name_of(t),
{
    match t {
        AppTheme::Kawaii => "Kawaii",
        AppTheme::Neverlose => "Neverlose",
        AppTheme::ShadowFiend => "ShadowFiend",
        AppTheme::SoundCloud => "SoundCloud",
        _ => "Spotify",
    }
}

/// The theme that the web page names.
pub fn theme_from_name(name: &str) -> (t: AppTheme)
    ensures
        t == theme_named(name@),
{
    let v = chars_of(name);
    if chars_eq(&v, &lit("Kawaii")) {
        AppTheme::Kawaii
    } else if chars_eq(&v, &lit("Neverlose")) {
        AppTheme::Neverlose
    } else if chars_eq(&v, &lit("ShadowFiend")) {
        AppTheme::ShadowFiend
    } else if chars_eq(&v, &lit("SoundCloud")) {
        AppTheme::SoundCloud
    } else {
        AppTheme::Spotify
    }
}

/// The name under which the web page reads and writes a language.
pub open spec fn language_name_of(l: AppLanguage) -> Seq<char> {
    match l {
        AppLanguage::En => "En"@,
        AppLanguage::Ua => "Ua"@,
        AppLanguage::Ru => "Ru"@,
    }
}

/// The language the web page asks for by name; any name but "En" and "Ua" means Russian.
pub open spec fn language_named(name: Seq<char>) -> AppLanguage {
    if name == "En"@ {
        AppLanguage::En
    } else if name == "Ua"@ {
        AppLanguage::Ua
    } else {
        AppLanguage::Ru
    }
}

/// The name of a language for the web page.
pub fn language_name(l: AppLanguage) -> (s: &'static str)
    ensures
        s@ == language_name_of(l),
{
    match l {
        AppLanguage::En => "En",
        AppLanguage::Ua => "Ua",
        AppLanguage::Ru => "Ru",
    }
}

/// The language that the web page names.
pub fn language_from_name(name: &str) -> (l: AppLanguage)
    ensures
        l == language_named(name@),
{
    let v = chars_of(name);
    if chars_eq(&v, &lit("En")) {
        AppLanguage::En
    } else if chars_eq(&v, &lit("Ua")) {
        AppLanguage::Ua
    } else {
        AppLanguage::Ru
    }
}

/// A theme written out by name for the web page and read back is the same theme, but for
/// the custom theme, which comes back as Spotify.
pub proof fn lemma_theme_name_round_trip(t: AppTheme)
    ensures
        theme_named(theme_name_of(t)) == (if t == AppTheme::Custom {
            AppTheme::Spotify
        } else {
            t
        }),
{
    reveal_strlit("Kawaii");
    reveal_strlit("Neverlose");
    reveal_strlit("ShadowFiend");
    reveal_strlit("SoundCloud");
    reveal_strlit("Spotify");
    assert("Neverlose"@[0] != "Kawaii"@[0]);
    assert("ShadowFiend"@[0] != "Kawaii"@[0]);
    assert("ShadowFiend"@[0] != "Neverlose"@[0]);
    assert("SoundCloud"@[0] != "Kawaii"@[0]);
    assert("SoundCloud"@[0] != "Neverlose"@[0]);
    assert("SoundCloud"@[1] != "ShadowFiend"@[1]);
    assert("Spotify"@[0] != "Kawaii"@[0]);
    assert("Spotify"@[0] != "Neverlose"@[0]);
    assert("Spotify"@[1] != "ShadowFiend"@[1]);
    assert("Spotify"@[1] != "SoundCloud"@[1]);
}

/// A language written out by name for the web page and read back is the same language.
pub proof fn lemma_language_name_round_trip(l: AppLanguage)
    ensures
        language_named(language_name_of(l)) == l,
{
    reveal_strlit("En");
    reveal_strlit("Ua");
    reveal_strlit("Ru");
    assert("Ua"@[0] != "En"@[0]);
    assert("Ru"@[0] != "En"@[0]);
    assert("Ru"@[0] != "Ua"@[0]);
}

} // verus!

verus! {

/// Each of the four names that the web page knows selects the theme of that very name, and
/// that theme is written back under the same name; every other name selects Spotify.
pub proof fn law_theme_names(name: Seq<char>)
    ensures
        name == "Kawaii"@ ==> theme_named(name) == AppTheme::Kawaii && theme_name_of(AppTheme::Kawaii) == name,
        name == "Neverlose"@ ==> theme_named(name) == AppTheme::Neverlose && theme_name_of(AppTheme::Neverlose) == name,
        name == "ShadowFiend"@ ==> theme_named(name) == AppTheme::ShadowFiend && theme_name_of(AppTheme::ShadowFiend) == name,
        name == "SoundCloud"@ ==> theme_named(name) == AppTheme::SoundCloud && theme_name_of(AppTheme::SoundCloud) == name,
        name != "Kawaii"@ && name != "Neverlose"@ && name != "ShadowFiend"@ && name != "SoundCloud"@
            ==> theme_named(name) == AppTheme::Spotify,
        theme_name_of(AppTheme::Spotify) == "Spotify"@,
{
    lemma_theme_name_round_trip(AppTheme::Kawaii);
    lemma_theme_name_round_trip(AppTheme::Neverlose);
    lemma_theme_name_round_trip(AppTheme::ShadowFiend);
    lemma_theme_name_round_trip(AppTheme::SoundCloud);
}

} // verus!
