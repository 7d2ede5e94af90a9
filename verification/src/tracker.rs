use vstd::prelude::*;
use crate::history::{record_play, with_play, HistoryEntry};
use crate::palette::{rgb, Rgb};
use crate::web::opt_view;
use crate::text::{chars_of, contains, contains_chars, lit};
use vstd::utf8::is_ascii_chars;
use crate::title::{parse_soundcloud_title, soundcloud_title};

verus! {

/// The colour theme of the window tracker.
#[derive(Clone, Copy, PartialEq, Eq, Structural, Debug)]
pub enum AppTheme {
    Kawaii,
    Neverlose,
    ShadowFiend,
    SoundCloud,
}

impl AppTheme {
    /// The name of the theme shown in the settings.
    pub fn label(&self) -> (s: &'static str)
        ensures
            s@ == (match *self {
                AppTheme::Kawaii => "🌸 Кавайная (Розовая)"@,
                AppTheme::Neverlose => "❄️ Neverlose (Cyan)"@,
                AppTheme::ShadowFiend => "🔥 Shadow Fiend (Ruby)"@,
                AppTheme::SoundCloud => "⚡ SoundCloud (Orange)"@,
            }),
    {
        match self {
            AppTheme::Kawaii => "🌸 Кавайная (Розовая)",
            AppTheme::Neverlose => "❄️ Neverlose (Cyan)",
            AppTheme::ShadowFiend => "🔥 Shadow Fiend (Ruby)",
            AppTheme::SoundCloud => "⚡ SoundCloud (Orange)",
        }
    }

    /// The colour of the window.
    pub fn bg_color(&self) -> (c: Rgb)
        ensures
            c == (match *self {
                AppTheme::Kawaii => rgb(22, 18, 26),
                AppTheme::Neverlose => rgb(11, 14, 20),
                AppTheme::ShadowFiend => rgb(20, 16, 19),
                AppTheme::SoundCloud => rgb(22, 22, 24),
            }),
    {
        match self {
            AppTheme::Kawaii => Rgb { r: 22, g: 18, b: 26 },
            AppTheme::Neverlose => Rgb { r: 11, g: 14, b: 20 },
            AppTheme::ShadowFiend => Rgb { r: 20, g: 16, b: 19 },
            AppTheme::SoundCloud => Rgb { r: 22, g: 22, b: 24 },
        }
    }

    /// The colour of buttons and panels.
    pub fn widget_bg(&self) -> (c: Rgb)
        ensures
            c == (match *self {
                AppTheme::Kawaii => rgb(32, 26, 38),
                AppTheme::Neverlose => rgb(18, 23, 33),
                AppTheme::ShadowFiend => rgb(32, 24, 30),
                AppTheme::SoundCloud => rgb(34, 34, 36),
            }),
    {
        match self {
            AppTheme::Kawaii => Rgb { r: 32, g: 26, b: 38 },
            AppTheme::Neverlose => Rgb { r: 18, g: 23, b: 33 },
            AppTheme::ShadowFiend => Rgb { r: 32, g: 24, b: 30 },
            AppTheme::SoundCloud => Rgb { r: 34, g: 34, b: 36 },
        }
    }

    /// The main accent colour.
    pub fn primary_accent(&self) -> (c: Rgb)
        ensures
            c == (match *self {
                AppTheme::Kawaii => rgb(230, 95, 140),
                AppTheme::Neverlose => rgb(0, 225, 255),
                AppTheme::ShadowFiend => rgb(230, 36, 68),
                AppTheme::SoundCloud => rgb(255, 85, 0),
            }),
    {
        match self {
            AppTheme::Kawaii => Rgb { r: 230, g: 95, b: 140 },
            AppTheme::Neverlose => Rgb { r: 0, g: 225, b: 255 },
            AppTheme::ShadowFiend => Rgb { r: 230, g: 36, b: 68 },
            AppTheme::SoundCloud => Rgb { r: 255, g: 85, b: 0 },
        }
    }

    /// The lighter accent colour.
    pub fn secondary_accent(&self) -> (c: Rgb)
        ensures
            c == (match *self {
                AppTheme::Kawaii => rgb(245, 185, 205),
                AppTheme::Neverlose => rgb(130, 235, 255),
                AppTheme::ShadowFiend => rgb(255, 120, 145),
                AppTheme::SoundCloud => rgb(255, 150, 70),
            }),
    {
        match self {
            AppTheme::Kawaii => Rgb { r: 245, g: 185, b: 205 },
            AppTheme::Neverlose => Rgb { r: 130, g: 235, b: 255 },
            AppTheme::ShadowFiend => Rgb { r: 255, g: 120, b: 145 },
            AppTheme::SoundCloud => Rgb { r: 255, g: 150, b: 70 },
        }
    }
}

/// What `str::to_lowercase` gives for a string: its lowercase mapping by Unicode's rules.
pub uninterp spec fn lowercase(s: Seq<char>) -> Seq<char>;

/// `c` in lower case where it is an ASCII capital letter; any other character as it is.
pub open spec fn ascii_lower_char(c: char) -> char {
    if 'A' <= c && c <= 'Z' {
        (c as int + 32) as char
    } else {
        c
    }
}

/// `c` in upper case where it is an ASCII small letter; any other character as it is.
pub open spec fn ascii_upper_char(c: char) -> char {
    if 'a' <= c && c <= 'z' {
        (c as int - 32) as char
    } else {
        c
    }
}

/// Each character through `ascii_lower_char`.
pub open spec fn ascii_lowercase(s: Seq<char>) -> Seq<char> {
    s.map_values(|c: char| ascii_lower_char(c))
}

/// Each character through `ascii_upper_char`.
pub open spec fn ascii_uppercase(s: Seq<char>) -> Seq<char> {
    s.map_values(|c: char| ascii_upper_char(c))
}

/// Lower-cases a string with `str::to_lowercase`. Trusted: the result is `lowercase` of the
/// characters given; and where they are all ASCII, each capital letter is lowered and every
/// other character stays, which is Unicode's lowercase mapping of the ASCII characters (the
/// mapping that `to_lowercase` documents it uses) and what `to_ascii_lowercase` documents.
/// Nothing is stated of other characters.
#[verifier::external_body]
fn to_lowercase(s: &str) -> (r: String)
    ensures
        r@ == lowercase(s@),
        is_ascii_chars(s@) ==> r@ == ascii_lowercase(s@),
{
    s.to_lowercase()
}

/// The browser whose windows are searched for a SoundCloud tab.
#[derive(Clone, Copy, PartialEq, Eq, Structural, Debug)]
pub enum BrowserTarget {
    Auto,
    Zen,
    Chrome,
    Opera,
    Yandex,
    Edge,
    Firefox,
}

/// Whether a lower-cased process name belongs to the browser: it holds the browser's mark
/// ("zen", "chrome", "opera", "browser" for Yandex, "msedge", "firefox"), any of them for
/// `Auto`.
pub open spec fn name_matches(target: BrowserTarget, name: Seq<char>) -> bool {
    match target {
        BrowserTarget::Auto => {
            ||| contains(name, "zen"@)
            ||| contains(name, "chrome"@)
            ||| contains(name, "opera"@)
            ||| contains(name, "browser"@)
            ||| contains(name, "msedge"@)
            ||| contains(name, "firefox"@)
        },
        BrowserTarget::Zen => contains(name, "zen"@),
        BrowserTarget::Chrome => contains(name, "chrome"@),
        BrowserTarget::Opera => contains(name, "opera"@),
        BrowserTarget::Yandex => contains(name, "browser"@),
        BrowserTarget::Edge => contains(name, "msedge"@),
        BrowserTarget::Firefox => contains(name, "firefox"@),
    }
}

impl BrowserTarget {
    /// The name of the browser shown in the settings.
    pub fn label(&self) -> (s: &'static str)
        ensures
            s@ == (match *self {
                BrowserTarget::Auto => "Авто (Все браузеры)"@,
                BrowserTarget::Zen => "Zen Browser"@,
                BrowserTarget::Chrome => "Google Chrome"@,
                BrowserTarget::Opera => "Opera / Opera GX"@,
                BrowserTarget::Yandex => "Яндекс Браузер"@,
                BrowserTarget::Edge => "Microsoft Edge"@,
                BrowserTarget::Firefox => "Mozilla Firefox"@,
            }),
    {
        match self {
            BrowserTarget::Auto => "Авто (Все браузеры)",
            BrowserTarget::Zen => "Zen Browser",
            BrowserTarget::Chrome => "Google Chrome",
            BrowserTarget::Opera => "Opera / Opera GX",
            BrowserTarget::Yandex => "Яндекс Браузер",
            BrowserTarget::Edge => "Microsoft Edge",
            BrowserTarget::Firefox => "Mozilla Firefox",
        }
    }

    /// Whether an already lower-cased process name belongs to this browser.
    pub fn matches_lowercased(&self, name: &str) -> (b: bool)
        ensures
            b == name_matches(*self, name@),
    {
        let n = chars_of(name);
        match self {
            BrowserTarget::Auto => {
                contains_chars(&n, &lit("zen")) || contains_chars(&n, &lit("chrome"))
                    || contains_chars(&n, &lit("opera")) || contains_chars(&n, &lit("browser"))
                    || contains_chars(&n, &lit("msedge")) || contains_chars(&n, &lit("firefox"))
            },
            BrowserTarget::Zen => contains_chars(&n, &lit("zen")),
            BrowserTarget::Chrome => contains_chars(&n, &lit("chrome")),
            BrowserTarget::Opera => contains_chars(&n, &lit("opera")),
            BrowserTarget::Yandex => contains_chars(&n, &lit("browser")),
            BrowserTarget::Edge => contains_chars(&n, &lit("msedge")),
            BrowserTarget::Firefox => contains_chars(&n, &lit("firefox")),
        }
    }

    /// Whether a process name belongs to this browser, compared in lower case.
    pub fn matches(&self, proc_name: &str) -> (b: bool)
        ensures
            b == name_matches(*self, lowercase(proc_name@)),
            is_ascii_chars(proc_name@) ==> b == name_matches(*self, ascii_lowercase(proc_name@)),
    {
        let name = to_lowercase(proc_name);
        self.matches_lowercased(name.as_str())
    }
}

/// Any browser matches in automatic mode: a name matches `Auto` exactly when it matches one
/// of the named browsers.
pub proof fn lemma_auto_matches_any(name: Seq<char>)
    ensures
        name_matches(BrowserTarget::Auto, name) == (name_matches(BrowserTarget::Zen, name)
            || name_matches(BrowserTarget::Chrome, name) || name_matches(BrowserTarget::Opera, name)
            || name_matches(BrowserTarget::Yandex, name) || name_matches(BrowserTarget::Edge, name)
            || name_matches(BrowserTarget::Firefox, name)),
{
}

/// Matching ignores the case of ASCII names: an ASCII name and the same name in capitals are
/// both ASCII and lower-case alike, so `BrowserTarget::matches` gives the same answer for both,
/// for every browser.
pub proof fn lemma_ascii_case_blind(name: Seq<char>)
    requires
        is_ascii_chars(name),
    ensures
        is_ascii_chars(ascii_uppercase(name)),
        ascii_lowercase(ascii_uppercase(name)) == ascii_lowercase(name),
        forall|t: BrowserTarget|
            name_matches(t, ascii_lowercase(ascii_uppercase(name))) == #[trigger] name_matches(
                t,
                ascii_lowercase(name),
            ),
{
    assert forall|i: int| 0 <= i < ascii_uppercase(name).len() implies '\0' <= #[trigger] ascii_uppercase(
        name,
    )[i] <= '\u{7f}' by {
        assert('\0' <= name[i] <= '\u{7f}');
    }
    assert(ascii_lowercase(ascii_uppercase(name)) =~= ascii_lowercase(name));
}

/// The saved configuration of the window tracker.
#[derive(Clone)]
pub struct AppConfig {
    pub selected_browser: BrowserTarget,
    pub theme: AppTheme,
    pub total_tracks_played: u32,
    pub custom_image_path: Option<String>,
    pub history: Vec<HistoryEntry>,
}

impl Default for AppConfig {
    fn default() -> (c: AppConfig)
        ensures
            c.selected_browser == BrowserTarget::Auto,
            c.theme == AppTheme::Kawaii,
            c.total_tracks_played == 0,
            c.custom_image_path is None,
            c.history@.len() == 0,
    {
        AppConfig {
            selected_browser: BrowserTarget::Auto,
            theme: AppTheme::Kawaii,
            total_tracks_played: 0,
            custom_image_path: None,
            history: Vec::new(),
        }
    }
}

impl AppConfig {
    /// Counts a finished track (the count wraps as a `u32`) and appends it to the history,
    /// which keeps its last 200 entries.
    pub fn log_play(&mut self, entry: HistoryEntry)
        ensures
            final(self).total_tracks_played == vstd::wrapping::u32_specs::wrapping_add(
                old(self).total_tracks_played,
                1,
            ),
            final(self).history@ == with_play(old(self).history@, entry),
            final(self).selected_browser == old(self).selected_browser,
            final(self).theme == old(self).theme,
            final(self).custom_image_path == old(self).custom_image_path,
    {
        self.total_tracks_played = self.total_tracks_played.wrapping_add(1);
        record_play(&mut self.history, entry);
    }

    /// Forgets the listening history and the count of played tracks.
    pub fn clear_history(&mut self)
        ensures
            final(self).history@.len() == 0,
            final(self).total_tracks_played == 0,
            final(self).selected_browser == old(self).selected_browser,
            final(self).theme == old(self).theme,
            final(self).custom_image_path == old(self).custom_image_path,
    {
        self.history.clear();
        self.total_tracks_played = 0;
    }
}

/// Whether a window title reads as a SoundCloud tab.
pub open spec fn is_track_title(t: Seq<char>) -> bool {
    soundcloud_title(t) is Some
}

/// The windows as handles and titles.
pub open spec fn windows_view(ws: Seq<(usize, String)>) -> Seq<(usize, Seq<char>)> {
    ws.map_values(|w: (usize, String)| (w.0, w.1@))
}

/// The first of the windows, from `i` on, whose title reads as a SoundCloud tab.
pub open spec fn first_track_window(ws: Seq<(usize, Seq<char>)>, i: int) -> Option<int>
    decreases ws.len() - i,
{
    if i < 0 || i >= ws.len() {
        None
    } else if is_track_title(ws[i].1) {
        Some(i)
    } else {
        first_track_window(ws, i + 1)
    }
}

/// The window the tracker reads, and the window it keeps locked.
pub struct WindowChoice {
    pub locked: Option<usize>,
    pub title: Option<String>,
}

/// The choice of window: the locked window while its title reads as a SoundCloud tab; else
/// the first window whose title does, which becomes the locked one; else the locked window
/// is kept and its title, if any, is what is read.
pub open spec fn chosen_window(
    locked: Option<usize>,
    locked_title: Option<Seq<char>>,
    ws: Seq<(usize, Seq<char>)>,
) -> (Option<usize>, Option<Seq<char>>) {
    match locked_title {
        Some(t) if is_track_title(t) => (locked, Some(t)),
        _ => match first_track_window(ws, 0) {
            Some(k) => (Some(ws[k].0), Some(ws[k].1)),
            None => (locked, locked_title),
        },
    }
}

/// The view of a window choice.
pub open spec fn choice_view(c: WindowChoice) -> (Option<usize>, Option<Seq<char>>) {
    (
        c.locked,
        opt_view(c.title),
    )
}

/// Whether a window title reads as a SoundCloud tab.
pub fn is_track_window(title: &str) -> (b: bool)
    ensures
        b == is_track_title(title@),
{
    parse_soundcloud_title(title).is_some()
}

/// Picks the browser window to read, given the locked window and its current title (`None`
/// where there is no locked window or its title could not be read) and the windows of the
/// browser in the order the system lists them.
pub fn choose_window(
    locked: Option<usize>,
    locked_title: Option<String>,
    windows: &Vec<(usize, String)>,
) -> (c: WindowChoice)
    ensures
        choice_view(c) == chosen_window(
            locked,
            opt_view(locked_title),
            windows_view(windows@),
        ),
{
    let ghost ws = windows_view(windows@);
    let keep = match &locked_title {
        Some(t) => is_track_window(t.as_str()),
        None => false,
    };
    if keep {
        return WindowChoice { locked, title: locked_title };
    }
    let mut i: usize = 0;
    let mut found = false;
    while i < windows.len() && !found
        invariant
            i <= windows.len(),
            ws == windows_view(windows@),
            found ==> i < windows.len() && first_track_window(ws, 0) == Some(i as int),
            !found ==> first_track_window(ws, 0) == first_track_window(ws, i as int),
        decreases windows.len() - i + (if found { 0int } else { 1int }),
    {
        if is_track_window(windows[i].1.as_str()) {
            found = true;
        } else {
            i += 1;
        }
    }
    if found {
        WindowChoice { locked: Some(windows[i].0), title: Some(windows[i].1.clone()) }
    } else {
        WindowChoice { locked, title: locked_title }
    }
}

} // verus!
