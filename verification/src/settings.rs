use vstd::prelude::*;
use crate::history::{record_play, with_play, HistoryEntry};
use crate::i18n::{AppLanguage, UiLayoutMode, UserRole};
use crate::web::opt_view;
use crate::palette::{language_from_name, language_named, theme_from_name, theme_named, AppTheme};

verus! {

/// The saved configuration of the player. The volume, a fraction, is kept beside it by the
/// program.
#[derive(Clone)]
pub struct AppConfig {
    pub layout_mode: UiLayoutMode,
    pub theme: AppTheme,
    pub language: AppLanguage,
    pub role: UserRole,
    pub custom_accent: [u8; 3],
    pub custom_bg: [u8; 3],
    pub enable_particles: bool,
    pub particles_direction_up: bool,
    pub enable_equalizer: bool,
    pub show_controls: bool,
    pub show_search_tab: bool,
    pub show_top_tab: bool,
    pub show_history_tab: bool,
    pub show_profile_tab: bool,
    pub use_track_cover: bool,
    pub total_tracks_played: u32,
    pub custom_image_path: Option<String>,
    pub history: Vec<HistoryEntry>,
}

impl Default for AppConfig {
    fn default() -> (c: AppConfig)
        ensures
            c.layout_mode == UiLayoutMode::Spotify,
            c.theme == AppTheme::Spotify,
            c.language == AppLanguage::Ru,
            c.role == UserRole::User,
            c.custom_accent@ == seq![30u8, 215u8, 96u8],
            c.custom_bg@ == seq![18u8, 18u8, 18u8],
            !c.enable_particles,
            c.particles_direction_up,
            c.enable_equalizer,
            c.show_controls,
            c.show_search_tab,
            c.show_top_tab,
            c.show_history_tab,
            c.show_profile_tab,
            c.use_track_cover,
            c.total_tracks_played == 0,
            c.custom_image_path is None,
            c.history@.len() == 0,
    {
        AppConfig {
            layout_mode: UiLayoutMode::Spotify,
            theme: AppTheme::Spotify,
            language: AppLanguage::Ru,
            role: UserRole::User,
            custom_accent: [30, 215, 96],
            custom_bg: [18, 18, 18],
            enable_particles: false,
            particles_direction_up: true,
            enable_equalizer: true,
            show_controls: true,
            show_search_tab: true,
            show_top_tab: true,
            show_history_tab: true,
            show_profile_tab: true,
            use_track_cover: true,
            total_tracks_played: 0,
            custom_image_path: None,
            history: Vec::new(),
        }
    }
}

/// What the web page asks to change in the settings; a field that is `None` was not sent.
pub struct SettingsUpdate {
    pub theme: Option<String>,
    pub language: Option<String>,
    pub enable_particles: Option<bool>,
    pub particles_direction_up: Option<bool>,
    pub use_track_cover: Option<bool>,
    pub enable_equalizer: Option<bool>,
}

/// The sent value, or the old one where none was sent.
pub open spec fn or_keep(sent: Option<bool>, old: bool) -> bool {
    match sent {
        Some(v) => v,
        None => old,
    }
}

/// The fields that only the user interface changes are equal in the two configurations.
pub open spec fn same_layout(a: AppConfig, b: AppConfig) -> bool {
    &&& a.layout_mode == b.layout_mode
    &&& a.role == b.role
    &&& a.custom_accent@ == b.custom_accent@
    &&& a.custom_bg@ == b.custom_bg@
    &&& a.show_controls == b.show_controls
    &&& a.show_search_tab == b.show_search_tab
    &&& a.show_top_tab == b.show_top_tab
    &&& a.show_history_tab == b.show_history_tab
    &&& a.show_profile_tab == b.show_profile_tab
    &&& a.custom_image_path == b.custom_image_path
}

/// The fields that the settings page changes are equal in the two configurations.
pub open spec fn same_choices(a: AppConfig, b: AppConfig) -> bool {
    &&& a.theme == b.theme
    &&& a.language == b.language
    &&& a.enable_particles == b.enable_particles
    &&& a.particles_direction_up == b.particles_direction_up
    &&& a.use_track_cover == b.use_track_cover
    &&& a.enable_equalizer == b.enable_equalizer
}

impl AppConfig {
    /// Applies what the settings page sent: a theme or language by name (an unknown name
    /// gives Spotify or Russian), and each switch that was sent.
    pub fn apply_settings(&mut self, update: &SettingsUpdate)
        ensures
            final(self).theme == (match update.theme {
                Some(t) => theme_named(t@),
                None => old(self).theme,
            }),
            final(self).language == (match update.language {
                Some(l) => language_named(l@),
                None => old(self).language,
            }),
            final(self).enable_particles == or_keep(update.enable_particles, old(self).enable_particles),
            final(self).particles_direction_up == or_keep(
                update.particles_direction_up,
                old(self).particles_direction_up,
            ),
            final(self).use_track_cover == or_keep(update.use_track_cover, old(self).use_track_cover),
            final(self).enable_equalizer == or_keep(update.enable_equalizer, old(self).enable_equalizer),
            same_layout(*final(self), *old(self)),
            final(self).total_tracks_played == old(self).total_tracks_played,
            final(self).history@ == old(self).history@,
    {
        let theme = match &update.theme {
            Some(t) => theme_from_name(t.as_str()),
            None => self.theme,
        };
        let language = match &update.language {
            Some(l) => language_from_name(l.as_str()),
            None => self.language,
        };
        let enable_particles = match update.enable_particles {
            Some(v) => v,
            None => self.enable_particles,
        };
        let particles_direction_up = match update.particles_direction_up {
            Some(v) => v,
            None => self.particles_direction_up,
        };
        let use_track_cover = match update.use_track_cover {
            Some(v) => v,
            None => self.use_track_cover,
        };
        let enable_equalizer = match update.enable_equalizer {
            Some(v) => v,
            None => self.enable_equalizer,
        };
        self.theme = theme;
        self.language = language;
        self.enable_particles = enable_particles;
        self.particles_direction_up = particles_direction_up;
        self.use_track_cover = use_track_cover;
        self.enable_equalizer = enable_equalizer;
    }

    /// Forgets the listening history and the count of played tracks.
    pub fn clear_history(&mut self)
        ensures
            final(self).history@.len() == 0,
            final(self).total_tracks_played == 0,
            same_layout(*final(self), *old(self)),
            same_choices(*final(self), *old(self)),
    {
        self.history.clear();
        self.total_tracks_played = 0;
    }

    /// Counts a finished track (the count wraps as a `u32`) and appends it to the history,
    /// which keeps its last 200 entries.
    pub fn log_play(&mut self, entry: HistoryEntry)
        ensures
            final(self).total_tracks_played == vstd::wrapping::u32_specs::wrapping_add(
                old(self).total_tracks_played,
                1,
            ),
            final(self).history@ == with_play(old(self).history@, entry),
            same_layout(*final(self), *old(self)),
            same_choices(*final(self), *old(self)),
    {
        self.total_tracks_played = self.total_tracks_played.wrapping_add(1);
        record_play(&mut self.history, entry);
    }
}

} // verus!

verus! {

/// What `serde_json` reads from a settings body: `None` where it is not JSON; else its `theme`
/// and `language` strings and its `enable_particles`, `particles_direction_up`,
/// `use_track_cover` and `enable_equalizer` switches, each `None` where it is missing or not of
/// its kind.
pub uninterp spec fn parsed_settings(body: Seq<char>) -> Option<
    (Option<Seq<char>>, Option<Seq<char>>, Option<bool>, Option<bool>, Option<bool>, Option<bool>),
>;

/// Parses a settings body with `serde_json::from_str` into a `serde_json::Value` and reads its
/// fields with `get`, `as_str` and `as_bool`. Trusted: the result is `parsed_settings` of the
/// body.
#[verifier::external_body]
fn settings_fields(body: &str) -> (r: Option<
    (Option<String>, Option<String>, Option<bool>, Option<bool>, Option<bool>, Option<bool>),
>)
    ensures
        r matches Some(f) ==> parsed_settings(body@) == Some(
            (opt_view(f.0), opt_view(f.1), f.2, f.3, f.4, f.5),
        ),
        r is None ==> parsed_settings(body@) is None,
{
    let v: serde_json::Value = serde_json::from_str(body).ok()?;
    let s = |k: &str| v.get(k).and_then(|x| x.as_str()).map(|x| x.to_string());
    let b = |k: &str| v.get(k).and_then(|x| x.as_bool());
    Some((s("theme"), s("language"), b("enable_particles"), b("particles_direction_up"), b("use_track_cover"), b("enable_equalizer")))
}

/// The change that a `/settings` request body asks for, or `None` where the body is not JSON
/// (and nothing is changed or saved).
pub fn settings_update_of(body: &str) -> (r: Option<SettingsUpdate>)
    ensures
        match r {
            Some(u) => parsed_settings(body@) == Some(
                (
                    opt_view(u.theme),
                    opt_view(u.language),
                    u.enable_particles,
                    u.particles_direction_up,
                    u.use_track_cover,
                    u.enable_equalizer,
                ),
            ),
            None => parsed_settings(body@) is None,
        },
{
    match settings_fields(body) {
        Some(f) => Some(
            SettingsUpdate {
                theme: f.0,
                language: f.1,
                enable_particles: f.2,
                particles_direction_up: f.3,
                use_track_cover: f.4,
                enable_equalizer: f.5,
            },
        ),
        None => None,
    }
}

} // verus!
