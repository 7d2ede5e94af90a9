use zen_rpc::history::{artist_ranking, record_play, top_artist, total_listened_seconds, HistoryEntry};
use zen_rpc::settings::{AppConfig, SettingsUpdate};
use zen_rpc::palette::AppTheme;
use zen_rpc::i18n::{AppLanguage, UiLayoutMode, UserRole};

fn entry(track: &str, artist: &str, d: Option<u64>) -> HistoryEntry {
    HistoryEntry {
        track: track.to_string(),
        artist: artist.to_string(),
        played_at: "12:00".to_string(),
        duration_sec: d,
        cover: String::new(),
    }
}

#[test]
fn history_keeps_last_two_hundred() {
    let mut h: Vec<HistoryEntry> = Vec::new();
    for i in 0..201u64 {
        record_play(&mut h, entry(&format!("t{}", i), "a", Some(i)));
    }
    assert_eq!(h.len(), 200);
    assert_eq!(h[0].track, "t1");
    assert_eq!(h[199].track, "t200");
}

#[test]
fn history_below_limit_just_grows() {
    let mut h: Vec<HistoryEntry> = Vec::new();
    record_play(&mut h, entry("x", "y", None));
    record_play(&mut h, entry("z", "w", None));
    assert_eq!(h.len(), 2);
    assert_eq!(h[1].track, "z");
}

#[test]
fn ranking_orders_by_count_then_name() {
    let h = vec![
        entry("1", "B", None),
        entry("2", "A", None),
        entry("3", "B", None),
        entry("4", "C", None),
        entry("5", "A", None),
        entry("6", "B", None),
    ];
    let r = artist_ranking(&h);
    assert_eq!(r, vec![("B".to_string(), 3), ("A".to_string(), 2), ("C".to_string(), 1)]);
}

#[test]
fn ranking_breaks_ties_by_name() {
    let h = vec![entry("1", "Zed", None), entry("2", "Yan", None), entry("3", "Abe", None)];
    let r = artist_ranking(&h);
    assert_eq!(
        r,
        vec![("Abe".to_string(), 1), ("Yan".to_string(), 1), ("Zed".to_string(), 1)]
    );
}

#[test]
fn ranking_of_empty_history_is_empty() {
    let h: Vec<HistoryEntry> = Vec::new();
    assert!(artist_ranking(&h).is_empty());
    assert_eq!(top_artist(&artist_ranking(&h)), "—");
}

#[test]
fn ranking_counts_add_up_to_history_length() {
    let h = vec![
        entry("1", "B", None),
        entry("2", "A", None),
        entry("3", "B", None),
        entry("4", "", None),
    ];
    let r = artist_ranking(&h);
    let sum: usize = r.iter().map(|x| x.1).sum();
    assert_eq!(sum, h.len());
    assert_eq!(top_artist(&r), "B");
}

#[test]
fn listened_seconds_defaults_unknown_lengths() {
    let h = vec![entry("1", "a", Some(100)), entry("2", "b", None), entry("3", "c", Some(0))];
    assert_eq!(total_listened_seconds(&h), 250);
    let e: Vec<HistoryEntry> = Vec::new();
    assert_eq!(total_listened_seconds(&e), 0);
}

#[test]
fn listened_seconds_wrap_as_u64() {
    let h = vec![entry("1", "a", Some(u64::MAX)), entry("2", "b", Some(2))];
    assert_eq!(total_listened_seconds(&h), 1);
}

#[test]
fn player_config_defaults() {
    let c = AppConfig::default();
    assert_eq!(c.layout_mode, UiLayoutMode::Spotify);
    assert_eq!(c.theme, AppTheme::Spotify);
    assert_eq!(c.language, AppLanguage::Ru);
    assert_eq!(c.role, UserRole::User);
    assert_eq!(c.custom_accent, [30, 215, 96]);
    assert_eq!(c.custom_bg, [18, 18, 18]);
    assert!(!c.enable_particles);
    assert!(c.particles_direction_up && c.enable_equalizer && c.use_track_cover);
    assert!(c.show_controls && c.show_search_tab && c.show_top_tab);
    assert!(c.show_history_tab && c.show_profile_tab);
    assert_eq!(c.total_tracks_played, 0);
    assert!(c.custom_image_path.is_none());
    assert!(c.history.is_empty());
}

#[test]
fn settings_update_applies_sent_fields() {
    let mut c = AppConfig::default();
    let u = SettingsUpdate {
        theme: Some("Kawaii".to_string()),
        language: Some("Xx".to_string()),
        enable_particles: Some(true),
        particles_direction_up: None,
        use_track_cover: Some(false),
        enable_equalizer: None,
    };
    c.apply_settings(&u);
    assert_eq!(c.theme, AppTheme::Kawaii);
    assert_eq!(c.language, AppLanguage::Ru);
    assert!(c.enable_particles);
    assert!(c.particles_direction_up);
    assert!(!c.use_track_cover);
    assert!(c.enable_equalizer);
}

#[test]
fn settings_update_unknown_theme_is_spotify() {
    let mut c = AppConfig::default();
    c.theme = AppTheme::Neverlose;
    c.language = AppLanguage::En;
    let u = SettingsUpdate {
        theme: Some("Rainbow".to_string()),
        language: None,
        enable_particles: None,
        particles_direction_up: None,
        use_track_cover: None,
        enable_equalizer: None,
    };
    c.apply_settings(&u);
    assert_eq!(c.theme, AppTheme::Spotify);
    assert_eq!(c.language, AppLanguage::En);
}

#[test]
fn log_play_counts_and_clear_forgets() {
    let mut c = AppConfig::default();
    c.log_play(entry("a", "b", Some(3)));
    c.log_play(entry("c", "d", None));
    assert_eq!(c.total_tracks_played, 2);
    assert_eq!(c.history.len(), 2);
    c.clear_history();
    assert_eq!(c.total_tracks_played, 0);
    assert!(c.history.is_empty());
}

#[test]
fn log_play_count_wraps() {
    let mut c = AppConfig::default();
    c.total_tracks_played = u32::MAX;
    c.log_play(entry("a", "b", None));
    assert_eq!(c.total_tracks_played, 0);
}
