use zen_rpc::card::{stats_card_plan, summary_card_plan};
use zen_rpc::i18n::{default_layout_spotify, default_true, AppLanguage, I18n, UiLayoutMode, UserRole};
use zen_rpc::palette::{
    language_from_name, language_name, theme_from_name, theme_name, AppTheme, Rgb,
};
use zen_rpc::tracker;
use zen_rpc::views::{
    favourite_artist_text, play_track_command, playlist_size_text, rank_heading,
    search_meta_text, toggle_text,
};

fn rgb(r: u8, g: u8, b: u8) -> Rgb {
    Rgb { r, g, b }
}

#[test]
fn theme_labels() {
    assert_eq!(AppTheme::Spotify.label(AppLanguage::En), "🟢 Spotify (Green & Dark)");
    assert_eq!(AppTheme::Kawaii.label(AppLanguage::En), "🌸 Kawaii (Pink)");
    assert_eq!(AppTheme::Kawaii.label(AppLanguage::Ua), "🌸 Кавайна (Рожева)");
    assert_eq!(AppTheme::Custom.label(AppLanguage::En), "🎨 Своя тема");
    assert_eq!(tracker::AppTheme::Neverlose.label(), "❄️ Neverlose (Cyan)");
}

#[test]
fn theme_colours() {
    let bg = [1u8, 2, 3];
    assert_eq!(AppTheme::Spotify.bg_color(bg), rgb(18, 18, 18));
    assert_eq!(AppTheme::Custom.bg_color(bg), rgb(1, 2, 3));
    assert_eq!(AppTheme::SoundCloud.primary_accent(bg), rgb(255, 85, 0));
    assert_eq!(AppTheme::Neverlose.secondary_accent(bg), rgb(130, 235, 255));
    assert_eq!(AppTheme::ShadowFiend.widget_bg(bg), rgb(32, 24, 30));
    assert_eq!(tracker::AppTheme::Kawaii.bg_color(), rgb(22, 18, 26));
    assert_eq!(tracker::AppTheme::SoundCloud.widget_bg(), rgb(34, 34, 36));
    assert_eq!(tracker::AppTheme::ShadowFiend.primary_accent(), rgb(230, 36, 68));
    assert_eq!(tracker::AppTheme::Kawaii.secondary_accent(), rgb(245, 185, 205));
}

#[test]
fn custom_theme_lightens_with_saturation() {
    assert_eq!(AppTheme::Custom.widget_bg([250, 10, 245]), rgb(255, 24, 255));
    assert_eq!(AppTheme::Custom.secondary_accent([220, 0, 100]), rgb(255, 40, 140));
    assert_eq!(AppTheme::Custom.primary_accent([220, 0, 100]), rgb(220, 0, 100));
}

#[test]
fn theme_names_round_trip() {
    for t in [AppTheme::Spotify, AppTheme::Kawaii, AppTheme::Neverlose, AppTheme::ShadowFiend, AppTheme::SoundCloud] {
        assert_eq!(theme_from_name(theme_name(t)), t);
    }
    assert_eq!(theme_name(AppTheme::Custom), "Spotify");
    assert_eq!(theme_from_name(theme_name(AppTheme::Custom)), AppTheme::Spotify);
    assert_eq!(theme_from_name("kawaii"), AppTheme::Spotify);
}

#[test]
fn language_names_round_trip() {
    for l in [AppLanguage::Ru, AppLanguage::En, AppLanguage::Ua] {
        assert_eq!(language_from_name(language_name(l)), l);
    }
    assert_eq!(language_name(AppLanguage::Ua), "Ua");
    assert_eq!(language_from_name("de"), AppLanguage::Ru);
}

#[test]
fn language_and_layout_labels() {
    assert_eq!(AppLanguage::En.label(), "🇬🇧 English");
    assert_eq!(UiLayoutMode::Classic.label(AppLanguage::Ru), "🎛 Classic Widget");
    assert_eq!(default_layout_spotify(), UiLayoutMode::Spotify);
    assert!(default_true());
    assert_eq!(UserRole::default(), UserRole::User);
    assert_eq!(UserRole::Owner.label(), "Owner");
}

#[test]
fn i18n_texts() {
    assert_eq!(I18n::tab_player(AppLanguage::En), "🎵 Player");
    assert_eq!(I18n::btn_play_pause(AppLanguage::En, true), "Pause");
    assert_eq!(I18n::btn_play_pause(AppLanguage::Ua, false), "Відтворення");
    assert_eq!(I18n::btn_repeat(AppLanguage::En, "one"), "Repeat: single track (🔂)");
    assert_eq!(I18n::btn_repeat(AppLanguage::Ru, "all"), "Повтор: плейлист (🔁)");
    assert_eq!(I18n::btn_repeat(AppLanguage::Ua, "none"), "Повтор вимкнено");
    assert_eq!(I18n::total_played(AppLanguage::En, 42), "Total tracks finished: 42");
    assert_eq!(I18n::stats_total(AppLanguage::Ru, 0), "Всего треков: 0");
    assert_eq!(I18n::tracks_word(AppLanguage::Ua, 7), "7 треків");
    assert_eq!(I18n::profile_user_active(AppLanguage::En, "bob"), "Logged in as: bob");
    assert_eq!(I18n::search_btn(AppLanguage::Ru), "Найти");
}

#[test]
fn browser_labels_and_matching() {
    assert_eq!(tracker::BrowserTarget::Yandex.label(), "Яндекс Браузер");
    assert!(tracker::BrowserTarget::Chrome.matches("CHROME.EXE"));
    assert!(tracker::BrowserTarget::Zen.matches("Zen.exe"));
    assert!(tracker::BrowserTarget::Auto.matches("browser.exe"));
    assert!(tracker::BrowserTarget::Auto.matches("MsEdge.exe"));
    assert!(!tracker::BrowserTarget::Firefox.matches("chrome.exe"));
    assert!(!tracker::BrowserTarget::Auto.matches("explorer.exe"));
    assert!(tracker::BrowserTarget::Opera.matches_lowercased("opera.exe"));
    assert!(!tracker::BrowserTarget::Opera.matches_lowercased("OPERA.EXE"));
}

#[test]
fn tracker_config_defaults() {
    let c = tracker::AppConfig::default();
    assert_eq!(c.selected_browser, tracker::BrowserTarget::Auto);
    assert_eq!(c.theme, tracker::AppTheme::Kawaii);
    assert_eq!(c.total_tracks_played, 0);
    assert!(c.custom_image_path.is_none());
    assert!(c.history.is_empty());
}

#[test]
fn cards_list_top_five() {
    let top: Vec<(String, usize)> = (0..7).map(|i| (format!("A{}", i), 10 - i)).collect();
    let c = stats_card_plan(AppTheme::Kawaii, [0, 0, 0], [0, 0, 0], AppLanguage::En, &top);
    assert_eq!(c.background, rgb(24, 18, 28));
    assert_eq!(c.accent, rgb(230, 95, 140));
    assert_eq!(c.heading, "BETA HUD // LISTENING REPORT");
    assert_eq!(c.top_label, "TOP ARTISTS:");
    assert_eq!(c.artist_lines.len(), 5);
    assert_eq!(c.artist_lines[0], "#1 A0 (10 tr.)");
    assert_eq!(c.artist_lines[4], "#5 A4 (6 tr.)");
    let s = summary_card_plan(tracker::AppTheme::Neverlose, &top[..1].to_vec());
    assert_eq!(s.background, rgb(11, 16, 26));
    assert_eq!(s.heading, "SOUNDCLOUD SUMMARY");
    assert_eq!(s.artist_lines, vec!["#1 A0 (10 tracks)".to_string()]);
    let custom = stats_card_plan(AppTheme::Custom, [9, 8, 7], [1, 2, 3], AppLanguage::Ru, &Vec::new());
    assert_eq!(custom.background, rgb(1, 2, 3));
    assert_eq!(custom.accent, rgb(9, 8, 7));
    assert_eq!(custom.top_label, "ТОП ИСПОЛНИТЕЛЕЙ:");
    assert!(custom.artist_lines.is_empty());
}

#[test]
fn stats_tab_texts() {
    let top = vec![("Art".to_string(), 4usize)];
    assert_eq!(favourite_artist_text(&top), "Art (4×)");
    assert_eq!(favourite_artist_text(&Vec::new()), "—");
    assert_eq!(rank_heading(0), "🥇 #1:");
    assert_eq!(rank_heading(2), "🥉 #3:");
    assert_eq!(rank_heading(9), "• #10:");
    assert_eq!(playlist_size_text(0), "Плейлист");
    assert_eq!(playlist_size_text(12), "12 треков");
    assert_eq!(play_track_command("https://soundcloud.com/a/b"), "play_track:https://soundcloud.com/a/b");
    assert_eq!(toggle_text(true, "EQ"), "✔ EQ");
    assert_eq!(toggle_text(false, "EQ"), "   EQ");
    assert_eq!(search_meta_text("Art", 125), "Art • 02:05");
}
