use vstd::prelude::*;
use crate::decimal::{decimal, decimal_chars};
use crate::text::{chars_of, push_all, push_str, string_of};

verus! {

/// The language of the interface.
#[derive(Clone, Copy, PartialEq, Eq, Structural, Debug)]
pub enum AppLanguage {
    Ru,
    En,
    Ua,
}

impl AppLanguage {
    /// The name of the language in its own words, with its flag.
    pub fn label(&self) -> (s: &'static str)
        ensures
            s@ == (match *self {
                AppLanguage::Ru => "🇷🇺 Русский"@,
                AppLanguage::En => "🇬🇧 English"@,
                AppLanguage::Ua => "🇺🇦 Українська"@,
            }),
    {
        match self {
            AppLanguage::Ru => "🇷🇺 Русский",
            AppLanguage::En => "🇬🇧 English",
            AppLanguage::Ua => "🇺🇦 Українська",
        }
    }
}

/// The layout of the player tab.
#[derive(Clone, Copy, PartialEq, Eq, Structural, Debug)]
pub enum UiLayoutMode {
    Spotify,
    Classic,
}

impl UiLayoutMode {
    /// The name of the layout (the same in every language).
    pub fn label(&self, _lang: AppLanguage) -> (s: &'static str)
        ensures
            s@ == (match *self {
                UiLayoutMode::Spotify => "🟢 Spotify Modern"@,
                UiLayoutMode::Classic => "🎛 Classic Widget"@,
            }),
    {
        match self {
            UiLayoutMode::Spotify => "🟢 Spotify Modern",
            UiLayoutMode::Classic => "🎛 Classic Widget",
        }
    }
}

/// The layout a configuration without one gets.
pub fn default_layout_spotify() -> (m: UiLayoutMode)
    ensures
        m == UiLayoutMode::Spotify,
{
    UiLayoutMode::Spotify
}

/// The value a missing switch of the configuration gets.
pub fn default_true() -> (b: bool)
    ensures
        b,
{
    true
}

/// The role of the user.
#[derive(Clone, Copy, PartialEq, Eq, Structural, Debug)]
pub enum UserRole {
    Owner,
    Beta,
    User,
}

impl UserRole {
    /// The role a configuration without one gets.
    pub fn default_role() -> (r: UserRole)
        ensures
            r == UserRole::User,
    {
        UserRole::User
    }

    /// The name of the role.
    pub fn label(self) -> (s: &'static str)
        ensures
            s@ == (match self {
                UserRole::Owner => "Owner"@,
                UserRole::Beta => "Beta"@,
                UserRole::User => "User"@,
            }),
    {
        match self {
            UserRole::Owner => "Owner",
            UserRole::Beta => "Beta",
            UserRole::User => "User",
        }
    }
}

impl Default for UserRole {
    fn default() -> (r: UserRole)
        ensures
            r == UserRole::User,
    {
        UserRole::User
    }
}

/// The texts of the interface in each language.
pub struct I18n;

impl I18n {
    /// The label of the player tab.
    pub fn tab_player(lang: AppLanguage) -> (s: &'static str)
        ensures
            s@ == (match lang {
                AppLanguage::Ru => "🎵 Плеер"@,
                AppLanguage::En => "🎵 Player"@,
                AppLanguage::Ua => "🎵 Плеєр"@,
            }),
    {
        match lang {
            AppLanguage::Ru => "🎵 Плеер",
            AppLanguage::En => "🎵 Player",
            AppLanguage::Ua => "🎵 Плеєр",
        }
    }

    /// The label of the search tab.
    pub fn tab_search(lang: AppLanguage) -> (s: &'static str)
        ensures
            s@ == (match lang {
                AppLanguage::Ru => "🔍 Поиск"@,
                AppLanguage::En => "🔍 Search"@,
                AppLanguage::Ua => "🔍 Пошук"@,
            }),
    {
        match lang {
            AppLanguage::Ru => "🔍 Поиск",
            AppLanguage::En => "🔍 Search",
            AppLanguage::Ua => "🔍 Пошук",
        }
    }

    /// The label of the top tab.
    pub fn tab_top(lang: AppLanguage) -> (s: &'static str)
        ensures
            s@ == (match lang {
                AppLanguage::Ru => "📊 Топ"@,
                AppLanguage::En => "📊 Top"@,
                AppLanguage::Ua => "📊 Топ"@,
            }),
    {
        match lang {
            AppLanguage::Ru => "📊 Топ",
            AppLanguage::En => "📊 Top",
            AppLanguage::Ua => "📊 Топ",
        }
    }

    /// The label of the history tab.
    pub fn tab_history(lang: AppLanguage) -> (s: &'static str)
        ensures
            s@ == (match lang {
                AppLanguage::Ru => "📜 История"@,
                AppLanguage::En => "📜 History"@,
                AppLanguage::Ua => "📜 Історія"@,
            }),
    {
        match lang {
            AppLanguage::Ru => "📜 История",
            AppLanguage::En => "📜 History",
            AppLanguage::Ua => "📜 Історія",
        }
    }

    /// The switch text while the presence is on.
    pub fn status_active(lang: AppLanguage) -> (s: &'static str)
        ensures
            s@ == (match lang {
                AppLanguage::Ru => "Статус: Активен"@,
                AppLanguage::En => "Status: Active"@,
                AppLanguage::Ua => "Статус: Активний"@,
            }),
    {
        match lang {
            AppLanguage::Ru => "Статус: Активен",
            AppLanguage::En => "Status: Active",
            AppLanguage::Ua => "Статус: Активний",
        }
    }

    /// The switch text while the presence is off.
    pub fn status_disabled(lang: AppLanguage) -> (s: &'static str)
        ensures
            s@ == (match lang {
                AppLanguage::Ru => "Статус: Отключен"@,
                AppLanguage::En => "Status: Disabled"@,
                AppLanguage::Ua => "Статус: Вимкнено"@,
            }),
    {
        match lang {
            AppLanguage::Ru => "Статус: Отключен",
            AppLanguage::En => "Status: Disabled",
            AppLanguage::Ua => "Статус: Вимкнено",
        }
    }

    /// The text of the button that hides the window.
    pub fn btn_minimize(lang: AppLanguage) -> (s: &'static str)
        ensures
            s@ == (match lang {
                AppLanguage::Ru => "— Свернуть в фон"@,
                AppLanguage::En => "— Minimize to background"@,
                AppLanguage::Ua => "— Згорнути у фон"@,
            }),
    {
        match lang {
            AppLanguage::Ru => "— Свернуть в фон",
            AppLanguage::En => "— Minimize to background",
            AppLanguage::Ua => "— Згорнути у фон",
        }
    }

    /// The hint of the previous-track button.
    pub fn btn_prev(lang: AppLanguage) -> (s: &'static str)
        ensures
            s@ == (match lang {
                AppLanguage::Ru => "Предыдущий трек"@,
                AppLanguage::En => "Previous track"@,
                AppLanguage::Ua => "Попередній трек"@,
            }),
    {
        match lang {
            AppLanguage::Ru => "Предыдущий трек",
            AppLanguage::En => "Previous track",
            AppLanguage::Ua => "Попередній трек",
        }
    }

    /// The hint of the next-track button.
    pub fn btn_next(lang: AppLanguage) -> (s: &'static str)
        ensures
            s@ == (match lang {
                AppLanguage::Ru => "Следующий трек"@,
                AppLanguage::En => "Next track"@,
                AppLanguage::Ua => "Наступний трек"@,
            }),
    {
        match lang {
            AppLanguage::Ru => "Следующий трек",
            AppLanguage::En => "Next track",
            AppLanguage::Ua => "Наступний трек",
        }
    }

    /// The heading of the search tab.
    pub fn search_title(lang: AppLanguage) -> (s: &'static str)
        ensures
            s@ == (match lang {
                AppLanguage::Ru => "Поиск треков SoundCloud"@,
                AppLanguage::En => "SoundCloud Track Search"@,
                AppLanguage::Ua => "Пошук треків SoundCloud"@,
            }),
    {
        match lang {
            AppLanguage::Ru => "Поиск треков SoundCloud",
            AppLanguage::En => "SoundCloud Track Search",
            AppLanguage::Ua => "Пошук треків SoundCloud",
        }
    }

    /// The hint in the search field.
    pub fn search_hint(lang: AppLanguage) -> (s: &'static str)
        ensures
            s@ == (match lang {
                AppLanguage::Ru => "Название трека или исполнитель..."@,
                AppLanguage::En => "Track title or artist name..."@,
                AppLanguage::Ua => "Назва треку або виконавець..."@,
            }),
    {
        match lang {
            AppLanguage::Ru => "Название трека или исполнитель...",
            AppLanguage::En => "Track title or artist name...",
            AppLanguage::Ua => "Назва треку або виконавець...",
        }
    }

    /// The text of the search button.
    pub fn search_btn(lang: AppLanguage) -> (s: &'static str)
        ensures
            s@ == (match lang {
                AppLanguage::Ru => "Найти"@,
                AppLanguage::En => "Search"@,
                AppLanguage::Ua => "Знайти"@,
            }),
    {
        match lang {
            AppLanguage::Ru => "Найти",
            AppLanguage::En => "Search",
            AppLanguage::Ua => "Знайти",
        }
    }

    /// The text shown while a search runs.
    pub fn search_loading(lang: AppLanguage) -> (s: &'static str)
        ensures
            s@ == (match lang {
                AppLanguage::Ru => "Ищем треки в SoundCloud..."@,
                AppLanguage::En => "Searching tracks on SoundCloud..."@,
                AppLanguage::Ua => "Шукаємо треки в SoundCloud..."@,
            }),
    {
        match lang {
            AppLanguage::Ru => "Ищем треки в SoundCloud...",
            AppLanguage::En => "Searching tracks on SoundCloud...",
            AppLanguage::Ua => "Шукаємо треки в SoundCloud...",
        }
    }

    /// The text shown when a search finds nothing.
    pub fn search_empty(lang: AppLanguage) -> (s: &'static str)
        ensures
            s@ == (match lang {
                AppLanguage::Ru => "Ничего не найдено по этому запросу"@,
                AppLanguage::En => "No tracks found for this query"@,
                AppLanguage::Ua => "Нічого не знайдено за цим запитом"@,
            }),
    {
        match lang {
            AppLanguage::Ru => "Ничего не найдено по этому запросу",
            AppLanguage::En => "No tracks found for this query",
            AppLanguage::Ua => "Нічого не знайдено за цим запитом",
        }
    }

    /// The text shown before the first search.
    pub fn search_start_prompt(lang: AppLanguage) -> (s: &'static str)
        ensures
            s@ == (match lang {
                AppLanguage::Ru => "Введите название трека и нажмите Enter для поиска"@,
                AppLanguage::En => "Type a track name and press Enter to search"@,
                AppLanguage::Ua => "Введіть назву треку та натисніть Enter для пошуку"@,
            }),
    {
        match lang {
            AppLanguage::Ru => "Введите название трека и нажмите Enter для поиска",
            AppLanguage::En => "Type a track name and press Enter to search",
            AppLanguage::Ua => "Введіть назву треку та натисніть Enter для пошуку",
        }
    }

    /// The text of the button that plays a found track.
    pub fn btn_play_track(lang: AppLanguage) -> (s: &'static str)
        ensures
            s@ == (match lang {
                AppLanguage::Ru => "▶ Включить"@,
                AppLanguage::En => "▶ Play"@,
                AppLanguage::Ua => "▶ Увімкнути"@,
            }),
    {
        match lang {
            AppLanguage::Ru => "▶ Включить",
            AppLanguage::En => "▶ Play",
            AppLanguage::Ua => "▶ Увімкнути",
        }
    }

    /// The heading of the statistics tab.
    pub fn stats_header(lang: AppLanguage) -> (s: &'static str)
        ensures
            s@ == (match lang {
                AppLanguage::Ru => "Музыкальная статистика"@,
                AppLanguage::En => "Music Statistics"@,
                AppLanguage::Ua => "Музична статистика"@,
            }),
    {
        match lang {
            AppLanguage::Ru => "Музыкальная статистика",
            AppLanguage::En => "Music Statistics",
            AppLanguage::Ua => "Музична статистика",
        }
    }

    /// The label of the most played artist.
    pub fn stats_fav_artist(lang: AppLanguage) -> (s: &'static str)
        ensures
            s@ == (match lang {
                AppLanguage::Ru => "🔥 Топ артист:"@,
                AppLanguage::En => "🔥 Top Artist:"@,
                AppLanguage::Ua => "🔥 Топ виконавець:"@,
            }),
    {
        match lang {
            AppLanguage::Ru => "🔥 Топ артист:",
            AppLanguage::En => "🔥 Top Artist:",
            AppLanguage::Ua => "🔥 Топ виконавець:",
        }
    }

    /// The text of the button that makes the statistics card.
    pub fn btn_share_top(lang: AppLanguage) -> (s: &'static str)
        ensures
            s@ == (match lang {
                AppLanguage::Ru => "📸 Поделиться топом (Создать карточку)"@,
                AppLanguage::En => "📸 Share Top (Create card)"@,
                AppLanguage::Ua => "📸 Поділитися топом (Створити картку)"@,
            }),
    {
        match lang {
            AppLanguage::Ru => "📸 Поделиться топом (Создать карточку)",
            AppLanguage::En => "📸 Share Top (Create card)",
            AppLanguage::Ua => "📸 Поділитися топом (Створити картку)",
        }
    }

    /// The heading of the artist ranking.
    pub fn top_artists_header(lang: AppLanguage) -> (s: &'static str)
        ensures
            s@ == (match lang {
                AppLanguage::Ru => "Топ исполнителей"@,
                AppLanguage::En => "Top Artists"@,
                AppLanguage::Ua => "Топ виконавців"@,
            }),
    {
        match lang {
            AppLanguage::Ru => "Топ исполнителей",
            AppLanguage::En => "Top Artists",
            AppLanguage::Ua => "Топ виконавців",
        }
    }

    /// The text shown while the history is empty.
    pub fn history_empty(lang: AppLanguage) -> (s: &'static str)
        ensures
            s@ == (match lang {
                AppLanguage::Ru => "История пока пуста..."@,
                AppLanguage::En => "History is currently empty..."@,
                AppLanguage::Ua => "Історія поки порожня..."@,
            }),
    {
        match lang {
            AppLanguage::Ru => "История пока пуста...",
            AppLanguage::En => "History is currently empty...",
            AppLanguage::Ua => "Історія поки порожня...",
        }
    }

    /// The heading of the settings tab.
    pub fn settings_title(lang: AppLanguage) -> (s: &'static str)
        ensures
            s@ == (match lang {
                AppLanguage::Ru => "Настройки приложения"@,
                AppLanguage::En => "Application Settings"@,
                AppLanguage::Ua => "Налаштування застосунку"@,
            }),
    {
        match lang {
            AppLanguage::Ru => "Настройки приложения",
            AppLanguage::En => "Application Settings",
            AppLanguage::Ua => "Налаштування застосунку",
        }
    }

    /// The label of the layout choice.
    pub fn settings_layout(lang: AppLanguage) -> (s: &'static str)
        ensures
            s@ == (match lang {
                AppLanguage::Ru => "Стиль макета:"@,
                AppLanguage::En => "Layout Mode:"@,
                AppLanguage::Ua => "Стиль макета:"@,
            }),
    {
        match lang {
            AppLanguage::Ru => "Стиль макета:",
            AppLanguage::En => "Layout Mode:",
            AppLanguage::Ua => "Стиль макета:",
        }
    }

    /// The label of the language choice.
    pub fn settings_lang(lang: AppLanguage) -> (s: &'static str)
        ensures
            s@ == (match lang {
                AppLanguage::Ru => "Язык интерфейса:"@,
                AppLanguage::En => "Interface Language:"@,
                AppLanguage::Ua => "Мова інтерфейсу:"@,
            }),
    {
        match lang {
            AppLanguage::Ru => "Язык интерфейса:",
            AppLanguage::En => "Interface Language:",
            AppLanguage::Ua => "Мова інтерфейсу:",
        }
    }

    /// The label of the theme choice.
    pub fn settings_theme(lang: AppLanguage) -> (s: &'static str)
        ensures
            s@ == (match lang {
                AppLanguage::Ru => "Тема интерфейса:"@,
                AppLanguage::En => "Theme style:"@,
                AppLanguage::Ua => "Тема інтерфейсу:"@,
            }),
    {
        match lang {
            AppLanguage::Ru => "Тема интерфейса:",
            AppLanguage::En => "Theme style:",
            AppLanguage::Ua => "Тема інтерфейсу:",
        }
    }

    /// The label of the history reset.
    pub fn settings_clear_hist(lang: AppLanguage) -> (s: &'static str)
        ensures
            s@ == (match lang {
                AppLanguage::Ru => "Очистить историю треков:"@,
                AppLanguage::En => "Clear track history:"@,
                AppLanguage::Ua => "Очистити історію треків:"@,
            }),
    {
        match lang {
            AppLanguage::Ru => "Очистить историю треков:",
            AppLanguage::En => "Clear track history:",
            AppLanguage::Ua => "Очистити історію треків:",
        }
    }

    /// The label of the track cover switch.
    pub fn settings_use_track_cover(lang: AppLanguage) -> (s: &'static str)
        ensures
            s@ == (match lang {
                AppLanguage::Ru => "🖼 Обложка трека SoundCloud (по умолчанию):"@,
                AppLanguage::En => "🖼 SoundCloud track artwork (default):"@,
                AppLanguage::Ua => "🖼 Обкладинка треку SoundCloud (за замовчуванням):"@,
            }),
    {
        match lang {
            AppLanguage::Ru => "🖼 Обложка трека SoundCloud (по умолчанию):",
            AppLanguage::En => "🖼 SoundCloud track artwork (default):",
            AppLanguage::Ua => "🖼 Обкладинка треку SoundCloud (за замовчуванням):",
        }
    }

    /// The label of the HUD elements menu.
    pub fn hud_elements_label(lang: AppLanguage) -> (s: &'static str)
        ensures
            s@ == (match lang {
                AppLanguage::Ru => "Элементы худа:"@,
                AppLanguage::En => "HUD Elements:"@,
                AppLanguage::Ua => "Елементи худа:"@,
            }),
    {
        match lang {
            AppLanguage::Ru => "Элементы худа:",
            AppLanguage::En => "HUD Elements:",
            AppLanguage::Ua => "Елементи худа:",
        }
    }

    /// The text of the HUD elements menu button.
    pub fn hud_open_btn(lang: AppLanguage) -> (s: &'static str)
        ensures
            s@ == (match lang {
                AppLanguage::Ru => "Настроить ▾"@,
                AppLanguage::En => "Configure ▾"@,
                AppLanguage::Ua => "Налаштувати ▾"@,
            }),
    {
        match lang {
            AppLanguage::Ru => "Настроить ▾",
            AppLanguage::En => "Configure ▾",
            AppLanguage::Ua => "Налаштувати ▾",
        }
    }

    /// The text of the reset button.
    pub fn btn_reset(lang: AppLanguage) -> (s: &'static str)
        ensures
            s@ == (match lang {
                AppLanguage::Ru => "🗑 Сбросить"@,
                AppLanguage::En => "🗑 Reset"@,
                AppLanguage::Ua => "🗑 Скинути"@,
            }),
    {
        match lang {
            AppLanguage::Ru => "🗑 Сбросить",
            AppLanguage::En => "🗑 Reset",
            AppLanguage::Ua => "🗑 Скинути",
        }
    }

    /// The label of the accent colour picker.
    pub fn custom_accent_label(lang: AppLanguage) -> (s: &'static str)
        ensures
            s@ == (match lang {
                AppLanguage::Ru => "Цвет акцента:"@,
                AppLanguage::En => "Accent color:"@,
                AppLanguage::Ua => "Колір акценту:"@,
            }),
    {
        match lang {
            AppLanguage::Ru => "Цвет акцента:",
            AppLanguage::En => "Accent color:",
            AppLanguage::Ua => "Колір акценту:",
        }
    }

    /// The label of the background colour picker.
    pub fn custom_bg_label(lang: AppLanguage) -> (s: &'static str)
        ensures
            s@ == (match lang {
                AppLanguage::Ru => "Цвет фона:"@,
                AppLanguage::En => "Background color:"@,
                AppLanguage::Ua => "Колір фону:"@,
            }),
    {
        match lang {
            AppLanguage::Ru => "Цвет фона:",
            AppLanguage::En => "Background color:",
            AppLanguage::Ua => "Колір фону:",
        }
    }

    /// The text shown once a link is copied.
    pub fn copy_success(lang: AppLanguage) -> (s: &'static str)
        ensures
            s@ == (match lang {
                AppLanguage::Ru => "✔ Скопировано в буфер!"@,
                AppLanguage::En => "✔ Copied to clipboard!"@,
                AppLanguage::Ua => "✔ Скопійовано в буфер!"@,
            }),
    {
        match lang {
            AppLanguage::Ru => "✔ Скопировано в буфер!",
            AppLanguage::En => "✔ Copied to clipboard!",
            AppLanguage::Ua => "✔ Скопійовано в буфер!",
        }
    }

    /// The label of the particles switch.
    pub fn toggle_particles(lang: AppLanguage) -> (s: &'static str)
        ensures
            s@ == (match lang {
                AppLanguage::Ru => "🌌 Фоновые частицы (Sparks):"@,
                AppLanguage::En => "🌌 Background particles (Sparks):"@,
                AppLanguage::Ua => "🌌 Фонові частинки (Sparks):"@,
            }),
    {
        match lang {
            AppLanguage::Ru => "🌌 Фоновые частицы (Sparks):",
            AppLanguage::En => "🌌 Background particles (Sparks):",
            AppLanguage::Ua => "🌌 Фонові частинки (Sparks):",
        }
    }

    /// The label of the particle direction choice.
    pub fn particles_dir_label(lang: AppLanguage) -> (s: &'static str)
        ensures
            s@ == (match lang {
                AppLanguage::Ru => "Направление частиц:"@,
                AppLanguage::En => "Particles direction:"@,
                AppLanguage::Ua => "Напрямок частинок:"@,
            }),
    {
        match lang {
            AppLanguage::Ru => "Направление частиц:",
            AppLanguage::En => "Particles direction:",
            AppLanguage::Ua => "Напрямок частинок:",
        }
    }

    /// The name of the upward particle direction.
    pub fn dir_up(lang: AppLanguage) -> (s: &'static str)
        ensures
            s@ == (match lang {
                AppLanguage::Ru => "⬆ Вверх"@,
                AppLanguage::En => "⬆ Upward"@,
                AppLanguage::Ua => "⬆ Вгору"@,
            }),
    {
        match lang {
            AppLanguage::Ru => "⬆ Вверх",
            AppLanguage::En => "⬆ Upward",
            AppLanguage::Ua => "⬆ Вгору",
        }
    }

    /// The name of the downward particle direction.
    pub fn dir_down(lang: AppLanguage) -> (s: &'static str)
        ensures
            s@ == (match lang {
                AppLanguage::Ru => "⬇ Вниз"@,
                AppLanguage::En => "⬇ Downward"@,
                AppLanguage::Ua => "⬇ Вниз"@,
            }),
    {
        match lang {
            AppLanguage::Ru => "⬇ Вниз",
            AppLanguage::En => "⬇ Downward",
            AppLanguage::Ua => "⬇ Вниз",
        }
    }

    /// The label of the equalizer switch.
    pub fn toggle_eq(lang: AppLanguage) -> (s: &'static str)
        ensures
            s@ == (match lang {
                AppLanguage::Ru => "⚡ Неоновый эквалайзер:"@,
                AppLanguage::En => "⚡ Neon equalizer:"@,
                AppLanguage::Ua => "⚡ Неоновий еквалайзер:"@,
            }),
    {
        match lang {
            AppLanguage::Ru => "⚡ Неоновый эквалайзер:",
            AppLanguage::En => "⚡ Neon equalizer:",
            AppLanguage::Ua => "⚡ Неоновий еквалайзер:",
        }
    }

    /// The heading of the profile tab.
    pub fn profile_header(lang: AppLanguage) -> (s: &'static str)
        ensures
            s@ == (match lang {
                AppLanguage::Ru => "Моя медиатека SoundCloud"@,
                AppLanguage::En => "My SoundCloud Library"@,
                AppLanguage::Ua => "Моя медіатека SoundCloud"@,
            }),
    {
        match lang {
            AppLanguage::Ru => "Моя медиатека SoundCloud",
            AppLanguage::En => "My SoundCloud Library",
            AppLanguage::Ua => "Моя медіатека SoundCloud",
        }
    }

    /// The text shown when no account is signed in.
    pub fn profile_guest_hint(lang: AppLanguage) -> (s: &'static str)
        ensures
            s@ == (match lang {
                AppLanguage::Ru => "Аккаунт не обнаружен. Убедитесь, что вы авторизованы в браузере."@,
                AppLanguage::En => "No active account found. Make sure you are signed in on SoundCloud."@,
                AppLanguage::Ua => "Акаунт не знайдено. Переконайтеся, що ви авторизовані в браузері."@,
            }),
    {
        match lang {
            AppLanguage::Ru => "Аккаунт не обнаружен. Убедитесь, что вы авторизованы в браузере.",
            AppLanguage::En => "No active account found. Make sure you are signed in on SoundCloud.",
            AppLanguage::Ua => "Акаунт не знайдено. Переконайтеся, що ви авторизовані в браузері.",
        }
    }

    /// The text of the button that opens the stream feed.
    pub fn btn_open_stream(lang: AppLanguage) -> (s: &'static str)
        ensures
            s@ == (match lang {
                AppLanguage::Ru => "⚡ Моя лента (Stream)"@,
                AppLanguage::En => "⚡ My Stream Feed"@,
                AppLanguage::Ua => "⚡ Моя стрічка (Stream)"@,
            }),
    {
        match lang {
            AppLanguage::Ru => "⚡ Моя лента (Stream)",
            AppLanguage::En => "⚡ My Stream Feed",
            AppLanguage::Ua => "⚡ Моя стрічка (Stream)",
        }
    }

    /// The text of the button that opens the profile page.
    pub fn btn_open_user_page(lang: AppLanguage) -> (s: &'static str)
        ensures
            s@ == (match lang {
                AppLanguage::Ru => "🌐 Моя страница профиля"@,
                AppLanguage::En => "🌐 My Profile Page"@,
                AppLanguage::Ua => "🌐 Моя сторінка профілю"@,
            }),
    {
        match lang {
            AppLanguage::Ru => "🌐 Моя страница профиля",
            AppLanguage::En => "🌐 My Profile Page",
            AppLanguage::Ua => "🌐 Моя сторінка профілю",
        }
    }

    /// The heading of the playlist list.
    pub fn playlists_header(lang: AppLanguage) -> (s: &'static str)
        ensures
            s@ == (match lang {
                AppLanguage::Ru => "Мои плейлисты"@,
                AppLanguage::En => "My Playlists"@,
                AppLanguage::Ua => "Мої плейлісти"@,
            }),
    {
        match lang {
            AppLanguage::Ru => "Мои плейлисты",
            AppLanguage::En => "My Playlists",
            AppLanguage::Ua => "Мої плейлісти",
        }
    }

    /// The text shown when no playlist is known.
    pub fn playlists_empty(lang: AppLanguage) -> (s: &'static str)
        ensures
            s@ == (match lang {
                AppLanguage::Ru => "Плейлисты не обнаружены. Убедитесь, что SoundCloud открыт в браузере."@,
                AppLanguage::En => "No playlists detected. Make sure SoundCloud is open in your browser."@,
                AppLanguage::Ua => "Плейлісти не виявлено. Переконайтеся, що SoundCloud відкритий у браузері."@,
            }),
    {
        match lang {
            AppLanguage::Ru => "Плейлисты не обнаружены. Убедитесь, что SoundCloud открыт в браузере.",
            AppLanguage::En => "No playlists detected. Make sure SoundCloud is open in your browser.",
            AppLanguage::Ua => "Плейлісти не виявлено. Переконайтеся, що SoundCloud відкритий у браузері.",
        }
    }

    /// The hint of the play/pause button: what pressing it does.
    pub fn btn_play_pause(lang: AppLanguage, is_playing: bool) -> (s: &'static str)
        ensures
            s@ == (match (lang, is_playing) {
                (AppLanguage::Ru, true) => "Пауза"@,
                (AppLanguage::Ru, false) => "Воспроизведение"@,
                (AppLanguage::En, true) => "Pause"@,
                (AppLanguage::En, false) => "Play"@,
                (AppLanguage::Ua, true) => "Пауза"@,
                (AppLanguage::Ua, false) => "Відтворення"@,
            }),
    {
        match (lang, is_playing) {
            (AppLanguage::Ru, true) => "Пауза",
            (AppLanguage::Ru, false) => "Воспроизведение",
            (AppLanguage::En, true) => "Pause",
            (AppLanguage::En, false) => "Play",
            (AppLanguage::Ua, true) => "Пауза",
            (AppLanguage::Ua, false) => "Відтворення",
        }
    }

    /// The hint of the repeat button for the repeat mode `one`, `all` or anything else (off).
    pub fn btn_repeat(lang: AppLanguage, mode: &str) -> (s: String)
        ensures
            s@ == (match lang {
                AppLanguage::Ru => if mode@ == "one"@ {
                    "Повтор: этот трек (🔂)"@
                } else if mode@ == "all"@ {
                    "Повтор: плейлист (🔁)"@
                } else {
                    "Повтор выключен"@
                },
                AppLanguage::En => if mode@ == "one"@ {
                    "Repeat: single track (🔂)"@
                } else if mode@ == "all"@ {
                    "Repeat: playlist (🔁)"@
                } else {
                    "Repeat: off"@
                },
                AppLanguage::Ua => if mode@ == "one"@ {
                    "Повтор: цей трек (🔂)"@
                } else if mode@ == "all"@ {
                    "Повтор: плейліст (🔁)"@
                } else {
                    "Повтор вимкнено"@
                },
            }),
    {
        let m = chars_of(mode);
        let one = chars_of("one");
        let all = chars_of("all");
        let is_one = crate::text::chars_eq(&m, &one);
        let is_all = crate::text::chars_eq(&m, &all);
        let text = match lang {
            AppLanguage::Ru => if is_one {
                "Повтор: этот трек (🔂)"
            } else if is_all {
                "Повтор: плейлист (🔁)"
            } else {
                "Повтор выключен"
            },
            AppLanguage::En => if is_one {
                "Repeat: single track (🔂)"
            } else if is_all {
                "Repeat: playlist (🔁)"
            } else {
                "Repeat: off"
            },
            AppLanguage::Ua => if is_one {
                "Повтор: цей трек (🔂)"
            } else if is_all {
                "Повтор: плейліст (🔁)"
            } else {
                "Повтор вимкнено"
            },
        };
        let v = chars_of(text);
        string_of(v.as_slice())
    }

    /// The number of tracks listened to the end, under the player.
    pub fn total_played(lang: AppLanguage, count: u32) -> (s: String)
        ensures
            s@ == (match lang {
                AppLanguage::Ru => "Всего дослушано треков: "@,
                AppLanguage::En => "Total tracks finished: "@,
                AppLanguage::Ua => "Всього дослухано треків: "@,
            }) + decimal(count as nat),
    {
        let prefix = match lang {
            AppLanguage::Ru => "Всего дослушано треков: ",
            AppLanguage::En => "Total tracks finished: ",
            AppLanguage::Ua => "Всього дослухано треків: ",
        };
        let mut v = chars_of(prefix);
        let d = decimal_chars(count as u64);
        push_all(&mut v, &d);
        string_of(v.as_slice())
    }

    /// The number of tracks, in the statistics tab.
    pub fn stats_total(lang: AppLanguage, count: u32) -> (s: String)
        ensures
            s@ == (match lang {
                AppLanguage::Ru => "Всего треков: "@,
                AppLanguage::En => "Total tracks: "@,
                AppLanguage::Ua => "Всього треків: "@,
            }) + decimal(count as nat),
    {
        let prefix = match lang {
            AppLanguage::Ru => "Всего треков: ",
            AppLanguage::En => "Total tracks: ",
            AppLanguage::Ua => "Всього треків: ",
        };
        let mut v = chars_of(prefix);
        let d = decimal_chars(count as u64);
        push_all(&mut v, &d);
        string_of(v.as_slice())
    }

    /// A number of tracks, in the artist ranking.
    pub fn tracks_word(lang: AppLanguage, cnt: usize) -> (s: String)
        ensures
            s@ == decimal(cnt as nat) + (match lang {
                AppLanguage::Ru => " треков"@,
                AppLanguage::En => " tracks"@,
                AppLanguage::Ua => " треків"@,
            }),
    {
        let suffix = match lang {
            AppLanguage::Ru => " треков",
            AppLanguage::En => " tracks",
            AppLanguage::Ua => " треків",
        };
        let mut v = decimal_chars(cnt as u64);
        push_str(&mut v, suffix);
        string_of(v.as_slice())
    }

    /// Who is signed in, in the profile tab.
    pub fn profile_user_active(lang: AppLanguage, name: &str) -> (s: String)
        ensures
            s@ == (match lang {
                AppLanguage::Ru => "Вы вошли как: "@,
                AppLanguage::En => "Logged in as: "@,
                AppLanguage::Ua => "Ви увійшли як: "@,
            }) + name@,
    {
        let prefix = match lang {
            AppLanguage::Ru => "Вы вошли как: ",
            AppLanguage::En => "Logged in as: ",
            AppLanguage::Ua => "Ви увійшли як: ",
        };
        let mut v = chars_of(prefix);
        push_str(&mut v, name);
        string_of(v.as_slice())
    }
}

} // verus!
