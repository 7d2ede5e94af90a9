pub mod card;
pub mod clock;
pub mod cover;
pub mod decimal;
pub mod history;
pub mod i18n;
pub mod lyrics;
pub mod palette;
pub mod player;
pub mod presence;
pub mod settings;
pub mod text;
pub mod title;
pub mod tracker;
pub mod views;
pub mod watch;
pub mod web;
