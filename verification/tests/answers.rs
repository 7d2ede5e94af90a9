use zen_rpc::lyrics::lyrics_answers;
use zen_rpc::settings::settings_update_of;
use zen_rpc::web::{command_of, search_results};

#[test]
fn search_answer_items_in_order() {
    let body = r#"{"collection":[
        {"title":"First","user":{"username":"Ann","avatar_url":"https://i1.sndcdn.com/avatars-a-large.jpg"},
         "duration":187654,"permalink_url":"https://soundcloud.com/ann/first",
         "artwork_url":"https://i1.sndcdn.com/artworks-f-large.jpg"},
        {"user":{"username":"Nobody"},"permalink_url":"https://soundcloud.com/x/y"},
        {"title":"Second","permalink_url":"https://soundcloud.com/b/second",
         "user":{"avatar_url":"https://i1.sndcdn.com/avatars-b-badge.jpg"}}
    ]}"#;
    let items = search_results(body).expect("json");
    assert_eq!(items.len(), 2);
    assert_eq!(items[0].title, "First");
    assert_eq!(items[0].artist, "Ann");
    assert_eq!(items[0].duration_sec, 187);
    assert_eq!(items[0].permalink_url, "https://soundcloud.com/ann/first");
    assert_eq!(items[0].artwork_url, "https://i1.sndcdn.com/artworks-f-t200x200.jpg");
    assert_eq!(items[1].title, "Second");
    assert_eq!(items[1].artist, "SoundCloud Artist");
    assert_eq!(items[1].duration_sec, 0);
    assert_eq!(items[1].artwork_url, "https://i1.sndcdn.com/avatars-b-t200x200.jpg");
}

#[test]
fn search_answer_without_collection_is_empty() {
    assert_eq!(search_results(r#"{"total":3}"#).expect("json").len(), 0);
    assert_eq!(search_results(r#"{"collection":"none"}"#).expect("json").len(), 0);
}

#[test]
fn search_answer_not_json() {
    assert!(search_results("<html>rate limited</html>").is_none());
    assert!(search_results("").is_none());
}

#[test]
fn lyrics_answer_entries() {
    let body = r#"[{"syncedLyrics":"[00:01.00]la","plainLyrics":"la"},{"plainLyrics":"only"},{"syncedLyrics":5}]"#;
    let entries = lyrics_answers(body).expect("array");
    assert_eq!(entries.len(), 3);
    assert_eq!(entries[0], (Some("[00:01.00]la".to_string()), Some("la".to_string())));
    assert_eq!(entries[1], (None, Some("only".to_string())));
    assert_eq!(entries[2], (None, None));
}

#[test]
fn lyrics_answer_not_an_array() {
    assert!(lyrics_answers(r#"{"error":"not found"}"#).is_none());
    assert!(lyrics_answers("not json").is_none());
    assert_eq!(lyrics_answers("[]").expect("array").len(), 0);
}

#[test]
fn command_body_is_read() {
    assert_eq!(command_of(r#"{"command":"next"}"#), Some("next".to_string()));
    assert_eq!(command_of(r#"{"command":"toggle_play","extra":1}"#), Some("toggle_play".to_string()));
    assert_eq!(command_of(r#"{"command":7}"#), None);
    assert_eq!(command_of("{}"), None);
    assert_eq!(command_of("next"), None);
}

#[test]
fn settings_body_is_read() {
    let u = settings_update_of(r#"{"theme":"Neon","language":"ru","enable_particles":false,"use_track_cover":"yes"}"#)
        .expect("json");
    assert_eq!(u.theme, Some("Neon".to_string()));
    assert_eq!(u.language, Some("ru".to_string()));
    assert_eq!(u.enable_particles, Some(false));
    assert_eq!(u.particles_direction_up, None);
    assert_eq!(u.use_track_cover, None);
    assert_eq!(u.enable_equalizer, None);
    let empty = settings_update_of("{}").expect("json");
    assert_eq!(empty.theme, None);
    assert_eq!(empty.enable_equalizer, None);
    assert!(settings_update_of("theme=Neon").is_none());
}
