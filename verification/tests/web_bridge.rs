use zen_rpc::lyrics::lrc_entries;
use zen_rpc::web::{
    classify_command, client_id_from_js, cover_candidates, effective_client_id,
    lyrics_search_url, lyrics_web_search_url, request_path, route, script_candidates,
    search_api_url, search_item, search_query, share_link, soundcloud_search_url,
    thumbnail_url, CommandKind, Route,
};

#[test]
fn routes_by_method_and_path() {
    assert_eq!(route("GET", "/state"), Route::State);
    assert_eq!(route("GET", "/status"), Route::State);
    assert_eq!(route("OPTIONS", "/anything"), Route::Preflight);
    assert_eq!(route("GET", "/update"), Route::NotFound);
    assert_eq!(route("POST", "/update"), Route::Update);
    assert_eq!(route("POST", "/settings"), Route::Settings);
    assert_eq!(route("GET", "/beta"), Route::BetaPage);
    assert_eq!(route("GET", "/soundcloud-mark.svg"), Route::Logo);
}

#[test]
fn request_path_drops_query_and_slashes() {
    assert_eq!(request_path("/search/?q=a"), "/search");
    assert_eq!(request_path("/state"), "/state");
    assert_eq!(request_path("/beta//"), "/beta");
    assert_eq!(request_path("/"), "");
}

#[test]
fn search_query_decodes_last_q() {
    assert_eq!(search_query("/search?q=hello%20world&x=1"), "hello world");
    assert_eq!(search_query("/search?q=a&q=b%2Bc"), "b+c");
    assert_eq!(search_query("/search"), "");
    assert_eq!(search_query("/search?x=1"), "");
    assert_eq!(search_query("/search?q=%FF"), "");
    assert_eq!(search_query("/search?q=%D0%9F%D1%80%D0%B8"), "При");
}

#[test]
fn commands_are_classified() {
    assert!(matches!(classify_command("open_settings"), CommandKind::RestoreWindow));
    assert!(matches!(classify_command("close_beta"), CommandKind::RestoreWindow));
    assert!(matches!(classify_command("clear_history"), CommandKind::ClearHistory));
    assert!(matches!(classify_command("export_stats_card"), CommandKind::ExportStatsCard));
    match classify_command("set_volume:0.50") {
        CommandKind::Forward { volume_text } => assert_eq!(volume_text.as_deref(), Some("0.50")),
        _ => panic!("expected a forwarded command"),
    }
    match classify_command("next") {
        CommandKind::Forward { volume_text } => assert!(volume_text.is_none()),
        _ => panic!("expected a forwarded command"),
    }
}

#[test]
fn script_candidates_latest_first() {
    let html = [
        "<html><script src=\"https://a-v2.sndcdn.com/assets/0-a.js\"></script>",
        "<script src=\"https://other.com/x.js\"></script>",
        "<script src=\"https://a-v2.sndcdn.com/assets/1-b.js\"></script>",
        "<script>inline</script></html>",
    ]
    .join("");
    assert_eq!(
        script_candidates(&html),
        vec![
            "https://a-v2.sndcdn.com/assets/1-b.js".to_string(),
            "https://a-v2.sndcdn.com/assets/0-a.js".to_string()
        ]
    );
}

#[test]
fn script_candidates_keep_six() {
    let mut html = String::new();
    for i in 0..8 {
        html.push_str(&format!("<script src=\"https://a.sndcdn.com/assets/{}.js\">", i));
    }
    let c = script_candidates(&html);
    assert_eq!(c.len(), 6);
    assert_eq!(c[0], "https://a.sndcdn.com/assets/7.js");
    assert_eq!(c[5], "https://a.sndcdn.com/assets/2.js");
}

#[test]
fn client_id_from_script() {
    assert_eq!(
        client_id_from_js("x={client_id:\"abcdefghijklmnopqrstu\",y:1}").as_deref(),
        Some("abcdefghijklmnopqrstu")
    );
    assert_eq!(
        client_id_from_js("u?client_id=\"ABCDEFGHIJKLMNOPQRST\"").as_deref(),
        Some("ABCDEFGHIJKLMNOPQRST")
    );
    assert_eq!(client_id_from_js("client_id:\"short\""), None);
    assert_eq!(client_id_from_js("nothing here"), None);
}

#[test]
fn artwork_thumbnails() {
    assert_eq!(
        thumbnail_url("https://i1.sndcdn.com/artworks-x-large.jpg"),
        "https://i1.sndcdn.com/artworks-x-t200x200.jpg"
    );
    assert_eq!(thumbnail_url("https://i1.sndcdn.com/a-t500x500.png"), "https://i1.sndcdn.com/a-t200x200.png");
    assert_eq!(thumbnail_url("plain"), "plain");
}

#[test]
fn search_items_from_fields() {
    let item = search_item(
        Some("Title".to_string()),
        None,
        Some(187_654),
        Some("https://soundcloud.com/a/t".to_string()),
        None,
        Some("https://i1.sndcdn.com/avatars-x-large.jpg".to_string()),
    )
    .expect("item");
    assert_eq!(item.title, "Title");
    assert_eq!(item.artist, "SoundCloud Artist");
    assert_eq!(item.duration_sec, 187);
    assert_eq!(item.permalink_url, "https://soundcloud.com/a/t");
    assert_eq!(item.artwork_url, "https://i1.sndcdn.com/avatars-x-t200x200.jpg");
    assert!(search_item(None, None, None, Some("p".to_string()), None, None).is_none());
    assert!(search_item(Some("t".to_string()), None, None, None, None, None).is_none());
}

#[test]
fn cover_candidate_urls() {
    assert_eq!(
        cover_candidates(" \"https://i1.sndcdn.com/a-t500x500.jpg\" "),
        Some(vec![
            "https://i1.sndcdn.com/a-t500x500.jpg".to_string(),
            "https://i1.sndcdn.com/a-t300x300.jpg".to_string(),
            "https://i1.sndcdn.com/a-large.jpg".to_string()
        ])
    );
    assert_eq!(cover_candidates("'https://x/y.png'"), Some(vec!["https://x/y.png".to_string()]));
    assert_eq!(cover_candidates("data:image/png"), None);
}

#[test]
fn client_id_falls_back_when_blank() {
    assert_eq!(effective_client_id("   "), "2t9loNfh900mioJ2DU11YtSXQuVUbmyt");
    assert_eq!(effective_client_id("abc"), "abc");
}

#[test]
fn request_urls_are_percent_encoded() {
    assert_eq!(
        search_api_url("a b&c", "cid"),
        "https://api-v2.soundcloud.com/search/tracks?q=a%20b%26c&client_id=cid&limit=25"
    );
    assert_eq!(
        lyrics_search_url("Art Ist", "Song (Remix) [x]"),
        "https://lrclib.net/api/search?track_name=Song&artist_name=Art%20Ist"
    );
    assert_eq!(
        soundcloud_search_url("Ар", "x"),
        "https://soundcloud.com/search/sounds?q=%D0%90%D1%80%20x"
    );
    assert_eq!(
        lyrics_web_search_url("A", "B"),
        "https://www.google.com/search?q=A%20B%20lyrics"
    );
    assert_eq!(
        share_link("A", "B"),
        "🎧 Слушаю: A — B | https://soundcloud.com/search/sounds?q=A%20B"
    );
}

#[test]
fn lrc_lines_are_split() {
    let lrc = "[00:12.34] Hello \n[01:02.00]World\r\nnot a line\n[ar:Someone]\n[bad]\n\n";
    let e = lrc_entries(lrc);
    assert_eq!(e.len(), 3);
    assert_eq!((e[0].minutes.as_str(), e[0].seconds.as_str(), e[0].text.as_str()), ("00", "12.34", "Hello"));
    assert_eq!((e[1].minutes.as_str(), e[1].seconds.as_str(), e[1].text.as_str()), ("01", "02.00", "World"));
    assert_eq!((e[2].minutes.as_str(), e[2].seconds.as_str(), e[2].text.as_str()), ("ar", "Someone", ""));
    assert!(lrc_entries("").is_empty());
}

#[test]
fn search_text_survives_encoding() {
    for text in ["Привет & co?", "a=b", "plain", "", "100% 🎧"] {
        let url = format!("/search?q={}", urlencoding::encode(text));
        assert_eq!(search_query(&url), text);
    }
}
