use zen_rpc::clock::{format_duration, parse_time_to_seconds};
use zen_rpc::title::{format_str, parse_soundcloud_title};

fn parsed(
    t: &str,
    a: &str,
    p: Option<u64>,
    d: Option<u64>,
    c: Option<&str>,
) -> Option<(String, String, Option<u64>, Option<u64>, Option<String>)> {
    Some((t.to_string(), a.to_string(), p, d, c.map(|x| x.to_string())))
}

#[test]
fn format_duration_pads_minutes_and_seconds() {
    assert_eq!(format_duration(0), "00:00");
    assert_eq!(format_duration(59), "00:59");
    assert_eq!(format_duration(61), "01:01");
    assert_eq!(format_duration(200), "03:20");
    assert_eq!(format_duration(6000), "100:00");
}

#[test]
fn parse_time_reads_minutes_and_hours() {
    assert_eq!(parse_time_to_seconds("1:23"), Some(83));
    assert_eq!(parse_time_to_seconds("1:02:03"), Some(3723));
    assert_eq!(parse_time_to_seconds("  2:05 "), Some(125));
    assert_eq!(parse_time_to_seconds("+1:05"), Some(65));
    assert_eq!(parse_time_to_seconds("0:00"), Some(0));
}

#[test]
fn parse_time_refuses_other_shapes() {
    assert_eq!(parse_time_to_seconds("a:b"), None);
    assert_eq!(parse_time_to_seconds("17"), None);
    assert_eq!(parse_time_to_seconds("1:2:3:4"), None);
    assert_eq!(parse_time_to_seconds(""), None);
    assert_eq!(parse_time_to_seconds("1:-2"), None);
}

#[test]
fn formatted_duration_reads_back() {
    for s in [0u64, 1, 59, 60, 3599, 3600, 86399, 123456] {
        assert_eq!(parse_time_to_seconds(&format_duration(s)), Some(s));
    }
}

#[test]
fn title_with_timing_and_browser_suffix() {
    assert_eq!(
        parse_soundcloud_title("Song Name by Artist Name [1:23/3:45] — Zen Browser"),
        parsed("Song Name", "Artist Name", Some(83), Some(225), None)
    );
}

#[test]
fn title_with_explicit_meta() {
    assert_eq!(
        parse_soundcloud_title("[[[Artist:::Track]]] anything by anyone"),
        parsed("Track", "Artist", None, None, None)
    );
}

#[test]
fn title_with_angle_cover() {
    assert_eq!(
        parse_soundcloud_title("Track by Artist <<<https://i1.sndcdn.com/a.jpg>>>"),
        parsed("Track", "Artist", None, None, Some("https://i1.sndcdn.com/a.jpg"))
    );
}

#[test]
fn title_with_img_cover() {
    assert_eq!(
        parse_soundcloud_title("|IMG: https://x.example/y.png |Track by Artist"),
        parsed("Track", "Artist", None, None, Some("https://x.example/y.png"))
    );
}

#[test]
fn title_cover_without_http_is_dropped() {
    assert_eq!(
        parse_soundcloud_title("Track by Artist <<<ftp://a>>>"),
        parsed("Track", "Artist", None, None, None)
    );
}

#[test]
fn title_in_playlist() {
    assert_eq!(
        parse_soundcloud_title("Track in Playlist | SoundCloud"),
        parsed("Track", "Playlist", None, None, None)
    );
}

#[test]
fn title_splits_at_last_by() {
    assert_eq!(parse_soundcloud_title("A by B by C"), parsed("A by B", "C", None, None, None));
}

#[test]
fn title_without_track_is_none() {
    assert_eq!(parse_soundcloud_title("Just a page"), None);
    assert_eq!(parse_soundcloud_title(""), None);
    assert_eq!(parse_soundcloud_title(" by Artist"), None);
}

#[test]
fn title_with_bad_timing_keeps_brackets() {
    assert_eq!(
        parse_soundcloud_title("Song [live] by Artist"),
        parsed("Song [live]", "Artist", None, None, None)
    );
}

#[test]
fn format_str_cleans_names() {
    assert_eq!(format_str("  «Hello»  "), "Hello");
    assert_eq!(format_str("Current track: Foo"), "Foo");
    assert_eq!(format_str(""), "Неизвестно");
    assert_eq!(format_str("X"), "X ");
    assert_eq!(format_str("'\"Q\"'"), "Q ");
    assert_eq!(format_str("'\"Queen\"'"), "Queen");
    assert_eq!(format_str("   "), "Неизвестно");
}
