use std::io::Cursor;
use zen_rpc::cover::decode_cover;
use zen_rpc::lyrics::{choose_lyrics, LyricsAnswer, LyricsChoice};
use zen_rpc::tracker::BrowserTarget;

fn png_bytes() -> Vec<u8> {
    let img = image::RgbaImage::from_raw(2, 1, vec![255, 0, 0, 255, 0, 0, 255, 128]).unwrap();
    let mut out = Cursor::new(Vec::new());
    img.write_to(&mut out, image::ImageFormat::Png).unwrap();
    out.into_inner()
}

#[test]
fn cover_bytes_decode_to_rgba() {
    let bytes = png_bytes();
    let (pixels, size) = decode_cover(&bytes).expect("a png");
    assert_eq!(size, [2, 1]);
    assert_eq!(pixels.len(), 4 * size[0] * size[1]);
    assert_eq!(pixels, vec![255, 0, 0, 255, 0, 0, 255, 128]);
    assert_ne!(pixels, bytes);
}

#[test]
fn non_image_bytes_are_refused() {
    assert!(decode_cover(b"not an image").is_none());
    assert!(decode_cover(&[]).is_none());
}

fn answer(synced: Option<&str>, lines: usize, plain: Option<&str>) -> LyricsAnswer {
    LyricsAnswer {
        synced: synced.map(|s| s.to_string()),
        synced_lines: lines,
        plain: plain.map(|s| s.to_string()),
    }
}

#[test]
fn lyrics_prefer_synced_then_plain_in_order() {
    let a = vec![answer(Some("  "), 0, None), answer(Some("[00:01]x"), 0, Some("  words \n")), answer(Some("[00:01]y"), 1, None)];
    assert!(matches!(choose_lyrics(&a), LyricsChoice::Plain(ref t) if t == "words"));
    let b = vec![answer(None, 0, Some(" ")), answer(Some("[00:01]y"), 1, Some("p"))];
    assert!(matches!(choose_lyrics(&b), LyricsChoice::Synced(1)));
    let c = vec![answer(None, 0, None), answer(Some(""), 3, Some(""))];
    assert!(matches!(choose_lyrics(&c), LyricsChoice::NotFound));
    assert!(matches!(choose_lyrics(&Vec::new()), LyricsChoice::NotFound));
}

#[test]
fn browser_matching_ignores_ascii_case() {
    let targets = [
        BrowserTarget::Auto,
        BrowserTarget::Zen,
        BrowserTarget::Chrome,
        BrowserTarget::Opera,
        BrowserTarget::Yandex,
        BrowserTarget::Edge,
        BrowserTarget::Firefox,
    ];
    for name in ["chrome.exe", "Zen.exe", "msedge.exe", "firefox", "explorer.exe", "Browser.EXE"] {
        for t in targets {
            assert_eq!(t.matches(name), t.matches(&name.to_ascii_uppercase()));
        }
        let any = targets[1..].iter().any(|t| t.matches(name));
        assert_eq!(BrowserTarget::Auto.matches(name), any);
    }
}
