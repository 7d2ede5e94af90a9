use vstd::prelude::*;
use vstd::utf8::{decode_utf8, encode_utf8, valid_utf8};
use crate::text::{
    chars_eq, chars_of, find, find_chars, single, skip_chars, slice_of, split_chars, split_on,
    starts_with, starts_with_chars, string_of, take_chars, contains, contains_chars, ends_with,
    ends_with_chars, push_all, push_str, replace_all, replace_all_chars, split_by, split_by_chars,
    trim, trim_chars,
};

verus! {

/// A byte that percent-encoding leaves as it is: an ASCII letter or digit, `-`, `.`, `_`
/// or `~`.
pub open spec fn is_unreserved(b: u8) -> bool {
    ||| (48 <= b && b <= 57)
    ||| (65 <= b && b <= 90)
    ||| (97 <= b && b <= 122)
    ||| b == 45
    ||| b == 46
    ||| b == 95
    ||| b == 126
}

/// The upper-case hexadecimal digit for `n` (below sixteen).
pub open spec fn hex_char(n: int) -> char {
    if n < 10 {
        (n + 48) as char
    } else {
        (n + 55) as char
    }
}

/// Percent-encoding of `bytes`: unreserved bytes as they are, every other byte as `%`
/// and two upper-case hexadecimal digits.
pub open spec fn percent_encode(bytes: Seq<u8>) -> Seq<char>
    decreases bytes.len(),
{
    if bytes.len() == 0 {
        Seq::empty()
    } else {
        let b = bytes[0];
        (if is_unreserved(b) {
            seq![b as char]
        } else {
            seq!['%', hex_char(b as int / 16), hex_char(b as int % 16)]
        }) + percent_encode(bytes.drop_first())
    }
}

/// The value of an ASCII hexadecimal digit (either case).
pub open spec fn hex_value(b: u8) -> Option<u8> {
    if 48 <= b && b <= 57 {
        Some((b - 48) as u8)
    } else if 65 <= b && b <= 70 {
        Some((b - 55) as u8)
    } else if 97 <= b && b <= 102 {
        Some((b - 87) as u8)
    } else {
        None
    }
}

/// Percent-decoding of `bytes`: `%` and two hexadecimal digits become the byte they spell;
/// a `%` that is not followed by two of them is kept, and so is everything else.
pub open spec fn percent_decode(bytes: Seq<u8>) -> Seq<u8>
    decreases bytes.len(),
{
    if bytes.len() == 0 {
        Seq::empty()
    } else if bytes[0] != 37 {
        seq![bytes[0]] + percent_decode(bytes.drop_first())
    } else if bytes.len() < 3 {
        bytes
    } else {
        match (hex_value(bytes[1]), hex_value(bytes[2])) {
            (Some(h), Some(l)) => seq![(h * 16 + l) as u8] + percent_decode(bytes.skip(3)),
            (Some(_), None) => seq![37u8, bytes[1]] + percent_decode(bytes.skip(2)),
            _ => seq![37u8] + percent_decode(bytes.drop_first()),
        }
    }
}

/// Percent-encodes a string with `urlencoding::encode`. Trusted: the result is
/// `percent_encode` of the UTF-8 bytes of `s` (letters, digits, `-`, `.`, `_` and `~` as they
/// are, every other byte as `%` and two upper-case hexadecimal digits), which is
/// what the crate's source does.
#[verifier::external_body]
pub(crate) fn url_encode(s: &str) -> (r: String)
    ensures
        r@ == percent_encode(encode_utf8(s@)),
{
    urlencoding::encode(s).into_owned()
}

/// Percent-decodes a string with `urlencoding::decode`. Trusted: the decoded bytes are
/// `percent_decode` of the UTF-8 bytes of `s` (malformed escapes kept as they are, `+` kept),
/// and the result is `None` exactly where they are not UTF-8 (the crate's `FromUtf8Error`).
#[verifier::external_body]
pub(crate) fn url_decode(s: &str) -> (r: Option<String>)
    ensures
        match r {
            Some(x) => valid_utf8(percent_decode(encode_utf8(s@))) && x@ == decode_utf8(
                percent_decode(encode_utf8(s@)),
            ),
            None => !valid_utf8(percent_decode(encode_utf8(s@))),
        },
{
    match urlencoding::decode(s) {
        Ok(c) => Some(c.into_owned()),
        Err(_) => None,
    }
}

} // verus!

verus! {

/// `s` without its trailing `c` characters (`str::trim_end_matches(c)`).
pub open spec fn trim_end_char(s: Seq<char>, c: char) -> Seq<char>
    decreases s.len(),
{
    if s.len() > 0 && s.last() == c {
        trim_end_char(s.drop_last(), c)
    } else {
        s
    }
}

/// `s` up to the first `c`, or all of `s` (`s.split(c).next()`).
pub open spec fn before_first(s: Seq<char>, c: char) -> Seq<char> {
    match find(s, seq![c]) {
        Some(i) => s.take(i),
        None => s,
    }
}

/// The path of a request url: the part before any `?`, without trailing slashes.
pub open spec fn path_of(url: Seq<char>) -> Seq<char> {
    trim_end_char(before_first(url, '?'), '/')
}

fn trim_end_char_chars(v: &Vec<char>, c: char) -> (r: Vec<char>)
    ensures
        r@ == trim_end_char(v@, c),
{
    let mut b: usize = v.len();
    assert(v@.take(v.len() as int) =~= v@);
    while b > 0 && v[b - 1] == c
        invariant
            b <= v.len(),
            trim_end_char(v@, c) == trim_end_char(v@.take(b as int), c),
        decreases b,
    {
        assert(v@.take(b as int).drop_last() =~= v@.take(b - 1));
        b -= 1;
    }
    take_chars(v, b)
}

fn before_first_chars(v: &Vec<char>, c: char) -> (r: Vec<char>)
    ensures
        r@ == before_first(v@, c),
{
    let pat = single(c);
    match find_chars(v, &pat) {
        Some(i) => take_chars(v, i),
        None => {
            assert(v@.subrange(0, v.len() as int) =~= v@);
            slice_of(v, 0, v.len())
        },
    }
}

/// The path of a request url, without the query and trailing slashes.
pub fn request_path(raw_url: &str) -> (p: String)
    ensures
        p@ == path_of(raw_url@),
{
    let u = chars_of(raw_url);
    let b = before_first_chars(&u, '?');
    let t = trim_end_char_chars(&b, '/');
    assert(u@.subrange(0, u.len() as int) =~= u@);
    string_of(t.as_slice())
}

/// What the local server does with a request.
#[derive(PartialEq, Eq, Structural, Clone, Copy, Debug)]
pub enum Route {
    Preflight,
    BetaPage,
    State,
    Spectrum,
    Search,
    SearchResults,
    Logo,
    Settings,
    Command,
    Update,
    NotFound,
}

/// The route for a method and a path: `OPTIONS` on any path is a preflight; the pages and
/// data are `GET`, the updates `POST`; anything else is not found.
pub open spec fn route_of(method: Seq<char>, path: Seq<char>) -> Route {
    if method == "OPTIONS"@ {
        Route::Preflight
    } else if path == "/beta"@ && method == "GET"@ {
        Route::BetaPage
    } else if (path == "/state"@ || path == "/status"@) && method == "GET"@ {
        Route::State
    } else if path == "/spectrum"@ && method == "GET"@ {
        Route::Spectrum
    } else if path == "/search"@ && method == "GET"@ {
        Route::Search
    } else if path == "/search_results"@ && method == "POST"@ {
        Route::SearchResults
    } else if path == "/soundcloud-mark.svg"@ && method == "GET"@ {
        Route::Logo
    } else if path == "/settings"@ && method == "POST"@ {
        Route::Settings
    } else if path == "/command"@ && method == "POST"@ {
        Route::Command
    } else if path == "/update"@ && method == "POST"@ {
        Route::Update
    } else {
        Route::NotFound
    }
}

fn is(s: &Vec<char>, lit_text: &str) -> (b: bool)
    ensures
        b == (s@ == lit_text@),
{
    let l = chars_of(lit_text);
    chars_eq(s, &l)
}

/// Chooses what the local server does with a request.
pub fn route(method: &str, path: &str) -> (r: Route)
    ensures
        r == route_of(method@, path@),
{
    let m = chars_of(method);
    let p = chars_of(path);
    if is(&m, "OPTIONS") {
        Route::Preflight
    } else if is(&p, "/beta") && is(&m, "GET") {
        Route::BetaPage
    } else if (is(&p, "/state") || is(&p, "/status")) && is(&m, "GET") {
        Route::State
    } else if is(&p, "/spectrum") && is(&m, "GET") {
        Route::Spectrum
    } else if is(&p, "/search") && is(&m, "GET") {
        Route::Search
    } else if is(&p, "/search_results") && is(&m, "POST") {
        Route::SearchResults
    } else if is(&p, "/soundcloud-mark.svg") && is(&m, "GET") {
        Route::Logo
    } else if is(&p, "/settings") && is(&m, "POST") {
        Route::Settings
    } else if is(&p, "/command") && is(&m, "POST") {
        Route::Command
    } else if is(&p, "/update") && is(&m, "POST") {
        Route::Update
    } else {
        Route::NotFound
    }
}

} // verus!

verus! {

/// What a percent-encoded query value decodes to; empty where it is not UTF-8.
pub open spec fn decoded_or_empty(v: Seq<char>) -> Seq<char> {
    let bytes = percent_decode(encode_utf8(v));
    if valid_utf8(bytes) {
        decode_utf8(bytes)
    } else {
        Seq::empty()
    }
}

/// The value of the last `q=` pair among `pairs`, decoded, or `found` when there is none.
pub open spec fn q_value(pairs: Seq<Seq<char>>, found: Seq<char>) -> Seq<char>
    decreases pairs.len(),
{
    if pairs.len() == 0 {
        found
    } else {
        let pair = pairs[0];
        let next = match find(pair, seq!['=']) {
            Some(i) => if pair.take(i) == "q"@ {
                decoded_or_empty(pair.skip(i + 1))
            } else {
                found
            },
            None => found,
        };
        q_value(pairs.drop_first(), next)
    }
}

/// The search text of a `/search?q=...` url: the decoded value of the last `q` pair of the
/// query (the part after the first `?`), or empty.
pub open spec fn search_text_of(url: Seq<char>) -> Seq<char> {
    let parts = split_on(url, '?');
    if parts.len() >= 2 {
        q_value(split_on(parts[1], '&'), Seq::empty())
    } else {
        Seq::empty()
    }
}

fn decoded_or_empty_exec(v: &Vec<char>) -> (r: Vec<char>)
    ensures
        r@ == decoded_or_empty(v@),
{
    let s = string_of(v.as_slice());
    match url_decode(s.as_str()) {
        Some(d) => chars_of(d.as_str()),
        None => Vec::new(),
    }
}

/// The search text that a `/search` request asks for.
pub fn search_query(raw_url: &str) -> (q: String)
    ensures
        q@ == search_text_of(raw_url@),
{
    let u = chars_of(raw_url);
    let parts = split_chars(&u, '?');
    if parts.len() < 2 {
        return String::new();
    }
    let pairs = split_chars(&parts[1], '&');
    let ghost all = split_on(parts[1]@, '&');
    let mut found: Vec<char> = Vec::new();
    let mut i: usize = 0;
    assert(all.skip(0) =~= all);
    while i < pairs.len()
        invariant
            i <= pairs.len() == all.len(),
            forall|k: int| 0 <= k < pairs.len() ==> (#[trigger] pairs[k])@ == all[k],
            q_value(all, Seq::empty()) == q_value(all.skip(i as int), found@),
        decreases pairs.len() - i,
    {
        let pair = &pairs[i];
        let eq = single('=');
        assert(all.skip(i as int)[0] == all[i as int]);
        assert(all.skip(i as int).drop_first() =~= all.skip(i + 1));
        match find_chars(pair, &eq) {
            Some(k) => {
                let key = take_chars(pair, k);
                if is(&key, "q") {
                    let value = skip_chars(pair, k + 1);
                    found = decoded_or_empty_exec(&value);
                }
            },
            None => {},
        }
        i += 1;
    }
    assert(all.skip(pairs.len() as int) =~= Seq::<Seq<char>>::empty());
    string_of(found.as_slice())
}

/// What the local server does with a command sent to `/command`.
pub enum CommandKind {
    RestoreWindow,
    ClearHistory,
    ExportStatsCard,
    /// Handed on to the player page; with the text after `set_volume:` where the command
    /// sets the volume.
    Forward { volume_text: Option<String> },
}

/// The kind of a command sent to `/command`.
pub fn classify_command(cmd: &str) -> (k: CommandKind)
    ensures
        (cmd@ == "open_settings"@ || cmd@ == "close_beta"@) ==> k is RestoreWindow,
        !(cmd@ == "open_settings"@ || cmd@ == "close_beta"@) && cmd@ == "clear_history"@ ==> k is ClearHistory,
        !(cmd@ == "open_settings"@ || cmd@ == "close_beta"@ || cmd@ == "clear_history"@) && cmd@
            == "export_stats_card"@ ==> k is ExportStatsCard,
        !(cmd@ == "open_settings"@ || cmd@ == "close_beta"@ || cmd@ == "clear_history"@ || cmd@
            == "export_stats_card"@) ==> (k matches CommandKind::Forward { volume_text } && match volume_text {
            Some(t) => starts_with(cmd@, "set_volume:"@) && t@ == cmd@.skip(11),
            None => !starts_with(cmd@, "set_volume:"@),
        }),
{
    proof {
        reveal_strlit("set_volume:");
    }
    let c = chars_of(cmd);
    if is(&c, "open_settings") || is(&c, "close_beta") {
        CommandKind::RestoreWindow
    } else if is(&c, "clear_history") {
        CommandKind::ClearHistory
    } else if is(&c, "export_stats_card") {
        CommandKind::ExportStatsCard
    } else {
        let prefix = chars_of("set_volume:");
        if starts_with_chars(&c, &prefix) {
            let rest = skip_chars(&c, 11);
            CommandKind::Forward { volume_text: Some(string_of(rest.as_slice())) }
        } else {
            CommandKind::Forward { volume_text: None }
        }
    }
}

} // verus!

verus! {

/// The `src="..."` url of one `<script` chunk of a page, when it is a `.js` file under
/// `sndcdn.com/assets/`.
pub open spec fn script_url_of(chunk: Seq<char>) -> Option<Seq<char>> {
    match find(chunk, "src=\""@) {
        Some(pos) => {
            let s = chunk.skip(pos + 5);
            match find(s, seq!['"']) {
                Some(end) => {
                    let url = s.take(end);
                    if contains(url, "sndcdn.com/assets/"@) && ends_with(url, ".js"@) {
                        Some(url)
                    } else {
                        None
                    }
                },
                None => None,
            }
        },
        None => None,
    }
}

/// The script urls of the chunks, in page order.
pub open spec fn script_urls(chunks: Seq<Seq<char>>) -> Seq<Seq<char>>
    decreases chunks.len(),
{
    if chunks.len() == 0 {
        Seq::empty()
    } else {
        (match script_url_of(chunks[0]) {
            Some(u) => seq![u],
            None => Seq::empty(),
        }) + script_urls(chunks.drop_first())
    }
}

/// The script urls of a page that may hold the client id: the last six, latest first.
pub open spec fn script_candidates_of(html: Seq<char>) -> Seq<Seq<char>> {
    let all = script_urls(split_by(html, "<script"@));
    let n = if all.len() > 6 {
        6
    } else {
        all.len()
    };
    Seq::new(n, |i: int| all[all.len() - 1 - i])
}

fn script_url_exec(chunk: &Vec<char>) -> (r: Option<Vec<char>>)
    ensures
        match r {
            Some(u) => script_url_of(chunk@) == Some(u@),
            None => script_url_of(chunk@) is None,
        },
{
    proof {
        reveal_strlit("src=\"");
    }
    let src = chars_of("src=\"");
    let pos = match find_chars(chunk, &src) {
        Some(p) => p,
        None => return None,
    };
    let s = skip_chars(chunk, pos + 5);
    let quote = single('"');
    let end = match find_chars(&s, &quote) {
        Some(e) => e,
        None => return None,
    };
    let url = take_chars(&s, end);
    let assets = chars_of("sndcdn.com/assets/");
    let js = chars_of(".js");
    if contains_chars(&url, &assets) && ends_with_chars(&url, &js) {
        Some(url)
    } else {
        None
    }
}

/// The script urls of a page that may hold the client id: the last six, latest first.
pub fn script_candidates(html: &str) -> (r: Vec<String>)
    ensures
        r.len() == script_candidates_of(html@).len(),
        forall|k: int| 0 <= k < r.len() ==> (#[trigger] r[k])@ == script_candidates_of(html@)[k],
{
    proof {
        reveal_strlit("<script");
    }
    let h = chars_of(html);
    let sep = chars_of("<script");
    let chunks = split_by_chars(&h, &sep);
    let ghost cs = split_by(h@, sep@);
    let mut all: Vec<Vec<char>> = Vec::new();
    let mut i: usize = 0;
    assert(cs.take(0) =~= Seq::<Seq<char>>::empty());
    while i < chunks.len()
        invariant
            i <= chunks.len() == cs.len(),
            forall|k: int| 0 <= k < chunks.len() ==> (#[trigger] chunks[k])@ == cs[k],
            all.len() == script_urls(cs.take(i as int)).len(),
            forall|k: int| 0 <= k < all.len() ==> (#[trigger] all[k])@ == script_urls(cs.take(i as int))[k],
        decreases chunks.len() - i,
    {
        proof {
            lemma_script_urls_push(cs.take(i as int), cs[i as int]);
            assert(cs.take(i as int).push(cs[i as int]) =~= cs.take(i + 1));
        }
        match script_url_exec(&chunks[i]) {
            Some(u) => {
                all.push(u);
            },
            None => {},
        }
        i += 1;
    }
    assert(cs.take(chunks.len() as int) =~= cs);
    let n: usize = if all.len() > 6 {
        6
    } else {
        all.len()
    };
    let mut r: Vec<String> = Vec::new();
    let mut k: usize = 0;
    while k < n
        invariant
            k <= n <= all.len(),
            n == script_candidates_of(html@).len(),
            all.len() == script_urls(cs).len(),
            cs == split_by(html@, "<script"@),
            forall|m: int| 0 <= m < all.len() ==> (#[trigger] all[m])@ == script_urls(cs)[m],
            r.len() == k,
            forall|m: int| 0 <= m < k ==> (#[trigger] r[m])@ == script_candidates_of(html@)[m],
        decreases n - k,
    {
        let u = string_of(all[all.len() - 1 - k].as_slice());
        r.push(u);
        k += 1;
    }
    r
}

proof fn lemma_script_urls_push(chunks: Seq<Seq<char>>, c: Seq<char>)
    ensures
        script_urls(chunks.push(c)) == script_urls(chunks) + match script_url_of(c) {
            Some(u) => seq![u],
            None => Seq::<Seq<char>>::empty(),
        },
    decreases chunks.len(),
{
    let tail = match script_url_of(c) {
        Some(u) => seq![u],
        None => Seq::<Seq<char>>::empty(),
    };
    if chunks.len() == 0 {
        assert(chunks.push(c).drop_first() =~= Seq::<Seq<char>>::empty());
        assert(chunks.push(c)[0] == c);
        assert(script_urls(Seq::<Seq<char>>::empty()) == Seq::<Seq<char>>::empty());
        assert(script_urls(chunks) == Seq::<Seq<char>>::empty());
        assert(script_urls(chunks.push(c)) =~= tail);
    } else {
        lemma_script_urls_push(chunks.drop_first(), c);
        assert(chunks.push(c).drop_first() =~= chunks.drop_first().push(c));
        assert(chunks.push(c)[0] == chunks[0]);
        let head = match script_url_of(chunks[0]) {
            Some(u) => seq![u],
            None => Seq::<Seq<char>>::empty(),
        };
        assert(script_urls(chunks.push(c)) =~= head + (script_urls(chunks.drop_first()) + tail));
    }
}

/// The id inside the quotes that begin `s`: up to the next `"`, when it is at least twenty
/// bytes long.
pub open spec fn quoted_id(s: Seq<char>) -> Option<Seq<char>> {
    match find(s, seq!['"']) {
        Some(end) => {
            let cid = s.take(end);
            if (encode_utf8(cid).len() as usize) >= 20 {
                Some(cid)
            } else {
                None
            }
        },
        None => None,
    }
}

/// The client id a script gives: after the first `client_id:"`, or, where there is none,
/// after the first `client_id="`.
pub open spec fn client_id_of(js: Seq<char>) -> Option<Seq<char>> {
    match find(js, "client_id:\""@) {
        Some(idx) => quoted_id(js.skip(idx + 11)),
        None => match find(js, "client_id=\""@) {
            Some(idx) => quoted_id(js.skip(idx + 11)),
            None => None,
        },
    }
}

fn quoted_id_exec(s: &Vec<char>) -> (r: Option<String>)
    ensures
        match r {
            Some(x) => quoted_id(s@) == Some(x@),
            None => quoted_id(s@) is None,
        },
{
    let quote = single('"');
    match find_chars(s, &quote) {
        Some(end) => {
            let cid = take_chars(s, end);
            let text = string_of(cid.as_slice());
            if text.as_str().len() >= 20 {
                Some(text)
            } else {
                None
            }
        },
        None => None,
    }
}

/// The SoundCloud client id that a script names, if any.
pub fn client_id_from_js(js: &str) -> (r: Option<String>)
    ensures
        match r {
            Some(x) => client_id_of(js@) == Some(x@),
            None => client_id_of(js@) is None,
        },
{
    proof {
        reveal_strlit("client_id:\"");
        reveal_strlit("client_id=\"");
    }
    let j = chars_of(js);
    let colon = chars_of("client_id:\"");
    match find_chars(&j, &colon) {
        Some(idx) => {
            let rest = skip_chars(&j, idx + 11);
            quoted_id_exec(&rest)
        },
        None => {
            let eq = chars_of("client_id=\"");
            match find_chars(&j, &eq) {
                Some(idx) => {
                    let rest = skip_chars(&j, idx + 11);
                    quoted_id_exec(&rest)
                },
                None => None,
            }
        },
    }
}

} // verus!

verus! {

/// The 200x200 variant of an artwork url: the first of `-large.`, `-badge.` and
/// `-t500x500.` that the url holds is replaced, everywhere, by `-t200x200.`.
pub open spec fn thumbnail_of(url: Seq<char>) -> Seq<char> {
    if contains(url, "-large."@) {
        replace_all(url, "-large."@, "-t200x200."@)
    } else if contains(url, "-badge."@) {
        replace_all(url, "-badge."@, "-t200x200."@)
    } else if contains(url, "-t500x500."@) {
        replace_all(url, "-t500x500."@, "-t200x200."@)
    } else {
        url
    }
}

fn thumbnail_chars(url: &Vec<char>) -> (r: Vec<char>)
    ensures
        r@ == thumbnail_of(url@),
{
    proof {
        reveal_strlit("-large.");
        reveal_strlit("-badge.");
        reveal_strlit("-t500x500.");
    }
    let large = chars_of("-large.");
    let badge = chars_of("-badge.");
    let big = chars_of("-t500x500.");
    let small = chars_of("-t200x200.");
    if contains_chars(url, &large) {
        replace_all_chars(url, &large, &small)
    } else if contains_chars(url, &badge) {
        replace_all_chars(url, &badge, &small)
    } else if contains_chars(url, &big) {
        replace_all_chars(url, &big, &small)
    } else {
        let r = slice_of(url, 0, url.len());
        assert(url@.subrange(0, url.len() as int) =~= url@);
        r
    }
}

/// The 200x200 variant of an artwork url.
pub fn thumbnail_url(url: &str) -> (r: String)
    ensures
        r@ == thumbnail_of(url@),
{
    let u = chars_of(url);
    let t = thumbnail_chars(&u);
    string_of(t.as_slice())
}

/// One track found by a search.
#[derive(Clone)]
pub struct SearchTrackItem {
    pub title: String,
    pub artist: String,
    pub duration_sec: u64,
    pub permalink_url: String,
    pub artwork_url: String,
}

/// The item a search result becomes, from the fields it has: the artist defaults to
/// `SoundCloud Artist`, the length to zero, the artwork to the uploader's avatar; results
/// without a title or a link are left out.
pub open spec fn search_item_matches(
    r: Option<SearchTrackItem>,
    title: Option<Seq<char>>,
    artist: Option<Seq<char>>,
    duration_ms: Option<u64>,
    permalink: Option<Seq<char>>,
    artwork: Option<Seq<char>>,
    avatar: Option<Seq<char>>,
) -> bool {
    let t = match title {
        Some(x) => x,
        None => Seq::empty(),
    };
    let p = match permalink {
        Some(x) => x,
        None => Seq::empty(),
    };
    let raw_art = match artwork {
        Some(x) => x,
        None => match avatar {
            Some(y) => y,
            None => Seq::empty(),
        },
    };
    match r {
        Some(item) => {
            &&& t.len() > 0 && p.len() > 0
            &&& item.title@ == t
            &&& item.artist@ == (match artist {
                Some(x) => x,
                None => "SoundCloud Artist"@,
            })
            &&& item.duration_sec == (match duration_ms {
                Some(d) => d,
                None => 0,
            }) / 1000
            &&& item.permalink_url@ == p
            &&& item.artwork_url@ == thumbnail_of(raw_art)
        },
        None => t.len() == 0 || p.len() == 0,
    }
}

/// The view of an optional string.
pub open spec fn opt_view(o: Option<String>) -> Option<Seq<char>> {
    match o {
        Some(x) => Some(x@),
        None => None,
    }
}

fn or_text(o: Option<String>, default: &str) -> (r: String)
    ensures
        r@ == (match o {
            Some(x) => x@,
            None => default@,
        }),
{
    match o {
        Some(x) => x,
        None => {
            let d = chars_of(default);
            string_of(d.as_slice())
        },
    }
}

/// Builds a search result from the fields of one entry of the search response.
pub fn search_item(
    title: Option<String>,
    artist: Option<String>,
    duration_ms: Option<u64>,
    permalink: Option<String>,
    artwork: Option<String>,
    avatar: Option<String>,
) -> (r: Option<SearchTrackItem>)
    ensures
        search_item_matches(
            r,
            opt_view(title),
            opt_view(artist),
            duration_ms,
            opt_view(permalink),
            opt_view(artwork),
            opt_view(avatar),
        ),
{
    let t = or_text(title, "");
    let a = or_text(artist, "SoundCloud Artist");
    let d = match duration_ms {
        Some(x) => x,
        None => 0,
    };
    let p = or_text(permalink, "");
    let raw_art = match artwork {
        Some(x) => x,
        None => or_text(avatar, ""),
    };
    proof {
        reveal_strlit("");
        assert(""@ =~= Seq::<char>::empty());
    }
    let art = thumbnail_url(raw_art.as_str());
    if t.as_str().is_empty() || p.as_str().is_empty() {
        None
    } else {
        Some(
            SearchTrackItem {
                title: t,
                artist: a,
                duration_sec: d / 1000,
                permalink_url: p,
                artwork_url: art,
            },
        )
    }
}

/// The urls to try for a track cover: the url (trimmed, without surrounding quotes) when it
/// is an `http` url, with its 300x300 and `large` variants after it when it names the
/// 500x500 size.
pub open spec fn cover_candidates_of(raw: Seq<char>) -> Option<Seq<Seq<char>>> {
    let clean = trim_end_char(trim_start_char(trim_end_char(trim_start_char(trim(raw), '"'), '"'), '\''), '\'');
    if !starts_with(clean, "http"@) {
        None
    } else if contains(clean, "-t500x500."@) {
        Some(
            seq![
                clean,
                replace_all(clean, "-t500x500."@, "-t300x300."@),
                replace_all(clean, "-t500x500."@, "-large."@),
            ],
        )
    } else {
        Some(seq![clean])
    }
}

/// `s` without its leading `c` characters.
pub open spec fn trim_start_char(s: Seq<char>, c: char) -> Seq<char>
    decreases s.len(),
{
    if s.len() > 0 && s[0] == c {
        trim_start_char(s.drop_first(), c)
    } else {
        s
    }
}

fn trim_start_char_chars(v: &Vec<char>, c: char) -> (r: Vec<char>)
    ensures
        r@ == trim_start_char(v@, c),
{
    let mut a: usize = 0;
    assert(v@.skip(0) =~= v@);
    while a < v.len() && v[a] == c
        invariant
            a <= v.len(),
            trim_start_char(v@, c) == trim_start_char(v@.skip(a as int), c),
        decreases v.len() - a,
    {
        assert(v@.skip(a as int).drop_first() =~= v@.skip(a + 1));
        a += 1;
    }
    skip_chars(v, a)
}

/// The urls to try for a track cover, or `None` when the text is not an `http` url.
pub fn cover_candidates(raw_url: &str) -> (r: Option<Vec<String>>)
    ensures
        match r {
            Some(v) => cover_candidates_of(raw_url@) matches Some(c) && v.len() == c.len() && forall|k: int|
                0 <= k < v.len() ==> (#[trigger] v[k])@ == c[k],
            None => cover_candidates_of(raw_url@) is None,
        },
{
    proof {
        reveal_strlit("-t500x500.");
    }
    let u = chars_of(raw_url);
    let t = trim_chars(&u);
    let a = trim_start_char_chars(&t, '"');
    let b = trim_end_char_chars(&a, '"');
    let c = trim_start_char_chars(&b, '\'');
    let clean = trim_end_char_chars(&c, '\'');
    let http = chars_of("http");
    if !starts_with_chars(&clean, &http) {
        return None;
    }
    let big = chars_of("-t500x500.");
    let mut v: Vec<String> = Vec::new();
    v.push(string_of(clean.as_slice()));
    if contains_chars(&clean, &big) {
        let mid = chars_of("-t300x300.");
        let large = chars_of("-large.");
        let m = replace_all_chars(&clean, &big, &mid);
        let l = replace_all_chars(&clean, &big, &large);
        v.push(string_of(m.as_slice()));
        v.push(string_of(l.as_slice()));
    }
    Some(v)
}

} // verus!

verus! {

/// The client id that ships with the program, used while none has been learned.
pub open spec fn builtin_client_id() -> Seq<char> {
    "2t9loNfh900mioJ2DU11YtSXQuVUbmyt"@
}

/// The client id to search with: the learned one, or the built-in one when it is blank.
pub fn effective_client_id(cid: &str) -> (r: String)
    ensures
        r@ == (if trim(cid@).len() == 0 {
            builtin_client_id()
        } else {
            cid@
        }),
{
    let c = chars_of(cid);
    let t = trim_chars(&c);
    if t.len() == 0 {
        let b = chars_of("2t9loNfh900mioJ2DU11YtSXQuVUbmyt");
        string_of(b.as_slice())
    } else {
        string_of(c.as_slice())
    }
}

/// The percent-encoding of the characters `s`.
pub open spec fn enc(s: Seq<char>) -> Seq<char> {
    percent_encode(encode_utf8(s))
}

fn enc_chars(v: &Vec<char>) -> (r: Vec<char>)
    ensures
        r@ == enc(v@),
{
    let s = string_of(v.as_slice());
    let e = url_encode(s.as_str());
    chars_of(e.as_str())
}

/// The search request for `query` with the client id `client_id`.
pub fn search_api_url(query: &str, client_id: &str) -> (r: String)
    ensures
        r@ == "https://api-v2.soundcloud.com/search/tracks?q="@ + enc(query@) + "&client_id="@ + enc(
            client_id@,
        ) + "&limit=25"@,
{
    let mut v: Vec<char> = Vec::new();
    push_str(&mut v, "https://api-v2.soundcloud.com/search/tracks?q=");
    let q = enc_chars(&chars_of(query));
    push_all(&mut v, &q);
    push_str(&mut v, "&client_id=");
    let c = enc_chars(&chars_of(client_id));
    push_all(&mut v, &c);
    push_str(&mut v, "&limit=25");
    string_of(v.as_slice())
}

/// The track name that lyrics are looked up by: the name up to any `(` or `[`, trimmed.
pub open spec fn lyrics_track_name(track: Seq<char>) -> Seq<char> {
    trim(before_first(before_first(track, '('), '['))
}

/// The lyrics search request for a track and an artist.
pub fn lyrics_search_url(artist: &str, track: &str) -> (r: String)
    ensures
        r@ == "https://lrclib.net/api/search?track_name="@ + enc(lyrics_track_name(track@))
            + "&artist_name="@ + enc(artist@),
{
    let t = chars_of(track);
    let a = before_first_chars(&t, '(');
    let b = before_first_chars(&a, '[');
    let name = trim_chars(&b);
    let mut v: Vec<char> = Vec::new();
    push_str(&mut v, "https://lrclib.net/api/search?track_name=");
    let e = enc_chars(&name);
    push_all(&mut v, &e);
    push_str(&mut v, "&artist_name=");
    let ea = enc_chars(&chars_of(artist));
    push_all(&mut v, &ea);
    string_of(v.as_slice())
}

/// A SoundCloud search page for an artist and a track.
pub fn soundcloud_search_url(artist: &str, track: &str) -> (r: String)
    ensures
        r@ == "https://soundcloud.com/search/sounds?q="@ + enc(artist@ + " "@ + track@),
{
    let mut q: Vec<char> = Vec::new();
    push_str(&mut q, artist);
    push_str(&mut q, " ");
    push_str(&mut q, track);
    let mut v: Vec<char> = Vec::new();
    push_str(&mut v, "https://soundcloud.com/search/sounds?q=");
    let e = enc_chars(&q);
    push_all(&mut v, &e);
    string_of(v.as_slice())
}

/// The text copied to share what is playing: artist, title and a SoundCloud search link.
pub fn share_link(artist: &str, title: &str) -> (r: String)
    ensures
        r@ == "🎧 Слушаю: "@ + artist@ + " — "@ + title@ + " | "@
            + "https://soundcloud.com/search/sounds?q="@ + enc(artist@ + " "@ + title@),
{
    let mut v: Vec<char> = Vec::new();
    push_str(&mut v, "🎧 Слушаю: ");
    push_str(&mut v, artist);
    push_str(&mut v, " — ");
    push_str(&mut v, title);
    push_str(&mut v, " | ");
    let url = soundcloud_search_url(artist, title);
    push_str(&mut v, url.as_str());
    string_of(v.as_slice())
}

/// A web search for the lyrics of a track.
pub fn lyrics_web_search_url(artist: &str, track: &str) -> (r: String)
    ensures
        r@ == "https://www.google.com/search?q="@ + enc(artist@ + " "@ + track@ + " lyrics"@),
{
    let mut q: Vec<char> = Vec::new();
    push_str(&mut q, artist);
    push_str(&mut q, " ");
    push_str(&mut q, track);
    push_str(&mut q, " lyrics");
    let mut v: Vec<char> = Vec::new();
    push_str(&mut v, "https://www.google.com/search?q=");
    let e = enc_chars(&q);
    push_all(&mut v, &e);
    string_of(v.as_slice())
}

} // verus!

verus! {

/// The characters are ASCII, and none of them is `?`, `&` or `=`.
pub open spec fn url_safe(s: Seq<char>) -> bool {
    forall|i: int|
        0 <= i < s.len() ==> '\0' <= #[trigger] s[i] <= '\u{7f}' && s[i] != '?' && s[i] != '&'
            && s[i] != '='
}

/// The bytes of ASCII characters, one each.
spec fn ascii_bytes(s: Seq<char>) -> Seq<u8> {
    Seq::new(s.len(), |i: int| s[i] as u8)
}

proof fn lemma_encode_safe(b: Seq<u8>)
    ensures
        url_safe(percent_encode(b)),
    decreases b.len(),
{
    if b.len() > 0 {
        lemma_encode_safe(b.drop_first());
        let b0 = b[0];
        let head = if is_unreserved(b0) {
            seq![b0 as char]
        } else {
            seq!['%', hex_char(b0 as int / 16), hex_char(b0 as int % 16)]
        };
        let rest = percent_encode(b.drop_first());
        assert(percent_encode(b) == head + rest);
        assert forall|i: int| 0 <= i < head.len() implies '\0' <= #[trigger] head[i] <= '\u{7f}'
            && head[i] != '?' && head[i] != '&' && head[i] != '=' by {
            if !is_unreserved(b0) {
                assert(0 <= b0 as int / 16 < 16);
                assert(0 <= b0 as int % 16 < 16);
            }
        }
        assert forall|i: int| 0 <= i < percent_encode(b).len() implies '\0' <= #[trigger] percent_encode(
            b,
        )[i] <= '\u{7f}' && percent_encode(b)[i] != '?' && percent_encode(b)[i] != '&'
            && percent_encode(b)[i] != '=' by {
            if i < head.len() {
                assert(percent_encode(b)[i] == head[i]);
            } else {
                assert(percent_encode(b)[i] == rest[i - head.len()]);
            }
        }
    }
}

proof fn lemma_hex_round_trip(n: int)
    requires
        0 <= n < 16,
    ensures
        hex_value(hex_char(n) as u8) == Some(n as u8),
{
}

proof fn lemma_decode_encoded(b: Seq<u8>)
    ensures
        percent_decode(ascii_bytes(percent_encode(b))) == b,
    decreases b.len(),
{
    if b.len() == 0 {
        assert(ascii_bytes(percent_encode(b)) =~= Seq::<u8>::empty());
    } else {
        lemma_decode_encoded(b.drop_first());
        let b0 = b[0];
        let rest = percent_encode(b.drop_first());
        let head = if is_unreserved(b0) {
            seq![b0 as char]
        } else {
            seq!['%', hex_char(b0 as int / 16), hex_char(b0 as int % 16)]
        };
        assert(percent_encode(b) == head + rest);
        let a = ascii_bytes(percent_encode(b));
        assert(ascii_bytes(head + rest) =~= ascii_bytes(head) + ascii_bytes(rest));
        if is_unreserved(b0) {
            assert(ascii_bytes(head) =~= seq![b0]);
            assert(a[0] == b0);
            assert(a.drop_first() =~= ascii_bytes(rest));
            assert(b =~= seq![b0] + b.drop_first());
        } else {
            let h = b0 as int / 16;
            let l = b0 as int % 16;
            lemma_hex_round_trip(h);
            lemma_hex_round_trip(l);
            assert(ascii_bytes(head) =~= seq![37u8, hex_char(h) as u8, hex_char(l) as u8]);
            assert(a[0] == 37u8);
            assert(a[1] == hex_char(h) as u8);
            assert(a[2] == hex_char(l) as u8);
            assert(a.skip(3) =~= ascii_bytes(rest));
            assert(h * 16 + l == b0);
            assert(b =~= seq![b0] + b.drop_first());
        }
    }
}

proof fn lemma_ascii_encode_utf8(s: Seq<char>)
    requires
        url_safe(s),
    ensures
        encode_utf8(s) == ascii_bytes(s),
{
    assert(vstd::utf8::is_ascii_chars(s));
    vstd::utf8::is_ascii_chars_encode_utf8(s);
    assert(encode_utf8(s) =~= ascii_bytes(s));
}

/// A search text that is percent-encoded the way `urlencoding` encodes it and sent as the `q`
/// value of a `/search` request is read back by the server unchanged.
pub proof fn lemma_search_query_round_trip(text: Seq<char>)
    ensures
        search_text_of("/search?q="@ + enc(text)) == text,
{
    let e = enc(text);
    lemma_encode_safe(encode_utf8(text));
    lemma_ascii_encode_utf8(e);
    lemma_decode_encoded(encode_utf8(text));
    vstd::utf8::encode_utf8_valid_utf8(text);
    vstd::utf8::encode_utf8_decode_utf8(text);
    reveal_strlit("/search?q=");
    reveal_strlit("q");
    let url = "/search?q="@ + e;
    assert(url.len() == e.len() + 10);
    assert(url[7] == '?');
    assert(url.subrange(7, 8) =~= seq!['?']);
    assert forall|j: int| 0 <= j < 7 implies !crate::text::occurs_at(url, seq!['?'], j) by {
        assert(url.subrange(j, j + 1)[0] == url[j]);
    }
    crate::text::lemma_find_first(url, seq!['?'], 0, 7);
    let rest = url.skip(8);
    assert(rest =~= seq!['q', '='] + e);
    assert forall|j: int| 0 <= j < rest.len() implies rest[j] != '?' && rest[j] != '&' by {
        if j >= 2 {
            assert(rest[j] == e[j - 2]);
        }
    }
    crate::text::lemma_find_char_absent(rest, '?');
    crate::text::lemma_find_char_absent(rest, '&');
    assert(split_on(rest, '?') == seq![rest]);
    assert(split_on(url, '?') == seq![url.take(7)] + split_on(rest, '?'));
    assert(split_on(url, '?')[1] == rest);
    assert(split_on(rest, '&') == seq![rest]);
    assert(rest.subrange(1, 2) =~= seq!['=']);
    assert(!crate::text::occurs_at(rest, seq!['='], 0)) by {
        assert(rest.subrange(0, 1)[0] == 'q');
    }
    crate::text::lemma_find_first(rest, seq!['='], 0, 1);
    assert(rest.take(1) =~= "q"@);
    assert(rest.skip(2) =~= e);
    assert(seq![rest].drop_first() =~= Seq::<Seq<char>>::empty());
    assert(find(rest, seq!['=']) == Some(1int));
    assert(seq![rest][0] == rest);
    assert(q_value(seq![rest], Seq::empty()) == q_value(Seq::<Seq<char>>::empty(), decoded_or_empty(e)));
    assert(percent_decode(encode_utf8(e)) == encode_utf8(text));
    assert(decoded_or_empty(e) == text);
    assert(q_value(seq![rest], Seq::empty()) == text);
    assert(split_on(url, '?').len() == 2);
}

} // verus!

verus! {

/// The fields of one entry of the search answer, as plain values: title, `user.username`,
/// `duration` (milliseconds), `permalink_url`, `artwork_url` and `user.avatar_url`.
pub open spec fn fields_view(
    f: (Option<String>, Option<String>, Option<u64>, Option<String>, Option<String>, Option<String>),
) -> (Option<Seq<char>>, Option<Seq<char>>, Option<u64>, Option<Seq<char>>, Option<Seq<char>>, Option<Seq<char>>) {
    (opt_view(f.0), opt_view(f.1), f.2, opt_view(f.3), opt_view(f.4), opt_view(f.5))
}

/// What `serde_json` reads from a search answer: `None` where the body is not JSON; else
/// `Some(None)` where it has no `collection` array, and otherwise the fields of each entry of
/// that array, in order. A string field is `None` where it is missing or not a string, the
/// duration where it is missing or not an unsigned integer.
pub uninterp spec fn parsed_search_answer(body: Seq<char>) -> Option<
    Option<
        Seq<(Option<Seq<char>>, Option<Seq<char>>, Option<u64>, Option<Seq<char>>, Option<Seq<char>>, Option<Seq<char>>)>,
    >,
>;

/// Parses a search answer with `serde_json::from_str` into a `serde_json::Value` and reads
/// the fields of the entries of its `collection` with indexing (which gives `Null` for a
/// missing key), `as_array`, `as_str` and `as_u64`. Trusted: the result is `parsed_search_answer` of the body; nothing more is stated
/// of JSON.
#[verifier::external_body]
fn search_answer_fields(body: &str) -> (r: Option<
    Option<Vec<(Option<String>, Option<String>, Option<u64>, Option<String>, Option<String>, Option<String>)>>,
>)
    ensures
        r matches Some(Some(v)) ==> parsed_search_answer(body@) == Some(Some(v@.map_values(|f| fields_view(f)))),
        r matches Some(None) ==> parsed_search_answer(body@) matches Some(None),
        r is None ==> parsed_search_answer(body@) is None,
{
    let v: serde_json::Value = serde_json::from_str(body).ok()?;
    let s = |x: &serde_json::Value| x.as_str().map(String::from);
    Some(v["collection"].as_array().map(|a| a.iter().map(|i| {
        let u = &i["user"];
        (s(&i["title"]), s(&u["username"]), i["duration"].as_u64(), s(&i["permalink_url"]), s(&i["artwork_url"]), s(&u["avatar_url"]))
    }).collect()))
}

/// The search result that one entry gives, as plain values (title, artist, seconds, link,
/// artwork), as `search_item` builds it.
pub open spec fn search_item_of(
    f: (Option<Seq<char>>, Option<Seq<char>>, Option<u64>, Option<Seq<char>>, Option<Seq<char>>, Option<Seq<char>>),
) -> Option<(Seq<char>, Seq<char>, u64, Seq<char>, Seq<char>)> {
    let t = match f.0 {
        Some(x) => x,
        None => Seq::empty(),
    };
    let p = match f.3 {
        Some(x) => x,
        None => Seq::empty(),
    };
    let raw_art = match f.4 {
        Some(x) => x,
        None => match f.5 {
            Some(y) => y,
            None => Seq::empty(),
        },
    };
    if t.len() > 0 && p.len() > 0 {
        Some(
            (
                t,
                match f.1 {
                    Some(x) => x,
                    None => "SoundCloud Artist"@,
                },
                (match f.2 {
                    Some(d) => d,
                    None => 0,
                }) / 1000,
                p,
                thumbnail_of(raw_art),
            ),
        )
    } else {
        None
    }
}

/// A search result as plain values.
pub open spec fn item_view(i: SearchTrackItem) -> (Seq<char>, Seq<char>, u64, Seq<char>, Seq<char>) {
    (i.title@, i.artist@, i.duration_sec, i.permalink_url@, i.artwork_url@)
}

/// The results the entries give, in order, leaving out those that give none.
pub open spec fn found_items(
    fields: Seq<(Option<Seq<char>>, Option<Seq<char>>, Option<u64>, Option<Seq<char>>, Option<Seq<char>>, Option<Seq<char>>)>,
) -> Seq<(Seq<char>, Seq<char>, u64, Seq<char>, Seq<char>)>
    decreases fields.len(),
{
    if fields.len() == 0 {
        Seq::empty()
    } else {
        let rest = found_items(fields.drop_last());
        match search_item_of(fields.last()) {
            Some(x) => rest.push(x),
            None => rest,
        }
    }
}

proof fn lemma_search_item_of(
    r: Option<SearchTrackItem>,
    f: (Option<Seq<char>>, Option<Seq<char>>, Option<u64>, Option<Seq<char>>, Option<Seq<char>>, Option<Seq<char>>),
)
    requires
        search_item_matches(r, f.0, f.1, f.2, f.3, f.4, f.5),
    ensures
        match r {
            Some(i) => search_item_of(f) == Some(item_view(i)),
            None => search_item_of(f) is None,
        },
{
}

/// The search results of a search answer: `None` where the body is not JSON; none where it has
/// no `collection` array; else the result that each entry of it gives, in order, leaving out
/// the entries without a title or a link.
pub fn search_results(body: &str) -> (r: Option<Vec<SearchTrackItem>>)
    ensures
        match r {
            Some(v) => match parsed_search_answer(body@) {
                Some(Some(f)) => v@.map_values(|i| item_view(i)) == found_items(f),
                Some(None) => v@.len() == 0,
                None => false,
            },
            None => parsed_search_answer(body@) is None,
        },
{
    let mut fields = match search_answer_fields(body) {
        Some(Some(v)) => v,
        Some(None) => {
            return Some(Vec::new());
        },
        None => {
            return None;
        },
    };
    let ghost all = fields@.map_values(|f| fields_view(f));
    let ghost n = fields.len();
    let mut out: Vec<SearchTrackItem> = Vec::new();
    let mut done: usize = 0;
    while fields.len() > 0
        invariant
            done + fields.len() == n,
            n == all.len(),
            forall|k: int| 0 <= k < fields.len() ==> fields_view(#[trigger] fields@[k]) == all[done + k],
            out@.map_values(|i| item_view(i)) == found_items(all.take(done as int)),
        decreases fields.len(),
    {
        let f = fields.remove(0);
        assert(fields_view(f) == all[done as int]);
        let item = search_item(f.0, f.1, f.2, f.3, f.4, f.5);
        proof {
            lemma_search_item_of(item, all[done as int]);
            assert(all.take(done + 1).drop_last() =~= all.take(done as int));
            assert(all.take(done + 1).last() == all[done as int]);
        }
        match item {
            Some(x) => {
                out.push(x);
            },
            None => {},
        }
        assert(out@.map_values(|i| item_view(i)) =~= found_items(all.take(done + 1)));
        done += 1;
        assert forall|k: int| 0 <= k < fields.len() implies fields_view(#[trigger] fields@[k]) == all[done + k] by {
        }
    }
    assert(all.take(done as int) =~= all);
    Some(out)
}

/// What `serde_json` reads from a command body: the `command` string, or `None` where the body
/// is not JSON or has no such string.
pub uninterp spec fn parsed_command(body: Seq<char>) -> Option<Seq<char>>;

/// Parses a command body with `serde_json::from_str` into a `serde_json::Value` and reads its
/// `command` with `get` and `as_str`. Trusted: the result is `parsed_command` of the body.
#[verifier::external_body]
fn command_field(body: &str) -> (r: Option<String>)
    ensures
        opt_view(r) == parsed_command(body@),
{
    let v: serde_json::Value = serde_json::from_str(body).ok()?;
    v.get("command").and_then(|c| c.as_str()).map(|c| c.to_string())
}

/// The command that a `/command` request body sends, if it is JSON with a `command` string.
pub fn command_of(body: &str) -> (r: Option<String>)
    ensures
        opt_view(r) == parsed_command(body@),
{
    command_field(body)
}

} // verus!
