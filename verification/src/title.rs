use vstd::prelude::*;
use crate::clock::{parse_time_to_seconds_chars, time_seconds};
use crate::text::{
    chars_of, find, find_chars, join, lemma_find_occurs, lit, occurs_at, remove_all,
    remove_all_chars, rfind, rfind_below, rfind_chars, single, skip_chars, slice_of, starts_with,
    starts_with_chars, string_of, take_chars, trim, trim_chars,
};

verus! {

/// The `[passed/total]` marker: where the first `[` is followed by a `]` and the text
/// between them is two times around a `/`, both times are taken and the marker is cut out.
pub open spec fn timing_stage(s: Seq<char>) -> (Seq<char>, Option<u64>, Option<u64>) {
    match find(s, seq!['[']) {
        Some(open_b) => match find(s.skip(open_b), seq![']']) {
            Some(close_rel) => {
                let close_idx = open_b + close_rel;
                let timing = s.subrange(open_b + 1, close_idx);
                match find(timing, seq!['/']) {
                    Some(k) => {
                        let p = time_seconds(timing.take(k));
                        let d = time_seconds(timing.skip(k + 1));
                        if p is Some && d is Some {
                            (s.take(open_b) + s.skip(close_idx + 1), p, d)
                        } else {
                            (s, None, None)
                        }
                    },
                    None => (s, None, None),
                }
            },
            None => (s, None, None),
        },
        None => (s, None, None),
    }
}

/// Takes the `[passed/total]` marker out of a title.
pub fn timing_stage_chars(s: &Vec<char>) -> (r: (Vec<char>, Option<u64>, Option<u64>))
    ensures
        (r.0@, r.1, r.2) == timing_stage(s@),
{
    let same = slice_of(s, 0, s.len());
    assert(s@.subrange(0, s.len() as int) =~= s@);
    let open = single('[');
    let open_b = match find_chars(s, &open) {
        None => return (same, None, None),
        Some(i) => i,
    };
    let tail = skip_chars(s, open_b);
    let close = single(']');
    let close_rel = match find_chars(&tail, &close) {
        None => return (same, None, None),
        Some(i) => i,
    };
    proof {
        lemma_find_occurs(s@, seq!['[']);
        lemma_find_occurs(tail@, seq![']']);
        assert(s@.subrange(open_b as int, open_b + 1)[0] == s@[open_b as int]);
        assert(tail@.subrange(close_rel as int, close_rel + 1)[0] == tail@[close_rel as int]);
        assert(tail@[0] == s@[open_b as int]);
    }
    let close_idx = open_b + close_rel;
    let timing = slice_of(s, open_b + 1, close_idx);
    let slash = single('/');
    let k = match find_chars(&timing, &slash) {
        None => return (same, None, None),
        Some(k) => k,
    };
    let pv = take_chars(&timing, k);
    let dv = skip_chars(&timing, k + 1);
    let p = parse_time_to_seconds_chars(&pv);
    let d = parse_time_to_seconds_chars(&dv);
    if p.is_some() && d.is_some() {
        let head = take_chars(s, open_b);
        let rest = skip_chars(s, close_idx + 1);
        (join(&head, &rest), p, d)
    } else {
        (same, None, None)
    }
}

} // verus!

verus! {

/// The `<<<url>>>` cover marker: where `>>>` comes more than three places after the first
/// `<<<`, the marker is cut out, and the url between them (trimmed) becomes the cover when it
/// begins with `http`.
pub open spec fn angle_cover_stage(s: Seq<char>, cover: Option<Seq<char>>) -> (
    Seq<char>,
    Option<Seq<char>>,
) {
    match (find(s, "<<<"@), find(s, ">>>"@)) {
        (Some(a), Some(b)) => if b > a + 3 {
            let url = trim(s.subrange(a + 3, b));
            (
                s.take(a) + s.skip(b + 3),
                if starts_with(url, "http"@) {
                    Some(url)
                } else {
                    cover
                },
            )
        } else {
            (s, cover)
        },
        _ => (s, cover),
    }
}

/// The `|IMG:url|` cover marker: where a `|` follows the first `|IMG:`, the marker is cut out
/// and the url (trimmed) becomes the cover when it begins with `http`.
pub open spec fn img_cover_stage(s: Seq<char>, cover: Option<Seq<char>>) -> (
    Seq<char>,
    Option<Seq<char>>,
) {
    match find(s, "|IMG:"@) {
        Some(a) => {
            let rest = s.skip(a + 5);
            match find(rest, seq!['|']) {
                Some(e) => {
                    let url = trim(rest.take(e));
                    (
                        s.take(a) + rest.skip(e + 1),
                        if starts_with(url, "http"@) {
                            Some(url)
                        } else {
                            cover
                        },
                    )
                },
                None => (s, cover),
            }
        },
        None => (s, cover),
    }
}

/// The `[[[artist:::track]]]` marker: where `]]]` comes more than three places after the
/// first `[[[`, the marker is cut out; artist and track (trimmed) are given when the marker
/// holds `:::` and both sides are non-empty.
pub open spec fn meta_stage(s: Seq<char>) -> (Seq<char>, Option<(Seq<char>, Seq<char>)>) {
    match (find(s, "[[["@), find(s, "]]]"@)) {
        (Some(a), Some(b)) => if b > a + 3 {
            let meta = s.subrange(a + 3, b);
            let explicit = match find(meta, ":::"@) {
                Some(k) => {
                    let artist = trim(meta.take(k));
                    let track = trim(meta.skip(k + 3));
                    if artist.len() > 0 && track.len() > 0 {
                        Some((artist, track))
                    } else {
                        None
                    }
                },
                None => None,
            };
            (s.take(a) + s.skip(b + 3), explicit)
        } else {
            (s, None)
        },
        _ => (s, None),
    }
}

fn cover_choice(url: Vec<char>, cover: Option<Vec<char>>) -> (r: Option<Vec<char>>)
    ensures
        opt_chars(r) == (if starts_with(url@, "http"@) {
            Some(url@)
        } else {
            opt_chars(cover)
        }),
{
    let http = lit("http");
    if starts_with_chars(&url, &http) {
        Some(url)
    } else {
        cover
    }
}

/// The character sequence inside an optional character vector.
pub open spec fn opt_chars(v: Option<Vec<char>>) -> Option<Seq<char>> {
    match v {
        Some(x) => Some(x@),
        None => None,
    }
}

/// Takes the `<<<url>>>` cover marker out of a title.
pub fn angle_cover_stage_chars(s: &Vec<char>, cover: Option<Vec<char>>) -> (r: (
    Vec<char>,
    Option<Vec<char>>,
))
    ensures
        (r.0@, opt_chars(r.1)) == angle_cover_stage(s@, opt_chars(cover)),
{
    proof {
        reveal_strlit("<<<");
        reveal_strlit(">>>");
    }
    let same = slice_of(s, 0, s.len());
    assert(s@.subrange(0, s.len() as int) =~= s@);
    let lt = lit("<<<");
    let gt = lit(">>>");
    match (find_chars(s, &lt), find_chars(s, &gt)) {
        (Some(a), Some(b)) => {
            if b > a + 3 {
                let inner = slice_of(s, a + 3, b);
                let url = trim_chars(&inner);
                let head = take_chars(s, a);
                let rest = skip_chars(s, b + 3);
                (join(&head, &rest), cover_choice(url, cover))
            } else {
                (same, cover)
            }
        },
        _ => (same, cover),
    }
}

/// Takes the `|IMG:url|` cover marker out of a title.
pub fn img_cover_stage_chars(s: &Vec<char>, cover: Option<Vec<char>>) -> (r: (
    Vec<char>,
    Option<Vec<char>>,
))
    ensures
        (r.0@, opt_chars(r.1)) == img_cover_stage(s@, opt_chars(cover)),
{
    proof {
        reveal_strlit("|IMG:");
    }
    let same = slice_of(s, 0, s.len());
    assert(s@.subrange(0, s.len() as int) =~= s@);
    let img = lit("|IMG:");
    match find_chars(s, &img) {
        Some(a) => {
            let rest = skip_chars(s, a + 5);
            let bar = single('|');
            match find_chars(&rest, &bar) {
                Some(e) => {
                    let inner = take_chars(&rest, e);
                    let url = trim_chars(&inner);
                    let head = take_chars(s, a);
                    let after = skip_chars(&rest, e + 1);
                    (join(&head, &after), cover_choice(url, cover))
                },
                None => (same, cover),
            }
        },
        None => (same, cover),
    }
}

/// Takes the `[[[artist:::track]]]` marker out of a title.
pub fn meta_stage_chars(s: &Vec<char>) -> (r: (Vec<char>, Option<(Vec<char>, Vec<char>)>))
    ensures
        (r.0@, match r.1 {
            Some(p) => Some((p.0@, p.1@)),
            None => None,
        }) == meta_stage(s@),
{
    proof {
        reveal_strlit("[[[");
        reveal_strlit("]]]");
        reveal_strlit(":::");
    }
    let same = slice_of(s, 0, s.len());
    assert(s@.subrange(0, s.len() as int) =~= s@);
    let open = lit("[[[");
    let close = lit("]]]");
    match (find_chars(s, &open), find_chars(s, &close)) {
        (Some(a), Some(b)) => {
            if b > a + 3 {
                let meta = slice_of(s, a + 3, b);
                let sep = lit(":::");
                let explicit = match find_chars(&meta, &sep) {
                    Some(k) => {
                        let a_part = take_chars(&meta, k);
                        let t_part = skip_chars(&meta, k + 3);
                        let artist = trim_chars(&a_part);
                        let track = trim_chars(&t_part);
                        if artist.len() > 0 && track.len() > 0 {
                            Some((artist, track))
                        } else {
                            None
                        }
                    },
                    None => None,
                };
                let head = take_chars(s, a);
                let rest = skip_chars(s, b + 3);
                (join(&head, &rest), explicit)
            } else {
                (same, None)
            }
        },
        _ => (same, None),
    }
}

} // verus!

verus! {

/// The browser and site suffixes that a tab title may carry, in the order they are taken out.
pub open spec fn junk_marks() -> Seq<Seq<char>> {
    seq![
        "— Zen Browser"@,
        "- Zen Browser"@,
        "— Zen"@,
        "- Zen"@,
        "— Google Chrome"@,
        "- Google Chrome"@,
        "— Opera"@,
        "- Opera"@,
        "— Opera GX"@,
        "- Opera GX"@,
        "— Microsoft Edge"@,
        "- Microsoft Edge"@,
        "— Brave"@,
        "- Brave"@,
        "— Mozilla Firefox"@,
        "- Mozilla Firefox"@,
        "| Stream free on SoundCloud"@,
        "| Listen free on SoundCloud"@,
        "| SoundCloud"@,
        "- SoundCloud"@,
    ]
}

/// `s` with every pattern of `pats` taken out, one pattern after the other.
pub open spec fn strip_marks(s: Seq<char>, pats: Seq<Seq<char>>) -> Seq<char>
    decreases pats.len(),
{
    if pats.len() == 0 {
        s
    } else {
        strip_marks(remove_all(s, pats[0]), pats.drop_first())
    }
}

/// The two trimmed sides around the last `sep`, when both are non-empty.
pub open spec fn split_pair(s: Seq<char>, sep: Seq<char>) -> Option<(Seq<char>, Seq<char>)> {
    match rfind(s, sep) {
        Some(k) => {
            let left = trim(s.take(k));
            let right = trim(s.skip(k + sep.len()));
            if left.len() > 0 && right.len() > 0 {
                Some((left, right))
            } else {
                None
            }
        },
        None => None,
    }
}

/// What `parse_soundcloud_title` reads from a tab title: track, artist (or playlist), the
/// seconds played and the length when the title carries them, and a cover url.
pub open spec fn soundcloud_title(title: Seq<char>) -> Option<
    (Seq<char>, Seq<char>, Option<u64>, Option<u64>, Option<Seq<char>>),
> {
    let s0 = trim(title);
    let (s1, passed, total) = timing_stage(s0);
    let (s2, c2) = angle_cover_stage(s1, None);
    let (s3, cover) = img_cover_stage(s2, c2);
    let (s4, explicit) = meta_stage(s3);
    match explicit {
        Some((artist, track)) => Some((track, artist, passed, total, cover)),
        None => {
            let s5 = trim(strip_marks(s4, junk_marks()));
            match split_pair(s5, " by "@) {
                Some((track, artist)) => Some((track, artist, passed, total, cover)),
                None => match split_pair(s5, " in "@) {
                    Some((track, playlist)) => Some((track, playlist, passed, total, cover)),
                    None => None,
                },
            }
        },
    }
}

/// The title parts as character sequences.
pub open spec fn title_view(r: Option<(String, String, Option<u64>, Option<u64>, Option<String>)>) -> Option<
    (Seq<char>, Seq<char>, Option<u64>, Option<u64>, Option<Seq<char>>),
> {
    match r {
        Some(x) => Some(
            (
                x.0@,
                x.1@,
                x.2,
                x.3,
                match x.4 {
                    Some(c) => Some(c@),
                    None => None,
                },
            ),
        ),
        None => None,
    }
}

fn junk_list() -> (r: Vec<Vec<char>>)
    ensures
        r.len() == junk_marks().len(),
        forall|k: int| 0 <= k < r.len() ==> (#[trigger] r[k])@ == junk_marks()[k],
{
    let mut r: Vec<Vec<char>> = Vec::new();
    r.push(lit("— Zen Browser"));
    r.push(lit("- Zen Browser"));
    r.push(lit("— Zen"));
    r.push(lit("- Zen"));
    r.push(lit("— Google Chrome"));
    r.push(lit("- Google Chrome"));
    r.push(lit("— Opera"));
    r.push(lit("- Opera"));
    r.push(lit("— Opera GX"));
    r.push(lit("- Opera GX"));
    r.push(lit("— Microsoft Edge"));
    r.push(lit("- Microsoft Edge"));
    r.push(lit("— Brave"));
    r.push(lit("- Brave"));
    r.push(lit("— Mozilla Firefox"));
    r.push(lit("- Mozilla Firefox"));
    r.push(lit("| Stream free on SoundCloud"));
    r.push(lit("| Listen free on SoundCloud"));
    r.push(lit("| SoundCloud"));
    r.push(lit("- SoundCloud"));
    r
}

/// Takes every browser and site suffix out of a title.
pub fn strip_junk_chars(s: &Vec<char>) -> (r: Vec<char>)
    ensures
        r@ == strip_marks(s@, junk_marks()),
{
    let junk = junk_list();
    let mut cur = slice_of(s, 0, s.len());
    assert(s@.subrange(0, s.len() as int) =~= s@);
    let mut i: usize = 0;
    assert(junk_marks().skip(0) =~= junk_marks());
    while i < junk.len()
        invariant
            i <= junk.len() == junk_marks().len(),
            forall|k: int| 0 <= k < junk.len() ==> (#[trigger] junk[k])@ == junk_marks()[k],
            strip_marks(s@, junk_marks()) == strip_marks(cur@, junk_marks().skip(i as int)),
        decreases junk.len() - i,
    {
        let next = remove_all_chars(&cur, &junk[i]);
        assert(junk_marks().skip(i as int).drop_first() =~= junk_marks().skip(i + 1));
        cur = next;
        i += 1;
    }
    cur
}

fn split_pair_chars(s: &Vec<char>, sep: &Vec<char>) -> (r: Option<(Vec<char>, Vec<char>)>)
    ensures
        match r {
            Some(p) => Some((p.0@, p.1@)),
            None => None,
        } == split_pair(s@, sep@),
{
    match rfind_chars(s, sep) {
        Some(k) => {
            let l = take_chars(s, k);
            let rt = skip_chars(s, k + sep.len());
            let left = trim_chars(&l);
            let right = trim_chars(&rt);
            if left.len() > 0 && right.len() > 0 {
                Some((left, right))
            } else {
                None
            }
        },
        None => None,
    }
}

fn to_string_opt(v: Option<Vec<char>>) -> (r: Option<String>)
    ensures
        match r {
            Some(c) => Some(c@),
            None => None,
        } == opt_chars(v),
{
    match v {
        Some(x) => Some(string_of(x.as_slice())),
        None => None,
    }
}

/// Reads track, artist (or playlist), play position, length and cover url from a browser
/// tab title; `None` when the title names no track.
pub fn parse_soundcloud_title(title: &str) -> (r: Option<
    (String, String, Option<u64>, Option<u64>, Option<String>),
>)
    ensures
        title_view(r) == soundcloud_title(title@),
{
    let raw = chars_of(title);
    let s0 = trim_chars(&raw);
    let (s1, passed, total) = timing_stage_chars(&s0);
    let (s2, c2) = angle_cover_stage_chars(&s1, None);
    let (s3, cover) = img_cover_stage_chars(&s2, c2);
    let (s4, explicit) = meta_stage_chars(&s3);
    match explicit {
        Some((artist, track)) => {
            return Some(
                (
                    string_of(track.as_slice()),
                    string_of(artist.as_slice()),
                    passed,
                    total,
                    to_string_opt(cover),
                ),
            );
        },
        None => {},
    }
    let stripped = strip_junk_chars(&s4);
    let s5 = trim_chars(&stripped);
    let by = lit(" by ");
    match split_pair_chars(&s5, &by) {
        Some((track, artist)) => {
            return Some(
                (
                    string_of(track.as_slice()),
                    string_of(artist.as_slice()),
                    passed,
                    total,
                    to_string_opt(cover),
                ),
            );
        },
        None => {},
    }
    let inn = lit(" in ");
    match split_pair_chars(&s5, &inn) {
        Some((track, playlist)) => Some(
            (
                string_of(track.as_slice()),
                string_of(playlist.as_slice()),
                passed,
                total,
                to_string_opt(cover),
            ),
        ),
        None => None,
    }
}

} // verus!

verus! {

/// The quote marks that `format_str` takes off both ends.
pub open spec fn is_quote_mark(c: char) -> bool {
    c == '«' || c == '»' || c == '"' || c == '\''
}

/// `s` without leading quote marks.
pub open spec fn strip_quotes_start(s: Seq<char>) -> Seq<char>
    decreases s.len(),
{
    if s.len() > 0 && is_quote_mark(s[0]) {
        strip_quotes_start(s.drop_first())
    } else {
        s
    }
}

/// `s` without trailing quote marks.
pub open spec fn strip_quotes_end(s: Seq<char>) -> Seq<char>
    decreases s.len(),
{
    if s.len() > 0 && is_quote_mark(s.last()) {
        strip_quotes_end(s.drop_last())
    } else {
        s
    }
}

/// What `format_str` makes of a name: trimmed, quote marks and a `Current track:` prefix
/// taken off; `Неизвестно` when nothing is left, and a space added to a single character.
pub open spec fn display_name(text: Seq<char>) -> Seq<char> {
    let t0 = trim(strip_quotes_end(strip_quotes_start(trim(text))));
    let t1 = if starts_with(t0, "Current track:"@) {
        trim(t0.skip("Current track:"@.len() as int))
    } else {
        t0
    };
    if t1.len() == 0 {
        "Неизвестно"@
    } else if t1.len() < 2 {
        t1 + seq![' ']
    } else {
        t1
    }
}

proof fn lemma_strip_quotes_start_skip(s: Seq<char>, a: int)
    requires
        0 <= a <= s.len(),
        forall|j: int| 0 <= j < a ==> is_quote_mark(#[trigger] s[j]),
        a == s.len() || !is_quote_mark(s[a]),
    ensures
        strip_quotes_start(s) == s.skip(a),
    decreases a,
{
    if a == 0 {
        assert(s.skip(0) =~= s);
    } else {
        let t = s.drop_first();
        assert forall|j: int| 0 <= j < a - 1 implies is_quote_mark(#[trigger] t[j]) by {
            assert(t[j] == s[j + 1]);
        }
        lemma_strip_quotes_start_skip(t, a - 1);
        assert(t.skip(a - 1) =~= s.skip(a));
    }
}

proof fn lemma_strip_quotes_end_take(s: Seq<char>, b: int)
    requires
        0 <= b <= s.len(),
        forall|j: int| b <= j < s.len() ==> is_quote_mark(#[trigger] s[j]),
        b == 0 || !is_quote_mark(s[b - 1]),
    ensures
        strip_quotes_end(s) == s.take(b),
    decreases s.len() - b,
{
    if b == s.len() {
        assert(s.take(b) =~= s);
    } else {
        let t = s.drop_last();
        assert forall|j: int| b <= j < t.len() implies is_quote_mark(#[trigger] t[j]) by {
            assert(t[j] == s[j]);
        }
        lemma_strip_quotes_end_take(t, b);
        assert(t.take(b) =~= s.take(b));
    }
}

fn quote_mark(c: char) -> (b: bool)
    ensures
        b == is_quote_mark(c),
{
    c == '«' || c == '»' || c == '"' || c == '\''
}

/// `str::trim_matches(['«', '»', '"', '\''])` on a character sequence.
pub fn strip_quotes_chars(v: &Vec<char>) -> (r: Vec<char>)
    ensures
        r@ == strip_quotes_end(strip_quotes_start(v@)),
{
    let n = v.len();
    let mut a: usize = 0;
    while a < n && quote_mark(v[a])
        invariant
            a <= n == v.len(),
            forall|j: int| 0 <= j < a ==> is_quote_mark(#[trigger] v@[j]),
        decreases n - a,
    {
        a += 1;
    }
    proof {
        lemma_strip_quotes_start_skip(v@, a as int);
    }
    let mut b: usize = n;
    while b > a && quote_mark(v[b - 1])
        invariant
            a <= b <= n == v.len(),
            forall|j: int| b <= j < n ==> is_quote_mark(#[trigger] v@[j]),
        decreases b - a,
    {
        b -= 1;
    }
    proof {
        let t = v@.skip(a as int);
        let k = (b - a) as int;
        assert forall|j: int| k <= j < t.len() implies is_quote_mark(#[trigger] t[j]) by {
            assert(t[j] == v@[j + a]);
        }
        if k > 0 {
            assert(t[k - 1] == v@[b - 1]);
        }
        lemma_strip_quotes_end_take(t, k);
        assert(t.take(k) =~= v@.subrange(a as int, b as int));
    }
    slice_of(v, a, b)
}

/// Cleans up a track or artist name for display (`format_str`).
pub fn format_str(text: &str) -> (s: String)
    ensures
        s@ == display_name(text@),
{
    proof {
        reveal_strlit("Current track:");
    }
    let raw = chars_of(text);
    let a = trim_chars(&raw);
    let b = strip_quotes_chars(&a);
    let t0 = trim_chars(&b);
    let prefix = lit("Current track:");
    let t1 = if starts_with_chars(&t0, &prefix) {
        let rest = skip_chars(&t0, 14);
        trim_chars(&rest)
    } else {
        t0
    };
    if t1.len() == 0 {
        let unknown = lit("Неизвестно");
        string_of(unknown.as_slice())
    } else if t1.len() < 2 {
        let space = single(' ');
        let padded = join(&t1, &space);
        string_of(padded.as_slice())
    } else {
        string_of(t1.as_slice())
    }
}

} // verus!

verus! {

/// The text of a tab title that track and artist are read from: trimmed, its timing, cover
/// and track markers cut out, the browser and site suffixes taken out, trimmed again.
pub open spec fn cleaned_title(title: Seq<char>) -> Seq<char> {
    let s1 = timing_stage(trim(title)).0;
    let (s2, c2) = angle_cover_stage(s1, None);
    let s3 = img_cover_stage(s2, c2).0;
    trim(strip_marks(meta_stage(s3).0, junk_marks()))
}

/// The artist and track that a `[[[artist:::track]]]` marker of a tab title names, if any.
pub open spec fn title_marker(title: Seq<char>) -> Option<(Seq<char>, Seq<char>)> {
    let s1 = timing_stage(trim(title)).0;
    let (s2, c2) = angle_cover_stage(s1, None);
    let s3 = img_cover_stage(s2, c2).0;
    meta_stage(s3).1
}

/// The last place where `pat` occurs at or below `i`, when `k` is that place.
proof fn lemma_rfind_below_last(s: Seq<char>, pat: Seq<char>, i: int, k: int)
    requires
        occurs_at(s, pat, k),
        k <= i,
        forall|j: int| k < j <= i ==> !occurs_at(s, pat, j),
    ensures
        rfind_below(s, pat, i) == Some(k),
    decreases i - k,
{
    if i > k {
        lemma_rfind_below_last(s, pat, i - 1, k);
    }
}

/// Without a track marker, a tab title is split at the last ` by ` of its cleaned text,
/// whatever else the text holds (` in ` among it): where both sides around that ` by ` hold
/// more than white space, the track is the left side and the artist the right side, each
/// trimmed.
pub proof fn law_title_splits_at_last_by(title: Seq<char>, k: int)
    requires
        title_marker(title) is None,
        occurs_at(cleaned_title(title), " by "@, k),
        forall|j: int| k < j ==> !occurs_at(cleaned_title(title), " by "@, j),
        trim(cleaned_title(title).take(k)).len() > 0,
        trim(cleaned_title(title).skip(k + 4)).len() > 0,
    ensures
        soundcloud_title(title) matches Some(r) && r.0 == trim(cleaned_title(title).take(k))
            && r.1 == trim(cleaned_title(title).skip(k + 4)),
{
    reveal_strlit(" by ");
    let c = cleaned_title(title);
    lemma_rfind_below_last(c, " by "@, c.len() - 4, k);
    assert(rfind(c, " by "@) == Some(k));
}

} // verus!
