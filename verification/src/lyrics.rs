use vstd::prelude::*;
use crate::text::{
    chars_of, find, find_chars, single, skip_chars, split_chars, split_on, string_of, take_chars,
    trim, trim_chars,
};

verus! {

/// One timed line of synced lyrics, as written: the minutes, the seconds and the words.
pub struct LrcParts {
    pub minutes: String,
    pub seconds: String,
    pub text: String,
}

/// The parts of one line of synced lyrics: after trimming, the line opens with `[`, the time
/// runs to the first `]` and splits at its first `:` into minutes and seconds, and the words
/// after the `]` are trimmed.
pub open spec fn lrc_parts_of(line: Seq<char>) -> Option<(Seq<char>, Seq<char>, Seq<char>)> {
    let l = trim(line);
    if l.len() > 0 && l[0] == '[' {
        match find(l, seq![']']) {
            Some(c) => {
                let time = l.subrange(1, c);
                match find(time, seq![':']) {
                    Some(k) => Some((time.take(k), time.skip(k + 1), trim(l.skip(c + 1)))),
                    None => None,
                }
            },
            None => None,
        }
    } else {
        None
    }
}

/// The parts of each line of `lines` that reads as a timed line, in order.
pub open spec fn lrc_entries_of(lines: Seq<Seq<char>>) -> Seq<(Seq<char>, Seq<char>, Seq<char>)>
    decreases lines.len(),
{
    if lines.len() == 0 {
        Seq::empty()
    } else {
        let rest = lrc_entries_of(lines.drop_last());
        match lrc_parts_of(lines.last()) {
            Some(p) => rest.push(p),
            None => rest,
        }
    }
}

/// The view of split lines.
pub open spec fn parts_view(v: Seq<LrcParts>) -> Seq<(Seq<char>, Seq<char>, Seq<char>)> {
    v.map_values(|p: LrcParts| (p.minutes@, p.seconds@, p.text@))
}

fn lrc_parts_exec(line: &Vec<char>) -> (r: Option<LrcParts>)
    ensures
        match r {
            Some(p) => lrc_parts_of(line@) == Some((p.minutes@, p.seconds@, p.text@)),
            None => lrc_parts_of(line@) is None,
        },
{
    let l = trim_chars(line);
    if l.len() == 0 || l[0] != '[' {
        return None;
    }
    let close = match find_chars(&l, &single(']')) {
        Some(c) => c,
        None => {
            return None;
        },
    };
    proof {
        crate::text::lemma_find_from_bounds(l@, seq![']'], 0);
        assert(l@.subrange(close as int, close + 1)[0] == ']');
        assert(close != 0);
    }
    let head = take_chars(&l, close);
    let time = skip_chars(&head, 1);
    assert(time@ =~= l@.subrange(1, close as int));
    let colon = match find_chars(&time, &single(':')) {
        Some(k) => k,
        None => {
            return None;
        },
    };
    proof {
        crate::text::lemma_find_from_bounds(time@, seq![':'], 0);
    }
    let minutes = take_chars(&time, colon);
    let seconds = skip_chars(&time, colon + 1);
    let text = trim_chars(&skip_chars(&l, close + 1));
    Some(
        LrcParts {
            minutes: string_of(minutes.as_slice()),
            seconds: string_of(seconds.as_slice()),
            text: string_of(text.as_slice()),
        },
    )
}

/// Splits synced lyrics into their timed lines (the lines of the text, as `str::lines` gives
/// them, that read as `[minutes:seconds] words`), in order. Turning the minutes and seconds
/// into a time and sorting by it is left to the caller.
pub fn lrc_entries(lrc: &str) -> (r: Vec<LrcParts>)
    ensures
        parts_view(r@) == lrc_entries_of(split_on(lrc@, '\n')),
{
    let lines = split_chars(&chars_of(lrc), '\n');
    let ghost ls = split_on(lrc@, '\n');
    let mut out: Vec<LrcParts> = Vec::new();
    let mut i: usize = 0;
    while i < lines.len()
        invariant
            i <= lines.len() == ls.len(),
            forall|k: int| 0 <= k < lines.len() ==> (#[trigger] lines[k])@ == ls[k],
            parts_view(out@) == lrc_entries_of(ls.take(i as int)),
        decreases lines.len() - i,
    {
        assert(ls.take(i + 1).drop_last() =~= ls.take(i as int));
        assert(ls.take(i + 1).last() == lines[i as int]@);
        match lrc_parts_exec(&lines[i]) {
            Some(p) => {
                out.push(p);
                assert(parts_view(out@) =~= lrc_entries_of(ls.take(i + 1)));
            },
            None => {},
        }
        i += 1;
    }
    assert(ls.take(lines.len() as int) =~= ls);
    out
}

} // verus!

verus! {

/// One answer of the lyrics search: its synced lyrics, the number of timed lines the caller
/// read out of them, and its plain lyrics.
pub struct LyricsAnswer {
    pub synced: Option<String>,
    pub synced_lines: usize,
    pub plain: Option<String>,
}

/// The lyrics taken from the answers: the synced lyrics of an answer (by its place), the plain
/// lyrics (trimmed), or none.
pub enum LyricsChoice {
    Synced(usize),
    Plain(String),
    NotFound,
}

/// The text is there and holds more than white space.
pub open spec fn nonblank(o: Option<Seq<char>>) -> bool {
    o matches Some(t) && trim(t).len() > 0
}

/// The view of the answers.
pub open spec fn answers_view(v: Seq<LyricsAnswer>) -> Seq<(Option<Seq<char>>, nat, Option<Seq<char>>)> {
    v.map_values(
        |a: LyricsAnswer|
            (
                crate::web::opt_view(a.synced),
                a.synced_lines as nat,
                crate::web::opt_view(a.plain),
            ),
    )
}

/// The choice among the answers from `i` on: the first answer with synced lyrics that are not
/// blank and gave timed lines is taken as synced (`Some(Ok(place))`); otherwise, the first
/// with plain lyrics that are not blank gives them trimmed (`Some(Err(text))`); an answer with
/// neither is passed over; `None` when no answer is left.
pub open spec fn lyrics_pick_from(
    answers: Seq<(Option<Seq<char>>, nat, Option<Seq<char>>)>,
    i: int,
) -> Option<Result<int, Seq<char>>>
    decreases answers.len() - i,
{
    if i < 0 || i >= answers.len() {
        None
    } else if nonblank(answers[i].0) && answers[i].1 > 0 {
        Some(Ok(i))
    } else if nonblank(answers[i].2) {
        Some(Err(trim(answers[i].2->0)))
    } else {
        lyrics_pick_from(answers, i + 1)
    }
}

/// The view of a choice.
pub open spec fn choice_view(c: LyricsChoice) -> Option<Result<int, Seq<char>>> {
    match c {
        LyricsChoice::Synced(i) => Some(Ok(i as int)),
        LyricsChoice::Plain(t) => Some(Err(t@)),
        LyricsChoice::NotFound => None,
    }
}

fn nonblank_exec(o: &Option<String>) -> (b: bool)
    ensures
        b == nonblank(crate::web::opt_view(*o)),
{
    match o {
        Some(t) => trim_chars(&chars_of(t.as_str())).len() > 0,
        None => false,
    }
}

/// Chooses the lyrics to show among the answers of the lyrics search, in their order.
pub fn choose_lyrics(answers: &Vec<LyricsAnswer>) -> (c: LyricsChoice)
    ensures
        choice_view(c) == lyrics_pick_from(answers_view(answers@), 0),
{
    let ghost v = answers_view(answers@);
    let mut i: usize = 0;
    while i < answers.len()
        invariant
            i <= answers.len(),
            v == answers_view(answers@),
            lyrics_pick_from(v, 0) == lyrics_pick_from(v, i as int),
        decreases answers.len() - i,
    {
        let a = &answers[i];
        assert(v[i as int] == (crate::web::opt_view(a.synced), a.synced_lines as nat, crate::web::opt_view(a.plain)));
        if nonblank_exec(&a.synced) && a.synced_lines > 0 {
            return LyricsChoice::Synced(i);
        }
        match &a.plain {
            Some(p) => {
                let t = trim_chars(&chars_of(p.as_str()));
                if t.len() > 0 {
                    return LyricsChoice::Plain(string_of(t.as_slice()));
                }
            },
            None => {},
        }
        i += 1;
    }
    LyricsChoice::NotFound
}

} // verus!

verus! {

/// What `serde_json` reads from a lyrics answer: `None` where the body is not JSON or not an
/// array; else the `syncedLyrics` and `plainLyrics` strings of each entry, in order, each
/// `None` where it is missing or not a string.
pub uninterp spec fn parsed_lyrics_answer(body: Seq<char>) -> Option<Seq<(Option<Seq<char>>, Option<Seq<char>>)>>;

/// The view of the lyrics of the entries.
pub open spec fn lyrics_fields_view(v: Seq<(Option<String>, Option<String>)>) -> Seq<(Option<Seq<char>>, Option<Seq<char>>)> {
    v.map_values(|f: (Option<String>, Option<String>)| (crate::web::opt_view(f.0), crate::web::opt_view(f.1)))
}

/// Parses a lyrics answer with `serde_json::from_str` into a `serde_json::Value` and reads its
/// entries with `as_array`, `get` and `as_str`. Trusted: the result is `parsed_lyrics_answer` of
/// the body; nothing more is stated of JSON.
#[verifier::external_body]
fn lyrics_answer_fields(body: &str) -> (r: Option<Vec<(Option<String>, Option<String>)>>)
    ensures
        r matches Some(v) ==> parsed_lyrics_answer(body@) == Some(lyrics_fields_view(v@)),
        r is None ==> parsed_lyrics_answer(body@) is None,
{
    let v: serde_json::Value = serde_json::from_str(body).ok()?;
    let s = |x: Option<&serde_json::Value>| x.and_then(|y| y.as_str()).map(|y| y.to_string());
    Some(v.as_array()?.iter().map(|i| (s(i.get("syncedLyrics")), s(i.get("plainLyrics")))).collect())
}

/// The synced and plain lyrics of each entry of a lyrics answer, or `None` where the body is not
/// a JSON array (no lyrics found).
pub fn lyrics_answers(body: &str) -> (r: Option<Vec<(Option<String>, Option<String>)>>)
    ensures
        r matches Some(v) ==> parsed_lyrics_answer(body@) == Some(lyrics_fields_view(v@)),
        r is None ==> parsed_lyrics_answer(body@) is None,
{
    lyrics_answer_fields(body)
}

} // verus!
