use vstd::prelude::*;
use std::collections::HashMap;
use crate::text::{
    chars_eq, chars_of, lemma_lex_irreflexive, lemma_lex_total, lemma_lex_transitive, lex_less,
    lex_lt, string_of,
};

verus! {

/// One finished track in the listening history.
#[derive(Clone)]
pub struct HistoryEntry {
    pub track: String,
    pub artist: String,
    pub played_at: String,
    pub duration_sec: Option<u64>,
    pub cover: String,
}

/// The longest the listening history grows.
pub const HISTORY_LIMIT: usize = 200;

/// The history after `entry` is appended: the oldest entry leaves when the history would
/// pass its limit.
pub open spec fn with_play(history: Seq<HistoryEntry>, entry: HistoryEntry) -> Seq<HistoryEntry> {
    let appended = history.push(entry);
    if appended.len() > HISTORY_LIMIT {
        appended.drop_first()
    } else {
        appended
    }
}

/// Appends a finished track to the history, dropping the oldest entry past the limit.
pub fn record_play(history: &mut Vec<HistoryEntry>, entry: HistoryEntry)
    ensures
        final(history)@ == with_play(old(history)@, entry),
{
    history.push(entry);
    if history.len() > HISTORY_LIMIT {
        history.remove(0);
        assert(history@ =~= with_play(old(history)@, entry));
    }
}

/// A history that was within its limit stays within it, and ends with the new entry.
pub proof fn lemma_history_bounded(history: Seq<HistoryEntry>, entry: HistoryEntry)
    requires
        history.len() <= HISTORY_LIMIT,
    ensures
        with_play(history, entry).len() <= HISTORY_LIMIT,
        with_play(history, entry).last() == entry,
        with_play(history, entry).len() >= 1,
{
}

} // verus!

verus! {

/// How many entries of `history` name `artist`.
pub open spec fn plays_of(history: Seq<HistoryEntry>, artist: Seq<char>) -> nat
    decreases history.len(),
{
    if history.len() == 0 {
        0
    } else {
        plays_of(history.drop_last(), artist) + if history.last().artist@ == artist {
            1nat
        } else {
            0nat
        }
    }
}

/// `a` ranks above `b`: more plays, or as many plays and a name earlier in dictionary order.
pub open spec fn ranks_before(a: (Seq<char>, nat), b: (Seq<char>, nat)) -> bool {
    a.1 > b.1 || (a.1 == b.1 && lex_lt(a.0, b.0))
}

/// `ranking` lists every artist of `history` once, with its number of plays, most played
/// first and equal counts in name order.
pub open spec fn is_artist_ranking(history: Seq<HistoryEntry>, ranking: Seq<(Seq<char>, nat)>) -> bool {
    &&& forall|i: int|
        0 <= i < ranking.len() ==> (#[trigger] ranking[i]).1 == plays_of(history, ranking[i].0)
            && ranking[i].1 >= 1
    &&& forall|e: int| 0 <= e < history.len() ==> ranked(ranking, (#[trigger] history[e]).artist@)
    &&& forall|i: int, j: int|
        0 <= i < j < ranking.len() ==> ranks_before(#[trigger] ranking[i], #[trigger] ranking[j])
}

/// `artist` has a place in `ranking`.
pub open spec fn ranked(ranking: Seq<(Seq<char>, nat)>, artist: Seq<char>) -> bool {
    exists|i: int| 0 <= i < ranking.len() && (#[trigger] ranking[i]).0 == artist
}

/// A ranking of names and counts as plain values.
pub open spec fn ranking_view(r: Seq<(String, usize)>) -> Seq<(Seq<char>, nat)> {
    r.map_values(|p: (String, usize)| (p.0@, p.1 as nat))
}

spec fn pv(p: (Vec<char>, usize)) -> (Seq<char>, nat) {
    (p.0@, p.1 as nat)
}

proof fn lemma_ranks_transitive(a: (Seq<char>, nat), b: (Seq<char>, nat), c: (Seq<char>, nat))
    requires
        ranks_before(a, b),
        ranks_before(b, c),
    ensures
        ranks_before(a, c),
{
    if a.1 == b.1 && b.1 == c.1 {
        lemma_lex_transitive(a.0, b.0, c.0);
    }
}

proof fn lemma_ranks_total(a: (Seq<char>, nat), b: (Seq<char>, nat))
    requires
        a.0 != b.0,
    ensures
        ranks_before(a, b) || ranks_before(b, a),
{
    if a.1 == b.1 {
        lemma_lex_total(a.0, b.0);
    }
}

proof fn lemma_plays_step(history: Seq<HistoryEntry>, i: int, artist: Seq<char>)
    requires
        0 <= i < history.len(),
    ensures
        plays_of(history.take(i + 1), artist) == plays_of(history.take(i), artist) + if history[i].artist@
            == artist {
            1nat
        } else {
            0nat
        },
{
    assert(history.take(i + 1).drop_last() =~= history.take(i));
}

proof fn lemma_plays_le_len(history: Seq<HistoryEntry>, artist: Seq<char>)
    ensures
        plays_of(history, artist) <= history.len(),
    decreases history.len(),
{
    if history.len() > 0 {
        lemma_plays_le_len(history.drop_last(), artist);
    }
}

proof fn lemma_plays_absent(history: Seq<HistoryEntry>, artist: Seq<char>)
    requires
        forall|e: int| 0 <= e < history.len() ==> (#[trigger] history[e]).artist@ != artist,
    ensures
        plays_of(history, artist) == 0,
    decreases history.len(),
{
    if history.len() > 0 {
        let t = history.drop_last();
        assert forall|e: int| 0 <= e < t.len() implies (#[trigger] t[e]).artist@ != artist by {
            assert(t[e] == history[e]);
        }
        lemma_plays_absent(t, artist);
        assert(history.last() == history[history.len() - 1]);
    }
}

fn ranks_before_exec(a: &(Vec<char>, usize), b: &(Vec<char>, usize)) -> (r: bool)
    ensures
        r == ranks_before(pv(*a), pv(*b)),
{
    a.1 > b.1 || (a.1 == b.1 && lex_less(&a.0, &b.0))
}

fn rank_insert(sorted: &mut Vec<(Vec<char>, usize)>, x: (Vec<char>, usize)) -> (j: usize)
    requires
        forall|a: int, b: int|
            0 <= a < b < old(sorted).len() ==> ranks_before(
                pv(#[trigger] old(sorted)[a]),
                pv(#[trigger] old(sorted)[b]),
            ),
        forall|a: int| 0 <= a < old(sorted).len() ==> (#[trigger] old(sorted)[a]).0@ != x.0@,
    ensures
        j <= old(sorted).len(),
        final(sorted)@ == old(sorted)@.insert(j as int, x),
        forall|a: int, b: int|
            0 <= a < b < final(sorted).len() ==> ranks_before(
                pv(#[trigger] final(sorted)[a]),
                pv(#[trigger] final(sorted)[b]),
            ),
{
    let mut j: usize = 0;
    while j < sorted.len() && !ranks_before_exec(&x, &sorted[j])
        invariant
            j <= sorted.len(),
            sorted@ == old(sorted)@,
            forall|k: int| 0 <= k < j ==> !ranks_before(pv(x), pv(#[trigger] sorted[k])),
        decreases sorted.len() - j,
    {
        j += 1;
    }
    let ghost o = sorted@;
    let ghost xv = x;
    sorted.insert(j, x);
    proof {
        let n = sorted@;
        assert(n == o.insert(j as int, xv));
        assert forall|a: int, b: int| 0 <= a < b < n.len() implies ranks_before(
            pv(#[trigger] n[a]),
            pv(#[trigger] n[b]),
        ) by {
            if b < j {
                assert(n[a] == o[a] && n[b] == o[b]);
            } else if b == j {
                assert(n[a] == o[a]);
                assert(n[b] == xv);
                assert(o[a].0@ != xv.0@);
                lemma_ranks_total(pv(o[a]), pv(xv));
            } else if a == j {
                assert(n[a] == xv);
                assert(n[b] == o[b - 1]);
                assert(ranks_before(pv(xv), pv(o[j as int])));
                if b - 1 > j {
                    lemma_ranks_transitive(pv(xv), pv(o[j as int]), pv(o[b - 1]));
                }
            } else if a < j {
                assert(n[a] == o[a]);
                assert(n[b] == o[b - 1]);
            } else {
                assert(n[a] == o[a - 1]);
                assert(n[b] == o[b - 1]);
            }
        }
    }
    j
}

} // verus!

verus! {

/// Some name of `names` spells `artist`.
pub open spec fn named_in(names: Seq<Vec<char>>, artist: Seq<char>) -> bool {
    exists|k: int| 0 <= k < names.len() && (#[trigger] names[k])@ == artist
}

/// Every artist of the history once, with its number of plays. The plays are counted in a
/// map from each artist's place in the list of names to its count.
fn tally_artists(history: &Vec<HistoryEntry>) -> (r: (Vec<Vec<char>>, Vec<usize>))
    ensures
        r.0.len() == r.1.len(),
        forall|k: int|
            0 <= k < r.0.len() ==> r.1[k] == plays_of(history@, (#[trigger] r.0[k])@) && r.1[k]
                >= 1,
        forall|k: int, l: int| 0 <= k < l < r.0.len() ==> (#[trigger] r.0[k])@ != (#[trigger] r.0[l])@,
        forall|e: int| 0 <= e < history.len() ==> named_in(r.0@, (#[trigger] history@[e]).artist@),
{
    broadcast use vstd::std_specs::hash::group_hash_axioms;
    let mut names: Vec<Vec<char>> = Vec::new();
    let mut plays: HashMap<usize, usize> = HashMap::new();
    let mut i: usize = 0;
    let ghost h = history@;
    while i < history.len()
        invariant
            h == history@,
            i <= history.len(),
            forall|k: usize|
                k < names.len() ==> #[trigger] plays@.contains_key(k) && plays@[k] == plays_of(
                    h.take(i as int),
                    names[k as int]@,
                ) && plays@[k] >= 1,
            forall|k: int, l: int|
                0 <= k < l < names.len() ==> (#[trigger] names[k])@ != (#[trigger] names[l])@,
            forall|e: int| 0 <= e < i ==> named_in(names@, (#[trigger] h[e]).artist@),
        decreases history.len() - i,
    {
        let name = chars_of(history[i].artist.as_str());
        let mut k: usize = 0;
        while k < names.len() && !chars_eq(&names[k], &name)
            invariant
                k <= names.len(),
                forall|m: int| 0 <= m < k ==> (#[trigger] names[m])@ != name@,
            decreases names.len() - k,
        {
            k += 1;
        }
        let found = k < names.len();
        let ghost old_names = names@;
        let ghost old_plays = plays@;
        proof {
            assert forall|m: int| 0 <= m < names.len() implies plays_of(
                h.take(i + 1),
                (#[trigger] names[m])@,
            ) == plays_of(h.take(i as int), names[m]@) + if h[i as int].artist@ == names[m]@ {
                1nat
            } else {
                0nat
            } by {
                lemma_plays_step(h, i as int, names[m]@);
            }
            lemma_plays_le_len(h.take(i as int), name@);
        }
        if found {
            proof {
                lemma_plays_le_len(h.take(i as int), names[k as int]@);
                assert(plays@.contains_key(k));
            }
            let c = match plays.get(&k) {
                Some(v) => *v + 1,
                None => 1,
            };
            plays.insert(k, c);
            proof {
                assert forall|m: usize| m < names.len() implies #[trigger] plays@.contains_key(m)
                    && plays@[m] == plays_of(h.take(i + 1), names[m as int]@) && plays@[m] >= 1 by {
                    assert(old_plays.contains_key(m));
                    assert(plays_of(h.take(i + 1), names[m as int]@) == plays_of(h.take(i as int), names[m as int]@)
                        + if h[i as int].artist@ == names[m as int]@ { 1nat } else { 0nat });
                    if m != k {
                        assert(names[m as int]@ != name@);
                    }
                }
            }
        } else {
            proof {
                assert forall|e: int| 0 <= e < h.take(i as int).len() implies (#[trigger] h.take(
                    i as int,
                )[e]).artist@ != name@ by {
                    assert(h.take(i as int)[e] == h[e]);
                    if h[e].artist@ == name@ {
                        assert(named_in(names@, h[e].artist@));
                        let w = choose|w: int|
                            0 <= w < names@.len() && (#[trigger] names@[w])@ == h[e].artist@;
                        assert(names@[w]@ != name@);
                    }
                }
                lemma_plays_absent(h.take(i as int), name@);
                lemma_plays_step(h, i as int, name@);
            }
            plays.insert(names.len(), 1);
            names.push(name);
            proof {
                assert forall|m: usize| m < names.len() implies #[trigger] plays@.contains_key(m)
                    && plays@[m] == plays_of(h.take(i + 1), names[m as int]@) && plays@[m] >= 1 by {
                    if m < old_names.len() {
                        assert(names[m as int] == old_names[m as int]);
                        assert(old_plays.contains_key(m));
                        assert(old_names[m as int]@ != name@);
                        assert(plays_of(h.take(i + 1), old_names[m as int]@) == plays_of(h.take(i as int), old_names[m as int]@)
                            + if h[i as int].artist@ == old_names[m as int]@ { 1nat } else { 0nat });
                    }
                }
            }
        }
        proof {
            assert forall|e: int| 0 <= e < i + 1 implies named_in(
                names@,
                (#[trigger] h[e]).artist@,
            ) by {
                if e == i {
                    if found {
                        assert(names@[k as int]@ == h[e].artist@);
                    } else {
                        assert(names@[names.len() - 1]@ == h[e].artist@);
                    }
                } else {
                    assert(named_in(old_names, h[e].artist@));
                    let w = choose|w: int|
                        0 <= w < old_names.len() && (#[trigger] old_names[w])@ == h[e].artist@;
                    assert(names@[w] == old_names[w]);
                }
            }
            assert(forall|m: usize| m < names.len() ==> #[trigger] plays@.contains_key(m)
                && plays@[m] == plays_of(h.take(i + 1), names[m as int]@) && plays@[m] >= 1);
        }
        let ghost i0 = i;
        i += 1;
        assert forall|m: usize| m < names.len() implies #[trigger] plays@.contains_key(m)
            && plays@[m] == plays_of(h.take(i as int), names[m as int]@) && plays@[m] >= 1 by {
            assert(plays@.contains_key(m));
            assert(h.take(i as int) =~= h.take(i0 + 1));
        }
    }
    assert(h.take(i as int) =~= h);
    assert forall|k: usize| k < names.len() implies #[trigger] plays@.contains_key(k)
        && plays@[k] == plays_of(h, names[k as int]@) && plays@[k] >= 1 by {
        assert(plays@.contains_key(k));
    }
    let mut counts: Vec<usize> = Vec::new();
    let mut j: usize = 0;
    while j < names.len()
        invariant
            h == history@,
            j <= names.len(),
            counts.len() == j,
            forall|k: usize|
                k < names.len() ==> #[trigger] plays@.contains_key(k) && plays@[k] == plays_of(
                    h,
                    names[k as int]@,
                ) && plays@[k] >= 1,
            forall|k: int| 0 <= k < j ==> counts[k] == plays_of(h, (#[trigger] names[k])@) && counts[k] >= 1,
        decreases names.len() - j,
    {
        proof {
            assert(plays@.contains_key(j));
        }
        let c = match plays.get(&j) {
            Some(v) => *v,
            None => 0,
        };
        counts.push(c);
        j += 1;
    }
    (names, counts)
}

} // verus!

verus! {

spec fn in_tally(names: Seq<Vec<char>>, counts: Seq<usize>, m: int, x: (Seq<char>, nat)) -> bool {
    exists|k: int| 0 <= k < m && (#[trigger] names[k])@ == x.0 && counts[k] as nat == x.1
}

spec fn in_sorted(sorted: Seq<(Vec<char>, usize)>, x: (Seq<char>, nat)) -> bool {
    exists|p: int| 0 <= p < sorted.len() && pv(#[trigger] sorted[p]) == x
}

fn copy_chars(v: &Vec<char>) -> (r: Vec<char>)
    ensures
        r@ == v@,
{
    let r = crate::text::slice_of(v, 0, v.len());
    assert(v@.subrange(0, v.len() as int) =~= v@);
    r
}

/// The artists of `history` with their number of plays, most played first and equal counts in
/// name order.
pub fn artist_ranking(history: &Vec<HistoryEntry>) -> (r: Vec<(String, usize)>)
    ensures
        is_artist_ranking(history@, ranking_view(r@)),
{
    let (names, counts) = tally_artists(history);
    let mut sorted: Vec<(Vec<char>, usize)> = Vec::new();
    let mut m: usize = 0;
    while m < names.len()
        invariant
            m <= names.len() == counts.len(),
            forall|k: int, l: int|
                0 <= k < l < names.len() ==> (#[trigger] names[k])@ != (#[trigger] names[l])@,
            forall|a: int, b: int|
                0 <= a < b < sorted.len() ==> ranks_before(
                    pv(#[trigger] sorted[a]),
                    pv(#[trigger] sorted[b]),
                ),
            forall|p: int|
                0 <= p < sorted.len() ==> in_tally(names@, counts@, m as int, pv(#[trigger] sorted[p])),
            forall|k: int|
                0 <= k < m ==> in_sorted(sorted@, ((#[trigger] names[k])@, counts[k] as nat)),
        decreases names.len() - m,
    {
        let x = (copy_chars(&names[m]), counts[m]);
        let ghost o = sorted@;
        let ghost xv = x;
        proof {
            assert forall|a: int| 0 <= a < sorted.len() implies (#[trigger] sorted[a]).0@
                != x.0@ by {
                assert(in_tally(names@, counts@, m as int, pv(sorted[a])));
                let k = choose|k: int|
                    0 <= k < m && (#[trigger] names@[k])@ == pv(sorted[a]).0 && counts@[k] as nat
                        == pv(sorted[a]).1;
                assert(names[k]@ != names[m as int]@);
            }
        }
        let j = rank_insert(&mut sorted, x);
        proof {
            let n = sorted@;
            assert forall|p: int| 0 <= p < n.len() implies in_tally(
                names@,
                counts@,
                m + 1,
                pv(#[trigger] n[p]),
            ) by {
                if p < j {
                    assert(n[p] == o[p]);
                    assert(in_tally(names@, counts@, m as int, pv(o[p])));
                    let k = choose|k: int|
                        0 <= k < m && (#[trigger] names@[k])@ == pv(o[p]).0 && counts@[k] as nat
                            == pv(o[p]).1;
                    assert(names@[k]@ == pv(n[p]).0);
                } else if p == j {
                    assert(n[p] == xv);
                    assert(names@[m as int]@ == pv(n[p]).0);
                } else {
                    assert(n[p] == o[p - 1]);
                    assert(in_tally(names@, counts@, m as int, pv(o[p - 1])));
                    let k = choose|k: int|
                        0 <= k < m && (#[trigger] names@[k])@ == pv(o[p - 1]).0 && counts@[k] as nat
                            == pv(o[p - 1]).1;
                    assert(names@[k]@ == pv(n[p]).0);
                }
            }
            assert forall|k: int| 0 <= k < m + 1 implies in_sorted(
                n,
                ((#[trigger] names[k])@, counts[k] as nat),
            ) by {
                if k == m {
                    assert(pv(n[j as int]) == (names[k]@, counts[k] as nat));
                } else {
                    assert(in_sorted(o, (names[k]@, counts[k] as nat)));
                    let p = choose|p: int|
                        0 <= p < o.len() && pv(#[trigger] o[p]) == (names[k]@, counts[k] as nat);
                    if p < j {
                        assert(n[p] == o[p]);
                    } else {
                        assert(n[p + 1] == o[p]);
                    }
                }
            }
        }
        m += 1;
    }
    let mut r: Vec<(String, usize)> = Vec::new();
    let mut p: usize = 0;
    while p < sorted.len()
        invariant
            p <= sorted.len(),
            r.len() == p,
            forall|q: int|
                0 <= q < p ==> (#[trigger] r[q]).0@ == sorted[q].0@ && r[q].1 == sorted[q].1,
        decreases sorted.len() - p,
    {
        let name = string_of(sorted[p].0.as_slice());
        r.push((name, sorted[p].1));
        p += 1;
    }
    proof {
        let v = ranking_view(r@);
        assert forall|q: int| 0 <= q < v.len() implies #[trigger] v[q] == pv(sorted[q]) by {
            assert(r@[q] == r[q]);
        }
        assert forall|i: int| 0 <= i < v.len() implies (#[trigger] v[i]).1 == plays_of(
            history@,
            v[i].0,
        ) && v[i].1 >= 1 by {
            assert(v[i] == pv(sorted[i]));
            assert(in_tally(names@, counts@, m as int, pv(sorted[i])));
            let k = choose|k: int|
                0 <= k < m && (#[trigger] names@[k])@ == pv(sorted[i]).0 && counts@[k] as nat
                    == pv(sorted[i]).1;
            assert(names[k] == names@[k]);
        }
        assert forall|e: int| 0 <= e < history@.len() implies ranked(
            v,
            (#[trigger] history@[e]).artist@,
        ) by {
            assert(named_in(names@, history@[e].artist@));
            let k = choose|k: int|
                0 <= k < names@.len() && (#[trigger] names@[k])@ == history@[e].artist@;
            assert(names[k] == names@[k]);
            assert(in_sorted(sorted@, (names[k]@, counts[k] as nat)));
            let p = choose|p: int|
                0 <= p < sorted@.len() && pv(#[trigger] sorted@[p]) == (names[k]@, counts[k] as nat);
            assert(v[p].0 == history@[e].artist@);
        }
        assert forall|i: int, j: int| 0 <= i < j < v.len() implies ranks_before(
            #[trigger] v[i],
            #[trigger] v[j],
        ) by {
            assert(v[i] == pv(sorted[i]));
            assert(v[j] == pv(sorted[j]));
        }
    }
    r
}

} // verus!

verus! {

/// The seconds an entry counts for in the listening time: its duration, or 150 where none
/// was known.
pub open spec fn counted_seconds(e: HistoryEntry) -> u64 {
    match e.duration_sec {
        Some(d) => d,
        None => 150,
    }
}

/// The listening time of a history in seconds, added up as `u64` that wraps.
pub open spec fn listened_seconds(history: Seq<HistoryEntry>) -> u64
    decreases history.len(),
{
    if history.len() == 0 {
        0
    } else {
        vstd::wrapping::u64_specs::wrapping_add(
            listened_seconds(history.drop_last()),
            counted_seconds(history.last()),
        )
    }
}

/// Adds up the listening time of the history in seconds (150 for an entry of unknown length).
pub fn total_listened_seconds(history: &Vec<HistoryEntry>) -> (t: u64)
    ensures
        t == listened_seconds(history@),
{
    let mut total: u64 = 0;
    let mut i: usize = 0;
    while i < history.len()
        invariant
            i <= history.len(),
            total == listened_seconds(history@.subrange(0, i as int)),
        decreases history.len() - i,
    {
        let d: u64 = match history[i].duration_sec {
            Some(d) => d,
            None => 150,
        };
        assert(history@.subrange(0, i + 1).drop_last() =~= history@.subrange(0, i as int));
        total = total.wrapping_add(d);
        i += 1;
    }
    assert(history@.subrange(0, history.len() as int) =~= history@);
    total
}

/// The most played artist of a ranking, or "—" where the history is empty.
pub fn top_artist(ranking: &Vec<(String, usize)>) -> (s: String)
    ensures
        ranking.len() == 0 ==> s@ == "—"@,
        ranking.len() > 0 ==> s@ == ranking[0].0@,
{
    if ranking.len() == 0 {
        string_of(&chars_of("—"))
    } else {
        ranking[0].0.clone()
    }
}

} // verus!

verus! {

/// The counts of a ranking, added up.
pub open spec fn ranking_total(ranking: Seq<(Seq<char>, nat)>) -> nat
    decreases ranking.len(),
{
    if ranking.len() == 0 {
        0
    } else {
        ranking_total(ranking.drop_last()) + ranking.last().1
    }
}

/// The plays of each of `names` in `history`, added up.
spec fn plays_of_all(history: Seq<HistoryEntry>, names: Seq<Seq<char>>) -> nat
    decreases names.len(),
{
    if names.len() == 0 {
        0
    } else {
        plays_of_all(history, names.drop_last()) + plays_of(history, names.last())
    }
}

/// `a` is one of `names`.
spec fn listed(names: Seq<Seq<char>>, a: Seq<char>) -> bool {
    exists|i: int| 0 <= i < names.len() && names[i] == a
}

/// How many of `names` are `a`.
spec fn occurrences(names: Seq<Seq<char>>, a: Seq<char>) -> nat
    decreases names.len(),
{
    if names.len() == 0 {
        0
    } else {
        occurrences(names.drop_last(), a) + if names.last() == a {
            1nat
        } else {
            0nat
        }
    }
}

proof fn lemma_occurrences_none(names: Seq<Seq<char>>, a: Seq<char>)
    requires
        forall|i: int| 0 <= i < names.len() ==> names[i] != a,
    ensures
        occurrences(names, a) == 0,
    decreases names.len(),
{
    if names.len() > 0 {
        lemma_occurrences_none(names.drop_last(), a);
    }
}

proof fn lemma_occurrences_once(names: Seq<Seq<char>>, a: Seq<char>, k: int)
    requires
        forall|i: int, j: int| 0 <= i < j < names.len() ==> names[i] != names[j],
        0 <= k < names.len(),
        names[k] == a,
    ensures
        occurrences(names, a) == 1,
    decreases names.len(),
{
    let last = names.len() - 1;
    if k == last {
        lemma_occurrences_none(names.drop_last(), a);
    } else {
        lemma_occurrences_once(names.drop_last(), a, k);
    }
}

proof fn lemma_plays_all_empty(history: Seq<HistoryEntry>, names: Seq<Seq<char>>)
    requires
        history.len() == 0,
    ensures
        plays_of_all(history, names) == 0,
    decreases names.len(),
{
    if names.len() > 0 {
        lemma_plays_all_empty(history, names.drop_last());
    }
}

proof fn lemma_plays_all_step(history: Seq<HistoryEntry>, names: Seq<Seq<char>>)
    requires
        history.len() > 0,
    ensures
        plays_of_all(history, names) == plays_of_all(history.drop_last(), names) + occurrences(
            names,
            history.last().artist@,
        ),
    decreases names.len(),
{
    if names.len() > 0 {
        lemma_plays_all_step(history, names.drop_last());
    }
}

proof fn lemma_plays_all(history: Seq<HistoryEntry>, names: Seq<Seq<char>>)
    requires
        forall|i: int, j: int| 0 <= i < j < names.len() ==> names[i] != names[j],
        forall|e: int| 0 <= e < history.len() ==> listed(names, (#[trigger] history[e]).artist@),
    ensures
        plays_of_all(history, names) == history.len(),
    decreases history.len(),
{
    if history.len() == 0 {
        lemma_plays_all_empty(history, names);
    } else {
        let h = history.drop_last();
        assert forall|e: int| 0 <= e < h.len() implies listed(names, (#[trigger] h[e]).artist@) by {
            assert(h[e] == history[e]);
        }
        lemma_plays_all(h, names);
        lemma_plays_all_step(history, names);
        let last = history.len() - 1;
        assert(history[last] == history.last());
        let k = choose|i: int| 0 <= i < names.len() && names[i] == history[last].artist@;
        lemma_occurrences_once(names, history.last().artist@, k);
    }
}

proof fn lemma_ranking_total_names(history: Seq<HistoryEntry>, ranking: Seq<(Seq<char>, nat)>)
    requires
        forall|i: int| 0 <= i < ranking.len() ==> (#[trigger] ranking[i]).1 == plays_of(history, ranking[i].0),
    ensures
        ranking_total(ranking) == plays_of_all(history, ranking.map_values(|p: (Seq<char>, nat)| p.0)),
    decreases ranking.len(),
{
    let names = ranking.map_values(|p: (Seq<char>, nat)| p.0);
    if ranking.len() > 0 {
        let r = ranking.drop_last();
        assert forall|i: int| 0 <= i < r.len() implies (#[trigger] r[i]).1 == plays_of(history, r[i].0) by {
            assert(r[i] == ranking[i]);
        }
        lemma_ranking_total_names(history, r);
        assert(r.map_values(|p: (Seq<char>, nat)| p.0) =~= names.drop_last());
        assert(ranking[ranking.len() - 1] == ranking.last());
    }
}

/// The counts of the artist ranking add up to the number of entries of the history: each
/// play is counted once, for its artist.
pub proof fn lemma_ranking_counts_every_play(history: Seq<HistoryEntry>, ranking: Seq<(Seq<char>, nat)>)
    requires
        is_artist_ranking(history, ranking),
    ensures
        ranking_total(ranking) == history.len(),
{
    let names = ranking.map_values(|p: (Seq<char>, nat)| p.0);
    assert forall|i: int, j: int| 0 <= i < j < names.len() implies names[i] != names[j] by {
        assert(ranks_before(ranking[i], ranking[j]));
        if names[i] == names[j] {
            lemma_lex_irreflexive(ranking[i].0);
        }
    }
    assert forall|e: int| 0 <= e < history.len() implies listed(names, (#[trigger] history[e]).artist@) by {
        assert(ranked(ranking, history[e].artist@));
        let i = choose|i: int| 0 <= i < ranking.len() && (#[trigger] ranking[i]).0 == history[e].artist@;
        assert(names.len() == ranking.len());
        assert(names[i] == ranking[i].0);
        assert(0 <= i < names.len() && names[i] == history[e].artist@);
    }
    lemma_plays_all(history, names);
    lemma_ranking_total_names(history, ranking);
}

} // verus!
