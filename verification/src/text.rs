use vstd::prelude::*;

verus! {

/// Appends one character to a string with std's `String::push`. Trusted: the characters
/// afterwards are the old ones followed by `c`, as the documentation of `push` says.
#[verifier::external_body]
pub(crate) fn push_char(s: &mut String, c: char)
    ensures
        final(s)@ == old(s)@.push(c),
{
    s.push(c);
}

/// The characters of a string slice, in order.
pub fn chars_of(s: &str) -> (v: Vec<char>)
    ensures
        v@ == s@,
{
    broadcast use vstd::string::group_string_axioms;
    let mut v: Vec<char> = Vec::new();
    for c in it: s.chars()
        invariant
            it.seq() == s@,
            v@ == it.seq().take(it.index() as int),
    {
        v.push(c);
    }
    v
}

/// Builds a string from a sequence of characters.
pub fn string_of(v: &[char]) -> (s: String)
    ensures
        s@ == v@,
{
    let mut s = String::new();
    let mut i: usize = 0;
    while i < v.len()
        invariant
            i <= v.len(),
            s@ == v@.take(i as int),
        decreases v.len() - i,
    {
        push_char(&mut s, v[i]);
        assert(v@.take(i as int).push(v@[i as int]) =~= v@.take(i + 1));
        i += 1;
    }
    assert(v@.take(v.len() as int) =~= v@);
    s
}

}

verus! {

/// Unicode `White_Space`, the set that `char::is_whitespace` and `str::trim` use.
pub open spec fn is_white(c: char) -> bool {
    ||| ('\u{9}' <= c && c <= '\u{d}')
    ||| c == ' '
    ||| c == '\u{85}'
    ||| c == '\u{a0}'
    ||| c == '\u{1680}'
    ||| ('\u{2000}' <= c && c <= '\u{200a}')
    ||| c == '\u{2028}'
    ||| c == '\u{2029}'
    ||| c == '\u{202f}'
    ||| c == '\u{205f}'
    ||| c == '\u{3000}'
}

pub fn white(c: char) -> (b: bool)
    ensures
        b == is_white(c),
{
    ('\u{9}' <= c && c <= '\u{d}') || c == ' ' || c == '\u{85}' || c == '\u{a0}' || c == '\u{1680}'
        || ('\u{2000}' <= c && c <= '\u{200a}') || c == '\u{2028}' || c == '\u{2029}'
        || c == '\u{202f}' || c == '\u{205f}' || c == '\u{3000}'
}

/// `s` without its leading white space.
pub open spec fn trim_start(s: Seq<char>) -> Seq<char>
    decreases s.len(),
{
    if s.len() > 0 && is_white(s[0]) {
        trim_start(s.drop_first())
    } else {
        s
    }
}

/// `s` without its trailing white space.
pub open spec fn trim_end(s: Seq<char>) -> Seq<char>
    decreases s.len(),
{
    if s.len() > 0 && is_white(s.last()) {
        trim_end(s.drop_last())
    } else {
        s
    }
}

/// `s` without leading and trailing white space (`str::trim`).
pub open spec fn trim(s: Seq<char>) -> Seq<char> {
    trim_end(trim_start(s))
}

proof fn lemma_trim_start_skip(s: Seq<char>, a: int)
    requires
        0 <= a <= s.len(),
        forall|j: int| 0 <= j < a ==> is_white(#[trigger] s[j]),
        a == s.len() || !is_white(s[a]),
    ensures
        trim_start(s) == s.skip(a),
    decreases a,
{
    if a == 0 {
        assert(s.skip(0) =~= s);
    } else {
        let t = s.drop_first();
        assert forall|j: int| 0 <= j < a - 1 implies is_white(#[trigger] t[j]) by {
            assert(t[j] == s[j + 1]);
        }
        lemma_trim_start_skip(t, a - 1);
        assert(t.skip(a - 1) =~= s.skip(a));
    }
}

proof fn lemma_trim_end_take(s: Seq<char>, b: int)
    requires
        0 <= b <= s.len(),
        forall|j: int| b <= j < s.len() ==> is_white(#[trigger] s[j]),
        b == 0 || !is_white(s[b - 1]),
    ensures
        trim_end(s) == s.take(b),
    decreases s.len() - b,
{
    if b == s.len() {
        assert(s.take(b) =~= s);
    } else {
        let t = s.drop_last();
        assert forall|j: int| b <= j < t.len() implies is_white(#[trigger] t[j]) by {
            assert(t[j] == s[j]);
        }
        lemma_trim_end_take(t, b);
        assert(t.take(b) =~= s.take(b));
    }
}

/// The characters of `v` from `a` up to `b`.
pub fn slice_of(v: &Vec<char>, a: usize, b: usize) -> (r: Vec<char>)
    requires
        a <= b <= v.len(),
    ensures
        r@ == v@.subrange(a as int, b as int),
{
    let mut r: Vec<char> = Vec::new();
    let mut i = a;
    while i < b
        invariant
            a <= i <= b <= v.len(),
            r@ == v@.subrange(a as int, i as int),
        decreases b - i,
    {
        r.push(v[i]);
        assert(v@.subrange(a as int, i as int).push(v@[i as int]) =~= v@.subrange(
            a as int,
            i + 1,
        ));
        i += 1;
    }
    r
}

/// `a` followed by `b`.
pub fn join(a: &Vec<char>, b: &Vec<char>) -> (r: Vec<char>)
    ensures
        r@ == a@ + b@,
{
    let mut r = slice_of(a, 0, a.len());
    let mut i: usize = 0;
    assert(a@.subrange(0, a.len() as int) =~= a@);
    while i < b.len()
        invariant
            i <= b.len(),
            r@ == a@ + b@.take(i as int),
        decreases b.len() - i,
    {
        r.push(b[i]);
        assert((a@ + b@.take(i as int)).push(b@[i as int]) =~= a@ + b@.take(i + 1));
        i += 1;
    }
    assert(b@.take(b.len() as int) =~= b@);
    r
}

/// `str::trim` on a character sequence.
pub fn trim_chars(v: &Vec<char>) -> (r: Vec<char>)
    ensures
        r@ == trim(v@),
{
    let n = v.len();
    let mut a: usize = 0;
    while a < n && white(v[a])
        invariant
            a <= n == v.len(),
            forall|j: int| 0 <= j < a ==> is_white(#[trigger] v@[j]),
        decreases n - a,
    {
        a += 1;
    }
    proof {
        lemma_trim_start_skip(v@, a as int);
    }
    let mut b: usize = n;
    while b > a && white(v[b - 1])
        invariant
            a <= b <= n == v.len(),
            forall|j: int| b <= j < n ==> is_white(#[trigger] v@[j]),
        decreases b - a,
    {
        b -= 1;
    }
    proof {
        let t = v@.skip(a as int);
        let k = (b - a) as int;
        assert forall|j: int| k <= j < t.len() implies is_white(#[trigger] t[j]) by {
            assert(t[j] == v@[j + a]);
        }
        if k > 0 {
            assert(t[k - 1] == v@[b - 1]);
        }
        lemma_trim_end_take(t, k);
        assert(t.take(k) =~= v@.subrange(a as int, b as int));
    }
    slice_of(v, a, b)
}

} // verus!

verus! {

/// `pat` occurs in `s` starting at index `i`.
pub open spec fn occurs_at(s: Seq<char>, pat: Seq<char>, i: int) -> bool {
    0 <= i && i + pat.len() <= s.len() && s.subrange(i, i + pat.len()) == pat
}

/// The first index at or after `i` where `pat` occurs in `s`.
pub open spec fn find_from(s: Seq<char>, pat: Seq<char>, i: int) -> Option<int>
    decreases s.len() + 1 - i,
{
    if i < 0 || i + pat.len() > s.len() {
        None
    } else if occurs_at(s, pat, i) {
        Some(i)
    } else {
        find_from(s, pat, i + 1)
    }
}

/// The first index where `pat` occurs in `s` (`str::find`).
pub open spec fn find(s: Seq<char>, pat: Seq<char>) -> Option<int> {
    find_from(s, pat, 0)
}

/// The last index at or below `i` where `pat` occurs in `s`.
pub open spec fn rfind_below(s: Seq<char>, pat: Seq<char>, i: int) -> Option<int>
    decreases i + 1,
{
    if i < 0 {
        None
    } else if occurs_at(s, pat, i) {
        Some(i)
    } else {
        rfind_below(s, pat, i - 1)
    }
}

/// The last index where `pat` occurs in `s` (`str::rfind`).
pub open spec fn rfind(s: Seq<char>, pat: Seq<char>) -> Option<int> {
    rfind_below(s, pat, s.len() - pat.len())
}

/// `s` begins with `p`.
pub open spec fn starts_with(s: Seq<char>, p: Seq<char>) -> bool {
    p.len() <= s.len() && s.take(p.len() as int) == p
}

/// `p` occurs somewhere in `s`.
pub open spec fn contains(s: Seq<char>, p: Seq<char>) -> bool {
    find(s, p) is Some
}

/// `s` with every occurrence of `pat` taken out, left to right (`str::replace(pat, "")`).
pub open spec fn remove_all(s: Seq<char>, pat: Seq<char>) -> Seq<char>
    decreases s.len(),
{
    if pat.len() == 0 {
        s
    } else {
        match find(s, pat) {
            None => s,
            Some(i) => if 0 <= i && i + pat.len() <= s.len() {
                s.take(i) + remove_all(s.skip(i + pat.len()), pat)
            } else {
                s
            },
        }
    }
}

pub proof fn lemma_find_from_bounds(s: Seq<char>, pat: Seq<char>, i: int)
    requires
        0 <= i,
    ensures
        find_from(s, pat, i) matches Some(k) ==> i <= k && occurs_at(s, pat, k) && forall|j: int|
            i <= j < k ==> !occurs_at(s, pat, j),
        find_from(s, pat, i) is None ==> forall|j: int| i <= j ==> !occurs_at(s, pat, j),
    decreases s.len() + 1 - i,
{
    if i + pat.len() > s.len() {
    } else if occurs_at(s, pat, i) {
    } else {
        lemma_find_from_bounds(s, pat, i + 1);
    }
}

} // verus!

verus! {

/// Whether `pat` occurs in `s` at index `i`.
pub fn occurs_at_exec(s: &Vec<char>, pat: &Vec<char>, i: usize) -> (b: bool)
    ensures
        b == occurs_at(s@, pat@, i as int),
{
    if pat.len() > s.len() || i > s.len() - pat.len() {
        return false;
    }
    let mut j: usize = 0;
    while j < pat.len()
        invariant
            i + pat.len() <= s.len(),
            j <= pat.len(),
            forall|k: int| 0 <= k < j ==> s@[i + k] == pat@[k],
        decreases pat.len() - j,
    {
        if s[i + j] != pat[j] {
            proof {
                assert(s@.subrange(i as int, i + pat.len())[j as int] != pat@[j as int]);
            }
            return false;
        }
        j += 1;
    }
    assert(s@.subrange(i as int, i + pat.len()) =~= pat@);
    true
}

/// `str::find` on character sequences.
pub fn find_chars(s: &Vec<char>, pat: &Vec<char>) -> (r: Option<usize>)
    ensures
        r is Some <==> find(s@, pat@) is Some,
        r matches Some(k) ==> find(s@, pat@) == Some(k as int) && k + pat.len() <= s.len(),
{
    if pat.len() == 0 {
        assert(s@.subrange(0, 0) =~= pat@);
        return Some(0);
    }
    if pat.len() > s.len() {
        return None;
    }
    let last = s.len() - pat.len();
    let mut i: usize = 0;
    while i <= last
        invariant
            last + pat.len() == s.len(),
            pat.len() > 0,
            i <= last + 1,
            find(s@, pat@) == find_from(s@, pat@, i as int),
        decreases last + 1 - i,
    {
        if occurs_at_exec(s, pat, i) {
            return Some(i);
        }
        i += 1;
    }
    None
}

/// `str::rfind` on character sequences.
pub fn rfind_chars(s: &Vec<char>, pat: &Vec<char>) -> (r: Option<usize>)
    ensures
        r is Some <==> rfind(s@, pat@) is Some,
        r matches Some(k) ==> rfind(s@, pat@) == Some(k as int) && k + pat.len() <= s.len(),
{
    if pat.len() == 0 {
        assert(s@.subrange(s.len() as int, s.len() as int) =~= pat@);
        return Some(s.len());
    }
    if pat.len() > s.len() {
        return None;
    }
    let mut i: usize = s.len() - pat.len() + 1;
    while i > 0
        invariant
            i + pat.len() <= s.len() + 1,
            rfind(s@, pat@) == rfind_below(s@, pat@, i - 1),
        decreases i,
    {
        if occurs_at_exec(s, pat, i - 1) {
            return Some(i - 1);
        }
        i -= 1;
    }
    None
}

/// Whether `s` begins with `p`.
pub fn starts_with_chars(s: &Vec<char>, p: &Vec<char>) -> (b: bool)
    ensures
        b == starts_with(s@, p@),
{
    let b = occurs_at_exec(s, p, 0);
    proof {
        if p.len() <= s.len() {
            assert(s@.subrange(0, p.len() as int) =~= s@.take(p.len() as int));
        }
    }
    b
}

/// Whether `p` occurs in `s`.
pub fn contains_chars(s: &Vec<char>, p: &Vec<char>) -> (b: bool)
    ensures
        b == contains(s@, p@),
{
    find_chars(s, p).is_some()
}

/// `str::replace(pat, "")` on character sequences.
pub fn remove_all_chars(s: &Vec<char>, pat: &Vec<char>) -> (r: Vec<char>)
    ensures
        r@ == remove_all(s@, pat@),
    decreases s.len(),
{
    if pat.len() == 0 {
        return slice_of(s, 0, s.len());
    }
    match find_chars(s, pat) {
        None => {
            let r = slice_of(s, 0, s.len());
            assert(s@.subrange(0, s.len() as int) =~= s@);
            r
        },
        Some(i) => {
            let head = slice_of(s, 0, i);
            let rest = slice_of(s, i + pat.len(), s.len());
            let tail = remove_all_chars(&rest, pat);
            assert(s@.subrange(0, i as int) =~= s@.take(i as int));
            assert(s@.subrange(i + pat.len(), s.len() as int) =~= s@.skip(i + pat.len()));
            let r = join(&head, &tail);
            assert(remove_all(s@, pat@) == s@.take(i as int) + remove_all(
                s@.skip(i + pat.len()),
                pat@,
            ));
            r
        },
    }
}

} // verus!

verus! {

/// The pieces of `s` between the occurrences of `c` (`str::split(c)`).
pub open spec fn split_on(s: Seq<char>, c: char) -> Seq<Seq<char>>
    decreases s.len(),
{
    match find(s, seq![c]) {
        Some(i) => if 0 <= i < s.len() {
            seq![s.take(i)] + split_on(s.skip(i + 1), c)
        } else {
            seq![s]
        },
        None => seq![s],
    }
}

/// The character sequence of one letter.
pub fn single(c: char) -> (v: Vec<char>)
    ensures
        v@ == seq![c],
{
    let mut v: Vec<char> = Vec::new();
    v.push(c);
    assert(v@ =~= seq![c]);
    v
}

/// `str::split(c)` on a character sequence.
pub fn split_chars(v: &Vec<char>, c: char) -> (r: Vec<Vec<char>>)
    ensures
        r.len() == split_on(v@, c).len(),
        forall|k: int| 0 <= k < r.len() ==> (#[trigger] r[k])@ == split_on(v@, c)[k],
    decreases v.len(),
{
    let pat = single(c);
    match find_chars(v, &pat) {
        None => {
            let mut r: Vec<Vec<char>> = Vec::new();
            let whole = slice_of(v, 0, v.len());
            assert(v@.subrange(0, v.len() as int) =~= v@);
            r.push(whole);
            r
        },
        Some(i) => {
            let head = slice_of(v, 0, i);
            let rest = slice_of(v, i + 1, v.len());
            let tail = split_chars(&rest, c);
            let ghost parts = split_on(v@, c);
            assert(v@.subrange(0, i as int) =~= v@.take(i as int));
            assert(v@.subrange(i + 1, v.len() as int) =~= v@.skip(i + 1));
            assert(parts == seq![v@.take(i as int)] + split_on(v@.skip(i + 1), c));
            let mut r: Vec<Vec<char>> = Vec::new();
            r.push(head);
            let mut k: usize = 0;
            while k < tail.len()
                invariant
                    k <= tail.len(),
                    tail.len() == split_on(v@.skip(i + 1), c).len(),
                    forall|m: int|
                        0 <= m < tail.len() ==> (#[trigger] tail[m])@ == split_on(
                            v@.skip(i + 1),
                            c,
                        )[m],
                    parts == seq![v@.take(i as int)] + split_on(v@.skip(i + 1), c),
                    r.len() == k + 1,
                    forall|m: int| 0 <= m < r.len() ==> (#[trigger] r[m])@ == parts[m],
                decreases tail.len() - k,
            {
                let piece = slice_of(&tail[k], 0, tail[k].len());
                assert(tail[k as int]@.subrange(0, tail[k as int]@.len() as int) =~= tail[k as int]@);
                r.push(piece);
                k += 1;
            }
            r
        },
    }
}

} // verus!

verus! {

/// `find_from` stops at the first occurrence.
pub proof fn lemma_find_first(s: Seq<char>, pat: Seq<char>, i: int, k: int)
    requires
        0 <= i <= k,
        occurs_at(s, pat, k),
        forall|j: int| i <= j < k ==> !occurs_at(s, pat, j),
    ensures
        find_from(s, pat, i) == Some(k),
    decreases k - i,
{
    if i < k {
        lemma_find_first(s, pat, i + 1, k);
    }
}

/// A character that is not in `s` is not found in it.
pub proof fn lemma_find_char_absent(s: Seq<char>, c: char)
    requires
        forall|j: int| 0 <= j < s.len() ==> s[j] != c,
    ensures
        find(s, seq![c]) is None,
{
    lemma_find_from_bounds(s, seq![c], 0);
    if let Some(k) = find(s, seq![c]) {
        assert(s.subrange(k, k + 1)[0] == s[k]);
    }
}

/// A sequence that neither begins nor ends with white space is its own trim.
pub proof fn lemma_trim_unchanged(s: Seq<char>)
    requires
        s.len() > 0,
        !is_white(s[0]),
        !is_white(s.last()),
    ensures
        trim(s) == s,
{
    lemma_trim_start_skip(s, 0);
    assert(s.skip(0) =~= s);
    lemma_trim_end_take(s, s.len() as int);
    assert(s.take(s.len() as int) =~= s);
}

} // verus!

verus! {

/// The first `k` characters of `v`.
pub fn take_chars(v: &Vec<char>, k: usize) -> (r: Vec<char>)
    requires
        k <= v.len(),
    ensures
        r@ == v@.take(k as int),
{
    let r = slice_of(v, 0, k);
    assert(v@.subrange(0, k as int) =~= v@.take(k as int));
    r
}

/// `v` without its first `k` characters.
pub fn skip_chars(v: &Vec<char>, k: usize) -> (r: Vec<char>)
    requires
        k <= v.len(),
    ensures
        r@ == v@.skip(k as int),
{
    let r = slice_of(v, k, v.len());
    assert(v@.subrange(k as int, v.len() as int) =~= v@.skip(k as int));
    r
}

/// `find` reports an index where the pattern occurs.
pub proof fn lemma_find_occurs(s: Seq<char>, pat: Seq<char>)
    ensures
        find(s, pat) matches Some(k) ==> occurs_at(s, pat, k),
        find(s, pat) is None ==> forall|j: int| 0 <= j ==> !occurs_at(s, pat, j),
{
    lemma_find_from_bounds(s, pat, 0);
}

/// A string literal as characters.
pub fn lit(s: &str) -> (v: Vec<char>)
    ensures
        v@ == s@,
{
    chars_of(s)
}

} // verus!

verus! {

/// `a` comes strictly before `b` in dictionary order of code points (the order of `str`).
pub open spec fn lex_lt(a: Seq<char>, b: Seq<char>) -> bool
    decreases a.len(),
{
    if a.len() == 0 {
        b.len() > 0
    } else if b.len() == 0 {
        false
    } else if a[0] < b[0] {
        true
    } else if a[0] == b[0] {
        lex_lt(a.drop_first(), b.drop_first())
    } else {
        false
    }
}

pub proof fn lemma_lex_irreflexive(a: Seq<char>)
    ensures
        !lex_lt(a, a),
    decreases a.len(),
{
    if a.len() > 0 {
        lemma_lex_irreflexive(a.drop_first());
    }
}

pub proof fn lemma_lex_transitive(a: Seq<char>, b: Seq<char>, c: Seq<char>)
    requires
        lex_lt(a, b),
        lex_lt(b, c),
    ensures
        lex_lt(a, c),
    decreases a.len(),
{
    if a.len() > 0 && b.len() > 0 && c.len() > 0 && a[0] == b[0] && b[0] == c[0] {
        lemma_lex_transitive(a.drop_first(), b.drop_first(), c.drop_first());
    }
}

pub proof fn lemma_lex_total(a: Seq<char>, b: Seq<char>)
    requires
        a != b,
    ensures
        lex_lt(a, b) || lex_lt(b, a),
    decreases a.len(),
{
    if a.len() > 0 && b.len() > 0 && a[0] == b[0] {
        if a.drop_first() == b.drop_first() {
            assert(a =~= seq![a[0]] + a.drop_first());
            assert(b =~= seq![b[0]] + b.drop_first());
        }
        lemma_lex_total(a.drop_first(), b.drop_first());
    } else if a.len() == 0 && b.len() == 0 {
        assert(a =~= b);
    }
}

/// Whether `a` comes strictly before `b` in dictionary order.
pub fn lex_less(a: &Vec<char>, b: &Vec<char>) -> (r: bool)
    ensures
        r == lex_lt(a@, b@),
{
    let mut i: usize = 0;
    assert(a@.skip(0) =~= a@);
    assert(b@.skip(0) =~= b@);
    while i < a.len() && i < b.len() && a[i] == b[i]
        invariant
            i <= a.len(),
            i <= b.len(),
            lex_lt(a@, b@) == lex_lt(a@.skip(i as int), b@.skip(i as int)),
        decreases a.len() - i,
    {
        proof {
            let x = a@.skip(i as int);
            let y = b@.skip(i as int);
            assert(x.drop_first() =~= a@.skip(i + 1));
            assert(y.drop_first() =~= b@.skip(i + 1));
        }
        i += 1;
    }
    proof {
        assert(a@.skip(i as int).len() == a.len() - i);
    }
    if i == a.len() {
        i < b.len()
    } else if i == b.len() {
        false
    } else {
        assert(a@.skip(i as int)[0] == a@[i as int]);
        assert(b@.skip(i as int)[0] == b@[i as int]);
        a[i] < b[i]
    }
}

} // verus!

verus! {

/// Whether two character sequences are equal.
pub fn chars_eq(a: &Vec<char>, b: &Vec<char>) -> (r: bool)
    ensures
        r == (a@ == b@),
{
    if a.len() != b.len() {
        return false;
    }
    let mut i: usize = 0;
    while i < a.len()
        invariant
            a.len() == b.len(),
            i <= a.len(),
            forall|k: int| 0 <= k < i ==> a@[k] == b@[k],
        decreases a.len() - i,
    {
        if a[i] != b[i] {
            return false;
        }
        i += 1;
    }
    assert(a@ =~= b@);
    true
}

} // verus!

verus! {

/// Appends the characters of `s` to `v`.
pub fn push_all(v: &mut Vec<char>, s: &Vec<char>)
    ensures
        final(v)@ == old(v)@ + s@,
{
    let mut i: usize = 0;
    while i < s.len()
        invariant
            i <= s.len(),
            v@ == old(v)@ + s@.take(i as int),
        decreases s.len() - i,
    {
        v.push(s[i]);
        assert((old(v)@ + s@.take(i as int)).push(s@[i as int]) =~= old(v)@ + s@.take(i + 1));
        i += 1;
    }
    assert(s@.take(s.len() as int) =~= s@);
}

/// Appends the characters of a string slice to `v`.
pub fn push_str(v: &mut Vec<char>, s: &str)
    ensures
        final(v)@ == old(v)@ + s@,
{
    let c = chars_of(s);
    push_all(v, &c);
}

} // verus!

verus! {

/// `s` with every occurrence of `pat` replaced by `rep`, left to right (`str::replace`).
pub open spec fn replace_all(s: Seq<char>, pat: Seq<char>, rep: Seq<char>) -> Seq<char>
    decreases s.len(),
{
    if pat.len() == 0 {
        s
    } else {
        match find(s, pat) {
            None => s,
            Some(i) => if 0 <= i && i + pat.len() <= s.len() {
                s.take(i) + rep + replace_all(s.skip(i + pat.len()), pat, rep)
            } else {
                s
            },
        }
    }
}

/// `str::replace(pat, rep)` on character sequences, for a pattern that is not empty.
pub fn replace_all_chars(s: &Vec<char>, pat: &Vec<char>, rep: &Vec<char>) -> (r: Vec<char>)
    requires
        pat.len() > 0,
    ensures
        r@ == replace_all(s@, pat@, rep@),
    decreases s.len(),
{
    match find_chars(s, pat) {
        None => {
            let r = slice_of(s, 0, s.len());
            assert(s@.subrange(0, s.len() as int) =~= s@);
            r
        },
        Some(i) => {
            let mut head = take_chars(s, i);
            let rest = skip_chars(s, i + pat.len());
            let tail = replace_all_chars(&rest, pat, rep);
            push_all(&mut head, rep);
            push_all(&mut head, &tail);
            assert(replace_all(s@, pat@, rep@) == s@.take(i as int) + rep@ + replace_all(
                s@.skip(i + pat.len()),
                pat@,
                rep@,
            ));
            head
        },
    }
}

/// The pieces of `s` between the occurrences of `pat` (`str::split(pat)`), for a pattern
/// that is not empty.
pub open spec fn split_by(s: Seq<char>, pat: Seq<char>) -> Seq<Seq<char>>
    decreases s.len(),
{
    if pat.len() == 0 {
        seq![s]
    } else {
        match find(s, pat) {
            Some(i) => if 0 <= i && i + pat.len() <= s.len() {
                seq![s.take(i)] + split_by(s.skip(i + pat.len()), pat)
            } else {
                seq![s]
            },
            None => seq![s],
        }
    }
}

/// `str::split(pat)` on a character sequence, for a pattern that is not empty.
pub fn split_by_chars(v: &Vec<char>, pat: &Vec<char>) -> (r: Vec<Vec<char>>)
    requires
        pat.len() > 0,
    ensures
        r.len() == split_by(v@, pat@).len(),
        forall|k: int| 0 <= k < r.len() ==> (#[trigger] r[k])@ == split_by(v@, pat@)[k],
    decreases v.len(),
{
    match find_chars(v, pat) {
        None => {
            let mut r: Vec<Vec<char>> = Vec::new();
            let whole = slice_of(v, 0, v.len());
            assert(v@.subrange(0, v.len() as int) =~= v@);
            r.push(whole);
            r
        },
        Some(i) => {
            let head = take_chars(v, i);
            let rest = skip_chars(v, i + pat.len());
            let tail = split_by_chars(&rest, pat);
            let ghost parts = split_by(v@, pat@);
            assert(parts == seq![v@.take(i as int)] + split_by(v@.skip(i + pat.len()), pat@));
            let mut r: Vec<Vec<char>> = Vec::new();
            r.push(head);
            let mut k: usize = 0;
            while k < tail.len()
                invariant
                    k <= tail.len(),
                    tail.len() == split_by(v@.skip(i + pat.len()), pat@).len(),
                    forall|m: int|
                        0 <= m < tail.len() ==> (#[trigger] tail[m])@ == split_by(
                            v@.skip(i + pat.len()),
                            pat@,
                        )[m],
                    parts == seq![v@.take(i as int)] + split_by(v@.skip(i + pat.len()), pat@),
                    r.len() == k + 1,
                    forall|m: int| 0 <= m < r.len() ==> (#[trigger] r[m])@ == parts[m],
                decreases tail.len() - k,
            {
                let piece = slice_of(&tail[k], 0, tail[k].len());
                assert(tail[k as int]@.subrange(0, tail[k as int]@.len() as int) =~= tail[k as int]@);
                r.push(piece);
                k += 1;
            }
            r
        },
    }
}

/// `s` ends with `p`.
pub open spec fn ends_with(s: Seq<char>, p: Seq<char>) -> bool {
    p.len() <= s.len() && s.skip(s.len() - p.len()) == p
}

/// Whether `s` ends with `p`.
pub fn ends_with_chars(s: &Vec<char>, p: &Vec<char>) -> (b: bool)
    ensures
        b == ends_with(s@, p@),
{
    if p.len() > s.len() {
        return false;
    }
    let b = occurs_at_exec(s, p, s.len() - p.len());
    assert(s@.subrange(s.len() - p.len(), s.len() as int) =~= s@.skip(s.len() - p.len()));
    b
}

} // verus!
