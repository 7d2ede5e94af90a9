use vstd::prelude::*;
use crate::decimal::{
    all_digits, decimal, is_digit, lemma_decimal_value, lemma_leading_zero, pad2, pad2_chars,
    parse_u64, parse_u64_chars,
};
use crate::text::{
    chars_of, join, lemma_find_char_absent, lemma_find_first, lemma_trim_unchanged, occurs_at, single,
    split_chars, split_on, string_of, trim, trim_chars,
};

verus! {

/// `a * b + c` with the wrap-around of `u64` arithmetic in a release build.
pub open spec fn wrapped_mul_add(a: u64, b: u64, c: u64) -> u64 {
    vstd::wrapping::u64_specs::wrapping_add(vstd::wrapping::u64_specs::wrapping_mul(a, b), c)
}

/// What `parse_time_to_seconds` gives: `m:s` or `h:m:s` (after trimming), each part a
/// `u64`, as a number of seconds.
pub open spec fn time_seconds(s: Seq<char>) -> Option<u64> {
    let parts = split_on(trim(s), ':');
    if parts.len() == 2 {
        match (parse_u64(parts[0]), parse_u64(parts[1])) {
            (Some(m), Some(sec)) => Some(wrapped_mul_add(m, 60, sec)),
            _ => None,
        }
    } else if parts.len() == 3 {
        match (parse_u64(parts[0]), parse_u64(parts[1]), parse_u64(parts[2])) {
            (Some(h), Some(m), Some(sec)) => Some(
                vstd::wrapping::u64_specs::wrapping_add(
                    vstd::wrapping::u64_specs::wrapping_mul(h, 3600),
                    wrapped_mul_add(m, 60, sec),
                ),
            ),
            _ => None,
        }
    } else {
        None
    }
}

/// `MM:SS` for a number of seconds: the minutes and the seconds, each padded to two digits.
pub open spec fn duration_text(seconds: u64) -> Seq<char> {
    pad2(decimal((seconds / 60) as nat)) + seq![':'] + pad2(decimal((seconds % 60) as nat))
}

/// Reads a time such as `3:25` or `1:02:03` as a number of seconds.
pub fn parse_time_to_seconds_chars(time: &Vec<char>) -> (r: Option<u64>)
    ensures
        r == time_seconds(time@),
{
    let t = trim_chars(time);
    let parts = split_chars(&t, ':');
    if parts.len() == 2 {
        let m = parse_u64_chars(&parts[0]);
        let s = parse_u64_chars(&parts[1]);
        match (m, s) {
            (Some(m), Some(s)) => Some(m.wrapping_mul(60).wrapping_add(s)),
            _ => None,
        }
    } else if parts.len() == 3 {
        let h = parse_u64_chars(&parts[0]);
        let m = parse_u64_chars(&parts[1]);
        let s = parse_u64_chars(&parts[2]);
        match (h, m, s) {
            (Some(h), Some(m), Some(s)) => Some(
                h.wrapping_mul(3600).wrapping_add(m.wrapping_mul(60).wrapping_add(s)),
            ),
            _ => None,
        }
    } else {
        None
    }
}

/// Reads a time such as `3:25` or `1:02:03` as a number of seconds; `None` where a part is
/// missing or is not a number.
pub fn parse_time_to_seconds(time_str: &str) -> (r: Option<u64>)
    ensures
        r == time_seconds(time_str@),
{
    let v = chars_of(time_str);
    parse_time_to_seconds_chars(&v)
}

/// `MM:SS` as characters.
pub fn duration_chars(seconds: u64) -> (v: Vec<char>)
    ensures
        v@ == duration_text(seconds),
{
    let mins = pad2_chars(seconds / 60);
    let secs = pad2_chars(seconds % 60);
    let colon = single(':');
    let a = join(&mins, &colon);
    join(&a, &secs)
}

/// Formats a number of seconds as `MM:SS` (`format!("{:02}:{:02}", s / 60, s % 60)`).
pub fn format_duration(seconds: u64) -> (s: String)
    ensures
        s@ == duration_text(seconds),
{
    let v = duration_chars(seconds);
    string_of(v.as_slice())
}

} // verus!

verus! {

proof fn lemma_padded_value(n: u64)
    ensures
        parse_u64(pad2(decimal(n as nat))) == Some(n),
        all_digits(pad2(decimal(n as nat))),
        pad2(decimal(n as nat)).len() >= 1,
{
    lemma_decimal_value(n as nat);
    let d = decimal(n as nat);
    if d.len() < 2 {
        lemma_leading_zero(d);
    }
    let p = pad2(d);
    assert(is_digit(p[0]));
}

/// Reading back a formatted duration gives the number of seconds that was formatted.
pub proof fn lemma_duration_round_trip(seconds: u64)
    ensures
        time_seconds(duration_text(seconds)) == Some(seconds),
{
    let m = seconds / 60;
    let sec = seconds % 60;
    let a = pad2(decimal(m as nat));
    let b = pad2(decimal(sec as nat));
    lemma_padded_value(m);
    lemma_padded_value(sec);
    let x = duration_text(seconds);
    assert(x == a + seq![':'] + b);
    assert(is_digit(x[0]));
    assert(is_digit(x.last())) by {
        assert(x.last() == b[b.len() - 1]);
    }
    lemma_trim_unchanged(x);
    let colon = seq![':'];
    assert forall|j: int| 0 <= j < a.len() implies !occurs_at(x, colon, j) by {
        assert(x.subrange(j, j + 1)[0] == x[j]);
        assert(x[j] == a[j]);
        assert(is_digit(a[j]));
    }
    assert(x.subrange(a.len() as int, a.len() + 1int) =~= colon);
    lemma_find_first(x, colon, 0, a.len() as int);
    assert(x.take(a.len() as int) =~= a);
    assert(x.skip(a.len() + 1int) =~= b);
    assert forall|j: int| 0 <= j < b.len() implies b[j] != ':' by {
        assert(is_digit(b[j]));
    }
    lemma_find_char_absent(b, ':');
    assert(split_on(b, ':') == seq![b]);
    let parts = split_on(x, ':');
    assert(parts =~= seq![a, b]);
    vstd::arithmetic::div_mod::lemma_fundamental_div_mod(seconds as int, 60);
    assert(m * 60 <= seconds);
    vstd::arithmetic::div_mod::lemma_small_mod((m * 60) as nat, 0x1_0000_0000_0000_0000nat);
    assert(vstd::wrapping::u64_specs::wrapping_mul(m, 60) == m * 60);
}

} // verus!
