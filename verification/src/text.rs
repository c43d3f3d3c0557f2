//! Text helpers: decimal identifiers and character-wise prefixes.

use vstd::prelude::*;
use vstd::string::*;

verus! {

/// Whether `c` is an ASCII decimal digit.
pub open spec fn is_digit(c: char) -> bool {
    '0' <= c && c <= '9'
}

/// The number that the digit `c` stands for.
pub open spec fn digit_value(c: char) -> nat {
    (c as u32 - '0' as u32) as nat
}

/// The number written by the digits `s`, most significant digit first.
pub open spec fn digits_value(s: Seq<char>) -> nat
    decreases s.len(),
{
    if s.len() == 0 {
        0
    } else {
        digits_value(s.drop_last()) * 10 + digit_value(s.last())
    }
}

/// Whether `s` is a non-empty run of decimal digits.
pub open spec fn is_decimal(s: Seq<char>) -> bool {
    s.len() > 0 && forall|i: int| 0 <= i < s.len() ==> is_digit(#[trigger] s[i])
}

/// What `parse_u64` returns: the number written by `s` when `s` is a
/// non-empty run of decimal digits whose value fits 64 bits.
pub open spec fn parse_u64_spec(s: Seq<char>) -> Option<u64> {
    if is_decimal(s) && digits_value(s) <= u64::MAX {
        Some(digits_value(s) as u64)
    } else {
        None
    }
}

/// Appending digits never makes the written number smaller.
pub proof fn lemma_digits_value_monotonic(s: Seq<char>, n: int)
    requires
        0 <= n <= s.len(),
    ensures
        digits_value(s.take(n)) <= digits_value(s),
    decreases s.len() - n,
{
    if n < s.len() {
        lemma_digits_value_monotonic(s.drop_last(), n);
        assert(s.drop_last().take(n) =~= s.take(n));
    } else {
        assert(s.take(n) =~= s);
    }
}

/// Reads an unsigned decimal number: one or more ASCII digits and nothing
/// else. Returns `None` for any other text and for a number above `u64::MAX`.
pub fn parse_u64(s: &str) -> (r: Option<u64>)
    ensures
        r == parse_u64_spec(s@),
{
    let mut value: u64 = 0;
    let mut empty: bool = true;
    for c in it: s.chars()
        invariant
            it.seq() == s@,
            empty == (it.index() == 0),
            forall|j: int| 0 <= j < it.index() ==> is_digit(#[trigger] s@[j]),
            value == digits_value(s@.take(it.index() as int)),
    {
        if !(c >= '0' && c <= '9') {
            return None;
        }
        let d: u64 = (c as u32 - '0' as u32) as u64;
        proof {
            let i = it.index() as int;
            assert(s@.take(i + 1).drop_last() =~= s@.take(i));
            assert(s@.take(i + 1).last() == c);
            assert(digits_value(s@.take(i + 1)) == value * 10 + d);
            lemma_digits_value_monotonic(s@, i + 1);
        }
        if value > (u64::MAX - d) / 10 {
            return None;
        }
        value = value * 10 + d;
        empty = false;
    }
    proof {
        assert(s@.take(s@.len() as int) =~= s@);
    }
    if empty {
        None
    } else {
        Some(value)
    }
}

/// The first `n` characters of `s`, or all of `s` when it has no more.
pub open spec fn prefix_spec(s: Seq<char>, n: nat) -> Seq<char> {
    if s.len() <= n {
        s
    } else {
        s.take(n as int)
    }
}

/// Cuts `s` down to its first `n` characters; a shorter text comes back whole.
pub fn prefix(s: &String, n: usize) -> (r: String)
    ensures
        r@ == prefix_spec(s@, n as nat),
{
    let len: usize = s.as_str().unicode_len();
    if len <= n {
        s.clone()
    } else {
        String::from_str(s.as_str().substring_char(0, n))
    }
}

} // verus!
