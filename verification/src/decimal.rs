//! Decimal integers as they appear on the last line of a reference answer.

use vstd::prelude::*;

verus! {

/// Whether `c` is one of the ASCII digits `0` to `9`.
pub open spec fn is_digit(c: char) -> bool {
    '0' <= c && c <= '9'
}

/// The number a single ASCII digit stands for.
pub open spec fn digit_value(c: char) -> int {
    c as int - '0' as int
}

/// Whether every character of `s` is an ASCII digit.
pub open spec fn all_digits(s: Seq<char>) -> bool {
    forall|i: int| 0 <= i < s.len() ==> is_digit(#[trigger] s[i])
}

/// The natural number written by a run of digits, most significant first.
pub open spec fn digits_value(s: Seq<char>) -> int
    decreases s.len(),
{
    if s.len() == 0 {
        0
    } else {
        digits_value(s.drop_last()) * 10 + digit_value(s.last())
    }
}

/// Whether `s` opens with an explicit sign.
pub open spec fn has_sign(s: Seq<char>) -> bool {
    s.len() > 0 && (s[0] == '-' || s[0] == '+')
}

/// The digits of `s`: everything after the optional sign.
pub open spec fn magnitude_part(s: Seq<char>) -> Seq<char> {
    if has_sign(s) {
        s.subrange(1, s.len() as int)
    } else {
        s
    }
}

/// The integer written by `s`, when `s` is an optional `+` or `-` followed
/// by at least one ASCII digit and nothing else.
pub open spec fn signed_value(s: Seq<char>) -> Option<int> {
    let body = magnitude_part(s);
    if body.len() == 0 || !all_digits(body) {
        None
    } else if s[0] == '-' {
        Some(-digits_value(body))
    } else {
        Some(digits_value(body))
    }
}

/// What a line means as a 32-bit exit code: its signed decimal value when it
/// is well formed and fits, nothing otherwise.
pub open spec fn exit_code_of(s: Seq<char>) -> Option<i32> {
    match signed_value(s) {
        Some(v) => if i32::MIN <= v <= i32::MAX {
            Some(v as i32)
        } else {
            None
        },
        None => None,
    }
}

/// Appending a digit multiplies the value by ten and adds the digit.
pub proof fn lemma_digits_value_push(s: Seq<char>, c: char)
    ensures
        digits_value(s.push(c)) == digits_value(s) * 10 + digit_value(c),
{
    assert(s.push(c).drop_last() =~= s);
}

/// A run of digits never denotes a negative number, and a longer run is
/// worth at least as much as any of its prefixes.
pub proof fn lemma_digits_value_monotone(s: Seq<char>, n: int)
    requires
        all_digits(s),
        0 <= n <= s.len(),
    ensures
        0 <= digits_value(s.take(n)) <= digits_value(s),
    decreases s.len() - n,
{
    if n == s.len() {
        assert(s.take(n) =~= s);
        lemma_digits_value_nonnegative(s);
    } else {
        lemma_digits_value_monotone(s, n + 1);
        assert(s.take(n + 1).drop_last() =~= s.take(n));
        assert(is_digit(s[n]));
        lemma_digits_value_nonnegative(s.take(n));
    }
}

/// A run of digits never denotes a negative number.
pub proof fn lemma_digits_value_nonnegative(s: Seq<char>)
    requires
        all_digits(s),
    ensures
        0 <= digits_value(s),
    decreases s.len(),
{
    if s.len() > 0 {
        lemma_digits_value_nonnegative(s.drop_last());
        assert(is_digit(s[s.len() - 1]));
    }
}

/// Reads a line as a 32-bit exit code.
///
/// The accepted form is an optional `+` or `-` followed by one or more ASCII
/// digits; anything else, and any value outside the 32-bit range, is refused.
pub fn parse_exit_code(text: &str) -> (code: Option<i32>)
    ensures
        code == exit_code_of(text@),
{
    let mut negative = false;
    let mut signed = false;
    let mut any_digit = false;
    let mut magnitude: i64 = 0;
    let mut first = true;
    for c in it: text.chars()
        invariant
            it.seq() == text@,
            first == (it.index() == 0),
            signed ==> has_sign(text@) && it.index() >= 1,
            !signed && !first ==> !has_sign(text@),
            negative == (signed && text@[0] == '-'),
            0 <= magnitude <= 2147483648,
            !first ==> {
                let start = if signed { 1int } else { 0int };
                &&& all_digits(text@.subrange(start, it.index()))
                &&& magnitude == digits_value(text@.subrange(start, it.index()))
                &&& any_digit == (it.index() > start)
            },
            first ==> !any_digit && magnitude == 0 && !signed,
    {
        if first && (c == '-' || c == '+') {
            signed = true;
            negative = c == '-';
            first = false;
            assert(text@.subrange(1, 1) =~= Seq::<char>::empty());
        } else {
            let ghost start = if signed { 1int } else { 0int };
            let ghost before = text@.subrange(start, it.index());
            let ghost after = text@.subrange(start, it.index() + 1);
            assert(after =~= before.push(c));
            first = false;
            if !(c >= '0' && c <= '9') {
                proof {
                    let body = magnitude_part(text@);
                    assert(body[it.index() - start] == c);
                }
                return None;
            }
            let d: i64 = (c as u32 - '0' as u32) as i64;
            proof {
                lemma_digits_value_push(before, c);
            }
            magnitude = magnitude * 10 + d;
            if magnitude > 2147483648 {
                proof {
                    let body = magnitude_part(text@);
                    assert(body.take(it.index() + 1 - start) =~= after);
                    if all_digits(body) {
                        lemma_digits_value_monotone(body, it.index() + 1 - start);
                    }
                }
                return None;
            }
            any_digit = true;
        }
    }
    proof {
        let body = magnitude_part(text@);
        let start = if signed { 1int } else { 0int };
        if !first {
            assert(body =~= text@.subrange(start, text@.len() as int));
        }
    }
    if !any_digit {
        return None;
    }
    if negative {
        Some((0 - magnitude) as i32)
    } else if magnitude > 2147483647 {
        None
    } else {
        Some(magnitude as i32)
    }
}

} // verus!
