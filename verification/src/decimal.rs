//! Decimal numbers as text: which texts are decimals, and which numbers
//! their digits write.

use crate::text::{digit_value, is_digit, is_digit_char};
use vstd::prelude::*;

verus! {

/// Where the run of digits that starts at `from` ends: the first position
/// at or after `from` that holds no digit, or the end of `s`.
pub open spec fn digits_end(s: Seq<char>, from: int) -> int
    decreases s.len() - from,
{
    if 0 <= from < s.len() && is_digit(s[from]) {
        digits_end(s, from + 1)
    } else {
        from
    }
}

/// The number that the digits `d` write in base ten.
pub open spec fn digits_value(d: Seq<char>) -> nat
    decreases d.len(),
{
    if d.len() == 0 {
        0
    } else {
        (digits_value(d.drop_last()) * 10 + digit_value(d.last())) as nat
    }
}

/// The number of characters that the sign of a decimal takes: one for a
/// leading `+` or `-`, else none.
pub open spec fn sign_len(s: Seq<char>) -> int {
    if s.len() > 0 && (s[0] == '+' || s[0] == '-') {
        1
    } else {
        0
    }
}

/// Whether a decimal is written with a leading `-`.
pub open spec fn is_negative(s: Seq<char>) -> bool {
    s.len() > 0 && s[0] == '-'
}

/// Where the digits before the decimal point end.
pub open spec fn int_end(s: Seq<char>) -> int {
    digits_end(s, sign_len(s))
}

/// Whether a decimal point follows the digits of the integer part.
pub open spec fn has_point(s: Seq<char>) -> bool {
    int_end(s) < s.len() && s[int_end(s)] == '.'
}

/// Where the decimal numeral that `s` starts with ends.
pub open spec fn decimal_end(s: Seq<char>) -> int {
    if has_point(s) {
        digits_end(s, int_end(s) + 1)
    } else {
        int_end(s)
    }
}

/// The digits before the decimal point.
pub open spec fn int_digits(s: Seq<char>) -> Seq<char> {
    s.subrange(sign_len(s), int_end(s))
}

/// The digits after the decimal point; none where there is no point.
pub open spec fn frac_digits(s: Seq<char>) -> Seq<char> {
    if has_point(s) {
        s.subrange(int_end(s) + 1, decimal_end(s))
    } else {
        Seq::empty()
    }
}

/// Whether `s` is a decimal number: an optional sign, then digits with at
/// most one decimal point among them, before them or after them, and at
/// least one digit in all. No exponent, no blanks, no other characters.
pub open spec fn is_decimal(s: Seq<char>) -> bool {
    decimal_end(s) == s.len() && int_digits(s).len() + frac_digits(s).len() > 0
}

/// Whether the decimal `s` is greater than zero.
pub open spec fn is_positive(s: Seq<char>) -> bool {
    !is_negative(s) && (digits_value(int_digits(s)) > 0 || digits_value(frac_digits(s)) > 0)
}

/// Ten to the power of `e`.
pub open spec fn pow10(e: nat) -> nat
    decreases e,
{
    if e == 0 {
        1
    } else {
        10 * pow10((e - 1) as nat)
    }
}

/// Whether every character of `d` is a digit.
pub open spec fn all_digits(d: Seq<char>) -> bool {
    forall|k: int| 0 <= k < d.len() ==> is_digit(#[trigger] d[k])
}

/// A numeral of `n` digits writes a number below ten to the power of `n`.
pub(crate) proof fn lemma_digits_value_bound(d: Seq<char>)
    requires
        all_digits(d),
    ensures
        digits_value(d) < pow10(d.len()),
    decreases d.len(),
{
    if d.len() > 0 {
        lemma_digits_value_bound(d.drop_last());
    }
}

/// Powers of ten multiply as their exponents add.
pub(crate) proof fn lemma_pow10_adds(a: nat, b: nat)
    ensures
        pow10(a + b) == pow10(a) * pow10(b),
        pow10(a) > 0,
    decreases a,
{
    if a > 0 {
        lemma_pow10_adds((a - 1) as nat, b);
        assert(10 * (pow10((a - 1) as nat) * pow10(b)) == (10 * pow10((a - 1) as nat)) * pow10(b))
            by (nonlinear_arith);
    } else {
        assert(pow10(a) * pow10(b) == pow10(b)) by (nonlinear_arith)
            requires
                pow10(a) == 1,
        ;
    }
}

/// Every character in a run of digits is a digit.
pub(crate) proof fn lemma_digits_run(s: Seq<char>, from: int)
    requires
        0 <= from <= s.len(),
    ensures
        from <= digits_end(s, from) <= s.len(),
        all_digits(s.subrange(from, digits_end(s, from))),
    decreases s.len() - from,
{
    if from < s.len() && is_digit(s[from]) {
        lemma_digits_run(s, from + 1);
        let end = digits_end(s, from);
        assert forall|k: int| 0 <= k < end - from implies is_digit(
            #[trigger] s.subrange(from, end)[k],
        ) by {
            if k > 0 {
                assert(s.subrange(from, end)[k] == s.subrange(from + 1, end)[k - 1]);
            }
        }
    }
}

/// Digits written one after the other: the value of the first part moves
/// up by as many places as the second part has digits.
pub(crate) proof fn lemma_value_of_two_parts(a: Seq<char>, b: Seq<char>)
    requires
        all_digits(b),
    ensures
        digits_value(a + b) == digits_value(a) * pow10(b.len()) + digits_value(b),
    decreases b.len(),
{
    if b.len() == 0 {
        assert(digits_value(a) * pow10(0) == digits_value(a)) by (nonlinear_arith)
            requires
                pow10(0) == 1,
        ;
    } else {
        let front = b.drop_last();
        assert((a + b).drop_last() =~= a + front);
        lemma_value_of_two_parts(a, front);
        let va = digits_value(a) as int;
        let vf = digits_value(front) as int;
        let p = pow10(front.len()) as int;
        let d = digit_value(b.last());
        assert((va * p + vf) * 10 + d == va * (10 * p) + (vf * 10 + d)) by (nonlinear_arith);
    }
}

/// A row of zeros writes the number zero.
pub(crate) proof fn lemma_zeros_value(d: Seq<char>)
    requires
        forall|k: int| 0 <= k < d.len() ==> d[k] == '0',
    ensures
        digits_value(d) == 0,
    decreases d.len(),
{
    if d.len() > 0 {
        lemma_zeros_value(d.drop_last());
    }
}

/// The end of the run of digits of `s` that starts at `from`.
pub(crate) fn scan_digits(s: &Vec<char>, from: usize) -> (end: usize)
    requires
        from <= s.len(),
    ensures
        end == digits_end(s@, from as int),
        from <= end <= s.len(),
        forall|k: int| from <= k < end ==> is_digit(#[trigger] s[k]),
{
    let mut end = from;
    while end < s.len() && is_digit_char(s[end])
        invariant
            from <= end <= s.len(),
            digits_end(s@, from as int) == digits_end(s@, end as int),
            forall|k: int| from <= k < end ==> is_digit(#[trigger] s[k]),
        decreases s.len() - end,
    {
        end += 1;
    }
    end
}

/// The value of the digits `s[from..to]`, or `cap` where it is greater.
pub(crate) fn capped_value(s: &Vec<char>, from: usize, to: usize, cap: u64) -> (v: u64)
    requires
        from <= to <= s.len(),
        forall|k: int| from <= k < to ==> is_digit(#[trigger] s[k]),
        cap <= 1_000_000_000_000_000_000,
    ensures
        v == if digits_value(s@.subrange(from as int, to as int)) <= cap {
            digits_value(s@.subrange(from as int, to as int))
        } else {
            cap as nat
        },
{
    let mut v: u64 = 0;
    let mut i = from;
    while i < to
        invariant
            from <= i <= to <= s.len(),
            forall|k: int| from <= k < to ==> is_digit(#[trigger] s[k]),
            cap <= 1_000_000_000_000_000_000,
            v == if digits_value(s@.subrange(from as int, i as int)) <= cap {
                digits_value(s@.subrange(from as int, i as int))
            } else {
                cap as nat
            },
        decreases to - i,
    {
        let d: u64 = (s[i] as u32 - '0' as u32) as u64;
        proof {
            assert(s@.subrange(from as int, i + 1).drop_last() =~= s@.subrange(
                from as int,
                i as int,
            ));
        }
        let next = v * 10 + d;
        v = if next > cap {
            cap
        } else {
            next
        };
        i += 1;
    }
    v
}

} // verus!
