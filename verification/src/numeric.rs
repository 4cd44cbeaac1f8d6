//! Best-effort coercion of numeric-as-string feed fields.
//!
//! Several SIRI reference fields (origin, destination, course and vehicle
//! refs) carry numbers transmitted as strings, and some agencies transmit
//! placeholder text instead. Coercion therefore never fails: a value that is
//! not a plain decimal number, or does not fit, coerces to zero.

use vstd::prelude::*;

verus! {

/// Whether `c` is an ASCII decimal digit.
pub open spec fn spec_is_digit(c: char) -> bool {
    '0' <= c && c <= '9'
}

/// The numeric value of a digit.
pub open spec fn digit_value(c: char) -> int {
    c as int - '0' as int
}

/// Whether every character of `s` is an ASCII decimal digit.
pub open spec fn all_digits(s: Seq<char>) -> bool {
    forall|i: int| 0 <= i < s.len() ==> spec_is_digit(#[trigger] s[i])
}

/// The value of `s` read as a base-ten numeral, most significant digit first.
pub open spec fn decimal_value(s: Seq<char>) -> int
    decreases s.len(),
{
    if s.len() == 0 {
        0
    } else {
        decimal_value(s.drop_last()) * 10 + digit_value(s.last())
    }
}

/// The coerced value of a numeric-as-string field: the decimal value where
/// `s` is a non-empty string of digits whose value fits in `u32`, and zero
/// otherwise.
pub open spec fn spec_numeric_code(s: Seq<char>) -> u32 {
    if s.len() > 0 && all_digits(s) && decimal_value(s) <= u32::MAX {
        decimal_value(s) as u32
    } else {
        0
    }
}

/// A numeral of digits is non-negative, and never shrinks as digits are
/// appended: the value of a prefix bounds the value of the whole.
proof fn lemma_decimal_value_monotone(s: Seq<char>, i: int)
    requires
        all_digits(s),
        0 <= i <= s.len(),
    ensures
        0 <= decimal_value(s.take(i)) <= decimal_value(s),
    decreases s.len() - i,
{
    lemma_decimal_value_nonneg(s, i);
    if i == s.len() {
        assert(s.take(i) == s);
    } else {
        lemma_decimal_value_monotone(s, i + 1);
        let t = s.take(i + 1);
        assert(t.drop_last() == s.take(i));
        assert(decimal_value(t) == decimal_value(s.take(i)) * 10 + digit_value(s[i]));
        let v = decimal_value(s.take(i));
        let d = digit_value(s[i]);
        assert(v <= v * 10 + d) by (nonlinear_arith)
            requires
                0 <= v,
                0 <= d,
        ;
    }
}

/// The value of a prefix of digits is non-negative.
proof fn lemma_decimal_value_nonneg(s: Seq<char>, i: int)
    requires
        all_digits(s),
        0 <= i <= s.len(),
    ensures
        0 <= decimal_value(s.take(i)),
    decreases i,
{
    if i == 0 {
        assert(s.take(0) =~= Seq::<char>::empty());
    } else {
        lemma_decimal_value_nonneg(s, i - 1);
        let t = s.take(i);
        assert(t.drop_last() == s.take(i - 1));
        assert(decimal_value(t) == decimal_value(s.take(i - 1)) * 10 + digit_value(s[i - 1]));
        assert(decimal_value(s.take(i - 1)) * 10 >= 0) by (nonlinear_arith)
            requires
                decimal_value(s.take(i - 1)) >= 0,
        ;
    }
}

/// Coerces a numeric-as-string field. Returns the value of `s` as a base-ten
/// number where it is one and fits in `u32`; any other content — empty text,
/// a non-digit anywhere, or a value too large — coerces to zero.
pub fn numeric_code(s: &str) -> (r: u32)
    ensures
        r == spec_numeric_code(s@),
{
    let n = s.unicode_len();
    if n == 0 {
        return 0;
    }
    let mut i: usize = 0;
    // First pass: reject anything that is not all digits.
    while i < n
        invariant
            n == s@.len(),
            0 <= i <= n,
            forall|j: int| 0 <= j < i ==> spec_is_digit(#[trigger] s@[j]),
        decreases n - i,
    {
        let c = s.get_char(i);
        let cv = c as u32;
        if cv < 48 || cv > 57 {
            return 0;
        }
        assert(spec_is_digit(s@[i as int]));
        i = i + 1;
    }
    assert(all_digits(s@));
    // Second pass: accumulate, coercing to zero on overflow.
    let mut acc: u32 = 0;
    let mut k: usize = 0;
    while k < n
        invariant
            n == s@.len(),
            0 <= k <= n,
            all_digits(s@),
            acc == decimal_value(s@.take(k as int)),
        decreases n - k,
    {
        let c = s.get_char(k);
        let d = (c as u32) - 48;
        assert(digit_value(s@[k as int]) == d);
        assert(s@.take(k + 1).drop_last() == s@.take(k as int));
        assert(decimal_value(s@.take(k + 1)) == acc * 10 + d);
        if acc > (u32::MAX - d) / 10 {
            proof {
                assert(acc * 10 + d > u32::MAX) by (nonlinear_arith)
                    requires
                        acc > (u32::MAX - d) / 10,
                        0 <= d <= 9,
                        acc <= u32::MAX,
                ;
                lemma_decimal_value_monotone(s@, k + 1);
            }
            return 0;
        }
        assert(acc * 10 + d <= u32::MAX) by (nonlinear_arith)
            requires
                acc <= (u32::MAX - d) / 10,
                0 <= d <= 9,
                0 <= acc,
        ;
        acc = acc * 10 + d;
        k = k + 1;
    }
    assert(s@.take(n as int) == s@);
    acc
}

} // verus!
