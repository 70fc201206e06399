//! Text helpers for string-keyed parameter setting.
//!
//! `set(name, value)` is the text-driven escape hatch of the configuration
//! capability: both the parameter name and the value arrive as strings.  The
//! helpers here give concrete indicators a verified way to recognise a
//! parameter name and to parse an unsigned decimal value.

use vstd::prelude::*;

verus! {

/// Holds when `c` is a decimal digit.
pub open spec fn is_digit(c: char) -> bool {
    48 <= c as u32 <= 57
}

/// The numeric value of the digit `c`.
pub open spec fn digit_val(c: char) -> nat {
    (c as u32 - 48) as nat
}

/// The number written by the digit string `s`, most significant digit first.
pub open spec fn digits_val(s: Seq<char>) -> nat
    decreases s.len(),
{
    if s.len() == 0 {
        0
    } else {
        digits_val(s.drop_last()) * 10 + digit_val(s.last())
    }
}

/// What [`parse_u32`] returns: the value of `s` read as a plain decimal
/// numeral, or nothing when `s` is empty, holds a non-digit, or names a
/// number beyond `u32`.
pub open spec fn spec_parse_u32(s: Seq<char>) -> Option<u32> {
    if s.len() > 0 && (forall|i: int| 0 <= i < s.len() ==> is_digit(s[i])) && digits_val(s)
        <= u32::MAX {
        Some(digits_val(s) as u32)
    } else {
        None
    }
}

/// A longer digit string never names a smaller number: the value of a prefix
/// is at most the value of the whole.
proof fn lemma_digits_val_prefix_le(s: Seq<char>, i: int)
    requires
        0 <= i <= s.len(),
    ensures
        digits_val(s.take(i)) <= digits_val(s),
    decreases s.len() - i,
{
    if i == s.len() {
        assert(s.take(i) =~= s);
    } else {
        assert(s.take(i + 1).drop_last() =~= s.take(i));
        assert(digits_val(s.take(i + 1)) == digits_val(s.take(i)) * 10 + digit_val(
            s.take(i + 1).last(),
        ));
        lemma_digits_val_prefix_le(s, i + 1);
    }
}

/// Reads `s` as an unsigned decimal numeral.
///
/// Returns the number exactly when `s` is non-empty, consists of digits
/// alone, and its value fits in `u32`; returns nothing otherwise.
pub fn parse_u32(s: &str) -> (r: Option<u32>)
    ensures
        r == spec_parse_u32(s@),
{
    let n = s.unicode_len();
    if n == 0 {
        return None;
    }
    let mut acc: u64 = 0;
    let mut i: usize = 0;
    while i < n
        invariant
            n == s@.len(),
            0 <= i <= n,
            forall|j: int| 0 <= j < i ==> is_digit(s@[j]),
            acc == digits_val(s@.take(i as int)),
            acc <= u32::MAX,
        decreases n - i,
    {
        let c = s.get_char(i);
        let code = c as u32;
        if code < 48 || code > 57 {
            return None;
        }
        let d = code - 48;
        proof {
            assert(s@.take(i + 1).drop_last() =~= s@.take(i as int));
        }
        acc = acc * 10 + d as u64;
        i = i + 1;
        if acc > u32::MAX as u64 {
            proof {
                lemma_digits_val_prefix_le(s@, i as int);
                if forall|j: int| 0 <= j < s@.len() ==> is_digit(s@[j]) {
                    assert(digits_val(s@) > u32::MAX);
                }
            }
            return None;
        }
    }
    proof {
        assert(s@.take(n as int) =~= s@);
    }
    Some(acc as u32)
}

/// Character-for-character string equality, for recognising parameter names.
pub fn str_eq(a: &str, b: &str) -> (r: bool)
    ensures
        r == (a@ == b@),
{
    let la = a.unicode_len();
    let lb = b.unicode_len();
    if la != lb {
        return false;
    }
    let mut i: usize = 0;
    while i < la
        invariant
            la == a@.len(),
            la == b@.len(),
            0 <= i <= la,
            forall|j: int| 0 <= j < i ==> a@[j] == b@[j],
        decreases la - i,
    {
        if a.get_char(i) != b.get_char(i) {
            return false;
        }
        i = i + 1;
    }
    proof {
        assert(a@ =~= b@);
    }
    true
}

} // verus!
