//! Decimal rendering and parsing of unsigned 64-bit counters.
//!
//! Sequence numbers and expiration timestamps travel as decimal strings.
//! The service reports the sequence number as text; the client parses it,
//! and renders the parsed value (and the computed expiration) back to text
//! in canonical form, without leading zeros.

use vstd::prelude::*;
use vstd::string::StrSliceExecFns;
use crate::hexstr::{hex_digit, hex_digit_char, string_push};

verus! {

/// Whether a character is a decimal digit.
pub open spec fn is_dec_digit(c: char) -> bool {
    48 <= c as u32 && c as u32 <= 57
}

/// The value of a decimal digit character.
pub open spec fn dec_digit_val(c: char) -> nat
    recommends
        is_dec_digit(c),
{
    (c as u32 - 48) as nat
}

/// Whether every character of a string is a decimal digit.
pub open spec fn all_dec_digits(s: Seq<char>) -> bool {
    forall|i: int| 0 <= i < s.len() ==> is_dec_digit(#[trigger] s[i])
}

/// The numeric value of a digit string, most significant digit first.
pub open spec fn dec_val(s: Seq<char>) -> nat
    recommends
        all_dec_digits(s),
    decreases s.len(),
{
    if s.len() == 0 {
        0
    } else {
        dec_val(s.drop_last()) * 10 + dec_digit_val(s.last())
    }
}

/// The canonical decimal rendering of a number: no sign, no leading zeros,
/// `"0"` for zero.
pub open spec fn spec_dec_string(n: nat) -> Seq<char>
    decreases n,
{
    if n < 10 {
        seq![hex_digit_char(n as u8)]
    } else {
        spec_dec_string(n / 10).push(hex_digit_char((n % 10) as u8))
    }
}

/// What parsing a string as an unsigned 64-bit counter yields: the numeric
/// value where the string is nonempty, all digits, and the value fits;
/// `None` otherwise.
pub open spec fn spec_parse_u64(s: Seq<char>) -> Option<u64> {
    if s.len() >= 1 && all_dec_digits(s) && dec_val(s) <= u64::MAX {
        Some(dec_val(s) as u64)
    } else {
        None
    }
}

/// Renders a counter in canonical decimal form.
pub fn u64_to_dec(n: u64) -> (r: String)
    ensures
        r@ == spec_dec_string(n as nat),
    decreases n,
{
    if n < 10 {
        let mut r = String::new();
        string_push(&mut r, hex_digit(n as u8));
        proof {
            assert(r@ =~= spec_dec_string(n as nat));
        }
        r
    } else {
        let mut r = u64_to_dec(n / 10);
        string_push(&mut r, hex_digit((n % 10) as u8));
        r
    }
}

/// Appending one digit multiplies the value by ten and adds the digit.
proof fn lemma_dec_val_extend(s: Seq<char>, i: int)
    requires
        0 <= i < s.len(),
    ensures
        dec_val(s.take(i + 1)) == dec_val(s.take(i)) * 10 + dec_digit_val(s[i]),
{
    assert(s.take(i + 1).drop_last() =~= s.take(i));
    assert(s.take(i + 1).last() == s[i]);
}

/// The value of a digit string is no less than the value of any prefix.
proof fn lemma_dec_val_prefix_le(s: Seq<char>, i: int)
    requires
        0 <= i <= s.len(),
    ensures
        dec_val(s.take(i)) <= dec_val(s),
    decreases s.len() - i,
{
    if i == s.len() {
        assert(s.take(i) =~= s);
    } else {
        lemma_dec_val_extend(s, i);
        assert(dec_val(s.take(i)) * 10 >= dec_val(s.take(i)));
        lemma_dec_val_prefix_le(s, i + 1);
    }
}

/// Parses a decimal string as an unsigned 64-bit counter.  Returns `None`
/// exactly where the string is empty, holds a character that is no decimal
/// digit, or encodes a value above `u64::MAX`.
pub fn parse_u64(s: &str) -> (r: Option<u64>)
    ensures
        r == spec_parse_u64(s@),
{
    let len = s.unicode_len();
    if len == 0 {
        return None;
    }
    let mut acc: u64 = 0;
    let mut i: usize = 0;
    while i < len
        invariant
            len == s@.len(),
            i <= len,
            all_dec_digits(s@.take(i as int)),
            acc == dec_val(s@.take(i as int)),
        decreases len - i,
    {
        let c = s.get_char(i);
        let v = c as u32;
        if v < 48 || v > 57 {
            return None;
        }
        let d = (v - 48) as u8;
        proof {
            lemma_dec_val_extend(s@, i as int);
        }
        let shifted = match acc.checked_mul(10) {
            Some(x) => x,
            None => {
                proof {
                    lemma_dec_val_prefix_le(s@, i + 1);
                }
                return None;
            },
        };
        acc = match shifted.checked_add(d as u64) {
            Some(x) => x,
            None => {
                proof {
                    lemma_dec_val_prefix_le(s@, i + 1);
                }
                return None;
            },
        };
        i = i + 1;
    }
    proof {
        assert(s@.take(len as int) =~= s@);
    }
    Some(acc)
}

/// A canonical decimal rendering is nonempty, all digits, and reads back as
/// the number it was written from.
pub proof fn lemma_dec_string_val(n: nat)
    ensures
        spec_dec_string(n).len() >= 1,
        all_dec_digits(spec_dec_string(n)),
        dec_val(spec_dec_string(n)) == n,
    decreases n,
{
    if n < 10 {
        let s = spec_dec_string(n);
        assert(s.drop_last() =~= Seq::<char>::empty());
        assert(dec_val(Seq::<char>::empty()) == 0);
        assert(dec_digit_val(s.last()) == n);
        assert(dec_val(s) == dec_val(s.drop_last()) * 10 + dec_digit_val(s.last()));
    } else {
        lemma_dec_string_val(n / 10);
        let s = spec_dec_string(n);
        let c = hex_digit_char((n % 10) as u8);
        assert(s.drop_last() =~= spec_dec_string(n / 10));
        assert(s.last() == c);
        assert(dec_digit_val(c) == n % 10);
        assert(dec_val(s) == (n / 10) * 10 + n % 10);
        assert(n == (n / 10) * 10 + n % 10) by (nonlinear_arith);
    }
}

/// Rendering a counter and parsing the rendering back is the identity.
pub proof fn lemma_dec_round_trip(n: u64)
    ensures
        spec_parse_u64(spec_dec_string(n as nat)) == Some(n),
{
    lemma_dec_string_val(n as nat);
}

} // verus!
