//! Lowercase hexadecimal rendering and parsing of byte strings.
//!
//! Transaction fields carry byte values as hex text, usually behind a `0x`
//! prefix; the signing message arrives the same way.  Encoding and decoding
//! are proved against the digit-level specification below.

use vstd::prelude::*;
use vstd::string::StrSliceExecFns;

verus! {

/// The character standing for one value below sixteen, lowercase.
pub open spec fn hex_digit_char(d: u8) -> char
    recommends
        d < 16,
{
    if d == 0 {
        '0'
    } else if d == 1 {
        '1'
    } else if d == 2 {
        '2'
    } else if d == 3 {
        '3'
    } else if d == 4 {
        '4'
    } else if d == 5 {
        '5'
    } else if d == 6 {
        '6'
    } else if d == 7 {
        '7'
    } else if d == 8 {
        '8'
    } else if d == 9 {
        '9'
    } else if d == 10 {
        'a'
    } else if d == 11 {
        'b'
    } else if d == 12 {
        'c'
    } else if d == 13 {
        'd'
    } else if d == 14 {
        'e'
    } else {
        'f'
    }
}

/// The value of one hex digit character, either case, or `None` where the
/// character is no hex digit.
pub open spec fn hex_digit_value(c: char) -> Option<u8> {
    let v = c as u32;
    if 48 <= v && v <= 57 {
        Some((v - 48) as u8)
    } else if 97 <= v && v <= 102 {
        Some((v - 87) as u8)
    } else if 65 <= v && v <= 70 {
        Some((v - 55) as u8)
    } else {
        None
    }
}

/// The lowercase hex rendering of a byte string: two digits per byte, high
/// nibble first.
pub open spec fn spec_hex_encode(bytes: Seq<u8>) -> Seq<char> {
    Seq::new(
        2 * bytes.len(),
        |i: int|
            if i % 2 == 0 {
                hex_digit_char(bytes[i / 2] >> 4)
            } else {
                hex_digit_char(bytes[i / 2] & 0x0f)
            },
    )
}

/// Whether a character string is a well-formed hex rendering: even length,
/// every character a hex digit.
pub open spec fn is_hex_seq(s: Seq<char>) -> bool {
    &&& s.len() % 2 == 0
    &&& forall|i: int| 0 <= i < s.len() ==> (#[trigger] hex_digit_value(s[i])) is Some
}

/// The bytes a well-formed hex string stands for.
pub open spec fn spec_hex_decode(s: Seq<char>) -> Seq<u8>
    recommends
        is_hex_seq(s),
{
    Seq::new(
        s.len() / 2,
        |i: int| (hex_digit_value(s[2 * i]).unwrap() * 16 + hex_digit_value(s[2 * i + 1]).unwrap()) as u8,
    )
}

/// Relies on `String::push`: it appends exactly the one character.
#[verifier::external_body]
pub(crate) fn string_push(s: &mut String, c: char)
    ensures
        final(s)@ == old(s)@.push(c),
{
    s.push(c);
}

/// The character for a value below sixteen, as the spec renders it.
pub(crate) fn hex_digit(d: u8) -> (r: char)
    requires
        d < 16,
    ensures
        r == hex_digit_char(d),
{
    if d == 0 {
        '0'
    } else if d == 1 {
        '1'
    } else if d == 2 {
        '2'
    } else if d == 3 {
        '3'
    } else if d == 4 {
        '4'
    } else if d == 5 {
        '5'
    } else if d == 6 {
        '6'
    } else if d == 7 {
        '7'
    } else if d == 8 {
        '8'
    } else if d == 9 {
        '9'
    } else if d == 10 {
        'a'
    } else if d == 11 {
        'b'
    } else if d == 12 {
        'c'
    } else if d == 13 {
        'd'
    } else if d == 14 {
        'e'
    } else {
        'f'
    }
}

/// Renders bytes as lowercase hex, two digits per byte, high nibble first.
pub fn hex_encode(bytes: &[u8]) -> (r: String)
    ensures
        r@ == spec_hex_encode(bytes@),
{
    let mut r = String::new();
    let mut i: usize = 0;
    while i < bytes.len()
        invariant
            i <= bytes@.len(),
            r@ =~= spec_hex_encode(bytes@.take(i as int)),
        decreases bytes@.len() - i,
    {
        let b = bytes[i];
        proof {
            assert((b >> 4) < 16 && (b & 0x0f) < 16) by (bit_vector);
        }
        string_push(&mut r, hex_digit(b >> 4));
        string_push(&mut r, hex_digit(b & 0x0f));
        proof {
            assert(spec_hex_encode(bytes@.take(i + 1)) =~= spec_hex_encode(bytes@.take(i as int))
                .push(hex_digit_char(b >> 4)).push(hex_digit_char(b & 0x0f)));
        }
        i = i + 1;
    }
    proof {
        assert(bytes@.take(bytes@.len() as int) =~= bytes@);
    }
    r
}

/// The value of one hex digit character, as the spec reads it.
pub(crate) fn hex_digit_val(c: char) -> (r: Option<u8>)
    ensures
        r == hex_digit_value(c),
{
    let v = c as u32;
    if 48 <= v && v <= 57 {
        Some((v - 48) as u8)
    } else if 97 <= v && v <= 102 {
        Some((v - 87) as u8)
    } else if 65 <= v && v <= 70 {
        Some((v - 55) as u8)
    } else {
        None
    }
}

/// Parses a hex string back into bytes.  Returns `None` exactly where the
/// string is no well-formed hex rendering: odd length, or a character that
/// is no hex digit.
pub fn hex_decode(s: &str) -> (r: Option<Vec<u8>>)
    ensures
        r is Some <==> is_hex_seq(s@),
        r matches Some(v) ==> v@ == spec_hex_decode(s@),
{
    let len = s.unicode_len();
    if len % 2 != 0 {
        return None;
    }
    let half: usize = len / 2;
    let mut out: Vec<u8> = Vec::new();
    let mut j: usize = 0;
    while j < half
        invariant
            len == s@.len(),
            len % 2 == 0,
            half == len / 2,
            j <= half,
            out@.len() == j,
            forall|k: int| 0 <= k < 2 * j ==> (#[trigger] hex_digit_value(s@[k])) is Some,
            forall|k: int|
                0 <= k < j ==> out@[k] == (hex_digit_value(s@[2 * k]).unwrap() * 16 + hex_digit_value(
                    s@[2 * k + 1],
                ).unwrap()) as u8,
        decreases half - j,
    {
        let c1 = s.get_char(2 * j);
        let c2 = s.get_char(2 * j + 1);
        let v1 = match hex_digit_val(c1) {
            Some(v) => v,
            None => {
                return None;
            },
        };
        let v2 = match hex_digit_val(c2) {
            Some(v) => v,
            None => {
                return None;
            },
        };
        out.push(v1 * 16 + v2);
        j = j + 1;
    }
    proof {
        assert(out@ =~= spec_hex_decode(s@));
    }
    Some(out)
}

/// Each digit character reads back as the value it was written from.
pub proof fn lemma_hex_digit_round_trip(d: u8)
    requires
        d < 16,
    ensures
        hex_digit_value(hex_digit_char(d)) == Some(d),
{
}

/// Rendering bytes as hex and reading the rendering back is the identity:
/// the rendering is well formed and decodes to the original bytes.
pub proof fn lemma_hex_round_trip(bytes: Seq<u8>)
    ensures
        is_hex_seq(spec_hex_encode(bytes)),
        spec_hex_decode(spec_hex_encode(bytes)) == bytes,
{
    let s = spec_hex_encode(bytes);
    assert forall|i: int| 0 <= i < s.len() implies (#[trigger] hex_digit_value(s[i])) is Some by {
        let b = bytes[i / 2];
        assert((b >> 4) < 16 && (b & 0x0f) < 16) by (bit_vector);
        if i % 2 == 0 {
            lemma_hex_digit_round_trip(b >> 4);
        } else {
            lemma_hex_digit_round_trip(b & 0x0f);
        }
    }
    assert forall|i: int| 0 <= i < bytes.len() implies spec_hex_decode(s)[i] == bytes[i] by {
        let b = bytes[i];
        assert((b >> 4) < 16 && (b & 0x0f) < 16) by (bit_vector);
        lemma_hex_digit_round_trip(b >> 4);
        lemma_hex_digit_round_trip(b & 0x0f);
        assert(s[2 * i] == hex_digit_char(b >> 4));
        assert(s[2 * i + 1] == hex_digit_char(b & 0x0f));
        assert(((b >> 4) * 16 + (b & 0x0f)) as u8 == b) by (bit_vector);
    }
    assert(spec_hex_decode(s) =~= bytes);
}

} // verus!
