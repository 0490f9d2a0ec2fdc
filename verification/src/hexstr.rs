//! Fixed-width lowercase hexadecimal rendering of byte sequences.
//!
//! A generated nonce is arbitrary bytes, so it cannot be handed back to the
//! user as raw text; it travels as its hexadecimal digits instead, two per
//! byte, which decode exactly back to the original bytes.

use vstd::prelude::*;

verus! {

/// The byte of the lowercase hexadecimal digit for a value below 16.
pub open spec fn hex_digit(v: u8) -> u8
    recommends
        v < 16,
{
    if v < 10 {
        (0x30 + v) as u8
    } else {
        (0x57 + v) as u8
    }
}

/// True of the bytes of the lowercase hexadecimal digits `0`-`9`, `a`-`f`.
pub open spec fn is_hex_digit(b: u8) -> bool {
    (0x30 <= b && b <= 0x39) || (0x61 <= b && b <= 0x66)
}

/// The value of a lowercase hexadecimal digit byte.
pub open spec fn hex_digit_value(b: u8) -> u8
    recommends
        is_hex_digit(b),
{
    if b <= 0x39 {
        (b - 0x30) as u8
    } else {
        (b - 0x57) as u8
    }
}

/// True when every byte of `s` is a lowercase hexadecimal digit.
pub open spec fn all_hex_digits(s: Seq<u8>) -> bool {
    forall|i: int| 0 <= i < s.len() ==> is_hex_digit(#[trigger] s[i])
}

/// The hexadecimal rendering of a byte sequence: two digit bytes per byte,
/// high nibble first.
pub open spec fn hex_bytes_of(b: Seq<u8>) -> Seq<u8> {
    Seq::new(
        2 * b.len(),
        |i: int|
            if i % 2 == 0 {
                hex_digit(b[i / 2] / 16)
            } else {
                hex_digit(b[i / 2] % 16)
            },
    )
}

/// The bytes denoted by a sequence of hexadecimal digit bytes, two per byte.
pub open spec fn hex_decoded(s: Seq<u8>) -> Seq<u8> {
    Seq::new(s.len() / 2, |i: int| (hex_digit_value(s[2 * i]) * 16 + hex_digit_value(s[2 * i + 1])) as u8)
}

/// A hexadecimal digit byte denotes a value below 16, is itself a digit,
/// and decodes back to the value it was made from.
proof fn lemma_hex_digit(v: u8)
    requires
        v < 16,
    ensures
        is_hex_digit(hex_digit(v)),
        hex_digit_value(hex_digit(v)) == v,
        hex_digit(v) < 0x80,
{
}

/// Every byte of a hexadecimal rendering is a digit, and in particular an
/// ASCII byte.
pub proof fn lemma_hex_bytes_of_digits(b: Seq<u8>)
    ensures
        all_hex_digits(hex_bytes_of(b)),
        forall|i: int| 0 <= i < hex_bytes_of(b).len() ==> #[trigger] hex_bytes_of(b)[i] < 0x80,
{
    assert forall|i: int| 0 <= i < hex_bytes_of(b).len() implies is_hex_digit(#[trigger] hex_bytes_of(b)[i])
        && hex_bytes_of(b)[i] < 0x80 by {
        if i % 2 == 0 {
            lemma_hex_digit(b[i / 2] / 16);
        } else {
            lemma_hex_digit(b[i / 2] % 16);
        }
    }
}

/// Rendering bytes as hexadecimal digits and decoding the digits yields the
/// original bytes.
pub proof fn lemma_hex_round_trip(b: Seq<u8>)
    ensures
        hex_decoded(hex_bytes_of(b)) == b,
{
    let h = hex_bytes_of(b);
    assert forall|i: int| 0 <= i < b.len() implies #[trigger] hex_decoded(h)[i] == b[i] by {
        lemma_hex_digit(b[i] / 16);
        lemma_hex_digit(b[i] % 16);
        assert(h[2 * i] == hex_digit(b[i] / 16));
        assert(h[2 * i + 1] == hex_digit(b[i] % 16));
    }
    assert(hex_decoded(h) =~= b);
}

/// The exec counterpart of [`hex_digit`].
fn hex_digit_byte(v: u8) -> (r: u8)
    requires
        v < 16,
    ensures
        r == hex_digit(v),
{
    if v < 10 {
        0x30 + v
    } else {
        0x57 + v
    }
}

/// The exec counterpart of [`hex_digit_value`]: `None` for a byte that is
/// not a lowercase hexadecimal digit.
fn hex_digit_val(b: u8) -> (r: Option<u8>)
    ensures
        r is Some <==> is_hex_digit(b),
        r matches Some(v) ==> v == hex_digit_value(b) && v < 16,
{
    if 0x30 <= b && b <= 0x39 {
        Some(b - 0x30)
    } else if 0x61 <= b && b <= 0x66 {
        Some(b - 0x57)
    } else {
        None
    }
}

/// Render bytes as their hexadecimal digits, two per byte.
pub fn hex_encode(bytes: &Vec<u8>) -> (r: Vec<u8>)
    ensures
        r@ == hex_bytes_of(bytes@),
{
    let mut out: Vec<u8> = Vec::new();
    let mut i: usize = 0;
    while i < bytes.len()
        invariant
            i <= bytes@.len(),
            out@ == hex_bytes_of(bytes@.take(i as int)),
        decreases bytes@.len() - i,
    {
        let b = bytes[i];
        out.push(hex_digit_byte(b / 16));
        out.push(hex_digit_byte(b % 16));
        i = i + 1;
        proof {
            assert(out@ =~= hex_bytes_of(bytes@.take(i as int)));
        }
    }
    proof {
        assert(bytes@.take(bytes@.len() as int) =~= bytes@);
    }
    out
}

/// Decode a sequence of hexadecimal digit bytes, two per byte: `None` when
/// the length is odd or some byte is not a digit.
pub fn hex_decode(s: &Vec<u8>) -> (r: Option<Vec<u8>>)
    ensures
        r is Some <==> (s@.len() % 2 == 0 && all_hex_digits(s@)),
        r matches Some(v) ==> v@ == hex_decoded(s@),
{
    if s.len() % 2 != 0 {
        return None;
    }
    let mut out: Vec<u8> = Vec::new();
    let mut i: usize = 0;
    while i < s.len()
        invariant
            s@.len() % 2 == 0,
            i % 2 == 0,
            i <= s@.len(),
            out@ == hex_decoded(s@.take(i as int)),
            forall|j: int| 0 <= j < i ==> is_hex_digit(#[trigger] s@[j]),
        decreases s@.len() - i,
    {
        let hi = match hex_digit_val(s[i]) {
            Some(v) => v,
            None => {
                return None;
            },
        };
        let lo = match hex_digit_val(s[i + 1]) {
            Some(v) => v,
            None => {
                return None;
            },
        };
        out.push(hi * 16 + lo);
        i = i + 2;
        proof {
            assert(out@ =~= hex_decoded(s@.take(i as int)));
        }
    }
    proof {
        assert(s@.take(s@.len() as int) =~= s@);
    }
    Some(out)
}

} // verus!
