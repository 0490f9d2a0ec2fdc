//! Derivation of key and nonce material from human-entered strings.
//!
//! A passphrase of at most [`MAX_KEY_LENGTH`](crate::MAX_KEY_LENGTH) bytes
//! is zero-padded on the right to exactly that length; this is a direct,
//! reversible padding, deliberately not a key-derivation function. A nonce
//! comes from one of three sources: the all-zero nonce, a user string of at
//! most [`NONCE_LENGTH`](crate::NONCE_LENGTH) bytes (zero-padded the same
//! way), or a fresh draw from a cryptographically secure random source.

use vstd::prelude::*;

use crate::errors::SimpleCipherError;
use crate::hexstr::{all_hex_digits, hex_bytes_of, hex_decoded, lemma_hex_bytes_of_digits,
    lemma_hex_round_trip};
use crate::{MAX_KEY_LENGTH, NONCE_HEX_LENGTH, NONCE_LENGTH};

verus! {

/// `b` right-padded with zero bytes to length `n` (`b` itself if longer).
pub open spec fn zero_padded(b: Seq<u8>, n: int) -> Seq<u8> {
    if b.len() <= n {
        b + Seq::new((n - b.len()) as nat, |i: int| 0u8)
    } else {
        b
    }
}

/// The all-zero nonce.
pub open spec fn all_zero_nonce() -> Seq<u8> {
    Seq::new(NONCE_LENGTH as nat, |i: int| 0u8)
}

/// The key owed for a passphrase's bytes: the bytes zero-padded to
/// [`MAX_KEY_LENGTH`](crate::MAX_KEY_LENGTH), owed exactly when they fit.
pub open spec fn spec_derive_key(p: Seq<u8>) -> Result<Seq<u8>, SimpleCipherError> {
    if p.len() > MAX_KEY_LENGTH {
        Err(SimpleCipherError::KeyTooLong(p.len() as usize))
    } else {
        Ok(zero_padded(p, MAX_KEY_LENGTH as int))
    }
}

/// The nonce owed for a nonce string's bytes: a string of at most
/// [`NONCE_LENGTH`](crate::NONCE_LENGTH) bytes is zero-padded; a string of
/// exactly [`NONCE_HEX_LENGTH`](crate::NONCE_HEX_LENGTH) hexadecimal digits
/// is the fixed-width form of a generated nonce and decodes to it; any
/// other string is rejected with its length.
pub open spec fn spec_nonce_from_bytes(b: Seq<u8>) -> Result<Seq<u8>, SimpleCipherError> {
    if b.len() <= NONCE_LENGTH {
        Ok(zero_padded(b, NONCE_LENGTH as int))
    } else if b.len() == NONCE_HEX_LENGTH && all_hex_digits(b) {
        Ok(hex_decoded(b))
    } else {
        Err(SimpleCipherError::NonceTooLong(b.len() as usize))
    }
}

/// True when the exec result carries exactly what the spec-level result
/// says: the same bytes on success, the same error on failure.
pub open spec fn bytes_result_matches(
    r: Result<Vec<u8>, SimpleCipherError>,
    s: Result<Seq<u8>, SimpleCipherError>,
) -> bool {
    match r {
        Ok(v) => s matches Ok(sv) && v@ == sv,
        Err(e) => s matches Err(se) && e == se,
    }
}

/// A generated nonce round-trips through its string form: deriving a nonce
/// from the fixed-width hexadecimal rendering of 24 nonce bytes yields
/// exactly those bytes.
pub proof fn lemma_nonce_string_round_trip(n: Seq<u8>)
    requires
        n.len() == NONCE_LENGTH,
    ensures
        spec_nonce_from_bytes(hex_bytes_of(n)) == Ok::<Seq<u8>, SimpleCipherError>(n),
{
    lemma_hex_bytes_of_digits(n);
    lemma_hex_round_trip(n);
}

/// Append zero bytes to `v` until it is `n` bytes long.
pub fn zero_pad_to(v: &mut Vec<u8>, n: usize)
    requires
        old(v)@.len() <= n,
    ensures
        final(v)@ == zero_padded(old(v)@, n as int),
{
    let ghost b0 = v@;
    while v.len() < n
        invariant
            b0.len() <= v@.len() <= n,
            v@ == zero_padded(b0, v@.len() as int),
        decreases n - v@.len(),
    {
        v.push(0);
        proof {
            assert(v@ =~= zero_padded(b0, v@.len() as int));
        }
    }
}

/// A sequence of ASCII bytes is valid UTF-8.
pub proof fn lemma_ascii_bytes_valid_utf8(b: Seq<u8>)
    requires
        forall|i: int| 0 <= i < b.len() ==> #[trigger] b[i] < 0x80,
    ensures
        vstd::utf8::valid_utf8(b),
{
    assert(b.subrange(0, 0) =~= Seq::<u8>::empty());
    assert(vstd::utf8::partial_valid_utf8(b, 0));
    assert(forall|i: int|
        0 <= 0 <= i < b.len() <= b.len() ==> #[trigger] vstd::utf8::is_leading_byte_width_1(b[i]));
    vstd::utf8::partial_valid_utf8_extend_ascii_block(b, 0, b.len() as int);
    assert(b.subrange(0, b.len() as int) =~= b);
}

/// Relies on rand::random: [`NONCE_LENGTH`](crate::NONCE_LENGTH) bytes
/// drawn from the thread-local cryptographically secure generator. Nothing
/// is promised of the drawn values.
#[verifier::external_body]
pub(crate) fn random_nonce_bytes() -> (r: Vec<u8>)
    ensures
        r@.len() == NONCE_LENGTH,
{
    let bytes: [u8; NONCE_LENGTH] = rand::random();
    bytes.to_vec()
}

/// Relies on String::from_utf8: it succeeds exactly on valid UTF-8 input
/// and returns the string of the characters that the bytes encode.
#[verifier::external_body]
pub(crate) fn bytes_to_string(v: Vec<u8>) -> (r: Option<String>)
    ensures
        r is Some <==> vstd::utf8::valid_utf8(v@),
        r matches Some(s) ==> s@ == vstd::utf8::decode_utf8(v@),
{
    String::from_utf8(v).ok()
}

} // verus!
