//! The cipher engine: authenticated encryption and decryption with
//! XChaCha20-Poly1305, a 256-bit-key, extended-nonce AEAD construction.
//!
//! The primitive itself is outside code; what this module states of it is
//! said over the name [`sealed`], the ciphertext the construction produces
//! for a key, a nonce and a plaintext. Opening verifies the authentication
//! tag before releasing any plaintext, and reports every failure as the
//! one opaque [`SimpleCipherError::AuthenticationFailed`].

use chacha20poly1305::aead::Aead;
use chacha20poly1305::{Key, KeyInit, XChaCha20Poly1305, XNonce};
use vstd::prelude::*;

use crate::errors::SimpleCipherError;

verus! {

/// Greatest plaintext byte length the cipher serves. The 32-bit block
/// counter spans 4294967295 64-byte ChaCha20 blocks, but the first
/// keystream block feeds the Poly1305 key and the stream cipher refuses to
/// run past the counter's last value, leaving 4294967294 blocks for the
/// plaintext.
pub const MAX_PLAINTEXT_LENGTH: u64 = 64 * 4294967294;

/// Byte length of the Poly1305 authentication tag appended to a ciphertext.
pub const TAG_LENGTH: usize = 16;

/// Greatest byte length of a ciphertext the cipher can have produced: the
/// plaintext limit plus the tag.
pub const MAX_CIPHERTEXT_LENGTH: u64 = MAX_PLAINTEXT_LENGTH + 16;

/// The ciphertext that XChaCha20-Poly1305 produces for a key, a nonce and
/// a plaintext. The construction is deterministic: the result depends on
/// these three arguments alone.
pub uninterp spec fn sealed(key: Seq<u8>, nonce: Seq<u8>, msg: Seq<u8>) -> Seq<u8>;

/// Relies on chacha20poly1305::XChaCha20Poly1305, through KeyInit::new and
/// Aead::encrypt: for a 32-byte key and a 24-byte nonce, encrypting a
/// plaintext within the cipher's length limit always succeeds, the result
/// is a deterministic function of key, nonce and plaintext, and it is the
/// ciphertext body followed by the 16-byte tag.
#[verifier::external_body]
fn aead_seal(key: &Vec<u8>, nonce: &Vec<u8>, msg: &Vec<u8>) -> (r: Vec<u8>)
    requires
        key@.len() == 32,
        nonce@.len() == 24,
        msg@.len() <= MAX_PLAINTEXT_LENGTH,
    ensures
        r@ == sealed(key@, nonce@, msg@),
        r@.len() == msg@.len() + TAG_LENGTH,
{
    let cipher = XChaCha20Poly1305::new(&Key::try_from(key.as_slice()).expect("key is 32 bytes"));
    let xnonce = XNonce::try_from(nonce.as_slice()).expect("nonce is 24 bytes");
    cipher.encrypt(&xnonce, msg.as_slice()).expect("plaintext is within the cipher's length limit")
}

/// Relies on chacha20poly1305::XChaCha20Poly1305, through KeyInit::new and
/// Aead::decrypt: decryption verifies the authentication tag before
/// releasing any plaintext; it returns exactly the plaintext whose
/// encryption under the same key and nonce is the given ciphertext, and
/// fails on every ciphertext that no such plaintext produced. The length
/// bound keeps the call clear of the keystream's end, which the stream
/// cipher refuses to run past.
#[verifier::external_body]
fn aead_open(key: &Vec<u8>, nonce: &Vec<u8>, ciphertext: &Vec<u8>) -> (r: Option<Vec<u8>>)
    requires
        key@.len() == 32,
        nonce@.len() == 24,
        ciphertext@.len() <= MAX_CIPHERTEXT_LENGTH,
    ensures
        r matches Some(p) ==> p@.len() <= MAX_PLAINTEXT_LENGTH && ciphertext@ == sealed(
            key@,
            nonce@,
            p@,
        ),
        r matches Some(p) ==> forall|m: Seq<u8>|
            m.len() <= MAX_PLAINTEXT_LENGTH && ciphertext@ == #[trigger] sealed(key@, nonce@, m)
                ==> p@ == m,
        r is None ==> forall|m: Seq<u8>|
            m.len() <= MAX_PLAINTEXT_LENGTH ==> ciphertext@ != #[trigger] sealed(key@, nonce@, m),
{
    let cipher = XChaCha20Poly1305::new(&Key::try_from(key.as_slice()).expect("key is 32 bytes"));
    let xnonce = XNonce::try_from(nonce.as_slice()).expect("nonce is 24 bytes");
    cipher.decrypt(&xnonce, ciphertext.as_slice()).ok()
}

/// Authenticated encryption: the ciphertext of `msg` under a derived key
/// and nonce, with its authentication tag appended.
pub fn seal(key: &Vec<u8>, nonce: &Vec<u8>, msg: &Vec<u8>) -> (r: Vec<u8>)
    requires
        key@.len() == 32,
        nonce@.len() == 24,
        msg@.len() <= MAX_PLAINTEXT_LENGTH,
    ensures
        r@ == sealed(key@, nonce@, msg@),
        r@.len() == msg@.len() + TAG_LENGTH,
{
    aead_seal(key, nonce, msg)
}

/// Authenticated decryption: the plaintext whose sealing under the given
/// key and nonce is exactly `ciphertext`, and the opaque
/// [`SimpleCipherError::AuthenticationFailed`] when there is none. A
/// ciphertext longer than the cipher can have produced is refused here,
/// before the cipher is consulted.
pub fn open(key: &Vec<u8>, nonce: &Vec<u8>, ciphertext: &Vec<u8>) -> (r: Result<
    Vec<u8>,
    SimpleCipherError,
>)
    requires
        key@.len() == 32,
        nonce@.len() == 24,
    ensures
        r matches Ok(p) ==> p@.len() <= MAX_PLAINTEXT_LENGTH && ciphertext@ == sealed(
            key@,
            nonce@,
            p@,
        ),
        ciphertext@.len() <= MAX_CIPHERTEXT_LENGTH ==> forall|m: Seq<u8>|
            m.len() <= MAX_PLAINTEXT_LENGTH && ciphertext@ == #[trigger] sealed(key@, nonce@, m)
                ==> (r matches Ok(p) && p@ == m),
        ciphertext@.len() > MAX_CIPHERTEXT_LENGTH ==> r is Err,
        r matches Err(e) ==> e == SimpleCipherError::AuthenticationFailed,
{
    if ciphertext.len() as u64 > MAX_CIPHERTEXT_LENGTH {
        return Err(SimpleCipherError::AuthenticationFailed);
    }
    match aead_open(key, nonce, ciphertext) {
        Some(p) => Ok(p),
        None => Err(SimpleCipherError::AuthenticationFailed),
    }
}

/// Sealing is deterministic: two encryptions of one message under one key
/// and one nonce yield one and the same ciphertext. In particular, two
/// all-zero-nonce encryptions of the same message under the same
/// passphrase are identical — the documented replay weakness of that mode.
pub proof fn lemma_seal_deterministic(
    key: Seq<u8>,
    nonce: Seq<u8>,
    msg: Seq<u8>,
    c1: Seq<u8>,
    c2: Seq<u8>,
)
    requires
        c1 == sealed(key, nonce, msg),
        c2 == sealed(key, nonce, msg),
    ensures
        c1 == c2,
{
}

} // verus!
