//! A symmetric authenticated-encryption facility: a human-entered
//! passphrase and an optional human-entered nonce are mapped onto the
//! fixed-width key and nonce that an extended-nonce AEAD construction
//! requires, and messages are sealed to and opened from authenticated
//! ciphertexts.
//!
//! Key derivation is deliberately a direct, reversible zero-padding of the
//! passphrase bytes, not a key-derivation function: that is the documented
//! contract of this facility, not a security recommendation.

pub mod engine;
pub mod errors;
pub mod hexstr;
pub mod material;

pub use errors::SimpleCipherError;

use vstd::prelude::*;
use vstd::slice::slice_to_vec;
use vstd::utf8::{decode_utf8, encode_utf8, valid_utf8};

use crate::engine::{open, seal, sealed, MAX_CIPHERTEXT_LENGTH, MAX_PLAINTEXT_LENGTH, TAG_LENGTH};
use crate::hexstr::{hex_bytes_of, hex_encode};
use crate::material::{
    all_zero_nonce, bytes_result_matches, bytes_to_string, lemma_ascii_bytes_valid_utf8,
    random_nonce_bytes, spec_derive_key, spec_nonce_from_bytes, zero_pad_to, zero_padded,
};

verus! {

broadcast use {
    vstd::utf8::encode_utf8_valid_utf8,
    vstd::utf8::encode_utf8_decode_utf8,
    vstd::utf8::decode_utf8_encode_utf8,
};

/// Greatest byte length of a passphrase; shorter ones are zero-padded.
pub const MAX_KEY_LENGTH: usize = 32;

/// Byte length of a nonce for the extended-nonce AEAD construction.
pub const NONCE_LENGTH: usize = 24;

/// Byte length of the fixed-width hexadecimal form of a generated nonce.
pub const NONCE_HEX_LENGTH: usize = 2 * NONCE_LENGTH;

/// The options a caller selects for one encryption or decryption: the
/// passphrase, and exactly one of three nonce sources — the all-zero
/// nonce, a freshly generated one, or a nonce string.
#[derive(Debug)]
pub struct CommonEncryptionOpts {
    /// The encryption passphrase; at most [`MAX_KEY_LENGTH`] bytes.
    pub key: String,
    /// **Not recommended:** use the all-zero nonce. The same key and
    /// message then always give the same ciphertext, opening the door to
    /// replay attacks.
    pub no_nonce: bool,
    /// Draw a fresh nonce at encryption time; rejected on decryption.
    pub generate_nonce: bool,
    /// A user-chosen nonce string of at most [`NONCE_LENGTH`] bytes, or
    /// the fixed-width form of a generated nonce.
    pub nonce: Option<String>,
}

impl CommonEncryptionOpts {
    /// The UTF-8 bytes of the passphrase.
    pub open spec fn key_bytes(&self) -> Seq<u8> {
        encode_utf8(self.key@)
    }

    /// The derived key, or the error owed for the passphrase.
    pub open spec fn spec_key(&self) -> Result<Seq<u8>, SimpleCipherError> {
        spec_derive_key(self.key_bytes())
    }

    /// The nonce the options determine where they determine one without
    /// drawing randomness; `None` where a nonce would be generated.
    pub open spec fn spec_nonce(&self) -> Option<Result<Seq<u8>, SimpleCipherError>> {
        if self.no_nonce {
            Some(Ok(all_zero_nonce()))
        } else if self.generate_nonce {
            None
        } else {
            match self.nonce {
                Some(s) => Some(spec_nonce_from_bytes(encode_utf8(s@))),
                None => Some(Err(SimpleCipherError::NonceChoiceUndetermined)),
            }
        }
    }

    /// The derived key where one is owed.
    pub open spec fn spec_key_value(&self) -> Seq<u8>
        recommends
            self.spec_key() is Ok,
    {
        match self.spec_key() {
            Ok(k) => k,
            Err(_) => Seq::empty(),
        }
    }

    /// The determined nonce where one is owed without drawing randomness.
    pub open spec fn spec_nonce_value(&self) -> Seq<u8>
        recommends
            self.spec_nonce() matches Some(Ok(_)),
    {
        match self.spec_nonce() {
            Some(Ok(n)) => n,
            _ => Seq::empty(),
        }
    }

    /// The error the derivations owe, where one is owed: the key error
    /// first, then the nonce error.
    pub open spec fn spec_derive_error(&self) -> Option<SimpleCipherError> {
        match self.spec_key() {
            Err(e) => Some(e),
            Ok(_) => match self.spec_nonce() {
                Some(Err(e)) => Some(e),
                _ => None,
            },
        }
    }

    /// The error decryption owes before it consults the cipher: nonce
    /// generation is rejected outright, then the derivations' own error.
    pub open spec fn spec_decrypt_error(&self) -> Option<SimpleCipherError> {
        if self.generate_nonce {
            Some(SimpleCipherError::NonceGenerateNotSupported)
        } else {
            self.spec_derive_error()
        }
    }

    /// With no nonce source selected and a passphrase within the key
    /// length, encryption and decryption owe exactly the
    /// undetermined-selection error: their contracts name it for these
    /// options. (With an over-long passphrase the key-length error comes
    /// first instead, since the key is derived before the nonce.)
    pub proof fn lemma_undetermined_selection(&self)
        requires
            !self.no_nonce,
            !self.generate_nonce,
            self.nonce is None,
            self.key_bytes().len() <= MAX_KEY_LENGTH,
        ensures
            self.spec_derive_error() == Some(SimpleCipherError::NonceChoiceUndetermined),
            self.spec_decrypt_error() == Some(SimpleCipherError::NonceChoiceUndetermined),
    {
    }

    /// Derive the key from the passphrase: its bytes zero-padded on the
    /// right to exactly [`MAX_KEY_LENGTH`], rejected with
    /// [`SimpleCipherError::KeyTooLong`] exactly when they are longer.
    pub fn get_key_from_string(&self) -> (r: Result<Vec<u8>, SimpleCipherError>)
        ensures
            bytes_result_matches(r, self.spec_key()),
            r matches Ok(k) ==> k@.len() == MAX_KEY_LENGTH,
    {
        let mut key = slice_to_vec(self.key.as_str().as_bytes());
        if key.len() > MAX_KEY_LENGTH {
            return Err(SimpleCipherError::KeyTooLong(key.len()));
        }
        zero_pad_to(&mut key, MAX_KEY_LENGTH);
        Ok(key)
    }

    /// Render a nonce as the string a caller can pass again later: its
    /// fixed-width lowercase hexadecimal digits, two per byte.
    pub fn stringify_nonce(nonce: &Vec<u8>) -> (r: String)
        ensures
            encode_utf8(r@) == hex_bytes_of(nonce@),
    {
        let hex = hex_encode(nonce);
        proof {
            crate::hexstr::lemma_hex_bytes_of_digits(nonce@);
            lemma_ascii_bytes_valid_utf8(hex@);
        }
        bytes_to_string(hex).unwrap()
    }

    /// Turn a nonce string into a nonce: a string of at most
    /// [`NONCE_LENGTH`] bytes is zero-padded on the right; a string of
    /// exactly [`NONCE_HEX_LENGTH`] hexadecimal digits is read as the
    /// fixed-width form of a generated nonce; any other string is rejected
    /// with [`SimpleCipherError::NonceTooLong`].
    pub fn nonce_from_string(nonce: &String) -> (r: Result<Vec<u8>, SimpleCipherError>)
        ensures
            bytes_result_matches(r, spec_nonce_from_bytes(encode_utf8(nonce@))),
            r matches Ok(v) ==> v@.len() == NONCE_LENGTH,
    {
        let mut bytes = slice_to_vec(nonce.as_str().as_bytes());
        if bytes.len() <= NONCE_LENGTH {
            zero_pad_to(&mut bytes, NONCE_LENGTH);
            Ok(bytes)
        } else if bytes.len() == NONCE_HEX_LENGTH {
            match crate::hexstr::hex_decode(&bytes) {
                Some(v) => Ok(v),
                None => Err(SimpleCipherError::NonceTooLong(bytes.len())),
            }
        } else {
            Err(SimpleCipherError::NonceTooLong(bytes.len()))
        }
    }

    /// Resolve the selected nonce source: the all-zero nonce, a freshly
    /// generated nonce, or one derived from the nonce string; an error
    /// when none of the three was selected or the string is rejected.
    pub fn nonce(&self) -> (r: Result<Vec<u8>, SimpleCipherError>)
        ensures
            self.spec_nonce() matches Some(s) ==> bytes_result_matches(r, s),
            self.spec_nonce() is None ==> r is Ok,
            r matches Ok(v) ==> v@.len() == NONCE_LENGTH,
    {
        if !self.no_nonce && self.nonce.is_none() && !self.generate_nonce {
            return Err(SimpleCipherError::NonceChoiceUndetermined);
        }
        if self.no_nonce {
            let mut nonce: Vec<u8> = Vec::new();
            zero_pad_to(&mut nonce, NONCE_LENGTH);
            proof {
                assert(zero_padded(Seq::<u8>::empty(), NONCE_LENGTH as int) =~= all_zero_nonce());
            }
            return Ok(nonce);
        }
        if self.generate_nonce {
            return Ok(random_nonce_bytes());
        }
        match &self.nonce {
            Some(s) => Self::nonce_from_string(s),
            None => Err(SimpleCipherError::NonceChoiceUndetermined),
        }
    }

    /// Encrypt `message` under the derived key and the selected nonce.
    ///
    /// Returns the authenticated ciphertext, together with the string form
    /// of the nonce when one was generated (to be passed again for
    /// decryption), and otherwise `None`. Errors are owed exactly as the
    /// key and nonce derivations owe them; with a derivable key and nonce,
    /// encryption always succeeds.
    pub fn encrypt(&self, message: String) -> (r: Result<
        (Vec<u8>, Option<String>),
        SimpleCipherError,
    >)
        requires
            encode_utf8(message@).len() <= MAX_PLAINTEXT_LENGTH,
        ensures
            self.spec_derive_error() matches Some(e) ==> (r matches Err(e2) && e2 == e),
            self.spec_derive_error() is None ==> (r matches Ok(p) && p.0@.len() == encode_utf8(
                message@,
            ).len() + TAG_LENGTH),
            self.spec_derive_error() is None && !self.generate_nonce ==> (r matches Ok(p) && p.0@
                == sealed(self.spec_key_value(), self.spec_nonce_value(), encode_utf8(message@))
                && p.1 is None),
            self.spec_derive_error() is None && self.generate_nonce && self.no_nonce ==> (
            r matches Ok(p) && p.0@ == sealed(
                self.spec_key_value(),
                self.spec_nonce_value(),
                encode_utf8(message@),
            ) && (p.1 matches Some(ns) && encode_utf8(ns@) == hex_bytes_of(
                self.spec_nonce_value(),
            ))),
            self.spec_derive_error() is None && self.generate_nonce && !self.no_nonce ==> (
            r matches Ok(p) && p.1 matches Some(ns) && exists|n: Seq<u8>|
                #![auto]
                n.len() == NONCE_LENGTH && p.0@ == sealed(
                    self.spec_key_value(),
                    n,
                    encode_utf8(message@),
                ) && encode_utf8(ns@) == hex_bytes_of(n)),
    {
        let key = match self.get_key_from_string() {
            Ok(k) => k,
            Err(e) => {
                return Err(e);
            },
        };
        let nonce = match self.nonce() {
            Ok(n) => n,
            Err(e) => {
                return Err(e);
            },
        };
        let msg_bytes = slice_to_vec(message.as_str().as_bytes());
        let ciphertext = seal(&key, &nonce, &msg_bytes);
        if self.generate_nonce {
            let ns = Self::stringify_nonce(&nonce);
            proof {
                assert(nonce@.len() == NONCE_LENGTH && ciphertext@ == sealed(
                    key@,
                    nonce@,
                    encode_utf8(message@),
                ) && encode_utf8(ns@) == hex_bytes_of(nonce@));
            }
            Ok((ciphertext, Some(ns)))
        } else {
            Ok((ciphertext, None))
        }
    }

    /// Decrypt `ciphertext` under the derived key and the selected nonce.
    ///
    /// Nonce generation is rejected outright. The authentication tag is
    /// verified before any plaintext is released: the result is the
    /// message whose sealing under this key and nonce is exactly
    /// `ciphertext`, the opaque
    /// [`SimpleCipherError::AuthenticationFailed`] when there is none —
    /// whether from a wrong key, a wrong nonce or tampering is deliberately
    /// not distinguished — and [`SimpleCipherError::InvalidEncoding`] when
    /// the authenticated bytes are not valid UTF-8. A ciphertext longer
    /// than the cipher can have produced is never genuine and fails the
    /// same opaque way.
    pub fn decrypt(&self, ciphertext: &Vec<u8>) -> (r: Result<String, SimpleCipherError>)
        ensures
            self.spec_decrypt_error() matches Some(e) ==> (r matches Err(e2) && e2 == e),
            self.spec_decrypt_error() is None && ciphertext@.len() > MAX_CIPHERTEXT_LENGTH ==> (
            r matches Err(e) && e == SimpleCipherError::AuthenticationFailed),
            self.spec_decrypt_error() is None && ciphertext@.len() <= MAX_CIPHERTEXT_LENGTH ==> ({
                let k = self.spec_key_value();
                let n = self.spec_nonce_value();
                &&& forall|m: Seq<u8>|
                    m.len() <= MAX_PLAINTEXT_LENGTH && ciphertext@ == #[trigger] sealed(k, n, m)
                        && valid_utf8(m) ==> (r matches Ok(s) && s@ == decode_utf8(m))
                &&& forall|m: Seq<u8>|
                    m.len() <= MAX_PLAINTEXT_LENGTH && ciphertext@ == #[trigger] sealed(k, n, m)
                        && !valid_utf8(m) ==> (r matches Err(e) && e
                        == SimpleCipherError::InvalidEncoding)
                &&& forall|p: Seq<char>|
                    encode_utf8(p).len() <= MAX_PLAINTEXT_LENGTH && ciphertext@ == #[trigger] sealed(
                        k,
                        n,
                        encode_utf8(p),
                    ) ==> (r matches Ok(s) && s@ == p)
                &&& (r matches Ok(s) ==> exists|m: Seq<u8>|
                    #![auto]
                    ciphertext@ == sealed(k, n, m) && m == encode_utf8(s@))
                &&& ((forall|m: Seq<u8>|
                    m.len() <= MAX_PLAINTEXT_LENGTH ==> ciphertext@ != #[trigger] sealed(k, n, m))
                    ==> (r matches Err(e) && e == SimpleCipherError::AuthenticationFailed))
            }),
    {
        if self.generate_nonce {
            return Err(SimpleCipherError::NonceGenerateNotSupported);
        }
        let key = match self.get_key_from_string() {
            Ok(k) => k,
            Err(e) => {
                return Err(e);
            },
        };
        let nonce = match self.nonce() {
            Ok(n) => n,
            Err(e) => {
                return Err(e);
            },
        };
        proof {
            assert(key@ == self.spec_key_value());
            assert(nonce@ == self.spec_nonce_value());
        }
        let plain = match open(&key, &nonce, ciphertext) {
            Ok(p) => p,
            Err(e) => {
                return Err(e);
            },
        };
        let ghost pbytes = plain@;
        match bytes_to_string(plain) {
            Some(s) => {
                proof {
                    assert(encode_utf8(s@) == pbytes);
                    assert(exists|m: Seq<u8>|
                        #![auto]
                        ciphertext@ == sealed(key@, nonce@, m) && m == encode_utf8(s@)) by {
                        assert(ciphertext@ == sealed(key@, nonce@, pbytes) && pbytes == encode_utf8(
                            s@,
                        ));
                    }
                }
                Ok(s)
            },
            None => Err(SimpleCipherError::InvalidEncoding),
        }
    }
}

} // verus!
