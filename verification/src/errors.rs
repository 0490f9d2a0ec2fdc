use vstd::prelude::*;

verus! {

/// The errors that the cipher facility surfaces to its caller.
///
/// `AuthenticationFailed` deliberately carries no detail about which
/// integrity check failed (wrong key, wrong nonce, truncation or
/// tampering), so that a caller cannot be used as a decryption oracle.
/// `InvalidEncoding` is only reachable after successful authentication,
/// so it is safe to report separately.
#[derive(Debug, Clone, Copy, PartialEq, Eq, Structural)]
pub enum SimpleCipherError {
    /// The passphrase exceeds the key length; carries its byte length.
    KeyTooLong(usize),
    /// The nonce string exceeds the nonce length and is not the fixed-width
    /// form of a generated nonce; carries its byte length.
    NonceTooLong(usize),
    /// None of the three nonce sources was selected.
    NonceChoiceUndetermined,
    /// Nonce generation was requested during decryption.
    NonceGenerateNotSupported,
    /// The ciphertext failed the integrity and authenticity check.
    AuthenticationFailed,
    /// The authenticated plaintext is not valid UTF-8.
    InvalidEncoding,
}

} // verus!
