use symmetric_key_exercise::engine::{open, seal, TAG_LENGTH};
use symmetric_key_exercise::{
    CommonEncryptionOpts, SimpleCipherError, MAX_KEY_LENGTH, NONCE_HEX_LENGTH, NONCE_LENGTH,
};

fn string_nonce_opts(key: &str, nonce: &str) -> CommonEncryptionOpts {
    CommonEncryptionOpts {
        key: key.to_string(),
        no_nonce: false,
        generate_nonce: false,
        nonce: Some(nonce.to_string()),
    }
}

fn zero_nonce_opts(key: &str) -> CommonEncryptionOpts {
    CommonEncryptionOpts {
        key: key.to_string(),
        no_nonce: true,
        generate_nonce: false,
        nonce: None,
    }
}

// A key of exactly 32 bytes is accepted; 33 bytes fail with the length.
#[test]
fn key_length_boundary() {
    let exact = vec!["a"; MAX_KEY_LENGTH].join("");
    let opts = string_nonce_opts(&exact, "x");
    assert!(opts.encrypt("hello".to_string()).is_ok());

    let long = vec!["a"; MAX_KEY_LENGTH + 1].join("");
    let opts = string_nonce_opts(&long, "x");
    assert_eq!(
        opts.encrypt("hello".to_string()).unwrap_err(),
        SimpleCipherError::KeyTooLong(33)
    );
}

// A nonce string of exactly 24 bytes is accepted; 25 bytes fail with the
// length.
#[test]
fn nonce_length_boundary() {
    let exact = vec!["n"; NONCE_LENGTH].join("");
    let opts = string_nonce_opts("key", &exact);
    assert!(opts.encrypt("hello".to_string()).is_ok());

    let long = vec!["n"; NONCE_LENGTH + 1].join("");
    let opts = string_nonce_opts("key", &long);
    assert_eq!(
        opts.encrypt("hello".to_string()).unwrap_err(),
        SimpleCipherError::NonceTooLong(25)
    );
}

// Decrypting with a different key never yields a plaintext, only the
// opaque authentication failure.
#[test]
fn wrong_key_fails_closed() {
    let nonce = vec!["d"; NONCE_LENGTH].join("");
    let (ciphertext, _) = string_nonce_opts("first key", &nonce)
        .encrypt("attack at dawn".to_string())
        .expect("Failed to encrypt data");
    let out = string_nonce_opts("second key", &nonce).decrypt(&ciphertext);
    assert_eq!(out.unwrap_err(), SimpleCipherError::AuthenticationFailed);
}

// Flipping any single byte of the ciphertext makes decryption fail with
// the opaque authentication failure.
#[test]
fn tamper_detection() {
    let nonce = vec!["e"; NONCE_LENGTH].join("");
    let (ciphertext, _) = string_nonce_opts("key", &nonce)
        .encrypt("foobar".to_string())
        .expect("Failed to encrypt data");
    for i in 0..ciphertext.len() {
        let mut tampered = ciphertext.clone();
        tampered[i] ^= 0x01;
        let out = string_nonce_opts("key", &nonce).decrypt(&tampered);
        assert_eq!(out.unwrap_err(), SimpleCipherError::AuthenticationFailed);
    }
}

// With the all-zero nonce, the same key and message always give the same
// ciphertext: the documented replay weakness of that mode.
#[test]
fn all_zero_nonce_determinism() {
    let (c1, n1) = zero_nonce_opts("baz")
        .encrypt("foobar".to_string())
        .expect("Failed to encrypt data");
    let (c2, n2) = zero_nonce_opts("baz")
        .encrypt("foobar".to_string())
        .expect("Failed to encrypt data");
    assert_eq!(c1, c2);
    assert!(n1.is_none());
    assert!(n2.is_none());
}

// Two generated nonces differ, and so do the ciphertexts they produce.
#[test]
fn generated_nonce_uniqueness() {
    let generate = || CommonEncryptionOpts {
        key: "baz".to_string(),
        no_nonce: false,
        generate_nonce: true,
        nonce: None,
    };
    let (c1, n1) = generate()
        .encrypt("foobar".to_string())
        .expect("Failed to encrypt data");
    let (c2, n2) = generate()
        .encrypt("foobar".to_string())
        .expect("Failed to encrypt data");
    assert_ne!(n1.expect("nonce owed"), n2.expect("nonce owed"));
    assert_ne!(c1, c2);
}

// A generated nonce is handed back in its fixed-width form: hexadecimal
// digits, two per nonce byte.
#[test]
fn generated_nonce_string_form() {
    let opts = CommonEncryptionOpts {
        key: "baz".to_string(),
        no_nonce: false,
        generate_nonce: true,
        nonce: None,
    };
    let (_, nonce) = opts
        .encrypt("foobar".to_string())
        .expect("Failed to encrypt data");
    let nonce = nonce.expect("nonce owed");
    assert_eq!(nonce.len(), NONCE_HEX_LENGTH);
    for c in nonce.chars() {
        assert!(c.is_ascii_hexdigit() && !c.is_ascii_uppercase());
    }
}

// With no nonce source selected, both operations fail with the dedicated
// error.
#[test]
fn undetermined_selection() {
    let make = || CommonEncryptionOpts {
        key: "baz".to_string(),
        no_nonce: false,
        generate_nonce: false,
        nonce: None,
    };
    assert_eq!(
        make().encrypt("foobar".to_string()).unwrap_err(),
        SimpleCipherError::NonceChoiceUndetermined
    );
    assert_eq!(
        make().decrypt(&vec![1, 2, 3]).unwrap_err(),
        SimpleCipherError::NonceChoiceUndetermined
    );
}

// Requesting nonce generation on decryption fails with the dedicated
// error, before anything else is looked at.
#[test]
fn decrypt_cannot_generate() {
    let opts = CommonEncryptionOpts {
        key: "baz".to_string(),
        no_nonce: false,
        generate_nonce: true,
        nonce: None,
    };
    assert_eq!(
        opts.decrypt(&vec![1, 2, 3]).unwrap_err(),
        SimpleCipherError::NonceGenerateNotSupported
    );
}

// The example scenario: a fixed key, message and 24-byte nonce string
// round-trip to the original message.
#[test]
fn example_scenario() {
    let nonce = "aaaaaaaaaaaaaaaaaaaaaaaa";
    let (ciphertext, _) = string_nonce_opts("baz", nonce)
        .encrypt("foobar".to_string())
        .expect("Failed to encrypt data");
    let output = string_nonce_opts("baz", nonce)
        .decrypt(&ciphertext)
        .expect("Failed to decrypt data");
    assert_eq!(output, "foobar");
}

// The ciphertext is the message's length plus the tag, and is not the
// message itself.
#[test]
fn seal_appends_tag_and_transforms() {
    let mut key = b"baz".to_vec();
    key.resize(MAX_KEY_LENGTH, 0);
    let nonce = vec![0u8; NONCE_LENGTH];
    let msg = b"foobar".to_vec();
    let ciphertext = seal(&key, &nonce, &msg);
    assert_eq!(ciphertext.len(), msg.len() + TAG_LENGTH);
    assert_ne!(&ciphertext[..msg.len()], &msg[..]);
}

// Opening a byte string that no sealing produced fails with the opaque
// authentication failure; so does an empty one.
#[test]
fn open_rejects_forgeries() {
    let mut key = b"baz".to_vec();
    key.resize(MAX_KEY_LENGTH, 0);
    let nonce = vec![0u8; NONCE_LENGTH];
    assert_eq!(
        open(&key, &nonce, &vec![7u8; 40]).unwrap_err(),
        SimpleCipherError::AuthenticationFailed
    );
    assert_eq!(
        open(&key, &nonce, &Vec::new()).unwrap_err(),
        SimpleCipherError::AuthenticationFailed
    );
}

// Authenticated bytes that are not UTF-8 are reported as an encoding
// error, distinct from an authentication failure.
#[test]
fn invalid_encoding_after_authentication() {
    let mut key = b"baz".to_vec();
    key.resize(MAX_KEY_LENGTH, 0);
    let nonce = vec![0u8; NONCE_LENGTH];
    let msg = vec![0xff, 0xfe, 0x80];
    let ciphertext = seal(&key, &nonce, &msg);
    let opts = zero_nonce_opts("baz");
    assert_eq!(
        opts.decrypt(&ciphertext).unwrap_err(),
        SimpleCipherError::InvalidEncoding
    );
}

// A nonce whose bytes are not printable text still round-trips through
// its string form.
#[test]
fn nonce_string_round_trip_arbitrary_bytes() {
    let nonce: Vec<u8> = (0..NONCE_LENGTH as u8).map(|i| i.wrapping_mul(11).wrapping_add(200)).collect();
    let rendered = CommonEncryptionOpts::stringify_nonce(&nonce);
    let parsed = CommonEncryptionOpts::nonce_from_string(&rendered).expect("round trip owed");
    assert_eq!(parsed, nonce);
}

// An empty message and an empty passphrase are accepted and round-trip.
#[test]
fn empty_message_and_key() {
    let (ciphertext, _) = string_nonce_opts("", "")
        .encrypt(String::new())
        .expect("Failed to encrypt data");
    assert_eq!(ciphertext.len(), TAG_LENGTH);
    let output = string_nonce_opts("", "")
        .decrypt(&ciphertext)
        .expect("Failed to decrypt data");
    assert_eq!(output, "");
}

// A multi-byte UTF-8 message round-trips unchanged.
#[test]
fn multibyte_message_round_trip() {
    let message = "grüße, κόσμε, 世界".to_string();
    let (ciphertext, _) = zero_nonce_opts("baz")
        .encrypt(message.clone())
        .expect("Failed to encrypt data");
    let output = zero_nonce_opts("baz")
        .decrypt(&ciphertext)
        .expect("Failed to decrypt data");
    assert_eq!(output, message);
}
