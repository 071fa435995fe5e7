use cesa_conn::aes::{decrypt, encrypt, encrypt_with_nonce, AesErrors};
use cesa_conn::crand::{drawn, random_array, supplied, CRandErrors};
use cesa_conn::le::{u64_from_le, u64_to_le, usize_to_le};
use cesa_conn::pswd_manager::{derive_key, PswdErrors};
use cesa_conn::secret::Secret;
use cesa_conn::x25519_cesa::{
    calculate_public_key, calculate_shared_key, generate_new_key_pair, generate_private_key,
    hash_key, X25519KeyPair,
};

#[test]
fn output_is_not_all_zeros() {
    let out = random_array().expect("OS RNG should succeed");
    assert_ne!(*out, [0u8; 64]);
}

#[test]
fn consecutive_calls_differ() {
    let a = random_array::<64>().expect("OS RNG should succeed");
    let b = random_array::<64>().expect("OS RNG should succeed");
    assert_ne!(*a, *b);
}

#[test]
fn output_is_64_bytes() {
    let out = random_array::<64>().expect("OS RNG should succeed");
    assert_eq!(out.len(), 64);
}

#[test]
fn a_filled_buffer_is_what_was_drawn() {
    assert_eq!(
        drawn(Ok(()), Secret::new([7u8; 4])),
        Ok(Secret::new([7u8; 4]))
    );
}

#[test]
fn nothing_is_always_there() {
    assert_eq!(random_array::<0>(), Ok(Secret::new([])));
}

#[test]
fn a_failed_draw_supplies_nothing() {
    assert_eq!(
        supplied(Ok(Secret::new([7u8; 4]))),
        Some(Secret::new([7u8; 4]))
    );
    assert_eq!(
        supplied::<4>(Err(CRandErrors::FailedToFillBuffer)),
        None
    );
}

#[test]
fn random_error_has_its_message() {
    assert_eq!(
        CRandErrors::FailedToFillBuffer.to_string(),
        "failed to fill buffer with random data"
    );
}

/// Test that two parties derive the same shared secret
#[test]
fn test_shared_secret_matches() {
    let private_a = generate_private_key().unwrap();
    let private_b = generate_private_key().unwrap();

    let public_a = calculate_public_key(&private_a);
    let public_b = calculate_public_key(&private_b);

    let shared_a = calculate_shared_key(&private_a, &public_b);
    let shared_b = calculate_shared_key(&private_b, &public_a);

    assert_eq!(shared_a, shared_b);
}

/// Test that different key pairs produce different shared secrets
#[test]
fn test_different_keys_different_secrets() {
    let private_a = generate_private_key().unwrap();
    let private_b = generate_private_key().unwrap();
    let private_c = generate_private_key().unwrap();

    let public_b = calculate_public_key(&private_b);
    let public_c = calculate_public_key(&private_c);

    let shared_ab = calculate_shared_key(&private_a, &public_b);
    let shared_ac = calculate_shared_key(&private_a, &public_c);

    assert_ne!(shared_ab, shared_ac);
}

/// Test that generated private keys are unique
#[test]
fn test_private_keys_unique() {
    let key1 = generate_private_key().unwrap();
    let key2 = generate_private_key().unwrap();
    assert_ne!(key1, key2);
}

/// Test that public key is deterministic from private key
#[test]
fn test_public_key_deterministic() {
    let private_key = generate_private_key().unwrap();
    let public1 = calculate_public_key(&private_key);
    let public2 = calculate_public_key(&private_key);
    assert_eq!(public1, public2);
}

/// Test that hash_key produces consistent output for same input
#[test]
fn test_hash_key_deterministic() {
    let shared = calculate_shared_key(
        &generate_private_key().unwrap(),
        &calculate_public_key(&generate_private_key().unwrap()),
    );
    let hash1 = hash_key(&shared);
    let hash2 = hash_key(&shared);
    assert_eq!(hash1, hash2);
}

/// Test that hash_key output is not equal to input
#[test]
fn test_hash_key_changes_value() {
    let shared = [1u8; 32];
    let hashed = hash_key(&shared);
    assert_ne!(hashed, shared);
}

/// Test that different inputs produce different hashes
#[test]
fn test_hash_key_unique() {
    let shared_a = [1u8; 32];
    let shared_b = [2u8; 32];
    assert_ne!(hash_key(&shared_a), hash_key(&shared_b));
}

/// The digest of 32 zero bytes is a published value.
#[test]
fn hash_key_is_sha256() {
    let expected: [u8; 32] = [
        0x66, 0x68, 0x7a, 0xad, 0xf8, 0x62, 0xbd, 0x77, 0x6c, 0x8f, 0xc1, 0x8b, 0x8e, 0x9f, 0x8e,
        0x20, 0x08, 0x97, 0x14, 0x85, 0x6e, 0xe2, 0x33, 0xb3, 0x90, 0x2a, 0x59, 0x1d, 0x0d, 0x5f,
        0x29, 0x25,
    ];
    assert_eq!(hash_key(&[0u8; 32]), expected);
}

/// A published key pair.
#[test]
fn x25519_matches_the_published_vectors() {
    let alice: [u8; 32] = [
        0x77, 0x07, 0x6d, 0x0a, 0x73, 0x18, 0xa5, 0x7d, 0x3c, 0x16, 0xc1, 0x72, 0x51, 0xb2, 0x66,
        0x45, 0xdf, 0x4c, 0x2f, 0x87, 0xeb, 0xc0, 0x99, 0x2a, 0xb1, 0x77, 0xfb, 0xa5, 0x1d, 0xb9,
        0x2c, 0x2a,
    ];
    let alice_public: [u8; 32] = [
        0x85, 0x20, 0xf0, 0x09, 0x89, 0x30, 0xa7, 0x54, 0x74, 0x8b, 0x7d, 0xdc, 0xb4, 0x3e, 0xf7,
        0x5a, 0x0d, 0xbf, 0x3a, 0x0d, 0x26, 0x38, 0x1a, 0xf4, 0xeb, 0xa4, 0xa9, 0x8e, 0xaa, 0x9b,
        0x4e, 0x6a,
    ];
    assert_eq!(calculate_public_key(&alice), alice_public);
    let pair = generate_new_key_pair(alice);
    assert_eq!(*pair.public, alice_public);
    assert_eq!(*pair.private, alice);
}

/// No private key leads to the all-zero public key, not even one of zeros or ones.
#[test]
fn public_keys_are_never_zero() {
    for private_key in [[0u8; 32], [0xFFu8; 32], [1u8; 32]] {
        assert_ne!(calculate_public_key(&private_key), [0u8; 32]);
    }
}

#[test]
fn key_pair_keeps_its_halves() {
    let pair = X25519KeyPair::new([1u8; 32], [2u8; 32]);
    assert_eq!(*pair.public, [1u8; 32]);
    assert_eq!(*pair.private, [2u8; 32]);
}

#[test]
fn encrypted_data_decrypts_again() {
    let key = [0x11u8; 32];
    let (ciphertext, nonce) = encrypt(&key, b"data").unwrap();
    assert_eq!(ciphertext.len(), 20);
    assert_eq!(decrypt(&key, &ciphertext, &nonce), Ok(b"data".to_vec()));
}

/// The ciphertext of the empty plaintext under an all-zero key and nonce is a published value.
#[test]
fn encryption_is_aes_256_gcm() {
    let tag = encrypt_with_nonce(&[0u8; 32], b"", &[0u8; 12]).unwrap();
    assert_eq!(
        tag,
        vec![
            0x53, 0x0f, 0x8a, 0xfb, 0xc7, 0x45, 0x36, 0xb9, 0xa9, 0x63, 0xb4, 0xf1, 0xc4, 0xcb,
            0x73, 0x8b
        ]
    );
}

#[test]
fn altered_ciphertext_is_refused() {
    let key = [0x11u8; 32];
    let (mut ciphertext, nonce) = encrypt(&key, b"data").unwrap();
    ciphertext[0] ^= 1;
    assert_eq!(
        decrypt(&key, &ciphertext, &nonce),
        Err(AesErrors::FailedToDecrypt)
    );
}

#[test]
fn short_ciphertext_is_refused() {
    assert_eq!(
        decrypt(&[0u8; 32], &[0u8; 15], &[0u8; 12]),
        Err(AesErrors::FailedToDecrypt)
    );
}

#[test]
fn aes_errors_have_their_messages() {
    assert_eq!(AesErrors::FailedToEncrypt.to_string(), "failed to encrypt data");
    assert_eq!(AesErrors::FailedToDecrypt.to_string(), "failed to decrypt data");
}

#[test]
fn derived_keys_depend_on_password_and_salt() {
    let key = derive_key(b"password", [1u8; 32]).unwrap();
    assert_eq!(derive_key(b"password", [1u8; 32]), Ok(key));
    assert_ne!(derive_key(b"password", [2u8; 32]), Ok(key));
    assert_ne!(derive_key(b"passwork", [1u8; 32]), Ok(key));
    assert_ne!(key, [0u8; 32]);
}

#[test]
fn password_error_has_its_message() {
    assert_eq!(
        PswdErrors::FailedToDeriveKey.to_string(),
        "failed to derive key from password"
    );
}

#[test]
fn little_endian_numbers() {
    assert_eq!(u64_to_le(0x0102_0304_0506_0708), [8, 7, 6, 5, 4, 3, 2, 1]);
    assert_eq!(u64_from_le(&[8, 7, 6, 5, 4, 3, 2, 1]), 0x0102_0304_0506_0708);
    assert_eq!(u64_from_le(&[0xFF; 8]), u64::MAX);
    for value in [0, 1, 255, 256, 65536, u64::MAX] {
        assert_eq!(u64_from_le(&u64_to_le(value)), value);
        assert_eq!(u64_to_le(value), value.to_le_bytes());
    }
}

/// A machine word is written in its own width.
#[test]
fn words_are_written_in_their_own_width() {
    assert_eq!(usize_to_le(0x0102_0304), 0x0102_0304usize.to_le_bytes());
    assert_eq!(usize_to_le(usize::MAX), usize::MAX.to_le_bytes());
    assert_eq!(usize_to_le(0).len(), usize::BITS as usize / 8);
}

/// A secret reads as its bytes, and a copy of it outlives it.
#[test]
fn secrets_are_copied_before_they_are_dropped() {
    let secret = Secret::new([7u8; 4]);
    let copy = secret.clone();
    assert_eq!(*secret, [7u8; 4]);
    drop(secret);
    assert_eq!(*copy, [7u8; 4]);
}
