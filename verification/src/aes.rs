//! Authenticated encryption with AES-256-GCM under a fresh random nonce.

use crate::crand::random_array;
use aes_gcm::aead::Aead;
use aes_gcm::{Aes256Gcm, KeyInit};
use vstd::prelude::*;

verus! {

/// The error of the AES-GCM implementation, `aes_gcm::Error`. It carries nothing.
#[verifier::external_type_specification]
#[verifier::external_body]
pub struct ExAeadError(aes_gcm::Error);

/// The longest plaintext that one key and nonce can encrypt: 2^36 - 32 bytes.
pub const MAX_PLAINTEXT: u64 = 0xF_FFFF_FFE0;

/// The longest ciphertext: that of the longest plaintext with its tag.
pub const MAX_CIPHERTEXT: u64 = 0xF_FFFF_FFF0;

/// Errors of [`encrypt`] and [`decrypt`].
#[derive(Debug, Clone, Copy, PartialEq, Eq, Structural)]
pub enum AesErrors {
    /// The plaintext is too long, or the OS supplied no nonce.
    FailedToEncrypt,
    /// The ciphertext is too long, or does not open under the key and nonce.
    FailedToDecrypt,
}

impl AesErrors {
    /// The text shown to a user.
    pub open spec fn message(self) -> Seq<char> {
        match self {
            AesErrors::FailedToEncrypt => "failed to encrypt data"@,
            AesErrors::FailedToDecrypt => "failed to decrypt data"@,
        }
    }

    /// Renders the error for a user.
    pub fn to_string(&self) -> (text: String)
        ensures
            text@ == self.message(),
    {
        match self {
            AesErrors::FailedToEncrypt => "failed to encrypt data".to_owned(),
            AesErrors::FailedToDecrypt => "failed to decrypt data".to_owned(),
        }
    }
}

/// The AES-256-GCM ciphertext, tag included, of a plaintext.
pub uninterp spec fn gcm_seal(key: Seq<u8>, nonce: Seq<u8>, plaintext: Seq<u8>) -> Seq<u8>;

/// The plaintext of an AES-256-GCM ciphertext, where its tag is right.
pub uninterp spec fn gcm_open(key: Seq<u8>, nonce: Seq<u8>, ciphertext: Seq<u8>) -> Option<
    Seq<u8>,
>;

/// The plaintext that [`decrypt`] recovers: none of a ciphertext over the length limit.
pub open spec fn opened(key: Seq<u8>, nonce: Seq<u8>, ciphertext: Seq<u8>) -> Option<Seq<u8>> {
    if ciphertext.len() > MAX_CIPHERTEXT {
        None
    } else {
        gcm_open(key, nonce, ciphertext)
    }
}

/// Encrypts under a given nonce.
///
/// Calls `aead::Aead::encrypt` of `aes_gcm::Aes256Gcm`. Trusted that within the length limit it
/// succeeds, that the result depends on key, nonce and plaintext alone, is 16 bytes longer than the
/// plaintext, and opens again under the same key and nonce.
#[verifier::external_body]
fn gcm_encrypt(key: &[u8; 32], nonce: &[u8; 12], plaintext: &[u8]) -> (r: Result<
    Vec<u8>,
    aes_gcm::Error,
>)
    requires
        plaintext@.len() <= MAX_PLAINTEXT,
    ensures
        match r {
            Ok(ciphertext) => ciphertext@ == gcm_seal(key@, nonce@, plaintext@)
                && ciphertext@.len() == plaintext@.len() + 16 && gcm_open(
                key@,
                nonce@,
                ciphertext@,
            ) == Some(plaintext@),
            Err(_) => false,
        },
{
    Aes256Gcm::new(key.into()).encrypt(nonce.into(), plaintext)
}

/// Decrypts under a given nonce.
///
/// Calls `aead::Aead::decrypt` of `aes_gcm::Aes256Gcm`. Trusted that success and plaintext depend
/// on key, nonce and ciphertext alone, that a plaintext is 16 bytes shorter than its ciphertext
/// (so that nothing under 16 bytes opens), and that only the ciphertext of a plaintext opens to it.
#[verifier::external_body]
fn gcm_decrypt(key: &[u8; 32], nonce: &[u8; 12], ciphertext: &[u8]) -> (r: Result<
    Vec<u8>,
    aes_gcm::Error,
>)
    requires
        ciphertext@.len() <= MAX_CIPHERTEXT,
    ensures
        match r {
            Ok(plaintext) => gcm_open(key@, nonce@, ciphertext@) == Some(plaintext@)
                && plaintext@.len() + 16 == ciphertext@.len() && ciphertext@ == gcm_seal(
                key@,
                nonce@,
                plaintext@,
            ),
            Err(_) => gcm_open(key@, nonce@, ciphertext@) is None,
        },
{
    Aes256Gcm::new(key.into()).decrypt(nonce.into(), ciphertext)
}

/// Encrypts `plaintext` under a given nonce. A nonce must not be used twice with one key.
pub fn encrypt_with_nonce(key: &[u8; 32], plaintext: &[u8], nonce: &[u8; 12]) -> (r: Result<
    Vec<u8>,
    AesErrors,
>)
    ensures
        match r {
            Ok(ciphertext) => plaintext@.len() <= MAX_PLAINTEXT && ciphertext@ == gcm_seal(
                key@,
                nonce@,
                plaintext@,
            ) && ciphertext@.len() == plaintext@.len() + 16 && opened(key@, nonce@, ciphertext@)
                == Some(plaintext@),
            Err(e) => plaintext@.len() > MAX_PLAINTEXT && e == AesErrors::FailedToEncrypt,
        },
{
    if plaintext.len() as u64 > MAX_PLAINTEXT {
        return Err(AesErrors::FailedToEncrypt);
    }
    match gcm_encrypt(key, nonce, plaintext) {
        Ok(ciphertext) => Ok(ciphertext),
        Err(_) => Err(AesErrors::FailedToEncrypt),
    }
}

/// Encrypts `plaintext` and returns the ciphertext with the nonce it was made under.
///
/// The nonce is drawn from the OS, so a call can fail on any plaintext; it always fails on one over
/// the length limit.
pub fn encrypt(key: &[u8; 32], plaintext: &[u8]) -> (r: Result<(Vec<u8>, [u8; 12]), AesErrors>)
    ensures
        match r {
            Ok((ciphertext, nonce)) => plaintext@.len() <= MAX_PLAINTEXT && ciphertext@
                == gcm_seal(key@, nonce@, plaintext@) && ciphertext@.len() == plaintext@.len() + 16
                && opened(key@, nonce@, ciphertext@) == Some(plaintext@)
                && crate::crand::os_supplied::<12>(nonce@),
            Err(e) => e == AesErrors::FailedToEncrypt && (plaintext@.len() > MAX_PLAINTEXT
                || crate::crand::os_refused::<12>()),
        },
{
    match random_array::<12>() {
        Ok(nonce) => match encrypt_with_nonce(key, plaintext, &nonce.bytes) {
            Ok(ciphertext) => Ok((ciphertext, nonce.bytes)),
            Err(e) => Err(e),
        },
        Err(_) => Err(AesErrors::FailedToEncrypt),
    }
}

/// Decrypts a ciphertext of [`encrypt`]; fails where the key or the nonce is not the one that it
/// was made under, or where it was altered.
pub fn decrypt(key: &[u8; 32], ciphertext: &[u8], nonce: &[u8; 12]) -> (r: Result<
    Vec<u8>,
    AesErrors,
>)
    ensures
        match r {
            Ok(plaintext) => opened(key@, nonce@, ciphertext@) == Some(plaintext@)
                && plaintext@.len() + 16 == ciphertext@.len() && ciphertext@ == gcm_seal(
                key@,
                nonce@,
                plaintext@,
            ),
            Err(e) => opened(key@, nonce@, ciphertext@) is None && e == AesErrors::FailedToDecrypt,
        },
{
    if ciphertext.len() as u64 > MAX_CIPHERTEXT {
        return Err(AesErrors::FailedToDecrypt);
    }
    match gcm_decrypt(key, nonce, ciphertext) {
        Ok(plaintext) => Ok(plaintext),
        Err(_) => Err(AesErrors::FailedToDecrypt),
    }
}

/// Decrypting gives back what was encrypted.
pub proof fn law_decrypting_gives_back_the_plaintext(
    key: &[u8; 32],
    plaintext: &[u8],
    encrypted: Result<(Vec<u8>, [u8; 12]), AesErrors>,
    ciphertext: &[u8],
    nonce: &[u8; 12],
    decrypted: Result<Vec<u8>, AesErrors>,
)
    requires
        call_ensures(encrypt, (key, plaintext), encrypted),
        call_ensures(decrypt, (key, ciphertext, nonce), decrypted),
        encrypted is Ok,
        encrypted->Ok_0.0@ == ciphertext@,
        encrypted->Ok_0.1@ == nonce@,
    ensures
        decrypted is Ok && decrypted->Ok_0@ == plaintext@,
{
}

/// Where the OS supplies a nonce, whatever is short enough is encrypted, and what is too long never.
pub proof fn law_what_is_short_enough_is_encrypted(
    key: &[u8; 32],
    plaintext: &[u8],
    encrypted: Result<(Vec<u8>, [u8; 12]), AesErrors>,
)
    requires
        call_ensures(encrypt, (key, plaintext), encrypted),
    ensures
        plaintext@.len() <= MAX_PLAINTEXT && !crate::crand::os_refused::<12>() ==> encrypted is Ok
            && encrypted->Ok_0.0@.len() == plaintext@.len() + 16 && crate::crand::os_supplied::<12>(
            encrypted->Ok_0.1@,
        ),
        plaintext@.len() > MAX_PLAINTEXT ==> encrypted is Err,
{
}

} // verus!
