//! Keys from passwords.

use argon2::Argon2;
use vstd::prelude::*;

verus! {

/// The error of the Argon2 implementation, `argon2::Error`.
#[verifier::external_type_specification]
#[verifier::external_body]
pub struct ExArgon2Error(argon2::Error);

/// Errors of [`derive_key`].
#[derive(Debug, Clone, Copy, PartialEq, Eq, Structural)]
pub enum PswdErrors {
    /// The password is too long.
    FailedToDeriveKey,
}

impl PswdErrors {
    /// The text shown to a user.
    pub open spec fn message(self) -> Seq<char> {
        match self {
            PswdErrors::FailedToDeriveKey => "failed to derive key from password"@,
        }
    }

    /// Renders the error for a user.
    pub fn to_string(&self) -> (text: String)
        ensures
            text@ == self.message(),
    {
        match self {
            PswdErrors::FailedToDeriveKey => "failed to derive key from password".to_owned(),
        }
    }
}

/// The 32-byte Argon2id hash of a password under a salt, with the default parameters.
pub uninterp spec fn argon2id(password: Seq<u8>, salt: Seq<u8>) -> Seq<u8>;

/// The longest password, in bytes.
pub const MAX_PASSWORD: u64 = 0xFFFF_FFFF;

/// Hashes a password.
///
/// Calls `argon2::Argon2::default` and `hash_password_into` with a 32-byte salt and a 32-byte
/// output. Trusted that the hash depends on password and salt alone, and that it fails exactly
/// where the password is longer than 0xFFFFFFFF bytes.
#[verifier::external_body]
fn hash_password(password: &[u8], salt: &[u8; 32], out: &mut [u8; 32]) -> (r: Result<
    (),
    argon2::Error,
>)
    ensures
        match r {
            Ok(_) => password@.len() <= MAX_PASSWORD && final(out)@ == argon2id(password@, salt@),
            Err(_) => password@.len() > MAX_PASSWORD,
        },
{
    Argon2::default().hash_password_into(password, salt, out)
}

/// Derives a key from a password and a salt with Argon2.
pub fn derive_key(password: &[u8], salt: [u8; 32]) -> (r: Result<[u8; 32], PswdErrors>)
    ensures
        match r {
            Ok(key) => password@.len() <= MAX_PASSWORD && key@ == argon2id(password@, salt@),
            Err(e) => password@.len() > MAX_PASSWORD && e == PswdErrors::FailedToDeriveKey,
        },
{
    let mut key: [u8; 32] = [0u8; 32];
    match hash_password(password, &salt, &mut key) {
        Ok(()) => Ok(key),
        Err(_) => Err(PswdErrors::FailedToDeriveKey),
    }
}

/// A password may have as many bytes as the length field of the hash can say.
pub proof fn law_password_limit()
    ensures
        MAX_PASSWORD == u32::MAX,
{
}

} // verus!
