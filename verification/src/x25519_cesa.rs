//! X25519 key agreement.

use crate::crand::{random_array, CRandErrors};
use crate::secret::Secret;
use sha2::{Digest, Sha256};
use vstd::prelude::*;
use x25519_dalek::{PublicKey, StaticSecret};

verus! {

/// A private key together with the public key that belongs to it. Both are wiped when the pair is
/// dropped.
pub struct X25519KeyPair {
    pub public: Secret<32>,
    pub private: Secret<32>,
}

impl X25519KeyPair {
    /// Holds the two halves as they are given.
    pub fn new(pub_key: [u8; 32], priv_key: [u8; 32]) -> (pair: Self)
        ensures
            pair.public.bytes == pub_key,
            pair.private.bytes == priv_key,
    {
        Self { public: Secret::new(pub_key), private: Secret::new(priv_key) }
    }
}

/// The X25519 public key of a private key.
pub uninterp spec fn x25519_public(private_key: Seq<u8>) -> Seq<u8>;

/// The X25519 shared secret of a private key and the other party's public key.
pub uninterp spec fn x25519_shared(private_key: Seq<u8>, their_public: Seq<u8>) -> Seq<u8>;

/// The SHA-256 digest of a byte string.
pub uninterp spec fn sha256(data: Seq<u8>) -> Seq<u8>;

/// Whether every byte is zero.
pub open spec fn all_zero(bytes: Seq<u8>) -> bool {
    forall|i: int| 0 <= i < bytes.len() ==> bytes[i] == 0
}

/// The session key of two parties: the digest of their shared secret.
pub open spec fn session_key(private_key: Seq<u8>, their_public: Seq<u8>) -> Seq<u8> {
    sha256(x25519_shared(private_key, their_public))
}

/// Derives the X25519 public key from a private key.
///
/// Calls `x25519_dalek::StaticSecret::from` and `PublicKey::from`, which are total; trusted that
/// the result depends on the private key alone and is never all zeros. The base point is multiplied
/// by the clamped key, which is at least 2^254, below 2^255 and divisible by 8. The base point's
/// order is a prime above 2^252, so no such number is a multiple of it, and of the base point's
/// multiples only the identity has the coordinate 0.
#[verifier::external_body]
pub fn calculate_public_key(private_key: &[u8; 32]) -> (public_key: [u8; 32])
    ensures
        public_key@ == x25519_public(private_key@),
        !all_zero(public_key@),
{
    *PublicKey::from(&StaticSecret::from(*private_key)).as_bytes()
}

/// Computes the ECDH shared secret from a private key and the other party's public key.
///
/// The result should be hashed with SHA-256 before use as an AES-256 key.
///
/// Calls `x25519_dalek::StaticSecret::diffie_hellman`, which is total; trusted that the result
/// depends on the two keys alone, and that the party who holds the secret behind `their_public`
/// computes the same value from the public key of `private_key`.
#[verifier::external_body]
pub fn calculate_shared_key(private_key: &[u8; 32], their_public: &[u8; 32]) -> (shared: [u8; 32])
    ensures
        shared@ == x25519_shared(private_key@, their_public@),
        forall|theirs: Seq<u8>|
            theirs.len() == 32 && their_public@ == #[trigger] x25519_public(theirs) ==> shared@
                == x25519_shared(theirs, x25519_public(private_key@)),
{
    *StaticSecret::from(*private_key).diffie_hellman(&PublicKey::from(*their_public)).as_bytes()
}

/// Hashes the ECDH shared secret using SHA-256 to produce a secure AES-256 key.
/// A raw shared secret should never be used directly as an AES key.
///
/// Calls `sha2::Sha256::digest`; trusted that the result depends on the input alone.
#[verifier::external_body]
pub fn hash_key(shared_key: &[u8; 32]) -> (hash: [u8; 32])
    ensures
        hash@ == sha256(shared_key@),
{
    Sha256::digest(*shared_key).into()
}

/// Builds the key pair whose private half is `random_data`.
pub fn generate_new_key_pair(random_data: [u8; 32]) -> (pair: X25519KeyPair)
    ensures
        pair.private.bytes == random_data,
        pair.public@ == x25519_public(random_data@),
{
    let pub_key = calculate_public_key(&random_data);
    X25519KeyPair::new(pub_key, random_data)
}

/// Draws a fresh private key from the operating system.
pub fn generate_private_key() -> (r: Result<[u8; 32], CRandErrors>)
    ensures
        match r {
            Ok(private_key) => private_key@.len() == 32 && crate::crand::os_supplied::<32>(
                private_key@,
            ),
            Err(e) => e == CRandErrors::FailedToFillBuffer && crate::crand::os_refused::<32>(),
        },
{
    match random_array::<32>() {
        Ok(private_key) => Ok(private_key.bytes),
        Err(e) => Err(e),
    }
}

/// Both parties come to one shared secret, each from its own private key and the other's public key,
/// and so to one hash of it.
pub proof fn law_both_parties_share_a_secret(
    ours: &[u8; 32],
    theirs: &[u8; 32],
    our_public: &[u8; 32],
    their_public: &[u8; 32],
    our_secret: [u8; 32],
    their_secret: [u8; 32],
)
    requires
        call_ensures(calculate_public_key, (ours,), *our_public),
        call_ensures(calculate_public_key, (theirs,), *their_public),
        call_ensures(calculate_shared_key, (ours, their_public), our_secret),
        call_ensures(calculate_shared_key, (theirs, our_public), their_secret),
    ensures
        our_secret@ == their_secret@,
        sha256(our_secret@) == sha256(their_secret@),
{
    assert(their_public@ == x25519_public(theirs@));
}

/// A key pair that is made of random data holds it as the private key, and the public key of it.
pub proof fn law_key_pair_belongs_together(
    random_data: [u8; 32],
    pair: X25519KeyPair,
    public_key: [u8; 32],
)
    requires
        call_ensures(generate_new_key_pair, (random_data,), pair),
        call_ensures(calculate_public_key, (&random_data,), public_key),
    ensures
        pair.private@ == random_data@,
        pair.public@ == public_key@,
{
}

} // verus!
