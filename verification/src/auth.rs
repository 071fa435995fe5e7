//! The encrypted tunnel and the mutual authentication that opens it.

use crate::address::{is_trusted, PeerAddr};
use crate::aes::{decrypt, encrypt, encrypt_with_nonce};
use crate::bytes::{array_at, copied, joined, same_bytes, tail, wipe};
use crate::crand::{random_array, supplied, CRandErrors};
use crate::exchange::{Event, EventView, Turn, TurnView};
use crate::secret::Secret;
use crate::x25519_cesa::{
    calculate_public_key, calculate_shared_key, generate_private_key, hash_key,
};
use vstd::prelude::*;

verus! {

/// All errors that can occur during authentication.
#[derive(Debug, Clone, Copy, PartialEq, Eq, Structural)]
pub enum AuthErrors {
    /// The TCP stream ended or errored before we could read all expected bytes.
    FailedToReadFromStream,
    /// AES-GCM decryption failed: wrong shared secret or tampered data.
    FailedToDecrypt,
    /// The TCP stream errored while sending data to the client.
    FailedToWriteToStream,
    /// Failed to encrypt the authentication key.
    FailedToEncrypt,
}

impl AuthErrors {
    /// The text shown to a user.
    pub open spec fn message(self) -> Seq<char> {
        match self {
            AuthErrors::FailedToReadFromStream => "failed to read authentication key from stream"@,
            AuthErrors::FailedToDecrypt => "failed to decrypt authentication key"@,
            AuthErrors::FailedToWriteToStream => "failed to write to stream"@,
            AuthErrors::FailedToEncrypt => "failed to encrypt authentication key"@,
        }
    }

    /// Renders the error for a user.
    pub fn to_string(&self) -> (text: String)
        ensures
            text@ == self.message(),
    {
        match self {
            AuthErrors::FailedToReadFromStream => {
                "failed to read authentication key from stream".to_owned()
            },
            AuthErrors::FailedToDecrypt => "failed to decrypt authentication key".to_owned(),
            AuthErrors::FailedToWriteToStream => "failed to write to stream".to_owned(),
            AuthErrors::FailedToEncrypt => "failed to encrypt authentication key".to_owned(),
        }
    }
}

/// Every error has something to say.
pub proof fn law_messages_are_not_empty(e: AuthErrors)
    ensures
        e.message().len() > 0,
{
    reveal_strlit("failed to read authentication key from stream");
    reveal_strlit("failed to decrypt authentication key");
    reveal_strlit("failed to write to stream");
    reveal_strlit("failed to encrypt authentication key");
}

/// The plaintext of a tunnel message: nonce (12 bytes), then AES-GCM ciphertext.
pub open spec fn tunnel_open(key: Seq<u8>, message: Seq<u8>) -> Option<Seq<u8>> {
    crate::aes::opened(key, message.subrange(0, 12), message.subrange(12, message.len() as int))
}

/// The tunnel message of a plaintext under a nonce.
pub open spec fn tunnel_seal(key: Seq<u8>, nonce: Seq<u8>, plaintext: Seq<u8>) -> Seq<u8> {
    nonce + crate::aes::gcm_seal(key, nonce, plaintext)
}

/// Decrypts a tunnel message produced by [`encrypt_tunnel`].
/// Expects the input to be: nonce (12 bytes) + AES-GCM ciphertext (N bytes).
pub fn decrypt_tunnel(shared_key: &[u8; 32], ciphertext: &[u8]) -> (r: Result<Vec<u8>, AuthErrors>)
    requires
        ciphertext@.len() >= 12,
    ensures
        match r {
            Ok(plaintext) => tunnel_open(shared_key@, ciphertext@) == Some(plaintext@)
                && plaintext@.len() + 28 == ciphertext@.len() && ciphertext@ == tunnel_seal(
                shared_key@,
                ciphertext@.subrange(0, 12),
                plaintext@,
            ),
            Err(e) => tunnel_open(shared_key@, ciphertext@) is None && e
                == AuthErrors::FailedToDecrypt,
        },
{
    let nonce: [u8; 12] = array_at::<12>(ciphertext, 0);
    let body = tail(ciphertext, 12);
    match decrypt(shared_key, &body, &nonce) {
        Ok(plaintext) => {
            assert(ciphertext@ =~= nonce@ + body@);
            Ok(plaintext)
        },
        Err(_) => Err(AuthErrors::FailedToDecrypt),
    }
}

/// The bytes of a nonce, where there is one.
pub open spec fn nonce_view(nonce: Option<[u8; 12]>) -> Option<Seq<u8>> {
    match nonce {
        Some(nonce) => Some(nonce@),
        None => None,
    }
}

/// Encrypts a plaintext under a given nonce; without a nonce there is no encryption. A nonce must
/// not be used twice with one key.
pub fn encrypt_tunnel_with(
    shared_key: &[u8; 32],
    plaintext: &[u8],
    nonce: Option<[u8; 12]>,
) -> (r: Result<Vec<u8>, AuthErrors>)
    ensures
        match r {
            Ok(message) => nonce is Some && plaintext@.len() <= crate::aes::MAX_PLAINTEXT
                && message@ == tunnel_seal(shared_key@, nonce->0@, plaintext@) && message@.len()
                == plaintext@.len() + 28 && tunnel_open(shared_key@, message@) == Some(plaintext@),
            Err(e) => (nonce is None || plaintext@.len() > crate::aes::MAX_PLAINTEXT) && e
                == AuthErrors::FailedToEncrypt,
        },
{
    match nonce {
        Some(nonce) => match encrypt_with_nonce(shared_key, plaintext, &nonce) {
            Ok(ciphertext) => {
                let message = joined(&nonce, &ciphertext);
                assert(message@.subrange(0, 12) =~= nonce@);
                assert(message@.subrange(12, message@.len() as int) =~= ciphertext@);
                Ok(message)
            },
            Err(_) => Err(AuthErrors::FailedToEncrypt),
        },
        None => Err(AuthErrors::FailedToEncrypt),
    }
}

/// A fresh nonce, where the operating system supplies one.
pub(crate) fn fresh_nonce() -> (nonce: Option<[u8; 12]>)
    ensures
        crate::crand::os_answered::<12>(nonce_view(nonce)),
{
    match supplied(random_array::<12>()) {
        Some(nonce) => Some(nonce.bytes),
        None => None,
    }
}

/// Encrypts plaintext and returns: nonce (12 bytes) + AES-GCM ciphertext (N+16 bytes).
/// The nonce is drawn from the OS, so the output is different every call even for the same input,
/// and a call can fail on any input; it always fails on a plaintext over the length limit.
pub fn encrypt_tunnel(shared_key: &[u8; 32], plaintext: &[u8]) -> (r: Result<Vec<u8>, AuthErrors>)
    ensures
        match r {
            Ok(message) => plaintext@.len() <= crate::aes::MAX_PLAINTEXT && message@.len()
                == plaintext@.len() + 28 && message@ == tunnel_seal(
                shared_key@,
                message@.subrange(0, 12),
                plaintext@,
            ) && tunnel_open(shared_key@, message@) == Some(plaintext@)
                && crate::crand::os_supplied::<12>(message@.subrange(0, 12)),
            Err(e) => e == AuthErrors::FailedToEncrypt && (plaintext@.len()
                > crate::aes::MAX_PLAINTEXT || crate::crand::os_refused::<12>()),
        },
{
    match encrypt(shared_key, plaintext) {
        Ok((ciphertext, nonce)) => {
            let message = joined(&nonce, &ciphertext);
            assert(message@.subrange(0, 12) =~= nonce@);
            assert(message@.subrange(12, message@.len() as int) =~= ciphertext@);
            Ok(message)
        },
        Err(_) => Err(AuthErrors::FailedToEncrypt),
    }
}

/// Holds the two pre-shared 32-byte keys used by the networker.
///
/// * `a_key`: authentication key, verified during the ECDH handshake.
/// * `d_key`: data key, used for the inner encryption layer on actual payloads.
///
/// Both are wiped from memory when they are dropped.
pub struct Keys {
    pub a_key: Secret<32>,
    pub d_key: Secret<32>,
}

impl Clone for Keys {
    fn clone(&self) -> (copy: Self)
        ensures
            copy == *self,
    {
        Self { a_key: self.a_key.clone(), d_key: self.d_key.clone() }
    }
}

impl Keys {
    /// Holds two raw 32-byte arrays as they are given, so that they are wiped on drop.
    pub fn new(a_key: [u8; 32], d_key: [u8; 32]) -> (keys: Self)
        ensures
            keys.a_key.bytes == a_key,
            keys.d_key.bytes == d_key,
    {
        Self { a_key: Secret::new(a_key), d_key: Secret::new(d_key) }
    }

    /// Splits a packed 64-byte buffer into the two keys (`a_key` = bytes 0-31, `d_key` = bytes
    /// 32-63).
    pub fn from_ref(data: &[u8; 64]) -> (keys: Self)
        ensures
            keys.a_key@ == data@.subrange(0, 32),
            keys.d_key@ == data@.subrange(32, 64),
    {
        Self {
            a_key: Secret::new(array_at::<32>(data, 0)),
            d_key: Secret::new(array_at::<32>(data, 32)),
        }
    }

    /// Replaces both keys; the old ones are dropped, and so wiped.
    pub fn update(&mut self, new: Keys)
        ensures
            *final(self) == new,
    {
        *self = new;
    }
}

/// Holds the two 32-byte salts that the keys were derived under.
pub struct Salts {
    pub a_salt: [u8; 32],
    pub d_salt: [u8; 32],
}

impl Salts {
    /// Holds two raw 32-byte arrays as they are given.
    pub fn new(a_salt: [u8; 32], d_salt: [u8; 32]) -> (salts: Self)
        ensures
            salts.a_salt == a_salt,
            salts.d_salt == d_salt,
    {
        Self { a_salt, d_salt }
    }

    /// Splits a packed 64-byte buffer into the two salts (`a_salt` = bytes 0-31, `d_salt` = bytes
    /// 32-63).
    pub fn from_ref(data: &[u8; 64]) -> (salts: Self)
        ensures
            salts.a_salt@ == data@.subrange(0, 32),
            salts.d_salt@ == data@.subrange(32, 64),
    {
        Self { a_salt: array_at::<32>(data, 0), d_salt: array_at::<32>(data, 32) }
    }

    /// Replaces both salts.
    pub fn update(&mut self, new: Salts)
        ensures
            *final(self) == new,
    {
        *self = new;
    }
}

/// How an authentication ended.
#[derive(Debug, Clone, Copy, PartialEq, Eq)]
pub enum Verdict {
    /// Both sides proved that they know the pre-shared key; this is the session key.
    Accepted([u8; 32]),
    /// The peer is not trusted, or did not prove itself.
    Refused,
    /// The exchange broke down.
    Failed(AuthErrors),
}

/// A [`Verdict`] with its session key as a mathematical sequence.
pub enum VerdictView {
    Accepted(Seq<u8>),
    Refused,
    Failed(AuthErrors),
}

impl View for Verdict {
    type V = VerdictView;

    open spec fn view(&self) -> VerdictView {
        match self {
            Verdict::Accepted(session) => VerdictView::Accepted(session@),
            Verdict::Refused => VerdictView::Refused,
            Verdict::Failed(e) => VerdictView::Failed(*e),
        }
    }
}

impl Verdict {
    /// Returns (authenticated, session key). A refusal carries the all-zero key.
    pub fn into_result(self) -> (r: Result<(bool, [u8; 32]), AuthErrors>)
        ensures
            match (self, r) {
                (Verdict::Accepted(session), Ok((authenticated, key))) => authenticated && key
                    == session,
                (Verdict::Refused, Ok((authenticated, key))) => !authenticated && key@
                    == zero_key(),
                (Verdict::Failed(e), Err(reported)) => reported == e,
                _ => false,
            },
    {
        match self {
            Verdict::Accepted(session) => Ok((true, session)),
            Verdict::Refused => {
                let zeros: [u8; 32] = [0u8; 32];
                assert(zeros@ =~= zero_key());
                Ok((false, zeros))
            },
            Verdict::Failed(e) => Err(e),
        }
    }
}

/// The session key of the holder of `private_key` with the holder of `their_public`; the raw shared
/// secret is wiped.
///
/// Whoever holds the secret behind `their_public` arrives at the same key from our public key.
pub fn derive_session(private_key: &[u8; 32], their_public: &[u8; 32]) -> (session: [u8; 32])
    ensures
        session@ == crate::x25519_cesa::session_key(private_key@, their_public@),
        forall|theirs: Seq<u8>|
            theirs.len() == 32 && their_public@ == #[trigger] crate::x25519_cesa::x25519_public(
                theirs,
            ) ==> session@ == crate::x25519_cesa::session_key(
                theirs,
                crate::x25519_cesa::x25519_public(private_key@),
            ),
{
    let mut shared = calculate_shared_key(private_key, their_public);
    let session = hash_key(&shared);
    wipe(&mut shared);
    session
}

/// Where the server's side of a handshake stands.
pub enum Incoming {
    /// Waiting for the client's ephemeral public key.
    TheirKey,
    /// Our public key is on its way out.
    OurKey { session: [u8; 32] },
    /// Waiting for the client's encrypted pre-shared key.
    Proof { session: [u8; 32] },
    /// Our encrypted pre-shared key is on its way out.
    Echo { session: [u8; 32] },
    /// Waiting for the client's encrypted confirmation byte.
    Confirmation { session: [u8; 32] },
}

/// An [`Incoming`] with its session key as a mathematical sequence.
pub enum IncomingView {
    TheirKey,
    OurKey(Seq<u8>),
    Proof(Seq<u8>),
    Echo(Seq<u8>),
    Confirmation(Seq<u8>),
}

impl View for Incoming {
    type V = IncomingView;

    open spec fn view(&self) -> IncomingView {
        match self {
            Incoming::TheirKey => IncomingView::TheirKey,
            Incoming::OurKey { session } => IncomingView::OurKey(session@),
            Incoming::Proof { session } => IncomingView::Proof(session@),
            Incoming::Echo { session } => IncomingView::Echo(session@),
            Incoming::Confirmation { session } => IncomingView::Confirmation(session@),
        }
    }
}

/// The all-zero key.
pub open spec fn zero_key() -> Seq<u8> {
    Seq::new(32, |i: int| 0u8)
}

/// The server's side of the handshake, one stream operation at a time.
///
/// `private_key` is the ephemeral key used where the client's public key is answered, `nonce` the
/// one under which our echo is encrypted (none where the OS supplied none).
pub open spec fn incoming_next(
    state: IncomingView,
    event: EventView,
    a_key: Seq<u8>,
    private_key: Seq<u8>,
    nonce: Option<Seq<u8>>,
) -> TurnView<IncomingView, VerdictView> {
    match state {
        IncomingView::TheirKey => if !event.is_read_of(32) {
            TurnView::Finish(VerdictView::Failed(AuthErrors::FailedToReadFromStream))
        } else if event.bytes() == zero_key() {
            TurnView::Finish(VerdictView::Refused)
        } else {
            TurnView::Write(
                IncomingView::OurKey(crate::x25519_cesa::session_key(private_key, event.bytes())),
                crate::x25519_cesa::x25519_public(private_key),
            )
        },
        IncomingView::OurKey(session) => if event != EventView::Written {
            TurnView::Finish(VerdictView::Failed(AuthErrors::FailedToWriteToStream))
        } else {
            TurnView::Read(IncomingView::Proof(session), 60)
        },
        IncomingView::Proof(session) => if !event.is_read_of(60) {
            TurnView::Finish(VerdictView::Failed(AuthErrors::FailedToReadFromStream))
        } else {
            match tunnel_open(session, event.bytes()) {
                None => TurnView::Finish(VerdictView::Failed(AuthErrors::FailedToDecrypt)),
                Some(key) => if key != a_key {
                    TurnView::Finish(VerdictView::Refused)
                } else if nonce is None {
                    TurnView::Finish(VerdictView::Failed(AuthErrors::FailedToEncrypt))
                } else {
                    TurnView::Write(
                        IncomingView::Echo(session),
                        tunnel_seal(session, nonce->0, a_key),
                    )
                },
            }
        },
        IncomingView::Echo(session) => if event != EventView::Written {
            TurnView::Finish(VerdictView::Failed(AuthErrors::FailedToWriteToStream))
        } else {
            TurnView::Read(IncomingView::Confirmation(session), 29)
        },
        IncomingView::Confirmation(session) => if !event.is_read_of(29) {
            TurnView::Finish(VerdictView::Failed(AuthErrors::FailedToReadFromStream))
        } else {
            match tunnel_open(session, event.bytes()) {
                None => TurnView::Finish(VerdictView::Failed(AuthErrors::FailedToDecrypt)),
                Some(confirmation) => if confirmation == seq![1u8] {
                    TurnView::Finish(VerdictView::Accepted(session))
                } else {
                    TurnView::Finish(VerdictView::Refused)
                },
            }
        },
    }
}

/// What the client can make of what the server sends: whoever holds the secret behind the client's
/// public key arrives at the server's session key from the server's public key, and under that key
/// the echo opens to the pre-shared key.
pub open spec fn incoming_promise(
    event: EventView,
    a_key: Seq<u8>,
    turn: TurnView<IncomingView, VerdictView>,
) -> bool {
    match turn {
        TurnView::Write(IncomingView::OurKey(session), ours) => ours.len() == 32 && forall|
            theirs: Seq<u8>,
        |
            theirs.len() == 32 && event.bytes() == #[trigger] crate::x25519_cesa::x25519_public(
                theirs,
            ) ==> session == crate::x25519_cesa::session_key(theirs, ours),
        TurnView::Write(IncomingView::Echo(session), echo) => echo.len() == 60 && tunnel_open(
            session,
            echo,
        ) == Some(a_key),
        _ => true,
    }
}

/// Where the randomness of a step on the server's side comes from: the ephemeral key that answers
/// the client's public key is one that the OS supplied, and so is the nonce of the echo, which is
/// absent only where the OS refused it.
pub open spec fn incoming_draws(
    state: IncomingView,
    event: EventView,
    private_key: Seq<u8>,
    nonce: Option<Seq<u8>>,
) -> bool {
    match state {
        IncomingView::TheirKey => event.is_read_of(32) && event.bytes() != zero_key()
            ==> crate::crand::os_supplied::<32>(private_key),
        IncomingView::Proof(_) => crate::crand::os_answered::<12>(nonce),
        _ => true,
    }
}

/// Whether `bytes` is the all-zero key.
fn is_zero_key(bytes: &[u8]) -> (zero: bool)
    ensures
        zero == (bytes@ == zero_key()),
{
    let zeros: [u8; 32] = [0u8; 32];
    assert(zeros@ =~= zero_key());
    same_bytes(bytes, &zeros)
}

impl Incoming {
    /// Opens the server's side: a peer whose IP address is not on the list is refused before any
    /// cryptography, from any other the ephemeral public key is awaited.
    pub fn begin(trusted: &[PeerAddr], peer: &PeerAddr) -> (turn: Turn<Incoming, Verdict>)
        ensures
            turn@ == (if crate::address::trusts(trusted@, *peer) {
                TurnView::Read(IncomingView::TheirKey, 32)
            } else {
                TurnView::Finish(VerdictView::Refused)
            }),
    {
        if is_trusted(trusted, peer) {
            Turn::Read(Incoming::TheirKey, 32)
        } else {
            Turn::Finish(Verdict::Refused)
        }
    }

    /// Goes on after `event`, with the randomness that the answer may need.
    pub fn advance_with(
        self,
        event: Event,
        keys: &Keys,
        private_key: [u8; 32],
        nonce: Option<[u8; 12]>,
    ) -> (turn: Turn<Incoming, Verdict>)
        ensures
            turn@ == incoming_next(
                self@,
                event@,
                keys.a_key@,
                private_key@,
                nonce_view(nonce),
            ),
            incoming_promise(event@, keys.a_key@, turn@),
    {
        match self {
            Incoming::TheirKey => match event.read_of(32) {
                None => Turn::Finish(Verdict::Failed(AuthErrors::FailedToReadFromStream)),
                Some(bytes) => {
                    // An all-zero public key is cryptographically invalid
                    if is_zero_key(&bytes) {
                        return Turn::Finish(Verdict::Refused);
                    }
                    let their_key: [u8; 32] = array_at::<32>(&bytes, 0);
                    assert(their_key@ =~= bytes@);
                    let mut private_key = private_key;
                    let our_key = calculate_public_key(&private_key);
                    let session = derive_session(&private_key, &their_key);
                    wipe(&mut private_key);
                    Turn::Write(Incoming::OurKey { session }, copied(&our_key))
                },
            },
            Incoming::OurKey { session } => if event.is_written() {
                Turn::Read(Incoming::Proof { session }, 60)
            } else {
                Turn::Finish(Verdict::Failed(AuthErrors::FailedToWriteToStream))
            },
            Incoming::Proof { session } => match event.read_of(60) {
                None => Turn::Finish(Verdict::Failed(AuthErrors::FailedToReadFromStream)),
                Some(mut bytes) => {
                    let opened = decrypt_tunnel(&session, &bytes);
                    wipe(&mut bytes);
                    match opened {
                        Err(e) => Turn::Finish(Verdict::Failed(e)),
                        Ok(mut key) => {
                            let known = same_bytes(&key, &keys.a_key.bytes);
                            wipe(&mut key);
                            if !known {
                                return Turn::Finish(Verdict::Refused);
                            }
                            match encrypt_tunnel_with(&session, &keys.a_key.bytes, nonce) {
                                Ok(echo) => Turn::Write(Incoming::Echo { session }, echo),
                                Err(e) => Turn::Finish(Verdict::Failed(e)),
                            }
                        },
                    }
                },
            },
            Incoming::Echo { session } => if event.is_written() {
                Turn::Read(Incoming::Confirmation { session }, 29)
            } else {
                Turn::Finish(Verdict::Failed(AuthErrors::FailedToWriteToStream))
            },
            Incoming::Confirmation { session } => match event.read_of(29) {
                None => Turn::Finish(Verdict::Failed(AuthErrors::FailedToReadFromStream)),
                Some(mut bytes) => {
                    let opened = decrypt_tunnel(&session, &bytes);
                    wipe(&mut bytes);
                    match opened {
                        Err(e) => Turn::Finish(Verdict::Failed(e)),
                        Ok(mut confirmation) => {
                            let expected: [u8; 1] = [1u8];
                            let confirmed = same_bytes(&confirmation, &expected);
                            assert(expected@ =~= seq![1u8]);
                            wipe(&mut confirmation);
                            if confirmed {
                                Turn::Finish(Verdict::Accepted(session))
                            } else {
                                Turn::Finish(Verdict::Refused)
                            }
                        },
                    }
                },
            },
        }
    }

    /// Whether the answer to `event` takes a fresh private key.
    fn takes_private_key(&self, event: &Event) -> (takes: bool)
        ensures
            takes == (self@ == IncomingView::TheirKey && event@.is_read_of(32) && event@.bytes()
                != zero_key()),
    {
        match self {
            Incoming::TheirKey => match event {
                Event::Read(bytes) => bytes.len() == 32 && !is_zero_key(bytes),
                _ => false,
            },
            _ => false,
        }
    }

    /// Goes on after `event`, drawing from the OS what the answer needs: an ephemeral private key
    /// where the client's public key is answered, a nonce where the proof is.
    ///
    /// Without a private key there is no answer, and the generator's error comes back.
    pub fn advance(self, event: Event, keys: &Keys) -> (r: Result<
        Turn<Incoming, Verdict>,
        CRandErrors,
    >)
        ensures
            match r {
                Ok(turn) => incoming_promise(event@, keys.a_key@, turn@) && exists|
                    private_key: [u8; 32],
                    nonce: Option<[u8; 12]>,
                |
                    turn@ == #[trigger] incoming_next(
                        self@,
                        event@,
                        keys.a_key@,
                        private_key@,
                        nonce_view(nonce),
                    ) && incoming_draws(self@, event@, private_key@, nonce_view(nonce)),
                Err(e) => e == CRandErrors::FailedToFillBuffer && self@ == IncomingView::TheirKey
                    && event@.is_read_of(32) && event@.bytes() != zero_key()
                    && crate::crand::os_refused::<32>(),
            },
    {
        let mut private_key: [u8; 32] = [0u8; 32];
        let mut nonce: Option<[u8; 12]> = None;
        if self.takes_private_key(&event) {
            match generate_private_key() {
                Ok(key) => {
                    private_key = key;
                },
                Err(e) => {
                    return Err(e);
                },
            }
        }
        if let Incoming::Proof { .. } = self {
            nonce = fresh_nonce();
        }
        Ok(self.advance_with(event, keys, private_key, nonce))
    }
}

/// Where the client's side of a handshake stands.
pub enum Outgoing {
    /// Our ephemeral public key is on its way out.
    OurKey { private_key: [u8; 32] },
    /// Waiting for the server's ephemeral public key.
    TheirKey { private_key: [u8; 32] },
    /// Our encrypted pre-shared key is on its way out.
    Proof { session: [u8; 32] },
    /// Waiting for the server's encrypted pre-shared key.
    Echo { session: [u8; 32] },
    /// Our encrypted confirmation byte is on its way out; `verified` says which one.
    Confirmation { session: [u8; 32], verified: bool },
}

/// An [`Outgoing`] with its keys as mathematical sequences.
pub enum OutgoingView {
    OurKey(Seq<u8>),
    TheirKey(Seq<u8>),
    Proof(Seq<u8>),
    Echo(Seq<u8>),
    Confirmation(Seq<u8>, bool),
}

impl View for Outgoing {
    type V = OutgoingView;

    open spec fn view(&self) -> OutgoingView {
        match self {
            Outgoing::OurKey { private_key } => OutgoingView::OurKey(private_key@),
            Outgoing::TheirKey { private_key } => OutgoingView::TheirKey(private_key@),
            Outgoing::Proof { session } => OutgoingView::Proof(session@),
            Outgoing::Echo { session } => OutgoingView::Echo(session@),
            Outgoing::Confirmation { session, verified } => OutgoingView::Confirmation(
                session@,
                *verified,
            ),
        }
    }
}

/// The confirmation byte: 1 where the server proved itself, 0 where it did not.
pub open spec fn confirmation(verified: bool) -> Seq<u8> {
    if verified {
        seq![1u8]
    } else {
        seq![0u8]
    }
}

/// How the client's side opens: an untrusted peer is refused before any cryptography, any other is
/// sent our ephemeral public key.
pub open spec fn outgoing_first(trusted: bool, private_key: Seq<u8>) -> TurnView<
    OutgoingView,
    VerdictView,
> {
    if trusted {
        TurnView::Write(
            OutgoingView::OurKey(private_key),
            crate::x25519_cesa::x25519_public(private_key),
        )
    } else {
        TurnView::Finish(VerdictView::Refused)
    }
}

/// The client's side of the handshake, one stream operation at a time.
///
/// `nonce` is the one under which the next message is encrypted (none where the OS supplied none).
pub open spec fn outgoing_next(
    state: OutgoingView,
    event: EventView,
    a_key: Seq<u8>,
    nonce: Option<Seq<u8>>,
) -> TurnView<OutgoingView, VerdictView> {
    match state {
        OutgoingView::OurKey(private_key) => if event != EventView::Written {
            TurnView::Finish(VerdictView::Failed(AuthErrors::FailedToWriteToStream))
        } else {
            TurnView::Read(OutgoingView::TheirKey(private_key), 32)
        },
        OutgoingView::TheirKey(private_key) => if !event.is_read_of(32) {
            TurnView::Finish(VerdictView::Failed(AuthErrors::FailedToReadFromStream))
        } else if nonce is None {
            TurnView::Finish(VerdictView::Failed(AuthErrors::FailedToEncrypt))
        } else {
            let session = crate::x25519_cesa::session_key(private_key, event.bytes());
            TurnView::Write(OutgoingView::Proof(session), tunnel_seal(session, nonce->0, a_key))
        },
        OutgoingView::Proof(session) => if event != EventView::Written {
            TurnView::Finish(VerdictView::Failed(AuthErrors::FailedToWriteToStream))
        } else {
            TurnView::Read(OutgoingView::Echo(session), 60)
        },
        OutgoingView::Echo(session) => if !event.is_read_of(60) {
            TurnView::Finish(VerdictView::Failed(AuthErrors::FailedToReadFromStream))
        } else {
            match tunnel_open(session, event.bytes()) {
                None => TurnView::Finish(VerdictView::Failed(AuthErrors::FailedToDecrypt)),
                Some(key) => if nonce is None {
                    TurnView::Finish(VerdictView::Failed(AuthErrors::FailedToEncrypt))
                } else {
                    TurnView::Write(
                        OutgoingView::Confirmation(session, key == a_key),
                        tunnel_seal(session, nonce->0, confirmation(key == a_key)),
                    )
                },
            }
        },
        OutgoingView::Confirmation(session, verified) => if event != EventView::Written {
            TurnView::Finish(VerdictView::Failed(AuthErrors::FailedToWriteToStream))
        } else if verified {
            TurnView::Finish(VerdictView::Accepted(session))
        } else {
            TurnView::Finish(VerdictView::Refused)
        },
    }
}

/// What the server can make of what the client sends: whoever holds the secret behind the server's
/// public key arrives at the client's session key from the client's public key, and under that key
/// the proof opens to the pre-shared key and the confirmation to its byte.
pub open spec fn outgoing_promise(
    state: OutgoingView,
    event: EventView,
    a_key: Seq<u8>,
    turn: TurnView<OutgoingView, VerdictView>,
) -> bool {
    match turn {
        TurnView::Write(OutgoingView::Proof(session), proof) => proof.len() == 60 && tunnel_open(
            session,
            proof,
        ) == Some(a_key) && match state {
            OutgoingView::TheirKey(private_key) => forall|theirs: Seq<u8>|
                theirs.len() == 32 && event.bytes() == #[trigger] crate::x25519_cesa::x25519_public(
                    theirs,
                ) ==> session == crate::x25519_cesa::session_key(
                    theirs,
                    crate::x25519_cesa::x25519_public(private_key),
                ),
            _ => true,
        },
        TurnView::Write(OutgoingView::Confirmation(session, verified), byte) => byte.len() == 29
            && tunnel_open(session, byte) == Some(confirmation(verified)),
        _ => true,
    }
}

/// Where the nonce of a step on the client's side comes from: one that a message is encrypted under
/// is one that the OS supplied, and it is absent only where the OS refused it.
pub open spec fn outgoing_draws(state: OutgoingView, nonce: Option<Seq<u8>>) -> bool {
    match state {
        OutgoingView::TheirKey(_) => crate::crand::os_answered::<12>(nonce),
        OutgoingView::Echo(_) => crate::crand::os_answered::<12>(nonce),
        _ => true,
    }
}

impl Outgoing {
    /// Opens the client's side under a given ephemeral private key.
    pub fn begin_with(trusted: &[PeerAddr], peer: &PeerAddr, private_key: [u8; 32]) -> (turn: Turn<
        Outgoing,
        Verdict,
    >)
        ensures
            turn@ == outgoing_first(crate::address::trusts(trusted@, *peer), private_key@),
            match turn@ {
                TurnView::Write(_, ours) => ours.len() == 32 && ours != zero_key(),
                _ => true,
            },
    {
        if is_trusted(trusted, peer) {
            let our_key = calculate_public_key(&private_key);
            Turn::Write(Outgoing::OurKey { private_key }, copied(&our_key))
        } else {
            Turn::Finish(Verdict::Refused)
        }
    }

    /// Opens the client's side, drawing the ephemeral private key from the OS where the peer is
    /// trusted. Without one there is no handshake, and the generator's error comes back.
    pub fn begin(trusted: &[PeerAddr], peer: &PeerAddr) -> (r: Result<
        Turn<Outgoing, Verdict>,
        CRandErrors,
    >)
        ensures
            match r {
                Ok(turn) => (exists|private_key: [u8; 32]|
                    turn@ == #[trigger] outgoing_first(
                        crate::address::trusts(trusted@, *peer),
                        private_key@,
                    ) && (crate::address::trusts(trusted@, *peer) ==> crate::crand::os_supplied::<
                        32,
                    >(private_key@))) && match turn@ {
                    TurnView::Write(_, ours) => ours.len() == 32 && ours != zero_key(),
                    _ => true,
                },
                Err(e) => e == CRandErrors::FailedToFillBuffer && crate::address::trusts(
                    trusted@,
                    *peer,
                ) && crate::crand::os_refused::<32>(),
            },
    {
        let mut private_key: [u8; 32] = [0u8; 32];
        if is_trusted(trusted, peer) {
            match generate_private_key() {
                Ok(key) => {
                    private_key = key;
                },
                Err(e) => {
                    return Err(e);
                },
            }
        }
        Ok(Outgoing::begin_with(trusted, peer, private_key))
    }

    /// Goes on after `event`, with the nonce that the answer may need.
    pub fn advance_with(self, event: Event, keys: &Keys, nonce: Option<[u8; 12]>) -> (turn: Turn<
        Outgoing,
        Verdict,
    >)
        ensures
            turn@ == outgoing_next(self@, event@, keys.a_key@, nonce_view(nonce)),
            outgoing_promise(self@, event@, keys.a_key@, turn@),
    {
        match self {
            Outgoing::OurKey { private_key } => if event.is_written() {
                Turn::Read(Outgoing::TheirKey { private_key }, 32)
            } else {
                Turn::Finish(Verdict::Failed(AuthErrors::FailedToWriteToStream))
            },
            Outgoing::TheirKey { mut private_key } => match event.read_of(32) {
                None => Turn::Finish(Verdict::Failed(AuthErrors::FailedToReadFromStream)),
                Some(bytes) => {
                    let their_key: [u8; 32] = array_at::<32>(&bytes, 0);
                    assert(their_key@ =~= bytes@);
                    let session = derive_session(&private_key, &their_key);
                    wipe(&mut private_key);
                    match encrypt_tunnel_with(&session, &keys.a_key.bytes, nonce) {
                        Ok(proof) => Turn::Write(Outgoing::Proof { session }, proof),
                        Err(e) => Turn::Finish(Verdict::Failed(e)),
                    }
                },
            },
            Outgoing::Proof { session } => if event.is_written() {
                Turn::Read(Outgoing::Echo { session }, 60)
            } else {
                Turn::Finish(Verdict::Failed(AuthErrors::FailedToWriteToStream))
            },
            Outgoing::Echo { session } => match event.read_of(60) {
                None => Turn::Finish(Verdict::Failed(AuthErrors::FailedToReadFromStream)),
                Some(mut bytes) => {
                    let opened = decrypt_tunnel(&session, &bytes);
                    wipe(&mut bytes);
                    match opened {
                        Err(e) => Turn::Finish(Verdict::Failed(e)),
                        Ok(mut key) => {
                            let verified = same_bytes(&key, &keys.a_key.bytes);
                            wipe(&mut key);
                            let byte: [u8; 1] = if verified {
                                [1u8]
                            } else {
                                [0u8]
                            };
                            assert(byte@ =~= confirmation(verified));
                            match encrypt_tunnel_with(&session, &byte, nonce) {
                                Ok(sealed) => Turn::Write(
                                    Outgoing::Confirmation { session, verified },
                                    sealed,
                                ),
                                Err(e) => Turn::Finish(Verdict::Failed(e)),
                            }
                        },
                    }
                },
            },
            Outgoing::Confirmation { session, verified } => if !event.is_written() {
                Turn::Finish(Verdict::Failed(AuthErrors::FailedToWriteToStream))
            } else if verified {
                Turn::Finish(Verdict::Accepted(session))
            } else {
                Turn::Finish(Verdict::Refused)
            },
        }
    }

    /// Goes on after `event`, drawing a nonce from the OS where the answer is encrypted.
    pub fn advance(self, event: Event, keys: &Keys) -> (turn: Turn<Outgoing, Verdict>)
        ensures
            exists|nonce: Option<[u8; 12]>|
                turn@ == #[trigger] outgoing_next(
                    self@,
                    event@,
                    keys.a_key@,
                    nonce_view(nonce),
                ) && outgoing_draws(self@, nonce_view(nonce)),
            outgoing_promise(self@, event@, keys.a_key@, turn@),
    {
        let nonce: Option<[u8; 12]> = match self {
            Outgoing::TheirKey { .. } => fresh_nonce(),
            Outgoing::Echo { .. } => fresh_nonce(),
            _ => None,
        };
        self.advance_with(event, keys, nonce)
    }
}

/// What the server's side has to go on in one step: the event, the authentication key at the time,
/// and the randomness.
pub struct IncomingInput {
    pub event: EventView,
    pub a_key: Seq<u8>,
    pub private_key: Seq<u8>,
    pub nonce: Option<Seq<u8>>,
}

/// How the server's side ends on a sequence of inputs, where it does.
pub open spec fn incoming_run(state: IncomingView, inputs: Seq<IncomingInput>) -> Option<
    VerdictView,
>
    decreases inputs.len(),
{
    if inputs.len() == 0 {
        None
    } else {
        let first = inputs[0];
        match incoming_next(state, first.event, first.a_key, first.private_key, first.nonce) {
            TurnView::Finish(verdict) => Some(verdict),
            TurnView::Read(then, _) => incoming_run(then, inputs.drop_first()),
            TurnView::Write(then, _) => incoming_run(then, inputs.drop_first()),
        }
    }
}

/// The server accepts only a client that proved itself: the client's public key was a valid one,
/// and under the session key that follows from it the client's proof was the authentication key and
/// its confirmation was positive. No handshake takes more than five steps.
pub proof fn law_incoming_accepts_only_proven(inputs: Seq<IncomingInput>)
    ensures
        inputs.len() >= 5 ==> incoming_run(IncomingView::TheirKey, inputs) is Some,
        match incoming_run(IncomingView::TheirKey, inputs) {
            Some(VerdictView::Accepted(session)) => {
                &&& inputs.len() >= 5
                &&& inputs[0].event.is_read_of(32)
                &&& inputs[0].event.bytes() != zero_key()
                &&& session == crate::x25519_cesa::session_key(
                    inputs[0].private_key,
                    inputs[0].event.bytes(),
                )
                &&& tunnel_open(session, inputs[2].event.bytes()) == Some(inputs[2].a_key)
                &&& tunnel_open(session, inputs[4].event.bytes()) == Some(confirmation(true))
            },
            _ => true,
        },
{
    reveal_with_fuel(incoming_run, 6);
}

/// What the client's side has to go on in one step: the event, the authentication key at the time,
/// and the nonce.
pub struct OutgoingInput {
    pub event: EventView,
    pub a_key: Seq<u8>,
    pub nonce: Option<Seq<u8>>,
}

/// How the client's side ends on a sequence of inputs, where it does.
pub open spec fn outgoing_run(state: OutgoingView, inputs: Seq<OutgoingInput>) -> Option<
    VerdictView,
>
    decreases inputs.len(),
{
    if inputs.len() == 0 {
        None
    } else {
        let first = inputs[0];
        match outgoing_next(state, first.event, first.a_key, first.nonce) {
            TurnView::Finish(verdict) => Some(verdict),
            TurnView::Read(then, _) => outgoing_run(then, inputs.drop_first()),
            TurnView::Write(then, _) => outgoing_run(then, inputs.drop_first()),
        }
    }
}

/// The client accepts only a server that proved itself: under the session key that follows from the
/// server's public key its echo was the authentication key. No handshake takes more than five
/// steps.
pub proof fn law_outgoing_accepts_only_proven(private_key: Seq<u8>, inputs: Seq<OutgoingInput>)
    ensures
        inputs.len() >= 5 ==> outgoing_run(OutgoingView::OurKey(private_key), inputs) is Some,
        match outgoing_run(OutgoingView::OurKey(private_key), inputs) {
            Some(VerdictView::Accepted(session)) => {
                &&& inputs.len() >= 5
                &&& session == crate::x25519_cesa::session_key(
                    private_key,
                    inputs[1].event.bytes(),
                )
                &&& tunnel_open(session, inputs[3].event.bytes()) == Some(inputs[3].a_key)
            },
            _ => true,
        },
{
    reveal_with_fuel(outgoing_run, 6);
}

/// The server's side fails for want of randomness only where the OS refused it: without an ephemeral
/// key there is no answer to the client's key, and without a nonce no echo.
pub proof fn law_incoming_fails_for_want_of_randomness_only_where_the_os_refused(
    state: Incoming,
    event: Event,
    keys: &Keys,
    r: Result<Turn<Incoming, Verdict>, CRandErrors>,
)
    requires
        call_ensures(Incoming::advance, (state, event, keys), r),
    ensures
        r is Err ==> crate::crand::os_refused::<32>(),
        match r {
            Ok(turn) => turn@ == TurnView::<IncomingView, VerdictView>::Finish(
                VerdictView::Failed(AuthErrors::FailedToEncrypt),
            ) ==> crate::crand::os_refused::<12>(),
            Err(_) => true,
        },
{
}

/// Where the OS supplies what it is asked for, a client that holds the authentication key is led
/// through the handshake. Its public key is answered with one that the OS gave the secret of, its
/// proof with an echo that opens to the authentication key, and its positive confirmation is what
/// makes the server accept, under the session key of the two public keys.
pub proof fn law_incoming_leads_an_honest_client_through(
    state: Incoming,
    event: Event,
    keys: &Keys,
    r: Result<Turn<Incoming, Verdict>, CRandErrors>,
)
    requires
        call_ensures(Incoming::advance, (state, event, keys), r),
        !crate::crand::os_refused::<12>(),
        !crate::crand::os_refused::<32>(),
    ensures
        match (state@, event@, r) {
            (IncomingView::TheirKey, EventView::Read(theirs), Ok(turn)) => theirs.len() == 32
                && !crate::x25519_cesa::all_zero(theirs) ==> match turn@ {
                TurnView::Write(IncomingView::OurKey(session), ours) => ours.len() == 32
                    && exists|ours_secret: Seq<u8>| #[trigger]
                    crate::crand::os_supplied::<32>(ours_secret) && ours
                        == crate::x25519_cesa::x25519_public(ours_secret) && session
                        == crate::x25519_cesa::session_key(ours_secret, theirs),
                _ => false,
            },
            (IncomingView::OurKey(session), EventView::Written, Ok(turn)) => turn@
                == TurnView::<IncomingView, VerdictView>::Read(IncomingView::Proof(session), 60),
            (IncomingView::Proof(session), EventView::Read(proof), Ok(turn)) => proof.len() == 60
                && tunnel_open(session, proof) == Some(keys.a_key@) ==> match turn@ {
                TurnView::Write(IncomingView::Echo(after), echo) => after == session && echo.len()
                    == 60 && tunnel_open(session, echo) == Some(keys.a_key@)
                    && crate::crand::os_supplied::<12>(echo.subrange(0, 12)),
                _ => false,
            },
            (IncomingView::Echo(session), EventView::Written, Ok(turn)) => turn@ == TurnView::<
                IncomingView,
                VerdictView,
            >::Read(IncomingView::Confirmation(session), 29),
            (IncomingView::Confirmation(session), EventView::Read(byte), Ok(turn)) => byte.len()
                == 29 && tunnel_open(session, byte) == Some(seq![1u8]) ==> turn@ == TurnView::<
                IncomingView,
                VerdictView,
            >::Finish(VerdictView::Accepted(session)),
            (_, _, Ok(_)) => true,
            (_, _, Err(_)) => false,
        },
{
    if state@ == IncomingView::TheirKey && event@.is_read_of(32) && event@.bytes() == zero_key() {
        assert(crate::x25519_cesa::all_zero(event@.bytes()));
    }
    if let Ok(turn) = r {
        let (private_key, nonce) = choose|private_key: [u8; 32], nonce: Option<[u8; 12]>|
            turn@ == #[trigger] incoming_next(
                state@,
                event@,
                keys.a_key@,
                private_key@,
                nonce_view(nonce),
            ) && incoming_draws(state@, event@, private_key@, nonce_view(nonce));
        if let TurnView::Write(IncomingView::Echo(session), echo) = turn@ {
            assert(echo.subrange(0, 12) =~= nonce->0@);
        }
    }
}

/// What the server's side tells a client that does not follow: a key of zeros, a proof of another
/// key and a confirmation other than the positive one are refused, what does not open under the
/// session key is a failure to decrypt, and a read or a write that does not come about is reported
/// as one.
pub proof fn law_incoming_turns_others_away(
    state: Incoming,
    event: Event,
    keys: &Keys,
    r: Result<Turn<Incoming, Verdict>, CRandErrors>,
)
    requires
        call_ensures(Incoming::advance, (state, event, keys), r),
    ensures
        ({
            let refused = TurnView::<IncomingView, VerdictView>::Finish(VerdictView::Refused);
            let unreadable = TurnView::<IncomingView, VerdictView>::Finish(
                VerdictView::Failed(AuthErrors::FailedToDecrypt),
            );
            let no_read = TurnView::<IncomingView, VerdictView>::Finish(
                VerdictView::Failed(AuthErrors::FailedToReadFromStream),
            );
            let no_write = TurnView::<IncomingView, VerdictView>::Finish(
                VerdictView::Failed(AuthErrors::FailedToWriteToStream),
            );
            match (state@, event@) {
                (IncomingView::TheirKey, EventView::Read(theirs)) => {
                    &&& theirs.len() == 32 && crate::x25519_cesa::all_zero(theirs) ==> r is Ok
                        && r->Ok_0@ == refused
                    &&& theirs.len() != 32 ==> r is Ok && r->Ok_0@ == no_read
                },
                (IncomingView::Proof(session), EventView::Read(proof)) => r is Ok && if proof.len()
                    != 60 {
                    r->Ok_0@ == no_read
                } else {
                    match tunnel_open(session, proof) {
                        None => r->Ok_0@ == unreadable,
                        Some(key) => key != keys.a_key@ ==> r->Ok_0@ == refused,
                    }
                },
                (IncomingView::Confirmation(session), EventView::Read(byte)) => r is Ok
                    && if byte.len() != 29 {
                    r->Ok_0@ == no_read
                } else {
                    match tunnel_open(session, byte) {
                        None => r->Ok_0@ == unreadable,
                        Some(byte) => byte != seq![1u8] ==> r->Ok_0@ == refused,
                    }
                },
                (IncomingView::TheirKey, _) => r is Ok && r->Ok_0@ == no_read,
                (IncomingView::Proof(_), _) => r is Ok && r->Ok_0@ == no_read,
                (IncomingView::Confirmation(_), _) => r is Ok && r->Ok_0@ == no_read,
                (_, EventView::Written) => true,
                (_, _) => r is Ok && r->Ok_0@ == no_write,
            }
        }),
{
    if event@.is_read_of(32) && crate::x25519_cesa::all_zero(event@.bytes()) {
        assert(event@.bytes() =~= zero_key());
    }
}

/// The client's side fails for want of randomness only where the OS refused it.
pub proof fn law_outgoing_fails_for_want_of_randomness_only_where_the_os_refused(
    trusted: &[PeerAddr],
    peer: &PeerAddr,
    first: Result<Turn<Outgoing, Verdict>, CRandErrors>,
    state: Outgoing,
    event: Event,
    keys: &Keys,
    turn: Turn<Outgoing, Verdict>,
)
    requires
        call_ensures(Outgoing::begin, (trusted, peer), first),
        call_ensures(Outgoing::advance, (state, event, keys), turn),
    ensures
        first is Err ==> crate::crand::os_refused::<32>(),
        turn@ == TurnView::<OutgoingView, VerdictView>::Finish(
            VerdictView::Failed(AuthErrors::FailedToEncrypt),
        ) ==> crate::crand::os_refused::<12>(),
{
}

/// A client's first message goes to a peer whose IP address is on the list, and to no other; it is
/// the public key of a secret that the OS supplied.
pub proof fn law_outgoing_speaks_to_trusted_peers_only(
    trusted: &[PeerAddr],
    peer: &PeerAddr,
    first: Result<Turn<Outgoing, Verdict>, CRandErrors>,
)
    requires
        call_ensures(Outgoing::begin, (trusted, peer), first),
    ensures
        (exists|i: int| 0 <= i < trusted@.len() && (#[trigger] trusted@[i]).ip() == peer.ip())
            && !crate::crand::os_refused::<32>() ==> match first {
            Ok(turn) => match turn@ {
                TurnView::Write(OutgoingView::OurKey(secret), ours) => ours
                    == crate::x25519_cesa::x25519_public(secret)
                    && crate::crand::os_supplied::<32>(secret),
                _ => false,
            },
            Err(_) => false,
        },
        (forall|i: int| 0 <= i < trusted@.len() ==> (#[trigger] trusted@[i]).ip() != peer.ip())
            ==> match first {
            Ok(turn) => turn@ == TurnView::<OutgoingView, VerdictView>::Finish(
                VerdictView::Refused,
            ),
            Err(_) => false,
        },
{
    crate::address::law_trusted_are_the_listed(trusted@, *peer);
}

/// Where the OS supplies what it is asked for, a server that holds the authentication key is led
/// through the handshake: its public key is answered with a proof that opens, under the session key,
/// to the authentication key, its echo with the positive confirmation, and once that went out the
/// client accepts.
pub proof fn law_outgoing_leads_an_honest_server_through(
    state: Outgoing,
    event: Event,
    keys: &Keys,
    turn: Turn<Outgoing, Verdict>,
)
    requires
        call_ensures(Outgoing::advance, (state, event, keys), turn),
        !crate::crand::os_refused::<12>(),
    ensures
        match (state@, event@) {
            (OutgoingView::OurKey(secret), EventView::Written) => turn@ == TurnView::<
                OutgoingView,
                VerdictView,
            >::Read(OutgoingView::TheirKey(secret), 32),
            (OutgoingView::TheirKey(secret), EventView::Read(theirs)) => theirs.len() == 32
                ==> match turn@ {
                TurnView::Write(OutgoingView::Proof(session), proof) => session
                    == crate::x25519_cesa::session_key(secret, theirs) && proof.len() == 60
                    && tunnel_open(session, proof) == Some(keys.a_key@)
                    && crate::crand::os_supplied::<12>(proof.subrange(0, 12)),
                _ => false,
            },
            (OutgoingView::Proof(session), EventView::Written) => turn@ == TurnView::<
                OutgoingView,
                VerdictView,
            >::Read(OutgoingView::Echo(session), 60),
            (OutgoingView::Echo(session), EventView::Read(echo)) => echo.len() == 60 && tunnel_open(
                session,
                echo,
            ) == Some(keys.a_key@) ==> match turn@ {
                TurnView::Write(OutgoingView::Confirmation(after, verified), byte) => after
                    == session && verified && byte.len() == 29 && tunnel_open(session, byte)
                    == Some(seq![1u8]) && crate::crand::os_supplied::<12>(byte.subrange(0, 12)),
                _ => false,
            },
            (OutgoingView::Confirmation(session, true), EventView::Written) => turn@ == TurnView::<
                OutgoingView,
                VerdictView,
            >::Finish(VerdictView::Accepted(session)),
            _ => true,
        },
{
    let nonce = choose|nonce: Option<[u8; 12]>|
        turn@ == #[trigger] outgoing_next(state@, event@, keys.a_key@, nonce_view(nonce))
            && outgoing_draws(state@, nonce_view(nonce));
    match turn@ {
        TurnView::Write(OutgoingView::Proof(_), message) => {
            assert(message.subrange(0, 12) =~= nonce->0@);
        },
        TurnView::Write(OutgoingView::Confirmation(_, _), message) => {
            assert(message.subrange(0, 12) =~= nonce->0@);
        },
        _ => {},
    }
}

/// What the client's side tells a server that does not follow: an echo of another key is answered
/// with the negative confirmation and then refused, one that does not open is a failure to decrypt,
/// and a read or a write that does not come about is reported as one.
pub proof fn law_outgoing_turns_others_away(
    state: Outgoing,
    event: Event,
    keys: &Keys,
    turn: Turn<Outgoing, Verdict>,
)
    requires
        call_ensures(Outgoing::advance, (state, event, keys), turn),
    ensures
        ({
            let no_read = TurnView::<OutgoingView, VerdictView>::Finish(
                VerdictView::Failed(AuthErrors::FailedToReadFromStream),
            );
            let no_write = TurnView::<OutgoingView, VerdictView>::Finish(
                VerdictView::Failed(AuthErrors::FailedToWriteToStream),
            );
            match (state@, event@) {
                (OutgoingView::TheirKey(_), EventView::Read(theirs)) => theirs.len() != 32
                    ==> turn@ == no_read,
                (OutgoingView::Echo(session), EventView::Read(echo)) => if echo.len() != 60 {
                    turn@ == no_read
                } else {
                    match tunnel_open(session, echo) {
                        None => turn@ == TurnView::<OutgoingView, VerdictView>::Finish(
                            VerdictView::Failed(AuthErrors::FailedToDecrypt),
                        ),
                        Some(key) => key != keys.a_key@ && !crate::crand::os_refused::<12>()
                            ==> match turn@ {
                            TurnView::Write(OutgoingView::Confirmation(after, verified), byte) => {
                                after == session && !verified && tunnel_open(session, byte) == Some(
                                    seq![0u8],
                                )
                            },
                            _ => false,
                        },
                    }
                },
                (OutgoingView::TheirKey(_), _) => turn@ == no_read,
                (OutgoingView::Echo(_), _) => turn@ == no_read,
                (OutgoingView::Confirmation(_, false), EventView::Written) => turn@ == TurnView::<
                    OutgoingView,
                    VerdictView,
                >::Finish(VerdictView::Refused),
                (_, EventView::Written) => true,
                (_, _) => turn@ == no_write,
            }
        }),
{
}

/// A tunnel message is its nonce, in the first twelve bytes, and then the ciphertext of the
/// plaintext under that nonce; it is opened from the same places.
pub proof fn law_tunnel_messages_start_with_the_nonce(
    key: Seq<u8>,
    nonce: Seq<u8>,
    plaintext: Seq<u8>,
)
    requires
        nonce.len() == 12,
    ensures
        tunnel_seal(key, nonce, plaintext).subrange(0, 12) == nonce,
        tunnel_seal(key, nonce, plaintext).subrange(
            12,
            tunnel_seal(key, nonce, plaintext).len() as int,
        ) == crate::aes::gcm_seal(key, nonce, plaintext),
        tunnel_open(key, tunnel_seal(key, nonce, plaintext)) == crate::aes::opened(
            key,
            nonce,
            crate::aes::gcm_seal(key, nonce, plaintext),
        ),
{
    let message = tunnel_seal(key, nonce, plaintext);
    assert(message.subrange(0, 12) =~= nonce);
    assert(message.subrange(12, message.len() as int) =~= crate::aes::gcm_seal(
        key,
        nonce,
        plaintext,
    ));
}

/// The session key is the hash of the shared secret, never the secret itself.
pub proof fn law_session_key_is_the_hash_of_the_secret(
    private_key: &[u8; 32],
    their_public: &[u8; 32],
    session: [u8; 32],
    shared: [u8; 32],
    hash: [u8; 32],
)
    requires
        call_ensures(derive_session, (private_key, their_public), session),
        call_ensures(calculate_shared_key, (private_key, their_public), shared),
        call_ensures(hash_key, (&shared,), hash),
    ensures
        session@ == hash@,
{
}

/// A tunnel message opens to what was put in, and where the OS supplies a nonce whatever is short
/// enough can be put in.
pub proof fn law_tunnel_gives_back_the_plaintext(
    key: &[u8; 32],
    plaintext: &[u8],
    message: Result<Vec<u8>, AuthErrors>,
    received: &[u8],
    opened: Result<Vec<u8>, AuthErrors>,
)
    requires
        call_ensures(encrypt_tunnel, (key, plaintext), message),
        call_ensures(decrypt_tunnel, (key, received), opened),
    ensures
        plaintext@.len() <= crate::aes::MAX_PLAINTEXT && !crate::crand::os_refused::<12>()
            ==> message is Ok,
        message is Ok ==> message->Ok_0@.len() == plaintext@.len() + 28
            && crate::crand::os_supplied::<12>(message->Ok_0@.subrange(0, 12)),
        message is Ok && message->Ok_0@ == received@ ==> opened is Ok && opened->Ok_0@
            == plaintext@,
{
}

/// Keys keep what they are given: the authentication key is the first, or the first half of a packed
/// buffer, the data key the second.
pub proof fn law_keys_keep_their_bytes(
    a_key: [u8; 32],
    d_key: [u8; 32],
    keys: Keys,
    packed: &[u8; 64],
    unpacked: Keys,
    i: int,
)
    requires
        call_ensures(Keys::new, (a_key, d_key), keys),
        call_ensures(Keys::from_ref, (packed,), unpacked),
        0 <= i < 32,
    ensures
        keys.a_key@[i] == a_key@[i],
        keys.d_key@[i] == d_key@[i],
        unpacked.a_key@[i] == packed@[i],
        unpacked.d_key@[i] == packed@[32 + i],
{
}

/// Salts keep what they are given, in the same places.
pub proof fn law_salts_keep_their_bytes(
    a_salt: [u8; 32],
    d_salt: [u8; 32],
    salts: Salts,
    packed: &[u8; 64],
    unpacked: Salts,
    i: int,
)
    requires
        call_ensures(Salts::new, (a_salt, d_salt), salts),
        call_ensures(Salts::from_ref, (packed,), unpacked),
        0 <= i < 32,
    ensures
        salts.a_salt@[i] == a_salt@[i],
        salts.d_salt@[i] == d_salt@[i],
        unpacked.a_salt@[i] == packed@[i],
        unpacked.d_salt@[i] == packed@[32 + i],
{
}

/// Only an accepted peer is reported as authenticated, and only with the session key of the
/// handshake; a refused one is reported with a key of zeros, and a breakdown as its error.
pub proof fn law_only_acceptance_is_authenticated(
    verdict: Verdict,
    r: Result<(bool, [u8; 32]), AuthErrors>,
)
    requires
        call_ensures(Verdict::into_result, (verdict,), r),
    ensures
        match verdict@ {
            VerdictView::Accepted(session) => r is Ok && r->Ok_0.0 && r->Ok_0.1@ == session,
            VerdictView::Refused => r is Ok && !r->Ok_0.0 && crate::x25519_cesa::all_zero(
                r->Ok_0.1@,
            ),
            VerdictView::Failed(e) => r is Err && r->Err_0 == e,
        },
{
}

/// A server listens to a peer whose IP address is on the list, and to no other.
pub proof fn law_incoming_listens_to_trusted_peers_only(
    trusted: &[PeerAddr],
    peer: &PeerAddr,
    first: Turn<Incoming, Verdict>,
)
    requires
        call_ensures(Incoming::begin, (trusted, peer), first),
    ensures
        (exists|i: int| 0 <= i < trusted@.len() && (#[trigger] trusted@[i]).ip() == peer.ip())
            ==> first@ == TurnView::<IncomingView, VerdictView>::Read(IncomingView::TheirKey, 32),
        (forall|i: int| 0 <= i < trusted@.len() ==> (#[trigger] trusted@[i]).ip() != peer.ip())
            ==> first@ == TurnView::<IncomingView, VerdictView>::Finish(VerdictView::Refused),
{
    crate::address::law_trusted_are_the_listed(trusted@, *peer);
}

} // verus!
