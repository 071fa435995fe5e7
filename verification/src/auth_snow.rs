//! Hybrid authentication of an incoming connection: a SPAKE2 exchange over the pre-shared key, key
//! confirmation, and an X25519 and ML-KEM-1024 agreement that feeds the pre-shared key of a Noise
//! responder.

use crate::auth::Keys;
use crate::bytes::{array_at, copied, joined, wipe};
use crate::crand::{random_array, supplied};
use crate::exchange::{Event, EventView, Turn, TurnView};
use crate::secret::Secret;
use crate::x25519_cesa::{calculate_shared_key, generate_new_key_pair, X25519KeyPair};
use blake2::Blake2s256;
use hkdf::{InvalidLength, SimpleHkdf};
use libcrux_ml_kem::mlkem1024::{encapsulate, MlKem1024PublicKey};
use snow::params::NoiseParams;
use snow::Builder;
use spake2::{Ed25519Group, Identity, Password, Spake2};
use subtle::ConstantTimeEq;
use vstd::prelude::*;

verus! {

/// All errors that can occur during authentication.
#[derive(Debug, Clone, Copy, PartialEq, Eq, Structural)]
pub enum AuthSnowErrors {
    /// The TCP stream ended or errored before we could read all expected bytes.
    FailedToReadFromStream,
    /// AES-GCM decryption failed: wrong shared secret or tampered data.
    FailedToDecrypt,
    /// The TCP stream errored while sending data to the client.
    FailedToWriteToStream,
    /// Failed to encrypt the authentication key.
    FailedToEncrypt,
    FailedToBindPrivateKey,
    FailedToInitSnowBuilder,
    FailedToGenerateRandomData,
    FailedToFinishSpake2Exchange,
    FaledToExpandHkdf,
    FailedToConvertToArray,
    FailedToParseText,
    FailedToSetLocalPrivateKey,
    FailedToSetPsk,
}

impl AuthSnowErrors {
    /// The text shown to a user.
    pub open spec fn message(self) -> Seq<char> {
        match self {
            AuthSnowErrors::FailedToReadFromStream => {
                "failed to read authentication key from stream"@
            },
            AuthSnowErrors::FailedToDecrypt => "failed to decrypt authentication key"@,
            AuthSnowErrors::FailedToWriteToStream => "failed to write to stream"@,
            AuthSnowErrors::FailedToEncrypt => "failed to encrypt authentication key"@,
            AuthSnowErrors::FaledToExpandHkdf => "failed to expand hkdf"@,
            AuthSnowErrors::FailedToFinishSpake2Exchange => "failed to finish spake2 exchange"@,
            AuthSnowErrors::FailedToBindPrivateKey => "failed to bind private key to noise"@,
            AuthSnowErrors::FailedToInitSnowBuilder => "failed to initialize snow builder"@,
            AuthSnowErrors::FailedToGenerateRandomData => {
                "failed to generate array of random data"@
            },
            AuthSnowErrors::FailedToConvertToArray => "failed to convert vector to array"@,
            AuthSnowErrors::FailedToParseText => "failed to parse text"@,
            AuthSnowErrors::FailedToSetLocalPrivateKey => "failed to set local private key"@,
            AuthSnowErrors::FailedToSetPsk => "failed to set psk"@,
        }
    }

    /// Renders the error for a user.
    pub fn to_string(&self) -> (text: String)
        ensures
            text@ == self.message(),
    {
        match self {
            AuthSnowErrors::FailedToReadFromStream => {
                "failed to read authentication key from stream".to_owned()
            },
            AuthSnowErrors::FailedToDecrypt => "failed to decrypt authentication key".to_owned(),
            AuthSnowErrors::FailedToWriteToStream => "failed to write to stream".to_owned(),
            AuthSnowErrors::FailedToEncrypt => "failed to encrypt authentication key".to_owned(),
            AuthSnowErrors::FaledToExpandHkdf => "failed to expand hkdf".to_owned(),
            AuthSnowErrors::FailedToFinishSpake2Exchange => {
                "failed to finish spake2 exchange".to_owned()
            },
            AuthSnowErrors::FailedToBindPrivateKey => {
                "failed to bind private key to noise".to_owned()
            },
            AuthSnowErrors::FailedToInitSnowBuilder => {
                "failed to initialize snow builder".to_owned()
            },
            AuthSnowErrors::FailedToGenerateRandomData => {
                "failed to generate array of random data".to_owned()
            },
            AuthSnowErrors::FailedToConvertToArray => {
                "failed to convert vector to array".to_owned()
            },
            AuthSnowErrors::FailedToParseText => "failed to parse text".to_owned(),
            AuthSnowErrors::FailedToSetLocalPrivateKey => {
                "failed to set local private key".to_owned()
            },
            AuthSnowErrors::FailedToSetPsk => "failed to set psk".to_owned(),
        }
    }
}

/// Every error has something to say.
pub proof fn law_messages_are_not_empty(e: AuthSnowErrors)
    ensures
        e.message().len() > 0,
{
    reveal_strlit("failed to read authentication key from stream");
    reveal_strlit("failed to decrypt authentication key");
    reveal_strlit("failed to write to stream");
    reveal_strlit("failed to encrypt authentication key");
    reveal_strlit("failed to expand hkdf");
    reveal_strlit("failed to finish spake2 exchange");
    reveal_strlit("failed to bind private key to noise");
    reveal_strlit("failed to initialize snow builder");
    reveal_strlit("failed to generate array of random data");
    reveal_strlit("failed to convert vector to array");
    reveal_strlit("failed to parse text");
    reveal_strlit("failed to set local private key");
    reveal_strlit("failed to set psk");
}

/// The error of a SPAKE2 exchange, `spake2::Error`.
#[verifier::external_type_specification]
#[verifier::external_body]
pub struct ExSpake2Error(spake2::Error);

/// The error of an HKDF expansion, `hkdf::InvalidLength`.
#[verifier::external_type_specification]
#[verifier::external_body]
pub struct ExInvalidLength(InvalidLength);

/// The error of the Noise implementation, `snow::Error`.
#[verifier::external_type_specification]
#[verifier::external_body]
pub struct ExSnowError(snow::Error);

/// The parsed name of a Noise protocol, `snow::params::NoiseParams`.
#[verifier::external_type_specification]
#[verifier::external_body]
pub struct ExNoiseParams(NoiseParams);

/// A Noise session under construction, `snow::Builder`.
#[verifier::external_type_specification]
#[verifier::external_body]
pub struct ExBuilder<'builder>(Builder<'builder>);

/// A SPAKE2 exchange that was started and not finished, `spake2::Spake2<Ed25519Group>`.
///
/// Opaque, since the type parameter of `Spake2` is bounded by a trait of its crate.
#[verifier::external_body]
pub struct Exchange {
    state: Spake2<Ed25519Group>,
}

/// What an exchange was started with: the password and the identities of sides A and B.
pub uninterp spec fn exchange_inputs(exchange: Exchange) -> (Seq<u8>, Seq<u8>, Seq<u8>);

/// The message that an exchange sends.
pub uninterp spec fn exchange_message(exchange: Exchange) -> Seq<u8>;

/// The key that side B of an exchange comes to on receiving `inbound`, where it accepts it.
pub uninterp spec fn exchange_key(exchange: Exchange, inbound: Seq<u8>) -> Option<Seq<u8>>;

/// Starts side B of a SPAKE2 exchange.
///
/// Calls `spake2::Spake2::<Ed25519Group>::start_b`, which draws its secret from the OS, and panics
/// where the OS supplies none. Trusted that the exchange keeps what it was started with, and that the
/// message is the one of this exchange, which keeps what it sends: the letter `B` and 32 bytes.
/// Which 32 bytes is chance and left unsaid.
#[verifier::external_body]
fn start_exchange(password: &[u8], id_a: &[u8], id_b: &[u8]) -> (started: (Exchange, Vec<u8>))
    ensures
        exchange_inputs(started.0) == (password@, id_a@, id_b@),
        started.1@ == exchange_message(started.0),
        started.1@.len() == 33,
        started.1@[0] == 0x42,
{
    let password = Password::new(password);
    let (state, outbound) = Spake2::<Ed25519Group>::start_b(
        &password,
        &Identity::new(id_a),
        &Identity::new(id_b),
    );
    (Exchange { state }, outbound)
}

/// Finishes side B of a SPAKE2 exchange with the message of side A.
///
/// Calls `spake2::Spake2::finish`. Trusted that the result depends on the exchange and the message
/// alone, that a key has 32 bytes, and that a message is refused unless it is 33 bytes long and
/// starts with the letter `A`.
#[verifier::external_body]
fn finish_exchange(exchange: Exchange, inbound: &[u8]) -> (r: Result<Vec<u8>, spake2::Error>)
    ensures
        match r {
            Ok(key) => exchange_key(exchange, inbound@) == Some(key@) && key@.len() == 32
                && inbound@.len() == 33 && inbound@[0] == 0x41,
            Err(_) => exchange_key(exchange, inbound@) is None,
        },
{
    exchange.state.finish(inbound)
}

/// The HKDF output of `len` bytes over BLAKE2s, without a salt.
pub uninterp spec fn hkdf_blake2s(ikm: Seq<u8>, info: Seq<u8>, len: nat) -> Seq<u8>;

/// Expands key material.
///
/// Calls `hkdf::SimpleHkdf::<Blake2s256>::new` without a salt and `expand`. Trusted that the output
/// depends on the material, the info and the length alone, and that it exists where it has at most
/// 255 blocks of 32 bytes.
#[verifier::external_body]
fn expand(ikm: &[u8], info: &[u8], len: usize) -> (r: Result<Vec<u8>, InvalidLength>)
    requires
        len <= 8160,
    ensures
        match r {
            Ok(okm) => okm@ == hkdf_blake2s(ikm@, info@, len as nat) && okm@.len() == len,
            Err(_) => false,
        },
{
    let mut okm = vec![0u8; len];
    SimpleHkdf::<Blake2s256>::new(None, ikm).expand(info, &mut okm).map(|_| okm)
}

/// Compares two byte strings in constant time.
///
/// Calls `subtle::ConstantTimeEq::ct_eq` on slices; trusted to say whether they are equal.
#[verifier::external_body]
fn equal_in_constant_time(a: &[u8], b: &[u8]) -> (equal: bool)
    ensures
        equal == (a@ == b@),
{
    a.ct_eq(b).into()
}

/// The ML-KEM-1024 ciphertext and shared secret for a public key and 32 bytes of randomness.
pub uninterp spec fn ml_kem_encapsulated(public_key: Seq<u8>, randomness: Seq<u8>) -> (
    Seq<u8>,
    Seq<u8>,
);

/// Encapsulates a shared secret for the holder of an ML-KEM-1024 key.
///
/// Calls `libcrux_ml_kem::mlkem1024::encapsulate`, which is total. Trusted that ciphertext and
/// secret depend on the public key and the randomness alone and have 1568 and 32 bytes.
#[verifier::external_body]
fn ml_kem_encapsulate(public_key: &[u8; 1568], randomness: [u8; 32]) -> (r: (Vec<u8>, [u8; 32]))
    ensures
        (r.0@, r.1@) == ml_kem_encapsulated(public_key@, randomness@),
        r.0@.len() == 1568,
{
    let (ciphertext, secret) = encapsulate(&MlKem1024PublicKey::from(public_key), randomness);
    (ciphertext.as_slice().to_vec(), secret)
}

/// The name that Noise parameters were parsed from.
pub uninterp spec fn noise_name(params: NoiseParams) -> Seq<char>;

/// What a Noise builder holds: the name of its protocol, the local private key, and the pre-shared
/// keys by their place.
pub uninterp spec fn builder_holds(builder: Builder) -> (
    Seq<char>,
    Option<Seq<u8>>,
    Map<u8, Seq<u8>>,
);

/// Parses the name of a Noise protocol.
///
/// Calls `str::parse` for `snow::params::NoiseParams`. Trusted that the parameters keep the text
/// they were parsed from, and that the one name this module uses is well-formed. Which other texts
/// are well-formed is left unsaid.
#[verifier::external_body]
fn parse_noise_params(text: &str) -> (r: Result<NoiseParams, snow::Error>)
    ensures
        match r {
            Ok(params) => noise_name(params) == text@,
            Err(_) => text@ != "Noise_XXpsk3_25519_ChaChaPoly_BLAKE2s"@,
        },
{
    text.parse()
}

/// Starts a Noise builder.
///
/// Calls `snow::Builder::new`; trusted to hold the protocol's name and no key.
#[verifier::external_body]
fn new_builder<'a>(params: NoiseParams) -> (builder: Builder<'a>)
    ensures
        builder_holds(builder) == (noise_name(params), None::<Seq<u8>>, Map::<u8, Seq<u8>>::empty()),
{
    Builder::new(params)
}

/// Sets the local private key.
///
/// Calls `snow::Builder::local_private_key`; trusted to set the key, and to fail exactly where one
/// was set before.
#[verifier::external_body]
fn set_private_key<'a>(builder: Builder<'a>, key: &'a [u8]) -> (r: Result<Builder<'a>, snow::Error>)
    ensures
        match r {
            Ok(changed) => builder_holds(builder).1 is None && builder_holds(changed) == (
                builder_holds(builder).0,
                Some(key@),
                builder_holds(builder).2,
            ),
            Err(_) => builder_holds(builder).1 is Some,
        },
{
    builder.local_private_key(key)
}

/// Sets the pre-shared key at a place.
///
/// Calls `snow::Builder::psk`; trusted to set the key, and to fail exactly where the place is not
/// one of the ten or holds a key already.
#[verifier::external_body]
fn set_psk<'a>(builder: Builder<'a>, place: u8, key: &'a [u8; 32]) -> (r: Result<
    Builder<'a>,
    snow::Error,
>)
    ensures
        match r {
            Ok(changed) => place < 10 && !builder_holds(builder).2.dom().contains(place)
                && builder_holds(changed) == (
                builder_holds(builder).0,
                builder_holds(builder).1,
                builder_holds(builder).2.insert(place, key@),
            ),
            Err(_) => place >= 10 || builder_holds(builder).2.dom().contains(place),
        },
{
    builder.psk(place, key)
}

/// The key confirmation that the client sends.
pub open spec fn client_confirmation(key: Seq<u8>) -> Seq<u8> {
    hkdf_blake2s(key, vstd::utf8::encode_utf8("CPQHA-confirm-client-to-server"@), 32)
}

/// The key confirmation that the server sends.
pub open spec fn server_confirmation(key: Seq<u8>) -> Seq<u8> {
    hkdf_blake2s(key, vstd::utf8::encode_utf8("CPQHA-confirm-server-to-client"@), 32)
}

/// The pre-shared key of the Noise session: both shared secrets together, expanded.
pub open spec fn noise_psk(x25519_secret: Seq<u8>, ml_kem_secret: Seq<u8>) -> Seq<u8> {
    hkdf_blake2s(x25519_secret + ml_kem_secret, vstd::utf8::encode_utf8("CPQHA-psk"@), 32)
}

/// Derives the pre-shared key of the Noise session from both shared secrets.
pub fn derive_psk(x25519_secret: &[u8; 32], ml_kem_secret: &[u8; 32]) -> (r: Result<
    Secret<32>,
    AuthSnowErrors,
>)
    ensures
        match r {
            Ok(psk) => psk@ == noise_psk(x25519_secret@, ml_kem_secret@),
            Err(_) => false,
        },
{
    let mut both = joined(x25519_secret, ml_kem_secret);
    let expanded = expand(&both, "CPQHA-psk".as_bytes(), 32);
    wipe(&mut both);
    match expanded {
        Ok(mut okm) => {
            let psk: Secret<32> = Secret::new(array_at::<32>(&okm, 0));
            assert(psk@ =~= okm@);
            wipe(&mut okm);
            Ok(psk)
        },
        Err(_) => Err(AuthSnowErrors::FaledToExpandHkdf),
    }
}

/// Sets up the Noise responder: the data key is its static private key, `psk` its pre-shared key at
/// place 3.
pub fn noise_responder<'a>(d_key: &'a [u8; 32], psk: &'a [u8; 32]) -> (r: Result<
    Builder<'a>,
    AuthSnowErrors,
>)
    ensures
        match r {
            Ok(builder) => builder_holds(builder) == (
                "Noise_XXpsk3_25519_ChaChaPoly_BLAKE2s"@,
                Some(d_key@),
                map![3u8 => psk@],
            ),
            Err(_) => false,
        },
{
    let params = match parse_noise_params("Noise_XXpsk3_25519_ChaChaPoly_BLAKE2s") {
        Ok(params) => params,
        Err(_) => return Err(AuthSnowErrors::FailedToParseText),
    };
    let keyed = match set_private_key(new_builder(params), d_key) {
        Ok(builder) => builder,
        Err(_) => return Err(AuthSnowErrors::FailedToSetLocalPrivateKey),
    };
    match set_psk(keyed, 3, psk) {
        Ok(builder) => {
            assert(builder_holds(builder).2 =~= map![3u8 => psk@]);
            Ok(builder)
        },
        Err(_) => Err(AuthSnowErrors::FailedToSetPsk),
    }
}

/// How an authentication ended.
#[derive(Debug, Clone, Copy, PartialEq, Eq)]
pub enum SnowVerdict {
    /// The client proved that it knows the pre-shared key, and the Noise responder is set up.
    Accepted,
    /// The client's key confirmation was not the expected one.
    Refused,
    /// The exchange broke down.
    Failed(AuthSnowErrors),
}

impl View for SnowVerdict {
    type V = SnowVerdict;

    open spec fn view(&self) -> SnowVerdict {
        *self
    }
}

impl SnowVerdict {
    /// Whether the client is authenticated, or what went wrong.
    pub fn into_result(self) -> (r: Result<bool, AuthSnowErrors>)
        ensures
            r == (match self {
                SnowVerdict::Accepted => Ok::<bool, AuthSnowErrors>(true),
                SnowVerdict::Refused => Ok(false),
                SnowVerdict::Failed(e) => Err(e),
            }),
    {
        match self {
            SnowVerdict::Accepted => Ok(true),
            SnowVerdict::Refused => Ok(false),
            SnowVerdict::Failed(e) => Err(e),
        }
    }
}

/// Where the server's side stands.
pub enum SnowIncoming {
    /// Our SPAKE2 message is on its way out.
    OurMessage { exchange: Exchange },
    /// Waiting for the client's SPAKE2 message.
    TheirMessage { exchange: Exchange },
    /// Waiting for the client's key confirmation.
    TheirConfirmation { key: Secret<32> },
    /// Our key confirmation is on its way out.
    OurConfirmation,
    /// Waiting for the client's X25519 public key.
    TheirX25519 { pair: X25519KeyPair },
    /// Waiting for the client's ML-KEM public key.
    TheirMlKem { pair: X25519KeyPair, their_x25519: Secret<32> },
    /// Our X25519 public key is on its way out; the ML-KEM ciphertext comes next.
    OurX25519 { x25519_secret: Secret<32>, ml_kem_secret: Secret<32>, ciphertext: Vec<u8> },
    /// The ML-KEM ciphertext is on its way out.
    OurCiphertext { x25519_secret: Secret<32>, ml_kem_secret: Secret<32> },
}

/// A [`SnowIncoming`] with its bytes as mathematical sequences.
pub enum SnowView {
    OurMessage(Exchange),
    TheirMessage(Exchange),
    TheirConfirmation(Seq<u8>),
    OurConfirmation,
    TheirX25519 { private_key: Seq<u8>, public_key: Seq<u8> },
    TheirMlKem { private_key: Seq<u8>, public_key: Seq<u8>, their_x25519: Seq<u8> },
    OurX25519 { x25519_secret: Seq<u8>, ml_kem_secret: Seq<u8>, ciphertext: Seq<u8> },
    OurCiphertext { x25519_secret: Seq<u8>, ml_kem_secret: Seq<u8> },
}

impl View for SnowIncoming {
    type V = SnowView;

    open spec fn view(&self) -> SnowView {
        match self {
            SnowIncoming::OurMessage { exchange } => SnowView::OurMessage(*exchange),
            SnowIncoming::TheirMessage { exchange } => SnowView::TheirMessage(*exchange),
            SnowIncoming::TheirConfirmation { key } => SnowView::TheirConfirmation(key@),
            SnowIncoming::OurConfirmation => SnowView::OurConfirmation,
            SnowIncoming::TheirX25519 { pair } => SnowView::TheirX25519 {
                private_key: pair.private@,
                public_key: pair.public@,
            },
            SnowIncoming::TheirMlKem { pair, their_x25519 } => SnowView::TheirMlKem {
                private_key: pair.private@,
                public_key: pair.public@,
                their_x25519: their_x25519@,
            },
            SnowIncoming::OurX25519 { x25519_secret, ml_kem_secret, ciphertext } => {
                SnowView::OurX25519 {
                    x25519_secret: x25519_secret@,
                    ml_kem_secret: ml_kem_secret@,
                    ciphertext: ciphertext@,
                }
            },
            SnowIncoming::OurCiphertext { x25519_secret, ml_kem_secret } => {
                SnowView::OurCiphertext {
                    x25519_secret: x25519_secret@,
                    ml_kem_secret: ml_kem_secret@,
                }
            },
        }
    }
}

/// The end of an exchange that broke down.
pub open spec fn snow_failed(e: AuthSnowErrors) -> TurnView<SnowView, SnowVerdict> {
    TurnView::Finish(SnowVerdict::Failed(e))
}

/// The server's side, one stream operation at a time.
///
/// `random` is what the OS supplied for the step, if anything: the ephemeral private key after our
/// confirmation, the encapsulation's randomness after the client's ML-KEM key.
pub open spec fn snow_next(state: SnowView, event: EventView, random: Option<Seq<u8>>) -> TurnView<
    SnowView,
    SnowVerdict,
> {
    match state {
        SnowView::OurMessage(exchange) => if event != EventView::Written {
            snow_failed(AuthSnowErrors::FailedToWriteToStream)
        } else {
            TurnView::Read(SnowView::TheirMessage(exchange), 33)
        },
        SnowView::TheirMessage(exchange) => if !event.is_read_of(33) {
            snow_failed(AuthSnowErrors::FailedToReadFromStream)
        } else {
            match exchange_key(exchange, event.bytes()) {
                None => snow_failed(AuthSnowErrors::FailedToFinishSpake2Exchange),
                Some(key) => TurnView::Read(SnowView::TheirConfirmation(key), 32),
            }
        },
        SnowView::TheirConfirmation(key) => if !event.is_read_of(32) {
            snow_failed(AuthSnowErrors::FailedToReadFromStream)
        } else if event.bytes() != client_confirmation(key) {
            TurnView::Finish(SnowVerdict::Refused)
        } else {
            TurnView::Write(SnowView::OurConfirmation, server_confirmation(key))
        },
        SnowView::OurConfirmation => if event != EventView::Written {
            snow_failed(AuthSnowErrors::FailedToWriteToStream)
        } else {
            match random {
                None => snow_failed(AuthSnowErrors::FailedToGenerateRandomData),
                Some(private_key) => TurnView::Read(
                    SnowView::TheirX25519 {
                        private_key,
                        public_key: crate::x25519_cesa::x25519_public(private_key),
                    },
                    32,
                ),
            }
        },
        SnowView::TheirX25519 { private_key, public_key } => if !event.is_read_of(32) {
            snow_failed(AuthSnowErrors::FailedToReadFromStream)
        } else {
            TurnView::Read(
                SnowView::TheirMlKem { private_key, public_key, their_x25519: event.bytes() },
                1568,
            )
        },
        SnowView::TheirMlKem { private_key, public_key, their_x25519 } => if !event.is_read_of(
            1568,
        ) {
            snow_failed(AuthSnowErrors::FailedToReadFromStream)
        } else {
            match random {
                None => snow_failed(AuthSnowErrors::FailedToGenerateRandomData),
                Some(randomness) => TurnView::Write(
                    SnowView::OurX25519 {
                        x25519_secret: crate::x25519_cesa::x25519_shared(private_key, their_x25519),
                        ml_kem_secret: ml_kem_encapsulated(event.bytes(), randomness).1,
                        ciphertext: ml_kem_encapsulated(event.bytes(), randomness).0,
                    },
                    public_key,
                ),
            }
        },
        SnowView::OurX25519 { x25519_secret, ml_kem_secret, ciphertext } => if event
            != EventView::Written {
            snow_failed(AuthSnowErrors::FailedToWriteToStream)
        } else {
            TurnView::Write(SnowView::OurCiphertext { x25519_secret, ml_kem_secret }, ciphertext)
        },
        SnowView::OurCiphertext { x25519_secret, ml_kem_secret } => if event
            != EventView::Written {
            snow_failed(AuthSnowErrors::FailedToWriteToStream)
        } else {
            TurnView::Finish(SnowVerdict::Accepted)
        },
    }
}

/// What the client can make of our X25519 public key: whoever holds the secret behind the client's
/// public key arrives at our shared secret from ours.
pub open spec fn snow_promise(state: SnowView, turn: TurnView<SnowView, SnowVerdict>) -> bool {
    match (state, turn) {
        (
            SnowView::TheirMlKem { private_key, public_key, their_x25519 },
            TurnView::Write(SnowView::OurX25519 { x25519_secret, .. }, ours),
        ) => forall|theirs: Seq<u8>|
            theirs.len() == 32 && public_key == crate::x25519_cesa::x25519_public(private_key)
                && their_x25519 == #[trigger] crate::x25519_cesa::x25519_public(theirs)
                ==> x25519_secret == crate::x25519_cesa::x25519_shared(theirs, ours),
        _ => true,
    }
}

/// The bytes that the OS supplied, if any.
pub open spec fn random_view(random: Option<Secret<32>>) -> Option<Seq<u8>> {
    match random {
        Some(bytes) => Some(bytes@),
        None => None,
    }
}

/// Where the randomness of a step comes from: it is what the OS supplied, and is absent only where
/// the OS refused it.
pub open spec fn snow_draws(state: SnowView, random: Option<Seq<u8>>) -> bool {
    match state {
        SnowView::OurConfirmation => crate::crand::os_answered::<32>(random),
        SnowView::TheirMlKem { .. } => crate::crand::os_answered::<32>(random),
        _ => true,
    }
}

impl SnowIncoming {
    /// Opens the server's side: a SPAKE2 exchange over the authentication key, between `client` and
    /// `server`, whose message goes out first.
    pub fn begin(keys: &Keys) -> (turn: Turn<SnowIncoming, SnowVerdict>)
        ensures
            match turn@ {
                TurnView::Write(SnowView::OurMessage(exchange), message) => exchange_inputs(
                    exchange,
                ) == (
                    keys.a_key@,
                    vstd::utf8::encode_utf8("client"@),
                    vstd::utf8::encode_utf8("server"@),
                ) && message == exchange_message(exchange) && message.len() == 33 && message[0] == 0x42,
                _ => false,
            },
    {
        let (exchange, message) = start_exchange(
            &keys.a_key.bytes,
            "client".as_bytes(),
            "server".as_bytes(),
        );
        Turn::Write(SnowIncoming::OurMessage { exchange }, message)
    }

    /// Goes on after `event`, with the randomness that the step may need.
    pub fn advance_with(
        self,
        event: Event,
        keys: &Keys,
        random: Option<Secret<32>>,
    ) -> (turn: Turn<SnowIncoming, SnowVerdict>)
        ensures
            turn@ == snow_next(self@, event@, random_view(random)),
            snow_promise(self@, turn@),
    {
        match self {
            SnowIncoming::OurMessage { exchange } => if event.is_written() {
                Turn::Read(SnowIncoming::TheirMessage { exchange }, 33)
            } else {
                Turn::Finish(SnowVerdict::Failed(AuthSnowErrors::FailedToWriteToStream))
            },
            SnowIncoming::TheirMessage { exchange } => match event.read_of(33) {
                None => Turn::Finish(SnowVerdict::Failed(AuthSnowErrors::FailedToReadFromStream)),
                Some(mut message) => {
                    let finished = finish_exchange(exchange, &message);
                    wipe(&mut message);
                    match finished {
                        Ok(mut bytes) => {
                            let key: Secret<32> = Secret::new(array_at::<32>(&bytes, 0));
                            assert(key@ =~= bytes@);
                            wipe(&mut bytes);
                            Turn::Read(SnowIncoming::TheirConfirmation { key }, 32)
                        },
                        Err(_) => Turn::Finish(
                            SnowVerdict::Failed(AuthSnowErrors::FailedToFinishSpake2Exchange),
                        ),
                    }
                },
            },
            SnowIncoming::TheirConfirmation { key } => confirm(key, event),
            SnowIncoming::OurConfirmation => if !event.is_written() {
                Turn::Finish(SnowVerdict::Failed(AuthSnowErrors::FailedToWriteToStream))
            } else {
                match random {
                    None => Turn::Finish(
                        SnowVerdict::Failed(AuthSnowErrors::FailedToGenerateRandomData),
                    ),
                    Some(private_key) => Turn::Read(
                        SnowIncoming::TheirX25519 { pair: generate_new_key_pair(private_key.bytes) },
                        32,
                    ),
                }
            },
            SnowIncoming::TheirX25519 { pair } => match event.read_of(32) {
                None => Turn::Finish(SnowVerdict::Failed(AuthSnowErrors::FailedToReadFromStream)),
                Some(mut bytes) => {
                    let their_x25519: Secret<32> = Secret::new(array_at::<32>(&bytes, 0));
                    assert(their_x25519@ =~= bytes@);
                    wipe(&mut bytes);
                    Turn::Read(SnowIncoming::TheirMlKem { pair, their_x25519 }, 1568)
                },
            },
            SnowIncoming::TheirMlKem { pair, their_x25519 } => match event.read_of(1568) {
                None => Turn::Finish(SnowVerdict::Failed(AuthSnowErrors::FailedToReadFromStream)),
                Some(mut bytes) => {
                    let their_ml_kem: Secret<1568> = Secret::new(array_at::<1568>(&bytes, 0));
                    assert(their_ml_kem@ =~= bytes@);
                    wipe(&mut bytes);
                    match random {
                        None => Turn::Finish(
                            SnowVerdict::Failed(AuthSnowErrors::FailedToGenerateRandomData),
                        ),
                        Some(randomness) => {
                            let x25519_secret: Secret<32> = Secret::new(
                                calculate_shared_key(&pair.private.bytes, &their_x25519.bytes),
                            );
                            let (ciphertext, mut raw_secret) = ml_kem_encapsulate(
                                &their_ml_kem.bytes,
                                randomness.bytes,
                            );
                            let ml_kem_secret: Secret<32> = Secret::new(raw_secret);
                            wipe(&mut raw_secret);
                            Turn::Write(
                                SnowIncoming::OurX25519 {
                                    x25519_secret,
                                    ml_kem_secret,
                                    ciphertext,
                                },
                                copied(&pair.public.bytes),
                            )
                        },
                    }
                },
            },
            SnowIncoming::OurX25519 { x25519_secret, ml_kem_secret, ciphertext } => {
                if event.is_written() {
                    Turn::Write(
                        SnowIncoming::OurCiphertext { x25519_secret, ml_kem_secret },
                        ciphertext,
                    )
                } else {
                    Turn::Finish(SnowVerdict::Failed(AuthSnowErrors::FailedToWriteToStream))
                }
            },
            SnowIncoming::OurCiphertext { x25519_secret, ml_kem_secret } => {
                if !event.is_written() {
                    return Turn::Finish(
                        SnowVerdict::Failed(AuthSnowErrors::FailedToWriteToStream),
                    );
                }
                match derive_psk(&x25519_secret.bytes, &ml_kem_secret.bytes) {
                    Err(e) => Turn::Finish(SnowVerdict::Failed(e)),
                    Ok(psk) => match noise_responder(&keys.d_key.bytes, &psk.bytes) {
                        Ok(_) => Turn::Finish(SnowVerdict::Accepted),
                        Err(e) => Turn::Finish(SnowVerdict::Failed(e)),
                    },
                }
            },
        }
    }

    /// Goes on after `event`, drawing from the OS what the step needs.
    pub fn advance(self, event: Event, keys: &Keys) -> (turn: Turn<SnowIncoming, SnowVerdict>)
        ensures
            exists|random: Option<Secret<32>>|
                turn@ == #[trigger] snow_next(self@, event@, random_view(random)) && snow_draws(
                    self@,
                    random_view(random),
                ),
            snow_promise(self@, turn@),
    {
        let random: Option<Secret<32>> = match self {
            SnowIncoming::OurConfirmation => fresh_bytes(),
            SnowIncoming::TheirMlKem { .. } => fresh_bytes(),
            _ => None,
        };
        self.advance_with(event, keys, random)
    }
}

/// Thirty-two fresh bytes, where the operating system supplies them.
fn fresh_bytes() -> (random: Option<Secret<32>>)
    ensures
        crate::crand::os_answered::<32>(random_view(random)),
{
    supplied(random_array::<32>())
}

/// Checks the client's key confirmation in constant time and answers with ours. The key is dropped,
/// and so wiped.
fn confirm(key: Secret<32>, event: Event) -> (turn: Turn<SnowIncoming, SnowVerdict>)
    ensures
        turn@ == snow_next(SnowView::TheirConfirmation(key@), event@, None),
{
    let expected = expand(&key.bytes, "CPQHA-confirm-client-to-server".as_bytes(), 32);
    let answer = expand(&key.bytes, "CPQHA-confirm-server-to-client".as_bytes(), 32);
    match (expected, answer) {
        (Ok(mut expected), Ok(mut answer)) => match event.read_of(32) {
            None => {
                wipe(&mut expected);
                wipe(&mut answer);
                Turn::Finish(SnowVerdict::Failed(AuthSnowErrors::FailedToReadFromStream))
            },
            Some(mut received) => {
                let confirmed = equal_in_constant_time(&expected, &received);
                wipe(&mut expected);
                wipe(&mut received);
                if confirmed {
                    Turn::Write(SnowIncoming::OurConfirmation, answer)
                } else {
                    wipe(&mut answer);
                    Turn::Finish(SnowVerdict::Refused)
                }
            },
        },
        _ => Turn::Finish(SnowVerdict::Failed(AuthSnowErrors::FaledToExpandHkdf)),
    }
}

/// How the server's side ends on a sequence of events and of what the OS supplied for each, where it
/// does.
pub open spec fn snow_run(state: SnowView, inputs: Seq<(EventView, Option<Seq<u8>>)>) -> Option<
    SnowVerdict,
>
    decreases inputs.len(),
{
    if inputs.len() == 0 {
        None
    } else {
        match snow_next(state, inputs[0].0, inputs[0].1) {
            TurnView::Finish(verdict) => Some(verdict),
            TurnView::Read(then, _) => snow_run(then, inputs.drop_first()),
            TurnView::Write(then, _) => snow_run(then, inputs.drop_first()),
        }
    }
}

/// The server accepts only a client that proved itself: the client's SPAKE2 message led to a key,
/// and its confirmation was the one that this key gives. No authentication takes more than eight
/// steps.
pub proof fn law_snow_accepts_only_confirmed(
    exchange: Exchange,
    inputs: Seq<(EventView, Option<Seq<u8>>)>,
)
    ensures
        inputs.len() >= 8 ==> snow_run(SnowView::OurMessage(exchange), inputs) is Some,
        match snow_run(SnowView::OurMessage(exchange), inputs) {
            Some(SnowVerdict::Accepted) => inputs.len() >= 8 && match exchange_key(
                exchange,
                inputs[1].0.bytes(),
            ) {
                Some(key) => inputs[2].0.bytes() == client_confirmation(key),
                None => false,
            },
            _ => true,
        },
{
    reveal_with_fuel(snow_run, 9);
}

/// The server's side fails for want of randomness only where the OS refused it, and then it says so.
pub proof fn law_snow_fails_for_want_of_randomness_only_where_the_os_refused(
    state: SnowIncoming,
    event: Event,
    keys: &Keys,
    turn: Turn<SnowIncoming, SnowVerdict>,
)
    requires
        call_ensures(SnowIncoming::advance, (state, event, keys), turn),
    ensures
        turn@ == snow_failed(AuthSnowErrors::FailedToGenerateRandomData)
            ==> crate::crand::os_refused::<32>(),
        match turn@ {
            TurnView::Finish(SnowVerdict::Failed(e)) => e
                == AuthSnowErrors::FailedToReadFromStream || e
                == AuthSnowErrors::FailedToWriteToStream || e
                == AuthSnowErrors::FailedToFinishSpake2Exchange || e
                == AuthSnowErrors::FailedToGenerateRandomData,
            _ => true,
        },
{
}

/// Where the OS supplies what it is asked for, each step of a client that follows the protocol is
/// answered. The key that its SPAKE2 message leads to is confirmed to a client that confirmed it;
/// its X25519 and ML-KEM keys are answered with the public key of a secret that the OS supplied and
/// with an encapsulation under randomness that the OS supplied; and then it is accepted.
pub proof fn law_snow_answers_each_step(
    state: SnowIncoming,
    event: Event,
    keys: &Keys,
    turn: Turn<SnowIncoming, SnowVerdict>,
)
    requires
        call_ensures(SnowIncoming::advance, (state, event, keys), turn),
        !crate::crand::os_refused::<32>(),
    ensures
        match (state@, event@) {
            (SnowView::OurMessage(exchange), EventView::Written) => turn@ == TurnView::<
                SnowView,
                SnowVerdict,
            >::Read(SnowView::TheirMessage(exchange), 33),
            (SnowView::TheirMessage(exchange), EventView::Read(inbound)) => inbound.len() == 33
                && exchange_key(exchange, inbound) is Some ==> turn@ == TurnView::<
                SnowView,
                SnowVerdict,
            >::Read(SnowView::TheirConfirmation(exchange_key(exchange, inbound)->0), 32),
            (SnowView::TheirConfirmation(key), EventView::Read(confirmation)) => {
                confirmation.len() == 32 && confirmation == hkdf_blake2s(
                    key,
                    vstd::utf8::encode_utf8("CPQHA-confirm-client-to-server"@),
                    32,
                ) ==> turn@ == TurnView::<SnowView, SnowVerdict>::Write(
                    SnowView::OurConfirmation,
                    hkdf_blake2s(
                        key,
                        vstd::utf8::encode_utf8("CPQHA-confirm-server-to-client"@),
                        32,
                    ),
                )
            },
            (SnowView::OurConfirmation, EventView::Written) => match turn@ {
                TurnView::Read(SnowView::TheirX25519 { private_key, public_key }, count) => {
                    &&& crate::crand::os_supplied::<32>(private_key)
                    &&& public_key == crate::x25519_cesa::x25519_public(private_key)
                    &&& count == 32
                },
                _ => false,
            },
            (
                SnowView::TheirX25519 { private_key, public_key },
                EventView::Read(theirs),
            ) => theirs.len() == 32 ==> turn@ == TurnView::<SnowView, SnowVerdict>::Read(
                SnowView::TheirMlKem { private_key, public_key, their_x25519: theirs },
                1568,
            ),
            (
                SnowView::TheirMlKem { private_key, public_key, their_x25519 },
                EventView::Read(ml_kem),
            ) => ml_kem.len() == 1568 ==> match turn@ {
                TurnView::Write(
                    SnowView::OurX25519 { x25519_secret, ml_kem_secret, ciphertext },
                    ours,
                ) => {
                    &&& ours == public_key
                    &&& x25519_secret == crate::x25519_cesa::x25519_shared(
                        private_key,
                        their_x25519,
                    )
                    &&& exists|randomness: Seq<u8>| #[trigger]
                        crate::crand::os_supplied::<32>(randomness) && (ciphertext, ml_kem_secret)
                            == ml_kem_encapsulated(ml_kem, randomness)
                },
                _ => false,
            },
            (
                SnowView::OurX25519 { x25519_secret, ml_kem_secret, ciphertext },
                EventView::Written,
            ) => turn@ == TurnView::<SnowView, SnowVerdict>::Write(
                SnowView::OurCiphertext { x25519_secret, ml_kem_secret },
                ciphertext,
            ),
            (SnowView::OurCiphertext { .. }, EventView::Written) => turn@ == TurnView::<
                SnowView,
                SnowVerdict,
            >::Finish(SnowVerdict::Accepted),
            _ => true,
        },
{
}

/// What the server's side tells a client that does not follow: a wrong confirmation is refused, a
/// SPAKE2 message that leads to no key ends the exchange, and a read or a write that does not come
/// about is reported as one.
pub proof fn law_snow_turns_others_away(
    state: SnowIncoming,
    event: Event,
    keys: &Keys,
    turn: Turn<SnowIncoming, SnowVerdict>,
)
    requires
        call_ensures(SnowIncoming::advance, (state, event, keys), turn),
    ensures
        ({
            let no_read = snow_failed(AuthSnowErrors::FailedToReadFromStream);
            let no_write = snow_failed(AuthSnowErrors::FailedToWriteToStream);
            match (state@, event@) {
                (SnowView::TheirMessage(exchange), EventView::Read(inbound)) => if inbound.len()
                    != 33 {
                    turn@ == no_read
                } else {
                    exchange_key(exchange, inbound) is None ==> turn@ == snow_failed(
                        AuthSnowErrors::FailedToFinishSpake2Exchange,
                    )
                },
                (SnowView::TheirConfirmation(key), EventView::Read(confirmation)) => {
                    if confirmation.len() != 32 {
                        turn@ == no_read
                    } else {
                        confirmation != hkdf_blake2s(
                            key,
                            vstd::utf8::encode_utf8("CPQHA-confirm-client-to-server"@),
                            32,
                        ) ==> turn@ == TurnView::<SnowView, SnowVerdict>::Finish(
                            SnowVerdict::Refused,
                        )
                    }
                },
                (SnowView::TheirX25519 { .. }, EventView::Read(theirs)) => theirs.len() != 32
                    ==> turn@ == no_read,
                (SnowView::TheirMlKem { .. }, EventView::Read(theirs)) => theirs.len() != 1568
                    ==> turn@ == no_read,
                (SnowView::TheirMessage(_), _) => turn@ == no_read,
                (SnowView::TheirConfirmation(_), _) => turn@ == no_read,
                (SnowView::TheirX25519 { .. }, _) => turn@ == no_read,
                (SnowView::TheirMlKem { .. }, _) => turn@ == no_read,
                (_, EventView::Written) => true,
                (_, _) => turn@ == no_write,
            }
        }),
{
}

/// One step of a driven authentication: where it stood, what happened, and what came of it.
pub struct SnowStep {
    pub state: SnowIncoming,
    pub event: Event,
    pub turn: Turn<SnowIncoming, SnowVerdict>,
}

/// Whether the stream operation that a turn asked for succeeded: a read brought as many bytes as it
/// was to, a write went out.
pub open spec fn operation_succeeded(
    turn: TurnView<SnowView, SnowVerdict>,
    event: EventView,
) -> bool {
    match turn {
        TurnView::Read(_, count) => event.is_read_of(count),
        TurnView::Write(_, _) => event == EventView::Written,
        TurnView::Finish(_) => false,
    }
}

/// Where an authentication goes on after a turn.
pub open spec fn goes_on_as(turn: TurnView<SnowView, SnowVerdict>, state: SnowView) -> bool {
    match turn {
        TurnView::Read(then, _) => then == state,
        TurnView::Write(then, _) => then == state,
        TurnView::Finish(_) => false,
    }
}

/// A client that follows the protocol is accepted, in eight steps: where every stream operation
/// succeeds and the OS supplies what it is asked for, a client whose SPAKE2 message leads to a key
/// and who confirms that key is given the server's confirmation, the public key of a secret that
/// the OS supplied and an encapsulation for its ML-KEM key, and then is authenticated.
pub proof fn law_honest_client_is_accepted(keys: &Keys, exchange: Exchange, steps: Seq<SnowStep>)
    requires
        !crate::crand::os_refused::<32>(),
        steps.len() == 8,
        forall|i: int|
            0 <= i < 8 ==> call_ensures(
                SnowIncoming::advance,
                ((#[trigger] steps[i]).state, steps[i].event, keys),
                steps[i].turn,
            ),
        steps[0].state@ == SnowView::OurMessage(exchange),
        steps[0].event@ == EventView::Written,
        forall|i: int, j: int|
            0 <= i < 7 && j == i + 1 && !((#[trigger] steps[i]).turn@ is Finish) ==> goes_on_as(
                steps[i].turn@,
                (#[trigger] steps[j]).state@,
            ) && operation_succeeded(steps[i].turn@, steps[j].event@),
        exchange_key(exchange, steps[1].event@.bytes()) is Some,
        steps[2].event@.bytes() == client_confirmation(
            exchange_key(exchange, steps[1].event@.bytes())->0,
        ),
    ensures
        steps[7].turn@ == TurnView::<SnowView, SnowVerdict>::Finish(SnowVerdict::Accepted),
        match steps[2].turn@ {
            TurnView::Write(_, confirmation) => confirmation == server_confirmation(
                exchange_key(exchange, steps[1].event@.bytes())->0,
            ),
            _ => false,
        },
        match (steps[5].turn@, steps[6].turn@) {
            (TurnView::Write(_, public_key), TurnView::Write(_, ciphertext)) => (exists|
                secret: Seq<u8>,
            | #[trigger]
                crate::crand::os_supplied::<32>(secret) && public_key
                    == crate::x25519_cesa::x25519_public(secret)) && exists|randomness: Seq<u8>|
             #[trigger]
                crate::crand::os_supplied::<32>(randomness) && ciphertext == ml_kem_encapsulated(
                    steps[5].event@.bytes(),
                    randomness,
                ).0,
            _ => false,
        },
{
    law_snow_answers_each_step(steps[0].state, steps[0].event, keys, steps[0].turn);
    law_snow_answers_each_step(steps[1].state, steps[1].event, keys, steps[1].turn);
    law_snow_answers_each_step(steps[2].state, steps[2].event, keys, steps[2].turn);
    law_snow_answers_each_step(steps[3].state, steps[3].event, keys, steps[3].turn);
    law_snow_answers_each_step(steps[4].state, steps[4].event, keys, steps[4].turn);
    law_snow_answers_each_step(steps[5].state, steps[5].event, keys, steps[5].turn);
    law_snow_answers_each_step(steps[6].state, steps[6].event, keys, steps[6].turn);
    law_snow_answers_each_step(steps[7].state, steps[7].event, keys, steps[7].turn);
    if let TurnView::Read(SnowView::TheirX25519 { private_key, .. }, _) = steps[3].turn@ {
        assert(crate::crand::os_supplied::<32>(private_key));
    }
}

/// The pre-shared key of the Noise session is expanded from the X25519 secret and, after it, the
/// ML-KEM secret, and it is always there.
pub proof fn law_psk_is_expanded_from_both_secrets(
    x25519_secret: &[u8; 32],
    ml_kem_secret: &[u8; 32],
    r: Result<Secret<32>, AuthSnowErrors>,
)
    requires
        call_ensures(derive_psk, (x25519_secret, ml_kem_secret), r),
    ensures
        r is Ok,
        r->Ok_0@ == hkdf_blake2s(
            x25519_secret@ + ml_kem_secret@,
            vstd::utf8::encode_utf8("CPQHA-psk"@),
            32,
        ),
{
}

/// Only an accepted client is reported as authenticated.
pub proof fn law_only_acceptance_is_authenticated(
    verdict: SnowVerdict,
    r: Result<bool, AuthSnowErrors>,
)
    requires
        call_ensures(SnowVerdict::into_result, (verdict,), r),
    ensures
        r == Ok::<bool, AuthSnowErrors>(true) <==> verdict == SnowVerdict::Accepted,
        verdict == SnowVerdict::Refused ==> r == Ok::<bool, AuthSnowErrors>(false),
        verdict matches SnowVerdict::Failed(e) ==> r == Err::<bool, AuthSnowErrors>(e),
{
}

/// The server opens with a SPAKE2 message of its own over the authentication key, between `client`
/// and `server`, in which it is the second party.
pub proof fn law_snow_opens_with_a_message(keys: &Keys, first: Turn<SnowIncoming, SnowVerdict>)
    requires
        call_ensures(SnowIncoming::begin, (keys,), first),
    ensures
        match first@ {
            TurnView::Write(SnowView::OurMessage(exchange), message) => {
                &&& exchange_inputs(exchange).0 == keys.a_key@
                &&& exchange_inputs(exchange).1 == vstd::utf8::encode_utf8("client"@)
                &&& exchange_inputs(exchange).2 == vstd::utf8::encode_utf8("server"@)
                &&& message == exchange_message(exchange)
                &&& message.len() == 33
                &&& message[0] == 0x42
            },
            _ => false,
        },
{
}

} // verus!
