use blake2::Blake2s256;
use cesa_conn::auth::Keys;
use cesa_conn::auth_snow::{
    derive_psk, noise_responder, AuthSnowErrors, SnowIncoming, SnowVerdict,
};
use cesa_conn::exchange::{Event, Turn};
use cesa_conn::secret::Secret;
use cesa_conn::x25519_cesa::{calculate_public_key, calculate_shared_key};
use hkdf::SimpleHkdf;
use libcrux_ml_kem::mlkem1024::{decapsulate, generate_key_pair, MlKem1024Ciphertext};
use spake2::{Ed25519Group, Identity, Password, Spake2};

const A_KEY: [u8; 32] = [0xAB; 32];
const D_KEY: [u8; 32] = [0xCD; 32];

fn expanded(ikm: &[u8], info: &str) -> Vec<u8> {
    let mut out = vec![0u8; 32];
    SimpleHkdf::<Blake2s256>::new(None, ikm)
        .expand(info.as_bytes(), &mut out)
        .unwrap();
    out
}

/// Takes a write off a turn.
fn written(turn: Turn<SnowIncoming, SnowVerdict>) -> (SnowIncoming, Vec<u8>) {
    match turn {
        Turn::Write(then, bytes) => (then, bytes),
        _ => panic!("the server writes"),
    }
}

/// Takes a read of `expected` bytes off a turn.
fn wanted(turn: Turn<SnowIncoming, SnowVerdict>, expected: usize) -> SnowIncoming {
    match turn {
        Turn::Read(then, count) => {
            assert_eq!(count, expected);
            then
        }
        _ => panic!("the server reads"),
    }
}

fn ended(turn: Turn<SnowIncoming, SnowVerdict>) -> SnowVerdict {
    match turn {
        Turn::Finish(verdict) => verdict,
        _ => panic!("the authentication is over"),
    }
}

/// Runs the exchange up to the point where the client's confirmation is awaited, and returns the
/// server and the client's key.
fn up_to_confirmation(client_key: [u8; 32]) -> (SnowIncoming, Vec<u8>) {
    let keys = Keys::new(A_KEY, D_KEY);
    let (client, client_message) = Spake2::<Ed25519Group>::start_a(
        &Password::new(client_key),
        &Identity::new(b"client"),
        &Identity::new(b"server"),
    );
    let (server, server_message) = written(SnowIncoming::begin(&keys));
    assert_eq!(server_message.len(), 33);
    let server = wanted(server.advance(Event::Written, &keys), 33);
    let server = wanted(server.advance(Event::Read(client_message), &keys), 32);
    (server, client.finish(&server_message).unwrap())
}

#[test]
fn client_with_the_key_is_accepted() {
    let keys = Keys::new(A_KEY, D_KEY);
    let (server, key) = up_to_confirmation(A_KEY);
    let confirmation = expanded(&key, "CPQHA-confirm-client-to-server");
    let (server, answer) = written(server.advance(Event::Read(confirmation), &keys));
    assert_eq!(answer, expanded(&key, "CPQHA-confirm-server-to-client"));
    let server = wanted(
        server.advance_with(Event::Written, &keys, Some(Secret::new([5u8; 32]))),
        32,
    );
    let client_secret = [6u8; 32];
    let client_public = calculate_public_key(&client_secret);
    let server = wanted(
        server.advance(Event::Read(client_public.to_vec()), &keys),
        1568,
    );
    let kem = generate_key_pair([7u8; 64]);
    let (server, server_public) = written(server.advance_with(
        Event::Read(kem.pk().to_vec()),
        &keys,
        Some(Secret::new([8u8; 32])),
    ));
    assert_eq!(server_public, calculate_public_key(&[5u8; 32]).to_vec());
    let secrets = match &server {
        SnowIncoming::OurX25519 {
            x25519_secret,
            ml_kem_secret,
            ..
        } => (**x25519_secret, **ml_kem_secret),
        _ => panic!("the ciphertext comes next"),
    };
    let (server, ciphertext) = written(server.advance(Event::Written, &keys));
    assert_eq!(
        secrets.0,
        calculate_shared_key(&client_secret, &calculate_public_key(&[5u8; 32]))
    );
    let ciphertext = MlKem1024Ciphertext::try_from(ciphertext.as_slice()).unwrap();
    assert_eq!(secrets.1, decapsulate(kem.private_key(), &ciphertext));
    let verdict = ended(server.advance(Event::Written, &keys));
    assert_eq!(verdict, SnowVerdict::Accepted);
    assert_eq!(verdict.into_result(), Ok(true));
}

#[test]
fn client_with_another_key_is_refused() {
    let keys = Keys::new(A_KEY, D_KEY);
    let (server, key) = up_to_confirmation([0u8; 32]);
    let confirmation = expanded(&key, "CPQHA-confirm-client-to-server");
    let verdict = ended(server.advance(Event::Read(confirmation), &keys));
    assert_eq!(verdict.into_result(), Ok(false));
}

#[test]
fn bad_spake2_message_is_refused() {
    let keys = Keys::new(A_KEY, D_KEY);
    let (server, _) = written(SnowIncoming::begin(&keys));
    let server = wanted(server.advance(Event::Written, &keys), 33);
    let verdict = ended(server.advance(Event::Read(vec![0x42; 33]), &keys));
    assert_eq!(
        verdict.into_result(),
        Err(AuthSnowErrors::FailedToFinishSpake2Exchange)
    );
}

#[test]
fn broken_streams_are_reported() {
    let keys = Keys::new(A_KEY, D_KEY);
    let (server, _) = written(SnowIncoming::begin(&keys));
    assert_eq!(
        ended(server.advance(Event::Failed, &keys)),
        SnowVerdict::Failed(AuthSnowErrors::FailedToWriteToStream)
    );
    let (server, _) = up_to_confirmation(A_KEY);
    assert_eq!(
        ended(server.advance(Event::Failed, &keys)),
        SnowVerdict::Failed(AuthSnowErrors::FailedToReadFromStream)
    );
}

#[test]
fn missing_randomness_is_reported() {
    let keys = Keys::new(A_KEY, D_KEY);
    assert_eq!(
        ended(SnowIncoming::OurConfirmation.advance_with(Event::Written, &keys, None)),
        SnowVerdict::Failed(AuthSnowErrors::FailedToGenerateRandomData)
    );
}

#[test]
fn psk_is_expanded_from_both_secrets() {
    let mut both = vec![1u8; 32];
    both.extend([2u8; 32]);
    assert_eq!(
        derive_psk(&[1u8; 32], &[2u8; 32]).unwrap().to_vec(),
        expanded(&both, "CPQHA-psk")
    );
}

/// The responder is set up under the one protocol that the module uses.
#[test]
fn noise_responder_is_set_up() {
    let psk = [9u8; 32];
    let builder = noise_responder(&D_KEY, &psk).unwrap_or_else(|e| panic!("{:?}", e));
    let text = format!("{:?}", builder);
    assert!(text.contains("Noise_XXpsk3_25519_ChaChaPoly_BLAKE2s"));
    assert!(builder.build_responder().is_ok());
}

#[test]
fn snow_error_messages() {
    for (e, text) in [
        (
            AuthSnowErrors::FailedToReadFromStream,
            "failed to read authentication key from stream",
        ),
        (
            AuthSnowErrors::FailedToDecrypt,
            "failed to decrypt authentication key",
        ),
        (
            AuthSnowErrors::FailedToWriteToStream,
            "failed to write to stream",
        ),
        (
            AuthSnowErrors::FailedToEncrypt,
            "failed to encrypt authentication key",
        ),
        (
            AuthSnowErrors::FailedToBindPrivateKey,
            "failed to bind private key to noise",
        ),
        (
            AuthSnowErrors::FailedToInitSnowBuilder,
            "failed to initialize snow builder",
        ),
        (
            AuthSnowErrors::FailedToGenerateRandomData,
            "failed to generate array of random data",
        ),
        (
            AuthSnowErrors::FailedToFinishSpake2Exchange,
            "failed to finish spake2 exchange",
        ),
        (AuthSnowErrors::FaledToExpandHkdf, "failed to expand hkdf"),
        (
            AuthSnowErrors::FailedToConvertToArray,
            "failed to convert vector to array",
        ),
        (AuthSnowErrors::FailedToParseText, "failed to parse text"),
        (
            AuthSnowErrors::FailedToSetLocalPrivateKey,
            "failed to set local private key",
        ),
        (AuthSnowErrors::FailedToSetPsk, "failed to set psk"),
    ] {
        assert_eq!(e.to_string(), text);
    }
}
