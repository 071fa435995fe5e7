use cesa_conn::address::{is_trusted, PeerAddr};
use cesa_conn::auth::{
    decrypt_tunnel, derive_session, encrypt_tunnel, encrypt_tunnel_with, AuthErrors, Incoming,
    Keys, Outgoing, Salts, Verdict,
};
use cesa_conn::exchange::{Event, Turn};
use cesa_conn::loopback::{handshake, HandshakeRandomness};
use cesa_conn::x25519_cesa::{
    calculate_public_key, calculate_shared_key, generate_private_key, hash_key,
};
use std::cell::Cell;

const TEST_KEY: [u8; 32] = [0xAB; 32];

fn addr(last: u8, port: u16) -> PeerAddr {
    PeerAddr::V4 {
        ip4: [127, 0, 0, last],
        port,
    }
}

/// Wraps `key` in a `Keys` struct (with `d_key` zeroed).
fn make_keys(key: [u8; 32]) -> Keys {
    Keys::new(key, [0u8; 32])
}

/// A server that has been sent `bytes` by a client, until it wants more than that.
///
/// The client sees what the server wrote so far and may answer; once it has nothing more to say the
/// stream is closed.
fn run_server<F>(trusted: &[PeerAddr], peer: PeerAddr, keys: &Keys, mut client: F) -> Verdict
where
    F: FnMut(&[u8]) -> Vec<u8>,
{
    let mut written: Vec<u8> = Vec::new();
    let mut incoming: Vec<u8> = client(&written);
    let mut turn = Incoming::begin(trusted, &peer);
    loop {
        match turn {
            Turn::Read(then, count) => {
                let event = if incoming.len() >= count {
                    let rest = incoming.split_off(count);
                    let bytes = incoming;
                    incoming = rest;
                    Event::Read(bytes)
                } else {
                    Event::Failed
                };
                turn = then.advance(event, keys).unwrap();
            }
            Turn::Write(then, bytes) => {
                written.extend_from_slice(&bytes);
                incoming.extend(client(&written));
                turn = then.advance(Event::Written, keys).unwrap();
            }
            Turn::Finish(verdict) => return verdict,
        }
    }
}

/// The same for a client that a server talks to.
fn run_client<F>(trusted: &[PeerAddr], peer: PeerAddr, keys: &Keys, mut server: F) -> Verdict
where
    F: FnMut(&[u8]) -> Vec<u8>,
{
    let mut written: Vec<u8> = Vec::new();
    let mut incoming: Vec<u8> = Vec::new();
    let mut turn = Outgoing::begin(trusted, &peer).unwrap();
    loop {
        match turn {
            Turn::Read(then, count) => {
                let event = if incoming.len() >= count {
                    let rest = incoming.split_off(count);
                    let bytes = incoming;
                    incoming = rest;
                    Event::Read(bytes)
                } else {
                    Event::Failed
                };
                turn = then.advance(event, keys);
            }
            Turn::Write(then, bytes) => {
                written.extend_from_slice(&bytes);
                incoming.extend(server(&written));
                turn = then.advance(Event::Written, keys);
            }
            Turn::Finish(verdict) => return verdict,
        }
    }
}

/// A client that follows the protocol with `auth_key`; `confirmation` overrides the byte it sends.
/// `confirmed` tells whether the server sent it back its key.
fn honest_client<'a>(
    auth_key: [u8; 32],
    confirmation: Option<u8>,
    confirmed: &'a Cell<bool>,
) -> impl FnMut(&[u8]) -> Vec<u8> + 'a {
    let private_key = generate_private_key().unwrap();
    move |written| match written.len() {
        0 => calculate_public_key(&private_key).to_vec(),
        32 => {
            let mut server_pub = [0u8; 32];
            server_pub.copy_from_slice(written);
            let session = hash_key(&calculate_shared_key(&private_key, &server_pub));
            encrypt_tunnel(&session, &auth_key).unwrap()
        }
        92 => {
            let mut server_pub = [0u8; 32];
            server_pub.copy_from_slice(&written[..32]);
            let session = hash_key(&calculate_shared_key(&private_key, &server_pub));
            let echo = decrypt_tunnel(&session, &written[32..]).unwrap();
            confirmed.set(echo == auth_key);
            let byte = confirmation.unwrap_or(if confirmed.get() { 1 } else { 0 });
            encrypt_tunnel(&session, &[byte]).unwrap()
        }
        _ => Vec::new(),
    }
}

fn randomness(seed: u8) -> HandshakeRandomness {
    HandshakeRandomness {
        client_private_key: [seed; 32],
        server_private_key: [seed.wrapping_add(1); 32],
        proof_nonce: [1u8; 12],
        echo_nonce: [2u8; 12],
        confirmation_nonce: [3u8; 12],
    }
}

/// Keys::new must store both raw arrays verbatim.
#[test]
fn test_keys_new() {
    let a = [0xAAu8; 32];
    let d = [0xDDu8; 32];
    let keys = Keys::new(a, d);
    assert_eq!(*keys.a_key, a);
    assert_eq!(*keys.d_key, d);
}

/// a_key and d_key may be identical: Keys::new must not deduplicate them.
#[test]
fn test_keys_new_same_values() {
    let k = [0x42u8; 32];
    let keys = Keys::new(k, k);
    assert_eq!(*keys.a_key, k);
    assert_eq!(*keys.d_key, k);
}

/// A packed buffer splits into its halves, and an update replaces both.
#[test]
fn keys_and_salts_unpack_and_update() {
    let mut packed = [0u8; 64];
    packed[..32].fill(0xAA);
    packed[32..].fill(0xDD);
    let mut keys = Keys::new([0u8; 32], [0u8; 32]);
    keys.update(Keys::from_ref(&packed));
    assert_eq!(*keys.a_key, [0xAA; 32]);
    assert_eq!(*keys.d_key, [0xDD; 32]);
    let mut salts = Salts::new([0u8; 32], [0u8; 32]);
    salts.update(Salts::from_ref(&packed));
    assert_eq!(salts.a_salt, [0xAA; 32]);
    assert_eq!(salts.d_salt, [0xDD; 32]);
}

/// Connection from an address not in the trusted list must be rejected immediately.
#[test]
fn test_untrusted_addr_rejected() {
    let verdict = run_server(&[], addr(1, 4000), &make_keys(TEST_KEY), |_| Vec::new());
    assert_eq!(verdict.into_result(), Ok((false, [0u8; 32])));
}

/// An all-zero public key is invalid and must be rejected after reading.
#[test]
fn test_zero_pubkey_rejected() {
    let peer = addr(1, 4000);
    let verdict = run_server(&[peer], peer, &make_keys(TEST_KEY), |_| vec![0u8; 32]);
    assert_eq!(verdict.into_result(), Ok((false, [0u8; 32])));
}

/// Stream closing before sending a full public key must return FailedToReadFromStream.
#[test]
fn test_incomplete_pubkey_returns_error() {
    let peer = addr(1, 4000);
    let verdict = run_server(&[peer], peer, &make_keys(TEST_KEY), |_| vec![0xAB; 10]);
    assert_eq!(
        verdict.into_result(),
        Err(AuthErrors::FailedToReadFromStream)
    );
}

/// Stream closing after pubkey exchange but before sending the full 60-byte encrypted payload
/// must return FailedToReadFromStream.
#[test]
fn test_incomplete_encrypted_payload_returns_error() {
    let peer = addr(1, 4000);
    let client_pub = calculate_public_key(&generate_private_key().unwrap());
    let verdict = run_server(&[peer], peer, &make_keys(TEST_KEY), |written| {
        if written.is_empty() {
            client_pub.to_vec()
        } else {
            vec![0xAB; 20]
        }
    });
    assert_eq!(
        verdict.into_result(),
        Err(AuthErrors::FailedToReadFromStream)
    );
}

/// Sending garbage bytes as the encrypted payload must fail decryption (GCM tag mismatch).
#[test]
fn test_invalid_ciphertext_returns_decrypt_error() {
    let peer = addr(1, 4000);
    let client_pub = calculate_public_key(&generate_private_key().unwrap());
    let verdict = run_server(&[peer], peer, &make_keys(TEST_KEY), |written| {
        if written.is_empty() {
            client_pub.to_vec()
        } else {
            vec![0xDE; 60]
        }
    });
    assert_eq!(verdict.into_result(), Err(AuthErrors::FailedToDecrypt));
}

/// Correct pre-shared key and trusted address must result in successful authentication.
#[test]
fn test_correct_key_auth_success() {
    let peer = addr(1, 4000);
    let client_confirmed = Cell::new(false);
    let verdict = run_server(
        &[addr(2, 1), addr(1, 9)],
        peer,
        &make_keys(TEST_KEY),
        honest_client(TEST_KEY, None, &client_confirmed),
    );
    let (authenticated, session) = verdict.into_result().unwrap();
    assert!(authenticated);
    assert!(client_confirmed.get());
    assert_ne!(session, [0u8; 32]);
}

/// Wrong pre-shared key: server rejects during key comparison and returns early.
#[test]
fn test_wrong_key_server_rejects() {
    let peer = addr(1, 4000);
    let client_confirmed = Cell::new(false);
    let verdict = run_server(
        &[peer],
        peer,
        &make_keys(TEST_KEY),
        honest_client([0xFF; 32], None, &client_confirmed),
    );
    assert_eq!(verdict.into_result(), Ok((false, [0u8; 32])));
    assert!(!client_confirmed.get());
}

/// Client sends the correct key but then rejects the server's confirmation (sends 0x00).
#[test]
fn test_client_rejects_server_confirmation() {
    let peer = addr(1, 4000);
    let client_confirmed = Cell::new(false);
    let verdict = run_server(
        &[peer],
        peer,
        &make_keys(TEST_KEY),
        honest_client(TEST_KEY, Some(0), &client_confirmed),
    );
    assert_eq!(verdict.into_result(), Ok((false, [0u8; 32])));
}

/// Client completes the full handshake correctly but closes the connection instead of
/// sending the confirmation byte: server must return FailedToReadFromStream.
#[test]
fn test_confirmation_byte_missing() {
    let peer = addr(1, 4000);
    let client_confirmed = Cell::new(false);
    let mut client = honest_client(TEST_KEY, None, &client_confirmed);
    let verdict = run_server(&[peer], peer, &make_keys(TEST_KEY), |written| {
        if written.len() == 92 {
            Vec::new()
        } else {
            client(written)
        }
    });
    assert_eq!(
        verdict.into_result(),
        Err(AuthErrors::FailedToReadFromStream)
    );
}

/// Each successful auth must produce a different shared key because ephemeral keys are
/// generated fresh per connection.
#[test]
fn test_shared_key_unique_per_session() {
    let peer = addr(1, 4000);
    let keys = make_keys(TEST_KEY);
    let confirmed = Cell::new(false);
    let first = run_server(
        &[peer],
        peer,
        &keys,
        honest_client(TEST_KEY, None, &confirmed),
    );
    let second = run_server(
        &[peer],
        peer,
        &keys,
        honest_client(TEST_KEY, None, &confirmed),
    );
    assert_ne!(
        first.into_result().unwrap().1,
        second.into_result().unwrap().1
    );
}

/// Connecting to an address not in the trusted list must be rejected immediately.
#[test]
fn test_outgoing_untrusted_addr_rejected() {
    let verdict = run_client(&[], addr(1, 4000), &make_keys(TEST_KEY), |_| Vec::new());
    assert_eq!(verdict.into_result(), Ok((false, [0u8; 32])));
}

/// Stream closes before the server sends its public key: must return FailedToReadFromStream.
#[test]
fn test_outgoing_stream_closes_before_server_pubkey() {
    let peer = addr(1, 4000);
    let verdict = run_client(&[peer], peer, &make_keys(TEST_KEY), |_| Vec::new());
    assert_eq!(
        verdict.into_result(),
        Err(AuthErrors::FailedToReadFromStream)
    );
}

/// Server sends garbage as its confirmation payload: decryption must fail.
#[test]
fn test_outgoing_invalid_server_confirmation_fails_decrypt() {
    let peer = addr(1, 4000);
    let server_pub = calculate_public_key(&generate_private_key().unwrap());
    let verdict = run_client(&[peer], peer, &make_keys(TEST_KEY), |written| {
        if written.len() == 32 {
            server_pub.to_vec()
        } else {
            vec![0xDE; 60]
        }
    });
    assert_eq!(verdict.into_result(), Err(AuthErrors::FailedToDecrypt));
}

/// Server sends a correctly encrypted but wrong key back: client must send 0x00 and return false.
#[test]
fn test_outgoing_server_returns_wrong_key() {
    let peer = addr(1, 4000);
    let server_priv = generate_private_key().unwrap();
    let server_pub = calculate_public_key(&server_priv);
    let mut rejection: Option<Vec<u8>> = None;
    let verdict = run_client(&[peer], peer, &make_keys(TEST_KEY), |written| {
        let mut client_pub = [0u8; 32];
        client_pub.copy_from_slice(&written[..32]);
        let session = hash_key(&calculate_shared_key(&server_priv, &client_pub));
        match written.len() {
            32 => server_pub.to_vec(),
            92 => encrypt_tunnel(&session, &[0xFF; 32]).unwrap(),
            _ => {
                rejection = Some(decrypt_tunnel(&session, &written[92..]).unwrap());
                Vec::new()
            }
        }
    });
    assert_eq!(verdict.into_result(), Ok((false, [0u8; 32])));
    assert_eq!(rejection, Some(vec![0u8]));
}

/// Both sides use the same pre-shared key: full handshake must succeed on both ends,
/// and both must derive the same session key.
#[test]
fn test_full_handshake_success() {
    let keys = make_keys(TEST_KEY);
    let (client, server) = handshake(&keys, &keys, addr(1, 1), addr(2, 2), &randomness(7));
    let (client_auth, client_hash) = client.into_result().unwrap();
    let (server_auth, server_hash) = server.into_result().unwrap();
    assert!(client_auth);
    assert!(server_auth);
    assert_eq!(client_hash, server_hash);
    assert_ne!(client_hash, [0u8; 32]);
}

/// Client uses the wrong pre-shared key: server rejects during key comparison, and the client's
/// stream ends.
#[test]
fn test_full_handshake_wrong_client_key() {
    let (client, server) = handshake(
        &make_keys([0xFF; 32]),
        &make_keys(TEST_KEY),
        addr(1, 1),
        addr(2, 2),
        &randomness(7),
    );
    assert_eq!(server.into_result(), Ok((false, [0u8; 32])));
    assert_eq!(
        client.into_result(),
        Err(AuthErrors::FailedToReadFromStream)
    );
}

/// Runs a client and a server against each other, each with randomness of its own, and returns the
/// public keys that they sent and how they ended.
fn run_both(keys: &Keys) -> (Vec<u8>, Vec<u8>, Verdict, Verdict) {
    let mut client_key: Vec<u8> = Vec::new();
    let mut server_key: Vec<u8> = Vec::new();
    let mut server = Incoming::begin(&[addr(1, 1)], &addr(1, 4000));
    let mut server_end: Option<Verdict> = None;
    let client_end = run_client(&[addr(2, 2)], addr(2, 3232), keys, |written| {
        if client_key.is_empty() {
            client_key = written.to_vec();
        }
        // the last message that the client wrote
        let mut unread = match written.len() {
            32 => written.to_vec(),
            92 => written[32..].to_vec(),
            _ => written[92..].to_vec(),
        };
        let mut answer: Vec<u8> = Vec::new();
        loop {
            let now = std::mem::replace(&mut server, Turn::Finish(Verdict::Refused));
            match now {
                Turn::Read(then, count) => {
                    if unread.len() < count {
                        server = Turn::Read(then, count);
                        return answer;
                    }
                    let rest = unread.split_off(count);
                    let bytes = std::mem::replace(&mut unread, rest);
                    server = then.advance(Event::Read(bytes), keys).unwrap();
                }
                Turn::Write(then, bytes) => {
                    if server_key.is_empty() {
                        server_key = bytes.clone();
                    }
                    answer.extend(bytes);
                    server = then.advance(Event::Written, keys).unwrap();
                }
                Turn::Finish(verdict) => {
                    server_end = Some(verdict);
                    return answer;
                }
            }
        }
    });
    (
        client_key,
        server_key,
        client_end,
        server_end.expect("the server has ended"),
    )
}

/// Two full handshakes must each produce a unique session key: ephemeral keys are fresh on both
/// ends.
#[test]
fn test_full_handshake_keys_unique_across_sessions() {
    let keys = make_keys(TEST_KEY);
    let first = run_both(&keys);
    let second = run_both(&keys);
    for run in [&first, &second] {
        assert_eq!(run.2, run.3);
        let (authenticated, session) = run.2.into_result().unwrap();
        assert!(authenticated);
        assert_ne!(session, [0u8; 32]);
    }
    assert_ne!(first.0, second.0);
    assert_ne!(first.1, second.1);
    assert_ne!(
        first.2.into_result().unwrap().1,
        second.2.into_result().unwrap().1
    );
}

/// Given ephemeral keys give the session keys that follow from them.
#[test]
fn session_keys_follow_from_the_ephemeral_keys() {
    let keys = make_keys(TEST_KEY);
    let (client, server) = handshake(&keys, &keys, addr(1, 1), addr(2, 2), &randomness(7));
    let session = derive_session(&[7u8; 32], &calculate_public_key(&[8u8; 32]));
    assert_eq!(client, Verdict::Accepted(session));
    assert_eq!(server, Verdict::Accepted(session));
    let (other, _) = handshake(&keys, &keys, addr(1, 1), addr(2, 2), &randomness(9));
    assert_ne!(other, client);
}

/// A failed write is told from a failed read.
#[test]
fn failed_writes_are_reported() {
    let keys = make_keys(TEST_KEY);
    let peer = addr(1, 4000);
    let Turn::Write(client, _) = Outgoing::begin_with(&[peer], &peer, [7u8; 32]) else {
        panic!("a trusted peer is sent our key");
    };
    let Turn::Finish(verdict) = client.advance(Event::Failed, &keys) else {
        panic!("the handshake ends");
    };
    assert_eq!(verdict, Verdict::Failed(AuthErrors::FailedToWriteToStream));
}

/// Without a nonce nothing is encrypted.
#[test]
fn missing_nonce_is_an_encryption_failure() {
    assert_eq!(
        encrypt_tunnel_with(&TEST_KEY, b"data", None),
        Err(AuthErrors::FailedToEncrypt)
    );
    let message = encrypt_tunnel_with(&TEST_KEY, b"data", Some([9u8; 12])).unwrap();
    assert_eq!(message.len(), 32);
    assert_eq!(&message[..12], &[9u8; 12]);
    assert_eq!(decrypt_tunnel(&TEST_KEY, &message), Ok(b"data".to_vec()));
}

/// The two parties of an agreement come to one session key.
#[test]
fn session_keys_agree() {
    let ours = [3u8; 32];
    let theirs = [4u8; 32];
    assert_eq!(
        derive_session(&ours, &calculate_public_key(&theirs)),
        derive_session(&theirs, &calculate_public_key(&ours))
    );
}

/// Trust goes by IP address alone.
#[test]
fn trust_ignores_ports() {
    let list = [addr(1, 10), addr(2, 20)];
    assert!(is_trusted(&list, &addr(2, 9999)));
    assert!(!is_trusted(&list, &addr(3, 20)));
    let mapped = PeerAddr::V6 {
        ip6: [0, 0, 0, 0, 0, 0, 0, 0, 0, 0, 0xff, 0xff, 127, 0, 0, 1],
        port: 10,
        flowinfo: 0,
        scope_id: 0,
    };
    assert!(!is_trusted(&list, &mapped));
    assert!(is_trusted(&[mapped], &mapped));
}

/// encrypt_tunnel output must be decryptable by decrypt_tunnel and produce the original data.
#[test]
fn test_tunnel_roundtrip() {
    let key = [0x42u8; 32];
    let plaintext = b"hello tunnel";

    let encrypted = encrypt_tunnel(&key, plaintext).unwrap();
    let decrypted = decrypt_tunnel(&key, &encrypted).unwrap();

    assert_eq!(decrypted, plaintext);
}

/// decrypt_tunnel with a wrong key must fail (GCM tag mismatch).
#[test]
fn test_tunnel_wrong_key_fails() {
    let key = [0x42u8; 32];
    let wrong_key = [0xFFu8; 32];

    let encrypted = encrypt_tunnel(&key, b"secret").unwrap();
    assert!(decrypt_tunnel(&wrong_key, &encrypted).is_err());
}

/// encrypt_tunnel must produce different ciphertext each call (random nonce).
#[test]
fn test_tunnel_nonce_is_random() {
    let key = [0x42u8; 32];
    let plaintext = b"same data";

    let e1 = encrypt_tunnel(&key, plaintext).unwrap();
    let e2 = encrypt_tunnel(&key, plaintext).unwrap();

    assert_ne!(e1, e2);
}

#[test]
fn auth_test_error_display_read() {
    assert_eq!(
        AuthErrors::FailedToReadFromStream.to_string(),
        "failed to read authentication key from stream"
    );
}

#[test]
fn auth_test_error_display_decrypt() {
    assert_eq!(
        AuthErrors::FailedToDecrypt.to_string(),
        "failed to decrypt authentication key"
    );
}

#[test]
fn auth_test_error_display_write() {
    assert_eq!(
        AuthErrors::FailedToWriteToStream.to_string(),
        "failed to write to stream"
    );
}

#[test]
fn auth_test_error_display_encrypt() {
    assert_eq!(
        AuthErrors::FailedToEncrypt.to_string(),
        "failed to encrypt authentication key"
    );
}
