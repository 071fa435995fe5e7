use cesa_conn::address::PeerAddr;
use cesa_conn::auth::{decrypt_tunnel, encrypt_tunnel, Keys, Outgoing, Verdict};
use cesa_conn::exchange::{Event, Turn};
use cesa_conn::loopback::{transfer, HandshakeRandomness};
use cesa_conn::tcp_networker::{
    connect, encode_header, open_packet, recv, recv_start, seal_packet, ActionType, Connect,
    ConnectVerdict, DialEvent, ListenEvent, ListenStep, Outbound, Recv, RecvVerdict,
    TcpNetworkerErrors,
};

// Pre-shared keys used across all tests.
const TEST_A_KEY: [u8; 32] = [0xAB; 32]; // authentication key
const TEST_D_KEY: [u8; 32] = [0xCD; 32]; // data encryption key

fn addr(last: u8, port: u16) -> PeerAddr {
    PeerAddr::V4 {
        ip4: [127, 0, 0, last],
        port,
    }
}

fn test_keys() -> Keys {
    Keys::new(TEST_A_KEY, TEST_D_KEY)
}

fn randomness() -> HandshakeRandomness {
    HandshakeRandomness {
        client_private_key: [5u8; 32],
        server_private_key: [6u8; 32],
        proof_nonce: [1u8; 12],
        echo_nonce: [2u8; 12],
        confirmation_nonce: [3u8; 12],
    }
}

const NONCES: [[u8; 12]; 3] = [[4u8; 12], [5u8; 12], [6u8; 12]];

fn job(action_type: ActionType, data: Vec<u8>) -> Outbound {
    Outbound {
        connect_addr: addr(2, 3232),
        action_type,
        data,
    }
}

/// Runs the receiving end against a client that authenticates with `client_keys` and then sends
/// what `after_auth` makes of the session key, before the stream is closed.
fn run_recv<F>(trusted: &[PeerAddr], client_keys: &Keys, after_auth: F) -> RecvVerdict
where
    F: Fn(&[u8; 32]) -> Vec<u8>,
{
    let peer = addr(1, 4000);
    let keys = test_keys();
    let mut to_server: Vec<u8> = Vec::new();
    let mut to_client: Vec<u8> = Vec::new();
    let mut client = Some(Outgoing::begin(&[addr(2, 1)], &addr(2, 3232)).unwrap());
    let mut server = Recv::begin(trusted, &peer);
    loop {
        // the client goes as far as it can
        while let Some(turn) = client.take() {
            match turn {
                Turn::Write(then, bytes) => {
                    to_server.extend(bytes);
                    client = Some(then.advance(Event::Written, client_keys));
                }
                Turn::Read(then, count) => {
                    if to_client.len() < count {
                        client = Some(Turn::Read(then, count));
                        break;
                    }
                    let rest = to_client.split_off(count);
                    let bytes = std::mem::replace(&mut to_client, rest);
                    client = Some(then.advance(Event::Read(bytes), client_keys));
                }
                Turn::Finish(Verdict::Accepted(session)) => to_server.extend(after_auth(&session)),
                Turn::Finish(_) => {}
            }
        }
        match server {
            Turn::Write(then, bytes) => {
                to_client.extend(bytes);
                server = then.advance(Event::Written, &keys).unwrap();
            }
            Turn::Read(then, count) => {
                let event = if to_server.len() >= count {
                    let rest = to_server.split_off(count);
                    Event::Read(std::mem::replace(&mut to_server, rest))
                } else {
                    Event::Failed
                };
                server = then.advance(event, &keys).unwrap();
            }
            Turn::Finish(verdict) => return verdict,
        }
    }
}

/// Double-encrypts the payload by hand: inner = d_key, outer = session key.
fn packet_by_hand(session: &[u8; 32], action: u8, plaintext: &[u8]) -> Vec<u8> {
    let inner = encrypt_tunnel(&TEST_D_KEY, plaintext).unwrap();
    let outer = encrypt_tunnel(session, &inner).unwrap();
    let mut init_plaintext = [0u8; 9];
    init_plaintext[0] = action;
    init_plaintext[1..9].copy_from_slice(&(outer.len() as u64).to_le_bytes());
    let mut sent = encrypt_tunnel(session, &init_plaintext).unwrap();
    sent.extend(outer);
    sent
}

/// All four known byte values must map to their correct ActionType variants.
#[test]
fn test_action_type_from_u8_all_known() {
    assert_eq!(ActionType::from_u8(0x00), Some(ActionType::Default));
    assert_eq!(ActionType::from_u8(0x01), Some(ActionType::Debug));
    assert_eq!(
        ActionType::from_u8(0x02),
        Some(ActionType::ConnectNewDevice)
    );
    assert_eq!(ActionType::from_u8(0x03), Some(ActionType::ClipboardSync));
}

/// Unknown byte values must return None — not panic or silently default.
#[test]
fn test_action_type_from_u8_unknown() {
    assert_eq!(ActionType::from_u8(0x04), None);
    assert_eq!(ActionType::from_u8(0x10), None);
    assert_eq!(ActionType::from_u8(0xFF), None);
}

/// Wire discriminants must be stable — changing them breaks protocol compatibility.
#[test]
fn test_action_type_discriminants() {
    assert_eq!(ActionType::Default as u8, 0x00);
    assert_eq!(ActionType::Debug as u8, 0x01);
    assert_eq!(ActionType::ConnectNewDevice as u8, 0x02);
    assert_eq!(ActionType::ClipboardSync as u8, 0x03);
}

/// from_u8 and as u8 must be a perfect roundtrip for all known variants.
#[test]
fn tcp_networker_test_action_type_roundtrip() {
    for variant in [
        ActionType::Default,
        ActionType::Debug,
        ActionType::ConnectNewDevice,
        ActionType::ClipboardSync,
    ] {
        assert_eq!(ActionType::from_u8(variant as u8), Some(variant));
    }
}

/// Every error variant must produce a non-empty, human-readable Display string.
#[test]
fn test_all_error_display_non_empty() {
    let errors = [
        TcpNetworkerErrors::FailedToAcceptConnection,
        TcpNetworkerErrors::FailedToReadFromStream,
        TcpNetworkerErrors::FailedToAuthenticate,
        TcpNetworkerErrors::FailedToDecryptTunnel,
        TcpNetworkerErrors::FailedToGetLocalAddr,
        TcpNetworkerErrors::FailedToConnect,
        TcpNetworkerErrors::FailedToEncryptTunnel,
        TcpNetworkerErrors::FailedToWriteToStream,
        TcpNetworkerErrors::FailedToSpawnNewBlockingTask,
    ];
    for err in errors {
        assert!(!err.to_string().is_empty());
    }
}

#[test]
fn test_error_display_accept() {
    assert_eq!(
        TcpNetworkerErrors::FailedToAcceptConnection.to_string(),
        "failed to accept connection"
    );
}

#[test]
fn tcp_networker_test_error_display_read() {
    assert_eq!(
        TcpNetworkerErrors::FailedToReadFromStream.to_string(),
        "failed to read from stream"
    );
}

#[test]
fn test_error_display_auth() {
    assert_eq!(
        TcpNetworkerErrors::FailedToAuthenticate.to_string(),
        "authentication failed"
    );
}

#[test]
fn tcp_networker_test_error_display_decrypt() {
    assert_eq!(
        TcpNetworkerErrors::FailedToDecryptTunnel.to_string(),
        "failed to decrypt tunnel data"
    );
}

#[test]
fn test_error_display_local_addr() {
    assert_eq!(
        TcpNetworkerErrors::FailedToGetLocalAddr.to_string(),
        "failed to get local address"
    );
}

#[test]
fn test_error_display_connect() {
    assert_eq!(
        TcpNetworkerErrors::FailedToConnect.to_string(),
        "failed to make a connection request"
    );
}

#[test]
fn tcp_networker_test_error_display_encrypt() {
    assert_eq!(
        TcpNetworkerErrors::FailedToEncryptTunnel.to_string(),
        "failed to encrypt tunnel data"
    );
}

#[test]
fn tcp_networker_test_error_display_write() {
    assert_eq!(
        TcpNetworkerErrors::FailedToWriteToStream.to_string(),
        "failed to write to stream"
    );
}

#[test]
fn test_error_display_spawn_blocking() {
    assert_eq!(
        TcpNetworkerErrors::FailedToSpawnNewBlockingTask.to_string(),
        "failed to spawn new blocking task"
    );
}

/// A peer whose address is not in trusted_addrs must be rejected gracefully.
#[test]
fn test_recv_handler_untrusted_addr_rejected() {
    let verdict = run_recv(&[], &test_keys(), |_| Vec::new());
    assert_eq!(verdict, RecvVerdict::Refused);
    assert!(verdict.into_result().is_ok());
}

/// Stream closing during auth must return FailedToAuthenticate.
#[test]
fn test_recv_handler_stream_closes_during_auth() {
    let peer = addr(1, 4000);
    let Turn::Read(server, 32) = Recv::begin(&[peer], &peer) else {
        panic!("a trusted peer is listened to");
    };
    let Turn::Finish(verdict) = server.advance(Event::Failed, &test_keys()).unwrap() else {
        panic!("a closed stream ends the connection");
    };
    assert_eq!(
        verdict,
        RecvVerdict::Failed(TcpNetworkerErrors::FailedToAuthenticate)
    );
}

/// Wrong auth key must close the connection gracefully.
#[test]
fn test_recv_handler_wrong_auth_key() {
    let verdict = run_recv(
        &[addr(1, 1)],
        &Keys::new([0u8; 32], [0u8; 32]),
        |_| Vec::new(),
    );
    assert_eq!(verdict, RecvVerdict::Refused);
}

/// Garbage bytes in place of the init header must be rejected by AES-GCM tag verification.
#[test]
fn test_recv_handler_garbage_after_auth() {
    let verdict = run_recv(&[addr(1, 1)], &test_keys(), |_| vec![0xDE; 37]);
    assert_eq!(
        verdict,
        RecvVerdict::Failed(TcpNetworkerErrors::FailedToDecryptTunnel)
    );
}

/// Closing the stream after auth but before the init header must return FailedToReadFromStream.
#[test]
fn test_recv_handler_closes_after_auth() {
    let verdict = run_recv(&[addr(1, 1)], &test_keys(), |_| Vec::new());
    assert_eq!(
        verdict,
        RecvVerdict::Failed(TcpNetworkerErrors::FailedToReadFromStream)
    );
}

/// A manually constructed client sends a correctly formatted and encrypted packet: the receiver
/// must accept and decrypt it.
#[test]
fn test_full_client_to_server() {
    let verdict = run_recv(&[addr(1, 1)], &test_keys(), |session| {
        packet_by_hand(session, ActionType::Debug as u8, b"hello from client")
    });
    assert_eq!(
        verdict,
        RecvVerdict::Received(ActionType::Debug, b"hello from client".to_vec())
    );
}

/// The same with a 512-byte payload.
#[test]
fn test_full_client_to_server_large_payload() {
    let verdict = run_recv(&[addr(1, 1)], &test_keys(), |session| {
        packet_by_hand(session, ActionType::ClipboardSync as u8, &[0xBE; 512])
    });
    assert_eq!(
        verdict,
        RecvVerdict::Received(ActionType::ClipboardSync, vec![0xBE; 512])
    );
}

/// An unknown action byte falls back to the default action.
#[test]
fn unknown_action_is_the_default_one() {
    let verdict = run_recv(&[addr(1, 1)], &test_keys(), |session| {
        packet_by_hand(session, 0x77, b"x")
    });
    assert_eq!(
        verdict,
        RecvVerdict::Received(ActionType::Default, b"x".to_vec())
    );
}

/// A packet or an inner layer that cannot even hold a nonce stops the decrypting task.
#[test]
fn packets_too_short_for_a_nonce() {
    let verdict = run_recv(&[addr(1, 1)], &test_keys(), |session| {
        let mut sent = encrypt_tunnel(session, &encode_header(ActionType::Debug, 11)).unwrap();
        sent.extend([0u8; 11]);
        sent
    });
    assert_eq!(
        verdict,
        RecvVerdict::Failed(TcpNetworkerErrors::FailedToSpawnNewBlockingTask)
    );
    let short_inner = encrypt_tunnel(&[1u8; 32], &[0u8; 11]).unwrap();
    assert_eq!(
        open_packet(&[1u8; 32], &TEST_D_KEY, &short_inner),
        Err(TcpNetworkerErrors::FailedToSpawnNewBlockingTask)
    );
    let wrong_inner = encrypt_tunnel(&[1u8; 32], &[0u8; 12]).unwrap();
    assert_eq!(
        open_packet(&[1u8; 32], &TEST_D_KEY, &wrong_inner),
        Err(TcpNetworkerErrors::FailedToDecryptTunnel)
    );
}

/// Sender and receiver with the same keys: what is sent is what is received.
#[test]
fn test_full_server_to_client() {
    let keys = test_keys();
    let job = job(ActionType::Debug, b"hello from connect_handler".to_vec());
    let (sent, received) = transfer(&keys, &keys, addr(1, 1), &job, &randomness(), NONCES);
    assert_eq!(sent, ConnectVerdict::Sent);
    assert_eq!(
        received,
        RecvVerdict::Received(ActionType::Debug, b"hello from connect_handler".to_vec())
    );
}

/// Same with a 256-byte ClipboardSync payload.
#[test]
fn test_full_server_to_client_large_payload() {
    let keys = test_keys();
    let job = job(ActionType::ClipboardSync, vec![0xAA; 256]);
    let (sent, received) = transfer(&keys, &keys, addr(1, 1), &job, &randomness(), NONCES);
    assert_eq!(sent, ConnectVerdict::Sent);
    assert_eq!(
        received,
        RecvVerdict::Received(ActionType::ClipboardSync, vec![0xAA; 256])
    );
}

/// Different data keys: the packet arrives and does not open.
#[test]
fn wrong_data_key_fails_decryption() {
    let (sent, received) = transfer(
        &test_keys(),
        &Keys::new(TEST_A_KEY, [0u8; 32]),
        addr(1, 1),
        &job(ActionType::Debug, b"data".to_vec()),
        &randomness(),
        NONCES,
    );
    assert_eq!(sent, ConnectVerdict::Sent);
    assert_eq!(
        received,
        RecvVerdict::Failed(TcpNetworkerErrors::FailedToDecryptTunnel)
    );
}

/// Different authentication keys: nothing is sent.
#[test]
fn wrong_auth_key_sends_nothing() {
    let (sent, received) = transfer(
        &test_keys(),
        &Keys::new([0u8; 32], TEST_D_KEY),
        addr(1, 1),
        &job(ActionType::Debug, b"data".to_vec()),
        &randomness(),
        NONCES,
    );
    assert_eq!(
        sent,
        ConnectVerdict::Failed(TcpNetworkerErrors::FailedToAuthenticate)
    );
    assert_eq!(received, RecvVerdict::Refused);
}

/// ConnectNewDevice must add the peer's address to trusted_addrs and return Ok.
/// No init header or data packet is sent after auth; the receiver gets EOF.
#[test]
fn test_connect_handler_connect_new_device_adds_trusted() {
    let keys = test_keys();
    let job = job(ActionType::ConnectNewDevice, vec![]);
    let (sent, received) = transfer(&keys, &keys, addr(1, 1), &job, &randomness(), NONCES);
    assert_eq!(sent, ConnectVerdict::Registered(addr(2, 3232)));
    let mut trusted = vec![addr(9, 9)];
    assert_eq!(sent.settle(&mut trusted), Ok(()));
    assert_eq!(trusted, vec![addr(9, 9), addr(2, 3232)]);
    assert_eq!(
        received,
        RecvVerdict::Failed(TcpNetworkerErrors::FailedToReadFromStream)
    );
}

/// Only a breakdown of the receiving end is an error.
#[test]
fn received_and_refused_are_no_errors() {
    assert_eq!(
        RecvVerdict::Received(ActionType::Debug, vec![1]).into_result(),
        Ok(())
    );
    assert_eq!(RecvVerdict::Refused.into_result(), Ok(()));
    assert_eq!(
        RecvVerdict::Failed(TcpNetworkerErrors::FailedToDecryptTunnel).into_result(),
        Err(TcpNetworkerErrors::FailedToDecryptTunnel)
    );
}

/// Only a registration changes the trusted addresses, only a breakdown is an error.
#[test]
fn other_outcomes_leave_the_trusted_addresses_alone() {
    let mut trusted = vec![addr(9, 9)];
    assert_eq!(ConnectVerdict::Sent.settle(&mut trusted), Ok(()));
    assert_eq!(ConnectVerdict::Refused.settle(&mut trusted), Ok(()));
    assert_eq!(
        ConnectVerdict::Failed(TcpNetworkerErrors::FailedToWriteToStream).settle(&mut trusted),
        Err(TcpNetworkerErrors::FailedToWriteToStream)
    );
    assert_eq!(trusted, vec![addr(9, 9)]);
}

/// An untrusted target is refused before anything is written.
#[test]
fn connect_to_untrusted_target_is_refused() {
    let job = job(ActionType::Debug, vec![]);
    match Connect::begin(&[addr(7, 7)], &job).unwrap() {
        Turn::Finish(verdict) => assert_eq!(verdict, ConnectVerdict::Refused),
        _ => panic!("an untrusted target is refused"),
    }
}

/// Cancelling before connecting must return Ok immediately, with nothing to handle.
#[test]
fn test_connect_cancels_before_connecting() {
    assert_eq!(connect(DialEvent::Cancelled), Ok(false));
    assert_eq!(connect(DialEvent::Connected), Ok(true));
}

/// Connecting to a closed port must return FailedToConnect.
#[test]
fn test_connect_to_closed_port_fails() {
    assert_eq!(
        connect(DialEvent::ConnectFailed),
        Err(TcpNetworkerErrors::FailedToConnect)
    );
}

/// The listener handles connections until it is cancelled or cannot accept any more.
#[test]
fn listener_rounds() {
    assert_eq!(recv_start(true), Ok(()));
    assert_eq!(
        recv_start(false),
        Err(TcpNetworkerErrors::FailedToGetLocalAddr)
    );
    assert_eq!(recv(ListenEvent::Cancelled), ListenStep::Stop(Ok(())));
    assert_eq!(
        recv(ListenEvent::Accepted(addr(1, 1))),
        ListenStep::Handle(addr(1, 1))
    );
    assert_eq!(
        recv(ListenEvent::AcceptFailed),
        ListenStep::Stop(Err(TcpNetworkerErrors::FailedToAcceptConnection))
    );
}

/// The header is the action byte and the little-endian size.
#[test]
fn header_layout() {
    assert_eq!(
        encode_header(ActionType::ClipboardSync, 0x0102),
        vec![3, 2, 1, 0, 0, 0, 0, 0, 0]
    );
}

/// A sealed packet opens again; without a nonce it cannot be sealed.
#[test]
fn sealed_packets_open_again() {
    let session = [1u8; 32];
    let packet = seal_packet(
        &session,
        &TEST_D_KEY,
        b"data",
        Some([1u8; 12]),
        Some([2u8; 12]),
    )
    .unwrap();
    assert_eq!(packet.len(), 60);
    assert_eq!(&packet[..12], &[2u8; 12]);
    let inner = decrypt_tunnel(&session, &packet).unwrap();
    assert_eq!(&inner[..12], &[1u8; 12]);
    assert_eq!(
        open_packet(&session, &TEST_D_KEY, &packet),
        Ok(b"data".to_vec())
    );
    assert_eq!(
        seal_packet(&session, &TEST_D_KEY, b"data", None, Some([2u8; 12])),
        Err(TcpNetworkerErrors::FailedToEncryptTunnel)
    );
}

/// The wire byte of an action and the cast agree.
#[test]
fn action_bytes() {
    for action in [
        ActionType::Default,
        ActionType::Debug,
        ActionType::ConnectNewDevice,
        ActionType::ClipboardSync,
    ] {
        assert_eq!(action.to_u8(), action as u8);
        assert_eq!(ActionType::from_u8_or_default(action.to_u8()), action);
    }
    assert_eq!(ActionType::from_u8_or_default(0xFF), ActionType::Default);
}
