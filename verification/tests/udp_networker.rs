use cesa_conn::address::PeerAddr;
use cesa_conn::auth::{encrypt_tunnel, Keys};
use cesa_conn::udp_networker::{
    capped_duration, discovery, search_as_client, search_as_server, udp_find_broadcaster,
    Announcing, Broadcast, BroadcastTurn, Discovery, FindEvent, Listening, SearchTurn,
    UdpNetworkerErrors, BROADCAST_NAME, BROADCAST_SOCKET, BROADCAST_TARGET, DISCOVERY_SOCKET,
    MAX_BROADCAST_DURATION, RECEIVE_BUFFER,
};

/// Pre-shared key used across all tests.
const TEST_KEY: [u8; 32] = [0xAB; 32];

fn make_test_key(key: [u8; 32]) -> Keys {
    Keys::new(key, [0u8; 32])
}

fn sender() -> PeerAddr {
    PeerAddr::V4 {
        ip4: [192, 168, 1, 2],
        port: 6363,
    }
}

fn find(packet: Vec<u8>, key: [u8; 32]) -> Result<PeerAddr, UdpNetworkerErrors> {
    udp_find_broadcaster(
        FindEvent::Packet(packet, sender()),
        BROADCAST_NAME.as_bytes(),
        &make_test_key(key),
    )
}

/// Runs a broadcast whose operation number `failing` fails, and returns the packets it sent, the
/// operations it asked for and how it ended.
fn run_broadcast(
    duration: u64,
    message: &[u8],
    failing: Option<usize>,
) -> (Vec<Vec<u8>>, Vec<String>, Result<(), UdpNetworkerErrors>) {
    let keys = make_test_key(TEST_KEY);
    let mut packets = Vec::new();
    let mut asked: Vec<String> = Vec::new();
    let mut turn = Broadcast::begin(duration);
    loop {
        let succeeded = failing != Some(asked.len());
        let then = match turn {
            BroadcastTurn::Bind(then) => {
                asked.push("bind".to_owned());
                then
            }
            BroadcastTurn::SetBroadcast(then, on) => {
                asked.push(format!("broadcast {}", on));
                then
            }
            BroadcastTurn::Send(then, packet) => {
                asked.push("send".to_owned());
                packets.push(packet);
                then
            }
            BroadcastTurn::Pause(then) => {
                asked.push("pause".to_owned());
                then
            }
            BroadcastTurn::Finish(result) => return (packets, asked, result),
        };
        turn = then.advance(succeeded, &keys, message);
    }
}

/// Duration above `MAX_BROADCAST_DURATION` must be capped to the maximum.
#[test]
fn test_duration_cap() {
    assert_eq!(
        capped_duration(MAX_BROADCAST_DURATION + 100),
        MAX_BROADCAST_DURATION
    );
    assert_eq!(MAX_BROADCAST_DURATION, 20);
    assert_eq!(capped_duration(20), 20);
    assert_eq!(capped_duration(3), 3);
}

/// A packet that decrypts successfully but carries the wrong device name must be
/// rejected with `UnknownDevice`.
#[test]
fn test_unknown_device_rejected() {
    let encrypted = encrypt_tunnel(&TEST_KEY, b"UnknownDevice").unwrap();
    assert_eq!(
        find(encrypted, TEST_KEY),
        Err(UdpNetworkerErrors::UnknownDevice)
    );
}

/// A packet encrypted with a mismatched key must fail AES-GCM authentication
/// and return `FailedToDecryptTunnel`.
#[test]
fn test_wrong_key_fails_decryption() {
    let wrong_key = [0xFF; 32];
    let encrypted = encrypt_tunnel(&wrong_key, BROADCAST_NAME.as_bytes()).unwrap();
    assert_eq!(
        find(encrypted, TEST_KEY),
        Err(UdpNetworkerErrors::FailedToDecryptTunnel)
    );
}

/// A correctly encrypted packet whose plaintext matches `BROADCAST_NAME` must be
/// accepted: the function returns the sender's address.
#[test]
fn test_correct_broadcast_found() {
    let encrypted = encrypt_tunnel(&TEST_KEY, BROADCAST_NAME.as_bytes()).unwrap();
    assert_eq!(find(encrypted, TEST_KEY), Ok(sender()));
}

/// A UDP packet that fills the 1024-byte receive buffer must be rejected as `DataTooBig`.
#[test]
fn test_oversized_packet_rejected() {
    let big_data = vec![0u8; 1025];
    // the socket hands over what fits the buffer
    let received = big_data[..RECEIVE_BUFFER].to_vec();
    assert_eq!(received.len(), 1024);
    assert_eq!(
        find(received, TEST_KEY),
        Err(UdpNetworkerErrors::DataTooBig)
    );
    assert_eq!(
        udp_find_broadcaster(FindEvent::Oversized, b"", &make_test_key(TEST_KEY)),
        Err(UdpNetworkerErrors::DataTooBig)
    );
}

/// The encryption key must not be mutated by a search that times out.
#[test]
fn test_key_not_mutated_on_timeout() {
    let keys = make_test_key(TEST_KEY);
    assert_eq!(
        udp_find_broadcaster(FindEvent::TimedOut, BROADCAST_NAME.as_bytes(), &keys),
        Err(UdpNetworkerErrors::Timeout)
    );
    assert_eq!(*keys.a_key, TEST_KEY);
}

/// The other ways in which a search fails.
#[test]
fn search_failures() {
    let keys = make_test_key(TEST_KEY);
    assert_eq!(
        udp_find_broadcaster(FindEvent::BindFailed, b"", &keys),
        Err(UdpNetworkerErrors::FailedToBindSocket)
    );
    assert_eq!(
        udp_find_broadcaster(FindEvent::ReceiveFailed, b"", &keys),
        Err(UdpNetworkerErrors::FailedToFetchResult)
    );
}

/// One packet per second goes out, and each is recognized by who listens with the same key.
#[test]
fn broadcast_sends_one_packet_per_second() {
    let (packets, asked, result) = run_broadcast(2, BROADCAST_NAME.as_bytes(), None);
    assert_eq!(result, Ok(()));
    assert_eq!(
        asked,
        vec![
            "bind",
            "broadcast true",
            "send",
            "pause",
            "send",
            "pause",
            "broadcast false"
        ]
    );
    assert_eq!(packets.len(), 2);
    assert_ne!(packets[0], packets[1]);
    for packet in packets {
        assert_eq!(find(packet, TEST_KEY), Ok(sender()));
    }
}

#[test]
fn broadcast_is_capped_and_may_be_empty() {
    let (packets, _, result) = run_broadcast(u64::MAX, b"x", None);
    assert_eq!(packets.len(), 20);
    assert_eq!(result, Ok(()));
    let (packets, asked, result) = run_broadcast(0, b"x", None);
    assert_eq!(packets.len(), 0);
    assert_eq!(asked, vec!["bind", "broadcast true", "broadcast false"]);
    assert_eq!(result, Ok(()));
}

#[test]
fn broadcast_failures() {
    let ends: Vec<Result<(), UdpNetworkerErrors>> = [0, 1, 2, 4]
        .iter()
        .map(|i| run_broadcast(1, b"x", Some(*i)).2)
        .collect();
    assert_eq!(
        ends,
        vec![
            Err(UdpNetworkerErrors::FailedToBindSocket),
            Err(UdpNetworkerErrors::FailedToSetBroadcastMode),
            Err(UdpNetworkerErrors::FailedToSendBroadcast),
            Err(UdpNetworkerErrors::FailedToSetBroadcastMode),
        ]
    );
}

/// A message that is no text is sent once, and reported.
#[test]
fn broadcast_of_invalid_utf8() {
    let (packets, _, result) = run_broadcast(3, &[0xFF, 0xFE], None);
    assert_eq!(packets.len(), 1);
    assert_eq!(result, Err(UdpNetworkerErrors::FailedToConvertU8ToString));
}

#[test]
fn broadcast_without_a_nonce() {
    let keys = make_test_key(TEST_KEY);
    match Broadcast::Enable(1).advance_with(true, &keys, b"x", None) {
        BroadcastTurn::Finish(result) => {
            assert_eq!(result, Err(UdpNetworkerErrors::FailedToEncryptTunnel));
        }
        _ => panic!("nothing can be sealed"),
    }
}

/// Timeouts and wrong-key peers are skipped, other errors are fatal.
#[test]
fn discovery_decisions() {
    assert_eq!(discovery(Ok(sender())), Discovery::Found(sender()));
    assert_eq!(
        discovery(Err(UdpNetworkerErrors::Timeout)),
        Discovery::Retry
    );
    assert_eq!(
        discovery(Err(UdpNetworkerErrors::FailedToDecryptTunnel)),
        Discovery::Retry
    );
    assert_eq!(
        discovery(Err(UdpNetworkerErrors::UnknownDevice)),
        Discovery::Abort(UdpNetworkerErrors::UnknownDevice)
    );
}

/// The server announces itself for a second and listens for three, until it hears a client.
#[test]
fn server_search() {
    assert_eq!(
        search_as_server(),
        SearchTurn::Announce(Announcing::Server, 1)
    );
    assert_eq!(
        Announcing::Server.announced(Ok(())),
        SearchTurn::Listen(Listening::Server, 3)
    );
    assert_eq!(
        Announcing::Server.announced(Err(UdpNetworkerErrors::FailedToBindSocket)),
        SearchTurn::Abort(UdpNetworkerErrors::FailedToBindSocket)
    );
    assert_eq!(
        Listening::Server.heard(Err(UdpNetworkerErrors::Timeout)),
        SearchTurn::Announce(Announcing::Server, 1)
    );
    assert_eq!(
        Listening::Server.heard(Ok(sender())),
        SearchTurn::Found(sender())
    );
}

/// The client listens for a second at a time, and announces itself for three to who it heard.
#[test]
fn client_search() {
    assert_eq!(search_as_client(), SearchTurn::Listen(Listening::Client, 1));
    assert_eq!(
        Listening::Client.heard(Err(UdpNetworkerErrors::FailedToDecryptTunnel)),
        SearchTurn::Listen(Listening::Client, 1)
    );
    assert_eq!(
        Listening::Client.heard(Err(UdpNetworkerErrors::UnknownDevice)),
        SearchTurn::Abort(UdpNetworkerErrors::UnknownDevice)
    );
    assert_eq!(
        Listening::Client.heard(Ok(sender())),
        SearchTurn::Announce(Announcing::Client(sender()), 3)
    );
    assert_eq!(
        Announcing::Client(sender()).announced(Ok(())),
        SearchTurn::Found(sender())
    );
}

#[test]
fn udp_addresses() {
    assert_eq!(BROADCAST_SOCKET, "0.0.0.0:6363");
    assert_eq!(BROADCAST_TARGET, "255.255.255.255:3636");
    assert_eq!(DISCOVERY_SOCKET, "0.0.0.0:3636");
}

#[test]
fn udp_error_messages() {
    assert_eq!(
        UdpNetworkerErrors::Timeout.to_string(),
        "Discovery timed out — no device found"
    );
    assert_eq!(
        UdpNetworkerErrors::UnknownDevice.to_string(),
        "Unknown device — name mismatch"
    );
    assert_eq!(BROADCAST_NAME, "CesaConn Broadcast");
}

/// All `UdpNetworkerErrors` variants must produce a non-empty `Display` string.
#[test]
fn test_error_display() {
    assert!(
        !UdpNetworkerErrors::FailedToBindSocket
            .to_string()
            .is_empty()
    );
    assert!(
        !UdpNetworkerErrors::FailedToSetBroadcastMode
            .to_string()
            .is_empty()
    );
    assert!(
        !UdpNetworkerErrors::FailedToSendBroadcast
            .to_string()
            .is_empty()
    );
    assert!(!UdpNetworkerErrors::Timeout.to_string().is_empty());
    assert!(
        !UdpNetworkerErrors::FailedToFetchResult
            .to_string()
            .is_empty()
    );
    assert!(!UdpNetworkerErrors::DataTooBig.to_string().is_empty());
    assert!(!UdpNetworkerErrors::UnknownDevice.to_string().is_empty());
    assert!(
        !UdpNetworkerErrors::FailedToEncryptTunnel
            .to_string()
            .is_empty()
    );
    assert!(
        !UdpNetworkerErrors::FailedToDecryptTunnel
            .to_string()
            .is_empty()
    );
    assert!(
        !UdpNetworkerErrors::FailedToConvertU8ToString
            .to_string()
            .is_empty()
    );
}
