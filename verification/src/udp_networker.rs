//! Presence broadcast and discovery over UDP.

use crate::address::PeerAddr;
use crate::auth::{decrypt_tunnel, encrypt_tunnel_with, fresh_nonce, Keys};
use crate::bytes::{same_bytes, wipe};
use vstd::prelude::*;

verus! {

/// Errors that can occur during UDP networking operations
#[derive(Debug, Clone, Copy, PartialEq, Eq, Structural)]
pub enum UdpNetworkerErrors {
    /// Failed to bind UDP socket to the given address
    FailedToBindSocket,
    /// Failed to enable or disable broadcast mode on the socket
    FailedToSetBroadcastMode,
    /// Failed to send broadcast packet to the network
    FailedToSendBroadcast,
    /// No device responded within the given duration
    Timeout,
    /// Failed to receive incoming UDP packet
    FailedToFetchResult,
    /// Received packet was larger than the buffer: may have been truncated
    DataTooBig,
    /// Received packet does not match the expected device identifier
    UnknownDevice,
    /// AES-GCM encryption failed: should not happen under normal conditions.
    FailedToEncryptTunnel,
    /// AES-GCM decryption failed: wrong key or data was tampered with in transit.
    FailedToDecryptTunnel,
    /// Failed while trying to convert u8 to String
    FailedToConvertU8ToString,
}

impl UdpNetworkerErrors {
    /// The text shown to a user.
    pub open spec fn message(self) -> Seq<char> {
        match self {
            UdpNetworkerErrors::FailedToBindSocket => "Failed to bind UDP socket"@,
            UdpNetworkerErrors::FailedToSetBroadcastMode => "Failed to set broadcast mode"@,
            UdpNetworkerErrors::FailedToSendBroadcast => "Failed to send broadcast packet"@,
            UdpNetworkerErrors::Timeout => "Discovery timed out — no device found"@,
            UdpNetworkerErrors::FailedToFetchResult => "Failed to receive UDP packet"@,
            UdpNetworkerErrors::DataTooBig => "Received packet exceeds buffer size"@,
            UdpNetworkerErrors::UnknownDevice => "Unknown device — name mismatch"@,
            UdpNetworkerErrors::FailedToEncryptTunnel => "failed to encrypt tunnel data"@,
            UdpNetworkerErrors::FailedToDecryptTunnel => "failed to decrypt tunnel data"@,
            UdpNetworkerErrors::FailedToConvertU8ToString => "failed to convert u8 to string"@,
        }
    }

    /// Renders the error for a user.
    pub fn to_string(&self) -> (text: String)
        ensures
            text@ == self.message(),
    {
        match self {
            UdpNetworkerErrors::FailedToBindSocket => "Failed to bind UDP socket".to_owned(),
            UdpNetworkerErrors::FailedToSetBroadcastMode => {
                "Failed to set broadcast mode".to_owned()
            },
            UdpNetworkerErrors::FailedToSendBroadcast => {
                "Failed to send broadcast packet".to_owned()
            },
            UdpNetworkerErrors::Timeout => "Discovery timed out — no device found".to_owned(),
            UdpNetworkerErrors::FailedToFetchResult => "Failed to receive UDP packet".to_owned(),
            UdpNetworkerErrors::DataTooBig => "Received packet exceeds buffer size".to_owned(),
            UdpNetworkerErrors::UnknownDevice => "Unknown device — name mismatch".to_owned(),
            UdpNetworkerErrors::FailedToEncryptTunnel => {
                "failed to encrypt tunnel data".to_owned()
            },
            UdpNetworkerErrors::FailedToDecryptTunnel => {
                "failed to decrypt tunnel data".to_owned()
            },
            UdpNetworkerErrors::FailedToConvertU8ToString => {
                "failed to convert u8 to string".to_owned()
            },
        }
    }
}

/// Every error has something to say.
pub proof fn law_messages_are_not_empty(e: UdpNetworkerErrors)
    ensures
        e.message().len() > 0,
{
    reveal_strlit("Failed to bind UDP socket");
    reveal_strlit("Failed to set broadcast mode");
    reveal_strlit("Failed to send broadcast packet");
    reveal_strlit("Discovery timed out — no device found");
    reveal_strlit("Failed to receive UDP packet");
    reveal_strlit("Received packet exceeds buffer size");
    reveal_strlit("Unknown device — name mismatch");
    reveal_strlit("failed to encrypt tunnel data");
    reveal_strlit("failed to decrypt tunnel data");
    reveal_strlit("failed to convert u8 to string");
}

/// Maximum allowed duration for broadcast/listening operations in seconds
pub const MAX_BROADCAST_DURATION: u64 = 20;

/// Identifier name used to recognize CesaConn devices on the network
pub const BROADCAST_NAME: &'static str = "CesaConn Broadcast";

/// The address that a broadcast is sent from.
pub const BROADCAST_SOCKET: &'static str = "0.0.0.0:6363";

/// The address that a broadcast is sent to: everyone on the local network.
pub const BROADCAST_TARGET: &'static str = "255.255.255.255:3636";

/// The address that a search listens on.
pub const DISCOVERY_SOCKET: &'static str = "0.0.0.0:3636";

/// For how many seconds a searching server announces itself at a time.
pub const SERVER_ANNOUNCE_SECONDS: u64 = 1;

/// For how many seconds a searching server listens at a time.
pub const SERVER_LISTEN_SECONDS: u64 = 3;

/// For how many seconds a searching client listens at a time.
pub const CLIENT_LISTEN_SECONDS: u64 = 1;

/// For how many seconds a client announces itself to the server that it found.
pub const CLIENT_ANNOUNCE_SECONDS: u64 = 3;

/// The size of the buffer that a discovery packet is received into.
pub const RECEIVE_BUFFER: usize = 1024;

/// A duration in seconds, cut to the allowed maximum.
pub open spec fn capped(duration: u64) -> u64 {
    if duration > MAX_BROADCAST_DURATION {
        MAX_BROADCAST_DURATION
    } else {
        duration
    }
}

/// Caps a duration to the allowed maximum, to prevent indefinite broadcasting or listening.
pub fn capped_duration(duration: u64) -> (seconds: u64)
    ensures
        seconds == capped(duration),
{
    if duration > MAX_BROADCAST_DURATION {
        MAX_BROADCAST_DURATION
    } else {
        duration
    }
}

/// Whether bytes are the UTF-8 encoding of a text.
///
/// Calls `core::str::from_utf8`; trusted to succeed exactly on valid UTF-8.
#[verifier::external_body]
fn is_utf8(bytes: &[u8]) -> (valid: bool)
    ensures
        valid == vstd::utf8::valid_utf8(bytes@),
{
    core::str::from_utf8(bytes).is_ok()
}

/// Where a broadcast stands: what its socket is being asked to do, and how many packets are still
/// to go out, the current one included.
#[derive(Clone, Copy)]
pub enum Broadcast {
    /// The socket is being bound.
    Bind(u64),
    /// Broadcast mode is being enabled.
    Enable(u64),
    /// A packet is going out.
    Send(u64),
    /// A second is passing.
    Pause(u64),
    /// Broadcast mode is being disabled.
    Disable,
}

/// What a broadcast wants next.
pub enum BroadcastTurn {
    /// Bind the socket, then go on.
    Bind(Broadcast),
    /// Switch broadcast mode on or off, then go on.
    SetBroadcast(Broadcast, bool),
    /// Send this packet to the whole local network, then go on.
    Send(Broadcast, Vec<u8>),
    /// Wait a second, then go on.
    Pause(Broadcast),
    /// The broadcast is over.
    Finish(Result<(), UdpNetworkerErrors>),
}

/// A [`BroadcastTurn`] with its packet as a mathematical sequence.
pub enum BroadcastTurnView {
    Bind(Broadcast),
    SetBroadcast(Broadcast, bool),
    Send(Broadcast, Seq<u8>),
    Pause(Broadcast),
    Finish(Result<(), UdpNetworkerErrors>),
}

impl View for BroadcastTurn {
    type V = BroadcastTurnView;

    open spec fn view(&self) -> BroadcastTurnView {
        match self {
            BroadcastTurn::Bind(then) => BroadcastTurnView::Bind(*then),
            BroadcastTurn::SetBroadcast(then, on) => BroadcastTurnView::SetBroadcast(*then, *on),
            BroadcastTurn::Send(then, packet) => BroadcastTurnView::Send(*then, packet@),
            BroadcastTurn::Pause(then) => BroadcastTurnView::Pause(*then),
            BroadcastTurn::Finish(r) => BroadcastTurnView::Finish(*r),
        }
    }
}

/// The packet of the current second, or the end of the broadcast where none is left to send.
pub open spec fn broadcast_packet(
    left: u64,
    a_key: Seq<u8>,
    message: Seq<u8>,
    nonce: Option<Seq<u8>>,
) -> BroadcastTurnView {
    if left == 0 {
        BroadcastTurnView::SetBroadcast(Broadcast::Disable, false)
    } else if nonce is None || message.len() > crate::aes::MAX_PLAINTEXT {
        BroadcastTurnView::Finish(Err(UdpNetworkerErrors::FailedToEncryptTunnel))
    } else {
        BroadcastTurnView::Send(
            Broadcast::Send(left),
            crate::auth::tunnel_seal(a_key, nonce->0, message),
        )
    }
}

/// A broadcast, one operation at a time: `succeeded` says whether the last one did.
pub open spec fn broadcast_next(
    state: Broadcast,
    succeeded: bool,
    a_key: Seq<u8>,
    message: Seq<u8>,
    nonce: Option<Seq<u8>>,
) -> BroadcastTurnView {
    match state {
        Broadcast::Bind(left) => if succeeded {
            BroadcastTurnView::SetBroadcast(Broadcast::Enable(left), true)
        } else {
            BroadcastTurnView::Finish(Err(UdpNetworkerErrors::FailedToBindSocket))
        },
        Broadcast::Enable(left) => if succeeded {
            broadcast_packet(left, a_key, message, nonce)
        } else {
            BroadcastTurnView::Finish(Err(UdpNetworkerErrors::FailedToSetBroadcastMode))
        },
        Broadcast::Send(left) => if !succeeded {
            BroadcastTurnView::Finish(Err(UdpNetworkerErrors::FailedToSendBroadcast))
        } else if !vstd::utf8::valid_utf8(message) {
            BroadcastTurnView::Finish(Err(UdpNetworkerErrors::FailedToConvertU8ToString))
        } else {
            BroadcastTurnView::Pause(Broadcast::Pause(left))
        },
        Broadcast::Pause(left) => broadcast_packet(
            if left == 0 {
                0
            } else {
                (left - 1) as u64
            },
            a_key,
            message,
            nonce,
        ),
        Broadcast::Disable => if succeeded {
            BroadcastTurnView::Finish(Ok(()))
        } else {
            BroadcastTurnView::Finish(Err(UdpNetworkerErrors::FailedToSetBroadcastMode))
        },
    }
}

/// The packet opens to the message under the authentication key, and whoever listens with the same
/// key and message recognizes the sender by it, unless it fills the receiver's buffer.
pub open spec fn broadcast_promise(
    a_key: Seq<u8>,
    message: Seq<u8>,
    turn: BroadcastTurnView,
) -> bool {
    match turn {
        BroadcastTurnView::Send(_, packet) => packet.len() == message.len() + 28
            && crate::auth::tunnel_open(a_key, packet) == Some(message) && forall|
            sender: PeerAddr,
        |
            packet.len() != RECEIVE_BUFFER ==> #[trigger] found(
                FindView::Packet(packet, sender),
                a_key,
                message,
            ) == Ok::<PeerAddr, UdpNetworkerErrors>(sender),
        _ => true,
    }
}

/// Where the nonce of a packet comes from: it is one that the OS supplied, and is absent only where
/// the OS refused it.
pub open spec fn broadcast_draws(state: Broadcast, nonce: Option<Seq<u8>>) -> bool {
    match state {
        Broadcast::Enable(_) => crate::crand::os_answered::<12>(nonce),
        Broadcast::Pause(_) => crate::crand::os_answered::<12>(nonce),
        _ => true,
    }
}

/// Seals the packet of the current second, or ends the broadcast where none is left to send.
fn next_packet(left: u64, keys: &Keys, message: &[u8], nonce: Option<[u8; 12]>) -> (turn:
    BroadcastTurn)
    ensures
        turn@ == broadcast_packet(
            left,
            keys.a_key@,
            message@,
            crate::auth::nonce_view(nonce),
        ),
        match turn@ {
            BroadcastTurnView::Send(_, packet) => packet.len() == message@.len() + 28
                && crate::auth::tunnel_open(keys.a_key@, packet) == Some(message@),
            _ => true,
        },
{
    if left == 0 {
        return BroadcastTurn::SetBroadcast(Broadcast::Disable, false);
    }
    match encrypt_tunnel_with(&keys.a_key.bytes, message, nonce) {
        Ok(packet) => BroadcastTurn::Send(Broadcast::Send(left), packet),
        Err(_) => BroadcastTurn::Finish(Err(UdpNetworkerErrors::FailedToEncryptTunnel)),
    }
}

impl Broadcast {
    /// Starts to broadcast a UDP presence message every second for the given duration.
    /// Duration is capped at MAX_BROADCAST_DURATION to prevent indefinite broadcasting.
    pub fn begin(duration: u64) -> (turn: BroadcastTurn)
        ensures
            turn@ == BroadcastTurnView::Bind(Broadcast::Bind(capped(duration))),
    {
        BroadcastTurn::Bind(Broadcast::Bind(capped_duration(duration)))
    }

    /// Goes on, with the nonce that the next packet may need.
    pub fn advance_with(
        self,
        succeeded: bool,
        keys: &Keys,
        message: &[u8],
        nonce: Option<[u8; 12]>,
    ) -> (turn: BroadcastTurn)
        ensures
            turn@ == broadcast_next(
                self,
                succeeded,
                keys.a_key@,
                message@,
                crate::auth::nonce_view(nonce),
            ),
            broadcast_promise(keys.a_key@, message@, turn@),
    {
        match self {
            Broadcast::Bind(left) => if succeeded {
                BroadcastTurn::SetBroadcast(Broadcast::Enable(left), true)
            } else {
                BroadcastTurn::Finish(Err(UdpNetworkerErrors::FailedToBindSocket))
            },
            Broadcast::Enable(left) => if succeeded {
                next_packet(left, keys, message, nonce)
            } else {
                BroadcastTurn::Finish(Err(UdpNetworkerErrors::FailedToSetBroadcastMode))
            },
            Broadcast::Send(left) => if !succeeded {
                BroadcastTurn::Finish(Err(UdpNetworkerErrors::FailedToSendBroadcast))
            } else if !is_utf8(message) {
                BroadcastTurn::Finish(Err(UdpNetworkerErrors::FailedToConvertU8ToString))
            } else {
                BroadcastTurn::Pause(Broadcast::Pause(left))
            },
            Broadcast::Pause(left) => {
                let left: u64 = if left == 0 {
                    0
                } else {
                    left - 1
                };
                next_packet(left, keys, message, nonce)
            },
            Broadcast::Disable => if succeeded {
                BroadcastTurn::Finish(Ok(()))
            } else {
                BroadcastTurn::Finish(Err(UdpNetworkerErrors::FailedToSetBroadcastMode))
            },
        }
    }

    /// Goes on, drawing from the OS the nonce that the next packet needs.
    pub fn advance(self, succeeded: bool, keys: &Keys, message: &[u8]) -> (turn: BroadcastTurn)
        ensures
            exists|nonce: Option<[u8; 12]>|
                turn@ == #[trigger] broadcast_next(
                    self,
                    succeeded,
                    keys.a_key@,
                    message@,
                    crate::auth::nonce_view(nonce),
                ) && broadcast_draws(self, crate::auth::nonce_view(nonce)),
            broadcast_promise(keys.a_key@, message@, turn@),
    {
        let nonce: Option<[u8; 12]> = match self {
            Broadcast::Enable(_) => fresh_nonce(),
            Broadcast::Pause(_) => fresh_nonce(),
            _ => None,
        };
        self.advance_with(succeeded, keys, message, nonce)
    }
}

/// How many operations a broadcast has before it, at most.
pub open spec fn operations_left(state: Broadcast) -> int {
    match state {
        Broadcast::Bind(left) => 4 + 2 * left,
        Broadcast::Enable(left) => 3 + 2 * left,
        Broadcast::Send(left) => 2 + 2 * left,
        Broadcast::Pause(left) => 1 + 2 * left,
        Broadcast::Disable => 0,
    }
}

/// The packets that a broadcast sends from a state on where every operation succeeds, each sealed
/// under the nonce that `nonces` gives for the operations that were left, and the result it ends
/// with.
pub open spec fn broadcast_run(
    state: Broadcast,
    a_key: Seq<u8>,
    message: Seq<u8>,
    nonces: spec_fn(int) -> Seq<u8>,
) -> (Seq<Seq<u8>>, Result<(), UdpNetworkerErrors>)
    decreases operations_left(state),
{
    match broadcast_next(state, true, a_key, message, Some(nonces(operations_left(state)))) {
        BroadcastTurnView::Bind(then) => (Seq::empty(), Ok(())),
        BroadcastTurnView::SetBroadcast(then, _) => broadcast_run(then, a_key, message, nonces),
        BroadcastTurnView::Send(then, packet) => {
            let rest = broadcast_run(then, a_key, message, nonces);
            (seq![packet] + rest.0, rest.1)
        },
        BroadcastTurnView::Pause(then) => broadcast_run(then, a_key, message, nonces),
        BroadcastTurnView::Finish(r) => (Seq::empty(), r),
    }
}

/// From the moment that `left` packets are to go out, that many do.
proof fn lemma_broadcast_run(
    state: Broadcast,
    left: u64,
    a_key: Seq<u8>,
    message: Seq<u8>,
    nonces: spec_fn(int) -> Seq<u8>,
)
    requires
        state == Broadcast::Enable(left) || (left < u64::MAX && state == Broadcast::Pause(
            (left + 1) as u64,
        )),
        message.len() <= crate::aes::MAX_PLAINTEXT,
        vstd::utf8::valid_utf8(message),
    ensures
        broadcast_run(state, a_key, message, nonces).0.len() == left,
        broadcast_run(state, a_key, message, nonces).1 == Ok::<(), UdpNetworkerErrors>(()),
        forall|i: int|
            0 <= i < left ==> exists|nonce: Seq<u8>|
                #[trigger] broadcast_run(state, a_key, message, nonces).0[i]
                    == #[trigger] crate::auth::tunnel_seal(a_key, nonce, message),
    decreases left,
{
    reveal_with_fuel(broadcast_run, 3);
    if left > 0 {
        lemma_broadcast_run(Broadcast::Pause(left), (left - 1) as u64, a_key, message, nonces);
        let rest = broadcast_run(Broadcast::Pause(left), a_key, message, nonces);
        let packet = crate::auth::tunnel_seal(a_key, nonces(operations_left(state)), message);
        let all = broadcast_run(state, a_key, message, nonces);
        assert(all.0 =~= seq![packet] + rest.0);
        assert forall|i: int| 0 <= i < left implies exists|nonce: Seq<u8>|
            #[trigger] all.0[i] == #[trigger] crate::auth::tunnel_seal(a_key, nonce, message) by {
            if i > 0 {
                assert(all.0[i] == rest.0[i - 1]);
            }
        }
    }
}

/// A broadcast in which every operation succeeds sends one packet for each second of its duration,
/// at most the allowed maximum of them, each of them the sealed message, and ends well.
pub proof fn law_broadcast_sends_one_packet_per_second(
    duration: u64,
    a_key: Seq<u8>,
    message: Seq<u8>,
    nonces: spec_fn(int) -> Seq<u8>,
)
    requires
        message.len() <= crate::aes::MAX_PLAINTEXT,
        vstd::utf8::valid_utf8(message),
    ensures
        ({
            let run = broadcast_run(Broadcast::Bind(capped(duration)), a_key, message, nonces);
            &&& run.0.len() == capped(duration)
            &&& run.0.len() <= MAX_BROADCAST_DURATION
            &&& run.1 == Ok::<(), UdpNetworkerErrors>(())
            &&& forall|i: int|
                0 <= i < run.0.len() ==> exists|nonce: Seq<u8>|
                    #[trigger] run.0[i] == #[trigger] crate::auth::tunnel_seal(
                        a_key,
                        nonce,
                        message,
                    )
        }),
{
    lemma_broadcast_run(
        Broadcast::Enable(capped(duration)),
        capped(duration),
        a_key,
        message,
        nonces,
    );
}

/// What came of waiting for a broadcast.
pub enum FindEvent {
    /// The socket could not be bound.
    BindFailed,
    /// Nothing came in time.
    TimedOut,
    /// Receiving failed.
    ReceiveFailed,
    /// Receiving failed because the packet did not fit the buffer.
    Oversized,
    /// This packet came from this sender.
    Packet(Vec<u8>, PeerAddr),
}

/// A [`FindEvent`] with its packet as a mathematical sequence.
pub enum FindView {
    BindFailed,
    TimedOut,
    ReceiveFailed,
    Oversized,
    Packet(Seq<u8>, PeerAddr),
}

impl View for FindEvent {
    type V = FindView;

    open spec fn view(&self) -> FindView {
        match self {
            FindEvent::BindFailed => FindView::BindFailed,
            FindEvent::TimedOut => FindView::TimedOut,
            FindEvent::ReceiveFailed => FindView::ReceiveFailed,
            FindEvent::Oversized => FindView::Oversized,
            FindEvent::Packet(packet, sender) => FindView::Packet(packet@, *sender),
        }
    }
}

/// The device that a discovery finds: the sender of a packet that opens, under the authentication
/// key, to the expected message. A packet that fills the buffer may have been cut off.
pub open spec fn found(event: FindView, a_key: Seq<u8>, message: Seq<u8>) -> Result<
    PeerAddr,
    UdpNetworkerErrors,
> {
    match event {
        FindView::BindFailed => Err(UdpNetworkerErrors::FailedToBindSocket),
        FindView::TimedOut => Err(UdpNetworkerErrors::Timeout),
        FindView::ReceiveFailed => Err(UdpNetworkerErrors::FailedToFetchResult),
        FindView::Oversized => Err(UdpNetworkerErrors::DataTooBig),
        FindView::Packet(packet, sender) => if packet.len() == RECEIVE_BUFFER {
            Err(UdpNetworkerErrors::DataTooBig)
        } else {
            match crate::auth::tunnel_open(a_key, packet) {
                None => Err(UdpNetworkerErrors::FailedToDecryptTunnel),
                Some(name) => if name == message {
                    Ok(sender)
                } else {
                    Err(UdpNetworkerErrors::UnknownDevice)
                },
            }
        },
    }
}

/// Decides whether what came is a valid CesaConn device.
/// Returns its address if so.
/// Returns Err if timeout, socket error, oversized packet, or name mismatch.
pub fn udp_find_broadcaster(event: FindEvent, message: &[u8], keys: &Keys) -> (r: Result<
    PeerAddr,
    UdpNetworkerErrors,
>)
    requires
        match event@ {
            FindView::Packet(packet, _) => packet.len() >= 12,
            _ => true,
        },
    ensures
        r == found(event@, keys.a_key@, message@),
{
    match event {
        FindEvent::BindFailed => Err(UdpNetworkerErrors::FailedToBindSocket),
        FindEvent::TimedOut => Err(UdpNetworkerErrors::Timeout),
        FindEvent::ReceiveFailed => Err(UdpNetworkerErrors::FailedToFetchResult),
        FindEvent::Oversized => Err(UdpNetworkerErrors::DataTooBig),
        FindEvent::Packet(packet, sender) => {
            let mut packet = packet;
            if packet.len() == RECEIVE_BUFFER {
                wipe(&mut packet);
                return Err(UdpNetworkerErrors::DataTooBig);
            }
            let opened = decrypt_tunnel(&keys.a_key.bytes, &packet);
            wipe(&mut packet);
            match opened {
                Err(_) => Err(UdpNetworkerErrors::FailedToDecryptTunnel),
                Ok(name) => if same_bytes(&name, message) {
                    Ok(sender)
                } else {
                    Err(UdpNetworkerErrors::UnknownDevice)
                },
            }
        },
    }
}

/// What a search for peers does after one attempt.
#[derive(Debug, Clone, Copy, PartialEq, Eq)]
pub enum Discovery {
    /// A peer was found.
    Found(PeerAddr),
    /// Nobody answered, or somebody with another key did: try again.
    Retry,
    /// The search cannot go on.
    Abort(UdpNetworkerErrors),
}

/// Whether to go on searching: timeouts and wrong-key peers are skipped, other errors are fatal.
pub fn discovery(attempt: Result<PeerAddr, UdpNetworkerErrors>) -> (next: Discovery)
    ensures
        next == (match attempt {
            Ok(addr) => Discovery::Found(addr),
            Err(UdpNetworkerErrors::Timeout) => Discovery::Retry,
            Err(UdpNetworkerErrors::FailedToDecryptTunnel) => Discovery::Retry,
            Err(e) => Discovery::Abort(e),
        }),
{
    match attempt {
        Ok(addr) => Discovery::Found(addr),
        Err(UdpNetworkerErrors::Timeout) => Discovery::Retry,
        Err(UdpNetworkerErrors::FailedToDecryptTunnel) => Discovery::Retry,
        Err(e) => Discovery::Abort(e),
    }
}

/// Who announces itself in a search.
#[derive(Debug, Clone, Copy, PartialEq, Eq)]
pub enum Announcing {
    /// The server, before it listens.
    Server,
    /// The client, to the server that it found.
    Client(PeerAddr),
}

/// Who listens in a search.
#[derive(Debug, Clone, Copy, PartialEq, Eq)]
pub enum Listening {
    Server,
    Client,
}

/// What a search for a peer wants next.
#[derive(Debug, Clone, Copy, PartialEq, Eq)]
pub enum SearchTurn {
    /// Broadcast our presence for this many seconds, then go on.
    Announce(Announcing, u64),
    /// Listen for a broadcast for this many seconds, then go on.
    Listen(Listening, u64),
    /// The search is over: this peer was found.
    Found(PeerAddr),
    /// The search cannot go on.
    Abort(UdpNetworkerErrors),
}

/// Starts the server's search: it announces itself and listens in turn, so that both sides find each
/// other regardless of who starts first.
pub fn search_as_server() -> (turn: SearchTurn)
    ensures
        turn == SearchTurn::Announce(Announcing::Server, SERVER_ANNOUNCE_SECONDS),
{
    SearchTurn::Announce(Announcing::Server, SERVER_ANNOUNCE_SECONDS)
}

/// Starts the client's search: it listens for a server first.
pub fn search_as_client() -> (turn: SearchTurn)
    ensures
        turn == SearchTurn::Listen(Listening::Client, CLIENT_LISTEN_SECONDS),
{
    SearchTurn::Listen(Listening::Client, CLIENT_LISTEN_SECONDS)
}

impl Announcing {
    /// Goes on after a broadcast: the server listens, the client is done, since the server it found
    /// now knows it. A broadcast that fails ends the search.
    pub fn announced(self, result: Result<(), UdpNetworkerErrors>) -> (turn: SearchTurn)
        ensures
            turn == (match (result, self) {
                (Err(e), _) => SearchTurn::Abort(e),
                (Ok(_), Announcing::Server) => SearchTurn::Listen(
                    Listening::Server,
                    SERVER_LISTEN_SECONDS,
                ),
                (Ok(_), Announcing::Client(found)) => SearchTurn::Found(found),
            }),
    {
        match result {
            Err(e) => SearchTurn::Abort(e),
            Ok(()) => match self {
                Announcing::Server => SearchTurn::Listen(Listening::Server, SERVER_LISTEN_SECONDS),
                Announcing::Client(found) => SearchTurn::Found(found),
            },
        }
    }
}

impl Listening {
    /// Goes on after an attempt to hear a peer: a server that heard one is done, a client announces
    /// itself to it first. An attempt that may be repeated is.
    pub fn heard(self, attempt: Result<PeerAddr, UdpNetworkerErrors>) -> (turn: SearchTurn)
        ensures
            turn == (match (attempt, self) {
                (Ok(addr), Listening::Server) => SearchTurn::Found(addr),
                (Ok(addr), Listening::Client) => SearchTurn::Announce(
                    Announcing::Client(addr),
                    CLIENT_ANNOUNCE_SECONDS,
                ),
                (Err(e), _) => if e == UdpNetworkerErrors::Timeout || e
                    == UdpNetworkerErrors::FailedToDecryptTunnel {
                    match self {
                        Listening::Server => SearchTurn::Announce(
                            Announcing::Server,
                            SERVER_ANNOUNCE_SECONDS,
                        ),
                        Listening::Client => SearchTurn::Listen(
                            Listening::Client,
                            CLIENT_LISTEN_SECONDS,
                        ),
                    }
                } else {
                    SearchTurn::Abort(e)
                },
            }),
    {
        match discovery(attempt) {
            Discovery::Found(addr) => match self {
                Listening::Server => SearchTurn::Found(addr),
                Listening::Client => SearchTurn::Announce(
                    Announcing::Client(addr),
                    CLIENT_ANNOUNCE_SECONDS,
                ),
            },
            Discovery::Retry => match self {
                Listening::Server => search_as_server(),
                Listening::Client => search_as_client(),
            },
            Discovery::Abort(e) => SearchTurn::Abort(e),
        }
    }
}

/// A duration up to twenty seconds is kept, and a longer one is cut to twenty.
pub proof fn law_durations_are_capped(duration: u64)
    ensures
        duration <= 20 ==> capped(duration) == duration,
        duration > 20 ==> capped(duration) == 20,
{
}

/// A broadcast fails for want of randomness only where the OS refused it.
pub proof fn law_broadcast_fails_for_want_of_randomness_only_where_the_os_refused(
    state: Broadcast,
    succeeded: bool,
    keys: &Keys,
    message: &[u8],
    turn: BroadcastTurn,
)
    requires
        call_ensures(Broadcast::advance, (state, succeeded, keys, message), turn),
    ensures
        turn@ == BroadcastTurnView::Finish(Err(UdpNetworkerErrors::FailedToEncryptTunnel))
            ==> crate::crand::os_refused::<12>() || message@.len() > crate::aes::MAX_PLAINTEXT,
{
}

/// Where every operation succeeds and the OS supplies what it is asked for, a broadcast binds its
/// socket, enables broadcasting, sends a packet and pauses for every packet that is left, disables
/// broadcasting again and ends well. Each packet opens to the message under the authentication key,
/// and stands under a nonce that the OS supplied.
pub proof fn law_broadcast_goes_on(
    state: Broadcast,
    keys: &Keys,
    message: &[u8],
    turn: BroadcastTurn,
)
    requires
        call_ensures(Broadcast::advance, (state, true, keys, message), turn),
        !crate::crand::os_refused::<12>(),
        message@.len() <= crate::aes::MAX_PLAINTEXT,
        vstd::utf8::valid_utf8(message@),
    ensures
        ({
            let left: int = match state {
                Broadcast::Enable(left) => left as int,
                Broadcast::Pause(left) => left - 1,
                _ => 0,
            };
            match state {
                Broadcast::Bind(left) => turn@ == BroadcastTurnView::SetBroadcast(
                    Broadcast::Enable(left),
                    true,
                ),
                Broadcast::Send(left) => turn@ == BroadcastTurnView::Pause(Broadcast::Pause(left)),
                Broadcast::Disable => turn@ == BroadcastTurnView::Finish(Ok(())),
                _ => if left <= 0 {
                    turn@ == BroadcastTurnView::SetBroadcast(Broadcast::Disable, false)
                } else {
                    match turn@ {
                        BroadcastTurnView::Send(then, packet) => {
                            &&& then == Broadcast::Send(left as u64)
                            &&& crate::auth::tunnel_open(keys.a_key@, packet) == Some(message@)
                            &&& packet.len() == message@.len() + 28
                            &&& crate::crand::os_supplied::<12>(packet.subrange(0, 12))
                        },
                        _ => false,
                    }
                },
            }
        }),
{
    let nonce = choose|nonce: Option<[u8; 12]>|
        turn@ == #[trigger] broadcast_next(
            state,
            true,
            keys.a_key@,
            message@,
            crate::auth::nonce_view(nonce),
        ) && broadcast_draws(state, crate::auth::nonce_view(nonce));
    if let BroadcastTurnView::Send(_, packet) = turn@ {
        assert(packet.subrange(0, 12) =~= nonce->0@);
    }
}

/// An operation that fails ends the broadcast with its own error, and so does a message that is no
/// text, once its first packet went out. A pause cannot fail.
pub proof fn law_broadcast_reports_what_went_wrong(
    state: Broadcast,
    succeeded: bool,
    keys: &Keys,
    message: &[u8],
    turn: BroadcastTurn,
)
    requires
        call_ensures(Broadcast::advance, (state, succeeded, keys, message), turn),
    ensures
        !succeeded ==> match state {
            Broadcast::Bind(_) => turn@ == BroadcastTurnView::Finish(
                Err(UdpNetworkerErrors::FailedToBindSocket),
            ),
            Broadcast::Enable(_) => turn@ == BroadcastTurnView::Finish(
                Err(UdpNetworkerErrors::FailedToSetBroadcastMode),
            ),
            Broadcast::Send(_) => turn@ == BroadcastTurnView::Finish(
                Err(UdpNetworkerErrors::FailedToSendBroadcast),
            ),
            Broadcast::Disable => turn@ == BroadcastTurnView::Finish(
                Err(UdpNetworkerErrors::FailedToSetBroadcastMode),
            ),
            Broadcast::Pause(_) => true,
        },
        succeeded && state is Send && !vstd::utf8::valid_utf8(message@) ==> turn@
            == BroadcastTurnView::Finish(Err(UdpNetworkerErrors::FailedToConvertU8ToString)),
{
}

/// A search finds the sender of a packet exactly where the packet opens to the expected message
/// under the authentication key and cannot have been cut off. What else came is told apart: a packet
/// that may have been cut off, one that does not open, and one of another device.
pub proof fn law_search_finds_the_sender(
    event: FindEvent,
    message: &[u8],
    keys: &Keys,
    r: Result<PeerAddr, UdpNetworkerErrors>,
)
    requires
        call_ensures(udp_find_broadcaster, (event, message, keys), r),
    ensures
        match event@ {
            FindView::Packet(packet, sender) => {
                &&& r == Ok::<PeerAddr, UdpNetworkerErrors>(sender) <==> packet.len() != 1024
                    && crate::auth::tunnel_open(keys.a_key@, packet) == Some(message@)
                &&& r is Ok ==> r->Ok_0 == sender
                &&& packet.len() == 1024 ==> r == Err::<PeerAddr, UdpNetworkerErrors>(
                    UdpNetworkerErrors::DataTooBig,
                )
                &&& packet.len() != 1024 && crate::auth::tunnel_open(keys.a_key@, packet) is None
                    ==> r == Err::<PeerAddr, UdpNetworkerErrors>(
                    UdpNetworkerErrors::FailedToDecryptTunnel,
                )
                &&& packet.len() != 1024 && crate::auth::tunnel_open(keys.a_key@, packet) is Some
                    && crate::auth::tunnel_open(keys.a_key@, packet) != Some(message@) ==> r
                    == Err::<PeerAddr, UdpNetworkerErrors>(UdpNetworkerErrors::UnknownDevice)
            },
            FindView::BindFailed => r == Err::<PeerAddr, UdpNetworkerErrors>(
                UdpNetworkerErrors::FailedToBindSocket,
            ),
            FindView::TimedOut => r == Err::<PeerAddr, UdpNetworkerErrors>(
                UdpNetworkerErrors::Timeout,
            ),
            FindView::ReceiveFailed => r == Err::<PeerAddr, UdpNetworkerErrors>(
                UdpNetworkerErrors::FailedToFetchResult,
            ),
            FindView::Oversized => r == Err::<PeerAddr, UdpNetworkerErrors>(
                UdpNetworkerErrors::DataTooBig,
            ),
        },
{
}

/// Whoever is heard is found: a server is done when it hears a peer, a client when it has announced
/// itself to the peer that it heard.
pub proof fn law_search_ends_with_the_peer_heard(
    heard: PeerAddr,
    server: SearchTurn,
    client: SearchTurn,
    announced: SearchTurn,
)
    requires
        call_ensures(Listening::heard, (Listening::Server, Ok(heard)), server),
        call_ensures(Listening::heard, (Listening::Client, Ok(heard)), client),
        call_ensures(Announcing::announced, (Announcing::Client(heard), Ok(())), announced),
    ensures
        server == SearchTurn::Found(heard),
        client is Announce && client->Announce_0 == Announcing::Client(heard),
        announced == SearchTurn::Found(heard),
{
}

/// A search goes on while nobody answers, or only somebody with another key: a server announces
/// itself again before it listens again, a client listens again. Anything else ends the search with
/// the error that came.
pub proof fn law_search_goes_on_until_it_fails(
    listening: Listening,
    e: UdpNetworkerErrors,
    turn: SearchTurn,
    announced: SearchTurn,
)
    requires
        call_ensures(Listening::heard, (listening, Err(e)), turn),
        call_ensures(Announcing::announced, (Announcing::Server, Ok(())), announced),
    ensures
        e == UdpNetworkerErrors::Timeout || e == UdpNetworkerErrors::FailedToDecryptTunnel
            ==> match listening {
            Listening::Server => turn is Announce && turn->Announce_0 == Announcing::Server,
            Listening::Client => turn is Listen && turn->Listen_0 == Listening::Client,
        },
        e != UdpNetworkerErrors::Timeout && e != UdpNetworkerErrors::FailedToDecryptTunnel ==> turn
            == SearchTurn::Abort(e),
        announced is Listen && announced->Listen_0 == Listening::Server,
{
}

} // verus!
