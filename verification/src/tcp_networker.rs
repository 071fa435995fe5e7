//! One packet over an authenticated TCP connection, on both of its ends.
//!
//! After authentication the sender writes an encrypted header, which names the action and the size
//! of the packet that follows, and then the packet: the data under the data key, and that under the
//! session key.

use crate::address::PeerAddr;
use crate::auth::{
    decrypt_tunnel, encrypt_tunnel_with, fresh_nonce, Incoming, IncomingView, Keys, Outgoing,
    OutgoingView, Verdict, VerdictView,
};
use crate::bytes::{array_at, joined};
use crate::crand::CRandErrors;
use crate::exchange::{Event, EventView, Turn, TurnView};
use crate::le::{u64_from_le, u64_to_le};
use vstd::prelude::*;

verus! {

/// Identifies what kind of action/data is being sent in a packet.
/// Encoded as a single byte at position 0 of the header; the variants stand in the order of their
/// bytes, which is part of the protocol.
#[derive(Debug, Clone, Copy, PartialEq, Eq, Structural)]
pub enum ActionType {
    /// Default/unspecified action: fallback for unknown or generic packets.
    Default,
    /// Debug action: used for testing and diagnostics only, not for production data.
    Debug,
    /// Adds the connecting peer to the trusted address list.
    /// No data payload is sent for this action: the connection closes after auth succeeds.
    ConnectNewDevice,
    /// Synchronizes clipboard content between devices.
    ClipboardSync,
}

impl ActionType {
    /// The byte of an action.
    pub open spec fn byte(self) -> u8 {
        match self {
            ActionType::Default => 0x00,
            ActionType::Debug => 0x01,
            ActionType::ConnectNewDevice => 0x02,
            ActionType::ClipboardSync => 0x03,
        }
    }

    /// The action of a byte, where there is one.
    pub open spec fn of_byte(v: u8) -> Option<ActionType> {
        if v == 0x00 {
            Some(ActionType::Default)
        } else if v == 0x01 {
            Some(ActionType::Debug)
        } else if v == 0x02 {
            Some(ActionType::ConnectNewDevice)
        } else if v == 0x03 {
            Some(ActionType::ClipboardSync)
        } else {
            None
        }
    }

    /// The action of a byte; of a byte that no action has, the default one.
    pub open spec fn of_byte_or_default(v: u8) -> ActionType {
        match ActionType::of_byte(v) {
            Some(action) => action,
            None => ActionType::Default,
        }
    }

    /// Converts a raw u8 wire byte into an ActionType variant.
    ///
    /// Returns None for unknown values: the caller decides whether to fall back to Default or
    /// reject the packet entirely.
    pub fn from_u8(v: u8) -> (action: Option<Self>)
        ensures
            action == ActionType::of_byte(v),
    {
        match v {
            0x00 => Some(Self::Default),
            0x01 => Some(Self::Debug),
            0x02 => Some(Self::ConnectNewDevice),
            0x03 => Some(Self::ClipboardSync),
            _ => None,
        }
    }

    /// The wire byte of the action.
    pub fn to_u8(self) -> (byte: u8)
        ensures
            byte == self.byte(),
    {
        match self {
            ActionType::Default => 0x00,
            ActionType::Debug => 0x01,
            ActionType::ConnectNewDevice => 0x02,
            ActionType::ClipboardSync => 0x03,
        }
    }

    /// The action of a wire byte. Unknown values default to Default instead of rejecting: this
    /// keeps the protocol forward-compatible with variants added later.
    pub fn from_u8_or_default(v: u8) -> (action: Self)
        ensures
            action == ActionType::of_byte_or_default(v),
    {
        match ActionType::from_u8(v) {
            Some(action) => action,
            None => ActionType::Default,
        }
    }
}

/// Every action is the action of its byte, and of no other byte.
pub proof fn law_action_round_trip(action: ActionType, v: u8)
    ensures
        ActionType::of_byte(action.byte()) == Some(action),
        ActionType::of_byte(v) == Some(action) ==> v == action.byte(),
        ActionType::of_byte(v) is None <==> v > 3,
{
}

/// All errors that can occur in the TCP networker layer.
/// Each variant maps to a specific failure point in the connection lifecycle.
#[derive(Debug, Clone, Copy, PartialEq, Eq, Structural)]
pub enum TcpNetworkerErrors {
    /// `listener.accept()` failed: OS-level socket error, usually non-recoverable.
    FailedToAcceptConnection,
    /// Stream closed or errored before all expected bytes arrived: peer disconnected early.
    FailedToReadFromStream,
    /// ECDH + pre-shared key handshake failed: wrong key, untrusted peer, or I/O error.
    FailedToAuthenticate,
    /// AES-GCM decryption failed: wrong key or data was tampered with in transit.
    FailedToDecryptTunnel,
    /// Could not read local address from the listener: needed for logging.
    FailedToGetLocalAddr,
    /// The connection request failed: target unreachable, refused, or timed out.
    FailedToConnect,
    /// AES-GCM encryption failed: should not happen under normal conditions.
    FailedToEncryptTunnel,
    /// Writing to the TCP stream failed: peer disconnected or network error.
    FailedToWriteToStream,
    /// The task that decrypts a packet could not run to its end.
    FailedToSpawnNewBlockingTask,
}

impl TcpNetworkerErrors {
    /// The text shown to a user.
    pub open spec fn message(self) -> Seq<char> {
        match self {
            TcpNetworkerErrors::FailedToAcceptConnection => "failed to accept connection"@,
            TcpNetworkerErrors::FailedToReadFromStream => "failed to read from stream"@,
            TcpNetworkerErrors::FailedToAuthenticate => "authentication failed"@,
            TcpNetworkerErrors::FailedToDecryptTunnel => "failed to decrypt tunnel data"@,
            TcpNetworkerErrors::FailedToGetLocalAddr => "failed to get local address"@,
            TcpNetworkerErrors::FailedToConnect => "failed to make a connection request"@,
            TcpNetworkerErrors::FailedToEncryptTunnel => "failed to encrypt tunnel data"@,
            TcpNetworkerErrors::FailedToWriteToStream => "failed to write to stream"@,
            TcpNetworkerErrors::FailedToSpawnNewBlockingTask => {
                "failed to spawn new blocking task"@
            },
        }
    }

    /// Renders the error for a user.
    pub fn to_string(&self) -> (text: String)
        ensures
            text@ == self.message(),
    {
        match self {
            TcpNetworkerErrors::FailedToAcceptConnection => {
                "failed to accept connection".to_owned()
            },
            TcpNetworkerErrors::FailedToReadFromStream => "failed to read from stream".to_owned(),
            TcpNetworkerErrors::FailedToAuthenticate => "authentication failed".to_owned(),
            TcpNetworkerErrors::FailedToDecryptTunnel => {
                "failed to decrypt tunnel data".to_owned()
            },
            TcpNetworkerErrors::FailedToGetLocalAddr => "failed to get local address".to_owned(),
            TcpNetworkerErrors::FailedToConnect => {
                "failed to make a connection request".to_owned()
            },
            TcpNetworkerErrors::FailedToEncryptTunnel => {
                "failed to encrypt tunnel data".to_owned()
            },
            TcpNetworkerErrors::FailedToWriteToStream => "failed to write to stream".to_owned(),
            TcpNetworkerErrors::FailedToSpawnNewBlockingTask => {
                "failed to spawn new blocking task".to_owned()
            },
        }
    }
}

/// Every error has something to say.
pub proof fn law_messages_are_not_empty(e: TcpNetworkerErrors)
    ensures
        e.message().len() > 0,
{
    reveal_strlit("failed to accept connection");
    reveal_strlit("failed to read from stream");
    reveal_strlit("authentication failed");
    reveal_strlit("failed to decrypt tunnel data");
    reveal_strlit("failed to get local address");
    reveal_strlit("failed to make a connection request");
    reveal_strlit("failed to encrypt tunnel data");
    reveal_strlit("failed to write to stream");
    reveal_strlit("failed to spawn new blocking task");
}

/// The plaintext of a header: the action's byte, then the size of the encrypted packet as a
/// little-endian number.
pub open spec fn header_bytes(action: ActionType, size: u64) -> Seq<u8> {
    seq![action.byte()] + crate::le::le_bytes(size)
}

/// The packet size that the plaintext of a header declares.
pub open spec fn header_size(header: Seq<u8>) -> int {
    crate::le::le_value(header.subrange(1, 9))
}

/// A header says what it was made of.
pub proof fn law_header_round_trip(action: ActionType, size: u64)
    ensures
        header_bytes(action, size).len() == 9,
        ActionType::of_byte_or_default(header_bytes(action, size)[0]) == action,
        header_size(header_bytes(action, size)) == size,
{
    crate::le::law_le_round_trip(size);
    assert(header_bytes(action, size).subrange(1, 9) =~= crate::le::le_bytes(size));
}

/// Writes the plaintext of a header.
pub fn encode_header(action: ActionType, size: u64) -> (header: Vec<u8>)
    ensures
        header@ == header_bytes(action, size),
{
    let first: [u8; 1] = [action.to_u8()];
    let header = joined(&first, &u64_to_le(size));
    assert(header@ =~= header_bytes(action, size));
    header
}

/// What the double-encrypted packet holds: the data, or why it cannot be had. A layer too short to
/// hold a nonce stops the task that takes it off.
pub open spec fn packet_open(session: Seq<u8>, d_key: Seq<u8>, packet: Seq<u8>) -> Result<
    Seq<u8>,
    TcpNetworkerErrors,
> {
    if packet.len() < 12 {
        Err(TcpNetworkerErrors::FailedToSpawnNewBlockingTask)
    } else {
        match crate::auth::tunnel_open(session, packet) {
            None => Err(TcpNetworkerErrors::FailedToDecryptTunnel),
            Some(inner) => if inner.len() < 12 {
                Err(TcpNetworkerErrors::FailedToSpawnNewBlockingTask)
            } else {
                match crate::auth::tunnel_open(d_key, inner) {
                    None => Err(TcpNetworkerErrors::FailedToDecryptTunnel),
                    Some(data) => Ok(data),
                }
            },
        }
    }
}

/// Takes both encryption layers off a packet: first the session's, then the data key's.
pub fn open_packet(session: &[u8; 32], d_key: &[u8; 32], packet: &[u8]) -> (r: Result<
    Vec<u8>,
    TcpNetworkerErrors,
>)
    ensures
        match (r, packet_open(session@, d_key@, packet@)) {
            (Ok(data), Ok(expected)) => data@ == expected,
            (Err(e), Err(expected)) => e == expected,
            _ => false,
        },
{
    if packet.len() < 12 {
        return Err(TcpNetworkerErrors::FailedToSpawnNewBlockingTask);
    }
    match decrypt_tunnel(session, packet) {
        Err(_) => Err(TcpNetworkerErrors::FailedToDecryptTunnel),
        Ok(inner) => if inner.len() < 12 {
            Err(TcpNetworkerErrors::FailedToSpawnNewBlockingTask)
        } else {
            match decrypt_tunnel(d_key, &inner) {
                Err(_) => Err(TcpNetworkerErrors::FailedToDecryptTunnel),
                Ok(data) => Ok(data),
            }
        },
    }
}

/// The double-encrypted packet of some data.
pub open spec fn packet_seal(
    session: Seq<u8>,
    d_key: Seq<u8>,
    inner_nonce: Seq<u8>,
    outer_nonce: Seq<u8>,
    data: Seq<u8>,
) -> Seq<u8> {
    crate::auth::tunnel_seal(
        session,
        outer_nonce,
        crate::auth::tunnel_seal(d_key, inner_nonce, data),
    )
}

/// The longest data that a packet can carry: the longest plaintext less the inner nonce and tag.
pub const MAX_DATA: u64 = 0xF_FFFF_FFC4;

/// Puts both encryption layers on some data: first the data key's, then the session's. The packet
/// opens to the data again.
pub fn seal_packet(
    session: &[u8; 32],
    d_key: &[u8; 32],
    data: &[u8],
    inner_nonce: Option<[u8; 12]>,
    outer_nonce: Option<[u8; 12]>,
) -> (r: Result<Vec<u8>, TcpNetworkerErrors>)
    ensures
        match r {
            Ok(packet) => inner_nonce is Some && outer_nonce is Some && data@.len() <= MAX_DATA
                && packet@ == packet_seal(
                session@,
                d_key@,
                inner_nonce->0@,
                outer_nonce->0@,
                data@,
            ) && packet@.len() == data@.len() + 56 && packet_open(session@, d_key@, packet@)
                == Ok::<Seq<u8>, TcpNetworkerErrors>(data@) && crate::auth::tunnel_open(
                session@,
                packet@,
            ) == Some(crate::auth::tunnel_seal(d_key@, inner_nonce->0@, data@)),
            Err(e) => (inner_nonce is None || outer_nonce is None || data@.len() > MAX_DATA) && e
                == TcpNetworkerErrors::FailedToEncryptTunnel,
        },
{
    match encrypt_tunnel_with(d_key, data, inner_nonce) {
        Err(_) => Err(TcpNetworkerErrors::FailedToEncryptTunnel),
        Ok(inner) => match encrypt_tunnel_with(session, &inner, outer_nonce) {
            Err(_) => Err(TcpNetworkerErrors::FailedToEncryptTunnel),
            Ok(packet) => Ok(packet),
        },
    }
}

/// How the receiving end of a connection ended.
#[derive(Debug, PartialEq, Eq)]
pub enum RecvVerdict {
    /// The packet of an authenticated peer.
    Received(ActionType, Vec<u8>),
    /// The peer was not authenticated; the connection closes gracefully.
    Refused,
    /// The connection broke down.
    Failed(TcpNetworkerErrors),
}

/// A [`RecvVerdict`] with its data as a mathematical sequence.
pub enum RecvVerdictView {
    Received(ActionType, Seq<u8>),
    Refused,
    Failed(TcpNetworkerErrors),
}

impl View for RecvVerdict {
    type V = RecvVerdictView;

    open spec fn view(&self) -> RecvVerdictView {
        match self {
            RecvVerdict::Received(action, data) => RecvVerdictView::Received(*action, data@),
            RecvVerdict::Refused => RecvVerdictView::Refused,
            RecvVerdict::Failed(e) => RecvVerdictView::Failed(*e),
        }
    }
}

impl RecvVerdict {
    /// Only a breakdown is an error: a peer that was not authenticated is turned away gracefully.
    pub fn into_result(self) -> (r: Result<(), TcpNetworkerErrors>)
        ensures
            r == (match self@ {
                RecvVerdictView::Failed(e) => Err::<(), TcpNetworkerErrors>(e),
                _ => Ok(()),
            }),
    {
        match self {
            RecvVerdict::Failed(e) => Err(e),
            _ => Ok(()),
        }
    }
}

/// Where the receiving end of a connection stands.
pub enum Recv {
    /// Authenticating the peer.
    Auth(Incoming),
    /// Waiting for the encrypted header.
    Header { session: [u8; 32] },
    /// Waiting for the packet that the header declared.
    Packet { session: [u8; 32], action_byte: u8, size: usize },
}

/// A [`Recv`] with its session key as a mathematical sequence.
pub enum RecvView {
    Auth(IncomingView),
    Header(Seq<u8>),
    Packet(Seq<u8>, u8, nat),
}

impl View for Recv {
    type V = RecvView;

    open spec fn view(&self) -> RecvView {
        match self {
            Recv::Auth(incoming) => RecvView::Auth(incoming@),
            Recv::Header { session } => RecvView::Header(session@),
            Recv::Packet { session, action_byte, size } => RecvView::Packet(
                session@,
                *action_byte,
                *size as nat,
            ),
        }
    }
}

/// The receiving end's view of how authentication goes on: a failure is reported as one of
/// authentication, a refusal closes the connection, success makes it wait for the header.
pub open spec fn recv_from_auth(turn: TurnView<IncomingView, VerdictView>) -> TurnView<
    RecvView,
    RecvVerdictView,
> {
    match turn {
        TurnView::Read(then, count) => TurnView::Read(RecvView::Auth(then), count),
        TurnView::Write(then, bytes) => TurnView::Write(RecvView::Auth(then), bytes),
        TurnView::Finish(VerdictView::Accepted(session)) => TurnView::Read(
            RecvView::Header(session),
            37,
        ),
        TurnView::Finish(VerdictView::Refused) => TurnView::Finish(RecvVerdictView::Refused),
        TurnView::Finish(VerdictView::Failed(_)) => TurnView::Finish(
            RecvVerdictView::Failed(TcpNetworkerErrors::FailedToAuthenticate),
        ),
    }
}

/// The receiving end of a connection, one stream operation at a time.
pub open spec fn recv_next(
    state: RecvView,
    event: EventView,
    a_key: Seq<u8>,
    d_key: Seq<u8>,
    private_key: Seq<u8>,
    nonce: Option<Seq<u8>>,
) -> TurnView<RecvView, RecvVerdictView> {
    match state {
        RecvView::Auth(incoming) => recv_from_auth(
            crate::auth::incoming_next(incoming, event, a_key, private_key, nonce),
        ),
        RecvView::Header(session) => if !event.is_read_of(37) {
            TurnView::Finish(RecvVerdictView::Failed(TcpNetworkerErrors::FailedToReadFromStream))
        } else {
            match crate::auth::tunnel_open(session, event.bytes()) {
                None => TurnView::Finish(
                    RecvVerdictView::Failed(TcpNetworkerErrors::FailedToDecryptTunnel),
                ),
                Some(header) => {
                    let size = header_size(header) as u64 as usize as nat;
                    TurnView::Read(RecvView::Packet(session, header[0], size), size)
                },
            }
        },
        RecvView::Packet(session, action_byte, size) => if !event.is_read_of(size) {
            TurnView::Finish(RecvVerdictView::Failed(TcpNetworkerErrors::FailedToReadFromStream))
        } else {
            match packet_open(session, d_key, event.bytes()) {
                Err(e) => TurnView::Finish(RecvVerdictView::Failed(e)),
                Ok(data) => TurnView::Finish(
                    RecvVerdictView::Received(ActionType::of_byte_or_default(action_byte), data),
                ),
            }
        },
    }
}

/// What the sender can make of what the receiver sends, all of which is authentication.
pub open spec fn recv_promise(
    event: EventView,
    a_key: Seq<u8>,
    turn: TurnView<RecvView, RecvVerdictView>,
) -> bool {
    match turn {
        TurnView::Write(RecvView::Auth(then), bytes) => crate::auth::incoming_promise(
            event,
            a_key,
            TurnView::Write(then, bytes),
        ),
        _ => true,
    }
}

/// Where the randomness of a step on the receiving end comes from, all of which is authentication.
pub open spec fn recv_draws(
    state: RecvView,
    event: EventView,
    private_key: Seq<u8>,
    nonce: Option<Seq<u8>>,
) -> bool {
    match state {
        RecvView::Auth(incoming) => crate::auth::incoming_draws(
            incoming,
            event,
            private_key,
            nonce,
        ),
        _ => true,
    }
}

/// Carries a turn of the authentication over to the receiving end.
fn recv_after_auth(turn: Turn<Incoming, Verdict>) -> (next: Turn<Recv, RecvVerdict>)
    ensures
        next@ == recv_from_auth(turn@),
{
    match turn {
        Turn::Read(then, count) => Turn::Read(Recv::Auth(then), count),
        Turn::Write(then, bytes) => Turn::Write(Recv::Auth(then), bytes),
        Turn::Finish(Verdict::Accepted(session)) => Turn::Read(Recv::Header { session }, 37),
        Turn::Finish(Verdict::Refused) => Turn::Finish(RecvVerdict::Refused),
        Turn::Finish(Verdict::Failed(_)) => Turn::Finish(
            RecvVerdict::Failed(TcpNetworkerErrors::FailedToAuthenticate),
        ),
    }
}

impl Recv {
    /// Opens the receiving end of a connection from `peer`.
    pub fn begin(trusted: &[PeerAddr], peer: &PeerAddr) -> (turn: Turn<Recv, RecvVerdict>)
        ensures
            turn@ == (if crate::address::trusts(trusted@, *peer) {
                TurnView::Read(RecvView::Auth(IncomingView::TheirKey), 32)
            } else {
                TurnView::Finish(RecvVerdictView::Refused)
            }),
    {
        recv_after_auth(Incoming::begin(trusted, peer))
    }

    /// Goes on after `event`, with the randomness that the authentication may need.
    pub fn advance_with(
        self,
        event: Event,
        keys: &Keys,
        private_key: [u8; 32],
        nonce: Option<[u8; 12]>,
    ) -> (turn: Turn<Recv, RecvVerdict>)
        ensures
            turn@ == recv_next(
                self@,
                event@,
                keys.a_key@,
                keys.d_key@,
                private_key@,
                crate::auth::nonce_view(nonce),
            ),
            recv_promise(event@, keys.a_key@, turn@),
    {
        match self {
            Recv::Auth(incoming) => recv_after_auth(
                incoming.advance_with(event, keys, private_key, nonce),
            ),
            Recv::Header { session } => recv_header(session, event),
            Recv::Packet { session, action_byte, size } => match event.read_of(size) {
                None => Turn::Finish(
                    RecvVerdict::Failed(TcpNetworkerErrors::FailedToReadFromStream),
                ),
                Some(packet) => match open_packet(&session, &keys.d_key.bytes, &packet) {
                    Err(e) => Turn::Finish(RecvVerdict::Failed(e)),
                    Ok(data) => Turn::Finish(
                        RecvVerdict::Received(ActionType::from_u8_or_default(action_byte), data),
                    ),
                },
            },
        }
    }

    /// Goes on after `event`, drawing from the OS what the authentication needs. Without an
    /// ephemeral private key there is no answer, and the generator's error comes back.
    pub fn advance(self, event: Event, keys: &Keys) -> (r: Result<
        Turn<Recv, RecvVerdict>,
        CRandErrors,
    >)
        ensures
            match r {
                Ok(turn) => recv_promise(event@, keys.a_key@, turn@) && exists|
                    private_key: [u8; 32],
                    nonce: Option<[u8; 12]>,
                |
                    turn@ == #[trigger] recv_next(
                        self@,
                        event@,
                        keys.a_key@,
                        keys.d_key@,
                        private_key@,
                        crate::auth::nonce_view(nonce),
                    ) && recv_draws(
                        self@,
                        event@,
                        private_key@,
                        crate::auth::nonce_view(nonce),
                    ),
                Err(e) => e == CRandErrors::FailedToFillBuffer && self@ == RecvView::Auth(
                    IncomingView::TheirKey,
                ) && event@.is_read_of(32) && event@.bytes() != crate::auth::zero_key()
                    && crate::crand::os_refused::<32>(),
            },
    {
        match self {
            Recv::Auth(incoming) => {
                let ghost state = incoming@;
                let ghost seen = event@;
                match incoming.advance(event, keys) {
                    Ok(turn) => {
                        proof {
                            let (private_key, nonce) = choose|
                                private_key: [u8; 32],
                                nonce: Option<[u8; 12]>,
                            |
                                turn@ == #[trigger] crate::auth::incoming_next(
                                    state,
                                    seen,
                                    keys.a_key@,
                                    private_key@,
                                    crate::auth::nonce_view(nonce),
                                ) && crate::auth::incoming_draws(
                                    state,
                                    seen,
                                    private_key@,
                                    crate::auth::nonce_view(nonce),
                                );
                            assert(recv_from_auth(turn@) == recv_next(
                                RecvView::Auth(state),
                                seen,
                                keys.a_key@,
                                keys.d_key@,
                                private_key@,
                                crate::auth::nonce_view(nonce),
                            ));
                        }
                        Ok(recv_after_auth(turn))
                    },
                    Err(e) => Err(e),
                }
            },
            _ => {
                let private_key: [u8; 32] = [0u8; 32];
                let nonce: Option<[u8; 12]> = None;
                Ok(self.advance_with(event, keys, private_key, nonce))
            },
        }
    }
}

/// Takes the header off the wire: what follows is the packet of the size that it declares.
fn recv_header(session: [u8; 32], event: Event) -> (turn: Turn<Recv, RecvVerdict>)
    ensures
        forall|a_key: Seq<u8>, d_key: Seq<u8>, private_key: Seq<u8>, nonce: Option<Seq<u8>>|
            turn@ == #[trigger] recv_next(
                RecvView::Header(session@),
                event@,
                a_key,
                d_key,
                private_key,
                nonce,
            ),
{
    match event.read_of(37) {
        None => Turn::Finish(RecvVerdict::Failed(TcpNetworkerErrors::FailedToReadFromStream)),
        Some(bytes) => match decrypt_tunnel(&session, &bytes) {
            Err(_) => Turn::Finish(RecvVerdict::Failed(TcpNetworkerErrors::FailedToDecryptTunnel)),
            Ok(header) => {
                let size: usize = u64_from_le(&array_at::<8>(&header, 1)) as usize;
                Turn::Read(Recv::Packet { session, action_byte: header[0], size }, size)
            },
        },
    }
}

/// What the sending end of a connection is to do: where it connects to, the action that it asks
/// for, and the data that it sends.
pub struct Outbound {
    pub connect_addr: PeerAddr,
    pub action_type: ActionType,
    pub data: Vec<u8>,
}

/// How the sending end of a connection ended.
#[derive(Debug, Clone, Copy, PartialEq, Eq)]
pub enum ConnectVerdict {
    /// Header and packet went out.
    Sent,
    /// The peer is authenticated, and this address is now to be trusted.
    Registered(PeerAddr),
    /// The peer was not authenticated; the connection closes gracefully.
    Refused,
    /// The connection broke down.
    Failed(TcpNetworkerErrors),
}

impl View for ConnectVerdict {
    type V = ConnectVerdict;

    open spec fn view(&self) -> ConnectVerdict {
        *self
    }
}

impl ConnectVerdict {
    /// Records the outcome: a registered peer joins the trusted addresses, anything else leaves
    /// them alone. Only a breakdown is an error.
    pub fn settle(self, trusted: &mut Vec<PeerAddr>) -> (r: Result<(), TcpNetworkerErrors>)
        ensures
            final(trusted)@ == (match self {
                ConnectVerdict::Registered(addr) => old(trusted)@.push(addr),
                _ => old(trusted)@,
            }),
            r == (match self {
                ConnectVerdict::Failed(e) => Err::<(), TcpNetworkerErrors>(e),
                _ => Ok(()),
            }),
    {
        match self {
            ConnectVerdict::Registered(addr) => {
                trusted.push(addr);
                Ok(())
            },
            ConnectVerdict::Failed(e) => Err(e),
            _ => Ok(()),
        }
    }
}

/// Where the sending end of a connection stands.
pub enum Connect {
    /// Authenticating the peer.
    Auth(Outgoing),
    /// The encrypted header is on its way out; the packet comes next.
    Header { packet: Vec<u8> },
    /// The packet is on its way out.
    Packet,
}

/// A [`Connect`] with its packet as a mathematical sequence.
pub enum ConnectView {
    Auth(OutgoingView),
    Header(Seq<u8>),
    Packet,
}

impl View for Connect {
    type V = ConnectView;

    open spec fn view(&self) -> ConnectView {
        match self {
            Connect::Auth(outgoing) => ConnectView::Auth(outgoing@),
            Connect::Header { packet } => ConnectView::Header(packet@),
            Connect::Packet => ConnectView::Packet,
        }
    }
}

/// The nonces that one step of the sending end may take: one for the authentication, and one each
/// for the two layers of the packet and for the header. Each is there where the OS supplied it.
#[derive(Clone, Copy)]
pub struct ConnectNonces {
    pub auth: Option<[u8; 12]>,
    pub inner: Option<[u8; 12]>,
    pub outer: Option<[u8; 12]>,
    pub header: Option<[u8; 12]>,
}

/// What the sending end does once the peer is authenticated: it registers a new device and is done,
/// or sends header and packet.
pub open spec fn connect_authenticated(
    session: Seq<u8>,
    d_key: Seq<u8>,
    job: Outbound,
    nonces: ConnectNonces,
) -> TurnView<ConnectView, ConnectVerdict> {
    if job.action_type == ActionType::ConnectNewDevice {
        TurnView::Finish(ConnectVerdict::Registered(job.connect_addr))
    } else if job.data@.len() > MAX_DATA || nonces.inner is None || nonces.outer is None
        || nonces.header is None {
        TurnView::Finish(ConnectVerdict::Failed(TcpNetworkerErrors::FailedToEncryptTunnel))
    } else {
        let packet = packet_seal(
            session,
            d_key,
            nonces.inner->0@,
            nonces.outer->0@,
            job.data@,
        );
        TurnView::Write(
            ConnectView::Header(packet),
            crate::auth::tunnel_seal(
                session,
                nonces.header->0@,
                header_bytes(job.action_type, (job.data@.len() + 56) as u64),
            ),
        )
    }
}

/// The sending end's view of how authentication goes on: a failure is reported as one of
/// authentication, a refusal closes the connection.
pub open spec fn connect_from_auth(
    turn: TurnView<OutgoingView, VerdictView>,
    d_key: Seq<u8>,
    job: Outbound,
    nonces: ConnectNonces,
) -> TurnView<ConnectView, ConnectVerdict> {
    match turn {
        TurnView::Read(then, count) => TurnView::Read(ConnectView::Auth(then), count),
        TurnView::Write(then, bytes) => TurnView::Write(ConnectView::Auth(then), bytes),
        TurnView::Finish(VerdictView::Accepted(session)) => connect_authenticated(
            session,
            d_key,
            job,
            nonces,
        ),
        TurnView::Finish(VerdictView::Refused) => TurnView::Finish(ConnectVerdict::Refused),
        TurnView::Finish(VerdictView::Failed(_)) => TurnView::Finish(
            ConnectVerdict::Failed(TcpNetworkerErrors::FailedToAuthenticate),
        ),
    }
}

/// The sending end of a connection, one stream operation at a time.
pub open spec fn connect_next(
    state: ConnectView,
    event: EventView,
    a_key: Seq<u8>,
    d_key: Seq<u8>,
    job: Outbound,
    nonces: ConnectNonces,
) -> TurnView<ConnectView, ConnectVerdict> {
    match state {
        ConnectView::Auth(outgoing) => connect_from_auth(
            crate::auth::outgoing_next(
                outgoing,
                event,
                a_key,
                crate::auth::nonce_view(nonces.auth),
            ),
            d_key,
            job,
            nonces,
        ),
        ConnectView::Header(packet) => if event != EventView::Written {
            TurnView::Finish(ConnectVerdict::Failed(TcpNetworkerErrors::FailedToWriteToStream))
        } else {
            TurnView::Write(ConnectView::Packet, packet)
        },
        ConnectView::Packet => if event != EventView::Written {
            TurnView::Finish(ConnectVerdict::Failed(TcpNetworkerErrors::FailedToWriteToStream))
        } else {
            TurnView::Finish(ConnectVerdict::Sent)
        },
    }
}

/// What the receiver can make of what the sender sends: of the messages of the authentication what
/// the sender's side of it promises, and then, under the session key and the data key, of the packet
/// the data, and of the header the action and the size of the packet.
pub open spec fn connect_promise(
    state: ConnectView,
    event: EventView,
    a_key: Seq<u8>,
    d_key: Seq<u8>,
    job: Outbound,
    turn: TurnView<ConnectView, ConnectVerdict>,
) -> bool {
    match (state, turn) {
        (ConnectView::Auth(outgoing), TurnView::Write(ConnectView::Auth(then), bytes)) => {
            crate::auth::outgoing_promise(
                outgoing,
                event,
                a_key,
                TurnView::Write(then, bytes),
            )
        },
        (
            ConnectView::Auth(OutgoingView::Confirmation(session, _)),
            TurnView::Write(ConnectView::Header(packet), header),
        ) => packet_is_for(session, d_key, job, packet, header),
        _ => true,
    }
}

/// Whether packet and header open to what a sender sends.
pub open spec fn packet_is_for(
    session: Seq<u8>,
    d_key: Seq<u8>,
    job: Outbound,
    packet: Seq<u8>,
    header: Seq<u8>,
) -> bool {
    &&& packet_open(session, d_key, packet) == Ok::<Seq<u8>, TcpNetworkerErrors>(job.data@)
    &&& packet.len() == job.data@.len() + 56
    &&& header.len() == 37
    &&& crate::auth::tunnel_open(session, header) == Some(
        header_bytes(job.action_type, packet.len() as u64),
    )
}

/// Under the outer layer of a packet that the sender starts to send stands the data, sealed under the
/// data key and the inner nonce.
pub open spec fn inner_layer(
    state: ConnectView,
    d_key: Seq<u8>,
    job: Outbound,
    nonces: ConnectNonces,
    turn: TurnView<ConnectView, ConnectVerdict>,
) -> bool {
    match (state, turn) {
        (
            ConnectView::Auth(OutgoingView::Confirmation(session, _)),
            TurnView::Write(ConnectView::Header(packet), _),
        ) => crate::auth::tunnel_open(session, packet) == Some(
            crate::auth::tunnel_seal(d_key, nonces.inner->0@, job.data@),
        ),
        _ => true,
    }
}

/// What a sender seals once the peer is authenticated: the two layers of the packet, and the header.
#[derive(Clone, Copy)]
pub enum Sealing {
    Inner,
    Outer,
    Header,
}

/// Draws the nonce of one sealing. What it is drawn for is told apart in contracts only: a nonce
/// that was drawn for one sealing is not thereby one for another.
fn nonce_for(_sealing: Sealing) -> (nonce: Option<[u8; 12]>)
    ensures
        crate::crand::os_answered::<12>(crate::auth::nonce_view(nonce)),
{
    fresh_nonce()
}

/// Whether this is what a draw for this sealing came to.
pub closed spec fn drawn_for(sealing: Sealing, nonce: Option<[u8; 12]>) -> bool {
    call_ensures(nonce_for, (sealing,), nonce)
}

/// Where the nonces of a step on the sending end come from: each that the step takes is one that the
/// OS supplied for it alone, and is absent only where the OS refused it.
pub open spec fn connect_draws(state: ConnectView, nonces: ConnectNonces) -> bool {
    match state {
        ConnectView::Auth(OutgoingView::Confirmation(_, _)) => {
            &&& crate::crand::os_answered::<12>(crate::auth::nonce_view(nonces.inner))
            &&& crate::crand::os_answered::<12>(crate::auth::nonce_view(nonces.outer))
            &&& crate::crand::os_answered::<12>(crate::auth::nonce_view(nonces.header))
            &&& drawn_for(Sealing::Inner, nonces.inner)
            &&& drawn_for(Sealing::Outer, nonces.outer)
            &&& drawn_for(Sealing::Header, nonces.header)
        },
        ConnectView::Auth(outgoing) => crate::auth::outgoing_draws(
            outgoing,
            crate::auth::nonce_view(nonces.auth),
        ),
        _ => true,
    }
}

/// Starts to send: seals the packet, and the header that declares its size.
fn send_packet(session: [u8; 32], keys: &Keys, job: &Outbound, nonces: &ConnectNonces) -> (turn:
    Turn<Connect, ConnectVerdict>)
    ensures
        turn@ == connect_authenticated(session@, keys.d_key@, *job, *nonces),
        match turn@ {
            TurnView::Write(ConnectView::Header(packet), header) => packet_is_for(
                session@,
                keys.d_key@,
                *job,
                packet,
                header,
            ) && crate::auth::tunnel_open(session@, packet) == Some(
                crate::auth::tunnel_seal(keys.d_key@, nonces.inner->0@, job.data@),
            ),
            TurnView::Finish(_) => true,
            _ => false,
        },
{
    if job.action_type == ActionType::ConnectNewDevice {
        return Turn::Finish(ConnectVerdict::Registered(job.connect_addr));
    }
    match seal_packet(&session, &keys.d_key.bytes, &job.data, nonces.inner, nonces.outer) {
        Err(e) => Turn::Finish(ConnectVerdict::Failed(e)),
        Ok(packet) => {
            // The size of the encrypted packet, so that the receiver knows how much to read
            let header = encode_header(job.action_type, packet.len() as u64);
            proof {
                law_header_round_trip(job.action_type, packet@.len() as u64);
            }
            match encrypt_tunnel_with(&session, &header, nonces.header) {
                Err(_) => Turn::Finish(
                    ConnectVerdict::Failed(TcpNetworkerErrors::FailedToEncryptTunnel),
                ),
                Ok(sealed) => Turn::Write(Connect::Header { packet }, sealed),
            }
        },
    }
}

/// Carries a turn of the authentication over to the sending end.
fn connect_after_auth(
    turn: Turn<Outgoing, Verdict>,
    keys: &Keys,
    job: &Outbound,
    nonces: &ConnectNonces,
) -> (next: Turn<Connect, ConnectVerdict>)
    ensures
        next@ == connect_from_auth(turn@, keys.d_key@, *job, *nonces),
        match (turn@, next@) {
            (
                TurnView::Finish(VerdictView::Accepted(session)),
                TurnView::Write(ConnectView::Header(packet), header),
            ) => packet_is_for(session, keys.d_key@, *job, packet, header)
                && crate::auth::tunnel_open(session, packet) == Some(
                crate::auth::tunnel_seal(keys.d_key@, nonces.inner->0@, job.data@),
            ),
            _ => true,
        },
{
    match turn {
        Turn::Read(then, count) => Turn::Read(Connect::Auth(then), count),
        Turn::Write(then, bytes) => Turn::Write(Connect::Auth(then), bytes),
        Turn::Finish(Verdict::Accepted(session)) => send_packet(session, keys, job, nonces),
        Turn::Finish(Verdict::Refused) => Turn::Finish(ConnectVerdict::Refused),
        Turn::Finish(Verdict::Failed(_)) => Turn::Finish(
            ConnectVerdict::Failed(TcpNetworkerErrors::FailedToAuthenticate),
        ),
    }
}

/// How the sending end opens: an untrusted peer is refused before any cryptography, any other is
/// sent our ephemeral public key.
pub open spec fn connect_first(trusted: bool, private_key: Seq<u8>) -> TurnView<
    ConnectView,
    ConnectVerdict,
> {
    if trusted {
        TurnView::Write(
            ConnectView::Auth(OutgoingView::OurKey(private_key)),
            crate::x25519_cesa::x25519_public(private_key),
        )
    } else {
        TurnView::Finish(ConnectVerdict::Refused)
    }
}

/// Carries the opening of the authentication over to the sending end.
fn connect_opened(turn: Turn<Outgoing, Verdict>) -> (next: Turn<Connect, ConnectVerdict>)
    requires
        turn@ is Write || turn@ == TurnView::<OutgoingView, VerdictView>::Finish(
            VerdictView::Refused,
        ),
    ensures
        next@ == (match turn@ {
            TurnView::Write(then, bytes) => TurnView::Write(ConnectView::Auth(then), bytes),
            _ => TurnView::Finish(ConnectVerdict::Refused),
        }),
{
    match turn {
        Turn::Write(then, bytes) => Turn::Write(Connect::Auth(then), bytes),
        _ => Turn::Finish(ConnectVerdict::Refused),
    }
}

impl Connect {
    /// Opens the sending end under a given ephemeral private key.
    pub fn begin_with(trusted: &[PeerAddr], job: &Outbound, private_key: [u8; 32]) -> (turn: Turn<
        Connect,
        ConnectVerdict,
    >)
        ensures
            turn@ == connect_first(
                crate::address::trusts(trusted@, job.connect_addr),
                private_key@,
            ),
            match turn@ {
                TurnView::Write(_, ours) => ours.len() == 32 && ours != crate::auth::zero_key(),
                _ => true,
            },
    {
        connect_opened(Outgoing::begin_with(trusted, &job.connect_addr, private_key))
    }

    /// Opens the sending end, drawing the ephemeral private key from the OS where the peer is
    /// trusted. Without one there is no connection, and the generator's error comes back.
    pub fn begin(trusted: &[PeerAddr], job: &Outbound) -> (r: Result<
        Turn<Connect, ConnectVerdict>,
        CRandErrors,
    >)
        ensures
            match r {
                Ok(turn) => (exists|private_key: [u8; 32]|
                    turn@ == #[trigger] connect_first(
                        crate::address::trusts(trusted@, job.connect_addr),
                        private_key@,
                    ) && (crate::address::trusts(trusted@, job.connect_addr)
                        ==> crate::crand::os_supplied::<32>(private_key@))) && match turn@ {
                    TurnView::Write(_, ours) => ours.len() == 32 && ours != crate::auth::zero_key(),
                    _ => true,
                },
                Err(e) => e == CRandErrors::FailedToFillBuffer && crate::address::trusts(
                    trusted@,
                    job.connect_addr,
                ) && crate::crand::os_refused::<32>(),
            },
    {
        match Outgoing::begin(trusted, &job.connect_addr) {
            Ok(turn) => {
                proof {
                    let private_key = choose|private_key: [u8; 32]|
                        turn@ == #[trigger] crate::auth::outgoing_first(
                            crate::address::trusts(trusted@, job.connect_addr),
                            private_key@,
                        ) && (crate::address::trusts(trusted@, job.connect_addr)
                            ==> crate::crand::os_supplied::<32>(private_key@));
                    let first = connect_first(
                        crate::address::trusts(trusted@, job.connect_addr),
                        private_key@,
                    );
                }
                Ok(connect_opened(turn))
            },
            Err(e) => Err(e),
        }
    }

    /// Goes on after `event`, with the nonces that the step may need.
    pub fn advance_with(
        self,
        event: Event,
        keys: &Keys,
        job: &Outbound,
        nonces: &ConnectNonces,
    ) -> (turn: Turn<Connect, ConnectVerdict>)
        ensures
            turn@ == connect_next(
                self@,
                event@,
                keys.a_key@,
                keys.d_key@,
                *job,
                *nonces,
            ),
            connect_promise(self@, event@, keys.a_key@, keys.d_key@, *job, turn@),
            inner_layer(self@, keys.d_key@, *job, *nonces, turn@),
    {
        match self {
            Connect::Auth(outgoing) => connect_after_auth(
                outgoing.advance_with(event, keys, nonces.auth),
                keys,
                job,
                nonces,
            ),
            Connect::Header { packet } => if event.is_written() {
                Turn::Write(Connect::Packet, packet)
            } else {
                Turn::Finish(ConnectVerdict::Failed(TcpNetworkerErrors::FailedToWriteToStream))
            },
            Connect::Packet => if event.is_written() {
                Turn::Finish(ConnectVerdict::Sent)
            } else {
                Turn::Finish(ConnectVerdict::Failed(TcpNetworkerErrors::FailedToWriteToStream))
            },
        }
    }

    /// Goes on after `event`, drawing from the OS the nonces that the step needs.
    pub fn advance(self, event: Event, keys: &Keys, job: &Outbound) -> (turn: Turn<
        Connect,
        ConnectVerdict,
    >)
        ensures
            exists|nonces: ConnectNonces|
                turn@ == #[trigger] connect_next(
                    self@,
                    event@,
                    keys.a_key@,
                    keys.d_key@,
                    *job,
                    nonces,
                ) && connect_draws(self@, nonces) && inner_layer(
                    self@,
                    keys.d_key@,
                    *job,
                    nonces,
                    turn@,
                ),
            connect_promise(self@, event@, keys.a_key@, keys.d_key@, *job, turn@),
    {
        let mut nonces = ConnectNonces { auth: None, inner: None, outer: None, header: None };
        match self {
            Connect::Auth(Outgoing::TheirKey { .. }) => {
                nonces.auth = fresh_nonce();
            },
            Connect::Auth(Outgoing::Echo { .. }) => {
                nonces.auth = fresh_nonce();
            },
            Connect::Auth(Outgoing::Confirmation { .. }) => {
                nonces.inner = nonce_for(Sealing::Inner);
                nonces.outer = nonce_for(Sealing::Outer);
                nonces.header = nonce_for(Sealing::Header);
            },
            _ => {},
        }
        self.advance_with(event, keys, job, &nonces)
    }
}

/// What happened while the listener waited for a connection.
#[derive(Clone, Copy)]
pub enum ListenEvent {
    /// The cancellation token fired.
    Cancelled,
    /// A peer connected.
    Accepted(PeerAddr),
    /// Accepting failed.
    AcceptFailed,
}

/// What the listener does next.
#[derive(Debug, Clone, Copy, PartialEq, Eq)]
pub enum ListenStep {
    /// Handle the connection of this peer in a task of its own, and keep listening.
    Handle(PeerAddr),
    /// Stop listening.
    Stop(Result<(), TcpNetworkerErrors>),
}

/// Whether a listener can start: it needs its local address.
pub fn recv_start(has_local_addr: bool) -> (r: Result<(), TcpNetworkerErrors>)
    ensures
        r == (if has_local_addr {
            Ok::<(), TcpNetworkerErrors>(())
        } else {
            Err(TcpNetworkerErrors::FailedToGetLocalAddr)
        }),
{
    if has_local_addr {
        Ok(())
    } else {
        Err(TcpNetworkerErrors::FailedToGetLocalAddr)
    }
}

/// One round of the listener: a connection is handled, a cancellation stops it cleanly, a failed
/// accept stops it with an error.
pub fn recv(event: ListenEvent) -> (step: ListenStep)
    ensures
        step == (match event {
            ListenEvent::Cancelled => ListenStep::Stop(Ok(())),
            ListenEvent::Accepted(peer) => ListenStep::Handle(peer),
            ListenEvent::AcceptFailed => ListenStep::Stop(
                Err(TcpNetworkerErrors::FailedToAcceptConnection),
            ),
        }),
{
    match event {
        ListenEvent::Cancelled => ListenStep::Stop(Ok(())),
        ListenEvent::Accepted(peer) => ListenStep::Handle(peer),
        ListenEvent::AcceptFailed => ListenStep::Stop(
            Err(TcpNetworkerErrors::FailedToAcceptConnection),
        ),
    }
}

/// What became of a connection request.
#[derive(Clone, Copy)]
pub enum DialEvent {
    /// The cancellation token fired first.
    Cancelled,
    /// The connection is there.
    Connected,
    /// The connection could not be made.
    ConnectFailed,
}

/// Whether a connection request leaves a connection to handle: a cancellation is no error.
pub fn connect(event: DialEvent) -> (r: Result<bool, TcpNetworkerErrors>)
    ensures
        r == (match event {
            DialEvent::Cancelled => Ok::<bool, TcpNetworkerErrors>(false),
            DialEvent::Connected => Ok(true),
            DialEvent::ConnectFailed => Err(TcpNetworkerErrors::FailedToConnect),
        }),
{
    match event {
        DialEvent::Cancelled => Ok(false),
        DialEvent::Connected => Ok(true),
        DialEvent::ConnectFailed => Err(TcpNetworkerErrors::FailedToConnect),
    }
}

/// How the receiving end finishes on a sequence of inputs under a data key, where it does.
pub open spec fn recv_run(
    state: RecvView,
    inputs: Seq<crate::auth::IncomingInput>,
    d_key: Seq<u8>,
) -> Option<RecvVerdictView>
    decreases inputs.len(),
{
    if inputs.len() == 0 {
        None
    } else {
        let first = inputs[0];
        match recv_next(
            state,
            first.event,
            first.a_key,
            d_key,
            first.private_key,
            first.nonce,
        ) {
            TurnView::Finish(verdict) => Some(verdict),
            TurnView::Read(then, _) => recv_run(then, inputs.drop_first(), d_key),
            TurnView::Write(then, _) => recv_run(then, inputs.drop_first(), d_key),
        }
    }
}

/// Data is taken only from an authenticated peer, and only as it was sent: the five steps of the
/// authentication ended in a session key, under it the header opened and named the action and the
/// size of the packet, and the packet opened to the data.
pub proof fn law_recv_only_from_authenticated(
    inputs: Seq<crate::auth::IncomingInput>,
    d_key: Seq<u8>,
)
    ensures
        match recv_run(RecvView::Auth(IncomingView::TheirKey), inputs, d_key) {
            Some(RecvVerdictView::Received(action, data)) => inputs.len() >= 7
                && match crate::auth::incoming_run(IncomingView::TheirKey, inputs) {
                Some(VerdictView::Accepted(session)) => match crate::auth::tunnel_open(
                    session,
                    inputs[5].event.bytes(),
                ) {
                    Some(header) => {
                        &&& action == ActionType::of_byte_or_default(header[0])
                        &&& inputs[6].event.is_read_of(
                            header_size(header) as u64 as usize as nat,
                        )
                        &&& packet_open(session, d_key, inputs[6].event.bytes()) == Ok::<
                            Seq<u8>,
                            TcpNetworkerErrors,
                        >(data)
                    },
                    None => false,
                },
                _ => false,
            },
            _ => true,
        },
{
    reveal_with_fuel(recv_run, 8);
    reveal_with_fuel(crate::auth::incoming_run, 6);
}

/// What the sending end has to go on in one step: the event, the authentication key at the time,
/// and the nonces.
pub struct ConnectInput {
    pub event: EventView,
    pub a_key: Seq<u8>,
    pub nonces: ConnectNonces,
}

/// How the sending end finishes on a sequence of inputs under a data key, where it does.
pub open spec fn connect_run(
    state: ConnectView,
    inputs: Seq<ConnectInput>,
    d_key: Seq<u8>,
    job: Outbound,
) -> Option<ConnectVerdict>
    decreases inputs.len(),
{
    if inputs.len() == 0 {
        None
    } else {
        let first = inputs[0];
        match connect_next(state, first.event, first.a_key, d_key, job, first.nonces) {
            TurnView::Finish(verdict) => Some(verdict),
            TurnView::Read(then, _) => connect_run(then, inputs.drop_first(), d_key, job),
            TurnView::Write(then, _) => connect_run(then, inputs.drop_first(), d_key, job),
        }
    }
}

/// What the authentication of the sending end has to go on.
pub open spec fn auth_inputs(inputs: Seq<ConnectInput>) -> Seq<crate::auth::OutgoingInput> {
    inputs.map_values(
        |input: ConnectInput|
            crate::auth::OutgoingInput {
                event: input.event,
                a_key: input.a_key,
                nonce: crate::auth::nonce_view(input.nonces.auth),
            },
    )
}

/// Nothing is sent to a peer, and no peer is registered, unless it authenticated itself.
pub proof fn law_connect_only_to_authenticated(
    private_key: Seq<u8>,
    inputs: Seq<ConnectInput>,
    d_key: Seq<u8>,
    job: Outbound,
)
    ensures
        match connect_run(
            ConnectView::Auth(OutgoingView::OurKey(private_key)),
            inputs,
            d_key,
            job,
        ) {
            Some(ConnectVerdict::Sent) => crate::auth::outgoing_run(
                OutgoingView::OurKey(private_key),
                auth_inputs(inputs),
            ) is Some && crate::auth::outgoing_run(
                OutgoingView::OurKey(private_key),
                auth_inputs(inputs),
            )->0 is Accepted && job.action_type != ActionType::ConnectNewDevice,
            Some(ConnectVerdict::Registered(addr)) => crate::auth::outgoing_run(
                OutgoingView::OurKey(private_key),
                auth_inputs(inputs),
            ) is Some && crate::auth::outgoing_run(
                OutgoingView::OurKey(private_key),
                auth_inputs(inputs),
            )->0 is Accepted && job.action_type == ActionType::ConnectNewDevice && addr
                == job.connect_addr,
            _ => true,
        },
{
    reveal_with_fuel(connect_run, 8);
    reveal_with_fuel(crate::auth::outgoing_run, 6);
}

/// The two keys are used for one purpose each: authentication and header do not depend on the data
/// key, the packet does not depend on the authentication key.
pub proof fn law_keys_are_independent(
    incoming: IncomingView,
    outgoing: OutgoingView,
    session: Seq<u8>,
    action_byte: u8,
    size: nat,
    event: EventView,
    a_key: Seq<u8>,
    other_a_key: Seq<u8>,
    d_key: Seq<u8>,
    other_d_key: Seq<u8>,
    private_key: Seq<u8>,
    nonce: Option<Seq<u8>>,
    job: Outbound,
    nonces: ConnectNonces,
)
    ensures
        recv_next(RecvView::Auth(incoming), event, a_key, d_key, private_key, nonce) == recv_next(
            RecvView::Auth(incoming),
            event,
            a_key,
            other_d_key,
            private_key,
            nonce,
        ),
        recv_next(RecvView::Header(session), event, a_key, d_key, private_key, nonce)
            == recv_next(
            RecvView::Header(session),
            event,
            a_key,
            other_d_key,
            private_key,
            nonce,
        ),
        recv_next(
            RecvView::Packet(session, action_byte, size),
            event,
            a_key,
            d_key,
            private_key,
            nonce,
        ) == recv_next(
            RecvView::Packet(session, action_byte, size),
            event,
            other_a_key,
            d_key,
            private_key,
            nonce,
        ),
        outgoing is Confirmation ==> connect_next(
            ConnectView::Auth(outgoing),
            event,
            a_key,
            d_key,
            job,
            nonces,
        ) == connect_next(ConnectView::Auth(outgoing), event, other_a_key, d_key, job, nonces),
        !(outgoing is Confirmation) ==> connect_next(
            ConnectView::Auth(outgoing),
            event,
            a_key,
            d_key,
            job,
            nonces,
        ) == connect_next(ConnectView::Auth(outgoing), event, a_key, other_d_key, job, nonces),
{
}

/// Either end fails for want of randomness only where the OS refused it.
pub proof fn law_ends_fail_for_want_of_randomness_only_where_the_os_refused(
    trusted: &[PeerAddr],
    job: &Outbound,
    first: Result<Turn<Connect, ConnectVerdict>, CRandErrors>,
    sender: Connect,
    receiver: Recv,
    event: Event,
    keys: &Keys,
    sent: Turn<Connect, ConnectVerdict>,
    received: Result<Turn<Recv, RecvVerdict>, CRandErrors>,
)
    requires
        call_ensures(Connect::begin, (trusted, job), first),
        call_ensures(Connect::advance, (sender, event, keys, job), sent),
        call_ensures(Recv::advance, (receiver, event, keys), received),
    ensures
        first is Err ==> crate::crand::os_refused::<32>(),
        received is Err ==> crate::crand::os_refused::<32>(),
        sent@ == TurnView::<ConnectView, ConnectVerdict>::Finish(
            ConnectVerdict::Failed(TcpNetworkerErrors::FailedToEncryptTunnel),
        ) ==> crate::crand::os_refused::<12>() || job.data@.len() > MAX_DATA,
{
}

/// A sender speaks to a peer whose IP address is on the list, and to no other.
pub proof fn law_connect_speaks_to_trusted_peers_only(
    trusted: &[PeerAddr],
    job: &Outbound,
    first: Result<Turn<Connect, ConnectVerdict>, CRandErrors>,
)
    requires
        call_ensures(Connect::begin, (trusted, job), first),
    ensures
        (exists|i: int|
            0 <= i < trusted@.len() && (#[trigger] trusted@[i]).ip() == job.connect_addr.ip())
            && !crate::crand::os_refused::<32>() ==> match first {
            Ok(turn) => match turn@ {
                TurnView::Write(ConnectView::Auth(OutgoingView::OurKey(secret)), ours) => ours
                    == crate::x25519_cesa::x25519_public(secret)
                    && crate::crand::os_supplied::<32>(secret),
                _ => false,
            },
            Err(_) => false,
        },
        (forall|i: int|
            0 <= i < trusted@.len() ==> (#[trigger] trusted@[i]).ip() != job.connect_addr.ip())
            ==> match first {
            Ok(turn) => turn@ == TurnView::<ConnectView, ConnectVerdict>::Finish(
                ConnectVerdict::Refused,
            ),
            Err(_) => false,
        },
{
    crate::address::law_trusted_are_the_listed(trusted@, job.connect_addr);
}

/// Where the OS supplies what it is asked for, a sender goes through with its job. It authenticates
/// a peer that holds the authentication key; once its positive confirmation went out it registers a
/// new device, or writes a header that opens to the action's byte and the packet's size, then the
/// packet, which opens to the data, and is done. Header and packet, which both stand under the
/// session key, have each a nonce that was drawn for them.
pub proof fn law_sender_goes_through_with_its_job(
    state: Connect,
    event: Event,
    keys: &Keys,
    job: &Outbound,
    turn: Turn<Connect, ConnectVerdict>,
)
    requires
        call_ensures(Connect::advance, (state, event, keys, job), turn),
        !crate::crand::os_refused::<12>(),
    ensures
        match (state@, event@) {
            (ConnectView::Auth(OutgoingView::OurKey(secret)), EventView::Written) => turn@
                == TurnView::<ConnectView, ConnectVerdict>::Read(
                ConnectView::Auth(OutgoingView::TheirKey(secret)),
                32,
            ),
            (
                ConnectView::Auth(OutgoingView::TheirKey(secret)),
                EventView::Read(theirs),
            ) => theirs.len() == 32 ==> match turn@ {
                TurnView::Write(ConnectView::Auth(OutgoingView::Proof(session)), proof) => session
                    == crate::x25519_cesa::session_key(secret, theirs) && proof.len() == 60
                    && crate::auth::tunnel_open(session, proof) == Some(keys.a_key@)
                    && crate::crand::os_supplied::<12>(proof.subrange(0, 12)),
                _ => false,
            },
            (ConnectView::Auth(OutgoingView::Proof(session)), EventView::Written) => turn@
                == TurnView::<ConnectView, ConnectVerdict>::Read(
                ConnectView::Auth(OutgoingView::Echo(session)),
                60,
            ),
            (ConnectView::Auth(OutgoingView::Echo(session)), EventView::Read(echo)) => echo.len()
                == 60 && crate::auth::tunnel_open(session, echo) == Some(keys.a_key@)
                ==> match turn@ {
                TurnView::Write(
                    ConnectView::Auth(OutgoingView::Confirmation(after, verified)),
                    byte,
                ) => after == session && verified && byte.len() == 29 && crate::auth::tunnel_open(
                    session,
                    byte,
                ) == Some(seq![1u8]) && crate::crand::os_supplied::<12>(byte.subrange(0, 12)),
                _ => false,
            },
            (
                ConnectView::Auth(OutgoingView::Confirmation(session, true)),
                EventView::Written,
            ) => if job.action_type == ActionType::ConnectNewDevice {
                turn@ == TurnView::<ConnectView, ConnectVerdict>::Finish(
                    ConnectVerdict::Registered(job.connect_addr),
                )
            } else {
                job.data@.len() <= MAX_DATA ==> match turn@ {
                    TurnView::Write(ConnectView::Header(packet), header) => {
                        &&& header.len() == 37
                        &&& crate::crand::os_supplied::<12>(header.subrange(0, 12))
                        &&& exists|nonce: [u8; 12]|
                            nonce@ == header.subrange(0, 12) && #[trigger] drawn_for(
                                Sealing::Header,
                                Some(nonce),
                            )
                        &&& exists|nonce: [u8; 12]|
                            nonce@ == packet.subrange(0, 12) && #[trigger] drawn_for(
                                Sealing::Outer,
                                Some(nonce),
                            )
                        &&& match crate::auth::tunnel_open(session, header) {
                            Some(plain) => plain.len() == 9 && plain[0] == job.action_type.byte()
                                && crate::le::le_value(plain.subrange(1, 9)) == packet.len(),
                            None => false,
                        }
                        &&& packet.len() == job.data@.len() + 56
                        &&& crate::crand::os_supplied::<12>(packet.subrange(0, 12))
                        &&& match crate::auth::tunnel_open(session, packet) {
                            Some(inner) => crate::auth::tunnel_open(keys.d_key@, inner) == Some(
                                job.data@,
                            ) && crate::crand::os_supplied::<12>(inner.subrange(0, 12)),
                            None => false,
                        }
                    },
                    _ => false,
                }
            },
            (ConnectView::Header(packet), EventView::Written) => turn@ == TurnView::<
                ConnectView,
                ConnectVerdict,
            >::Write(ConnectView::Packet, packet),
            (ConnectView::Packet, EventView::Written) => turn@ == TurnView::<
                ConnectView,
                ConnectVerdict,
            >::Finish(ConnectVerdict::Sent),
            _ => true,
        },
{
    let nonces = choose|nonces: ConnectNonces|
        turn@ == #[trigger] connect_next(
            state@,
            event@,
            keys.a_key@,
            keys.d_key@,
            *job,
            nonces,
        ) && connect_draws(state@, nonces) && inner_layer(
            state@,
            keys.d_key@,
            *job,
            nonces,
            turn@,
        );
    match turn@ {
        TurnView::Write(ConnectView::Auth(_), message) => {
            if event@ is Read {
                assert(message.subrange(0, 12) =~= nonces.auth->0@);
            }
        },
        TurnView::Write(ConnectView::Header(packet), header) => {
            if let ConnectView::Auth(OutgoingView::Confirmation(session, _)) = state@ {
                let size = packet.len() as u64;
                law_header_round_trip(job.action_type, size);
                assert(header.subrange(0, 12) =~= nonces.header->0@);
                assert(packet.subrange(0, 12) =~= nonces.outer->0@);
                let inner = crate::auth::tunnel_open(session, packet)->0;
                assert(inner.subrange(0, 12) =~= nonces.inner->0@);
                assert(drawn_for(Sealing::Header, Some(nonces.header->0)));
                assert(drawn_for(Sealing::Outer, Some(nonces.outer->0)));
            }
        },
        _ => {},
    }
}

/// How a sender's job ends otherwise: a peer that is not verified is let go gracefully, whatever
/// breaks the authentication is reported as a failure to authenticate, and a header or packet that
/// does not go out is a failure to write.
pub proof fn law_sender_reports_what_went_wrong(
    state: Connect,
    event: Event,
    keys: &Keys,
    job: &Outbound,
    turn: Turn<Connect, ConnectVerdict>,
)
    requires
        call_ensures(Connect::advance, (state, event, keys, job), turn),
    ensures
        ({
            let no_auth = TurnView::<ConnectView, ConnectVerdict>::Finish(
                ConnectVerdict::Failed(TcpNetworkerErrors::FailedToAuthenticate),
            );
            let no_write = TurnView::<ConnectView, ConnectVerdict>::Finish(
                ConnectVerdict::Failed(TcpNetworkerErrors::FailedToWriteToStream),
            );
            match (state@, event@) {
                (ConnectView::Auth(OutgoingView::TheirKey(_)), EventView::Read(theirs)) => {
                    theirs.len() != 32 ==> turn@ == no_auth
                },
                (ConnectView::Auth(OutgoingView::Echo(session)), EventView::Read(echo)) => {
                    &&& echo.len() != 60 ==> turn@ == no_auth
                    &&& echo.len() == 60 && crate::auth::tunnel_open(session, echo) is None
                        ==> turn@ == no_auth
                    &&& match crate::auth::tunnel_open(session, echo) {
                        Some(key) => echo.len() == 60 && key != keys.a_key@
                            && !crate::crand::os_refused::<12>() ==> match turn@ {
                            TurnView::Write(
                                ConnectView::Auth(OutgoingView::Confirmation(after, verified)),
                                byte,
                            ) => after == session && !verified && crate::auth::tunnel_open(
                                session,
                                byte,
                            ) == Some(seq![0u8]),
                            _ => false,
                        },
                        None => true,
                    }
                },
                (ConnectView::Auth(OutgoingView::TheirKey(_)), _) => turn@ == no_auth,
                (ConnectView::Auth(OutgoingView::Echo(_)), _) => turn@ == no_auth,
                (
                    ConnectView::Auth(OutgoingView::Confirmation(_, false)),
                    EventView::Written,
                ) => turn@ == TurnView::<ConnectView, ConnectVerdict>::Finish(
                    ConnectVerdict::Refused,
                ),
                (
                    ConnectView::Auth(OutgoingView::Confirmation(_, true)),
                    EventView::Written,
                ) => job.action_type != ActionType::ConnectNewDevice && job.data@.len() > MAX_DATA
                    ==> turn@ == TurnView::<ConnectView, ConnectVerdict>::Finish(
                    ConnectVerdict::Failed(TcpNetworkerErrors::FailedToEncryptTunnel),
                ),
                (_, EventView::Written) => true,
                (ConnectView::Auth(_), _) => turn@ == no_auth,
                (_, _) => turn@ == no_write,
            }
        }),
{
}

/// A receiver listens to a peer whose IP address is on the list, and to no other.
pub proof fn law_recv_listens_to_trusted_peers_only(
    trusted: &[PeerAddr],
    peer: &PeerAddr,
    first: Turn<Recv, RecvVerdict>,
)
    requires
        call_ensures(Recv::begin, (trusted, peer), first),
    ensures
        (exists|i: int| 0 <= i < trusted@.len() && (#[trigger] trusted@[i]).ip() == peer.ip())
            ==> first@ == TurnView::<RecvView, RecvVerdictView>::Read(
            RecvView::Auth(IncomingView::TheirKey),
            32,
        ),
        (forall|i: int| 0 <= i < trusted@.len() ==> (#[trigger] trusted@[i]).ip() != peer.ip())
            ==> first@ == TurnView::<RecvView, RecvVerdictView>::Finish(RecvVerdictView::Refused),
{
    crate::address::law_trusted_are_the_listed(trusted@, *peer);
}

/// Where the OS supplies what it is asked for, a receiver authenticates a sender that holds the
/// authentication key, waits for the header once it has the positive confirmation, then for as many
/// bytes as the header says, and takes from them the data, as the action that the header names.
pub proof fn law_receiver_takes_what_is_sent(
    state: Recv,
    event: Event,
    keys: &Keys,
    r: Result<Turn<Recv, RecvVerdict>, CRandErrors>,
)
    requires
        call_ensures(Recv::advance, (state, event, keys), r),
        !crate::crand::os_refused::<12>(),
        !crate::crand::os_refused::<32>(),
    ensures
        match (state@, event@, r) {
            (
                RecvView::Auth(IncomingView::TheirKey),
                EventView::Read(theirs),
                Ok(turn),
            ) => theirs.len() == 32 && !crate::x25519_cesa::all_zero(theirs) ==> match turn@ {
                TurnView::Write(RecvView::Auth(IncomingView::OurKey(session)), ours) => ours.len()
                    == 32 && exists|secret: Seq<u8>| #[trigger]
                    crate::crand::os_supplied::<32>(secret) && ours
                        == crate::x25519_cesa::x25519_public(secret) && session
                        == crate::x25519_cesa::session_key(secret, theirs),
                _ => false,
            },
            (RecvView::Auth(IncomingView::OurKey(session)), EventView::Written, Ok(turn)) => turn@
                == TurnView::<RecvView, RecvVerdictView>::Read(
                RecvView::Auth(IncomingView::Proof(session)),
                60,
            ),
            (
                RecvView::Auth(IncomingView::Proof(session)),
                EventView::Read(proof),
                Ok(turn),
            ) => proof.len() == 60 && crate::auth::tunnel_open(session, proof) == Some(keys.a_key@)
                ==> match turn@ {
                TurnView::Write(RecvView::Auth(IncomingView::Echo(after)), echo) => after == session
                    && echo.len() == 60 && crate::auth::tunnel_open(session, echo) == Some(
                    keys.a_key@,
                ) && crate::crand::os_supplied::<12>(echo.subrange(0, 12)),
                _ => false,
            },
            (RecvView::Auth(IncomingView::Echo(session)), EventView::Written, Ok(turn)) => turn@
                == TurnView::<RecvView, RecvVerdictView>::Read(
                RecvView::Auth(IncomingView::Confirmation(session)),
                29,
            ),
            (
                RecvView::Auth(IncomingView::Confirmation(session)),
                EventView::Read(byte),
                Ok(turn),
            ) => byte.len() == 29 && crate::auth::tunnel_open(session, byte) == Some(seq![1u8])
                ==> turn@ == TurnView::<RecvView, RecvVerdictView>::Read(
                RecvView::Header(session),
                37,
            ),
            (RecvView::Header(session), EventView::Read(sealed), Ok(turn)) => match (
                crate::auth::tunnel_open(session, sealed),
                turn@,
            ) {
                (
                    Some(header),
                    TurnView::Read(RecvView::Packet(after, action_byte, size), count),
                ) => sealed.len() == 37 && header.len() == 9 ==> after == session && action_byte
                    == header[0] && count == size && (crate::le::le_value(header.subrange(1, 9))
                    <= usize::MAX ==> size == crate::le::le_value(header.subrange(1, 9))),
                (Some(_), _) => sealed.len() != 37,
                (None, _) => true,
            },
            (
                RecvView::Packet(session, action_byte, size),
                EventView::Read(packet),
                Ok(turn),
            ) => packet.len() == size && size >= 12 ==> match crate::auth::tunnel_open(
                session,
                packet,
            ) {
                Some(inner) => inner.len() >= 12 ==> match crate::auth::tunnel_open(
                    keys.d_key@,
                    inner,
                ) {
                    Some(data) => match turn@ {
                        TurnView::Finish(RecvVerdictView::Received(action, taken)) => taken == data
                            && (action.byte() == action_byte || (action_byte > 3 && action
                            == ActionType::Default)),
                        _ => false,
                    },
                    None => true,
                },
                None => true,
            },
            (_, _, Ok(_)) => true,
            (_, _, Err(_)) => false,
        },
{
    if event@.is_read_of(32) && event@.bytes() == crate::auth::zero_key() {
        assert(crate::x25519_cesa::all_zero(event@.bytes()));
    }
    if let Ok(turn) = r {
        let (private_key, nonce) = choose|private_key: [u8; 32], nonce: Option<[u8; 12]>|
            turn@ == #[trigger] recv_next(
                state@,
                event@,
                keys.a_key@,
                keys.d_key@,
                private_key@,
                crate::auth::nonce_view(nonce),
            ) && recv_draws(state@, event@, private_key@, crate::auth::nonce_view(nonce));
        if let TurnView::Write(RecvView::Auth(IncomingView::Echo(session)), echo) = turn@ {
            assert(echo.subrange(0, 12) =~= nonce->0@);
        }
        if let (RecvView::Header(session), EventView::Read(sealed)) = (state@, event@) {
            if let Some(header) = crate::auth::tunnel_open(session, sealed) {
                if header.len() == 9 {
                    crate::le::law_le_bytes_of_value(header.subrange(1, 9));
                }
            }
        }
        if let RecvView::Packet(_, action_byte, _) = state@ {
            law_action_round_trip(ActionType::of_byte_or_default(action_byte), action_byte);
        }
    }
}

/// How a connection ends for a receiver otherwise: a sender that does not hold the authentication
/// key, or does not confirm, is let go gracefully; whatever breaks the authentication is reported as
/// a failure to authenticate; and afterwards what does not arrive is a failure to read, what does
/// not open a failure to decrypt.
pub proof fn law_receiver_reports_what_went_wrong(
    state: Recv,
    event: Event,
    keys: &Keys,
    r: Result<Turn<Recv, RecvVerdict>, CRandErrors>,
)
    requires
        call_ensures(Recv::advance, (state, event, keys), r),
    ensures
        ({
            let refused = TurnView::<RecvView, RecvVerdictView>::Finish(RecvVerdictView::Refused);
            let no_auth = TurnView::<RecvView, RecvVerdictView>::Finish(
                RecvVerdictView::Failed(TcpNetworkerErrors::FailedToAuthenticate),
            );
            let no_read = TurnView::<RecvView, RecvVerdictView>::Finish(
                RecvVerdictView::Failed(TcpNetworkerErrors::FailedToReadFromStream),
            );
            let unreadable = TurnView::<RecvView, RecvVerdictView>::Finish(
                RecvVerdictView::Failed(TcpNetworkerErrors::FailedToDecryptTunnel),
            );
            match (state@, event@) {
                (RecvView::Auth(IncomingView::TheirKey), EventView::Read(theirs)) => {
                    &&& theirs.len() == 32 && crate::x25519_cesa::all_zero(theirs) ==> r is Ok
                        && r->Ok_0@ == refused
                    &&& theirs.len() != 32 ==> r is Ok && r->Ok_0@ == no_auth
                },
                (RecvView::Auth(IncomingView::Proof(session)), EventView::Read(proof)) => r is Ok
                    && if proof.len() != 60 {
                    r->Ok_0@ == no_auth
                } else {
                    match crate::auth::tunnel_open(session, proof) {
                        None => r->Ok_0@ == no_auth,
                        Some(key) => key != keys.a_key@ ==> r->Ok_0@ == refused,
                    }
                },
                (RecvView::Auth(IncomingView::Confirmation(session)), EventView::Read(byte)) => {
                    r is Ok && if byte.len() != 29 {
                        r->Ok_0@ == no_auth
                    } else {
                        match crate::auth::tunnel_open(session, byte) {
                            None => r->Ok_0@ == no_auth,
                            Some(byte) => byte != seq![1u8] ==> r->Ok_0@ == refused,
                        }
                    }
                },
                (RecvView::Auth(IncomingView::OurKey(_)), EventView::Written) => true,
                (RecvView::Auth(IncomingView::Echo(_)), EventView::Written) => true,
                (RecvView::Auth(_), _) => r is Ok && r->Ok_0@ == no_auth,
                (RecvView::Header(session), EventView::Read(sealed)) => r is Ok && if sealed.len()
                    != 37 {
                    r->Ok_0@ == no_read
                } else {
                    crate::auth::tunnel_open(session, sealed) is None ==> r->Ok_0@ == unreadable
                },
                (RecvView::Packet(session, _, size), EventView::Read(packet)) => r is Ok
                    && if packet.len() != size {
                    r->Ok_0@ == no_read
                } else {
                    packet.len() >= 12 ==> match crate::auth::tunnel_open(session, packet) {
                        None => r->Ok_0@ == unreadable,
                        Some(inner) => inner.len() >= 12 && crate::auth::tunnel_open(
                            keys.d_key@,
                            inner,
                        ) is None ==> r->Ok_0@ == unreadable,
                    }
                },
                (_, _) => r is Ok && r->Ok_0@ == no_read,
            }
        }),
{
    if event@.is_read_of(32) && crate::x25519_cesa::all_zero(event@.bytes()) {
        assert(event@.bytes() =~= crate::auth::zero_key());
    }
}

/// Nothing is taken off a packet too short to hold a nonce, on either layer: the task that would do
/// so stops.
pub proof fn law_short_layers_stop_the_task(session: Seq<u8>, d_key: Seq<u8>, packet: Seq<u8>)
    ensures
        packet.len() < 12 || match crate::auth::tunnel_open(session, packet) {
            Some(inner) => inner.len() < 12,
            None => false,
        } ==> packet_open(session, d_key, packet) == Err::<Seq<u8>, TcpNetworkerErrors>(
            TcpNetworkerErrors::FailedToSpawnNewBlockingTask,
        ),
        packet_open(session, d_key, packet) == Err::<Seq<u8>, TcpNetworkerErrors>(
            TcpNetworkerErrors::FailedToSpawnNewBlockingTask,
        ) ==> packet.len() < 12 || match crate::auth::tunnel_open(session, packet) {
            Some(inner) => inner.len() < 12,
            None => false,
        },
{
}

/// Every authenticated device that is registered is trusted from then on, at whatever port it
/// comes from, and whoever was trusted stays so.
pub proof fn law_registered_devices_are_trusted(
    trusted: Seq<PeerAddr>,
    addr: PeerAddr,
    peer: PeerAddr,
)
    ensures
        peer.ip() == addr.ip() ==> crate::address::trusts(trusted.push(addr), peer),
        crate::address::trusts(trusted, peer) ==> crate::address::trusts(trusted.push(addr), peer),
{
    crate::address::law_adding_keeps_trust(Seq::empty(), trusted, Seq::empty(), addr, peer);
    assert(trusted.push(addr)[trusted.len() as int] == addr);
}

/// The longest data is what the cipher's longest plaintext leaves after the nonce and tag of the
/// inner layer.
pub proof fn law_data_limit()
    ensures
        MAX_DATA + 28 == crate::aes::MAX_PLAINTEXT,
        crate::aes::MAX_PLAINTEXT == 68_719_476_704,
        crate::aes::MAX_CIPHERTEXT == crate::aes::MAX_PLAINTEXT + 16,
{
}

/// A listener that has its address starts; then it handles every connection that it accepts, stops
/// without an error when it is cancelled, and with one when accepting fails.
pub proof fn law_listener_handles_what_it_accepts(
    has_local_addr: bool,
    started: Result<(), TcpNetworkerErrors>,
    event: ListenEvent,
    step: ListenStep,
)
    requires
        call_ensures(recv_start, (has_local_addr,), started),
        call_ensures(recv, (event,), step),
    ensures
        started is Ok <==> has_local_addr,
        !has_local_addr ==> started == Err::<(), TcpNetworkerErrors>(
            TcpNetworkerErrors::FailedToGetLocalAddr,
        ),
        match event {
            ListenEvent::Accepted(peer) => step == ListenStep::Handle(peer),
            ListenEvent::Cancelled => step == ListenStep::Stop(Ok(())),
            ListenEvent::AcceptFailed => step == ListenStep::Stop(
                Err(TcpNetworkerErrors::FailedToAcceptConnection),
            ),
        },
{
}

/// A connection is handled where it was made; a cancellation is no error, a failed request is one.
pub proof fn law_connection_is_handled_where_it_was_made(
    event: DialEvent,
    r: Result<bool, TcpNetworkerErrors>,
)
    requires
        call_ensures(connect, (event,), r),
    ensures
        event is Connected <==> r == Ok::<bool, TcpNetworkerErrors>(true),
        event is Cancelled ==> r == Ok::<bool, TcpNetworkerErrors>(false),
        event is ConnectFailed ==> r == Err::<bool, TcpNetworkerErrors>(
            TcpNetworkerErrors::FailedToConnect,
        ),
{
}

/// For a receiver only a breakdown is an error: neither data nor a refused peer is.
pub proof fn law_only_breakdowns_are_errors(
    verdict: RecvVerdict,
    r: Result<(), TcpNetworkerErrors>,
)
    requires
        call_ensures(RecvVerdict::into_result, (verdict,), r),
    ensures
        match verdict@ {
            RecvVerdictView::Failed(e) => r == Err::<(), TcpNetworkerErrors>(e),
            _ => r is Ok,
        },
{
}

} // verus!
