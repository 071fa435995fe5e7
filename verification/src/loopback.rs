//! Both ends of a connection, run against each other in memory.
//!
//! What the two ends promise one by one adds up here to what they promise together.

use crate::address::PeerAddr;
use crate::auth::{AuthErrors, Incoming, Keys, Outgoing, OutgoingView, Verdict, VerdictView};
use crate::exchange::{Event, Turn};
use crate::tcp_networker::{
    ActionType, Connect, ConnectNonces, ConnectVerdict, ConnectView, Outbound, Recv, RecvVerdict,
    RecvVerdictView, RecvView, TcpNetworkerErrors,
};
use vstd::prelude::*;

verus! {

/// The randomness of a handshake: an ephemeral private key of each end, and the nonces of the three
/// encrypted messages.
#[derive(Clone, Copy)]
pub struct HandshakeRandomness {
    pub client_private_key: [u8; 32],
    pub server_private_key: [u8; 32],
    pub proof_nonce: [u8; 12],
    pub echo_nonce: [u8; 12],
    pub confirmation_nonce: [u8; 12],
}

/// Runs a handshake between a client and a server that trust each other's address, and returns how
/// it ended for either. An end that stops leaves the other with a stream that is closed.
///
/// Where both hold the same authentication key, both accept, with the same session key. Where they
/// do not, neither accepts: the server refuses, and the client learns that the stream is closed.
pub fn handshake(
    client: &Keys,
    server: &Keys,
    client_addr: PeerAddr,
    server_addr: PeerAddr,
    random: &HandshakeRandomness,
) -> (ends: (Verdict, Verdict))
    ensures
        ({
            let client_public = crate::x25519_cesa::x25519_public(random.client_private_key@);
            let server_public = crate::x25519_cesa::x25519_public(random.server_private_key@);
            let session = crate::x25519_cesa::session_key(
                random.client_private_key@,
                server_public,
            );
            if client.a_key@ == server.a_key@ {
                &&& ends.0@ == VerdictView::Accepted(session)
                &&& ends.1@ == VerdictView::Accepted(session)
                &&& session == crate::x25519_cesa::session_key(
                    random.server_private_key@,
                    client_public,
                )
            } else {
                &&& ends.0@ == VerdictView::Failed(AuthErrors::FailedToReadFromStream)
                &&& ends.1@ == VerdictView::Refused
            }
        }),
{
    let server_list: [PeerAddr; 1] = [server_addr];
    let client_list: [PeerAddr; 1] = [client_addr];
    assert(server_list@[0].ip() == server_addr.ip());
    assert(client_list@[0].ip() == client_addr.ip());

    let (c, client_key) = match Outgoing::begin_with(
        &server_list,
        &server_addr,
        random.client_private_key,
    ) {
        Turn::Write(then, bytes) => (then, bytes),
        _ => return (Verdict::Refused, Verdict::Refused),
    };
    let c = match c.advance_with(Event::Written, client, None) {
        Turn::Read(then, _) => then,
        _ => return (Verdict::Refused, Verdict::Refused),
    };
    let s = match Incoming::begin(&client_list, &client_addr) {
        Turn::Read(then, _) => then,
        _ => return (Verdict::Refused, Verdict::Refused),
    };
    let (s, server_key) = match s.advance_with(
        Event::Read(client_key),
        server,
        random.server_private_key,
        None,
    ) {
        Turn::Write(then, bytes) => (then, bytes),
        _ => return (Verdict::Refused, Verdict::Refused),
    };
    let s = match s.advance_with(Event::Written, server, [0u8; 32], None) {
        Turn::Read(then, _) => then,
        _ => return (Verdict::Refused, Verdict::Refused),
    };
    let (c, proof) = match c.advance_with(
        Event::Read(server_key),
        client,
        Some(random.proof_nonce),
    ) {
        Turn::Write(then, bytes) => (then, bytes),
        _ => return (Verdict::Refused, Verdict::Refused),
    };
    let c = match c.advance_with(Event::Written, client, None) {
        Turn::Read(then, _) => then,
        _ => return (Verdict::Refused, Verdict::Refused),
    };
    let (s, echo) = match s.advance_with(
        Event::Read(proof),
        server,
        [0u8; 32],
        Some(random.echo_nonce),
    ) {
        Turn::Write(then, bytes) => (then, bytes),
        Turn::Finish(verdict) => {
            return (client_closed(c, client), verdict);
        },
        _ => return (Verdict::Refused, Verdict::Refused),
    };
    let s = match s.advance_with(Event::Written, server, [0u8; 32], None) {
        Turn::Read(then, _) => then,
        _ => return (Verdict::Refused, Verdict::Refused),
    };
    let (c, confirmation) = match c.advance_with(
        Event::Read(echo),
        client,
        Some(random.confirmation_nonce),
    ) {
        Turn::Write(then, bytes) => (then, bytes),
        _ => return (Verdict::Refused, Verdict::Refused),
    };
    match (
        c.advance_with(Event::Written, client, None),
        s.advance_with(Event::Read(confirmation), server, [0u8; 32], None),
    ) {
        (Turn::Finish(client_end), Turn::Finish(server_end)) => (client_end, server_end),
        _ => (Verdict::Refused, Verdict::Refused),
    }
}

/// How a client that waits for the server ends when the stream is closed.
fn client_closed(client: Outgoing, keys: &Keys) -> (verdict: Verdict)
    requires
        client@ is TheirKey || client@ is Echo,
    ensures
        verdict@ == VerdictView::Failed(AuthErrors::FailedToReadFromStream),
{
    match client.advance_with(Event::Failed, keys, None) {
        Turn::Finish(verdict) => verdict,
        _ => Verdict::Refused,
    }
}

/// Runs a whole connection between two ends that trust each other's address, and returns how it
/// ended for either. `packet_nonces` are those of the packet's two layers and of the header.
///
/// Without a common authentication key nothing is sent: the receiver refuses, and the sender
/// reports that it could not authenticate. With one, a new device is registered, or the data is
/// sent; a receiver with the same data key then holds the sender's action and data, and one with
/// another data key at most finds that it cannot decrypt them.
pub fn transfer(
    sender: &Keys,
    receiver: &Keys,
    sender_addr: PeerAddr,
    job: &Outbound,
    random: &HandshakeRandomness,
    packet_nonces: [[u8; 12]; 3],
) -> (ends: (ConnectVerdict, RecvVerdict))
    ensures
        ({
            if sender.a_key@ != receiver.a_key@ {
                &&& ends.0 == ConnectVerdict::Failed(TcpNetworkerErrors::FailedToAuthenticate)
                &&& ends.1@ == RecvVerdictView::Refused
            } else if job.action_type == ActionType::ConnectNewDevice {
                &&& ends.0 == ConnectVerdict::Registered(job.connect_addr)
                &&& ends.1@ == RecvVerdictView::Failed(TcpNetworkerErrors::FailedToReadFromStream)
            } else if job.data@.len() > crate::tcp_networker::MAX_DATA {
                &&& ends.0 == ConnectVerdict::Failed(TcpNetworkerErrors::FailedToEncryptTunnel)
                &&& ends.1@ == RecvVerdictView::Failed(TcpNetworkerErrors::FailedToReadFromStream)
            } else {
                &&& ends.0 == ConnectVerdict::Sent
                &&& sender.d_key@ == receiver.d_key@ ==> ends.1@ == RecvVerdictView::Received(
                    job.action_type,
                    job.data@,
                )
                &&& match ends.1@ {
                    RecvVerdictView::Received(action, _) => action == job.action_type,
                    RecvVerdictView::Refused => false,
                    RecvVerdictView::Failed(e) => e == TcpNetworkerErrors::FailedToDecryptTunnel,
                }
            }
        }),
{
    let broken: (ConnectVerdict, RecvVerdict) = (ConnectVerdict::Refused, RecvVerdict::Refused);
    let none = ConnectNonces { auth: None, inner: None, outer: None, header: None };
    let receiver_list: [PeerAddr; 1] = [job.connect_addr];
    let sender_list: [PeerAddr; 1] = [sender_addr];
    assert(receiver_list@[0].ip() == job.connect_addr.ip());
    assert(sender_list@[0].ip() == sender_addr.ip());

    let (c, sender_key) = match Connect::begin_with(
        &receiver_list,
        job,
        random.client_private_key,
    ) {
        Turn::Write(then, bytes) => (then, bytes),
        _ => return broken,
    };
    let c = match c.advance_with(Event::Written, sender, job, &none) {
        Turn::Read(then, _) => then,
        _ => return broken,
    };
    let s = match Recv::begin(&sender_list, &sender_addr) {
        Turn::Read(then, _) => then,
        _ => return broken,
    };
    let (s, receiver_key) = match s.advance_with(
        Event::Read(sender_key),
        receiver,
        random.server_private_key,
        None,
    ) {
        Turn::Write(then, bytes) => (then, bytes),
        _ => return broken,
    };
    let s = match s.advance_with(Event::Written, receiver, [0u8; 32], None) {
        Turn::Read(then, _) => then,
        _ => return broken,
    };
    let (c, proof) = match c.advance_with(
        Event::Read(receiver_key),
        sender,
        job,
        &ConnectNonces { auth: Some(random.proof_nonce), ..none },
    ) {
        Turn::Write(then, bytes) => (then, bytes),
        _ => return broken,
    };
    let c = match c.advance_with(Event::Written, sender, job, &none) {
        Turn::Read(then, _) => then,
        _ => return broken,
    };
    let (s, echo) = match s.advance_with(
        Event::Read(proof),
        receiver,
        [0u8; 32],
        Some(random.echo_nonce),
    ) {
        Turn::Write(then, bytes) => (then, bytes),
        Turn::Finish(verdict) => {
            return (sender_closed(c, sender, job), verdict);
        },
        _ => return broken,
    };
    let s = match s.advance_with(Event::Written, receiver, [0u8; 32], None) {
        Turn::Read(then, _) => then,
        _ => return broken,
    };
    let (c, confirmation) = match c.advance_with(
        Event::Read(echo),
        sender,
        job,
        &ConnectNonces { auth: Some(random.confirmation_nonce), ..none },
    ) {
        Turn::Write(then, bytes) => (then, bytes),
        _ => return broken,
    };
    let s = match s.advance_with(Event::Read(confirmation), receiver, [0u8; 32], None) {
        Turn::Read(then, _) => then,
        _ => return broken,
    };
    deliver(c, s, sender, receiver, job, packet_nonces)
}

/// How a sender that waits for the receiver ends when the stream is closed.
fn sender_closed(sender: Connect, keys: &Keys, job: &Outbound) -> (verdict: ConnectVerdict)
    requires
        match sender@ {
            ConnectView::Auth(OutgoingView::TheirKey(_)) => true,
            ConnectView::Auth(OutgoingView::Echo(_)) => true,
            _ => false,
        },
    ensures
        verdict == ConnectVerdict::Failed(TcpNetworkerErrors::FailedToAuthenticate),
{
    let none = ConnectNonces { auth: None, inner: None, outer: None, header: None };
    match sender.advance_with(Event::Failed, keys, job, &none) {
        Turn::Finish(verdict) => verdict,
        _ => ConnectVerdict::Refused,
    }
}

/// Runs the rest of a connection from where the sender has confirmed and the receiver waits for the
/// header.
fn deliver(
    sender: Connect,
    receiver: Recv,
    sender_keys: &Keys,
    receiver_keys: &Keys,
    job: &Outbound,
    packet_nonces: [[u8; 12]; 3],
) -> (ends: (ConnectVerdict, RecvVerdict))
    requires
        match (sender@, receiver@) {
            (
                ConnectView::Auth(OutgoingView::Confirmation(ours, verified)),
                RecvView::Header(theirs),
            ) => verified && ours == theirs,
            _ => false,
        },
    ensures
        if job.action_type == ActionType::ConnectNewDevice {
            &&& ends.0 == ConnectVerdict::Registered(job.connect_addr)
            &&& ends.1@ == RecvVerdictView::Failed(TcpNetworkerErrors::FailedToReadFromStream)
        } else if job.data@.len() > crate::tcp_networker::MAX_DATA {
            &&& ends.0 == ConnectVerdict::Failed(TcpNetworkerErrors::FailedToEncryptTunnel)
            &&& ends.1@ == RecvVerdictView::Failed(TcpNetworkerErrors::FailedToReadFromStream)
        } else {
            &&& ends.0 == ConnectVerdict::Sent
            &&& sender_keys.d_key@ == receiver_keys.d_key@ ==> ends.1@
                == RecvVerdictView::Received(job.action_type, job.data@)
            &&& match ends.1@ {
                RecvVerdictView::Received(action, _) => action == job.action_type,
                RecvVerdictView::Refused => false,
                RecvVerdictView::Failed(e) => e == TcpNetworkerErrors::FailedToDecryptTunnel,
            }
        },
{
    let broken: (ConnectVerdict, RecvVerdict) = (ConnectVerdict::Refused, RecvVerdict::Refused);
    let none = ConnectNonces { auth: None, inner: None, outer: None, header: None };
    let (c, header) = match sender.advance_with(
        Event::Written,
        sender_keys,
        job,
        &ConnectNonces {
            auth: None,
            inner: Some(packet_nonces[0]),
            outer: Some(packet_nonces[1]),
            header: Some(packet_nonces[2]),
        },
    ) {
        Turn::Write(then, bytes) => (then, bytes),
        Turn::Finish(verdict) => {
            return match receiver.advance_with(Event::Failed, receiver_keys, [0u8; 32], None) {
                Turn::Finish(end) => (verdict, end),
                _ => broken,
            };
        },
        _ => return broken,
    };
    let ghost size = (job.data@.len() + 56) as u64;
    proof {
        crate::tcp_networker::law_header_round_trip(job.action_type, size);
    }
    let (c, packet) = match c.advance_with(Event::Written, sender_keys, job, &none) {
        Turn::Write(then, bytes) => (then, bytes),
        _ => return broken,
    };
    assert(size as usize == packet.len());
    let s = match receiver.advance_with(Event::Read(header), receiver_keys, [0u8; 32], None) {
        Turn::Read(then, _) => then,
        _ => return broken,
    };
    match (
        c.advance_with(Event::Written, sender_keys, job, &none),
        s.advance_with(Event::Read(packet), receiver_keys, [0u8; 32], None),
    ) {
        (Turn::Finish(client_end), Turn::Finish(server_end)) => (client_end, server_end),
        _ => broken,
    }
}

} // verus!
