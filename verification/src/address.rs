//! Peer addresses.

use crate::bytes::same_bytes;
use vstd::prelude::*;

verus! {

/// The address and port of a peer.
#[derive(Debug, Clone, Copy, PartialEq, Eq)]
pub enum PeerAddr {
    V4 { ip4: [u8; 4], port: u16 },
    V6 { ip6: [u8; 16], port: u16, flowinfo: u32, scope_id: u32 },
}

impl PeerAddr {
    /// The octets of the IP address: 4 of an IPv4 address, 16 of an IPv6 address.
    pub open spec fn ip(self) -> Seq<u8> {
        match self {
            PeerAddr::V4 { ip4, .. } => ip4@,
            PeerAddr::V6 { ip6, .. } => ip6@,
        }
    }

    /// The port.
    pub open spec fn port(self) -> u16 {
        match self {
            PeerAddr::V4 { port, .. } => port,
            PeerAddr::V6 { port, .. } => port,
        }
    }

    /// Whether the two addresses have the same IP address, whatever their ports.
    pub fn same_ip(&self, other: &PeerAddr) -> (same: bool)
        ensures
            same == (self.ip() == other.ip()),
    {
        match (self, other) {
            (PeerAddr::V4 { ip4: a, .. }, PeerAddr::V4 { ip4: b, .. }) => same_bytes(a, b),
            (PeerAddr::V6 { ip6: a, .. }, PeerAddr::V6 { ip6: b, .. }) => same_bytes(a, b),
            _ => {
                assert(self.ip().len() != other.ip().len());
                false
            },
        }
    }

    /// Whether the two are the same address, port and all.
    pub fn same(&self, other: &PeerAddr) -> (same: bool)
        ensures
            same == (*self == *other),
    {
        match (self, other) {
            (PeerAddr::V4 { ip4: a, port: p }, PeerAddr::V4 { ip4: b, port: q }) => {
                let same = same_bytes(a, b);
                proof {
                    if same {
                        assert forall|i: int| 0 <= i < 4 implies a[i] == b[i] by {
                            assert(a@[i] == b@[i]);
                        }
                        assert(*a =~= *b);
                    }
                }
                same && *p == *q
            },
            (
                PeerAddr::V6 { ip6: a, port: p, flowinfo: f, scope_id: s },
                PeerAddr::V6 { ip6: b, port: q, flowinfo: g, scope_id: t },
            ) => {
                let same = same_bytes(a, b);
                proof {
                    if same {
                        assert forall|i: int| 0 <= i < 16 implies a[i] == b[i] by {
                            assert(a@[i] == b@[i]);
                        }
                        assert(*a =~= *b);
                    }
                }
                same && *p == *q && *f == *g && *s == *t
            },
            _ => false,
        }
    }
}

/// Whether `addr` is the IPv4 address with these octets, at port 0.
pub open spec fn is_v4(addr: PeerAddr, octets: Seq<u8>) -> bool {
    match addr {
        PeerAddr::V4 { ip4, port } => ip4@ == octets && port == 0,
        _ => false,
    }
}

/// The IPv4 address with these octets, at port 0.
pub open spec fn v4_addr(octets: Seq<u8>) -> PeerAddr {
    choose|addr: PeerAddr| is_v4(addr, octets)
}

/// There is one IPv4 address with given octets at port 0.
pub proof fn lemma_v4_addr(addr: PeerAddr, octets: Seq<u8>)
    requires
        is_v4(addr, octets),
    ensures
        addr == v4_addr(octets),
{
    let chosen = v4_addr(octets);
    assert(is_v4(chosen, octets));
    match (addr, chosen) {
        (PeerAddr::V4 { ip4: a, .. }, PeerAddr::V4 { ip4: b, .. }) => {
            assert forall|i: int| 0 <= i < 4 implies a[i] == b[i] by {
                assert(a@[i] == b@[i]);
            }
            assert(a =~= b);
        },
        _ => {},
    }
}

/// The IPv4 octets of an address: its own, or those of the IPv4 address that an IPv6 address maps;
/// zeros of any other.
pub open spec fn ipv4_octets(addr: PeerAddr) -> Seq<u8> {
    match addr {
        PeerAddr::V4 { ip4, .. } => ip4@,
        PeerAddr::V6 { ip6, .. } => if is_mapped(ip6@) {
            ip6@.subrange(12, 16)
        } else {
            seq![0u8, 0u8, 0u8, 0u8]
        },
    }
}

/// Whether an IPv6 address maps an IPv4 address: ten zero octets, then two of all ones.
pub open spec fn is_mapped(ip6: Seq<u8>) -> bool {
    (forall|i: int| 0 <= i < 10 ==> ip6[i] == 0) && ip6[10] == 0xff && ip6[11] == 0xff
}

/// The octets of an IPv4 address come back out of it.
pub proof fn law_octets_round_trip(addr: PeerAddr, octets: Seq<u8>)
    requires
        is_v4(addr, octets),
    ensures
        v4_addr(octets) == addr,
        ipv4_octets(v4_addr(octets)) == octets,
{
    lemma_v4_addr(addr, octets);
}

/// Whether the list holds an address with the IP address of `peer`.
pub open spec fn trusts(trusted: Seq<PeerAddr>, peer: PeerAddr) -> bool {
    exists|i: int| 0 <= i < trusted.len() && (#[trigger] trusted[i]).ip() == peer.ip()
}

/// The trusted are the listed: a peer with the IP address of an entry is trusted, at whatever place
/// the entry stands, and one that has the IP address of no entry is not.
pub proof fn law_trusted_are_the_listed(trusted: Seq<PeerAddr>, peer: PeerAddr)
    ensures
        forall|i: int|
            0 <= i < trusted.len() && (#[trigger] trusted[i]).ip() == peer.ip() ==> trusts(
                trusted,
                peer,
            ),
        (forall|i: int| 0 <= i < trusted.len() ==> (#[trigger] trusted[i]).ip() != peer.ip())
            ==> !trusts(trusted, peer),
{
}

/// Trust only grows with the list: whoever is trusted stays so when addresses are added, before or
/// after those that are there, and an added address is trusted itself.
pub proof fn law_adding_keeps_trust(
    before: Seq<PeerAddr>,
    trusted: Seq<PeerAddr>,
    after: Seq<PeerAddr>,
    added: PeerAddr,
    peer: PeerAddr,
)
    ensures
        trusts(trusted, peer) ==> trusts(before + trusted + after, peer),
        trusts(trusted, peer) ==> trusts(trusted.push(added), peer),
        trusts(trusted.push(added), added),
        !trusts(trusted, peer) && added.ip() != peer.ip() ==> !trusts(trusted.push(added), peer),
{
    let wider = before + trusted + after;
    assert forall|i: int| 0 <= i < trusted.len() && (#[trigger] trusted[i]).ip()
        == peer.ip() implies trusts(wider, peer) && trusts(trusted.push(added), peer) by {
        assert(wider[before.len() + i] == trusted[i]);
        assert(trusted.push(added)[i] == trusted[i]);
    }
    assert(trusted.push(added)[trusted.len() as int] == added);
    if !trusts(trusted, peer) && added.ip() != peer.ip() {
        assert forall|i: int| 0 <= i < trusted.push(added).len() implies (
        #[trigger] trusted.push(added)[i]).ip() != peer.ip() by {
            assert(i < trusted.len() ==> trusted.push(added)[i] == trusted[i]);
        }
    }
}

/// Ports do not matter to trust, and every octet does: two peers have the same IP address exactly
/// where both are of one family and agree in each octet.
pub proof fn law_same_ip_is_every_octet(a: PeerAddr, b: PeerAddr)
    ensures
        a.ip() == b.ip() <==> match (a, b) {
            (PeerAddr::V4 { ip4: x, .. }, PeerAddr::V4 { ip4: y, .. }) => forall|i: int|
                0 <= i < 4 ==> x@[i] == y@[i],
            (PeerAddr::V6 { ip6: x, .. }, PeerAddr::V6 { ip6: y, .. }) => forall|i: int|
                0 <= i < 16 ==> x@[i] == y@[i],
            _ => false,
        },
{
    match (a, b) {
        (PeerAddr::V4 { ip4: x, .. }, PeerAddr::V4 { ip4: y, .. }) => {
            if forall|i: int| 0 <= i < 4 ==> x@[i] == y@[i] {
                assert(x@ =~= y@);
            }
        },
        (PeerAddr::V6 { ip6: x, .. }, PeerAddr::V6 { ip6: y, .. }) => {
            if forall|i: int| 0 <= i < 16 ==> x@[i] == y@[i] {
                assert(x@ =~= y@);
            }
        },
        _ => {
            assert(a.ip().len() != b.ip().len());
        },
    }
}

/// Whether the IP address of `peer` is on the list of trusted addresses. Ports do not matter.
pub fn is_trusted(trusted: &[PeerAddr], peer: &PeerAddr) -> (known: bool)
    ensures
        known == trusts(trusted@, *peer),
{
    let mut i: usize = 0;
    while i < trusted.len()
        invariant
            i <= trusted@.len(),
            forall|j: int| 0 <= j < i ==> (#[trigger] trusted@[j]).ip() != peer.ip(),
        decreases trusted@.len() - i,
    {
        if trusted[i].same_ip(peer) {
            return true;
        }
        i = i + 1;
    }
    false
}

/// Four octets make an IPv4 address: each octet in its place, at port 0.
pub proof fn law_v4_addr_has_the_octets(octets: Seq<u8>)
    requires
        octets.len() == 4,
    ensures
        match v4_addr(octets) {
            PeerAddr::V4 { ip4, port } => {
                &&& ip4@[0] == octets[0]
                &&& ip4@[1] == octets[1]
                &&& ip4@[2] == octets[2]
                &&& ip4@[3] == octets[3]
                &&& port == 0
            },
            PeerAddr::V6 { .. } => false,
        },
{
    let ip4: [u8; 4] = [octets[0], octets[1], octets[2], octets[3]];
    assert(ip4@ =~= octets);
    let addr = PeerAddr::V4 { ip4, port: 0 };
    assert(is_v4(addr, octets));
    lemma_v4_addr(addr, octets);
}

/// The IPv4 octets of an address, whatever its port: an IPv4 address has its own, an IPv6 address
/// that maps one has that one's, any other has zeros.
pub proof fn law_ipv4_octets(addr: PeerAddr, i: int)
    requires
        0 <= i < 4,
    ensures
        ipv4_octets(addr).len() == 4,
        match addr {
            PeerAddr::V4 { ip4, .. } => ipv4_octets(addr)[i] == ip4@[i],
            PeerAddr::V6 { ip6, .. } => if ip6@.subrange(0, 12) == seq![
                0u8,
                0u8,
                0u8,
                0u8,
                0u8,
                0u8,
                0u8,
                0u8,
                0u8,
                0u8,
                0xffu8,
                0xffu8,
            ] {
                ipv4_octets(addr)[i] == ip6@[12 + i]
            } else {
                ipv4_octets(addr)[i] == 0
            },
        },
{
    if let PeerAddr::V6 { ip6, .. } = addr {
        let prefix = seq![
            0u8,
            0u8,
            0u8,
            0u8,
            0u8,
            0u8,
            0u8,
            0u8,
            0u8,
            0u8,
            0xffu8,
            0xffu8,
        ];
        if is_mapped(ip6@) {
            assert(ip6@.subrange(0, 12) =~= prefix);
        } else if ip6@.subrange(0, 12) == prefix {
            assert forall|j: int| 0 <= j < 10 implies ip6@[j] == 0 by {
                assert(ip6@.subrange(0, 12)[j] == prefix[j]);
            }
            assert(ip6@.subrange(0, 12)[10] == prefix[10]);
            assert(ip6@.subrange(0, 12)[11] == prefix[11]);
        }
    }
}

} // verus!
