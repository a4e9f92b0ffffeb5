use vstd::prelude::*;

verus! {

/// An IP address as the interface reports it: IPv4 as its 32-bit value,
/// IPv6 as its 128-bit value, both in network (big-endian) order of digits.
#[derive(Clone, Copy, Debug, PartialEq, Eq, Structural)]
pub enum IpAddress {
    V4(u32),
    V6(u128),
}

/// An IP address and port.
#[derive(Clone, Copy, Debug, PartialEq, Eq, Structural)]
pub struct SocketAddress {
    pub ip: IpAddress,
    pub port: u16,
}

/// Where a flow is relayed to: a domain name with a port, when the DNS
/// authority handed out the flow's local address for that name, else the
/// raw address itself.
#[derive(Clone, Debug, PartialEq, Eq)]
pub enum ResolvedAddress {
    DomainName(String, u16),
    Socket(SocketAddress),
}

/// The two kinds of flow that the interface yields.
#[derive(Clone, Copy, Debug, PartialEq, Eq, Structural)]
pub enum FlowKind {
    /// Stream flows are split into read and write halves for the relay.
    Stream,
    /// Datagram flows are handed to the relay whole.
    Datagram,
}

/// The relay entry point that a flow is handed to, with its destination.
#[derive(Clone, Debug, PartialEq, Eq)]
pub enum RelayCall {
    /// `handle_connect` with the two halves of a stream flow.
    Connect(ResolvedAddress),
    /// `handle_packets` with a datagram flow.
    Packets(ResolvedAddress),
}

/// Port of the local DNS authority.
pub const DNS_PORT: u16 = 53;

/// Entries the resolver client caches.
pub const RESOLVER_CACHE_SIZE: usize = 1024;

/// The address the DNS authority listens on: all interfaces, the DNS port.
pub fn dns_listen_address() -> (r: SocketAddress)
    ensures
        r == (SocketAddress { ip: IpAddress::V4(0), port: DNS_PORT }),
{
    SocketAddress { ip: IpAddress::V4(0), port: DNS_PORT }
}

pub open spec fn resolve_spec(local: SocketAddress, lookup: Option<String>) -> ResolvedAddress {
    match lookup {
        Some(domain) => ResolvedAddress::DomainName(domain, local.port),
        None => ResolvedAddress::Socket(local),
    }
}

pub open spec fn relay_call_spec(kind: FlowKind, dest: ResolvedAddress) -> RelayCall {
    match kind {
        FlowKind::Stream => RelayCall::Connect(dest),
        FlowKind::Datagram => RelayCall::Packets(dest),
    }
}

/// The destination of a flow whose local address is `local`, given what the
/// authority's reverse lookup of its IP gave: a domain keeps the flow's port,
/// a miss falls back to the address unchanged.
pub fn resolve_address(local: SocketAddress, lookup: Option<String>) -> (r: ResolvedAddress)
    ensures
        r == resolve_spec(local, lookup),
{
    match lookup {
        Some(domain) => ResolvedAddress::DomainName(domain, local.port),
        None => ResolvedAddress::Socket(local),
    }
}

/// The relay entry point for a flow of this kind.
pub fn relay_call(kind: FlowKind, dest: ResolvedAddress) -> (r: RelayCall)
    ensures
        r == relay_call_spec(kind, dest),
{
    match kind {
        FlowKind::Stream => RelayCall::Connect(dest),
        FlowKind::Datagram => RelayCall::Packets(dest),
    }
}

/// What a flow task does once the lookup of its local IP has come back.
pub fn plan_flow(kind: FlowKind, local: SocketAddress, lookup: Option<String>) -> (r: RelayCall)
    ensures
        r == relay_call_spec(kind, resolve_spec(local, lookup)),
{
    let dest = resolve_address(local, lookup);
    relay_call(kind, dest)
}

impl ResolvedAddress {
    /// The port the relay connects to.
    pub fn port(&self) -> (r: u16)
        ensures
            r == match *self {
                ResolvedAddress::DomainName(_, p) => p,
                ResolvedAddress::Socket(a) => a.port,
            },
    {
        match self {
            ResolvedAddress::DomainName(_, p) => *p,
            ResolvedAddress::Socket(a) => a.port,
        }
    }
}

/// A mapping found by the authority gives the domain with the flow's port; no
/// mapping gives the flow's own address with IP and port unchanged.
pub proof fn lemma_resolution(local: SocketAddress, lookup: Option<String>)
    ensures
        lookup is Some ==> resolve_spec(local, lookup) == ResolvedAddress::DomainName(
            lookup->Some_0,
            local.port,
        ),
        lookup is None ==> resolve_spec(local, lookup) == ResolvedAddress::Socket(local),
{
}

} // verus!
