use sstun::flow::{
    dns_listen_address, plan_flow, relay_call, resolve_address, FlowKind, IpAddress, RelayCall,
    ResolvedAddress, SocketAddress, RESOLVER_CACHE_SIZE,
};

fn v4(a: u8, b: u8, c: u8, d: u8, port: u16) -> SocketAddress {
    SocketAddress { ip: IpAddress::V4(u32::from_be_bytes([a, b, c, d])), port }
}

#[test]
fn stream_flow_with_mapping_connects_to_domain() {
    let local = v4(10, 0, 0, 5, 443);
    let call = plan_flow(FlowKind::Stream, local, Some("example.com".to_string()));
    assert_eq!(call, RelayCall::Connect(ResolvedAddress::DomainName("example.com".to_string(), 443)));
}

#[test]
fn datagram_flow_without_mapping_keeps_address() {
    let local = v4(10, 0, 0, 9, 53);
    let call = plan_flow(FlowKind::Datagram, local, None);
    assert_eq!(call, RelayCall::Packets(ResolvedAddress::Socket(local)));
    match call {
        RelayCall::Packets(ResolvedAddress::Socket(a)) => {
            assert_eq!(a.ip, IpAddress::V4(0x0a000009));
            assert_eq!(a.port, 53);
        }
        _ => panic!("wrong relay call"),
    }
}

#[test]
fn resolve_uses_flow_port_with_domain() {
    let r = resolve_address(v4(198, 18, 0, 1, 8080), Some("a.test".to_string()));
    assert_eq!(r, ResolvedAddress::DomainName("a.test".to_string(), 8080));
    assert_eq!(r.port(), 8080);
}

#[test]
fn resolve_falls_back_for_ipv6() {
    let local = SocketAddress { ip: IpAddress::V6(1), port: 22 };
    let r = resolve_address(local, None);
    assert_eq!(r, ResolvedAddress::Socket(local));
    assert_eq!(r.port(), 22);
}

#[test]
fn relay_call_follows_kind() {
    let dest = ResolvedAddress::Socket(v4(1, 2, 3, 4, 5));
    assert_eq!(relay_call(FlowKind::Stream, dest.clone()), RelayCall::Connect(dest.clone()));
    assert_eq!(relay_call(FlowKind::Datagram, dest.clone()), RelayCall::Packets(dest));
}

#[test]
fn dns_listens_on_all_interfaces_port_53() {
    assert_eq!(dns_listen_address(), SocketAddress { ip: IpAddress::V4(0), port: 53 });
    assert_eq!(RESOLVER_CACHE_SIZE, 1024);
}
