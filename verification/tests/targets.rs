use std::sync::Arc;

use gel_protocol::target::{
    Host, IpAddr, MaybeResolvedTarget, ResolvedTarget, ServerName, SocketAddr, Target,
    TargetName, Transport, UnixSocketAddr, ResolvedTargetInner,
};

fn tcp(host: &str, port: u16) -> MaybeResolvedTarget {
    MaybeResolvedTarget::from_host(host, port)
}

#[test]
fn test_target() {
    let target: Target<()> = Target::new_tcp(tcp("localhost", 5432));
    assert_eq!(target.name(), Some(ServerName::DnsName("localhost".to_string())));
}

#[test]
fn names_of_targets() {
    let t: Target<()> = Target::new_tcp(tcp("127.0.0.1", 5432));
    assert_eq!(t.name(), Some(ServerName::IpAddress(IpAddr::V4(0x7f000001))));
    assert_eq!(t.host(), Some(Host::Ip(IpAddr::V4(0x7f000001))));
    assert_eq!(t.tcp(), Some((Host::Ip(IpAddr::V4(0x7f000001)), 5432)));
    let t: Target<()> = Target::new_tcp(tcp("not a host name!", 1));
    assert_eq!(t.name(), None);
    assert_eq!(t.host(), Some(Host::Name("not a host name!")));
    let n = TargetName::new_tcp(tcp("::1", 5432));
    assert_eq!(n.host(), Some(Host::Ip(IpAddr::V6(1))));
    let u = TargetName::from_resolved(ResolvedTarget::UnixSocketAddr(UnixSocketAddr::Pathname(
        "/tmp/test.sock".into(),
    )));
    assert_eq!(u.name(), None);
    assert_eq!(u.port(), None);
    assert!(!u.is_tcp());
    assert_eq!(u.path(), Some(&b"/tmp/test.sock"[..]));
}

#[test]
fn ports_are_set_and_returned() {
    let mut n = TargetName::new_tcp(tcp("localhost", 5432));
    assert!(n.is_tcp());
    assert_eq!(n.try_set_port(6000), Some(5432));
    assert_eq!(n.port(), Some(6000));
    let mut t: Target<u8> = Target::new_tcp_tls(tcp("10.0.0.1", 1), 9);
    assert_eq!(t.try_set_port(2), Some(1));
    assert_eq!(t.port(), Some(2));
    assert_eq!(t.maybe_ssl(), Some(&9));
    let mut u: Target<u8> = Target::new_resolved(ResolvedTarget::UnixSocketAddr(
        UnixSocketAddr::Abstract(b"test".to_vec()),
    ));
    assert_eq!(u.try_set_port(2), None);
    assert_eq!(u.port(), None);
}

#[test]
fn tls_is_set_and_removed() {
    let mut t: Target<u8> = Target::new_tcp(tcp("localhost", 5432));
    assert_eq!(t.try_set_tls(1), Some(None));
    assert_eq!(t.maybe_ssl(), Some(&1));
    assert_eq!(t.try_set_tls(2), Some(Some(Arc::new(1))));
    assert!(!t.is_starttls());
    assert_eq!(t.try_remove_tls(), Some(Arc::new(2)));
    assert_eq!(t.try_remove_tls(), None);
    assert_eq!(t.maybe_ssl(), None);
    let mut s: Target<u8> = Target::new_tcp_starttls(tcp("localhost", 5432), 3);
    assert!(s.is_starttls());
    assert_eq!(s.try_set_tls(4), Some(Some(Arc::new(3))));
    assert!(s.is_starttls());
    let mut p: Target<u8> = Target::new_resolved(ResolvedTarget::UnixSocketAddr(
        UnixSocketAddr::Pathname("/tmp/x".into()),
    ));
    assert_eq!(p.try_set_tls(1), None);
    assert_eq!(p.maybe_ssl(), None);
    // no TLS on an abstract Unix socket either
    let mut a: Target<u8> = Target::new_resolved(ResolvedTarget::UnixSocketAddr(
        UnixSocketAddr::Abstract(b"test".to_vec()),
    ));
    assert_eq!(a.try_set_tls(1), None);
    assert_eq!(a.maybe_ssl(), None);
    assert!(!a.is_starttls());
}

#[test]
fn host_text_is_parsed_as_an_ip_address() {
    assert!(matches!(
        tcp("127.0.0.1", 5432),
        MaybeResolvedTarget::Resolved(ResolvedTarget::SocketAddr(SocketAddr::V4 {
            ip: 0x7f00_0001,
            port: 5432
        }))
    ));
    assert!(matches!(
        tcp("localhost", 5432),
        MaybeResolvedTarget::Unresolved(h, 5432, None) if h == "localhost"
    ));
    assert_eq!(
        tcp("fe80::1ff:fe23:4567:890a", 1).port(),
        Some(1)
    );
    assert_eq!(
        tcp("fe80::1ff:fe23:4567:890a", 1).host(),
        Some(Host::Ip(IpAddr::V6(0xfe80_0000_0000_0000_01ff_fe23_4567_890a)))
    );
    assert_eq!(tcp("localhost", 5432).host(), Some(Host::Name("localhost")));
    assert_eq!(tcp("300.1.1.1", 1).host(), Some(Host::Name("300.1.1.1")));
}

#[test]
fn resolved_targets() {
    let a = SocketAddr::new(IpAddr::V4(1), 80);
    assert_eq!(a.port(), 80);
    let r = ResolvedTarget::SocketAddr(a);
    assert!(r.is_tcp());
    assert_eq!(r.tcp(), Some(a));
    assert_eq!(r.transport(), Transport::Tcp);
    let u = ResolvedTarget::UnixSocketAddr(UnixSocketAddr::Unnamed);
    assert!(!u.is_tcp());
    assert_eq!(u.transport(), Transport::Unix);
    let m = MaybeResolvedTarget::from_socket_addr(a);
    assert_eq!(m.port(), Some(80));
    assert!(matches!(r.inner(), ResolvedTargetInner::SocketAddr(x) if x == a));
    let n = ResolvedTarget::UnixSocketAddr(UnixSocketAddr::Abstract(b"n".to_vec()));
    assert!(matches!(n.inner(), ResolvedTargetInner::UnixSocketAbstract(b) if b == b"n"));
}

#[test]
fn test_target_name() {
    let target = TargetName::new_tcp(tcp("localhost", 5432));
    assert_eq!(target.describe(), "localhost:5432");

    let target = TargetName::new_tcp(tcp("127.0.0.1", 5432));
    assert_eq!(target.describe(), "127.0.0.1:5432");

    let target = TargetName::new_tcp(tcp("::1", 5432));
    assert_eq!(target.describe(), "[::1]:5432");

    let ip = match tcp("fe80::1ff:fe23:4567:890a", 0).host() {
        Some(Host::Ip(IpAddr::V6(a))) => a,
        _ => panic!("not an IPv6 address"),
    };
    let target = TargetName::new_tcp(MaybeResolvedTarget::from_socket_addr(SocketAddr::V6 {
        ip,
        port: 5432,
        flowinfo: 0,
        scope_id: 2,
    }));
    assert_eq!(target.describe(), "[fe80::1ff:fe23:4567:890a%2]:5432");

    let target = TargetName::from_resolved(ResolvedTarget::UnixSocketAddr(
        UnixSocketAddr::Pathname("/tmp/test.sock".into()),
    ));
    assert_eq!(target.describe(), "/tmp/test.sock");

    let target = TargetName::from_resolved(ResolvedTarget::UnixSocketAddr(
        UnixSocketAddr::Abstract(b"test".to_vec()),
    ));
    assert_eq!(target.describe(), "@test");
}

#[test]
fn test_target_debug() {
    let target: Target<()> = Target::new_tcp(tcp("localhost", 5432));
    assert_eq!(target.describe(), "localhost:5432");

    let target: Target<()> = Target::new_tcp_tls(tcp("localhost", 5432), ());
    assert_eq!(target.describe(), "localhost:5432 (TLS)");

    let target: Target<()> = Target::new_tcp_starttls(tcp("localhost", 5432), ());
    assert_eq!(target.describe(), "localhost:5432 (STARTTLS)");

    let target: Target<()> = Target::new_tcp(tcp("127.0.0.1", 5432));
    assert_eq!(target.describe(), "127.0.0.1:5432");

    let target: Target<()> = Target::new_tcp(tcp("::1", 5432));
    assert_eq!(target.describe(), "[::1]:5432");

    let target: Target<()> = Target::new_resolved(ResolvedTarget::UnixSocketAddr(
        UnixSocketAddr::Pathname("/tmp/test.sock".into()),
    ));
    assert_eq!(target.describe(), "/tmp/test.sock");

    let target: Target<()> = Target::new_resolved(ResolvedTarget::UnixSocketAddr(
        UnixSocketAddr::Abstract(b"test".to_vec()),
    ));
    assert_eq!(target.describe(), "@test");
}

#[test]
fn host_and_interface_texts() {
    assert_eq!(Host::Ip(IpAddr::V4(0x0a00_0001)).text(), "10.0.0.1");
    assert_eq!(Host::Name("db").text(), "db");
    let t = MaybeResolvedTarget::Unresolved("db".to_string(), 1, Some("eth0".to_string()));
    assert_eq!(t.describe(), "db:1%eth0");
    let bad = MaybeResolvedTarget::Resolved(ResolvedTarget::UnixSocketAddr(UnixSocketAddr::Pathname(
        vec![b'/', b'f', 0xff],
    )));
    assert_eq!(bad.describe(), "/f\u{FFFD}");
    assert_eq!(
        MaybeResolvedTarget::Resolved(ResolvedTarget::UnixSocketAddr(UnixSocketAddr::Unnamed))
            .describe(),
        ""
    );
}
