//! The targets that a client connects to: a TCP host and port, resolved or
//! not, or a Unix socket; with or without TLS.
use std::sync::Arc;
use vstd::prelude::*;
use vstd::utf8::{decode_utf8, valid_utf8};

verus! {

/// An IP address, by the number whose big-endian bytes are its octets.
#[derive(Debug, Clone, Copy, PartialEq, Eq, PartialOrd, Ord, Hash, Structural)]
pub enum IpAddr {
    V4(u32),
    V6(u128),
}

/// A TCP socket address: an IP address and a port, and for IPv6 the flow
/// information and the scope (interface) id.
#[derive(Debug, Clone, Copy, PartialEq, Eq, PartialOrd, Ord, Hash, Structural)]
pub enum SocketAddr {
    V4 { ip: u32, port: u16 },
    V6 { ip: u128, port: u16, flowinfo: u32, scope_id: u32 },
}

impl SocketAddr {
    /// The IP address.
    pub open spec fn spec_ip(self) -> IpAddr {
        match self {
            SocketAddr::V4 { ip, .. } => IpAddr::V4(ip),
            SocketAddr::V6 { ip, .. } => IpAddr::V6(ip),
        }
    }

    /// The port.
    pub open spec fn spec_port(self) -> u16 {
        match self {
            SocketAddr::V4 { port, .. } => port,
            SocketAddr::V6 { port, .. } => port,
        }
    }

    /// The same address with another port.
    pub open spec fn with_port(self, port: u16) -> SocketAddr {
        match self {
            SocketAddr::V4 { ip, .. } => SocketAddr::V4 { ip, port },
            SocketAddr::V6 { ip, flowinfo, scope_id, .. } => SocketAddr::V6 {
                ip,
                port,
                flowinfo,
                scope_id,
            },
        }
    }

    /// The socket address of `ip` and `port`.
    pub fn new(ip: IpAddr, port: u16) -> (r: SocketAddr)
        ensures
            r.spec_ip() == ip,
            r.spec_port() == port,
            r is V6 ==> r->flowinfo == 0 && r->scope_id == 0,
    {
        match ip {
            IpAddr::V4(ip) => SocketAddr::V4 { ip, port },
            IpAddr::V6(ip) => SocketAddr::V6 { ip, port, flowinfo: 0, scope_id: 0 },
        }
    }

    /// The IP address.
    pub fn ip(&self) -> (r: IpAddr)
        ensures
            r == self.spec_ip(),
    {
        match self {
            SocketAddr::V4 { ip, .. } => IpAddr::V4(*ip),
            SocketAddr::V6 { ip, .. } => IpAddr::V6(*ip),
        }
    }

    /// The port.
    pub fn port(&self) -> (r: u16)
        ensures
            r == self.spec_port(),
    {
        match self {
            SocketAddr::V4 { port, .. } => *port,
            SocketAddr::V6 { port, .. } => *port,
        }
    }

    /// Changes the port.
    pub fn set_port(&mut self, new_port: u16)
        ensures
            *final(self) == old(self).with_port(new_port),
    {
        match self {
            SocketAddr::V4 { port, .. } => {
                *port = new_port;
            },
            SocketAddr::V6 { port, .. } => {
                *port = new_port;
            },
        }
    }
}

/// A Unix socket address: a path (by the bytes of its text on Unix), an
/// abstract name (Linux), or unnamed.
#[derive(Debug, Clone)]
pub enum UnixSocketAddr {
    Pathname(Vec<u8>),
    Abstract(Vec<u8>),
    Unnamed,
}

/// The kind of transport of a stream.
#[derive(Debug, Clone, Copy, PartialEq, Eq, Hash, Structural)]
pub enum Transport {
    Tcp,
    Unix,
}

/// The resolved target of a connection attempt.
#[derive(Debug, Clone)]
pub enum ResolvedTarget {
    SocketAddr(SocketAddr),
    UnixSocketAddr(UnixSocketAddr),
}

impl ResolvedTarget {
    /// The TCP address, where the target is one.
    pub fn tcp(&self) -> (r: Option<SocketAddr>)
        ensures
            r == (match *self {
                ResolvedTarget::SocketAddr(a) => Some(a),
                _ => None,
            }),
    {
        match self {
            ResolvedTarget::SocketAddr(addr) => Some(*addr),
            _ => None,
        }
    }

    /// Whether the target is a TCP address.
    pub fn is_tcp(&self) -> (r: bool)
        ensures
            r == (*self is SocketAddr),
    {
        self.tcp().is_some()
    }

    /// The transport that the target is reached by.
    pub fn transport(&self) -> (r: Transport)
        ensures
            r == (if *self is SocketAddr {
                Transport::Tcp
            } else {
                Transport::Unix
            }),
    {
        match self {
            ResolvedTarget::SocketAddr(_) => Transport::Tcp,
            ResolvedTarget::UnixSocketAddr(_) => Transport::Unix,
        }
    }
}

/// The form in which resolved targets are told apart: the socket address,
/// the socket path, or the abstract socket name.
#[derive(Debug, Clone, Copy)]
pub enum ResolvedTargetInner<'a> {
    SocketAddr(SocketAddr),
    UnixSocketPath(&'a [u8]),
    UnixSocketAbstract(&'a [u8]),
}

impl ResolvedTarget {
    /// The form in which the target is told apart from others. An unnamed
    /// Unix socket address has none.
    pub fn inner(&self) -> (r: ResolvedTargetInner<'_>)
        requires
            !(*self matches ResolvedTarget::UnixSocketAddr(UnixSocketAddr::Unnamed)),
        ensures
            match *self {
                ResolvedTarget::SocketAddr(a) => r == ResolvedTargetInner::SocketAddr(a),
                ResolvedTarget::UnixSocketAddr(UnixSocketAddr::Pathname(p)) => r matches ResolvedTargetInner::UnixSocketPath(b) && b@ == p@,
                ResolvedTarget::UnixSocketAddr(UnixSocketAddr::Abstract(n)) => r matches ResolvedTargetInner::UnixSocketAbstract(b) && b@ == n@,
                _ => false,
            },
    {
        match self {
            ResolvedTarget::SocketAddr(addr) => ResolvedTargetInner::SocketAddr(*addr),
            ResolvedTarget::UnixSocketAddr(UnixSocketAddr::Pathname(path)) => {
                ResolvedTargetInner::UnixSocketPath(path.as_slice())
            },
            ResolvedTarget::UnixSocketAddr(UnixSocketAddr::Abstract(name)) => {
                ResolvedTargetInner::UnixSocketAbstract(name.as_slice())
            },
            ResolvedTarget::UnixSocketAddr(UnixSocketAddr::Unnamed) => {
                // excluded by the precondition
                proof {
                    assert(false);
                }
                ResolvedTargetInner::UnixSocketAbstract(&[])
            },
        }
    }
}

/// A stream that knows its local address.
pub trait LocalAddress {
    fn local_address(&self) -> std::io::Result<ResolvedTarget>;
}

/// A stream that knows the address of its peer.
pub trait RemoteAddress {
    fn remote_address(&self) -> std::io::Result<ResolvedTarget>;
}

/// A stream that may know the credentials of its peer. (Reading them needs
/// the Unix credentials type of the async runtime, which the application
/// layer provides.)
pub trait PeerCred {}

/// The metadata of a stream.
pub trait StreamMetadata: LocalAddress + RemoteAddress + PeerCred + Send {
    fn transport(&self) -> Transport;
}

/// A name of the server, as TLS checks the certificate against it.
#[derive(Debug, Clone, PartialEq, Eq)]
pub enum ServerName {
    DnsName(String),
    IpAddress(IpAddr),
}

/// A host: an IP address, or a name not yet resolved.
#[derive(Debug, Clone, Copy, PartialEq, Eq)]
pub enum Host<'a> {
    Ip(IpAddr),
    Name(&'a str),
}

/// Whether `name` is a valid DNS name for TLS.
pub uninterp spec fn valid_dns_name(name: Seq<char>) -> bool;

/// `rustls_pki_types::DnsName::try_from` on the text: whether it is a valid DNS name.
#[verifier::external_body]
fn is_valid_dns_name(name: &str) -> (r: bool)
    ensures
        r == valid_dns_name(name@),
{
    rustls_pki_types::DnsName::try_from(name).is_ok()
}

/// The IP address that `text` spells, if it spells one.
pub uninterp spec fn parsed_ip(text: Seq<char>) -> Option<IpAddr>;

/// `core::net::IpAddr::from_str` on the text: the IPv4 or IPv6 address it
/// spells, by the number whose big-endian bytes are its octets, or `None`.
#[verifier::external_body]
fn parse_ip(text: &str) -> (r: Option<IpAddr>)
    ensures
        r == parsed_ip(text@),
{
    match text.parse::<core::net::IpAddr>() {
        Ok(core::net::IpAddr::V4(a)) => Some(IpAddr::V4(a.to_bits())),
        Ok(core::net::IpAddr::V6(a)) => Some(IpAddr::V6(a.to_bits())),
        Err(_) => None,
    }
}

/// A target that may still need a DNS lookup.
#[derive(Debug, Clone)]
pub enum MaybeResolvedTarget {
    Resolved(ResolvedTarget),
    /// A host name, a port and an optional interface.
    Unresolved(String, u16, Option<String>),
}

impl MaybeResolvedTarget {
    /// The port, where the target has one.
    pub open spec fn spec_port(self) -> Option<u16> {
        match self {
            MaybeResolvedTarget::Resolved(ResolvedTarget::SocketAddr(a)) => Some(a.spec_port()),
            MaybeResolvedTarget::Unresolved(_, port, _) => Some(port),
            _ => None,
        }
    }

    /// The target with its port changed, where it has one, and the old port.
    pub open spec fn spec_set_port(self, port: u16) -> (MaybeResolvedTarget, Option<u16>) {
        match self {
            MaybeResolvedTarget::Resolved(ResolvedTarget::SocketAddr(a)) => (
                MaybeResolvedTarget::Resolved(ResolvedTarget::SocketAddr(a.with_port(port))),
                Some(a.spec_port()),
            ),
            MaybeResolvedTarget::Unresolved(host, old, iface) => (
                MaybeResolvedTarget::Unresolved(host, port, iface),
                Some(old),
            ),
            _ => (self, None),
        }
    }

    /// Whether the target is a Unix socket: with a path, an abstract name, or unnamed.
    pub open spec fn is_unix(self) -> bool {
        self matches MaybeResolvedTarget::Resolved(ResolvedTarget::UnixSocketAddr(_))
    }

    /// Whether the target is a Unix socket address.
    pub fn is_unix_socket(&self) -> (r: bool)
        ensures
            r == self.is_unix(),
    {
        match self {
            MaybeResolvedTarget::Resolved(ResolvedTarget::UnixSocketAddr(_)) => true,
            _ => false,
        }
    }

    /// Whether the target is a Unix socket with a path.
    pub open spec fn has_path(self) -> bool {
        self matches MaybeResolvedTarget::Resolved(
            ResolvedTarget::UnixSocketAddr(UnixSocketAddr::Pathname(_)),
        )
    }

    /// The target of a host and a port: resolved where the host text is the IP
    /// address `ip`, else to be looked up by name.
    fn from_host_port(host: String, ip: Option<IpAddr>, port: u16) -> (r: MaybeResolvedTarget)
        ensures
            ip matches Some(a) ==> r == MaybeResolvedTarget::Resolved(
                ResolvedTarget::SocketAddr(SocketAddr::new_spec(a, port)),
            ),
            ip is None ==> (r matches MaybeResolvedTarget::Unresolved(h, p, i) && h@ == host@ && p
                == port && i is None),
    {
        match ip {
            Some(addr) => MaybeResolvedTarget::Resolved(
                ResolvedTarget::SocketAddr(SocketAddr::new(addr, port)),
            ),
            None => MaybeResolvedTarget::Unresolved(host, port, None),
        }
    }

    /// The target of a host and a port: resolved where the host text is an IP
    /// address, else a name to be looked up, with no interface.
    pub fn from_host(host: &str, port: u16) -> (r: MaybeResolvedTarget)
        ensures
            parsed_ip(host@) matches Some(a) ==> r == MaybeResolvedTarget::Resolved(
                ResolvedTarget::SocketAddr(SocketAddr::new_spec(a, port)),
            ),
            parsed_ip(host@) is None ==> (r matches MaybeResolvedTarget::Unresolved(h, p, i) && h@
                == host@ && p == port && i is None),
    {
        let ip = parse_ip(host);
        Self::from_host_port(host.to_string(), ip, port)
    }

    /// The target of a resolved TCP address.
    pub fn from_socket_addr(addr: SocketAddr) -> (r: MaybeResolvedTarget)
        ensures
            r == MaybeResolvedTarget::Resolved(ResolvedTarget::SocketAddr(addr)),
    {
        MaybeResolvedTarget::Resolved(ResolvedTarget::SocketAddr(addr))
    }

    /// The name that TLS checks the certificate against: the IP address of a
    /// resolved TCP address, the host name where it is a valid DNS name, and
    /// none for a Unix socket.
    pub fn name(&self) -> (r: Option<ServerName>)
        ensures
            match *self {
                MaybeResolvedTarget::Resolved(ResolvedTarget::SocketAddr(a)) => r == Some(
                    ServerName::IpAddress(a.spec_ip()),
                ),
                MaybeResolvedTarget::Unresolved(h, _, _) => if valid_dns_name(h@) {
                    r matches Some(ServerName::DnsName(n)) && n@ == h@
                } else {
                    r is None
                },
                _ => r is None,
            },
    {
        match self {
            MaybeResolvedTarget::Resolved(ResolvedTarget::SocketAddr(addr)) => {
                Some(ServerName::IpAddress(addr.ip()))
            },
            MaybeResolvedTarget::Unresolved(host, _, _) => {
                if is_valid_dns_name(host.as_str()) {
                    Some(ServerName::DnsName(host.clone()))
                } else {
                    None
                }
            },
            _ => None,
        }
    }

    /// The host and the port of a TCP target.
    pub fn tcp(&self) -> (r: Option<(Host<'_>, u16)>)
        ensures
            match *self {
                MaybeResolvedTarget::Resolved(ResolvedTarget::SocketAddr(a)) => r == Some(
                    (Host::Ip(a.spec_ip()), a.spec_port()),
                ),
                MaybeResolvedTarget::Unresolved(h, p, _) => r matches Some((Host::Name(n), q)) && n@
                    == h@ && q == p,
                _ => r is None,
            },
    {
        match self {
            MaybeResolvedTarget::Resolved(ResolvedTarget::SocketAddr(addr)) => {
                Some((Host::Ip(addr.ip()), addr.port()))
            },
            MaybeResolvedTarget::Unresolved(host, port, _) => Some((Host::Name(host.as_str()), *port)),
            _ => None,
        }
    }

    /// The path of a Unix socket with a path.
    pub fn path(&self) -> (r: Option<&[u8]>)
        ensures
            r is Some <==> self.has_path(),
            match *self {
                MaybeResolvedTarget::Resolved(
                    ResolvedTarget::UnixSocketAddr(UnixSocketAddr::Pathname(p)),
                ) => r matches Some(b) && b@ == p@,
                _ => true,
            },
    {
        match self {
            MaybeResolvedTarget::Resolved(
                ResolvedTarget::UnixSocketAddr(UnixSocketAddr::Pathname(path)),
            ) => Some(path.as_slice()),
            _ => None,
        }
    }

    /// The host of a TCP target.
    pub fn host(&self) -> (r: Option<Host<'_>>)
        ensures
            match *self {
                MaybeResolvedTarget::Resolved(ResolvedTarget::SocketAddr(a)) => r == Some(
                    Host::Ip(a.spec_ip()),
                ),
                MaybeResolvedTarget::Unresolved(h, _, _) => r matches Some(Host::Name(n)) && n@
                    == h@,
                _ => r is None,
            },
    {
        match self {
            MaybeResolvedTarget::Resolved(ResolvedTarget::SocketAddr(addr)) => {
                Some(Host::Ip(addr.ip()))
            },
            MaybeResolvedTarget::Unresolved(host, _, _) => Some(Host::Name(host.as_str())),
            _ => None,
        }
    }

    /// The port of a TCP target.
    pub fn port(&self) -> (r: Option<u16>)
        ensures
            r == self.spec_port(),
    {
        match self {
            MaybeResolvedTarget::Resolved(ResolvedTarget::SocketAddr(addr)) => Some(addr.port()),
            MaybeResolvedTarget::Unresolved(_, port, _) => Some(*port),
            _ => None,
        }
    }

    /// The text of the target, as the client shows it.
    pub fn describe(&self) -> (r: String)
        ensures
            r@ == target_text(*self),
    {
        match self {
            MaybeResolvedTarget::Resolved(ResolvedTarget::SocketAddr(addr)) => match addr {
                SocketAddr::V4 { ip, port } => {
                    let mut s = ipv4_to_text(*ip);
                    s.append(":");
                    s.append(u32_text(*port as u32).as_str());
                    s
                },
                SocketAddr::V6 { ip, port, scope_id, .. } => {
                    let mut s = String::from_str("[");
                    s.append(ipv6_to_text(*ip).as_str());
                    if *scope_id != 0 {
                        s.append("%");
                        s.append(u32_text(*scope_id).as_str());
                    }
                    s.append("]:");
                    s.append(u32_text(*port as u32).as_str());
                    s
                },
            },
            MaybeResolvedTarget::Resolved(ResolvedTarget::UnixSocketAddr(addr)) => match addr {
                UnixSocketAddr::Pathname(path) => lossy_text(path.as_slice()),
                UnixSocketAddr::Abstract(name) => {
                    let mut s = String::from_str("@");
                    s.append(lossy_text(name.as_slice()).as_str());
                    s
                },
                UnixSocketAddr::Unnamed => String::new(),
            },
            MaybeResolvedTarget::Unresolved(host, port, interface) => {
                let mut s = String::from_str(host.as_str());
                s.append(":");
                s.append(u32_text(*port as u32).as_str());
                if let Some(interface) = interface {
                    s.append("%");
                    s.append(interface.as_str());
                }
                s
            },
        }
    }

    /// Changes the port of a TCP target and returns the old one; leaves a
    /// Unix socket as it is and returns `None`.
    pub fn set_port(&mut self, new_port: u16) -> (r: Option<u16>)
        ensures
            (*final(self), r) == old(self).spec_set_port(new_port),
    {
        match self {
            MaybeResolvedTarget::Resolved(ResolvedTarget::SocketAddr(addr)) => {
                let old_port = addr.port();
                addr.set_port(new_port);
                Some(old_port)
            },
            MaybeResolvedTarget::Unresolved(_, port, _) => {
                let old_port = *port;
                *port = new_port;
                Some(old_port)
            },
            _ => None,
        }
    }
}

impl SocketAddr {
    /// The socket address of `ip` and `port`, as `new` makes it.
    pub open spec fn new_spec(ip: IpAddr, port: u16) -> SocketAddr {
        match ip {
            IpAddr::V4(ip) => SocketAddr::V4 { ip, port },
            IpAddr::V6(ip) => SocketAddr::V6 { ip, port, flowinfo: 0, scope_id: 0 },
        }
    }
}

/// The character of the decimal digit `d`.
pub open spec fn digit_char(d: nat) -> char {
    (d + 48) as char
}

/// The decimal digits of `n`, without sign or leading zeros.
pub open spec fn decimal(n: nat) -> Seq<char>
    decreases n,
{
    if n < 10 {
        seq![digit_char(n)]
    } else {
        decimal(n / 10).push(digit_char(n % 10))
    }
}

/// The text of a `u32` as `Display` writes it: its decimal digits.
#[verifier::external_body]
fn u32_text(n: u32) -> (r: String)
    ensures
        r@ == decimal(n as nat),
{
    format!("{}", n)
}

/// The dotted text of an IPv4 address: its four octets in decimal.
pub open spec fn ipv4_text(a: u32) -> Seq<char> {
    decimal(((a >> 24u32) as u8) as nat) + "."@ + decimal(((a >> 16u32) as u8) as nat) + "."@
        + decimal(((a >> 8u32) as u8) as nat) + "."@ + decimal((a as u8) as nat)
}

/// `Display` of `core::net::Ipv4Addr`: the four octets in decimal, separated by dots.
#[verifier::external_body]
fn ipv4_to_text(a: u32) -> (r: String)
    ensures
        r@ == ipv4_text(a),
{
    format!("{}", core::net::Ipv4Addr::from_bits(a))
}

/// The text that `core::net::Ipv6Addr` shows an IPv6 address as.
pub uninterp spec fn ipv6_text(a: u128) -> Seq<char>;

/// `Display` of `core::net::Ipv6Addr`: the address in the text form of RFC 5952.
#[verifier::external_body]
fn ipv6_to_text(a: u128) -> (r: String)
    ensures
        r@ == ipv6_text(a),
{
    format!("{}", core::net::Ipv6Addr::from_bits(a))
}

/// The text that `String::from_utf8_lossy` makes of bytes.
pub uninterp spec fn utf8_lossy(bytes: Seq<u8>) -> Seq<char>;

/// `String::from_utf8_lossy`: the bytes as text, with each invalid sequence
/// replaced by U+FFFD; valid UTF-8 is decoded as it is.
#[verifier::external_body]
fn lossy_text(bytes: &[u8]) -> (r: String)
    ensures
        r@ == utf8_lossy(bytes@),
        valid_utf8(bytes@) ==> r@ == decode_utf8(bytes@),
{
    String::from_utf8_lossy(bytes).into_owned()
}

/// The text of bytes as `String::from_utf8_lossy` makes it: valid UTF-8 is
/// decoded as it is.
pub open spec fn lossy(bytes: Seq<u8>) -> Seq<char> {
    if valid_utf8(bytes) {
        decode_utf8(bytes)
    } else {
        utf8_lossy(bytes)
    }
}

/// The text of an IP address: dotted decimal for IPv4, RFC 5952 for IPv6.
pub open spec fn ip_text(ip: IpAddr) -> Seq<char> {
    match ip {
        IpAddr::V4(a) => ipv4_text(a),
        IpAddr::V6(a) => ipv6_text(a),
    }
}

impl<'a> Host<'a> {
    /// The text of the host: the IP address as text, or the name itself.
    pub fn text(&self) -> (r: String)
        ensures
            r@ == match *self {
                Host::Ip(ip) => ip_text(ip),
                Host::Name(n) => n@,
            },
    {
        match self {
            Host::Ip(IpAddr::V4(a)) => ipv4_to_text(*a),
            Host::Ip(IpAddr::V6(a)) => ipv6_to_text(*a),
            Host::Name(n) => String::from_str(n),
        }
    }
}

/// The text of a target, as the client shows it: `ip:port`, `[ip]:port` or
/// `[ip%scope]:port` for a resolved TCP address, `host:port` with
/// `%interface` where there is one, the text of the path for a Unix socket
/// with a path, `@name` for an abstract Unix socket and nothing for an
/// unnamed one.
pub open spec fn target_text(t: MaybeResolvedTarget) -> Seq<char> {
    match t {
        MaybeResolvedTarget::Resolved(ResolvedTarget::SocketAddr(a)) => match a {
            SocketAddr::V4 { ip, port } => ipv4_text(ip) + ":"@ + decimal(port as nat),
            SocketAddr::V6 { ip, port, scope_id, .. } => if scope_id != 0 {
                "["@ + ipv6_text(ip) + "%"@ + decimal(scope_id as nat) + "]:"@ + decimal(
                    port as nat,
                )
            } else {
                "["@ + ipv6_text(ip) + "]:"@ + decimal(port as nat)
            },
        },
        MaybeResolvedTarget::Resolved(ResolvedTarget::UnixSocketAddr(u)) => match u {
            UnixSocketAddr::Pathname(path) => lossy(path@),
            UnixSocketAddr::Abstract(name) => "@"@ + lossy(name@),
            UnixSocketAddr::Unnamed => Seq::empty(),
        },
        MaybeResolvedTarget::Unresolved(h, p, iface) => h@ + ":"@ + decimal(p as nat) + match iface {
            Some(i) => "%"@ + i@,
            None => Seq::empty(),
        },
    }
}

/// A target name: the TCP host or Unix socket that a client connects to.
#[derive(Debug, Clone)]
pub struct TargetName {
    inner: MaybeResolvedTarget,
}

impl View for TargetName {
    type V = MaybeResolvedTarget;

    closed spec fn view(&self) -> MaybeResolvedTarget {
        self.inner
    }
}

impl TargetName {
    /// The target name of a resolved address, such as a Unix socket whose
    /// path the caller has checked.
    pub fn from_resolved(target: ResolvedTarget) -> (r: TargetName)
        ensures
            r@ == MaybeResolvedTarget::Resolved(target),
    {
        TargetName { inner: MaybeResolvedTarget::Resolved(target) }
    }

    /// The target name of a TCP host.
    pub fn new_tcp(host: MaybeResolvedTarget) -> (r: TargetName)
        ensures
            r@ == host,
    {
        TargetName { inner: host }
    }

    /// The target, resolved or not.
    pub fn maybe_resolved(&self) -> (r: &MaybeResolvedTarget)
        ensures
            *r == self@,
    {
        &self.inner
    }

    /// The text of the target, as the client shows it.
    pub fn describe(&self) -> (r: String)
        ensures
            r@ == target_text(self@),
    {
        self.inner.describe()
    }

    /// Whether the target is a TCP connection: whether it has a port.
    pub fn is_tcp(&self) -> (r: bool)
        ensures
            r == self@.spec_port() is Some,
    {
        self.maybe_resolved().port().is_some()
    }

    /// The port of the target; `None` where it has none.
    pub fn port(&self) -> (r: Option<u16>)
        ensures
            r == self@.spec_port(),
    {
        self.maybe_resolved().port()
    }

    /// Sets the port of the target and returns the old one; where the target
    /// has no port, returns `None` and changes nothing.
    pub fn try_set_port(&mut self, port: u16) -> (r: Option<u16>)
        ensures
            (final(self)@, r) == old(self)@.spec_set_port(port),
    {
        self.inner.set_port(port)
    }

    /// The path of a Unix socket target.
    pub fn path(&self) -> (r: Option<&[u8]>)
        ensures
            r is Some <==> self@.has_path(),
            match self@ {
                MaybeResolvedTarget::Resolved(
                    ResolvedTarget::UnixSocketAddr(UnixSocketAddr::Pathname(p)),
                ) => r matches Some(b) && b@ == p@,
                _ => true,
            },
    {
        self.maybe_resolved().path()
    }

    /// The host of a TCP target: its IP address, or its host name where it
    /// is not resolved.
    pub fn host(&self) -> (r: Option<Host<'_>>)
        ensures
            match self@ {
                MaybeResolvedTarget::Resolved(ResolvedTarget::SocketAddr(a)) => r == Some(
                    Host::Ip(a.spec_ip()),
                ),
                MaybeResolvedTarget::Unresolved(h, _, _) => r matches Some(Host::Name(n)) && n@
                    == h@,
                _ => r is None,
            },
    {
        self.maybe_resolved().host()
    }

    /// The name that TLS checks the certificate against.
    pub fn name(&self) -> (r: Option<ServerName>)
        ensures
            match self@ {
                MaybeResolvedTarget::Resolved(ResolvedTarget::SocketAddr(a)) => r == Some(
                    ServerName::IpAddress(a.spec_ip()),
                ),
                MaybeResolvedTarget::Unresolved(h, _, _) => if valid_dns_name(h@) {
                    r matches Some(ServerName::DnsName(n)) && n@ == h@
                } else {
                    r is None
                },
                _ => r is None,
            },
    {
        self.maybe_resolved().name()
    }

    /// The host and port of a TCP target.
    pub fn tcp(&self) -> (r: Option<(Host<'_>, u16)>)
        ensures
            match self@ {
                MaybeResolvedTarget::Resolved(ResolvedTarget::SocketAddr(a)) => r == Some(
                    (Host::Ip(a.spec_ip()), a.spec_port()),
                ),
                MaybeResolvedTarget::Unresolved(h, p, _) => r matches Some((Host::Name(n), q)) && n@
                    == h@ && q == p,
                _ => r is None,
            },
    {
        self.maybe_resolved().tcp()
    }
}

/// How a target is connected to: in the clear, over TLS from the start, or
/// over TLS after a STARTTLS upgrade; with the TLS parameters `P`.
#[derive(Debug, Clone)]
pub enum TargetInner<P> {
    NoTls(MaybeResolvedTarget),
    Tls(MaybeResolvedTarget, Arc<P>),
    StartTls(MaybeResolvedTarget, Arc<P>),
}

impl<P> TargetInner<P> {
    /// The host or socket connected to.
    pub open spec fn target(self) -> MaybeResolvedTarget {
        match self {
            TargetInner::NoTls(t) => t,
            TargetInner::Tls(t, _) => t,
            TargetInner::StartTls(t, _) => t,
        }
    }

    /// The same kind of connection to another host or socket.
    pub open spec fn with_target(self, t: MaybeResolvedTarget) -> TargetInner<P> {
        match self {
            TargetInner::NoTls(_) => TargetInner::NoTls(t),
            TargetInner::Tls(_, p) => TargetInner::Tls(t, p),
            TargetInner::StartTls(_, p) => TargetInner::StartTls(t, p),
        }
    }

    /// The TLS parameters, where there are any.
    pub open spec fn params(self) -> Option<Arc<P>> {
        match self {
            TargetInner::NoTls(_) => None,
            TargetInner::Tls(_, p) => Some(p),
            TargetInner::StartTls(_, p) => Some(p),
        }
    }

    /// Setting TLS parameters: refused (`None`, nothing changed) for a Unix
    /// socket of any kind; otherwise the new parameters replace the old ones,
    /// a connection in the clear becomes a TLS one, and the old parameters
    /// are returned.
    pub open spec fn spec_set_tls(self, params: Arc<P>) -> (TargetInner<P>, Option<Option<Arc<P>>>) {
        if self.target().is_unix() {
            (self, None)
        } else {
            match self {
                TargetInner::NoTls(t) => (TargetInner::Tls(t, params), Some(None)),
                TargetInner::Tls(t, old) => (TargetInner::Tls(t, params), Some(Some(old))),
                TargetInner::StartTls(t, old) => (TargetInner::StartTls(t, params), Some(Some(old))),
            }
        }
    }

    /// Removing TLS: the connection is in the clear afterwards, and the old
    /// parameters are returned.
    pub open spec fn spec_remove_tls(self) -> (TargetInner<P>, Option<Arc<P>>) {
        (TargetInner::NoTls(self.target()), self.params())
    }
}

/// A target: the TCP host or Unix socket that a client connects to, with
/// optional TLS parameters of type `P`.
#[derive(Debug, Clone)]
pub struct Target<P> {
    inner: TargetInner<P>,
}

impl<P> View for Target<P> {
    type V = TargetInner<P>;

    closed spec fn view(&self) -> TargetInner<P> {
        self.inner
    }
}

impl<P> Target<P> {
    /// A connection in the clear to `name`.
    pub fn new(name: TargetName) -> (r: Target<P>)
        ensures
            r@ == TargetInner::<P>::NoTls(name@),
    {
        Target { inner: TargetInner::NoTls(name.inner) }
    }

    /// A TLS connection to `name`.
    pub fn new_tls(name: TargetName, params: P) -> (r: Target<P>)
        ensures
            r@ == TargetInner::Tls(name@, Arc::new(params)),
    {
        Target { inner: TargetInner::Tls(name.inner, Arc::new(params)) }
    }

    /// A STARTTLS connection to `name`.
    pub fn new_starttls(name: TargetName, params: P) -> (r: Target<P>)
        ensures
            r@ == TargetInner::StartTls(name@, Arc::new(params)),
    {
        Target { inner: TargetInner::StartTls(name.inner, Arc::new(params)) }
    }

    /// A connection in the clear to a resolved address.
    pub fn new_resolved(target: ResolvedTarget) -> (r: Target<P>)
        ensures
            r@ == TargetInner::<P>::NoTls(MaybeResolvedTarget::Resolved(target)),
    {
        Target { inner: TargetInner::NoTls(MaybeResolvedTarget::Resolved(target)) }
    }

    /// A TLS connection to a resolved address.
    pub fn new_resolved_tls(target: ResolvedTarget, params: P) -> (r: Target<P>)
        ensures
            r@ == TargetInner::Tls(MaybeResolvedTarget::Resolved(target), Arc::new(params)),
    {
        Target { inner: TargetInner::Tls(MaybeResolvedTarget::Resolved(target), Arc::new(params)) }
    }

    /// A STARTTLS connection to a resolved address.
    pub fn new_resolved_starttls(target: ResolvedTarget, params: P) -> (r: Target<P>)
        ensures
            r@ == TargetInner::StartTls(MaybeResolvedTarget::Resolved(target), Arc::new(params)),
    {
        Target {
            inner: TargetInner::StartTls(MaybeResolvedTarget::Resolved(target), Arc::new(params)),
        }
    }

    /// A connection in the clear to a TCP host.
    pub fn new_tcp(host: MaybeResolvedTarget) -> (r: Target<P>)
        ensures
            r@ == TargetInner::<P>::NoTls(host),
    {
        Target { inner: TargetInner::NoTls(host) }
    }

    /// A TLS connection to a TCP host.
    pub fn new_tcp_tls(host: MaybeResolvedTarget, params: P) -> (r: Target<P>)
        ensures
            r@ == TargetInner::Tls(host, Arc::new(params)),
    {
        Target { inner: TargetInner::Tls(host, Arc::new(params)) }
    }

    /// A STARTTLS connection to a TCP host.
    pub fn new_tcp_starttls(host: MaybeResolvedTarget, params: P) -> (r: Target<P>)
        ensures
            r@ == TargetInner::StartTls(host, Arc::new(params)),
    {
        Target { inner: TargetInner::StartTls(host, Arc::new(params)) }
    }

    /// The host or socket connected to.
    pub fn maybe_resolved(&self) -> (r: &MaybeResolvedTarget)
        ensures
            *r == self@.target(),
    {
        match &self.inner {
            TargetInner::NoTls(target) => target,
            TargetInner::Tls(target, _) => target,
            TargetInner::StartTls(target, _) => target,
        }
    }

    /// Sets the TLS parameters: refused, returning `None` and changing
    /// nothing, for a Unix socket, which gets no TLS; otherwise returns the old
    /// parameters, if any.
    pub fn try_set_tls(&mut self, params: P) -> (r: Option<Option<Arc<P>>>)
        ensures
            (final(self)@, r) == old(self)@.spec_set_tls(Arc::new(params)),
    {
        if self.maybe_resolved().is_unix_socket() {
            return None;
        }
        let params = Arc::new(params);
        let no_target: TargetInner<P> = TargetInner::NoTls(
            MaybeResolvedTarget::Resolved(ResolvedTarget::SocketAddr(SocketAddr::V4 { ip: 0, port: 0 })),
        );
        let mut old_inner = no_target;
        std::mem::swap(&mut self.inner, &mut old_inner);
        match old_inner {
            TargetInner::NoTls(target) => {
                self.inner = TargetInner::Tls(target, params);
                Some(None)
            },
            TargetInner::Tls(target, old_params) => {
                self.inner = TargetInner::Tls(target, params);
                Some(Some(old_params))
            },
            TargetInner::StartTls(target, old_params) => {
                self.inner = TargetInner::StartTls(target, params);
                Some(Some(old_params))
            },
        }
    }

    /// Removes TLS: the connection is in the clear afterwards. Returns the old
    /// parameters, if any.
    pub fn try_remove_tls(&mut self) -> (r: Option<Arc<P>>)
        ensures
            (final(self)@, r) == old(self)@.spec_remove_tls(),
    {
        let no_target: TargetInner<P> = TargetInner::NoTls(
            MaybeResolvedTarget::Resolved(ResolvedTarget::SocketAddr(SocketAddr::V4 { ip: 0, port: 0 })),
        );
        let mut old_inner = no_target;
        std::mem::swap(&mut self.inner, &mut old_inner);
        match old_inner {
            TargetInner::NoTls(target) => {
                self.inner = TargetInner::NoTls(target);
                None
            },
            TargetInner::Tls(target, old_params) => {
                self.inner = TargetInner::NoTls(target);
                Some(old_params)
            },
            TargetInner::StartTls(target, old_params) => {
                self.inner = TargetInner::NoTls(target);
                Some(old_params)
            },
        }
    }

    /// Whether the target is a TCP connection: whether it has a port.
    pub fn is_tcp(&self) -> (r: bool)
        ensures
            r == self@.target().spec_port() is Some,
    {
        self.maybe_resolved().port().is_some()
    }

    /// The port of the target; `None` where it has none.
    pub fn port(&self) -> (r: Option<u16>)
        ensures
            r == self@.target().spec_port(),
    {
        self.maybe_resolved().port()
    }

    /// Sets the port of the target and returns the old one; where the target
    /// has no port, returns `None` and changes nothing.
    pub fn try_set_port(&mut self, port: u16) -> (r: Option<u16>)
        ensures
            final(self)@ == old(self)@.with_target(old(self)@.target().spec_set_port(port).0),
            r == old(self)@.target().spec_set_port(port).1,
    {
        match &mut self.inner {
            TargetInner::NoTls(target) => target.set_port(port),
            TargetInner::Tls(target, _) => target.set_port(port),
            TargetInner::StartTls(target, _) => target.set_port(port),
        }
    }

    /// The path of a Unix socket target.
    pub fn path(&self) -> (r: Option<&[u8]>)
        ensures
            r is Some <==> self@.target().has_path(),
            match self@.target() {
                MaybeResolvedTarget::Resolved(
                    ResolvedTarget::UnixSocketAddr(UnixSocketAddr::Pathname(p)),
                ) => r matches Some(b) && b@ == p@,
                _ => true,
            },
    {
        self.maybe_resolved().path()
    }

    /// The host of a TCP target: its IP address, or its host name where it
    /// is not resolved.
    pub fn host(&self) -> (r: Option<Host<'_>>)
        ensures
            match self@.target() {
                MaybeResolvedTarget::Resolved(ResolvedTarget::SocketAddr(a)) => r == Some(
                    Host::Ip(a.spec_ip()),
                ),
                MaybeResolvedTarget::Unresolved(h, _, _) => r matches Some(Host::Name(n)) && n@
                    == h@,
                _ => r is None,
            },
    {
        self.maybe_resolved().host()
    }

    /// The name that TLS checks the certificate against.
    pub fn name(&self) -> (r: Option<ServerName>)
        ensures
            match self@.target() {
                MaybeResolvedTarget::Resolved(ResolvedTarget::SocketAddr(a)) => r == Some(
                    ServerName::IpAddress(a.spec_ip()),
                ),
                MaybeResolvedTarget::Unresolved(h, _, _) => if valid_dns_name(h@) {
                    r matches Some(ServerName::DnsName(n)) && n@ == h@
                } else {
                    r is None
                },
                _ => r is None,
            },
    {
        self.maybe_resolved().name()
    }

    /// The host and port of a TCP target.
    pub fn tcp(&self) -> (r: Option<(Host<'_>, u16)>)
        ensures
            match self@.target() {
                MaybeResolvedTarget::Resolved(ResolvedTarget::SocketAddr(a)) => r == Some(
                    (Host::Ip(a.spec_ip()), a.spec_port()),
                ),
                MaybeResolvedTarget::Unresolved(h, p, _) => r matches Some((Host::Name(n), q)) && n@
                    == h@ && q == p,
                _ => r is None,
            },
    {
        self.maybe_resolved().tcp()
    }

    /// The text of the target as the client shows it, followed by ` (TLS)`
    /// or ` (STARTTLS)` where the connection uses TLS.
    pub fn describe(&self) -> (r: String)
        ensures
            r@ == target_text(self@.target()) + match self@ {
                TargetInner::NoTls(_) => Seq::<char>::empty(),
                TargetInner::Tls(_, _) => " (TLS)"@,
                TargetInner::StartTls(_, _) => " (STARTTLS)"@,
            },
    {
        let mut s = self.maybe_resolved().describe();
        match &self.inner {
            TargetInner::NoTls(_) => {
                assert(s@ + Seq::<char>::empty() =~= s@);
            },
            TargetInner::Tls(_, _) => s.append(" (TLS)"),
            TargetInner::StartTls(_, _) => s.append(" (STARTTLS)"),
        }
        s
    }

    /// Whether the connection upgrades to TLS with STARTTLS.
    pub fn is_starttls(&self) -> (r: bool)
        ensures
            r == (self@ is StartTls),
    {
        match &self.inner {
            TargetInner::StartTls(_, _) => true,
            _ => false,
        }
    }

    /// The TLS parameters, where the connection uses TLS.
    pub fn maybe_ssl(&self) -> (r: Option<&P>)
        ensures
            match self@.params() {
                Some(p) => r == Some(&*p),
                None => r is None,
            },
    {
        match &self.inner {
            TargetInner::NoTls(_) => None,
            TargetInner::Tls(_, params) => Some(&**params),
            TargetInner::StartTls(_, params) => Some(&**params),
        }
    }
}

/// Setting the port of a target with a port makes that port the target's
/// port and returns the old one; a target without a port keeps having none.
pub proof fn law_set_port_then_port(t: MaybeResolvedTarget, port: u16)
    ensures
        t.spec_set_port(port).1 == t.spec_port(),
        t.spec_set_port(port).0.spec_port() == (if t.spec_port() is Some {
            Some(port)
        } else {
            None::<u16>
        }),
        t.spec_set_port(port).0.has_path() == t.has_path(),
{
}

/// Setting TLS parameters on a target that is not a Unix socket and then removing
/// TLS gives back those parameters and leaves a connection in the clear to the
/// same target.
pub proof fn law_set_then_remove_tls<P>(t: TargetInner<P>, params: Arc<P>)
    requires
        !t.target().is_unix(),
    ensures
        t.spec_set_tls(params).0.spec_remove_tls() == (
            TargetInner::<P>::NoTls(t.target()),
            Some(params),
        ),
{
}

/// A Unix socket of any kind never gets TLS parameters: setting them is
/// refused and leaves the target as it was.
pub proof fn law_no_tls_on_unix_sockets<P>(t: TargetInner<P>, params: Arc<P>)
    requires
        t.target().is_unix(),
    ensures
        t.spec_set_tls(params) == (t, None::<Option<Arc<P>>>),
{
}

/// Removing TLS twice: the second removal finds none and changes nothing.
pub proof fn law_remove_tls_idempotent<P>(t: TargetInner<P>)
    ensures
        t.spec_remove_tls().0.spec_remove_tls() == (t.spec_remove_tls().0, None::<Arc<P>>),
{
}

/// Setting TLS parameters keeps the host or socket, and keeps a STARTTLS
/// connection a STARTTLS one.
pub proof fn law_set_tls_keeps_target<P>(t: TargetInner<P>, params: Arc<P>)
    ensures
        t.spec_set_tls(params).0.target() == t.target(),
        (t.spec_set_tls(params).0 is StartTls) == (t is StartTls),
{
}

} // verus!
