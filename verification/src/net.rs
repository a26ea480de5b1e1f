//! IP and socket address types, their encoding as the kernel's
//! `sockaddr_in` / `sockaddr_in6`, and the decisions made around the
//! synchronous TCP socket calls.

use vstd::prelude::*;
use crate::error::{Error, ECONNRESET};

verus! {

/// Address family: IPv4.
pub const AF_INET: i32 = 2;
/// Address family: IPv6.
pub const AF_INET6: i32 = 10;
/// Socket type for stream (TCP) sockets.
pub const SOCK_STREAM: i32 = 1;
/// Protocol number of TCP.
pub const IPPROTO_TCP: i32 = 6;
/// `O_NONBLOCK` flag for a non-blocking accept.
pub const O_NONBLOCK: i32 = 2048;
/// Size in bytes of `struct sockaddr_in`.
pub const SOCKADDR_IN_LEN: i32 = 16;
/// Size in bytes of `struct sockaddr_in6`.
pub const SOCKADDR_IN6_LEN: i32 = 28;

/// The value of two bytes read in network (big-endian) order.
pub open spec fn be16(b: Seq<u8>) -> int {
    b[0] * 256 + b[1]
}

/// The value of four bytes read in network (big-endian) order.
pub open spec fn be32(b: Seq<u8>) -> int {
    b[0] * 16777216 + b[1] * 65536 + b[2] * 256 + b[3]
}

/// An IPv4 address (4 bytes, network order).
#[derive(Clone, Copy, Debug, PartialEq, Eq)]
pub struct Ipv4Addr(pub [u8; 4]);

impl Ipv4Addr {
    /// The unspecified address `0.0.0.0`.
    pub fn any() -> (a: Self)
        ensures
            a.0@ == seq![0u8, 0u8, 0u8, 0u8],
    {
        Ipv4Addr([0, 0, 0, 0])
    }

    /// The loopback address `127.0.0.1`.
    pub fn localhost() -> (a: Self)
        ensures
            a.0@ == seq![127u8, 0u8, 0u8, 1u8],
    {
        Ipv4Addr([127, 0, 0, 1])
    }

    /// Create a new IPv4 address from four octets.
    pub fn new(a: u8, b: u8, c: u8, d: u8) -> (r: Self)
        ensures
            r.0@ == seq![a, b, c, d],
    {
        Ipv4Addr([a, b, c, d])
    }

    /// The four octets as a `u32` read in network byte order (the first
    /// octet is the most significant).
    pub fn to_bits(self) -> (bits: u32)
        ensures
            bits == be32(self.0@),
    {
        let a = self.0[0];
        let b = self.0[1];
        let c = self.0[2];
        let d = self.0[3];
        let bits: u32 = ((a as u32) << 24u32) | ((b as u32) << 16u32) | ((c as u32) << 8u32) | (d as u32);
        assert(bits == (a as u32) * 16777216 + (b as u32) * 65536 + (c as u32) * 256 + (d as u32)) by (bit_vector)
            requires
                bits == ((a as u32) << 24u32) | ((b as u32) << 16u32) | ((c as u32) << 8u32) | (d as u32),
        ;
        bits
    }
}

/// An IPv6 address (16 bytes, network order).
#[derive(Clone, Copy, Debug, PartialEq, Eq)]
pub struct Ipv6Addr(pub [u8; 16]);

impl Ipv6Addr {
    /// The unspecified address `::`.
    pub fn any() -> (a: Self)
        ensures
            forall|i: int| 0 <= i < 16 ==> a.0@[i] == 0,
    {
        Ipv6Addr([0; 16])
    }

    /// The loopback address `::1`.
    pub fn localhost() -> (a: Self)
        ensures
            forall|i: int| 0 <= i < 15 ==> a.0@[i] == 0,
            a.0@[15] == 1,
    {
        Ipv6Addr([0, 0, 0, 0, 0, 0, 0, 0, 0, 0, 0, 0, 0, 0, 0, 1])
    }

    /// Create an IPv6 address from 16 octets.
    pub fn new(bytes: [u8; 16]) -> (a: Self)
        ensures
            a.0@ == bytes@,
    {
        Ipv6Addr(bytes)
    }
}

/// An IPv4 socket address: IP + port.
#[derive(Clone, Copy, Debug)]
pub struct SocketAddrV4 {
    /// The IPv4 address.
    pub ip: Ipv4Addr,
    /// The port number, in host byte order.
    pub port: u16,
}

/// An IPv6 socket address: IP + port + flow info + scope id.
#[derive(Clone, Copy, Debug)]
pub struct SocketAddrV6 {
    /// The IPv6 address.
    pub ip: Ipv6Addr,
    /// The port number, in host byte order.
    pub port: u16,
    /// IPv6 flow information.
    pub flowinfo: u32,
    /// Scope ID.
    pub scope_id: u32,
}

/// A socket address (IPv4 or IPv6).
#[derive(Clone, Copy, Debug)]
pub enum SocketAddr {
    V4(SocketAddrV4),
    V6(SocketAddrV6),
}

/// The port of a socket address.
pub open spec fn addr_port(a: SocketAddr) -> u16 {
    match a {
        SocketAddr::V4(v4) => v4.port,
        SocketAddr::V6(v6) => v6.port,
    }
}

/// The address family of a socket address.
pub open spec fn addr_family(a: SocketAddr) -> i32 {
    match a {
        SocketAddr::V4(_) => AF_INET,
        SocketAddr::V6(_) => AF_INET6,
    }
}

impl SocketAddr {
    /// Create an IPv4 socket address.
    pub fn new_v4(ip: Ipv4Addr, port: u16) -> (a: Self)
        ensures
            a == SocketAddr::V4(SocketAddrV4 { ip, port }),
    {
        SocketAddr::V4(SocketAddrV4 { ip, port })
    }

    /// Create an IPv6 socket address, with zero flow info and scope id.
    pub fn new_v6(ip: Ipv6Addr, port: u16) -> (a: Self)
        ensures
            a == SocketAddr::V6(SocketAddrV6 { ip, port, flowinfo: 0, scope_id: 0 }),
    {
        SocketAddr::V6(SocketAddrV6 { ip, port, flowinfo: 0, scope_id: 0 })
    }

    /// The address family (`AF_INET` or `AF_INET6`).
    pub fn family(&self) -> (f: i32)
        ensures
            f == addr_family(*self),
    {
        match self {
            SocketAddr::V4(_) => AF_INET,
            SocketAddr::V6(_) => AF_INET6,
        }
    }

    /// The port number.
    pub fn port(&self) -> (p: u16)
        ensures
            p == addr_port(*self),
    {
        match self {
            SocketAddr::V4(v4) => v4.port,
            SocketAddr::V6(v6) => v6.port,
        }
    }

    /// Encode this address as the kernel's `sockaddr_in` or `sockaddr_in6`
    /// and return it with its length in bytes (the `addrlen` of
    /// `kernel_bind`). Port, IPv4 address and flow info are laid out in
    /// network byte order; the scope id is kept in host order.
    pub fn to_raw(self) -> (r: (SockaddrStorage, i32))
        ensures
            match self {
                SocketAddr::V4(v4) => r.1 == SOCKADDR_IN_LEN && (r.0 matches SockaddrStorage::V4(sa) && {
                    &&& sa.sin_family == AF_INET as u16
                    &&& be16(sa.sin_port@) == v4.port
                    &&& sa.sin_addr@ == v4.ip.0@
                    &&& be32(sa.sin_addr@) == v4.ip.to_bits_spec()
                    &&& forall|i: int| 0 <= i < 8 ==> sa.sin_zero@[i] == 0
                }),
                SocketAddr::V6(v6) => r.1 == SOCKADDR_IN6_LEN && (r.0 matches SockaddrStorage::V6(sa) && {
                    &&& sa.sin6_family == AF_INET6 as u16
                    &&& be16(sa.sin6_port@) == v6.port
                    &&& be32(sa.sin6_flowinfo@) == v6.flowinfo
                    &&& sa.sin6_addr@ == v6.ip.0@
                    &&& sa.sin6_scope_id == v6.scope_id
                }),
            },
    {
        match self {
            SocketAddr::V4(v4) => {
                let sa = SockaddrIn {
                    sin_family: 2u16,
                    sin_port: be16_bytes(v4.port),
                    sin_addr: v4.ip.0,
                    sin_zero: [0u8; 8],
                };
                (SockaddrStorage::V4(sa), SOCKADDR_IN_LEN)
            },
            SocketAddr::V6(v6) => {
                let sa = SockaddrIn6 {
                    sin6_family: 10u16,
                    sin6_port: be16_bytes(v6.port),
                    sin6_flowinfo: be32_bytes(v6.flowinfo),
                    sin6_addr: v6.ip.0,
                    sin6_scope_id: v6.scope_id,
                };
                (SockaddrStorage::V6(sa), SOCKADDR_IN6_LEN)
            },
        }
    }
}

impl Ipv4Addr {
    /// The value `to_bits` returns.
    pub open spec fn to_bits_spec(self) -> int {
        be32(self.0@)
    }
}

/// The two bytes of `v` in network (big-endian) order.
fn be16_bytes(v: u16) -> (b: [u8; 2])
    ensures
        be16(b@) == v,
{
    let hi: u8 = (v >> 8u16) as u8;
    let lo: u8 = (v & 0xffu16) as u8;
    assert(hi as int * 256 + lo as int == v) by (bit_vector)
        requires
            hi == (v >> 8u16) as u8,
            lo == (v & 0xffu16) as u8,
    ;
    [hi, lo]
}

/// The four bytes of `v` in network (big-endian) order.
fn be32_bytes(v: u32) -> (b: [u8; 4])
    ensures
        be32(b@) == v,
{
    let b0: u8 = (v >> 24u32) as u8;
    let b1: u8 = ((v >> 16u32) & 0xffu32) as u8;
    let b2: u8 = ((v >> 8u32) & 0xffu32) as u8;
    let b3: u8 = (v & 0xffu32) as u8;
    assert(b0 as int * 16777216 + b1 as int * 65536 + b2 as int * 256 + b3 as int == v) by (bit_vector)
        requires
            b0 == (v >> 24u32) as u8,
            b1 == ((v >> 16u32) & 0xffu32) as u8,
            b2 == ((v >> 8u32) & 0xffu32) as u8,
            b3 == (v & 0xffu32) as u8,
    ;
    [b0, b1, b2, b3]
}

/// `struct sockaddr_in`, with the network-order fields held as the bytes
/// they occupy in memory.
#[derive(Clone, Copy)]
pub struct SockaddrIn {
    pub sin_family: u16,
    pub sin_port: [u8; 2],
    pub sin_addr: [u8; 4],
    pub sin_zero: [u8; 8],
}

/// `struct sockaddr_in6`, with the network-order fields held as the bytes
/// they occupy in memory.
#[derive(Clone, Copy)]
pub struct SockaddrIn6 {
    pub sin6_family: u16,
    pub sin6_port: [u8; 2],
    pub sin6_flowinfo: [u8; 4],
    pub sin6_addr: [u8; 16],
    pub sin6_scope_id: u32,
}

/// Storage for either `sockaddr_in` or `sockaddr_in6`.
#[derive(Clone, Copy)]
pub enum SockaddrStorage {
    V4(SockaddrIn),
    V6(SockaddrIn6),
}

/// Convert a kernel return value to a `Result`: a negative value is an
/// error carrying that errno, anything else is returned as `Ok`.
pub fn check_err(ret: i32) -> (r: Result<i32, Error>)
    ensures
        ret < 0 ==> (r matches Err(e) && e@ == ret),
        ret >= 0 ==> r == Ok::<i32, Error>(ret),
{
    if ret < 0 {
        Err(Error::from_errno(ret))
    } else {
        Ok(ret)
    }
}

/// The `flags` argument of `kernel_accept`: 0 for a blocking accept,
/// `O_NONBLOCK` otherwise.
pub fn accept_flags(block: bool) -> (flags: i32)
    ensures
        flags == (if block { 0 } else { O_NONBLOCK }),
{
    if block {
        0
    } else {
        O_NONBLOCK
    }
}

/// One step of `write_all`: after `written` more bytes of a `len`-byte
/// buffer were sent from `offset`, the next offset; a write of zero bytes
/// means the connection was reset.
pub fn write_all_step(offset: usize, len: usize, written: usize) -> (r: Result<usize, Error>)
    requires
        offset < len,
        written <= len - offset,
    ensures
        written == 0 ==> (r matches Err(e) && e@ == -ECONNRESET),
        written > 0 ==> r == Ok::<usize, Error>((offset + written) as usize),
{
    if written == 0 {
        Err(Error::econnreset())
    } else {
        Ok(offset + written)
    }
}

/// Where the setup of a listening TCP socket stands: the socket is
/// created, then bound, then set listening.
#[derive(Copy, Clone, Debug, PartialEq, Eq, Structural)]
pub enum ListenerSetup {
    /// The socket is being created.
    Creating,
    /// The socket exists and is being bound.
    Binding,
    /// The socket is bound and is being set listening.
    Listening,
    /// The socket listens.
    Ready,
    /// The setup failed; no socket is left.
    Failed,
}

/// What the caller does after one step of the setup.
pub enum SetupAction {
    /// Bind the socket to the address.
    Bind,
    /// Set the socket listening.
    Listen,
    /// The listener is ready.
    Done,
    /// Release the socket, then fail with this error.
    ReleaseAndFail(Error),
    /// Fail with this error; there is no socket to release.
    Fail(Error),
}

impl ListenerSetup {
    /// The setup before anything was done.
    pub fn new() -> (s: Self)
        ensures
            s == ListenerSetup::Creating,
    {
        ListenerSetup::Creating
    }

    /// The socket exists (it must be released if the setup stops here).
    pub open spec fn holds_socket(self) -> bool {
        self == ListenerSetup::Binding || self == ListenerSetup::Listening
    }

    /// The stage after the call made at this stage returned `ret`.
    pub open spec fn after(self, ret: i32) -> Self {
        match self {
            ListenerSetup::Creating => if ret < 0 { ListenerSetup::Failed } else { ListenerSetup::Binding },
            ListenerSetup::Binding => if ret < 0 { ListenerSetup::Failed } else { ListenerSetup::Listening },
            ListenerSetup::Listening => if ret < 0 { ListenerSetup::Failed } else { ListenerSetup::Ready },
            _ => self,
        }
    }

    /// Take the return value of the call the current stage made
    /// (`sock_create_kern`, `kernel_bind` or `kernel_listen`) and move on:
    /// a negative value ends the setup with that error, releasing the
    /// socket if it was created; otherwise the next call is made, and after
    /// a successful listen the listener is ready.
    pub fn step(&mut self, ret: i32) -> (a: SetupAction)
        requires
            *old(self) != ListenerSetup::Ready,
            *old(self) != ListenerSetup::Failed,
        ensures
            *final(self) == old(self).after(ret),
            ret < 0 && old(self).holds_socket() ==> (a matches SetupAction::ReleaseAndFail(e) && e@ == ret),
            ret < 0 && !old(self).holds_socket() ==> (a matches SetupAction::Fail(e) && e@ == ret),
            ret >= 0 && *old(self) == ListenerSetup::Creating ==> a is Bind,
            ret >= 0 && *old(self) == ListenerSetup::Binding ==> a is Listen,
            ret >= 0 && *old(self) == ListenerSetup::Listening ==> a is Done,
    {
        let held = match *self {
            ListenerSetup::Binding => true,
            ListenerSetup::Listening => true,
            _ => false,
        };
        if ret < 0 {
            *self = ListenerSetup::Failed;
            let e = Error::from_errno(ret);
            if held {
                return SetupAction::ReleaseAndFail(e);
            }
            return SetupAction::Fail(e);
        }
        match *self {
            ListenerSetup::Creating => {
                *self = ListenerSetup::Binding;
                SetupAction::Bind
            },
            ListenerSetup::Binding => {
                *self = ListenerSetup::Listening;
                SetupAction::Listen
            },
            _ => {
                *self = ListenerSetup::Ready;
                SetupAction::Done
            },
        }
    }
}

/// A listener is set up exactly when creating, binding and listening all
/// succeed; otherwise the setup fails, and the socket is released once
/// exactly when it had been created: when the create call succeeded and
/// the bind or the listen call failed.
pub proof fn lemma_listener_setup(create: i32, bind: i32, listen: i32)
    ensures
        ({
            let s1 = ListenerSetup::Creating.after(create);
            let s2 = s1.after(bind);
            let s3 = s2.after(listen);
            &&& (s3 == ListenerSetup::Ready) == (create >= 0 && bind >= 0 && listen >= 0)
            &&& (s3 == ListenerSetup::Failed) == (create < 0 || bind < 0 || listen < 0)
            &&& ((s1.holds_socket() && bind < 0) || (s2.holds_socket() && listen < 0)) == (create >= 0
                && (bind < 0 || listen < 0))
            &&& !((s1.holds_socket() && bind < 0) && (s2.holds_socket() && listen < 0))
        }),
{
}

/// Network byte order puts the most significant byte first: in two bytes
/// the first is the high byte of the value and the second the low byte; in
/// four bytes the first holds bits 24-31 and the last bits 0-7.
pub proof fn lemma_network_order(b: Seq<u8>, c: Seq<u8>)
    requires
        b.len() == 2,
        c.len() == 4,
    ensures
        b[0] == be16(b) / 256,
        b[1] == be16(b) % 256,
        0 <= be16(b) < 65536,
        c[0] == be32(c) / 16777216,
        c[3] == be32(c) % 256,
        c[1] == (be32(c) / 65536) % 256,
        c[2] == (be32(c) / 256) % 256,
{
    let (b0, b1) = (b[0] as int, b[1] as int);
    assert((b0 * 256 + b1) / 256 == b0 && (b0 * 256 + b1) % 256 == b1) by (nonlinear_arith)
        requires
            0 <= b0 < 256,
            0 <= b1 < 256,
    ;
    let (c0, c1, c2, c3) = (c[0] as int, c[1] as int, c[2] as int, c[3] as int);
    assert({
        let v = c0 * 16777216 + c1 * 65536 + c2 * 256 + c3;
        &&& v / 16777216 == c0
        &&& v % 256 == c3
        &&& (v / 65536) % 256 == c1
        &&& (v / 256) % 256 == c2
    }) by (nonlinear_arith)
        requires
            0 <= c0 < 256,
            0 <= c1 < 256,
            0 <= c2 < 256,
            0 <= c3 < 256,
    ;
}

} // verus!
