//! Socket addresses, the bytes in which the kernel keeps them, and the
//! request that makes a socket.
use vstd::prelude::*;
use crate::abi::{
    AF_INET, AF_INET6, SOCKADDR_IN6_LEN, SOCKADDR_IN_LEN, SOCK_CLOEXEC, SOCK_NONBLOCK,
};
use crate::bytes::{
    lemma_u16_round_trip, lemma_u32_round_trip, u16_bytes, u16_of_bytes, u32_bytes, u32_of_bytes,
    ByteOrder,
};
use crate::sys::{Error, Syscall, SyscallView};

verus! {

/// An internet socket address: an IP address of either version, a port, and
/// for IPv6 the flow information and the scope.
#[allow(inconsistent_fields)]
#[derive(Clone, Copy, Debug, PartialEq, Eq)]
pub enum SocketAddr {
    V4 { ip: [u8; 4], port: u16 },
    V6 { ip: [u8; 16], port: u16, flowinfo: u32, scope_id: u32 },
}

/// A socket address as contracts speak of it: the address octets are a
/// sequence, the rest is as in [`SocketAddr`].
pub enum SocketAddrView {
    V4 { ip: Seq<u8>, port: u16 },
    V6 { ip: Seq<u8>, port: u16, flowinfo: u32, scope_id: u32 },
}

impl SocketAddrView {
    /// An IPv4 address has four octets, an IPv6 address sixteen. The view of
    /// every [`SocketAddr`] is well formed.
    pub open spec fn wf(self) -> bool {
        match self {
            SocketAddrView::V4 { ip, .. } => ip.len() == 4,
            SocketAddrView::V6 { ip, .. } => ip.len() == 16,
        }
    }
}

impl View for SocketAddr {
    type V = SocketAddrView;

    open spec fn view(&self) -> SocketAddrView {
        match *self {
            SocketAddr::V4 { ip, port } => SocketAddrView::V4 { ip: ip@, port },
            SocketAddr::V6 { ip, port, flowinfo, scope_id } => SocketAddrView::V6 {
                ip: ip@,
                port,
                flowinfo,
                scope_id,
            },
        }
    }
}

/// The address family of `addr`: [`AF_INET`] or [`AF_INET6`].
pub open spec fn family_of(addr: SocketAddrView) -> i32 {
    match addr {
        SocketAddrView::V4 { .. } => AF_INET,
        SocketAddrView::V6 { .. } => AF_INET6,
    }
}

/// The number of bytes in the kernel's structure for `addr`: that of
/// `sockaddr_in` or of `sockaddr_in6`.
pub open spec fn native_len(addr: SocketAddrView) -> u32 {
    match addr {
        SocketAddrView::V4 { .. } => SOCKADDR_IN_LEN,
        SocketAddrView::V6 { .. } => SOCKADDR_IN6_LEN,
    }
}

/// `n` zero bytes.
pub open spec fn zeros(n: nat) -> Seq<u8> {
    Seq::new(n, |i: int| 0u8)
}

/// The kernel's structure for `addr`, byte for byte, on a machine of the
/// given byte order.
///
/// IPv4, 16 bytes: the family in the machine's order, the port in network
/// order, the four address octets, eight zero bytes.
///
/// IPv6, 28 bytes: the family in the machine's order, the port in network
/// order, the flow information in the machine's order, the sixteen address
/// octets, the scope in the machine's order.
pub open spec fn native_bytes(addr: SocketAddrView, order: ByteOrder) -> Seq<u8> {
    match addr {
        SocketAddrView::V4 { ip, port } => u16_bytes(AF_INET as u16, order) + u16_bytes(
            port,
            ByteOrder::BigEndian,
        ) + ip + zeros(8),
        SocketAddrView::V6 { ip, port, flowinfo, scope_id } => u16_bytes(AF_INET6 as u16, order)
            + u16_bytes(port, ByteOrder::BigEndian) + u32_bytes(flowinfo, order) + ip + u32_bytes(
            scope_id,
            order,
        ),
    }
}

/// The family that the first two bytes of a kernel address name, on a
/// machine of the given byte order.
pub open spec fn native_family(bytes: Seq<u8>, order: ByteOrder) -> u16
    recommends
        bytes.len() >= 2,
{
    u16_of_bytes(bytes.subrange(0, 2), order)
}

/// The socket address that a kernel structure holds.
///
/// The family comes first and decides how the rest is read. A buffer too
/// short to hold a family, a family that is neither IPv4 nor IPv6, and a
/// buffer shorter than its family's structure are all invalid input. What
/// lies behind the structure is not looked at, nor are the eight spare bytes
/// of an IPv4 structure.
pub open spec fn parse_native(bytes: Seq<u8>, order: ByteOrder) -> Result<SocketAddrView, Error> {
    if bytes.len() < 2 {
        Err(Error::InvalidInput)
    } else if native_family(bytes, order) == AF_INET {
        if bytes.len() < SOCKADDR_IN_LEN {
            Err(Error::InvalidInput)
        } else {
            Ok(
                SocketAddrView::V4 {
                    ip: bytes.subrange(4, 8),
                    port: u16_of_bytes(bytes.subrange(2, 4), ByteOrder::BigEndian),
                },
            )
        }
    } else if native_family(bytes, order) == AF_INET6 {
        if bytes.len() < SOCKADDR_IN6_LEN {
            Err(Error::InvalidInput)
        } else {
            Ok(
                SocketAddrView::V6 {
                    ip: bytes.subrange(8, 24),
                    port: u16_of_bytes(bytes.subrange(2, 4), ByteOrder::BigEndian),
                    flowinfo: u32_of_bytes(bytes.subrange(4, 8), order),
                    scope_id: u32_of_bytes(bytes.subrange(24, 28), order),
                },
            )
        }
    } else {
        Err(Error::InvalidInput)
    }
}

/// The view of a parsed address, or the error.
pub open spec fn view_of(r: Result<SocketAddr, Error>) -> Result<SocketAddrView, Error> {
    match r {
        Ok(addr) => Ok(addr@),
        Err(e) => Err(e),
    }
}

/// An IPv4 address and port, laid out and read back on a machine of either
/// byte order, come back as they were.
pub proof fn lemma_v4_round_trip(ip: Seq<u8>, port: u16, order: ByteOrder)
    requires
        ip.len() == 4,
    ensures
        native_bytes(SocketAddrView::V4 { ip, port }, order).len() == SOCKADDR_IN_LEN,
        parse_native(native_bytes(SocketAddrView::V4 { ip, port }, order), order) == Ok::<
            SocketAddrView,
            Error,
        >(SocketAddrView::V4 { ip, port }),
{
    let bytes = native_bytes(SocketAddrView::V4 { ip, port }, order);
    lemma_u16_round_trip(AF_INET as u16, order);
    lemma_u16_round_trip(port, ByteOrder::BigEndian);
    assert(bytes.subrange(0, 2) =~= u16_bytes(AF_INET as u16, order));
    assert(bytes.subrange(2, 4) =~= u16_bytes(port, ByteOrder::BigEndian));
    assert(bytes.subrange(4, 8) =~= ip);
}

/// An IPv6 address, port, flow information and scope, laid out and read back
/// on a machine of either byte order, come back as they were, all four.
pub proof fn lemma_v6_round_trip(
    ip: Seq<u8>,
    port: u16,
    flowinfo: u32,
    scope_id: u32,
    order: ByteOrder,
)
    requires
        ip.len() == 16,
    ensures
        native_bytes(SocketAddrView::V6 { ip, port, flowinfo, scope_id }, order).len()
            == SOCKADDR_IN6_LEN,
        parse_native(
            native_bytes(SocketAddrView::V6 { ip, port, flowinfo, scope_id }, order),
            order,
        ) == Ok::<SocketAddrView, Error>(SocketAddrView::V6 { ip, port, flowinfo, scope_id }),
{
    let bytes = native_bytes(SocketAddrView::V6 { ip, port, flowinfo, scope_id }, order);
    lemma_u16_round_trip(AF_INET6 as u16, order);
    lemma_u16_round_trip(port, ByteOrder::BigEndian);
    lemma_u32_round_trip(flowinfo, order);
    lemma_u32_round_trip(scope_id, order);
    assert(bytes.subrange(0, 2) =~= u16_bytes(AF_INET6 as u16, order));
    assert(bytes.subrange(2, 4) =~= u16_bytes(port, ByteOrder::BigEndian));
    assert(bytes.subrange(4, 8) =~= u32_bytes(flowinfo, order));
    assert(bytes.subrange(8, 24) =~= ip);
    assert(bytes.subrange(24, 28) =~= u32_bytes(scope_id, order));
}

/// Every socket address, laid out and read back on a machine of either byte
/// order, comes back as it was.
pub proof fn lemma_round_trip(addr: SocketAddr, order: ByteOrder)
    ensures
        native_bytes(addr@, order).len() == native_len(addr@),
        parse_native(native_bytes(addr@, order), order) == Ok::<SocketAddrView, Error>(addr@),
{
    match addr@ {
        SocketAddrView::V4 { ip, port } => lemma_v4_round_trip(ip, port, order),
        SocketAddrView::V6 { ip, port, flowinfo, scope_id } => lemma_v6_round_trip(
            ip,
            port,
            flowinfo,
            scope_id,
            order,
        ),
    }
}

/// A buffer whose family is neither IPv4 nor IPv6 is invalid input, whatever
/// its length and whatever follows the family: nothing behind the first two
/// bytes has a say.
pub proof fn lemma_unknown_family_rejected(bytes: Seq<u8>, order: ByteOrder)
    requires
        bytes.len() >= 2,
        native_family(bytes, order) != AF_INET,
        native_family(bytes, order) != AF_INET6,
    ensures
        parse_native(bytes, order) == Err::<SocketAddrView, Error>(Error::InvalidInput),
        forall|rest: Seq<u8>| #[trigger]
            parse_native(bytes.subrange(0, 2) + rest, order) == Err::<SocketAddrView, Error>(
                Error::InvalidInput,
            ),
{
    assert forall|rest: Seq<u8>| #[trigger]
        parse_native(bytes.subrange(0, 2) + rest, order) == Err::<SocketAddrView, Error>(
            Error::InvalidInput,
        ) by {
        let other = bytes.subrange(0, 2) + rest;
        assert(other.subrange(0, 2) =~= bytes.subrange(0, 2));
    }
}

/// What lies behind the structure that the family names is never read: a
/// buffer that parses gives the same address however it goes on after the 16
/// bytes of IPv4 or the 28 bytes of IPv6.
pub proof fn lemma_parse_reads_structure_only(bytes: Seq<u8>, other: Seq<u8>, order: ByteOrder)
    requires
        parse_native(bytes, order) is Ok,
        other.len() >= native_len(parse_native(bytes, order)->Ok_0),
        other.subrange(0, native_len(parse_native(bytes, order)->Ok_0) as int) == bytes.subrange(
            0,
            native_len(parse_native(bytes, order)->Ok_0) as int,
        ),
    ensures
        parse_native(other, order) == parse_native(bytes, order),
{
    let n = native_len(parse_native(bytes, order)->Ok_0) as int;
    let a = bytes.subrange(0, n);
    let b = other.subrange(0, n);
    assert(bytes.subrange(0, 2) =~= a.subrange(0, 2));
    assert(other.subrange(0, 2) =~= b.subrange(0, 2));
    assert(bytes.subrange(2, 4) =~= a.subrange(2, 4));
    assert(other.subrange(2, 4) =~= b.subrange(2, 4));
    assert(bytes.subrange(4, 8) =~= a.subrange(4, 8));
    assert(other.subrange(4, 8) =~= b.subrange(4, 8));
    if n == 28 {
        assert(bytes.subrange(8, 24) =~= a.subrange(8, 24));
        assert(other.subrange(8, 24) =~= b.subrange(8, 24));
        assert(bytes.subrange(24, 28) =~= a.subrange(24, 28));
        assert(other.subrange(24, 28) =~= b.subrange(24, 28));
    }
}

/// The buffer that [`socket_addr`] fills, and any larger one that begins
/// with the structure, reads back as the address that was laid out.
pub proof fn lemma_round_trip_in_buffer(addr: SocketAddr, rest: Seq<u8>, order: ByteOrder)
    ensures
        parse_native(native_bytes(addr@, order) + rest, order) == Ok::<SocketAddrView, Error>(
            addr@,
        ),
{
    lemma_round_trip(addr, order);
    let bytes = native_bytes(addr@, order);
    let n = native_len(addr@) as int;
    assert((bytes + rest).subrange(0, n) =~= bytes.subrange(0, n));
    lemma_parse_reads_structure_only(bytes, bytes + rest, order);
}

/// Room for the kernel's structure of either family: the 28 bytes of
/// `sockaddr_in6`, of which an IPv4 address fills the first 16 and leaves the
/// rest zero.
#[derive(Clone, Copy, Debug, PartialEq, Eq)]
pub struct SocketAddrCRepr {
    bytes: [u8; 28],
}

impl View for SocketAddrCRepr {
    type V = Seq<u8>;

    closed spec fn view(&self) -> Seq<u8> {
        self.bytes@
    }
}

impl SocketAddrCRepr {
    /// The 28 bytes, to hand to the kernel together with the length that
    /// [`socket_addr`] gave.
    pub fn as_bytes(&self) -> (bytes: &[u8; 28])
        ensures
            bytes@ == self@,
    {
        &self.bytes
    }
}

impl SocketAddr {
    /// The address family: [`AF_INET`] or [`AF_INET6`].
    pub fn family(&self) -> (family: i32)
        ensures
            family == family_of(self@),
    {
        match self {
            SocketAddr::V4 { .. } => AF_INET,
            SocketAddr::V6 { .. } => AF_INET6,
        }
    }

    /// The port.
    pub fn port(&self) -> (port: u16)
        ensures
            port == match self@ {
                SocketAddrView::V4 { port, .. } => port,
                SocketAddrView::V6 { port, .. } => port,
            },
    {
        match self {
            SocketAddr::V4 { port, .. } => *port,
            SocketAddr::V6 { port, .. } => *port,
        }
    }
}

/// The socket type that goes to the kernel for a socket of type
/// `socket_type`: the type together with the two flags that make the new
/// descriptor non-blocking and closed on exec from its first moment.
pub open spec fn creation_type(socket_type: i32) -> i32 {
    socket_type | SOCK_NONBLOCK | SOCK_CLOEXEC
}

/// Whatever the socket type, the type that goes to the kernel has both
/// flags set, so no socket of this crate is ever blocking or inherited, not
/// even between its creation and a later call.
pub proof fn lemma_creation_type_has_both_flags(socket_type: i32)
    ensures
        creation_type(socket_type) & SOCK_NONBLOCK == SOCK_NONBLOCK,
        creation_type(socket_type) & SOCK_CLOEXEC == SOCK_CLOEXEC,
{
    assert((socket_type | 0x800i32 | 0x80000i32) & 0x800i32 == 0x800i32) by (bit_vector);
    assert((socket_type | 0x800i32 | 0x80000i32) & 0x80000i32 == 0x80000i32) by (bit_vector);
}

/// The call that makes a socket of the given domain and type, non-blocking
/// and closed on exec: both flags go to the kernel in the same call as the
/// type, and the protocol is left to the kernel.
pub fn create_new_socket(domain: i32, socket_type: i32) -> (call: Syscall)
    ensures
        call@ == (SyscallView::Socket {
            domain,
            socket_type: creation_type(socket_type),
            protocol: 0,
        }),
{
    Syscall::Socket { domain, socket_type: socket_type | SOCK_NONBLOCK | SOCK_CLOEXEC, protocol: 0 }
}

/// Lays `addr` out as the kernel reads it on a machine of the given byte
/// order, and gives the length of the structure: 16 for IPv4, 28 for IPv6.
/// That length, not the size of the buffer, goes to the kernel with it.
pub fn socket_addr(addr: &SocketAddr, order: ByteOrder) -> (r: (SocketAddrCRepr, u32))
    ensures
        r.0@.len() == 28,
        r.0@ == native_bytes(addr@, order) + zeros((28 - native_len(addr@)) as nat),
        r.0@.subrange(0, r.1 as int) == native_bytes(addr@, order),
        r.1 == native_len(addr@),
{
    match addr {
        SocketAddr::V4 { ip, port } => {
            let f: [u8; 2] = order.u16_to_bytes(AF_INET as u16);
            let p: [u8; 2] = ByteOrder::BigEndian.u16_to_bytes(*port);
            let bytes: [u8; 28] = [
                f[0], f[1], p[0], p[1], ip[0], ip[1], ip[2], ip[3], 0, 0, 0, 0, 0, 0, 0, 0, 0, 0,
                0, 0, 0, 0, 0, 0, 0, 0, 0, 0,
            ];
            assert(bytes@ =~= native_bytes(addr@, order) + zeros(12));
            assert(bytes@.subrange(0, 16) =~= native_bytes(addr@, order));
            (SocketAddrCRepr { bytes }, SOCKADDR_IN_LEN)
        },
        SocketAddr::V6 { ip, port, flowinfo, scope_id } => {
            let f: [u8; 2] = order.u16_to_bytes(AF_INET6 as u16);
            let p: [u8; 2] = ByteOrder::BigEndian.u16_to_bytes(*port);
            let l: [u8; 4] = order.u32_to_bytes(*flowinfo);
            let s: [u8; 4] = order.u32_to_bytes(*scope_id);
            let bytes: [u8; 28] = [
                f[0], f[1], p[0], p[1], l[0], l[1], l[2], l[3], ip[0], ip[1], ip[2], ip[3], ip[4],
                ip[5], ip[6], ip[7], ip[8], ip[9], ip[10], ip[11], ip[12], ip[13], ip[14], ip[15],
                s[0], s[1], s[2], s[3],
            ];
            assert(bytes@ =~= native_bytes(addr@, order) + zeros(0));
            assert(bytes@.subrange(0, 28) =~= native_bytes(addr@, order));
            (SocketAddrCRepr { bytes }, SOCKADDR_IN6_LEN)
        },
    }
}

/// Reads the socket address out of the bytes that the kernel wrote on a
/// machine of the given byte order.
///
/// The family is read first. Only where it is IPv4 or IPv6, and the buffer
/// holds the whole structure of that family, is anything more read; every
/// other buffer is [`Error::InvalidInput`].
pub fn to_socket_addr(storage: &[u8], order: ByteOrder) -> (r: Result<SocketAddr, Error>)
    ensures
        view_of(r) == parse_native(storage@, order),
        storage@.len() >= 2 && native_family(storage@, order) != AF_INET && native_family(
            storage@,
            order,
        ) != AF_INET6 ==> r == Err::<SocketAddr, Error>(Error::InvalidInput),
{
    if storage.len() < 2 {
        return Err(Error::InvalidInput);
    }
    let family: u16 = order.u16_from_bytes(storage[0], storage[1]);
    assert(storage@.subrange(0, 2) =~= seq![storage@[0], storage@[1]]);
    if family == AF_INET as u16 {
        if storage.len() < 16 {
            return Err(Error::InvalidInput);
        }
        let port: u16 = ByteOrder::BigEndian.u16_from_bytes(storage[2], storage[3]);
        let ip: [u8; 4] = [storage[4], storage[5], storage[6], storage[7]];
        assert(storage@.subrange(2, 4) =~= seq![storage@[2], storage@[3]]);
        assert(ip@ =~= storage@.subrange(4, 8));
        Ok(SocketAddr::V4 { ip, port })
    } else if family == AF_INET6 as u16 {
        if storage.len() < 28 {
            return Err(Error::InvalidInput);
        }
        let port: u16 = ByteOrder::BigEndian.u16_from_bytes(storage[2], storage[3]);
        let flowinfo: u32 = order.u32_from_bytes(storage[4], storage[5], storage[6], storage[7]);
        let ip: [u8; 16] = [
            storage[8], storage[9], storage[10], storage[11], storage[12], storage[13],
            storage[14], storage[15], storage[16], storage[17], storage[18], storage[19],
            storage[20], storage[21], storage[22], storage[23],
        ];
        let scope_id: u32 = order.u32_from_bytes(
            storage[24],
            storage[25],
            storage[26],
            storage[27],
        );
        assert(storage@.subrange(2, 4) =~= seq![storage@[2], storage@[3]]);
        assert(storage@.subrange(4, 8) =~= seq![
            storage@[4],
            storage@[5],
            storage@[6],
            storage@[7],
        ]);
        assert(storage@.subrange(24, 28) =~= seq![
            storage@[24],
            storage@[25],
            storage@[26],
            storage@[27],
        ]);
        assert(ip@ =~= storage@.subrange(8, 24));
        Ok(SocketAddr::V6 { ip, port, flowinfo, scope_id })
    } else {
        Err(Error::InvalidInput)
    }
}

} // verus!
