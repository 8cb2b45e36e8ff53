//! The numbers of the Linux socket interface.
//!
//! These are the values of Linux's generic ABI, which x86-64, AArch64, Arm,
//! RISC-V, PowerPC and s390x share. A few architectures, MIPS and SPARC
//! among them, number the socket types, the options and some errors
//! otherwise; this crate does not serve them.
use vstd::prelude::*;

verus! {

/// Address family of IPv4.
pub const AF_INET: i32 = 2;

/// Address family of IPv6.
pub const AF_INET6: i32 = 10;

/// Socket type of a byte stream.
pub const SOCK_STREAM: i32 = 1;

/// Socket type flag: calls on the socket never block.
pub const SOCK_NONBLOCK: i32 = 0x800;

/// Socket type flag: the descriptor is closed when the process runs another
/// program.
pub const SOCK_CLOEXEC: i32 = 0x80000;

/// Level of the options that belong to the socket itself.
pub const SOL_SOCKET: i32 = 1;

/// Socket option: the address may be bound again while old connections to it
/// linger.
pub const SO_REUSEADDR: i32 = 2;

/// What every failed system call returns.
pub const FAILED: i32 = -1;

/// Error number: the call would have had to wait (`EWOULDBLOCK` is the same
/// number).
pub const EAGAIN: i32 = 11;

/// Error number: the connection is being set up.
pub const EINPROGRESS: i32 = 115;

/// Bytes in the kernel's IPv4 socket address, `sockaddr_in`.
pub const SOCKADDR_IN_LEN: u32 = 16;

/// Bytes in the kernel's IPv6 socket address, `sockaddr_in6`.
pub const SOCKADDR_IN6_LEN: u32 = 28;

/// Bytes in `sockaddr_storage`, which holds a socket address of any family.
pub const SOCKADDR_STORAGE_LEN: u32 = 128;

/// Connections that a listener lets wait to be accepted.
pub const LISTEN_BACKLOG: i32 = 1024;

} // verus!
