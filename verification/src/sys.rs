//! System calls as values: what to ask of the kernel, what it answered, and
//! what went wrong.
use vstd::prelude::*;
use crate::abi::{EAGAIN, FAILED};
use crate::net::SocketAddrCRepr;

verus! {

/// One system call, with the arguments to make it with.
///
/// The crate never makes a call. It hands out the call as a value, the
/// caller makes it and hands back the kernel's [`Reply`].
#[derive(Clone, Copy, Debug, PartialEq, Eq)]
pub enum Syscall {
    /// `socket(domain, socket_type, protocol)`
    Socket { domain: i32, socket_type: i32, protocol: i32 },
    /// `setsockopt(fd, level, name, &value, 4)`, for an option that is one
    /// `int`.
    SetSockOpt { fd: i32, level: i32, name: i32, value: i32 },
    /// `bind(fd, addr, len)`: of the buffer `addr` the first `len` bytes are
    /// the address.
    Bind { fd: i32, addr: SocketAddrCRepr, len: u32 },
    /// `listen(fd, backlog)`
    Listen { fd: i32, backlog: i32 },
    /// `connect(fd, addr, len)`: of the buffer `addr` the first `len` bytes
    /// are the address.
    Connect { fd: i32, addr: SocketAddrCRepr, len: u32 },
    /// `accept4(fd, storage, &mut capacity, flags)`, with a buffer of
    /// `capacity` bytes for the peer's address.
    Accept4 { fd: i32, capacity: u32, flags: i32 },
    /// `close(fd)`
    Close { fd: i32 },
}

/// A system call as contracts speak of it: an address buffer is the sequence
/// of its bytes.
pub enum SyscallView {
    Socket { domain: i32, socket_type: i32, protocol: i32 },
    SetSockOpt { fd: i32, level: i32, name: i32, value: i32 },
    Bind { fd: i32, addr: Seq<u8>, len: u32 },
    Listen { fd: i32, backlog: i32 },
    Connect { fd: i32, addr: Seq<u8>, len: u32 },
    Accept4 { fd: i32, capacity: u32, flags: i32 },
    Close { fd: i32 },
}

impl View for Syscall {
    type V = SyscallView;

    open spec fn view(&self) -> SyscallView {
        match *self {
            Syscall::Socket { domain, socket_type, protocol } => SyscallView::Socket {
                domain,
                socket_type,
                protocol,
            },
            Syscall::SetSockOpt { fd, level, name, value } => SyscallView::SetSockOpt {
                fd,
                level,
                name,
                value,
            },
            Syscall::Bind { fd, addr, len } => SyscallView::Bind { fd, addr: addr@, len },
            Syscall::Listen { fd, backlog } => SyscallView::Listen { fd, backlog },
            Syscall::Connect { fd, addr, len } => SyscallView::Connect { fd, addr: addr@, len },
            Syscall::Accept4 { fd, capacity, flags } => SyscallView::Accept4 {
                fd,
                capacity,
                flags,
            },
            Syscall::Close { fd } => SyscallView::Close { fd },
        }
    }
}

/// Why an operation failed.
#[derive(Clone, Copy, Debug, PartialEq, Eq, Structural)]
pub enum Error {
    /// A system call failed; the number is the kernel's error number, as it
    /// came.
    Os(i32),
    /// A socket address names no family that this crate knows, or is too
    /// short for the family that it names.
    InvalidInput,
}

impl Error {
    /// Whether this is the kernel saying that the call would have had to
    /// wait. It is no failure: the caller tries again once the descriptor is
    /// ready.
    pub open spec fn is_would_block(self) -> bool {
        self == Error::Os(EAGAIN)
    }

    /// Whether the call would have had to wait.
    pub fn would_block(&self) -> (b: bool)
        ensures
            b == self.is_would_block(),
    {
        match self {
            Error::Os(errno) => *errno == EAGAIN,
            Error::InvalidInput => false,
        }
    }

    /// The kernel's error number, if the kernel reported this error.
    pub fn raw_os_error(&self) -> (errno: Option<i32>)
        ensures
            errno == match *self {
                Error::Os(e) => Some(e),
                Error::InvalidInput => None::<i32>,
            },
    {
        match self {
            Error::Os(e) => Some(*e),
            Error::InvalidInput => None,
        }
    }
}

/// What the kernel answered to one system call: the value that the call
/// returned, and the error number that stood right after it. The error
/// number means something only where the call failed.
#[derive(Clone, Copy, Debug, PartialEq, Eq, Structural)]
pub struct Reply {
    pub ret: i32,
    pub errno: i32,
}

impl Reply {
    /// What the reply means: a call that returned -1 failed with the error
    /// number, any other value is the call's result.
    pub open spec fn outcome(self) -> Result<i32, Error> {
        if self.ret == FAILED {
            Err(Error::Os(self.errno))
        } else {
            Ok(self.ret)
        }
    }

    /// Whether the call failed.
    pub open spec fn failed(self) -> bool {
        self.ret == FAILED
    }

    /// The reply as a result.
    pub fn result(&self) -> (r: Result<i32, Error>)
        ensures
            r == self.outcome(),
    {
        if self.ret == FAILED {
            Err(Error::Os(self.errno))
        } else {
            Ok(self.ret)
        }
    }
}

} // verus!
