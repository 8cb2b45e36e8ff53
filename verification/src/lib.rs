//! Non-blocking TCP sockets on Linux, with the system calls left to the caller.
//!
//! The crate decides and the caller acts. Every function here is a pure
//! computation with a proved contract: it lays an address out as the kernel
//! reads it, parses what the kernel wrote, says which system call comes next
//! and what its reply means. Performing a call is the caller's part.
//!
//! * [`abi`]: the numbers of the Linux socket interface.
//! * [`bytes`]: integers as bytes, in either byte order.
//! * [`sys`]: system calls as values, their replies and errors.
//! * [`net`]: socket addresses, their kernel layout, and socket creation.
//! * [`tcp`]: binding a listener, accepting, and connecting a stream.
pub mod abi;
pub mod bytes;
pub mod sys;
pub mod net;
pub mod tcp;
