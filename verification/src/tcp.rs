//! Binding a listener, accepting a connection and connecting a stream, each
//! as the system calls to make and the meaning of their replies.
use vstd::prelude::*;
use crate::abi::{
    EAGAIN, EINPROGRESS, FAILED, LISTEN_BACKLOG, SOCKADDR_STORAGE_LEN, SOCK_CLOEXEC, SOCK_NONBLOCK,
    SOCK_STREAM, SOL_SOCKET, SO_REUSEADDR,
};
use crate::bytes::ByteOrder;
use crate::net::{
    create_new_socket, creation_type, family_of, native_bytes, native_len, parse_native,
    socket_addr, to_socket_addr, zeros, SocketAddr, SocketAddrView,
};
use crate::sys::{Error, Reply, Syscall, SyscallView};

verus! {

/// The call that makes a TCP socket for `addr`: a stream socket of the
/// address's family, non-blocking and closed on exec.
pub fn new_for_addr(addr: &SocketAddr) -> (call: Syscall)
    ensures
        call@ == (SyscallView::Socket {
            domain: family_of(addr@),
            socket_type: creation_type(SOCK_STREAM),
            protocol: 0,
        }),
{
    create_new_socket(addr.family(), SOCK_STREAM)
}

/// What a socket is being set up for.
#[derive(Clone, Copy, Debug, PartialEq, Eq, Structural)]
pub enum Role {
    /// A listener, bound to the address.
    Listener,
    /// A stream, connected to the address.
    Stream,
}

/// How far the setting up of a socket has come: the call whose reply is
/// awaited, or the end.
#[derive(Clone, Copy, Debug, PartialEq, Eq, Structural)]
pub enum Stage {
    /// `socket` is asked for; there is no descriptor yet.
    Create,
    /// `setsockopt` is asked for, to let the address be bound again at once.
    Reuse { fd: i32 },
    /// `bind` is asked for.
    Bind { fd: i32 },
    /// `listen` is asked for.
    Listen { fd: i32 },
    /// `connect` is asked for.
    Connect { fd: i32 },
    /// A call on `fd` failed with `error`; `close` is asked for.
    Abort { fd: i32, error: Error },
    /// The socket is set up. The descriptor now belongs to the caller.
    Ready { fd: i32 },
    /// The stream's connection is on its way. The descriptor now belongs to
    /// the caller, who waits until it is writable and then asks the socket
    /// for its pending error to learn whether the connection came about.
    Connecting { fd: i32 },
    /// No socket was set up, and no descriptor is left open.
    Failed { error: Error },
}

impl Stage {
    /// The descriptor that the setup holds open at this stage, if any. At
    /// `Ready` it has passed to the caller, at `Failed` there is none.
    pub open spec fn held(self) -> Option<i32> {
        match self {
            Stage::Reuse { fd } => Some(fd),
            Stage::Bind { fd } => Some(fd),
            Stage::Listen { fd } => Some(fd),
            Stage::Connect { fd } => Some(fd),
            Stage::Abort { fd, .. } => Some(fd),
            Stage::Create => None,
            Stage::Ready { .. } => None,
            Stage::Connecting { .. } => None,
            Stage::Failed { .. } => None,
        }
    }

    /// Whether the setup has ended, well or badly.
    pub open spec fn is_done(self) -> bool {
        self is Ready || self is Connecting || self is Failed
    }
}

/// What the caller does next.
#[derive(Clone, Copy, Debug, PartialEq, Eq)]
pub enum Step {
    /// Make this call and hand back its reply.
    Call(Syscall),
    /// Nothing more: the descriptor of the socket that is set up, or why
    /// there is none.
    Done(Result<i32, Error>),
}

/// A step as contracts speak of it.
pub enum StepView {
    Call(SyscallView),
    Done(Result<i32, Error>),
}

impl View for Step {
    type V = StepView;

    open spec fn view(&self) -> StepView {
        match *self {
            Step::Call(call) => StepView::Call(call@),
            Step::Done(r) => StepView::Done(r),
        }
    }
}

/// A setup as contracts speak of it.
pub struct SetupView {
    pub role: Role,
    pub addr: SocketAddrView,
    pub order: ByteOrder,
    pub stage: Stage,
}

/// The buffer that goes to the kernel with `bind` and `connect`: the
/// structure of `addr`, followed by zero bytes up to 28.
pub open spec fn address_buffer(addr: SocketAddrView, order: ByteOrder) -> Seq<u8> {
    native_bytes(addr, order) + zeros((28 - native_len(addr)) as nat)
}

impl SetupView {
    /// The step that the setup asks for at its stage.
    pub open spec fn pending(self) -> StepView {
        match self.stage {
            Stage::Create => StepView::Call(
                SyscallView::Socket {
                    domain: family_of(self.addr),
                    socket_type: creation_type(SOCK_STREAM),
                    protocol: 0,
                },
            ),
            Stage::Reuse { fd } => StepView::Call(
                SyscallView::SetSockOpt { fd, level: SOL_SOCKET, name: SO_REUSEADDR, value: 1 },
            ),
            Stage::Bind { fd } => StepView::Call(
                SyscallView::Bind {
                    fd,
                    addr: address_buffer(self.addr, self.order),
                    len: native_len(self.addr),
                },
            ),
            Stage::Listen { fd } => StepView::Call(
                SyscallView::Listen { fd, backlog: LISTEN_BACKLOG },
            ),
            Stage::Connect { fd } => StepView::Call(
                SyscallView::Connect {
                    fd,
                    addr: address_buffer(self.addr, self.order),
                    len: native_len(self.addr),
                },
            ),
            Stage::Abort { fd, .. } => StepView::Call(SyscallView::Close { fd }),
            Stage::Ready { fd } => StepView::Done(Ok(fd)),
            Stage::Connecting { fd } => StepView::Done(Ok(fd)),
            Stage::Failed { error } => StepView::Done(Err(error)),
        }
    }

    /// The stage after the kernel's reply to the call that was asked for.
    ///
    /// A failed `socket` ends the setup with its error. A failed call on the
    /// new descriptor leads to `close` and then ends the setup with that
    /// call's error; a `connect` that is in progress has not failed, and ends
    /// the setup well. What `close` replies changes nothing, and a setup that
    /// has ended stays as it is.
    pub open spec fn after(self, reply: Reply) -> Stage {
        match self.stage {
            Stage::Create => if reply.failed() {
                Stage::Failed { error: Error::Os(reply.errno) }
            } else {
                match self.role {
                    Role::Listener => Stage::Reuse { fd: reply.ret },
                    Role::Stream => Stage::Connect { fd: reply.ret },
                }
            },
            Stage::Reuse { fd } => if reply.failed() {
                Stage::Abort { fd, error: Error::Os(reply.errno) }
            } else {
                Stage::Bind { fd }
            },
            Stage::Bind { fd } => if reply.failed() {
                Stage::Abort { fd, error: Error::Os(reply.errno) }
            } else {
                Stage::Listen { fd }
            },
            Stage::Listen { fd } => if reply.failed() {
                Stage::Abort { fd, error: Error::Os(reply.errno) }
            } else {
                Stage::Ready { fd }
            },
            Stage::Connect { fd } => if !reply.failed() {
                Stage::Ready { fd }
            } else if reply.errno == EINPROGRESS {
                Stage::Connecting { fd }
            } else {
                Stage::Abort { fd, error: Error::Os(reply.errno) }
            },
            Stage::Abort { fd, error } => Stage::Failed { error },
            Stage::Ready { fd } => Stage::Ready { fd },
            Stage::Connecting { fd } => Stage::Connecting { fd },
            Stage::Failed { error } => Stage::Failed { error },
        }
    }

    /// The setup after the kernel's reply to the call that was asked for.
    pub open spec fn resume(self, reply: Reply) -> SetupView {
        SetupView { stage: self.after(reply), ..self }
    }

    /// The setup after the replies to its calls, one after the other.
    pub open spec fn run(self, replies: Seq<Reply>) -> SetupView
        decreases replies.len(),
    {
        if replies.len() == 0 {
            self
        } else {
            self.resume(replies[0]).run(replies.drop_first())
        }
    }

    /// The calls that the setup asks for while it gets these replies, one
    /// call for each reply that it still waits for.
    pub open spec fn calls(self, replies: Seq<Reply>) -> Seq<SyscallView>
        decreases replies.len(),
    {
        if replies.len() == 0 {
            Seq::empty()
        } else {
            match self.pending() {
                StepView::Call(call) => seq![call] + self.resume(replies[0]).calls(
                    replies.drop_first(),
                ),
                StepView::Done(_) => Seq::empty(),
            }
        }
    }

    /// A setup as its constructor leaves it.
    pub open spec fn start(role: Role, addr: SocketAddrView, order: ByteOrder) -> SetupView {
        SetupView { role, addr, order, stage: Stage::Create }
    }

    /// The stages that a setup of this role passes through, and in them a
    /// descriptor that is not the value that stands for failure.
    pub open spec fn wf(self) -> bool {
        &&& self.addr.wf()
        &&& match self.stage {
            Stage::Create => true,
            Stage::Reuse { fd } => self.role == Role::Listener && fd != FAILED,
            Stage::Bind { fd } => self.role == Role::Listener && fd != FAILED,
            Stage::Listen { fd } => self.role == Role::Listener && fd != FAILED,
            Stage::Connect { fd } => self.role == Role::Stream && fd != FAILED,
            Stage::Abort { fd, .. } => fd != FAILED,
            Stage::Ready { fd } => fd != FAILED,
            Stage::Connecting { fd } => self.role == Role::Stream && fd != FAILED,
            Stage::Failed { .. } => true,
        }
    }
}

/// The setting up of one socket: a listener bound to an address, or a stream
/// connected to one.
///
/// The caller asks for the [`pending`](Setup::pending) step, makes the call,
/// hands the reply to [`resume`](Setup::resume), and goes on until the step
/// is [`Step::Done`]. The descriptor of a setup that ends well is the
/// caller's from then on; for a setup that ends badly the close of the
/// descriptor was among the calls.
pub struct Setup {
    role: Role,
    addr: SocketAddr,
    order: ByteOrder,
    stage: Stage,
}

impl View for Setup {
    type V = SetupView;

    closed spec fn view(&self) -> SetupView {
        SetupView { role: self.role, addr: self.addr@, order: self.order, stage: self.stage }
    }
}

impl Setup {
    #[verifier::type_invariant]
    spec fn inv(self) -> bool {
        self@.wf()
    }

    /// Begins to set up a listener bound to `addr`, on a machine of the
    /// given byte order.
    pub fn bind(addr: SocketAddr, order: ByteOrder) -> (setup: Setup)
        ensures
            setup@ == SetupView::start(Role::Listener, addr@, order),
    {
        Setup { role: Role::Listener, addr, order, stage: Stage::Create }
    }

    /// Begins to set up a stream connected to `addr`, on a machine of the
    /// given byte order.
    pub fn connect(addr: SocketAddr, order: ByteOrder) -> (setup: Setup)
        ensures
            setup@ == SetupView::start(Role::Stream, addr@, order),
    {
        Setup { role: Role::Stream, addr, order, stage: Stage::Create }
    }

    /// The stage that the setup has come to.
    pub fn stage(&self) -> (stage: Stage)
        ensures
            stage == self@.stage,
            self@.wf(),
    {
        proof {
            use_type_invariant(self);
        }
        self.stage
    }

    /// The step to take now: the call whose reply the setup waits for, or
    /// its end. A descriptor that it ends with is never -1.
    pub fn pending(&self) -> (step: Step)
        ensures
            step@ == self@.pending(),
            self@.wf(),
            step matches Step::Done(Ok(fd)) ==> fd != FAILED,
    {
        proof {
            use_type_invariant(self);
        }
        match self.stage {
            Stage::Create => Step::Call(new_for_addr(&self.addr)),
            Stage::Reuse { fd } => Step::Call(
                Syscall::SetSockOpt { fd, level: SOL_SOCKET, name: SO_REUSEADDR, value: 1 },
            ),
            Stage::Bind { fd } => {
                let (addr, len) = socket_addr(&self.addr, self.order);
                Step::Call(Syscall::Bind { fd, addr, len })
            },
            Stage::Listen { fd } => Step::Call(Syscall::Listen { fd, backlog: LISTEN_BACKLOG }),
            Stage::Connect { fd } => {
                let (addr, len) = socket_addr(&self.addr, self.order);
                Step::Call(Syscall::Connect { fd, addr, len })
            },
            Stage::Abort { fd, .. } => Step::Call(Syscall::Close { fd }),
            Stage::Ready { fd } => Step::Done(Ok(fd)),
            Stage::Connecting { fd } => Step::Done(Ok(fd)),
            Stage::Failed { error } => Step::Done(Err(error)),
        }
    }

    /// Takes the kernel's reply to the pending call and moves on.
    pub fn resume(self, reply: Reply) -> (next: Setup)
        ensures
            next@ == self@.resume(reply),
    {
        proof {
            use_type_invariant(&self);
        }
        let stage: Stage = match self.stage {
            Stage::Create => match reply.result() {
                Err(error) => Stage::Failed { error },
                Ok(fd) => match self.role {
                    Role::Listener => Stage::Reuse { fd },
                    Role::Stream => Stage::Connect { fd },
                },
            },
            Stage::Reuse { fd } => match reply.result() {
                Err(error) => Stage::Abort { fd, error },
                Ok(_) => Stage::Bind { fd },
            },
            Stage::Bind { fd } => match reply.result() {
                Err(error) => Stage::Abort { fd, error },
                Ok(_) => Stage::Listen { fd },
            },
            Stage::Listen { fd } => match reply.result() {
                Err(error) => Stage::Abort { fd, error },
                Ok(_) => Stage::Ready { fd },
            },
            Stage::Connect { fd } => match reply.result() {
                Ok(_) => Stage::Ready { fd },
                Err(error) => if reply.errno == EINPROGRESS {
                    Stage::Connecting { fd }
                } else {
                    Stage::Abort { fd, error }
                },
            },
            Stage::Abort { fd, error } => Stage::Failed { error },
            Stage::Ready { fd } => Stage::Ready { fd },
            Stage::Connecting { fd } => Stage::Connecting { fd },
            Stage::Failed { error } => Stage::Failed { error },
        };
        Setup { role: self.role, addr: self.addr, order: self.order, stage }
    }
}

/// A listener is set up by four calls in this order: `socket`, `setsockopt`
/// for the reuse of the address, `bind` to the address laid out for the
/// kernel, `listen` with a backlog of 1024. Where none of them fails, the
/// setup ends with the descriptor that `socket` gave.
pub proof fn lemma_bind_in_order(
    addr: SocketAddr,
    order: ByteOrder,
    created: Reply,
    reused: Reply,
    bound: Reply,
    listening: Reply,
)
    requires
        !created.failed(),
        !reused.failed(),
        !bound.failed(),
        !listening.failed(),
    ensures
        ({
            let s0 = SetupView::start(Role::Listener, addr@, order);
            let s1 = s0.resume(created);
            let s2 = s1.resume(reused);
            let s3 = s2.resume(bound);
            let s4 = s3.resume(listening);
            let fd = created.ret;
            &&& s0.pending() == StepView::Call(
                SyscallView::Socket {
                    domain: family_of(addr@),
                    socket_type: creation_type(SOCK_STREAM),
                    protocol: 0,
                },
            )
            &&& s1.pending() == StepView::Call(
                SyscallView::SetSockOpt { fd, level: SOL_SOCKET, name: SO_REUSEADDR, value: 1 },
            )
            &&& s2.pending() == StepView::Call(
                SyscallView::Bind {
                    fd,
                    addr: address_buffer(addr@, order),
                    len: native_len(addr@),
                },
            )
            &&& s3.pending() == StepView::Call(SyscallView::Listen { fd, backlog: 1024 })
            &&& s4.pending() == StepView::Done(Ok(fd))
        }),
{
}

/// A stream is set up by two calls: `socket`, and `connect` to the address
/// laid out for the kernel. A `connect` that did not fail, and one that the
/// kernel reports as in progress, both end the setup with the descriptor
/// that `socket` gave. The stage tells the two apart: after the first the
/// stream is connected, after the second the connection is on its way.
pub proof fn lemma_connect_in_order(
    addr: SocketAddr,
    order: ByteOrder,
    created: Reply,
    connected: Reply,
)
    requires
        !created.failed(),
        !connected.failed() || connected.errno == EINPROGRESS,
    ensures
        ({
            let s0 = SetupView::start(Role::Stream, addr@, order);
            let s1 = s0.resume(created);
            let s2 = s1.resume(connected);
            let fd = created.ret;
            &&& s0.pending() == StepView::Call(
                SyscallView::Socket {
                    domain: family_of(addr@),
                    socket_type: creation_type(SOCK_STREAM),
                    protocol: 0,
                },
            )
            &&& s1.pending() == StepView::Call(
                SyscallView::Connect {
                    fd,
                    addr: address_buffer(addr@, order),
                    len: native_len(addr@),
                },
            )
            &&& s2.pending() == StepView::Done(Ok(fd))
            &&& s2.stage == if connected.failed() {
                Stage::Connecting { fd }
            } else {
                Stage::Ready { fd }
            }
        }),
{
}

/// A failed `socket` ends the setup at once with the kernel's error: there
/// is no descriptor, and none is closed.
pub proof fn lemma_failed_socket_ends_setup(setup: SetupView, reply: Reply)
    requires
        setup.stage is Create,
        reply.failed(),
    ensures
        setup.resume(reply).pending() == StepView::Done(Err(Error::Os(reply.errno))),
{
}

/// A call on the new descriptor that fails aborts the setup: the next call
/// closes the descriptor, and whatever the close replies, the setup then
/// ends with the error of the call that failed. For `connect`, being in
/// progress is no failure.
pub proof fn lemma_failure_closes_descriptor(setup: SetupView, reply: Reply, closed: Reply)
    requires
        setup.stage is Reuse || setup.stage is Bind || setup.stage is Listen
            || setup.stage is Connect,
        reply.failed(),
        setup.stage is Connect ==> reply.errno != EINPROGRESS,
    ensures
        setup.resume(reply).pending() == StepView::Call(
            SyscallView::Close { fd: setup.stage.held()->Some_0 },
        ),
        setup.resume(reply).resume(closed).pending() == StepView::Done(
            Err(Error::Os(reply.errno)),
        ),
{
}

/// A setup that has ended asks for nothing more and stays as it is,
/// whatever it is handed.
pub proof fn lemma_done_is_final(setup: SetupView, reply: Reply)
    requires
        setup.stage.is_done(),
    ensures
        setup.pending() is Done,
        setup.resume(reply) == setup,
{
}

/// Every setup ends: after the replies to at most five calls nothing is
/// pending but the result.
pub proof fn lemma_setup_ends(role: Role, addr: SocketAddrView, order: ByteOrder, replies: Seq<Reply>)
    requires
        replies.len() >= 5,
    ensures
        SetupView::start(role, addr, order).run(replies).stage.is_done(),
{
    let start = SetupView::start(role, addr, order);
    let s5 = start.resume(replies[0]).resume(replies[1]).resume(replies[2]).resume(
        replies[3],
    ).resume(replies[4]);
    let t1 = replies.drop_first();
    let t2 = t1.drop_first();
    let t3 = t2.drop_first();
    let t4 = t3.drop_first();
    let t5 = t4.drop_first();
    assert(t1[0] == replies[1] && t2[0] == replies[2] && t3[0] == replies[3] && t4[0]
        == replies[4]);
    assert(s5.stage.is_done());
    lemma_run_of_done(s5, t5);
    assert(start.run(replies) == s5) by {
        reveal_with_fuel(SetupView::run, 6);
    }
}

/// A setup that has ended stays as it is through any run.
proof fn lemma_run_of_done(setup: SetupView, replies: Seq<Reply>)
    requires
        setup.stage.is_done(),
    ensures
        setup.run(replies) == setup,
    decreases replies.len(),
{
    if replies.len() > 0 {
        lemma_run_of_done(setup.resume(replies[0]), replies.drop_first());
    }
}

/// The descriptor that a setup opens is closed once or never. Take the
/// replies of a whole run and the calls that went with them:
///
/// * a setup that ends well ends with the descriptor that `socket` gave,
///   and `close` is not among its calls;
/// * a setup whose `socket` failed made that one call;
/// * any other setup that ends badly has `close` of the descriptor that
///   `socket` gave as its last call, and no `close` before it.
pub proof fn lemma_descriptor_closed_once_or_never(
    role: Role,
    addr: SocketAddrView,
    order: ByteOrder,
    replies: Seq<Reply>,
)
    requires
        replies.len() >= 5,
    ensures
        ({
            let start = SetupView::start(role, addr, order);
            let calls = start.calls(replies);
            let fd = replies[0].ret;
            match start.run(replies).pending() {
                StepView::Done(Ok(got)) => {
                    &&& !replies[0].failed()
                    &&& got == fd
                    &&& forall|i: int| 0 <= i < calls.len() ==> !(#[trigger] calls[i] is Close)
                },
                StepView::Done(Err(error)) => if replies[0].failed() {
                    &&& calls.len() == 1
                    &&& calls[0] is Socket
                    &&& error == Error::Os(replies[0].errno)
                } else {
                    &&& calls.len() >= 2
                    &&& calls.last() == (SyscallView::Close { fd })
                    &&& forall|i: int|
                        0 <= i < calls.len() - 1 ==> !(#[trigger] calls[i] is Close)
                },
                StepView::Call(_) => false,
            }
        }),
{
    let start = SetupView::start(role, addr, order);
    let s1 = start.resume(replies[0]);
    let s2 = s1.resume(replies[1]);
    let s3 = s2.resume(replies[2]);
    let s4 = s3.resume(replies[3]);
    let s5 = s4.resume(replies[4]);
    let t1 = replies.drop_first();
    let t2 = t1.drop_first();
    let t3 = t2.drop_first();
    let t4 = t3.drop_first();
    let t5 = t4.drop_first();
    assert(t1[0] == replies[1] && t2[0] == replies[2] && t3[0] == replies[3] && t4[0]
        == replies[4]);
    lemma_run_of_done(s5, t5);
    lemma_calls_of_done(s5, t5);
    assert(start.run(replies) == s5) by {
        reveal_with_fuel(SetupView::run, 6);
    }
    assert(s5.stage.is_done());
    assert(s4.calls(t4) == if s4.pending() is Call {
        seq![s4.pending()->Call_0]
    } else {
        Seq::<SyscallView>::empty()
    });
    assert(s3.calls(t3) == if s3.pending() is Call {
        seq![s3.pending()->Call_0] + s4.calls(t4)
    } else {
        Seq::<SyscallView>::empty()
    });
    assert(s2.calls(t2) == if s2.pending() is Call {
        seq![s2.pending()->Call_0] + s3.calls(t3)
    } else {
        Seq::<SyscallView>::empty()
    });
    assert(s1.calls(t1) == if s1.pending() is Call {
        seq![s1.pending()->Call_0] + s2.calls(t2)
    } else {
        Seq::<SyscallView>::empty()
    });
    assert(start.calls(replies) == seq![start.pending()->Call_0] + s1.calls(t1));
}

/// A setup that has ended asks for no call.
proof fn lemma_calls_of_done(setup: SetupView, replies: Seq<Reply>)
    requires
        setup.stage.is_done(),
    ensures
        setup.calls(replies) == Seq::<SyscallView>::empty(),
{
}

/// The flags that `accept4` gets: the accepted descriptor is non-blocking
/// and closed on exec from its first moment, as a created one is.
pub open spec fn accept_flags() -> i32 {
    SOCK_CLOEXEC | SOCK_NONBLOCK
}

/// The call that accepts one connection on the listening descriptor
/// `listener`, with room for a peer address of any family.
pub fn accept_call(listener: i32) -> (call: Syscall)
    ensures
        call@ == (SyscallView::Accept4 {
            fd: listener,
            capacity: SOCKADDR_STORAGE_LEN,
            flags: accept_flags(),
        }),
{
    Syscall::Accept4 {
        fd: listener,
        capacity: SOCKADDR_STORAGE_LEN,
        flags: SOCK_CLOEXEC | SOCK_NONBLOCK,
    }
}

/// What an `accept4` came to.
#[derive(Clone, Copy, Debug, PartialEq, Eq)]
pub enum Accepted {
    /// A connection: its descriptor, which is now the caller's, and the
    /// peer's address.
    Stream { fd: i32, peer: SocketAddr },
    /// No connection is waiting. The caller tries again when the listener
    /// is readable.
    WouldBlock,
    /// The call failed, and there is no new descriptor.
    Failed { error: Error },
    /// A connection was accepted, but the address that the kernel wrote for
    /// its peer cannot be read. The caller closes `fd` and reports `error`.
    BadAddress { fd: i32, error: Error },
}

/// The outcome of an `accept4` as contracts speak of it.
pub enum AcceptedView {
    Stream { fd: i32, peer: SocketAddrView },
    WouldBlock,
    Failed { error: Error },
    BadAddress { fd: i32, error: Error },
}

impl View for Accepted {
    type V = AcceptedView;

    open spec fn view(&self) -> AcceptedView {
        match *self {
            Accepted::Stream { fd, peer } => AcceptedView::Stream { fd, peer: peer@ },
            Accepted::WouldBlock => AcceptedView::WouldBlock,
            Accepted::Failed { error } => AcceptedView::Failed { error },
            Accepted::BadAddress { fd, error } => AcceptedView::BadAddress { fd, error },
        }
    }
}

/// What the reply to an `accept4` means, given the bytes that the kernel
/// wrote for the peer's address.
///
/// A failed call left no descriptor: it would have had to wait, or it failed
/// with the kernel's error. Any other reply is a new descriptor; with it
/// comes the peer's address, or, where the bytes hold none, the order to
/// close the descriptor again.
pub open spec fn accept_outcome(reply: Reply, storage: Seq<u8>, order: ByteOrder) -> AcceptedView {
    if reply.failed() {
        if reply.errno == EAGAIN {
            AcceptedView::WouldBlock
        } else {
            AcceptedView::Failed { error: Error::Os(reply.errno) }
        }
    } else {
        match parse_native(storage, order) {
            Ok(peer) => AcceptedView::Stream { fd: reply.ret, peer },
            Err(error) => AcceptedView::BadAddress { fd: reply.ret, error },
        }
    }
}

/// Reads the reply to an `accept4` together with the bytes that the kernel
/// wrote for the peer's address, on a machine of the given byte order.
///
/// The bytes are looked at only where the call gave a descriptor.
pub fn accepted(reply: Reply, storage: &[u8], order: ByteOrder) -> (outcome: Accepted)
    ensures
        outcome@ == accept_outcome(reply, storage@, order),
        reply.failed() && reply.errno == EAGAIN ==> outcome == Accepted::WouldBlock,
        outcome matches Accepted::Stream { fd, .. } ==> fd != FAILED,
        outcome matches Accepted::BadAddress { fd, .. } ==> fd != FAILED,
{
    match reply.result() {
        Err(error) => if error.would_block() {
            Accepted::WouldBlock
        } else {
            Accepted::Failed { error }
        },
        Ok(fd) => match to_socket_addr(storage, order) {
            Ok(peer) => Accepted::Stream { fd, peer },
            Err(error) => Accepted::BadAddress { fd, error },
        },
    }
}

} // verus!
