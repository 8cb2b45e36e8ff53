use nbtcp::bytes::ByteOrder;
use nbtcp::net::{socket_addr, SocketAddr};
use nbtcp::sys::{Error, Reply, Syscall};
use nbtcp::tcp::{accept_call, accepted, new_for_addr, Accepted, Setup, Stage, Step};

const OK: Reply = Reply { ret: 0, errno: 0 };

const LOCALHOST: SocketAddr = SocketAddr::V4 { ip: [127, 0, 0, 1], port: 0 };

const LOCALHOST6: SocketAddr = SocketAddr::V6 {
    ip: [0, 0, 0, 0, 0, 0, 0, 0, 0, 0, 0, 0, 0, 0, 0, 1],
    port: 8080,
    flowinfo: 0,
    scope_id: 0,
};

fn fails(errno: i32) -> Reply {
    Reply { ret: -1, errno }
}

fn gives(fd: i32) -> Reply {
    Reply { ret: fd, errno: 0 }
}

/// Runs a setup against the replies of a kernel that is played from a list,
/// and gives the calls that were made and the result. Panics if the setup
/// asks for more calls than there are replies, or leaves replies unused.
fn drive(mut setup: Setup, replies: &[Reply]) -> (Vec<Syscall>, Result<i32, Error>) {
    let mut calls: Vec<Syscall> = Vec::new();
    let mut next: usize = 0;
    loop {
        match setup.pending() {
            Step::Call(call) => {
                calls.push(call);
                assert!(next < replies.len(), "the setup asks for a call too many: {:?}", call);
                setup = setup.resume(replies[next]);
                next += 1;
            }
            Step::Done(result) => {
                assert_eq!(next, replies.len());
                return (calls, result);
            }
        }
    }
}

#[test]
fn tcp_socket_for_either_family() {
    assert_eq!(
        new_for_addr(&LOCALHOST),
        Syscall::Socket { domain: 2, socket_type: 0x80801, protocol: 0 }
    );
    assert_eq!(
        new_for_addr(&LOCALHOST6),
        Syscall::Socket { domain: 10, socket_type: 0x80801, protocol: 0 }
    );
    assert_eq!(
        new_for_addr(&LOCALHOST6),
        Syscall::Socket {
            domain: libc::AF_INET6,
            socket_type: libc::SOCK_STREAM | libc::SOCK_NONBLOCK | libc::SOCK_CLOEXEC,
            protocol: 0
        }
    );
}

#[test]
fn bind_to_an_ephemeral_port_succeeds() {
    let order: ByteOrder = ByteOrder::LittleEndian;
    let (calls, result) = drive(Setup::bind(LOCALHOST, order), &[gives(3), OK, OK, OK]);
    let (addr, len) = socket_addr(&LOCALHOST, order);
    assert_eq!(len, 16);
    assert_eq!(&addr.as_bytes()[..8], &[2, 0, 0, 0, 127, 0, 0, 1]);
    assert_eq!(
        calls,
        vec![
            Syscall::Socket { domain: 2, socket_type: 0x80801, protocol: 0 },
            Syscall::SetSockOpt { fd: 3, level: 1, name: 2, value: 1 },
            Syscall::Bind { fd: 3, addr, len: 16 },
            Syscall::Listen { fd: 3, backlog: 1024 },
        ]
    );
    assert_eq!(result, Ok(3));
}

#[test]
fn bind_v6_uses_the_v6_structure() {
    let order: ByteOrder = ByteOrder::BigEndian;
    let (calls, result) = drive(Setup::bind(LOCALHOST6, order), &[gives(9), OK, OK, OK]);
    let (addr, len) = socket_addr(&LOCALHOST6, order);
    assert_eq!(len, 28);
    assert_eq!(&addr.as_bytes()[..4], &[0, 10, 0x1f, 0x90]);
    assert_eq!(calls[0], Syscall::Socket { domain: 10, socket_type: 0x80801, protocol: 0 });
    assert_eq!(calls[2], Syscall::Bind { fd: 9, addr, len: 28 });
    assert_eq!(calls.len(), 4);
    assert_eq!(result, Ok(9));
}

#[test]
fn bind_sets_reuse_through_libc_s_names() {
    let (calls, _) = drive(Setup::bind(LOCALHOST, ByteOrder::native()), &[gives(4), OK, OK, OK]);
    assert_eq!(
        calls[1],
        Syscall::SetSockOpt {
            fd: 4,
            level: libc::SOL_SOCKET,
            name: libc::SO_REUSEADDR,
            value: 1
        }
    );
}

#[test]
fn bind_to_an_address_in_use_fails_and_closes() {
    let replies = [gives(5), OK, fails(libc::EADDRINUSE), OK];
    let (calls, result) = drive(Setup::bind(LOCALHOST, ByteOrder::LittleEndian), &replies);
    assert_eq!(calls.len(), 4);
    assert!(matches!(calls[2], Syscall::Bind { fd: 5, .. }));
    assert_eq!(calls[3], Syscall::Close { fd: 5 });
    assert_eq!(result, Err(Error::Os(libc::EADDRINUSE)));
    assert_eq!(result, Err(Error::Os(98)));
    let again = [gives(5), OK, OK, OK];
    let (calls, result) = drive(Setup::bind(LOCALHOST, ByteOrder::LittleEndian), &again);
    assert!(!calls.iter().any(|call| matches!(call, Syscall::Close { .. })));
    assert_eq!(result, Ok(5));
}

#[test]
fn bind_without_a_socket_closes_nothing() {
    let (calls, result) = drive(Setup::bind(LOCALHOST, ByteOrder::LittleEndian), &[fails(24)]);
    assert_eq!(calls, vec![Syscall::Socket { domain: 2, socket_type: 0x80801, protocol: 0 }]);
    assert_eq!(result, Err(Error::Os(24)));
}

#[test]
fn bind_fails_with_the_error_of_the_step_that_failed() {
    let order: ByteOrder = ByteOrder::LittleEndian;
    let (calls, result) = drive(Setup::bind(LOCALHOST, order), &[gives(6), fails(1), fails(2)]);
    assert_eq!(calls.len(), 3);
    assert_eq!(calls[2], Syscall::Close { fd: 6 });
    assert_eq!(result, Err(Error::Os(1)));
    let (calls, result) =
        drive(Setup::bind(LOCALHOST, order), &[gives(6), OK, OK, fails(3), fails(9)]);
    assert_eq!(calls.len(), 5);
    assert!(matches!(calls[3], Syscall::Listen { fd: 6, backlog: 1024 }));
    assert_eq!(calls[4], Syscall::Close { fd: 6 });
    assert_eq!(result, Err(Error::Os(3)));
}

#[test]
fn failed_close_does_not_change_the_error() {
    let replies = [gives(5), OK, fails(98), fails(9)];
    let (_, result) = drive(Setup::bind(LOCALHOST, ByteOrder::LittleEndian), &replies);
    assert_eq!(result, Err(Error::Os(98)));
}

#[test]
fn descriptor_is_closed_once_or_never() {
    let outcomes: [Reply; 4] = [OK, fails(13), fails(libc::EINPROGRESS), gives(7)];
    for role in 0..2 {
        for a in outcomes {
            for b in outcomes {
                for c in outcomes {
                    for d in outcomes {
                        for e in outcomes {
                            let all = [a, b, c, d, e];
                            let mut setup = if role == 0 {
                                Setup::bind(LOCALHOST, ByteOrder::LittleEndian)
                            } else {
                                Setup::connect(LOCALHOST, ByteOrder::LittleEndian)
                            };
                            let mut closes: usize = 0;
                            let mut used: usize = 0;
                            let result = loop {
                                match setup.pending() {
                                    Step::Call(call) => {
                                        if let Syscall::Close { fd } = call {
                                            assert_eq!(fd, a.ret);
                                            closes += 1;
                                        }
                                        setup = setup.resume(all[used]);
                                        used += 1;
                                    }
                                    Step::Done(result) => break result,
                                }
                            };
                            match result {
                                Ok(fd) => {
                                    assert_eq!(fd, a.ret);
                                    assert_ne!(fd, -1);
                                    assert_eq!(closes, 0);
                                }
                                Err(_) if a.ret == -1 => {
                                    assert_eq!(closes, 0);
                                    assert_eq!(used, 1);
                                }
                                Err(_) => assert_eq!(closes, 1),
                            }
                        }
                    }
                }
            }
        }
    }
}

#[test]
fn connect_in_progress_is_success() {
    let order: ByteOrder = ByteOrder::LittleEndian;
    let replies = [gives(8), fails(libc::EINPROGRESS)];
    let (calls, result) = drive(Setup::connect(LOCALHOST6, order), &replies);
    let (addr, len) = socket_addr(&LOCALHOST6, order);
    assert_eq!(
        calls,
        vec![
            Syscall::Socket { domain: 10, socket_type: 0x80801, protocol: 0 },
            Syscall::Connect { fd: 8, addr, len },
        ]
    );
    assert_eq!(len, 28);
    assert_eq!(result, Ok(8));
    let (_, result) = drive(Setup::connect(LOCALHOST6, order), &[gives(8), fails(115)]);
    assert_eq!(result, Ok(8));
}

#[test]
fn connect_at_once_is_success() {
    let (calls, result) =
        drive(Setup::connect(LOCALHOST, ByteOrder::LittleEndian), &[gives(8), OK]);
    assert_eq!(calls.len(), 2);
    assert_eq!(result, Ok(8));
}

#[test]
fn connect_refused_fails_and_closes() {
    let replies = [gives(8), fails(libc::ECONNREFUSED), OK];
    let (calls, result) = drive(Setup::connect(LOCALHOST, ByteOrder::LittleEndian), &replies);
    assert_eq!(calls.len(), 3);
    assert!(matches!(calls[1], Syscall::Connect { fd: 8, len: 16, .. }));
    assert_eq!(calls[2], Syscall::Close { fd: 8 });
    assert_eq!(result, Err(Error::Os(libc::ECONNREFUSED)));
    assert_eq!(result, Err(Error::Os(111)));
}

#[test]
fn connect_that_would_block_fails() {
    let replies = [gives(8), fails(libc::EAGAIN), OK];
    let (calls, result) = drive(Setup::connect(LOCALHOST, ByteOrder::LittleEndian), &replies);
    assert_eq!(calls[2], Syscall::Close { fd: 8 });
    assert_eq!(result, Err(Error::Os(11)));
}

#[test]
fn connect_without_a_socket_closes_nothing() {
    let (calls, result) =
        drive(Setup::connect(LOCALHOST, ByteOrder::LittleEndian), &[fails(libc::EMFILE)]);
    assert_eq!(calls.len(), 1);
    assert_eq!(result, Err(Error::Os(libc::EMFILE)));
}

#[test]
fn in_progress_is_a_failure_for_every_call_but_connect() {
    let replies = [gives(5), fails(115), OK];
    let (calls, result) = drive(Setup::bind(LOCALHOST, ByteOrder::LittleEndian), &replies);
    assert_eq!(calls[2], Syscall::Close { fd: 5 });
    assert_eq!(result, Err(Error::Os(115)));
    let (calls, result) = drive(Setup::connect(LOCALHOST, ByteOrder::LittleEndian), &[fails(115)]);
    assert_eq!(calls.len(), 1);
    assert_eq!(result, Err(Error::Os(115)));
}

#[test]
fn stages_of_a_bind() {
    let setup = Setup::bind(LOCALHOST, ByteOrder::LittleEndian);
    assert_eq!(setup.stage(), Stage::Create);
    let setup = setup.resume(gives(3));
    assert_eq!(setup.stage(), Stage::Reuse { fd: 3 });
    let setup = setup.resume(OK);
    assert_eq!(setup.stage(), Stage::Bind { fd: 3 });
    let setup = setup.resume(OK);
    assert_eq!(setup.stage(), Stage::Listen { fd: 3 });
    let failed = Setup::bind(LOCALHOST, ByteOrder::LittleEndian)
        .resume(gives(3))
        .resume(OK)
        .resume(OK)
        .resume(fails(5));
    assert_eq!(failed.stage(), Stage::Abort { fd: 3, error: Error::Os(5) });
    assert_eq!(failed.resume(OK).stage(), Stage::Failed { error: Error::Os(5) });
    let setup = setup.resume(OK);
    assert_eq!(setup.stage(), Stage::Ready { fd: 3 });
    assert_eq!(setup.pending(), Step::Done(Ok(3)));
}

#[test]
fn a_finished_setup_stays_finished() {
    let ready = Setup::connect(LOCALHOST, ByteOrder::LittleEndian).resume(gives(3)).resume(OK);
    assert_eq!(ready.pending(), Step::Done(Ok(3)));
    let ready = ready.resume(fails(9)).resume(gives(12));
    assert_eq!(ready.stage(), Stage::Ready { fd: 3 });
    assert_eq!(ready.pending(), Step::Done(Ok(3)));
    let failed = Setup::connect(LOCALHOST, ByteOrder::LittleEndian).resume(fails(23));
    assert_eq!(failed.pending(), Step::Done(Err(Error::Os(23))));
    let failed = failed.resume(gives(4)).resume(OK);
    assert_eq!(failed.stage(), Stage::Failed { error: Error::Os(23) });
}

#[test]
fn accept_asks_for_both_flags_and_a_full_storage() {
    assert_eq!(accept_call(3), Syscall::Accept4 { fd: 3, capacity: 128, flags: 0x80800 });
    assert_eq!(
        accept_call(17),
        Syscall::Accept4 {
            fd: 17,
            capacity: 128,
            flags: libc::SOCK_CLOEXEC | libc::SOCK_NONBLOCK
        }
    );
}

#[test]
fn accept_with_nothing_pending_would_block() {
    let storage = [0u8; 128];
    for order in [ByteOrder::LittleEndian, ByteOrder::BigEndian] {
        assert_eq!(accepted(fails(libc::EAGAIN), &storage, order), Accepted::WouldBlock);
        assert_eq!(accepted(fails(libc::EWOULDBLOCK), &storage, order), Accepted::WouldBlock);
        assert_eq!(accepted(fails(11), &[], order), Accepted::WouldBlock);
    }
}

#[test]
fn accept_that_fails_reports_the_error() {
    let storage = [0u8; 128];
    assert_eq!(
        accepted(fails(libc::EMFILE), &storage, ByteOrder::LittleEndian),
        Accepted::Failed { error: Error::Os(libc::EMFILE) }
    );
    assert_eq!(
        accepted(fails(103), &storage, ByteOrder::LittleEndian),
        Accepted::Failed { error: Error::Os(103) }
    );
}

#[test]
fn accept_gives_the_stream_and_its_peer() {
    for order in [ByteOrder::LittleEndian, ByteOrder::BigEndian] {
        for peer in [SocketAddr::V4 { ip: [127, 0, 0, 1], port: 40000 }, LOCALHOST6] {
            let (repr, len) = socket_addr(&peer, order);
            let mut storage = [0u8; 128];
            storage[..len as usize].copy_from_slice(&repr.as_bytes()[..len as usize]);
            assert_eq!(accepted(gives(12), &storage, order), Accepted::Stream { fd: 12, peer });
            assert_eq!(
                accepted(gives(0), &storage[..len as usize], order),
                Accepted::Stream { fd: 0, peer }
            );
        }
    }
}

#[test]
fn accept_with_an_unreadable_peer_hands_back_the_descriptor() {
    let storage = [0u8; 128];
    assert_eq!(
        accepted(gives(12), &storage, ByteOrder::LittleEndian),
        Accepted::BadAddress { fd: 12, error: Error::InvalidInput }
    );
    let unix: [u8; 4] = [1, 0, 47, 0];
    assert_eq!(
        accepted(gives(13), &unix, ByteOrder::LittleEndian),
        Accepted::BadAddress { fd: 13, error: Error::InvalidInput }
    );
    assert_eq!(
        accepted(gives(14), &[2, 0, 0, 80], ByteOrder::LittleEndian),
        Accepted::BadAddress { fd: 14, error: Error::InvalidInput }
    );
}

#[test]
fn peer_of_the_listener_is_the_address_of_the_stream() {
    let order: ByteOrder = ByteOrder::native();
    let listener = SocketAddr::V4 { ip: [127, 0, 0, 1], port: 45000 };
    let client = SocketAddr::V4 { ip: [127, 0, 0, 1], port: 51234 };
    let (calls, stream) = drive(Setup::connect(listener, order), &[gives(4), fails(115)]);
    assert_eq!(stream, Ok(4));
    let asked = match calls[1] {
        Syscall::Connect { addr, len, .. } => addr.as_bytes()[..len as usize].to_vec(),
        other => panic!("not a connect: {:?}", other),
    };
    assert_eq!(nbtcp::net::to_socket_addr(&asked, order), Ok(listener));
    let (written, len) = socket_addr(&client, order);
    let mut storage = [0u8; 128];
    storage[..len as usize].copy_from_slice(&written.as_bytes()[..len as usize]);
    assert_eq!(accepted(gives(5), &storage, order), Accepted::Stream { fd: 5, peer: client });
}

#[test]
fn connect_tells_connected_from_connecting() {
    let order: ByteOrder = ByteOrder::LittleEndian;
    let connected = Setup::connect(LOCALHOST, order).resume(gives(8)).resume(OK);
    assert_eq!(connected.stage(), Stage::Ready { fd: 8 });
    assert_eq!(connected.pending(), Step::Done(Ok(8)));
    let connecting = Setup::connect(LOCALHOST, order).resume(gives(8)).resume(fails(115));
    assert_eq!(connecting.stage(), Stage::Connecting { fd: 8 });
    assert_eq!(connecting.pending(), Step::Done(Ok(8)));
    let connecting = connecting.resume(fails(111));
    assert_eq!(connecting.stage(), Stage::Connecting { fd: 8 });
    let listening = Setup::bind(LOCALHOST, order)
        .resume(gives(8))
        .resume(OK)
        .resume(OK)
        .resume(fails(115));
    assert_eq!(listening.stage(), Stage::Abort { fd: 8, error: Error::Os(115) });
}
