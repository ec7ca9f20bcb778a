use respos::errno::Errno;
use respos::net::addr::SocketAddr;
use respos::net::socket::{
    finish_interruptible_wait, parse_domain, parse_kind, Accepted, Nets, RecvStep, SendStep, Socket,
    SocketDomain, SocketKind,
};
use respos::net::stack::NetStack;
use respos::net::unix::{
    AcceptStep, PollEvents, PollTarget, ReadRequest, ReadStep, UnixNet, UnixPeerCredentials, WriteStep,
};
use respos::syscall::fd::FdTable;
use respos::syscall::message::{
    collect_iov_bytes, finish_recvmsg, read_mmsghdr, scatter_iov_bytes, sys_recvmmsg, sys_recvmsg,
    sys_sendmmsg, sys_sendmsg, Handed, MMsgHdr, Messages, MsgHdr,
};
use respos::syscall::net::{
    bind_name, finish_accept, socket_from_fd, sys_accept, sys_accept4, sys_bind, sys_getpeername,
    sys_getsockname, sys_getsockopt, sys_listen, sys_recvfrom, sys_sendto, sys_setsockopt, sys_shutdown,
    sys_socket, sys_socketpair, write_sockopt, AcceptCall, AcceptTry, BindStep, OptValue,
};
use respos::syscall::rw::IoVec;
use respos::syscall::sockaddr::{
    is_local_ipv4, normalize_connect_addr, read_sockaddr_for_domain, read_sockaddr_un,
    write_sockaddr_for_domain, write_sockaddr_un, AddrPlace,
};
use respos::timer::TimeSpec;
use respos::user::{UserIn, UserOut};

const ME: UnixPeerCredentials = UnixPeerCredentials { pid: 1, uid: 2, gid: 3 };
const YOU: UnixPeerCredentials = UnixPeerCredentials { pid: 4, uid: 5, gid: 6 };

fn nets() -> Nets {
    Nets { inet: NetStack::new(), unix: UnixNet::new() }
}

fn want(len: usize) -> ReadRequest {
    ReadRequest { len, nonblocking: true, peek: false, waitall: false }
}

fn data(step: ReadStep) -> Vec<u8> {
    match step {
        ReadStep::Data(b, _, _) => b,
        _ => panic!("nothing was read"),
    }
}

#[test]
fn pair_carries_bytes() {
    let mut n = UnixNet::new();
    let (a, b) = n.pair(ME);
    assert!(n.is_connected(a));
    assert_eq!(n.peer_credentials(a), Ok(ME));
    assert!(matches!(n.write(a, b"hello", true, false, false, 1), WriteStep::Written(5, None)));
    assert!(n.read_ready(b));
    let peeked = ReadRequest { peek: true, ..want(3) };
    assert_eq!(data(n.read(b, peeked, false, false, 2)), b"hel".to_vec());
    assert_eq!(data(n.read(b, want(3), false, false, 2)), b"hel".to_vec());
    assert_eq!(data(n.read(b, want(9), false, false, 2)), b"lo".to_vec());
    assert!(matches!(n.read(b, want(9), false, false, 2), ReadStep::Fail(Errno::EAGAIN)));
}

#[test]
fn blocked_reader_is_woken() {
    let mut n = UnixNet::new();
    let (a, b) = n.pair(ME);
    let q = ReadRequest { nonblocking: false, ..want(4) };
    assert!(matches!(n.read(b, q, false, false, 9), ReadStep::Wait));
    assert!(matches!(n.write(a, b"x", true, false, false, 1), WriteStep::Written(1, Some(9))));
    assert!(n.read_resumed(b, q, Ok(false), 9).is_none());
    assert_eq!(data(n.read(b, q, false, false, 9)), b"x".to_vec());
    assert!(matches!(n.read(b, q, false, false, 9), ReadStep::Wait));
    assert!(matches!(
        n.read_resumed(b, q, Err(Errno::EINTR), 9),
        Some(ReadStep::Fail(Errno::EINTR))
    ));
}

#[test]
fn closed_peer() {
    let mut n = UnixNet::new();
    let (a, b) = n.pair(ME);
    n.write(a, b"rest", true, false, false, 1);
    n.close(a);
    assert!(n.poll_hup(b));
    assert_eq!(data(n.read(b, want(9), false, false, 2)), b"rest".to_vec());
    assert_eq!(data(n.read(b, want(9), false, false, 2)), Vec::<u8>::new());
    assert!(matches!(n.write(b, b"x", true, false, false, 1), WriteStep::Fail(Errno::EPIPE)));
}

#[test]
fn half_closed_end() {
    let mut n = UnixNet::new();
    let (a, b) = n.pair(ME);
    let alone = n.socket();
    assert_eq!(n.shutdown(alone, 1).err(), Some(Errno::ENOTCONN));
    assert!(n.shutdown(a, 1).is_ok());
    assert!(matches!(n.write(a, b"x", true, false, false, 1), WriteStep::Fail(Errno::EPIPE)));
    assert_eq!(data(n.read(b, want(9), false, false, 2)), Vec::<u8>::new());
    assert!(matches!(n.write(b, b"y", true, false, false, 2), WriteStep::Written(1, None)));
}

#[test]
fn names_connect_ends() {
    let mut n = UnixNet::new();
    let key = b"/tmp/s".to_vec();
    let server = n.socket();
    assert_eq!(n.listen(server, ME).err(), Some(Errno::EINVAL));
    assert_eq!(n.ensure_unbound(server), Ok(()));
    assert_eq!(n.bind_path(server, &key), Ok(()));
    assert_eq!(n.ensure_unbound(server), Err(Errno::EINVAL));
    let client = n.socket();
    assert_eq!(n.connect_path(client, &key, YOU).err(), Some(Errno::ECONNREFUSED));
    assert_eq!(n.listen(server, ME), Ok(()));
    n.set_nonblocking(server, true);
    assert!(matches!(n.accept(server, false, false, 7), AcceptStep::Fail(Errno::EAGAIN)));
    n.set_nonblocking(server, false);
    assert!(matches!(n.accept(server, false, false, 7), AcceptStep::Wait));
    let (_, woken) = n.connect_path(client, &key, YOU).unwrap();
    assert_eq!(woken, Some(7));
    assert!(n.read_ready(server));
    let end = match n.accept(server, false, false, 7) {
        AcceptStep::Accepted(e) => e,
        _ => panic!("no connection"),
    };
    assert_eq!(n.peer_credentials(client), Ok(ME));
    assert_eq!(n.peer_credentials(end), Ok(YOU));
    assert_eq!(n.bound_key(end), Some(key.clone()));
    assert_eq!(n.peer_key(client), Some(key));
    n.write(client, b"hi", true, false, false, 1);
    assert_eq!(data(n.read(end, want(9), false, false, 2)), b"hi".to_vec());
}

#[test]
fn poll_waiters_of_an_end() {
    let mut n = UnixNet::new();
    let (a, _b) = n.pair(ME);
    let plan = n.register_poll_waiter(a, PollEvents { read: true, write: true, hup: false });
    assert!(plan.iter().any(|(t, _)| matches!(t, PollTarget::Buffer(_))));
    assert!(!n.unregister_poll_waiter(a).is_empty());
}

#[test]
fn kinds_and_domains() {
    assert_eq!(parse_domain(2), Ok(SocketDomain::AF_INET));
    assert_eq!(parse_domain(3), Err(Errno::EAFNOSUPPORT));
    assert_eq!(parse_kind(0x801), Ok(SocketKind::SOCK_STREAM));
    assert_eq!(parse_kind(4), Err(Errno::EINVAL));
}

#[test]
fn socket_descriptors() {
    let mut n = nets();
    let mut t = FdTable::new(4);
    let (fd, s) = sys_socket(&mut n, &mut t, 2, 1 | 0x800 | 0x80000, 0, 77).unwrap();
    assert_eq!(fd, 0);
    assert!(s.is_nonblocking());
    assert_eq!(t.get_fd_entry(0).unwrap().file, 77);
    assert!(sys_socket(&mut n, &mut t, 99, 1, 0, 1).is_err());
    assert!(sys_socket(&mut n, &mut t, 2, 4, 0, 1).is_err());
    assert_eq!(socket_from_fd(t.get_fd_entry(0), false), Err(Errno::ENOTSOCK));
    assert_eq!(socket_from_fd(t.get_fd_entry(3), true), Err(Errno::EBADF));
    let p = sys_socketpair(&mut n, &mut t, 1, 1, 0, (5, 6), ME, UserOut::Writable).unwrap();
    assert_eq!(p.fds, (1, 2));
    assert!(sys_socketpair(&mut n, &mut t, 1, 1, 0, (5, 6), ME, UserOut::Writable).is_err());
    assert!(t.get_fd_entry(3).is_err());
}

#[test]
fn sockets_send_and_receive() {
    let mut n = nets();
    let (mut a, b) = Socket::new_unix_pair(&mut n, SocketKind::SOCK_STREAM, ME).ok().unwrap();
    assert!(matches!(a.send(&mut n, b"one", false, false, false, 1), SendStep::Sent(3, None)));
    match b.recv_from(&mut n, want(9), 0, false, false, 2) {
        RecvStep::Data(bytes, _, _, _) => assert_eq!(bytes, b"one".to_vec()),
        _ => panic!("nothing was received"),
    }
    assert!(a.tcp_poll(&mut n).writeable);
    assert_eq!(a.can_seek(), Err(Errno::ESPIPE));
    assert_eq!(a.validate_splice_read(&n), Ok(()));
    let fresh = Socket::new(&mut n, SocketDomain::AF_UNIX, SocketKind::SOCK_STREAM).ok().unwrap();
    assert_eq!(fresh.validate_splice_read(&n), Err(Errno::EINVAL));
    a.release(&mut n);
    assert!(b.poll_hup(&n));
}

#[test]
fn datagram_sockets_through_the_interface() {
    let mut n = nets();
    let mut s = Socket::new(&mut n, SocketDomain::AF_INET, SocketKind::SOCK_DGRAM).ok().unwrap();
    assert!(matches!(
        s.send(&mut n, b"x", false, false, false, 1),
        SendStep::Fail(Errno::EDESTADDRREQ)
    ));
    let to = SocketAddr::V4 { ip: 0x7f000001, port: 99 };
    assert!(matches!(
        s.send_to(&mut n, b"x", Some(to), false, false, false, 1),
        SendStep::Sent(1, None)
    ));
    assert!(matches!(s.accept(&mut n, false, false, 1), Accepted::Fail(Errno::EOPNOTSUPP)));
    assert_eq!(s.socket_type_value(), 2);
}

#[test]
fn ends_of_waits() {
    assert_eq!(finish_interruptible_wait(true, true, None, 0), Err(Errno::EINTR));
    assert_eq!(finish_interruptible_wait(false, true, None, 0), Ok(false));
    assert_eq!(finish_interruptible_wait(false, true, Some(9), 0), Ok(true));
    assert_eq!(finish_interruptible_wait(false, false, Some(9), 9), Ok(true));
    assert_eq!(finish_interruptible_wait(false, false, Some(9), 8), Ok(false));
}

fn inet_bytes(port: u16, ip: [u8; 4]) -> Vec<u8> {
    let mut b = vec![2, 0];
    b.extend_from_slice(&port.to_be_bytes());
    b.extend_from_slice(&ip);
    b.extend_from_slice(&[0; 8]);
    b
}

#[test]
fn addresses_in_user_memory() {
    let a = read_sockaddr_for_domain(
        SocketDomain::AF_INET,
        UserIn::Value(inet_bytes(8080, [127, 0, 0, 1])),
        16,
    )
    .unwrap();
    assert_eq!(a, SocketAddr::V4 { ip: 0x7f000001, port: 8080 });
    assert!(is_local_ipv4(&a));
    assert_eq!(
        normalize_connect_addr(SocketAddr::V4 { ip: 0, port: 5 }),
        SocketAddr::V4 { ip: 0x7f000001, port: 5 }
    );
    assert!(read_sockaddr_for_domain(SocketDomain::AF_INET, UserIn::Fault, 16).is_err());
    assert_eq!(
        read_sockaddr_for_domain(SocketDomain::AF_INET, UserIn::Value(inet_bytes(1, [0; 4])), 4).err(),
        Some(Errno::EINVAL)
    );
    let place = AddrPlace { addr: UserOut::Writable, len_in: UserIn::Value(16), len_out: UserOut::Writable };
    let r = write_sockaddr_for_domain(SocketDomain::AF_INET, place, a);
    assert_eq!(r.ret, Ok(()));
    assert_eq!(r.bytes, Some(inet_bytes(8080, [127, 0, 0, 1])));
    assert_eq!(r.len, Some(16));
    let short = AddrPlace { addr: UserOut::Writable, len_in: UserIn::Value(4), len_out: UserOut::Writable };
    assert_eq!(
        write_sockaddr_for_domain(SocketDomain::AF_INET, short, a).bytes,
        Some(inet_bytes(8080, [127, 0, 0, 1])[..4].to_vec())
    );
}

fn local_bytes(name: &[u8]) -> Vec<u8> {
    let mut b = vec![1, 0];
    b.extend_from_slice(name);
    b
}

#[test]
fn local_names() {
    let b = local_bytes(b"/tmp/s\0");
    let n = b.len();
    let a = read_sockaddr_un(UserIn::Value(b), n).unwrap();
    assert!(a.is_path);
    assert!(a.key.ends_with(b"/tmp/s"));
    let hidden = local_bytes(b"\0abc");
    let h = read_sockaddr_un(UserIn::Value(hidden), 6).unwrap();
    assert!(!h.is_path);
    let place = AddrPlace { addr: UserOut::Writable, len_in: UserIn::Value(64), len_out: UserOut::Writable };
    let r = write_sockaddr_un(place, &None);
    assert_eq!(r.len, Some(2));
}

#[test]
fn binding_and_listening() {
    let mut n = nets();
    let mut s = Socket::new(&mut n, SocketDomain::AF_INET, SocketKind::SOCK_STREAM).ok().unwrap();
    assert_eq!(
        sys_bind(&mut s, &mut n, UserIn::Value(inet_bytes(80, [127, 0, 0, 1])), 16, 100).err(),
        Some(Errno::EACCES)
    );
    assert!(matches!(
        sys_bind(&mut s, &mut n, UserIn::Value(inet_bytes(8080, [127, 0, 0, 1])), 16, 100),
        Ok(BindStep::Bound)
    ));
    assert_eq!(sys_listen(&mut s, &mut n, 4, ME), Ok(0));
    let place = AddrPlace { addr: UserOut::Writable, len_in: UserIn::Value(16), len_out: UserOut::Writable };
    let r = sys_getsockname(&s, &n, place);
    assert_eq!(r.bytes, Some(inet_bytes(8080, [127, 0, 0, 1])));
    let place = AddrPlace { addr: UserOut::Writable, len_in: UserIn::Value(16), len_out: UserOut::Writable };
    assert_eq!(sys_getpeername(&s, place).ret, Err(Errno::ENOTCONN));
    assert!(sys_shutdown(&mut s, &mut n, 5).is_err());
}

#[test]
fn binding_a_local_name() {
    let mut n = nets();
    let mut s = Socket::new(&mut n, SocketDomain::AF_UNIX, SocketKind::SOCK_STREAM).ok().unwrap();
    let raw = local_bytes(b"/tmp/sock\0");
    let len = raw.len();
    let name = match sys_bind(&mut s, &mut n, UserIn::Value(raw), len, 0) {
        Ok(BindStep::Name(name)) => name,
        _ => panic!("no name"),
    };
    assert_eq!(bind_name(&s, &mut n, &name, Err(Errno::EADDRINUSE)), Err(Errno::EADDRINUSE));
    assert_eq!(bind_name(&s, &mut n, &name, Ok(())), Ok(0));
    assert_eq!(sys_listen(&mut s, &mut n, 1, ME), Ok(0));
}

#[test]
fn accepted_sockets_get_a_descriptor() {
    let mut n = nets();
    let mut t = FdTable::new(1);
    let (_a, b) = Socket::new_unix_pair(&mut n, SocketKind::SOCK_STREAM, ME).ok().unwrap();
    let nowhere = AddrPlace { addr: UserOut::Null, len_in: UserIn::Null, len_out: UserOut::Null };
    let end = finish_accept(
        &mut n,
        &mut t,
        b,
        SocketAddr::V4 { ip: 0, port: 0 },
        0x800,
        9,
        nowhere,
    );
    assert_eq!(end.ret, Ok(0));
    assert!(end.socket.is_nonblocking());
    assert_eq!(t.get_fd_entry(0).unwrap().file, 9);
}

#[test]
fn attempts_to_accept() {
    let how = AcceptTry {
        tid: 9,
        interrupted: false,
        timed_out: false,
        second: false,
        deadline_us: None,
        now_us: 50,
    };
    let nowhere = || AddrPlace { addr: UserOut::Null, len_in: UserIn::Null, len_out: UserOut::Null };
    let mut n = nets();
    let mut t = FdTable::new(4);
    let mut l = Socket::new(&mut n, SocketDomain::AF_UNIX, SocketKind::SOCK_STREAM).ok().unwrap();
    assert!(matches!(
        sys_accept4(&mut l, &mut n, &mut t, Ok(()), 0x1, 7, nowhere(), how),
        AcceptCall::Fail(Errno::EINVAL)
    ));
    assert!(matches!(
        sys_accept(&mut l, &mut n, &mut t, Err(Errno::ENOTSOCK), 7, nowhere(), how),
        AcceptCall::Fail(Errno::ENOTSOCK)
    ));
    l.bind_unix_path(&mut n, &vec![1]).unwrap();
    l.listen(&mut n, 4, ME).unwrap();
    assert!(matches!(
        sys_accept(&mut l, &mut n, &mut t, Ok(()), 7, nowhere(), how),
        AcceptCall::Wait
    ));
    let c = Socket::new(&mut n, SocketDomain::AF_UNIX, SocketKind::SOCK_STREAM).ok().unwrap();
    c.connect_unix_path(&mut n, &vec![1], YOU).ok().unwrap();
    match sys_accept4(&mut l, &mut n, &mut t, Ok(()), 0x80000, 7, nowhere(), how) {
        AcceptCall::Done(end) => {
            assert_eq!(end.ret, Ok(0));
            assert!(end.socket.cloexec);
        }
        _ => panic!("nothing was accepted"),
    }
    assert_eq!(t.get_fd_entry(0).unwrap().file, 7);

    let mut s = Socket::new(&mut n, SocketDomain::AF_INET, SocketKind::SOCK_STREAM).ok().unwrap();
    assert!(matches!(
        sys_accept(&mut s, &mut n, &mut t, Ok(()), 7, nowhere(), how),
        AcceptCall::Fail(Errno::EINVAL)
    ));
    s.bind(&mut n, SocketAddr::V4 { ip: 0x7f00_0001, port: 8080 }).unwrap();
    s.listen(&mut n, 4, ME).unwrap();
    assert!(matches!(
        sys_accept(&mut s, &mut n, &mut t, Ok(()), 7, nowhere(), how),
        AcceptCall::Retry
    ));
    let second = AcceptTry { second: true, ..how };
    assert!(matches!(
        sys_accept(&mut s, &mut n, &mut t, Ok(()), 7, nowhere(), second),
        AcceptCall::Sleep(1050)
    ));
    let late = AcceptTry { deadline_us: Some(50), ..second };
    assert!(matches!(
        sys_accept(&mut s, &mut n, &mut t, Ok(()), 7, nowhere(), late),
        AcceptCall::Fail(Errno::EAGAIN)
    ));
    let signal = AcceptTry { interrupted: true, ..how };
    assert!(matches!(
        sys_accept(&mut s, &mut n, &mut t, Ok(()), 7, nowhere(), signal),
        AcceptCall::Fail(Errno::EINTR)
    ));
}

#[test]
fn messages() {
    let h = MsgHdr {
        msg_name: 0,
        msg_namelen: 0,
        msg_iov: 1,
        msg_iovlen: 2,
        msg_control: 0,
        msg_controllen: 8,
        msg_flags: 3,
    };
    let items = vec![IoVec { base: 10, len: 3 }, IoVec { base: 20, len: 4 }];
    let pieces = || vec![UserIn::Value(vec![1, 2, 3]), UserIn::Value(vec![4, 5, 6, 7])];
    let handed = |pieces: Vec<UserIn<Vec<u8>>>, raw: UserIn<Vec<u8>>| Handed {
        items: UserIn::Value(items.clone()),
        pieces,
        domain: Ok(SocketDomain::AF_INET),
        raw,
    };
    let out = sys_sendmsg(UserIn::Value(h), 0, handed(pieces(), UserIn::Null)).unwrap();
    assert_eq!(out.data, vec![1, 2, 3, 4, 5, 6, 7]);
    assert_eq!(out.target, None);
    let named = MsgHdr { msg_name: 1, msg_namelen: 16, ..h };
    let there = UserIn::Value(inet_bytes(9, [127, 0, 0, 1]));
    let out = sys_sendmsg(UserIn::Value(named), 0, handed(pieces(), there)).unwrap();
    assert_eq!(out.target, Some(SocketAddr::V4 { ip: 0x7f00_0001, port: 9 }));
    let spoiled = vec![UserIn::Value(vec![1, 2, 3]), UserIn::Fault];
    assert_eq!(
        sys_sendmsg(UserIn::Value(h), 0, handed(spoiled, UserIn::Null)).err(),
        Some(Errno::EFAULT)
    );
    let nowhere = Handed { domain: Err(Errno::ENOTSOCK), ..handed(pieces(), UserIn::Null) };
    assert_eq!(sys_sendmsg(UserIn::Value(h), 0, nowhere).err(), Some(Errno::ENOTSOCK));
    assert_eq!(
        sys_sendmsg(UserIn::Value(h), 1, handed(pieces(), UserIn::Null)).err(),
        Some(Errno::EOPNOTSUPP)
    );
    let empty = vec![IoVec { base: 10, len: 0 }, IoVec { base: 20, len: 2 }];
    assert_eq!(
        collect_iov_bytes(&empty, &vec![UserIn::Fault, UserIn::Value(vec![8, 9])]),
        Ok(vec![8, 9])
    );

    let all = vec![UserOut::Writable, UserOut::Writable];
    let (chunks, n) = scatter_iov_bytes(&items, &all, 5);
    assert_eq!(n, Ok(5));
    assert_eq!(chunks.len(), 2);
    assert_eq!((chunks[1].base, chunks[1].from, chunks[1].len), (20, 3, 2));
    let (chunks, n) = scatter_iov_bytes(&items, &vec![UserOut::Writable, UserOut::Fault], 5);
    assert_eq!(n, Err(Errno::EFAULT));
    assert_eq!(chunks.len(), 1);
    assert_eq!(scatter_iov_bytes(&items, &vec![UserOut::Writable, UserOut::Fault], 3).1, Ok(3));

    let m = sys_recvmsg(UserIn::Value(named), 0, UserIn::Value(items.clone())).unwrap();
    assert_eq!(m.room, 7);
    let from = SocketAddr::V4 { ip: 0x7f00_0001, port: 9 };
    let end = finish_recvmsg(&m, Ok((5, from)), &all, UserOut::Writable, UserOut::Writable);
    assert_eq!(end.ret, Ok(5));
    assert_eq!(end.parts.len(), 2);
    assert_eq!(end.name, inet_bytes(9, [127, 0, 0, 1]));
    let back = end.header.unwrap();
    assert_eq!((back.msg_namelen, back.msg_controllen, back.msg_flags), (16, 0, 0));
    let bad = vec![UserOut::Fault, UserOut::Writable];
    let end = finish_recvmsg(&m, Ok((5, from)), &bad, UserOut::Writable, UserOut::Writable);
    assert_eq!(end.ret, Err(Errno::EFAULT));
    assert!(end.parts.is_empty() && end.name.is_empty() && end.header.is_none());
    let end = finish_recvmsg(&m, Ok((5, from)), &all, UserOut::Fault, UserOut::Writable);
    assert_eq!((end.ret, end.parts.len()), (Err(Errno::EFAULT), 2));
    let end = finish_recvmsg(&m, Ok((5, from)), &all, UserOut::Writable, UserOut::Fault);
    assert_eq!((end.ret, end.name.len()), (Err(Errno::EFAULT), 16));
    assert!(end.header.is_none());
    let end = finish_recvmsg(&m, Err(Errno::EAGAIN), &all, UserOut::Null, UserOut::Writable);
    assert_eq!(end.ret, Err(Errno::EAGAIN));
    let long = MsgHdr { msg_namelen: 4097, ..h };
    let read = |h: MsgHdr, flags: usize| sys_recvmsg(UserIn::Value(h), flags, UserIn::Value(items.clone())).err();
    assert_eq!(read(long, 0), Some(Errno::EINVAL));
    assert_eq!(read(h, 0x2000), Some(Errno::EAGAIN));
    assert_eq!(read(MsgHdr { msg_iovlen: 1025, ..h }, 0), Some(Errno::EMSGSIZE));
}

#[test]
fn several_messages() {
    let h = MsgHdr {
        msg_name: 0,
        msg_namelen: 0,
        msg_iov: 1,
        msg_iovlen: 2,
        msg_control: 0,
        msg_controllen: 8,
        msg_flags: 3,
    };
    let one = || UserIn::Value(MMsgHdr { msg_hdr: h, msg_len: 77 });
    assert_eq!(sys_sendmmsg(3), Ok(3));
    let mut m = Messages { vlen: 2, done: 0 };
    assert_eq!(
        m.sent(one(), Ok(5), UserOut::Writable),
        (None, Some(MMsgHdr { msg_hdr: h, msg_len: 5 }))
    );
    assert_eq!(m.sent(one(), Err(Errno::EAGAIN), UserOut::Writable), (Some(Ok(1)), None));
    let mut m = Messages { vlen: 2, done: 0 };
    assert_eq!(
        m.sent(one(), Err(Errno::EAGAIN), UserOut::Writable),
        (Some(Err(Errno::EAGAIN)), None)
    );
    let mut m = Messages { vlen: 1, done: 0 };
    let after = MsgHdr { msg_controllen: 0, ..h };
    assert_eq!(
        m.received(one(), Ok((6, after)), UserOut::Fault),
        (Some(Err(Errno::EFAULT)), None)
    );
    assert_eq!(
        m.received(one(), Ok((6, after)), UserOut::Writable),
        (Some(Ok(1)), Some(MMsgHdr { msg_hdr: after, msg_len: 6 }))
    );
    assert_eq!(read_mmsghdr(UserIn::Fault), Err(Errno::EFAULT));
    assert!(sys_recvmmsg(1, UserIn::Value(TimeSpec { sec: 0, nsec: -1 })).is_err());
}

#[test]
fn sending_and_receiving_with_addresses() {
    let mut n = nets();
    let s = Socket::new(&mut n, SocketDomain::AF_INET, SocketKind::SOCK_DGRAM).ok().unwrap();
    let (bytes, to) = sys_sendto(
        &s,
        UserIn::Value(b"abc".to_vec()),
        UserIn::Value(inet_bytes(9, [127, 0, 0, 1])),
        16,
    )
    .unwrap();
    assert_eq!(bytes, b"abc".to_vec());
    assert_eq!(to, Some(SocketAddr::V4 { ip: 0x7f000001, port: 9 }));
    assert_eq!(sys_sendto(&s, UserIn::Fault, UserIn::Null, 0).err(), Some(Errno::EFAULT));
    let place = AddrPlace { addr: UserOut::Writable, len_in: UserIn::Value(16), len_out: UserOut::Writable };
    let (r, a) = sys_recvfrom(
        SocketDomain::AF_INET,
        b"abc".to_vec(),
        UserOut::Writable,
        SocketAddr::V4 { ip: 0x7f000001, port: 9 },
        place,
    );
    assert_eq!(r.ret, Ok(3));
    assert_eq!(r.out, Some(b"abc".to_vec()));
    assert_eq!(a.bytes, Some(inet_bytes(9, [127, 0, 0, 1])));
}

#[test]
fn options_of_sockets() {
    let mut n = nets();
    let mut s = Socket::new(&mut n, SocketDomain::AF_INET, SocketKind::SOCK_STREAM).ok().unwrap();
    let none = || UserIn::<TimeSpec>::Null;
    assert_eq!(sys_setsockopt(&mut s, &mut n, 1, 7, UserIn::Value(4096), none(), 4), Ok(0));
    assert!(matches!(sys_getsockopt(&mut s, &n, 1, 7), Ok(OptValue::Int(_))));
    let five = TimeSpec { sec: 5, nsec: 0 };
    assert_eq!(
        sys_setsockopt(&mut s, &mut n, 1, 20, UserIn::Value(0), UserIn::Value(five), 16),
        Ok(0)
    );
    assert_eq!(s.recv_timeout_us(), Some(5_000_000));
    assert_eq!(s.recv_deadline_us(false, 10), Some(5_000_010));
    assert_eq!(s.recv_deadline_us(true, 10), None);
    assert!(matches!(sys_getsockopt(&mut s, &n, 1, 3), Ok(OptValue::Int(1))));
    assert!(matches!(sys_getsockopt(&mut s, &n, 1, 4), Ok(OptValue::Int(0))));
    assert!(sys_getsockopt(&mut s, &n, 77, 4).is_err());
    assert_eq!(
        sys_setsockopt(&mut s, &mut n, 1, 7, UserIn::Fault, none(), 4),
        Err(Errno::EFAULT)
    );
    assert_eq!(
        write_sockopt(OptValue::Int(5), UserOut::Writable, UserIn::Value(4), UserOut::Writable),
        Ok((4, 4))
    );
    assert!(write_sockopt(OptValue::Int(5), UserOut::Fault, UserIn::Value(4), UserOut::Writable).is_err());
}
