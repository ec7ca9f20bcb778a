//! Calls on sockets.

use crate::errno::{err, ok, Errno, SysResult};
use crate::net::addr::{endpoint_of, IpAddress, SocketAddr};
use crate::net::socket::{
    accept_called, bind_called, bind_unix_called, connect_called, connect_unix_called, domain_of,
    kind_of, listen_called, parse_domain, parse_kind, plain_socket, shutdown_called, stream_kind,
    unix_kind, Accepted, Nets, Socket, SocketDomain, SocketInner, SocketKind, SOCK_CLOEXEC,
    SOCK_NONBLOCK,
};
use crate::net::listen::{UDP_PACKETS, UDP_TX_BUF_LEN};
use crate::net::smol::{fresh_udp, SocketView, TcpView, UdpView};
use crate::net::tcp::{
    block_on, block_step, engine_changed, engine_of, engine_or_new, fresh_socket, looked_at,
    port_left, BlockStep, ConnState, TcpSocket,
};
use crate::net::udp::{udp_changed, udp_engine, udp_port_left, UdpSocket};
use crate::net::unix::{fresh_end, numbers_used, EndView, UnixPeerCredentials};
use crate::syscall::fd::{allocated, pipe_placed, two_free, FdEntry, FdTable};
use crate::syscall::file::{O_CLOEXEC, O_NONBLOCK, O_PATH, O_RDWR};
use crate::syscall::sockaddr::{
    addr_unwritten, addr_written, address_read, connect_target, is_local_ipv4, local_ipv4,
    name_read, normalize_connect_addr, raw_fits, read_sockaddr_for_domain, read_sockaddr_un,
    sockaddr_bytes, sockaddr_un_bytes, write_sockaddr_for_domain, write_sockaddr_un, AddrPlace,
    AddrReply, SockAddrUn,
};
use crate::timer::{duration_us, spec_of_us, timespec_from_us, TimeSpec};
use crate::user::{read_result, Reply, UserIn, UserOut};
use smoltcp::iface::Interface;
use std::collections::VecDeque;
use vstd::prelude::*;

verus! {

pub const IPPROTO_IP: usize = 0;

pub const IPPROTO_TCP: usize = 6;

pub const IPPROTO_UDP: usize = 17;

pub const IPPROTO_IPV6: usize = 41;

pub const IPPROTO_SCTP: usize = 132;

/// The bits of a socket type that a pair looks at.
pub const SOCK_TYPE_MASK: usize = 0xf;

/// Whether a descriptor is one of a socket; `socket` tells what is behind an open
/// one.
pub fn socket_from_fd(entry: SysResult<FdEntry>, socket: bool) -> (r: SysResult<()>)
    ensures
        r == (match entry {
            Err(e) => Err::<(), Errno>(e),
            Ok(x) => if x.flags & O_PATH != 0 {
                Err(Errno::EBADF)
            } else if !socket {
                Err(Errno::ENOTSOCK)
            } else {
                Ok(())
            },
        }),
{
    match entry {
        Err(e) => Err(e),
        Ok(x) => {
            if x.flags & O_PATH != 0 {
                return Err(Errno::EBADF);
            }
            if !socket {
                return Err(Errno::ENOTSOCK);
            }
            Ok(())
        },
    }
}

/// The protocol fits the family and kind of a socket.
pub open spec fn protocol_fits(d: SocketDomain, k: SocketKind, protocol: usize) -> bool {
    if d == SocketDomain::AF_UNIX {
        unix_kind(k) && protocol == 0
    } else if k == SocketKind::SOCK_STREAM {
        protocol == 0 || protocol == IPPROTO_TCP || protocol == IPPROTO_SCTP
    } else if k == SocketKind::SOCK_DGRAM {
        protocol == 0 || protocol == IPPROTO_UDP
    } else {
        false
    }
}

/// The family and kind of a new socket.
pub open spec fn socket_asked(domain: usize, socket_type: usize, protocol: usize) -> SysResult<
    (SocketDomain, SocketKind),
> {
    match domain_of(domain) {
        Err(e) => Err(e),
        Ok(d) => match kind_of(socket_type) {
            Err(e) => Err(e),
            Ok(k) => if protocol_fits(d, k, protocol) {
                Ok((d, k))
            } else {
                Err(Errno::EPROTONOSUPPORT)
            },
        },
    }
}

fn parse_socket(domain: usize, socket_type: usize, protocol: usize) -> (r: SysResult<
    (SocketDomain, SocketKind),
>)
    ensures
        r == socket_asked(domain, socket_type, protocol),
{
    let d = match parse_domain(domain) {
        Ok(d) => d,
        Err(e) => {
            return Err(e);
        },
    };
    let k = match parse_kind(socket_type) {
        Ok(k) => k,
        Err(e) => {
            return Err(e);
        },
    };
    let fits = match d {
        SocketDomain::AF_UNIX => match k {
            SocketKind::SOCK_RAW => false,
            _ => protocol == 0,
        },
        _ => match k {
            SocketKind::SOCK_STREAM => protocol == 0 || protocol == IPPROTO_TCP || protocol
                == IPPROTO_SCTP,
            SocketKind::SOCK_DGRAM => protocol == 0 || protocol == IPPROTO_UDP,
            _ => false,
        },
    };
    if fits {
        Ok((d, k))
    } else {
        Err(Errno::EPROTONOSUPPORT)
    }
}

/// The descriptor flags of a socket with these type flags.
pub open spec fn socket_flags(bits: usize) -> u32 {
    O_RDWR | (if bits & SOCK_NONBLOCK != 0 {
        O_NONBLOCK
    } else {
        0
    }) | (if bits & SOCK_CLOEXEC != 0 {
        O_CLOEXEC
    } else {
        0
    })
}

fn flags_of(bits: usize) -> (r: u32)
    ensures
        r == socket_flags(bits),
{
    let a: u32 = if bits & SOCK_NONBLOCK != 0 {
        O_NONBLOCK
    } else {
        0
    };
    let b: u32 = if bits & SOCK_CLOEXEC != 0 {
        O_CLOEXEC
    } else {
        0
    };
    O_RDWR | a | b
}

/// A new socket with its options.
pub open spec fn socket_made(s: Socket, d: SocketDomain, k: SocketKind, bits: usize) -> bool {
    &&& s == (Socket {
        nonblock: bits & SOCK_NONBLOCK != 0,
        cloexec: bits & SOCK_CLOEXEC != 0,
        ..plain_socket(d, k, s.inner)
    })
    &&& match s.inner {
        SocketInner::Tcp(t) => t == (TcpSocket { nonblock: s.nonblock, ..fresh_socket() }) && d
            != SocketDomain::AF_UNIX && k == SocketKind::SOCK_STREAM,
        SocketInner::Udp(u) => u == (UdpSocket {
            handle: u.handle,
            local_addr: None,
            remote_addr: None,
            nonblock: s.nonblock,
            reuse_addr: false,
        }) && d != SocketDomain::AF_UNIX && k == SocketKind::SOCK_DGRAM,
        SocketInner::Unix(_) => d == SocketDomain::AF_UNIX,
    }
}

/// The new socket is all that the state behind the sockets has gained.
pub open spec fn socket_gained(a: Nets, b: Nets, s: Socket) -> bool {
    match s.inner {
        SocketInner::Tcp(_) => b.inet == a.inet && b.unix == a.unix,
        SocketInner::Udp(u) => {
            &&& b.unix == a.unix
            &&& b.inet.table == a.inet.table
            &&& b.inet.next_tcp_port == a.inet.next_tcp_port
            &&& b.inet.next_udp_port == a.inet.next_udp_port
            &&& !a.inet.socks@.contains_key(u.handle)
            &&& b.inet.socks@ == a.inet.socks@.insert(
                u.handle,
                SocketView::Udp(fresh_udp(UDP_TX_BUF_LEN as nat, UDP_PACKETS as nat)),
            )
        },
        SocketInner::Unix(id) => {
            &&& b.inet == a.inet
            &&& numbers_used(a.unix, b.unix, 1, 0)
            &&& b.unix.listeners() == a.unix.listeners()
            &&& !a.unix.ends().contains_key(id)
            &&& b.unix.ends() == a.unix.ends().insert(
                id,
                EndView { nonblock: s.nonblock, ..fresh_end() },
            )
        },
    }
}

/// Whether making a socket goes from `a` and `t` to `b` and `t2` and returns `r`.
pub open spec fn socket_outcome(
    a: Nets,
    t: FdTable,
    b: Nets,
    t2: FdTable,
    domain: usize,
    socket_type: usize,
    protocol: usize,
    file: usize,
    r: SysResult<(usize, Socket)>,
) -> bool {
    match socket_asked(domain, socket_type, protocol) {
        Err(e) => r is Err && r->Err_0 == e && t2 == t && b
            == a,
        Ok((d, k)) => {
            &&& allocated(
                t,
                t2,
                FdEntry { file, flags: socket_flags(socket_type) },
                0,
                match r {
                    Ok((fd, _)) => Ok(fd),
                    Err(e) => Err(e),
                },
            )
            &&& match r {
                Ok((_, s)) => {
                    &&& s.wf(b)
                    &&& socket_made(s, d, k, socket_type)
                    &&& socket_gained(a, b, s)
                },
                Err(_) => b == a,
            }
        },
    }
}

/// Makes a socket with a descriptor. `file` is the identity of its file.
pub fn sys_socket(
    nets: &mut Nets,
    table: &mut FdTable,
    domain: usize,
    socket_type: usize,
    protocol: usize,
    file: usize,
) -> (r: SysResult<(usize, Socket)>)
    requires
        old(nets).wf(),
        old(table).wf(),
        old(nets).unix.next_end < usize::MAX,
    ensures
        final(nets).wf(),
        final(table).wf(),
        final(table).limit == old(table).limit,
        socket_outcome(
            *old(nets),
            *old(table),
            *final(nets),
            *final(table),
            domain,
            socket_type,
            protocol,
            file,
            r,
        ),
{
    let (d, k) = match parse_socket(domain, socket_type, protocol) {
        Ok(x) => x,
        Err(e) => {
            return Err(e);
        },
    };
    let fd: usize = match table.alloc_fd(FdEntry { file, flags: flags_of(socket_type) }) {
        Ok(fd) => fd,
        Err(e) => {
            return Err(e);
        },
    };
    match Socket::new(nets, d, k) {
        Err(e) => Err(e),
        Ok(s) => {
            let mut s = s;
            s.set_nonblocking(nets, socket_type & SOCK_NONBLOCK != 0);
            s.set_close_on_exec(socket_type & SOCK_CLOEXEC != 0);
            proof {
                if let SocketInner::Unix(id) = s.inner {
                    assert(nets.unix.ends() =~= old(nets).unix.ends().insert(
                        id,
                        EndView { nonblock: s.nonblock, ..fresh_end() },
                    ));
                }
            }
            Ok((fd, s))
        },
    }
}

/// The kind of a pair of sockets, or why there can be none.
pub open spec fn pair_asked(domain: usize, socket_type: usize, protocol: usize) -> SysResult<SocketKind> {
    match kind_of(socket_type & SOCK_TYPE_MASK) {
        Err(e) => Err(e),
        Ok(k) => if domain != 1 {
            if domain != 2 {
                Err(Errno::EAFNOSUPPORT)
            } else if (k == SocketKind::SOCK_DGRAM && protocol == IPPROTO_UDP) || (k
                == SocketKind::SOCK_STREAM && protocol == IPPROTO_TCP) {
                Err(Errno::EOPNOTSUPP)
            } else {
                Err(Errno::EPROTONOSUPPORT)
            }
        } else if protocol != 0 {
            Err(Errno::EPROTONOSUPPORT)
        } else if !unix_kind(k) {
            Err(Errno::EINVAL)
        } else {
            Ok(k)
        },
    }
}

fn parse_pair(domain: usize, socket_type: usize, protocol: usize) -> (r: SysResult<SocketKind>)
    ensures
        r == pair_asked(domain, socket_type, protocol),
{
    let k = match parse_kind(socket_type & SOCK_TYPE_MASK) {
        Ok(k) => k,
        Err(e) => {
            return Err(e);
        },
    };
    if domain != 1 {
        if domain != 2 {
            return Err(Errno::EAFNOSUPPORT);
        }
        return match k {
            SocketKind::SOCK_DGRAM => if protocol == IPPROTO_UDP {
                Err(Errno::EOPNOTSUPP)
            } else {
                Err(Errno::EPROTONOSUPPORT)
            },
            SocketKind::SOCK_STREAM => if protocol == IPPROTO_TCP {
                Err(Errno::EOPNOTSUPP)
            } else {
                Err(Errno::EPROTONOSUPPORT)
            },
            _ => Err(Errno::EPROTONOSUPPORT),
        };
    }
    if protocol != 0 {
        return Err(Errno::EPROTONOSUPPORT);
    }
    match k {
        SocketKind::SOCK_RAW => Err(Errno::EINVAL),
        _ => Ok(k),
    }
}

/// A pair of sockets with their descriptors.
pub struct SocketPair {
    pub fds: (usize, usize),
    pub left: Socket,
    pub right: Socket,
}

/// An end of a new pair.
pub open spec fn pair_end(peer: usize, credentials: UnixPeerCredentials, bits: usize) -> EndView {
    EndView {
        peer: Some(peer),
        credentials: Some(credentials),
        nonblock: bits & SOCK_NONBLOCK != 0,
        ..fresh_end()
    }
}

/// Whether making a pair of sockets goes from `a` and `t` to `b` and `t2` and returns `r`.
pub open spec fn pair_outcome(
    a: Nets,
    t: FdTable,
    b: Nets,
    t2: FdTable,
    domain: usize,
    socket_type: usize,
    protocol: usize,
    files: (usize, usize),
    credentials: UnixPeerCredentials,
    sv: UserOut,
    r: SysResult<SocketPair>,
) -> bool {
    match pair_asked(domain, socket_type, protocol) {
        Err(e) => r is Err && r->Err_0 == e && t2@ == t@ && b
            == a,
        Ok(k) => if sv != UserOut::Writable {
            &&& r is Err
            &&& r->Err_0 == Errno::EFAULT
            &&& t2@ == t@
            &&& b == a
        } else if !two_free(t) {
            &&& r is Err
            &&& r->Err_0 == Errno::EMFILE
            &&& t2@ == t@
            &&& b == a
        } else {
            &&& r is Ok
            &&& r->Ok_0.left.wf(b)
            &&& r->Ok_0.right.wf(b)
            &&& socket_made(r->Ok_0.left, SocketDomain::AF_UNIX, k, socket_type)
            &&& socket_made(r->Ok_0.right, SocketDomain::AF_UNIX, k, socket_type)
            &&& b.inet == a.inet
            &&& b.unix.listeners() == a.unix.listeners()
            &&& numbers_used(a.unix, b.unix, 2, 0)
            &&& r->Ok_0.left.inner matches SocketInner::Unix(x)
                && r->Ok_0.right.inner matches SocketInner::Unix(y) && x != y
                    && !a.unix.ends().contains_key(x) && !a.unix.ends().contains_key(y)
                && b.unix.ends() =~= a.unix.ends().insert(
                x,
                pair_end(y, credentials, socket_type),
            ).insert(y, pair_end(x, credentials, socket_type))
            &&& pipe_placed(
                t,
                t2,
                (
                    FdEntry { file: files.0, flags: socket_flags(socket_type) },
                    FdEntry { file: files.1, flags: socket_flags(socket_type) },
                ),
                r->Ok_0.fds,
            )
        },
    }
}

/// Makes two sockets that are connected with each other, with descriptors.
/// Nothing stays in the table if the call fails.
pub fn sys_socketpair(
    nets: &mut Nets,
    table: &mut FdTable,
    domain: usize,
    socket_type: usize,
    protocol: usize,
    files: (usize, usize),
    credentials: UnixPeerCredentials,
    sv: UserOut,
) -> (r: SysResult<SocketPair>)
    requires
        old(nets).wf(),
        old(table).wf(),
        old(nets).unix.next_end < usize::MAX - 1,
    ensures
        final(nets).wf(),
        final(table).wf(),
        final(table).limit == old(table).limit,
        pair_outcome(
            *old(nets),
            *old(table),
            *final(nets),
            *final(table),
            domain,
            socket_type,
            protocol,
            files,
            credentials,
            sv,
            r,
        ),
{
    let k = match parse_pair(domain, socket_type, protocol) {
        Ok(k) => k,
        Err(e) => {
            return Err(e);
        },
    };
    match sv {
        UserOut::Writable => {},
        _ => {
            return Err(Errno::EFAULT);
        },
    }
    let flags: u32 = flags_of(socket_type);
    let ghost t0 = *table;
    let a: usize = match table.alloc_fd(FdEntry { file: files.0, flags }) {
        Ok(fd) => fd,
        Err(e) => {
            return Err(e);
        },
    };
    let ghost t1 = *table;
    let b: usize = match table.alloc_fd(FdEntry { file: files.1, flags }) {
        Ok(fd) => fd,
        Err(e) => {
            let _ = table.close(a);
            proof {
                assert(table@ =~= t0@);
                assert forall|x: usize, y: usize|
                    #![trigger t0@.contains_key(x), t0@.contains_key(y)]
                    !(x < y < t0.limit && !t0@.contains_key(x) && !t0@.contains_key(y)) by {
                    if x < y < t0.limit && !t0@.contains_key(x) && !t0@.contains_key(y) {
                        assert(t1@.contains_key(x));
                        assert(t1@.contains_key(y));
                    }
                }
            }
            return Err(e);
        },
    };
    proof {
        assert(!t0@.contains_key(a));
        assert(!t1@.contains_key(b));
        assert(!t0@.contains_key(b));
        if b < a {
            assert(t0@.contains_key(b));
        }
        assert(two_free(t0));
    }
    let nonblock = socket_type & SOCK_NONBLOCK != 0;
    let cloexec = socket_type & SOCK_CLOEXEC != 0;
    match Socket::new_unix_pair(nets, k, credentials) {
        Err(e) => Err(e),
        Ok((l, r)) => {
            let mut left = l;
            let mut right = r;
            left.set_nonblocking(nets, nonblock);
            right.set_nonblocking(nets, nonblock);
            left.set_close_on_exec(cloexec);
            right.set_close_on_exec(cloexec);
            Ok(SocketPair { fds: (a, b), left, right })
        },
    }
}

/// What is left to be done for a bind.
pub enum BindStep {
    /// Nothing: the socket is bound.
    Bound,
    /// The socket gets this name; if it is a path, a node is made there first.
    Name(SockAddrUn),
}

/// Ports below this are for the superuser.
pub const PRIVILEGED_PORTS: u16 = 1024;

/// Whether binding a socket goes from `s` and `a` to `s2` and `b` and returns `r`.
pub open spec fn bind_outcome(
    s: Socket,
    a: Nets,
    s2: Socket,
    b: Nets,
    raw: UserIn<Vec<u8>>,
    len: usize,
    fsuid: usize,
    r: SysResult<BindStep>,
) -> bool {
    if s.domain == SocketDomain::AF_UNIX {
        &&& s2 == s
        &&& b == a
        &&& match r {
            Ok(BindStep::Name(n)) => {
                &&& name_read(raw, len, Ok(n))
                &&& a.unix.ends()[s.inner->Unix_0].key is None
            },
            Ok(BindStep::Bound) => false,
            Err(e) => name_read(raw, len, Err(e)) || (e == Errno::EINVAL
                && a.unix.ends()[s.inner->Unix_0].key is Some && exists|
                n: SockAddrUn,
            | #[trigger]
                name_read(raw, len, Ok(n))),
        }
    } else {
        match address_read(s.domain, raw, len) {
            Err(e) => r is Err && r->Err_0 == e && s2 == s && b
                == a,
            Ok(addr) => if !local_ipv4(addr) {
                r is Err && r->Err_0 == Errno::EADDRNOTAVAIL && s2 == s
                    && b == a
            } else if endpoint_of(addr).port < PRIVILEGED_PORTS && fsuid != 0 {
                r is Err && r->Err_0 == Errno::EACCES && s2 == s
                    && b == a
            } else {
                &&& bind_called(
                    s,
                    a,
                    s2,
                    b,
                    addr,
                    match r {
                        Ok(_) => Ok(()),
                        Err(e) => Err(e),
                    },
                )
                &&& s2 == (Socket { inner: s2.inner, ..s })
                &&& b.unix == a.unix
                &&& r matches Ok(x) ==> x is Bound
            },
        }
    }
}

/// Gives a socket a local address. A local socket gets a name in a second step.
pub fn sys_bind(sock: &mut Socket, nets: &mut Nets, raw: UserIn<Vec<u8>>, len: usize, fsuid: usize) -> (r:
    SysResult<BindStep>)
    requires
        old(nets).wf(),
        old(sock).wf(*old(nets)),
        old(sock).domain != SocketDomain::AF_UNIX ==> raw_fits(old(sock).domain, raw),
        old(sock).domain == SocketDomain::AF_UNIX ==> old(sock).inner is Unix && (
        raw matches UserIn::Value(v) ==> v@.len() == (if len < 110 {
            len as int
        } else {
            110
        })),
        address_read(old(sock).domain, raw, len) matches Ok(a) ==> endpoint_of(a).port == 0
            ==> match old(sock).inner {
            SocketInner::Tcp(_) => port_left(old(nets).inet),
            SocketInner::Udp(_) => udp_port_left(old(nets).inet),
            SocketInner::Unix(_) => true,
        },
    ensures
        final(nets).wf(),
        final(sock).wf(*final(nets)),
        bind_outcome(*old(sock), *old(nets), *final(sock), *final(nets), raw, len, fsuid, r),
{
    match sock.domain {
        SocketDomain::AF_UNIX => {
            let name = match read_sockaddr_un(raw, len) {
                Ok(n) => n,
                Err(e) => {
                    return Err(e);
                },
            };
            proof {
                assert(name_read(raw, len, Ok(name)));
            }
            match sock.ensure_unix_unbound(nets) {
                Err(e) => {
                    return Err(e);
                },
                Ok(_) => {},
            }
            return Ok(BindStep::Name(name));
        },
        _ => {},
    }
    let a = match read_sockaddr_for_domain(sock.domain, raw, len) {
        Ok(a) => a,
        Err(e) => {
            return Err(e);
        },
    };
    if !is_local_ipv4(&a) {
        return Err(Errno::EADDRNOTAVAIL);
    }
    if a.port() < PRIVILEGED_PORTS && fsuid != 0 {
        return Err(Errno::EACCES);
    }
    match sock.bind(nets, a) {
        Ok(_) => Ok(BindStep::Bound),
        Err(e) => Err(e),
    }
}

/// Gives a local socket its name after a node was made for it, if it is a path.
/// A node that exists already means that the name is in use.
pub fn bind_name(sock: &Socket, nets: &mut Nets, name: &SockAddrUn, node: SysResult<()>) -> (r: SysResult<
    usize,
>)
    requires
        old(nets).wf(),
        sock.wf(*old(nets)),
    ensures
        final(nets).wf(),
        sock.wf(*final(nets)),
        final(nets).inet == old(nets).inet,
        numbers_used(old(nets).unix, final(nets).unix, 0, 0),
        if name.is_path && node is Err {
            &&& *final(nets) == *old(nets)
            &&& r == err(
                if node->Err_0 == Errno::EEXIST {
                    Errno::EADDRINUSE
                } else {
                    node->Err_0
                },
            )
        } else {
            bind_unix_called(
                *sock,
                *old(nets),
                *final(nets),
                name.key@,
                match r {
                    Ok(_) => Ok(()),
                    Err(e) => Err(e),
                },
            ) && (r matches Ok(n) ==> n == 0)
        },
{
    if name.is_path {
        match node {
            Err(Errno::EEXIST) => {
                return Err(Errno::EADDRINUSE);
            },
            Err(e) => {
                return Err(e);
            },
            Ok(_) => {},
        }
    }
    match sock.bind_unix_path(nets, &name.key) {
        Ok(_) => Ok(0),
        Err(e) => Err(e),
    }
}

/// Makes a socket listen.
pub fn sys_listen(sock: &mut Socket, nets: &mut Nets, backlog: usize, credentials: UnixPeerCredentials) -> (r:
    SysResult<usize>)
    requires
        old(nets).wf(),
        old(sock).wf(*old(nets)),
        old(nets).unix.next_listener < usize::MAX,
        old(sock).inner matches SocketInner::Tcp(t) ==> t.state == ConnState::Closed
            && t.local_addr.port == 0 ==> port_left(old(nets).inet),
    ensures
        final(nets).wf(),
        final(sock).wf(*final(nets)),
        *final(sock) == (Socket { inner: final(sock).inner, ..*old(sock) }),
        numbers_used(
            old(nets).unix,
            final(nets).unix,
            0,
            if r is Ok && old(sock).inner is Unix {
                1
            } else {
                0
            },
        ),
        r matches Ok(n) ==> n == 0,
        listen_called(
            *old(sock),
            *old(nets),
            *final(sock),
            *final(nets),
            backlog,
            credentials,
            match r {
                Ok(_) => Ok(()),
                Err(e) => Err(e),
            },
        ),
{
    match sock.listen(nets, backlog, credentials) {
        Ok(_) => Ok(0),
        Err(e) => Err(e),
    }
}

/// The end of an accept: what it returns, what is written of the address, and
/// the socket; if the call failed, the socket is to be released.
pub struct AcceptEnd {
    pub ret: SysResult<usize>,
    pub addr: AddrReply,
    pub socket: Socket,
}

/// What giving an accepted socket its options and a descriptor comes to: `a` and
/// `t` before, `b` and `t2` after.
pub open spec fn accept_finished(
    a: Nets,
    t: FdTable,
    sock: Socket,
    from: SocketAddr,
    flags: usize,
    file: usize,
    place: AddrPlace,
    b: Nets,
    t2: FdTable,
    r: AcceptEnd,
) -> bool {
    let e = FdEntry { file, flags: socket_flags(flags) };
    let nonblock = flags & SOCK_NONBLOCK != 0;
    let bytes = if sock.domain == SocketDomain::AF_UNIX {
        sockaddr_un_bytes(None)
    } else {
        sockaddr_bytes(sock.domain, from)
    };
    &&& t2.limit == t.limit
    &&& b.inet == a.inet
    &&& b.unix.listeners() == a.unix.listeners()
    &&& numbers_used(a.unix, b.unix, 0, 0)
    &&& b.unix.ends() == (match sock.inner {
        SocketInner::Unix(id) => a.unix.ends().insert(
            id,
            EndView { nonblock, ..a.unix.ends()[id] },
        ),
        _ => a.unix.ends(),
    })
    &&& r.socket == (Socket {
        nonblock,
        cloexec: flags & SOCK_CLOEXEC != 0,
        inner: match sock.inner {
            SocketInner::Tcp(s) => SocketInner::Tcp(TcpSocket { nonblock, ..s }),
            SocketInner::Udp(s) => SocketInner::Udp(UdpSocket { nonblock, ..s }),
            SocketInner::Unix(id) => SocketInner::Unix(id),
        },
        ..sock
    })
    &&& if forall|k: usize| k < t.limit ==> #[trigger] t@.contains_key(k) {
        &&& r.ret == err(Errno::EMFILE)
        &&& addr_unwritten(r.addr, Err(Errno::EMFILE))
        &&& t2@ == t@
    } else {
        &&& addr_written(place, bytes, r.addr)
        &&& match r.addr.ret {
            Err(x) => r.ret == err(x) && t2@ == t@,
            Ok(_) => r.ret is Ok && allocated(t, t2, e, 0, r.ret),
        }
    }
}

/// Gives an accepted socket its options and a descriptor, and writes where it
/// comes from. If the address cannot be written the descriptor is closed again.
pub fn finish_accept(
    nets: &mut Nets,
    table: &mut FdTable,
    sock: Socket,
    from: SocketAddr,
    flags: usize,
    file: usize,
    place: AddrPlace,
) -> (r: AcceptEnd)
    requires
        old(nets).wf(),
        old(table).wf(),
        sock.wf(*old(nets)),
        !sock.nonblock,
        !sock.cloexec,
    ensures
        final(nets).wf(),
        final(table).wf(),
        r.socket.wf(*final(nets)),
        accept_finished(
            *old(nets),
            *old(table),
            sock,
            from,
            flags,
            file,
            place,
            *final(nets),
            *final(table),
            r,
        ),
{
    let mut s = sock;
    s.set_nonblocking(nets, flags & SOCK_NONBLOCK != 0);
    s.set_close_on_exec(flags & SOCK_CLOEXEC != 0);
    let ghost t0 = *table;
    let fd: usize = match table.alloc_fd(FdEntry { file, flags: flags_of(flags) }) {
        Ok(fd) => fd,
        Err(e) => {
            return AcceptEnd {
                ret: Err(e),
                addr: AddrReply { ret: Err(e), bytes: None, len: None },
                socket: s,
            };
        },
    };
    proof {
        assert(!t0@.contains_key(fd));
    }
    let addr = match s.domain {
        SocketDomain::AF_UNIX => {
            let none: Option<Vec<u8>> = None;
            write_sockaddr_un(place, &none)
        },
        _ => write_sockaddr_for_domain(s.domain, place, from),
    };
    match addr.ret {
        Err(e) => {
            let _ = table.close(fd);
            proof {
                assert(table@ =~= t0@);
            }
            AcceptEnd { ret: Err(e), addr, socket: s }
        },
        Ok(_) => AcceptEnd { ret: Ok(fd), addr, socket: s },
    }
}

/// The flags of an accept.
pub const ACCEPT_FLAGS: usize = 0x80800;

/// The circumstances of an attempt to accept.
#[derive(Debug, Clone, Copy)]
pub struct AcceptTry {
    pub tid: usize,
    /// A signal has come.
    pub interrupted: bool,
    /// The deadline has woken the thread.
    pub timed_out: bool,
    /// The attempt repeats one that found nothing, with the thread on the list of
    /// those that network events wake.
    pub second: bool,
    pub deadline_us: Option<usize>,
    pub now_us: usize,
}

/// How an accept goes on.
pub enum AcceptCall {
    /// A connection was taken, and this is what the call comes to.
    Done(AcceptEnd),
    /// The call fails.
    Fail(Errno),
    /// Nothing is there: the thread is put on the list of those that network
    /// events wake, and the attempt repeated.
    Retry,
    /// Nothing is there: the thread sleeps until a network event or this time.
    Sleep(usize),
    /// Nothing is there: the thread, which is on the list of the listener, sleeps
    /// until it is woken or until the deadline.
    Wait,
}

/// A signal ends a wait for a stream connection before the attempt.
pub open spec fn accept_interrupted(s: Socket, how: AcceptTry) -> bool {
    &&& stream_kind(s.kind)
    &&& s.inner matches SocketInner::Tcp(t) && t.state == ConnState::Listening && !t.nonblock
    &&& how.interrupted && !how.second
}

/// What follows an attempt that took no connection.
pub open spec fn accept_without(s: Socket, how: AcceptTry, acc: Accepted) -> AcceptCall {
    match acc {
        Accepted::Fail(e) => match s.inner {
            SocketInner::Tcp(t) => match block_step(
                !t.nonblock,
                how.second,
                Some(e),
                how.deadline_us,
                how.now_us,
            ) {
                BlockStep::Finish => AcceptCall::Fail(e),
                BlockStep::Retry => AcceptCall::Retry,
                BlockStep::Sleep(until) => AcceptCall::Sleep(until),
            },
            _ => AcceptCall::Fail(e),
        },
        _ => AcceptCall::Wait,
    }
}

/// What an accept comes to: the attempt leads from `a` to `mid` and gives `acc`,
/// and a connection that was taken gets its options and a descriptor.
pub open spec fn accept_tried(
    s: Socket,
    a: Nets,
    t: FdTable,
    flags: usize,
    file: usize,
    place: AddrPlace,
    how: AcceptTry,
    mid: Nets,
    acc: Accepted,
    s2: Socket,
    b: Nets,
    t2: FdTable,
    r: AcceptCall,
) -> bool {
    &&& accept_called(s, a, s2, mid, how.timed_out, how.interrupted, how.tid, acc)
    &&& match acc {
        Accepted::Socket(c, from) => r matches AcceptCall::Done(end) && accept_finished(
            mid,
            t,
            c,
            from,
            flags,
            file,
            place,
            b,
            t2,
            end,
        ),
        _ => r == accept_without(s, how, acc) && b == mid && t2 == t,
    }
}

/// Makes one attempt of an accept. `found` tells whether the descriptor is one of a
/// socket, `file` is the file that the connection becomes.
pub fn sys_accept4(
    sock: &mut Socket,
    nets: &mut Nets,
    table: &mut FdTable,
    found: SysResult<()>,
    flags: usize,
    file: usize,
    place: AddrPlace,
    how: AcceptTry,
) -> (r: AcceptCall)
    requires
        old(nets).wf(),
        old(sock).wf(*old(nets)),
        old(table).wf(),
    ensures
        final(nets).wf(),
        final(sock).wf(*final(nets)),
        final(table).wf(),
        *final(sock) == (Socket { inner: final(sock).inner, ..*old(sock) }),
        if flags & !ACCEPT_FLAGS != 0 || found is Err || accept_interrupted(*old(sock), how) {
            &&& r == AcceptCall::Fail(
                if flags & !ACCEPT_FLAGS != 0 {
                    Errno::EINVAL
                } else if found is Err {
                    found->Err_0
                } else {
                    Errno::EINTR
                },
            )
            &&& *final(sock) == *old(sock)
            &&& *final(nets) == *old(nets)
            &&& *final(table) == *old(table)
        } else {
            exists|mid: Nets, acc: Accepted| #[trigger]
                accept_tried(
                    *old(sock),
                    *old(nets),
                    *old(table),
                    flags,
                    file,
                    place,
                    how,
                    mid,
                    acc,
                    *final(sock),
                    *final(nets),
                    *final(table),
                    r,
                )
        },
{
    if flags & !ACCEPT_FLAGS != 0 {
        return AcceptCall::Fail(Errno::EINVAL);
    }
    match found {
        Err(e) => {
            return AcceptCall::Fail(e);
        },
        Ok(_) => {},
    }
    let streams = match sock.kind {
        SocketKind::SOCK_STREAM | SocketKind::SOCK_SEQPACKET => true,
        _ => false,
    };
    let tcp_waits: Option<bool> = match &sock.inner {
        SocketInner::Tcp(t) => {
            if streams && t.is_listening() && t.is_block() && how.interrupted && !how.second {
                return AcceptCall::Fail(Errno::EINTR);
            }
            Some(t.is_block())
        },
        _ => None,
    };
    let acc = sock.accept(nets, how.timed_out, how.interrupted, how.tid);
    let ghost mid = *nets;
    let ghost taken = acc;
    let ghost t0 = *table;
    let ghost s0 = *old(sock);
    let r = match acc {
        Accepted::Socket(c, from) => AcceptCall::Done(
            finish_accept(nets, table, c, from, flags, file, place),
        ),
        Accepted::Fail(e) => match tcp_waits {
            Some(waits) => match block_on(waits, how.second, Some(e), how.deadline_us, how.now_us) {
                BlockStep::Finish => AcceptCall::Fail(e),
                BlockStep::Retry => AcceptCall::Retry,
                BlockStep::Sleep(until) => AcceptCall::Sleep(until),
            },
            None => AcceptCall::Fail(e),
        },
        Accepted::Wait => AcceptCall::Wait,
    };
    assert(accept_tried(
        s0,
        *old(nets),
        t0,
        flags,
        file,
        place,
        how,
        mid,
        taken,
        *sock,
        *nets,
        *table,
        r,
    ));
    r
}

/// Makes one attempt of an accept without flags.
pub fn sys_accept(
    sock: &mut Socket,
    nets: &mut Nets,
    table: &mut FdTable,
    found: SysResult<()>,
    file: usize,
    place: AddrPlace,
    how: AcceptTry,
) -> (r: AcceptCall)
    requires
        old(nets).wf(),
        old(sock).wf(*old(nets)),
        old(table).wf(),
    ensures
        final(nets).wf(),
        final(sock).wf(*final(nets)),
        final(table).wf(),
        *final(sock) == (Socket { inner: final(sock).inner, ..*old(sock) }),
        if found is Err || accept_interrupted(*old(sock), how) {
            &&& r == AcceptCall::Fail(
                if found is Err {
                    found->Err_0
                } else {
                    Errno::EINTR
                },
            )
            &&& *final(sock) == *old(sock)
            &&& *final(nets) == *old(nets)
            &&& *final(table) == *old(table)
        } else {
            exists|mid: Nets, acc: Accepted| #[trigger]
                accept_tried(
                    *old(sock),
                    *old(nets),
                    *old(table),
                    0,
                    file,
                    place,
                    how,
                    mid,
                    acc,
                    *final(sock),
                    *final(nets),
                    *final(table),
                    r,
                )
        },
{
    proof {
        assert(0usize & !0x80800usize == 0) by (bit_vector);
    }
    sys_accept4(sock, nets, table, found, 0, file, place, how)
}

/// What is left to be done for a connect.
pub enum ConnectStep {
    /// A stream: the request is on its way, and the caller waits. Anything else:
    /// the socket is connected.
    Started,
    /// A local socket is connected: the listener whose pollers are told, and the
    /// thread to wake.
    Local(usize, Option<usize>),
}

/// Whether connecting a socket goes from `s` and `a` to `s2` and `b` and returns `r`.
pub open spec fn connect_outcome(
    s: Socket,
    a: Nets,
    s2: Socket,
    b: Nets,
    raw: UserIn<Vec<u8>>,
    len: usize,
    credentials: UnixPeerCredentials,
    r: SysResult<ConnectStep>,
) -> bool {
    if s.domain == SocketDomain::AF_UNIX {
        &&& s2 == s
        &&& exists|n: SysResult<SockAddrUn>| #[trigger]
            name_read(raw, len, n) && match n {
                Err(e) => r is Err && r->Err_0 == e && b == a,
                Ok(n) => connect_unix_called(
                    s,
                    a,
                    b,
                    n.key@,
                    credentials,
                    match r {
                        Ok(ConnectStep::Local(l, w)) => Ok((l, w)),
                        Ok(ConnectStep::Started) => Ok((0, None)),
                        Err(e) => Err(e),
                    },
                ) && (r matches Ok(x) ==> x is Local),
            }
    } else {
        match address_read(s.domain, raw, len) {
            Err(e) => r is Err && r->Err_0 == e && s2 == s && b
                == a,
            Ok(addr) => connect_called(
                s,
                a,
                s2,
                b,
                connect_target(addr),
                match r {
                    Ok(_) => Ok(()),
                    Err(e) => Err(e),
                },
            ) && (r matches Ok(x) ==> x is Started),
        }
    }
}

/// Connects a socket.
pub fn sys_connect(
    sock: &mut Socket,
    nets: &mut Nets,
    iface: &mut Interface,
    raw: UserIn<Vec<u8>>,
    len: usize,
    credentials: UnixPeerCredentials,
) -> (r: SysResult<ConnectStep>)
    requires
        old(nets).wf(),
        old(sock).wf(*old(nets)),
        old(nets).unix.next_end < usize::MAX,
        old(sock).domain != SocketDomain::AF_UNIX ==> raw_fits(old(sock).domain, raw),
        old(sock).domain == SocketDomain::AF_UNIX ==> (raw matches UserIn::Value(v) ==> v@.len() == (
        if len < 110 {
            len as int
        } else {
            110
        })),
        match old(sock).inner {
            SocketInner::Tcp(t) => t.state == ConnState::Closed && t.local_addr.port == 0
                ==> port_left(old(nets).inet),
            SocketInner::Udp(u) => u.local_addr is None ==> udp_port_left(old(nets).inet),
            SocketInner::Unix(_) => true,
        },
    ensures
        final(nets).wf(),
        final(sock).wf(*final(nets)),
        *final(sock) == (Socket { inner: final(sock).inner, ..*old(sock) }),
        numbers_used(
            old(nets).unix,
            final(nets).unix,
            if r matches Ok(ConnectStep::Local(_, _)) {
                1
            } else {
                0
            },
            0,
        ),
        old(sock).domain == SocketDomain::AF_UNIX ==> final(nets).inet == old(nets).inet,
        old(sock).domain != SocketDomain::AF_UNIX ==> final(nets).unix == old(nets).unix,
        connect_outcome(
            *old(sock),
            *old(nets),
            *final(sock),
            *final(nets),
            raw,
            len,
            credentials,
            r,
        ),
{
    match sock.domain {
        SocketDomain::AF_UNIX => {
            let read = read_sockaddr_un(raw, len);
            proof {
                assert(name_read(raw, len, read));
            }
            let name = match read {
                Ok(n) => n,
                Err(e) => {
                    return Err(e);
                },
            };
            return match sock.connect_unix_path(nets, &name.key, credentials) {
                Ok((l, w)) => Ok(ConnectStep::Local(l, w)),
                Err(e) => Err(e),
            };
        },
        _ => {},
    }
    let a = match read_sockaddr_for_domain(sock.domain, raw, len) {
        Ok(a) => a,
        Err(e) => {
            return Err(e);
        },
    };
    match sock.connect(nets, iface, normalize_connect_addr(a)) {
        Ok(_) => Ok(ConnectStep::Started),
        Err(e) => Err(e),
    }
}

/// Writes the address of a socket's own side.
pub fn sys_getsockname(sock: &Socket, nets: &Nets, place: AddrPlace) -> (r: AddrReply)
    requires
        nets.wf(),
        sock.wf(*nets),
    ensures
        if place.addr == UserOut::Null || place.len_out == UserOut::Null {
            addr_unwritten(r, Err(Errno::EFAULT))
        } else if sock.domain == SocketDomain::AF_UNIX {
            match sock.inner {
                SocketInner::Unix(id) => addr_written(
                    place,
                    sockaddr_un_bytes(nets.unix.ends()[id].key),
                    r,
                ),
                _ => addr_unwritten(r, Err(Errno::EAFNOSUPPORT)),
            }
        } else {
            match own_address(*sock) {
                Err(e) => addr_unwritten(r, Err(e)),
                Ok(a) => addr_written(place, sockaddr_bytes(sock.domain, a), r),
            }
        },
{
    if no_place(&place) {
        return AddrReply { ret: Err(Errno::EFAULT), bytes: None, len: None };
    }
    match sock.domain {
        SocketDomain::AF_UNIX => match sock.get_bound_unix_key(nets) {
            Ok(key) => write_sockaddr_un(place, &key),
            Err(e) => AddrReply { ret: Err(e), bytes: None, len: None },
        },
        _ => match sock.get_bound_address() {
            Ok(a) => write_sockaddr_for_domain(sock.domain, place, a),
            Err(e) => AddrReply { ret: Err(e), bytes: None, len: None },
        },
    }
}

/// The address of a socket's own side.
pub open spec fn own_address(s: Socket) -> SysResult<SocketAddr> {
    match s.inner {
        SocketInner::Tcp(t) => match t.state {
            ConnState::Connected | ConnState::Listening | ConnState::Closed => Ok(
                crate::net::addr::sockaddr_of(t.local_addr),
            ),
            _ => Err(Errno::ENOTCONN),
        },
        SocketInner::Udp(u) => match u.local_addr {
            Some(e) => Ok(crate::net::addr::sockaddr_of(e)),
            None => Err(Errno::ENOTCONN),
        },
        SocketInner::Unix(_) => Err(Errno::EOPNOTSUPP),
    }
}

/// The address of the other side.
pub open spec fn peer_address(s: Socket) -> SysResult<SocketAddr> {
    match s.inner {
        SocketInner::Tcp(t) => if t.state == ConnState::Connected {
            Ok(crate::net::addr::sockaddr_of(t.remote_addr))
        } else {
            Err(Errno::ENOTCONN)
        },
        SocketInner::Udp(u) => match u.remote_addr {
            Some(e) => Ok(crate::net::addr::sockaddr_of(e)),
            None => Err(Errno::ENOTCONN),
        },
        SocketInner::Unix(_) => Err(Errno::ENOTCONN),
    }
}

fn no_place(p: &AddrPlace) -> (r: bool)
    ensures
        r == (p.addr == UserOut::Null || p.len_out == UserOut::Null),
{
    let a = match p.addr {
        UserOut::Null => true,
        _ => false,
    };
    let b = match p.len_out {
        UserOut::Null => true,
        _ => false,
    };
    a || b
}

/// Writes the address of the other side.
pub fn sys_getpeername(sock: &Socket, place: AddrPlace) -> (r: AddrReply)
    ensures
        if place.addr == UserOut::Null || place.len_out == UserOut::Null {
            addr_unwritten(r, Err(Errno::EFAULT))
        } else {
            match peer_address(*sock) {
                Err(e) => addr_unwritten(r, Err(e)),
                Ok(a) => addr_written(place, sockaddr_bytes(sock.domain, a), r),
            }
        },
{
    if no_place(&place) {
        return AddrReply { ret: Err(Errno::EFAULT), bytes: None, len: None };
    }
    match sock.get_remote_addr() {
        Ok(a) => write_sockaddr_for_domain(sock.domain, place, a),
        Err(e) => AddrReply { ret: Err(e), bytes: None, len: None },
    }
}

/// Closes halves of a socket's connection; the threads to wake are returned.
pub fn sys_shutdown(sock: &mut Socket, nets: &mut Nets, how: usize) -> (r: SysResult<VecDeque<usize>>)
    requires
        old(nets).wf(),
        old(sock).wf(*old(nets)),
    ensures
        final(nets).wf(),
        final(sock).wf(*final(nets)),
        *final(sock) == (Socket { inner: final(sock).inner, ..*old(sock) }),
        numbers_used(old(nets).unix, final(nets).unix, 0, 0),
        shutdown_called(*old(sock), *old(nets), *final(sock), *final(nets), how, r),
{
    sock.shutdown(nets, how)
}

/// Where a message goes: to an address, or to the peer if none is given.
pub open spec fn message_target(domain: SocketDomain, raw: UserIn<Vec<u8>>, len: usize) -> SysResult<
    Option<SocketAddr>,
> {
    if raw is Null {
        Ok(None)
    } else {
        match address_read(domain, raw, len) {
            Ok(a) => Ok(Some(a)),
            Err(e) => Err(e),
        }
    }
}

/// The message that a call hands over and whom it is for.
pub open spec fn message_handed(
    domain: SocketDomain,
    data: UserIn<Vec<u8>>,
    raw: UserIn<Vec<u8>>,
    len: usize,
) -> SysResult<(Vec<u8>, Option<SocketAddr>)> {
    match read_result(data) {
        Err(e) => Err::<(Vec<u8>, Option<SocketAddr>), Errno>(e),
        Ok(d) => match message_target(domain, raw, len) {
            Err(e) => Err(e),
            Ok(t) => Ok((d, t)),
        },
    }
}

/// Checks a message to be sent: `data` are its bytes as they were read. What is
/// sent and where to is returned.
pub fn sys_sendto(sock: &Socket, data: UserIn<Vec<u8>>, raw: UserIn<Vec<u8>>, len: usize) -> (r: SysResult<
    (Vec<u8>, Option<SocketAddr>),
>)
    requires
        raw_fits(sock.domain, raw),
    ensures
        r == message_handed(sock.domain, data, raw, len),
{
    let d = match data.read() {
        Ok(d) => d,
        Err(e) => {
            return Err(e);
        },
    };
    if raw.is_null() {
        return Ok((d, None));
    }
    match read_sockaddr_for_domain(sock.domain, raw, len) {
        Ok(a) => Ok((d, Some(a))),
        Err(e) => Err(e),
    }
}

/// Whether giving a received message to the caller comes to `r`.
pub open spec fn message_given(
    domain: SocketDomain,
    data: Vec<u8>,
    buf: UserOut,
    from: SocketAddr,
    place: AddrPlace,
    r: (Reply<Vec<u8>>, AddrReply),
) -> bool {
    if data@.len() > 0 && buf != UserOut::Writable {
        &&& r.0.ret == err(Errno::EFAULT)
        &&& r.0.out is None
        &&& addr_unwritten(r.1, Err(Errno::EFAULT))
    } else {
        &&& r.0.out == Some(data)
        &&& addr_written(place, sockaddr_bytes(domain, from), r.1)
        &&& r.0.ret == match r.1.ret {
            Ok(_) => ok(data@.len() as usize),
            Err(e) => err(e),
        }
    }
}

/// The end of a receive: the bytes go to the buffer, then the sender's address to
/// its place.
pub fn sys_recvfrom(domain: SocketDomain, data: Vec<u8>, buf: UserOut, from: SocketAddr, place: AddrPlace) -> (r:
    (Reply<Vec<u8>>, AddrReply))
    ensures
        message_given(domain, data, buf, from, place, r),
{
    let writable = match buf {
        UserOut::Writable => true,
        _ => false,
    };
    if data.len() > 0 && !writable {
        return (
            Reply { ret: Err(Errno::EFAULT), out: None },
            AddrReply { ret: Err(Errno::EFAULT), bytes: None, len: None },
        );
    }
    let n: usize = data.len();
    let addr = write_sockaddr_for_domain(domain, place, from);
    let ret: SysResult<usize> = match addr.ret {
        Ok(_) => Ok(n),
        Err(e) => Err(e),
    };
    (Reply { ret, out: Some(data) }, addr)
}

pub const SOL_SOCKET: usize = 1;

pub const SO_REUSEADDR: usize = 2;

pub const SO_TYPE: usize = 3;

pub const SO_ERROR: usize = 4;

pub const SO_DONTROUTE: usize = 5;

pub const SO_BROADCAST: usize = 6;

pub const SO_SNDBUF: usize = 7;

pub const SO_RCVBUF: usize = 8;

pub const SO_KEEPALIVE: usize = 9;

pub const SO_OOBINLINE: usize = 10;

pub const SO_LINGER: usize = 13;

pub const SO_REUSEPORT: usize = 15;

pub const SO_RCVTIMEO: usize = 20;

pub const SO_SNDTIMEO: usize = 21;

pub const SO_SNDBUFFORCE: usize = 32;

pub const SO_RCVBUFFORCE: usize = 33;

pub const IP_TTL: usize = 2;

pub const IP_RECVERR: usize = 11;

pub const IPV6_V6ONLY: usize = 26;

pub const TCP_NODELAY: usize = 1;

pub const TCP_MAXSEG: usize = 2;

pub const TCP_INFO: usize = 11;

pub const TCP_DEFAULT_MAXSEG: i32 = 1448;

/// Bytes of the connection information.
pub const TCP_INFO_LEN: usize = 104;

/// Options that are accepted without effect.
pub open spec fn idle_option(opt: usize) -> bool {
    opt == SO_OOBINLINE || opt == SO_DONTROUTE || opt == SO_BROADCAST || opt == SO_KEEPALIVE || opt
        == SO_REUSEPORT
}

/// An option value of four bytes.
pub open spec fn int_read(value: UserIn<i32>, len: usize) -> SysResult<i32> {
    if value is Null {
        Err(Errno::EFAULT)
    } else if len < 4 {
        Err(Errno::EINVAL)
    } else {
        read_result(value)
    }
}

fn read_i32(value: UserIn<i32>, len: usize) -> (r: SysResult<i32>)
    ensures
        r == int_read(value, len),
{
    if value.is_null() {
        return Err(Errno::EFAULT);
    }
    if len < 4 {
        return Err(Errno::EINVAL);
    }
    value.read()
}

/// An option value that is a duration, in microseconds; none stands for no
/// limit.
pub open spec fn timeout_read(value: UserIn<TimeSpec>, len: usize) -> SysResult<Option<usize>> {
    if value is Null {
        Err(Errno::EFAULT)
    } else if len < 16 {
        Err(Errno::EINVAL)
    } else {
        match read_result(value) {
            Err(e) => Err(e),
            Ok(t) => match duration_us(t) {
                None => Err(Errno::EINVAL),
                Some(us) => if us == 0 {
                    Ok(None)
                } else {
                    Ok(Some(us))
                },
            },
        }
    }
}

fn read_timeout(value: UserIn<TimeSpec>, len: usize) -> (r: SysResult<Option<usize>>)
    ensures
        r == timeout_read(value, len),
{
    if value.is_null() {
        return Err(Errno::EFAULT);
    }
    if len < 16 {
        return Err(Errno::EINVAL);
    }
    match value.read() {
        Err(e) => Err(e),
        Ok(t) => match t.checked_duration_us() {
            None => Err(Errno::EINVAL),
            Some(us) => if us == 0 {
                Ok(None)
            } else {
                Ok(Some(us))
            },
        },
    }
}

/// What an option of the socket itself does to it.
pub open spec fn socket_option(
    s: Socket,
    opt: usize,
    num: SysResult<i32>,
    time: SysResult<Option<usize>>,
) -> SysResult<Socket> {
    if opt == SO_REUSEADDR {
        match num {
            Err(e) => Err(e),
            Ok(v) => Ok(
                Socket {
                    inner: match s.inner {
                        SocketInner::Tcp(t) => SocketInner::Tcp(
                            TcpSocket { reuse_addr: v != 0, ..t },
                        ),
                        SocketInner::Udp(u) => SocketInner::Udp(
                            UdpSocket { reuse_addr: v != 0, ..u },
                        ),
                        SocketInner::Unix(id) => SocketInner::Unix(id),
                    },
                    ..s
                },
            ),
        }
    } else if idle_option(opt) {
        match num {
            Err(e) => Err(e),
            Ok(_) => Ok(s),
        }
    } else if opt == SO_LINGER {
        Ok(s)
    } else if opt == SO_SNDBUF || opt == SO_RCVBUF {
        match num {
            Err(e) => Err(e),
            Ok(v) => if v < 0 {
                Err(Errno::EINVAL)
            } else if opt == SO_SNDBUF {
                Ok(Socket { send_buf_size: v as u64, ..s })
            } else {
                Ok(Socket { recv_buf_size: v as u64, ..s })
            },
        }
    } else if opt == SO_SNDBUFFORCE || opt == SO_RCVBUFFORCE {
        match num {
            Err(e) => Err(e),
            Ok(v) => {
                let size = if v < 0 {
                    0x7fff_ffffu64
                } else {
                    v as u64
                };
                if opt == SO_SNDBUFFORCE {
                    Ok(Socket { send_buf_size: size, ..s })
                } else {
                    Ok(Socket { recv_buf_size: size, ..s })
                }
            },
        }
    } else if opt == SO_RCVTIMEO {
        match time {
            Err(e) => Err(e),
            Ok(t) => Ok(Socket { recvtimeout_us: t, ..s }),
        }
    } else if opt == SO_SNDTIMEO {
        match time {
            Err(e) => Err(e),
            Ok(t) => Ok(Socket { sendtimeout_us: t, ..s }),
        }
    } else {
        Err(Errno::ENOPROTOOPT)
    }
}

/// Whether setting an option goes from `s` and `a` to `s2` and `b` and returns `r`.
pub open spec fn option_set(
    s: Socket,
    a: Nets,
    s2: Socket,
    b: Nets,
    level: usize,
    opt: usize,
    num: UserIn<i32>,
    time: UserIn<TimeSpec>,
    len: usize,
    r: SysResult<usize>,
) -> bool {
    if level == SOL_SOCKET {
        &&& b == a
        &&& match socket_option(s, opt, int_read(num, len), timeout_read(time, len)) {
            Err(e) => r == err(e) && s2 == s,
            Ok(set) => r is Ok && s2 == set,
        }
    } else if level == IPPROTO_TCP && opt == TCP_NODELAY {
        match int_read(num, len) {
            Err(e) => r == err(e) && s2 == s && b == a,
            Ok(v) => match s.inner {
                SocketInner::Tcp(t) => {
                    &&& r is Ok
                    &&& s2 == (Socket { inner: s2.inner, ..s })
                    &&& b.unix == a.unix
                    &&& s2.inner matches SocketInner::Tcp(t2) && engine_changed(
                        t,
                        a.inet,
                        t2,
                        b.inet,
                    ) && engine_of(t2, b.inet) == (TcpView {
                        nagle: v == 0,
                        ..engine_or_new(t, a.inet)
                    })
                },
                _ => r == err(Errno::ENOPROTOOPT) && s2 == s
                    && b == a,
            },
        }
    } else if level == IPPROTO_IP && opt == IP_TTL {
        match int_read(num, len) {
            Err(e) => r == err(e) && s2 == s && b == a,
            Ok(v) => if v < 1 || v > 255 {
                r == err(Errno::EINVAL) && s2 == s && b
                    == a
            } else {
                match s.inner {
                    SocketInner::Tcp(t) => {
                        &&& r is Ok
                        &&& s2 == (Socket { inner: s2.inner, ..s })
                        &&& b.unix == a.unix
                        &&& s2.inner matches SocketInner::Tcp(t2) && engine_changed(
                            t,
                            a.inet,
                            t2,
                            b.inet,
                        ) && engine_of(t2, b.inet) == (TcpView {
                            hop_limit: Some(v as u8),
                            ..engine_or_new(t, a.inet)
                        })
                    },
                    SocketInner::Udp(u) => {
                        &&& r is Ok
                        &&& s2 == s
                        &&& b.unix == a.unix
                        &&& udp_changed(a.inet, b.inet, u.handle)
                        &&& b.inet.next_udp_port == a.inet.next_udp_port
                        &&& udp_engine(u, b.inet) == (UdpView {
                            hop_limit: Some(v as u8),
                            ..udp_engine(u, a.inet)
                        })
                    },
                    SocketInner::Unix(_) => r == err(Errno::EOPNOTSUPP) && s2 == s && b == a,
                }
            },
        }
    } else if (level == IPPROTO_IP && opt == IP_RECVERR) || (level == IPPROTO_IPV6 && opt
        == IPV6_V6ONLY) {
        &&& s2 == s
        &&& b == a
        &&& match int_read(num, len) {
            Err(e) => r == err(e),
            Ok(_) => r is Ok,
        }
    } else {
        r == err(Errno::ENOPROTOOPT) && s2 == s && b == a
    }
}

/// Sets an option of a socket. `num` and `time` are the option value as a number
/// and as a duration.
pub fn sys_setsockopt(
    sock: &mut Socket,
    nets: &mut Nets,
    level: usize,
    opt: usize,
    num: UserIn<i32>,
    time: UserIn<TimeSpec>,
    len: usize,
) -> (r: SysResult<usize>)
    requires
        old(nets).wf(),
        old(sock).wf(*old(nets)),
    ensures
        final(nets).wf(),
        final(sock).wf(*final(nets)),
        r matches Ok(n) ==> n == 0,
        option_set(
            *old(sock),
            *old(nets),
            *final(sock),
            *final(nets),
            level,
            opt,
            num,
            time,
            len,
            r,
        ),
{
    if level == SOL_SOCKET {
        return set_socket_option(sock, opt, num, time, len);
    }
    if level == IPPROTO_TCP && opt == TCP_NODELAY {
        let v: i32 = match read_i32(num, len) {
            Ok(v) => v,
            Err(e) => {
                return Err(e);
            },
        };
        return match sock.set_tcp_nodelay(nets, v != 0) {
            Ok(_) => Ok(0),
            Err(e) => Err(e),
        };
    }
    if level == IPPROTO_IP && opt == IP_TTL {
        let v: i32 = match read_i32(num, len) {
            Ok(v) => v,
            Err(e) => {
                return Err(e);
            },
        };
        if v < 1 || v > 255 {
            return Err(Errno::EINVAL);
        }
        return match sock.set_hop_limit(nets, v as u8) {
            Ok(_) => Ok(0),
            Err(e) => Err(e),
        };
    }
    if (level == IPPROTO_IP && opt == IP_RECVERR) || (level == IPPROTO_IPV6 && opt == IPV6_V6ONLY) {
        return match read_i32(num, len) {
            Ok(_) => Ok(0),
            Err(e) => Err(e),
        };
    }
    Err(Errno::ENOPROTOOPT)
}

fn set_socket_option(sock: &mut Socket, opt: usize, num: UserIn<i32>, time: UserIn<TimeSpec>, len: usize) -> (r:
    SysResult<usize>)
    ensures
        r matches Ok(n) ==> n == 0,
        forall|nets: Nets| old(sock).wf(nets) ==> #[trigger] final(sock).wf(nets),
        match socket_option(*old(sock), opt, int_read(num, len), timeout_read(time, len)) {
            Err(e) => r == err(e) && *final(sock) == *old(sock),
            Ok(s) => r is Ok && *final(sock) == s,
        },
{
    if opt == SO_LINGER {
        return Ok(0);
    }
    if opt == SO_RCVTIMEO || opt == SO_SNDTIMEO {
        let t: Option<usize> = match read_timeout(time, len) {
            Ok(t) => t,
            Err(e) => {
                return Err(e);
            },
        };
        if opt == SO_RCVTIMEO {
            sock.set_recv_timeout_us(t);
        } else {
            sock.set_send_timeout_us(t);
        }
        return Ok(0);
    }
    let idle = opt == SO_OOBINLINE || opt == SO_DONTROUTE || opt == SO_BROADCAST || opt
        == SO_KEEPALIVE || opt == SO_REUSEPORT;
    let sized = opt == SO_SNDBUF || opt == SO_RCVBUF;
    let forced = opt == SO_SNDBUFFORCE || opt == SO_RCVBUFFORCE;
    if opt != SO_REUSEADDR && !idle && !sized && !forced {
        return Err(Errno::ENOPROTOOPT);
    }
    let v: i32 = match read_i32(num, len) {
        Ok(v) => v,
        Err(e) => {
            return Err(e);
        },
    };
    if opt == SO_REUSEADDR {
        sock.set_reuse_addr(v != 0);
    } else if sized {
        if v < 0 {
            return Err(Errno::EINVAL);
        }
        if opt == SO_SNDBUF {
            sock.set_send_buf_size(v as u64);
        } else {
            sock.set_recv_buf_size(v as u64);
        }
    } else if forced {
        let size: u64 = if v < 0 {
            0x7fff_ffff
        } else {
            v as u64
        };
        if opt == SO_SNDBUFFORCE {
            sock.set_send_buf_size(size);
        } else {
            sock.set_recv_buf_size(size);
        }
    }
    Ok(0)
}

/// The value of an option.
#[derive(Debug, Clone, Copy, PartialEq, Eq, Structural)]
pub enum OptValue {
    Int(i32),
    Time(TimeSpec),
    /// So many zero bytes.
    Zeros(usize),
}

/// A buffer size as an option value.
pub open spec fn size_value(n: u64) -> OptValue {
    OptValue::Int(
        if n > 0x7fff_ffff {
            0x7fff_ffff
        } else {
            n as i32
        },
    )
}

/// A timeout as an option value; no limit is zero.
pub open spec fn timeout_value(t: Option<usize>) -> OptValue {
    OptValue::Time(
        match t {
            Some(us) => spec_of_us(us),
            None => TimeSpec { sec: 0, nsec: 0 },
        },
    )
}

/// The value of an option of a socket. An error that is read is forgotten.
pub open spec fn option_value(s: Socket, nets: Nets, level: usize, opt: usize) -> SysResult<OptValue> {
    if level == SOL_SOCKET {
        if opt == SO_TYPE {
            Ok(OptValue::Int(crate::net::socket::kind_number(s.kind)))
        } else if opt == SO_ERROR {
            Ok(
                OptValue::Int(
                    match s.inner {
                        SocketInner::Tcp(t) => looked_at(t, nets.inet).pending_error as i32,
                        _ => 0,
                    },
                ),
            )
        } else if idle_option(opt) || opt == SO_LINGER {
            Ok(OptValue::Int(0))
        } else if opt == SO_SNDBUF {
            Ok(size_value(s.send_buf_size))
        } else if opt == SO_RCVBUF {
            Ok(size_value(s.recv_buf_size))
        } else if opt == SO_RCVTIMEO {
            Ok(timeout_value(s.recvtimeout_us))
        } else if opt == SO_SNDTIMEO {
            Ok(timeout_value(s.sendtimeout_us))
        } else {
            Err(Errno::ENOPROTOOPT)
        }
    } else if level == IPPROTO_TCP {
        if opt == TCP_NODELAY {
            match s.inner {
                SocketInner::Tcp(t) => Ok(
                    OptValue::Int(
                        match t.handle {
                            Some(h) => if crate::net::smol::tcp_of(nets.inet.socks@, h).nagle {
                                0
                            } else {
                                1
                            },
                            None => 0,
                        },
                    ),
                ),
                _ => Err(Errno::ENOPROTOOPT),
            }
        } else if opt == TCP_MAXSEG {
            Ok(OptValue::Int(TCP_DEFAULT_MAXSEG))
        } else if opt == TCP_INFO {
            Ok(OptValue::Zeros(TCP_INFO_LEN))
        } else {
            Err(Errno::ENOPROTOOPT)
        }
    } else if level == IPPROTO_IPV6 {
        if opt == IPV6_V6ONLY {
            Ok(OptValue::Int(0))
        } else {
            Err(Errno::ENOPROTOOPT)
        }
    } else if level == IPPROTO_IP || level == IPPROTO_SCTP {
        Err(Errno::ENOPROTOOPT)
    } else {
        Err(Errno::EOPNOTSUPP)
    }
}

fn time_value(t: Option<usize>) -> (r: OptValue)
    ensures
        r == timeout_value(t),
{
    match t {
        Some(us) => OptValue::Time(timespec_from_us(us)),
        None => OptValue::Time(TimeSpec { sec: 0, nsec: 0 }),
    }
}

fn buffer_value(n: u64) -> (r: OptValue)
    ensures
        r == size_value(n),
{
    if n > 0x7fff_ffff {
        OptValue::Int(0x7fff_ffff)
    } else {
        OptValue::Int(n as i32)
    }
}

/// Gets an option of a socket.
pub fn sys_getsockopt(sock: &mut Socket, nets: &Nets, level: usize, opt: usize) -> (r: SysResult<OptValue>)
    requires
        nets.wf(),
        old(sock).wf(*nets),
    ensures
        r == option_value(*old(sock), *nets, level, opt),
        *final(sock) == (match old(sock).inner {
            SocketInner::Tcp(t) => if level == SOL_SOCKET && opt == SO_ERROR {
                Socket {
                    inner: SocketInner::Tcp(
                        TcpSocket { pending_error: 0, ..looked_at(t, nets.inet) },
                    ),
                    ..*old(sock)
                }
            } else {
                *old(sock)
            },
            _ => *old(sock),
        }),
{
    if level == SOL_SOCKET {
        return if opt == SO_TYPE {
            Ok(OptValue::Int(sock.socket_type_value()))
        } else if opt == SO_ERROR {
            Ok(OptValue::Int(sock.take_socket_error(nets)))
        } else if opt == SO_OOBINLINE || opt == SO_DONTROUTE || opt == SO_BROADCAST || opt
            == SO_KEEPALIVE || opt == SO_REUSEPORT || opt == SO_LINGER {
            Ok(OptValue::Int(0))
        } else if opt == SO_SNDBUF {
            Ok(buffer_value(sock.send_buf_size()))
        } else if opt == SO_RCVBUF {
            Ok(buffer_value(sock.recv_buf_size()))
        } else if opt == SO_RCVTIMEO {
            Ok(time_value(sock.recv_timeout_us()))
        } else if opt == SO_SNDTIMEO {
            Ok(time_value(sock.send_timeout_us()))
        } else {
            Err(Errno::ENOPROTOOPT)
        };
    }
    if level == IPPROTO_TCP {
        return if opt == TCP_NODELAY {
            match sock.tcp_nodelay(nets) {
                Ok(on) => if on {
                    Ok(OptValue::Int(1))
                } else {
                    Ok(OptValue::Int(0))
                },
                Err(e) => Err(e),
            }
        } else if opt == TCP_MAXSEG {
            Ok(OptValue::Int(TCP_DEFAULT_MAXSEG))
        } else if opt == TCP_INFO {
            Ok(OptValue::Zeros(TCP_INFO_LEN))
        } else {
            Err(Errno::ENOPROTOOPT)
        };
    }
    if level == IPPROTO_IPV6 && opt == IPV6_V6ONLY {
        return Ok(OptValue::Int(0));
    }
    if level == IPPROTO_IPV6 || level == IPPROTO_IP || level == IPPROTO_SCTP {
        return Err(Errno::ENOPROTOOPT);
    }
    Err(Errno::EOPNOTSUPP)
}

/// The bytes of an option value.
pub open spec fn value_len(v: OptValue) -> int {
    match v {
        OptValue::Int(_) => 4,
        OptValue::Time(_) => 16,
        OptValue::Zeros(n) => n as int,
    }
}

/// How much of an option is written and the length told.
pub open spec fn option_written(
    value: OptValue,
    optval: UserOut,
    len_in: UserIn<u32>,
    len_out: UserOut,
) -> SysResult<(usize, u32)> {
    if optval == UserOut::Null || len_in is Null {
        Err::<(usize, u32), Errno>(Errno::EFAULT)
    } else {
        match read_result(len_in) {
            Err(e) => Err(e),
            Ok(n) => {
                let k = if n < value_len(value) {
                    n as int
                } else {
                    value_len(value)
                };
                if n > 4096 {
                    Err(Errno::EINVAL)
                } else if (k > 0 && optval != UserOut::Writable) || len_out
                    != UserOut::Writable {
                    Err(Errno::EFAULT)
                } else {
                    Ok((k as usize, value_len(value) as u32))
                }
            },
        }
    }
}

/// How many bytes of an option value are written, and its full length.
pub fn write_sockopt(value: OptValue, optval: UserOut, len_in: UserIn<u32>, len_out: UserOut) -> (r: SysResult<
    (usize, u32),
>)
    requires
        value_len(value) <= 4096,
    ensures
        r == option_written(value, optval, len_in, len_out),
{
    let size: usize = match value {
        OptValue::Int(_) => 4,
        OptValue::Time(_) => 16,
        OptValue::Zeros(n) => n,
    };
    match optval {
        UserOut::Null => {
            return Err(Errno::EFAULT);
        },
        _ => {},
    }
    if len_in.is_null() {
        return Err(Errno::EFAULT);
    }
    let n: u32 = match len_in.read() {
        Ok(n) => n,
        Err(e) => {
            return Err(e);
        },
    };
    if n > 4096 {
        return Err(Errno::EINVAL);
    }
    let k: usize = if (n as usize) < size {
        n as usize
    } else {
        size
    };
    if k > 0 {
        match optval.check() {
            Err(e) => {
                return Err(e);
            },
            Ok(_) => {},
        }
    }
    match len_out.check() {
        Err(e) => Err(e),
        Ok(_) => Ok((k, size as u32)),
    }
}

/// A buffer size or timeout that is set is the one that is read.
pub proof fn options_are_read_back(s: Socket, nets: Nets, size: i32, us: usize)
    requires
        size >= 0,
    ensures
        ({
            let t = socket_option(s, SO_SNDBUF, Ok(size), Err(Errno::EFAULT));
            &&& t is Ok
            &&& option_value(t->Ok_0, nets, SOL_SOCKET, SO_SNDBUF) == Ok::<OptValue, Errno>(
                OptValue::Int(size),
            )
        }),
        ({
            let t = socket_option(
                s,
                SO_RCVTIMEO,
                Err(Errno::EFAULT),
                Ok(Some(us)),
            );
            &&& t is Ok
            &&& option_value(t->Ok_0, nets, SOL_SOCKET, SO_RCVTIMEO) == Ok::<OptValue, Errno>(
                OptValue::Time(spec_of_us(us)),
            )
        }),
{
}

/// A stream or datagram socket of the internet takes its own protocol or none, and a local
/// socket takes none.
pub proof fn protocols_fit_their_sockets(domain: usize, socket_type: usize, protocol: usize)
    ensures
        socket_asked(domain, socket_type, protocol) matches Ok((d, k)) ==> {
            &&& domain == 1 ==> d == SocketDomain::AF_UNIX && protocol == 0
            &&& domain == 2 ==> d == SocketDomain::AF_INET
            &&& domain == 10 ==> d == SocketDomain::AF_INET6
            &&& domain == 1 || domain == 2 || domain == 10
            &&& socket_type & 0xff == 1 ==> k == SocketKind::SOCK_STREAM && (protocol == 0
                || protocol == 6 || protocol == 132)
            &&& socket_type & 0xff == 2 ==> k == SocketKind::SOCK_DGRAM && (protocol == 0
                || protocol == 17)
        },
        domain != 1 && domain != 2 && domain != 10 ==> socket_asked(domain, socket_type, protocol)
            == Err::<(SocketDomain, SocketKind), Errno>(Errno::EAFNOSUPPORT),
        (domain == 2 || domain == 10) && socket_type & 0xff == 1 && (protocol == 0 || protocol == 6)
            ==> socket_asked(domain, socket_type, protocol) is Ok,
        (domain == 2 || domain == 10) && socket_type & 0xff == 2 && (protocol == 0 || protocol
            == 17) ==> socket_asked(domain, socket_type, protocol) is Ok,
        (domain == 2 || domain == 10) && socket_type & 0xff == 2 && protocol != 0 && protocol != 17
            ==> socket_asked(domain, socket_type, protocol) == Err::<
            (SocketDomain, SocketKind),
            Errno,
        >(Errno::EPROTONOSUPPORT),
        domain == 1 && (socket_type & 0xff == 1 || socket_type & 0xff == 2 || socket_type & 0xff
            == 5) && protocol == 0 ==> socket_asked(domain, socket_type, protocol) is Ok,
{
}

/// A new socket is of the domain and kind asked for, unconnected and unbound, has the two
/// options asked for, and its descriptor is the lowest that is free.
pub proof fn new_sockets_are_as_asked_for(
    a: Nets,
    t: FdTable,
    b: Nets,
    t2: FdTable,
    socket_type: usize,
    file: usize,
    r: SysResult<(usize, Socket)>,
)
    requires
        socket_outcome(a, t, b, t2, 2, socket_type, 0, file, r),
        socket_type & 0xff == 1,
    ensures
        r matches Ok((fd, s)) ==> {
            &&& !t@.contains_key(fd) && t2@.contains_key(fd) && t2@[fd].file == file
            &&& forall|k: usize| k < fd ==> t@.contains_key(k)
            &&& s.domain == SocketDomain::AF_INET && s.kind == SocketKind::SOCK_STREAM
            &&& s.nonblock == (socket_type & 0o4000 != 0)
            &&& s.cloexec == (socket_type & 0o2000000 != 0)
            &&& s.inner matches SocketInner::Tcp(c) && c.state == ConnState::Closed
                && c.local_addr.port == 0 && c.remote_addr.port == 0 && c.handle is None
            &&& b.inet == a.inet && b.unix == a.unix
        },
        r matches Err(e) ==> e == Errno::EMFILE && b == a,
{
}

/// A pair is two local sockets, each the other's peer, with the credentials of their maker and
/// two different descriptors.
pub proof fn pairs_are_each_others_peers(
    a: Nets,
    t: FdTable,
    b: Nets,
    t2: FdTable,
    socket_type: usize,
    files: (usize, usize),
    c: UnixPeerCredentials,
    r: SysResult<SocketPair>,
)
    requires
        pair_outcome(a, t, b, t2, 1, socket_type, 0, files, c, UserOut::Writable, r),
    ensures
        r is Ok ==> {
            let p = r->Ok_0;
            &&& p.left.inner matches SocketInner::Unix(x)
                && p.right.inner matches SocketInner::Unix(
                y,
            ) && x != y && b.unix.ends()[x].peer == Some(y) && b.unix.ends()[y].peer == Some(x)
                && b.unix.ends()[x].credentials == Some(c) && b.unix.ends()[y].credentials == Some(
                c,
            ) && b.unix.ends()[x].nonblock == (socket_type & 0o4000 != 0)
                && b.unix.ends()[y].nonblock
                == (socket_type & 0o4000 != 0) && b.unix.ends()[x].data.len() == 0
                && b.unix.ends()[y].data.len() == 0
            &&& p.fds.0 != p.fds.1
            &&& t2@[p.fds.0].file == files.0 && t2@[p.fds.1].file == files.1
        },
        r is Err ==> t2@ == t@ && b == a,
{
}

/// Pairs are local: a pair of the internet is refused, as unsupported where the protocol is its
/// own.
pub proof fn pairs_are_local(domain: usize, socket_type: usize, protocol: usize)
    ensures
        domain != 1 ==> pair_asked(domain, socket_type, protocol) is Err,
        domain == 1 && protocol != 0 ==> pair_asked(domain, socket_type, protocol) is Err,
        domain == 2 && kind_of(socket_type & 0xf) == Ok::<SocketKind, Errno>(
            SocketKind::SOCK_STREAM,
        )
            && protocol == 6 ==> pair_asked(domain, socket_type, protocol) == Err::<SocketKind, Errno>(
            Errno::EOPNOTSUPP,
        ),
        domain == 1 && protocol == 0 && kind_of(socket_type & 0xf) is Ok && kind_of(
            socket_type & 0xf,
        ) != Ok::<SocketKind, Errno>(SocketKind::SOCK_RAW) ==> pair_asked(
            domain,
            socket_type,
            protocol,
        ) == kind_of(socket_type & 0xf),
{
}

/// An internet socket is bound to a local address, and below port 1024 by the superuser only.
pub proof fn low_ports_are_the_superusers(
    s: Socket,
    a: Nets,
    s2: Socket,
    b: Nets,
    raw: UserIn<Vec<u8>>,
    len: usize,
    fsuid: usize,
    addr: SocketAddr,
    r: SysResult<BindStep>,
)
    requires
        bind_outcome(s, a, s2, b, raw, len, fsuid, r),
        s.domain != SocketDomain::AF_UNIX,
        address_read(s.domain, raw, len) == Ok::<SocketAddr, Errno>(addr),
    ensures
        !local_ipv4(addr) ==> r is Err && r->Err_0 == Errno::EADDRNOTAVAIL && s2 == s && b == a,
        local_ipv4(addr) && endpoint_of(addr).port < 1024 && fsuid != 0 ==> r is Err && r->Err_0
            == Errno::EACCES && s2 == s && b == a,
        r matches Ok(x) ==> x is Bound,
        r is Ok ==> (s2.inner matches SocketInner::Tcp(t) ==> t.local_addr.addr == endpoint_of(
            addr,
        ).addr && (endpoint_of(addr).port != 0 ==> t.local_addr.port == endpoint_of(addr).port)),
        r is Ok ==> s2.domain == s.domain && s2.kind == s.kind && s2.nonblock == s.nonblock,
{
}

/// Only addresses of this machine can be bound: any, or one that begins with 127. A connection
/// to no address goes to this machine.
pub proof fn local_addresses_begin_with_127(ip: u32, port: u16)
    ensures
        local_ipv4(SocketAddr::V4 { ip, port }) == (ip == 0 || 0x7f00_0000 <= ip <= 0x7fff_ffff),
        connect_target(SocketAddr::V4 { ip: 0, port }) == (SocketAddr::V4 { ip: 0x7f00_0001, port }),
        ip != 0 ==> connect_target(SocketAddr::V4 { ip, port }) == (SocketAddr::V4 { ip, port }),
{
}

/// An option that was set is the one told: the sizes of the buffers, both timeouts, and each
/// leaves the others.
pub proof fn set_options_are_told(s: Socket, nets: Nets, v: i32, us: Option<usize>)
    requires
        v >= 0,
    ensures
        socket_option(s, 7, Ok(v), Ok(us)) matches Ok(t) && t.send_buf_size == v && t.recv_buf_size
            == s.recv_buf_size && t.recvtimeout_us == s.recvtimeout_us,
        socket_option(s, 8, Ok(v), Ok(us)) matches Ok(t) && t.recv_buf_size == v && t.send_buf_size
            == s.send_buf_size,
        socket_option(s, 20, Ok(v), Ok(us)) matches Ok(t) && t.recvtimeout_us == us
            && t.sendtimeout_us == s.sendtimeout_us,
        socket_option(s, 21, Ok(v), Ok(us)) matches Ok(t) && t.sendtimeout_us == us
            && t.recvtimeout_us == s.recvtimeout_us,
        socket_option(s, 32, Ok(v), Ok(us)) == socket_option(s, 7, Ok(v), Ok(us)),
        socket_option(s, 33, Ok(v), Ok(us)) == socket_option(s, 8, Ok(v), Ok(us)),
        option_value(Socket { send_buf_size: v as u64, ..s }, nets, 1, 7) == Ok::<OptValue, Errno>(
            OptValue::Int(v),
        ),
        option_value(Socket { recv_buf_size: v as u64, ..s }, nets, 1, 8) == Ok::<OptValue, Errno>(
            OptValue::Int(v),
        ),
        option_value(Socket { recvtimeout_us: us, ..s }, nets, 1, 20) == Ok::<OptValue, Errno>(
            timeout_value(us),
        ),
        option_value(Socket { sendtimeout_us: us, ..s }, nets, 1, 21) == Ok::<OptValue, Errno>(
            timeout_value(us),
        ),
        option_value(s, nets, 1, 3) == Ok::<OptValue, Errno>(
            OptValue::Int(
                match s.kind {
                    SocketKind::SOCK_STREAM => 1,
                    SocketKind::SOCK_DGRAM => 2,
                    SocketKind::SOCK_RAW => 3,
                    SocketKind::SOCK_SEQPACKET => 5,
                },
            ),
        ),
{
}

/// Sharing an address is set on the socket that has one; a negative size is refused, unless it
/// is forced and then stands for the largest.
pub proof fn sharing_and_sizes_are_set(s: Socket, v: i32, time: SysResult<Option<usize>>)
    ensures
        socket_option(s, 2, Ok(v), time) matches Ok(t) && (s.inner is Tcp ==> t.inner is Tcp
            && t.inner->Tcp_0.reuse_addr == (v != 0)) && (s.inner is Udp ==> t.inner is Udp
            && t.inner->Udp_0.reuse_addr == (v != 0)) && (s.inner is Unix ==> t == s),
        v < 0 ==> socket_option(s, 7, Ok(v), time) == Err::<Socket, Errno>(Errno::EINVAL),
        v < 0 ==> socket_option(s, 8, Ok(v), time) == Err::<Socket, Errno>(Errno::EINVAL),
        v < 0 ==> (socket_option(s, 32, Ok(v), time) matches Ok(t) && t.send_buf_size
            == 0x7fff_ffff),
        socket_option(s, 9, Ok(v), time) == Ok::<Socket, Errno>(s),
        socket_option(s, 99, Ok(v), time) == Err::<Socket, Errno>(Errno::ENOPROTOOPT),
{
}

/// A number is read from at least four bytes and a timeout from at least sixteen; a timeout of
/// zero is none.
pub proof fn option_values_are_long_enough(value: i32, t: TimeSpec, len: usize)
    ensures
        len < 4 ==> int_read(UserIn::Value(value), len) == Err::<i32, Errno>(Errno::EINVAL),
        len >= 4 ==> int_read(UserIn::Value(value), len) == Ok::<i32, Errno>(value),
        len < 16 ==> timeout_read(UserIn::Value(t), len) == Err::<Option<usize>, Errno>(
            Errno::EINVAL,
        ),
        len >= 16 && t.sec == 0 && t.nsec == 0 ==> timeout_read(UserIn::Value(t), len) == Ok::<
            Option<usize>,
            Errno,
        >(None),
        timeout_read(UserIn::Value(t), len) matches Ok(Some(us)) ==> us == t.sec * 1_000_000 + (t.nsec
            + 999) / 1000 && us > 0,
        t.sec < 0 || t.nsec < 0 || t.nsec >= 1_000_000_000 ==> timeout_read(UserIn::Value(t), len)
            is Err,
{
}

/// Coalescing is off where the option says not to delay, and a hop limit is from 1 to 255.
pub proof fn transport_options_reach_the_engine(
    s: Socket,
    a: Nets,
    s2: Socket,
    b: Nets,
    level: usize,
    opt: usize,
    v: i32,
    time: UserIn<TimeSpec>,
    r: SysResult<usize>,
)
    requires
        option_set(s, a, s2, b, level, opt, UserIn::Value(v), time, 4, r),
    ensures
        level == 6 && opt == 1 && s.inner is Tcp ==> r is Ok && s2.inner is Tcp && engine_of(
            s2.inner->Tcp_0,
            b.inet,
        ).nagle == (v == 0),
        level == 6 && opt == 1 && !(s.inner is Tcp) ==> r == err(Errno::ENOPROTOOPT),
        level == 0 && opt == 2 && (v < 1 || v > 255) ==> r == err(Errno::EINVAL) && s2 == s && b
            == a,
        level == 0 && opt == 2 && 1 <= v <= 255 && s.inner is Tcp ==> r is Ok && s2.inner is Tcp
            && engine_of(s2.inner->Tcp_0, b.inet).hop_limit == Some(v as u8),
        level == 0 && opt == 2 && 1 <= v <= 255 && s.inner is Udp ==> r is Ok && udp_engine(
            s.inner->Udp_0,
            b.inet,
        ).hop_limit == Some(v as u8),
        level == 1 ==> b == a,
        level == 0 && opt != 2 && opt != 11 ==> r == err(Errno::ENOPROTOOPT) && s2 == s,
{
}

/// What is written of an option is cut to the caller's room, and the length told is the whole.
pub proof fn options_are_cut_to_their_room(value: OptValue, n: u32)
    requires
        value_len(value) <= 4096,
    ensures
        n <= 4096 ==> (option_written(value, UserOut::Writable, UserIn::Value(n), UserOut::Writable)
            matches Ok((k, told)) && k <= n && k <= value_len(value) && (k == n || k == value_len(
            value,
        )) && told == value_len(value)),
        n > 4096 ==> option_written(value, UserOut::Writable, UserIn::Value(n), UserOut::Writable)
            == Err::<(usize, u32), Errno>(Errno::EINVAL),
        option_written(value, UserOut::Null, UserIn::Value(n), UserOut::Writable) == Err::<
            (usize, u32),
            Errno,
        >(Errno::EFAULT),
        forall|i: i32| value_len(OptValue::Int(i)) == 4,
        forall|t: TimeSpec| value_len(OptValue::Time(t)) == 16,
{
}

/// A message is handed over whole, for the address given with it or for nobody.
pub proof fn messages_are_handed_over_whole(
    domain: SocketDomain,
    d: Vec<u8>,
    raw: UserIn<Vec<u8>>,
    len: usize,
)
    ensures
        message_handed(domain, UserIn::Value(d), UserIn::Null, len) == Ok::<
            (Vec<u8>, Option<SocketAddr>),
            Errno,
        >((d, None)),
        !(raw is Null) ==> (address_read(domain, raw, len) matches Ok(a) ==> message_handed(
            domain,
            UserIn::Value(d),
            raw,
            len,
        ) == Ok::<(Vec<u8>, Option<SocketAddr>), Errno>((d, Some(a)))),
        !(raw is Null) ==> (address_read(domain, raw, len) matches Err(e) ==> message_handed(
            domain,
            UserIn::Value(d),
            raw,
            len,
        ) == Err::<(Vec<u8>, Option<SocketAddr>), Errno>(e)),
{
}

/// A received message is given whole with its length, or not at all.
pub proof fn messages_are_given_whole(
    domain: SocketDomain,
    data: Vec<u8>,
    buf: UserOut,
    from: SocketAddr,
    place: AddrPlace,
    r: (Reply<Vec<u8>>, AddrReply),
)
    requires
        message_given(domain, data, buf, from, place, r),
        data@.len() <= usize::MAX,
    ensures
        r.0.ret matches Ok(n) ==> n == data@.len() && r.0.out == Some(data),
        buf == UserOut::Writable && place.addr == UserOut::Null ==> r.0.ret == ok(
            data@.len() as usize,
        ),
        buf != UserOut::Writable && data@.len() > 0 ==> r.0.ret == err(Errno::EFAULT)
            && r.0.out is None,
{
}

/// An accepted socket has the options of the call, the file of its descriptor, and its peer's
/// address is told; without a free descriptor it is lost.
pub proof fn accepted_sockets_have_the_calls_options(
    a: Nets,
    t: FdTable,
    sock: Socket,
    from: SocketAddr,
    flags: usize,
    file: usize,
    place: AddrPlace,
    b: Nets,
    t2: FdTable,
    r: AcceptEnd,
)
    requires
        accept_finished(a, t, sock, from, flags, file, place, b, t2, r),
    ensures
        r.socket.nonblock == (flags & 0o4000 != 0) && r.socket.cloexec == (flags & 0o2000000 != 0),
        r.socket.domain == sock.domain && r.socket.kind == sock.kind,
        sock.inner matches SocketInner::Tcp(c) ==> (r.socket.inner matches SocketInner::Tcp(d)
            && d.nonblock == (flags & 0o4000 != 0) && d.handle == c.handle && d.remote_addr
            == c.remote_addr && d.state == c.state),
        r.ret matches Ok(fd) ==> t2@.contains_key(fd) && t2@[fd].file == file
            && !t@.contains_key(fd),
        r.ret is Err ==> t2@ == t@,
        (forall|k: usize| k < t.limit ==> #[trigger] t@.contains_key(k)) ==> r.ret == err(
            Errno::EMFILE,
        ),
{
}

/// A socket that waits for a connection is interrupted, tried again or put to sleep as its
/// error and its deadline say; one that must not wait fails.
pub proof fn accepts_wait_as_asked(s: Socket, how: AcceptTry, e: Errno)
    ensures
        !(s.inner is Tcp) ==> accept_without(s, how, Accepted::Fail(e)) == AcceptCall::Fail(e),
        s.inner matches SocketInner::Tcp(t) ==> (t.nonblock || e != Errno::EAGAIN
            ==> accept_without(s, how, Accepted::Fail(e)) == AcceptCall::Fail(e)),
        s.inner matches SocketInner::Tcp(t) ==> (!t.nonblock && e == Errno::EAGAIN && !how.second
            ==> accept_without(s, how, Accepted::Fail(e)) == AcceptCall::Retry),
        accept_without(s, how, Accepted::Wait) == AcceptCall::Wait,
        accept_interrupted(s, how) ==> how.interrupted && !how.second && s.inner is Tcp,
{
}

/// A socket tells the address that it has and that of its peer, as its kind allows.
pub proof fn told_addresses_are_the_sockets(s: Socket)
    ensures
        s.inner matches SocketInner::Tcp(t) ==> {
            &&& own_address(s) matches Ok(x) ==> endpoint_of(x) == t.local_addr
            &&& peer_address(s) matches Ok(x) ==> endpoint_of(x) == t.remote_addr
            &&& (peer_address(s) is Ok) == (t.state == ConnState::Connected)
        },
        s.inner matches SocketInner::Udp(u) ==> {
            &&& own_address(s) matches Ok(x) ==> u.local_addr == Some(endpoint_of(x))
            &&& peer_address(s) matches Ok(x) ==> u.remote_addr == Some(endpoint_of(x))
            &&& (own_address(s) is Ok) == (u.local_addr is Some)
            &&& (peer_address(s) is Ok) == (u.remote_addr is Some)
        },
        s.inner is Unix ==> own_address(s) is Err && peer_address(s) is Err,
{
}

/// An internet connection goes to the address read, this machine standing in for none.
pub proof fn connections_go_to_the_address_read(
    s: Socket,
    a: Nets,
    s2: Socket,
    b: Nets,
    raw: UserIn<Vec<u8>>,
    len: usize,
    c: UnixPeerCredentials,
    ip: u32,
    port: u16,
    r: SysResult<ConnectStep>,
)
    requires
        connect_outcome(s, a, s2, b, raw, len, c, r),
        s.domain != SocketDomain::AF_UNIX,
        address_read(s.domain, raw, len) == Ok::<SocketAddr, Errno>(SocketAddr::V4 { ip, port }),
        s.inner is Udp,
    ensures
        r is Ok,
        s2.inner matches SocketInner::Udp(u) && (u.remote_addr matches Some(e) && e.port == port
            && (ip != 0 ==> e.addr == IpAddress::Ipv4(ip)) && (ip == 0 ==> e.addr
            == IpAddress::Ipv4(0x7f00_0001))),
{
}

} // verus!
