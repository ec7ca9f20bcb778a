//! Sockets as user programs see them: streams, datagrams and local sockets under
//! one interface.

use crate::errno::{Errno, SysResult};
use crate::net::addr::{
    endpoint_of, from_ipendpoint_to_socketaddr, no_endpoint, sockaddr_of, unspecified_endpoint, SocketAddr,
};
use crate::net::listen::{UDP_PACKETS, UDP_TX_BUF_LEN};
use crate::net::smol::{fresh_udp, only_rx_differs, SocketView, TcpView};
use crate::net::stack::NetStack;
use crate::net::tcp::{
    bind_done, connect_done, engine_changed, engine_of, engine_or_new, fresh_socket, listen_done, looked_at,
    poll_done, port_left, recv_once_done, rest_kept, send_done, shutdown_done, stream_recv_check, stream_released,
    stream_send_check, ConnState, PollState, TcpSocket,
};
use crate::net::udp::{
    bound, datagram_sent, now_bound, recv_from_done, udp_changed, udp_engine,
    udp_port_left, UdpSocket,
};
use crate::net::unix::{
    all_drop_wakes, all_dropped, can_read, can_write, connected, detached, fresh_end, going, is_pending,
    key_view, listened, numbers_used, read_called, shut_down, shutdown_wakes, write_called, AcceptStep, EndView,
    ReadRequest, ReadStep, UnixNet, UnixPeerCredentials, WriteStep,
};
use crate::syscall::file::{O_CLOEXEC, O_NONBLOCK, O_RDWR};
use smoltcp::iface::{Interface, SocketHandle};
use std::collections::VecDeque;
use vstd::prelude::*;

verus! {

/// Address families.
#[allow(non_camel_case_types)]
#[derive(Debug, Clone, Copy, PartialEq, Eq, Structural)]
pub enum SocketDomain {
    AF_UNIX,
    AF_INET,
    AF_INET6,
}

/// Kinds of sockets.
#[allow(non_camel_case_types)]
#[derive(Debug, Clone, Copy, PartialEq, Eq, Structural)]
pub enum SocketKind {
    SOCK_STREAM,
    SOCK_DGRAM,
    SOCK_RAW,
    SOCK_SEQPACKET,
}

/// In the kind of a new socket: it does not wait.
pub const SOCK_NONBLOCK: usize = 0x800;

/// In the kind of a new socket: it is closed when a new program is started.
pub const SOCK_CLOEXEC: usize = 0x80000;

/// The address family of a number.
pub open spec fn domain_of(n: usize) -> SysResult<SocketDomain> {
    if n == 1 {
        Ok(SocketDomain::AF_UNIX)
    } else if n == 2 {
        Ok(SocketDomain::AF_INET)
    } else if n == 10 {
        Ok(SocketDomain::AF_INET6)
    } else {
        Err(Errno::EAFNOSUPPORT)
    }
}

/// The kind of socket of a number; its higher bits are flags.
pub open spec fn kind_of(n: usize) -> SysResult<SocketKind> {
    let k = n & 0xff;
    if k == 1 {
        Ok(SocketKind::SOCK_STREAM)
    } else if k == 2 {
        Ok(SocketKind::SOCK_DGRAM)
    } else if k == 3 {
        Ok(SocketKind::SOCK_RAW)
    } else if k == 5 {
        Ok(SocketKind::SOCK_SEQPACKET)
    } else {
        Err(Errno::EINVAL)
    }
}

/// Reads an address family.
pub fn parse_domain(domain: usize) -> (r: SysResult<SocketDomain>)
    ensures
        r == domain_of(domain),
{
    match domain {
        1 => Ok(SocketDomain::AF_UNIX),
        2 => Ok(SocketDomain::AF_INET),
        10 => Ok(SocketDomain::AF_INET6),
        _ => Err(Errno::EAFNOSUPPORT),
    }
}

/// Reads a kind of socket.
pub fn parse_kind(kind: usize) -> (r: SysResult<SocketKind>)
    ensures
        r == kind_of(kind),
{
    match kind & 0xff {
        1 => Ok(SocketKind::SOCK_STREAM),
        2 => Ok(SocketKind::SOCK_DGRAM),
        3 => Ok(SocketKind::SOCK_RAW),
        5 => Ok(SocketKind::SOCK_SEQPACKET),
        _ => Err(Errno::EINVAL),
    }
}

/// The number of a kind of socket.
pub open spec fn kind_number(k: SocketKind) -> i32 {
    match k {
        SocketKind::SOCK_STREAM => 1,
        SocketKind::SOCK_DGRAM => 2,
        SocketKind::SOCK_RAW => 3,
        SocketKind::SOCK_SEQPACKET => 5,
    }
}

/// A kind survives the way to its number and back.
pub proof fn kinds_round_trip(k: SocketKind)
    ensures
        kind_of(kind_number(k) as usize) == Ok::<SocketKind, Errno>(k),
{
    assert(1usize & 0xff == 1 && 2usize & 0xff == 2 && 3usize & 0xff == 3 && 5usize & 0xff == 5)
        by (bit_vector);
}

/// What is behind a socket.
pub enum SocketInner {
    Tcp(TcpSocket),
    Udp(UdpSocket),
    /// The number of an end.
    Unix(usize),
}

/// A socket.
pub struct Socket {
    pub domain: SocketDomain,
    pub kind: SocketKind,
    pub inner: SocketInner,
    pub nonblock: bool,
    pub cloexec: bool,
    pub send_buf_size: u64,
    pub recv_buf_size: u64,
    pub recvtimeout_us: Option<usize>,
    pub sendtimeout_us: Option<usize>,
}

/// The state behind all sockets.
pub struct Nets {
    pub inet: NetStack,
    pub unix: UnixNet,
}

impl Nets {
    pub open spec fn wf(&self) -> bool {
        self.inet.wf() && self.unix.wf()
    }
}

/// The buffer size that a new socket reports.
pub const DEFAULT_BUF_SIZE: u64 = 65536;

/// A socket with the options of a new one.
pub open spec fn plain_socket(domain: SocketDomain, kind: SocketKind, inner: SocketInner) -> Socket {
    Socket {
        domain,
        kind,
        inner,
        nonblock: false,
        cloexec: false,
        send_buf_size: DEFAULT_BUF_SIZE,
        recv_buf_size: DEFAULT_BUF_SIZE,
        recvtimeout_us: None,
        sendtimeout_us: None,
    }
}

fn make_socket(domain: SocketDomain, kind: SocketKind, inner: SocketInner) -> (r: Socket)
    ensures
        r == plain_socket(domain, kind, inner),
{
    Socket {
        domain,
        kind,
        inner,
        nonblock: false,
        cloexec: false,
        send_buf_size: DEFAULT_BUF_SIZE,
        recv_buf_size: DEFAULT_BUF_SIZE,
        recvtimeout_us: None,
        sendtimeout_us: None,
    }
}

/// Local sockets can be of this kind.
pub open spec fn unix_kind(k: SocketKind) -> bool {
    k != SocketKind::SOCK_RAW
}

/// The kind has connections.
pub open spec fn stream_kind(k: SocketKind) -> bool {
    k == SocketKind::SOCK_STREAM || k == SocketKind::SOCK_SEQPACKET
}

/// The end behind a local socket is in use and belongs to it.
pub open spec fn end_in_use(u: UnixNet, id: usize) -> bool {
    u.ends().contains_key(id) && !u.ends()[id].closed && !is_pending(u.listeners(), id)
}

/// The time at which a wait that starts now ends.
pub open spec fn deadline_of(timeout_us: Option<usize>, waits: bool, now_us: usize) -> Option<usize> {
    match timeout_us {
        Some(t) => if !waits {
            None
        } else if now_us + t > usize::MAX {
            Some(usize::MAX)
        } else {
            Some((now_us + t) as usize)
        },
        None => None,
    }
}

fn deadline(timeout_us: Option<usize>, waits: bool, now_us: usize) -> (r: Option<usize>)
    ensures
        r == deadline_of(timeout_us, waits, now_us),
{
    if !waits {
        return None;
    }
    match timeout_us {
        Some(t) => Some(now_us.saturating_add(t)),
        None => None,
    }
}

/// Whether taking the error of a socket goes from `s` to `s2` and returns `r`.
pub open spec fn error_taken(s: Socket, nets: Nets, s2: Socket, r: i32) -> bool {
    match s.inner {
        SocketInner::Tcp(t) => {
            let seen = looked_at(t, nets.inet);
            &&& r == seen.pending_error as i32
            &&& s2 == (Socket {
                inner: SocketInner::Tcp(TcpSocket { pending_error: 0, ..seen }),
                ..s
            })
        },
        _ => r == 0 && s2 == s,
    }
}

impl Socket {
    /// What is behind the socket exists and belongs to it.
    pub open spec fn wf(&self, nets: Nets) -> bool {
        match self.inner {
            SocketInner::Tcp(t) => t.wf(nets.inet),
            SocketInner::Udp(u) => u.wf(nets.inet),
            SocketInner::Unix(id) => end_in_use(nets.unix, id),
        }
    }

    /// A new socket. Local sockets are streams, datagrams or packets in
    /// sequence; the others streams or datagrams.
    pub fn new(nets: &mut Nets, domain: SocketDomain, kind: SocketKind) -> (r: SysResult<Socket>)
        requires
            old(nets).wf(),
            old(nets).unix.next_end < usize::MAX,
        ensures
            final(nets).wf(),
            numbers_used(
                old(nets).unix,
                final(nets).unix,
                if domain == SocketDomain::AF_UNIX && unix_kind(kind) {
                    1
                } else {
                    0
                },
                0,
            ),
            r matches Ok(s) ==> s.wf(*final(nets)) && s == plain_socket(domain, kind, s.inner),
            if domain == SocketDomain::AF_UNIX && unix_kind(kind) {
                &&& r matches Ok(s) && s.inner matches SocketInner::Unix(id)
                    && !old(nets).unix.ends().contains_key(id) && final(nets).unix.ends()
                    == old(nets).unix.ends().insert(id, fresh_end())
                &&& final(nets).unix.listeners() == old(nets).unix.listeners()
                &&& final(nets).inet == old(nets).inet
            } else if domain != SocketDomain::AF_UNIX && kind == SocketKind::SOCK_STREAM {
                &&& r matches Ok(s) && s.inner == SocketInner::Tcp(fresh_socket())
                &&& *final(nets) == *old(nets)
            } else if domain != SocketDomain::AF_UNIX && kind == SocketKind::SOCK_DGRAM {
                &&& r matches Ok(s) && s.inner matches SocketInner::Udp(u) && u == (UdpSocket {
                    handle: u.handle,
                    local_addr: None,
                    remote_addr: None,
                    nonblock: false,
                    reuse_addr: false,
                }) && !old(nets).inet.socks@.contains_key(u.handle) && final(nets).inet.socks@
                    == old(nets).inet.socks@.insert(
                    u.handle,
                    SocketView::Udp(fresh_udp(UDP_TX_BUF_LEN as nat, UDP_PACKETS as nat)),
                )
                &&& final(nets).inet.table == old(nets).inet.table
                &&& final(nets).inet.next_tcp_port == old(nets).inet.next_tcp_port
                &&& final(nets).inet.next_udp_port == old(nets).inet.next_udp_port
                &&& final(nets).unix == old(nets).unix
            } else {
                r is Err && r->Err_0 == Errno::EPROTONOSUPPORT && *final(nets) == *old(nets)
            },
    {
        match domain {
            SocketDomain::AF_UNIX => match kind {
                SocketKind::SOCK_RAW => Err(Errno::EPROTONOSUPPORT),
                _ => {
                    let ghost before = nets.unix;
                    let id: usize = nets.unix.socket();
                    proof {
                        if is_pending(before.listeners(), id) {
                            pending_ends_exist(before, id);
                        }
                    }
                    Ok(make_socket(domain, kind, SocketInner::Unix(id)))
                },
            },
            _ => match kind {
                SocketKind::SOCK_STREAM => Ok(
                    make_socket(domain, kind, SocketInner::Tcp(TcpSocket::new())),
                ),
                SocketKind::SOCK_DGRAM => {
                    let u = UdpSocket::new(&mut nets.inet);
                    Ok(make_socket(domain, kind, SocketInner::Udp(u)))
                },
                _ => Err(Errno::EPROTONOSUPPORT),
            },
        }
    }

    /// Two local sockets that are connected with each other.
    pub fn new_unix_pair(nets: &mut Nets, kind: SocketKind, credentials: UnixPeerCredentials) -> (r:
        SysResult<(Socket, Socket)>)
        requires
            old(nets).wf(),
            old(nets).unix.next_end < usize::MAX - 1,
        ensures
            final(nets).wf(),
            final(nets).unix.listeners() == old(nets).unix.listeners(),
            numbers_used(
                old(nets).unix,
                final(nets).unix,
                if unix_kind(kind) {
                    2
                } else {
                    0
                },
                0,
            ),
            final(nets).inet == old(nets).inet,
            if !unix_kind(kind) {
                r is Err && r->Err_0 == Errno::EINVAL && *final(nets) == *old(nets)
            } else {
                &&& r is Ok
                &&& r->Ok_0.0.wf(*final(nets))
                &&& r->Ok_0.1.wf(*final(nets))
                &&& r->Ok_0.0 == plain_socket(SocketDomain::AF_UNIX, kind, r->Ok_0.0.inner)
                &&& r->Ok_0.1 == plain_socket(SocketDomain::AF_UNIX, kind, r->Ok_0.1.inner)
                &&& r->Ok_0.0.inner matches SocketInner::Unix(a)
                    && r->Ok_0.1.inner matches SocketInner::Unix(b) && a != b
                    && !old(nets).unix.ends().contains_key(a) && !old(
                    nets,
                ).unix.ends().contains_key(b) && final(nets).unix.ends() == old(nets).unix.ends().insert(
                    a,
                    EndView { peer: Some(b), credentials: Some(credentials), ..fresh_end() },
                ).insert(b, EndView { peer: Some(a), credentials: Some(credentials), ..fresh_end() })
            },
    {
        match kind {
            SocketKind::SOCK_RAW => {
                return Err(Errno::EINVAL);
            },
            _ => {},
        }
        let ghost before = nets.unix;
        let (a, b) = nets.unix.pair(credentials);
        proof {
            if is_pending(before.listeners(), a) {
                pending_ends_exist(before, a);
            }
            if is_pending(before.listeners(), b) {
                pending_ends_exist(before, b);
            }
        }
        Ok(
            (
                make_socket(SocketDomain::AF_UNIX, kind, SocketInner::Unix(a)),
                make_socket(SocketDomain::AF_UNIX, kind, SocketInner::Unix(b)),
            ),
        )
    }

    /// Lets the socket wait or not, down to what is behind it.
    pub fn set_nonblocking(&mut self, nets: &mut Nets, block: bool)
        requires
            old(nets).wf(),
            old(self).wf(*old(nets)),
        ensures
            final(nets).wf(),
            final(self).wf(*final(nets)),
            final(nets).inet == old(nets).inet,
            final(nets).unix.listeners() == old(nets).unix.listeners(),
            numbers_used(old(nets).unix, final(nets).unix, 0, 0),
            !(old(self).inner is Unix) ==> final(nets).unix == old(nets).unix,
            ({
                let inner = match old(self).inner {
                    SocketInner::Tcp(t) => SocketInner::Tcp(TcpSocket { nonblock: block, ..t }),
                    SocketInner::Udp(u) => SocketInner::Udp(UdpSocket { nonblock: block, ..u }),
                    SocketInner::Unix(id) => SocketInner::Unix(id),
                };
                *final(self) == (Socket { nonblock: block, inner, ..*old(self) })
            }),
            final(nets).unix.ends() == (match old(self).inner {
                SocketInner::Unix(id) => old(nets).unix.ends().insert(
                    id,
                    EndView { nonblock: block, ..old(nets).unix.ends()[id] },
                ),
                _ => old(nets).unix.ends(),
            }),
    {
        self.nonblock = block;
        match &mut self.inner {
            SocketInner::Tcp(t) => {
                t.set_nonblocking(block);
            },
            SocketInner::Udp(u) => {
                u.set_nonblocking(block);
            },
            SocketInner::Unix(id) => {
                nets.unix.set_nonblocking(*id, block);
            },
        }
    }

    pub fn is_nonblocking(&self) -> (r: bool)
        ensures
            r == self.nonblock,
    {
        self.nonblock
    }

    pub fn set_close_on_exec(&mut self, is_set: bool)
        ensures
            *final(self) == (Socket { cloexec: is_set, ..*old(self) }),
    {
        self.cloexec = is_set;
    }

    /// The number of the socket's kind.
    pub fn socket_type_value(&self) -> (r: i32)
        ensures
            r == kind_number(self.kind),
    {
        match self.kind {
            SocketKind::SOCK_STREAM => 1,
            SocketKind::SOCK_DGRAM => 2,
            SocketKind::SOCK_RAW => 3,
            SocketKind::SOCK_SEQPACKET => 5,
        }
    }

    /// Lets the address be used twice; local sockets have no such option.
    pub fn set_reuse_addr(&mut self, reuse: bool)
        ensures
            ({
                let inner = match old(self).inner {
                    SocketInner::Tcp(t) => SocketInner::Tcp(TcpSocket { reuse_addr: reuse, ..t }),
                    SocketInner::Udp(u) => SocketInner::Udp(UdpSocket { reuse_addr: reuse, ..u }),
                    SocketInner::Unix(id) => SocketInner::Unix(id),
                };
                *final(self) == (Socket { inner, ..*old(self) })
            }),
    {
        match &mut self.inner {
            SocketInner::Tcp(t) => {
                t.set_reuse_addr(reuse);
            },
            SocketInner::Udp(u) => {
                u.set_reuse_addr(reuse);
            },
            SocketInner::Unix(_) => {},
        }
    }

    pub fn set_send_buf_size(&mut self, size: u64)
        ensures
            *final(self) == (Socket { send_buf_size: size, ..*old(self) }),
    {
        self.send_buf_size = size;
    }

    pub fn send_buf_size(&self) -> (r: u64)
        ensures
            r == self.send_buf_size,
    {
        self.send_buf_size
    }

    pub fn set_recv_buf_size(&mut self, size: u64)
        ensures
            *final(self) == (Socket { recv_buf_size: size, ..*old(self) }),
    {
        self.recv_buf_size = size;
    }

    pub fn recv_buf_size(&self) -> (r: u64)
        ensures
            r == self.recv_buf_size,
    {
        self.recv_buf_size
    }

    pub fn set_recv_timeout_us(&mut self, timeout_us: Option<usize>)
        ensures
            *final(self) == (Socket { recvtimeout_us: timeout_us, ..*old(self) }),
    {
        self.recvtimeout_us = timeout_us;
    }

    pub fn recv_timeout_us(&self) -> (r: Option<usize>)
        ensures
            r == self.recvtimeout_us,
    {
        self.recvtimeout_us
    }

    pub fn set_send_timeout_us(&mut self, timeout_us: Option<usize>)
        ensures
            *final(self) == (Socket { sendtimeout_us: timeout_us, ..*old(self) }),
    {
        self.sendtimeout_us = timeout_us;
    }

    pub fn send_timeout_us(&self) -> (r: Option<usize>)
        ensures
            r == self.sendtimeout_us,
    {
        self.sendtimeout_us
    }

    /// When a receive that starts now gives up; one that does not wait has no
    /// such time.
    pub fn recv_deadline_us(&self, per_call_nonblocking: bool, now_us: usize) -> (r: Option<usize>)
        ensures
            r == deadline_of(
                self.recvtimeout_us,
                !self.nonblock && !per_call_nonblocking,
                now_us,
            ),
    {
        deadline(self.recvtimeout_us, !self.nonblock && !per_call_nonblocking, now_us)
    }

    /// When a send that starts now gives up; one that does not wait has no such
    /// time.
    pub fn send_deadline_us(&self, per_call_nonblocking: bool, now_us: usize) -> (r: Option<usize>)
        ensures
            r == deadline_of(
                self.sendtimeout_us,
                !self.nonblock && !per_call_nonblocking,
                now_us,
            ),
    {
        deadline(self.sendtimeout_us, !self.nonblock && !per_call_nonblocking, now_us)
    }

    /// Returns the error that a connection attempt left behind, and forgets it.
    pub fn take_socket_error(&mut self, nets: &Nets) -> (r: i32)
        requires
            nets.wf(),
            old(self).wf(*nets),
        ensures
            error_taken(*old(self), *nets, *final(self), r),
    {
        match &mut self.inner {
            SocketInner::Tcp(t) => t.take_error(&nets.inet),
            _ => 0,
        }
    }

    /// Turns the bundling of small segments off or on; only streams have it.
    pub fn set_tcp_nodelay(&mut self, nets: &mut Nets, enabled: bool) -> (r: SysResult<()>)
        requires
            old(nets).wf(),
            old(self).wf(*old(nets)),
        ensures
            final(nets).wf(),
            final(self).wf(*final(nets)),
            final(nets).unix == old(nets).unix,
            match old(self).inner {
                SocketInner::Tcp(t) => {
                    &&& r is Ok
                    &&& final(self).inner matches SocketInner::Tcp(t2) && engine_changed(
                        t,
                        old(nets).inet,
                        t2,
                        final(nets).inet,
                    ) && engine_of(t2, final(nets).inet) == (TcpView {
                        nagle: !enabled,
                        ..engine_or_new(t, old(nets).inet)
                    })
                    &&& *final(self) == (Socket { inner: final(self).inner, ..*old(self) })
                },
                _ => r == Err::<(), Errno>(Errno::ENOPROTOOPT) && *final(self) == *old(self)
                    && *final(nets) == *old(nets),
            },
    {
        match &mut self.inner {
            SocketInner::Tcp(t) => {
                t.set_nagle_enabled(&mut nets.inet, !enabled);
                Ok(())
            },
            _ => Err(Errno::ENOPROTOOPT),
        }
    }

    /// Tells whether small segments are sent at once; only streams have that.
    pub fn tcp_nodelay(&self, nets: &Nets) -> (r: SysResult<bool>)
        requires
            self.wf(*nets),
        ensures
            r == (match self.inner {
                SocketInner::Tcp(t) => Ok(
                    match t.handle {
                        Some(h) => !crate::net::smol::tcp_of(nets.inet.socks@, h).nagle,
                        None => false,
                    },
                ),
                _ => Err::<bool, Errno>(Errno::ENOPROTOOPT),
            }),
    {
        match &self.inner {
            SocketInner::Tcp(t) => Ok(!t.nagle_enabled(&nets.inet)),
            _ => Err(Errno::ENOPROTOOPT),
        }
    }

    /// Limits the number of hops of outgoing packets; local sockets have none.
    pub fn set_hop_limit(&mut self, nets: &mut Nets, limit: u8) -> (r: SysResult<()>)
        requires
            old(nets).wf(),
            old(self).wf(*old(nets)),
            limit != 0,
        ensures
            final(nets).wf(),
            final(self).wf(*final(nets)),
            final(nets).unix == old(nets).unix,
            *final(self) == (Socket { inner: final(self).inner, ..*old(self) }),
            match old(self).inner {
                SocketInner::Tcp(t) => {
                    &&& r is Ok
                    &&& final(self).inner matches SocketInner::Tcp(t2) && engine_changed(
                        t,
                        old(nets).inet,
                        t2,
                        final(nets).inet,
                    ) && engine_of(t2, final(nets).inet) == (TcpView {
                        hop_limit: Some(limit),
                        ..engine_or_new(t, old(nets).inet)
                    })
                },
                SocketInner::Udp(u) => {
                    &&& r is Ok
                    &&& final(self).inner == old(self).inner
                    &&& udp_changed(old(nets).inet, final(nets).inet, u.handle)
                    &&& final(nets).inet.next_udp_port == old(nets).inet.next_udp_port
                    &&& udp_engine(u, final(nets).inet) == (crate::net::smol::UdpView {
                        hop_limit: Some(limit),
                        ..udp_engine(u, old(nets).inet)
                    })
                },
                SocketInner::Unix(_) => r == Err::<(), Errno>(Errno::EOPNOTSUPP) && *final(self)
                    == *old(self) && *final(nets) == *old(nets),
            },
    {
        match &mut self.inner {
            SocketInner::Tcp(t) => t.set_hop_limit(&mut nets.inet, limit),
            SocketInner::Udp(u) => {
                u.set_socket_ttl(&mut nets.inet, limit);
                Ok(())
            },
            SocketInner::Unix(_) => Err(Errno::EOPNOTSUPP),
        }
    }
}

/// Whether a socket tells `r` as its own address.
pub open spec fn address_told(s: Socket, r: SysResult<SocketAddr>) -> bool {
    r == (match s.inner {
        SocketInner::Tcp(t) => match t.state {
            ConnState::Connected | ConnState::Listening | ConnState::Closed => Ok(
                sockaddr_of(t.local_addr),
            ),
            _ => Err::<SocketAddr, Errno>(Errno::ENOTCONN),
        },
        SocketInner::Udp(u) => match u.local_addr {
            Some(e) => Ok(sockaddr_of(e)),
            None => Err(Errno::ENOTCONN),
        },
        SocketInner::Unix(_) => Err(Errno::EOPNOTSUPP),
    })
}

/// Whether a socket tells `r` as the address of its peer.
pub open spec fn peer_told(s: Socket, r: SysResult<SocketAddr>) -> bool {
    r == (match s.inner {
        SocketInner::Tcp(t) => if t.state == ConnState::Connected {
            Ok(sockaddr_of(t.remote_addr))
        } else {
            Err::<SocketAddr, Errno>(Errno::ENOTCONN)
        },
        SocketInner::Udp(u) => match u.remote_addr {
            Some(e) => Ok(sockaddr_of(e)),
            None => Err(Errno::ENOTCONN),
        },
        SocketInner::Unix(_) => Err(Errno::ENOTCONN),
    })
}

/// Whether asking what a socket is ready for goes from `s` and `a` to `s2` and `b` and comes to
/// `r`.
pub open spec fn poll_called(s: Socket, a: Nets, s2: Socket, b: Nets, r: PollState) -> bool {
    match s.inner {
        SocketInner::Tcp(t) => s2.inner matches SocketInner::Tcp(t2) && poll_done(
            t,
            a.inet,
            t2,
            b.inet,
            r,
        ),
        SocketInner::Udp(u) => {
            let v = udp_engine(u, a.inet);
            &&& s2 == s
            &&& b == a
            &&& r.readable == (u.local_addr is Some && v.rx_waiting)
            &&& r.writeable == (u.local_addr is Some && !v.tx_full)
        },
        SocketInner::Unix(id) => {
            &&& s2 == s
            &&& b == a
            &&& r.readable == can_read(
                a.unix.ends(),
                a.unix.listeners(),
                id,
            )
            &&& r.writeable == can_write(a.unix.ends(), id)
        },
    }
}

/// Whether giving up a socket goes from `a` to `b` and wakes `r`.
pub open spec fn socket_released(s: Socket, a: Nets, b: Nets, r: Seq<usize>) -> bool {
    match s.inner {
        SocketInner::Unix(id) => {
            let m = detached(a.unix.ends(), id);
            let ids = going(a.unix.ends(), a.unix.listeners(), id);
            &&& b.inet == a.inet
            &&& b.unix.ends() == all_dropped(m, ids)
            &&& b.unix.listeners() == (match a.unix.ends()[id].listener {
                Some(k) => a.unix.listeners().remove(k),
                None => a.unix.listeners(),
            })
            &&& r == all_drop_wakes(m, ids)
        },
        SocketInner::Udp(u) => {
            &&& b.unix == a.unix
            &&& b.inet.socks@ == a.inet.socks@.remove(u.handle)
            &&& b.inet.table == a.inet.table
            &&& b.inet.next_tcp_port == a.inet.next_tcp_port
            &&& b.inet.next_udp_port == a.inet.next_udp_port
            &&& r.len() == 0
        },
        SocketInner::Tcp(t) => {
            &&& b.unix == a.unix
            &&& stream_released(t, a.inet, b.inet)
            &&& rest_kept(t.handle, a.inet, b.inet)
            &&& r.len() == 0
        },
    }
}

impl Socket {
    /// The address of the socket's own side.
    pub fn get_bound_address(&self) -> (r: SysResult<SocketAddr>)
        ensures
            address_told(*self, r),
    {
        match &self.inner {
            SocketInner::Tcp(t) => match t.local_addr() {
                Ok(e) => Ok(from_ipendpoint_to_socketaddr(e)),
                Err(e) => Err(e),
            },
            SocketInner::Udp(u) => u.local_addr(),
            SocketInner::Unix(_) => Err(Errno::EOPNOTSUPP),
        }
    }

    /// The address of the other side.
    pub fn get_remote_addr(&self) -> (r: SysResult<SocketAddr>)
        ensures
            peer_told(*self, r),
    {
        match &self.inner {
            SocketInner::Tcp(t) => match t.remote_addr() {
                Ok(e) => Ok(from_ipendpoint_to_socketaddr(e)),
                Err(e) => Err(e),
            },
            SocketInner::Udp(u) => u.remote_addr(),
            SocketInner::Unix(_) => Err(Errno::ENOTCONN),
        }
    }

    /// The name of a local socket.
    pub fn get_bound_unix_key(&self, nets: &Nets) -> (r: SysResult<Option<Vec<u8>>>)
        requires
            nets.wf(),
            self.wf(*nets),
        ensures
            match self.inner {
                SocketInner::Unix(id) => r is Ok && key_view(r->Ok_0) == nets.unix.ends()[id].key,
                _ => r is Err && r->Err_0 == Errno::EAFNOSUPPORT,
            },
    {
        match &self.inner {
            SocketInner::Unix(id) => Ok(nets.unix.bound_key(*id)),
            _ => Err(Errno::EAFNOSUPPORT),
        }
    }

    /// The name of a local socket's peer.
    pub fn get_peer_unix_key(&self, nets: &Nets) -> (r: SysResult<Option<Vec<u8>>>)
        requires
            nets.wf(),
            self.wf(*nets),
        ensures
            match self.inner {
                SocketInner::Unix(id) => if nets.unix.ends()[id].peer is Some {
                    r is Ok && key_view(r->Ok_0) == nets.unix.ends()[id].peer_key
                } else {
                    r is Err && r->Err_0 == Errno::ENOTCONN
                },
                _ => r is Err && r->Err_0 == Errno::EAFNOSUPPORT,
            },
    {
        match &self.inner {
            SocketInner::Unix(id) => {
                if nets.unix.is_connected(*id) {
                    Ok(nets.unix.peer_key(*id))
                } else {
                    Err(Errno::ENOTCONN)
                }
            },
            _ => Err(Errno::EAFNOSUPPORT),
        }
    }

    /// Checks that the socket is a local one with a connection.
    pub fn ensure_unix_connected(&self, nets: &Nets) -> (r: SysResult<()>)
        requires
            nets.wf(),
            self.wf(*nets),
        ensures
            r == (match self.inner {
                SocketInner::Unix(id) => if nets.unix.ends()[id].peer is Some {
                    Ok::<(), Errno>(())
                } else {
                    Err(Errno::ENOTCONN)
                },
                _ => Err(Errno::EAFNOSUPPORT),
            }),
    {
        match &self.inner {
            SocketInner::Unix(id) => {
                if nets.unix.is_connected(*id) {
                    Ok(())
                } else {
                    Err(Errno::ENOTCONN)
                }
            },
            _ => Err(Errno::EAFNOSUPPORT),
        }
    }

    /// The process on the other side of a local connection.
    pub fn unix_peer_credentials(&self, nets: &Nets) -> (r: SysResult<UnixPeerCredentials>)
        requires
            nets.wf(),
            self.wf(*nets),
        ensures
            r == (match self.inner {
                SocketInner::Unix(id) => match nets.unix.ends()[id].credentials {
                    Some(c) => Ok(c),
                    None => Err::<UnixPeerCredentials, Errno>(Errno::ENOTCONN),
                },
                _ => Err(Errno::ENOPROTOOPT),
            }),
    {
        match &self.inner {
            SocketInner::Unix(id) => nets.unix.peer_credentials(*id),
            _ => Err(Errno::ENOPROTOOPT),
        }
    }

    /// Gives the socket a local address.
    pub fn bind(&mut self, nets: &mut Nets, local_addr: SocketAddr) -> (r: SysResult<()>)
        requires
            old(nets).wf(),
            old(self).wf(*old(nets)),
            endpoint_of(local_addr).port == 0 ==> match old(self).inner {
                SocketInner::Tcp(_) => port_left(old(nets).inet),
                SocketInner::Udp(_) => udp_port_left(old(nets).inet),
                SocketInner::Unix(_) => true,
            },
        ensures
            final(nets).wf(),
            final(self).wf(*final(nets)),
            final(nets).unix == old(nets).unix,
            *final(self) == (Socket { inner: final(self).inner, ..*old(self) }),
            bind_called(*old(self), *old(nets), *final(self), *final(nets), local_addr, r),
    {
        match &mut self.inner {
            SocketInner::Tcp(t) => t.bind(&mut nets.inet, local_addr),
            SocketInner::Udp(u) => u.bind(&mut nets.inet, local_addr),
            SocketInner::Unix(_) => Err(Errno::EOPNOTSUPP),
        }
    }

    /// Gives a local socket a name.
    pub fn bind_unix_path(&self, nets: &mut Nets, key: &Vec<u8>) -> (r: SysResult<()>)
        requires
            old(nets).wf(),
            self.wf(*old(nets)),
        ensures
            final(nets).wf(),
            numbers_used(old(nets).unix, final(nets).unix, 0, 0),
            self.wf(*final(nets)),
            final(nets).inet == old(nets).inet,
            bind_unix_called(*self, *old(nets), *final(nets), key@, r),
    {
        match &self.inner {
            SocketInner::Unix(id) => nets.unix.bind_path(*id, key),
            _ => Err(Errno::EAFNOSUPPORT),
        }
    }

    /// Checks that the socket is a local one without a name.
    pub fn ensure_unix_unbound(&self, nets: &Nets) -> (r: SysResult<()>)
        requires
            nets.wf(),
            self.wf(*nets),
        ensures
            r == (match self.inner {
                SocketInner::Unix(id) => if nets.unix.ends()[id].key is Some {
                    Err::<(), Errno>(Errno::EINVAL)
                } else {
                    Ok(())
                },
                _ => Err(Errno::EAFNOSUPPORT),
            }),
    {
        match &self.inner {
            SocketInner::Unix(id) => nets.unix.ensure_unbound(*id),
            _ => Err(Errno::EAFNOSUPPORT),
        }
    }

    /// Starts to listen; only kinds with connections can.
    pub fn listen(&mut self, nets: &mut Nets, backlog: usize, credentials: UnixPeerCredentials) -> (r:
        SysResult<()>)
        requires
            old(nets).wf(),
            old(self).wf(*old(nets)),
            old(nets).unix.next_listener < usize::MAX,
            old(self).inner matches SocketInner::Tcp(t) ==> t.state == ConnState::Closed
                && t.local_addr.port == 0 ==> port_left(old(nets).inet),
        ensures
            final(nets).wf(),
            numbers_used(
                old(nets).unix,
                final(nets).unix,
                0,
                if r is Ok && old(self).inner is Unix {
                    1
                } else {
                    0
                },
            ),
            final(self).wf(*final(nets)),
            *final(self) == (Socket { inner: final(self).inner, ..*old(self) }),
            listen_called(*old(self), *old(nets), *final(self), *final(nets), backlog, credentials, r),
    {
        match self.kind {
            SocketKind::SOCK_STREAM | SocketKind::SOCK_SEQPACKET => {},
            _ => {
                return Err(Errno::EOPNOTSUPP);
            },
        }
        match &mut self.inner {
            SocketInner::Tcp(t) => t.listen(&mut nets.inet, backlog),
            SocketInner::Unix(id) => {
                let ghost l0 = nets.unix.listeners();
                let ghost n = nets.unix.next_listener;
                let r = nets.unix.listen(*id, credentials);
                proof {
                    let l1 = nets.unix.listeners();
                    if is_pending(l1, *id) {
                        let (k, i) = choose|k: usize, i: int|
                            #![trigger l1[k].pending[i]]
                            l1.contains_key(k) && 0 <= i < l1[k].pending.len() && l1[k].pending[i]
                                == *id;
                        assert(l0[k].pending[i] == *id);
                    }
                }
                r
            },
            SocketInner::Udp(_) => Err(Errno::EOPNOTSUPP),
        }
    }

    /// Accepts a connection, with the address it comes from. Local sockets come
    /// from nowhere in particular.
    pub fn accept(&mut self, nets: &mut Nets, timed_out: bool, interrupted: bool, tid: usize) -> (r:
        Accepted)
        requires
            old(nets).wf(),
            old(self).wf(*old(nets)),
        ensures
            final(nets).wf(),
            numbers_used(old(nets).unix, final(nets).unix, 0, 0),
            final(self).wf(*final(nets)),
            *final(self) == (Socket { inner: final(self).inner, ..*old(self) }),
            r matches Accepted::Socket(c, _) ==> c.wf(*final(nets)),
            accept_called(
                *old(self),
                *old(nets),
                *final(self),
                *final(nets),
                timed_out,
                interrupted,
                tid,
                r,
            ),
    {
        match self.kind {
            SocketKind::SOCK_STREAM | SocketKind::SOCK_SEQPACKET => {},
            _ => {
                return Accepted::Fail(Errno::EOPNOTSUPP);
            },
        }
        let domain = self.domain;
        let kind = self.kind;
        match &mut self.inner {
            SocketInner::Tcp(t) => match t.accept(&mut nets.inet) {
                Ok(c) => {
                    let from = match c.remote_addr() {
                        Ok(a) => a,
                        Err(_) => unspecified_endpoint(),
                    };
                    Accepted::Socket(
                        make_socket(domain, kind, SocketInner::Tcp(c)),
                        from_ipendpoint_to_socketaddr(from),
                    )
                },
                Err(e) => Accepted::Fail(e),
            },
            SocketInner::Unix(id) => {
                let ghost u0 = nets.unix;
                let step = nets.unix.accept(*id, timed_out, interrupted, tid);
                proof {
                    assert(!is_pending(nets.unix.listeners(), *id));
                    if step is Accepted {
                        let k = u0.ends()[*id].listener->0;
                        assert(u0.listeners()[k].pending[0] == step->Accepted_0);
                    }
                }
                match step {
                    AcceptStep::Accepted(c) => Accepted::Socket(
                        make_socket(domain, kind, SocketInner::Unix(c)),
                        from_ipendpoint_to_socketaddr(unspecified_endpoint()),
                    ),
                    AcceptStep::Fail(e) => Accepted::Fail(e),
                    AcceptStep::Wait => Accepted::Wait,
                }
            },
            SocketInner::Udp(_) => Accepted::Fail(Errno::EOPNOTSUPP),
        }
    }

    /// Starts a connection to an address.
    pub fn connect(&mut self, nets: &mut Nets, iface: &mut Interface, addr: SocketAddr) -> (r: SysResult<
        (),
    >)
        requires
            old(nets).wf(),
            old(self).wf(*old(nets)),
            match old(self).inner {
                SocketInner::Tcp(t) => t.state == ConnState::Closed && t.local_addr.port == 0
                    ==> port_left(old(nets).inet),
                SocketInner::Udp(u) => u.local_addr is None ==> udp_port_left(old(nets).inet),
                SocketInner::Unix(_) => true,
            },
        ensures
            final(nets).wf(),
            final(self).wf(*final(nets)),
            final(nets).unix == old(nets).unix,
            *final(self) == (Socket { inner: final(self).inner, ..*old(self) }),
            connect_called(*old(self), *old(nets), *final(self), *final(nets), addr, r),
    {
        match &mut self.inner {
            SocketInner::Tcp(t) => t.connect(&mut nets.inet, iface, addr),
            SocketInner::Udp(u) => u.connect(&mut nets.inet, addr),
            SocketInner::Unix(_) => Err(Errno::ENOENT),
        }
    }

    /// Connects a local socket to a name; the listener whose pollers are told
    /// and the thread to wake are returned.
    pub fn connect_unix_path(&self, nets: &mut Nets, key: &Vec<u8>, credentials: UnixPeerCredentials) -> (r:
        SysResult<(usize, Option<usize>)>)
        requires
            old(nets).wf(),
            self.wf(*old(nets)),
            old(nets).unix.next_end < usize::MAX,
        ensures
            final(nets).wf(),
            numbers_used(
                old(nets).unix,
                final(nets).unix,
                if r is Ok {
                    1
                } else {
                    0
                },
                0,
            ),
            self.wf(*final(nets)),
            final(nets).inet == old(nets).inet,
            connect_unix_called(*self, *old(nets), *final(nets), key@, credentials, r),
    {
        match &self.inner {
            SocketInner::Unix(id) => {
                let ghost u0 = nets.unix;
                let r = nets.unix.connect_path(*id, key, credentials);
                proof {
                    let l0 = u0.listeners();
                    let l1 = nets.unix.listeners();
                    if is_pending(l1, *id) {
                        let (k, i) = choose|k: usize, i: int|
                            #![trigger l1[k].pending[i]]
                            l1.contains_key(k) && 0 <= i < l1[k].pending.len() && l1[k].pending[i]
                                == *id;
                        if i < l0[k].pending.len() {
                            assert(l0[k].pending[i] == *id);
                        } else {
                            assert(u0.ends().contains_key(*id));
                        }
                    }
                }
                r
            },
            _ => Err(Errno::EAFNOSUPPORT),
        }
    }

    /// Closes halves of a connection and returns the threads to wake.
    pub fn shutdown(&mut self, nets: &mut Nets, how: usize) -> (r: SysResult<VecDeque<usize>>)
        requires
            old(nets).wf(),
            old(self).wf(*old(nets)),
        ensures
            final(nets).wf(),
            numbers_used(old(nets).unix, final(nets).unix, 0, 0),
            final(self).wf(*final(nets)),
            *final(self) == (Socket { inner: final(self).inner, ..*old(self) }),
            shutdown_called(*old(self), *old(nets), *final(self), *final(nets), how, r),
    {
        if how > 2 {
            return Err(Errno::EINVAL);
        }
        match &mut self.inner {
            SocketInner::Tcp(t) => match t.shutdown(&mut nets.inet, how) {
                Ok(_) => Ok(VecDeque::new()),
                Err(e) => Err(e),
            },
            SocketInner::Udp(u) => {
                u.shutdown(&mut nets.inet);
                Ok(VecDeque::new())
            },
            SocketInner::Unix(id) => nets.unix.shutdown(*id, how),
        }
    }

    /// What can be done with the socket without waiting.
    pub fn tcp_poll(&mut self, nets: &mut Nets) -> (r: PollState)
        requires
            old(nets).wf(),
            old(self).wf(*old(nets)),
        ensures
            final(nets).wf(),
            final(self).wf(*final(nets)),
            final(nets).unix == old(nets).unix,
            *final(self) == (Socket { inner: final(self).inner, ..*old(self) }),
            poll_called(*old(self), *old(nets), *final(self), *final(nets), r),
    {
        match &mut self.inner {
            SocketInner::Tcp(t) => t.poll(&mut nets.inet),
            SocketInner::Udp(u) => u.poll(&nets.inet),
            SocketInner::Unix(id) => PollState {
                readable: nets.unix.read_ready(*id),
                writeable: nets.unix.write_ready(*id),
            },
        }
    }

    /// Checks that bytes can be spliced out of the socket.
    pub fn validate_splice_read(&self, nets: &Nets) -> (r: SysResult<()>)
        requires
            nets.wf(),
            self.wf(*nets),
        ensures
            r == (match self.inner {
                SocketInner::Unix(id) => if nets.unix.ends()[id].peer is None {
                    Err::<(), Errno>(Errno::EINVAL)
                } else {
                    Ok(())
                },
                _ => Ok(()),
            }),
    {
        match &self.inner {
            SocketInner::Unix(id) => {
                if nets.unix.is_connected(*id) {
                    Ok(())
                } else {
                    Err(Errno::EINVAL)
                }
            },
            _ => Ok(()),
        }
    }

    /// Tells whether the other side of a local connection is gone.
    pub fn poll_hup(&self, nets: &Nets) -> (r: bool)
        requires
            nets.wf(),
            self.wf(*nets),
        ensures
            r == (self.inner matches SocketInner::Unix(id) && nets.unix.ends()[id].peer matches Some(p)
                && nets.unix.ends()[p].closed),
    {
        match &self.inner {
            SocketInner::Unix(id) => nets.unix.poll_hup(*id),
            _ => false,
        }
    }

    /// Tells whether a connection attempt left an error behind.
    pub fn poll_error(&mut self, nets: &Nets) -> (r: bool)
        requires
            nets.wf(),
            old(self).wf(*nets),
        ensures
            match old(self).inner {
                SocketInner::Tcp(t) => {
                    &&& r == (looked_at(t, nets.inet).pending_error != 0)
                    &&& *final(self) == (Socket {
                        inner: SocketInner::Tcp(looked_at(t, nets.inet)),
                        ..*old(self)
                    })
                },
                _ => !r && *final(self) == *old(self),
            },
    {
        match &mut self.inner {
            SocketInner::Tcp(t) => t.has_pending_error(&nets.inet),
            _ => false,
        }
    }

    /// A socket has no position.
    pub fn can_seek(&self) -> (r: SysResult<()>)
        ensures
            r == Err::<(), Errno>(Errno::ESPIPE),
    {
        Err(Errno::ESPIPE)
    }

    /// The open file flags of the socket.
    pub fn get_flags(&self) -> (r: u32)
        ensures
            r == O_RDWR | (if self.nonblock {
                O_NONBLOCK
            } else {
                0
            }) | (if self.cloexec {
                O_CLOEXEC
            } else {
                0
            }),
    {
        let a: u32 = if self.nonblock {
            O_NONBLOCK
        } else {
            0
        };
        let b: u32 = if self.cloexec {
            O_CLOEXEC
        } else {
            0
        };
        O_RDWR | a | b
    }

    /// Ends the life of the socket and returns the threads to wake.
    pub fn release(self, nets: &mut Nets) -> (r: VecDeque<usize>)
        requires
            old(nets).wf(),
            self.wf(*old(nets)),
        ensures
            final(nets).wf(),
            numbers_used(old(nets).unix, final(nets).unix, 0, 0),
            socket_released(self, *old(nets), *final(nets), r@),
    {
        match self.inner {
            SocketInner::Tcp(t) => {
                t.release(&mut nets.inet);
                VecDeque::new()
            },
            SocketInner::Udp(u) => {
                u.release(&mut nets.inet);
                VecDeque::new()
            },
            SocketInner::Unix(id) => nets.unix.close(id),
        }
    }
}

/// The outcome of an attempt to receive.
pub enum RecvStep {
    /// Bytes, where they come from, the thread to wake, and whether those that
    /// poll for room are told.
    Data(Vec<u8>, SocketAddr, Option<usize>, bool),
    Fail(Errno),
    /// The thread is on the list of readers.
    Wait,
}

/// The outcome of an attempt to send.
pub enum SendStep {
    /// So many bytes were accepted; the thread to wake.
    Sent(usize, Option<usize>),
    Fail(Errno),
    /// The thread is on the list of writers.
    Wait,
}

/// The end that a stream comes from.
pub open spec fn stream_peer(t: TcpSocket) -> SocketAddr {
    sockaddr_of(
        if t.state == ConnState::Connected {
            t.remote_addr
        } else {
            no_endpoint()
        },
    )
}

/// Whether receiving goes from `a` to `b` and comes to `r`.
pub open spec fn receive_called(
    s: Socket,
    a: Nets,
    b: Nets,
    q: ReadRequest,
    peek_min_len: usize,
    timed_out: bool,
    interrupted: bool,
    tid: usize,
    r: RecvStep,
) -> bool {
    match s.inner {
        SocketInner::Udp(u) => {
            &&& b.unix == a.unix
            &&& udp_changed(a.inet, b.inet, u.handle)
            &&& b.inet.next_udp_port == a.inet.next_udp_port
            &&& only_rx_differs(
                udp_engine(u, a.inet),
                udp_engine(u, b.inet),
            )
            &&& match r {
                RecvStep::Data(bytes, from, None, false) => recv_from_done(
                    u,
                    a.inet,
                    b.inet,
                    q.len,
                    q.peek,
                    Ok((bytes, from)),
                ),
                RecvStep::Fail(e) => recv_from_done(
                    u,
                    a.inet,
                    b.inet,
                    q.len,
                    q.peek,
                    Err(e),
                ),
                _ => false,
            }
        },
        SocketInner::Tcp(t) => {
            &&& b.unix == a.unix
            &&& match stream_recv_check(t, q.len) {
                Some(Ok(_)) => b == a && (r matches RecvStep::Data(
                    bytes,
                    from,
                    None,
                    false,
                ) && bytes@.len() == 0 && from == stream_peer(t)),
                Some(Err(e)) => b == a && r == RecvStep::Fail(e),
                None => match r {
                    RecvStep::Data(bytes, from, None, false) => from == stream_peer(t)
                        && recv_once_done(
                        t,
                        a.inet,
                        b.inet,
                        q.len,
                        q.peek,
                        peek_min_len,
                        Ok(bytes),
                    ),
                    RecvStep::Fail(e) => recv_once_done(
                        t,
                        a.inet,
                        b.inet,
                        q.len,
                        q.peek,
                        peek_min_len,
                        Err(e),
                    ),
                    _ => false,
                },
            }
        },
        SocketInner::Unix(id) => {
            &&& b.inet == a.inet
            &&& b.unix.listeners() == a.unix.listeners()
            &&& read_called(
                a.unix.ends(),
                id,
                q,
                timed_out,
                interrupted,
                tid,
                b.unix.ends(),
                match r {
                    RecvStep::Data(bytes, _, w, p) => ReadStep::Data(bytes, w, p),
                    RecvStep::Fail(e) => ReadStep::Fail(e),
                    RecvStep::Wait => ReadStep::Wait,
                },
            )
            &&& r matches RecvStep::Data(_, from, _, _) ==> from == sockaddr_of(no_endpoint())
        },
    }
}

impl Socket {
    /// Makes one attempt to receive. Of a stream at least `peek_min_len` bytes
    /// must be there for `peek`, as long as more can come.
    pub fn recv_from(
        &self,
        nets: &mut Nets,
        q: ReadRequest,
        peek_min_len: usize,
        timed_out: bool,
        interrupted: bool,
        tid: usize,
    ) -> (r: RecvStep)
        requires
            old(nets).wf(),
            self.wf(*old(nets)),
        ensures
            final(nets).wf(),
            numbers_used(old(nets).unix, final(nets).unix, 0, 0),
            self.wf(*final(nets)),
            receive_called(
                *self,
                *old(nets),
                *final(nets),
                q,
                peek_min_len,
                timed_out,
                interrupted,
                tid,
                r,
            ),
    {
        match &self.inner {
            SocketInner::Udp(u) => match u.recv_from(&mut nets.inet, q.len, q.peek) {
                Ok((b, from)) => RecvStep::Data(b, from, None, false),
                Err(e) => RecvStep::Fail(e),
            },
            SocketInner::Tcp(t) => {
                let from = match t.remote_addr() {
                    Ok(e) => from_ipendpoint_to_socketaddr(e),
                    Err(_) => from_ipendpoint_to_socketaddr(unspecified_endpoint()),
                };
                match t.recv_check(q.len) {
                    Some(Ok(_)) => {
                        return RecvStep::Data(Vec::new(), from, None, false);
                    },
                    Some(Err(e)) => {
                        return RecvStep::Fail(e);
                    },
                    None => {},
                }
                match t.recv_once(&mut nets.inet, q.len, q.peek, peek_min_len) {
                    Ok(b) => RecvStep::Data(b, from, None, false),
                    Err(e) => RecvStep::Fail(e),
                }
            },
            SocketInner::Unix(id) => {
                let ghost m0 = nets.unix.ends();
                let step = nets.unix.read(*id, q, timed_out, interrupted, tid);
                proof {
                    assert(nets.unix.ends().contains_key(*id));
                    assert(nets.unix.ends()[*id].closed == m0[*id].closed);
                }
                match step {
                    ReadStep::Data(b, w, p) => RecvStep::Data(
                        b,
                        from_ipendpoint_to_socketaddr(unspecified_endpoint()),
                        w,
                        p,
                    ),
                    ReadStep::Fail(e) => RecvStep::Fail(e),
                    ReadStep::Wait => RecvStep::Wait,
                }
            },
        }
    }

    /// Makes one attempt to send to an address, or to the peer if none is given.
    /// Streams and local sockets have only their peer.
    pub fn send_to(
        &mut self,
        nets: &mut Nets,
        buf: &[u8],
        addr: Option<SocketAddr>,
        nonblocking: bool,
        timed_out: bool,
        interrupted: bool,
        tid: usize,
    ) -> (r: SendStep)
        requires
            old(nets).wf(),
            old(self).wf(*old(nets)),
            old(self).inner matches SocketInner::Udp(u) ==> u.local_addr is None ==> udp_port_left(
                old(nets).inet,
            ),
        ensures
            final(nets).wf(),
            numbers_used(old(nets).unix, final(nets).unix, 0, 0),
            final(self).wf(*final(nets)),
            *final(self) == (Socket { inner: final(self).inner, ..*old(self) }),
            send_called(
                *old(self),
                *old(nets),
                *final(self),
                *final(nets),
                buf@,
                addr,
                nonblocking,
                timed_out,
                interrupted,
                tid,
                r,
            ),
    {
        match &mut self.inner {
            SocketInner::Udp(u) => {
                let sent = match addr {
                    Some(a) => u.send_to(&mut nets.inet, buf, a),
                    None => u.send(&mut nets.inet, buf),
                };
                match sent {
                    Ok(n) => SendStep::Sent(n, None),
                    Err(e) => SendStep::Fail(e),
                }
            },
            SocketInner::Tcp(t) => {
                match t.send_check() {
                    Err(e) => {
                        return SendStep::Fail(e);
                    },
                    Ok(_) => {},
                }
                match t.send(&mut nets.inet, buf) {
                    Ok(n) => SendStep::Sent(n, None),
                    Err(e) => SendStep::Fail(e),
                }
            },
            SocketInner::Unix(id) => {
                let ghost m0 = nets.unix.ends();
                let step = nets.unix.write(*id, buf, nonblocking, timed_out, interrupted, tid);
                proof {
                    if m0[*id].peer is Some {
                        assert(m0.contains_key(m0[*id].peer->0));
                    }
                    assert(nets.unix.ends().contains_key(*id));
                    assert(nets.unix.ends()[*id].closed == m0[*id].closed);
                }
                match step {
                    WriteStep::Written(n, w) => SendStep::Sent(n, w),
                    WriteStep::Fail(e) => SendStep::Fail(e),
                    WriteStep::Wait => SendStep::Wait,
                }
            },
        }
    }

    /// Makes one attempt to send to the peer.
    pub fn send(
        &mut self,
        nets: &mut Nets,
        buf: &[u8],
        nonblocking: bool,
        timed_out: bool,
        interrupted: bool,
        tid: usize,
    ) -> (r: SendStep)
        requires
            old(nets).wf(),
            old(self).wf(*old(nets)),
            old(self).inner matches SocketInner::Udp(u) ==> u.local_addr is None ==> udp_port_left(
                old(nets).inet,
            ),
        ensures
            final(nets).wf(),
            numbers_used(old(nets).unix, final(nets).unix, 0, 0),
            final(self).wf(*final(nets)),
            *final(self) == (Socket { inner: final(self).inner, ..*old(self) }),
            send_called(
                *old(self),
                *old(nets),
                *final(self),
                *final(nets),
                buf@,
                None,
                nonblocking,
                timed_out,
                interrupted,
                tid,
                r,
            ),
    {
        self.send_to(nets, buf, None, nonblocking, timed_out, interrupted, tid)
    }
}

/// How a wait ended: whether its time was up.
pub open spec fn wait_over(
    interrupted: bool,
    timed_out: bool,
    deadline_us: Option<usize>,
    now_us: usize,
) -> SysResult<bool> {
    if interrupted {
        Err(Errno::EINTR)
    } else {
        Ok(
            (deadline_us is Some && timed_out) || (deadline_us matches Some(d) && now_us >= d),
        )
    }
}

/// What the end of a wait means: a signal ends the call; otherwise it tells
/// whether the deadline has passed.
pub fn finish_interruptible_wait(
    interrupted: bool,
    timed_out: bool,
    deadline_us: Option<usize>,
    now_us: usize,
) -> (r: SysResult<bool>)
    ensures
        r == wait_over(interrupted, timed_out, deadline_us, now_us),
{
    if interrupted {
        return Err(Errno::EINTR);
    }
    match deadline_us {
        Some(d) => Ok(timed_out || now_us >= d),
        None => Ok(false),
    }
}

/// What an attempt to send comes to.
pub open spec fn send_called(
    s: Socket,
    a: Nets,
    s2: Socket,
    b: Nets,
    buf: Seq<u8>,
    addr: Option<SocketAddr>,
    nonblocking: bool,
    timed_out: bool,
    interrupted: bool,
    tid: usize,
    r: SendStep,
) -> bool {
    match s.inner {
        SocketInner::Udp(u) => {
            let peer = match addr {
                Some(a) => Some(endpoint_of(a)),
                None => u.remote_addr,
            };
            let res = match r {
                SendStep::Sent(n, _) => Ok::<usize, Errno>(n),
                SendStep::Fail(e) => Err(e),
                SendStep::Wait => Err(Errno::EAGAIN),
            };
            &&& b.unix == a.unix
            &&& r != SendStep::Wait
            &&& r matches SendStep::Sent(_, w) ==> w is None
            &&& match peer {
                None => res == Err::<usize, Errno>(Errno::EDESTADDRREQ) && s2
                    == s && b == a,
                Some(p) => s2.inner matches SocketInner::Udp(u2) && datagram_sent(
                    u,
                    a.inet,
                    u2,
                    b.inet,
                    buf,
                    p,
                    res,
                ),
            }
        },
        SocketInner::Tcp(t) => {
            let res = match r {
                SendStep::Sent(n, _) => Ok::<usize, Errno>(n),
                SendStep::Fail(e) => Err(e),
                SendStep::Wait => Err(Errno::EAGAIN),
            };
            &&& b.unix == a.unix
            &&& s2 == s
            &&& r != SendStep::Wait
            &&& r matches SendStep::Sent(_, w) ==> w is None
            &&& match stream_send_check(t) {
                Err(e) => r == SendStep::Fail(e) && b == a,
                Ok(_) => send_done(t, a.inet, b.inet, buf, res),
            }
        },
        SocketInner::Unix(id) => {
            &&& b.inet == a.inet
            &&& s2 == s
            &&& b.unix.listeners() == a.unix.listeners()
            &&& write_called(
                a.unix.ends(),
                id,
                buf,
                nonblocking,
                timed_out,
                interrupted,
                tid,
                b.unix.ends(),
                match r {
                    SendStep::Sent(n, w) => WriteStep::Written(n, w),
                    SendStep::Fail(e) => WriteStep::Fail(e),
                    SendStep::Wait => WriteStep::Wait,
                },
            )
        },
    }
}

/// The outcome of an accept.
pub enum Accepted {
    /// The socket of the connection, and where it comes from.
    Socket(Socket, SocketAddr),
    Fail(Errno),
    /// The thread is on the list of those that wait.
    Wait,
}

/// What giving a socket a local address comes to.
pub open spec fn bind_called(
    s: Socket,
    a: Nets,
    s2: Socket,
    b: Nets,
    local_addr: SocketAddr,
    r: SysResult<()>,
) -> bool {
    match s.inner {
        SocketInner::Tcp(t) => s2.inner matches SocketInner::Tcp(t2) && bind_done(
            t,
            a.inet,
            t2,
            b.inet,
            local_addr,
            r,
        ) && b.inet.socks == a.inet.socks,
        SocketInner::Udp(u) => s2.inner matches SocketInner::Udp(u2) && bound(
            u,
            a.inet,
            u2,
            b.inet,
            local_addr,
            r,
        ),
        SocketInner::Unix(_) => r == Err::<(), Errno>(Errno::EOPNOTSUPP) && s2
            == s && b == a,
    }
}

/// What telling a socket to listen comes to.
pub open spec fn listen_called(
    s: Socket,
    a: Nets,
    s2: Socket,
    b: Nets,
    backlog: usize,
    credentials: UnixPeerCredentials,
    r: SysResult<()>,
) -> bool {
    if !stream_kind(s.kind) || s.inner is Udp {
        &&& r == Err::<(), Errno>(Errno::EOPNOTSUPP)
        &&& s2 == s
        &&& b == a
    } else {
        match s.inner {
            SocketInner::Tcp(t) => {
                &&& s2.inner matches SocketInner::Tcp(t2) && listen_done(
                    t,
                    a.inet,
                    t2,
                    b.inet,
                    backlog,
                    r,
                )
                &&& b.unix == a.unix
            },
            SocketInner::Unix(id) => {
                &&& s2.inner == s.inner
                &&& b.inet == a.inet
                &&& listened(
                    a.unix.ends(),
                    a.unix.listeners(),
                    a.unix.next_listener,
                    id,
                    credentials,
                    b.unix.ends(),
                    b.unix.listeners(),
                    r,
                )
            },
            SocketInner::Udp(_) => true,
        }
    }
}

/// What accepting a connection comes to.
pub open spec fn accept_called(
    s: Socket,
    a: Nets,
    s2: Socket,
    b: Nets,
    timed_out: bool,
    interrupted: bool,
    tid: usize,
    r: Accepted,
) -> bool {
    if !stream_kind(s.kind) || s.inner is Udp {
        &&& r == Accepted::Fail(Errno::EOPNOTSUPP)
        &&& s2 == s
        &&& b == a
    } else {
        match s.inner {
            SocketInner::Tcp(t) => {
                &&& b.unix == a.unix
                &&& s2.inner matches SocketInner::Tcp(t2)
                    && crate::net::tcp::accept_done(
                    t,
                    a.inet,
                    t2,
                    b.inet,
                    match r {
                        Accepted::Socket(c, _) => Ok(c.inner->Tcp_0),
                        Accepted::Fail(e) => Err(e),
                        Accepted::Wait => Err(Errno::EAGAIN),
                    },
                )
                &&& r != Accepted::Wait
                &&& r matches Accepted::Socket(c, from) ==> c.inner is Tcp && c
                    == plain_socket(s.domain, s.kind, c.inner) && from
                    == sockaddr_of(c.inner->Tcp_0.remote_addr)
            },
            SocketInner::Unix(id) => {
                &&& s2.inner == s.inner
                &&& b.inet == a.inet
                &&& b.unix.ends() == a.unix.ends()
                &&& crate::net::unix::accept_done(
                    a.unix.ends(),
                    a.unix.listeners(),
                    id,
                    timed_out,
                    interrupted,
                    tid,
                    b.unix.listeners(),
                    match r {
                        Accepted::Socket(c, _) => AcceptStep::Accepted(c.inner->Unix_0),
                        Accepted::Fail(e) => AcceptStep::Fail(e),
                        Accepted::Wait => AcceptStep::Wait,
                    },
                )
                &&& r matches Accepted::Socket(c, from) ==> c.inner is Unix && c
                    == plain_socket(s.domain, s.kind, c.inner) && from
                    == sockaddr_of(no_endpoint())
            },
            SocketInner::Udp(_) => true,
        }
    }
}

/// What connecting to an address comes to.
pub open spec fn connect_called(
    s: Socket,
    a: Nets,
    s2: Socket,
    b: Nets,
    addr: SocketAddr,
    r: SysResult<()>,
) -> bool {
    match s.inner {
        SocketInner::Tcp(t) => s2.inner matches SocketInner::Tcp(t2) && connect_done(
            t,
            a.inet,
            t2,
            b.inet,
            addr,
            r,
        ),
        SocketInner::Udp(u) => {
            &&& r is Ok
            &&& s2.inner matches SocketInner::Udp(u2) && u2.remote_addr == Some(
                endpoint_of(addr),
            ) && now_bound(
                u,
                a.inet,
                UdpSocket { remote_addr: u.remote_addr, ..u2 },
                b.inet,
            )
        },
        SocketInner::Unix(_) => r == Err::<(), Errno>(Errno::ENOENT) && s2
            == s && b == a,
    }
}

/// What closing halves of a connection comes to.
pub open spec fn shutdown_called(
    s: Socket,
    a: Nets,
    s2: Socket,
    b: Nets,
    how: usize,
    r: SysResult<VecDeque<usize>>,
) -> bool {
    if how > 2 {
        &&& r is Err
        &&& r->Err_0 == Errno::EINVAL
        &&& s2 == s
        &&& b == a
    } else {
        match s.inner {
            SocketInner::Tcp(t) => {
                &&& b.unix == a.unix
                &&& s2.inner matches SocketInner::Tcp(t2) && shutdown_done(
                    t,
                    a.inet,
                    t2,
                    b.inet,
                    how,
                    match r {
                        Ok(_) => Ok(()),
                        Err(e) => Err(e),
                    },
                )
                &&& r matches Ok(w) ==> w@.len() == 0
            },
            SocketInner::Udp(u) => {
                &&& b.unix == a.unix
                &&& s2.inner == s.inner
                &&& r is Ok
                &&& r->Ok_0@.len() == 0
                &&& udp_changed(a.inet, b.inet, u.handle)
                &&& udp_engine(u, b.inet) == (crate::net::smol::UdpView {
                    hop_limit: udp_engine(u, a.inet).hop_limit,
                    ..fresh_udp(udp_engine(u, a.inet).tx_cap, udp_engine(u, a.inet).tx_slots)
                })
            },
            SocketInner::Unix(id) => {
                let m = a.unix.ends();
                &&& b.inet == a.inet
                &&& s2.inner == s.inner
                &&& b.unix.listeners() == a.unix.listeners()
                &&& if m[id].peer is None {
                    r is Err && r->Err_0 == Errno::ENOTCONN && b.unix.ends() == m
                } else {
                    &&& r is Ok
                    &&& r->Ok_0@ == shutdown_wakes(m, id, how)
                    &&& b.unix.ends() == shut_down(m, id, how)
                }
            },
        }
    }
}

/// What giving a local socket a name comes to.
pub open spec fn bind_unix_called(
    s: Socket,
    a: Nets,
    b: Nets,
    key: Seq<u8>,
    r: SysResult<()>,
) -> bool {
    match s.inner {
        SocketInner::Unix(id) => {
            let m = a.unix.ends();
            &&& b.unix.listeners() == a.unix.listeners()
            &&& if m[id].key is Some {
                r == Err::<(), Errno>(Errno::EINVAL) && b.unix.ends() == m
            } else {
                r is Ok && b.unix.ends() == m.insert(
                    id,
                    EndView { key: Some(key), ..m[id] },
                )
            }
        },
        _ => r == Err::<(), Errno>(Errno::EAFNOSUPPORT) && b == a,
    }
}

/// What connecting a local socket to a name comes to.
pub open spec fn connect_unix_called(
    s: Socket,
    a: Nets,
    b: Nets,
    key: Seq<u8>,
    credentials: UnixPeerCredentials,
    r: SysResult<(usize, Option<usize>)>,
) -> bool {
    match s.inner {
        SocketInner::Unix(id) => connected(
            a.unix.ends(),
            a.unix.listeners(),
            a.unix.next_end,
            id,
            key,
            credentials,
            b.unix.ends(),
            b.unix.listeners(),
            r,
        ),
        _ => r is Err && r->Err_0 == Errno::EAFNOSUPPORT && b == a,
    }
}

proof fn pending_ends_exist(u: UnixNet, id: usize)
    requires
        u.wf(),
        is_pending(u.listeners(), id),
    ensures
        u.ends().contains_key(id),
{
    let l = u.listeners();
    let (k, i) = choose|k: usize, i: int|
        #![trigger l[k].pending[i]]
        l.contains_key(k) && 0 <= i < l[k].pending.len() && l[k].pending[i] == id;
    assert(u.ends().contains_key(l[k].pending[i]));
}

/// Domains 1, 2 and 10 are known, and kinds 1, 2, 3 and 5, whatever the bits above the lowest
/// byte say.
pub proof fn known_domains_and_kinds(n: usize)
    ensures
        domain_of(1) == Ok::<SocketDomain, Errno>(SocketDomain::AF_UNIX),
        domain_of(2) == Ok::<SocketDomain, Errno>(SocketDomain::AF_INET),
        domain_of(10) == Ok::<SocketDomain, Errno>(SocketDomain::AF_INET6),
        n != 1 && n != 2 && n != 10 ==> domain_of(n) == Err::<SocketDomain, Errno>(
            Errno::EAFNOSUPPORT,
        ),
        n & 0xff == 1 ==> kind_of(n) == Ok::<SocketKind, Errno>(SocketKind::SOCK_STREAM),
        n & 0xff == 2 ==> kind_of(n) == Ok::<SocketKind, Errno>(SocketKind::SOCK_DGRAM),
        n & 0xff == 3 ==> kind_of(n) == Ok::<SocketKind, Errno>(SocketKind::SOCK_RAW),
        n & 0xff == 5 ==> kind_of(n) == Ok::<SocketKind, Errno>(SocketKind::SOCK_SEQPACKET),
        n & 0xff == 0 || n & 0xff == 4 || n & 0xff > 5 ==> kind_of(n) == Err::<SocketKind, Errno>(
            Errno::EINVAL,
        ),
{
}

/// A new socket waits, is kept over a new program, has buffers of 65536 bytes and no timeouts.
pub proof fn new_sockets_are_plain(domain: SocketDomain, kind: SocketKind, inner: SocketInner)
    ensures
        plain_socket(domain, kind, inner).domain == domain && plain_socket(domain, kind, inner).kind
            == kind && plain_socket(domain, kind, inner).inner == inner,
        !plain_socket(domain, kind, inner).nonblock && !plain_socket(domain, kind, inner).cloexec,
        plain_socket(domain, kind, inner).send_buf_size == 65536 && plain_socket(
            domain,
            kind,
            inner,
        ).recv_buf_size == 65536,
        plain_socket(domain, kind, inner).recvtimeout_us is None && plain_socket(
            domain,
            kind,
            inner,
        ).sendtimeout_us is None,
{
}

/// A timeout ends that long from now, and only for who waits.
pub proof fn timeouts_end_from_now(timeout_us: Option<usize>, waits: bool, now_us: usize)
    ensures
        timeout_us is None || !waits ==> deadline_of(timeout_us, waits, now_us) is None,
        waits ==> (timeout_us matches Some(t) ==> (deadline_of(timeout_us, waits, now_us) matches Some(
            d,
        ) && (now_us + t <= usize::MAX ==> d - now_us == t) && (now_us + t > usize::MAX ==> d
            == usize::MAX))),
{
}

/// Streams and packet sequences are connected; the others are not, and raw sockets are never
/// between processes of one machine.
pub proof fn kinds_of_connections(k: SocketKind)
    ensures
        stream_kind(k) == (k == SocketKind::SOCK_STREAM || k == SocketKind::SOCK_SEQPACKET),
        unix_kind(k) == (k == SocketKind::SOCK_STREAM || k == SocketKind::SOCK_SEQPACKET || k
            == SocketKind::SOCK_DGRAM),
{
}

/// A socket tells the address and port that it is bound to, and those of its peer once it has
/// one.
pub proof fn sockets_tell_their_ends(
    s: Socket,
    own: SysResult<SocketAddr>,
    peer: SysResult<SocketAddr>,
)
    requires
        address_told(s, own),
        peer_told(s, peer),
    ensures
        s.inner matches SocketInner::Tcp(t) ==> {
            &&& own matches Ok(a) ==> endpoint_of(a) == t.local_addr
            &&& peer matches Ok(a) ==> endpoint_of(a) == t.remote_addr
            &&& (peer is Ok) == (t.state == ConnState::Connected)
            &&& (own is Ok) == (t.state == ConnState::Connected || t.state == ConnState::Listening
                || t.state == ConnState::Closed)
        },
        s.inner matches SocketInner::Udp(u) ==> {
            &&& own matches Ok(a) ==> u.local_addr == Some(endpoint_of(a))
            &&& peer matches Ok(a) ==> u.remote_addr == Some(endpoint_of(a))
            &&& (own is Ok) == (u.local_addr is Some)
            &&& (peer is Ok) == (u.remote_addr is Some)
        },
        s.inner is Unix ==> own == Err::<SocketAddr, Errno>(Errno::EOPNOTSUPP) && peer == Err::<
            SocketAddr,
            Errno,
        >(Errno::ENOTCONN),
        own matches Err(e) ==> !(s.inner is Unix) ==> e == Errno::ENOTCONN,
{
}

/// A datagram goes to the address given with it, else to the peer; without either it is
/// refused.
pub proof fn datagrams_go_to_whom_they_are_for(
    s: Socket,
    a: Nets,
    s2: Socket,
    b: Nets,
    buf: Seq<u8>,
    addr: Option<SocketAddr>,
    tid: usize,
    r: SendStep,
)
    requires
        send_called(s, a, s2, b, buf, addr, false, false, false, tid, r),
        s.inner is Udp,
    ensures
        r matches SendStep::Sent(n, _) ==> {
            let u = s.inner->Udp_0;
            let sent = udp_engine(u, b.inet).tx.last();
            &&& n == buf.len()
            &&& sent.payload == buf
            &&& addr matches Some(to) ==> sent.peer == endpoint_of(to)
            &&& addr is None ==> u.remote_addr == Some(sent.peer)
        },
        addr is None && s.inner->Udp_0.remote_addr is None ==> r == SendStep::Fail(
            Errno::EDESTADDRREQ,
        ) && b == a,
{
}

/// Only connected kinds listen and accept.
pub proof fn only_streams_listen(
    s: Socket,
    a: Nets,
    s2: Socket,
    b: Nets,
    backlog: usize,
    c: UnixPeerCredentials,
    r: SysResult<()>,
    s3: Socket,
    b3: Nets,
    tid: usize,
    got: Accepted,
)
    requires
        listen_called(s, a, s2, b, backlog, c, r),
        accept_called(s, a, s3, b3, false, false, tid, got),
        s.kind == SocketKind::SOCK_DGRAM || s.kind == SocketKind::SOCK_RAW || s.inner is Udp,
    ensures
        r == Err::<(), Errno>(Errno::EOPNOTSUPP) && s2 == s && b == a,
        got == Accepted::Fail(Errno::EOPNOTSUPP) && s3 == s && b3 == a,
{
}

/// A name is given to a socket once, and to local sockets only.
pub proof fn names_are_given_once(s: Socket, a: Nets, b: Nets, key: Seq<u8>, r: SysResult<()>)
    requires
        bind_unix_called(s, a, b, key, r),
    ensures
        !(s.inner is Unix) ==> r == Err::<(), Errno>(Errno::EAFNOSUPPORT) && b == a,
        s.inner matches SocketInner::Unix(id) ==> {
            &&& (r is Ok) == (a.unix.ends()[id].key is None)
            &&& r is Ok ==> b.unix.ends()[id].key == Some(key) && b.unix.ends()[id].data
                == a.unix.ends()[id].data && b.unix.ends()[id].peer == a.unix.ends()[id].peer
            &&& r is Err ==> r == Err::<(), Errno>(Errno::EINVAL) && b.unix.ends() == a.unix.ends()
        },
{
}

/// Connecting a datagram socket sets its peer and always works.
pub proof fn datagram_peers_are_set(
    s: Socket,
    a: Nets,
    s2: Socket,
    b: Nets,
    addr: SocketAddr,
    r: SysResult<()>,
)
    requires
        connect_called(s, a, s2, b, addr, r),
    ensures
        s.inner is Udp ==> r is Ok && (s2.inner matches SocketInner::Udp(u)
            && u.remote_addr == Some(
            endpoint_of(addr),
        ) && u.local_addr is Some && u.handle == s.inner->Udp_0.handle),
        s.inner is Unix ==> r == Err::<(), Errno>(Errno::ENOENT) && s2 == s && b == a,
{
}

/// A wait ends by an interrupt, or tells whether its time was up; without a deadline it never
/// is.
pub proof fn waits_end_by_interrupt_or_time(
    timed_out: bool,
    deadline_us: Option<usize>,
    now_us: usize,
)
    ensures
        wait_over(true, timed_out, deadline_us, now_us) == Err::<bool, Errno>(Errno::EINTR),
        deadline_us is None ==> wait_over(false, timed_out, deadline_us, now_us) == Ok::<
            bool,
            Errno,
        >(false),
        deadline_us matches Some(d) ==> wait_over(false, timed_out, deadline_us, now_us) == Ok::<
            bool,
            Errno,
        >(timed_out || now_us >= d),
{
}

/// The error of a stream is told once, as it is after a look at the connection; other sockets
/// have none.
pub proof fn socket_errors_are_told_once(
    s: Socket,
    nets: Nets,
    s2: Socket,
    r: i32,
    s3: Socket,
    r2: i32,
)
    requires
        error_taken(s, nets, s2, r),
        error_taken(s2, nets, s3, r2),
        s.inner matches SocketInner::Tcp(t) ==> t.state != ConnState::Connecting,
    ensures
        s.inner is Tcp ==> r == s.inner->Tcp_0.pending_error as i32 && r2 == 0,
        !(s.inner is Tcp) ==> r == 0 && s2 == s,
        s2.kind == s.kind && s2.domain == s.domain && s2.nonblock == s.nonblock,
{
}

/// What a stream or datagram socket receives comes with its sender: the peer of a stream, the
/// sender of a datagram.
pub proof fn received_data_names_its_sender(
    s: Socket,
    a: Nets,
    b: Nets,
    q: ReadRequest,
    min: usize,
    tid: usize,
    r: RecvStep,
)
    requires
        receive_called(s, a, b, q, min, false, false, tid, r),
        q.len > 0,
    ensures
        r matches RecvStep::Data(bytes, from, _, _) ==> {
            &&& s.inner matches SocketInner::Udp(u) ==> endpoint_of(from) == udp_engine(
                u,
                a.inet,
            ).rx[0].peer && bytes@.is_prefix_of(udp_engine(u, a.inet).rx[0].payload)
            &&& s.inner matches SocketInner::Tcp(t) ==> (t.state == ConnState::Connected
                && endpoint_of(from) == t.remote_addr && (bytes@.len() > 0 ==> bytes@.is_prefix_of(
                engine_of(t, a.inet).rx,
            )))
            &&& s.inner is Unix ==> endpoint_of(from).port == 0
            &&& bytes@.len() <= q.len || s.inner is Unix
        },
        s.inner is Unix ==> b.inet == a.inet,
        !(s.inner is Unix) ==> b.unix == a.unix,
{
}

/// A datagram socket is ready once it is bound: to read when a datagram waits, to write when
/// there is room. A local socket is ready as its two halves are.
pub proof fn bound_datagram_sockets_are_ready(s: Socket, a: Nets, s2: Socket, b: Nets, r: PollState)
    requires
        poll_called(s, a, s2, b, r),
    ensures
        s.inner matches SocketInner::Udp(u) ==> {
            &&& u.local_addr is None ==> !r.readable && !r.writeable
            &&& u.local_addr is Some ==> r.readable == udp_engine(u, a.inet).rx_waiting
                && r.writeable == !udp_engine(u, a.inet).tx_full
            &&& s2 == s && b == a
        },
        s.inner matches SocketInner::Unix(id) ==> {
            &&& a.unix.ends()[id].data.len() > 0 ==> r.readable
            &&& a.unix.ends()[id].peer is None ==> r.writeable == a.unix.ends()[id].write_shut
        },
{
}

/// Giving up a socket removes its engine and leaves every other one.
pub proof fn released_sockets_are_gone(s: Socket, a: Nets, b: Nets, r: Seq<usize>, h: SocketHandle)
    requires
        socket_released(s, a, b, r),
    ensures
        s.inner matches SocketInner::Udp(u) ==> {
            &&& !b.inet.socks@.contains_key(u.handle)
            &&& h != u.handle ==> b.inet.socks@.contains_key(h) == a.inet.socks@.contains_key(h)
                && (a.inet.socks@.contains_key(h) ==> b.inet.socks@[h] == a.inet.socks@[h])
            &&& r.len() == 0 && b.unix == a.unix
        },
        s.inner matches SocketInner::Tcp(t) ==> {
            &&& t.handle matches Some(own) ==> !b.inet.socks@.contains_key(own)
            &&& t.state == ConnState::Listening ==> !b.inet.table@.contains_key(
                t.local_addr.port as usize,
            )
            &&& t.state != ConnState::Listening ==> b.inet.table@ == a.inet.table@
            &&& r.len() == 0 && b.unix == a.unix
        },
        s.inner is Unix ==> b.inet == a.inet,
{
}

/// Shutting down takes one of three ways, and a datagram socket loses what waits and its port.
pub proof fn shutdowns_go_to_their_kind(
    s: Socket,
    a: Nets,
    s2: Socket,
    b: Nets,
    how: usize,
    r: SysResult<VecDeque<usize>>,
)
    requires
        shutdown_called(s, a, s2, b, how, r),
    ensures
        how > 2 ==> r is Err && r->Err_0 == Errno::EINVAL && s2 == s && b == a,
        how <= 2 ==> (s.inner matches SocketInner::Udp(u) ==> r is Ok && r->Ok_0@.len() == 0
            && udp_engine(u, b.inet).rx.len() == 0 && udp_engine(u, b.inet).endpoint.port == 0),
        how <= 2 ==> (s.inner matches SocketInner::Tcp(t) ==> (r is Ok) == (t.state
            == ConnState::Connected)),
{
}

/// A bound socket keeps everything but its address, and local sockets are bound by name only.
pub proof fn bindings_go_to_their_kind(
    s: Socket,
    a: Nets,
    s2: Socket,
    b: Nets,
    addr: SocketAddr,
    r: SysResult<()>,
)
    requires
        bind_called(s, a, s2, b, addr, r),
    ensures
        s.inner is Unix ==> r == Err::<(), Errno>(Errno::EOPNOTSUPP) && s2 == s && b == a,
        s.inner matches SocketInner::Tcp(t) ==> (r is Ok ==> s2.inner is Tcp
            && s2.inner->Tcp_0.local_addr.addr == endpoint_of(addr).addr && (endpoint_of(addr).port
            != 0 ==> s2.inner->Tcp_0.local_addr.port == endpoint_of(addr).port)),
        s.inner is Udp ==> (r is Ok ==> s2.inner is Udp
            && (s2.inner->Udp_0.local_addr matches Some(e)
            && (endpoint_of(addr).port != 0 ==> e.port == endpoint_of(addr).port))),
{
}

} // verus!
