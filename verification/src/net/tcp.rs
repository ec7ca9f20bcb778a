//! Stream sockets.
//!
//! On top of the state machine of the protocol a socket has a coarse state of
//! its own:
//!
//! ```text
//! CLOSED -- connect() --> CONNECTING -- poll --> CONNECTED or FAILED
//! CLOSED -- listen() --> LISTENING
//! CONNECTED, LISTENING -- close_all() --> CLOSED
//! ```

use crate::errno::{code_of, Errno, SysResult};
use crate::net::addr::{
    endpoint_of, from_sockaddr_to_ipendpoint, is_unspecified, loopback, no_endpoint, unspecified,
    unspecified_endpoint, with_port, Endpoint, IpAddress, ListenEndpoint, SocketAddr, LOOP_BACK_IP,
};
use crate::net::listen::{
    clamped, new_tcp, owns, port_accepted, port_promoted, replenished, sockets_of_port, tcp_taken,
    ListenTableEntry,
};
use crate::net::smol;
use crate::net::smol::{
    is_tcp, smaller, tcp_can_recv, tcp_can_send, tcp_closed, tcp_connecting, tcp_listening,
    tcp_may_recv, tcp_may_send, tcp_of, SocketView, TcpRecvError, TcpState, TcpView,
};
use crate::net::stack::{first_free, found_ports_are_free, port_at, tcp_free, NetStack};
use smoltcp::iface::{Interface, SocketHandle};
use vstd::prelude::*;

verus! {

/// What can be done with a socket without waiting.
#[derive(Debug, Clone, Copy, PartialEq, Eq, Structural)]
pub struct PollState {
    pub readable: bool,
    pub writeable: bool,
}

/// The coarse states of a stream socket.
#[derive(Debug, Clone, Copy, PartialEq, Eq, Structural)]
pub enum ConnState {
    Closed,
    /// Another thread is just changing the state.
    Busy,
    Connected,
    Connecting,
    Listening,
    Failed,
}

pub const SHUT_RD: usize = 0;

pub const SHUT_WR: usize = 1;

pub const SHUT_RDWR: usize = 2;

/// A stream socket.
pub struct TcpSocket {
    pub state: ConnState,
    /// The socket of the protocol engine behind it.
    pub handle: Option<SocketHandle>,
    pub local_addr: Endpoint,
    pub remote_addr: Endpoint,
    pub nonblock: bool,
    pub reuse_addr: bool,
    /// The user has closed the receiving half.
    pub recv_shutdown: bool,
    /// The user has closed the sending half.
    pub send_shutdown: bool,
    /// The code of the error that a connection attempt left behind, or zero.
    pub pending_error: isize,
    pub tcp_keepidle: u64,
    pub tcp_keepintvl: u64,
    pub tcp_keepcnt: u64,
}

/// A socket in its first state.
pub open spec fn fresh_socket() -> TcpSocket {
    TcpSocket {
        state: ConnState::Closed,
        handle: None,
        local_addr: no_endpoint(),
        remote_addr: no_endpoint(),
        nonblock: false,
        reuse_addr: false,
        recv_shutdown: false,
        send_shutdown: false,
        pending_error: 0,
        tcp_keepidle: 0,
        tcp_keepintvl: 0,
        tcp_keepcnt: 0,
    }
}

/// A socket for a connection that was made.
pub open spec fn connected_socket(h: SocketHandle, local: Endpoint, remote: Endpoint) -> TcpSocket {
    TcpSocket {
        state: ConnState::Connected,
        handle: Some(h),
        local_addr: local,
        remote_addr: remote,
        ..fresh_socket()
    }
}

/// The socket after a look at how its connection attempt goes.
pub open spec fn connect_polled(s: TcpSocket, engine: TcpState) -> TcpSocket {
    match engine {
        TcpState::SynSent => s,
        TcpState::Established => TcpSocket {
            state: ConnState::Connected,
            recv_shutdown: false,
            send_shutdown: false,
            pending_error: 0,
            ..s
        },
        _ => TcpSocket {
            state: ConnState::Failed,
            pending_error: code_of(Errno::ECONNREFUSED) as isize,
            local_addr: no_endpoint(),
            remote_addr: no_endpoint(),
            ..s
        },
    }
}

/// Sockets other than this one, which no port has, are neither touched nor
/// taken.
pub open spec fn rest_kept(own: Option<SocketHandle>, a: NetStack, b: NetStack) -> bool {
    forall|h: SocketHandle|
        #[trigger] a.socks@.contains_key(h) && !owns(a.table@, h) && own != Some(h)
            ==> b.socks@.contains_key(h) && b.socks@[h] == a.socks@[h] && !owns(b.table@, h)
}

/// The stack is the same but for its sockets.
pub open spec fn only_sockets_differ(a: NetStack, b: NetStack) -> bool {
    b.table == a.table && b.next_tcp_port == a.next_tcp_port && b.next_udp_port == a.next_udp_port
}

/// The protocol state of the socket.
pub open spec fn engine_of(s: TcpSocket, net: NetStack) -> TcpView {
    tcp_of(net.socks@, s.handle->0)
}

/// The stack with another state behind one handle.
pub open spec fn engine_set(a: NetStack, b: NetStack, h: SocketHandle, v: TcpView) -> bool {
    only_sockets_differ(a, b) && b.socks@ == a.socks@.insert(h, SocketView::Tcp(v))
}

/// The endpoint that the socket uses on its own side: its port, or a chosen one
/// if it has none; its address, or the loopback address if it has none.
pub open spec fn own_endpoint(s: TcpSocket, port: u16) -> Endpoint {
    Endpoint {
        addr: if unspecified(s.local_addr.addr) {
            loopback()
        } else {
            s.local_addr.addr
        },
        port: if s.local_addr.port != 0 {
            s.local_addr.port
        } else {
            port
        },
    }
}

/// The port that is chosen next.
pub open spec fn chosen_port(t: Map<usize, ListenTableEntry>, m: Map<SocketHandle, SocketView>, start: u16) -> u16 {
    port_at(start, first_free(tcp_free(t, m), start, 0)->0)
}

/// A port can be chosen.
pub open spec fn port_left(net: NetStack) -> bool {
    first_free(tcp_free(net.table@, net.socks@), net.next_tcp_port, 0) is Some
}

/// Listening ports are not concerned by a change behind a handle of no port.
pub proof fn table_unconcerned(net: NetStack, h: SocketHandle, m2: Map<SocketHandle, SocketView>)
    requires
        net.wf(),
        !owns(net.table@, h),
        forall|x: SocketHandle|
            #[trigger] net.socks@.contains_key(x) && x != h ==> m2.contains_key(x) && m2[x]
                == net.socks@[x],
    ensures
        net.table.wf(m2),
{
    let t = net.table@;
    let m = net.socks@;
    assert forall|p: usize| #[trigger] t.contains_key(p) implies crate::net::listen::entry_ok(
        t[p],
        m2,
    ) && t[p].endpoint.port == p by {
        let e = t[p];
        assert forall|i: int| 0 <= i < e.listen_handles@.len() implies is_tcp(
            m2,
            #[trigger] e.listen_handles@[i],
        ) by {
            let x = e.listen_handles@[i];
            assert(is_tcp(m, x));
            assert(e.listen_handles@.contains(x));
            assert(crate::net::listen::holds_handle(t[p], x));
            assert(owns(t, x));
        }
        assert forall|i: int| 0 <= i < e.accept_queue@.len() implies is_tcp(
            m2,
            #[trigger] e.accept_queue@[i],
        ) by {
            let x = e.accept_queue@[i];
            assert(is_tcp(m, x));
            assert(e.accept_queue@.contains(x));
            assert(crate::net::listen::holds_handle(t[p], x));
            assert(owns(t, x));
        }
    }
}

/// A socket of a port exists.
pub proof fn owned_handles_exist(net: NetStack, h: SocketHandle)
    requires
        net.wf(),
        owns(net.table@, h),
    ensures
        net.socks@.contains_key(h),
{
    let t = net.table@;
    let p = choose|p: usize| #[trigger]
        t.contains_key(p) && crate::net::listen::holds_handle(t[p], h);
    let e = t[p];
    if e.listen_handles@.contains(h) {
        let i = e.listen_handles@.index_of(h);
        assert(is_tcp(net.socks@, e.listen_handles@[i]));
    } else {
        let i = e.accept_queue@.index_of(h);
        assert(is_tcp(net.socks@, e.accept_queue@[i]));
    }
}

impl TcpSocket {
    /// A socket with a connection, or on the way to one, has a socket of the
    /// engine, which is its own.
    pub open spec fn wf(&self, net: NetStack) -> bool {
        &&& self.state == ConnState::Connected || self.state == ConnState::Connecting
            ==> self.handle is Some
        &&& self.handle matches Some(h) ==> is_tcp(net.socks@, h) && !owns(net.table@, h)
    }

    /// A closed socket.
    pub fn new() -> (r: Self)
        ensures
            r == fresh_socket(),
    {
        TcpSocket {
            state: ConnState::Closed,
            handle: None,
            local_addr: unspecified_endpoint(),
            remote_addr: unspecified_endpoint(),
            nonblock: false,
            reuse_addr: false,
            recv_shutdown: false,
            send_shutdown: false,
            pending_error: 0,
            tcp_keepidle: 0,
            tcp_keepintvl: 0,
            tcp_keepcnt: 0,
        }
    }

    /// A socket for a connection that was made.
    pub fn new_connected(handle: SocketHandle, local_endpoint: Endpoint, remote_endpoint: Endpoint) -> (r:
        Self)
        ensures
            r == connected_socket(handle, local_endpoint, remote_endpoint),
    {
        let mut s = TcpSocket::new();
        s.state = ConnState::Connected;
        s.handle = Some(handle);
        s.local_addr = local_endpoint;
        s.remote_addr = remote_endpoint;
        s
    }

    pub fn is_closed(&self) -> (r: bool)
        ensures
            r == (self.state == ConnState::Closed),
    {
        self.state == ConnState::Closed
    }

    pub fn is_connected(&self) -> (r: bool)
        ensures
            r == (self.state == ConnState::Connected),
    {
        self.state == ConnState::Connected
    }

    pub fn is_connecting(&self) -> (r: bool)
        ensures
            r == (self.state == ConnState::Connecting),
    {
        self.state == ConnState::Connecting
    }

    pub fn is_listening(&self) -> (r: bool)
        ensures
            r == (self.state == ConnState::Listening),
    {
        self.state == ConnState::Listening
    }

    pub fn get_tcp_keepcnt(&self) -> (r: u64)
        ensures
            r == self.tcp_keepcnt,
    {
        self.tcp_keepcnt
    }

    pub fn get_tcp_keepidle(&self) -> (r: u64)
        ensures
            r == self.tcp_keepidle,
    {
        self.tcp_keepidle
    }

    pub fn get_tcp_keepintvl(&self) -> (r: u64)
        ensures
            r == self.tcp_keepintvl,
    {
        self.tcp_keepintvl
    }

    pub fn is_nonblocking(&self) -> (r: bool)
        ensures
            r == self.nonblock,
    {
        self.nonblock
    }

    pub fn is_block(&self) -> (r: bool)
        ensures
            r == !self.nonblock,
    {
        !self.nonblock
    }

    pub fn set_nonblocking(&mut self, block: bool)
        ensures
            *final(self) == (TcpSocket { nonblock: block, ..*old(self) }),
    {
        self.nonblock = block;
    }

    pub fn is_reuse_addr(&self) -> (r: bool)
        ensures
            r == self.reuse_addr,
    {
        self.reuse_addr
    }

    pub fn set_reuse_addr(&mut self, reuse: bool)
        ensures
            *final(self) == (TcpSocket { reuse_addr: reuse, ..*old(self) }),
    {
        self.reuse_addr = reuse;
    }

    /// The local endpoint, unless a connection is being made or has failed.
    pub fn local_addr(&self) -> (r: SysResult<Endpoint>)
        ensures
            r == (match self.state {
                ConnState::Connected | ConnState::Listening | ConnState::Closed => Ok(
                    self.local_addr,
                ),
                _ => Err::<Endpoint, Errno>(Errno::ENOTCONN),
            }),
    {
        match self.state {
            ConnState::Connected | ConnState::Listening | ConnState::Closed => Ok(self.local_addr),
            _ => Err(Errno::ENOTCONN),
        }
    }

    /// The remote endpoint of a connection.
    pub fn remote_addr(&self) -> (r: SysResult<Endpoint>)
        ensures
            r == (if self.state == ConnState::Connected {
                Ok(self.remote_addr)
            } else {
                Err::<Endpoint, Errno>(Errno::ENOTCONN)
            }),
    {
        match self.state {
            ConnState::Connected => Ok(self.remote_addr),
            _ => Err(Errno::ENOTCONN),
        }
    }

    /// Makes sure that there is a socket of the engine.
    fn ensure_handle(&mut self, net: &mut NetStack) -> (h: SocketHandle)
        requires
            old(net).wf(),
            old(self).wf(*old(net)),
        ensures
            final(net).wf(),
            final(self).wf(*final(net)),
            has_handle(*old(self), *old(net), *final(self), *final(net), h),
    {
        let ghost n0 = *net;
        match self.handle {
            Some(h) => {
                proof {
                    assert(net.socks@ =~= n0.socks@.insert(h, n0.socks@[h]));
                }
                h
            },
            None => {
                let h = net.socks.add_tcp();
                self.handle = Some(h);
                proof {
                    if owns(n0.table@, h) {
                        owned_handles_exist(n0, h);
                    }
                    table_unconcerned(n0, h, net.socks@);
                }
                h
            },
        }
    }

    /// The endpoint that the socket uses on its own side.
    fn bound_endpoint(&self, net: &mut NetStack) -> (r: ListenEndpoint)
        requires
            old(net).wf(),
            self.local_addr.port == 0 ==> port_left(*old(net)),
        ensures
            final(net).wf(),
            final(net).socks == old(net).socks,
            final(net).table == old(net).table,
            final(net).next_udp_port == old(net).next_udp_port,
            ({
                let port = chosen_port(old(net).table@, old(net).socks@, old(net).next_tcp_port);
                let own = own_endpoint(*self, port);
                &&& r == (ListenEndpoint { addr: Some(own.addr), port: own.port })
                &&& final(net).next_tcp_port == if self.local_addr.port != 0 {
                    old(net).next_tcp_port
                } else {
                    port_at(port, 1)
                }
            }),
            r.port != 0,
    {
        let port: u16 = if self.local_addr.port != 0 {
            self.local_addr.port
        } else {
            let ghost free = tcp_free(net.table@, net.socks@);
            let ghost start = net.next_tcp_port;
            let found = net.get_ephemeral_port();
            proof {
                found_ports_are_free(free, start, 0);
            }
            match found {
                Some(p) => p,
                None => 0,
            }
        };
        let addr = if is_unspecified(self.local_addr.addr) {
            IpAddress::Ipv4(LOOP_BACK_IP)
        } else {
            self.local_addr.addr
        };
        ListenEndpoint { addr: Some(addr), port }
    }

    /// Looks how a connection attempt goes.
    fn poll_connect(&mut self, net: &NetStack, handle: SocketHandle) -> (r: PollState)
        requires
            is_tcp(net.socks@, handle),
        ensures
            *final(self) == connect_polled(*old(self), tcp_of(net.socks@, handle).state),
            r == (PollState {
                readable: false,
                writeable: tcp_of(net.socks@, handle).state != TcpState::SynSent,
            }),
    {
        let writeable = match smol::tcp_state(&net.socks.set, handle) {
            TcpState::SynSent => false,
            TcpState::Established => {
                self.recv_shutdown = false;
                self.send_shutdown = false;
                self.pending_error = 0;
                self.state = ConnState::Connected;
                true
            },
            _ => {
                self.pending_error = Errno::ECONNREFUSED.code();
                self.local_addr = unspecified_endpoint();
                self.remote_addr = unspecified_endpoint();
                self.state = ConnState::Failed;
                true
            },
        };
        PollState { readable: false, writeable }
    }
}

/// The socket has a socket of the engine: the one it had, or a new one.
pub open spec fn has_handle(
    s: TcpSocket,
    a: NetStack,
    s2: TcpSocket,
    b: NetStack,
    h: SocketHandle,
) -> bool {
    &&& s2 == (TcpSocket { handle: Some(h), ..s })
    &&& only_sockets_differ(a, b)
    &&& b.socks@ == a.socks@.insert(h, SocketView::Tcp(engine_or_new(s, a)))
    &&& match s.handle {
        Some(old_h) => h == old_h,
        None => !a.socks@.contains_key(h),
    }
}

/// What is behind the handle of the socket, or a new socket if it has none.
pub open spec fn engine_or_new(s: TcpSocket, net: NetStack) -> TcpView {
    match s.handle {
        Some(h) => tcp_of(net.socks@, h),
        None => new_tcp(),
    }
}

proof fn same_taken(
    m: Map<SocketHandle, SocketView>,
    h: SocketHandle,
    v: TcpView,
    t: Map<usize, ListenTableEntry>,
)
    requires
        m.contains_key(h) ==> m[h] == SocketView::Tcp(v),
        !m.contains_key(h) ==> v.tuple is None,
    ensures
        tcp_free(t, m.insert(h, SocketView::Tcp(v))) == tcp_free(t, m),
{
    let m2 = m.insert(h, SocketView::Tcp(v));
    assert forall|a: IpAddress, p: u16| tcp_taken(m2, a, p) == #[trigger] tcp_taken(m, a, p) by {
        if tcp_taken(m2, a, p) {
            let x = choose|x: SocketHandle| #[trigger]
                m2.contains_key(x) && crate::net::listen::tcp_bound_to(m2[x], a, p);
            assert(m.contains_key(x) && crate::net::listen::tcp_bound_to(m[x], a, p));
        }
        if tcp_taken(m, a, p) {
            let x = choose|x: SocketHandle| #[trigger]
                m.contains_key(x) && crate::net::listen::tcp_bound_to(m[x], a, p);
            assert(m2.contains_key(x) && crate::net::listen::tcp_bound_to(m2[x], a, p));
        }
    }
    assert(tcp_free(t, m2) =~= tcp_free(t, m));
}

/// What an attempt to connect a closed socket comes to.
pub open spec fn connect_started(
    s: TcpSocket,
    a: NetStack,
    s2: TcpSocket,
    b: NetStack,
    addr: SocketAddr,
    r: SysResult<()>,
) -> bool {
    let h = s2.handle->0;
    let v = engine_or_new(s, a);
    let port = chosen_port(a.table@, a.socks@, a.next_tcp_port);
    let own = own_endpoint(s, port);
    let remote = endpoint_of(addr);
    let ready = TcpSocket {
        handle: Some(h),
        recv_shutdown: false,
        send_shutdown: false,
        ..s
    };
    &&& b.table == a.table
    &&& b.next_udp_port == a.next_udp_port
    &&& b.next_tcp_port == if s.local_addr.port != 0 {
        a.next_tcp_port
    } else {
        port_at(port, 1)
    }
    &&& s2.handle is Some
    &&& match s.handle {
        Some(old_h) => h == old_h,
        None => !a.socks@.contains_key(h),
    }
    &&& if own.port == remote.port || tcp_connecting(v, own, remote) is None {
        &&& r == Err::<(), Errno>(Errno::ECONNREFUSED)
        &&& s2 == ready
        &&& b.socks@ == a.socks@.insert(h, SocketView::Tcp(v))
    } else {
        &&& r == if s.nonblock {
            Err::<(), Errno>(Errno::EINPROGRESS)
        } else {
            Ok(())
        }
        &&& s2 == (TcpSocket {
            state: ConnState::Connecting,
            local_addr: own,
            remote_addr: remote,
            ..ready
        })
        &&& b.socks@ == a.socks@.insert(
            h,
            SocketView::Tcp(tcp_connecting(v, own, remote)->0),
        )
    }
}

/// The socket of a failed attempt after it was made ready for another.
pub open spec fn connect_reset(s: TcpSocket, a: NetStack, s2: TcpSocket, b: NetStack) -> bool {
    &&& s2.handle is Some
    &&& s2 == (TcpSocket {
        state: ConnState::Closed,
        handle: s2.handle,
        local_addr: no_endpoint(),
        remote_addr: no_endpoint(),
        pending_error: 0,
        ..s
    })
    &&& only_sockets_differ(a, b)
    &&& ({
        let m = match s.handle {
            Some(h) => a.socks@.remove(h),
            None => a.socks@,
        };
        !m.contains_key(s2.handle->0) && b.socks@ == m.insert(
            s2.handle->0,
            SocketView::Tcp(new_tcp()),
        )
    })
}

/// Whether an attempt to connect ends with `r`.
pub open spec fn attempt_answer(
    outcome: SysResult<()>,
    deadline_us: Option<usize>,
    r: SysResult<()>,
) -> bool {
    r == (match outcome {
        Ok(_) => Ok::<(), Errno>(()),
        Err(e) => Err(
            if e == Errno::EAGAIN && deadline_us is Some {
                Errno::EINPROGRESS
            } else {
                e
            },
        ),
    })
}

impl TcpSocket {
    fn reset_failed_connect(&mut self, net: &mut NetStack) -> (r: SysResult<()>)
        requires
            old(net).wf(),
            old(self).wf(*old(net)),
        ensures
            final(net).wf(),
            final(self).wf(*final(net)),
            rest_kept(old(self).handle, *old(net), *final(net)),
            if old(self).state != ConnState::Failed {
                &&& r == Err::<(), Errno>(Errno::EALREADY)
                &&& *final(self) == *old(self)
                &&& *final(net) == *old(net)
            } else {
                r is Ok && connect_reset(*old(self), *old(net), *final(self), *final(net))
            },
    {
        match self.state {
            ConnState::Failed => {},
            _ => {
                return Err(Errno::EALREADY);
            },
        }
        let ghost n0 = *net;
        match self.handle {
            Some(h) => {
                net.socks.remove(h);
                proof {
                    table_unconcerned(n0, h, net.socks@);
                }
            },
            None => {},
        }
        let ghost n1 = *net;
        let h = net.socks.add_tcp();
        proof {
            if owns(n1.table@, h) {
                owned_handles_exist(n1, h);
            }
            table_unconcerned(n1, h, net.socks@);
        }
        self.handle = Some(h);
        self.local_addr = unspecified_endpoint();
        self.remote_addr = unspecified_endpoint();
        self.pending_error = 0;
        self.state = ConnState::Closed;
        Ok(())
    }

    /// Starts a connection. On success the request is on its way, and the
    /// caller waits with `connect_ready`. A second call tells how a first one
    /// went.
    pub fn connect(&mut self, net: &mut NetStack, iface: &mut Interface, remote_addr: SocketAddr) -> (r:
        SysResult<()>)
        requires
            old(net).wf(),
            old(self).wf(*old(net)),
            old(self).state == ConnState::Closed && old(self).local_addr.port == 0 ==> port_left(
                *old(net),
            ),
        ensures
            final(net).wf(),
            final(self).wf(*final(net)),
            rest_kept(old(self).handle, *old(net), *final(net)),
            connect_done(*old(self), *old(net), *final(self), *final(net), remote_addr, r),
    {
        match self.state {
            ConnState::Connecting => {
                match self.handle {
                    None => {
                        return Err(Errno::ENOTCONN);
                    },
                    Some(h) => {
                        let _ = self.poll_connect(net, h);
                    },
                }
                return match self.state {
                    ConnState::Connected => Err(Errno::EISCONN),
                    ConnState::Failed => Err(Errno::ECONNREFUSED),
                    _ => Err(Errno::EALREADY),
                };
            },
            ConnState::Connected | ConnState::Listening => {
                return Err(Errno::EISCONN);
            },
            ConnState::Failed => {
                if self.pending_error != 0 {
                    return Err(Errno::ECONNREFUSED);
                }
                match self.reset_failed_connect(net) {
                    Err(e) => {
                        return Err(e);
                    },
                    Ok(_) => {},
                }
                return Err(Errno::ECONNABORTED);
            },
            ConnState::Busy => {
                return Err(Errno::EALREADY);
            },
            ConnState::Closed => {},
        }
        let ghost s0 = *self;
        let ghost n0 = *net;
        let ghost v = engine_or_new(s0, n0);
        let handle = self.ensure_handle(net);
        self.recv_shutdown = false;
        self.send_shutdown = false;
        proof {
            if s0.handle is Some {
                assert(n0.socks@[handle] == SocketView::Tcp(v));
            }
            same_taken(n0.socks@, handle, v, n0.table@);
        }
        let bound = self.bound_endpoint(net);
        let remote = from_sockaddr_to_ipendpoint(remote_addr);
        if bound.port == remote.port {
            return Err(Errno::ECONNREFUSED);
        }
        let ghost n1 = *net;
        if !smol::connect_tcp(
            &mut net.socks.set,
            handle,
            iface,
            smol::to_wire(remote),
            smol::listen_to_wire(bound),
        ) {
            return Err(Errno::ECONNREFUSED);
        }
        proof {
            table_unconcerned(n1, handle, net.socks@);
            assert(net.socks@ =~= n0.socks@.insert(handle, net.socks@[handle]));
        }
        let local = smol::tcp_local(&net.socks.set, handle);
        let peer = smol::tcp_remote(&net.socks.set, handle);
        match local {
            Some(e) => {
                self.local_addr = smol::from_wire(e);
            },
            None => {},
        }
        match peer {
            Some(e) => {
                self.remote_addr = smol::from_wire(e);
            },
            None => {},
        }
        self.state = ConnState::Connecting;
        if self.nonblock {
            return Err(Errno::EINPROGRESS);
        }
        Ok(())
    }

    /// Looks whether a connection that was started is made: `EAGAIN` as long as
    /// that is open.
    pub fn connect_ready(&mut self, net: &NetStack) -> (r: SysResult<()>)
        requires
            old(self).wf(*net),
            old(self).handle is Some,
        ensures
            *final(self) == connect_polled(*old(self), engine_of(*old(self), *net).state),
            r == (match engine_of(*old(self), *net).state {
                TcpState::SynSent => Err::<(), Errno>(Errno::EAGAIN),
                TcpState::Established => Ok(()),
                _ => Err(Errno::ECONNREFUSED),
            }),
    {
        match self.handle {
            None => Err(Errno::ENOTCONN),
            Some(h) => {
                let p = self.poll_connect(net, h);
                if !p.writeable {
                    return Err(Errno::EAGAIN);
                }
                match self.state {
                    ConnState::Connected => Ok(()),
                    _ => Err(Errno::ECONNREFUSED),
                }
            },
        }
    }

    /// Ends the wait for a connection with its outcome. A wait that ran out of
    /// time leaves the attempt under way; an error is reported here and not
    /// again later.
    pub fn connect_finish(&mut self, outcome: SysResult<()>, deadline_us: Option<usize>) -> (r: SysResult<
        (),
    >)
        ensures
            attempt_answer(outcome, deadline_us, r),
            *final(self) == (if outcome is Err {
                TcpSocket { pending_error: 0, ..*old(self) }
            } else {
                *old(self)
            }),
    {
        match outcome {
            Ok(_) => Ok(()),
            Err(e) => {
                self.pending_error = 0;
                match e {
                    Errno::EAGAIN => if deadline_us.is_some() {
                        Err(Errno::EINPROGRESS)
                    } else {
                        Err(e)
                    },
                    _ => Err(e),
                }
            },
        }
    }

    /// Gives the socket a local address. Port zero stands for any free one.
    /// Unless the address may be used twice it must be free.
    pub fn bind(&mut self, net: &mut NetStack, local_addr: SocketAddr) -> (r: SysResult<()>)
        requires
            old(net).wf(),
            old(self).wf(*old(net)),
            endpoint_of(local_addr).port == 0 ==> port_left(*old(net)),
        ensures
            final(net).wf(),
            final(self).wf(*final(net)),
            final(net).socks == old(net).socks,
            final(net).table == old(net).table,
            final(net).next_udp_port == old(net).next_udp_port,
            bind_done(*old(self), *old(net), *final(self), *final(net), local_addr, r),
    {
        match self.state {
            ConnState::Closed => {},
            _ => {
                return Err(Errno::EISCONN);
            },
        }
        if self.local_addr.port != 0 {
            return Err(Errno::EINVAL);
        }
        let mut addr = local_addr;
        if addr.port() == 0 {
            let ghost free = tcp_free(net.table@, net.socks@);
            let ghost start = net.next_tcp_port;
            proof {
                found_ports_are_free(free, start, 0);
            }
            match net.get_ephemeral_port() {
                Some(p) => {
                    addr = addr.with_port(p);
                },
                None => {},
            }
        }
        let e = from_sockaddr_to_ipendpoint(addr);
        if !self.reuse_addr {
            match net.socks.tcp_bind_check(e.addr, e.port) {
                Err(err) => {
                    return Err(err);
                },
                Ok(_) => {},
            }
        }
        self.local_addr = e;
        Ok(())
    }
}

/// What telling a closed socket to listen comes to.
pub open spec fn listen_started(
    s: TcpSocket,
    a: NetStack,
    s2: TcpSocket,
    b: NetStack,
    backlog: usize,
    r: SysResult<()>,
) -> bool {
    let port = chosen_port(a.table@, a.socks@, a.next_tcp_port);
    let own = own_endpoint(s, port);
    let e = ListenEndpoint { addr: Some(own.addr), port: own.port };
    let v = engine_or_new(s, a);
    let bound = TcpSocket { local_addr: Endpoint { port: own.port, ..s.local_addr }, ..s };
    &&& b.next_udp_port == a.next_udp_port
    &&& b.next_tcp_port == if s.local_addr.port != 0 {
        a.next_tcp_port
    } else {
        port_at(port, 1)
    }
    &&& match tcp_listening(v, e) {
        None => {
            &&& r == Err::<(), Errno>(Errno::EADDRINUSE)
            &&& s2 == s
            &&& b.socks@ == a.socks@
            &&& b.table == a.table
        },
        Some(w) => if a.table@.contains_key(own.port as usize) {
            &&& r == Err::<(), Errno>(Errno::EADDRINUSE)
            &&& s2 == bound
            &&& b.table == a.table
            &&& b.socks@ == match s.handle {
                Some(h) => a.socks@.insert(h, SocketView::Tcp(w)),
                None => a.socks@,
            }
        } else {
            let entry = b.table@[own.port as usize];
            let h = entry.listen_handles@[0];
            &&& r is Ok
            &&& s2 == (TcpSocket { state: ConnState::Listening, handle: None, ..bound })
            &&& b.table@ == a.table@.insert(own.port as usize, entry)
            &&& entry.endpoint == e
            &&& entry.queue_limit == clamped(backlog)
            &&& match s.handle {
                Some(old_h) => h == old_h,
                None => !a.socks@.contains_key(h),
            }
            &&& replenished(
                seq![h],
                Seq::empty(),
                a.socks@.insert(h, SocketView::Tcp(w)),
                entry,
                b.socks@,
            )
        },
    }
}

/// What closing a socket for good comes to.
pub open spec fn all_closed(s: TcpSocket, a: NetStack, s2: TcpSocket, b: NetStack) -> bool {
    let done = TcpSocket {
        state: ConnState::Closed,
        local_addr: no_endpoint(),
        recv_shutdown: true,
        send_shutdown: true,
        ..s
    };
    let port = s.local_addr.port as usize;
    &&& b.next_tcp_port == a.next_tcp_port
    &&& b.next_udp_port == a.next_udp_port
    &&& match s.state {
        ConnState::Connected => {
            &&& s2 == done
            &&& engine_set(a, b, s.handle->0, tcp_closed(engine_of(s, a)))
        },
        ConnState::Listening => {
            &&& s2 == done
            &&& b.table@ == a.table@.remove(port)
            &&& b.socks@ == if a.table@.contains_key(port) {
                a.socks@.remove_keys(sockets_of_port(a.table@[port]))
            } else {
                a.socks@
            }
        },
        _ => s2 == s && b == a,
    }
}

impl TcpSocket {
    /// Starts to listen. A port is chosen if none is bound.
    pub fn listen(&mut self, net: &mut NetStack, backlog: usize) -> (r: SysResult<()>)
        requires
            old(net).wf(),
            old(self).wf(*old(net)),
            old(self).state == ConnState::Closed && old(self).local_addr.port == 0 ==> port_left(
                *old(net),
            ),
        ensures
            final(net).wf(),
            final(self).wf(*final(net)),
            rest_kept(old(self).handle, *old(net), *final(net)),
            listen_done(*old(self), *old(net), *final(self), *final(net), backlog, r),
    {
        match self.state {
            ConnState::Closed => {},
            _ => {
                return Err(Errno::EISCONN);
            },
        }
        let ghost s0 = *self;
        let ghost n0 = *net;
        let bound = self.bound_endpoint(net);
        let ghost v = engine_or_new(s0, n0);
        let existing = self.handle;
        let handle = match existing {
            Some(h) => {
                let ghost n1 = *net;
                if !smol::listen_tcp(&mut net.socks.set, h, smol::listen_to_wire(bound)) {
                    return Err(Errno::EADDRINUSE);
                }
                proof {
                    table_unconcerned(n1, h, net.socks@);
                }
                h
            },
            None => {
                let h = net.socks.add_tcp();
                let ghost n1 = *net;
                let started = smol::listen_tcp(&mut net.socks.set, h, smol::listen_to_wire(bound));
                proof {
                    assert(started);
                    if owns(n0.table@, h) {
                        owned_handles_exist(n0, h);
                    }
                    table_unconcerned(n0, h, net.socks@);
                }
                h
            },
        };
        let ghost n2 = *net;
        let ghost w = tcp_listening(v, bound)->0;
        proof {
            assert(n2.socks@ =~= n0.socks@.insert(handle, SocketView::Tcp(w)));
        }
        self.local_addr.port = bound.port;
        match net.table.listen(&mut net.socks, bound, handle, backlog) {
            Err(e) => {
                if existing.is_none() {
                    net.socks.remove(handle);
                    proof {
                        assert(net.socks@ =~= n0.socks@);
                        table_unconcerned(n2, handle, net.socks@);
                    }
                }
                return Err(e);
            },
            Ok(_) => {},
        }
        proof {
            let entry = net.table@[bound.port as usize];
            assert(entry.listen_handles@.take(1)[0] == handle);
            assert(rest_kept(s0.handle, n0, *net)) by {
                assert forall|x: SocketHandle|
                    #[trigger] n0.socks@.contains_key(x) && !owns(n0.table@, x) && s0.handle != Some(
                        x,
                    ) implies net.socks@.contains_key(x) && net.socks@[x] == n0.socks@[x] && !owns(
                    net.table@,
                    x,
                ) by {
                    assert(n2.socks@.contains_key(x));
                }
            }
        }
        self.handle = None;
        self.state = ConnState::Listening;
        Ok(())
    }

    /// Gives up the connection, or stops listening.
    pub fn close_all(&mut self, net: &mut NetStack)
        requires
            old(net).wf(),
            old(self).wf(*old(net)),
        ensures
            final(net).wf(),
            final(self).wf(*final(net)),
            rest_kept(old(self).handle, *old(net), *final(net)),
            all_closed(*old(self), *old(net), *final(self), *final(net)),
    {
        let ghost n0 = *net;
        match self.state {
            ConnState::Connected => {
                match self.handle {
                    Some(h) => {
                        smol::close_tcp(&mut net.socks.set, h);
                        proof {
                            table_unconcerned(n0, h, net.socks@);
                        }
                    },
                    None => {},
                }
                self.local_addr = unspecified_endpoint();
                self.recv_shutdown = true;
                self.send_shutdown = true;
                self.state = ConnState::Closed;
            },
            ConnState::Listening => {
                let port: u16 = self.local_addr.port;
                self.local_addr = unspecified_endpoint();
                self.recv_shutdown = true;
                self.send_shutdown = true;
                net.table.unlisten(&mut net.socks, port);
                self.state = ConnState::Closed;
            },
            _ => {},
        }
    }

    /// Accepts a connection that was made: `EAGAIN` if none waits. A port that
    /// is not open any more closes the socket.
    pub fn accept(&mut self, net: &mut NetStack) -> (r: SysResult<TcpSocket>)
        requires
            old(net).wf(),
            old(self).wf(*old(net)),
        ensures
            final(net).wf(),
            final(self).wf(*final(net)),
            rest_kept(old(self).handle, *old(net), *final(net)),
            r matches Ok(c) ==> c.wf(*final(net)),
            final(net).next_tcp_port == old(net).next_tcp_port,
            final(net).next_udp_port == old(net).next_udp_port,
            accept_done(*old(self), *old(net), *final(self), *final(net), r),
    {
        match self.state {
            ConnState::Listening => {},
            _ => {
                return Err(Errno::EINVAL);
            },
        }
        let port: u16 = self.local_addr.port;
        match net.table.accept(&mut net.socks, port) {
            Ok((h, (local, remote))) => Ok(TcpSocket::new_connected(h, local, remote)),
            Err(e) => {
                match e {
                    Errno::ECONNRESET | Errno::ECONNREFUSED => {
                        self.close_all(net);
                    },
                    _ => {},
                }
                Err(e)
            },
        }
    }

    /// Closes the receiving half, the sending half or both of a connection.
    pub fn shutdown(&mut self, net: &mut NetStack, how: usize) -> (r: SysResult<()>)
        requires
            old(net).wf(),
            old(self).wf(*old(net)),
        ensures
            final(net).wf(),
            final(self).wf(*final(net)),
            rest_kept(old(self).handle, *old(net), *final(net)),
            shutdown_done(*old(self), *old(net), *final(self), *final(net), how, r),
    {
        if how > SHUT_RDWR {
            return Err(Errno::EINVAL);
        }
        match self.state {
            ConnState::Connected => {},
            _ => {
                return Err(Errno::ENOTCONN);
            },
        }
        if how != SHUT_WR {
            self.recv_shutdown = true;
        }
        if how != SHUT_RD {
            self.shutdown_write(net);
        }
        Ok(())
    }

    fn shutdown_write(&mut self, net: &mut NetStack)
        requires
            old(net).wf(),
            old(self).wf(*old(net)),
            old(self).handle is Some,
        ensures
            final(net).wf(),
            *final(self) == (TcpSocket { send_shutdown: true, ..*old(self) }),
            final(self).wf(*final(net)),
            rest_kept(old(self).handle, *old(net), *final(net)),
            if old(self).send_shutdown {
                *final(net) == *old(net)
            } else {
                engine_set(
                    *old(net),
                    *final(net),
                    old(self).handle->0,
                    tcp_closed(engine_of(*old(self), *old(net))),
                )
            },
    {
        let ghost n0 = *net;
        if self.send_shutdown {
            return;
        }
        self.send_shutdown = true;
        match self.handle {
            Some(h) => {
                smol::close_tcp(&mut net.socks.set, h);
                proof {
                    table_unconcerned(n0, h, net.socks@);
                }
            },
            None => {},
        }
    }

    /// Closes the sending half at the engine, whatever the state.
    pub fn close(&mut self, net: &mut NetStack)
        requires
            old(net).wf(),
            old(self).wf(*old(net)),
        ensures
            final(net).wf(),
            *final(self) == *old(self),
            final(self).wf(*final(net)),
            match old(self).handle {
                Some(h) => engine_set(
                    *old(net),
                    *final(net),
                    h,
                    tcp_closed(engine_of(*old(self), *old(net))),
                ),
                None => *final(net) == *old(net),
            },
    {
        let ghost n0 = *net;
        match self.handle {
            Some(h) => {
                smol::close_tcp(&mut net.socks.set, h);
                proof {
                    table_unconcerned(n0, h, net.socks@);
                }
            },
            None => {},
        }
    }

    /// Ends the life of the socket: it is closed and its socket of the engine
    /// dropped.
    pub fn release(self, net: &mut NetStack)
        requires
            old(net).wf(),
            self.wf(*old(net)),
        ensures
            final(net).wf(),
            rest_kept(self.handle, *old(net), *final(net)),
            stream_released(self, *old(net), *final(net)),
    {
        let mut s = self;
        let ghost n0 = *net;
        s.close_all(net);
        let ghost n1 = *net;
        match s.handle {
            Some(h) => {
                net.socks.remove(h);
                proof {
                    table_unconcerned(n1, h, net.socks@);
                    assert(n0.socks@.insert(h, n1.socks@[h]).remove(h) =~= n0.socks@.remove(h));
                }
            },
            None => {},
        }
    }

    /// What receiving comes to without looking at the connection: nothing is
    /// asked for, there is none yet or none at all, or the receiving half was
    /// closed.
    pub fn recv_check(&self, len: usize) -> (r: Option<SysResult<usize>>)
        ensures
            r == stream_recv_check(*self, len),
    {
        if len == 0 {
            return Some(Ok(0));
        }
        match self.state {
            ConnState::Connecting => {
                return Some(Err(Errno::EAGAIN));
            },
            ConnState::Connected => {},
            _ => {
                return Some(Err(Errno::ENOTCONN));
            },
        }
        if self.recv_shutdown {
            return Some(Ok(0));
        }
        None
    }

    /// Receives what is there, at most `len` bytes; with `peek` the bytes stay,
    /// and at least `peek_min_len` must be there as long as more can come.
    /// Without bytes it is the end if no more can come, and `EAGAIN` otherwise.
    pub fn recv_once(&self, net: &mut NetStack, len: usize, peek: bool, peek_min_len: usize) -> (r:
        SysResult<Vec<u8>>)
        requires
            old(net).wf(),
            self.wf(*old(net)),
            self.handle is Some,
        ensures
            final(net).wf(),
            self.wf(*final(net)),
            rest_kept(self.handle, *old(net), *final(net)),
            recv_once_done(*self, *old(net), *final(net), len, peek, peek_min_len, r),
    {
        let ghost n0 = *net;
        let h = match self.handle {
            Some(h) => h,
            None => {
                return Err(Errno::ENOTCONN);
            },
        };
        let queued: usize = smol::recv_queue(&net.socks.set, h);
        if queued > 0 {
            if peek && queued < peek_min_len && smol::may_recv(&net.socks.set, h) {
                return Err(Errno::EAGAIN);
            }
            if peek {
                let data = smol::peek_slice(&mut net.socks.set, h, len);
                proof {
                    assert(net.socks@ =~= n0.socks@.insert(h, n0.socks@[h]));
                }
                return Ok(data);
            }
            match smol::recv_slice(&mut net.socks.set, h, len) {
                Ok(data) => {
                    proof {
                        table_unconcerned(n0, h, net.socks@);
                    }
                    Ok(data)
                },
                Err(TcpRecvError::Finished) => Err(Errno::ECONNRESET),
                Err(TcpRecvError::InvalidState) => Err(Errno::ENOTCONN),
            }
        } else if !smol::may_recv(&net.socks.set, h) {
            Ok(Vec::new())
        } else if !smol::tcp_is_active(&net.socks.set, h) {
            Err(Errno::ECONNREFUSED)
        } else {
            Err(Errno::EAGAIN)
        }
    }

    /// What sending comes to without looking at the connection: there is none
    /// yet or none at all, or the sending half was closed.
    pub fn send_check(&self) -> (r: SysResult<()>)
        ensures
            r == stream_send_check(*self),
    {
        match self.state {
            ConnState::Connecting => {
                return Err(Errno::EAGAIN);
            },
            ConnState::Connected => {},
            _ => {
                return Err(Errno::ENOTCONN);
            },
        }
        if self.send_shutdown {
            return Err(Errno::EPIPE);
        }
        Ok(())
    }

    /// Sends as much as there is room for: `EPIPE` if the sending half is
    /// closed, `EAGAIN` if there is no room.
    pub fn send(&self, net: &mut NetStack, buf: &[u8]) -> (r: SysResult<usize>)
        requires
            old(net).wf(),
            self.wf(*old(net)),
            self.handle is Some,
        ensures
            final(net).wf(),
            self.wf(*final(net)),
            rest_kept(self.handle, *old(net), *final(net)),
            send_done(*self, *old(net), *final(net), buf@, r),
    {
        let ghost n0 = *net;
        let h = match self.handle {
            Some(h) => h,
            None => {
                return Err(Errno::ENOTCONN);
            },
        };
        if !smol::tcp_is_active(&net.socks.set, h) || !smol::may_send(&net.socks.set, h) {
            return Err(Errno::EPIPE);
        }
        if smol::can_send(&net.socks.set, h) {
            match smol::send_slice(&mut net.socks.set, h, buf) {
                Some(n) => {
                    proof {
                        table_unconcerned(n0, h, net.socks@);
                    }
                    Ok(n)
                },
                None => Err(Errno::EPIPE),
            }
        } else {
            Err(Errno::EAGAIN)
        }
    }

    /// What can be done with the socket without waiting. A connection attempt is
    /// looked at, and the connections of a listening port are queued.
    pub fn poll(&mut self, net: &mut NetStack) -> (r: PollState)
        requires
            old(net).wf(),
            old(self).wf(*old(net)),
        ensures
            final(net).wf(),
            final(self).wf(*final(net)),
            rest_kept(old(self).handle, *old(net), *final(net)),
            final(net).next_tcp_port == old(net).next_tcp_port,
            final(net).next_udp_port == old(net).next_udp_port,
            poll_done(*old(self), *old(net), *final(self), *final(net), r),
    {
        match self.state {
            ConnState::Listening => {
                let readable = net.table.can_accept(&mut net.socks, self.local_addr.port);
                PollState { readable, writeable: false }
            },
            ConnState::Connecting => match self.handle {
                Some(h) => self.poll_connect(net, h),
                None => PollState { readable: false, writeable: false },
            },
            ConnState::Connected => self.poll_stream(net),
            ConnState::Failed => PollState { readable: false, writeable: true },
            _ => PollState { readable: false, writeable: false },
        }
    }

    fn poll_stream(&self, net: &NetStack) -> (r: PollState)
        requires
            self.wf(*net),
            self.handle is Some,
        ensures
            r == stream_poll(*self, engine_of(*self, *net)),
    {
        let h = match self.handle {
            Some(h) => h,
            None => {
                return PollState { readable: false, writeable: false };
            },
        };
        let mut readable = !smol::may_recv(&net.socks.set, h) || smol::recv_queue(&net.socks.set, h)
            > 0;
        let mut writeable = !smol::may_send(&net.socks.set, h) || smol::can_send(&net.socks.set, h);
        readable = readable || self.recv_shutdown;
        writeable = writeable || self.send_shutdown;
        if !readable && !writeable {
            readable = true;
        }
        PollState { readable, writeable }
    }

    fn look_at_attempt(&mut self, net: &NetStack)
        requires
            old(self).wf(*net),
        ensures
            *final(self) == looked_at(*old(self), *net),
            final(self).wf(*net),
    {
        match self.state {
            ConnState::Connecting => match self.handle {
                Some(h) => {
                    let _ = self.poll_connect(net, h);
                },
                None => {},
            },
            _ => {},
        }
    }

    /// Returns the error that a connection attempt left behind, and forgets it.
    pub fn take_error(&mut self, net: &NetStack) -> (r: i32)
        requires
            old(self).wf(*net),
        ensures
            r == looked_at(*old(self), *net).pending_error as i32,
            *final(self) == (TcpSocket { pending_error: 0, ..looked_at(*old(self), *net) }),
    {
        self.look_at_attempt(net);
        let e: i32 = self.pending_error as i32;
        self.pending_error = 0;
        e
    }

    /// Tells whether a connection attempt left an error behind.
    pub fn has_pending_error(&mut self, net: &NetStack) -> (r: bool)
        requires
            old(self).wf(*net),
        ensures
            r == (looked_at(*old(self), *net).pending_error != 0),
            *final(self) == looked_at(*old(self), *net),
    {
        self.look_at_attempt(net);
        self.pending_error != 0
    }

    /// Turns the bundling of small segments on or off.
    pub fn set_nagle_enabled(&mut self, net: &mut NetStack, enable: bool)
        requires
            old(net).wf(),
            old(self).wf(*old(net)),
        ensures
            final(net).wf(),
            final(self).wf(*final(net)),
            rest_kept(old(self).handle, *old(net), *final(net)),
            engine_changed(*old(self), *old(net), *final(self), *final(net)),
            engine_of(*final(self), *final(net)) == (TcpView {
                nagle: enable,
                ..engine_or_new(*old(self), *old(net))
            }),
    {
        let ghost n0 = *net;
        let h = self.ensure_handle(net);
        let ghost n1 = *net;
        smol::set_nagle(&mut net.socks.set, h, enable);
        proof {
            table_unconcerned(n1, h, net.socks@);
            assert(net.socks@ =~= n0.socks@.insert(h, net.socks@[h]));
        }
    }

    /// Tells whether small segments are bundled; a socket without one of the
    /// engine would do so.
    pub fn nagle_enabled(&self, net: &NetStack) -> (r: bool)
        requires
            self.wf(*net),
        ensures
            r == (match self.handle {
                Some(h) => tcp_of(net.socks@, h).nagle,
                None => true,
            }),
    {
        match self.handle {
            Some(h) => smol::nagle(&net.socks.set, h),
            None => true,
        }
    }

    /// Makes sure that there is a socket of the engine to keep alive. How often
    /// the engine probes is left as it is.
    pub fn set_keep_alive(&mut self, net: &mut NetStack)
        requires
            old(net).wf(),
            old(self).wf(*old(net)),
        ensures
            final(net).wf(),
            final(self).wf(*final(net)),
            final(self).handle is Some,
            has_handle(*old(self), *old(net), *final(self), *final(net), final(self).handle->0),
    {
        let _ = self.ensure_handle(net);
    }

    /// Limits the number of hops of outgoing packets.
    pub fn set_hop_limit(&mut self, net: &mut NetStack, limit: u8) -> (r: SysResult<()>)
        requires
            old(net).wf(),
            old(self).wf(*old(net)),
            limit != 0,
        ensures
            r is Ok,
            final(net).wf(),
            final(self).wf(*final(net)),
            rest_kept(old(self).handle, *old(net), *final(net)),
            engine_changed(*old(self), *old(net), *final(self), *final(net)),
            engine_of(*final(self), *final(net)) == (TcpView {
                hop_limit: Some(limit),
                ..engine_or_new(*old(self), *old(net))
            }),
    {
        let ghost n0 = *net;
        let h = self.ensure_handle(net);
        let ghost n1 = *net;
        smol::set_tcp_hop_limit(&mut net.socks.set, h, limit);
        proof {
            table_unconcerned(n1, h, net.socks@);
            assert(net.socks@ =~= n0.socks@.insert(h, net.socks@[h]));
        }
        Ok(())
    }
}

/// Only what is behind the handle has changed, and the handle is the one the
/// socket had, or a new one.
pub open spec fn engine_changed(s: TcpSocket, a: NetStack, s2: TcpSocket, b: NetStack) -> bool {
    &&& s2.handle is Some
    &&& s2 == (TcpSocket { handle: s2.handle, ..s })
    &&& only_sockets_differ(a, b)
    &&& b.socks@ == a.socks@.insert(s2.handle->0, b.socks@[s2.handle->0])
    &&& match s.handle {
        Some(h) => s2.handle == Some(h),
        None => !a.socks@.contains_key(s2.handle->0),
    }
}

/// The socket after a look at its connection attempt, if there is one.
pub open spec fn looked_at(s: TcpSocket, net: NetStack) -> TcpSocket {
    if s.state == ConnState::Connecting && s.handle is Some {
        connect_polled(s, engine_of(s, net).state)
    } else {
        s
    }
}

/// What can be done with a connection without waiting. A half that is closed
/// does not make anyone wait. A socket that can do neither counts as readable.
pub open spec fn stream_poll(s: TcpSocket, v: TcpView) -> PollState {
    let r = !tcp_may_recv(v) || tcp_can_recv(v) || s.recv_shutdown;
    let w = !tcp_may_send(v) || tcp_can_send(v) || s.send_shutdown;
    PollState { readable: r || !w, writeable: w }
}

/// What receiving comes to.
pub enum RecvOutcome {
    Data,
    End,
    Fail(Errno),
}

/// What receiving from a connection comes to.
pub open spec fn recv_outcome(v: TcpView, peek: bool, peek_min_len: usize) -> RecvOutcome {
    if v.rx.len() > 0 {
        if peek && v.rx.len() < peek_min_len {
            RecvOutcome::Fail(Errno::EAGAIN)
        } else {
            RecvOutcome::Data
        }
    } else if !tcp_may_recv(v) {
        RecvOutcome::End
    } else {
        RecvOutcome::Fail(Errno::EAGAIN)
    }
}

/// How an operation that may wait goes on after an attempt.
#[derive(Debug, Clone, Copy, PartialEq, Eq, Structural)]
pub enum BlockStep {
    /// The outcome of the attempt is that of the operation.
    Finish,
    /// The thread is put on the list of those that network events wake, and the
    /// attempt repeated, so that no event in between is missed.
    Retry,
    /// The thread sleeps until an event or this time, and starts again.
    Sleep(usize),
}

/// The longest sleep without another look, in microseconds.
pub const FALLBACK_US: usize = 1000;

/// What follows an attempt that ended with this error, or with none.
pub open spec fn block_step(
    waits: bool,
    second: bool,
    error: Option<Errno>,
    deadline_us: Option<usize>,
    now_us: usize,
) -> BlockStep {
    if !waits || error != Some(Errno::EAGAIN) {
        BlockStep::Finish
    } else if !second {
        BlockStep::Retry
    } else {
        let fallback = if now_us + FALLBACK_US > usize::MAX {
            usize::MAX
        } else {
            (now_us + FALLBACK_US) as usize
        };
        match deadline_us {
            Some(d) => if now_us >= d {
                BlockStep::Finish
            } else if d < fallback {
                BlockStep::Sleep(d)
            } else {
                BlockStep::Sleep(fallback)
            },
            None => BlockStep::Sleep(fallback),
        }
    }
}

/// Decides what follows an attempt: anything but `EAGAIN` ends the operation,
/// and so does `EAGAIN` where nobody waits or the time is up.
pub fn block_on(
    waits: bool,
    second: bool,
    error: Option<Errno>,
    deadline_us: Option<usize>,
    now_us: usize,
) -> (r: BlockStep)
    ensures
        r == block_step(waits, second, error, deadline_us, now_us),
{
    let again = match error {
        Some(Errno::EAGAIN) => true,
        _ => false,
    };
    if !waits || !again {
        return BlockStep::Finish;
    }
    if !second {
        return BlockStep::Retry;
    }
    let fallback: usize = now_us.saturating_add(FALLBACK_US);
    match deadline_us {
        Some(d) => {
            if now_us >= d {
                return BlockStep::Finish;
            }
            if d < fallback {
                BlockStep::Sleep(d)
            } else {
                BlockStep::Sleep(fallback)
            }
        },
        None => BlockStep::Sleep(fallback),
    }
}

/// How a receive goes about its bytes.
#[derive(Debug, Clone, Copy, PartialEq, Eq, Structural)]
pub enum RecvMode {
    /// What is there is enough.
    Once,
    /// All bytes must be there, and stay.
    PeekAll,
    /// Bytes are taken until all are there.
    All,
}

/// Whether a reception goes on as `r`.
pub open spec fn mode_chosen(
    s: TcpSocket,
    per_call_nonblocking: bool,
    peek: bool,
    waitall: bool,
    r: RecvMode,
) -> bool {
    r == (if !waitall || per_call_nonblocking || s.nonblock {
        RecvMode::Once
    } else if peek {
        RecvMode::PeekAll
    } else {
        RecvMode::All
    })
}

impl TcpSocket {
    /// Decides how a receive goes about its bytes. Only a socket that waits can
    /// wait for all of them.
    pub fn recv_mode(&self, per_call_nonblocking: bool, peek: bool, waitall: bool) -> (r: RecvMode)
        ensures
            mode_chosen(*self, per_call_nonblocking, peek, waitall, r),
    {
        if !waitall || per_call_nonblocking || self.nonblock {
            RecvMode::Once
        } else if peek {
            RecvMode::PeekAll
        } else {
            RecvMode::All
        }
    }
}

/// What looking at the whole of a request returns after a second look.
pub open spec fn peek_answer(first: SysResult<usize>, retry: SysResult<usize>) -> SysResult<usize> {
    match first {
        Err(e) => if e == Errno::EAGAIN || e == Errno::EINTR {
            match retry {
                Ok(n) => if n > 0 {
                    Ok::<usize, Errno>(n)
                } else {
                    Err(e)
                },
                Err(_) => Err(e),
            }
        } else {
            Err(e)
        },
        Ok(n) => Ok(n),
    }
}

/// The outcome of peeking at all bytes: where that ran out of time or was
/// interrupted, `retry` is what is there now, and counts if it is anything.
pub fn peek_all_result(first: SysResult<usize>, retry: SysResult<usize>) -> (r: SysResult<usize>)
    ensures
        r == peek_answer(first, retry),
{
    match first {
        Ok(n) => Ok(n),
        Err(e) => match e {
            Errno::EAGAIN | Errno::EINTR => match retry {
                Ok(n) => if n > 0 {
                    Ok(n)
                } else {
                    Err(e)
                },
                Err(_) => Err(e),
            },
            _ => Err(e),
        },
    }
}

/// A receive that takes bytes until all are there.
#[derive(Debug, Clone, Copy, PartialEq, Eq, Structural)]
pub struct RecvAll {
    pub len: usize,
    pub total: usize,
}

/// Whether a piece takes the reception of a whole from `before` to `after` and ends it as `r`.
pub open spec fn piece_added(
    before: RecvAll,
    after: RecvAll,
    got: SysResult<usize>,
    r: Option<SysResult<usize>>,
) -> bool {
    match got {
        Ok(n) => {
            &&& after.total == before.total + n
            &&& r == if n == 0 || after.total == after.len {
                Some(Ok::<usize, Errno>(after.total))
            } else {
                None
            }
        },
        Err(e) => {
            &&& after == before
            &&& r == if before.total > 0 {
                Some(Ok::<usize, Errno>(before.total))
            } else {
                Some(Err(e))
            }
        },
    }
}

impl RecvAll {
    /// Takes note of one more piece: the end of the data, or an error after the
    /// first bytes, ends the receive with what is there.
    pub fn piece(&mut self, got: SysResult<usize>) -> (r: Option<SysResult<usize>>)
        requires
            old(self).total <= old(self).len,
            got matches Ok(n) ==> n <= old(self).len - old(self).total,
        ensures
            final(self).len == old(self).len,
            final(self).total <= final(self).len,
            piece_added(*old(self), *final(self), got, r),
    {
        match got {
            Ok(n) => {
                self.total = self.total + n;
                if n == 0 || self.total >= self.len {
                    Some(Ok(self.total))
                } else {
                    None
                }
            },
            Err(e) => if self.total > 0 {
                Some(Ok(self.total))
            } else {
                Some(Err(e))
            },
        }
    }
}

/// Two receives in a row take what one of both lengths would.
pub proof fn received_bytes_keep_their_order(v: TcpView, a: nat, b: nat)
    requires
        a <= v.rx.len(),
    ensures
        ({
            let m = smaller(v.rx.len() - a, b as int);
            let both = smaller(v.rx.len() as int, (a + b) as int);
            v.rx.take(a as int) + v.rx.skip(a as int).take(m) == v.rx.take(both)
        }),
{
    let m = smaller(v.rx.len() - a, b as int);
    let both = smaller(v.rx.len() as int, (a + b) as int);
    assert(v.rx.take(a as int) + v.rx.skip(a as int).take(m) =~= v.rx.take(both));
}

/// The error of a failed attempt is reported once.
pub proof fn errors_are_taken_once(s: TcpSocket, net: NetStack)
    ensures
        ({
            let after = TcpSocket { pending_error: 0, ..looked_at(s, net) };
            after.state != ConnState::Connecting ==> looked_at(after, net).pending_error == 0
        }),
{
}

/// A look at a connection attempt never takes a socket anywhere but to its goal
/// or to failure, and there it stays.
pub proof fn attempts_end_connected_or_failed(s: TcpSocket, engine: TcpState)
    requires
        s.state == ConnState::Connecting,
    ensures
        ({
            let t = connect_polled(s, engine).state;
            &&& t == ConnState::Connecting <==> engine == TcpState::SynSent
            &&& t == ConnState::Connected <==> engine == TcpState::Established
            &&& t == ConnState::Connecting || t == ConnState::Connected || t == ConnState::Failed
        }),
{
}

/// A wait with a limit never goes past it, and one without ends only with an
/// outcome.
pub proof fn sleeps_end_in_time(
    second: bool,
    error: Option<Errno>,
    deadline_us: Option<usize>,
    now_us: usize,
)
    ensures
        block_step(true, second, error, deadline_us, now_us) matches BlockStep::Sleep(t) ==> t
            <= now_us + FALLBACK_US && (deadline_us matches Some(d) ==> t <= d),
        block_step(true, second, Some(Errno::EAGAIN), None, now_us) != BlockStep::Finish,
{
}

/// Closing a half twice is closing it once.
pub proof fn closing_twice_is_closing_once(v: TcpView)
    ensures
        tcp_closed(v).state != TcpState::Established,
        !tcp_may_send(tcp_closed(v)),
        tcp_closed(tcp_closed(v)) == tcp_closed(v),
{
}

/// What telling a socket to listen comes to.
pub open spec fn listen_done(
    s: TcpSocket,
    a: NetStack,
    s2: TcpSocket,
    b: NetStack,
    backlog: usize,
    r: SysResult<()>,
) -> bool {
    if s.state != ConnState::Closed {
        r == Err::<(), Errno>(Errno::EISCONN) && s2 == s && b == a
    } else {
        listen_started(s, a, s2, b, backlog, r)
    }
}

/// What an attempt to connect comes to.
pub open spec fn connect_done(
    s: TcpSocket,
    a: NetStack,
    s2: TcpSocket,
    b: NetStack,
    addr: SocketAddr,
    r: SysResult<()>,
) -> bool {
    match s.state {
        ConnState::Closed => connect_started(s, a, s2, b, addr, r),
        ConnState::Connecting => {
            let engine = engine_of(s, a).state;
            &&& b == a
            &&& s2 == connect_polled(s, engine)
            &&& r == Err::<(), Errno>(
                match engine {
                    TcpState::SynSent => Errno::EALREADY,
                    TcpState::Established => Errno::EISCONN,
                    _ => Errno::ECONNREFUSED,
                },
            )
        },
        ConnState::Connected | ConnState::Listening => r == Err::<(), Errno>(Errno::EISCONN) && s2 == s
            && b == a,
        ConnState::Failed => if s.pending_error != 0 {
            r == Err::<(), Errno>(Errno::ECONNREFUSED) && s2 == s && b == a
        } else {
            r == Err::<(), Errno>(Errno::ECONNABORTED) && connect_reset(s, a, s2, b)
        },
        ConnState::Busy => r == Err::<(), Errno>(Errno::EALREADY) && s2 == s && b == a,
    }
}

/// What giving a socket a local address comes to.
pub open spec fn bind_done(
    s: TcpSocket,
    a: NetStack,
    s2: TcpSocket,
    b: NetStack,
    addr: SocketAddr,
    r: SysResult<()>,
) -> bool {
    let unusable = s.state != ConnState::Closed || s.local_addr.port != 0;
    let chosen = endpoint_of(addr).port == 0;
    let port = chosen_port(a.table@, a.socks@, a.next_tcp_port);
    let e = Endpoint {
        addr: endpoint_of(addr).addr,
        port: if chosen {
            port
        } else {
            endpoint_of(addr).port
        },
    };
    let taken = !s.reuse_addr && tcp_taken(a.socks@, e.addr, e.port);
    &&& b.next_tcp_port == if !unusable && chosen {
        port_at(port, 1)
    } else {
        a.next_tcp_port
    }
    &&& r == if s.state != ConnState::Closed {
        Err::<(), Errno>(Errno::EISCONN)
    } else if s.local_addr.port != 0 {
        Err(Errno::EINVAL)
    } else if taken {
        Err(Errno::EADDRINUSE)
    } else {
        Ok(())
    }
    &&& s2 == if r is Ok {
        TcpSocket { local_addr: e, ..s }
    } else {
        s
    }
}

/// What accepting a connection comes to.
pub open spec fn accept_done(
    s: TcpSocket,
    a: NetStack,
    s2: TcpSocket,
    b: NetStack,
    r: SysResult<TcpSocket>,
) -> bool {
    let port = s.local_addr.port as usize;
    if s.state != ConnState::Listening {
        r is Err && r->Err_0 == Errno::EINVAL && s2 == s && b == a
    } else if !a.table@.contains_key(port) {
        r is Err && r->Err_0 == Errno::ECONNREFUSED && all_closed(s, a, s2, b)
    } else {
        &&& s2 == s
        &&& match r {
            Ok(c) => {
                &&& c == connected_socket(c.handle->0, c.local_addr, c.remote_addr)
                &&& port_accepted(
                    port,
                    a.table@,
                    a.socks@,
                    b.table@,
                    b.socks@,
                    Ok((c.handle->0, (c.local_addr, c.remote_addr))),
                )
            },
            Err(e) => port_accepted(port, a.table@, a.socks@, b.table@, b.socks@, Err(e)),
        }
    }
}

/// What closing halves of a connection comes to.
pub open spec fn shutdown_done(
    s: TcpSocket,
    a: NetStack,
    s2: TcpSocket,
    b: NetStack,
    how: usize,
    r: SysResult<()>,
) -> bool {
    if how > SHUT_RDWR {
        r == Err::<(), Errno>(Errno::EINVAL) && s2 == s && b == a
    } else if s.state != ConnState::Connected {
        r == Err::<(), Errno>(Errno::ENOTCONN) && s2 == s && b == a
    } else {
        &&& r is Ok
        &&& s2 == (TcpSocket {
            recv_shutdown: s.recv_shutdown || how != SHUT_WR,
            send_shutdown: s.send_shutdown || how != SHUT_RD,
            ..s
        })
        &&& if how != SHUT_RD && !s.send_shutdown {
            engine_set(a, b, s.handle->0, tcp_closed(engine_of(s, a)))
        } else {
            b == a
        }
    }
}

/// What looking at a socket comes to.
pub open spec fn poll_done(s: TcpSocket, a: NetStack, s2: TcpSocket, b: NetStack, r: PollState) -> bool {
    match s.state {
        ConnState::Listening => {
            let port = s.local_addr.port as usize;
            &&& s2 == s
            &&& port_promoted(port, a.table@, a.socks@, b.table@, b.socks@)
            &&& !r.writeable
            &&& r.readable == (b.table@.contains_key(port) && b.table@[port].accept_queue@.len() > 0)
        },
        ConnState::Connecting => {
            let engine = engine_of(s, a).state;
            &&& b == a
            &&& s2 == connect_polled(s, engine)
            &&& r == (PollState { readable: false, writeable: engine != TcpState::SynSent })
        },
        ConnState::Connected => b == a && s2 == s && r == stream_poll(s, engine_of(s, a)),
        st => b == a && s2 == s && r == (PollState {
            readable: false,
            writeable: st == ConnState::Failed,
        }),
    }
}

/// What one attempt to receive comes to.
pub open spec fn recv_once_done(
    s: TcpSocket,
    a: NetStack,
    b: NetStack,
    len: usize,
    peek: bool,
    peek_min_len: usize,
    r: SysResult<Vec<u8>>,
) -> bool {
    let v = engine_of(s, a);
    let n = smaller(v.rx.len() as int, len as int);
    match recv_outcome(v, peek, peek_min_len) {
        RecvOutcome::Fail(e) => r is Err && r->Err_0 == e && b.socks@ == a.socks@
            && only_sockets_differ(a, b),
        RecvOutcome::End => r is Ok && r->Ok_0@.len() == 0 && b.socks@ == a.socks@
            && only_sockets_differ(a, b),
        RecvOutcome::Data => {
            &&& r is Ok
            &&& r->Ok_0@ == v.rx.take(n)
            &&& engine_set(
                a,
                b,
                s.handle->0,
                TcpView {
                    rx: if peek {
                        v.rx
                    } else {
                        v.rx.skip(n)
                    },
                    ..v
                },
            )
        },
    }
}

/// What one attempt to send comes to.
pub open spec fn send_done(s: TcpSocket, a: NetStack, b: NetStack, buf: Seq<u8>, r: SysResult<usize>) -> bool {
    let v = engine_of(s, a);
    let n = smaller(v.tx_cap - v.tx.len(), buf.len() as int);
    if tcp_can_send(v) {
        &&& r == Ok::<usize, Errno>(n as usize)
        &&& 0 <= n <= buf.len()
        &&& engine_set(a, b, s.handle->0, TcpView { tx: v.tx + buf.take(n), ..v })
    } else {
        &&& r == Err::<usize, Errno>(
            if tcp_may_send(v) {
                Errno::EAGAIN
            } else {
                Errno::EPIPE
            },
        )
        &&& b == a
    }
}

/// What receiving comes to without looking at the connection.
pub open spec fn stream_recv_check(s: TcpSocket, len: usize) -> Option<SysResult<usize>> {
    if len == 0 {
        Some(Ok(0))
    } else if s.state == ConnState::Connecting {
        Some(Err(Errno::EAGAIN))
    } else if s.state != ConnState::Connected {
        Some(Err(Errno::ENOTCONN))
    } else if s.recv_shutdown {
        Some(Ok(0))
    } else {
        None
    }
}

/// What sending comes to without looking at the connection.
pub open spec fn stream_send_check(s: TcpSocket) -> SysResult<()> {
    if s.state == ConnState::Connecting {
        Err(Errno::EAGAIN)
    } else if s.state != ConnState::Connected {
        Err(Errno::ENOTCONN)
    } else if s.send_shutdown {
        Err(Errno::EPIPE)
    } else {
        Ok(())
    }
}

/// The ways a socket goes from state to state: it starts to connect or listen
/// while it is closed, an attempt to connect succeeds or fails, and whatever was
/// open or has failed can be closed.
pub open spec fn may_become(a: ConnState, b: ConnState) -> bool {
    ||| a == b
    ||| a == ConnState::Closed && (b == ConnState::Connecting || b == ConnState::Listening)
    ||| a == ConnState::Connecting && (b == ConnState::Connected || b == ConnState::Failed)
    ||| (a == ConnState::Connected || a == ConnState::Listening || a == ConnState::Failed) && b
        == ConnState::Closed
}

/// No operation takes a socket from one state to another in any other way.
pub proof fn states_follow_each_other(
    s: TcpSocket,
    a: NetStack,
    s2: TcpSocket,
    b: NetStack,
    addr: SocketAddr,
    n: usize,
    p: PollState,
    accepted: SysResult<TcpSocket>,
    r: SysResult<()>,
)
    requires
        ({
            ||| connect_done(s, a, s2, b, addr, r)
            ||| bind_done(s, a, s2, b, addr, r)
            ||| listen_done(s, a, s2, b, n, r)
            ||| accept_done(s, a, s2, b, accepted)
            ||| shutdown_done(s, a, s2, b, n, r)
            ||| poll_done(s, a, s2, b, p)
            ||| all_closed(s, a, s2, b)
        }),
    ensures
        may_become(s.state, s2.state),
{
}

/// What ending the life of a socket comes to: a listening port goes with all its
/// sockets, and so does the socket itself.
pub open spec fn stream_released(s: TcpSocket, a: NetStack, b: NetStack) -> bool {
    let port = s.local_addr.port as usize;
    let left = if s.state == ConnState::Listening && a.table@.contains_key(port) {
        a.socks@.remove_keys(sockets_of_port(a.table@[port]))
    } else {
        a.socks@
    };
    &&& b.next_tcp_port == a.next_tcp_port
    &&& b.next_udp_port == a.next_udp_port
    &&& b.table@ == (if s.state == ConnState::Listening {
        a.table@.remove(port)
    } else {
        a.table@
    })
    &&& b.socks@ == match s.handle {
        Some(h) => left.remove(h),
        None => left,
    }
}

/// An operation that takes a socket from one state to another: it is refused in any
/// other state, and one that fails leaves the state as it was.
pub open spec fn state_updated(
    s: TcpSocket,
    s2: TcpSocket,
    current: ConnState,
    new: ConnState,
    r: SysResult<()>,
) -> bool {
    if s.state != current {
        r == Err::<(), Errno>(Errno::EISCONN) && s2.state == s.state
    } else {
        s2.state == (if r is Ok {
            new
        } else {
            current
        })
    }
}

/// Binding leaves a closed socket closed.
pub proof fn binding_updates_the_state(
    s: TcpSocket,
    a: NetStack,
    s2: TcpSocket,
    b: NetStack,
    addr: SocketAddr,
    r: SysResult<()>,
)
    requires
        bind_done(s, a, s2, b, addr, r),
    ensures
        state_updated(s, s2, ConnState::Closed, ConnState::Closed, r),
{
}

/// Listening takes a closed socket to the state of one that listens.
pub proof fn listening_updates_the_state(
    s: TcpSocket,
    a: NetStack,
    s2: TcpSocket,
    b: NetStack,
    backlog: usize,
    r: SysResult<()>,
)
    requires
        listen_done(s, a, s2, b, backlog, r),
    ensures
        state_updated(s, s2, ConnState::Closed, ConnState::Listening, r),
{
}

/// Connecting takes a closed socket to the state of one that is being connected,
/// also where the caller does not wait for the connection.
pub proof fn connecting_updates_the_state(
    s: TcpSocket,
    a: NetStack,
    s2: TcpSocket,
    b: NetStack,
    remote_addr: SocketAddr,
    r: SysResult<()>,
)
    requires
        connect_done(s, a, s2, b, remote_addr, r),
        s.state == ConnState::Closed,
    ensures
        state_updated(
            s,
            s2,
            ConnState::Closed,
            ConnState::Connecting,
            if r == Err::<(), Errno>(Errno::EINPROGRESS) {
                Ok(())
            } else {
                r
            },
        ),
{
}

/// A socket bound to an address and port has that address and port, unless it is connected or
/// bound already, or another socket has them and they are not to be shared. Port zero stands
/// for one that is free, between 0xc000 and the last.
pub proof fn sockets_are_bound_where_asked(
    s: TcpSocket,
    a: NetStack,
    s2: TcpSocket,
    b: NetStack,
    addr: SocketAddr,
    r: SysResult<()>,
)
    requires
        bind_done(s, a, s2, b, addr, r),
        a.wf(),
        port_left(a),
    ensures
        r is Ok ==> {
            &&& s.state == ConnState::Closed && s.local_addr.port == 0
            &&& s2.local_addr.addr == endpoint_of(addr).addr
            &&& endpoint_of(addr).port != 0 ==> s2.local_addr.port == endpoint_of(addr).port
            &&& endpoint_of(addr).port == 0 ==> s2.local_addr.port >= 0xc000 && tcp_free(
                a.table@,
                a.socks@,
            )(s2.local_addr.port)
            &&& !s.reuse_addr ==> !tcp_taken(a.socks@, s2.local_addr.addr, s2.local_addr.port)
            &&& s2.state == s.state && s2.handle == s.handle && s2.remote_addr == s.remote_addr
                && s2.nonblock == s.nonblock
        },
        r is Err ==> s2 == s,
        s.state != ConnState::Closed ==> r == Err::<(), Errno>(Errno::EISCONN),
        s.state == ConnState::Closed && s.local_addr.port != 0 ==> r == Err::<(), Errno>(
            Errno::EINVAL,
        ),
        s.state == ConnState::Closed && s.local_addr.port == 0 && s.reuse_addr ==> r is Ok,
        s.state == ConnState::Closed && s.local_addr.port == 0 && !s.reuse_addr && endpoint_of(
            addr,
        ).port != 0 && tcp_taken(a.socks@, endpoint_of(addr).addr, endpoint_of(addr).port) ==> r
            == Err::<(), Errno>(Errno::EADDRINUSE),
{
    found_ports_are_free(tcp_free(a.table@, a.socks@), a.next_tcp_port, 0);
}

/// Shutting down closes the named half, or both, for good: 0 is receiving, 1 sending, 2 both.
pub proof fn shutdowns_close_the_named_half(
    s: TcpSocket,
    a: NetStack,
    s2: TcpSocket,
    b: NetStack,
    how: usize,
    r: SysResult<()>,
)
    requires
        shutdown_done(s, a, s2, b, how, r),
    ensures
        (r is Ok) == (how <= 2 && s.state == ConnState::Connected),
        how > 2 ==> r == Err::<(), Errno>(Errno::EINVAL),
        how <= 2 && s.state != ConnState::Connected ==> r == Err::<(), Errno>(Errno::ENOTCONN),
        r is Ok ==> {
            &&& how == 0 || how == 2 ==> s2.recv_shutdown
            &&& how == 1 || how == 2 ==> s2.send_shutdown
            &&& how == 0 ==> s2.send_shutdown == s.send_shutdown && b == a
            &&& how == 1 ==> s2.recv_shutdown == s.recv_shutdown
            &&& s2.state == s.state && s2.local_addr == s.local_addr && s2.remote_addr
                == s.remote_addr
        },
        r is Err ==> s2 == s && b == a,
{
}

/// What is sent is queued behind what was queued before, from the start of the buffer and as far
/// as there is room; nothing that was queued changes.
pub proof fn sent_bytes_are_queued_in_order(
    s: TcpSocket,
    a: NetStack,
    b: NetStack,
    buf: Seq<u8>,
    r: SysResult<usize>,
)
    requires
        send_done(s, a, b, buf, r),
        buf.len() <= usize::MAX,
    ensures
        r matches Ok(n) ==> {
            let before = engine_of(s, a).tx;
            let after = engine_of(s, b).tx;
            &&& n <= buf.len()
            &&& after.len() == before.len() + n
            &&& after.take(before.len() as int) =~= before
            &&& after.skip(before.len() as int) =~= buf.take(n as int)
            &&& n == buf.len() || after.len() == engine_of(s, a).tx_cap
        },
        r matches Err(e) ==> b == a && (e == Errno::EAGAIN || e == Errno::EPIPE) && (e
            == Errno::EPIPE) == !(engine_of(s, a).state == TcpState::Established || engine_of(
            s,
            a,
        ).state == TcpState::CloseWait),
        (engine_of(s, a).state == TcpState::Established || engine_of(s, a).state
            == TcpState::CloseWait) && engine_of(s, a).tx.len() < engine_of(s, a).tx_cap
            ==> r is Ok,
{
}

/// What is received is what waits longest, as far as the buffer goes, and is gone afterwards
/// unless it was only looked at.
pub proof fn received_bytes_are_taken_once(
    s: TcpSocket,
    a: NetStack,
    b: NetStack,
    len: usize,
    peek: bool,
    r: SysResult<Vec<u8>>,
)
    requires
        recv_once_done(s, a, b, len, peek, 0, r),
        engine_of(s, a).rx.len() > 0,
    ensures
        r is Ok,
        r->Ok_0@.len() <= len && r->Ok_0@.len() <= engine_of(s, a).rx.len(),
        r->Ok_0@.len() == len || r->Ok_0@.len() == engine_of(s, a).rx.len(),
        !peek ==> r->Ok_0@ + engine_of(s, b).rx =~= engine_of(s, a).rx,
        peek ==> engine_of(s, b).rx == engine_of(s, a).rx && r->Ok_0@.is_prefix_of(
            engine_of(s, a).rx,
        ),
{
}

/// Without data a connection that can still receive waits, and one that cannot has ended.
pub proof fn empty_streams_wait_or_end(v: TcpView, peek: bool, min: usize)
    ensures
        v.rx.len() == 0 && (v.state == TcpState::Established || v.state == TcpState::FinWait1
            || v.state == TcpState::FinWait2) ==> recv_outcome(v, peek, min) == RecvOutcome::Fail(
            Errno::EAGAIN,
        ),
        v.rx.len() == 0 && v.state != TcpState::Established && v.state != TcpState::FinWait1
            && v.state != TcpState::FinWait2 ==> recv_outcome(v, peek, min) == RecvOutcome::End,
        v.rx.len() > 0 && (!peek || v.rx.len() >= min) ==> recv_outcome(v, peek, min)
            == RecvOutcome::Data,
        v.rx.len() > 0 && peek && v.rx.len() < min ==> recv_outcome(v, peek, min)
            == RecvOutcome::Fail(Errno::EAGAIN),
{
}

/// A connected stream can be written while there is room, read while there is data, and both
/// once the other side is gone; a closed half never waits.
pub proof fn streams_are_ready_when_they_would_not_wait(s: TcpSocket, v: TcpView)
    ensures
        v.rx.len() > 0 || s.recv_shutdown ==> stream_poll(s, v).readable,
        s.send_shutdown ==> stream_poll(s, v).writeable,
        v.state == TcpState::Established && !s.send_shutdown ==> stream_poll(s, v).writeable == (
        v.tx.len() < v.tx_cap),
        v.state == TcpState::Established && !s.recv_shutdown && !s.send_shutdown && v.tx.len()
            < v.tx_cap ==> stream_poll(s, v).readable == (v.rx.len() > 0),
        v.state == TcpState::Closed ==> stream_poll(s, v).readable && stream_poll(s, v).writeable,
{
}

/// Only a connected stream receives, nothing once it was shut down, and an empty buffer is
/// filled at once.
pub proof fn receiving_needs_a_connection(s: TcpSocket, len: usize)
    ensures
        len == 0 ==> stream_recv_check(s, len) == Some(Ok::<usize, Errno>(0)),
        len > 0 && s.state == ConnState::Connecting ==> stream_recv_check(s, len) == Some(
            Err::<usize, Errno>(Errno::EAGAIN),
        ),
        len > 0 && s.state != ConnState::Connecting && s.state != ConnState::Connected
            ==> stream_recv_check(s, len) == Some(Err::<usize, Errno>(Errno::ENOTCONN)),
        len > 0 && s.state == ConnState::Connected ==> (stream_recv_check(s, len) is None) == (
        !s.recv_shutdown),
        len > 0 && s.state == ConnState::Connected && s.recv_shutdown ==> stream_recv_check(s, len)
            == Some(Ok::<usize, Errno>(0)),
{
}

/// Only a connected stream sends, and none that was shut down.
pub proof fn sending_needs_a_connection(s: TcpSocket)
    ensures
        (stream_send_check(s) is Ok) == (s.state == ConnState::Connected && !s.send_shutdown),
        s.state == ConnState::Connecting ==> stream_send_check(s) == Err::<(), Errno>(
            Errno::EAGAIN,
        ),
        s.state == ConnState::Connected && s.send_shutdown ==> stream_send_check(s) == Err::<
            (),
            Errno,
        >(Errno::EPIPE),
        s.state != ConnState::Connecting && s.state != ConnState::Connected ==> stream_send_check(s)
            == Err::<(), Errno>(Errno::ENOTCONN),
{
}

/// A connection that was begun is to the address asked for, from the socket's own address and
/// port, the loopback address and a free port where it had none.
pub proof fn connections_go_where_asked(
    s: TcpSocket,
    a: NetStack,
    s2: TcpSocket,
    b: NetStack,
    addr: SocketAddr,
    r: SysResult<()>,
)
    requires
        connect_done(s, a, s2, b, addr, r),
        s.state == ConnState::Closed,
        a.wf(),
        port_left(a),
    ensures
        s2.state == ConnState::Connecting || (r == Err::<(), Errno>(Errno::ECONNREFUSED) && s2.state
            == ConnState::Closed),
        s2.state == ConnState::Connecting ==> {
            &&& r == (if s.nonblock {
                Err::<(), Errno>(Errno::EINPROGRESS)
            } else {
                Ok(())
            })
            &&& s2.remote_addr == endpoint_of(addr)
            &&& s.local_addr.port != 0 ==> s2.local_addr.port == s.local_addr.port
            &&& s.local_addr.port == 0 ==> s2.local_addr.port >= 0xc000 && tcp_free(
                a.table@,
                a.socks@,
            )(s2.local_addr.port)
            &&& !unspecified(s.local_addr.addr) ==> s2.local_addr.addr == s.local_addr.addr
            &&& unspecified(s.local_addr.addr) ==> s2.local_addr.addr == IpAddress::Ipv4(
                0x7f00_0001,
            )
            &&& engine_of(s2, b).state == TcpState::SynSent
            &&& engine_of(s2, b).tuple == Some((s2.local_addr, s2.remote_addr))
            &&& !s2.recv_shutdown && !s2.send_shutdown && s2.nonblock == s.nonblock
        },
{
    found_ports_are_free(tcp_free(a.table@, a.socks@), a.next_tcp_port, 0);
}

/// A second attempt on a socket tells how the first one stands.
pub proof fn repeated_attempts_tell_the_first(
    s: TcpSocket,
    a: NetStack,
    s2: TcpSocket,
    b: NetStack,
    addr: SocketAddr,
    r: SysResult<()>,
)
    requires
        connect_done(s, a, s2, b, addr, r),
        s.state != ConnState::Closed,
    ensures
        r is Err,
        s.state == ConnState::Connected || s.state == ConnState::Listening ==> r == Err::<
            (),
            Errno,
        >(Errno::EISCONN) && s2 == s && b == a,
        s.state == ConnState::Connecting
            && engine_of(s, a).state == TcpState::SynSent ==> r == Err::<
            (),
            Errno,
        >(Errno::EALREADY) && s2 == s,
        s.state == ConnState::Connecting && engine_of(s, a).state == TcpState::Established ==> r
            == Err::<(), Errno>(Errno::EISCONN) && s2.state == ConnState::Connected,
        s.state == ConnState::Failed && s.pending_error != 0 ==> r == Err::<(), Errno>(
            Errno::ECONNREFUSED,
        ) && s2 == s,
        s.state == ConnState::Failed && s.pending_error == 0 ==> r == Err::<(), Errno>(
            Errno::ECONNABORTED,
        ) && s2.state == ConnState::Closed && s2.local_addr.port == 0 && s2.remote_addr.port == 0,
        s.state == ConnState::Busy ==> r == Err::<(), Errno>(Errno::EALREADY),
{
}

/// A failed attempt leaves the error of a refused connection and no addresses; one that worked
/// leaves both addresses, both halves open and no error.
pub proof fn attempts_leave_error_or_addresses(s: TcpSocket, engine: TcpState)
    ensures
        engine == TcpState::Established ==> connect_polled(s, engine).local_addr == s.local_addr
            && connect_polled(s, engine).remote_addr == s.remote_addr && !connect_polled(
            s,
            engine,
        ).recv_shutdown && !connect_polled(s, engine).send_shutdown && connect_polled(
            s,
            engine,
        ).pending_error == 0,
        engine != TcpState::Established && engine != TcpState::SynSent ==> connect_polled(
            s,
            engine,
        ).pending_error == 111 && connect_polled(s, engine).local_addr.port == 0 && connect_polled(
            s,
            engine,
        ).remote_addr.port == 0,
        engine == TcpState::SynSent ==> connect_polled(s, engine) == s,
{
}

/// A socket that listens does so on its own port, with its address, and with as many places as
/// asked for within the limits. A port listens once.
pub proof fn listeners_keep_their_port(
    s: TcpSocket,
    a: NetStack,
    s2: TcpSocket,
    b: NetStack,
    backlog: usize,
    r: SysResult<()>,
)
    requires
        listen_done(s, a, s2, b, backlog, r),
        a.wf(),
        port_left(a),
    ensures
        r is Ok ==> {
            let port = s2.local_addr.port as usize;
            &&& s.state == ConnState::Closed && s2.state == ConnState::Listening
            &&& !a.table@.contains_key(port) && b.table@.contains_key(port)
            &&& s.local_addr.port != 0 ==> port == s.local_addr.port
            &&& s.local_addr.port == 0 ==> port >= 0xc000
            &&& s2.local_addr.addr == s.local_addr.addr
            &&& b.table@[port].endpoint.port == port
            &&& 1 <= b.table@[port].queue_limit
            &&& forall|p: usize| p != port ==> a.table@.contains_key(p) == b.table@.contains_key(p)
        },
        s.state != ConnState::Closed ==> r == Err::<(), Errno>(Errno::EISCONN) && s2 == s && b == a,
        s.local_addr.port != 0 && a.table@.contains_key(s.local_addr.port as usize) ==> r is Err,
        r is Err ==> s2.state == s.state && b.table == a.table,
{
    found_ports_are_free(tcp_free(a.table@, a.socks@), a.next_tcp_port, 0);
}

/// A listening socket is ready to read when a connection waits and never to write; one that is
/// connecting is ready to write once the attempt has ended.
pub proof fn listeners_are_read(
    s: TcpSocket,
    a: NetStack,
    s2: TcpSocket,
    b: NetStack,
    r: PollState,
)
    requires
        poll_done(s, a, s2, b, r),
    ensures
        s.state == ConnState::Listening ==> !r.writeable && s2 == s,
        s.state == ConnState::Listening && b.table@.contains_key(s.local_addr.port as usize)
            ==> r.readable == (b.table@[s.local_addr.port as usize].accept_queue@.len() > 0),
        s.state == ConnState::Connecting ==> !r.readable && r.writeable == (engine_of(s, a).state
            != TcpState::SynSent),
        s.state == ConnState::Closed ==> !r.readable && !r.writeable,
        s.state == ConnState::Failed ==> !r.readable && r.writeable,
{
}

/// Closing ends a connection or frees a port, and a socket that has neither is left alone.
pub proof fn closing_ends_what_there_is(s: TcpSocket, a: NetStack, s2: TcpSocket, b: NetStack)
    requires
        all_closed(s, a, s2, b),
    ensures
        s.state == ConnState::Connected || s.state == ConnState::Listening ==> s2.state
            == ConnState::Closed && s2.local_addr.port == 0 && s2.recv_shutdown && s2.send_shutdown,
        s.state == ConnState::Listening ==> !b.table@.contains_key(s.local_addr.port as usize),
        s.state == ConnState::Connected ==> b.table == a.table && b.socks@.dom()
            =~= a.socks@.dom().insert(s.handle->0),
        s.state != ConnState::Connected && s.state != ConnState::Listening ==> s2 == s && b == a,
{
}

/// A blocked call is tried again once before it sleeps, for at most a millisecond at a time;
/// it ends with any result but the one that asks for waiting, and at its deadline.
pub proof fn blocked_calls_sleep_in_short_turns(
    waits: bool,
    second: bool,
    error: Option<Errno>,
    deadline_us: Option<usize>,
    now_us: usize,
)
    ensures
        !waits || error != Some(Errno::EAGAIN) ==> block_step(
            waits,
            second,
            error,
            deadline_us,
            now_us,
        ) == BlockStep::Finish,
        waits && error == Some(Errno::EAGAIN) && !second ==> block_step(
            waits,
            second,
            error,
            deadline_us,
            now_us,
        ) == BlockStep::Retry,
        waits && error == Some(Errno::EAGAIN) && second ==> (match deadline_us {
            Some(d) => if now_us >= d {
                block_step(waits, second, error, deadline_us, now_us) == BlockStep::Finish
            } else {
                block_step(waits, second, error, deadline_us, now_us) matches BlockStep::Sleep(t)
                    && now_us < t <= d && (t == d || t - now_us == 1000)
            },
            None => block_step(waits, second, error, deadline_us, now_us) matches BlockStep::Sleep(
                t,
            ) && (t == usize::MAX || t - now_us == 1000),
        }),
{
}

/// Receiving a whole goes on until the buffer is full or the stream ends, and an error after
/// some data is kept for later.
pub proof fn wholes_are_gathered(
    before: RecvAll,
    after: RecvAll,
    got: SysResult<usize>,
    r: Option<SysResult<usize>>,
)
    requires
        piece_added(before, after, got, r),
    ensures
        got matches Ok(n) ==> after.total - before.total == n && (r is None) == (n > 0
            && after.total != after.len) && (r matches Some(x) ==> x == Ok::<usize, Errno>(
            after.total,
        )),
        got matches Err(e) ==> after == before && r == (if before.total > 0 {
            Some(Ok::<usize, Errno>(before.total))
        } else {
            Some(Err::<usize, Errno>(e))
        }),
{
}

/// A whole is waited for only if asked for and if nothing says not to wait; looking at it does
/// not take it.
pub proof fn wholes_are_waited_for_if_asked(
    s: TcpSocket,
    per_call_nonblocking: bool,
    peek: bool,
    waitall: bool,
    r: RecvMode,
)
    requires
        mode_chosen(s, per_call_nonblocking, peek, waitall, r),
    ensures
        (r != RecvMode::Once) == (waitall && !per_call_nonblocking && !s.nonblock),
        r != RecvMode::Once ==> (r == RecvMode::PeekAll) == peek,
{
}

/// A look that had to wait in vain settles for what a second look finds, if that is anything.
pub proof fn looks_settle_for_less(first: SysResult<usize>, retry: SysResult<usize>)
    ensures
        first is Ok ==> peek_answer(first, retry) == first,
        first matches Err(e) ==> e != Errno::EAGAIN && e != Errno::EINTR ==> peek_answer(
            first,
            retry,
        ) == first,
        first matches Err(e) ==> (e == Errno::EAGAIN || e == Errno::EINTR) ==> peek_answer(
            first,
            retry,
        ) == (if retry is Ok && retry->Ok_0 > 0 {
            retry
        } else {
            first
        }),
{
}

/// An attempt that ran out of time is still in progress; any other error stands.
pub proof fn late_attempts_go_on(
    outcome: SysResult<()>,
    deadline_us: Option<usize>,
    r: SysResult<()>,
)
    requires
        attempt_answer(outcome, deadline_us, r),
    ensures
        (r is Ok) == (outcome is Ok),
        outcome == Err::<(), Errno>(Errno::EAGAIN) && deadline_us is Some ==> r == Err::<(), Errno>(
            Errno::EINPROGRESS,
        ),
        outcome is Err && (deadline_us is None || outcome != Err::<(), Errno>(Errno::EAGAIN)) ==> r
            == outcome,
{
}

} // verus!
