//! Datagram sockets.

use crate::errno::{Errno, SysResult};
use crate::net::addr::{
    endpoint_of, from_ipendpoint_to_socketaddr, from_sockaddr_to_ipendpoint, is_unspecified, loopback,
    sockaddr_of, unspecified, Endpoint, IpAddress, ListenEndpoint, SocketAddr, LOOP_BACK_IP,
};
use crate::net::listen::{owns, udp_taken, UDP_PACKETS, UDP_TX_BUF_LEN};
use crate::net::smol;
use crate::net::smol::{
    fresh_udp, is_tcp, is_udp, only_rx_differs, only_tx_differs, udp_of, Datagram, SocketView,
    UdpRecvError, UdpSendError, UdpView,
};
use crate::net::stack::{first_free, found_ports_are_free, port_at, udp_free, NetStack};
use crate::net::tcp::PollState;
use crate::seqs::copy_range;
use smoltcp::iface::SocketHandle;
use vstd::prelude::*;

verus! {

/// The largest datagram that a receive without a peer takes.
pub const UDP_KERNEL_BUF: usize = 1528;

/// A datagram socket.
pub struct UdpSocket {
    pub handle: SocketHandle,
    pub local_addr: Option<Endpoint>,
    pub remote_addr: Option<Endpoint>,
    pub nonblock: bool,
    pub reuse_addr: bool,
}

/// The socket of the engine.
pub open spec fn udp_engine(s: UdpSocket, net: NetStack) -> UdpView {
    udp_of(net.socks@, s.handle)
}

/// Only the socket behind the handle has changed.
pub open spec fn udp_changed(a: NetStack, b: NetStack, h: SocketHandle) -> bool {
    &&& b.table == a.table
    &&& b.next_tcp_port == a.next_tcp_port
    &&& is_udp(b.socks@, h)
    &&& b.socks@ == a.socks@.insert(h, b.socks@[h])
}

/// The port that is chosen next.
pub open spec fn chosen_udp_port(net: NetStack) -> u16 {
    port_at(net.next_udp_port, first_free(udp_free(net.socks@), net.next_udp_port, 0)->0)
}

/// A port can be chosen.
pub open spec fn udp_port_left(net: NetStack) -> bool {
    first_free(udp_free(net.socks@), net.next_udp_port, 0) is Some
}

/// The endpoint that an address stands for: the loopback address if it has
/// none, a chosen port if it has none.
pub open spec fn bind_endpoint(addr: SocketAddr, chosen: u16) -> Endpoint {
    let e = endpoint_of(addr);
    Endpoint {
        addr: if unspecified(e.addr) {
            loopback()
        } else {
            e.addr
        },
        port: if e.port == 0 {
            chosen
        } else {
            e.port
        },
    }
}

/// What giving the socket a local address comes to.
pub open spec fn bound(
    s: UdpSocket,
    a: NetStack,
    s2: UdpSocket,
    b: NetStack,
    addr: SocketAddr,
    r: SysResult<()>,
) -> bool {
    let chosen = chosen_udp_port(a);
    let e = bind_endpoint(addr, chosen);
    let v = udp_engine(s, a);
    &&& b.next_udp_port == if s.local_addr is None && endpoint_of(addr).port == 0 {
        port_at(chosen, 1)
    } else {
        a.next_udp_port
    }
    &&& if s.local_addr is Some {
        r == Err::<(), Errno>(Errno::EINVAL) && s2 == s && b.socks@ == a.socks@
    } else if !s.reuse_addr && udp_taken(a.socks@, e.addr, e.port) {
        r == Err::<(), Errno>(Errno::EADDRINUSE) && s2 == s && b.socks@ == a.socks@
    } else {
        &&& r is Ok
        &&& s2 == (UdpSocket { local_addr: Some(e), ..s })
        &&& b.socks@ == a.socks@.insert(
            s.handle,
            SocketView::Udp(
                UdpView { endpoint: ListenEndpoint { addr: Some(e.addr), port: e.port }, ..v },
            ),
        )
    }
}

/// A chosen port is not taken.
proof fn chosen_port_is_free(net: NetStack)
    requires
        net.wf(),
        udp_port_left(net),
    ensures
        !udp_taken(net.socks@, loopback(), chosen_udp_port(net)),
        chosen_udp_port(net) != 0,
{
    found_ports_are_free(udp_free(net.socks@), net.next_udp_port, 0);
}

/// Listening ports are not concerned by what happens to a datagram socket.
proof fn udp_does_not_concern_ports(net: NetStack, h: SocketHandle, m2: Map<SocketHandle, SocketView>)
    requires
        net.wf(),
        !is_tcp(net.socks@, h),
        forall|x: SocketHandle|
            #[trigger] net.socks@.contains_key(x) && x != h ==> m2.contains_key(x) && m2[x]
                == net.socks@[x],
    ensures
        net.table.wf(m2),
        !owns(net.table@, h),
{
    let t = net.table@;
    let m = net.socks@;
    assert forall|p: usize| #[trigger] t.contains_key(p) implies crate::net::listen::entry_ok(
        t[p],
        m2,
    ) && t[p].endpoint.port == p by {
        let e = t[p];
        assert forall|i: int| 0 <= i < e.listen_handles@.len() implies is_tcp(
            m2,
            #[trigger] e.listen_handles@[i],
        ) by {
            assert(is_tcp(m, e.listen_handles@[i]));
        }
        assert forall|i: int| 0 <= i < e.accept_queue@.len() implies is_tcp(
            m2,
            #[trigger] e.accept_queue@[i],
        ) by {
            assert(is_tcp(m, e.accept_queue@[i]));
        }
    }
    if owns(t, h) {
        let p = choose|p: usize| #[trigger]
            t.contains_key(p) && crate::net::listen::holds_handle(t[p], h);
        let e = t[p];
        if e.listen_handles@.contains(h) {
            let i = e.listen_handles@.index_of(h);
            assert(is_tcp(m, e.listen_handles@[i]));
        } else {
            let i = e.accept_queue@.index_of(h);
            assert(is_tcp(m, e.accept_queue@[i]));
        }
    }
}

/// A free port for datagrams. The search goes on behind the port that was found
/// last.
pub fn get_ephemeral_port(net: &mut NetStack) -> (r: u16)
    requires
        old(net).wf(),
        udp_port_left(*old(net)),
    ensures
        final(net).wf(),
        final(net).socks == old(net).socks,
        final(net).table == old(net).table,
        final(net).next_tcp_port == old(net).next_tcp_port,
        r == chosen_udp_port(*old(net)),
        final(net).next_udp_port == port_at(r, 1),
        r != 0,
{
    proof {
        chosen_port_is_free(*net);
        found_ports_are_free(udp_free(net.socks@), net.next_udp_port, 0);
    }
    match net.get_ephemeral_udp_port() {
        Some(p) => p,
        None => 0,
    }
}

/// Whether receiving from the peer goes from `a` to `b` and returns `r`.
pub open spec fn peer_datagram(
    s: UdpSocket,
    a: NetStack,
    b: NetStack,
    len: usize,
    r: SysResult<Vec<u8>>,
) -> bool {
    ({
        let rx = udp_engine(s, a).rx;
        let after = udp_engine(s, b).rx;
        if s.remote_addr is None || !s.open(a) {
            r is Err && r->Err_0 == Errno::ENOTCONN && after == rx
        } else if rx.len() == 0 || !from_peer(rx[0].peer, s.remote_addr->0) {
            r is Err && r->Err_0 == Errno::EAGAIN && after == rx
        } else if rx[0].payload.len() > len {
            r is Err && r->Err_0 == Errno::EMSGSIZE && after == rx.drop_first()
        } else {
            r is Ok && r->Ok_0@ == rx[0].payload && after == rx.drop_first()
        }
    })
}

impl UdpSocket {
    /// The socket has one of the engine, which is unbound as long as it has no
    /// local address.
    pub open spec fn wf(&self, net: NetStack) -> bool {
        &&& is_udp(net.socks@, self.handle)
        &&& self.local_addr is None ==> udp_engine(*self, net).endpoint.port == 0
    }

    /// A new socket.
    pub fn new(net: &mut NetStack) -> (r: Self)
        requires
            old(net).wf(),
        ensures
            final(net).wf(),
            r.wf(*final(net)),
            !old(net).socks@.contains_key(r.handle),
            final(net).socks@ == old(net).socks@.insert(
                r.handle,
                SocketView::Udp(fresh_udp(UDP_TX_BUF_LEN as nat, UDP_PACKETS as nat)),
            ),
            final(net).table == old(net).table,
            final(net).next_tcp_port == old(net).next_tcp_port,
            final(net).next_udp_port == old(net).next_udp_port,
            r == (UdpSocket {
                handle: r.handle,
                local_addr: None,
                remote_addr: None,
                nonblock: false,
                reuse_addr: false,
            }),
    {
        let ghost n0 = *net;
        let handle = net.socks.add_udp();
        proof {
            udp_does_not_concern_ports(n0, handle, net.socks@);
        }
        UdpSocket { handle, local_addr: None, remote_addr: None, nonblock: false, reuse_addr: false }
    }

    pub fn local_addr(&self) -> (r: SysResult<SocketAddr>)
        ensures
            r == (match self.local_addr {
                Some(e) => Ok(sockaddr_of(e)),
                None => Err::<SocketAddr, Errno>(Errno::ENOTCONN),
            }),
    {
        match self.local_addr {
            Some(e) => Ok(from_ipendpoint_to_socketaddr(e)),
            None => Err(Errno::ENOTCONN),
        }
    }

    pub fn remote_addr(&self) -> (r: SysResult<SocketAddr>)
        ensures
            r == (match self.remote_addr {
                Some(e) => Ok(sockaddr_of(e)),
                None => Err::<SocketAddr, Errno>(Errno::ENOTCONN),
            }),
    {
        match self.remote_addr {
            Some(e) => Ok(from_ipendpoint_to_socketaddr(e)),
            None => Err(Errno::ENOTCONN),
        }
    }

    pub fn is_nonblocking(&self) -> (r: bool)
        ensures
            r == self.nonblock,
    {
        self.nonblock
    }

    pub fn is_block(&self) -> (r: bool)
        ensures
            r == !self.nonblock,
    {
        !self.nonblock
    }

    pub fn set_nonblocking(&mut self, block: bool)
        ensures
            *final(self) == (UdpSocket { nonblock: block, ..*old(self) }),
    {
        self.nonblock = block;
    }

    pub fn is_reuse_addr(&self) -> (r: bool)
        ensures
            r == self.reuse_addr,
    {
        self.reuse_addr
    }

    pub fn set_reuse_addr(&mut self, reuse: bool)
        ensures
            *final(self) == (UdpSocket { reuse_addr: reuse, ..*old(self) }),
    {
        self.reuse_addr = reuse;
    }

    /// Limits the number of hops of outgoing datagrams.
    pub fn set_socket_ttl(&self, net: &mut NetStack, ttl: u8)
        requires
            old(net).wf(),
            self.wf(*old(net)),
            ttl != 0,
        ensures
            final(net).wf(),
            self.wf(*final(net)),
            udp_changed(*old(net), *final(net), self.handle),
            final(net).next_udp_port == old(net).next_udp_port,
            udp_engine(*self, *final(net)) == (UdpView {
                hop_limit: Some(ttl),
                ..udp_engine(*self, *old(net))
            }),
    {
        let ghost n0 = *net;
        smol::set_udp_hop_limit(&mut net.socks.set, self.handle, ttl);
        proof {
            udp_does_not_concern_ports(n0, self.handle, net.socks@);
        }
    }

    /// Gives the socket a local address.
    pub fn bind(&mut self, net: &mut NetStack, bind_addr: SocketAddr) -> (r: SysResult<()>)
        requires
            old(net).wf(),
            old(self).wf(*old(net)),
            endpoint_of(bind_addr).port == 0 ==> udp_port_left(*old(net)),
        ensures
            final(net).wf(),
            final(self).wf(*final(net)),
            udp_changed(*old(net), *final(net), old(self).handle),
            bound(*old(self), *old(net), *final(self), *final(net), bind_addr, r),
    {
        let ghost n0 = *net;
        proof {
            assert(net.socks@ =~= n0.socks@.insert(self.handle, n0.socks@[self.handle]));
        }
        if self.local_addr.is_some() {
            return Err(Errno::EINVAL);
        }
        let mut e = from_sockaddr_to_ipendpoint(bind_addr);
        if e.port == 0 {
            e.port = get_ephemeral_port(net);
        }
        if is_unspecified(e.addr) {
            e.addr = IpAddress::Ipv4(LOOP_BACK_IP);
        }
        if !self.reuse_addr {
            match net.socks.udp_bind_check(e.addr, e.port) {
                Err(x) => {
                    return Err(x);
                },
                Ok(_) => {},
            }
        }
        let ghost n1 = *net;
        let endpoint = ListenEndpoint { addr: Some(e.addr), port: e.port };
        if !smol::bind_udp(&mut net.socks.set, self.handle, smol::listen_to_wire(endpoint)) {
            return Err(Errno::EADDRINUSE);
        }
        proof {
            udp_does_not_concern_ports(n1, self.handle, net.socks@);
        }
        self.local_addr = Some(e);
        Ok(())
    }

    /// Binds the socket to a chosen port of the loopback address if it is not
    /// bound yet.
    fn ensure_bound(&mut self, net: &mut NetStack)
        requires
            old(net).wf(),
            old(self).wf(*old(net)),
            old(self).local_addr is None ==> udp_port_left(*old(net)),
        ensures
            final(net).wf(),
            final(self).wf(*final(net)),
            udp_changed(*old(net), *final(net), old(self).handle),
            now_bound(*old(self), *old(net), *final(self), *final(net)),
    {
        let ghost n0 = *net;
        proof {
            assert(net.socks@ =~= n0.socks@.insert(self.handle, n0.socks@[self.handle]));
        }
        if self.local_addr.is_none() {
            proof {
                chosen_port_is_free(*net);
            }
            let _ = self.bind(net, SocketAddr::V4 { ip: LOOP_BACK_IP, port: 0 });
        }
    }

    /// Sets where datagrams go to and come from. An unbound socket is bound to
    /// a chosen port first.
    pub fn connect(&mut self, net: &mut NetStack, remote_addr: SocketAddr) -> (r: SysResult<()>)
        requires
            old(net).wf(),
            old(self).wf(*old(net)),
            old(self).local_addr is None ==> udp_port_left(*old(net)),
        ensures
            r is Ok,
            final(net).wf(),
            final(self).wf(*final(net)),
            udp_changed(*old(net), *final(net), old(self).handle),
            final(self).remote_addr == Some(endpoint_of(remote_addr)),
            now_bound(
                *old(self),
                *old(net),
                UdpSocket { remote_addr: old(self).remote_addr, ..*final(self) },
                *final(net),
            ),
    {
        self.ensure_bound(net);
        self.remote_addr = Some(from_sockaddr_to_ipendpoint(remote_addr));
        Ok(())
    }

    /// Queues a datagram for an address. An unbound socket is bound to a chosen
    /// port first. `EAGAIN` if no further datagram can be queued.
    pub fn send_to(&mut self, net: &mut NetStack, buf: &[u8], remote_addr: SocketAddr) -> (r: SysResult<
        usize,
    >)
        requires
            old(net).wf(),
            old(self).wf(*old(net)),
            old(self).local_addr is None ==> udp_port_left(*old(net)),
        ensures
            final(net).wf(),
            final(self).wf(*final(net)),
            udp_changed(*old(net), *final(net), old(self).handle),
            datagram_sent(
                *old(self),
                *old(net),
                *final(self),
                *final(net),
                buf@,
                endpoint_of(remote_addr),
                r,
            ),
    {
        self.send_impl(net, buf, from_sockaddr_to_ipendpoint(remote_addr))
    }

    /// Queues a datagram for the peer that was set.
    pub fn send(&mut self, net: &mut NetStack, buf: &[u8]) -> (r: SysResult<usize>)
        requires
            old(net).wf(),
            old(self).wf(*old(net)),
            old(self).local_addr is None ==> udp_port_left(*old(net)),
        ensures
            final(net).wf(),
            final(self).wf(*final(net)),
            match old(self).remote_addr {
                None => {
                    &&& r == Err::<usize, Errno>(Errno::EDESTADDRREQ)
                    &&& *final(self) == *old(self)
                    &&& *final(net) == *old(net)
                },
                Some(peer) => {
                    &&& udp_changed(*old(net), *final(net), old(self).handle)
                    &&& datagram_sent(
                        *old(self),
                        *old(net),
                        *final(self),
                        *final(net),
                        buf@,
                        peer,
                        r,
                    )
                },
            },
    {
        match self.remote_addr {
            None => Err(Errno::EDESTADDRREQ),
            Some(peer) => self.send_impl(net, buf, peer),
        }
    }

    fn send_impl(&mut self, net: &mut NetStack, buf: &[u8], peer: Endpoint) -> (r: SysResult<usize>)
        requires
            old(net).wf(),
            old(self).wf(*old(net)),
            old(self).local_addr is None ==> udp_port_left(*old(net)),
        ensures
            final(net).wf(),
            final(self).wf(*final(net)),
            udp_changed(*old(net), *final(net), old(self).handle),
            datagram_sent(*old(self), *old(net), *final(self), *final(net), buf@, peer, r),
    {
        let ghost n0 = *net;
        self.ensure_bound(net);
        let h = self.handle;
        let ghost n1 = *net;
        let own = smol::listen_from_wire(smol::udp_endpoint(&net.socks.set, h));
        if own.port == 0 {
            return Err(Errno::ENOTCONN);
        }
        if !smol::udp_can_send(&net.socks.set, h) {
            return Err(Errno::EAGAIN);
        }
        let sent = smol::send_datagram(&mut net.socks.set, h, buf, smol::to_wire(peer));
        proof {
            udp_does_not_concern_ports(n1, h, net.socks@);
            assert(net.socks@ =~= n0.socks@.insert(h, net.socks@[h]));
        }
        match sent {
            Ok(_) => Ok(buf.len()),
            Err(UdpSendError::Unaddressable) => Err(Errno::EADDRNOTAVAIL),
            Err(UdpSendError::BufferFull) => Err(Errno::EMSGSIZE),
        }
    }

    /// Takes the first datagram, cut off at `len` bytes, with its sender, or only
    /// looks at it. One that is larger than `UDP_KERNEL_BUF` cannot be had, and is
    /// lost if it is taken. `EAGAIN` if there is none.
    pub fn recv_from(&self, net: &mut NetStack, len: usize, peek: bool) -> (r: SysResult<
        (Vec<u8>, SocketAddr),
    >)
        requires
            old(net).wf(),
            self.wf(*old(net)),
        ensures
            final(net).wf(),
            self.wf(*final(net)),
            udp_changed(*old(net), *final(net), self.handle),
            final(net).next_udp_port == old(net).next_udp_port,
            only_rx_differs(udp_engine(*self, *old(net)), udp_engine(*self, *final(net))),
            recv_from_done(*self, *old(net), *final(net), len, peek, r),
    {
        let ghost n0 = *net;
        proof {
            assert(net.socks@ =~= n0.socks@.insert(self.handle, n0.socks@[self.handle]));
        }
        if !self.is_open(net) {
            return Err(Errno::ENOTCONN);
        }
        if !smol::udp_can_recv(&net.socks.set, self.handle) {
            return Err(Errno::EAGAIN);
        }
        let got = if peek {
            match smol::peek_datagram(&mut net.socks.set, self.handle) {
                Some((data, e)) => if data.len() > UDP_KERNEL_BUF {
                    Err(UdpRecvError::Truncated)
                } else {
                    Ok((data, e))
                },
                None => Err(UdpRecvError::Exhausted),
            }
        } else {
            smol::recv_datagram(&mut net.socks.set, self.handle, UDP_KERNEL_BUF)
        };
        proof {
            udp_does_not_concern_ports(n0, self.handle, net.socks@);
        }
        match got {
            Ok((data, peer)) => {
                let n: usize = if data.len() < len {
                    data.len()
                } else {
                    len
                };
                let out = copy_range(data.as_slice(), 0, n);
                Ok((out, from_ipendpoint_to_socketaddr(smol::from_wire(peer))))
            },
            Err(_) => Err(Errno::EAGAIN),
        }
    }

    /// Takes the first datagram if it comes from the peer that was set. One that
    /// is larger than `len` bytes is lost.
    pub fn recv(&self, net: &mut NetStack, len: usize) -> (r: SysResult<Vec<u8>>)
        requires
            old(net).wf(),
            self.wf(*old(net)),
        ensures
            final(net).wf(),
            self.wf(*final(net)),
            udp_changed(*old(net), *final(net), self.handle),
            final(net).next_udp_port == old(net).next_udp_port,
            only_rx_differs(udp_engine(*self, *old(net)), udp_engine(*self, *final(net))),
            peer_datagram(*self, *old(net), *final(net), len, r),
    {
        let ghost n0 = *net;
        proof {
            assert(net.socks@ =~= n0.socks@.insert(self.handle, n0.socks@[self.handle]));
        }
        let peer = match self.remote_addr {
            Some(p) => p,
            None => {
                return Err(Errno::ENOTCONN);
            },
        };
        if !self.is_open(net) {
            return Err(Errno::ENOTCONN);
        }
        if !smol::udp_can_recv(&net.socks.set, self.handle) {
            return Err(Errno::EAGAIN);
        }
        let first = smol::peek_datagram(&mut net.socks.set, self.handle);
        let ghost n1 = *net;
        proof {
            udp_does_not_concern_ports(n0, self.handle, net.socks@);
        }
        match first {
            None => {
                return Err(Errno::EAGAIN);
            },
            Some((_, e)) => {
                let from = smol::from_wire(e);
                if !is_unspecified(peer.addr) && peer.addr != from.addr {
                    return Err(Errno::EAGAIN);
                }
                if peer.port != 0 && peer.port != from.port {
                    return Err(Errno::EAGAIN);
                }
            },
        }
        let got = smol::recv_datagram(&mut net.socks.set, self.handle, len);
        proof {
            udp_does_not_concern_ports(n1, self.handle, net.socks@);
            assert(net.socks@ =~= n0.socks@.insert(self.handle, net.socks@[self.handle]));
        }
        match got {
            Ok((data, _)) => Ok(data),
            Err(UdpRecvError::Exhausted) => Err(Errno::EAGAIN),
            Err(UdpRecvError::Truncated) => Err(Errno::EMSGSIZE),
        }
    }

    /// The socket is bound, and was not closed since.
    pub open spec fn open(&self, net: NetStack) -> bool {
        self.local_addr is Some && udp_engine(*self, net).endpoint.port != 0
    }

    fn is_open(&self, net: &NetStack) -> (r: bool)
        requires
            self.wf(*net),
        ensures
            r == self.open(*net),
    {
        if self.local_addr.is_none() {
            return false;
        }
        let own = smol::listen_from_wire(smol::udp_endpoint(&net.socks.set, self.handle));
        own.port != 0
    }

    /// Closes the socket of the engine; all datagrams are lost.
    pub fn shutdown(&self, net: &mut NetStack)
        requires
            old(net).wf(),
            self.wf(*old(net)),
        ensures
            final(net).wf(),
            self.wf(*final(net)),
            udp_changed(*old(net), *final(net), self.handle),
            final(net).next_udp_port == old(net).next_udp_port,
            udp_engine(*self, *final(net)) == (UdpView {
                hop_limit: udp_engine(*self, *old(net)).hop_limit,
                ..fresh_udp(
                    udp_engine(*self, *old(net)).tx_cap,
                    udp_engine(*self, *old(net)).tx_slots,
                )
            }),
    {
        let ghost n0 = *net;
        smol::close_udp(&mut net.socks.set, self.handle);
        proof {
            udp_does_not_concern_ports(n0, self.handle, net.socks@);
        }
    }

    /// Ends the life of the socket: its socket of the engine is dropped.
    pub fn release(self, net: &mut NetStack)
        requires
            old(net).wf(),
            self.wf(*old(net)),
        ensures
            final(net).wf(),
            final(net).socks@ == old(net).socks@.remove(self.handle),
            final(net).table == old(net).table,
            final(net).next_tcp_port == old(net).next_tcp_port,
            final(net).next_udp_port == old(net).next_udp_port,
    {
        let ghost n0 = *net;
        self.shutdown(net);
        let ghost n1 = *net;
        net.socks.remove(self.handle);
        proof {
            udp_does_not_concern_ports(n1, self.handle, net.socks@);
            assert(net.socks@ =~= n0.socks@.remove(self.handle));
        }
    }

    /// What can be done with the socket without waiting; with an unbound one,
    /// nothing.
    pub fn poll(&self, net: &NetStack) -> (r: PollState)
        requires
            self.wf(*net),
        ensures
            r == (if self.local_addr is None {
                PollState { readable: false, writeable: false }
            } else {
                PollState {
                    readable: udp_engine(*self, *net).rx_waiting,
                    writeable: !udp_engine(*self, *net).tx_full,
                }
            }),
    {
        if self.local_addr.is_none() {
            return PollState { readable: false, writeable: false };
        }
        PollState {
            readable: smol::udp_can_recv(&net.socks.set, self.handle),
            writeable: smol::udp_can_send(&net.socks.set, self.handle),
        }
    }
}

/// A sender is the peer that was set; what the peer leaves unspecified may be
/// anything.
pub open spec fn from_peer(from: Endpoint, peer: Endpoint) -> bool {
    &&& unspecified(peer.addr) || peer.addr == from.addr
    &&& peer.port == 0 || peer.port == from.port
}

/// The socket is bound: as it was, or to a chosen port of the loopback address.
pub open spec fn now_bound(s: UdpSocket, a: NetStack, s2: UdpSocket, b: NetStack) -> bool {
    if s.local_addr is Some {
        s2 == s && b.socks@ == a.socks@ && b.next_udp_port == a.next_udp_port
    } else {
        let e = Endpoint { addr: loopback(), port: chosen_udp_port(a) };
        &&& s2 == (UdpSocket { local_addr: Some(e), ..s })
        &&& b.next_udp_port == port_at(e.port, 1)
        &&& b.socks@ == a.socks@.insert(
            s.handle,
            SocketView::Udp(
                UdpView {
                    endpoint: ListenEndpoint { addr: Some(e.addr), port: e.port },
                    ..udp_engine(s, a)
                },
            ),
        )
    }
}

/// The endpoint of the socket once it is bound.
pub open spec fn endpoint_when_bound(s: UdpSocket, a: NetStack) -> ListenEndpoint {
    if s.local_addr is Some {
        udp_engine(s, a).endpoint
    } else {
        ListenEndpoint { addr: Some(loopback()), port: chosen_udp_port(a) }
    }
}

/// What queueing a datagram comes to.
pub open spec fn datagram_sent(
    s: UdpSocket,
    a: NetStack,
    s2: UdpSocket,
    b: NetStack,
    data: Seq<u8>,
    peer: Endpoint,
    r: SysResult<usize>,
) -> bool {
    let v = UdpView { endpoint: endpoint_when_bound(s, a), ..udp_engine(s, a) };
    let w = udp_engine(s, b);
    let bad = smol::unreachable_ip(peer.addr) || peer.port == 0;
    &&& s2 == (UdpSocket {
        local_addr: if s.local_addr is Some {
            s.local_addr
        } else {
            Some(Endpoint { addr: loopback(), port: chosen_udp_port(a) })
        },
        ..s
    })
    &&& b.next_udp_port == if s.local_addr is Some {
        a.next_udp_port
    } else {
        port_at(chosen_udp_port(a), 1)
    }
    &&& only_tx_differs(v, w)
    &&& if v.endpoint.port == 0 {
        r == Err::<usize, Errno>(Errno::ENOTCONN) && w == v
    } else if v.tx_full {
        r == Err::<usize, Errno>(Errno::EAGAIN) && w == v
    } else if bad {
        r == Err::<usize, Errno>(Errno::EADDRNOTAVAIL) && w == v
    } else {
        match r {
            Ok(n) => {
                &&& n == data.len()
                &&& data.len() <= v.tx_cap
                &&& w.tx == v.tx.push(Datagram { peer, payload: data })
            },
            Err(e) => {
                &&& e == Errno::EMSGSIZE
                &&& v.tx_used > 0 || data.len() > v.tx_cap
                &&& w.tx == v.tx
            },
        }
    }
}

/// A datagram that is received is the one that was there longest, and is
/// received only once.
pub proof fn datagrams_keep_their_order(rx: Seq<Datagram>, more: Datagram)
    requires
        rx.len() > 0,
    ensures
        rx.push(more)[0] == rx[0],
        rx.push(more).drop_first() == rx.drop_first().push(more),
{
    assert(rx.push(more).drop_first() =~= rx.drop_first().push(more));
}

/// What taking the first datagram, or looking at it, comes to.
pub open spec fn recv_from_done(
    s: UdpSocket,
    a: NetStack,
    b: NetStack,
    len: usize,
    peek: bool,
    r: SysResult<(Vec<u8>, SocketAddr)>,
) -> bool {
    let rx = udp_engine(s, a).rx;
    let after = udp_engine(s, b).rx;
    let left = if peek {
        rx
    } else {
        rx.drop_first()
    };
    if !s.open(a) {
        r is Err && r->Err_0 == Errno::ENOTCONN && after == rx
    } else if rx.len() == 0 {
        r is Err && r->Err_0 == Errno::EAGAIN && after == rx
    } else if rx[0].payload.len() > UDP_KERNEL_BUF {
        r is Err && r->Err_0 == Errno::EAGAIN && after == left
    } else {
        &&& r is Ok
        &&& r->Ok_0.0@ == rx[0].payload.take(
            smol::smaller(rx[0].payload.len() as int, len as int),
        )
        &&& r->Ok_0.1 == sockaddr_of(rx[0].peer)
        &&& after == left
    }
}

/// A datagram socket is bound to the address and port asked for; the loopback address stands in
/// for none, and a free port for port zero. It is bound once, and alone unless shared.
pub proof fn datagram_sockets_are_bound_where_asked(
    s: UdpSocket,
    a: NetStack,
    s2: UdpSocket,
    b: NetStack,
    addr: SocketAddr,
    r: SysResult<()>,
)
    requires
        bound(s, a, s2, b, addr, r),
        a.wf(),
        udp_port_left(a),
    ensures
        s.local_addr is Some ==> r == Err::<(), Errno>(Errno::EINVAL) && s2 == s,
        r is Ok ==> (s2.local_addr matches Some(e) && (endpoint_of(addr).port != 0 ==> e.port
            == endpoint_of(addr).port) && (endpoint_of(addr).port == 0 ==> e.port >= 0xc000
            && udp_free(a.socks@)(e.port)) && (!unspecified(endpoint_of(addr).addr) ==> e.addr
            == endpoint_of(addr).addr) && (unspecified(endpoint_of(addr).addr) ==> e.addr
            == IpAddress::Ipv4(0x7f00_0001)) && udp_engine(s, b).endpoint.port == e.port
            && udp_engine(s, b).endpoint.addr == Some(e.addr)),
        r is Ok ==> s2.remote_addr == s.remote_addr && udp_engine(s, b).rx == udp_engine(s, a).rx,
        s.local_addr is None && s.reuse_addr ==> r is Ok,
        s.local_addr is None && !s.reuse_addr && endpoint_of(addr).port != 0 && !unspecified(
            endpoint_of(addr).addr,
        ) ==> (r is Ok) == !udp_taken(a.socks@, endpoint_of(addr).addr, endpoint_of(addr).port),
        r is Err ==> s2 == s && b.socks@ == a.socks@ && r != Err::<(), Errno>(Errno::EAGAIN),
{
    found_ports_are_free(udp_free(a.socks@), a.next_udp_port, 0);
}

/// A datagram is queued whole for its peer behind those queued before, or not at all.
pub proof fn datagrams_are_queued_whole(
    s: UdpSocket,
    a: NetStack,
    s2: UdpSocket,
    b: NetStack,
    data: Seq<u8>,
    peer: Endpoint,
    r: SysResult<usize>,
)
    requires
        datagram_sent(s, a, s2, b, data, peer, r),
    ensures
        r matches Ok(n) ==> {
            let before = udp_engine(s, a).tx;
            let after = udp_engine(s, b).tx;
            &&& n == data.len()
            &&& after.len() == before.len() + 1
            &&& after.last().peer == peer && after.last().payload == data
            &&& after.drop_last() =~= before
            &&& peer.port != 0
        },
        r is Err ==> udp_engine(s, b).tx == udp_engine(s, a).tx,
        s2.local_addr is Some,
        s.local_addr is Some ==> s2.local_addr == s.local_addr,
        s2.remote_addr == s.remote_addr,
        s.local_addr is Some && udp_engine(s, a).endpoint.port == 0 ==> r == Err::<usize, Errno>(
            Errno::ENOTCONN,
        ),
        s.open(a) && udp_engine(s, a).tx_full ==> r == Err::<usize, Errno>(Errno::EAGAIN),
        s.open(a) && !udp_engine(s, a).tx_full && peer.port == 0 ==> r == Err::<usize, Errno>(
            Errno::EADDRNOTAVAIL,
        ),
{
}

/// A datagram is received from its start as far as the buffer goes, with its sender, the one
/// that waits longest first; the rest of it is lost unless it was only looked at.
pub proof fn datagrams_are_received_once(
    s: UdpSocket,
    a: NetStack,
    b: NetStack,
    len: usize,
    peek: bool,
    r: SysResult<(Vec<u8>, SocketAddr)>,
)
    requires
        recv_from_done(s, a, b, len, peek, r),
    ensures
        r matches Ok(got) ==> {
            let first = udp_engine(s, a).rx[0];
            &&& udp_engine(s, a).rx.len() > 0
            &&& got.0@.len() <= len && got.0@.is_prefix_of(first.payload)
            &&& got.0@.len() == len || got.0@.len() == first.payload.len()
            &&& endpoint_of(got.1) == first.peer
            &&& peek ==> udp_engine(s, b).rx == udp_engine(s, a).rx
            &&& !peek ==> udp_engine(s, b).rx == udp_engine(s, a).rx.drop_first()
        },
        !s.open(a) ==> r is Err && r->Err_0 == Errno::ENOTCONN,
        s.open(a) && udp_engine(s, a).rx.len() == 0 ==> r is Err && r->Err_0 == Errno::EAGAIN,
        s.open(a) && udp_engine(s, a).rx.len() > 0 && udp_engine(s, a).rx[0].payload.len() <= 1528
            ==> r is Ok,
{
}

/// A connected datagram socket receives from its peer alone, and whole datagrams alone.
pub proof fn peers_are_heard_alone(
    s: UdpSocket,
    a: NetStack,
    b: NetStack,
    len: usize,
    r: SysResult<Vec<u8>>,
)
    requires
        peer_datagram(s, a, b, len, r),
    ensures
        r is Ok ==> {
            let first = udp_engine(s, a).rx[0];
            let peer = s.remote_addr->0;
            &&& s.remote_addr is Some && udp_engine(s, a).rx.len() > 0
            &&& peer.port == 0 || first.peer.port == peer.port
            &&& unspecified(peer.addr) || first.peer.addr == peer.addr
            &&& r->Ok_0@ == first.payload && first.payload.len() <= len
            &&& udp_engine(s, b).rx == udp_engine(s, a).rx.drop_first()
        },
        s.remote_addr is None ==> r is Err && r->Err_0 == Errno::ENOTCONN,
        s.open(a) && udp_engine(s, a).rx.len() > 0 && s.remote_addr == Some(
            udp_engine(s, a).rx[0].peer,
        ) ==> (r is Ok) == (udp_engine(s, a).rx[0].payload.len() <= len) && (r is Err ==> r->Err_0
            == Errno::EMSGSIZE),
{
}

/// A datagram socket is open once it is bound to a port.
pub proof fn bound_sockets_are_open(s: UdpSocket, a: NetStack)
    ensures
        s.local_addr is None ==> !s.open(a),
        s.local_addr is Some ==> s.open(a) == (udp_engine(s, a).endpoint.port > 0),
{
}

/// Without a datagram from the peer a connected socket asks to be tried again and leaves what
/// waits.
pub proof fn strangers_are_left_waiting(
    s: UdpSocket,
    a: NetStack,
    b: NetStack,
    len: usize,
    r: SysResult<Vec<u8>>,
    peer: Endpoint,
)
    requires
        peer_datagram(s, a, b, len, r),
        s.remote_addr == Some(peer),
        s.local_addr is Some,
        udp_engine(s, a).endpoint.port > 0,
        udp_engine(s, a).rx.len() == 0 || (peer.port != 0 && udp_engine(s, a).rx[0].peer.port
            != peer.port) || (!unspecified(peer.addr) && udp_engine(s, a).rx[0].peer.addr
            != peer.addr),
    ensures
        r is Err && r->Err_0 == Errno::EAGAIN,
        udp_engine(s, b).rx == udp_engine(s, a).rx,
{
}

} // verus!
