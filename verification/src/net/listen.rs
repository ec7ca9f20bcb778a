//! The sockets of the engine and the table of listening ports.

use crate::errno::{Errno, SysResult};
use crate::net::addr::{Endpoint, IpAddress, ListenEndpoint};
use crate::net::smol;
use crate::net::smol::{
    is_tcp, no_sockets, owns_storage, sockets, tcp_of, SocketView, TcpState, TcpView,
};
use crate::sorted_map::SortedMap;
use smoltcp::iface::{SocketHandle, SocketSet};
use vstd::prelude::*;

verus! {

/// Bytes of a stream's receive buffer.
pub const TCP_RX_BUF_LEN: usize = 65536;

/// Bytes of a stream's send buffer.
pub const TCP_TX_BUF_LEN: usize = 65536;

/// Bytes of a datagram socket's receive buffer.
pub const UDP_RX_BUF_LEN: usize = 65536;

/// Bytes of a datagram socket's send buffer.
pub const UDP_TX_BUF_LEN: usize = 65536;

/// Datagrams that a datagram socket can hold in each direction.
pub const UDP_PACKETS: usize = 256;

/// All sockets.
pub struct SocketSetWrapper {
    pub set: SocketSet<'static>,
}

impl View for SocketSetWrapper {
    type V = Map<SocketHandle, SocketView>;

    open spec fn view(&self) -> Map<SocketHandle, SocketView> {
        sockets(self.set)
    }
}

/// A stream socket of this library that was not used yet.
pub open spec fn new_tcp() -> TcpView {
    smol::fresh_tcp(TCP_TX_BUF_LEN as nat)
}

/// A stream is bound to this address and port.
pub open spec fn tcp_bound_to(v: SocketView, addr: IpAddress, port: u16) -> bool {
    v matches SocketView::Tcp(t) && t.tuple matches Some((local, _)) && local == (Endpoint {
        addr,
        port,
    })
}

/// A datagram socket is bound to this address and port.
pub open spec fn udp_bound_to(v: SocketView, addr: IpAddress, port: u16) -> bool {
    v matches SocketView::Udp(u) && u.endpoint == (ListenEndpoint { addr: Some(addr), port })
}

/// Some stream is bound to this address and port.
pub open spec fn tcp_taken(m: Map<SocketHandle, SocketView>, addr: IpAddress, port: u16) -> bool {
    exists|h: SocketHandle| #[trigger] m.contains_key(h) && tcp_bound_to(m[h], addr, port)
}

/// Some datagram socket is bound to this address and port.
pub open spec fn udp_taken(m: Map<SocketHandle, SocketView>, addr: IpAddress, port: u16) -> bool {
    exists|h: SocketHandle| #[trigger] m.contains_key(h) && udp_bound_to(m[h], addr, port)
}

impl SocketSetWrapper {
    /// There is always room for one more socket.
    pub open spec fn wf(&self) -> bool {
        owns_storage(self.set)
    }

    /// No sockets.
    pub fn new() -> (r: Self)
        ensures
            r.wf(),
            r@ == no_sockets(),
    {
        SocketSetWrapper { set: smol::new_set() }
    }

    /// Adds a new stream socket.
    pub fn add_tcp(&mut self) -> (h: SocketHandle)
        requires
            old(self).wf(),
        ensures
            final(self).wf(),
            !old(self)@.contains_key(h),
            final(self)@ == old(self)@.insert(h, SocketView::Tcp(new_tcp())),
    {
        let socket = smol::tcp_socket(TCP_RX_BUF_LEN, TCP_TX_BUF_LEN);
        smol::add_tcp(&mut self.set, socket)
    }

    /// Adds a new datagram socket.
    pub fn add_udp(&mut self) -> (h: SocketHandle)
        requires
            old(self).wf(),
        ensures
            final(self).wf(),
            !old(self)@.contains_key(h),
            final(self)@ == old(self)@.insert(
                h,
                SocketView::Udp(smol::fresh_udp(UDP_TX_BUF_LEN as nat, UDP_PACKETS as nat)),
            ),
    {
        let socket = smol::udp_socket(UDP_PACKETS, UDP_RX_BUF_LEN, UDP_TX_BUF_LEN);
        smol::add_udp(&mut self.set, socket)
    }

    /// Takes a socket out.
    pub fn remove(&mut self, h: SocketHandle)
        requires
            old(self).wf(),
            old(self)@.contains_key(h),
        ensures
            final(self).wf(),
            final(self)@ == old(self)@.remove(h),
    {
        smol::remove_socket(&mut self.set, h);
    }

    /// Checks that no stream is bound to an address and port.
    pub fn tcp_bind_check(&self, addr: IpAddress, port: u16) -> (r: SysResult<usize>)
        ensures
            r == (if tcp_taken(self@, addr, port) {
                Err::<usize, Errno>(Errno::EADDRINUSE)
            } else {
                Ok(0)
            }),
    {
        let list = smol::list_sockets(&self.set);
        let mut i: usize = 0;
        while i < list.len()
            invariant
                i <= list@.len(),
                forall|k: int|
                    0 <= k < list@.len() ==> self@.contains_key((#[trigger] list@[k]).0) && (
                    list@[k].1 <==> self@[list@[k].0] is Tcp),
                forall|k: int|
                    0 <= k < i ==> !tcp_bound_to(self@[(#[trigger] list@[k]).0], addr, port),
            decreases list@.len() - i,
        {
            let (h, stream) = list[i];
            assert(list@[i as int].0 == h);
            if stream {
                match smol::tcp_local(&self.set, h) {
                    Some(e) => {
                        let local = smol::from_wire(e);
                        if local.addr == addr && local.port == port {
                            proof {
                                assert(self@.contains_key(h) && tcp_bound_to(self@[h], addr, port));
                            }
                            return Err(Errno::EADDRINUSE);
                        }
                    },
                    None => {},
                }
            }
            i = i + 1;
        }
        proof {
            assert forall|h: SocketHandle| #[trigger] self@.contains_key(h) implies !tcp_bound_to(
                self@[h],
                addr,
                port,
            ) by {
                let k = choose|k: int| 0 <= k < list@.len() && (#[trigger] list@[k]).0 == h;
                assert(list@[k].0 == h);
            }
        }
        Ok(0)
    }

    /// Checks that no datagram socket is bound to an address and port.
    pub fn udp_bind_check(&self, addr: IpAddress, port: u16) -> (r: SysResult<usize>)
        ensures
            r == (if udp_taken(self@, addr, port) {
                Err::<usize, Errno>(Errno::EADDRINUSE)
            } else {
                Ok(0)
            }),
    {
        let list = smol::list_sockets(&self.set);
        let mut i: usize = 0;
        while i < list.len()
            invariant
                i <= list@.len(),
                forall|k: int|
                    0 <= k < list@.len() ==> self@.contains_key((#[trigger] list@[k]).0) && (
                    list@[k].1 <==> self@[list@[k].0] is Tcp),
                forall|k: int|
                    0 <= k < i ==> !udp_bound_to(self@[(#[trigger] list@[k]).0], addr, port),
            decreases list@.len() - i,
        {
            let (h, stream) = list[i];
            assert(list@[i as int].0 == h);
            if !stream {
                let e = smol::listen_from_wire(smol::udp_endpoint(&self.set, h));
                let same = match e.addr {
                    Some(a) => a == addr,
                    None => false,
                };
                if same && e.port == port {
                    proof {
                        assert(self@.contains_key(h) && udp_bound_to(self@[h], addr, port));
                    }
                    return Err(Errno::EADDRINUSE);
                }
            }
            i = i + 1;
        }
        proof {
            assert forall|h: SocketHandle| #[trigger] self@.contains_key(h) implies !udp_bound_to(
                self@[h],
                addr,
                port,
            ) by {
                let k = choose|k: int| 0 <= k < list@.len() && (#[trigger] list@[k]).0 == h;
                assert(list@[k].0 == h);
            }
        }
        Ok(0)
    }
}

/// The largest number of connections that wait on one port.
pub const LISTEN_QUEUE_SIZE: usize = 128;

/// A listening port: the sockets that listen, and those with a connection that
/// was not accepted yet.
pub struct ListenTableEntry {
    pub endpoint: ListenEndpoint,
    pub listen_handles: Vec<SocketHandle>,
    pub accept_queue: Vec<SocketHandle>,
    pub queue_limit: usize,
}

/// All handles are of stream sockets.
pub open spec fn all_tcp(m: Map<SocketHandle, SocketView>, hs: Seq<SocketHandle>) -> bool {
    forall|i: int| 0 <= i < hs.len() ==> is_tcp(m, #[trigger] hs[i])
}

/// The port has this socket.
pub open spec fn holds_handle(e: ListenTableEntry, h: SocketHandle) -> bool {
    e.listen_handles@.contains(h) || e.accept_queue@.contains(h)
}

/// A port's sockets exist and are different ones, and its queue is limited.
pub open spec fn entry_ok(e: ListenTableEntry, m: Map<SocketHandle, SocketView>) -> bool {
    &&& e.endpoint.port != 0
    &&& 1 <= e.queue_limit <= LISTEN_QUEUE_SIZE
    &&& all_tcp(m, e.listen_handles@)
    &&& all_tcp(m, e.accept_queue@)
    &&& (e.listen_handles@ + e.accept_queue@).no_duplicates()
    &&& e.listen_handles@.len() + e.accept_queue@.len() <= e.queue_limit
}

/// A socket that listens on an endpoint.
pub open spec fn listener(e: ListenEndpoint) -> SocketView {
    SocketView::Tcp(TcpView { state: TcpState::Listen, listen: e, ..new_tcp() })
}

/// The map with listeners added.
pub open spec fn with_listeners(
    m: Map<SocketHandle, SocketView>,
    hs: Seq<SocketHandle>,
    e: ListenEndpoint,
) -> Map<SocketHandle, SocketView>
    decreases hs.len(),
{
    if hs.len() == 0 {
        m
    } else {
        with_listeners(m, hs.drop_last(), e).insert(hs.last(), listener(e))
    }
}

/// Handles that no socket of the map has, all different.
pub open spec fn new_handles(m: Map<SocketHandle, SocketView>, hs: Seq<SocketHandle>) -> bool {
    &&& hs.no_duplicates()
    &&& forall|i: int| 0 <= i < hs.len() ==> !m.contains_key(#[trigger] hs[i])
}

/// New listeners were added until the port has as many sockets as its limit
/// allows.
pub open spec fn replenished(
    listen: Seq<SocketHandle>,
    accept: Seq<SocketHandle>,
    m: Map<SocketHandle, SocketView>,
    e: ListenTableEntry,
    m2: Map<SocketHandle, SocketView>,
) -> bool {
    let added = e.listen_handles@.skip(listen.len() as int);
    &&& listen.len() <= e.listen_handles@.len()
    &&& e.listen_handles@.take(listen.len() as int) == listen
    &&& e.accept_queue@ == accept
    &&& new_handles(m, added)
    &&& m2 == with_listeners(m, added, e.endpoint)
    &&& e.listen_handles@.len() + accept.len() == if listen.len() + accept.len() < e.queue_limit {
        e.queue_limit as int
    } else {
        (listen.len() + accept.len()) as int
    }
}

proof fn with_listeners_keys(m: Map<SocketHandle, SocketView>, hs: Seq<SocketHandle>, e: ListenEndpoint)
    ensures
        forall|h: SocketHandle| #[trigger]
            with_listeners(m, hs, e).contains_key(h) <==> m.contains_key(h) || hs.contains(h),
        forall|h: SocketHandle|
            !hs.contains(h) && m.contains_key(h) ==> #[trigger] with_listeners(m, hs, e)[h] == m[h],
        forall|h: SocketHandle|
            hs.contains(h) ==> #[trigger] with_listeners(m, hs, e)[h] == listener(e),
    decreases hs.len(),
{
    if hs.len() > 0 {
        with_listeners_keys(m, hs.drop_last(), e);
        assert forall|h: SocketHandle| hs.contains(h) <==> hs.drop_last().contains(h) || h
            == hs.last() by {
            if hs.contains(h) {
                let i = hs.index_of(h);
                if i < hs.len() - 1 {
                    assert(hs.drop_last()[i] == h);
                }
            }
            if hs.drop_last().contains(h) {
                let i = hs.drop_last().index_of(h);
                assert(hs[i] == h);
            }
            if h == hs.last() {
                assert(hs[hs.len() - 1] == h);
            }
        }
    }
}

/// What replenishing keeps: the port stays in order, and the sockets that were
/// there stay as they are.
proof fn replenished_keeps(
    listen: Seq<SocketHandle>,
    accept: Seq<SocketHandle>,
    m: Map<SocketHandle, SocketView>,
    e: ListenTableEntry,
    m2: Map<SocketHandle, SocketView>,
)
    requires
        replenished(listen, accept, m, e, m2),
        e.endpoint.port != 0,
        1 <= e.queue_limit <= LISTEN_QUEUE_SIZE,
        all_tcp(m, listen),
        all_tcp(m, accept),
        (listen + accept).no_duplicates(),
        listen.len() + accept.len() <= e.queue_limit,
    ensures
        entry_ok(e, m2),
        e.listen_handles@.len() + e.accept_queue@.len() == e.queue_limit,
        forall|h: SocketHandle| #[trigger] m.contains_key(h) ==> m2.contains_key(h) && m2[h] == m[h],
        forall|h: SocketHandle| #[trigger]
            m2.contains_key(h) ==> m.contains_key(h) || holds_handle(e, h),
        forall|h: SocketHandle| #[trigger]
            holds_handle(e, h) ==> listen.contains(h) || accept.contains(h) || !m.contains_key(h),
{
    let n = listen.len() as int;
    let all = e.listen_handles@;
    let added = all.skip(n);
    with_listeners_keys(m, added, e.endpoint);
    assert(all =~= listen + added);
    assert forall|h: SocketHandle| #[trigger] added.contains(h) implies !m.contains_key(h)
        && all.contains(h) by {
        let i = added.index_of(h);
        assert(added[i] == h);
        assert(all[n + i] == h);
    }
    assert forall|h: SocketHandle| #[trigger] all.contains(h) implies listen.contains(h)
        || added.contains(h) by {
        let i = all.index_of(h);
        if i < n {
            assert(listen[i] == h);
        } else {
            assert(added[i - n] == h);
        }
    }
    assert(all_tcp(m2, all)) by {
        assert forall|i: int| 0 <= i < all.len() implies is_tcp(m2, #[trigger] all[i]) by {
            if i < n {
                assert(listen[i] == all[i]);
                assert(is_tcp(m, listen[i]));
                assert(m.contains_key(all[i]));
                assert(!added.contains(all[i]));
            } else {
                assert(added[i - n] == all[i]);
                assert(added.contains(all[i]));
            }
        }
    }
    assert(all_tcp(m2, accept)) by {
        assert forall|i: int| 0 <= i < accept.len() implies is_tcp(m2, #[trigger] accept[i]) by {
            assert(is_tcp(m, accept[i]));
            assert(!added.contains(accept[i]));
        }
    }
    let both = all + accept;
    let old_both = listen + accept;
    assert(both.no_duplicates()) by {
        assert forall|i: int, j: int| 0 <= i < j < both.len() implies both[i] != both[j] by {
            let a = both[i];
            let b = both[j];
            let new_i = n <= i < all.len();
            let new_j = n <= j < all.len();
            if new_i {
                assert(added[i - n] == a);
                assert(!m.contains_key(a));
            }
            if new_j {
                assert(added[j - n] == b);
                assert(!m.contains_key(b));
            }
            if new_i && new_j {
            } else if new_i {
                assert(accept[j - all.len()] == b);
                assert(is_tcp(m, b));
            } else if new_j {
                if i < n {
                    assert(listen[i] == a);
                    assert(is_tcp(m, a));
                } else {
                    assert(accept[i - all.len()] == a);
                    assert(is_tcp(m, a));
                }
            } else {
                let x = if i < n {
                    i
                } else {
                    i - all.len() + n
                };
                let y = if j < n {
                    j
                } else {
                    j - all.len() + n
                };
                assert(old_both[x] == a);
                assert(old_both[y] == b);
            }
        }
    }
}

/// Sockets of a port sorted by what became of them: connected ones are queued
/// as far as the limit allows, listening ones stay, all others go.
pub struct Sorted {
    pub accept: Seq<SocketHandle>,
    pub pending: Seq<SocketHandle>,
    pub removed: Seq<SocketHandle>,
}

/// Sorts the sockets that listened, behind those that are queued already.
pub open spec fn sorted_out(
    m: Map<SocketHandle, SocketView>,
    hs: Seq<SocketHandle>,
    accept: Seq<SocketHandle>,
    limit: int,
) -> Sorted
    decreases hs.len(),
{
    if hs.len() == 0 {
        Sorted { accept, pending: Seq::empty(), removed: Seq::empty() }
    } else {
        let s = sorted_out(m, hs.drop_last(), accept, limit);
        let h = hs.last();
        let state = tcp_of(m, h).state;
        if s.accept.len() < limit && state == TcpState::Established {
            Sorted { accept: s.accept.push(h), ..s }
        } else if state == TcpState::Listen || state == TcpState::SynReceived {
            Sorted { pending: s.pending.push(h), ..s }
        } else {
            Sorted { removed: s.removed.push(h), ..s }
        }
    }
}

/// The port after its sockets were sorted and replenished.
pub open spec fn promoted(
    e: ListenTableEntry,
    m: Map<SocketHandle, SocketView>,
    e2: ListenTableEntry,
    m2: Map<SocketHandle, SocketView>,
) -> bool {
    let s = sorted_out(m, e.listen_handles@, e.accept_queue@, e.queue_limit as int);
    &&& e2.endpoint == e.endpoint
    &&& e2.queue_limit == e.queue_limit
    &&& replenished(s.pending, s.accept, m.remove_keys(s.removed.to_set()), e2, m2)
}

proof fn contains_push(s: Seq<SocketHandle>, h: SocketHandle)
    ensures
        forall|x: SocketHandle| #[trigger] s.push(h).contains(x) <==> s.contains(x) || x == h,
{
    assert forall|x: SocketHandle| #[trigger] s.push(h).contains(x) <==> s.contains(x) || x == h by {
        if s.contains(x) {
            assert(s.push(h)[s.index_of(x)] == x);
        }
        if x == h {
            assert(s.push(h)[s.len() as int] == x);
        }
        if s.push(h).contains(x) {
            let i = s.push(h).index_of(x);
            if i < s.len() {
                assert(s[i] == x);
            }
        }
    }
}

proof fn sorted_out_comes_from(
    m: Map<SocketHandle, SocketView>,
    hs: Seq<SocketHandle>,
    accept: Seq<SocketHandle>,
    limit: int,
)
    requires
        (hs + accept).no_duplicates(),
    ensures
        ({
            let s = sorted_out(m, hs, accept, limit);
            &&& forall|h: SocketHandle| #[trigger] s.pending.contains(h) ==> hs.contains(h)
            &&& forall|h: SocketHandle| #[trigger] s.removed.contains(h) ==> hs.contains(h)
            &&& forall|h: SocketHandle| #[trigger]
                s.accept.contains(h) ==> hs.contains(h) || accept.contains(h)
            &&& (s.pending + s.accept).no_duplicates()
            &&& forall|h: SocketHandle| #[trigger]
                s.removed.contains(h) ==> !s.pending.contains(h) && !s.accept.contains(h)
            &&& s.pending.len() + s.accept.len() + s.removed.len() == hs.len() + accept.len()
        }),
    decreases hs.len(),
{
    if hs.len() == 0 {
        assert(Seq::<SocketHandle>::empty() + accept =~= accept);
        assert(hs + accept =~= accept);
    } else {
        let t = hs.drop_last();
        let h = hs.last();
        let s = sorted_out(m, t, accept, limit);
        assert((t + accept).no_duplicates()) by {
            assert forall|i: int, j: int| 0 <= i < j < (t + accept).len() implies (t + accept)[i] != (t
                + accept)[j] by {
                let both = hs + accept;
                let x = if i < t.len() {
                    i
                } else {
                    i + 1
                };
                let y = if j < t.len() {
                    j
                } else {
                    j + 1
                };
                assert(both[x] == (t + accept)[i]);
                assert(both[y] == (t + accept)[j]);
            }
        }
        sorted_out_comes_from(m, t, accept, limit);
        contains_push(s.pending, h);
        contains_push(s.removed, h);
        contains_push(s.accept, h);
        contains_push(t, h);
        assert(t.push(h) =~= hs);
        assert(!t.contains(h)) by {
            if t.contains(h) {
                let i = t.index_of(h);
                assert((hs + accept)[i] == h);
                assert((hs + accept)[hs.len() - 1] == h);
            }
        }
        assert(!accept.contains(h)) by {
            if accept.contains(h) {
                let i = accept.index_of(h);
                assert((hs + accept)[hs.len() + i] == h);
                assert((hs + accept)[hs.len() - 1] == h);
            }
        }
        let r = sorted_out(m, hs, accept, limit);
        assert((r.pending + r.accept).no_duplicates()) by {
            no_duplicates_push(s.pending, s.accept, h);
        }
    }
}

proof fn no_duplicates_push(a: Seq<SocketHandle>, b: Seq<SocketHandle>, h: SocketHandle)
    requires
        (a + b).no_duplicates(),
        !a.contains(h),
        !b.contains(h),
    ensures
        (a.push(h) + b).no_duplicates(),
        (a + b.push(h)).no_duplicates(),
{
    let ab = a + b;
    assert forall|i: int, j: int| 0 <= i < j < (a.push(h) + b).len() implies (a.push(h) + b)[i] != (
    a.push(h) + b)[j] by {
        if i == a.len() {
            assert(b[j - a.len() - 1] == (a.push(h) + b)[j]);
        } else if j == a.len() {
            assert(a[i] == (a.push(h) + b)[i]);
        } else {
            let x = if i < a.len() {
                i
            } else {
                i - 1
            };
            let y = if j < a.len() {
                j
            } else {
                j - 1
            };
            assert(ab[x] == (a.push(h) + b)[i]);
            assert(ab[y] == (a.push(h) + b)[j]);
        }
    }
    assert forall|i: int, j: int| 0 <= i < j < (a + b.push(h)).len() implies (a + b.push(h))[i] != (a
        + b.push(h))[j] by {
        assert(ab[i] == (a + b.push(h))[i]);
        if j < ab.len() {
            assert(ab[j] == (a + b.push(h))[j]);
        } else if i < a.len() {
            assert(a[i] == ab[i]);
        } else {
            assert(b[i - a.len()] == ab[i]);
        }
    }
}

impl ListenTableEntry {
    /// A port with one listening socket. At least one connection may wait, and
    /// at most `LISTEN_QUEUE_SIZE`.
    pub fn new(endpoint: ListenEndpoint, handle: SocketHandle, backlog: usize) -> (r: Self)
        ensures
            r.endpoint == endpoint,
            r.listen_handles@ == seq![handle],
            r.accept_queue@.len() == 0,
            r.queue_limit == (if backlog < 1 {
                1
            } else if backlog > LISTEN_QUEUE_SIZE {
                LISTEN_QUEUE_SIZE
            } else {
                backlog
            }),
    {
        let queue_limit: usize = if backlog < 1 {
            1
        } else if backlog > LISTEN_QUEUE_SIZE {
            LISTEN_QUEUE_SIZE
        } else {
            backlog
        };
        let mut listen_handles: Vec<SocketHandle> = Vec::new();
        listen_handles.push(handle);
        ListenTableEntry { endpoint, listen_handles, accept_queue: Vec::new(), queue_limit }
    }

    /// Adds listeners until the port has as many sockets as its limit allows.
    fn replenish_listeners(&mut self, socks: &mut SocketSetWrapper)
        requires
            old(socks).wf(),
            old(self).endpoint.port != 0,
            old(self).queue_limit <= LISTEN_QUEUE_SIZE,
            old(self).accept_queue@.len() <= LISTEN_QUEUE_SIZE,
        ensures
            final(socks).wf(),
            final(self).endpoint == old(self).endpoint,
            final(self).queue_limit == old(self).queue_limit,
            final(self).accept_queue == old(self).accept_queue,
            replenished(
                old(self).listen_handles@,
                old(self).accept_queue@,
                old(socks)@,
                *final(self),
                final(socks)@,
            ),
    {
        let ghost l0 = self.listen_handles@;
        let ghost m0 = socks@;
        let queued: usize = self.accept_queue.len();
        let limit: usize = self.queue_limit;
        proof {
            assert(l0.skip(l0.len() as int) =~= Seq::<SocketHandle>::empty());
            assert(l0.take(l0.len() as int) =~= l0);
        }
        while self.listen_handles.len() < limit && self.listen_handles.len() + queued < limit
            invariant
                socks.wf(),
                self.endpoint == old(self).endpoint,
                self.queue_limit == old(self).queue_limit,
                self.accept_queue == old(self).accept_queue,
                queued == self.accept_queue@.len(),
                queued <= LISTEN_QUEUE_SIZE,
                limit == self.queue_limit,
                limit <= LISTEN_QUEUE_SIZE,
                self.endpoint.port != 0,
                l0 == old(self).listen_handles@,
                m0 == old(socks)@,
                l0.len() <= self.listen_handles@.len(),
                self.listen_handles@.take(l0.len() as int) == l0,
                new_handles(m0, self.listen_handles@.skip(l0.len() as int)),
                socks@ == with_listeners(
                    m0,
                    self.listen_handles@.skip(l0.len() as int),
                    self.endpoint,
                ),
                self.listen_handles@.len() > l0.len() ==> self.listen_handles@.len() + queued <= limit,
            decreases limit - self.listen_handles@.len(),
        {
            let ghost before = self.listen_handles@;
            let ghost added = before.skip(l0.len() as int);
            let handle = socks.add_tcp();
            let listening = smol::listen_tcp(&mut socks.set, handle, smol::listen_to_wire(self.endpoint));
            proof {
                let m1 = with_listeners(m0, added, self.endpoint);
                with_listeners_keys(m0, added, self.endpoint);
                assert(listening);
                assert(socks@ =~= m1.insert(handle, listener(self.endpoint)));
                let now = before.push(handle);
                assert(now.skip(l0.len() as int) =~= added.push(handle));
                assert(added.push(handle).drop_last() =~= added);
                assert(now.take(l0.len() as int) =~= before.take(l0.len() as int));
                assert(!m0.contains_key(handle));
                assert(!added.contains(handle));
                assert(added.push(handle).no_duplicates()) by {
                    assert forall|i: int, j: int|
                        0 <= i < j < added.push(handle).len() implies added.push(handle)[i]
                        != added.push(handle)[j] by {
                        if j == added.len() {
                            assert(added[i] == added.push(handle)[i]);
                        }
                    }
                }
            }
            self.listen_handles.push(handle);
        }
    }

    /// Queues the connections that were made since, as far as the limit allows,
    /// drops the sockets that came to nothing and adds new listeners.
    pub fn promote(&mut self, socks: &mut SocketSetWrapper)
        requires
            old(socks).wf(),
            entry_ok(*old(self), old(socks)@),
        ensures
            final(socks).wf(),
            promoted(*old(self), old(socks)@, *final(self), final(socks)@),
            entry_ok(*final(self), final(socks)@),
            kept_outside(*old(self), old(socks)@, *final(self), final(socks)@),
    {
        let ghost e0 = *self;
        let ghost m0 = socks@;
        let ghost hs = self.listen_handles@;
        let ghost q0 = self.accept_queue@;
        let limit: usize = self.queue_limit;
        let mut pending: Vec<SocketHandle> = Vec::new();
        let mut i: usize = 0;
        proof {
            assert(hs.take(0) =~= Seq::<SocketHandle>::empty());
            assert(m0.remove_keys(Seq::<SocketHandle>::empty().to_set()) =~= m0);
        }
        while i < self.listen_handles.len()
            invariant
                socks.wf(),
                i <= hs.len(),
                hs == self.listen_handles@,
                e0 == *old(self),
                m0 == old(socks)@,
                hs == e0.listen_handles@,
                q0 == e0.accept_queue@,
                limit == self.queue_limit,
                self.queue_limit == e0.queue_limit,
                self.endpoint == e0.endpoint,
                entry_ok(e0, m0),
                pending@ == sorted_out(m0, hs.take(i as int), q0, limit as int).pending,
                self.accept_queue@ == sorted_out(m0, hs.take(i as int), q0, limit as int).accept,
                socks@ == m0.remove_keys(
                    sorted_out(m0, hs.take(i as int), q0, limit as int).removed.to_set(),
                ),
            decreases hs.len() - i,
        {
            let h = self.listen_handles[i];
            proof {
                let t = hs.take(i as int);
                let s = sorted_out(m0, t, q0, limit as int);
                prefix_no_duplicates(hs, q0, i as int);
                sorted_out_comes_from(m0, t, q0, limit as int);
                assert(hs.take(i + 1).drop_last() =~= t);
                assert(hs.take(i + 1).last() == h);
                assert(!s.removed.contains(h)) by {
                    if s.removed.contains(h) {
                        assert(t.contains(h));
                        let k = t.index_of(h);
                        assert((hs + q0)[k] == h);
                        assert((hs + q0)[i as int] == h);
                    }
                }
                assert(is_tcp(m0, hs[i as int]));
                assert(!s.removed.to_set().contains(h));
                assert(is_tcp(socks@, h));
                assert(s.removed.push(h).to_set() =~= s.removed.to_set().insert(h)) by {
                    contains_push(s.removed, h);
                }
                assert(m0.remove_keys(s.removed.push(h).to_set()) =~= m0.remove_keys(
                    s.removed.to_set(),
                ).remove(h));
            }
            let state = smol::tcp_state(&socks.set, h);
            let connected = match state {
                TcpState::Established => true,
                _ => false,
            };
            let listening = match state {
                TcpState::Listen | TcpState::SynReceived => true,
                _ => false,
            };
            if self.accept_queue.len() < limit && connected {
                self.accept_queue.push(h);
            } else if listening {
                pending.push(h);
            } else {
                socks.remove(h);
            }
            i = i + 1;
        }
        proof {
            assert(hs.take(i as int) =~= hs);
            let s = sorted_out(m0, hs, q0, limit as int);
            sorted_out_comes_from(m0, hs, q0, limit as int);
            assert(all_tcp(socks@, s.pending)) by {
                assert forall|k: int| 0 <= k < s.pending.len() implies is_tcp(
                    socks@,
                    #[trigger] s.pending[k],
                ) by {
                    let h = s.pending[k];
                    assert(s.pending.contains(h));
                    let j = hs.index_of(h);
                    assert(is_tcp(m0, hs[j]));
                    assert(!s.removed.contains(h));
                }
            }
            assert(all_tcp(socks@, s.accept)) by {
                assert forall|k: int| 0 <= k < s.accept.len() implies is_tcp(
                    socks@,
                    #[trigger] s.accept[k],
                ) by {
                    let h = s.accept[k];
                    assert(s.accept.contains(h));
                    if hs.contains(h) {
                        let j = hs.index_of(h);
                        assert(is_tcp(m0, hs[j]));
                    } else {
                        let j = q0.index_of(h);
                        assert(is_tcp(m0, q0[j]));
                    }
                    assert(!s.removed.contains(h));
                }
            }
        }
        self.listen_handles = pending;
        let ghost m1 = socks@;
        self.replenish_listeners(socks);
        proof {
            let s = sorted_out(m0, hs, q0, limit as int);
            replenished_keeps(s.pending, s.accept, m1, *self, socks@);
            assert(kept_outside(e0, m0, *self, socks@)) by {
                assert forall|h: SocketHandle|
                    #[trigger] m0.contains_key(h) && !holds_handle(e0, h) implies socks@.contains_key(
                    h,
                ) && socks@[h] == m0[h] && !holds_handle(*self, h) by {
                    assert(!s.removed.contains(h));
                    assert(m1.contains_key(h) && m1[h] == m0[h]);
                    if holds_handle(*self, h) {
                        assert(s.pending.contains(h) || s.accept.contains(h) || !m1.contains_key(h));
                    }
                }
            }
        }
    }

    /// Takes the first usable connection out of the queue and adds a new
    /// listener in its place. Connections that are gone already are dropped.
    pub fn accept_next(&mut self, socks: &mut SocketSetWrapper) -> (r: Option<
        (SocketHandle, (Endpoint, Endpoint)),
    >)
        requires
            old(socks).wf(),
            entry_ok(*old(self), old(socks)@),
        ensures
            final(socks).wf(),
            accepted(*old(self), old(socks)@, *final(self), final(socks)@, r),
            entry_ok(*final(self), final(socks)@),
            kept_outside(*old(self), old(socks)@, *final(self), final(socks)@),
            r matches Some((h, _)) ==> is_tcp(final(socks)@, h) && holds_handle(*old(self), h)
                && !holds_handle(*final(self), h),
    {
        let ghost e0 = *self;
        let ghost m0 = socks@;
        let ghost q0 = self.accept_queue@;
        let ghost mut i: int = 0;
        proof {
            assert(q0.skip(0) =~= q0);
            assert(m0.remove_keys(q0.take(0).to_set()) =~= m0);
        }
        while self.accept_queue.len() > 0
            invariant
                socks.wf(),
                0 <= i <= q0.len(),
                e0 == *old(self),
                m0 == old(socks)@,
                q0 == e0.accept_queue@,
                entry_ok(e0, m0),
                self.accept_queue@ == q0.skip(i),
                self.endpoint == e0.endpoint,
                self.queue_limit == e0.queue_limit,
                self.listen_handles == e0.listen_handles,
                socks@ == m0.remove_keys(q0.take(i).to_set()),
                forall|j: int| 0 <= j < i ==> !usable(m0)(#[trigger] q0[j]),
            decreases self.accept_queue@.len(),
        {
            let h = self.accept_queue.remove(0);
            proof {
                assert(h == q0[i]);
                assert(self.accept_queue@ =~= q0.skip(i + 1));
                assert(is_tcp(m0, q0[i]));
                assert(!q0.take(i).contains(h)) by {
                    if q0.take(i).contains(h) {
                        let k = q0.take(i).index_of(h);
                        let n = e0.listen_handles@.len() as int;
                        assert((e0.listen_handles@ + q0)[n + k] == h);
                        assert((e0.listen_handles@ + q0)[n + i] == h);
                    }
                }
                assert(is_tcp(socks@, h));
                assert(q0.take(i + 1) =~= q0.take(i).push(h));
                contains_push(q0.take(i), h);
                assert(m0.remove_keys(q0.take(i + 1).to_set()) =~= m0.remove_keys(
                    q0.take(i).to_set(),
                ).remove(h));
            }
            let closed = match smol::tcp_state(&socks.set, h) {
                TcpState::Closed => true,
                _ => false,
            };
            if !closed {
                match get_addr_tuple(socks, h) {
                    Some(t) => {
                        let ghost m1 = socks@;
                        self.replenish_listeners(socks);
                        proof {
                            crate::seqs::first_is(q0, usable(m0), i);
                            after_taking(e0, m0, i + 1);
                            assert(m1.contains_key(h));
                            assert(all_tcp(m1, q0.skip(i + 1))) by {
                                assert forall|k: int| 0 <= k < q0.skip(i + 1).len() implies is_tcp(
                                    m1,
                                    #[trigger] q0.skip(i + 1)[k],
                                ) by {
                                    let x = q0.skip(i + 1)[k];
                                    assert(x == q0[i + 1 + k]);
                                    assert(is_tcp(m0, q0[i + 1 + k]));
                                    assert(!q0.take(i + 1).contains(x));
                                    if q0.take(i).contains(x) {
                                        let z = q0.take(i).index_of(x);
                                        assert(q0.take(i + 1)[z] == x);
                                    }
                                }
                            }
                            assert(all_tcp(m1, e0.listen_handles@)) by {
                                assert forall|k: int|
                                    0 <= k < e0.listen_handles@.len() implies is_tcp(
                                    m1,
                                    #[trigger] e0.listen_handles@[k],
                                ) by {
                                    let x = e0.listen_handles@[k];
                                    assert(is_tcp(m0, x));
                                    if q0.take(i).contains(x) {
                                        let z = q0.take(i).index_of(x);
                                        assert(q0.take(i + 1)[z] == x);
                                    }
                                }
                            }
                            replenished_keeps(
                                e0.listen_handles@,
                                q0.skip(i + 1),
                                m1,
                                *self,
                                socks@,
                            );
                            assert(q0.contains(h));
                            assert(!holds_handle(*self, h)) by {
                                if holds_handle(*self, h) {
                                    if q0.skip(i + 1).contains(h) {
                                        let k = q0.skip(i + 1).index_of(h);
                                        let n = e0.listen_handles@.len() as int;
                                        assert((e0.listen_handles@ + q0)[n + i] == h);
                                        assert((e0.listen_handles@ + q0)[n + i + 1 + k] == h);
                                    }
                                    if e0.listen_handles@.contains(h) {
                                        let k = e0.listen_handles@.index_of(h);
                                        let n = e0.listen_handles@.len() as int;
                                        assert((e0.listen_handles@ + q0)[n + i] == h);
                                        assert((e0.listen_handles@ + q0)[k] == h);
                                    }
                                }
                            }
                            assert(kept_outside(e0, m0, *self, socks@)) by {
                                assert forall|x: SocketHandle|
                                    #[trigger] m0.contains_key(x) && !holds_handle(
                                        e0,
                                        x,
                                    ) implies socks@.contains_key(x) && socks@[x] == m0[x]
                                    && !holds_handle(*self, x) by {
                                    if q0.take(i).contains(x) {
                                        let z = q0.take(i).index_of(x);
                                        assert(q0[z] == x);
                                    }
                                    assert(m1.contains_key(x) && m1[x] == m0[x]);
                                    if q0.skip(i + 1).contains(x) {
                                        let z = q0.skip(i + 1).index_of(x);
                                        assert(q0[i + 1 + z] == x);
                                    }
                                }
                            }
                        }
                        return Some((h, t));
                    },
                    None => {},
                }
            }
            socks.remove(h);
            proof {
                i = i + 1;
            }
        }
        proof {
            assert(i == q0.len());
            assert(q0.take(i) =~= q0);
            crate::seqs::first_is_none(q0, usable(m0));
            after_taking(e0, m0, i);
            assert(q0.skip(i) =~= Seq::<SocketHandle>::empty());
            assert(kept_outside(e0, m0, *self, socks@));
        }
        None
    }
}

/// Sockets that the port did not have are neither touched nor taken.
pub open spec fn kept_outside(
    e: ListenTableEntry,
    m: Map<SocketHandle, SocketView>,
    e2: ListenTableEntry,
    m2: Map<SocketHandle, SocketView>,
) -> bool {
    forall|h: SocketHandle|
        #[trigger] m.contains_key(h) && !holds_handle(e, h) ==> m2.contains_key(h) && m2[h] == m[h]
            && !holds_handle(e2, h)
}

/// A queued connection that can be accepted: it is not closed and has both its
/// endpoints.
pub open spec fn usable(m: Map<SocketHandle, SocketView>) -> spec_fn(SocketHandle) -> bool {
    |h: SocketHandle| tcp_of(m, h).state != TcpState::Closed && tcp_of(m, h).tuple is Some
}

/// What accepting a connection does: those in front of the first usable one are
/// dropped, and if there is none, all are.
pub open spec fn accepted(
    e: ListenTableEntry,
    m: Map<SocketHandle, SocketView>,
    e2: ListenTableEntry,
    m2: Map<SocketHandle, SocketView>,
    r: Option<(SocketHandle, (Endpoint, Endpoint))>,
) -> bool {
    let q = e.accept_queue@;
    &&& e2.endpoint == e.endpoint
    &&& e2.queue_limit == e.queue_limit
    &&& match crate::seqs::first_index(q, usable(m)) {
        Some(i) => {
            &&& r == Some((q[i], tcp_of(m, q[i]).tuple->0))
            &&& replenished(
                e.listen_handles@,
                q.skip(i + 1),
                m.remove_keys(q.take(i).to_set()),
                e2,
                m2,
            )
        },
        None => {
            &&& r is None
            &&& e2.listen_handles == e.listen_handles
            &&& e2.accept_queue@.len() == 0
            &&& m2 == m.remove_keys(q.to_set())
        },
    }
}

proof fn prefix_no_duplicates(a: Seq<SocketHandle>, b: Seq<SocketHandle>, i: int)
    requires
        (a + b).no_duplicates(),
        0 <= i <= a.len(),
    ensures
        (a.take(i) + b).no_duplicates(),
{
    let t = a.take(i) + b;
    assert forall|x: int, y: int| 0 <= x < y < t.len() implies t[x] != t[y] by {
        let p = if x < i {
            x
        } else {
            x - i + a.len()
        };
        let q = if y < i {
            y
        } else {
            y - i + a.len()
        };
        assert((a + b)[p] == t[x]);
        assert((a + b)[q] == t[y]);
    }
}

proof fn after_taking(e: ListenTableEntry, m: Map<SocketHandle, SocketView>, i: int)
    requires
        entry_ok(e, m),
        0 <= i <= e.accept_queue@.len(),
    ensures
        (e.listen_handles@ + e.accept_queue@.skip(i)).no_duplicates(),
        all_tcp(m.remove_keys(e.accept_queue@.take(i).to_set()), e.listen_handles@),
        all_tcp(m.remove_keys(e.accept_queue@.take(i).to_set()), e.accept_queue@.skip(i)),
        forall|k: int|
            0 <= k < e.listen_handles@.len() ==> !e.accept_queue@.take(i).contains(
                #[trigger] e.listen_handles@[k],
            ),
        forall|k: int|
            i <= k < e.accept_queue@.len() ==> !e.accept_queue@.take(i).contains(
                #[trigger] e.accept_queue@[k],
            ),
{
    let l = e.listen_handles@;
    let q = e.accept_queue@;
    let n = l.len() as int;
    let both = l + q;
    let t = l + q.skip(i);
    assert forall|x: int, y: int| 0 <= x < y < t.len() implies t[x] != t[y] by {
        let p = if x < n {
            x
        } else {
            x + i
        };
        let r = if y < n {
            y
        } else {
            y + i
        };
        assert(both[p] == t[x]);
        assert(both[r] == t[y]);
    }
    let m1 = m.remove_keys(q.take(i).to_set());
    assert forall|k: int| 0 <= k < n implies !q.take(i).contains(#[trigger] l[k]) by {
        if q.take(i).contains(l[k]) {
            let z = q.take(i).index_of(l[k]);
            assert(both[k] == l[k]);
            assert(both[n + z] == l[k]);
        }
    }
    assert forall|k: int| i <= k < q.len() implies !q.take(i).contains(#[trigger] q[k]) by {
        if q.take(i).contains(q[k]) {
            let z = q.take(i).index_of(q[k]);
            assert(both[n + k] == q[k]);
            assert(both[n + z] == q[k]);
        }
    }
    assert forall|k: int| 0 <= k < n implies is_tcp(m1, #[trigger] l[k]) by {
        assert(is_tcp(m, l[k]));
    }
    assert forall|k: int| 0 <= k < q.skip(i).len() implies is_tcp(m1, #[trigger] q.skip(i)[k]) by {
        assert(q.skip(i)[k] == q[i + k]);
        assert(is_tcp(m, q[i + k]));
    }
}

/// The endpoints of a connection, if it has both.
fn get_addr_tuple(socks: &SocketSetWrapper, h: SocketHandle) -> (r: Option<(Endpoint, Endpoint)>)
    requires
        is_tcp(socks@, h),
    ensures
        r == tcp_of(socks@, h).tuple,
{
    match smol::tcp_local(&socks.set, h) {
        None => None,
        Some(a) => match smol::tcp_remote(&socks.set, h) {
            None => None,
            Some(b) => Some((smol::from_wire(a), smol::from_wire(b))),
        },
    }
}

/// The listening ports, and the order in which they were opened.
pub struct ListenTable {
    pub table: SortedMap<ListenTableEntry>,
    pub active_ports: Vec<u16>,
}

impl View for ListenTable {
    type V = Map<usize, ListenTableEntry>;

    open spec fn view(&self) -> Map<usize, ListenTableEntry> {
        self.table@
    }
}

/// Some port has this socket.
pub open spec fn owns(t: Map<usize, ListenTableEntry>, h: SocketHandle) -> bool {
    exists|p: usize| #[trigger] t.contains_key(p) && holds_handle(t[p], h)
}

/// Every port is in order, and no two have a socket in common.
pub open spec fn ports_ok(t: Map<usize, ListenTableEntry>, m: Map<SocketHandle, SocketView>) -> bool {
    &&& forall|p: usize| #[trigger]
        t.contains_key(p) ==> entry_ok(t[p], m) && t[p].endpoint.port == p
    &&& forall|p: usize, q: usize, h: SocketHandle|
        #![trigger holds_handle(t[p], h), holds_handle(t[q], h)]
        t.contains_key(p) && t.contains_key(q) && holds_handle(t[p], h) && holds_handle(t[q], h)
            ==> p == q
}

/// Sockets that no port had are neither touched nor taken.
pub open spec fn others_kept(
    t: Map<usize, ListenTableEntry>,
    m: Map<SocketHandle, SocketView>,
    t2: Map<usize, ListenTableEntry>,
    m2: Map<SocketHandle, SocketView>,
) -> bool {
    forall|h: SocketHandle|
        #[trigger] m.contains_key(h) && !owns(t, h) ==> m2.contains_key(h) && m2[h] == m[h] && !owns(
            t2,
            h,
        )
}

/// The port was promoted, if it is open.
pub open spec fn port_promoted(
    port: usize,
    t: Map<usize, ListenTableEntry>,
    m: Map<SocketHandle, SocketView>,
    t2: Map<usize, ListenTableEntry>,
    m2: Map<SocketHandle, SocketView>,
) -> bool {
    if t.contains_key(port) {
        &&& t2.contains_key(port)
        &&& t2 == t.insert(port, t2[port])
        &&& promoted(t[port], m, t2[port], m2)
    } else {
        t2 == t && m2 == m
    }
}

/// The ports were promoted one after the other.
pub open spec fn ports_promoted(
    ports: Seq<u16>,
    t: Map<usize, ListenTableEntry>,
    m: Map<SocketHandle, SocketView>,
    t2: Map<usize, ListenTableEntry>,
    m2: Map<SocketHandle, SocketView>,
) -> bool
    decreases ports.len(),
{
    if ports.len() == 0 {
        t2 == t && m2 == m
    } else {
        exists|t1: Map<usize, ListenTableEntry>, m1: Map<SocketHandle, SocketView>| #[trigger]
            port_promoted(ports.last() as usize, t1, m1, t2, m2) && ports_promoted(
                ports.drop_last(),
                t,
                m,
                t1,
                m1,
            )
    }
}

proof fn entry_changed(
    t: Map<usize, ListenTableEntry>,
    m: Map<SocketHandle, SocketView>,
    port: usize,
    e2: ListenTableEntry,
    m2: Map<SocketHandle, SocketView>,
)
    requires
        ports_ok(t, m),
        t.contains_key(port),
        entry_ok(e2, m2),
        e2.endpoint == t[port].endpoint,
        kept_outside(t[port], m, e2, m2),
    ensures
        ports_ok(t.insert(port, e2), m2),
        others_kept(t, m, t.insert(port, e2), m2),
{
    let t2 = t.insert(port, e2);
    assert forall|p: usize, h: SocketHandle|
        t.contains_key(p) && p != port && #[trigger] holds_handle(t[p], h) implies m2.contains_key(h)
        && m2[h] == m[h] && !holds_handle(e2, h) && is_tcp(m, h) by {
        handle_is_tcp(t[p], m, h);
        assert(!holds_handle(t[port], h));
    }
    assert forall|p: usize| #[trigger] t2.contains_key(p) implies entry_ok(t2[p], m2)
        && t2[p].endpoint.port == p by {
        if p != port {
            assert(t.contains_key(p));
            let e = t[p];
            assert forall|i: int| 0 <= i < e.listen_handles@.len() implies is_tcp(
                m2,
                #[trigger] e.listen_handles@[i],
            ) by {
                assert(e.listen_handles@.contains(e.listen_handles@[i]));
                assert(holds_handle(t[p], e.listen_handles@[i]));
            }
            assert forall|i: int| 0 <= i < e.accept_queue@.len() implies is_tcp(
                m2,
                #[trigger] e.accept_queue@[i],
            ) by {
                assert(e.accept_queue@.contains(e.accept_queue@[i]));
                assert(holds_handle(t[p], e.accept_queue@[i]));
            }
        }
    }
    assert forall|p: usize, q: usize, h: SocketHandle|
        #![trigger holds_handle(t2[p], h), holds_handle(t2[q], h)]
        t2.contains_key(p) && t2.contains_key(q) && holds_handle(t2[p], h) && holds_handle(
            t2[q],
            h,
        ) implies p == q by {
        if p != q {
            if p == port {
                assert(holds_handle(t[q], h));
            } else if q == port {
                assert(holds_handle(t[p], h));
            } else {
                assert(holds_handle(t[p], h) && holds_handle(t[q], h));
            }
        }
    }
    assert forall|h: SocketHandle| #[trigger] m.contains_key(h) && !owns(t, h) implies m2.contains_key(
        h,
    ) && m2[h] == m[h] && !owns(t2, h) by {
        assert(!holds_handle(t[port], h));
        if owns(t2, h) {
            let p = choose|p: usize| #[trigger] t2.contains_key(p) && holds_handle(t2[p], h);
            if p != port {
                assert(t.contains_key(p) && holds_handle(t[p], h));
            }
        }
    }
}

proof fn handle_is_tcp(e: ListenTableEntry, m: Map<SocketHandle, SocketView>, h: SocketHandle)
    requires
        entry_ok(e, m),
        holds_handle(e, h),
    ensures
        is_tcp(m, h),
{
    if e.listen_handles@.contains(h) {
        let i = e.listen_handles@.index_of(h);
        assert(is_tcp(m, e.listen_handles@[i]));
    } else {
        let i = e.accept_queue@.index_of(h);
        assert(is_tcp(m, e.accept_queue@[i]));
    }
}

proof fn kept_twice(
    t: Map<usize, ListenTableEntry>,
    m: Map<SocketHandle, SocketView>,
    t1: Map<usize, ListenTableEntry>,
    m1: Map<SocketHandle, SocketView>,
    t2: Map<usize, ListenTableEntry>,
    m2: Map<SocketHandle, SocketView>,
)
    requires
        others_kept(t, m, t1, m1),
        others_kept(t1, m1, t2, m2),
    ensures
        others_kept(t, m, t2, m2),
{
    assert forall|h: SocketHandle| #[trigger] m.contains_key(h) && !owns(t, h) implies m2.contains_key(
        h,
    ) && m2[h] == m[h] && !owns(t2, h) by {
        assert(m1.contains_key(h) && !owns(t1, h));
    }
}

impl ListenTable {
    /// The ports are in order, and listed in the order they were opened.
    pub open spec fn wf(&self, m: Map<SocketHandle, SocketView>) -> bool {
        &&& self.table.wf()
        &&& ports_ok(self.table@, m)
        &&& self.active_ports@.no_duplicates()
        &&& forall|p: u16| #[trigger]
            self.active_ports@.contains(p) <==> self.table@.contains_key(p as usize)
    }

    /// No port is open.
    pub fn new() -> (r: Self)
        ensures
            forall|m: Map<SocketHandle, SocketView>| r.wf(m),
            forall|p: usize| !r@.contains_key(p),
            r.active_ports@.len() == 0,
    {
        ListenTable { table: SortedMap::new(), active_ports: Vec::new() }
    }

    /// Tells whether a port is free.
    pub fn can_listen(&self, port: u16) -> (r: bool)
        requires
            self.table.wf(),
        ensures
            r == !self@.contains_key(port as usize),
    {
        !self.table.contains_key(port as usize)
    }

    /// Opens a port with a first listening socket and adds further ones.
    pub fn listen(
        &mut self,
        socks: &mut SocketSetWrapper,
        endpoint: ListenEndpoint,
        handle: SocketHandle,
        backlog: usize,
    ) -> (r: SysResult<()>)
        requires
            old(socks).wf(),
            old(self).wf(old(socks)@),
            endpoint.port != 0,
            is_tcp(old(socks)@, handle),
            !owns(old(self)@, handle),
        ensures
            final(socks).wf(),
            final(self).wf(final(socks)@),
            if old(self)@.contains_key(endpoint.port as usize) {
                &&& r == Err::<(), Errno>(Errno::EADDRINUSE)
                &&& *final(self) == *old(self)
                &&& final(socks)@ == old(socks)@
            } else {
                let port = endpoint.port as usize;
                let e = final(self)@[port];
                &&& r is Ok
                &&& final(self)@ == old(self)@.insert(port, e)
                &&& final(self)@.contains_key(port)
                &&& e.endpoint == endpoint
                &&& e.queue_limit == clamped(backlog)
                &&& replenished(seq![handle], Seq::empty(), old(socks)@, e, final(socks)@)
                &&& final(self).active_ports@ == old(self).active_ports@.push(endpoint.port)
                &&& forall|h: SocketHandle|
                    #[trigger] old(socks)@.contains_key(h) ==> final(socks)@.contains_key(h)
                        && final(socks)@[h] == old(socks)@[h] && (owns(final(self)@, h) <==> owns(
                        old(self)@,
                        h,
                    ) || h == handle)
            },
    {
        let port: usize = endpoint.port as usize;
        if self.table.contains_key(port) {
            return Err(Errno::EADDRINUSE);
        }
        let ghost t0 = self.table@;
        let ghost m0 = socks@;
        let ghost ports = self.active_ports@;
        let mut e = ListenTableEntry::new(endpoint, handle, backlog);
        let ghost first = e;
        e.replenish_listeners(socks);
        proof {
            let l = seq![handle];
            let q = Seq::<SocketHandle>::empty();
            assert(first.accept_queue@ =~= q);
            assert(l + q =~= l);
            assert(all_tcp(m0, l));
            replenished_keeps(l, q, m0, e, socks@);
            assert(e.listen_handles@.take(1)[0] == handle);
            opened(t0, m0, port, e, socks@, handle);
            assert(!ports.contains(endpoint.port));
            assert(ports.push(endpoint.port).no_duplicates()) by {
                assert forall|i: int, j: int|
                    0 <= i < j < ports.push(endpoint.port).len() implies ports.push(endpoint.port)[i]
                    != ports.push(endpoint.port)[j] by {
                    if j == ports.len() {
                        assert(ports.contains(ports[i]));
                    }
                }
            }
            assert forall|p: u16| #[trigger] ports.push(endpoint.port).contains(p) <==> t0.insert(
                port,
                e,
            ).contains_key(p as usize) by {
                if ports.contains(p) {
                    let i = ports.index_of(p);
                    assert(ports.push(endpoint.port)[i] == p);
                }
                if p == endpoint.port {
                    assert(ports.push(endpoint.port)[ports.len() as int] == p);
                }
                if ports.push(endpoint.port).contains(p) {
                    let i = ports.push(endpoint.port).index_of(p);
                    if i < ports.len() {
                        assert(ports[i] == p);
                    }
                }
            }
        }
        self.table.insert(port, e);
        self.active_ports.push(endpoint.port);
        Ok(())
    }

    /// Promotes the sockets of one port.
    fn promote_listener(&mut self, socks: &mut SocketSetWrapper, port: u16)
        requires
            old(socks).wf(),
            old(self).wf(old(socks)@),
        ensures
            final(socks).wf(),
            final(self).wf(final(socks)@),
            final(self).active_ports == old(self).active_ports,
            port_promoted(
                port as usize,
                old(self)@,
                old(socks)@,
                final(self)@,
                final(socks)@,
            ),
            others_kept(old(self)@, old(socks)@, final(self)@, final(socks)@),
    {
        let ghost t0 = self.table@;
        let ghost m0 = socks@;
        match self.table.remove(port as usize) {
            None => {},
            Some(mut e) => {
                e.promote(socks);
                self.table.insert(port as usize, e);
                proof {
                    assert(self.table@ =~= t0.insert(port as usize, e));
                    entry_changed(t0, m0, port as usize, e, socks@);
                    assert forall|p: u16| #[trigger]
                        self.active_ports@.contains(p) <==> self.table@.contains_key(p as usize) by {
                        assert(self.active_ports@.contains(p) <==> t0.contains_key(p as usize));
                    }
                }
            },
        }
    }

    /// Promotes the sockets of every open port.
    pub fn promote_ready_listeners(&mut self, socks: &mut SocketSetWrapper)
        requires
            old(socks).wf(),
            old(self).wf(old(socks)@),
        ensures
            final(socks).wf(),
            final(self).wf(final(socks)@),
            final(self).active_ports == old(self).active_ports,
            ports_promoted(
                old(self).active_ports@,
                old(self)@,
                old(socks)@,
                final(self)@,
                final(socks)@,
            ),
            others_kept(old(self)@, old(socks)@, final(self)@, final(socks)@),
    {
        let ghost t0 = self.table@;
        let ghost m0 = socks@;
        let ghost ports = self.active_ports@;
        let mut i: usize = 0;
        while i < self.active_ports.len()
            invariant
                socks.wf(),
                self.wf(socks@),
                self.active_ports == old(self).active_ports,
                ports == self.active_ports@,
                t0 == old(self)@,
                m0 == old(socks)@,
                i <= ports.len(),
                ports_promoted(ports.take(i as int), t0, m0, self.table@, socks@),
                others_kept(t0, m0, self.table@, socks@),
            decreases ports.len() - i,
        {
            let ghost t1 = self.table@;
            let ghost m1 = socks@;
            let port: u16 = self.active_ports[i];
            self.promote_listener(socks, port);
            proof {
                kept_twice(t0, m0, t1, m1, self.table@, socks@);
                assert(ports.take(i + 1).drop_last() =~= ports.take(i as int));
                assert(ports.take(i + 1).last() == port);
                assert(ports_promoted(ports.take(i + 1).drop_last(), t0, m0, t1, m1));
                assert(port_promoted(port as usize, t1, m1, self.table@, socks@));
                assert(ports_promoted(ports.take(i + 1), t0, m0, self.table@, socks@));
            }
            i = i + 1;
        }
        proof {
            assert(ports.take(i as int) =~= ports);
        }
    }

    /// Tells whether a connection waits on a port, after its sockets were
    /// promoted.
    pub fn can_accept(&mut self, socks: &mut SocketSetWrapper, port: u16) -> (r: bool)
        requires
            old(socks).wf(),
            old(self).wf(old(socks)@),
        ensures
            final(socks).wf(),
            final(self).wf(final(socks)@),
            final(self).active_ports == old(self).active_ports,
            port_promoted(
                port as usize,
                old(self)@,
                old(socks)@,
                final(self)@,
                final(socks)@,
            ),
            others_kept(old(self)@, old(socks)@, final(self)@, final(socks)@),
            r == (final(self)@.contains_key(port as usize) && final(self)@[port as usize].accept_queue@.len()
                > 0),
    {
        self.promote_listener(socks, port);
        match self.table.get(port as usize) {
            Some(e) => e.accept_queue.len() > 0,
            None => false,
        }
    }

    /// Accepts the first usable connection that waits on a port, after its
    /// sockets were promoted.
    pub fn accept(&mut self, socks: &mut SocketSetWrapper, port: u16) -> (r: SysResult<
        (SocketHandle, (Endpoint, Endpoint)),
    >)
        requires
            old(socks).wf(),
            old(self).wf(old(socks)@),
        ensures
            final(socks).wf(),
            final(self).wf(final(socks)@),
            final(self).active_ports == old(self).active_ports,
            others_kept(old(self)@, old(socks)@, final(self)@, final(socks)@),
            r matches Ok((h, _)) ==> is_tcp(final(socks)@, h) && !owns(final(self)@, h),
            port_accepted(port as usize, old(self)@, old(socks)@, final(self)@, final(socks)@, r),
    {
        let ghost t0 = self.table@;
        let ghost m0 = socks@;
        self.promote_listener(socks, port);
        let ghost t1 = self.table@;
        let ghost m1 = socks@;
        match self.table.remove(port as usize) {
            None => Err(Errno::ECONNREFUSED),
            Some(mut e) => {
                let ghost e1 = e;
                let r = e.accept_next(socks);
                self.table.insert(port as usize, e);
                proof {
                    assert(self.table@ =~= t1.insert(port as usize, e));
                    entry_changed(t1, m1, port as usize, e, socks@);
                    kept_twice(t0, m0, t1, m1, self.table@, socks@);
                    assert forall|p: u16| #[trigger]
                        self.active_ports@.contains(p) <==> self.table@.contains_key(p as usize) by {
                        assert(self.active_ports@.contains(p) <==> t1.contains_key(p as usize));
                    }
                    if r is Some {
                        let (h, _) = r->0;
                        assert(holds_handle(t1[port as usize], h));
                        if owns(self.table@, h) {
                            let p = choose|p: usize| #[trigger]
                                self.table@.contains_key(p) && holds_handle(self.table@[p], h);
                            if p != port as usize {
                                assert(t1.contains_key(p) && holds_handle(t1[p], h));
                            }
                        }
                    }
                    assert(port_promoted(port as usize, t0, m0, t1, m1));
                    assert(accepted(t1[port as usize], m1, self.table@[port as usize], socks@, r));
                }
                match r {
                    Some(x) => Ok(x),
                    None => Err(Errno::EAGAIN),
                }
            },
        }
    }
}

/// What accepting on a port does: `ECONNREFUSED` if it is not open, `EAGAIN` if
/// no usable connection waits.
pub open spec fn port_accepted(
    port: usize,
    t: Map<usize, ListenTableEntry>,
    m: Map<SocketHandle, SocketView>,
    t2: Map<usize, ListenTableEntry>,
    m2: Map<SocketHandle, SocketView>,
    r: SysResult<(SocketHandle, (Endpoint, Endpoint))>,
) -> bool {
    if !t.contains_key(port) {
        r is Err && r->Err_0 == Errno::ECONNREFUSED && t2 == t && m2 == m
    } else {
        &&& t2.contains_key(port)
        &&& r is Err ==> r->Err_0 == Errno::EAGAIN
        &&& exists|t1: Map<usize, ListenTableEntry>, m1: Map<SocketHandle, SocketView>| #[trigger]
            port_promoted(port, t, m, t1, m1) && accepted(
                t1[port],
                m1,
                t2[port],
                m2,
                match r {
                    Ok(x) => Some(x),
                    Err(_) => None,
                },
            ) && t2 == t1.insert(port, t2[port])
    }
}

/// A backlog within the limits of a port.
pub open spec fn clamped(backlog: usize) -> usize {
    if backlog < 1 {
        1
    } else if backlog > LISTEN_QUEUE_SIZE {
        LISTEN_QUEUE_SIZE
    } else {
        backlog
    }
}

proof fn opened(
    t: Map<usize, ListenTableEntry>,
    m: Map<SocketHandle, SocketView>,
    port: usize,
    e: ListenTableEntry,
    m2: Map<SocketHandle, SocketView>,
    handle: SocketHandle,
)
    requires
        ports_ok(t, m),
        !t.contains_key(port),
        e.endpoint.port == port,
        entry_ok(e, m2),
        is_tcp(m, handle),
        !owns(t, handle),
        e.listen_handles@.len() > 0,
        e.listen_handles@[0] == handle,
        forall|h: SocketHandle| #[trigger] m.contains_key(h) ==> m2.contains_key(h) && m2[h] == m[h],
        forall|h: SocketHandle| #[trigger]
            holds_handle(e, h) ==> seq![handle].contains(h) || Seq::<SocketHandle>::empty().contains(h)
                || !m.contains_key(h),
    ensures
        ports_ok(t.insert(port, e), m2),
        forall|h: SocketHandle|
            #[trigger] m.contains_key(h) ==> (owns(t.insert(port, e), h) <==> owns(t, h) || h
                == handle),
{
    let t2 = t.insert(port, e);
    assert forall|p: usize, h: SocketHandle|
        t.contains_key(p) && #[trigger] holds_handle(t[p], h) implies m.contains_key(h) && is_tcp(
        m,
        h,
    ) && h != handle by {
        handle_is_tcp(t[p], m, h);
        assert(owns(t, h));
    }
    assert forall|h: SocketHandle| #[trigger] holds_handle(e, h) && m.contains_key(h) implies h
        == handle by {
        if seq![handle].contains(h) {
            let i = seq![handle].index_of(h);
            assert(seq![handle][i] == h);
        }
    }
    assert forall|p: usize| #[trigger] t2.contains_key(p) implies entry_ok(t2[p], m2)
        && t2[p].endpoint.port == p by {
        if p != port {
            assert(t.contains_key(p));
            let x = t[p];
            assert forall|i: int| 0 <= i < x.listen_handles@.len() implies is_tcp(
                m2,
                #[trigger] x.listen_handles@[i],
            ) by {
                assert(x.listen_handles@.contains(x.listen_handles@[i]));
                assert(holds_handle(t[p], x.listen_handles@[i]));
            }
            assert forall|i: int| 0 <= i < x.accept_queue@.len() implies is_tcp(
                m2,
                #[trigger] x.accept_queue@[i],
            ) by {
                assert(x.accept_queue@.contains(x.accept_queue@[i]));
                assert(holds_handle(t[p], x.accept_queue@[i]));
            }
        }
    }
    assert forall|p: usize, q: usize, h: SocketHandle|
        #![trigger holds_handle(t2[p], h), holds_handle(t2[q], h)]
        t2.contains_key(p) && t2.contains_key(q) && holds_handle(t2[p], h) && holds_handle(
            t2[q],
            h,
        ) implies p == q by {
        if p != q {
            if p == port {
                assert(holds_handle(t[q], h));
            } else if q == port {
                assert(holds_handle(t[p], h));
            } else {
                assert(holds_handle(t[p], h) && holds_handle(t[q], h));
            }
        }
    }
    assert forall|h: SocketHandle| #[trigger] m.contains_key(h) implies (owns(t2, h) <==> owns(t, h)
        || h == handle) by {
        if owns(t2, h) {
            let p = choose|p: usize| #[trigger] t2.contains_key(p) && holds_handle(t2[p], h);
            if p != port {
                assert(t.contains_key(p) && holds_handle(t[p], h));
            }
        }
        if owns(t, h) {
            let p = choose|p: usize| #[trigger] t.contains_key(p) && holds_handle(t[p], h);
            assert(t2.contains_key(p) && holds_handle(t2[p], h));
        }
        if h == handle {
            assert(e.listen_handles@.contains(handle));
            assert(t2.contains_key(port) && holds_handle(t2[port], h));
        }
    }
}

/// Takes several sockets out.
fn remove_all(socks: &mut SocketSetWrapper, hs: &Vec<SocketHandle>)
    requires
        old(socks).wf(),
        hs@.no_duplicates(),
        forall|i: int| 0 <= i < hs@.len() ==> old(socks)@.contains_key(#[trigger] hs@[i]),
    ensures
        final(socks).wf(),
        final(socks)@ == old(socks)@.remove_keys(hs@.to_set()),
{
    let ghost m0 = socks@;
    let mut i: usize = 0;
    proof {
        assert(m0.remove_keys(hs@.take(0).to_set()) =~= m0);
    }
    while i < hs.len()
        invariant
            socks.wf(),
            i <= hs@.len(),
            hs@.no_duplicates(),
            forall|k: int| 0 <= k < hs@.len() ==> m0.contains_key(#[trigger] hs@[k]),
            m0 == old(socks)@,
            socks@ == m0.remove_keys(hs@.take(i as int).to_set()),
        decreases hs@.len() - i,
    {
        let h = hs[i];
        proof {
            let t = hs@.take(i as int);
            assert(!t.contains(h)) by {
                if t.contains(h) {
                    assert(hs@[t.index_of(h)] == h);
                }
            }
            assert(hs@.take(i + 1) =~= t.push(h));
            contains_push(t, h);
            assert(m0.remove_keys(hs@.take(i + 1).to_set()) =~= m0.remove_keys(t.to_set()).remove(h));
        }
        socks.remove(h);
        i = i + 1;
    }
    proof {
        assert(hs@.take(i as int) =~= hs@);
    }
}

/// Ports other than this one.
pub open spec fn other_port(port: u16) -> spec_fn(u16) -> bool {
    |p: u16| p != port
}

/// Handles other than this one.
pub open spec fn other_handle(handle: SocketHandle) -> spec_fn(SocketHandle) -> bool {
    |h: SocketHandle| h != handle
}

/// All sockets of a port.
pub open spec fn sockets_of_port(e: ListenTableEntry) -> Set<SocketHandle> {
    (e.listen_handles@ + e.accept_queue@).to_set()
}

fn without_handle(hs: &Vec<SocketHandle>, handle: SocketHandle) -> (r: Vec<SocketHandle>)
    ensures
        r@ == hs@.filter(other_handle(handle)),
{
    let mut out: Vec<SocketHandle> = Vec::new();
    let mut i: usize = 0;
    proof {
        reveal(Seq::filter);
    }
    while i < hs.len()
        invariant
            i <= hs@.len(),
            out@ == hs@.take(i as int).filter(other_handle(handle)),
        decreases hs@.len() - i,
    {
        proof {
            reveal(Seq::filter);
            assert(hs@.take(i + 1).drop_last() =~= hs@.take(i as int));
            assert(hs@.take(i + 1).last() == hs@[i as int]);
        }
        if !smol::same_handle(hs[i], handle) {
            out.push(hs[i]);
        }
        i = i + 1;
    }
    proof {
        assert(hs@.take(i as int) =~= hs@);
    }
    out
}

proof fn filtered_handles(a: Seq<SocketHandle>, b: Seq<SocketHandle>, handle: SocketHandle)
    requires
        (a + b).no_duplicates(),
    ensures
        ({
            let f = other_handle(handle);
            &&& (a.filter(f) + b.filter(f)).no_duplicates()
            &&& a.filter(f).len() + b.filter(f).len() <= a.len() + b.len()
            &&& forall|h: SocketHandle| #[trigger]
                a.filter(f).contains(h) <==> a.contains(h) && h != handle
            &&& forall|h: SocketHandle| #[trigger]
                b.filter(f).contains(h) <==> b.contains(h) && h != handle
        }),
{
    let f = other_handle(handle);
    Seq::filter_distributes_over_add(a, b, f);
    filter_members(a, f);
    filter_members(b, f);
    filter_keeps_unique(a + b, f);
}

proof fn filter_members(a: Seq<SocketHandle>, f: spec_fn(SocketHandle) -> bool)
    ensures
        forall|h: SocketHandle| #[trigger] a.filter(f).contains(h) <==> a.contains(h) && f(h),
        a.filter(f).len() <= a.len(),
    decreases a.len(),
{
    reveal(Seq::filter);
    if a.len() > 0 {
        filter_members(a.drop_last(), f);
        contains_push(a.drop_last(), a.last());
        assert(a.drop_last().push(a.last()) =~= a);
        contains_push(a.drop_last().filter(f), a.last());
    }
}

proof fn filter_keeps_unique(a: Seq<SocketHandle>, f: spec_fn(SocketHandle) -> bool)
    requires
        a.no_duplicates(),
    ensures
        a.filter(f).no_duplicates(),
    decreases a.len(),
{
    reveal(Seq::filter);
    if a.len() > 0 {
        let t = a.drop_last();
        assert(t.no_duplicates()) by {
            assert forall|i: int, j: int| 0 <= i < j < t.len() implies t[i] != t[j] by {
                assert(a[i] != a[j]);
            }
        }
        filter_keeps_unique(t, f);
        filter_members(t, f);
        assert(!t.contains(a.last())) by {
            if t.contains(a.last()) {
                let i = t.index_of(a.last());
                assert(a[i] == a[a.len() - 1]);
            }
        }
        let g = t.filter(f);
        if f(a.last()) {
            assert(!g.contains(a.last()));
            assert forall|i: int, j: int| 0 <= i < j < a.filter(f).len() implies a.filter(f)[i]
                != a.filter(f)[j] by {
                if j == g.len() {
                    assert(g.contains(g[i]));
                }
            }
        }
    }
}

impl ListenTable {
    /// Closes a port and drops all its sockets.
    pub fn unlisten(&mut self, socks: &mut SocketSetWrapper, port: u16)
        requires
            old(socks).wf(),
            old(self).wf(old(socks)@),
        ensures
            final(socks).wf(),
            final(self).wf(final(socks)@),
            final(self)@ == old(self)@.remove(port as usize),
            final(self).active_ports@ == old(self).active_ports@.filter(other_port(port)),
            final(socks)@ == (if old(self)@.contains_key(port as usize) {
                old(socks)@.remove_keys(sockets_of_port(old(self)@[port as usize]))
            } else {
                old(socks)@
            }),
            others_kept(old(self)@, old(socks)@, final(self)@, final(socks)@),
    {
        let ghost t0 = self.table@;
        let ghost m0 = socks@;
        let ghost ports = self.active_ports@;
        match self.table.remove(port as usize) {
            None => {
                proof {
                    assert(t0.remove(port as usize) =~= t0);
                }
            },
            Some(e) => {
                let ghost l = e.listen_handles@;
                let ghost q = e.accept_queue@;
                proof {
                    let n = l.len() as int;
                    assert(entry_ok(t0[port as usize], m0));
                    assert forall|i: int, j: int| 0 <= i < j < l.len() implies l[i] != l[j] by {
                        assert((l + q)[i] != (l + q)[j]);
                    }
                    assert forall|i: int, j: int| 0 <= i < j < q.len() implies q[i] != q[j] by {
                        assert((l + q)[n + i] != (l + q)[n + j]);
                    }
                    assert forall|i: int| 0 <= i < l.len() implies m0.contains_key(#[trigger] l[i]) by {
                        assert(is_tcp(m0, l[i]));
                    }
                }
                remove_all(socks, &e.listen_handles);
                proof {
                    let n = l.len() as int;
                    assert forall|i: int| 0 <= i < q.len() implies socks@.contains_key(
                        #[trigger] q[i],
                    ) by {
                        assert(is_tcp(m0, q[i]));
                        if l.contains(q[i]) {
                            let k = l.index_of(q[i]);
                            assert((l + q)[k] == (l + q)[n + i]);
                        }
                    }
                }
                remove_all(socks, &e.accept_queue);
                proof {
                    let both = (l + q).to_set();
                    assert forall|h: SocketHandle| (l + q).contains(h) <==> l.contains(h)
                        || q.contains(h) by {
                        if l.contains(h) {
                            assert((l + q)[l.index_of(h)] == h);
                        }
                        if q.contains(h) {
                            assert((l + q)[l.len() + q.index_of(h)] == h);
                        }
                        if (l + q).contains(h) {
                            let i = (l + q).index_of(h);
                            if i < l.len() {
                                assert(l[i] == h);
                            } else {
                                assert(q[i - l.len()] == h);
                            }
                        }
                    }
                    assert(socks@ =~= m0.remove_keys(both));
                    closed(t0, m0, port as usize, socks@);
                }
            },
        }
        let mut kept: Vec<u16> = Vec::new();
        let mut i: usize = 0;
        proof {
            reveal(Seq::filter);
            assert(ports.take(0) =~= Seq::<u16>::empty());
        }
        while i < self.active_ports.len()
            invariant
                socks.wf(),
                i <= ports.len(),
                ports == self.active_ports@,
                kept@ == ports.take(i as int).filter(other_port(port)),
            decreases ports.len() - i,
        {
            proof {
                reveal(Seq::filter);
                assert(ports.take(i + 1).drop_last() =~= ports.take(i as int));
                assert(ports.take(i + 1).last() == ports[i as int]);
            }
            if self.active_ports[i] != port {
                kept.push(self.active_ports[i]);
            }
            i = i + 1;
        }
        self.active_ports = kept;
        proof {
            assert(ports.take(i as int) =~= ports);
            other_ports(ports, port);
            assert forall|p: u16| #[trigger]
                self.active_ports@.contains(p) <==> self.table@.contains_key(p as usize) by {
                assert(ports.contains(p) <==> t0.contains_key(p as usize));
            }
        }
    }

    /// Strikes a socket off a port without dropping it.
    pub fn take_handle(&mut self, port: u16, handle: SocketHandle, socks: &SocketSetWrapper)
        requires
            old(self).wf(socks@),
        ensures
            final(self).wf(socks@),
            final(self).active_ports == old(self).active_ports,
            if old(self)@.contains_key(port as usize) {
                let e = old(self)@[port as usize];
                let e2 = final(self)@[port as usize];
                &&& final(self)@ == old(self)@.insert(port as usize, e2)
                &&& e2.endpoint == e.endpoint
                &&& e2.queue_limit == e.queue_limit
                &&& e2.accept_queue@ == e.accept_queue@.filter(other_handle(handle))
                &&& e2.listen_handles@ == e.listen_handles@.filter(other_handle(handle))
            } else {
                final(self)@ == old(self)@
            },
    {
        let ghost t0 = self.table@;
        match self.table.remove(port as usize) {
            None => {},
            Some(mut e) => {
                let ghost e0 = e;
                proof {
                    filtered_handles(e0.listen_handles@, e0.accept_queue@, handle);
                }
                e.accept_queue = without_handle(&e.accept_queue, handle);
                e.listen_handles = without_handle(&e.listen_handles, handle);
                self.table.insert(port as usize, e);
                proof {
                    assert(self.table@ =~= t0.insert(port as usize, e));
                    assert(entry_ok(t0[port as usize], socks@));
                    assert(all_tcp(socks@, e.listen_handles@)) by {
                        assert forall|i: int| 0 <= i < e.listen_handles@.len() implies is_tcp(
                            socks@,
                            #[trigger] e.listen_handles@[i],
                        ) by {
                            assert(e.listen_handles@.contains(e.listen_handles@[i]));
                            handle_is_tcp(e0, socks@, e.listen_handles@[i]);
                        }
                    }
                    assert(all_tcp(socks@, e.accept_queue@)) by {
                        assert forall|i: int| 0 <= i < e.accept_queue@.len() implies is_tcp(
                            socks@,
                            #[trigger] e.accept_queue@[i],
                        ) by {
                            assert(e.accept_queue@.contains(e.accept_queue@[i]));
                            handle_is_tcp(e0, socks@, e.accept_queue@[i]);
                        }
                    }
                    assert(kept_outside(e0, socks@, e, socks@));
                    entry_changed(t0, socks@, port as usize, e, socks@);
                    assert forall|p: u16| #[trigger]
                        self.active_ports@.contains(p) <==> self.table@.contains_key(p as usize) by {
                        assert(self.active_ports@.contains(p) <==> t0.contains_key(p as usize));
                    }
                }
            },
        }
    }
}

proof fn other_ports(ports: Seq<u16>, port: u16)
    requires
        ports.no_duplicates(),
    ensures
        ports.filter(other_port(port)).no_duplicates(),
        forall|p: u16| #[trigger]
            ports.filter(other_port(port)).contains(p) <==> ports.contains(p) && p != port,
    decreases ports.len(),
{
    reveal(Seq::filter);
    let f = other_port(port);
    if ports.len() > 0 {
        let t = ports.drop_last();
        let l = ports.last();
        assert forall|i: int, j: int| 0 <= i < j < t.len() implies t[i] != t[j] by {
            assert(ports[i] != ports[j]);
        }
        other_ports(t, port);
        let g = t.filter(f);
        let w = ports.filter(f);
        assert(!t.contains(l)) by {
            if t.contains(l) {
                let i = t.index_of(l);
                assert(ports[i] == ports[ports.len() - 1]);
            }
        }
        assert forall|i: int, j: int| 0 <= i < j < w.len() implies w[i] != w[j] by {
            if j == g.len() {
                assert(g.contains(g[i]));
            }
        }
        assert forall|p: u16| #[trigger] w.contains(p) <==> ports.contains(p) && p != port by {
            if ports.contains(p) && p != port {
                let i = ports.index_of(p);
                if i < t.len() {
                    assert(t[i] == p);
                    assert(g.contains(p));
                    assert(w[g.index_of(p)] == p);
                } else {
                    assert(w[g.len() as int] == p);
                }
            }
            if w.contains(p) {
                let i = w.index_of(p);
                if i < g.len() {
                    assert(g[i] == p);
                    assert(g.contains(p));
                    assert(ports[t.index_of(p)] == p);
                } else {
                    assert(ports[ports.len() - 1] == p);
                }
            }
        }
    }
}

proof fn closed(
    t: Map<usize, ListenTableEntry>,
    m: Map<SocketHandle, SocketView>,
    port: usize,
    m2: Map<SocketHandle, SocketView>,
)
    requires
        ports_ok(t, m),
        t.contains_key(port),
        m2 == m.remove_keys(sockets_of_port(t[port])),
    ensures
        ports_ok(t.remove(port), m2),
        others_kept(t, m, t.remove(port), m2),
{
    let t2 = t.remove(port);
    let l = t[port].listen_handles@;
    let q = t[port].accept_queue@;
    assert forall|h: SocketHandle| #[trigger]
        sockets_of_port(t[port]).contains(h) implies holds_handle(t[port], h) by {
        let i = (l + q).index_of(h);
        if i < l.len() {
            assert(l[i] == h);
        } else {
            assert(q[i - l.len()] == h);
        }
    }
    assert forall|p: usize, h: SocketHandle|
        t.contains_key(p) && p != port && #[trigger] holds_handle(t[p], h) implies is_tcp(m2, h) by {
        handle_is_tcp(t[p], m, h);
        assert(!holds_handle(t[port], h));
    }
    assert forall|p: usize| #[trigger] t2.contains_key(p) implies entry_ok(t2[p], m2)
        && t2[p].endpoint.port == p by {
        assert(t.contains_key(p));
        let e = t[p];
        assert forall|i: int| 0 <= i < e.listen_handles@.len() implies is_tcp(
            m2,
            #[trigger] e.listen_handles@[i],
        ) by {
            assert(e.listen_handles@.contains(e.listen_handles@[i]));
            assert(holds_handle(t[p], e.listen_handles@[i]));
        }
        assert forall|i: int| 0 <= i < e.accept_queue@.len() implies is_tcp(
            m2,
            #[trigger] e.accept_queue@[i],
        ) by {
            assert(e.accept_queue@.contains(e.accept_queue@[i]));
            assert(holds_handle(t[p], e.accept_queue@[i]));
        }
    }
    assert forall|p: usize, k: usize, h: SocketHandle|
        #![trigger holds_handle(t2[p], h), holds_handle(t2[k], h)]
        t2.contains_key(p) && t2.contains_key(k) && holds_handle(t2[p], h) && holds_handle(
            t2[k],
            h,
        ) implies p == k by {
        assert(holds_handle(t[p], h) && holds_handle(t[k], h));
    }
    assert forall|h: SocketHandle| #[trigger] m.contains_key(h) && !owns(t, h) implies m2.contains_key(
        h,
    ) && m2[h] == m[h] && !owns(t2, h) by {
        assert(!holds_handle(t[port], h));
        if owns(t2, h) {
            let p = choose|p: usize| #[trigger] t2.contains_key(p) && holds_handle(t2[p], h);
            assert(t.contains_key(p) && holds_handle(t[p], h));
        }
    }
}

/// A row of the connection listing.
#[derive(Debug, Clone, Copy, PartialEq, Eq, Structural)]
pub struct TcpProcEntry {
    pub local: Endpoint,
    pub remote: Endpoint,
    pub state: TcpState,
}

/// The row of a listening port.
pub open spec fn listen_row(e: ListenEndpoint) -> TcpProcEntry {
    TcpProcEntry {
        local: Endpoint {
            addr: match e.addr {
                Some(a) => a,
                None => IpAddress::Ipv4(0),
            },
            port: e.port,
        },
        remote: Endpoint { addr: IpAddress::Ipv4(0), port: 0 },
        state: TcpState::Listen,
    }
}

/// The rows of the connections that wait, those that have both endpoints.
pub open spec fn waiting_rows(m: Map<SocketHandle, SocketView>, q: Seq<SocketHandle>) -> Seq<
    TcpProcEntry,
>
    decreases q.len(),
{
    if q.len() == 0 {
        Seq::empty()
    } else {
        let rest = waiting_rows(m, q.drop_last());
        match tcp_of(m, q.last()).tuple {
            Some((local, remote)) => rest.push(
                TcpProcEntry { local, remote, state: TcpState::Established },
            ),
            None => rest,
        }
    }
}

/// The rows of all ports in ascending order, each with its waiting connections.
pub open spec fn port_rows(
    m: Map<SocketHandle, SocketView>,
    es: Seq<(usize, ListenTableEntry)>,
) -> Seq<TcpProcEntry>
    decreases es.len(),
{
    if es.len() == 0 {
        Seq::empty()
    } else {
        port_rows(m, es.drop_last()).push(listen_row(es.last().1.endpoint)) + waiting_rows(
            m,
            es.last().1.accept_queue@,
        )
    }
}

impl ListenTable {
    /// The rows of the connection listing for all open ports.
    pub fn proc_entries(&self, socks: &SocketSetWrapper) -> (r: Vec<TcpProcEntry>)
        requires
            self.wf(socks@),
        ensures
            r@ == port_rows(socks@, self.table.entries@),
    {
        let mut rows: Vec<TcpProcEntry> = Vec::new();
        let mut i: usize = 0;
        while i < self.table.entries.len()
            invariant
                self.wf(socks@),
                i <= self.table.entries@.len(),
                rows@ == port_rows(socks@, self.table.entries@.take(i as int)),
            decreases self.table.entries@.len() - i,
        {
            let e = &self.table.entries[i].1;
            let ghost es = self.table.entries@;
            proof {
                self.table.entry_in_view(i as int);
                assert(entry_ok(*e, socks@));
                assert(es.take(i + 1).drop_last() =~= es.take(i as int));
                assert(es.take(i + 1).last() == es[i as int]);
            }
            let addr = match e.endpoint.addr {
                Some(a) => a,
                None => IpAddress::Ipv4(0),
            };
            rows.push(
                TcpProcEntry {
                    local: Endpoint { addr, port: e.endpoint.port },
                    remote: Endpoint { addr: IpAddress::Ipv4(0), port: 0 },
                    state: TcpState::Listen,
                },
            );
            let ghost start = rows@;
            let mut k: usize = 0;
            proof {
                assert(e.accept_queue@.take(0) =~= Seq::<SocketHandle>::empty());
                assert(start + Seq::<TcpProcEntry>::empty() =~= start);
            }
            while k < e.accept_queue.len()
                invariant
                    entry_ok(*e, socks@),
                    k <= e.accept_queue@.len(),
                    rows@ == start + waiting_rows(socks@, e.accept_queue@.take(k as int)),
                decreases e.accept_queue@.len() - k,
            {
                let ghost q = e.accept_queue@;
                proof {
                    assert(q.take(k + 1).drop_last() =~= q.take(k as int));
                    assert(q.take(k + 1).last() == q[k as int]);
                    assert(is_tcp(socks@, q[k as int]));
                }
                match get_addr_tuple(socks, e.accept_queue[k]) {
                    Some((local, remote)) => {
                        proof {
                            let w = waiting_rows(socks@, q.take(k as int));
                            let row = TcpProcEntry { local, remote, state: TcpState::Established };
                            assert((start + w).push(row) =~= start + w.push(row));
                        }
                        rows.push(TcpProcEntry { local, remote, state: TcpState::Established });
                    },
                    None => {},
                }
                k = k + 1;
            }
            proof {
                assert(e.accept_queue@.take(k as int) =~= e.accept_queue@);
            }
            i = i + 1;
        }
        proof {
            assert(self.table.entries@.take(i as int) =~= self.table.entries@);
        }
        rows
    }
}

/// After its sockets were promoted a port has as many as its limit allows, so
/// that a further connection finds a listener unless the queue is full.
pub proof fn ports_are_replenished(
    e: ListenTableEntry,
    m: Map<SocketHandle, SocketView>,
    e2: ListenTableEntry,
    m2: Map<SocketHandle, SocketView>,
)
    requires
        entry_ok(e, m),
        promoted(e, m, e2, m2),
    ensures
        e2.listen_handles@.len() + e2.accept_queue@.len() == e2.queue_limit,
        e2.accept_queue@.len() < e2.queue_limit ==> e2.listen_handles@.len() > 0,
{
    sorted_out_comes_from(m, e.listen_handles@, e.accept_queue@, e.queue_limit as int);
}

/// Connections wait in the order they were found: promoting keeps those in the
/// queue where they are.
pub proof fn queues_keep_their_order(
    m: Map<SocketHandle, SocketView>,
    hs: Seq<SocketHandle>,
    accept: Seq<SocketHandle>,
    limit: int,
)
    ensures
        accept.len() <= sorted_out(m, hs, accept, limit).accept.len(),
        sorted_out(m, hs, accept, limit).accept.take(accept.len() as int) == accept,
        accept.len() <= limit ==> sorted_out(m, hs, accept, limit).accept.len() <= limit,
    decreases hs.len(),
{
    if hs.len() == 0 {
        assert(accept.take(accept.len() as int) =~= accept);
    } else {
        queues_keep_their_order(m, hs.drop_last(), accept, limit);
        let s = sorted_out(m, hs.drop_last(), accept, limit).accept;
        assert(s.push(hs.last()).take(accept.len() as int) =~= s.take(accept.len() as int));
    }
}

/// A connection that is accepted was one of the port's sockets.
pub proof fn accepted_handle_was_a_ports(
    port: usize,
    t: Map<usize, ListenTableEntry>,
    m: Map<SocketHandle, SocketView>,
    t2: Map<usize, ListenTableEntry>,
    m2: Map<SocketHandle, SocketView>,
    h: SocketHandle,
    ends: (Endpoint, Endpoint),
)
    requires
        ports_ok(t, m),
        port_accepted(port, t, m, t2, m2, Ok((h, ends))),
    ensures
        t.contains_key(port),
        holds_handle(t[port], h),
        owns(t, h),
{
    let (t1, m1) = choose|t1: Map<usize, ListenTableEntry>, m1: Map<SocketHandle, SocketView>| #[trigger]
        port_promoted(port, t, m, t1, m1) && accepted(t1[port], m1, t2[port], m2, Some((h, ends)))
            && t2 == t1.insert(port, t2[port]);
    let e = t[port];
    let s = sorted_out(m, e.listen_handles@, e.accept_queue@, e.queue_limit as int);
    sorted_out_comes_from(m, e.listen_handles@, e.accept_queue@, e.queue_limit as int);
    let q = t1[port].accept_queue@;
    let i = crate::seqs::first_index(q, usable(m1))->0;
    let k = choose|k: int| crate::seqs::is_first(q, usable(m1), k);
    assert(crate::seqs::is_first(q, usable(m1), k));
    crate::seqs::first_is(q, usable(m1), k);
    assert(q[i] == h);
    assert(q == s.accept);
    assert(s.accept.contains(h));
    assert(holds_handle(t[port], h));
}

/// The places of a queue are as many as asked for, but at least one and at most 128.
pub proof fn queues_have_bounded_places(backlog: usize)
    ensures
        1 <= clamped(backlog) <= 128,
        1 <= backlog <= 128 ==> clamped(backlog) == backlog,
        backlog > 128 ==> clamped(backlog) == 128,
{
}

/// Sorting the sockets of a port keeps every one of them in one place: established ones go
/// behind those that wait to be accepted while there is a place, listening ones stay, and the
/// others go.
pub proof fn sorting_keeps_every_socket(
    m: Map<SocketHandle, SocketView>,
    hs: Seq<SocketHandle>,
    accept: Seq<SocketHandle>,
    limit: int,
)
    ensures
        ({
            let s = sorted_out(m, hs, accept, limit);
            &&& s.accept.len() + s.pending.len() + s.removed.len() == accept.len() + hs.len()
            &&& accept.is_prefix_of(s.accept)
            &&& accept.len() <= limit ==> s.accept.len() <= limit
            &&& forall|i: int|
                accept.len() <= i < s.accept.len() ==> hs.contains(#[trigger] s.accept[i])
                    && tcp_of(m, s.accept[i]).state == TcpState::Established
            &&& forall|i: int|
                0 <= i < s.pending.len() ==> hs.contains(#[trigger] s.pending[i]) && (tcp_of(
                    m,
                    s.pending[i],
                ).state == TcpState::Listen || tcp_of(m, s.pending[i]).state
                    == TcpState::SynReceived)
            &&& forall|i: int|
                0 <= i < s.removed.len() ==> hs.contains(#[trigger] s.removed[i]) && tcp_of(
                    m,
                    s.removed[i],
                ).state != TcpState::Listen && tcp_of(m, s.removed[i]).state
                    != TcpState::SynReceived && (tcp_of(m, s.removed[i]).state
                    == TcpState::Established ==> s.accept.len() >= limit)
        }),
    decreases hs.len(),
{
    if hs.len() > 0 {
        let t = hs.drop_last();
        sorting_keeps_every_socket(m, t, accept, limit);
        let a = sorted_out(m, t, accept, limit);
        let s = sorted_out(m, hs, accept, limit);
        assert(hs[hs.len() - 1] == hs.last());
        assert forall|h: SocketHandle| t.contains(h) implies hs.contains(h) by {
            let i = choose|i: int| 0 <= i < t.len() && t[i] == h;
            assert(hs[i] == h);
        }
        assert forall|i: int| accept.len() <= i < s.accept.len() implies hs.contains(
            #[trigger] s.accept[i],
        ) && tcp_of(m, s.accept[i]).state == TcpState::Established by {
            if i < a.accept.len() {
                assert(s.accept[i] == a.accept[i]);
            }
        }
        assert forall|i: int| 0 <= i < s.pending.len() implies hs.contains(#[trigger] s.pending[i])
            && (tcp_of(m, s.pending[i]).state == TcpState::Listen || tcp_of(m, s.pending[i]).state
            == TcpState::SynReceived) by {
            if i < a.pending.len() {
                assert(s.pending[i] == a.pending[i]);
            }
        }
        assert forall|i: int| 0 <= i < s.removed.len() implies hs.contains(#[trigger] s.removed[i])
            && tcp_of(m, s.removed[i]).state != TcpState::Listen && tcp_of(m, s.removed[i]).state
            != TcpState::SynReceived && (tcp_of(m, s.removed[i]).state == TcpState::Established
            ==> s.accept.len() >= limit) by {
            if i < a.removed.len() {
                assert(s.removed[i] == a.removed[i]);
            }
        }
    }
}

/// An address and port are taken if a socket of the kind is bound to both.
pub proof fn taken_ports_are_bound(m: Map<SocketHandle, SocketView>, h: SocketHandle)
    requires
        m.contains_key(h),
    ensures
        m[h] matches SocketView::Tcp(t) ==> (t.tuple matches Some((local, _)) ==> tcp_taken(
            m,
            local.addr,
            local.port,
        )),
        m[h] matches SocketView::Udp(u) ==> (u.endpoint.addr matches Some(a) ==> udp_taken(
            m,
            a,
            u.endpoint.port,
        )),
{
}

/// A port whose sockets are bound elsewhere is not taken.
pub proof fn unbound_ports_are_not_taken(
    m: Map<SocketHandle, SocketView>,
    addr: IpAddress,
    port: u16,
)
    requires
        forall|h: SocketHandle|
            #![trigger m.contains_key(h)]
            m.contains_key(h) ==> match m[h] {
                SocketView::Tcp(t) => t.tuple matches Some((local, _)) ==> local.port != port,
                SocketView::Udp(u) => u.endpoint.port != port,
            },
    ensures
        !tcp_taken(m, addr, port) && !udp_taken(m, addr, port),
{
}

/// A row for a listening port tells its address and port and no peer.
pub proof fn listening_rows_have_no_peer(e: ListenEndpoint)
    ensures
        listen_row(e).local.port == e.port,
        e.addr matches Some(a) ==> listen_row(e).local.addr == a,
        e.addr is None ==> listen_row(e).local.addr == IpAddress::Ipv4(0),
        listen_row(e).remote == (Endpoint { addr: IpAddress::Ipv4(0), port: 0 }),
        listen_row(e).state == TcpState::Listen,
{
}

/// New listening sockets are added to the others, each listening at the port's end.
pub proof fn added_listeners_listen(
    m: Map<SocketHandle, SocketView>,
    hs: Seq<SocketHandle>,
    e: ListenEndpoint,
    h: SocketHandle,
)
    ensures
        hs.contains(h) ==> with_listeners(m, hs, e).contains_key(h) && (with_listeners(
            m,
            hs,
            e,
        )[h] matches SocketView::Tcp(t) && t.state == TcpState::Listen && t.listen == e
            && t.rx.len()
            == 0 && t.tx.len() == 0),
        !hs.contains(h) ==> with_listeners(m, hs, e).contains_key(h) == m.contains_key(h),
        !hs.contains(h) && m.contains_key(h) ==> with_listeners(m, hs, e)[h] == m[h],
    decreases hs.len(),
{
    if hs.len() > 0 {
        let t = hs.drop_last();
        added_listeners_listen(m, t, e, h);
        assert(hs[hs.len() - 1] == hs.last());
        if t.contains(h) {
            let i = choose|i: int| 0 <= i < t.len() && t[i] == h;
            assert(hs[i] == h);
        }
        if hs.contains(h) && h != hs.last() {
            let i = choose|i: int| 0 <= i < hs.len() && hs[i] == h;
            assert(t[i] == h);
        }
    }
}

/// Connections that wait to be accepted are shown as established, with both ends, in order.
pub proof fn waiting_connections_are_shown(
    m: Map<SocketHandle, SocketView>,
    q: Seq<SocketHandle>,
    h: SocketHandle,
)
    ensures
        tcp_of(m, h).tuple is None ==> waiting_rows(m, q.push(h)) == waiting_rows(m, q),
        tcp_of(m, h).tuple matches Some((local, remote)) ==> {
            let rows = waiting_rows(m, q.push(h));
            &&& rows.len() == waiting_rows(m, q).len() + 1
            &&& rows.drop_last() =~= waiting_rows(m, q)
            &&& rows.last().local == local && rows.last().remote == remote && rows.last().state
                == TcpState::Established
        },
{
    assert(q.push(h).drop_last() =~= q);
}

/// A port can be accepted from if its socket still has a connection.
pub proof fn lost_connections_are_passed_over(m: Map<SocketHandle, SocketView>, h: SocketHandle)
    ensures
        usable(m)(h) ==> tcp_of(m, h).tuple is Some && tcp_of(m, h).state != TcpState::Closed,
        tcp_of(m, h).tuple is Some && tcp_of(m, h).state == TcpState::Established ==> usable(m)(h),
{
}

/// A port that nobody listens on refuses, and one without a connection that waits asks to be
/// tried again.
pub proof fn unlistened_ports_refuse(
    port: usize,
    t: Map<usize, ListenTableEntry>,
    m: Map<SocketHandle, SocketView>,
    t2: Map<usize, ListenTableEntry>,
    m2: Map<SocketHandle, SocketView>,
    r: SysResult<(SocketHandle, (Endpoint, Endpoint))>,
)
    requires
        port_accepted(port, t, m, t2, m2, r),
    ensures
        !t.contains_key(port) ==> r is Err && r->Err_0 == Errno::ECONNREFUSED && t2 == t && m2 == m,
        t.contains_key(port) ==> (r is Err ==> r->Err_0 == Errno::EAGAIN) && t2.contains_key(port),
{
}

} // verus!
