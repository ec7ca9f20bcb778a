//! All state of the network stack, and the choice of local ports.

use crate::net::addr::{loopback, IpAddress, LOOP_BACK_IP};
use crate::net::listen::{tcp_taken, udp_taken, ListenTable, ListenTableEntry, SocketSetWrapper};
use crate::net::smol::{no_sockets, SocketView};
use smoltcp::iface::SocketHandle;
use vstd::prelude::*;

verus! {

/// The first port that is chosen automatically.
pub const PORT_START: u16 = 0xc000;

/// The last port that is chosen automatically.
pub const PORT_END: u16 = 0xffff;

/// How many ports are chosen automatically.
pub const PORT_COUNT: u16 = 0x4000;

/// The sockets, the listening ports, and where the search for a free port goes
/// on.
pub struct NetStack {
    pub socks: SocketSetWrapper,
    pub table: ListenTable,
    pub next_tcp_port: u16,
    pub next_udp_port: u16,
}

/// The port `k` steps behind `start`, going round.
pub open spec fn port_at(start: u16, k: int) -> u16 {
    (PORT_START + (start - PORT_START + k) % 0x4000) as u16
}

/// The first free port from step `k` on.
pub open spec fn first_free(free: spec_fn(u16) -> bool, start: u16, k: int) -> Option<int>
    decreases 0x4000 - k,
{
    if k >= 0x4000 {
        None
    } else if free(port_at(start, k)) {
        Some(k)
    } else {
        first_free(free, start, k + 1)
    }
}

/// A port is free for a stream if no port is open there and no stream is bound
/// to it on the loopback address.
pub open spec fn tcp_free(t: Map<usize, ListenTableEntry>, m: Map<SocketHandle, SocketView>) -> spec_fn(
    u16,
) -> bool {
    |p: u16| !t.contains_key(p as usize) && !tcp_taken(m, loopback(), p)
}

/// A port is free for datagrams if no socket is bound to it on the loopback
/// address.
pub open spec fn udp_free(m: Map<SocketHandle, SocketView>) -> spec_fn(u16) -> bool {
    |p: u16| !udp_taken(m, loopback(), p)
}

/// What a search for a free port comes to.
pub open spec fn port_search(
    free: spec_fn(u16) -> bool,
    start: u16,
    next: u16,
    r: Option<u16>,
) -> bool {
    match first_free(free, start, 0) {
        Some(k) => r == Some(port_at(start, k)) && next == port_at(start, k + 1),
        None => r is None && next == start,
    }
}

/// A port that was found lies in the range, and is free.
pub proof fn found_ports_are_free(free: spec_fn(u16) -> bool, start: u16, k: int)
    requires
        PORT_START <= start,
        0 <= k,
    ensures
        first_free(free, start, k) matches Some(n) ==> k <= n < 0x4000 && free(port_at(start, n))
            && PORT_START <= port_at(start, n) && forall|j: int|
            k <= j < n ==> !free(#[trigger] port_at(start, j)),
        first_free(free, start, k) is None ==> forall|j: int|
            k <= j < 0x4000 ==> !free(#[trigger] port_at(start, j)),
    decreases 0x4000 - k,
{
    if k < 0x4000 && !free(port_at(start, k)) {
        found_ports_are_free(free, start, k + 1);
    }
}

/// If any port of the range is free, the search finds one.
pub proof fn free_ports_are_found(free: spec_fn(u16) -> bool, start: u16, p: u16)
    requires
        PORT_START <= start,
        PORT_START <= p,
        free(p),
    ensures
        first_free(free, start, 0) is Some,
{
    found_ports_are_free(free, start, 0);
    let j = if p >= start {
        p - start
    } else {
        p - start + 0x4000
    };
    assert(port_at(start, j) == p);
}

/// The next port in the range, going round.
fn next_port(p: u16) -> (r: u16)
    requires
        PORT_START <= p,
    ensures
        r == port_at(p, 1),
        PORT_START <= r,
{
    if p == PORT_END {
        PORT_START
    } else {
        p + 1
    }
}

impl NetStack {
    /// The listening ports are in order, and the searches within the range.
    pub open spec fn wf(&self) -> bool {
        &&& self.socks.wf()
        &&& self.table.wf(self.socks@)
        &&& PORT_START <= self.next_tcp_port
        &&& PORT_START <= self.next_udp_port
    }

    /// A stack without sockets.
    pub fn new() -> (r: Self)
        ensures
            r.wf(),
            r.socks@ == no_sockets(),
            forall|p: usize| !r.table@.contains_key(p),
            r.next_tcp_port == PORT_START,
            r.next_udp_port == PORT_START,
    {
        NetStack {
            socks: SocketSetWrapper::new(),
            table: ListenTable::new(),
            next_tcp_port: PORT_START,
            next_udp_port: PORT_START,
        }
    }

    /// The first free port for a stream from where the search goes on.
    fn search_tcp_port(&self) -> (r: Option<u16>)
        requires
            self.wf(),
        ensures
            match first_free(tcp_free(self.table@, self.socks@), self.next_tcp_port, 0) {
                Some(k) => r == Some(port_at(self.next_tcp_port, k)),
                None => r is None,
            },
            r matches Some(p) ==> PORT_START <= p,
    {
        let ghost free = tcp_free(self.table@, self.socks@);
        let start: u16 = self.next_tcp_port;
        let mut port: u16 = start;
        let mut tries: u16 = 0;
        while tries < PORT_COUNT
            invariant
                self.wf(),
                start == self.next_tcp_port,
                PORT_START <= start,
                PORT_START <= port,
                tries <= PORT_COUNT,
                port == port_at(start, tries as int),
                free == tcp_free(self.table@, self.socks@),
                first_free(free, start, 0) == first_free(free, start, tries as int),
            decreases PORT_COUNT - tries,
        {
            if self.table.can_listen(port) && self.socks.tcp_bind_check(
                IpAddress::Ipv4(LOOP_BACK_IP),
                port,
            ).is_ok() {
                return Some(port);
            }
            let following: u16 = next_port(port);
            proof {
                assert(following == port_at(start, tries + 1));
            }
            port = following;
            tries = tries + 1;
        }
        None
    }

    /// Tells whether there is a free port for a stream.
    pub fn has_free_port(&self) -> (r: bool)
        requires
            self.wf(),
        ensures
            r == (first_free(tcp_free(self.table@, self.socks@), self.next_tcp_port, 0) is Some),
    {
        self.search_tcp_port().is_some()
    }

    /// A free port for a stream, if there is one. The search goes on behind the
    /// port that was found last.
    pub fn get_ephemeral_port(&mut self) -> (r: Option<u16>)
        requires
            old(self).wf(),
        ensures
            final(self).wf(),
            final(self).socks == old(self).socks,
            final(self).table == old(self).table,
            final(self).next_udp_port == old(self).next_udp_port,
            port_search(
                tcp_free(old(self).table@, old(self).socks@),
                old(self).next_tcp_port,
                final(self).next_tcp_port,
                r,
            ),
    {
        match self.search_tcp_port() {
            Some(port) => {
                let following: u16 = next_port(port);
                proof {
                    let free = tcp_free(self.table@, self.socks@);
                    let k = first_free(free, self.next_tcp_port, 0)->0;
                    assert(following == port_at(self.next_tcp_port, k + 1));
                }
                self.next_tcp_port = following;
                Some(port)
            },
            None => None,
        }
    }

    /// The first free port for datagrams from where the search goes on.
    fn search_udp_port(&self) -> (r: Option<u16>)
        requires
            self.wf(),
        ensures
            match first_free(udp_free(self.socks@), self.next_udp_port, 0) {
                Some(k) => r == Some(port_at(self.next_udp_port, k)),
                None => r is None,
            },
            r matches Some(p) ==> PORT_START <= p,
    {
        let ghost free = udp_free(self.socks@);
        let start: u16 = self.next_udp_port;
        let mut port: u16 = start;
        let mut tries: u16 = 0;
        while tries < PORT_COUNT
            invariant
                self.wf(),
                start == self.next_udp_port,
                PORT_START <= start,
                PORT_START <= port,
                tries <= PORT_COUNT,
                port == port_at(start, tries as int),
                free == udp_free(self.socks@),
                first_free(free, start, 0) == first_free(free, start, tries as int),
            decreases PORT_COUNT - tries,
        {
            if self.socks.udp_bind_check(IpAddress::Ipv4(LOOP_BACK_IP), port).is_ok() {
                return Some(port);
            }
            let following: u16 = next_port(port);
            proof {
                assert(following == port_at(start, tries + 1));
            }
            port = following;
            tries = tries + 1;
        }
        None
    }

    /// Tells whether there is a free port for datagrams.
    pub fn has_free_udp_port(&self) -> (r: bool)
        requires
            self.wf(),
        ensures
            r == (first_free(udp_free(self.socks@), self.next_udp_port, 0) is Some),
    {
        self.search_udp_port().is_some()
    }

    /// A free port for datagrams, if there is one. The search goes on behind the
    /// port that was found last.
    pub fn get_ephemeral_udp_port(&mut self) -> (r: Option<u16>)
        requires
            old(self).wf(),
        ensures
            final(self).wf(),
            final(self).socks == old(self).socks,
            final(self).table == old(self).table,
            final(self).next_tcp_port == old(self).next_tcp_port,
            port_search(
                udp_free(old(self).socks@),
                old(self).next_udp_port,
                final(self).next_udp_port,
                r,
            ),
    {
        match self.search_udp_port() {
            Some(port) => {
                let following: u16 = next_port(port);
                proof {
                    let free = udp_free(self.socks@);
                    let k = first_free(free, self.next_udp_port, 0)->0;
                    assert(following == port_at(self.next_udp_port, k + 1));
                }
                self.next_udp_port = following;
                Some(port)
            },
            None => None,
        }
    }
}

/// Ports are tried one after the other, from 0xc000 to the last and then over again.
pub proof fn ports_are_tried_in_turn(start: u16, k: int)
    requires
        start >= 0xc000,
        k >= 0,
    ensures
        port_at(start, k) >= 0xc000,
        port_at(start, 0) == start,
        port_at(start, k) < 0xffff ==> port_at(start, k + 1) == port_at(start, k) + 1,
        port_at(start, k) == 0xffff ==> port_at(start, k + 1) == 0xc000,
{
}

/// A search gives the first free port, and the next search begins behind it.
pub proof fn searches_go_on_behind_the_last(
    free: spec_fn(u16) -> bool,
    start: u16,
    next: u16,
    r: Option<u16>,
)
    requires
        start >= 0xc000,
        port_search(free, start, next, r),
    ensures
        r matches Some(p) ==> free(p) && p >= 0xc000 && next == (if p == 0xffff {
            0xc000int
        } else {
            p + 1
        }),
        free(start) ==> r == Some(start),
        r is None ==> next == start,
{
    found_ports_are_free(free, start, 0);
    if first_free(free, start, 0) is Some {
        ports_are_tried_in_turn(start, first_free(free, start, 0)->0);
    }
}

/// A port is free for a stream if nobody listens on it and no stream of this machine uses it.
pub proof fn free_ports_are_unused(
    t: Map<usize, ListenTableEntry>,
    m: Map<SocketHandle, SocketView>,
    p: u16,
)
    ensures
        tcp_free(t, m)(p) ==> !t.contains_key(p as usize) && !tcp_taken(
            m,
            IpAddress::Ipv4(0x7f00_0001),
            p,
        ),
        !t.contains_key(p as usize) && !tcp_taken(m, IpAddress::Ipv4(0x7f00_0001), p) ==> tcp_free(
            t,
            m,
        )(p),
        udp_free(m)(p) == !udp_taken(m, IpAddress::Ipv4(0x7f00_0001), p),
{
}

} // verus!
