//! The network stack: addresses, sockets and devices.

pub mod addr;
pub mod http;
pub mod listen;
pub mod loopback;
pub mod smol;
pub mod socket;
pub mod stack;
pub mod tcp;
pub mod udp;
pub mod unix;

use crate::format::{
    decimal, low_digits, low_digits_can_be_read_back, padded, push_decimal, push_hex, push_padded,
};
use crate::net::addr::{Endpoint, IpAddress};
use crate::net::listen::{others_kept, port_rows, ports_promoted, TcpProcEntry};
use crate::net::smol::{handle_number, tcp_of, SocketView, TcpState};
use crate::net::stack::NetStack;
use crate::sorted_map::SortedMap;
use smoltcp::iface::SocketHandle;
use vstd::prelude::*;
use vstd::string::StringExecFns;

verus! {

/// The prefix length of the guest's network.
pub const GUEST_IP_PREFIX: u8 = 24;

/// The address of the guest in its network.
pub fn guest_ip() -> (r: &'static str)
    ensures
        r@ == "10.0.2.15"@,
{
    "10.0.2.15"
}

/// The bytes of the guest's address.
pub fn guest_ip_octets() -> (r: [u8; 4])
    ensures
        r@ == seq![10u8, 0, 2, 15],
{
    let r: [u8; 4] = [10, 0, 2, 15];
    proof {
        assert(r@ =~= seq![10u8, 0, 2, 15]);
    }
    r
}

/// How long the network is left alone between two looks at it, in milliseconds.
pub const POLL_INTERVAL_MS: usize = 10;

/// When the network was last looked at in the background.
#[derive(Debug, Clone, Copy, PartialEq, Eq, Structural)]
pub struct PollThrottle {
    pub last_ms: usize,
}

impl PollThrottle {
    /// Tells whether the network is looked at now: there is a device, and the
    /// last look was long enough ago.
    pub fn poll_background(&mut self, has_device: bool, now_ms: usize) -> (r: bool)
        ensures
            r == (has_device && now_ms >= old(self).last_ms + POLL_INTERVAL_MS),
            *final(self) == (if r {
                PollThrottle { last_ms: now_ms }
            } else {
                *old(self)
            }),
    {
        if !has_device {
            return false;
        }
        let elapsed: usize = if now_ms < self.last_ms {
            0
        } else {
            now_ms - self.last_ms
        };
        if elapsed < POLL_INTERVAL_MS {
            return false;
        }
        self.last_ms = now_ms;
        true
    }
}

/// Threads that sleep in a stream operation.
pub struct TcpWaiters {
    pub tids: SortedMap<()>,
}

impl TcpWaiters {
    pub open spec fn wf(&self) -> bool {
        self.tids.wf()
    }

    /// The threads.
    pub open spec fn waiting(&self) -> Set<usize> {
        self.tids@.dom()
    }

    /// No threads.
    pub fn new() -> (r: Self)
        ensures
            r.wf(),
            r.waiting() == Set::<usize>::empty(),
    {
        TcpWaiters { tids: SortedMap::new() }
    }

    /// Puts a thread on the list.
    pub fn register_tcp_waiter(&mut self, tid: usize)
        requires
            old(self).wf(),
        ensures
            final(self).wf(),
            final(self).waiting() == old(self).waiting().insert(tid),
    {
        let ghost before = self.tids@;
        self.tids.insert(tid, ());
        proof {
            assert(self.waiting() =~= before.dom().insert(tid));
        }
    }

    /// Strikes a thread off the list.
    pub fn unregister_tcp_waiter(&mut self, tid: usize)
        requires
            old(self).wf(),
        ensures
            final(self).wf(),
            final(self).waiting() == old(self).waiting().remove(tid),
    {
        let ghost before = self.tids@;
        let _ = self.tids.remove(tid);
        proof {
            assert(self.waiting() =~= before.dom().remove(tid));
        }
    }

    /// The threads to wake after an event, in ascending order; they stay on the
    /// list.
    pub fn wake_tcp_waiters(&self) -> (r: Vec<usize>)
        requires
            self.wf(),
        ensures
            r@.to_set() == self.waiting(),
            forall|i: int, j: int| 0 <= i < j < r@.len() ==> r@[i] < r@[j],
    {
        let mut out: Vec<usize> = Vec::new();
        let mut i: usize = 0;
        while i < self.tids.entries.len()
            invariant
                self.wf(),
                i <= self.tids.entries@.len(),
                out@.len() == i,
                forall|k: int| 0 <= k < i ==> out@[k] == (#[trigger] self.tids.entries@[k]).0,
            decreases self.tids.entries@.len() - i,
        {
            out.push(self.tids.entries[i].0);
            i = i + 1;
        }
        proof {
            assert forall|t: usize| out@.to_set().contains(t) <==> self.waiting().contains(t) by {
                if self.waiting().contains(t) {
                    let k = self.tids.view_has_entry(t);
                    assert(out@[k] == self.tids.entries@[k].0);
                    assert(out@.contains(t));
                }
                if out@.to_set().contains(t) {
                    let k = out@.index_of(t);
                    assert(out@[k] == self.tids.entries@[k].0);
                    self.tids.entry_in_view(k);
                }
            }
            assert(out@.to_set() =~= self.waiting());
            assert forall|a: int, b: int| 0 <= a < b < out@.len() implies out@[a] < out@[b] by {
                assert(self.tids.entries@[a].0 < self.tids.entries@[b].0);
            }
        }
        out
    }
}

/// The bytes of a version four address as a number, the first the lowest; zero
/// for an address of version six.
pub open spec fn ipv4_number(addr: IpAddress) -> int {
    match addr {
        IpAddress::Ipv4(a) => (a / 0x100_0000) as int + ((a / 0x1_0000) % 256) * 0x100 + ((a / 0x100)
            % 256) * 0x1_0000 + (a % 256) * 0x100_0000,
        IpAddress::Ipv6(_) => 0,
    }
}

fn proc_ipv4_hex(addr: IpAddress) -> (r: u32)
    ensures
        r == ipv4_number(addr),
{
    match addr {
        IpAddress::Ipv4(a) => (a / 0x100_0000) + ((a / 0x1_0000) % 256) * 0x100 + ((a / 0x100) % 256)
            * 0x1_0000 + (a % 256) * 0x100_0000,
        IpAddress::Ipv6(_) => 0,
    }
}

/// The number that the connection listing has for a state.
pub open spec fn state_number(state: TcpState) -> u8 {
    match state {
        TcpState::Established => 0x01,
        TcpState::SynSent => 0x02,
        TcpState::SynReceived => 0x03,
        TcpState::FinWait1 => 0x04,
        TcpState::FinWait2 => 0x05,
        TcpState::TimeWait => 0x06,
        TcpState::Closed => 0x07,
        TcpState::CloseWait => 0x08,
        TcpState::LastAck => 0x09,
        TcpState::Listen => 0x0a,
        TcpState::Closing => 0x0b,
    }
}

fn proc_tcp_state(state: TcpState) -> (r: u8)
    ensures
        r == state_number(state),
{
    match state {
        TcpState::Established => 0x01,
        TcpState::SynSent => 0x02,
        TcpState::SynReceived => 0x03,
        TcpState::FinWait1 => 0x04,
        TcpState::FinWait2 => 0x05,
        TcpState::TimeWait => 0x06,
        TcpState::Closed => 0x07,
        TcpState::CloseWait => 0x08,
        TcpState::LastAck => 0x09,
        TcpState::Listen => 0x0a,
        TcpState::Closing => 0x0b,
    }
}

/// A text with an endpoint behind it.
pub open spec fn with_endpoint(s: Seq<char>, e: Endpoint) -> Seq<char> {
    s + low_digits(ipv4_number(e.addr) as nat, 8, true) + ":"@ + low_digits(e.port as nat, 4, true)
}

/// A text with a row of the connection listing behind it.
pub open spec fn with_row(s: Seq<char>, i: nat, row: TcpProcEntry) -> Seq<char> {
    let a = with_endpoint(s + padded(decimal(i), ' ', 4) + ": "@, row.local);
    let b = with_endpoint(a + " "@, row.remote);
    b + " "@ + low_digits(state_number(row.state) as nat, 2, true)
        + " 00000000:00000000 00:00000000 00000000     0        0 "@ + decimal(i + 1) + "\n"@
}

/// The connection listing.
pub open spec fn rows_text(rows: Seq<TcpProcEntry>) -> Seq<char>
    decreases rows.len(),
{
    if rows.len() == 0 {
        "  sl  local_address rem_address   st tx_queue rx_queue tr tm->when retrnsmt   uid  timeout inode\n"@
    } else {
        with_row(rows_text(rows.drop_last()), (rows.len() - 1) as nat, rows.last())
    }
}

fn push_endpoint(out: &mut String, e: Endpoint)
    ensures
        final(out)@ == with_endpoint(old(out)@, e),
{
    push_hex(out, proc_ipv4_hex(e.addr) as u64, 8, true);
    out.append(":");
    push_hex(out, e.port as u64, 4, true);
}

fn push_row(out: &mut String, i: usize, row: TcpProcEntry)
    requires
        i < usize::MAX,
    ensures
        final(out)@ == with_row(old(out)@, i as nat, row),
{
    push_padded(out, i as u64, false, 4);
    out.append(": ");
    push_endpoint(out, row.local);
    out.append(" ");
    push_endpoint(out, row.remote);
    out.append(" ");
    push_hex(out, proc_tcp_state(row.state) as u64, 2, true);
    out.append(" 00000000:00000000 00:00000000 00000000     0        0 ");
    push_decimal(out, (i + 1) as u64);
    out.append("\n");
}

/// The connection listing as text.
pub fn format_tcp_rows(rows: &Vec<TcpProcEntry>) -> (r: String)
    ensures
        r@ == rows_text(rows@),
{
    let mut out = String::new();
    out.append(
        "  sl  local_address rem_address   st tx_queue rx_queue tr tm->when retrnsmt   uid  timeout inode\n",
    );
    let mut i: usize = 0;
    proof {
        assert(out@ =~= rows_text(rows@.take(0)));
    }
    while i < rows.len()
        invariant
            i <= rows@.len(),
            out@ == rows_text(rows@.take(i as int)),
        decreases rows@.len() - i,
    {
        let row = rows[i];
        push_row(&mut out, i, row);
        proof {
            assert(rows@.take(i + 1).drop_last() =~= rows@.take(i as int));
            assert(rows@.take(i + 1).last() == row);
        }
        i = i + 1;
    }
    proof {
        assert(rows@.take(i as int) =~= rows@);
    }
    out
}

/// The rows of the stream sockets of a list that have a local endpoint.
pub open spec fn socket_rows(m: Map<SocketHandle, SocketView>, hs: Seq<(SocketHandle, bool)>) -> Seq<
    TcpProcEntry,
>
    decreases hs.len(),
{
    if hs.len() == 0 {
        Seq::empty()
    } else {
        let rest = socket_rows(m, hs.drop_last());
        let (h, stream) = hs.last();
        match tcp_of(m, h).tuple {
            Some((local, remote)) => if stream {
                rest.push(TcpProcEntry { local, remote, state: tcp_of(m, h).state })
            } else {
                rest
            },
            None => rest,
        }
    }
}

/// The list has every socket once, in the order of the handles' numbers, with
/// whether it is a stream.
pub open spec fn lists_sockets(m: Map<SocketHandle, SocketView>, hs: Seq<(SocketHandle, bool)>) -> bool {
    &&& forall|i: int|
        0 <= i < hs.len() ==> m.contains_key((#[trigger] hs[i]).0) && (hs[i].1
            <==> m[hs[i].0] is Tcp)
    &&& forall|h: SocketHandle| #[trigger]
        m.contains_key(h) ==> exists|i: int| 0 <= i < hs.len() && (#[trigger] hs[i]).0 == h
    &&& forall|i: int, j: int|
        0 <= i < j < hs.len() ==> handle_number((#[trigger] hs[i]).0) < handle_number(
            (#[trigger] hs[j]).0,
        )
}

/// There is only one such list, so a listing is determined by the sockets.
pub proof fn lists_are_unique(
    m: Map<SocketHandle, SocketView>,
    a: Seq<(SocketHandle, bool)>,
    b: Seq<(SocketHandle, bool)>,
)
    requires
        lists_sockets(m, a),
        lists_sockets(m, b),
    ensures
        a == b,
    decreases a.len(),
{
    if a.len() == 0 {
        if b.len() > 0 {
            assert(m.contains_key(b[0].0));
        }
        assert(a =~= b);
    } else {
        let x = a.last().0;
        assert(m.contains_key(x));
        let k = choose|k: int| 0 <= k < b.len() && (#[trigger] b[k]).0 == x;
        let y = b.last().0;
        assert(m.contains_key(y));
        let j = choose|j: int| 0 <= j < a.len() && (#[trigger] a[j]).0 == y;
        if k < b.len() - 1 {
            assert(handle_number(b[k].0) < handle_number(b[b.len() - 1].0));
        }
        if j < a.len() - 1 {
            assert(handle_number(a[j].0) < handle_number(a[a.len() - 1].0));
        }
        assert(x == y);
        shorter_list(m, a);
        shorter_list(m, b);
        lists_are_unique(m.remove(x), a.drop_last(), b.drop_last());
        assert(a =~= a.drop_last().push(a.last()));
        assert(b =~= b.drop_last().push(b.last()));
    }
}

proof fn shorter_list(m: Map<SocketHandle, SocketView>, a: Seq<(SocketHandle, bool)>)
    requires
        lists_sockets(m, a),
        a.len() > 0,
    ensures
        lists_sockets(m.remove(a.last().0), a.drop_last()),
{
    let x = a.last().0;
    let n = m.remove(x);
    let c = a.drop_last();
    assert forall|i: int| 0 <= i < c.len() implies n.contains_key((#[trigger] c[i]).0) && (c[i].1
        <==> n[c[i].0] is Tcp) by {
        assert(c[i] == a[i]);
        assert(handle_number(a[i].0) < handle_number(a[a.len() - 1].0));
    }
    assert forall|h: SocketHandle| #[trigger] n.contains_key(h) implies exists|i: int|
        0 <= i < c.len() && (#[trigger] c[i]).0 == h by {
        assert(m.contains_key(h));
        let i = choose|i: int| 0 <= i < a.len() && (#[trigger] a[i]).0 == h;
        assert(c[i] == a[i]);
    }
    assert forall|i: int, j: int| 0 <= i < j < c.len() implies handle_number(
        (#[trigger] c[i]).0,
    ) < handle_number((#[trigger] c[j]).0) by {
        assert(c[i] == a[i] && c[j] == a[j]);
    }
}

/// The rows of all connections: those of the listening ports, then those of all
/// stream sockets.
pub fn tcp_rows(net: &NetStack) -> (r: Vec<TcpProcEntry>)
    requires
        net.wf(),
    ensures
        exists|hs: Seq<(SocketHandle, bool)>| #[trigger]
            lists_sockets(net.socks@, hs) && r@ == port_rows(net.socks@, net.table.table.entries@)
                + socket_rows(net.socks@, hs),
{
    let mut rows = net.table.proc_entries(&net.socks);
    let ghost ports = rows@;
    let list = smol::list_sockets(&net.socks.set);
    let mut i: usize = 0;
    proof {
        assert(list@.take(0) =~= Seq::<(SocketHandle, bool)>::empty());
        assert(ports + Seq::<TcpProcEntry>::empty() =~= ports);
    }
    while i < list.len()
        invariant
            i <= list@.len(),
            lists_sockets(net.socks@, list@),
            rows@ == ports + socket_rows(net.socks@, list@.take(i as int)),
        decreases list@.len() - i,
    {
        let (h, stream) = list[i];
        let ghost rest = socket_rows(net.socks@, list@.take(i as int));
        proof {
            assert(list@[i as int].0 == h);
            assert(list@.take(i + 1).drop_last() =~= list@.take(i as int));
            assert(list@.take(i + 1).last() == list@[i as int]);
        }
        if stream {
            match smol::tcp_local(&net.socks.set, h) {
                Some(a) => match smol::tcp_remote(&net.socks.set, h) {
                    Some(b) => {
                        let row = TcpProcEntry {
                            local: smol::from_wire(a),
                            remote: smol::from_wire(b),
                            state: smol::tcp_state(&net.socks.set, h),
                        };
                        proof {
                            assert((ports + rest).push(row) =~= ports + rest.push(row));
                        }
                        rows.push(row);
                    },
                    None => {},
                },
                None => {},
            }
        }
        i = i + 1;
    }
    proof {
        assert(list@.take(i as int) =~= list@);
        assert(lists_sockets(net.socks@, list@));
    }
    rows
}

/// The connection listing: the rows of the listening ports, then those of all
/// stream sockets.
pub fn proc_net_tcp(net: &NetStack) -> (r: String)
    requires
        net.wf(),
    ensures
        exists|hs: Seq<(SocketHandle, bool)>| #[trigger]
            lists_sockets(net.socks@, hs) && r@ == rows_text(
                port_rows(net.socks@, net.table.table.entries@) + socket_rows(net.socks@, hs),
            ),
{
    let rows = tcp_rows(net);
    format_tcp_rows(&rows)
}

/// What follows when the devices have been served: the listening ports are
/// replenished, and the threads that wait for streams are to be woken, in
/// ascending order.
pub fn poll_interfaces(net: &mut NetStack, waiters: &TcpWaiters) -> (r: Vec<usize>)
    requires
        old(net).wf(),
        waiters.wf(),
    ensures
        final(net).wf(),
        final(net).next_tcp_port == old(net).next_tcp_port,
        final(net).next_udp_port == old(net).next_udp_port,
        final(net).table.active_ports == old(net).table.active_ports,
        ports_promoted(
            old(net).table.active_ports@,
            old(net).table@,
            old(net).socks@,
            final(net).table@,
            final(net).socks@,
        ),
        others_kept(old(net).table@, old(net).socks@, final(net).table@, final(net).socks@),
        r@.to_set() == waiters.waiting(),
        forall|i: int, j: int| 0 <= i < j < r@.len() ==> r@[i] < r@[j],
{
    net.table.promote_ready_listeners(&mut net.socks);
    waiters.wake_tcp_waiters()
}

/// A text with the first `n` bytes of a list behind it.
pub open spec fn listed_bytes(s: Seq<char>, bytes: Seq<u8>, n: nat) -> Seq<char>
    decreases n,
{
    if n == 0 {
        s
    } else if n == 1 {
        listed_bytes(s, bytes, 0) + decimal(bytes[0] as nat)
    } else {
        listed_bytes(s, bytes, (n - 1) as nat) + ", "@ + decimal(bytes[n - 1] as nat)
    }
}

/// What is told when the network has been set up, with the device's hardware
/// address if there is one.
pub open spec fn network_note(mac: Option<[u8; 6]>, http: bool) -> Seq<char> {
    match mac {
        None => "[net] virtio-net not present; real network + HTTP server disabled\n"@,
        Some(m) => {
            let up = listed_bytes("[net] virtio-net up, mac=["@, m@, 6) + "], guest ip="@
                + "10.0.2.15"@ + "\n"@;
            (if http {
                up + "[net] in-kernel HTTP server listening on port "@
            } else {
                up + "[net] in-kernel HTTP server failed to bind port "@
            }) + decimal(80) + "\n"@
        },
    }
}

/// What is told when the network has been set up.
pub fn init_ethernet(mac: Option<[u8; 6]>, http: bool) -> (r: String)
    ensures
        r@ == network_note(mac, http),
{
    match mac {
        None => String::from_str(
            "[net] virtio-net not present; real network + HTTP server disabled\n",
        ),
        Some(m) => {
            let mut out = String::from_str("[net] virtio-net up, mac=[");
            let mut i: usize = 0;
            while i < 6
                invariant
                    i <= 6,
                    out@ == listed_bytes("[net] virtio-net up, mac=["@, m@, i as nat),
                decreases 6 - i,
            {
                if i > 0 {
                    out.append(", ");
                }
                push_decimal(&mut out, m[i] as u64);
                i = i + 1;
            }
            out.append("], guest ip=");
            out.append(guest_ip());
            out.append("\n");
            if http {
                out.append("[net] in-kernel HTTP server listening on port ");
            } else {
                out.append("[net] in-kernel HTTP server failed to bind port ");
            }
            push_decimal(&mut out, 80);
            out.append("\n");
            out
        },
    }
}

/// The number shown for an address has its first byte lowest.
pub proof fn addresses_are_shown_first_byte_lowest(a: u8, b: u8, c: u8, d: u8)
    ensures
        ipv4_number(
            IpAddress::Ipv4((a * 0x100_0000 + b * 0x1_0000 + c * 0x100 + d) as u32),
        ) == d * 0x100_0000 + c * 0x1_0000 + b * 0x100 + a,
{
    let n = (a * 0x100_0000 + b * 0x1_0000 + c * 0x100 + d) as u32;
    assert(n / 0x100_0000 == a);
    assert(n / 0x1_0000 == a * 0x100 + b);
    assert(n / 0x100 == a * 0x1_0000 + b * 0x100 + c);
    assert((a * 0x100 + b) % 256 == b as int);
    assert((a * 0x1_0000 + b * 0x100 + c) % 256 == c as int);
    assert(n % 256 == d);
}

/// Every state of a connection has a number of its own, from 1 to 11.
pub proof fn states_have_their_own_numbers(s: TcpState, t: TcpState)
    ensures
        1 <= state_number(s) <= 11,
        state_number(s) == state_number(t) ==> s == t,
        state_number(TcpState::Established) == 1 && state_number(TcpState::Listen) == 10
            && state_number(TcpState::SynSent) == 2 && state_number(TcpState::TimeWait) == 6
            && state_number(TcpState::Closed) == 7,
{
}

/// A row is written behind the others, with its number, both ends and its state.
pub proof fn rows_follow_each_other(rows: Seq<TcpProcEntry>, row: TcpProcEntry)
    ensures
        rows_text(rows.push(row)) == with_row(rows_text(rows), rows.len(), row),
        rows_text(rows).is_prefix_of(rows_text(rows.push(row))),
{
    assert(rows.push(row).drop_last() =~= rows);
}

/// Every stream with both ends has one row, in the order of the list; no other socket has one.
pub proof fn streams_have_one_row(
    m: Map<SocketHandle, SocketView>,
    hs: Seq<(SocketHandle, bool)>,
    h: SocketHandle,
)
    ensures
        socket_rows(m, hs).len() <= hs.len(),
        socket_rows(m, hs.push((h, false))) == socket_rows(m, hs),
        tcp_of(m, h).tuple is None ==> socket_rows(m, hs.push((h, true))) == socket_rows(m, hs),
        tcp_of(m, h).tuple matches Some((local, remote)) ==> {
            let rows = socket_rows(m, hs.push((h, true)));
            &&& rows.drop_last() =~= socket_rows(m, hs)
            &&& rows.last().local == local && rows.last().remote == remote && rows.last().state
                == tcp_of(m, h).state
        },
    decreases hs.len(),
{
    assert(hs.push((h, false)).drop_last() =~= hs);
    assert(hs.push((h, true)).drop_last() =~= hs);
    if hs.len() > 0 {
        streams_have_one_row(m, hs.drop_last(), h);
    }
}

/// An end is shown as its address in eight digits and its port in four.
pub proof fn ends_are_shown_in_twelve_digits(s: Seq<char>, e: Endpoint)
    ensures
        with_endpoint(s, e).len() == s.len() + 13,
        s.is_prefix_of(with_endpoint(s, e)),
        with_endpoint(s, e).subrange(s.len() as int + 9, s.len() as int + 13) =~= low_digits(
            e.port as nat,
            4,
            true,
        ),
        with_endpoint(s, e).subrange(s.len() as int, s.len() as int + 8) =~= low_digits(
            ipv4_number(e.addr) as nat,
            8,
            true,
        ),
        with_endpoint(s, e)[s.len() as int + 8] == ':',
{
    reveal_strlit(":");
    low_digits_can_be_read_back(e.port as nat, 4, true);
    low_digits_can_be_read_back(ipv4_number(e.addr) as nat, 8, true);
}

} // verus!
