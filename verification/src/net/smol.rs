//! The protocol engine: what the library relies on of its sockets.
//!
//! The engine keeps sockets in a set and hands out handles for them. What a set
//! holds is described here by plain values; every operation of the engine that
//! the library uses stands below with what it does to them.

use crate::net::addr::{IpAddress, Endpoint, ListenEndpoint};
use smoltcp::iface::{Interface, SocketHandle, SocketSet};
use smoltcp::socket::tcp::Socket as TcpEngine;
use smoltcp::socket::udp::Socket as UdpEngine;
use smoltcp::socket::{tcp, udp};
use smoltcp::wire;
use vstd::prelude::*;

verus! {

/// A set of sockets of the engine.
#[verifier::external_type_specification]
#[verifier::external_body]
pub struct ExSocketSet<'a>(SocketSet<'a>);

/// A handle of a socket in a set.
#[verifier::external_type_specification]
#[verifier::external_body]
pub struct ExSocketHandle(SocketHandle);

/// A stream socket that is not in a set yet.
#[verifier::external_type_specification]
#[verifier::external_body]
pub struct ExTcpSocket<'a>(TcpEngine<'a>);

/// A datagram socket that is not in a set yet.
#[verifier::external_type_specification]
#[verifier::external_body]
pub struct ExUdpSocket<'a>(UdpEngine<'a>);

/// A network interface.
#[verifier::external_type_specification]
#[verifier::external_body]
pub struct ExInterface(Interface);

/// An endpoint as the engine has it.
#[verifier::external_type_specification]
#[verifier::external_body]
pub struct ExWireEndpoint(wire::IpEndpoint);

/// An endpoint to listen on as the engine has it.
#[verifier::external_type_specification]
#[verifier::external_body]
pub struct ExWireListenEndpoint(wire::IpListenEndpoint);

/// The states of a connection.
#[derive(Debug, Clone, Copy, PartialEq, Eq, Structural)]
pub enum TcpState {
    Closed,
    Listen,
    SynSent,
    SynReceived,
    Established,
    FinWait1,
    FinWait2,
    CloseWait,
    Closing,
    LastAck,
    TimeWait,
}

/// What a stream socket holds.
pub struct TcpView {
    pub state: TcpState,
    /// The local and the remote endpoint of the connection.
    pub tuple: Option<(Endpoint, Endpoint)>,
    pub listen: ListenEndpoint,
    /// Bytes that were received and not read yet.
    pub rx: Seq<u8>,
    /// Bytes that were written and not acknowledged yet.
    pub tx: Seq<u8>,
    /// The largest length of `tx`.
    pub tx_cap: nat,
    /// The peer has closed its side.
    pub fin: bool,
    pub nagle: bool,
    pub hop_limit: Option<u8>,
}

/// A datagram and the endpoint it comes from or goes to.
pub struct Datagram {
    pub peer: Endpoint,
    pub payload: Seq<u8>,
}

/// What a datagram socket holds.
pub struct UdpView {
    pub endpoint: ListenEndpoint,
    pub rx: Seq<Datagram>,
    pub tx: Seq<Datagram>,
    /// The socket reports something to receive; it may be mistaken if no
    /// datagram is there.
    pub rx_waiting: bool,
    /// No further datagram can be queued.
    pub tx_full: bool,
    /// Bytes of the buffer that are taken, padding included.
    pub tx_used: nat,
    /// The largest number of bytes that can be queued.
    pub tx_cap: nat,
    /// The largest number of datagrams that can be queued, paddings included.
    pub tx_slots: nat,
    pub hop_limit: Option<u8>,
}

/// What a socket holds.
pub enum SocketView {
    Tcp(TcpView),
    Udp(UdpView),
}

/// What a set of sockets holds.
pub uninterp spec fn sockets(set: SocketSet<'static>) -> Map<SocketHandle, SocketView>;

/// A set owns the storage of its sockets, and gets more of it when it is full.
pub uninterp spec fn owns_storage(set: SocketSet<'static>) -> bool;

/// The number of a handle.
pub uninterp spec fn handle_number(h: SocketHandle) -> nat;

/// What a stream socket outside a set holds.
pub uninterp spec fn tcp_contents(socket: TcpEngine<'static>) -> TcpView;

/// What a datagram socket outside a set holds.
pub uninterp spec fn udp_contents(socket: UdpEngine<'static>) -> UdpView;

/// The endpoint that an endpoint of the engine is.
pub uninterp spec fn endpoint_contents(e: wire::IpEndpoint) -> Endpoint;

/// The endpoint to listen on that one of the engine is.
pub uninterp spec fn listen_contents(e: wire::IpListenEndpoint) -> ListenEndpoint;

/// The handle is one of a stream socket.
pub open spec fn is_tcp(m: Map<SocketHandle, SocketView>, h: SocketHandle) -> bool {
    m.contains_key(h) && m[h] is Tcp
}

/// The stream socket behind a handle.
pub open spec fn tcp_of(m: Map<SocketHandle, SocketView>, h: SocketHandle) -> TcpView {
    m[h]->Tcp_0
}

/// The handle is one of a datagram socket.
pub open spec fn is_udp(m: Map<SocketHandle, SocketView>, h: SocketHandle) -> bool {
    m.contains_key(h) && m[h] is Udp
}

/// The datagram socket behind a handle.
pub open spec fn udp_of(m: Map<SocketHandle, SocketView>, h: SocketHandle) -> UdpView {
    m[h]->Udp_0
}

/// No endpoint at all.
pub open spec fn no_listen() -> ListenEndpoint {
    ListenEndpoint { addr: None, port: 0 }
}

/// A new stream socket.
pub open spec fn fresh_tcp(tx_cap: nat) -> TcpView {
    TcpView {
        state: TcpState::Closed,
        tuple: None,
        listen: no_listen(),
        rx: Seq::empty(),
        tx: Seq::empty(),
        tx_cap,
        fin: false,
        nagle: true,
        hop_limit: None,
    }
}

/// A new datagram socket. One without room for a single datagram is full from the
/// start.
pub open spec fn fresh_udp(tx_cap: nat, tx_slots: nat) -> UdpView {
    UdpView {
        endpoint: no_listen(),
        rx: Seq::empty(),
        tx: Seq::empty(),
        rx_waiting: false,
        tx_full: tx_slots == 0,
        tx_used: 0,
        tx_cap,
        tx_slots,
        hop_limit: None,
    }
}

/// The socket takes part in an exchange of packets.
pub open spec fn tcp_open(v: TcpView) -> bool {
    v.state != TcpState::Closed && v.state != TcpState::TimeWait
}

/// The socket has a connection.
pub open spec fn tcp_active(v: TcpView) -> bool {
    tcp_open(v) && v.state != TcpState::Listen
}

/// The sending half of the connection is open.
pub open spec fn tcp_may_send(v: TcpView) -> bool {
    v.state == TcpState::Established || v.state == TcpState::CloseWait
}

/// The receiving half of the connection is open, or data is left to read.
pub open spec fn tcp_may_recv(v: TcpView) -> bool {
    ||| v.state == TcpState::Established
    ||| v.state == TcpState::FinWait1
    ||| v.state == TcpState::FinWait2
    ||| v.rx.len() > 0
}

/// Data can be written at once.
pub open spec fn tcp_can_send(v: TcpView) -> bool {
    tcp_may_send(v) && v.tx.len() < v.tx_cap
}

/// Data can be read at once.
pub open spec fn tcp_can_recv(v: TcpView) -> bool {
    v.rx.len() > 0
}

/// The socket after its sending half was closed.
pub open spec fn tcp_closed(v: TcpView) -> TcpView {
    TcpView {
        state: match v.state {
            TcpState::Listen => TcpState::Closed,
            TcpState::SynSent => TcpState::Closed,
            TcpState::SynReceived => TcpState::FinWait1,
            TcpState::Established => TcpState::FinWait1,
            TcpState::CloseWait => TcpState::LastAck,
            s => s,
        },
        ..v
    }
}

/// The socket without a connection and without data.
pub open spec fn tcp_reset(v: TcpView) -> TcpView {
    TcpView { nagle: v.nagle, hop_limit: v.hop_limit, ..fresh_tcp(v.tx_cap) }
}

/// The socket after it was told to listen, if it can be.
pub open spec fn tcp_listening(v: TcpView, e: ListenEndpoint) -> Option<TcpView> {
    if e.port == 0 {
        None
    } else if tcp_open(v) {
        if v.state == TcpState::Listen && v.listen == e {
            Some(v)
        } else {
            None
        }
    } else {
        Some(TcpView { state: TcpState::Listen, listen: e, ..tcp_reset(v) })
    }
}

/// Addresses that no connection can be made from or to.
pub open spec fn unreachable_ip(a: IpAddress) -> bool {
    match a {
        IpAddress::Ipv4(n) => n < 0x100_0000,
        IpAddress::Ipv6(n) => n == 0,
    }
}

/// Both addresses are of the same version.
pub open spec fn same_version(a: IpAddress, b: IpAddress) -> bool {
    a is Ipv4 <==> b is Ipv4
}

/// The socket after it was told to connect, if it can be.
pub open spec fn tcp_connecting(v: TcpView, local: Endpoint, remote: Endpoint) -> Option<TcpView> {
    if tcp_open(v) || remote.port == 0 || unreachable_ip(remote.addr) || local.port == 0
        || unreachable_ip(local.addr) || !same_version(local.addr, remote.addr) {
        None
    } else {
        Some(TcpView { state: TcpState::SynSent, tuple: Some((local, remote)), ..tcp_reset(v) })
    }
}

/// The smaller of two numbers.
pub open spec fn smaller(a: int, b: int) -> int {
    if a < b {
        a
    } else {
        b
    }
}

/// No socket at all.
pub open spec fn no_sockets() -> Map<SocketHandle, SocketView> {
    Map::empty()
}

/// `smoltcp::iface::SocketSet::new` on an empty vector: a set without sockets that
/// owns its storage.
#[verifier::external_body]
pub(crate) fn new_set() -> (r: SocketSet<'static>)
    ensures
        sockets(r) == no_sockets(),
        owns_storage(r),
{
    SocketSet::new(Vec::new())
}

/// `smoltcp::socket::tcp::Socket::new` on buffers of the given sizes: a closed
/// socket. A receive buffer of more than a gibibyte is refused by a panic.
#[verifier::external_body]
pub(crate) fn tcp_socket(rx: usize, tx: usize) -> (r: TcpEngine<'static>)
    requires
        rx <= 0x4000_0000,
    ensures
        tcp_contents(r) == fresh_tcp(tx as nat),
{
    TcpEngine::new(tcp::SocketBuffer::new(vec![0; rx]), tcp::SocketBuffer::new(vec![0; tx]))
}

/// `smoltcp::socket::udp::Socket::new` on buffers for the given numbers of
/// datagrams and bytes: a socket that is not bound.
#[verifier::external_body]
pub(crate) fn udp_socket(packets: usize, rx: usize, tx: usize) -> (r: UdpEngine<'static>)
    ensures
        udp_contents(r) == fresh_udp(tx as nat, packets as nat),
{
    UdpEngine::new(
        udp::PacketBuffer::new(vec![udp::PacketMetadata::EMPTY; packets], vec![0; rx]),
        udp::PacketBuffer::new(vec![udp::PacketMetadata::EMPTY; packets], vec![0; tx]),
    )
}

/// `smoltcp::iface::SocketSet::add` with a stream socket: it gets a handle that
/// no socket of the set has. A full set that does not own its storage refuses by
/// a panic.
#[verifier::external_body]
pub(crate) fn add_tcp(set: &mut SocketSet<'static>, socket: TcpEngine<'static>) -> (h: SocketHandle)
    requires
        owns_storage(*old(set)),
    ensures
        owns_storage(*final(set)) == owns_storage(*old(set)),
        !sockets(*old(set)).contains_key(h),
        sockets(*final(set)) == sockets(*old(set)).insert(h, SocketView::Tcp(tcp_contents(socket))),
{
    set.add(socket)
}

/// `smoltcp::iface::SocketSet::add` with a datagram socket: it gets a handle
/// that no socket of the set has. A full set that does not own its storage
/// refuses by a panic.
#[verifier::external_body]
pub(crate) fn add_udp(set: &mut SocketSet<'static>, socket: UdpEngine<'static>) -> (h: SocketHandle)
    requires
        owns_storage(*old(set)),
    ensures
        owns_storage(*final(set)) == owns_storage(*old(set)),
        !sockets(*old(set)).contains_key(h),
        sockets(*final(set)) == sockets(*old(set)).insert(h, SocketView::Udp(udp_contents(socket))),
{
    set.add(socket)
}

/// `smoltcp::iface::SocketSet::remove`: the socket leaves the set. A handle
/// without a socket is refused by a panic.
#[verifier::external_body]
pub(crate) fn remove_socket(set: &mut SocketSet<'static>, h: SocketHandle)
    requires
        sockets(*old(set)).contains_key(h),
    ensures
        owns_storage(*final(set)) == owns_storage(*old(set)),
        sockets(*final(set)) == sockets(*old(set)).remove(h),
{
    let _ = set.remove(h);
}

/// `smoltcp::iface::SocketSet::iter`: the handle of each socket once, in the order
/// of their numbers, and whether it is a stream socket.
#[verifier::external_body]
pub(crate) fn list_sockets(set: &SocketSet<'static>) -> (r: Vec<(SocketHandle, bool)>)
    ensures
        forall|i: int|
            0 <= i < r@.len() ==> sockets(*set).contains_key((#[trigger] r@[i]).0) && (r@[i].1
                <==> sockets(*set)[r@[i].0] is Tcp),
        forall|h: SocketHandle| #[trigger]
            sockets(*set).contains_key(h) ==> exists|i: int| 0 <= i < r@.len() && (#[trigger] r@[i]).0
                == h,
        forall|i: int, j: int|
            0 <= i < j < r@.len() ==> handle_number((#[trigger] r@[i]).0) < handle_number(
                (#[trigger] r@[j]).0,
            ),
{
    set.iter().map(|(h, s)| (h, matches!(s, smoltcp::socket::Socket::Tcp(_)))).collect()
}

/// `==` of `smoltcp::iface::SocketHandle`: a handle is a number and nothing else.
#[verifier::external_body]
pub(crate) fn same_handle(a: SocketHandle, b: SocketHandle) -> (r: bool)
    ensures
        r == (a == b),
{
    a == b
}

/// The endpoint of the engine for an endpoint, as `smoltcp::wire::IpEndpoint`
/// has it: the address with its bytes in network order, and the port.
#[verifier::external_body]
pub(crate) fn to_wire(e: Endpoint) -> (r: wire::IpEndpoint)
    ensures
        endpoint_contents(r) == e,
{
    let addr = match e.addr {
        IpAddress::Ipv4(a) => wire::IpAddress::Ipv4(wire::Ipv4Address(a.to_be_bytes())),
        IpAddress::Ipv6(a) => wire::IpAddress::Ipv6(wire::Ipv6Address(a.to_be_bytes())),
    };
    wire::IpEndpoint { addr, port: e.port }
}

/// The endpoint for an endpoint of the engine, the other way round.
#[verifier::external_body]
pub(crate) fn from_wire(e: wire::IpEndpoint) -> (r: Endpoint)
    ensures
        r == endpoint_contents(e),
{
    let addr = match e.addr {
        wire::IpAddress::Ipv4(a) => IpAddress::Ipv4(u32::from_be_bytes(a.0)),
        wire::IpAddress::Ipv6(a) => IpAddress::Ipv6(u128::from_be_bytes(a.0)),
    };
    Endpoint { addr, port: e.port }
}

/// The endpoint to listen on of the engine, as `smoltcp::wire::IpListenEndpoint`
/// has it.
#[verifier::external_body]
pub(crate) fn listen_to_wire(e: ListenEndpoint) -> (r: wire::IpListenEndpoint)
    ensures
        listen_contents(r) == e,
{
    let addr = e.addr.map(|a| match a {
        IpAddress::Ipv4(a) => wire::IpAddress::Ipv4(wire::Ipv4Address(a.to_be_bytes())),
        IpAddress::Ipv6(a) => wire::IpAddress::Ipv6(wire::Ipv6Address(a.to_be_bytes())),
    });
    wire::IpListenEndpoint { addr, port: e.port }
}

/// The endpoint to listen on for one of the engine, the other way round.
#[verifier::external_body]
pub(crate) fn listen_from_wire(e: wire::IpListenEndpoint) -> (r: ListenEndpoint)
    ensures
        r == listen_contents(e),
{
    let addr = e.addr.map(|a| match a {
        wire::IpAddress::Ipv4(a) => IpAddress::Ipv4(u32::from_be_bytes(a.0)),
        wire::IpAddress::Ipv6(a) => IpAddress::Ipv6(u128::from_be_bytes(a.0)),
    });
    ListenEndpoint { addr, port: e.port }
}

/// `smoltcp::socket::tcp::Socket::state`.
#[verifier::external_body]
pub(crate) fn tcp_state(set: &SocketSet<'static>, h: SocketHandle) -> (r: TcpState)
    requires
        is_tcp(sockets(*set), h),
    ensures
        r == tcp_of(sockets(*set), h).state,
{
    match set.get::<TcpEngine>(h).state() {
        tcp::State::Closed => TcpState::Closed,
        tcp::State::Listen => TcpState::Listen,
        tcp::State::SynSent => TcpState::SynSent,
        tcp::State::SynReceived => TcpState::SynReceived,
        tcp::State::Established => TcpState::Established,
        tcp::State::FinWait1 => TcpState::FinWait1,
        tcp::State::FinWait2 => TcpState::FinWait2,
        tcp::State::CloseWait => TcpState::CloseWait,
        tcp::State::Closing => TcpState::Closing,
        tcp::State::LastAck => TcpState::LastAck,
        tcp::State::TimeWait => TcpState::TimeWait,
    }
}

/// `smoltcp::socket::tcp::Socket::local_endpoint`: that of the connection.
#[verifier::external_body]
pub(crate) fn tcp_local(set: &SocketSet<'static>, h: SocketHandle) -> (r: Option<wire::IpEndpoint>)
    requires
        is_tcp(sockets(*set), h),
    ensures
        match tcp_of(sockets(*set), h).tuple {
            Some((local, _)) => r is Some && endpoint_contents(r->0) == local,
            None => r is None,
        },
{
    set.get::<TcpEngine>(h).local_endpoint()
}

/// `smoltcp::socket::tcp::Socket::remote_endpoint`: that of the connection.
#[verifier::external_body]
pub(crate) fn tcp_remote(set: &SocketSet<'static>, h: SocketHandle) -> (r: Option<wire::IpEndpoint>)
    requires
        is_tcp(sockets(*set), h),
    ensures
        match tcp_of(sockets(*set), h).tuple {
            Some((_, remote)) => r is Some && endpoint_contents(r->0) == remote,
            None => r is None,
        },
{
    set.get::<TcpEngine>(h).remote_endpoint()
}

/// `smoltcp::socket::tcp::Socket::is_active`: false in the states closed,
/// listening and time-wait only.
#[verifier::external_body]
pub(crate) fn tcp_is_active(set: &SocketSet<'static>, h: SocketHandle) -> (r: bool)
    requires
        is_tcp(sockets(*set), h),
    ensures
        r == tcp_active(tcp_of(sockets(*set), h)),
{
    set.get::<TcpEngine>(h).is_active()
}

/// `smoltcp::socket::tcp::Socket::may_send`: true in the states established and
/// close-wait only.
#[verifier::external_body]
pub(crate) fn may_send(set: &SocketSet<'static>, h: SocketHandle) -> (r: bool)
    requires
        is_tcp(sockets(*set), h),
    ensures
        r == tcp_may_send(tcp_of(sockets(*set), h)),
{
    set.get::<TcpEngine>(h).may_send()
}

/// `smoltcp::socket::tcp::Socket::may_recv`: true in the states established and
/// fin-wait, and wherever received bytes are left.
#[verifier::external_body]
pub(crate) fn may_recv(set: &SocketSet<'static>, h: SocketHandle) -> (r: bool)
    requires
        is_tcp(sockets(*set), h),
    ensures
        r == tcp_may_recv(tcp_of(sockets(*set), h)),
{
    set.get::<TcpEngine>(h).may_recv()
}

/// `smoltcp::socket::tcp::Socket::can_send`: the sending half is open and its
/// buffer not full.
#[verifier::external_body]
pub(crate) fn can_send(set: &SocketSet<'static>, h: SocketHandle) -> (r: bool)
    requires
        is_tcp(sockets(*set), h),
    ensures
        r == tcp_can_send(tcp_of(sockets(*set), h)),
{
    set.get::<TcpEngine>(h).can_send()
}

/// `smoltcp::socket::tcp::Socket::recv_queue`: the number of received bytes that
/// are left.
#[verifier::external_body]
pub(crate) fn recv_queue(set: &SocketSet<'static>, h: SocketHandle) -> (r: usize)
    requires
        is_tcp(sockets(*set), h),
    ensures
        r == tcp_of(sockets(*set), h).rx.len(),
{
    set.get::<TcpEngine>(h).recv_queue()
}

/// Why bytes could not be received.
#[derive(Debug, Clone, Copy, PartialEq, Eq, Structural)]
pub enum TcpRecvError {
    Finished,
    InvalidState,
}

/// `smoltcp::socket::tcp::Socket::recv_slice` into a buffer of `max` bytes: the
/// first received bytes, which leave the socket. Without an open receiving half
/// and without bytes it fails, and tells apart whether the peer had closed.
#[verifier::external_body]
pub(crate) fn recv_slice(set: &mut SocketSet<'static>, h: SocketHandle, max: usize) -> (r: Result<
    Vec<u8>,
    TcpRecvError,
>)
    requires
        is_tcp(sockets(*old(set)), h),
    ensures
        owns_storage(*final(set)) == owns_storage(*old(set)),
        ({
            let v = tcp_of(sockets(*old(set)), h);
            let n = smaller(v.rx.len() as int, max as int);
            match r {
                Ok(b) => {
                    &&& tcp_may_recv(v)
                    &&& b@ == v.rx.take(n)
                    &&& sockets(*final(set)) == sockets(*old(set)).insert(
                        h,
                        SocketView::Tcp(TcpView { rx: v.rx.skip(n), ..v }),
                    )
                },
                Err(e) => {
                    &&& !tcp_may_recv(v)
                    &&& e == if v.fin {
                        TcpRecvError::Finished
                    } else {
                        TcpRecvError::InvalidState
                    }
                    &&& sockets(*final(set)) == sockets(*old(set))
                },
            }
        }),
{
    let mut buf = vec![0; max];
    match set.get_mut::<TcpEngine>(h).recv_slice(&mut buf) {
        Ok(n) => {
            buf.truncate(n);
            Ok(buf)
        },
        Err(tcp::RecvError::Finished) => Err(TcpRecvError::Finished),
        Err(tcp::RecvError::InvalidState) => Err(TcpRecvError::InvalidState),
    }
}

/// `smoltcp::socket::tcp::Socket::peek_slice` into a buffer of `max` bytes: the
/// first received bytes, which stay in the socket. It never fails.
#[verifier::external_body]
pub(crate) fn peek_slice(set: &mut SocketSet<'static>, h: SocketHandle, max: usize) -> (r: Vec<u8>)
    requires
        is_tcp(sockets(*old(set)), h),
    ensures
        owns_storage(*final(set)) == owns_storage(*old(set)),
        r@ == tcp_of(sockets(*old(set)), h).rx.take(
            smaller(tcp_of(sockets(*old(set)), h).rx.len() as int, max as int),
        ),
        sockets(*final(set)) == sockets(*old(set)),
{
    let mut buf = vec![0; max];
    let n = set.get_mut::<TcpEngine>(h).peek_slice(&mut buf).unwrap_or(0);
    buf.truncate(n);
    buf
}

/// `smoltcp::socket::tcp::Socket::send_slice`: as many bytes as the buffer has
/// room for are queued, and their number is returned. It fails if the sending
/// half is closed.
#[verifier::external_body]
pub(crate) fn send_slice(set: &mut SocketSet<'static>, h: SocketHandle, data: &[u8]) -> (r: Option<usize>)
    requires
        is_tcp(sockets(*old(set)), h),
    ensures
        owns_storage(*final(set)) == owns_storage(*old(set)),
        ({
            let v = tcp_of(sockets(*old(set)), h);
            let n = smaller(v.tx_cap - v.tx.len(), data@.len() as int);
            match r {
                Some(k) => {
                    &&& tcp_may_send(v)
                    &&& k == n
                    &&& sockets(*final(set)) == sockets(*old(set)).insert(
                        h,
                        SocketView::Tcp(TcpView { tx: v.tx + data@.take(n), ..v }),
                    )
                },
                None => !tcp_may_send(v) && sockets(*final(set)) == sockets(*old(set)),
            }
        }),
{
    set.get_mut::<TcpEngine>(h).send_slice(data).ok()
}

/// `smoltcp::socket::tcp::Socket::close`: the sending half is closed.
#[verifier::external_body]
pub(crate) fn close_tcp(set: &mut SocketSet<'static>, h: SocketHandle)
    requires
        is_tcp(sockets(*old(set)), h),
    ensures
        owns_storage(*final(set)) == owns_storage(*old(set)),
        sockets(*final(set)) == sockets(*old(set)).insert(
            h,
            SocketView::Tcp(tcp_closed(tcp_of(sockets(*old(set)), h))),
        ),
{
    set.get_mut::<TcpEngine>(h).close()
}

/// `smoltcp::socket::tcp::Socket::listen`: a socket that is not open starts
/// anew and listens; one that listens there already stays as it is. Port zero
/// and any other open socket are refused.
#[verifier::external_body]
pub(crate) fn listen_tcp(set: &mut SocketSet<'static>, h: SocketHandle, e: wire::IpListenEndpoint) -> (r:
    bool)
    requires
        is_tcp(sockets(*old(set)), h),
    ensures
        owns_storage(*final(set)) == owns_storage(*old(set)),
        match tcp_listening(tcp_of(sockets(*old(set)), h), listen_contents(e)) {
            Some(v) => r && sockets(*final(set)) == sockets(*old(set)).insert(
                h,
                SocketView::Tcp(v),
            ),
            None => !r && sockets(*final(set)) == sockets(*old(set)),
        },
{
    set.get_mut::<TcpEngine>(h).listen(e).is_ok()
}

/// `smoltcp::socket::tcp::Socket::connect` with a local address: a socket that
/// is not open starts anew and sends its request. An open socket, a port zero,
/// an unspecified address on either side and addresses of different versions
/// are refused. Of an address of version four the engine takes only the first
/// byte into account here.
#[verifier::external_body]
pub(crate) fn connect_tcp(
    set: &mut SocketSet<'static>,
    h: SocketHandle,
    iface: &mut Interface,
    remote: wire::IpEndpoint,
    local: wire::IpListenEndpoint,
) -> (r: bool)
    requires
        is_tcp(sockets(*old(set)), h),
        listen_contents(local).addr is Some,
    ensures
        owns_storage(*final(set)) == owns_storage(*old(set)),
        ({
            let from = Endpoint {
                addr: listen_contents(local).addr->0,
                port: listen_contents(local).port,
            };
            match tcp_connecting(tcp_of(sockets(*old(set)), h), from, endpoint_contents(remote)) {
                Some(v) => r && sockets(*final(set)) == sockets(*old(set)).insert(
                    h,
                    SocketView::Tcp(v),
                ),
                None => !r && sockets(*final(set)) == sockets(*old(set)),
            }
        }),
{
    set.get_mut::<TcpEngine>(h).connect(iface.context(), remote, local).is_ok()
}

/// `smoltcp::socket::tcp::Socket::nagle_enabled`.
#[verifier::external_body]
pub(crate) fn nagle(set: &SocketSet<'static>, h: SocketHandle) -> (r: bool)
    requires
        is_tcp(sockets(*set), h),
    ensures
        r == tcp_of(sockets(*set), h).nagle,
{
    set.get::<TcpEngine>(h).nagle_enabled()
}

/// `smoltcp::socket::tcp::Socket::set_nagle_enabled`.
#[verifier::external_body]
pub(crate) fn set_nagle(set: &mut SocketSet<'static>, h: SocketHandle, on: bool)
    requires
        is_tcp(sockets(*old(set)), h),
    ensures
        owns_storage(*final(set)) == owns_storage(*old(set)),
        sockets(*final(set)) == sockets(*old(set)).insert(
            h,
            SocketView::Tcp(TcpView { nagle: on, ..tcp_of(sockets(*old(set)), h) }),
        ),
{
    set.get_mut::<TcpEngine>(h).set_nagle_enabled(on)
}

/// `smoltcp::socket::tcp::Socket::set_hop_limit`: zero is refused by a panic.
#[verifier::external_body]
pub(crate) fn set_tcp_hop_limit(set: &mut SocketSet<'static>, h: SocketHandle, limit: u8)
    requires
        is_tcp(sockets(*old(set)), h),
        limit != 0,
    ensures
        owns_storage(*final(set)) == owns_storage(*old(set)),
        sockets(*final(set)) == sockets(*old(set)).insert(
            h,
            SocketView::Tcp(TcpView { hop_limit: Some(limit), ..tcp_of(sockets(*old(set)), h) }),
        ),
{
    set.get_mut::<TcpEngine>(h).set_hop_limit(Some(limit))
}

/// `smoltcp::socket::udp::Socket::endpoint`: what the socket is bound to.
#[verifier::external_body]
pub(crate) fn udp_endpoint(set: &SocketSet<'static>, h: SocketHandle) -> (r: wire::IpListenEndpoint)
    requires
        is_udp(sockets(*set), h),
    ensures
        listen_contents(r) == udp_of(sockets(*set), h).endpoint,
{
    set.get::<UdpEngine>(h).endpoint()
}

/// `smoltcp::socket::udp::Socket::bind`: refused with port zero and on a socket
/// that is bound already.
#[verifier::external_body]
pub(crate) fn bind_udp(set: &mut SocketSet<'static>, h: SocketHandle, e: wire::IpListenEndpoint) -> (r:
    bool)
    requires
        is_udp(sockets(*old(set)), h),
    ensures
        owns_storage(*final(set)) == owns_storage(*old(set)),
        r == (listen_contents(e).port != 0 && udp_of(sockets(*old(set)), h).endpoint.port == 0),
        sockets(*final(set)) == (if r {
            sockets(*old(set)).insert(
                h,
                SocketView::Udp(
                    UdpView { endpoint: listen_contents(e), ..udp_of(sockets(*old(set)), h) },
                ),
            )
        } else {
            sockets(*old(set))
        }),
{
    set.get_mut::<UdpEngine>(h).bind(e).is_ok()
}

/// `smoltcp::socket::udp::Socket::close`: the socket is unbound and loses all
/// datagrams. Its buffers keep their sizes, and its hop limit stays.
#[verifier::external_body]
pub(crate) fn close_udp(set: &mut SocketSet<'static>, h: SocketHandle)
    requires
        is_udp(sockets(*old(set)), h),
    ensures
        owns_storage(*final(set)) == owns_storage(*old(set)),
        sockets(*final(set)) == sockets(*old(set)).insert(
            h,
            SocketView::Udp(
                UdpView {
                    hop_limit: udp_of(sockets(*old(set)), h).hop_limit,
                    ..fresh_udp(
                        udp_of(sockets(*old(set)), h).tx_cap,
                        udp_of(sockets(*old(set)), h).tx_slots,
                    )
                },
            ),
        ),
{
    set.get_mut::<UdpEngine>(h).close()
}

/// `smoltcp::socket::udp::Socket::can_send`: one more datagram can be queued.
#[verifier::external_body]
pub(crate) fn udp_can_send(set: &SocketSet<'static>, h: SocketHandle) -> (r: bool)
    requires
        is_udp(sockets(*set), h),
    ensures
        r == !udp_of(sockets(*set), h).tx_full,
{
    set.get::<UdpEngine>(h).can_send()
}

/// `smoltcp::socket::udp::Socket::can_recv`: true wherever a datagram is there.
/// It can also be true where only padding of the buffer is left.
#[verifier::external_body]
pub(crate) fn udp_can_recv(set: &SocketSet<'static>, h: SocketHandle) -> (r: bool)
    requires
        is_udp(sockets(*set), h),
    ensures
        r == udp_of(sockets(*set), h).rx_waiting,
        udp_of(sockets(*set), h).rx.len() > 0 ==> r,
{
    set.get::<UdpEngine>(h).can_recv()
}

/// Why a datagram could not be queued.
#[derive(Debug, Clone, Copy, PartialEq, Eq, Structural)]
pub enum UdpSendError {
    Unaddressable,
    BufferFull,
}

/// A datagram cannot be sent from or to here.
pub open spec fn udp_unaddressable(v: UdpView, peer: Endpoint) -> bool {
    v.endpoint.port == 0 || unreachable_ip(peer.addr) || peer.port == 0
}

/// The socket is the same but for what is queued to be sent.
pub open spec fn only_tx_differs(a: UdpView, b: UdpView) -> bool {
    b == (UdpView { tx: b.tx, tx_full: b.tx_full, tx_used: b.tx_used, ..a })
}

/// The socket is the same but for what is there to be received.
pub open spec fn only_rx_differs(a: UdpView, b: UdpView) -> bool {
    b == (UdpView { rx: b.rx, rx_waiting: b.rx_waiting, ..a })
}

/// `smoltcp::socket::udp::Socket::send_slice`: the datagram is queued behind the
/// others. It fails if the socket is not bound or the peer is unspecified, and
/// if there is no room. A datagram larger than the buffer never has room, one
/// that fits into an untouched buffer always has; in between that depends on how
/// the buffer is cut up, which is left open.
#[verifier::external_body]
pub(crate) fn send_datagram(
    set: &mut SocketSet<'static>,
    h: SocketHandle,
    data: &[u8],
    peer: wire::IpEndpoint,
) -> (r: Result<(), UdpSendError>)
    requires
        is_udp(sockets(*old(set)), h),
    ensures
        owns_storage(*final(set)) == owns_storage(*old(set)),
        is_udp(sockets(*final(set)), h),
        sockets(*final(set)) == sockets(*old(set)).insert(h, sockets(*final(set))[h]),
        only_tx_differs(udp_of(sockets(*old(set)), h), udp_of(sockets(*final(set)), h)),
        ({
            let v = udp_of(sockets(*old(set)), h);
            let w = udp_of(sockets(*final(set)), h);
            let to = endpoint_contents(peer);
            match r {
                Ok(_) => {
                    &&& !udp_unaddressable(v, to)
                    &&& data@.len() <= v.tx_cap
                    &&& !v.tx_full
                    &&& w.tx == v.tx.push(Datagram { peer: to, payload: data@ })
                },
                Err(UdpSendError::Unaddressable) => udp_unaddressable(v, to) && w == v,
                Err(UdpSendError::BufferFull) => {
                    &&& !udp_unaddressable(v, to)
                    &&& v.tx_used > 0 || data@.len() > v.tx_cap || v.tx_full
                    &&& w.tx == v.tx
                },
            }
        }),
{
    set.get_mut::<UdpEngine>(h).send_slice(data, peer).map_err(
        |e| match e {
            udp::SendError::Unaddressable => UdpSendError::Unaddressable,
            udp::SendError::BufferFull => UdpSendError::BufferFull,
        },
    )
}

/// Why no datagram was received.
#[derive(Debug, Clone, Copy, PartialEq, Eq, Structural)]
pub enum UdpRecvError {
    Exhausted,
    Truncated,
}

/// `smoltcp::socket::udp::Socket::recv_slice` into a buffer of `max` bytes: the
/// first datagram leaves the socket. If it is larger than the buffer it is lost.
#[verifier::external_body]
pub(crate) fn recv_datagram(set: &mut SocketSet<'static>, h: SocketHandle, max: usize) -> (r: Result<
    (Vec<u8>, wire::IpEndpoint),
    UdpRecvError,
>)
    requires
        is_udp(sockets(*old(set)), h),
    ensures
        owns_storage(*final(set)) == owns_storage(*old(set)),
        is_udp(sockets(*final(set)), h),
        sockets(*final(set)) == sockets(*old(set)).insert(h, sockets(*final(set))[h]),
        only_rx_differs(udp_of(sockets(*old(set)), h), udp_of(sockets(*final(set)), h)),
        ({
            let v = udp_of(sockets(*old(set)), h);
            let w = udp_of(sockets(*final(set)), h);
            if v.rx.len() == 0 {
                &&& r is Err
                &&& r->Err_0 == UdpRecvError::Exhausted
                &&& w.rx == v.rx
            } else if max < v.rx[0].payload.len() {
                &&& r is Err
                &&& r->Err_0 == UdpRecvError::Truncated
                &&& w.rx == v.rx.drop_first()
            } else {
                &&& r is Ok
                &&& r->Ok_0.0@ == v.rx[0].payload
                &&& endpoint_contents(r->Ok_0.1) == v.rx[0].peer
                &&& w.rx == v.rx.drop_first()
            }
        }),
{
    let mut buf = vec![0; max];
    match set.get_mut::<UdpEngine>(h).recv_slice(&mut buf) {
        Ok((n, meta)) => {
            buf.truncate(n);
            Ok((buf, meta.endpoint))
        },
        Err(udp::RecvError::Exhausted) => Err(UdpRecvError::Exhausted),
        Err(udp::RecvError::Truncated) => Err(UdpRecvError::Truncated),
    }
}

/// `smoltcp::socket::udp::Socket::peek`: the first datagram and where it comes
/// from; it stays in the socket.
#[verifier::external_body]
pub(crate) fn peek_datagram(set: &mut SocketSet<'static>, h: SocketHandle) -> (r: Option<
    (Vec<u8>, wire::IpEndpoint),
>)
    requires
        is_udp(sockets(*old(set)), h),
    ensures
        owns_storage(*final(set)) == owns_storage(*old(set)),
        is_udp(sockets(*final(set)), h),
        sockets(*final(set)) == sockets(*old(set)).insert(h, sockets(*final(set))[h]),
        only_rx_differs(udp_of(sockets(*old(set)), h), udp_of(sockets(*final(set)), h)),
        udp_of(sockets(*final(set)), h).rx == udp_of(sockets(*old(set)), h).rx,
        match r {
            Some((data, e)) => {
                &&& udp_of(sockets(*old(set)), h).rx.len() > 0
                &&& data@ == udp_of(sockets(*old(set)), h).rx[0].payload
                &&& endpoint_contents(e) == udp_of(sockets(*old(set)), h).rx[0].peer
            },
            None => udp_of(sockets(*old(set)), h).rx.len() == 0,
        },
{
    set.get_mut::<UdpEngine>(h).peek().ok().map(|(data, meta)| (data.to_vec(), meta.endpoint))
}

/// `smoltcp::socket::udp::Socket::set_hop_limit`: zero is refused by a panic.
#[verifier::external_body]
pub(crate) fn set_udp_hop_limit(set: &mut SocketSet<'static>, h: SocketHandle, limit: u8)
    requires
        is_udp(sockets(*old(set)), h),
        limit != 0,
    ensures
        owns_storage(*final(set)) == owns_storage(*old(set)),
        sockets(*final(set)) == sockets(*old(set)).insert(
            h,
            SocketView::Udp(UdpView { hop_limit: Some(limit), ..udp_of(sockets(*old(set)), h) }),
        ),
{
    set.get_mut::<UdpEngine>(h).set_hop_limit(Some(limit))
}

} // verus!
