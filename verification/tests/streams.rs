use respos::errno::Errno;
use respos::net::addr::{Endpoint, IpAddress, ListenEndpoint, SocketAddr};
use respos::net::http::{HttpServer, StatusInfo};
use respos::net::listen::{ListenTable, SocketSetWrapper};
use respos::net::loopback::{LoopbackDev, Medium as LinkMedium};
use respos::net::smol::TcpState;
use respos::net::stack::NetStack;
use respos::net::tcp::{ConnState, TcpSocket};
use respos::net::{format_tcp_rows, poll_interfaces, proc_net_tcp, tcp_rows, TcpWaiters};
use smoltcp::iface::{Config, Interface};
use smoltcp::phy::{Device, DeviceCapabilities, Medium, RxToken, TxToken};
use smoltcp::time::Instant;
use smoltcp::wire::{HardwareAddress, IpCidr};

struct Dev {
    dev: LoopbackDev,
}

struct Rx {
    frame: Vec<u8>,
}

struct Tx<'a> {
    dev: &'a mut LoopbackDev,
}

impl RxToken for Rx {
    fn consume<R, F>(mut self, f: F) -> R
    where
        F: FnOnce(&mut [u8]) -> R,
    {
        f(&mut self.frame)
    }
}

impl<'a> TxToken for Tx<'a> {
    fn consume<R, F>(self, len: usize, f: F) -> R
    where
        F: FnOnce(&mut [u8]) -> R,
    {
        let mut frame = self.dev.take_buf(len);
        let r = f(&mut frame);
        self.dev.transmit(frame);
        r
    }
}

impl Device for Dev {
    type RxToken<'a> = Rx;
    type TxToken<'a> = Tx<'a>;

    fn capabilities(&self) -> DeviceCapabilities {
        let mut cap = DeviceCapabilities::default();
        cap.max_transmission_unit = 65535;
        cap.medium = Medium::Ip;
        cap
    }

    fn receive(&mut self, _timestamp: Instant) -> Option<(Rx, Tx<'_>)> {
        let frame = self.dev.receive()?;
        Some((Rx { frame }, Tx { dev: &mut self.dev }))
    }

    fn transmit(&mut self, _timestamp: Instant) -> Option<Tx<'_>> {
        Some(Tx { dev: &mut self.dev })
    }
}

struct World {
    net: NetStack,
    iface: Interface,
    dev: Dev,
    now: i64,
}

fn world() -> World {
    let mut dev = Dev { dev: LoopbackDev::new(LinkMedium::Ip) };
    let mut iface = Interface::new(Config::new(HardwareAddress::Ip), &mut dev, Instant::from_micros(0));
    iface.update_ip_addrs(|addrs| {
        addrs
            .push(IpCidr::new(smoltcp::wire::IpAddress::v4(127, 0, 0, 1), 8))
            .unwrap();
    });
    World { net: NetStack::new(), iface, dev, now: 0 }
}

impl World {
    fn run(&mut self) {
        for _ in 0..20 {
            self.now += 1_000;
            self.iface
                .poll(Instant::from_micros(self.now), &mut self.dev, &mut self.net.socks.set);
            let woken = poll_interfaces(&mut self.net, &TcpWaiters::new());
            assert!(woken.is_empty());
        }
    }

    fn pair(&mut self, port: u16) -> (TcpSocket, TcpSocket, TcpSocket) {
        let mut server = TcpSocket::new();
        server.bind(&mut self.net, local(port)).unwrap();
        server.listen(&mut self.net, 4).unwrap();
        let mut client = TcpSocket::new();
        assert_eq!(client.connect(&mut self.net, &mut self.iface, local(port)), Ok(()));
        self.run();
        assert_eq!(client.connect_ready(&self.net), Ok(()));
        let conn = server.accept(&mut self.net).unwrap();
        (server, client, conn)
    }
}

const LOCALHOST: u32 = 0x7f00_0001;

fn local(port: u16) -> SocketAddr {
    SocketAddr::V4 { ip: LOCALHOST, port }
}

fn at(port: u16) -> Endpoint {
    Endpoint { addr: IpAddress::Ipv4(LOCALHOST), port }
}

#[test]
fn stream_carries_bytes_both_ways() {
    let mut w = world();
    let (_server, client, conn) = w.pair(8080);
    assert!(client.is_connected());
    assert!(conn.is_connected());
    assert_eq!(conn.local_addr(), Ok(at(8080)));
    assert_eq!(client.remote_addr(), Ok(at(8080)));
    assert_eq!(conn.remote_addr().unwrap(), client.local_addr().unwrap());
    assert_eq!(client.send(&mut w.net, b"hello world"), Ok(11));
    assert_eq!(conn.recv_once(&mut w.net, 64, false, 0), Err(Errno::EAGAIN));
    w.run();
    assert_eq!(conn.recv_once(&mut w.net, 5, true, 0), Ok(b"hello".to_vec()));
    assert_eq!(conn.recv_once(&mut w.net, 5, false, 0), Ok(b"hello".to_vec()));
    assert_eq!(conn.recv_once(&mut w.net, 64, false, 0), Ok(b" world".to_vec()));
    assert_eq!(conn.send(&mut w.net, b"back"), Ok(4));
    w.run();
    assert_eq!(client.recv_once(&mut w.net, 64, false, 0), Ok(b"back".to_vec()));
}

#[test]
fn shutdown_ends_the_stream() {
    let mut w = world();
    let (_server, mut client, mut conn) = w.pair(8081);
    assert_eq!(client.shutdown(&mut w.net, 3), Err(Errno::EINVAL));
    assert_eq!(client.send(&mut w.net, b"last"), Ok(4));
    assert_eq!(client.shutdown(&mut w.net, 1), Ok(()));
    assert_eq!(client.send_check(), Err(Errno::EPIPE));
    w.run();
    assert_eq!(conn.recv_once(&mut w.net, 64, false, 0), Ok(b"last".to_vec()));
    assert_eq!(conn.recv_once(&mut w.net, 64, false, 0), Ok(Vec::new()));
    let state = conn.poll(&mut w.net);
    assert!(state.readable);
    assert_eq!(conn.shutdown(&mut w.net, 0), Ok(()));
    assert_eq!(conn.recv_check(8), Some(Ok(0)));
}

#[test]
fn polling_tells_what_can_be_done() {
    let mut w = world();
    let (mut server, mut client, mut conn) = w.pair(8082);
    assert!(!server.poll(&mut w.net).readable);
    let idle = conn.poll(&mut w.net);
    assert!(!idle.readable);
    assert!(idle.writeable);
    client.send(&mut w.net, b"x").unwrap();
    w.run();
    assert!(conn.poll(&mut w.net).readable);
    assert!(client.poll(&mut w.net).writeable);
}

#[test]
fn listening_port_is_replenished() {
    let mut w = world();
    let mut server = TcpSocket::new();
    server.bind(&mut w.net, local(8083)).unwrap();
    server.listen(&mut w.net, 8).unwrap();
    assert!(server.is_listening());
    let mut clients = Vec::new();
    for _ in 0..3 {
        let mut c = TcpSocket::new();
        assert_eq!(c.connect(&mut w.net, &mut w.iface, local(8083)), Ok(()));
        w.run();
        assert_eq!(c.connect_ready(&w.net), Ok(()));
        clients.push(c);
    }
    assert!(server.poll(&mut w.net).readable);
    for c in &clients {
        let conn = server.accept(&mut w.net).unwrap();
        assert_eq!(conn.remote_addr().unwrap(), c.local_addr().unwrap());
    }
    assert_eq!(server.accept(&mut w.net).err(), Some(Errno::EAGAIN));
}

#[test]
fn connection_to_a_closed_port_is_refused() {
    let mut w = world();
    let mut c = TcpSocket::new();
    assert_eq!(c.connect(&mut w.net, &mut w.iface, local(9)), Ok(()));
    w.run();
    assert_eq!(c.connect_ready(&w.net), Err(Errno::ECONNREFUSED));
    assert!(c.has_pending_error(&w.net));
    assert_eq!(c.take_error(&w.net), 111);
    assert_eq!(c.take_error(&w.net), 0);
}

#[test]
fn connect_without_waiting() {
    let mut w = world();
    let mut server = TcpSocket::new();
    server.bind(&mut w.net, local(8084)).unwrap();
    server.listen(&mut w.net, 1).unwrap();
    let mut c = TcpSocket::new();
    c.set_nonblocking(true);
    assert!(c.is_nonblocking());
    assert_eq!(c.connect(&mut w.net, &mut w.iface, local(8084)), Err(Errno::EINPROGRESS));
    assert_eq!(c.connect(&mut w.net, &mut w.iface, local(8084)), Err(Errno::EALREADY));
    w.run();
    assert_eq!(c.connect_ready(&w.net), Ok(()));
    assert_eq!(c.connect(&mut w.net, &mut w.iface, local(8084)), Err(Errno::EISCONN));
}

#[test]
fn outcome_of_a_wait_for_a_connection() {
    let mut c = TcpSocket::new();
    assert_eq!(c.connect_finish(Err(Errno::EAGAIN), Some(5)), Err(Errno::EINPROGRESS));
    assert_eq!(c.connect_finish(Err(Errno::EINTR), Some(5)), Err(Errno::EINTR));
    assert_eq!(c.connect_finish(Ok(()), None), Ok(()));
}

#[test]
fn bind_errors() {
    let mut w = world();
    let (_server, client, _conn) = w.pair(8085);
    let mut other = TcpSocket::new();
    let taken = client.local_addr().unwrap().port;
    assert_eq!(other.bind(&mut w.net, local(taken)), Err(Errno::EADDRINUSE));
    assert_eq!(other.bind(&mut w.net, local(4000)), Ok(()));
    assert_eq!(other.bind(&mut w.net, local(4001)), Err(Errno::EINVAL));
    let mut third = client;
    assert_eq!(third.bind(&mut w.net, local(4001)), Err(Errno::EISCONN));
    assert_eq!(third.listen(&mut w.net, 4), Err(Errno::EISCONN));
}

#[test]
fn listen_on_a_port_that_is_open() {
    let mut w = world();
    let (_server, _client, _conn) = w.pair(8086);
    let mut other = TcpSocket::new();
    other.set_reuse_addr(true);
    assert!(other.is_reuse_addr());
    assert_eq!(other.bind(&mut w.net, local(8086)), Ok(()));
    assert_eq!(other.listen(&mut w.net, 4), Err(Errno::EADDRINUSE));
}

#[test]
fn operations_of_an_unconnected_stream() {
    let mut w = world();
    let mut s = TcpSocket::new();
    assert!(s.is_closed());
    assert_eq!(s.send_check(), Err(Errno::ENOTCONN));
    assert_eq!(s.recv_check(1), Some(Err(Errno::ENOTCONN)));
    assert_eq!(s.shutdown(&mut w.net, 2), Err(Errno::ENOTCONN));
    assert_eq!(s.accept(&mut w.net).err(), Some(Errno::EINVAL));
    assert_eq!(s.state, ConnState::Closed);
}

#[test]
fn nagle_and_hops() {
    let mut w = world();
    let (_server, mut client, _conn) = w.pair(8087);
    assert!(client.nagle_enabled(&w.net));
    client.set_nagle_enabled(&mut w.net, false);
    assert!(!client.nagle_enabled(&w.net));
    assert_eq!(client.set_hop_limit(&mut w.net, 3), Ok(()));
    assert_eq!(client.get_tcp_keepidle(), 0);
}

#[test]
fn closing_frees_the_port() {
    let mut w = world();
    let (mut server, mut client, mut conn) = w.pair(8088);
    assert!(!w.net.table.can_listen(8088));
    client.close(&mut w.net);
    assert!(client.is_connected());
    client.close_all(&mut w.net);
    conn.close_all(&mut w.net);
    assert!(client.is_closed());
    assert!(!w.net.table.can_listen(8088));
    server.close_all(&mut w.net);
    assert!(w.net.table.can_listen(8088));
    let before = w.net.socks.set.iter().count();
    client.release(&mut w.net);
    conn.release(&mut w.net);
    server.release(&mut w.net);
    assert!(w.net.socks.set.iter().count() < before);
}

#[test]
fn chosen_ports_go_round() {
    let mut net = NetStack::new();
    assert!(net.has_free_port());
    assert_eq!(net.get_ephemeral_port(), Some(0xc000));
    assert_eq!(net.get_ephemeral_port(), Some(0xc001));
    net.next_tcp_port = 0xffff;
    assert_eq!(net.get_ephemeral_port(), Some(0xffff));
    assert_eq!(net.get_ephemeral_port(), Some(0xc000));
    assert!(net.has_free_udp_port());
    assert_eq!(net.get_ephemeral_udp_port(), Some(0xc000));
    assert_eq!(net.next_udp_port, 0xc001);
}

#[test]
fn chosen_ports_skip_open_ones() {
    let mut net = NetStack::new();
    let mut s = TcpSocket::new();
    s.bind(&mut net, local(0xc000)).unwrap();
    s.listen(&mut net, 1).unwrap();
    assert_eq!(net.get_ephemeral_port(), Some(0xc001));
}

#[test]
fn connection_listing() {
    let mut w = world();
    let (_server, client, _conn) = w.pair(8089);
    let rows = tcp_rows(&w.net);
    assert_eq!(rows[0].local.port, 8089);
    assert_eq!(rows[0].state, TcpState::Listen);
    let me = client.local_addr().unwrap();
    assert!(rows
        .iter()
        .any(|r| r.local == me && r.remote == at(8089) && r.state == TcpState::Established));
    let text = proc_net_tcp(&w.net);
    assert_eq!(text, format_tcp_rows(&rows));
    let head = "  sl  local_address rem_address   st tx_queue rx_queue tr tm->when retrnsmt   uid  timeout inode\n";
    assert!(text.starts_with(head));
}

#[test]
fn listing_row_has_fixed_columns() {
    let row = respos::net::listen::TcpProcEntry {
        local: at(80),
        remote: Endpoint { addr: IpAddress::Ipv4(0), port: 0 },
        state: TcpState::Listen,
    };
    let text = format_tcp_rows(&vec![row]);
    let line = text.lines().nth(1).unwrap();
    assert_eq!(
        line,
        "   0: 0100007F:0050 00000000:0000 0A 00000000:00000000 00:00000000 00000000     0        0 1"
    );
}

#[test]
fn listen_table_by_hand() {
    let mut socks = SocketSetWrapper::new();
    let mut table = ListenTable::new();
    let h = socks.add_tcp();
    let e = ListenEndpoint { addr: None, port: 77 };
    assert!(table.can_listen(77));
    assert_eq!(table.listen(&mut socks, e, h, 2), Ok(()));
    assert!(!table.can_listen(77));
    let other = socks.add_tcp();
    assert_eq!(table.listen(&mut socks, e, other, 2), Err(Errno::EADDRINUSE));
    assert!(!table.can_accept(&mut socks, 77));
    assert_eq!(table.accept(&mut socks, 77).err(), Some(Errno::EAGAIN));
    assert_eq!(table.accept(&mut socks, 78).err(), Some(Errno::ECONNREFUSED));
    table.unlisten(&mut socks, 77);
    assert!(table.can_listen(77));
}

#[test]
fn waiting_threads_are_listed_in_order() {
    let mut t = TcpWaiters::new();
    t.register_tcp_waiter(9);
    t.register_tcp_waiter(3);
    t.register_tcp_waiter(9);
    assert_eq!(t.wake_tcp_waiters(), vec![3, 9]);
    t.unregister_tcp_waiter(3);
    assert_eq!(t.wake_tcp_waiters(), vec![9]);
}

fn info() -> StatusInfo {
    StatusInfo {
        riscv: true,
        mac: Some([0x52, 0x54, 0, 0x12, 0x34, 0x56]),
        uptime_us: 3_661_000_000,
        idle_us: 59_000_000,
        online_harts: 2,
        max_harts: 4,
        tasks: 7,
        page_size: 4096,
        mem_total: 128 * 1024 * 1024,
        free_frames: 1000,
        cached_pages: 2,
        dirty_pages: 0,
        heap_used: 512,
    }
}

#[test]
fn server_answers_a_request() {
    let mut w = world();
    let mut server = HttpServer::new(&mut w.net).unwrap();
    assert!(HttpServer::new(&mut w.net).is_none());
    let mut c = TcpSocket::new();
    assert_eq!(c.connect(&mut w.net, &mut w.iface, local(80)), Ok(()));
    w.run();
    assert_eq!(c.connect_ready(&w.net), Ok(()));
    server.poll(&mut w.net, &info());
    assert_eq!(server.conns.len(), 1);
    c.send(&mut w.net, b"GET / HTTP/1.1\r\n").unwrap();
    w.run();
    server.poll(&mut w.net, &info());
    assert_eq!(c.recv_once(&mut w.net, 16, false, 0), Err(Errno::EAGAIN));
    c.send(&mut w.net, b"\r\n").unwrap();
    w.run();
    let mut page = Vec::new();
    for _ in 0..10 {
        server.poll(&mut w.net, &info());
        w.run();
        match c.recv_once(&mut w.net, 65536, false, 0) {
            Ok(b) => {
                if b.is_empty() {
                    break;
                }
                page.extend_from_slice(&b);
            }
            Err(e) => assert_eq!(e, Errno::EAGAIN),
        }
    }
    let expected = respos::net::http::build_http_response(&info());
    assert_eq!(page, expected);
    c.shutdown(&mut w.net, 1).unwrap();
    w.run();
    for _ in 0..3 {
        server.poll(&mut w.net, &info());
        w.now += 60_000_000;
        w.run();
    }
    server.poll(&mut w.net, &info());
    assert_eq!(server.conns.len(), 0);
}
