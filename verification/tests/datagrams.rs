use respos::errno::Errno;
use respos::net::addr::{
    from_ipendpoint_to_socketaddr, from_sockaddr_to_ipendpoint, is_unspecified, loop_back_endpoint,
    unspecified_endpoint, Endpoint, IpAddress, SocketAddr,
};
use respos::net::loopback::{LoopbackDev, Medium as LinkMedium};
use respos::net::stack::NetStack;
use respos::net::udp::{get_ephemeral_port, UdpSocket};
use smoltcp::iface::{Config, Interface};
use smoltcp::phy::{Device, DeviceCapabilities, Medium, RxToken, TxToken};
use smoltcp::time::Instant;
use smoltcp::wire::{HardwareAddress, IpCidr};

struct Dev {
    dev: LoopbackDev,
}

struct Rx {
    frame: Vec<u8>,
}

struct Tx<'a> {
    dev: &'a mut LoopbackDev,
}

impl RxToken for Rx {
    fn consume<R, F>(mut self, f: F) -> R
    where
        F: FnOnce(&mut [u8]) -> R,
    {
        f(&mut self.frame)
    }
}

impl<'a> TxToken for Tx<'a> {
    fn consume<R, F>(self, len: usize, f: F) -> R
    where
        F: FnOnce(&mut [u8]) -> R,
    {
        let mut frame = self.dev.take_buf(len);
        let r = f(&mut frame);
        self.dev.transmit(frame);
        r
    }
}

impl Device for Dev {
    type RxToken<'a> = Rx;
    type TxToken<'a> = Tx<'a>;

    fn capabilities(&self) -> DeviceCapabilities {
        let mut cap = DeviceCapabilities::default();
        cap.max_transmission_unit = 65535;
        cap.medium = Medium::Ip;
        cap
    }

    fn receive(&mut self, _timestamp: Instant) -> Option<(Rx, Tx<'_>)> {
        let frame = self.dev.receive()?;
        Some((Rx { frame }, Tx { dev: &mut self.dev }))
    }

    fn transmit(&mut self, _timestamp: Instant) -> Option<Tx<'_>> {
        Some(Tx { dev: &mut self.dev })
    }
}

struct World {
    net: NetStack,
    iface: Interface,
    dev: Dev,
    now: i64,
}

fn world() -> World {
    let mut dev = Dev { dev: LoopbackDev::new(LinkMedium::Ip) };
    let mut iface = Interface::new(Config::new(HardwareAddress::Ip), &mut dev, Instant::from_micros(0));
    iface.update_ip_addrs(|addrs| {
        addrs
            .push(IpCidr::new(smoltcp::wire::IpAddress::v4(127, 0, 0, 1), 8))
            .unwrap();
    });
    World { net: NetStack::new(), iface, dev, now: 0 }
}

impl World {
    fn run(&mut self) {
        for _ in 0..10 {
            self.now += 1_000;
            self.iface
                .poll(Instant::from_micros(self.now), &mut self.dev, &mut self.net.socks.set);
        }
    }
}

const LOCALHOST: u32 = 0x7f00_0001;

fn local(port: u16) -> SocketAddr {
    SocketAddr::V4 { ip: LOCALHOST, port }
}

#[test]
fn datagram_arrives_with_its_sender() {
    let mut w = world();
    let mut a = UdpSocket::new(&mut w.net);
    let mut b = UdpSocket::new(&mut w.net);
    assert_eq!(b.bind(&mut w.net, local(5000)), Ok(()));
    assert_eq!(a.send_to(&mut w.net, b"ping", local(5000)), Ok(4));
    assert_eq!(b.recv_from(&mut w.net, 64, false), Err(Errno::EAGAIN));
    w.run();
    assert!(b.poll(&w.net).readable);
    let from = a.local_addr().unwrap();
    assert_eq!(b.recv_from(&mut w.net, 64, true), Ok((b"ping".to_vec(), from)));
    assert_eq!(b.recv_from(&mut w.net, 2, false), Ok((b"pi".to_vec(), from)));
    assert_eq!(b.recv_from(&mut w.net, 64, false), Err(Errno::EAGAIN));
    assert!(!b.poll(&w.net).readable);
    assert!(b.poll(&w.net).writeable);
}

#[test]
fn datagrams_of_another_sender_are_not_taken() {
    let mut w = world();
    let mut a = UdpSocket::new(&mut w.net);
    let mut b = UdpSocket::new(&mut w.net);
    let mut c = UdpSocket::new(&mut w.net);
    a.bind(&mut w.net, local(5001)).unwrap();
    b.bind(&mut w.net, local(5002)).unwrap();
    c.bind(&mut w.net, local(5003)).unwrap();
    assert_eq!(b.recv(&mut w.net, 8), Err(Errno::ENOTCONN));
    assert_eq!(b.connect(&mut w.net, local(5001)), Ok(()));
    assert_eq!(b.remote_addr(), Ok(local(5001)));
    c.send_to(&mut w.net, b"no", local(5002)).unwrap();
    w.run();
    assert_eq!(b.recv(&mut w.net, 8), Err(Errno::EAGAIN));
    let mut d = UdpSocket::new(&mut w.net);
    d.bind(&mut w.net, local(5004)).unwrap();
    d.connect(&mut w.net, local(5001)).unwrap();
    a.send_to(&mut w.net, b"large one", local(5004)).unwrap();
    a.send_to(&mut w.net, b"yes", local(5004)).unwrap();
    w.run();
    assert_eq!(d.recv(&mut w.net, 4), Err(Errno::EMSGSIZE));
    assert_eq!(d.recv(&mut w.net, 4), Ok(b"yes".to_vec()));
    assert_eq!(d.send(&mut w.net, b"re"), Ok(2));
    w.run();
    assert_eq!(a.recv_from(&mut w.net, 9, false), Ok((b"re".to_vec(), local(5004))));
}

#[test]
fn errors_of_datagrams() {
    let mut w = world();
    let mut a = UdpSocket::new(&mut w.net);
    assert_eq!(a.local_addr(), Err(Errno::ENOTCONN));
    assert_eq!(a.remote_addr(), Err(Errno::ENOTCONN));
    assert_eq!(a.send(&mut w.net, b"x"), Err(Errno::EDESTADDRREQ));
    assert_eq!(a.recv_from(&mut w.net, 1, false), Err(Errno::ENOTCONN));
    assert_eq!(a.bind(&mut w.net, local(6000)), Ok(()));
    assert_eq!(a.bind(&mut w.net, local(6001)), Err(Errno::EINVAL));
    let mut b = UdpSocket::new(&mut w.net);
    assert_eq!(b.bind(&mut w.net, local(6000)), Err(Errno::EADDRINUSE));
    assert_eq!(b.send_to(&mut w.net, b"x", local(0)), Err(Errno::EADDRNOTAVAIL));
    assert_eq!(b.send_to(&mut w.net, &vec![0u8; 70_000], local(6000)), Err(Errno::EMSGSIZE));
}

#[test]
fn closed_datagram_socket() {
    let mut w = world();
    let mut a = UdpSocket::new(&mut w.net);
    a.bind(&mut w.net, local(6100)).unwrap();
    a.set_socket_ttl(&mut w.net, 7);
    a.shutdown(&mut w.net);
    assert_eq!(a.recv_from(&mut w.net, 1, false), Err(Errno::ENOTCONN));
    let before = w.net.socks.set.iter().count();
    a.release(&mut w.net);
    assert_eq!(w.net.socks.set.iter().count(), before - 1);
}

#[test]
fn port_zero_is_any_port() {
    let mut w = world();
    let mut a = UdpSocket::new(&mut w.net);
    a.bind(&mut w.net, local(0)).unwrap();
    assert_eq!(a.local_addr(), Ok(local(0xc000)));
    assert_eq!(get_ephemeral_port(&mut w.net), 0xc001);
}

#[test]
fn flags_of_a_datagram_socket() {
    let mut w = world();
    let mut a = UdpSocket::new(&mut w.net);
    assert!(a.is_block());
    a.set_nonblocking(true);
    assert!(a.is_nonblocking());
    assert!(!a.is_reuse_addr());
    a.set_reuse_addr(true);
    assert!(a.is_reuse_addr());
}

#[test]
fn addresses_convert_both_ways() {
    let e = Endpoint { addr: IpAddress::Ipv4(0x0a00_020f), port: 99 };
    let a = from_ipendpoint_to_socketaddr(e);
    assert_eq!(a, SocketAddr::V4 { ip: 0x0a00_020f, port: 99 });
    assert_eq!(from_sockaddr_to_ipendpoint(a), e);
    let v6 = Endpoint { addr: IpAddress::Ipv6(1), port: 7 };
    assert_eq!(from_sockaddr_to_ipendpoint(from_ipendpoint_to_socketaddr(v6)), v6);
    assert_eq!(a.port(), 99);
    assert_eq!(a.with_port(3), SocketAddr::V4 { ip: 0x0a00_020f, port: 3 });
    assert!(is_unspecified(IpAddress::Ipv4(0)));
    assert!(is_unspecified(IpAddress::Ipv6(0)));
    assert!(!is_unspecified(IpAddress::Ipv4(1)));
    assert_eq!(loop_back_endpoint().addr, IpAddress::Ipv4(LOCALHOST));
    assert_eq!(unspecified_endpoint().port, 0);
}
