//! Socket addresses in user memory.

use crate::errno::{Errno, SysResult};
use crate::net::addr::{endpoint_of, SocketAddr, LOOP_BACK_IP};
use crate::net::socket::SocketDomain;
use crate::seqs::copy_range;
use crate::syscall::exec::text_of_bytes;
use crate::user::{read_result, UserIn, UserOut};
use vstd::prelude::*;
use vstd::utf8::valid_utf8;

verus! {

pub const AF_UNIX: u16 = 1;

pub const AF_INET: u16 = 2;

pub const AF_INET6: u16 = 10;

/// Bytes of an address of version four.
pub const SOCKADDR_IN_LEN: usize = 16;

/// Bytes of an address of version six.
pub const SOCKADDR_IN6_LEN: usize = 28;

/// The largest number of bytes of a local name.
pub const SOCKADDR_UN_PATH_LEN: usize = 108;

/// The largest length of an address that a caller may give.
pub const MAX_ADDR_LEN: u32 = 4096;

/// Two bytes as a number, the lowest first.
pub open spec fn le16(s: Seq<u8>, i: int) -> int {
    s[i] + 256 * s[i + 1]
}

/// Two bytes as a number, the highest first.
pub open spec fn be16(s: Seq<u8>, i: int) -> int {
    256 * s[i] + s[i + 1]
}

/// Four bytes as a number, the highest first.
pub open spec fn be32(s: Seq<u8>, i: int) -> int {
    0x1_0000 * be16(s, i) + be16(s, i + 2)
}

/// All bytes of a range are zero but for the last, which has this value.
pub open spec fn only_last(s: Seq<u8>, from: int, to: int, last: u8) -> bool {
    &&& forall|i: int| from <= i < to - 1 ==> #[trigger] s[i] == 0
    &&& s[to - 1] == last
}

/// The bytes of an address of version four. One of version six has no address
/// here.
pub open spec fn sockaddr_in_bytes(a: SocketAddr) -> Seq<u8> {
    let port = endpoint_of(a).port;
    let ip = match a {
        SocketAddr::V4 { ip, .. } => ip,
        SocketAddr::V6 { .. } => 0u32,
    };
    seq![
        2u8,
        0u8,
        (port / 256) as u8,
        (port % 256) as u8,
        (ip / 0x100_0000) as u8,
        ((ip / 0x1_0000) % 256) as u8,
        ((ip / 0x100) % 256) as u8,
        (ip % 256) as u8,
        0u8,
        0u8,
        0u8,
        0u8,
        0u8,
        0u8,
        0u8,
        0u8,
    ]
}

/// The bytes of an address of version six: any, or that of the machine itself.
pub open spec fn sockaddr_in6_bytes(a: SocketAddr) -> Seq<u8> {
    let port = endpoint_of(a).port;
    let any = a matches SocketAddr::V4 { ip, .. } && ip == 0;
    Seq::new(
        28,
        |i: int|
            if i == 0 {
                10u8
            } else if i == 2 {
                (port / 256) as u8
            } else if i == 3 {
                (port % 256) as u8
            } else if i == 23 && !any {
                1u8
            } else {
                0u8
            },
    )
}

/// The address in 16 bytes, if it is one of version four.
pub open spec fn sockaddr_in_value(s: Seq<u8>) -> SysResult<SocketAddr> {
    if le16(s, 0) != AF_INET {
        Err(Errno::EAFNOSUPPORT)
    } else {
        Ok(SocketAddr::V4 { ip: be32(s, 4) as u32, port: be16(s, 2) as u16 })
    }
}

/// The address in 28 bytes, if it is one of version six that stands for any or
/// for the machine itself; these are the same in version four.
pub open spec fn sockaddr_in6_value(s: Seq<u8>) -> SysResult<SocketAddr> {
    if le16(s, 0) != AF_INET6 {
        Err(Errno::EAFNOSUPPORT)
    } else if only_last(s, 8, 24, 0) {
        Ok(SocketAddr::V4 { ip: 0, port: be16(s, 2) as u16 })
    } else if only_last(s, 8, 24, 1) {
        Ok(SocketAddr::V4 { ip: LOOP_BACK_IP, port: be16(s, 2) as u16 })
    } else {
        Err(Errno::EADDRNOTAVAIL)
    }
}

/// What reading an address comes to. `raw` are its first bytes, as many as an
/// address of the family has.
pub open spec fn address_read(domain: SocketDomain, raw: UserIn<Vec<u8>>, len: usize) -> SysResult<SocketAddr> {
    let need = if domain == SocketDomain::AF_INET6 {
        SOCKADDR_IN6_LEN
    } else {
        SOCKADDR_IN_LEN
    };
    if raw is Null {
        Err(Errno::EFAULT)
    } else if len < need {
        Err(Errno::EINVAL)
    } else {
        match read_result(raw) {
            Err(e) => Err(e),
            Ok(v) => if domain == SocketDomain::AF_INET6 {
                sockaddr_in6_value(v@)
            } else {
                sockaddr_in_value(v@)
            },
        }
    }
}

/// The bytes that were read are as many as an address of the family has.
pub open spec fn raw_fits(domain: SocketDomain, raw: UserIn<Vec<u8>>) -> bool {
    raw matches UserIn::Value(v) ==> v@.len() == if domain == SocketDomain::AF_INET6 {
        SOCKADDR_IN6_LEN
    } else {
        SOCKADDR_IN_LEN
    }
}

fn all_but_last_zero(v: &Vec<u8>, from: usize, to: usize) -> (r: bool)
    requires
        from < to <= v@.len(),
    ensures
        r == (forall|i: int| from <= i < to - 1 ==> #[trigger] v@[i] == 0),
{
    let mut i: usize = from;
    while i < to - 1
        invariant
            from <= i <= to - 1,
            to <= v@.len(),
            from < to,
            forall|j: int| from <= j < i ==> #[trigger] v@[j] == 0,
        decreases to - i,
    {
        if v[i] != 0 {
            return false;
        }
        i = i + 1;
    }
    true
}

/// Reads an address of a family.
pub fn read_sockaddr_for_domain(domain: SocketDomain, raw: UserIn<Vec<u8>>, len: usize) -> (r: SysResult<
    SocketAddr,
>)
    requires
        raw_fits(domain, raw),
    ensures
        r == address_read(domain, raw, len),
{
    let six = match domain {
        SocketDomain::AF_INET6 => true,
        _ => false,
    };
    let need: usize = if six {
        SOCKADDR_IN6_LEN
    } else {
        SOCKADDR_IN_LEN
    };
    if raw.is_null() {
        return Err(Errno::EFAULT);
    }
    if len < need {
        return Err(Errno::EINVAL);
    }
    let v = match raw.read() {
        Ok(v) => v,
        Err(e) => {
            return Err(e);
        },
    };
    let family: u16 = v[0] as u16 + 256 * v[1] as u16;
    let port: u16 = 256 * v[2] as u16 + v[3] as u16;
    if six {
        if family != AF_INET6 {
            return Err(Errno::EAFNOSUPPORT);
        }
        let zeros = all_but_last_zero(&v, 8, 24);
        if zeros && v[23] == 0 {
            return Ok(SocketAddr::V4 { ip: 0, port });
        }
        if zeros && v[23] == 1 {
            return Ok(SocketAddr::V4 { ip: LOOP_BACK_IP, port });
        }
        return Err(Errno::EADDRNOTAVAIL);
    }
    if family != AF_INET {
        return Err(Errno::EAFNOSUPPORT);
    }
    let ip: u32 = 0x100_0000 * v[4] as u32 + 0x1_0000 * v[5] as u32 + 0x100 * v[6] as u32 + v[7] as u32;
    Ok(SocketAddr::V4 { ip, port })
}

/// Where an address is written to: the buffer, the length as it is read, and
/// where the length is written back.
#[derive(Debug)]
pub struct AddrPlace {
    pub addr: UserOut,
    pub len_in: UserIn<u32>,
    pub len_out: UserOut,
}

/// What is written of an address, and how that ends.
#[derive(Debug)]
pub struct AddrReply {
    pub ret: SysResult<()>,
    pub bytes: Option<Vec<u8>>,
    pub len: Option<u32>,
}

/// Nothing is written.
pub open spec fn addr_unwritten(r: AddrReply, ret: SysResult<()>) -> bool {
    r.ret == ret && r.bytes is None && r.len is None
}

/// Writing an address: as many of its bytes as there is room for, then its full
/// length. The length cannot be written before the bytes, so these stay if it
/// cannot be written at all.
pub open spec fn addr_written(p: AddrPlace, full: Seq<u8>, r: AddrReply) -> bool {
    if p.addr == UserOut::Null {
        addr_unwritten(r, Ok(()))
    } else {
        match read_result(p.len_in) {
            Err(e) => addr_unwritten(r, Err(e)),
            Ok(n) => {
                let k = if n < full.len() {
                    n as int
                } else {
                    full.len() as int
                };
                if n > MAX_ADDR_LEN {
                    addr_unwritten(r, Err(Errno::EINVAL))
                } else if k > 0 && p.addr != UserOut::Writable {
                    addr_unwritten(r, Err(Errno::EFAULT))
                } else {
                    &&& r.bytes is Some
                    &&& r.bytes->0@ == full.take(k)
                    &&& if p.len_out == UserOut::Writable {
                        r.ret is Ok && r.len == Some(full.len() as u32)
                    } else {
                        r.ret == Err::<(), Errno>(Errno::EFAULT) && r.len is None
                    }
                }
            },
        }
    }
}

fn write_addr(p: AddrPlace, full: &Vec<u8>) -> (r: AddrReply)
    requires
        full@.len() <= 4096,
    ensures
        addr_written(p, full@, r),
{
    match p.addr {
        UserOut::Null => {
            return AddrReply { ret: Ok(()), bytes: None, len: None };
        },
        _ => {},
    }
    let n: u32 = match p.len_in.read() {
        Ok(n) => n,
        Err(e) => {
            return AddrReply { ret: Err(e), bytes: None, len: None };
        },
    };
    if n > MAX_ADDR_LEN {
        return AddrReply { ret: Err(Errno::EINVAL), bytes: None, len: None };
    }
    let k: usize = if (n as usize) < full.len() {
        n as usize
    } else {
        full.len()
    };
    let writable = match p.addr {
        UserOut::Writable => true,
        _ => false,
    };
    if k > 0 && !writable {
        return AddrReply { ret: Err(Errno::EFAULT), bytes: None, len: None };
    }
    let bytes = copy_range(full.as_slice(), 0, k);
    proof {
        assert(bytes@ =~= full@.take(k as int));
    }
    match p.len_out {
        UserOut::Writable => AddrReply {
            ret: Ok(()),
            bytes: Some(bytes),
            len: Some(full.len() as u32),
        },
        _ => AddrReply { ret: Err(Errno::EFAULT), bytes: Some(bytes), len: None },
    }
}

/// The bytes of an address in a family.
pub open spec fn sockaddr_bytes(domain: SocketDomain, a: SocketAddr) -> Seq<u8> {
    if domain == SocketDomain::AF_INET6 {
        sockaddr_in6_bytes(a)
    } else {
        sockaddr_in_bytes(a)
    }
}

fn encode_in(a: SocketAddr) -> (r: Vec<u8>)
    ensures
        r@ == sockaddr_in_bytes(a),
{
    let port: u16 = a.port();
    let ip: u32 = match a {
        SocketAddr::V4 { ip, .. } => ip,
        SocketAddr::V6 { .. } => 0,
    };
    let mut v: Vec<u8> = Vec::new();
    v.push(2);
    v.push(0);
    v.push((port / 256) as u8);
    v.push((port % 256) as u8);
    v.push((ip / 0x100_0000) as u8);
    v.push(((ip / 0x1_0000) % 256) as u8);
    v.push(((ip / 0x100) % 256) as u8);
    v.push((ip % 256) as u8);
    v.push(0);
    v.push(0);
    v.push(0);
    v.push(0);
    v.push(0);
    v.push(0);
    v.push(0);
    v.push(0);
    proof {
        assert(v@ =~= sockaddr_in_bytes(a));
    }
    v
}

fn encode_in6(a: SocketAddr) -> (r: Vec<u8>)
    ensures
        r@ == sockaddr_in6_bytes(a),
{
    let port: u16 = a.port();
    let any = match a {
        SocketAddr::V4 { ip, .. } => ip == 0,
        SocketAddr::V6 { .. } => false,
    };
    let ghost full = sockaddr_in6_bytes(a);
    let mut v: Vec<u8> = Vec::new();
    let mut i: usize = 0;
    while i < 28
        invariant
            i <= 28,
            v@.len() == i,
            full == sockaddr_in6_bytes(a),
            port == endpoint_of(a).port,
            any == (a matches SocketAddr::V4 { ip, .. } && ip == 0),
            forall|j: int| 0 <= j < i ==> v@[j] == full[j],
        decreases 28 - i,
    {
        let b: u8 = if i == 0 {
            10
        } else if i == 2 {
            (port / 256) as u8
        } else if i == 3 {
            (port % 256) as u8
        } else if i == 23 && !any {
            1
        } else {
            0
        };
        v.push(b);
        i = i + 1;
    }
    proof {
        assert(v@ =~= full);
    }
    v
}

fn encode_for_domain(domain: SocketDomain, a: SocketAddr) -> (r: Vec<u8>)
    ensures
        r@ == sockaddr_bytes(domain, a),
        r@.len() <= 28,
{
    match domain {
        SocketDomain::AF_INET6 => encode_in6(a),
        _ => encode_in(a),
    }
}

/// Writes an address of a family.
pub fn write_sockaddr_for_domain(domain: SocketDomain, place: AddrPlace, a: SocketAddr) -> (r: AddrReply)
    ensures
        addr_written(place, sockaddr_bytes(domain, a), r),
{
    let full = encode_for_domain(domain, a);
    write_addr(place, &full)
}

/// The bytes of an address of version four that fit into `len`, and the length of
/// all of them; nothing without a buffer.
pub open spec fn sockaddr_value(addr: UserOut, len: usize, a: SocketAddr) -> SysResult<(Seq<u8>, u32)> {
    let k = if len < 16 {
        len as int
    } else {
        16
    };
    if addr == UserOut::Null {
        Ok((Seq::empty(), 0))
    } else if k > 0 && addr != UserOut::Writable {
        Err(Errno::EFAULT)
    } else {
        Ok((sockaddr_in_bytes(a).take(k), 16))
    }
}

/// Writes an address of version four without a place for its length.
pub fn write_sockaddr_value(addr: UserOut, len: usize, a: SocketAddr) -> (r: SysResult<(Vec<u8>, u32)>)
    ensures
        match sockaddr_value(addr, len, a) {
            Err(e) => r is Err && r->Err_0 == e,
            Ok((bytes, n)) => r is Ok && (r->Ok_0).0@ == bytes && (r->Ok_0).1 == n,
        },
{
    match addr {
        UserOut::Null => {
            return Ok((Vec::new(), 0));
        },
        _ => {},
    }
    let full = encode_in(a);
    let k: usize = if len < SOCKADDR_IN_LEN {
        len
    } else {
        SOCKADDR_IN_LEN
    };
    let writable = match addr {
        UserOut::Writable => true,
        _ => false,
    };
    if k > 0 && !writable {
        return Err(Errno::EFAULT);
    }
    let bytes = copy_range(full.as_slice(), 0, k);
    proof {
        assert(bytes@ =~= full@.take(k as int));
    }
    Ok((bytes, 16))
}

/// A local name: the bytes it goes by, and whether it is a path.
#[derive(Debug)]
pub struct SockAddrUn {
    pub key: Vec<u8>,
    pub is_path: bool,
}

/// The bytes up to the first zero.
pub open spec fn up_to_zero(s: Seq<u8>, i: int) -> int
    decreases s.len() - i,
{
    if 0 <= i < s.len() && s[i] != 0 {
        up_to_zero(s, i + 1)
    } else {
        i
    }
}

/// The local name in the bytes behind the family: one that starts with a zero is
/// taken as it is, any other is a path that ends at a zero.
pub open spec fn local_name(s: Seq<u8>) -> (Seq<u8>, bool) {
    if s[0] == 0 {
        (s, false)
    } else {
        (s.take(up_to_zero(s, 0)), true)
    }
}

/// What reading a local name comes to.
pub open spec fn name_read(raw: UserIn<Vec<u8>>, len: usize, r: SysResult<SockAddrUn>) -> bool {
    if raw is Null {
        r is Err && r->Err_0 == Errno::EFAULT
    } else if len < 2 {
        r is Err && r->Err_0 == Errno::EINVAL
    } else {
        match read_result(raw) {
            Err(e) => r is Err && r->Err_0 == e,
            Ok(v) => {
                let (key, is_path) = local_name(v@.skip(2));
                if le16(v@, 0) != AF_UNIX {
                    r is Err && r->Err_0 == Errno::EAFNOSUPPORT
                } else if v@.len() == 2 || !valid_utf8(key) {
                    r is Err && r->Err_0 == Errno::EINVAL
                } else {
                    r is Ok && r->Ok_0.key@ == key && r->Ok_0.is_path == is_path
                }
            },
        }
    }
}

/// How many bytes of a local name are read.
pub fn local_name_len(len: usize) -> (r: usize)
    ensures
        r == (if len < 110 {
            len
        } else {
            110
        }),
{
    if len < 2 + SOCKADDR_UN_PATH_LEN {
        len
    } else {
        2 + SOCKADDR_UN_PATH_LEN
    }
}

/// Reads a local name. `raw` are its first bytes, as many as `local_name_len`
/// says.
pub fn read_sockaddr_un(raw: UserIn<Vec<u8>>, len: usize) -> (r: SysResult<SockAddrUn>)
    requires
        raw matches UserIn::Value(v) ==> v@.len() == (if len < 110 {
            len as int
        } else {
            110
        }),
    ensures
        name_read(raw, len, r),
{
    if raw.is_null() {
        return Err(Errno::EFAULT);
    }
    if len < 2 {
        return Err(Errno::EINVAL);
    }
    let v = match raw.read() {
        Ok(v) => v,
        Err(e) => {
            return Err(e);
        },
    };
    let family: u16 = v[0] as u16 + 256 * v[1] as u16;
    if family != AF_UNIX {
        return Err(Errno::EAFNOSUPPORT);
    }
    if v.len() == 2 {
        return Err(Errno::EINVAL);
    }
    let ghost name = v@.skip(2);
    let is_path = v[2] != 0;
    let mut end: usize = v.len();
    if is_path {
        end = 2;
        while end < v.len() && v[end] != 0
            invariant
                2 <= end <= v@.len(),
                name == v@.skip(2),
                up_to_zero(name, 0) == up_to_zero(name, end - 2),
            decreases v@.len() - end,
        {
            assert(name[end - 2] == v@[end as int]);
            end = end + 1;
        }
        proof {
            if end < v@.len() {
                assert(name[end - 2] == v@[end as int]);
            }
        }
    }
    let key = copy_range(v.as_slice(), 2, end);
    proof {
        if is_path {
            assert(key@ =~= name.take(end - 2));
        } else {
            assert(key@ =~= name);
        }
        assert(name[0] == v@[2]);
    }
    match text_of_bytes(key.as_slice()) {
        None => Err(Errno::EINVAL),
        Some(_) => Ok(SockAddrUn { key, is_path }),
    }
}

/// The bytes of a local name in user memory; no name is an empty one.
pub open spec fn sockaddr_un_bytes(key: Option<Seq<u8>>) -> Seq<u8> {
    let k = match key {
        Some(k) => k,
        None => Seq::empty(),
    };
    seq![1u8, 0u8] + k.take(
        if k.len() < SOCKADDR_UN_PATH_LEN {
            k.len() as int
        } else {
            SOCKADDR_UN_PATH_LEN as int
        },
    )
}

/// Writes a local name.
pub fn write_sockaddr_un(place: AddrPlace, key: &Option<Vec<u8>>) -> (r: AddrReply)
    ensures
        addr_written(place, sockaddr_un_bytes(crate::net::unix::key_view(*key)), r),
{
    let mut full: Vec<u8> = Vec::new();
    full.push(1);
    full.push(0);
    match key {
        Some(k) => {
            let n: usize = if k.len() < SOCKADDR_UN_PATH_LEN {
                k.len()
            } else {
                SOCKADDR_UN_PATH_LEN
            };
            let mut part = copy_range(k.as_slice(), 0, n);
            full.append(&mut part);
        },
        None => {},
    }
    proof {
        assert(full@ =~= sockaddr_un_bytes(crate::net::unix::key_view(*key)));
    }
    write_addr(place, &full)
}

/// An address that a socket of this machine can have: any, or one of its own.
pub open spec fn local_ipv4(a: SocketAddr) -> bool {
    a matches SocketAddr::V4 { ip, .. } && (ip == 0 || ip / 0x100_0000 == 127)
}

/// Tells whether a socket of this machine can have an address.
pub fn is_local_ipv4(a: &SocketAddr) -> (r: bool)
    ensures
        r == local_ipv4(*a),
{
    match a {
        SocketAddr::V4 { ip, .. } => *ip == 0 || *ip / 0x100_0000 == 127,
        SocketAddr::V6 { .. } => false,
    }
}

/// The address to connect to: any means the machine itself.
pub open spec fn connect_target(a: SocketAddr) -> SocketAddr {
    match a {
        SocketAddr::V4 { ip, port } => if ip == 0 {
            SocketAddr::V4 { ip: LOOP_BACK_IP, port }
        } else {
            a
        },
        _ => a,
    }
}

/// The address to connect to.
pub fn normalize_connect_addr(a: SocketAddr) -> (r: SocketAddr)
    ensures
        r == connect_target(a),
{
    match a {
        SocketAddr::V4 { ip, port } => if ip == 0 {
            SocketAddr::V4 { ip: LOOP_BACK_IP, port }
        } else {
            a
        },
        _ => a,
    }
}

/// An address of version four can be read back from its bytes.
pub proof fn addresses_can_be_read_back(ip: u32, port: u16)
    ensures
        sockaddr_in_value(sockaddr_in_bytes(SocketAddr::V4 { ip, port })) == Ok::<SocketAddr, Errno>(
            SocketAddr::V4 { ip, port },
        ),
{
    let s = sockaddr_in_bytes(SocketAddr::V4 { ip, port });
    assert(s[0] == 2 && s[1] == 0);
    assert(be16(s, 2) == port);
    assert(s[4] == ip / 0x100_0000);
    assert(be32(s, 4) == ip);
}

/// Any and the machine itself can be read back from their bytes in version six.
pub proof fn own_addresses_can_be_read_back(ip: u32, port: u16)
    requires
        ip == 0 || ip == LOOP_BACK_IP,
    ensures
        sockaddr_in6_value(sockaddr_in6_bytes(SocketAddr::V4 { ip, port })) == Ok::<SocketAddr, Errno>(
            SocketAddr::V4 { ip, port },
        ),
{
    let s = sockaddr_in6_bytes(SocketAddr::V4 { ip, port });
    assert(s[0] == 10 && s[1] == 0);
    assert(be16(s, 2) == port);
    assert(s[23] == if ip == 0 {
        0u8
    } else {
        1u8
    });
}

/// An address of version four lies in user memory in network order: its family in
/// the first two bytes, the port in the next two and the four octets of the address
/// behind it, each with the highest first.
pub proof fn addresses_are_read_in_network_order(s: Seq<u8>, ip: u32, port: u16)
    requires
        sockaddr_in_value(s) == Ok::<SocketAddr, Errno>(SocketAddr::V4 { ip, port }),
    ensures
        s[0] == 2,
        s[1] == 0,
        port / 256 == s[2],
        port % 256 == s[3],
        ip / 0x100_0000 == s[4],
        ip / 0x1_0000 % 256 == s[5],
        ip / 0x100 % 256 == s[6],
        ip % 256 == s[7],
{
}

/// Exactly the bytes that name the family of version four are an address of it.
pub proof fn only_inet_addresses_are_accepted(s: Seq<u8>)
    ensures
        sockaddr_in_value(s) is Ok <==> s[0] == 2 && s[1] == 0,
        sockaddr_in_value(s) is Err ==> sockaddr_in_value(s)->Err_0 == Errno::EAFNOSUPPORT,
{
}

/// An address of version four is written in network order, and nothing but zeros
/// follow it.
pub proof fn addresses_are_written_in_network_order(ip: u32, port: u16)
    ensures
        ({
            let s = sockaddr_in_bytes(SocketAddr::V4 { ip, port });
            &&& s.len() == 16
            &&& s[0] == 2 && s[1] == 0
            &&& s[2] == port / 256 && s[3] == port % 256
            &&& s[4] == ip / 0x100_0000
            &&& s[5] == ip / 0x1_0000 % 256
            &&& s[6] == ip / 0x100 % 256
            &&& s[7] == ip % 256
            &&& forall|i: int| 8 <= i < 16 ==> #[trigger] s[i] == 0
        }),
{
}

/// An address of version six is the one of all zeros, which stands for any, or the
/// one that ends with a one, which stands for the machine itself; its port is in
/// network order.
pub proof fn six_addresses_are_any_or_the_machine_itself(s: Seq<u8>, ip: u32, port: u16)
    requires
        sockaddr_in6_value(s) == Ok::<SocketAddr, Errno>(SocketAddr::V4 { ip, port }),
    ensures
        s[0] == 10,
        s[1] == 0,
        port / 256 == s[2],
        port % 256 == s[3],
        forall|i: int| 8 <= i < 23 ==> #[trigger] s[i] == 0,
        ip == 0 && s[23] == 0 || ip == 0x7f00_0001 && s[23] == 1,
{
}

/// Other addresses of version six are not available here, those of another family
/// not supported.
pub proof fn other_six_addresses_are_refused(s: Seq<u8>, e: Errno)
    requires
        sockaddr_in6_value(s) == Err::<SocketAddr, Errno>(e),
    ensures
        e == Errno::EAFNOSUPPORT <==> !(s[0] == 10 && s[1] == 0),
        e != Errno::EAFNOSUPPORT ==> e == Errno::EADDRNOTAVAIL && (s[23] > 1 || exists|i: int|
            8 <= i < 23 && #[trigger] s[i] != 0),
{
    if s[0] == 10 && s[1] == 0 && s[23] <= 1 {
        if forall|i: int| 8 <= i < 23 ==> #[trigger] s[i] == 0 {
            assert(only_last(s, 8, 24, s[23]));
        }
    }
}

/// An address of version six is written with its family and port in network order;
/// any is all zeros, anything else the machine itself.
pub proof fn six_addresses_are_written_in_network_order(ip: u32, port: u16)
    ensures
        ({
            let s = sockaddr_in6_bytes(SocketAddr::V4 { ip, port });
            &&& s.len() == 28
            &&& s[0] == 10 && s[1] == 0
            &&& s[2] == port / 256 && s[3] == port % 256
            &&& s[23] == if ip == 0 {
                0int
            } else {
                1
            }
            &&& forall|i: int| 4 <= i < 28 && i != 23 ==> #[trigger] s[i] == 0
        }),
{
}

/// Reading an address asks for a pointer, for as many bytes as an address of the
/// family has, and for readable memory, in this order.
pub proof fn addresses_are_checked_in_order(domain: SocketDomain, raw: UserIn<Vec<u8>>, len: usize)
    ensures
        raw is Null ==> address_read(domain, raw, len) == Err::<SocketAddr, Errno>(Errno::EFAULT),
        !(raw is Null) && len < 16 ==> address_read(domain, raw, len) == Err::<SocketAddr, Errno>(
            Errno::EINVAL,
        ),
        !(raw is Null) && domain == SocketDomain::AF_INET6 && len < 28 ==> address_read(
            domain,
            raw,
            len,
        ) == Err::<SocketAddr, Errno>(Errno::EINVAL),
        raw is Fault && len >= 28 ==> address_read(domain, raw, len) == Err::<SocketAddr, Errno>(
            Errno::EFAULT,
        ),
        raw matches UserIn::Value(v) ==> (domain == SocketDomain::AF_INET && len >= 16 ==> (
        address_read(domain, raw, len) is Ok <==> v@[0] == 2 && v@[1] == 0)),
{
}

/// A reported address is cut to the room that the caller gave, and its full length
/// is told all the same.
pub proof fn reported_addresses_are_cut_to_their_room(p: AddrPlace, full: Seq<u8>, r: AddrReply)
    requires
        addr_written(p, full, r),
        full.len() <= 4096,
        r.ret is Ok,
        p.addr != UserOut::Null,
    ensures
        p.len_in is Value,
        p.len_in->Value_0 <= 4096,
        r.len == Some(full.len() as u32),
        r.bytes is Some,
        r.bytes->0@.len() <= p.len_in->Value_0,
        r.bytes->0@.len() <= full.len(),
        r.bytes->0@.len() == p.len_in->Value_0 || r.bytes->0@.len() == full.len(),
        forall|i: int| 0 <= i < r.bytes->0@.len() ==> #[trigger] r.bytes->0@[i] == full[i],
{
}

/// The name of a local socket is what follows the family: up to its first zero byte if it is a
/// path, whole if it begins with one.
pub proof fn local_names_end_at_zero(s: Seq<u8>, i: int)
    requires
        s.len() > 0,
        0 <= i,
    ensures
        s[0] == 0 ==> local_name(s) == (s, false),
        s[0] != 0 ==> local_name(s).1 && local_name(s).0.is_prefix_of(s) && (i
            < local_name(s).0.len() ==> s[i] != 0) && (local_name(s).0.len() < s.len()
            ==> s[local_name(s).0.len() as int] == 0),
{
    names_stop_at_zero(s, 0);
}

proof fn names_stop_at_zero(s: Seq<u8>, from: int)
    requires
        0 <= from <= s.len(),
    ensures
        from <= up_to_zero(s, from) <= s.len(),
        forall|k: int| from <= k < up_to_zero(s, from) ==> s[k] != 0,
        up_to_zero(s, from) < s.len() ==> s[up_to_zero(s, from)] == 0,
    decreases s.len() - from,
{
    if from < s.len() && s[from] != 0 {
        names_stop_at_zero(s, from + 1);
    }
}

/// A local name that is written begins with its family, lowest byte first, and holds at most
/// 108 bytes of the name.
pub proof fn local_names_are_written_behind_their_family(key: Seq<u8>)
    ensures
        sockaddr_un_bytes(Some(key))[0] == 1 && sockaddr_un_bytes(Some(key))[1] == 0,
        key.len() <= 108 ==> sockaddr_un_bytes(Some(key)).skip(2) =~= key,
        key.len() > 108 ==> sockaddr_un_bytes(Some(key)).skip(2) =~= key.take(108),
        sockaddr_un_bytes(None) =~= seq![1u8, 0u8],
{
}

/// A name that is read was given with its family and is text.
pub proof fn local_names_are_checked(v: Vec<u8>, len: usize, r: SysResult<SockAddrUn>)
    requires
        name_read(UserIn::Value(v), len, r),
        2 <= v@.len(),
    ensures
        len < 2 ==> r is Err && r->Err_0 == Errno::EINVAL,
        len >= 2 && !(v@[0] == 1 && v@[1] == 0) ==> r is Err && r->Err_0
            == Errno::EAFNOSUPPORT,
        r matches Ok(n) ==> v@[0] == 1 && v@[1] == 0 && n.is_path == (v@[2] != 0)
            && n.key@.is_prefix_of(v@.skip(2)),
{
    if r is Ok {
        names_stop_at_zero(v@.skip(2), 0);
    }
}

/// An address that is told with a message is cut to its room, and its length is always 16.
pub proof fn message_addresses_are_cut(len: usize, a: SocketAddr)
    ensures
        sockaddr_value(UserOut::Null, len, a) == Ok::<(Seq<u8>, u32), Errno>((Seq::empty(), 0)),
        sockaddr_value(UserOut::Writable, len, a) matches Ok((b, n)) && n == 16 && b.is_prefix_of(
            sockaddr_in_bytes(a),
        ) && b.len() == (if len < 16 {
            len as int
        } else {
            16
        }),
        len > 0 ==> sockaddr_value(UserOut::Fault, len, a) == Err::<(Seq<u8>, u32), Errno>(
            Errno::EFAULT,
        ),
        sockaddr_bytes(SocketDomain::AF_INET, a) == sockaddr_in_bytes(a),
        sockaddr_bytes(SocketDomain::AF_INET6, a) == sockaddr_in6_bytes(a),
{
}

/// A name is read whole: all that follows the family, or up to its first zero byte for a path.
pub proof fn local_names_are_read_whole(v: Vec<u8>, len: usize, n: SockAddrUn)
    requires
        name_read(UserIn::Value(v), len, Ok(n)),
        2 < v@.len(),
    ensures
        !n.is_path ==> n.key@ =~= v@.skip(2),
        n.is_path ==> n.key@.len() == v@.len() - 2 || v@[2 + n.key@.len() as int] == 0,
        n.is_path ==> forall|i: int| 0 <= i < n.key@.len() ==> n.key@[i] != 0,
{
    names_stop_at_zero(v@.skip(2), 0);
}

} // verus!
