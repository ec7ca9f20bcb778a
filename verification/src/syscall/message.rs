//! Messages: bytes in several pieces of user memory, with an address.

use crate::errno::{err, ok, Errno, SysResult};
use crate::net::addr::SocketAddr;
use crate::net::socket::SocketDomain;
use crate::syscall::rw::{total_len, IoVec};
use crate::syscall::sockaddr::{
    address_read, raw_fits, read_sockaddr_for_domain, sockaddr_value, write_sockaddr_value,
};
use crate::timer::{valid_duration, TimeSpec};
use crate::user::{read_result, UserIn, UserOut};
use vstd::prelude::*;

verus! {

pub const MSG_OOB: usize = 0x1;

pub const MSG_ERRQUEUE: usize = 0x2000;

/// The largest number of pieces of a message, and of messages of a call.
pub const MSG_IOV_MAX: usize = 1024;

/// The header of a message.
#[derive(Debug, Clone, Copy, PartialEq, Eq, Structural)]
pub struct MsgHdr {
    pub msg_name: usize,
    pub msg_namelen: u32,
    pub msg_iov: usize,
    pub msg_iovlen: usize,
    pub msg_control: usize,
    pub msg_controllen: usize,
    pub msg_flags: i32,
}

/// A message header that can be used.
pub open spec fn header_read(hdr: UserIn<MsgHdr>) -> SysResult<MsgHdr> {
    match read_result(hdr) {
        Err(e) => Err(e),
        Ok(h) => if h.msg_iovlen > MSG_IOV_MAX {
            Err(Errno::EMSGSIZE)
        } else {
            Ok(h)
        },
    }
}

/// Reads the header of a message.
pub fn read_msghdr(hdr: UserIn<MsgHdr>) -> (r: SysResult<MsgHdr>)
    ensures
        r == header_read(hdr),
{
    match hdr.read() {
        Err(e) => Err(e),
        Ok(h) => {
            if h.msg_iovlen > MSG_IOV_MAX {
                return Err(Errno::EMSGSIZE);
            }
            Ok(h)
        },
    }
}

/// The bytes of all pieces together, if they can be counted.
pub open spec fn pieces_len(items: Seq<IoVec>) -> SysResult<usize> {
    if total_len(items) > usize::MAX {
        Err(Errno::EINVAL)
    } else {
        Ok(total_len(items) as usize)
    }
}

fn sum_pieces(items: &Vec<IoVec>) -> (r: SysResult<usize>)
    ensures
        r == pieces_len(items@),
{
    let mut total: usize = 0;
    let mut i: usize = 0;
    while i < items.len()
        invariant
            i <= items@.len(),
            total == total_len(items@.take(i as int)),
        decreases items@.len() - i,
    {
        proof {
            assert(items@.take(i + 1).drop_last() =~= items@.take(i as int));
            assert(items@.take(i + 1).last() == items@[i as int]);
            crate::syscall::rw::total_len_prefix(items@, i + 1);
        }
        total = match total.checked_add(items[i].len) {
            Some(n) => n,
            None => {
                return Err(Errno::EINVAL);
            },
        };
        i = i + 1;
    }
    proof {
        assert(items@.take(i as int) =~= items@);
    }
    Ok(total)
}

/// The pieces of a message as they are read; a message without pieces needs no
/// list of them.
pub open spec fn pieces_read(count: usize, items: UserIn<Vec<IoVec>>) -> SysResult<Seq<IoVec>> {
    if count == 0 {
        Ok(Seq::empty())
    } else {
        match read_result(items) {
            Err(e) => Err(e),
            Ok(v) => Ok(v@),
        }
    }
}

/// The bytes of a message: those of its pieces, one after the other. Of an empty
/// piece nothing is read; one that cannot be read spoils the message.
pub open spec fn pieces_data(items: Seq<IoVec>, pieces: Seq<UserIn<Vec<u8>>>) -> Option<Seq<u8>>
    decreases items.len(),
{
    if items.len() == 0 {
        Some(Seq::empty())
    } else {
        match pieces_data(items.drop_last(), pieces.drop_last()) {
            None => None,
            Some(d) => if items.last().len == 0 {
                Some(d)
            } else {
                match pieces.last() {
                    UserIn::Value(v) => Some(d + v@),
                    _ => None,
                }
            },
        }
    }
}

/// The bytes of a message as they are collected.
pub open spec fn collected(items: Seq<IoVec>, pieces: Seq<UserIn<Vec<u8>>>) -> SysResult<Seq<u8>> {
    match pieces_len(items) {
        Err(e) => Err(e),
        Ok(_) => match pieces_data(items, pieces) {
            None => Err(Errno::EFAULT),
            Some(d) => Ok(d),
        },
    }
}

/// Collects the bytes of a message; the first piece that cannot be read ends the
/// call. `pieces` are the bytes of each piece, as they were read.
pub fn collect_iov_bytes(items: &Vec<IoVec>, pieces: &Vec<UserIn<Vec<u8>>>) -> (r: SysResult<Vec<u8>>)
    requires
        pieces@.len() == items@.len(),
    ensures
        match collected(items@, pieces@) {
            Err(e) => r is Err && r->Err_0 == e,
            Ok(d) => r is Ok && r->Ok_0@ == d,
        },
{
    match sum_pieces(items) {
        Err(e) => {
            return Err(e);
        },
        Ok(_) => {},
    }
    let mut out: Vec<u8> = Vec::new();
    let mut i: usize = 0;
    while i < items.len()
        invariant
            i <= items@.len(),
            pieces@.len() == items@.len(),
            pieces_len(items@) is Ok,
            pieces_data(items@.take(i as int), pieces@.take(i as int)) == Some(out@),
        decreases items@.len() - i,
    {
        proof {
            assert(items@.take(i + 1).drop_last() =~= items@.take(i as int));
            assert(items@.take(i + 1).last() == items@[i as int]);
            assert(pieces@.take(i + 1).drop_last() =~= pieces@.take(i as int));
            assert(pieces@.take(i + 1).last() == pieces@[i as int]);
        }
        if items[i].len != 0 {
            match &pieces[i] {
                UserIn::Value(v) => {
                    let mut part = crate::seqs::copy_range(v.as_slice(), 0, v.len());
                    proof {
                        assert(part@ =~= v@);
                    }
                    out.append(&mut part);
                },
                _ => {
                    proof {
                        spoiled_stays(items@, pieces@, i + 1);
                    }
                    return Err(Errno::EFAULT);
                },
            }
        }
        i = i + 1;
    }
    proof {
        assert(items@.take(i as int) =~= items@);
        assert(pieces@.take(i as int) =~= pieces@);
    }
    Ok(out)
}

proof fn spoiled_stays(items: Seq<IoVec>, pieces: Seq<UserIn<Vec<u8>>>, i: int)
    requires
        0 <= i <= items.len(),
        pieces.len() == items.len(),
        pieces_data(items.take(i), pieces.take(i)) is None,
    ensures
        pieces_data(items, pieces) is None,
    decreases items.len() - i,
{
    if i < items.len() {
        assert(items.take(i + 1).drop_last() =~= items.take(i));
        assert(pieces.take(i + 1).drop_last() =~= pieces.take(i));
        spoiled_stays(items, pieces, i + 1);
    } else {
        assert(items.take(i) =~= items);
        assert(pieces.take(i) =~= pieces);
    }
}

/// A message that can be sent: its bytes, and where it goes; without an address it
/// goes to the peer.
#[derive(Debug)]
pub struct Outgoing {
    pub data: Vec<u8>,
    pub target: Option<SocketAddr>,
}

/// What a program hands over for a message to be sent, as it was read: the list of
/// pieces, the bytes of each piece, and the address; and the family of the socket,
/// or why there is none.
#[derive(Debug)]
pub struct Handed {
    pub items: UserIn<Vec<IoVec>>,
    pub pieces: Vec<UserIn<Vec<u8>>>,
    pub domain: SysResult<SocketDomain>,
    pub raw: UserIn<Vec<u8>>,
}

impl Handed {
    /// As many pieces and bytes of an address were read as the header says.
    pub open spec fn wf(&self, h: MsgHdr) -> bool {
        &&& self.pieces@.len() == h.msg_iovlen
        &&& self.items matches UserIn::Value(v) ==> v@.len() == h.msg_iovlen
        &&& self.domain matches Ok(d) ==> raw_fits(d, self.raw)
    }
}

/// Where a message goes: to an address, or to the peer if the header has none.
pub open spec fn header_target(h: MsgHdr, domain: SocketDomain, raw: UserIn<Vec<u8>>) -> SysResult<
    Option<SocketAddr>,
> {
    if h.msg_name == 0 {
        Ok(None)
    } else {
        match address_read(domain, raw, h.msg_namelen as usize) {
            Ok(a) => Ok(Some(a)),
            Err(e) => Err(e),
        }
    }
}

/// Whether a message can be sent, and which: urgent data and the error queue are
/// not offered; the bytes come before the socket, the socket before the address.
pub open spec fn outgoing(h: MsgHdr, flags: usize, u: Handed) -> SysResult<
    (Seq<u8>, Option<SocketAddr>),
> {
    if flags & 0x2001 != 0 {
        Err(Errno::EOPNOTSUPP)
    } else {
        match pieces_read(h.msg_iovlen, u.items) {
            Err(e) => Err(e),
            Ok(v) => match collected(v, u.pieces@) {
                Err(e) => Err(e),
                Ok(data) => match u.domain {
                    Err(e) => Err(e),
                    Ok(d) => match header_target(h, d, u.raw) {
                        Err(e) => Err(e),
                        Ok(target) => Ok((data, target)),
                    },
                },
            },
        }
    }
}

/// The message is the one that is meant, or the error the one that comes first.
pub open spec fn is_outgoing(want: SysResult<(Seq<u8>, Option<SocketAddr>)>, r: SysResult<Outgoing>) -> bool {
    match want {
        Err(e) => r is Err && r->Err_0 == e,
        Ok((data, target)) => r is Ok && r->Ok_0.data@ == data && r->Ok_0.target == target,
    }
}

/// Checks a message to be sent whose header was read.
pub fn sys_sendmsg_from_hdr(h: &MsgHdr, flags: usize, u: Handed) -> (r: SysResult<Outgoing>)
    requires
        u.wf(*h),
    ensures
        is_outgoing(outgoing(*h, flags, u), r),
{
    if flags & 0x2001 != 0 {
        return Err(Errno::EOPNOTSUPP);
    }
    let Handed { items, pieces, domain, raw } = u;
    let v = match read_pieces(h.msg_iovlen, items) {
        Ok(v) => v,
        Err(e) => {
            return Err(e);
        },
    };
    let data = match collect_iov_bytes(&v, &pieces) {
        Ok(d) => d,
        Err(e) => {
            return Err(e);
        },
    };
    let d = match domain {
        Ok(d) => d,
        Err(e) => {
            return Err(e);
        },
    };
    if h.msg_name == 0 {
        return Ok(Outgoing { data, target: None });
    }
    match read_sockaddr_for_domain(d, raw, h.msg_namelen as usize) {
        Ok(a) => Ok(Outgoing { data, target: Some(a) }),
        Err(e) => Err(e),
    }
}

fn read_pieces(count: usize, items: UserIn<Vec<IoVec>>) -> (r: SysResult<Vec<IoVec>>)
    ensures
        match pieces_read(count, items) {
            Err(e) => r is Err && r->Err_0 == e,
            Ok(v) => r is Ok && r->Ok_0@ == v,
        },
{
    if count == 0 {
        return Ok(Vec::new());
    }
    items.read()
}

/// Checks a message to be sent, and tells which it is.
pub fn sys_sendmsg(hdr: UserIn<MsgHdr>, flags: usize, u: Handed) -> (r: SysResult<Outgoing>)
    requires
        header_read(hdr) matches Ok(h) ==> u.wf(h),
    ensures
        is_outgoing(
            match header_read(hdr) {
                Err(e) => Err(e),
                Ok(h) => outgoing(h, flags, u),
            },
            r,
        ),
{
    match read_msghdr(hdr) {
        Err(e) => Err(e),
        Ok(h) => sys_sendmsg_from_hdr(&h, flags, u),
    }
}

/// A message that can be received: its header, its pieces, and how much they hold.
#[derive(Debug)]
pub struct Incoming {
    pub hdr: MsgHdr,
    pub items: Vec<IoVec>,
    pub room: usize,
}

/// Whether a message can be received, and how much its pieces hold.
pub open spec fn incoming(h: MsgHdr, flags: usize, items: UserIn<Vec<IoVec>>) -> SysResult<
    (Seq<IoVec>, usize),
> {
    if h.msg_namelen > 4096 || flags & MSG_OOB != 0 {
        Err(Errno::EINVAL)
    } else if flags & MSG_ERRQUEUE != 0 {
        Err(Errno::EAGAIN)
    } else {
        match pieces_read(h.msg_iovlen, items) {
            Err(e) => Err(e),
            Ok(v) => match pieces_len(v) {
                Err(e) => Err(e),
                Ok(room) => Ok((v, room)),
            },
        }
    }
}

/// The message is the one that is meant, or the error the one that comes first.
pub open spec fn is_incoming(h: MsgHdr, want: SysResult<(Seq<IoVec>, usize)>, r: SysResult<Incoming>) -> bool {
    match want {
        Err(e) => r is Err && r->Err_0 == e,
        Ok((items, room)) => r is Ok && r->Ok_0.hdr == h && r->Ok_0.items@ == items
            && r->Ok_0.room == room,
    }
}

/// Checks a message to be received whose header was read.
pub fn recvmsg_room(h: MsgHdr, flags: usize, items: UserIn<Vec<IoVec>>) -> (r: SysResult<Incoming>)
    ensures
        is_incoming(h, incoming(h, flags, items), r),
{
    if h.msg_namelen > 4096 {
        return Err(Errno::EINVAL);
    }
    if flags & MSG_OOB != 0 {
        return Err(Errno::EINVAL);
    }
    if flags & MSG_ERRQUEUE != 0 {
        return Err(Errno::EAGAIN);
    }
    let v = match read_pieces(h.msg_iovlen, items) {
        Ok(v) => v,
        Err(e) => {
            return Err(e);
        },
    };
    match sum_pieces(&v) {
        Err(e) => Err(e),
        Ok(room) => Ok(Incoming { hdr: h, items: v, room }),
    }
}

/// Checks a message to be received. As many bytes as it has room for are to be
/// received next.
pub fn sys_recvmsg(hdr: UserIn<MsgHdr>, flags: usize, items: UserIn<Vec<IoVec>>) -> (r: SysResult<
    Incoming,
>)
    ensures
        match header_read(hdr) {
            Err(e) => r is Err && r->Err_0 == e,
            Ok(h) => is_incoming(h, incoming(h, flags, items), r),
        },
{
    match read_msghdr(hdr) {
        Err(e) => Err(e),
        Ok(h) => recvmsg_room(h, flags, items),
    }
}

/// A part of a message and the user memory it goes to.
#[derive(Debug, Clone, Copy, PartialEq, Eq, Structural)]
pub struct Chunk {
    pub base: usize,
    pub from: usize,
    pub len: usize,
}

/// The parts of `n` bytes over pieces: each piece is filled before the next.
pub open spec fn chunks(items: Seq<IoVec>, n: int) -> Seq<Chunk>
    decreases items.len(),
{
    if items.len() == 0 {
        Seq::empty()
    } else {
        let rest = chunks(items.drop_last(), n);
        let used = filled(items.drop_last(), n);
        let left = n - used;
        let take = if items.last().len < left {
            items.last().len as int
        } else {
            left
        };
        if take > 0 {
            rest.push(Chunk { base: items.last().base, from: used as usize, len: take as usize })
        } else {
            rest
        }
    }
}

/// How many of `n` bytes go into pieces.
pub open spec fn filled(items: Seq<IoVec>, n: int) -> int {
    if total_len(items) < n {
        total_len(items)
    } else {
        n
    }
}

/// The parts that are written before one cannot be, and whether all can. `places[i]`
/// tells whether the part that goes into piece `i` can be written.
pub open spec fn parts_written(items: Seq<IoVec>, places: Seq<UserOut>, n: int) -> (Seq<Chunk>, bool)
    decreases items.len(),
{
    if items.len() == 0 {
        (Seq::empty(), true)
    } else {
        let (rest, all) = parts_written(items.drop_last(), places.drop_last(), n);
        let used = filled(items.drop_last(), n);
        let left = n - used;
        let take = if items.last().len < left {
            items.last().len as int
        } else {
            left
        };
        if !all || take <= 0 {
            (rest, all)
        } else if places.last() != UserOut::Writable {
            (rest, false)
        } else {
            (
                rest.push(
                    Chunk { base: items.last().base, from: used as usize, len: take as usize },
                ),
                true,
            )
        }
    }
}

/// Where all parts can be written they are those of the whole message.
pub proof fn all_parts_are_written(items: Seq<IoVec>, places: Seq<UserOut>, n: int)
    requires
        places.len() == items.len(),
        parts_written(items, places, n).1,
    ensures
        parts_written(items, places, n).0 == chunks(items, n),
    decreases items.len(),
{
    if items.len() > 0 {
        all_parts_are_written(items.drop_last(), places.drop_last(), n);
    }
}

/// Distributes `n` bytes over pieces: the parts, as far as they can be written, and
/// how many bytes the pieces take.
pub fn scatter_iov_bytes(items: &Vec<IoVec>, places: &Vec<UserOut>, n: usize) -> (r: (
    Vec<Chunk>,
    SysResult<usize>,
))
    requires
        places@.len() == items@.len(),
    ensures
        ({
            let (parts, all) = parts_written(items@, places@, n as int);
            &&& r.0@ == parts
            &&& r.1 == (if all {
                ok(filled(items@, n as int) as usize)
            } else {
                err(Errno::EFAULT)
            })
        }),
{
    let mut out: Vec<Chunk> = Vec::new();
    let mut copied: usize = 0;
    let mut i: usize = 0;
    proof {
        assert(total_len(items@.take(0)) == 0);
    }
    while i < items.len()
        invariant
            i <= items@.len(),
            places@.len() == items@.len(),
            copied <= n,
            copied == filled(items@.take(i as int), n as int),
            parts_written(items@.take(i as int), places@.take(i as int), n as int) == (out@, true),
        decreases items@.len() - i,
    {
        proof {
            assert(items@.take(i + 1).drop_last() =~= items@.take(i as int));
            assert(items@.take(i + 1).last() == items@[i as int]);
            assert(places@.take(i + 1).drop_last() =~= places@.take(i as int));
            assert(places@.take(i + 1).last() == places@[i as int]);
            crate::syscall::rw::total_len_prefix(items@, i as int);
        }
        let left: usize = n - copied;
        let take: usize = if items[i].len < left {
            items[i].len
        } else {
            left
        };
        if take > 0 {
            match places[i] {
                UserOut::Writable => {},
                _ => {
                    proof {
                        unwritten_stays(items@, places@, n as int, i + 1);
                    }
                    return (out, Err(Errno::EFAULT));
                },
            }
            out.push(Chunk { base: items[i].base, from: copied, len: take });
            copied = copied + take;
        }
        i = i + 1;
    }
    proof {
        assert(items@.take(i as int) =~= items@);
        assert(places@.take(i as int) =~= places@);
    }
    (out, Ok(copied))
}

proof fn unwritten_stays(items: Seq<IoVec>, places: Seq<UserOut>, n: int, i: int)
    requires
        0 <= i <= items.len(),
        places.len() == items.len(),
        !parts_written(items.take(i), places.take(i), n).1,
    ensures
        parts_written(items, places, n) == parts_written(items.take(i), places.take(i), n),
    decreases items.len() - i,
{
    if i < items.len() {
        assert(items.take(i + 1).drop_last() =~= items.take(i));
        assert(places.take(i + 1).drop_last() =~= places.take(i));
        unwritten_stays(items, places, n, i + 1);
    } else {
        assert(items.take(i) =~= items);
        assert(places.take(i) =~= places);
    }
}

/// The header after a message was received: the length of the sender's address,
/// no control data and no flags.
pub open spec fn header_after(hdr: MsgHdr, namelen: u32) -> MsgHdr {
    MsgHdr { msg_namelen: namelen, msg_controllen: 0, msg_flags: 0, ..hdr }
}

/// A message that was received: how many bytes its pieces took and its header
/// after that, or why it failed; the parts and the bytes of the name that were
/// written to user memory all the same.
#[derive(Debug)]
pub struct Filled {
    pub ret: SysResult<(usize, MsgHdr)>,
    pub parts: Vec<Chunk>,
    pub name: Vec<u8>,
}

/// What a message that is received comes to: the bytes go to the pieces first, then
/// the sender's address to its place; what cannot be written ends the call.
pub open spec fn is_filled(
    m: Incoming,
    received: SysResult<(usize, SocketAddr)>,
    places: Seq<UserOut>,
    name: UserOut,
    r: Filled,
) -> bool {
    match received {
        Err(e) => {
            &&& r.ret == Err::<(usize, MsgHdr), Errno>(e)
            &&& r.parts@.len() == 0
            &&& r.name@.len() == 0
        },
        Ok((n, from)) => {
            let (parts, all) = parts_written(m.items@, places, n as int);
            &&& r.parts@ == parts
            &&& if !all {
                r.ret == Err::<(usize, MsgHdr), Errno>(Errno::EFAULT) && r.name@.len() == 0
            } else {
                match sockaddr_value(name, m.hdr.msg_namelen as usize, from) {
                    Err(e) => r.ret == Err::<(usize, MsgHdr), Errno>(e) && r.name@.len() == 0,
                    Ok((bytes, len)) => {
                        &&& r.name@ == bytes
                        &&& r.ret == Ok::<(usize, MsgHdr), Errno>(
                            (filled(m.items@, n as int) as usize, header_after(m.hdr, len)),
                        )
                    },
                }
            }
        },
    }
}

/// Takes a message that was received to the pieces of its header and the sender's
/// address to its place. `received` tells how many bytes came and from where,
/// `places` which pieces can be written, `name` where the address goes.
pub fn sys_recvmsg_into_hdr(
    m: &Incoming,
    received: SysResult<(usize, SocketAddr)>,
    places: &Vec<UserOut>,
    name: UserOut,
) -> (r: Filled)
    requires
        places@.len() == m.items@.len(),
    ensures
        is_filled(*m, received, places@, name, r),
{
    let (n, from) = match received {
        Ok(x) => x,
        Err(e) => {
            return Filled { ret: Err(e), parts: Vec::new(), name: Vec::new() };
        },
    };
    let (parts, copied) = scatter_iov_bytes(&m.items, places, n);
    let copied: usize = match copied {
        Ok(c) => c,
        Err(e) => {
            return Filled { ret: Err(e), parts, name: Vec::new() };
        },
    };
    match write_sockaddr_value(name, m.hdr.msg_namelen as usize, from) {
        Err(e) => Filled { ret: Err(e), parts, name: Vec::new() },
        Ok((bytes, len)) => {
            let mut h = m.hdr;
            h.msg_namelen = len;
            h.msg_controllen = 0;
            h.msg_flags = 0;
            Filled { ret: Ok((copied, h)), parts, name: bytes }
        },
    }
}

/// The end of a call that receives a message: what it returns, and what is written
/// to user memory, in this order.
#[derive(Debug)]
pub struct MessageEnd {
    pub ret: SysResult<usize>,
    pub parts: Vec<Chunk>,
    pub name: Vec<u8>,
    pub header: Option<MsgHdr>,
}

/// Ends a call that receives a message: pieces, then the sender's address, then the
/// header are written, and what cannot be written ends the call. `msg` is where the
/// header goes.
pub fn finish_recvmsg(
    m: &Incoming,
    received: SysResult<(usize, SocketAddr)>,
    places: &Vec<UserOut>,
    name: UserOut,
    msg: UserOut,
) -> (r: MessageEnd)
    requires
        places@.len() == m.items@.len(),
    ensures
        exists|f: Filled| {
            &&& #[trigger] is_filled(*m, received, places@, name, f)
            &&& r.parts@ == f.parts@
            &&& r.name@ == f.name@
            &&& match f.ret {
                Err(e) => r.ret == err(e) && r.header is None,
                Ok((n, h)) => if msg != UserOut::Writable {
                    r.ret == err(Errno::EFAULT) && r.header is None
                } else {
                    r.ret == ok(n) && r.header == Some(h)
                },
            }
        },
{
    let f = sys_recvmsg_into_hdr(m, received, places, name);
    let ghost g = f;
    let Filled { ret, parts, name: bytes } = f;
    let end = match ret {
        Err(e) => MessageEnd { ret: Err(e), parts, name: bytes, header: None },
        Ok((n, h)) => match msg {
            UserOut::Writable => MessageEnd { ret: Ok(n), parts, name: bytes, header: Some(h) },
            _ => MessageEnd { ret: Err(Errno::EFAULT), parts, name: bytes, header: None },
        },
    };
    assert(is_filled(*m, received, places@, name, g));
    end
}

/// A received message whose bytes, address and header can all be written is
/// written in full: its pieces take as many bytes as they have room for, the parts
/// are those of the message in order, and that number is returned.
pub proof fn received_messages_are_written_in_full(
    m: Incoming,
    n: usize,
    from: SocketAddr,
    places: Seq<UserOut>,
    name: UserOut,
    r: Filled,
)
    requires
        is_filled(m, Ok((n, from)), places, name, r),
        places.len() == m.items@.len(),
        forall|i: int| 0 <= i < places.len() ==> #[trigger] places[i] == UserOut::Writable,
        name != UserOut::Fault,
    ensures
        r.parts@ == chunks(m.items@, n as int),
        r.ret matches Ok((k, _)) && k == filled(m.items@, n as int),
{
    crate::syscall::rw::total_len_prefix(m.items@, 0);
    writable_parts_are_written(m.items@, places, n as int);
    all_parts_are_written(m.items@, places, n as int);
}

proof fn writable_parts_are_written(items: Seq<IoVec>, places: Seq<UserOut>, n: int)
    requires
        places.len() == items.len(),
        forall|i: int| 0 <= i < places.len() ==> #[trigger] places[i] == UserOut::Writable,
    ensures
        parts_written(items, places, n).1,
    decreases items.len(),
{
    if items.len() > 0 {
        let rest = places.drop_last();
        assert forall|i: int| 0 <= i < rest.len() implies #[trigger] rest[i] == UserOut::Writable by {
            assert(rest[i] == places[i]);
        }
        writable_parts_are_written(items.drop_last(), rest, n);
        assert(places.last() == places[places.len() - 1]);
    }
}

/// Checks a call for several messages that are sent: none is nothing to do.
pub fn sys_sendmmsg(vlen: usize) -> (r: Result<usize, SysResult<usize>>)
    ensures
        r == (if vlen > MSG_IOV_MAX {
            Err::<usize, SysResult<usize>>(err(Errno::EINVAL))
        } else if vlen == 0 {
            Err(ok(0))
        } else {
            Ok(vlen)
        }),
{
    if vlen > MSG_IOV_MAX {
        return Err(Err(Errno::EINVAL));
    }
    if vlen == 0 {
        return Err(Ok(0));
    }
    Ok(vlen)
}

/// How many messages a call asks for.
pub open spec fn several_asked(
    vlen: usize,
    timeout: UserIn<TimeSpec>,
) -> Result<usize, SysResult<usize>> {
    if vlen > MSG_IOV_MAX {
        Err::<usize, SysResult<usize>>(err(Errno::EINVAL))
    } else if timeout is Fault {
        Err(err(Errno::EFAULT))
    } else if timeout is Value && !valid_duration(timeout->Value_0) {
        Err(err(Errno::EINVAL))
    } else if vlen == 0 {
        Err(ok(0))
    } else {
        Ok(vlen)
    }
}

/// Checks a call for several messages that are received. The timeout must be a
/// duration, but does not limit the call.
pub fn sys_recvmmsg(vlen: usize, timeout: UserIn<TimeSpec>) -> (r: Result<usize, SysResult<usize>>)
    ensures
        r == several_asked(vlen, timeout),
{
    if vlen > MSG_IOV_MAX {
        return Err(Err(Errno::EINVAL));
    }
    match timeout {
        UserIn::Null => {},
        UserIn::Fault => {
            return Err(Err(Errno::EFAULT));
        },
        UserIn::Value(t) => {
            if !t.is_valid_duration() {
                return Err(Err(Errno::EINVAL));
            }
        },
    }
    if vlen == 0 {
        return Err(Ok(0));
    }
    Ok(vlen)
}

/// A call for several messages: how many there are and how many are done.
#[derive(Debug, Clone, Copy, PartialEq, Eq, Structural)]
pub struct Messages {
    pub vlen: usize,
    pub done: usize,
}

/// A message among several, and its length.
#[derive(Debug, Clone, Copy, PartialEq, Eq, Structural)]
pub struct MMsgHdr {
    pub msg_hdr: MsgHdr,
    pub msg_len: u32,
}

/// A header of one of several messages that can be used.
pub open spec fn several_read(hdr: UserIn<MMsgHdr>) -> SysResult<MMsgHdr> {
    match read_result(hdr) {
        Err(e) => Err(e),
        Ok(h) => if h.msg_hdr.msg_iovlen > MSG_IOV_MAX {
            Err(Errno::EMSGSIZE)
        } else {
            Ok(h)
        },
    }
}

/// Reads the header of one of several messages.
pub fn read_mmsghdr(hdr: UserIn<MMsgHdr>) -> (r: SysResult<MMsgHdr>)
    ensures
        r == several_read(hdr),
{
    match hdr.read() {
        Err(e) => Err(e),
        Ok(h) => {
            if h.msg_hdr.msg_iovlen > MSG_IOV_MAX {
                return Err(Errno::EMSGSIZE);
            }
            Ok(h)
        },
    }
}

/// What a message among several comes to: the call after it, what the call returns
/// if it ends, and the header that is written back, with the length of the message.
/// A message that fails ends the call with the number of those before it, if there
/// are any; a header that cannot be read or written ends it with that error.
pub open spec fn message_step(
    m: Messages,
    header: SysResult<MMsgHdr>,
    outcome: SysResult<(usize, MsgHdr)>,
    place: UserOut,
) -> (Messages, Option<SysResult<usize>>, Option<MMsgHdr>) {
    match header {
        Err(e) => (m, Some(err(e)), None),
        Ok(_) => match outcome {
            Err(e) => (
                m,
                Some(
                    if m.done > 0 {
                        ok(m.done)
                    } else {
                        err(e)
                    },
                ),
                None,
            ),
            Ok((len, after)) => if place != UserOut::Writable {
                (m, Some(err(Errno::EFAULT)), None)
            } else {
                let done = (m.done + 1) as usize;
                (
                    Messages { done, ..m },
                    if done == m.vlen {
                        Some(ok(done))
                    } else {
                        None
                    },
                    Some(MMsgHdr { msg_hdr: after, msg_len: len as u32 }),
                )
            },
        },
    }
}

impl Messages {
    fn message(
        &mut self,
        header: SysResult<MMsgHdr>,
        outcome: SysResult<(usize, MsgHdr)>,
        place: UserOut,
    ) -> (r: (Option<SysResult<usize>>, Option<MMsgHdr>))
        requires
            old(self).done < old(self).vlen,
        ensures
            (*final(self), r.0, r.1) == message_step(*old(self), header, outcome, place),
    {
        match header {
            Err(e) => {
                return (Some(Err(e)), None);
            },
            Ok(_) => {},
        }
        let (len, after) = match outcome {
            Err(e) => {
                return if self.done > 0 {
                    (Some(Ok(self.done)), None)
                } else {
                    (Some(Err(e)), None)
                };
            },
            Ok(x) => x,
        };
        match place {
            UserOut::Writable => {},
            _ => {
                return (Some(Err(Errno::EFAULT)), None);
            },
        }
        self.done = self.done + 1;
        let back = MMsgHdr { msg_hdr: after, msg_len: len as u32 };
        if self.done == self.vlen {
            (Some(Ok(self.done)), Some(back))
        } else {
            (None, Some(back))
        }
    }

    /// Takes note of a message that was sent. Its header stays as it is but for the
    /// length. `place` is where the header is written back.
    pub fn sent(&mut self, header: UserIn<MMsgHdr>, outcome: SysResult<usize>, place: UserOut) -> (r: (
        Option<SysResult<usize>>,
        Option<MMsgHdr>,
    ))
        requires
            old(self).done < old(self).vlen,
        ensures
            (*final(self), r.0, r.1) == message_step(
                *old(self),
                several_read(header),
                match outcome {
                    Ok(len) => Ok((len, several_read(header)->Ok_0.msg_hdr)),
                    Err(e) => Err(e),
                },
                place,
            ),
    {
        match read_mmsghdr(header) {
            Err(e) => (Some(Err(e)), None),
            Ok(h) => {
                let after: SysResult<(usize, MsgHdr)> = match outcome {
                    Ok(len) => Ok((len, h.msg_hdr)),
                    Err(e) => Err(e),
                };
                self.message(Ok(h), after, place)
            },
        }
    }

    /// Takes note of a message that was received.
    pub fn received(
        &mut self,
        header: UserIn<MMsgHdr>,
        outcome: SysResult<(usize, MsgHdr)>,
        place: UserOut,
    ) -> (r: (Option<SysResult<usize>>, Option<MMsgHdr>))
        requires
            old(self).done < old(self).vlen,
        ensures
            (*final(self), r.0, r.1) == message_step(
                *old(self),
                several_read(header),
                outcome,
                place,
            ),
    {
        let h = read_mmsghdr(header);
        self.message(h, outcome, place)
    }
}

/// A call for several messages from its start: its states, and for each message the
/// header, how it went and where the header is written back.
pub struct MessagesRun {
    pub states: Seq<Messages>,
    pub headers: Seq<SysResult<MMsgHdr>>,
    pub outcomes: Seq<SysResult<(usize, MsgHdr)>>,
    pub places: Seq<UserOut>,
}

impl MessagesRun {
    /// What message `k` comes to.
    pub open spec fn step(self, k: int) -> (Messages, Option<SysResult<usize>>, Option<MMsgHdr>) {
        message_step(self.states[k], self.headers[k], self.outcomes[k], self.places[k])
    }

    /// Message `k` leads to the next state, and only the last one ends the call.
    pub open spec fn step_at(self, k: int) -> bool {
        &&& self.states[k + 1] == self.step(k).0
        &&& k < self.headers.len() - 1 ==> self.step(k).1 is None
    }

    /// The run starts with no message done, and each step follows from the last.
    pub open spec fn valid(self) -> bool {
        &&& self.headers.len() > 0
        &&& self.states.len() == self.headers.len() + 1
        &&& self.outcomes.len() == self.headers.len()
        &&& self.places.len() == self.headers.len()
        &&& 0 < self.states[0].vlen
        &&& self.states[0].done == 0
        &&& forall|k: int| 0 <= k < self.headers.len() ==> #[trigger] self.step_at(k)
    }
}

proof fn messages_are_done_in_turn(r: MessagesRun, k: int)
    requires
        r.valid(),
        0 <= k < r.headers.len(),
    ensures
        r.states[k].done == k,
        r.states[k].vlen == r.states[0].vlen,
        k < r.states[0].vlen,
    decreases k,
{
    if k > 0 {
        assert(r.step_at(k - 1));
        messages_are_done_in_turn(r, k - 1);
    }
}

/// A call for several messages that returns a number has done that many, and has
/// written the header of each of them back with the message's length.
pub proof fn done_messages_are_reported(r: MessagesRun, n: usize, k: int)
    requires
        r.valid(),
        r.step(r.headers.len() - 1).1 == Some(ok(n)),
        0 <= k < n,
    ensures
        n <= r.states[0].vlen,
        k < r.headers.len(),
        r.outcomes[k] is Ok,
        ({
            let (len, after) = r.outcomes[k]->Ok_0;
            r.step(k).2 == Some(MMsgHdr { msg_hdr: after, msg_len: len as u32 })
        }),
{
    let l = r.headers.len() - 1;
    messages_are_done_in_turn(r, l);
    assert(r.step_at(l));
    messages_are_done_in_turn(r, k);
    assert(r.step_at(k));
}

/// Scattered bytes are those of the message in order, without gaps.
pub proof fn chunks_are_contiguous(items: Seq<IoVec>, n: int)
    requires
        0 <= n <= usize::MAX,
    ensures
        ({
            let cs = chunks(items, n);
            &&& forall|i: int| 0 <= i < cs.len() ==> (#[trigger] cs[i]).len > 0
            &&& cs.len() > 0 ==> cs[0].from == 0
            &&& forall|i: int|
                0 <= i < cs.len() - 1 ==> (#[trigger] cs[i]).from + cs[i].len == cs[i + 1].from
            &&& cs.len() > 0 ==> cs.last().from + cs.last().len == filled(items, n)
            &&& cs.len() == 0 ==> filled(items, n) == 0
        }),
    decreases items.len(),
{
    if items.len() > 0 {
        chunks_are_contiguous(items.drop_last(), n);
        crate::syscall::rw::total_len_prefix(items.drop_last(), 0);
        let cs = chunks(items, n);
        let rest = chunks(items.drop_last(), n);
        assert forall|i: int| 0 <= i < cs.len() - 1 implies (#[trigger] cs[i]).from + cs[i].len == cs[i
            + 1].from by {
            if i < rest.len() - 1 {
                assert(cs[i] == rest[i]);
                assert(cs[i + 1] == rest[i + 1]);
            } else {
                assert(cs[i] == rest.last());
            }
        }
    }
}

/// A message has at most 1024 pieces.
pub proof fn messages_have_bounded_pieces(h: MsgHdr, m: MMsgHdr)
    ensures
        header_read(UserIn::Value(h)) == (if h.msg_iovlen > 1024 {
            Err::<MsgHdr, Errno>(Errno::EMSGSIZE)
        } else {
            Ok(h)
        }),
        (several_read(UserIn::Value(m)) is Ok) == (m.msg_hdr.msg_iovlen <= 1024),
        several_read(UserIn::Value(m)) matches Ok(x) ==> x == m,
        header_read(UserIn::<MsgHdr>::Null) is Err && header_read(UserIn::<MsgHdr>::Fault) is Err,
{
}

/// The bytes of a message are those of its pieces one after the other; a piece that cannot be
/// read and is not empty spoils all.
pub proof fn pieces_are_joined_in_order(
    items: Seq<IoVec>,
    pieces: Seq<UserIn<Vec<u8>>>,
    v: IoVec,
    p: UserIn<Vec<u8>>,
)
    requires
        items.len() == pieces.len(),
    ensures
        pieces_data(items, pieces) is None ==> pieces_data(items.push(v), pieces.push(p)) is None,
        pieces_data(items, pieces) matches Some(d) ==> {
            &&& v.len == 0 ==> pieces_data(items.push(v), pieces.push(p)) == Some(d)
            &&& v.len > 0 && !(p is Value) ==> pieces_data(items.push(v), pieces.push(p)) is None
            &&& v.len > 0 ==> (p matches UserIn::Value(b) ==> pieces_data(
                items.push(v),
                pieces.push(p),
            ) == Some(d + b@))
        },
        pieces_data(Seq::empty(), Seq::empty()) == Some(Seq::<u8>::empty()),
{
    assert(items.push(v).drop_last() =~= items);
    assert(pieces.push(p).drop_last() =~= pieces);
}

/// A message goes out whole to the address of its header, or to nobody where that names none.
/// Out-of-band data and the queue of errors cannot be sent.
pub proof fn messages_go_where_their_header_says(h: MsgHdr, flags: usize, u: Handed)
    ensures
        flags & 0x2001 != 0 ==> outgoing(h, flags, u) == Err::<
            (Seq<u8>, Option<SocketAddr>),
            Errno,
        >(Errno::EOPNOTSUPP),
        outgoing(h, flags, u) matches Ok((data, target)) ==> {
            &&& h.msg_name == 0 ==> target is None
            &&& h.msg_name != 0 ==> (target matches Some(a) && (u.domain matches Ok(d)
                && address_read(d, u.raw, h.msg_namelen as usize) == Ok::<SocketAddr, Errno>(a)))
            &&& h.msg_iovlen == 0 ==> data.len() == 0 || u.pieces@.len() > 0
            &&& flags & 0x2001 == 0
        },
{
}

/// Receiving into a message refuses a name over 4096 bytes and out-of-band data, finds the
/// queue of errors empty, and has as much room as the pieces together.
pub proof fn messages_have_the_room_of_their_pieces(h: MsgHdr, flags: usize, v: Vec<IoVec>)
    requires
        h.msg_iovlen > 0,
    ensures
        h.msg_namelen > 4096 || flags & 1 != 0 ==> incoming(h, flags, UserIn::Value(v)) == Err::<
            (Seq<IoVec>, usize),
            Errno,
        >(Errno::EINVAL),
        h.msg_namelen <= 4096 && flags & 1 == 0 && flags & 0x2000 != 0 ==> incoming(
            h,
            flags,
            UserIn::Value(v),
        ) == Err::<(Seq<IoVec>, usize), Errno>(Errno::EAGAIN),
        incoming(h, flags, UserIn::Value(v)) matches Ok((items, room)) ==> items == v@ && room
            == total_len(v@),
        h.msg_namelen <= 4096 && flags & 1 == 0 && flags & 0x2000 == 0 && total_len(v@)
            <= usize::MAX ==> incoming(h, flags, UserIn::Value(v)) is Ok,
{
    lengths_are_not_negative(v@);
}

proof fn lengths_are_not_negative(items: Seq<IoVec>)
    ensures
        total_len(items) >= 0,
    decreases items.len(),
{
    if items.len() > 0 {
        lengths_are_not_negative(items.drop_last());
    }
}

/// The header that is given back has the length of the name, no control data and no flags, and
/// is otherwise the caller's.
pub proof fn headers_come_back_with_their_name(h: MsgHdr, n: u32)
    ensures
        header_after(h, n).msg_namelen == n && header_after(h, n).msg_controllen == 0
            && header_after(h, n).msg_flags == 0,
        header_after(h, n).msg_iovlen == h.msg_iovlen && header_after(h, n).msg_name == h.msg_name,
{
}

/// Each message that was moved counts one and is told its length; the call ends with the last,
/// and an error after the first is kept for later.
pub proof fn messages_are_counted(
    m: Messages,
    h: MMsgHdr,
    len: usize,
    after: MsgHdr,
    e: Errno,
    place: UserOut,
)
    requires
        m.done < m.vlen,
        len <= u32::MAX,
    ensures
        ({
            let s = message_step(m, Ok(h), Ok((len, after)), UserOut::Writable);
            &&& s.0.done == m.done + 1 && s.0.vlen == m.vlen
            &&& s.2 == Some(MMsgHdr { msg_hdr: after, msg_len: len as u32 })
            &&& m.done + 1 == m.vlen ==> s.1 == Some(ok(m.vlen))
            &&& m.done + 1 < m.vlen ==> s.1 is None
        }),
        ({
            let s = message_step(m, Ok(h), Err(e), place);
            &&& s.0 == m && s.2 is None
            &&& m.done > 0 ==> s.1 == Some(ok(m.done))
            &&& m.done == 0 ==> s.1 == Some(err(e))
        }),
        message_step(m, Err(e), Ok((len, after)), place).1 == Some(err(e)),
{
}

/// At most 1024 messages are asked for, within a time that is a duration; none is done at once.
pub proof fn several_messages_are_bounded(vlen: usize, t: TimeSpec)
    ensures
        vlen > 1024 ==> several_asked(vlen, UserIn::Null) == Err::<usize, SysResult<usize>>(
            err(Errno::EINVAL),
        ),
        vlen <= 1024 && (t.sec < 0 || t.nsec < 0 || t.nsec >= 1_000_000_000) ==> several_asked(
            vlen,
            UserIn::Value(t),
        ) == Err::<usize, SysResult<usize>>(err(Errno::EINVAL)),
        0 < vlen <= 1024 ==> several_asked(vlen, UserIn::Null) == Ok::<usize, SysResult<usize>>(
            vlen,
        ),
        several_asked(0, UserIn::Null) == Err::<usize, SysResult<usize>>(ok(0)),
{
}

/// Pieces that cannot be read are a fault, and pieces too long together are invalid.
pub proof fn unreadable_pieces_are_a_fault(items: Seq<IoVec>, pieces: Seq<UserIn<Vec<u8>>>)
    ensures
        total_len(items) > usize::MAX ==> collected(items, pieces) == Err::<Seq<u8>, Errno>(
            Errno::EINVAL,
        ),
        total_len(items) <= usize::MAX && pieces_data(items, pieces) is None ==> collected(
            items,
            pieces,
        ) == Err::<Seq<u8>, Errno>(Errno::EFAULT),
        total_len(items) <= usize::MAX ==> (pieces_data(items, pieces) matches Some(d)
            ==> collected(items, pieces) == Ok::<Seq<u8>, Errno>(d)),
        pieces_read(0, UserIn::Fault) == Ok::<Seq<IoVec>, Errno>(Seq::empty()),
        forall|n: usize| n > 0 ==> #[trigger] pieces_read(n, UserIn::Fault) == Err::<
            Seq<IoVec>,
            Errno,
        >(Errno::EFAULT),
{
}

/// A message of several with too many pieces is too large, and one that cannot be read is a
/// fault.
pub proof fn several_messages_are_checked_alike(m: MMsgHdr)
    ensures
        m.msg_hdr.msg_iovlen > 1024 ==> several_read(UserIn::Value(m)) == Err::<MMsgHdr, Errno>(
            Errno::EMSGSIZE,
        ),
        several_read(UserIn::Fault) == Err::<MMsgHdr, Errno>(Errno::EFAULT),
        header_read(UserIn::Fault) == Err::<MsgHdr, Errno>(Errno::EFAULT),
{
}

} // verus!
