//! The loopback device: every frame that is sent comes back as a received one.

use smoltcp::wire::{Ipv4Packet, TcpPacket};
use std::collections::VecDeque;
use vstd::prelude::*;

verus! {

/// The largest frame.
pub const LOOPBACK_MTU: usize = 3_000_000;

/// The largest number of buffers that are kept for use again.
pub const POOL_LIMIT: usize = 64;

/// The protocol number of streams.
pub const PROTOCOL_TCP: u8 = 6;

/// The length of the header of a packet of version four.
pub open spec fn header_len(f: Seq<u8>) -> int {
    (f[0] % 16) * 4
}

/// The length of a packet of version four.
pub open spec fn total_len(f: Seq<u8>) -> int {
    f[2] * 256 + f[3]
}

/// A frame is long enough for its header and its length as a packet of version
/// four.
pub open spec fn is_ipv4(f: Seq<u8>) -> bool {
    &&& f.len() >= 20
    &&& f.len() >= header_len(f)
    &&& header_len(f) <= total_len(f)
    &&& f.len() >= total_len(f)
}

/// A packet of version four holds something that is long enough for a segment
/// and its header.
pub open spec fn is_segment(f: Seq<u8>) -> bool {
    let n = total_len(f) - header_len(f);
    &&& is_ipv4(f)
    &&& n >= 20
    &&& 20 <= (f[header_len(f) + 12] / 16) * 4 <= n
}

/// The sum of the words of two bytes; a last single byte is the first one of its
/// word.
pub open spec fn word_sum(s: Seq<u8>) -> int
    decreases s.len(),
{
    if s.len() == 0 {
        0
    } else if s.len() == 1 {
        s[0] * 256
    } else {
        s[0] * 256 + s[1] + word_sum(s.skip(2))
    }
}

/// The checksum for a sum of words: the complement of the sum with all its
/// carries added to it.
pub open spec fn checksum_of(sum: int) -> int {
    if sum == 0 {
        0xffff
    } else {
        0xffff - ((sum - 1) % 0xffff + 1)
    }
}

/// Bytes with a word at a place.
pub open spec fn with_word(s: Seq<u8>, at: int, word: int) -> Seq<u8> {
    s.update(at, (word / 256) as u8).update(at + 1, (word % 256) as u8)
}

/// A packet with its checksum over the header filled in.
pub open spec fn header_filled(f: Seq<u8>) -> Seq<u8> {
    let z = with_word(f, 10, 0);
    with_word(z, 10, checksum_of(word_sum(z.take(header_len(f)))))
}

/// The sum over what the checksum of a segment takes in besides the segment: the
/// addresses, the protocol and the length.
pub open spec fn pseudo_sum(f: Seq<u8>) -> int {
    word_sum(f.subrange(12, 16)) + word_sum(f.subrange(16, 20)) + PROTOCOL_TCP + (total_len(f)
        - header_len(f))
}

/// A packet with the checksum over its segment filled in.
pub open spec fn segment_filled(f: Seq<u8>) -> Seq<u8> {
    let at = header_len(f) + 16;
    let z = with_word(f, at, 0);
    let sum = pseudo_sum(f) + word_sum(z.subrange(header_len(f), total_len(f)));
    with_word(z, at, checksum_of(sum))
}

/// `smoltcp::wire::Ipv4Packet::new_checked` and `fill_checksum`: if the frame
/// is long enough for its header and its length fields, the checksum over the
/// header is filled in.
#[verifier::external_body]
fn fill_ipv4_checksum(frame: &mut Vec<u8>) -> (r: bool)
    ensures
        r == is_ipv4(old(frame)@),
        final(frame)@ == (if r {
            header_filled(old(frame)@)
        } else {
            old(frame)@
        }),
{
    match Ipv4Packet::new_checked(&mut frame[..]) {
        Ok(mut packet) => {
            packet.fill_checksum();
            true
        },
        Err(_) => false,
    }
}

/// `smoltcp::wire::Ipv4Packet::new_checked` and `next_header`: the tenth byte of
/// a packet.
#[verifier::external_body]
fn ipv4_protocol(frame: &Vec<u8>) -> (r: Option<u8>)
    ensures
        r == (if is_ipv4(frame@) {
            Some(frame@[9])
        } else {
            None
        }),
{
    Ipv4Packet::new_checked(&frame[..]).ok().map(|packet| packet.next_header().into())
}

/// `smoltcp::wire::TcpPacket::new_checked` on the payload of the packet and
/// `fill_checksum` with its addresses: if the payload is long enough for a
/// segment, the checksum over it is filled in.
#[verifier::external_body]
fn fill_tcp_checksum(frame: &mut Vec<u8>) -> (r: bool)
    ensures
        r == is_segment(old(frame)@),
        final(frame)@ == (if r {
            segment_filled(old(frame)@)
        } else {
            old(frame)@
        }),
{
    let Ok(mut packet) = Ipv4Packet::new_checked(&mut frame[..]) else {
        return false;
    };
    let (src, dst) = (packet.src_addr().into(), packet.dst_addr().into());
    match TcpPacket::new_checked(packet.payload_mut()) {
        Ok(mut segment) => {
            segment.fill_checksum(&src, &dst);
            true
        },
        Err(_) => false,
    }
}

/// A frame with all its checksums filled in.
pub open spec fn finished(f: Seq<u8>) -> Seq<u8> {
    let g = header_filled(f);
    if !is_ipv4(f) {
        f
    } else if f[9] == PROTOCOL_TCP && is_segment(g) {
        segment_filled(g)
    } else {
        g
    }
}

/// Fills in the checksums of a frame: that of a packet of version four, and
/// that of a segment in it. Other frames stay as they are.
pub fn fill_checksums(frame: &mut Vec<u8>)
    ensures
        final(frame)@ == finished(old(frame)@),
        final(frame)@.len() == old(frame)@.len(),
{
    if !fill_ipv4_checksum(frame) {
        return;
    }
    match ipv4_protocol(frame) {
        Some(p) => {
            if p == PROTOCOL_TCP {
                let _ = fill_tcp_checksum(frame);
            }
        },
        None => {},
    }
}

proof fn word_sum_of_update(s: Seq<u8>, at: int, word: int)
    requires
        0 <= at,
        at % 2 == 0,
        at + 1 < s.len(),
        0 <= word <= 0xffff,
    ensures
        word_sum(with_word(s, at, word)) == word_sum(s) - (s[at] * 256 + s[at + 1]) + word,
    decreases at,
{
    let t = with_word(s, at, word);
    if at == 0 {
        assert(t.skip(2) =~= s.skip(2));
    } else {
        assert(t.skip(2) =~= with_word(s.skip(2), at - 2, word));
        word_sum_of_update(s.skip(2), at - 2, word);
    }
}

proof fn word_sum_is_positive(s: Seq<u8>)
    ensures
        word_sum(s) >= 0,
    decreases s.len(),
{
    if s.len() > 1 {
        word_sum_is_positive(s.skip(2));
    }
}

proof fn sums_with_checksum(sum: int)
    requires
        sum >= 0,
    ensures
        0 <= checksum_of(sum) <= 0xffff,
        (sum + checksum_of(sum)) % 0xffff == 0,
{
    if sum > 0 {
        let q = (sum - 1) / 0xffff;
        let r = (sum - 1) % 0xffff;
        assert(sum + checksum_of(sum) == (q + 1) * 0xffff);
        assert(((q + 1) * 0xffff) % 0xffff == 0) by (nonlinear_arith);
    }
}

/// The header of a packet whose checksum was filled in adds up, so that a
/// receiver accepts it.
pub proof fn filled_headers_add_up(f: Seq<u8>)
    requires
        is_ipv4(f),
        header_len(f) >= 12,
    ensures
        header_len(header_filled(f)) == header_len(f),
        word_sum(header_filled(f).take(header_len(f))) % 0xffff == 0,
{
    let n = header_len(f);
    let z = with_word(f, 10, 0);
    let c = checksum_of(word_sum(z.take(n)));
    word_sum_is_positive(z.take(n));
    sums_with_checksum(word_sum(z.take(n)));
    assert(with_word(z, 10, c).take(n) =~= with_word(z.take(n), 10, c));
    word_sum_of_update(z.take(n), 10, c);
}

/// A segment whose checksum was filled in adds up with its addresses, protocol
/// and length, so that a receiver accepts it.
pub proof fn filled_segments_add_up(f: Seq<u8>)
    requires
        is_segment(f),
        header_len(f) >= 20,
    ensures
        ({
            let g = segment_filled(f);
            &&& is_segment(g)
            &&& (pseudo_sum(g) + word_sum(g.subrange(header_len(g), total_len(g)))) % 0xffff == 0
        }),
{
    let a = header_len(f);
    let b = total_len(f);
    let z = with_word(f, a + 16, 0);
    let data = z.subrange(a, b);
    let sum = pseudo_sum(f) + word_sum(data);
    let c = checksum_of(sum);
    let g = segment_filled(f);
    word_sum_is_positive(data);
    word_sum_is_positive(f.subrange(12, 16));
    word_sum_is_positive(f.subrange(16, 20));
    sums_with_checksum(sum);
    assert(g.subrange(a, b) =~= with_word(data, 16, c));
    word_sum_of_update(data, 16, c);
    assert(g.subrange(12, 16) =~= f.subrange(12, 16));
    assert(g.subrange(16, 20) =~= f.subrange(16, 20));
}

/// What a device carries.
#[derive(Debug, Clone, Copy, PartialEq, Eq, Structural)]
pub enum Medium {
    /// Packets.
    Ip,
    /// Frames with hardware addresses.
    Ethernet,
}

/// The frames under way, and buffers that can be used again.
pub struct LoopbackDev {
    pub queue: VecDeque<Vec<u8>>,
    pub pool: Vec<Vec<u8>>,
    pub medium: Medium,
}

/// The frames of a queue.
pub open spec fn frames(q: Seq<Vec<u8>>) -> Seq<Seq<u8>> {
    q.map_values(|v: Vec<u8>| v@)
}

/// A frame of zeros.
pub open spec fn zeros(n: nat) -> Seq<u8> {
    Seq::new(n, |i: int| 0u8)
}

impl LoopbackDev {
    /// At most `POOL_LIMIT` buffers are kept, all of them empty.
    pub open spec fn wf(&self) -> bool {
        &&& self.pool@.len() <= POOL_LIMIT
        &&& forall|i: int| 0 <= i < self.pool@.len() ==> (#[trigger] self.pool@[i])@.len() == 0
    }

    /// A device without frames.
    pub fn new(medium: Medium) -> (r: Self)
        ensures
            r.wf(),
            r.queue@.len() == 0,
            r.pool@.len() == 0,
            r.medium == medium,
    {
        LoopbackDev { queue: VecDeque::new(), pool: Vec::new(), medium }
    }

    /// The largest frame, and what the device carries.
    pub fn capabilities(&self) -> (r: (usize, Medium))
        ensures
            r == (LOOPBACK_MTU, self.medium),
    {
        (LOOPBACK_MTU, self.medium)
    }

    /// A buffer of zeros; one that was kept is used if there is one.
    pub fn take_buf(&mut self, len: usize) -> (r: Vec<u8>)
        requires
            old(self).wf(),
        ensures
            final(self).wf(),
            r@ == zeros(len as nat),
            final(self).queue == old(self).queue,
            final(self).medium == old(self).medium,
            final(self).pool@ == (if old(self).pool@.len() > 0 {
                old(self).pool@.drop_last()
            } else {
                old(self).pool@
            }),
    {
        let ghost before = self.pool@;
        let kept = self.pool.pop();
        let mut buf: Vec<u8> = match kept {
            Some(b) => b,
            None => Vec::new(),
        };
        proof {
            if before.len() > 0 {
                assert(self.pool@ =~= before.drop_last());
                assert(before[before.len() - 1]@.len() == 0);
            }
        }
        let mut i: usize = 0;
        while i < len
            invariant
                i <= len,
                buf@ =~= zeros(i as nat),
            decreases len - i,
        {
            buf.push(0);
            i = i + 1;
        }
        buf
    }

    /// Keeps a buffer for use again, as long as there are not too many.
    pub fn recycle_buf(&mut self, buf: Vec<u8>)
        requires
            old(self).wf(),
        ensures
            final(self).wf(),
            final(self).queue == old(self).queue,
            final(self).medium == old(self).medium,
            frames(final(self).pool@) == (if old(self).pool@.len() < POOL_LIMIT {
                frames(old(self).pool@).push(Seq::empty())
            } else {
                frames(old(self).pool@)
            }),
    {
        let ghost before = self.pool@;
        if self.pool.len() < POOL_LIMIT {
            let mut b = buf;
            b.clear();
            self.pool.push(b);
            proof {
                assert(frames(self.pool@) =~= frames(before).push(Seq::empty()));
            }
        }
    }

    /// Sends a frame: its checksums are filled in, and it joins the queue.
    pub fn transmit(&mut self, frame: Vec<u8>)
        requires
            old(self).wf(),
        ensures
            final(self).wf(),
            final(self).pool == old(self).pool,
            final(self).medium == old(self).medium,
            frames(final(self).queue@) == frames(old(self).queue@).push(finished(frame@)),
    {
        let ghost before = self.queue@;
        let mut f = frame;
        fill_checksums(&mut f);
        let ghost sent = f@;
        self.queue.push_back(f);
        proof {
            assert(frames(self.queue@) =~= frames(before).push(sent));
        }
    }

    /// Receives the frame that was sent first.
    pub fn receive(&mut self) -> (r: Option<Vec<u8>>)
        requires
            old(self).wf(),
        ensures
            final(self).wf(),
            final(self).pool == old(self).pool,
            final(self).medium == old(self).medium,
            match r {
                Some(f) => {
                    &&& old(self).queue@.len() > 0
                    &&& f@ == frames(old(self).queue@)[0]
                    &&& frames(final(self).queue@) == frames(old(self).queue@).drop_first()
                },
                None => old(self).queue@.len() == 0 && final(self).queue@ == old(self).queue@,
            },
    {
        let ghost before = self.queue@;
        let r = self.queue.pop_front();
        proof {
            if before.len() > 0 {
                assert(frames(self.queue@) =~= frames(before).drop_first());
            }
        }
        r
    }
}

/// Frames come back in the order they were sent, the first on an empty device
/// at once.
pub proof fn frames_come_back_in_order(q: Seq<Seq<u8>>, a: Seq<u8>)
    ensures
        q.len() == 0 ==> q.push(a)[0] == a && q.push(a).drop_first() == q,
        q.len() > 0 ==> q.push(a)[0] == q[0] && q.push(a).drop_first() == q.drop_first().push(a),
{
    if q.len() == 0 {
        assert(q.push(a).drop_first() =~= q);
    } else {
        assert(q.push(a).drop_first() =~= q.drop_first().push(a));
    }
}

/// The length of a header is four times the low half of the first byte; the length of a packet
/// is the two bytes at 2, high byte first.
pub proof fn lengths_are_read_in_network_order(f: Seq<u8>, words: u8, total: u16)
    requires
        f.len() >= 4,
        f[0] == 0x40 + words,
        words < 16,
        f[2] == total / 256,
        f[3] == total % 256,
    ensures
        header_len(f) == words * 4,
        total_len(f) == total,
{
}

/// A word is stored high byte first, and nothing else changes.
pub proof fn words_are_stored_high_byte_first(s: Seq<u8>, at: int, word: int, i: int)
    requires
        0 <= at,
        at + 1 < s.len(),
        0 <= word < 0x1_0000,
        0 <= i < s.len(),
    ensures
        with_word(s, at, word).len() == s.len(),
        with_word(s, at, word)[at] * 256 + with_word(s, at, word)[at + 1] == word,
        i != at && i != at + 1 ==> with_word(s, at, word)[i] == s[i],
{
}

/// A checksum is a word that makes the sum that it is of a multiple of 0xffff; the checksum of
/// nothing has all bits set.
pub proof fn checksums_complement_their_sum(sum: int)
    requires
        sum >= 0,
    ensures
        0 <= checksum_of(sum) <= 0xffff,
        sum > 0 ==> (sum + checksum_of(sum)) % 0xffff == 0,
        sum == 0 ==> checksum_of(sum) == 0xffff,
        0 < sum <= 0xffff ==> checksum_of(sum) == 0xffff - sum,
{
    if sum > 0 {
        let k = (sum - 1) / 0xffff;
        assert(sum + checksum_of(sum) == (k + 1) * 0xffff);
        assert(((k + 1) * 0xffff) % 0xffff == 0) by (nonlinear_arith);
    }
}

/// Finishing a packet fills in checksums and changes nothing else of it.
pub proof fn finishing_keeps_the_rest(f: Seq<u8>, i: int)
    requires
        0 <= i < f.len(),
    ensures
        finished(f).len() == f.len(),
        !is_ipv4(f) ==> finished(f) == f,
        is_ipv4(f) && i != 10 && i != 11 && i != header_len(f) + 16 && i != header_len(f) + 17
            ==> finished(f)[i] == f[i],
        is_ipv4(f) && f[9] != 6 && i != 10 && i != 11 ==> finished(f)[i] == f[i],
{
}

/// A sum of words is that of its parts where they are cut between words.
pub proof fn word_sums_add_up(a: Seq<u8>, b: Seq<u8>)
    requires
        a.len() % 2 == 0,
    ensures
        word_sum(a + b) == word_sum(a) + word_sum(b),
    decreases a.len(),
{
    if a.len() == 0 {
        assert(a + b =~= b);
    } else {
        word_sums_add_up(a.skip(2), b);
        assert((a + b).skip(2) =~= a.skip(2) + b);
    }
}

/// Two bytes are a word with its high byte first, and a last odd byte is a high byte.
pub proof fn words_are_summed_high_byte_first(hi: u8, lo: u8)
    ensures
        word_sum(seq![hi, lo]) == hi * 256 + lo,
        word_sum(seq![hi]) == hi * 256,
        word_sum(Seq::empty()) == 0,
{
    reveal_with_fuel(word_sum, 2);
    assert(seq![hi, lo].skip(2) =~= Seq::<u8>::empty());
}

/// A packet is one whose header and whole length fit the frame.
pub proof fn packets_fit_their_frame(f: Seq<u8>)
    ensures
        is_ipv4(f) ==> f.len() >= 20 && header_len(f) <= total_len(f) <= f.len(),
        f.len() >= 20 && header_len(f) <= total_len(f) && total_len(f) <= f.len() ==> is_ipv4(f),
        is_segment(f) ==> is_ipv4(f) && total_len(f) - header_len(f) >= 20,
{
}

} // verus!
