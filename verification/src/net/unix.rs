//! Local sockets: pairs of endpoints with a bounded buffer in each direction,
//! and listeners with a queue of connections.
//!
//! Endpoints and listeners go by numbers. An operation that would wait puts the
//! thread on the list that the other side wakes from, and says so; the caller
//! sleeps and calls again.

use crate::errno::{Errno, SysResult};
use crate::sorted_map::SortedMap;
use std::collections::VecDeque;
use vstd::prelude::*;

verus! {

/// The largest number of bytes under way in one direction.
pub const UNIX_SOCKET_BUFFER_LIMIT: usize = 65536;

/// The largest number of connections that wait to be accepted.
pub const UNIX_LISTEN_QUEUE_LIMIT: usize = 128;

/// The process on the other side.
#[derive(Debug, Clone, Copy, PartialEq, Eq, Structural)]
pub struct UnixPeerCredentials {
    pub pid: usize,
    pub uid: usize,
    pub gid: usize,
}

/// One end of a connection, or a socket that has none yet.
pub struct UnixSocket {
    /// Bytes that the peer has written.
    pub data: VecDeque<u8>,
    /// Threads that wait for bytes.
    pub read_waiters: VecDeque<usize>,
    /// Threads of the peer that wait for room.
    pub write_waiters: VecDeque<usize>,
    pub peer: Option<usize>,
    pub peer_credentials: Option<UnixPeerCredentials>,
    /// Nobody uses this end any more.
    pub closed: bool,
    pub read_shutdown: bool,
    pub write_shutdown: bool,
    pub bound_key: Option<Vec<u8>>,
    pub peer_key: Option<Vec<u8>>,
    pub listener: Option<usize>,
    pub nonblock: bool,
}

/// A queue of connections to a name.
pub struct UnixListener {
    pub key: Vec<u8>,
    pub credentials: UnixPeerCredentials,
    /// Ends that were not accepted yet.
    pub pending: VecDeque<usize>,
    /// Threads that wait to accept.
    pub accept_waiters: VecDeque<usize>,
}

/// All local sockets.
pub struct UnixNet {
    pub ends: SortedMap<UnixSocket>,
    pub listeners: SortedMap<UnixListener>,
    pub next_end: usize,
    pub next_listener: usize,
}

/// What an end holds.
pub struct EndView {
    pub data: Seq<u8>,
    pub readers: Seq<usize>,
    pub writers: Seq<usize>,
    pub peer: Option<usize>,
    pub credentials: Option<UnixPeerCredentials>,
    pub closed: bool,
    pub read_shut: bool,
    pub write_shut: bool,
    pub key: Option<Seq<u8>>,
    pub peer_key: Option<Seq<u8>>,
    pub listener: Option<usize>,
    pub nonblock: bool,
}

/// What a listener holds.
pub struct ListenerView {
    pub key: Seq<u8>,
    pub credentials: UnixPeerCredentials,
    pub pending: Seq<usize>,
    pub waiters: Seq<usize>,
}

/// A name as a sequence of bytes.
pub open spec fn key_view(k: Option<Vec<u8>>) -> Option<Seq<u8>> {
    match k {
        Some(v) => Some(v@),
        None => None,
    }
}

impl View for UnixSocket {
    type V = EndView;

    open spec fn view(&self) -> EndView {
        EndView {
            data: self.data@,
            readers: self.read_waiters@,
            writers: self.write_waiters@,
            peer: self.peer,
            credentials: self.peer_credentials,
            closed: self.closed,
            read_shut: self.read_shutdown,
            write_shut: self.write_shutdown,
            key: key_view(self.bound_key),
            peer_key: key_view(self.peer_key),
            listener: self.listener,
            nonblock: self.nonblock,
        }
    }
}

impl View for UnixListener {
    type V = ListenerView;

    open spec fn view(&self) -> ListenerView {
        ListenerView {
            key: self.key@,
            credentials: self.credentials,
            pending: self.pending@,
            waiters: self.accept_waiters@,
        }
    }
}

/// The ends by their numbers.
pub type Ends = Map<usize, EndView>;

/// The listeners by their numbers.
pub type Listeners = Map<usize, ListenerView>;

/// Connections have two ends that know each other, buffers are bounded, and an
/// end that nobody uses is kept only for its peer.
pub open spec fn ends_ok(m: Ends) -> bool {
    &&& forall|i: usize| #[trigger]
        m.contains_key(i) ==> m[i].data.len() <= UNIX_SOCKET_BUFFER_LIMIT
    &&& forall|i: usize| #[trigger]
        m.contains_key(i) ==> (m[i].peer matches Some(p) ==> p != i && m.contains_key(p) && m[p].peer
            == Some(i))
    &&& forall|i: usize| #[trigger]
        m.contains_key(i) && m[i].closed ==> m[i].peer is Some && !m[m[i].peer->0].closed
}

/// Every end that waits to be accepted exists, is in use and waits once.
pub open spec fn listeners_ok(l: Listeners, m: Ends) -> bool {
    &&& forall|k: usize, i: int|
        #![trigger l[k].pending[i]]
        l.contains_key(k) && 0 <= i < l[k].pending.len() ==> m.contains_key(l[k].pending[i])
            && !m[l[k].pending[i]].closed && m[l[k].pending[i]].listener is None
    &&& forall|k: usize, i: int, q: usize, j: int|
        #![trigger l[k].pending[i], l[q].pending[j]]
        l.contains_key(k) && l.contains_key(q) && 0 <= i < l[k].pending.len() && 0 <= j
            < l[q].pending.len() && l[k].pending[i] == l[q].pending[j] ==> k == q && i == j
    &&& forall|k: usize, q: usize|
        #![trigger l[k].key, l[q].key]
        l.contains_key(k) && l.contains_key(q) && l[k].key == l[q].key ==> k == q
    &&& forall|k: usize| #[trigger]
        l.contains_key(k) ==> l[k].pending.len() <= UNIX_LISTEN_QUEUE_LIMIT
}

/// Listening ends have listeners, each its own.
pub open spec fn owners_ok(m: Ends, l: Listeners) -> bool {
    &&& forall|i: usize| #[trigger]
        m.contains_key(i) ==> (m[i].listener matches Some(k) ==> l.contains_key(k))
    &&& forall|i: usize, j: usize|
        #![trigger m[i].listener, m[j].listener]
        m.contains_key(i) && m.contains_key(j) && m[i].listener is Some && m[i].listener
            == m[j].listener ==> i == j
}

impl UnixNet {
    /// The ends by their numbers.
    pub open spec fn ends(&self) -> Ends {
        Map::new(|i: usize| self.ends@.contains_key(i), |i: usize| self.ends@[i]@)
    }

    /// The listeners by their numbers.
    pub open spec fn listeners(&self) -> Listeners {
        Map::new(|i: usize| self.listeners@.contains_key(i), |i: usize| self.listeners@[i]@)
    }

    pub open spec fn wf(&self) -> bool {
        &&& self.ends.wf()
        &&& self.listeners.wf()
        &&& forall|i: usize| #[trigger] self.ends@.contains_key(i) ==> i < self.next_end
        &&& forall|i: usize| #[trigger] self.listeners@.contains_key(i) ==> i < self.next_listener
        &&& ends_ok(self.ends())
        &&& listeners_ok(self.listeners(), self.ends())
        &&& owners_ok(self.ends(), self.listeners())
    }

    /// Nothing but the ends has changed.
    pub open spec fn only_ends_differ(&self, before: UnixNet) -> bool {
        &&& self.listeners == before.listeners
        &&& self.next_end == before.next_end
        &&& self.next_listener == before.next_listener
    }

    /// No sockets.
    pub fn new() -> (r: Self)
        ensures
            r.wf(),
            r.ends() == Map::<usize, EndView>::empty(),
            r.listeners() == Map::<usize, ListenerView>::empty(),
            r.next_end == 0,
            r.next_listener == 0,
    {
        let r = UnixNet {
            ends: SortedMap::new(),
            listeners: SortedMap::new(),
            next_end: 0,
            next_listener: 0,
        };
        proof {
            assert(r.ends() =~= Map::<usize, EndView>::empty());
            assert(r.listeners() =~= Map::<usize, ListenerView>::empty());
        }
        r
    }

    /// Puts an end in its place.
    fn put(&mut self, i: usize, e: UnixSocket)
        requires
            old(self).ends.wf(),
        ensures
            final(self).only_ends_differ(*old(self)),
            final(self).ends.wf(),
            final(self).ends@ == old(self).ends@.insert(i, e),
            final(self).ends() == old(self).ends().insert(i, e@),
    {
        let ghost before = *self;
        self.ends.insert(i, e);
        proof {
            assert(self.ends() =~= before.ends().insert(i, e@));
        }
    }

    /// Takes an end out.
    fn take(&mut self, i: usize) -> (e: UnixSocket)
        requires
            old(self).ends.wf(),
            old(self).ends().contains_key(i),
        ensures
            final(self).only_ends_differ(*old(self)),
            final(self).ends.wf(),
            final(self).ends@ == old(self).ends@.remove(i),
            final(self).ends() == old(self).ends().remove(i),
            e@ == old(self).ends()[i],
    {
        let ghost before = *self;
        let r = self.ends.remove(i);
        proof {
            assert(self.ends() =~= before.ends().remove(i));
        }
        match r {
            Some(e) => e,
            None => new_end(),
        }
    }

    /// Looks at an end.
    fn end(&self, i: usize) -> (r: &UnixSocket)
        requires
            self.ends.wf(),
            self.ends().contains_key(i),
        ensures
            r@ == self.ends()[i],
    {
        match self.ends.position(i) {
            Some(k) => &self.ends.entries[k].1,
            None => &self.ends.entries[0].1,
        }
    }
}

/// So many new ends and listeners were given numbers.
pub open spec fn numbers_used(a: UnixNet, b: UnixNet, ends: int, listeners: int) -> bool {
    b.next_end == a.next_end + ends && b.next_listener == a.next_listener + listeners
}

/// An end in its first state.
pub open spec fn fresh_end() -> EndView {
    EndView {
        data: Seq::empty(),
        readers: Seq::empty(),
        writers: Seq::empty(),
        peer: None,
        credentials: None,
        closed: false,
        read_shut: false,
        write_shut: false,
        key: None,
        peer_key: None,
        listener: None,
        nonblock: false,
    }
}

fn new_end() -> (r: UnixSocket)
    ensures
        r@ == fresh_end(),
{
    let r = UnixSocket {
        data: VecDeque::new(),
        read_waiters: VecDeque::new(),
        write_waiters: VecDeque::new(),
        peer: None,
        peer_credentials: None,
        closed: false,
        read_shutdown: false,
        write_shutdown: false,
        bound_key: None,
        peer_key: None,
        listener: None,
        nonblock: false,
    };
    r
}

impl UnixNet {
    /// A socket without a connection.
    pub fn socket(&mut self) -> (r: usize)
        requires
            old(self).wf(),
            old(self).next_end < usize::MAX,
        ensures
            final(self).wf(),
            numbers_used(*old(self), *final(self), 1, 0),
            !old(self).ends().contains_key(r),
            final(self).ends() == old(self).ends().insert(r, fresh_end()),
            final(self).listeners() == old(self).listeners(),
    {
        let ghost m0 = self.ends();
        let id: usize = self.next_end;
        self.put(id, new_end());
        self.next_end = id + 1;
        proof {
            assert(!m0.contains_key(id));
            fresh_end_keeps(m0, self.listeners(), id);
        }
        id
    }

    /// Two sockets that are connected with each other. Both see the process that
    /// made them on the other side.
    pub fn pair(&mut self, credentials: UnixPeerCredentials) -> (r: (usize, usize))
        requires
            old(self).wf(),
            old(self).next_end < usize::MAX - 1,
        ensures
            final(self).wf(),
            numbers_used(*old(self), *final(self), 2, 0),
            r.0 != r.1,
            !old(self).ends().contains_key(r.0),
            !old(self).ends().contains_key(r.1),
            final(self).ends() == old(self).ends().insert(
                r.0,
                EndView { peer: Some(r.1), credentials: Some(credentials), ..fresh_end() },
            ).insert(
                r.1,
                EndView { peer: Some(r.0), credentials: Some(credentials), ..fresh_end() },
            ),
            final(self).listeners() == old(self).listeners(),
    {
        let ghost m0 = self.ends();
        let left: usize = self.next_end;
        let right: usize = left + 1;
        let mut a = new_end();
        a.peer = Some(right);
        a.peer_credentials = Some(credentials);
        let mut b = new_end();
        b.peer = Some(left);
        b.peer_credentials = Some(credentials);
        self.put(left, a);
        self.put(right, b);
        self.next_end = right + 1;
        proof {
            assert(!m0.contains_key(left));
            assert(!m0.contains_key(right));
            let m = self.ends();
            let l = self.listeners();
            assert(ends_ok(m)) by {
                assert forall|i: usize| #[trigger] m.contains_key(i) implies (m[i].peer matches Some(
                    p,
                ) ==> p != i && m.contains_key(p) && m[p].peer == Some(i)) by {
                    if i != left && i != right {
                        assert(m0.contains_key(i));
                    }
                }
                assert forall|i: usize| #[trigger] m.contains_key(i) && m[i].closed implies m[i].peer
                    is Some && !m[m[i].peer->0].closed by {
                    assert(m0.contains_key(i));
                    assert(m0.contains_key(m[i].peer->0));
                }
            }
            assert(owners_ok(m, l)) by {
                assert forall|i: usize, j: usize|
                    #![trigger m[i].listener, m[j].listener]
                    m.contains_key(i) && m.contains_key(j) && m[i].listener is Some && m[i].listener
                        == m[j].listener implies i == j by {
                    assert(m0[i].listener == m0[j].listener);
                }
            }
        }
        (left, right)
    }

    pub fn set_nonblocking(&mut self, id: usize, nonblock: bool)
        requires
            old(self).wf(),
            old(self).ends().contains_key(id),
        ensures
            final(self).wf(),
            numbers_used(*old(self), *final(self), 0, 0),
            final(self).ends() == old(self).ends().insert(
                id,
                EndView { nonblock, ..old(self).ends()[id] },
            ),
            final(self).listeners() == old(self).listeners(),
    {
        let ghost m0 = self.ends();
        let mut e = self.take(id);
        e.nonblock = nonblock;
        self.put(id, e);
        proof {
            assert(self.ends() =~= m0.insert(id, EndView { nonblock, ..m0[id] }));
            same_links_keep(m0, self.ends(), self.listeners(), id);
        }
    }

    pub fn is_nonblocking(&self, id: usize) -> (r: bool)
        requires
            self.wf(),
            self.ends().contains_key(id),
        ensures
            r == self.ends()[id].nonblock,
    {
        self.end(id).nonblock
    }

    /// Gives a socket a name; it gets only one.
    pub fn bind_path(&mut self, id: usize, key: &Vec<u8>) -> (r: SysResult<()>)
        requires
            old(self).wf(),
            old(self).ends().contains_key(id),
        ensures
            final(self).wf(),
            numbers_used(*old(self), *final(self), 0, 0),
            final(self).listeners() == old(self).listeners(),
            if old(self).ends()[id].key is Some {
                r == Err::<(), Errno>(Errno::EINVAL) && final(self).ends() == old(self).ends()
            } else {
                r is Ok && final(self).ends() == old(self).ends().insert(
                    id,
                    EndView { key: Some(key@), ..old(self).ends()[id] },
                )
            },
    {
        let ghost m0 = self.ends();
        match self.ensure_unbound(id) {
            Err(e) => {
                return Err(e);
            },
            Ok(_) => {},
        }
        let mut e = self.take(id);
        let k = crate::seqs::copy_range(key.as_slice(), 0, key.len());
        proof {
            assert(k@ =~= key@);
        }
        e.bound_key = Some(k);
        self.put(id, e);
        proof {
            assert(self.ends() =~= m0.insert(id, EndView { key: Some(key@), ..m0[id] }));
            same_links_keep(m0, self.ends(), self.listeners(), id);
        }
        Ok(())
    }

    /// Checks that a socket has no name yet.
    pub fn ensure_unbound(&self, id: usize) -> (r: SysResult<()>)
        requires
            self.wf(),
            self.ends().contains_key(id),
        ensures
            r == (if self.ends()[id].key is Some {
                Err::<(), Errno>(Errno::EINVAL)
            } else {
                Ok(())
            }),
    {
        if self.end(id).bound_key.is_some() {
            Err(Errno::EINVAL)
        } else {
            Ok(())
        }
    }

    /// Tells whether a socket has a connection.
    pub fn is_connected(&self, id: usize) -> (r: bool)
        requires
            self.wf(),
            self.ends().contains_key(id),
        ensures
            r == (self.ends()[id].peer is Some),
    {
        self.end(id).peer.is_some()
    }

    /// The name of a socket.
    pub fn bound_key(&self, id: usize) -> (r: Option<Vec<u8>>)
        requires
            self.wf(),
            self.ends().contains_key(id),
        ensures
            key_view(r) == self.ends()[id].key,
    {
        copy_key(&self.end(id).bound_key)
    }

    /// The name of a socket's peer.
    pub fn peer_key(&self, id: usize) -> (r: Option<Vec<u8>>)
        requires
            self.wf(),
            self.ends().contains_key(id),
        ensures
            key_view(r) == self.ends()[id].peer_key,
    {
        copy_key(&self.end(id).peer_key)
    }

    /// The process on the other side of a connection.
    pub fn peer_credentials(&self, id: usize) -> (r: SysResult<UnixPeerCredentials>)
        requires
            self.wf(),
            self.ends().contains_key(id),
        ensures
            r == (match self.ends()[id].credentials {
                Some(c) => Ok(c),
                None => Err::<UnixPeerCredentials, Errno>(Errno::ENOTCONN),
            }),
    {
        match self.end(id).peer_credentials {
            Some(c) => Ok(c),
            None => Err(Errno::ENOTCONN),
        }
    }
}

fn copy_key(k: &Option<Vec<u8>>) -> (r: Option<Vec<u8>>)
    ensures
        key_view(r) == key_view(*k),
{
    match k {
        Some(v) => {
            let c = crate::seqs::copy_range(v.as_slice(), 0, v.len());
            proof {
                assert(c@ =~= v@);
            }
            Some(c)
        },
        None => None,
    }
}

proof fn fresh_end_keeps(m: Ends, l: Listeners, id: usize)
    requires
        ends_ok(m),
        listeners_ok(l, m),
        owners_ok(m, l),
        !m.contains_key(id),
    ensures
        ends_ok(m.insert(id, fresh_end())),
        listeners_ok(l, m.insert(id, fresh_end())),
        owners_ok(m.insert(id, fresh_end()), l),
{
    let n = m.insert(id, fresh_end());
    assert forall|i: usize| #[trigger] n.contains_key(i) implies (n[i].peer matches Some(p) ==> p != i
        && n.contains_key(p) && n[p].peer == Some(i)) by {
        if i != id {
            assert(m.contains_key(i));
        }
    }
    assert forall|i: usize| #[trigger] n.contains_key(i) && n[i].closed implies n[i].peer is Some && !n[
    n[i].peer->0].closed by {
        assert(m.contains_key(i));
        assert(m.contains_key(n[i].peer->0));
    }
    assert forall|i: usize, j: usize|
        #![trigger n[i].listener, n[j].listener]
        n.contains_key(i) && n.contains_key(j) && n[i].listener is Some && n[i].listener
            == n[j].listener implies i == j by {
        assert(m[i].listener == m[j].listener);
    }
}

/// A change of an end that leaves its links alone keeps everything in order.
proof fn same_links_keep(m: Ends, n: Ends, l: Listeners, id: usize)
    requires
        ends_ok(m),
        listeners_ok(l, m),
        owners_ok(m, l),
        m.contains_key(id),
        n == m.insert(id, n[id]),
        n[id].peer == m[id].peer,
        n[id].closed == m[id].closed,
        n[id].listener == m[id].listener,
        n[id].data.len() <= UNIX_SOCKET_BUFFER_LIMIT,
    ensures
        ends_ok(n),
        listeners_ok(l, n),
        owners_ok(n, l),
{
    assert forall|i: usize| n.contains_key(i) == m.contains_key(i) by {}
    assert forall|i: usize| #[trigger] n.contains_key(i) implies n[i].peer == m[i].peer && n[i].closed
        == m[i].closed && n[i].listener == m[i].listener by {}
    assert forall|i: usize| #[trigger] n.contains_key(i) implies (n[i].peer matches Some(p) ==> p != i
        && n.contains_key(p) && n[p].peer == Some(i)) by {
        assert(m.contains_key(i));
        if n[i].peer is Some {
            assert(m.contains_key(n[i].peer->0));
            assert(n.contains_key(n[i].peer->0));
        }
    }
    assert forall|i: usize| #[trigger] n.contains_key(i) && n[i].closed implies n[i].peer is Some && !n[
    n[i].peer->0].closed by {
        assert(m.contains_key(i));
        assert(n.contains_key(n[i].peer->0));
    }
    assert forall|i: usize, j: usize|
        #![trigger n[i].listener, n[j].listener]
        n.contains_key(i) && n.contains_key(j) && n[i].listener is Some && n[i].listener
            == n[j].listener implies i == j by {
        assert(m[i].listener == m[j].listener);
    }
    assert forall|i: usize| #[trigger] n.contains_key(i) implies (n[i].listener matches Some(k)
        ==> l.contains_key(k)) by {
        assert(m.contains_key(i));
    }
}

fn take_front(q: &mut VecDeque<u8>, n: usize) -> (r: Vec<u8>)
    requires
        n <= old(q)@.len(),
    ensures
        r@ == old(q)@.take(n as int),
        final(q)@ == old(q)@.skip(n as int),
{
    let ghost all = q@;
    let mut out: Vec<u8> = Vec::new();
    let mut i: usize = 0;
    proof {
        assert(all.take(0) =~= Seq::<u8>::empty());
        assert(all.skip(0) =~= all);
    }
    while i < n
        invariant
            i <= n <= all.len(),
            out@ == all.take(i as int),
            q@ == all.skip(i as int),
        decreases n - i,
    {
        match q.pop_front() {
            Some(b) => {
                out.push(b);
            },
            None => {},
        }
        proof {
            assert(out@ =~= all.take(i + 1));
            assert(q@ =~= all.skip(i + 1));
        }
        i = i + 1;
    }
    out
}

fn copy_front(q: &VecDeque<u8>, n: usize) -> (r: Vec<u8>)
    requires
        n <= q@.len(),
    ensures
        r@ == q@.take(n as int),
{
    let mut out: Vec<u8> = Vec::new();
    let mut i: usize = 0;
    while i < n
        invariant
            i <= n <= q@.len(),
            out@ == q@.take(i as int),
        decreases n - i,
    {
        out.push(q[i]);
        proof {
            assert(out@ =~= q@.take(i + 1));
        }
        i = i + 1;
    }
    out
}

fn append_front(q: &mut VecDeque<u8>, buf: &[u8], n: usize)
    requires
        n <= buf@.len(),
    ensures
        final(q)@ == old(q)@ + buf@.take(n as int),
{
    let ghost before = q@;
    let mut i: usize = 0;
    proof {
        assert(before + buf@.take(0) =~= before);
    }
    while i < n
        invariant
            i <= n <= buf@.len(),
            q@ == before + buf@.take(i as int),
        decreases n - i,
    {
        q.push_back(buf[i]);
        proof {
            assert(q@ =~= before + buf@.take(i + 1));
        }
        i = i + 1;
    }
}

/// Threads other than this one.
pub open spec fn other_tid(tid: usize) -> spec_fn(usize) -> bool {
    |t: usize| t != tid
}

fn without(q: &VecDeque<usize>, tid: usize) -> (r: VecDeque<usize>)
    ensures
        r@ == q@.filter(other_tid(tid)),
{
    let mut out: VecDeque<usize> = VecDeque::new();
    let mut i: usize = 0;
    proof {
        reveal(Seq::filter);
        assert(q@.take(0) =~= Seq::<usize>::empty());
    }
    while i < q.len()
        invariant
            i <= q@.len(),
            out@ == q@.take(i as int).filter(other_tid(tid)),
        decreases q@.len() - i,
    {
        proof {
            reveal(Seq::filter);
            assert(q@.take(i + 1).drop_last() =~= q@.take(i as int));
            assert(q@.take(i + 1).last() == q@[i as int]);
        }
        if q[i] != tid {
            out.push_back(q[i]);
        }
        i = i + 1;
    }
    proof {
        assert(q@.take(i as int) =~= q@);
    }
    out
}

/// No more bytes will come: the receiving half was closed, or the peer is gone
/// or has closed its sending half.
pub open spec fn at_eof(m: Ends, id: usize) -> bool {
    m[id].read_shut || m[m[id].peer->0].closed || m[m[id].peer->0].write_shut
}

/// What a read decides.
#[derive(Debug, Clone, Copy, PartialEq, Eq, Structural)]
pub enum ReadDecision {
    /// So many bytes are taken.
    Take(usize),
    Fail(Errno),
    Wait,
}

/// How a read is made.
#[derive(Debug, Clone, Copy, PartialEq, Eq, Structural)]
pub struct ReadRequest {
    pub len: usize,
    /// This call must not wait.
    pub nonblocking: bool,
    /// The bytes stay.
    pub peek: bool,
    /// All bytes must be there, as far as the call may wait.
    pub waitall: bool,
}

/// What a read of a connected end decides. Bytes that are there come first, then
/// the end of the data, then reasons not to wait.
pub open spec fn read_decision(
    e: EndView,
    eof: bool,
    q: ReadRequest,
    timed_out: bool,
    interrupted: bool,
) -> ReadDecision {
    let n = if e.data.len() < q.len {
        e.data.len() as usize
    } else {
        q.len
    };
    let all = q.waitall && !q.nonblocking && !e.nonblock;
    if e.data.len() > 0 && (!all || e.data.len() >= q.len || eof || timed_out) {
        ReadDecision::Take(n)
    } else if eof {
        ReadDecision::Take(0)
    } else if e.nonblock || q.nonblocking || timed_out {
        ReadDecision::Fail(Errno::EAGAIN)
    } else if interrupted {
        if e.data.len() > 0 {
            ReadDecision::Take(n)
        } else {
            ReadDecision::Fail(Errno::EINTR)
        }
    } else {
        ReadDecision::Wait
    }
}

/// The end after bytes were read: taken bytes make room for one writer.
pub open spec fn after_read(e: EndView, n: usize, peek: bool) -> EndView {
    if peek || n == 0 {
        e
    } else {
        EndView {
            data: e.data.skip(n as int),
            writers: if e.writers.len() > 0 {
                e.writers.drop_first()
            } else {
                e.writers
            },
            ..e
        }
    }
}

/// The outcome of a read.
pub enum ReadStep {
    /// Bytes, none at the end of the data; the thread to wake, and whether
    /// those that poll for room are told.
    Data(Vec<u8>, Option<usize>, bool),
    Fail(Errno),
    /// The thread is on the list of readers.
    Wait,
}

/// What a read comes to, given its decision.
pub open spec fn read_done(
    m: Ends,
    id: usize,
    d: ReadDecision,
    peek: bool,
    tid: usize,
    n: Ends,
    r: ReadStep,
) -> bool {
    let e = m[id];
    match d {
        ReadDecision::Take(k) => {
            let consumed = !peek && k > 0;
            &&& n == m.insert(id, after_read(e, k, peek))
            &&& r is Data
            &&& r->Data_0@ == e.data.take(k as int)
            &&& r->Data_1 == if consumed && e.writers.len() > 0 {
                Some(e.writers[0])
            } else {
                None
            }
            &&& r->Data_2 == consumed
        },
        ReadDecision::Fail(x) => n == m && r == ReadStep::Fail(x),
        ReadDecision::Wait => n == m.insert(id, EndView { readers: e.readers.push(tid), ..e }) && r
            == ReadStep::Wait,
    }
}

/// Whether a read that waited goes on with `r`.
pub open spec fn read_went_on(
    before: Ends,
    after: Ends,
    id: usize,
    q: ReadRequest,
    waited: SysResult<bool>,
    tid: usize,
    r: Option<ReadStep>,
) -> bool {
    ({
        let m = before.insert(
            id,
            EndView {
                readers: before[id].readers.filter(other_tid(tid)),
                ..before[id]
            },
        );
        let now = ReadRequest { nonblocking: true, waitall: false, ..q };
        let d = read_decision(m[id], at_eof(m, id), now, false, false);
        match waited {
            Ok(false) => r is None && after == m,
            Ok(true) => r is Some && read_done(
                m,
                id,
                d,
                q.peek,
                tid,
                after,
                r->0,
            ),
            Err(e) => r is Some && read_done(
                m,
                id,
                match d {
                    ReadDecision::Take(n) => ReadDecision::Take(n),
                    _ => ReadDecision::Fail(e),
                },
                q.peek,
                tid,
                after,
                r->0,
            ),
        }
    })
}

impl UnixNet {
    /// Reads from a socket.
    pub fn read(&mut self, id: usize, q: ReadRequest, timed_out: bool, interrupted: bool, tid: usize) -> (r:
        ReadStep)
        requires
            old(self).wf(),
            old(self).ends().contains_key(id),
        ensures
            final(self).wf(),
            numbers_used(*old(self), *final(self), 0, 0),
            final(self).listeners() == old(self).listeners(),
            read_called(old(self).ends(), id, q, timed_out, interrupted, tid, final(self).ends(), r),
    {
        if q.len == 0 {
            return ReadStep::Data(Vec::new(), None, false);
        }
        let ghost m0 = self.ends();
        let peer: usize = match self.end(id).peer {
            Some(p) => p,
            None => {
                return ReadStep::Fail(Errno::ENOTCONN);
            },
        };
        let gone = self.end(peer).closed || self.end(peer).write_shutdown;
        let own = self.end(id);
        let eof = own.read_shutdown || gone;
        let all = q.waitall && !q.nonblocking && !own.nonblock;
        let have: usize = own.data.len();
        let n: usize = if have < q.len {
            have
        } else {
            q.len
        };
        if have > 0 && (!all || have >= q.len || eof || timed_out) {
            return self.take_bytes(id, n, q.peek, tid);
        }
        if eof {
            return self.take_bytes(id, 0, q.peek, tid);
        }
        if own.nonblock || q.nonblocking || timed_out {
            return ReadStep::Fail(Errno::EAGAIN);
        }
        if interrupted {
            if have > 0 {
                return self.take_bytes(id, n, q.peek, tid);
            }
            return ReadStep::Fail(Errno::EINTR);
        }
        let mut e = self.take(id);
        e.read_waiters.push_back(tid);
        self.put(id, e);
        proof {
            assert(self.ends() =~= m0.insert(
                id,
                EndView { readers: m0[id].readers.push(tid), ..m0[id] },
            ));
            same_links_keep(m0, self.ends(), self.listeners(), id);
        }
        ReadStep::Wait
    }

    fn take_bytes(&mut self, id: usize, n: usize, peek: bool, tid: usize) -> (r: ReadStep)
        requires
            old(self).wf(),
            old(self).ends().contains_key(id),
            n <= old(self).ends()[id].data.len(),
        ensures
            final(self).wf(),
            numbers_used(*old(self), *final(self), 0, 0),
            final(self).listeners() == old(self).listeners(),
            read_done(
                old(self).ends(),
                id,
                ReadDecision::Take(n),
                peek,
                tid,
                final(self).ends(),
                r,
            ),
    {
        let ghost m0 = self.ends();
        if peek || n == 0 {
            let data = copy_front(&self.end(id).data, n);
            proof {
                assert(m0.insert(id, m0[id]) =~= m0);
            }
            return ReadStep::Data(data, None, false);
        }
        let mut e = self.take(id);
        let data = take_front(&mut e.data, n);
        let wake = e.write_waiters.pop_front();
        let ghost v = e@;
        self.put(id, e);
        proof {
            let f = after_read(m0[id], n, peek);
            if m0[id].writers.len() > 0 {
                assert(v.writers =~= f.writers);
            }
            assert(v == f);
            assert(self.ends() =~= m0.insert(id, f));
            same_links_keep(m0, self.ends(), self.listeners(), id);
        }
        ReadStep::Data(data, wake, true)
    }

    /// Goes on after a wait to read: `waited` tells whether the time is up, or
    /// that the wait was interrupted. The thread leaves the list of readers.
    /// Bytes that have come meanwhile are taken in any case; without any the
    /// time is up with `EAGAIN`. Nothing is returned if the read starts again.
    pub fn read_resumed(&mut self, id: usize, q: ReadRequest, waited: SysResult<bool>, tid: usize) -> (r:
        Option<ReadStep>)
        requires
            old(self).wf(),
            old(self).ends().contains_key(id),
            old(self).ends()[id].peer is Some,
            q.len > 0,
        ensures
            final(self).wf(),
            numbers_used(*old(self), *final(self), 0, 0),
            final(self).listeners() == old(self).listeners(),
            read_went_on(old(self).ends(), final(self).ends(), id, q, waited, tid, r),
    {
        let ghost m0 = self.ends();
        let mut e = self.take(id);
        e.read_waiters = without(&e.read_waiters, tid);
        let ghost v = e@;
        self.put(id, e);
        proof {
            assert(self.ends() =~= m0.insert(
                id,
                EndView { readers: m0[id].readers.filter(other_tid(tid)), ..m0[id] },
            ));
            same_links_keep(m0, self.ends(), self.listeners(), id);
        }
        let now = ReadRequest { len: q.len, nonblocking: true, peek: q.peek, waitall: false };
        match waited {
            Ok(timed_out) => {
                if timed_out {
                    Some(self.read(id, now, false, false, tid))
                } else {
                    None
                }
            },
            Err(x) => match self.read(id, now, false, false, tid) {
                ReadStep::Data(b, w, p) => Some(ReadStep::Data(b, w, p)),
                _ => Some(ReadStep::Fail(x)),
            },
        }
    }
}

/// What a write decides.
#[derive(Debug, Clone, Copy, PartialEq, Eq, Structural)]
pub enum WriteDecision {
    /// So many bytes are accepted.
    Put(usize),
    Fail(Errno),
    Wait,
}

/// What a write to a connected peer decides. Nothing is written to a peer that
/// is gone or does not receive any more.
pub open spec fn write_decision(
    m: Ends,
    id: usize,
    len: nat,
    nonblocking: bool,
    timed_out: bool,
    interrupted: bool,
) -> WriteDecision {
    let e = m[id];
    let p = m[e.peer->0];
    let room = UNIX_SOCKET_BUFFER_LIMIT - p.data.len();
    if e.write_shut || p.closed || p.read_shut {
        WriteDecision::Fail(Errno::EPIPE)
    } else if room > 0 {
        WriteDecision::Put(
            if room < len {
                room as usize
            } else {
                len as usize
            },
        )
    } else if e.nonblock || nonblocking || timed_out {
        WriteDecision::Fail(Errno::EAGAIN)
    } else if interrupted {
        WriteDecision::Fail(Errno::EINTR)
    } else {
        WriteDecision::Wait
    }
}

/// The outcome of a write.
#[derive(Debug, Clone, Copy, PartialEq, Eq, Structural)]
pub enum WriteStep {
    /// So many bytes were accepted; the thread to wake. Those that poll for
    /// bytes are told.
    Written(usize, Option<usize>),
    Fail(Errno),
    /// The thread is on the list of writers.
    Wait,
}

/// What a write comes to, given its decision.
pub open spec fn write_done(
    m: Ends,
    peer: usize,
    d: WriteDecision,
    buf: Seq<u8>,
    tid: usize,
    n: Ends,
    r: WriteStep,
) -> bool {
    let p = m[peer];
    match d {
        WriteDecision::Put(k) => {
            &&& n == m.insert(
                peer,
                EndView {
                    data: p.data + buf.take(k as int),
                    readers: if p.readers.len() > 0 {
                        p.readers.drop_first()
                    } else {
                        p.readers
                    },
                    ..p
                },
            )
            &&& r == WriteStep::Written(
                k,
                if p.readers.len() > 0 {
                    Some(p.readers[0])
                } else {
                    None
                },
            )
        },
        WriteDecision::Fail(x) => n == m && r == WriteStep::Fail(x),
        WriteDecision::Wait => n == m.insert(peer, EndView { writers: p.writers.push(tid), ..p }) && r
            == WriteStep::Wait,
    }
}

/// Whether a wait ends a call with `r`.
pub open spec fn wait_result(waited: SysResult<bool>, r: Option<Errno>) -> bool {
    r == (match waited {
        Ok(timed_out) => if timed_out {
            Some(Errno::EAGAIN)
        } else {
            None
        },
        Err(e) => Some(e),
    })
}

impl UnixNet {
    /// Writes to the peer of a socket.
    pub fn write(
        &mut self,
        id: usize,
        buf: &[u8],
        nonblocking: bool,
        timed_out: bool,
        interrupted: bool,
        tid: usize,
    ) -> (r: WriteStep)
        requires
            old(self).wf(),
            old(self).ends().contains_key(id),
        ensures
            final(self).wf(),
            numbers_used(*old(self), *final(self), 0, 0),
            final(self).listeners() == old(self).listeners(),
            write_called(
                old(self).ends(),
                id,
                buf@,
                nonblocking,
                timed_out,
                interrupted,
                tid,
                final(self).ends(),
                r,
            ),
    {
        if buf.len() == 0 {
            return WriteStep::Written(0, None);
        }
        let ghost m0 = self.ends();
        let own = self.end(id);
        let shut = own.write_shutdown;
        let stays = own.nonblock || nonblocking || timed_out;
        let peer: usize = match own.peer {
            Some(p) => p,
            None => {
                return WriteStep::Fail(Errno::ENOTCONN);
            },
        };
        let other = self.end(peer);
        if shut || other.closed || other.read_shutdown {
            return WriteStep::Fail(Errno::EPIPE);
        }
        let used: usize = other.data.len();
        let room: usize = UNIX_SOCKET_BUFFER_LIMIT - used;
        if room > 0 {
            let n: usize = if room < buf.len() {
                room
            } else {
                buf.len()
            };
            let mut e = self.take(peer);
            append_front(&mut e.data, buf, n);
            let wake = e.read_waiters.pop_front();
            let ghost v = e@;
            self.put(peer, e);
            proof {
                let p = m0[peer];
                let f = EndView {
                    data: p.data + buf@.take(n as int),
                    readers: if p.readers.len() > 0 {
                        p.readers.drop_first()
                    } else {
                        p.readers
                    },
                    ..p
                };
                assert(v.readers =~= f.readers);
                assert(v == f);
                assert(self.ends() =~= m0.insert(peer, f));
                same_links_keep(m0, self.ends(), self.listeners(), peer);
            }
            return WriteStep::Written(n, wake);
        }
        if stays {
            return WriteStep::Fail(Errno::EAGAIN);
        }
        if interrupted {
            return WriteStep::Fail(Errno::EINTR);
        }
        let mut e = self.take(peer);
        e.write_waiters.push_back(tid);
        self.put(peer, e);
        proof {
            assert(self.ends() =~= m0.insert(
                peer,
                EndView { writers: m0[peer].writers.push(tid), ..m0[peer] },
            ));
            same_links_keep(m0, self.ends(), self.listeners(), peer);
        }
        WriteStep::Wait
    }

    /// Goes on after a wait to write: `waited` tells whether the time is up, or
    /// that the wait was interrupted. The thread leaves the list of writers.
    /// Nothing is returned if the write starts again.
    pub fn write_resumed(&mut self, id: usize, waited: SysResult<bool>, tid: usize) -> (r: Option<Errno>)
        requires
            old(self).wf(),
            old(self).ends().contains_key(id),
            old(self).ends()[id].peer is Some,
        ensures
            final(self).wf(),
            numbers_used(*old(self), *final(self), 0, 0),
            final(self).listeners() == old(self).listeners(),
            ({
                let peer = old(self).ends()[id].peer->0;
                final(self).ends() == old(self).ends().insert(
                    peer,
                    EndView {
                        writers: old(self).ends()[peer].writers.filter(other_tid(tid)),
                        ..old(self).ends()[peer]
                    },
                )
            }),
            wait_result(waited, r),
    {
        let ghost m0 = self.ends();
        match self.end(id).peer {
            Some(peer) => {
                let mut e = self.take(peer);
                e.write_waiters = without(&e.write_waiters, tid);
                self.put(peer, e);
                proof {
                    assert(self.ends() =~= m0.insert(
                        peer,
                        EndView { writers: m0[peer].writers.filter(other_tid(tid)), ..m0[peer] },
                    ));
                    same_links_keep(m0, self.ends(), self.listeners(), peer);
                }
            },
            None => {},
        }
        match waited {
            Ok(timed_out) => if timed_out {
                Some(Errno::EAGAIN)
            } else {
                None
            },
            Err(e) => Some(e),
        }
    }

    /// Tells whether a read would not wait.
    pub fn read_ready(&self, id: usize) -> (r: bool)
        requires
            self.wf(),
            self.ends().contains_key(id),
        ensures
            r == can_read(self.ends(), self.listeners(), id),
    {
        let e = self.end(id);
        if e.read_shutdown || e.data.len() > 0 {
            return true;
        }
        match e.peer {
            Some(p) => {
                let o = self.end(p);
                if o.closed || o.write_shutdown {
                    return true;
                }
            },
            None => {},
        }
        match e.listener {
            Some(l) => match self.listeners.get(l) {
                Some(x) => x.pending.len() > 0,
                None => false,
            },
            None => false,
        }
    }

    /// Tells whether a write would not wait.
    pub fn write_ready(&self, id: usize) -> (r: bool)
        requires
            self.wf(),
            self.ends().contains_key(id),
        ensures
            r == can_write(self.ends(), id),
    {
        let e = self.end(id);
        if e.write_shutdown {
            return true;
        }
        match e.peer {
            Some(p) => {
                let o = self.end(p);
                o.closed || o.read_shutdown || o.data.len() < UNIX_SOCKET_BUFFER_LIMIT
            },
            None => false,
        }
    }

    /// Tells whether the peer is gone.
    pub fn poll_hup(&self, id: usize) -> (r: bool)
        requires
            self.wf(),
            self.ends().contains_key(id),
        ensures
            r == (self.ends()[id].peer matches Some(p) && self.ends()[p].closed),
    {
        match self.end(id).peer {
            Some(p) => self.end(p).closed,
            None => false,
        }
    }
}

/// A read would not wait: there are bytes or no more will come, or a connection
/// waits to be accepted.
pub open spec fn can_read(m: Ends, l: Listeners, id: usize) -> bool {
    let e = m[id];
    ||| e.read_shut
    ||| e.data.len() > 0
    ||| (e.peer matches Some(p) && (m[p].closed || m[p].write_shut))
    ||| (e.listener matches Some(k) && l[k].pending.len() > 0)
}

/// A write would not wait: there is room, or it would fail.
pub open spec fn can_write(m: Ends, id: usize) -> bool {
    let e = m[id];
    ||| e.write_shut
    ||| (e.peer matches Some(p) && (m[p].closed || m[p].read_shut || m[p].data.len()
        < UNIX_SOCKET_BUFFER_LIMIT))
}

/// Which lists of pollers an event concerns.
#[derive(Debug, Clone, Copy, PartialEq, Eq, Structural)]
pub enum PollTarget {
    /// Those at the buffer of an end.
    Buffer(usize),
    /// Those at a listener.
    Listener(usize),
}

/// Events that can be polled for.
#[derive(Debug, Clone, Copy, PartialEq, Eq, Structural)]
pub struct PollEvents {
    pub read: bool,
    pub write: bool,
    pub hup: bool,
}

impl UnixNet {
    /// Where a thread that polls a socket has to be put down, and for what:
    /// bytes and the end come to the own buffer, room to that of the peer,
    /// connections to the listener.
    pub fn register_poll_waiter(&self, id: usize, events: PollEvents) -> (r: Vec<
        (PollTarget, PollEvents),
    >)
        requires
            self.wf(),
            self.ends().contains_key(id),
        ensures
            r@ == poll_places(self.ends()[id], id, events),
    {
        let e = self.end(id);
        let mut out: Vec<(PollTarget, PollEvents)> = Vec::new();
        out.push(
            (
                PollTarget::Buffer(id),
                PollEvents { read: events.read, write: false, hup: events.hup },
            ),
        );
        match e.peer {
            Some(p) => {
                out.push(
                    (
                        PollTarget::Buffer(p),
                        PollEvents { read: false, write: events.write, hup: false },
                    ),
                );
            },
            None => {},
        }
        if events.read {
            match e.listener {
                Some(l) => {
                    out.push(
                        (
                            PollTarget::Listener(l),
                            PollEvents { read: true, write: false, hup: false },
                        ),
                    );
                },
                None => {},
            }
        }
        proof {
            assert(out@ =~= poll_places(self.ends()[id], id, events));
        }
        out
    }

    /// Where a thread that polled a socket has to be struck off.
    pub fn unregister_poll_waiter(&self, id: usize) -> (r: Vec<PollTarget>)
        requires
            self.wf(),
            self.ends().contains_key(id),
        ensures
            r@ == seq![PollTarget::Buffer(id)] + (match self.ends()[id].peer {
                Some(p) => seq![PollTarget::Buffer(p)],
                None => Seq::empty(),
            }) + (match self.ends()[id].listener {
                Some(l) => seq![PollTarget::Listener(l)],
                None => Seq::empty(),
            }),
    {
        let e = self.end(id);
        let mut out: Vec<PollTarget> = Vec::new();
        out.push(PollTarget::Buffer(id));
        match e.peer {
            Some(p) => {
                out.push(PollTarget::Buffer(p));
            },
            None => {},
        }
        match e.listener {
            Some(l) => {
                out.push(PollTarget::Listener(l));
            },
            None => {},
        }
        proof {
            assert(out@ =~= seq![PollTarget::Buffer(id)] + (match self.ends()[id].peer {
                Some(p) => seq![PollTarget::Buffer(p)],
                None => Seq::empty(),
            }) + (match self.ends()[id].listener {
                Some(l) => seq![PollTarget::Listener(l)],
                None => Seq::empty(),
            }));
        }
        out
    }
}

/// Where a thread that polls a socket has to be put down, and for what.
pub open spec fn poll_places(e: EndView, id: usize, events: PollEvents) -> Seq<
    (PollTarget, PollEvents),
> {
    let own = seq![
        (
            PollTarget::Buffer(id),
            PollEvents { read: events.read, write: false, hup: events.hup },
        ),
    ];
    let peer = match e.peer {
        Some(p) => seq![
            (
                PollTarget::Buffer(p),
                PollEvents { read: false, write: events.write, hup: false },
            ),
        ],
        None => Seq::empty(),
    };
    let queue = match e.listener {
        Some(l) => if events.read {
            seq![
                (
                    PollTarget::Listener(l),
                    PollEvents { read: true, write: false, hup: false },
                ),
            ]
        } else {
            Seq::empty()
        },
        None => Seq::empty(),
    };
    own + peer + queue
}

/// Ends after a shutdown. Closing the receiving half throws away what is there;
/// every thread that waits on a half that is closed is woken.
pub open spec fn shut_down(m: Ends, id: usize, how: usize) -> Ends {
    let e = m[id];
    let p = m[e.peer->0];
    let e1 = if how == 1 {
        e
    } else {
        EndView {
            read_shut: true,
            data: Seq::empty(),
            readers: Seq::empty(),
            writers: Seq::empty(),
            ..e
        }
    };
    if how == 0 {
        m.insert(id, e1)
    } else {
        m.insert(id, EndView { write_shut: true, ..e1 }).insert(
            e.peer->0,
            EndView { readers: Seq::empty(), writers: Seq::empty(), ..p },
        )
    }
}

/// The threads that a shutdown wakes.
pub open spec fn shutdown_wakes(m: Ends, id: usize, how: usize) -> Seq<usize> {
    let e = m[id];
    let p = m[e.peer->0];
    (if how == 1 {
        Seq::empty()
    } else {
        e.writers + e.readers
    }) + (if how == 0 {
        Seq::empty()
    } else {
        p.readers + p.writers
    })
}

impl UnixNet {
    /// Closes the receiving half (0), the sending half (1) or both (2) of a
    /// connection and returns the threads to wake. Those that poll the buffers
    /// concerned are told of everything.
    pub fn shutdown(&mut self, id: usize, how: usize) -> (r: SysResult<VecDeque<usize>>)
        requires
            old(self).wf(),
            old(self).ends().contains_key(id),
            how <= 2,
        ensures
            final(self).wf(),
            numbers_used(*old(self), *final(self), 0, 0),
            final(self).listeners() == old(self).listeners(),
            if old(self).ends()[id].peer is None {
                r is Err && r->Err_0 == Errno::ENOTCONN && final(self).ends() == old(self).ends()
            } else {
                &&& r is Ok
                &&& r->Ok_0@ == shutdown_wakes(old(self).ends(), id, how)
                &&& final(self).ends() == shut_down(old(self).ends(), id, how)
            },
    {
        let ghost m0 = self.ends();
        let peer: usize = match self.end(id).peer {
            Some(p) => p,
            None => {
                return Err(Errno::ENOTCONN);
            },
        };
        let mut wake: VecDeque<usize> = VecDeque::new();
        let mut e = self.take(id);
        if how == 0 || how == 2 {
            e.read_shutdown = true;
            e.data.clear();
            wake.append(&mut e.write_waiters);
            wake.append(&mut e.read_waiters);
        }
        if how == 1 || how == 2 {
            e.write_shutdown = true;
        }
        let ghost v = e@;
        self.put(id, e);
        proof {
            assert(self.ends() =~= m0.insert(id, v));
            same_links_keep(m0, self.ends(), self.listeners(), id);
        }
        let ghost m1 = self.ends();
        if how == 1 || how == 2 {
            let mut o = self.take(peer);
            wake.append(&mut o.read_waiters);
            wake.append(&mut o.write_waiters);
            let ghost w = o@;
            self.put(peer, o);
            proof {
                assert(self.ends() =~= m1.insert(peer, w));
                same_links_keep(m1, self.ends(), self.listeners(), peer);
            }
        }
        proof {
            assert(wake@ =~= shutdown_wakes(m0, id, how));
            assert(self.ends() =~= shut_down(m0, id, how));
        }
        Ok(wake)
    }
}

/// What one side writes, the other reads: written bytes are the last in the
/// peer's buffer, and a read takes the first.
pub proof fn bytes_arrive_in_order(m: Ends, id: usize, buf: Seq<u8>, k: usize, tid: usize, n: Ends, r: WriteStep)
    requires
        ends_ok(m),
        m.contains_key(id),
        m[id].peer is Some,
        k <= buf.len(),
        write_done(m, m[id].peer->0, WriteDecision::Put(k), buf, tid, n, r),
    ensures
        n[m[id].peer->0].data == m[m[id].peer->0].data + buf.take(k as int),
        n[id].data == m[id].data,
        m[m[id].peer->0].data.len() == 0 && k == buf.len() ==> n[m[id].peer->0].data.take(
            k as int,
        ) == buf,
{
    let p = m[id].peer->0;
    assert(m.contains_key(p));
    assert(n[p].data == m[p].data + buf.take(k as int));
    if m[p].data.len() == 0 && k == buf.len() {
        assert(n[p].data.take(k as int) =~= buf);
    }
}

/// Taking bytes twice is taking them at once, so no byte is read twice or lost.
pub proof fn reads_split_the_stream(e: EndView, a: usize, b: usize)
    requires
        a + b <= e.data.len(),
        a > 0,
        b > 0,
    ensures
        e.data.take(a as int) + after_read(e, a, false).data.take(b as int) == e.data.take(a + b),
        after_read(after_read(e, a, false), b, false).data == e.data.skip(a + b),
        after_read(e, a, true) == e,
{
    let f = after_read(e, a, false);
    assert(e.data.take(a as int) + f.data.take(b as int) =~= e.data.take(a + b));
    assert(after_read(f, b, false).data =~= e.data.skip(a + b));
}

/// The end of the data is reported only when every byte was read.
pub proof fn end_of_data_comes_last(
    e: EndView,
    eof: bool,
    q: ReadRequest,
    timed_out: bool,
    interrupted: bool,
)
    requires
        q.len > 0,
        read_decision(e, eof, q, timed_out, interrupted) == ReadDecision::Take(0),
    ensures
        eof && e.data.len() == 0,
{
}

/// A socket that polls as readable does not make a reader wait, unless the
/// reader insists on more bytes than there are, and one that polls as writable
/// does not make a writer wait.
pub proof fn ready_ends_do_not_wait(
    m: Ends,
    l: Listeners,
    id: usize,
    q: ReadRequest,
    len: nat,
    timed_out: bool,
    interrupted: bool,
)
    requires
        ends_ok(m),
        m.contains_key(id),
        m[id].peer is Some,
        m[id].listener is None,
    ensures
        can_read(m, l, id) && !q.waitall ==> read_decision(
            m[id],
            at_eof(m, id),
            q,
            timed_out,
            interrupted,
        ) is Take,
        can_write(m, id) ==> write_decision(m, id, len, q.nonblocking, timed_out, interrupted)
            != WriteDecision::Wait,
{
}

/// A listener has this name.
pub open spec fn listens_as(l: Listeners, key: Seq<u8>, k: usize) -> bool {
    l.contains_key(k) && l[k].key == key
}

fn same_bytes(a: &Vec<u8>, b: &Vec<u8>) -> (r: bool)
    ensures
        r == (a@ == b@),
{
    if a.len() != b.len() {
        return false;
    }
    let mut i: usize = 0;
    while i < a.len()
        invariant
            i <= a@.len(),
            a@.len() == b@.len(),
            forall|j: int| 0 <= j < i ==> a@[j] == b@[j],
        decreases a@.len() - i,
    {
        if a[i] != b[i] {
            return false;
        }
        i = i + 1;
    }
    proof {
        assert(a@ =~= b@);
    }
    true
}

impl UnixNet {
    /// The listener with a name.
    fn find_listener(&self, key: &Vec<u8>) -> (r: Option<usize>)
        requires
            self.wf(),
        ensures
            match r {
                Some(k) => listens_as(self.listeners(), key@, k),
                None => forall|k: usize| !listens_as(self.listeners(), key@, k),
            },
    {
        let mut i: usize = 0;
        while i < self.listeners.entries.len()
            invariant
                self.wf(),
                i <= self.listeners.entries@.len(),
                forall|j: int|
                    0 <= j < i ==> (#[trigger] self.listeners.entries@[j]).1.key@ != key@,
            decreases self.listeners.entries@.len() - i,
        {
            if same_bytes(&self.listeners.entries[i].1.key, key) {
                proof {
                    self.listeners.entry_in_view(i as int);
                    assert(listens_as(
                        self.listeners(),
                        key@,
                        self.listeners.entries@[i as int].0,
                    ));
                }
                return Some(self.listeners.entries[i].0);
            }
            i = i + 1;
        }
        proof {
            assert forall|k: usize| !listens_as(self.listeners(), key@, k) by {
                if listens_as(self.listeners(), key@, k) {
                    let j = self.listeners.view_has_entry(k);
                    assert(self.listeners.entries@[j].1.key@ != key@);
                }
            }
        }
        None
    }

    /// Makes a named socket listen; no two listeners have the same name.
    pub fn listen(&mut self, id: usize, credentials: UnixPeerCredentials) -> (r: SysResult<()>)
        requires
            old(self).wf(),
            old(self).ends().contains_key(id),
            old(self).next_listener < usize::MAX,
            !is_pending(old(self).listeners(), id),
        ensures
            final(self).wf(),
            numbers_used(
                *old(self),
                *final(self),
                0,
                if r is Ok {
                    1
                } else {
                    0
                },
            ),
            listened(
                old(self).ends(),
                old(self).listeners(),
                old(self).next_listener,
                id,
                credentials,
                final(self).ends(),
                final(self).listeners(),
                r,
            ),
    {
        let ghost m0 = self.ends();
        let ghost l0 = self.listeners();
        let key = match self.bound_key(id) {
            Some(k) => k,
            None => {
                return Err(Errno::EINVAL);
            },
        };
        let ghost kv = key@;
        match self.find_listener(&key) {
            Some(k) => {
                proof {
                    assert(listens_as(l0, kv, k));
                }
                return Err(Errno::EADDRINUSE);
            },
            None => {},
        }
        let k: usize = self.next_listener;
        let listener = UnixListener {
            key,
            credentials,
            pending: VecDeque::new(),
            accept_waiters: VecDeque::new(),
        };
        let ghost lv = listener@;
        self.listeners.insert(k, listener);
        self.next_listener = k + 1;
        let mut e = self.take(id);
        e.listener = Some(k);
        self.put(id, e);
        proof {
            assert(!l0.contains_key(k));
            let m = self.ends();
            let l = self.listeners();
            let fresh = ListenerView {
                key: kv,
                credentials,
                pending: Seq::empty(),
                waiters: Seq::empty(),
            };
            assert(lv == fresh);
            assert(l =~= l0.insert(k, fresh));
            assert(m =~= m0.insert(id, EndView { listener: Some(k), ..m0[id] }));
            assert(ends_ok(m)) by {
                assert forall|i: usize| #[trigger] m.contains_key(i) implies (m[i].peer matches Some(
                    p,
                ) ==> p != i && m.contains_key(p) && m[p].peer == Some(i)) by {
                    assert(m0.contains_key(i));
                    if m[i].peer is Some {
                        assert(m0.contains_key(m[i].peer->0));
                    }
                }
                assert forall|i: usize| #[trigger] m.contains_key(i) && m[i].closed implies m[i].peer
                    is Some && !m[m[i].peer->0].closed by {
                    assert(m0.contains_key(i));
                    assert(m0.contains_key(m[i].peer->0));
                }
            }
            assert(listeners_ok(l, m)) by {
                assert forall|q: usize, i: int|
                    #![trigger l[q].pending[i]]
                    l.contains_key(q) && 0 <= i < l[q].pending.len() implies m.contains_key(
                    l[q].pending[i],
                ) && !m[l[q].pending[i]].closed && m[l[q].pending[i]].listener is None by {
                    assert(l0[q].pending[i] == l[q].pending[i]);
                    assert(l[q].pending[i] != id);
                }
                assert forall|a: usize, i: int, q: usize, j: int|
                    #![trigger l[a].pending[i], l[q].pending[j]]
                    l.contains_key(a) && l.contains_key(q) && 0 <= i < l[a].pending.len() && 0 <= j
                        < l[q].pending.len() && l[a].pending[i] == l[q].pending[j] implies a == q && i
                    == j by {
                    assert(l0[a].pending[i] == l0[q].pending[j]);
                }
                assert forall|a: usize, q: usize|
                    #![trigger l[a].key, l[q].key]
                    l.contains_key(a) && l.contains_key(q) && l[a].key == l[q].key implies a == q by {
                    if a == k && q != k {
                        assert(!listens_as(l0, kv, q));
                    } else if q == k && a != k {
                        assert(!listens_as(l0, kv, a));
                    } else if a != k {
                        assert(l0[a].key == l0[q].key);
                    }
                }
            }
            assert(owners_ok(m, l)) by {
                assert forall|i: usize, j: usize|
                    #![trigger m[i].listener, m[j].listener]
                    m.contains_key(i) && m.contains_key(j) && m[i].listener is Some && m[i].listener
                        == m[j].listener implies i == j by {
                    assert(m0.contains_key(i) && m0.contains_key(j));
                    if i != id && j != id {
                        assert(m0[i].listener == m0[j].listener);
                    }
                }
            }
        }
        Ok(())
    }

    /// Connects a socket to the listener with a name. A new end is made for the
    /// other side and queued; the number of the listener whose pollers are told
    /// of it and the thread to wake are returned.
    pub fn connect_path(&mut self, id: usize, key: &Vec<u8>, credentials: UnixPeerCredentials) -> (r:
        SysResult<(usize, Option<usize>)>)
        requires
            old(self).wf(),
            old(self).ends().contains_key(id),
            !old(self).ends()[id].closed,
            old(self).next_end < usize::MAX,
        ensures
            final(self).wf(),
            numbers_used(
                *old(self),
                *final(self),
                if r is Ok {
                    1
                } else {
                    0
                },
                0,
            ),
            connected(
                old(self).ends(),
                old(self).listeners(),
                old(self).next_end,
                id,
                key@,
                credentials,
                final(self).ends(),
                final(self).listeners(),
                r,
            ),
    {
        let ghost m0 = self.ends();
        let ghost l0 = self.listeners();
        if self.is_connected(id) {
            return Err(Errno::EISCONN);
        }
        let k: usize = match self.find_listener(key) {
            Some(k) => k,
            None => {
                return Err(Errno::ECONNREFUSED);
            },
        };
        proof {
            assert(listens_as(l0, key@, k));
        }
        let mut l = match self.listeners.remove(k) {
            Some(l) => l,
            None => {
                return Err(Errno::ECONNREFUSED);
            },
        };
        if l.pending.len() >= UNIX_LISTEN_QUEUE_LIMIT {
            self.listeners.insert(k, l);
            proof {
                assert(self.listeners() =~= l0);
            }
            return Err(Errno::EAGAIN);
        }
        let ghost lv = l@;
        let id2: usize = self.next_end;
        let mut server = new_end();
        let k1 = crate::seqs::copy_range(key.as_slice(), 0, key.len());
        let k2 = crate::seqs::copy_range(key.as_slice(), 0, key.len());
        proof {
            assert(k1@ =~= key@);
            assert(k2@ =~= key@);
        }
        server.bound_key = Some(k1);
        server.peer_key = copy_key(&self.end(id).bound_key);
        server.peer = Some(id);
        server.peer_credentials = Some(credentials);
        let mut e = self.take(id);
        e.peer = Some(id2);
        e.peer_key = Some(k2);
        e.peer_credentials = Some(l.credentials);
        self.put(id, e);
        self.put(id2, server);
        self.next_end = id2 + 1;
        l.pending.push_back(id2);
        let wake = l.accept_waiters.pop_front();
        let ghost lw = l@;
        self.listeners.insert(k, l);
        proof {
            assert(!m0.contains_key(id2));
            let m = self.ends();
            let ln = self.listeners();
            assert(lw == queued(lv, id2)) by {
                assert(lw.waiters =~= queued(lv, id2).waiters);
            }
            assert(ln =~= l0.insert(k, queued(lv, id2)));
            assert(m =~= m0.insert(id, client_end(m0[id], id2, key@, lv.credentials)).insert(
                id2,
                server_end(m0[id], id, key@, credentials),
            ));
            connecting_keeps(m0, l0, id, id2, k, key@, credentials);
        }
        Ok((k, wake))
    }

    /// Accepts the connection that waits longest: `EAGAIN` if none does and the
    /// call must not wait.
    pub fn accept(&mut self, id: usize, timed_out: bool, interrupted: bool, tid: usize) -> (r: AcceptStep)
        requires
            old(self).wf(),
            old(self).ends().contains_key(id),
        ensures
            final(self).wf(),
            numbers_used(*old(self), *final(self), 0, 0),
            final(self).ends() == old(self).ends(),
            forall|x: usize| #[trigger]
                is_pending(final(self).listeners(), x) ==> is_pending(old(self).listeners(), x),
            accept_done(
                old(self).ends(),
                old(self).listeners(),
                id,
                timed_out,
                interrupted,
                tid,
                final(self).listeners(),
                r,
            ),
    {
        let ghost m0 = self.ends();
        let ghost l0 = self.listeners();
        let nonblock = self.end(id).nonblock;
        let k: usize = match self.end(id).listener {
            Some(k) => k,
            None => {
                return AcceptStep::Fail(Errno::EINVAL);
            },
        };
        proof {
            assert(l0.contains_key(k));
        }
        let mut l = match self.listeners.remove(k) {
            Some(l) => l,
            None => {
                return AcceptStep::Fail(Errno::EINVAL);
            },
        };
        let ghost lv = l@;
        let r = match l.pending.pop_front() {
            Some(c) => AcceptStep::Accepted(c),
            None => if nonblock || timed_out {
                AcceptStep::Fail(Errno::EAGAIN)
            } else if interrupted {
                AcceptStep::Fail(Errno::EINTR)
            } else {
                l.accept_waiters.push_back(tid);
                AcceptStep::Wait
            },
        };
        let ghost lw = l@;
        self.listeners.insert(k, l);
        proof {
            let ln = self.listeners();
            assert(self.ends() == m0);
            assert(ln =~= l0.insert(k, lw));
            if lv.pending.len() > 0 {
                assert(lw.pending =~= lv.pending.drop_first());
                assert(lw == (ListenerView { pending: lv.pending.drop_first(), ..lv }));
            } else {
                assert(lw.pending =~= lv.pending);
                if r != AcceptStep::Wait {
                    assert(lw == lv);
                    assert(ln =~= l0);
                } else {
                    assert(lw == (ListenerView { waiters: lv.waiters.push(tid), ..lv }));
                }
            }
            let d = if lv.pending.len() > 0 {
                1int
            } else {
                0
            };
            assert forall|i: int| 0 <= i < lw.pending.len() implies #[trigger] lw.pending[i]
                == lv.pending[i + d] by {}
            queue_change_keeps(m0, l0, k, lw, d);
            assert forall|x: usize| #[trigger] is_pending(ln, x) implies is_pending(l0, x) by {
                let (q, j) = choose|q: usize, j: int|
                    #![trigger ln[q].pending[j]]
                    ln.contains_key(q) && 0 <= j < ln[q].pending.len() && ln[q].pending[j] == x;
                let jj = if q == k {
                    j + d
                } else {
                    j
                };
                assert(l0[q].pending[jj] == x);
            }
            if lv.pending.len() > 0 {
                let c = lv.pending[0];
                assert(!is_pending(ln, c)) by {
                    if is_pending(ln, c) {
                        let (q, j) = choose|q: usize, j: int|
                            #![trigger ln[q].pending[j]]
                            ln.contains_key(q) && 0 <= j < ln[q].pending.len() && ln[q].pending[j]
                                == c;
                        let jj = if q == k {
                            j + 1
                        } else {
                            j
                        };
                        assert(l0[q].pending[jj] == c);
                        assert(l0[k].pending[0] == c);
                    }
                }
            }
        }
        r
    }

    /// Goes on after a wait to accept. The thread leaves the list of those that
    /// wait. Nothing is returned if the call starts again.
    pub fn accept_resumed(&mut self, id: usize, waited: SysResult<bool>, tid: usize) -> (r: Option<Errno>)
        requires
            old(self).wf(),
            old(self).ends().contains_key(id),
            old(self).ends()[id].listener is Some,
        ensures
            final(self).wf(),
            numbers_used(*old(self), *final(self), 0, 0),
            final(self).ends() == old(self).ends(),
            ({
                let k = old(self).ends()[id].listener->0;
                let l = old(self).listeners()[k];
                final(self).listeners() == old(self).listeners().insert(
                    k,
                    ListenerView { waiters: l.waiters.filter(other_tid(tid)), ..l },
                )
            }),
            wait_result(waited, r),
    {
        let ghost m0 = self.ends();
        let ghost l0 = self.listeners();
        match self.end(id).listener {
            Some(k) => {
                proof {
                    assert(l0.contains_key(k));
                }
                match self.listeners.remove(k) {
                    Some(mut l) => {
                        let ghost lv = l@;
                        l.accept_waiters = without(&l.accept_waiters, tid);
                        let ghost lw = l@;
                        self.listeners.insert(k, l);
                        proof {
                            assert(self.ends() == m0);
                            assert(lw == (ListenerView {
                                waiters: lv.waiters.filter(other_tid(tid)),
                                ..lv
                            }));
                            assert(self.listeners() =~= l0.insert(k, lw));
                            queue_change_keeps(m0, l0, k, lw, 0);
                        }
                    },
                    None => {},
                }
            },
            None => {},
        }
        match waited {
            Ok(timed_out) => if timed_out {
                Some(Errno::EAGAIN)
            } else {
                None
            },
            Err(e) => Some(e),
        }
    }
}

/// The outcome of an accept.
#[derive(Debug, Clone, Copy, PartialEq, Eq, Structural)]
pub enum AcceptStep {
    /// The accepted end.
    Accepted(usize),
    Fail(Errno),
    /// The thread is on the list of those that wait.
    Wait,
}

/// The end waits to be accepted.
pub open spec fn is_pending(l: Listeners, id: usize) -> bool {
    exists|k: usize, i: int|
        #![trigger l[k].pending[i]]
        l.contains_key(k) && 0 <= i < l[k].pending.len() && l[k].pending[i] == id
}

/// The end that made a connection.
pub open spec fn client_end(e: EndView, peer: usize, key: Seq<u8>, c: UnixPeerCredentials) -> EndView {
    EndView { peer: Some(peer), peer_key: Some(key), credentials: Some(c), ..e }
}

/// The end on the other side of a connection.
pub open spec fn server_end(e: EndView, peer: usize, key: Seq<u8>, c: UnixPeerCredentials) -> EndView {
    EndView {
        peer: Some(peer),
        key: Some(key),
        peer_key: e.key,
        credentials: Some(c),
        ..fresh_end()
    }
}

/// The listener with one more connection, and one thread less that waits.
pub open spec fn queued(l: ListenerView, id: usize) -> ListenerView {
    ListenerView {
        pending: l.pending.push(id),
        waiters: if l.waiters.len() > 0 {
            l.waiters.drop_first()
        } else {
            l.waiters
        },
        ..l
    }
}

/// What connecting to a name comes to.
pub open spec fn connected(
    m: Ends,
    l: Listeners,
    id2: usize,
    id: usize,
    key: Seq<u8>,
    c: UnixPeerCredentials,
    n: Ends,
    ln: Listeners,
    r: SysResult<(usize, Option<usize>)>,
) -> bool {
    if m[id].peer is Some {
        r is Err && r->Err_0 == Errno::EISCONN && n == m && ln == l
    } else if !exists|k: usize| listens_as(l, key, k) {
        r is Err && r->Err_0 == Errno::ECONNREFUSED && n == m && ln == l
    } else {
        let k = choose|k: usize| listens_as(l, key, k);
        let lv = l[k];
        if lv.pending.len() >= UNIX_LISTEN_QUEUE_LIMIT {
            r is Err && r->Err_0 == Errno::EAGAIN && n == m && ln == l
        } else {
            &&& r is Ok
            &&& r->Ok_0.0 == k
            &&& r->Ok_0.1 == if lv.waiters.len() > 0 {
                Some(lv.waiters[0])
            } else {
                None
            }
            &&& !m.contains_key(id2)
            &&& n == m.insert(id, client_end(m[id], id2, key, lv.credentials)).insert(
                id2,
                server_end(m[id], id, key, c),
            )
            &&& ln == l.insert(k, queued(lv, id2))
        }
    }
}

proof fn queue_change_keeps(m: Ends, l: Listeners, k: usize, lw: ListenerView, d: int)
    requires
        ends_ok(m),
        listeners_ok(l, m),
        owners_ok(m, l),
        l.contains_key(k),
        d >= 0,
        lw.key == l[k].key,
        lw.pending.len() + d == l[k].pending.len(),
        forall|i: int| 0 <= i < lw.pending.len() ==> #[trigger] lw.pending[i] == l[k].pending[i + d],
    ensures
        listeners_ok(l.insert(k, lw), m),
        owners_ok(m, l.insert(k, lw)),
{
    let ln = l.insert(k, lw);
    assert forall|q: usize, i: int|
        #![trigger ln[q].pending[i]]
        ln.contains_key(q) && 0 <= i < ln[q].pending.len() implies m.contains_key(ln[q].pending[i])
        && !m[ln[q].pending[i]].closed && m[ln[q].pending[i]].listener is None by {
        if q == k {
            assert(ln[q].pending[i] == l[k].pending[i + d]);
        } else {
            assert(ln[q].pending[i] == l[q].pending[i]);
        }
    }
    assert forall|a: usize, i: int, q: usize, j: int|
        #![trigger ln[a].pending[i], ln[q].pending[j]]
        ln.contains_key(a) && ln.contains_key(q) && 0 <= i < ln[a].pending.len() && 0 <= j
            < ln[q].pending.len() && ln[a].pending[i] == ln[q].pending[j] implies a == q && i == j by {
        let x = if a == k {
            i + d
        } else {
            i
        };
        let y = if q == k {
            j + d
        } else {
            j
        };
        assert(l[a].pending[x] == ln[a].pending[i]);
        assert(l[q].pending[y] == ln[q].pending[j]);
    }
    assert forall|a: usize, q: usize|
        #![trigger ln[a].key, ln[q].key]
        ln.contains_key(a) && ln.contains_key(q) && ln[a].key == ln[q].key implies a == q by {
        assert(l[a].key == l[q].key);
    }
}

proof fn connecting_keeps(
    m: Ends,
    l: Listeners,
    id: usize,
    id2: usize,
    k: usize,
    key: Seq<u8>,
    c: UnixPeerCredentials,
)
    requires
        ends_ok(m),
        listeners_ok(l, m),
        owners_ok(m, l),
        m.contains_key(id),
        !m.contains_key(id2),
        m[id].peer is None,
        !m[id].closed,
        listens_as(l, key, k),
        l[k].pending.len() < UNIX_LISTEN_QUEUE_LIMIT,
    ensures
        ({
            let n = m.insert(id, client_end(m[id], id2, key, l[k].credentials)).insert(
                id2,
                server_end(m[id], id, key, c),
            );
            let ln = l.insert(k, queued(l[k], id2));
            &&& ends_ok(n)
            &&& listeners_ok(ln, n)
            &&& owners_ok(n, ln)
            &&& forall|q: usize| listens_as(l, key, q) ==> q == k
        }),
{
    let n = m.insert(id, client_end(m[id], id2, key, l[k].credentials)).insert(
        id2,
        server_end(m[id], id, key, c),
    );
    let ln = l.insert(k, queued(l[k], id2));
    assert forall|i: usize| #[trigger] n.contains_key(i) implies (n[i].peer matches Some(p) ==> p != i
        && n.contains_key(p) && n[p].peer == Some(i)) by {
        if i != id && i != id2 {
            assert(m.contains_key(i));
            if m[i].peer is Some {
                assert(m.contains_key(m[i].peer->0));
                assert(m[i].peer->0 != id);
            }
        }
    }
    assert forall|i: usize| #[trigger] n.contains_key(i) && n[i].closed implies n[i].peer is Some && !n[
    n[i].peer->0].closed by {
        assert(m.contains_key(i));
        assert(m.contains_key(n[i].peer->0));
    }
    assert forall|i: usize| #[trigger] n.contains_key(i) implies n[i].data.len()
        <= UNIX_SOCKET_BUFFER_LIMIT by {
        if i != id2 {
            assert(m.contains_key(i));
        }
    }
    assert forall|i: usize, j: usize|
        #![trigger n[i].listener, n[j].listener]
        n.contains_key(i) && n.contains_key(j) && n[i].listener is Some && n[i].listener
            == n[j].listener implies i == j by {
        assert(m[i].listener == m[j].listener);
    }
    assert forall|i: usize| #[trigger] n.contains_key(i) implies (n[i].listener matches Some(q)
        ==> ln.contains_key(q)) by {
        if i != id2 {
            assert(m.contains_key(i));
        }
    }
    assert forall|q: usize, i: int|
        #![trigger ln[q].pending[i]]
        ln.contains_key(q) && 0 <= i < ln[q].pending.len() implies n.contains_key(ln[q].pending[i])
        && !n[ln[q].pending[i]].closed && n[ln[q].pending[i]].listener is None by {
        if q == k && i == l[k].pending.len() {
            assert(ln[q].pending[i] == id2);
        } else {
            assert(ln[q].pending[i] == l[q].pending[i]);
            assert(m.contains_key(l[q].pending[i]));
        }
    }
    assert forall|a: usize, i: int, q: usize, j: int|
        #![trigger ln[a].pending[i], ln[q].pending[j]]
        ln.contains_key(a) && ln.contains_key(q) && 0 <= i < ln[a].pending.len() && 0 <= j
            < ln[q].pending.len() && ln[a].pending[i] == ln[q].pending[j] implies a == q && i == j by {
        let new_i = a == k && i == l[k].pending.len();
        let new_j = q == k && j == l[k].pending.len();
        if !new_i {
            assert(ln[a].pending[i] == l[a].pending[i]);
            assert(m.contains_key(l[a].pending[i]));
        }
        if !new_j {
            assert(ln[q].pending[j] == l[q].pending[j]);
            assert(m.contains_key(l[q].pending[j]));
        }
    }
    assert forall|a: usize, q: usize|
        #![trigger ln[a].key, ln[q].key]
        ln.contains_key(a) && ln.contains_key(q) && ln[a].key == ln[q].key implies a == q by {
        assert(l[a].key == l[q].key);
    }
    assert forall|q: usize| listens_as(l, key, q) implies q == k by {
        assert(l[q].key == l[k].key);
    }
}

/// Connections are accepted in the order they were made.
pub proof fn connections_are_accepted_in_order(l: ListenerView, id: usize)
    requires
        l.pending.len() > 0,
    ensures
        queued(l, id).pending[0] == l.pending[0],
        queued(l, id).pending.drop_first() == l.pending.drop_first().push(id),
{
    assert(queued(l, id).pending.drop_first() =~= l.pending.drop_first().push(id));
}

/// The ends after one of them was dropped. It stays for its peer, closed, and
/// goes with it if that was dropped before.
pub open spec fn dropped(m: Ends, id: usize) -> Ends {
    let e = m[id];
    match e.peer {
        None => m.remove(id),
        Some(p) => if m[p].closed {
            m.remove(id).remove(p)
        } else {
            m.insert(
                id,
                EndView {
                    closed: true,
                    read_shut: true,
                    write_shut: true,
                    writers: Seq::empty(),
                    ..e
                },
            ).insert(p, EndView { readers: Seq::empty(), ..m[p] })
        },
    }
}

/// The threads that dropping an end wakes: readers on the other side, and
/// writers that wait for room on this one.
pub open spec fn drop_wakes(m: Ends, id: usize) -> Seq<usize> {
    (match m[id].peer {
        Some(p) => m[p].readers,
        None => Seq::empty(),
    }) + m[id].writers
}

/// The ends after several of them were dropped one after the other.
pub open spec fn all_dropped(m: Ends, ids: Seq<usize>) -> Ends
    decreases ids.len(),
{
    if ids.len() == 0 {
        m
    } else {
        dropped(all_dropped(m, ids.drop_last()), ids.last())
    }
}

/// The threads that dropping several ends wakes.
pub open spec fn all_drop_wakes(m: Ends, ids: Seq<usize>) -> Seq<usize>
    decreases ids.len(),
{
    if ids.len() == 0 {
        Seq::empty()
    } else {
        all_drop_wakes(m, ids.drop_last()) + drop_wakes(
            all_dropped(m, ids.drop_last()),
            ids.last(),
        )
    }
}

/// What goes when an end is dropped: the end, then the connections that wait at
/// its listener.
pub open spec fn going(m: Ends, l: Listeners, id: usize) -> Seq<usize> {
    seq![id] + (match m[id].listener {
        Some(k) => l[k].pending,
        None => Seq::empty(),
    })
}

/// The ends after one was taken off its listener.
pub open spec fn detached(m: Ends, id: usize) -> Ends {
    m.insert(id, EndView { listener: None, ..m[id] })
}

proof fn dropping_keeps(m: Ends, l: Listeners, id: usize)
    requires
        ends_ok(m),
        listeners_ok(l, m),
        owners_ok(m, l),
        m.contains_key(id),
        !m[id].closed,
        m[id].listener is None,
        !is_pending(l, id),
    ensures
        ends_ok(dropped(m, id)),
        listeners_ok(l, dropped(m, id)),
        owners_ok(dropped(m, id), l),
        forall|i: usize|
            #[trigger] m.contains_key(i) && i != id && !m[i].closed ==> dropped(m, id).contains_key(i)
                && !dropped(m, id)[i].closed && dropped(m, id)[i].listener == m[i].listener,
        forall|i: usize| #[trigger] dropped(m, id).contains_key(i) ==> m.contains_key(i),
{
    let n = dropped(m, id);
    if m[id].peer is Some {
        let p = m[id].peer->0;
        assert(m.contains_key(p));
    }
    assert forall|i: usize| #[trigger] n.contains_key(i) implies m.contains_key(i) && n[i].peer
        == m[i].peer && n[i].data == m[i].data && n[i].listener == m[i].listener by {}
    assert forall|i: usize| #[trigger] n.contains_key(i) implies n[i].data.len()
        <= UNIX_SOCKET_BUFFER_LIMIT by {
        assert(m.contains_key(i));
    }
    assert forall|i: usize| #[trigger] n.contains_key(i) implies (n[i].peer matches Some(p) ==> p != i
        && n.contains_key(p) && n[p].peer == Some(i)) by {
        assert(m.contains_key(i));
        if n[i].peer is Some {
            let p = n[i].peer->0;
            assert(m.contains_key(p));
            assert(m[p].peer == Some(i));
            assert(n.contains_key(p));
        }
    }
    assert forall|i: usize| #[trigger] n.contains_key(i) && n[i].closed implies n[i].peer is Some && !n[
    n[i].peer->0].closed by {
        assert(m.contains_key(i));
        if i != id {
            assert(m[i].closed);
            let p = m[i].peer->0;
            assert(m.contains_key(p));
            assert(m[p].peer == Some(i));
        }
    }
    assert forall|k: usize, i: int|
        #![trigger l[k].pending[i]]
        l.contains_key(k) && 0 <= i < l[k].pending.len() implies n.contains_key(l[k].pending[i])
        && !n[l[k].pending[i]].closed && n[l[k].pending[i]].listener is None by {
        let x = l[k].pending[i];
        assert(m.contains_key(x) && !m[x].closed);
        assert(x != id);
    }
    assert forall|i: usize, j: usize|
        #![trigger n[i].listener, n[j].listener]
        n.contains_key(i) && n.contains_key(j) && n[i].listener is Some && n[i].listener
            == n[j].listener implies i == j by {
        assert(m[i].listener == m[j].listener);
    }
}

/// Whether closing an end goes from `before` to `after` and wakes `r`.
pub open spec fn end_closed(
    before: Ends,
    l: Listeners,
    after: Ends,
    id: usize,
    r: Seq<usize>,
) -> bool {
    ({
        let m = detached(before, id);
        let ids = going(before, l, id);
        &&& after == all_dropped(m, ids)
        &&& r == all_drop_wakes(m, ids)
    })
}

impl UnixNet {
    fn drop_one(&mut self, id: usize, wake: &mut VecDeque<usize>)
        requires
            old(self).wf(),
            old(self).ends().contains_key(id),
            !old(self).ends()[id].closed,
            old(self).ends()[id].listener is None,
            !is_pending(old(self).listeners(), id),
        ensures
            final(self).wf(),
            numbers_used(*old(self), *final(self), 0, 0),
            final(self).listeners == old(self).listeners,
            final(self).ends() == dropped(old(self).ends(), id),
            final(wake)@ == old(wake)@ + drop_wakes(old(self).ends(), id),
    {
        let ghost m0 = self.ends();
        let ghost w0 = wake@;
        proof {
            dropping_keeps(m0, self.listeners(), id);
        }
        let mut e = self.take(id);
        match e.peer {
            Some(p) => {
                let mut o = self.take(p);
                wake.append(&mut o.read_waiters);
                wake.append(&mut e.write_waiters);
                if !o.closed {
                    e.closed = true;
                    e.read_shutdown = true;
                    e.write_shutdown = true;
                    self.put(id, e);
                    self.put(p, o);
                }
            },
            None => {
                wake.append(&mut e.write_waiters);
            },
        }
        proof {
            assert(wake@ =~= w0 + drop_wakes(m0, id));
            assert(self.ends() =~= dropped(m0, id));
            assert forall|i: usize| #[trigger] self.ends@.contains_key(i) implies i < self.next_end by {
                assert(self.ends().contains_key(i));
                assert(m0.contains_key(i));
            }
        }
    }

    /// Ends the life of a socket and returns the threads to wake, in order. A
    /// listener goes with its socket, and so do the connections that wait
    /// there. Those that poll the buffers concerned are told of everything.
    pub fn close(&mut self, id: usize) -> (r: VecDeque<usize>)
        requires
            old(self).wf(),
            old(self).ends().contains_key(id),
            !old(self).ends()[id].closed,
            !is_pending(old(self).listeners(), id),
        ensures
            final(self).wf(),
            numbers_used(*old(self), *final(self), 0, 0),
            end_closed(old(self).ends(), old(self).listeners(), final(self).ends(), id, r@),
            final(self).listeners() == (match old(self).ends()[id].listener {
                Some(k) => old(self).listeners().remove(k),
                None => old(self).listeners(),
            }),
    {
        let ghost m0 = self.ends();
        let ghost l0 = self.listeners();
        let mut wake: VecDeque<usize> = VecDeque::new();
        let mut pending: VecDeque<usize> = VecDeque::new();
        let listener = self.end(id).listener;
        match listener {
            Some(k) => {
                proof {
                    assert(l0.contains_key(k));
                }
                match self.listeners.remove(k) {
                    Some(l) => {
                        pending = l.pending;
                    },
                    None => {},
                }
                let mut e = self.take(id);
                e.listener = None;
                self.put(id, e);
                proof {
                    assert(self.listeners() =~= l0.remove(k));
                    assert(self.ends() =~= detached(m0, id));
                    detaching_keeps(m0, l0, id, k);
                }
            },
            None => {
                proof {
                    assert(m0.insert(id, EndView { listener: None, ..m0[id] }) =~= m0);
                }
            },
        }
        let ghost m1 = self.ends();
        let ghost ids = going(m0, l0, id);
        let ghost l1 = self.listeners();
        proof {
            assert(pending@ =~= ids.skip(1));
            assert(m1 == detached(m0, id));
            assert forall|i: int| 1 <= i < ids.len() implies ids[i] != id && m1.contains_key(
                #[trigger] ids[i],
            ) && !m1[ids[i]].closed && m1[ids[i]].listener is None && !is_pending(l1, ids[i]) by {
                let k = listener->0;
                assert(ids[i] == l0[k].pending[i - 1]);
                pending_leaves_with_listener(m0, l0, k, i - 1);
                assert(m0[ids[i]].listener is None);
            }
            assert forall|i: int, j: int| 1 <= i < j < ids.len() implies ids[i] != ids[j] by {
                let k = listener->0;
                assert(l0[k].pending[i - 1] == ids[i]);
                assert(l0[k].pending[j - 1] == ids[j]);
            }
            assert(!is_pending(l1, id)) by {
                if is_pending(l1, id) {
                    let (q, j) = choose|q: usize, j: int|
                        #![trigger l1[q].pending[j]]
                        l1.contains_key(q) && 0 <= j < l1[q].pending.len() && l1[q].pending[j] == id;
                    assert(l0[q].pending[j] == id);
                }
            }
        }
        self.drop_one(id, &mut wake);
        proof {
            let one = ids.take(1);
            assert(one.drop_last() =~= Seq::<usize>::empty());
            assert(one.last() == id);
            assert(all_dropped(m1, one.drop_last()) == m1);
            assert(all_drop_wakes(m1, one.drop_last()) =~= Seq::<usize>::empty());
            assert(wake@ =~= all_drop_wakes(m1, one));
            dropping_keeps(m1, l1, id);
        }
        let mut i: usize = 0;
        while i < pending.len()
            invariant
                self.wf(),
                numbers_used(*old(self), *self, 0, 0),
                i <= pending@.len(),
                pending@ == ids.skip(1),
                ids.len() >= 1,
                l1 == self.listeners(),
                self.ends() == all_dropped(m1, ids.take(i + 1)),
                wake@ == all_drop_wakes(m1, ids.take(i + 1)),
                forall|j: int|
                    i + 1 <= j < ids.len() ==> self.ends().contains_key(#[trigger] ids[j])
                        && !self.ends()[ids[j]].closed && self.ends()[ids[j]].listener is None
                        && !is_pending(l1, ids[j]),
                forall|a: int, c: int| 1 <= a < c < ids.len() ==> ids[a] != ids[c],
            decreases pending@.len() - i,
        {
            let x: usize = pending[i];
            let ghost before = self.ends();
            proof {
                assert(x == ids[i + 1]);
                dropping_keeps(before, l1, x);
            }
            self.drop_one(x, &mut wake);
            proof {
                assert(ids.take(i + 2).drop_last() =~= ids.take(i + 1));
                assert(ids.take(i + 2).last() == x);
                assert forall|j: int| i + 2 <= j < ids.len() implies self.ends().contains_key(
                    #[trigger] ids[j],
                ) && !self.ends()[ids[j]].closed && self.ends()[ids[j]].listener is None
                    && !is_pending(l1, ids[j]) by {
                    assert(ids[i + 1] != ids[j]);
                    assert(before.contains_key(ids[j]));
                }
            }
            i = i + 1;
        }
        proof {
            assert(ids.take(i + 1) =~= ids);
        }
        wake
    }
}

proof fn pending_leaves_with_listener(m: Ends, l: Listeners, k: usize, i: int)
    requires
        listeners_ok(l, m),
        l.contains_key(k),
        0 <= i < l[k].pending.len(),
    ensures
        !is_pending(l.remove(k), l[k].pending[i]),
        m.contains_key(l[k].pending[i]),
        !m[l[k].pending[i]].closed,
        m[l[k].pending[i]].listener is None,
{
    let x = l[k].pending[i];
    let ln = l.remove(k);
    if is_pending(ln, x) {
        let (q, j) = choose|q: usize, j: int|
            #![trigger ln[q].pending[j]]
            ln.contains_key(q) && 0 <= j < ln[q].pending.len() && ln[q].pending[j] == x;
        assert(l[q].pending[j] == x);
        assert(l[k].pending[i] == x);
    }
}

proof fn detaching_keeps(m: Ends, l: Listeners, id: usize, k: usize)
    requires
        ends_ok(m),
        listeners_ok(l, m),
        owners_ok(m, l),
        m.contains_key(id),
        m[id].listener == Some(k),
    ensures
        ends_ok(detached(m, id)),
        listeners_ok(l.remove(k), detached(m, id)),
        owners_ok(detached(m, id), l.remove(k)),
{
    let n = detached(m, id);
    let ln = l.remove(k);
    assert forall|i: usize| #[trigger] n.contains_key(i) implies (n[i].peer matches Some(p) ==> p != i
        && n.contains_key(p) && n[p].peer == Some(i)) by {
        assert(m.contains_key(i));
        if n[i].peer is Some {
            assert(m.contains_key(n[i].peer->0));
        }
    }
    assert forall|i: usize| #[trigger] n.contains_key(i) && n[i].closed implies n[i].peer is Some && !n[
    n[i].peer->0].closed by {
        assert(m.contains_key(i));
        assert(m.contains_key(n[i].peer->0));
    }
    assert forall|i: usize| #[trigger] n.contains_key(i) implies n[i].data.len()
        <= UNIX_SOCKET_BUFFER_LIMIT by {
        assert(m.contains_key(i));
    }
    assert forall|q: usize, i: int|
        #![trigger ln[q].pending[i]]
        ln.contains_key(q) && 0 <= i < ln[q].pending.len() implies n.contains_key(ln[q].pending[i])
        && !n[ln[q].pending[i]].closed && n[ln[q].pending[i]].listener is None by {
        assert(l[q].pending[i] == ln[q].pending[i]);
        assert(m.contains_key(l[q].pending[i]));
    }
    assert forall|a: usize, i: int, q: usize, j: int|
        #![trigger ln[a].pending[i], ln[q].pending[j]]
        ln.contains_key(a) && ln.contains_key(q) && 0 <= i < ln[a].pending.len() && 0 <= j
            < ln[q].pending.len() && ln[a].pending[i] == ln[q].pending[j] implies a == q && i == j by {
        assert(l[a].pending[i] == l[q].pending[j]);
    }
    assert forall|a: usize, q: usize|
        #![trigger ln[a].key, ln[q].key]
        ln.contains_key(a) && ln.contains_key(q) && ln[a].key == ln[q].key implies a == q by {
        assert(l[a].key == l[q].key);
    }
    assert forall|i: usize| #[trigger] n.contains_key(i) implies (n[i].listener matches Some(q)
        ==> ln.contains_key(q)) by {
        assert(m.contains_key(i));
        if i != id && m[i].listener == Some(k) {
            assert(m[i].listener == m[id].listener);
        }
    }
    assert forall|i: usize, j: usize|
        #![trigger n[i].listener, n[j].listener]
        n.contains_key(i) && n.contains_key(j) && n[i].listener is Some && n[i].listener
            == n[j].listener implies i == j by {
        assert(m.contains_key(i) && m.contains_key(j));
        assert(m[i].listener == m[j].listener);
    }
}

/// Once its peer is dropped, an end reads what is left and then the end of the
/// data, and cannot write any more.
pub proof fn peers_see_the_end(m: Ends, id: usize, len: nat, nonblocking: bool)
    requires
        ends_ok(m),
        m.contains_key(id),
        !m[id].closed,
        m[id].peer is Some,
        !m[m[id].peer->0].closed,
    ensures
        ({
            let p = m[id].peer->0;
            let n = dropped(m, id);
            &&& n.contains_key(p)
            &&& n[p].data == m[p].data
            &&& at_eof(n, p)
            &&& write_decision(n, p, len, nonblocking, false, false) == WriteDecision::Fail(
                Errno::EPIPE,
            )
        }),
{
    let p = m[id].peer->0;
    assert(m.contains_key(p));
    assert(m[p].peer == Some(id));
}

/// When both ends of a connection are dropped, nothing of it is left.
pub proof fn dropped_connections_leave_nothing(m: Ends, id: usize)
    requires
        ends_ok(m),
        m.contains_key(id),
        !m[id].closed,
        m[id].peer is Some,
        !m[m[id].peer->0].closed,
    ensures
        dropped(dropped(m, id), m[id].peer->0) == m.remove(id).remove(m[id].peer->0),
{
    let p = m[id].peer->0;
    assert(m.contains_key(p));
    assert(m[p].peer == Some(id));
    let n = dropped(m, id);
    assert(n[p].peer == Some(id));
    assert(n[id].closed);
    assert(dropped(n, p) =~= m.remove(id).remove(p));
}

/// What telling a socket to listen comes to; `k` is the number of the listener.
pub open spec fn listened(
    m: Ends,
    l: Listeners,
    k: usize,
    id: usize,
    credentials: UnixPeerCredentials,
    n: Ends,
    ln: Listeners,
    r: SysResult<()>,
) -> bool {
    match m[id].key {
        None => r == Err::<(), Errno>(Errno::EINVAL) && n == m && ln == l,
        Some(key) => if exists|q: usize| listens_as(l, key, q) {
            r == Err::<(), Errno>(Errno::EADDRINUSE) && n == m && ln == l
        } else {
            &&& r is Ok
            &&& !l.contains_key(k)
            &&& n == m.insert(id, EndView { listener: Some(k), ..m[id] })
            &&& ln == l.insert(
                k,
                ListenerView { key, credentials, pending: Seq::empty(), waiters: Seq::empty() },
            )
        },
    }
}

/// What accepting a connection comes to.
pub open spec fn accept_done(
    m: Ends,
    l: Listeners,
    id: usize,
    timed_out: bool,
    interrupted: bool,
    tid: usize,
    ln: Listeners,
    r: AcceptStep,
) -> bool {
    match m[id].listener {
        None => r == AcceptStep::Fail(Errno::EINVAL) && ln == l,
        Some(k) => {
            let v = l[k];
            if v.pending.len() > 0 {
                &&& r == AcceptStep::Accepted(v.pending[0])
                &&& ln == l.insert(k, ListenerView { pending: v.pending.drop_first(), ..v })
                &&& !is_pending(ln, v.pending[0])
            } else if m[id].nonblock || timed_out {
                r == AcceptStep::Fail(Errno::EAGAIN) && ln == l
            } else if interrupted {
                r == AcceptStep::Fail(Errno::EINTR) && ln == l
            } else {
                &&& r == AcceptStep::Wait
                &&& ln == l.insert(k, ListenerView { waiters: v.waiters.push(tid), ..v })
            }
        },
    }
}

/// What a read comes to.
pub open spec fn read_called(
    m: Ends,
    id: usize,
    q: ReadRequest,
    timed_out: bool,
    interrupted: bool,
    tid: usize,
    n: Ends,
    r: ReadStep,
) -> bool {
    if q.len == 0 {
        n == m && (r matches ReadStep::Data(b, None, false) && b@.len() == 0)
    } else if m[id].peer is None {
        n == m && r == ReadStep::Fail(Errno::ENOTCONN)
    } else {
        let d = read_decision(m[id], at_eof(m, id), q, timed_out, interrupted);
        read_done(m, id, d, q.peek, tid, n, r)
    }
}

/// What a write comes to.
pub open spec fn write_called(
    m: Ends,
    id: usize,
    buf: Seq<u8>,
    nonblocking: bool,
    timed_out: bool,
    interrupted: bool,
    tid: usize,
    n: Ends,
    r: WriteStep,
) -> bool {
    if buf.len() == 0 {
        n == m && r == WriteStep::Written(0, None)
    } else if m[id].peer is None {
        n == m && r == WriteStep::Fail(Errno::ENOTCONN)
    } else {
        let d = write_decision(m, id, buf.len(), nonblocking, timed_out, interrupted);
        write_done(m, m[id].peer->0, d, buf, tid, n, r)
    }
}

/// A read takes what waits, as far as the buffer goes and from its start; what is left is what
/// was behind it. Looking takes nothing away.
pub proof fn reads_take_from_the_start(
    m: Ends,
    id: usize,
    q: ReadRequest,
    tid: usize,
    n: Ends,
    r: ReadStep,
)
    requires
        read_called(m, id, q, false, false, tid, n, r),
        q.len > 0,
        m[id].peer is Some,
        m[id].data.len() > 0,
        !q.waitall,
        m.contains_key(id),
        m[id].peer->0 != id,
    ensures
        r matches ReadStep::Data(b, woken, taken) && b@.is_prefix_of(m[id].data) && b@.len()
            <= q.len && (b@.len() == q.len || b@.len() == m[id].data.len()) && taken == !q.peek && (
        !q.peek ==> b@ + n[id].data =~= m[id].data) && (q.peek ==> n[id] == m[id] && woken is None)
            && (!q.peek && m[id].writers.len() > 0 ==> woken == Some(m[id].writers[0])),
        forall|j: usize| j != id && m.contains_key(j) ==> n.contains_key(j) && n[j] == m[j],
{
}

/// A read without data ends when the other side is gone, fails where it must not wait, and
/// otherwise joins the readers that wait.
pub proof fn empty_reads_wait_or_end(
    m: Ends,
    id: usize,
    q: ReadRequest,
    timed_out: bool,
    interrupted: bool,
    tid: usize,
    n: Ends,
    r: ReadStep,
)
    requires
        read_called(m, id, q, timed_out, interrupted, tid, n, r),
        q.len > 0,
        m[id].peer is Some,
        m[id].data.len() == 0,
    ensures
        m[id].read_shut || m[m[id].peer->0].closed || m[m[id].peer->0].write_shut ==> (
        r matches ReadStep::Data(b, w, t) && b@.len() == 0 && w is None && !t),
        !at_eof(m, id) && (m[id].nonblock || q.nonblocking || timed_out) ==> r == ReadStep::Fail(
            Errno::EAGAIN,
        ) && n == m,
        !at_eof(m, id) && !m[id].nonblock && !q.nonblocking && !timed_out && interrupted ==> r
            == ReadStep::Fail(Errno::EINTR) && n == m,
        !at_eof(m, id) && !m[id].nonblock && !q.nonblocking && !timed_out && !interrupted ==> r
            == ReadStep::Wait && n[id].readers == m[id].readers.push(tid) && n[id].data
            == m[id].data,
{
}

/// A whole is waited for only while more can come and time is left.
pub proof fn wholes_need_all_their_bytes(e: EndView, eof: bool, q: ReadRequest, timed_out: bool)
    requires
        q.waitall,
        !q.nonblocking,
        !e.nonblock,
        0 < e.data.len() < q.len,
    ensures
        eof || timed_out ==> read_decision(e, eof, q, timed_out, false) == ReadDecision::Take(
            e.data.len() as usize,
        ),
        !eof && !timed_out ==> read_decision(e, eof, q, timed_out, false) == ReadDecision::Wait,
        read_decision(e, false, q, false, true) == ReadDecision::Take(e.data.len() as usize),
{
}

/// A write goes to the peer, behind what waits there, from the start of the buffer and as far as
/// the 65536 bytes of room go.
pub proof fn writes_go_behind_what_waits(
    m: Ends,
    id: usize,
    buf: Seq<u8>,
    nonblocking: bool,
    tid: usize,
    n: Ends,
    r: WriteStep,
)
    requires
        write_called(m, id, buf, nonblocking, false, false, tid, n, r),
        ends_ok(m),
        m.contains_key(id),
        m[id].peer is Some,
        0 < buf.len() <= usize::MAX,
    ensures
        r matches WriteStep::Written(k, woken) ==> {
            let p = m[id].peer->0;
            &&& 0 < k <= buf.len()
            &&& n[p].data =~= m[p].data + buf.take(k as int)
            &&& k == buf.len() || n[p].data.len() == 65536
            &&& n[p].data.len() <= 65536
            &&& n[id] == m[id]
            &&& m[p].readers.len() > 0 ==> woken == Some(m[p].readers[0])
        },
        m[id].write_shut || m[m[id].peer->0].closed || m[m[id].peer->0].read_shut ==> r
            == WriteStep::Fail(Errno::EPIPE) && n == m,
        !m[id].write_shut && !m[m[id].peer->0].closed && !m[m[id].peer->0].read_shut
            && m[m[id].peer->0].data.len() < 65536 ==> r is Written,
        !m[id].write_shut && !m[m[id].peer->0].closed && !m[m[id].peer->0].read_shut
            && m[m[id].peer->0].data.len() == 65536 ==> r == (if m[id].nonblock
            || nonblocking {
            WriteStep::Fail(Errno::EAGAIN)
        } else {
            WriteStep::Wait
        }),
{
}

/// Neither reading nor writing works without a peer, and nothing is always moved at once.
pub proof fn unconnected_ends_move_nothing(
    m: Ends,
    id: usize,
    q: ReadRequest,
    buf: Seq<u8>,
    tid: usize,
    n: Ends,
    r: ReadStep,
    n2: Ends,
    w: WriteStep,
)
    requires
        read_called(m, id, q, false, false, tid, n, r),
        write_called(m, id, buf, false, false, false, tid, n2, w),
        m[id].peer is None,
    ensures
        n == m && n2 == m,
        q.len > 0 ==> r == ReadStep::Fail(Errno::ENOTCONN),
        q.len == 0 ==> r is Data,
        buf.len() > 0 ==> w == WriteStep::Fail(Errno::ENOTCONN),
        buf.len() == 0 ==> w == WriteStep::Written(0, None),
{
}

/// Shutting down for reading drops what waits here; shutting down for writing is seen by the
/// peer. 0 is reading, 1 writing, 2 both.
pub proof fn shutdowns_end_the_named_half(m: Ends, id: usize, how: usize)
    requires
        ends_ok(m),
        m.contains_key(id),
        m[id].peer is Some,
        how <= 2,
    ensures
        ({
            let n = shut_down(m, id, how);
            let p = m[id].peer->0;
            &&& n[id].read_shut == (m[id].read_shut || how != 1)
            &&& n[id].write_shut == (m[id].write_shut || how != 0)
            &&& how != 1 ==> n[id].data.len() == 0 && n[id].readers.len() == 0
                && n[id].writers.len() == 0
            &&& how == 1 ==> n[id].data == m[id].data
            &&& how == 0 ==> n[p] == m[p]
            &&& how != 0 ==> n[p].data == m[p].data && n[p].readers.len() == 0
                && n[p].writers.len() == 0
            &&& n[p].read_shut == m[p].read_shut && n[p].write_shut == m[p].write_shut
        }),
        forall|t: usize|
            how != 1 && (m[id].readers.contains(t) || m[id].writers.contains(t)) || how != 0 && (
            m[m[id].peer->0].readers.contains(t) || m[m[id].peer->0].writers.contains(t))
                <==> #[trigger] shutdown_wakes(m, id, how).contains(t),
{
    let e = m[id];
    let p = m[e.peer->0];
    let a: Seq<usize> = if how == 1 {
        Seq::empty()
    } else {
        e.writers + e.readers
    };
    let b: Seq<usize> = if how == 0 {
        Seq::empty()
    } else {
        p.readers + p.writers
    };
    assert forall|t: usize| #[trigger] shutdown_wakes(m, id, how).contains(t) == (how != 1 && (
    e.readers.contains(t) || e.writers.contains(t)) || how != 0 && (p.readers.contains(t)
        || p.writers.contains(t))) by {
        vstd::seq_lib::lemma_seq_concat_contains_all_elements(a, b, t);
        vstd::seq_lib::lemma_seq_concat_contains_all_elements(e.writers, e.readers, t);
        vstd::seq_lib::lemma_seq_concat_contains_all_elements(p.readers, p.writers, t);
    }
}

/// A connection joins the two ends: each has the other as its peer, the client knows the
/// listener's name and credentials, and the new end knows the client's.
pub proof fn connections_join_two_ends(
    m: Ends,
    l: Listeners,
    id2: usize,
    id: usize,
    key: Seq<u8>,
    c: UnixPeerCredentials,
    n: Ends,
    ln: Listeners,
    r: SysResult<(usize, Option<usize>)>,
    k: usize,
)
    requires
        connected(m, l, id2, id, key, c, n, ln, r),
        listeners_ok(l, m),
        m.contains_key(id),
        listens_as(l, key, k),
        m[id].peer is None,
    ensures
        (r is Ok) == (l[k].pending.len() < 128),
        r is Ok ==> {
            &&& n[id].peer == Some(id2) && n[id2].peer == Some(id)
            &&& n[id].peer_key == Some(key) && n[id2].key == Some(key) && n[id2].peer_key
                == m[id].key
            &&& n[id].credentials == Some(l[k].credentials) && n[id2].credentials == Some(c)
            &&& n[id].key == m[id].key && n[id].data == m[id].data
            &&& n[id2].data.len() == 0 && !n[id2].closed && !n[id2].read_shut && !n[id2].write_shut
            &&& ln[k].pending == l[k].pending.push(id2)
            &&& forall|j: usize| j != id && m.contains_key(j) ==> n[j] == m[j]
        },
        r is Err ==> r->Err_0 == Errno::EAGAIN && n == m && ln == l,
{
    let q = choose|q: usize| listens_as(l, key, q);
    assert(listens_as(l, key, q));
    assert(l[k].key == l[q].key);
}

/// A connection to a name that nobody listens at is refused, and so is a second one.
pub proof fn connections_need_a_listener(
    m: Ends,
    l: Listeners,
    id2: usize,
    id: usize,
    key: Seq<u8>,
    c: UnixPeerCredentials,
    n: Ends,
    ln: Listeners,
    r: SysResult<(usize, Option<usize>)>,
)
    requires
        connected(m, l, id2, id, key, c, n, ln, r),
    ensures
        m[id].peer is Some ==> r is Err && r->Err_0 == Errno::EISCONN,
        m[id].peer is None && (forall|k: usize| !listens_as(l, key, k)) ==> r is Err && r->Err_0
            == Errno::ECONNREFUSED,
        r is Err ==> n == m && ln == l,
{
}

/// An end that listens has a name that nobody else listens at.
pub proof fn listeners_have_their_own_name(
    m: Ends,
    l: Listeners,
    k: usize,
    id: usize,
    c: UnixPeerCredentials,
    n: Ends,
    ln: Listeners,
    r: SysResult<()>,
)
    requires
        listened(m, l, k, id, c, n, ln, r),
    ensures
        m[id].key is None ==> r == Err::<(), Errno>(Errno::EINVAL),
        m[id].key matches Some(key) ==> (r is Ok) == (forall|q: usize| !listens_as(l, key, q)),
        m[id].key matches Some(key) ==> (r is Err ==> r == Err::<(), Errno>(Errno::EADDRINUSE)),
        r is Ok ==> n[id].listener == Some(k) && ln[k].key == m[id].key->0 && ln[k].credentials == c
            && ln[k].pending.len() == 0 && n[id].key == m[id].key && n[id].peer == m[id].peer,
        r is Err ==> n == m && ln == l,
{
}

/// The connection that waits longest is accepted; without one the caller waits, unless told not
/// to.
pub proof fn waiting_connections_are_accepted(
    m: Ends,
    l: Listeners,
    id: usize,
    timed_out: bool,
    interrupted: bool,
    tid: usize,
    ln: Listeners,
    r: AcceptStep,
    k: usize,
)
    requires
        accept_done(m, l, id, timed_out, interrupted, tid, ln, r),
        m[id].listener == Some(k),
    ensures
        l[k].pending.len() > 0 ==> (r matches AcceptStep::Accepted(x) && seq![x] + ln[k].pending
            =~= l[k].pending),
        l[k].pending.len() == 0 && (m[id].nonblock || timed_out) ==> r == AcceptStep::Fail(
            Errno::EAGAIN,
        ) && ln == l,
        l[k].pending.len() == 0 && !m[id].nonblock && !timed_out && interrupted ==> r
            == AcceptStep::Fail(Errno::EINTR) && ln == l,
        l[k].pending.len() == 0 && !m[id].nonblock && !timed_out && !interrupted ==> r
            == AcceptStep::Wait && ln[k].waiters == l[k].waiters.push(tid),
{
}

/// An end that does not listen accepts nothing.
pub proof fn only_listeners_accept(
    m: Ends,
    l: Listeners,
    id: usize,
    tid: usize,
    ln: Listeners,
    r: AcceptStep,
)
    requires
        accept_done(m, l, id, false, false, tid, ln, r),
        m[id].listener is None,
    ensures
        r == AcceptStep::Fail(Errno::EINVAL) && ln == l,
{
}

/// An end can be read when data or a connection waits or nothing more will come; it can be
/// written when its peer has room or will take nothing more.
pub proof fn readiness_is_told_per_half(m: Ends, l: Listeners, id: usize)
    ensures
        m[id].data.len() > 0 ==> can_read(m, l, id),
        m[id].read_shut ==> can_read(m, l, id),
        m[id].listener matches Some(k) ==> l[k].pending.len() > 0 ==> can_read(m, l, id),
        m[id].peer matches Some(p) ==> m[p].closed || m[p].write_shut ==> can_read(m, l, id),
        can_read(m, l, id) && m[id].data.len() == 0 && !m[id].read_shut && m[id].listener is None
            ==> (m[id].peer matches Some(p) && (m[p].closed || m[p].write_shut)),
        m[id].peer is None ==> can_write(m, id) == m[id].write_shut,
        m[id].peer matches Some(p) ==> !m[id].write_shut && !m[p].closed && !m[p].read_shut
            ==> can_write(m, id) == (m[p].data.len() < 65536),
{
}

/// A wait that ran out of time ends a call as one that must not wait; an interrupted one ends
/// it with that error, and any other lets it go on.
pub proof fn waits_end_calls_late_or_interrupted(waited: SysResult<bool>, r: Option<Errno>)
    requires
        wait_result(waited, r),
    ensures
        waited == Ok::<bool, Errno>(true) ==> r == Some(Errno::EAGAIN),
        waited == Ok::<bool, Errno>(false) ==> r is None,
        waited matches Err(e) ==> r == Some(e),
{
}

/// A read that waited gives up its place and, unless it was only woken, ends with what has come.
pub proof fn late_reads_take_what_has_come(
    before: Ends,
    after: Ends,
    id: usize,
    q: ReadRequest,
    waited: SysResult<bool>,
    tid: usize,
    r: Option<ReadStep>,
)
    requires
        read_went_on(before, after, id, q, waited, tid, r),
        before.contains_key(id),
        before[id].peer is Some,
        before[id].peer->0 != id,
        q.len > 0,
    ensures
        (r is None) == (waited == Ok::<bool, Errno>(false)),
        !after[id].readers.contains(tid),
        waited != Ok::<bool, Errno>(false) && before[id].data.len() > 0 ==> (
        r matches Some(ReadStep::Data(b, _, _)) && b@.len() > 0 && b@.is_prefix_of(
            before[id].data,
        )),
        waited == Ok::<bool, Errno>(true) && before[id].data.len() == 0 && !at_eof(before, id) ==> r
            == Some(ReadStep::Fail(Errno::EAGAIN)),
        waited matches Err(e) ==> before[id].data.len() == 0 && !at_eof(before, id) ==> r == Some(
            ReadStep::Fail(e),
        ),
{
    let f = before[id].readers.filter(other_tid(tid));
    assert(!f.contains(tid)) by {
        if f.contains(tid) {
            let i = choose|i: int| 0 <= i < f.len() && f[i] == tid;
            before[id].readers.lemma_filter_pred(other_tid(tid), i);
        }
    }
}

/// Dropping an end that has a peer closes it for both and wakes the peer's readers and its own
/// writers; the peer keeps its data. An end without a peer goes at once, and both go when the
/// second is dropped.
pub proof fn dropped_ends_are_seen_by_their_peer(m: Ends, id: usize)
    requires
        m.contains_key(id),
    ensures
        m[id].peer is None ==> !dropped(m, id).contains_key(id) && drop_wakes(m, id)
            == m[id].writers,
        m[id].peer matches Some(p) ==> p != id && m.contains_key(p) ==> {
            &&& m[p].closed ==> !dropped(m, id).contains_key(id) && !dropped(m, id).contains_key(p)
            &&& !m[p].closed ==> dropped(m, id)[id].closed && dropped(m, id)[id].read_shut
                && dropped(m, id)[id].write_shut && dropped(m, id)[p].data == m[p].data
                && dropped(m, id)[p].peer == m[p].peer && !dropped(m, id)[p].closed
            &&& drop_wakes(m, id) =~= m[p].readers + m[id].writers
        },
        forall|j: usize|
            j != id && m[id].peer != Some(j) && m.contains_key(j) ==> dropped(
                m,
                id,
            ).contains_key(j) && #[trigger] dropped(m, id)[j] == m[j],
{
    if m[id].peer is None {
        assert(Seq::<usize>::empty() + m[id].writers =~= m[id].writers);
    }
}

/// Who waits on an end waits for its own data, for room at its peer, and for connections where
/// it listens.
pub proof fn waiters_wait_at_both_ends(e: EndView, id: usize, events: PollEvents)
    ensures
        poll_places(e, id, events)[0] == (
            PollTarget::Buffer(id),
            PollEvents { read: events.read, write: false, hup: events.hup },
        ),
        e.peer matches Some(p) ==> poll_places(e, id, events)[1] == (
            PollTarget::Buffer(p),
            PollEvents { read: false, write: events.write, hup: false },
        ),
        poll_places(e, id, events).len() == 1 + (if e.peer is Some {
            1int
        } else {
            0
        }) + (if e.listener is Some && events.read {
            1int
        } else {
            0
        }),
        e.listener matches Some(l) ==> events.read ==> poll_places(e, id, events).last() == (
            PollTarget::Listener(l),
            PollEvents { read: true, write: false, hup: false },
        ),
{
}

} // verus!
