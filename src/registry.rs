//! The shared server state: the server's name, the transcript of chat
//! messages, and the record of every live connection with its outbound queue.
use vstd::prelude::*;

use tokio::sync::mpsc::UnboundedSender;

use crate::message::{Message, MessageView, User};
use crate::protocol::{
    entries_view, Operation, OperationView, PeerAddr, ServerCommand, ServerCommandView,
    UserEntryView,
};

verus! {

#[verifier::external_type_specification]
#[verifier::external_body]
#[verifier::reject_recursive_types(T)]
pub struct ExUnboundedSender<T>(UnboundedSender<T>);

/// Relies on tokio's `UnboundedSender::send`: the operation is queued for the
/// receiving half, or handed back when that half is gone, which is dropped
/// here. Nothing is promised of either outcome.
#[verifier::external_body]
fn push_outbound(tx: &UnboundedSender<Operation>, op: Operation) {
    let _ = tx.send(op);
}

/// The registry's record of one live connection.
pub struct SendPeer {
    tx: UnboundedSender<Operation>,
    username: User,
    addr: PeerAddr,
    /// Every operation handed to `tx`, in order.
    queued: Ghost<Seq<OperationView>>,
}

/// The model of a [`SendPeer`]: its user's name (empty until set), its
/// address, and what has been pushed onto its outbound queue.
pub struct PeerView {
    pub name: Seq<char>,
    pub addr: Seq<char>,
    pub queued: Seq<OperationView>,
}

impl View for SendPeer {
    type V = PeerView;

    closed spec fn view(&self) -> PeerView {
        PeerView { name: self.username@, addr: self.addr@, queued: self.queued@ }
    }
}

/// The state shared by all sessions of a server.
///
/// The records are kept in a `Vec`, keyed by address through the invariant
/// that no two share one ([`distinct_addrs`]): a `HashMap` keyed by an
/// address type of the library's own comes with no specification that
/// Verus could prove anything from.
pub struct ServerState {
    name: String,
    history: Vec<(User, Message)>,
    peers: Vec<SendPeer>,
}

/// The model of a [`ServerState`].
pub struct ServerStateView {
    pub name: Seq<char>,
    pub history: Seq<(Seq<char>, MessageView)>,
    pub peers: Seq<PeerView>,
}

impl View for ServerState {
    type V = ServerStateView;

    closed spec fn view(&self) -> ServerStateView {
        ServerStateView {
            name: self.name@,
            history: self.history@.map_values(|e: (User, Message)| (e.0@, e.1@)),
            peers: self.peers@.map_values(|p: SendPeer| p@),
        }
    }
}

/// No two records share an address.
pub open spec fn distinct_addrs(peers: Seq<PeerView>) -> bool {
    forall|i: int, j: int|
        0 <= i < peers.len() && 0 <= j < peers.len() && i != j ==> #[trigger] peers[i].addr
            != #[trigger] peers[j].addr
}

/// The records that remain once the one at `addr` is gone.
pub open spec fn without_addr(peers: Seq<PeerView>, addr: Seq<char>) -> Seq<PeerView> {
    peers.filter(|p: PeerView| p.addr != addr)
}

/// The records after a fresh, unnamed record for `addr` was registered; an
/// earlier record at the same address is replaced.
pub open spec fn registered(peers: Seq<PeerView>, addr: Seq<char>) -> Seq<PeerView> {
    without_addr(peers, addr).push(PeerView { name: Seq::empty(), addr, queued: Seq::empty() })
}

/// The records after the one at `addr` took the name `name`.
pub open spec fn renamed(peers: Seq<PeerView>, addr: Seq<char>, name: Seq<char>) -> Seq<PeerView> {
    peers.map_values(|p: PeerView| if p.addr == addr { PeerView { name, ..p } } else { p })
}

/// One record after a broadcast of `op` that skips the addresses in `excludes`.
pub open spec fn delivered(p: PeerView, op: OperationView, excludes: Seq<Seq<char>>) -> PeerView {
    if excludes.contains(p.addr) {
        p
    } else {
        PeerView { queued: p.queued.push(op), ..p }
    }
}

/// The records after a broadcast of `op` that skips the addresses in `excludes`.
pub open spec fn broadcast_to(
    peers: Seq<PeerView>,
    op: OperationView,
    excludes: Seq<Seq<char>>,
) -> Seq<PeerView> {
    peers.map_values(|p: PeerView| delivered(p, op, excludes))
}

/// The entry of the user list for one record, if its user has a name.
pub open spec fn named_entry(p: PeerView) -> Option<UserEntryView> {
    if p.name.len() > 0 {
        Some((p.name, p.addr))
    } else {
        None
    }
}

/// The user list: name and address of every record whose name is set, in
/// registry order.
pub open spec fn user_list_of(peers: Seq<PeerView>) -> Seq<UserEntryView>
    decreases peers.len(),
{
    if peers.len() == 0 {
        Seq::empty()
    } else {
        let rest = user_list_of(peers.drop_last());
        match named_entry(peers.last()) {
            Some(e) => rest.push(e),
            None => rest,
        }
    }
}

/// The operation that announces the current user list.
pub open spec fn user_list_op(peers: Seq<PeerView>) -> OperationView {
    OperationView::FromServer(ServerCommandView::UserList(user_list_of(peers)))
}

/// Filtering keeps a sequence whole when every element passes.
proof fn lemma_filter_keeps_all<A>(s: Seq<A>, pred: spec_fn(A) -> bool)
    requires
        forall|i: int| 0 <= i < s.len() ==> pred(#[trigger] s[i]),
    ensures
        s.filter(pred) == s,
    decreases s.len(),
{
    reveal_with_fuel(Seq::filter, 1);
    if s.len() > 0 {
        lemma_filter_keeps_all(s.drop_last(), pred);
        assert(s.drop_last().push(s.last()) =~= s);
    }
}

/// Filtering out the one element that fails is removing it.
pub(crate) proof fn lemma_filter_drops_one<A>(s: Seq<A>, pred: spec_fn(A) -> bool, k: int)
    requires
        0 <= k < s.len(),
        !pred(s[k]),
        forall|i: int| 0 <= i < s.len() && i != k ==> pred(#[trigger] s[i]),
    ensures
        s.filter(pred) == s.remove(k),
{
    let a = s.subrange(0, k);
    let b = s.subrange(k, k + 1);
    let c = s.subrange(k + 1, s.len() as int);
    assert(s =~= a + b + c);
    Seq::filter_distributes_over_add(a + b, c, pred);
    Seq::filter_distributes_over_add(a, b, pred);
    lemma_filter_keeps_all(a, pred);
    lemma_filter_keeps_all(c, pred);
    reveal_with_fuel(Seq::filter, 2);
    assert(b.drop_last() =~= Seq::<A>::empty());
    assert(b.filter(pred) =~= Seq::<A>::empty());
    assert(s.remove(k) =~= a + c);
}

/// The model of a list of addresses.
pub open spec fn addrs_view(v: Seq<PeerAddr>) -> Seq<Seq<char>> {
    v.map_values(|a: PeerAddr| a@)
}

/// Whether `addr` is one of `addrs`.
fn contains_addr(addrs: &Vec<PeerAddr>, addr: &PeerAddr) -> (r: bool)
    ensures
        r == addrs_view(addrs@).contains(addr@),
{
    let ghost all = addrs_view(addrs@);
    let mut i: usize = 0;
    while i < addrs.len()
        invariant
            i <= addrs@.len(),
            all == addrs_view(addrs@),
            forall|j: int| 0 <= j < i ==> #[trigger] all[j] != addr@,
        decreases addrs@.len() - i,
    {
        if addrs[i].same_as(addr) {
            assert(all[i as int] == addr@);
            return true;
        }
        i = i + 1;
    }
    false
}

impl ServerState {
    /// No two records share an address.
    pub open spec fn wf(&self) -> bool {
        distinct_addrs(self@.peers)
    }

    /// An empty state for a server called `name`.
    pub fn new(name: String) -> (r: ServerState)
        ensures
            r.wf(),
            r@.name == name@,
            r@.history == Seq::<(Seq<char>, MessageView)>::empty(),
            r@.peers == Seq::<PeerView>::empty(),
    {
        let r = ServerState { name, history: Vec::new(), peers: Vec::new() };
        assert(r@.history =~= Seq::<(Seq<char>, MessageView)>::empty());
        assert(r@.peers =~= Seq::<PeerView>::empty());
        r
    }

    /// The server's display name.
    pub fn name(&self) -> (r: &str)
        ensures
            r@ == self@.name,
    {
        self.name.as_str()
    }

    /// The transcript of chat messages, oldest first.
    pub fn history(&self) -> (r: &Vec<(User, Message)>)
        ensures
            r@.map_values(|e: (User, Message)| (e.0@, e.1@)) == self@.history,
    {
        &self.history
    }

    /// The number of live connections.
    pub fn peer_count(&self) -> (r: usize)
        ensures
            r == self@.peers.len(),
    {
        self.peers.len()
    }

    /// The position of the record at `addr`, if there is one.
    fn position(&self, addr: &PeerAddr) -> (r: Option<usize>)
        ensures
            match r {
                Some(k) => k < self@.peers.len() && self@.peers[k as int].addr == addr@,
                None => forall|i: int|
                    0 <= i < self@.peers.len() ==> #[trigger] self@.peers[i].addr != addr@,
            },
    {
        let mut i: usize = 0;
        while i < self.peers.len()
            invariant
                i <= self@.peers.len(),
                self@.peers.len() == self.peers@.len(),
                forall|j: int| 0 <= j < i ==> #[trigger] self@.peers[j].addr != addr@,
            decreases self.peers@.len() - i,
        {
            if self.peers[i].addr.same_as(addr) {
                return Some(i);
            }
            i = i + 1;
        }
        None
    }

    /// Forgets the record at `addr`, if there is one; a session's teardown
    /// calls it once.
    pub fn deregister(&mut self, addr: &PeerAddr)
        requires
            old(self).wf(),
        ensures
            final(self).wf(),
            final(self)@.name == old(self)@.name,
            final(self)@.history == old(self)@.history,
            final(self)@.peers == without_addr(old(self)@.peers, addr@),
    {
        let ghost before = self@.peers;
        let ghost pred = |p: PeerView| p.addr != addr@;
        match self.position(addr) {
            Some(k) => {
                self.peers.remove(k);
                proof {
                    lemma_filter_drops_one(before, pred, k as int);
                    assert(self@.peers =~= before.remove(k as int));
                }
            },
            None => {
                proof {
                    lemma_filter_keeps_all(before, pred);
                }
            },
        }
    }

    /// Records a new connection at `addr`, with an empty name and `tx` as its
    /// outbound queue, before its session consumes any event; a record left
    /// at the same address is replaced.
    pub fn register(&mut self, addr: PeerAddr, tx: UnboundedSender<Operation>)
        requires
            old(self).wf(),
        ensures
            final(self).wf(),
            final(self)@.name == old(self)@.name,
            final(self)@.history == old(self)@.history,
            final(self)@.peers == registered(old(self)@.peers, addr@),
    {
        self.deregister(&addr);
        let ghost before = self@.peers;
        let peer = SendPeer { tx, username: String::new(), addr, queued: Ghost(Seq::empty()) };
        self.peers.push(peer);
        proof {
            assert(self@.peers =~= before.push(peer@));
            assert forall|i: int| 0 <= i < before.len() implies #[trigger] before[i].addr
                != peer@.addr by {
                Seq::lemma_filter_pred(old(self)@.peers, |p: PeerView| p.addr != peer@.addr, i);
            }
        }
    }

    /// Gives the record at `addr` the name `name`; names need not be unique.
    pub fn set_name(&mut self, addr: &PeerAddr, name: String)
        requires
            old(self).wf(),
        ensures
            final(self).wf(),
            final(self)@.name == old(self)@.name,
            final(self)@.history == old(self)@.history,
            final(self)@.peers == renamed(old(self)@.peers, addr@, name@),
    {
        let ghost before = self@.peers;
        match self.position(addr) {
            Some(k) => {
                self.peers[k].username = name;
                proof {
                    assert(self@.peers =~= renamed(before, addr@, name@));
                }
            },
            None => {
                proof {
                    assert(self@.peers =~= renamed(before, addr@, name@));
                }
            },
        }
    }

    /// Appends a chat message from `user` to the transcript.
    pub fn append(&mut self, user: User, message: Message)
        ensures
            final(self)@.name == old(self)@.name,
            final(self)@.history == old(self)@.history.push((user@, message@)),
            final(self)@.peers == old(self)@.peers,
    {
        let ghost before = self@.history;
        self.history.push((user, message));
        assert(self@.history =~= before.push((user@, message@)));
    }

    /// Pushes `op` onto the outbound queue of every record whose address is
    /// not in `excludes`.
    pub fn broadcast(&mut self, op: Operation, excludes: &Vec<PeerAddr>)
        requires
            old(self).wf(),
        ensures
            final(self).wf(),
            final(self)@.name == old(self)@.name,
            final(self)@.history == old(self)@.history,
            final(self)@.peers == broadcast_to(
                old(self)@.peers,
                op@,
                addrs_view(excludes@),
            ),
    {
        let ghost before = self@.peers;
        let ghost skip = addrs_view(excludes@);
        let mut i: usize = 0;
        while i < self.peers.len()
            invariant
                i <= self.peers@.len(),
                self.peers@.len() == before.len(),
                skip == addrs_view(excludes@),
                self.name@ == old(self)@.name,
                self@.history == old(self)@.history,
                forall|j: int|
                    0 <= j < i ==> #[trigger] self@.peers[j] == delivered(before[j], op@, skip),
                forall|j: int| i <= j < before.len() ==> #[trigger] self@.peers[j] == before[j],
            decreases self.peers@.len() - i,
        {
            let ghost prev = self@.peers;
            assert(prev[i as int] == before[i as int]);
            if !contains_addr(excludes, &self.peers[i].addr) {
                push_outbound(&self.peers[i].tx, op.duplicate());
                let ghost q = self.peers[i as int].queued@.push(op@);
                self.peers[i].queued = Ghost(q);
            }
            assert(self@.peers[i as int] == delivered(before[i as int], op@, skip));
            assert forall|j: int| 0 <= j < before.len() && j != i implies #[trigger] self@.peers[j]
                == prev[j] by {}
            i = i + 1;
        }
        assert(self@.peers =~= broadcast_to(before, op@, skip));
    }

    /// The name and address of every record whose name is set, in registry
    /// order.
    pub fn user_list(&self) -> (r: Vec<(User, PeerAddr)>)
        ensures
            entries_view(r@) == user_list_of(self@.peers),
    {
        let ghost all = self@.peers;
        let mut r: Vec<(User, PeerAddr)> = Vec::new();
        let mut i: usize = 0;
        while i < self.peers.len()
            invariant
                i <= self.peers@.len(),
                all == self@.peers,
                self.peers@.len() == all.len(),
                entries_view(r@) == user_list_of(all.take(i as int)),
            decreases self.peers@.len() - i,
        {
            assert(all.take(i + 1).drop_last() =~= all.take(i as int));
            let ghost prev = r@;
            assert(all[i as int] == self.peers@[i as int]@);
            if !self.peers[i].username.as_str().is_empty() {
                r.push((self.peers[i].username.clone(), self.peers[i].addr.duplicate()));
                assert(entries_view(r@) =~= entries_view(prev).push(
                    (all[i as int].name, all[i as int].addr),
                ));
            }
            i = i + 1;
        }
        assert(all.take(i as int) =~= all);
        r
    }

    /// Broadcasts the current user list to every record.
    pub fn broadcast_user_list(&mut self)
        requires
            old(self).wf(),
        ensures
            final(self).wf(),
            final(self)@.name == old(self)@.name,
            final(self)@.history == old(self)@.history,
            final(self)@.peers == broadcast_to(
                old(self)@.peers,
                user_list_op(old(self)@.peers),
                Seq::empty(),
            ),
    {
        let users = self.user_list();
        let none: Vec<PeerAddr> = Vec::new();
        self.broadcast(Operation::FromServer(ServerCommand::UserList(users)), &none);
        assert(addrs_view(none@) =~= Seq::<Seq<char>>::empty());
    }
}

} // verus!
