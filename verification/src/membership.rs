//! The membership directory: the peers that a node knows, in the order in
//! which they joined.

use crate::rejection::{PeerConflict, Rejection};
use vstd::prelude::*;

verus! {

/// The mathematical value of a [`Node`].
pub struct NodeView {
    pub id: u64,
    pub addr: Seq<char>,
}

/// A node's identity: its id and the endpoint, host and port, at which it
/// listens.
#[derive(Debug, PartialEq, Eq)]
pub struct Node {
    pub id: u64,
    pub addr: String,
}

impl View for Node {
    type V = NodeView;

    open spec fn view(&self) -> NodeView {
        NodeView { id: self.id, addr: self.addr@ }
    }
}

impl Node {
    pub fn new(id: u64, addr: String) -> (node: Node)
        ensures
            node.id == id,
            node.addr == addr,
    {
        Self { id, addr }
    }
}

impl Clone for Node {
    fn clone(&self) -> (copy: Node)
        ensures
            copy == *self,
    {
        Node { id: self.id, addr: self.addr.clone() }
    }
}

/// The mathematical value of a [`Membership`].
pub struct MembershipView {
    pub own_id: u64,
    pub peers: Seq<NodeView>,
}

impl MembershipView {
    /// Whether a peer with the given id is in the directory.
    pub open spec fn knows(self, id: u64) -> bool {
        exists|i: int| 0 <= i < self.peers.len() && (#[trigger] self.peers[i]).id == id
    }

    /// No peer has the node's own id, and no two peers have the same id.
    pub open spec fn well_formed(self) -> bool {
        &&& !self.knows(self.own_id)
        &&& forall|i: int, j: int|
            0 <= i < j < self.peers.len() ==> (#[trigger] self.peers[i]).id != (
            #[trigger] self.peers[j]).id
    }

    /// Whether a peer with the given id may join: not the node itself, and
    /// not a peer that is known already.
    pub open spec fn admission(self, id: u64) -> Result<(), Rejection> {
        if id == self.own_id {
            Err(Rejection::DuplicateOrSelfPeer(PeerConflict::OwnId))
        } else if self.knows(id) {
            Err(Rejection::DuplicateOrSelfPeer(PeerConflict::AlreadyKnown))
        } else {
            Ok(())
        }
    }

    /// The directory after the given peer asked to join: the peer stands
    /// last where it was admitted, and nothing has changed where it was not.
    pub open spec fn joined(self, peer: NodeView) -> MembershipView {
        if self.admission(peer.id) is Ok {
            MembershipView { peers: self.peers.push(peer), ..self }
        } else {
            self
        }
    }
}

/// The peers that a node knows. A directory is made without peers and grows
/// by [`Membership::add_peer`] alone, so that it is well formed throughout: the
/// node itself is never among its peers, and no id occurs twice.
#[derive(Debug)]
pub struct Membership {
    own_id: u64,
    peers: Vec<Node>,
}

impl View for Membership {
    type V = MembershipView;

    closed spec fn view(&self) -> MembershipView {
        MembershipView {
            own_id: self.own_id,
            peers: self.peers@.map_values(|peer: Node| peer@),
        }
    }
}

impl Membership {
    /// The directory of a node that knows no peer yet.
    pub fn new(own_id: u64) -> (directory: Membership)
        ensures
            directory@ == (MembershipView { own_id, peers: Seq::empty() }),
            directory@.well_formed(),
    {
        let directory = Membership { own_id, peers: Vec::new() };
        assert(directory@.peers =~= Seq::empty());
        directory
    }

    /// The id of the node that owns the directory.
    pub fn own_id(&self) -> (id: u64)
        ensures
            id == self@.own_id,
    {
        self.own_id
    }

    /// The number of peers, the node itself not counted.
    pub fn peer_count(&self) -> (count: usize)
        ensures
            count == self@.peers.len(),
    {
        self.peers.len()
    }

    /// The peers, in the order in which they joined.
    pub fn peers(&self) -> (peers: &Vec<Node>)
        ensures
            peers@.map_values(|peer: Node| peer@) == self@.peers,
    {
        &self.peers
    }

    /// Whether a peer with the given id is in the directory.
    pub fn knows(&self, id: u64) -> (known: bool)
        ensures
            known == self@.knows(id),
    {
        let mut k: usize = 0;
        while k < self.peers.len()
            invariant
                k <= self.peers.len(),
                forall|i: int| 0 <= i < k ==> (#[trigger] self@.peers[i]).id != id,
            decreases self.peers.len() - k,
        {
            if self.peers[k].id == id {
                assert(self@.peers[k as int].id == id);
                return true;
            }
            k = k + 1;
        }
        false
    }

    /// Whether a peer with the given id may join.
    pub fn check_peer(&self, id: u64) -> (verdict: Result<(), Rejection>)
        ensures
            verdict == self@.admission(id),
    {
        if id == self.own_id {
            Err(Rejection::DuplicateOrSelfPeer(PeerConflict::OwnId))
        } else if self.knows(id) {
            Err(Rejection::DuplicateOrSelfPeer(PeerConflict::AlreadyKnown))
        } else {
            Ok(())
        }
    }

    /// Adds a peer at the end of the directory, unless its id is the node's
    /// own or that of a peer that is known already.
    pub fn add_peer(&mut self, id: u64, addr: String) -> (verdict: Result<(), Rejection>)
        ensures
            verdict == old(self)@.admission(id),
            final(self)@ == old(self)@.joined(NodeView { id, addr: addr@ }),
            old(self)@.well_formed() ==> final(self)@.well_formed(),
    {
        let verdict = self.check_peer(id);
        proof {
            if self@.well_formed() {
                lemma_join_keeps_well_formed(self@, NodeView { id, addr: addr@ });
            }
        }
        if verdict.is_ok() {
            self.peers.push(Node { id, addr });
            assert(self@.peers =~= old(self)@.peers.push(NodeView { id, addr: addr@ }));
        }
        verdict
    }
}

/// A directory stays well formed whoever asks to join.
pub proof fn lemma_join_keeps_well_formed(directory: MembershipView, peer: NodeView)
    requires
        directory.well_formed(),
    ensures
        directory.joined(peer).well_formed(),
{
    let after = directory.joined(peer);
    if directory.admission(peer.id) is Ok {
        assert forall|i: int| 0 <= i < after.peers.len() implies (#[trigger] after.peers[i]).id
            != after.own_id by {
            if i < directory.peers.len() {
                assert(directory.peers[i].id != directory.own_id);
            }
        }
        assert forall|i: int, j: int| 0 <= i < j < after.peers.len() implies (
        #[trigger] after.peers[i]).id != (#[trigger] after.peers[j]).id by {
            assert(after.peers[i] == directory.peers[i]);
            if j < directory.peers.len() {
                assert(after.peers[j] == directory.peers[j]);
            }
        }
    }
}

/// A node that asks to join itself is refused, and the directory stays as it
/// was.
pub proof fn lemma_own_id_is_refused(directory: MembershipView, peer: NodeView)
    requires
        peer.id == directory.own_id,
    ensures
        directory.admission(peer.id) == Err::<(), Rejection>(
            Rejection::DuplicateOrSelfPeer(PeerConflict::OwnId),
        ),
        directory.joined(peer) == directory,
{
}

/// Once a peer has joined, whoever asks to join under its id is refused, and
/// the directory stays as it was.
pub proof fn lemma_second_join_is_refused(directory: MembershipView, first: NodeView, second: NodeView)
    requires
        directory.admission(first.id) is Ok,
        second.id == first.id,
    ensures
        directory.joined(first).admission(second.id) == Err::<(), Rejection>(
            Rejection::DuplicateOrSelfPeer(PeerConflict::AlreadyKnown),
        ),
        directory.joined(first).joined(second) == directory.joined(first),
{
    let after = directory.joined(first);
    assert(after.peers[directory.peers.len() as int].id == first.id);
}

/// The directory only grows: whoever asks to join, the peers that were known
/// stay, each at its place.
pub proof fn lemma_join_keeps_peers(directory: MembershipView, peer: NodeView, i: int)
    requires
        0 <= i < directory.peers.len(),
    ensures
        directory.joined(peer).own_id == directory.own_id,
        directory.joined(peer).peers.len() >= directory.peers.len(),
        directory.joined(peer).peers[i] == directory.peers[i],
{
}

} // verus!
