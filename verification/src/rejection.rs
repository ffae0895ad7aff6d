//! The reasons for which a node turns a request down.

use vstd::prelude::*;

verus! {

/// The phase of a round in which too few peers answered.
#[derive(Clone, Copy, Debug, PartialEq, Eq, Structural)]
pub enum Phase {
    Prepare,
    Accept,
}

/// Why a peer was not added to the membership directory.
#[derive(Clone, Copy, Debug, PartialEq, Eq, Structural)]
pub enum PeerConflict {
    /// The peer's id is the node's own id.
    OwnId,
    /// A peer with that id is in the directory already.
    AlreadyKnown,
}

#[derive(Clone, Copy, Debug, PartialEq, Eq, Structural)]
pub enum Rejection {
    /// A prepare request carried an id below the acceptor's watermark.
    StaleProposal,
    /// An accept request carried an id other than the acceptor's watermark.
    BallotMismatch,
    /// Fewer nodes than a quorum stood behind a phase of a round.
    QuorumNotReached(Phase),
    /// The membership directory refused a peer.
    DuplicateOrSelfPeer(PeerConflict),
    /// What a peer sent is malformed: an identifier that is no unsigned 64-bit
    /// integer, or an address that is no endpoint.
    MalformedInput,
}

impl Rejection {
    /// The explanation that a client is shown.
    pub open spec fn explanation(self) -> Seq<char> {
        match self {
            Rejection::StaleProposal => "The proposal ID is lesser than the last accepted ballot number"@,
            Rejection::BallotMismatch => "Node received a proposal with a ballot ID different!"@,
            Rejection::QuorumNotReached(Phase::Prepare) => "Proposal does not receive promises of the entire quorum"@,
            Rejection::QuorumNotReached(Phase::Accept) => "Proposal not accepted by majority"@,
            Rejection::DuplicateOrSelfPeer(PeerConflict::OwnId) => "You can't connect in the same node!"@,
            Rejection::DuplicateOrSelfPeer(PeerConflict::AlreadyKnown) => "You're already connected in this node!"@,
            Rejection::MalformedInput => "The identifier or the address is malformed"@,
        }
    }

    pub fn message(&self) -> (text: String)
        ensures
            text@ == self.explanation(),
    {
        match self {
            Rejection::StaleProposal => "The proposal ID is lesser than the last accepted ballot number".to_string(),
            Rejection::BallotMismatch => "Node received a proposal with a ballot ID different!".to_string(),
            Rejection::QuorumNotReached(Phase::Prepare) => "Proposal does not receive promises of the entire quorum".to_string(),
            Rejection::QuorumNotReached(Phase::Accept) => "Proposal not accepted by majority".to_string(),
            Rejection::DuplicateOrSelfPeer(PeerConflict::OwnId) => "You can't connect in the same node!".to_string(),
            Rejection::DuplicateOrSelfPeer(PeerConflict::AlreadyKnown) => "You're already connected in this node!".to_string(),
            Rejection::MalformedInput => "The identifier or the address is malformed".to_string(),
        }
    }

    /// The status of the response that reports this rejection: every
    /// rejection is the client's error.
    pub fn status(&self) -> (code: u16)
        ensures
            code == 400,
    {
        400
    }
}

} // verus!
