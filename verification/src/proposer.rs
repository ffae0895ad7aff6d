//! The proposer: the ballot counter of a node and the decisions of the two
//! phases of a round.

use crate::acceptor::answer_view;
use crate::ballot::{Ballot, BallotView};
use crate::quorum::{
    confirmed_count, count_confirmed, count_granted, granted_count, has_quorum, reaches_quorum,
    resolution, resolve,
};
use crate::rejection::{Phase, Rejection};
use crate::reply::{views, Reply, ReplyView};
use vstd::prelude::*;

verus! {

/// How the prepare phase of the round with the given ballot id ends: with
/// the ballot to propose, where the peers that promised and the proposer
/// itself make a quorum.
pub open spec fn prepare_outcome(
    id: u64,
    peer_count: nat,
    replies: Seq<ReplyView>,
    value: Seq<char>,
) -> Result<BallotView, Rejection> {
    if reaches_quorum(peer_count, granted_count(replies)) {
        Ok(BallotView { id, value: Some(resolution(replies, value)) })
    } else {
        Err(Rejection::QuorumNotReached(Phase::Prepare))
    }
}

/// How the accept phase of a round ends: well, where the peers whose reply
/// reports no error and the proposer itself make a quorum.
pub open spec fn propose_outcome(peer_count: nat, replies: Seq<ReplyView>) -> Result<
    (),
    Rejection,
> {
    if reaches_quorum(peer_count, confirmed_count(replies)) {
        Ok(())
    } else {
        Err(Rejection::QuorumNotReached(Phase::Accept))
    }
}

/// Decides the prepare phase of the round with the given ballot id from
/// the replies of the peers that answered, `peer_count` being the number of
/// peers that were asked. A reply counts as a promise where it reports no
/// error and carries a ballot; the proposer counts itself as one promise.
pub fn settle_prepare(id: u64, peer_count: usize, replies: &Vec<Reply>, value: String) -> (outcome:
    Result<Ballot, Rejection>)
    ensures
        answer_view(outcome) == prepare_outcome(id, peer_count as nat, views(replies@), value@),
{
    let promises = count_granted(replies);
    if !has_quorum(peer_count, promises) {
        return Err(Rejection::QuorumNotReached(Phase::Prepare));
    }
    let resolved = resolve(replies, value);
    Ok(Ballot { id, value: Some(resolved) })
}

/// The ballot counter of a node. It counts the rounds that the node has
/// started, and the id of a round is the counter's value after the round's
/// start.
#[derive(Debug)]
pub struct Proposer {
    pub id: u64,
}

impl Proposer {
    pub fn new() -> (proposer: Proposer)
        ensures
            proposer.id == 0,
    {
        Self { id: 0 }
    }

    /// Starts a round: advances the counter by one and returns the id that
    /// the round's prepare requests carry.
    pub fn next_ballot(&mut self) -> (id: u64)
        requires
            old(self).id < u64::MAX,
        ensures
            id == old(self).id + 1,
            final(self).id == id,
    {
        self.id = self.id + 1;
        self.id
    }

    /// Decides the prepare phase of the round that the counter stands at, as
    /// [`settle_prepare`] does under the counter's value.
    pub fn prepare(&self, peer_count: usize, replies: &Vec<Reply>, value: String) -> (outcome:
        Result<Ballot, Rejection>)
        ensures
            answer_view(outcome) == prepare_outcome(
                self.id,
                peer_count as nat,
                views(replies@),
                value@,
            ),
    {
        settle_prepare(self.id, peer_count, replies, value)
    }

    /// Decides the accept phase of a round from the replies of the peers that
    /// answered, `peer_count` being the number of peers that were asked.
    /// Every reply that reports no error is a confirmation, whether or not it
    /// carries a ballot; the proposer counts itself as one confirmation.
    pub fn propose(&self, peer_count: usize, replies: &Vec<Reply>) -> (outcome: Result<
        (),
        Rejection,
    >)
        ensures
            outcome == propose_outcome(peer_count as nat, views(replies@)),
    {
        let confirmations = count_confirmed(replies);
        if !has_quorum(peer_count, confirmations) {
            return Err(Rejection::QuorumNotReached(Phase::Accept));
        }
        Ok(())
    }
}

impl Default for Proposer {
    fn default() -> (proposer: Proposer)
        ensures
            proposer.id == 0,
    {
        Proposer::new()
    }
}

impl Clone for Proposer {
    fn clone(&self) -> (copy: Proposer)
        ensures
            copy == *self,
    {
        Proposer { id: self.id }
    }
}

} // verus!
