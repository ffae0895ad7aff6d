//! The acceptor: what a node has promised and what it has accepted.

use crate::ballot::{clone_text, text_view, Ballot, BallotView};
use crate::rejection::Rejection;
use vstd::prelude::*;

verus! {

/// The mathematical value of an [`Acceptor`].
pub struct AcceptorView {
    pub last_ballot_number: u64,
    pub accepted_proposal: Option<Seq<char>>,
}

/// The highest ballot number that the node has promised, and the value that it
/// has accepted, if any.
#[derive(Debug)]
pub struct Acceptor {
    pub last_ballot_number: u64,
    pub accepted_proposal: Option<String>,
}

impl View for Acceptor {
    type V = AcceptorView;

    open spec fn view(&self) -> AcceptorView {
        AcceptorView {
            last_ballot_number: self.last_ballot_number,
            accepted_proposal: text_view(self.accepted_proposal),
        }
    }
}

impl AcceptorView {
    /// The acceptor that has promised nothing and accepted nothing.
    pub open spec fn initial() -> AcceptorView {
        AcceptorView { last_ballot_number: 0, accepted_proposal: None }
    }

    /// What a prepare request with the given id is answered: a promise that
    /// carries the value accepted so far, unless the id is below the
    /// watermark.
    pub open spec fn prepare_answer(self, proposal_id: u64) -> Result<BallotView, Rejection> {
        if proposal_id < self.last_ballot_number {
            Err(Rejection::StaleProposal)
        } else {
            Ok(BallotView { id: proposal_id, value: self.accepted_proposal })
        }
    }

    /// The acceptor after a prepare request with the given id.
    pub open spec fn after_prepare(self, proposal_id: u64) -> AcceptorView {
        if proposal_id < self.last_ballot_number {
            self
        } else {
            AcceptorView { last_ballot_number: proposal_id, ..self }
        }
    }

    /// What an accept request for the given ballot is answered: the ballot
    /// itself, unless its id is not the watermark.
    pub open spec fn accept_answer(self, ballot: BallotView) -> Result<BallotView, Rejection> {
        if ballot.id != self.last_ballot_number {
            Err(Rejection::BallotMismatch)
        } else {
            Ok(ballot)
        }
    }

    /// The acceptor after an accept request for the given ballot.
    pub open spec fn after_accept(self, ballot: BallotView) -> AcceptorView {
        if ballot.id != self.last_ballot_number {
            self
        } else {
            AcceptorView { accepted_proposal: ballot.value, ..self }
        }
    }
}

/// A request that an acceptor answers.
pub enum Request {
    Prepare { id: u64 },
    Accept { ballot: BallotView },
}

impl AcceptorView {
    /// What the request is answered.
    pub open spec fn answer(self, request: Request) -> Result<BallotView, Rejection> {
        match request {
            Request::Prepare { id } => self.prepare_answer(id),
            Request::Accept { ballot } => self.accept_answer(ballot),
        }
    }

    /// The acceptor after the request.
    pub open spec fn after(self, request: Request) -> AcceptorView {
        match request {
            Request::Prepare { id } => self.after_prepare(id),
            Request::Accept { ballot } => self.after_accept(ballot),
        }
    }

    /// The acceptor after the requests, one after the other.
    pub open spec fn after_all(self, requests: Seq<Request>) -> AcceptorView
        decreases requests.len(),
    {
        if requests.len() == 0 {
            self
        } else {
            self.after_all(requests.drop_last()).after(requests.last())
        }
    }
}

/// The view of an acceptor's answer.
pub open spec fn answer_view(answer: Result<Ballot, Rejection>) -> Result<BallotView, Rejection> {
    match answer {
        Ok(ballot) => Ok(ballot@),
        Err(rejection) => Err(rejection),
    }
}

impl Acceptor {
    pub fn new() -> (acceptor: Acceptor)
        ensures
            acceptor@ == AcceptorView::initial(),
    {
        Acceptor { last_ballot_number: 0, accepted_proposal: None }
    }

    /// Answers a prepare request. An id below the watermark is stale and
    /// changes nothing; any other id becomes the watermark and is promised,
    /// together with the value accepted so far.
    pub fn handle_prepare(&mut self, proposal_id: u64) -> (answer: Result<Ballot, Rejection>)
        ensures
            answer_view(answer) == old(self)@.prepare_answer(proposal_id),
            final(self)@ == old(self)@.after_prepare(proposal_id),
            proposal_id < old(self).last_ballot_number ==> *final(self) == *old(self),
            final(self).last_ballot_number >= old(self).last_ballot_number,
    {
        if proposal_id < self.last_ballot_number {
            return Err(Rejection::StaleProposal);
        }
        self.last_ballot_number = proposal_id;
        Ok(Ballot { id: proposal_id, value: clone_text(&self.accepted_proposal) })
    }

    /// Answers an accept request. A ballot whose id is not the watermark is
    /// turned down and changes nothing; any other replaces the accepted value
    /// and is echoed.
    pub fn handle_accept(&mut self, ballot: Ballot) -> (answer: Result<Ballot, Rejection>)
        ensures
            answer_view(answer) == old(self)@.accept_answer(ballot@),
            final(self)@ == old(self)@.after_accept(ballot@),
            ballot.id != old(self).last_ballot_number ==> *final(self) == *old(self),
            final(self).last_ballot_number == old(self).last_ballot_number,
    {
        if ballot.id != self.last_ballot_number {
            return Err(Rejection::BallotMismatch);
        }
        self.accepted_proposal = clone_text(&ballot.value);
        Ok(ballot)
    }
}

/// A prepare request below the watermark is stale, and leaves the acceptor as
/// it was.
pub proof fn lemma_stale_prepare_changes_nothing(acceptor: AcceptorView, proposal_id: u64)
    requires
        proposal_id < acceptor.last_ballot_number,
    ensures
        acceptor.prepare_answer(proposal_id) == Err::<BallotView, Rejection>(
            Rejection::StaleProposal,
        ),
        acceptor.after_prepare(proposal_id) == acceptor,
{
}

/// An accept request replaces the accepted value if its ballot's id is the
/// watermark, and leaves the acceptor as it was if it is not.
pub proof fn lemma_accept_takes_current_ballot_only(acceptor: AcceptorView, ballot: BallotView)
    ensures
        ballot.id == acceptor.last_ballot_number ==> acceptor.accept_answer(ballot) == Ok::<
            BallotView,
            Rejection,
        >(ballot) && acceptor.after_accept(ballot).accepted_proposal == ballot.value,
        ballot.id != acceptor.last_ballot_number ==> acceptor.accept_answer(ballot) == Err::<
            BallotView,
            Rejection,
        >(Rejection::BallotMismatch) && acceptor.after_accept(ballot) == acceptor,
{
}

/// No request lowers the watermark, and the accepted value changes only by
/// an accept request whose ballot's id is the watermark.
pub proof fn lemma_request_keeps_promise(acceptor: AcceptorView, request: Request)
    ensures
        acceptor.after(request).last_ballot_number >= acceptor.last_ballot_number,
        acceptor.after(request).accepted_proposal != acceptor.accepted_proposal ==> request
            is Accept && request->Accept_ballot.id == acceptor.last_ballot_number
            && acceptor.after(request).accepted_proposal == request->Accept_ballot.value,
{
}

/// Over any sequence of requests the watermark never falls: after the first
/// `n` of them it is no higher than after all.
pub proof fn lemma_watermark_never_falls(acceptor: AcceptorView, requests: Seq<Request>, n: int)
    requires
        0 <= n <= requests.len(),
    ensures
        acceptor.after_all(requests.take(n)).last_ballot_number <= acceptor.after_all(
            requests,
        ).last_ballot_number,
    decreases requests.len() - n,
{
    if n == requests.len() {
        assert(requests.take(n) =~= requests);
    } else {
        lemma_watermark_never_falls(acceptor, requests, n + 1);
        assert(requests.take(n + 1).drop_last() =~= requests.take(n));
        lemma_request_keeps_promise(acceptor.after_all(requests.take(n)), requests[n]);
    }
}

/// A promise is kept: once the watermark has reached `promised`, then after
/// any requests whatever a prepare request below it is stale and an accept
/// request below it is a mismatch.
pub proof fn lemma_promise_is_kept(
    acceptor: AcceptorView,
    promised: u64,
    requests: Seq<Request>,
    late: BallotView,
)
    requires
        acceptor.last_ballot_number >= promised,
        late.id < promised,
    ensures
        acceptor.after_all(requests).prepare_answer(late.id) == Err::<BallotView, Rejection>(
            Rejection::StaleProposal,
        ),
        acceptor.after_all(requests).accept_answer(late) == Err::<BallotView, Rejection>(
            Rejection::BallotMismatch,
        ),
{
    lemma_watermark_never_falls(acceptor, requests, 0);
    assert(requests.take(0) =~= Seq::<Request>::empty());
}

impl Default for Acceptor {
    fn default() -> (acceptor: Acceptor)
        ensures
            acceptor@ == AcceptorView::initial(),
    {
        Acceptor::new()
    }
}

impl Clone for Acceptor {
    fn clone(&self) -> (copy: Acceptor)
        ensures
            copy == *self,
    {
        Acceptor {
            last_ballot_number: self.last_ballot_number,
            accepted_proposal: clone_text(&self.accepted_proposal),
        }
    }
}

} // verus!
