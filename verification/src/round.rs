//! One round of the protocol, as the node that drives it sees it.
//!
//! The round is a state machine. Whoever runs it hands it an event, performs
//! the action that it answers with, and comes back with the next event: the
//! replies to what was sent. The value that the round proposes is resolved in
//! the step that takes the promises, on the way from preparing to proposing.

use crate::ballot::{Ballot, BallotView};
use crate::ledger::{learned, Ledger};
use crate::proposer::{prepare_outcome, propose_outcome, settle_prepare, Proposer};
use crate::quorum::{confirmed_count, granted_count, reaches_quorum, resolution};
use crate::rejection::{Phase, Rejection};
use crate::reply::{views, Reply, ReplyView};
use vstd::prelude::*;

verus! {

/// The mathematical value of a [`Round`].
pub enum RoundView {
    Idle,
    Preparing { id: u64, value: Seq<char> },
    Proposing { ballot: BallotView },
    Committing { ballot: BallotView },
    Done,
    Aborted,
}

/// Where a round stands.
#[derive(Debug, PartialEq, Eq)]
pub enum Round {
    /// No value has been submitted yet.
    Idle,
    /// The prepare requests are out under ballot id `id`; `value` is what the
    /// client submitted.
    Preparing { id: u64, value: String },
    /// The value is resolved and the accept requests for `ballot` are out.
    Proposing { ballot: Ballot },
    /// A quorum has accepted `ballot` and the learn messages are out.
    Committing { ballot: Ballot },
    /// The ballot is decided and stands in the node's own ledger.
    Done,
    /// A phase fell short of a quorum.
    Aborted,
}

impl View for Round {
    type V = RoundView;

    open spec fn view(&self) -> RoundView {
        match *self {
            Round::Idle => RoundView::Idle,
            Round::Preparing { id, value } => RoundView::Preparing { id, value: value@ },
            Round::Proposing { ballot } => RoundView::Proposing { ballot: ballot@ },
            Round::Committing { ballot } => RoundView::Committing { ballot: ballot@ },
            Round::Done => RoundView::Done,
            Round::Aborted => RoundView::Aborted,
        }
    }
}

/// The mathematical value of an [`Event`].
pub enum EventView {
    Submit { value: Seq<char> },
    Promises { peer_count: nat, replies: Seq<ReplyView> },
    Confirmations { peer_count: nat, replies: Seq<ReplyView> },
    Learned,
}

/// What happened since the round's last action.
#[derive(Debug, PartialEq, Eq)]
pub enum Event {
    /// A client submitted a value.
    Submit { value: String },
    /// The prepare requests are answered: `peer_count` peers were asked, and
    /// `replies` holds the answers of those that were reached.
    Promises { peer_count: usize, replies: Vec<Reply> },
    /// The accept requests are answered: `peer_count` peers were asked, and
    /// `replies` holds the answers of those that were reached.
    Confirmations { peer_count: usize, replies: Vec<Reply> },
    /// The learn messages are sent.
    Learned,
}

impl View for Event {
    type V = EventView;

    open spec fn view(&self) -> EventView {
        match *self {
            Event::Submit { value } => EventView::Submit { value: value@ },
            Event::Promises { peer_count, replies } => EventView::Promises {
                peer_count: peer_count as nat,
                replies: views(replies@),
            },
            Event::Confirmations { peer_count, replies } => EventView::Confirmations {
                peer_count: peer_count as nat,
                replies: views(replies@),
            },
            Event::Learned => EventView::Learned,
        }
    }
}

/// The mathematical value of an [`Action`].
pub enum ActionView {
    SendPrepare { id: u64 },
    SendAccept { ballot: BallotView },
    SendLearn { ballot: BallotView },
    Succeed,
    Fail { reason: Rejection },
    Ignore,
}

/// What the node is to do next.
#[derive(Debug, PartialEq, Eq)]
pub enum Action {
    /// Send a prepare request with this id to every peer, then report the
    /// replies as [`Event::Promises`].
    SendPrepare { id: u64 },
    /// Send an accept request for this ballot to every peer, then report the
    /// replies as [`Event::Confirmations`].
    SendAccept { ballot: Ballot },
    /// Send this ballot to every peer as decided, then report
    /// [`Event::Learned`].
    SendLearn { ballot: Ballot },
    /// Tell the client that its round is decided.
    Succeed,
    /// Tell the client that its round is given up, and why.
    Fail { reason: Rejection },
    /// Nothing: the event does not belong to the round's state.
    Ignore,
}

impl View for Action {
    type V = ActionView;

    open spec fn view(&self) -> ActionView {
        match *self {
            Action::SendPrepare { id } => ActionView::SendPrepare { id },
            Action::SendAccept { ballot } => ActionView::SendAccept { ballot: ballot@ },
            Action::SendLearn { ballot } => ActionView::SendLearn { ballot: ballot@ },
            Action::Succeed => ActionView::Succeed,
            Action::Fail { reason } => ActionView::Fail { reason },
            Action::Ignore => ActionView::Ignore,
        }
    }
}

/// A node's part in a round: its ballot counter, its ledger, and where the
/// round stands.
pub struct Driver {
    pub counter: u64,
    pub ledger: Map<u64, Seq<char>>,
    pub round: RoundView,
}

/// Whether the ballot counter can start the round that the event asks for.
pub open spec fn can_take(driver: Driver, event: EventView) -> bool {
    driver.round is Idle && event is Submit ==> driver.counter < u64::MAX
}

/// The node's part in the round after the given event.
pub open spec fn after_event(driver: Driver, event: EventView) -> Driver {
    match (driver.round, event) {
        (RoundView::Idle, EventView::Submit { value }) => Driver {
            counter: (driver.counter + 1) as u64,
            round: RoundView::Preparing { id: (driver.counter + 1) as u64, value },
            ..driver
        },
        (RoundView::Preparing { id, value }, EventView::Promises { peer_count, replies }) => {
            match prepare_outcome(id, peer_count, replies, value) {
                Ok(ballot) => Driver { round: RoundView::Proposing { ballot }, ..driver },
                Err(_) => Driver { round: RoundView::Aborted, ..driver },
            }
        },
        (RoundView::Proposing { ballot }, EventView::Confirmations { peer_count, replies }) => {
            match propose_outcome(peer_count, replies) {
                Ok(_) => Driver { round: RoundView::Committing { ballot }, ..driver },
                Err(_) => Driver { round: RoundView::Aborted, ..driver },
            }
        },
        (RoundView::Committing { ballot }, EventView::Learned) => Driver {
            ledger: learned(driver.ledger, ballot),
            round: RoundView::Done,
            ..driver
        },
        _ => driver,
    }
}

/// What the node is to do after the given event.
pub open spec fn action_on(driver: Driver, event: EventView) -> ActionView {
    match (driver.round, event) {
        (RoundView::Idle, EventView::Submit { value }) => ActionView::SendPrepare {
            id: (driver.counter + 1) as u64,
        },
        (RoundView::Preparing { id, value }, EventView::Promises { peer_count, replies }) => {
            match prepare_outcome(id, peer_count, replies, value) {
                Ok(ballot) => ActionView::SendAccept { ballot },
                Err(reason) => ActionView::Fail { reason },
            }
        },
        (RoundView::Proposing { ballot }, EventView::Confirmations { peer_count, replies }) => {
            match propose_outcome(peer_count, replies) {
                Ok(_) => ActionView::SendLearn { ballot },
                Err(reason) => ActionView::Fail { reason },
            }
        },
        (RoundView::Committing { ballot }, EventView::Learned) => ActionView::Succeed,
        _ => ActionView::Ignore,
    }
}

/// The node's part in the round after the given events, one after the other.
pub open spec fn after_events(driver: Driver, events: Seq<EventView>) -> Driver
    decreases events.len(),
{
    if events.len() == 0 {
        driver
    } else {
        after_event(after_events(driver, events.drop_last()), events.last())
    }
}

impl ActionView {
    /// The status and the text of the answer that the action owes the
    /// client, where it owes one.
    pub open spec fn response(self) -> Option<(u16, Seq<char>)> {
        match self {
            ActionView::Succeed => Some((200u16, "Proposal accepted by the majority!"@)),
            ActionView::Fail { reason } => Some((400u16, reason.explanation())),
            _ => None,
        }
    }
}

impl Action {
    /// The status and the text of the answer to the client, where the action
    /// ends the round: 200 for a decided round, 400 with the reason for one
    /// that is given up.
    pub fn response(&self) -> (answer: Option<(u16, String)>)
        ensures
            match answer {
                Some((status, text)) => self@.response() == Some((status, text@)),
                None => self@.response() is None,
            },
    {
        match self {
            Action::Succeed => Some((200, "Proposal accepted by the majority!".to_string())),
            Action::Fail { reason } => Some((reason.status(), reason.message())),
            _ => None,
        }
    }
}

impl Round {
    pub fn new() -> (round: Round)
        ensures
            round@ == RoundView::Idle,
    {
        Round::Idle
    }

    /// Whether the round is over, decided or given up.
    pub fn is_over(&self) -> (over: bool)
        ensures
            over == (self@ is Done || self@ is Aborted),
    {
        match self {
            Round::Done => true,
            Round::Aborted => true,
            _ => false,
        }
    }

    /// Takes the round one step further. A submitted value starts the round
    /// under the counter's next ballot id, which the round keeps; promises
    /// and confirmations are counted against the quorum, and a phase that
    /// falls short of it ends the round; once the learn messages are sent, the decided ballot enters the
    /// node's own ledger. An event that does not belong to the round's state
    /// changes nothing.
    pub fn step(self, proposer: &mut Proposer, ledger: &mut Ledger, event: Event) -> (next: (
        Round,
        Action,
    ))
        requires
            can_take(
                Driver { counter: old(proposer).id, ledger: old(ledger)@, round: self@ },
                event@,
            ),
        ensures
            (Driver { counter: final(proposer).id, ledger: final(ledger)@, round: next.0@ })
                == after_event(
                Driver { counter: old(proposer).id, ledger: old(ledger)@, round: self@ },
                event@,
            ),
            next.1@ == action_on(
                Driver { counter: old(proposer).id, ledger: old(ledger)@, round: self@ },
                event@,
            ),
    {
        match (self, event) {
            (Round::Idle, Event::Submit { value }) => {
                let id = proposer.next_ballot();
                (Round::Preparing { id, value }, Action::SendPrepare { id })
            },
            (Round::Preparing { id, value }, Event::Promises { peer_count, replies }) => {
                match settle_prepare(id, peer_count, &replies, value) {
                    Ok(ballot) => {
                        let sent = ballot.clone();
                        (Round::Proposing { ballot }, Action::SendAccept { ballot: sent })
                    },
                    Err(reason) => (Round::Aborted, Action::Fail { reason }),
                }
            },
            (Round::Proposing { ballot }, Event::Confirmations { peer_count, replies }) => {
                match proposer.propose(peer_count, &replies) {
                    Ok(_) => {
                        let sent = ballot.clone();
                        (Round::Committing { ballot }, Action::SendLearn { ballot: sent })
                    },
                    Err(reason) => (Round::Aborted, Action::Fail { reason }),
                }
            },
            (Round::Committing { ballot }, Event::Learned) => {
                ledger.learn(&ballot);
                (Round::Done, Action::Succeed)
            },
            (round, _) => (round, Action::Ignore),
        }
    }
}

/// A prepare phase in which the peers that promised and the proposer itself
/// are fewer than a quorum ends the round: the node reports that the quorum
/// was not reached, sends no accept request, and its counter and its ledger
/// stay as they were.
pub proof fn lemma_prepare_short_of_quorum_aborts(
    driver: Driver,
    peer_count: nat,
    replies: Seq<ReplyView>,
)
    requires
        driver.round is Preparing,
        granted_count(replies) + 1 < peer_count / 2 + 1,
    ensures
        after_event(driver, EventView::Promises { peer_count, replies }) == (Driver {
            round: RoundView::Aborted,
            ..driver
        }),
        action_on(driver, EventView::Promises { peer_count, replies }) == (ActionView::Fail {
            reason: Rejection::QuorumNotReached(Phase::Prepare),
        }),
{
}

/// An accept phase in which the peers whose reply reports no error and the
/// proposer itself are fewer than a quorum ends the round: the node reports
/// that the quorum was not reached, sends no learn message, and its ledger
/// stays as it was.
pub proof fn lemma_accept_short_of_quorum_aborts(
    driver: Driver,
    peer_count: nat,
    replies: Seq<ReplyView>,
)
    requires
        driver.round is Proposing,
        confirmed_count(replies) + 1 < peer_count / 2 + 1,
    ensures
        after_event(driver, EventView::Confirmations { peer_count, replies }) == (Driver {
            round: RoundView::Aborted,
            ..driver
        }),
        action_on(driver, EventView::Confirmations { peer_count, replies }) == (ActionView::Fail {
            reason: Rejection::QuorumNotReached(Phase::Accept),
        }),
{
}

/// Accept requests go out only for a round whose prepare phase reached the
/// quorum, counted in promises, and learn messages only for one whose accept
/// phase did, counted in replies without error.
pub proof fn lemma_phases_need_quorum(driver: Driver, event: EventView)
    ensures
        action_on(driver, event) is SendAccept ==> driver.round is Preparing && event is Promises
            && reaches_quorum(event->Promises_peer_count, granted_count(event->Promises_replies)),
        action_on(driver, event) is SendLearn ==> driver.round is Proposing
            && event is Confirmations && reaches_quorum(
            event->Confirmations_peer_count,
            confirmed_count(event->Confirmations_replies),
        ),
{
}

/// The accept phase succeeds if and only if the replies without error, and
/// one for the proposer itself, reach the quorum.
pub proof fn lemma_accept_counts_replies_without_error(
    driver: Driver,
    peer_count: nat,
    replies: Seq<ReplyView>,
)
    requires
        driver.round is Proposing,
    ensures
        action_on(driver, EventView::Confirmations { peer_count, replies }) is SendLearn
            <==> confirmed_count(replies) + 1 >= peer_count / 2 + 1,
        action_on(driver, EventView::Confirmations { peer_count, replies }) is SendLearn
            || action_on(driver, EventView::Confirmations { peer_count, replies })
            == (ActionView::Fail { reason: Rejection::QuorumNotReached(Phase::Accept) }),
{
}

/// A round proposes under the id that its prepare requests carried, wherever
/// the node's counter has moved to since.
pub proof fn lemma_round_keeps_its_id(driver: Driver, promises: EventView)
    requires
        driver.round is Preparing,
        promises is Promises,
    ensures
        action_on(driver, promises) is SendAccept ==> (action_on(
            driver,
            promises,
        )->SendAccept_ballot).id == driver.round->Preparing_id,
        after_event(driver, promises).round is Proposing ==> (after_event(
            driver,
            promises,
        ).round->Proposing_ballot).id == driver.round->Preparing_id,
        after_event(driver, promises).counter == driver.counter,
{
}

/// The ledger changes only when a round in its last phase learns that its
/// messages are sent, and then by the round's ballot alone.
pub proof fn lemma_ledger_changes_on_commit_only(driver: Driver, event: EventView)
    ensures
        !(driver.round is Committing && event is Learned) ==> after_event(driver, event).ledger
            == driver.ledger,
        driver.round is Committing && event is Learned ==> after_event(driver, event).ledger
            == learned(driver.ledger, driver.round->Committing_ballot),
{
}

/// A round that reaches the quorum in both phases is decided: its ballot
/// carries the id that its prepare requests carried, one above the counter
/// at its start, and the value resolved from the promises, and that ballot
/// is what the node's ledger learns.
pub proof fn lemma_round_with_quorum_is_decided(
    driver: Driver,
    value: Seq<char>,
    promises: EventView,
    confirmations: EventView,
)
    requires
        driver.round is Idle,
        driver.counter < u64::MAX,
        promises is Promises,
        confirmations is Confirmations,
        reaches_quorum(promises->Promises_peer_count, granted_count(promises->Promises_replies)),
        reaches_quorum(
            confirmations->Confirmations_peer_count,
            confirmed_count(confirmations->Confirmations_replies),
        ),
    ensures
        ({
            let id = (driver.counter + 1) as u64;
            let ballot = BallotView {
                id,
                value: Some(resolution(promises->Promises_replies, value)),
            };
            let events = seq![EventView::Submit { value }, promises, confirmations, EventView::Learned];
            &&& action_on(driver, events[0]) == ActionView::SendPrepare { id }
            &&& action_on(after_events(driver, events.take(1)), events[1])
                == ActionView::SendAccept { ballot }
            &&& action_on(after_events(driver, events.take(2)), events[2])
                == ActionView::SendLearn { ballot }
            &&& action_on(after_events(driver, events.take(3)), events[3]) == ActionView::Succeed
            &&& after_events(driver, events) == (Driver {
                counter: id,
                ledger: learned(driver.ledger, ballot),
                round: RoundView::Done,
            })
        }),
{
    let events = seq![EventView::Submit { value }, promises, confirmations, EventView::Learned];
    assert(events.take(1).drop_last() =~= Seq::<EventView>::empty());
    assert(events.take(2).drop_last() =~= events.take(1));
    assert(events.take(3).drop_last() =~= events.take(2));
    assert(events.drop_last() =~= events.take(3));
    assert(after_events(driver, Seq::<EventView>::empty()) == driver);
    assert(after_events(driver, events.take(1)) == after_event(driver, events[0]));
    assert(after_events(driver, events.take(2)) == after_event(
        after_events(driver, events.take(1)),
        events[1],
    ));
    assert(after_events(driver, events.take(3)) == after_event(
        after_events(driver, events.take(2)),
        events[2],
    ));
}

/// A round that is over stays over: whatever events follow, the node's
/// counter and ledger stay as they were and nothing is sent.
pub proof fn lemma_finished_round_is_inert(driver: Driver, events: Seq<EventView>)
    requires
        driver.round is Done || driver.round is Aborted,
    ensures
        after_events(driver, events) == driver,
        forall|event: EventView| action_on(driver, event) is Ignore,
    decreases events.len(),
{
    if events.len() > 0 {
        lemma_finished_round_is_inert(driver, events.drop_last());
    }
}

} // verus!
