//! The answer that an acceptor sends to a proposer.

use crate::acceptor::answer_view;
use crate::ballot::{Ballot, BallotView};
use crate::rejection::Rejection;
use vstd::prelude::*;

verus! {

/// The mathematical value of a [`Reply`].
pub struct ReplyView {
    pub error: Option<Seq<char>>,
    pub value: Option<BallotView>,
}

/// An acceptor's answer to a prepare or an accept request: either an
/// explanation of why it turned the request down, or the ballot that it
/// promised or accepted.
#[derive(Debug, PartialEq, Eq)]
pub struct Reply {
    pub error: Option<String>,
    pub value: Option<Ballot>,
}

impl View for Reply {
    type V = ReplyView;

    open spec fn view(&self) -> ReplyView {
        ReplyView {
            error: match self.error {
                Some(text) => Some(text@),
                None => None,
            },
            value: match self.value {
                Some(ballot) => Some(ballot@),
                None => None,
            },
        }
    }
}

impl ReplyView {
    /// The ballot that the reply grants: the one it carries, unless it reports
    /// an error.
    pub open spec fn granted(self) -> Option<BallotView> {
        if self.error is None {
            self.value
        } else {
            None
        }
    }

    /// Whether the reply confirms what was asked: it reports no error,
    /// whether or not it carries a ballot.
    pub open spec fn confirms(self) -> bool {
        self.error is None
    }

    /// The reply that reports the given answer.
    pub open spec fn of_answer(answer: Result<BallotView, Rejection>) -> ReplyView {
        match answer {
            Ok(ballot) => ReplyView { error: None, value: Some(ballot) },
            Err(rejection) => ReplyView { error: Some(rejection.explanation()), value: None },
        }
    }

    /// The status of the response that carries the reply.
    pub open spec fn status(self) -> u16 {
        if self.error is None {
            200
        } else {
            400
        }
    }
}

/// The views of a sequence of replies, in order.
pub open spec fn views(replies: Seq<Reply>) -> Seq<ReplyView> {
    replies.map_values(|reply: Reply| reply@)
}

/// The view of a borrowed ballot, if there is one.
pub open spec fn borrowed_view(ballot: Option<&Ballot>) -> Option<BallotView> {
    match ballot {
        Some(b) => Some(b@),
        None => None,
    }
}

impl Reply {
    /// The reply that reports an acceptor's answer: the ballot where the
    /// acceptor granted the request, its explanation where it did not.
    pub fn from_answer(answer: Result<Ballot, Rejection>) -> (reply: Reply)
        ensures
            reply@ == ReplyView::of_answer(answer_view(answer)),
    {
        match answer {
            Ok(ballot) => Reply { error: None, value: Some(ballot) },
            Err(rejection) => Reply { error: Some(rejection.message()), value: None },
        }
    }

    /// The status of the response that carries this reply: 200 for a grant,
    /// 400 for an error.
    pub fn status(&self) -> (code: u16)
        ensures
            code == self@.status(),
    {
        if self.error.is_none() {
            200
        } else {
            400
        }
    }

    /// Whether this reply confirms what was asked: it reports no error.
    pub fn confirms(&self) -> (confirmed: bool)
        ensures
            confirmed == self@.confirms(),
    {
        self.error.is_none()
    }

    /// The ballot that this reply grants, if it grants one.
    pub fn granted(&self) -> (ballot: Option<&Ballot>)
        ensures
            borrowed_view(ballot) == self@.granted(),
    {
        if self.error.is_none() {
            self.value.as_ref()
        } else {
            None
        }
    }
}

} // verus!
