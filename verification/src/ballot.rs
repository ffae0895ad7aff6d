//! Ballots: numbered proposals that order competing rounds.

use vstd::prelude::*;

verus! {

/// The mathematical value of a [`Ballot`].
pub struct BallotView {
    pub id: u64,
    pub value: Option<Seq<char>>,
}

/// A numbered proposal. `value` is `None` for a bare promise, one that carries
/// no previously accepted value.
#[derive(Debug, PartialEq, Eq)]
pub struct Ballot {
    pub id: u64,
    pub value: Option<String>,
}

impl View for Ballot {
    type V = BallotView;

    open spec fn view(&self) -> BallotView {
        BallotView { id: self.id, value: text_view(self.value) }
    }
}

/// The characters of an optional string.
pub open spec fn text_view(text: Option<String>) -> Option<Seq<char>> {
    match text {
        Some(s) => Some(s@),
        None => None,
    }
}

/// Copies an optional string.
pub fn clone_text(text: &Option<String>) -> (copy: Option<String>)
    ensures
        copy == *text,
{
    match text {
        Some(s) => Some(s.clone()),
        None => None,
    }
}

impl Ballot {
    pub fn new(id: u64, value: Option<String>) -> (ballot: Ballot)
        ensures
            ballot.id == id,
            ballot.value == value,
    {
        Ballot { id, value }
    }
}

impl Clone for Ballot {
    fn clone(&self) -> (copy: Ballot)
        ensures
            copy == *self,
    {
        Ballot { id: self.id, value: clone_text(&self.value) }
    }
}

} // verus!
