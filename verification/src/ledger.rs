//! The ledger: a node's record of the ballots that it has seen decided.

use crate::ballot::{Ballot, BallotView};
use std::collections::HashMap;
use vstd::prelude::*;

verus! {

/// The entry that a decided ballot leaves under its id: its value, or the
/// empty string where it decided no value.
pub open spec fn entry_of(ballot: BallotView) -> Seq<char> {
    match ballot.value {
        Some(value) => value,
        None => Seq::empty(),
    }
}

/// The ledger's contents after it has learned a ballot: the entry under the
/// ballot's id is the ballot's, every other entry stays.
pub open spec fn learned(entries: Map<u64, Seq<char>>, ballot: BallotView) -> Map<u64, Seq<char>> {
    entries.insert(ballot.id, entry_of(ballot))
}

/// Decided values by ballot id.
#[derive(Debug)]
pub struct Ledger {
    entries: HashMap<u64, String>,
}

impl View for Ledger {
    type V = Map<u64, Seq<char>>;

    closed spec fn view(&self) -> Map<u64, Seq<char>> {
        Map::new(|id: u64| self.entries@.contains_key(id), |id: u64| self.entries@[id]@)
    }
}

impl Ledger {
    pub fn new() -> (ledger: Ledger)
        ensures
            ledger@ == Map::<u64, Seq<char>>::empty(),
    {
        let ledger = Ledger { entries: HashMap::new() };
        assert(ledger@ =~= Map::<u64, Seq<char>>::empty());
        ledger
    }

    /// Records a decided ballot under its id, in place of what stood there.
    pub fn learn(&mut self, ballot: &Ballot)
        ensures
            final(self)@ == learned(old(self)@, ballot@),
    {
        let entry = match &ballot.value {
            Some(value) => value.clone(),
            None => String::new(),
        };
        self.entries.insert(ballot.id, entry);
        assert(self@ =~= learned(old(self)@, ballot@));
    }

    /// The value decided under the given ballot id, if the ledger holds one.
    pub fn get(&self, id: u64) -> (entry: Option<String>)
        ensures
            match entry {
                Some(value) => self@.contains_key(id) && self@[id] == value@,
                None => !self@.contains_key(id),
            },
    {
        match self.entries.get(&id) {
            Some(value) => Some(value.clone()),
            None => None,
        }
    }

    /// Whether the ledger holds an entry under the given ballot id.
    pub fn contains(&self, id: u64) -> (held: bool)
        ensures
            held == self@.contains_key(id),
    {
        self.entries.contains_key(&id)
    }

    /// The number of entries.
    pub fn len(&self) -> (count: usize)
        ensures
            count == self@.len(),
            self@.dom().finite(),
    {
        proof {
            assert(self@.dom() =~= self.entries@.dom());
        }
        self.entries.len()
    }

    pub fn is_empty(&self) -> (empty: bool)
        ensures
            empty == (self@.len() == 0),
    {
        self.len() == 0
    }
}

/// Learning a ballot a second time changes nothing.
pub proof fn lemma_learn_is_idempotent(entries: Map<u64, Seq<char>>, ballot: BallotView)
    ensures
        learned(learned(entries, ballot), ballot) == learned(entries, ballot),
{
    assert(learned(learned(entries, ballot), ballot) =~= learned(entries, ballot));
}

/// After a ballot is learned, the entry under its id is the ballot's own,
/// whatever stood there before, and every other entry is as it was.
pub proof fn lemma_learn_sets_one_entry(entries: Map<u64, Seq<char>>, ballot: BallotView, id: u64)
    ensures
        learned(entries, ballot).contains_key(ballot.id),
        learned(entries, ballot)[ballot.id] == entry_of(ballot),
        id != ballot.id ==> learned(entries, ballot).contains_key(id) == entries.contains_key(id),
        id != ballot.id && entries.contains_key(id) ==> learned(entries, ballot)[id] == entries[id],
{
}

impl Default for Ledger {
    fn default() -> (ledger: Ledger)
        ensures
            ledger@ == Map::<u64, Seq<char>>::empty(),
    {
        Ledger::new()
    }
}

} // verus!
