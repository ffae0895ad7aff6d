//! Quorum arithmetic, and the rule that picks the value of a round.

use crate::reply::{views, Reply, ReplyView};
use vstd::prelude::*;

verus! {

/// The number of nodes, the proposer among them, that must stand behind a
/// phase of a round of a node with `peer_count` peers.
pub open spec fn quorum_size(peer_count: nat) -> nat {
    peer_count / 2 + 1
}

/// The number of replies among the first `n` that grant a ballot.
pub open spec fn granted_among(replies: Seq<ReplyView>, n: int) -> nat
    decreases n,
{
    if n <= 0 {
        0
    } else if replies[n - 1].granted() is Some {
        granted_among(replies, n - 1) + 1
    } else {
        granted_among(replies, n - 1)
    }
}

/// The number of replies that grant a ballot.
pub open spec fn granted_count(replies: Seq<ReplyView>) -> nat {
    granted_among(replies, replies.len() as int)
}

/// The number of replies among the first `n` that report no error.
pub open spec fn confirmed_among(replies: Seq<ReplyView>, n: int) -> nat
    decreases n,
{
    if n <= 0 {
        0
    } else if replies[n - 1].confirms() {
        confirmed_among(replies, n - 1) + 1
    } else {
        confirmed_among(replies, n - 1)
    }
}

/// The number of replies that report no error.
pub open spec fn confirmed_count(replies: Seq<ReplyView>) -> nat {
    confirmed_among(replies, replies.len() as int)
}

/// Whether `granted` peers and the proposer itself make a quorum.
pub open spec fn reaches_quorum(peer_count: nat, granted: nat) -> bool {
    granted + 1 >= quorum_size(peer_count)
}

/// Whether reply `i` leads the first `n` replies: it grants a ballot, no
/// granted ballot among them has a greater id, and none after it has the same.
pub open spec fn leads_among(replies: Seq<ReplyView>, n: int, i: int) -> bool {
    &&& 0 <= i < n <= replies.len()
    &&& replies[i].granted() is Some
    &&& forall|j: int|
        0 <= j < n && (#[trigger] replies[j]).granted() is Some ==> {
            &&& replies[j].granted().unwrap().id <= replies[i].granted().unwrap().id
            &&& j > i ==> replies[j].granted().unwrap().id < replies[i].granted().unwrap().id
        }
}

/// Whether reply `i` leads all the replies.
pub open spec fn leads(replies: Seq<ReplyView>, i: int) -> bool {
    leads_among(replies, replies.len() as int, i)
}

/// Whether none of the first `n` replies grants a ballot.
pub open spec fn none_granted_among(replies: Seq<ReplyView>, n: int) -> bool {
    forall|j: int| 0 <= j < n ==> (#[trigger] replies[j]).granted() is None
}

/// The value that a round proposes: the value of the leading reply's ballot,
/// or the client's value where no reply grants a ballot or the leading ballot
/// has no value.
pub open spec fn resolution(replies: Seq<ReplyView>, fallback: Seq<char>) -> Seq<char> {
    if exists|i: int| leads(replies, i) {
        let i = choose|i: int| leads(replies, i);
        match replies[i].granted().unwrap().value {
            Some(value) => value,
            None => fallback,
        }
    } else {
        fallback
    }
}

/// At most one reply leads.
pub proof fn lemma_leader_is_unique(replies: Seq<ReplyView>, n: int, i: int, j: int)
    requires
        leads_among(replies, n, i),
        leads_among(replies, n, j),
    ensures
        i == j,
{
}

/// Among replies of which none grants a ballot, none leads, and the round
/// proposes the client's value.
pub proof fn lemma_no_grant_no_leader(replies: Seq<ReplyView>, fallback: Seq<char>)
    requires
        none_granted_among(replies, replies.len() as int),
    ensures
        forall|i: int| !leads(replies, i),
        resolution(replies, fallback) == fallback,
{
}

/// The round proposes the value of the ballot of the reply that leads.
pub proof fn lemma_resolution_follows_leader(replies: Seq<ReplyView>, fallback: Seq<char>, i: int)
    requires
        leads(replies, i),
    ensures
        resolution(replies, fallback) == match replies[i].granted().unwrap().value {
            Some(value) => value,
            None => fallback,
        },
{
    let chosen = choose|k: int| leads(replies, k);
    lemma_leader_is_unique(replies, replies.len() as int, i, chosen);
}

/// The granted ballot with the greatest id decides: where one reply grants
/// a ballot with a value and every other granted ballot has a smaller id, the
/// round proposes that value, not the client's and not another reply's.
pub proof fn lemma_greatest_ballot_decides(replies: Seq<ReplyView>, fallback: Seq<char>, i: int)
    requires
        0 <= i < replies.len(),
        replies[i].granted() is Some,
        replies[i].granted().unwrap().value is Some,
        forall|j: int|
            0 <= j < replies.len() && j != i && (#[trigger] replies[j]).granted() is Some
                ==> replies[j].granted().unwrap().id < replies[i].granted().unwrap().id,
    ensures
        resolution(replies, fallback) == replies[i].granted().unwrap().value.unwrap(),
{
    assert(leads(replies, i));
    lemma_resolution_follows_leader(replies, fallback, i);
}

/// Where every granted ballot is a bare promise, the round proposes the
/// client's value.
pub proof fn lemma_bare_promises_keep_client_value(replies: Seq<ReplyView>, fallback: Seq<char>)
    requires
        forall|j: int|
            0 <= j < replies.len() && (#[trigger] replies[j]).granted() is Some
                ==> replies[j].granted().unwrap().value is None,
    ensures
        resolution(replies, fallback) == fallback,
{
}

/// Among the first `n` replies one leads, unless none of them grants a
/// ballot.
pub proof fn lemma_leader_exists(replies: Seq<ReplyView>, n: int)
    requires
        0 <= n <= replies.len(),
    ensures
        none_granted_among(replies, n) || exists|i: int| leads_among(replies, n, i),
    decreases n,
{
    if n > 0 {
        let m = n - 1;
        lemma_leader_exists(replies, m);
        if replies[m].granted() is Some {
            if none_granted_among(replies, m) {
                assert(leads_among(replies, n, m));
            } else {
                let i = choose|i: int| leads_among(replies, m, i);
                if replies[m].granted().unwrap().id >= replies[i].granted().unwrap().id {
                    assert(leads_among(replies, n, m));
                } else {
                    assert(leads_among(replies, n, i));
                }
            }
        } else {
            if !none_granted_among(replies, m) {
                let i = choose|i: int| leads_among(replies, m, i);
                assert(leads_among(replies, n, i));
            }
        }
    }
}

/// The number of nodes that make a quorum: half the peers, rounded down, and
/// one more.
pub fn quorum(peer_count: usize) -> (size: usize)
    ensures
        size == quorum_size(peer_count as nat),
{
    peer_count / 2 + 1
}

/// Counts the replies that grant a ballot.
pub fn count_granted(replies: &Vec<Reply>) -> (count: usize)
    ensures
        count == granted_count(views(replies@)),
{
    let mut count: usize = 0;
    let mut k: usize = 0;
    while k < replies.len()
        invariant
            k <= replies.len(),
            count == granted_among(views(replies@), k as int),
            count <= k,
        decreases replies.len() - k,
    {
        if replies[k].granted().is_some() {
            count = count + 1;
        }
        k = k + 1;
    }
    count
}

/// Counts the replies that report no error.
pub fn count_confirmed(replies: &Vec<Reply>) -> (count: usize)
    ensures
        count == confirmed_count(views(replies@)),
{
    let mut count: usize = 0;
    let mut k: usize = 0;
    while k < replies.len()
        invariant
            k <= replies.len(),
            count == confirmed_among(views(replies@), k as int),
            count <= k,
        decreases replies.len() - k,
    {
        if replies[k].confirms() {
            count = count + 1;
        }
        k = k + 1;
    }
    count
}

/// Whether `granted` peers, counted with the proposer itself, make a quorum
/// of a node with `peer_count` peers.
pub fn has_quorum(peer_count: usize, granted: usize) -> (reached: bool)
    ensures
        reached == reaches_quorum(peer_count as nat, granted as nat),
{
    granted >= peer_count / 2
}

/// Finds the reply that leads: among those that grant a ballot, the one with
/// the greatest id, and of several with that id the last.
pub fn leading_reply(replies: &Vec<Reply>) -> (found: Option<usize>)
    ensures
        match found {
            Some(i) => leads(views(replies@), i as int),
            None => none_granted_among(views(replies@), replies@.len() as int),
        },
{
    let mut found: Option<usize> = None;
    let mut greatest: u64 = 0;
    let mut k: usize = 0;
    while k < replies.len()
        invariant
            k <= replies.len(),
            views(replies@).len() == replies.len(),
            match found {
                Some(i) => leads_among(views(replies@), k as int, i as int)
                    && greatest == views(replies@)[i as int].granted().unwrap().id,
                None => none_granted_among(views(replies@), k as int),
            },
        decreases replies.len() - k,
    {
        match replies[k].granted() {
            Some(ballot) => {
                if found.is_none() || ballot.id >= greatest {
                    found = Some(k);
                    greatest = ballot.id;
                }
            },
            None => {},
        }
        k = k + 1;
    }
    found
}

/// Resolves the value that a round proposes from the replies to its prepare
/// requests. A value that some acceptor has accepted already is kept: the one
/// under the greatest ballot id. The client's value is proposed only where no
/// reply brings one.
pub fn resolve(replies: &Vec<Reply>, value: String) -> (resolved: String)
    ensures
        resolved@ == resolution(views(replies@), value@),
{
    match leading_reply(replies) {
        Some(i) => {
            proof {
                lemma_resolution_follows_leader(views(replies@), value@, i as int);
            }
            match replies[i].granted() {
                Some(ballot) => match &ballot.value {
                    Some(accepted) => accepted.clone(),
                    None => value,
                },
                None => value,
            }
        },
        None => {
            proof {
                lemma_no_grant_no_leader(views(replies@), value@);
            }
            value
        },
    }
}

} // verus!
