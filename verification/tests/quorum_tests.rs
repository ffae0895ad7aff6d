use paxos_node::ballot::Ballot;
use paxos_node::proposer::Proposer;
use paxos_node::proposer::settle_prepare;
use paxos_node::quorum::{
    count_confirmed, count_granted, has_quorum, leading_reply, quorum, resolve,
};
use paxos_node::rejection::{Phase, Rejection};
use paxos_node::reply::Reply;

fn promise(id: u64, value: Option<&str>) -> Reply {
    Reply { error: None, value: Some(Ballot::new(id, value.map(String::from))) }
}

fn refusal() -> Reply {
    Reply::from_answer(Err(Rejection::StaleProposal))
}

#[test]
fn quorum_is_half_the_peers_and_one() {
    assert_eq!(quorum(0), 1);
    assert_eq!(quorum(1), 1);
    assert_eq!(quorum(2), 2);
    assert_eq!(quorum(3), 2);
    assert_eq!(quorum(4), 3);
    assert_eq!(quorum(5), 3);
    assert_eq!(quorum(100), 51);
    assert_eq!(quorum(usize::MAX), usize::MAX / 2 + 1);
}

#[test]
fn has_quorum_counts_the_proposer_itself() {
    assert!(has_quorum(0, 0));
    assert!(has_quorum(1, 0));
    assert!(!has_quorum(2, 0));
    assert!(has_quorum(2, 1));
    assert!(has_quorum(2, 2));
    assert!(!has_quorum(4, 1));
    assert!(has_quorum(4, 2));
    assert!(!has_quorum(5, 1));
    assert!(has_quorum(5, 2));
    assert!(has_quorum(usize::MAX, usize::MAX));
    assert!(!has_quorum(usize::MAX, 0));
}

#[test]
fn has_quorum_agrees_with_quorum() {
    for peers in 0usize..12 {
        for granted in 0usize..12 {
            assert_eq!(has_quorum(peers, granted), granted + 1 >= quorum(peers));
        }
    }
}

#[test]
fn count_granted_leaves_out_errors_and_empty_replies() {
    let replies = vec![
        promise(1, None),
        refusal(),
        promise(1, Some("x")),
        Reply { error: None, value: None },
        Reply { error: Some(String::from("busy")), value: Some(Ballot::new(1, None)) },
    ];
    assert_eq!(count_granted(&replies), 2);
    assert_eq!(count_granted(&Vec::new()), 0);
}

#[test]
fn count_confirmed_leaves_out_errors_alone() {
    let replies = vec![
        promise(1, None),
        refusal(),
        promise(1, Some("x")),
        Reply { error: None, value: None },
        Reply { error: Some(String::from("busy")), value: Some(Ballot::new(1, None)) },
    ];
    assert_eq!(count_confirmed(&replies), 3);
    assert_eq!(count_confirmed(&Vec::new()), 0);
    assert_eq!(count_confirmed(&vec![refusal(), refusal()]), 0);
}

#[test]
fn tie_break_takes_the_value_under_the_greatest_id() {
    let replies = vec![promise(5, Some("from a")), promise(9, Some("from b"))];
    assert_eq!(leading_reply(&replies), Some(1));
    assert_eq!(resolve(&replies, String::from("mine")), "from b");
    let reversed = vec![promise(9, Some("from b")), promise(5, Some("from a"))];
    assert_eq!(leading_reply(&reversed), Some(0));
    assert_eq!(resolve(&reversed, String::from("mine")), "from b");
}

#[test]
fn tie_break_among_equal_ids_takes_the_last() {
    let replies = vec![promise(4, Some("first")), promise(4, Some("second")), promise(3, Some("low"))];
    assert_eq!(leading_reply(&replies), Some(1));
    assert_eq!(resolve(&replies, String::from("mine")), "second");
}

#[test]
fn bare_promises_fall_back_to_the_client_s_value() {
    let replies = vec![promise(2, None), promise(2, None), promise(2, None)];
    assert_eq!(leading_reply(&replies), Some(2));
    assert_eq!(resolve(&replies, String::from("mine")), "mine");
}

#[test]
fn leading_bare_promise_hides_a_value_under_a_smaller_id() {
    let replies = vec![promise(3, Some("seen")), promise(8, None)];
    assert_eq!(resolve(&replies, String::from("mine")), "mine");
}

#[test]
fn resolve_without_promises_takes_the_client_s_value() {
    assert_eq!(leading_reply(&Vec::new()), None);
    assert_eq!(resolve(&Vec::new(), String::from("mine")), "mine");
    let refused = vec![refusal(), refusal()];
    assert_eq!(leading_reply(&refused), None);
    assert_eq!(resolve(&refused, String::from("mine")), "mine");
}

#[test]
fn resolve_passes_over_replies_that_report_an_error() {
    let replies = vec![
        promise(1, Some("granted")),
        Reply { error: Some(String::from("no")), value: Some(Ballot::new(9, Some(String::from("refused")))) },
    ];
    assert_eq!(leading_reply(&replies), Some(0));
    assert_eq!(resolve(&replies, String::from("mine")), "granted");
}

#[test]
fn resolve_handles_the_greatest_id() {
    let replies = vec![promise(u64::MAX, Some("top")), promise(0, Some("bottom"))];
    assert_eq!(resolve(&replies, String::from("mine")), "top");
    let zero = vec![promise(0, Some("bottom"))];
    assert_eq!(leading_reply(&zero), Some(0));
    assert_eq!(resolve(&zero, String::from("mine")), "bottom");
}

#[test]
fn new_proposer_starts_at_zero_and_counts_by_one() {
    let mut proposer = Proposer::new();
    assert_eq!(proposer.id, 0);
    assert_eq!(proposer.next_ballot(), 1);
    assert_eq!(proposer.next_ballot(), 2);
    assert_eq!(proposer.id, 2);
    assert_eq!(Proposer::default().id, 0);
    assert_eq!(proposer.clone().id, 2);
}

#[test]
fn prepare_with_a_quorum_gives_the_ballot_to_propose() {
    let mut proposer = Proposer::new();
    let id = proposer.next_ballot();
    let replies = vec![promise(id, None)];
    assert_eq!(
        proposer.prepare(2, &replies, String::from("hello")),
        Ok(Ballot::new(1, Some(String::from("hello"))))
    );
}

#[test]
fn prepare_keeps_a_value_that_is_in_flight() {
    let mut proposer = Proposer::new();
    proposer.next_ballot();
    proposer.next_ballot();
    let replies = vec![promise(2, None), promise(2, Some("earlier")), refusal()];
    assert_eq!(
        proposer.prepare(4, &replies, String::from("hello")),
        Ok(Ballot::new(2, Some(String::from("earlier"))))
    );
    let bare_last = vec![promise(2, Some("earlier")), promise(2, None), refusal()];
    assert_eq!(
        proposer.prepare(4, &bare_last, String::from("hello")),
        Ok(Ballot::new(2, Some(String::from("hello"))))
    );
}

#[test]
fn prepare_short_of_quorum_is_given_up() {
    let proposer = Proposer::new();
    assert_eq!(
        proposer.prepare(2, &Vec::new(), String::from("hello")),
        Err(Rejection::QuorumNotReached(Phase::Prepare))
    );
    let refused = vec![refusal(), refusal()];
    assert_eq!(
        proposer.prepare(2, &refused, String::from("hello")),
        Err(Rejection::QuorumNotReached(Phase::Prepare))
    );
    let one = vec![promise(0, None)];
    assert_eq!(
        proposer.prepare(4, &one, String::from("hello")),
        Err(Rejection::QuorumNotReached(Phase::Prepare))
    );
}

#[test]
fn prepare_without_peers_succeeds_alone() {
    let proposer = Proposer::new();
    assert_eq!(
        proposer.prepare(0, &Vec::new(), String::from("solo")),
        Ok(Ballot::new(0, Some(String::from("solo"))))
    );
    assert_eq!(proposer.propose(0, &Vec::new()), Ok(()));
}

#[test]
fn propose_counts_confirmations_and_itself() {
    let proposer = Proposer::new();
    assert_eq!(proposer.propose(2, &vec![promise(1, Some("v"))]), Ok(()));
    assert_eq!(proposer.propose(2, &vec![promise(1, Some("v")), promise(1, Some("v"))]), Ok(()));
    assert_eq!(
        proposer.propose(2, &Vec::new()),
        Err(Rejection::QuorumNotReached(Phase::Accept))
    );
    assert_eq!(
        proposer.propose(2, &vec![refusal(), refusal()]),
        Err(Rejection::QuorumNotReached(Phase::Accept))
    );
    assert_eq!(
        proposer.propose(5, &vec![promise(1, None), refusal()]),
        Err(Rejection::QuorumNotReached(Phase::Accept))
    );
    assert_eq!(proposer.propose(5, &vec![promise(1, None), promise(1, None)]), Ok(()));
}

#[test]
fn propose_counts_a_reply_without_error_and_without_ballot() {
    let proposer = Proposer::new();
    let empty = || Reply { error: None, value: None };
    assert_eq!(proposer.propose(2, &vec![empty()]), Ok(()));
    assert_eq!(proposer.propose(4, &vec![empty(), promise(1, None)]), Ok(()));
    assert_eq!(
        proposer.propose(4, &vec![empty()]),
        Err(Rejection::QuorumNotReached(Phase::Accept))
    );
    let with_error = Reply { error: Some(String::from("no")), value: Some(Ballot::new(1, None)) };
    assert_eq!(
        proposer.propose(2, &vec![with_error]),
        Err(Rejection::QuorumNotReached(Phase::Accept))
    );
}

#[test]
fn prepare_does_not_count_a_reply_without_ballot() {
    let proposer = Proposer::new();
    let empty = vec![Reply { error: None, value: None }];
    assert_eq!(
        proposer.prepare(2, &empty, String::from("hello")),
        Err(Rejection::QuorumNotReached(Phase::Prepare))
    );
}

#[test]
fn settle_prepare_decides_under_the_given_id() {
    let replies = vec![promise(7, Some("kept"))];
    assert_eq!(
        settle_prepare(7, 2, &replies, String::from("mine")),
        Ok(Ballot::new(7, Some(String::from("kept"))))
    );
    assert_eq!(
        settle_prepare(7, 2, &Vec::new(), String::from("mine")),
        Err(Rejection::QuorumNotReached(Phase::Prepare))
    );
    assert_eq!(
        settle_prepare(u64::MAX, 0, &Vec::new(), String::from("mine")),
        Ok(Ballot::new(u64::MAX, Some(String::from("mine"))))
    );
}
