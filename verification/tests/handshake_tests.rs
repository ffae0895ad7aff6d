use paxos_node::handshake::{enroll, is_refusal, Greeting};
use paxos_node::membership::{Membership, Node};
use paxos_node::rejection::{PeerConflict, Rejection};

fn endpoint(port: u16) -> Option<String> {
    Some(format!("0.0.0.0:{}", port))
}

#[test]
fn greeting_carries_the_id_as_text_and_the_address() {
    let greeting = Greeting::of(&Node::new(42, String::from("0.0.0.0:3042")));
    assert_eq!(greeting.id, "42");
    assert_eq!(greeting.addr, "0.0.0.0:3042");
    let greatest = Greeting::of(&Node::new(u64::MAX, String::from("[::1]:80")));
    assert_eq!(greatest.id, "18446744073709551615");
    assert_eq!(greatest.addr, "[::1]:80");
}

#[test]
fn client_and_server_errors_refuse() {
    for status in [400u16, 401, 404, 418, 499, 500, 503, 599] {
        assert!(is_refusal(status));
    }
}

#[test]
fn other_statuses_do_not_refuse() {
    for status in [100u16, 101, 199, 200, 204, 299, 300, 304, 399, 600, 601, 999] {
        assert!(!is_refusal(status));
    }
}

#[test]
fn numbers_that_are_no_status_do_not_refuse() {
    for status in [0u16, 1, 40, 50, 99, 1000, 4000, 5000, u16::MAX] {
        assert!(!is_refusal(status));
    }
}

#[test]
fn is_refusal_is_the_range_from_400_to_599() {
    for status in 0u16..=1200 {
        assert_eq!(is_refusal(status), (400..600).contains(&status));
    }
}

#[test]
fn enroll_adds_the_peer_that_greets() {
    let mut directory = Membership::new(1);
    assert_eq!(enroll(&mut directory, "2", endpoint(3002)), Ok(2));
    assert_eq!(enroll(&mut directory, "+3", endpoint(3003)), Ok(3));
    assert_eq!(directory.peer_count(), 2);
    assert_eq!(directory.peers()[0], Node::new(2, String::from("0.0.0.0:3002")));
    assert_eq!(directory.peers()[1], Node::new(3, String::from("0.0.0.0:3003")));
}

#[test]
fn enroll_refuses_the_node_itself() {
    let mut directory = Membership::new(1);
    assert_eq!(
        enroll(&mut directory, "1", endpoint(3001)),
        Err(Rejection::DuplicateOrSelfPeer(PeerConflict::OwnId))
    );
    assert_eq!(
        enroll(&mut directory, "001", None),
        Err(Rejection::DuplicateOrSelfPeer(PeerConflict::OwnId))
    );
    assert_eq!(directory.peer_count(), 0);
}

#[test]
fn enroll_refuses_a_second_greeting_under_the_same_id() {
    let mut directory = Membership::new(1);
    assert_eq!(enroll(&mut directory, "2", endpoint(3002)), Ok(2));
    assert_eq!(
        enroll(&mut directory, "2", endpoint(3002)),
        Err(Rejection::DuplicateOrSelfPeer(PeerConflict::AlreadyKnown))
    );
    assert_eq!(
        enroll(&mut directory, "2", endpoint(4002)),
        Err(Rejection::DuplicateOrSelfPeer(PeerConflict::AlreadyKnown))
    );
    assert_eq!(
        enroll(&mut directory, "2", None),
        Err(Rejection::DuplicateOrSelfPeer(PeerConflict::AlreadyKnown))
    );
    assert_eq!(directory.peer_count(), 1);
    assert_eq!(directory.peers()[0].addr, "0.0.0.0:3002");
}

#[test]
fn enroll_rejects_a_malformed_id_or_address() {
    let mut directory = Membership::new(1);
    assert_eq!(enroll(&mut directory, "", endpoint(3002)), Err(Rejection::MalformedInput));
    assert_eq!(enroll(&mut directory, "two", endpoint(3002)), Err(Rejection::MalformedInput));
    assert_eq!(enroll(&mut directory, "-2", endpoint(3002)), Err(Rejection::MalformedInput));
    assert_eq!(
        enroll(&mut directory, "18446744073709551616", endpoint(3002)),
        Err(Rejection::MalformedInput)
    );
    assert_eq!(enroll(&mut directory, "2", None), Err(Rejection::MalformedInput));
    assert_eq!(directory.peer_count(), 0);
    assert_eq!(enroll(&mut directory, "2", endpoint(3002)), Ok(2));
}

#[test]
fn two_nodes_join_each_other_by_one_handshake() {
    let first = Node::new(1, String::from("0.0.0.0:3001"));
    let second = Node::new(2, String::from("0.0.0.0:3002"));
    let mut first_directory = Membership::new(first.id);
    let mut second_directory = Membership::new(second.id);

    let asked = Greeting::of(&first);
    assert_eq!(enroll(&mut second_directory, &asked.id, Some(asked.addr)), Ok(1));
    let answered = Greeting::of(&second);
    assert_eq!(enroll(&mut first_directory, &answered.id, Some(answered.addr)), Ok(2));

    assert!(first_directory.knows(2));
    assert!(second_directory.knows(1));

    let again = Greeting::of(&first);
    assert_eq!(
        enroll(&mut second_directory, &again.id, Some(again.addr)),
        Err(Rejection::DuplicateOrSelfPeer(PeerConflict::AlreadyKnown))
    );
    let own = Greeting::of(&first);
    assert_eq!(
        enroll(&mut first_directory, &own.id, Some(own.addr)),
        Err(Rejection::DuplicateOrSelfPeer(PeerConflict::OwnId))
    );
    assert_eq!(first_directory.peer_count(), 1);
    assert_eq!(second_directory.peer_count(), 1);
}
