use paxos_node::membership::{Membership, Node};
use paxos_node::rejection::{PeerConflict, Rejection};

fn addr(port: u16) -> String {
    format!("0.0.0.0:{}", port)
}

#[test]
fn node_new_keeps_id_and_address() {
    let node = Node::new(7, addr(3000));
    assert_eq!(node.id, 7);
    assert_eq!(node.addr, "0.0.0.0:3000");
    assert_eq!(node.clone(), node);
}

#[test]
fn new_directory_knows_nobody() {
    let directory = Membership::new(1);
    assert_eq!(directory.own_id(), 1);
    assert_eq!(directory.peer_count(), 0);
    assert!(directory.peers().is_empty());
    assert!(!directory.knows(1));
    assert!(!directory.knows(2));
}

#[test]
fn a_node_cannot_join_itself() {
    let mut directory = Membership::new(1);
    assert_eq!(
        directory.check_peer(1),
        Err(Rejection::DuplicateOrSelfPeer(PeerConflict::OwnId))
    );
    assert_eq!(
        directory.add_peer(1, addr(3001)),
        Err(Rejection::DuplicateOrSelfPeer(PeerConflict::OwnId))
    );
    assert_eq!(directory.peer_count(), 0);
}

#[test]
fn a_peer_cannot_join_twice() {
    let mut directory = Membership::new(1);
    assert_eq!(directory.check_peer(2), Ok(()));
    assert_eq!(directory.add_peer(2, addr(3002)), Ok(()));
    assert!(directory.knows(2));
    assert_eq!(
        directory.check_peer(2),
        Err(Rejection::DuplicateOrSelfPeer(PeerConflict::AlreadyKnown))
    );
    assert_eq!(
        directory.add_peer(2, addr(4002)),
        Err(Rejection::DuplicateOrSelfPeer(PeerConflict::AlreadyKnown))
    );
    assert_eq!(directory.peer_count(), 1);
    assert_eq!(directory.peers()[0], Node::new(2, addr(3002)));
}

#[test]
fn peers_stand_in_the_order_in_which_they_joined() {
    let mut directory = Membership::new(10);
    assert_eq!(directory.add_peer(3, addr(3003)), Ok(()));
    assert_eq!(directory.add_peer(1, addr(3001)), Ok(()));
    assert_eq!(directory.add_peer(2, addr(3002)), Ok(()));
    assert_eq!(
        directory.add_peer(1, addr(3001)),
        Err(Rejection::DuplicateOrSelfPeer(PeerConflict::AlreadyKnown))
    );
    assert_eq!(
        directory.add_peer(10, addr(3010)),
        Err(Rejection::DuplicateOrSelfPeer(PeerConflict::OwnId))
    );
    assert_eq!(directory.peer_count(), 3);
    let ids: Vec<u64> = directory.peers().iter().map(|peer| peer.id).collect();
    assert_eq!(ids, vec![3, 1, 2]);
    assert_eq!(directory.peers()[1].addr, "0.0.0.0:3001");
    assert_eq!(directory.own_id(), 10);
}
