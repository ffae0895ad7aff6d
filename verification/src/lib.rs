//! A single-decree Paxos node, verified.
//!
//! Every node plays the three roles of the protocol: it promises and accepts
//! as an [`acceptor::Acceptor`], drives rounds as a [`proposer::Proposer`], and
//! records decided ballots in its [`ledger::Ledger`]. The node's transport is
//! not part of this library: each function here takes the plain values that a
//! transport delivers and returns the plain values that it is to send.

pub mod acceptor;
pub mod ballot;
pub mod handshake;
pub mod ident;
pub mod ledger;
pub mod membership;
pub mod proposer;
pub mod quorum;
pub mod rejection;
pub mod reply;
pub mod round;
