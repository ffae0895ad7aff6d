//! The join handshake, by which two nodes come to know each other.
//!
//! The node that asks sends a greeting; the node that is asked admits it to
//! its directory and answers with a greeting of its own, or refuses; on that
//! greeting the node that asked admits the other in turn.

use crate::ballot::text_view;
use crate::ident::{format_id, id_of_text, numeral, parse_id};
use crate::membership::{Membership, MembershipView, Node, NodeView};
use crate::rejection::Rejection;
use vstd::prelude::*;

verus! {

/// The mathematical value of a [`Greeting`].
pub struct GreetingView {
    pub id: Seq<char>,
    pub addr: Seq<char>,
}

/// What a node says of itself in the handshake: its id as a decimal numeral,
/// and the endpoint at which it listens.
#[derive(Debug, PartialEq, Eq)]
pub struct Greeting {
    pub id: String,
    pub addr: String,
}

impl View for Greeting {
    type V = GreetingView;

    open spec fn view(&self) -> GreetingView {
        GreetingView { id: self.id@, addr: self.addr@ }
    }
}

impl Greeting {
    /// The greeting of the given node.
    pub fn of(node: &Node) -> (greeting: Greeting)
        ensures
            greeting@ == (GreetingView { id: numeral(node.id as nat), addr: node.addr@ }),
            id_of_text(greeting@.id) == Some(node.id),
    {
        Greeting { id: format_id(node.id), addr: node.addr.clone() }
    }
}

/// Whether a response with the given status refuses what was asked: the
/// status is a client's or a server's error.
pub open spec fn refuses(status: u16) -> bool {
    400 <= status < 600
}

/// `StatusCode::is_client_error` of the `http` crate, as `reqwest` hands it
/// on, for the status with the given code: whether the code lies from 400 up
/// to 499.
#[verifier::external_body]
fn is_client_error(code: u16) -> (client: bool)
    requires
        100 <= code <= 999,
    ensures
        client == (400 <= code < 500),
{
    match reqwest::StatusCode::from_u16(code) {
        Ok(status) => status.is_client_error(),
        Err(_) => false,
    }
}

/// `StatusCode::is_server_error` of the `http` crate, as `reqwest` hands it
/// on, for the status with the given code: whether the code lies from 500 up
/// to 599.
#[verifier::external_body]
fn is_server_error(code: u16) -> (server: bool)
    requires
        100 <= code <= 999,
    ensures
        server == (500 <= code < 600),
{
    match reqwest::StatusCode::from_u16(code) {
        Ok(status) => status.is_server_error(),
        Err(_) => false,
    }
}

/// Whether the response to a greeting refuses it. A number that is no
/// status code, below 100 or above 999, refuses nothing.
pub fn is_refusal(status: u16) -> (refused: bool)
    ensures
        refused == refuses(status),
{
    if status < 100 || status > 999 {
        false
    } else {
        is_client_error(status) || is_server_error(status)
    }
}

/// What a node answers a peer that greets it with the given id, `endpoint`
/// being the peer's address where what it sent is an endpoint: the peer's id
/// where it is admitted. The id is read first, then looked up in the
/// directory, and the address comes last.
pub open spec fn enroll_answer(
    directory: MembershipView,
    id: Seq<char>,
    endpoint: Option<Seq<char>>,
) -> Result<u64, Rejection> {
    match id_of_text(id) {
        None => Err(Rejection::MalformedInput),
        Some(peer) => match directory.admission(peer) {
            Err(rejection) => Err(rejection),
            Ok(_) => match endpoint {
                None => Err(Rejection::MalformedInput),
                Some(_) => Ok(peer),
            },
        },
    }
}

/// The directory after a peer greeted the node: with the peer at its end
/// where it was admitted, and as it was where it was not.
pub open spec fn after_enroll(
    directory: MembershipView,
    id: Seq<char>,
    endpoint: Option<Seq<char>>,
) -> MembershipView {
    match enroll_answer(directory, id, endpoint) {
        Ok(peer) => directory.joined(NodeView { id: peer, addr: endpoint.unwrap() }),
        Err(_) => directory,
    }
}

/// Enrolls the peer that sent a greeting in the directory. `id` is the id as
/// the peer sent it, and `endpoint` its address, or `None` where what it sent
/// is no endpoint.
pub fn enroll(directory: &mut Membership, id: &str, endpoint: Option<String>) -> (answer: Result<
    u64,
    Rejection,
>)
    ensures
        answer == enroll_answer(old(directory)@, id@, text_view(endpoint)),
        final(directory)@ == after_enroll(old(directory)@, id@, text_view(endpoint)),
        old(directory)@.well_formed() ==> final(directory)@.well_formed(),
{
    let peer = match parse_id(id) {
        Ok(peer) => peer,
        Err(rejection) => {
            return Err(rejection);
        },
    };
    match directory.check_peer(peer) {
        Ok(_) => {},
        Err(rejection) => {
            return Err(rejection);
        },
    }
    match endpoint {
        None => Err(Rejection::MalformedInput),
        Some(addr) => {
            let _ = directory.add_peer(peer, addr);
            Ok(peer)
        },
    }
}

/// A node that greets itself is refused, and so is one that greets a node
/// that knows it already; either way the directory stays as it was.
pub proof fn lemma_known_id_is_not_enrolled(
    directory: MembershipView,
    id: Seq<char>,
    endpoint: Option<Seq<char>>,
)
    requires
        id_of_text(id) is Some,
        id_of_text(id).unwrap() == directory.own_id || directory.knows(id_of_text(id).unwrap()),
    ensures
        enroll_answer(directory, id, endpoint) is Err,
        enroll_answer(directory, id, endpoint).unwrap_err() is DuplicateOrSelfPeer,
        after_enroll(directory, id, endpoint) == directory,
{
}

/// A peer that was admitted is not admitted a second time, whatever address
/// it sends then.
pub proof fn lemma_enrolled_once(
    directory: MembershipView,
    id: Seq<char>,
    endpoint: Option<Seq<char>>,
    again: Option<Seq<char>>,
)
    requires
        enroll_answer(directory, id, endpoint) is Ok,
    ensures
        enroll_answer(after_enroll(directory, id, endpoint), id, again) is Err,
        enroll_answer(after_enroll(directory, id, endpoint), id, again).unwrap_err()
            is DuplicateOrSelfPeer,
        after_enroll(after_enroll(directory, id, endpoint), id, again) == after_enroll(
            directory,
            id,
            endpoint,
        ),
{
    let peer = id_of_text(id).unwrap();
    let first = NodeView { id: peer, addr: endpoint.unwrap() };
    crate::membership::lemma_second_join_is_refused(directory, first, first);
}

} // verus!
