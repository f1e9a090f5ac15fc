//! The peer-to-peer surface: the two-message handshake that establishes a
//! session between two nodes, and the node role variants.  The transport
//! itself (a reliable ordered byte stream) is an external collaborator;
//! what stands here is every decision the protocol makes about the bytes
//! that were written and read.

use vstd::prelude::*;

use crate::codec::bytes_equal;

verus! {

pub const GCOIN_PORT: u64 = 6900;

/// The fixed 15-byte request token `GCOIN-HANDSHAKE`.
pub open spec fn spec_handshake_request() -> Seq<u8> {
    seq![
        71u8,  // 'G'
        67u8,  // 'C'
        79u8,  // 'O'
        73u8,  // 'I'
        78u8,  // 'N'
        45u8,  // '-'
        72u8,  // 'H'
        65u8,  // 'A'
        78u8,  // 'N'
        68u8,  // 'D'
        83u8,  // 'S'
        72u8,  // 'H'
        65u8,  // 'A'
        75u8,  // 'K'
        69u8,  // 'E'
    ]
}

/// The fixed 8-byte accept token `GCOIN-OK`.
pub open spec fn spec_handshake_accept() -> Seq<u8> {
    seq![71u8, 67u8, 79u8, 73u8, 78u8, 45u8, 79u8, 75u8]
}

/// The handshake token a node sends to open a session.
pub fn gcoin_agreement_token() -> (r: Vec<u8>)
    ensures
        r@ == spec_handshake_request(),
{
    let mut t: Vec<u8> = Vec::new();
    t.push(71);  // 'G'
    t.push(67);  // 'C'
    t.push(79);  // 'O'
    t.push(73);  // 'I'
    t.push(78);  // 'N'
    t.push(45);  // '-'
    t.push(72);  // 'H'
    t.push(65);  // 'A'
    t.push(78);  // 'N'
    t.push(68);  // 'D'
    t.push(83);  // 'S'
    t.push(72);  // 'H'
    t.push(65);  // 'A'
    t.push(75);  // 'K'
    t.push(69);  // 'E'
    assert(t@ =~= spec_handshake_request());
    t
}

/// The token a peer replies with to accept the session.
pub fn gcoin_ok_token() -> (r: Vec<u8>)
    ensures
        r@ == spec_handshake_accept(),
{
    let mut t: Vec<u8> = Vec::new();
    t.push(71);  // 'G'
    t.push(67);  // 'C'
    t.push(79);  // 'O'
    t.push(73);  // 'I'
    t.push(78);  // 'N'
    t.push(45);  // '-'
    t.push(79);  // 'O'
    t.push(75);  // 'K'
    assert(t@ =~= spec_handshake_accept());
    t
}

/// The states a handshake moves through:
/// `Disconnected → HandshakeSent → { Connected, Rejected }`.
#[derive(Debug, Clone, Copy, PartialEq, Eq, Structural)]
pub enum HandshakeState {
    Disconnected,
    HandshakeSent,
    Connected,
    Rejected,
}

/// The ability to connect to a node: establish the connection only; any
/// further exchange has its own functions.  Implemented by each network
/// backend over its own address form, using the handshake steps below.
pub trait Connection {
    type Address;

    /// Connect to a node at `address`, exchanging the fixed handshake
    /// tokens over a fresh transport stream.
    fn connect_to_node(&self, address: Self::Address) -> bool;
}

/// A network node is one of three roles; each carries its backend's own
/// details and its own connected-peer list.
pub enum Node<RouterDetails, WalletDetails, StorageDetails> {
    Router(RouterDetails),
    Wallet(WalletDetails),
    Storage(StorageDetails),
}

/// First transition: opening the transport stream.  Failure to open moves
/// straight to `Rejected`; success means the request token goes out and
/// the handshake is in flight.
pub fn after_connect_attempt(opened: bool) -> (r: HandshakeState)
    ensures
        r == (if opened {
            HandshakeState::HandshakeSent
        } else {
            HandshakeState::Rejected
        }),
{
    if opened {
        HandshakeState::HandshakeSent
    } else {
        HandshakeState::Rejected
    }
}

/// Where the handshake ends, given how many bytes of the request token
/// were written and the peer's reply: `Connected` exactly when the whole
/// token went out and the reply is exactly the accept token.
pub open spec fn spec_handshake_outcome(written: nat, response: Seq<u8>) -> HandshakeState {
    if written == spec_handshake_request().len() && response == spec_handshake_accept() {
        HandshakeState::Connected
    } else {
        HandshakeState::Rejected
    }
}

/// Second transition: judge the exchange.  A short write is a protocol
/// fault and a reply other than the accept token — the empty reply of a
/// timed-out or closed stream included — is a mismatch; both end in
/// `Rejected`, never in a crash, since a peer's bytes are untrusted
/// input.
pub fn evaluate_handshake_reply(written: usize, response: &[u8]) -> (r: HandshakeState)
    ensures
        r == spec_handshake_outcome(written as nat, response@),
        r == HandshakeState::Connected || r == HandshakeState::Rejected,
{
    let request = gcoin_agreement_token();
    if written != request.len() {
        return HandshakeState::Rejected;
    }
    let accept = gcoin_ok_token();
    if bytes_equal(response, accept.as_slice()) {
        HandshakeState::Connected
    } else {
        HandshakeState::Rejected
    }
}

} // verus!
