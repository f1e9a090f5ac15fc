use gcoin::ledger::{GCoinAddress, Pay, Wallet};
use gcoin::network::{
    after_connect_attempt, evaluate_handshake_reply, gcoin_agreement_token, gcoin_ok_token,
    HandshakeState, Node,
};
use gcoin::simulation::{Pingable, VNetwork, VNode, VRouter, VStorage, VWallet};

#[test]
fn test_async() {}

fn payee_address() -> GCoinAddress {
    GCoinAddress::new([7; 32])
}

fn affirming_peer(key: u64) -> VNode {
    Node::Wallet(VWallet::new(key, Wallet::new(vec![payee_address()]), vec![]))
}

fn silent_peer(key: u64) -> VNode {
    Node::Wallet(VWallet::new(key, Wallet::new(vec![]), vec![]))
}

fn wallet_with_peers(peers: Vec<VNode>) -> VWallet {
    VWallet::new(0, Wallet::new(vec![]), peers)
}

#[test]
fn handshake_tokens_are_the_fixed_strings() {
    assert_eq!(gcoin_agreement_token(), b"GCOIN-HANDSHAKE".to_vec());
    assert_eq!(gcoin_ok_token(), b"GCOIN-OK".to_vec());
}

#[test]
fn handshake_happy_path_connects() {
    let reply = b"GCOIN-OK";
    let written = gcoin_agreement_token().len();
    assert_eq!(evaluate_handshake_reply(written, reply), HandshakeState::Connected);
}

#[test]
fn handshake_mismatch_rejects_without_crash() {
    let written = gcoin_agreement_token().len();
    assert_eq!(evaluate_handshake_reply(written, b"GCOIN-NO"), HandshakeState::Rejected);
    assert_eq!(evaluate_handshake_reply(written, b""), HandshakeState::Rejected);
    assert_eq!(evaluate_handshake_reply(written, b"GCOIN-OK "), HandshakeState::Rejected);
    assert_eq!(evaluate_handshake_reply(written, b"GCOIN-OKGCOIN-OK"), HandshakeState::Rejected);
    // A short write of the request token is a protocol fault, not a crash.
    assert_eq!(evaluate_handshake_reply(written - 1, b"GCOIN-OK"), HandshakeState::Rejected);
    assert_eq!(evaluate_handshake_reply(0, b"GCOIN-OK"), HandshakeState::Rejected);
    // Arbitrary attacker-chosen bytes filling the whole read buffer.
    let garbage = [0xAA; 128];
    assert_eq!(evaluate_handshake_reply(written, &garbage), HandshakeState::Rejected);
}

#[test]
fn connect_attempt_transitions() {
    assert_eq!(after_connect_attempt(true), HandshakeState::HandshakeSent);
    assert_eq!(after_connect_attempt(false), HandshakeState::Rejected);
}

#[test]
fn ping_answers_only_for_a_held_address() {
    let holder = affirming_peer(1);
    let bystander = silent_peer(2);
    let addr = payee_address();
    assert_eq!(holder.ping(&addr.address), Some(b"GCOIN-OK".to_vec()));
    assert_eq!(bystander.ping(&addr.address), None);
}

#[test]
fn confirmation_boundary_half_fails_and_sixty_percent_passes() {
    // 10 connected peers, 5 affirmative: ratio 0.50 < 0.51.
    let mut peers: Vec<VNode> = vec![];
    for k in 0..5 {
        peers.push(affirming_peer(k));
    }
    for k in 5..10 {
        peers.push(silent_peer(k));
    }
    let mut wallet = wallet_with_peers(peers);
    assert!(!wallet.pay(42, payee_address()));

    // 10 connected peers, 6 affirmative: ratio 0.60 >= 0.51.
    let mut peers: Vec<VNode> = vec![];
    for k in 0..6 {
        peers.push(affirming_peer(k));
    }
    for k in 6..10 {
        peers.push(silent_peer(k));
    }
    let mut wallet = wallet_with_peers(peers);
    assert!(wallet.pay(42, payee_address()));
}

#[test]
fn network_registry_finds_nodes_by_key() {
    let router = VNode::Router(VRouter {
        key: 10,
        other_nodes: vec![20, 30],
        connected_nodes: vec![],
    });
    let wallet = VNode::Wallet(VWallet::new(20, Wallet::new(vec![]), vec![]));
    let storage = VNode::Storage(VStorage {
        key: 30,
        main_blockchain: gcoin::ledger::Blockchain {},
        connected_nodes: vec![],
    });
    let net = VNetwork::new(vec![router, wallet, storage]);
    assert_eq!(net.find_node(10), Some(0));
    assert_eq!(net.find_node(20), Some(1));
    assert_eq!(net.find_node(30), Some(2));
    assert_eq!(net.find_node(40), None);
}

#[test]
fn pay_zero_amount_always_fails() {
    let mut rich_neighbourhood = wallet_with_peers(vec![affirming_peer(1), affirming_peer(2)]);
    assert!(!rich_neighbourhood.pay(0, payee_address()));
}

#[test]
fn pay_with_zero_peers_fails() {
    let mut lonely = wallet_with_peers(vec![]);
    assert!(!lonely.pay(42, payee_address()));
}

#[test]
fn every_queried_peer_counts_in_the_denominator() {
    // Two of three peers affirm: 0.66 >= 0.51 even though one is silent.
    let mut wallet =
        wallet_with_peers(vec![affirming_peer(1), affirming_peer(2), silent_peer(3)]);
    assert!(wallet.pay(1, payee_address()));

    // One of two: 0.50 < 0.51; the silent peer still counts as queried.
    let mut wallet = wallet_with_peers(vec![affirming_peer(1), silent_peer(2)]);
    assert!(!wallet.pay(1, payee_address()));

    // Exactly the threshold: 51 of 100.
    let mut peers: Vec<VNode> = vec![];
    for k in 0..51 {
        peers.push(affirming_peer(k));
    }
    for k in 51..100 {
        peers.push(silent_peer(k));
    }
    let mut wallet = wallet_with_peers(peers);
    assert!(wallet.pay(1, payee_address()));
}
