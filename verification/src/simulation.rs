//! The in-memory simulation backend: virtual nodes keyed by plain
//! integers, and the peer confirmation protocol a wallet runs before it
//! accepts a payment locally.  Everything is owned by the run that built
//! it; nothing leaks across runs.

use vstd::prelude::*;

use crate::codec::bytes_equal;
use crate::ledger::{Blockchain, GCoinAddress, Pay, Wallet};
use crate::network::{gcoin_ok_token, spec_handshake_accept, Node};

verus! {

/// A virtual node's network identity within one simulated run.
pub type VKey = u64;

/// A virtual node: one of the three roles over the simulation backend.
pub type VNode = Node<VRouter, VWallet, VStorage>;

/// How long a wallet waits for any one peer's answer, in seconds.  A peer
/// that stays silent longer counts as non-affirmative, never as an error.
pub const WAIT_RESPONSE_TIMEOUT_SEC: usize = 5;

/// The minimum confirmation ratio, as the fraction 51/100: the affirmative
/// answers must reach at least this share of the peers queried.
pub const MINIMUM_CONFIRMATION_RATIO_NUMERATOR: u64 = 51;

/// Denominator of the minimum confirmation ratio.
pub const MINIMUM_CONFIRMATION_RATIO_DENOMINATOR: u64 = 100;

/// Ping a peer and collect its answer.  `None` is a peer that did not
/// answer within the timeout window.
pub trait Pingable {
    /// The answer this peer gives to `data`, or `None` for silence.
    spec fn ping_reply(&self, data: Seq<u8>) -> Option<Seq<u8>>;

    fn ping(&self, data: &[u8]) -> (r: Option<Vec<u8>>)
        ensures
            r is Some <==> self.ping_reply(data@) is Some,
            r matches Some(v) ==> (self.ping_reply(data@) matches Some(s) && v@ == s),
    ;
}

/// Stores as many keys of other nodes as possible, and routes between
/// them.
pub struct VRouter {
    pub key: VKey,
    pub other_nodes: Vec<VKey>,
    pub connected_nodes: Vec<VNode>,
}

/// A wallet's presence on the simulated network.
pub struct VWallet {
    pub key: VKey,
    pub wallet: Wallet,
    pub connected_nodes: Vec<VNode>,
}

impl VWallet {
    pub fn new(key: VKey, wallet: Wallet, connected_nodes: Vec<VNode>) -> (r: Self)
        ensures
            r.key == key,
            r.wallet == wallet,
            r.connected_nodes == connected_nodes,
    {
        Self { key, wallet, connected_nodes }
    }
}

/// Stores a copy of the entire blockchain, and other potential chains
/// besides.
pub struct VStorage {
    pub key: VKey,
    pub main_blockchain: Blockchain,
    pub connected_nodes: Vec<VNode>,
}

/// The node a fresh participant asks first for the keys of other nodes.
pub struct EntryNode {}

/// The entire view of the network rather than one node's: every node, but
/// no edge information beyond what each node stores in its own peer list.
/// Owned by the run that built it: constructed explicitly, dropped at the
/// run's end, never shared across runs.
pub struct VNetwork {
    pub nodes: Vec<VNode>,
}

/// The network identity a virtual node carries, whatever its role.
pub open spec fn spec_node_key(n: VNode) -> VKey {
    match n {
        Node::Router(r) => r.key,
        Node::Wallet(w) => w.key,
        Node::Storage(s) => s.key,
    }
}

impl VNetwork {
    /// A registry over exactly the given nodes.
    pub fn new(nodes: Vec<VNode>) -> (r: Self)
        ensures
            r.nodes == nodes,
    {
        Self { nodes }
    }

    /// Search the directory for a node with identity `key`: the position
    /// of the first such node, or `None` when no node carries the key.  A
    /// node that wants to connect looks its target up here first.
    pub fn find_node(&self, key: VKey) -> (r: Option<usize>)
        ensures
            r matches Some(i) ==> i < self.nodes@.len() && spec_node_key(self.nodes@[i as int])
                == key && (forall|j: int| 0 <= j < i ==> spec_node_key(self.nodes@[j]) != key),
            r is None ==> forall|j: int|
                0 <= j < self.nodes@.len() ==> spec_node_key(self.nodes@[j]) != key,
    {
        let mut i: usize = 0;
        while i < self.nodes.len()
            invariant
                i <= self.nodes@.len(),
                forall|j: int| 0 <= j < i ==> spec_node_key(self.nodes@[j]) != key,
            decreases self.nodes@.len() - i,
        {
            let found = match &self.nodes[i] {
                Node::Router(r) => r.key == key,
                Node::Wallet(w) => w.key == key,
                Node::Storage(s) => s.key == key,
            };
            if found {
                return Some(i);
            }
            i += 1;
        }
        None
    }
}

/// Whether a simulated peer affirms that the address bytes `addr_bytes`
/// belong to a reachable account: only a wallet node that holds exactly
/// that address does; routers and storage nodes stay silent.
pub open spec fn spec_affirms(n: VNode, addr_bytes: Seq<u8>) -> bool {
    match n {
        Node::Wallet(w) => w.wallet.spec_holds_address(addr_bytes),
        _ => false,
    }
}

/// How many of `nodes` affirm `addr_bytes`.
pub open spec fn spec_affirm_count(nodes: Seq<VNode>, addr_bytes: Seq<u8>) -> int
    decreases nodes.len(),
{
    if nodes.len() == 0 {
        0
    } else {
        spec_affirm_count(nodes.drop_last(), addr_bytes) + if spec_affirms(
            nodes.last(),
            addr_bytes,
        ) {
            1int
        } else {
            0int
        }
    }
}

impl Pingable for Node<VRouter, VWallet, VStorage> {
    /// A peer that affirms replies with the accept token; one that does
    /// not affirm lets the query time out.
    open spec fn ping_reply(&self, data: Seq<u8>) -> Option<Seq<u8>> {
        if spec_affirms(*self, data) {
            Some(spec_handshake_accept())
        } else {
            None
        }
    }

    fn ping(&self, data: &[u8]) -> (r: Option<Vec<u8>>) {
        match self {
            Node::Wallet(w) => {
                if w.wallet.holds_address(data) {
                    Some(gcoin_ok_token())
                } else {
                    None
                }
            },
            _ => None,
        }
    }
}

impl Pay for VWallet {
    /// A payment is approved exactly when the amount is positive, at
    /// least one peer is connected, and the affirmative answers reach the
    /// minimum confirmation ratio of the peers queried — of the peers
    /// queried, not of those that answered, so that a single fast
    /// responder cannot satisfy the confidence check by itself.  With no
    /// peers the ratio is undefined and never counts as satisfied.
    open spec fn pay_approved(&self, amount: u64, payee: GCoinAddress) -> bool {
        &&& amount > 0
        &&& self.connected_nodes@.len() > 0
        &&& (MINIMUM_CONFIRMATION_RATIO_DENOMINATOR as int) * spec_affirm_count(
            self.connected_nodes@,
            payee.address@,
        ) >= (MINIMUM_CONFIRMATION_RATIO_NUMERATOR as int) * self.connected_nodes@.len()
    }

    /// Query every currently connected peer about the payee's address and
    /// gather the answers; a silent peer counts as non-affirmative.  This
    /// only signals local confidence: it neither debits a balance nor
    /// writes to any ledger.
    fn pay(&mut self, amount: u64, payee: GCoinAddress) -> (r: bool) {
        if amount == 0 {
            return false;
        }
        let n = self.connected_nodes.len();
        if n == 0 {
            return false;
        }
        let accept = gcoin_ok_token();
        let mut affirmed: usize = 0;
        let mut i: usize = 0;
        while i < n
            invariant
                *self == *old(self),
                n == self.connected_nodes@.len(),
                i <= n,
                affirmed <= i,
                accept@ == spec_handshake_accept(),
                affirmed as int == spec_affirm_count(
                    self.connected_nodes@.take(i as int),
                    payee.address@,
                ),
            decreases n - i,
        {
            let reply = self.connected_nodes[i].ping(&payee.address);
            let peer_affirmed = match reply {
                Some(bytes) => bytes_equal(bytes.as_slice(), accept.as_slice()),
                None => false,
            };
            assert(peer_affirmed == spec_affirms(self.connected_nodes@[i as int], payee.address@));
            if peer_affirmed {
                affirmed += 1;
            }
            assert(self.connected_nodes@.take(i + 1 as int).drop_last()
                =~= self.connected_nodes@.take(i as int));
            assert(self.connected_nodes@.take(i + 1 as int).last()
                == self.connected_nodes@[i as int]);
            i += 1;
        }
        assert(self.connected_nodes@.take(n as int) =~= self.connected_nodes@);
        (affirmed as u128) * (MINIMUM_CONFIRMATION_RATIO_DENOMINATOR as u128) >= (n as u128)
            * (MINIMUM_CONFIRMATION_RATIO_NUMERATOR as u128)
    }
}

/// Law: a zero payment is never approved, whatever the wallet and the
/// payee.
pub proof fn lemma_pay_zero_never_approved(w: VWallet, payee: GCoinAddress)
    ensures
        !w.pay_approved(0, payee),
{
}

/// Law: with no connected peers no payment is approved, whatever the
/// amount — an undefined confirmation ratio never counts as satisfied.
pub proof fn lemma_pay_without_peers_never_approved(w: VWallet, amount: u64, payee: GCoinAddress)
    requires
        w.connected_nodes@.len() == 0,
    ensures
        !w.pay_approved(amount, payee),
{
}

} // verus!
