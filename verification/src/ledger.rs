//! The ledger core: wallets, coins, transactions, blocks, and the block
//! integrity model — canonical serialisation, validator signing, and
//! signature verification — together with one-way address derivation.

use vstd::prelude::*;
use vstd::string::StringExecFns;

use crate::codec::{push_u32_be, push_u64_be, spec_u32_be, spec_u64_be};
use crate::crypto::{
    pem_armor_of, pem_encode_armor, ripemd256_digest, ripemd256_of, rsa_4096_generate_der,
    rsa_private_key_consistent, rsa_private_key_ok, rsa_public_of, rsa_sha256_sign,
    rsa_sha256_verify, rsa_signature_of, rsa_verify_ok,
};

verus! {

/// An opaque fixed 32-byte digest: chain linkage, merkle placeholder and
/// account addresses are all carried in this form.
pub type Hash32 = [u8; 32];

/// The ability to pay someone a positive amount of coins.  `pay` returns
/// `true` exactly when the implementor approves the payment; what
/// approval means is fixed by the implementor's `pay_approved`.
pub trait Pay: Sized {
    /// When a payment of `amount` to `payee` is approved.
    spec fn pay_approved(&self, amount: u64, payee: GCoinAddress) -> bool;

    /// Pay someone > 0 coins.  Returns `true` exactly when the payment is
    /// approved; it neither debits a balance, writes to any ledger, nor
    /// touches the payer's own state — peer lists change only through
    /// each node's own connection management, and `true` only signals
    /// local confidence.
    fn pay(&mut self, amount: u64, payee: GCoinAddress) -> (r: bool)
        ensures
            r == old(self).pay_approved(amount, payee),
            *final(self) == *old(self),
    ;
}

/// A set of addresses under one owner's control.  Balance authority lives
/// with storage nodes, so no balance is cached here.
pub struct Wallet {
    pub gcoin_addresses: Vec<GCoinAddress>,
}

impl Wallet {
    pub fn new(gcoin_addresses: Vec<GCoinAddress>) -> (r: Self)
        ensures
            r.gcoin_addresses == gcoin_addresses,
    {
        Self { gcoin_addresses }
    }

    /// Whether one of this wallet's addresses has exactly the bytes
    /// `addr_bytes`.
    pub open spec fn spec_holds_address(self, addr_bytes: Seq<u8>) -> bool {
        exists|i: int|
            0 <= i < self.gcoin_addresses@.len() && self.gcoin_addresses@[i].address@ == addr_bytes
    }

    /// Look `addr_bytes` up among this wallet's addresses.
    pub fn holds_address(&self, addr_bytes: &[u8]) -> (r: bool)
        ensures
            r == self.spec_holds_address(addr_bytes@),
    {
        let mut i: usize = 0;
        while i < self.gcoin_addresses.len()
            invariant
                i <= self.gcoin_addresses@.len(),
                forall|j: int| 0 <= j < i ==> self.gcoin_addresses@[j].address@ != addr_bytes@,
            decreases self.gcoin_addresses@.len() - i,
        {
            if crate::codec::bytes_equal(&self.gcoin_addresses[i].address, addr_bytes) {
                return true;
            }
            i += 1;
        }
        false
    }
}

/// The authoritative chain itself is owned by storage nodes; this is the
/// placeholder those nodes carry.
pub struct Blockchain {}

/// An amount of coin consumed by a transaction.  The newtype keeps the
/// amount from mixing with arbitrary integers; no arithmetic invariant is
/// enforced on construction.
#[derive(Debug, Default, Clone, Copy)]
pub struct InputCoin(pub u64);

/// An amount of coin produced by a transaction.
#[derive(Debug, Default, Clone, Copy)]
pub struct OutputCoin(pub u64);

/// An ordered batch of consumed coins paying one output, stamped with its
/// creation time.  Immutable after construction.
#[derive(Debug, Default)]
pub struct Transaction {
    /// Timestamp of creation of the transaction, in seconds.
    pub timestamp: u32,
    pub inputs: Vec<InputCoin>,
    pub output: OutputCoin,
}

/// The canonical bytes of each input amount, eight big-endian bytes per
/// input, in list order.
pub open spec fn spec_inputs_bytes(inputs: Seq<InputCoin>) -> Seq<u8>
    decreases inputs.len(),
{
    if inputs.len() == 0 {
        Seq::empty()
    } else {
        spec_inputs_bytes(inputs.drop_last()) + spec_u64_be(inputs.last().0)
    }
}

/// The canonical bytes of a transaction: `timestamp` (4 bytes, big
/// endian) then `output.amount` (8 bytes) then each input amount (8
/// bytes) in order.
pub open spec fn spec_transaction_bytes(t: Transaction) -> Seq<u8> {
    spec_u32_be(t.timestamp) + spec_u64_be(t.output.0) + spec_inputs_bytes(t.inputs@)
}

/// Law: a transaction's canonical encoding is exactly
/// `4 + 8 + 8 * len(inputs)` bytes long.
pub proof fn lemma_transaction_bytes_len(t: Transaction)
    ensures
        spec_transaction_bytes(t).len() == 12 + 8 * t.inputs@.len(),
{
    lemma_inputs_bytes_len(t.inputs@);
}

/// The input section is eight bytes per input.
pub proof fn lemma_inputs_bytes_len(inputs: Seq<InputCoin>)
    ensures
        spec_inputs_bytes(inputs).len() == 8 * inputs.len(),
    decreases inputs.len(),
{
    if inputs.len() > 0 {
        lemma_inputs_bytes_len(inputs.drop_last());
    }
}

impl Transaction {
    pub fn new(timestamp: u32, inputs: Vec<InputCoin>, output: OutputCoin) -> (r: Self)
        ensures
            r.timestamp == timestamp,
            r.inputs == inputs,
            r.output == output,
    {
        Self { timestamp, inputs, output }
    }

    /// Canonical byte encoding of this transaction.  Pure: the result is
    /// a function of the transaction's fields alone, so repeated calls
    /// yield identical bytes, and the transaction is never mutated.
    pub fn serialise(&self) -> (r: Vec<u8>)
        ensures
            r@ == spec_transaction_bytes(*self),
    {
        let mut res: Vec<u8> = Vec::new();
        push_u32_be(&mut res, self.timestamp);
        push_u64_be(&mut res, self.output.0);
        let mut i: usize = 0;
        while i < self.inputs.len()
            invariant
                i <= self.inputs@.len(),
                res@ == spec_u32_be(self.timestamp) + spec_u64_be(self.output.0)
                    + spec_inputs_bytes(self.inputs@.take(i as int)),
            decreases self.inputs@.len() - i,
        {
            push_u64_be(&mut res, self.inputs[i].0);
            assert(self.inputs@.take(i + 1 as int).drop_last() =~= self.inputs@.take(i as int));
            assert(self.inputs@.take(i + 1 as int).last() == self.inputs@[i as int]);
            i += 1;
        }
        assert(self.inputs@.take(self.inputs@.len() as int) =~= self.inputs@);
        res
    }
}

/// An ordered batch of transactions under a header that links to the
/// predecessor block by hash and carries a validator's signature.  The
/// signature slot is a variable-length byte sequence, since common
/// asymmetric schemes produce signatures wider than 32 bytes.
pub struct Block {
    /// Back-reference, by value, to the predecessor block's hash.
    pub prev_block_hash: Hash32,
    /// Merkle root over the transactions; declared but not computed here.
    pub merkle_root_hash: Hash32,
    /// Timestamp of creation of the block, in seconds.
    pub timestamp: u32,
    pub validator_signature: Vec<u8>,
    pub transactions: Vec<Transaction>,
}

/// The canonical bytes of each transaction, concatenated in order.
pub open spec fn spec_transactions_bytes(txs: Seq<Transaction>) -> Seq<u8>
    decreases txs.len(),
{
    if txs.len() == 0 {
        Seq::empty()
    } else {
        spec_transactions_bytes(txs.drop_last()) + spec_transaction_bytes(txs.last())
    }
}

/// The canonical bytes of a block: `prev_block_hash` (32 bytes) then
/// `merkle_root_hash` (32 bytes) then `timestamp` (4 bytes, big endian)
/// then the transactions in order.  The signature field is excluded: a
/// signature must never cover its own value.
pub open spec fn spec_block_bytes(b: Block) -> Seq<u8> {
    b.prev_block_hash@ + b.merkle_root_hash@ + spec_u32_be(b.timestamp)
        + spec_transactions_bytes(b.transactions@)
}

impl Block {
    pub fn new(
        prev_block_hash: Hash32,
        merkle_root_hash: Hash32,
        timestamp: u32,
        validator_signature: Vec<u8>,
        transactions: Vec<Transaction>,
    ) -> (r: Self)
        ensures
            r.prev_block_hash == prev_block_hash,
            r.merkle_root_hash == merkle_root_hash,
            r.timestamp == timestamp,
            r.validator_signature == validator_signature,
            r.transactions == transactions,
    {
        Self { prev_block_hash, merkle_root_hash, timestamp, validator_signature, transactions }
    }

    /// Canonical byte encoding of this block's signed fields — every
    /// field except the signature itself.  Pure, as for transactions.
    pub fn serialise(&self) -> (r: Vec<u8>)
        ensures
            r@ == spec_block_bytes(*self),
    {
        let mut res: Vec<u8> = Vec::new();
        push_hash(&mut res, &self.prev_block_hash);
        push_hash(&mut res, &self.merkle_root_hash);
        push_u32_be(&mut res, self.timestamp);
        let mut i: usize = 0;
        while i < self.transactions.len()
            invariant
                i <= self.transactions@.len(),
                res@ == self.prev_block_hash@ + self.merkle_root_hash@
                    + spec_u32_be(self.timestamp)
                    + spec_transactions_bytes(self.transactions@.take(i as int)),
            decreases self.transactions@.len() - i,
        {
            let mut tx_bytes = self.transactions[i].serialise();
            res.append(&mut tx_bytes);
            assert(self.transactions@.take(i + 1 as int).drop_last() =~= self.transactions@.take(
                i as int,
            ));
            assert(self.transactions@.take(i + 1 as int).last() == self.transactions@[i as int]);
            i += 1;
        }
        assert(self.transactions@.take(self.transactions@.len() as int) =~= self.transactions@);
        res
    }

    /// Sign a block as the validator: compute the signature over the
    /// block's canonical bytes with the DER-encoded RSA private key and
    /// store it in the signature slot.  Succeeds exactly when the bytes
    /// parse as a signing-capable RSA private key; a signed block whose
    /// key was internally consistent (every generated key is) verifies
    /// under the key's public half.  On `false` the block is unchanged.
    pub fn sign(block: &mut Block, private_key_der: &[u8]) -> (r: bool)
        ensures
            r == rsa_private_key_ok(private_key_der@),
            spec_block_bytes(*final(block)) == spec_block_bytes(*old(block)),
            final(block).prev_block_hash == old(block).prev_block_hash,
            final(block).merkle_root_hash == old(block).merkle_root_hash,
            final(block).timestamp == old(block).timestamp,
            final(block).transactions == old(block).transactions,
            r ==> final(block).validator_signature@ == rsa_signature_of(
                private_key_der@,
                spec_block_bytes(*old(block)),
            ),
            r ==> (rsa_private_key_consistent(private_key_der@) ==> rsa_verify_ok(
                rsa_public_of(private_key_der@),
                spec_block_bytes(*final(block)),
                final(block).validator_signature@,
            )),
            !r ==> *final(block) == *old(block),
    {
        let fields = block.serialise();
        match rsa_sha256_sign(private_key_der, fields.as_slice()) {
            Some(signature) => {
                block.validator_signature = signature;
                assert(spec_block_bytes(*block) == spec_block_bytes(*old(block)));
                true
            },
            None => false,
        }
    }

    /// Given a block and the supposed validator's DER-encoded public key,
    /// recompute the block's canonical bytes and check the stored
    /// signature against them.  The stored signature is never trusted
    /// without recomputation; `false` is a normal outcome, not a fault.
    pub fn verify_signature(block: &Block, pub_key: &[u8]) -> (r: bool)
        ensures
            r == rsa_verify_ok(pub_key@, spec_block_bytes(*block), block.validator_signature@),
    {
        let fields = block.serialise();
        rsa_sha256_verify(pub_key, fields.as_slice(), block.validator_signature.as_slice())
    }
}

/// Law: the sign/verify round trip.  For a fresh key pair and any block,
/// signing with the pair's private half succeeds and verifying under its
/// public half returns `true` — whenever a pair was produced at all, the
/// outcome is `true`, which follows from the contracts of
/// `generate_rsa_4096_key_pair`, `Block::sign` and
/// `Block::verify_signature` alone.  `None` reports a key-generation
/// failure inside the backend; the block's canonical bytes are preserved
/// either way.
pub fn sign_verify_round_trip(block: &mut Block) -> (r: Option<bool>)
    ensures
        r matches Some(verified) ==> verified,
        spec_block_bytes(*final(block)) == spec_block_bytes(*old(block)),
{
    match generate_rsa_4096_key_pair() {
        Some(key_pair) => {
            let signed = Block::sign(block, key_pair.1.as_slice());
            assert(signed);
            Some(Block::verify_signature(block, key_pair.0.as_slice()))
        },
        None => None,
    }
}

/// Append the 32 bytes of a hash to `out`.
fn push_hash(out: &mut Vec<u8>, h: &Hash32)
    ensures
        final(out)@ == old(out)@ + h@,
{
    let mut i: usize = 0;
    while i < 32
        invariant
            i <= 32,
            out@ == old(out)@ + h@.take(i as int),
        decreases 32 - i,
    {
        out.push(h[i]);
        assert(old(out)@ + h@.take(i + 1 as int) =~= old(out)@ + h@.take(i as int) + seq![
            h@[i as int],
        ]);
        i += 1;
    }
    assert(h@.take(32) =~= h@);
}

/// A payment destination: a fixed 32-byte account address derived one-way
/// from a public key.  Equality is byte content; no reverse mapping to
/// the key exists.
#[derive(Debug, Clone, Copy, Hash)]
pub struct GCoinAddress {
    pub address: Hash32,
}

impl GCoinAddress {
    pub fn new(address: Hash32) -> (r: Self)
        ensures
            r.address == address,
    {
        Self { address }
    }

    /// Derive the account address from a DER-encoded RSA public key by a
    /// RIPEMD-256 digest.  Deterministic, and always exactly 32 bytes:
    /// the digest's output width is the address width, so no
    /// misconfiguration fault can arise.
    pub fn from_rsa_pub_key(pub_key: &[u8]) -> (r: Self)
        ensures
            r.address@ == ripemd256_of(pub_key@),
            r.address@.len() == 32,
    {
        let address: Hash32 = ripemd256_digest(pub_key);
        Self { address }
    }

    /// Fixed-width hexadecimal display form of the 32 address bytes.
    pub fn to_hex(&self) -> (r: String)
        ensures
            r@ == spec_hex_of(self.address@),
    {
        let mut s = String::new();
        let mut i: usize = 0;
        while i < 32
            invariant
                i <= 32,
                s@ == spec_hex_of(self.address@.take(i as int)),
            decreases 32 - i,
        {
            let b = self.address[i];
            s.append(hex_digit_str(b / 16));
            s.append(hex_digit_str(b % 16));
            assert(self.address@.take(i + 1 as int).drop_last() =~= self.address@.take(i as int));
            assert(self.address@.take(i + 1 as int).last() == self.address@[i as int]);
            assert(s@ =~= spec_hex_of(self.address@.take(i + 1 as int)));
            i += 1;
        }
        assert(self.address@.take(32) =~= self.address@);
        s
    }
}

/// The upper-case digit for one hex value.
pub open spec fn spec_hex_digit(n: int) -> char {
    if n == 0 {
        '0'
    } else if n == 1 {
        '1'
    } else if n == 2 {
        '2'
    } else if n == 3 {
        '3'
    } else if n == 4 {
        '4'
    } else if n == 5 {
        '5'
    } else if n == 6 {
        '6'
    } else if n == 7 {
        '7'
    } else if n == 8 {
        '8'
    } else if n == 9 {
        '9'
    } else if n == 10 {
        'A'
    } else if n == 11 {
        'B'
    } else if n == 12 {
        'C'
    } else if n == 13 {
        'D'
    } else if n == 14 {
        'E'
    } else {
        'F'
    }
}

/// Upper-case hexadecimal text of a byte string, two digits per byte, in
/// order.
pub open spec fn spec_hex_of(bytes: Seq<u8>) -> Seq<char>
    decreases bytes.len(),
{
    if bytes.len() == 0 {
        Seq::empty()
    } else {
        spec_hex_of(bytes.drop_last()) + seq![
            spec_hex_digit((bytes.last() / 16) as int),
            spec_hex_digit((bytes.last() % 16) as int),
        ]
    }
}

/// The one-character text of one hex value.
fn hex_digit_str(n: u8) -> (r: &'static str)
    requires
        n < 16,
    ensures
        r@ == seq![spec_hex_digit(n as int)],
{
    proof {
        reveal_strlit("0");
        reveal_strlit("1");
        reveal_strlit("2");
        reveal_strlit("3");
        reveal_strlit("4");
        reveal_strlit("5");
        reveal_strlit("6");
        reveal_strlit("7");
        reveal_strlit("8");
        reveal_strlit("9");
        reveal_strlit("A");
        reveal_strlit("B");
        reveal_strlit("C");
        reveal_strlit("D");
        reveal_strlit("E");
        reveal_strlit("F");
    }
    let r: &'static str = match n {
        0 => "0",
        1 => "1",
        2 => "2",
        3 => "3",
        4 => "4",
        5 => "5",
        6 => "6",
        7 => "7",
        8 => "8",
        9 => "9",
        10 => "A",
        11 => "B",
        12 => "C",
        13 => "D",
        14 => "E",
        _ => "F",
    };
    assert(r@ =~= seq![spec_hex_digit(n as int)]);
    r
}

/// Law: address derivation is deterministic — equal public keys always
/// derive equal addresses (and `from_rsa_pub_key` pins each address to
/// `ripemd256_of` of the key, so two calls on one key agree).
pub proof fn lemma_address_derivation_deterministic(k1: Seq<u8>, k2: Seq<u8>)
    requires
        k1 == k2,
    ensures
        ripemd256_of(k1) == ripemd256_of(k2),
{
}

/// Generate a fresh RSA-4096 key pair as `(public, private)` DER bytes.
/// `None` reports a generation failure inside the cryptographic backend.
/// Whatever pair comes back, the public half is the one derived from the
/// private half, and the private half is a consistent, signing-capable
/// key.
pub fn generate_rsa_4096_key_pair() -> (r: Option<(Vec<u8>, Vec<u8>)>)
    ensures
        r matches Some(kp) ==> kp.0@ == rsa_public_of(kp.1@),
        r matches Some(kp) ==> rsa_private_key_ok(kp.1@),
        r matches Some(kp) ==> rsa_private_key_consistent(kp.1@),
{
    rsa_4096_generate_der()
}

/// Text armor for a DER-encoded private key, tagged `RSA PRIVATE KEY`,
/// ready to hand to the key-interchange collaborator or a log sink.
pub fn private_key_armor(der: &[u8]) -> (r: String)
    ensures
        r@ == pem_armor_of("RSA PRIVATE KEY"@, der@),
{
    pem_encode_armor("RSA PRIVATE KEY", der)
}

/// Text armor for a DER-encoded public key, tagged `RSA PUBLIC KEY`.
pub fn public_key_armor(der: &[u8]) -> (r: String)
    ensures
        r@ == pem_armor_of("RSA PUBLIC KEY"@, der@),
{
    pem_encode_armor("RSA PUBLIC KEY", der)
}

} // verus!
