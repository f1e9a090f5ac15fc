//! The cryptographic capability this ledger core relies on: a one-way
//! digest for address derivation, RSA signing and verification for block
//! integrity, and PEM text armor for key interchange.
//!
//! Each outside call sits behind one trusted function.  What a call
//! returns is a function of its arguments alone, so the result is given a
//! name (an uninterpreted spec function) that the callers' contracts are
//! stated over; nothing beyond what the crates' own sources show is
//! promised here.

use vstd::prelude::*;

verus! {

/// The 32-byte RIPEMD-256 digest of `data`.
pub uninterp spec fn ripemd256_of(data: Seq<u8>) -> Seq<u8>;

/// The RSA PKCS#1 v1.5 signature over the SHA-256 digest of `msg`, made
/// with the private key whose DER encoding is `key_der`.
pub uninterp spec fn rsa_signature_of(key_der: Seq<u8>, msg: Seq<u8>) -> Seq<u8>;

/// The DER-encoded public half of the RSA private key whose DER encoding
/// is `key_der`.
pub uninterp spec fn rsa_public_of(key_der: Seq<u8>) -> Seq<u8>;

/// Whether RSA verification accepts `sig` as a signature over the SHA-256
/// digest of `msg` under the DER-encoded public key `pub_der`.  A key
/// that does not parse, or a signature of the wrong shape, is never
/// accepted.
pub uninterp spec fn rsa_verify_ok(pub_der: Seq<u8>, msg: Seq<u8>, sig: Seq<u8>) -> bool;

/// Whether `key_der` parses as an RSA private key that OpenSSL signs
/// with: exactly the inputs on which the signing pipeline succeeds.
pub uninterp spec fn rsa_private_key_ok(key_der: Seq<u8>) -> bool;

/// Whether `key_der` encodes an internally consistent RSA private key —
/// one whose embedded public half is the half that signatures made with
/// its private exponent verify under.  A parseable but doctored DER (a
/// mismatched public exponent spliced in) signs without complaint, yet
/// its signatures do not verify: nothing in the signing path checks the
/// halves against each other.  Every key the generator returns is
/// consistent.
pub uninterp spec fn rsa_private_key_consistent(key_der: Seq<u8>) -> bool;

/// The PEM text armor (`-----BEGIN <tag>----- ...`) of `contents`.
pub uninterp spec fn pem_armor_of(tag: Seq<char>, contents: Seq<u8>) -> Seq<char>;

/// Relies on `ripemd::Ripemd256` (the `digest` crate's `Digest` trait):
/// the digest is a fixed 32-byte value depending on the input bytes alone.
#[verifier::external_body]
pub fn ripemd256_digest(data: &[u8]) -> (r: [u8; 32])
    ensures
        r@ == ripemd256_of(data@),
{
    let mut hasher = <ripemd::Ripemd256 as ripemd::Digest>::new();
    ripemd::Digest::update(&mut hasher, data);
    let out = ripemd::Digest::finalize(hasher);
    let mut r = [0u8; 32];
    r.copy_from_slice(out.as_slice());
    r
}

/// Relies on `openssl::rsa::Rsa::generate` and the two DER serialisers
/// `public_key_to_der` / `private_key_to_der`: whatever key material the
/// generator drew, the first component is the DER public half of the
/// second, and the private DER round-trips through the parser as a
/// consistent, signing-capable key — both halves come from the one
/// generated key object.  `None` reports a failure inside OpenSSL.
#[verifier::external_body]
pub(crate) fn rsa_4096_generate_der() -> (r: Option<(Vec<u8>, Vec<u8>)>)
    ensures
        r matches Some(kp) ==> kp.0@ == rsa_public_of(kp.1@),
        r matches Some(kp) ==> rsa_private_key_ok(kp.1@),
        r matches Some(kp) ==> rsa_private_key_consistent(kp.1@),
{
    let rsa = match openssl::rsa::Rsa::generate(4096) { Ok(v) => v, Err(_) => return None };
    let public = match rsa.public_key_to_der() { Ok(v) => v, Err(_) => return None };
    let private = match rsa.private_key_to_der() { Ok(v) => v, Err(_) => return None };
    Some((public, private))
}

/// Relies on `openssl::sign::Signer` with `MessageDigest::sha256` over an
/// RSA key: the pipeline succeeds exactly on DER that parses as a
/// signing-capable private key; PKCS#1 v1.5 signing is deterministic in
/// the key and message; and for an internally *consistent* key the
/// signature is accepted by RSA verification under the key's public half.
/// The consistency guard matters: the parser checks nothing across the
/// key's halves, so a doctored DER signs "successfully" with signatures
/// that verify under no derived key.
#[verifier::external_body]
pub(crate) fn rsa_sha256_sign(key_der: &[u8], msg: &[u8]) -> (r: Option<Vec<u8>>)
    ensures
        r is Some <==> rsa_private_key_ok(key_der@),
        r matches Some(sig) ==> sig@ == rsa_signature_of(key_der@, msg@),
        r matches Some(sig) ==> (rsa_private_key_consistent(key_der@) ==> rsa_verify_ok(
            rsa_public_of(key_der@),
            msg@,
            sig@,
        )),
{
    let rsa = match openssl::rsa::Rsa::private_key_from_der(key_der) { Ok(v) => v, Err(_) => return None };
    let key = match openssl::pkey::PKey::from_rsa(rsa) { Ok(v) => v, Err(_) => return None };
    let digest = openssl::hash::MessageDigest::sha256();
    let mut signer = match openssl::sign::Signer::new(digest, &key) { Ok(v) => v, Err(_) => return None };
    if signer.update(msg).is_err() { return None; }
    signer.sign_to_vec().ok()
}

/// Relies on `openssl::sign::Verifier` with `MessageDigest::sha256`: the
/// outcome depends on the public key, message and signature alone.  Any
/// error (an unparsable key included) counts as rejection, never as a
/// crash.
#[verifier::external_body]
pub(crate) fn rsa_sha256_verify(pub_der: &[u8], msg: &[u8], sig: &[u8]) -> (r: bool)
    ensures
        r == rsa_verify_ok(pub_der@, msg@, sig@),
{
    let rsa = match openssl::rsa::Rsa::public_key_from_der(pub_der) { Ok(v) => v, Err(_) => return false };
    let key = match openssl::pkey::PKey::from_rsa(rsa) { Ok(v) => v, Err(_) => return false };
    let digest = openssl::hash::MessageDigest::sha256();
    let mut verifier = match openssl::sign::Verifier::new(digest, &key) { Ok(v) => v, Err(_) => return false };
    if verifier.update(msg).is_err() { return false; }
    verifier.verify(sig).unwrap_or(false)
}

/// Relies on `pem::encode`: the armored text depends on the tag and the
/// contents alone.
#[verifier::external_body]
pub(crate) fn pem_encode_armor(tag: &str, contents: &[u8]) -> (r: String)
    ensures
        r@ == pem_armor_of(tag@, contents@),
{
    pem::encode(&pem::Pem::new(tag, contents))
}

} // verus!
