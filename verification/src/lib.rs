//! A minimal peer-to-peer ledger core: canonical transaction and block
//! encoding, validator signing and verification, one-way address
//! derivation, a fixed-token peer handshake, and the peer confirmation
//! protocol a wallet runs before accepting a payment.

pub mod codec;
pub mod crypto;
pub mod ledger;
pub mod network;
pub mod simulation;
