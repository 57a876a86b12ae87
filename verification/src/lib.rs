//! Signing, payload construction and send orchestration for a seed-phrase wallet
//! on an Everscale-style ledger.
//!
//! The crate holds the decisions of the wallet: what a valid hash, address or
//! signature looks like, how a transfer is described and carried as text, where a
//! wallet contract keeps its public key, and in which order a send fetches state,
//! signs and broadcasts. Everything that touches the network is left to the
//! caller, who feeds the results back in as plain values.

pub mod error;
pub mod text;
pub mod bytes;
pub mod hexcodec;
pub mod decimal;
pub mod address;
pub mod keys;
pub mod payload;
pub mod account;
pub mod call;
pub mod pipeline;
pub mod signer;

pub use crate::account::extract_public_key;
pub use crate::payload::SendPayload;
pub use crate::signer::TonSigner;
