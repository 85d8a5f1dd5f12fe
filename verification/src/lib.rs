//! Peer-level state machine and binary wire encoding for a Lightning-style
//! payment-channel protocol.
//!
//! The crate is organised leaf-first:
//! - [`codec`] holds the wire encoding framework: big-endian fixed-width
//!   integers, the canonical variable-length integer, and 16-bit
//!   length-prefixed byte runs;
//! - [`crypto`] holds the trusted bindings to the hashing and elliptic-curve
//!   crates that the key-derivation functions rely on;
//! - [`primitives`] holds the domain value types (hashes, keys, signatures,
//!   flag vectors) together with their wire encodings;
//! - [`bitcoin`] holds script values and channel identifiers;
//! - [`keyset`] holds the per-channel key material;
//! - [`script`] generates the three canonical channel output scripts;
//! - [`message`] holds the peer message catalog and its wire encoding;
//! - [`policy`] holds the negotiation bounds and their validation;
//! - [`channel`] holds the channel lifecycle state machine, the
//!   commitment-number obscuring derivation, and the revocation-key
//!   derivation.

pub mod codec;
pub mod crypto;
pub mod primitives;
pub mod bitcoin;
pub mod keyset;
pub mod script;
pub mod message;
pub mod policy;
pub mod channel;

pub use codec::Error;
