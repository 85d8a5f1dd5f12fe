//! Per-channel key material.
//!
//! The local keyset is generated and owned by this node; the remote keyset is
//! copied verbatim from peer messages and only ever read. Each set carries
//! the five long-lived basepoints (funding, revocation, payment, delayed
//! payment, HTLC) and the first per-commitment point.

use vstd::prelude::*;
use crate::bitcoin::PubkeyScript;
use crate::primitives::PublicKey;

verus! {

/// Builds a vector of `n` zero bytes, the placeholder for key material that
/// has not been received yet.
pub fn zero_bytes(n: usize) -> (r: Vec<u8>)
    ensures
        r@.len() == n,
        forall|i: int| 0 <= i < n ==> r@[i] == 0u8,
{
    let mut v: Vec<u8> = Vec::new();
    let mut i: usize = 0;
    while i < n
        invariant
            i <= n,
            v@.len() == i,
            forall|j: int| 0 <= j < i ==> v@[j] == 0u8,
        decreases n - i,
    {
        v.push(0);
        i = i + 1;
    }
    v
}

/// A locally-derived public key.
#[derive(Clone, Debug, PartialEq, Eq)]
pub struct LocalPubkey {
    pub key: PublicKey,
}

impl LocalPubkey {
    /// The key holds 33 bytes.
    pub open spec fn wf(&self) -> bool {
        self.key.wf()
    }
}

/// The set of locally-derived keys for creating channel transactions.
#[derive(Clone, Debug, PartialEq, Eq)]
pub struct LocalKeyset {
    /// Key controlling the funding transaction output.
    pub funding_pubkey: LocalPubkey,
    /// Basepoint from which the counterparty derives revocation keys.
    pub revocation_basepoint: LocalPubkey,
    /// Basepoint for the balance paid to this node.
    pub payment_basepoint: LocalPubkey,
    /// Basepoint for this node's delayed self-payment.
    pub delayed_payment_basepoint: LocalPubkey,
    /// Basepoint for HTLC payment keys.
    pub htlc_basepoint: LocalPubkey,
    /// The first per-commitment point.
    pub first_per_commitment_point: LocalPubkey,
    /// A pre-set script for a cooperative close, if any.
    pub shutdown_scriptpubkey: Option<PubkeyScript>,
    /// Whether the remote balance pays directly to a static key.
    pub static_remotekey: bool,
}

impl LocalKeyset {
    /// Every key holds 33 bytes, and any shutdown script fits the wire.
    pub open spec fn wf(&self) -> bool {
        &&& self.funding_pubkey.wf()
        &&& self.revocation_basepoint.wf()
        &&& self.payment_basepoint.wf()
        &&& self.delayed_payment_basepoint.wf()
        &&& self.htlc_basepoint.wf()
        &&& self.first_per_commitment_point.wf()
        &&& match self.shutdown_scriptpubkey {
            Some(s) => s.wf(),
            None => true,
        }
    }

    /// A placeholder keyset of all-zero keys, replaced before use.
    pub fn dumb_default() -> (r: LocalKeyset)
        ensures
            r.wf(),
            !r.static_remotekey,
    {
        LocalKeyset {
            funding_pubkey: LocalPubkey { key: PublicKey { bytes: zero_bytes(33) } },
            revocation_basepoint: LocalPubkey { key: PublicKey { bytes: zero_bytes(33) } },
            payment_basepoint: LocalPubkey { key: PublicKey { bytes: zero_bytes(33) } },
            delayed_payment_basepoint: LocalPubkey { key: PublicKey { bytes: zero_bytes(33) } },
            htlc_basepoint: LocalPubkey { key: PublicKey { bytes: zero_bytes(33) } },
            first_per_commitment_point: LocalPubkey { key: PublicKey { bytes: zero_bytes(33) } },
            shutdown_scriptpubkey: None,
            static_remotekey: false,
        }
    }
}


impl LocalPubkey {
    /// Copies the key into a fresh allocation.
    pub fn copy(&self) -> (r: LocalPubkey)
        ensures
            r.key.bytes@ == self.key.bytes@,
    {
        LocalPubkey { key: self.key.copy() }
    }
}

/// Whether two local keysets hold the same key material.
pub open spec fn same_local_keyset(a: LocalKeyset, b: LocalKeyset) -> bool {
    &&& a.funding_pubkey.key.bytes@ == b.funding_pubkey.key.bytes@
    &&& a.revocation_basepoint.key.bytes@ == b.revocation_basepoint.key.bytes@
    &&& a.payment_basepoint.key.bytes@ == b.payment_basepoint.key.bytes@
    &&& a.delayed_payment_basepoint.key.bytes@ == b.delayed_payment_basepoint.key.bytes@
    &&& a.htlc_basepoint.key.bytes@ == b.htlc_basepoint.key.bytes@
    &&& a.first_per_commitment_point.key.bytes@ == b.first_per_commitment_point.key.bytes@
    &&& match (a.shutdown_scriptpubkey, b.shutdown_scriptpubkey) {
        (Some(x), Some(y)) => x.script.bytes@ == y.script.bytes@,
        (None, None) => true,
        _ => false,
    }
    &&& a.static_remotekey == b.static_remotekey
}

/// The set of keys received from the remote node, copied verbatim from its
/// channel-establishment messages.
#[derive(Clone, Debug, PartialEq, Eq)]
pub struct RemoteKeyset {
    /// Key controlling the funding transaction output.
    pub funding_pubkey: PublicKey,
    /// Basepoint from which this node derives revocation keys.
    pub revocation_basepoint: PublicKey,
    /// Basepoint for the balance paid to the remote node.
    pub payment_basepoint: PublicKey,
    /// Basepoint for the remote node's delayed self-payment.
    pub delayed_payment_basepoint: PublicKey,
    /// Basepoint for HTLC payment keys.
    pub htlc_basepoint: PublicKey,
    /// The first per-commitment point.
    pub first_per_commitment_point: PublicKey,
}

impl RemoteKeyset {
    /// Every key holds 33 bytes.
    pub open spec fn wf(&self) -> bool {
        &&& self.funding_pubkey.wf()
        &&& self.revocation_basepoint.wf()
        &&& self.payment_basepoint.wf()
        &&& self.delayed_payment_basepoint.wf()
        &&& self.htlc_basepoint.wf()
        &&& self.first_per_commitment_point.wf()
    }

    /// A placeholder keyset of all-zero keys, overwritten when the peer's
    /// keys arrive.
    pub fn dumb_default() -> (r: RemoteKeyset)
        ensures
            r.wf(),
    {
        RemoteKeyset {
            funding_pubkey: PublicKey { bytes: zero_bytes(33) },
            revocation_basepoint: PublicKey { bytes: zero_bytes(33) },
            payment_basepoint: PublicKey { bytes: zero_bytes(33) },
            delayed_payment_basepoint: PublicKey { bytes: zero_bytes(33) },
            htlc_basepoint: PublicKey { bytes: zero_bytes(33) },
            first_per_commitment_point: PublicKey { bytes: zero_bytes(33) },
        }
    }
}


impl LocalKeyset {
    /// Copies the keyset into fresh allocations.
    pub fn copy(&self) -> (r: LocalKeyset)
        ensures
            same_local_keyset(r, *self),
            self.wf() ==> r.wf(),
    {
        LocalKeyset {
            funding_pubkey: self.funding_pubkey.copy(),
            revocation_basepoint: self.revocation_basepoint.copy(),
            payment_basepoint: self.payment_basepoint.copy(),
            delayed_payment_basepoint: self.delayed_payment_basepoint.copy(),
            htlc_basepoint: self.htlc_basepoint.copy(),
            first_per_commitment_point: self.first_per_commitment_point.copy(),
            shutdown_scriptpubkey: match &self.shutdown_scriptpubkey {
                Some(s) => Some(s.copy()),
                None => None,
            },
            static_remotekey: self.static_remotekey,
        }
    }
}

} // verus!
