//! The channel lifecycle state machine.
//!
//! [`Core`] holds the per-channel state and applies the transitions driven
//! by inbound peer messages; it composes the outbound negotiation messages
//! and renders the channel state into a commitment transaction template.
//! State-machine failures are returned as explicit results and never leave
//! the state partially mutated.

use vstd::prelude::*;
use crate::bitcoin::ActiveChannelId;
use crate::bitcoin::ChannelId;
use crate::bitcoin::PubkeyScript;
use crate::bitcoin::TempChannelId;
use crate::codec;
use crate::crypto;
use crate::keyset::LocalKeyset;
use crate::keyset::RemoteKeyset;
use crate::message::Messages;
use crate::message::OpenChannel;
use crate::message::AcceptChannel;
use crate::message::OutPoint;
use crate::policy::CommonParams;
use crate::policy::PeerParams;
use crate::policy::Policy;
use crate::policy::PolicyViolation;
use crate::primitives::PublicKey;
use crate::primitives::Signature;
use crate::primitives::Slice32;
use crate::script::TxOutput;
use crate::bitcoin::WitnessScript;

verus! {

/// The low 48 bits, to which commitment numbers and obscuring factors are
/// masked.
pub const LOWER_48_BITS: u64 = 0xFFFF_FFFF_FFFF;

/// Channel direction.
#[derive(Clone, Copy, Debug, PartialEq, Eq, Structural)]
pub enum Direction {
    /// An inbound channel, accepted by the local node in response to a
    /// received open proposal.
    Inbound,
    /// An outbound channel, proposed to a remote node by sending an open
    /// proposal.
    Outbount,
}

impl Direction {
    /// Detects if the channel is inbound.
    pub fn is_inbound(self) -> (r: bool)
        ensures
            r == (self == Direction::Inbound),
    {
        self == Direction::Inbound
    }

    /// Detects if the channel is outbound.
    pub fn is_outbound(self) -> (r: bool)
        ensures
            r == (self == Direction::Outbount),
    {
        self == Direction::Outbount
    }

    /// The other party's view of the same channel.
    pub open spec fn spec_opposite(self) -> Direction {
        match self {
            Direction::Inbound => Direction::Outbount,
            Direction::Outbount => Direction::Inbound,
        }
    }
}

/// The channel lifecycle stage. Stages move only along the protocol's
/// transition graph, driven by inbound message kinds.
#[derive(Clone, Copy, Debug, PartialEq, Eq, Structural)]
pub enum Lifecycle {
    /// No negotiation has started.
    Initial,
    /// An open proposal has been received.
    Proposed,
    /// An accept message has been received.
    Accepted,
    /// The funding outpoint has been announced.
    Funding,
    /// The funding transaction has been signed.
    Funded,
    /// The funding transaction has reached its required depth.
    Locked,
    /// The channel is operating.
    Active,
    /// Commitment state is being resynchronised after a reconnection.
    Reestablishing,
}

/// A standard bitcoin network a channel can target.
#[derive(Clone, Copy, Debug, PartialEq, Eq, Structural)]
pub enum Network {
    Mainnet,
    Testnet,
    Signet,
    Regtest,
}

impl Network {
    /// The tag under which [`crate::crypto::genesis_hash_of`] knows the
    /// network.
    pub open spec fn spec_tag(self) -> int {
        match self {
            Network::Mainnet => 0,
            Network::Testnet => 1,
            Network::Signet => 2,
            Network::Regtest => 3,
        }
    }

    /// The network with the given tag.
    pub fn from_tag(tag: u8) -> (r: Network)
        requires
            tag < 4,
        ensures
            r.spec_tag() == tag,
    {
        match tag {
            0 => Network::Mainnet,
            1 => Network::Testnet,
            2 => Network::Signet,
            _ => Network::Regtest,
        }
    }
}

/// Failures of the channel state machine.
#[derive(Clone, Debug, PartialEq, Eq)]
pub enum Error {
    /// The operation was attempted outside its required lifecycle stages;
    /// carries the current stage and the allowed set. Retryable once the
    /// state advances.
    LifecycleMismatch { current: Lifecycle, required: Vec<Lifecycle> },
    /// The peer proposed parameters outside the configured bounds; the
    /// negotiation is aborted.
    Policy(PolicyViolation),
    /// A curve operation failed while deriving a key (an event of
    /// cryptographically negligible probability).
    KeyDerivation,
    /// No funding output was found in the transaction under enrichment.
    NoFundingOutput,
}

/// The commitment transaction template: a fixed-shape graph the channel
/// state is rendered into, built fresh on every call.
#[derive(Clone, Debug, PartialEq, Eq)]
pub struct TxGraph {
    /// The transaction version.
    pub cmt_version: u32,
    /// The transaction locktime, carrying obscured commitment-number bits.
    pub cmt_locktime: u32,
    /// The input sequence, carrying obscured commitment-number bits.
    pub cmt_sequence: u32,
    /// The ordered outputs.
    pub cmt_outs: Vec<TxOutput>,
}

impl TxGraph {
    /// An empty template.
    pub fn new() -> (r: TxGraph)
        ensures
            r.cmt_version == 0 && r.cmt_locktime == 0 && r.cmt_sequence == 0 && r.cmt_outs@.len()
                == 0,
    {
        TxGraph { cmt_version: 0, cmt_locktime: 0, cmt_sequence: 0, cmt_outs: Vec::new() }
    }
}

/// The bytes hashed into the obscuring factor: the two payment basepoints,
/// remote first for an inbound channel and local first for an outbound one.
pub open spec fn spec_obscuring_input(direction: Direction, local: Seq<u8>, remote: Seq<u8>) -> Seq<
    u8,
> {
    match direction {
        Direction::Inbound => remote + local,
        Direction::Outbount => local + remote,
    }
}

/// The obscuring factor: the last 8 bytes of the digest over the two payment
/// basepoints, read big-endian and masked to the low 48 bits.
pub open spec fn spec_obscuring_factor(
    direction: Direction,
    local: Seq<u8>,
    remote: Seq<u8>,
) -> u64 {
    codec::dec_u64(
        crypto::sha256_of(spec_obscuring_input(direction, local, remote)).subrange(24, 32),
    ) & 0xFFFF_FFFF_FFFFu64
}

/// The obscured commitment number: the counter and the factor, both masked
/// to 48 bits, combined by exclusive or.
pub open spec fn spec_obscured_commitment_number(commitment_number: u64, factor: u64) -> u64 {
    (commitment_number & 0xFFFF_FFFF_FFFFu64) ^ (factor & 0xFFFF_FFFF_FFFFu64)
}

/// Computes the obscuring factor for a channel's commitment numbers from the
/// two payment basepoints and the channel direction: the last 8 bytes of the
/// digest, big-endian, masked to the low 48 bits.
pub fn compute_obscuring_factor(
    direction: Direction,
    local_payment_basepoint: &PublicKey,
    remote_payment_basepoint: &PublicKey,
) -> (r: u64)
    ensures
        r == spec_obscuring_factor(
            direction,
            local_payment_basepoint.bytes@,
            remote_payment_basepoint.bytes@,
        ),
{
    let mut buf: Vec<u8> = Vec::new();
    if direction.is_inbound() {
        codec::append_bytes(remote_payment_basepoint.bytes.as_slice(), &mut buf);
        codec::append_bytes(local_payment_basepoint.bytes.as_slice(), &mut buf);
    } else {
        codec::append_bytes(local_payment_basepoint.bytes.as_slice(), &mut buf);
        codec::append_bytes(remote_payment_basepoint.bytes.as_slice(), &mut buf);
    }
    let digest = crypto::sha256(buf.as_slice());
    match codec::read_u64(digest.as_slice(), 24) {
        Ok((v, _)) => {
            proof {
                assert(digest@.subrange(24, 32) =~= digest@.subrange(24int, digest@.len() as int));
            }
            v & 0xFFFF_FFFF_FFFF
        },
        Err(_) => {
            proof {
                assert(false);
            }
            0
        },
    }
}

/// The obscured commitment number is reconstructible by the counterparty:
/// recomputing the obscuring factor with the basepoints swapped and the
/// direction reversed yields the same factor, and combining it with the
/// transmitted value by exclusive or recovers the 48-bit commitment counter.
pub proof fn lemma_obscured_commitment_number_recoverable(
    commitment_number: u64,
    direction: Direction,
    local: Seq<u8>,
    remote: Seq<u8>,
)
    ensures
        spec_obscuring_factor(direction, local, remote) == spec_obscuring_factor(
            direction.spec_opposite(),
            remote,
            local,
        ),
        spec_obscured_commitment_number(
            commitment_number,
            spec_obscuring_factor(direction, local, remote),
        ) ^ (spec_obscuring_factor(direction.spec_opposite(), remote, local)
            & 0xFFFF_FFFF_FFFFu64) == commitment_number & 0xFFFF_FFFF_FFFFu64,
{
    assert(spec_obscuring_input(direction, local, remote) == spec_obscuring_input(
        direction.spec_opposite(),
        remote,
        local,
    ));
    let f = spec_obscuring_factor(direction, local, remote);
    let c = commitment_number;
    assert(((c & 0xFFFF_FFFF_FFFFu64) ^ (f & 0xFFFF_FFFF_FFFFu64)) ^ (f & 0xFFFF_FFFF_FFFFu64) == c
        & 0xFFFF_FFFF_FFFFu64) by (bit_vector);
}

/// The scalar tweak of one key by the digest of the ordered pair: the first
/// operand multiplied by the hash of both.
pub open spec fn spec_revocation_tweak(a: Seq<u8>, b: Seq<u8>) -> Seq<u8> {
    crypto::ec_mul_of(a, crypto::sha256_of(a + b))
}

/// The revocation public key: the sum of the counterparty revocation
/// basepoint and per-commitment point, each tweaked by the digest of the
/// pair.
pub open spec fn spec_revocation_pubkey(basepoint: Seq<u8>, point: Seq<u8>) -> Seq<u8> {
    crypto::ec_sum_of(
        set![spec_revocation_tweak(basepoint, point), spec_revocation_tweak(point, basepoint)],
    )
}

/// Whether the revocation-key derivation succeeds: both tweak
/// multiplications and the final point sum succeed. Every step is decided
/// by the two input keys alone, so success is a function of them.
pub open spec fn spec_revocation_derivable(basepoint: Seq<u8>, point: Seq<u8>) -> bool {
    &&& crypto::ec_mul_ok(basepoint, crypto::sha256_of(basepoint + point))
    &&& crypto::ec_mul_ok(point, crypto::sha256_of(point + basepoint))
    &&& crypto::ec_sum_ok(
        set![spec_revocation_tweak(basepoint, point), spec_revocation_tweak(point, basepoint)],
    )
}

/// The revocation key combination is order-independent: combining the two
/// tweaked points gives the same key whichever operand is tweaked first,
/// because the point sum is over the unordered pair.
pub proof fn lemma_revocation_pubkey_order_independent(a: Seq<u8>, b: Seq<u8>)
    ensures
        crypto::ec_sum_of(
            set![spec_revocation_tweak(a, b), spec_revocation_tweak(b, a)],
        ) == crypto::ec_sum_of(
            set![spec_revocation_tweak(b, a), spec_revocation_tweak(a, b)],
        ),
        spec_revocation_pubkey(a, b) == spec_revocation_pubkey(b, a),
{
    assert(set![spec_revocation_tweak(a, b), spec_revocation_tweak(b, a)]
        =~= set![spec_revocation_tweak(b, a), spec_revocation_tweak(a, b)]);
}


/// The fee refunded to the funding initiator on the commitment refund
/// output, derived from the fee rate.
pub open spec fn spec_refund_fee(feerate_per_kw: u32) -> u64 {
    (724 * feerate_per_kw / 1000) as u64
}

/// The transaction locktime carrying the low 24 bits of the obscured
/// commitment number behind the fixed upper byte.
pub open spec fn spec_locktime(obscured: u64) -> u32 {
    0x20000000u32 | ((obscured & 0xFFFFFFu64) as u32)
}

/// The input sequence carrying the low 24 bits of the obscured commitment
/// number behind the fixed upper byte.
pub open spec fn spec_sequence(obscured: u64) -> u32 {
    0x80000000u32 | ((obscured & 0xFFFFFFu64) as u32)
}

/// The core of the lightning channel: lifecycle tracking, the negotiated
/// state on both sides, and the key material for the channel transactions.
#[derive(Clone, Debug, PartialEq, Eq)]
pub struct Core {
    /// Current channel lifecycle stage.
    pub stage: Lifecycle,
    /// The genesis hash of the blockchain the channel resides in; immutable
    /// after construction.
    pub chain_hash: Slice32,
    /// The channel identifier: first temporary, later final, transitioning
    /// exactly once.
    pub active_channel_id: ActiveChannelId,
    /// The funding outpoint spent by commitment transaction inputs.
    pub funding_outpoint: OutPoint,
    /// This node's balance, in millisatoshi.
    pub local_amount_msat: u64,
    /// The remote node's balance, in millisatoshi.
    pub remote_amount_msat: u64,
    /// The monotonic commitment counter.
    pub commitment_number: u64,
    /// The commitment signatures received so far.
    pub commitment_sigs: Vec<Signature>,
    /// The bounds for accepting remote parameters.
    pub policy: Policy,
    /// Parameters applying to both nodes.
    pub common_params: CommonParams,
    /// Parameters the remote node must observe towards this one.
    pub local_params: PeerParams,
    /// Parameters this node must observe towards the remote one.
    pub remote_params: PeerParams,
    /// This node's keys for the channel transactions.
    pub local_keys: LocalKeyset,
    /// The remote node's keys, copied verbatim from its messages.
    pub remote_keys: RemoteKeyset,
    /// The remote node's current per-commitment point.
    pub remote_per_commitment_point: PublicKey,
    /// This node's current per-commitment point.
    pub local_per_commitment_point: PublicKey,
    /// Whether this node proposed or accepted the channel.
    pub direction: Direction,
}

impl Core {
    /// Every identifier, key and signature has its proper width.
    pub open spec fn wf(&self) -> bool {
        &&& self.chain_hash.wf()
        &&& self.active_channel_id.wf()
        &&& self.funding_outpoint.wf()
        &&& self.local_keys.wf()
        &&& self.remote_keys.wf()
        &&& self.remote_per_commitment_point.wf()
        &&& self.local_per_commitment_point.wf()
        &&& forall|i: int|
            0 <= i < self.commitment_sigs@.len() ==> self.commitment_sigs@[i].wf()
    }

    /// A fresh channel core in its initial stage, under the given temporary
    /// identifier, with placeholder key material.
    pub fn new(temp_channel_id: TempChannelId) -> (r: Core)
        requires
            temp_channel_id.wf(),
        ensures
            r.wf(),
            r.stage == Lifecycle::Initial,
            r.direction == Direction::Outbount,
            r.active_channel_id == ActiveChannelId::Temporary(temp_channel_id),
            r.local_amount_msat == 0 && r.remote_amount_msat == 0,
            r.commitment_number == 0,
            r.commitment_sigs@.len() == 0,
            r.policy == Policy::spec_default(),
            r.common_params == CommonParams::spec_default(),
            r.local_params == PeerParams::spec_default(),
            r.remote_params == PeerParams::spec_default(),
    {
        Core {
            stage: Lifecycle::Initial,
            chain_hash: Slice32 { bytes: crate::keyset::zero_bytes(32) },
            active_channel_id: ActiveChannelId::Temporary(temp_channel_id),
            funding_outpoint: OutPoint {
                txid: Slice32 { bytes: crate::keyset::zero_bytes(32) },
                vout: 0,
            },
            local_amount_msat: 0,
            remote_amount_msat: 0,
            commitment_number: 0,
            commitment_sigs: Vec::new(),
            policy: Default::default(),
            common_params: Default::default(),
            local_params: Default::default(),
            remote_params: Default::default(),
            local_keys: LocalKeyset::dumb_default(),
            remote_keys: RemoteKeyset::dumb_default(),
            remote_per_commitment_point: PublicKey { bytes: crate::keyset::zero_bytes(33) },
            local_per_commitment_point: PublicKey { bytes: crate::keyset::zero_bytes(33) },
            direction: Direction::Outbount,
        }
    }

    /// Returns the final channel identifier, if one is assigned.
    pub fn channel_id(&self) -> (r: Option<ChannelId>)
        ensures
            match r {
                Some(c) => self.active_channel_id matches ActiveChannelId::Final(f) && c.id.bytes@
                    == f.id.bytes@,
                None => self.active_channel_id is Temporary,
            },
    {
        self.active_channel_id.channel_id()
    }

    /// Returns the temporary channel identifier, before a final one is
    /// assigned.
    pub fn temp_channel_id(&self) -> (r: Option<TempChannelId>)
        ensures
            match r {
                Some(t) => self.active_channel_id matches ActiveChannelId::Temporary(x)
                    && t.id.bytes@ == x.id.bytes@,
                None => self.active_channel_id is Final,
            },
    {
        self.active_channel_id.temp_channel_id()
    }

    /// Assigns the channel a temporary identifier.
    pub fn set_temp_channel_id(&mut self, temp_channel_id: TempChannelId)
        ensures
            (*final(self) == Core {
                active_channel_id: ActiveChannelId::Temporary(temp_channel_id),
                ..*old(self)
            }),
    {
        self.active_channel_id = ActiveChannelId::Temporary(temp_channel_id);
    }

    /// Marks the channel as inbound.
    pub fn set_inbound(&mut self)
        ensures
            (*final(self) == Core { direction: Direction::Inbound, ..*old(self) }),
    {
        self.direction = Direction::Inbound;
    }

    /// Marks the channel as outbound.
    pub fn set_outbound(&mut self)
        ensures
            (*final(self) == Core { direction: Direction::Outbount, ..*old(self) }),
    {
        self.direction = Direction::Outbount;
    }

    /// Sets the channel chain hash.
    pub fn set_chain_hash(&mut self, chain_hash: Slice32)
        ensures
            (*final(self) == Core { chain_hash, ..*old(self) }),
    {
        self.chain_hash = chain_hash;
    }

    /// Sets the channel policy.
    pub fn set_policy(&mut self, policy: Policy)
        ensures
            (*final(self) == Core { policy, ..*old(self) }),
    {
        self.policy = policy;
    }

    /// Sets the parameters common to both nodes.
    pub fn set_common_params(&mut self, params: CommonParams)
        ensures
            (*final(self) == Core { common_params: params, ..*old(self) }),
    {
        self.common_params = params;
    }

    /// Sets the parameters the remote node must observe.
    pub fn set_local_params(&mut self, params: PeerParams)
        ensures
            (*final(self) == Core { local_params: params, ..*old(self) }),
    {
        self.local_params = params;
    }

    /// Sets this node's keys for the channel.
    pub fn set_local_keys(&mut self, keys: LocalKeyset)
        ensures
            (*final(self) == Core { local_keys: keys, ..*old(self) }),
    {
        self.local_keys = keys;
    }

    /// Sets the static-remote-key flag.
    pub fn set_static_remotekey(&mut self, static_remotekey: bool)
        ensures
            (*final(self) == Core {
                local_keys: LocalKeyset { static_remotekey, ..old(self).local_keys },
                ..*old(self)
            }),
    {
        self.local_keys.static_remotekey = static_remotekey;
    }

    /// The fee refunded to the funding initiator, from the channel fee rate.
    pub fn refund_fee(&self) -> (r: u64)
        ensures
            r == spec_refund_fee(self.common_params.feerate_per_kw),
    {
        724 * (self.common_params.feerate_per_kw as u64) / 1000
    }

    /// The channel's obscured commitment number: the 48-bit commitment
    /// counter masked by the obscuring factor over the two payment
    /// basepoints.
    pub fn obscured_commitment_number(&self) -> (r: u64)
        ensures
            r == spec_obscured_commitment_number(
                self.commitment_number,
                spec_obscuring_factor(
                    self.direction,
                    self.local_keys.payment_basepoint.key.bytes@,
                    self.remote_keys.payment_basepoint.bytes@,
                ),
            ),
    {
        let factor = compute_obscuring_factor(
            self.direction,
            &self.local_keys.payment_basepoint.key,
            &self.remote_keys.payment_basepoint,
        );
        (self.commitment_number & LOWER_48_BITS) ^ (factor & LOWER_48_BITS)
    }

    /// Derives the revocation public key for the counterparty's commitment
    /// transaction: its revocation basepoint and per-commitment point, each
    /// tweaked by the digest of the pair, combined by point addition. The
    /// curve operations fail only with negligible probability, but the
    /// failure is surfaced, never unwrapped.
    pub fn revocationpubkey(&self) -> (r: Result<PublicKey, Error>)
        requires
            self.wf(),
        ensures
            r is Ok <==> spec_revocation_derivable(
                self.remote_keys.revocation_basepoint.bytes@,
                self.remote_per_commitment_point.bytes@,
            ),
            match r {
                Ok(k) => k.wf() && k.bytes@ == spec_revocation_pubkey(
                    self.remote_keys.revocation_basepoint.bytes@,
                    self.remote_per_commitment_point.bytes@,
                ),
                Err(e) => e == Error::KeyDerivation,
            },
    {
        let basepoint = &self.remote_keys.revocation_basepoint;
        let point = &self.remote_per_commitment_point;

        let mut buf1: Vec<u8> = Vec::new();
        codec::append_bytes(basepoint.bytes.as_slice(), &mut buf1);
        codec::append_bytes(point.bytes.as_slice(), &mut buf1);
        let revocation_tweak = crypto::sha256(buf1.as_slice());
        let tweaked_basepoint = match crypto::ec_pubkey_tweak_mul(
            basepoint.bytes.as_slice(),
            revocation_tweak.as_slice(),
        ) {
            Some(p) => p,
            None => {
                return Err(Error::KeyDerivation);
            },
        };

        let mut buf2: Vec<u8> = Vec::new();
        codec::append_bytes(point.bytes.as_slice(), &mut buf2);
        codec::append_bytes(basepoint.bytes.as_slice(), &mut buf2);
        let per_commitment_tweak = crypto::sha256(buf2.as_slice());
        let tweaked_point = match crypto::ec_pubkey_tweak_mul(
            point.bytes.as_slice(),
            per_commitment_tweak.as_slice(),
        ) {
            Some(p) => p,
            None => {
                return Err(Error::KeyDerivation);
            },
        };

        match crypto::ec_pubkey_combine(tweaked_basepoint.as_slice(), tweaked_point.as_slice()) {
            Some(k) => Ok(PublicKey { bytes: k }),
            None => Err(Error::KeyDerivation),
        }
    }
}


/// The fields of the channel core that no inbound message ever changes.
pub open spec fn static_fields_unchanged(pre: Core, post: Core) -> bool {
    &&& post.chain_hash == pre.chain_hash
    &&& post.funding_outpoint == pre.funding_outpoint
    &&& post.commitment_number == pre.commitment_number
    &&& post.policy == pre.policy
    &&& post.common_params == pre.common_params
    &&& post.local_params == pre.local_params
    &&& post.local_keys == pre.local_keys
    &&& post.local_per_commitment_point == pre.local_per_commitment_point
}

/// The state after accepting an inbound open proposal: the channel turns
/// inbound and proposed, adopts the peer's temporary identifier, splits the
/// funding amount into the two balances, takes the validated remote
/// parameters, and copies the five remote basepoints and the first
/// per-commitment point verbatim.
pub open spec fn post_open_channel(pre: Core, m: OpenChannel, post: Core) -> bool {
    &&& static_fields_unchanged(pre, post)
    &&& post.stage == Lifecycle::Proposed
    &&& post.direction == Direction::Inbound
    &&& post.active_channel_id matches ActiveChannelId::Temporary(t) && t.id.bytes@
        == m.temporary_channel_id.id.bytes@
    &&& post.remote_amount_msat == m.funding_satoshis * 1000 - m.push_msat
    &&& post.local_amount_msat == m.push_msat
    &&& post.remote_params == Policy::params_of_open(m)
    &&& post.commitment_sigs == pre.commitment_sigs
    &&& post.remote_keys.funding_pubkey.bytes@ == m.funding_pubkey.bytes@
    &&& post.remote_keys.payment_basepoint.bytes@ == m.payment_point.bytes@
    &&& post.remote_keys.revocation_basepoint.bytes@ == m.revocation_basepoint.bytes@
    &&& post.remote_keys.delayed_payment_basepoint.bytes@ == m.delayed_payment_basepoint.bytes@
    &&& post.remote_keys.htlc_basepoint.bytes@ == m.htlc_basepoint.bytes@
    &&& post.remote_keys.first_per_commitment_point.bytes@ == m.first_per_commitment_point.bytes@
    &&& post.remote_per_commitment_point.bytes@ == m.first_per_commitment_point.bytes@
}

/// The state after the peer accepts this node's proposal: the stage becomes
/// accepted, the confirmed remote parameters are taken, and the remote
/// basepoints are copied exactly as for an open proposal.
pub open spec fn post_accept_channel(pre: Core, m: AcceptChannel, post: Core) -> bool {
    &&& static_fields_unchanged(pre, post)
    &&& post.stage == Lifecycle::Accepted
    &&& post.direction == pre.direction
    &&& post.active_channel_id == pre.active_channel_id
    &&& post.local_amount_msat == pre.local_amount_msat
    &&& post.remote_amount_msat == pre.remote_amount_msat
    &&& post.remote_params == Policy::params_of_accept(m)
    &&& post.commitment_sigs == pre.commitment_sigs
    &&& post.remote_keys.funding_pubkey.bytes@ == m.funding_pubkey.bytes@
    &&& post.remote_keys.payment_basepoint.bytes@ == m.payment_point.bytes@
    &&& post.remote_keys.revocation_basepoint.bytes@ == m.revocation_basepoint.bytes@
    &&& post.remote_keys.delayed_payment_basepoint.bytes@ == m.delayed_payment_basepoint.bytes@
    &&& post.remote_keys.htlc_basepoint.bytes@ == m.htlc_basepoint.bytes@
    &&& post.remote_keys.first_per_commitment_point.bytes@ == m.first_per_commitment_point.bytes@
    &&& post.remote_per_commitment_point.bytes@ == m.first_per_commitment_point.bytes@
}

/// The state after the funding outpoint is announced: the stage moves to
/// funding and the temporary identifier is replaced — exactly once — by the
/// final identifier derived from the funding transaction.
pub open spec fn post_funding_created(pre: Core, m: crate::message::FundingCreated, post: Core) -> bool {
    &&& static_fields_unchanged(pre, post)
    &&& post.stage == Lifecycle::Funding
    &&& post.direction == pre.direction
    &&& post.active_channel_id matches ActiveChannelId::Final(c) && c.id.bytes@
        == crate::bitcoin::channel_id_bytes(m.funding_txid.bytes@, m.funding_output_index)
    &&& post.local_amount_msat == pre.local_amount_msat
    &&& post.remote_amount_msat == pre.remote_amount_msat
    &&& post.remote_params == pre.remote_params
    &&& post.commitment_sigs == pre.commitment_sigs
    &&& post.remote_keys == pre.remote_keys
    &&& post.remote_per_commitment_point == pre.remote_per_commitment_point
}

/// The state after the funding transaction is signed: the stage moves to
/// funded, the peer's channel identifier is adopted, and the carried
/// signature is appended to the signature list (without cryptographic
/// verification — a known gap of this protocol layer).
pub open spec fn post_funding_signed(pre: Core, m: crate::message::FundingSigned, post: Core) -> bool {
    &&& static_fields_unchanged(pre, post)
    &&& post.stage == Lifecycle::Funded
    &&& post.direction == pre.direction
    &&& post.active_channel_id matches ActiveChannelId::Final(c) && c.id.bytes@
        == m.channel_id.id.bytes@
    &&& post.local_amount_msat == pre.local_amount_msat
    &&& post.remote_amount_msat == pre.remote_amount_msat
    &&& post.remote_params == pre.remote_params
    &&& post.commitment_sigs@.len() == pre.commitment_sigs@.len() + 1
    &&& forall|i: int|
        0 <= i < pre.commitment_sigs@.len() ==> post.commitment_sigs@[i] == pre.commitment_sigs@[i]
    &&& post.commitment_sigs@.last().bytes@ == m.signature.bytes@
    &&& post.remote_keys == pre.remote_keys
    &&& post.remote_per_commitment_point == pre.remote_per_commitment_point
}

/// The state after the funding transaction reaches its depth: only the
/// stage moves, to locked.
pub open spec fn post_funding_locked(pre: Core, post: Core) -> bool {
    post == Core { stage: Lifecycle::Locked, ..pre }
}

impl Core {
    /// Applies one inbound peer message to the channel state.
    ///
    /// An open proposal is validated against the policy before any state
    /// changes, so a rejected proposal leaves the state untouched; the same
    /// holds for the confirmation of an accept message. The remaining
    /// channel-operation messages (shutdown, fee updates, HTLC bookkeeping,
    /// commitment exchange, reestablishment) are accepted without further
    /// state effect at this layer.
    pub fn update_from_peer(&mut self, message: &Messages) -> (r: Result<(), Error>)
        requires
            old(self).wf(),
            message.wf(),
        ensures
            match r {
                Ok(_) => final(self).wf() && match message {
                    Messages::OpenChannel(m) => old(self).policy.inbound_ok(*m)
                        && post_open_channel(*old(self), *m, *final(self)),
                    Messages::AcceptChannel(m) => old(self).policy.outbound_ok(
                        old(self).local_params,
                        *m,
                    ) && post_accept_channel(*old(self), *m, *final(self)),
                    Messages::FundingCreated(m) => post_funding_created(
                        *old(self),
                        *m,
                        *final(self),
                    ),
                    Messages::FundingSigned(m) => post_funding_signed(*old(self), *m, *final(self)),
                    Messages::FundingLocked(_) => post_funding_locked(*old(self), *final(self)),
                    _ => *final(self) == *old(self),
                },
                Err(e) => *final(self) == *old(self) && match message {
                    Messages::OpenChannel(m) => e matches Error::Policy(v)
                        && !old(self).policy.inbound_ok(*m),
                    Messages::AcceptChannel(m) => e matches Error::Policy(v) && !old(
                        self,
                    ).policy.outbound_ok(old(self).local_params, *m),
                    _ => false,
                },
            },
    {
        match message {
            Messages::OpenChannel(m) => {
                let params = match self.policy.validate_inbound(m) {
                    Ok(p) => p,
                    Err(v) => {
                        return Err(Error::Policy(v));
                    },
                };
                self.stage = Lifecycle::Proposed;
                self.direction = Direction::Inbound;
                self.active_channel_id = ActiveChannelId::Temporary(m.temporary_channel_id.copy());
                self.remote_amount_msat = m.funding_satoshis * 1000 - m.push_msat;
                self.local_amount_msat = m.push_msat;
                self.remote_params = params;
                self.remote_keys.funding_pubkey = m.funding_pubkey.copy();
                self.remote_keys.payment_basepoint = m.payment_point.copy();
                self.remote_keys.revocation_basepoint = m.revocation_basepoint.copy();
                self.remote_keys.delayed_payment_basepoint = m.delayed_payment_basepoint.copy();
                self.remote_keys.htlc_basepoint = m.htlc_basepoint.copy();
                self.remote_keys.first_per_commitment_point = m.first_per_commitment_point.copy();
                self.remote_per_commitment_point = m.first_per_commitment_point.copy();
                Ok(())
            },
            Messages::AcceptChannel(m) => {
                let params = match self.policy.confirm_outbound(self.local_params, m) {
                    Ok(p) => p,
                    Err(v) => {
                        return Err(Error::Policy(v));
                    },
                };
                self.stage = Lifecycle::Accepted;
                self.remote_params = params;
                self.remote_keys.funding_pubkey = m.funding_pubkey.copy();
                self.remote_keys.payment_basepoint = m.payment_point.copy();
                self.remote_keys.revocation_basepoint = m.revocation_basepoint.copy();
                self.remote_keys.delayed_payment_basepoint = m.delayed_payment_basepoint.copy();
                self.remote_keys.htlc_basepoint = m.htlc_basepoint.copy();
                self.remote_keys.first_per_commitment_point = m.first_per_commitment_point.copy();
                self.remote_per_commitment_point = m.first_per_commitment_point.copy();
                Ok(())
            },
            Messages::FundingCreated(m) => {
                self.stage = Lifecycle::Funding;
                self.active_channel_id = ActiveChannelId::with(
                    &m.funding_txid,
                    m.funding_output_index,
                );
                Ok(())
            },
            Messages::FundingSigned(m) => {
                self.stage = Lifecycle::Funded;
                self.active_channel_id = ActiveChannelId::Final(m.channel_id.copy());
                self.commitment_sigs.push(m.signature.copy());
                Ok(())
            },
            Messages::FundingLocked(_) => {
                self.stage = Lifecycle::Locked;
                Ok(())
            },
            _ => Ok(()),
        }
    }
}


/// The position of a stage along the establishment path of the lifecycle
/// graph; the operating and reestablishing stages lie beyond it.
pub open spec fn stage_rank(s: Lifecycle) -> int {
    match s {
        Lifecycle::Initial => 0,
        Lifecycle::Proposed => 1,
        Lifecycle::Accepted => 2,
        Lifecycle::Funding => 3,
        Lifecycle::Funded => 4,
        Lifecycle::Locked => 5,
        Lifecycle::Active => 6,
        Lifecycle::Reestablishing => 7,
    }
}

/// The stage an inbound message drives the channel to, where it drives it
/// anywhere at all.
pub open spec fn spec_target_stage(m: Messages) -> Option<Lifecycle> {
    match m {
        Messages::OpenChannel(_) => Some(Lifecycle::Proposed),
        Messages::AcceptChannel(_) => Some(Lifecycle::Accepted),
        Messages::FundingCreated(_) => Some(Lifecycle::Funding),
        Messages::FundingSigned(_) => Some(Lifecycle::Funded),
        Messages::FundingLocked(_) => Some(Lifecycle::Locked),
        _ => None,
    }
}

/// A message arrives in protocol order when the stage it drives the channel
/// to lies strictly ahead of the current stage on the establishment path.
/// The state machine itself accepts messages in any order — an open proposal
/// resets even a funded channel, as the protocol prescribes — so the
/// lifecycle-graph and one-way-identifier guarantees below hold of runs that
/// keep this order, which every conforming peer does.
pub open spec fn protocol_ordered(pre: Core, m: Messages) -> bool {
    match spec_target_stage(m) {
        Some(t) => stage_rank(pre.stage) < stage_rank(t),
        None => true,
    }
}

/// The channel identifier is coupled to the stage: a final identifier exists
/// only from the funding stage onwards. The initial state establishes this,
/// and protocol-ordered transitions preserve it.
pub open spec fn id_stage_coupled(c: Core) -> bool {
    c.active_channel_id is Final ==> stage_rank(c.stage) >= stage_rank(Lifecycle::Funding)
}

/// Along protocol-ordered runs the lifecycle stage moves only forward along
/// the establishment graph, and the channel identifier moves from temporary
/// to final exactly once and never reverts: every successful transition
/// takes the stage to the message's target, strictly ahead of the old stage,
/// keeps the identifier-stage coupling, and keeps a final identifier final.
pub proof fn lemma_protocol_ordered_transition(pre: Core, m: Messages, post: Core)
    requires
        protocol_ordered(pre, m),
        id_stage_coupled(pre),
        match m {
            Messages::OpenChannel(x) => post_open_channel(pre, x, post),
            Messages::AcceptChannel(x) => post_accept_channel(pre, x, post),
            Messages::FundingCreated(x) => post_funding_created(pre, x, post),
            Messages::FundingSigned(x) => post_funding_signed(pre, x, post),
            Messages::FundingLocked(_) => post_funding_locked(pre, post),
            _ => post == pre,
        },
    ensures
        match spec_target_stage(m) {
            Some(t) => post.stage == t && stage_rank(pre.stage) < stage_rank(post.stage),
            None => post.stage == pre.stage,
        },
        id_stage_coupled(post),
        pre.active_channel_id is Final ==> post.active_channel_id is Final,
{
}

/// The fee this node's own output pays: the refund fee if this node funded
/// the channel, nothing otherwise.
pub open spec fn spec_local_fee(c: Core) -> u64 {
    if c.direction == Direction::Outbount {
        spec_refund_fee(c.common_params.feerate_per_kw)
    } else {
        0
    }
}

/// The fee the counterparty output pays: the refund fee if the counterparty
/// funded the channel, nothing otherwise. The non-initiator never pays.
pub open spec fn spec_remote_fee(c: Core) -> u64 {
    if c.direction == Direction::Outbount {
        0
    } else {
        spec_refund_fee(c.common_params.feerate_per_kw)
    }
}

/// After every successful balance-setting transition the two balances cover
/// the funding amount exactly: the funding, in millisatoshi, splits into the
/// pushed amount and the remainder.
pub proof fn lemma_balances_cover_funding(funding_satoshis: u64, push_msat: u64)
    requires
        funding_satoshis <= (u64::MAX / 1000) as u64,
        push_msat <= funding_satoshis * 1000,
    ensures
        (funding_satoshis * 1000 - push_msat) + push_msat == funding_satoshis * 1000,
{
}

impl Core {
    /// Composes the open proposal for an outbound channel from the local
    /// parameters, recording them and the split of the funding amount.
    ///
    /// Fails with a lifecycle mismatch — leaving the state untouched —
    /// exactly when the channel is in neither its initial nor its
    /// reestablishing stage.
    pub fn compose_open_channel(
        &mut self,
        funding_sat: u64,
        push_msat: u64,
        policy: Policy,
        common_params: CommonParams,
        local_params: PeerParams,
        local_keyset: &LocalKeyset,
    ) -> (r: Result<OpenChannel, Error>)
        requires
            old(self).wf(),
            local_keyset.wf(),
            funding_sat <= (u64::MAX / 1000) as u64,
            push_msat <= funding_sat * 1000,
            (old(self).stage == Lifecycle::Initial || old(self).stage == Lifecycle::Reestablishing)
                ==> old(self).active_channel_id is Temporary,
        ensures
            match r {
                Ok(msg) => {
                    &&& old(self).stage == Lifecycle::Initial || old(self).stage
                        == Lifecycle::Reestablishing
                    &&& final(self).wf()
                    &&& msg.wf()
                    &&& msg.chain_hash.bytes@ == old(self).chain_hash.bytes@
                    &&& old(self).active_channel_id matches ActiveChannelId::Temporary(t)
                        && msg.temporary_channel_id.id.bytes@ == t.id.bytes@
                    &&& msg.funding_satoshis == funding_sat
                    &&& msg.push_msat == push_msat
                    &&& msg.dust_limit_satoshis == local_params.dust_limit_satoshis
                    &&& msg.max_htlc_value_in_flight_msat
                        == local_params.max_htlc_value_in_flight_msat
                    &&& msg.channel_reserve_satoshis == local_params.channel_reserve_satoshis
                    &&& msg.htlc_minimum_msat == local_params.htlc_minimum_msat
                    &&& msg.feerate_per_kw == common_params.feerate_per_kw
                    &&& msg.to_self_delay == local_params.to_self_delay
                    &&& msg.max_accepted_htlcs == local_params.max_accepted_htlcs
                    &&& msg.funding_pubkey.bytes@ == local_keyset.funding_pubkey.key.bytes@
                    &&& msg.revocation_basepoint.bytes@
                        == local_keyset.revocation_basepoint.key.bytes@
                    &&& msg.payment_point.bytes@ == local_keyset.payment_basepoint.key.bytes@
                    &&& msg.delayed_payment_basepoint.bytes@
                        == local_keyset.delayed_payment_basepoint.key.bytes@
                    &&& msg.htlc_basepoint.bytes@ == local_keyset.htlc_basepoint.key.bytes@
                    &&& msg.first_per_commitment_point.bytes@
                        == local_keyset.first_per_commitment_point.key.bytes@
                    &&& msg.channel_flags == (if common_params.announce_channel {
                        1u8
                    } else {
                        0u8
                    })
                    &&& final(self).direction == Direction::Outbount
                    &&& final(self).policy == policy
                    &&& final(self).common_params == common_params
                    &&& final(self).local_params == local_params
                    &&& crate::keyset::same_local_keyset(final(self).local_keys, *local_keyset)
                    &&& final(self).local_amount_msat == funding_sat * 1000 - push_msat
                    &&& final(self).remote_amount_msat == push_msat
                    &&& final(self).stage == old(self).stage
                    &&& final(self).chain_hash == old(self).chain_hash
                    &&& final(self).active_channel_id == old(self).active_channel_id
                    &&& final(self).funding_outpoint == old(self).funding_outpoint
                    &&& final(self).commitment_number == old(self).commitment_number
                    &&& final(self).commitment_sigs == old(self).commitment_sigs
                    &&& final(self).remote_params == old(self).remote_params
                    &&& final(self).remote_keys == old(self).remote_keys
                    &&& final(self).remote_per_commitment_point == old(
                        self,
                    ).remote_per_commitment_point
                    &&& final(self).local_per_commitment_point == old(
                        self,
                    ).local_per_commitment_point
                },
                Err(e) => {
                    &&& old(self).stage != Lifecycle::Initial && old(self).stage
                        != Lifecycle::Reestablishing
                    &&& *final(self) == *old(self)
                    &&& e matches Error::LifecycleMismatch { current, required } && current == old(
                        self,
                    ).stage && required@ == seq![Lifecycle::Initial, Lifecycle::Reestablishing]
                },
            },
    {
        if !(self.stage == Lifecycle::Initial || self.stage == Lifecycle::Reestablishing) {
            let mut required: Vec<Lifecycle> = Vec::new();
            required.push(Lifecycle::Initial);
            required.push(Lifecycle::Reestablishing);
            proof {
                assert(required@ =~= seq![Lifecycle::Initial, Lifecycle::Reestablishing]);
            }
            return Err(Error::LifecycleMismatch { current: self.stage, required });
        }
        let temporary_channel_id = match self.active_channel_id.temp_channel_id() {
            Some(t) => t,
            None => {
                proof {
                    assert(false);
                }
                TempChannelId { id: Slice32 { bytes: Vec::new() } }
            },
        };
        self.direction = Direction::Outbount;
        self.policy = policy;
        self.common_params = common_params;
        self.local_params = local_params;
        self.local_keys = local_keyset.copy();
        self.local_amount_msat = funding_sat * 1000 - push_msat;
        self.remote_amount_msat = push_msat;
        Ok(
            OpenChannel {
                chain_hash: self.chain_hash.copy(),
                temporary_channel_id,
                funding_satoshis: funding_sat,
                push_msat,
                dust_limit_satoshis: local_params.dust_limit_satoshis,
                max_htlc_value_in_flight_msat: local_params.max_htlc_value_in_flight_msat,
                channel_reserve_satoshis: local_params.channel_reserve_satoshis,
                htlc_minimum_msat: local_params.htlc_minimum_msat,
                feerate_per_kw: common_params.feerate_per_kw,
                to_self_delay: local_params.to_self_delay,
                max_accepted_htlcs: local_params.max_accepted_htlcs,
                funding_pubkey: local_keyset.funding_pubkey.key.copy(),
                revocation_basepoint: local_keyset.revocation_basepoint.key.copy(),
                payment_point: local_keyset.payment_basepoint.key.copy(),
                delayed_payment_basepoint: local_keyset.delayed_payment_basepoint.key.copy(),
                htlc_basepoint: local_keyset.htlc_basepoint.key.copy(),
                first_per_commitment_point: local_keyset.first_per_commitment_point.key.copy(),
                channel_flags: if common_params.announce_channel {
                    1
                } else {
                    0
                },
            },
        )
    }

    /// Composes the accept message for an inbound channel from the local
    /// parameters already recorded, without changing any state.
    ///
    /// Fails with a lifecycle mismatch exactly when the channel is in
    /// neither its initial nor its reestablishing stage.
    pub fn compose_accept_channel(&mut self) -> (r: Result<AcceptChannel, Error>)
        requires
            old(self).wf(),
            (old(self).stage == Lifecycle::Initial || old(self).stage == Lifecycle::Reestablishing)
                ==> old(self).active_channel_id is Temporary,
        ensures
            *final(self) == *old(self),
            match r {
                Ok(msg) => {
                    &&& old(self).stage == Lifecycle::Initial || old(self).stage
                        == Lifecycle::Reestablishing
                    &&& msg.wf()
                    &&& old(self).active_channel_id matches ActiveChannelId::Temporary(t)
                        && msg.temporary_channel_id.id.bytes@ == t.id.bytes@
                    &&& msg.dust_limit_satoshis == old(self).local_params.dust_limit_satoshis
                    &&& msg.max_htlc_value_in_flight_msat == old(
                        self,
                    ).local_params.max_htlc_value_in_flight_msat
                    &&& msg.channel_reserve_satoshis == old(
                        self,
                    ).local_params.channel_reserve_satoshis
                    &&& msg.htlc_minimum_msat == old(self).local_params.htlc_minimum_msat
                    &&& msg.minimum_depth == old(self).policy.minimum_depth
                    &&& msg.to_self_delay == old(self).local_params.to_self_delay
                    &&& msg.max_accepted_htlcs == old(self).local_params.max_accepted_htlcs
                    &&& msg.funding_pubkey.bytes@ == old(self).local_keys.funding_pubkey.key.bytes@
                    &&& msg.revocation_basepoint.bytes@ == old(
                        self,
                    ).local_keys.revocation_basepoint.key.bytes@
                    &&& msg.payment_point.bytes@ == old(
                        self,
                    ).local_keys.payment_basepoint.key.bytes@
                    &&& msg.delayed_payment_basepoint.bytes@ == old(
                        self,
                    ).local_keys.delayed_payment_basepoint.key.bytes@
                    &&& msg.htlc_basepoint.bytes@ == old(self).local_keys.htlc_basepoint.key.bytes@
                    &&& msg.first_per_commitment_point.bytes@ == old(
                        self,
                    ).local_keys.first_per_commitment_point.key.bytes@
                },
                Err(e) => {
                    &&& old(self).stage != Lifecycle::Initial && old(self).stage
                        != Lifecycle::Reestablishing
                    &&& e matches Error::LifecycleMismatch { current, required } && current == old(
                        self,
                    ).stage && required@ == seq![Lifecycle::Initial, Lifecycle::Reestablishing]
                },
            },
    {
        if !(self.stage == Lifecycle::Initial || self.stage == Lifecycle::Reestablishing) {
            let mut required: Vec<Lifecycle> = Vec::new();
            required.push(Lifecycle::Initial);
            required.push(Lifecycle::Reestablishing);
            proof {
                assert(required@ =~= seq![Lifecycle::Initial, Lifecycle::Reestablishing]);
            }
            return Err(Error::LifecycleMismatch { current: self.stage, required });
        }
        let temporary_channel_id = match self.active_channel_id.temp_channel_id() {
            Some(t) => t,
            None => {
                proof {
                    assert(false);
                }
                TempChannelId { id: Slice32 { bytes: Vec::new() } }
            },
        };
        Ok(
            AcceptChannel {
                temporary_channel_id,
                dust_limit_satoshis: self.local_params.dust_limit_satoshis,
                max_htlc_value_in_flight_msat: self.local_params.max_htlc_value_in_flight_msat,
                channel_reserve_satoshis: self.local_params.channel_reserve_satoshis,
                htlc_minimum_msat: self.local_params.htlc_minimum_msat,
                minimum_depth: self.policy.minimum_depth,
                to_self_delay: self.local_params.to_self_delay,
                max_accepted_htlcs: self.local_params.max_accepted_htlcs,
                funding_pubkey: self.local_keys.funding_pubkey.key.copy(),
                revocation_basepoint: self.local_keys.revocation_basepoint.key.copy(),
                payment_point: self.local_keys.payment_basepoint.key.copy(),
                delayed_payment_basepoint: self.local_keys.delayed_payment_basepoint.key.copy(),
                htlc_basepoint: self.local_keys.htlc_basepoint.key.copy(),
                first_per_commitment_point: self.local_keys.first_per_commitment_point.key.copy(),
            },
        )
    }

    /// Renders the channel state into the counterparty's commitment
    /// transaction template: version 2, the obscured commitment number
    /// packed into locktime and sequence, and at most two outputs in fixed
    /// order — the counterparty `to_local` output (only if the remote
    /// balance is nonzero), then this node's `to_remote` output (only if
    /// the local balance is nonzero). The refund fee is deducted only from
    /// the funding initiator's side. Sub-dust nonzero amounts are not
    /// filtered.
    pub fn apply(&self, tx_graph: &mut TxGraph) -> (r: Result<(), Error>)
        requires
            self.wf(),
            self.remote_amount_msat > 0 ==> self.remote_amount_msat / 1000 >= spec_remote_fee(
                *self,
            ),
            self.local_amount_msat > 0 ==> self.local_amount_msat / 1000 >= spec_local_fee(*self),
        ensures
            r is Ok <==> spec_revocation_derivable(
                self.remote_keys.revocation_basepoint.bytes@,
                self.remote_per_commitment_point.bytes@,
            ),
            match r {
                Ok(_) => ({
                    let obscured = spec_obscured_commitment_number(
                        self.commitment_number,
                        spec_obscuring_factor(
                            self.direction,
                            self.local_keys.payment_basepoint.key.bytes@,
                            self.remote_keys.payment_basepoint.bytes@,
                        ),
                    );
                    let revocation = spec_revocation_pubkey(
                        self.remote_keys.revocation_basepoint.bytes@,
                        self.remote_per_commitment_point.bytes@,
                    );
                    let to_local = crate::script::to_local_script(
                        revocation,
                        self.remote_keys.delayed_payment_basepoint.bytes@,
                        self.remote_params.to_self_delay,
                    );
                    let n_outs: int = (if self.remote_amount_msat > 0 {
                        1int
                    } else {
                        0int
                    }) + (if self.local_amount_msat > 0 {
                        1int
                    } else {
                        0int
                    });
                    let remote_index: int = if self.remote_amount_msat > 0 {
                        1int
                    } else {
                        0int
                    };
                    &&& final(tx_graph).cmt_version == 2
                    &&& final(tx_graph).cmt_locktime == spec_locktime(obscured)
                    &&& final(tx_graph).cmt_sequence == spec_sequence(obscured)
                    &&& final(tx_graph).cmt_outs@.len() == n_outs
                    &&& self.remote_amount_msat > 0 ==> {
                        &&& final(tx_graph).cmt_outs@[0].value == self.remote_amount_msat / 1000
                            - spec_remote_fee(*self)
                        &&& final(tx_graph).cmt_outs@[0].script_pubkey.script.bytes@
                            == crate::script::p2wsh(to_local)
                        &&& final(tx_graph).cmt_outs@[0].witness_script matches Some(w)
                            && w.script.bytes@ == to_local
                    }
                    &&& self.local_amount_msat > 0 ==> {
                        &&& final(tx_graph).cmt_outs@[remote_index].value == self.local_amount_msat
                            / 1000 - spec_local_fee(*self)
                        &&& final(tx_graph).cmt_outs@[remote_index].script_pubkey.script.bytes@
                            == crate::script::p2wpkh(self.local_keys.payment_basepoint.key.bytes@)
                        &&& final(tx_graph).cmt_outs@[remote_index].witness_script is None
                    }
                }),
                Err(e) => e == Error::KeyDerivation && *final(tx_graph) == *old(tx_graph),
            },
    {
        let obscured_commitment = self.obscured_commitment_number();
        let low = (obscured_commitment & 0xFFFFFF) as u32;
        let lock_time = 0x20000000u32 | low;
        let sequence = 0x80000000u32 | low;

        let revocationpubkey = match self.revocationpubkey() {
            Ok(k) => k,
            Err(e) => {
                return Err(e);
            },
        };

        let fee = self.refund_fee();
        let (local_fee, remote_fee) = if self.direction == Direction::Outbount {
            (fee, 0u64)
        } else {
            (0u64, fee)
        };

        let mut outs: Vec<TxOutput> = Vec::new();
        if self.remote_amount_msat > 0 {
            outs.push(
                crate::script::ln_to_local(
                    self.remote_amount_msat / 1000 - remote_fee,
                    &revocationpubkey,
                    &self.remote_keys.delayed_payment_basepoint,
                    self.remote_params.to_self_delay,
                ),
            );
        }
        if self.local_amount_msat > 0 {
            outs.push(
                crate::script::ln_to_remote_v1(
                    self.local_amount_msat / 1000 - local_fee,
                    &self.local_keys.payment_basepoint.key,
                ),
            );
        }
        tx_graph.cmt_version = 2;
        tx_graph.cmt_locktime = lock_time;
        tx_graph.cmt_sequence = sequence;
        tx_graph.cmt_outs = outs;
        Ok(())
    }

    /// Locates the funding output of a transaction under construction and
    /// produces the witness script it must commit to: the sorted 2-of-2
    /// multisignature over the two funding keys. The caller supplies the
    /// index of the funding output, if one exists, and writes the script
    /// into its transaction; wallet metadata such as key-derivation maps
    /// belongs to that caller's layer and is deliberately not produced here.
    pub fn enrich_funding(&self, channel_funding_vout: Option<usize>) -> (r: Result<
        (usize, WitnessScript),
        Error,
    >)
        requires
            self.wf(),
        ensures
            match r {
                Ok((vout, w)) => channel_funding_vout == Some(vout) && w.script.wf()
                    && w.script.bytes@ == crate::script::funding_script(
                    self.local_keys.funding_pubkey.key.bytes@,
                    self.remote_keys.funding_pubkey.bytes@,
                ),
                Err(e) => e == Error::NoFundingOutput && channel_funding_vout is None,
            },
    {
        match channel_funding_vout {
            Some(vout) => {
                let witness = crate::script::funding_witness_script(
                    &self.local_keys.funding_pubkey,
                    &self.remote_keys.funding_pubkey,
                );
                Ok((vout, witness))
            },
            None => Err(Error::NoFundingOutput),
        }
    }
}


/// A payment channel: the verified core together with the funding amount
/// and the closed set of protocol extensions (anchor outputs being the one
/// extension this layer knows).
#[derive(Clone, Debug, PartialEq, Eq)]
pub struct Channel {
    /// The channel core: lifecycle, balances, keys.
    pub core: Core,
    /// The funding amount, in satoshi.
    pub funding_amount_sat: u64,
    /// Whether the anchor-outputs extension is active.
    pub anchor_outputs: bool,
}

impl Channel {
    /// The wrapped core is well formed.
    pub open spec fn wf(&self) -> bool {
        self.core.wf()
    }

    /// Constructs a new channel which will check the negotiation against
    /// the provided policy and use the given parameters for composing the
    /// open or accept message sent to the remote node. The channel type
    /// chosen in the common parameters switches the static-remote-key flag
    /// and the anchor-outputs extension on.
    pub fn with(
        temp_channel_id: TempChannelId,
        chain_hash: Slice32,
        policy: Policy,
        common_params: CommonParams,
        local_params: PeerParams,
        local_keys: LocalKeyset,
    ) -> (r: Channel)
        requires
            temp_channel_id.wf(),
            chain_hash.wf(),
            local_keys.wf(),
        ensures
            r.wf(),
            r.core.stage == Lifecycle::Initial,
            r.core.direction == Direction::Outbount,
            r.core.active_channel_id == ActiveChannelId::Temporary(temp_channel_id),
            r.core.chain_hash == chain_hash,
            r.core.policy == policy,
            r.core.common_params == common_params,
            r.core.local_params == local_params,
            (r.core.local_keys == LocalKeyset {
                static_remotekey: local_keys.static_remotekey || common_params.channel_type
                    != crate::policy::ChannelType::Basic,
                ..local_keys
            }),
            r.anchor_outputs == (common_params.channel_type
                == crate::policy::ChannelType::AnchorOutputs),
            r.funding_amount_sat == 0,
            r.core.local_amount_msat == 0 && r.core.remote_amount_msat == 0,
            r.core.commitment_number == 0 && r.core.commitment_sigs@.len() == 0,
    {
        let mut local_keys = local_keys;
        if common_params.channel_type.has_static_remotekey() {
            local_keys.static_remotekey = true;
        }
        let anchor_outputs = common_params.channel_type.has_anchor_outputs();
        let mut core = Core::new(temp_channel_id);
        core.set_chain_hash(chain_hash);
        core.set_policy(policy);
        core.set_common_params(common_params);
        core.set_local_params(local_params);
        core.set_local_keys(local_keys);
        Channel { core, funding_amount_sat: 0, anchor_outputs }
    }

    /// Sets the channel policy, enabling new open or accept requests to be
    /// checked against changed bounds.
    pub fn set_policy(&mut self, policy: Policy)
        ensures
            (*final(self) == Channel {
                core: Core { policy, ..old(self).core },
                ..*old(self)
            }),
    {
        self.core.set_policy(policy);
    }

    /// Sets the common channel parameters.
    pub fn set_common_params(&mut self, params: CommonParams)
        ensures
            (*final(self) == Channel {
                core: Core { common_params: params, ..old(self).core },
                ..*old(self)
            }),
    {
        self.core.set_common_params(params);
    }

    /// Sets the local channel parameters.
    pub fn set_local_params(&mut self, params: PeerParams)
        ensures
            (*final(self) == Channel {
                core: Core { local_params: params, ..old(self).core },
                ..*old(self)
            }),
    {
        self.core.set_local_params(params);
    }

    /// Returns the active channel identifier, covering both the temporary
    /// and the final form.
    pub fn active_channel_id(&self) -> (r: ActiveChannelId)
        ensures
            match r {
                ActiveChannelId::Temporary(t) => self.core.active_channel_id matches
                    ActiveChannelId::Temporary(x) && t.id.bytes@ == x.id.bytes@,
                ActiveChannelId::Final(c) => self.core.active_channel_id matches
                    ActiveChannelId::Final(x) && c.id.bytes@ == x.id.bytes@,
            },
    {
        match &self.core.active_channel_id {
            ActiveChannelId::Temporary(t) => ActiveChannelId::Temporary(t.copy()),
            ActiveChannelId::Final(c) => ActiveChannelId::Final(c.copy()),
        }
    }

    /// Returns the final channel identifier, if one is already assigned.
    pub fn channel_id(&self) -> (r: Option<ChannelId>)
        ensures
            match r {
                Some(c) => self.core.active_channel_id matches ActiveChannelId::Final(f)
                    && c.id.bytes@ == f.id.bytes@,
                None => self.core.active_channel_id is Temporary,
            },
    {
        self.core.channel_id()
    }

    /// Returns the temporary channel identifier, before a final one is
    /// assigned.
    pub fn temp_channel_id(&self) -> (r: Option<TempChannelId>)
        ensures
            match r {
                Some(t) => self.core.active_channel_id matches ActiveChannelId::Temporary(x)
                    && t.id.bytes@ == x.id.bytes@,
                None => self.core.active_channel_id is Final,
            },
    {
        self.core.temp_channel_id()
    }

    /// Composes the open proposal for this channel and records the funding
    /// amount. Fails with a lifecycle mismatch — leaving the channel
    /// untouched — exactly when the core is in neither its initial nor its
    /// reestablishing stage.
    pub fn compose_open_channel(
        &mut self,
        funding_sat: u64,
        push_msat: u64,
        policy: Policy,
        common_params: CommonParams,
        local_params: PeerParams,
        local_keys: &LocalKeyset,
    ) -> (r: Result<OpenChannel, Error>)
        requires
            old(self).wf(),
            local_keys.wf(),
            funding_sat <= (u64::MAX / 1000) as u64,
            push_msat <= funding_sat * 1000,
            (old(self).core.stage == Lifecycle::Initial || old(self).core.stage
                == Lifecycle::Reestablishing) ==> old(self).core.active_channel_id is Temporary,
        ensures
            match r {
                Ok(msg) => {
                    &&& old(self).core.stage == Lifecycle::Initial || old(self).core.stage
                        == Lifecycle::Reestablishing
                    &&& final(self).wf()
                    &&& msg.wf()
                    &&& msg.funding_satoshis == funding_sat
                    &&& msg.push_msat == push_msat
                    &&& final(self).funding_amount_sat == funding_sat
                    &&& final(self).core.local_amount_msat == funding_sat * 1000 - push_msat
                    &&& final(self).core.remote_amount_msat == push_msat
                    &&& final(self).core.direction == Direction::Outbount
                    &&& final(self).anchor_outputs == old(self).anchor_outputs
                },
                Err(e) => {
                    &&& old(self).core.stage != Lifecycle::Initial && old(self).core.stage
                        != Lifecycle::Reestablishing
                    &&& *final(self) == *old(self)
                    &&& e matches Error::LifecycleMismatch { current, required } && current == old(
                        self,
                    ).core.stage && required@ == seq![Lifecycle::Initial, Lifecycle::Reestablishing]
                },
            },
    {
        match self.core.compose_open_channel(
            funding_sat,
            push_msat,
            policy,
            common_params,
            local_params,
            local_keys,
        ) {
            Ok(msg) => {
                self.funding_amount_sat = funding_sat;
                Ok(msg)
            },
            Err(e) => Err(e),
        }
    }

    /// Composes the accept message for this channel from the recorded local
    /// parameters, without changing any state. Fails with a lifecycle
    /// mismatch exactly when the core is in neither its initial nor its
    /// reestablishing stage.
    pub fn compose_accept_channel(&mut self) -> (r: Result<AcceptChannel, Error>)
        requires
            old(self).wf(),
            (old(self).core.stage == Lifecycle::Initial || old(self).core.stage
                == Lifecycle::Reestablishing) ==> old(self).core.active_channel_id is Temporary,
        ensures
            *final(self) == *old(self),
            match r {
                Ok(msg) => msg.wf() && (old(self).core.stage == Lifecycle::Initial || old(
                    self,
                ).core.stage == Lifecycle::Reestablishing),
                Err(e) => {
                    &&& old(self).core.stage != Lifecycle::Initial && old(self).core.stage
                        != Lifecycle::Reestablishing
                    &&& e matches Error::LifecycleMismatch { current, required } && current == old(
                        self,
                    ).core.stage && required@ == seq![Lifecycle::Initial, Lifecycle::Reestablishing]
                },
            },
    {
        self.core.compose_accept_channel()
    }

    /// Identifies the standard bitcoin network the channel resides in, by
    /// its genesis hash; a chain hash matching no standard network yields
    /// nothing.
    pub fn network(&self) -> (r: Option<Network>)
        ensures
            match r {
                Some(n) => self.core.chain_hash.bytes@ == crypto::genesis_hash_of(n.spec_tag()),
                None => forall|t: int|
                    0 <= t < 4 ==> self.core.chain_hash.bytes@ != crypto::genesis_hash_of(t),
            },
    {
        let mut tag: u8 = 0;
        while tag < 4
            invariant
                tag <= 4,
                forall|t: int| 0 <= t < tag ==> self.core.chain_hash.bytes@ != crypto::genesis_hash_of(t),
            decreases 4 - tag,
        {
            let genesis = crypto::genesis_hash(tag);
            if codec::bytes_eq(self.core.chain_hash.bytes.as_slice(), genesis.as_slice()) {
                return Some(Network::from_tag(tag));
            }
            tag = tag + 1;
        }
        None
    }

    /// Returns this node's funding key.
    pub fn funding_pubkey(&self) -> (r: PublicKey)
        ensures
            r.bytes@ == self.core.local_keys.funding_pubkey.key.bytes@,
    {
        self.core.local_keys.funding_pubkey.key.copy()
    }

    /// Returns the funding output's locking script: the witness program
    /// committing to the sorted 2-of-2 multisignature over both funding
    /// keys.
    pub fn funding_script_pubkey(&self) -> (r: PubkeyScript)
        requires
            self.wf(),
        ensures
            r.script.wf(),
            r.script.bytes@ == crate::script::p2wsh(
                crate::script::funding_script(
                    self.core.local_keys.funding_pubkey.key.bytes@,
                    self.core.remote_keys.funding_pubkey.bytes@,
                ),
            ),
    {
        crate::script::funding_pubkey_script(
            &self.core.local_keys.funding_pubkey,
            &self.core.remote_keys.funding_pubkey,
        )
    }

    /// Returns the channel's commitment fee rate.
    pub fn feerate_per_kw(&self) -> (r: u32)
        ensures
            r == self.core.common_params.feerate_per_kw,
    {
        self.core.common_params.feerate_per_kw
    }

    /// Returns this node's balance, in millisatoshi.
    pub fn local_amount_msat(&self) -> (r: u64)
        ensures
            r == self.core.local_amount_msat,
    {
        self.core.local_amount_msat
    }

    /// Returns the remote node's balance, in millisatoshi.
    pub fn remote_amount_msat(&self) -> (r: u64)
        ensures
            r == self.core.remote_amount_msat,
    {
        self.core.remote_amount_msat
    }
}

} // verus!
