//! Negotiation bounds and their validation.
//!
//! A [`Policy`] holds the bounds this node imposes on what a peer may
//! propose. Remote values are never trusted directly: an inbound proposal is
//! validated against the policy and only then turned into the negotiated
//! [`PeerParams`]; an accept message is confirmed the same way. Validation
//! also enforces the arithmetic sanity of the proposal — the funding amount
//! must be expressible in millisatoshi and must cover the pushed amount — so
//! that the state machine's balance bookkeeping can never overflow.

use vstd::prelude::*;
use crate::message::AcceptChannel;
use crate::message::OpenChannel;

verus! {

/// The largest funding amount whose millisatoshi value fits 64 bits.
pub open spec fn spec_max_funding_satoshis() -> u64 {
    (u64::MAX / 1000) as u64
}

/// The channel feature level negotiated at opening.
#[derive(Clone, Copy, Debug, PartialEq, Eq, Structural)]
pub enum ChannelType {
    /// The original commitment format.
    Basic,
    /// The remote balance pays to a static key.
    StaticRemotekey,
    /// Anchor outputs for fee bumping, implying a static remote key.
    AnchorOutputs,
}

impl ChannelType {
    /// Whether the remote balance pays to a static key.
    pub fn has_static_remotekey(self) -> (r: bool)
        ensures
            r == (self != ChannelType::Basic),
    {
        match self {
            ChannelType::Basic => false,
            ChannelType::StaticRemotekey => true,
            ChannelType::AnchorOutputs => true,
        }
    }

    /// Whether the channel carries anchor outputs.
    pub fn has_anchor_outputs(self) -> (r: bool)
        ensures
            r == (self == ChannelType::AnchorOutputs),
    {
        match self {
            ChannelType::AnchorOutputs => true,
            _ => false,
        }
    }

    /// The explicit channel-type marker: absent for the original format.
    pub fn into_option(self) -> (r: Option<ChannelType>)
        ensures
            match r {
                Some(t) => t == self && self != ChannelType::Basic,
                None => self == ChannelType::Basic,
            },
    {
        match self {
            ChannelType::Basic => None,
            other => Some(other),
        }
    }
}

impl ChannelType {
    /// The default feature level.
    pub open spec fn spec_default() -> ChannelType {
        ChannelType::Basic
    }
}

impl Default for ChannelType {
    /// The original commitment format.
    fn default() -> (r: Self)
        ensures
            r == ChannelType::Basic,
    {
        ChannelType::Basic
    }
}

/// Parameters common to both channel parties.
#[derive(Clone, Copy, Debug, PartialEq, Eq, Structural)]
pub struct CommonParams {
    /// The fee rate per 1000 weight units for commitment transactions.
    pub feerate_per_kw: u32,
    /// Whether the channel should be announced to the gossip network.
    pub announce_channel: bool,
    /// The channel feature level.
    pub channel_type: ChannelType,
}

impl CommonParams {
    /// The default common parameters.
    pub open spec fn spec_default() -> CommonParams {
        CommonParams { feerate_per_kw: 253, announce_channel: true, channel_type: ChannelType::Basic }
    }
}

impl Default for CommonParams {
    /// A fee rate of 253 per kiloweight, an announced channel, the original
    /// commitment format.
    fn default() -> (r: Self)
        ensures
            r == CommonParams::spec_default(),
    {
        CommonParams {
            feerate_per_kw: 253,
            announce_channel: true,
            channel_type: ChannelType::Basic,
        }
    }
}

/// The channel parameters one party requires the other to observe.
#[derive(Clone, Copy, Debug, PartialEq, Eq, Structural)]
pub struct PeerParams {
    /// Outputs below this amount are omitted from commitment transactions.
    pub dust_limit_satoshis: u64,
    /// The largest total of in-flight HTLCs, in millisatoshi.
    pub max_htlc_value_in_flight_msat: u64,
    /// The balance the other party must keep unencumbered.
    pub channel_reserve_satoshis: u64,
    /// The smallest HTLC accepted, in millisatoshi.
    pub htlc_minimum_msat: u64,
    /// Blocks the other party must wait to claim its delayed balance.
    pub to_self_delay: u16,
    /// The largest number of in-flight HTLCs accepted.
    pub max_accepted_htlcs: u16,
}

impl PeerParams {
    /// The default peer parameters.
    pub open spec fn spec_default() -> PeerParams {
        PeerParams {
            dust_limit_satoshis: 546,
            max_htlc_value_in_flight_msat: u64::MAX,
            channel_reserve_satoshis: 0,
            htlc_minimum_msat: 0,
            to_self_delay: 144,
            max_accepted_htlcs: 483,
        }
    }
}

impl Default for PeerParams {
    /// The customary dust limit of 546 satoshi, a one-day delay, and the
    /// protocol maximum of 483 in-flight HTLCs.
    fn default() -> (r: Self)
        ensures
            r == PeerParams::spec_default(),
    {
        PeerParams {
            dust_limit_satoshis: 546,
            max_htlc_value_in_flight_msat: u64::MAX,
            channel_reserve_satoshis: 0,
            htlc_minimum_msat: 0,
            to_self_delay: 144,
            max_accepted_htlcs: 483,
        }
    }
}

/// The ways a peer's proposal can fall outside the configured bounds.
#[derive(Clone, Copy, Debug, PartialEq, Eq, Structural)]
pub enum PolicyViolation {
    /// The funding amount cannot be expressed in millisatoshi.
    FundingTooLarge,
    /// The funding amount falls below the configured minimum.
    FundingTooSmall,
    /// The pushed amount exceeds the funding amount.
    PushExceedsFunding,
    /// The proposed dust limit exceeds the configured maximum.
    DustLimitTooLarge,
    /// The proposed delay exceeds the configured maximum.
    ToSelfDelayTooLarge,
    /// The proposed reserve falls below the proposed dust limit.
    ChannelReserveBelowDust,
}

/// The bounds this node imposes on remote proposals.
#[derive(Clone, Copy, Debug, PartialEq, Eq, Structural)]
pub struct Policy {
    /// Confirmations required of the funding transaction.
    pub minimum_depth: u32,
    /// The smallest funding amount accepted.
    pub min_funding_satoshis: u64,
    /// The largest dust limit accepted from a peer.
    pub max_dust_limit_satoshis: u64,
    /// The largest delay accepted on this node's delayed balance.
    pub max_to_self_delay: u16,
}

impl Policy {
    /// The default policy bounds.
    pub open spec fn spec_default() -> Policy {
        Policy {
            minimum_depth: 3,
            min_funding_satoshis: 1000,
            max_dust_limit_satoshis: 1000,
            max_to_self_delay: 2016,
        }
    }
}

impl Default for Policy {
    /// Three confirmations, any funding above 1000 satoshi, a dust limit of
    /// at most 1000 satoshi, and at most two weeks of delay.
    fn default() -> (r: Self)
        ensures
            r == Policy::spec_default(),
    {
        Policy {
            minimum_depth: 3,
            min_funding_satoshis: 1000,
            max_dust_limit_satoshis: 1000,
            max_to_self_delay: 2016,
        }
    }
}

impl Policy {
    /// Whether an inbound proposal lies within every configured bound.
    pub open spec fn inbound_ok(&self, msg: OpenChannel) -> bool {
        &&& msg.funding_satoshis <= spec_max_funding_satoshis()
        &&& msg.funding_satoshis >= self.min_funding_satoshis
        &&& msg.push_msat <= msg.funding_satoshis * 1000
        &&& msg.dust_limit_satoshis <= self.max_dust_limit_satoshis
        &&& msg.to_self_delay <= self.max_to_self_delay
    }

    /// The negotiated parameters carried by an inbound proposal.
    pub open spec fn params_of_open(msg: OpenChannel) -> PeerParams {
        PeerParams {
            dust_limit_satoshis: msg.dust_limit_satoshis,
            max_htlc_value_in_flight_msat: msg.max_htlc_value_in_flight_msat,
            channel_reserve_satoshis: msg.channel_reserve_satoshis,
            htlc_minimum_msat: msg.htlc_minimum_msat,
            to_self_delay: msg.to_self_delay,
            max_accepted_htlcs: msg.max_accepted_htlcs,
        }
    }

    /// Validates an inbound proposal, producing the negotiated remote
    /// parameters exactly when every bound holds, and naming the first
    /// violated bound otherwise.
    pub fn validate_inbound(&self, msg: &OpenChannel) -> (r: Result<PeerParams, PolicyViolation>)
        ensures
            match r {
                Ok(p) => self.inbound_ok(*msg) && p == Policy::params_of_open(*msg),
                Err(e) => !self.inbound_ok(*msg) && match e {
                    PolicyViolation::FundingTooLarge => msg.funding_satoshis
                        > spec_max_funding_satoshis(),
                    PolicyViolation::FundingTooSmall => msg.funding_satoshis
                        < self.min_funding_satoshis,
                    PolicyViolation::PushExceedsFunding => msg.push_msat > msg.funding_satoshis
                        * 1000,
                    PolicyViolation::DustLimitTooLarge => msg.dust_limit_satoshis
                        > self.max_dust_limit_satoshis,
                    PolicyViolation::ToSelfDelayTooLarge => msg.to_self_delay
                        > self.max_to_self_delay,
                    _ => false,
                },
            },
    {
        if msg.funding_satoshis > u64::MAX / 1000 {
            return Err(PolicyViolation::FundingTooLarge);
        }
        if msg.funding_satoshis < self.min_funding_satoshis {
            return Err(PolicyViolation::FundingTooSmall);
        }
        if msg.push_msat > msg.funding_satoshis * 1000 {
            return Err(PolicyViolation::PushExceedsFunding);
        }
        if msg.dust_limit_satoshis > self.max_dust_limit_satoshis {
            return Err(PolicyViolation::DustLimitTooLarge);
        }
        if msg.to_self_delay > self.max_to_self_delay {
            return Err(PolicyViolation::ToSelfDelayTooLarge);
        }
        Ok(PeerParams {
            dust_limit_satoshis: msg.dust_limit_satoshis,
            max_htlc_value_in_flight_msat: msg.max_htlc_value_in_flight_msat,
            channel_reserve_satoshis: msg.channel_reserve_satoshis,
            htlc_minimum_msat: msg.htlc_minimum_msat,
            to_self_delay: msg.to_self_delay,
            max_accepted_htlcs: msg.max_accepted_htlcs,
        })
    }

    /// Whether an accept message lies within every configured bound, given
    /// the local parameters the proposal carried.
    pub open spec fn outbound_ok(&self, local: PeerParams, msg: AcceptChannel) -> bool {
        &&& msg.dust_limit_satoshis <= self.max_dust_limit_satoshis
        &&& msg.to_self_delay <= self.max_to_self_delay
        &&& msg.channel_reserve_satoshis >= local.dust_limit_satoshis
    }

    /// The negotiated parameters carried by an accept message.
    pub open spec fn params_of_accept(msg: AcceptChannel) -> PeerParams {
        PeerParams {
            dust_limit_satoshis: msg.dust_limit_satoshis,
            max_htlc_value_in_flight_msat: msg.max_htlc_value_in_flight_msat,
            channel_reserve_satoshis: msg.channel_reserve_satoshis,
            htlc_minimum_msat: msg.htlc_minimum_msat,
            to_self_delay: msg.to_self_delay,
            max_accepted_htlcs: msg.max_accepted_htlcs,
        }
    }

    /// Confirms the peer's answer to this node's proposal, producing the
    /// negotiated remote parameters exactly when every bound holds, and
    /// naming the first violated bound otherwise.
    pub fn confirm_outbound(&self, local: PeerParams, msg: &AcceptChannel) -> (r: Result<
        PeerParams,
        PolicyViolation,
    >)
        ensures
            match r {
                Ok(p) => self.outbound_ok(local, *msg) && p == Policy::params_of_accept(*msg),
                Err(e) => !self.outbound_ok(local, *msg) && match e {
                    PolicyViolation::DustLimitTooLarge => msg.dust_limit_satoshis
                        > self.max_dust_limit_satoshis,
                    PolicyViolation::ToSelfDelayTooLarge => msg.to_self_delay
                        > self.max_to_self_delay,
                    PolicyViolation::ChannelReserveBelowDust => msg.channel_reserve_satoshis
                        < local.dust_limit_satoshis,
                    _ => false,
                },
            },
    {
        if msg.dust_limit_satoshis > self.max_dust_limit_satoshis {
            return Err(PolicyViolation::DustLimitTooLarge);
        }
        if msg.to_self_delay > self.max_to_self_delay {
            return Err(PolicyViolation::ToSelfDelayTooLarge);
        }
        if msg.channel_reserve_satoshis < local.dust_limit_satoshis {
            return Err(PolicyViolation::ChannelReserveBelowDust);
        }
        Ok(PeerParams {
            dust_limit_satoshis: msg.dust_limit_satoshis,
            max_htlc_value_in_flight_msat: msg.max_htlc_value_in_flight_msat,
            channel_reserve_satoshis: msg.channel_reserve_satoshis,
            htlc_minimum_msat: msg.htlc_minimum_msat,
            to_self_delay: msg.to_self_delay,
            max_accepted_htlcs: msg.max_accepted_htlcs,
        })
    }
}

} // verus!
