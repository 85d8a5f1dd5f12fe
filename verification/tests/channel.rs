use lnp_core::bitcoin::ActiveChannelId;
use lnp_core::bitcoin::ChannelId;
use lnp_core::bitcoin::LockScript;
use lnp_core::bitcoin::TempChannelId;
use lnp_core::channel::compute_obscuring_factor;
use lnp_core::channel::Channel;
use lnp_core::channel::Core;
use lnp_core::channel::Direction;
use lnp_core::channel::Error;
use lnp_core::channel::Lifecycle;
use lnp_core::channel::Network;
use lnp_core::channel::TxGraph;
use lnp_core::keyset::LocalKeyset;
use lnp_core::keyset::LocalPubkey;
use lnp_core::keyset::RemoteKeyset;
use lnp_core::message::Messages;
use lnp_core::message::FundingCreated;
use lnp_core::message::OpenChannel;
use lnp_core::policy::CommonParams;
use lnp_core::policy::PeerParams;
use lnp_core::policy::Policy;
use lnp_core::policy::PolicyViolation;
use lnp_core::primitives::PublicKey;
use lnp_core::primitives::Signature;
use lnp_core::primitives::Slice32;
use lnp_core::script::ScriptGenerators;

fn hex_to_bytes(s: &str) -> Vec<u8> {
    let chars: Vec<u8> = s.bytes().collect();
    let mut out = Vec::new();
    let mut i = 0;
    while i + 1 < chars.len() {
        let hi = (chars[i] as char).to_digit(16).unwrap() as u8;
        let lo = (chars[i + 1] as char).to_digit(16).unwrap() as u8;
        out.push(hi * 16 + lo);
        i += 2;
    }
    out
}

const GENERATOR: &str = "0279be667ef9dcbbac55a06295ce870b07029bfcdb2dce28d959f2815b16f81798";
const GENERATOR_2: &str = "02c6047f9441ed7d6d3045406e95c07cd85c778e4b8cef3ca7abac09b95c709ee5";
const GENERATOR_3: &str = "02f9308a019258c31049344f85f89d5229b531c845836f99b08601f113bce036f9";

fn key(hex: &str) -> PublicKey {
    PublicKey::from_vec(hex_to_bytes(hex)).unwrap()
}

fn local_keyset_g() -> LocalKeyset {
    LocalKeyset {
        funding_pubkey: LocalPubkey { key: key(GENERATOR) },
        revocation_basepoint: LocalPubkey { key: key(GENERATOR) },
        payment_basepoint: LocalPubkey { key: key(GENERATOR) },
        delayed_payment_basepoint: LocalPubkey { key: key(GENERATOR) },
        htlc_basepoint: LocalPubkey { key: key(GENERATOR) },
        first_per_commitment_point: LocalPubkey { key: key(GENERATOR) },
        shutdown_scriptpubkey: None,
        static_remotekey: false,
    }
}

fn temp_id(byte: u8) -> TempChannelId {
    TempChannelId { id: Slice32::from_vec(vec![byte; 32]).unwrap() }
}

#[test]
fn obscuring_factor_matches_reference_digest() {
    // SHA256 over the two basepoints, last eight bytes read big-endian and
    // masked to the low 48 bits.
    let local = key(GENERATOR);
    let remote = key(GENERATOR_2);
    let outbound = compute_obscuring_factor(Direction::Outbount, &local, &remote);
    assert_eq!(outbound, 12708428188476400047 & 0xFFFF_FFFF_FFFF);
    assert_eq!(outbound, 114464966992303);
    let inbound = compute_obscuring_factor(Direction::Inbound, &local, &remote);
    assert_eq!(inbound, 4208670870818372634 & 0xFFFF_FFFF_FFFF);
    assert_eq!(inbound, 57019040644122);
}

#[test]
fn obscured_commitment_number_is_reconstructible() {
    // The counterparty recomputes the factor with swapped basepoints and
    // the opposite direction; the exclusive or then recovers the counter.
    let local = key(GENERATOR);
    let remote = key(GENERATOR_2);
    let mask: u64 = 0xFFFF_FFFF_FFFF;
    let counter: u64 = 0x0000_1234_5678_9ABC;

    let factor = compute_obscuring_factor(Direction::Outbount, &local, &remote);
    let obscured = (counter & mask) ^ (factor & mask);

    let their_factor = compute_obscuring_factor(Direction::Inbound, &remote, &local);
    assert_eq!(their_factor, factor);
    assert_eq!(obscured ^ (their_factor & mask), counter & mask);
}

#[test]
fn revocationpubkey_matches_reference_derivation() {
    let mut core = Core::new(temp_id(1));
    core.remote_keys.revocation_basepoint = key(GENERATOR);
    core.remote_per_commitment_point = key(GENERATOR_2);
    let derived = core.revocationpubkey().unwrap();
    assert_eq!(
        derived.bytes,
        hex_to_bytes("03d54271a0308915edbfed5e686d0f6c019dfe109d35611efe290b7f3efbe81748")
    );
}

#[test]
fn funding_script_is_order_independent() {
    // Swapping the argument order produces byte-identical scripts.
    let a = LocalPubkey { key: key(GENERATOR) };
    let b = key(GENERATOR_2);
    let ab = <LockScript as ScriptGenerators>::ln_funding(1000, &a, &b);
    let ba = <LockScript as ScriptGenerators>::ln_funding(
        1000,
        &LocalPubkey { key: key(GENERATOR_2) },
        &key(GENERATOR),
    );
    assert_eq!(ab, ba);
    assert_eq!(
        ab.script.bytes,
        hex_to_bytes(
            "52210279be667ef9dcbbac55a06295ce870b07029bfcdb2dce28d959f2815b16f817982102c6047f9441ed7d6d3045406e95c07cd85c778e4b8cef3ca7abac09b95c709ee552ae"
        )
    );
}

#[test]
fn funding_script_pubkey_commits_to_the_witness_script() {
    let mut channel = Channel::with(
        temp_id(2),
        Slice32::from_vec(vec![0u8; 32]).unwrap(),
        Policy::default(),
        CommonParams::default(),
        PeerParams::default(),
        local_keyset_g(),
    );
    channel.core.remote_keys.funding_pubkey = key(GENERATOR_2);
    let spk = channel.funding_script_pubkey();
    assert_eq!(
        spk.script.bytes,
        hex_to_bytes("00209b984c7bae3efddc3a3f0a20ff81bfe89ed1fe07ff13e562149ee654bed845db")
    );
}

#[test]
fn compose_open_channel_splits_the_funding_amount() {
    let mut channel = Channel::with(
        temp_id(3),
        Slice32::from_vec(vec![0u8; 32]).unwrap(),
        Policy::default(),
        CommonParams::default(),
        PeerParams::default(),
        local_keyset_g(),
    );
    let msg = channel
        .compose_open_channel(
            100000,
            0,
            Policy::default(),
            CommonParams::default(),
            PeerParams::default(),
            &local_keyset_g(),
        )
        .unwrap();
    assert_eq!(msg.funding_satoshis, 100000);
    assert_eq!(msg.push_msat, 0);
    assert_eq!(channel.local_amount_msat(), 100_000_000);
    assert_eq!(channel.remote_amount_msat(), 0);
    assert!(channel.core.direction.is_outbound());
}

#[test]
fn apply_omits_the_empty_counterparty_output() {
    // funding 100000 sat, push 0, outbound: the counterparty amount is zero,
    // so the template holds exactly one output - this node's own.
    let mut channel = Channel::with(
        temp_id(4),
        Slice32::from_vec(vec![0u8; 32]).unwrap(),
        Policy::default(),
        CommonParams::default(),
        PeerParams::default(),
        local_keyset_g(),
    );
    channel
        .compose_open_channel(
            100000,
            0,
            Policy::default(),
            CommonParams::default(),
            PeerParams::default(),
            &local_keyset_g(),
        )
        .unwrap();
    channel.core.remote_keys = RemoteKeyset {
        funding_pubkey: key(GENERATOR_2),
        revocation_basepoint: key(GENERATOR_2),
        payment_basepoint: key(GENERATOR_2),
        delayed_payment_basepoint: key(GENERATOR_2),
        htlc_basepoint: key(GENERATOR_2),
        first_per_commitment_point: key(GENERATOR_2),
    };
    channel.core.remote_per_commitment_point = key(GENERATOR_3);

    let mut graph = TxGraph::new();
    channel.core.apply(&mut graph).unwrap();
    assert_eq!(graph.cmt_version, 2);
    assert_eq!(graph.cmt_locktime >> 24, 0x20);
    assert_eq!(graph.cmt_sequence >> 24, 0x80);
    assert_eq!(graph.cmt_outs.len(), 1);
    // The single output pays this node: 100000 sat minus the initiator fee
    // of 724 * 253 / 1000 = 183 sat, to the witness hash of its payment key.
    assert_eq!(graph.cmt_outs[0].value, 100000 - 183);
    let expected = hex_to_bytes("0014751e76e8199196d454941c45d1b3a323f1433bd6");
    assert_eq!(graph.cmt_outs[0].script_pubkey.script.bytes, expected);
    assert!(graph.cmt_outs[0].witness_script.is_none());
}

#[test]
fn compose_open_channel_fails_outside_initial_stage() {
    let mut channel = Channel::with(
        temp_id(5),
        Slice32::from_vec(vec![0u8; 32]).unwrap(),
        Policy::default(),
        CommonParams::default(),
        PeerParams::default(),
        local_keyset_g(),
    );
    channel.core.stage = Lifecycle::Funded;
    let before = channel.clone();
    let err = channel
        .compose_open_channel(
            100000,
            0,
            Policy::default(),
            CommonParams::default(),
            PeerParams::default(),
            &local_keyset_g(),
        )
        .unwrap_err();
    match err {
        Error::LifecycleMismatch { current, required } => {
            assert_eq!(current, Lifecycle::Funded);
            assert_eq!(required, vec![Lifecycle::Initial, Lifecycle::Reestablishing]);
        },
        other => panic!("unexpected error {:?}", other),
    }
    // The failed call leaves the channel untouched.
    assert_eq!(channel, before);

    // The same call succeeds once the stage allows it.
    channel.core.stage = Lifecycle::Reestablishing;
    assert!(channel
        .compose_open_channel(
            100000,
            0,
            Policy::default(),
            CommonParams::default(),
            PeerParams::default(),
            &local_keyset_g(),
        )
        .is_ok());
}

#[test]
fn compose_accept_channel_fails_outside_initial_stage() {
    let mut channel = Channel::with(
        temp_id(6),
        Slice32::from_vec(vec![0u8; 32]).unwrap(),
        Policy::default(),
        CommonParams::default(),
        PeerParams::default(),
        local_keyset_g(),
    );
    channel.core.stage = Lifecycle::Proposed;
    let before = channel.clone();
    let err = channel.compose_accept_channel().unwrap_err();
    assert!(matches!(err, Error::LifecycleMismatch { current: Lifecycle::Proposed, .. }));
    assert_eq!(channel, before);

    channel.core.stage = Lifecycle::Initial;
    let msg = channel.compose_accept_channel().unwrap();
    assert_eq!(msg.minimum_depth, Policy::default().minimum_depth);
    assert_eq!(msg.to_self_delay, PeerParams::default().to_self_delay);
}

fn inbound_proposal() -> OpenChannel {
    let mut msg = OpenChannel::dumb_default();
    msg.temporary_channel_id = temp_id(7);
    msg.funding_satoshis = 200000;
    msg.push_msat = 50_000_000;
    msg.dust_limit_satoshis = 546;
    msg.to_self_delay = 144;
    msg.funding_pubkey = key(GENERATOR_2);
    msg.payment_point = key(GENERATOR_2);
    msg.revocation_basepoint = key(GENERATOR_2);
    msg.delayed_payment_basepoint = key(GENERATOR_2);
    msg.htlc_basepoint = key(GENERATOR_2);
    msg.first_per_commitment_point = key(GENERATOR_3);
    msg
}

#[test]
fn update_from_peer_open_channel_moves_to_proposed() {
    let mut core = Core::new(temp_id(8));
    let msg = inbound_proposal();
    core.update_from_peer(&Messages::OpenChannel(msg.clone())).unwrap();
    assert_eq!(core.stage, Lifecycle::Proposed);
    assert_eq!(core.direction, Direction::Inbound);
    assert_eq!(core.remote_amount_msat, 200000 * 1000 - 50_000_000);
    assert_eq!(core.local_amount_msat, 50_000_000);
    assert_eq!(core.remote_amount_msat + core.local_amount_msat, 200000 * 1000);
    assert_eq!(core.temp_channel_id().unwrap().id.bytes, vec![7u8; 32]);
    assert_eq!(core.remote_keys.funding_pubkey, key(GENERATOR_2));
    assert_eq!(core.remote_per_commitment_point, key(GENERATOR_3));
    assert_eq!(core.remote_params.to_self_delay, 144);
}

#[test]
fn update_from_peer_rejects_out_of_policy_proposal() {
    let mut core = Core::new(temp_id(9));
    let mut msg = inbound_proposal();
    msg.dust_limit_satoshis = 100000;
    let before = core.clone();
    let err = core.update_from_peer(&Messages::OpenChannel(msg)).unwrap_err();
    assert_eq!(err, Error::Policy(PolicyViolation::DustLimitTooLarge));
    assert_eq!(core, before);

    let mut msg = inbound_proposal();
    msg.push_msat = msg.funding_satoshis * 1000 + 1;
    let err = core.update_from_peer(&Messages::OpenChannel(msg)).unwrap_err();
    assert_eq!(err, Error::Policy(PolicyViolation::PushExceedsFunding));
    assert_eq!(core, before);

    let mut msg = inbound_proposal();
    msg.funding_satoshis = 100;
    let err = core.update_from_peer(&Messages::OpenChannel(msg)).unwrap_err();
    assert_eq!(err, Error::Policy(PolicyViolation::FundingTooSmall));

    let mut msg = inbound_proposal();
    msg.funding_satoshis = u64::MAX / 1000 + 1;
    let err = core.update_from_peer(&Messages::OpenChannel(msg)).unwrap_err();
    assert_eq!(err, Error::Policy(PolicyViolation::FundingTooLarge));

    let mut msg = inbound_proposal();
    msg.to_self_delay = 5000;
    let err = core.update_from_peer(&Messages::OpenChannel(msg)).unwrap_err();
    assert_eq!(err, Error::Policy(PolicyViolation::ToSelfDelayTooLarge));
    assert_eq!(core, before);
}

#[test]
fn funding_created_derives_the_final_channel_id() {
    let mut core = Core::new(temp_id(10));
    core.update_from_peer(&Messages::OpenChannel(inbound_proposal())).unwrap();
    let msg = FundingCreated {
        temporary_channel_id: temp_id(7),
        funding_txid: Slice32::from_vec(vec![0xAAu8; 32]).unwrap(),
        funding_output_index: 0x0102,
        signature: Signature::from_vec(vec![1u8; 64]).unwrap(),
    };
    core.update_from_peer(&Messages::FundingCreated(msg)).unwrap();
    assert_eq!(core.stage, Lifecycle::Funding);
    // The last two txid bytes are XOR-combined with the output index.
    let mut expected = vec![0xAAu8; 32];
    expected[30] ^= 0x01;
    expected[31] ^= 0x02;
    assert_eq!(core.channel_id().unwrap().id.bytes, expected);
    assert!(core.temp_channel_id().is_none());
}

#[test]
fn funding_signed_appends_the_signature() {
    let mut core = Core::new(temp_id(11));
    core.update_from_peer(&Messages::OpenChannel(inbound_proposal())).unwrap();
    let sig = Signature::from_vec(vec![9u8; 64]).unwrap();
    let msg = lnp_core::message::FundingSigned {
        channel_id: ChannelId { id: Slice32::from_vec(vec![3u8; 32]).unwrap() },
        signature: sig.clone(),
    };
    core.update_from_peer(&Messages::FundingSigned(msg)).unwrap();
    assert_eq!(core.stage, Lifecycle::Funded);
    assert_eq!(core.commitment_sigs, vec![sig]);
    assert_eq!(core.channel_id().unwrap().id.bytes, vec![3u8; 32]);
}

#[test]
fn funding_locked_only_moves_the_stage() {
    let mut core = Core::new(temp_id(12));
    core.update_from_peer(&Messages::OpenChannel(inbound_proposal())).unwrap();
    let before = core.clone();
    let msg = lnp_core::message::FundingLocked {
        channel_id: ChannelId { id: Slice32::from_vec(vec![3u8; 32]).unwrap() },
        next_per_commitment_point: key(GENERATOR),
    };
    core.update_from_peer(&Messages::FundingLocked(msg)).unwrap();
    assert_eq!(core.stage, Lifecycle::Locked);
    assert_eq!(core.remote_amount_msat, before.remote_amount_msat);
    assert_eq!(core.commitment_sigs, before.commitment_sigs);
}

#[test]
fn operation_messages_leave_the_state_unchanged() {
    let mut core = Core::new(temp_id(13));
    core.update_from_peer(&Messages::OpenChannel(inbound_proposal())).unwrap();
    let before = core.clone();
    let msg = lnp_core::message::UpdateFee {
        channel_id: ChannelId { id: Slice32::from_vec(vec![3u8; 32]).unwrap() },
        feerate_per_kw: 1000,
    };
    core.update_from_peer(&Messages::UpdateFee(msg)).unwrap();
    assert_eq!(core, before);
}

#[test]
fn network_recognises_the_mainnet_genesis() {
    let mut channel = Channel::with(
        temp_id(14),
        Slice32::from_vec(hex_to_bytes(
            "6fe28c0ab6f1b372c1a6a246ae63f74f931e8365e15a089c68d6190000000000",
        ))
        .unwrap(),
        Policy::default(),
        CommonParams::default(),
        PeerParams::default(),
        local_keyset_g(),
    );
    assert_eq!(channel.network(), Some(Network::Mainnet));
    channel.core.chain_hash = Slice32::from_vec(vec![0x42u8; 32]).unwrap();
    assert_eq!(channel.network(), None);
}

#[test]
fn refund_fee_follows_the_feerate() {
    let mut core = Core::new(temp_id(15));
    core.common_params.feerate_per_kw = 253;
    assert_eq!(core.refund_fee(), 724 * 253 / 1000);
    core.common_params.feerate_per_kw = 1000;
    assert_eq!(core.refund_fee(), 724);
}

#[test]
fn enrich_funding_requires_a_funding_output() {
    let mut core = Core::new(temp_id(16));
    core.local_keys = local_keyset_g();
    core.remote_keys.funding_pubkey = key(GENERATOR_2);
    assert_eq!(core.enrich_funding(None).unwrap_err(), Error::NoFundingOutput);
    let (vout, witness) = core.enrich_funding(Some(1)).unwrap();
    assert_eq!(vout, 1);
    assert_eq!(
        witness.script.bytes,
        hex_to_bytes(
            "52210279be667ef9dcbbac55a06295ce870b07029bfcdb2dce28d959f2815b16f817982102c6047f9441ed7d6d3045406e95c07cd85c778e4b8cef3ca7abac09b95c709ee552ae"
        )
    );
}

#[test]
fn channel_with_applies_the_channel_type() {
    let mut params = CommonParams::default();
    params.channel_type = lnp_core::policy::ChannelType::AnchorOutputs;
    let channel = Channel::with(
        temp_id(17),
        Slice32::from_vec(vec![0u8; 32]).unwrap(),
        Policy::default(),
        params,
        PeerParams::default(),
        local_keyset_g(),
    );
    assert!(channel.anchor_outputs);
    assert!(channel.core.local_keys.static_remotekey);
    assert!(matches!(channel.active_channel_id(), ActiveChannelId::Temporary(_)));
}

#[test]
fn revocationpubkey_failure_is_surfaced() {
    // Placeholder all-zero keys are not curve points, so the derivation
    // reports the failure instead of panicking.
    let core = Core::new(temp_id(18));
    assert_eq!(core.revocationpubkey().unwrap_err(), Error::KeyDerivation);
}

#[test]
fn accept_channel_confirms_against_local_params() {
    let mut core = Core::new(temp_id(19));
    core.local_params.dust_limit_satoshis = 600;
    let mut msg = lnp_core::message::AcceptChannel {
        temporary_channel_id: temp_id(19),
        dust_limit_satoshis: 546,
        max_htlc_value_in_flight_msat: u64::MAX,
        channel_reserve_satoshis: 700,
        htlc_minimum_msat: 0,
        minimum_depth: 3,
        to_self_delay: 144,
        max_accepted_htlcs: 483,
        funding_pubkey: key(GENERATOR_2),
        revocation_basepoint: key(GENERATOR_2),
        payment_point: key(GENERATOR_2),
        delayed_payment_basepoint: key(GENERATOR_2),
        htlc_basepoint: key(GENERATOR_2),
        first_per_commitment_point: key(GENERATOR_3),
    };
    // A reserve below this node's dust limit is rejected, untouched state.
    msg.channel_reserve_satoshis = 100;
    let before = core.clone();
    let err = core.update_from_peer(&Messages::AcceptChannel(msg.clone())).unwrap_err();
    assert_eq!(err, Error::Policy(PolicyViolation::ChannelReserveBelowDust));
    assert_eq!(core, before);

    msg.channel_reserve_satoshis = 700;
    core.update_from_peer(&Messages::AcceptChannel(msg)).unwrap();
    assert_eq!(core.stage, Lifecycle::Accepted);
    assert_eq!(core.remote_params.channel_reserve_satoshis, 700);
    assert_eq!(core.remote_keys.funding_pubkey, key(GENERATOR_2));
    assert_eq!(core.remote_per_commitment_point, key(GENERATOR_3));
}
