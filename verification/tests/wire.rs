use lnp_core::bitcoin::PubkeyScript;
use lnp_core::bitcoin::Script;
use lnp_core::codec;
use lnp_core::codec::Error;
use lnp_core::message::Messages;
use lnp_core::message::OpenChannel;
use lnp_core::message::OnionPacket;
use lnp_core::message::Ping;
use lnp_core::primitives::AddressList;
use lnp_core::primitives::Features;
use lnp_core::primitives::NodeColor;
use lnp_core::primitives::PublicKey;
use lnp_core::primitives::ShortChannelId;
use lnp_core::primitives::Signature;
use lnp_core::primitives::Slice32;

fn hex_to_bytes(s: &str) -> Vec<u8> {
    let chars: Vec<u8> = s.bytes().collect();
    let mut out = Vec::new();
    let mut i = 0;
    while i + 1 < chars.len() {
        let hi = (chars[i] as char).to_digit(16).unwrap() as u8;
        let lo = (chars[i + 1] as char).to_digit(16).unwrap() as u8;
        out.push(hi * 16 + lo);
        i += 2;
    }
    out
}

const GENERATOR: &str = "0279be667ef9dcbbac55a06295ce870b07029bfcdb2dce28d959f2815b16f81798";

#[test]
fn real_clightning_scriptpubkey() {
    // Real scriptpubkey sent by clightning
    let msg_recv = [
        0u8, 22, 0, 20, 42, 238, 172, 27, 222, 161, 61, 181, 251, 208, 97, 79, 71, 255, 98, 8,
        213, 205, 114, 94,
    ];

    let script = PubkeyScript::lightning_deserialize(&msg_recv).unwrap();
    assert_eq!(script.lightning_serialize().unwrap(), msg_recv);
}

#[test]
fn fixed_width_integers_round_trip() {
    let mut out = Vec::new();
    codec::write_u8(0xAB, &mut out);
    codec::write_u16(0x1234, &mut out);
    codec::write_u24(0x56789A, &mut out);
    codec::write_u32(0xDEADBEEF, &mut out);
    codec::write_u64(0x0123456789ABCDEF, &mut out);
    assert_eq!(
        out,
        vec![
            0xAB, 0x12, 0x34, 0x56, 0x78, 0x9A, 0xDE, 0xAD, 0xBE, 0xEF, 0x01, 0x23, 0x45, 0x67,
            0x89, 0xAB, 0xCD, 0xEF
        ]
    );
    let (a, p) = codec::read_u8(&out, 0).unwrap();
    let (b, p) = codec::read_u16(&out, p).unwrap();
    let (c, p) = codec::read_u24(&out, p).unwrap();
    let (d, p) = codec::read_u32(&out, p).unwrap();
    let (e, p) = codec::read_u64(&out, p).unwrap();
    assert_eq!(
        (a, b, c, d, e, p),
        (0xAB, 0x1234, 0x56789A, 0xDEADBEEF, 0x0123456789ABCDEF, out.len())
    );
}

#[test]
fn truncated_integer_fails_with_io() {
    assert_eq!(codec::read_u32(&[1, 2, 3], 0), Err(Error::Io));
    assert_eq!(codec::read_u16(&[1, 2], 1), Err(Error::Io));
}

#[test]
fn bigsize_uses_minimal_width() {
    for (v, expected) in [
        (0u64, vec![0u8]),
        (0xFC, vec![0xFC]),
        (0xFD, vec![0xFD, 0x00, 0xFD]),
        (0xFFFF, vec![0xFD, 0xFF, 0xFF]),
        (0x10000, vec![0xFE, 0x00, 0x01, 0x00, 0x00]),
        (0xFFFFFFFF, vec![0xFE, 0xFF, 0xFF, 0xFF, 0xFF]),
        (0x100000000, vec![0xFF, 0x00, 0x00, 0x00, 0x01, 0x00, 0x00, 0x00, 0x00]),
    ] {
        let mut out = Vec::new();
        let n = codec::write_bigsize(v, &mut out);
        assert_eq!(out, expected);
        assert_eq!(n, expected.len());
        let (w, end) = codec::read_bigsize(&out, 0).unwrap();
        assert_eq!((w, end), (v, out.len()));
    }
}

#[test]
fn bigsize_rejects_non_canonical() {
    // 0x10 carried in the 3-byte form must be rejected on decode.
    assert_eq!(codec::read_bigsize(&[0xFD, 0x00, 0x10], 0), Err(Error::DataIntegrityError));
    assert_eq!(
        codec::read_bigsize(&[0xFE, 0x00, 0x00, 0xFF, 0xFF], 0),
        Err(Error::DataIntegrityError)
    );
    assert_eq!(codec::read_bigsize(&[0xFD, 0x00], 0), Err(Error::Io));
}

#[test]
fn length_prefixed_run_is_two_plus_payload() {
    let payload: Vec<u8> = (0u8..=99).collect();
    let mut out = Vec::new();
    let n = codec::write_bytes16(&payload, &mut out).unwrap();
    assert_eq!(n, 2 + payload.len());
    assert_eq!(out.len(), 2 + payload.len());
    assert_eq!(&out[..2], &[0, 100]);
    let (back, end) = codec::read_bytes16(&out, 0).unwrap();
    assert_eq!(back, payload);
    assert_eq!(end, out.len());
}

#[test]
fn oversized_run_fails_with_too_large_data() {
    let payload = vec![7u8; 0x10000];
    let mut out = Vec::new();
    assert_eq!(codec::write_bytes16(&payload, &mut out), Err(Error::TooLargeData));
    assert!(out.is_empty());
}

#[test]
fn trailing_bytes_fail_with_data_not_entirely_consumed() {
    // One well-formed script followed by one stray byte.
    let bytes = [0u8, 2, 0xAC, 0xAC, 0x99];
    assert_eq!(
        PubkeyScript::lightning_deserialize(&bytes),
        Err(Error::DataNotEntirelyConsumed)
    );
}

#[test]
fn script_decode_reads_exactly_the_prefixed_length() {
    let bytes = [0u8, 3, 0x51, 0x52, 0xAE];
    let (script, end) = Script::lightning_decode(&bytes, 0).unwrap();
    assert_eq!(script.bytes, vec![0x51, 0x52, 0xAE]);
    assert_eq!(end, 5);
}

#[test]
fn slice32_round_trip() {
    let v: Vec<u8> = (0u8..32).collect();
    let s = Slice32::from_vec(v.clone()).unwrap();
    let mut out = Vec::new();
    s.lightning_encode(&mut out).unwrap();
    assert_eq!(out, v);
    let (back, end) = Slice32::lightning_decode(&out, 0).unwrap();
    assert_eq!(back, s);
    assert_eq!(end, 32);
    assert!(Slice32::from_vec(vec![0u8; 31]).is_none());
}

#[test]
fn public_key_decode_validates_the_point() {
    let good = hex_to_bytes(GENERATOR);
    let key = PublicKey::from_vec(good.clone()).unwrap();
    let mut out = Vec::new();
    key.lightning_encode(&mut out).unwrap();
    let (back, _) = PublicKey::lightning_decode(&out, 0).unwrap();
    assert_eq!(back.bytes, good);

    // An invalid prefix byte is not a point encoding.
    let mut bad = good.clone();
    bad[0] = 0x05;
    assert!(PublicKey::from_vec(bad.clone()).is_none());
    assert_eq!(PublicKey::lightning_decode(&bad, 0), Err(Error::DataIntegrityError));
}

#[test]
fn features_round_trip_and_canonical_form() {
    // Trailing zero flag bytes are dropped on construction.
    let f = Features::from_vec(vec![0b0000_0010, 0b1000_0000, 0, 0]).unwrap();
    assert_eq!(f.flags, vec![0b0000_0010, 0b1000_0000]);
    let mut out = Vec::new();
    f.lightning_encode(&mut out).unwrap();
    // Reversed on the wire, behind a 16-bit length prefix.
    assert_eq!(out, vec![0, 2, 0b1000_0000, 0b0000_0010]);
    let (back, end) = Features::lightning_decode(&out, 0).unwrap();
    assert_eq!(back, f);
    assert_eq!(end, 4);

    // A wire form with a leading zero byte is non-canonical.
    assert_eq!(
        Features::lightning_decode(&[0, 2, 0, 1], 0),
        Err(Error::DataIntegrityError)
    );
}

#[test]
fn short_channel_id_round_trip() {
    let scid = ShortChannelId { block_height: 0x123456, tx_index: 0x0789AB, output_index: 7 };
    let mut out = Vec::new();
    scid.lightning_encode(&mut out).unwrap();
    assert_eq!(out, vec![0x12, 0x34, 0x56, 0x07, 0x89, 0xAB, 0x00, 0x07]);
    let (back, end) = ShortChannelId::lightning_decode(&out, 0).unwrap();
    assert_eq!(back, scid);
    assert_eq!(end, 8);
}

#[test]
fn node_color_and_address_list_round_trip() {
    let c = NodeColor { red: 1, green: 2, blue: 3 };
    let mut out = Vec::new();
    c.lightning_encode(&mut out).unwrap();
    assert_eq!(out, vec![1, 2, 3]);
    let (back, _) = NodeColor::lightning_decode(&out, 0).unwrap();
    assert_eq!(back, c);

    let a = AddressList { bytes: vec![9, 8, 7] };
    let mut out = Vec::new();
    a.lightning_encode(&mut out).unwrap();
    assert_eq!(out, vec![0, 3, 9, 8, 7]);
    let (back, end) = AddressList::lightning_decode(&out, 0).unwrap();
    assert_eq!(back, a);
    assert_eq!(end, 5);
}

#[test]
fn ping_message_round_trip_with_discriminant() {
    let ping = Messages::Ping(Ping { ignored: vec![0xAA, 0xBB], pong_size: 16 });
    let bytes = ping.lightning_serialize().unwrap();
    // Type 18, then the length-prefixed padding, then the pong size.
    assert_eq!(bytes, vec![0, 18, 0, 2, 0xAA, 0xBB, 0, 16]);
    let back = Messages::lightning_deserialize(&bytes).unwrap();
    assert_eq!(back, ping);
}

#[test]
fn pong_message_round_trip() {
    let pong = Messages::Pong(vec![0u8; 5]);
    let bytes = pong.lightning_serialize().unwrap();
    assert_eq!(bytes, vec![0, 19, 0, 5, 0, 0, 0, 0, 0]);
    assert_eq!(Messages::lightning_deserialize(&bytes).unwrap(), pong);
}

#[test]
fn error_message_zero_id_means_all_channels() {
    let msg = lnp_core::message::Error { channel_id: None, data: vec![0x68, 0x69] };
    let mut out = Vec::new();
    msg.lightning_encode(&mut out).unwrap();
    assert_eq!(out.len(), 32 + 2 + 2);
    assert_eq!(&out[..32], &[0u8; 32][..]);
    let (back, _) = lnp_core::message::Error::lightning_decode(&out, 0).unwrap();
    assert_eq!(back.channel_id, None);
    assert_eq!(back.data, vec![0x68, 0x69]);
}

#[test]
fn open_channel_round_trip() {
    let mut msg = OpenChannel::dumb_default();
    msg.funding_satoshis = 100000;
    msg.push_msat = 5000;
    msg.feerate_per_kw = 253;
    msg.to_self_delay = 144;
    // The decoder insists on valid curve points, so the placeholder keys
    // must be replaced before a round trip.
    let g = hex_to_bytes(GENERATOR);
    msg.funding_pubkey = PublicKey::from_vec(g.clone()).unwrap();
    msg.revocation_basepoint = PublicKey::from_vec(g.clone()).unwrap();
    msg.payment_point = PublicKey::from_vec(g.clone()).unwrap();
    msg.delayed_payment_basepoint = PublicKey::from_vec(g.clone()).unwrap();
    msg.htlc_basepoint = PublicKey::from_vec(g.clone()).unwrap();
    msg.first_per_commitment_point = PublicKey::from_vec(g.clone()).unwrap();
    let wrapped = Messages::OpenChannel(msg.clone());
    let bytes = wrapped.lightning_serialize().unwrap();
    assert_eq!(&bytes[..2], &[0, 32]);
    // chain hash 32 + temp id 32 + 6 * u64 + u32 + 2 * u16 + 6 * 33 + flags,
    // behind the 2-byte discriminant.
    assert_eq!(bytes.len(), 2 + 32 + 32 + 48 + 4 + 4 + 198 + 1);
    let back = Messages::lightning_deserialize(&bytes).unwrap();
    assert_eq!(back, wrapped);
}

#[test]
fn unknown_discriminant_is_rejected() {
    assert_eq!(
        Messages::lightning_deserialize(&[0x00, 0x01]),
        Err(Error::DataIntegrityError)
    );
    assert_eq!(Messages::lightning_deserialize(&[0]), Err(Error::Io));
}

#[test]
fn onion_packet_round_trip() {
    let mut onion = OnionPacket::dumb_default();
    onion.public_key = PublicKey::from_vec(hex_to_bytes(GENERATOR)).unwrap();
    onion.hop_data = vec![1, 2, 3, 4];
    let mut out = Vec::new();
    onion.lightning_encode(&mut out).unwrap();
    assert_eq!(out.len(), 1 + 33 + 2 + 4 + 32);
    let (back, end) = OnionPacket::lightning_decode(&out, 0).unwrap();
    assert_eq!(back, onion);
    assert_eq!(end, out.len());
}

#[test]
fn commitment_signed_signature_list_round_trip() {
    let sig = Signature::from_vec(vec![0x42u8; 64]).unwrap();
    let msg = lnp_core::message::CommitmentSigned {
        channel_id: lnp_core::bitcoin::ChannelId {
            id: Slice32::from_vec(vec![1u8; 32]).unwrap(),
        },
        signature: sig.clone(),
        htlc_signatures: vec![sig.clone(), sig.clone()],
    };
    let mut out = Vec::new();
    msg.lightning_encode(&mut out).unwrap();
    assert_eq!(out.len(), 32 + 64 + 2 + 128);
    let (back, end) = lnp_core::message::CommitmentSigned::lightning_decode(&out, 0).unwrap();
    assert_eq!(back, msg);
    assert_eq!(end, out.len());
}

#[test]
fn init_round_trip_and_duplicate_assets_rejected() {
    let asset_a = Slice32::from_vec((0u8..32).collect()).unwrap();
    let asset_b = Slice32::from_vec(vec![9u8; 32]).unwrap();
    let msg = lnp_core::message::Init {
        global_features: Features::from_vec(vec![1]).unwrap(),
        local_features: Features::new(),
        assets: vec![asset_a.clone(), asset_b.clone()],
    };
    let mut out = Vec::new();
    msg.lightning_encode(&mut out).unwrap();
    let (back, end) = lnp_core::message::Init::lightning_decode(&out, 0).unwrap();
    assert_eq!(back, msg);
    assert_eq!(end, out.len());

    // The asset list is a set: a payload carrying the same id twice is
    // rejected rather than decoded into duplicates.
    let dup = lnp_core::message::Init {
        global_features: Features::new(),
        local_features: Features::new(),
        assets: vec![asset_a.clone(), asset_a.clone()],
    };
    let mut raw = Vec::new();
    raw.extend_from_slice(&[0, 0, 0, 0, 0, 2]);
    raw.extend_from_slice(&asset_a.bytes);
    raw.extend_from_slice(&asset_a.bytes);
    assert_eq!(
        lnp_core::message::Init::lightning_decode(&raw, 0),
        Err(Error::DataIntegrityError)
    );
    // The duplicate-carrying value itself cannot be encoded from a
    // well-formed message, so `dup` exists here only to document the shape.
    assert_eq!(dup.assets.len(), 2);
}

#[test]
fn truncated_message_body_fails_with_io() {
    // A known discriminant whose body is cut short.
    let bytes = [0u8, 35, 1, 2, 3];
    assert_eq!(Messages::lightning_deserialize(&bytes), Err(Error::Io));
}
