//! The peer message catalog and its wire encoding.
//!
//! Each message is a plain struct whose fields encode in declaration order;
//! [`Messages`] gathers them behind the 16-bit type discriminant that
//! prefixes every wire message. The field semantics live with the channel
//! state machine — here the messages are data with one exact byte layout
//! each.

use vstd::prelude::*;
use crate::bitcoin::ChannelId;
use crate::bitcoin::Script;
use crate::bitcoin::TempChannelId;
use crate::codec;
use crate::crypto;
use crate::keyset::zero_bytes;
use crate::primitives::AddressList;
use crate::primitives::Alias;
use crate::primitives::AssetId;
use crate::primitives::Features;
use crate::primitives::HashLock;
use crate::primitives::HashPreimage;
use crate::primitives::Hmac;
use crate::primitives::NodeColor;
use crate::primitives::PublicKey;
use crate::primitives::ShortChannelId;
use crate::primitives::Signature;
use crate::primitives::Slice32;
use crate::primitives::Txid;

verus! {

/// A run of `n` zero bytes.
pub open spec fn zeros(n: int) -> Seq<u8> {
    Seq::new(n as nat, |i: int| 0u8)
}

/// Whether every byte of `v` is zero.
pub fn is_all_zero(v: &[u8]) -> (r: bool)
    ensures
        r == (v@ == zeros(v@.len() as int)),
{
    let mut i: usize = 0;
    while i < v.len()
        invariant
            i <= v@.len(),
            forall|j: int| 0 <= j < i ==> v@[j] == 0u8,
        decreases v@.len() - i,
    {
        if v[i] != 0 {
            proof {
                assert(v@[i as int] != 0);
                assert(v@ != zeros(v@.len() as int));
            }
            return false;
        }
        i = i + 1;
    }
    proof {
        assert(v@ =~= zeros(v@.len() as int));
    }
    true
}

/// A transaction outpoint: the funding transaction and the output spent.
#[derive(Clone, Debug, PartialEq, Eq)]
pub struct OutPoint {
    /// The transaction holding the output.
    pub txid: Txid,
    /// The index of the output within that transaction.
    pub vout: u32,
}

impl OutPoint {
    /// The transaction id holds 32 bytes.
    pub open spec fn wf(&self) -> bool {
        self.txid.wf()
    }

    /// The wire encoding: the transaction id, then the output index.
    pub open spec fn enc(&self) -> Seq<u8> {
        self.txid.enc() + codec::enc_u32(self.vout)
    }

    /// Appends the encoded outpoint to the sink.
    pub fn lightning_encode(&self, out: &mut Vec<u8>) -> (r: Result<usize, codec::Error>)
        requires
            self.wf(),
        ensures
            r == Ok::<usize, codec::Error>(36usize),
            final(out)@ == old(out)@ + self.enc(),
    {
        self.txid.lightning_encode(out);
        codec::write_u32(self.vout, out);
        proof {
            assert(out@ =~= old(out)@ + self.enc());
        }
        Ok(36)
    }

    /// Reads an encoded outpoint.
    pub fn lightning_decode(d: &[u8], pos: usize) -> (r: Result<(OutPoint, usize), codec::Error>)
        ensures
            match r {
                Ok((v, end)) => v.wf() && end == pos + 36 && end <= d@.len() && v.enc()
                    == d@.subrange(pos as int, end as int),
                Err(e) => e == codec::Error::Io && d@.len() < pos + 36,
            },
    {
        let (txid, p1) = match Slice32::lightning_decode(d, pos) {
            Ok(x) => x,
            Err(e) => {
                return Err(e);
            },
        };
        let (vout, end) = match codec::read_u32(d, p1) {
            Ok(x) => x,
            Err(e) => {
                return Err(e);
            },
        };
        let v = OutPoint { txid, vout };
        proof {
            assert(d@.subrange(pos as int, end as int) =~= d@.subrange(pos as int, p1 as int) + d@.subrange(p1 as int, end as int));
        }
        Ok((v, end))
    }
}

/// The obfuscated routing onion carried by an HTLC.
#[derive(Clone, Debug, PartialEq, Eq)]
pub struct OnionPacket {
    /// The onion format version.
    pub version: u8,
    /// The ephemeral key the onion was built with.
    pub public_key: PublicKey,
    /// The per-hop payloads.
    pub hop_data: Vec<u8>,
    /// The authentication code over the onion.
    pub hmac: Hmac,
}

impl OnionPacket {
    /// The key holds 33 bytes, the code 32, and the payload fits its length
    /// prefix.
    pub open spec fn wf(&self) -> bool {
        self.public_key.wf() && self.hop_data@.len() <= 0xFFFF && self.hmac.wf()
    }

    /// The wire encoding: version, key, length-prefixed payload, code.
    pub open spec fn enc(&self) -> Seq<u8> {
        codec::enc_u8(self.version) + self.public_key.enc() + codec::enc_bytes16(self.hop_data@)
            + self.hmac.enc()
    }

    /// Appends the encoded onion to the sink.
    pub fn lightning_encode(&self, out: &mut Vec<u8>) -> (r: Result<usize, codec::Error>)
        requires
            self.wf(),
        ensures
            r matches Ok(n) && n == self.enc().len() && final(out)@ == old(out)@ + self.enc(),
    {
        codec::write_u8(self.version, out);
        self.public_key.lightning_encode(out);
        let n = match codec::write_bytes16(self.hop_data.as_slice(), out) {
            Ok(n) => n,
            Err(_) => {
                proof {
                    assert(false);
                }
                0
            },
        };
        self.hmac.lightning_encode(out);
        proof {
            reveal(codec::enc_u8);
            reveal(codec::enc_u16);
            assert(out@ =~= old(out)@ + self.enc());
        }
        Ok(1 + 33 + n + 32)
    }

    /// Reads an encoded onion.
    pub fn lightning_decode(d: &[u8], pos: usize) -> (r: Result<(OnionPacket, usize), codec::Error>)
        ensures
            match r {
                Ok((v, end)) => v.wf() && pos <= end <= d@.len() && v.enc() == d@.subrange(
                    pos as int,
                    end as int,
                ) && end == onion_packet_parse_end(d@, pos as int),
                Err(e) => (e == codec::Error::Io || e == codec::Error::DataIntegrityError)
                    && onion_packet_parse_end(d@, pos as int) < 0,
            },
    {
        proof {
            reveal(onion_packet_parse_end);
        }
        let (version, p1) = match codec::read_u8(d, pos) {
            Ok(x) => x,
            Err(e) => {
                return Err(e);
            },
        };
        let (public_key, p2) = match PublicKey::lightning_decode(d, p1) {
            Ok(x) => x,
            Err(e) => {
                return Err(e);
            },
        };
        let (hop_data, p3) = match codec::read_bytes16(d, p2) {
            Ok(x) => x,
            Err(e) => {
                return Err(e);
            },
        };
        let (hmac, end) = match Slice32::lightning_decode(d, p3) {
            Ok(x) => x,
            Err(e) => {
                return Err(e);
            },
        };
        let v = OnionPacket { version, public_key, hop_data, hmac };
        proof {
            assert(d@.subrange(pos as int, end as int) =~= d@.subrange(pos as int, p1 as int) + d@.subrange(p1 as int, p2 as int) + d@.subrange(p2 as int, p3 as int) + d@.subrange(p3 as int, end as int));
        }
        Ok((v, end))
    }
}

/// Pairwise distinctness of a run of asset identifiers, by their bytes.
pub open spec fn assets_distinct_spec(items: Seq<AssetId>) -> bool {
    forall|i: int, j: int|
        0 <= i < j < items.len() ==> items[i].bytes@ != items[j].bytes@
}

/// The `i`-th 32-byte record in a run laid out from `start`.
pub open spec fn asset_record(d: Seq<u8>, start: int, i: int) -> Seq<u8> {
    d.subrange(start + 32 * i, start + 32 * i + 32)
}

/// Pairwise distinctness of the 32-byte records laid out from `start`.
pub open spec fn assets_region_distinct(d: Seq<u8>, start: int, count: int) -> bool {
    forall|i: int, j: int|
        0 <= i < j < count ==> asset_record(d, start, i) != asset_record(d, start, j)
}

/// A run of well-formed asset identifiers encodes to 32 bytes per element.
pub proof fn lemma_enc_assets_len(items: Seq<AssetId>)
    requires
        wf_assets(items),
    ensures
        enc_assets(items).len() == 32 * items.len(),
    decreases items.len(),
{
    if items.len() > 0 {
        lemma_enc_assets_len(items.drop_last());
    }
}

/// Element `i` of an encoded asset run occupies bytes `32 i` through
/// `32 i + 32`.
pub proof fn lemma_enc_assets_index(items: Seq<AssetId>, i: int)
    requires
        wf_assets(items),
        0 <= i < items.len(),
    ensures
        enc_assets(items).subrange(32 * i, 32 * i + 32) == items[i].bytes@,
    decreases items.len(),
{
    lemma_enc_assets_len(items);
    if i == items.len() - 1 {
        lemma_enc_assets_len(items.drop_last());
        assert(enc_assets(items).subrange(32 * i, 32 * i + 32) =~= items[i].bytes@);
    } else {
        lemma_enc_assets_index(items.drop_last(), i);
        lemma_enc_assets_len(items.drop_last());
        assert(enc_assets(items).subrange(32 * i, 32 * i + 32) =~= enc_assets(
            items.drop_last(),
        ).subrange(32 * i, 32 * i + 32));
    }
}

/// Checks that no two asset identifiers in the run carry the same bytes.
pub fn assets_distinct(items: &Vec<AssetId>) -> (r: bool)
    ensures
        r == assets_distinct_spec(items@),
{
    let mut i: usize = 0;
    while i < items.len()
        invariant
            i <= items@.len(),
            forall|a: int, b: int|
                0 <= a < b < i ==> items@[a].bytes@ != items@[b].bytes@,
        decreases items@.len() - i,
    {
        let mut j: usize = 0;
        while j < i
            invariant
                j <= i < items@.len(),
                forall|b: int| 0 <= b < j ==> items@[b].bytes@ != items@[i as int].bytes@,
            decreases i - j,
        {
            if codec::bytes_eq(items[j].bytes.as_slice(), items[i].bytes.as_slice()) {
                return false;
            }
            j = j + 1;
        }
        i = i + 1;
    }
    true
}

/// The position one past a well-formed onion body starting at `pos` in `d`,
/// or a negative value when no well-formed onion starts there.
#[verifier::opaque]
pub open spec fn onion_packet_parse_end(d: Seq<u8>, pos: int) -> int {
    if pos + 34 > d.len() {
        -1
    } else if !crypto::is_ec_point(d.subrange(pos + 1, pos + 34)) {
        -1
    } else if pos + 36 > d.len() {
        -1
    } else {
        let n = codec::dec_u16(d.subrange(pos + 34, pos + 36)) as int;
        if pos + 36 + n + 32 > d.len() {
            -1
        } else {
            pos + 36 + n + 32
        }
    }
}

/// The concatenated encodings of a run of signatures.
pub open spec fn enc_sigs(items: Seq<Signature>) -> Seq<u8>
    decreases items.len(),
{
    if items.len() == 0 {
        Seq::empty()
    } else {
        enc_sigs(items.drop_last()) + items.last().enc()
    }
}

/// Every signature in the run holds 64 bytes.
pub open spec fn wf_sigs(items: Seq<Signature>) -> bool {
    forall|i: int| 0 <= i < items.len() ==> items[i].wf()
}

/// Appends a 16-bit count and then each signature.
pub fn write_sigs(items: &Vec<Signature>, out: &mut Vec<u8>)
    requires
        items@.len() <= 0xFFFF,
        wf_sigs(items@),
    ensures
        final(out)@ == old(out)@ + codec::enc_u16(items@.len() as u16) + enc_sigs(items@),
{
    codec::write_u16(items.len() as u16, out);
    let mut i: usize = 0;
    while i < items.len()
        invariant
            i <= items@.len(),
            items@.len() <= 0xFFFF,
            wf_sigs(items@),
            out@ == old(out)@ + codec::enc_u16(items@.len() as u16) + enc_sigs(
                items@.take(i as int),
            ),
        decreases items@.len() - i,
    {
        items[i].lightning_encode(out);
        i = i + 1;
        proof {
            assert(items@.take(i as int).drop_last() =~= items@.take(i - 1));
            assert(out@ =~= old(out)@ + codec::enc_u16(items@.len() as u16) + enc_sigs(
                items@.take(i as int),
            ));
        }
    }
    proof {
        assert(items@.take(items@.len() as int) =~= items@);
    }
}

/// Reads a 16-bit count and then that many signatures.
pub fn read_sigs(d: &[u8], pos: usize) -> (r: Result<(Vec<Signature>, usize), codec::Error>)
    ensures
        match r {
            Ok((v, end)) => v@.len() <= 0xFFFF && wf_sigs(v@) && pos <= end <= d@.len()
                && d@.subrange(pos as int, end as int) == codec::enc_u16(v@.len() as u16)
                + enc_sigs(v@) && v@.len() == codec::dec_u16(d@.subrange(pos as int, pos + 2)) as int
                && end == pos + 2 + 64 * v@.len(),
            Err(e) => e == codec::Error::Io && (d@.len() < pos + 2 || d@.len() < pos + 2 + 64
                * codec::dec_u16(d@.subrange(pos as int, pos + 2)) as int),
        },
{
    let (count, mut cur) = match codec::read_u16(d, pos) {
        Ok(x) => x,
        Err(e) => {
            return Err(e);
        },
    };
    let mut v: Vec<Signature> = Vec::new();
    let mut k: usize = 0;
    while k < count as usize
        invariant
            k <= count as usize,
            v@.len() == k,
            wf_sigs(v@),
            pos + 2 <= cur <= d@.len(),
            cur == pos + 2 + 64 * k,
            count == codec::dec_u16(d@.subrange(pos as int, pos + 2)),
            d@.subrange(pos + 2, cur as int) == enc_sigs(v@),
            d@.subrange(pos as int, pos + 2) == codec::enc_u16(count),
        decreases count as usize - k,
    {
        let (sig, next) = match Signature::lightning_decode(d, cur) {
            Ok(x) => x,
            Err(e) => {
                return Err(e);
            },
        };
        let ghost prev = v@;
        v.push(sig);
        proof {
            assert(v@.drop_last() =~= prev);
        }
        k = k + 1;
        proof {
            assert(d@.subrange(pos + 2, next as int) =~= d@.subrange(pos + 2, cur as int)
                + d@.subrange(cur as int, next as int));
        }
        cur = next;
    }
    proof {
        assert(d@.subrange(pos as int, cur as int) =~= codec::enc_u16(count) + enc_sigs(v@));
    }
    Ok((v, cur))
}


/// The concatenated encodings of a run of short channel identifiers.
pub open spec fn enc_scids(items: Seq<ShortChannelId>) -> Seq<u8>
    decreases items.len(),
{
    if items.len() == 0 {
        Seq::empty()
    } else {
        enc_scids(items.drop_last()) + items.last().enc()
    }
}

/// Every identifier in the run fits its 24-bit wire fields.
pub open spec fn wf_scids(items: Seq<ShortChannelId>) -> bool {
    forall|i: int| 0 <= i < items.len() ==> items[i].wf()
}

/// Appends a 16-bit count and then each short channel identifier.
pub fn write_scids(items: &Vec<ShortChannelId>, out: &mut Vec<u8>)
    requires
        items@.len() <= 0xFFFF,
        wf_scids(items@),
    ensures
        final(out)@ == old(out)@ + codec::enc_u16(items@.len() as u16) + enc_scids(items@),
{
    codec::write_u16(items.len() as u16, out);
    let mut i: usize = 0;
    while i < items.len()
        invariant
            i <= items@.len(),
            items@.len() <= 0xFFFF,
            wf_scids(items@),
            out@ == old(out)@ + codec::enc_u16(items@.len() as u16) + enc_scids(
                items@.take(i as int),
            ),
        decreases items@.len() - i,
    {
        items[i].lightning_encode(out);
        i = i + 1;
        proof {
            assert(items@.take(i as int).drop_last() =~= items@.take(i - 1));
            assert(out@ =~= old(out)@ + codec::enc_u16(items@.len() as u16) + enc_scids(
                items@.take(i as int),
            ));
        }
    }
    proof {
        assert(items@.take(items@.len() as int) =~= items@);
    }
}

/// Reads a 16-bit count and then that many short channel identifiers.
pub fn read_scids(d: &[u8], pos: usize) -> (r: Result<(Vec<ShortChannelId>, usize), codec::Error>)
    ensures
        match r {
            Ok((v, end)) => v@.len() <= 0xFFFF && wf_scids(v@) && pos <= end <= d@.len()
                && d@.subrange(pos as int, end as int) == codec::enc_u16(v@.len() as u16)
                + enc_scids(v@) && v@.len() == codec::dec_u16(d@.subrange(pos as int, pos + 2)) as int
                && end == pos + 2 + 8 * v@.len(),
            Err(e) => e == codec::Error::Io && (d@.len() < pos + 2 || d@.len() < pos + 2 + 8
                * codec::dec_u16(d@.subrange(pos as int, pos + 2)) as int),
        },
{
    let (count, mut cur) = match codec::read_u16(d, pos) {
        Ok(x) => x,
        Err(e) => {
            return Err(e);
        },
    };
    let mut v: Vec<ShortChannelId> = Vec::new();
    let mut k: usize = 0;
    while k < count as usize
        invariant
            k <= count as usize,
            v@.len() == k,
            wf_scids(v@),
            pos + 2 <= cur <= d@.len(),
            cur == pos + 2 + 8 * k,
            count == codec::dec_u16(d@.subrange(pos as int, pos + 2)),
            d@.subrange(pos + 2, cur as int) == enc_scids(v@),
            d@.subrange(pos as int, pos + 2) == codec::enc_u16(count),
        decreases count as usize - k,
    {
        let (item, next) = match ShortChannelId::lightning_decode(d, cur) {
            Ok(x) => x,
            Err(e) => {
                return Err(e);
            },
        };
        let ghost prev = v@;
        v.push(item);
        proof {
            assert(v@.drop_last() =~= prev);
        }
        k = k + 1;
        proof {
            assert(d@.subrange(pos + 2, next as int) =~= d@.subrange(pos + 2, cur as int)
                + d@.subrange(cur as int, next as int));
        }
        cur = next;
    }
    proof {
        assert(d@.subrange(pos as int, cur as int) =~= codec::enc_u16(count) + enc_scids(v@));
    }
    Ok((v, cur))
}

/// The concatenated encodings of a run of asset identifiers.
pub open spec fn enc_assets(items: Seq<AssetId>) -> Seq<u8>
    decreases items.len(),
{
    if items.len() == 0 {
        Seq::empty()
    } else {
        enc_assets(items.drop_last()) + items.last().enc()
    }
}

/// Every identifier in the run holds 32 bytes.
pub open spec fn wf_assets(items: Seq<AssetId>) -> bool {
    forall|i: int| 0 <= i < items.len() ==> items[i].wf()
}

/// Appends a 16-bit count and then each asset identifier.
pub fn write_assets(items: &Vec<AssetId>, out: &mut Vec<u8>)
    requires
        items@.len() <= 0xFFFF,
        wf_assets(items@),
    ensures
        final(out)@ == old(out)@ + codec::enc_u16(items@.len() as u16) + enc_assets(items@),
{
    codec::write_u16(items.len() as u16, out);
    let mut i: usize = 0;
    while i < items.len()
        invariant
            i <= items@.len(),
            items@.len() <= 0xFFFF,
            wf_assets(items@),
            out@ == old(out)@ + codec::enc_u16(items@.len() as u16) + enc_assets(
                items@.take(i as int),
            ),
        decreases items@.len() - i,
    {
        items[i].lightning_encode(out);
        i = i + 1;
        proof {
            assert(items@.take(i as int).drop_last() =~= items@.take(i - 1));
            assert(out@ =~= old(out)@ + codec::enc_u16(items@.len() as u16) + enc_assets(
                items@.take(i as int),
            ));
        }
    }
    proof {
        assert(items@.take(items@.len() as int) =~= items@);
    }
}

/// Reads a 16-bit count and then that many asset identifiers.
pub fn read_assets(d: &[u8], pos: usize) -> (r: Result<(Vec<AssetId>, usize), codec::Error>)
    ensures
        match r {
            Ok((v, end)) => v@.len() <= 0xFFFF && wf_assets(v@) && pos <= end <= d@.len()
                && d@.subrange(pos as int, end as int) == codec::enc_u16(v@.len() as u16)
                + enc_assets(v@) && v@.len() == codec::dec_u16(d@.subrange(pos as int, pos + 2)) as int
                && end == pos + 2 + 32 * v@.len(),
            Err(e) => e == codec::Error::Io && (d@.len() < pos + 2 || d@.len() < pos + 2 + 32
                * codec::dec_u16(d@.subrange(pos as int, pos + 2)) as int),
        },
{
    let (count, mut cur) = match codec::read_u16(d, pos) {
        Ok(x) => x,
        Err(e) => {
            return Err(e);
        },
    };
    let mut v: Vec<AssetId> = Vec::new();
    let mut k: usize = 0;
    while k < count as usize
        invariant
            k <= count as usize,
            v@.len() == k,
            wf_assets(v@),
            pos + 2 <= cur <= d@.len(),
            cur == pos + 2 + 32 * k,
            count == codec::dec_u16(d@.subrange(pos as int, pos + 2)),
            d@.subrange(pos + 2, cur as int) == enc_assets(v@),
            d@.subrange(pos as int, pos + 2) == codec::enc_u16(count),
        decreases count as usize - k,
    {
        let (item, next) = match Slice32::lightning_decode(d, cur) {
            Ok(x) => x,
            Err(e) => {
                return Err(e);
            },
        };
        let ghost prev = v@;
        v.push(item);
        proof {
            assert(v@.drop_last() =~= prev);
        }
        k = k + 1;
        proof {
            assert(d@.subrange(pos + 2, next as int) =~= d@.subrange(pos + 2, cur as int)
                + d@.subrange(cur as int, next as int));
        }
        cur = next;
    }
    proof {
        assert(d@.subrange(pos as int, cur as int) =~= codec::enc_u16(count) + enc_assets(v@));
    }
    Ok((v, cur))
}

/// Reveals the features supported or required by this node; the first message after authentication.
#[derive(Clone, Debug, PartialEq, Eq)]
pub struct Init {
    pub global_features: Features,
    pub local_features: Features,
    pub assets: Vec<AssetId>,
}

/// The position one past a well-formed `Init` body starting at `pos` in
/// `d`, or a negative value when no well-formed body starts there. Success
/// of the decoder is owed exactly when this is non-negative.
#[verifier::opaque]
pub open spec fn init_parse_end(d: Seq<u8>, pos: int) -> int {
    if pos + 2 > d.len() {
        -1
    } else {
        let n1 = codec::dec_u16(d.subrange(pos, pos + 2)) as int;
        let o1 = pos + 2 + n1;
        if o1 > d.len() {
            -1
        } else if n1 > 0 && d[pos + 2] == 0 {
            -1
        } else if o1 + 2 > d.len() {
            -1
        } else {
            let n2 = codec::dec_u16(d.subrange(o1, o1 + 2)) as int;
            let o2 = o1 + 2 + n2;
            if o2 > d.len() {
                -1
            } else if n2 > 0 && d[o1 + 2] == 0 {
                -1
            } else if o2 + 2 > d.len() {
                -1
            } else {
                let n3 = codec::dec_u16(d.subrange(o2, o2 + 2)) as int;
                let o3 = o2 + 2 + 32 * n3;
                if o3 > d.len() {
                    -1
                } else if !assets_region_distinct(d, o2 + 2, n3) {
                    -1
                } else {
                    o3
                }
            }
        }
    }
}

impl Init {
    /// Every field fits its wire layout, and the asset identifiers form a
    /// set: no two carry the same bytes.
    pub open spec fn wf(&self) -> bool {
        &&& self.global_features.wf()
        &&& self.local_features.wf()
        &&& self.assets@.len() <= 0xFFFF && wf_assets(self.assets@)
        &&& assets_distinct_spec(self.assets@)
    }

    /// The wire encoding: the fields in declaration order.
    pub open spec fn enc(&self) -> Seq<u8> {
        self.global_features.enc() + self.local_features.enc() + (codec::enc_u16(self.assets@.len() as u16) + enc_assets(self.assets@))
    }

    /// Appends the encoded message body to the sink.
    pub fn lightning_encode(&self, out: &mut Vec<u8>) -> (r: Result<usize, codec::Error>)
        requires
            self.wf(),
        ensures
            r matches Ok(n) && n == self.enc().len() && final(out)@ == old(out)@ + self.enc(),
    {
        let start = out.len();
        match self.global_features.lightning_encode(out) {
            Ok(_) => (),
            Err(_) => {
                proof {
                    assert(false);
                }
            },
        }
        match self.local_features.lightning_encode(out) {
            Ok(_) => (),
            Err(_) => {
                proof {
                    assert(false);
                }
            },
        }
        write_assets(&self.assets, out);
        proof {
            assert(out@ =~= old(out)@ + self.enc());
        }
        Ok(out.len() - start)
    }

    /// Reads an encoded message body.
    pub fn lightning_decode(d: &[u8], pos: usize) -> (r: Result<(Init, usize), codec::Error>)
        ensures
            match r {
                Ok((v, end)) => v.wf() && pos <= end <= d@.len() && v.enc() == d@.subrange(
                    pos as int,
                    end as int,
                ) && end == init_parse_end(d@, pos as int),
                Err(e) => (e == codec::Error::Io || e == codec::Error::DataIntegrityError)
                    && init_parse_end(d@, pos as int) < 0,
            },
    {
        proof {
            reveal(init_parse_end);
        }
        let (global_features, p1) = match Features::lightning_decode(d, pos) {
            Ok(x) => x,
            Err(e) => {
                return Err(e);
            },
        };
        let (local_features, p2) = match Features::lightning_decode(d, p1) {
            Ok(x) => x,
            Err(e) => {
                return Err(e);
            },
        };
        let (assets, end) = match read_assets(d, p2) {
            Ok(x) => x,
            Err(e) => {
                return Err(e);
            },
        };
        proof {
            reveal(codec::enc_u16);
            lemma_enc_assets_len(assets@);
            assert(d@.subrange(p2 + 2, end as int) =~= d@.subrange(p2 as int, end as int).subrange(
                2,
                (end - p2) as int,
            ));
            assert((codec::enc_u16(assets@.len() as u16) + enc_assets(assets@)).subrange(
                2,
                (end - p2) as int,
            ) =~= enc_assets(assets@));
            assert(d@.subrange(p2 + 2, end as int) == enc_assets(assets@));
            assert forall|i: int| 0 <= i < assets@.len() implies #[trigger] asset_record(
                d@,
                p2 + 2,
                i,
            ) == assets@[i].bytes@ by {
                lemma_enc_assets_index(assets@, i);
                assert(d@.subrange(p2 + 2 + 32 * i, p2 + 2 + 32 * i + 32) =~= enc_assets(
                    assets@,
                ).subrange(32 * i, 32 * i + 32));
            }
            assert(assets_region_distinct(d@, p2 + 2, assets@.len() as int)
                <==> assets_distinct_spec(assets@)) by {
                if assets_distinct_spec(assets@) {
                    assert forall|i: int, j: int|
                        0 <= i < j < assets@.len() implies #[trigger] asset_record(d@, p2 + 2, i)
                        != #[trigger] asset_record(d@, p2 + 2, j) by {
                        assert(asset_record(d@, p2 + 2, i) == assets@[i].bytes@);
                        assert(asset_record(d@, p2 + 2, j) == assets@[j].bytes@);
                        assert(assets@[i].bytes@ != assets@[j].bytes@);
                    }
                }
                if assets_region_distinct(d@, p2 + 2, assets@.len() as int) {
                    assert forall|i: int, j: int|
                        0 <= i < j < assets@.len() implies #[trigger] assets@[i].bytes@
                        != #[trigger] assets@[j].bytes@ by {
                        assert(asset_record(d@, p2 + 2, i) != asset_record(d@, p2 + 2, j));
                        assert(asset_record(d@, p2 + 2, i) == assets@[i].bytes@);
                        assert(asset_record(d@, p2 + 2, j) == assets@[j].bytes@);
                    }
                }
            }
        }
        if !assets_distinct(&assets) {
            return Err(codec::Error::DataIntegrityError);
        }
        let v = Init { global_features, local_features, assets };
        proof {
            assert(d@.subrange(pos as int, end as int) =~= d@.subrange(pos as int, p1 as int) + d@.subrange(p1 as int, p2 as int) + d@.subrange(p2 as int, end as int));
        }
        Ok((v, end))
    }
}


/// Keeps a long-lived connection alive and obfuscates traffic patterns.
#[derive(Clone, Debug, PartialEq, Eq)]
pub struct Ping {
    pub ignored: Vec<u8>,
    pub pong_size: u16,
}

/// The position one past a well-formed `Ping` body starting at `pos` in
/// `d`, or a negative value when no well-formed body starts there. Success
/// of the decoder is owed exactly when this is non-negative.
#[verifier::opaque]
pub open spec fn ping_parse_end(d: Seq<u8>, pos: int) -> int {
    if pos + 2 > d.len() {
        -1
    } else {
        let n1 = codec::dec_u16(d.subrange(pos, pos + 2)) as int;
        let o1 = pos + 2 + n1;
        if o1 > d.len() {
            -1
        } else if o1 + 2 > d.len() {
            -1
        } else {
            o1 + 2
        }
    }
}

impl Ping {
    /// Every field fits its wire layout.
    pub open spec fn wf(&self) -> bool {
        self.ignored@.len() <= 0xFFFF
    }

    /// The wire encoding: the fields in declaration order.
    pub open spec fn enc(&self) -> Seq<u8> {
        codec::enc_bytes16(self.ignored@) + codec::enc_u16(self.pong_size)
    }

    /// Appends the encoded message body to the sink.
    pub fn lightning_encode(&self, out: &mut Vec<u8>) -> (r: Result<usize, codec::Error>)
        requires
            self.wf(),
        ensures
            r matches Ok(n) && n == self.enc().len() && final(out)@ == old(out)@ + self.enc(),
    {
        let start = out.len();
        match codec::write_bytes16(self.ignored.as_slice(), out) {
            Ok(_) => (),
            Err(_) => {
                proof {
                    assert(false);
                }
            },
        }
        codec::write_u16(self.pong_size, out);
        proof {
            assert(out@ =~= old(out)@ + self.enc());
        }
        Ok(out.len() - start)
    }

    /// Reads an encoded message body.
    pub fn lightning_decode(d: &[u8], pos: usize) -> (r: Result<(Ping, usize), codec::Error>)
        ensures
            match r {
                Ok((v, end)) => v.wf() && pos <= end <= d@.len() && v.enc() == d@.subrange(
                    pos as int,
                    end as int,
                ) && end == ping_parse_end(d@, pos as int),
                Err(e) => (e == codec::Error::Io || e == codec::Error::DataIntegrityError)
                    && ping_parse_end(d@, pos as int) < 0,
            },
    {
        proof {
            reveal(ping_parse_end);
        }
        let (ignored, p1) = match codec::read_bytes16(d, pos) {
            Ok(x) => x,
            Err(e) => {
                return Err(e);
            },
        };
        let (pong_size, end) = match codec::read_u16(d, p1) {
            Ok(x) => x,
            Err(e) => {
                return Err(e);
            },
        };
        let v = Ping { ignored, pong_size };
        proof {
            assert(d@.subrange(pos as int, end as int) =~= d@.subrange(pos as int, p1 as int) + d@.subrange(p1 as int, end as int));
        }
        Ok((v, end))
    }
}


/// Tells the peer that something is incorrect, for one channel or for all of them.
#[derive(Clone, Debug, PartialEq, Eq)]
pub struct Error {
    pub channel_id: Option<ChannelId>,
    pub data: Vec<u8>,
}

/// The position one past a well-formed `Error` body starting at `pos` in
/// `d`, or a negative value when no well-formed body starts there. Success
/// of the decoder is owed exactly when this is non-negative.
#[verifier::opaque]
pub open spec fn error_parse_end(d: Seq<u8>, pos: int) -> int {
    if pos + 32 + 2 > d.len() {
        -1
    } else {
        let n1 = codec::dec_u16(d.subrange(pos + 32, pos + 32 + 2)) as int;
        let o1 = pos + 32 + 2 + n1;
        if o1 > d.len() {
            -1
        } else {
            o1
        }
    }
}

impl Error {
    /// Every field fits its wire layout.
    pub open spec fn wf(&self) -> bool {
        &&& (match self.channel_id { Some(id) => id.wf() && id.id.bytes@ != zeros(32), None => true })
        &&& self.data@.len() <= 0xFFFF
    }

    /// The wire encoding: the fields in declaration order.
    pub open spec fn enc(&self) -> Seq<u8> {
        (match self.channel_id { None => zeros(32), Some(id) => id.enc() }) + codec::enc_bytes16(self.data@)
    }

    /// Appends the encoded message body to the sink.
    pub fn lightning_encode(&self, out: &mut Vec<u8>) -> (r: Result<usize, codec::Error>)
        requires
            self.wf(),
        ensures
            r matches Ok(n) && n == self.enc().len() && final(out)@ == old(out)@ + self.enc(),
    {
        let start = out.len();
        match &self.channel_id {
            Some(id) => {
                id.lightning_encode(out);
            },
            None => {
                let z = zero_bytes(32);
                codec::append_bytes(z.as_slice(), out);
                proof {
                    assert(z@ =~= zeros(32));
                }
            },
        }
        match codec::write_bytes16(self.data.as_slice(), out) {
            Ok(_) => (),
            Err(_) => {
                proof {
                    assert(false);
                }
            },
        }
        proof {
            assert(out@ =~= old(out)@ + self.enc());
        }
        Ok(out.len() - start)
    }

    /// Reads an encoded message body.
    pub fn lightning_decode(d: &[u8], pos: usize) -> (r: Result<(Error, usize), codec::Error>)
        ensures
            match r {
                Ok((v, end)) => v.wf() && pos <= end <= d@.len() && v.enc() == d@.subrange(
                    pos as int,
                    end as int,
                ) && end == error_parse_end(d@, pos as int),
                Err(e) => (e == codec::Error::Io || e == codec::Error::DataIntegrityError)
                    && error_parse_end(d@, pos as int) < 0,
            },
    {
        proof {
            reveal(error_parse_end);
        }
        let (channel_id, p1) = match codec::read_exact(d, pos, 32) {
            Ok((bytes, e)) => {
                if is_all_zero(bytes.as_slice()) {
                    (None, e)
                } else {
                    (Some(ChannelId { id: Slice32 { bytes } }), e)
                }
            },
            Err(e) => {
                return Err(e);
            },
        };
        let (data, end) = match codec::read_bytes16(d, p1) {
            Ok(x) => x,
            Err(e) => {
                return Err(e);
            },
        };
        let v = Error { channel_id, data };
        proof {
            assert(d@.subrange(pos as int, end as int) =~= d@.subrange(pos as int, p1 as int) + d@.subrange(p1 as int, end as int));
        }
        Ok((v, end))
    }
}


/// Proposes a new channel to a peer.
#[derive(Clone, Debug, PartialEq, Eq)]
pub struct OpenChannel {
    pub chain_hash: AssetId,
    pub temporary_channel_id: TempChannelId,
    pub funding_satoshis: u64,
    pub push_msat: u64,
    pub dust_limit_satoshis: u64,
    pub max_htlc_value_in_flight_msat: u64,
    pub channel_reserve_satoshis: u64,
    pub htlc_minimum_msat: u64,
    pub feerate_per_kw: u32,
    pub to_self_delay: u16,
    pub max_accepted_htlcs: u16,
    pub funding_pubkey: PublicKey,
    pub revocation_basepoint: PublicKey,
    pub payment_point: PublicKey,
    pub delayed_payment_basepoint: PublicKey,
    pub htlc_basepoint: PublicKey,
    pub first_per_commitment_point: PublicKey,
    pub channel_flags: u8,
}

/// The position one past a well-formed `OpenChannel` body starting at `pos` in
/// `d`, or a negative value when no well-formed body starts there. Success
/// of the decoder is owed exactly when this is non-negative.
#[verifier::opaque]
pub open spec fn open_channel_parse_end(d: Seq<u8>, pos: int) -> int {
    if pos + 153 > d.len() {
        -1
    } else if !crypto::is_ec_point(d.subrange(pos + 120, pos + 153)) {
        -1
    } else if pos + 186 > d.len() {
        -1
    } else if !crypto::is_ec_point(d.subrange(pos + 153, pos + 186)) {
        -1
    } else if pos + 219 > d.len() {
        -1
    } else if !crypto::is_ec_point(d.subrange(pos + 186, pos + 219)) {
        -1
    } else if pos + 252 > d.len() {
        -1
    } else if !crypto::is_ec_point(d.subrange(pos + 219, pos + 252)) {
        -1
    } else if pos + 285 > d.len() {
        -1
    } else if !crypto::is_ec_point(d.subrange(pos + 252, pos + 285)) {
        -1
    } else if pos + 318 > d.len() {
        -1
    } else if !crypto::is_ec_point(d.subrange(pos + 285, pos + 318)) {
        -1
    } else if pos + 319 > d.len() {
        -1
    } else {
        pos + 319
    }
}

impl OpenChannel {
    /// Every field fits its wire layout.
    pub open spec fn wf(&self) -> bool {
        &&& self.chain_hash.wf()
        &&& self.temporary_channel_id.wf()
        &&& self.funding_pubkey.wf()
        &&& self.revocation_basepoint.wf()
        &&& self.payment_point.wf()
        &&& self.delayed_payment_basepoint.wf()
        &&& self.htlc_basepoint.wf()
        &&& self.first_per_commitment_point.wf()
    }

    /// The encoded channel identifiers: the chain hash and the temporary id.
    pub open spec fn enc_head(&self) -> Seq<u8> {
        self.chain_hash.enc() + self.temporary_channel_id.enc()
    }

    /// The encoded amounts and bounds carried as 64-bit fields.
    pub open spec fn enc_amounts(&self) -> Seq<u8> {
        codec::enc_u64(self.funding_satoshis) + codec::enc_u64(self.push_msat) + codec::enc_u64(self.dust_limit_satoshis) + codec::enc_u64(self.max_htlc_value_in_flight_msat) + codec::enc_u64(self.channel_reserve_satoshis) + codec::enc_u64(self.htlc_minimum_msat)
    }

    /// The encoded fee rate, delay and HTLC count.
    pub open spec fn enc_terms(&self) -> Seq<u8> {
        codec::enc_u32(self.feerate_per_kw) + codec::enc_u16(self.to_self_delay) + codec::enc_u16(self.max_accepted_htlcs)
    }

    /// The encoded negotiation parameters: every field before the keys.
    pub open spec fn enc_params(&self) -> Seq<u8> {
        self.enc_head() + self.enc_amounts() + self.enc_terms()
    }

    /// The encoded basepoints and the trailing channel flags.
    pub open spec fn enc_keys(&self) -> Seq<u8> {
        self.funding_pubkey.enc() + self.revocation_basepoint.enc() + self.payment_point.enc() + self.delayed_payment_basepoint.enc() + self.htlc_basepoint.enc() + self.first_per_commitment_point.enc() + codec::enc_u8(self.channel_flags)
    }

    /// The wire encoding: the fields in declaration order.
    pub open spec fn enc(&self) -> Seq<u8> {
        self.enc_params() + self.enc_keys()
    }

    /// Appends the encoded message body to the sink.
    #[verifier::rlimit(60)]
    pub fn lightning_encode(&self, out: &mut Vec<u8>) -> (r: Result<usize, codec::Error>)
        requires
            self.wf(),
        ensures
            r matches Ok(n) && n == self.enc().len() && final(out)@ == old(out)@ + self.enc(),
    {
        let start = out.len();
        self.chain_hash.lightning_encode(out);
        self.temporary_channel_id.lightning_encode(out);
        codec::write_u64(self.funding_satoshis, out);
        codec::write_u64(self.push_msat, out);
        codec::write_u64(self.dust_limit_satoshis, out);
        codec::write_u64(self.max_htlc_value_in_flight_msat, out);
        codec::write_u64(self.channel_reserve_satoshis, out);
        codec::write_u64(self.htlc_minimum_msat, out);
        codec::write_u32(self.feerate_per_kw, out);
        codec::write_u16(self.to_self_delay, out);
        codec::write_u16(self.max_accepted_htlcs, out);
        self.funding_pubkey.lightning_encode(out);
        self.revocation_basepoint.lightning_encode(out);
        self.payment_point.lightning_encode(out);
        self.delayed_payment_basepoint.lightning_encode(out);
        self.htlc_basepoint.lightning_encode(out);
        self.first_per_commitment_point.lightning_encode(out);
        codec::write_u8(self.channel_flags, out);
        proof {
            assert(out@ =~= old(out)@ + self.enc());
        }
        Ok(out.len() - start)
    }

    /// Reads the negotiation parameters, filling the key fields with
    /// placeholders for the caller to replace.
    #[verifier::rlimit(100)]
    fn decode_params(d: &[u8], pos: usize) -> (r: Result<(OpenChannel, usize), codec::Error>)
        ensures
            match r {
                Ok((v, end)) => end == pos + 120 && end <= d@.len() && v.enc_params()
                    == d@.subrange(pos as int, end as int) && v.chain_hash.wf()
                    && v.temporary_channel_id.wf(),
                Err(e) => (e == codec::Error::Io || e == codec::Error::DataIntegrityError)
                    && open_channel_parse_end(d@, pos as int) < 0,
            },
    {
        proof {
            reveal(open_channel_parse_end);
        }
        let (chain_hash, p1) = match Slice32::lightning_decode(d, pos) {
            Ok(x) => x,
            Err(e) => {
                return Err(e);
            },
        };
        let (temporary_channel_id, p2) = match TempChannelId::lightning_decode(d, p1) {
            Ok(x) => x,
            Err(e) => {
                return Err(e);
            },
        };
        let (funding_satoshis, p3) = match codec::read_u64(d, p2) {
            Ok(x) => x,
            Err(e) => {
                return Err(e);
            },
        };
        let (push_msat, p4) = match codec::read_u64(d, p3) {
            Ok(x) => x,
            Err(e) => {
                return Err(e);
            },
        };
        let (dust_limit_satoshis, p5) = match codec::read_u64(d, p4) {
            Ok(x) => x,
            Err(e) => {
                return Err(e);
            },
        };
        let (max_htlc_value_in_flight_msat, p6) = match codec::read_u64(d, p5) {
            Ok(x) => x,
            Err(e) => {
                return Err(e);
            },
        };
        let (channel_reserve_satoshis, p7) = match codec::read_u64(d, p6) {
            Ok(x) => x,
            Err(e) => {
                return Err(e);
            },
        };
        let (htlc_minimum_msat, p8) = match codec::read_u64(d, p7) {
            Ok(x) => x,
            Err(e) => {
                return Err(e);
            },
        };
        let (feerate_per_kw, p9) = match codec::read_u32(d, p8) {
            Ok(x) => x,
            Err(e) => {
                return Err(e);
            },
        };
        let (to_self_delay, p10) = match codec::read_u16(d, p9) {
            Ok(x) => x,
            Err(e) => {
                return Err(e);
            },
        };
        let (max_accepted_htlcs, end) = match codec::read_u16(d, p10) {
            Ok(x) => x,
            Err(e) => {
                return Err(e);
            },
        };
        let v = OpenChannel {
            chain_hash,
            temporary_channel_id,
            funding_satoshis,
            push_msat,
            dust_limit_satoshis,
            max_htlc_value_in_flight_msat,
            channel_reserve_satoshis,
            htlc_minimum_msat,
            feerate_per_kw,
            to_self_delay,
            max_accepted_htlcs,
            funding_pubkey: PublicKey { bytes: zero_bytes(33) },
            revocation_basepoint: PublicKey { bytes: zero_bytes(33) },
            payment_point: PublicKey { bytes: zero_bytes(33) },
            delayed_payment_basepoint: PublicKey { bytes: zero_bytes(33) },
            htlc_basepoint: PublicKey { bytes: zero_bytes(33) },
            first_per_commitment_point: PublicKey { bytes: zero_bytes(33) },
            channel_flags: 0,
        };
        proof {
            assert(d@.subrange(pos as int, p2 as int) =~= d@.subrange(pos as int, p1 as int)
                + d@.subrange(p1 as int, p2 as int));
            assert(d@.subrange(p2 as int, p8 as int) =~= d@.subrange(p2 as int, p3 as int)
                + d@.subrange(p3 as int, p4 as int) + d@.subrange(p4 as int, p5 as int)
                + d@.subrange(p5 as int, p6 as int) + d@.subrange(p6 as int, p7 as int)
                + d@.subrange(p7 as int, p8 as int));
            assert(d@.subrange(p8 as int, end as int) =~= d@.subrange(p8 as int, p9 as int)
                + d@.subrange(p9 as int, p10 as int) + d@.subrange(p10 as int, end as int));
            assert(d@.subrange(pos as int, end as int) =~= d@.subrange(pos as int, p2 as int)
                + d@.subrange(p2 as int, p8 as int) + d@.subrange(p8 as int, end as int));
        }
        Ok((v, end))
    }

    /// Reads an encoded message body.
    #[verifier::rlimit(100)]
    pub fn lightning_decode(d: &[u8], pos: usize) -> (r: Result<(OpenChannel, usize), codec::Error>)
        ensures
            match r {
                Ok((v, end)) => v.wf() && pos <= end <= d@.len() && v.enc() == d@.subrange(
                    pos as int,
                    end as int,
                ) && end == open_channel_parse_end(d@, pos as int),
                Err(e) => (e == codec::Error::Io || e == codec::Error::DataIntegrityError)
                    && open_channel_parse_end(d@, pos as int) < 0,
            },
    {
        proof {
            reveal(open_channel_parse_end);
        }
        let (params, p11) = match OpenChannel::decode_params(d, pos) {
            Ok(x) => x,
            Err(e) => {
                return Err(e);
            },
        };
        let (funding_pubkey, p12) = match PublicKey::lightning_decode(d, p11) {
            Ok(x) => x,
            Err(e) => {
                return Err(e);
            },
        };
        let (revocation_basepoint, p13) = match PublicKey::lightning_decode(d, p12) {
            Ok(x) => x,
            Err(e) => {
                return Err(e);
            },
        };
        let (payment_point, p14) = match PublicKey::lightning_decode(d, p13) {
            Ok(x) => x,
            Err(e) => {
                return Err(e);
            },
        };
        let (delayed_payment_basepoint, p15) = match PublicKey::lightning_decode(d, p14) {
            Ok(x) => x,
            Err(e) => {
                return Err(e);
            },
        };
        let (htlc_basepoint, p16) = match PublicKey::lightning_decode(d, p15) {
            Ok(x) => x,
            Err(e) => {
                return Err(e);
            },
        };
        let (first_per_commitment_point, p17) = match PublicKey::lightning_decode(d, p16) {
            Ok(x) => x,
            Err(e) => {
                return Err(e);
            },
        };
        let (channel_flags, end) = match codec::read_u8(d, p17) {
            Ok(x) => x,
            Err(e) => {
                return Err(e);
            },
        };
        let v = OpenChannel {
            funding_pubkey,
            revocation_basepoint,
            payment_point,
            delayed_payment_basepoint,
            htlc_basepoint,
            first_per_commitment_point,
            channel_flags,
            ..params
        };
        proof {
            assert(v.enc_params() == params.enc_params());
            assert(d@.subrange(p11 as int, end as int) =~= d@.subrange(p11 as int, p12 as int)
                + d@.subrange(p12 as int, p13 as int) + d@.subrange(p13 as int, p14 as int)
                + d@.subrange(p14 as int, p15 as int) + d@.subrange(p15 as int, p16 as int)
                + d@.subrange(p16 as int, p17 as int) + d@.subrange(p17 as int, end as int));
            assert(d@.subrange(pos as int, end as int) =~= d@.subrange(pos as int, p11 as int)
                + d@.subrange(p11 as int, end as int));
        }
        Ok((v, end))
    }
}

/// Accepts a proposed channel.
#[derive(Clone, Debug, PartialEq, Eq)]
pub struct AcceptChannel {
    pub temporary_channel_id: TempChannelId,
    pub dust_limit_satoshis: u64,
    pub max_htlc_value_in_flight_msat: u64,
    pub channel_reserve_satoshis: u64,
    pub htlc_minimum_msat: u64,
    pub minimum_depth: u32,
    pub to_self_delay: u16,
    pub max_accepted_htlcs: u16,
    pub funding_pubkey: PublicKey,
    pub revocation_basepoint: PublicKey,
    pub payment_point: PublicKey,
    pub delayed_payment_basepoint: PublicKey,
    pub htlc_basepoint: PublicKey,
    pub first_per_commitment_point: PublicKey,
}

/// The position one past a well-formed `AcceptChannel` body starting at `pos` in
/// `d`, or a negative value when no well-formed body starts there. Success
/// of the decoder is owed exactly when this is non-negative.
#[verifier::opaque]
pub open spec fn accept_channel_parse_end(d: Seq<u8>, pos: int) -> int {
    if pos + 105 > d.len() {
        -1
    } else if !crypto::is_ec_point(d.subrange(pos + 72, pos + 105)) {
        -1
    } else if pos + 138 > d.len() {
        -1
    } else if !crypto::is_ec_point(d.subrange(pos + 105, pos + 138)) {
        -1
    } else if pos + 171 > d.len() {
        -1
    } else if !crypto::is_ec_point(d.subrange(pos + 138, pos + 171)) {
        -1
    } else if pos + 204 > d.len() {
        -1
    } else if !crypto::is_ec_point(d.subrange(pos + 171, pos + 204)) {
        -1
    } else if pos + 237 > d.len() {
        -1
    } else if !crypto::is_ec_point(d.subrange(pos + 204, pos + 237)) {
        -1
    } else if pos + 270 > d.len() {
        -1
    } else if !crypto::is_ec_point(d.subrange(pos + 237, pos + 270)) {
        -1
    } else if pos + 270 > d.len() {
        -1
    } else {
        pos + 270
    }
}

impl AcceptChannel {
    /// Every field fits its wire layout.
    pub open spec fn wf(&self) -> bool {
        &&& self.temporary_channel_id.wf()
        &&& self.funding_pubkey.wf()
        &&& self.revocation_basepoint.wf()
        &&& self.payment_point.wf()
        &&& self.delayed_payment_basepoint.wf()
        &&& self.htlc_basepoint.wf()
        &&& self.first_per_commitment_point.wf()
    }

    /// The wire encoding: the fields in declaration order.
    pub open spec fn enc(&self) -> Seq<u8> {
        self.temporary_channel_id.enc() + codec::enc_u64(self.dust_limit_satoshis) + codec::enc_u64(self.max_htlc_value_in_flight_msat) + codec::enc_u64(self.channel_reserve_satoshis) + codec::enc_u64(self.htlc_minimum_msat) + codec::enc_u32(self.minimum_depth) + codec::enc_u16(self.to_self_delay) + codec::enc_u16(self.max_accepted_htlcs) + self.funding_pubkey.enc() + self.revocation_basepoint.enc() + self.payment_point.enc() + self.delayed_payment_basepoint.enc() + self.htlc_basepoint.enc() + self.first_per_commitment_point.enc()
    }

    /// Appends the encoded message body to the sink.
    #[verifier::rlimit(60)]
    pub fn lightning_encode(&self, out: &mut Vec<u8>) -> (r: Result<usize, codec::Error>)
        requires
            self.wf(),
        ensures
            r matches Ok(n) && n == self.enc().len() && final(out)@ == old(out)@ + self.enc(),
    {
        let start = out.len();
        self.temporary_channel_id.lightning_encode(out);
        codec::write_u64(self.dust_limit_satoshis, out);
        codec::write_u64(self.max_htlc_value_in_flight_msat, out);
        codec::write_u64(self.channel_reserve_satoshis, out);
        codec::write_u64(self.htlc_minimum_msat, out);
        codec::write_u32(self.minimum_depth, out);
        codec::write_u16(self.to_self_delay, out);
        codec::write_u16(self.max_accepted_htlcs, out);
        self.funding_pubkey.lightning_encode(out);
        self.revocation_basepoint.lightning_encode(out);
        self.payment_point.lightning_encode(out);
        self.delayed_payment_basepoint.lightning_encode(out);
        self.htlc_basepoint.lightning_encode(out);
        self.first_per_commitment_point.lightning_encode(out);
        proof {
            assert(out@ =~= old(out)@ + self.enc());
        }
        Ok(out.len() - start)
    }

    /// Reads an encoded message body.
    #[verifier::rlimit(100)]
    pub fn lightning_decode(d: &[u8], pos: usize) -> (r: Result<(AcceptChannel, usize), codec::Error>)
        ensures
            match r {
                Ok((v, end)) => v.wf() && pos <= end <= d@.len() && v.enc() == d@.subrange(
                    pos as int,
                    end as int,
                ) && end == accept_channel_parse_end(d@, pos as int),
                Err(e) => (e == codec::Error::Io || e == codec::Error::DataIntegrityError)
                    && accept_channel_parse_end(d@, pos as int) < 0,
            },
    {
        proof {
            reveal(accept_channel_parse_end);
        }
        let (temporary_channel_id, p1) = match TempChannelId::lightning_decode(d, pos) {
            Ok(x) => x,
            Err(e) => {
                return Err(e);
            },
        };
        let (dust_limit_satoshis, p2) = match codec::read_u64(d, p1) {
            Ok(x) => x,
            Err(e) => {
                return Err(e);
            },
        };
        let (max_htlc_value_in_flight_msat, p3) = match codec::read_u64(d, p2) {
            Ok(x) => x,
            Err(e) => {
                return Err(e);
            },
        };
        let (channel_reserve_satoshis, p4) = match codec::read_u64(d, p3) {
            Ok(x) => x,
            Err(e) => {
                return Err(e);
            },
        };
        let (htlc_minimum_msat, p5) = match codec::read_u64(d, p4) {
            Ok(x) => x,
            Err(e) => {
                return Err(e);
            },
        };
        let (minimum_depth, p6) = match codec::read_u32(d, p5) {
            Ok(x) => x,
            Err(e) => {
                return Err(e);
            },
        };
        let (to_self_delay, p7) = match codec::read_u16(d, p6) {
            Ok(x) => x,
            Err(e) => {
                return Err(e);
            },
        };
        let (max_accepted_htlcs, p8) = match codec::read_u16(d, p7) {
            Ok(x) => x,
            Err(e) => {
                return Err(e);
            },
        };
        let (funding_pubkey, p9) = match PublicKey::lightning_decode(d, p8) {
            Ok(x) => x,
            Err(e) => {
                return Err(e);
            },
        };
        let (revocation_basepoint, p10) = match PublicKey::lightning_decode(d, p9) {
            Ok(x) => x,
            Err(e) => {
                return Err(e);
            },
        };
        let (payment_point, p11) = match PublicKey::lightning_decode(d, p10) {
            Ok(x) => x,
            Err(e) => {
                return Err(e);
            },
        };
        let (delayed_payment_basepoint, p12) = match PublicKey::lightning_decode(d, p11) {
            Ok(x) => x,
            Err(e) => {
                return Err(e);
            },
        };
        let (htlc_basepoint, p13) = match PublicKey::lightning_decode(d, p12) {
            Ok(x) => x,
            Err(e) => {
                return Err(e);
            },
        };
        let (first_per_commitment_point, end) = match PublicKey::lightning_decode(d, p13) {
            Ok(x) => x,
            Err(e) => {
                return Err(e);
            },
        };
        let v = AcceptChannel { temporary_channel_id, dust_limit_satoshis, max_htlc_value_in_flight_msat, channel_reserve_satoshis, htlc_minimum_msat, minimum_depth, to_self_delay, max_accepted_htlcs, funding_pubkey, revocation_basepoint, payment_point, delayed_payment_basepoint, htlc_basepoint, first_per_commitment_point };
        proof {
            assert(d@.subrange(pos as int, end as int) =~= d@.subrange(pos as int, p1 as int) + d@.subrange(p1 as int, p2 as int) + d@.subrange(p2 as int, p3 as int) + d@.subrange(p3 as int, p4 as int) + d@.subrange(p4 as int, p5 as int) + d@.subrange(p5 as int, p6 as int) + d@.subrange(p6 as int, p7 as int) + d@.subrange(p7 as int, p8 as int) + d@.subrange(p8 as int, p9 as int) + d@.subrange(p9 as int, p10 as int) + d@.subrange(p10 as int, p11 as int) + d@.subrange(p11 as int, p12 as int) + d@.subrange(p12 as int, p13 as int) + d@.subrange(p13 as int, end as int));
        }
        Ok((v, end))
    }
}


/// Announces the funding outpoint chosen by the channel initiator.
#[derive(Clone, Debug, PartialEq, Eq)]
pub struct FundingCreated {
    pub temporary_channel_id: TempChannelId,
    pub funding_txid: Txid,
    pub funding_output_index: u16,
    pub signature: Signature,
}

/// The position one past a well-formed `FundingCreated` body starting at `pos` in
/// `d`, or a negative value when no well-formed body starts there. Success
/// of the decoder is owed exactly when this is non-negative.
#[verifier::opaque]
pub open spec fn funding_created_parse_end(d: Seq<u8>, pos: int) -> int {
    if pos + 130 > d.len() {
        -1
    } else {
        pos + 130
    }
}

impl FundingCreated {
    /// Every field fits its wire layout.
    pub open spec fn wf(&self) -> bool {
        &&& self.temporary_channel_id.wf()
        &&& self.funding_txid.wf()
        &&& self.signature.wf()
    }

    /// The wire encoding: the fields in declaration order.
    pub open spec fn enc(&self) -> Seq<u8> {
        self.temporary_channel_id.enc() + self.funding_txid.enc() + codec::enc_u16(self.funding_output_index) + self.signature.enc()
    }

    /// Appends the encoded message body to the sink.
    pub fn lightning_encode(&self, out: &mut Vec<u8>) -> (r: Result<usize, codec::Error>)
        requires
            self.wf(),
        ensures
            r matches Ok(n) && n == self.enc().len() && final(out)@ == old(out)@ + self.enc(),
    {
        let start = out.len();
        self.temporary_channel_id.lightning_encode(out);
        self.funding_txid.lightning_encode(out);
        codec::write_u16(self.funding_output_index, out);
        self.signature.lightning_encode(out);
        proof {
            assert(out@ =~= old(out)@ + self.enc());
        }
        Ok(out.len() - start)
    }

    /// Reads an encoded message body.
    pub fn lightning_decode(d: &[u8], pos: usize) -> (r: Result<(FundingCreated, usize), codec::Error>)
        ensures
            match r {
                Ok((v, end)) => v.wf() && pos <= end <= d@.len() && v.enc() == d@.subrange(
                    pos as int,
                    end as int,
                ) && end == funding_created_parse_end(d@, pos as int),
                Err(e) => (e == codec::Error::Io || e == codec::Error::DataIntegrityError)
                    && funding_created_parse_end(d@, pos as int) < 0,
            },
    {
        proof {
            reveal(funding_created_parse_end);
        }
        let (temporary_channel_id, p1) = match TempChannelId::lightning_decode(d, pos) {
            Ok(x) => x,
            Err(e) => {
                return Err(e);
            },
        };
        let (funding_txid, p2) = match Slice32::lightning_decode(d, p1) {
            Ok(x) => x,
            Err(e) => {
                return Err(e);
            },
        };
        let (funding_output_index, p3) = match codec::read_u16(d, p2) {
            Ok(x) => x,
            Err(e) => {
                return Err(e);
            },
        };
        let (signature, end) = match Signature::lightning_decode(d, p3) {
            Ok(x) => x,
            Err(e) => {
                return Err(e);
            },
        };
        let v = FundingCreated { temporary_channel_id, funding_txid, funding_output_index, signature };
        proof {
            assert(d@.subrange(pos as int, end as int) =~= d@.subrange(pos as int, p1 as int) + d@.subrange(p1 as int, p2 as int) + d@.subrange(p2 as int, p3 as int) + d@.subrange(p3 as int, end as int));
        }
        Ok((v, end))
    }
}


/// Carries the acceptor's signature on the funding transaction.
#[derive(Clone, Debug, PartialEq, Eq)]
pub struct FundingSigned {
    pub channel_id: ChannelId,
    pub signature: Signature,
}

/// The position one past a well-formed `FundingSigned` body starting at `pos` in
/// `d`, or a negative value when no well-formed body starts there. Success
/// of the decoder is owed exactly when this is non-negative.
#[verifier::opaque]
pub open spec fn funding_signed_parse_end(d: Seq<u8>, pos: int) -> int {
    if pos + 96 > d.len() {
        -1
    } else {
        pos + 96
    }
}

impl FundingSigned {
    /// Every field fits its wire layout.
    pub open spec fn wf(&self) -> bool {
        &&& self.channel_id.wf()
        &&& self.signature.wf()
    }

    /// The wire encoding: the fields in declaration order.
    pub open spec fn enc(&self) -> Seq<u8> {
        self.channel_id.enc() + self.signature.enc()
    }

    /// Appends the encoded message body to the sink.
    pub fn lightning_encode(&self, out: &mut Vec<u8>) -> (r: Result<usize, codec::Error>)
        requires
            self.wf(),
        ensures
            r matches Ok(n) && n == self.enc().len() && final(out)@ == old(out)@ + self.enc(),
    {
        let start = out.len();
        self.channel_id.lightning_encode(out);
        self.signature.lightning_encode(out);
        proof {
            assert(out@ =~= old(out)@ + self.enc());
        }
        Ok(out.len() - start)
    }

    /// Reads an encoded message body.
    pub fn lightning_decode(d: &[u8], pos: usize) -> (r: Result<(FundingSigned, usize), codec::Error>)
        ensures
            match r {
                Ok((v, end)) => v.wf() && pos <= end <= d@.len() && v.enc() == d@.subrange(
                    pos as int,
                    end as int,
                ) && end == funding_signed_parse_end(d@, pos as int),
                Err(e) => (e == codec::Error::Io || e == codec::Error::DataIntegrityError)
                    && funding_signed_parse_end(d@, pos as int) < 0,
            },
    {
        proof {
            reveal(funding_signed_parse_end);
        }
        let (channel_id, p1) = match ChannelId::lightning_decode(d, pos) {
            Ok(x) => x,
            Err(e) => {
                return Err(e);
            },
        };
        let (signature, end) = match Signature::lightning_decode(d, p1) {
            Ok(x) => x,
            Err(e) => {
                return Err(e);
            },
        };
        let v = FundingSigned { channel_id, signature };
        proof {
            assert(d@.subrange(pos as int, end as int) =~= d@.subrange(pos as int, p1 as int) + d@.subrange(p1 as int, end as int));
        }
        Ok((v, end))
    }
}


/// Announces that the funding transaction has reached its required depth.
#[derive(Clone, Debug, PartialEq, Eq)]
pub struct FundingLocked {
    pub channel_id: ChannelId,
    pub next_per_commitment_point: PublicKey,
}

/// The position one past a well-formed `FundingLocked` body starting at `pos` in
/// `d`, or a negative value when no well-formed body starts there. Success
/// of the decoder is owed exactly when this is non-negative.
#[verifier::opaque]
pub open spec fn funding_locked_parse_end(d: Seq<u8>, pos: int) -> int {
    if pos + 65 > d.len() {
        -1
    } else if !crypto::is_ec_point(d.subrange(pos + 32, pos + 65)) {
        -1
    } else if pos + 65 > d.len() {
        -1
    } else {
        pos + 65
    }
}

impl FundingLocked {
    /// Every field fits its wire layout.
    pub open spec fn wf(&self) -> bool {
        &&& self.channel_id.wf()
        &&& self.next_per_commitment_point.wf()
    }

    /// The wire encoding: the fields in declaration order.
    pub open spec fn enc(&self) -> Seq<u8> {
        self.channel_id.enc() + self.next_per_commitment_point.enc()
    }

    /// Appends the encoded message body to the sink.
    pub fn lightning_encode(&self, out: &mut Vec<u8>) -> (r: Result<usize, codec::Error>)
        requires
            self.wf(),
        ensures
            r matches Ok(n) && n == self.enc().len() && final(out)@ == old(out)@ + self.enc(),
    {
        let start = out.len();
        self.channel_id.lightning_encode(out);
        self.next_per_commitment_point.lightning_encode(out);
        proof {
            assert(out@ =~= old(out)@ + self.enc());
        }
        Ok(out.len() - start)
    }

    /// Reads an encoded message body.
    pub fn lightning_decode(d: &[u8], pos: usize) -> (r: Result<(FundingLocked, usize), codec::Error>)
        ensures
            match r {
                Ok((v, end)) => v.wf() && pos <= end <= d@.len() && v.enc() == d@.subrange(
                    pos as int,
                    end as int,
                ) && end == funding_locked_parse_end(d@, pos as int),
                Err(e) => (e == codec::Error::Io || e == codec::Error::DataIntegrityError)
                    && funding_locked_parse_end(d@, pos as int) < 0,
            },
    {
        proof {
            reveal(funding_locked_parse_end);
        }
        let (channel_id, p1) = match ChannelId::lightning_decode(d, pos) {
            Ok(x) => x,
            Err(e) => {
                return Err(e);
            },
        };
        let (next_per_commitment_point, end) = match PublicKey::lightning_decode(d, p1) {
            Ok(x) => x,
            Err(e) => {
                return Err(e);
            },
        };
        let v = FundingLocked { channel_id, next_per_commitment_point };
        proof {
            assert(d@.subrange(pos as int, end as int) =~= d@.subrange(pos as int, p1 as int) + d@.subrange(p1 as int, end as int));
        }
        Ok((v, end))
    }
}


/// Begins a cooperative close, naming the destination of this peer's funds.
#[derive(Clone, Debug, PartialEq, Eq)]
pub struct Shutdown {
    pub channel_id: ChannelId,
    pub scriptpubkey: Script,
}

/// The position one past a well-formed `Shutdown` body starting at `pos` in
/// `d`, or a negative value when no well-formed body starts there. Success
/// of the decoder is owed exactly when this is non-negative.
#[verifier::opaque]
pub open spec fn shutdown_parse_end(d: Seq<u8>, pos: int) -> int {
    if pos + 32 + 2 > d.len() {
        -1
    } else {
        let n1 = codec::dec_u16(d.subrange(pos + 32, pos + 32 + 2)) as int;
        let o1 = pos + 32 + 2 + n1;
        if o1 > d.len() {
            -1
        } else {
            o1
        }
    }
}

impl Shutdown {
    /// Every field fits its wire layout.
    pub open spec fn wf(&self) -> bool {
        &&& self.channel_id.wf()
        &&& self.scriptpubkey.wf()
    }

    /// The wire encoding: the fields in declaration order.
    pub open spec fn enc(&self) -> Seq<u8> {
        self.channel_id.enc() + self.scriptpubkey.enc()
    }

    /// Appends the encoded message body to the sink.
    pub fn lightning_encode(&self, out: &mut Vec<u8>) -> (r: Result<usize, codec::Error>)
        requires
            self.wf(),
        ensures
            r matches Ok(n) && n == self.enc().len() && final(out)@ == old(out)@ + self.enc(),
    {
        let start = out.len();
        self.channel_id.lightning_encode(out);
        match self.scriptpubkey.lightning_encode(out) {
            Ok(_) => (),
            Err(_) => {
                proof {
                    assert(false);
                }
            },
        }
        proof {
            assert(out@ =~= old(out)@ + self.enc());
        }
        Ok(out.len() - start)
    }

    /// Reads an encoded message body.
    pub fn lightning_decode(d: &[u8], pos: usize) -> (r: Result<(Shutdown, usize), codec::Error>)
        ensures
            match r {
                Ok((v, end)) => v.wf() && pos <= end <= d@.len() && v.enc() == d@.subrange(
                    pos as int,
                    end as int,
                ) && end == shutdown_parse_end(d@, pos as int),
                Err(e) => (e == codec::Error::Io || e == codec::Error::DataIntegrityError)
                    && shutdown_parse_end(d@, pos as int) < 0,
            },
    {
        proof {
            reveal(shutdown_parse_end);
        }
        let (channel_id, p1) = match ChannelId::lightning_decode(d, pos) {
            Ok(x) => x,
            Err(e) => {
                return Err(e);
            },
        };
        let (scriptpubkey, end) = match Script::lightning_decode(d, p1) {
            Ok(x) => x,
            Err(e) => {
                return Err(e);
            },
        };
        let v = Shutdown { channel_id, scriptpubkey };
        proof {
            assert(d@.subrange(pos as int, end as int) =~= d@.subrange(pos as int, p1 as int) + d@.subrange(p1 as int, end as int));
        }
        Ok((v, end))
    }
}


/// Proposes a closing fee and signs the closing transaction.
#[derive(Clone, Debug, PartialEq, Eq)]
pub struct ClosingSigned {
    pub channel_id: ChannelId,
    pub fee_satoshis: u64,
    pub signature: Signature,
}

/// The position one past a well-formed `ClosingSigned` body starting at `pos` in
/// `d`, or a negative value when no well-formed body starts there. Success
/// of the decoder is owed exactly when this is non-negative.
#[verifier::opaque]
pub open spec fn closing_signed_parse_end(d: Seq<u8>, pos: int) -> int {
    if pos + 104 > d.len() {
        -1
    } else {
        pos + 104
    }
}

impl ClosingSigned {
    /// Every field fits its wire layout.
    pub open spec fn wf(&self) -> bool {
        &&& self.channel_id.wf()
        &&& self.signature.wf()
    }

    /// The wire encoding: the fields in declaration order.
    pub open spec fn enc(&self) -> Seq<u8> {
        self.channel_id.enc() + codec::enc_u64(self.fee_satoshis) + self.signature.enc()
    }

    /// Appends the encoded message body to the sink.
    pub fn lightning_encode(&self, out: &mut Vec<u8>) -> (r: Result<usize, codec::Error>)
        requires
            self.wf(),
        ensures
            r matches Ok(n) && n == self.enc().len() && final(out)@ == old(out)@ + self.enc(),
    {
        let start = out.len();
        self.channel_id.lightning_encode(out);
        codec::write_u64(self.fee_satoshis, out);
        self.signature.lightning_encode(out);
        proof {
            assert(out@ =~= old(out)@ + self.enc());
        }
        Ok(out.len() - start)
    }

    /// Reads an encoded message body.
    pub fn lightning_decode(d: &[u8], pos: usize) -> (r: Result<(ClosingSigned, usize), codec::Error>)
        ensures
            match r {
                Ok((v, end)) => v.wf() && pos <= end <= d@.len() && v.enc() == d@.subrange(
                    pos as int,
                    end as int,
                ) && end == closing_signed_parse_end(d@, pos as int),
                Err(e) => (e == codec::Error::Io || e == codec::Error::DataIntegrityError)
                    && closing_signed_parse_end(d@, pos as int) < 0,
            },
    {
        proof {
            reveal(closing_signed_parse_end);
        }
        let (channel_id, p1) = match ChannelId::lightning_decode(d, pos) {
            Ok(x) => x,
            Err(e) => {
                return Err(e);
            },
        };
        let (fee_satoshis, p2) = match codec::read_u64(d, p1) {
            Ok(x) => x,
            Err(e) => {
                return Err(e);
            },
        };
        let (signature, end) = match Signature::lightning_decode(d, p2) {
            Ok(x) => x,
            Err(e) => {
                return Err(e);
            },
        };
        let v = ClosingSigned { channel_id, fee_satoshis, signature };
        proof {
            assert(d@.subrange(pos as int, end as int) =~= d@.subrange(pos as int, p1 as int) + d@.subrange(p1 as int, p2 as int) + d@.subrange(p2 as int, end as int));
        }
        Ok((v, end))
    }
}


/// Offers a hashed time-locked conditional payment through the channel.
#[derive(Clone, Debug, PartialEq, Eq)]
pub struct UpdateAddHtlc {
    pub channel_id: ChannelId,
    pub htlc_id: u64,
    pub amount_msat: u64,
    pub payment_hash: HashLock,
    pub cltv_expiry: u32,
    pub onion_routing_packet: OnionPacket,
}

/// The position one past a well-formed `UpdateAddHtlc` body starting at `pos` in
/// `d`, or a negative value when no well-formed body starts there. Success
/// of the decoder is owed exactly when this is non-negative.
#[verifier::opaque]
pub open spec fn update_add_htlc_parse_end(d: Seq<u8>, pos: int) -> int {
    if pos + 84 > d.len() {
        -1
    } else {
        let o1 = onion_packet_parse_end(d, pos + 84);
        if o1 < 0 {
            -1
        } else {
            o1
        }
    }
}

impl UpdateAddHtlc {
    /// Every field fits its wire layout.
    pub open spec fn wf(&self) -> bool {
        &&& self.channel_id.wf()
        &&& self.payment_hash.wf()
        &&& self.onion_routing_packet.wf()
    }

    /// The wire encoding: the fields in declaration order.
    pub open spec fn enc(&self) -> Seq<u8> {
        self.channel_id.enc() + codec::enc_u64(self.htlc_id) + codec::enc_u64(self.amount_msat) + self.payment_hash.enc() + codec::enc_u32(self.cltv_expiry) + self.onion_routing_packet.enc()
    }

    /// Appends the encoded message body to the sink.
    pub fn lightning_encode(&self, out: &mut Vec<u8>) -> (r: Result<usize, codec::Error>)
        requires
            self.wf(),
        ensures
            r matches Ok(n) && n == self.enc().len() && final(out)@ == old(out)@ + self.enc(),
    {
        let start = out.len();
        self.channel_id.lightning_encode(out);
        codec::write_u64(self.htlc_id, out);
        codec::write_u64(self.amount_msat, out);
        self.payment_hash.lightning_encode(out);
        codec::write_u32(self.cltv_expiry, out);
        match self.onion_routing_packet.lightning_encode(out) {
            Ok(_) => (),
            Err(_) => (),
        }
        proof {
            assert(out@ =~= old(out)@ + self.enc());
        }
        Ok(out.len() - start)
    }

    /// Reads an encoded message body.
    pub fn lightning_decode(d: &[u8], pos: usize) -> (r: Result<(UpdateAddHtlc, usize), codec::Error>)
        ensures
            match r {
                Ok((v, end)) => v.wf() && pos <= end <= d@.len() && v.enc() == d@.subrange(
                    pos as int,
                    end as int,
                ) && end == update_add_htlc_parse_end(d@, pos as int),
                Err(e) => (e == codec::Error::Io || e == codec::Error::DataIntegrityError)
                    && update_add_htlc_parse_end(d@, pos as int) < 0,
            },
    {
        proof {
            reveal(update_add_htlc_parse_end);
        }
        let (channel_id, p1) = match ChannelId::lightning_decode(d, pos) {
            Ok(x) => x,
            Err(e) => {
                return Err(e);
            },
        };
        let (htlc_id, p2) = match codec::read_u64(d, p1) {
            Ok(x) => x,
            Err(e) => {
                return Err(e);
            },
        };
        let (amount_msat, p3) = match codec::read_u64(d, p2) {
            Ok(x) => x,
            Err(e) => {
                return Err(e);
            },
        };
        let (payment_hash, p4) = match Slice32::lightning_decode(d, p3) {
            Ok(x) => x,
            Err(e) => {
                return Err(e);
            },
        };
        let (cltv_expiry, p5) = match codec::read_u32(d, p4) {
            Ok(x) => x,
            Err(e) => {
                return Err(e);
            },
        };
        let (onion_routing_packet, end) = match OnionPacket::lightning_decode(d, p5) {
            Ok(x) => x,
            Err(e) => {
                return Err(e);
            },
        };
        let v = UpdateAddHtlc { channel_id, htlc_id, amount_msat, payment_hash, cltv_expiry, onion_routing_packet };
        proof {
            assert(d@.subrange(pos as int, end as int) =~= d@.subrange(pos as int, p1 as int) + d@.subrange(p1 as int, p2 as int) + d@.subrange(p2 as int, p3 as int) + d@.subrange(p3 as int, p4 as int) + d@.subrange(p4 as int, p5 as int) + d@.subrange(p5 as int, end as int));
        }
        Ok((v, end))
    }
}


/// Redeems an HTLC by revealing its preimage.
#[derive(Clone, Debug, PartialEq, Eq)]
pub struct UpdateFulfillHtlc {
    pub channel_id: ChannelId,
    pub htlc_id: u64,
    pub payment_preimage: HashPreimage,
}

/// The position one past a well-formed `UpdateFulfillHtlc` body starting at `pos` in
/// `d`, or a negative value when no well-formed body starts there. Success
/// of the decoder is owed exactly when this is non-negative.
#[verifier::opaque]
pub open spec fn update_fulfill_htlc_parse_end(d: Seq<u8>, pos: int) -> int {
    if pos + 72 > d.len() {
        -1
    } else {
        pos + 72
    }
}

impl UpdateFulfillHtlc {
    /// Every field fits its wire layout.
    pub open spec fn wf(&self) -> bool {
        &&& self.channel_id.wf()
        &&& self.payment_preimage.wf()
    }

    /// The wire encoding: the fields in declaration order.
    pub open spec fn enc(&self) -> Seq<u8> {
        self.channel_id.enc() + codec::enc_u64(self.htlc_id) + self.payment_preimage.enc()
    }

    /// Appends the encoded message body to the sink.
    pub fn lightning_encode(&self, out: &mut Vec<u8>) -> (r: Result<usize, codec::Error>)
        requires
            self.wf(),
        ensures
            r matches Ok(n) && n == self.enc().len() && final(out)@ == old(out)@ + self.enc(),
    {
        let start = out.len();
        self.channel_id.lightning_encode(out);
        codec::write_u64(self.htlc_id, out);
        self.payment_preimage.lightning_encode(out);
        proof {
            assert(out@ =~= old(out)@ + self.enc());
        }
        Ok(out.len() - start)
    }

    /// Reads an encoded message body.
    pub fn lightning_decode(d: &[u8], pos: usize) -> (r: Result<(UpdateFulfillHtlc, usize), codec::Error>)
        ensures
            match r {
                Ok((v, end)) => v.wf() && pos <= end <= d@.len() && v.enc() == d@.subrange(
                    pos as int,
                    end as int,
                ) && end == update_fulfill_htlc_parse_end(d@, pos as int),
                Err(e) => (e == codec::Error::Io || e == codec::Error::DataIntegrityError)
                    && update_fulfill_htlc_parse_end(d@, pos as int) < 0,
            },
    {
        proof {
            reveal(update_fulfill_htlc_parse_end);
        }
        let (channel_id, p1) = match ChannelId::lightning_decode(d, pos) {
            Ok(x) => x,
            Err(e) => {
                return Err(e);
            },
        };
        let (htlc_id, p2) = match codec::read_u64(d, p1) {
            Ok(x) => x,
            Err(e) => {
                return Err(e);
            },
        };
        let (payment_preimage, end) = match Slice32::lightning_decode(d, p2) {
            Ok(x) => x,
            Err(e) => {
                return Err(e);
            },
        };
        let v = UpdateFulfillHtlc { channel_id, htlc_id, payment_preimage };
        proof {
            assert(d@.subrange(pos as int, end as int) =~= d@.subrange(pos as int, p1 as int) + d@.subrange(p1 as int, p2 as int) + d@.subrange(p2 as int, end as int));
        }
        Ok((v, end))
    }
}


/// Removes an HTLC that cannot be fulfilled, with an encrypted reason.
#[derive(Clone, Debug, PartialEq, Eq)]
pub struct UpdateFailHtlc {
    pub channel_id: ChannelId,
    pub htlc_id: u64,
    pub reason: Vec<u8>,
}

/// The position one past a well-formed `UpdateFailHtlc` body starting at `pos` in
/// `d`, or a negative value when no well-formed body starts there. Success
/// of the decoder is owed exactly when this is non-negative.
#[verifier::opaque]
pub open spec fn update_fail_htlc_parse_end(d: Seq<u8>, pos: int) -> int {
    if pos + 40 + 2 > d.len() {
        -1
    } else {
        let n1 = codec::dec_u16(d.subrange(pos + 40, pos + 40 + 2)) as int;
        let o1 = pos + 40 + 2 + n1;
        if o1 > d.len() {
            -1
        } else {
            o1
        }
    }
}

impl UpdateFailHtlc {
    /// Every field fits its wire layout.
    pub open spec fn wf(&self) -> bool {
        &&& self.channel_id.wf()
        &&& self.reason@.len() <= 0xFFFF
    }

    /// The wire encoding: the fields in declaration order.
    pub open spec fn enc(&self) -> Seq<u8> {
        self.channel_id.enc() + codec::enc_u64(self.htlc_id) + codec::enc_bytes16(self.reason@)
    }

    /// Appends the encoded message body to the sink.
    pub fn lightning_encode(&self, out: &mut Vec<u8>) -> (r: Result<usize, codec::Error>)
        requires
            self.wf(),
        ensures
            r matches Ok(n) && n == self.enc().len() && final(out)@ == old(out)@ + self.enc(),
    {
        let start = out.len();
        self.channel_id.lightning_encode(out);
        codec::write_u64(self.htlc_id, out);
        match codec::write_bytes16(self.reason.as_slice(), out) {
            Ok(_) => (),
            Err(_) => {
                proof {
                    assert(false);
                }
            },
        }
        proof {
            assert(out@ =~= old(out)@ + self.enc());
        }
        Ok(out.len() - start)
    }

    /// Reads an encoded message body.
    pub fn lightning_decode(d: &[u8], pos: usize) -> (r: Result<(UpdateFailHtlc, usize), codec::Error>)
        ensures
            match r {
                Ok((v, end)) => v.wf() && pos <= end <= d@.len() && v.enc() == d@.subrange(
                    pos as int,
                    end as int,
                ) && end == update_fail_htlc_parse_end(d@, pos as int),
                Err(e) => (e == codec::Error::Io || e == codec::Error::DataIntegrityError)
                    && update_fail_htlc_parse_end(d@, pos as int) < 0,
            },
    {
        proof {
            reveal(update_fail_htlc_parse_end);
        }
        let (channel_id, p1) = match ChannelId::lightning_decode(d, pos) {
            Ok(x) => x,
            Err(e) => {
                return Err(e);
            },
        };
        let (htlc_id, p2) = match codec::read_u64(d, p1) {
            Ok(x) => x,
            Err(e) => {
                return Err(e);
            },
        };
        let (reason, end) = match codec::read_bytes16(d, p2) {
            Ok(x) => x,
            Err(e) => {
                return Err(e);
            },
        };
        let v = UpdateFailHtlc { channel_id, htlc_id, reason };
        proof {
            assert(d@.subrange(pos as int, end as int) =~= d@.subrange(pos as int, p1 as int) + d@.subrange(p1 as int, p2 as int) + d@.subrange(p2 as int, end as int));
        }
        Ok((v, end))
    }
}


/// Removes an HTLC whose onion could not be parsed.
#[derive(Clone, Debug, PartialEq, Eq)]
pub struct UpdateFailMalformedHtlc {
    pub channel_id: ChannelId,
    pub htlc_id: u64,
    pub sha256_of_onion: Slice32,
    pub failure_code: u16,
}

/// The position one past a well-formed `UpdateFailMalformedHtlc` body starting at `pos` in
/// `d`, or a negative value when no well-formed body starts there. Success
/// of the decoder is owed exactly when this is non-negative.
#[verifier::opaque]
pub open spec fn update_fail_malformed_htlc_parse_end(d: Seq<u8>, pos: int) -> int {
    if pos + 74 > d.len() {
        -1
    } else {
        pos + 74
    }
}

impl UpdateFailMalformedHtlc {
    /// Every field fits its wire layout.
    pub open spec fn wf(&self) -> bool {
        &&& self.channel_id.wf()
        &&& self.sha256_of_onion.wf()
    }

    /// The wire encoding: the fields in declaration order.
    pub open spec fn enc(&self) -> Seq<u8> {
        self.channel_id.enc() + codec::enc_u64(self.htlc_id) + self.sha256_of_onion.enc() + codec::enc_u16(self.failure_code)
    }

    /// Appends the encoded message body to the sink.
    pub fn lightning_encode(&self, out: &mut Vec<u8>) -> (r: Result<usize, codec::Error>)
        requires
            self.wf(),
        ensures
            r matches Ok(n) && n == self.enc().len() && final(out)@ == old(out)@ + self.enc(),
    {
        let start = out.len();
        self.channel_id.lightning_encode(out);
        codec::write_u64(self.htlc_id, out);
        self.sha256_of_onion.lightning_encode(out);
        codec::write_u16(self.failure_code, out);
        proof {
            assert(out@ =~= old(out)@ + self.enc());
        }
        Ok(out.len() - start)
    }

    /// Reads an encoded message body.
    pub fn lightning_decode(d: &[u8], pos: usize) -> (r: Result<(UpdateFailMalformedHtlc, usize), codec::Error>)
        ensures
            match r {
                Ok((v, end)) => v.wf() && pos <= end <= d@.len() && v.enc() == d@.subrange(
                    pos as int,
                    end as int,
                ) && end == update_fail_malformed_htlc_parse_end(d@, pos as int),
                Err(e) => (e == codec::Error::Io || e == codec::Error::DataIntegrityError)
                    && update_fail_malformed_htlc_parse_end(d@, pos as int) < 0,
            },
    {
        proof {
            reveal(update_fail_malformed_htlc_parse_end);
        }
        let (channel_id, p1) = match ChannelId::lightning_decode(d, pos) {
            Ok(x) => x,
            Err(e) => {
                return Err(e);
            },
        };
        let (htlc_id, p2) = match codec::read_u64(d, p1) {
            Ok(x) => x,
            Err(e) => {
                return Err(e);
            },
        };
        let (sha256_of_onion, p3) = match Slice32::lightning_decode(d, p2) {
            Ok(x) => x,
            Err(e) => {
                return Err(e);
            },
        };
        let (failure_code, end) = match codec::read_u16(d, p3) {
            Ok(x) => x,
            Err(e) => {
                return Err(e);
            },
        };
        let v = UpdateFailMalformedHtlc { channel_id, htlc_id, sha256_of_onion, failure_code };
        proof {
            assert(d@.subrange(pos as int, end as int) =~= d@.subrange(pos as int, p1 as int) + d@.subrange(p1 as int, p2 as int) + d@.subrange(p2 as int, p3 as int) + d@.subrange(p3 as int, end as int));
        }
        Ok((v, end))
    }
}


/// Signs the current commitment transaction and its HTLC transactions.
#[derive(Clone, Debug, PartialEq, Eq)]
pub struct CommitmentSigned {
    pub channel_id: ChannelId,
    pub signature: Signature,
    pub htlc_signatures: Vec<Signature>,
}

/// The position one past a well-formed `CommitmentSigned` body starting at `pos` in
/// `d`, or a negative value when no well-formed body starts there. Success
/// of the decoder is owed exactly when this is non-negative.
#[verifier::opaque]
pub open spec fn commitment_signed_parse_end(d: Seq<u8>, pos: int) -> int {
    if pos + 96 + 2 > d.len() {
        -1
    } else {
        let n1 = codec::dec_u16(d.subrange(pos + 96, pos + 96 + 2)) as int;
        let o1 = pos + 96 + 2 + 64 * n1;
        if o1 > d.len() {
            -1
        } else {
            o1
        }
    }
}

impl CommitmentSigned {
    /// Every field fits its wire layout.
    pub open spec fn wf(&self) -> bool {
        &&& self.channel_id.wf()
        &&& self.signature.wf()
        &&& self.htlc_signatures@.len() <= 0xFFFF && wf_sigs(self.htlc_signatures@)
    }

    /// The wire encoding: the fields in declaration order.
    pub open spec fn enc(&self) -> Seq<u8> {
        self.channel_id.enc() + self.signature.enc() + (codec::enc_u16(self.htlc_signatures@.len() as u16) + enc_sigs(self.htlc_signatures@))
    }

    /// Appends the encoded message body to the sink.
    pub fn lightning_encode(&self, out: &mut Vec<u8>) -> (r: Result<usize, codec::Error>)
        requires
            self.wf(),
        ensures
            r matches Ok(n) && n == self.enc().len() && final(out)@ == old(out)@ + self.enc(),
    {
        let start = out.len();
        self.channel_id.lightning_encode(out);
        self.signature.lightning_encode(out);
        write_sigs(&self.htlc_signatures, out);
        proof {
            assert(out@ =~= old(out)@ + self.enc());
        }
        Ok(out.len() - start)
    }

    /// Reads an encoded message body.
    pub fn lightning_decode(d: &[u8], pos: usize) -> (r: Result<(CommitmentSigned, usize), codec::Error>)
        ensures
            match r {
                Ok((v, end)) => v.wf() && pos <= end <= d@.len() && v.enc() == d@.subrange(
                    pos as int,
                    end as int,
                ) && end == commitment_signed_parse_end(d@, pos as int),
                Err(e) => (e == codec::Error::Io || e == codec::Error::DataIntegrityError)
                    && commitment_signed_parse_end(d@, pos as int) < 0,
            },
    {
        proof {
            reveal(commitment_signed_parse_end);
        }
        let (channel_id, p1) = match ChannelId::lightning_decode(d, pos) {
            Ok(x) => x,
            Err(e) => {
                return Err(e);
            },
        };
        let (signature, p2) = match Signature::lightning_decode(d, p1) {
            Ok(x) => x,
            Err(e) => {
                return Err(e);
            },
        };
        let (htlc_signatures, end) = match read_sigs(d, p2) {
            Ok(x) => x,
            Err(e) => {
                return Err(e);
            },
        };
        let v = CommitmentSigned { channel_id, signature, htlc_signatures };
        proof {
            assert(d@.subrange(pos as int, end as int) =~= d@.subrange(pos as int, p1 as int) + d@.subrange(p1 as int, p2 as int) + d@.subrange(p2 as int, end as int));
        }
        Ok((v, end))
    }
}


/// Revokes the previous commitment by revealing its per-commitment secret.
#[derive(Clone, Debug, PartialEq, Eq)]
pub struct RevokeAndAck {
    pub channel_id: ChannelId,
    pub per_commitment_secret: Slice32,
    pub next_per_commitment_point: PublicKey,
}

/// The position one past a well-formed `RevokeAndAck` body starting at `pos` in
/// `d`, or a negative value when no well-formed body starts there. Success
/// of the decoder is owed exactly when this is non-negative.
#[verifier::opaque]
pub open spec fn revoke_and_ack_parse_end(d: Seq<u8>, pos: int) -> int {
    if pos + 97 > d.len() {
        -1
    } else if !crypto::is_ec_point(d.subrange(pos + 64, pos + 97)) {
        -1
    } else if pos + 97 > d.len() {
        -1
    } else {
        pos + 97
    }
}

impl RevokeAndAck {
    /// Every field fits its wire layout.
    pub open spec fn wf(&self) -> bool {
        &&& self.channel_id.wf()
        &&& self.per_commitment_secret.wf()
        &&& self.next_per_commitment_point.wf()
    }

    /// The wire encoding: the fields in declaration order.
    pub open spec fn enc(&self) -> Seq<u8> {
        self.channel_id.enc() + self.per_commitment_secret.enc() + self.next_per_commitment_point.enc()
    }

    /// Appends the encoded message body to the sink.
    pub fn lightning_encode(&self, out: &mut Vec<u8>) -> (r: Result<usize, codec::Error>)
        requires
            self.wf(),
        ensures
            r matches Ok(n) && n == self.enc().len() && final(out)@ == old(out)@ + self.enc(),
    {
        let start = out.len();
        self.channel_id.lightning_encode(out);
        self.per_commitment_secret.lightning_encode(out);
        self.next_per_commitment_point.lightning_encode(out);
        proof {
            assert(out@ =~= old(out)@ + self.enc());
        }
        Ok(out.len() - start)
    }

    /// Reads an encoded message body.
    pub fn lightning_decode(d: &[u8], pos: usize) -> (r: Result<(RevokeAndAck, usize), codec::Error>)
        ensures
            match r {
                Ok((v, end)) => v.wf() && pos <= end <= d@.len() && v.enc() == d@.subrange(
                    pos as int,
                    end as int,
                ) && end == revoke_and_ack_parse_end(d@, pos as int),
                Err(e) => (e == codec::Error::Io || e == codec::Error::DataIntegrityError)
                    && revoke_and_ack_parse_end(d@, pos as int) < 0,
            },
    {
        proof {
            reveal(revoke_and_ack_parse_end);
        }
        let (channel_id, p1) = match ChannelId::lightning_decode(d, pos) {
            Ok(x) => x,
            Err(e) => {
                return Err(e);
            },
        };
        let (per_commitment_secret, p2) = match Slice32::lightning_decode(d, p1) {
            Ok(x) => x,
            Err(e) => {
                return Err(e);
            },
        };
        let (next_per_commitment_point, end) = match PublicKey::lightning_decode(d, p2) {
            Ok(x) => x,
            Err(e) => {
                return Err(e);
            },
        };
        let v = RevokeAndAck { channel_id, per_commitment_secret, next_per_commitment_point };
        proof {
            assert(d@.subrange(pos as int, end as int) =~= d@.subrange(pos as int, p1 as int) + d@.subrange(p1 as int, p2 as int) + d@.subrange(p2 as int, end as int));
        }
        Ok((v, end))
    }
}


/// Changes the fee rate for the sender's commitment transactions.
#[derive(Clone, Debug, PartialEq, Eq)]
pub struct UpdateFee {
    pub channel_id: ChannelId,
    pub feerate_per_kw: u32,
}

/// The position one past a well-formed `UpdateFee` body starting at `pos` in
/// `d`, or a negative value when no well-formed body starts there. Success
/// of the decoder is owed exactly when this is non-negative.
#[verifier::opaque]
pub open spec fn update_fee_parse_end(d: Seq<u8>, pos: int) -> int {
    if pos + 36 > d.len() {
        -1
    } else {
        pos + 36
    }
}

impl UpdateFee {
    /// Every field fits its wire layout.
    pub open spec fn wf(&self) -> bool {
        self.channel_id.wf()
    }

    /// The wire encoding: the fields in declaration order.
    pub open spec fn enc(&self) -> Seq<u8> {
        self.channel_id.enc() + codec::enc_u32(self.feerate_per_kw)
    }

    /// Appends the encoded message body to the sink.
    pub fn lightning_encode(&self, out: &mut Vec<u8>) -> (r: Result<usize, codec::Error>)
        requires
            self.wf(),
        ensures
            r matches Ok(n) && n == self.enc().len() && final(out)@ == old(out)@ + self.enc(),
    {
        let start = out.len();
        self.channel_id.lightning_encode(out);
        codec::write_u32(self.feerate_per_kw, out);
        proof {
            assert(out@ =~= old(out)@ + self.enc());
        }
        Ok(out.len() - start)
    }

    /// Reads an encoded message body.
    pub fn lightning_decode(d: &[u8], pos: usize) -> (r: Result<(UpdateFee, usize), codec::Error>)
        ensures
            match r {
                Ok((v, end)) => v.wf() && pos <= end <= d@.len() && v.enc() == d@.subrange(
                    pos as int,
                    end as int,
                ) && end == update_fee_parse_end(d@, pos as int),
                Err(e) => (e == codec::Error::Io || e == codec::Error::DataIntegrityError)
                    && update_fee_parse_end(d@, pos as int) < 0,
            },
    {
        proof {
            reveal(update_fee_parse_end);
        }
        let (channel_id, p1) = match ChannelId::lightning_decode(d, pos) {
            Ok(x) => x,
            Err(e) => {
                return Err(e);
            },
        };
        let (feerate_per_kw, end) = match codec::read_u32(d, p1) {
            Ok(x) => x,
            Err(e) => {
                return Err(e);
            },
        };
        let v = UpdateFee { channel_id, feerate_per_kw };
        proof {
            assert(d@.subrange(pos as int, end as int) =~= d@.subrange(pos as int, p1 as int) + d@.subrange(p1 as int, end as int));
        }
        Ok((v, end))
    }
}


/// Resynchronises commitment state after a reconnection.
#[derive(Clone, Debug, PartialEq, Eq)]
pub struct ChannelReestablish {
    pub channel_id: ChannelId,
    pub next_commitment_number: u64,
    pub next_revocation_number: u64,
    pub your_last_per_commitment_secret: Slice32,
    pub my_current_per_commitment_point: PublicKey,
}

/// The position one past a well-formed `ChannelReestablish` body starting at `pos` in
/// `d`, or a negative value when no well-formed body starts there. Success
/// of the decoder is owed exactly when this is non-negative.
#[verifier::opaque]
pub open spec fn channel_reestablish_parse_end(d: Seq<u8>, pos: int) -> int {
    if pos + 113 > d.len() {
        -1
    } else if !crypto::is_ec_point(d.subrange(pos + 80, pos + 113)) {
        -1
    } else if pos + 113 > d.len() {
        -1
    } else {
        pos + 113
    }
}

impl ChannelReestablish {
    /// Every field fits its wire layout.
    pub open spec fn wf(&self) -> bool {
        &&& self.channel_id.wf()
        &&& self.your_last_per_commitment_secret.wf()
        &&& self.my_current_per_commitment_point.wf()
    }

    /// The wire encoding: the fields in declaration order.
    pub open spec fn enc(&self) -> Seq<u8> {
        self.channel_id.enc() + codec::enc_u64(self.next_commitment_number) + codec::enc_u64(self.next_revocation_number) + self.your_last_per_commitment_secret.enc() + self.my_current_per_commitment_point.enc()
    }

    /// Appends the encoded message body to the sink.
    pub fn lightning_encode(&self, out: &mut Vec<u8>) -> (r: Result<usize, codec::Error>)
        requires
            self.wf(),
        ensures
            r matches Ok(n) && n == self.enc().len() && final(out)@ == old(out)@ + self.enc(),
    {
        let start = out.len();
        self.channel_id.lightning_encode(out);
        codec::write_u64(self.next_commitment_number, out);
        codec::write_u64(self.next_revocation_number, out);
        self.your_last_per_commitment_secret.lightning_encode(out);
        self.my_current_per_commitment_point.lightning_encode(out);
        proof {
            assert(out@ =~= old(out)@ + self.enc());
        }
        Ok(out.len() - start)
    }

    /// Reads an encoded message body.
    pub fn lightning_decode(d: &[u8], pos: usize) -> (r: Result<(ChannelReestablish, usize), codec::Error>)
        ensures
            match r {
                Ok((v, end)) => v.wf() && pos <= end <= d@.len() && v.enc() == d@.subrange(
                    pos as int,
                    end as int,
                ) && end == channel_reestablish_parse_end(d@, pos as int),
                Err(e) => (e == codec::Error::Io || e == codec::Error::DataIntegrityError)
                    && channel_reestablish_parse_end(d@, pos as int) < 0,
            },
    {
        proof {
            reveal(channel_reestablish_parse_end);
        }
        let (channel_id, p1) = match ChannelId::lightning_decode(d, pos) {
            Ok(x) => x,
            Err(e) => {
                return Err(e);
            },
        };
        let (next_commitment_number, p2) = match codec::read_u64(d, p1) {
            Ok(x) => x,
            Err(e) => {
                return Err(e);
            },
        };
        let (next_revocation_number, p3) = match codec::read_u64(d, p2) {
            Ok(x) => x,
            Err(e) => {
                return Err(e);
            },
        };
        let (your_last_per_commitment_secret, p4) = match Slice32::lightning_decode(d, p3) {
            Ok(x) => x,
            Err(e) => {
                return Err(e);
            },
        };
        let (my_current_per_commitment_point, end) = match PublicKey::lightning_decode(d, p4) {
            Ok(x) => x,
            Err(e) => {
                return Err(e);
            },
        };
        let v = ChannelReestablish { channel_id, next_commitment_number, next_revocation_number, your_last_per_commitment_secret, my_current_per_commitment_point };
        proof {
            assert(d@.subrange(pos as int, end as int) =~= d@.subrange(pos as int, p1 as int) + d@.subrange(p1 as int, p2 as int) + d@.subrange(p2 as int, p3 as int) + d@.subrange(p3 as int, p4 as int) + d@.subrange(p4 as int, end as int));
        }
        Ok((v, end))
    }
}


/// Exchanges the signatures needed to announce the channel.
#[derive(Clone, Debug, PartialEq, Eq)]
pub struct AnnouncementSignatures {
    pub channel_id: ChannelId,
    pub short_channel_id: ShortChannelId,
    pub node_signature: Signature,
    pub bitcoin_signature: Signature,
}

/// The position one past a well-formed `AnnouncementSignatures` body starting at `pos` in
/// `d`, or a negative value when no well-formed body starts there. Success
/// of the decoder is owed exactly when this is non-negative.
#[verifier::opaque]
pub open spec fn announcement_signatures_parse_end(d: Seq<u8>, pos: int) -> int {
    if pos + 168 > d.len() {
        -1
    } else {
        pos + 168
    }
}

impl AnnouncementSignatures {
    /// Every field fits its wire layout.
    pub open spec fn wf(&self) -> bool {
        &&& self.channel_id.wf()
        &&& self.short_channel_id.wf()
        &&& self.node_signature.wf()
        &&& self.bitcoin_signature.wf()
    }

    /// The wire encoding: the fields in declaration order.
    pub open spec fn enc(&self) -> Seq<u8> {
        self.channel_id.enc() + self.short_channel_id.enc() + self.node_signature.enc() + self.bitcoin_signature.enc()
    }

    /// Appends the encoded message body to the sink.
    pub fn lightning_encode(&self, out: &mut Vec<u8>) -> (r: Result<usize, codec::Error>)
        requires
            self.wf(),
        ensures
            r matches Ok(n) && n == self.enc().len() && final(out)@ == old(out)@ + self.enc(),
    {
        let start = out.len();
        self.channel_id.lightning_encode(out);
        self.short_channel_id.lightning_encode(out);
        self.node_signature.lightning_encode(out);
        self.bitcoin_signature.lightning_encode(out);
        proof {
            assert(out@ =~= old(out)@ + self.enc());
        }
        Ok(out.len() - start)
    }

    /// Reads an encoded message body.
    pub fn lightning_decode(d: &[u8], pos: usize) -> (r: Result<(AnnouncementSignatures, usize), codec::Error>)
        ensures
            match r {
                Ok((v, end)) => v.wf() && pos <= end <= d@.len() && v.enc() == d@.subrange(
                    pos as int,
                    end as int,
                ) && end == announcement_signatures_parse_end(d@, pos as int),
                Err(e) => (e == codec::Error::Io || e == codec::Error::DataIntegrityError)
                    && announcement_signatures_parse_end(d@, pos as int) < 0,
            },
    {
        proof {
            reveal(announcement_signatures_parse_end);
        }
        let (channel_id, p1) = match ChannelId::lightning_decode(d, pos) {
            Ok(x) => x,
            Err(e) => {
                return Err(e);
            },
        };
        let (short_channel_id, p2) = match ShortChannelId::lightning_decode(d, p1) {
            Ok(x) => x,
            Err(e) => {
                return Err(e);
            },
        };
        let (node_signature, p3) = match Signature::lightning_decode(d, p2) {
            Ok(x) => x,
            Err(e) => {
                return Err(e);
            },
        };
        let (bitcoin_signature, end) = match Signature::lightning_decode(d, p3) {
            Ok(x) => x,
            Err(e) => {
                return Err(e);
            },
        };
        let v = AnnouncementSignatures { channel_id, short_channel_id, node_signature, bitcoin_signature };
        proof {
            assert(d@.subrange(pos as int, end as int) =~= d@.subrange(pos as int, p1 as int) + d@.subrange(p1 as int, p2 as int) + d@.subrange(p2 as int, p3 as int) + d@.subrange(p3 as int, end as int));
        }
        Ok((v, end))
    }
}


/// Announces a channel to the gossip network.
#[derive(Clone, Debug, PartialEq, Eq)]
pub struct ChannelAnnouncements {
    pub node_signature_1: Signature,
    pub node_signature_2: Signature,
    pub bitcoin_signature_1: Signature,
    pub bitcoin_signature_2: Signature,
    pub features: Features,
    pub chain_hash: AssetId,
    pub short_channel_id: ShortChannelId,
    pub node_id_1: PublicKey,
    pub node_id_2: PublicKey,
    pub bitcoin_key_1: PublicKey,
    pub bitcoin_key_2: PublicKey,
}

/// The position one past a well-formed `ChannelAnnouncements` body starting at `pos` in
/// `d`, or a negative value when no well-formed body starts there. Success
/// of the decoder is owed exactly when this is non-negative.
#[verifier::opaque]
pub open spec fn channel_announcements_parse_end(d: Seq<u8>, pos: int) -> int {
    if pos + 256 + 2 > d.len() {
        -1
    } else {
        let n1 = codec::dec_u16(d.subrange(pos + 256, pos + 256 + 2)) as int;
        let o1 = pos + 256 + 2 + n1;
        if o1 > d.len() {
            -1
        } else if n1 > 0 && d[pos + 256 + 2] == 0 {
            -1
        } else if o1 + 73 > d.len() {
            -1
        } else if !crypto::is_ec_point(d.subrange(o1 + 40, o1 + 73)) {
            -1
        } else if o1 + 106 > d.len() {
            -1
        } else if !crypto::is_ec_point(d.subrange(o1 + 73, o1 + 106)) {
            -1
        } else if o1 + 139 > d.len() {
            -1
        } else if !crypto::is_ec_point(d.subrange(o1 + 106, o1 + 139)) {
            -1
        } else if o1 + 172 > d.len() {
            -1
        } else if !crypto::is_ec_point(d.subrange(o1 + 139, o1 + 172)) {
            -1
        } else if o1 + 172 > d.len() {
            -1
        } else {
            o1 + 172
        }
    }
}

impl ChannelAnnouncements {
    /// Every field fits its wire layout.
    pub open spec fn wf(&self) -> bool {
        &&& self.node_signature_1.wf()
        &&& self.node_signature_2.wf()
        &&& self.bitcoin_signature_1.wf()
        &&& self.bitcoin_signature_2.wf()
        &&& self.features.wf()
        &&& self.chain_hash.wf()
        &&& self.short_channel_id.wf()
        &&& self.node_id_1.wf()
        &&& self.node_id_2.wf()
        &&& self.bitcoin_key_1.wf()
        &&& self.bitcoin_key_2.wf()
    }

    /// The wire encoding: the fields in declaration order.
    pub open spec fn enc(&self) -> Seq<u8> {
        self.node_signature_1.enc() + self.node_signature_2.enc() + self.bitcoin_signature_1.enc() + self.bitcoin_signature_2.enc() + self.features.enc() + self.chain_hash.enc() + self.short_channel_id.enc() + self.node_id_1.enc() + self.node_id_2.enc() + self.bitcoin_key_1.enc() + self.bitcoin_key_2.enc()
    }

    /// Appends the encoded message body to the sink.
    pub fn lightning_encode(&self, out: &mut Vec<u8>) -> (r: Result<usize, codec::Error>)
        requires
            self.wf(),
        ensures
            r matches Ok(n) && n == self.enc().len() && final(out)@ == old(out)@ + self.enc(),
    {
        let start = out.len();
        self.node_signature_1.lightning_encode(out);
        self.node_signature_2.lightning_encode(out);
        self.bitcoin_signature_1.lightning_encode(out);
        self.bitcoin_signature_2.lightning_encode(out);
        match self.features.lightning_encode(out) {
            Ok(_) => (),
            Err(_) => {
                proof {
                    assert(false);
                }
            },
        }
        self.chain_hash.lightning_encode(out);
        self.short_channel_id.lightning_encode(out);
        self.node_id_1.lightning_encode(out);
        self.node_id_2.lightning_encode(out);
        self.bitcoin_key_1.lightning_encode(out);
        self.bitcoin_key_2.lightning_encode(out);
        proof {
            assert(out@ =~= old(out)@ + self.enc());
        }
        Ok(out.len() - start)
    }

    /// Reads an encoded message body.
    #[verifier::rlimit(100)]
    pub fn lightning_decode(d: &[u8], pos: usize) -> (r: Result<(ChannelAnnouncements, usize), codec::Error>)
        ensures
            match r {
                Ok((v, end)) => v.wf() && pos <= end <= d@.len() && v.enc() == d@.subrange(
                    pos as int,
                    end as int,
                ) && end == channel_announcements_parse_end(d@, pos as int),
                Err(e) => (e == codec::Error::Io || e == codec::Error::DataIntegrityError)
                    && channel_announcements_parse_end(d@, pos as int) < 0,
            },
    {
        proof {
            reveal(channel_announcements_parse_end);
        }
        let (node_signature_1, p1) = match Signature::lightning_decode(d, pos) {
            Ok(x) => x,
            Err(e) => {
                return Err(e);
            },
        };
        let (node_signature_2, p2) = match Signature::lightning_decode(d, p1) {
            Ok(x) => x,
            Err(e) => {
                return Err(e);
            },
        };
        let (bitcoin_signature_1, p3) = match Signature::lightning_decode(d, p2) {
            Ok(x) => x,
            Err(e) => {
                return Err(e);
            },
        };
        let (bitcoin_signature_2, p4) = match Signature::lightning_decode(d, p3) {
            Ok(x) => x,
            Err(e) => {
                return Err(e);
            },
        };
        let (features, p5) = match Features::lightning_decode(d, p4) {
            Ok(x) => x,
            Err(e) => {
                return Err(e);
            },
        };
        let (chain_hash, p6) = match Slice32::lightning_decode(d, p5) {
            Ok(x) => x,
            Err(e) => {
                return Err(e);
            },
        };
        let (short_channel_id, p7) = match ShortChannelId::lightning_decode(d, p6) {
            Ok(x) => x,
            Err(e) => {
                return Err(e);
            },
        };
        let (node_id_1, p8) = match PublicKey::lightning_decode(d, p7) {
            Ok(x) => x,
            Err(e) => {
                return Err(e);
            },
        };
        let (node_id_2, p9) = match PublicKey::lightning_decode(d, p8) {
            Ok(x) => x,
            Err(e) => {
                return Err(e);
            },
        };
        let (bitcoin_key_1, p10) = match PublicKey::lightning_decode(d, p9) {
            Ok(x) => x,
            Err(e) => {
                return Err(e);
            },
        };
        let (bitcoin_key_2, end) = match PublicKey::lightning_decode(d, p10) {
            Ok(x) => x,
            Err(e) => {
                return Err(e);
            },
        };
        let v = ChannelAnnouncements { node_signature_1, node_signature_2, bitcoin_signature_1, bitcoin_signature_2, features, chain_hash, short_channel_id, node_id_1, node_id_2, bitcoin_key_1, bitcoin_key_2 };
        proof {
            assert(d@.subrange(pos as int, end as int) =~= d@.subrange(pos as int, p1 as int) + d@.subrange(p1 as int, p2 as int) + d@.subrange(p2 as int, p3 as int) + d@.subrange(p3 as int, p4 as int) + d@.subrange(p4 as int, p5 as int) + d@.subrange(p5 as int, p6 as int) + d@.subrange(p6 as int, p7 as int) + d@.subrange(p7 as int, p8 as int) + d@.subrange(p8 as int, p9 as int) + d@.subrange(p9 as int, p10 as int) + d@.subrange(p10 as int, end as int));
        }
        Ok((v, end))
    }
}


/// Announces a node and its addresses to the gossip network.
#[derive(Clone, Debug, PartialEq, Eq)]
pub struct NodeAnnouncements {
    pub signature: Signature,
    pub features: Features,
    pub timestamp: u32,
    pub node_id: PublicKey,
    pub rgb_color: NodeColor,
    pub alias: Alias,
    pub addresses: AddressList,
}

/// The position one past a well-formed `NodeAnnouncements` body starting at `pos` in
/// `d`, or a negative value when no well-formed body starts there. Success
/// of the decoder is owed exactly when this is non-negative.
#[verifier::opaque]
pub open spec fn node_announcements_parse_end(d: Seq<u8>, pos: int) -> int {
    if pos + 64 + 2 > d.len() {
        -1
    } else {
        let n1 = codec::dec_u16(d.subrange(pos + 64, pos + 64 + 2)) as int;
        let o1 = pos + 64 + 2 + n1;
        if o1 > d.len() {
            -1
        } else if n1 > 0 && d[pos + 64 + 2] == 0 {
            -1
        } else if o1 + 37 > d.len() {
            -1
        } else if !crypto::is_ec_point(d.subrange(o1 + 4, o1 + 37)) {
            -1
        } else if o1 + 72 + 2 > d.len() {
            -1
        } else {
            let n2 = codec::dec_u16(d.subrange(o1 + 72, o1 + 72 + 2)) as int;
            let o2 = o1 + 72 + 2 + n2;
            if o2 > d.len() {
                -1
            } else {
                o2
            }
        }
    }
}

impl NodeAnnouncements {
    /// Every field fits its wire layout.
    pub open spec fn wf(&self) -> bool {
        &&& self.signature.wf()
        &&& self.features.wf()
        &&& self.node_id.wf()
        &&& self.alias.wf()
        &&& self.addresses.wf()
    }

    /// The wire encoding: the fields in declaration order.
    pub open spec fn enc(&self) -> Seq<u8> {
        self.signature.enc() + self.features.enc() + codec::enc_u32(self.timestamp) + self.node_id.enc() + self.rgb_color.enc() + self.alias.enc() + self.addresses.enc()
    }

    /// Appends the encoded message body to the sink.
    pub fn lightning_encode(&self, out: &mut Vec<u8>) -> (r: Result<usize, codec::Error>)
        requires
            self.wf(),
        ensures
            r matches Ok(n) && n == self.enc().len() && final(out)@ == old(out)@ + self.enc(),
    {
        let start = out.len();
        self.signature.lightning_encode(out);
        match self.features.lightning_encode(out) {
            Ok(_) => (),
            Err(_) => {
                proof {
                    assert(false);
                }
            },
        }
        codec::write_u32(self.timestamp, out);
        self.node_id.lightning_encode(out);
        self.rgb_color.lightning_encode(out);
        self.alias.lightning_encode(out);
        self.addresses.lightning_encode(out);
        proof {
            assert(out@ =~= old(out)@ + self.enc());
        }
        Ok(out.len() - start)
    }

    /// Reads an encoded message body.
    pub fn lightning_decode(d: &[u8], pos: usize) -> (r: Result<(NodeAnnouncements, usize), codec::Error>)
        ensures
            match r {
                Ok((v, end)) => v.wf() && pos <= end <= d@.len() && v.enc() == d@.subrange(
                    pos as int,
                    end as int,
                ) && end == node_announcements_parse_end(d@, pos as int),
                Err(e) => (e == codec::Error::Io || e == codec::Error::DataIntegrityError)
                    && node_announcements_parse_end(d@, pos as int) < 0,
            },
    {
        proof {
            reveal(node_announcements_parse_end);
        }
        let (signature, p1) = match Signature::lightning_decode(d, pos) {
            Ok(x) => x,
            Err(e) => {
                return Err(e);
            },
        };
        let (features, p2) = match Features::lightning_decode(d, p1) {
            Ok(x) => x,
            Err(e) => {
                return Err(e);
            },
        };
        let (timestamp, p3) = match codec::read_u32(d, p2) {
            Ok(x) => x,
            Err(e) => {
                return Err(e);
            },
        };
        let (node_id, p4) = match PublicKey::lightning_decode(d, p3) {
            Ok(x) => x,
            Err(e) => {
                return Err(e);
            },
        };
        let (rgb_color, p5) = match NodeColor::lightning_decode(d, p4) {
            Ok(x) => x,
            Err(e) => {
                return Err(e);
            },
        };
        let (alias, p6) = match Slice32::lightning_decode(d, p5) {
            Ok(x) => x,
            Err(e) => {
                return Err(e);
            },
        };
        let (addresses, end) = match AddressList::lightning_decode(d, p6) {
            Ok(x) => x,
            Err(e) => {
                return Err(e);
            },
        };
        let v = NodeAnnouncements { signature, features, timestamp, node_id, rgb_color, alias, addresses };
        proof {
            assert(d@.subrange(pos as int, end as int) =~= d@.subrange(pos as int, p1 as int) + d@.subrange(p1 as int, p2 as int) + d@.subrange(p2 as int, p3 as int) + d@.subrange(p3 as int, p4 as int) + d@.subrange(p4 as int, p5 as int) + d@.subrange(p5 as int, p6 as int) + d@.subrange(p6 as int, end as int));
        }
        Ok((v, end))
    }
}


/// Updates the routing parameters of one direction of a channel.
#[derive(Clone, Debug, PartialEq, Eq)]
pub struct ChannelUpdate {
    pub signature: Signature,
    pub chain_hash: AssetId,
    pub short_channel_id: ShortChannelId,
    pub timestamp: u32,
    pub message_flags: u8,
    pub channel_flags: u8,
    pub cltv_expiry_delta: u16,
    pub htlc_minimum_msat: u64,
    pub fee_base_msat: u32,
    pub fee_proportional_millionths: u32,
    pub htlc_maximum_msat: u64,
}

/// The position one past a well-formed `ChannelUpdate` body starting at `pos` in
/// `d`, or a negative value when no well-formed body starts there. Success
/// of the decoder is owed exactly when this is non-negative.
#[verifier::opaque]
pub open spec fn channel_update_parse_end(d: Seq<u8>, pos: int) -> int {
    if pos + 136 > d.len() {
        -1
    } else {
        pos + 136
    }
}

impl ChannelUpdate {
    /// Every field fits its wire layout.
    pub open spec fn wf(&self) -> bool {
        &&& self.signature.wf()
        &&& self.chain_hash.wf()
        &&& self.short_channel_id.wf()
    }

    /// The wire encoding: the fields in declaration order.
    pub open spec fn enc(&self) -> Seq<u8> {
        self.signature.enc() + self.chain_hash.enc() + self.short_channel_id.enc() + codec::enc_u32(self.timestamp) + codec::enc_u8(self.message_flags) + codec::enc_u8(self.channel_flags) + codec::enc_u16(self.cltv_expiry_delta) + codec::enc_u64(self.htlc_minimum_msat) + codec::enc_u32(self.fee_base_msat) + codec::enc_u32(self.fee_proportional_millionths) + codec::enc_u64(self.htlc_maximum_msat)
    }

    /// Appends the encoded message body to the sink.
    pub fn lightning_encode(&self, out: &mut Vec<u8>) -> (r: Result<usize, codec::Error>)
        requires
            self.wf(),
        ensures
            r matches Ok(n) && n == self.enc().len() && final(out)@ == old(out)@ + self.enc(),
    {
        let start = out.len();
        self.signature.lightning_encode(out);
        self.chain_hash.lightning_encode(out);
        self.short_channel_id.lightning_encode(out);
        codec::write_u32(self.timestamp, out);
        codec::write_u8(self.message_flags, out);
        codec::write_u8(self.channel_flags, out);
        codec::write_u16(self.cltv_expiry_delta, out);
        codec::write_u64(self.htlc_minimum_msat, out);
        codec::write_u32(self.fee_base_msat, out);
        codec::write_u32(self.fee_proportional_millionths, out);
        codec::write_u64(self.htlc_maximum_msat, out);
        proof {
            assert(out@ =~= old(out)@ + self.enc());
        }
        Ok(out.len() - start)
    }

    /// Reads an encoded message body.
    #[verifier::rlimit(100)]
    pub fn lightning_decode(d: &[u8], pos: usize) -> (r: Result<(ChannelUpdate, usize), codec::Error>)
        ensures
            match r {
                Ok((v, end)) => v.wf() && pos <= end <= d@.len() && v.enc() == d@.subrange(
                    pos as int,
                    end as int,
                ) && end == channel_update_parse_end(d@, pos as int),
                Err(e) => (e == codec::Error::Io || e == codec::Error::DataIntegrityError)
                    && channel_update_parse_end(d@, pos as int) < 0,
            },
    {
        proof {
            reveal(channel_update_parse_end);
        }
        let (signature, p1) = match Signature::lightning_decode(d, pos) {
            Ok(x) => x,
            Err(e) => {
                return Err(e);
            },
        };
        let (chain_hash, p2) = match Slice32::lightning_decode(d, p1) {
            Ok(x) => x,
            Err(e) => {
                return Err(e);
            },
        };
        let (short_channel_id, p3) = match ShortChannelId::lightning_decode(d, p2) {
            Ok(x) => x,
            Err(e) => {
                return Err(e);
            },
        };
        let (timestamp, p4) = match codec::read_u32(d, p3) {
            Ok(x) => x,
            Err(e) => {
                return Err(e);
            },
        };
        let (message_flags, p5) = match codec::read_u8(d, p4) {
            Ok(x) => x,
            Err(e) => {
                return Err(e);
            },
        };
        let (channel_flags, p6) = match codec::read_u8(d, p5) {
            Ok(x) => x,
            Err(e) => {
                return Err(e);
            },
        };
        let (cltv_expiry_delta, p7) = match codec::read_u16(d, p6) {
            Ok(x) => x,
            Err(e) => {
                return Err(e);
            },
        };
        let (htlc_minimum_msat, p8) = match codec::read_u64(d, p7) {
            Ok(x) => x,
            Err(e) => {
                return Err(e);
            },
        };
        let (fee_base_msat, p9) = match codec::read_u32(d, p8) {
            Ok(x) => x,
            Err(e) => {
                return Err(e);
            },
        };
        let (fee_proportional_millionths, p10) = match codec::read_u32(d, p9) {
            Ok(x) => x,
            Err(e) => {
                return Err(e);
            },
        };
        let (htlc_maximum_msat, end) = match codec::read_u64(d, p10) {
            Ok(x) => x,
            Err(e) => {
                return Err(e);
            },
        };
        let v = ChannelUpdate { signature, chain_hash, short_channel_id, timestamp, message_flags, channel_flags, cltv_expiry_delta, htlc_minimum_msat, fee_base_msat, fee_proportional_millionths, htlc_maximum_msat };
        proof {
            assert(d@.subrange(pos as int, end as int) =~= d@.subrange(pos as int, p1 as int) + d@.subrange(p1 as int, p2 as int) + d@.subrange(p2 as int, p3 as int) + d@.subrange(p3 as int, p4 as int) + d@.subrange(p4 as int, p5 as int) + d@.subrange(p5 as int, p6 as int) + d@.subrange(p6 as int, p7 as int) + d@.subrange(p7 as int, p8 as int) + d@.subrange(p8 as int, p9 as int) + d@.subrange(p9 as int, p10 as int) + d@.subrange(p10 as int, end as int));
        }
        Ok((v, end))
    }
}


/// Asks a peer for the announcements behind a set of short channel ids.
#[derive(Clone, Debug, PartialEq, Eq)]
pub struct QueryShortChannelIds {
    pub chain_hash: AssetId,
    pub short_ids: Vec<ShortChannelId>,
}

/// The position one past a well-formed `QueryShortChannelIds` body starting at `pos` in
/// `d`, or a negative value when no well-formed body starts there. Success
/// of the decoder is owed exactly when this is non-negative.
#[verifier::opaque]
pub open spec fn query_short_channel_ids_parse_end(d: Seq<u8>, pos: int) -> int {
    if pos + 32 + 2 > d.len() {
        -1
    } else {
        let n1 = codec::dec_u16(d.subrange(pos + 32, pos + 32 + 2)) as int;
        let o1 = pos + 32 + 2 + 8 * n1;
        if o1 > d.len() {
            -1
        } else {
            o1
        }
    }
}

impl QueryShortChannelIds {
    /// Every field fits its wire layout.
    pub open spec fn wf(&self) -> bool {
        &&& self.chain_hash.wf()
        &&& self.short_ids@.len() <= 0xFFFF && wf_scids(self.short_ids@)
    }

    /// The wire encoding: the fields in declaration order.
    pub open spec fn enc(&self) -> Seq<u8> {
        self.chain_hash.enc() + (codec::enc_u16(self.short_ids@.len() as u16) + enc_scids(self.short_ids@))
    }

    /// Appends the encoded message body to the sink.
    pub fn lightning_encode(&self, out: &mut Vec<u8>) -> (r: Result<usize, codec::Error>)
        requires
            self.wf(),
        ensures
            r matches Ok(n) && n == self.enc().len() && final(out)@ == old(out)@ + self.enc(),
    {
        let start = out.len();
        self.chain_hash.lightning_encode(out);
        write_scids(&self.short_ids, out);
        proof {
            assert(out@ =~= old(out)@ + self.enc());
        }
        Ok(out.len() - start)
    }

    /// Reads an encoded message body.
    pub fn lightning_decode(d: &[u8], pos: usize) -> (r: Result<(QueryShortChannelIds, usize), codec::Error>)
        ensures
            match r {
                Ok((v, end)) => v.wf() && pos <= end <= d@.len() && v.enc() == d@.subrange(
                    pos as int,
                    end as int,
                ) && end == query_short_channel_ids_parse_end(d@, pos as int),
                Err(e) => (e == codec::Error::Io || e == codec::Error::DataIntegrityError)
                    && query_short_channel_ids_parse_end(d@, pos as int) < 0,
            },
    {
        proof {
            reveal(query_short_channel_ids_parse_end);
        }
        let (chain_hash, p1) = match Slice32::lightning_decode(d, pos) {
            Ok(x) => x,
            Err(e) => {
                return Err(e);
            },
        };
        let (short_ids, end) = match read_scids(d, p1) {
            Ok(x) => x,
            Err(e) => {
                return Err(e);
            },
        };
        let v = QueryShortChannelIds { chain_hash, short_ids };
        proof {
            assert(d@.subrange(pos as int, end as int) =~= d@.subrange(pos as int, p1 as int) + d@.subrange(p1 as int, end as int));
        }
        Ok((v, end))
    }
}


/// Marks the end of the replies to a short-channel-id query.
#[derive(Clone, Debug, PartialEq, Eq)]
pub struct ReplyShortChannelIdsEnd {
    pub chain_hash: AssetId,
    pub full_information: u8,
}

/// The position one past a well-formed `ReplyShortChannelIdsEnd` body starting at `pos` in
/// `d`, or a negative value when no well-formed body starts there. Success
/// of the decoder is owed exactly when this is non-negative.
#[verifier::opaque]
pub open spec fn reply_short_channel_ids_end_parse_end(d: Seq<u8>, pos: int) -> int {
    if pos + 33 > d.len() {
        -1
    } else {
        pos + 33
    }
}

impl ReplyShortChannelIdsEnd {
    /// Every field fits its wire layout.
    pub open spec fn wf(&self) -> bool {
        self.chain_hash.wf()
    }

    /// The wire encoding: the fields in declaration order.
    pub open spec fn enc(&self) -> Seq<u8> {
        self.chain_hash.enc() + codec::enc_u8(self.full_information)
    }

    /// Appends the encoded message body to the sink.
    pub fn lightning_encode(&self, out: &mut Vec<u8>) -> (r: Result<usize, codec::Error>)
        requires
            self.wf(),
        ensures
            r matches Ok(n) && n == self.enc().len() && final(out)@ == old(out)@ + self.enc(),
    {
        let start = out.len();
        self.chain_hash.lightning_encode(out);
        codec::write_u8(self.full_information, out);
        proof {
            assert(out@ =~= old(out)@ + self.enc());
        }
        Ok(out.len() - start)
    }

    /// Reads an encoded message body.
    pub fn lightning_decode(d: &[u8], pos: usize) -> (r: Result<(ReplyShortChannelIdsEnd, usize), codec::Error>)
        ensures
            match r {
                Ok((v, end)) => v.wf() && pos <= end <= d@.len() && v.enc() == d@.subrange(
                    pos as int,
                    end as int,
                ) && end == reply_short_channel_ids_end_parse_end(d@, pos as int),
                Err(e) => (e == codec::Error::Io || e == codec::Error::DataIntegrityError)
                    && reply_short_channel_ids_end_parse_end(d@, pos as int) < 0,
            },
    {
        proof {
            reveal(reply_short_channel_ids_end_parse_end);
        }
        let (chain_hash, p1) = match Slice32::lightning_decode(d, pos) {
            Ok(x) => x,
            Err(e) => {
                return Err(e);
            },
        };
        let (full_information, end) = match codec::read_u8(d, p1) {
            Ok(x) => x,
            Err(e) => {
                return Err(e);
            },
        };
        let v = ReplyShortChannelIdsEnd { chain_hash, full_information };
        proof {
            assert(d@.subrange(pos as int, end as int) =~= d@.subrange(pos as int, p1 as int) + d@.subrange(p1 as int, end as int));
        }
        Ok((v, end))
    }
}


/// Asks a peer for the channels within a block range.
#[derive(Clone, Debug, PartialEq, Eq)]
pub struct QueryChannelRange {
    pub chain_hash: AssetId,
    pub first_blocknum: u32,
    pub number_of_blocks: u32,
}

/// The position one past a well-formed `QueryChannelRange` body starting at `pos` in
/// `d`, or a negative value when no well-formed body starts there. Success
/// of the decoder is owed exactly when this is non-negative.
#[verifier::opaque]
pub open spec fn query_channel_range_parse_end(d: Seq<u8>, pos: int) -> int {
    if pos + 40 > d.len() {
        -1
    } else {
        pos + 40
    }
}

impl QueryChannelRange {
    /// Every field fits its wire layout.
    pub open spec fn wf(&self) -> bool {
        self.chain_hash.wf()
    }

    /// The wire encoding: the fields in declaration order.
    pub open spec fn enc(&self) -> Seq<u8> {
        self.chain_hash.enc() + codec::enc_u32(self.first_blocknum) + codec::enc_u32(self.number_of_blocks)
    }

    /// Appends the encoded message body to the sink.
    pub fn lightning_encode(&self, out: &mut Vec<u8>) -> (r: Result<usize, codec::Error>)
        requires
            self.wf(),
        ensures
            r matches Ok(n) && n == self.enc().len() && final(out)@ == old(out)@ + self.enc(),
    {
        let start = out.len();
        self.chain_hash.lightning_encode(out);
        codec::write_u32(self.first_blocknum, out);
        codec::write_u32(self.number_of_blocks, out);
        proof {
            assert(out@ =~= old(out)@ + self.enc());
        }
        Ok(out.len() - start)
    }

    /// Reads an encoded message body.
    pub fn lightning_decode(d: &[u8], pos: usize) -> (r: Result<(QueryChannelRange, usize), codec::Error>)
        ensures
            match r {
                Ok((v, end)) => v.wf() && pos <= end <= d@.len() && v.enc() == d@.subrange(
                    pos as int,
                    end as int,
                ) && end == query_channel_range_parse_end(d@, pos as int),
                Err(e) => (e == codec::Error::Io || e == codec::Error::DataIntegrityError)
                    && query_channel_range_parse_end(d@, pos as int) < 0,
            },
    {
        proof {
            reveal(query_channel_range_parse_end);
        }
        let (chain_hash, p1) = match Slice32::lightning_decode(d, pos) {
            Ok(x) => x,
            Err(e) => {
                return Err(e);
            },
        };
        let (first_blocknum, p2) = match codec::read_u32(d, p1) {
            Ok(x) => x,
            Err(e) => {
                return Err(e);
            },
        };
        let (number_of_blocks, end) = match codec::read_u32(d, p2) {
            Ok(x) => x,
            Err(e) => {
                return Err(e);
            },
        };
        let v = QueryChannelRange { chain_hash, first_blocknum, number_of_blocks };
        proof {
            assert(d@.subrange(pos as int, end as int) =~= d@.subrange(pos as int, p1 as int) + d@.subrange(p1 as int, p2 as int) + d@.subrange(p2 as int, end as int));
        }
        Ok((v, end))
    }
}


/// Replies to a channel-range query with the channels found.
#[derive(Clone, Debug, PartialEq, Eq)]
pub struct ReplyChannelRange {
    pub chain_hash: AssetId,
    pub first_blocknum: u32,
    pub number_of_blocks: u32,
    pub full_information: u8,
    pub encoded_short_ids: Vec<ShortChannelId>,
}

/// The position one past a well-formed `ReplyChannelRange` body starting at `pos` in
/// `d`, or a negative value when no well-formed body starts there. Success
/// of the decoder is owed exactly when this is non-negative.
#[verifier::opaque]
pub open spec fn reply_channel_range_parse_end(d: Seq<u8>, pos: int) -> int {
    if pos + 41 + 2 > d.len() {
        -1
    } else {
        let n1 = codec::dec_u16(d.subrange(pos + 41, pos + 41 + 2)) as int;
        let o1 = pos + 41 + 2 + 8 * n1;
        if o1 > d.len() {
            -1
        } else {
            o1
        }
    }
}

impl ReplyChannelRange {
    /// Every field fits its wire layout.
    pub open spec fn wf(&self) -> bool {
        &&& self.chain_hash.wf()
        &&& self.encoded_short_ids@.len() <= 0xFFFF && wf_scids(self.encoded_short_ids@)
    }

    /// The wire encoding: the fields in declaration order.
    pub open spec fn enc(&self) -> Seq<u8> {
        self.chain_hash.enc() + codec::enc_u32(self.first_blocknum) + codec::enc_u32(self.number_of_blocks) + codec::enc_u8(self.full_information) + (codec::enc_u16(self.encoded_short_ids@.len() as u16) + enc_scids(self.encoded_short_ids@))
    }

    /// Appends the encoded message body to the sink.
    pub fn lightning_encode(&self, out: &mut Vec<u8>) -> (r: Result<usize, codec::Error>)
        requires
            self.wf(),
        ensures
            r matches Ok(n) && n == self.enc().len() && final(out)@ == old(out)@ + self.enc(),
    {
        let start = out.len();
        self.chain_hash.lightning_encode(out);
        codec::write_u32(self.first_blocknum, out);
        codec::write_u32(self.number_of_blocks, out);
        codec::write_u8(self.full_information, out);
        write_scids(&self.encoded_short_ids, out);
        proof {
            assert(out@ =~= old(out)@ + self.enc());
        }
        Ok(out.len() - start)
    }

    /// Reads an encoded message body.
    pub fn lightning_decode(d: &[u8], pos: usize) -> (r: Result<(ReplyChannelRange, usize), codec::Error>)
        ensures
            match r {
                Ok((v, end)) => v.wf() && pos <= end <= d@.len() && v.enc() == d@.subrange(
                    pos as int,
                    end as int,
                ) && end == reply_channel_range_parse_end(d@, pos as int),
                Err(e) => (e == codec::Error::Io || e == codec::Error::DataIntegrityError)
                    && reply_channel_range_parse_end(d@, pos as int) < 0,
            },
    {
        proof {
            reveal(reply_channel_range_parse_end);
        }
        let (chain_hash, p1) = match Slice32::lightning_decode(d, pos) {
            Ok(x) => x,
            Err(e) => {
                return Err(e);
            },
        };
        let (first_blocknum, p2) = match codec::read_u32(d, p1) {
            Ok(x) => x,
            Err(e) => {
                return Err(e);
            },
        };
        let (number_of_blocks, p3) = match codec::read_u32(d, p2) {
            Ok(x) => x,
            Err(e) => {
                return Err(e);
            },
        };
        let (full_information, p4) = match codec::read_u8(d, p3) {
            Ok(x) => x,
            Err(e) => {
                return Err(e);
            },
        };
        let (encoded_short_ids, end) = match read_scids(d, p4) {
            Ok(x) => x,
            Err(e) => {
                return Err(e);
            },
        };
        let v = ReplyChannelRange { chain_hash, first_blocknum, number_of_blocks, full_information, encoded_short_ids };
        proof {
            assert(d@.subrange(pos as int, end as int) =~= d@.subrange(pos as int, p1 as int) + d@.subrange(p1 as int, p2 as int) + d@.subrange(p2 as int, p3 as int) + d@.subrange(p3 as int, p4 as int) + d@.subrange(p4 as int, end as int));
        }
        Ok((v, end))
    }
}


/// Restricts future gossip to a timestamp range.
#[derive(Clone, Debug, PartialEq, Eq)]
pub struct GossipTimestampFilter {
    pub chain_hash: AssetId,
    pub first_timestamp: u32,
    pub timestamp_range: u32,
}

/// The position one past a well-formed `GossipTimestampFilter` body starting at `pos` in
/// `d`, or a negative value when no well-formed body starts there. Success
/// of the decoder is owed exactly when this is non-negative.
#[verifier::opaque]
pub open spec fn gossip_timestamp_filter_parse_end(d: Seq<u8>, pos: int) -> int {
    if pos + 40 > d.len() {
        -1
    } else {
        pos + 40
    }
}

impl GossipTimestampFilter {
    /// Every field fits its wire layout.
    pub open spec fn wf(&self) -> bool {
        self.chain_hash.wf()
    }

    /// The wire encoding: the fields in declaration order.
    pub open spec fn enc(&self) -> Seq<u8> {
        self.chain_hash.enc() + codec::enc_u32(self.first_timestamp) + codec::enc_u32(self.timestamp_range)
    }

    /// Appends the encoded message body to the sink.
    pub fn lightning_encode(&self, out: &mut Vec<u8>) -> (r: Result<usize, codec::Error>)
        requires
            self.wf(),
        ensures
            r matches Ok(n) && n == self.enc().len() && final(out)@ == old(out)@ + self.enc(),
    {
        let start = out.len();
        self.chain_hash.lightning_encode(out);
        codec::write_u32(self.first_timestamp, out);
        codec::write_u32(self.timestamp_range, out);
        proof {
            assert(out@ =~= old(out)@ + self.enc());
        }
        Ok(out.len() - start)
    }

    /// Reads an encoded message body.
    pub fn lightning_decode(d: &[u8], pos: usize) -> (r: Result<(GossipTimestampFilter, usize), codec::Error>)
        ensures
            match r {
                Ok((v, end)) => v.wf() && pos <= end <= d@.len() && v.enc() == d@.subrange(
                    pos as int,
                    end as int,
                ) && end == gossip_timestamp_filter_parse_end(d@, pos as int),
                Err(e) => (e == codec::Error::Io || e == codec::Error::DataIntegrityError)
                    && gossip_timestamp_filter_parse_end(d@, pos as int) < 0,
            },
    {
        proof {
            reveal(gossip_timestamp_filter_parse_end);
        }
        let (chain_hash, p1) = match Slice32::lightning_decode(d, pos) {
            Ok(x) => x,
            Err(e) => {
                return Err(e);
            },
        };
        let (first_timestamp, p2) = match codec::read_u32(d, p1) {
            Ok(x) => x,
            Err(e) => {
                return Err(e);
            },
        };
        let (timestamp_range, end) = match codec::read_u32(d, p2) {
            Ok(x) => x,
            Err(e) => {
                return Err(e);
            },
        };
        let v = GossipTimestampFilter { chain_hash, first_timestamp, timestamp_range };
        proof {
            assert(d@.subrange(pos as int, end as int) =~= d@.subrange(pos as int, p1 as int) + d@.subrange(p1 as int, p2 as int) + d@.subrange(p2 as int, end as int));
        }
        Ok((v, end))
    }
}


/// Assigns asset-extension funds to a channel outpoint.
#[derive(Clone, Debug, PartialEq, Eq)]
pub struct AssignFunds {
    pub channel_id: ChannelId,
    pub consignment: Vec<u8>,
    pub outpoint: OutPoint,
    pub blinding: u64,
}

/// The position one past a well-formed `AssignFunds` body starting at `pos` in
/// `d`, or a negative value when no well-formed body starts there. Success
/// of the decoder is owed exactly when this is non-negative.
#[verifier::opaque]
pub open spec fn assign_funds_parse_end(d: Seq<u8>, pos: int) -> int {
    if pos + 32 + 2 > d.len() {
        -1
    } else {
        let n1 = codec::dec_u16(d.subrange(pos + 32, pos + 32 + 2)) as int;
        let o1 = pos + 32 + 2 + n1;
        if o1 > d.len() {
            -1
        } else if o1 + 44 > d.len() {
            -1
        } else {
            o1 + 44
        }
    }
}

impl AssignFunds {
    /// Every field fits its wire layout.
    pub open spec fn wf(&self) -> bool {
        &&& self.channel_id.wf()
        &&& self.consignment@.len() <= 0xFFFF
        &&& self.outpoint.wf()
    }

    /// The wire encoding: the fields in declaration order.
    pub open spec fn enc(&self) -> Seq<u8> {
        self.channel_id.enc() + codec::enc_bytes16(self.consignment@) + self.outpoint.enc() + codec::enc_u64(self.blinding)
    }

    /// Appends the encoded message body to the sink.
    pub fn lightning_encode(&self, out: &mut Vec<u8>) -> (r: Result<usize, codec::Error>)
        requires
            self.wf(),
        ensures
            r matches Ok(n) && n == self.enc().len() && final(out)@ == old(out)@ + self.enc(),
    {
        let start = out.len();
        self.channel_id.lightning_encode(out);
        match codec::write_bytes16(self.consignment.as_slice(), out) {
            Ok(_) => (),
            Err(_) => {
                proof {
                    assert(false);
                }
            },
        }
        self.outpoint.lightning_encode(out);
        codec::write_u64(self.blinding, out);
        proof {
            assert(out@ =~= old(out)@ + self.enc());
        }
        Ok(out.len() - start)
    }

    /// Reads an encoded message body.
    pub fn lightning_decode(d: &[u8], pos: usize) -> (r: Result<(AssignFunds, usize), codec::Error>)
        ensures
            match r {
                Ok((v, end)) => v.wf() && pos <= end <= d@.len() && v.enc() == d@.subrange(
                    pos as int,
                    end as int,
                ) && end == assign_funds_parse_end(d@, pos as int),
                Err(e) => (e == codec::Error::Io || e == codec::Error::DataIntegrityError)
                    && assign_funds_parse_end(d@, pos as int) < 0,
            },
    {
        proof {
            reveal(assign_funds_parse_end);
        }
        let (channel_id, p1) = match ChannelId::lightning_decode(d, pos) {
            Ok(x) => x,
            Err(e) => {
                return Err(e);
            },
        };
        let (consignment, p2) = match codec::read_bytes16(d, p1) {
            Ok(x) => x,
            Err(e) => {
                return Err(e);
            },
        };
        let (outpoint, p3) = match OutPoint::lightning_decode(d, p2) {
            Ok(x) => x,
            Err(e) => {
                return Err(e);
            },
        };
        let (blinding, end) = match codec::read_u64(d, p3) {
            Ok(x) => x,
            Err(e) => {
                return Err(e);
            },
        };
        let v = AssignFunds { channel_id, consignment, outpoint, blinding };
        proof {
            assert(d@.subrange(pos as int, end as int) =~= d@.subrange(pos as int, p1 as int) + d@.subrange(p1 as int, p2 as int) + d@.subrange(p2 as int, p3 as int) + d@.subrange(p3 as int, end as int));
        }
        Ok((v, end))
    }
}


/// The position one past the well-formed body of the message that the
/// discriminant `tag` selects, starting at `pos` in `d`; negative when the
/// discriminant is unknown or no well-formed body starts there.
#[verifier::opaque]
pub open spec fn messages_body_parse_end(tag: u16, d: Seq<u8>, pos: int) -> int {
    if tag == 19 {
        if pos + 2 > d.len() {
            -1
        } else {
            let n = codec::dec_u16(d.subrange(pos, pos + 2)) as int;
            if pos + 2 + n > d.len() {
                -1
            } else {
                pos + 2 + n
            }
        }
    } else if tag == 16 {
        init_parse_end(d, pos)
    } else if tag == 17 {
        error_parse_end(d, pos)
    } else if tag == 18 {
        ping_parse_end(d, pos)
    } else if tag == 32 {
        open_channel_parse_end(d, pos)
    } else if tag == 33 {
        accept_channel_parse_end(d, pos)
    } else if tag == 34 {
        funding_created_parse_end(d, pos)
    } else if tag == 35 {
        funding_signed_parse_end(d, pos)
    } else if tag == 36 {
        funding_locked_parse_end(d, pos)
    } else if tag == 38 {
        shutdown_parse_end(d, pos)
    } else if tag == 39 {
        closing_signed_parse_end(d, pos)
    } else if tag == 128 {
        update_add_htlc_parse_end(d, pos)
    } else if tag == 130 {
        update_fulfill_htlc_parse_end(d, pos)
    } else if tag == 131 {
        update_fail_htlc_parse_end(d, pos)
    } else if tag == 132 {
        commitment_signed_parse_end(d, pos)
    } else if tag == 133 {
        revoke_and_ack_parse_end(d, pos)
    } else if tag == 134 {
        update_fee_parse_end(d, pos)
    } else if tag == 135 {
        update_fail_malformed_htlc_parse_end(d, pos)
    } else if tag == 136 {
        channel_reestablish_parse_end(d, pos)
    } else if tag == 256 {
        channel_announcements_parse_end(d, pos)
    } else if tag == 257 {
        node_announcements_parse_end(d, pos)
    } else if tag == 258 {
        channel_update_parse_end(d, pos)
    } else if tag == 259 {
        announcement_signatures_parse_end(d, pos)
    } else if tag == 261 {
        query_short_channel_ids_parse_end(d, pos)
    } else if tag == 262 {
        reply_short_channel_ids_end_parse_end(d, pos)
    } else if tag == 263 {
        query_channel_range_parse_end(d, pos)
    } else if tag == 264 {
        reply_channel_range_parse_end(d, pos)
    } else if tag == 265 {
        gossip_timestamp_filter_parse_end(d, pos)
    } else if tag == 57156 {
        assign_funds_parse_end(d, pos)
    } else {
        -1
    }
}

/// The position one past a well-formed wire message (discriminant included)
/// starting at `pos` in `d`; negative when none starts there. Success of the
/// message decoder is owed exactly when this is non-negative.
#[verifier::opaque]
pub open spec fn messages_parse_end(d: Seq<u8>, pos: int) -> int {
    if pos + 2 > d.len() {
        -1
    } else {
        messages_body_parse_end(codec::dec_u16(d.subrange(pos, pos + 2)), d, pos + 2)
    }
}

/// A peer wire message: one of the protocol's message bodies behind the
/// 16-bit type discriminant that prefixes it on the wire.
#[derive(Clone, Debug, PartialEq, Eq)]
pub enum Messages {
    Init(Init),
    Error(Error),
    Ping(Ping),
    Pong(Vec<u8>),
    OpenChannel(OpenChannel),
    AcceptChannel(AcceptChannel),
    FundingCreated(FundingCreated),
    FundingSigned(FundingSigned),
    FundingLocked(FundingLocked),
    Shutdown(Shutdown),
    ClosingSigned(ClosingSigned),
    UpdateAddHtlc(UpdateAddHtlc),
    UpdateFulfillHtlc(UpdateFulfillHtlc),
    UpdateFailHtlc(UpdateFailHtlc),
    CommitmentSigned(CommitmentSigned),
    RevokeAndAck(RevokeAndAck),
    UpdateFee(UpdateFee),
    UpdateFailMalformedHtlc(UpdateFailMalformedHtlc),
    ChannelReestablish(ChannelReestablish),
    ChannelAnnouncements(ChannelAnnouncements),
    NodeAnnouncements(NodeAnnouncements),
    ChannelUpdate(ChannelUpdate),
    AnnouncementSignatures(AnnouncementSignatures),
    QueryShortChannelIds(QueryShortChannelIds),
    ReplyShortChannelIdsEnd(ReplyShortChannelIdsEnd),
    QueryChannelRange(QueryChannelRange),
    ReplyChannelRange(ReplyChannelRange),
    GossipTimestampFilter(GossipTimestampFilter),
    AssignFunds(AssignFunds),
}

impl Messages {
    /// The wire type discriminant of this message.
    pub open spec fn type_id(&self) -> u16 {
        match self {
            Messages::Init(_) => 16,
            Messages::Error(_) => 17,
            Messages::Ping(_) => 18,
            Messages::Pong(_) => 19,
            Messages::OpenChannel(_) => 32,
            Messages::AcceptChannel(_) => 33,
            Messages::FundingCreated(_) => 34,
            Messages::FundingSigned(_) => 35,
            Messages::FundingLocked(_) => 36,
            Messages::Shutdown(_) => 38,
            Messages::ClosingSigned(_) => 39,
            Messages::UpdateAddHtlc(_) => 128,
            Messages::UpdateFulfillHtlc(_) => 130,
            Messages::UpdateFailHtlc(_) => 131,
            Messages::CommitmentSigned(_) => 132,
            Messages::RevokeAndAck(_) => 133,
            Messages::UpdateFee(_) => 134,
            Messages::UpdateFailMalformedHtlc(_) => 135,
            Messages::ChannelReestablish(_) => 136,
            Messages::ChannelAnnouncements(_) => 256,
            Messages::NodeAnnouncements(_) => 257,
            Messages::ChannelUpdate(_) => 258,
            Messages::AnnouncementSignatures(_) => 259,
            Messages::QueryShortChannelIds(_) => 261,
            Messages::ReplyShortChannelIdsEnd(_) => 262,
            Messages::QueryChannelRange(_) => 263,
            Messages::ReplyChannelRange(_) => 264,
            Messages::GossipTimestampFilter(_) => 265,
            Messages::AssignFunds(_) => 57156,
        }
    }

    /// The carried body fits its wire layout.
    pub open spec fn wf(&self) -> bool {
        match self {
            Messages::Init(m) => m.wf(),
            Messages::Error(m) => m.wf(),
            Messages::Ping(m) => m.wf(),
            Messages::Pong(data) => data@.len() <= 0xFFFF,
            Messages::OpenChannel(m) => m.wf(),
            Messages::AcceptChannel(m) => m.wf(),
            Messages::FundingCreated(m) => m.wf(),
            Messages::FundingSigned(m) => m.wf(),
            Messages::FundingLocked(m) => m.wf(),
            Messages::Shutdown(m) => m.wf(),
            Messages::ClosingSigned(m) => m.wf(),
            Messages::UpdateAddHtlc(m) => m.wf(),
            Messages::UpdateFulfillHtlc(m) => m.wf(),
            Messages::UpdateFailHtlc(m) => m.wf(),
            Messages::CommitmentSigned(m) => m.wf(),
            Messages::RevokeAndAck(m) => m.wf(),
            Messages::UpdateFee(m) => m.wf(),
            Messages::UpdateFailMalformedHtlc(m) => m.wf(),
            Messages::ChannelReestablish(m) => m.wf(),
            Messages::ChannelAnnouncements(m) => m.wf(),
            Messages::NodeAnnouncements(m) => m.wf(),
            Messages::ChannelUpdate(m) => m.wf(),
            Messages::AnnouncementSignatures(m) => m.wf(),
            Messages::QueryShortChannelIds(m) => m.wf(),
            Messages::ReplyShortChannelIdsEnd(m) => m.wf(),
            Messages::QueryChannelRange(m) => m.wf(),
            Messages::ReplyChannelRange(m) => m.wf(),
            Messages::GossipTimestampFilter(m) => m.wf(),
            Messages::AssignFunds(m) => m.wf(),
        }
    }

    /// The encoded message body, without the discriminant.
    pub open spec fn enc_body(&self) -> Seq<u8> {
        match self {
            Messages::Init(m) => m.enc(),
            Messages::Error(m) => m.enc(),
            Messages::Ping(m) => m.enc(),
            Messages::Pong(data) => codec::enc_bytes16(data@),
            Messages::OpenChannel(m) => m.enc(),
            Messages::AcceptChannel(m) => m.enc(),
            Messages::FundingCreated(m) => m.enc(),
            Messages::FundingSigned(m) => m.enc(),
            Messages::FundingLocked(m) => m.enc(),
            Messages::Shutdown(m) => m.enc(),
            Messages::ClosingSigned(m) => m.enc(),
            Messages::UpdateAddHtlc(m) => m.enc(),
            Messages::UpdateFulfillHtlc(m) => m.enc(),
            Messages::UpdateFailHtlc(m) => m.enc(),
            Messages::CommitmentSigned(m) => m.enc(),
            Messages::RevokeAndAck(m) => m.enc(),
            Messages::UpdateFee(m) => m.enc(),
            Messages::UpdateFailMalformedHtlc(m) => m.enc(),
            Messages::ChannelReestablish(m) => m.enc(),
            Messages::ChannelAnnouncements(m) => m.enc(),
            Messages::NodeAnnouncements(m) => m.enc(),
            Messages::ChannelUpdate(m) => m.enc(),
            Messages::AnnouncementSignatures(m) => m.enc(),
            Messages::QueryShortChannelIds(m) => m.enc(),
            Messages::ReplyShortChannelIdsEnd(m) => m.enc(),
            Messages::QueryChannelRange(m) => m.enc(),
            Messages::ReplyChannelRange(m) => m.enc(),
            Messages::GossipTimestampFilter(m) => m.enc(),
            Messages::AssignFunds(m) => m.enc(),
        }
    }

    /// The wire encoding: the big-endian discriminant, then the body.
    pub open spec fn enc(&self) -> Seq<u8> {
        codec::enc_u16(self.type_id()) + self.enc_body()
    }

    /// Appends the discriminant and the encoded body to the sink.
    pub fn lightning_encode(&self, out: &mut Vec<u8>) -> (r: Result<usize, codec::Error>)
        requires
            self.wf(),
        ensures
            r matches Ok(n) && n == self.enc().len() && final(out)@ == old(out)@ + self.enc(),
    {
        let start = out.len();
        codec::write_u16(self.type_id_exec(), out);
        match self {
            Messages::Init(m) => {
                m.lightning_encode(out);
            },
            Messages::Error(m) => {
                m.lightning_encode(out);
            },
            Messages::Ping(m) => {
                m.lightning_encode(out);
            },
            Messages::Pong(data) => {
                match codec::write_bytes16(data.as_slice(), out) {
                    Ok(_) => (),
                    Err(_) => {
                        proof {
                            assert(false);
                        }
                    },
                }
            },
            Messages::OpenChannel(m) => {
                m.lightning_encode(out);
            },
            Messages::AcceptChannel(m) => {
                m.lightning_encode(out);
            },
            Messages::FundingCreated(m) => {
                m.lightning_encode(out);
            },
            Messages::FundingSigned(m) => {
                m.lightning_encode(out);
            },
            Messages::FundingLocked(m) => {
                m.lightning_encode(out);
            },
            Messages::Shutdown(m) => {
                m.lightning_encode(out);
            },
            Messages::ClosingSigned(m) => {
                m.lightning_encode(out);
            },
            Messages::UpdateAddHtlc(m) => {
                m.lightning_encode(out);
            },
            Messages::UpdateFulfillHtlc(m) => {
                m.lightning_encode(out);
            },
            Messages::UpdateFailHtlc(m) => {
                m.lightning_encode(out);
            },
            Messages::CommitmentSigned(m) => {
                m.lightning_encode(out);
            },
            Messages::RevokeAndAck(m) => {
                m.lightning_encode(out);
            },
            Messages::UpdateFee(m) => {
                m.lightning_encode(out);
            },
            Messages::UpdateFailMalformedHtlc(m) => {
                m.lightning_encode(out);
            },
            Messages::ChannelReestablish(m) => {
                m.lightning_encode(out);
            },
            Messages::ChannelAnnouncements(m) => {
                m.lightning_encode(out);
            },
            Messages::NodeAnnouncements(m) => {
                m.lightning_encode(out);
            },
            Messages::ChannelUpdate(m) => {
                m.lightning_encode(out);
            },
            Messages::AnnouncementSignatures(m) => {
                m.lightning_encode(out);
            },
            Messages::QueryShortChannelIds(m) => {
                m.lightning_encode(out);
            },
            Messages::ReplyShortChannelIdsEnd(m) => {
                m.lightning_encode(out);
            },
            Messages::QueryChannelRange(m) => {
                m.lightning_encode(out);
            },
            Messages::ReplyChannelRange(m) => {
                m.lightning_encode(out);
            },
            Messages::GossipTimestampFilter(m) => {
                m.lightning_encode(out);
            },
            Messages::AssignFunds(m) => {
                m.lightning_encode(out);
            },
        }
        proof {
            assert(out@ =~= old(out)@ + self.enc());
        }
        Ok(out.len() - start)
    }

    /// The wire type discriminant of this message.
    pub fn type_id_exec(&self) -> (r: u16)
        ensures
            r == self.type_id(),
    {
        match self {
            Messages::Init(..) => 16,
            Messages::Error(..) => 17,
            Messages::Ping(..) => 18,
            Messages::Pong(..) => 19,
            Messages::OpenChannel(..) => 32,
            Messages::AcceptChannel(..) => 33,
            Messages::FundingCreated(..) => 34,
            Messages::FundingSigned(..) => 35,
            Messages::FundingLocked(..) => 36,
            Messages::Shutdown(..) => 38,
            Messages::ClosingSigned(..) => 39,
            Messages::UpdateAddHtlc(..) => 128,
            Messages::UpdateFulfillHtlc(..) => 130,
            Messages::UpdateFailHtlc(..) => 131,
            Messages::CommitmentSigned(..) => 132,
            Messages::RevokeAndAck(..) => 133,
            Messages::UpdateFee(..) => 134,
            Messages::UpdateFailMalformedHtlc(..) => 135,
            Messages::ChannelReestablish(..) => 136,
            Messages::ChannelAnnouncements(..) => 256,
            Messages::NodeAnnouncements(..) => 257,
            Messages::ChannelUpdate(..) => 258,
            Messages::AnnouncementSignatures(..) => 259,
            Messages::QueryShortChannelIds(..) => 261,
            Messages::ReplyShortChannelIdsEnd(..) => 262,
            Messages::QueryChannelRange(..) => 263,
            Messages::ReplyChannelRange(..) => 264,
            Messages::GossipTimestampFilter(..) => 265,
            Messages::AssignFunds(..) => 57156,
        }
    }

    /// Reads the body of a setup or channel-establishment message.
    #[verifier::rlimit(100)]
    fn decode_body_setup(tag: u16, d: &[u8], p1: usize) -> (r: Result<(Messages, usize), codec::Error>)
        ensures
            match r {
                Ok((v, end)) => v.wf() && v.type_id() == tag && p1 <= end <= d@.len()
                    && v.enc_body() == d@.subrange(p1 as int, end as int) && end
                    == messages_body_parse_end(tag, d@, p1 as int),
                Err(e) => (e == codec::Error::Io || e == codec::Error::DataIntegrityError) && ((tag < 39)
                    ==> messages_body_parse_end(tag, d@, p1 as int) < 0),
            },
    {
        proof {
            reveal(messages_body_parse_end);
        }
        match tag {
            16 => match Init::lightning_decode(d, p1) {
                Ok((m, end)) => Ok((Messages::Init(m), end)),
                Err(e) => Err(e),
            },
            17 => match Error::lightning_decode(d, p1) {
                Ok((m, end)) => Ok((Messages::Error(m), end)),
                Err(e) => Err(e),
            },
            18 => match Ping::lightning_decode(d, p1) {
                Ok((m, end)) => Ok((Messages::Ping(m), end)),
                Err(e) => Err(e),
            },
            19 => match codec::read_bytes16(d, p1) {
                Ok((data, end)) => Ok((Messages::Pong(data), end)),
                Err(e) => Err(e),
            },
            32 => match OpenChannel::lightning_decode(d, p1) {
                Ok((m, end)) => Ok((Messages::OpenChannel(m), end)),
                Err(e) => Err(e),
            },
            33 => match AcceptChannel::lightning_decode(d, p1) {
                Ok((m, end)) => Ok((Messages::AcceptChannel(m), end)),
                Err(e) => Err(e),
            },
            34 => match FundingCreated::lightning_decode(d, p1) {
                Ok((m, end)) => Ok((Messages::FundingCreated(m), end)),
                Err(e) => Err(e),
            },
            35 => match FundingSigned::lightning_decode(d, p1) {
                Ok((m, end)) => Ok((Messages::FundingSigned(m), end)),
                Err(e) => Err(e),
            },
            36 => match FundingLocked::lightning_decode(d, p1) {
                Ok((m, end)) => Ok((Messages::FundingLocked(m), end)),
                Err(e) => Err(e),
            },
            38 => match Shutdown::lightning_decode(d, p1) {
                Ok((m, end)) => Ok((Messages::Shutdown(m), end)),
                Err(e) => Err(e),
            },
            _ => Err(codec::Error::DataIntegrityError),
        }
    }

    /// Reads the body of a channel-operation message.
    #[verifier::rlimit(100)]
    fn decode_body_update(tag: u16, d: &[u8], p1: usize) -> (r: Result<(Messages, usize), codec::Error>)
        ensures
            match r {
                Ok((v, end)) => v.wf() && v.type_id() == tag && p1 <= end <= d@.len()
                    && v.enc_body() == d@.subrange(p1 as int, end as int) && end
                    == messages_body_parse_end(tag, d@, p1 as int),
                Err(e) => (e == codec::Error::Io || e == codec::Error::DataIntegrityError) && ((39 <= tag < 256)
                    ==> messages_body_parse_end(tag, d@, p1 as int) < 0),
            },
    {
        proof {
            reveal(messages_body_parse_end);
        }
        match tag {
            39 => match ClosingSigned::lightning_decode(d, p1) {
                Ok((m, end)) => Ok((Messages::ClosingSigned(m), end)),
                Err(e) => Err(e),
            },
            128 => match UpdateAddHtlc::lightning_decode(d, p1) {
                Ok((m, end)) => Ok((Messages::UpdateAddHtlc(m), end)),
                Err(e) => Err(e),
            },
            130 => match UpdateFulfillHtlc::lightning_decode(d, p1) {
                Ok((m, end)) => Ok((Messages::UpdateFulfillHtlc(m), end)),
                Err(e) => Err(e),
            },
            131 => match UpdateFailHtlc::lightning_decode(d, p1) {
                Ok((m, end)) => Ok((Messages::UpdateFailHtlc(m), end)),
                Err(e) => Err(e),
            },
            132 => match CommitmentSigned::lightning_decode(d, p1) {
                Ok((m, end)) => Ok((Messages::CommitmentSigned(m), end)),
                Err(e) => Err(e),
            },
            133 => match RevokeAndAck::lightning_decode(d, p1) {
                Ok((m, end)) => Ok((Messages::RevokeAndAck(m), end)),
                Err(e) => Err(e),
            },
            134 => match UpdateFee::lightning_decode(d, p1) {
                Ok((m, end)) => Ok((Messages::UpdateFee(m), end)),
                Err(e) => Err(e),
            },
            135 => match UpdateFailMalformedHtlc::lightning_decode(d, p1) {
                Ok((m, end)) => Ok((Messages::UpdateFailMalformedHtlc(m), end)),
                Err(e) => Err(e),
            },
            136 => match ChannelReestablish::lightning_decode(d, p1) {
                Ok((m, end)) => Ok((Messages::ChannelReestablish(m), end)),
                Err(e) => Err(e),
            },
            _ => Err(codec::Error::DataIntegrityError),
        }
    }

    /// Reads the body of a gossip or extension message.
    #[verifier::rlimit(100)]
    fn decode_body_gossip(tag: u16, d: &[u8], p1: usize) -> (r: Result<(Messages, usize), codec::Error>)
        ensures
            match r {
                Ok((v, end)) => v.wf() && v.type_id() == tag && p1 <= end <= d@.len()
                    && v.enc_body() == d@.subrange(p1 as int, end as int) && end
                    == messages_body_parse_end(tag, d@, p1 as int),
                Err(e) => (e == codec::Error::Io || e == codec::Error::DataIntegrityError) && ((256 <= tag)
                    ==> messages_body_parse_end(tag, d@, p1 as int) < 0),
            },
    {
        proof {
            reveal(messages_body_parse_end);
        }
        match tag {
            256 => match ChannelAnnouncements::lightning_decode(d, p1) {
                Ok((m, end)) => Ok((Messages::ChannelAnnouncements(m), end)),
                Err(e) => Err(e),
            },
            257 => match NodeAnnouncements::lightning_decode(d, p1) {
                Ok((m, end)) => Ok((Messages::NodeAnnouncements(m), end)),
                Err(e) => Err(e),
            },
            258 => match ChannelUpdate::lightning_decode(d, p1) {
                Ok((m, end)) => Ok((Messages::ChannelUpdate(m), end)),
                Err(e) => Err(e),
            },
            259 => match AnnouncementSignatures::lightning_decode(d, p1) {
                Ok((m, end)) => Ok((Messages::AnnouncementSignatures(m), end)),
                Err(e) => Err(e),
            },
            261 => match QueryShortChannelIds::lightning_decode(d, p1) {
                Ok((m, end)) => Ok((Messages::QueryShortChannelIds(m), end)),
                Err(e) => Err(e),
            },
            262 => match ReplyShortChannelIdsEnd::lightning_decode(d, p1) {
                Ok((m, end)) => Ok((Messages::ReplyShortChannelIdsEnd(m), end)),
                Err(e) => Err(e),
            },
            263 => match QueryChannelRange::lightning_decode(d, p1) {
                Ok((m, end)) => Ok((Messages::QueryChannelRange(m), end)),
                Err(e) => Err(e),
            },
            264 => match ReplyChannelRange::lightning_decode(d, p1) {
                Ok((m, end)) => Ok((Messages::ReplyChannelRange(m), end)),
                Err(e) => Err(e),
            },
            265 => match GossipTimestampFilter::lightning_decode(d, p1) {
                Ok((m, end)) => Ok((Messages::GossipTimestampFilter(m), end)),
                Err(e) => Err(e),
            },
            57156 => match AssignFunds::lightning_decode(d, p1) {
                Ok((m, end)) => Ok((Messages::AssignFunds(m), end)),
                Err(e) => Err(e),
            },
            _ => Err(codec::Error::DataIntegrityError),
        }
    }

    /// Reads the message body selected by a discriminant; an unknown
    /// discriminant is a malformed payload.
    fn decode_body(tag: u16, d: &[u8], p1: usize) -> (r: Result<(Messages, usize), codec::Error>)
        ensures
            match r {
                Ok((v, end)) => v.wf() && v.type_id() == tag && p1 <= end <= d@.len()
                    && v.enc_body() == d@.subrange(p1 as int, end as int) && end
                    == messages_body_parse_end(tag, d@, p1 as int),
                Err(e) => (e == codec::Error::Io || e == codec::Error::DataIntegrityError)
                    && messages_body_parse_end(tag, d@, p1 as int) < 0,
            },
    {
        if tag < 39 {
            Messages::decode_body_setup(tag, d, p1)
        } else if tag < 256 {
            Messages::decode_body_update(tag, d, p1)
        } else {
            Messages::decode_body_gossip(tag, d, p1)
        }
    }

    /// Reads a discriminant and the message body it selects; an unknown
    /// discriminant is a malformed payload.
    pub fn lightning_decode(d: &[u8], pos: usize) -> (r: Result<(Messages, usize), codec::Error>)
        ensures
            match r {
                Ok((v, end)) => v.wf() && pos <= end <= d@.len() && v.enc() == d@.subrange(
                    pos as int,
                    end as int,
                ) && end == messages_parse_end(d@, pos as int),
                Err(e) => (e == codec::Error::Io || e == codec::Error::DataIntegrityError)
                    && messages_parse_end(d@, pos as int) < 0,
            },
    {
        proof {
            reveal(messages_parse_end);
        }
        let (tag, p1) = match codec::read_u16(d, pos) {
            Ok(x) => x,
            Err(e) => {
                return Err(e);
            },
        };
        match Messages::decode_body(tag, d, p1) {
            Ok((v, end)) => {
                proof {
                    assert(d@.subrange(pos as int, end as int) =~= d@.subrange(pos as int, p1 as int)
                        + d@.subrange(p1 as int, end as int));
                }
                Ok((v, end))
            },
            Err(e) => Err(e),
        }
    }

    /// Encodes into a fresh byte vector.
    pub fn lightning_serialize(&self) -> (r: Result<Vec<u8>, codec::Error>)
        requires
            self.wf(),
        ensures
            r matches Ok(v) && v@ == self.enc(),
    {
        let mut out: Vec<u8> = Vec::new();
        match self.lightning_encode(&mut out) {
            Ok(_) => Ok(out),
            Err(e) => Err(e),
        }
    }

    /// Decodes from a byte string that must hold exactly one message:
    /// trailing bytes after the message fail the decode.
    pub fn lightning_deserialize(d: &[u8]) -> (r: Result<Messages, codec::Error>)
        ensures
            match r {
                Ok(v) => v.wf() && v.enc() == d@ && messages_parse_end(d@, 0) == d@.len(),
                Err(codec::Error::Io) => messages_parse_end(d@, 0) < 0,
                Err(codec::Error::DataIntegrityError) => messages_parse_end(d@, 0) < 0,
                Err(codec::Error::DataNotEntirelyConsumed) => 0 <= messages_parse_end(d@, 0)
                    < d@.len(),
                Err(_) => false,
            },
    {
        match Messages::lightning_decode(d, 0) {
            Ok((v, end)) => {
                if end == d.len() {
                    proof {
                        assert(d@.subrange(0, d@.len() as int) =~= d@);
                    }
                    Ok(v)
                } else {
                    Err(codec::Error::DataNotEntirelyConsumed)
                }
            },
            Err(e) => Err(e),
        }
    }
}


impl OpenChannel {
    /// A placeholder proposal with zeroed amounts and placeholder keys,
    /// replaced before use.
    pub fn dumb_default() -> (r: OpenChannel)
        ensures
            r.wf(),
            r.funding_satoshis == 0 && r.push_msat == 0,
    {
        OpenChannel {
            chain_hash: Slice32 { bytes: zero_bytes(32) },
            temporary_channel_id: TempChannelId { id: Slice32 { bytes: zero_bytes(32) } },
            funding_satoshis: 0,
            push_msat: 0,
            dust_limit_satoshis: 0,
            max_htlc_value_in_flight_msat: 0,
            channel_reserve_satoshis: 0,
            htlc_minimum_msat: 0,
            feerate_per_kw: 0,
            to_self_delay: 0,
            max_accepted_htlcs: 0,
            funding_pubkey: PublicKey { bytes: zero_bytes(33) },
            revocation_basepoint: PublicKey { bytes: zero_bytes(33) },
            payment_point: PublicKey { bytes: zero_bytes(33) },
            delayed_payment_basepoint: PublicKey { bytes: zero_bytes(33) },
            htlc_basepoint: PublicKey { bytes: zero_bytes(33) },
            first_per_commitment_point: PublicKey { bytes: zero_bytes(33) },
            channel_flags: 0,
        }
    }
}

impl OnionPacket {
    /// A placeholder onion with a placeholder key and empty payload.
    pub fn dumb_default() -> (r: OnionPacket)
        ensures
            r.wf(),
            r.version == 0 && r.hop_data@.len() == 0,
    {
        OnionPacket {
            version: 0,
            public_key: PublicKey { bytes: zero_bytes(33) },
            hop_data: Vec::new(),
            hmac: Slice32 { bytes: zero_bytes(32) },
        }
    }
}


/// A well-formed `FundingSigned` encoding parses: wherever the bytes of
/// `v.enc()` stand in a stream, the decoder's success condition holds there
/// and covers exactly those bytes, so decoding an encoding is owed to
/// succeed and to return a value with the same encoding.
pub proof fn lemma_funding_signed_encoding_parses(v: FundingSigned, d: Seq<u8>, pos: int)
    requires
        v.wf(),
        0 <= pos,
        pos + v.enc().len() <= d.len(),
        d.subrange(pos, pos + v.enc().len()) == v.enc(),
    ensures
        funding_signed_parse_end(d, pos) == pos + v.enc().len(),
{
    reveal(funding_signed_parse_end);
    assert(v.enc().len() == 96);
}

/// A well-formed `FundingCreated` encoding parses (see
/// [`lemma_funding_signed_encoding_parses`]).
pub proof fn lemma_funding_created_encoding_parses(v: FundingCreated, d: Seq<u8>, pos: int)
    requires
        v.wf(),
        0 <= pos,
        pos + v.enc().len() <= d.len(),
        d.subrange(pos, pos + v.enc().len()) == v.enc(),
    ensures
        funding_created_parse_end(d, pos) == pos + v.enc().len(),
{
    reveal(funding_created_parse_end);
    codec::lemma_enc_widths();
    assert(v.enc().len() == 130);
}

/// A well-formed `FundingLocked` encoding with a valid per-commitment point
/// parses (see [`lemma_funding_signed_encoding_parses`]).
pub proof fn lemma_funding_locked_encoding_parses(v: FundingLocked, d: Seq<u8>, pos: int)
    requires
        v.wf(),
        v.next_per_commitment_point.valid(),
        0 <= pos,
        pos + v.enc().len() <= d.len(),
        d.subrange(pos, pos + v.enc().len()) == v.enc(),
    ensures
        funding_locked_parse_end(d, pos) == pos + v.enc().len(),
{
    reveal(funding_locked_parse_end);
    assert(v.enc().len() == 65);
    assert(d.subrange(pos + 32, pos + 65) =~= d.subrange(pos, pos + 65).subrange(32, 65));
    assert(v.enc().subrange(32, 65) =~= v.next_per_commitment_point.bytes@);
}

/// A well-formed `Ping` encoding parses (see
/// [`lemma_funding_signed_encoding_parses`]).
pub proof fn lemma_ping_encoding_parses(v: Ping, d: Seq<u8>, pos: int)
    requires
        v.wf(),
        0 <= pos,
        pos + v.enc().len() <= d.len(),
        d.subrange(pos, pos + v.enc().len()) == v.enc(),
    ensures
        ping_parse_end(d, pos) == pos + v.enc().len(),
{
    reveal(ping_parse_end);
    codec::lemma_enc_widths();
    codec::lemma_bytes16_round_trip(v.ignored@);
    assert(v.enc().len() == 4 + v.ignored@.len());
    assert(d.subrange(pos, pos + 2) =~= d.subrange(pos, pos + v.enc().len() as int).subrange(
        0,
        2,
    ));
    assert(v.enc().subrange(0, 2) =~= codec::enc_bytes16(v.ignored@).subrange(0, 2));
}

/// A well-formed `AcceptChannel` encoding whose six basepoints are valid
/// curve points parses (see [`lemma_funding_signed_encoding_parses`]).
pub proof fn lemma_accept_channel_encoding_parses(v: AcceptChannel, d: Seq<u8>, pos: int)
    requires
        v.wf(),
        v.funding_pubkey.valid(),
        v.revocation_basepoint.valid(),
        v.payment_point.valid(),
        v.delayed_payment_basepoint.valid(),
        v.htlc_basepoint.valid(),
        v.first_per_commitment_point.valid(),
        0 <= pos,
        pos + v.enc().len() <= d.len(),
        d.subrange(pos, pos + v.enc().len()) == v.enc(),
    ensures
        accept_channel_parse_end(d, pos) == pos + v.enc().len(),
{
    reveal(accept_channel_parse_end);
    codec::lemma_enc_widths();
    assert(v.enc().len() == 270);
    assert(d.subrange(pos + 72, pos + 105) =~= d.subrange(pos, pos + 270).subrange(72, 105));
    assert(v.enc().subrange(72, 105) =~= v.funding_pubkey.bytes@);
    assert(d.subrange(pos + 105, pos + 138) =~= d.subrange(pos, pos + 270).subrange(105, 138));
    assert(v.enc().subrange(105, 138) =~= v.revocation_basepoint.bytes@);
    assert(d.subrange(pos + 138, pos + 171) =~= d.subrange(pos, pos + 270).subrange(138, 171));
    assert(v.enc().subrange(138, 171) =~= v.payment_point.bytes@);
    assert(d.subrange(pos + 171, pos + 204) =~= d.subrange(pos, pos + 270).subrange(171, 204));
    assert(v.enc().subrange(171, 204) =~= v.delayed_payment_basepoint.bytes@);
    assert(d.subrange(pos + 204, pos + 237) =~= d.subrange(pos, pos + 270).subrange(204, 237));
    assert(v.enc().subrange(204, 237) =~= v.htlc_basepoint.bytes@);
    assert(d.subrange(pos + 237, pos + 270) =~= d.subrange(pos, pos + 270).subrange(237, 270));
    assert(v.enc().subrange(237, 270) =~= v.first_per_commitment_point.bytes@);
}

/// A well-formed `OpenChannel` encoding whose six basepoints are valid
/// curve points parses (see [`lemma_funding_signed_encoding_parses`]).
pub proof fn lemma_open_channel_encoding_parses(v: OpenChannel, d: Seq<u8>, pos: int)
    requires
        v.wf(),
        v.funding_pubkey.valid(),
        v.revocation_basepoint.valid(),
        v.payment_point.valid(),
        v.delayed_payment_basepoint.valid(),
        v.htlc_basepoint.valid(),
        v.first_per_commitment_point.valid(),
        0 <= pos,
        pos + v.enc().len() <= d.len(),
        d.subrange(pos, pos + v.enc().len()) == v.enc(),
    ensures
        open_channel_parse_end(d, pos) == pos + v.enc().len(),
{
    reveal(open_channel_parse_end);
    codec::lemma_enc_widths();
    assert(v.enc_params().len() == 120);
    assert(v.enc().len() == 319);
    assert(d.subrange(pos + 120, pos + 153) =~= d.subrange(pos, pos + 319).subrange(120, 153));
    assert(v.enc().subrange(120, 153) =~= v.funding_pubkey.bytes@);
    assert(d.subrange(pos + 153, pos + 186) =~= d.subrange(pos, pos + 319).subrange(153, 186));
    assert(v.enc().subrange(153, 186) =~= v.revocation_basepoint.bytes@);
    assert(d.subrange(pos + 186, pos + 219) =~= d.subrange(pos, pos + 319).subrange(186, 219));
    assert(v.enc().subrange(186, 219) =~= v.payment_point.bytes@);
    assert(d.subrange(pos + 219, pos + 252) =~= d.subrange(pos, pos + 319).subrange(219, 252));
    assert(v.enc().subrange(219, 252) =~= v.delayed_payment_basepoint.bytes@);
    assert(d.subrange(pos + 252, pos + 285) =~= d.subrange(pos, pos + 319).subrange(252, 285));
    assert(v.enc().subrange(252, 285) =~= v.htlc_basepoint.bytes@);
    assert(d.subrange(pos + 285, pos + 318) =~= d.subrange(pos, pos + 319).subrange(285, 318));
    assert(v.enc().subrange(285, 318) =~= v.first_per_commitment_point.bytes@);
}


/// A well-formed encoding of a channel-establishment or keep-alive message
/// parses as a whole wire message: the discriminant is recognised and the
/// body's success condition holds over exactly the encoded bytes, whatever
/// follows them. Together with the decoder contracts this forces
/// `lightning_decode` to succeed on the output of `lightning_encode` and to
/// return a value with the same encoding. Messages carrying public keys
/// need them valid: the decoder deliberately rejects key bytes that are not
/// curve points, so placeholder keys do not travel.
pub proof fn lemma_message_encoding_parses(m: Messages, rest: Seq<u8>)
    requires
        m.wf(),
        match m {
            Messages::OpenChannel(x) => x.funding_pubkey.valid() && x.revocation_basepoint.valid()
                && x.payment_point.valid() && x.delayed_payment_basepoint.valid()
                && x.htlc_basepoint.valid() && x.first_per_commitment_point.valid(),
            Messages::AcceptChannel(x) => x.funding_pubkey.valid()
                && x.revocation_basepoint.valid() && x.payment_point.valid()
                && x.delayed_payment_basepoint.valid() && x.htlc_basepoint.valid()
                && x.first_per_commitment_point.valid(),
            Messages::FundingCreated(_) => true,
            Messages::FundingSigned(_) => true,
            Messages::FundingLocked(x) => x.next_per_commitment_point.valid(),
            Messages::Ping(_) => true,
            Messages::Pong(_) => true,
            _ => false,
        },
    ensures
        messages_parse_end(m.enc() + rest, 0) == m.enc().len(),
{
    reveal(messages_parse_end);
    reveal(messages_body_parse_end);
    codec::lemma_enc_widths();
    codec::lemma_fixed_width_round_trip(m.type_id(), 0, 0, 0);
    let d = m.enc() + rest;
    assert(d.subrange(0, 2) =~= codec::enc_u16(m.type_id()));
    assert(d.subrange(2, m.enc().len() as int) =~= m.enc_body());
    match m {
        Messages::OpenChannel(x) => {
            lemma_open_channel_encoding_parses(x, d, 2);
        },
        Messages::AcceptChannel(x) => {
            lemma_accept_channel_encoding_parses(x, d, 2);
        },
        Messages::FundingCreated(x) => {
            lemma_funding_created_encoding_parses(x, d, 2);
        },
        Messages::FundingSigned(x) => {
            lemma_funding_signed_encoding_parses(x, d, 2);
        },
        Messages::FundingLocked(x) => {
            lemma_funding_locked_encoding_parses(x, d, 2);
        },
        Messages::Ping(x) => {
            lemma_ping_encoding_parses(x, d, 2);
        },
        Messages::Pong(data) => {
            codec::lemma_bytes16_round_trip(data@);
            assert(d.subrange(2, 4) =~= codec::enc_bytes16(data@).subrange(0, 2));
        },
        _ => {
        },
    }
}

} // verus!
