//! Domain value types and their wire encodings.
//!
//! Every type here picks one of three canonical byte layouts: a fixed-width
//! byte dump (hashes and other 32-byte values), the canonical serialization
//! of the foreign domain (a public key's compressed-point encoding, a
//! signature's compact encoding), or a pass-through to the wrapped inner
//! value. Each type exposes `lightning_encode` / `lightning_decode`, whose
//! contracts tie the bytes written and read to the type's `enc` spec.

use vstd::prelude::*;
use crate::codec;
use crate::codec::Error;
use crate::crypto;

verus! {

/// A plain 32-byte value: hashes, chain identifiers, channel identifiers,
/// preimages. Encoded as a fixed-width byte dump with no length prefix, so
/// every 32-byte value shares one on-wire shape.
#[derive(Clone, Debug, PartialEq, Eq)]
pub struct Slice32 {
    pub bytes: Vec<u8>,
}

/// The genesis-block identifier selecting which blockchain a channel
/// targets; on the wire it is a plain 32-byte hash.
pub type AssetId = Slice32;

/// The hash side of a hashed time-locked contract; a plain 32-byte value.
pub type HashLock = Slice32;

/// The preimage side of a hashed time-locked contract; a plain 32-byte value.
pub type HashPreimage = Slice32;

/// A transaction identifier; a plain 32-byte hash.
pub type Txid = Slice32;

/// A keyed-hash message authentication code; a plain 32-byte value.
pub type Hmac = Slice32;

/// A node alias; a plain 32-byte value.
pub type Alias = Slice32;

impl Slice32 {
    /// A well-formed value holds exactly 32 bytes.
    pub open spec fn wf(&self) -> bool {
        self.bytes@.len() == 32
    }

    /// The wire encoding: the 32 bytes themselves.
    pub open spec fn enc(&self) -> Seq<u8> {
        self.bytes@
    }

    /// Wraps a byte vector, which must hold exactly 32 bytes.
    pub fn from_vec(bytes: Vec<u8>) -> (r: Option<Slice32>)
        ensures
            match r {
                Some(s) => s.wf() && s.bytes@ == bytes@,
                None => bytes@.len() != 32,
            },
    {
        if bytes.len() == 32 {
            Some(Slice32 { bytes })
        } else {
            None
        }
    }

    /// Copies the value into a fresh allocation.
    pub fn copy(&self) -> (r: Slice32)
        ensures
            r.bytes@ == self.bytes@,
    {
        Slice32 { bytes: codec::copy_bytes(self.bytes.as_slice()) }
    }

    /// Appends the 32 bytes to the sink.
    pub fn lightning_encode(&self, out: &mut Vec<u8>) -> (r: Result<usize, Error>)
        requires
            self.wf(),
        ensures
            r == Ok::<usize, Error>(32usize),
            final(out)@ == old(out)@ + self.enc(),
    {
        codec::append_bytes(self.bytes.as_slice(), out);
        Ok(32)
    }

    /// Reads exactly 32 bytes.
    pub fn lightning_decode(d: &[u8], pos: usize) -> (r: Result<(Slice32, usize), Error>)
        ensures
            match r {
                Ok((v, end)) => v.wf() && end == pos + 32 && end <= d@.len() && v.enc()
                    == d@.subrange(pos as int, end as int),
                Err(e) => e == Error::Io && d@.len() < pos + 32,
            },
    {
        match codec::read_exact(d, pos, 32) {
            Ok((bytes, end)) => Ok((Slice32 { bytes }, end)),
            Err(e) => Err(e),
        }
    }
}

/// A compressed secp256k1 public key: 33 bytes that form a valid SEC point
/// encoding. Its wire layout delegates to that canonical serialization.
#[derive(Clone, Debug, PartialEq, Eq)]
pub struct PublicKey {
    pub bytes: Vec<u8>,
}

impl PublicKey {
    /// A well-formed key holds exactly 33 bytes.
    pub open spec fn wf(&self) -> bool {
        self.bytes@.len() == 33
    }

    /// A valid key's bytes encode a point on the curve; the decoder insists
    /// on this, and placeholder keys (all zero) do not satisfy it.
    pub open spec fn valid(&self) -> bool {
        crypto::is_ec_point(self.bytes@)
    }

    /// The wire encoding: the compressed-point bytes themselves.
    pub open spec fn enc(&self) -> Seq<u8> {
        self.bytes@
    }

    /// Wraps a byte vector, which must hold a valid 33-byte point encoding.
    pub fn from_vec(bytes: Vec<u8>) -> (r: Option<PublicKey>)
        ensures
            match r {
                Some(s) => s.wf() && s.valid() && s.bytes@ == bytes@,
                None => bytes@.len() != 33 || !crypto::is_ec_point(bytes@),
            },
    {
        if bytes.len() == 33 && crypto::check_ec_point(bytes.as_slice()) {
            Some(PublicKey { bytes })
        } else {
            None
        }
    }

    /// Copies the key into a fresh allocation.
    pub fn copy(&self) -> (r: PublicKey)
        ensures
            r.bytes@ == self.bytes@,
    {
        PublicKey { bytes: codec::copy_bytes(self.bytes.as_slice()) }
    }

    /// Appends the 33 key bytes to the sink.
    pub fn lightning_encode(&self, out: &mut Vec<u8>) -> (r: Result<usize, Error>)
        requires
            self.wf(),
        ensures
            r == Ok::<usize, Error>(33usize),
            final(out)@ == old(out)@ + self.enc(),
    {
        codec::append_bytes(self.bytes.as_slice(), out);
        Ok(33)
    }

    /// Reads exactly 33 bytes and rejects them unless they encode a curve
    /// point.
    pub fn lightning_decode(d: &[u8], pos: usize) -> (r: Result<(PublicKey, usize), Error>)
        ensures
            match r {
                Ok((v, end)) => v.wf() && v.valid() && end == pos + 33 && end <= d@.len()
                    && v.enc() == d@.subrange(pos as int, end as int),
                Err(Error::Io) => d@.len() < pos + 33,
                Err(Error::DataIntegrityError) => pos + 33 <= d@.len() && !crypto::is_ec_point(
                    d@.subrange(pos as int, pos + 33),
                ),
                Err(_) => false,
            },
    {
        match codec::read_exact(d, pos, 33) {
            Ok((bytes, end)) => {
                if crypto::check_ec_point(bytes.as_slice()) {
                    Ok((PublicKey { bytes }, end))
                } else {
                    Err(Error::DataIntegrityError)
                }
            },
            Err(e) => Err(e),
        }
    }
}

/// An ECDSA signature in its 64-byte compact serialization; its wire layout
/// delegates to that canonical encoding.
#[derive(Clone, Debug, PartialEq, Eq)]
pub struct Signature {
    pub bytes: Vec<u8>,
}

impl Signature {
    /// A well-formed signature holds exactly 64 bytes.
    pub open spec fn wf(&self) -> bool {
        self.bytes@.len() == 64
    }

    /// The wire encoding: the compact bytes themselves.
    pub open spec fn enc(&self) -> Seq<u8> {
        self.bytes@
    }

    /// Wraps a byte vector, which must hold exactly 64 bytes.
    pub fn from_vec(bytes: Vec<u8>) -> (r: Option<Signature>)
        ensures
            match r {
                Some(s) => s.wf() && s.bytes@ == bytes@,
                None => bytes@.len() != 64,
            },
    {
        if bytes.len() == 64 {
            Some(Signature { bytes })
        } else {
            None
        }
    }

    /// Copies the signature into a fresh allocation.
    pub fn copy(&self) -> (r: Signature)
        ensures
            r.bytes@ == self.bytes@,
    {
        Signature { bytes: codec::copy_bytes(self.bytes.as_slice()) }
    }

    /// Appends the 64 signature bytes to the sink.
    pub fn lightning_encode(&self, out: &mut Vec<u8>) -> (r: Result<usize, Error>)
        requires
            self.wf(),
        ensures
            r == Ok::<usize, Error>(64usize),
            final(out)@ == old(out)@ + self.enc(),
    {
        codec::append_bytes(self.bytes.as_slice(), out);
        Ok(64)
    }

    /// Reads exactly 64 bytes.
    pub fn lightning_decode(d: &[u8], pos: usize) -> (r: Result<(Signature, usize), Error>)
        ensures
            match r {
                Ok((v, end)) => v.wf() && end == pos + 64 && end <= d@.len() && v.enc()
                    == d@.subrange(pos as int, end as int),
                Err(e) => e == Error::Io && d@.len() < pos + 64,
            },
    {
        match codec::read_exact(d, pos, 64) {
            Ok((bytes, end)) => Ok((Signature { bytes }, end)),
            Err(e) => Err(e),
        }
    }
}

/// An RGB colour code carried in node announcements; three fixed bytes.
#[derive(Clone, Copy, Debug, PartialEq, Eq, Structural)]
pub struct NodeColor {
    pub red: u8,
    pub green: u8,
    pub blue: u8,
}

impl NodeColor {
    /// The wire encoding: the three colour bytes.
    pub open spec fn enc(&self) -> Seq<u8> {
        seq![self.red, self.green, self.blue]
    }

    /// Appends the three colour bytes to the sink.
    pub fn lightning_encode(&self, out: &mut Vec<u8>) -> (r: Result<usize, Error>)
        ensures
            r == Ok::<usize, Error>(3usize),
            final(out)@ == old(out)@ + self.enc(),
    {
        out.push(self.red);
        out.push(self.green);
        out.push(self.blue);
        proof {
            assert(out@ =~= old(out)@ + self.enc());
        }
        Ok(3)
    }

    /// Reads the three colour bytes.
    pub fn lightning_decode(d: &[u8], pos: usize) -> (r: Result<(NodeColor, usize), Error>)
        ensures
            match r {
                Ok((v, end)) => end == pos + 3 && end <= d@.len() && v.enc() == d@.subrange(
                    pos as int,
                    end as int,
                ),
                Err(e) => e == Error::Io && d@.len() < pos + 3,
            },
    {
        if pos < d.len() && d.len() - pos >= 3 {
            let v = NodeColor { red: d[pos], green: d[pos + 1], blue: d[pos + 2] };
            proof {
                assert(d@.subrange(pos as int, pos + 3) =~= v.enc());
            }
            Ok((v, pos + 3))
        } else {
            Err(Error::Io)
        }
    }
}

/// A short channel identifier: the block height and transaction index (24
/// bits each) and the output index (16 bits) locating the funding output.
#[derive(Clone, Copy, Debug, PartialEq, Eq, Structural)]
pub struct ShortChannelId {
    pub block_height: u32,
    pub tx_index: u32,
    pub output_index: u16,
}

impl ShortChannelId {
    /// The height and index must fit their 24-bit wire fields.
    pub open spec fn wf(&self) -> bool {
        self.block_height < 0x1000000 && self.tx_index < 0x1000000
    }

    /// The wire encoding: height and transaction index as 24-bit big-endian
    /// integers, then the output index as 16 bits; 8 bytes in all.
    pub open spec fn enc(&self) -> Seq<u8> {
        codec::enc_u24(self.block_height) + codec::enc_u24(self.tx_index) + codec::enc_u16(
            self.output_index,
        )
    }

    /// Appends the 8-byte identifier to the sink.
    pub fn lightning_encode(&self, out: &mut Vec<u8>) -> (r: Result<usize, Error>)
        requires
            self.wf(),
        ensures
            r == Ok::<usize, Error>(8usize),
            final(out)@ == old(out)@ + self.enc(),
    {
        codec::write_u24(self.block_height, out);
        codec::write_u24(self.tx_index, out);
        codec::write_u16(self.output_index, out);
        proof {
            assert(out@ =~= old(out)@ + self.enc());
        }
        Ok(8)
    }

    /// Reads the 8-byte identifier.
    pub fn lightning_decode(d: &[u8], pos: usize) -> (r: Result<(ShortChannelId, usize), Error>)
        ensures
            match r {
                Ok((v, end)) => v.wf() && end == pos + 8 && end <= d@.len() && v.enc()
                    == d@.subrange(pos as int, end as int),
                Err(e) => e == Error::Io && d@.len() < pos + 8,
            },
    {
        let (block_height, p1) = match codec::read_u24(d, pos) {
            Ok(x) => x,
            Err(e) => {
                return Err(e);
            },
        };
        let (tx_index, p2) = match codec::read_u24(d, p1) {
            Ok(x) => x,
            Err(e) => {
                return Err(e);
            },
        };
        let (output_index, end) = match codec::read_u16(d, p2) {
            Ok(x) => x,
            Err(e) => {
                return Err(e);
            },
        };
        let v = ShortChannelId { block_height, tx_index, output_index };
        proof {
            assert(d@.subrange(pos as int, end as int) =~= v.enc());
        }
        Ok((v, end))
    }
}

/// An opaque run of serialized network addresses, carried behind a 16-bit
/// length prefix in node announcements.
#[derive(Clone, Debug, PartialEq, Eq)]
pub struct AddressList {
    pub bytes: Vec<u8>,
}

impl AddressList {
    /// The run must fit its 16-bit length prefix.
    pub open spec fn wf(&self) -> bool {
        self.bytes@.len() <= 0xFFFF
    }

    /// The wire encoding: the raw bytes behind their length prefix.
    pub open spec fn enc(&self) -> Seq<u8> {
        codec::enc_bytes16(self.bytes@)
    }

    /// Appends the length-prefixed address bytes to the sink.
    pub fn lightning_encode(&self, out: &mut Vec<u8>) -> (r: Result<usize, Error>)
        ensures
            match r {
                Ok(n) => self.wf() && n == 2 + self.bytes@.len() && final(out)@ == old(out)@
                    + self.enc(),
                Err(e) => e == Error::TooLargeData && !self.wf() && final(out)@ == old(out)@,
            },
    {
        codec::write_bytes16(self.bytes.as_slice(), out)
    }

    /// Reads a length prefix and that many address bytes.
    pub fn lightning_decode(d: &[u8], pos: usize) -> (r: Result<(AddressList, usize), Error>)
        ensures
            match r {
                Ok((v, end)) => v.wf() && end == pos + 2 + v.bytes@.len() && end <= d@.len()
                    && v.enc() == d@.subrange(pos as int, end as int) && v.bytes@.len()
                    == codec::dec_u16(d@.subrange(pos as int, pos + 2)) as int,
                Err(e) => e == Error::Io && (d@.len() < pos + 2 || d@.len() < pos + 2 + codec::dec_u16(
                    d@.subrange(pos as int, pos + 2),
                )),
            },
    {
        match codec::read_bytes16(d, pos) {
            Ok((bytes, end)) => Ok((AddressList { bytes }, end)),
            Err(e) => Err(e),
        }
    }
}


/// Trailing zero bytes of a flag vector carry no set flags; the canonical
/// form drops them.
pub open spec fn shrunk(s: Seq<u8>) -> Seq<u8>
    decreases s.len(),
{
    if s.len() == 0 || s.last() != 0 {
        s
    } else {
        shrunk(s.drop_last())
    }
}

/// Reverses a byte vector.
pub fn reverse_bytes(v: &[u8]) -> (r: Vec<u8>)
    ensures
        r@ == v@.reverse(),
{
    let mut out: Vec<u8> = Vec::new();
    let n = v.len();
    let mut i: usize = 0;
    while i < n
        invariant
            i <= n,
            n == v@.len(),
            out@ == v@.reverse().subrange(0, i as int),
        decreases n - i,
    {
        out.push(v[n - 1 - i]);
        i = i + 1;
        proof {
            assert(out@ =~= v@.reverse().subrange(0, i as int));
        }
    }
    proof {
        assert(out@ =~= v@.reverse());
    }
    out
}

/// A vector of feature flags, eight flags to a byte, with the lowest-numbered
/// flags in the first byte. Kept canonical: the last byte always carries a
/// set flag. On the wire the bytes travel in the opposite order, behind a
/// 16-bit length prefix.
#[derive(Clone, Debug, PartialEq, Eq)]
pub struct Features {
    pub flags: Vec<u8>,
}

/// Feature flag sets travel as `Features` too.
pub type FlagVec = Features;

impl Features {
    /// A well-formed flag vector is canonical (no trailing zero byte) and
    /// fits its 16-bit length prefix.
    pub open spec fn wf(&self) -> bool {
        (self.flags@.len() == 0 || self.flags@.last() != 0) && self.flags@.len() <= 0xFFFF
    }

    /// The wire encoding: the flag bytes reversed, behind a length prefix.
    pub open spec fn enc(&self) -> Seq<u8> {
        codec::enc_bytes16(self.flags@.reverse())
    }

    /// An empty flag vector.
    pub fn new() -> (r: Features)
        ensures
            r.wf(),
            r.flags@.len() == 0,
    {
        Features { flags: Vec::new() }
    }

    /// Wraps a byte vector of flags, dropping trailing zero bytes so the
    /// result is canonical.
    pub fn from_vec(bytes: Vec<u8>) -> (r: Option<Features>)
        ensures
            match r {
                Some(v) => v.wf() && v.flags@ == shrunk(bytes@),
                None => bytes@.len() > 0xFFFF,
            },
    {
        if bytes.len() > 0xFFFF {
            return None;
        }
        let mut flags = bytes;
        while flags.len() > 0 && flags[flags.len() - 1] == 0
            invariant
                shrunk(flags@) == shrunk(bytes@),
                flags@.len() <= bytes@.len(),
            decreases flags@.len(),
        {
            proof {
                assert(flags@.drop_last() =~= flags@.subrange(0, flags@.len() - 1));
            }
            flags.pop();
        }
        Some(Features { flags })
    }

    /// Appends the length-prefixed, reversed flag bytes to the sink.
    pub fn lightning_encode(&self, out: &mut Vec<u8>) -> (r: Result<usize, Error>)
        requires
            self.wf(),
        ensures
            match r {
                Ok(n) => n == 2 + self.flags@.len() && final(out)@ == old(out)@ + self.enc(),
                Err(_) => false,
            },
    {
        let rev = reverse_bytes(self.flags.as_slice());
        match codec::write_bytes16(rev.as_slice(), out) {
            Ok(n) => Ok(n),
            Err(e) => Err(e),
        }
    }

    /// Reads a length prefix and that many flag bytes, reversing them into
    /// flag order. A non-canonical vector — one whose wire form begins with a
    /// zero byte, which would be a trailing zero flag byte — is rejected.
    pub fn lightning_decode(d: &[u8], pos: usize) -> (r: Result<(Features, usize), Error>)
        ensures
            match r {
                Ok((v, end)) => v.wf() && pos + 2 <= end <= d@.len() && end == pos + 2
                    + v.flags@.len() && v.enc() == d@.subrange(pos as int, end as int)
                    && v.flags@.len() == codec::dec_u16(d@.subrange(pos as int, pos + 2)) as int
                    && (v.flags@.len() > 0 ==> d@[pos + 2] != 0),
                Err(Error::Io) => d@.len() < pos + 2 || d@.len() < pos + 2 + codec::dec_u16(
                    d@.subrange(pos as int, pos + 2),
                ),
                Err(Error::DataIntegrityError) => pos + 2 + codec::dec_u16(
                    d@.subrange(pos as int, pos + 2),
                ) <= d@.len() && codec::dec_u16(d@.subrange(pos as int, pos + 2)) > 0
                    && d@[pos + 2] == 0,
                Err(_) => false,
            },
    {
        match codec::read_bytes16(d, pos) {
            Ok((raw, end)) => {
                if raw.len() > 0 && raw[0] == 0 {
                    proof {
                        codec::lemma_bytes16_round_trip(raw@);
                        assert(d@[pos + 2] == raw@[0]) by {
                            assert(d@.subrange(pos as int, end as int)[2] == d@[pos + 2]);
                            assert(codec::enc_bytes16(raw@).subrange(
                                2,
                                codec::enc_bytes16(raw@).len() as int,
                            )[0] == codec::enc_bytes16(raw@)[2]);
                        }
                    }
                    return Err(Error::DataIntegrityError);
                }
                let rev = reverse_bytes(raw.as_slice());
                let v = Features { flags: rev };
                proof {
                    assert(raw@.reverse().reverse() =~= raw@);
                    if raw@.len() > 0 {
                        assert(v.flags@.last() == raw@[0]);
                        codec::lemma_bytes16_round_trip(raw@);
                        assert(d@[pos + 2] == raw@[0]) by {
                            assert(d@.subrange(pos as int, end as int)[2] == d@[pos + 2]);
                            assert(codec::enc_bytes16(raw@).subrange(
                                2,
                                codec::enc_bytes16(raw@).len() as int,
                            )[0] == codec::enc_bytes16(raw@)[2]);
                        }
                    }
                }
                Ok((v, end))
            },
            Err(e) => Err(e),
        }
    }
}

/// A canonical flag vector comes back unchanged from the wire: reversing
/// twice is the identity, and a canonical vector has nothing to shrink.
pub proof fn lemma_features_round_trip(v: Features)
    requires
        v.wf(),
    ensures
        shrunk(v.flags@.reverse().reverse()) == v.flags@,
        v.enc().len() == 2 + v.flags@.len(),
{
    reveal(crate::codec::enc_u16);
    assert(v.flags@.reverse().reverse() =~= v.flags@);
}


/// A canonical flag-vector encoding decodes: wherever the bytes of `v.enc()`
/// stand in a stream, both of the decoder's error conditions are refuted —
/// the run is not truncated, and its first wire byte carries the last,
/// necessarily set, flag byte — so decoding an encoding is owed to succeed
/// and, by the reversal identity, to return `v` itself.
pub proof fn lemma_features_encoding_decodes(v: Features, d: Seq<u8>, pos: int)
    requires
        v.wf(),
        0 <= pos,
        pos + v.enc().len() <= d.len(),
        d.subrange(pos, pos + v.enc().len()) == v.enc(),
    ensures
        codec::dec_u16(d.subrange(pos, pos + 2)) == v.flags@.len(),
        pos + 2 + codec::dec_u16(d.subrange(pos, pos + 2)) <= d.len(),
        v.flags@.len() > 0 ==> d[pos + 2] != 0,
{
    let rev = v.flags@.reverse();
    codec::lemma_bytes16_round_trip(rev);
    assert(v.enc().len() == 2 + v.flags@.len());
    assert(d.subrange(pos, pos + 2) =~= d.subrange(pos, pos + v.enc().len() as int).subrange(
        0,
        2,
    ));
    assert(v.enc().subrange(0, 2) =~= codec::enc_bytes16(rev).subrange(0, 2));
    if v.flags@.len() > 0 {
        assert(d[pos + 2] == rev[0]) by {
            assert(d.subrange(pos, pos + v.enc().len() as int)[2] == d[pos + 2]);
            assert(codec::enc_bytes16(rev).subrange(2, codec::enc_bytes16(rev).len() as int)[0]
                == codec::enc_bytes16(rev)[2]);
        }
        assert(rev[0] == v.flags@.last());
    }
}

} // verus!
