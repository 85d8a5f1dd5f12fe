//! Script values and channel identifiers.
//!
//! A script travels as its raw opcode bytes behind a 16-bit length prefix:
//! the decoder reads exactly that many bytes back. Scripts are deliberately
//! not routed through a consensus transaction serializer, which would add a
//! second length prefix of its own and corrupt the round trip.

use vstd::prelude::*;
use crate::codec;
use crate::codec::Error;
use crate::primitives::Slice32;
use crate::primitives::Txid;

verus! {

/// A bitcoin script: a run of raw opcode bytes.
#[derive(Clone, Debug, PartialEq, Eq)]
pub struct Script {
    pub bytes: Vec<u8>,
}

impl Script {
    /// The script must fit its 16-bit wire length prefix.
    pub open spec fn wf(&self) -> bool {
        self.bytes@.len() <= 0xFFFF
    }

    /// The wire encoding: the opcode bytes behind their length prefix.
    pub open spec fn enc(&self) -> Seq<u8> {
        codec::enc_bytes16(self.bytes@)
    }

    /// An empty script.
    pub fn new() -> (r: Script)
        ensures
            r.wf(),
            r.bytes@.len() == 0,
    {
        Script { bytes: Vec::new() }
    }

    /// Appends the length-prefixed opcode bytes to the sink.
    pub fn lightning_encode(&self, out: &mut Vec<u8>) -> (r: Result<usize, Error>)
        ensures
            match r {
                Ok(n) => self.wf() && n == 2 + self.bytes@.len() && final(out)@ == old(out)@
                    + self.enc(),
                Err(e) => e == Error::TooLargeData && !self.wf() && final(out)@ == old(out)@,
            },
    {
        codec::write_bytes16(self.bytes.as_slice(), out)
    }

    /// Reads a length prefix and exactly that many opcode bytes.
    pub fn lightning_decode(d: &[u8], pos: usize) -> (r: Result<(Script, usize), Error>)
        ensures
            match r {
                Ok((v, end)) => v.wf() && end == pos + 2 + v.bytes@.len() && end <= d@.len()
                    && v.enc() == d@.subrange(pos as int, end as int) && v.bytes@.len()
                    == codec::dec_u16(d@.subrange(pos as int, pos + 2)) as int,
                Err(e) => e == Error::Io && (d@.len() < pos + 2 || d@.len() < pos + 2
                    + codec::dec_u16(d@.subrange(pos as int, pos + 2))),
            },
    {
        match codec::read_bytes16(d, pos) {
            Ok((bytes, end)) => Ok((Script { bytes }, end)),
            Err(e) => Err(e),
        }
    }
}

/// A bare spend-condition script; a transparent wrapper around [`Script`].
#[derive(Clone, Debug, PartialEq, Eq)]
pub struct LockScript {
    pub script: Script,
}

/// A witness script wrapping a spend condition; a transparent wrapper around
/// [`Script`].
#[derive(Clone, Debug, PartialEq, Eq)]
pub struct WitnessScript {
    pub script: Script,
}

/// A transaction output's locking script; a transparent wrapper around
/// [`Script`].
#[derive(Clone, Debug, PartialEq, Eq)]
pub struct PubkeyScript {
    pub script: Script,
}

impl PubkeyScript {
    /// Copies the script into a fresh allocation.
    pub fn copy(&self) -> (r: PubkeyScript)
        ensures
            r.script.bytes@ == self.script.bytes@,
    {
        PubkeyScript { script: Script { bytes: codec::copy_bytes(self.script.bytes.as_slice()) } }
    }

    /// The wrapped script must fit its wire length prefix.
    pub open spec fn wf(&self) -> bool {
        self.script.wf()
    }

    /// The wire encoding passes through to the wrapped script.
    pub open spec fn enc(&self) -> Seq<u8> {
        self.script.enc()
    }

    /// Appends the wrapped script's encoding to the sink.
    pub fn lightning_encode(&self, out: &mut Vec<u8>) -> (r: Result<usize, Error>)
        ensures
            match r {
                Ok(n) => self.wf() && n == 2 + self.script.bytes@.len() && final(out)@ == old(out)@
                    + self.enc(),
                Err(e) => e == Error::TooLargeData && !self.wf() && final(out)@ == old(out)@,
            },
    {
        self.script.lightning_encode(out)
    }

    /// Reads a length-prefixed script.
    pub fn lightning_decode(d: &[u8], pos: usize) -> (r: Result<(PubkeyScript, usize), Error>)
        ensures
            match r {
                Ok((v, end)) => v.wf() && end == pos + 2 + v.script.bytes@.len() && end <= d@.len()
                    && v.enc() == d@.subrange(pos as int, end as int),
                Err(e) => e == Error::Io && (d@.len() < pos + 2 || d@.len() < pos + 2
                    + codec::dec_u16(d@.subrange(pos as int, pos + 2))),
            },
    {
        match Script::lightning_decode(d, pos) {
            Ok((script, end)) => Ok((PubkeyScript { script }, end)),
            Err(e) => Err(e),
        }
    }

    /// Encodes into a fresh byte vector.
    pub fn lightning_serialize(&self) -> (r: Result<Vec<u8>, Error>)
        ensures
            match r {
                Ok(v) => self.wf() && v@ == self.enc(),
                Err(e) => e == Error::TooLargeData && !self.wf(),
            },
    {
        let mut out: Vec<u8> = Vec::new();
        match self.lightning_encode(&mut out) {
            Ok(_) => Ok(out),
            Err(e) => Err(e),
        }
    }

    /// Decodes from a byte string that must hold exactly one script: trailing
    /// bytes after the script fail the decode.
    pub fn lightning_deserialize(d: &[u8]) -> (r: Result<PubkeyScript, Error>)
        ensures
            match r {
                Ok(v) => v.wf() && v.enc() == d@,
                Err(Error::Io) => d@.len() < 2 || d@.len() < 2 + codec::dec_u16(
                    d@.subrange(0, 2),
                ),
                Err(Error::DataNotEntirelyConsumed) => d@.len() > 2 + codec::dec_u16(
                    d@.subrange(0, 2),
                ),
                Err(_) => false,
            },
    {
        match PubkeyScript::lightning_decode(d, 0) {
            Ok((v, end)) => {
                if end == d.len() {
                    proof {
                        assert(d@.subrange(0, d@.len() as int) =~= d@);
                    }
                    Ok(v)
                } else {
                    proof {
                        assert(codec::dec_u16(v.enc().subrange(0, 2)) == v.script.bytes@.len()) by {
                            codec::lemma_bytes16_round_trip(v.script.bytes@);
                        }
                        assert(d@.subrange(0, 2) =~= v.enc().subrange(0, 2));
                    }
                    Err(Error::DataNotEntirelyConsumed)
                }
            },
            Err(e) => Err(e),
        }
    }
}

/// A temporary channel identifier, used until the funding outpoint is known.
#[derive(Clone, Debug, PartialEq, Eq)]
pub struct TempChannelId {
    pub id: Slice32,
}

/// The final channel identifier, derived from the funding transaction.
#[derive(Clone, Debug, PartialEq, Eq)]
pub struct ChannelId {
    pub id: Slice32,
}

/// The final channel identifier's bytes: the funding transaction id with its
/// last two bytes XOR-combined with the big-endian funding output index.
pub open spec fn channel_id_bytes(txid: Seq<u8>, idx: u16) -> Seq<u8>
    recommends
        txid.len() == 32,
{
    txid.update(30, txid[30] ^ (idx / 0x100) as u8).update(31, txid[31] ^ (idx % 0x100) as u8)
}

impl TempChannelId {
    /// A well-formed identifier holds 32 bytes.
    pub open spec fn wf(&self) -> bool {
        self.id.wf()
    }
}

impl ChannelId {
    /// A well-formed identifier holds 32 bytes.
    pub open spec fn wf(&self) -> bool {
        self.id.wf()
    }

    /// Derives the final channel identifier from the funding transaction id
    /// and the funding output index.
    pub fn with(funding_txid: &Txid, funding_output_index: u16) -> (r: ChannelId)
        requires
            funding_txid.wf(),
        ensures
            r.wf(),
            r.id.bytes@ == channel_id_bytes(funding_txid.bytes@, funding_output_index),
    {
        let mut bytes: Vec<u8> = Vec::new();
        codec::append_bytes(funding_txid.bytes.as_slice(), &mut bytes);
        let b30 = bytes[30] ^ (funding_output_index / 0x100) as u8;
        let b31 = bytes[31] ^ (funding_output_index % 0x100) as u8;
        bytes.set(30, b30);
        bytes.set(31, b31);
        let r = ChannelId { id: Slice32 { bytes } };
        proof {
            assert(r.id.bytes@ =~= channel_id_bytes(funding_txid.bytes@, funding_output_index));
        }
        r
    }
}

/// The channel identifier in active use: temporary from proposal time, and
/// replaced by the final identifier exactly once, when the funding outpoint
/// becomes known.
#[derive(Clone, Debug, PartialEq, Eq)]
pub enum ActiveChannelId {
    Temporary(TempChannelId),
    Final(ChannelId),
}

impl ActiveChannelId {
    /// Either form of the identifier holds 32 bytes.
    pub open spec fn wf(&self) -> bool {
        match self {
            ActiveChannelId::Temporary(t) => t.wf(),
            ActiveChannelId::Final(c) => c.wf(),
        }
    }

    /// Wraps a temporary identifier.
    pub fn temporary(id: TempChannelId) -> (r: ActiveChannelId)
        ensures
            r == ActiveChannelId::Temporary(id),
    {
        ActiveChannelId::Temporary(id)
    }

    /// Derives the final identifier from the funding outpoint.
    pub fn with(funding_txid: &Txid, funding_output_index: u16) -> (r: ActiveChannelId)
        requires
            funding_txid.wf(),
        ensures
            r is Final && r.wf() && r->Final_0.id.bytes@ == channel_id_bytes(
                funding_txid.bytes@,
                funding_output_index,
            ),
    {
        ActiveChannelId::Final(ChannelId::with(funding_txid, funding_output_index))
    }

    /// The final identifier, if the channel has already been assigned one.
    pub fn channel_id(&self) -> (r: Option<ChannelId>)
        ensures
            match r {
                Some(c) => self matches ActiveChannelId::Final(f) && c.id.bytes@ == f.id.bytes@,
                None => self is Temporary,
            },
    {
        match self {
            ActiveChannelId::Final(c) => {
                let mut bytes: Vec<u8> = Vec::new();
                codec::append_bytes(c.id.bytes.as_slice(), &mut bytes);
                Some(ChannelId { id: Slice32 { bytes } })
            },
            ActiveChannelId::Temporary(_) => None,
        }
    }

    /// The temporary identifier, before a final one is assigned.
    pub fn temp_channel_id(&self) -> (r: Option<TempChannelId>)
        ensures
            match r {
                Some(t) => self matches ActiveChannelId::Temporary(x) && t.id.bytes@
                    == x.id.bytes@,
                None => self is Final,
            },
    {
        match self {
            ActiveChannelId::Temporary(t) => {
                let mut bytes: Vec<u8> = Vec::new();
                codec::append_bytes(t.id.bytes.as_slice(), &mut bytes);
                Some(TempChannelId { id: Slice32 { bytes } })
            },
            ActiveChannelId::Final(_) => None,
        }
    }
}


impl TempChannelId {
    /// Copies the identifier into a fresh allocation.
    pub fn copy(&self) -> (r: TempChannelId)
        ensures
            r.id.bytes@ == self.id.bytes@,
    {
        TempChannelId { id: self.id.copy() }
    }

    /// The wire encoding passes through to the 32 identifier bytes.
    pub open spec fn enc(&self) -> Seq<u8> {
        self.id.enc()
    }

    /// Appends the 32 identifier bytes to the sink.
    pub fn lightning_encode(&self, out: &mut Vec<u8>) -> (r: Result<usize, Error>)
        requires
            self.wf(),
        ensures
            r == Ok::<usize, Error>(32usize),
            final(out)@ == old(out)@ + self.enc(),
    {
        self.id.lightning_encode(out)
    }

    /// Reads the 32 identifier bytes.
    pub fn lightning_decode(d: &[u8], pos: usize) -> (r: Result<(TempChannelId, usize), Error>)
        ensures
            match r {
                Ok((v, end)) => v.wf() && end == pos + 32 && end <= d@.len() && v.enc()
                    == d@.subrange(pos as int, end as int),
                Err(e) => e == Error::Io && d@.len() < pos + 32,
            },
    {
        match Slice32::lightning_decode(d, pos) {
            Ok((id, end)) => Ok((TempChannelId { id }, end)),
            Err(e) => Err(e),
        }
    }
}

impl ChannelId {
    /// Copies the identifier into a fresh allocation.
    pub fn copy(&self) -> (r: ChannelId)
        ensures
            r.id.bytes@ == self.id.bytes@,
    {
        ChannelId { id: self.id.copy() }
    }

    /// The wire encoding passes through to the 32 identifier bytes.
    pub open spec fn enc(&self) -> Seq<u8> {
        self.id.enc()
    }

    /// Appends the 32 identifier bytes to the sink.
    pub fn lightning_encode(&self, out: &mut Vec<u8>) -> (r: Result<usize, Error>)
        requires
            self.wf(),
        ensures
            r == Ok::<usize, Error>(32usize),
            final(out)@ == old(out)@ + self.enc(),
    {
        self.id.lightning_encode(out)
    }

    /// Reads the 32 identifier bytes.
    pub fn lightning_decode(d: &[u8], pos: usize) -> (r: Result<(ChannelId, usize), Error>)
        ensures
            match r {
                Ok((v, end)) => v.wf() && end == pos + 32 && end <= d@.len() && v.enc()
                    == d@.subrange(pos as int, end as int),
                Err(e) => e == Error::Io && d@.len() < pos + 32,
            },
    {
        match Slice32::lightning_decode(d, pos) {
            Ok((id, end)) => Ok((ChannelId { id }, end)),
            Err(e) => Err(e),
        }
    }
}

} // verus!
