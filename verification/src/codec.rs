//! Wire encoding framework.
//!
//! Every value type of the protocol has one exact byte layout. Fixed-width
//! integers (8/16/24/32/64 bit) are unsigned big-endian. Variable-length byte
//! runs carry a 16-bit big-endian length prefix (at most 65,535 bytes; longer
//! runs fail to encode with [`Error::TooLargeData`]). Where the protocol calls
//! for a variable-length integer, the canonical minimal encoding is used: a
//! one-byte prefix selects a 1/3/5/9-byte width by value magnitude, and
//! decoding rejects any non-minimal form.
//!
//! Encoders append to a byte vector and report the number of bytes written;
//! decoders read from a byte slice at a position and report the value with the
//! position one past its encoding. The `*_deserialize` entry points insist
//! that the whole input is consumed and fail with
//! [`Error::DataNotEntirelyConsumed`] otherwise.

use vstd::prelude::*;

verus! {

/// Failures of the wire codec.
///
/// `Io` reports a truncated input (or, at an outer byte-stream boundary, a
/// stream failure); `DataIntegrityError` a malformed payload such as a
/// non-canonical variable-length integer or an invalid public key;
/// `DataNotEntirelyConsumed` trailing bytes after a complete decode;
/// `TooLargeData` a byte run longer than the 16-bit length prefix can carry.
#[derive(Clone, Copy, Debug, PartialEq, Eq, Structural)]
pub enum Error {
    Io,
    DataIntegrityError,
    DataNotEntirelyConsumed,
    TooLargeData,
}

/// Big-endian encoding of an 8-bit integer: the byte itself.
#[verifier::opaque]
pub open spec fn enc_u8(v: u8) -> Seq<u8> {
    seq![v]
}

/// Big-endian encoding of a 16-bit integer.
#[verifier::opaque]
pub open spec fn enc_u16(v: u16) -> Seq<u8> {
    seq![(v / 0x100) as u8, (v % 0x100) as u8]
}

/// Big-endian encoding of a 24-bit integer (held in a `u32`).
#[verifier::opaque]
pub open spec fn enc_u24(v: u32) -> Seq<u8>
    recommends
        v < 0x1000000,
{
    seq![(v / 0x10000) as u8, ((v / 0x100) % 0x100) as u8, (v % 0x100) as u8]
}

/// Big-endian encoding of a 32-bit integer.
#[verifier::opaque]
pub open spec fn enc_u32(v: u32) -> Seq<u8> {
    seq![
        (v / 0x1000000) as u8,
        ((v / 0x10000) % 0x100) as u8,
        ((v / 0x100) % 0x100) as u8,
        (v % 0x100) as u8,
    ]
}

/// Big-endian encoding of a 64-bit integer.
#[verifier::opaque]
pub open spec fn enc_u64(v: u64) -> Seq<u8> {
    seq![
        (v / 0x100000000000000) as u8,
        ((v / 0x1000000000000) % 0x100) as u8,
        ((v / 0x10000000000) % 0x100) as u8,
        ((v / 0x100000000) % 0x100) as u8,
        ((v / 0x1000000) % 0x100) as u8,
        ((v / 0x10000) % 0x100) as u8,
        ((v / 0x100) % 0x100) as u8,
        (v % 0x100) as u8,
    ]
}

/// The 16-bit value held by two big-endian bytes.
#[verifier::opaque]
pub open spec fn dec_u16(s: Seq<u8>) -> u16
    recommends
        s.len() == 2,
{
    (s[0] as int * 0x100 + s[1] as int) as u16
}

/// The 24-bit value held by three big-endian bytes.
#[verifier::opaque]
pub open spec fn dec_u24(s: Seq<u8>) -> u32
    recommends
        s.len() == 3,
{
    (s[0] as int * 0x10000 + s[1] as int * 0x100 + s[2] as int) as u32
}

/// The 32-bit value held by four big-endian bytes.
#[verifier::opaque]
pub open spec fn dec_u32(s: Seq<u8>) -> u32
    recommends
        s.len() == 4,
{
    (s[0] as int * 0x1000000 + s[1] as int * 0x10000 + s[2] as int * 0x100 + s[3] as int) as u32
}

/// The 64-bit value held by eight big-endian bytes.
#[verifier::opaque]
pub open spec fn dec_u64(s: Seq<u8>) -> u64
    recommends
        s.len() == 8,
{
    (s[0] as int * 0x100000000000000 + s[1] as int * 0x1000000000000 + s[2] as int
        * 0x10000000000 + s[3] as int * 0x100000000 + s[4] as int * 0x1000000 + s[5] as int
        * 0x10000 + s[6] as int * 0x100 + s[7] as int) as u64
}

proof fn lemma_u16_decompose(v: u16)
    by (bit_vector)
    ensures
        v / 0x100 < 0x100,
        (v / 0x100) * 0x100 + (v % 0x100) == v,
{
}

proof fn lemma_u24_decompose(v: u32)
    by (bit_vector)
    requires
        v < 0x1000000,
    ensures
        v / 0x10000 < 0x100,
        (v / 0x10000) * 0x10000 + ((v / 0x100) % 0x100) * 0x100 + (v % 0x100) == v,
{
}

proof fn lemma_u32_decompose(v: u32)
    by (bit_vector)
    ensures
        v / 0x1000000 < 0x100,
        (v / 0x1000000) * 0x1000000 + ((v / 0x10000) % 0x100) * 0x10000 + ((v / 0x100) % 0x100)
            * 0x100 + (v % 0x100) == v,
{
}

proof fn lemma_u64_decompose(v: u64)
    by (bit_vector)
    ensures
        v / 0x100000000000000 < 0x100,
        (v / 0x100000000000000) * 0x100000000000000 + ((v / 0x1000000000000) % 0x100)
            * 0x1000000000000 + ((v / 0x10000000000) % 0x100) * 0x10000000000 + ((v / 0x100000000)
            % 0x100) * 0x100000000 + ((v / 0x1000000) % 0x100) * 0x1000000 + ((v / 0x10000) % 0x100)
            * 0x10000 + ((v / 0x100) % 0x100) * 0x100 + (v % 0x100) == v,
{
}

proof fn lemma_u24_recompose(b0: u8, b1: u8, b2: u8)
    by (bit_vector)
    ensures
        ((b0 as u32) * 0x10000 + (b1 as u32) * 0x100 + (b2 as u32)) / 0x10000 == b0 as u32,
        (((b0 as u32) * 0x10000 + (b1 as u32) * 0x100 + (b2 as u32)) / 0x100) % 0x100 == b1 as u32,
        ((b0 as u32) * 0x10000 + (b1 as u32) * 0x100 + (b2 as u32)) % 0x100 == b2 as u32,
        (b0 as u32) * 0x10000 + (b1 as u32) * 0x100 + (b2 as u32) < 0x1000000,
{
}

proof fn lemma_u32_recompose(b0: u8, b1: u8, b2: u8, b3: u8)
    by (bit_vector)
    ensures
        ((b0 as u32) * 0x1000000 + (b1 as u32) * 0x10000 + (b2 as u32) * 0x100 + (b3 as u32))
            / 0x1000000 == b0 as u32,
        (((b0 as u32) * 0x1000000 + (b1 as u32) * 0x10000 + (b2 as u32) * 0x100 + (b3 as u32))
            / 0x10000) % 0x100 == b1 as u32,
        (((b0 as u32) * 0x1000000 + (b1 as u32) * 0x10000 + (b2 as u32) * 0x100 + (b3 as u32))
            / 0x100) % 0x100 == b2 as u32,
        ((b0 as u32) * 0x1000000 + (b1 as u32) * 0x10000 + (b2 as u32) * 0x100 + (b3 as u32))
            % 0x100 == b3 as u32,
{
}

proof fn lemma_u64_recompose(b0: u8, b1: u8, b2: u8, b3: u8, b4: u8, b5: u8, b6: u8, b7: u8)
    by (bit_vector)
    ensures
        ((b0 as u64) * 0x100000000000000 + (b1 as u64) * 0x1000000000000 + (b2 as u64)
            * 0x10000000000 + (b3 as u64) * 0x100000000 + (b4 as u64) * 0x1000000 + (b5 as u64)
            * 0x10000 + (b6 as u64) * 0x100 + (b7 as u64)) / 0x100000000000000 == b0 as u64,
        (((b0 as u64) * 0x100000000000000 + (b1 as u64) * 0x1000000000000 + (b2 as u64)
            * 0x10000000000 + (b3 as u64) * 0x100000000 + (b4 as u64) * 0x1000000 + (b5 as u64)
            * 0x10000 + (b6 as u64) * 0x100 + (b7 as u64)) / 0x1000000000000) % 0x100 == b1 as u64,
        (((b0 as u64) * 0x100000000000000 + (b1 as u64) * 0x1000000000000 + (b2 as u64)
            * 0x10000000000 + (b3 as u64) * 0x100000000 + (b4 as u64) * 0x1000000 + (b5 as u64)
            * 0x10000 + (b6 as u64) * 0x100 + (b7 as u64)) / 0x10000000000) % 0x100 == b2 as u64,
        (((b0 as u64) * 0x100000000000000 + (b1 as u64) * 0x1000000000000 + (b2 as u64)
            * 0x10000000000 + (b3 as u64) * 0x100000000 + (b4 as u64) * 0x1000000 + (b5 as u64)
            * 0x10000 + (b6 as u64) * 0x100 + (b7 as u64)) / 0x100000000) % 0x100 == b3 as u64,
        (((b0 as u64) * 0x100000000000000 + (b1 as u64) * 0x1000000000000 + (b2 as u64)
            * 0x10000000000 + (b3 as u64) * 0x100000000 + (b4 as u64) * 0x1000000 + (b5 as u64)
            * 0x10000 + (b6 as u64) * 0x100 + (b7 as u64)) / 0x1000000) % 0x100 == b4 as u64,
        (((b0 as u64) * 0x100000000000000 + (b1 as u64) * 0x1000000000000 + (b2 as u64)
            * 0x10000000000 + (b3 as u64) * 0x100000000 + (b4 as u64) * 0x1000000 + (b5 as u64)
            * 0x10000 + (b6 as u64) * 0x100 + (b7 as u64)) / 0x10000) % 0x100 == b5 as u64,
        (((b0 as u64) * 0x100000000000000 + (b1 as u64) * 0x1000000000000 + (b2 as u64)
            * 0x10000000000 + (b3 as u64) * 0x100000000 + (b4 as u64) * 0x1000000 + (b5 as u64)
            * 0x10000 + (b6 as u64) * 0x100 + (b7 as u64)) / 0x100) % 0x100 == b6 as u64,
        ((b0 as u64) * 0x100000000000000 + (b1 as u64) * 0x1000000000000 + (b2 as u64)
            * 0x10000000000 + (b3 as u64) * 0x100000000 + (b4 as u64) * 0x1000000 + (b5 as u64)
            * 0x10000 + (b6 as u64) * 0x100 + (b7 as u64)) % 0x100 == b7 as u64,
{
}

/// Decoding inverts encoding for every fixed-width integer: the round trip
/// through the big-endian byte layout is the identity.
pub proof fn lemma_fixed_width_round_trip(a: u16, b: u32, c: u32, d: u64)
    requires
        b < 0x1000000,
    ensures
        dec_u16(enc_u16(a)) == a,
        dec_u24(enc_u24(b)) == b,
        dec_u32(enc_u32(c)) == c,
        dec_u64(enc_u64(d)) == d,
        enc_u16(a).len() == 2,
        enc_u24(b).len() == 3,
        enc_u32(c).len() == 4,
        enc_u64(d).len() == 8,
{
    reveal(enc_u16);
    reveal(enc_u24);
    reveal(enc_u32);
    reveal(enc_u64);
    reveal(dec_u16);
    reveal(dec_u24);
    reveal(dec_u32);
    reveal(dec_u64);
    lemma_u16_decompose(a);
    lemma_u24_decompose(b);
    lemma_u32_decompose(c);
    lemma_u64_decompose(d);
}

/// Appends one byte.
pub fn write_u8(v: u8, out: &mut Vec<u8>) -> (n: usize)
    ensures
        final(out)@ == old(out)@ + enc_u8(v),
        n == 1,
{
    out.push(v);
    proof {
        reveal(enc_u8);
        assert(out@ =~= old(out)@ + enc_u8(v));
    }
    1
}

/// Appends a 16-bit integer as two big-endian bytes.
pub fn write_u16(v: u16, out: &mut Vec<u8>) -> (n: usize)
    ensures
        final(out)@ == old(out)@ + enc_u16(v),
        n == 2,
{
    out.push((v / 0x100) as u8);
    out.push((v % 0x100) as u8);
    proof {
        reveal(enc_u16);
        assert(out@ =~= old(out)@ + enc_u16(v));
    }
    2
}

/// Appends a 24-bit integer as three big-endian bytes.
pub fn write_u24(v: u32, out: &mut Vec<u8>) -> (n: usize)
    requires
        v < 0x1000000,
    ensures
        final(out)@ == old(out)@ + enc_u24(v),
        n == 3,
{
    out.push((v / 0x10000) as u8);
    out.push(((v / 0x100) % 0x100) as u8);
    out.push((v % 0x100) as u8);
    proof {
        reveal(enc_u24);
        assert(out@ =~= old(out)@ + enc_u24(v));
    }
    3
}

/// Appends a 32-bit integer as four big-endian bytes.
pub fn write_u32(v: u32, out: &mut Vec<u8>) -> (n: usize)
    ensures
        final(out)@ == old(out)@ + enc_u32(v),
        n == 4,
{
    out.push((v / 0x1000000) as u8);
    out.push(((v / 0x10000) % 0x100) as u8);
    out.push(((v / 0x100) % 0x100) as u8);
    out.push((v % 0x100) as u8);
    proof {
        reveal(enc_u32);
        assert(out@ =~= old(out)@ + enc_u32(v));
    }
    4
}

/// Appends a 64-bit integer as eight big-endian bytes.
pub fn write_u64(v: u64, out: &mut Vec<u8>) -> (n: usize)
    ensures
        final(out)@ == old(out)@ + enc_u64(v),
        n == 8,
{
    out.push((v / 0x100000000000000) as u8);
    out.push(((v / 0x1000000000000) % 0x100) as u8);
    out.push(((v / 0x10000000000) % 0x100) as u8);
    out.push(((v / 0x100000000) % 0x100) as u8);
    out.push(((v / 0x1000000) % 0x100) as u8);
    out.push(((v / 0x10000) % 0x100) as u8);
    out.push(((v / 0x100) % 0x100) as u8);
    out.push((v % 0x100) as u8);
    proof {
        reveal(enc_u64);
        assert(out@ =~= old(out)@ + enc_u64(v));
    }
    8
}

/// Reads one byte.
pub fn read_u8(d: &[u8], pos: usize) -> (r: Result<(u8, usize), Error>)
    ensures
        match r {
            Ok((v, end)) => end == pos + 1 && end <= d@.len() && d@.subrange(
                pos as int,
                end as int,
            ) == enc_u8(v),
            Err(e) => e == Error::Io && d@.len() < pos + 1,
        },
{
    if pos < d.len() {
        let v = d[pos];
        proof {
        reveal(enc_u8);
            assert(d@.subrange(pos as int, pos + 1) =~= enc_u8(v));
        }
        Ok((v, pos + 1))
    } else {
        Err(Error::Io)
    }
}

/// Reads a 16-bit big-endian integer.
pub fn read_u16(d: &[u8], pos: usize) -> (r: Result<(u16, usize), Error>)
    ensures
        match r {
            Ok((v, end)) => end == pos + 2 && end <= d@.len() && d@.subrange(
                pos as int,
                end as int,
            ) == enc_u16(v) && v == dec_u16(d@.subrange(pos as int, end as int)),
            Err(e) => e == Error::Io && d@.len() < pos + 2,
        },
{
    if pos < d.len() && d.len() - pos >= 2 {
        let v = (d[pos] as u16) * 0x100 + (d[pos + 1] as u16);
        proof {
        reveal(enc_u16);
        reveal(dec_u16);
            assert(d@.subrange(pos as int, pos + 2) =~= enc_u16(v));
        }
        Ok((v, pos + 2))
    } else {
        Err(Error::Io)
    }
}

/// Reads a 24-bit big-endian integer into a `u32`.
pub fn read_u24(d: &[u8], pos: usize) -> (r: Result<(u32, usize), Error>)
    ensures
        match r {
            Ok((v, end)) => end == pos + 3 && end <= d@.len() && v < 0x1000000 && d@.subrange(
                pos as int,
                end as int,
            ) == enc_u24(v) && v == dec_u24(d@.subrange(pos as int, end as int)),
            Err(e) => e == Error::Io && d@.len() < pos + 3,
        },
{
    if pos < d.len() && d.len() - pos >= 3 {
        let b0 = d[pos];
        let b1 = d[pos + 1];
        let b2 = d[pos + 2];
        let v = (b0 as u32) * 0x10000 + (b1 as u32) * 0x100 + (b2 as u32);
        proof {
        reveal(enc_u24);
        reveal(dec_u24);
            lemma_u24_recompose(b0, b1, b2);
            assert(d@.subrange(pos as int, pos + 3) =~= enc_u24(v));
        }
        Ok((v, pos + 3))
    } else {
        Err(Error::Io)
    }
}

/// Reads a 32-bit big-endian integer.
pub fn read_u32(d: &[u8], pos: usize) -> (r: Result<(u32, usize), Error>)
    ensures
        match r {
            Ok((v, end)) => end == pos + 4 && end <= d@.len() && d@.subrange(
                pos as int,
                end as int,
            ) == enc_u32(v) && v == dec_u32(d@.subrange(pos as int, end as int)),
            Err(e) => e == Error::Io && d@.len() < pos + 4,
        },
{
    if pos < d.len() && d.len() - pos >= 4 {
        let b0 = d[pos];
        let b1 = d[pos + 1];
        let b2 = d[pos + 2];
        let b3 = d[pos + 3];
        let v = (b0 as u32) * 0x1000000 + (b1 as u32) * 0x10000 + (b2 as u32) * 0x100 + (b3 as u32);
        proof {
        reveal(enc_u32);
        reveal(dec_u32);
            lemma_u32_recompose(b0, b1, b2, b3);
            assert(d@.subrange(pos as int, pos + 4) =~= enc_u32(v));
        }
        Ok((v, pos + 4))
    } else {
        Err(Error::Io)
    }
}

/// Reads a 64-bit big-endian integer.
pub fn read_u64(d: &[u8], pos: usize) -> (r: Result<(u64, usize), Error>)
    ensures
        match r {
            Ok((v, end)) => end == pos + 8 && end <= d@.len() && d@.subrange(
                pos as int,
                end as int,
            ) == enc_u64(v) && v == dec_u64(d@.subrange(pos as int, end as int)),
            Err(e) => e == Error::Io && d@.len() < pos + 8,
        },
{
    if pos < d.len() && d.len() - pos >= 8 {
        let b0 = d[pos];
        let b1 = d[pos + 1];
        let b2 = d[pos + 2];
        let b3 = d[pos + 3];
        let b4 = d[pos + 4];
        let b5 = d[pos + 5];
        let b6 = d[pos + 6];
        let b7 = d[pos + 7];
        let v = (b0 as u64) * 0x100000000000000 + (b1 as u64) * 0x1000000000000 + (b2 as u64)
            * 0x10000000000 + (b3 as u64) * 0x100000000 + (b4 as u64) * 0x1000000 + (b5 as u64)
            * 0x10000 + (b6 as u64) * 0x100 + (b7 as u64);
        proof {
        reveal(enc_u64);
        reveal(dec_u64);
            lemma_u64_recompose(b0, b1, b2, b3, b4, b5, b6, b7);
            assert(d@.subrange(pos as int, pos + 8) =~= enc_u64(v));
        }
        Ok((v, pos + 8))
    } else {
        Err(Error::Io)
    }
}



/// The widths of the fixed-width integer encodings, available without
/// unfolding their definitions.
pub proof fn lemma_enc_widths()
    ensures
        forall|v: u8| (#[trigger] enc_u8(v)).len() == 1,
        forall|v: u16| (#[trigger] enc_u16(v)).len() == 2,
        forall|v: u32| (#[trigger] enc_u24(v)).len() == 3,
        forall|v: u32| (#[trigger] enc_u32(v)).len() == 4,
        forall|v: u64| (#[trigger] enc_u64(v)).len() == 8,
{
    reveal(enc_u8);
    reveal(enc_u16);
    reveal(enc_u24);
    reveal(enc_u32);
    reveal(enc_u64);
}

/// Canonical variable-length integer encoding: a one-byte prefix selects the
/// width, and the smallest width that holds the value is always used.
pub open spec fn enc_bigsize(v: u64) -> Seq<u8> {
    if v < 0xFD {
        seq![v as u8]
    } else if v < 0x10000 {
        seq![0xFDu8] + enc_u16(v as u16)
    } else if v < 0x100000000 {
        seq![0xFEu8] + enc_u32(v as u32)
    } else {
        seq![0xFFu8] + enc_u64(v)
    }
}

/// Total width (prefix byte included) selected by the first byte of a
/// variable-length integer encoding.
pub open spec fn bigsize_width(first: u8) -> int {
    if first < 0xFD {
        1
    } else if first == 0xFD {
        3
    } else if first == 0xFE {
        5
    } else {
        9
    }
}

/// The value carried by a canonical variable-length integer encoding.
pub open spec fn dec_bigsize(s: Seq<u8>) -> u64
    recommends
        s.len() >= 1,
        s.len() == bigsize_width(s[0]),
{
    if s[0] < 0xFD {
        s[0] as u64
    } else if s[0] == 0xFD {
        dec_u16(s.subrange(1, 3)) as u64
    } else if s[0] == 0xFE {
        dec_u32(s.subrange(1, 5)) as u64
    } else {
        dec_u64(s.subrange(1, 9))
    }
}

/// A variable-length integer at `pos` in `s` that carries its value in a wider
/// form than necessary; such encodings are rejected on decode.
pub open spec fn bigsize_noncanonical_at(s: Seq<u8>, pos: int) -> bool
    recommends
        0 <= pos < s.len(),
        pos + bigsize_width(s[pos]) <= s.len(),
{
    if s[pos] == 0xFD {
        dec_u16(s.subrange(pos + 1, pos + 3)) < 0xFD
    } else if s[pos] == 0xFE {
        dec_u32(s.subrange(pos + 1, pos + 5)) < 0x10000
    } else if s[pos] == 0xFF {
        dec_u64(s.subrange(pos + 1, pos + 9)) < 0x100000000
    } else {
        false
    }
}

/// Decoding inverts encoding for the variable-length integer, and the
/// smallest of the four widths is always selected.
pub proof fn lemma_bigsize_round_trip(v: u64)
    ensures
        dec_bigsize(enc_bigsize(v)) == v,
        enc_bigsize(v).len() == bigsize_width(enc_bigsize(v)[0]),
        v < 0xFD ==> enc_bigsize(v).len() == 1,
        0xFD <= v < 0x10000 ==> enc_bigsize(v).len() == 3,
        0x10000 <= v < 0x100000000 ==> enc_bigsize(v).len() == 5,
        0x100000000 <= v ==> enc_bigsize(v).len() == 9,
{
    reveal(enc_u8);
    reveal(enc_u16);
    reveal(enc_u32);
    reveal(enc_u64);
    reveal(dec_u16);
    reveal(dec_u32);
    reveal(dec_u64);
    if v < 0xFD {
    } else if v < 0x10000 {
        lemma_u16_decompose(v as u16);
        assert(enc_bigsize(v).subrange(1, 3) =~= enc_u16(v as u16));
    } else if v < 0x100000000 {
        lemma_u32_decompose(v as u32);
        assert(enc_bigsize(v).subrange(1, 5) =~= enc_u32(v as u32));
    } else {
        lemma_u64_decompose(v);
        assert(enc_bigsize(v).subrange(1, 9) =~= enc_u64(v));
    }
}

/// Appends a variable-length integer in its canonical minimal encoding.
pub fn write_bigsize(v: u64, out: &mut Vec<u8>) -> (n: usize)
    ensures
        final(out)@ == old(out)@ + enc_bigsize(v),
        n == enc_bigsize(v).len(),
{
    if v < 0xFD {
        out.push(v as u8);
        proof {
            reveal(enc_u8);
            reveal(enc_u16);
            reveal(enc_u32);
            reveal(enc_u64);
            assert(out@ =~= old(out)@ + enc_bigsize(v));
        }
        1
    } else if v < 0x10000 {
        out.push(0xFD);
        write_u16(v as u16, out);
        proof {
            reveal(enc_u8);
            reveal(enc_u16);
            reveal(enc_u32);
            reveal(enc_u64);
            assert(out@ =~= old(out)@ + enc_bigsize(v));
        }
        3
    } else if v < 0x100000000 {
        out.push(0xFE);
        write_u32(v as u32, out);
        proof {
            reveal(enc_u8);
            reveal(enc_u16);
            reveal(enc_u32);
            reveal(enc_u64);
            assert(out@ =~= old(out)@ + enc_bigsize(v));
        }
        5
    } else {
        out.push(0xFF);
        write_u64(v, out);
        proof {
            reveal(enc_u8);
            reveal(enc_u16);
            reveal(enc_u32);
            reveal(enc_u64);
            assert(out@ =~= old(out)@ + enc_bigsize(v));
        }
        9
    }
}

/// Reads a variable-length integer, rejecting non-minimal encodings.
pub fn read_bigsize(d: &[u8], pos: usize) -> (r: Result<(u64, usize), Error>)
    ensures
        match r {
            Ok((v, end)) => pos < d@.len() && end == pos + bigsize_width(d@[pos as int]) && end
                <= d@.len() && d@.subrange(pos as int, end as int) == enc_bigsize(v),
            Err(Error::Io) => d@.len() < pos + 1 || d@.len() < pos + bigsize_width(
                d@[pos as int],
            ),
            Err(Error::DataIntegrityError) => pos < d@.len() && pos + bigsize_width(
                d@[pos as int],
            ) <= d@.len() && bigsize_noncanonical_at(d@, pos as int),
            Err(_) => false,
        },
{
    if pos >= d.len() {
        return Err(Error::Io);
    }
    let first = d[pos];
    if first < 0xFD {
        proof {
            assert(d@.subrange(pos as int, pos + 1) =~= enc_bigsize(first as u64));
        }
        Ok((first as u64, pos + 1))
    } else if first == 0xFD {
        match read_u16(d, pos + 1) {
            Ok((w, end)) => {
                if w < 0xFD {
                    Err(Error::DataIntegrityError)
                } else {
                    proof {
                        assert(d@.subrange(pos as int, end as int) =~= seq![0xFDu8] + d@.subrange(
                            pos + 1,
                            end as int,
                        ));
                    }
                    Ok((w as u64, end))
                }
            },
            Err(_) => Err(Error::Io),
        }
    } else if first == 0xFE {
        match read_u32(d, pos + 1) {
            Ok((w, end)) => {
                if w < 0x10000 {
                    Err(Error::DataIntegrityError)
                } else {
                    proof {
                        assert(d@.subrange(pos as int, end as int) =~= seq![0xFEu8] + d@.subrange(
                            pos + 1,
                            end as int,
                        ));
                    }
                    Ok((w as u64, end))
                }
            },
            Err(_) => Err(Error::Io),
        }
    } else {
        match read_u64(d, pos + 1) {
            Ok((w, end)) => {
                if w < 0x100000000 {
                    Err(Error::DataIntegrityError)
                } else {
                    proof {
                        assert(d@.subrange(pos as int, end as int) =~= seq![0xFFu8] + d@.subrange(
                            pos + 1,
                            end as int,
                        ));
                    }
                    Ok((w, end))
                }
            },
            Err(_) => Err(Error::Io),
        }
    }
}

/// A byte run with its 16-bit big-endian length prefix.
pub open spec fn enc_bytes16(s: Seq<u8>) -> Seq<u8>
    recommends
        s.len() <= 0xFFFF,
{
    enc_u16(s.len() as u16) + s
}

/// A length-prefixed run of `L` bytes encodes to exactly `2 + L` bytes, and
/// the run is recovered unchanged after the prefix.
pub proof fn lemma_bytes16_round_trip(s: Seq<u8>)
    requires
        s.len() <= 0xFFFF,
    ensures
        enc_bytes16(s).len() == 2 + s.len(),
        enc_bytes16(s).subrange(2, enc_bytes16(s).len() as int) == s,
        dec_u16(enc_bytes16(s).subrange(0, 2)) == s.len(),
{
    reveal(enc_u16);
    reveal(dec_u16);
    lemma_u16_decompose(s.len() as u16);
    assert(enc_bytes16(s).subrange(2, enc_bytes16(s).len() as int) =~= s);
    assert(enc_bytes16(s).subrange(0, 2) =~= enc_u16(s.len() as u16));
}

/// Appends every byte of `v`.
pub fn append_bytes(v: &[u8], out: &mut Vec<u8>)
    ensures
        final(out)@ == old(out)@ + v@,
{
    let mut i: usize = 0;
    while i < v.len()
        invariant
            i <= v@.len(),
            out@ == old(out)@ + v@.subrange(0, i as int),
        decreases v@.len() - i,
    {
        out.push(v[i]);
        i = i + 1;
        proof {
            assert(out@ =~= old(out)@ + v@.subrange(0, i as int));
        }
    }
    proof {
        assert(out@ =~= old(out)@ + v@);
    }
}

/// Appends a byte run behind its 16-bit length prefix; a run longer than
/// 65,535 bytes cannot be carried and fails with `TooLargeData`.
pub fn write_bytes16(v: &[u8], out: &mut Vec<u8>) -> (r: Result<usize, Error>)
    ensures
        match r {
            Ok(n) => v@.len() <= 0xFFFF && n == 2 + v@.len() && final(out)@ == old(out)@
                + enc_bytes16(v@),
            Err(e) => e == Error::TooLargeData && v@.len() > 0xFFFF && final(out)@ == old(out)@,
        },
{
    if v.len() > 0xFFFF {
        return Err(Error::TooLargeData);
    }
    write_u16(v.len() as u16, out);
    append_bytes(v, out);
    proof {
        assert(out@ =~= old(out)@ + enc_bytes16(v@));
    }
    Ok(2 + v.len())
}

/// Reads exactly `n` bytes.
pub fn read_exact(d: &[u8], pos: usize, n: usize) -> (r: Result<(Vec<u8>, usize), Error>)
    ensures
        match r {
            Ok((v, end)) => end == pos + n && end <= d@.len() && v@ == d@.subrange(
                pos as int,
                end as int,
            ) && v@.len() == n,
            Err(e) => e == Error::Io && d@.len() < pos + n,
        },
{
    if pos <= d.len() && d.len() - pos >= n {
        let mut v: Vec<u8> = Vec::new();
        let mut i: usize = 0;
        while i < n
            invariant
                i <= n,
                pos + n <= d@.len(),
                pos + n <= usize::MAX,
                v@ == d@.subrange(pos as int, pos + i),
            decreases n - i,
        {
            v.push(d[pos + i]);
            i = i + 1;
            proof {
                assert(v@ =~= d@.subrange(pos as int, pos + i));
            }
        }
        Ok((v, pos + n))
    } else {
        Err(Error::Io)
    }
}

/// Reads a 16-bit length prefix and then exactly that many bytes.
pub fn read_bytes16(d: &[u8], pos: usize) -> (r: Result<(Vec<u8>, usize), Error>)
    ensures
        match r {
            Ok((v, end)) => v@.len() <= 0xFFFF && end == pos + 2 + v@.len() && end <= d@.len()
                && d@.subrange(pos as int, end as int) == enc_bytes16(v@) && v@.len() == dec_u16(
                d@.subrange(pos as int, pos + 2),
            ) as int,
            Err(e) => e == Error::Io && (d@.len() < pos + 2 || d@.len() < pos + 2 + dec_u16(
                d@.subrange(pos as int, pos + 2),
            )),
        },
{
    match read_u16(d, pos) {
        Ok((n, mid)) => {
            match read_exact(d, mid, n as usize) {
                Ok((v, end)) => {
                    proof {
                        assert(d@.subrange(pos as int, end as int) =~= enc_u16(n) + d@.subrange(
                            mid as int,
                            end as int,
                        ));
                    }
                    Ok((v, end))
                },
                Err(e) => Err(e),
            }
        },
        Err(e) => Err(e),
    }
}


/// Copies a byte string into a fresh vector.
pub fn copy_bytes(v: &[u8]) -> (r: Vec<u8>)
    ensures
        r@ == v@,
{
    let mut out: Vec<u8> = Vec::new();
    append_bytes(v, &mut out);
    out
}

/// Compares two byte strings for equality.
pub fn bytes_eq(a: &[u8], b: &[u8]) -> (r: bool)
    ensures
        r == (a@ == b@),
{
    if a.len() != b.len() {
        proof {
            assert(a@ != b@);
        }
        return false;
    }
    let mut i: usize = 0;
    while i < a.len()
        invariant
            i <= a@.len(),
            a@.len() == b@.len(),
            forall|j: int| 0 <= j < i ==> a@[j] == b@[j],
        decreases a@.len() - i,
    {
        if a[i] != b[i] {
            proof {
                assert(a@[i as int] != b@[i as int]);
            }
            return false;
        }
        i = i + 1;
    }
    proof {
        assert(a@ =~= b@);
    }
    true
}

} // verus!
