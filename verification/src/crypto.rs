//! Trusted bindings to the hashing and elliptic-curve crates.
//!
//! The functions here are the only places where the library calls outside
//! code. Each digest or curve operation is given a name at the specification
//! level (`sha256_of`, `ec_mul_of`, ...): the name stands for the value the
//! outside crate computes, which is a function of the arguments alone, and
//! the verified callers state their own contracts over these names. Curve
//! operations that can fail (with cryptographically negligible probability)
//! are surfaced as fallible results, never unwrapped.

use vstd::prelude::*;

verus! {

/// The SHA-256 digest (32 bytes) of a byte string.
pub uninterp spec fn sha256_of(data: Seq<u8>) -> Seq<u8>;

/// The HASH160 digest (RIPEMD160 of SHA-256, 20 bytes) of a byte string.
pub uninterp spec fn hash160_of(data: Seq<u8>) -> Seq<u8>;

/// Whether a byte string is the valid SEC encoding of a curve point.
pub uninterp spec fn is_ec_point(data: Seq<u8>) -> bool;

/// The compressed serialization of a curve point multiplied by a scalar.
pub uninterp spec fn ec_mul_of(point: Seq<u8>, scalar: Seq<u8>) -> Seq<u8>;

/// Whether multiplying the point by the scalar succeeds: the bytes encode a
/// curve point, the scalar lies in the group order, and the product is a
/// valid key. All three are decided by the two byte strings alone.
pub uninterp spec fn ec_mul_ok(point: Seq<u8>, scalar: Seq<u8>) -> bool;

/// The compressed serialization of the sum of a pair of curve points. Point
/// addition is commutative, so the operands form an unordered pair.
pub uninterp spec fn ec_sum_of(points: Set<Seq<u8>>) -> Seq<u8>;

/// Whether summing the pair of points succeeds: both byte strings encode
/// curve points and the sum is not the point at infinity — decided by the
/// operands alone, independent of their order.
pub uninterp spec fn ec_sum_ok(points: Set<Seq<u8>>) -> bool;

/// The genesis block hash of the standard bitcoin network with the given tag
/// (see [`crate::channel::Network`]).
pub uninterp spec fn genesis_hash_of(tag: int) -> Seq<u8>;

/// Relies on `bitcoin::hashes::sha256`: the digest is 32 bytes and depends on
/// the input bytes alone.
#[verifier::external_body]
pub(crate) fn sha256(data: &[u8]) -> (r: Vec<u8>)
    ensures
        r@ == sha256_of(data@),
        r@.len() == 32,
{
    let digest = <bitcoin::hashes::sha256::Hash as bitcoin::hashes::Hash>::hash(data);
    <bitcoin::hashes::sha256::Hash as bitcoin::hashes::Hash>::to_byte_array(digest).to_vec()
}

/// Relies on `bitcoin::hashes::hash160`: the digest is 20 bytes and depends
/// on the input bytes alone.
#[verifier::external_body]
pub(crate) fn hash160(data: &[u8]) -> (r: Vec<u8>)
    ensures
        r@ == hash160_of(data@),
        r@.len() == 20,
{
    let digest = <bitcoin::hashes::hash160::Hash as bitcoin::hashes::Hash>::hash(data);
    <bitcoin::hashes::hash160::Hash as bitcoin::hashes::Hash>::to_byte_array(digest).to_vec()
}

/// Relies on `secp256k1::PublicKey::from_slice`: it accepts exactly the valid
/// SEC encodings of curve points.
#[verifier::external_body]
pub(crate) fn check_ec_point(data: &[u8]) -> (r: bool)
    ensures
        r == is_ec_point(data@),
{
    secp256k1::PublicKey::from_slice(data).is_ok()
}

/// Relies on `secp256k1::PublicKey::mul_tweak`: multiplication of a point by
/// a scalar modulo the curve order, failing (rather than panicking) on an
/// invalid point, an out-of-range scalar, or an invalid resulting key. Each
/// failure is decided by the inputs, so success is exactly `ec_mul_ok`.
#[verifier::external_body]
pub(crate) fn ec_pubkey_tweak_mul(point: &[u8], scalar: &[u8]) -> (r: Option<Vec<u8>>)
    requires
        point@.len() == 33,
        scalar@.len() == 32,
    ensures
        r is Some <==> ec_mul_ok(point@, scalar@),
        r matches Some(p) ==> p@.len() == 33 && p@ == ec_mul_of(point@, scalar@),
{
    let pk = match secp256k1::PublicKey::from_slice(point) {
        Ok(pk) => pk,
        Err(_) => return None,
    };
    let mut bytes32 = [0u8; 32];
    bytes32.copy_from_slice(scalar);
    let tweak = match secp256k1::Scalar::from_be_bytes(bytes32) {
        Ok(t) => t,
        Err(_) => return None,
    };
    match pk.mul_tweak(&tweak) {
        Ok(q) => Some(q.serialize().to_vec()),
        Err(_) => None,
    }
}

/// Relies on `secp256k1::PublicKey::combine`: the sum of two curve points,
/// failing (rather than panicking) on an invalid operand or on the point at
/// infinity. Addition of points is commutative, which the specification
/// records by naming both the result and the success condition over the
/// unordered pair of operands; each failure is decided by the operands, so
/// success is exactly `ec_sum_ok`.
#[verifier::external_body]
pub(crate) fn ec_pubkey_combine(a: &[u8], b: &[u8]) -> (r: Option<Vec<u8>>)
    requires
        a@.len() == 33,
        b@.len() == 33,
    ensures
        r is Some <==> ec_sum_ok(set![a@, b@]),
        r matches Some(p) ==> p@.len() == 33 && p@ == ec_sum_of(set![a@, b@]),
{
    let pa = match secp256k1::PublicKey::from_slice(a) {
        Ok(pk) => pk,
        Err(_) => return None,
    };
    let pb = match secp256k1::PublicKey::from_slice(b) {
        Ok(pk) => pk,
        Err(_) => return None,
    };
    match pa.combine(&pb) {
        Ok(q) => Some(q.serialize().to_vec()),
        Err(_) => None,
    }
}

/// Relies on `bitcoin::blockdata::constants::genesis_block`: the genesis
/// block of each standard network is a fixed constant, so its hash depends on
/// the network tag alone.
#[verifier::external_body]
pub(crate) fn genesis_hash(tag: u8) -> (r: Vec<u8>)
    requires
        tag < 4,
    ensures
        r@ == genesis_hash_of(tag as int),
        r@.len() == 32,
{
    let network = match tag {
        0 => bitcoin::Network::Bitcoin,
        1 => bitcoin::Network::Testnet,
        2 => bitcoin::Network::Signet,
        _ => bitcoin::Network::Regtest,
    };
    let hash = bitcoin::blockdata::constants::genesis_block(network).block_hash();
    <bitcoin::BlockHash as bitcoin::hashes::Hash>::to_byte_array(hash).to_vec()
}

/// The pair given to the point sum is unordered, so the sum of two tweaked
/// points does not depend on the order in which they are combined.
pub proof fn lemma_ec_sum_order_independent(a: Seq<u8>, b: Seq<u8>)
    ensures
        ec_sum_of(set![a, b]) == ec_sum_of(set![b, a]),
{
    assert(set![a, b] =~= set![b, a]);
}

} // verus!
