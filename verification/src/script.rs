//! Generation of the canonical payment-channel output scripts.
//!
//! Three output flavours exist — funding (a sorted 2-of-2 multisignature),
//! `to_local` (a revocable, delayed self-payment) and `to_remote` (the
//! counterparty balance, as a plain witness-key payment or, in its second
//! version, behind a one-block relative maturity) — and each can be produced
//! as the bare spend condition, as the witness program wrapping it, or as a
//! full transaction output. The funding keys are sorted into lexicographic
//! order first, so both parties derive byte-identical scripts whatever the
//! argument order.

use vstd::prelude::*;
use crate::bitcoin::LockScript;
use crate::bitcoin::PubkeyScript;
use crate::bitcoin::Script;
use crate::bitcoin::WitnessScript;
use crate::codec;
use crate::crypto;
use crate::keyset::LocalPubkey;
use crate::primitives::PublicKey;

verus! {

/// Lexicographic (shortlex-free, element-first) order on byte strings.
pub open spec fn lex_le(a: Seq<u8>, b: Seq<u8>) -> bool
    decreases a.len(),
{
    if a.len() == 0 {
        true
    } else if b.len() == 0 {
        false
    } else if a[0] < b[0] {
        true
    } else if a[0] > b[0] {
        false
    } else {
        lex_le(a.drop_first(), b.drop_first())
    }
}

/// Any two byte strings are ordered one way or the other.
pub proof fn lemma_lex_le_total(a: Seq<u8>, b: Seq<u8>)
    ensures
        lex_le(a, b) || lex_le(b, a),
    decreases a.len(),
{
    if a.len() > 0 && b.len() > 0 && a[0] == b[0] {
        lemma_lex_le_total(a.drop_first(), b.drop_first());
    }
}

/// Byte strings ordered both ways are equal.
pub proof fn lemma_lex_le_antisymmetric(a: Seq<u8>, b: Seq<u8>)
    requires
        lex_le(a, b),
        lex_le(b, a),
    ensures
        a == b,
    decreases a.len(),
{
    if a.len() == 0 {
        assert(a =~= b);
    } else {
        lemma_lex_le_antisymmetric(a.drop_first(), b.drop_first());
        assert(a =~= seq![a[0]] + a.drop_first());
        assert(b =~= seq![b[0]] + b.drop_first());
        assert(a =~= b);
    }
}

proof fn lemma_lex_le_skip(a: Seq<u8>, b: Seq<u8>, i: int)
    requires
        0 <= i <= a.len(),
        i <= b.len(),
        forall|j: int| 0 <= j < i ==> a[j] == b[j],
    ensures
        lex_le(a, b) == lex_le(a.skip(i), b.skip(i)),
    decreases i,
{
    if i > 0 {
        assert(a.skip(i) =~= a.drop_first().skip(i - 1));
        assert(b.skip(i) =~= b.drop_first().skip(i - 1));
        lemma_lex_le_skip(a.drop_first(), b.drop_first(), i - 1);
    } else {
        assert(a.skip(0) =~= a);
        assert(b.skip(0) =~= b);
    }
}

/// Compares two byte strings in the order of [`lex_le`].
pub fn lex_le_bytes(a: &[u8], b: &[u8]) -> (r: bool)
    ensures
        r == lex_le(a@, b@),
{
    let mut i: usize = 0;
    while i < a.len() && i < b.len()
        invariant
            i <= a@.len(),
            i <= b@.len(),
            forall|j: int| 0 <= j < i ==> a@[j] == b@[j],
        decreases a@.len() - i,
    {
        if a[i] < b[i] {
            proof {
                lemma_lex_le_skip(a@, b@, i as int);
            }
            return true;
        }
        if a[i] > b[i] {
            proof {
                lemma_lex_le_skip(a@, b@, i as int);
            }
            return false;
        }
        i = i + 1;
    }
    proof {
        lemma_lex_le_skip(a@, b@, i as int);
    }
    i >= a.len()
}

/// A push of a 33-byte public key: the push-length opcode and the key bytes.
pub open spec fn push_key(k: Seq<u8>) -> Seq<u8>
    recommends
        k.len() == 33,
{
    seq![0x21u8] + k
}

/// The minimal script-number push of a 16-bit integer, as a script builder
/// emits it: zero is an empty push, 1 through 16 are single opcodes, and
/// larger values travel little-endian with a sign-clearing trailing zero
/// where the top bit of the last byte would read as negative.
pub open spec fn script_num(v: u16) -> Seq<u8> {
    if v == 0 {
        seq![0x00u8]
    } else if v <= 16 {
        seq![(0x50 + v) as u8]
    } else if v < 0x80 {
        seq![0x01u8, v as u8]
    } else if v < 0x100 {
        seq![0x02u8, v as u8, 0x00u8]
    } else if v < 0x8000 {
        seq![0x02u8, (v % 0x100) as u8, (v / 0x100) as u8]
    } else {
        seq![0x03u8, (v % 0x100) as u8, (v / 0x100) as u8, 0x00u8]
    }
}

/// A 2-of-2 multisignature spend condition over two keys in the given order.
pub open spec fn multisig_2of2(first: Seq<u8>, second: Seq<u8>) -> Seq<u8> {
    seq![0x52u8] + push_key(first) + push_key(second) + seq![0x52u8, 0xAEu8]
}

/// The funding spend condition: a 2-of-2 multisignature over the two funding
/// keys sorted into lexicographic order, independent of argument order.
pub open spec fn funding_script(local: Seq<u8>, remote: Seq<u8>) -> Seq<u8> {
    if lex_le(local, remote) {
        multisig_2of2(local, remote)
    } else {
        multisig_2of2(remote, local)
    }
}

/// Swapping the two funding keys leaves the funding script unchanged: the
/// keys are sorted before the script is laid out, so both channel parties
/// derive byte-identical scripts.
pub proof fn lemma_funding_script_symmetric(a: Seq<u8>, b: Seq<u8>)
    ensures
        funding_script(a, b) == funding_script(b, a),
{
    lemma_lex_le_total(a, b);
    if lex_le(a, b) && lex_le(b, a) {
        lemma_lex_le_antisymmetric(a, b);
    }
}

/// The `to_local` spend condition: the revocation path behind `OP_IF`, and
/// the delayed self-payment behind the relative timelock in the `OP_ELSE`
/// branch.
pub open spec fn to_local_script(revocation: Seq<u8>, delayed: Seq<u8>, delay: u16) -> Seq<u8> {
    seq![0x63u8] + push_key(revocation) + seq![0x67u8] + script_num(delay) + seq![
        0xB2u8,
        0x75u8,
    ] + push_key(delayed) + seq![0x68u8, 0xACu8]
}

/// The second-version `to_remote` spend condition: the counterparty key must
/// sign and one block of relative maturity must have passed.
pub open spec fn to_remote_v2_script(key: Seq<u8>) -> Seq<u8> {
    push_key(key) + seq![0xADu8, 0x51u8, 0xB2u8]
}

/// A version-0 pay-to-witness-script-hash program committing to a script.
pub open spec fn p2wsh(script: Seq<u8>) -> Seq<u8> {
    seq![0x00u8, 0x20u8] + crypto::sha256_of(script)
}

/// A version-0 pay-to-witness-pubkey-hash program paying to a key.
pub open spec fn p2wpkh(key: Seq<u8>) -> Seq<u8> {
    seq![0x00u8, 0x14u8] + crypto::hash160_of(key)
}

/// Appends a key push to a script under construction.
fn push_key_bytes(k: &[u8], out: &mut Vec<u8>)
    requires
        k@.len() == 33,
    ensures
        final(out)@ == old(out)@ + push_key(k@),
{
    out.push(0x21);
    codec::append_bytes(k, out);
    proof {
        assert(out@ =~= old(out)@ + push_key(k@));
    }
}

/// Appends the minimal script-number push of a 16-bit integer.
fn push_script_num(v: u16, out: &mut Vec<u8>)
    ensures
        final(out)@ == old(out)@ + script_num(v),
{
    if v == 0 {
        out.push(0x00);
    } else if v <= 16 {
        out.push(0x50 + v as u8);
    } else if v < 0x80 {
        out.push(0x01);
        out.push(v as u8);
    } else if v < 0x100 {
        out.push(0x02);
        out.push(v as u8);
        out.push(0x00);
    } else if v < 0x8000 {
        out.push(0x02);
        out.push((v % 0x100) as u8);
        out.push((v / 0x100) as u8);
    } else {
        out.push(0x03);
        out.push((v % 0x100) as u8);
        out.push((v / 0x100) as u8);
        out.push(0x00);
    }
    proof {
        assert(out@ =~= old(out)@ + script_num(v));
    }
}

/// Builds the funding spend condition over the sorted pair of funding keys.
pub fn funding_lock_script(local_pubkey: &LocalPubkey, remote_pubkey: &PublicKey) -> (r: LockScript)
    requires
        local_pubkey.wf(),
        remote_pubkey.wf(),
    ensures
        r.script.bytes@ == funding_script(local_pubkey.key.bytes@, remote_pubkey.bytes@),
        r.script.wf(),
{
    let mut v: Vec<u8> = Vec::new();
    v.push(0x52);
    if lex_le_bytes(local_pubkey.key.bytes.as_slice(), remote_pubkey.bytes.as_slice()) {
        push_key_bytes(local_pubkey.key.bytes.as_slice(), &mut v);
        push_key_bytes(remote_pubkey.bytes.as_slice(), &mut v);
    } else {
        push_key_bytes(remote_pubkey.bytes.as_slice(), &mut v);
        push_key_bytes(local_pubkey.key.bytes.as_slice(), &mut v);
    }
    v.push(0x52);
    v.push(0xAE);
    proof {
        assert(v@ =~= funding_script(local_pubkey.key.bytes@, remote_pubkey.bytes@));
    }
    LockScript { script: Script { bytes: v } }
}

/// Builds the `to_local` spend condition.
pub fn to_local_lock_script(
    revocationpubkey: &PublicKey,
    local_delayedpubkey: &PublicKey,
    to_self_delay: u16,
) -> (r: LockScript)
    requires
        revocationpubkey.wf(),
        local_delayedpubkey.wf(),
    ensures
        r.script.bytes@ == to_local_script(
            revocationpubkey.bytes@,
            local_delayedpubkey.bytes@,
            to_self_delay,
        ),
        r.script.wf(),
{
    let mut v: Vec<u8> = Vec::new();
    v.push(0x63);
    push_key_bytes(revocationpubkey.bytes.as_slice(), &mut v);
    v.push(0x67);
    push_script_num(to_self_delay, &mut v);
    v.push(0xB2);
    v.push(0x75);
    push_key_bytes(local_delayedpubkey.bytes.as_slice(), &mut v);
    v.push(0x68);
    v.push(0xAC);
    proof {
        assert(v@ =~= to_local_script(
            revocationpubkey.bytes@,
            local_delayedpubkey.bytes@,
            to_self_delay,
        ));
    }
    LockScript { script: Script { bytes: v } }
}

/// Builds the second-version `to_remote` spend condition.
pub fn to_remote_v2_lock_script(remote_pubkey: &PublicKey) -> (r: LockScript)
    requires
        remote_pubkey.wf(),
    ensures
        r.script.bytes@ == to_remote_v2_script(remote_pubkey.bytes@),
        r.script.wf(),
{
    let mut v: Vec<u8> = Vec::new();
    push_key_bytes(remote_pubkey.bytes.as_slice(), &mut v);
    v.push(0xAD);
    v.push(0x51);
    v.push(0xB2);
    proof {
        assert(v@ =~= to_remote_v2_script(remote_pubkey.bytes@));
    }
    LockScript { script: Script { bytes: v } }
}

/// Wraps a spend condition into its pay-to-witness-script-hash program.
pub fn to_p2wsh(witness: &WitnessScript) -> (r: PubkeyScript)
    ensures
        r.script.bytes@ == p2wsh(witness.script.bytes@),
        r.script.wf(),
{
    let digest = crypto::sha256(witness.script.bytes.as_slice());
    let mut v: Vec<u8> = Vec::new();
    v.push(0x00);
    v.push(0x20);
    codec::append_bytes(digest.as_slice(), &mut v);
    proof {
        assert(v@ =~= p2wsh(witness.script.bytes@));
    }
    PubkeyScript { script: Script { bytes: v } }
}

/// Builds the first-version `to_remote` locking script: a plain
/// pay-to-witness-pubkey-hash of the counterparty key. This flavour exists
/// only at the witness-program level — it is a hash commitment, not a spend
/// condition script.
pub fn to_remote_v1_pubkey_script(remote_pubkey: &PublicKey) -> (r: PubkeyScript)
    requires
        remote_pubkey.wf(),
    ensures
        r.script.bytes@ == p2wpkh(remote_pubkey.bytes@),
        r.script.wf(),
{
    let digest = crypto::hash160(remote_pubkey.bytes.as_slice());
    let mut v: Vec<u8> = Vec::new();
    v.push(0x00);
    v.push(0x14);
    codec::append_bytes(digest.as_slice(), &mut v);
    proof {
        assert(v@ =~= p2wpkh(remote_pubkey.bytes@));
    }
    PubkeyScript { script: Script { bytes: v } }
}


/// Builds the funding witness script: the multisignature condition as the
/// script committed to by the funding output.
pub fn funding_witness_script(local_pubkey: &LocalPubkey, remote_pubkey: &PublicKey) -> (r:
    WitnessScript)
    requires
        local_pubkey.wf(),
        remote_pubkey.wf(),
    ensures
        r.script.bytes@ == funding_script(local_pubkey.key.bytes@, remote_pubkey.bytes@),
        r.script.wf(),
{
    let lock = funding_lock_script(local_pubkey, remote_pubkey);
    WitnessScript { script: lock.script }
}

/// Builds the `to_local` witness script.
pub fn to_local_witness_script(
    revocationpubkey: &PublicKey,
    local_delayedpubkey: &PublicKey,
    to_self_delay: u16,
) -> (r: WitnessScript)
    requires
        revocationpubkey.wf(),
        local_delayedpubkey.wf(),
    ensures
        r.script.bytes@ == to_local_script(
            revocationpubkey.bytes@,
            local_delayedpubkey.bytes@,
            to_self_delay,
        ),
        r.script.wf(),
{
    let lock = to_local_lock_script(revocationpubkey, local_delayedpubkey, to_self_delay);
    WitnessScript { script: lock.script }
}

/// Builds the second-version `to_remote` witness script.
pub fn to_remote_v2_witness_script(remote_pubkey: &PublicKey) -> (r: WitnessScript)
    requires
        remote_pubkey.wf(),
    ensures
        r.script.bytes@ == to_remote_v2_script(remote_pubkey.bytes@),
        r.script.wf(),
{
    let lock = to_remote_v2_lock_script(remote_pubkey);
    WitnessScript { script: lock.script }
}

/// Builds the funding output's locking script: the witness program
/// committing to the sorted multisignature condition.
pub fn funding_pubkey_script(local_pubkey: &LocalPubkey, remote_pubkey: &PublicKey) -> (r:
    PubkeyScript)
    requires
        local_pubkey.wf(),
        remote_pubkey.wf(),
    ensures
        r.script.bytes@ == p2wsh(funding_script(local_pubkey.key.bytes@, remote_pubkey.bytes@)),
        r.script.wf(),
{
    let witness = funding_witness_script(local_pubkey, remote_pubkey);
    to_p2wsh(&witness)
}

/// Builds the `to_local` output's locking script.
pub fn to_local_pubkey_script(
    revocationpubkey: &PublicKey,
    local_delayedpubkey: &PublicKey,
    to_self_delay: u16,
) -> (r: PubkeyScript)
    requires
        revocationpubkey.wf(),
        local_delayedpubkey.wf(),
    ensures
        r.script.bytes@ == p2wsh(
            to_local_script(revocationpubkey.bytes@, local_delayedpubkey.bytes@, to_self_delay),
        ),
        r.script.wf(),
{
    let witness = to_local_witness_script(revocationpubkey, local_delayedpubkey, to_self_delay);
    to_p2wsh(&witness)
}

/// Builds the second-version `to_remote` output's locking script.
pub fn to_remote_v2_pubkey_script(remote_pubkey: &PublicKey) -> (r: PubkeyScript)
    requires
        remote_pubkey.wf(),
    ensures
        r.script.bytes@ == p2wsh(to_remote_v2_script(remote_pubkey.bytes@)),
        r.script.wf(),
{
    let witness = to_remote_v2_witness_script(remote_pubkey);
    to_p2wsh(&witness)
}

/// A commitment transaction output together with the witness script it
/// commits to, where one exists.
#[derive(Clone, Debug, PartialEq, Eq)]
pub struct TxOutput {
    /// The output amount, in satoshi.
    pub value: u64,
    /// The output's locking script.
    pub script_pubkey: PubkeyScript,
    /// The spend condition behind the locking script's hash commitment.
    pub witness_script: Option<WitnessScript>,
}

impl TxOutput {
    /// The scripts fit their wire length prefixes.
    pub open spec fn wf(&self) -> bool {
        self.script_pubkey.wf() && match self.witness_script {
            Some(w) => w.script.wf(),
            None => true,
        }
    }
}

/// Builds the funding output: the amount, the witness program, and the
/// multisignature condition it commits to.
pub fn ln_funding(amount: u64, local_pubkey: &LocalPubkey, remote_pubkey: &PublicKey) -> (r:
    TxOutput)
    requires
        local_pubkey.wf(),
        remote_pubkey.wf(),
    ensures
        r.wf(),
        r.value == amount,
        r.script_pubkey.script.bytes@ == p2wsh(
            funding_script(local_pubkey.key.bytes@, remote_pubkey.bytes@),
        ),
        r.witness_script matches Some(w) && w.script.bytes@ == funding_script(
            local_pubkey.key.bytes@,
            remote_pubkey.bytes@,
        ),
{
    let witness = funding_witness_script(local_pubkey, remote_pubkey);
    let script_pubkey = to_p2wsh(&witness);
    TxOutput { value: amount, script_pubkey, witness_script: Some(witness) }
}

/// Builds the `to_local` output. The delayed key belongs to the party whose
/// transaction this output stands in, which is the counterparty of the node
/// composing the transaction.
pub fn ln_to_local(
    amount: u64,
    revocationpubkey: &PublicKey,
    local_delayedpubkey: &PublicKey,
    to_self_delay: u16,
) -> (r: TxOutput)
    requires
        revocationpubkey.wf(),
        local_delayedpubkey.wf(),
    ensures
        r.wf(),
        r.value == amount,
        r.script_pubkey.script.bytes@ == p2wsh(
            to_local_script(revocationpubkey.bytes@, local_delayedpubkey.bytes@, to_self_delay),
        ),
        r.witness_script matches Some(w) && w.script.bytes@ == to_local_script(
            revocationpubkey.bytes@,
            local_delayedpubkey.bytes@,
            to_self_delay,
        ),
{
    let witness = to_local_witness_script(revocationpubkey, local_delayedpubkey, to_self_delay);
    let script_pubkey = to_p2wsh(&witness);
    TxOutput { value: amount, script_pubkey, witness_script: Some(witness) }
}

/// Builds the first-version `to_remote` output: an immediately spendable
/// witness-key payment with no separate spend-condition script.
pub fn ln_to_remote_v1(amount: u64, remote_pubkey: &PublicKey) -> (r: TxOutput)
    requires
        remote_pubkey.wf(),
    ensures
        r.wf(),
        r.value == amount,
        r.script_pubkey.script.bytes@ == p2wpkh(remote_pubkey.bytes@),
        r.witness_script is None,
{
    let script_pubkey = to_remote_v1_pubkey_script(remote_pubkey);
    TxOutput { value: amount, script_pubkey, witness_script: None }
}

/// Builds the second-version `to_remote` output, which forces one block of
/// relative maturity before the counterparty balance can move.
pub fn ln_to_remote_v2(amount: u64, remote_pubkey: &PublicKey) -> (r: TxOutput)
    requires
        remote_pubkey.wf(),
    ensures
        r.wf(),
        r.value == amount,
        r.script_pubkey.script.bytes@ == p2wsh(to_remote_v2_script(remote_pubkey.bytes@)),
        r.witness_script matches Some(w) && w.script.bytes@ == to_remote_v2_script(
            remote_pubkey.bytes@,
        ),
{
    let witness = to_remote_v2_witness_script(remote_pubkey);
    let script_pubkey = to_p2wsh(&witness);
    TxOutput { value: amount, script_pubkey, witness_script: Some(witness) }
}

/// The closed family of script shapes a channel output can take, producible
/// at each abstraction level. The first-version `to_remote` flavour has no
/// bare spend-condition form, so that method returns nothing at levels where
/// the flavour does not exist. The trait carries only the preconditions all
/// levels share; the exact byte-level guarantees live on the free functions
/// of this module ([`funding_lock_script`], [`ln_to_local`], and the rest),
/// which the implementations delegate to and which verified callers use.
pub trait ScriptGenerators where Self: core::marker::Sized {
    /// The funding 2-of-2 multisignature over the sorted funding keys.
    fn ln_funding(amount: u64, local_pubkey: &LocalPubkey, remote_pubkey: &PublicKey) -> Self
        requires
            local_pubkey.wf(),
            remote_pubkey.wf(),
    ;

    /// The revocable, delayed self-payment. The delayed key is named for the
    /// transaction's owner: the counterparty of the composing node.
    fn ln_to_local(
        amount: u64,
        revocationpubkey: &PublicKey,
        local_delayedpubkey: &PublicKey,
        to_self_delay: u16,
    ) -> Self
        requires
            revocationpubkey.wf(),
            local_delayedpubkey.wf(),
    ;

    /// The legacy counterparty payment; a hash commitment with no bare
    /// spend-condition form.
    fn ln_to_remote_v1(amount: u64, remote_pubkey: &PublicKey) -> Option<Self>
        requires
            remote_pubkey.wf(),
    ;

    /// The counterparty payment behind one block of relative maturity.
    fn ln_to_remote_v2(amount: u64, remote_pubkey: &PublicKey) -> Self
        requires
            remote_pubkey.wf(),
    ;
}

impl ScriptGenerators for LockScript {
    fn ln_funding(_amount: u64, local_pubkey: &LocalPubkey, remote_pubkey: &PublicKey) -> Self {
        funding_lock_script(local_pubkey, remote_pubkey)
    }

    fn ln_to_local(
        _amount: u64,
        revocationpubkey: &PublicKey,
        local_delayedpubkey: &PublicKey,
        to_self_delay: u16,
    ) -> Self {
        to_local_lock_script(revocationpubkey, local_delayedpubkey, to_self_delay)
    }

    fn ln_to_remote_v1(_amount: u64, _remote_pubkey: &PublicKey) -> Option<Self> {
        None
    }

    fn ln_to_remote_v2(_amount: u64, remote_pubkey: &PublicKey) -> Self {
        to_remote_v2_lock_script(remote_pubkey)
    }
}

impl ScriptGenerators for WitnessScript {
    fn ln_funding(_amount: u64, local_pubkey: &LocalPubkey, remote_pubkey: &PublicKey) -> Self {
        funding_witness_script(local_pubkey, remote_pubkey)
    }

    fn ln_to_local(
        _amount: u64,
        revocationpubkey: &PublicKey,
        local_delayedpubkey: &PublicKey,
        to_self_delay: u16,
    ) -> Self {
        to_local_witness_script(revocationpubkey, local_delayedpubkey, to_self_delay)
    }

    fn ln_to_remote_v1(_amount: u64, _remote_pubkey: &PublicKey) -> Option<Self> {
        None
    }

    fn ln_to_remote_v2(_amount: u64, remote_pubkey: &PublicKey) -> Self {
        to_remote_v2_witness_script(remote_pubkey)
    }
}

impl ScriptGenerators for PubkeyScript {
    fn ln_funding(_amount: u64, local_pubkey: &LocalPubkey, remote_pubkey: &PublicKey) -> Self {
        funding_pubkey_script(local_pubkey, remote_pubkey)
    }

    fn ln_to_local(
        _amount: u64,
        revocationpubkey: &PublicKey,
        local_delayedpubkey: &PublicKey,
        to_self_delay: u16,
    ) -> Self {
        to_local_pubkey_script(revocationpubkey, local_delayedpubkey, to_self_delay)
    }

    fn ln_to_remote_v1(_amount: u64, remote_pubkey: &PublicKey) -> Option<Self> {
        Some(to_remote_v1_pubkey_script(remote_pubkey))
    }

    fn ln_to_remote_v2(_amount: u64, remote_pubkey: &PublicKey) -> Self {
        to_remote_v2_pubkey_script(remote_pubkey)
    }
}

impl ScriptGenerators for TxOutput {
    fn ln_funding(amount: u64, local_pubkey: &LocalPubkey, remote_pubkey: &PublicKey) -> Self {
        ln_funding(amount, local_pubkey, remote_pubkey)
    }

    fn ln_to_local(
        amount: u64,
        revocationpubkey: &PublicKey,
        local_delayedpubkey: &PublicKey,
        to_self_delay: u16,
    ) -> Self {
        ln_to_local(amount, revocationpubkey, local_delayedpubkey, to_self_delay)
    }

    fn ln_to_remote_v1(amount: u64, remote_pubkey: &PublicKey) -> Option<Self> {
        Some(ln_to_remote_v1(amount, remote_pubkey))
    }

    fn ln_to_remote_v2(amount: u64, remote_pubkey: &PublicKey) -> Self {
        ln_to_remote_v2(amount, remote_pubkey)
    }
}

} // verus!
