//! Signing every input of a transaction with one key.
//!
//! Each input is signed against the unsigned transaction, whose structure
//! does not change while signing: the digest of an input covers the
//! transaction's outpoints, amounts, sequences, outputs and lock time, never
//! an unlocking script, so no signature depends on another.

use vstd::prelude::*;
use crate::address::xonly_public_key;
use crate::keys::{PrivateKey, copy_tail, is_valid_scalar};
use crate::script::{LockingScript, push_data, unlocking_script_for_signature};
use crate::tx::{Transaction, TxInput, TxOutput};
use kaspa_consensus_core::hashing::sighash_type::SIG_HASH_ALL;
use kaspa_consensus_core::sign::sign_input;
use kaspa_consensus_core::subnets::SubnetworkId;
use kaspa_consensus_core::tx::{
    PopulatedTransaction, ScriptPublicKey as Spk, Transaction as KTx, TransactionInput as KIn,
    TransactionOutpoint as KOutpoint, TransactionOutput as KOut, UtxoEntry,
};

verus! {

/// The sighash type that signs the whole transaction.
pub const SIGHASH_ALL: u8 = 1;

/// What the signatures of a transaction cover, as plain values: version,
/// each input's outpoint, amount, sequence and signature-operation count,
/// each output's amount and script, lock time, subnetwork, gas and payload.
/// The unlocking scripts are not part of it.
pub open spec fn signed_parts(tx: &Transaction) -> (
    u16,
    Seq<(Seq<u8>, u32, u64, u64, u8)>,
    Seq<(u64, u16, Seq<u8>)>,
    (u64, Seq<u8>, u64, Seq<u8>),
) {
    (
        tx.version,
        Seq::new(tx.inputs@.len(), |i: int| {
            let inp = tx.inputs@[i];
            (inp.utxo.txid@, inp.utxo.index, inp.utxo.amount, inp.sequence, inp.sig_op_count)
        }),
        Seq::new(tx.outputs@.len(), |j: int| {
            let o = tx.outputs@[j];
            (o.amount, o.script.version, o.script.script@)
        }),
        (tx.lock_time, tx.subnetwork_id@, tx.gas, tx.payload@),
    )
}

/// The Schnorr signature hash, with sighash type "all", of input `index` of
/// a transaction with these signed parts, every spent output being locked by
/// script `spent` of version `spent_version`.
pub uninterp spec fn sighash_all(
    parts: (u16, Seq<(Seq<u8>, u32, u64, u64, u8)>, Seq<(u64, u16, Seq<u8>)>, (u64, Seq<u8>, u64, Seq<u8>)),
    spent_version: u16,
    spent: Seq<u8>,
    index: nat,
) -> Seq<u8>;

/// Whether `sig` is a valid BIP-340 Schnorr signature of `msg` under the
/// x-only public key `pk`.
pub uninterp spec fn schnorr_verifies(pk: Seq<u8>, msg: Seq<u8>, sig: Seq<u8>) -> bool;

/// The unlocking script of input `index` of `tx`: a Schnorr signature by
/// `pk` over that input's signature hash, tagged with [`SIGHASH_ALL`] and
/// pushed.
pub open spec fn is_input_signature(s: Seq<u8>, tx: &Transaction, spent_version: u16, spent: Seq<u8>, index: nat, pk: Seq<u8>) -> bool {
    exists|sig: Seq<u8>|
        sig.len() == 64 && s == push_data(#[trigger] sig.push(SIGHASH_ALL))
            && schnorr_verifies(pk, sighash_all(signed_parts(tx), spent_version, spent, index), sig)
}

#[verifier::external_type_specification]
#[verifier::external_body]
pub struct ExKaspaTransaction(KTx);

/// Relies on the constructors of kaspa-consensus-core's `Transaction`,
/// `TransactionInput`, `TransactionOutpoint`, `TransactionOutput` and
/// `ScriptPublicKey`: `tx` in kaspa's form, field for field. It is called
/// only by [`sign_input_with`], on that function's own argument.
#[verifier::external_body]
fn kaspa_form(tx: &Transaction) -> KTx {
    let ins = tx.inputs.iter().map(|i| KIn::new(KOutpoint::new(i.utxo.txid.into(), i.utxo.index), i.signature_script.clone(), i.sequence, i.sig_op_count)).collect();
    let outs = tx.outputs.iter().map(|o| KOut::new(o.amount, Spk::from_vec(o.script.version, o.script.script.clone()))).collect();
    KTx::new(tx.version, ins, outs, tx.lock_time, SubnetworkId::from_bytes(tx.subnetwork_id), tx.gas, tx.payload.clone())
}

/// Relies on `sign_input` of kaspa-consensus-core, with `SIG_HASH_ALL`, over
/// `tx` in kaspa's form (built here by [`kaspa_form`] from `tx` itself),
/// each input's spent output locked by `spent`: it
/// returns the byte 65, the 64-byte Schnorr signature, then the sighash-type
/// byte. The signature is valid under the secret's x-only public key over
/// the input's signature hash (`calc_schnorr_signature_hash`), which does not
/// cover unlocking scripts; it uses fresh random auxiliary data, so its bytes
/// are not otherwise fixed. It panics on a secret that is not a valid scalar.
#[verifier::external_body]
fn sign_input_with(tx: &Transaction, spent: &LockingScript, index: usize, secret: &[u8; 32]) -> (r: Vec<u8>)
    requires
        index < tx.inputs@.len(),
        is_valid_scalar(secret@),
    ensures
        r@.len() == 66,
        r@[0] == 65,
        r@[65] == SIGHASH_ALL,
        schnorr_verifies(
            xonly_public_key(secret@),
            sighash_all(signed_parts(tx), spent.version, spent.script@, index as nat),
            r@.subrange(1, 65),
        ),
{
    let t = kaspa_form(tx);
    let entries = tx.inputs.iter().map(|i| UtxoEntry::new(i.utxo.amount, Spk::from_vec(spent.version, spent.script.clone()), 0, false)).collect();
    sign_input(&PopulatedTransaction::new(&t, entries), index, secret, SIG_HASH_ALL)
}

/// Signs input `index` of `tx` and returns its unlocking script.
fn sign_one(tx: &Transaction, spent: &LockingScript, index: usize, key: &PrivateKey) -> (r: Vec<u8>)
    requires
        index < tx.inputs@.len(),
        key.wf(),
    ensures
        is_input_signature(r@, tx, spent.version, spent.script@, index as nat, xonly_public_key(key@)),
{
    let raw = sign_input_with(tx, spent, index, key.as_array());
    let mut sig: Vec<u8> = Vec::new();
    let mut k: usize = 1;
    while k < 65
        invariant
            1 <= k <= 65,
            raw@.len() == 66,
            sig@ == raw@.subrange(1, k as int),
        decreases 65 - k,
    {
        sig.push(raw[k]);
        k = k + 1;
    }
    let r = unlocking_script_for_signature(sig.as_slice(), SIGHASH_ALL);
    assert(sig@ == raw@.subrange(1, 65));
    assert(sig@.len() == 64 && r@ == push_data(sig@.push(SIGHASH_ALL)));
    r
}

/// Signs every input of an unsigned transaction whose spent outputs are all
/// locked by `spent`. The result has the same structure, and each input's
/// unlocking script pushes a signature by the key over that input's
/// signature hash, which depends on the structure alone.
pub fn sign_all(tx: &Transaction, key: &PrivateKey, spent: &LockingScript) -> (r: Transaction)
    requires
        key.wf(),
    ensures
        r.same_skeleton(tx),
        forall|i: int| 0 <= i < r.inputs@.len() ==> is_input_signature(
            #[trigger] r.inputs@[i].signature_script@, tx, spent.version, spent.script@, i as nat, xonly_public_key(key@)),
{
    let mut inputs: Vec<TxInput> = Vec::new();
    let mut i: usize = 0;
    while i < tx.inputs.len()
        invariant
            key.wf(),
            i <= tx.inputs@.len(),
            inputs@.len() == i,
            forall|k: int| 0 <= k < i ==> {
                &&& (#[trigger] inputs@[k]).utxo == tx.inputs@[k].utxo
                &&& inputs@[k].sequence == tx.inputs@[k].sequence
                &&& inputs@[k].sig_op_count == tx.inputs@[k].sig_op_count
                &&& is_input_signature(inputs@[k].signature_script@, tx, spent.version, spent.script@, k as nat, xonly_public_key(key@))
            },
        decreases tx.inputs@.len() - i,
    {
        let script = sign_one(tx, spent, i, key);
        let src = &tx.inputs[i];
        inputs.push(TxInput { utxo: src.utxo, signature_script: script, sequence: src.sequence, sig_op_count: src.sig_op_count });
        i = i + 1;
    }
    let mut outputs: Vec<TxOutput> = Vec::new();
    let mut j: usize = 0;
    while j < tx.outputs.len()
        invariant
            j <= tx.outputs@.len(),
            outputs@.len() == j,
            forall|k: int| 0 <= k < j ==> {
                &&& (#[trigger] outputs@[k]).amount == tx.outputs@[k].amount
                &&& outputs@[k].script.version == tx.outputs@[k].script.version
                &&& outputs@[k].script.script@ == tx.outputs@[k].script.script@
            },
        decreases tx.outputs@.len() - j,
    {
        let o = &tx.outputs[j];
        outputs.push(TxOutput { amount: o.amount, script: o.script.duplicate() });
        j = j + 1;
    }
    let payload = copy_tail(tx.payload.as_slice(), 0);
    assert(tx.payload@.subrange(0, tx.payload@.len() as int) =~= tx.payload@);
    Transaction { version: tx.version, inputs, outputs, lock_time: tx.lock_time, subnetwork_id: tx.subnetwork_id, gas: tx.gas, payload }
}

/// Transactions that agree on everything but their unlocking scripts have
/// the same signature hash for every input. So signing the inputs of an
/// unsigned transaction in any order, or at once, signs the same hashes,
/// and no input's signature depends on another's.
pub proof fn lemma_sighash_ignores_unlocking_scripts(a: &Transaction, b: &Transaction, spent_version: u16, spent: Seq<u8>, index: nat)
    requires
        a.same_skeleton(b),
    ensures
        sighash_all(signed_parts(a), spent_version, spent, index) == sighash_all(signed_parts(b), spent_version, spent, index),
{
    assert(signed_parts(a).1 =~= signed_parts(b).1);
    assert(signed_parts(a).2 =~= signed_parts(b).2);
}

/// An input signature over one transaction is an input signature over any
/// transaction with the same structure: what the unlocking scripts of the
/// other inputs hold does not matter.
pub proof fn lemma_input_signature_transfers(s: Seq<u8>, a: &Transaction, b: &Transaction, spent_version: u16, spent: Seq<u8>, index: nat, pk: Seq<u8>)
    requires
        a.same_skeleton(b),
        is_input_signature(s, a, spent_version, spent, index, pk),
    ensures
        is_input_signature(s, b, spent_version, spent, index, pk),
{
    lemma_sighash_ignores_unlocking_scripts(a, b, spent_version, spent, index);
}

} // verus!
