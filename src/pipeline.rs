//! The signing pipeline: from a payment request to a signed transaction,
//! and from the node's answer to the caller's result.
//!
//! Steps, stopping at the first failure: refuse an empty output list; parse
//! the private key; make the locking script of the destination; read the
//! transaction ids; assemble the transaction; sign it. Broadcasting is left
//! to the caller, which hands the node's answer to [`finish_submission`].

use vstd::prelude::*;
use vstd::utf8::encode_utf8;
use crate::address::{Network, address_for_key, xonly_public_key};
use crate::keys::{
    KeyError, PrivateKey, all_hex, decode_hex, hex_decoded, private_key_from_source, spec_parse_key,
    to_array32,
};
use crate::request::{SubmitSignedReq, UtxoIn};
use crate::script::{LockingScript, locking_script_for_address, spec_locking_script, standard_script};
use crate::signer::{is_input_signature, lemma_input_signature_transfers, sign_all};
use crate::tx::{BuildError, Transaction, UtxoRef, build_transaction, is_fresh_input, sum_amounts};

verus! {

/// Why a request did not yield a transaction id.
#[derive(Debug)]
pub enum PipelineError {
    /// The private key is missing or refused.
    Key(KeyError),
    /// The destination address is refused.
    InvalidAddress,
    /// The transaction id of the output at this position is not 64 hex digits.
    InvalidTxid { position: usize },
    /// The outputs cannot pay the request.
    Build(BuildError),
    /// No connected node to broadcast to.
    NodeUnavailable,
    /// The node refused or failed the broadcast.
    SubmitFailed { detail: String },
}

/// Whom a failure is reported against, so that callers can retry upstream
/// failures and fix their own.
#[derive(Clone, Copy, Debug, PartialEq, Eq, Structural)]
pub enum ErrorClass {
    /// The request itself is wrong: key, address, transaction ids or amounts.
    ClientInput,
    /// The node is unreachable or refused the broadcast.
    Upstream,
}

impl PipelineError {
    pub open spec fn spec_class(&self) -> ErrorClass {
        match self {
            PipelineError::NodeUnavailable => ErrorClass::Upstream,
            PipelineError::SubmitFailed { .. } => ErrorClass::Upstream,
            _ => ErrorClass::ClientInput,
        }
    }

    /// The class of a failure.
    pub fn class(&self) -> (r: ErrorClass)
        ensures
            r == self.spec_class(),
    {
        match self {
            PipelineError::NodeUnavailable => ErrorClass::Upstream,
            PipelineError::SubmitFailed { .. } => ErrorClass::Upstream,
            _ => ErrorClass::ClientInput,
        }
    }
}

/// The 32 bytes that transaction-id text stands for, if it is 64 hex digits.
pub open spec fn spec_txid(text: Seq<char>) -> Option<Seq<u8>> {
    let b = encode_utf8(text);
    if b.len() == 64 && all_hex(b) {
        Some(hex_decoded(b))
    } else {
        None
    }
}

/// The total amount requested to be spent.
pub open spec fn sum_requested(s: Seq<UtxoIn>) -> int
    decreases s.len(),
{
    if s.len() == 0 {
        0
    } else {
        sum_requested(s.drop_last()) + s.last().amount_sompi
    }
}

/// The first failure of a request, if any, in the order the steps run.
pub open spec fn spec_prepare_error(key_source: Option<Seq<char>>, network: Network, req: &SubmitSignedReq) -> Option<PipelineError> {
    let key = match key_source {
        None => Err(KeyError::Missing),
        Some(raw) => spec_parse_key(raw),
    };
    if req.utxos@.len() == 0 {
        Some(PipelineError::Build(BuildError::EmptyInputSet))
    } else if key is Err {
        Some(PipelineError::Key(key->Err_0))
    } else if spec_locking_script(req.to_address@, network).is_none() {
        Some(PipelineError::InvalidAddress)
    } else if exists|i: int| 0 <= i < req.utxos@.len() && spec_txid((#[trigger] req.utxos@[i]).txid@).is_none() {
        let i = choose|i: int| 0 <= i < req.utxos@.len() && spec_txid((#[trigger] req.utxos@[i]).txid@).is_none()
            && forall|j: int| 0 <= j < i ==> spec_txid((#[trigger] req.utxos@[j]).txid@).is_some();
        Some(PipelineError::InvalidTxid { position: i as usize })
    } else if sum_requested(req.utxos@) != req.amount_sompi + req.fee_sompi {
        Some(PipelineError::Build(BuildError::AmountMismatch {
            input_sum: sum_requested(req.utxos@) as u128,
            required: (req.amount_sompi + req.fee_sompi) as u128,
        }))
    } else {
        None
    }
}

/// Input `i` of `tx` spends the output that request entry `u` names.
pub open spec fn spends(tx: &Transaction, i: int, u: &UtxoIn) -> bool {
    &&& spec_txid(u.txid@) == Some(tx.inputs@[i].utxo.txid@)
    &&& tx.inputs@[i].utxo.index == u.index
    &&& tx.inputs@[i].utxo.amount == u.amount_sompi
}

/// The key text of an optional source.
pub open spec fn source_view(key_source: Option<&str>) -> Option<Seq<char>> {
    match key_source {
        None => None,
        Some(s) => Some(s@),
    }
}

/// The secret bytes of an optional key source, when it parses.
pub open spec fn source_secret(key_source: Option<Seq<char>>) -> Seq<u8> {
    match key_source {
        Some(raw) => spec_parse_key(raw)->Ok_0,
        None => Seq::empty(),
    }
}

/// `tx` pays the request: it spends the listed outputs in order, each with a
/// signature by `secret` over its own signature hash, every spent output
/// being taken as locked by the key's own address, and pays the amount to
/// the destination's locking script.
pub open spec fn is_payment(tx: &Transaction, req: &SubmitSignedReq, network: Network, secret: Seq<u8>) -> bool {
    &&& tx.version == 0
    &&& tx.lock_time == 0
    &&& tx.gas == 0
    &&& tx.payload@.len() == 0
    &&& forall|k: int| 0 <= k < 20 ==> tx.subnetwork_id@[k] == 0
    &&& tx.inputs@.len() == req.utxos@.len()
    &&& forall|i: int| 0 <= i < tx.inputs@.len() ==> {
        &&& spends(tx, i, &(#[trigger] req.utxos@[i]))
        &&& tx.inputs@[i].sequence == 0
        &&& tx.inputs@[i].sig_op_count == 1
        &&& is_input_signature(
            tx.inputs@[i].signature_script@,
            tx,
            0,
            standard_script(0, xonly_public_key(secret)),
            i as nat,
            xonly_public_key(secret),
        )
    }
    &&& tx.outputs@.len() == 1
    &&& tx.outputs@[0].amount == req.amount_sompi
    &&& tx.outputs@[0].script.version == 0
    &&& tx.outputs@[0].script.script@ == spec_locking_script(req.to_address@, network).unwrap()
}

/// Reads transaction-id text as 32 bytes.
pub fn parse_txid(text: &str) -> (r: Option<[u8; 32]>)
    ensures
        r.is_some() == spec_txid(text@).is_some(),
        r.is_some() ==> r.unwrap()@ == spec_txid(text@).unwrap(),
{
    let b = text.as_bytes();
    if b.len() != 64 {
        return None;
    }
    match decode_hex(b, 32) {
        None => None,
        Some(v) => Some(to_array32(&v)),
    }
}

/// Sums that agree term by term are equal.
proof fn lemma_sums_agree(refs: Seq<UtxoRef>, req: Seq<UtxoIn>)
    requires
        refs.len() == req.len(),
        forall|i: int| 0 <= i < refs.len() ==> (#[trigger] refs[i]).amount == req[i].amount_sompi,
    ensures
        sum_amounts(refs) == sum_requested(req),
    decreases refs.len(),
{
    if refs.len() > 0 {
        lemma_sums_agree(refs.drop_last(), req.drop_last());
    }
}

/// Reads the request's outputs in order, or gives the position of the first
/// transaction id that is not 64 hex digits.
fn utxo_refs(utxos: &Vec<UtxoIn>) -> (r: Result<Vec<UtxoRef>, usize>)
    ensures
        r matches Ok(refs) ==> {
            &&& refs@.len() == utxos@.len()
            &&& forall|i: int| 0 <= i < refs@.len() ==> {
                &&& spec_txid((#[trigger] utxos@[i]).txid@) == Some(refs@[i].txid@)
                &&& refs@[i].index == utxos@[i].index
                &&& refs@[i].amount == utxos@[i].amount_sompi
            }
        },
        r matches Ok(_) <==> forall|i: int| 0 <= i < utxos@.len() ==> spec_txid((#[trigger] utxos@[i]).txid@).is_some(),
        r matches Err(p) ==> p < utxos@.len() && spec_txid(utxos@[p as int].txid@).is_none()
            && forall|j: int| 0 <= j < p ==> spec_txid((#[trigger] utxos@[j]).txid@).is_some(),
{
    let mut refs: Vec<UtxoRef> = Vec::new();
    let mut i: usize = 0;
    while i < utxos.len()
        invariant
            i <= utxos@.len(),
            refs@.len() == i,
            forall|k: int| 0 <= k < i ==> {
                &&& spec_txid((#[trigger] utxos@[k]).txid@) == Some(refs@[k].txid@)
                &&& refs@[k].index == utxos@[k].index
                &&& refs@[k].amount == utxos@[k].amount_sompi
            },
        decreases utxos@.len() - i,
    {
        let u = &utxos[i];
        match parse_txid(u.txid.as_str()) {
            None => {
                return Err(i);
            },
            Some(txid) => {
                refs.push(UtxoRef { txid, index: u.index, amount: u.amount_sompi });
            },
        }
        i = i + 1;
    }
    Ok(refs)
}

/// The locking script of the key's own address, made by encoding the
/// address and decoding it again: the round trip gives back the public key.
pub fn own_locking_script(key: &PrivateKey, network: Network) -> (r: LockingScript)
    requires
        key.wf(),
    ensures
        r.version == 0,
        r.script@ == standard_script(0, xonly_public_key(key@)),
{
    let addr = address_for_key(key, network);
    match locking_script_for_address(addr.as_str(), network) {
        Ok(s) => s,
        Err(_) => {
            assert(false);
            LockingScript { version: 0, script: Vec::new() }
        },
    }
}

/// Turns a request into a signed transaction, or the first failure. Every
/// output it spends is taken to be locked by the key's own address: the
/// signatures cover that script.
pub fn prepare_signed_transaction(key_source: Option<&str>, network: Network, req: &SubmitSignedReq) -> (r: Result<Transaction, PipelineError>)
    ensures
        spec_prepare_error(source_view(key_source), network, req) matches Some(e) ==> (r matches Err(f) && f == e),
        spec_prepare_error(source_view(key_source), network, req).is_none() ==> (r matches Ok(tx) && is_payment(&tx, req, network, source_secret(source_view(key_source)))),
{
    if req.utxos.len() == 0 {
        return Err(PipelineError::Build(BuildError::EmptyInputSet));
    }
    let key = match private_key_from_source(key_source) {
        Ok(k) => k,
        Err(e) => {
            return Err(PipelineError::Key(e));
        },
    };
    let to = match locking_script_for_address(req.to_address.as_str(), network) {
        Ok(s) => s,
        Err(_) => {
            return Err(PipelineError::InvalidAddress);
        },
    };
    let refs = match utxo_refs(&req.utxos) {
        Ok(refs) => refs,
        Err(p) => {
            return Err(PipelineError::InvalidTxid { position: p });
        },
    };
    proof {
        lemma_sums_agree(refs@, req.utxos@);
    }
    let unsigned = match build_transaction(&refs, &to, req.amount_sompi, req.fee_sompi) {
        Ok(tx) => tx,
        Err(e) => {
            return Err(PipelineError::Build(e));
        },
    };
    let spent = own_locking_script(&key, network);
    let signed = sign_all(&unsigned, &key, &spent);
    assert forall|i: int| 0 <= i < signed.inputs@.len() implies spends(&signed, i, &(#[trigger] req.utxos@[i])) by {
        assert(is_fresh_input(&unsigned.inputs@[i], refs@[i]));
    }
    assert forall|i: int| 0 <= i < signed.inputs@.len() implies is_input_signature(
        (#[trigger] signed.inputs@[i]).signature_script@, &signed, spent.version, spent.script@, i as nat, xonly_public_key(key@)) by {
        lemma_input_signature_transfers(signed.inputs@[i].signature_script@, &unsigned, &signed, spent.version, spent.script@, i as nat, xonly_public_key(key@));
    }
    Ok(signed)
}

/// The caller's result from the node's answer to a broadcast: the
/// transaction id, or the node's error as [`PipelineError::SubmitFailed`].
pub fn finish_submission(answer: Result<String, String>) -> (r: Result<String, PipelineError>)
    ensures
        answer matches Ok(id) ==> r matches Ok(t) && t == id,
        answer matches Err(d) ==> r matches Err(PipelineError::SubmitFailed { detail }) && detail == d,
{
    match answer {
        Ok(id) => Ok(id),
        Err(detail) => Err(PipelineError::SubmitFailed { detail }),
    }
}

/// A request whose earlier steps succeed but whose outputs do not add up to
/// amount plus fee fails with both sums, before anything is signed or sent.
pub proof fn lemma_pipeline_amount_mismatch(key_source: Option<Seq<char>>, network: Network, req: &SubmitSignedReq)
    requires
        req.utxos@.len() > 0,
        key_source is Some,
        spec_parse_key(key_source->Some_0) is Ok,
        spec_locking_script(req.to_address@, network).is_some(),
        forall|i: int| 0 <= i < req.utxos@.len() ==> spec_txid((#[trigger] req.utxos@[i]).txid@).is_some(),
        sum_requested(req.utxos@) != req.amount_sompi + req.fee_sompi,
    ensures
        spec_prepare_error(key_source, network, req) == Some(PipelineError::Build(BuildError::AmountMismatch {
            input_sum: sum_requested(req.utxos@) as u128,
            required: (req.amount_sompi + req.fee_sompi) as u128,
        })),
{
}

} // verus!
