//! Transactions and their assembly from selected outputs.
//!
//! A transaction spends the caller's outputs in the caller's order and pays
//! a single output. The inputs must add up to the amount plus the fee
//! exactly: there is no change output.

use vstd::prelude::*;
use crate::script::LockingScript;

verus! {

/// A spendable output: the id of the transaction holding it, its index
/// there and its amount in sompi.
#[derive(Clone, Copy, Debug)]
pub struct UtxoRef {
    pub txid: [u8; 32],
    pub index: u32,
    pub amount: u64,
}

/// An input: the output it spends, its unlocking script (empty until
/// signed), sequence number and signature-operation count.
#[derive(Debug)]
pub struct TxInput {
    pub utxo: UtxoRef,
    pub signature_script: Vec<u8>,
    pub sequence: u64,
    pub sig_op_count: u8,
}

/// An output: an amount in sompi and the script that locks it.
#[derive(Debug)]
pub struct TxOutput {
    pub amount: u64,
    pub script: LockingScript,
}

/// A transaction, unsigned while its unlocking scripts are empty.
#[derive(Debug)]
pub struct Transaction {
    pub version: u16,
    pub inputs: Vec<TxInput>,
    pub outputs: Vec<TxOutput>,
    pub lock_time: u64,
    /// The subnetwork the transaction belongs to; all zero for native transfers.
    pub subnetwork_id: [u8; 20],
    pub gas: u64,
    pub payload: Vec<u8>,
}

/// Why a transaction could not be assembled.
#[derive(Clone, Copy, Debug, PartialEq, Eq, Structural)]
pub enum BuildError {
    /// No output was given to spend.
    EmptyInputSet,
    /// The inputs do not add up to amount plus fee.
    AmountMismatch { input_sum: u128, required: u128 },
}

/// The total amount of a sequence of outputs.
pub open spec fn sum_amounts(s: Seq<UtxoRef>) -> int
    decreases s.len(),
{
    if s.len() == 0 {
        0
    } else {
        sum_amounts(s.drop_last()) + s.last().amount
    }
}

/// Input `i` spends `u`, has no unlocking script yet, sequence 0 and one
/// signature operation.
pub open spec fn is_fresh_input(inp: &TxInput, u: UtxoRef) -> bool {
    &&& inp.utxo == u
    &&& inp.signature_script@.len() == 0
    &&& inp.sequence == 0
    &&& inp.sig_op_count == 1
}

impl Transaction {
    /// The transaction spends `inputs` in order and pays `amount` to `to` in
    /// its single output.
    pub open spec fn is_built_from(&self, inputs: Seq<UtxoRef>, to: &LockingScript, amount: u64) -> bool {
        &&& self.version == 0
        &&& self.lock_time == 0
        &&& self.inputs@.len() == inputs.len()
        &&& forall|i: int| 0 <= i < inputs.len() ==> is_fresh_input(#[trigger] &self.inputs@[i], inputs[i])
        &&& self.outputs@.len() == 1
        &&& self.outputs@[0].amount == amount
        &&& self.outputs@[0].script.version == to.version
        &&& self.outputs@[0].script.script@ == to.script@
        &&& forall|k: int| 0 <= k < 20 ==> self.subnetwork_id@[k] == 0
        &&& self.gas == 0
        &&& self.payload@.len() == 0
    }

    /// `self` and `other` agree on everything but the unlocking scripts.
    pub open spec fn same_skeleton(&self, other: &Transaction) -> bool {
        &&& self.version == other.version
        &&& self.lock_time == other.lock_time
        &&& self.subnetwork_id == other.subnetwork_id
        &&& self.gas == other.gas
        &&& self.payload@ == other.payload@
        &&& self.inputs@.len() == other.inputs@.len()
        &&& forall|i: int| 0 <= i < self.inputs@.len() ==> {
            &&& (#[trigger] self.inputs@[i]).utxo == other.inputs@[i].utxo
            &&& self.inputs@[i].sequence == other.inputs@[i].sequence
            &&& self.inputs@[i].sig_op_count == other.inputs@[i].sig_op_count
        }
        &&& self.outputs@.len() == other.outputs@.len()
        &&& forall|j: int| 0 <= j < self.outputs@.len() ==> {
            &&& (#[trigger] self.outputs@[j]).amount == other.outputs@[j].amount
            &&& self.outputs@[j].script.version == other.outputs@[j].script.version
            &&& self.outputs@[j].script.script@ == other.outputs@[j].script.script@
        }
    }
}

/// The outcome of assembling a transaction, failures first: no inputs, then
/// inputs that do not add up to amount plus fee.
pub open spec fn spec_build_error(inputs: Seq<UtxoRef>, amount: u64, fee: u64) -> Option<BuildError> {
    if inputs.len() == 0 {
        Some(BuildError::EmptyInputSet)
    } else if sum_amounts(inputs) != amount + fee {
        Some(BuildError::AmountMismatch { input_sum: sum_amounts(inputs) as u128, required: (amount + fee) as u128 })
    } else {
        None
    }
}

/// The total amount of the outputs, which fits in 128 bits.
pub fn total_amount(inputs: &Vec<UtxoRef>) -> (r: u128)
    ensures
        r == sum_amounts(inputs@),
{
    let mut acc: u128 = 0;
    let mut i: usize = 0;
    while i < inputs.len()
        invariant
            i <= inputs@.len(),
            acc == sum_amounts(inputs@.subrange(0, i as int)),
            acc <= i * 0xFFFF_FFFF_FFFF_FFFFu64,
        decreases inputs@.len() - i,
    {
        assert(inputs@.subrange(0, i + 1).drop_last() =~= inputs@.subrange(0, i as int));
        let a = inputs[i].amount;
        assert(i < 0x1_0000_0000_0000_0000);
        assert((i + 1) * 0xFFFF_FFFF_FFFF_FFFFu64 < 0x1_0000_0000_0000_0000_0000_0000_0000_0000) by (nonlinear_arith)
            requires i < 0x1_0000_0000_0000_0000int;
        assert(acc + a <= (i + 1) * 0xFFFF_FFFF_FFFF_FFFFu64) by (nonlinear_arith)
            requires acc <= i * 0xFFFF_FFFF_FFFF_FFFFu64, a <= 0xFFFF_FFFF_FFFF_FFFFu64;
        acc = acc + a as u128;
        i = i + 1;
    }
    assert(inputs@.subrange(0, i as int) =~= inputs@);
    acc
}

/// Assembles an unsigned transaction that spends `inputs` in order and pays
/// `amount` to `to`, provided the inputs add up to `amount + fee` exactly.
pub fn build_transaction(inputs: &Vec<UtxoRef>, to: &LockingScript, amount: u64, fee: u64) -> (r: Result<Transaction, BuildError>)
    ensures
        spec_build_error(inputs@, amount, fee) matches Some(e) ==> r == Err::<Transaction, BuildError>(e),
        spec_build_error(inputs@, amount, fee).is_none() ==> r.is_ok() && r.unwrap().is_built_from(inputs@, to, amount),
{
    if inputs.len() == 0 {
        return Err(BuildError::EmptyInputSet);
    }
    let input_sum = total_amount(inputs);
    let required = amount as u128 + fee as u128;
    if input_sum != required {
        return Err(BuildError::AmountMismatch { input_sum, required });
    }
    let mut tx_inputs: Vec<TxInput> = Vec::new();
    let mut i: usize = 0;
    while i < inputs.len()
        invariant
            i <= inputs@.len(),
            tx_inputs@.len() == i,
            forall|k: int| 0 <= k < i ==> is_fresh_input(#[trigger] &tx_inputs@[k], inputs@[k]),
        decreases inputs@.len() - i,
    {
        tx_inputs.push(TxInput { utxo: inputs[i], signature_script: Vec::new(), sequence: 0, sig_op_count: 1 });
        i = i + 1;
    }
    let mut outputs: Vec<TxOutput> = Vec::new();
    outputs.push(TxOutput { amount, script: to.duplicate() });
    Ok(Transaction {
        version: 0,
        inputs: tx_inputs,
        outputs,
        lock_time: 0,
        subnetwork_id: [0u8; 20],
        gas: 0,
        payload: Vec::new(),
    })
}

/// Inputs that do not add up to amount plus fee are refused with both sums.
pub proof fn lemma_mismatch_reports_sums(inputs: Seq<UtxoRef>, amount: u64, fee: u64)
    requires
        inputs.len() > 0,
        sum_amounts(inputs) != amount + fee,
    ensures
        spec_build_error(inputs, amount, fee) == Some(BuildError::AmountMismatch {
            input_sum: sum_amounts(inputs) as u128,
            required: (amount + fee) as u128,
        }),
{
}

/// An empty input set is refused whatever the other arguments are.
pub proof fn lemma_empty_inputs_refused(inputs: Seq<UtxoRef>, amount: u64, fee: u64)
    requires
        inputs.len() == 0,
    ensures
        spec_build_error(inputs, amount, fee) == Some(BuildError::EmptyInputSet),
{
}

} // verus!
