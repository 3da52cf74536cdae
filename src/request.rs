//! The signing request as the HTTP layer hands it over, and the reply.

use vstd::prelude::*;

verus! {

/// One unspent output to spend: its transaction id in hex, output index and
/// amount in sompi.
#[derive(Debug)]
pub struct UtxoIn {
    pub txid: String,
    pub index: u32,
    pub amount_sompi: u64,
}

/// A request to pay `amount_sompi` to `to_address`, with `fee_sompi`, from
/// exactly the listed outputs.
#[derive(Debug)]
pub struct SubmitSignedReq {
    pub to_address: String,
    pub amount_sompi: u64,
    pub fee_sompi: u64,
    pub utxos: Vec<UtxoIn>,
}

/// The reply: `status` is `ok` with a transaction id, or `error` with a reason.
#[derive(Debug)]
pub struct SubmitSignedResp {
    pub status: String,
    pub txid: Option<String>,
    pub error: Option<String>,
}

impl SubmitSignedResp {
    /// A successful reply.
    pub fn ok(txid: String) -> (r: Self)
        ensures
            r.status@ == "ok"@,
            r.txid == Some(txid),
            r.error.is_none(),
    {
        SubmitSignedResp { status: String::from_str("ok"), txid: Some(txid), error: None }
    }

    /// A failed reply.
    pub fn error(reason: String) -> (r: Self)
        ensures
            r.status@ == "error"@,
            r.txid.is_none(),
            r.error == Some(reason),
    {
        SubmitSignedResp { status: String::from_str("error"), txid: None, error: Some(reason) }
    }
}

} // verus!
