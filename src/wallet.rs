//! The wallet view: balance and a bounded listing of the unspent outputs
//! that the node reports for an address, and the network checks that guard
//! the wallet and broadcast endpoints.

use vstd::prelude::*;
use vstd::utf8::encode_utf8_decode_utf8;

verus! {

/// At most this many outputs are listed.
pub const MAX_LISTED_UTXOS: usize = 50;

/// One entry of the node's answer: the outpoint and the output's amount,
/// each of which the node may leave out.
#[derive(Debug)]
pub struct WalletEntry {
    pub outpoint: Option<(String, u32)>,
    pub amount: Option<u64>,
}

/// A listed output; an absent outpoint is shown as an empty id and index 0.
#[derive(Debug)]
pub struct WalletUtxo {
    pub outpoint_txid: String,
    pub outpoint_index: u32,
    pub amount: u64,
}

/// Balance, number of entries, and the first listed outputs.
#[derive(Debug)]
pub struct WalletSummary {
    pub balance: u64,
    pub utxo_count: usize,
    pub utxos: Vec<WalletUtxo>,
}

/// The entries that carry an amount, in order.
pub open spec fn funded(s: Seq<WalletEntry>) -> Seq<WalletEntry>
    decreases s.len(),
{
    if s.len() == 0 {
        Seq::empty()
    } else if s.last().amount is Some {
        funded(s.drop_last()).push(s.last())
    } else {
        funded(s.drop_last())
    }
}

/// The total of the amounts the entries carry.
pub open spec fn total_funded(s: Seq<WalletEntry>) -> int
    decreases s.len(),
{
    if s.len() == 0 {
        0
    } else {
        total_funded(s.drop_last()) + match s.last().amount {
            Some(a) => a as int,
            None => 0,
        }
    }
}

/// `u` lists entry `e`.
pub open spec fn lists(u: &WalletUtxo, e: &WalletEntry) -> bool {
    &&& e.amount == Some(u.amount)
    &&& match e.outpoint {
        Some((t, i)) => u.outpoint_txid@ == t@ && u.outpoint_index == i,
        None => u.outpoint_txid@ == Seq::<char>::empty() && u.outpoint_index == 0,
    }
}

fn listed(e: &WalletEntry, amount: u64) -> (r: WalletUtxo)
    requires
        e.amount == Some(amount),
    ensures
        lists(&r, e),
{
    match &e.outpoint {
        Some((t, i)) => WalletUtxo { outpoint_txid: t.clone(), outpoint_index: *i, amount },
        None => WalletUtxo { outpoint_txid: String::new(), outpoint_index: 0, amount },
    }
}

/// Sums the amounts, saturating at `u64::MAX`, and lists the first
/// [`MAX_LISTED_UTXOS`] entries that carry an amount.
pub fn summarize_wallet(entries: &Vec<WalletEntry>) -> (r: WalletSummary)
    ensures
        r.balance == if total_funded(entries@) <= u64::MAX { total_funded(entries@) } else { u64::MAX as int },
        r.utxo_count == entries@.len(),
        r.utxos@.len() == if funded(entries@).len() <= MAX_LISTED_UTXOS { funded(entries@).len() } else { MAX_LISTED_UTXOS as nat },
        forall|k: int| 0 <= k < r.utxos@.len() ==> lists(#[trigger] &r.utxos@[k], &funded(entries@)[k]),
{
    let mut balance: u64 = 0;
    let mut utxos: Vec<WalletUtxo> = Vec::new();
    let mut i: usize = 0;
    while i < entries.len()
        invariant
            i <= entries@.len(),
            balance == if total_funded(entries@.subrange(0, i as int)) <= u64::MAX {
                total_funded(entries@.subrange(0, i as int))
            } else {
                u64::MAX as int
            },
            total_funded(entries@.subrange(0, i as int)) >= 0,
            utxos@.len() == if funded(entries@.subrange(0, i as int)).len() <= MAX_LISTED_UTXOS {
                funded(entries@.subrange(0, i as int)).len()
            } else {
                MAX_LISTED_UTXOS as nat
            },
            forall|k: int| 0 <= k < utxos@.len() ==> lists(#[trigger] &utxos@[k], &funded(entries@.subrange(0, i as int))[k]),
        decreases entries@.len() - i,
    {
        let ghost before = entries@.subrange(0, i as int);
        assert(entries@.subrange(0, i + 1).drop_last() =~= before);
        assert(entries@.subrange(0, i + 1).last() == entries@[i as int]);
        let e = &entries[i];
        match e.amount {
            Some(a) => {
                balance = balance.saturating_add(a);
                if utxos.len() < MAX_LISTED_UTXOS {
                    utxos.push(listed(e, a));
                }
            },
            None => {},
        }
        i = i + 1;
        assert(forall|k: int| 0 <= k < funded(before).len() ==> funded(entries@.subrange(0, i as int))[k] == funded(before)[k]);
    }
    assert(entries@.subrange(0, i as int) =~= entries@);
    WalletSummary { balance, utxo_count: entries.len(), utxos }
}

/// What `str::to_lowercase` makes of a string.
pub uninterp spec fn lower_of(s: Seq<char>) -> Seq<char>;

/// Relies on `str::to_lowercase`: the result depends on the characters alone.
#[verifier::external_body]
fn lowercase(s: &str) -> (r: String)
    ensures
        r@ == lower_of(s@),
{
    s.to_lowercase()
}

/// Whether a configured network name, lowercased, is `expected`.
pub fn network_is(name: &str, expected: &str) -> (r: bool)
    ensures
        r == (lower_of(name@) == expected@),
{
    let lower = lowercase(name);
    let same = bytes_equal(lower.as_str().as_bytes(), expected.as_bytes());
    proof {
        encode_utf8_decode_utf8(lower@);
        encode_utf8_decode_utf8(expected@);
    }
    same
}

/// Whether two byte strings are equal.
fn bytes_equal(a: &[u8], b: &[u8]) -> (r: bool)
    ensures
        r == (a@ == b@),
{
    if a.len() != b.len() {
        return false;
    }
    let mut i: usize = 0;
    while i < a.len()
        invariant
            i <= a@.len(),
            a@.len() == b@.len(),
            a@.subrange(0, i as int) == b@.subrange(0, i as int),
        decreases a@.len() - i,
    {
        if a[i] != b[i] {
            assert(a@[i as int] != b@[i as int]);
            return false;
        }
        i = i + 1;
        assert(a@.subrange(0, i as int) =~= b@.subrange(0, i as int));
    }
    assert(a@ =~= a@.subrange(0, i as int));
    assert(b@ =~= b@.subrange(0, i as int));
    true
}

} // verus!
