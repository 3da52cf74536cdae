//! Locking and unlocking scripts.
//!
//! A locking script is the chain's standard script for the destination
//! address; an unlocking script pushes a signature followed by its
//! sighash-type byte. Pushes use the script language's canonical data-push
//! encoding.

use vstd::prelude::*;
use vstd::utf8::encode_utf8;
use crate::address::{
    Network, address_shape_ok, check_address_shape, decoded_address, network_code, network_code_of,
};
use crate::keys::copy_tail;

verus! {

/// The largest data element a script may push.
pub const MAX_PUSH_LEN: usize = 520;

/// A script with the version of the script language it is written in.
#[derive(Debug)]
pub struct LockingScript {
    pub version: u16,
    pub script: Vec<u8>,
}

/// Why a locking script could not be made.
#[derive(Clone, Copy, Debug, PartialEq, Eq, Structural)]
pub enum ScriptError {
    /// The address does not decode, or belongs to another network.
    InvalidAddress,
}

/// The canonical push of `d`, for at most [`MAX_PUSH_LEN`] bytes: empty data
/// and a single small number use a one-byte opcode; otherwise the length
/// goes in the opcode itself up to 75 bytes, then after `OP_PUSHDATA1` up to
/// 255, then after `OP_PUSHDATA2` in two little-endian bytes.
pub open spec fn push_data(d: Seq<u8>) -> Seq<u8> {
    if d.len() == 0 || (d.len() == 1 && d[0] == 0) {
        seq![0x00u8]
    } else if d.len() == 1 && d[0] <= 16 {
        seq![(0x50 + d[0]) as u8]
    } else if d.len() == 1 && d[0] == 0x81 {
        seq![0x4fu8]
    } else if d.len() <= 75 {
        seq![d.len() as u8] + d
    } else if d.len() <= 255 {
        seq![0x4cu8, d.len() as u8] + d
    } else {
        seq![0x4du8, (d.len() % 256) as u8, (d.len() / 256) as u8] + d
    }
}

/// Relies on `ScriptBuilder::add_data` of kaspa-txscript on a fresh builder,
/// then `drain`: the canonical push of the data, refused above 520 bytes.
#[verifier::external_body]
fn push_script(data: &[u8]) -> (r: Option<Vec<u8>>)
    ensures
        r.is_some() == (data@.len() <= MAX_PUSH_LEN),
        r.is_some() ==> r.unwrap()@ == push_data(data@),
{
    let mut sb = kaspa_txscript::script_builder::ScriptBuilder::new();
    let added = sb.add_data(data).map(|_| ());
    match added {
        Ok(()) => Some(sb.drain()),
        Err(_) => None,
    }
}

/// The standard locking script for an address of version byte `version`
/// and payload `payload`: `OP_DATA_32 <key> OP_CHECKSIG` for a Schnorr key,
/// `OP_DATA_33 <key> OP_CHECKSIGECDSA` for an ECDSA key, and
/// `OP_BLAKE2B OP_DATA_32 <hash> OP_EQUAL` for a script hash.
pub open spec fn standard_script(version: u8, payload: Seq<u8>) -> Seq<u8> {
    if version == 1 {
        seq![0x21u8] + payload + seq![0xabu8]
    } else if version == 8 {
        seq![0xaau8, 0x20u8] + payload + seq![0x87u8]
    } else {
        seq![0x20u8] + payload + seq![0xacu8]
    }
}

/// Relies on `Address::try_from(&str)` of kaspa-addresses and
/// `pay_to_address_script` of kaspa-txscript: the address's network code and
/// its standard locking script, at script version 0, or nothing if the text
/// does not decode. On text of the admitted shape neither panics: a decoded
/// payload always has its version's length.
#[verifier::external_body]
fn address_script(s: &str) -> (r: Option<(u8, u16, Vec<u8>)>)
    requires
        address_shape_ok(encode_utf8(s@)),
    ensures
        r.is_some() == decoded_address(s@).is_some(),
        r.is_some() ==> ({
            let (n, v, payload) = decoded_address(s@).unwrap();
            r.unwrap().0 == n && r.unwrap().1 == 0 && r.unwrap().2@ == standard_script(v, payload)
        }),
{
    match kaspa_addresses::Address::try_from(s) {
        Ok(a) => {
            let p: u8 = match a.prefix {
                kaspa_addresses::Prefix::Mainnet => 0,
                kaspa_addresses::Prefix::Testnet => 1,
                kaspa_addresses::Prefix::Simnet => 2,
                kaspa_addresses::Prefix::Devnet => 3,
            };
            let spk = kaspa_txscript::pay_to_address_script(&a);
            Some((p, spk.version(), spk.script().to_vec()))
        },
        Err(_) => None,
    }
}

/// The locking script for address text on a network, if the address is
/// accepted: the standard script of its version and payload, at script
/// version 0.
pub open spec fn spec_locking_script(text: Seq<char>, network: Network) -> Option<Seq<u8>> {
    if !address_shape_ok(encode_utf8(text)) {
        None
    } else {
        match decoded_address(text) {
            None => None,
            Some((n, v, payload)) => {
                if n != network_code(network) {
                    None
                } else {
                    Some(standard_script(v, payload))
                }
            },
        }
    }
}

/// Builds the locking script that pays to `addr` on `network`.
pub fn locking_script_for_address(addr: &str, network: Network) -> (r: Result<LockingScript, ScriptError>)
    ensures
        r.is_ok() == spec_locking_script(addr@, network).is_some(),
        r.is_ok() ==> r.unwrap().version == 0 && r.unwrap().script@ == spec_locking_script(addr@, network).unwrap(),
        r.is_err() ==> r == Err::<LockingScript, ScriptError>(ScriptError::InvalidAddress),
{
    if !check_address_shape(addr.as_bytes()) {
        return Err(ScriptError::InvalidAddress);
    }
    match address_script(addr) {
        None => Err(ScriptError::InvalidAddress),
        Some((n, version, script)) => {
            if n != network_code_of(network) {
                return Err(ScriptError::InvalidAddress);
            }
            Ok(LockingScript { version, script })
        },
    }
}

/// The unlocking script for a signature: signature and sighash-type byte,
/// pushed as one element.
pub fn unlocking_script_for_signature(sig: &[u8], sighash_type: u8) -> (r: Vec<u8>)
    requires
        sig@.len() < MAX_PUSH_LEN,
    ensures
        r@ == push_data(sig@.push(sighash_type)),
{
    let mut tagged = copy_tail(sig, 0);
    assert(sig@.subrange(0, sig@.len() as int) =~= sig@);
    tagged.push(sighash_type);
    match push_script(tagged.as_slice()) {
        Some(r) => r,
        None => {
            assert(false);
            Vec::new()
        },
    }
}

impl LockingScript {
    /// A copy with the same version and bytes.
    pub fn duplicate(&self) -> (r: Self)
        ensures
            r.version == self.version,
            r.script@ == self.script@,
    {
        let script = copy_tail(self.script.as_slice(), 0);
        assert(self.script@.subrange(0, self.script@.len() as int) =~= self.script@);
        LockingScript { version: self.version, script }
    }
}

} // verus!
