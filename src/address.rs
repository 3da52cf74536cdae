//! Kaspa addresses: encoding a public key as address text, and decoding
//! address text back to its network, version and payload.

use vstd::prelude::*;
use vstd::utf8::encode_utf8;
use crate::keys::{PrivateKey, is_valid_scalar};

verus! {

/// The network an address belongs to, named by its text prefix.
#[derive(Clone, Copy, Debug, PartialEq, Eq, Structural)]
pub enum Network {
    Mainnet,
    Testnet,
    Simnet,
    Devnet,
}

/// What an address payload is.
#[derive(Clone, Copy, Debug, PartialEq, Eq, Structural)]
pub enum AddressVersion {
    /// A 32-byte x-only Schnorr public key.
    PubKey,
    /// A 33-byte compressed ECDSA public key.
    PubKeyEcdsa,
    /// A 32-byte script hash.
    ScriptHash,
}

pub open spec fn network_code(n: Network) -> u8 {
    match n {
        Network::Mainnet => 0,
        Network::Testnet => 1,
        Network::Simnet => 2,
        Network::Devnet => 3,
    }
}

/// The version byte that an address carries.
pub open spec fn version_byte(v: AddressVersion) -> u8 {
    match v {
        AddressVersion::PubKey => 0,
        AddressVersion::PubKeyEcdsa => 1,
        AddressVersion::ScriptHash => 8,
    }
}

/// The payload length that a version requires.
pub open spec fn payload_len(v: AddressVersion) -> nat {
    match v {
        AddressVersion::PubKey => 32,
        AddressVersion::PubKeyEcdsa => 33,
        AddressVersion::ScriptHash => 32,
    }
}

pub fn network_code_of(n: Network) -> (r: u8)
    ensures
        r == network_code(n),
{
    match n {
        Network::Mainnet => 0,
        Network::Testnet => 1,
        Network::Simnet => 2,
        Network::Devnet => 3,
    }
}

/// The text prefix of a network's addresses.
pub open spec fn network_prefix(n: Network) -> Seq<char> {
    match n {
        Network::Mainnet => seq!['k', 'a', 's', 'p', 'a'],
        Network::Testnet => seq!['k', 'a', 's', 'p', 'a', 't', 'e', 's', 't'],
        Network::Simnet => seq!['k', 'a', 's', 'p', 'a', 's', 'i', 'm'],
        Network::Devnet => seq!['k', 'a', 's', 'p', 'a', 'd', 'e', 'v'],
    }
}

/// Address text starts with the network's prefix and a colon.
pub open spec fn has_network_prefix(text: Seq<char>, n: Network) -> bool {
    let p = network_prefix(n);
    text.len() > p.len() && text.subrange(0, p.len() as int) == p && text[p.len() as int] == ':'
}

/// The value of a character of the address alphabet.
pub open spec fn charset_value(c: u8) -> Option<u8> {
    match c {
        0x71 => Some(0u8),
        0x70 => Some(1u8),
        0x7a => Some(2u8),
        0x72 => Some(3u8),
        0x79 => Some(4u8),
        0x39 => Some(5u8),
        0x78 => Some(6u8),
        0x38 => Some(7u8),
        0x67 => Some(8u8),
        0x66 => Some(9u8),
        0x32 => Some(10u8),
        0x74 => Some(11u8),
        0x76 => Some(12u8),
        0x64 => Some(13u8),
        0x77 => Some(14u8),
        0x30 => Some(15u8),
        0x73 => Some(16u8),
        0x33 => Some(17u8),
        0x6a => Some(18u8),
        0x6e => Some(19u8),
        0x35 => Some(20u8),
        0x34 => Some(21u8),
        0x6b => Some(22u8),
        0x68 => Some(23u8),
        0x63 => Some(24u8),
        0x65 => Some(25u8),
        0x36 => Some(26u8),
        0x6d => Some(27u8),
        0x75 => Some(28u8),
        0x61 => Some(29u8),
        0x37 => Some(30u8),
        0x6c => Some(31u8),
        _ => None,
    }
}

pub fn charset_value_of(c: u8) -> (r: Option<u8>)
    ensures
        r == charset_value(c),
{
    match c {
        0x71 => Some(0),
        0x70 => Some(1),
        0x7a => Some(2),
        0x72 => Some(3),
        0x79 => Some(4),
        0x39 => Some(5),
        0x78 => Some(6),
        0x38 => Some(7),
        0x67 => Some(8),
        0x66 => Some(9),
        0x32 => Some(10),
        0x74 => Some(11),
        0x76 => Some(12),
        0x64 => Some(13),
        0x77 => Some(14),
        0x30 => Some(15),
        0x73 => Some(16),
        0x33 => Some(17),
        0x6a => Some(18),
        0x6e => Some(19),
        0x35 => Some(20),
        0x34 => Some(21),
        0x6b => Some(22),
        0x68 => Some(23),
        0x63 => Some(24),
        0x65 => Some(25),
        0x36 => Some(26),
        0x6d => Some(27),
        0x75 => Some(28),
        0x61 => Some(29),
        0x37 => Some(30),
        0x6c => Some(31),
        _ => None,
    }
}

/// `p` is the position of the first `:` in `s`.
pub open spec fn is_first_colon(s: Seq<u8>, p: int) -> bool {
    0 <= p < s.len() && s[p] == 0x3a && forall|j: int| 0 <= j < p ==> #[trigger] s[j] != 0x3a
}

/// A payload of `chars` characters (checksum excluded) fits version byte `v`.
pub open spec fn payload_fits_version(v: int, chars: int) -> bool {
    &&& (v == 0 || v == 8) ==> (chars == 53 || chars == 54)
    &&& v == 1 ==> chars == 55
}

/// The part after the prefix is long enough to hold a version byte, and when
/// its first two characters spell a version, its length fits that version.
pub open spec fn body_shape_ok(body: Seq<u8>) -> bool {
    &&& body.len() >= 10
    &&& match (charset_value(body[0]), charset_value(body[1])) {
        (Some(a), Some(b)) => payload_fits_version(a * 8 + b / 4, body.len() - 8),
        _ => true,
    }
}

/// Address text (as bytes) on which decoding returns rather than panics: the
/// decoder insists that a checksum-valid payload has its version's length.
pub open spec fn address_shape_ok(s: Seq<u8>) -> bool {
    forall|p: int| is_first_colon(s, p) ==> body_shape_ok(#[trigger] s.subrange(p + 1, s.len() as int))
}

/// What decoding address text gives: network code, version byte and payload.
pub uninterp spec fn decoded_address(s: Seq<char>) -> Option<(u8, u8, Seq<u8>)>;

/// The address text for a network code, version byte and payload.
pub uninterp spec fn address_text(network: u8, version: u8, payload: Seq<u8>) -> Seq<char>;

/// Relies on `Address::new` and the address's string form in kaspa-addresses:
/// `prefix:payload-with-checksum` (the prefix `kaspa`, `kaspatest`,
/// `kaspasim` or `kaspadev`), which decodes back to the same network,
/// version and payload. The payload must have the version's length, else
/// `Address::new` panics.
#[verifier::external_body]
fn encode_address(network: Network, version: AddressVersion, payload: &[u8]) -> (r: String)
    requires
        payload@.len() == payload_len(version),
    ensures
        r@ == address_text(network_code(network), version_byte(version), payload@),
        decoded_address(r@) == Some((network_code(network), version_byte(version), payload@)),
        address_shape_ok(encode_utf8(r@)),
        has_network_prefix(r@, network),
{
    let prefix = match network {
        Network::Mainnet => kaspa_addresses::Prefix::Mainnet,
        Network::Testnet => kaspa_addresses::Prefix::Testnet,
        Network::Simnet => kaspa_addresses::Prefix::Simnet,
        Network::Devnet => kaspa_addresses::Prefix::Devnet,
    };
    let v = match version {
        AddressVersion::PubKey => kaspa_addresses::Version::PubKey,
        AddressVersion::PubKeyEcdsa => kaspa_addresses::Version::PubKeyECDSA,
        AddressVersion::ScriptHash => kaspa_addresses::Version::ScriptHash,
    };
    String::from(&kaspa_addresses::Address::new(prefix, v, payload))
}

/// Whether address text has a shape that the decoder handles without panic.
pub fn check_address_shape(s: &[u8]) -> (r: bool)
    ensures
        r == address_shape_ok(s@),
{
    let mut p: usize = 0;
    while p < s.len() && s[p] != 0x3a
        invariant
            p <= s@.len(),
            forall|j: int| 0 <= j < p ==> #[trigger] s@[j] != 0x3a,
        decreases s@.len() - p,
    {
        p = p + 1;
    }
    if p == s.len() {
        assert forall|q: int| is_first_colon(s@, q) implies body_shape_ok(#[trigger] s@.subrange(q + 1, s@.len() as int)) by {
            assert(s@[q] != 0x3a);
        }
        return true;
    }
    assert forall|q: int| is_first_colon(s@, q) implies q == p as int by {
        if q < p {
            assert(s@[q] != 0x3a);
        } else if q > p {
            assert(s@[p as int] != 0x3a);
        }
    }
    let body_len = s.len() - p - 1;
    let ghost body = s@.subrange(p + 1, s@.len() as int);
    assert(is_first_colon(s@, p as int));
    if body_len < 10 {
        return false;
    }
    let a = charset_value_of(s[p + 1]);
    let b = charset_value_of(s[p + 2]);
    assert(body[0] == s@[p + 1]);
    assert(body[1] == s@[p + 2]);
    match (a, b) {
        (Some(a), Some(b)) => {
            let v: u32 = a as u32 * 8 + b as u32 / 4;
            let chars = body_len - 8;
            let ok = (!(v == 0 || v == 8) || chars == 53 || chars == 54) && (v != 1 || chars == 55);
            ok
        },
        _ => true,
    }
}

/// The address of a public key (or script hash) on a network, if the key
/// has the length its version requires.
pub fn address_for_public_key(public_key: &[u8], network: Network, version: AddressVersion) -> (r: Option<String>)
    ensures
        r.is_some() == (public_key@.len() == payload_len(version)),
        r.is_some() ==> r.unwrap()@ == address_text(network_code(network), version_byte(version), public_key@),
        r.is_some() ==> decoded_address(r.unwrap()@) == Some((network_code(network), version_byte(version), public_key@)),
        r.is_some() ==> has_network_prefix(r.unwrap()@, network),
{
    let expected: usize = match version {
        AddressVersion::PubKeyEcdsa => 33,
        _ => 32,
    };
    if public_key.len() != expected {
        return None;
    }
    Some(encode_address(network, version, public_key))
}

/// Relies on secp256k1's `Keypair::from_seckey_slice` and
/// `x_only_public_key`: the 32-byte x-only public key of a valid secret
/// scalar, a function of the secret alone. It panics on any other secret.
#[verifier::external_body]
fn xonly_public_key_of(secret: &[u8]) -> (r: Vec<u8>)
    requires
        is_valid_scalar(secret@),
    ensures
        r@ == xonly_public_key(secret@),
        r@.len() == 32,
{
    let kp = secp256k1::Keypair::from_seckey_slice(secp256k1::SECP256K1, secret).unwrap();
    kp.x_only_public_key().0.serialize().to_vec()
}

/// The x-only Schnorr public key of a secret scalar.
pub uninterp spec fn xonly_public_key(secret: Seq<u8>) -> Seq<u8>;

/// The public key of a private key.
pub fn public_key(key: &PrivateKey) -> (r: Vec<u8>)
    requires
        key.wf(),
    ensures
        r@ == xonly_public_key(key@),
        r@.len() == 32,
{
    xonly_public_key_of(key.as_bytes())
}

/// The pay-to-public-key address of a private key on a network. It is a
/// function of the key and network alone, and decodes back to that network,
/// the public-key version and the public key itself.
pub fn address_for_key(key: &PrivateKey, network: Network) -> (r: String)
    requires
        key.wf(),
    ensures
        r@ == address_text(network_code(network), 0, xonly_public_key(key@)),
        decoded_address(r@) == Some((network_code(network), 0u8, xonly_public_key(key@))),
        address_shape_ok(encode_utf8(r@)),
        xonly_public_key(key@).len() == 32,
        has_network_prefix(r@, network),
{
    let pk = public_key(key);
    encode_address(network, AddressVersion::PubKey, pk.as_slice())
}

} // verus!
