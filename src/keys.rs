//! Private-key parsing and validation.
//!
//! A key arrives as text: optional surrounding whitespace, an optional `0x`
//! prefix, then 64 hexadecimal digits. It is accepted only when those digits
//! encode a secret scalar of secp256k1, that is a 32-byte big-endian number
//! that is neither zero nor at or above the group order.

use vstd::prelude::*;
use vstd::utf8::encode_utf8;

verus! {

/// Why a private key was refused.
#[derive(Clone, Copy, Debug, PartialEq, Eq, Structural)]
pub enum KeyError {
    /// No key was supplied.
    Missing,
    /// The key text, once trimmed and stripped of one optional `0x`, is not
    /// 64 bytes long.
    MalformedKey { len: usize },
    /// The key text holds a byte that is not a hexadecimal digit.
    InvalidHexEncoding,
    /// The 32 bytes are zero or not below the curve's group order.
    InvalidScalar,
}

/// A validated 32-byte secp256k1 secret scalar.
pub struct PrivateKey {
    bytes: [u8; 32],
}

impl View for PrivateKey {
    type V = Seq<u8>;

    closed spec fn view(&self) -> Seq<u8> {
        self.bytes@
    }
}

impl PrivateKey {
    /// The key is 32 bytes that form a valid scalar.
    pub open spec fn wf(&self) -> bool {
        is_valid_scalar(self@)
    }

    /// The secret bytes, big-endian.
    pub fn as_bytes(&self) -> (r: &[u8])
        ensures
            r@ == self@,
    {
        self.bytes.as_slice()
    }

    /// The secret bytes as an array.
    pub fn as_array(&self) -> (r: &[u8; 32])
        ensures
            r@ == self@,
    {
        &self.bytes
    }
}

pub open spec fn is_hex_digit(b: u8) -> bool {
    (0x30 <= b <= 0x39) || (0x41 <= b <= 0x46) || (0x61 <= b <= 0x66)
}

/// The value of a hexadecimal digit, either case.
pub open spec fn hex_value(b: u8) -> int {
    if b <= 0x39 {
        b - 0x30
    } else if b <= 0x46 {
        b - 0x41 + 10
    } else {
        b - 0x61 + 10
    }
}

pub open spec fn all_hex(s: Seq<u8>) -> bool {
    forall|i: int| 0 <= i < s.len() ==> is_hex_digit(#[trigger] s[i])
}

/// The bytes that a string of hexadecimal digit pairs encodes, high digit first.
pub open spec fn hex_decoded(s: Seq<u8>) -> Seq<u8> {
    Seq::new(s.len() / 2, |i: int| (hex_value(s[2 * i]) * 16 + hex_value(s[2 * i + 1])) as u8)
}

/// `s` without its leading `0x`, if it has one.
pub open spec fn strip_hex_prefix(s: Seq<u8>) -> Seq<u8> {
    if s.len() >= 2 && s[0] == 0x30 && s[1] == 0x78 {
        s.subrange(2, s.len() as int)
    } else {
        s
    }
}

/// The order of the secp256k1 group, as 32 big-endian bytes.
pub open spec fn group_order() -> Seq<u8> {
    seq![
        0xFFu8, 0xFF, 0xFF, 0xFF, 0xFF, 0xFF, 0xFF, 0xFF, 0xFF, 0xFF, 0xFF, 0xFF, 0xFF, 0xFF, 0xFF, 0xFE,
        0xBA, 0xAE, 0xDC, 0xE6, 0xAF, 0x48, 0xA0, 0x3B, 0xBF, 0xD2, 0x5E, 0x8C, 0xD0, 0x36, 0x41, 0x41,
    ]
}

/// For two byte strings of one length, `a` is below `b` as a big-endian number.
pub open spec fn be_less(a: Seq<u8>, b: Seq<u8>) -> bool {
    exists|i: int| 0 <= i < a.len() && a.subrange(0, i) == b.subrange(0, i) && #[trigger] a[i] < b[i]
}

/// 32 bytes, not all zero, below the group order.
pub open spec fn is_valid_scalar(k: Seq<u8>) -> bool {
    &&& k.len() == 32
    &&& exists|i: int| 0 <= i < 32 && #[trigger] k[i] != 0
    &&& be_less(k, group_order())
}

/// What is left of the key text to decode: trimmed, then stripped of one
/// optional `0x`.
pub open spec fn key_digits(raw: Seq<char>) -> Seq<u8> {
    strip_hex_prefix(encode_utf8(trimmed(raw)))
}

/// The outcome of parsing key text: the secret bytes, or why they were refused.
pub open spec fn spec_parse_key(raw: Seq<char>) -> Result<Seq<u8>, KeyError> {
    let d = key_digits(raw);
    if d.len() != 64 {
        Err(KeyError::MalformedKey { len: d.len() as usize })
    } else if !all_hex(d) {
        Err(KeyError::InvalidHexEncoding)
    } else if !is_valid_scalar(hex_decoded(d)) {
        Err(KeyError::InvalidScalar)
    } else {
        Ok(hex_decoded(d))
    }
}

pub open spec fn key_result_view(r: Result<PrivateKey, KeyError>) -> Result<Seq<u8>, KeyError> {
    match r {
        Ok(k) => Ok(k@),
        Err(e) => Err(e),
    }
}

/// Whether `c` has the Unicode `White_Space` property, as `char::is_whitespace`
/// documents it.
pub open spec fn is_whitespace(c: char) -> bool {
    let u = c as u32;
    (0x09 <= u <= 0x0d) || u == 0x20 || u == 0x85 || u == 0xa0 || u == 0x1680 || (0x2000 <= u <= 0x200a)
        || u == 0x2028 || u == 0x2029 || u == 0x202f || u == 0x205f || u == 0x3000
}

/// `s` without its leading whitespace.
pub open spec fn trim_start_ws(s: Seq<char>) -> Seq<char>
    decreases s.len(),
{
    if s.len() > 0 && is_whitespace(s[0]) {
        trim_start_ws(s.drop_first())
    } else {
        s
    }
}

/// `s` without its trailing whitespace.
pub open spec fn trim_end_ws(s: Seq<char>) -> Seq<char>
    decreases s.len(),
{
    if s.len() > 0 && is_whitespace(s.last()) {
        trim_end_ws(s.drop_last())
    } else {
        s
    }
}

/// `s` without leading and trailing whitespace.
pub open spec fn trimmed(s: Seq<char>) -> Seq<char> {
    trim_end_ws(trim_start_ws(s))
}

/// Relies on `str::trim`: leading and trailing characters with the
/// `White_Space` property removed.
#[verifier::external_body]
fn trim_text(s: &str) -> (r: &str)
    ensures
        r@ == trimmed(s@),
{
    s.trim()
}

/// Relies on `faster_hex::hex_decode`: with an output of half the input's
/// length, it fails exactly when a byte is not a hexadecimal digit (either
/// case), and otherwise decodes each pair, high digit first.
#[verifier::external_body]
pub(crate) fn decode_hex(src: &[u8], out_len: usize) -> (r: Option<Vec<u8>>)
    requires
        src@.len() == 2 * out_len,
    ensures
        r.is_some() == all_hex(src@),
        r.is_some() ==> r.unwrap()@ == hex_decoded(src@),
{
    let mut dst = vec![0u8; out_len];
    match faster_hex::hex_decode(src, &mut dst) {
        Ok(()) => Some(dst),
        Err(_) => None,
    }
}

/// The index where the key digits start: 2 after a leading `0x`, else 0.
fn hex_prefix_end(b: &[u8]) -> (start: usize)
    ensures
        start <= b@.len(),
        b@.subrange(start as int, b@.len() as int) == strip_hex_prefix(b@),
{
    if b.len() >= 2 && b[0] == 0x30 && b[1] == 0x78 {
        2
    } else {
        assert(b@.subrange(0, b@.len() as int) =~= b@);
        0
    }
}

/// The 32 bytes of a vector as an array.
pub(crate) fn to_array32(v: &Vec<u8>) -> (r: [u8; 32])
    requires
        v@.len() == 32,
    ensures
        r@ == v@,
{
    let mut out = [0u8; 32];
    let mut k: usize = 0;
    while k < 32
        invariant
            k <= 32,
            v@.len() == 32,
            forall|m: int| 0 <= m < k ==> out@[m] == v@[m],
        decreases 32 - k,
    {
        out[k] = v[k];
        k = k + 1;
    }
    assert(out@ =~= v@);
    out
}

/// Copies `b[start..]` into a vector.
pub(crate) fn copy_tail(b: &[u8], start: usize) -> (r: Vec<u8>)
    requires
        start <= b@.len(),
    ensures
        r@ == b@.subrange(start as int, b@.len() as int),
{
    let mut r: Vec<u8> = Vec::new();
    let mut i: usize = start;
    while i < b.len()
        invariant
            start <= i <= b@.len(),
            r@ == b@.subrange(start as int, i as int),
        decreases b@.len() - i,
    {
        r.push(b[i]);
        i = i + 1;
    }
    r
}

/// Whether 32 bytes form a valid secp256k1 secret scalar.
pub fn is_valid_secret(k: &[u8]) -> (r: bool)
    requires
        k@.len() == 32,
    ensures
        r == is_valid_scalar(k@),
{
    let order: [u8; 32] = [
        0xFF, 0xFF, 0xFF, 0xFF, 0xFF, 0xFF, 0xFF, 0xFF, 0xFF, 0xFF, 0xFF, 0xFF, 0xFF, 0xFF, 0xFF, 0xFE,
        0xBA, 0xAE, 0xDC, 0xE6, 0xAF, 0x48, 0xA0, 0x3B, 0xBF, 0xD2, 0x5E, 0x8C, 0xD0, 0x36, 0x41, 0x41,
    ];
    assert(order@ =~= group_order());
    let mut nonzero = false;
    let mut j: usize = 0;
    while j < 32
        invariant
            j <= 32,
            k@.len() == 32,
            nonzero == exists|m: int| 0 <= m < j && #[trigger] k@[m] != 0,
        decreases 32 - j,
    {
        if k[j] != 0 {
            nonzero = true;
        }
        j = j + 1;
    }
    let mut i: usize = 0;
    while i < 32 && k[i] == order[i]
        invariant
            i <= 32,
            k@.len() == 32,
            order@ == group_order(),
            k@.subrange(0, i as int) =~= order@.subrange(0, i as int),
        decreases 32 - i,
    {
        i = i + 1;
        assert(k@.subrange(0, i as int) =~= order@.subrange(0, i as int));
    }
    let below = i < 32 && k[i] < order[i];
    if below {
        assert(be_less(k@, group_order()));
    } else {
        assert forall|m: int| 0 <= m < 32 && k@.subrange(0, m) == group_order().subrange(0, m)
            implies !(k@[m] < group_order()[m]) by {
            if m > i {
                assert(k@.subrange(0, m)[i as int] == k@[i as int]);
                assert(group_order().subrange(0, m)[i as int] == group_order()[i as int]);
            } else if m < i {
                assert(k@.subrange(0, i as int)[m] == k@[m]);
                assert(order@.subrange(0, i as int)[m] == order@[m]);
            }
        }
    }
    nonzero && below
}

/// Parses and validates private-key text.
pub fn derive_private_key(raw: &str) -> (r: Result<PrivateKey, KeyError>)
    ensures
        key_result_view(r) == spec_parse_key(raw@),
        r.is_ok() ==> r.unwrap().wf(),
{
    let t = trim_text(raw);
    let b = t.as_bytes();
    let start = hex_prefix_end(b);
    let n = b.len() - start;
    if n != 64 {
        return Err(KeyError::MalformedKey { len: n });
    }
    let digits = copy_tail(b, start);
    match decode_hex(digits.as_slice(), 32) {
        None => Err(KeyError::InvalidHexEncoding),
        Some(bytes) => {
            if is_valid_secret(bytes.as_slice()) {
                Ok(PrivateKey { bytes: to_array32(&bytes) })
            } else {
                Err(KeyError::InvalidScalar)
            }
        },
    }
}

/// Parses the key from an optional source; an absent source is [`KeyError::Missing`].
pub fn private_key_from_source(source: Option<&str>) -> (r: Result<PrivateKey, KeyError>)
    ensures
        source.is_none() ==> r == Err::<PrivateKey, KeyError>(KeyError::Missing),
        source.is_some() ==> key_result_view(r) == spec_parse_key(source.unwrap()@),
        r.is_ok() ==> r.unwrap().wf(),
{
    match source {
        None => Err(KeyError::Missing),
        Some(raw) => derive_private_key(raw),
    }
}

/// Text that does not hold exactly 64 hex digits after trimming and
/// stripping one optional `0x` is refused as malformed or badly encoded, never as an invalid scalar.
pub proof fn lemma_short_key_never_invalid_scalar(raw: Seq<char>)
    requires
        key_digits(raw).len() != 64 || !all_hex(key_digits(raw)),
    ensures
        spec_parse_key(raw) is Err,
        spec_parse_key(raw) != Err::<Seq<u8>, KeyError>(KeyError::InvalidScalar),
{
}

} // verus!
