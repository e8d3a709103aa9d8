//! Digests of bytes and documents.

use vstd::prelude::*;
use crate::json::{compact_bytes, to_bytes, Json, JsonView};

verus! {

/// The SHA-256 digest of bytes, as `sha2::Sha256` computes it.
pub uninterp spec fn sha256(bytes: Seq<u8>) -> Seq<u8>;

/// `sha2::Sha256::digest`. Claims that the digest is a function of the bytes and
/// is 32 bytes long.
#[verifier::external_body]
pub(crate) fn sha256_of(bytes: &[u8]) -> (r: Vec<u8>)
    ensures
        r@ == sha256(bytes@),
        r@.len() == 32,
{
    <sha2::Sha256 as sha2::Digest>::digest(bytes).to_vec()
}

/// A lower-case hexadecimal digit.
pub open spec fn hex_digit(n: u8) -> char {
    if n < 10 {
        (('0' as u8) + n) as u8 as char
    } else {
        (('a' as u8) + (n - 10)) as u8 as char
    }
}

/// Bytes in lower-case hexadecimal, the high half of each byte first.
pub open spec fn lower_hex(bytes: Seq<u8>) -> Seq<char>
    decreases bytes.len(),
{
    if bytes.len() == 0 {
        Seq::empty()
    } else {
        lower_hex(bytes.drop_last()).push(hex_digit(bytes.last() / 16)).push(
            hex_digit(bytes.last() % 16),
        )
    }
}

/// Each byte gives two digits.
pub proof fn lower_hex_len(bytes: Seq<u8>)
    ensures
        lower_hex(bytes).len() == 2 * bytes.len(),
    decreases bytes.len(),
{
    if bytes.len() > 0 {
        lower_hex_len(bytes.drop_last());
    }
}

fn hex_char(n: u8) -> (c: char)
    requires
        n < 16,
    ensures
        c == hex_digit(n),
{
    if n < 10 {
        (48u8 + n) as char
    } else {
        (97u8 + (n - 10)) as char
    }
}

pub fn to_lower_hex(bytes: &[u8]) -> (r: String)
    ensures
        r@ == lower_hex(bytes@),
{
    let mut out = String::new();
    let mut i: usize = 0;
    assert(bytes@.subrange(0, 0) =~= Seq::<u8>::empty());
    while i < bytes.len()
        invariant
            i <= bytes@.len(),
            out@ == lower_hex(bytes@.subrange(0, i as int)),
        decreases bytes.len() - i,
    {
        let b: u8 = bytes[i];
        out.push(hex_char(b / 16));
        out.push(hex_char(b % 16));
        i = i + 1;
        assert(bytes@.subrange(0, i as int).drop_last() =~= bytes@.subrange(0, i - 1));
    }
    assert(bytes@.subrange(0, i as int) =~= bytes@);
    out
}

/// The hexadecimal digest of bytes.
pub open spec fn hex_digest(bytes: Seq<u8>) -> Seq<char> {
    lower_hex(sha256(bytes))
}

pub fn sha256_hex(bytes: &[u8]) -> (r: String)
    ensures
        r@ == hex_digest(bytes@),
        r@.len() == 64,
{
    let d = sha256_of(bytes);
    proof {
        lower_hex_len(d@);
    }
    to_lower_hex(d.as_slice())
}

/// The hexadecimal digest of a document's compact bytes.
pub open spec fn json_digest(j: JsonView) -> Seq<char> {
    hex_digest(compact_bytes(j))
}

pub fn sha256_json(value: &Json) -> (r: String)
    ensures
        r@ == json_digest(value@),
{
    let bytes = to_bytes(value);
    sha256_hex(bytes.as_slice())
}

} // verus!
