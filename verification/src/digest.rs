//! SHA-1 digests and their writing in lowercase hexadecimal.

use sha1::{Digest, Sha1};
use vstd::prelude::*;

verus! {

/// The SHA-1 digest of `data`, as the `sha1` crate computes it.
pub uninterp spec fn sha1_of(data: Seq<u8>) -> Seq<u8>;

/// The number of bytes below which the digest of an input can be taken.
pub const MAX_INPUT_BYTES: u64 = 0x2000_0000_0000_0000;

/// The number of bytes of a digest.
pub const DIGEST_BYTES: usize = 20;

/// Calls `Digest::digest` of the `sha1` crate's `Sha1` hasher, which feeds
/// `data` to a fresh hasher and takes the digest. The contract claims that
/// the result is a function of the input alone, named `sha1_of`, and that
/// it is 20 bytes long, which is the output size that the crate declares
/// for the hasher. Inputs of `MAX_INPUT_BYTES` or more are left out: the
/// hasher counts the bits of its input in 64 bits.
#[verifier::external_body]
fn sha1(data: &[u8]) -> (digest: Vec<u8>)
    requires
        data@.len() < MAX_INPUT_BYTES,
    ensures
        digest@ == sha1_of(data@),
        digest@.len() == DIGEST_BYTES,
{
    Sha1::digest(data).to_vec()
}

/// The lowercase hexadecimal digit that writes `v`, for `v` below sixteen.
pub open spec fn hex_digit(v: int) -> char {
    if v < 10 {
        (v + 0x30) as char
    } else {
        (v - 10 + 0x61) as char
    }
}

/// Whether `c` is a lowercase hexadecimal digit.
pub open spec fn is_hex_digit(c: char) -> bool {
    '0' <= c <= '9' || 'a' <= c <= 'f'
}

/// `bytes` in lowercase hexadecimal, two digits to the byte, the high half
/// first.
pub open spec fn hex_lower(bytes: Seq<u8>) -> Seq<char> {
    Seq::new(
        2 * bytes.len(),
        |i: int|
            if i % 2 == 0 {
                hex_digit(bytes[i / 2] as int / 16)
            } else {
                hex_digit(bytes[i / 2] as int % 16)
            },
    )
}

/// A hexadecimal writing has two digits to the byte, all of them lowercase
/// hexadecimal digits.
pub proof fn lemma_hex_lower_digits(bytes: Seq<u8>)
    ensures
        hex_lower(bytes).len() == 2 * bytes.len(),
        forall|i: int| 0 <= i < hex_lower(bytes).len() ==> is_hex_digit(#[trigger] hex_lower(bytes)[i]),
{
    assert forall|i: int| 0 <= i < hex_lower(bytes).len() implies is_hex_digit(
        #[trigger] hex_lower(bytes)[i],
    ) by {
        let b = bytes[i / 2] as int;
        assert(0 <= b / 16 < 16 && 0 <= b % 16 < 16);
    }
}

fn hex_char(v: u8) -> (c: char)
    requires
        v < 16,
    ensures
        c == hex_digit(v as int),
{
    if v < 10 {
        (v + 0x30) as char
    } else {
        (v - 10 + 0x61) as char
    }
}

/// Writes `bytes` in lowercase hexadecimal.
pub fn to_hex(bytes: &[u8]) -> (out: String)
    ensures
        out@ == hex_lower(bytes@),
{
    let mut out = String::new();
    let mut i: usize = 0;
    while i < bytes.len()
        invariant
            i <= bytes.len(),
            out@ == hex_lower(bytes@).take(2 * i),
        decreases bytes.len() - i,
    {
        let b = bytes[i];
        let ghost all = hex_lower(bytes@);
        out.push(hex_char(b / 16));
        out.push(hex_char(b % 16));
        assert(all[2 * i] == hex_digit(b as int / 16));
        assert(all[2 * i + 1] == hex_digit(b as int % 16));
        assert(all.take(2 * (i + 1)) =~= all.take(2 * i).push(all[2 * i]).push(all[2 * i + 1]));
        i += 1;
    }
    assert(hex_lower(bytes@).take(2 * bytes.len()) =~= hex_lower(bytes@));
    out
}

/// The SHA-1 digest of the UTF-8 bytes of `text`, in lowercase hexadecimal.
pub open spec fn sha1_hex(text: Seq<char>) -> Seq<char> {
    hex_lower(sha1_of(vstd::utf8::encode_utf8(text)))
}

/// The digest of `text` in lowercase hexadecimal, or `None` where the text
/// is too long for its digest to be taken.
pub fn sha1_hex_of(text: &str) -> (r: Option<String>)
    ensures
        match r {
            Some(hex) => hex@ == sha1_hex(text@) && hex@.len() == 2 * DIGEST_BYTES
                && vstd::utf8::encode_utf8(text@).len() < MAX_INPUT_BYTES,
            None => vstd::utf8::encode_utf8(text@).len() >= MAX_INPUT_BYTES,
        },
{
    let bytes = text.as_bytes();
    if bytes.len() as u64 >= MAX_INPUT_BYTES {
        return None;
    }
    let digest = sha1(bytes);
    let hex = to_hex(digest.as_slice());
    Some(hex)
}

} // verus!
