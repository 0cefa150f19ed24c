//! Content digests, from which stable identifiers are made.

use vstd::prelude::*;
use crate::text::{digit, digit_char};

verus! {

/// The MD5 digest of `data`, as `md5::compute` returns it.
pub uninterp spec fn md5_digest(data: Seq<u8>) -> Seq<u8>;

/// Calls `md5::compute`, which returns the sixteen bytes of the MD5 digest of
/// its input. The contract gives the digest its name and states its length.
#[verifier::external_body]
pub(crate) fn md5_bytes(data: &[u8]) -> (r: Vec<u8>)
    ensures
        r@ == md5_digest(data@),
        r@.len() == 16,
{
    md5::compute(data).0.to_vec()
}

/// The bytes `data` in lower-case hexadecimal, two characters each.
pub open spec fn hex_lower(data: Seq<u8>) -> Seq<char> {
    Seq::new(
        2 * data.len(),
        |i: int|
            if i % 2 == 0 {
                digit_char(data[i / 2] as int / 16)
            } else {
                digit_char(data[i / 2] as int % 16)
            },
    )
}

/// The MD5 digest of the text `s` in its UTF-8 encoding, in lower-case
/// hexadecimal.
pub open spec fn md5_hex(s: Seq<char>) -> Seq<char> {
    hex_lower(md5_digest(vstd::utf8::encode_utf8(s)))
}

/// Appends the bytes `data` in lower-case hexadecimal to `out`.
pub fn push_hex(out: &mut Vec<char>, data: &Vec<u8>)
    ensures
        final(out)@ == old(out)@ + hex_lower(data@),
{
    let mut i: usize = 0;
    while i < data.len()
        invariant
            i <= data.len(),
            out@ == old(out)@ + hex_lower(data@.take(i as int)),
        decreases data.len() - i,
    {
        let b: u8 = data[i];
        out.push(digit(b / 16));
        out.push(digit(b % 16));
        i = i + 1;
    }
}

/// Appends the hexadecimal MD5 digest of `s` to `out`.
pub fn push_md5_hex(out: &mut Vec<char>, s: &str)
    ensures
        final(out)@ == old(out)@ + md5_hex(s@),
{
    let d = md5_bytes(s.as_bytes());
    push_hex(out, &d);
}

} // verus!
