//! Content checksumming for resource metadata and bundle staleness checks:
//! a SHA-1 digest rendered as lower-case hexadecimal text.
//!
//! The digest itself comes from the `sha1` crate and the rendering from the
//! `base16ct` crate; both calls stand behind trusted wrappers, and everything
//! around them is verified against the wrappers' contracts.

use vstd::prelude::*;

verus! {

/// The SHA-1 digest of a byte string.  The algorithm is the foreign
/// library's business; the digest is a function of the input bytes alone.
pub uninterp spec fn sha1_of(data: Seq<u8>) -> Seq<u8>;

/// The lower-case hexadecimal digit for a value below 16.
pub open spec fn hex_lower_digit(n: u8) -> char {
    if n == 0 {
        '0'
    } else if n == 1 {
        '1'
    } else if n == 2 {
        '2'
    } else if n == 3 {
        '3'
    } else if n == 4 {
        '4'
    } else if n == 5 {
        '5'
    } else if n == 6 {
        '6'
    } else if n == 7 {
        '7'
    } else if n == 8 {
        '8'
    } else if n == 9 {
        '9'
    } else if n == 10 {
        'a'
    } else if n == 11 {
        'b'
    } else if n == 12 {
        'c'
    } else if n == 13 {
        'd'
    } else if n == 14 {
        'e'
    } else {
        'f'
    }
}

/// The lower-case hexadecimal rendering of a byte string: two digits per
/// byte, high nibble first.
pub open spec fn hex_lower_of(data: Seq<u8>) -> Seq<char> {
    Seq::new(
        data.len() * 2,
        |i: int|
            if i % 2 == 0 {
                hex_lower_digit(data[i / 2] / 16)
            } else {
                hex_lower_digit(data[i / 2] % 16)
            },
    )
}

/// Relies on sha1::Sha1 through digest::Digest::digest: the 20-byte SHA-1
/// digest of the input, a function of the input bytes alone.
#[verifier::external_body]
fn sha1_digest(data: &[u8]) -> (r: Vec<u8>)
    ensures
        r@ == sha1_of(data@),
        r@.len() == 20,
{
    <sha1::Sha1 as sha1::Digest>::digest(data).to_vec()
}

/// Relies on base16ct::lower::encode_string: each input byte becomes two
/// lower-case hex digits, high nibble first.
#[verifier::external_body]
fn hex_encode_lower(data: &[u8]) -> (r: String)
    requires
        data@.len() * 2 <= usize::MAX,
    ensures
        r@ == hex_lower_of(data@),
{
    base16ct::lower::encode_string(data)
}

/// The SHA-1 checksum of `data`, rendered as 40 lower-case hexadecimal
/// characters — the form stored in resource metadata.
pub fn checksum_hex(data: &[u8]) -> (r: String)
    ensures
        r@ == hex_lower_of(sha1_of(data@)),
        r@.len() == 40,
{
    let digest = sha1_digest(data);
    hex_encode_lower(digest.as_slice())
}

} // verus!
