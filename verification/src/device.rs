//! Device identity derivation.
//!
//! The device identifier presented to the streaming service is the
//! lowercase hex form of the SHA-1 digest of the device name.

use sha1::Digest;
use vstd::prelude::*;
use vstd::string::StringSliceAdditionalSpecFns;

use crate::digits::digit_char;

verus! {

/// The SHA-1 digest of `data`. The digest is a function of the bytes
/// alone; it is named here, not written out, and nothing in this crate
/// re-states the algorithm.
pub uninterp spec fn sha1_of(data: Seq<u8>) -> Seq<u8>;

/// The lowercase hex character for the nibble `d`.
pub open spec fn hex_digit(d: nat) -> char {
    if d < 10 {
        digit_char(d)
    } else if d == 10 {
        'a'
    } else if d == 11 {
        'b'
    } else if d == 12 {
        'c'
    } else if d == 13 {
        'd'
    } else if d == 14 {
        'e'
    } else {
        'f'
    }
}

/// The lowercase hex rendering of `bytes`: two digits per byte, high
/// nibble first.
pub open spec fn hex_of(bytes: Seq<u8>) -> Seq<char>
    decreases bytes.len(),
{
    if bytes.len() == 0 {
        Seq::empty()
    } else {
        hex_of(bytes.drop_last()) + seq![
            hex_digit((bytes.last() / 16) as nat),
            hex_digit((bytes.last() % 16) as nat),
        ]
    }
}

/// Relies on `sha1::Sha1` through the `Digest` trait: the digest depends
/// on the input bytes alone and is 20 bytes long.
#[verifier::external_body]
fn sha1_digest(data: &[u8]) -> (r: Vec<u8>)
    ensures
        r@ == sha1_of(data@),
        r@.len() == 20,
{
    sha1::Sha1::digest(data).to_vec()
}

/// Relies on `hex::encode`: two lowercase hex digits for each byte, high
/// nibble first.
#[verifier::external_body]
fn hex_encode(data: &Vec<u8>) -> (r: String)
    ensures
        r@ == hex_of(data@),
{
    hex::encode(data.as_slice())
}

/// The device identifier derived from the device name.
pub fn device_id(name: &str) -> (r: String)
    ensures
        r@ == hex_of(sha1_of(name.spec_bytes())),
{
    let digest = sha1_digest(name.as_bytes());
    hex_encode(&digest)
}

} // verus!
