//! Content hashing used for identifiers and document fingerprints: blake3
//! digests rendered as lowercase hex.

use vstd::prelude::*;
use vstd::string::StringSliceAdditionalSpecFns;

verus! {

/// The sixteen lowercase hex digit characters, in value order.
pub const HEX_DIGITS: [char; 16] = [
    '0',
    '1',
    '2',
    '3',
    '4',
    '5',
    '6',
    '7',
    '8',
    '9',
    'a',
    'b',
    'c',
    'd',
    'e',
    'f',
];

/// Lowercase hex encoding: two digits per byte, high nibble first.
pub open spec fn hex_of(data: Seq<u8>) -> Seq<char>
    decreases data.len(),
{
    if data.len() == 0 {
        Seq::empty()
    } else {
        seq![
            HEX_DIGITS@[(data.first() / 16) as int],
            HEX_DIGITS@[(data.first() % 16) as int],
        ] + hex_of(data.drop_first())
    }
}

/// A lowercase hex digit.
pub open spec fn is_hex_digit(c: char) -> bool {
    ('0' <= c <= '9') || ('a' <= c <= 'f')
}

/// Hex encodings are twice as long as their input and made of hex digits.
pub proof fn lemma_hex_of_shape(data: Seq<u8>)
    ensures
        hex_of(data).len() == 2 * data.len(),
        forall|i: int| 0 <= i < hex_of(data).len() ==> is_hex_digit(#[trigger] hex_of(data)[i]),
    decreases data.len(),
{
    if data.len() > 0 {
        lemma_hex_of_shape(data.drop_first());
        assert(is_hex_digit(HEX_DIGITS@[(data.first() / 16) as int]));
        assert(is_hex_digit(HEX_DIGITS@[(data.first() % 16) as int]));
    }
}

/// Relies on `hex::encode`: two lowercase hex digits per input byte, high
/// nibble first.
#[verifier::external_body]
pub fn hex_encode(data: &[u8]) -> (r: String)
    ensures
        r@ == hex_of(data@),
{
    hex::encode(data)
}

/// The blake3 digest of a byte sequence: 32 bytes that depend on the input
/// alone.
pub uninterp spec fn blake3_of(data: Seq<u8>) -> Seq<u8>;

/// Relies on `blake3::hash`: the 32-byte blake3 digest of the input.
#[verifier::external_body]
pub fn blake3_hash(data: &[u8]) -> (r: Vec<u8>)
    ensures
        r@ == blake3_of(data@),
        r@.len() == 32,
{
    blake3::hash(data).as_bytes().to_vec()
}

/// The blake3 digest of a string's bytes, rendered as 64 lowercase hex
/// digits.
pub open spec fn spec_content_hash(content: Seq<u8>) -> Seq<char> {
    hex_of(blake3_of(content))
}

/// Hashes a string's bytes with blake3 and renders the digest in hex.
pub fn content_hash(content: &str) -> (r: String)
    ensures
        r@ == spec_content_hash(content.spec_bytes()),
        r@.len() == 64,
{
    let digest = blake3_hash(content.as_bytes());
    let r = hex_encode(digest.as_slice());
    proof {
        lemma_hex_of_shape(blake3_of(content.spec_bytes()));
    }
    r
}

} // verus!
