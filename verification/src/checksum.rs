//! Content checksums: lower-case hex SHA-256.
use vstd::prelude::*;
use sha2::{Digest, Sha256};

verus! {

/// The SHA-256 digest of a byte sequence.
pub uninterp spec fn sha256_spec(data: Seq<u8>) -> Seq<u8>;

/// SHA-256 digest of `data` (calls `sha2::Sha256::digest`).  The contract
/// claims that the digest is a function of the bytes alone and is 32 bytes
/// long, as the `Sha256` output size is.
#[verifier::external_body]
fn sha256(data: &[u8]) -> (r: Vec<u8>)
    ensures
        r@ == sha256_spec(data@),
        r@.len() == 32,
{
    Sha256::digest(data).to_vec()
}

/// A lower-case hexadecimal digit.
pub open spec fn hex_digit(n: int) -> char {
    if n < 10 {
        (48 + n) as char
    } else {
        (87 + n) as char
    }
}

/// Lower-case hexadecimal text of bytes, two digits per byte, high nibble
/// first.
pub open spec fn hex_spec(data: Seq<u8>) -> Seq<char>
    decreases data.len(),
{
    if data.len() == 0 {
        Seq::empty()
    } else {
        seq![hex_digit(data[0] as int / 16), hex_digit(data[0] as int % 16)] + hex_spec(
            data.drop_first(),
        )
    }
}

pub proof fn lemma_hex_len(data: Seq<u8>)
    ensures
        hex_spec(data).len() == 2 * data.len(),
    decreases data.len(),
{
    if data.len() > 0 {
        lemma_hex_len(data.drop_first());
    }
}

/// Lower-case hex text of `data` (calls `hex::encode`).  The contract claims
/// what the crate's source shows: each byte becomes its two lower-case hex
/// digits, high nibble first, in order.
#[verifier::external_body]
fn hex_encode(data: &[u8]) -> (r: String)
    ensures
        r@ == hex_spec(data@),
{
    hex::encode(data)
}

/// The checksum of some bytes: hex of their SHA-256.
pub open spec fn checksum_spec(data: Seq<u8>) -> Seq<char> {
    hex_spec(sha256_spec(data))
}

/// Checksum of a byte string: 64 lower-case hex digits of its SHA-256.
pub fn checksum_bytes(data: &[u8]) -> (r: String)
    ensures
        r@ == checksum_spec(data@),
        r@.len() == 64,
{
    let digest = sha256(data);
    let r = hex_encode(digest.as_slice());
    proof {
        lemma_hex_len(digest@);
    }
    r
}

/// One entry below a directory being checksummed: its path relative to the
/// directory and, for a file, its bytes.
pub struct ChecksumEntry {
    pub relative: String,
    pub contents: Option<Vec<u8>>,
}

/// The bytes a directory checksum digests: for each entry in order, its
/// relative path in UTF-8, then its contents when it is a file.
pub open spec fn directory_input(entries: Seq<ChecksumEntry>) -> Seq<u8>
    decreases entries.len(),
{
    if entries.len() == 0 {
        Seq::empty()
    } else {
        let e = entries.last();
        directory_input(entries.drop_last()) + vstd::utf8::encode_utf8(e.relative@) + match e.contents {
            Some(c) => c@,
            None => Seq::empty(),
        }
    }
}

/// Checksum of a directory from its entries, given sorted by path and without
/// the directory itself.
pub fn checksum_entries(entries: &Vec<ChecksumEntry>) -> (r: String)
    ensures
        r@ == checksum_spec(directory_input(entries@)),
        r@.len() == 64,
{
    let mut input: Vec<u8> = Vec::new();
    let mut i: usize = 0;
    while i < entries.len()
        invariant
            i <= entries.len(),
            input@ == directory_input(entries@.subrange(0, i as int)),
        decreases entries.len() - i,
    {
        let e = &entries[i];
        let ghost before = input@;
        let bytes = e.relative.as_str().as_bytes();
        input.extend_from_slice(bytes);
        assert(input@ =~= before + vstd::utf8::encode_utf8(e.relative@));
        let ghost mid = input@;
        match &e.contents {
            Some(c) => {
                input.extend_from_slice(c.as_slice());
                assert(input@ =~= mid + c@);
            },
            None => {},
        }
        assert(entries@.subrange(0, i + 1).drop_last() =~= entries@.subrange(0, i as int));
        i = i + 1;
    }
    assert(entries@.subrange(0, entries.len() as int) =~= entries@);
    checksum_bytes(input.as_slice())
}

} // verus!
