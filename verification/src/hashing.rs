//! The ledger's digest function: SHA-256, hex-encoded, together with the
//! byte-level helpers the rest of the crate hashes through.

use vstd::prelude::*;

verus! {

/// Number of lowercase hex characters in the digest of any input.
pub const HASH_HEX_LEN: usize = 64;

/// The SHA-256 digest of a byte sequence. The digest is a pure function of
/// the input bytes, so it is only named here; nothing in this crate states
/// what it is on given bytes.
pub uninterp spec fn sha256_of(data: Seq<u8>) -> Seq<u8>;

/// Relies on sha2::Sha256 through digest::Digest::digest: a 32-byte digest
/// determined by the input bytes alone.
#[verifier::external_body]
fn sha256(data: &[u8]) -> (r: Vec<u8>)
    ensures
        r@ == sha256_of(data@),
        r@.len() == 32,
{
    <sha2::Sha256 as sha2::Digest>::digest(data).to_vec()
}

/// The lowercase hex character, as an ASCII byte, for a value below 16.
pub open spec fn hex_digit(n: int) -> u8 {
    if n < 10 {
        (48 + n) as u8
    } else {
        (87 + n) as u8
    }
}

/// The lowercase hex encoding of a byte sequence: two characters per byte,
/// high nibble first.
pub open spec fn hex_of(b: Seq<u8>) -> Seq<u8>
    decreases b.len(),
{
    if b.len() == 0 {
        Seq::empty()
    } else {
        seq![hex_digit(b[0] as int / 16), hex_digit(b[0] as int % 16)] + hex_of(b.skip(1))
    }
}

/// Hex encoding doubles the length.
pub proof fn lemma_hex_of_len(b: Seq<u8>)
    ensures
        hex_of(b).len() == 2 * b.len(),
    decreases b.len(),
{
    if b.len() > 0 {
        lemma_hex_of_len(b.skip(1));
    }
}

/// Relies on hex::encode: lowercase hex, two digits per byte, high nibble
/// first.
#[verifier::external_body]
fn hex_encode(b: &[u8]) -> (r: Vec<u8>)
    ensures
        r@ == hex_of(b@),
{
    hex::encode(b).into_bytes()
}

/// The hex-encoded SHA-256 digest: the hash every block and Merkle node in
/// the ledger carries.
pub open spec fn digest_hex_of(data: Seq<u8>) -> Seq<u8> {
    hex_of(sha256_of(data))
}

/// Hash arbitrary bytes to their 64-character lowercase hex digest.
pub fn digest_hex(data: &[u8]) -> (r: Vec<u8>)
    ensures
        r@ == digest_hex_of(data@),
        r@.len() == HASH_HEX_LEN as int,
{
    let d = sha256(data);
    let r = hex_encode(d.as_slice());
    proof {
        lemma_hex_of_len(sha256_of(data@));
    }
    r
}

/// The first `d` characters of `h` are ASCII '0'. This is the proof-of-work
/// target at difficulty `d`.
pub open spec fn has_leading_zeros(h: Seq<u8>, d: int) -> bool {
    &&& d <= h.len()
    &&& forall|i: int| 0 <= i < d ==> h[i] == 48u8
}

/// Decide whether `h` meets the proof-of-work target at difficulty `d`.
pub fn check_leading_zeros(h: &Vec<u8>, d: usize) -> (r: bool)
    ensures
        r == has_leading_zeros(h@, d as int),
{
    if d > h.len() {
        return false;
    }
    let mut i: usize = 0;
    while i < d
        invariant
            0 <= i <= d,
            d <= h@.len(),
            forall|j: int| 0 <= j < i ==> h@[j] == 48u8,
        decreases d - i,
    {
        if h[i] != 48u8 {
            return false;
        }
        i = i + 1;
    }
    true
}

/// Append a copy of `src` to `out`.
pub fn push_bytes(out: &mut Vec<u8>, src: &Vec<u8>)
    ensures
        final(out)@ == old(out)@ + src@,
{
    let mut i: usize = 0;
    while i < src.len()
        invariant
            0 <= i <= src@.len(),
            out@ == old(out)@ + src@.subrange(0, i as int),
        decreases src@.len() - i,
    {
        out.push(src[i]);
        proof {
            assert(out@ =~= old(out)@ + src@.subrange(0, i + 1 as int));
        }
        i = i + 1;
    }
    proof {
        assert(src@.subrange(0, src@.len() as int) =~= src@);
    }
}

/// The eight big-endian bytes of a 64-bit integer: the canonical encoding of
/// every numeric field that is hashed.
pub open spec fn u64_be_bytes(x: u64) -> Seq<u8> {
    seq![
        (x >> 56) as u8,
        (x >> 48) as u8,
        (x >> 40) as u8,
        (x >> 32) as u8,
        (x >> 24) as u8,
        (x >> 16) as u8,
        (x >> 8) as u8,
        x as u8,
    ]
}

/// Append the eight big-endian bytes of `x` to `out`.
pub fn push_u64_be(out: &mut Vec<u8>, x: u64)
    ensures
        final(out)@ == old(out)@ + u64_be_bytes(x),
{
    out.push(#[verifier::truncate] ((x >> 56) as u8));
    out.push(#[verifier::truncate] ((x >> 48) as u8));
    out.push(#[verifier::truncate] ((x >> 40) as u8));
    out.push(#[verifier::truncate] ((x >> 32) as u8));
    out.push(#[verifier::truncate] ((x >> 24) as u8));
    out.push(#[verifier::truncate] ((x >> 16) as u8));
    out.push(#[verifier::truncate] ((x >> 8) as u8));
    out.push(#[verifier::truncate] (x as u8));
    proof {
        assert(out@ =~= old(out)@ + u64_be_bytes(x));
    }
}

} // verus!
