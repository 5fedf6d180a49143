//! SCALE encodings and the Blake2 hash that the pallets derive identifiers from.

use parity_scale_codec::Encode;
use vstd::prelude::*;

verus! {

/// The `count` low-order bytes of `n`, least significant first.
pub open spec fn le_bytes(n: nat, count: nat) -> Seq<u8>
    decreases count,
{
    if count == 0 {
        Seq::empty()
    } else {
        seq![(n % 256) as u8] + le_bytes(n / 256, (count - 1) as nat)
    }
}

/// SCALE compact encoding of a `u32`: one, two or four bytes whose two low
/// bits give the mode, or the marker byte `3` followed by the four bytes of the value.
pub open spec fn compact_u32(n: nat) -> Seq<u8> {
    if n < 64 {
        le_bytes(n * 4, 1)
    } else if n < 16384 {
        le_bytes(n * 4 + 1, 2)
    } else if n < 1073741824 {
        le_bytes(n * 4 + 2, 4)
    } else {
        seq![3u8] + le_bytes(n, 4)
    }
}

/// SCALE encoding of a byte vector: its compact length, then its bytes.
pub open spec fn scale_bytes(b: Seq<u8>) -> Seq<u8> {
    compact_u32(b.len()) + b
}

/// SCALE encoding of the pair `(bytes, n)` with `n` a `u64`.
pub open spec fn scale_bytes_u64(b: Seq<u8>, n: u64) -> Seq<u8> {
    scale_bytes(b) + le_bytes(n as nat, 8)
}

/// SCALE encoding of a `u32`: its four bytes, least significant first.
pub open spec fn scale_u32(n: u32) -> Seq<u8> {
    le_bytes(n as nat, 4)
}

/// The 32-byte Blake2b digest of some bytes.
pub uninterp spec fn blake2_256_of(data: Seq<u8>) -> Seq<u8>;

/// `Encode::encode` of parity-scale-codec on the pair `(bytes, n)`.
/// Claimed: the result is the compact length of `bytes`, the bytes, then the
/// eight little-endian bytes of `n` (the codec panics on more than `u32::MAX` bytes).
#[verifier::external_body]
pub(crate) fn encode_bytes_u64(bytes: &Vec<u8>, n: u64) -> (r: Vec<u8>)
    requires
        bytes@.len() <= u32::MAX,
    ensures
        r@ == scale_bytes_u64(bytes@, n),
{
    (bytes, n).encode()
}

/// `Encode::encode` of parity-scale-codec on a byte vector.
/// Claimed: the result is the compact length of `bytes` followed by the bytes.
#[verifier::external_body]
pub(crate) fn encode_bytes(bytes: &Vec<u8>) -> (r: Vec<u8>)
    requires
        bytes@.len() <= u32::MAX,
    ensures
        r@ == scale_bytes(bytes@),
{
    bytes.encode()
}

/// `Encode::encode` of parity-scale-codec on a `u32`.
/// Claimed: the four bytes of the value, least significant first.
#[verifier::external_body]
pub(crate) fn encode_u32(n: u32) -> (r: Vec<u8>)
    ensures
        r@ == scale_u32(n),
{
    n.encode()
}

/// `sp_io::hashing::blake2_256`: the 256-bit Blake2b digest of `data`.
/// Claimed: the result depends on `data` alone and is named `blake2_256_of`.
#[verifier::external_body]
pub(crate) fn blake2_256(data: &Vec<u8>) -> (r: [u8; 32])
    ensures
        r@ == blake2_256_of(data@),
{
    sp_io::hashing::blake2_256(data.as_slice())
}

} // verus!
