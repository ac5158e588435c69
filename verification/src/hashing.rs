//! The hash primitive and the integer encoding that randomness is mixed with.

use byteorder::ByteOrder;
use vstd::prelude::*;

verus! {

/// The 32-byte BLAKE2b digest of `data`.
pub uninterp spec fn blake2b_256_digest(data: Seq<u8>) -> Seq<u8>;

/// The value of `x` read as an unsigned 64-bit number in two's complement.
pub open spec fn twos_complement_64(x: i64) -> nat {
    if x >= 0 {
        x as nat
    } else {
        (x + 0x1_0000_0000_0000_0000) as nat
    }
}

/// Byte `i` (0 is the most significant) of the 8-byte big-endian form of `u`.
pub open spec fn be_byte(u: nat, i: int) -> u8 {
    if i == 7 {
        (u % 256) as u8
    } else if i == 6 {
        ((u / 0x100) % 256) as u8
    } else if i == 5 {
        ((u / 0x1_0000) % 256) as u8
    } else if i == 4 {
        ((u / 0x100_0000) % 256) as u8
    } else if i == 3 {
        ((u / 0x1_0000_0000) % 256) as u8
    } else if i == 2 {
        ((u / 0x100_0000_0000) % 256) as u8
    } else if i == 1 {
        ((u / 0x1_0000_0000_0000) % 256) as u8
    } else {
        ((u / 0x100_0000_0000_0000) % 256) as u8
    }
}

/// The 8 bytes of `x` as a big-endian signed integer.
pub open spec fn i64_be_bytes(x: i64) -> Seq<u8> {
    Seq::new(8, |i: int| be_byte(twos_complement_64(x), i))
}

/// `blake2b_simd::Params::hash` with the hash length set to 32. The digest
/// is not modelled: the contract gives it a name, a function of the input.
#[verifier::external_body]
pub(crate) fn blake2b_256(data: &[u8]) -> (out: [u8; 32])
    ensures
        out@ == blake2b_256_digest(data@),
{
    let hash = blake2b_simd::Params::new().hash_length(32).hash(data);
    let mut out = [0u8; 32];
    out.copy_from_slice(hash.as_bytes());
    out
}

/// `byteorder::BigEndian::write_i64` into a buffer of 8 bytes: the bytes of
/// `x` in two's complement, most significant first.
#[verifier::external_body]
pub(crate) fn write_i64_be(x: i64) -> (out: [u8; 8])
    ensures
        out@ == i64_be_bytes(x),
{
    let mut out = [0u8; 8];
    byteorder::BigEndian::write_i64(&mut out, x);
    out
}

} // verus!
