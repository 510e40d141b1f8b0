//! Domain-separated hash from byte strings to the prime-order group.
//!
//! The map is deterministic but partial: the digest's 64-bit tail must land
//! on a nonzero canonical residue, which fails for a substantial fraction of
//! inputs.  Callers treat the absence as an expected outcome and retry with
//! different input; no retry logic lives here.

use vstd::prelude::*;
use crate::group::{Point, Params, GROUP_ORDER};
use crate::prf::{blake2s_of, blake2s_32};

verus! {

/// The unmasked big-endian value of a digest's last eight bytes.
pub open spec fn digest_tail_value(d: Seq<u8>) -> int {
    d[24] as int * 0x100000000000000 + d[25] as int * 0x1000000000000 + d[26] as int
        * 0x10000000000 + d[27] as int * 0x100000000 + d[28] as int * 0x1000000 + d[29] as int
        * 0x10000 + d[30] as int * 0x100 + d[31] as int
}

/// What hash-to-group returns: the digest tail read as a group element, or
/// nothing when that value is the identity or not a canonical residue.
pub open spec fn group_hash_model(tag: Seq<u8>, input: Seq<u8>) -> Option<int> {
    let v = digest_tail_value(blake2s_of(tag, input));
    if 1 <= v && v < GROUP_ORDER as int {
        Some(v)
    } else {
        None
    }
}

/// Hashes the input to a group element under the given domain tag.
pub fn group_hash(tag: &[u8; 8], input: &Vec<u8>, params: &Params) -> (r: Option<Point>)
    ensures
        (match r {
            Some(p) => group_hash_model(tag@, input@) == Some(p@),
            None => group_hash_model(tag@, input@) is None,
        }),
{
    let h = blake2s_32(tag, input);
    let v: u64 = (h[24] as u64) * 0x100000000000000 + (h[25] as u64) * 0x1000000000000 + (h[26]
        as u64) * 0x10000000000 + (h[27] as u64) * 0x100000000 + (h[28] as u64) * 0x1000000 + (
    h[29] as u64) * 0x10000 + (h[30] as u64) * 0x100 + (h[31] as u64);
    if 1 <= v && v < GROUP_ORDER {
        Some(Point::from_reduced(v))
    } else {
        None
    }
}

} // verus!
