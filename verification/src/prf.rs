//! The direct cryptographic hash with personalization, used only as a
//! pseudorandom function, and the masking step that turns a digest into a
//! scalar.

use vstd::prelude::*;
use vstd::arithmetic::div_mod::lemma_small_mod;
use crate::group::{Fs, GROUP_ORDER};

verus! {

/// What the 32-byte personalized hash returns for a given personalization
/// tag and input; it depends on those two byte strings alone.
pub uninterp spec fn blake2s_of(personal: Seq<u8>, data: Seq<u8>) -> Seq<u8>;

/// Relies on blake2_rfc's `Blake2s::with_parameter_block`, `update` and
/// `finalize`: the parameter block sets digest length 32, no key, fanout 1,
/// depth 1 and the 8-byte personalization (its last two words), and the
/// resulting 32-byte digest is a function of the personalization and the
/// input bytes alone.
#[verifier::external_body]
pub(crate) fn blake2s_32(personal: &[u8; 8], data: &Vec<u8>) -> (r: Vec<u8>)
    ensures
        r@ == blake2s_of(personal@, data@),
        r@.len() == 32,
{
    let p: [u32; 8] = [
        0x01010020, 0, 0, 0, 0, 0,
        u32::from_le_bytes([personal[0], personal[1], personal[2], personal[3]]),
        u32::from_le_bytes([personal[4], personal[5], personal[6], personal[7]]),
    ];
    let mut h = blake2_rfc::blake2s::Blake2s::with_parameter_block(&p);
    h.update(data.as_slice());
    h.finalize().as_ref().to_vec()
}

/// The scalar a 32-byte digest reduces to.  The top 194 bits are dropped
/// (bytes 0 through 23, and the top two bits of byte 24), and the remaining
/// 62 bits are read as a big-endian integer.  The group order exceeds 2^62,
/// so the masked value is always a canonical scalar representative: the
/// masking bound is re-derived here from the scalar field's own bit length.
pub open spec fn masked_scalar_of(d: Seq<u8>) -> int {
    (d[24] & 0x3f) as int * 0x100000000000000 + d[25] as int * 0x1000000000000 + d[26] as int
        * 0x10000000000 + d[27] as int * 0x100000000 + d[28] as int * 0x1000000 + d[29] as int
        * 0x10000 + d[30] as int * 0x100 + d[31] as int
}

/// Hashes a preimage under the given personalization and reduces the digest
/// to a scalar by masking.  The decode into the scalar field never fails:
/// the masked value is proved below the group order.
pub(crate) fn hash_to_scalar(personal: &[u8; 8], preimage: &Vec<u8>) -> (r: Fs)
    ensures
        r@ == masked_scalar_of(blake2s_of(personal@, preimage@)),
{
    let h = blake2s_32(personal, preimage);
    let h24: u8 = h[24];
    let b24: u8 = h24 & 0x3f;
    proof {
        assert(h24 & 0x3f < 64) by (bit_vector);
    }
    let v: u64 = (b24 as u64) * 0x100000000000000 + (h[25] as u64) * 0x1000000000000 + (h[26]
        as u64) * 0x10000000000 + (h[27] as u64) * 0x100000000 + (h[28] as u64) * 0x1000000 + (
    h[29] as u64) * 0x10000 + (h[30] as u64) * 0x100 + (h[31] as u64);
    proof {
        lemma_small_mod(v as nat, GROUP_ORDER as nat);
    }
    Fs::from_u64(v)
}

} // verus!
