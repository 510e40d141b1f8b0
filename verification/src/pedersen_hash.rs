//! Pedersen-style hash from bit strings to the group.
//!
//! The hash reads its input most significant bit first, prepends a
//! domain-separation prefix, and lets the integer the bits denote act on a
//! fixed generator.  It is deterministic and total.  The bit order is a
//! protocol-level contract: a downstream circuit gadget must reproduce the
//! exact same bit sequence.

use vstd::prelude::*;
use vstd::arithmetic::div_mod::{
    lemma_add_mod_noop, lemma_mul_mod_noop_left, lemma_mul_mod_noop_right, lemma_mod_bound,
    lemma_small_mod,
};
use crate::codec::bits_value;
use crate::group::{Point, Params, GROUP_ORDER, PEDERSEN_HASH_GENERATOR, group_scale_model};

verus! {

/// The domain-separation prefix fed to the hash before the input bits.
#[derive(Clone, Copy, PartialEq, Eq, Structural, Debug)]
pub enum Personalization {
    NoteCommitment,
}

impl Personalization {
    /// The six prefix bits of this personalization.
    pub open spec fn spec_bits(self) -> Seq<bool> {
        match self {
            Personalization::NoteCommitment => seq![true, true, true, true, true, true],
        }
    }

    /// The executable form of [`Personalization::spec_bits`].
    pub fn get_bits(&self) -> (r: Vec<bool>)
        ensures
            r@ == self.spec_bits(),
    {
        let mut out: Vec<bool> = Vec::new();
        out.push(true);
        out.push(true);
        out.push(true);
        out.push(true);
        out.push(true);
        out.push(true);
        proof {
            assert(out@ =~= self.spec_bits());
        }
        out
    }
}

/// What the hash returns: the integer denoted by the prefix bits followed
/// by the input bits, most significant bit first, acting on the fixed
/// Pedersen generator.
pub open spec fn pedersen_model(pers: Personalization, bits: Seq<bool>) -> int {
    group_scale_model(bits_value(pers.spec_bits() + bits), PEDERSEN_HASH_GENERATOR as int)
}

/// Hashes a bit sequence to a group element under the given
/// personalization.
pub fn pedersen_hash(personalization: Personalization, bits: &Vec<bool>, params: &Params) -> (r:
    Point)
    ensures
        r@ == pedersen_model(personalization, bits@),
{
    let mut all = personalization.get_bits();
    let mut i: usize = 0;
    while i < bits.len()
        invariant
            i <= bits@.len(),
            all@ == personalization.spec_bits() + bits@.subrange(0, i as int),
        decreases bits@.len() - i,
    {
        all.push(bits[i]);
        proof {
            assert(all@ =~= personalization.spec_bits() + bits@.subrange(0, i + 1));
        }
        i += 1;
    }
    proof {
        assert(bits@.subrange(0, bits@.len() as int) =~= bits@);
    }
    let mut acc: u64 = 0;
    let mut j: usize = 0;
    while j < all.len()
        invariant
            j <= all@.len(),
            acc < GROUP_ORDER,
            acc as int == bits_value(all@.subrange(0, j as int)) % (GROUP_ORDER as int),
        decreases all@.len() - j,
    {
        let b: u64 = if all[j] {
            1
        } else {
            0
        };
        let t = 2 * acc + b;
        proof {
            let m = GROUP_ORDER as int;
            let prefix = all@.subrange(0, j as int);
            let prefix1 = all@.subrange(0, j + 1);
            assert(prefix1.drop_last() =~= prefix);
            let v = bits_value(prefix);
            assert(bits_value(prefix1) == 2 * v + b);
            lemma_mul_mod_noop_right(2, v, m);
            lemma_add_mod_noop(2 * (v % m), b as int, m);
            lemma_add_mod_noop(2 * v, b as int, m);
            lemma_mod_bound(t as int, m);
        }
        acc = t % GROUP_ORDER;
        j += 1;
    }
    proof {
        assert(all@.subrange(0, all@.len() as int) =~= all@);
        let m = GROUP_ORDER as int;
        let v = bits_value(all@);
        lemma_mul_mod_noop_left(v, PEDERSEN_HASH_GENERATOR as int, m);
        lemma_small_mod(PEDERSEN_HASH_GENERATOR as nat, GROUP_ORDER as nat);
    }
    Point::from_u64(PEDERSEN_HASH_GENERATOR).mul_u64(acc, params)
}

} // verus!
