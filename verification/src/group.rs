//! The prime-order group and its two fields.
//!
//! The protocol's algebra lives in a cyclic group of prime order.  The
//! parameter set used here represents that group concretely: an element is a
//! residue modulo [`GROUP_ORDER`], the group law is addition of residues, and
//! a scalar acts by multiplication.  Every named generator is a fixed nonzero
//! element.  The base field [`BASE_FIELD_MODULUS`] is strictly larger than
//! the group order, so the injective "x-coordinate" encoding of a group
//! element is simply its residue read as a base-field element.

use vstd::prelude::*;
use vstd::arithmetic::div_mod::{
    lemma_small_mod, lemma_mod_bound, lemma_fundamental_div_mod_converse,
};
use vstd::assert_by_contradiction;
use crate::codec::{u64_be_byte, u64_be_bytes};

verus! {

/// The order of the prime-order group; a prime between 2^62 and 2^63.
pub const GROUP_ORDER: u64 = 9223372036854775783;

/// The modulus of the base field; a prime larger than the group order.
pub const BASE_FIELD_MODULUS: u64 = 18446744073709551557;

/// The fixed generator used for the value part of a value commitment.
pub const VALUE_COMMITMENT_VALUE_GENERATOR: u64 = 3;

/// The fixed generator used for the randomness part of a value commitment.
pub const VALUE_COMMITMENT_RANDOMNESS_GENERATOR: u64 = 5;

/// The fixed generator that turns the proof-authorizing scalar `rsk` into
/// the randomized verification point `rk`.
pub const PROOF_GENERATION_KEY_GENERATOR: u64 = 7;

/// The fixed generator used for the randomness part of a note commitment.
pub const NOTE_COMMITMENT_RANDOMNESS_GENERATOR: u64 = 11;

/// The fixed generator that blinds a note commitment with its position
/// before nullifier derivation.
pub const NULLIFIER_POSITION_GENERATOR: u64 = 1;

/// The fixed generator of the Pedersen-style bit-string hash.
pub const PEDERSEN_HASH_GENERATOR: u64 = 13;

/// The group law on residues.
pub open spec fn group_add_model(a: int, b: int) -> int {
    (a + b) % (GROUP_ORDER as int)
}

/// The action of a scalar `s` on a group element `g`.
pub open spec fn group_scale_model(s: int, g: int) -> int {
    (s * g) % (GROUP_ORDER as int)
}

/// The fixed 32-byte canonical encoding of a group element: 24 zero bytes
/// followed by the big-endian bytes of its residue.
pub open spec fn point_encoding(p: int) -> Seq<u8> {
    Seq::new(24, |i: int| 0u8) + u64_be_bytes(p as u64)
}

fn add_mod_order(a: u64, b: u64) -> (r: u64)
    requires
        a < GROUP_ORDER,
        b < GROUP_ORDER,
    ensures
        r == group_add_model(a as int, b as int),
        r < GROUP_ORDER,
{
    let s = a + b;
    if s >= GROUP_ORDER {
        proof {
            lemma_fundamental_div_mod_converse(s as int, GROUP_ORDER as int, 1, s - GROUP_ORDER);
        }
        s - GROUP_ORDER
    } else {
        proof {
            lemma_small_mod(s as nat, GROUP_ORDER as nat);
        }
        s
    }
}

fn mul_mod_order(a: u64, b: u64) -> (r: u64)
    ensures
        r == (a as int * b as int) % (GROUP_ORDER as int),
        r < GROUP_ORDER,
{
    proof {
        assert((a as int) * (b as int) < 0x100000000000000000000000000000000) by (nonlinear_arith)
            requires
                a as int <= 0xffffffffffffffff,
                b as int <= 0xffffffffffffffff,
        ;
        lemma_mod_bound((a as int) * (b as int), GROUP_ORDER as int);
    }
    let p = (a as u128) * (b as u128);
    (p % (GROUP_ORDER as u128)) as u64
}

/// An element of the scalar field: an integer modulo the group order.
#[derive(Clone, Copy, PartialEq, Eq, Structural, Debug)]
pub struct Fs {
    repr: u64,
}

impl View for Fs {
    type V = int;

    closed spec fn view(&self) -> int {
        self.repr as int
    }
}

impl Fs {
    #[verifier::type_invariant]
    spec fn inv(self) -> bool {
        self.repr < GROUP_ORDER
    }

    /// The scalar with the given residue, reduced modulo the group order.
    pub fn from_u64(x: u64) -> (r: Fs)
        ensures
            r@ == x as int % (GROUP_ORDER as int),
            r@ < GROUP_ORDER,
    {
        proof {
            lemma_mod_bound(x as int, GROUP_ORDER as int);
        }
        Fs { repr: x % GROUP_ORDER }
    }

    /// The canonical (reduced) representative of the scalar.
    pub fn as_u64(&self) -> (r: u64)
        ensures
            r as int == self@,
            r < GROUP_ORDER,
    {
        proof {
            use_type_invariant(&*self);
        }
        self.repr
    }

    /// Scalar-field addition.
    pub fn add(&self, other: &Fs) -> (r: Fs)
        ensures
            r@ == group_add_model(self@, other@),
    {
        proof {
            use_type_invariant(&*self);
            use_type_invariant(&*other);
        }
        Fs { repr: add_mod_order(self.repr, other.repr) }
    }
}

/// An element of the base field: an integer modulo the base field modulus.
#[derive(Clone, Copy, PartialEq, Eq, Structural, Debug)]
pub struct Fr {
    repr: u64,
}

impl View for Fr {
    type V = int;

    closed spec fn view(&self) -> int {
        self.repr as int
    }
}

impl Fr {
    #[verifier::type_invariant]
    spec fn inv(self) -> bool {
        self.repr < BASE_FIELD_MODULUS
    }

    /// The base-field element with the given residue, reduced.
    pub fn from_u64(x: u64) -> (r: Fr)
        ensures
            r@ == x as int % (BASE_FIELD_MODULUS as int),
            r@ < BASE_FIELD_MODULUS,
    {
        proof {
            lemma_mod_bound(x as int, BASE_FIELD_MODULUS as int);
        }
        Fr { repr: x % BASE_FIELD_MODULUS }
    }

    /// The canonical (reduced) representative of the base-field element.
    pub fn as_u64(&self) -> (r: u64)
        ensures
            r as int == self@,
            r < BASE_FIELD_MODULUS,
    {
        proof {
            use_type_invariant(&*self);
        }
        self.repr
    }
}

/// An element of the prime-order group, always a valid subgroup member.
#[derive(Clone, Copy, PartialEq, Eq, Structural, Debug)]
pub struct Point {
    repr: u64,
}

impl View for Point {
    type V = int;

    closed spec fn view(&self) -> int {
        self.repr as int
    }
}

/// The names of the fixed generator points a parameter set exposes.
#[derive(Clone, Copy, PartialEq, Eq, Structural, Debug)]
pub enum FixedGenerators {
    ValueCommitmentValue,
    ValueCommitmentRandomness,
    ProofGenerationKey,
    NoteCommitmentRandomness,
    NullifierPosition,
}

/// The group element a fixed generator name denotes.
pub open spec fn generator_value(g: FixedGenerators) -> int {
    match g {
        FixedGenerators::ValueCommitmentValue => VALUE_COMMITMENT_VALUE_GENERATOR as int,
        FixedGenerators::ValueCommitmentRandomness => VALUE_COMMITMENT_RANDOMNESS_GENERATOR as int,
        FixedGenerators::ProofGenerationKey => PROOF_GENERATION_KEY_GENERATOR as int,
        FixedGenerators::NoteCommitmentRandomness => NOTE_COMMITMENT_RANDOMNESS_GENERATOR as int,
        FixedGenerators::NullifierPosition => NULLIFIER_POSITION_GENERATOR as int,
    }
}

/// The immutable curve/field parameter set: it exposes the named fixed
/// generators and carries no mutable state.
pub struct Params {
    gen_value_commitment_value: Point,
    gen_value_commitment_randomness: Point,
    gen_proof_generation_key: Point,
    gen_note_commitment_randomness: Point,
    gen_nullifier_position: Point,
}

impl Params {
    #[verifier::type_invariant]
    spec fn inv(self) -> bool {
        &&& self.gen_value_commitment_value@ == VALUE_COMMITMENT_VALUE_GENERATOR as int
        &&& self.gen_value_commitment_randomness@ == VALUE_COMMITMENT_RANDOMNESS_GENERATOR as int
        &&& self.gen_proof_generation_key@ == PROOF_GENERATION_KEY_GENERATOR as int
        &&& self.gen_note_commitment_randomness@ == NOTE_COMMITMENT_RANDOMNESS_GENERATOR as int
        &&& self.gen_nullifier_position@ == NULLIFIER_POSITION_GENERATOR as int
    }

    /// Constructs the parameter set; done once at startup.
    pub fn new() -> (r: Params)
    {
        Params {
            gen_value_commitment_value: Point { repr: VALUE_COMMITMENT_VALUE_GENERATOR },
            gen_value_commitment_randomness: Point { repr: VALUE_COMMITMENT_RANDOMNESS_GENERATOR },
            gen_proof_generation_key: Point { repr: PROOF_GENERATION_KEY_GENERATOR },
            gen_note_commitment_randomness: Point { repr: NOTE_COMMITMENT_RANDOMNESS_GENERATOR },
            gen_nullifier_position: Point { repr: NULLIFIER_POSITION_GENERATOR },
        }
    }

    /// The fixed prime-order-subgroup point a generator name maps to.
    pub fn generator(&self, g: FixedGenerators) -> (r: Point)
        ensures
            r@ == generator_value(g),
    {
        proof {
            use_type_invariant(&*self);
        }
        match g {
            FixedGenerators::ValueCommitmentValue => self.gen_value_commitment_value,
            FixedGenerators::ValueCommitmentRandomness => self.gen_value_commitment_randomness,
            FixedGenerators::ProofGenerationKey => self.gen_proof_generation_key,
            FixedGenerators::NoteCommitmentRandomness => self.gen_note_commitment_randomness,
            FixedGenerators::NullifierPosition => self.gen_nullifier_position,
        }
    }
}

impl Point {
    #[verifier::type_invariant]
    spec fn inv(self) -> bool {
        self.repr < GROUP_ORDER
    }

    /// The group element with the given residue, reduced modulo the group
    /// order.
    pub fn from_u64(x: u64) -> (r: Point)
        ensures
            r@ == x as int % (GROUP_ORDER as int),
            r@ < GROUP_ORDER,
    {
        proof {
            lemma_mod_bound(x as int, GROUP_ORDER as int);
        }
        Point { repr: x % GROUP_ORDER }
    }

    /// The group element with the given residue, already reduced.
    pub(crate) fn from_reduced(x: u64) -> (r: Point)
        requires
            x < GROUP_ORDER,
        ensures
            r@ == x as int,
    {
        Point { repr: x }
    }

    /// The canonical (reduced) representative of the group element.
    pub fn as_u64(&self) -> (r: u64)
        ensures
            r as int == self@,
            r < GROUP_ORDER,
    {
        proof {
            use_type_invariant(&*self);
        }
        self.repr
    }

    /// The group law.
    pub fn add(&self, other: &Point, params: &Params) -> (r: Point)
        ensures
            r@ == group_add_model(self@, other@),
    {
        proof {
            use_type_invariant(&*self);
            use_type_invariant(&*other);
        }
        Point { repr: add_mod_order(self.repr, other.repr) }
    }

    /// Scalar multiplication by a scalar-field element.
    pub fn mul(&self, scalar: &Fs, params: &Params) -> (r: Point)
        ensures
            r@ == group_scale_model(scalar@, self@),
    {
        self.mul_u64(scalar.as_u64(), params)
    }

    /// Scalar multiplication by a 64-bit integer exponent, used where a
    /// value acts directly as an exponent.
    pub fn mul_u64(&self, exponent: u64, params: &Params) -> (r: Point)
        ensures
            r@ == group_scale_model(exponent as int, self@),
    {
        proof {
            use_type_invariant(&*self);
        }
        Point { repr: mul_mod_order(exponent, self.repr) }
    }

    /// The fixed-width canonical 32-byte encoding of the group element.
    pub fn encode(&self) -> (r: Vec<u8>)
        ensures
            r@ == point_encoding(self@),
            r@.len() == 32,
    {
        proof {
            use_type_invariant(&*self);
        }
        let mut out: Vec<u8> = Vec::new();
        let mut i: usize = 0;
        while i < 24
            invariant
                i <= 24,
            out@ =~= Seq::new(i as nat, |j: int| 0u8),
            decreases 24 - i,
        {
            out.push(0u8);
            i += 1;
        }
        let x = self.repr;
        out.push((x >> 56u64) as u8);
        out.push((x >> 48u64) as u8);
        out.push((x >> 40u64) as u8);
        out.push((x >> 32u64) as u8);
        out.push((x >> 24u64) as u8);
        out.push((x >> 16u64) as u8);
        out.push((x >> 8u64) as u8);
        out.push(x as u8);
        proof {
            assert((x >> 0u64) as u8 == x as u8) by (bit_vector);
            assert(out@ =~= point_encoding(self@));
        }
        out
    }

    /// Decodes a fixed-width canonical encoding; fails on malformed input:
    /// a wrong length, nonzero padding, or a residue that is not a
    /// canonical subgroup member.
    pub fn decode(bytes: &Vec<u8>) -> (r: Option<Point>)
        ensures
            (match r {
                Some(p) => bytes@ == point_encoding(p@) && 0 <= p@ < GROUP_ORDER,
                None => forall|p: int| 0 <= p < GROUP_ORDER ==> bytes@ != point_encoding(p),
            }),
    {
        if bytes.len() != 32 {
            return None;
        }
        let mut i: usize = 0;
        while i < 24
            invariant
                i <= 24,
                bytes@.len() == 32,
                forall|j: int| 0 <= j < i ==> bytes@[j] == 0,
            decreases 24 - i,
        {
            if bytes[i] != 0 {
                proof {
                    let bad = i as int;
                    assert forall|p: int| 0 <= p < GROUP_ORDER implies bytes@ != point_encoding(
                        p,
                    ) by {
                        assert(point_encoding(p)[bad] == 0);
                    }
                }
                return None;
            }
            i += 1;
        }
        let b0: u8 = bytes[24];
        let b1: u8 = bytes[25];
        let b2: u8 = bytes[26];
        let b3: u8 = bytes[27];
        let b4: u8 = bytes[28];
        let b5: u8 = bytes[29];
        let b6: u8 = bytes[30];
        let b7: u8 = bytes[31];
        let v: u64 = (b0 as u64) * 0x100000000000000 + (b1 as u64) * 0x1000000000000 + (b2
            as u64) * 0x10000000000 + (b3 as u64) * 0x100000000 + (b4 as u64) * 0x1000000 + (b5
            as u64) * 0x10000 + (b6 as u64) * 0x100 + (b7 as u64);
        proof {
            assert((v >> 56u64) as u8 == b0 && (v >> 48u64) as u8 == b1 && (v >> 40u64) as u8
                == b2 && (v >> 32u64) as u8 == b3 && (v >> 24u64) as u8 == b4 && (v >> 16u64)
                as u8 == b5 && (v >> 8u64) as u8 == b6 && (v >> 0u64) as u8 == b7)
                by (bit_vector)
                requires
                    v == (b0 as u64) * 0x100000000000000 + (b1 as u64) * 0x1000000000000 + (b2
                        as u64) * 0x10000000000 + (b3 as u64) * 0x100000000 + (b4 as u64)
                        * 0x1000000 + (b5 as u64) * 0x10000 + (b6 as u64) * 0x100 + (b7 as u64),
            ;
        }
        if v < GROUP_ORDER {
            proof {
                assert(bytes@ =~= point_encoding(v as int));
            }
            Some(Point::from_reduced(v))
        } else {
            proof {
                assert forall|p: int| 0 <= p < GROUP_ORDER implies bytes@ != point_encoding(
                    p,
                ) by {
                    assert_by_contradiction!(bytes@ != point_encoding(p), {
                        let z = p as u64;
                        assert(bytes@[24] == u64_be_byte(z, 0));
                        assert(bytes@[25] == u64_be_byte(z, 1));
                        assert(bytes@[26] == u64_be_byte(z, 2));
                        assert(bytes@[27] == u64_be_byte(z, 3));
                        assert(bytes@[28] == u64_be_byte(z, 4));
                        assert(bytes@[29] == u64_be_byte(z, 5));
                        assert(bytes@[30] == u64_be_byte(z, 6));
                        assert(bytes@[31] == u64_be_byte(z, 7));
                        assert(z == (b0 as u64) * 0x100000000000000 + (b1 as u64)
                            * 0x1000000000000 + (b2 as u64) * 0x10000000000 + (b3 as u64)
                            * 0x100000000 + (b4 as u64) * 0x1000000 + (b5 as u64) * 0x10000 + (
                        b6 as u64) * 0x100 + (b7 as u64)) by (bit_vector)
                            requires
                                (z >> 56u64) as u8 == b0,
                                (z >> 48u64) as u8 == b1,
                                (z >> 40u64) as u8 == b2,
                                (z >> 32u64) as u8 == b3,
                                (z >> 24u64) as u8 == b4,
                                (z >> 16u64) as u8 == b5,
                                (z >> 8u64) as u8 == b6,
                                (z >> 0u64) as u8 == b7,
                        ;
                    });
                }
            }
            None
        }
    }

    /// The injective base-field encoding of a group element: because every
    /// value held by this library lies in the prime-order subgroup, and the
    /// base field is larger than the group order, the residue itself is the
    /// "x-coordinate" and two distinct elements never share it.
    pub fn x_coord(&self) -> (r: Fr)
        ensures
            r@ == self@,
    {
        proof {
            use_type_invariant(&*self);
        }
        Fr { repr: self.repr }
    }
}

/// Canonical encodings are injective on the subgroup: two distinct group
/// elements never share their 32-byte encoding.
pub proof fn lemma_point_encoding_injective(p: int, q: int)
    requires
        0 <= p < GROUP_ORDER,
        0 <= q < GROUP_ORDER,
        p != q,
    ensures
        point_encoding(p) != point_encoding(q),
{
    let x = p as u64;
    let y = q as u64;
    assert_by_contradiction!(point_encoding(p) != point_encoding(q), {
        let e1 = point_encoding(p);
        let e2 = point_encoding(q);
        assert(e1[24] == u64_be_byte(x, 0) && e2[24] == u64_be_byte(y, 0));
        assert(e1[25] == u64_be_byte(x, 1) && e2[25] == u64_be_byte(y, 1));
        assert(e1[26] == u64_be_byte(x, 2) && e2[26] == u64_be_byte(y, 2));
        assert(e1[27] == u64_be_byte(x, 3) && e2[27] == u64_be_byte(y, 3));
        assert(e1[28] == u64_be_byte(x, 4) && e2[28] == u64_be_byte(y, 4));
        assert(e1[29] == u64_be_byte(x, 5) && e2[29] == u64_be_byte(y, 5));
        assert(e1[30] == u64_be_byte(x, 6) && e2[30] == u64_be_byte(y, 6));
        assert(e1[31] == u64_be_byte(x, 7) && e2[31] == u64_be_byte(y, 7));
        assert(x == y) by (bit_vector)
            requires
                (x >> 56u64) as u8 == (y >> 56u64) as u8,
                (x >> 48u64) as u8 == (y >> 48u64) as u8,
                (x >> 40u64) as u8 == (y >> 40u64) as u8,
                (x >> 32u64) as u8 == (y >> 32u64) as u8,
                (x >> 24u64) as u8 == (y >> 24u64) as u8,
                (x >> 16u64) as u8 == (y >> 16u64) as u8,
                (x >> 8u64) as u8 == (y >> 8u64) as u8,
                (x >> 0u64) as u8 == (y >> 0u64) as u8,
        ;
    });
}

} // verus!
