//! The note/key/commitment algebra.
//!
//! Value commitments, the key-derivation chain (proof generation key →
//! viewing key → diversified payment address), note commitments and
//! nullifier derivation.  Every operation is a pure, deterministic function
//! of its inputs and the read-only parameter set: each contract below pins
//! the result to a specification-level model of the inputs alone.

use vstd::prelude::*;
use vstd::arithmetic::div_mod::{
    lemma_add_mod_noop, lemma_mul_mod_noop_left, lemma_small_mod, lemma_mod_equivalence,
    lemma_mod_bound,
};
use vstd::assert_by_contradiction;
use crate::codec::{u64_be_bytes, bits_of_bytes, u64_to_be_vec, to_bits};
use crate::constants::{
    crh_ivk_tag, crh_ivk_personalization, prf_nr_tag, prf_nr_personalization,
    key_diversification_tag, key_diversification_personalization,
};
use crate::group::{
    Fs, Fr, Point, Params, FixedGenerators, GROUP_ORDER, BASE_FIELD_MODULUS,
    VALUE_COMMITMENT_VALUE_GENERATOR, VALUE_COMMITMENT_RANDOMNESS_GENERATOR,
    PROOF_GENERATION_KEY_GENERATOR, NOTE_COMMITMENT_RANDOMNESS_GENERATOR,
    NULLIFIER_POSITION_GENERATOR, group_add_model, group_scale_model, point_encoding,
    lemma_point_encoding_injective,
};
use crate::group_hash::{group_hash, group_hash_model};
use crate::pedersen_hash::{Personalization, pedersen_model, pedersen_hash};
use crate::prf::{blake2s_of, masked_scalar_of, hash_to_scalar};

verus! {

/// The value commitment a value and a randomness scalar determine:
/// `value · G_value + randomness · G_vc_rand`.
pub open spec fn value_commit_model(value: int, randomness: int) -> int {
    group_add_model(
        group_scale_model(value, VALUE_COMMITMENT_VALUE_GENERATOR as int),
        group_scale_model(randomness, VALUE_COMMITMENT_RANDOMNESS_GENERATOR as int),
    )
}

/// The incoming viewing scalar of a viewing key: the masked PRF digest of
/// the 64-byte serialization of `ak` followed by `rk`.
pub open spec fn ivk_model(ak: int, rk: int) -> int {
    masked_scalar_of(blake2s_of(crh_ivk_tag(), point_encoding(ak) + point_encoding(rk)))
}

/// The diversified base a diversifier hashes to, if any.
pub open spec fn diversifier_base_model(d: Seq<u8>) -> Option<int> {
    group_hash_model(key_diversification_tag(), d)
}

/// The public key of the payment address a viewing key and a diversifier
/// derive: `g_d · ivk`, absent exactly when `g_d` is undefined.
pub open spec fn payment_address_model(ak: int, rk: int, d: Seq<u8>) -> Option<int> {
    match diversifier_base_model(d) {
        Some(g) => Some(group_scale_model(ivk_model(ak, rk), g)),
        None => None,
    }
}

/// The 72-byte serialization of a note's contents: the value as eight
/// big-endian bytes, then the fixed 32-byte encodings of `g_d` and `pk_d`.
pub open spec fn note_contents_bytes(value: u64, g_d: int, pk_d: int) -> Seq<u8> {
    u64_be_bytes(value) + point_encoding(g_d) + point_encoding(pk_d)
}

/// The full note commitment point: `r · G_note_rand` plus the Pedersen
/// hash of the note contents expanded to bits, most significant bit first.
pub open spec fn note_commit_model(value: u64, g_d: int, pk_d: int, rcm: int) -> int {
    group_add_model(
        group_scale_model(rcm, NOTE_COMMITMENT_RANDOMNESS_GENERATOR as int),
        pedersen_model(
            Personalization::NoteCommitment,
            bits_of_bytes(note_contents_bytes(value, g_d, pk_d)),
        ),
    )
}

/// The 64-byte preimage of the nullifier PRF: the encodings of `rk` and of
/// the position-blinded commitment.
pub open spec fn nullifier_preimage(rk: int, cm_plus_position: int) -> Seq<u8> {
    point_encoding(rk) + point_encoding(cm_plus_position)
}

/// The nullifier of a note at a position under a viewing key:
/// `ak · nr`, where `nr` is the masked PRF digest of the preimage above.
pub open spec fn nullifier_model(
    value: u64,
    g_d: int,
    pk_d: int,
    rcm: int,
    ak: int,
    rk: int,
    position: u64,
) -> int {
    let cm_plus_position = group_add_model(
        note_commit_model(value, g_d, pk_d, rcm),
        group_scale_model(position as int, NULLIFIER_POSITION_GENERATOR as int),
    );
    group_scale_model(
        masked_scalar_of(blake2s_of(prf_nr_tag(), nullifier_preimage(rk, cm_plus_position))),
        ak,
    )
}

/// Homomorphic commitment to a 64-bit value.
#[derive(Clone)]
pub struct ValueCommitment {
    pub value: u64,
    pub randomness: Fs,
}

impl ValueCommitment {
    /// The commitment: `value · G_value + randomness · G_vc_rand`, with the
    /// value acting as a plain 64-bit integer exponent.
    pub fn cm(&self, params: &Params) -> (r: Point)
        ensures
            r@ == value_commit_model(self.value as int, self.randomness@),
    {
        params.generator(FixedGenerators::ValueCommitmentValue).mul_u64(self.value, params).add(
            &params.generator(FixedGenerators::ValueCommitmentRandomness).mul(
                &self.randomness,
                params,
            ),
            params,
        )
    }
}

/// The key a prover holds: the spend-authorizing point `ak` and the
/// proof-authorizing scalar `rsk`.
#[derive(Clone)]
pub struct ProofGenerationKey {
    pub ak: Point,
    pub rsk: Fs,
}

impl ProofGenerationKey {
    /// Derives the viewing key: `ak` passes through unchanged and
    /// `rk = rsk · G_proof_gen`.  Pure and total.
    pub fn into_viewing_key(&self, params: &Params) -> (r: ViewingKey)
        ensures
            r.ak@ == self.ak@,
            r.rk@ == group_scale_model(self.rsk@, PROOF_GENERATION_KEY_GENERATOR as int),
    {
        ViewingKey {
            ak: self.ak,
            rk: params.generator(FixedGenerators::ProofGenerationKey).mul(&self.rsk, params),
        }
    }
}

/// The key that can detect incoming notes: `ak` and the randomized
/// verification point `rk`.
pub struct ViewingKey {
    pub ak: Point,
    pub rk: Point,
}

impl ViewingKey {
    /// Derives the incoming viewing scalar: hash the 64-byte serialization
    /// of `ak` then `rk` under the dedicated tag and mask the digest down
    /// to a scalar.  The decode never fails; the masked value is proved
    /// canonical.
    fn ivk(&self) -> (r: Fs)
        ensures
            r@ == ivk_model(self.ak@, self.rk@),
    {
        let mut preimage = self.ak.encode();
        let mut rk_bytes = self.rk.encode();
        preimage.append(&mut rk_bytes);
        assert(preimage@.len() == 64);
        let tag = crh_ivk_personalization();
        hash_to_scalar(&tag, &preimage)
    }

    /// Derives the payment address for a diversifier: fails exactly when
    /// the diversifier's base is undefined; otherwise the address holds
    /// `pk_d = g_d · ivk`, which always lies in the prime-order subgroup.
    pub fn into_payment_address(&self, diversifier: Diversifier, params: &Params) -> (r: Option<
        PaymentAddress,
    >)
        ensures
            (match r {
                Some(addr) => {
                    &&& payment_address_model(self.ak@, self.rk@, diversifier@) == Some(
                        addr.pk_d@,
                    )
                    &&& addr.diversifier@ == diversifier@
                    &&& 0 <= addr.pk_d@ < GROUP_ORDER
                },
                None => payment_address_model(self.ak@, self.rk@, diversifier@) is None,
            }),
    {
        match diversifier.g_d(params) {
            Some(g_d) => {
                let ivk = self.ivk();
                let pk_d = g_d.mul(&ivk, params);
                proof {
                    lemma_mod_bound(ivk@ * g_d@, GROUP_ORDER as int);
                }
                Some(PaymentAddress { pk_d, diversifier })
            },
            None => None,
        }
    }
}

/// An 11-byte diversifier; it may or may not hash to a diversified base.
#[derive(Clone, Copy)]
pub struct Diversifier(pub [u8; 11]);

impl View for Diversifier {
    type V = Seq<u8>;

    open spec fn view(&self) -> Seq<u8> {
        self.0@
    }
}

impl Diversifier {
    /// The diversified base this diversifier hashes to, if any.  Absence
    /// is an expected outcome: callers retry with a different diversifier.
    pub fn g_d(&self, params: &Params) -> (r: Option<Point>)
        ensures
            (match r {
                Some(p) => diversifier_base_model(self@) == Some(p@) && 0 <= p@ < GROUP_ORDER,
                None => diversifier_base_model(self@) is None,
            }),
    {
        let mut input: Vec<u8> = Vec::new();
        let mut i: usize = 0;
        while i < 11
            invariant
                i <= 11,
                input@ == self.0@.subrange(0, i as int),
            decreases 11 - i,
        {
            input.push(self.0[i]);
            proof {
                assert(input@ =~= self.0@.subrange(0, i + 1));
            }
            i += 1;
        }
        proof {
            assert(self.0@.subrange(0, 11) =~= self.0@);
        }
        let tag = key_diversification_personalization();
        group_hash(&tag, &input, params)
    }
}

/// A diversified payment address: the public key `pk_d` and the
/// diversifier it was derived from.
#[derive(Clone)]
pub struct PaymentAddress {
    pub pk_d: Point,
    pub diversifier: Diversifier,
}

impl PaymentAddress {
    /// Recomputes the diversified base of this address's diversifier.
    pub fn g_d(&self, params: &Params) -> (r: Option<Point>)
        ensures
            (match r {
                Some(p) => diversifier_base_model(self.diversifier@) == Some(p@) && 0 <= p@
                    < GROUP_ORDER,
                None => diversifier_base_model(self.diversifier@) is None,
            }),
    {
        self.diversifier.g_d(params)
    }

    /// Bundles a value and a commitment randomness into a note; fails
    /// under the same condition as the diversified base.
    pub fn create_note(&self, value: u64, randomness: Fs, params: &Params) -> (r: Option<Note>)
        ensures
            (match r {
                Some(note) => {
                    &&& diversifier_base_model(self.diversifier@) == Some(note.g_d@)
                    &&& note.value == value
                    &&& note.r@ == randomness@
                    &&& note.pk_d@ == self.pk_d@
                },
                None => diversifier_base_model(self.diversifier@) is None,
            }),
    {
        match self.g_d(params) {
            Some(g_d) => Some(
                Note { value, r: randomness, g_d, pk_d: self.pk_d },
            ),
            None => None,
        }
    }
}

/// A spendable unit of value.  Its commitment and nullifier are recomputed
/// on demand from these fields and are never cached.
pub struct Note {
    /// The value of the note.
    pub value: u64,
    /// The diversified base of the address.
    pub g_d: Point,
    /// The public key of the address, `g_d · ivk`.
    pub pk_d: Point,
    /// The commitment randomness.
    pub r: Fs,
}

impl Note {
    /// The canonical "empty leaf" marker for an external commitment
    /// accumulator: always the base-field element 1, independent of any
    /// parameters.
    pub fn uncommitted() -> (r: Fr)
        ensures
            r@ == 1,
    {
        proof {
            lemma_small_mod(1nat, BASE_FIELD_MODULUS as nat);
        }
        Fr::from_u64(1)
    }

    /// Computes the note commitment, returning the full group element.
    fn cm_full_point(&self, params: &Params) -> (r: Point)
        ensures
            r@ == note_commit_model(self.value, self.g_d@, self.pk_d@, self.r@),
    {
        let mut note_contents = u64_to_be_vec(self.value);
        let mut g_d_bytes = self.g_d.encode();
        let mut pk_d_bytes = self.pk_d.encode();
        note_contents.append(&mut g_d_bytes);
        note_contents.append(&mut pk_d_bytes);
        assert(note_contents@.len() == 32 + 32 + 8);
        let bits = to_bits(&note_contents);
        let hash_of_contents = pedersen_hash(Personalization::NoteCommitment, &bits, params);
        params.generator(FixedGenerators::NoteCommitmentRandomness).mul(&self.r, params).add(
            &hash_of_contents,
            params,
        )
    }

    /// Computes the nullifier for this note under a viewing key at a
    /// position: the commitment is blinded by `position · G_null_pos` in
    /// the group, the result is serialized after `rk`, hashed under the
    /// dedicated tag, masked to a scalar `nr`, and the nullifier is
    /// `ak · nr`.
    pub fn nf(&self, viewing_key: &ViewingKey, position: u64, params: &Params) -> (r: Point)
        ensures
            r@ == nullifier_model(
                self.value,
                self.g_d@,
                self.pk_d@,
                self.r@,
                viewing_key.ak@,
                viewing_key.rk@,
                position,
            ),
    {
        let cm_plus_position = self.cm_full_point(params).add(
            &params.generator(FixedGenerators::NullifierPosition).mul_u64(position, params),
            params,
        );
        let mut nr_preimage = viewing_key.rk.encode();
        let mut cm_bytes = cm_plus_position.encode();
        nr_preimage.append(&mut cm_bytes);
        assert(nr_preimage@.len() == 64);
        let tag = prf_nr_personalization();
        let nr = hash_to_scalar(&tag, &nr_preimage);
        viewing_key.ak.mul(&nr, params)
    }

    /// Computes the note commitment: the base-field x-coordinate of the
    /// full commitment point.  The truncation is injective because the
    /// point lies in the prime-order subgroup.
    pub fn cm(&self, params: &Params) -> (r: Fr)
        ensures
            r@ == note_commit_model(self.value, self.g_d@, self.pk_d@, self.r@),
    {
        self.cm_full_point(params).x_coord()
    }
}

/// Homomorphism of value commitments: the commitments to `(v1, r1)` and
/// `(v2, r2)` add, in the group, to the commitment to `(v1 + v2, r1 + r2)`,
/// the values adding as plain integers and the randomness in the scalar
/// field.
pub proof fn lemma_value_commitment_homomorphism(v1: int, r1: int, v2: int, r2: int)
    requires
        0 <= v1,
        0 <= v2,
        0 <= r1 < GROUP_ORDER,
        0 <= r2 < GROUP_ORDER,
    ensures
        group_add_model(value_commit_model(v1, r1), value_commit_model(v2, r2))
            == value_commit_model(v1 + v2, group_add_model(r1, r2)),
{
    let m = GROUP_ORDER as int;
    let gv = VALUE_COMMITMENT_VALUE_GENERATOR as int;
    let gr = VALUE_COMMITMENT_RANDOMNESS_GENERATOR as int;
    let a1 = v1 * gv;
    let b1 = r1 * gr;
    let a2 = v2 * gv;
    let b2 = r2 * gr;
    lemma_add_mod_noop(a1, b1, m);
    lemma_add_mod_noop(a2, b2, m);
    lemma_add_mod_noop(a1 + b1, a2 + b2, m);
    assert((v1 + v2) * gv == a1 + a2) by (nonlinear_arith)
        requires
            a1 == v1 * gv,
            a2 == v2 * gv,
    ;
    assert((r1 + r2) * gr == b1 + b2) by (nonlinear_arith)
        requires
            b1 == r1 * gr,
            b2 == r2 * gr,
    ;
    lemma_mul_mod_noop_left(r1 + r2, gr, m);
    lemma_add_mod_noop((v1 + v2) * gv, (r1 + r2) * gr, m);
}

/// Position-distinctness of nullifier derivation: a fixed note commitment,
/// blinded at two positions that differ as group residues, yields two
/// different blinded points and hence two different preimages for the
/// nullifier PRF.  That the PRF outputs themselves differ rests on the
/// collision resistance of the outside hash, which no contract here
/// states.
pub proof fn lemma_nullifier_preimages_distinct(cm: int, rk: int, p1: u64, p2: u64)
    requires
        0 <= cm < GROUP_ORDER,
        p1 < GROUP_ORDER,
        p2 < GROUP_ORDER,
        p1 != p2,
    ensures
        ({
            let c1 = group_add_model(
                cm,
                group_scale_model(p1 as int, NULLIFIER_POSITION_GENERATOR as int),
            );
            let c2 = group_add_model(
                cm,
                group_scale_model(p2 as int, NULLIFIER_POSITION_GENERATOR as int),
            );
            &&& c1 != c2
            &&& nullifier_preimage(rk, c1) != nullifier_preimage(rk, c2)
        }),
{
    let m = GROUP_ORDER as int;
    lemma_small_mod(p1 as nat, GROUP_ORDER as nat);
    lemma_small_mod(p2 as nat, GROUP_ORDER as nat);
    let c1 = group_add_model(cm, group_scale_model(p1 as int, NULLIFIER_POSITION_GENERATOR as int));
    let c2 = group_add_model(cm, group_scale_model(p2 as int, NULLIFIER_POSITION_GENERATOR as int));
    assert(c1 == (cm + p1) % m);
    assert(c2 == (cm + p2) % m);
    lemma_mod_equivalence(cm + p1, cm + p2, m);
    if p1 > p2 {
        lemma_small_mod((p1 - p2) as nat, GROUP_ORDER as nat);
    } else {
        lemma_mod_equivalence(cm + p2, cm + p1, m);
        lemma_small_mod((p2 - p1) as nat, GROUP_ORDER as nat);
    }
    assert(c1 != c2);
    lemma_mod_bound(cm + p1, m);
    lemma_mod_bound(cm + p2, m);
    lemma_point_encoding_injective(c1, c2);
    let e1 = nullifier_preimage(rk, c1);
    let e2 = nullifier_preimage(rk, c2);
    assert_by_contradiction!(e1 != e2, {
        assert(point_encoding(c1) =~= point_encoding(c2)) by {
            assert forall|i: int| 0 <= i < 32 implies point_encoding(c1)[i] == point_encoding(
                c2,
            )[i] by {
                assert(e1[32 + i] == point_encoding(c1)[i]);
                assert(e2[32 + i] == point_encoding(c2)[i]);
            }
        }
    });
}

} // verus!
