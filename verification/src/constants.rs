//! Domain-separation tags.
//!
//! Each hash in the protocol is keyed by a fixed 8-byte personalization tag
//! dedicated to its purpose, so that outputs computed for different purposes
//! can never collide even on identical raw input.

use vstd::prelude::*;

verus! {

/// Tag of the pseudorandom function that derives the incoming viewing
/// scalar from the serialized `(ak, rk)` pair.
pub open spec fn crh_ivk_tag() -> Seq<u8> {
    seq![105u8, 118u8, 107u8, 95u8, 104u8, 97u8, 115u8, 104u8]
}

/// The executable form of [`crh_ivk_tag`].
pub fn crh_ivk_personalization() -> (r: [u8; 8])
    ensures
        r@ == crh_ivk_tag(),
{
    let r: [u8; 8] = [105u8, 118u8, 107u8, 95u8, 104u8, 97u8, 115u8, 104u8];
    proof {
        assert(r@ =~= crh_ivk_tag());
    }
    r
}

/// Tag of the pseudorandom function that derives the nullifier scalar from
/// the serialized `(rk, cm + position)` pair.
pub open spec fn prf_nr_tag() -> Seq<u8> {
    seq![110u8, 114u8, 95u8, 95u8, 104u8, 97u8, 115u8, 104u8]
}

/// The executable form of [`prf_nr_tag`].
pub fn prf_nr_personalization() -> (r: [u8; 8])
    ensures
        r@ == prf_nr_tag(),
{
    let r: [u8; 8] = [110u8, 114u8, 95u8, 95u8, 104u8, 97u8, 115u8, 104u8];
    proof {
        assert(r@ =~= prf_nr_tag());
    }
    r
}

/// Tag of the hash-to-group map that turns a diversifier into a
/// diversified base point.
pub open spec fn key_diversification_tag() -> Seq<u8> {
    seq![103u8, 100u8, 95u8, 95u8, 104u8, 97u8, 115u8, 104u8]
}

/// The executable form of [`key_diversification_tag`].
pub fn key_diversification_personalization() -> (r: [u8; 8])
    ensures
        r@ == key_diversification_tag(),
{
    let r: [u8; 8] = [103u8, 100u8, 95u8, 95u8, 104u8, 97u8, 115u8, 104u8];
    proof {
        assert(r@ =~= key_diversification_tag());
    }
    r
}

} // verus!
