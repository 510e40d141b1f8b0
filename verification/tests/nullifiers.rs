use sapling_crypto::group::{Fs, Params, Point};
use sapling_crypto::primitives::{Diversifier, Note, ProofGenerationKey, ViewingKey};

fn scenario(params: &Params) -> (ViewingKey, Note) {
    let pgk = ProofGenerationKey { ak: Point::from_u64(42), rsk: Fs::from_u64(99) };
    let vk = pgk.into_viewing_key(params);
    let diversifier = Diversifier([7, 7, 7, 7, 7, 7, 7, 7, 7, 7, 2]);
    let addr = vk.into_payment_address(diversifier, params).unwrap();
    let note = addr.create_note(1000, Fs::from_u64(77), params).unwrap();
    (vk, note)
}

#[test]
fn known_scenario_commitment_and_nullifier() {
    let params = Params::new();
    let (vk, note) = scenario(&params);
    assert_eq!(note.cm(&params).as_u64(), 3288652418283736052);
    assert_eq!(note.nf(&vk, 0, &params).as_u64(), 1089399472057770177);
    assert_eq!(note.nf(&vk, 1, &params).as_u64(), 6303985845521102560);
}

#[test]
fn nullifiers_differ_across_positions() {
    let params = Params::new();
    let (vk, note) = scenario(&params);
    let n0 = note.nf(&vk, 0, &params);
    let n1 = note.nf(&vk, 1, &params);
    assert_ne!(n0, n1);
    let n7 = note.nf(&vk, 7, &params);
    assert_ne!(n0, n7);
    assert_ne!(n1, n7);
}

#[test]
fn nullifier_largest_position() {
    let params = Params::new();
    let pgk = ProofGenerationKey { ak: Point::from_u64(42), rsk: Fs::from_u64(99) };
    let vk = pgk.into_viewing_key(&params);
    let note = Note {
        value: u64::MAX,
        g_d: Point::from_u64(2),
        pk_d: Point::from_u64(3),
        r: Fs::from_u64(4),
    };
    assert_eq!(note.nf(&vk, u64::MAX, &params).as_u64(), 923067675510444854);
}

#[test]
fn nullifier_deterministic() {
    let params = Params::new();
    let (vk, note) = scenario(&params);
    assert_eq!(note.nf(&vk, 5, &params), note.nf(&vk, 5, &params));
}
