use sapling_crypto::group::{Fs, Params, Point, GROUP_ORDER};
use sapling_crypto::primitives::{Diversifier, ProofGenerationKey};

fn defined_diversifier() -> Diversifier {
    Diversifier([7, 7, 7, 7, 7, 7, 7, 7, 7, 7, 2])
}

fn undefined_diversifier() -> Diversifier {
    Diversifier([7, 7, 7, 7, 7, 7, 7, 7, 7, 7, 0])
}

#[test]
fn viewing_key_consistency() {
    let params = Params::new();
    let pgk = ProofGenerationKey { ak: Point::from_u64(42), rsk: Fs::from_u64(99) };
    let vk = pgk.into_viewing_key(&params);
    assert_eq!(vk.ak, Point::from_u64(42));
    // rk = rsk * G_proof_gen = 99 * 7
    assert_eq!(vk.rk.as_u64(), 693);
}

#[test]
fn diversifier_base_defined() {
    let params = Params::new();
    let g_d = defined_diversifier().g_d(&params);
    assert!(g_d.is_some());
    assert_eq!(g_d.unwrap().as_u64(), 4170930708002837227);
}

#[test]
fn diversifier_base_undefined() {
    let params = Params::new();
    assert!(undefined_diversifier().g_d(&params).is_none());
}

#[test]
fn payment_address_defined() {
    let params = Params::new();
    let pgk = ProofGenerationKey { ak: Point::from_u64(42), rsk: Fs::from_u64(99) };
    let vk = pgk.into_viewing_key(&params);
    let addr = vk.into_payment_address(defined_diversifier(), &params);
    assert!(addr.is_some());
    let addr = addr.unwrap();
    assert_eq!(addr.pk_d.as_u64(), 1796415554235836651);
    assert!(addr.pk_d.as_u64() < GROUP_ORDER);
    assert_eq!(addr.diversifier.0, defined_diversifier().0);
}

#[test]
fn payment_address_absent_reports_none() {
    let params = Params::new();
    let pgk = ProofGenerationKey { ak: Point::from_u64(42), rsk: Fs::from_u64(99) };
    let vk = pgk.into_viewing_key(&params);
    assert!(vk.into_payment_address(undefined_diversifier(), &params).is_none());
}

#[test]
fn payment_address_deterministic() {
    let params = Params::new();
    let pgk = ProofGenerationKey { ak: Point::from_u64(42), rsk: Fs::from_u64(99) };
    let vk = pgk.into_viewing_key(&params);
    let a1 = vk.into_payment_address(defined_diversifier(), &params).unwrap();
    let a2 = vk.into_payment_address(defined_diversifier(), &params).unwrap();
    assert_eq!(a1.pk_d, a2.pk_d);
}

#[test]
fn create_note_bundles_address_fields() {
    let params = Params::new();
    let pgk = ProofGenerationKey { ak: Point::from_u64(42), rsk: Fs::from_u64(99) };
    let vk = pgk.into_viewing_key(&params);
    let addr = vk.into_payment_address(defined_diversifier(), &params).unwrap();
    let note = addr.create_note(1000, Fs::from_u64(77), &params);
    assert!(note.is_some());
    let note = note.unwrap();
    assert_eq!(note.value, 1000);
    assert_eq!(note.r, Fs::from_u64(77));
    assert_eq!(note.g_d.as_u64(), 4170930708002837227);
    assert_eq!(note.pk_d, addr.pk_d);
}

#[test]
fn create_note_fails_with_undefined_diversifier() {
    let params = Params::new();
    let pgk = ProofGenerationKey { ak: Point::from_u64(42), rsk: Fs::from_u64(99) };
    let vk = pgk.into_viewing_key(&params);
    let good = vk.into_payment_address(defined_diversifier(), &params).unwrap();
    // An address whose diversifier does not hash to a base cannot mint notes.
    let bad = sapling_crypto::primitives::PaymentAddress {
        pk_d: good.pk_d,
        diversifier: undefined_diversifier(),
    };
    assert!(bad.g_d(&params).is_none());
    assert!(bad.create_note(1, Fs::from_u64(1), &params).is_none());
}
