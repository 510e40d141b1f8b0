use sapling_crypto::group::{Fs, Params, Point, GROUP_ORDER};
use sapling_crypto::primitives::{Note, ValueCommitment};

#[test]
fn value_commitment_vector() {
    let params = Params::new();
    let vc = ValueCommitment { value: 5, randomness: Fs::from_u64(7) };
    assert_eq!(vc.cm(&params).as_u64(), 50);
}

#[test]
fn value_commitment_deterministic() {
    let params = Params::new();
    let vc = ValueCommitment { value: 123456789, randomness: Fs::from_u64(987654321) };
    assert_eq!(vc.cm(&params), vc.cm(&params));
}

#[test]
fn value_commitment_homomorphism() {
    let params = Params::new();
    let a = ValueCommitment { value: 10, randomness: Fs::from_u64(20) };
    let b = ValueCommitment { value: 30, randomness: Fs::from_u64(40) };
    let sum = a.cm(&params).add(&b.cm(&params), &params);
    let combined = ValueCommitment {
        value: 10 + 30,
        randomness: Fs::from_u64(20).add(&Fs::from_u64(40)),
    };
    assert_eq!(sum, combined.cm(&params));
    assert_eq!(sum.as_u64(), 420);
}

#[test]
fn uncommitted_is_one() {
    assert_eq!(Note::uncommitted().as_u64(), 1);
    assert_eq!(Note::uncommitted(), Note::uncommitted());
}

#[test]
fn note_commitment_vector_small() {
    let params = Params::new();
    let note = Note {
        value: 1,
        g_d: Point::from_u64(2),
        pk_d: Point::from_u64(3),
        r: Fs::from_u64(4),
    };
    assert_eq!(note.cm(&params).as_u64(), 1600117187662500083);
}

#[test]
fn note_commitment_deterministic() {
    let params = Params::new();
    let note = Note {
        value: 77,
        g_d: Point::from_u64(1234),
        pk_d: Point::from_u64(5678),
        r: Fs::from_u64(91011),
    };
    assert_eq!(note.cm(&params), note.cm(&params));
}

#[test]
fn note_commitments_distinct_across_notes() {
    let params = Params::new();
    let base = Note {
        value: 1000,
        g_d: Point::from_u64(2),
        pk_d: Point::from_u64(3),
        r: Fs::from_u64(4),
    };
    let variants = [
        Note { value: 1001, g_d: Point::from_u64(2), pk_d: Point::from_u64(3), r: Fs::from_u64(4) },
        Note { value: 1000, g_d: Point::from_u64(5), pk_d: Point::from_u64(3), r: Fs::from_u64(4) },
        Note { value: 1000, g_d: Point::from_u64(2), pk_d: Point::from_u64(9), r: Fs::from_u64(4) },
        Note { value: 1000, g_d: Point::from_u64(2), pk_d: Point::from_u64(3), r: Fs::from_u64(6) },
    ];
    let mut cms = vec![base.cm(&params).as_u64()];
    for n in variants.iter() {
        cms.push(n.cm(&params).as_u64());
    }
    for i in 0..cms.len() {
        for j in 0..cms.len() {
            if i != j {
                assert_ne!(cms[i], cms[j]);
            }
        }
    }
}

#[test]
fn value_commitment_largest_value() {
    let params = Params::new();
    let vc = ValueCommitment { value: u64::MAX, randomness: Fs::from_u64(GROUP_ORDER - 1) };
    assert_eq!(vc.cm(&params).as_u64(), 142);
}

#[test]
fn note_commitment_largest_value() {
    let params = Params::new();
    let note = Note {
        value: u64::MAX,
        g_d: Point::from_u64(2),
        pk_d: Point::from_u64(3),
        r: Fs::from_u64(4),
    };
    assert_eq!(note.cm(&params).as_u64(), 1624492187662500083);
}

#[test]
fn note_commitments_distinct_across_randomized_sample() {
    let params = Params::new();
    let mut cms = Vec::new();
    let mut state: u64 = 0x853c49e6748fea9b;
    let mut next = || {
        state = state.wrapping_mul(6364136223846793005).wrapping_add(1442695040888963407);
        state
    };
    for _ in 0..40 {
        let note = Note {
            value: next(),
            g_d: Point::from_u64(next()),
            pk_d: Point::from_u64(next()),
            r: Fs::from_u64(next()),
        };
        cms.push(note.cm(&params).as_u64());
    }
    for i in 0..cms.len() {
        for j in 0..cms.len() {
            if i != j {
                assert_ne!(cms[i], cms[j]);
            }
        }
    }
}

#[test]
fn scalar_field_reduces() {
    assert_eq!(Fs::from_u64(GROUP_ORDER).as_u64(), 0);
    assert_eq!(Fs::from_u64(GROUP_ORDER - 1).as_u64(), GROUP_ORDER - 1);
}
