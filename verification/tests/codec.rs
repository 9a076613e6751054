use mint_zkp::circuit::{FixedBase, SynthesisStep};
use mint_zkp::keys::EphemeralKeyPair;
use mint_zkp::witness::{MintAsset, ProofGenerationKey, ReadError};

use sapling_crypto::constants::NULLIFIER_POSITION_GENERATOR;

fn fr(n: u64) -> jubjub::Fr {
    jubjub::Fr::from(n)
}

fn point(n: u64) -> jubjub::SubgroupPoint {
    NULLIFIER_POSITION_GENERATOR * fr(n)
}

#[test]
fn test_ephemeral_key_pair() {
    let key_pair = EphemeralKeyPair::new();

    assert_eq!(
        *key_pair.public(),
        NULLIFIER_POSITION_GENERATOR * *key_pair.secret()
    );

    // the getters expose the same state that the wire form serializes
    let bytes = key_pair.to_bytes_le();
    assert_eq!(&bytes[0..32], &key_pair.secret().to_bytes()[..]);
    let affine = jubjub::AffinePoint::from(jubjub::ExtendedPoint::from(*key_pair.public()));
    assert_eq!(&bytes[32..64], &affine.get_u().to_bytes()[..]);
    assert_eq!(&bytes[64..96], &affine.get_v().to_bytes()[..]);
}

#[test]
fn key_pair_round_trip() {
    let key_pair = EphemeralKeyPair::new();
    let bytes = key_pair.to_bytes_le();
    assert_eq!(bytes.len(), 192);

    let restored = EphemeralKeyPair::from_bytes_le(bytes);
    assert_eq!(restored.secret(), key_pair.secret());
    assert_eq!(restored.public(), key_pair.public());
    assert_eq!(
        *restored.public(),
        NULLIFIER_POSITION_GENERATOR * *restored.secret()
    );
}

#[test]
fn key_pair_extended_encoding_layout() {
    let key_pair = EphemeralKeyPair::new();
    let bytes = key_pair.to_bytes_le();
    // z = 1
    assert_eq!(bytes[96], 1);
    assert!(bytes[97..128].iter().all(|b| *b == 0));
    // t1 = u, t2 = v
    assert_eq!(bytes[128..160], bytes[32..64]);
    assert_eq!(bytes[160..192], bytes[64..96]);
}

#[test]
fn key_pair_rejects_short_buffer() {
    assert!(EphemeralKeyPair::try_from_bytes_le(vec![0u8; 100]).is_none());
}

#[test]
fn key_pair_rejects_non_canonical_secret() {
    assert!(EphemeralKeyPair::try_from_bytes_le(vec![0xffu8; 192]).is_none());
}

#[test]
fn witness_round_trip_all_flags() {
    let cases = [
        (None, None),
        (Some((5u64, 11u64)), None),
        (None, Some(13u64)),
        (Some((5u64, 11u64)), Some(13u64)),
    ];
    for (pgk, ar) in cases {
        let witness = MintAsset {
            proof_generation_key: pgk.map(|(a, n)| ProofGenerationKey {
                ak: point(a),
                nsk: fr(n),
            }),
            public_key_randomness: ar.map(fr),
        };
        let mut bytes = Vec::new();
        witness.write(&mut bytes);
        let restored = MintAsset::read(&bytes).expect("round trip must parse");
        match (&witness.proof_generation_key, &restored.proof_generation_key) {
            (None, None) => {}
            (Some(a), Some(b)) => {
                assert_eq!(a.ak, b.ak);
                assert_eq!(a.nsk, b.nsk);
            }
            _ => panic!("presence flag changed"),
        }
        assert_eq!(witness.public_key_randomness, restored.public_key_randomness);
    }
}

#[test]
fn witness_wire_layout() {
    let witness = MintAsset {
        proof_generation_key: Some(ProofGenerationKey {
            ak: point(5),
            nsk: fr(11),
        }),
        public_key_randomness: Some(fr(13)),
    };
    let mut bytes = Vec::new();
    witness.write(&mut bytes);
    assert_eq!(bytes.len(), 98);
    assert_eq!(bytes[0], 1);
    assert_eq!(bytes[65], 1);
    assert_eq!(&bytes[1..33], &group::GroupEncoding::to_bytes(&point(5))[..]);
    assert_eq!(&bytes[33..65], &fr(11).to_bytes()[..]);
    assert_eq!(&bytes[66..98], &fr(13).to_bytes()[..]);

    let absent = MintAsset {
        proof_generation_key: None,
        public_key_randomness: None,
    };
    let mut bytes = Vec::new();
    absent.write(&mut bytes);
    assert_eq!(bytes, vec![0u8, 0u8]);
}

#[test]
fn witness_read_errors() {
    assert!(matches!(MintAsset::read(&[]), Err(ReadError::UnexpectedEnd)));
    assert!(matches!(MintAsset::read(&[1u8]), Err(ReadError::UnexpectedEnd)));
    assert!(matches!(MintAsset::read(&[0u8]), Err(ReadError::UnexpectedEnd)));

    let mut bad_point = vec![1u8];
    bad_point.extend([0xffu8; 64]);
    assert!(matches!(MintAsset::read(&bad_point), Err(ReadError::InvalidPoint)));

    let mut bad_scalar = vec![1u8];
    bad_scalar.extend(group::GroupEncoding::to_bytes(&point(5)));
    bad_scalar.extend([0xffu8; 32]);
    assert!(matches!(MintAsset::read(&bad_scalar), Err(ReadError::InvalidScalar)));

    let mut bad_ar = vec![0u8, 1u8];
    bad_ar.extend([0xffu8; 32]);
    assert!(matches!(MintAsset::read(&bad_ar), Err(ReadError::InvalidScalar)));
}

#[test]
fn witness_read_ignores_trailing_bytes() {
    let parsed = MintAsset::read(&[0u8, 0u8, 99u8, 7u8]).expect("trailing bytes are ignored");
    assert!(parsed.proof_generation_key.is_none());
    assert!(parsed.public_key_randomness.is_none());
}

#[test]
fn witness_read_treats_other_tags_as_absent() {
    let parsed = MintAsset::read(&[7u8, 0u8]).expect("a non-1 presence byte means absent");
    assert!(parsed.proof_generation_key.is_none());
}

#[test]
fn synthesis_schedule_order() {
    let witness = MintAsset {
        proof_generation_key: Some(ProofGenerationKey {
            ak: point(5),
            nsk: fr(11),
        }),
        public_key_randomness: Some(fr(13)),
    };
    let steps = witness.synthesis_steps();
    assert_eq!(steps.len(), 14);
    assert!(matches!(steps[0], SynthesisStep::WitnessAk { ak: Some(_) }));
    assert!(matches!(steps[1], SynthesisStep::AssertAkNotSmallOrder));
    assert!(matches!(
        steps[2],
        SynthesisStep::DecomposeScalarLe {
            value: Some(_),
            bits: 252
        }
    ));
    assert!(matches!(
        steps[3],
        SynthesisStep::MulFixed {
            base: FixedBase::SpendingKey
        }
    ));
    assert!(matches!(steps[4], SynthesisStep::AddLastToAk));
    assert!(matches!(steps[5], SynthesisStep::ExposeLastPoint));
    assert!(matches!(
        steps[6],
        SynthesisStep::DecomposeScalarLe {
            value: Some(_),
            bits: 252
        }
    ));
    assert!(matches!(
        steps[7],
        SynthesisStep::MulFixed {
            base: FixedBase::ProofGenerationKey
        }
    ));
    assert!(matches!(steps[8], SynthesisStep::ReprAk));
    assert!(matches!(steps[9], SynthesisStep::ReprLastPoint));
    assert!(matches!(
        steps[10],
        SynthesisStep::HashToIvk { preimage_bits: 512 }
    ));
    assert!(matches!(
        steps[11],
        SynthesisStep::TruncateIvk { keep_bits: 251 }
    ));
    assert!(matches!(
        steps[12],
        SynthesisStep::MulFixed {
            base: FixedBase::PublicKey
        }
    ));
    assert!(matches!(steps[13], SynthesisStep::ExposeLastPoint));
}

#[test]
fn synthesis_schedule_shape_is_witness_independent() {
    let absent = MintAsset {
        proof_generation_key: None,
        public_key_randomness: None,
    };
    let steps = absent.synthesis_steps();
    assert_eq!(steps.len(), 14);
    assert!(matches!(steps[0], SynthesisStep::WitnessAk { ak: None }));
    assert!(matches!(
        steps[2],
        SynthesisStep::DecomposeScalarLe { value: None, bits: 252 }
    ));
    assert!(matches!(
        steps[6],
        SynthesisStep::DecomposeScalarLe { value: None, bits: 252 }
    ));
}

#[test]
fn witness_reserialization_is_stable() {
    let witness = MintAsset {
        proof_generation_key: Some(ProofGenerationKey {
            ak: point(5),
            nsk: fr(11),
        }),
        public_key_randomness: Some(fr(13)),
    };
    let mut bytes = Vec::new();
    witness.write(&mut bytes);
    let restored = MintAsset::read(&bytes).unwrap();
    let mut again = Vec::new();
    restored.write(&mut again);
    assert_eq!(bytes, again);
}
