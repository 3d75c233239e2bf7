use lnpbp::commit_verify::CommitEmbedVerify;
use lnpbp::dbc::pubkey::PubkeyCommitment;
use lnpbp::dbc::taproot::{TaprootCommitment, TaprootContainer};
use lnpbp::dbc::types::{bytes_equal, Container, Error, Proof, ProofSuppl, PublicKey, RedeemScript};

// The generator of secp256k1, compressed.
const K: [u8; 33] = [
    0x02, 0x79, 0xbe, 0x66, 0x7e, 0xf9, 0xdc, 0xbb, 0xac, 0x55, 0xa0, 0x62, 0x95, 0xce, 0x87, 0x0b,
    0x07, 0x02, 0x9b, 0xfc, 0xdb, 0x2d, 0xce, 0x28, 0xd9, 0x59, 0xf2, 0x81, 0x5b, 0x16, 0xf8, 0x17,
    0x98,
];

// SHA-256 of "test-script-tree".
const R: [u8; 32] = [
    0x22, 0xb2, 0xcd, 0xba, 0x2d, 0xf0, 0x5d, 0xe1, 0x5d, 0xd0, 0xdf, 0x41, 0xe1, 0x61, 0xaf, 0x78,
    0x13, 0xa0, 0xe9, 0xb4, 0xca, 0x32, 0x2d, 0x54, 0xd0, 0x1c, 0xfd, 0x48, 0xb9, 0xa3, 0x1a, 0x98,
];

// G + HMAC-SHA256(K, "contract-v1") * G, compressed.
const K_CONTRACT_V1: [u8; 33] = [
    0x02, 0x70, 0x67, 0x8f, 0xa2, 0x9d, 0xc5, 0x0f, 0x5f, 0x9f, 0x54, 0x03, 0x93, 0xa1, 0xa0, 0xf0,
    0x18, 0x71, 0x0c, 0xb5, 0xd7, 0x46, 0x0b, 0x5d, 0x9b, 0x33, 0xff, 0xae, 0x6c, 0x23, 0x62, 0xbd,
    0x16,
];

// G + HMAC-SHA256(K, "") * G, compressed.
const K_EMPTY: [u8; 33] = [
    0x02, 0xa4, 0xb6, 0x86, 0xff, 0x0e, 0x62, 0xf4, 0xac, 0x76, 0xd0, 0x4c, 0x7d, 0xee, 0xdb, 0xfa,
    0x6e, 0x5e, 0x70, 0x23, 0xa1, 0x16, 0x95, 0x2e, 0x0e, 0x79, 0x6e, 0x0d, 0x5b, 0x77, 0xf7, 0x77,
    0x28,
];

fn key() -> PublicKey {
    PublicKey { bytes: K }
}

fn container() -> TaprootContainer {
    TaprootContainer { script_root: R, intermediate_key: key() }
}

// x = 5 is the abscissa of no point of the curve.
fn off_curve_key() -> PublicKey {
    let mut bytes = [0u8; 33];
    bytes[0] = 0x02;
    bytes[32] = 0x05;
    PublicKey { bytes }
}

#[test]
fn script_root_constant_is_the_digest() {
    let digest: bitcoin::hashes::sha256::Hash = bitcoin::hashes::Hash::hash(b"test-script-tree");
    assert_eq!(bitcoin::hashes::Hash::to_byte_array(digest), R);
}

#[test]
fn taproot_commit_then_proof_then_restore() {
    let untouched = container();
    let commitment = TaprootCommitment::commit_embed(untouched, b"contract-v1").unwrap();
    assert_eq!(commitment.script_root, R);
    let proof = untouched.to_proof();
    assert_eq!(proof, Proof { pubkey: key(), suppl: ProofSuppl::Taproot(R) });
    let restored = TaprootContainer::restore(&proof, &None, &None).unwrap();
    assert_eq!(restored, untouched);
}

#[test]
fn restore_refuses_absent_supplement() {
    let proof = Proof { pubkey: key(), suppl: ProofSuppl::Absent };
    let contexts = [None, Some(())];
    for supplement in contexts.iter() {
        for commitment in contexts.iter() {
            assert_eq!(
                TaprootContainer::restore(&proof, supplement, commitment),
                Err(Error::InvalidProofSupplement)
            );
        }
    }
}

#[test]
fn restore_refuses_redeem_script_supplement() {
    let script = RedeemScript { bytes: vec![0x51, 0x87] };
    let proof = Proof { pubkey: key(), suppl: ProofSuppl::RedeemScript(script) };
    assert_eq!(
        TaprootContainer::restore(&proof, &None, &None),
        Err(Error::InvalidProofSupplement)
    );
    let empty = Proof {
        pubkey: key(),
        suppl: ProofSuppl::RedeemScript(RedeemScript { bytes: Vec::new() }),
    };
    assert_eq!(
        TaprootContainer::restore(&empty, &Some(()), &None),
        Err(Error::InvalidProofSupplement)
    );
}

#[test]
fn restore_takes_key_and_root_from_proof() {
    let proof = Proof { pubkey: off_curve_key(), suppl: ProofSuppl::Taproot([7u8; 32]) };
    let restored = TaprootContainer::restore(&proof, &Some(()), &Some(())).unwrap();
    assert_eq!(restored.script_root, [7u8; 32]);
    assert_eq!(restored.intermediate_key, off_curve_key());
    assert_eq!(restored.to_proof(), proof);
}

#[test]
fn restore_of_to_proof_is_identity() {
    let roots = [[0u8; 32], R, [0xffu8; 32]];
    let keys = [key(), off_curve_key(), PublicKey { bytes: K_EMPTY }];
    for root in roots.iter() {
        for k in keys.iter() {
            let c = TaprootContainer { script_root: *root, intermediate_key: *k };
            assert_eq!(TaprootContainer::restore(&c.to_proof(), &None, &None), Ok(c));
        }
    }
}

#[test]
fn pubkey_commitment_exact_value() {
    let commitment = PubkeyCommitment::commit_embed(key(), b"contract-v1").unwrap();
    assert_eq!(commitment.tweaked.bytes, K_CONTRACT_V1);
    let empty = PubkeyCommitment::commit_embed(key(), b"").unwrap();
    assert_eq!(empty.tweaked.bytes, K_EMPTY);
}

#[test]
fn pubkey_commitment_matches_curve_library() {
    let msg = b"another message";
    let mut engine = bitcoin::hashes::HmacEngine::<bitcoin::hashes::sha256::Hash>::new(&K);
    bitcoin::hashes::HashEngine::input(&mut engine, msg);
    let code: bitcoin::hashes::Hmac<bitcoin::hashes::sha256::Hash> =
        bitcoin::hashes::Hash::from_engine(engine);
    let scalar =
        bitcoin::secp256k1::Scalar::from_be_bytes(bitcoin::hashes::Hash::to_byte_array(code))
            .unwrap();
    let ctx = bitcoin::secp256k1::Secp256k1::new();
    let expected = bitcoin::secp256k1::PublicKey::from_slice(&K)
        .unwrap()
        .add_exp_tweak(&ctx, &scalar)
        .unwrap()
        .serialize();
    let commitment = PubkeyCommitment::commit_embed(key(), msg).unwrap();
    assert_eq!(commitment.tweaked.bytes, expected);
    assert_ne!(commitment.tweaked.bytes, K);
}

#[test]
fn taproot_commitment_exact_value() {
    let commitment = TaprootCommitment::commit_embed(container(), b"contract-v1").unwrap();
    assert_eq!(
        commitment,
        TaprootCommitment {
            script_root: R,
            intermediate_ke_commitment: PubkeyCommitment {
                tweaked: PublicKey { bytes: K_CONTRACT_V1 },
            },
        }
    );
}

#[test]
fn commit_embed_is_deterministic() {
    let first = TaprootCommitment::commit_embed(container(), b"contract-v1");
    let second = TaprootCommitment::commit_embed(container(), b"contract-v1");
    assert_eq!(first, second);
    let failed_first = TaprootCommitment::commit_embed(
        TaprootContainer { script_root: R, intermediate_key: off_curve_key() },
        b"contract-v1",
    );
    let failed_second = TaprootCommitment::commit_embed(
        TaprootContainer { script_root: R, intermediate_key: off_curve_key() },
        b"contract-v1",
    );
    assert_eq!(failed_first, failed_second);
    assert_eq!(
        PubkeyCommitment::commit_embed(key(), b"m"),
        PubkeyCommitment::commit_embed(key(), b"m")
    );
}

#[test]
fn distinct_messages_give_distinct_commitments() {
    let mut seen: Vec<TaprootCommitment> = Vec::new();
    for i in 0u32..64 {
        let msg = format!("message-{}", i);
        let commitment = TaprootCommitment::commit_embed(container(), msg.as_bytes()).unwrap();
        assert!(!seen.contains(&commitment));
        seen.push(commitment);
    }
    assert_eq!(seen.len(), 64);
}

#[test]
fn script_root_passes_through() {
    let roots = [[0u8; 32], R, [0xabu8; 32]];
    let messages: [&[u8]; 3] = [b"", b"contract-v1", b"\x00\x01\x02"];
    for root in roots.iter() {
        for msg in messages.iter() {
            let c = TaprootContainer { script_root: *root, intermediate_key: key() };
            let commitment = TaprootCommitment::commit_embed(c, msg).unwrap();
            assert_eq!(commitment.script_root, *root);
        }
    }
}

#[test]
fn script_root_is_not_part_of_the_tweak() {
    let a = TaprootCommitment::commit_embed(
        TaprootContainer { script_root: [1u8; 32], intermediate_key: key() },
        b"contract-v1",
    )
    .unwrap();
    let b = TaprootCommitment::commit_embed(
        TaprootContainer { script_root: [2u8; 32], intermediate_key: key() },
        b"contract-v1",
    )
    .unwrap();
    assert_eq!(a.intermediate_ke_commitment, b.intermediate_ke_commitment);
    assert_ne!(a, b);
}

#[test]
fn malformed_key_is_an_error() {
    assert_eq!(
        PubkeyCommitment::commit_embed(off_curve_key(), b"contract-v1"),
        Err(Error::InvalidPublicKey)
    );
    assert_eq!(
        PubkeyCommitment::commit_embed(PublicKey { bytes: [0u8; 33] }, b"contract-v1"),
        Err(Error::InvalidPublicKey)
    );
    let mut bad_prefix = K;
    bad_prefix[0] = 0x05;
    assert_eq!(
        PubkeyCommitment::commit_embed(PublicKey { bytes: bad_prefix }, b""),
        Err(Error::InvalidPublicKey)
    );
}

#[test]
fn malformed_key_passes_through_taproot() {
    let c = TaprootContainer { script_root: R, intermediate_key: off_curve_key() };
    assert_eq!(TaprootCommitment::commit_embed(c, b"contract-v1"), Err(Error::InvalidPublicKey));
}

#[test]
fn failed_tweak_is_an_error() {
    assert_eq!(PubkeyCommitment::from_tweak(None), Err(Error::InvalidTweak));
    assert_eq!(
        PubkeyCommitment::from_tweak(Some(K_EMPTY)),
        Ok(PubkeyCommitment { tweaked: PublicKey { bytes: K_EMPTY } })
    );
}

#[test]
fn with_script_root_attaches_or_passes_error() {
    let base = PubkeyCommitment { tweaked: PublicKey { bytes: K_EMPTY } };
    assert_eq!(
        TaprootCommitment::with_script_root(R, Ok(base)),
        Ok(TaprootCommitment { script_root: R, intermediate_ke_commitment: base })
    );
    assert_eq!(
        TaprootCommitment::with_script_root(R, Err(Error::InvalidTweak)),
        Err(Error::InvalidTweak)
    );
    assert_eq!(
        TaprootCommitment::with_script_root(R, Err(Error::InvalidPublicKey)),
        Err(Error::InvalidPublicKey)
    );
}

#[test]
fn verify_accepts_the_commitment_only() {
    let commitment = TaprootCommitment::commit_embed(container(), b"contract-v1").unwrap();
    assert!(commitment.verify(container(), b"contract-v1"));
    assert!(!commitment.verify(container(), b"contract-v2"));
    let other_root = TaprootContainer { script_root: [0u8; 32], intermediate_key: key() };
    assert!(!commitment.verify(other_root, b"contract-v1"));
    let bad_key = TaprootContainer { script_root: R, intermediate_key: off_curve_key() };
    assert!(!commitment.verify(bad_key, b"contract-v1"));

    let base = PubkeyCommitment::commit_embed(key(), b"contract-v1").unwrap();
    assert!(base.verify(key(), b"contract-v1"));
    assert!(!base.verify(key(), b""));
    assert!(!base.verify(off_curve_key(), b"contract-v1"));
}

#[test]
fn verify_from_restored_container() {
    let commitment = TaprootCommitment::commit_embed(container(), b"contract-v1").unwrap();
    let proof = container().to_proof();
    let restored = TaprootContainer::restore(&proof, &None, &None).unwrap();
    assert!(commitment.verify(restored, b"contract-v1"));
}

#[test]
fn equality_helpers() {
    assert!(key().same_as(&key()));
    assert!(!key().same_as(&off_curve_key()));
    assert!(bytes_equal(&R, &R));
    let mut last_differs = R;
    last_differs[31] ^= 1;
    assert!(!bytes_equal(&R, &last_differs));
    let a = TaprootCommitment {
        script_root: R,
        intermediate_ke_commitment: PubkeyCommitment { tweaked: key() },
    };
    let b = TaprootCommitment {
        script_root: last_differs,
        intermediate_ke_commitment: PubkeyCommitment { tweaked: key() },
    };
    let c = TaprootCommitment {
        script_root: R,
        intermediate_ke_commitment: PubkeyCommitment { tweaked: off_curve_key() },
    };
    assert!(a.same_as(&a));
    assert!(!a.same_as(&b));
    assert!(!a.same_as(&c));
}

#[test]
fn proofs_hash_structurally() {
    let mut set = std::collections::HashSet::new();
    set.insert(container().to_proof());
    set.insert(Proof { pubkey: key(), suppl: ProofSuppl::Taproot(R) });
    set.insert(Proof { pubkey: key(), suppl: ProofSuppl::Absent });
    assert_eq!(set.len(), 2);
}
