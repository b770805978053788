use gamma_pallets::pow::{
    hash_difficulty, mining_step, Compute, MiningAction, MiningMetadata, PowError, Seal, ShaAlgorithm, SimplePoWAlgo,
};
use parity_scale_codec::Encode;
use sha3::{Digest, Sha3_256};
use std::sync::Arc;

#[test]
fn simple_pow_difficulty_is_one_million() {
    let algo = SimplePoWAlgo;
    assert_eq!(algo.difficulty(), [1_000_000u64, 0, 0, 0]);
}

#[test]
fn zero_hash_meets_any_difficulty() {
    assert!(hash_difficulty(&[0u8; 32], [u64::MAX; 4]));
}

#[test]
fn large_hash_fails_large_difficulty() {
    let mut hash = [0u8; 32];
    hash[0] = 1; // 2^248
    assert!(hash_difficulty(&hash, [255, 0, 0, 0]));
    assert!(!hash_difficulty(&hash, [256, 0, 0, 0]));
}

#[test]
fn compute_encoding_matches_scale() {
    let c = Compute { difficulty: [7, 0, 0, 1], pre_hash: [9u8; 32], nonce: [3, 4, 5, 6] };
    let expected = (sp_core::U256([7, 0, 0, 1]), sp_core::H256([9u8; 32]), sp_core::U256([3, 4, 5, 6])).encode();
    assert_eq!(c.encode(), expected);
}

#[test]
fn seal_round_trips_and_verifies() {
    let difficulty = [1u64, 0, 0, 0];
    let pre_hash = [5u8; 32];
    let seal = Compute { difficulty, pre_hash, nonce: [42, 0, 0, 0] }.compute();
    let raw = seal.encode();
    assert_eq!(raw.len(), 96);
    let decoded = Seal::decode(&raw).unwrap();
    assert!(decoded.same_as(&seal));
    let algo = ShaAlgorithm::new(Arc::new(()));
    assert!(algo.verify(&pre_hash, &raw, difficulty));
    assert!(!algo.verify(&[6u8; 32], &raw, difficulty));
    assert!(!algo.verify(&pre_hash, &raw[..95], difficulty));
}

#[test]
fn mining_step_sleeps_without_metadata() {
    let (nonce, action) = mining_step(None, [3, 0, 0, 0]);
    assert_eq!(nonce, [3, 0, 0, 0]);
    assert!(matches!(action, MiningAction::Sleep));
}

#[test]
fn mining_step_submits_at_difficulty_one() {
    let meta = MiningMetadata { difficulty: [1, 0, 0, 0], pre_hash: [1u8; 32] };
    let (nonce, action) = mining_step(Some(meta), [0, 0, 0, 0]);
    assert_eq!(nonce, [0, 0, 0, 0]);
    match action {
        MiningAction::Submit(bytes) => assert!(SimplePoWAlgo.verify(&[1u8; 32], &bytes, [1, 0, 0, 0])),
        _ => panic!("expected a submission"),
    }
}

#[test]
fn work_is_the_sha3_of_the_encoded_input() {
    let c = Compute { difficulty: [2, 0, 0, 0], pre_hash: [4u8; 32], nonce: [8, 0, 0, 0] };
    let digest = Sha3_256::digest(&c.encode());
    assert_eq!(&c.compute().work[..], digest.as_slice());
}

#[test]
fn mining_step_moves_to_the_next_nonce() {
    let meta = MiningMetadata { difficulty: [u64::MAX; 4], pre_hash: [1u8; 32] };
    let (nonce, action) = mining_step(Some(meta), [7, 0, 0, 0]);
    assert!(matches!(action, MiningAction::Continue));
    assert_eq!(nonce, [8, 0, 0, 0]);
    let (nonce, _) = mining_step(Some(meta), [u64::MAX, 0, 0, 0]);
    assert_eq!(nonce, [0, 1, 0, 0]);
    let (nonce, _) = mining_step(Some(meta), [u64::MAX - 1, u64::MAX, u64::MAX, u64::MAX]);
    assert_eq!(nonce, [0, 0, 0, 0]);
}

#[test]
fn difficulty_queries_report_runtime_failures() {
    let algo = ShaAlgorithm::new(Arc::new(()));
    assert_eq!(algo.difficulty(Ok([5, 0, 0, 0])).unwrap(), [5, 0, 0, 0]);
    match algo.difficulty(Err("no state".to_string())) {
        Err(PowError::Environment(m)) => assert_eq!(m, "Difficulty from Runtime Failed: no state"),
        _ => panic!("expected an environment error"),
    }
}
