use chain_coordinator::address::{resolve, Address};
use chain_coordinator::envelope::{ProofAttacher, SequenceAllocator};
use chain_coordinator::errors::Error;

fn sender() -> Address {
    resolve(&"0".repeat(66)).expect("canonical text must resolve")
}

#[test]
fn allocator_issues_strictly_increasing_numbers() {
    let mut allocator = SequenceAllocator::new(sender(), 7);
    let mut issued: Vec<u64> = Vec::new();
    for _ in 0..5 {
        issued.push(allocator.allocate());
    }
    assert_eq!(issued, vec![0, 1, 2, 3, 4]);
    for pair in issued.windows(2) {
        assert!(pair[0] < pair[1]);
    }
}

#[test]
fn envelope_round_trips_payload_and_proof() {
    let attacher = ProofAttacher::new(1024);
    let mut allocator = SequenceAllocator::new(sender(), 7);
    let payload = vec![1u8, 2, 3, 4];
    let proof_bytes = vec![9u8, 8, 7];
    let env = attacher
        .build_envelope(7, payload.clone(), proof_bytes.clone(), &mut allocator, 55)
        .expect("a non-empty proof and a small payload must build");
    assert_eq!(env.payload(), &payload);
    assert_eq!(env.proof_bytes(), &proof_bytes);
    assert_eq!(env.target_partition(), 7);
    assert_eq!(env.created_at(), 55);
    assert_eq!(env.sequence(), 0);
}

#[test]
fn consecutive_envelopes_get_consecutive_sequence_numbers() {
    let attacher = ProofAttacher::new(1024);
    let mut allocator = SequenceAllocator::new(sender(), 3);
    let first = attacher.build_envelope(3, vec![1], vec![2], &mut allocator, 1).unwrap();
    let second = attacher.build_envelope(3, vec![1], vec![2], &mut allocator, 2).unwrap();
    assert_eq!(first.sequence(), 0);
    assert_eq!(second.sequence(), 1);
}

#[test]
fn empty_proof_is_rejected_without_consuming_a_sequence_number() {
    let attacher = ProofAttacher::new(1024);
    let mut allocator = SequenceAllocator::new(sender(), 7);
    assert_eq!(
        attacher.build_envelope(7, vec![1, 2], vec![], &mut allocator, 1),
        Err(Error::ProofEmpty)
    );
    // The failed build consumed nothing: the next envelope is number 0.
    let env = attacher.build_envelope(7, vec![1, 2], vec![5], &mut allocator, 2).unwrap();
    assert_eq!(env.sequence(), 0);
}

#[test]
fn oversized_payload_is_rejected() {
    let attacher = ProofAttacher::new(2);
    let mut allocator = SequenceAllocator::new(sender(), 7);
    assert_eq!(
        attacher.build_envelope(7, vec![1, 2, 3], vec![5], &mut allocator, 1),
        Err(Error::PayloadTooLarge { size: 3, limit: 2 })
    );
    let env = attacher.build_envelope(7, vec![1, 2], vec![5], &mut allocator, 2).unwrap();
    assert_eq!(env.sequence(), 0);
}

#[test]
fn empty_payload_with_proof_is_accepted() {
    let attacher = ProofAttacher::new(0);
    let mut allocator = SequenceAllocator::new(sender(), 7);
    let env = attacher.build_envelope(7, vec![], vec![1], &mut allocator, 1).unwrap();
    assert_eq!(env.payload().len(), 0);
}
