use vstd::prelude::*;

use crate::address::Address;
use crate::errors::Error;

verus! {

/// The monotonic sequence counter for one (sender, target partition) pair.
///
/// Sequence numbers let the receiver deduplicate envelopes, so they must be
/// strictly increasing and never reused. The counter is private: the only
/// way to obtain a number is `allocate`, which advances it. One allocation
/// must be in flight at a time per pair; concurrent callers targeting the
/// same partition serialize on this value.
#[derive(Debug, PartialEq, Eq)]
pub struct SequenceAllocator {
    sender: Address,
    target_partition: u32,
    next: u64,
}

impl SequenceAllocator {
    /// The bytes of the sender address the counter belongs to.
    pub closed spec fn spec_sender(&self) -> Seq<u8> {
        self.sender@
    }

    /// The target partition the counter belongs to.
    pub closed spec fn spec_target(&self) -> u32 {
        self.target_partition
    }

    /// The next sequence number to be issued.
    pub closed spec fn spec_next(&self) -> u64 {
        self.next
    }

    /// Whether a single allocation turns `pre` into `post` and issues
    /// `seq`: the issued number is the counter's value, the counter
    /// advances by one, and the pair it belongs to is unchanged.
    pub open spec fn spec_allocates(
        pre: SequenceAllocator,
        seq: u64,
        post: SequenceAllocator,
    ) -> bool {
        &&& seq == pre.spec_next()
        &&& post.spec_next() == pre.spec_next() + 1
        &&& post.spec_sender() == pre.spec_sender()
        &&& post.spec_target() == pre.spec_target()
    }

    /// A fresh counter for the (sender, target partition) pair, starting
    /// at zero.
    pub fn new(sender: Address, target_partition: u32) -> (r: SequenceAllocator)
        ensures
            r.spec_sender() == sender@,
            r.spec_target() == target_partition,
            r.spec_next() == 0,
    {
        SequenceAllocator { sender, target_partition, next: 0 }
    }

    /// The target partition the counter belongs to.
    pub fn target_partition(&self) -> (r: u32)
        ensures
            r == self.spec_target(),
    {
        self.target_partition
    }

    /// The next sequence number to be issued, without issuing it.
    pub fn next_sequence(&self) -> (r: u64)
        ensures
            r == self.spec_next(),
    {
        self.next
    }

    /// Issues the next sequence number for this pair and advances the
    /// counter.
    pub fn allocate(&mut self) -> (r: u64)
        requires
            old(self).spec_next() < u64::MAX,
        ensures
            Self::spec_allocates(*old(self), r, *final(self)),
    {
        let issued = self.next;
        self.next = self.next + 1;
        issued
    }
}

/// Sequence numbers issued for a fixed (sender, target partition) pair are
/// strictly increasing and never reused: whatever happens between two
/// allocations, as long as the counter has not gone backwards, the later
/// allocation issues a strictly larger number.
pub proof fn lemma_sequence_numbers_strictly_increase(
    a0: SequenceAllocator,
    a1: SequenceAllocator,
    b0: SequenceAllocator,
    b1: SequenceAllocator,
    s1: u64,
    s2: u64,
)
    requires
        SequenceAllocator::spec_allocates(a0, s1, a1),
        SequenceAllocator::spec_allocates(b0, s2, b1),
        a1.spec_next() <= b0.spec_next(),
    ensures
        s1 < s2,
{
}

/// A proof-carrying message unit, addressed to a chain partition.
/// Immutable after creation; produced only by
/// [`ProofAttacher::build_envelope`], which assigns its sequence number
/// exactly once.
#[derive(Debug, PartialEq, Eq)]
pub struct ProofEnvelope {
    target_partition: u32,
    payload: Vec<u8>,
    proof_bytes: Vec<u8>,
    sequence: u64,
    created_at: u64,
}

impl ProofEnvelope {
    /// The partition the envelope is addressed to.
    pub closed spec fn spec_target(&self) -> u32 {
        self.target_partition
    }

    /// The payload bytes.
    pub closed spec fn spec_payload(&self) -> Seq<u8> {
        self.payload@
    }

    /// The attached proof bytes.
    pub closed spec fn spec_proof_bytes(&self) -> Seq<u8> {
        self.proof_bytes@
    }

    /// The sequence number assigned for the (sender, target) pair.
    pub closed spec fn spec_sequence(&self) -> u64 {
        self.sequence
    }

    /// The chain time the envelope was created at.
    pub closed spec fn spec_created_at(&self) -> u64 {
        self.created_at
    }

    /// The partition the envelope is addressed to.
    pub fn target_partition(&self) -> (r: u32)
        ensures
            r == self.spec_target(),
    {
        self.target_partition
    }

    /// The payload bytes.
    pub fn payload(&self) -> (r: &Vec<u8>)
        ensures
            r@ == self.spec_payload(),
    {
        &self.payload
    }

    /// The attached proof bytes.
    pub fn proof_bytes(&self) -> (r: &Vec<u8>)
        ensures
            r@ == self.spec_proof_bytes(),
    {
        &self.proof_bytes
    }

    /// The sequence number assigned for the (sender, target) pair.
    pub fn sequence(&self) -> (r: u64)
        ensures
            r == self.spec_sequence(),
    {
        self.sequence
    }

    /// The chain time the envelope was created at.
    pub fn created_at(&self) -> (r: u64)
        ensures
            r == self.spec_created_at(),
    {
        self.created_at
    }
}

/// Builds envelopes under a configured payload size limit.
#[derive(Debug, PartialEq, Eq, Structural, Clone, Copy)]
pub struct ProofAttacher {
    /// The largest payload, in bytes, an envelope may carry.
    pub max_payload_len: usize,
}

impl ProofAttacher {
    /// An attacher with the given payload size limit.
    pub fn new(max_payload_len: usize) -> (r: ProofAttacher)
        ensures
            r.max_payload_len == max_payload_len,
    {
        ProofAttacher { max_payload_len }
    }

    /// Wraps a payload and its proof into an addressed envelope, allocating
    /// the next sequence number for the (sender, target) pair from
    /// `allocator`, which must be the counter of that pair. The proof is
    /// not verified here — the remote side verifies it — but it must not be
    /// empty (`ProofEmpty`), and the payload must not exceed the configured
    /// maximum (`PayloadTooLarge`). The payload and the proof are carried
    /// unchanged; no sequence number is consumed on failure.
    pub fn build_envelope(
        &self,
        target_partition: u32,
        payload: Vec<u8>,
        proof_bytes: Vec<u8>,
        allocator: &mut SequenceAllocator,
        created_at: u64,
    ) -> (r: Result<ProofEnvelope, Error>)
        requires
            old(allocator).spec_target() == target_partition,
            old(allocator).spec_next() < u64::MAX,
        ensures
            r is Ok <==> (proof_bytes@.len() > 0 && payload@.len() <= self.max_payload_len),
            r matches Ok(env) ==> ({
                &&& env.spec_target() == target_partition
                &&& env.spec_payload() == payload@
                &&& env.spec_proof_bytes() == proof_bytes@
                &&& env.spec_sequence() == old(allocator).spec_next()
                &&& env.spec_created_at() == created_at
                &&& SequenceAllocator::spec_allocates(
                    *old(allocator),
                    env.spec_sequence(),
                    *final(allocator),
                )
            }),
            proof_bytes@.len() == 0 ==> r == Err::<ProofEnvelope, Error>(Error::ProofEmpty),
            (proof_bytes@.len() > 0 && payload@.len() > self.max_payload_len) ==> r == Err::<
                ProofEnvelope,
                Error,
            >((Error::PayloadTooLarge { size: payload@.len() as usize, limit: self.max_payload_len })),
            r is Err ==> *final(allocator) == *old(allocator),
    {
        if proof_bytes.len() == 0 {
            return Err(Error::ProofEmpty);
        }
        if payload.len() > self.max_payload_len {
            return Err(Error::PayloadTooLarge {
                size: payload.len(),
                limit: self.max_payload_len,
            });
        }
        let sequence = allocator.allocate();
        Ok(ProofEnvelope {
            target_partition,
            payload,
            proof_bytes,
            sequence,
            created_at,
        })
    }
}

} // verus!
