//! Building authorization requests and deriving their nullifiers.

use crate::address::Address;
use crate::error::AccessError;
use crate::host::{keccak256, keccak256_digest};
use crate::points::{G1Point, G2Point};
use crate::request::{AccessRequest, AccessRequestView, Proof};
use vstd::prelude::*;
use vstd::slice::slice_subrange;

verus! {

/// The public inputs as values, in the order given.
pub open spec fn owned_inputs(public_inputs: Seq<&[u8; 32]>) -> Seq<[u8; 32]> {
    Seq::new(public_inputs.len(), |i: int| *public_inputs[i])
}

/// `point` is `buf` cut in two: `x` is bytes 0 to 32, `y` bytes 32 to 64.
pub open spec fn splits_g1(point: G1Point, buf: Seq<u8>) -> bool {
    &&& point.x@ == buf.subrange(0, 32)
    &&& point.y@ == buf.subrange(32, 64)
}

/// `point` is `buf` cut in four, in the order `x.0`, `x.1`, `y.0`, `y.1`.
pub open spec fn splits_g2(point: G2Point, buf: Seq<u8>) -> bool {
    &&& point.x.0@ == buf.subrange(0, 32)
    &&& point.x.1@ == buf.subrange(32, 64)
    &&& point.y.0@ == buf.subrange(64, 96)
    &&& point.y.1@ == buf.subrange(96, 128)
}

/// `request` is the canonical request for these buffers, stamped `timestamp`.
pub open spec fn is_request_for(
    request: AccessRequestView,
    user: Seq<u8>,
    resource_id: [u8; 32],
    proof_a: Seq<u8>,
    proof_b: Seq<u8>,
    proof_c: Seq<u8>,
    public_inputs: Seq<[u8; 32]>,
    timestamp: u64,
) -> bool {
    &&& request.user == user
    &&& request.resource_id == resource_id
    &&& splits_g1(request.proof.a, proof_a)
    &&& splits_g2(request.proof.b, proof_b)
    &&& splits_g1(request.proof.c, proof_c)
    &&& request.public_inputs == public_inputs
    &&& request.nonce == 0
    &&& request.timestamp == timestamp
}

/// A 32-byte value is told by its bytes.
proof fn lemma_value_by_bytes(value: [u8; 32], other: [u8; 32])
    requires
        value@ == other@,
    ensures
        value == other,
{
    assert(value =~= other);
}

/// The buffers and the timestamp leave no choice: there is one canonical
/// request for them.
pub proof fn lemma_request_is_unique(
    request: AccessRequestView,
    other: AccessRequestView,
    user: Seq<u8>,
    resource_id: [u8; 32],
    proof_a: Seq<u8>,
    proof_b: Seq<u8>,
    proof_c: Seq<u8>,
    public_inputs: Seq<[u8; 32]>,
    timestamp: u64,
)
    requires
        is_request_for(
            request,
            user,
            resource_id,
            proof_a,
            proof_b,
            proof_c,
            public_inputs,
            timestamp,
        ),
        is_request_for(
            other,
            user,
            resource_id,
            proof_a,
            proof_b,
            proof_c,
            public_inputs,
            timestamp,
        ),
    ensures
        request == other,
{
    lemma_value_by_bytes(request.proof.a.x, other.proof.a.x);
    lemma_value_by_bytes(request.proof.a.y, other.proof.a.y);
    lemma_value_by_bytes(request.proof.b.x.0, other.proof.b.x.0);
    lemma_value_by_bytes(request.proof.b.x.1, other.proof.b.x.1);
    lemma_value_by_bytes(request.proof.b.y.0, other.proof.b.y.0);
    lemma_value_by_bytes(request.proof.b.y.1, other.proof.b.y.1);
    lemma_value_by_bytes(request.proof.c.x, other.proof.c.x);
    lemma_value_by_bytes(request.proof.c.y, other.proof.c.y);
}

/// Cutting the buffers into coordinates loses nothing: the proof of the
/// canonical request, laid end to end, is the three buffers in a row.
pub proof fn lemma_split_keeps_bytes(
    request: AccessRequestView,
    user: Seq<u8>,
    resource_id: [u8; 32],
    proof_a: Seq<u8>,
    proof_b: Seq<u8>,
    proof_c: Seq<u8>,
    public_inputs: Seq<[u8; 32]>,
    timestamp: u64,
)
    requires
        proof_a.len() == 64,
        proof_b.len() == 128,
        proof_c.len() == 64,
        is_request_for(
            request,
            user,
            resource_id,
            proof_a,
            proof_b,
            proof_c,
            public_inputs,
            timestamp,
        ),
    ensures
        request.proof.a.bytes() == proof_a,
        request.proof.b.bytes() == proof_b,
        request.proof.c.bytes() == proof_c,
        request.proof.bytes() == proof_a + proof_b + proof_c,
{
    assert(request.proof.a.bytes() =~= proof_a);
    assert(request.proof.b.bytes() =~= proof_b);
    assert(request.proof.c.bytes() =~= proof_c);
}

/// The public inputs laid end to end: byte `i` of the result is byte
/// `i % 32` of input `i / 32`.
pub open spec fn inputs_bytes(public_inputs: Seq<[u8; 32]>) -> Seq<u8> {
    Seq::new(32 * public_inputs.len(), |i: int| public_inputs[i / 32]@[i % 32])
}

/// The bytes that are hashed into a nullifier: the proof, each public input
/// in order, the user, and the resource id.
pub open spec fn nullifier_preimage(
    proof: Proof,
    public_inputs: Seq<[u8; 32]>,
    user: Seq<u8>,
    resource_id: [u8; 32],
) -> Seq<u8> {
    proof.bytes() + inputs_bytes(public_inputs) + user + resource_id@
}

/// The nullifier of a proof in its context: the Keccak-256 digest of
/// `nullifier_preimage`.
pub open spec fn nullifier(
    proof: Proof,
    public_inputs: Seq<[u8; 32]>,
    user: Seq<u8>,
    resource_id: [u8; 32],
) -> Seq<u8> {
    keccak256_digest(nullifier_preimage(proof, public_inputs, user, resource_id))
}

/// The nullifier of a canonical request is the digest of the raw buffers it
/// was built from, followed by the public inputs, the user and the
/// resource id. Neither the nonce nor the timestamp goes into it.
pub proof fn lemma_request_nullifier(
    request: AccessRequestView,
    user: Seq<u8>,
    resource_id: [u8; 32],
    proof_a: Seq<u8>,
    proof_b: Seq<u8>,
    proof_c: Seq<u8>,
    public_inputs: Seq<[u8; 32]>,
    timestamp: u64,
)
    requires
        proof_a.len() == 64,
        proof_b.len() == 128,
        proof_c.len() == 64,
        is_request_for(
            request,
            user,
            resource_id,
            proof_a,
            proof_b,
            proof_c,
            public_inputs,
            timestamp,
        ),
    ensures
        nullifier(request.proof, request.public_inputs, request.user, request.resource_id)
            == keccak256_digest(
            proof_a + proof_b + proof_c + inputs_bytes(public_inputs) + user + resource_id@,
        ),
{
    lemma_split_keeps_bytes(
        request,
        user,
        resource_id,
        proof_a,
        proof_b,
        proof_c,
        public_inputs,
        timestamp,
    );
}

/// The nullifier depends on nothing but the bytes of its four arguments:
/// the same bytes give the same nullifier, on every call and whatever went
/// on between two calls.
pub proof fn lemma_nullifier_is_deterministic(
    proof: Proof,
    other_proof: Proof,
    public_inputs: Seq<[u8; 32]>,
    other_inputs: Seq<[u8; 32]>,
    user: Seq<u8>,
    other_user: Seq<u8>,
    resource_id: [u8; 32],
    other_resource_id: [u8; 32],
)
    requires
        proof.bytes() == other_proof.bytes(),
        public_inputs == other_inputs,
        user == other_user,
        resource_id@ == other_resource_id@,
    ensures
        nullifier(proof, public_inputs, user, resource_id) == nullifier(
            other_proof,
            other_inputs,
            other_user,
            other_resource_id,
        ),
{
}

/// A proof is told by its 256 bytes.
pub proof fn lemma_proof_by_bytes(proof: Proof, other: Proof)
    requires
        proof.bytes() == other.bytes(),
    ensures
        proof == other,
{
    let p = proof.bytes();
    assert(proof.a.x@ =~= p.subrange(0, 32) && other.a.x@ =~= p.subrange(0, 32));
    assert(proof.a.y@ =~= p.subrange(32, 64) && other.a.y@ =~= p.subrange(32, 64));
    assert(proof.b.x.0@ =~= p.subrange(64, 96) && other.b.x.0@ =~= p.subrange(64, 96));
    assert(proof.b.x.1@ =~= p.subrange(96, 128) && other.b.x.1@ =~= p.subrange(96, 128));
    assert(proof.b.y.0@ =~= p.subrange(128, 160) && other.b.y.0@ =~= p.subrange(128, 160));
    assert(proof.b.y.1@ =~= p.subrange(160, 192) && other.b.y.1@ =~= p.subrange(160, 192));
    assert(proof.c.x@ =~= p.subrange(192, 224) && other.c.x@ =~= p.subrange(192, 224));
    assert(proof.c.y@ =~= p.subrange(224, 256) && other.c.y@ =~= p.subrange(224, 256));
    lemma_value_by_bytes(proof.a.x, other.a.x);
    lemma_value_by_bytes(proof.a.y, other.a.y);
    lemma_value_by_bytes(proof.b.x.0, other.b.x.0);
    lemma_value_by_bytes(proof.b.x.1, other.b.x.1);
    lemma_value_by_bytes(proof.b.y.0, other.b.y.0);
    lemma_value_by_bytes(proof.b.y.1, other.b.y.1);
    lemma_value_by_bytes(proof.c.x, other.c.x);
    lemma_value_by_bytes(proof.c.y, other.c.y);
}

/// A sequence of public inputs is told by its bytes: neither the inputs nor
/// their order can change without the bytes changing.
pub proof fn lemma_inputs_by_bytes(public_inputs: Seq<[u8; 32]>, other: Seq<[u8; 32]>)
    requires
        inputs_bytes(public_inputs) == inputs_bytes(other),
    ensures
        public_inputs == other,
{
    assert(inputs_bytes(public_inputs).len() == 32 * public_inputs.len());
    assert(inputs_bytes(other).len() == 32 * other.len());
    assert forall|j: int| 0 <= j < public_inputs.len() implies public_inputs[j] == other[j] by {
        assert forall|k: int| 0 <= k < 32 implies public_inputs[j]@[k] == other[j]@[k] by {
            let i = 32 * j + k;
            assert(i / 32 == j && i % 32 == k);
            assert(inputs_bytes(public_inputs)[i] == public_inputs[j]@[k]);
            assert(inputs_bytes(other)[i] == other[j]@[k]);
        }
        assert(public_inputs[j]@ =~= other[j]@);
        lemma_value_by_bytes(public_inputs[j], other[j]);
    }
    assert(public_inputs =~= other);
}

/// Among contexts with the same number of public inputs and a user of the
/// same length, the preimage tells every byte: two that differ in any byte
/// of the proof, of a public input, of the user or of the resource id have
/// different preimages.
///
/// That their digests differ too is the collision resistance of the hash,
/// which is not proved here.
pub proof fn lemma_preimage_is_injective(
    proof: Proof,
    other_proof: Proof,
    public_inputs: Seq<[u8; 32]>,
    other_inputs: Seq<[u8; 32]>,
    user: Seq<u8>,
    other_user: Seq<u8>,
    resource_id: [u8; 32],
    other_resource_id: [u8; 32],
)
    requires
        public_inputs.len() == other_inputs.len(),
        user.len() == other_user.len(),
        nullifier_preimage(proof, public_inputs, user, resource_id) == nullifier_preimage(
            other_proof,
            other_inputs,
            other_user,
            other_resource_id,
        ),
    ensures
        proof == other_proof,
        public_inputs == other_inputs,
        user == other_user,
        resource_id == other_resource_id,
{
    let p = nullifier_preimage(proof, public_inputs, user, resource_id);
    let n = 32 * public_inputs.len() as int;
    let m = user.len() as int;
    assert(proof.bytes() =~= p.subrange(0, 256));
    assert(other_proof.bytes() =~= p.subrange(0, 256));
    assert(inputs_bytes(public_inputs) =~= p.subrange(256, 256 + n));
    assert(inputs_bytes(other_inputs) =~= p.subrange(256, 256 + n));
    assert(user =~= p.subrange(256 + n, 256 + n + m));
    assert(other_user =~= p.subrange(256 + n, 256 + n + m));
    assert(resource_id@ =~= p.subrange(256 + n + m, 256 + n + m + 32));
    assert(other_resource_id@ =~= p.subrange(256 + n + m, 256 + n + m + 32));
    lemma_proof_by_bytes(proof, other_proof);
    lemma_inputs_by_bytes(public_inputs, other_inputs);
    lemma_value_by_bytes(resource_id, other_resource_id);
}

/// Coordinate `k` of a proof, counting `a.x`, `a.y`, `b.x.0`, `b.x.1`,
/// `b.y.0`, `b.y.1`, `c.x`, `c.y` from 0.
pub open spec fn coordinate(proof: Proof, k: int) -> [u8; 32] {
    if k == 0 {
        proof.a.x
    } else if k == 1 {
        proof.a.y
    } else if k == 2 {
        proof.b.x.0
    } else if k == 3 {
        proof.b.x.1
    } else if k == 4 {
        proof.b.y.0
    } else if k == 5 {
        proof.b.y.1
    } else if k == 6 {
        proof.c.x
    } else {
        proof.c.y
    }
}

/// `a` and `b` are of one length and differ at index `at` and nowhere else.
pub open spec fn differ_only_at(a: Seq<u8>, b: Seq<u8>, at: int) -> bool {
    &&& a.len() == b.len()
    &&& 0 <= at < a.len()
    &&& forall|i: int| 0 <= i < a.len() ==> (a[i] != b[i] <==> i == at)
}

/// The hash does not collide on `a` and `b`: if they differ, so do their
/// digests.
pub open spec fn hash_tells_apart(a: Seq<u8>, b: Seq<u8>) -> bool {
    a != b ==> keccak256_digest(a) != keccak256_digest(b)
}

/// Byte `i` of a proof is byte `i % 32` of its coordinate `i / 32`.
pub proof fn lemma_proof_bytes_by_coordinate(proof: Proof, i: int)
    requires
        0 <= i < 256,
    ensures
        proof.bytes()[i] == coordinate(proof, i / 32)@[i % 32],
{
}

/// One changed byte of one coordinate of the proof shows in the preimage at
/// that byte's place, `32 * k + j`, and nowhere else. Where the hash does
/// not collide on the two preimages, the nullifier changes.
pub proof fn lemma_proof_byte_changes_nullifier(
    proof: Proof,
    other_proof: Proof,
    k: int,
    j: int,
    public_inputs: Seq<[u8; 32]>,
    user: Seq<u8>,
    resource_id: [u8; 32],
)
    requires
        0 <= k < 8,
        forall|c: int| 0 <= c < 8 && c != k ==> coordinate(other_proof, c) == coordinate(proof, c),
        differ_only_at(coordinate(proof, k)@, coordinate(other_proof, k)@, j),
    ensures
        differ_only_at(
            nullifier_preimage(proof, public_inputs, user, resource_id),
            nullifier_preimage(other_proof, public_inputs, user, resource_id),
            32 * k + j,
        ),
        hash_tells_apart(
            nullifier_preimage(proof, public_inputs, user, resource_id),
            nullifier_preimage(other_proof, public_inputs, user, resource_id),
        ) ==> nullifier(proof, public_inputs, user, resource_id) != nullifier(
            other_proof,
            public_inputs,
            user,
            resource_id,
        ),
{
    let p = nullifier_preimage(proof, public_inputs, user, resource_id);
    let q = nullifier_preimage(other_proof, public_inputs, user, resource_id);
    assert forall|i: int| 0 <= i < p.len() implies (p[i] != q[i] <==> i == 32 * k + j) by {
        if i < 256 {
            lemma_proof_bytes_by_coordinate(proof, i);
            lemma_proof_bytes_by_coordinate(other_proof, i);
            assert(p[i] == coordinate(proof, i / 32)@[i % 32]);
            assert(q[i] == coordinate(other_proof, i / 32)@[i % 32]);
        }
    }
    assert(p[32 * k + j] != q[32 * k + j]);
}

/// One changed byte of one public input shows in the preimage at that
/// byte's place, `256 + 32 * i + j`, and nowhere else. Where the hash does
/// not collide on the two preimages, the nullifier changes.
pub proof fn lemma_input_byte_changes_nullifier(
    proof: Proof,
    public_inputs: Seq<[u8; 32]>,
    other_inputs: Seq<[u8; 32]>,
    i: int,
    j: int,
    user: Seq<u8>,
    resource_id: [u8; 32],
)
    requires
        public_inputs.len() == other_inputs.len(),
        0 <= i < public_inputs.len(),
        forall|e: int|
            0 <= e < public_inputs.len() && e != i ==> other_inputs[e] == public_inputs[e],
        differ_only_at(public_inputs[i]@, other_inputs[i]@, j),
    ensures
        differ_only_at(
            nullifier_preimage(proof, public_inputs, user, resource_id),
            nullifier_preimage(proof, other_inputs, user, resource_id),
            256 + 32 * i + j,
        ),
        hash_tells_apart(
            nullifier_preimage(proof, public_inputs, user, resource_id),
            nullifier_preimage(proof, other_inputs, user, resource_id),
        ) ==> nullifier(proof, public_inputs, user, resource_id) != nullifier(
            proof,
            other_inputs,
            user,
            resource_id,
        ),
{
    let p = nullifier_preimage(proof, public_inputs, user, resource_id);
    let q = nullifier_preimage(proof, other_inputs, user, resource_id);
    let n = public_inputs.len() as int;
    assert forall|b: int| 0 <= b < p.len() implies (p[b] != q[b] <==> b == 256 + 32 * i + j) by {
        if 256 <= b < 256 + 32 * n {
            let at = b - 256;
            assert(p[b] == inputs_bytes(public_inputs)[at]);
            assert(q[b] == inputs_bytes(other_inputs)[at]);
            assert(p[b] == public_inputs[at / 32]@[at % 32]);
            assert(q[b] == other_inputs[at / 32]@[at % 32]);
        }
    }
    assert(p[256 + 32 * i + j] != q[256 + 32 * i + j]);
}

/// One changed byte of the user shows in the preimage at that byte's place,
/// after the proof and the public inputs, and nowhere else. Where the hash
/// does not collide on the two preimages, the nullifier changes.
pub proof fn lemma_user_byte_changes_nullifier(
    proof: Proof,
    public_inputs: Seq<[u8; 32]>,
    user: Seq<u8>,
    other_user: Seq<u8>,
    j: int,
    resource_id: [u8; 32],
)
    requires
        differ_only_at(user, other_user, j),
    ensures
        differ_only_at(
            nullifier_preimage(proof, public_inputs, user, resource_id),
            nullifier_preimage(proof, public_inputs, other_user, resource_id),
            256 + 32 * public_inputs.len() + j,
        ),
        hash_tells_apart(
            nullifier_preimage(proof, public_inputs, user, resource_id),
            nullifier_preimage(proof, public_inputs, other_user, resource_id),
        ) ==> nullifier(proof, public_inputs, user, resource_id) != nullifier(
            proof,
            public_inputs,
            other_user,
            resource_id,
        ),
{
    let p = nullifier_preimage(proof, public_inputs, user, resource_id);
    let q = nullifier_preimage(proof, public_inputs, other_user, resource_id);
    let start = 256 + 32 * public_inputs.len() as int;
    assert forall|b: int| 0 <= b < p.len() implies (p[b] != q[b] <==> b == start + j) by {
        if start <= b < start + user.len() {
            assert(p[b] == user[b - start]);
            assert(q[b] == other_user[b - start]);
        }
    }
    assert(p[start + j] != q[start + j]);
}

/// One changed byte of the resource id shows in the preimage at that
/// byte's place among the last 32, and nowhere else. Where the hash does
/// not collide on the two preimages, the nullifier changes.
pub proof fn lemma_resource_byte_changes_nullifier(
    proof: Proof,
    public_inputs: Seq<[u8; 32]>,
    user: Seq<u8>,
    resource_id: [u8; 32],
    other_resource_id: [u8; 32],
    j: int,
)
    requires
        differ_only_at(resource_id@, other_resource_id@, j),
    ensures
        differ_only_at(
            nullifier_preimage(proof, public_inputs, user, resource_id),
            nullifier_preimage(proof, public_inputs, user, other_resource_id),
            nullifier_preimage(proof, public_inputs, user, resource_id).len() - 32 + j,
        ),
        hash_tells_apart(
            nullifier_preimage(proof, public_inputs, user, resource_id),
            nullifier_preimage(proof, public_inputs, user, other_resource_id),
        ) ==> nullifier(proof, public_inputs, user, resource_id) != nullifier(
            proof,
            public_inputs,
            user,
            other_resource_id,
        ),
{
    let p = nullifier_preimage(proof, public_inputs, user, resource_id);
    let q = nullifier_preimage(proof, public_inputs, user, other_resource_id);
    let start = p.len() - 32;
    assert forall|b: int| 0 <= b < p.len() implies (p[b] != q[b] <==> b == start + j) by {
        if start <= b {
            assert(p[b] == resource_id@[b - start]);
            assert(q[b] == other_resource_id@[b - start]);
        }
    }
    assert(p[start + j] != q[start + j]);
}

/// With no public inputs, what is hashed is the proof, the user and the
/// resource id in a row, with nothing before, between or after them. For
/// the proof whose coordinates are all zero that is 256 zero bytes, then the
/// user, then the resource id.
pub proof fn lemma_nullifier_without_inputs(proof: Proof, user: Seq<u8>, resource_id: [u8; 32])
    ensures
        nullifier(proof, Seq::<[u8; 32]>::empty(), user, resource_id) == keccak256_digest(
            proof.bytes() + user + resource_id@,
        ),
        (forall|k: int, j: int| 0 <= k < 8 && 0 <= j < 32 ==> coordinate(proof, k)@[j] == 0)
            ==> nullifier(proof, Seq::<[u8; 32]>::empty(), user, resource_id) == keccak256_digest(
            Seq::new(256, |i: int| 0u8) + user + resource_id@,
        ),
{
    let none = Seq::<[u8; 32]>::empty();
    assert(nullifier_preimage(proof, none, user, resource_id) =~= proof.bytes() + user
        + resource_id@);
    if forall|k: int, j: int| 0 <= k < 8 && 0 <= j < 32 ==> coordinate(proof, k)@[j] == 0 {
        assert forall|i: int| 0 <= i < 256 implies proof.bytes()[i] == 0 by {
            lemma_proof_bytes_by_coordinate(proof, i);
            assert(coordinate(proof, i / 32)@[i % 32] == 0);
        }
        assert(proof.bytes() =~= Seq::new(256, |i: int| 0u8));
    }
}

/// Formatting helpers for zero-knowledge access requests.
pub struct ZkAccessHelper;

impl ZkAccessHelper {
    /// Reads `bytes` as one 32-byte value.
    ///
    /// A buffer of any other length is rejected.
    pub fn to_bytesn32(bytes: &[u8]) -> (result: Result<[u8; 32], AccessError>)
        ensures
            bytes@.len() == 32 ==> result is Ok && result->Ok_0@ == bytes@,
            bytes@.len() != 32 ==> result == Err::<[u8; 32], AccessError>(
                AccessError::MalformedInput,
            ),
    {
        if bytes.len() != 32 {
            return Err(AccessError::MalformedInput);
        }
        let mut buf = [0u8; 32];
        let mut i: usize = 0;
        while i < 32
            invariant
                bytes@.len() == 32,
                i <= 32,
                forall|j: int| 0 <= j < i ==> buf@[j] == bytes@[j],
            decreases 32 - i,
        {
            buf[i] = bytes[i];
            i += 1;
        }
        assert(buf@ =~= bytes@);
        Ok(buf)
    }

    /// Lays out the bytes from which a nullifier is derived.
    pub fn preimage(
        proof: &Proof,
        public_inputs: &Vec<[u8; 32]>,
        user: &Address,
        resource_id: &[u8; 32],
    ) -> (buf: Vec<u8>)
        ensures
            buf@ == nullifier_preimage(*proof, public_inputs@, user@, *resource_id),
    {
        let mut buf: Vec<u8> = Vec::new();
        buf.extend_from_slice(proof.a.x.as_slice());
        buf.extend_from_slice(proof.a.y.as_slice());
        buf.extend_from_slice(proof.b.x.0.as_slice());
        buf.extend_from_slice(proof.b.x.1.as_slice());
        buf.extend_from_slice(proof.b.y.0.as_slice());
        buf.extend_from_slice(proof.b.y.1.as_slice());
        buf.extend_from_slice(proof.c.x.as_slice());
        buf.extend_from_slice(proof.c.y.as_slice());
        assert(buf@ =~= proof.bytes());

        let mut i: usize = 0;
        while i < public_inputs.len()
            invariant
                i <= public_inputs@.len(),
                buf@ == proof.bytes() + inputs_bytes(public_inputs@.subrange(0, i as int)),
            decreases public_inputs@.len() - i,
        {
            buf.extend_from_slice(public_inputs[i].as_slice());
            assert(buf@ =~= proof.bytes() + inputs_bytes(
                public_inputs@.subrange(0, i + 1),
            ));
            i += 1;
        }
        assert(public_inputs@.subrange(0, i as int) =~= public_inputs@);

        buf.extend_from_slice(user.as_bytes());
        buf.extend_from_slice(resource_id.as_slice());
        assert(buf@ =~= nullifier_preimage(*proof, public_inputs@, user@, *resource_id));
        buf
    }

    /// Whether the bytes from which the nullifier of this context is derived
    /// fit one byte string of the host, which holds `u32::MAX` bytes at most.
    ///
    /// `compute_nullifier` asks for this.
    pub fn preimage_fits(public_inputs: &Vec<[u8; 32]>, user: &Address) -> (ok: bool)
        ensures
            ok == (256 + 32 * public_inputs@.len() + user@.len() + 32 <= u32::MAX),
    {
        // What is left of `u32::MAX` bytes after the proof and the resource id.
        let room: usize = 4294967007;
        let user_len: usize = user.as_bytes().len();
        if user_len > room {
            return false;
        }
        public_inputs.len() <= (room - user_len) / 32
    }

    /// Computes the nullifier of a proof, by which its reuse is detected.
    ///
    /// The nullifier binds the proof to its public inputs, to the user and
    /// to the resource: it is the Keccak-256 digest of `preimage`. It
    /// depends on these four and on nothing else.
    ///
    /// The bytes hashed have to fit one byte string of the host, which
    /// `preimage_fits` tests.
    pub fn compute_nullifier(
        proof: &Proof,
        public_inputs: &Vec<[u8; 32]>,
        user: &Address,
        resource_id: &[u8; 32],
    ) -> (digest: [u8; 32])
        requires
            256 + 32 * public_inputs@.len() + user@.len() + 32 <= u32::MAX,
        ensures
            digest@ == nullifier(*proof, public_inputs@, user@, *resource_id),
    {
        let buf = Self::preimage(proof, public_inputs, user, resource_id);
        keccak256(buf.as_slice())
    }

    /// Formats raw proof points and public inputs into an `AccessRequest`.
    ///
    /// Each 64-byte buffer is cut into two coordinates and the 128-byte
    /// buffer into four. The nonce is 0. Nothing is checked of the points.
    ///
    /// `timestamp` is the time at which the request is built. This crate
    /// reads no clock: whoever calls reads it from the ledger, and does not
    /// take it from the party that asks for the request.
    pub fn create_request(
        user: Address,
        resource_id: [u8; 32],
        proof_a: [u8; 64],
        proof_b: [u8; 128],
        proof_c: [u8; 64],
        public_inputs: &[&[u8; 32]],
        timestamp: u64,
    ) -> (request: AccessRequest)
        ensures
            is_request_for(
                request@,
                user@,
                resource_id,
                proof_a@,
                proof_b@,
                proof_c@,
                owned_inputs(public_inputs@),
                timestamp,
            ),
    {
        let mut pi_vec: Vec<[u8; 32]> = Vec::new();
        let mut i: usize = 0;
        while i < public_inputs.len()
            invariant
                i <= public_inputs@.len(),
                pi_vec@ == owned_inputs(public_inputs@).subrange(0, i as int),
            decreases public_inputs@.len() - i,
        {
            pi_vec.push(*public_inputs[i]);
            assert(pi_vec@ =~= owned_inputs(public_inputs@).subrange(0, i + 1));
            i += 1;
        }
        assert(pi_vec@ =~= owned_inputs(public_inputs@));

        let a = proof_a.as_slice();
        let b = proof_b.as_slice();
        let c = proof_c.as_slice();
        AccessRequest {
            user,
            resource_id,
            proof: Proof {
                a: G1Point {
                    x: Self::to_bytesn32(slice_subrange(a, 0, 32)).unwrap(),
                    y: Self::to_bytesn32(slice_subrange(a, 32, 64)).unwrap(),
                },
                b: G2Point {
                    x: (
                        Self::to_bytesn32(slice_subrange(b, 0, 32)).unwrap(),
                        Self::to_bytesn32(slice_subrange(b, 32, 64)).unwrap(),
                    ),
                    y: (
                        Self::to_bytesn32(slice_subrange(b, 64, 96)).unwrap(),
                        Self::to_bytesn32(slice_subrange(b, 96, 128)).unwrap(),
                    ),
                },
                c: G1Point {
                    x: Self::to_bytesn32(slice_subrange(c, 0, 32)).unwrap(),
                    y: Self::to_bytesn32(slice_subrange(c, 32, 64)).unwrap(),
                },
            },
            public_inputs: pi_vec,
            nonce: 0,
            timestamp,
        }
    }
}

} // verus!
