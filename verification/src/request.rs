//! The proof and the authorization request that carries it.

use crate::address::Address;
use crate::points::{G1Point, G2Point};
use vstd::prelude::*;

verus! {

/// A zero-knowledge proof: three curve points, 256 bytes in all.
#[derive(Clone, Copy, Debug, PartialEq, Eq)]
pub struct Proof {
    pub a: G1Point,
    pub b: G2Point,
    pub c: G1Point,
}

impl Proof {
    /// The 256 bytes of the proof: `a`, then `b`, then `c`.
    pub open spec fn bytes(self) -> Seq<u8> {
        self.a.bytes() + self.b.bytes() + self.c.bytes()
    }
}

/// A proof has a fixed size: 64 bytes for `a`, 128 for `b`, 64 for `c`.
pub proof fn lemma_proof_size(proof: Proof)
    ensures
        proof.a.bytes().len() == 64,
        proof.b.bytes().len() == 128,
        proof.c.bytes().len() == 64,
        proof.bytes().len() == 256,
{
}

/// What a caller submits to be authorized for one resource.
#[derive(Debug, PartialEq, Eq)]
pub struct AccessRequest {
    pub user: Address,
    pub resource_id: [u8; 32],
    pub proof: Proof,
    /// The public inputs, in the order the verifying circuit defines.
    pub public_inputs: Vec<[u8; 32]>,
    pub nonce: u64,
    pub timestamp: u64,
}

/// An `AccessRequest` by value.
pub struct AccessRequestView {
    pub user: Seq<u8>,
    pub resource_id: [u8; 32],
    pub proof: Proof,
    pub public_inputs: Seq<[u8; 32]>,
    pub nonce: u64,
    pub timestamp: u64,
}

impl View for AccessRequest {
    type V = AccessRequestView;

    open spec fn view(&self) -> AccessRequestView {
        AccessRequestView {
            user: self.user@,
            resource_id: self.resource_id,
            proof: self.proof,
            public_inputs: self.public_inputs@,
            nonce: self.nonce,
            timestamp: self.timestamp,
        }
    }
}

impl Clone for AccessRequest {
    fn clone(&self) -> (copy: Self)
        ensures
            copy@ == self@,
    {
        let mut public_inputs: Vec<[u8; 32]> = Vec::new();
        let mut i: usize = 0;
        while i < self.public_inputs.len()
            invariant
                i <= self.public_inputs@.len(),
                public_inputs@ == self.public_inputs@.subrange(0, i as int),
            decreases self.public_inputs@.len() - i,
        {
            public_inputs.push(self.public_inputs[i]);
            assert(public_inputs@ =~= self.public_inputs@.subrange(0, i + 1));
            i += 1;
        }
        assert(public_inputs@ =~= self.public_inputs@);
        AccessRequest {
            user: self.user.clone(),
            resource_id: self.resource_id,
            proof: self.proof,
            public_inputs,
            nonce: self.nonce,
            timestamp: self.timestamp,
        }
    }
}

} // verus!
