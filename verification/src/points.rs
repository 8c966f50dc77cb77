//! Curve points as they appear in a proof.
//!
//! This crate does no curve arithmetic. A point is its coordinates, and a
//! coordinate is 32 bytes.

use vstd::prelude::*;

verus! {

/// A point of the base group: two 32-byte coordinates.
#[derive(Clone, Copy, Debug, PartialEq, Eq)]
pub struct G1Point {
    pub x: [u8; 32],
    pub y: [u8; 32],
}

/// A point of the group over the extension field: each coordinate is a pair
/// of 32-byte values.
#[derive(Clone, Copy, Debug, PartialEq, Eq)]
pub struct G2Point {
    pub x: ([u8; 32], [u8; 32]),
    pub y: ([u8; 32], [u8; 32]),
}

impl G1Point {
    /// The 64 bytes of the point: `x`, then `y`.
    pub open spec fn bytes(self) -> Seq<u8> {
        self.x@ + self.y@
    }
}

impl G2Point {
    /// The 128 bytes of the point: `x.0`, `x.1`, `y.0`, `y.1`.
    pub open spec fn bytes(self) -> Seq<u8> {
        self.x.0@ + self.x.1@ + self.y.0@ + self.y.1@
    }
}

} // verus!
