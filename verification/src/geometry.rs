//! Points, vectors and rectangles: pairs of numbers that the library carries
//! and compares but never computes with.

use crate::scalar::{Scalar, ScalarKey};
use vstd::prelude::*;
use vstd::std_specs::cmp::PartialEqSpecImpl;

verus! {

/// A position in the plane.
#[derive(Clone, Copy, Debug)]
pub struct Pos2 {
    pub x: Scalar,
    pub y: Scalar,
}

/// A displacement, or a pair of extents along the two axes.
#[derive(Clone, Copy, Debug)]
pub struct Vec2 {
    pub x: Scalar,
    pub y: Scalar,
}

/// What a position or a vector contributes to a hash: the keys of its two
/// numbers.
#[derive(Clone, Copy, Debug, PartialEq, Eq, Structural, Hash)]
pub struct PairKey {
    pub x: ScalarKey,
    pub y: ScalarKey,
}

/// An axis-aligned rectangle, given by two opposite corners.
#[derive(Clone, Copy, Debug)]
pub struct Rect {
    pub min: Pos2,
    pub max: Pos2,
}

impl Pos2 {
    /// What `==` means on positions: both coordinates compare equal as
    /// numbers.
    pub open spec fn spec_eq(&self, other: &Pos2) -> bool {
        self.x@.float_eq(other.x@) && self.y@.float_eq(other.y@)
    }

    /// The position with the given coordinates.
    pub fn new(x: Scalar, y: Scalar) -> (p: Pos2)
        ensures
            p == (Pos2 { x, y }),
    {
        Pos2 { x, y }
    }

    /// The key of this position: the keys of its two numbers.
    pub open spec fn spec_hash_key(&self) -> PairKey {
        PairKey { x: self.x.spec_hash_key(), y: self.y.spec_hash_key() }
    }

    /// The key under which this position is hashed.
    pub fn hash_key(&self) -> (key: PairKey)
        ensures
            key == self.spec_hash_key(),
    {
        PairKey { x: self.x.hash_key(), y: self.y.hash_key() }
    }

    /// The origin: both coordinates positive zero.
    pub open spec fn spec_zero() -> Pos2 {
        Pos2 { x: Scalar { bits: 0 }, y: Scalar { bits: 0 } }
    }

    /// The origin: both coordinates positive zero.
    #[verifier::when_used_as_spec(spec_zero)]
    pub fn zero() -> (p: Pos2)
        ensures
            p == Self::spec_zero(),
    {
        Pos2 { x: Scalar { bits: 0 }, y: Scalar { bits: 0 } }
    }
}

impl Vec2 {
    /// What `==` means on vectors: both components compare equal as numbers.
    pub open spec fn spec_eq(&self, other: &Vec2) -> bool {
        self.x@.float_eq(other.x@) && self.y@.float_eq(other.y@)
    }

    /// The vector with the given components.
    pub fn new(x: Scalar, y: Scalar) -> (v: Vec2)
        ensures
            v == (Vec2 { x, y }),
    {
        Vec2 { x, y }
    }

    /// The key of this vector: the keys of its two numbers.
    pub open spec fn spec_hash_key(&self) -> PairKey {
        PairKey { x: self.x.spec_hash_key(), y: self.y.spec_hash_key() }
    }

    /// The key under which this vector is hashed.
    pub fn hash_key(&self) -> (key: PairKey)
        ensures
            key == self.spec_hash_key(),
    {
        PairKey { x: self.x.hash_key(), y: self.y.hash_key() }
    }

    /// The null vector: both components positive zero.
    pub open spec fn spec_zero() -> Vec2 {
        Vec2 { x: Scalar { bits: 0 }, y: Scalar { bits: 0 } }
    }

    /// The null vector: both components positive zero.
    #[verifier::when_used_as_spec(spec_zero)]
    pub fn zero() -> (v: Vec2)
        ensures
            v == Self::spec_zero(),
    {
        Vec2 { x: Scalar { bits: 0 }, y: Scalar { bits: 0 } }
    }
}

impl PartialEq for Pos2 {
    /// Coordinate by coordinate, as numbers compare.
    fn eq(&self, other: &Self) -> (r: bool) {
        self.x == other.x && self.y == other.y
    }
}

impl PartialEqSpecImpl for Pos2 {
    open spec fn obeys_eq_spec() -> bool {
        true
    }

    open spec fn eq_spec(&self, other: &Self) -> bool {
        self.spec_eq(other)
    }
}

impl PartialEq for Vec2 {
    /// Component by component, as numbers compare.
    fn eq(&self, other: &Self) -> (r: bool) {
        self.x == other.x && self.y == other.y
    }
}

impl PartialEqSpecImpl for Vec2 {
    open spec fn obeys_eq_spec() -> bool {
        true
    }

    open spec fn eq_spec(&self, other: &Self) -> bool {
        self.spec_eq(other)
    }
}

} // verus!
