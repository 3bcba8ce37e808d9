//! Triples of scalars: points, directions and colours.
//!
//! The tracer builds them, negates them and asks whether one has collapsed to
//! the origin. Sums, products and lengths are arithmetic and are done
//! elsewhere.

use crate::scalar::Scalar;
use vstd::prelude::*;

verus! {

/// The encoding of the bound below which a component counts as vanished:
/// ten to the power of minus eight.
pub const NEAR_ZERO_BITS: u64 = 0x3E45_798E_E230_8C3A;

/// Three scalars. Equality is equality of the three encodings.
#[derive(Clone, Copy, Debug, PartialEq, Eq, Structural)]
pub struct Vector3 {
    pub x: Scalar,
    pub y: Scalar,
    pub z: Scalar,
}

impl Vector3 {
    /// The vector whose components are those of `self` with the sign flipped.
    pub open spec fn spec_neg(self) -> Vector3 {
        Vector3 { x: self.x.spec_neg(), y: self.y.spec_neg(), z: self.z.spec_neg() }
    }

    /// Whether every component lies strictly between minus and plus the bound
    /// of [`NEAR_ZERO_BITS`].
    pub open spec fn spec_near_zero(self) -> bool {
        let bound = Scalar { bits: NEAR_ZERO_BITS };
        &&& self.x.spec_abs().spec_lt(bound)
        &&& self.y.spec_abs().spec_lt(bound)
        &&& self.z.spec_abs().spec_lt(bound)
    }

    /// The origin; as a colour, black.
    pub open spec fn spec_zero() -> Vector3 {
        Vector3 { x: Scalar::zero(), y: Scalar::zero(), z: Scalar::zero() }
    }

    /// All components one; as a colour, white.
    pub open spec fn spec_one() -> Vector3 {
        Vector3 { x: Scalar::one(), y: Scalar::one(), z: Scalar::one() }
    }

    pub fn new(x: Scalar, y: Scalar, z: Scalar) -> (v: Vector3)
        ensures
            v == (Vector3 { x, y, z }),
    {
        Vector3 { x, y, z }
    }

    /// The origin; as a colour, black.
    #[verifier::when_used_as_spec(spec_zero)]
    pub fn zero() -> (v: Vector3)
        ensures
            v == Vector3::spec_zero(),
    {
        Vector3 { x: Scalar::zero(), y: Scalar::zero(), z: Scalar::zero() }
    }

    /// All components one; as a colour, white.
    #[verifier::when_used_as_spec(spec_one)]
    pub fn one() -> (v: Vector3)
        ensures
            v == Vector3::spec_one(),
    {
        Vector3 { x: Scalar::one(), y: Scalar::one(), z: Scalar::one() }
    }

    /// The unit vector along the first axis.
    pub fn unit_x() -> (v: Vector3)
        ensures
            v == (Vector3 { x: Scalar::one(), y: Scalar::zero(), z: Scalar::zero() }),
    {
        Vector3 { x: Scalar::one(), y: Scalar::zero(), z: Scalar::zero() }
    }

    /// The unit vector along the second axis.
    pub fn unit_y() -> (v: Vector3)
        ensures
            v == (Vector3 { x: Scalar::zero(), y: Scalar::one(), z: Scalar::zero() }),
    {
        Vector3 { x: Scalar::zero(), y: Scalar::one(), z: Scalar::zero() }
    }

    /// The unit vector along the third axis.
    pub fn unit_z() -> (v: Vector3)
        ensures
            v == (Vector3 { x: Scalar::zero(), y: Scalar::zero(), z: Scalar::one() }),
    {
        Vector3 { x: Scalar::zero(), y: Scalar::zero(), z: Scalar::one() }
    }

    /// The opposite vector.
    #[verifier::when_used_as_spec(spec_neg)]
    pub fn neg(self) -> (v: Vector3)
        ensures
            v == self.spec_neg(),
    {
        Vector3 { x: self.x.neg(), y: self.y.neg(), z: self.z.neg() }
    }

    /// Whether the vector is too short to give a direction.
    #[verifier::when_used_as_spec(spec_near_zero)]
    pub fn near_zero(self) -> (r: bool)
        ensures
            r == self.spec_near_zero(),
    {
        let bound = Scalar::from_bits(NEAR_ZERO_BITS);
        self.x.abs().lt(bound) && self.y.abs().lt(bound) && self.z.abs().lt(bound)
    }
}

} // verus!
