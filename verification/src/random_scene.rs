//! The choices behind a scene of many small spheres scattered on the ground
//! round three large ones.

use crate::scalar::Scalar;
use vstd::prelude::*;

verus! {

/// The encoding of eight tenths: below it a draw gives a matte sphere.
pub const DIFFUSE_BELOW_BITS: u64 = 0x3FE9_9999_9999_999A;

/// The encoding of ninety-five hundredths: below it, and not below eight
/// tenths, a draw gives a metal sphere.
pub const METAL_BELOW_BITS: u64 = 0x3FEE_6666_6666_6666;

/// The encoding of nine tenths: the distance that a small sphere keeps from
/// the reserved spot.
pub const CLEARANCE_BITS: u64 = 0x3FEC_CCCC_CCCC_CCCD;

/// What a small sphere is made of.
#[derive(Clone, Copy, Debug, PartialEq, Eq, Structural)]
pub enum Kind {
    Diffuse,
    Metal,
    Glass,
}

/// The kind that a uniform draw from zero to one selects: eight in ten
/// spheres are matte, three in twenty metal, the rest glass.
pub open spec fn spec_kind_for(draw: Scalar) -> Kind {
    if draw.lt(Scalar { bits: DIFFUSE_BELOW_BITS }) {
        Kind::Diffuse
    } else if draw.lt(Scalar { bits: METAL_BELOW_BITS }) {
        Kind::Metal
    } else {
        Kind::Glass
    }
}

#[verifier::when_used_as_spec(spec_kind_for)]
pub fn kind_for(draw: Scalar) -> (kind: Kind)
    ensures
        kind == spec_kind_for(draw),
{
    if draw.lt(Scalar::from_bits(DIFFUSE_BELOW_BITS)) {
        Kind::Diffuse
    } else if draw.lt(Scalar::from_bits(METAL_BELOW_BITS)) {
        Kind::Metal
    } else {
        Kind::Glass
    }
}

/// Whether a small sphere whose centre lies `distance` from the reserved spot
/// is placed: only if the distance is above nine tenths.
pub fn keeps_clear(distance: Scalar) -> (placed: bool)
    ensures
        placed == distance.gt(Scalar { bits: CLEARANCE_BITS }),
{
    distance.gt(Scalar::from_bits(CLEARANCE_BITS))
}

} // verus!
