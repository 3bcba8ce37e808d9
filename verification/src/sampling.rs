//! Rejection sampling: which candidates a sampler keeps.

use crate::scalar::Scalar;
use vstd::prelude::*;

verus! {

/// Whether a candidate drawn from the cube, or the square, round the origin
/// with side two is kept as a point of the unit ball or disc: its squared
/// length is below one. A sampler draws again until a candidate is kept.
pub fn inside_unit_ball(length_squared: Scalar) -> (kept: bool)
    ensures
        kept == length_squared.lt(Scalar::one()),
{
    length_squared.lt(Scalar::one())
}

} // verus!
