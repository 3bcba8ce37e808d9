//! Why a scene description is turned away.

use vstd::prelude::*;

verus! {

/// A parameter that no surface can have. Scenes are checked while they are
/// built, so tracing never meets one.
#[derive(Clone, Copy, Debug, PartialEq, Eq, Structural)]
pub enum SceneError {
    /// A sphere's radius is not above zero.
    RadiusNotPositive,
    /// A component of a diffuse albedo is not between zero and one.
    AlbedoOutOfRange,
    /// A refractive index is not above zero.
    RefractiveIndexNotPositive,
}

} // verus!
