//! The analytic surfaces a scene is made of.

use crate::error::SceneError;
use crate::scalar::Scalar;
use crate::vec3::Vector3;
use vstd::prelude::*;

verus! {

/// A sphere. Its radius is above zero.
#[derive(Clone, Copy, Debug, PartialEq, Eq)]
pub struct Sphere {
    center: Vector3,
    radius: Scalar,
}

impl Sphere {
    pub closed spec fn spec_center(self) -> Vector3 {
        self.center
    }

    pub closed spec fn spec_radius(self) -> Scalar {
        self.radius
    }

    #[verifier::type_invariant]
    spec fn positive_radius(self) -> bool {
        self.radius.gt(Scalar::zero())
    }

    /// The sphere round `center` with the given radius, unless the radius is
    /// zero, below zero or no number.
    pub fn new(center: Vector3, radius: Scalar) -> (r: Result<Sphere, SceneError>)
        ensures
            radius.gt(Scalar::zero()) ==> r is Ok && r->Ok_0.center() == center
                && r->Ok_0.radius() == radius,
            !radius.gt(Scalar::zero()) ==> r == Err::<Sphere, SceneError>(
                SceneError::RadiusNotPositive,
            ),
    {
        if radius.gt(Scalar::zero()) {
            Ok(Sphere { center, radius })
        } else {
            Err(SceneError::RadiusNotPositive)
        }
    }

    #[verifier::when_used_as_spec(spec_center)]
    pub fn center(self) -> (c: Vector3)
        ensures
            c == self.spec_center(),
    {
        self.center
    }

    #[verifier::when_used_as_spec(spec_radius)]
    pub fn radius(self) -> (r: Scalar)
        ensures
            r == self.spec_radius(),
            r.gt(Scalar::zero()),
    {
        proof {
            use_type_invariant(&self);
        }
        self.radius
    }
}

/// A surface of the scene.
#[derive(Clone, Copy, Debug, PartialEq, Eq)]
pub enum Shape {
    Sphere(Sphere),
}

impl Shape {
    /// A spherical surface, under the conditions of [`Sphere::new`].
    pub fn sphere(center: Vector3, radius: Scalar) -> (r: Result<Shape, SceneError>)
        ensures
            radius.gt(Scalar::zero()) ==> r is Ok && r->Ok_0 is Sphere
                && r->Ok_0->Sphere_0.center() == center && r->Ok_0->Sphere_0.radius()
                == radius,
            !radius.gt(Scalar::zero()) ==> r == Err::<Shape, SceneError>(
                SceneError::RadiusNotPositive,
            ),
    {
        match Sphere::new(center, radius) {
            Ok(sphere) => Ok(Shape::Sphere(sphere)),
            Err(e) => Err(e),
        }
    }
}

} // verus!
