//! One surface of the scene, and what is known where a ray meets it.

use crate::material::Material;
use crate::scalar::Scalar;
use crate::shape::Shape;
use crate::vec3::Vector3;
use vstd::prelude::*;

verus! {

/// Where a ray met a surface.
///
/// The normal always stands against the ray; `front_face` tells whether the
/// ray came from outside the surface.
#[derive(Clone, Copy, Debug, PartialEq, Eq)]
pub struct HitRecord {
    pub p: Vector3,
    pub normal: Vector3,
    pub material: Material,
    pub t: Scalar,
    pub front_face: bool,
}

impl HitRecord {
    /// Turns the surface's outward normal against the ray.
    ///
    /// `approach` is the dot product of the ray's direction with
    /// `outward_normal`. Below zero the ray comes from outside, and the
    /// normal stays; otherwise the ray comes from inside, and the normal is
    /// reversed.
    pub fn set_face_normal(&mut self, approach: Scalar, outward_normal: Vector3)
        ensures
            final(self).front_face == approach.lt(Scalar::zero()),
            final(self).normal == if approach.lt(Scalar::zero()) {
                outward_normal
            } else {
                outward_normal.neg()
            },
            final(self).p == old(self).p,
            final(self).t == old(self).t,
            final(self).material == old(self).material,
    {
        self.front_face = approach.lt(Scalar::zero());
        self.normal = if self.front_face {
            outward_normal
        } else {
            outward_normal.neg()
        };
    }
}

/// The intersection equation of one ray with one sphere, solved: the
/// discriminant, and the two ray parameters at which the line of the ray
/// crosses the sphere, the smaller one first.
#[derive(Clone, Copy, Debug, PartialEq, Eq, Structural)]
pub struct Roots {
    pub discriminant: Scalar,
    pub near: Scalar,
    pub far: Scalar,
}

/// Whether `t` lies strictly between `t_min` and `t_max`.
pub open spec fn strictly_inside(t: Scalar, t_min: Scalar, t_max: Scalar) -> bool {
    t_min.lt(t) && t.lt(t_max)
}

impl Roots {
    /// Whether the line of the ray crosses the sphere in two places. A line
    /// that only touches the sphere does not count.
    pub open spec fn crosses(self) -> bool {
        self.discriminant.gt(Scalar::zero())
    }

    /// The first of `near`, `far` that lies strictly inside the interval, if
    /// the ray crosses the sphere at all.
    pub open spec fn spec_first_inside(self, t_min: Scalar, t_max: Scalar) -> Option<Scalar> {
        if !self.crosses() {
            None
        } else if strictly_inside(self.near, t_min, t_max) {
            Some(self.near)
        } else if strictly_inside(self.far, t_min, t_max) {
            Some(self.far)
        } else {
            None
        }
    }

    /// The ray parameter at which the ray is taken to strike the sphere,
    /// looking only at parameters strictly between `t_min` and `t_max`.
    #[verifier::when_used_as_spec(spec_first_inside)]
    pub fn first_inside(self, t_min: Scalar, t_max: Scalar) -> (t: Option<Scalar>)
        ensures
            t == self.spec_first_inside(t_min, t_max),
    {
        if !self.discriminant.gt(Scalar::zero()) {
            return None;
        }
        if t_min.lt(self.near) && self.near.lt(t_max) {
            return Some(self.near);
        }
        if t_min.lt(self.far) && self.far.lt(t_max) {
            return Some(self.far);
        }
        None
    }
}

/// With the roots in order, the parameter that is taken is the least crossing
/// inside the interval, and one is taken as soon as a crossing lies inside.
pub proof fn lemma_first_inside_is_least(roots: Roots, t_min: Scalar, t_max: Scalar)
    requires
        roots.near.le(roots.far),
    ensures
        roots.spec_first_inside(t_min, t_max) matches Some(t) ==> {
            &&& roots.crosses()
            &&& t == roots.near || t == roots.far
            &&& strictly_inside(t, t_min, t_max)
            &&& strictly_inside(roots.near, t_min, t_max) ==> t.le(roots.near)
            &&& strictly_inside(roots.far, t_min, t_max) ==> t.le(roots.far)
        },
        roots.spec_first_inside(t_min, t_max) is None <==> !roots.crosses() || (!strictly_inside(
            roots.near,
            t_min,
            t_max,
        ) && !strictly_inside(roots.far, t_min, t_max)),
        roots.crosses() && strictly_inside(roots.near, t_min, t_max)
            ==> roots.spec_first_inside(t_min, t_max) == Some(roots.near),
{
}

/// The recorded normal stands against the ray.
///
/// `approach` is the dot product of the ray's direction with the outward
/// normal; with the reversed normal the dot product is the negated
/// `approach`. Whatever side the ray comes from, its dot product with the
/// recorded normal is not above zero, and it is below zero on the front
/// face. A ray that is recorded on the back face has an `approach` of zero
/// or more.
pub proof fn lemma_normal_stands_against_ray(approach: Scalar)
    requires
        !approach.is_nan(),
    ensures
        ({
            let front_face = approach.lt(Scalar::zero());
            let against = if front_face {
                approach
            } else {
                approach.neg()
            };
            &&& against.le(Scalar::zero())
            &&& front_face ==> against.lt(Scalar::zero())
            &&& !front_face ==> Scalar::zero().le(approach)
        }),
{
}

/// A surface with its material.
#[derive(Clone, Copy, Debug, PartialEq, Eq)]
pub struct Hittable {
    pub shape: Shape,
    pub material: Material,
}

impl Hittable {
    pub fn new(shape: Shape, material: Material) -> (h: Hittable)
        ensures
            h.shape == shape,
            h.material == material,
    {
        Hittable { shape, material }
    }

    /// The ray parameter at which a ray strikes this surface, given the
    /// solved intersection equation of the two and the interval of parameters
    /// that count.
    pub fn hit(&self, roots: &Roots, t_min: Scalar, t_max: Scalar) -> (t: Option<Scalar>)
        ensures
            t == roots.spec_first_inside(t_min, t_max),
    {
        match self.shape {
            Shape::Sphere(_) => roots.first_inside(t_min, t_max),
        }
    }

    /// The record of a strike on this surface.
    ///
    /// `p` is the point struck, at ray parameter `t`; `outward_normal` the
    /// surface's unit normal there, and `approach` the dot product of the
    /// ray's direction with it. The record carries the surface's material and
    /// the normal turned against the ray.
    pub fn record(&self, t: Scalar, p: Vector3, outward_normal: Vector3, approach: Scalar) -> (rec:
        HitRecord)
        ensures
            rec.t == t,
            rec.p == p,
            rec.material == self.material,
            rec.front_face == approach.lt(Scalar::zero()),
            rec.normal == if approach.lt(Scalar::zero()) {
                outward_normal
            } else {
                outward_normal.neg()
            },
    {
        let mut rec = HitRecord {
            p,
            normal: outward_normal,
            material: self.material,
            t,
            front_face: false,
        };
        rec.set_face_normal(approach, outward_normal);
        rec
    }
}

} // verus!
