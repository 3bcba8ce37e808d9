//! How a surface answers a ray that strikes it.
//!
//! A material never computes a direction. It is shown the direction that the
//! arithmetic proposes and rules whether the ray goes on, along what, and
//! with which colour filter.

use crate::error::SceneError;
use crate::hittable::HitRecord;
use crate::ray::Ray;
use crate::scalar::Scalar;
use crate::vec3::Vector3;
use vstd::prelude::*;

verus! {

/// Whether a scalar lies between zero and one, both included.
pub open spec fn in_unit_interval(s: Scalar) -> bool {
    Scalar::zero().le(s) && s.le(Scalar::one())
}

/// Whether each component lies between zero and one, both included.
pub open spec fn in_unit_cube(v: Vector3) -> bool {
    in_unit_interval(v.x) && in_unit_interval(v.y) && in_unit_interval(v.z)
}

/// The roughness that a metal takes from a requested one: the request where it
/// lies between zero and one, zero below that, and one above or where the
/// request is no number.
pub open spec fn clamped_roughness(fuzz: Scalar) -> Scalar {
    if fuzz.lt(Scalar::zero()) {
        Scalar::zero()
    } else if fuzz.lt(Scalar::one()) {
        fuzz
    } else {
        Scalar::one()
    }
}

/// A matte surface. Each component of its albedo lies between zero and one.
#[derive(Clone, Copy, Debug, PartialEq, Eq)]
pub struct Lambertian {
    albedo: Vector3,
}

impl Lambertian {
    pub closed spec fn spec_albedo(self) -> Vector3 {
        self.albedo
    }

    #[verifier::type_invariant]
    spec fn albedo_in_range(self) -> bool {
        in_unit_cube(self.albedo)
    }

    #[verifier::when_used_as_spec(spec_albedo)]
    pub fn albedo(self) -> (a: Vector3)
        ensures
            a == self.spec_albedo(),
            in_unit_cube(a),
    {
        proof {
            use_type_invariant(&self);
        }
        self.albedo
    }
}

/// A mirror, blurred by its roughness, which lies between zero and one.
#[derive(Clone, Copy, Debug, PartialEq, Eq)]
pub struct Metal {
    albedo: Vector3,
    fuzz: Scalar,
}

impl Metal {
    pub closed spec fn spec_albedo(self) -> Vector3 {
        self.albedo
    }

    pub closed spec fn spec_fuzz(self) -> Scalar {
        self.fuzz
    }

    #[verifier::type_invariant]
    spec fn fuzz_in_range(self) -> bool {
        in_unit_interval(self.fuzz)
    }

    #[verifier::when_used_as_spec(spec_albedo)]
    pub fn albedo(self) -> (a: Vector3)
        ensures
            a == self.spec_albedo(),
    {
        self.albedo
    }

    #[verifier::when_used_as_spec(spec_fuzz)]
    pub fn fuzz(self) -> (f: Scalar)
        ensures
            f == self.spec_fuzz(),
            in_unit_interval(f),
    {
        proof {
            use_type_invariant(&self);
        }
        self.fuzz
    }
}

/// A clear medium such as glass. Its refractive index is above zero.
#[derive(Clone, Copy, Debug, PartialEq, Eq)]
pub struct Dielectric {
    ref_idx: Scalar,
}

/// What a ray does at the boundary of a clear medium.
#[derive(Clone, Copy, Debug, PartialEq, Eq, Structural)]
pub enum Turn {
    /// It is thrown back.
    Reflect,
    /// It passes through, bent.
    Refract,
    /// Either may happen, and a uniform draw from zero to one has to settle
    /// it.
    Undecided,
}

/// The rule of the boundary. `bend` is the refraction ratio times the sine of
/// the angle of incidence, `chance` a uniform draw with the reflectance that
/// it is held against.
pub open spec fn spec_turn(bend: Scalar, chance: Option<(Scalar, Scalar)>) -> Turn {
    if bend.gt(Scalar::one()) {
        Turn::Reflect
    } else {
        match chance {
            None => Turn::Undecided,
            Some((draw, reflectance)) => if draw.lt(reflectance) {
                Turn::Reflect
            } else {
                Turn::Refract
            },
        }
    }
}

impl Dielectric {
    pub closed spec fn spec_ref_idx(self) -> Scalar {
        self.ref_idx
    }

    #[verifier::type_invariant]
    spec fn positive_index(self) -> bool {
        self.ref_idx.gt(Scalar::zero())
    }

    #[verifier::when_used_as_spec(spec_ref_idx)]
    pub fn ref_idx(self) -> (i: Scalar)
        ensures
            i == self.spec_ref_idx(),
            i.gt(Scalar::zero()),
    {
        proof {
            use_type_invariant(&self);
        }
        self.ref_idx
    }

    /// The ratio of the refractive indices that a ray crosses: `inverse`,
    /// which the caller has computed as one over the index, for a ray that
    /// enters from outside, and the index itself for one that leaves.
    pub fn refraction_ratio(self, front_face: bool, inverse: Scalar) -> (ratio: Scalar)
        ensures
            ratio == if front_face {
                inverse
            } else {
                self.ref_idx()
            },
    {
        if front_face {
            inverse
        } else {
            self.ref_idx
        }
    }

    /// Rules what the ray does at the boundary.
    ///
    /// Above a `bend` of one no refraction exists and the ray reflects, drawn
    /// number or not. Otherwise the ray reflects where the draw falls below
    /// the reflectance and refracts where it does not; without a draw the
    /// answer is [`Turn::Undecided`], and only then is a draw to be made.
    pub fn turn(bend: Scalar, chance: Option<(Scalar, Scalar)>) -> (t: Turn)
        ensures
            t == spec_turn(bend, chance),
    {
        if bend.gt(Scalar::one()) {
            Turn::Reflect
        } else {
            match chance {
                None => Turn::Undecided,
                Some((draw, reflectance)) => {
                    if draw.lt(reflectance) {
                        Turn::Reflect
                    } else {
                        Turn::Refract
                    }
                },
            }
        }
    }
}

/// The reflectance model of a surface.
#[derive(Clone, Copy, Debug, PartialEq, Eq)]
pub enum Material {
    Lambertian(Lambertian),
    Metal(Metal),
    Dielectric(Dielectric),
}

impl Material {
    /// What [`Material::scatter`] returns.
    ///
    /// A matte surface always scatters, filtered by its albedo, along the
    /// proposed direction, or along the normal where the proposal has
    /// collapsed to nothing. A metal scatters, filtered by its albedo, only
    /// while the proposal points away from the surface. A clear medium always
    /// passes the ray on unfiltered.
    pub open spec fn spec_scatter(
        self,
        rec: HitRecord,
        direction: Vector3,
        alignment: Scalar,
    ) -> Option<(Vector3, Ray)> {
        match self {
            Material::Lambertian(lambertian) => {
                let dir = if direction.near_zero() {
                    rec.normal
                } else {
                    direction
                };
                Some((lambertian.albedo(), Ray { origin: rec.p, dir }))
            },
            Material::Metal(metal) => {
                if alignment.gt(Scalar::zero()) {
                    Some((metal.albedo(), Ray { origin: rec.p, dir: direction }))
                } else {
                    None
                }
            },
            Material::Dielectric(_) => Some((Vector3::one(), Ray { origin: rec.p, dir: direction })),
        }
    }

    /// A matte material, unless a component of the albedo is outside zero to
    /// one.
    pub fn lambertian(albedo: Vector3) -> (r: Result<Material, SceneError>)
        ensures
            in_unit_cube(albedo) ==> r is Ok && r->Ok_0 is Lambertian
                && r->Ok_0->Lambertian_0.albedo() == albedo,
            !in_unit_cube(albedo) ==> r == Err::<Material, SceneError>(
                SceneError::AlbedoOutOfRange,
            ),
    {
        let zero = Scalar::zero();
        let one = Scalar::one();
        if zero.le(albedo.x) && albedo.x.le(one) && zero.le(albedo.y) && albedo.y.le(one)
            && zero.le(albedo.z) && albedo.z.le(one) {
            Ok(Material::Lambertian(Lambertian { albedo }))
        } else {
            Err(SceneError::AlbedoOutOfRange)
        }
    }

    /// A metal with its roughness brought into zero to one.
    pub fn metal(albedo: Vector3, fuzz: Scalar) -> (m: Material)
        ensures
            m is Metal,
            m->Metal_0.albedo() == albedo,
            m->Metal_0.fuzz() == clamped_roughness(fuzz),
    {
        let fuzz = if fuzz.lt(Scalar::zero()) {
            Scalar::zero()
        } else if fuzz.lt(Scalar::one()) {
            fuzz
        } else {
            Scalar::one()
        };
        Material::Metal(Metal { albedo, fuzz })
    }

    /// A clear material, unless the refractive index is zero, below zero or
    /// no number.
    pub fn dielectric(ref_idx: Scalar) -> (r: Result<Material, SceneError>)
        ensures
            ref_idx.gt(Scalar::zero()) ==> r is Ok && r->Ok_0 is Dielectric
                && r->Ok_0->Dielectric_0.ref_idx() == ref_idx,
            !ref_idx.gt(Scalar::zero()) ==> r == Err::<Material, SceneError>(
                SceneError::RefractiveIndexNotPositive,
            ),
    {
        if ref_idx.gt(Scalar::zero()) {
            Ok(Material::Dielectric(Dielectric { ref_idx }))
        } else {
            Err(SceneError::RefractiveIndexNotPositive)
        }
    }

    /// Rules on a ray that has struck the surface at `rec`.
    ///
    /// `direction` is where the arithmetic proposes to send the ray and
    /// `alignment` the dot product of that direction with the surface normal.
    /// The answer is the colour filter and the ray that goes on, or nothing
    /// where the surface swallows the ray.
    pub fn scatter(&self, rec: &HitRecord, direction: Vector3, alignment: Scalar) -> (r: Option<
        (Vector3, Ray),
    >)
        ensures
            r == self.spec_scatter(*rec, direction, alignment),
    {
        match self {
            Material::Lambertian(lambertian) => {
                let dir = if direction.near_zero() {
                    rec.normal
                } else {
                    direction
                };
                Some((lambertian.albedo, Ray::new(rec.p, dir)))
            },
            Material::Metal(metal) => {
                if alignment.gt(Scalar::zero()) {
                    Some((metal.albedo, Ray::new(rec.p, direction)))
                } else {
                    None
                }
            },
            Material::Dielectric(_) => Some((Vector3::one(), Ray::new(rec.p, direction))),
        }
    }
}

/// A matte surface never swallows a ray, and the filter it applies is its
/// albedo, whatever direction is proposed.
pub proof fn lemma_diffuse_always_scatters(
    lambertian: Lambertian,
    rec: HitRecord,
    direction: Vector3,
    alignment: Scalar,
)
    ensures
        Material::Lambertian(lambertian).spec_scatter(rec, direction, alignment) is Some,
        Material::Lambertian(lambertian).spec_scatter(rec, direction, alignment)->Some_0.0
            == lambertian.albedo(),
{
}

/// Where refraction is impossible the ray reflects, and no draw can change
/// that.
pub proof fn lemma_total_reflection_needs_no_draw(bend: Scalar, chance: Option<(Scalar, Scalar)>)
    requires
        bend.gt(Scalar::one()),
    ensures
        spec_turn(bend, chance) == Turn::Reflect,
        spec_turn(bend, chance) == spec_turn(bend, None),
{
}

/// Once a draw is given the boundary is decided.
pub proof fn lemma_draw_decides(bend: Scalar, draw: Scalar, reflectance: Scalar)
    ensures
        spec_turn(bend, Some((draw, reflectance))) != Turn::Undecided,
{
}

} // verus!
