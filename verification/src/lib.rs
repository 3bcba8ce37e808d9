//! The verified core of a recursive Monte Carlo path tracer.
//!
//! A path tracer renders a scene of spheres by following light backwards:
//! from the eye along a ray to the first surface that the ray strikes, on
//! along the ray into which the surface's material scatters it, and so on
//! until the path leaves the scene, is swallowed, or has used up its budget
//! of bounces.
//!
//! The crate holds every decision of that process, each with a proved
//! contract: which of the two crossings of a sphere counts as the strike
//! ([`hittable`]), which surface of the scene is struck first
//! ([`hittable_list`]), which way a surface faces the ray, what each material
//! does with a ray ([`material`]), how a path ends and what it has gathered
//! on the way ([`integrator`]), which parameters a scene may have
//! ([`shape`], [`material`], [`error`]), and at which level a colour is
//! written ([`color`]).
//!
//! It does no arithmetic. The numbers of the tracer are double-precision
//! binary fractions, and the crate holds each as a [`scalar::Scalar`], by its
//! encoding; it orders them, negates them and passes them on. Sums,
//! products, roots and random draws are made by the caller, who hands the
//! results in: the solved intersection equation of a ray with a sphere, the
//! direction that the arithmetic proposes for a scattered ray, a uniform
//! draw. What the crate proves is therefore stated over what it is handed:
//! given the two crossings of each sphere, the strike it reports is the
//! nearest one inside the interval; given the proposed direction, the
//! scattered ray is the one that the material's rule prescribes.

pub mod color;
pub mod error;
pub mod hittable;
pub mod hittable_list;
pub mod integrator;
pub mod material;
pub mod random_scene;
pub mod ray;
pub mod sampling;
pub mod scalar;
pub mod shape;
pub mod vec3;
