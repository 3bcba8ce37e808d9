use pathtracer::error::SceneError;
use pathtracer::hittable::{Hittable, Roots};
use pathtracer::hittable_list::HittableList;
use pathtracer::material::Material;
use pathtracer::scalar::Scalar;
use pathtracer::shape::{Shape, Sphere};
use pathtracer::vec3::Vector3;

fn scalar(x: f64) -> Scalar {
    Scalar::from_bits(x.to_bits())
}

fn number(s: Scalar) -> f64 {
    f64::from_bits(s.to_bits())
}

fn vector(v: [f64; 3]) -> Vector3 {
    Vector3::new(scalar(v[0]), scalar(v[1]), scalar(v[2]))
}

fn dot(a: [f64; 3], b: [f64; 3]) -> f64 {
    a[0] * b[0] + a[1] * b[1] + a[2] * b[2]
}

fn minus(a: [f64; 3], b: [f64; 3]) -> [f64; 3] {
    [a[0] - b[0], a[1] - b[1], a[2] - b[2]]
}

/// The quadratic of a ray and a sphere, solved in double precision.
fn solve(center: [f64; 3], radius: f64, origin: [f64; 3], dir: [f64; 3]) -> Roots {
    let oc = minus(origin, center);
    let a = dot(dir, dir);
    let half_b = dot(oc, dir);
    let c = dot(oc, oc) - radius * radius;
    let discriminant = half_b * half_b - a * c;
    let root = discriminant.sqrt();
    Roots {
        discriminant: scalar(discriminant),
        near: scalar((-half_b - root) / a),
        far: scalar((-half_b + root) / a),
    }
}

fn grey() -> Material {
    Material::lambertian(vector([0.5, 0.5, 0.5])).unwrap()
}

fn ball(center: [f64; 3], radius: f64) -> Hittable {
    Hittable::new(Shape::sphere(vector(center), scalar(radius)).unwrap(), grey())
}

fn roots(discriminant: f64, near: f64, far: f64) -> Roots {
    Roots {
        discriminant: scalar(discriminant),
        near: scalar(near),
        far: scalar(far),
    }
}

#[test]
fn sphere_keeps_what_it_is_given() {
    let s = Sphere::new(vector([1., 2., 3.]), scalar(0.5)).unwrap();
    assert_eq!(s.center(), vector([1., 2., 3.]));
    assert_eq!(s.radius(), scalar(0.5));
}

#[test]
fn sphere_needs_a_radius_above_zero() {
    let c = vector([0., 0., 0.]);
    assert_eq!(Sphere::new(c, scalar(0.)), Err(SceneError::RadiusNotPositive));
    assert_eq!(Sphere::new(c, scalar(-0.)), Err(SceneError::RadiusNotPositive));
    assert_eq!(Sphere::new(c, scalar(-1.)), Err(SceneError::RadiusNotPositive));
    assert_eq!(Sphere::new(c, scalar(f64::NAN)), Err(SceneError::RadiusNotPositive));
    assert_eq!(Shape::sphere(c, scalar(-2.)), Err(SceneError::RadiusNotPositive));
    assert!(Sphere::new(c, scalar(5.0e-324)).is_ok());
    assert!(Shape::sphere(c, scalar(1000.)).is_ok());
}

#[test]
fn first_root_inside_the_interval_is_taken() {
    let r = roots(1., 2., 4.);
    assert_eq!(r.first_inside(scalar(0.), scalar(10.)), Some(scalar(2.)));
    assert_eq!(r.first_inside(scalar(2.), scalar(10.)), Some(scalar(4.)));
    assert_eq!(r.first_inside(scalar(0.), scalar(2.)), None);
    assert_eq!(r.first_inside(scalar(0.), scalar(4.)), Some(scalar(2.)));
    assert_eq!(r.first_inside(scalar(4.), scalar(10.)), None);
    assert_eq!(r.first_inside(scalar(2.5), scalar(3.5)), None);
}

#[test]
fn a_ray_that_only_touches_does_not_hit() {
    assert_eq!(roots(0., 1., 1.).first_inside(scalar(0.), scalar(10.)), None);
    assert_eq!(roots(-0., 1., 1.).first_inside(scalar(0.), scalar(10.)), None);
    assert_eq!(roots(-1., 1., 1.).first_inside(scalar(0.), scalar(10.)), None);
    assert_eq!(roots(f64::NAN, 1., 1.).first_inside(scalar(0.), scalar(10.)), None);
}

#[test]
fn roots_that_are_no_numbers_are_never_taken() {
    let r = roots(1., f64::NAN, f64::NAN);
    assert_eq!(r.first_inside(scalar(0.), scalar(f64::INFINITY)), None);
    let r = roots(1., f64::NAN, 3.);
    assert_eq!(r.first_inside(scalar(0.), scalar(f64::INFINITY)), Some(scalar(3.)));
}

#[test]
fn ray_passing_at_a_distance_misses() {
    // closest approach to the centre is 1, the radius 0.5
    let r = solve([0., 1., -1.], 0.5, [0., 0., 0.], [0., 0., -1.]);
    let h = ball([0., 1., -1.], 0.5);
    assert_eq!(h.hit(&r, scalar(0.001), scalar(f64::INFINITY)), None);
    // closest approach equals the radius
    let r = solve([0., 0.5, -1.], 0.5, [0., 0., 0.], [0., 0., -1.]);
    assert_eq!(h.hit(&r, scalar(0.001), scalar(f64::INFINITY)), None);
}

#[test]
fn ray_from_outside_hits_the_near_surface() {
    let r = solve([0., 0., -3.], 1., [0., 0., 0.], [0., 0., -1.]);
    let h = ball([0., 0., -3.], 1.);
    let t = h.hit(&r, scalar(0.001), scalar(f64::INFINITY)).unwrap();
    assert_eq!(number(t), 2.);
    assert_eq!(number(r.far), 4.);
}

#[test]
fn ray_from_inside_hits_the_far_surface() {
    let r = solve([0., 0., 0.], 1., [0., 0., 0.], [0., 0., -1.]);
    let h = ball([0., 0., 0.], 1.);
    let t = h.hit(&r, scalar(0.001), scalar(f64::INFINITY)).unwrap();
    assert_eq!(number(t), 1.);
    assert_eq!(number(r.near), -1.);
}

#[test]
fn sphere_behind_the_ray_is_not_hit() {
    let r = solve([0., 0., 3.], 1., [0., 0., 0.], [0., 0., -1.]);
    let h = ball([0., 0., 3.], 1.);
    assert_eq!(h.hit(&r, scalar(0.001), scalar(f64::INFINITY)), None);
}

#[test]
fn record_of_a_front_face_keeps_the_normal() {
    let h = ball([0., 0., -1.], 0.5);
    let n = vector([0., 0., 1.]);
    let rec = h.record(scalar(0.5), vector([0., 0., -0.5]), n, scalar(-1.));
    assert!(rec.front_face);
    assert_eq!(rec.normal, n);
    assert_eq!(rec.t, scalar(0.5));
    assert_eq!(rec.p, vector([0., 0., -0.5]));
    assert_eq!(rec.material, grey());
}

#[test]
fn record_of_a_back_face_reverses_the_normal() {
    let h = ball([0., 0., 0.], 1.);
    let n = vector([0., 0., -1.]);
    let rec = h.record(scalar(1.), vector([0., 0., -1.]), n, scalar(1.));
    assert!(!rec.front_face);
    assert_eq!(rec.normal, vector([-0., -0., 1.]));
    // an approach of exactly zero counts as the back face
    let rec = h.record(scalar(1.), vector([0., 0., -1.]), n, scalar(0.));
    assert!(!rec.front_face);
    assert_eq!(rec.normal, n.neg());
}

#[test]
fn set_face_normal_leaves_the_rest_alone() {
    let h = ball([0., 0., 0.], 1.);
    let mut rec = h.record(scalar(1.), vector([1., 2., 3.]), vector([0., 1., 0.]), scalar(-1.));
    rec.set_face_normal(scalar(2.), vector([1., 0., 0.]));
    assert!(!rec.front_face);
    assert_eq!(rec.normal, vector([-1., -0., -0.]));
    assert_eq!(rec.p, vector([1., 2., 3.]));
    assert_eq!(rec.t, scalar(1.));
    assert_eq!(rec.material, grey());
    rec.set_face_normal(scalar(-2.), vector([1., 0., 0.]));
    assert!(rec.front_face);
    assert_eq!(rec.normal, vector([1., 0., 0.]));
}

#[test]
fn single_sphere_straight_ahead() {
    // radius 0.5 at (0,0,-1), ray from the origin down -z
    let center = [0., 0., -1.];
    let origin = [0., 0., 0.];
    let dir = [0., 0., -1.];
    let mut world = HittableList::new();
    world.push(ball(center, 0.5));
    let solved = vec![solve(center, 0.5, origin, dir)];
    let (index, t) = world.hit(&solved, scalar(0.001), scalar(f64::INFINITY)).unwrap();
    assert_eq!(index, 0);
    assert!((number(t) - 0.5).abs() < 1e-12);

    let tt = number(t);
    let p = [origin[0] + tt * dir[0], origin[1] + tt * dir[1], origin[2] + tt * dir[2]];
    let outward = [(p[0] - center[0]) / 0.5, (p[1] - center[1]) / 0.5, (p[2] - center[2]) / 0.5];
    let rec = world.get(index).record(t, vector(p), vector(outward), scalar(dot(dir, outward)));
    assert!(rec.front_face);
    assert!((number(rec.normal.x) - 0.).abs() < 1e-12);
    assert!((number(rec.normal.y) - 0.).abs() < 1e-12);
    assert!((number(rec.normal.z) - 1.).abs() < 1e-12);
    let length = dot(
        [number(rec.normal.x), number(rec.normal.y), number(rec.normal.z)],
        [number(rec.normal.x), number(rec.normal.y), number(rec.normal.z)],
    )
    .sqrt();
    assert!((length - 1.).abs() < 1e-9);
}

#[test]
fn empty_world_is_never_hit() {
    let world = HittableList::new();
    assert_eq!(world.len(), 0);
    assert_eq!(world.hit(&vec![], scalar(0.), scalar(f64::INFINITY)), None);
}

#[test]
fn nearest_of_several_wins_whatever_the_order() {
    let centers = [[0., 0., -10.], [0., 0., -3.], [0., 0., -6.], [0., 5., -1.]];
    let origin = [0., 0., 0.];
    let dir = [0., 0., -1.];
    for shift in 0..centers.len() {
        let mut world = HittableList::new();
        let mut solved = Vec::new();
        let mut expected = 0;
        for k in 0..centers.len() {
            let c = centers[(k + shift) % centers.len()];
            if c == [0., 0., -3.] {
                expected = k;
            }
            world.push(ball(c, 1.));
            solved.push(solve(c, 1., origin, dir));
        }
        let (index, t) = world.hit(&solved, scalar(0.001), scalar(f64::INFINITY)).unwrap();
        assert_eq!(index, expected);
        assert_eq!(number(t), 2.);
    }
}

#[test]
fn of_two_equally_near_the_first_wins() {
    let mut world = HittableList::new();
    world.push(ball([0., 0., -3.], 1.));
    world.push(ball([0., 0., -3.], 1.));
    let solved = vec![roots(1., 2., 4.), roots(1., 2., 4.)];
    assert_eq!(world.hit(&solved, scalar(0.), scalar(10.)), Some((0, scalar(2.))));
}

#[test]
fn the_upper_bound_shrinks_as_hits_are_found() {
    let mut world = HittableList::new();
    world.push(ball([0., 0., -3.], 1.));
    world.push(ball([0., 0., -3.], 1.));
    world.push(ball([0., 0., -3.], 1.));
    // the second surface is struck at 3 only beyond the first one's 2;
    // the third first at 1.5
    let solved = vec![roots(1., 2., 4.), roots(1., -1., 3.), roots(1., 1.5, 9.)];
    assert_eq!(world.hit(&solved, scalar(0.), scalar(10.)), Some((2, scalar(1.5))));
    let solved = vec![roots(1., 2., 4.), roots(1., -1., 3.)];
    let mut two = HittableList::new();
    two.push(ball([0., 0., -3.], 1.));
    two.push(ball([0., 0., -3.], 1.));
    assert_eq!(two.hit(&solved, scalar(0.), scalar(10.)), Some((0, scalar(2.))));
}

#[test]
fn hits_outside_the_interval_do_not_count() {
    let mut world = HittableList::new();
    world.push(ball([0., 0., -3.], 1.));
    let solved = vec![roots(1., 2., 4.)];
    assert_eq!(world.hit(&solved, scalar(4.), scalar(10.)), None);
    assert_eq!(world.hit(&solved, scalar(0.), scalar(2.)), None);
    assert_eq!(world.hit(&solved, scalar(0.), scalar(f64::NAN)), None);
}

#[test]
fn push_get_and_clear() {
    let mut world = HittableList::new();
    world.push(ball([0., 0., -3.], 1.));
    world.push(ball([1., 0., -3.], 2.));
    assert_eq!(world.len(), 2);
    assert_eq!(*world.get(0), ball([0., 0., -3.], 1.));
    assert_eq!(*world.get(1), ball([1., 0., -3.], 2.));
    world.clear();
    assert_eq!(world.len(), 0);
}
