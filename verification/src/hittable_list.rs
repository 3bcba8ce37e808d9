//! The scene: the surfaces in the order in which they were added, and the
//! search for the one that a ray strikes first.

use crate::hittable::{strictly_inside, Hittable, Roots};
use crate::scalar::Scalar;
use vstd::prelude::*;

verus! {

/// The surfaces of a scene.
pub struct HittableList {
    objects: Vec<Hittable>,
}

impl View for HittableList {
    type V = Seq<Hittable>;

    closed spec fn view(&self) -> Seq<Hittable> {
        self.objects@
    }
}

/// The upper end of the interval in which a surface is still looked for,
/// once `found` has been found: the parameter of what was found, or `t_max`
/// while nothing was.
pub open spec fn closest_so_far(found: Option<(int, Scalar)>, t_max: Scalar) -> Scalar {
    match found {
        Some((_, t)) => t,
        None => t_max,
    }
}

/// The scan through the surfaces, by their solved equations.
///
/// The surfaces are taken in order, and each is asked for a strike strictly
/// between `t_min` and the closest strike so far. The answer is the index and
/// the ray parameter of the last surface that had one.
pub open spec fn spec_scan(roots: Seq<Roots>, t_min: Scalar, t_max: Scalar) -> Option<
    (int, Scalar),
>
    decreases roots.len(),
{
    if roots.len() == 0 {
        None
    } else {
        let before = spec_scan(roots.drop_last(), t_min, t_max);
        match roots.last().spec_first_inside(t_min, closest_so_far(before, t_max)) {
            Some(t) => Some((roots.len() - 1, t)),
            None => before,
        }
    }
}

impl HittableList {
    /// The empty scene.
    pub fn new() -> (list: HittableList)
        ensures
            list@ == Seq::<Hittable>::empty(),
    {
        HittableList { objects: Vec::new() }
    }

    /// Adds a surface behind those that are there.
    pub fn push(&mut self, object: Hittable)
        ensures
            final(self)@ == old(self)@.push(object),
    {
        self.objects.push(object);
    }

    /// Removes every surface.
    pub fn clear(&mut self)
        ensures
            final(self)@ == Seq::<Hittable>::empty(),
    {
        self.objects.clear();
    }

    /// The number of surfaces.
    pub fn len(&self) -> (n: usize)
        ensures
            n == self@.len(),
    {
        self.objects.len()
    }

    /// The surface at `index`, counting from zero in the order of adding.
    pub fn get(&self, index: usize) -> (object: &Hittable)
        requires
            index < self@.len(),
        ensures
            *object == self@[index as int],
    {
        &self.objects[index]
    }

    /// The surface that a ray strikes first.
    ///
    /// `roots` holds, for each surface in order, the solved intersection
    /// equation of the ray with it. The answer is the index of the surface
    /// struck and the ray parameter of the strike, which lies strictly
    /// between `t_min` and `t_max`; or nothing if the ray strikes no surface
    /// there.
    pub fn hit(&self, roots: &Vec<Roots>, t_min: Scalar, t_max: Scalar) -> (r: Option<
        (usize, Scalar),
    >)
        requires
            roots@.len() == self@.len(),
        ensures
            match r {
                Some((index, t)) => index < self@.len() && spec_scan(roots@, t_min, t_max) == Some(
                    (index as int, t),
                ),
                None => spec_scan(roots@, t_min, t_max) is None,
            },
    {
        let mut found: Option<(usize, Scalar)> = None;
        let mut closest: Scalar = t_max;
        let mut i: usize = 0;
        while i < roots.len()
            invariant
                i <= roots@.len(),
                roots@.len() == self@.len(),
                closest == closest_so_far(spec_scan(roots@.take(i as int), t_min, t_max), t_max),
                match found {
                    Some((index, t)) => index < i && spec_scan(roots@.take(i as int), t_min, t_max)
                        == Some((index as int, t)),
                    None => spec_scan(roots@.take(i as int), t_min, t_max) is None,
                },
            decreases roots@.len() - i,
        {
            proof {
                assert(roots@.take(i + 1).drop_last() =~= roots@.take(i as int));
                assert(roots@.take(i + 1).last() == roots@[i as int]);
            }
            let object = self.get(i);
            match object.hit(&roots[i], t_min, closest) {
                Some(t) => {
                    found = Some((i, t));
                    closest = t;
                },
                None => {},
            }
            i = i + 1;
        }
        proof {
            assert(roots@.take(i as int) =~= roots@);
        }
        found
    }
}

/// Whether the two crossings of each surface that the ray crosses stand in
/// order.
pub open spec fn roots_in_order(roots: Seq<Roots>) -> bool {
    forall|i: int|
        0 <= i < roots.len() && (#[trigger] roots[i]).crosses() ==> roots[i].near.le(roots[i].far)
}

/// What it is for surface `index`, struck at `t`, to be the nearest strike in
/// the interval: the surface itself is struck at `t` inside the interval, no
/// surface is struck nearer, and the surfaces before it are struck farther.
pub open spec fn is_nearest(
    roots: Seq<Roots>,
    t_min: Scalar,
    t_max: Scalar,
    index: int,
    t: Scalar,
) -> bool {
    &&& 0 <= index < roots.len()
    &&& roots[index].spec_first_inside(t_min, t_max) == Some(t)
    &&& strictly_inside(t, t_min, t_max)
    &&& forall|j: int|
        0 <= j < roots.len() ==> (match (#[trigger] roots[j]).spec_first_inside(t_min, t_max) {
            Some(u) => t.le(u),
            None => true,
        })
    &&& forall|j: int|
        0 <= j < index ==> (match (#[trigger] roots[j]).spec_first_inside(t_min, t_max) {
            Some(u) => t.lt(u),
            None => true,
        })
}

/// The scan returns the nearest strike strictly inside the interval, and
/// returns nothing only where no surface is struck there.
pub proof fn lemma_scan_finds_nearest(roots: Seq<Roots>, t_min: Scalar, t_max: Scalar)
    requires
        roots_in_order(roots),
    ensures
        spec_scan(roots, t_min, t_max) matches Some((index, t)) ==> is_nearest(
            roots,
            t_min,
            t_max,
            index,
            t,
        ),
        spec_scan(roots, t_min, t_max) is None <==> forall|j: int|
            0 <= j < roots.len() ==> (#[trigger] roots[j]).spec_first_inside(t_min, t_max) is None,
    decreases roots.len(),
{
    if roots.len() > 0 {
        let front = roots.drop_last();
        let last = roots.last();
        assert(roots_in_order(front)) by {
            assert forall|i: int|
                0 <= i < front.len() && (#[trigger] front[i]).crosses() implies front[i].near.le(
                front[i].far,
            ) by {
                assert(front[i] == roots[i]);
            }
        }
        lemma_scan_finds_nearest(front, t_min, t_max);
        let before = spec_scan(front, t_min, t_max);
        let closest = closest_so_far(before, t_max);
        assert(last == roots[roots.len() - 1]);
        assert(forall|j: int| 0 <= j < front.len() ==> front[j] == roots[j]);
        match last.spec_first_inside(t_min, closest) {
            Some(t) => {
                assert(last.crosses());
                assert(is_nearest(roots, t_min, t_max, roots.len() - 1, t));
            },
            None => {
                match before {
                    Some((index, t)) => {
                        assert(is_nearest(front, t_min, t_max, index, t));
                        assert(is_nearest(roots, t_min, t_max, index, t));
                    },
                    None => {},
                }
            },
        }
    }
}

} // verus!
