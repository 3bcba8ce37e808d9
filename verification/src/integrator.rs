//! The walk of one light path through the scene.
//!
//! A path starts at the eye with a budget of bounces. At each surface the
//! material either swallows it or sends it on behind a colour filter; a path
//! that leaves the scene ends in the background, and one that is swallowed or
//! outlives its budget ends in black. The colour of the path is the colour of
//! its ending seen through all its filters, the last filter applied first.
//!
//! [`Path`] keeps the books of that walk. Whoever drives it intersects the
//! path's current ray with the scene and reports what happened.

use crate::hittable::{HitRecord, Roots};
use crate::hittable_list::{spec_scan, HittableList};
use crate::ray::Ray;
use crate::scalar::Scalar;
use crate::vec3::Vector3;
use vstd::prelude::*;

verus! {

/// The encoding of the least ray parameter at which a surface counts as
/// struck, one thousandth: nearer than that, a ray would strike the surface
/// that it has just left.
pub const SHADOW_EPSILON_BITS: u64 = 0x3F50_624D_D2F1_A9FC;

/// How a path ends.
#[derive(Clone, Copy, Debug, PartialEq, Eq, Structural)]
pub enum Ending {
    /// No light comes along the path.
    Black,
    /// The path has left the scene, and the background shines along it.
    Background,
}

/// The books of a path.
pub struct PathState {
    /// The ray that the path follows now, or followed last.
    pub ray: Ray,
    /// The colour filters gathered so far, the one nearest the eye first.
    pub filters: Seq<Vector3>,
    /// The bounces that are left.
    pub remaining: int,
    /// How the path has ended, if it has.
    pub ending: Option<Ending>,
}

/// What can happen to the current ray of a path.
pub enum Event {
    /// It struck nothing.
    Missed,
    /// It struck a surface, whose material swallowed it or sent it on with a
    /// filter and a new ray.
    Struck(Option<(Vector3, Ray)>),
}

/// A path at the eye. Without a budget it has ended in black already.
pub open spec fn begin_state(ray: Ray, depth: int) -> PathState {
    PathState {
        ray,
        filters: Seq::empty(),
        remaining: depth,
        ending: if depth <= 0 {
            Some(Ending::Black)
        } else {
            None
        },
    }
}

/// The path after its ray struck nothing. A path that has ended stays as it
/// is.
pub open spec fn after_miss(s: PathState) -> PathState {
    if s.ending is Some {
        s
    } else {
        PathState { ending: Some(Ending::Background), ..s }
    }
}

/// The path after its ray struck a surface whose material answered with
/// `outcome`. A path that has ended stays as it is.
pub open spec fn after_strike(s: PathState, outcome: Option<(Vector3, Ray)>) -> PathState {
    if s.ending is Some {
        s
    } else {
        match outcome {
            None => PathState { ending: Some(Ending::Black), ..s },
            Some((filter, ray)) => PathState {
                ray,
                filters: s.filters.push(filter),
                remaining: s.remaining - 1,
                ending: if s.remaining - 1 <= 0 {
                    Some(Ending::Black)
                } else {
                    None
                },
            },
        }
    }
}

/// The path after one event.
pub open spec fn after_event(s: PathState, event: Event) -> PathState {
    match event {
        Event::Missed => after_miss(s),
        Event::Struck(outcome) => after_strike(s, outcome),
    }
}

/// The path after a run of events, the first event first.
pub open spec fn after_events(s: PathState, events: Seq<Event>) -> PathState
    decreases events.len(),
{
    if events.len() == 0 {
        s
    } else {
        after_events(after_event(s, events[0]), events.drop_first())
    }
}

/// The colour of a ray, told as a recursion on the budget: black without a
/// budget; the background for a ray that strikes nothing; black for a ray
/// that is swallowed; and otherwise the colour of the ray sent on, with one
/// bounce less, seen through the material's filter. Where the events run out
/// first, the path is still open.
pub open spec fn ray_color(ray: Ray, depth: int, events: Seq<Event>) -> PathState
    decreases events.len(),
{
    if depth <= 0 {
        PathState { ray, filters: Seq::empty(), remaining: depth, ending: Some(Ending::Black) }
    } else if events.len() == 0 {
        PathState { ray, filters: Seq::empty(), remaining: depth, ending: None }
    } else {
        match events[0] {
            Event::Missed => PathState {
                ray,
                filters: Seq::empty(),
                remaining: depth,
                ending: Some(Ending::Background),
            },
            Event::Struck(None) => PathState {
                ray,
                filters: Seq::empty(),
                remaining: depth,
                ending: Some(Ending::Black),
            },
            Event::Struck(Some((filter, next))) => {
                let rest = ray_color(next, depth - 1, events.drop_first());
                PathState { filters: seq![filter] + rest.filters, ..rest }
            },
        }
    }
}

/// One light path, from the eye to its ending.
pub struct Path {
    ray: Ray,
    filters: Vec<Vector3>,
    remaining: i32,
    ending: Option<Ending>,
}

impl View for Path {
    type V = PathState;

    closed spec fn view(&self) -> PathState {
        PathState {
            ray: self.ray,
            filters: self.filters@,
            remaining: self.remaining as int,
            ending: self.ending,
        }
    }
}

impl Path {
    #[verifier::type_invariant]
    spec fn open_has_budget(self) -> bool {
        self.ending is None ==> self.remaining > 0
    }

    /// Starts a path along `ray` that may bounce `depth` times.
    pub fn begin(ray: Ray, depth: i32) -> (path: Path)
        ensures
            path@ == begin_state(ray, depth as int),
    {
        let ending = if depth <= 0 {
            Some(Ending::Black)
        } else {
            None
        };
        Path { ray, filters: Vec::new(), remaining: depth, ending }
    }

    /// The ray to intersect with the scene next, or nothing once the path has
    /// ended.
    pub fn current(&self) -> (ray: Option<Ray>)
        ensures
            ray == if self@.ending is None {
                Some(self@.ray)
            } else {
                None
            },
            self@.ending is None ==> self@.remaining > 0,
    {
        proof {
            use_type_invariant(self);
        }
        match self.ending {
            None => Some(self.ray),
            Some(_) => None,
        }
    }

    /// The path after its current ray struck nothing.
    pub fn miss(self) -> (path: Path)
        ensures
            path@ == after_miss(self@),
    {
        match self.ending {
            None => {
                let Path { ray, filters, remaining, ending: _ } = self;
                Path { ray, filters, remaining, ending: Some(Ending::Background) }
            },
            Some(_) => self,
        }
    }

    /// The path after its current ray struck the surface recorded in `rec`,
    /// whose material rules on the ray.
    ///
    /// `direction` and `alignment` are what
    /// [`Material::scatter`](crate::material::Material::scatter) asks for.
    pub fn strike(self, rec: &HitRecord, direction: Vector3, alignment: Scalar) -> (path: Path)
        ensures
            path@ == after_strike(self@, rec.material.spec_scatter(*rec, direction, alignment)),
    {
        proof {
            use_type_invariant(&self);
        }
        match self.ending {
            Some(_) => self,
            None => {
                let Path { ray, filters, remaining, ending: _ } = self;
                let mut filters = filters;
                match rec.material.scatter(rec, direction, alignment) {
                    None => Path { ray, filters, remaining, ending: Some(Ending::Black) },
                    Some((filter, next)) => {
                        let left: i32 = remaining - 1;
                        let ending = if left <= 0 {
                            Some(Ending::Black)
                        } else {
                            None
                        };
                        filters.push(filter);
                        Path { ray: next, filters, remaining: left, ending }
                    },
                }
            },
        }
    }

    /// How the path has ended, if it has.
    pub fn ending(&self) -> (e: Option<Ending>)
        ensures
            e == self@.ending,
    {
        self.ending
    }

    /// The ray that the path follows now, or followed last.
    pub fn ray(&self) -> (r: Ray)
        ensures
            r == self@.ray,
    {
        self.ray
    }

    /// The filters gathered so far, the one nearest the eye first.
    pub fn filters(&self) -> (f: &Vec<Vector3>)
        ensures
            f@ == self@.filters,
    {
        &self.filters
    }
}

/// The surface that the current ray of a path strikes first: the nearest
/// strike of [`HittableList::hit`] at a ray parameter above one thousandth.
pub fn nearest_visible(world: &HittableList, roots: &Vec<Roots>) -> (r: Option<(usize, Scalar)>)
    requires
        roots@.len() == world@.len(),
    ensures
        match r {
            Some((index, t)) => index < world@.len() && spec_scan(
                roots@,
                Scalar { bits: SHADOW_EPSILON_BITS },
                Scalar::infinity(),
            ) == Some((index as int, t)),
            None => spec_scan(
                roots@,
                Scalar { bits: SHADOW_EPSILON_BITS },
                Scalar::infinity(),
            ) is None,
        },
{
    world.hit(roots, Scalar::from_bits(SHADOW_EPSILON_BITS), Scalar::infinity())
}

/// A path without a budget is black from the start, whatever its ray and
/// whatever is reported to it.
pub proof fn lemma_no_budget_is_black(ray: Ray, depth: int, events: Seq<Event>)
    requires
        depth <= 0,
    ensures
        after_events(begin_state(ray, depth), events).ending == Some(Ending::Black),
        after_events(begin_state(ray, depth), events).filters == Seq::<Vector3>::empty(),
        ray_color(ray, depth, events).ending == Some(Ending::Black),
        ray_color(ray, depth, events).filters == Seq::<Vector3>::empty(),
{
    lemma_ended_path_stays(begin_state(ray, depth), events);
}

/// Nothing that is reported to a path that has ended changes it.
pub proof fn lemma_ended_path_stays(s: PathState, events: Seq<Event>)
    requires
        s.ending is Some,
    ensures
        after_events(s, events) == s,
    decreases events.len(),
{
    if events.len() > 0 {
        lemma_ended_path_stays(s, events.drop_first());
    }
}

/// Bookkeeping and recursion agree: reporting a run of events to an open
/// path leaves it where the recursion on the budget ends, behind the filters
/// that the path had gathered before.
pub proof fn lemma_walk_follows_recursion(s: PathState, events: Seq<Event>)
    requires
        s.ending is None,
        s.remaining > 0,
    ensures
        after_events(s, events) == (PathState {
            filters: s.filters + ray_color(s.ray, s.remaining, events).filters,
            ..ray_color(s.ray, s.remaining, events)
        }),
    decreases events.len(),
{
    let told = ray_color(s.ray, s.remaining, events);
    if events.len() == 0 {
        assert(s.filters + told.filters =~= s.filters);
    } else {
        let next = after_event(s, events[0]);
        let rest = events.drop_first();
        match events[0] {
            Event::Missed => {
                lemma_ended_path_stays(next, rest);
                assert(s.filters + told.filters =~= s.filters);
            },
            Event::Struck(None) => {
                lemma_ended_path_stays(next, rest);
                assert(s.filters + told.filters =~= s.filters);
            },
            Event::Struck(Some((filter, ray))) => {
                let inner = ray_color(ray, s.remaining - 1, rest);
                if next.ending is Some {
                    lemma_ended_path_stays(next, rest);
                    assert(s.filters + told.filters =~= next.filters);
                } else {
                    lemma_walk_follows_recursion(next, rest);
                    assert(s.filters + told.filters =~= next.filters + inner.filters);
                }
            },
        }
    }
}

/// A path is the recursion: started at the eye and told a run of events, it
/// holds the filters and the ending that the recursion on the budget gives.
pub proof fn lemma_path_is_ray_color(ray: Ray, depth: int, events: Seq<Event>)
    ensures
        after_events(begin_state(ray, depth), events) == ray_color(ray, depth, events),
{
    let s = begin_state(ray, depth);
    if depth <= 0 {
        lemma_ended_path_stays(s, events);
    } else {
        lemma_walk_follows_recursion(s, events);
        assert(s.filters + ray_color(ray, depth, events).filters =~= ray_color(
            ray,
            depth,
            events,
        ).filters);
    }
}

/// A path never gathers more filters than its budget allows, and one that has
/// used up its budget has ended.
pub proof fn lemma_budget_bounds_path(ray: Ray, depth: int, events: Seq<Event>)
    ensures
        ray_color(ray, depth, events).filters.len() <= if depth > 0 {
            depth
        } else {
            0
        },
        ray_color(ray, depth, events).remaining + ray_color(ray, depth, events).filters.len()
            == depth,
        ray_color(ray, depth, events).ending is None ==> ray_color(ray, depth, events).remaining
            > 0,
    decreases events.len(),
{
    if depth > 0 && events.len() > 0 {
        match events[0] {
            Event::Struck(Some((filter, next))) => {
                lemma_budget_bounds_path(next, depth - 1, events.drop_first());
            },
            _ => {},
        }
    }
}

} // verus!
