//! The path of one sample through the scene.
//!
//! A path starts with a camera ray and a number of bounces it may take.
//! Each ray of it is traced, and what the trace found decides how the path
//! goes on: a ray that escapes ends it in the sky, a surface that takes the
//! ray in ends it in what the surface gives off, a surface that scatters
//! the ray sends the path on with one bounce less, and a path without
//! bounces left ends in black. The colour of the sample is the light at
//! the end of the path, times the attenuation of every scatter on the way.

use vstd::prelude::*;
use crate::color::Color;
use crate::hit::{Hit, Hittable, HittableList, spec_strictly_within};
use crate::material::ScatterResult;
use crate::ray::Ray;
use crate::scalar::{Scalar, INFINITY_BITS};

verus! {

/// The bit pattern of 0.001, the nearest that a ray may hit: nearer than
/// that a bounced ray would hit the surface it has just left.
pub const SHADOW_BIAS_BITS: u32 = 0x3a83_126f;

/// The nearest hit of a ray in a scene, from the shadow bias outwards
/// without end.
pub fn nearest_hit<H: Hittable>(scene: &H, ray: &Ray) -> (h: Option<Hit>)
    ensures
        h == scene.spec_hit_scan(
            *ray,
            Scalar { bits: SHADOW_BIAS_BITS },
            Scalar { bits: INFINITY_BITS },
        ),
        h matches Some(x) ==> spec_strictly_within(
            x.t,
            Scalar { bits: SHADOW_BIAS_BITS },
            Scalar { bits: INFINITY_BITS },
        ),
{
    scene.hit_scan(ray, Scalar::from_bits(SHADOW_BIAS_BITS), Scalar::infinity())
}

/// What tracing one ray found.
#[derive(Clone, Copy, Debug, PartialEq, Eq, Structural)]
pub enum Event {
    /// The ray hit nothing.
    Miss,
    /// The ray hit a surface, which scattered it.
    Scatter(ScatterResult),
    /// The ray hit a surface, which did not scatter it and gives off the
    /// given colour.
    Absorb(Color),
}

/// The light at the end of a path.
#[derive(Clone, Copy, Debug, PartialEq, Eq, Structural)]
pub enum Source {
    /// No light: the path ran out of bounces.
    Black,
    /// The sky in the direction of the given ray, which left the scene.
    Sky(Ray),
    /// What the last surface gives off.
    Emitted(Color),
}

/// A path, as far as it has been followed.
#[derive(Clone, Copy, Debug, PartialEq, Eq, Structural)]
pub enum Path {
    /// `ray` is to be traced next, and `depth` bounces are left.
    Tracing { ray: Ray, depth: u32 },
    /// The path has ended.
    Done(Source),
}

impl Event {
    /// What a hit comes to: the scatter if the surface scattered the ray,
    /// and else what the surface gives off.
    pub open spec fn spec_of_hit(scattered: Option<ScatterResult>, emitted: Color) -> Event {
        match scattered {
            Some(s) => Event::Scatter(s),
            None => Event::Absorb(emitted),
        }
    }

    /// What a hit comes to: the scatter if the surface scattered the ray,
    /// and else what the surface gives off, which is black for all but a
    /// light.
    #[verifier::when_used_as_spec(spec_of_hit)]
    pub fn of_hit(scattered: Option<ScatterResult>, emitted: Color) -> (e: Event)
        ensures
            e == Self::spec_of_hit(scattered, emitted),
    {
        match scattered {
            Some(s) => Event::Scatter(s),
            None => Event::Absorb(emitted),
        }
    }
}

impl Path {
    /// The most steps that the path can still take: as many as it has
    /// bounces left, one at the least while it is followed, and none once
    /// it has ended.
    pub open spec fn steps_left(self) -> nat {
        match self {
            Path::Tracing { depth, .. } => if depth == 0 {
                1
            } else {
                depth as nat
            },
            Path::Done(_) => 0,
        }
    }

    /// The path of a camera ray that may take `depth` bounces.
    pub open spec fn spec_start(ray: Ray, depth: u32) -> Path {
        if depth == 0 {
            Path::Done(Source::Black)
        } else {
            Path::Tracing { ray, depth }
        }
    }

    /// The path that a scattered ray goes on with, after a ray that had
    /// `depth` bounces left.
    pub open spec fn scattered(ray: Ray, depth: u32) -> Path {
        if depth <= 1 {
            Path::Done(Source::Black)
        } else {
            Path::Tracing { ray, depth: (depth - 1) as u32 }
        }
    }

    /// The path after its ray was traced and `event` found. A path that has
    /// ended stays as it is.
    pub open spec fn spec_step(self, event: Event) -> Path {
        match self {
            Path::Done(source) => Path::Done(source),
            Path::Tracing { ray, depth } => match event {
                Event::Miss => Path::Done(Source::Sky(ray)),
                Event::Absorb(emitted) => Path::Done(Source::Emitted(emitted)),
                Event::Scatter(s) => Self::scattered(s.ray, depth),
            },
        }
    }

    /// The attenuation that a step puts on the light of the path: that of
    /// the scatter, where a ray was scattered.
    pub open spec fn spec_attenuation(self, event: Event) -> Option<Color> {
        match (self, event) {
            (Path::Tracing { .. }, Event::Scatter(s)) => Some(s.attenuation),
            _ => None,
        }
    }

    /// The path after a sequence of events, one step for each.
    pub open spec fn run(self, events: Seq<Event>) -> Path
        decreases events.len(),
    {
        if events.len() == 0 {
            self
        } else {
            self.run(events.drop_last()).spec_step(events.last())
        }
    }

    /// Whether the path has ended.
    pub open spec fn spec_is_done(&self) -> bool {
        *self is Done
    }

    /// The path of a camera ray that may take `depth` bounces. Without a
    /// bounce it ends in black at once, whatever the scene.
    pub fn start(ray: Ray, depth: u32) -> (p: Path)
        ensures
            p == Self::spec_start(ray, depth),
            depth == 0 ==> p == Path::Done(Source::Black),
    {
        if depth == 0 {
            Path::Done(Source::Black)
        } else {
            Path::Tracing { ray, depth }
        }
    }

    /// Whether the path has ended.
    #[verifier::when_used_as_spec(spec_is_done)]
    pub fn is_done(&self) -> (r: bool)
        ensures
            r == self.spec_is_done(),
    {
        match self {
            Path::Done(_) => true,
            Path::Tracing { .. } => false,
        }
    }

    /// Takes the path one step on: `event` is what tracing its ray found.
    /// Returns the path after the step and the attenuation that the step
    /// puts on its light.
    pub fn step(self, event: Event) -> (r: (Path, Option<Color>))
        ensures
            r.0 == self.spec_step(event),
            r.1 == self.spec_attenuation(event),
            r.0.steps_left() < self.steps_left() || r.0 is Done,
    {
        match self {
            Path::Done(source) => (Path::Done(source), None),
            Path::Tracing { ray, depth } => match event {
                Event::Miss => (Path::Done(Source::Sky(ray)), None),
                Event::Absorb(emitted) => (Path::Done(Source::Emitted(emitted)), None),
                Event::Scatter(s) => {
                    let next = if depth <= 1 {
                        Path::Done(Source::Black)
                    } else {
                        Path::Tracing { ray: s.ray, depth: depth - 1 }
                    };
                    (next, Some(s.attenuation))
                },
            },
        }
    }
}

/// A path without bounces is black, whatever is traced afterwards.
pub proof fn lemma_depth_zero_is_black(ray: Ray, events: Seq<Event>)
    ensures
        Path::spec_start(ray, 0).run(events) == Path::Done(Source::Black),
    decreases events.len(),
{
    if events.len() > 0 {
        lemma_depth_zero_is_black(ray, events.drop_last());
    }
}

/// Every step of a path that is still followed takes a bounce from it, so
/// a path has ended after as many steps as it had bounces.
pub proof fn lemma_path_ends(path: Path, events: Seq<Event>)
    ensures
        path.run(events) is Done || path.run(events).steps_left() + events.len()
            <= path.steps_left(),
        events.len() >= path.steps_left() ==> path.run(events) is Done,
    decreases events.len(),
{
    if events.len() > 0 {
        lemma_path_ends(path, events.drop_last());
    }
}

/// A scene without objects shows the sky: no ray hits anything, and the
/// path of a ray that hits nothing ends at its first step in the sky of
/// that ray, with no attenuation, whatever bounces it had.
pub proof fn lemma_empty_scene_shows_the_sky(
    scene: HittableList,
    ray: Ray,
    depth: u32,
    t_min: Scalar,
    t_max: Scalar,
)
    requires
        scene.items().len() == 0,
        depth > 0,
    ensures
        scene.spec_hit_scan(ray, t_min, t_max) is None,
        Path::spec_start(ray, depth).spec_step(Event::Miss) == Path::Done(Source::Sky(ray)),
        Path::spec_start(ray, depth).spec_attenuation(Event::Miss) is None,
{
}

/// A path that is scattered at every step ends in black exactly when its
/// bounces are used up.
pub proof fn lemma_scattered_path_runs_out(path: Path, events: Seq<Event>)
    requires
        path is Tracing,
        forall|i: int| 0 <= i < events.len() ==> #[trigger] events[i] is Scatter,
    ensures
        events.len() < path.steps_left() ==> path.run(events) is Tracing && path.run(
            events,
        ).steps_left() == path.steps_left() - events.len(),
        events.len() >= path.steps_left() && events.len() > 0 ==> path.run(events) == Path::Done(
            Source::Black,
        ),
    decreases events.len(),
{
    if events.len() > 0 {
        lemma_scattered_path_runs_out(path, events.drop_last());
    }
}

} // verus!
