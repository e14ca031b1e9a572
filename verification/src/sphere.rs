//! The one primitive of a scene.

use vstd::prelude::*;
use crate::hit::{Hit, oriented, same_or_cut_off, spec_strictly_within, strictly_within};
use crate::material::Material;
use crate::scalar::Scalar;
use crate::vec3::{Point3, Vec3};

verus! {

/// The number of words of a packed sphere.
pub const SPHERE_WORDS: usize = 18;

/// A sphere. A negative radius turns the surface inside out, which makes a
/// hollow shell of a sphere inside another.
#[derive(Clone, Copy, Debug, PartialEq, Eq, Structural)]
pub struct Sphere {
    pub center: Point3,
    pub radius: Scalar,
    pub material: Material,
}

/// One root of the equation of a ray and a sphere, with what follows from
/// it.
#[derive(Clone, Copy, Debug, PartialEq, Eq, Structural)]
pub struct Crossing {
    /// The root: how far along the ray the crossing lies.
    pub t: Scalar,
    /// The ray's point at `t`.
    pub position: Point3,
    /// `position` minus the centre, divided by the radius.
    pub outward_normal: Vec3,
    /// The dot product of the ray's direction with `outward_normal`.
    pub facing: Scalar,
}

impl Sphere {
    /// The packed record: the centre, the radius, three words of padding,
    /// and the packed material.
    pub open spec fn words(self) -> Seq<u32> {
        seq![
            self.center.x.bits,
            self.center.y.bits,
            self.center.z.bits,
            self.radius.bits,
            0u32,
            0u32,
            0u32,
        ] + self.material.words()
    }

    /// The hit that a crossing of this sphere is recorded as.
    pub open spec fn record(self, c: Crossing) -> Hit {
        Hit {
            t: c.t,
            position: c.position,
            front_face: c.facing.spec_lt(Scalar { bits: 0 }),
            normal: oriented(c.facing, c.outward_normal),
            material: self.material,
        }
    }

    /// Whether a ray and the sphere have no equation to solve: the ray has
    /// a direction of length zero, the sphere a radius of zero, or the
    /// discriminant is negative.
    pub open spec fn misses(self, a: Scalar, discriminant: Scalar) -> bool {
        a.spec_is_zero() || self.radius.spec_is_zero() || discriminant.spec_lt(Scalar { bits: 0 })
    }

    /// The hit of a ray on the sphere within an interval: the near crossing
    /// if it lies strictly inside, else the far crossing if that does.
    pub open spec fn spec_hit(
        self,
        a: Scalar,
        discriminant: Scalar,
        near: Crossing,
        far: Crossing,
        t_min: Scalar,
        t_max: Scalar,
    ) -> Option<Hit> {
        if self.misses(a, discriminant) {
            None
        } else if spec_strictly_within(near.t, t_min, t_max) {
            Some(self.record(near))
        } else if spec_strictly_within(far.t, t_min, t_max) {
            Some(self.record(far))
        } else {
            None
        }
    }

    pub fn new(center: Point3, radius: Scalar, material: Material) -> (s: Sphere)
        ensures
            s == (Sphere { center, radius, material }),
    {
        Sphere { center, radius, material }
    }

    pub fn center(&self) -> (c: Point3)
        ensures
            c == self.center,
    {
        self.center
    }

    pub fn radius(&self) -> (r: Scalar)
        ensures
            r == self.radius,
    {
        self.radius
    }

    pub fn material(&self) -> (m: Material)
        ensures
            m == self.material,
    {
        self.material
    }

    /// Appends the packed record to `out`.
    pub fn pack(&self, out: &mut Vec<u32>)
        ensures
            final(out)@ == old(out)@ + self.words(),
            self.words().len() == SPHERE_WORDS,
    {
        let ghost before = out@;
        out.push(self.center.x.bits);
        out.push(self.center.y.bits);
        out.push(self.center.z.bits);
        out.push(self.radius.bits);
        out.push(0);
        out.push(0);
        out.push(0);
        self.material.pack(out);
        assert(out@ =~= before + self.words());
    }

    /// The nearest intersection of a ray with the sphere strictly inside
    /// the interval from `t_min` to `t_max`.
    ///
    /// The caller has set up the equation `a t^2 + 2 half_b t + c = 0` of
    /// the ray and the sphere and hands in `a`, the `discriminant`
    /// `half_b^2 - a c`, and the two roots with what follows from each:
    /// `near` for the smaller root, `far` for the larger.
    pub fn hit(
        &self,
        a: Scalar,
        discriminant: Scalar,
        near: &Crossing,
        far: &Crossing,
        t_min: Scalar,
        t_max: Scalar,
    ) -> (h: Option<Hit>)
        ensures
            h == self.spec_hit(a, discriminant, *near, *far, t_min, t_max),
            h matches Some(x) ==> spec_strictly_within(x.t, t_min, t_max),
    {
        if a.is_zero() || self.radius.is_zero() || discriminant.lt(Scalar::zero()) {
            return None;
        }
        if strictly_within(near.t, t_min, t_max) {
            Some(self.cross(near))
        } else if strictly_within(far.t, t_min, t_max) {
            Some(self.cross(far))
        } else {
            None
        }
    }

    fn cross(&self, c: &Crossing) -> (h: Hit)
        ensures
            h == self.record(*c),
    {
        let mut h = Hit::new();
        h.t = c.t;
        h.position = c.position;
        h.material = self.material;
        h.set_face_normal(c.facing, c.outward_normal);
        h
    }
}

/// Of the two crossings, a hit is the nearer one that lies strictly inside
/// the interval: no crossing inside the interval is nearer than the hit.
pub proof fn lemma_hit_is_nearest(
    s: Sphere,
    a: Scalar,
    discriminant: Scalar,
    near: Crossing,
    far: Crossing,
    t_min: Scalar,
    t_max: Scalar,
)
    requires
        near.t.spec_le(far.t),
    ensures
        s.spec_hit(a, discriminant, near, far, t_min, t_max) matches Some(x) ==> {
            &&& spec_strictly_within(x.t, t_min, t_max)
            &&& spec_strictly_within(near.t, t_min, t_max) ==> x.t.spec_le(near.t)
            &&& spec_strictly_within(far.t, t_min, t_max) ==> x.t.spec_le(far.t)
        },
{
}

/// The sphere answers steadily: a narrower interval with the same lower end
/// gets the hit of the wider one, or no hit where it cuts that hit off. It
/// takes roots in their order.
pub proof fn lemma_hit_is_steady(
    s: Sphere,
    a: Scalar,
    discriminant: Scalar,
    near: Crossing,
    far: Crossing,
    t_min: Scalar,
    wide: Scalar,
    narrow: Scalar,
)
    requires
        !far.t.spec_lt(near.t),
        narrow.spec_le(wide),
    ensures
        same_or_cut_off(
            s.spec_hit(a, discriminant, near, far, t_min, narrow),
            s.spec_hit(a, discriminant, near, far, t_min, wide),
            narrow,
        ),
{
}

/// A ray without a direction, a sphere without a radius and a negative
/// discriminant all give no hit.
pub proof fn lemma_degenerate_misses(
    s: Sphere,
    a: Scalar,
    discriminant: Scalar,
    near: Crossing,
    far: Crossing,
    t_min: Scalar,
    t_max: Scalar,
)
    requires
        s.misses(a, discriminant),
    ensures
        s.spec_hit(a, discriminant, near, far, t_min, t_max) is None,
{
}

/// A root that is a NaN or lies outside the interval is never a hit.
pub proof fn lemma_hit_only_within(
    s: Sphere,
    a: Scalar,
    discriminant: Scalar,
    near: Crossing,
    far: Crossing,
    t_min: Scalar,
    t_max: Scalar,
)
    requires
        !spec_strictly_within(near.t, t_min, t_max),
        !spec_strictly_within(far.t, t_min, t_max),
    ensures
        s.spec_hit(a, discriminant, near, far, t_min, t_max) is None,
{
}

} // verus!
