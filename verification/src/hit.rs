//! Where a ray meets the scene.

use vstd::prelude::*;
use crate::material::Material;
use crate::ray::Ray;
use crate::scalar::Scalar;
use crate::vec3::{Point3, Vec3};

verus! {

/// One intersection of a ray with a surface.
#[derive(Clone, Copy, Debug, PartialEq, Eq, Structural)]
pub struct Hit {
    /// How far along the ray the intersection lies.
    pub t: Scalar,
    /// The point of intersection.
    pub position: Point3,
    /// Whether the ray came from outside the surface.
    pub front_face: bool,
    /// The unit normal, turned against the ray.
    pub normal: Vec3,
    /// What the surface is made of.
    pub material: Material,
}

/// Whether `t` lies strictly between `t_min` and `t_max`.
pub open spec fn spec_strictly_within(t: Scalar, t_min: Scalar, t_max: Scalar) -> bool {
    t_min.spec_lt(t) && t.spec_lt(t_max)
}

/// Whether `t` lies strictly between `t_min` and `t_max`. A NaN lies
/// nowhere.
#[verifier::when_used_as_spec(spec_strictly_within)]
pub fn strictly_within(t: Scalar, t_min: Scalar, t_max: Scalar) -> (r: bool)
    ensures
        r == spec_strictly_within(t, t_min, t_max),
{
    t_min.lt(t) && t.lt(t_max)
}

/// A distance strictly inside an interval is a finite number, whatever the
/// ends of the interval: neither a NaN nor an infinity is ever the distance
/// of a hit.
pub proof fn lemma_within_is_finite(t: Scalar, t_min: Scalar, t_max: Scalar)
    requires
        spec_strictly_within(t, t_min, t_max),
    ensures
        t.is_finite(),
{
    let top = crate::scalar::INFINITY_BITS as int;
    if t.magnitude_bits() == top {
        if t.sign_bit() {
            if t_min.magnitude_bits() < top {
                crate::scalar::lemma_magnitude_grows(t_min.magnitude_bits(), top);
            }
            crate::scalar::lemma_magnitude_at_least_zero(t_min.magnitude_bits());
        } else {
            if t_max.magnitude_bits() < top {
                crate::scalar::lemma_magnitude_grows(t_max.magnitude_bits(), top);
            }
            crate::scalar::lemma_magnitude_at_least_zero(t_max.magnitude_bits());
        }
    }
}

/// The normal that a hit stores: the outward normal when the ray faces it,
/// the opposite vector when the ray comes from inside.
pub open spec fn oriented(facing: Scalar, outward_normal: Vec3) -> Vec3 {
    if facing.spec_lt(Scalar { bits: 0 }) {
        outward_normal
    } else {
        outward_normal.spec_neg()
    }
}

/// The dot product of the ray's direction with the stored normal, given
/// `facing`, its dot product with the outward normal: negating a vector
/// negates its dot products exactly.
pub open spec fn oriented_facing(facing: Scalar) -> Scalar {
    if facing.spec_lt(Scalar { bits: 0 }) {
        facing
    } else {
        facing.spec_neg()
    }
}

/// The stored normal never points along the ray: the dot product of the
/// ray's direction with it is at most zero, whenever the dot product with
/// the outward normal is a number.
pub proof fn lemma_oriented_against_ray(facing: Scalar)
    requires
        !facing.spec_is_nan(),
    ensures
        oriented_facing(facing).spec_le(Scalar { bits: 0 }),
{
    crate::scalar::lemma_magnitude_at_least_zero(facing.magnitude_bits());
    crate::scalar::lemma_magnitude_at_least_zero(facing.spec_neg().magnitude_bits());
}

impl Hit {
    /// An empty record, all zeroes.
    pub fn new() -> (h: Hit)
        ensures
            h == (Hit {
                t: Scalar { bits: 0 },
                position: crate::color::spec_black(),
                front_face: false,
                normal: crate::color::spec_black(),
                material: Material {
                    mat_type: 0,
                    color: crate::color::spec_black(),
                    emission_intensity: Scalar { bits: 0 },
                    refractive_index: Scalar { bits: 0 },
                    fuzz: Scalar { bits: 0 },
                },
            }),
    {
        Hit {
            t: Scalar::zero(),
            position: Vec3::default(),
            front_face: false,
            normal: Vec3::default(),
            material: Material::default(),
        }
    }

    /// Records which side the ray came from and turns the normal against
    /// it.
    ///
    /// `facing` is the dot product of the ray's direction with
    /// `outward_normal`, which the caller has worked out. The ray comes
    /// from outside exactly when it is below zero.
    pub fn set_face_normal(&mut self, facing: Scalar, outward_normal: Vec3)
        ensures
            final(self).front_face == facing.spec_lt(Scalar { bits: 0 }),
            final(self).normal == oriented(facing, outward_normal),
            final(self).t == old(self).t,
            final(self).position == old(self).position,
            final(self).material == old(self).material,
    {
        self.front_face = facing.lt(Scalar::zero());
        self.normal = if self.front_face {
            outward_normal
        } else {
            outward_normal.neg()
        };
    }
}

/// Something a ray can hit.
///
/// An implementation reports the same hit whenever it is asked about the
/// same ray and interval, and only hits strictly inside the interval.
pub trait Hittable {
    /// The hit that the object reports for a ray and an interval, which
    /// depends on nothing else. Code that is compiled without being
    /// verified gives it the body of `hit_scan`.
    spec fn spec_hit_scan(&self, ray: Ray, t_min: Scalar, t_max: Scalar) -> Option<Hit>;

    /// The nearest intersection of `ray` with the object strictly inside
    /// the interval from `t_min` to `t_max`, if there is one.
    fn hit_scan(&self, ray: &Ray, t_min: Scalar, t_max: Scalar) -> (h: Option<Hit>)
        ensures
            h == self.spec_hit_scan(*ray, t_min, t_max),
            h matches Some(x) ==> spec_strictly_within(x.t, t_min, t_max),
    ;
}

/// The objects of a scene, in the order they were added.
pub struct HittableList {
    objects: Vec<Box<dyn Hittable>>,
}

/// The interval's upper end once `found` is known: a hit closes the
/// interval at its own distance.
pub open spec fn closest_so_far(found: Option<Hit>, t_max: Scalar) -> Scalar {
    match found {
        Some(h) => h.t,
        None => t_max,
    }
}

/// The hit that the first `n` objects report between them: each object in
/// turn is asked for a hit nearer than the nearest so far, and the last one
/// to report is the nearest of all.
pub open spec fn scan(
    objects: Seq<Box<dyn Hittable>>,
    n: nat,
    ray: Ray,
    t_min: Scalar,
    t_max: Scalar,
) -> Option<Hit>
    decreases n,
{
    if n == 0 {
        None
    } else {
        let before = scan(objects, (n - 1) as nat, ray, t_min, t_max);
        match objects[n - 1].spec_hit_scan(ray, t_min, closest_so_far(before, t_max)) {
            Some(h) => Some(h),
            None => before,
        }
    }
}

impl HittableList {
    /// The objects, in the order they were added.
    pub closed spec fn items(&self) -> Seq<Box<dyn Hittable>> {
        self.objects@
    }

    /// A scene without objects.
    pub fn new() -> (l: HittableList)
        ensures
            l.items().len() == 0,
    {
        HittableList { objects: Vec::new() }
    }

    /// Adds an object behind the others.
    pub fn add(&mut self, object: Box<dyn Hittable>)
        ensures
            final(self).items() == old(self).items().push(object),
    {
        self.objects.push(object);
    }
}

impl Hittable for HittableList {
    open spec fn spec_hit_scan(&self, ray: Ray, t_min: Scalar, t_max: Scalar) -> Option<Hit> {
        scan(self.items(), self.items().len(), ray, t_min, t_max)
    }

    /// The nearest hit of `ray` on any object, strictly inside the
    /// interval. Every object is asked once, in order.
    fn hit_scan(&self, ray: &Ray, t_min: Scalar, t_max: Scalar) -> (h: Option<Hit>) {
        let mut found: Option<Hit> = None;
        let mut closest_t = t_max;
        let mut i: usize = 0;
        while i < self.objects.len()
            invariant
                0 <= i <= self.objects@.len(),
                found == scan(self.objects@, i as nat, *ray, t_min, t_max),
                closest_t == closest_so_far(found, t_max),
                found matches Some(x) ==> spec_strictly_within(x.t, t_min, t_max),
            decreases self.objects@.len() - i,
        {
            match self.objects[i].hit_scan(ray, t_min, closest_t) {
                Some(h) => {
                    closest_t = h.t;
                    found = Some(h);
                },
                None => {},
            }
            i = i + 1;
        }
        found
    }
}

/// A scene without objects is never hit.
pub proof fn lemma_empty_scene_is_never_hit(
    list: HittableList,
    ray: Ray,
    t_min: Scalar,
    t_max: Scalar,
)
    requires
        list.items().len() == 0,
    ensures
        list.spec_hit_scan(ray, t_min, t_max) is None,
{
}

/// Whether `near`, the answer to an interval that ends at `narrow`, is the
/// answer `far` to a wider interval, or no hit where the interval ends at or
/// before the hit of the wider one.
pub open spec fn same_or_cut_off(near: Option<Hit>, far: Option<Hit>, narrow: Scalar) -> bool {
    near == far || (near is None && match far {
        Some(x) => !x.t.spec_lt(narrow),
        None => false,
    })
}

/// Whether the object at `i` answers two intervals with one lower end
/// steadily: a hit lies strictly inside its interval, and the narrower
/// interval gets the answer of the wider one, or no hit where it cuts the
/// hit of the wider one off.
pub open spec fn steady(
    objects: Seq<Box<dyn Hittable>>,
    i: int,
    ray: Ray,
    t_min: Scalar,
    wide: Scalar,
    narrow: Scalar,
) -> bool {
    let far = objects[i].spec_hit_scan(ray, t_min, wide);
    let near = objects[i].spec_hit_scan(ray, t_min, narrow);
    &&& far matches Some(x) ==> spec_strictly_within(x.t, t_min, wide)
    &&& narrow.spec_le(wide) ==> same_or_cut_off(near, far, narrow)
}

/// Whether every object answers steadily, whatever the upper ends of the
/// two intervals.
pub open spec fn all_steady(objects: Seq<Box<dyn Hittable>>, ray: Ray, t_min: Scalar) -> bool {
    forall|i: int, wide: Scalar, narrow: Scalar|
        0 <= i < objects.len() ==> #[trigger] steady(objects, i, ray, t_min, wide, narrow)
}

/// The scan finds the nearest hit of all: where the objects answer
/// steadily, the hit of the first `n` of them is the hit of one of them on
/// its own, and none of them has a nearer one.
pub proof fn lemma_scan_is_nearest(
    objects: Seq<Box<dyn Hittable>>,
    n: nat,
    ray: Ray,
    t_min: Scalar,
    t_max: Scalar,
)
    requires
        n <= objects.len(),
        all_steady(objects, ray, t_min),
    ensures
        scan(objects, n, ray, t_min, t_max) matches Some(y) ==> {
            &&& spec_strictly_within(y.t, t_min, t_max)
            &&& exists|j: int|
                0 <= j < n && #[trigger] objects[j].spec_hit_scan(ray, t_min, t_max) == Some(y)
        },
        forall|i: int|
            0 <= i < n ==> (#[trigger] objects[i].spec_hit_scan(ray, t_min, t_max) matches Some(x)
                ==> (scan(objects, n, ray, t_min, t_max) matches Some(y) && y.t.spec_le(x.t))),
    decreases n,
{
    if n > 0 {
        let last = n - 1;
        lemma_scan_is_nearest(objects, last as nat, ray, t_min, t_max);
        let before = scan(objects, last as nat, ray, t_min, t_max);
        let after = scan(objects, n, ray, t_min, t_max);
        let bound = closest_so_far(before, t_max);
        let alone = objects[last].spec_hit_scan(ray, t_min, t_max);
        let asked = objects[last].spec_hit_scan(ray, t_min, bound);
        assert(steady(objects, last, ray, t_min, t_max, bound));
        assert(steady(objects, last, ray, t_min, bound, bound));
        if let Some(y) = after {
            if asked is Some {
                assert(objects[last].spec_hit_scan(ray, t_min, t_max) == Some(y));
            } else {
                let j = choose|j: int|
                    0 <= j < last && #[trigger] objects[j].spec_hit_scan(ray, t_min, t_max)
                        == Some(y);
                assert(objects[j].spec_hit_scan(ray, t_min, t_max) == Some(y));
            }
        }
        assert forall|i: int| 0 <= i < n implies (#[trigger] objects[i].spec_hit_scan(
            ray,
            t_min,
            t_max,
        ) matches Some(x) ==> (after matches Some(y) && y.t.spec_le(x.t))) by {
            if let Some(x) = objects[i].spec_hit_scan(ray, t_min, t_max) {
                if i < last {
                    assert(before is Some);
                } else {
                    assert(steady(objects, last, ray, t_min, t_max, t_max));
                }
            }
        }
    }
}

/// A hit of a scene lies strictly inside the interval, as long as each of
/// its objects keeps to the interval it is asked about.
pub proof fn lemma_scan_within(
    objects: Seq<Box<dyn Hittable>>,
    n: nat,
    ray: Ray,
    t_min: Scalar,
    t_max: Scalar,
)
    requires
        n <= objects.len(),
        forall|i: int, lo: Scalar, hi: Scalar|
            0 <= i < objects.len() ==> (#[trigger] objects[i].spec_hit_scan(ray, lo, hi) matches Some(
                x,
            ) ==> spec_strictly_within(x.t, lo, hi)),
    ensures
        scan(objects, n, ray, t_min, t_max) matches Some(x) ==> spec_strictly_within(
            x.t,
            t_min,
            t_max,
        ),
    decreases n,
{
    if n > 0 {
        lemma_scan_within(objects, (n - 1) as nat, ray, t_min, t_max);
    }
}

} // verus!
