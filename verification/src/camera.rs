//! The eye of a render.

use vstd::prelude::*;
use crate::vec3::{Point3, Vec3};

verus! {

/// The number of words of a packed camera.
pub const CAMERA_WORDS: usize = 12;

/// A camera: where the eye is, and the viewport it looks through, by its
/// bottom left corner and the two vectors that span it.
#[derive(Clone, Copy, Debug, PartialEq, Eq, Structural)]
pub struct Camera {
    pub origin: Point3,
    pub bottom_left: Point3,
    pub horizontal: Vec3,
    pub vertical: Vec3,
}

/// The three words of a vector.
pub open spec fn vec3_words(v: Vec3) -> Seq<u32> {
    seq![v.x.bits, v.y.bits, v.z.bits]
}

impl Camera {
    /// The packed record: the four vectors in the order of the fields.
    pub open spec fn words(self) -> Seq<u32> {
        vec3_words(self.origin) + vec3_words(self.bottom_left) + vec3_words(self.horizontal)
            + vec3_words(self.vertical)
    }

    /// The camera at `origin` that looks through the given viewport.
    ///
    /// The caller has derived the viewport from where the camera looks, its
    /// field of view and the aspect ratio of the image.
    pub fn new(
        origin: Point3,
        bottom_left: Point3,
        horizontal: Vec3,
        vertical: Vec3,
    ) -> (c: Camera)
        ensures
            c == (Camera { origin, bottom_left, horizontal, vertical }),
    {
        Camera { origin, bottom_left, horizontal, vertical }
    }

    /// The packed record.
    pub fn to_words(&self) -> (w: Vec<u32>)
        ensures
            w@ == self.words(),
            w@.len() == CAMERA_WORDS,
    {
        let mut w: Vec<u32> = Vec::new();
        w.push(self.origin.x.bits);
        w.push(self.origin.y.bits);
        w.push(self.origin.z.bits);
        w.push(self.bottom_left.x.bits);
        w.push(self.bottom_left.y.bits);
        w.push(self.bottom_left.z.bits);
        w.push(self.horizontal.x.bits);
        w.push(self.horizontal.y.bits);
        w.push(self.horizontal.z.bits);
        w.push(self.vertical.x.bits);
        w.push(self.vertical.y.bits);
        w.push(self.vertical.z.bits);
        assert(w@ =~= self.words());
        w
    }
}

} // verus!
