//! The renderer that traces every pixel in one dispatch.
//!
//! A [`SimpleRayTracer`] holds a scene ready for the device. It packs the
//! camera, the spheres and the parameters into the bytes of three buffers,
//! says how many workgroups cover the image and how the readback buffer is
//! laid out, and turns the bytes read back into the image.

use vstd::prelude::*;
use vstd::arithmetic::div_mod::lemma_fundamental_div_mod_converse_div;
use vstd::arithmetic::div_mod::lemma_fundamental_div_mod_converse_mod;
use crate::camera::Camera;
use crate::raytracer::{RenderError, RenderedImage, copy_row_alignment, device_bytes, in_memory};
use crate::sphere::{Sphere, SPHERE_WORDS};

verus! {

/// The number of bounces after which a path is given up.
pub const MAX_DEPTH: u32 = 50;

/// The side of the square of pixels that one workgroup traces.
pub const WORKGROUP_SIDE: u32 = 8;

/// The number of bytes of a pixel of the image.
pub const BYTES_PER_PIXEL: u32 = 4;

/// The parameters of a render that every invocation reads.
#[derive(Clone, Copy, Debug, PartialEq, Eq, Structural)]
pub struct SimpleRayTracerConfig {
    pub image_width: u32,
    pub image_height: u32,
    pub max_depth: u32,
    pub object_count: u32,
}

/// The layout of the buffer that the image is read back through: rows of
/// pixels, each padded to the row pitch that the device asks for.
#[derive(Clone, Copy, Debug, PartialEq, Eq, Structural)]
pub struct Readback {
    /// The bytes of the pixels of one row.
    pub bytes_per_row: u32,
    /// The bytes from the start of one row to the start of the next.
    pub padded_bytes_per_row: u32,
    /// The number of rows.
    pub rows: u32,
    /// The bytes of the whole buffer.
    pub size: u64,
}

/// A scene, a camera and the parameters of a render.
pub struct SimpleRayTracer {
    config: SimpleRayTracerConfig,
    objects: Vec<Sphere>,
    camera: Camera,
}

/// The number of workgroups that cover `n` pixels along one axis.
pub open spec fn spec_workgroups(n: u32) -> int {
    (n + 7) / 8
}

/// The row pitch of an image of the given width: four bytes to a pixel,
/// rounded up to a multiple of 256.
pub open spec fn padded_row(width: u32) -> int {
    (4 * width + 255) / 256 * 256
}

/// The layout of the readback buffer of an image, where the row pitch and
/// the size of the buffer can be held in 32 bits.
pub open spec fn spec_readback(width: u32, height: u32) -> Option<Readback> {
    if padded_row(width) <= u32::MAX && padded_row(width) * height <= u32::MAX {
        Some(
            Readback {
                bytes_per_row: (4 * width) as u32,
                padded_bytes_per_row: padded_row(width) as u32,
                rows: height,
                size: (padded_row(width) * height) as u64,
            },
        )
    } else {
        None
    }
}

/// The number of rows that `len` bytes hold at the given pitch, a last
/// shorter row counted.
pub open spec fn row_count(len: int, pitch: int) -> int {
    (len + pitch - 1) / pitch
}

/// Whether `len` bytes are rows at the given pitch of which the last, if it
/// is shorter than the pitch, still holds `bytes_per_row` bytes.
pub open spec fn holds_rows(len: int, bytes_per_row: int, pitch: int) -> bool {
    len % pitch == 0 || len % pitch >= bytes_per_row
}

/// The rows of `data` without their padding: of each stretch of `pitch`
/// bytes the first `bytes_per_row`, one after the other.
pub open spec fn unpadded(data: Seq<u8>, bytes_per_row: int, pitch: int) -> Seq<u8> {
    Seq::new(
        (row_count(data.len() as int, pitch) * bytes_per_row) as nat,
        |k: int| data[(k / bytes_per_row) * pitch + k % bytes_per_row],
    )
}

/// Whether `r` is what the bytes read back make of a render: an error
/// where the image has no layout or the bytes are not as many as the
/// layout has, and else the image of the rows without their padding.
pub open spec fn finished(
    config: SimpleRayTracerConfig,
    data: Seq<u8>,
    r: Result<RenderedImage, RenderError>,
) -> bool {
    match spec_readback(config.image_width, config.image_height) {
        None => r == Err::<RenderedImage, RenderError>(RenderError::ImageTooLarge),
        Some(layout) => if data.len() != layout.size {
            r == Err::<RenderedImage, RenderError>(RenderError::ReadbackSize)
        } else {
            &&& r is Ok
            &&& r->Ok_0.spec_width() == config.image_width
            &&& r->Ok_0.spec_height() == config.image_height
            &&& r->Ok_0.samples() == unpadded(
                data,
                layout.bytes_per_row as int,
                layout.padded_bytes_per_row as int,
            )
            &&& r->Ok_0.samples().len() == 4 * config.image_width * config.image_height
        },
    }
}

/// The same bytes read back make the same image: two results for one
/// render and one readback agree in whether they fail, in the error, and in
/// the size and every sample of the image.
pub proof fn lemma_finish_repeats(
    config: SimpleRayTracerConfig,
    data: Seq<u8>,
    a: Result<RenderedImage, RenderError>,
    b: Result<RenderedImage, RenderError>,
)
    requires
        finished(config, data, a),
        finished(config, data, b),
    ensures
        a is Ok <==> b is Ok,
        a is Err ==> a == b,
        a is Ok ==> {
            &&& a->Ok_0.spec_width() == b->Ok_0.spec_width()
            &&& a->Ok_0.spec_height() == b->Ok_0.spec_height()
            &&& a->Ok_0.samples() == b->Ok_0.samples()
        },
{
}

/// The packed records of a sequence of spheres, one after the other.
pub open spec fn packed(objects: Seq<Sphere>) -> Seq<u32>
    decreases objects.len(),
{
    if objects.len() == 0 {
        Seq::empty()
    } else {
        packed(objects.drop_last()) + objects.last().words()
    }
}

/// The workgroups cover the pixels, and one fewer would not.
pub proof fn lemma_workgroups_cover(n: u32)
    ensures
        8 * spec_workgroups(n) >= n,
        8 * (spec_workgroups(n) - 1) < n || n == 0,
        spec_workgroups(n) <= u32::MAX,
{
}

/// The row pitch is the least multiple of 256 that holds the pixels of a
/// row.
pub proof fn lemma_padded_row_is_least(width: u32)
    ensures
        padded_row(width) % 256 == 0,
        4 * width <= padded_row(width) < 4 * width + 256,
{
}

/// Each sphere takes eighteen words, and the record of the sphere at `i`
/// starts at word `18 * i`.
pub proof fn lemma_packed_layout(objects: Seq<Sphere>, i: int)
    requires
        0 <= i < objects.len(),
    ensures
        packed(objects).len() == 18 * objects.len(),
        packed(objects).subrange(18 * i, 18 * i + 18) == objects[i].words(),
    decreases objects.len(),
{
    lemma_packed_len(objects);
    let rest = objects.drop_last();
    lemma_packed_len(rest);
    if i == objects.len() - 1 {
        assert(packed(objects).subrange(18 * i, 18 * i + 18) =~= objects[i].words());
    } else {
        lemma_packed_layout(rest, i);
        assert(packed(objects).subrange(18 * i, 18 * i + 18) =~= packed(rest).subrange(
            18 * i,
            18 * i + 18,
        ));
    }
}

/// Each sphere takes eighteen words.
pub proof fn lemma_packed_len(objects: Seq<Sphere>)
    ensures
        packed(objects).len() == 18 * objects.len(),
    decreases objects.len(),
{
    if objects.len() > 0 {
        lemma_packed_len(objects.drop_last());
    }
}

/// The bytes of a row of the image lie in the data read back where the
/// layout puts them: byte `x` of row `y` at `y * pitch + x`.
pub proof fn lemma_unpadded_row(data: Seq<u8>, bytes_per_row: int, pitch: int, y: int, x: int)
    requires
        0 < bytes_per_row,
        0 < pitch,
        0 <= y < row_count(data.len() as int, pitch),
        0 <= x < bytes_per_row,
    ensures
        0 <= y * bytes_per_row + x < unpadded(data, bytes_per_row, pitch).len(),
        unpadded(data, bytes_per_row, pitch)[y * bytes_per_row + x] == data[y * pitch + x],
{
    let rows = row_count(data.len() as int, pitch);
    assert(y * bytes_per_row + x < rows * bytes_per_row) by (nonlinear_arith)
        requires
            0 <= y < rows,
            0 <= x < bytes_per_row,
    ;
    assert(0 <= y * bytes_per_row) by (nonlinear_arith)
        requires
            0 <= y,
            0 < bytes_per_row,
    ;
    lemma_fundamental_div_mod_converse_div(y * bytes_per_row + x, bytes_per_row, y, x);
    lemma_fundamental_div_mod_converse_mod(y * bytes_per_row + x, bytes_per_row, y, x);
}

/// The number of workgroups that cover `n` pixels along one axis.
pub fn workgroups(n: u32) -> (g: u32)
    ensures
        g == spec_workgroups(n),
{
    if n % WORKGROUP_SIDE == 0 {
        n / WORKGROUP_SIDE
    } else {
        n / WORKGROUP_SIDE + 1
    }
}

impl SimpleRayTracerConfig {
    /// The packed record: width, height, depth and count.
    pub open spec fn words(self) -> Seq<u32> {
        seq![self.image_width, self.image_height, self.max_depth, self.object_count]
    }

    /// The packed record.
    pub fn to_words(&self) -> (w: Vec<u32>)
        ensures
            w@ == self.words(),
    {
        let mut w: Vec<u32> = Vec::new();
        w.push(self.image_width);
        w.push(self.image_height);
        w.push(self.max_depth);
        w.push(self.object_count);
        assert(w@ =~= self.words());
        w
    }
}

impl Readback {
    /// The layout of the readback buffer of an image of the given width and
    /// height; none where the row pitch or the size of the buffer does not
    /// fit in 32 bits.
    pub fn new(width: u32, height: u32) -> (r: Option<Readback>)
        ensures
            r == spec_readback(width, height),
    {
        let alignment: u64 = copy_row_alignment() as u64;
        let pixel: u64 = BYTES_PER_PIXEL as u64;
        assert(pixel * width == 4 * width) by (nonlinear_arith)
            requires
                pixel == 4,
        ;
        let bytes_per_row: u64 = pixel * (width as u64);
        let padded: u64 = (bytes_per_row + alignment - 1) / alignment * alignment;
        if padded > u32::MAX as u64 {
            return None;
        }
        assert(padded * height <= u64::MAX) by (nonlinear_arith)
            requires
                padded <= u32::MAX,
                height <= u32::MAX,
        ;
        let size: u64 = padded * (height as u64);
        if size > u32::MAX as u64 {
            return None;
        }
        Some(
            Readback {
                bytes_per_row: bytes_per_row as u32,
                padded_bytes_per_row: padded as u32,
                rows: height,
                size,
            },
        )
    }
}

/// The rows of `data` without their padding.
///
/// `data` is cut into stretches of `pitch` bytes, and of each the first
/// `bytes_per_row` bytes are kept. A last stretch may be shorter than the
/// pitch, as long as it holds a whole row.
pub fn unpad_rows(data: &[u8], bytes_per_row: usize, pitch: usize) -> (pixels: Vec<u8>)
    requires
        0 < pitch,
        bytes_per_row <= pitch,
        holds_rows(data@.len() as int, bytes_per_row as int, pitch as int),
    ensures
        pixels@ == unpadded(data@, bytes_per_row as int, pitch as int),
{
    let len: usize = data.len();
    let mut pixels: Vec<u8> = Vec::new();
    let mut start: usize = 0;
    let ghost mut row: int = 0;
    proof {
        assert(0 * (pitch as int) == 0);
        assert(0 * (bytes_per_row as int) == 0);
    }
    while start < len
        invariant
            len == data@.len(),
            0 < pitch,
            bytes_per_row <= pitch,
            holds_rows(len as int, bytes_per_row as int, pitch as int),
            0 <= row,
            start <= len,
            start == len || start == row * pitch,
            row * pitch >= start,
            row == 0 || (row - 1) * pitch < len,
            pixels@.len() == row * bytes_per_row,
            forall|k: int|
                0 <= k < pixels@.len() ==> #[trigger] pixels@[k] == data@[(k / (
                bytes_per_row as int)) * pitch + k % (bytes_per_row as int)],
        decreases len - start,
    {
        proof {
            if len - start < pitch {
                lemma_fundamental_div_mod_converse_mod(
                    len as int,
                    pitch as int,
                    row,
                    len - start,
                );
            }
        }
        let mut k: usize = 0;
        while k < bytes_per_row
            invariant
                len == data@.len(),
                start + bytes_per_row <= len,
                start == row * pitch,
                0 <= row,
                0 <= k <= bytes_per_row,
                pixels@.len() == row * bytes_per_row + k,
                forall|j: int|
                    0 <= j < pixels@.len() ==> #[trigger] pixels@[j] == data@[(j / (
                    bytes_per_row as int)) * pitch + j % (bytes_per_row as int)],
            decreases bytes_per_row - k,
        {
            proof {
                let j = row * bytes_per_row + k;
                lemma_fundamental_div_mod_converse_div(j, bytes_per_row as int, row, k as int);
                lemma_fundamental_div_mod_converse_mod(j, bytes_per_row as int, row, k as int);
            }
            pixels.push(data[start + k]);
            k = k + 1;
        }
        proof {
            assert((row + 1) * bytes_per_row == row * bytes_per_row + bytes_per_row)
                by (nonlinear_arith);
            assert((row + 1) * pitch == row * pitch + pitch) by (nonlinear_arith);
            row = row + 1;
        }
        if len - start > pitch {
            start = start + pitch;
        } else {
            start = len;
        }
    }
    proof {
        let rows = row_count(len as int, pitch as int);
        if row == 0 {
            assert(len == 0);
            lemma_fundamental_div_mod_converse_div(pitch - 1, pitch as int, 0, pitch - 1);
        } else {
            assert(row * pitch == (row - 1) * pitch + pitch) by (nonlinear_arith);
            lemma_fundamental_div_mod_converse_div(
                len + pitch - 1,
                pitch as int,
                row,
                len + pitch - 1 - row * pitch,
            );
        }
        assert(rows == row);
        assert(pixels@ =~= unpadded(data@, bytes_per_row as int, pitch as int));
    }
    pixels
}

impl SimpleRayTracer {
    #[verifier::type_invariant]
    spec fn consistent(&self) -> bool {
        &&& self.config.object_count == self.objects@.len()
        &&& self.config.max_depth == MAX_DEPTH
    }

    /// The parameters of the render.
    pub closed spec fn spec_config(&self) -> SimpleRayTracerConfig {
        self.config
    }

    /// The spheres of the scene, in the order they were given.
    pub closed spec fn spec_objects(&self) -> Seq<Sphere> {
        self.objects@
    }

    /// The camera.
    pub closed spec fn spec_camera(&self) -> Camera {
        self.camera
    }

    /// A renderer of the given scene at the given size. Paths are followed
    /// for at most fifty bounces.
    pub fn new(image_width: u32, image_height: u32, objects: Vec<Sphere>, camera: Camera) -> (r:
        SimpleRayTracer)
        requires
            objects@.len() <= u32::MAX,
        ensures
            r.spec_config() == (SimpleRayTracerConfig {
                image_width,
                image_height,
                max_depth: MAX_DEPTH,
                object_count: objects@.len() as u32,
            }),
            r.spec_objects() == objects@,
            r.spec_camera() == camera,
    {
        let object_count: u32 = objects.len() as u32;
        SimpleRayTracer {
            config: SimpleRayTracerConfig {
                image_width,
                image_height,
                max_depth: MAX_DEPTH,
                object_count,
            },
            objects,
            camera,
        }
    }

    /// The parameters of the render.
    #[verifier::when_used_as_spec(spec_config)]
    pub fn config(&self) -> (c: SimpleRayTracerConfig)
        ensures
            c == self.spec_config(),
            c.object_count == self.spec_objects().len(),
            c.max_depth == MAX_DEPTH,
    {
        proof {
            use_type_invariant(self);
        }
        self.config
    }

    /// The spheres of the scene, in the order they were given.
    pub fn objects(&self) -> (o: &Vec<Sphere>)
        ensures
            o@ == self.spec_objects(),
    {
        &self.objects
    }

    /// The camera.
    #[verifier::when_used_as_spec(spec_camera)]
    pub fn camera(&self) -> (c: Camera)
        ensures
            c == self.spec_camera(),
    {
        self.camera
    }

    /// The words of the object buffer: the packed spheres, one after the
    /// other.
    pub fn object_words(&self) -> (w: Vec<u32>)
        ensures
            w@ == packed(self.spec_objects()),
            w@.len() == SPHERE_WORDS * self.spec_objects().len(),
    {
        let mut w: Vec<u32> = Vec::new();
        let mut i: usize = 0;
        while i < self.objects.len()
            invariant
                0 <= i <= self.objects@.len(),
                w@ == packed(self.objects@.take(i as int)),
            decreases self.objects@.len() - i,
        {
            proof {
                let next = self.objects@.take(i + 1);
                assert(next.drop_last() =~= self.objects@.take(i as int));
                assert(next.last() == self.objects@[i as int]);
            }
            self.objects[i].pack(&mut w);
            i = i + 1;
        }
        proof {
            assert(self.objects@.take(i as int) =~= self.objects@);
            lemma_packed_len(self.objects@);
        }
        w
    }

    /// The bytes of the camera buffer.
    pub fn camera_bytes(&self) -> (b: Vec<u8>)
        ensures
            in_memory(self.spec_camera().words(), b@),
    {
        let w = self.camera.to_words();
        device_bytes(&w)
    }

    /// The bytes of the object buffer.
    pub fn object_bytes(&self) -> (b: Vec<u8>)
        ensures
            in_memory(packed(self.spec_objects()), b@),
            b@.len() == 72 * self.spec_objects().len(),
    {
        let w = self.object_words();
        device_bytes(&w)
    }

    /// The bytes of the parameter buffer.
    pub fn parameter_bytes(&self) -> (b: Vec<u8>)
        ensures
            in_memory(self.spec_config().words(), b@),
    {
        let w = self.config.to_words();
        device_bytes(&w)
    }

    /// The size of the dispatch: the workgroups along the width, along the
    /// height, and one layer of them.
    pub fn dispatch_size(&self) -> (g: (u32, u32, u32))
        ensures
            g == (
                spec_workgroups(self.spec_config().image_width) as u32,
                spec_workgroups(self.spec_config().image_height) as u32,
                1u32,
            ),
    {
        (workgroups(self.config.image_width), workgroups(self.config.image_height), 1)
    }

    /// The layout of the readback buffer.
    pub fn readback(&self) -> (r: Result<Readback, RenderError>)
        ensures
            match spec_readback(self.spec_config().image_width, self.spec_config().image_height) {
                Some(layout) => r == Ok::<Readback, RenderError>(layout),
                None => r == Err::<Readback, RenderError>(RenderError::ImageTooLarge),
            },
    {
        match Readback::new(self.config.image_width, self.config.image_height) {
            Some(layout) => Ok(layout),
            None => Err(RenderError::ImageTooLarge),
        }
    }

    /// The image that the bytes read back make.
    ///
    /// `data` is the whole readback buffer after the dispatch has run. The
    /// image holds its rows without their padding.
    pub fn finish(&self, data: &[u8]) -> (r: Result<RenderedImage, RenderError>)
        ensures
            finished(self.spec_config(), data@, r),
    {
        let width: u32 = self.config.image_width;
        let height: u32 = self.config.image_height;
        let layout = match Readback::new(width, height) {
            Some(layout) => layout,
            None => {
                return Err(RenderError::ImageTooLarge);
            },
        };
        if data.len() as u64 != layout.size {
            return Err(RenderError::ReadbackSize);
        }
        let pixels = if layout.padded_bytes_per_row == 0 {
            proof {
                assert(unpadded(data@, 0, 0) =~= Seq::<u8>::empty()) by {
                    assert(row_count(data@.len() as int, 0) * 0 == 0);
                }
                assert(4 * width * height == 0) by (nonlinear_arith)
                    requires
                        width == 0,
                ;
            }
            Vec::new()
        } else {
            let pitch: usize = layout.padded_bytes_per_row as usize;
            proof {
                lemma_row_count_of_whole_rows(height as int, pitch as int);
                assert(pitch * height == height * pitch) by (nonlinear_arith);
                assert(4 * width * height == height * (4 * width)) by (nonlinear_arith);
            }
            unpad_rows(data, layout.bytes_per_row as usize, pitch)
        };
        match RenderedImage::from_raw(width, height, pixels) {
            Some(img) => Ok(img),
            None => Err(RenderError::ReadbackSize),
        }
    }
}

/// Whole rows: `rows * pitch` bytes hold `rows` rows and leave no rest.
pub proof fn lemma_row_count_of_whole_rows(rows: int, pitch: int)
    requires
        0 <= rows,
        0 < pitch,
    ensures
        row_count(rows * pitch, pitch) == rows,
        (rows * pitch) % pitch == 0,
{
    lemma_fundamental_div_mod_converse_mod(rows * pitch, pitch, rows, 0);
    if rows == 0 {
        assert(rows * pitch == 0) by (nonlinear_arith)
            requires
                rows == 0,
        ;
        lemma_fundamental_div_mod_converse_div(pitch - 1, pitch, 0, pitch - 1);
    } else {
        assert(rows * pitch + pitch - 1 == rows * pitch + (pitch - 1));
        lemma_fundamental_div_mod_converse_div(rows * pitch + pitch - 1, pitch, rows, pitch - 1);
    }
}

} // verus!
