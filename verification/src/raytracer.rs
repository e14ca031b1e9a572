//! Rendering on a compute device.
//!
//! The device does the tracing. What stands here is everything around it
//! that can be computed ahead or checked afterwards: the bytes that
//! describe the scene to the device, the size of the dispatch, the layout
//! of the buffer that the image is read back through, and the image that
//! the bytes read back make.

pub mod simple;

use vstd::prelude::*;
use vstd::arithmetic::div_mod::lemma_fundamental_div_mod_converse_div;
use vstd::arithmetic::div_mod::lemma_fundamental_div_mod_converse_mod;
use crate::color::{Color, color_samples, pixel_samples, rgba};

verus! {

/// Why a render could not be set up or completed.
#[derive(Clone, Copy, Debug, PartialEq, Eq, Structural)]
pub enum RenderError {
    /// The image is too large for the rows of the readback buffer to be
    /// addressed with 32 bits.
    ImageTooLarge,
    /// The bytes read back do not have the length that the layout of the
    /// readback buffer gives.
    ReadbackSize,
}

/// An image of 8-bit red, green, blue and alpha samples, kept in an
/// `image::ImageBuffer`.
#[verifier::external_body]
pub struct RenderedImage {
    inner: image::ImageBuffer<image::Rgba<u8>, Vec<u8>>,
}

/// The samples that an image keeps, row after row from the top.
pub uninterp spec fn image_samples(img: RenderedImage) -> Seq<u8>;

/// The width and height that an image was made with.
pub uninterp spec fn image_dimensions(img: RenderedImage) -> (u32, u32);

/// `image::ImageBuffer::from_raw`: it makes an image exactly when the
/// buffer holds at least four samples for each pixel, and the image then
/// keeps the dimensions and the whole buffer.
#[verifier::external_body]
fn image_from_raw(width: u32, height: u32, samples: Vec<u8>) -> (r: Option<RenderedImage>)
    ensures
        r is Some <==> 4 * width * height <= samples@.len(),
        r matches Some(img) ==> image_samples(img) == samples@ && image_dimensions(img) == (
            width,
            height,
        ),
{
    match image::ImageBuffer::from_raw(width, height, samples) {
        Some(inner) => Some(RenderedImage { inner }),
        None => None,
    }
}

/// `image::ImageBuffer::dimensions`: the width and height of the image.
#[verifier::external_body]
fn image_size(img: &RenderedImage) -> (r: (u32, u32))
    ensures
        r == image_dimensions(*img),
{
    img.inner.dimensions()
}

/// `image::ImageBuffer::into_raw`: the buffer that the image keeps.
#[verifier::external_body]
fn image_into_raw(img: RenderedImage) -> (r: Vec<u8>)
    ensures
        r@ == image_samples(img),
{
    img.inner.into_raw()
}

/// The row pitch, in bytes, that `wgpu` asks of a buffer that a texture is
/// copied to: `wgpu::COPY_BYTES_PER_ROW_ALIGNMENT`, which is 256.
#[verifier::external_body]
fn copy_row_alignment() -> (r: u32)
    ensures
        r == 256,
{
    wgpu::COPY_BYTES_PER_ROW_ALIGNMENT
}

/// The bytes of a word, least significant first.
pub open spec fn word_le(w: u32) -> Seq<u8> {
    seq![
        (w % 256) as u8,
        (w / 0x100 % 256) as u8,
        (w / 0x1_0000 % 256) as u8,
        (w / 0x100_0000 % 256) as u8,
    ]
}

/// The bytes of a sequence of words, each word least significant byte
/// first.
pub open spec fn little_endian(words: Seq<u32>) -> Seq<u8> {
    Seq::new(4 * words.len(), |k: int| word_le(words[k / 4])[k % 4])
}

/// The bytes of a sequence of words, each word most significant byte first.
pub open spec fn big_endian(words: Seq<u32>) -> Seq<u8> {
    Seq::new(4 * words.len(), |k: int| word_le(words[k / 4])[3 - k % 4])
}

/// The bytes of a sequence of words in the memory of some machine.
pub open spec fn in_memory(words: Seq<u32>, bytes: Seq<u8>) -> bool {
    bytes == little_endian(words) || bytes == big_endian(words)
}

/// `bytemuck::cast_slice` from words to bytes, copied out: the bytes of
/// the words as they lie in memory, which is in the byte order of the
/// machine.
#[verifier::external_body]
fn cast_words(words: &Vec<u32>) -> (bytes: Vec<u8>)
    ensures
        in_memory(words@, bytes@),
{
    bytemuck::cast_slice::<u32, u8>(words.as_slice()).to_vec()
}

impl RenderedImage {
    /// The samples of the image, row after row from the top, four to a
    /// pixel.
    pub open spec fn samples(self) -> Seq<u8> {
        image_samples(self)
    }

    /// The width of the image in pixels.
    pub open spec fn spec_width(self) -> u32 {
        image_dimensions(self).0
    }

    /// The height of the image in pixels.
    pub open spec fn spec_height(self) -> u32 {
        image_dimensions(self).1
    }

    /// The image of the given width and height over `samples`; none if
    /// there are fewer than four samples for each pixel.
    pub fn from_raw(width: u32, height: u32, samples: Vec<u8>) -> (r: Option<RenderedImage>)
        ensures
            r is Some <==> 4 * width * height <= samples@.len(),
            r matches Some(img) ==> {
                &&& img.samples() == samples@
                &&& img.spec_width() == width
                &&& img.spec_height() == height
            },
    {
        image_from_raw(width, height, samples)
    }

    /// The image of the given width and height whose pixels have the given
    /// colours, row after row from the top; none unless there is one colour
    /// for each pixel.
    ///
    /// Each colour is that of a pixel after its samples were averaged and
    /// its gamma was corrected.
    pub fn from_colors(width: u32, height: u32, pixels: &Vec<Color>) -> (r: Option<RenderedImage>)
        ensures
            r is Some <==> pixels@.len() == width * height,
            r matches Some(img) ==> {
                &&& img.samples() == color_samples(pixels@)
                &&& img.spec_width() == width
                &&& img.spec_height() == height
            },
    {
        assert(width * height <= u64::MAX) by (nonlinear_arith)
            requires
                width <= u32::MAX,
                height <= u32::MAX,
        ;
        let count: u64 = (width as u64) * (height as u64);
        if pixels.len() as u64 != count {
            return None;
        }
        let mut samples: Vec<u8> = Vec::new();
        let mut i: usize = 0;
        while i < pixels.len()
            invariant
                0 <= i <= pixels@.len(),
                samples@.len() == 4 * i,
                forall|k: int|
                    0 <= k < 4 * i ==> #[trigger] samples@[k] == pixel_samples(pixels@[k / 4])[k
                        % 4],
            decreases pixels@.len() - i,
        {
            let quad = rgba(pixels[i]);
            proof {
                lemma_fundamental_div_mod_converse_div(4 * i + 0, 4, i as int, 0);
                lemma_fundamental_div_mod_converse_div(4 * i + 1, 4, i as int, 1);
                lemma_fundamental_div_mod_converse_div(4 * i + 2, 4, i as int, 2);
                lemma_fundamental_div_mod_converse_div(4 * i + 3, 4, i as int, 3);
                lemma_fundamental_div_mod_converse_mod(4 * i + 0, 4, i as int, 0);
                lemma_fundamental_div_mod_converse_mod(4 * i + 1, 4, i as int, 1);
                lemma_fundamental_div_mod_converse_mod(4 * i + 2, 4, i as int, 2);
                lemma_fundamental_div_mod_converse_mod(4 * i + 3, 4, i as int, 3);
            }
            samples.push(quad[0]);
            samples.push(quad[1]);
            samples.push(quad[2]);
            samples.push(quad[3]);
            i = i + 1;
        }
        assert(samples@ =~= color_samples(pixels@));
        assert(4 * width * height == 4 * (width * height)) by (nonlinear_arith);
        image_from_raw(width, height, samples)
    }

    /// The width and height of the image.
    pub fn dimensions(&self) -> (r: (u32, u32))
        ensures
            r == (self.spec_width(), self.spec_height()),
    {
        image_size(self)
    }

    /// The samples of the image.
    pub fn into_raw(self) -> (r: Vec<u8>)
        ensures
            r@ == self.samples(),
    {
        image_into_raw(self)
    }
}

/// The bytes of `words` as the device reads them: in the byte order of
/// this machine, four to a word.
pub fn device_bytes(words: &Vec<u32>) -> (bytes: Vec<u8>)
    ensures
        in_memory(words@, bytes@),
        bytes@.len() == 4 * words@.len(),
{
    cast_words(words)
}

} // verus!
