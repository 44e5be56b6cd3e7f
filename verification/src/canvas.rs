//! The pixel grid that the smudger works on: an RGBA image buffer of the
//! `image` crate behind a handle of this crate.
//!
//! The buffer itself is opaque to the verifier. Its dimensions and its
//! samples are given names, and each method of the buffer that the crate
//! calls has a private wrapper whose contract restates the method's source
//! over those names. The wrappers are taken on trust; the public methods of
//! `Canvas` are proved from them.

use vstd::prelude::*;

verus! {

/// Number of samples that make up one pixel: red, green, blue, alpha.
pub const CHANNELS: usize = 4;

/// An RGBA image held in an `image::RgbaImage`. The verifier does not look
/// inside: what it knows of a canvas it knows through `canvas_width`,
/// `canvas_height` and `canvas_buffer`.
#[verifier::external_body]
pub struct Canvas {
    image: image::RgbaImage,
}

/// What `ImageBuffer::width` returns: the number of pixels in a row.
pub uninterp spec fn canvas_width(canvas: Canvas) -> nat;

/// What `ImageBuffer::height` returns: the number of rows.
pub uninterp spec fn canvas_height(canvas: Canvas) -> nat;

/// The container of samples that the image buffer owns. The pixels lie at
/// its front in row-major order, four samples each; it may be longer than
/// the grid needs.
pub uninterp spec fn canvas_buffer(canvas: Canvas) -> Seq<u8>;

/// Number of samples that a grid of the given dimensions covers.
pub open spec fn covered(width: nat, height: nat) -> nat {
    CHANNELS as nat * width * height
}

/// Position in the buffer of one sample of the pixel at `(x, y)`.
pub open spec fn sample_index(width: nat, x: int, y: int, channel: int) -> int {
    (y * width + x) * CHANNELS + channel
}

/// Whether a buffer of `length` samples can back a grid of the given
/// dimensions: a row's samples must be countable in a `usize`, and the
/// buffer must hold the samples of every pixel.
pub open spec fn fits(width: nat, height: nat, length: nat) -> bool {
    CHANNELS * width <= usize::MAX && covered(width, height) <= length
}

/// `ImageBuffer::from_raw` for RGBA pixels over a `Vec<u8>`. It computes
/// four times the width times the height with overflow checks, and accepts
/// the container exactly when that product exists and does not exceed the
/// container's length; the container is stored as it is.
#[verifier::external_body]
fn buffer_from_raw(width: u32, height: u32, samples: Vec<u8>) -> (made: Option<Canvas>)
    ensures
        made is Some <==> fits(width as nat, height as nat, samples@.len()),
        made matches Some(canvas) ==> canvas_width(canvas) == width && canvas_height(canvas)
            == height && canvas_buffer(canvas) == samples@,
{
    match image::RgbaImage::from_raw(width, height, samples) {
        Some(image) => Some(Canvas { image }),
        None => None,
    }
}

/// `ImageBuffer::into_raw`: hands the container back, whole.
#[verifier::external_body]
fn buffer_into_raw(canvas: Canvas) -> (samples: Vec<u8>)
    ensures
        samples@ == canvas_buffer(canvas),
{
    canvas.image.into_raw()
}

/// `ImageBuffer::width`.
#[verifier::external_body]
pub(crate) fn buffer_width(canvas: &Canvas) -> (width: u32)
    ensures
        width == canvas_width(*canvas),
{
    canvas.image.width()
}

/// `ImageBuffer::height`. Every constructor of the buffer checks that the
/// container holds the samples of all pixels, so the returned height,
/// with the width, bounds the grid within the buffer.
#[verifier::external_body]
pub(crate) fn buffer_height(canvas: &Canvas) -> (height: u32)
    ensures
        height == canvas_height(*canvas),
        fits(canvas_width(*canvas), height as nat, canvas_buffer(*canvas).len()),
{
    canvas.image.height()
}

/// `ImageBuffer::get_pixel`, which panics outside the grid, followed by the
/// choice of one sample of the pixel it returns.
#[verifier::external_body]
pub(crate) fn buffer_read(canvas: &Canvas, x: u32, y: u32, channel: usize) -> (sample: u8)
    requires
        x < canvas_width(*canvas),
        y < canvas_height(*canvas),
        channel < CHANNELS,
    ensures
        sample == canvas_buffer(*canvas)[sample_index(
            canvas_width(*canvas),
            x as int,
            y as int,
            channel as int,
        )],
{
    canvas.image.get_pixel(x, y).0[channel]
}

/// `ImageBuffer::get_pixel_mut`, which panics outside the grid, followed by
/// a store into one sample of the pixel it returns. The dimensions and every
/// other sample stay as they were.
#[verifier::external_body]
pub(crate) fn buffer_write(canvas: &mut Canvas, x: u32, y: u32, channel: usize, sample: u8)
    requires
        x < canvas_width(*old(canvas)),
        y < canvas_height(*old(canvas)),
        channel < CHANNELS,
    ensures
        canvas_width(*final(canvas)) == canvas_width(*old(canvas)),
        canvas_height(*final(canvas)) == canvas_height(*old(canvas)),
        canvas_buffer(*final(canvas)) == canvas_buffer(*old(canvas)).update(
            sample_index(canvas_width(*old(canvas)), x as int, y as int, channel as int),
            sample,
        ),
{
    canvas.image.get_pixel_mut(x, y).0[channel] = sample;
}

/// The sample of a pixel inside the grid lies inside the covered front of
/// the buffer, at a position that tells its channel.
pub proof fn lemma_sample_index_bounds(width: nat, height: nat, x: int, y: int, channel: int)
    requires
        0 <= x < width,
        0 <= y < height,
        0 <= channel < CHANNELS,
    ensures
        0 <= sample_index(width, x, y, channel) < covered(width, height),
        sample_index(width, x, y, channel) % (CHANNELS as int) == channel,
{
    assert(0 <= y * width + x < width * height) by (nonlinear_arith)
        requires
            0 <= x < width,
            0 <= y < height,
    ;
    assert(CHANNELS * width * height == CHANNELS * (width * height)) by (nonlinear_arith);
}

impl Canvas {
    /// Builds a canvas of `width` by `height` pixels over `samples`, which
    /// hold the pixels row by row, four samples each. The samples must
    /// suffice for the grid; what lies beyond it is kept and never touched.
    pub fn from_samples(width: u32, height: u32, samples: Vec<u8>) -> (made: Option<Canvas>)
        ensures
            made is Some <==> fits(width as nat, height as nat, samples@.len()),
            made matches Some(canvas) ==> canvas_width(canvas) == width && canvas_height(canvas)
                == height && canvas_buffer(canvas) == samples@,
    {
        buffer_from_raw(width, height, samples)
    }

    /// Gives up the canvas for its samples.
    pub fn into_samples(self) -> (samples: Vec<u8>)
        ensures
            samples@ == canvas_buffer(self),
    {
        buffer_into_raw(self)
    }

    /// Number of pixels in a row.
    pub fn width(&self) -> (width: u32)
        ensures
            width == canvas_width(*self),
    {
        buffer_width(self)
    }

    /// Number of rows.
    pub fn height(&self) -> (height: u32)
        ensures
            height == canvas_height(*self),
            fits(canvas_width(*self), canvas_height(*self), canvas_buffer(*self).len()),
    {
        buffer_height(self)
    }
}

} // verus!
