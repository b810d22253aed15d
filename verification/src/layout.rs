//! Byte layout of render targets, staging buffers and pixel buffers.
//!
//! A pixel buffer is tightly packed: `width * 4` bytes per row, top row first.
//! A staging buffer is what the device copies a target into; there every row
//! starts at a multiple of `ROW_ALIGNMENT`, so a row may end in padding.

use vstd::prelude::*;
use crate::device::{
    copy_row_alignment, requested_limits, MAX_BUFFER_BYTES, MAX_TARGET_DIMENSION, ROW_ALIGNMENT,
};
use crate::error::RenderError;

verus! {

/// Bytes of one RGBA8 pixel.
pub const BYTES_PER_PIXEL: u64 = 4;

/// Bytes of one tightly packed row.
pub open spec fn tight_stride(width: int) -> int {
    width * BYTES_PER_PIXEL as int
}

/// Bytes from the start of one staged row to the start of the next: the
/// tight stride, rounded up to the next multiple of the row alignment.
pub open spec fn padded_stride(width: int) -> int {
    ((tight_stride(width) + (ROW_ALIGNMENT - 1)) / ROW_ALIGNMENT as int) * ROW_ALIGNMENT
}

/// Length of the pixel buffer of a target.
pub open spec fn pixel_bytes(width: int, height: int) -> int {
    tight_stride(width) * height
}

/// Length of the staging buffer of a target.
pub open spec fn staging_bytes(width: int, height: int) -> int {
    padded_stride(width) * height
}

/// The targets that can be rendered: both dimensions are positive, and
/// neither exceeds what the device guarantees for a texture.
pub open spec fn extent_ok(width: int, height: int) -> bool {
    0 < width <= MAX_TARGET_DIMENSION && 0 < height <= MAX_TARGET_DIMENSION
}

/// The padded stride is a multiple of the alignment, and holds a row with
/// less than one alignment unit to spare.
pub proof fn lemma_padded_stride(width: int)
    requires
        0 <= width,
    ensures
        padded_stride(width) % 256 == 0,
        tight_stride(width) <= padded_stride(width) < tight_stride(width) + 256,
        tight_stride(width) == width * 4,
{
    let rounded = (tight_stride(width) + 255) / 256;
    assert(padded_stride(width) == rounded * 256);
    assert(256 * rounded <= tight_stride(width) + 255 < 256 * rounded + 256);
}

/// No smaller multiple of the alignment holds a row.
pub proof fn lemma_padded_stride_is_least(width: int, multiple: int)
    requires
        0 <= width,
        multiple % 256 == 0,
        tight_stride(width) <= multiple,
    ensures
        padded_stride(width) <= multiple,
{
    let rounded = (tight_stride(width) + 255) / 256;
    let factor = multiple / 256;
    assert(padded_stride(width) == rounded * 256);
    assert(multiple == factor * 256);
    assert(rounded <= factor);
}

/// Rows whose width is a multiple of 64 pixels carry no padding, so the
/// staging buffer of such a target is exactly as long as its pixel buffer.
pub proof fn lemma_aligned_width_has_no_padding(width: int, height: int)
    requires
        0 <= width,
        width % 64 == 0,
    ensures
        padded_stride(width) == tight_stride(width),
        staging_bytes(width, height) == pixel_bytes(width, height),
{
    let q = width / 64;
    assert(width == 64 * q);
    assert(tight_stride(width) == 256 * q);
    assert((256 * q + 255) / 256 == q);
}

/// A pixel buffer is never longer than the staging buffer it is taken from.
pub proof fn lemma_pixel_bytes_bounded(width: int, height: int)
    requires
        0 <= width,
        0 <= height,
    ensures
        0 <= pixel_bytes(width, height) <= staging_bytes(width, height),
        pixel_bytes(width, height) == width * height * 4,
{
    lemma_padded_stride(width);
    assert(tight_stride(width) * height <= padded_stride(width) * height) by (nonlinear_arith)
        requires
            0 <= tight_stride(width) <= padded_stride(width),
            0 <= height,
    ;
    assert(0 <= tight_stride(width) * height) by (nonlinear_arith)
        requires
            0 <= tight_stride(width),
            0 <= height,
    ;
    assert(tight_stride(width) * height == width * height * 4) by (nonlinear_arith)
        requires
            tight_stride(width) == width * 4,
    ;
}

/// Computes the padded stride of a row of `width` pixels.
fn round_up_row(width: u64) -> (stride: u64)
    requires
        width <= u32::MAX,
    ensures
        stride == padded_stride(width as int),
{
    let alignment: u64 = copy_row_alignment() as u64;
    (width * BYTES_PER_PIXEL + (alignment - 1)) / alignment * alignment
}

/// Width and height of a render target, in pixels. Every value of this type
/// satisfies `extent_ok`.
#[derive(Clone, Copy, Debug)]
pub struct Extent {
    width: u32,
    height: u32,
}

impl Extent {
    /// Width in pixels.
    pub closed spec fn cols(self) -> int {
        self.width as int
    }

    /// Height in pixels.
    pub closed spec fn rows(self) -> int {
        self.height as int
    }

    /// The extent of the given width and height.
    pub closed spec fn sized(width: int, height: int) -> Extent {
        Extent { width: width as u32, height: height as u32 }
    }

    /// The invariant of the type: the target can be rendered.
    #[verifier::type_invariant]
    pub open spec fn wf(self) -> bool {
        extent_ok(self.cols(), self.rows())
    }

    /// Bytes of the tightly packed pixel buffer.
    pub open spec fn pixel_len(self) -> int {
        pixel_bytes(self.cols(), self.rows())
    }

    /// Bytes of the staging buffer.
    pub open spec fn staging_len(self) -> int {
        staging_bytes(self.cols(), self.rows())
    }

    /// Validates the dimensions of a requested target. They are refused when
    /// either is zero or exceeds what the device guarantees for a texture.
    pub fn new(width: usize, height: usize) -> (r: Result<Extent, RenderError>)
        ensures
            extent_ok(width as int, height as int) ==> r is Ok && r->Ok_0 == Extent::sized(
                width as int,
                height as int,
            ) && r->Ok_0.cols() == width && r->Ok_0.rows() == height,
            !extent_ok(width as int, height as int) ==> r == Err::<Extent, RenderError>(
                RenderError::InvalidDimensions,
            ),
    {
        let largest: usize = requested_limits().max_texture_dimension_2d as usize;
        if width == 0 || height == 0 || width > largest || height > largest {
            return Err(RenderError::InvalidDimensions);
        }
        Ok(Extent { width: width as u32, height: height as u32 })
    }

    /// Width in pixels.
    pub fn width(&self) -> (w: u32)
        ensures
            w == self.cols(),
            w > 0,
    {
        proof {
            use_type_invariant(self);
        }
        self.width
    }

    /// Height in pixels.
    pub fn height(&self) -> (h: u32)
        ensures
            h == self.rows(),
            h > 0,
    {
        proof {
            use_type_invariant(self);
        }
        self.height
    }

    /// Bytes of one tightly packed row.
    pub fn row_bytes(&self) -> (n: usize)
        ensures
            n == tight_stride(self.cols()),
            n > 0,
    {
        proof {
            use_type_invariant(self);
            lemma_padded_stride(self.width as int);
            self.lemma_bounds();
        }
        (self.width as usize) * (BYTES_PER_PIXEL as usize)
    }

    /// Bytes from one staged row to the next.
    pub fn padded_row_bytes(&self) -> (n: u32)
        ensures
            n == padded_stride(self.cols()),
            n >= tight_stride(self.cols()),
            n % 256 == 0,
    {
        proof {
            use_type_invariant(self);
            lemma_padded_stride(self.width as int);
        }
        round_up_row(self.width as u64) as u32
    }

    /// Bytes of the tightly packed pixel buffer.
    pub fn pixel_buffer_len(&self) -> (n: usize)
        ensures
            n == self.pixel_len(),
            n == self.cols() * self.rows() * 4,
            n > 0,
    {
        proof {
            use_type_invariant(self);
            self.lemma_bounds();
        }
        let row: usize = self.row_bytes();
        row * (self.height as usize)
    }

    /// Bytes of the staging buffer.
    pub fn staging_buffer_len(&self) -> (n: usize)
        ensures
            n == self.staging_len(),
            n >= self.pixel_len(),
    {
        proof {
            use_type_invariant(self);
            self.lemma_bounds();
        }
        let stride: u32 = self.padded_row_bytes();
        (stride as usize) * (self.height as usize)
    }

    /// An extent has the dimensions it was made with.
    pub proof fn lemma_sized(width: int, height: int)
        requires
            extent_ok(width, height),
        ensures
            Extent::sized(width, height).wf(),
            Extent::sized(width, height).cols() == width,
            Extent::sized(width, height).rows() == height,
    {
    }

    /// What the invariant gives about the sizes of the two buffers: the
    /// stride fits the 32-bit row pitch of a copy, and the staging buffer,
    /// and with it the pixel buffer, is within the largest buffer that the
    /// device guarantees and can be addressed on every machine.
    pub proof fn lemma_bounds(self)
        requires
            self.wf(),
        ensures
            0 < tight_stride(self.cols()) <= padded_stride(self.cols()) <= u32::MAX,
            0 < self.pixel_len() <= self.staging_len() <= MAX_BUFFER_BYTES,
            self.staging_len() <= usize::MAX,
            self.pixel_len() == self.cols() * self.rows() * 4,
            tight_stride(self.cols()) <= usize::MAX,
            padded_stride(self.cols()) <= usize::MAX,
    {
        let w = self.cols();
        let h = self.rows();
        lemma_padded_stride(w);
        lemma_pixel_bytes_bounded(w, h);
        assert(padded_stride(w) * h <= 8192 * 2048) by (nonlinear_arith)
            requires
                0 < padded_stride(w) <= 8192,
                0 < h <= 2048,
        ;
        assert(tight_stride(w) * h >= tight_stride(w)) by (nonlinear_arith)
            requires
                0 < tight_stride(w),
                1 <= h,
        ;
        assert(padded_stride(w) * h >= padded_stride(w)) by (nonlinear_arith)
            requires
                0 < padded_stride(w),
                1 <= h,
        ;
    }
}

} // verus!
