//! From the bytes the device hands back to the pixel buffer of a frame.
//!
//! The staging buffer holds the rows of the target at the padded stride. The
//! pixel buffer holds the same rows tightly packed, top row first, so the
//! padding at the end of every staged row is dropped on the way.

use vstd::prelude::*;
use vstd::arithmetic::div_mod::lemma_fundamental_div_mod_converse;
use vstd::slice::slice_subrange;
use crate::error::RenderError;
use crate::layout::{
    extent_ok, lemma_padded_stride, padded_stride, pixel_bytes, staging_bytes, tight_stride, Extent,
};

verus! {

/// How the wait for the mapping of a staging buffer ended.
#[derive(Debug)]
pub enum MapOutcome {
    /// The buffer was mapped; these are its bytes.
    Ready(Vec<u8>),
    /// The device did not signal completion within the wait.
    TimedOut,
    /// The device was lost before it signalled completion.
    DeviceLost,
}

/// Where byte `k` of a pixel buffer lies in the staging buffer.
pub open spec fn staged_index(width: int, k: int) -> int {
    (k / tight_stride(width)) * padded_stride(width) + k % tight_stride(width)
}

/// The pixel buffer that a staging buffer holds.
pub open spec fn unpadded(staged: Seq<u8>, width: int, height: int) -> Seq<u8> {
    Seq::new(pixel_bytes(width, height) as nat, |k: int| staged[staged_index(width, k)])
}

/// What `strip_padding` answers.
pub open spec fn stripped(staged: Seq<u8>, extent: Extent) -> Result<Seq<u8>, RenderError> {
    if staged.len() == extent.staging_len() {
        Ok(unpadded(staged, extent.cols(), extent.rows()))
    } else {
        Err(RenderError::BufferSizeMismatch)
    }
}

/// What `assemble` answers.
pub open spec fn assembled(outcome: MapOutcome, extent: Extent) -> Result<Seq<u8>, RenderError> {
    match outcome {
        MapOutcome::Ready(staged) => stripped(staged@, extent),
        MapOutcome::TimedOut => Err(RenderError::BufferMapTimeout),
        MapOutcome::DeviceLost => Err(RenderError::DeviceLost),
    }
}

/// A result over a buffer agrees with a result over the bytes of one.
pub open spec fn same_bytes(r: Result<Vec<u8>, RenderError>, s: Result<Seq<u8>, RenderError>) -> bool {
    match (r, s) {
        (Ok(buffer), Ok(bytes)) => buffer@ == bytes,
        (Err(e), Err(f)) => e == f,
        _ => false,
    }
}

/// Byte `k` of a pixel buffer lies in row `k / stride` of the staging buffer,
/// inside the part of that row that holds pixels.
pub proof fn lemma_staged_index_in_range(width: int, height: int, k: int)
    requires
        0 < width,
        0 < height,
        0 <= k < pixel_bytes(width, height),
    ensures
        0 <= staged_index(width, k) < staging_bytes(width, height),
        0 <= k / tight_stride(width) < height,
{
    let t = tight_stride(width);
    let p = padded_stride(width);
    let row = k / t;
    let col = k % t;
    lemma_padded_stride(width);
    assert(k == t * row + col && 0 <= col < t) by {
        vstd::arithmetic::div_mod::lemma_fundamental_div_mod(k, t);
        vstd::arithmetic::div_mod::lemma_mod_bound(k, t);
    }
    assert(0 <= row < height) by (nonlinear_arith)
        requires
            k == t * row + col,
            0 <= col < t,
            0 <= k < t * height,
            0 < t,
    ;
    assert(0 <= row * p && row * p + p <= p * height) by (nonlinear_arith)
        requires
            0 <= row < height,
            0 < p,
    ;
}

/// A staging buffer without padding is its own pixel buffer.
pub proof fn lemma_unpadded_without_padding(staged: Seq<u8>, width: int, height: int)
    requires
        0 < width,
        0 < height,
        padded_stride(width) == tight_stride(width),
        staged.len() == staging_bytes(width, height),
    ensures
        unpadded(staged, width, height) == staged,
{
    let t = tight_stride(width);
    assert forall|k: int| 0 <= k < pixel_bytes(width, height) implies staged_index(width, k)
        == k by {
        vstd::arithmetic::div_mod::lemma_fundamental_div_mod(k, t);
        assert((k / t) * t == t * (k / t)) by (nonlinear_arith);
    }
    assert(unpadded(staged, width, height) =~= staged);
}

/// Drops the row padding of a staging buffer. The buffer is refused unless
/// it has exactly the staging length of the target.
pub fn strip_padding(staged: &[u8], extent: Extent) -> (r: Result<Vec<u8>, RenderError>)
    ensures
        same_bytes(r, stripped(staged@, extent)),
        r is Ok ==> r->Ok_0@.len() == extent.pixel_len(),
{
    if staged.len() != extent.staging_buffer_len() {
        return Err(RenderError::BufferSizeMismatch);
    }
    let tight: usize = extent.row_bytes();
    let stride: usize = extent.padded_row_bytes() as usize;
    let rows: usize = extent.height() as usize;
    let ghost w = extent.cols();
    let ghost h = extent.rows();
    proof {
        use_type_invariant(extent);
        extent.lemma_bounds();
    }
    let mut pixels: Vec<u8> = Vec::with_capacity(extent.pixel_buffer_len());
    let mut row: usize = 0;
    while row < rows
        invariant
            extent_ok(w, h),
            w == extent.cols(),
            h == extent.rows(),
            tight == tight_stride(w),
            stride == padded_stride(w),
            rows == h,
            0 < tight <= stride,
            staged@.len() == stride * rows,
            stride * rows <= usize::MAX,
            row <= rows,
            pixels@.len() == row * tight,
            forall|k: int| 0 <= k < pixels@.len() ==> pixels@[k] == staged@[staged_index(w, k)],
        decreases rows - row,
    {
        proof {
            assert(row * stride + stride <= stride * rows) by (nonlinear_arith)
                requires
                    row < rows,
                    0 < stride,
            ;
        }
        let start: usize = row * stride;
        let line = slice_subrange(staged, start, start + tight);
        let ghost before = pixels@;
        pixels.extend_from_slice(line);
        proof {
            assert((row + 1) * tight == row * tight + tight) by (nonlinear_arith);
            assert forall|k: int| 0 <= k < pixels@.len() implies pixels@[k] == staged@[staged_index(
                w,
                k,
            )] by {
                if k >= before.len() {
                    let col = k - row * tight;
                    lemma_fundamental_div_mod_converse(k, tight as int, row as int, col);
                    assert(pixels@[k] == line@[col]);
                    assert(line@[col] == staged@[start + col]);
                } else {
                    assert(pixels@[k] == before[k]);
                }
            }
        }
        row += 1;
    }
    proof {
        assert(rows * tight == tight_stride(w) * h) by (nonlinear_arith)
            requires
                rows == h,
                tight == tight_stride(w),
        ;
        assert(pixels@ =~= unpadded(staged@, w, h));
    }
    Ok(pixels)
}

/// Turns the outcome of a readback into the pixel buffer of the frame, or
/// into the failure that ends the render.
pub fn assemble(outcome: MapOutcome, extent: Extent) -> (r: Result<Vec<u8>, RenderError>)
    ensures
        same_bytes(r, assembled(outcome, extent)),
        r is Ok ==> r->Ok_0@.len() == extent.pixel_len(),
{
    match outcome {
        MapOutcome::Ready(staged) => strip_padding(staged.as_slice(), extent),
        MapOutcome::TimedOut => Err(RenderError::BufferMapTimeout),
        MapOutcome::DeviceLost => Err(RenderError::DeviceLost),
    }
}

} // verus!
