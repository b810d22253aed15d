//! Single frames: the request for one, and its encoding as a PNG stream.

use vstd::prelude::*;
use crate::driver::{Driver, DriverState, FRAME_INDEX_LIMIT};
use crate::error::RenderError;
use crate::layout::{extent_ok, Extent};

verus! {

/// The frame index of a request that may leave it out.
pub open spec fn requested_index(frame: Option<usize>) -> int {
    match frame {
        Some(index) => index as int,
        None => 0,
    }
}

/// Starts the render of one frame of the given width and height. Without a
/// frame index the frame is rendered with index 0. The dimensions are
/// validated first, before anything is planned for the device.
pub fn single_frame(wh: (usize, usize), frame: Option<usize>) -> (r: Result<Driver, RenderError>)
    ensures
        !extent_ok(wh.0 as int, wh.1 as int) ==> r is Err && r->Err_0
            == RenderError::InvalidDimensions,
        extent_ok(wh.0 as int, wh.1 as int) && requested_index(frame) >= FRAME_INDEX_LIMIT ==> r is Err
            && r->Err_0 == RenderError::FrameIndexOutOfRange,
        extent_ok(wh.0 as int, wh.1 as int) && requested_index(frame) < FRAME_INDEX_LIMIT ==> r is Ok
            && r->Ok_0@ == DriverState::initial(
            Extent::sized(wh.0 as int, wh.1 as int),
            requested_index(frame) as u32,
            1,
        ),
{
    let extent = match Extent::new(wh.0, wh.1) {
        Ok(extent) => extent,
        Err(error) => {
            return Err(error);
        },
    };
    let index: usize = match frame {
        Some(index) => index,
        None => 0,
    };
    if index as u64 >= FRAME_INDEX_LIMIT {
        return Err(RenderError::FrameIndexOutOfRange);
    }
    Driver::new(extent, index as u32, 1)
}

/// The PNG stream that the `png` crate writes for an RGBA image with eight
/// bits per channel, under the default settings of its encoder.
pub uninterp spec fn png_rgba8(pixels: Seq<u8>, width: u32, height: u32) -> Seq<u8>;

/// The error type of the `png` encoder.
#[verifier::external_type_specification]
#[verifier::external_body]
pub struct ExPngEncodingError(png::EncodingError);

/// Runs the `png` encoder over one RGBA image, into memory: `Encoder::new`,
/// `set_color`, `write_header`, `Writer::write_image_data` and
/// `Writer::finish`. The stream depends on nothing but the pixels and the
/// dimensions. The encoder refuses only a zero dimension, a color type that
/// does not go with the bit depth, and a buffer of the wrong length; writing
/// into memory does not fail. So on a buffer of the right length for
/// positive dimensions it succeeds.
#[verifier::external_body]
fn png_encode_rgba8(pixels: &[u8], width: u32, height: u32) -> (r: Result<
    Vec<u8>,
    png::EncodingError,
>)
    requires
        0 < width,
        0 < height,
        pixels@.len() == width * height * 4,
    ensures
        r is Ok,
        r->Ok_0@ == png_rgba8(pixels@, width, height),
{
    let mut stream = Vec::new();
    let mut encoder = png::Encoder::new(&mut stream, width, height);
    encoder.set_color(png::ColorType::Rgba);
    let mut writer = encoder.write_header()?;
    writer.write_image_data(pixels)?;
    writer.finish()?;
    Ok(stream)
}

/// The images that can be written as PNG: both dimensions are positive and
/// fit the 32-bit fields of the header.
pub open spec fn png_dimensions_ok(width: int, height: int) -> bool {
    0 < width <= u32::MAX && 0 < height <= u32::MAX
}

/// What the encoder's answer becomes: its stream, or `EncodingFailed`.
pub fn png_result(answer: Result<Vec<u8>, png::EncodingError>) -> (r: Result<Vec<u8>, RenderError>)
    ensures
        answer is Ok ==> r is Ok && r->Ok_0 == answer->Ok_0,
        answer is Err ==> r is Err && r->Err_0 == RenderError::EncodingFailed,
{
    match answer {
        Ok(stream) => Ok(stream),
        Err(_) => Err(RenderError::EncodingFailed),
    }
}

/// Encodes one pixel buffer as a lossless RGBA PNG stream. The dimensions
/// are validated first, then the length of the buffer against them. A
/// buffer of the right length is always encoded.
pub fn encode_png(pixels: &[u8], wh: (usize, usize)) -> (r: Result<Vec<u8>, RenderError>)
    ensures
        !png_dimensions_ok(wh.0 as int, wh.1 as int) ==> r is Err && r->Err_0
            == RenderError::InvalidDimensions,
        png_dimensions_ok(wh.0 as int, wh.1 as int) && pixels@.len() != wh.0 * wh.1 * 4 ==> r is Err
            && r->Err_0 == RenderError::BufferSizeMismatch,
        png_dimensions_ok(wh.0 as int, wh.1 as int) && pixels@.len() == wh.0 * wh.1 * 4 ==> r is Ok
            && r->Ok_0@ == png_rgba8(pixels@, wh.0 as u32, wh.1 as u32),
{
    if wh.0 == 0 || wh.1 == 0 || wh.0 > 0xffff_ffff || wh.1 > 0xffff_ffff {
        return Err(RenderError::InvalidDimensions);
    }
    let width: u128 = wh.0 as u128;
    let height: u128 = wh.1 as u128;
    proof {
        assert(width * height <= 0xffff_ffff * 0xffff_ffff) by (nonlinear_arith)
            requires
                0 <= width <= 0xffff_ffff,
                0 <= height <= 0xffff_ffff,
        ;
    }
    let expected: u128 = width * height * 4;
    if pixels.len() as u128 != expected {
        return Err(RenderError::BufferSizeMismatch);
    }
    png_result(png_encode_rgba8(pixels, wh.0 as u32, wh.1 as u32))
}

} // verus!
