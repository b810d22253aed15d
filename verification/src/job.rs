//! One invocation, from the output path to the encoded stream.
//!
//! The output container is chosen from the extension of the output path,
//! and the dimensions are validated, before a driver exists: a request that
//! is refused here has asked nothing of the device.

use vstd::prelude::*;
use crate::animation::{encode_gif, frame_sequence, gif_stream, reduced};
use crate::driver::{Driver, DriverState, FRAME_INDEX_LIMIT};
use crate::error::RenderError;
use crate::image::{encode_png, png_rgba8, single_frame};
use crate::layout::{extent_ok, Extent};
use crate::output::{select_format, selection, OutputFormat};

verus! {

/// The view of an extension that may be missing.
pub open spec fn extension_view(extension: Option<&str>) -> Option<Seq<char>> {
    match extension {
        Some(e) => Some(e@),
        None => None,
    }
}

/// Why a request is refused, if it is: for its container first, then for
/// its dimensions, then for its number of frames. A target that the device
/// can render fits both containers.
pub open spec fn refusal(
    extension: Option<Seq<char>>,
    width: int,
    height: int,
    frames_count: int,
) -> Option<RenderError> {
    match selection(extension) {
        Err(error) => Some(error),
        Ok(OutputFormat::Png) => if extent_ok(width, height) {
            None
        } else {
            Some(RenderError::InvalidDimensions)
        },
        Ok(OutputFormat::Gif) => if !extent_ok(width, height) {
            Some(RenderError::InvalidDimensions)
        } else if frames_count > FRAME_INDEX_LIMIT {
            Some(RenderError::FrameIndexOutOfRange)
        } else {
            None
        },
    }
}

/// Number of frames that a container is rendered from: one for an image,
/// as many as were asked for in an animation.
pub open spec fn frames_for(format: OutputFormat, frames_count: nat) -> nat {
    match format {
        OutputFormat::Png => 1,
        OutputFormat::Gif => frames_count,
    }
}

/// Plans one invocation: chooses the container from the extension of the
/// output path, validates the dimensions for that container, and starts the
/// render, of frame 0 for an image, of the frames `0 .. frames_count` for
/// an animation.
pub fn prepare(extension: Option<&str>, wh: (usize, usize), frames_count: usize) -> (r: Result<
    (OutputFormat, Driver),
    RenderError,
>)
    ensures
        match refusal(extension_view(extension), wh.0 as int, wh.1 as int, frames_count as int) {
            Some(error) => r is Err && r->Err_0 == error,
            None => r is Ok && selection(extension_view(extension)) == Ok::<
                OutputFormat,
                RenderError,
            >(r->Ok_0.0) && r->Ok_0.1@ == DriverState::initial(
                Extent::sized(wh.0 as int, wh.1 as int),
                0,
                frames_for(r->Ok_0.0, frames_count as nat),
            ),
        },
{
    let format = match select_format(extension) {
        Ok(format) => format,
        Err(error) => {
            return Err(error);
        },
    };
    match format {
        OutputFormat::Png => match single_frame(wh, None) {
            Ok(driver) => Ok((format, driver)),
            Err(error) => Err(error),
        },
        OutputFormat::Gif => match frame_sequence(wh, frames_count) {
            Ok(driver) => Ok((format, driver)),
            Err(error) => Err(error),
        },
    }
}

/// What `encode` answers for the frames of a delivered render.
pub open spec fn encoded(
    format: OutputFormat,
    frames: Seq<Seq<u8>>,
    width: int,
    height: int,
    answer: Option<Result<Vec<u8>, RenderError>>,
) -> bool {
    match format {
        OutputFormat::Png => if frames.len() == 1 {
            answer matches Some(Ok(stream)) && stream@ == png_rgba8(
                frames[0],
                width as u32,
                height as u32,
            )
        } else {
            answer is None
        },
        OutputFormat::Gif => answer matches Some(result) && (frames.len() == 0 ==> result is Ok)
            && match result {
            Ok(stream) => stream@ == gif_stream(
                width as u16,
                height as u16,
                reduced(width as u16, height as u16, frames),
            ),
            Err(error) => error == RenderError::EncodingFailed,
        },
    }
}

/// Ends a render and encodes what it delivered for the chosen container: the
/// one frame as a PNG stream, or all frames in order as a GIF stream. An
/// image is always encoded, and so is an animation of no frames; an
/// animation with frames is encoded unless the encoder runs out of memory.
/// A render that failed hands over its failure. A render that is not
/// finished, or an image render of other than one frame, hands over nothing.
pub fn encode(format: OutputFormat, driver: Driver) -> (r: Option<Result<Vec<u8>, RenderError>>)
    ensures
        match driver@.outcome() {
            Some(Ok(frames)) => encoded(
                format,
                frames,
                driver@.extent.cols(),
                driver@.extent.rows(),
                r,
            ),
            Some(Err(error)) => r matches Some(Err(e)) && e == error,
            None => r is None,
        },
{
    let extent = driver.extent();
    let wh: (usize, usize) = (extent.width() as usize, extent.height() as usize);
    proof {
        use_type_invariant(extent);
        extent.lemma_bounds();
    }
    match format {
        OutputFormat::Png => match driver.into_single() {
            Some(Ok(pixels)) => Some(encode_png(pixels.as_slice(), wh)),
            Some(Err(error)) => Some(Err(error)),
            None => None,
        },
        OutputFormat::Gif => match driver.into_outcome() {
            Some(Ok(frames)) => Some(encode_gif(frames, wh)),
            Some(Err(error)) => Some(Err(error)),
            None => None,
        },
    }
}

} // verus!
