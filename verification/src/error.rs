//! The kinds of failure a render can end in.

use vstd::prelude::*;
use vstd::string::StringExecFns;

verus! {

/// Why a render, an animation or an encoding was given up.
#[derive(Debug)]
pub enum RenderError {
    /// No GPU adapter satisfied the request.
    AdapterUnavailable,
    /// The adapter refused to open a logical device and queue.
    DeviceRequestFailed,
    /// The shader text was rejected; the payload carries the compiler's diagnostics.
    ShaderCompileError(String),
    /// The device refused the work of a frame; the payload carries its
    /// diagnostics.
    FrameRejected(String),
    /// The device never signalled that the staging buffer was mapped.
    BufferMapTimeout,
    /// The device was lost while a frame was in flight.
    DeviceLost,
    /// Reading the shader text or writing the output failed.
    IoError,
    /// The output path selects a container other than PNG or GIF.
    UnsupportedOutputFormat,
    /// A target dimension is zero, or the target is too large to lay out.
    InvalidDimensions,
    /// A frame index does not fit the 32-bit frame uniform.
    FrameIndexOutOfRange,
    /// A buffer does not have the length its target dimensions call for.
    BufferSizeMismatch,
    /// The image encoder refused a frame: its palette is missing or holds
    /// too many colors, or the encoder ran out of memory.
    EncodingFailed,
}

impl RenderError {
    /// A transient failure may succeed when the same request is made again;
    /// every other failure is permanent for the request that caused it.
    pub open spec fn transient(self) -> bool {
        self is BufferMapTimeout
    }

    /// The message that tells a user of the failure.
    pub open spec fn message(self) -> Seq<char> {
        match self {
            RenderError::AdapterUnavailable => "no graphics adapter satisfies the request"@,
            RenderError::DeviceRequestFailed => "the adapter refused to open a device"@,
            RenderError::ShaderCompileError(diagnostics) => "the shader was rejected: "@
                + diagnostics@,
            RenderError::FrameRejected(diagnostics) => "the device refused the frame: "@
                + diagnostics@,
            RenderError::BufferMapTimeout => "the device did not hand back the frame in time"@,
            RenderError::DeviceLost => "the device was lost"@,
            RenderError::IoError => "reading the shader or writing the output failed"@,
            RenderError::UnsupportedOutputFormat => "the output must be a .png or a .gif file"@,
            RenderError::InvalidDimensions => "width and height must be positive and not too large"@,
            RenderError::FrameIndexOutOfRange => "the frame index does not fit 32 bits"@,
            RenderError::BufferSizeMismatch => "a buffer does not match the dimensions"@,
            RenderError::EncodingFailed => "the encoder refused the frame data"@,
        }
    }

    /// Describes the failure to a user.
    pub fn describe(&self) -> (text: String)
        ensures
            text@ == self.message(),
    {
        match self {
            RenderError::AdapterUnavailable => String::from_str(
                "no graphics adapter satisfies the request",
            ),
            RenderError::DeviceRequestFailed => String::from_str(
                "the adapter refused to open a device",
            ),
            RenderError::ShaderCompileError(diagnostics) => String::from_str(
                "the shader was rejected: ",
            ).concat(diagnostics.as_str()),
            RenderError::FrameRejected(diagnostics) => String::from_str(
                "the device refused the frame: ",
            ).concat(diagnostics.as_str()),
            RenderError::BufferMapTimeout => String::from_str(
                "the device did not hand back the frame in time",
            ),
            RenderError::DeviceLost => String::from_str("the device was lost"),
            RenderError::IoError => String::from_str(
                "reading the shader or writing the output failed",
            ),
            RenderError::UnsupportedOutputFormat => String::from_str(
                "the output must be a .png or a .gif file",
            ),
            RenderError::InvalidDimensions => String::from_str(
                "width and height must be positive and not too large",
            ),
            RenderError::FrameIndexOutOfRange => String::from_str(
                "the frame index does not fit 32 bits",
            ),
            RenderError::BufferSizeMismatch => String::from_str(
                "a buffer does not match the dimensions",
            ),
            RenderError::EncodingFailed => String::from_str("the encoder refused the frame data"),
        }
    }

    /// Tells whether one bounded retry of the same request is warranted.
    pub fn is_transient(&self) -> (r: bool)
        ensures
            r == self.transient(),
    {
        match self {
            RenderError::BufferMapTimeout => true,
            _ => false,
        }
    }
}

} // verus!
