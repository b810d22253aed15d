//! Sequences of frames: the request for one, and its encoding as a GIF stream.
//!
//! A GIF stream holds indexed frames, so every frame is first reduced to a
//! palette of at most 256 colors. For a frame of more colors the reduction is
//! lossy. The stream loops forever.

use vstd::prelude::*;
use crate::driver::{buffers_view, Driver, DriverState, FRAME_INDEX_LIMIT};
use crate::error::RenderError;
use crate::layout::{extent_ok, Extent};

verus! {

/// Sampling factor of the color reduction: 1 is the slowest and most exact.
pub const QUANTIZATION_SPEED: i32 = 1;

/// The byte that ends a GIF stream.
pub const GIF_TRAILER: u8 = 0x3B;

/// Number of colors that the palette of a frame can hold.
pub const MAX_PALETTE_COLORS: usize = 256;

/// Starts the render of the frames `0, 1, .., frames_count - 1` of the given
/// width and height. The dimensions are validated first, before anything is
/// planned for the device.
pub fn frame_sequence(wh: (usize, usize), frames_count: usize) -> (r: Result<Driver, RenderError>)
    ensures
        !extent_ok(wh.0 as int, wh.1 as int) ==> r is Err && r->Err_0
            == RenderError::InvalidDimensions,
        extent_ok(wh.0 as int, wh.1 as int) && frames_count > FRAME_INDEX_LIMIT ==> r is Err
            && r->Err_0 == RenderError::FrameIndexOutOfRange,
        extent_ok(wh.0 as int, wh.1 as int) && frames_count <= FRAME_INDEX_LIMIT ==> r is Ok
            && r->Ok_0@ == DriverState::initial(
            Extent::sized(wh.0 as int, wh.1 as int),
            0,
            frames_count as nat,
        ),
{
    let extent = match Extent::new(wh.0, wh.1) {
        Ok(extent) => extent,
        Err(error) => {
            return Err(error);
        },
    };
    Driver::new(extent, 0, frames_count)
}

/// One frame reduced to a palette: what a GIF stream stores of it.
#[derive(Debug)]
pub struct IndexedFrame {
    /// Width in pixels.
    pub width: u16,
    /// Height in pixels.
    pub height: u16,
    /// The colors of the frame, three bytes each, red first.
    pub palette: Option<Vec<u8>>,
    /// For every pixel, row by row, the position of its color in the palette.
    pub indices: Vec<u8>,
    /// The palette entry that stands for full transparency, if there is one.
    pub transparent: Option<u8>,
}

/// An indexed frame as a mathematical value.
pub struct IndexedFrameView {
    pub width: u16,
    pub height: u16,
    pub palette: Option<Seq<u8>>,
    pub indices: Seq<u8>,
    pub transparent: Option<u8>,
}

impl View for IndexedFrame {
    type V = IndexedFrameView;

    open spec fn view(&self) -> IndexedFrameView {
        IndexedFrameView {
            width: self.width,
            height: self.height,
            palette: match self.palette {
                Some(colors) => Some(colors@),
                None => None,
            },
            indices: self.indices@,
            transparent: self.transparent,
        }
    }
}

impl IndexedFrameView {
    /// The frame covers a canvas of the given size, one index per pixel.
    pub open spec fn fits(self, width: u16, height: u16) -> bool {
        self.width == width && self.height == height && self.indices.len() == width * height
    }

    /// The frame carries a palette that a GIF stream can hold: at most
    /// `MAX_PALETTE_COLORS` colors of three bytes each.
    pub open spec fn encodable(self) -> bool {
        self.palette matches Some(colors) && colors.len() / 3 <= MAX_PALETTE_COLORS
    }
}

/// A GIF stream that is being written: the `gif` encoder, writing into
/// memory.
#[verifier::external_body]
pub struct GifStream {
    encoder: gif::Encoder<Vec<u8>>,
}

/// The error type of the `gif` encoder.
#[verifier::external_type_specification]
#[verifier::external_body]
pub struct ExGifEncodingError(gif::EncodingError);

/// The bytes that an encoder has written so far.
pub uninterp spec fn gif_written(stream: GifStream) -> Seq<u8>;

/// The indexed frame that `Frame::from_rgba_speed` makes of an RGBA frame.
/// A frame of at most 256 colors keeps its colors, in ascending order; a
/// frame of more colors is reduced to 256 by a fixed arithmetic that the
/// speed tunes. Either way the result depends on the arguments alone.
pub uninterp spec fn gif_quantized(
    width: u16,
    height: u16,
    pixels: Seq<u8>,
    speed: i32,
) -> IndexedFrameView;

/// The bytes that `Encoder::write_frame` writes for one indexed frame that
/// is shown without delay and kept on the canvas: the graphic control
/// extension, the image descriptor, the local color table and the
/// LZW-compressed indices.
pub uninterp spec fn gif_frame_block(
    width: u16,
    height: u16,
    palette: Option<Seq<u8>>,
    indices: Seq<u8>,
    transparent: Option<u8>,
) -> Seq<u8>;

/// The logical screen descriptor of a stream without a global palette: the
/// signature, the canvas size with the low byte first, the packed field, and
/// the two empty entries that stand in for the color table.
pub open spec fn gif_header(width: u16, height: u16) -> Seq<u8> {
    seq![
        0x47u8, 0x49u8, 0x46u8, 0x38u8, 0x39u8, 0x61u8,
        (width % 256) as u8, (width / 256) as u8,
        (height % 256) as u8, (height / 256) as u8,
        0x80u8, 0u8, 0u8,
        0u8, 0u8, 0u8, 0u8, 0u8, 0u8,
    ]
}

/// The application extension that makes a stream loop forever.
pub open spec fn gif_loop_block() -> Seq<u8> {
    seq![
        0x21u8, 0xFFu8, 0x0Bu8,
        0x4Eu8, 0x45u8, 0x54u8, 0x53u8, 0x43u8, 0x41u8, 0x50u8, 0x45u8, 0x32u8, 0x2Eu8, 0x30u8,
        0x03u8, 0x01u8, 0u8, 0u8,
        0u8,
    ]
}

/// `gif::Encoder::new` on an empty buffer, without a global palette. It
/// refuses only a palette of more than 256 colors, so here it succeeds. A
/// new encoder has written the logical screen descriptor.
#[verifier::external_body]
fn gif_open(width: u16, height: u16) -> (r: Result<GifStream, gif::EncodingError>)
    ensures
        r is Ok,
        gif_written(r->Ok_0) == gif_header(width, height),
{
    Ok(GifStream { encoder: gif::Encoder::new(Vec::new(), width, height, &[])? })
}

/// `gif::Encoder::set_repeat` with `Repeat::Infinite`. Writing into memory
/// does not fail, so it succeeds, and the encoder has written the looping
/// extension after what it had written.
#[verifier::external_body]
fn gif_loop_forever(stream: &mut GifStream) -> (r: Result<(), gif::EncodingError>)
    ensures
        r is Ok,
        gif_written(*final(stream)) == gif_written(*old(stream)) + gif_loop_block(),
{
    stream.encoder.set_repeat(gif::Repeat::Infinite)
}

/// `gif::Frame::from_rgba_speed`: reduces an RGBA frame to a palette. The
/// result has the given size and one index per pixel, and it carries a
/// palette of at most 256 colors.
#[verifier::external_body]
fn gif_quantize(width: u16, height: u16, pixels: &[u8], speed: i32) -> (frame: IndexedFrame)
    requires
        pixels@.len() == width * height * 4,
        1 <= speed <= 30,
    ensures
        frame@ == gif_quantized(width, height, pixels@, speed),
        frame@.fits(width, height),
        frame@.encodable(),
{
    let mut rgba = pixels.to_vec();
    let frame = gif::Frame::from_rgba_speed(width, height, &mut rgba, speed);
    IndexedFrame {
        width: frame.width,
        height: frame.height,
        palette: frame.palette,
        indices: frame.buffer.into_owned(),
        transparent: frame.transparent,
    }
}

/// `gif::Encoder::write_frame`. On success the encoder has written the
/// block of the frame after what it had written. Success is not promised:
/// the encoder reserves memory for the compressed indices and answers with
/// an error when it gets none, which no argument decides.
#[verifier::external_body]
fn gif_write_frame(stream: &mut GifStream, frame: &IndexedFrame) -> (r: Result<
    (),
    gif::EncodingError,
>)
    requires
        frame@.indices.len() == frame.width * frame.height,
    ensures
        r is Ok ==> gif_written(*final(stream)) == gif_written(*old(stream)) + gif_frame_block(
            frame.width,
            frame.height,
            frame@.palette,
            frame@.indices,
            frame.transparent,
        ),
{
    stream.encoder.write_frame(
        &gif::Frame {
            width: frame.width,
            height: frame.height,
            palette: frame.palette.clone(),
            buffer: std::borrow::Cow::Borrowed(&frame.indices),
            transparent: frame.transparent,
            ..gif::Frame::default()
        },
    )
}

/// `gif::Encoder::into_inner`: writes the trailer and hands over the stream.
/// Writing into memory does not fail, so it succeeds.
#[verifier::external_body]
fn gif_finish(stream: GifStream) -> (r: Result<Vec<u8>, gif::EncodingError>)
    ensures
        r is Ok,
        r->Ok_0@ == gif_written(stream).push(GIF_TRAILER),
{
    stream.encoder.into_inner().map_err(gif::EncodingError::Io)
}

/// What an answer of the encoder becomes: its value, or `EncodingFailed`.
pub fn gif_result<T>(answer: Result<T, gif::EncodingError>) -> (r: Result<T, RenderError>)
    ensures
        answer is Ok ==> r is Ok && r->Ok_0 == answer->Ok_0,
        answer is Err ==> r is Err && r->Err_0 == RenderError::EncodingFailed,
{
    match answer {
        Ok(value) => Ok(value),
        Err(_) => Err(RenderError::EncodingFailed),
    }
}

/// The canvases a GIF stream can have: both dimensions are positive and fit
/// the 16-bit fields of the logical screen descriptor.
pub open spec fn gif_dimensions_ok(width: int, height: int) -> bool {
    0 < width <= u16::MAX && 0 < height <= u16::MAX
}

/// The block of one indexed frame.
pub open spec fn block_of(frame: IndexedFrameView) -> Seq<u8> {
    gif_frame_block(frame.width, frame.height, frame.palette, frame.indices, frame.transparent)
}

/// The blocks of a run of indexed frames, in the order of the frames.
pub open spec fn frame_blocks(frames: Seq<IndexedFrameView>) -> Seq<u8>
    decreases frames.len(),
{
    if frames.len() == 0 {
        Seq::empty()
    } else {
        frame_blocks(frames.drop_last()) + block_of(frames.last())
    }
}

/// The stream of an endlessly looping animation: the header, the looping
/// extension, one block per frame in the order of the frames, the trailer.
pub open spec fn gif_stream(width: u16, height: u16, frames: Seq<IndexedFrameView>) -> Seq<u8> {
    (gif_header(width, height) + gif_loop_block() + frame_blocks(frames)).push(GIF_TRAILER)
}

/// The values of a run of indexed frames.
pub open spec fn indexed_view(frames: Seq<IndexedFrame>) -> Seq<IndexedFrameView> {
    Seq::new(frames.len(), |i: int| frames[i]@)
}

/// Every frame covers the canvas.
pub open spec fn all_fit(frames: Seq<IndexedFrameView>, width: u16, height: u16) -> bool {
    forall|i: int| 0 <= i < frames.len() ==> (#[trigger] frames[i]).fits(width, height)
}

/// Every frame carries a palette that the stream can hold.
pub open spec fn all_encodable(frames: Seq<IndexedFrameView>) -> bool {
    forall|i: int| 0 <= i < frames.len() ==> (#[trigger] frames[i]).encodable()
}

/// Every buffer has the length of a pixel buffer of the given dimensions.
pub open spec fn all_sized(frames: Seq<Vec<u8>>, width: int, height: int) -> bool {
    forall|i: int| 0 <= i < frames.len() ==> (#[trigger] frames[i])@.len() == width * height * 4
}

/// The indexed frames that the pixel buffers of an animation are reduced
/// to: frame `i` is made of buffer `i`, and of nothing else.
pub open spec fn reduced(width: u16, height: u16, frames: Seq<Seq<u8>>) -> Seq<IndexedFrameView> {
    Seq::new(frames.len(), |i: int| gif_quantized(width, height, frames[i], QUANTIZATION_SPEED))
}

/// Tells whether a frame covers the canvas.
fn frame_fits(frame: &IndexedFrame, width: u16, height: u16) -> (fits: bool)
    ensures
        fits == frame@.fits(width, height),
{
    proof {
        assert(width * height <= 0xffff * 0xffff) by (nonlinear_arith)
            requires
                0 <= width <= 0xffff,
                0 <= height <= 0xffff,
        ;
    }
    let area: u64 = (width as u64) * (height as u64);
    frame.width == width && frame.height == height && frame.indices.len() as u64 == area
}

/// Tells whether a frame carries a palette that the stream can hold.
fn frame_encodable(frame: &IndexedFrame) -> (encodable: bool)
    ensures
        encodable == frame@.encodable(),
{
    match &frame.palette {
        Some(colors) => colors.len() / 3 <= MAX_PALETTE_COLORS,
        None => false,
    }
}

/// Writes indexed frames as an endlessly looping GIF stream, one block per
/// frame in the order of the frames. The canvas is validated first, then
/// every frame against the canvas, then the palette of every frame, and
/// only then is the encoder asked to write. A stream of no frames is always
/// written. A frame is written unless the encoder runs out of memory.
pub fn encode_indexed(frames: &[IndexedFrame], width: u16, height: u16) -> (r: Result<
    Vec<u8>,
    RenderError,
>)
    ensures
        width == 0 || height == 0 ==> r is Err && r->Err_0 == RenderError::InvalidDimensions,
        width > 0 && height > 0 && !all_fit(indexed_view(frames@), width, height) ==> r is Err
            && r->Err_0 == RenderError::BufferSizeMismatch,
        width > 0 && height > 0 && all_fit(indexed_view(frames@), width, height) && !all_encodable(
            indexed_view(frames@),
        ) ==> r is Err && r->Err_0 == RenderError::EncodingFailed,
        width > 0 && height > 0 && all_fit(indexed_view(frames@), width, height) && all_encodable(
            indexed_view(frames@),
        ) ==> match r {
            Ok(stream) => stream@ == gif_stream(width, height, indexed_view(frames@)),
            Err(error) => error == RenderError::EncodingFailed,
        },
        width > 0 && height > 0 && frames@.len() == 0 ==> r is Ok,
{
    if width == 0 || height == 0 {
        return Err(RenderError::InvalidDimensions);
    }
    let ghost views = indexed_view(frames@);
    let mut checked: usize = 0;
    while checked < frames.len()
        invariant
            width > 0,
            height > 0,
            checked <= frames.len(),
            views == indexed_view(frames@),
            forall|i: int| 0 <= i < checked ==> (#[trigger] views[i]).fits(width, height),
        decreases frames.len() - checked,
    {
        if !frame_fits(&frames[checked], width, height) {
            proof {
                assert(!views[checked as int].fits(width, height));
            }
            return Err(RenderError::BufferSizeMismatch);
        }
        checked += 1;
    }
    let mut palettes: usize = 0;
    while palettes < frames.len()
        invariant
            width > 0,
            height > 0,
            palettes <= frames.len(),
            views == indexed_view(frames@),
            all_fit(views, width, height),
            forall|i: int| 0 <= i < palettes ==> (#[trigger] views[i]).encodable(),
        decreases frames.len() - palettes,
    {
        if !frame_encodable(&frames[palettes]) {
            proof {
                assert(!views[palettes as int].encodable());
            }
            return Err(RenderError::EncodingFailed);
        }
        palettes += 1;
    }
    let mut stream = match gif_result(gif_open(width, height)) {
        Ok(stream) => stream,
        Err(error) => {
            return Err(error);
        },
    };
    match gif_result(gif_loop_forever(&mut stream)) {
        Ok(_) => {},
        Err(error) => {
            return Err(error);
        },
    }
    let mut written: usize = 0;
    proof {
        assert(views.take(0) =~= Seq::<IndexedFrameView>::empty());
        assert(gif_written(stream) =~= gif_header(width, height) + gif_loop_block() + frame_blocks(
            views.take(0),
        ));
    }
    while written < frames.len()
        invariant
            width > 0,
            height > 0,
            written <= frames.len(),
            views == indexed_view(frames@),
            all_fit(views, width, height),
            all_encodable(views),
            gif_written(stream) == gif_header(width, height) + gif_loop_block() + frame_blocks(
                views.take(written as int),
            ),
        decreases frames.len() - written,
    {
        let frame = &frames[written];
        proof {
            assert(views[written as int].fits(width, height));
            assert(width * height == frame.width * frame.height);
        }
        match gif_result(gif_write_frame(&mut stream, frame)) {
            Ok(_) => {},
            Err(error) => {
                return Err(error);
            },
        }
        proof {
            let longer = views.take(written + 1);
            assert(longer.drop_last() =~= views.take(written as int));
            assert(longer.last() == frame@);
            assert(gif_written(stream) =~= gif_header(width, height) + gif_loop_block()
                + frame_blocks(longer));
        }
        written += 1;
    }
    proof {
        assert(views.take(written as int) =~= views);
    }
    gif_result(gif_finish(stream))
}

/// Encodes the frames of an animation, in their order, as an endlessly
/// looping GIF stream: image `i` of the stream is made of frame `i`, none
/// is dropped and none repeated. The dimensions are validated first, then
/// the length of every frame against them. Each frame is then reduced to a
/// palette and the reduced frames are written as `encode_indexed` writes
/// them. An animation of no frames is always encoded. Frames are encoded
/// unless the encoder runs out of memory.
pub fn encode_gif(frames: Vec<Vec<u8>>, wh: (usize, usize)) -> (r: Result<Vec<u8>, RenderError>)
    ensures
        !gif_dimensions_ok(wh.0 as int, wh.1 as int) ==> r is Err && r->Err_0
            == RenderError::InvalidDimensions,
        gif_dimensions_ok(wh.0 as int, wh.1 as int) && !all_sized(frames@, wh.0 as int, wh.1 as int)
            ==> r is Err && r->Err_0 == RenderError::BufferSizeMismatch,
        gif_dimensions_ok(wh.0 as int, wh.1 as int) && all_sized(frames@, wh.0 as int, wh.1 as int)
            ==> match r {
            Ok(stream) => stream@ == gif_stream(
                wh.0 as u16,
                wh.1 as u16,
                reduced(wh.0 as u16, wh.1 as u16, buffers_view(frames@)),
            ),
            Err(error) => error == RenderError::EncodingFailed,
        },
        gif_dimensions_ok(wh.0 as int, wh.1 as int) && frames@.len() == 0 ==> r is Ok,
{
    if wh.0 == 0 || wh.1 == 0 || wh.0 > 0xffff || wh.1 > 0xffff {
        return Err(RenderError::InvalidDimensions);
    }
    let width: u16 = wh.0 as u16;
    let height: u16 = wh.1 as u16;
    proof {
        assert(width * height * 4 <= 0xffff * 0xffff * 4) by (nonlinear_arith)
            requires
                0 <= width <= 0xffff,
                0 <= height <= 0xffff,
        ;
    }
    let expected: u64 = (width as u64) * (height as u64) * 4;
    let mut checked: usize = 0;
    while checked < frames.len()
        invariant
            gif_dimensions_ok(wh.0 as int, wh.1 as int),
            checked <= frames.len(),
            expected == wh.0 * wh.1 * 4,
            forall|i: int| 0 <= i < checked ==> (#[trigger] frames@[i])@.len() == expected,
        decreases frames.len() - checked,
    {
        if frames[checked].len() as u64 != expected {
            return Err(RenderError::BufferSizeMismatch);
        }
        checked += 1;
    }
    let ghost target = reduced(width, height, buffers_view(frames@));
    let mut indexed: Vec<IndexedFrame> = Vec::new();
    let mut done: usize = 0;
    while done < frames.len()
        invariant
            gif_dimensions_ok(wh.0 as int, wh.1 as int),
            done <= frames.len(),
            indexed@.len() == done,
            expected == width * height * 4,
            all_sized(frames@, wh.0 as int, wh.1 as int),
            width == wh.0,
            height == wh.1,
            target == reduced(width, height, buffers_view(frames@)),
            forall|i: int|
                0 <= i < indexed@.len() ==> {
                    &&& (#[trigger] indexed@[i])@ == target[i]
                    &&& indexed@[i]@.fits(width, height)
                    &&& indexed@[i]@.encodable()
                },
        decreases frames.len() - done,
    {
        assert(frames@[done as int]@.len() == width * height * 4);
        let frame = gif_quantize(width, height, frames[done].as_slice(), QUANTIZATION_SPEED);
        proof {
            assert(buffers_view(frames@)[done as int] == frames@[done as int]@);
        }
        indexed.push(frame);
        done += 1;
    }
    proof {
        assert(indexed_view(indexed@) =~= target);
        assert(all_fit(indexed_view(indexed@), width, height));
        assert(all_encodable(indexed_view(indexed@)));
    }
    encode_indexed(indexed.as_slice(), width, height)
}

} // verus!
