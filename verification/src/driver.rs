//! The order in which the device is asked to work.
//!
//! A driver holds the state of one render: a single frame or a sequence of
//! frames on one target. It never touches the device. It names the one piece
//! of device work that is due (`directive`), and takes what came of that work
//! (`handle`). The caller does the work and reports back, until the driver
//! says `Stop`.
//!
//! The context and the pipeline are acquired once and shared by all frames.
//! Frames are rendered one after another, in ascending order of their index:
//! the next frame is not asked for before the bytes of the previous one were
//! handed in. The first failure ends the render and discards every frame
//! that was collected before it.

use vstd::prelude::*;
use crate::error::RenderError;
use crate::layout::Extent;
use crate::plan::{
    context_plan, context_plan_of, frame_plan, frame_plan_of, pipeline_plan, pipeline_plan_of,
    ContextPlan, FramePlan, PipelinePlan,
};
use crate::readback::{assemble, assembled, unpadded, MapOutcome};
use crate::uniform::{host_bytes, host_word, lemma_host_word_of_host_bytes};

verus! {

/// Number of values that the 32-bit frame-index uniform can hold.
pub const FRAME_INDEX_LIMIT: u64 = 0x1_0000_0000;

/// Where a render stands.
#[derive(Clone, Copy, Debug, PartialEq, Eq, Structural)]
pub enum Stage {
    /// The adapter, device and queue have been asked for.
    AwaitingContext,
    /// The shader is being compiled into the pipeline.
    AwaitingPipeline,
    /// A frame has been submitted and its readback is awaited.
    AwaitingFrame,
    /// Every frame has been collected.
    Delivered,
    /// A failure ended the render.
    Aborted,
}

/// The device work that is due.
#[derive(Clone, Copy, Debug)]
pub enum Directive {
    /// Request an adapter, then a device and a queue from it, as planned.
    AcquireContext(ContextPlan),
    /// Compile the shader and build the pipeline as planned.
    BuildPipeline(PipelinePlan),
    /// Allocate, draw, copy and read back one frame as planned.
    RenderFrame(FramePlan),
    /// Nothing is due: the render has been delivered or aborted.
    Stop,
}

/// What came of a piece of device work.
#[derive(Debug)]
pub enum Event {
    /// The device and the queue are open.
    ContextReady,
    /// No adapter satisfied the request.
    AdapterMissing,
    /// The adapter refused the device.
    DeviceRefused,
    /// The pipeline has been built.
    PipelineReady,
    /// The shader was rejected, with these diagnostics.
    ShaderRejected(String),
    /// The device refused the work of the frame, with these diagnostics.
    FrameRefused(String),
    /// The wait for the staging buffer of the submitted frame ended.
    FrameRead(MapOutcome),
}

/// The state of a render, as a mathematical value.
pub struct DriverState {
    /// The target of every frame.
    pub extent: Extent,
    /// Index of the first frame.
    pub first_frame: u32,
    /// Number of frames asked for.
    pub frame_count: nat,
    /// Where the render stands.
    pub stage: Stage,
    /// The pixel buffers collected so far, in the order of their frames.
    pub frames: Seq<Seq<u8>>,
    /// The failure that ended the render, once one has.
    pub failure: Option<RenderError>,
}

impl DriverState {
    /// The states a render can be in.
    pub open spec fn wf(self) -> bool {
        &&& self.extent.wf()
        &&& self.first_frame + self.frame_count <= FRAME_INDEX_LIMIT
        &&& self.frames.len() <= self.frame_count
        &&& forall|i: int|
            0 <= i < self.frames.len() ==> (#[trigger] self.frames[i]).len()
                == self.extent.pixel_len()
        &&& match self.stage {
            Stage::AwaitingContext | Stage::AwaitingPipeline => self.frames.len() == 0
                && self.frame_count > 0 && self.failure is None,
            Stage::AwaitingFrame => self.frames.len() < self.frame_count && self.failure is None,
            Stage::Delivered => self.frames.len() == self.frame_count && self.failure is None,
            Stage::Aborted => self.frames.len() == 0 && self.failure is Some,
        }
    }

    /// The state a render starts in. A render of no frames is delivered at
    /// once and never asks for the device.
    pub open spec fn initial(extent: Extent, first_frame: u32, frame_count: nat) -> DriverState {
        DriverState {
            extent,
            first_frame,
            frame_count,
            stage: if frame_count == 0 {
                Stage::Delivered
            } else {
                Stage::AwaitingContext
            },
            frames: Seq::empty(),
            failure: None,
        }
    }

    /// Index of the frame that is rendered next.
    pub open spec fn next_index(self) -> int {
        self.first_frame + self.frames.len()
    }

    /// The device work that is due in this state.
    pub open spec fn directive(self) -> Directive {
        match self.stage {
            Stage::AwaitingContext => Directive::AcquireContext(context_plan_of()),
            Stage::AwaitingPipeline => Directive::BuildPipeline(pipeline_plan_of()),
            Stage::AwaitingFrame => Directive::RenderFrame(
                frame_plan_of(self.extent, self.next_index() as u32),
            ),
            Stage::Delivered | Stage::Aborted => Directive::Stop,
        }
    }

    /// This render, ended by a failure: nothing of it is kept.
    pub open spec fn aborted(self, error: RenderError) -> DriverState {
        DriverState { stage: Stage::Aborted, frames: Seq::empty(), failure: Some(error), ..self }
    }

    /// This render with one more frame collected.
    pub open spec fn collected(self, pixels: Seq<u8>) -> DriverState {
        DriverState {
            stage: if self.frames.len() + 1 == self.frame_count {
                Stage::Delivered
            } else {
                Stage::AwaitingFrame
            },
            frames: self.frames.push(pixels),
            ..self
        }
    }

    /// The state that follows when `event` is reported. An event that does
    /// not answer the directive that is due changes nothing.
    pub open spec fn after(self, event: Event) -> DriverState {
        match self.stage {
            Stage::AwaitingContext => match event {
                Event::ContextReady => DriverState { stage: Stage::AwaitingPipeline, ..self },
                Event::AdapterMissing => self.aborted(RenderError::AdapterUnavailable),
                Event::DeviceRefused => self.aborted(RenderError::DeviceRequestFailed),
                _ => self,
            },
            Stage::AwaitingPipeline => match event {
                Event::PipelineReady => DriverState { stage: Stage::AwaitingFrame, ..self },
                Event::ShaderRejected(diagnostics) => self.aborted(
                    RenderError::ShaderCompileError(diagnostics),
                ),
                _ => self,
            },
            Stage::AwaitingFrame => match event {
                Event::FrameRefused(diagnostics) => self.aborted(
                    RenderError::FrameRejected(diagnostics),
                ),
                Event::FrameRead(outcome) => match assembled(outcome, self.extent) {
                    Ok(pixels) => self.collected(pixels),
                    Err(error) => self.aborted(error),
                },
                _ => self,
            },
            Stage::Delivered | Stage::Aborted => self,
        }
    }

    /// Whether `event` answers the directive that is due.
    pub open spec fn answered_by(self, event: Event) -> bool {
        match self.stage {
            Stage::AwaitingContext => event is ContextReady || event is AdapterMissing
                || event is DeviceRefused,
            Stage::AwaitingPipeline => event is PipelineReady || event is ShaderRejected,
            Stage::AwaitingFrame => event is FrameRefused || event is FrameRead,
            Stage::Delivered | Stage::Aborted => false,
        }
    }

    /// An upper bound on the number of directives that are still to come.
    pub open spec fn remaining(self) -> nat {
        match self.stage {
            Stage::AwaitingContext => self.frame_count + 2,
            Stage::AwaitingPipeline => self.frame_count + 1,
            Stage::AwaitingFrame => (self.frame_count - self.frames.len()) as nat,
            Stage::Delivered | Stage::Aborted => 0,
        }
    }

    /// The state after a run of events, reported in order.
    pub open spec fn after_all(self, events: Seq<Event>) -> DriverState
        decreases events.len(),
    {
        if events.len() == 0 {
            self
        } else {
            self.after_all(events.drop_last()).after(events.last())
        }
    }

    /// What a finished render hands over: the frames, or the failure. An
    /// unfinished render hands over nothing.
    pub open spec fn outcome(self) -> Option<Result<Seq<Seq<u8>>, RenderError>> {
        match self.stage {
            Stage::Delivered => Some(Ok(self.frames)),
            Stage::Aborted => match self.failure {
                Some(error) => Some(Err(error)),
                None => None,
            },
            _ => None,
        }
    }
}

/// The bytes of a sequence of buffers.
pub open spec fn buffers_view(buffers: Seq<Vec<u8>>) -> Seq<Seq<u8>> {
    Seq::new(buffers.len(), |i: int| buffers[i]@)
}

/// The state of one render.
#[derive(Debug)]
pub struct Driver {
    extent: Extent,
    first_frame: u32,
    frame_count: usize,
    stage: Stage,
    frames: Vec<Vec<u8>>,
    failure: Option<RenderError>,
}

impl View for Driver {
    type V = DriverState;

    closed spec fn view(&self) -> DriverState {
        DriverState {
            extent: self.extent,
            first_frame: self.first_frame,
            frame_count: self.frame_count as nat,
            stage: self.stage,
            frames: buffers_view(self.frames@),
            failure: self.failure,
        }
    }
}

impl Driver {
    /// The invariant of the type.
    #[verifier::type_invariant]
    pub open spec fn wf(self) -> bool {
        self@.wf()
    }

    /// Starts a render of `frame_count` frames, the first with the index
    /// `first_frame`. The render is refused when an index of it would not
    /// fit the frame-index uniform.
    pub fn new(extent: Extent, first_frame: u32, frame_count: usize) -> (r: Result<
        Driver,
        RenderError,
    >)
        ensures
            first_frame + frame_count <= FRAME_INDEX_LIMIT ==> r is Ok && r->Ok_0@
                == DriverState::initial(extent, first_frame, frame_count as nat),
            first_frame + frame_count > FRAME_INDEX_LIMIT ==> r is Err && r->Err_0
                == RenderError::FrameIndexOutOfRange,
    {
        proof {
            use_type_invariant(extent);
        }
        if frame_count as u64 > FRAME_INDEX_LIMIT - first_frame as u64 {
            return Err(RenderError::FrameIndexOutOfRange);
        }
        let stage = if frame_count == 0 {
            Stage::Delivered
        } else {
            Stage::AwaitingContext
        };
        let driver = Driver {
            extent,
            first_frame,
            frame_count,
            stage,
            frames: Vec::new(),
            failure: None,
        };
        proof {
            assert(driver@.frames =~= Seq::<Seq<u8>>::empty());
        }
        Ok(driver)
    }

    /// The target of every frame.
    pub fn extent(&self) -> (e: Extent)
        ensures
            e == self@.extent,
    {
        self.extent
    }

    /// Where the render stands.
    pub fn stage(&self) -> (s: Stage)
        ensures
            s == self@.stage,
    {
        self.stage
    }

    /// Number of frames asked for.
    pub fn frame_count(&self) -> (n: usize)
        ensures
            n == self@.frame_count,
    {
        self.frame_count
    }

    /// Number of frames collected so far.
    pub fn frames_collected(&self) -> (n: usize)
        ensures
            n == self@.frames.len(),
            n <= self@.frame_count,
    {
        proof {
            use_type_invariant(self);
        }
        self.frames.len()
    }

    /// The device work that is due.
    pub fn directive(&self) -> (d: Directive)
        ensures
            d == self@.directive(),
    {
        proof {
            use_type_invariant(self);
        }
        match self.stage {
            Stage::AwaitingContext => Directive::AcquireContext(context_plan()),
            Stage::AwaitingPipeline => Directive::BuildPipeline(pipeline_plan()),
            Stage::AwaitingFrame => {
                let done: u64 = self.frames.len() as u64;
                let index: u64 = self.first_frame as u64 + done;
                Directive::RenderFrame(frame_plan(self.extent, index as u32))
            },
            Stage::Delivered => Directive::Stop,
            Stage::Aborted => Directive::Stop,
        }
    }

    /// Takes what came of the work that was due, and moves on.
    pub fn handle(self, event: Event) -> (next: Driver)
        ensures
            next@ == self@.after(event),
    {
        proof {
            use_type_invariant(&self);
        }
        let Driver { extent, first_frame, frame_count, stage, frames, failure } = self;
        match stage {
            Stage::AwaitingContext => match event {
                Event::ContextReady => Driver {
                    extent,
                    first_frame,
                    frame_count,
                    stage: Stage::AwaitingPipeline,
                    frames,
                    failure,
                },
                Event::AdapterMissing => Self::abort(
                    extent,
                    first_frame,
                    frame_count,
                    RenderError::AdapterUnavailable,
                ),
                Event::DeviceRefused => Self::abort(
                    extent,
                    first_frame,
                    frame_count,
                    RenderError::DeviceRequestFailed,
                ),
                _ => Driver { extent, first_frame, frame_count, stage, frames, failure },
            },
            Stage::AwaitingPipeline => match event {
                Event::PipelineReady => Driver {
                    extent,
                    first_frame,
                    frame_count,
                    stage: Stage::AwaitingFrame,
                    frames,
                    failure,
                },
                Event::ShaderRejected(diagnostics) => Self::abort(
                    extent,
                    first_frame,
                    frame_count,
                    RenderError::ShaderCompileError(diagnostics),
                ),
                _ => Driver { extent, first_frame, frame_count, stage, frames, failure },
            },
            Stage::AwaitingFrame => match event {
                Event::FrameRefused(diagnostics) => Self::abort(
                    extent,
                    first_frame,
                    frame_count,
                    RenderError::FrameRejected(diagnostics),
                ),
                Event::FrameRead(outcome) => match assemble(outcome, extent) {
                    Ok(pixels) => {
                        let ghost before = frames@;
                        let mut frames = frames;
                        frames.push(pixels);
                        proof {
                            assert(buffers_view(frames@) =~= buffers_view(before).push(pixels@));
                        }
                        let stage = if frames.len() == frame_count {
                            Stage::Delivered
                        } else {
                            Stage::AwaitingFrame
                        };
                        Driver { extent, first_frame, frame_count, stage, frames, failure }
                    },
                    Err(error) => Self::abort(extent, first_frame, frame_count, error),
                },
                _ => Driver { extent, first_frame, frame_count, stage, frames, failure },
            },
            Stage::Delivered => Driver { extent, first_frame, frame_count, stage, frames, failure },
            Stage::Aborted => Driver { extent, first_frame, frame_count, stage, frames, failure },
        }
    }

    /// A render ended by a failure.
    fn abort(extent: Extent, first_frame: u32, frame_count: usize, error: RenderError) -> (next:
        Driver)
        requires
            extent.wf(),
            first_frame + frame_count <= FRAME_INDEX_LIMIT,
        ensures
            next@ == (DriverState {
                extent,
                first_frame,
                frame_count: frame_count as nat,
                stage: Stage::Aborted,
                frames: Seq::empty(),
                failure: Some(error),
            }),
    {
        let next = Driver {
            extent,
            first_frame,
            frame_count,
            stage: Stage::Aborted,
            frames: Vec::new(),
            failure: Some(error),
        };
        proof {
            assert(next@.frames =~= Seq::<Seq<u8>>::empty());
        }
        next
    }

    /// Ends the render and hands over what it came to: every frame, in the
    /// order of the frame indices, or the failure that ended it. A render
    /// that is not finished hands over nothing.
    pub fn into_outcome(self) -> (r: Option<Result<Vec<Vec<u8>>, RenderError>>)
        ensures
            match self@.outcome() {
                Some(Ok(frames)) => r matches Some(Ok(buffers)) && buffers_view(buffers@) == frames
                    && buffers@.len() == self@.frame_count && forall|i: int|
                    0 <= i < buffers@.len() ==> (#[trigger] buffers@[i])@.len()
                        == self@.extent.cols() * self@.extent.rows() * 4,
                Some(Err(error)) => r matches Some(Err(e)) && e == error,
                None => r is None,
            },
    {
        proof {
            use_type_invariant(&self);
        }
        let Driver { extent, first_frame, frame_count, stage, frames, failure } = self;
        match stage {
            Stage::Delivered => {
                proof {
                    extent.lemma_bounds();
                    assert forall|i: int| 0 <= i < frames@.len() implies (#[trigger] frames@[i])@.len()
                        == extent.cols() * extent.rows() * 4 by {
                        assert(buffers_view(frames@)[i] == frames@[i]@);
                    }
                }
                Some(Ok(frames))
            },
            Stage::Aborted => match failure {
                Some(error) => Some(Err(error)),
                None => None,
            },
            _ => None,
        }
    }

    /// Ends a render of one frame and hands over that frame, or the failure
    /// that ended the render. A render that is not finished, or that was not
    /// asked for exactly one frame, hands over nothing.
    pub fn into_single(self) -> (r: Option<Result<Vec<u8>, RenderError>>)
        ensures
            match self@.outcome() {
                Some(Ok(frames)) => if frames.len() == 1 {
                    r matches Some(Ok(buffer)) && buffer@ == frames[0] && buffer@.len()
                        == self@.extent.cols() * self@.extent.rows() * 4
                } else {
                    r is None
                },
                Some(Err(error)) => r matches Some(Err(e)) && e == error,
                None => r is None,
            },
    {
        match self.into_outcome() {
            Some(Ok(frames)) => {
                let mut frames = frames;
                if frames.len() == 1 {
                    let ghost all = frames@;
                    match frames.pop() {
                        Some(buffer) => {
                            proof {
                                assert(buffers_view(all)[0] == all[0]@);
                            }
                            Some(Ok(buffer))
                        },
                        None => None,
                    }
                } else {
                    None
                }
            },
            Some(Err(error)) => Some(Err(error)),
            None => None,
        }
    }
}

/// A render starts in a well-formed state.
pub proof fn lemma_initial_is_wf(extent: Extent, first_frame: u32, frame_count: nat)
    requires
        extent.wf(),
        first_frame + frame_count <= FRAME_INDEX_LIMIT,
    ensures
        DriverState::initial(extent, first_frame, frame_count).wf(),
{
}

/// Whatever is reported, the state stays well-formed: a render never holds
/// more frames than were asked for, every frame it holds has the length of
/// the pixel buffer of the target, and an aborted render holds none.
pub proof fn lemma_after_preserves_wf(state: DriverState, event: Event)
    requires
        state.wf(),
    ensures
        state.after(event).wf(),
        state.after(event).extent == state.extent,
        state.after(event).first_frame == state.first_frame,
        state.after(event).frame_count == state.frame_count,
{
    let next = state.after(event);
    if state.stage == Stage::AwaitingFrame {
        if let Event::FrameRead(outcome) = event {
            if let Ok(pixels) = assembled(outcome, state.extent) {
                state.extent.lemma_bounds();
                assert(pixels.len() == state.extent.pixel_len());
                assert forall|i: int| 0 <= i < next.frames.len() implies (#[trigger] next.frames[i]).len()
                    == next.extent.pixel_len() by {
                    if i < state.frames.len() {
                        assert(next.frames[i] == state.frames[i]);
                    }
                }
            }
        }
    }
}

/// The same holds after any run of events.
pub proof fn lemma_after_all_preserves_wf(state: DriverState, events: Seq<Event>)
    requires
        state.wf(),
    ensures
        state.after_all(events).wf(),
        state.after_all(events).extent == state.extent,
        state.after_all(events).first_frame == state.first_frame,
        state.after_all(events).frame_count == state.frame_count,
    decreases events.len(),
{
    if events.len() > 0 {
        lemma_after_all_preserves_wf(state, events.drop_last());
        lemma_after_preserves_wf(state.after_all(events.drop_last()), events.last());
    }
}

/// A finished render hands over all its frames or none: on success as many
/// frames as were asked for, each of the length of the pixel buffer of the
/// target; on failure the failure alone.
pub proof fn lemma_outcome_is_all_or_nothing(state: DriverState)
    requires
        state.wf(),
    ensures
        match state.outcome() {
            Some(Ok(frames)) => frames.len() == state.frame_count && forall|i: int|
                0 <= i < frames.len() ==> (#[trigger] frames[i]).len() == state.extent.cols()
                    * state.extent.rows() * 4,
            Some(Err(_)) => state.frames.len() == 0,
            None => state.directive() != Directive::Stop,
        },
        state.outcome() is Some <==> state.directive() == Directive::Stop,
{
    state.extent.lemma_bounds();
}

/// Whenever a frame is due, the fragment stage is shown the dimensions of the
/// target of the render and the index of that frame: the words it reads from
/// the resolution buffer are the width and the height, and the word it reads
/// from the frame-index buffer is the index of the first frame plus the
/// number of frames collected before.
pub proof fn lemma_frame_directive_shows_request(state: DriverState)
    requires
        state.wf(),
        state.stage == Stage::AwaitingFrame,
    ensures
        state.directive() matches Directive::RenderFrame(plan) && {
            &&& plan == frame_plan_of(state.extent, state.next_index() as u32)
            &&& plan.uniforms.width == state.extent.cols()
            &&& plan.uniforms.height == state.extent.rows()
            &&& plan.uniforms.frame_index == state.first_frame + state.frames.len()
            &&& host_word(host_bytes(plan.uniforms.resolution_words()), 0) == state.extent.cols()
            &&& host_word(host_bytes(plan.uniforms.resolution_words()), 1) == state.extent.rows()
            &&& host_word(host_bytes(plan.uniforms.frame_index_words()), 0) == state.first_frame
                + state.frames.len()
        },
{
    let plan = frame_plan_of(state.extent, state.next_index() as u32);
    state.extent.lemma_bounds();
    lemma_host_word_of_host_bytes(plan.uniforms.resolution_words(), 0);
    lemma_host_word_of_host_bytes(plan.uniforms.resolution_words(), 1);
    lemma_host_word_of_host_bytes(plan.uniforms.frame_index_words(), 0);
}

/// The event that reports the readback of the frame at `position`, in a run
/// that starts with the context and the pipeline.
pub open spec fn frame_event(events: Seq<Event>, position: int) -> Event {
    events[position + 2]
}

/// A run in which the device does all that is asked of it: the context opens,
/// the pipeline is built, and every frame comes back with the staged bytes
/// given for it.
pub open spec fn is_clean_run(events: Seq<Event>, staged: Seq<Seq<u8>>) -> bool {
    &&& events.len() == staged.len() + 2
    &&& events[0] == Event::ContextReady
    &&& events[1] == Event::PipelineReady
    &&& forall|i: int|
        0 <= i < staged.len() ==> ((#[trigger] frame_event(events, i)) matches Event::FrameRead(
            MapOutcome::Ready(bytes),
        ) && bytes@ == staged[i])
}

/// The state of a clean run once `collected` frames have come back.
pub open spec fn clean_state(
    extent: Extent,
    first_frame: u32,
    staged: Seq<Seq<u8>>,
    collected: int,
) -> DriverState {
    DriverState {
        extent,
        first_frame,
        frame_count: staged.len(),
        stage: if collected == staged.len() {
            Stage::Delivered
        } else {
            Stage::AwaitingFrame
        },
        frames: Seq::new(
            collected as nat,
            |i: int| unpadded(staged[i], extent.cols(), extent.rows()),
        ),
        failure: None,
    }
}

/// In a clean run the state after the context, the pipeline and the first
/// `collected` frames is `clean_state`.
pub proof fn lemma_clean_run_prefix(
    extent: Extent,
    first_frame: u32,
    events: Seq<Event>,
    staged: Seq<Seq<u8>>,
    collected: int,
)
    requires
        extent.wf(),
        0 < staged.len(),
        first_frame + staged.len() <= FRAME_INDEX_LIMIT,
        is_clean_run(events, staged),
        forall|i: int| 0 <= i < staged.len() ==> (#[trigger] staged[i]).len() == extent.staging_len(),
        0 <= collected <= staged.len(),
    ensures
        DriverState::initial(extent, first_frame, staged.len()).after_all(
            events.take(collected + 2),
        ) == clean_state(extent, first_frame, staged, collected),
    decreases collected,
{
    let start = DriverState::initial(extent, first_frame, staged.len());
    let prefix = events.take(collected + 2);
    if collected == 0 {
        let one = events.take(1);
        assert(prefix.drop_last() =~= one);
        assert(one.drop_last() =~= Seq::<Event>::empty());
        assert(one.last() == events[0]);
        assert(prefix.last() == events[1]);
        assert(start.after_all(one.drop_last()) == start);
        assert(start.after_all(one) == start.after(events[0]));
        assert(start.after_all(prefix) == start.after(events[0]).after(events[1]));
        assert(clean_state(extent, first_frame, staged, 0).frames =~= Seq::<Seq<u8>>::empty());
    } else {
        lemma_clean_run_prefix(extent, first_frame, events, staged, collected - 1);
        let before = clean_state(extent, first_frame, staged, collected - 1);
        assert(prefix.drop_last() =~= events.take(collected + 1));
        assert(prefix.last() == frame_event(events, collected - 1));
        assert(start.after_all(prefix) == before.after(frame_event(events, collected - 1)));
        assert(staged[collected - 1].len() == extent.staging_len());
        assert(before.after(frame_event(events, collected - 1)).frames =~= clean_state(
            extent,
            first_frame,
            staged,
            collected,
        ).frames);
    }
}

/// A clean run of a sequence of `N` frames delivers exactly `N` frames.
/// The context is asked for first and the pipeline second, each once. Frame
/// `i` of the result is the unpadded copy of the bytes that came back for
/// it, and was asked for with the frame index `first_frame + i`, after the
/// `i` frames before it had come back.
pub proof fn lemma_clean_run_delivers_in_order(
    extent: Extent,
    first_frame: u32,
    events: Seq<Event>,
    staged: Seq<Seq<u8>>,
)
    requires
        extent.wf(),
        0 < staged.len(),
        first_frame + staged.len() <= FRAME_INDEX_LIMIT,
        is_clean_run(events, staged),
        forall|i: int| 0 <= i < staged.len() ==> (#[trigger] staged[i]).len() == extent.staging_len(),
    ensures
        ({
            let start = DriverState::initial(extent, first_frame, staged.len());
            let end = start.after_all(events);
            &&& start.directive() == Directive::AcquireContext(context_plan_of())
            &&& start.after(events[0]).directive() == Directive::BuildPipeline(pipeline_plan_of())
            &&& end.outcome() == Some(Ok::<Seq<Seq<u8>>, RenderError>(end.frames))
            &&& end.frames.len() == staged.len()
            &&& forall|i: int|
                0 <= i < staged.len() ==> #[trigger] end.frames[i] == unpadded(
                    staged[i],
                    extent.cols(),
                    extent.rows(),
                )
            &&& forall|i: int|
                0 <= i < staged.len() ==> start.after_all(#[trigger] events.take(i + 2)).directive()
                    == Directive::RenderFrame(frame_plan_of(extent, (first_frame + i) as u32))
        }),
{
    let start = DriverState::initial(extent, first_frame, staged.len());
    let count = staged.len() as int;
    lemma_clean_run_prefix(extent, first_frame, events, staged, count);
    assert(events.take(count + 2) =~= events);
    assert forall|i: int| 0 <= i < staged.len() implies start.after_all(
        #[trigger] events.take(i + 2),
    ).directive() == Directive::RenderFrame(frame_plan_of(extent, (first_frame + i) as u32)) by {
        lemma_clean_run_prefix(extent, first_frame, events, staged, i);
    }
}

/// Every answer brings the end nearer, and nothing but an answer changes the
/// state. So a caller that does what is due and reports it reaches `Stop`
/// after at most `frame_count + 2` directives, and the next frame is never
/// asked for before the readback of the frame before it was reported.
pub proof fn lemma_only_answers_make_progress(state: DriverState, event: Event)
    requires
        state.wf(),
    ensures
        state.answered_by(event) ==> state.after(event).remaining() < state.remaining(),
        !state.answered_by(event) ==> state.after(event) == state,
        state.remaining() == 0 <==> state.directive() == Directive::Stop,
        state.remaining() <= state.frame_count + 2,
{
}

/// The frames that a clean run delivers depend on nothing but the bytes
/// that came back from the device: two clean runs of the same request that
/// read back the same bytes deliver identical frames.
pub proof fn lemma_equal_readbacks_give_equal_frames(
    extent: Extent,
    first_frame: u32,
    events: Seq<Event>,
    others: Seq<Event>,
    staged: Seq<Seq<u8>>,
)
    requires
        extent.wf(),
        0 < staged.len(),
        first_frame + staged.len() <= FRAME_INDEX_LIMIT,
        is_clean_run(events, staged),
        is_clean_run(others, staged),
        forall|i: int| 0 <= i < staged.len() ==> (#[trigger] staged[i]).len() == extent.staging_len(),
    ensures
        DriverState::initial(extent, first_frame, staged.len()).after_all(events).outcome()
            == DriverState::initial(extent, first_frame, staged.len()).after_all(others).outcome(),
{
    let start = DriverState::initial(extent, first_frame, staged.len());
    lemma_clean_run_delivers_in_order(extent, first_frame, events, staged);
    lemma_clean_run_delivers_in_order(extent, first_frame, others, staged);
    assert(start.after_all(events).frames =~= start.after_all(others).frames);
}

} // verus!
