//! What the device is asked to build and to draw, as plain values.
//!
//! A pipeline plan describes the objects that one shader needs and that all
//! frames of a sequence share. A frame plan describes what one frame adds:
//! its uniforms, its offscreen target and staging buffer, the single render
//! pass and the copy that follows it.

use vstd::prelude::*;
use crate::device::{downlevel_limits, requested_limits, DeviceLimits};
use crate::layout::{lemma_padded_stride, padded_stride, Extent};
use crate::uniform::{
    UniformBlock, FRAME_INDEX_BINDING, FRAME_INDEX_BYTES, RESOLUTION_BINDING, RESOLUTION_BYTES,
    UNIFORM_BIND_GROUP,
};

verus! {

/// Entry point of the vertex stage, which emits the full-screen primitive.
pub const VERTEX_ENTRY_POINT: &'static str = "vs_main";

/// Entry point of the fragment stage.
pub const FRAGMENT_ENTRY_POINT: &'static str = "fs_main";

/// Vertices of the full-screen primitive.
pub const FULL_SCREEN_VERTICES: u32 = 6;

/// Milliseconds that the host waits for a staging buffer to be mapped
/// before it gives the frame up.
pub const MAP_WAIT_MILLIS: u64 = 30_000;

/// Color encoding of a render target.
#[derive(Clone, Copy, Debug, PartialEq, Eq, Structural)]
pub enum ColorFormat {
    /// Four 8-bit channels, red first, stored with sRGB encoding.
    Rgba8UnormSrgb,
}

/// How vertices are assembled into primitives.
#[derive(Clone, Copy, Debug, PartialEq, Eq, Structural)]
pub enum Topology {
    /// Every three vertices form one triangle.
    TriangleList,
}

/// One color as it is stored in an RGBA8 target.
#[derive(Clone, Copy, Debug, PartialEq, Eq, Structural)]
pub struct Rgba8 {
    pub red: u8,
    pub green: u8,
    pub blue: u8,
    pub alpha: u8,
}

/// One uniform-buffer binding of the bind-group layout.
#[derive(Clone, Copy, Debug, PartialEq, Eq, Structural)]
pub struct BindingSlot {
    /// Bind group of the binding.
    pub group: u32,
    /// Number of the binding within its group.
    pub binding: u32,
    /// Bytes of the buffer bound there.
    pub bytes: u64,
    /// Whether the vertex stage can read the binding.
    pub vertex_visible: bool,
    /// Whether the fragment stage can read the binding.
    pub fragment_visible: bool,
}

/// What is asked for when the device is opened.
#[derive(Clone, Copy, Debug, PartialEq, Eq, Structural)]
pub struct ContextPlan {
    /// Whether only a software fallback adapter will do.
    pub fallback_adapter: bool,
    /// The optional features that the device must have, as a set of bits.
    pub required_features: u64,
    /// The limits that the device must guarantee.
    pub limits: DeviceLimits,
}

/// The render pipeline of one shader.
#[derive(Clone, Copy, Debug)]
pub struct PipelinePlan {
    /// Entry point of the vertex stage.
    pub vertex_entry: &'static str,
    /// Entry point of the fragment stage.
    pub fragment_entry: &'static str,
    /// Binding of the resolution buffer.
    pub resolution: BindingSlot,
    /// Binding of the frame-index buffer.
    pub frame_index: BindingSlot,
    /// Number of vertex buffers.
    pub vertex_buffers: u32,
    /// Primitive assembly.
    pub topology: Topology,
    /// Samples per pixel.
    pub sample_count: u32,
    /// Whether a depth attachment is tested.
    pub depth_test: bool,
    /// Format of the one color target.
    pub target_format: ColorFormat,
}

/// The offscreen color target of one frame.
#[derive(Clone, Copy, Debug, PartialEq, Eq, Structural)]
pub struct TargetPlan {
    pub width: u32,
    pub height: u32,
    pub format: ColorFormat,
    pub mip_levels: u32,
    pub sample_count: u32,
    /// The target is rendered into.
    pub render_attachment: bool,
    /// The target is copied from.
    pub copy_source: bool,
}

/// The host-readable buffer that one frame is copied into.
#[derive(Clone, Copy, Debug, PartialEq, Eq, Structural)]
pub struct StagingPlan {
    pub bytes: u64,
    /// The buffer is copied into.
    pub copy_destination: bool,
    /// The buffer can be mapped for reading by the host.
    pub host_readable: bool,
}

/// The one render pass of a frame.
#[derive(Clone, Copy, Debug, PartialEq, Eq, Structural)]
pub struct DrawPlan {
    /// Color the target is cleared to before the draw.
    pub clear: Rgba8,
    pub vertices: u32,
    pub instances: u32,
}

/// The copy of the rendered target into the staging buffer.
#[derive(Clone, Copy, Debug, PartialEq, Eq, Structural)]
pub struct CopyPlan {
    /// Offset of the first row in the staging buffer.
    pub offset: u64,
    /// Bytes from one row to the next.
    pub bytes_per_row: u32,
    /// Rows of the image.
    pub rows_per_image: u32,
}

/// The wait for the staging buffer to be mapped.
#[derive(Clone, Copy, Debug, PartialEq, Eq, Structural)]
pub struct ReadbackPlan {
    /// Milliseconds after which the wait is given up.
    pub wait_millis: u64,
}

/// Everything one frame asks of the device.
#[derive(Clone, Copy, Debug, PartialEq, Eq, Structural)]
pub struct FramePlan {
    pub uniforms: UniformBlock,
    pub target: TargetPlan,
    pub staging: StagingPlan,
    pub draw: DrawPlan,
    pub copy: CopyPlan,
    pub readback: ReadbackPlan,
}

/// The context of every render: any adapter will do, no optional feature
/// is required, and the device need guarantee no more than the limits that
/// every backend can meet.
pub open spec fn context_plan_of() -> ContextPlan {
    ContextPlan { fallback_adapter: false, required_features: 0, limits: downlevel_limits() }
}

/// Opaque black, the background of every frame.
pub open spec fn opaque_black() -> Rgba8 {
    Rgba8 { red: 0, green: 0, blue: 0, alpha: 255 }
}

/// A uniform binding that only the fragment stage reads.
pub open spec fn fragment_uniform(binding: u32, bytes: u64) -> BindingSlot {
    BindingSlot {
        group: UNIFORM_BIND_GROUP,
        binding,
        bytes,
        vertex_visible: false,
        fragment_visible: true,
    }
}

/// The pipeline of every render: both stages come from the one shader
/// module, no vertex buffer is bound, the two uniform bindings are visible
/// to the fragment stage only, and the fixed-function state is the default
/// one (triangle list, one sample, no depth test).
pub open spec fn pipeline_plan_of() -> PipelinePlan {
    PipelinePlan {
        vertex_entry: VERTEX_ENTRY_POINT,
        fragment_entry: FRAGMENT_ENTRY_POINT,
        resolution: fragment_uniform(RESOLUTION_BINDING, RESOLUTION_BYTES),
        frame_index: fragment_uniform(FRAME_INDEX_BINDING, FRAME_INDEX_BYTES),
        vertex_buffers: 0,
        topology: Topology::TriangleList,
        sample_count: 1,
        depth_test: false,
        target_format: ColorFormat::Rgba8UnormSrgb,
    }
}

/// The plan of the frame with the given index on a target of the given extent.
pub open spec fn frame_plan_of(extent: Extent, frame_index: u32) -> FramePlan {
    FramePlan {
        uniforms: UniformBlock {
            width: extent.cols() as u32,
            height: extent.rows() as u32,
            frame_index,
        },
        target: TargetPlan {
            width: extent.cols() as u32,
            height: extent.rows() as u32,
            format: ColorFormat::Rgba8UnormSrgb,
            mip_levels: 1,
            sample_count: 1,
            render_attachment: true,
            copy_source: true,
        },
        staging: StagingPlan {
            bytes: extent.staging_len() as u64,
            copy_destination: true,
            host_readable: true,
        },
        draw: DrawPlan { clear: opaque_black(), vertices: FULL_SCREEN_VERTICES, instances: 1 },
        copy: CopyPlan {
            offset: 0,
            bytes_per_row: padded_stride(extent.cols()) as u32,
            rows_per_image: extent.rows() as u32,
        },
        readback: ReadbackPlan { wait_millis: MAP_WAIT_MILLIS },
    }
}

/// Plans the context.
pub fn context_plan() -> (plan: ContextPlan)
    ensures
        plan == context_plan_of(),
{
    ContextPlan { fallback_adapter: false, required_features: 0, limits: requested_limits() }
}

/// Plans the pipeline.
pub fn pipeline_plan() -> (plan: PipelinePlan)
    ensures
        plan == pipeline_plan_of(),
{
    PipelinePlan {
        vertex_entry: VERTEX_ENTRY_POINT,
        fragment_entry: FRAGMENT_ENTRY_POINT,
        resolution: BindingSlot {
            group: UNIFORM_BIND_GROUP,
            binding: RESOLUTION_BINDING,
            bytes: RESOLUTION_BYTES,
            vertex_visible: false,
            fragment_visible: true,
        },
        frame_index: BindingSlot {
            group: UNIFORM_BIND_GROUP,
            binding: FRAME_INDEX_BINDING,
            bytes: FRAME_INDEX_BYTES,
            vertex_visible: false,
            fragment_visible: true,
        },
        vertex_buffers: 0,
        topology: Topology::TriangleList,
        sample_count: 1,
        depth_test: false,
        target_format: ColorFormat::Rgba8UnormSrgb,
    }
}

/// Plans one frame.
pub fn frame_plan(extent: Extent, frame_index: u32) -> (plan: FramePlan)
    ensures
        plan == frame_plan_of(extent, frame_index),
        plan.uniforms.width == extent.cols(),
        plan.uniforms.height == extent.rows(),
        plan.copy.bytes_per_row == padded_stride(extent.cols()),
        plan.staging.bytes == extent.staging_len(),
{
    proof {
        use_type_invariant(extent);
        lemma_frame_plan_is_consistent(extent, frame_index);
        extent.lemma_bounds();
    }
    let width: u32 = extent.width();
    let height: u32 = extent.height();
    let staged: usize = extent.staging_buffer_len();
    FramePlan {
        uniforms: UniformBlock { width, height, frame_index },
        target: TargetPlan {
            width,
            height,
            format: ColorFormat::Rgba8UnormSrgb,
            mip_levels: 1,
            sample_count: 1,
            render_attachment: true,
            copy_source: true,
        },
        staging: StagingPlan { bytes: staged as u64, copy_destination: true, host_readable: true },
        draw: DrawPlan {
            clear: Rgba8 { red: 0, green: 0, blue: 0, alpha: 255 },
            vertices: FULL_SCREEN_VERTICES,
            instances: 1,
        },
        copy: CopyPlan { offset: 0, bytes_per_row: extent.padded_row_bytes(), rows_per_image: height },
        readback: ReadbackPlan { wait_millis: MAP_WAIT_MILLIS },
    }
}

/// Within one frame plan the uniforms, the target, the copy and the staging
/// buffer agree: the fragment stage is shown the dimensions of the target it
/// draws into, every copied row starts at a multiple of the row alignment and
/// holds a whole row of pixels, and the staging buffer holds exactly the rows
/// that are copied. No staging buffer is empty.
pub proof fn lemma_frame_plan_is_consistent(extent: Extent, frame_index: u32)
    requires
        extent.wf(),
    ensures
        ({
            let plan = frame_plan_of(extent, frame_index);
            &&& plan.uniforms.width == extent.cols()
            &&& plan.uniforms.height == extent.rows()
            &&& plan.uniforms.frame_index == frame_index
            &&& plan.target.width == plan.uniforms.width
            &&& plan.target.height == plan.uniforms.height
            &&& plan.copy.rows_per_image == plan.target.height
            &&& plan.copy.bytes_per_row % 256 == 0
            &&& plan.copy.bytes_per_row >= plan.target.width * 4
            &&& plan.staging.bytes == plan.copy.bytes_per_row * plan.copy.rows_per_image
            &&& plan.staging.bytes >= extent.pixel_len()
            &&& plan.staging.bytes > 0
        }),
{
    extent.lemma_bounds();
    lemma_padded_stride(extent.cols());
}

/// The frames of one target share their target, their staging buffer, their
/// render pass, their copy and their resolution: only the frame index
/// changes from one frame to the next.
pub proof fn lemma_frames_differ_in_index_only(extent: Extent, one: u32, other: u32)
    ensures
        ({
            let a = frame_plan_of(extent, one);
            let b = frame_plan_of(extent, other);
            &&& a.target == b.target
            &&& a.staging == b.staging
            &&& a.draw == b.draw
            &&& a.copy == b.copy
            &&& a.readback == b.readback
            &&& a.uniforms.width == b.uniforms.width
            &&& a.uniforms.height == b.uniforms.height
            &&& a.uniforms.frame_index == one
            &&& b.uniforms.frame_index == other
        }),
{
}

/// Nothing that is planned exceeds the limits that the device is opened
/// with: not the target, not the staging buffer, not the uniform bindings.
pub proof fn lemma_plans_respect_limits(extent: Extent, frame_index: u32)
    requires
        extent.wf(),
    ensures
        ({
            let limits = context_plan_of().limits;
            let pipeline = pipeline_plan_of();
            let frame = frame_plan_of(extent, frame_index);
            &&& frame.target.width <= limits.max_texture_dimension_2d
            &&& frame.target.height <= limits.max_texture_dimension_2d
            &&& frame.staging.bytes <= limits.max_buffer_size
            &&& pipeline.resolution.bytes <= limits.max_uniform_buffer_binding_size
            &&& pipeline.frame_index.bytes <= limits.max_uniform_buffer_binding_size
            &&& pipeline.resolution.group < limits.max_bind_groups
            &&& pipeline.frame_index.group < limits.max_bind_groups
            &&& 2 <= limits.max_uniform_buffers_per_shader_stage
        }),
{
    extent.lemma_bounds();
}

} // verus!
