//! What is asked of the device when it is opened, and what a device that was
//! opened so guarantees.
//!
//! The device is asked for no more than the limits that every backend can
//! meet. A render whose target, staging buffer or bindings would exceed them
//! is refused before the device is touched.

use vstd::prelude::*;

verus! {

/// The limits of a device that bear on a render.
#[derive(Clone, Copy, Debug, PartialEq, Eq, Structural)]
pub struct DeviceLimits {
    /// Largest width and height of a two-dimensional texture.
    pub max_texture_dimension_2d: u32,
    /// Largest size of a buffer, in bytes.
    pub max_buffer_size: u64,
    /// Number of bind groups that a pipeline can use at once.
    pub max_bind_groups: u32,
    /// Number of uniform buffers that one shader stage can see.
    pub max_uniform_buffers_per_shader_stage: u32,
    /// Largest size of a uniform-buffer binding, in bytes.
    pub max_uniform_buffer_binding_size: u32,
}

/// Largest width and height of a render target.
pub const MAX_TARGET_DIMENSION: u32 = 2048;

/// Largest size of a staging buffer, in bytes.
pub const MAX_BUFFER_BYTES: u64 = 0x1000_0000;

/// Alignment that the device asks of every row of a texture-to-buffer copy.
pub const ROW_ALIGNMENT: u32 = 256;

/// The limits that the device is opened with.
pub open spec fn downlevel_limits() -> DeviceLimits {
    DeviceLimits {
        max_texture_dimension_2d: MAX_TARGET_DIMENSION,
        max_buffer_size: MAX_BUFFER_BYTES,
        max_bind_groups: 4,
        max_uniform_buffers_per_shader_stage: 12,
        max_uniform_buffer_binding_size: 0x4000,
    }
}

/// `wgpu::Limits::downlevel_defaults`, reduced to the limits that bear on a
/// render: textures of up to 2048 by 2048, buffers of up to 256 MiB, four
/// bind groups, twelve uniform buffers per stage, uniform bindings of up to
/// 16 KiB.
#[verifier::external_body]
pub(crate) fn requested_limits() -> (limits: DeviceLimits)
    ensures
        limits == downlevel_limits(),
{
    let limits = wgpu::Limits::downlevel_defaults();
    DeviceLimits {
        max_texture_dimension_2d: limits.max_texture_dimension_2d,
        max_buffer_size: limits.max_buffer_size,
        max_bind_groups: limits.max_bind_groups,
        max_uniform_buffers_per_shader_stage: limits.max_uniform_buffers_per_shader_stage,
        max_uniform_buffer_binding_size: limits.max_uniform_buffer_binding_size,
    }
}

/// `wgpu::COPY_BYTES_PER_ROW_ALIGNMENT`: the bytes per row of a copy between
/// a texture and a buffer must be a multiple of 256.
#[verifier::external_body]
pub(crate) fn copy_row_alignment() -> (alignment: u32)
    ensures
        alignment == ROW_ALIGNMENT,
{
    wgpu::COPY_BYTES_PER_ROW_ALIGNMENT
}

} // verus!
