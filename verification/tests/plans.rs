use shard::layout::Extent;
use shard::plan::{
    frame_plan, pipeline_plan, ColorFormat, Rgba8, Topology, FRAGMENT_ENTRY_POINT,
    FULL_SCREEN_VERTICES, MAP_WAIT_MILLIS, VERTEX_ENTRY_POINT,
};

#[test]
fn pipeline_uses_the_two_entry_points_of_the_shader() {
    let plan = pipeline_plan();
    assert_eq!(plan.vertex_entry, "vs_main");
    assert_eq!(plan.fragment_entry, "fs_main");
    assert_eq!(VERTEX_ENTRY_POINT, "vs_main");
    assert_eq!(FRAGMENT_ENTRY_POINT, "fs_main");
}

#[test]
fn pipeline_binds_two_uniforms_for_the_fragment_stage_only() {
    let plan = pipeline_plan();
    assert_eq!(plan.resolution.group, 0);
    assert_eq!(plan.resolution.binding, 0);
    assert_eq!(plan.resolution.bytes, 8);
    assert!(plan.resolution.fragment_visible);
    assert!(!plan.resolution.vertex_visible);
    assert_eq!(plan.frame_index.group, 0);
    assert_eq!(plan.frame_index.binding, 1);
    assert_eq!(plan.frame_index.bytes, 4);
    assert!(plan.frame_index.fragment_visible);
    assert!(!plan.frame_index.vertex_visible);
}

#[test]
fn pipeline_has_default_fixed_function_state() {
    let plan = pipeline_plan();
    assert_eq!(plan.vertex_buffers, 0);
    assert_eq!(plan.topology, Topology::TriangleList);
    assert_eq!(plan.sample_count, 1);
    assert!(!plan.depth_test);
    assert_eq!(plan.target_format, ColorFormat::Rgba8UnormSrgb);
}

#[test]
fn frame_plan_of_a_small_target() {
    let extent = Extent::new(4, 4).unwrap();
    let plan = frame_plan(extent, 7);
    assert_eq!(plan.uniforms.width, 4);
    assert_eq!(plan.uniforms.height, 4);
    assert_eq!(plan.uniforms.frame_index, 7);
    assert_eq!(plan.target.width, 4);
    assert_eq!(plan.target.height, 4);
    assert_eq!(plan.target.format, ColorFormat::Rgba8UnormSrgb);
    assert_eq!(plan.target.mip_levels, 1);
    assert_eq!(plan.target.sample_count, 1);
    assert!(plan.target.render_attachment);
    assert!(plan.target.copy_source);
    assert_eq!(plan.staging.bytes, 1024);
    assert!(plan.staging.copy_destination);
    assert!(plan.staging.host_readable);
    assert_eq!(plan.copy.offset, 0);
    assert_eq!(plan.copy.bytes_per_row, 256);
    assert_eq!(plan.copy.rows_per_image, 4);
}

#[test]
fn every_frame_clears_to_opaque_black_and_draws_six_vertices_once() {
    let extent = Extent::new(512, 512).unwrap();
    let plan = frame_plan(extent, 0);
    assert_eq!(plan.draw.clear, Rgba8 { red: 0, green: 0, blue: 0, alpha: 255 });
    assert_eq!(plan.draw.vertices, 6);
    assert_eq!(plan.draw.instances, 1);
    assert_eq!(FULL_SCREEN_VERTICES, 6);
}

#[test]
fn every_readback_has_a_deadline() {
    let extent = Extent::new(16, 16).unwrap();
    assert_eq!(MAP_WAIT_MILLIS, 30_000);
    assert_eq!(frame_plan(extent, 0).readback.wait_millis, 30_000);
    assert_eq!(frame_plan(extent, 5).readback.wait_millis, 30_000);
}

#[test]
fn frame_plan_of_an_aligned_target_has_a_tight_staging_buffer() {
    let extent = Extent::new(512, 512).unwrap();
    let plan = frame_plan(extent, 59);
    assert_eq!(plan.copy.bytes_per_row, 2048);
    assert_eq!(plan.copy.rows_per_image, 512);
    assert_eq!(plan.staging.bytes, 512 * 512 * 4);
}

#[test]
fn frames_of_one_target_differ_in_the_frame_index_only() {
    let extent = Extent::new(30, 20).unwrap();
    let first = frame_plan(extent, 0);
    let second = frame_plan(extent, 1);
    assert_ne!(first, second);
    assert_eq!(first.target, second.target);
    assert_eq!(first.staging, second.staging);
    assert_eq!(first.draw, second.draw);
    assert_eq!(first.copy, second.copy);
    assert_eq!(first.readback, second.readback);
    assert_eq!(first.uniforms.width, second.uniforms.width);
    assert_eq!(first.uniforms.height, second.uniforms.height);
    assert_eq!(second.uniforms.frame_index, 1);
}
