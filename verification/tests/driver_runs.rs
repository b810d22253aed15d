use shard::driver::{Directive, Driver, Event, Stage, FRAME_INDEX_LIMIT};
use shard::error::RenderError;
use shard::layout::Extent;
use shard::plan::FramePlan;
use shard::readback::MapOutcome;

/// Stands in for the device: fills the staging buffer of a frame with one
/// color per pixel and marks the padding of every row.
fn staged_frame(plan: &FramePlan, pixel: impl Fn(u32, u32, u32) -> [u8; 4]) -> Vec<u8> {
    let stride = plan.copy.bytes_per_row as usize;
    let mut staged = vec![0xEEu8; plan.staging.bytes as usize];
    for row in 0..plan.target.height {
        for col in 0..plan.target.width {
            let at = row as usize * stride + col as usize * 4;
            let color = pixel(col, row, plan.uniforms.frame_index);
            staged[at..at + 4].copy_from_slice(&color);
        }
    }
    staged
}

/// Runs a driver to its end against a device that never fails, and records
/// the frame index of every frame that was asked for.
fn run_clean(
    mut driver: Driver,
    pixel: impl Fn(u32, u32, u32) -> [u8; 4],
) -> (Driver, Vec<u32>, Vec<&'static str>) {
    let mut indices = Vec::new();
    let mut asked = Vec::new();
    loop {
        match driver.directive() {
            Directive::AcquireContext(_) => {
                asked.push("context");
                driver = driver.handle(Event::ContextReady);
            }
            Directive::BuildPipeline(_) => {
                asked.push("pipeline");
                driver = driver.handle(Event::PipelineReady);
            }
            Directive::RenderFrame(plan) => {
                asked.push("frame");
                indices.push(plan.uniforms.frame_index);
                let staged = staged_frame(&plan, &pixel);
                driver = driver.handle(Event::FrameRead(MapOutcome::Ready(staged)));
            }
            Directive::Stop => return (driver, indices, asked),
        }
    }
}

#[test]
fn constant_red_shader_fills_a_four_by_four_target() {
    let extent = Extent::new(4, 4).unwrap();
    let driver = Driver::new(extent, 0, 1).unwrap();
    let (driver, indices, asked) = run_clean(driver, |_, _, _| [255, 0, 0, 255]);
    assert_eq!(indices, vec![0]);
    assert_eq!(asked, vec!["context", "pipeline", "frame"]);
    assert_eq!(driver.stage(), Stage::Delivered);
    let pixels = driver.into_single().unwrap().unwrap();
    assert_eq!(pixels.len(), 64);
    for group in pixels.chunks(4) {
        assert_eq!(group, &[255, 0, 0, 255]);
    }
}

#[test]
fn sequence_of_three_frames_is_delivered_in_order() {
    let extent = Extent::new(4, 4).unwrap();
    let driver = Driver::new(extent, 0, 3).unwrap();
    let (driver, indices, asked) =
        run_clean(driver, |_, _, frame| [(frame * 100) as u8, 0, 0, 255]);
    assert_eq!(indices, vec![0, 1, 2]);
    assert_eq!(asked, vec!["context", "pipeline", "frame", "frame", "frame"]);
    let frames = driver.into_outcome().unwrap().unwrap();
    assert_eq!(frames.len(), 3);
    for (i, frame) in frames.iter().enumerate() {
        assert_eq!(frame.len(), 64);
        assert!(frame.chunks(4).all(|p| p == [(i * 100) as u8, 0, 0, 255]));
    }
    assert_ne!(frames[0], frames[1]);
    assert_ne!(frames[1], frames[2]);
    assert_ne!(frames[0], frames[2]);
}

#[test]
fn sequence_length_equals_frame_count() {
    for count in 0usize..7 {
        let extent = Extent::new(3, 2).unwrap();
        let driver = Driver::new(extent, 0, count).unwrap();
        assert_eq!(driver.frame_count(), count);
        let (driver, indices, _) = run_clean(driver, |col, row, frame| {
            [col as u8, row as u8, frame as u8, 255]
        });
        assert_eq!(indices, (0..count as u32).collect::<Vec<u32>>());
        assert_eq!(driver.frames_collected(), count);
        let frames = driver.into_outcome().unwrap().unwrap();
        assert_eq!(frames.len(), count);
        assert!(frames.iter().all(|f| f.len() == 3 * 2 * 4));
    }
}

#[test]
fn same_readbacks_give_identical_frames() {
    let extent = Extent::new(5, 3).unwrap();
    let shade = |col: u32, row: u32, frame: u32| [col as u8, row as u8, (frame * 3) as u8, 255];
    let (first, _, _) = run_clean(Driver::new(extent, 0, 2).unwrap(), shade);
    let (second, _, _) = run_clean(Driver::new(extent, 0, 2).unwrap(), shade);
    assert_eq!(
        first.into_outcome().unwrap().unwrap(),
        second.into_outcome().unwrap().unwrap()
    );
}

#[test]
fn render_of_no_frames_is_delivered_without_the_device() {
    let extent = Extent::new(4, 4).unwrap();
    let driver = Driver::new(extent, 0, 0).unwrap();
    assert_eq!(driver.stage(), Stage::Delivered);
    assert!(matches!(driver.directive(), Directive::Stop));
    let frames = driver.into_outcome().unwrap().unwrap();
    assert!(frames.is_empty());
}

#[test]
fn single_frame_keeps_its_frame_index() {
    let extent = Extent::new(2, 2).unwrap();
    let driver = Driver::new(extent, 41, 1).unwrap();
    let (driver, indices, _) = run_clean(driver, |_, _, frame| [frame as u8, 0, 0, 255]);
    assert_eq!(indices, vec![41]);
    let pixels = driver.into_single().unwrap().unwrap();
    assert_eq!(pixels, vec![41, 0, 0, 255, 41, 0, 0, 255, 41, 0, 0, 255, 41, 0, 0, 255]);
}

#[test]
fn sequence_may_start_at_a_later_frame() {
    let extent = Extent::new(2, 1).unwrap();
    let driver = Driver::new(extent, 10, 3).unwrap();
    let (_, indices, _) = run_clean(driver, |_, _, _| [0, 0, 0, 255]);
    assert_eq!(indices, vec![10, 11, 12]);
}

#[test]
fn frame_plans_of_a_run_carry_the_resolution_of_the_request() {
    let extent = Extent::new(30, 20).unwrap();
    let mut driver = Driver::new(extent, 0, 2).unwrap();
    driver = driver.handle(Event::ContextReady);
    driver = driver.handle(Event::PipelineReady);
    for _ in 0..2 {
        match driver.directive() {
            Directive::RenderFrame(plan) => {
                assert_eq!(plan.uniforms.width, 30);
                assert_eq!(plan.uniforms.height, 20);
                assert_eq!(plan.target.width, 30);
                assert_eq!(plan.target.height, 20);
                let bytes = plan.uniforms.resolution_bytes();
                assert_eq!(&bytes[0..4], &30u32.to_ne_bytes());
                assert_eq!(&bytes[4..8], &20u32.to_ne_bytes());
                let staged = vec![0u8; plan.staging.bytes as usize];
                driver = driver.handle(Event::FrameRead(MapOutcome::Ready(staged)));
            }
            other => panic!("expected a frame, got {:?}", other),
        }
    }
    assert_eq!(driver.stage(), Stage::Delivered);
}

#[test]
fn missing_adapter_aborts_the_render() {
    let extent = Extent::new(4, 4).unwrap();
    let driver = Driver::new(extent, 0, 3).unwrap();
    assert_eq!(driver.stage(), Stage::AwaitingContext);
    let driver = driver.handle(Event::AdapterMissing);
    assert_eq!(driver.stage(), Stage::Aborted);
    assert!(matches!(driver.directive(), Directive::Stop));
    assert!(matches!(driver.into_outcome(), Some(Err(RenderError::AdapterUnavailable))));
}

#[test]
fn refused_device_aborts_the_render() {
    let extent = Extent::new(4, 4).unwrap();
    let driver = Driver::new(extent, 0, 1).unwrap().handle(Event::DeviceRefused);
    assert_eq!(driver.stage(), Stage::Aborted);
    assert!(matches!(driver.into_single(), Some(Err(RenderError::DeviceRequestFailed))));
}

#[test]
fn rejected_shader_aborts_with_its_diagnostics() {
    let extent = Extent::new(4, 4).unwrap();
    let driver = Driver::new(extent, 0, 1).unwrap().handle(Event::ContextReady);
    assert_eq!(driver.stage(), Stage::AwaitingPipeline);
    assert!(matches!(driver.directive(), Directive::BuildPipeline(_)));
    let driver = driver.handle(Event::ShaderRejected(String::from("no entry point fs_main")));
    assert_eq!(driver.stage(), Stage::Aborted);
    match driver.into_outcome() {
        Some(Err(RenderError::ShaderCompileError(diagnostics))) => {
            assert_eq!(diagnostics, "no entry point fs_main");
        }
        other => panic!("unexpected outcome {:?}", other),
    }
}

#[test]
fn failure_on_a_later_frame_discards_the_earlier_frames() {
    let extent = Extent::new(4, 4).unwrap();
    let mut driver = Driver::new(extent, 0, 3).unwrap();
    driver = driver.handle(Event::ContextReady);
    driver = driver.handle(Event::PipelineReady);
    driver = driver.handle(Event::FrameRead(MapOutcome::Ready(vec![1u8; 1024])));
    assert_eq!(driver.frames_collected(), 1);
    assert_eq!(driver.stage(), Stage::AwaitingFrame);
    driver = driver.handle(Event::FrameRead(MapOutcome::TimedOut));
    assert_eq!(driver.stage(), Stage::Aborted);
    assert_eq!(driver.frames_collected(), 0);
    assert!(matches!(driver.into_outcome(), Some(Err(RenderError::BufferMapTimeout))));
}

#[test]
fn refused_frame_aborts_with_its_diagnostics() {
    let extent = Extent::new(4, 4).unwrap();
    let mut driver = Driver::new(extent, 0, 3).unwrap();
    driver = driver.handle(Event::ContextReady);
    driver = driver.handle(Event::PipelineReady);
    driver = driver.handle(Event::FrameRead(MapOutcome::Ready(vec![1u8; 1024])));
    driver = driver.handle(Event::FrameRefused(String::from("texture too large")));
    assert_eq!(driver.stage(), Stage::Aborted);
    assert_eq!(driver.frames_collected(), 0);
    match driver.into_outcome() {
        Some(Err(RenderError::FrameRejected(diagnostics))) => {
            assert_eq!(diagnostics, "texture too large");
        }
        other => panic!("unexpected outcome {:?}", other),
    }
}

#[test]
fn lost_device_aborts_the_render() {
    let extent = Extent::new(4, 4).unwrap();
    let mut driver = Driver::new(extent, 0, 2).unwrap();
    driver = driver.handle(Event::ContextReady);
    driver = driver.handle(Event::PipelineReady);
    driver = driver.handle(Event::FrameRead(MapOutcome::DeviceLost));
    assert!(matches!(driver.into_outcome(), Some(Err(RenderError::DeviceLost))));
}

#[test]
fn readback_of_wrong_length_aborts_the_render() {
    let extent = Extent::new(4, 4).unwrap();
    let mut driver = Driver::new(extent, 0, 1).unwrap();
    driver = driver.handle(Event::ContextReady);
    driver = driver.handle(Event::PipelineReady);
    driver = driver.handle(Event::FrameRead(MapOutcome::Ready(vec![0u8; 64])));
    assert!(matches!(driver.into_outcome(), Some(Err(RenderError::BufferSizeMismatch))));
}

#[test]
fn events_that_answer_nothing_are_ignored() {
    let extent = Extent::new(4, 4).unwrap();
    let mut driver = Driver::new(extent, 0, 1).unwrap();
    driver = driver.handle(Event::PipelineReady);
    assert_eq!(driver.stage(), Stage::AwaitingContext);
    driver = driver.handle(Event::FrameRead(MapOutcome::Ready(vec![0u8; 1024])));
    assert_eq!(driver.stage(), Stage::AwaitingContext);
    driver = driver.handle(Event::ShaderRejected(String::from("late")));
    assert_eq!(driver.stage(), Stage::AwaitingContext);
    driver = driver.handle(Event::FrameRefused(String::from("early")));
    assert_eq!(driver.stage(), Stage::AwaitingContext);
    driver = driver.handle(Event::ContextReady);
    driver = driver.handle(Event::ContextReady);
    driver = driver.handle(Event::AdapterMissing);
    assert_eq!(driver.stage(), Stage::AwaitingPipeline);
    driver = driver.handle(Event::PipelineReady);
    driver = driver.handle(Event::PipelineReady);
    driver = driver.handle(Event::DeviceRefused);
    assert_eq!(driver.stage(), Stage::AwaitingFrame);
    assert_eq!(driver.frames_collected(), 0);
}

#[test]
fn finished_render_ignores_further_events() {
    let extent = Extent::new(4, 4).unwrap();
    let driver = Driver::new(extent, 0, 1).unwrap();
    let (mut driver, _, _) = run_clean(driver, |_, _, _| [1, 2, 3, 255]);
    driver = driver.handle(Event::FrameRead(MapOutcome::TimedOut));
    driver = driver.handle(Event::AdapterMissing);
    assert_eq!(driver.stage(), Stage::Delivered);
    assert_eq!(driver.frames_collected(), 1);
    let aborted = Driver::new(extent, 0, 1).unwrap().handle(Event::AdapterMissing);
    let aborted = aborted.handle(Event::ContextReady);
    assert_eq!(aborted.stage(), Stage::Aborted);
    assert!(matches!(aborted.into_outcome(), Some(Err(RenderError::AdapterUnavailable))));
}

#[test]
fn unfinished_render_hands_over_nothing() {
    let extent = Extent::new(4, 4).unwrap();
    assert!(Driver::new(extent, 0, 1).unwrap().into_outcome().is_none());
    assert!(Driver::new(extent, 0, 1).unwrap().into_single().is_none());
    let waiting = Driver::new(extent, 0, 2)
        .unwrap()
        .handle(Event::ContextReady)
        .handle(Event::PipelineReady)
        .handle(Event::FrameRead(MapOutcome::Ready(vec![0u8; 1024])));
    assert_eq!(waiting.frames_collected(), 1);
    assert!(waiting.into_outcome().is_none());
}

#[test]
fn into_single_is_for_renders_of_one_frame() {
    let extent = Extent::new(4, 4).unwrap();
    let (two, _, _) = run_clean(Driver::new(extent, 0, 2).unwrap(), |_, _, _| [0, 0, 0, 255]);
    assert!(two.into_single().is_none());
    let none = Driver::new(extent, 0, 0).unwrap();
    assert!(none.into_single().is_none());
}

#[test]
fn frame_indices_must_fit_thirty_two_bits() {
    let extent = Extent::new(4, 4).unwrap();
    assert_eq!(FRAME_INDEX_LIMIT, 1u64 << 32);
    assert!(Driver::new(extent, u32::MAX, 1).is_ok());
    assert!(matches!(
        Driver::new(extent, u32::MAX, 2),
        Err(RenderError::FrameIndexOutOfRange)
    ));
    assert!(matches!(Driver::new(extent, 1, usize::MAX), Err(RenderError::FrameIndexOutOfRange)));
    assert!(Driver::new(extent, u32::MAX, 0).is_ok());
}

#[test]
fn driver_reports_its_extent() {
    let extent = Extent::new(7, 9).unwrap();
    let driver = Driver::new(extent, 0, 1).unwrap();
    assert_eq!(driver.extent().width(), 7);
    assert_eq!(driver.extent().height(), 9);
}
