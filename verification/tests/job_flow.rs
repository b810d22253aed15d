use shard::driver::{Directive, Driver, Event, Stage};
use shard::error::RenderError;
use shard::job::{encode, prepare};
use shard::output::OutputFormat;
use shard::readback::MapOutcome;

fn run_with_color(mut driver: Driver, color: impl Fn(u32) -> [u8; 4]) -> Driver {
    loop {
        match driver.directive() {
            Directive::AcquireContext(_) => driver = driver.handle(Event::ContextReady),
            Directive::BuildPipeline(_) => driver = driver.handle(Event::PipelineReady),
            Directive::RenderFrame(plan) => {
                let stride = plan.copy.bytes_per_row as usize;
                let mut staged = vec![0u8; plan.staging.bytes as usize];
                for row in 0..plan.target.height as usize {
                    for col in 0..plan.target.width as usize {
                        let at = row * stride + col * 4;
                        staged[at..at + 4].copy_from_slice(&color(plan.uniforms.frame_index));
                    }
                }
                driver = driver.handle(Event::FrameRead(MapOutcome::Ready(staged)));
            }
            Directive::Stop => return driver,
        }
    }
}

#[test]
fn bmp_output_is_refused_before_anything_is_planned() {
    assert!(matches!(
        prepare(Some("bmp"), (512, 512), 60),
        Err(RenderError::UnsupportedOutputFormat)
    ));
}

#[test]
fn unsupported_output_is_reported_before_invalid_dimensions() {
    assert!(matches!(prepare(Some("bmp"), (0, 0), 60), Err(RenderError::UnsupportedOutputFormat)));
    assert!(matches!(prepare(None, (0, 0), 60), Err(RenderError::UnsupportedOutputFormat)));
}

#[test]
fn zero_dimensions_are_refused_for_both_containers() {
    assert!(matches!(prepare(Some("png"), (0, 512), 60), Err(RenderError::InvalidDimensions)));
    assert!(matches!(prepare(Some("png"), (512, 0), 60), Err(RenderError::InvalidDimensions)));
    assert!(matches!(prepare(Some("gif"), (0, 512), 60), Err(RenderError::InvalidDimensions)));
    assert!(matches!(prepare(Some("gif"), (512, 0), 60), Err(RenderError::InvalidDimensions)));
}

#[test]
fn targets_beyond_the_device_limits_are_refused() {
    assert!(matches!(prepare(Some("gif"), (2049, 1), 2), Err(RenderError::InvalidDimensions)));
    assert!(matches!(prepare(Some("gif"), (1, 2049), 2), Err(RenderError::InvalidDimensions)));
    assert!(matches!(prepare(Some("png"), (2049, 1), 2), Err(RenderError::InvalidDimensions)));
    assert!(matches!(prepare(Some("png"), (1, 65536), 2), Err(RenderError::InvalidDimensions)));
    assert!(prepare(Some("png"), (2048, 2048), 2).is_ok());
    assert!(prepare(Some("gif"), (2048, 2048), 2).is_ok());
}

#[test]
fn animation_frame_count_must_fit_the_frame_index() {
    assert!(matches!(
        prepare(Some("gif"), (4, 4), usize::MAX),
        Err(RenderError::FrameIndexOutOfRange)
    ));
    assert!(prepare(Some("png"), (4, 4), usize::MAX).is_ok());
}

#[test]
fn image_invocation_renders_one_frame() {
    let (format, driver) = prepare(Some("png"), (512, 512), 60).unwrap();
    assert_eq!(format, OutputFormat::Png);
    assert_eq!(driver.frame_count(), 1);
    assert_eq!(driver.stage(), Stage::AwaitingContext);
    assert_eq!(driver.extent().width(), 512);
    assert_eq!(driver.extent().height(), 512);
}

#[test]
fn animation_invocation_renders_the_requested_frames() {
    let (format, driver) = prepare(Some("gif"), (64, 32), 60).unwrap();
    assert_eq!(format, OutputFormat::Gif);
    assert_eq!(driver.frame_count(), 60);
    assert_eq!(driver.extent().width(), 64);
    assert_eq!(driver.extent().height(), 32);
}

#[test]
fn image_invocation_ends_in_a_png_stream() {
    let (format, driver) = prepare(Some("png"), (4, 4), 60).unwrap();
    let driver = run_with_color(driver, |_| [255, 0, 0, 255]);
    let stream = encode(format, driver).unwrap().unwrap();
    let decoder = png::Decoder::new(&stream[..]);
    let mut reader = decoder.read_info().unwrap();
    let mut buffer = vec![0u8; reader.output_buffer_size()];
    let info = reader.next_frame(&mut buffer).unwrap();
    assert_eq!((info.width, info.height), (4, 4));
    assert_eq!(info.buffer_size(), 64);
    assert!(buffer[..64].chunks(4).all(|p| p == [255, 0, 0, 255]));
}

#[test]
fn animation_invocation_ends_in_a_gif_stream() {
    let (format, driver) = prepare(Some("gif"), (4, 4), 3).unwrap();
    let driver = run_with_color(driver, |frame| [(frame * 100) as u8, 0, 0, 255]);
    let stream = encode(format, driver).unwrap().unwrap();
    let mut options = gif::DecodeOptions::new();
    options.set_color_output(gif::ColorOutput::RGBA);
    let mut decoder = options.read_info(&stream[..]).unwrap();
    let mut frames = Vec::new();
    while let Some(frame) = decoder.read_next_frame().unwrap() {
        frames.push(frame.buffer.to_vec());
    }
    assert_eq!(frames.len(), 3);
    for (i, frame) in frames.iter().enumerate() {
        assert!(frame.chunks(4).all(|p| p == [(i * 100) as u8, 0, 0, 255]));
    }
}

#[test]
fn failed_render_is_not_encoded() {
    let (format, driver) = prepare(Some("png"), (4, 4), 1).unwrap();
    let driver = driver.handle(Event::AdapterMissing);
    assert!(matches!(encode(format, driver), Some(Err(RenderError::AdapterUnavailable))));
    let (format, driver) = prepare(Some("gif"), (4, 4), 2).unwrap();
    let driver = driver
        .handle(Event::ContextReady)
        .handle(Event::ShaderRejected(String::from("syntax error")));
    assert!(matches!(encode(format, driver), Some(Err(RenderError::ShaderCompileError(_)))));
}

#[test]
fn unfinished_render_is_not_encoded() {
    let (format, driver) = prepare(Some("png"), (4, 4), 1).unwrap();
    assert!(encode(format, driver).is_none());
    let (format, driver) = prepare(Some("gif"), (4, 4), 2).unwrap();
    assert!(encode(format, driver.handle(Event::ContextReady)).is_none());
}

#[test]
fn image_container_takes_exactly_one_frame() {
    let (_, driver) = prepare(Some("gif"), (4, 4), 2).unwrap();
    let driver = run_with_color(driver, |_| [0, 0, 0, 255]);
    assert!(encode(OutputFormat::Png, driver).is_none());
}

#[test]
fn animation_of_no_frames_is_an_empty_stream() {
    let (format, driver) = prepare(Some("gif"), (4, 4), 0).unwrap();
    assert!(matches!(driver.directive(), Directive::Stop));
    let stream = encode(format, driver).unwrap().unwrap();
    assert_eq!(stream.len(), 39);
}
