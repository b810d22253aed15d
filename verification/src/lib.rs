//! Verified core of an offscreen fragment-shader renderer.
//!
//! A render draws one full-screen primitive with a caller-supplied fragment
//! stage into an RGBA8 target and reads the target back into host memory,
//! once for an image, once per frame for an animation. The device itself is
//! driven from outside this crate. Everything that is decided on the host
//! lives here, with a contract:
//!
//! - `output`: which container an output path selects;
//! - `device`: which limits the device is opened with;
//! - `layout`: which targets are accepted, and how targets, staging buffers
//!   and pixel buffers are laid out;
//! - `uniform`: what the fragment stage is shown, byte for byte;
//! - `plan`: what the device is asked to build and to draw;
//! - `readback`: how the bytes that come back become a pixel buffer;
//! - `driver`: in which order the device is asked to work, and what a render
//!   comes to;
//! - `image`, `animation`: the requests for one frame and for a sequence,
//!   and the encoding of what was rendered as PNG and GIF;
//! - `job`: one invocation from the output path to the encoded stream;
//! - `error`: the kinds of failure.

pub mod animation;
pub mod device;
pub mod driver;
pub mod error;
pub mod image;
pub mod job;
pub mod layout;
pub mod output;
pub mod plan;
pub mod readback;
pub mod uniform;
