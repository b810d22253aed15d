//! Selection of the output container from a file extension.

use vstd::prelude::*;
use crate::error::RenderError;

verus! {

/// The containers a render can be written to.
#[derive(Clone, Copy, Debug, PartialEq, Eq, Structural)]
pub enum OutputFormat {
    /// One lossless RGBA image.
    Png,
    /// An endlessly looping animation.
    Gif,
}

/// The container that an extension selects, if it selects one. Extensions are
/// matched exactly, in lower case and without the dot.
pub open spec fn format_for(extension: Seq<char>) -> Option<OutputFormat> {
    if extension == "png"@ {
        Some(OutputFormat::Png)
    } else if extension == "gif"@ {
        Some(OutputFormat::Gif)
    } else {
        None
    }
}

/// What `select_format` answers for an extension, or for a path without one.
pub open spec fn selection(extension: Option<Seq<char>>) -> Result<OutputFormat, RenderError> {
    match extension {
        Some(e) => match format_for(e) {
            Some(format) => Ok(format),
            None => Err(RenderError::UnsupportedOutputFormat),
        },
        None => Err(RenderError::UnsupportedOutputFormat),
    }
}

/// Chooses the output container before any device work is planned. A path
/// without an extension, or with one other than `png` and `gif`, is refused.
pub fn select_format(extension: Option<&str>) -> (r: Result<OutputFormat, RenderError>)
    ensures
        r == selection(
            match extension {
                Some(e) => Some(e@),
                None => None,
            },
        ),
{
    match extension {
        Some(e) => {
            let given: String = e.to_owned();
            let png: String = "png".to_owned();
            let gif: String = "gif".to_owned();
            if given == png {
                Ok(OutputFormat::Png)
            } else if given == gif {
                Ok(OutputFormat::Gif)
            } else {
                Err(RenderError::UnsupportedOutputFormat)
            }
        },
        None => Err(RenderError::UnsupportedOutputFormat),
    }
}

} // verus!
