//! The kinds of image that a run can be saved as.

use vstd::prelude::*;
use crate::text::same_text;

verus! {

/// How an image is written to a file.
#[derive(Clone, Copy, Debug, PartialEq, Eq, Structural)]
pub enum ImageFormat {
    /// As vector graphics.
    Svg,
    /// As a raster of pixels.
    Png,
}

/// The format that a file name's extension asks for. Case counts, and a
/// name without an extension asks for none.
pub open spec fn format_of(extension: Option<Seq<char>>) -> Option<ImageFormat> {
    match extension {
        Some(text) => if text == "svg"@ {
            Some(ImageFormat::Svg)
        } else if text == "png"@ {
            Some(ImageFormat::Png)
        } else {
            None
        },
        None => None,
    }
}

/// The extension as the characters it holds.
pub open spec fn extension_text(extension: Option<&str>) -> Option<Seq<char>> {
    match extension {
        Some(text) => Some(text@),
        None => None,
    }
}

/// The format that a file name's extension asks for, if it is one that an
/// image can be saved as.
pub fn image_format(extension: Option<&str>) -> (r: Option<ImageFormat>)
    ensures
        r == format_of(extension_text(extension)),
{
    match extension {
        Some(text) => if same_text(text, "svg") {
            Some(ImageFormat::Svg)
        } else if same_text(text, "png") {
            Some(ImageFormat::Png)
        } else {
            None
        },
        None => None,
    }
}

} // verus!
