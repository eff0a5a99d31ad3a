//! Packs the glyphs of a set of characters into one grayscale strip, left to
//! right and without gaps, and keeps for each glyph where it landed.
//!
//! The font engine stays outside: the library is told what the engine
//! measures and rasterises, as plain values, and decides where every glyph
//! goes, how large the strip becomes and where every pixel is written.

use vstd::prelude::*;
use vstd::string::StringExecFns;

pub mod bitmap;
pub mod char_sets;
pub mod error;
pub mod glyph;
pub mod layout;
pub mod meta;
pub mod packing;
pub mod text;

pub use bitmap::Bitmap;
pub use char_sets::CharSets;
pub use error::Error;
pub use glyph::Glyph;
pub use meta::MetaFormat;

use bitmap::empty_canvas;
use glyph::{all_measured, get_glyphs_from_str, measured_glyphs, Measurement};
use layout::Layout;
use text::same_text;

verus! {

/// A finished layout: the strip, and its glyphs in the order of the text, each
/// with its place in the strip.
#[derive(Debug)]
pub struct RenderResult {
    pub bitmap: Bitmap,
    pub glyphs: Vec<Glyph>,
}

/// Starts the layout of the characters of `char_set` into one strip, from what
/// the font engine reports of each character at its first position
/// (`measured`, as for `get_glyphs_from_str`). One character without a
/// bounding box fails the whole set.
///
/// The layout that comes back has every glyph still to pack and to render:
/// the caller does, step by step, what `Layout::next` tells, and takes the
/// strip and the glyphs with `Layout::finish`.
pub fn layout_and_render(char_set: CharSets, measured: &Vec<Measurement>) -> (result: Result<
    Layout,
    Error,
>)
    ensures
        result is Ok <==> all_measured(char_set.text()@, measured@),
        result matches Err(e) ==> e == Error::BoundingBoxError,
        result matches Ok(layout) ==> {
            &&& layout.glyphs() == measured_glyphs(char_set.text()@, measured@)
            &&& layout.placed() == Seq::<Glyph>::empty()
            &&& layout.rendered() == 0
            &&& layout.canvas() == empty_canvas()
        },
{
    let char_string: &'static str = char_set.into();
    match get_glyphs_from_str(char_string, measured) {
        Ok(glyphs) => Ok(Layout::new(glyphs)),
        Err(e) => Err(e),
    }
}

/// The containers in which the strip can be written as an image.
#[derive(Clone, Copy, Debug, PartialEq, Eq, Structural)]
pub enum ImageFormat {
    PNG,
    BMP,
    TIFF,
    JPEG,
    ICO,
}

impl ImageFormat {
    /// The container that goes by `name`, if there is one.
    pub open spec fn named(name: Seq<char>) -> Option<ImageFormat> {
        if name == "PNG"@ {
            Some(ImageFormat::PNG)
        } else if name == "BMP"@ {
            Some(ImageFormat::BMP)
        } else if name == "TIFF"@ {
            Some(ImageFormat::TIFF)
        } else if name == "JPEG"@ {
            Some(ImageFormat::JPEG)
        } else if name == "ICO"@ {
            Some(ImageFormat::ICO)
        } else {
            None
        }
    }

    /// The ending of the name of a file in this container.
    pub open spec fn extension(self) -> &'static str {
        match self {
            ImageFormat::PNG => ".png",
            ImageFormat::BMP => ".bmp",
            ImageFormat::TIFF => ".tiff",
            ImageFormat::JPEG => ".jpg",
            ImageFormat::ICO => ".ico",
        }
    }

    /// Finds a container by its name. A name that no container goes by is an
    /// error.
    pub fn from_str(image_format: &str) -> (result: Result<ImageFormat, &'static str>)
        ensures
            result matches Ok(format) ==> ImageFormat::named(image_format@) == Some(format),
            result matches Err(message) ==> ImageFormat::named(image_format@) is None
                && message@ == "Invalid image format!"@,
    {
        if same_text(image_format, "PNG") {
            Ok(ImageFormat::PNG)
        } else if same_text(image_format, "BMP") {
            Ok(ImageFormat::BMP)
        } else if same_text(image_format, "TIFF") {
            Ok(ImageFormat::TIFF)
        } else if same_text(image_format, "JPEG") {
            Ok(ImageFormat::JPEG)
        } else if same_text(image_format, "ICO") {
            Ok(ImageFormat::ICO)
        } else {
            Err("Invalid image format!")
        }
    }
}

impl std::str::FromStr for ImageFormat {
    type Err = &'static str;

    /// Finds a container by its name, as the inherent `from_str` does.
    fn from_str(image_format: &str) -> (result: Result<ImageFormat, &'static str>)
        ensures
            result matches Ok(format) ==> ImageFormat::named(image_format@) == Some(format),
            result matches Err(message) ==> ImageFormat::named(image_format@) is None
                && message@ == "Invalid image format!"@,
    {
        ImageFormat::from_str(image_format)
    }
}

impl MetaFormat {
    /// The ending of the name of a metadata file in this form.
    pub open spec fn extension(self) -> &'static str {
        match self {
            MetaFormat::Default => ".json",
        }
    }
}

/// The name of the image file: the directory `path`, the base name `name` and
/// the ending of the container, one after the other.
pub fn make_image_output_path(image_format: &ImageFormat, name: &str, path: &str) -> (file: String)
    ensures
        file@ == path@ + name@ + image_format.extension()@,
{
    let ext = match image_format {
        ImageFormat::PNG => ".png",
        ImageFormat::BMP => ".bmp",
        ImageFormat::TIFF => ".tiff",
        ImageFormat::JPEG => ".jpg",
        ImageFormat::ICO => ".ico",
    };
    String::from_str(path).concat(name).concat(ext)
}

/// The name of the metadata file: the directory `path`, the base name `name`
/// and the ending of the form, one after the other.
pub fn make_metadata_output_path(meta_format: &MetaFormat, name: &str, path: &str) -> (file: String)
    ensures
        file@ == path@ + name@ + meta_format.extension()@,
{
    let ext = match meta_format {
        MetaFormat::Default => ".json",
    };
    String::from_str(path).concat(name).concat(ext)
}

} // verus!
