use crate::glyph::{Glyph, Offset, Point};
use crate::text::same_text;
use vstd::prelude::*;

verus! {

/// The forms in which the metadata of a strip can be written.
#[derive(Clone, Copy, Debug, PartialEq, Eq, Structural)]
pub enum MetaFormat {
    Default,
}

impl MetaFormat {
    /// The form that goes by `name`, if there is one.
    pub open spec fn named(name: Seq<char>) -> Option<MetaFormat> {
        if name == "Default"@ {
            Some(MetaFormat::Default)
        } else {
            None
        }
    }

    /// Finds a form by its name. A name that no form goes by is an error.
    pub fn from_str(meta_format: &str) -> (result: Result<MetaFormat, &'static str>)
        ensures
            result matches Ok(format) ==> MetaFormat::named(meta_format@) == Some(format),
            result matches Err(message) ==> MetaFormat::named(meta_format@) is None
                && message@ == "Invalid metadata format!"@,
    {
        if same_text(meta_format, "Default") {
            Ok(MetaFormat::Default)
        } else {
            Err("Invalid metadata format!")
        }
    }
}

impl std::str::FromStr for MetaFormat {
    type Err = &'static str;

    /// Finds a form by its name, as the inherent `from_str` does.
    fn from_str(meta_format: &str) -> (result: Result<MetaFormat, &'static str>)
        ensures
            result matches Ok(format) ==> MetaFormat::named(meta_format@) == Some(format),
            result matches Err(message) ==> MetaFormat::named(meta_format@) is None
                && message@ == "Invalid metadata format!"@,
    {
        MetaFormat::from_str(meta_format)
    }
}

/// A pair of coordinates as the metadata holds it.
#[derive(Clone, Copy, Debug, PartialEq, Eq, Structural)]
pub struct SerdePoint<N> {
    pub x: N,
    pub y: N,
}

impl From<Point> for SerdePoint<i32> {
    fn from(p: Point) -> (point: SerdePoint<i32>) {
        SerdePoint { x: p.x, y: p.y }
    }
}

impl vstd::std_specs::convert::FromSpecImpl<Point> for SerdePoint<i32> {
    open spec fn obeys_from_spec() -> bool {
        true
    }

    open spec fn from_spec(p: Point) -> SerdePoint<i32> {
        SerdePoint { x: p.x, y: p.y }
    }
}

impl From<Offset> for SerdePoint<u32> {
    fn from(p: Offset) -> (point: SerdePoint<u32>) {
        SerdePoint { x: p.x, y: p.y }
    }
}

impl vstd::std_specs::convert::FromSpecImpl<Offset> for SerdePoint<u32> {
    open spec fn obeys_from_spec() -> bool {
        true
    }

    open spec fn from_spec(p: Offset) -> SerdePoint<u32> {
        SerdePoint { x: p.x, y: p.y }
    }
}

/// What the metadata says of one glyph: its character, its bounding box in
/// the strip, and its metric offset (in the bit patterns of `Offset`).
#[derive(Clone, Copy, Debug, PartialEq, Eq, Structural)]
pub struct DefaultMetaGlyph {
    pub codepoint: char,
    pub min: SerdePoint<i32>,
    pub max: SerdePoint<i32>,
    pub offset: SerdePoint<u32>,
}

/// The metadata entry of `glyph`.
pub open spec fn meta_glyph(glyph: Glyph) -> DefaultMetaGlyph {
    DefaultMetaGlyph {
        codepoint: glyph.codepoint,
        min: SerdePoint { x: glyph.min.x, y: glyph.min.y },
        max: SerdePoint { x: glyph.max.x, y: glyph.max.y },
        offset: SerdePoint { x: glyph.offset.x, y: glyph.offset.y },
    }
}

impl From<&Glyph> for DefaultMetaGlyph {
    fn from(glyph: &Glyph) -> (entry: DefaultMetaGlyph) {
        DefaultMetaGlyph {
            codepoint: glyph.codepoint,
            min: glyph.min.into(),
            max: glyph.max.into(),
            offset: glyph.offset.into(),
        }
    }
}

impl vstd::std_specs::convert::FromSpecImpl<&Glyph> for DefaultMetaGlyph {
    open spec fn obeys_from_spec() -> bool {
        true
    }

    open spec fn from_spec(glyph: &Glyph) -> DefaultMetaGlyph {
        meta_glyph(*glyph)
    }
}

/// The metadata of a strip: one entry for each glyph, in the order of the
/// glyphs.
#[derive(Clone, Debug)]
pub struct DefaultMetaObject {
    pub glyphs: Vec<DefaultMetaGlyph>,
}

/// The metadata entries of `glyphs`, in their order.
pub open spec fn meta_glyphs(glyphs: Seq<Glyph>) -> Seq<DefaultMetaGlyph> {
    Seq::new(glyphs.len(), |i: int| meta_glyph(glyphs[i]))
}

/// Makes the metadata of `glyphs` in the default form.
pub fn make_default(glyphs: &Vec<Glyph>) -> (obj: DefaultMetaObject)
    ensures
        obj.glyphs@ == meta_glyphs(glyphs@),
{
    let mut obj = DefaultMetaObject { glyphs: Vec::new() };
    let mut i: usize = 0;
    while i < glyphs.len()
        invariant
            i <= glyphs@.len(),
            obj.glyphs@ == meta_glyphs(glyphs@.take(i as int)),
        decreases glyphs@.len() - i,
    {
        obj.glyphs.push(DefaultMetaGlyph::from(&glyphs[i]));
        assert(obj.glyphs@ =~= meta_glyphs(glyphs@.take(i + 1)));
        i = i + 1;
    }
    assert(glyphs@.take(i as int) =~= glyphs@);
    obj
}

/// Makes the metadata of `glyphs` in the form `fmt`.
pub fn create_meta_file(fmt: &MetaFormat, glyphs: &Vec<Glyph>) -> (obj: DefaultMetaObject)
    ensures
        obj.glyphs@ == meta_glyphs(glyphs@),
{
    match fmt {
        MetaFormat::Default => make_default(glyphs),
    }
}

} // verus!
