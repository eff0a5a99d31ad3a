use crate::error::Error;
use vstd::prelude::*;
use vstd::std_specs::iter::IteratorSpec;

verus! {

/// A pixel position on the integer grid.
#[derive(Clone, Copy, Debug, PartialEq, Eq, Structural)]
pub struct Point {
    pub x: i32,
    pub y: i32,
}

/// A pixel bounding box, by its two corners as the font engine reports them.
#[derive(Clone, Copy, Debug, PartialEq, Eq, Structural)]
pub struct BoundingBox {
    pub min: Point,
    pub max: Point,
}

/// The sub-pixel metric offset of a glyph (left-side bearing, ascent), each
/// coordinate kept as the bit pattern of its single-precision value, so that
/// it travels through the layout unchanged to the last bit.
#[derive(Clone, Copy, Debug, PartialEq, Eq, Structural)]
pub struct Offset {
    pub x: u32,
    pub y: u32,
}

/// What the font engine reports of one character at its first position.
#[derive(Clone, Copy, Debug, PartialEq, Eq, Structural)]
pub struct Measurement {
    /// The pixel bounding box; `None` where the outline covers no pixel.
    pub bounds: Option<BoundingBox>,
    pub offset: Offset,
}

/// One character of the strip.
#[derive(Clone, Copy, Debug, PartialEq, Eq, Structural)]
pub struct Glyph {
    /// The handle of the glyph's outline in the font engine's store; `None`
    /// once the outline has been given away.
    pub outline: Option<usize>,
    pub codepoint: char,
    pub min: Point,
    pub max: Point,
    pub offset: Offset,
}

/// The glyph that character `c`, the `index`-th of its text, makes with the
/// bounding box `bounds` and the offset `offset`.
pub open spec fn measured_glyph(index: int, c: char, bounds: BoundingBox, offset: Offset) -> Glyph {
    Glyph {
        outline: Some(index as usize),
        codepoint: c,
        min: bounds.min,
        max: bounds.max,
        offset,
    }
}

/// The glyphs of the characters of `text`, in the order of `text`, each with
/// what `measured` holds for it.
pub open spec fn measured_glyphs(text: Seq<char>, measured: Seq<Measurement>) -> Seq<Glyph> {
    Seq::new(
        text.len(),
        |i: int| measured_glyph(i, text[i], measured[i].bounds->0, measured[i].offset),
    )
}

/// The characters that `glyphs` stand for, in their order.
pub open spec fn codepoints(glyphs: Seq<Glyph>) -> Seq<char> {
    Seq::new(glyphs.len(), |i: int| glyphs[i].codepoint)
}

/// The bounding box that `glyph` holds.
pub open spec fn bounds_of(glyph: Glyph) -> BoundingBox {
    BoundingBox { min: glyph.min, max: glyph.max }
}

/// The bounding boxes that `glyphs` hold, in their order.
pub open spec fn boxes(glyphs: Seq<Glyph>) -> Seq<BoundingBox> {
    Seq::new(glyphs.len(), |i: int| bounds_of(glyphs[i]))
}

/// Builds the glyph of `measured_glyph`.
fn make_glyph(index: usize, c: char, bounds: BoundingBox, offset: Offset) -> (glyph: Glyph)
    ensures
        glyph == measured_glyph(index as int, c, bounds, offset),
{
    Glyph { outline: Some(index), codepoint: c, min: bounds.min, max: bounds.max, offset }
}

/// Whether `measured` holds a bounding box for every character of `text`:
/// a report that is missing counts as one without a box.
pub open spec fn all_measured(text: Seq<char>, measured: Seq<Measurement>) -> bool {
    forall|i: int|
        0 <= i < text.len() ==> i < measured.len() && (#[trigger] measured[i]).bounds is Some
}

/// Makes the glyphs of `char_string`, one for each character and in the order
/// of the characters, from what the font engine reports of each: `measured`
/// holds the report for the `i`-th character at index `i`. The glyph of the
/// `i`-th character gets the outline handle `i`.
///
/// One character without a bounding box fails the whole text, and so does one
/// without a report. Reports beyond the last character are not read.
pub fn get_glyphs_from_str(char_string: &str, measured: &Vec<Measurement>) -> (result: Result<
    Vec<Glyph>,
    Error,
>)
    ensures
        result is Ok <==> all_measured(char_string@, measured@),
        result matches Err(e) ==> e == Error::BoundingBoxError,
        result matches Ok(glyphs) ==> glyphs@ == measured_glyphs(char_string@, measured@)
            && codepoints(glyphs@) == char_string@,
{
    broadcast use vstd::string::group_string_axioms;

    let mut glyphs: Vec<Glyph> = Vec::new();
    let mut chars = char_string.chars();
    loop
        invariant
            glyphs@.len() <= char_string@.len(),
            chars.remaining() == char_string@.skip(glyphs@.len() as int),
            glyphs@.len() <= measured@.len(),
            forall|i: int| 0 <= i < glyphs@.len() ==> (#[trigger] measured@[i]).bounds is Some,
            glyphs@ == measured_glyphs(
                char_string@.take(glyphs@.len() as int),
                measured@.take(glyphs@.len() as int),
            ),
        ensures
            glyphs@.len() == char_string@.len(),
            all_measured(char_string@, measured@),
            glyphs@ == measured_glyphs(
                char_string@.take(glyphs@.len() as int),
                measured@.take(glyphs@.len() as int),
            ),
        decreases char_string@.len() - glyphs@.len(),
    {
        let index: usize = glyphs.len();
        let ghost before = chars;
        let next = chars.next();
        assert(vstd::string::next_post(&before, &chars, next));
        assert(index < char_string@.len() ==> char_string@.skip(index as int).drop_first()
            =~= char_string@.skip(index + 1));
        match next {
            None => {
                break ;
            },
            Some(c) => {
                if index >= measured.len() {
                    return Err(Error::BoundingBoxError);
                }
                let m = measured[index];
                match m.bounds {
                    None => {
                        return Err(Error::BoundingBoxError);
                    },
                    Some(bounds) => {
                        glyphs.push(make_glyph(index, c, bounds, m.offset));
                        assert(glyphs@ =~= measured_glyphs(
                            char_string@.take(index + 1),
                            measured@.take(index + 1),
                        ));
                    },
                }
            },
        }
    }
    assert(char_string@.take(glyphs@.len() as int) =~= char_string@);
    assert(glyphs@ =~= measured_glyphs(char_string@, measured@));
    assert(codepoints(glyphs@) =~= char_string@);
    Ok(glyphs)
}

} // verus!
