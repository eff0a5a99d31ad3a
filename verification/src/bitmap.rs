use crate::error::Error;
use crate::glyph::{BoundingBox, Glyph};
use vstd::prelude::*;

verus! {

/// The strip: one byte of intensity per pixel, row after row.
#[derive(Clone, Debug)]
pub struct Bitmap {
    pub data: Vec<u8>,
    pub width: usize,
    pub height: usize,
}

/// A strip as a mathematical value.
pub struct Canvas {
    pub width: int,
    pub height: int,
    pub data: Seq<u8>,
}

impl View for Bitmap {
    type V = Canvas;

    open spec fn view(&self) -> Canvas {
        Canvas { width: self.width as int, height: self.height as int, data: self.data@ }
    }
}

impl Canvas {
    /// Whether the buffer holds a byte for every pixel of the strip. It may
    /// hold more.
    pub open spec fn well_formed(self) -> bool {
        &&& 0 <= self.width
        &&& 0 <= self.height
        &&& pixel_count(self.width, self.height) <= self.data.len()
    }
}

impl Default for Bitmap {
    fn default() -> (bmp: Bitmap)
        ensures
            bmp@ == empty_canvas(),
            bmp@.well_formed(),
    {
        Bitmap { data: Vec::new(), width: 0, height: 0 }
    }
}

/// One pixel of a glyph as the font engine rasterises it: a position relative
/// to the corner `min` of the glyph's bounding box, and an intensity.
#[derive(Clone, Copy, Debug, PartialEq, Eq, Structural)]
pub struct Sample {
    pub x: u32,
    pub y: u32,
    pub value: u8,
}

/// The strip before any glyph is packed: no pixel at all.
pub open spec fn empty_canvas() -> Canvas {
    Canvas { width: 0, height: 0, data: Seq::empty() }
}

/// `data`, with zero bytes appended until it holds `len` bytes; unchanged where
/// it holds that many already.
pub open spec fn grown(data: Seq<u8>, len: int) -> Seq<u8> {
    if data.len() < len {
        data + Seq::new((len - data.len()) as nat, |i: int| 0u8)
    } else {
        data
    }
}

/// The strip after a glyph with bounding box `placed` has been packed into
/// `canvas`: the strip ends one pixel past the glyph's right edge, is as high
/// as the lowest point of any glyph so far, and its buffer has grown by zero
/// bytes to hold that many pixels.
pub open spec fn packed(canvas: Canvas, placed: BoundingBox) -> Canvas {
    let width = placed.max.x + 1;
    let height = if canvas.height < placed.max.y {
        placed.max.y as int
    } else {
        canvas.height
    };
    Canvas { width, height, data: grown(canvas.data, pixel_count(width, height)) }
}

/// The number of pixels of a strip `width` wide and `height` high.
pub open spec fn pixel_count(width: int, height: int) -> int {
    width * height
}

/// Whether packing a glyph with bounding box `placed` into `canvas` stays
/// within what the machine can address: the box does not end left of or above
/// the origin, and the pixel count of the new strip fits a `usize`.
pub open spec fn packable(canvas: Canvas, placed: BoundingBox) -> bool {
    &&& 0 <= placed.max.x
    &&& 0 <= placed.max.y
    &&& pixel_count(packed(canvas, placed).width, packed(canvas, placed).height) <= usize::MAX
}

/// `glyph` at the place where the font engine reports it after a move.
pub open spec fn repositioned(glyph: Glyph, placed: BoundingBox) -> Glyph {
    Glyph { min: placed.min, max: placed.max, ..glyph }
}

/// Takes over the bounding box that the font engine reports for a glyph after
/// its outline was moved. `moved` is that report: `None` where the engine
/// finds no pixel covered.
pub fn update_glyph_pos(glyph: Glyph, moved: Option<BoundingBox>) -> (result: Result<Glyph, Error>)
    ensures
        result is Ok <==> glyph.outline is Some && moved is Some,
        result matches Err(e) ==> e == Error::BoundingBoxError,
        result matches Ok(g) ==> g == repositioned(glyph, moved->0),
{
    if glyph.outline.is_none() {
        return Err(Error::BoundingBoxError);
    }
    match moved {
        None => Err(Error::BoundingBoxError),
        Some(placed) => {
            let mut glyph = glyph;
            glyph.min = placed.min;
            glyph.max = placed.max;
            Ok(glyph)
        },
    }
}

/// Tells whether `resize_bitmap` may be called with this report on this strip.
pub fn can_resize(moved: Option<BoundingBox>, bmp: &Bitmap) -> (ok: bool)
    ensures
        ok == (moved matches Some(placed) ==> packable(bmp@, placed)),
{
    match moved {
        None => true,
        Some(placed) => {
            if placed.max.x < 0 || placed.max.y < 0 {
                return false;
            }
            let width: u128 = placed.max.x as u128 + 1;
            let glyph_height: u128 = placed.max.y as u128;
            let height: u128 = if (bmp.height as u128) < glyph_height {
                glyph_height
            } else {
                bmp.height as u128
            };
            assert(width * height <= 0x1_0000_0000 * 0x1_0000_0000_0000_0000) by (nonlinear_arith)
                requires
                    0 <= width <= 0x1_0000_0000,
                    0 <= height <= 0x1_0000_0000_0000_0000,
            ;
            width * height <= usize::MAX as u128
        },
    }
}

/// Packs one glyph: the glyph goes immediately right of all that was packed
/// before, and the strip grows to hold it.
///
/// The caller has moved the glyph's outline right by the strip's width as it
/// is before the call, and `moved` is the pixel bounding box that the font
/// engine reports after that move (`None` where it reports none).
pub fn resize_bitmap(glyph: Glyph, moved: Option<BoundingBox>, bmp: &mut Bitmap) -> (result: Result<
    Glyph,
    Error,
>)
    requires
        glyph.outline is Some && moved is Some ==> packable(old(bmp)@, moved->0),
    ensures
        result is Ok <==> glyph.outline is Some && moved is Some,
        result matches Err(e) ==> e == Error::BoundingBoxError && *final(bmp) == *old(bmp),
        result matches Ok(g) ==> g == repositioned(glyph, moved->0) && final(bmp)@ == packed(
            old(bmp)@,
            moved->0,
        ),
        result is Ok ==> final(bmp)@.well_formed(),
{
    let glyph = match update_glyph_pos(glyph, moved) {
        Ok(glyph) => glyph,
        Err(e) => {
            return Err(e);
        },
    };
    let glyph_height: usize = glyph.max.y as usize;
    if bmp.height < glyph_height {
        bmp.height = glyph_height;
    }
    let pos_max: usize = glyph.max.x as usize;
    bmp.width = pos_max + 1;
    let new_len: usize = bmp.width * bmp.height;
    if bmp.data.len() < new_len {
        let ghost before = bmp.data@;
        bmp.data.resize(new_len, 0);
        assert(bmp.data@ =~= grown(before, new_len as int));
    }
    Ok(glyph)
}

/// The column of the strip that `sample` of a glyph with bounding box
/// `bounds` falls on.
pub open spec fn pixel_x(bounds: BoundingBox, sample: Sample) -> int {
    sample.x + bounds.min.x
}

/// The row of the strip that `sample` of a glyph with bounding box `bounds`
/// falls on.
pub open spec fn pixel_y(bounds: BoundingBox, sample: Sample) -> int {
    sample.y + bounds.min.y
}

/// The place in the buffer of a strip `width` pixels wide where `sample` of a
/// glyph with bounding box `bounds` is written.
pub open spec fn pixel_index(width: int, bounds: BoundingBox, sample: Sample) -> int {
    pixel_x(bounds, sample) + pixel_y(bounds, sample) * width
}

/// Whether `sample` of a glyph with bounding box `bounds` has a place in the
/// buffer of `canvas`.
pub open spec fn addressable(canvas: Canvas, bounds: BoundingBox, sample: Sample) -> bool {
    &&& 0 <= pixel_x(bounds, sample)
    &&& 0 <= pixel_y(bounds, sample)
    &&& 0 <= pixel_index(canvas.width, bounds, sample) < canvas.data.len()
}

/// Whether every one of `coverage` has a place in the buffer of `canvas`.
pub open spec fn drawable(canvas: Canvas, bounds: BoundingBox, coverage: Seq<Sample>) -> bool {
    forall|i: int| 0 <= i < coverage.len() ==> addressable(canvas, bounds, #[trigger] coverage[i])
}

/// The buffer after the samples of `coverage` have been written into `data`,
/// one after the other: a later sample overwrites an earlier one that falls
/// on the same pixel.
pub open spec fn painted(data: Seq<u8>, width: int, bounds: BoundingBox, coverage: Seq<Sample>) -> Seq<
    u8,
>
    decreases coverage.len(),
{
    if coverage.len() == 0 {
        data
    } else {
        painted(data, width, bounds, coverage.drop_last()).update(
            pixel_index(width, bounds, coverage.last()),
            coverage.last().value,
        )
    }
}

/// Writing samples moves no byte and adds none: the buffer keeps its length.
pub proof fn lemma_painted_len(canvas: Canvas, bounds: BoundingBox, coverage: Seq<Sample>)
    requires
        drawable(canvas, bounds, coverage),
    ensures
        painted(canvas.data, canvas.width, bounds, coverage).len() == canvas.data.len(),
    decreases coverage.len(),
{
    if coverage.len() > 0 {
        assert(addressable(canvas, bounds, coverage.last()));
        assert forall|i: int| 0 <= i < coverage.drop_last().len() implies addressable(
            canvas,
            bounds,
            #[trigger] coverage.drop_last()[i],
        ) by {
            assert(coverage.drop_last()[i] == coverage[i]);
        }
        lemma_painted_len(canvas, bounds, coverage.drop_last());
    }
}

/// Writing samples changes no pixel but those that the samples fall on.
pub proof fn law_painted_elsewhere(
    canvas: Canvas,
    bounds: BoundingBox,
    coverage: Seq<Sample>,
    at: int,
)
    requires
        drawable(canvas, bounds, coverage),
        0 <= at < canvas.data.len(),
        forall|i: int|
            0 <= i < coverage.len() ==> pixel_index(canvas.width, bounds, #[trigger] coverage[i])
                != at,
    ensures
        painted(canvas.data, canvas.width, bounds, coverage)[at] == canvas.data[at],
    decreases coverage.len(),
{
    if coverage.len() > 0 {
        let front = coverage.drop_last();
        assert(addressable(canvas, bounds, coverage.last()));
        assert(pixel_index(canvas.width, bounds, coverage.last()) != at);
        assert forall|i: int| 0 <= i < front.len() implies addressable(
            canvas,
            bounds,
            #[trigger] front[i],
        ) && pixel_index(canvas.width, bounds, front[i]) != at by {
            assert(front[i] == coverage[i]);
        }
        lemma_painted_len(canvas, bounds, front);
        law_painted_elsewhere(canvas, bounds, front, at);
    }
}

/// Row stride: in a strip `width` pixels wide, two samples that fall within
/// its columns are written to the same place only if they fall on the same
/// pixel. Glyphs that share no column therefore share no byte of the buffer.
pub proof fn law_pixels_apart(
    width: int,
    bounds: BoundingBox,
    sample: Sample,
    other_bounds: BoundingBox,
    other: Sample,
)
    requires
        0 <= pixel_x(bounds, sample) < width,
        0 <= pixel_x(other_bounds, other) < width,
        pixel_index(width, bounds, sample) == pixel_index(width, other_bounds, other),
    ensures
        pixel_x(bounds, sample) == pixel_x(other_bounds, other),
        pixel_y(bounds, sample) == pixel_y(other_bounds, other),
{
    let x = pixel_x(bounds, sample);
    let y = pixel_y(bounds, sample);
    let u = pixel_x(other_bounds, other);
    let v = pixel_y(other_bounds, other);
    assert(y == v) by (nonlinear_arith)
        requires
            0 <= x < width,
            0 <= u < width,
            x + y * width == u + v * width,
    ;
    assert(y * width == v * width);
}

/// Tells whether `render_into_bitmap` may be called with this report on this
/// strip.
pub fn can_render(bounds: Option<BoundingBox>, coverage: &Vec<Sample>, bmp: &Bitmap) -> (ok: bool)
    ensures
        ok == (bounds matches Some(b) ==> drawable(bmp@, b, coverage@)),
{
    match bounds {
        None => true,
        Some(b) => {
            let mut k: usize = 0;
            while k < coverage.len()
                invariant
                    bounds == Some(b),
                    k <= coverage@.len(),
                    forall|i: int| 0 <= i < k ==> addressable(bmp@, b, #[trigger] coverage@[i]),
                decreases coverage@.len() - k,
            {
                if !is_addressable(bmp, b, coverage[k]) {
                    return false;
                }
                k = k + 1;
            }
            true
        },
    }
}

/// Computes `pixel_index` for a sample that falls neither left of nor above
/// the strip's origin.
fn flat_index(width: usize, bounds: BoundingBox, sample: Sample) -> (index: u128)
    requires
        0 <= pixel_x(bounds, sample),
        0 <= pixel_y(bounds, sample),
    ensures
        index == pixel_index(width as int, bounds, sample),
{
    let x: i64 = sample.x as i64 + bounds.min.x as i64;
    let y: i64 = sample.y as i64 + bounds.min.y as i64;
    assert(0 <= (y as u128) * (width as u128) <= 0x1_0000_0000_0000 * 0x1_0000_0000_0000_0000)
        by (nonlinear_arith)
        requires
            0 <= y as u128 <= 0x1_0000_0000_0000,
            0 <= width as u128 <= 0x1_0000_0000_0000_0000,
    ;
    x as u128 + (y as u128) * (width as u128)
}

/// Tells whether `sample` has a place in the buffer of `bmp`.
fn is_addressable(bmp: &Bitmap, bounds: BoundingBox, sample: Sample) -> (ok: bool)
    ensures
        ok == addressable(bmp@, bounds, sample),
{
    if (sample.x as i64 + bounds.min.x as i64) < 0 || (sample.y as i64 + bounds.min.y as i64) < 0 {
        return false;
    }
    flat_index(bmp.width, bounds, sample) < bmp.data.len() as u128
}

/// Writes the pixels of one glyph into the strip, at the row stride of the
/// strip's width as it is now.
///
/// `bounds` is the pixel bounding box that the font engine reports for the
/// glyph's outline (`None` where it reports none), and `coverage` holds the
/// pixels that it rasterises, each relative to the corner `min` of `bounds`.
pub fn render_into_bitmap(
    glyph: &Glyph,
    bounds: Option<BoundingBox>,
    coverage: &Vec<Sample>,
    bmp: &mut Bitmap,
) -> (result: Result<(), Error>)
    requires
        glyph.outline is Some && bounds is Some ==> drawable(old(bmp)@, bounds->0, coverage@),
    ensures
        result is Ok <==> glyph.outline is Some && bounds is Some,
        result matches Err(e) ==> *final(bmp) == *old(bmp) && e == (if glyph.outline is None {
            Error::NoGlyphsLoaded
        } else {
            Error::BoundingBoxError
        }),
        result is Ok ==> final(bmp)@ == (Canvas {
            data: painted(old(bmp)@.data, old(bmp)@.width, bounds->0, coverage@),
            ..old(bmp)@
        }),
        old(bmp)@.well_formed() ==> final(bmp)@.well_formed(),
{
    if glyph.outline.is_none() {
        return Err(Error::NoGlyphsLoaded);
    }
    let bbox = match bounds {
        Some(bbox) => bbox,
        None => {
            return Err(Error::BoundingBoxError);
        },
    };
    let mut k: usize = 0;
    while k < coverage.len()
        invariant
            k <= coverage@.len(),
            bmp.width == old(bmp).width,
            bmp.height == old(bmp).height,
            drawable(old(bmp)@, bbox, coverage@),
            bmp.data@.len() == old(bmp).data@.len(),
            bmp.data@ == painted(old(bmp)@.data, old(bmp)@.width, bbox, coverage@.take(k as int)),
        decreases coverage@.len() - k,
    {
        let sample = coverage[k];
        assert(addressable(old(bmp)@, bbox, sample));
        assert(addressable(bmp@, bbox, sample));
        let index: u128 = flat_index(bmp.width, bbox, sample);
        assert(index < bmp.data.len() <= usize::MAX);
        bmp.data[index as usize] = sample.value;
        assert(coverage@.take(k + 1).drop_last() =~= coverage@.take(k as int));
        k = k + 1;
    }
    assert(coverage@.take(k as int) =~= coverage@);
    Ok(())
}

} // verus!
