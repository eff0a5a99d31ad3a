use crate::bitmap::{
    drawable, packable, packed, painted, render_into_bitmap, repositioned, resize_bitmap, Bitmap,
    Canvas, Sample,
};
use crate::error::Error;
use crate::glyph::{boxes, codepoints, measured_glyphs, BoundingBox, Glyph, Measurement};
use crate::packing::canvas_after;
use crate::RenderResult;
use vstd::prelude::*;

verus! {

/// What the caller of a layout has to do next.
#[derive(Clone, Copy, Debug, PartialEq, Eq, Structural)]
pub enum Step {
    /// Move the outline of glyph `glyph` right by `start_x` pixels, ask the
    /// font engine for its pixel bounding box there, and hand that to `place`.
    Place { glyph: usize, start_x: usize },
    /// Rasterise the outline of glyph `glyph` where it stands, and hand its
    /// bounding box and its pixels to `paint`.
    Render { glyph: usize },
    /// Every glyph is packed and rendered: take the result with `finish`.
    Finish,
}

/// A layout under way. It runs in two passes with a barrier between them:
/// first every glyph is packed, in the order of the text, which brings the
/// strip to its final size; only then are the glyphs rendered, in the same
/// order, at the row stride of the final width.
///
/// Each step consumes the layout and gives the next one back, or the error
/// that ends the run: after a failure there is no layout left to go on with,
/// and no partial result.
#[derive(Debug)]
pub struct Layout {
    glyphs: Vec<Glyph>,
    placed: Vec<Glyph>,
    rendered: usize,
    bitmap: Bitmap,
}

/// The glyphs `glyphs`, each at the place that `placed` holds for it.
pub open spec fn placed_glyphs(glyphs: Seq<Glyph>, placed: Seq<BoundingBox>) -> Seq<Glyph> {
    Seq::new(placed.len(), |i: int| repositioned(glyphs[i], placed[i]))
}

/// Order preservation: the glyphs of a text, each moved to a place of its
/// own, stand for the characters of the text, in the order of the text, with
/// none lost and none twice; a character that occurs twice in the text has
/// its two glyphs.
pub proof fn law_order_preserved(
    text: Seq<char>,
    measured: Seq<Measurement>,
    placed: Seq<BoundingBox>,
)
    requires
        placed.len() == text.len(),
    ensures
        codepoints(measured_glyphs(text, measured)) == text,
        codepoints(placed_glyphs(measured_glyphs(text, measured), placed)) == text,
{
    assert(codepoints(measured_glyphs(text, measured)) =~= text);
    assert(codepoints(placed_glyphs(measured_glyphs(text, measured), placed)) =~= text);
}

impl Layout {
    #[verifier::type_invariant]
    spec fn well_formed(self) -> bool {
        &&& self.placed@.len() <= self.glyphs@.len()
        &&& self.rendered <= self.placed@.len()
        &&& self.rendered > 0 ==> self.placed@.len() == self.glyphs@.len()
        &&& self.placed@ == placed_glyphs(self.glyphs@, boxes(self.placed@))
        &&& self.bitmap@.width == canvas_after(boxes(self.placed@)).width
        &&& self.bitmap@.height == canvas_after(boxes(self.placed@)).height
        &&& self.bitmap@.data.len() == canvas_after(boxes(self.placed@)).data.len()
        &&& self.rendered == 0 ==> self.bitmap@ == canvas_after(boxes(self.placed@))
    }

    /// The glyphs that the layout was started with, as first measured.
    pub closed spec fn glyphs(self) -> Seq<Glyph> {
        self.glyphs@
    }

    /// The glyphs packed so far, each at its place in the strip.
    pub closed spec fn placed(self) -> Seq<Glyph> {
        self.placed@
    }

    /// How many glyphs are rendered so far.
    pub closed spec fn rendered(self) -> int {
        self.rendered as int
    }

    /// The strip as it is now.
    pub closed spec fn canvas(self) -> Canvas {
        self.bitmap@
    }

    /// What is to be done next: pack the first glyph not packed yet; when all
    /// are packed, render the first one not rendered yet; when all are
    /// rendered, finish.
    pub open spec fn step(self) -> Step {
        if self.placed().len() < self.glyphs().len() {
            Step::Place {
                glyph: self.placed().len() as usize,
                start_x: self.canvas().width as usize,
            }
        } else if self.rendered() < self.placed().len() {
            Step::Render { glyph: self.rendered() as usize }
        } else {
            Step::Finish
        }
    }

    /// Starts a layout of `glyphs` on the empty strip.
    pub fn new(glyphs: Vec<Glyph>) -> (layout: Layout)
        ensures
            layout.glyphs() == glyphs@,
            layout.placed() == Seq::<Glyph>::empty(),
            layout.rendered() == 0,
            layout.canvas() == crate::bitmap::empty_canvas(),
    {
        let placed: Vec<Glyph> = Vec::new();
        assert(placed@ =~= placed_glyphs(glyphs@, boxes(placed@)));
        Layout { glyphs, placed, rendered: 0, bitmap: Bitmap::default() }
    }

    /// Tells what is to be done next.
    pub fn next(&self) -> (step: Step)
        ensures
            step == self.step(),
    {
        proof {
            use_type_invariant(self);
        }
        if self.placed.len() < self.glyphs.len() {
            Step::Place { glyph: self.placed.len(), start_x: self.bitmap.width }
        } else if self.rendered < self.placed.len() {
            Step::Render { glyph: self.rendered }
        } else {
            Step::Finish
        }
    }

    /// The strip as it is now.
    pub fn bitmap(&self) -> (bmp: &Bitmap)
        ensures
            bmp@ == self.canvas(),
    {
        &self.bitmap
    }

    /// Packs the next glyph. `moved` is the pixel bounding box that the font
    /// engine reports for the glyph's outline after the move that `next` asked
    /// for (`None` where it reports none).
    pub fn place(self, moved: Option<BoundingBox>) -> (result: Result<Layout, Error>)
        requires
            self.step() is Place,
            self.glyphs()[self.placed().len() as int].outline is Some && moved is Some
                ==> packable(self.canvas(), moved->0),
        ensures
            result is Ok <==> self.glyphs()[self.placed().len() as int].outline is Some
                && moved is Some,
            result matches Err(e) ==> e == Error::BoundingBoxError,
            result matches Ok(layout) ==> {
                &&& layout.glyphs() == self.glyphs()
                &&& layout.placed() == self.placed().push(
                    repositioned(self.glyphs()[self.placed().len() as int], moved->0),
                )
                &&& layout.rendered() == 0
                &&& layout.canvas() == packed(self.canvas(), moved->0)
            },
    {
        proof {
            use_type_invariant(&self);
        }
        let Layout { glyphs, mut placed, rendered, mut bitmap } = self;
        let glyph = glyphs[placed.len()];
        let ghost before = placed@;
        match resize_bitmap(glyph, moved, &mut bitmap) {
            Err(e) => Err(e),
            Ok(glyph) => {
                placed.push(glyph);
                proof {
                    let to = moved->0;
                    assert(boxes(placed@) =~= boxes(before).push(to));
                    assert(boxes(placed@).drop_last() =~= boxes(before));
                    assert(placed@ =~= placed_glyphs(glyphs@, boxes(placed@)));
                }
                Ok(Layout { glyphs, placed, rendered: 0, bitmap })
            },
        }
    }

    /// Renders the next glyph. `bounds` is the pixel bounding box that the font
    /// engine reports for the glyph's outline where it stands (`None` where it
    /// reports none), and `coverage` holds the pixels that the engine
    /// rasterises, each relative to the corner `min` of `bounds`.
    pub fn paint(self, bounds: Option<BoundingBox>, coverage: &Vec<Sample>) -> (result: Result<
        Layout,
        Error,
    >)
        requires
            self.step() is Render,
            self.placed()[self.rendered()].outline is Some && bounds is Some ==> drawable(
                self.canvas(),
                bounds->0,
                coverage@,
            ),
        ensures
            result is Ok <==> self.placed()[self.rendered()].outline is Some && bounds is Some,
            result matches Err(e) ==> e == (if self.placed()[self.rendered()].outline is None {
                Error::NoGlyphsLoaded
            } else {
                Error::BoundingBoxError
            }),
            result matches Ok(layout) ==> {
                &&& layout.glyphs() == self.glyphs()
                &&& layout.placed() == self.placed()
                &&& layout.rendered() == self.rendered() + 1
                &&& layout.canvas() == (Canvas {
                    data: painted(self.canvas().data, self.canvas().width, bounds->0, coverage@),
                    ..self.canvas()
                })
            },
    {
        proof {
            use_type_invariant(&self);
        }
        let Layout { glyphs, placed, rendered, mut bitmap } = self;
        let glyph = placed[rendered];
        assert(rendered < placed.len() <= usize::MAX);
        match render_into_bitmap(&glyph, bounds, coverage, &mut bitmap) {
            Err(e) => Err(e),
            Ok(()) => {
                proof {
                    crate::bitmap::lemma_painted_len(self.canvas(), bounds->0, coverage@);
                }
                Ok(Layout { glyphs, placed, rendered: rendered + 1, bitmap })
            },
        }
    }

    /// Hands out the strip and its glyphs, each at its place and in the order
    /// in which the layout was started with them.
    pub fn finish(self) -> (result: RenderResult)
        requires
            self.step() is Finish,
        ensures
            result.bitmap@ == self.canvas(),
            result.glyphs@ == self.placed(),
            result.glyphs@ == placed_glyphs(self.glyphs(), boxes(result.glyphs@)),
            result.glyphs@.len() == self.glyphs().len(),
            codepoints(result.glyphs@) == codepoints(self.glyphs()),
            result.bitmap@.width == canvas_after(boxes(result.glyphs@)).width,
            result.bitmap@.height == canvas_after(boxes(result.glyphs@)).height,
            result.bitmap@.data.len() == canvas_after(boxes(result.glyphs@)).data.len(),
    {
        proof {
            use_type_invariant(&self);
            assert(codepoints(self.placed@) =~= codepoints(self.glyphs@));
        }
        RenderResult { bitmap: self.bitmap, glyphs: self.placed }
    }
}

} // verus!
