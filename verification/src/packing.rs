use crate::bitmap::{empty_canvas, packed, pixel_count, Canvas};
use crate::glyph::BoundingBox;
use vstd::prelude::*;

verus! {

/// The strip after the glyphs with the bounding boxes `placed` have been
/// packed one after the other, starting from the empty strip. `placed[i]` is
/// the box of the `i`-th glyph as the font engine reports it after the move to
/// its place.
pub open spec fn canvas_after(placed: Seq<BoundingBox>) -> Canvas
    decreases placed.len(),
{
    if placed.len() == 0 {
        empty_canvas()
    } else {
        packed(canvas_after(placed.drop_last()), placed.last())
    }
}

/// The right edge of the strip at the moment the `i`-th glyph is packed: the
/// distance by which that glyph's outline is moved.
pub open spec fn start_x(placed: Seq<BoundingBox>, i: int) -> int {
    canvas_after(placed.take(i)).width
}

/// The pixels that the `i`-th glyph adds to the strip's width.
pub open spec fn glyph_width(placed: Seq<BoundingBox>, i: int) -> int {
    placed[i].max.x - start_x(placed, i) + 1
}

/// The sum of the widths of the first `n` glyphs.
pub open spec fn widths_sum(placed: Seq<BoundingBox>, n: int) -> int
    decreases n,
{
    if n <= 0 {
        0
    } else {
        widths_sum(placed, n - 1) + glyph_width(placed, n - 1)
    }
}

/// The number of pixels of a strip.
pub open spec fn area(canvas: Canvas) -> int {
    pixel_count(canvas.width, canvas.height)
}

/// Whether every glyph lies at or right of the place it was moved to and has
/// its corners in order from left to right.
pub open spec fn appended(placed: Seq<BoundingBox>) -> bool {
    forall|k: int|
        0 <= k < placed.len() ==> (#[trigger] start_x(placed, k)) <= placed[k].min.x
            <= placed[k].max.x
}

/// Whether the strip never needed more pixels on the way than it needs in the
/// end.
pub open spec fn never_larger(placed: Seq<BoundingBox>) -> bool {
    forall|k: int|
        0 <= k <= placed.len() ==> area(canvas_after(#[trigger] placed.take(k))) <= area(
            canvas_after(placed),
        )
}

proof fn lemma_take_step(placed: Seq<BoundingBox>, n: int)
    requires
        0 < n <= placed.len(),
    ensures
        placed.take(n).drop_last() == placed.take(n - 1),
        placed.take(n).last() == placed[n - 1],
        canvas_after(placed.take(n)) == packed(canvas_after(placed.take(n - 1)), placed[n - 1]),
{
    assert(placed.take(n).drop_last() =~= placed.take(n - 1));
}

proof fn lemma_width_prefix(placed: Seq<BoundingBox>, n: int)
    requires
        0 <= n <= placed.len(),
    ensures
        canvas_after(placed.take(n)).width == widths_sum(placed, n),
    decreases n,
{
    if n > 0 {
        lemma_take_step(placed, n);
        lemma_width_prefix(placed, n - 1);
    }
}

/// Width accumulation: the strip is as wide as the widths of its glyphs
/// together, each width counted from the strip's right edge at the moment the
/// glyph was packed to the glyph's own right edge. Glyphs are packed with no
/// gap.
pub proof fn law_width_accumulates(placed: Seq<BoundingBox>)
    ensures
        canvas_after(placed).width == widths_sum(placed, placed.len() as int),
{
    lemma_width_prefix(placed, placed.len() as int);
    assert(placed.take(placed.len() as int) =~= placed);
}

/// Height is the maximum: where no glyph ends above the origin, the strip is
/// as high as the lowest `max.y` among its glyphs, taken after each glyph's
/// move.
pub proof fn law_height_is_max(placed: Seq<BoundingBox>)
    requires
        placed.len() > 0,
        forall|i: int| 0 <= i < placed.len() ==> 0 <= (#[trigger] placed[i]).max.y,
    ensures
        forall|i: int|
            0 <= i < placed.len() ==> (#[trigger] placed[i]).max.y <= canvas_after(placed).height,
        exists|i: int|
            0 <= i < placed.len() && (#[trigger] placed[i]).max.y == canvas_after(placed).height,
    decreases placed.len(),
{
    let front = placed.drop_last();
    let last = placed.len() - 1;
    if front.len() == 0 {
        assert(placed[last].max.y == canvas_after(placed).height);
    } else {
        law_height_is_max(front);
        assert forall|i: int| 0 <= i < placed.len() implies (#[trigger] placed[i]).max.y
            <= canvas_after(placed).height by {
            if i < last {
                assert(front[i] == placed[i]);
            }
        }
        if canvas_after(front).height < placed[last].max.y {
            assert(placed[last].max.y == canvas_after(placed).height);
        } else {
            let i = choose|i: int|
                0 <= i < front.len() && (#[trigger] front[i]).max.y == canvas_after(front).height;
            assert(placed[i] == front[i]);
            assert(placed[i].max.y == canvas_after(placed).height);
        }
    }
}

proof fn lemma_start_right_of_earlier(placed: Seq<BoundingBox>, i: int, j: int)
    requires
        appended(placed),
        0 <= i < j <= placed.len(),
    ensures
        placed[i].max.x < start_x(placed, j),
    decreases j,
{
    lemma_take_step(placed, j);
    if i < j - 1 {
        lemma_start_right_of_earlier(placed, i, j - 1);
        assert(start_x(placed, j - 1) <= placed[j - 1].min.x <= placed[j - 1].max.x);
    }
}

/// Disjoint placement: where every glyph lies at or right of the place it was
/// moved to, no two glyphs share a column of the strip: the earlier one ends
/// left of where the later one begins.
pub proof fn law_disjoint_placement(placed: Seq<BoundingBox>, i: int, j: int)
    requires
        appended(placed),
        0 <= i < j < placed.len(),
    ensures
        placed[i].min.x <= placed[i].max.x < placed[j].min.x <= placed[j].max.x,
{
    lemma_start_right_of_earlier(placed, i, j);
    assert(start_x(placed, i) <= placed[i].min.x <= placed[i].max.x);
    assert(start_x(placed, j) <= placed[j].min.x <= placed[j].max.x);
}

proof fn lemma_buffer_len(placed: Seq<BoundingBox>)
    ensures
        area(canvas_after(placed)) <= canvas_after(placed).data.len(),
        exists|k: int|
            0 <= k <= placed.len() && canvas_after(placed).data.len() == area(
                canvas_after(#[trigger] placed.take(k)),
            ),
    decreases placed.len(),
{
    let n = placed.len() as int;
    if n == 0 {
        assert(placed.take(0) =~= placed);
        assert(canvas_after(placed) == empty_canvas());
        assert(area(empty_canvas()) == 0);
        assert(canvas_after(placed).data.len() == area(canvas_after(placed.take(0))));
    } else {
        let front = placed.drop_last();
        let before = canvas_after(front);
        let after = canvas_after(placed);
        lemma_buffer_len(front);
        assert(after == packed(before, placed.last()));
        if before.data.len() < area(after) {
            assert(after.data.len() == area(after));
            assert(placed.take(n) =~= placed);
            assert(after.data.len() == area(canvas_after(placed.take(n))));
        } else {
            assert(after.data == before.data);
            let k = choose|k: int|
                0 <= k <= front.len() && before.data.len() == area(
                    canvas_after(#[trigger] front.take(k)),
                );
            assert(front.take(k) =~= placed.take(k));
            assert(after.data.len() == area(canvas_after(placed.take(k))));
        }
    }
}

/// Buffer sizing: where the strip never needed more pixels on the way than it
/// needs in the end, its buffer holds one byte for each of its pixels when
/// packing is over, no more and no fewer.
pub proof fn law_buffer_sizing(placed: Seq<BoundingBox>)
    requires
        never_larger(placed),
    ensures
        canvas_after(placed).data.len() == canvas_after(placed).width * canvas_after(placed).height,
{
    lemma_buffer_len(placed);
    let k = choose|k: int|
        0 <= k <= placed.len() && canvas_after(placed).data.len() == area(
            canvas_after(#[trigger] placed.take(k)),
        );
    assert(area(canvas_after(placed.take(k))) <= area(canvas_after(placed)));
}

/// The buffer of the strip holds nothing but zero bytes as long as glyphs are
/// only packed: growing appends zeros and moves no byte.
pub proof fn law_blank_until_rendered(placed: Seq<BoundingBox>, i: int)
    requires
        0 <= i < canvas_after(placed).data.len(),
    ensures
        canvas_after(placed).data[i] == 0,
    decreases placed.len(),
{
    if placed.len() > 0 {
        let front = placed.drop_last();
        if i < canvas_after(front).data.len() {
            law_blank_until_rendered(front, i);
        }
    }
}

proof fn lemma_grows(placed: Seq<BoundingBox>, k: int)
    requires
        appended(placed),
        0 <= k <= placed.len(),
    ensures
        0 <= canvas_after(placed.take(k)).width <= canvas_after(placed).width,
        0 <= canvas_after(placed.take(k)).height <= canvas_after(placed).height,
    decreases placed.len() - k,
{
    lemma_appended_prefix(placed, k);
    lemma_nonnegative(placed.take(k));
    if k == placed.len() {
        assert(placed.take(k) =~= placed);
    } else {
        lemma_grows(placed, k + 1);
        lemma_take_step(placed, k + 1);
        assert(start_x(placed, k) <= placed[k].min.x <= placed[k].max.x);
        assert(canvas_after(placed.take(k)).width <= canvas_after(placed.take(k + 1)).width);
        assert(canvas_after(placed.take(k)).height <= canvas_after(placed.take(k + 1)).height);
    }
}

proof fn lemma_nonnegative(placed: Seq<BoundingBox>)
    requires
        appended(placed),
    ensures
        0 <= canvas_after(placed).height,
        0 <= canvas_after(placed).width,
    decreases placed.len(),
{
    if placed.len() > 0 {
        let n = placed.len() as int;
        lemma_appended_prefix(placed, n - 1);
        lemma_take_step(placed, n);
        assert(placed.take(n) =~= placed);
        lemma_nonnegative(placed.take(n - 1));
        assert(start_x(placed, n - 1) <= placed[n - 1].min.x <= placed[n - 1].max.x);
    }
}

proof fn lemma_appended_at(placed: Seq<BoundingBox>, k: int)
    requires
        appended(placed),
        0 <= k < placed.len(),
    ensures
        start_x(placed, k) <= placed[k].min.x <= placed[k].max.x,
{
}

proof fn lemma_appended_prefix(placed: Seq<BoundingBox>, n: int)
    requires
        appended(placed),
        0 <= n <= placed.len(),
    ensures
        appended(placed.take(n)),
{
    assert forall|k: int| 0 <= k < placed.take(n).len() implies (#[trigger] start_x(
        placed.take(n),
        k,
    )) <= placed.take(n)[k].min.x <= placed.take(n)[k].max.x by {
        assert(placed.take(n).take(k) =~= placed.take(k));
        lemma_appended_at(placed, k);
    }
}

/// Where every glyph lies at or right of the place it was moved to, the strip
/// only ever grows, so that the buffer holds one byte for each pixel when
/// packing is over.
pub proof fn law_buffer_sizing_appended(placed: Seq<BoundingBox>)
    requires
        appended(placed),
    ensures
        never_larger(placed),
        canvas_after(placed).data.len() == canvas_after(placed).width * canvas_after(placed).height,
{
    assert forall|k: int| 0 <= k <= placed.len() implies area(
        canvas_after(#[trigger] placed.take(k)),
    ) <= area(canvas_after(placed)) by {
        lemma_grows(placed, k);
        let a = canvas_after(placed.take(k));
        let b = canvas_after(placed);
        assert(a.width * a.height <= b.width * b.height) by (nonlinear_arith)
            requires
                0 <= a.width <= b.width,
                0 <= a.height <= b.height,
        ;
    }
    law_buffer_sizing(placed);
}

} // verus!
