use bmpfntgen::bitmap::{can_render, can_resize, Sample};
use bmpfntgen::glyph::{get_glyphs_from_str, BoundingBox, Measurement, Offset, Point};
use bmpfntgen::layout::{Layout, Step};
use bmpfntgen::{layout_and_render, CharSets, Error, Glyph, RenderResult};

fn bbox(min: (i32, i32), max: (i32, i32)) -> BoundingBox {
    BoundingBox { min: Point { x: min.0, y: min.1 }, max: Point { x: max.0, y: max.1 } }
}

fn measured(bounds: &[BoundingBox]) -> Vec<Measurement> {
    bounds
        .iter()
        .map(|b| Measurement { bounds: Some(*b), offset: Offset { x: 0.5f32.to_bits(), y: 12.0f32.to_bits() } })
        .collect()
}

/// A font engine whose boxes move with the outline by whole pixels.
fn moved(b: BoundingBox, start_x: usize) -> BoundingBox {
    let dx = start_x as i32;
    bbox((b.min.x + dx, b.min.y), (b.max.x + dx, b.max.y))
}

/// A rasteriser that covers every pixel of the box, with the glyph's number
/// plus one as intensity.
fn filled(b: BoundingBox, glyph: usize) -> Vec<Sample> {
    let mut samples = vec![];
    for y in 0..(b.max.y - b.min.y) as u32 {
        for x in 0..(b.max.x - b.min.x) as u32 {
            samples.push(Sample { x, y, value: glyph as u8 + 1 });
        }
    }
    samples
}

fn run(glyphs: Vec<Glyph>) -> Result<RenderResult, Error> {
    let first: Vec<BoundingBox> =
        glyphs.iter().map(|g| BoundingBox { min: g.min, max: g.max }).collect();
    let mut at: Vec<BoundingBox> = first.clone();
    let mut layout = Layout::new(glyphs);
    loop {
        match layout.next() {
            Step::Place { glyph, start_x } => {
                at[glyph] = moved(first[glyph], start_x);
                assert!(can_resize(Some(at[glyph]), layout.bitmap()));
                layout = layout.place(Some(at[glyph]))?;
            }
            Step::Render { glyph } => {
                let coverage = filled(at[glyph], glyph);
                assert!(can_render(Some(at[glyph]), &coverage, layout.bitmap()));
                layout = layout.paint(Some(at[glyph]), &coverage)?;
            }
            Step::Finish => return Ok(layout.finish()),
        }
    }
}

#[test]
fn second_glyph_goes_right_of_the_first() {
    let first = [bbox((0, 0), (9, 15)), bbox((0, 2), (5, 15))];
    let glyphs = get_glyphs_from_str("a1", &measured(&first)).unwrap();
    let result = run(glyphs).unwrap();
    assert_eq!(result.glyphs.len(), 2);
    assert_eq!(result.glyphs[0].codepoint, 'a');
    assert_eq!(result.glyphs[0].min, Point { x: 0, y: 0 });
    assert_eq!(result.glyphs[0].max, Point { x: 9, y: 15 });
    assert_eq!(result.glyphs[1].codepoint, '1');
    assert_eq!(result.glyphs[1].min, Point { x: 10, y: 2 });
    assert_eq!(result.glyphs[1].max, Point { x: 15, y: 15 });
    assert_eq!(result.bitmap.width, 16);
    assert_eq!(result.bitmap.height, 15);
    assert_eq!(result.bitmap.data.len(), 16 * 15);
}

#[test]
fn steps_come_in_two_passes() {
    let first = [bbox((0, 0), (9, 15)), bbox((0, 2), (5, 15))];
    let glyphs = get_glyphs_from_str("a1", &measured(&first)).unwrap();
    let layout = Layout::new(glyphs);
    assert_eq!(layout.next(), Step::Place { glyph: 0, start_x: 0 });
    let layout = layout.place(Some(moved(first[0], 0))).unwrap();
    assert_eq!(layout.next(), Step::Place { glyph: 1, start_x: 10 });
    assert_eq!((layout.bitmap().width, layout.bitmap().height), (10, 15));
    let layout = layout.place(Some(moved(first[1], 10))).unwrap();
    assert_eq!(layout.next(), Step::Render { glyph: 0 });
    assert_eq!((layout.bitmap().width, layout.bitmap().height), (16, 15));
    assert!(layout.bitmap().data.iter().all(|&b| b == 0));
    let layout = layout.paint(Some(moved(first[0], 0)), &vec![Sample { x: 9, y: 14, value: 255 }]).unwrap();
    assert_eq!(layout.next(), Step::Render { glyph: 1 });
    let layout = layout.paint(Some(moved(first[1], 10)), &vec![]).unwrap();
    assert_eq!(layout.next(), Step::Finish);
    let result = layout.finish();
    assert_eq!(result.bitmap.data[9 + 14 * 16], 255);
}

#[test]
fn pixels_are_addressed_at_the_final_width() {
    let first = [bbox((0, 0), (2, 2)), bbox((0, 0), (1, 2))];
    let glyphs = get_glyphs_from_str("ab", &measured(&first)).unwrap();
    let result = run(glyphs).unwrap();
    assert_eq!((result.bitmap.width, result.bitmap.height), (5, 2));
    assert_eq!(result.bitmap.data, vec![1, 1, 0, 2, 0, 1, 1, 0, 2, 0]);
}

#[test]
fn width_is_the_sum_of_the_widths() {
    let first = [bbox((0, 0), (9, 15)), bbox((1, 2), (5, 15)), bbox((0, 5), (0, 7)), bbox((2, 0), (11, 20))];
    let glyphs = get_glyphs_from_str("a1.W", &measured(&first)).unwrap();
    let result = run(glyphs).unwrap();
    let mut start_x: i32 = 0;
    let mut sum: i32 = 0;
    for g in result.glyphs.iter() {
        sum += g.max.x - start_x + 1;
        start_x = g.max.x + 1;
    }
    assert_eq!(sum, 10 + 6 + 1 + 12);
    assert_eq!(result.bitmap.width, 29);
}

#[test]
fn height_is_the_lowest_point_of_any_glyph() {
    let first = [bbox((0, 3), (9, 12)), bbox((0, 2), (5, 21)), bbox((0, 0), (4, 15))];
    let glyphs = get_glyphs_from_str("agT", &measured(&first)).unwrap();
    let result = run(glyphs).unwrap();
    assert_eq!(result.glyphs.iter().map(|g| g.max.y).max(), Some(21));
    assert_eq!(result.bitmap.height, 21);
    assert_eq!(result.glyphs.iter().map(|g| g.max.y).collect::<Vec<i32>>(), vec![12, 21, 15]);
}

#[test]
fn no_two_glyphs_share_a_column() {
    let first = [bbox((0, 0), (9, 15)), bbox((0, 2), (5, 15)), bbox((3, 2), (3, 15)), bbox((0, 2), (7, 15))];
    let glyphs = get_glyphs_from_str("a1|b", &measured(&first)).unwrap();
    let result = run(glyphs).unwrap();
    for i in 0..result.glyphs.len() {
        for j in (i + 1)..result.glyphs.len() {
            assert!(result.glyphs[i].max.x < result.glyphs[j].min.x);
        }
    }
    let ranges: Vec<(i32, i32)> = result.glyphs.iter().map(|g| (g.min.x, g.max.x)).collect();
    assert_eq!(ranges, vec![(0, 9), (10, 15), (19, 19), (20, 27)]);
}

#[test]
fn buffer_holds_one_byte_for_each_pixel() {
    let first = [bbox((0, 0), (9, 15)), bbox((0, 2), (5, 30)), bbox((0, 2), (7, 15))];
    let glyphs = get_glyphs_from_str("ajb", &measured(&first)).unwrap();
    let result = run(glyphs).unwrap();
    assert_eq!((result.bitmap.width, result.bitmap.height), (24, 30));
    assert_eq!(result.bitmap.data.len(), 24 * 30);
}

#[test]
fn glyphs_come_out_in_the_order_of_the_text() {
    let text = "hello, world";
    let first: Vec<BoundingBox> = text.chars().map(|_| bbox((0, 0), (3, 7))).collect();
    let glyphs = get_glyphs_from_str(text, &measured(&first)).unwrap();
    let result = run(glyphs).unwrap();
    let codepoints: String = result.glyphs.iter().map(|g| g.codepoint).collect();
    assert_eq!(codepoints, "hello, world");
    let handles: Vec<Option<usize>> = result.glyphs.iter().map(|g| g.outline).collect();
    assert_eq!(handles, (0..12).map(Some).collect::<Vec<Option<usize>>>());
    assert!(result
        .glyphs
        .iter()
        .all(|g| g.offset == Offset { x: 0.5f32.to_bits(), y: 12.0f32.to_bits() }));
}

#[test]
fn top_of_every_glyph_is_at_or_below_the_top_of_the_strip() {
    let first = [bbox((0, 0), (9, 15)), bbox((0, 2), (5, 15)), bbox((0, 6), (2, 9))];
    let glyphs = get_glyphs_from_str("a1-", &measured(&first)).unwrap();
    let result = run(glyphs).unwrap();
    assert!(result.glyphs.iter().all(|g| g.min.y >= 0));
    assert_eq!(result.glyphs.iter().map(|g| g.min.y).min(), Some(0));
}

#[test]
fn layout_of_nothing_finishes_at_once() {
    let layout = Layout::new(vec![]);
    assert_eq!(layout.next(), Step::Finish);
    let result = layout.finish();
    assert!(result.glyphs.is_empty());
    assert_eq!((result.bitmap.width, result.bitmap.height), (0, 0));
    assert!(result.bitmap.data.is_empty());
}

#[test]
fn glyph_that_loses_its_box_ends_the_layout() {
    let first = [bbox((0, 0), (9, 15)), bbox((0, 2), (5, 15))];
    let glyphs = get_glyphs_from_str("a1", &measured(&first)).unwrap();
    let layout = Layout::new(glyphs).place(Some(first[0])).unwrap();
    assert_eq!(layout.place(None).err(), Some(Error::BoundingBoxError));
}

#[test]
fn glyph_without_outline_ends_the_layout() {
    let glyph = Glyph {
        outline: None,
        codepoint: 'a',
        min: Point { x: 0, y: 0 },
        max: Point { x: 9, y: 15 },
        offset: Offset { x: 0, y: 0 },
    };
    let layout = Layout::new(vec![glyph]);
    assert_eq!(layout.next(), Step::Place { glyph: 0, start_x: 0 });
    assert_eq!(layout.place(Some(bbox((0, 0), (9, 15)))).err(), Some(Error::BoundingBoxError));
}

#[test]
fn glyph_without_box_at_rendering_ends_the_layout() {
    let first = [bbox((0, 0), (9, 15))];
    let glyphs = get_glyphs_from_str("a", &measured(&first)).unwrap();
    let layout = Layout::new(glyphs).place(Some(first[0])).unwrap();
    assert_eq!(layout.next(), Step::Render { glyph: 0 });
    assert_eq!(layout.paint(None, &vec![]).err(), Some(Error::BoundingBoxError));
}

#[test]
fn layout_of_a_char_set_starts_with_its_first_character() {
    let first = [bbox((0, 0), (9, 15)), bbox((0, 4), (7, 15))];
    let layout = layout_and_render(CharSets::TestSet, &measured(&first)).unwrap();
    assert_eq!(layout.next(), Step::Place { glyph: 0, start_x: 0 });
    assert_eq!((layout.bitmap().width, layout.bitmap().height), (0, 0));
    assert!(layout.bitmap().data.is_empty());
    let layout = layout.place(Some(first[0])).unwrap().place(Some(moved(first[1], 10))).unwrap();
    let layout = layout.paint(Some(first[0]), &vec![]).unwrap();
    let result = layout.paint(Some(moved(first[1], 10)), &vec![]).unwrap().finish();
    let codepoints: String = result.glyphs.iter().map(|g| g.codepoint).collect();
    assert_eq!(codepoints, "Aa");
    assert_eq!((result.bitmap.width, result.bitmap.height), (18, 15));
}

#[test]
fn char_set_with_a_glyph_without_coverage_fails_before_packing() {
    let mut reports = measured(&[bbox((0, 0), (9, 15)), bbox((0, 4), (7, 15))]);
    reports[1].bounds = None;
    assert_eq!(layout_and_render(CharSets::TestSet, &reports).err(), Some(Error::BoundingBoxError));
    let digits = measured(&[bbox((0, 0), (5, 9)); 9]);
    assert_eq!(layout_and_render(CharSets::Digits, &digits).err(), Some(Error::BoundingBoxError));
}
