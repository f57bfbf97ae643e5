use grisui::font_atlas::{pack_glyphs, AtlasError, GlyphBitmap};
use grisui::v::{Aabr, Extent2, Vec2};

fn bitmap(width: u32, rows: u32, fill: u8) -> GlyphBitmap {
    GlyphBitmap {
        width,
        rows,
        pitch: width,
        buffer: vec![fill; (width * rows) as usize],
        left: 1,
        top: rows as i32,
        advance: Vec2 { x: (width as i64 + 1) * 64, y: 0 },
    }
}

#[test]
fn pack_places_glyphs_left_to_right() {
    let glyphs = vec![('a', bitmap(2, 3, 7)), ('b', bitmap(3, 2, 9))];
    let atlas = pack_glyphs(8, 4 * 64, &glyphs).unwrap();
    assert_eq!(atlas.size, Extent2 { w: 8, h: 8 });
    assert_eq!(atlas.height, 4);
    assert_eq!(atlas.pixels.len(), 64);
    assert_eq!(atlas.glyphs.len(), 2);
    assert_eq!(atlas.glyphs[0].0, 'a');
    assert_eq!(atlas.glyphs[0].1.bounds, Aabr { min: Vec2 { x: 0, y: 0 }, max: Vec2 { x: 2, y: 3 } });
    assert_eq!(atlas.glyphs[0].1.offset, Vec2 { x: 1, y: 3 });
    assert_eq!(atlas.glyphs[0].1.advance, Vec2 { x: 3, y: 0 });
    // One column of space after each glyph.
    assert_eq!(atlas.glyphs[1].1.bounds, Aabr { min: Vec2 { x: 3, y: 0 }, max: Vec2 { x: 6, y: 2 } });
    for y in 0..8usize {
        for x in 0..8usize {
            let expected = if x < 2 && y < 3 { 7 } else if (3..6).contains(&x) && y < 2 { 9 } else { 0 };
            assert_eq!(atlas.pixels[y * 8 + x], expected, "pixel ({}, {})", x, y);
        }
    }
}

#[test]
fn pack_starts_a_new_line_at_the_edge() {
    let glyphs = vec![('a', bitmap(4, 1, 1)), ('b', bitmap(4, 1, 2))];
    let atlas = pack_glyphs(8, 2 * 64, &glyphs).unwrap();
    // 0 + 4 < 8 fits; then 5 + 4 >= 8 goes to the next line, 2 + 1 pixels lower.
    assert_eq!(atlas.glyphs[1].1.bounds.min, Vec2 { x: 0, y: 3 });
    assert_eq!(atlas.pixels[3 * 8], 2);
}

#[test]
fn pack_fails_when_no_line_is_left() {
    let glyphs = vec![('a', bitmap(1, 1, 1))];
    assert_eq!(pack_glyphs(4, 3 * 64, &glyphs), Err(AtlasError::TooSmall));
    assert_eq!(pack_glyphs(0, 0, &glyphs), Err(AtlasError::TooSmall));
}

#[test]
fn pack_rejects_a_repeated_char() {
    let glyphs = vec![('a', bitmap(1, 1, 1)), ('a', bitmap(1, 1, 1))];
    assert_eq!(pack_glyphs(16, 64, &glyphs), Err(AtlasError::DuplicateChar('a')));
}

#[test]
fn pack_rejects_a_short_bitmap() {
    let mut g = bitmap(2, 2, 1);
    g.buffer.pop();
    assert_eq!(pack_glyphs(16, 64, &vec![('a', g)]), Err(AtlasError::OutOfBounds));
}

#[test]
fn pack_rounds_advance_toward_zero() {
    let mut g = bitmap(1, 1, 1);
    g.advance = Vec2 { x: -65, y: 127 };
    let atlas = pack_glyphs(16, 64, &vec![('a', g)]).unwrap();
    assert_eq!(atlas.glyphs[0].1.advance, Vec2 { x: -1, y: 1 });
}

#[test]
fn pack_nothing_gives_a_blank_atlas() {
    let atlas = pack_glyphs(4, 64, &vec![]).unwrap();
    assert_eq!(atlas.pixels, vec![0u8; 16]);
    assert!(atlas.glyphs.is_empty());
    assert_eq!(pack_glyphs(4, -1, &vec![]).unwrap().height, 0);
}
