use grisui::fonts::GlyphInfo;
use grisui::text_layout::{find_glyph, layout_text, LayoutError};
use grisui::v::{Aabr, Vec2};

fn glyph(adv: i16) -> GlyphInfo {
    GlyphInfo {
        bounds: Aabr { min: Vec2 { x: 0, y: 0 }, max: Vec2 { x: 1, y: 1 } },
        offset: Vec2 { x: 0, y: 0 },
        advance: Vec2 { x: adv, y: 0 },
    }
}

fn font() -> Vec<(char, GlyphInfo)> {
    vec![(' ', glyph(4)), ('a', glyph(6)), ('b', glyph(7)), ('?', glyph(5))]
}

#[test]
fn layout_moves_cursor_by_advances() {
    let drawn = layout_text("ab a", 10, &font()).unwrap();
    assert_eq!(drawn, vec![
        ('a', Vec2 { x: 0, y: 0 }),
        ('b', Vec2 { x: 6, y: 0 }),
        ('a', Vec2 { x: 17, y: 0 }),
    ]);
}

#[test]
fn layout_line_feed_tab_and_controls() {
    let drawn = layout_text("a\n\tb\r\u{7f}a", 10, &font()).unwrap();
    assert_eq!(drawn, vec![
        ('a', Vec2 { x: 0, y: 0 }),
        ('b', Vec2 { x: 16, y: 10 }),
        ('a', Vec2 { x: 23, y: 10 }),
    ]);
}

#[test]
fn layout_missing_char_drawn_as_question_mark() {
    let drawn = layout_text("zé", 10, &font()).unwrap();
    assert_eq!(drawn, vec![('?', Vec2 { x: 0, y: 0 }), ('?', Vec2 { x: 5, y: 0 })]);
}

#[test]
fn layout_errors() {
    let no_space = vec![('a', glyph(6))];
    assert_eq!(layout_text("a a", 10, &no_space), Err(LayoutError::MissingGlyph(' ')));
    assert_eq!(layout_text("z", 10, &no_space), Err(LayoutError::MissingGlyph('?')));
    let wide = vec![(' ', glyph(10000)), ('a', glyph(30000))];
    assert_eq!(layout_text("\t", 10, &wide), Err(LayoutError::Overflow));
    assert_eq!(layout_text("aa", 10, &wide), Err(LayoutError::Overflow));
    assert_eq!(layout_text("", 10, &wide), Ok(vec![]));
}

#[test]
fn find_glyph_takes_first_entry() {
    let f = vec![('a', glyph(1)), ('a', glyph(2))];
    assert_eq!(find_glyph(&f, 'a'), Some(glyph(1)));
    assert_eq!(find_glyph(&f, 'b'), None);
}

#[test]
fn laid_out_glyphs_are_in_the_font() {
    let f = font();
    for text in ["ab a", "x\ty\nz", "?é", ""] {
        for (c, _) in layout_text(text, 10, &f).unwrap() {
            assert!(find_glyph(&f, c).is_some());
        }
    }
}
