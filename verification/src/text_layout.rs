//! Laying out a line of debug text: where, relative to the start of the text, each
//! glyph is drawn. A line feed goes back to the start of the next line, a space or a tab
//! moves the cursor by one or four spaces, other control characters are skipped, and a
//! character that the font lacks is drawn as `?`.
use vstd::prelude::*;
use crate::fonts::GlyphInfo;
use crate::v::Vec2;
use crate::words::chars_of;

verus! {

/// Why a text could not be laid out.
#[derive(Debug, Copy, Clone, PartialEq, Eq, Structural)]
pub enum LayoutError {
    /// The font has no glyph for this character (a space, or the `?` that stands for
    /// missing characters).
    MissingGlyph(char),
    /// The cursor left the range of 16-bit coordinates.
    Overflow,
}

/// The glyph of the first entry for `c` in `glyphs` from position `i` on.
pub open spec fn glyph_from(glyphs: Seq<(char, GlyphInfo)>, c: char, i: int) -> Option<GlyphInfo>
    decreases glyphs.len() - i,
{
    if i < 0 || i >= glyphs.len() {
        None
    } else if glyphs[i].0 == c {
        Some(glyphs[i].1)
    } else {
        glyph_from(glyphs, c, i + 1)
    }
}

/// The glyph of character `c`, if the font has one.
pub open spec fn glyph_of(glyphs: Seq<(char, GlyphInfo)>, c: char) -> Option<GlyphInfo> {
    glyph_from(glyphs, c, 0)
}

/// The cursor moved by `(dx, dy)`, if it stays within 16-bit coordinates.
pub open spec fn moved(adv: Vec2<i16>, dx: int, dy: int) -> Option<Vec2<i16>> {
    if i16::MIN <= adv.x + dx <= i16::MAX && i16::MIN <= adv.y + dy <= i16::MAX {
        Some(Vec2 { x: (adv.x + dx) as i16, y: (adv.y + dy) as i16 })
    } else {
        None
    }
}

/// Whether `c` is an ASCII control character other than a line feed or a tab (those
/// have their own effect).
pub open spec fn is_skipped(c: char) -> bool {
    (c as u32) < 0x20 || c as u32 == 0x7f
}

/// The cursor and the glyphs drawn so far, once character `c` is laid out.
pub open spec fn layout_step(
    adv: Vec2<i16>,
    drawn: Seq<(char, Vec2<i16>)>,
    c: char,
    line_height: u16,
    glyphs: Seq<(char, GlyphInfo)>,
) -> Result<(Vec2<i16>, Seq<(char, Vec2<i16>)>), LayoutError> {
    if c == '\n' {
        match moved(Vec2 { x: 0, y: adv.y }, 0, (line_height as i16) as int) {
            Some(a) => Ok((a, drawn)),
            None => Err(LayoutError::Overflow),
        }
    } else if c == ' ' || c == '\t' {
        match glyph_of(glyphs, ' ') {
            None => Err(LayoutError::MissingGlyph(' ')),
            Some(g) => {
                let k: int = if c == ' ' { 1 } else { 4 };
                let dx = g.advance.x * k;
                let dy = g.advance.y * k;
                if !(i16::MIN <= dx <= i16::MAX && i16::MIN <= dy <= i16::MAX) {
                    Err(LayoutError::Overflow)
                } else {
                    match moved(adv, dx, dy) {
                        Some(a) => Ok((a, drawn)),
                        None => Err(LayoutError::Overflow),
                    }
                }
            },
        }
    } else if is_skipped(c) {
        Ok((adv, drawn))
    } else {
        let d = if glyph_of(glyphs, c) is Some { c } else { '?' };
        match glyph_of(glyphs, d) {
            None => Err(LayoutError::MissingGlyph('?')),
            Some(g) => match moved(adv, g.advance.x as int, g.advance.y as int) {
                Some(a) => Ok((a, drawn.push((d, adv)))),
                None => Err(LayoutError::Overflow),
            },
        }
    }
}

/// The cursor and the glyphs drawn once `text` is laid out from the origin, or the first
/// error met.
pub open spec fn layout(text: Seq<char>, line_height: u16, glyphs: Seq<(char, GlyphInfo)>) -> Result<
    (Vec2<i16>, Seq<(char, Vec2<i16>)>),
    LayoutError,
>
    decreases text.len(),
{
    if text.len() == 0 {
        Ok((Vec2 { x: 0, y: 0 }, Seq::empty()))
    } else {
        match layout(text.drop_last(), line_height, glyphs) {
            Err(e) => Err(e),
            Ok((adv, drawn)) => layout_step(adv, drawn, text.last(), line_height, glyphs),
        }
    }
}

/// The glyph of character `c`, if the font has one.
pub fn find_glyph(glyphs: &Vec<(char, GlyphInfo)>, c: char) -> (r: Option<GlyphInfo>)
    ensures
        r == glyph_of(glyphs@, c),
{
    let mut i: usize = 0;
    while i < glyphs.len()
        invariant
            0 <= i <= glyphs@.len(),
            glyph_of(glyphs@, c) == glyph_from(glyphs@, c, i as int),
        decreases glyphs@.len() - i,
    {
        if glyphs[i].0 == c {
            return Some(glyphs[i].1);
        }
        i += 1;
    }
    None
}

/// `a + b`, if it is a 16-bit integer.
fn add_i16(a: i16, b: i16) -> (r: Option<i16>)
    ensures
        match r {
            Some(s) => s == a + b,
            None => !(i16::MIN <= a + b <= i16::MAX),
        },
{
    a.checked_add(b)
}

/// The cursor moved by `(dx, dy)`, if it stays within 16-bit coordinates.
fn move_cursor(adv: Vec2<i16>, dx: i16, dy: i16) -> (r: Option<Vec2<i16>>)
    ensures
        r == moved(adv, dx as int, dy as int),
{
    match (add_i16(adv.x, dx), add_i16(adv.y, dy)) {
        (Some(x), Some(y)) => Some(Vec2 { x, y }),
        _ => None,
    }
}

/// Once laying out a prefix of the text fails, laying out all of it fails the same way.
proof fn lemma_layout_error_stays(text: Seq<char>, line_height: u16, glyphs: Seq<(char, GlyphInfo)>, n: int, e: LayoutError)
    requires
        0 <= n <= text.len(),
        layout(text.take(n), line_height, glyphs) == Err::<(Vec2<i16>, Seq<(char, Vec2<i16>)>), LayoutError>(e),
    ensures
        layout(text, line_height, glyphs) == Err::<(Vec2<i16>, Seq<(char, Vec2<i16>)>), LayoutError>(e),
    decreases text.len() - n,
{
    if n < text.len() {
        assert(text.take(n + 1).drop_last() =~= text.take(n));
        lemma_layout_error_stays(text, line_height, glyphs, n + 1, e);
    } else {
        assert(text.take(n) =~= text);
    }
}

/// Lays out `text` with the font whose lines are `line_height` pixels high and whose
/// glyphs are `glyphs`: each drawn glyph's character, with the cursor where it is drawn.
pub fn layout_text(text: &str, line_height: u16, glyphs: &Vec<(char, GlyphInfo)>) -> (r: Result<
    Vec<(char, Vec2<i16>)>,
    LayoutError,
>)
    ensures
        match r {
            Ok(drawn) => layout(text@, line_height, glyphs@) matches Ok((_, d)) && d == drawn@,
            Err(e) => layout(text@, line_height, glyphs@) == Err::<(Vec2<i16>, Seq<(char, Vec2<i16>)>), LayoutError>(e),
        },
{
    let chars = chars_of(text);
    let mut adv: Vec2<i16> = Vec2 { x: 0, y: 0 };
    let mut drawn: Vec<(char, Vec2<i16>)> = Vec::new();
    let mut i: usize = 0;
    assert(text@.take(0) =~= Seq::<char>::empty());
    while i < chars.len()
        invariant
            0 <= i <= chars@.len(),
            chars@ == text@,
            layout(text@.take(i as int), line_height, glyphs@) == Ok::<(Vec2<i16>, Seq<(char, Vec2<i16>)>), LayoutError>(
                (adv, drawn@),
            ),
        decreases chars@.len() - i,
    {
        let c = chars[i];
        assert(text@.take(i + 1).drop_last() =~= text@.take(i as int));
        assert(text@.take(i + 1).last() == c);
        let ghost expected = layout_step(adv, drawn@, c, line_height, glyphs@);
        assert(layout(text@.take(i + 1), line_height, glyphs@) == expected);
        let step: Result<Vec2<i16>, LayoutError> = if c == '\n' {
            match move_cursor(Vec2 { x: 0, y: adv.y }, 0, line_height as i16) {
                Some(a) => Ok(a),
                None => Err(LayoutError::Overflow),
            }
        } else if c == ' ' || c == '\t' {
            match find_glyph(glyphs, ' ') {
                None => Err(LayoutError::MissingGlyph(' ')),
                Some(g) => {
                    let k: i16 = if c == ' ' { 1 } else { 4 };
                    match (g.advance.x.checked_mul(k), g.advance.y.checked_mul(k)) {
                        (Some(dx), Some(dy)) => match move_cursor(adv, dx, dy) {
                            Some(a) => Ok(a),
                            None => Err(LayoutError::Overflow),
                        },
                        _ => Err(LayoutError::Overflow),
                    }
                },
            }
        } else if (c as u32) < 0x20 || c as u32 == 0x7f {
            Ok(adv)
        } else {
            let d = match find_glyph(glyphs, c) {
                Some(_) => c,
                None => '?',
            };
            match find_glyph(glyphs, d) {
                None => Err(LayoutError::MissingGlyph('?')),
                Some(g) => match move_cursor(adv, g.advance.x, g.advance.y) {
                    Some(a) => {
                        drawn.push((d, adv));
                        Ok(a)
                    },
                    None => Err(LayoutError::Overflow),
                },
            }
        };
        match step {
            Ok(a) => {
                adv = a;
            },
            Err(e) => {
                proof {
                    lemma_layout_error_stays(text@, line_height, glyphs@, i + 1, e);
                }
                return Err(e);
            },
        }
        i += 1;
    }
    assert(text@.take(text@.len() as int) =~= text@);
    Ok(drawn)
}

} // verus!
