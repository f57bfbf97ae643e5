//! Packing rasterized glyphs into a square font atlas: glyphs are placed left to right
//! on lines of the font's height, a line is started when a glyph would reach the right
//! edge, and each glyph's placement is recorded.
use vstd::prelude::*;
use crate::fonts::GlyphInfo;
use crate::v::{Aabr, Extent2, Vec2};

verus! {

/// A glyph as the rasterizer renders it: `rows` lines of `pitch` bytes each, of which
/// the first `width` bytes are the glyph's coverage.
#[derive(Debug, Clone, PartialEq, Eq)]
pub struct GlyphBitmap {
    pub width: u32,
    pub rows: u32,
    pub pitch: u32,
    pub buffer: Vec<u8>,
    /// Horizontal position of the bitmap relative to the cursor, in pixels.
    pub left: i32,
    /// Vertical position of the bitmap's top relative to the baseline, in pixels.
    pub top: i32,
    /// How far the cursor moves after the glyph, in 1/64 pixels.
    pub advance: Vec2<i64>,
}

/// Why glyphs could not be packed.
#[derive(Debug, Copy, Clone, PartialEq, Eq, Structural)]
pub enum AtlasError {
    /// The atlas has no room for another line of glyphs.
    TooSmall,
    /// A glyph reads outside its bitmap, or writes outside the atlas.
    OutOfBounds,
    /// The same character comes twice.
    DuplicateChar(char),
}

/// The pixels of an atlas, with where each glyph lies in it.
#[derive(Debug, Clone, PartialEq, Eq)]
pub struct FontAtlas {
    pub size: Extent2<usize>,
    /// One coverage byte per pixel, line after line.
    pub pixels: Vec<u8>,
    /// The height of a line of text, in pixels.
    pub height: u16,
    /// Each character with its glyph's placement, in the order they were packed.
    pub glyphs: Vec<(char, GlyphInfo)>,
}

/// A length in 1/64 pixels, rounded toward zero to whole pixels (`/ 64` on `i64`) and
/// truncated to 16 bits.
pub open spec fn whole_pixels(v: i64) -> i16 {
    (if v >= 0 {
        v / 64
    } else {
        -((-v) / 64)
    }) as i16
}

/// The height of a line of glyphs, from the font's height in 1/64 pixels.
pub open spec fn line_height(metrics_height: i64) -> int {
    if metrics_height >= 0 {
        metrics_height / 64
    } else {
        0
    }
}

/// The atlas once the first `n` bytes of line `src_base..` of the bitmap are copied at
/// offset `dst_base`, one after the other.
pub open spec fn blit_row(pixels: Seq<u8>, dst_base: int, src: Seq<u8>, src_base: int, n: int) -> Seq<u8>
    decreases n,
{
    if n <= 0 {
        pixels
    } else {
        blit_row(pixels, dst_base, src, src_base, n - 1).update(dst_base + n - 1, src[src_base + n - 1])
    }
}

/// The atlas once the first `n` lines of `bmp` are copied with their top-left corner at
/// `(x, y)`, line after line, in an atlas `w` pixels wide.
pub open spec fn blit_rows(pixels: Seq<u8>, w: int, x: int, y: int, bmp: GlyphBitmap, n: int) -> Seq<u8>
    decreases n,
{
    if n <= 0 {
        pixels
    } else {
        blit_row(
            blit_rows(pixels, w, x, y, bmp, n - 1),
            (y + n - 1) * w + x,
            bmp.buffer@,
            (n - 1) * bmp.pitch,
            bmp.width as int,
        )
    }
}

/// Whether every byte that the glyph copies lies in its bitmap, and lands in the atlas of
/// `size` bytes that is `w` pixels wide, when placed at `(x, y)`.
pub open spec fn fits(bmp: GlyphBitmap, w: int, size: int, x: int, y: int) -> bool {
    bmp.width > 0 && bmp.rows > 0 ==> {
        &&& (bmp.rows - 1) * bmp.pitch + bmp.width - 1 < bmp.buffer@.len()
        &&& (y + bmp.rows - 1) * w + x + bmp.width - 1 < size
    }
}

/// Where the packing stands: the pen, the pixels so far and the glyphs placed so far.
pub struct PackState {
    pub pen_x: int,
    pub pen_y: int,
    pub pixels: Seq<u8>,
    pub glyphs: Seq<(char, GlyphInfo)>,
}

/// The placement recorded for a glyph drawn at `(x, y)`.
pub open spec fn glyph_info_at(bmp: GlyphBitmap, x: int, y: int) -> GlyphInfo {
    GlyphInfo {
        bounds: Aabr {
            min: Vec2 { x: x as u16, y: y as u16 },
            max: Vec2 { x: (x + bmp.width) as u16, y: (y + bmp.rows) as u16 },
        },
        offset: Vec2 { x: bmp.left as i16, y: bmp.top as i16 },
        advance: Vec2 { x: whole_pixels(bmp.advance.x), y: whole_pixels(bmp.advance.y) },
    }
}

/// Whether character `c` was already placed.
pub open spec fn placed(glyphs: Seq<(char, GlyphInfo)>, c: char) -> bool {
    exists|i: int| 0 <= i < glyphs.len() && (#[trigger] glyphs[i]).0 == c
}

/// The packing once glyph `bmp` of character `c` is placed, in an atlas of side `w`
/// whose lines are `lh` pixels high.
pub open spec fn pack_step(st: PackState, w: int, lh: int, c: char, bmp: GlyphBitmap) -> Result<PackState, AtlasError> {
    if st.pen_y + lh + 1 >= w {
        Err(AtlasError::TooSmall)
    } else {
        let (x, y) = if st.pen_x + bmp.width >= w {
            (0, st.pen_y + lh + 1)
        } else {
            (st.pen_x, st.pen_y)
        };
        if !fits(bmp, w, w * w, x, y) {
            Err(AtlasError::OutOfBounds)
        } else if placed(st.glyphs, c) {
            Err(AtlasError::DuplicateChar(c))
        } else {
            Ok(
                PackState {
                    pen_x: x + bmp.width + 1,
                    pen_y: y,
                    pixels: blit_rows(st.pixels, w, x, y, bmp, bmp.rows as int),
                    glyphs: st.glyphs.push((c, glyph_info_at(bmp, x, y))),
                },
            )
        }
    }
}

/// The packing once the glyphs of `glyphs` are placed one after the other in an empty
/// atlas of side `w`, or the first error met.
pub open spec fn pack(w: int, lh: int, glyphs: Seq<(char, GlyphBitmap)>) -> Result<PackState, AtlasError>
    decreases glyphs.len(),
{
    if glyphs.len() == 0 {
        Ok(PackState { pen_x: 0, pen_y: 0, pixels: Seq::new((w * w) as nat, |i: int| 0u8), glyphs: Seq::empty() })
    } else {
        match pack(w, lh, glyphs.drop_last()) {
            Err(e) => Err(e),
            Ok(st) => pack_step(st, w, lh, glyphs.last().0, glyphs.last().1),
        }
    }
}

/// Rounds a length in 1/64 pixels toward zero, to whole pixels on 16 bits.
fn to_whole_pixels(v: i64) -> (r: i16)
    ensures
        r == whole_pixels(v),
{
    let q: i64 = if v >= 0 {
        v / 64
    } else {
        let m: u64 = if v == i64::MIN { 0x8000_0000_0000_0000u64 } else { (-v) as u64 };
        -((m / 64) as i64)
    };
    q as i16
}

/// Copying a glyph with no column changes nothing.
pub(crate) proof fn lemma_blit_empty_rows(pixels: Seq<u8>, w: int, x: int, y: int, bmp: GlyphBitmap, n: int)
    requires
        bmp.width == 0,
    ensures
        blit_rows(pixels, w, x, y, bmp, n) == pixels,
    decreases n,
{
    if n > 0 {
        lemma_blit_empty_rows(pixels, w, x, y, bmp, n - 1);
    }
}

/// Copying the lines of a glyph that fits keeps the length of the atlas.
pub(crate) proof fn lemma_blit_rows_len(pixels: Seq<u8>, w: int, x: int, y: int, bmp: GlyphBitmap, n: int)
    requires
        0 <= n <= bmp.rows,
        0 <= w,
        0 <= x,
        0 <= y,
        bmp.width > 0,
        pixels.len() == w * w,
        fits(bmp, w, w * w, x, y),
    ensures
        blit_rows(pixels, w, x, y, bmp, n).len() == pixels.len(),
    decreases n,
{
    if n > 0 {
        lemma_blit_rows_len(pixels, w, x, y, bmp, n - 1);
        lemma_index_bound(y, n - 1, bmp.rows as int, w, bmp.width - 1, bmp.width as int);
        lemma_blit_row_len(blit_rows(pixels, w, x, y, bmp, n - 1), (y + n - 1) * w + x, bmp.buffer@, (n - 1) * bmp.pitch, bmp.width as int);
    }
}

/// Copying bytes keeps the length of the atlas.
proof fn lemma_blit_row_len(pixels: Seq<u8>, dst_base: int, src: Seq<u8>, src_base: int, n: int)
    requires
        0 <= dst_base,
        dst_base + n <= pixels.len(),
    ensures
        blit_row(pixels, dst_base, src, src_base, n).len() == pixels.len(),
    decreases n,
{
    if n > 0 {
        lemma_blit_row_len(pixels, dst_base, src, src_base, n - 1);
    }
}

/// The bytes that line `row` of a glyph touches lie before the last one it touches.
proof fn lemma_index_bound(base: int, row: int, rows: int, stride: int, col: int, width: int)
    by (nonlinear_arith)
    requires
        0 <= row < rows,
        0 <= col < width,
        0 <= base,
        0 <= stride,
    ensures
        (base + row) * stride + col <= (base + rows - 1) * stride + width - 1,
        0 <= (base + row) * stride,
{
}

/// Whether glyph `bmp` fits when placed at `(x, y)` in the atlas of side `w`.
fn glyph_fits(bmp: &GlyphBitmap, w: usize, x: u64, y: u64) -> (r: bool)
    requires
        w <= 0x1_0000_0000,
        y <= w,
        x <= w + 0x1_0000_0000,
    ensures
        r == fits(*bmp, w as int, w * w, x as int, y as int),
{
    if bmp.width == 0 || bmp.rows == 0 {
        return true;
    }
    let rows = bmp.rows as u128;
    let pitch = bmp.pitch as u128;
    let width = bmp.width as u128;
    assert((rows - 1) * pitch <= 0xffff_ffff * 0xffff_ffff) by (nonlinear_arith)
        requires
            1 <= rows <= 0xffff_ffff,
            pitch <= 0xffff_ffff,
    ;
    let src_last: u128 = (rows - 1) * pitch + width - 1;
    let wide = w as u128;
    assert((y + rows - 1) * wide <= 0x3_0000_0000 * 0x1_0000_0000) by (nonlinear_arith)
        requires
            y <= 0x1_0000_0000,
            1 <= rows <= 0xffff_ffff,
            wide <= 0x1_0000_0000,
    ;
    let dst_last: u128 = (y as u128 + rows - 1) * wide + x as u128 + width - 1;
    assert(wide * wide <= 0x1_0000_0000 * 0x1_0000_0000) by (nonlinear_arith)
        requires
            wide <= 0x1_0000_0000,
    ;
    src_last < bmp.buffer.len() as u128 && dst_last < wide * wide
}

/// Copies glyph `bmp` with its top-left corner at `(x, y)` into the atlas of side `w`.
fn blit(pixels: &mut Vec<u8>, w: usize, x: u64, y: u64, bmp: &GlyphBitmap)
    requires
        old(pixels)@.len() == w * w,
        w <= 0x1_0000_0000,
        fits(*bmp, w as int, w * w, x as int, y as int),
    ensures
        final(pixels)@ == blit_rows(old(pixels)@, w as int, x as int, y as int, *bmp, bmp.rows as int),
{
    if bmp.width == 0 {
        proof {
            lemma_blit_empty_rows(pixels@, w as int, x as int, y as int, *bmp, bmp.rows as int);
        }
        return;
    }
    let ghost start = pixels@;
    let mut row: u32 = 0;
    while row < bmp.rows
        invariant
            0 <= row <= bmp.rows,
            bmp.width > 0,
            w <= 0x1_0000_0000,
            pixels@.len() == w * w,
            fits(*bmp, w as int, w * w, x as int, y as int),
            pixels@ == blit_rows(start, w as int, x as int, y as int, *bmp, row as int),
        decreases bmp.rows - row,
    {
        let n_pixels = pixels.len();
        proof {
            lemma_index_bound(y as int, row as int, bmp.rows as int, w as int, bmp.width - 1, bmp.width as int);
            lemma_index_bound(0, row as int, bmp.rows as int, bmp.pitch as int, bmp.width - 1, bmp.width as int);
        }
        assert((y as u128 + row as u128) * (w as u128) <= 0x2_0000_0000_0000_0000 * 0x1_0000_0000) by (nonlinear_arith)
            requires
                y <= 0xffff_ffff_ffff_ffff,
                row <= 0xffff_ffff,
                w <= 0x1_0000_0000,
        ;
        let dst_base: usize = ((y as u128 + row as u128) * (w as u128) + x as u128) as usize;
        let n_src = bmp.buffer.len();
        let src_base: usize = (row as usize) * (bmp.pitch as usize);
        let ghost before = pixels@;
        let mut col: u32 = 0;
        while col < bmp.width
            invariant
                0 <= row < bmp.rows,
                0 <= col <= bmp.width,
                w <= 0x1_0000_0000,
                pixels@.len() == w * w,
                fits(*bmp, w as int, w * w, x as int, y as int),
                dst_base == (y + row) * w + x,
                src_base == row * bmp.pitch,
                n_pixels == w * w,
                n_src == bmp.buffer@.len(),
                pixels@ == blit_row(before, dst_base as int, bmp.buffer@, src_base as int, col as int),
            decreases bmp.width - col,
        {
            proof {
                lemma_index_bound(y as int, row as int, bmp.rows as int, w as int, col as int, bmp.width as int);
                lemma_index_bound(0, row as int, bmp.rows as int, bmp.pitch as int, col as int, bmp.width as int);
            }
            let v = bmp.buffer[src_base + col as usize];
            pixels.set(dst_base + col as usize, v);
            col += 1;
        }
        row += 1;
    }
}

/// Once packing fails on a prefix of the glyphs, it fails the same way on all of them.
proof fn lemma_pack_error_stays(w: int, lh: int, glyphs: Seq<(char, GlyphBitmap)>, n: int, e: AtlasError)
    requires
        0 <= n <= glyphs.len(),
        pack(w, lh, glyphs.take(n)) == Err::<PackState, AtlasError>(e),
    ensures
        pack(w, lh, glyphs) == Err::<PackState, AtlasError>(e),
    decreases glyphs.len() - n,
{
    if n < glyphs.len() {
        assert(glyphs.take(n + 1).drop_last() =~= glyphs.take(n));
        lemma_pack_error_stays(w, lh, glyphs, n + 1, e);
    } else {
        assert(glyphs.take(n) =~= glyphs);
    }
}

/// A square side whose area fits in a machine word is at most 2^32.
proof fn lemma_side_bound(w: int)
    by (nonlinear_arith)
    requires
        0 <= w,
        w * w <= 0xffff_ffff_ffff_ffff,
    ensures
        w <= 0x1_0000_0000,
{
}

/// Whether character `c` is among the placed glyphs.
fn is_placed(glyphs: &Vec<(char, GlyphInfo)>, c: char) -> (r: bool)
    ensures
        r == placed(glyphs@, c),
{
    let mut i: usize = 0;
    while i < glyphs.len()
        invariant
            0 <= i <= glyphs@.len(),
            forall|j: int| 0 <= j < i ==> (#[trigger] glyphs@[j]).0 != c,
        decreases glyphs@.len() - i,
    {
        if glyphs[i].0 == c {
            return true;
        }
        i += 1;
    }
    false
}

/// Packs the glyphs of `glyphs`, in order, into a square atlas of side `tex_size`, with
/// lines as high as the font (`metrics_height`, in 1/64 pixels).
pub fn pack_glyphs(tex_size: usize, metrics_height: i64, glyphs: &Vec<(char, GlyphBitmap)>) -> (r: Result<FontAtlas, AtlasError>)
    requires
        tex_size * tex_size <= usize::MAX,
        metrics_height > -64,
    ensures
        match r {
            Ok(atlas) => {
                &&& pack(tex_size as int, line_height(metrics_height), glyphs@) matches Ok(st)
                &&& atlas.pixels@ == st.pixels
                &&& atlas.glyphs@ == st.glyphs
                &&& atlas.size == Extent2 { w: tex_size, h: tex_size }
                &&& atlas.height == line_height(metrics_height) as u16
            },
            Err(e) => pack(tex_size as int, line_height(metrics_height), glyphs@) == Err::<PackState, AtlasError>(e),
        },
{
    let w = tex_size;
    proof {
        lemma_side_bound(w as int);
    }
    let ghost lhi = line_height(metrics_height);
    let lh: u64 = if metrics_height >= 0 {
        (metrics_height / 64) as u64
    } else {
        0
    };
    let area: usize = w * w;
    let mut pixels: Vec<u8> = Vec::new();
    let mut k: usize = 0;
    while k < area
        invariant
            0 <= k <= area,
            pixels@ == Seq::new(k as nat, |i: int| 0u8),
        decreases area - k,
    {
        pixels.push(0u8);
        k += 1;
        assert(pixels@ =~= Seq::new(k as nat, |i: int| 0u8));
    }
    let mut pen_x: u64 = 0;
    let mut pen_y: u64 = 0;
    let mut out: Vec<(char, GlyphInfo)> = Vec::new();
    let mut i: usize = 0;
    assert(glyphs@.take(0) =~= Seq::<(char, GlyphBitmap)>::empty());
    while i < glyphs.len()
        invariant
            0 <= i <= glyphs@.len(),
            w <= 0x1_0000_0000,
            w * w <= usize::MAX,
            w == tex_size,
            lh == lhi,
            lhi == line_height(metrics_height),
            lhi < 0x0200_0000_0000_0000,
            pen_y <= w,
            pen_x <= w + 0x1_0000_0000,
            pixels@.len() == w * w,
            pack(w as int, lhi, glyphs@.take(i as int)) == Ok::<PackState, AtlasError>(
                PackState { pen_x: pen_x as int, pen_y: pen_y as int, pixels: pixels@, glyphs: out@ },
            ),
        decreases glyphs@.len() - i,
    {
        let ghost prev = PackState { pen_x: pen_x as int, pen_y: pen_y as int, pixels: pixels@, glyphs: out@ };
        assert(glyphs@.take(i + 1).drop_last() =~= glyphs@.take(i as int));
        assert(glyphs@.take(i + 1).last() == glyphs@[i as int]);
        let entry = &glyphs[i];
        let c = entry.0;
        let bmp = &entry.1;
        assert(pack(w as int, lhi, glyphs@.take(i + 1)) == pack_step(prev, w as int, lhi, c, *bmp));
        if pen_y + lh + 1 >= w as u64 {
            proof {
                lemma_pack_error_stays(w as int, lhi, glyphs@, i + 1, AtlasError::TooSmall);
            }
            return Err(AtlasError::TooSmall);
        }
        let (x, y) = if pen_x + bmp.width as u64 >= w as u64 {
            (0u64, pen_y + lh + 1)
        } else {
            (pen_x, pen_y)
        };
        if !glyph_fits(bmp, w, x, y) {
            proof {
                lemma_pack_error_stays(w as int, lhi, glyphs@, i + 1, AtlasError::OutOfBounds);
            }
            return Err(AtlasError::OutOfBounds);
        }
        if is_placed(&out, c) {
            proof {
                lemma_pack_error_stays(w as int, lhi, glyphs@, i + 1, AtlasError::DuplicateChar(c));
            }
            return Err(AtlasError::DuplicateChar(c));
        }
        blit(&mut pixels, w, x, y, bmp);
        proof {
            if bmp.width > 0 {
                lemma_blit_rows_len(prev.pixels, w as int, x as int, y as int, *bmp, bmp.rows as int);
            } else {
                lemma_blit_empty_rows(prev.pixels, w as int, x as int, y as int, *bmp, bmp.rows as int);
            }
        }
        let info = GlyphInfo {
            bounds: Aabr {
                min: Vec2 { x: x as u16, y: y as u16 },
                max: Vec2 { x: (x + bmp.width as u64) as u16, y: (y + bmp.rows as u64) as u16 },
            },
            offset: Vec2 { x: bmp.left as i16, y: bmp.top as i16 },
            advance: Vec2 { x: to_whole_pixels(bmp.advance.x), y: to_whole_pixels(bmp.advance.y) },
        };
        out.push((c, info));
        pen_x = x + bmp.width as u64 + 1;
        pen_y = y;
        i += 1;
    }
    assert(glyphs@.take(glyphs@.len() as int) =~= glyphs@);
    Ok(FontAtlas { size: Extent2 { w, h: w }, pixels, height: lh as u16, glyphs: out })
}

} // verus!
