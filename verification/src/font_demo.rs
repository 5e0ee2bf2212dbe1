//! Glyph cell arithmetic of the font demos: the cell sizes of a bitmap font,
//! the advance of a scaled glyph, and the pixel blocks of a scaled drawing.
use vstd::prelude::*;

use crate::geometry::{Point, Rect, lemma_trunc_div_bounded, lemma_trunc_div_fits, trunc_div};

verus! {

/// A width and a height in pixels.
#[derive(Debug, Clone, Copy, PartialEq, Eq, Structural)]
pub struct Extent {
    pub width: u32,
    pub height: u32,
}

/// The cell of a narrow (ASCII) glyph: two pixels narrower than the font size,
/// but at least 6 pixels wide.
pub open spec fn ascii_cell(char_size: u32) -> Extent {
    let narrowed: int = if char_size >= 2 { char_size - 2 } else { 0 };
    Extent { width: (if narrowed >= 6 { narrowed } else { 6 }) as u32, height: char_size }
}

/// The advance of a glyph in a font scaled to `scaled_height`: 8 (ASCII) or 16
/// pixels at height 16, scaled and rounded to nearest.
pub open spec fn scaled_advance(character: char, scaled_height: u32) -> int {
    let base: int = if (character as u32) < 128 { 8 } else { 16 };
    (base * scaled_height + 8) / 16
}

/// The advance of a glyph can be computed in `u32`.
pub open spec fn advance_computable(character: char, scaled_height: u32) -> bool {
    (if (character as u32) < 128 { 8int } else { 16int }) * scaled_height + 8 <= u32::MAX
}

/// Narrow and wide cell sizes of a bitmap font of the given size.
pub fn cell_sizes(char_size: u32) -> (r: (Extent, Extent))
    ensures
        r.0 == ascii_cell(char_size),
        r.1 == (Extent { width: char_size, height: char_size }),
{
    let cjk = Extent { width: char_size, height: char_size };
    let narrowed = char_size.saturating_sub(2);
    let ascii_width = if narrowed > 6 { narrowed } else { 6 };
    let ascii = Extent { width: ascii_width, height: char_size };
    (ascii, cjk)
}

/// The advance of a glyph in a font scaled to `scaled_height`.
pub fn scaled_cell_width(character: char, scaled_height: u32) -> (r: i32)
    requires
        advance_computable(character, scaled_height),
    ensures
        r == scaled_advance(character, scaled_height),
{
    let base_width: u32 = if (character as u32) < 128 { 8 } else { 16 };
    (((base_width * scaled_height) + 8) / 16) as i32
}

/// The sum of the advances of the first `n` characters.
pub open spec fn advance_total(chars: Seq<char>, scaled_height: u32, n: int) -> int
    decreases n,
{
    if n <= 0 {
        0
    } else {
        advance_total(chars, scaled_height, n - 1) + scaled_advance(chars[n - 1], scaled_height)
    }
}

/// Advances add up: the first `i` characters advance no further than the first `j >= i`.
proof fn lemma_advance_total_grows(chars: Seq<char>, scaled_height: u32, i: int, j: int)
    requires
        0 <= i <= j,
    ensures
        advance_total(chars, scaled_height, i) <= advance_total(chars, scaled_height, j),
    decreases j - i,
{
    if i < j {
        lemma_advance_total_grows(chars, scaled_height, i, j - 1);
    }
}

/// Where each glyph of a line starts when drawn from `start_x`: each glyph
/// after the advance of the ones before it.
pub fn glyph_positions(chars: &[char], start_x: i32, scaled_height: u32) -> (r: Vec<i32>)
    requires
        forall|i: int| 0 <= i < chars@.len() ==> advance_computable(#[trigger] chars@[i], scaled_height),
        start_x + advance_total(chars@, scaled_height, chars@.len() as int) <= i32::MAX,
    ensures
        r@.len() == chars@.len(),
        forall|i: int| 0 <= i < r@.len() ==> r@[i] == start_x + advance_total(chars@, scaled_height, i),
{
    let mut positions: Vec<i32> = Vec::new();
    let mut cursor: i32 = start_x;
    let mut i: usize = 0;
    while i < chars.len()
        invariant
            i <= chars@.len(),
            forall|i: int| 0 <= i < chars@.len() ==> advance_computable(#[trigger] chars@[i], scaled_height),
            start_x + advance_total(chars@, scaled_height, chars@.len() as int) <= i32::MAX,
            positions@.len() == i,
            cursor == start_x + advance_total(chars@, scaled_height, i as int),
            forall|k: int| 0 <= k < i ==> positions@[k] == start_x + advance_total(chars@, scaled_height, k),
        decreases chars@.len() - i,
    {
        positions.push(cursor);
        let advance = scaled_cell_width(chars[i], scaled_height);
        proof {
            lemma_advance_total_grows(chars@, scaled_height, i + 1, chars@.len() as int);
            lemma_advance_total_grows(chars@, scaled_height, 0, i as int);
        }
        cursor = cursor + advance;
        i = i + 1;
    }
    positions
}

/// Scaling of drawing coordinates by `scale_num / scale_den` around an offset.
#[derive(Debug, Clone, Copy, PartialEq, Eq, Structural)]
pub struct PixelScale {
    pub offset: Point,
    pub scale_num: i32,
    pub scale_den: i32,
}

/// A coordinate scaled by `num / den`, rounded toward zero.
pub open spec fn scaled(value: int, num: int, den: int) -> int {
    trunc_div(value * num, den)
}

/// A coordinate can be scaled without overflow or division by zero.
pub open spec fn scalable(value: int, num: int, den: int) -> bool {
    &&& den != 0
    &&& i32::MIN <= value * num <= i32::MAX
    &&& !(value * num == i32::MIN && den == -1)
}

/// The block a source pixel covers once scaled, if it covers any: it starts at
/// the scaled pixel position, offset, and ends where the next pixel starts.
pub open spec fn scaled_block(scale: PixelScale, p: Point) -> Option<Rect> {
    let num = scale.scale_num as int;
    let den = scale.scale_den as int;
    let width = (scaled(p.x + 1, num, den) - scaled(p.x as int, num, den)) as u32;
    let height = (scaled(p.y + 1, num, den) - scaled(p.y as int, num, den)) as u32;
    if width == 0 || height == 0 {
        None
    } else {
        Some(Rect {
            x: (scale.offset.x + scaled(p.x as int, num, den)) as i32,
            y: (scale.offset.y + scaled(p.y as int, num, den)) as i32,
            width,
            height,
        })
    }
}

/// The block of a source pixel can be computed without overflow.
pub open spec fn block_computable(scale: PixelScale, p: Point) -> bool {
    let num = scale.scale_num as int;
    let den = scale.scale_den as int;
    &&& p.x + 1 <= i32::MAX
    &&& p.y + 1 <= i32::MAX
    &&& scalable(p.x as int, num, den)
    &&& scalable(p.y as int, num, den)
    &&& scalable(p.x + 1, num, den)
    &&& scalable(p.y + 1, num, den)
    &&& i32::MIN <= scale.offset.x + scaled(p.x as int, num, den) <= i32::MAX
    &&& i32::MIN <= scale.offset.y + scaled(p.y as int, num, den) <= i32::MAX
    &&& i32::MIN <= scaled(p.x + 1, num, den) - scaled(p.x as int, num, den) <= i32::MAX
    &&& i32::MIN <= scaled(p.y + 1, num, den) - scaled(p.y as int, num, den) <= i32::MAX
}

impl PixelScale {
    pub fn new(offset: Point, scale_num: i32, scale_den: i32) -> (r: Self)
        ensures
            r == (PixelScale { offset, scale_num, scale_den }),
    {
        PixelScale { offset, scale_num, scale_den }
    }

    /// A coordinate scaled by `scale_num / scale_den`, rounded toward zero.
    pub fn scale_coord(&self, value: i32) -> (r: i32)
        requires
            scalable(value as int, self.scale_num as int, self.scale_den as int),
        ensures
            r == scaled(value as int, self.scale_num as int, self.scale_den as int),
    {
        let product = value * self.scale_num;
        proof {
            lemma_trunc_div_bounded(product as int, self.scale_den as int);
            lemma_trunc_div_fits(product, self.scale_den);
        }
        match product.checked_div(self.scale_den) {
            Some(q) => q,
            None => 0,
        }
    }

    /// The length of the scaled span from `start` to `end`.
    pub fn scale_span(&self, start: i32, end: i32) -> (r: u32)
        requires
            scalable(start as int, self.scale_num as int, self.scale_den as int),
            scalable(end as int, self.scale_num as int, self.scale_den as int),
            i32::MIN <= scaled(end as int, self.scale_num as int, self.scale_den as int) - scaled(
                start as int,
                self.scale_num as int,
                self.scale_den as int,
            ) <= i32::MAX,
        ensures
            r == (scaled(end as int, self.scale_num as int, self.scale_den as int) - scaled(
                start as int,
                self.scale_num as int,
                self.scale_den as int,
            )) as u32,
    {
        (self.scale_coord(end) - self.scale_coord(start)) as u32
    }

    /// The block a source pixel covers once scaled, if any.
    pub fn pixel_rect(&self, p: Point) -> (r: Option<Rect>)
        requires
            block_computable(*self, p),
        ensures
            r == scaled_block(*self, p),
    {
        let x0 = self.offset.x + self.scale_coord(p.x);
        let y0 = self.offset.y + self.scale_coord(p.y);
        let width = self.scale_span(p.x, p.x + 1);
        let height = self.scale_span(p.y, p.y + 1);
        if width == 0 || height == 0 {
            None
        } else {
            Some(Rect { x: x0, y: y0, width, height })
        }
    }
}


/// At the design height of 16 pixels a glyph advances by its base width: 8
/// pixels for ASCII, 16 for other characters.
pub proof fn law_design_height_advance(character: char)
    ensures
        scaled_advance(character, 16) == if (character as u32) < 128 { 8int } else { 16int },
{
}

/// Narrow cells are at least 6 pixels wide and never wider than the font size
/// unless the font is smaller than 6 pixels.
pub proof fn law_ascii_cell_bounds(char_size: u32)
    ensures
        ascii_cell(char_size).width >= 6,
        char_size >= 6 ==> ascii_cell(char_size).width <= char_size,
        ascii_cell(char_size).height == char_size,
{
}

/// At scale one (`num == den`), every source pixel becomes exactly one pixel,
/// moved by the offset.
pub proof fn law_unit_scale_is_translation(offset: Point, den: i32, p: Point)
    requires
        den > 0,
        block_computable(PixelScale { offset, scale_num: den, scale_den: den }, p),
    ensures
        scaled_block(PixelScale { offset, scale_num: den, scale_den: den }, p) == Some(
            Rect { x: (offset.x + p.x) as i32, y: (offset.y + p.y) as i32, width: 1, height: 1 },
        ),
{
    let d = den as int;
    assert forall|v: int| #[trigger] scaled(v, d, d) == v by {
        if v > 0 {
            assert(v * d > 0 && (v * d) / d == v) by (nonlinear_arith)
                requires
                    d > 0,
                    v > 0,
            ;
        } else if v < 0 {
            assert(v * d < 0 && ((-(v * d)) / d) == -v) by (nonlinear_arith)
                requires
                    d > 0,
                    v < 0,
            ;
        } else {
            assert(v * d == 0);
        }
    }
    assert(scaled(p.x as int, d, d) == p.x);
    assert(scaled(p.x + 1, d, d) == p.x + 1);
    assert(scaled(p.y as int, d, d) == p.y);
    assert(scaled(p.y + 1, d, d) == p.y + 1);
}

/// Rounding toward zero keeps the order of dividends, for a positive divisor.
proof fn lemma_trunc_div_monotonic(a: int, b: int, d: int)
    requires
        d > 0,
        a <= b,
    ensures
        trunc_div(a, d) <= trunc_div(b, d),
{
    if a >= 0 {
        assert(a / d <= b / d) by (nonlinear_arith)
            requires
                0 <= a <= b,
                d > 0,
        ;
    } else if b <= 0 {
        assert((-b) / d <= (-a) / d) by (nonlinear_arith)
            requires
                0 <= -b <= -a,
                d > 0,
        ;
    } else {
        assert((-a) / d >= 0 && b / d >= 0) by (nonlinear_arith)
            requires
                a < 0 < b,
                d > 0,
        ;
    }
}

/// With a positive scale, the blocks of source pixels tile the target: the
/// block of pixel `(x, y)` starts where `x` and `y` scale to and ends where
/// `x + 1` and `y + 1` scale to, so its width depends on the column alone and
/// its height on the row alone, and neighbouring pixels' blocks meet without
/// overlap or gap. A pixel has no block exactly when its column or its row
/// scales to nothing.
pub proof fn law_blocks_tile_the_target(scale: PixelScale, p: Point)
    requires
        scale.scale_num > 0,
        scale.scale_den > 0,
        block_computable(scale, p),
    ensures
        ({
            let num = scale.scale_num as int;
            let den = scale.scale_den as int;
            &&& scaled_block(scale, p) is None <==> (scaled(p.x + 1, num, den) == scaled(p.x as int, num, den) || scaled(
                p.y + 1,
                num,
                den,
            ) == scaled(p.y as int, num, den))
            &&& scaled_block(scale, p) matches Some(r) ==> {
                &&& r.x == scale.offset.x + scaled(p.x as int, num, den)
                &&& r.y == scale.offset.y + scaled(p.y as int, num, den)
                &&& r.x + r.width == scale.offset.x + scaled(p.x + 1, num, den)
                &&& r.y + r.height == scale.offset.y + scaled(p.y + 1, num, den)
            }
        }),
{
    let num = scale.scale_num as int;
    let den = scale.scale_den as int;
    assert(p.x * num <= (p.x + 1) * num && p.y * num <= (p.y + 1) * num) by (nonlinear_arith)
        requires
            num > 0,
    ;
    lemma_trunc_div_monotonic(p.x * num, (p.x + 1) * num, den);
    lemma_trunc_div_monotonic(p.y * num, (p.y + 1) * num, den);
}

/// Two source pixels of one row get blocks of one height, and two of one
/// column blocks of one width.
pub proof fn law_block_size_follows_row_and_column(scale: PixelScale, p: Point, q: Point)
    requires
        scale.scale_num > 0,
        scale.scale_den > 0,
        block_computable(scale, p),
        block_computable(scale, q),
        scaled_block(scale, p) is Some,
        scaled_block(scale, q) is Some,
    ensures
        p.y == q.y ==> scaled_block(scale, p)->0.height == scaled_block(scale, q)->0.height,
        p.x == q.x ==> scaled_block(scale, p)->0.width == scaled_block(scale, q)->0.width,
{
    law_blocks_tile_the_target(scale, p);
    law_blocks_tile_the_target(scale, q);
}

/// A scaled glyph advances by its base width (8 for ASCII, 16 otherwise)
/// times `scaled_height / 16`, rounded to the nearest pixel: off by at most
/// half a pixel, halves rounded up.
pub proof fn law_advance_rounds_to_nearest(character: char, scaled_height: u32)
    ensures
        ({
            let base: int = if (character as u32) < 128 { 8 } else { 16 };
            let exact = base * scaled_height;
            &&& 16 * scaled_advance(character, scaled_height) <= exact + 8
            &&& exact + 8 < 16 * scaled_advance(character, scaled_height) + 16
        }),
{
    let base: int = if (character as u32) < 128 { 8 } else { 16 };
    let v = base * scaled_height + 8;
    assert(v >= 0) by (nonlinear_arith)
        requires
            base > 0,
            scaled_height >= 0,
            v == base * scaled_height + 8,
    ;
    assert(16 * (v / 16) <= v < 16 * (v / 16) + 16) by (nonlinear_arith)
        requires
            v >= 0,
    ;
}

} // verus!
