//! The bitmap that the recogniser reads: eight bits for each pixel, in rows
//! of whole 32-bit words.
//!
//! A word holds four pixels, the leftmost in its most significant byte, so
//! that the bitmap reads the same on every byte order. A row that ends within
//! a word is filled up with zero.

use crate::raster::{gray_len, GrayRaster, RasterView};
use vstd::arithmetic::div_mod::lemma_fundamental_div_mod_converse;
use vstd::prelude::*;

verus! {

/// Bits that one pixel of the bitmap takes.
pub const BITS_PER_PIXEL: i32 = 8;

/// Pixels that one word of a bitmap row holds.
pub const PIXELS_PER_WORD: usize = 4;

/// Pixels, and so bytes, in a row of `words_per_line` words.
pub open spec fn row_pixels(words_per_line: int) -> int {
    PIXELS_PER_WORD * words_per_line
}

/// Whether rows of `words_per_line` words can take the raster `b`: a row must
/// be long enough for a line of pixels, and the size in bytes of a row, and
/// of all rows together, must be a `usize`.
pub open spec fn rows_fit(b: RasterView, words_per_line: int) -> bool {
    &&& 0 <= words_per_line
    &&& b.width <= row_pixels(words_per_line) <= usize::MAX
    &&& row_pixels(words_per_line) * b.height <= usize::MAX
}

/// Pixel `(x, y)` of the bitmap: that of the raster while `x` is within the
/// raster's width, and zero behind it.
pub open spec fn padded_pixel(b: RasterView, x: int, y: int) -> u8 {
    if x < b.width {
        b.bytes[y * b.width + x]
    } else {
        0
    }
}

/// The word that holds four pixels, the first of them in its top byte.
pub open spec fn word_of(p0: u8, p1: u8, p2: u8, p3: u8) -> u32 {
    ((p0 as u32) << 24) | ((p1 as u32) << 16) | ((p2 as u32) << 8) | (p3 as u32)
}

/// The pixel at `place` in a word, for the places 0 to 3 from the left: the
/// eight bits from bit `24 - 8 * place` upwards.
pub open spec fn word_pixel(word: u32, place: int) -> u8 {
    ((word >> ((24 - 8 * place) as u32)) & 0xff) as u8
}

/// Word `k` of the rows: word `k % words_per_line` of row `k / words_per_line`,
/// which holds the four pixels from `x = 4 * (k % words_per_line)` on.
pub open spec fn packed_word(b: RasterView, words_per_line: int, k: int) -> u32 {
    let x = PIXELS_PER_WORD * (k % words_per_line);
    let y = k / words_per_line;
    word_of(
        padded_pixel(b, x, y),
        padded_pixel(b, x + 1, y),
        padded_pixel(b, x + 2, y),
        padded_pixel(b, x + 3, y),
    )
}

/// The rows of the bitmap, one after the other, for the raster `b`.
pub open spec fn packed_words(b: RasterView, words_per_line: int) -> Seq<u32> {
    Seq::new((words_per_line * b.height) as nat, |k: int| packed_word(b, words_per_line, k))
}

/// A word gives back each of the four pixels it was made of, at its place.
pub proof fn lemma_word_pixels(p0: u8, p1: u8, p2: u8, p3: u8)
    ensures
        word_pixel(word_of(p0, p1, p2, p3), 0) == p0,
        word_pixel(word_of(p0, p1, p2, p3), 1) == p1,
        word_pixel(word_of(p0, p1, p2, p3), 2) == p2,
        word_pixel(word_of(p0, p1, p2, p3), 3) == p3,
{
    let w = word_of(p0, p1, p2, p3);
    assert(((w >> 24u32) & 0xff) as u8 == p0 && ((w >> 16u32) & 0xff) as u8 == p1 && ((w >> 8u32)
        & 0xff) as u8 == p2 && ((w >> 0u32) & 0xff) as u8 == p3) by (bit_vector)
        requires
            w == ((p0 as u32) << 24) | ((p1 as u32) << 16) | ((p2 as u32) << 8) | (p3 as u32),
    ;
}

/// Offset `y * stride + x` lies in row `y`, at place `x`.
proof fn lemma_offset_in_row(stride: int, y: int, x: int)
    requires
        0 <= x < stride,
        0 <= y,
    ensures
        (y * stride + x) / stride == y,
        (y * stride + x) % stride == x,
{
    lemma_fundamental_div_mod_converse(y * stride + x, stride, y, x);
}

/// Row `y + 1` ends within the `height` rows, and starts where row `y` ends.
proof fn lemma_row_bounds(y: int, height: int, len: int)
    requires
        0 <= y < height,
        0 <= len,
    ensures
        0 <= y * len,
        (y + 1) * len == y * len + len,
        (y + 1) * len <= height * len,
        height * len == len * height,
{
    assert(0 <= y * len) by (nonlinear_arith)
        requires
            0 <= y,
            0 <= len,
    ;
    assert((y + 1) * len == y * len + len) by (nonlinear_arith);
    assert((y + 1) * len <= height * len) by (nonlinear_arith)
        requires
            y + 1 <= height,
            0 <= len,
    ;
    assert(height * len == len * height) by (nonlinear_arith);
}

/// Where the pixels lie in the rows: pixel `(x, y)` of the raster is held by
/// word `y * words_per_line + x / 4`, in the eight bits from bit
/// `24 - 8 * (x % 4)` upwards, and every place of a row behind the raster's
/// width holds zero.
pub proof fn lemma_packed_words_layout(b: RasterView, words_per_line: int, x: int, y: int)
    requires
        rows_fit(b, words_per_line),
        0 <= x < row_pixels(words_per_line),
        0 <= y < b.height,
    ensures
        packed_words(b, words_per_line).len() == words_per_line * b.height,
        0 <= y * words_per_line + x / 4 < packed_words(b, words_per_line).len(),
        x < b.width ==> word_pixel(packed_words(b, words_per_line)[y * words_per_line + x / 4], x % 4)
            == b.bytes[y * b.width + x],
        x >= b.width ==> word_pixel(
            packed_words(b, words_per_line)[y * words_per_line + x / 4],
            x % 4,
        ) == 0,
{
    let column = x / 4;
    lemma_row_bounds(y, b.height as int, words_per_line);
    lemma_offset_in_row(words_per_line, y, column);
    let first = 4 * column;
    lemma_word_pixels(
        padded_pixel(b, first, y),
        padded_pixel(b, first + 1, y),
        padded_pixel(b, first + 2, y),
        padded_pixel(b, first + 3, y),
    );
}

/// Pixel `(x, y)` of the bitmap for `gray`.
fn pixel_or_zero(gray: &GrayRaster, x: usize, y: usize) -> (p: u8)
    requires
        y < gray@.height,
    ensures
        p == padded_pixel(gray@, x as int, y as int),
{
    let width = gray.width() as usize;
    let data = gray.as_raw();
    let size = data.len();
    if x < width {
        proof {
            lemma_row_bounds(y as int, gray@.height as int, gray@.width as int);
            assert(size == gray_len(gray@.width, gray@.height));
        }
        data[y * width + x]
    } else {
        0
    }
}

/// The word of four pixels, the first of them in the top byte.
fn make_word(p0: u8, p1: u8, p2: u8, p3: u8) -> (word: u32)
    ensures
        word == word_of(p0, p1, p2, p3),
{
    ((p0 as u32) << 24) | ((p1 as u32) << 16) | ((p2 as u32) << 8) | (p3 as u32)
}

/// Lays the raster out in rows of `words_per_line` 32-bit words. Returns
/// `None` when such rows cannot take the raster.
pub fn pack_rows(gray: &GrayRaster, words_per_line: i32) -> (rows: Option<Vec<u32>>)
    ensures
        rows is Some <==> rows_fit(gray@, words_per_line as int),
        rows matches Some(r) ==> r@ == packed_words(gray@, words_per_line as int),
{
    let width = gray.width() as usize;
    let height = gray.height() as usize;
    if words_per_line < 0 {
        return None;
    }
    let words = words_per_line as usize;
    let stride = match words.checked_mul(PIXELS_PER_WORD) {
        Some(stride) => stride,
        None => {
            return None;
        },
    };
    if width > stride {
        return None;
    }
    if stride.checked_mul(height).is_none() {
        return None;
    }
    let mut rows: Vec<u32> = Vec::new();
    if words == 0 {
        assert(words_per_line * gray@.height == 0) by (nonlinear_arith)
            requires
                words_per_line == 0,
        ;
        assert(rows@ =~= packed_words(gray@, words_per_line as int));
        return Some(rows);
    }
    let mut y: usize = 0;
    while y < height
        invariant
            y <= height,
            0 < words == words_per_line,
            stride == row_pixels(words_per_line as int),
            height == gray@.height,
            rows@.len() == y * words,
            forall|k: int|
                0 <= k < rows@.len() ==> rows@[k] == packed_word(gray@, words_per_line as int, k),
        decreases height - y,
    {
        proof {
            lemma_row_bounds(y as int, height as int, words as int);
        }
        let mut column: usize = 0;
        while column < words
            invariant
                y < height,
                column <= words,
                0 < words == words_per_line,
                stride == row_pixels(words_per_line as int),
                height == gray@.height,
                rows@.len() == y * words + column,
                forall|k: int|
                    0 <= k < rows@.len() ==> rows@[k] == packed_word(
                        gray@,
                        words_per_line as int,
                        k,
                    ),
            decreases words - column,
        {
            let x = PIXELS_PER_WORD * column;
            let word = make_word(
                pixel_or_zero(gray, x, y),
                pixel_or_zero(gray, x + 1, y),
                pixel_or_zero(gray, x + 2, y),
                pixel_or_zero(gray, x + 3, y),
            );
            proof {
                lemma_offset_in_row(words as int, y as int, column as int);
            }
            rows.push(word);
            column += 1;
        }
        y += 1;
    }
    proof {
        assert(height * words == words_per_line * gray@.height) by (nonlinear_arith)
            requires
                height == gray@.height,
                words == words_per_line,
        ;
    }
    assert(rows@ =~= packed_words(gray@, words_per_line as int));
    Some(rows)
}

} // verus!
