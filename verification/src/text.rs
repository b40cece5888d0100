//! What glyphs and lines of text do to the framebuffer.

use vstd::prelude::*;
use crate::font::basic_glyph;
use crate::pixels::{
    in_panel, lemma_nibble_range, lemma_with_pixel_nibbles, nibble_at, shade, with_pixel, BLACK,
    BUFFER_LEN, WHITE,
};

verus! {

/// The colour a glyph cell is drawn with: white where the row has the bit
/// set, black elsewhere.
pub open spec fn ink(row: u8, bit: u8) -> u16 {
    if row & (1u8 << bit) != 0 {
        WHITE
    } else {
        BLACK
    }
}

/// The buffer after the first `n` cells of a glyph were drawn with its top
/// left corner at `(x, y)`. Cells are counted row by row, eight to a row.
pub open spec fn with_glyph_cells(buf: Seq<u8>, x: int, y: int, rows: Seq<u8>, n: nat) -> Seq<u8>
    decreases n,
{
    if n == 0 {
        buf
    } else {
        let k = (n - 1) as nat;
        with_pixel(
            with_glyph_cells(buf, x, y, rows, k),
            x + k % 8,
            y + k / 8,
            ink(rows[(k / 8) as int], (k % 8) as u8),
        )
    }
}

/// The buffer after a whole 8x8 glyph was drawn at `(x, y)`.
pub open spec fn with_glyph(buf: Seq<u8>, x: int, y: int, rows: Seq<u8>) -> Seq<u8> {
    with_glyph_cells(buf, x, y, rows, 64)
}

/// Where a glyph goes when the pen stands at `p`: on the next line if it
/// would cross the right edge, and back at the start `(x1, y1)` if that line
/// would cross the bottom edge.
pub open spec fn wrapped(x1: int, y1: int, p: (int, int)) -> (int, int) {
    let q = if p.0 + 8 > 128 {
        (x1, p.1 + 8)
    } else {
        p
    };
    if q.1 + 8 > 128 {
        (x1, y1)
    } else {
        q
    }
}

/// Where the pen stands before glyph number `n` of a text that starts at
/// `(x1, y1)`.
pub open spec fn pen(x1: int, y1: int, n: nat) -> (int, int)
    decreases n,
{
    if n == 0 {
        (x1, y1)
    } else {
        let q = wrapped(x1, y1, pen(x1, y1, (n - 1) as nat));
        (q.0 + 8, q.1)
    }
}

/// The buffer after the first `n` of `glyphs` were drawn as a text that
/// starts at `(x1, y1)`.
pub open spec fn with_text(buf: Seq<u8>, x1: int, y1: int, glyphs: Seq<Seq<u8>>, n: nat) -> Seq<u8>
    decreases n,
{
    if n == 0 {
        buf
    } else {
        let k = (n - 1) as nat;
        let at = wrapped(x1, y1, pen(x1, y1, k));
        with_glyph(with_text(buf, x1, y1, glyphs, k), at.0, at.1, glyphs[k as int])
    }
}

/// The code point of `c`.
pub open spec fn code_point(c: char) -> u32 {
    c as u32
}

/// Whether the font table holds a glyph for `c`.
pub open spec fn has_glyph(c: char) -> bool {
    code_point(c) < 128
}

/// The font's glyph for `c`.
pub open spec fn char_glyph(c: char) -> Seq<u8>
    recommends
        has_glyph(c),
{
    basic_glyph(code_point(c) as u8)
}

/// Whether every character of `text` has a glyph in the font table.
pub open spec fn printable(text: Seq<char>) -> bool {
    forall|i: int| 0 <= i < text.len() ==> has_glyph(#[trigger] text[i])
}

/// The font's glyphs for the characters of `text`, in order.
pub open spec fn text_glyphs(text: Seq<char>) -> Seq<Seq<u8>> {
    Seq::new(text.len(), |i: int| char_glyph(text[i]))
}

/// A glyph ORs its ink into the samples of the 8x8 cell at `(x, y)`, as far
/// as the cell lies on the panel, and changes no other pixel: a pixel under
/// a set bit becomes white, one under a clear bit stays as it was.
pub proof fn lemma_with_glyph_nibbles(buf: Seq<u8>, x: int, y: int, rows: Seq<u8>, u: int, v: int)
    requires
        buf.len() == BUFFER_LEN,
        rows.len() == 8,
        in_panel(u, v),
    ensures
        with_glyph(buf, x, y, rows).len() == BUFFER_LEN,
        nibble_at(with_glyph(buf, x, y, rows), u, v) == if x <= u < x + 8 && y <= v < y + 8 && ink(
            rows[v - y],
            (u - x) as u8,
        ) == WHITE {
            15u8
        } else {
            nibble_at(buf, u, v)
        },
{
    lemma_with_glyph_cells_nibbles(buf, x, y, rows, 64, u, v);
}

/// The same for the first `n` cells of a glyph.
pub proof fn lemma_with_glyph_cells_nibbles(
    buf: Seq<u8>,
    x: int,
    y: int,
    rows: Seq<u8>,
    n: nat,
    u: int,
    v: int,
)
    requires
        buf.len() == BUFFER_LEN,
        rows.len() == 8,
        n <= 64,
        in_panel(u, v),
    ensures
        with_glyph_cells(buf, x, y, rows, n).len() == BUFFER_LEN,
        nibble_at(with_glyph_cells(buf, x, y, rows, n), u, v) == if x <= u < x + 8 && y <= v < y
            + 8 && (v - y) * 8 + (u - x) < n && ink(rows[v - y], (u - x) as u8) == WHITE {
            15u8
        } else {
            nibble_at(buf, u, v)
        },
    decreases n,
{
    if n > 0 {
        let k = (n - 1) as nat;
        let before = with_glyph_cells(buf, x, y, rows, k);
        let colour = ink(rows[(k / 8) as int], (k % 8) as u8);
        lemma_with_glyph_cells_nibbles(buf, x, y, rows, k, u, v);
        let px = x + k % 8;
        let py = y + k / 8;
        if in_panel(px, py) {
            lemma_with_pixel_nibbles(before, px, py, colour, u, v);
            let old_n = nibble_at(before, u, v);
            assert(shade(WHITE) == 15 && shade(BLACK) == 0) by (bit_vector);
            assert(old_n | 0u8 == old_n) by (bit_vector);
            assert(old_n <= 15 ==> old_n | 15u8 == 15u8) by (bit_vector);
            lemma_nibble_range(before, u, v);
        }
    }
}

/// While the text fits on its first line, glyph number `n` is drawn eight
/// columns to the right of the one before it, on the starting row.
pub proof fn lemma_first_line_origin(x1: int, y1: int, n: nat)
    requires
        0 <= x1,
        0 <= y1,
        y1 + 8 <= 128,
        x1 + 8 * (n + 1) <= 128,
    ensures
        pen(x1, y1, n) == (x1 + 8 * n, y1),
        wrapped(x1, y1, pen(x1, y1, n)) == (x1 + 8 * n, y1),
    decreases n,
{
    if n > 0 {
        lemma_first_line_origin(x1, y1, (n - 1) as nat);
    }
}

/// A text that fits on its first line fills one 8x8 cell per glyph, side by
/// side from `(x1, y1)` on: a pixel under a set bit of its cell's glyph
/// becomes white, and every other pixel stays as it was.
pub proof fn lemma_first_line_nibbles(
    buf: Seq<u8>,
    x1: int,
    y1: int,
    glyphs: Seq<Seq<u8>>,
    n: nat,
    u: int,
    v: int,
)
    requires
        buf.len() == BUFFER_LEN,
        0 <= x1,
        0 <= y1,
        y1 + 8 <= 128,
        x1 + 8 * n <= 128,
        n <= glyphs.len(),
        forall|i: int| 0 <= i < glyphs.len() ==> (#[trigger] glyphs[i]).len() == 8,
        in_panel(u, v),
    ensures
        with_text(buf, x1, y1, glyphs, n).len() == BUFFER_LEN,
        nibble_at(with_text(buf, x1, y1, glyphs, n), u, v) == if x1 <= u < x1 + 8 * n && y1 <= v
            < y1 + 8 && ink(glyphs[(u - x1) / 8][v - y1], ((u - x1) % 8) as u8) == WHITE {
            15u8
        } else {
            nibble_at(buf, u, v)
        },
    decreases n,
{
    if n > 0 {
        let k = (n - 1) as nat;
        let before = with_text(buf, x1, y1, glyphs, k);
        lemma_first_line_nibbles(buf, x1, y1, glyphs, k, u, v);
        lemma_first_line_origin(x1, y1, k);
        lemma_with_glyph_nibbles(before, x1 + 8 * k, y1, glyphs[k as int], u, v);
    }
}

/// The pen never leaves the band in which 16-bit coordinates are safe.
pub proof fn lemma_pen_bounds(x1: int, y1: int, n: nat)
    requires
        0 <= x1 < 128,
        0 <= y1 < 128,
    ensures
        0 <= pen(x1, y1, n).0 <= 135,
        0 <= pen(x1, y1, n).1 <= 127,
    decreases n,
{
    if n > 0 {
        lemma_pen_bounds(x1, y1, (n - 1) as nat);
    }
}

/// The rows of each glyph, as plain sequences.
pub open spec fn glyph_rows(glyphs: Seq<[u8; 8]>) -> Seq<Seq<u8>> {
    Seq::new(glyphs.len(), |i: int| glyphs[i]@)
}

} // verus!
