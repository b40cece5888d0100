//! What lines, rectangles and colour fills do to the framebuffer.

use vstd::prelude::*;
use crate::pixels::{
    in_panel, lemma_shade_twice, lemma_with_block_nibbles, lemma_with_run_nibbles, nibble_at,
    shade, with_block, with_run, BUFFER_LEN,
};

verus! {

/// The buffer after a line from `(x1, y1)` to `(x2, y2)` was drawn. The
/// rasteriser's error term never falls low enough for the row to advance, so
/// what is drawn is the run of pixels along the upper row, from the left
/// column to the right one. A line with an end point off the panel draws
/// nothing.
pub open spec fn with_line(buf: Seq<u8>, x1: int, y1: int, x2: int, y2: int, colour: u16) -> Seq<
    u8,
> {
    if in_panel(x1, y1) && in_panel(x2, y2) {
        let x_start = if x1 > x2 { x2 } else { x1 };
        let x_end = if x1 > x2 { x1 } else { x2 };
        let y_start = if y1 > y2 { y2 } else { y1 };
        with_run(buf, x_start, y_start, (x_end - x_start + 1) as nat, colour)
    } else {
        buf
    }
}

/// The buffer after a rectangle with corners `(x1, y1)` and `(x2, y2)` was
/// drawn. Filled, it is one run per row from the top row down to the row
/// above the bottom one. Hollow, it is the four border lines, drawn
/// clockwise from the top. A corner off the panel draws nothing.
pub open spec fn with_rectangle(
    buf: Seq<u8>,
    x1: int,
    y1: int,
    x2: int,
    y2: int,
    colour: u16,
    filled: bool,
) -> Seq<u8> {
    if in_panel(x1, y1) && in_panel(x2, y2) {
        let xs = if x1 > x2 { x2 } else { x1 };
        let xe = if x1 > x2 { x1 } else { x2 };
        let ys = if y1 > y2 { y2 } else { y1 };
        let ye = if y1 > y2 { y1 } else { y2 };
        if filled {
            with_block(buf, xs, ys, (xe - xs + 1) as nat, (ye - ys) as nat, colour)
        } else {
            let top = with_line(buf, xs, ys, xe, ys, colour);
            let right = with_line(top, xe, ys, xe, ye, colour);
            let bottom = with_line(right, xe, ye, xs, ye, colour);
            with_line(bottom, xs, ye, xs, ys, colour)
        }
    } else {
        buf
    }
}

/// A line between two points of the panel ORs the colour into the pixels of
/// the upper row that lie between the two columns, ends included, and
/// changes no other pixel.
pub proof fn lemma_line_nibbles(
    buf: Seq<u8>,
    x1: int,
    y1: int,
    x2: int,
    y2: int,
    colour: u16,
    u: int,
    v: int,
)
    requires
        buf.len() == BUFFER_LEN,
        in_panel(x1, y1),
        in_panel(x2, y2),
        in_panel(u, v),
    ensures
        with_line(buf, x1, y1, x2, y2, colour).len() == BUFFER_LEN,
        nibble_at(with_line(buf, x1, y1, x2, y2, colour), u, v) == if v == (if y1 > y2 {
            y2
        } else {
            y1
        }) && (if x1 > x2 {
            x2
        } else {
            x1
        }) <= u <= (if x1 > x2 {
            x1
        } else {
            x2
        }) {
            nibble_at(buf, u, v) | shade(colour)
        } else {
            nibble_at(buf, u, v)
        },
{
    let x_start = if x1 > x2 { x2 } else { x1 };
    let x_end = if x1 > x2 { x1 } else { x2 };
    let y_start = if y1 > y2 { y2 } else { y1 };
    lemma_with_run_nibbles(buf, x_start, y_start, (x_end - x_start + 1) as nat, colour, u, v);
}

/// A rectangle between two corners of the panel ORs the colour into its own
/// pixels and changes no other pixel. Filled, its pixels are those between
/// the left and right columns, ends included, in the rows from the top one
/// to the one above the bottom one. Hollow, they are those between the left
/// and right columns, ends included, in the top row and in the bottom row:
/// the side lines add nothing below their top pixel.
pub proof fn lemma_rectangle_nibbles(
    buf: Seq<u8>,
    x1: int,
    y1: int,
    x2: int,
    y2: int,
    colour: u16,
    filled: bool,
    u: int,
    v: int,
)
    requires
        buf.len() == BUFFER_LEN,
        in_panel(x1, y1),
        in_panel(x2, y2),
        in_panel(u, v),
    ensures
        with_rectangle(buf, x1, y1, x2, y2, colour, filled).len() == BUFFER_LEN,
        nibble_at(with_rectangle(buf, x1, y1, x2, y2, colour, filled), u, v) == ({
            let xs = if x1 > x2 { x2 } else { x1 };
            let xe = if x1 > x2 { x1 } else { x2 };
            let ys = if y1 > y2 { y2 } else { y1 };
            let ye = if y1 > y2 { y1 } else { y2 };
            let inside = xs <= u <= xe && if filled {
                ys <= v < ye
            } else {
                v == ys || v == ye
            };
            if inside {
                nibble_at(buf, u, v) | shade(colour)
            } else {
                nibble_at(buf, u, v)
            }
        }),
{
    let xs = if x1 > x2 { x2 } else { x1 };
    let xe = if x1 > x2 { x1 } else { x2 };
    let ys = if y1 > y2 { y2 } else { y1 };
    let ye = if y1 > y2 { y1 } else { y2 };
    if filled {
        lemma_with_block_nibbles(
            buf,
            xs,
            ys,
            (xe - xs + 1) as nat,
            (ye - ys) as nat,
            colour,
            u,
            v,
        );
    } else {
        let top = with_line(buf, xs, ys, xe, ys, colour);
        let right = with_line(top, xe, ys, xe, ye, colour);
        let bottom = with_line(right, xe, ye, xs, ye, colour);
        lemma_line_nibbles(buf, xs, ys, xe, ys, colour, u, v);
        lemma_line_nibbles(top, xe, ys, xe, ye, colour, u, v);
        lemma_line_nibbles(right, xe, ye, xs, ye, colour, u, v);
        lemma_line_nibbles(bottom, xs, ye, xs, ys, colour, u, v);
        lemma_shade_twice(nibble_at(buf, u, v), colour);
        lemma_shade_twice(nibble_at(top, u, v), colour);
        lemma_shade_twice(nibble_at(right, u, v), colour);
        lemma_shade_twice(nibble_at(bottom, u, v), colour);
    }
}

/// The byte at index `i` after a colour fill: the colour goes to the high
/// half at even indices and to the low half at odd ones.
pub open spec fn filled_byte(b: u8, i: int, colour: u8) -> u8 {
    if i % 2 == 0 {
        (colour << 4) | b
    } else {
        (colour & 0x0f) | b
    }
}

/// The buffer after a colour fill.
pub open spec fn with_fill(buf: Seq<u8>, colour: u8) -> Seq<u8> {
    Seq::new(buf.len(), |i: int| filled_byte(buf[i], i, colour))
}

} // verus!
