//! The packed pixel buffer: two 4-bit samples per byte, 64 bytes per row.

use vstd::prelude::*;

verus! {

pub const BLACK: u16 = 0x00;
pub const WHITE: u16 = 0x0F;
pub const LT_GREY: u16 = 0x03;
pub const DK_GREY: u16 = 0x0C;
pub const LCD_WIDTH: u16 = 128;
pub const LCD_HEIGHT: u16 = 128;
/// Bytes in one framebuffer: half a byte per pixel.
pub const BUFFER_LEN: usize = 8192;

/// Whether `(x, y)` addresses a pixel of the panel.
pub open spec fn in_panel(x: int, y: int) -> bool {
    0 <= x < 128 && 0 <= y < 128
}

/// Index of the byte that holds pixel `(x, y)`.
pub open spec fn byte_index(x: int, y: int) -> int {
    x / 2 + y * 64
}

/// The four bits of `colour` that the panel can show.
pub open spec fn shade(colour: u16) -> u8 {
    (colour & 0x0f) as u8
}

/// The byte `b` after `colour` has been OR-ed into its high or low half.
pub open spec fn merged(b: u8, high: bool, colour: u16) -> u8 {
    if high {
        (shade(colour) << 4) | b
    } else {
        shade(colour) | b
    }
}

/// The high or low half of `b`, as a value from 0 to 15.
pub open spec fn half(b: u8, high: bool) -> u8 {
    if high {
        b >> 4
    } else {
        b & 0x0f
    }
}

/// The sample stored for pixel `(x, y)`: even columns sit in the high half.
pub open spec fn nibble_at(buf: Seq<u8>, x: int, y: int) -> u8
    recommends
        in_panel(x, y),
        buf.len() == BUFFER_LEN,
{
    half(buf[byte_index(x, y)], x % 2 == 0)
}

/// The buffer after `colour` was drawn at `(x, y)`; unchanged when the point
/// lies off the panel.
pub open spec fn with_pixel(buf: Seq<u8>, x: int, y: int, colour: u16) -> Seq<u8> {
    if in_panel(x, y) {
        buf.update(byte_index(x, y), merged(buf[byte_index(x, y)], x % 2 == 0, colour))
    } else {
        buf
    }
}

/// The buffer after `colour` was drawn at the `n` pixels of row `y` that
/// start at column `x`, left to right.
pub open spec fn with_run(buf: Seq<u8>, x: int, y: int, n: nat, colour: u16) -> Seq<u8>
    decreases n,
{
    if n == 0 {
        buf
    } else {
        with_pixel(with_run(buf, x, y, (n - 1) as nat, colour), x + n - 1, y, colour)
    }
}

/// The buffer after `rows` runs of `n` pixels were drawn, one per row from
/// row `y` downwards, each starting at column `x`.
pub open spec fn with_block(buf: Seq<u8>, x: int, y: int, n: nat, rows: nat, colour: u16) -> Seq<u8>
    decreases rows,
{
    if rows == 0 {
        buf
    } else {
        with_run(with_block(buf, x, y, n, (rows - 1) as nat, colour), x, y + rows - 1, n, colour)
    }
}

/// A buffer of `n` zero bytes.
pub open spec fn blank(n: nat) -> Seq<u8> {
    Seq::new(n, |i: int| 0u8)
}

/// Merging a colour into one half of a byte ORs it into that half and leaves
/// the other half as it was.
pub proof fn lemma_merged_halves(b: u8, high: bool, colour: u16)
    ensures
        half(merged(b, high, colour), high) == half(b, high) | shade(colour),
        half(merged(b, high, colour), !high) == half(b, !high),
        shade(colour) <= 15,
{
    let c = shade(colour);
    assert(c <= 15) by (bit_vector)
        requires
            c == (colour & 0x0f) as u8,
    ;
    assert(((c << 4) | b) >> 4 == (b >> 4) | c) by (bit_vector)
        requires
            c <= 15,
    ;
    assert(((c << 4) | b) & 0x0f == b & 0x0f) by (bit_vector)
        requires
            c <= 15,
    ;
    assert((c | b) & 0x0f == (b & 0x0f) | c) by (bit_vector)
        requires
            c <= 15,
    ;
    assert((c | b) >> 4 == b >> 4) by (bit_vector)
        requires
            c <= 15,
    ;
}

/// Drawing a pixel on the panel ORs the colour into that pixel's sample and
/// changes no other pixel; the buffer keeps its length.
pub proof fn lemma_with_pixel_nibbles(buf: Seq<u8>, x: int, y: int, colour: u16, u: int, v: int)
    requires
        buf.len() == BUFFER_LEN,
        in_panel(x, y),
        in_panel(u, v),
    ensures
        with_pixel(buf, x, y, colour).len() == BUFFER_LEN,
        nibble_at(with_pixel(buf, x, y, colour), x, y) == nibble_at(buf, x, y) | shade(colour),
        (u != x || v != y) ==> nibble_at(with_pixel(buf, x, y, colour), u, v) == nibble_at(
            buf,
            u,
            v,
        ),
{
    let b = buf[byte_index(x, y)];
    lemma_merged_halves(b, x % 2 == 0, colour);
}

/// Drawing off the panel changes nothing.
pub proof fn lemma_with_pixel_off_panel(buf: Seq<u8>, x: int, y: int, colour: u16)
    requires
        !in_panel(x, y),
    ensures
        with_pixel(buf, x, y, colour) == buf,
{
}

/// OR-ing the same colour in a second time changes nothing.
pub proof fn lemma_shade_twice(n: u8, colour: u16)
    ensures
        (n | shade(colour)) | shade(colour) == n | shade(colour),
{
    let c = shade(colour);
    assert((n | c) | c == n | c) by (bit_vector);
}

/// A run that lies on the panel ORs the colour into the samples of its own
/// pixels and changes no other pixel.
pub proof fn lemma_with_run_nibbles(
    buf: Seq<u8>,
    x: int,
    y: int,
    n: nat,
    colour: u16,
    u: int,
    v: int,
)
    requires
        buf.len() == BUFFER_LEN,
        0 <= x,
        x + n <= 128,
        0 <= y < 128,
        in_panel(u, v),
    ensures
        with_run(buf, x, y, n, colour).len() == BUFFER_LEN,
        nibble_at(with_run(buf, x, y, n, colour), u, v) == if v == y && x <= u < x + n {
            nibble_at(buf, u, v) | shade(colour)
        } else {
            nibble_at(buf, u, v)
        },
    decreases n,
{
    if n > 0 {
        let before = with_run(buf, x, y, (n - 1) as nat, colour);
        lemma_with_run_nibbles(buf, x, y, (n - 1) as nat, colour, u, v);
        lemma_with_pixel_nibbles(before, x + n - 1, y, colour, u, v);
    }
}

/// A block that lies on the panel ORs the colour into the samples of its
/// own pixels, the columns `x..x + n` of the rows `y..y + rows`, and changes
/// no other pixel.
pub proof fn lemma_with_block_nibbles(
    buf: Seq<u8>,
    x: int,
    y: int,
    n: nat,
    rows: nat,
    colour: u16,
    u: int,
    v: int,
)
    requires
        buf.len() == BUFFER_LEN,
        0 <= x,
        x + n <= 128,
        0 <= y,
        y + rows <= 128,
        in_panel(u, v),
    ensures
        with_block(buf, x, y, n, rows, colour).len() == BUFFER_LEN,
        nibble_at(with_block(buf, x, y, n, rows, colour), u, v) == if x <= u < x + n && y <= v < y
            + rows {
            nibble_at(buf, u, v) | shade(colour)
        } else {
            nibble_at(buf, u, v)
        },
    decreases rows,
{
    if rows > 0 {
        let before = with_block(buf, x, y, n, (rows - 1) as nat, colour);
        lemma_with_block_nibbles(buf, x, y, n, (rows - 1) as nat, colour, u, v);
        lemma_with_run_nibbles(before, x, y + rows - 1, n, colour, u, v);
    }
}

/// A sample is a value from 0 to 15.
pub proof fn lemma_nibble_range(buf: Seq<u8>, u: int, v: int)
    requires
        buf.len() == BUFFER_LEN,
        in_panel(u, v),
    ensures
        nibble_at(buf, u, v) <= 15,
{
    let b = buf[byte_index(u, v)];
    assert(b >> 4 <= 15) by (bit_vector);
    assert(b & 0x0f <= 15) by (bit_vector);
}

/// ORs `colour` into the sample of pixel `(x, y)`; a point off the panel is
/// ignored.
pub fn set_pixel(buf: &mut Vec<u8>, x: i32, y: i32, colour: u16)
    requires
        old(buf)@.len() == BUFFER_LEN,
    ensures
        final(buf)@ == with_pixel(old(buf)@, x as int, y as int, colour),
        final(buf)@.len() == BUFFER_LEN,
{
    if x < 0 || x > 127 || y < 0 || y > 127 {
        return ;
    }
    let loc: usize = (x / 2 + y * 64) as usize;
    let c: u8 = (colour & 0x0f) as u8;
    assert(c <= 15) by (bit_vector)
        requires
            c == (colour & 0x0f) as u8,
    ;
    let b: u8 = buf[loc];
    if x % 2 == 0 {
        buf.set(loc, (c << 4) | b);
    } else {
        buf.set(loc, c | b);
    }
}

/// Reads the sample of pixel `(x, y)`, or `None` for a point off the panel.
pub fn get_pixel(buf: &Vec<u8>, x: i32, y: i32) -> (r: Option<u8>)
    requires
        buf@.len() == BUFFER_LEN,
    ensures
        in_panel(x as int, y as int) ==> r == Some(nibble_at(buf@, x as int, y as int)),
        !in_panel(x as int, y as int) ==> r.is_none(),
{
    if x < 0 || x > 127 || y < 0 || y > 127 {
        return None;
    }
    let loc: usize = (x / 2 + y * 64) as usize;
    let b: u8 = buf[loc];
    if x % 2 == 0 {
        Some(b >> 4)
    } else {
        Some(b & 0x0f)
    }
}

} // verus!
