//! The 8x8 bitmap font that text is drawn with.

use vstd::prelude::*;

verus! {

/// The eight bytes that the `font8x8` crate's legacy basic-latin table holds
/// for code point `code`. The driver reads them as the rows of the glyph, top
/// row first, with bit 0 of a row as its leftmost pixel.
pub uninterp spec fn basic_glyph(code: u8) -> Seq<u8>;

/// Looks up a glyph in `font8x8::legacy::BASIC_LEGACY`.
///
/// Trusted, not proved: the table has 128 entries of eight bytes each, so
/// every `code` below 128 has an entry, and the entry is a fixed constant,
/// which the contract names `basic_glyph(code)`.
#[verifier::external_body]
pub(crate) fn basic_glyph_rows(code: u8) -> (rows: [u8; 8])
    requires
        code < 128,
    ensures
        rows@ == basic_glyph(code),
{
    font8x8::legacy::BASIC_LEGACY[code as usize]
}

} // verus!
