//! What the two kinds of flush put on the bus.

use vstd::prelude::*;
use crate::bus::{command_writes, data_writes, window_sequence, BusWrite};
use crate::diff::{
    first_change, last_change, lemma_unchanged_span, lemma_unchanged_window, window_of,
    window_payload, Window,
};
use crate::pixels::BUFFER_LEN;

verus! {

/// What a full flush queues: the window commands for the whole panel, then
/// one data write per framebuffer byte.
pub open spec fn full_flush_writes(frame: Seq<u8>) -> Seq<BusWrite> {
    command_writes(window_sequence(0, 0, 127, 127)) + data_writes(frame)
}

/// What a partial flush queues: the window commands for the changed region,
/// then one data write per framebuffer byte of the changed span that falls
/// inside that window.
pub open spec fn partial_flush_writes(frame: Seq<u8>, snapshot: Seq<u8>) -> Seq<BusWrite> {
    let first = first_change(frame, snapshot);
    let last = last_change(frame, snapshot);
    let w = window_of(first, last);
    command_writes(window_sequence(w.start_column, w.start_row, w.end_column, w.end_row))
        + data_writes(window_payload(frame, w, first, last))
}

/// A partial flush of a framebuffer that equals its snapshot, as it does
/// right after a clear, falls back to the span of the whole buffer: the
/// window is column 0 of the rows 0 to 64, and the payload is what of the
/// whole buffer falls inside it.
pub proof fn lemma_flush_unchanged(frame: Seq<u8>)
    requires
        frame.len() == BUFFER_LEN,
    ensures
        first_change(frame, frame) == 0,
        last_change(frame, frame) == BUFFER_LEN,
        partial_flush_writes(frame, frame) == command_writes(window_sequence(0, 0, 0, 64))
            + data_writes(
            window_payload(
                frame,
                Window { start_column: 0, start_row: 0, end_column: 0, end_row: 64 },
                0,
                BUFFER_LEN as int,
            ),
        ),
{
    lemma_unchanged_window(frame);
    lemma_unchanged_span(frame, frame);
}

} // verus!
