//! The panel driver: framebuffer, drawing primitives and the flush protocol.

use vstd::prelude::*;
use crate::bus::{
    command_write, command_writes, data_write, data_writes, init_sequence, window_sequence,
    BusWrite, Command, COMMAND_MODE, DATA_MODE,
};
use crate::diff::{changed_span, index_in_window, span_window, window_payload};
use crate::flush::{full_flush_writes, partial_flush_writes};
use crate::font::basic_glyph_rows;
use crate::pixels::{
    blank, get_pixel, in_panel, lemma_with_pixel_nibbles, nibble_at, set_pixel, shade,
    with_block, with_pixel, with_run, BLACK, BUFFER_LEN, WHITE,
};
use crate::shapes::{filled_byte, with_fill, with_line, with_rectangle};
use crate::text::{
    char_glyph, glyph_rows, has_glyph, lemma_pen_bounds, pen, printable, text_glyphs,
    with_glyph, with_glyph_cells, with_text, wrapped,
};

verus! {

/// Why an operation was refused.
#[derive(Clone, Copy, Debug, PartialEq, Eq, Structural)]
pub enum DisplayError {
    /// The panel has not been brought up, or was powered off.
    NotInitialized,
    /// The character has no glyph in the font table.
    InvalidCharacter,
}

/// Where the panel stands in its life cycle.
#[derive(Clone, Copy, Debug, PartialEq, Eq, Structural)]
pub enum PanelState {
    Uninitialized,
    Ready,
    Off,
}

/// What a driver holds, as plain values.
pub struct PanelView {
    /// The framebuffer that drawing goes to.
    pub frame: Seq<u8>,
    /// The framebuffer as it was at the last flush.
    pub snapshot: Seq<u8>,
    /// Bus writes queued and not yet taken, oldest first.
    pub outbox: Seq<BusWrite>,
    pub state: PanelState,
    pub width: u16,
    pub height: u16,
}

/// A drawing surface.
pub trait Display {
    /// Whether the surface is in a consistent state.
    spec fn valid(&self) -> bool;

    /// What the surface holds.
    spec fn panel(&self) -> PanelView;

    /// Brings the surface up for drawing.
    fn initialize(&mut self) -> (r: Result<(), DisplayError>)
        requires
            old(self).valid(),
        ensures
            final(self).valid(),
    ;

    /// Switches between inverse and normal display.
    fn invert_display(&mut self, state: bool) -> (r: Result<(), DisplayError>)
        requires
            old(self).valid(),
        ensures
            final(self).valid(),
    ;

    /// Draws one character with its top left corner at `(x1, y1)`.
    fn draw_char(&mut self, x1: i16, y1: i16, chr: char, colour: u16) -> (r: Result<
        (),
        DisplayError,
    >)
        requires
            old(self).valid(),
        ensures
            final(self).valid(),
    ;

    /// Draws a text that starts at `(x1, y1)`.
    fn draw_text(&mut self, x1: i16, y1: i16, text: &str, colour: u16) -> (r: Result<
        (),
        DisplayError,
    >)
        requires
            old(self).valid(),
        ensures
            final(self).valid(),
    ;

    /// Sets the colour of the pixel at `(x, y)`.
    fn draw_colour(&mut self, x: i16, y: i16, colour: u16) -> (r: Result<(), DisplayError>)
        requires
            old(self).valid(),
        ensures
            final(self).valid(),
    ;

    /// Draws the pixel at `(x, y)`.
    fn draw_pixel(&mut self, x: i16, y: i16, colour: u16) -> (r: Result<(), DisplayError>)
        requires
            old(self).valid(),
        ensures
            final(self).valid(),
    ;

    /// Draws a line from `(x1, y1)` to `(x2, y2)`.
    fn draw_line(&mut self, x1: i16, y1: i16, x2: i16, y2: i16, colour: u16, width: u16) -> (r:
        Result<(), DisplayError>)
        requires
            old(self).valid(),
        ensures
            final(self).valid(),
    ;

    /// Draws a rectangle with corners `(x1, y1)` and `(x2, y2)`.
    fn draw_rectangle(
        &mut self,
        x1: i16,
        y1: i16,
        x2: i16,
        y2: i16,
        colour: u16,
        filled: bool,
    ) -> (r: Result<(), DisplayError>)
        requires
            old(self).valid(),
        ensures
            final(self).valid(),
    ;

    /// Zeroes the framebuffer and the snapshot.
    fn clear(&mut self) -> (r: Result<(), DisplayError>)
        requires
            old(self).valid(),
        ensures
            final(self).valid(),
            r == Ok::<(), DisplayError>(()),
            final(self).panel() == (PanelView {
                frame: blank(BUFFER_LEN as nat),
                snapshot: blank(BUFFER_LEN as nat),
                ..old(self).panel()
            }),
    ;

    /// Fills the framebuffer with `colour` and makes the result the snapshot.
    fn clear_colour(&mut self, colour: u8) -> (r: Result<(), DisplayError>)
        requires
            old(self).valid(),
        ensures
            final(self).valid(),
            r == Ok::<(), DisplayError>(()),
            final(self).panel() == (PanelView {
                frame: with_fill(old(self).panel().frame, colour),
                snapshot: with_fill(old(self).panel().frame, colour),
                ..old(self).panel()
            }),
    ;

    /// Switches the surface off.
    fn deinitialize(&mut self) -> (r: Result<(), DisplayError>)
        requires
            old(self).valid(),
        ensures
            final(self).valid(),
    ;

    /// Shows what has been drawn.
    fn update(&mut self) -> (r: Result<(), DisplayError>)
        requires
            old(self).valid(),
        ensures
            final(self).valid(),
    ;

    /// Width of the surface in pixels.
    fn get_width(&self) -> u16;

    /// Height of the surface in pixels.
    fn get_height(&self) -> u16;

    /// The colour that text is drawn with by default.
    fn get_def_text_colour(&self) -> u16;

    /// The colour of the background by default.
    fn get_def_bg_colour(&self) -> u16;
}

/// Driver for one SSD1327 panel. Drawing changes the framebuffer; the
/// protocol operations queue bus writes, which the owner of the bus takes
/// with [`SSD1327::take_pending`] and sends.
pub struct SSD1327 {
    lcd_width: u16,
    lcd_height: u16,
    poled_buf: Vec<u8>,
    old_poled_buf: Vec<u8>,
    outbox: Vec<BusWrite>,
    state: PanelState,
}

impl View for SSD1327 {
    type V = PanelView;

    closed spec fn view(&self) -> PanelView {
        PanelView {
            frame: self.poled_buf@,
            snapshot: self.old_poled_buf@,
            outbox: self.outbox@,
            state: self.state,
            width: self.lcd_width,
            height: self.lcd_height,
        }
    }
}

/// A fresh all-zero framebuffer.
fn zeroed() -> (v: Vec<u8>)
    ensures
        v@ == blank(BUFFER_LEN as nat),
{
    let v: Vec<u8> = vec![0u8; BUFFER_LEN];
    assert(v@ =~= blank(BUFFER_LEN as nat));
    v
}

impl SSD1327 {
    /// Whether the driver is in a consistent state: both buffers are full
    /// size and the geometry is that of the panel.
    pub open spec fn wf(&self) -> bool {
        &&& self@.frame.len() == BUFFER_LEN
        &&& self@.snapshot.len() == BUFFER_LEN
        &&& self@.width == 128
        &&& self@.height == 128
    }

    /// A driver for a panel that has not been brought up yet: both buffers
    /// zero, nothing queued.
    pub fn new() -> (d: SSD1327)
        ensures
            d.wf(),
            d@.frame == blank(BUFFER_LEN as nat),
            d@.snapshot == blank(BUFFER_LEN as nat),
            d@.outbox == Seq::<BusWrite>::empty(),
            d@.state == PanelState::Uninitialized,
    {
        SSD1327 {
            lcd_width: 128,
            lcd_height: 128,
            poled_buf: zeroed(),
            old_poled_buf: zeroed(),
            outbox: Vec::new(),
            state: PanelState::Uninitialized,
        }
    }

    /// Queues one command byte.
    pub fn send_command(&mut self, c: u8)
        ensures
            final(self)@ == (PanelView {
                outbox: old(self)@.outbox.push(command_write(c)),
                ..old(self)@
            }),
    {
        self.outbox.push(BusWrite { selector: COMMAND_MODE, payload: c });
    }

    /// Queues one data byte.
    pub fn send_data(&mut self, d: u8)
        ensures
            final(self)@ == (PanelView {
                outbox: old(self)@.outbox.push(data_write(d)),
                ..old(self)@
            }),
    {
        self.outbox.push(BusWrite { selector: DATA_MODE, payload: d });
    }

    /// Hands over the queued bus writes, oldest first, and empties the queue.
    pub fn take_pending(&mut self) -> (out: Vec<BusWrite>)
        ensures
            out@ == old(self)@.outbox,
            final(self)@ == (PanelView { outbox: Seq::<BusWrite>::empty(), ..old(self)@ }),
    {
        let mut out: Vec<BusWrite> = Vec::new();
        std::mem::swap(&mut self.outbox, &mut out);
        out
    }

    /// The life-cycle state of the panel.
    pub fn state(&self) -> (s: PanelState)
        ensures
            s == self@.state,
    {
        self.state
    }

    /// The framebuffer that drawing goes to.
    pub fn buffer(&self) -> (b: &Vec<u8>)
        ensures
            b@ == self@.frame,
    {
        &self.poled_buf
    }

    /// The framebuffer as it was at the last flush.
    pub fn previous_buffer(&self) -> (b: &Vec<u8>)
        ensures
            b@ == self@.snapshot,
    {
        &self.old_poled_buf
    }

    /// The sample stored for pixel `(x, y)`, or `None` off the panel.
    pub fn pixel(&self, x: i16, y: i16) -> (r: Option<u8>)
        requires
            self.wf(),
        ensures
            in_panel(x as int, y as int) ==> r == Some(nibble_at(self@.frame, x as int, y as int)),
            !in_panel(x as int, y as int) ==> r.is_none(),
    {
        get_pixel(&self.poled_buf, x as i32, y as i32)
    }

    /// Zeroes the framebuffer and the snapshot.
    pub fn clear(&mut self)
        requires
            old(self).wf(),
        ensures
            final(self)@ == (PanelView {
                frame: blank(BUFFER_LEN as nat),
                snapshot: blank(BUFFER_LEN as nat),
                ..old(self)@
            }),
            final(self).wf(),
    {
        self.poled_buf = zeroed();
        self.old_poled_buf = zeroed();
    }

    /// ORs `colour` into every byte of the framebuffer, shifted to the high
    /// half at even byte indices, masked to the low half at odd ones, and
    /// makes the result the snapshot too.
    pub fn clear_colour(&mut self, colour: u8)
        requires
            old(self).wf(),
        ensures
            final(self)@ == (PanelView {
                frame: with_fill(old(self)@.frame, colour),
                snapshot: with_fill(old(self)@.frame, colour),
                ..old(self)@
            }),
            final(self).wf(),
    {
        let mut i: usize = 0;
        while i < BUFFER_LEN
            invariant
                i <= BUFFER_LEN,
                self.poled_buf@.len() == BUFFER_LEN,
                self@ == (PanelView { frame: self.poled_buf@, ..old(self)@ }),
                forall|j: int|
                    0 <= j < i ==> self.poled_buf@[j] == filled_byte(old(self)@.frame[j], j, colour),
                forall|j: int| i <= j < BUFFER_LEN ==> self.poled_buf@[j] == old(self)@.frame[j],
            decreases BUFFER_LEN - i,
        {
            let b: u8 = self.poled_buf[i];
            if i % 2 == 0 {
                self.poled_buf.set(i, (colour << 4) | b);
            } else {
                self.poled_buf.set(i, (colour & 0x0f) | b);
            }
            i += 1;
        }
        self.old_poled_buf = self.poled_buf.clone();
        assert(self.poled_buf@ =~= with_fill(old(self)@.frame, colour));
        assert(self.old_poled_buf@ =~= self.poled_buf@);
    }

    /// Queues the command for inverse display, or for normal display.
    pub fn invert(&mut self, state: bool)
        ensures
            final(self)@ == (PanelView {
                outbox: old(self)@.outbox.push(
                    command_write(
                        if state {
                            Command::InverseDisplay.code()
                        } else {
                            Command::NormalDisplay.code()
                        },
                    ),
                ),
                ..old(self)@
            }),
    {
        if state {
            self.send_command(Command::InverseDisplay.opcode());
        } else {
            self.send_command(Command::NormalDisplay.opcode());
        }
    }

    /// Queues the six commands that scope later data writes to the columns
    /// `x1..=x2` and the rows `y1..=y2`.
    pub fn display_window(&mut self, x1: u8, y1: u8, x2: u8, y2: u8)
        ensures
            final(self)@ == (PanelView {
                outbox: old(self)@.outbox + command_writes(window_sequence(x1, y1, x2, y2)),
                ..old(self)@
            }),
    {
        self.send_command(Command::SetColumnAddress.opcode());
        self.send_command(x1);
        self.send_command(x2);
        self.send_command(Command::SetRowAddress.opcode());
        self.send_command(y1);
        self.send_command(y2);
        assert(self@.outbox =~= old(self)@.outbox + command_writes(
            window_sequence(x1, y1, x2, y2),
        ));
    }

    /// Brings the panel up: queues the initialisation commands, zeroes both
    /// buffers, queues the command that switches the panel on, and makes the
    /// driver ready for drawing.
    pub fn begin(&mut self) -> (r: Result<(), DisplayError>)
        requires
            old(self).wf(),
        ensures
            r == Ok::<(), DisplayError>(()),
            final(self)@ == (PanelView {
                frame: blank(BUFFER_LEN as nat),
                snapshot: blank(BUFFER_LEN as nat),
                outbox: old(self)@.outbox + command_writes(
                    init_sequence().push(Command::On.code()),
                ),
                state: PanelState::Ready,
                ..old(self)@
            }),
            final(self).wf(),
    {
        self.send_command(Command::Off.opcode());
        self.send_command(Command::SetColumnAddress.opcode());
        self.send_command(0x00);
        self.send_command(0x7f);

        self.send_command(Command::SetRowAddress.opcode());
        self.send_command(0x00);
        self.send_command(0x7f);

        self.send_command(Command::SetContrastLevel.opcode());
        self.send_command(0x80);

        self.send_command(Command::SegRemap.opcode());
        self.send_command(0x51);

        self.send_command(Command::SetStartLine.opcode());
        self.send_command(0x00);

        self.send_command(Command::SetDisplayOffset.opcode());
        self.send_command(0x00);

        self.send_command(Command::ResumeToGDDRAM.opcode());
        self.send_command(Command::SetMultiplex.opcode());
        self.send_command(0x7F);

        self.send_command(Command::SetPhaseLength.opcode());
        self.send_command(0xF1);

        // 100 Hz frame rate
        self.send_command(Command::SetDisplayClockDiv.opcode());
        self.send_command(0x00);

        self.send_command(0xAB);
        self.send_command(0x01);

        self.send_command(0xB6);
        self.send_command(0x0F);

        self.send_command(0xBE);
        self.send_command(0x0F);

        self.send_command(0xBC);
        self.send_command(0x08);

        self.send_command(0xD5);
        self.send_command(0x62);

        self.send_command(0xFD);
        self.send_command(0x12);

        self.send_command(Command::SegRemap.opcode());
        self.send_command(0x51);

        self.clear();

        self.send_command(Command::On.opcode());
        self.state = PanelState::Ready;
        assert(self@.outbox =~= old(self)@.outbox + command_writes(
            init_sequence().push(Command::On.code()),
        ));
        Ok(())
    }

    /// Full flush: queues the window commands for the whole panel and then
    /// every byte of the framebuffer. Refused unless the panel is ready.
    pub fn display_all(&mut self) -> (r: Result<(), DisplayError>)
        requires
            old(self).wf(),
        ensures
            final(self).wf(),
            old(self)@.state != PanelState::Ready ==> r == Err::<(), DisplayError>(
                DisplayError::NotInitialized,
            ) && final(self)@ == old(self)@,
            old(self)@.state == PanelState::Ready ==> r == Ok::<(), DisplayError>(())
                && final(self)@ == (PanelView {
                outbox: old(self)@.outbox + full_flush_writes(old(self)@.frame),
                ..old(self)@
            }),
    {
        if self.state != PanelState::Ready {
            return Err(DisplayError::NotInitialized);
        }
        let x: u8 = (self.lcd_width - 1) as u8;
        let y: u8 = (self.lcd_height - 1) as u8;
        self.display_window(0, 0, x, y);
        let ghost head = self@.outbox;
        let mut i: usize = 0;
        while i < BUFFER_LEN
            invariant
                i <= BUFFER_LEN,
                self@.frame.len() == BUFFER_LEN,
                self@ == (PanelView {
                    outbox: head + data_writes(old(self)@.frame.subrange(0, i as int)),
                    ..old(self)@
                }),
            decreases BUFFER_LEN - i,
        {
            let data: u8 = self.poled_buf[i];
            self.send_data(data);
            assert(self@.outbox =~= head + data_writes(
                old(self)@.frame.subrange(0, i as int + 1),
            ));
            i += 1;
        }
        assert(old(self)@.frame.subrange(0, BUFFER_LEN as int) =~= old(self)@.frame);
        assert(self@.outbox =~= old(self)@.outbox + full_flush_writes(old(self)@.frame));
        Ok(())
    }

    /// Partial flush: queues the window commands for the region that changed
    /// since the last flush and the framebuffer bytes inside it, then makes
    /// the framebuffer the snapshot and zeroes the framebuffer. Refused
    /// unless the panel is ready.
    pub fn display(&mut self) -> (r: Result<(), DisplayError>)
        requires
            old(self).wf(),
        ensures
            final(self).wf(),
            old(self)@.state != PanelState::Ready ==> r == Err::<(), DisplayError>(
                DisplayError::NotInitialized,
            ) && final(self)@ == old(self)@,
            old(self)@.state == PanelState::Ready ==> r == Ok::<(), DisplayError>(())
                && final(self)@ == (PanelView {
                frame: blank(BUFFER_LEN as nat),
                snapshot: old(self)@.frame,
                outbox: old(self)@.outbox + partial_flush_writes(
                    old(self)@.frame,
                    old(self)@.snapshot,
                ),
                ..old(self)@
            }),
    {
        if self.state != PanelState::Ready {
            return Err(DisplayError::NotInitialized);
        }
        let span = changed_span(&self.poled_buf, &self.old_poled_buf);
        let first_change: usize = span.0;
        let last_change: usize = span.1;
        let w = span_window(first_change, last_change);
        self.display_window(w.start_column, w.start_row, w.end_column, w.end_row);
        let ghost head = self@.outbox;
        let mut i: usize = first_change;
        while i < last_change
            invariant
                first_change <= i <= last_change <= BUFFER_LEN,
                self@.frame.len() == BUFFER_LEN,
                self@ == (PanelView {
                    outbox: head + data_writes(
                        window_payload(old(self)@.frame, w, first_change as int, i as int),
                    ),
                    ..old(self)@
                }),
            decreases last_change - i,
        {
            if index_in_window(&w, i) {
                let data: u8 = self.poled_buf[i];
                self.send_data(data);
            }
            assert(self@.outbox =~= head + data_writes(
                window_payload(old(self)@.frame, w, first_change as int, i as int + 1),
            ));
            i += 1;
        }
        let mut sent: Vec<u8> = zeroed();
        std::mem::swap(&mut self.poled_buf, &mut sent);
        self.old_poled_buf = sent;
        assert(self@.outbox =~= old(self)@.outbox + partial_flush_writes(
            old(self)@.frame,
            old(self)@.snapshot,
        ));
        Ok(())
    }

    /// Draws an 8x8 glyph with its top left corner at `(x1, y1)`: white where
    /// a row has its bit set, black elsewhere; cells off the panel are
    /// skipped. Refused unless the panel is ready.
    pub fn draw_glyph(&mut self, x1: i16, y1: i16, rows: &[u8; 8]) -> (r: Result<
        (),
        DisplayError,
    >)
        requires
            old(self).wf(),
        ensures
            final(self).wf(),
            old(self)@.state != PanelState::Ready ==> r == Err::<(), DisplayError>(
                DisplayError::NotInitialized,
            ) && final(self)@ == old(self)@,
            old(self)@.state == PanelState::Ready ==> r == Ok::<(), DisplayError>(())
                && final(self)@ == (PanelView {
                frame: with_glyph(old(self)@.frame, x1 as int, y1 as int, rows@),
                ..old(self)@
            }),
    {
        if self.state != PanelState::Ready {
            return Err(DisplayError::NotInitialized);
        }
        let mut row: u8 = 0;
        while row < 8
            invariant
                row <= 8,
                self@ == (PanelView {
                    frame: with_glyph_cells(
                        old(self)@.frame,
                        x1 as int,
                        y1 as int,
                        rows@,
                        (row * 8) as nat,
                    ),
                    ..old(self)@
                }),
                self@.frame.len() == BUFFER_LEN,
            decreases 8 - row,
        {
            let bits: u8 = rows[row as usize];
            let mut bit: u8 = 0;
            while bit < 8
                invariant
                    row < 8,
                    bit <= 8,
                    bits == rows@[row as int],
                    self@ == (PanelView {
                        frame: with_glyph_cells(
                            old(self)@.frame,
                            x1 as int,
                            y1 as int,
                            rows@,
                            (row * 8 + bit) as nat,
                        ),
                        ..old(self)@
                    }),
                    self@.frame.len() == BUFFER_LEN,
                decreases 8 - bit,
            {
                let colour: u16 = if bits & (1u8 << bit) != 0 {
                    WHITE
                } else {
                    BLACK
                };
                set_pixel(&mut self.poled_buf, x1 as i32 + bit as i32, y1 as i32 + row as i32, colour);
                bit += 1;
            }
            row += 1;
        }
        Ok(())
    }

    /// Draws `glyphs` as a line of text that starts at `(x1, y1)`, eight
    /// columns per glyph. A glyph that would cross the right edge goes to the
    /// next line, eight rows down; if that line would cross the bottom edge,
    /// the text starts over at `(x1, y1)`. A start off the panel draws
    /// nothing. Refused unless the panel is ready.
    pub fn draw_glyphs(&mut self, x1: i16, y1: i16, glyphs: &Vec<[u8; 8]>) -> (r: Result<
        (),
        DisplayError,
    >)
        requires
            old(self).wf(),
        ensures
            final(self).wf(),
            old(self)@.state != PanelState::Ready ==> r == Err::<(), DisplayError>(
                DisplayError::NotInitialized,
            ) && final(self)@ == old(self)@,
            old(self)@.state == PanelState::Ready ==> r == Ok::<(), DisplayError>(()),
            old(self)@.state == PanelState::Ready && !in_panel(x1 as int, y1 as int) ==> final(self)@ == old(self)@,
            old(self)@.state == PanelState::Ready && in_panel(x1 as int, y1 as int) ==> final(self)@ == (PanelView {
                frame: with_text(
                    old(self)@.frame,
                    x1 as int,
                    y1 as int,
                    glyph_rows(glyphs@),
                    glyphs@.len(),
                ),
                ..old(self)@
            }),
    {
        if self.state != PanelState::Ready {
            return Err(DisplayError::NotInitialized);
        }
        if x1 > 127 || y1 > 127 || x1 < 0 || y1 < 0 {
            return Ok(());
        }
        let mut x_point: i16 = x1;
        let mut y_point: i16 = y1;
        let n: usize = glyphs.len();
        let mut i: usize = 0;
        while i < n
            invariant
                i <= n,
                n == glyphs@.len(),
                in_panel(x1 as int, y1 as int),
                (x_point as int, y_point as int) == pen(x1 as int, y1 as int, i as nat),
                self@.state == PanelState::Ready,
                self@ == (PanelView {
                    frame: with_text(
                        old(self)@.frame,
                        x1 as int,
                        y1 as int,
                        glyph_rows(glyphs@),
                        i as nat,
                    ),
                    ..old(self)@
                }),
                self@.frame.len() == BUFFER_LEN,
                self.wf(),
            decreases n - i,
        {
            proof {
                lemma_pen_bounds(x1 as int, y1 as int, i as nat);
            }
            if x_point + 8 > 128 {
                x_point = x1;
                y_point += 8;
            }
            if y_point + 8 > 128 {
                x_point = x1;
                y_point = y1;
            }
            assert((x_point as int, y_point as int) == wrapped(
                x1 as int,
                y1 as int,
                pen(x1 as int, y1 as int, i as nat),
            ));
            let _ = self.draw_glyph(x_point, y_point, &glyphs[i]);
            x_point = x_point + 8;
            i += 1;
        }
        Ok(())
    }
}

impl Display for SSD1327 {
    open spec fn valid(&self) -> bool {
        self.wf()
    }

    open spec fn panel(&self) -> PanelView {
        self@
    }

    /// Queues the normal-display command and then brings the panel up.
    fn initialize(&mut self) -> (r: Result<(), DisplayError>)
        ensures
            r == Ok::<(), DisplayError>(()),
            final(self)@ == (PanelView {
                frame: blank(BUFFER_LEN as nat),
                snapshot: blank(BUFFER_LEN as nat),
                outbox: old(self)@.outbox.push(command_write(Command::NormalDisplay.code()))
                    + command_writes(init_sequence().push(Command::On.code())),
                state: PanelState::Ready,
                ..old(self)@
            }),
    {
        self.invert(false);
        self.begin()
    }

    /// Queues the command for inverse display, or for normal display.
    fn invert_display(&mut self, state: bool) -> (r: Result<(), DisplayError>)
        ensures
            r == Ok::<(), DisplayError>(()),
            final(self)@ == (PanelView {
                outbox: old(self)@.outbox.push(
                    command_write(
                        if state {
                            Command::InverseDisplay.code()
                        } else {
                            Command::NormalDisplay.code()
                        },
                    ),
                ),
                ..old(self)@
            }),
    {
        self.invert(state);
        Ok(())
    }

    /// Draws the font's glyph for `chr` with its top left corner at
    /// `(x1, y1)`. The glyph is always white on black: `colour` has no
    /// effect. Refused unless the panel is ready, and for a character that
    /// the font table does not hold.
    fn draw_char(&mut self, x1: i16, y1: i16, chr: char, colour: u16) -> (r: Result<
        (),
        DisplayError,
    >)
        ensures
            old(self)@.state != PanelState::Ready ==> r == Err::<(), DisplayError>(
                DisplayError::NotInitialized,
            ) && final(self)@ == old(self)@,
            old(self)@.state == PanelState::Ready && !has_glyph(chr) ==> r == Err::<
                (),
                DisplayError,
            >(DisplayError::InvalidCharacter) && final(self)@ == old(self)@,
            old(self)@.state == PanelState::Ready && has_glyph(chr) ==> r == Ok::<
                (),
                DisplayError,
            >(()) && final(self)@ == (PanelView {
                frame: with_glyph(old(self)@.frame, x1 as int, y1 as int, char_glyph(chr)),
                ..old(self)@
            }),
    {
        if self.state != PanelState::Ready {
            return Err(DisplayError::NotInitialized);
        }
        let code: u32 = chr as u32;
        if code >= 128 {
            return Err(DisplayError::InvalidCharacter);
        }
        let rows = basic_glyph_rows(code as u8);
        self.draw_glyph(x1, y1, &rows)
    }

    /// Draws `text` from `(x1, y1)` on, one glyph per character, wrapping at
    /// the right edge and starting over at `(x1, y1)` at the bottom edge.
    /// The glyphs are always white on black: `colour` has no effect. A start
    /// off the panel draws nothing. Refused unless the panel is ready; a
    /// text with a character that the font table does not hold is refused
    /// as a whole.
    fn draw_text(&mut self, x1: i16, y1: i16, text: &str, colour: u16) -> (r: Result<
        (),
        DisplayError,
    >)
        ensures
            old(self)@.state != PanelState::Ready ==> r == Err::<(), DisplayError>(
                DisplayError::NotInitialized,
            ) && final(self)@ == old(self)@,
            old(self)@.state == PanelState::Ready && !in_panel(x1 as int, y1 as int) ==> r
                == Ok::<(), DisplayError>(()) && final(self)@ == old(self)@,
            old(self)@.state == PanelState::Ready && in_panel(x1 as int, y1 as int) && !printable(
                text@,
            ) ==> r == Err::<(), DisplayError>(DisplayError::InvalidCharacter) && final(self)@
                == old(self)@,
            old(self)@.state == PanelState::Ready && in_panel(x1 as int, y1 as int) && printable(
                text@,
            ) ==> r == Ok::<(), DisplayError>(()) && final(self)@ == (PanelView {
                frame: with_text(
                    old(self)@.frame,
                    x1 as int,
                    y1 as int,
                    text_glyphs(text@),
                    text@.len(),
                ),
                ..old(self)@
            }),
    {
        if self.state != PanelState::Ready {
            return Err(DisplayError::NotInitialized);
        }
        if x1 > 127 || y1 > 127 || x1 < 0 || y1 < 0 {
            return Ok(());
        }
        let n: usize = text.unicode_len();
        let mut glyphs: Vec<[u8; 8]> = Vec::new();
        let mut i: usize = 0;
        while i < n
            invariant
                i <= n,
                n == text@.len(),
                glyphs@.len() == i,
                forall|j: int| 0 <= j < i ==> has_glyph(#[trigger] text@[j]),
                forall|j: int| 0 <= j < i ==> (#[trigger] glyphs@[j])@ == char_glyph(text@[j]),
                self@ == old(self)@,
                self.wf(),
                self@.state == PanelState::Ready,
                in_panel(x1 as int, y1 as int),
            decreases n - i,
        {
            let chr: char = text.get_char(i);
            let code: u32 = chr as u32;
            if code >= 128 {
                assert(!has_glyph(text@[i as int]));
                return Err(DisplayError::InvalidCharacter);
            }
            let rows = basic_glyph_rows(code as u8);
            glyphs.push(rows);
            i += 1;
        }
        assert(glyph_rows(glyphs@) =~= text_glyphs(text@));
        self.draw_glyphs(x1, y1, &glyphs)
    }

    /// ORs the low four bits of `colour` into the sample of pixel `(x, y)`.
    /// A point off the panel is ignored. Refused unless the panel is ready.
    fn draw_colour(&mut self, x: i16, y: i16, colour: u16) -> (r: Result<(), DisplayError>)
        ensures
            old(self)@.state != PanelState::Ready ==> r == Err::<(), DisplayError>(
                DisplayError::NotInitialized,
            ) && final(self)@ == old(self)@,
            old(self)@.state == PanelState::Ready ==> r == Ok::<(), DisplayError>(())
                && final(self)@ == (PanelView {
                frame: with_pixel(old(self)@.frame, x as int, y as int, colour),
                ..old(self)@
            }),
            old(self)@.state == PanelState::Ready && in_panel(x as int, y as int) ==> nibble_at(
                final(self)@.frame,
                x as int,
                y as int,
            ) == nibble_at(old(self)@.frame, x as int, y as int) | shade(colour),
            !in_panel(x as int, y as int) ==> final(self)@ == old(self)@,
    {
        if self.state != PanelState::Ready {
            return Err(DisplayError::NotInitialized);
        }
        proof {
            if in_panel(x as int, y as int) {
                lemma_with_pixel_nibbles(
                    self@.frame,
                    x as int,
                    y as int,
                    colour,
                    x as int,
                    y as int,
                );
            }
        }
        set_pixel(&mut self.poled_buf, x as i32, y as i32, colour);
        Ok(())
    }

    /// ORs the low four bits of `colour` into the sample of pixel `(x, y)`.
    /// A point off the panel is ignored. Refused unless the panel is ready.
    fn draw_pixel(&mut self, x: i16, y: i16, colour: u16) -> (r: Result<(), DisplayError>)
        ensures
            old(self)@.state != PanelState::Ready ==> r == Err::<(), DisplayError>(
                DisplayError::NotInitialized,
            ) && final(self)@ == old(self)@,
            old(self)@.state == PanelState::Ready ==> r == Ok::<(), DisplayError>(())
                && final(self)@ == (PanelView {
                frame: with_pixel(old(self)@.frame, x as int, y as int, colour),
                ..old(self)@
            }),
            old(self)@.state == PanelState::Ready && in_panel(x as int, y as int) ==> nibble_at(
                final(self)@.frame,
                x as int,
                y as int,
            ) == nibble_at(old(self)@.frame, x as int, y as int) | shade(colour),
            !in_panel(x as int, y as int) ==> final(self)@ == old(self)@,
    {
        if self.state != PanelState::Ready {
            return Err(DisplayError::NotInitialized);
        }
        if x > 127 || y > 127 || x < 0 || y < 0 {
            return Ok(());
        }
        self.draw_colour(x, y, colour)
    }

    /// Draws a line between two points of the panel, one pixel wide:
    /// `width` has no effect. If either end point lies off the panel,
    /// nothing is drawn. Refused unless the panel is ready.
    fn draw_line(&mut self, x1: i16, y1: i16, x2: i16, y2: i16, colour: u16, width: u16) -> (r:
        Result<(), DisplayError>)
        ensures
            old(self)@.state != PanelState::Ready ==> r == Err::<(), DisplayError>(
                DisplayError::NotInitialized,
            ) && final(self)@ == old(self)@,
            old(self)@.state == PanelState::Ready ==> r == Ok::<(), DisplayError>(())
                && final(self)@ == (PanelView {
                frame: with_line(
                    old(self)@.frame,
                    x1 as int,
                    y1 as int,
                    x2 as int,
                    y2 as int,
                    colour,
                ),
                ..old(self)@
            }),
            !(in_panel(x1 as int, y1 as int) && in_panel(x2 as int, y2 as int)) ==> final(self)@
                == old(self)@,
    {
        if self.state != PanelState::Ready {
            return Err(DisplayError::NotInitialized);
        }
        if x1 > 127 || y1 > 127 || x1 < 0 || y1 < 0 {
            return Ok(());
        }
        if x2 > 127 || y2 > 127 || x2 < 0 || y2 < 0 {
            return Ok(());
        }
        let mut x_start: i16 = x1;
        let mut x_end: i16 = x2;
        if x1 > x2 {
            x_start = x2;
            x_end = x1;
        }
        let mut y_start: i16 = y1;
        let mut y_end: i16 = y2;
        if y1 > y2 {
            y_start = y2;
            y_end = y1;
        }
        let mut x_point: i16 = x_start;
        let mut y_point: i16 = y_start;
        let dx: i16 = x_end - x_start;
        let dy: i16 = y_end - y_start;
        let mut esp: i16 = dx + dy;
        loop
            invariant_except_break
                x_start <= x_point <= x_end,
                y_point == y_start,
                dx + dy <= esp <= 254 + 127 * (x_point - x_start),
                self@ == (PanelView {
                    frame: with_run(
                        old(self)@.frame,
                        x_start as int,
                        y_start as int,
                        (x_point - x_start) as nat,
                        colour,
                    ),
                    ..old(self)@
                }),
            invariant
                0 <= x_start <= x_end <= 127,
                0 <= y_start <= y_end <= 127,
                dx == x_end - x_start,
                dy == y_end - y_start,
                self@.frame.len() == BUFFER_LEN,
            ensures
                self@ == (PanelView {
                    frame: with_run(
                        old(self)@.frame,
                        x_start as int,
                        y_start as int,
                        (x_end - x_start + 1) as nat,
                        colour,
                    ),
                    ..old(self)@
                }),
            decreases x_end - x_point,
        {
            set_pixel(&mut self.poled_buf, x_point as i32, y_point as i32, colour);
            if 2 * esp >= dy {
                if x_point == x_end {
                    break ;
                }
                esp += dy;
                x_point += 1;
            }
            if 2 * esp <= dx {
                if y_point == y_end {
                    break ;
                }
                esp += dx;
                y_point += 1;
            }
        }
        Ok(())
    }

    /// Draws a rectangle between two corners of the panel. Filled, it covers
    /// the rows from the top one down to the row above the bottom one;
    /// hollow, it is the four border lines. If either corner lies off the
    /// panel, nothing is drawn. Refused unless the panel is ready.
    fn draw_rectangle(
        &mut self,
        x1: i16,
        y1: i16,
        x2: i16,
        y2: i16,
        colour: u16,
        filled: bool,
    ) -> (r: Result<(), DisplayError>)
        ensures
            old(self)@.state != PanelState::Ready ==> r == Err::<(), DisplayError>(
                DisplayError::NotInitialized,
            ) && final(self)@ == old(self)@,
            old(self)@.state == PanelState::Ready ==> r == Ok::<(), DisplayError>(())
                && final(self)@ == (PanelView {
                frame: with_rectangle(
                    old(self)@.frame,
                    x1 as int,
                    y1 as int,
                    x2 as int,
                    y2 as int,
                    colour,
                    filled,
                ),
                ..old(self)@
            }),
            !(in_panel(x1 as int, y1 as int) && in_panel(x2 as int, y2 as int)) ==> final(self)@
                == old(self)@,
    {
        if self.state != PanelState::Ready {
            return Err(DisplayError::NotInitialized);
        }
        if x1 > 127 || y1 > 127 || x1 < 0 || y1 < 0 {
            return Ok(());
        }
        if x2 > 127 || y2 > 127 || x2 < 0 || y2 < 0 {
            return Ok(());
        }
        let mut x_start: i16 = x1;
        let mut x_end: i16 = x2;
        if x1 > x2 {
            x_start = x2;
            x_end = x1;
        }
        let mut y_start: i16 = y1;
        let mut y_end: i16 = y2;
        if y1 > y2 {
            y_start = y2;
            y_end = y1;
        }
        if filled {
            let mut y_point: i16 = y_start;
            while y_point < y_end
                invariant
                    0 <= x_start <= x_end <= 127,
                    0 <= y_start <= y_point <= y_end <= 127,
                    self.wf(),
                    old(self)@.state == PanelState::Ready,
                    self@ == (PanelView {
                        frame: with_block(
                            old(self)@.frame,
                            x_start as int,
                            y_start as int,
                            (x_end - x_start + 1) as nat,
                            (y_point - y_start) as nat,
                            colour,
                        ),
                        ..old(self)@
                    }),
                decreases y_end - y_point,
            {
                let _ = self.draw_line(x_start, y_point, x_end, y_point, colour, 1);
                assert(with_block(
                    old(self)@.frame,
                    x_start as int,
                    y_start as int,
                    (x_end - x_start + 1) as nat,
                    (y_point - y_start + 1) as nat,
                    colour,
                ) == with_run(
                    with_block(
                        old(self)@.frame,
                        x_start as int,
                        y_start as int,
                        (x_end - x_start + 1) as nat,
                        (y_point - y_start) as nat,
                        colour,
                    ),
                    x_start as int,
                    y_point as int,
                    (x_end - x_start + 1) as nat,
                    colour,
                ));
                y_point += 1;
            }
        } else {
            let _ = self.draw_line(x_start, y_start, x_end, y_start, colour, 1);
            let _ = self.draw_line(x_end, y_start, x_end, y_end, colour, 1);
            let _ = self.draw_line(x_end, y_end, x_start, y_end, colour, 1);
            let _ = self.draw_line(x_start, y_end, x_start, y_start, colour, 1);
        }
        Ok(())
    }

    fn clear(&mut self) -> (r: Result<(), DisplayError>) {
        SSD1327::clear(self);
        Ok(())
    }

    fn clear_colour(&mut self, colour: u8) -> (r: Result<(), DisplayError>) {
        SSD1327::clear_colour(self, colour);
        Ok(())
    }

    /// Queues the command that switches the panel off; the driver then
    /// refuses drawing and flushing until the panel is brought up again.
    fn deinitialize(&mut self) -> (r: Result<(), DisplayError>)
        ensures
            r == Ok::<(), DisplayError>(()),
            final(self)@ == (PanelView {
                outbox: old(self)@.outbox.push(command_write(Command::Off.code())),
                state: PanelState::Off,
                ..old(self)@
            }),
    {
        self.send_command(Command::Off.opcode());
        self.state = PanelState::Off;
        Ok(())
    }

    /// Full flush of the framebuffer. Refused unless the panel is ready.
    fn update(&mut self) -> (r: Result<(), DisplayError>)
        ensures
            old(self)@.state != PanelState::Ready ==> r == Err::<(), DisplayError>(
                DisplayError::NotInitialized,
            ) && final(self)@ == old(self)@,
            old(self)@.state == PanelState::Ready ==> r == Ok::<(), DisplayError>(())
                && final(self)@ == (PanelView {
                outbox: old(self)@.outbox + full_flush_writes(old(self)@.frame),
                ..old(self)@
            }),
    {
        self.display_all()
    }

    /// Width of the panel in pixels.
    fn get_width(&self) -> (w: u16)
        ensures
            w == self@.width,
    {
        self.lcd_width
    }

    /// Height of the panel in pixels.
    fn get_height(&self) -> (h: u16)
        ensures
            h == self@.height,
    {
        self.lcd_height
    }

    /// Text is white by default.
    fn get_def_text_colour(&self) -> (c: u16)
        ensures
            c == WHITE,
    {
        WHITE
    }

    /// The background is black by default.
    fn get_def_bg_colour(&self) -> (c: u16)
        ensures
            c == BLACK,
    {
        BLACK
    }
}

} // verus!
