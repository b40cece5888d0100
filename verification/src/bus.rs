//! The two-byte bus transactions and the panel's command opcodes.

use vstd::prelude::*;

verus! {

/// Seven-bit bus address of the panel.
pub const ADDR: u16 = 0x3D;
/// Register selector that marks the payload as a command byte.
pub const COMMAND_MODE: u8 = 0x00;
/// Register selector that marks the payload as pixel data.
pub const DATA_MODE: u8 = 0x40;

/// One bus transaction: a register selector followed by one payload byte.
#[derive(Clone, Copy, Debug, PartialEq, Eq, Structural)]
pub struct BusWrite {
    pub selector: u8,
    pub payload: u8,
}

/// The commands of the panel controller.
#[derive(Clone, Copy, Debug, PartialEq, Eq, Structural)]
pub enum Command {
    InverseDisplay,
    NormalDisplay,
    Off,
    On,
    SetContrastLevel,
    ActivateScroll,
    ResumeToGDDRAM,
    SetDisplayOffset,
    SetDisplayClockDiv,
    SetMultiplex,
    SetLowColumn,
    SetHighColumn,
    SetStartLine,
    SegRemap,
    SetVerticalScrollArea,
    RightHorizontalScroll,
    LeftHorizontalScroll,
    VerticalAndRightHorizontalScroll,
    VerticalAndLeftHorizontalScroll,
    SetColumnAddress,
    SetRowAddress,
    SetPhaseLength,
}

impl Command {
    /// The byte that stands for this command on the wire.
    pub open spec fn code(self) -> u8 {
        match self {
            Command::InverseDisplay => 0xA7,
            Command::NormalDisplay => 0xA6,
            Command::Off => 0xAE,
            Command::On => 0xAF,
            Command::SetContrastLevel => 0x81,
            Command::ActivateScroll => 0x2F,
            Command::ResumeToGDDRAM => 0xA4,
            Command::SetDisplayOffset => 0xD3,
            Command::SetDisplayClockDiv => 0xB3,
            Command::SetMultiplex => 0xA8,
            Command::SetLowColumn => 0x00,
            Command::SetHighColumn => 0x10,
            Command::SetStartLine => 0x40,
            Command::SegRemap => 0xA0,
            Command::SetVerticalScrollArea => 0xA3,
            Command::RightHorizontalScroll => 0x26,
            Command::LeftHorizontalScroll => 0x27,
            Command::VerticalAndRightHorizontalScroll => 0x29,
            Command::VerticalAndLeftHorizontalScroll => 0x2A,
            Command::SetColumnAddress => 0x15,
            Command::SetRowAddress => 0x75,
            Command::SetPhaseLength => 0xB1,
        }
    }

    /// The byte that stands for this command on the wire.
    pub fn opcode(self) -> (r: u8)
        ensures
            r == self.code(),
    {
        match self {
            Command::InverseDisplay => 0xA7,
            Command::NormalDisplay => 0xA6,
            Command::Off => 0xAE,
            Command::On => 0xAF,
            Command::SetContrastLevel => 0x81,
            Command::ActivateScroll => 0x2F,
            Command::ResumeToGDDRAM => 0xA4,
            Command::SetDisplayOffset => 0xD3,
            Command::SetDisplayClockDiv => 0xB3,
            Command::SetMultiplex => 0xA8,
            Command::SetLowColumn => 0x00,
            Command::SetHighColumn => 0x10,
            Command::SetStartLine => 0x40,
            Command::SegRemap => 0xA0,
            Command::SetVerticalScrollArea => 0xA3,
            Command::RightHorizontalScroll => 0x26,
            Command::LeftHorizontalScroll => 0x27,
            Command::VerticalAndRightHorizontalScroll => 0x29,
            Command::VerticalAndLeftHorizontalScroll => 0x2A,
            Command::SetColumnAddress => 0x15,
            Command::SetRowAddress => 0x75,
            Command::SetPhaseLength => 0xB1,
        }
    }
}

/// The transaction that carries command byte `c`.
pub open spec fn command_write(c: u8) -> BusWrite {
    BusWrite { selector: COMMAND_MODE, payload: c }
}

/// The transaction that carries data byte `d`.
pub open spec fn data_write(d: u8) -> BusWrite {
    BusWrite { selector: DATA_MODE, payload: d }
}

/// One command transaction for each byte, in order.
pub open spec fn command_writes(bytes: Seq<u8>) -> Seq<BusWrite> {
    Seq::new(bytes.len(), |i: int| command_write(bytes[i]))
}

/// One data transaction for each byte, in order.
pub open spec fn data_writes(bytes: Seq<u8>) -> Seq<BusWrite> {
    Seq::new(bytes.len(), |i: int| data_write(bytes[i]))
}

/// The command bytes that bring the panel up, in the order they are sent,
/// up to the point where the framebuffer is cleared.
pub open spec fn init_sequence() -> Seq<u8> {
    seq![
        0xAEu8, 0x15, 0x00, 0x7F, 0x75, 0x00, 0x7F, 0x81, 0x80, 0xA0, 0x51, 0x40, 0x00, 0xD3, 0x00,
        0xA4, 0xA8, 0x7F, 0xB1, 0xF1, 0xB3, 0x00, 0xAB, 0x01, 0xB6, 0x0F, 0xBE, 0x0F, 0xBC, 0x08,
        0xD5, 0x62, 0xFD, 0x12, 0xA0, 0x51,
    ]
}

/// The six command bytes that scope later data writes to the columns
/// `x1..=x2` and the rows `y1..=y2`.
pub open spec fn window_sequence(x1: u8, y1: u8, x2: u8, y2: u8) -> Seq<u8> {
    seq![0x15u8, x1, x2, 0x75u8, y1, y2]
}

} // verus!
