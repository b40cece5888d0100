//! Driver core for a 128x128, 4-bit grayscale OLED panel on a two-wire bus.
//!
//! The crate keeps a packed framebuffer, draws into it, works out which part
//! of it changed since the last flush, and queues the bus writes that bring
//! the panel up to date. Sending the queued writes is left to the caller.

pub mod bus;
pub mod diff;
pub mod flush;
pub mod font;
pub mod pixels;
pub mod shapes;
pub mod ssd1327;
pub mod text;
