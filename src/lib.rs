//! A scrolling-text animation engine for a 5×5 LED matrix.
//!
//! Each scroll step moves the brightness buffer one column to the left and
//! reveals the next column of the message's glyphs at its right edge, with a
//! randomly jittered brightness for every lit pixel.

pub mod buffer;
pub mod cursor;
pub mod glyph;
pub mod engine;
pub mod registry;
