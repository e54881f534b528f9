//! A minimal terminal-graphics core: a grid of styled cells rendered into one
//! escape-code stream, and the decisions behind raw input mode.

pub mod error;
pub mod glyph;
pub mod screen;
pub mod term;

pub use crate::error::Error;
pub use crate::glyph::{
    encode, Color, Glyph, GLYPH_BLINK, GLYPH_BOLD, GLYPH_ITALIC, GLYPH_LIGHT, GLYPH_LINE, GLYPH_STRIKE,
};
pub use crate::screen::Screen;
pub use crate::term::{read_char, read_u8, show_cursor, sync, RawAction, RawMode, TermConfig};
