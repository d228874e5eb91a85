//! A text-mode console driver: a fixed grid of glyph cells with packed
//! foreground/background attributes, and a writer that turns a byte stream
//! into cells on the bottom row, scrolling the grid up on each line advance.

pub mod color;
pub mod laws;
pub mod writer;

pub use color::{Color, ColorCode};
pub use writer::{sanitize, ScreenChar, Writer, BUFFER_HEIGHT, BUFFER_WIDTH};
