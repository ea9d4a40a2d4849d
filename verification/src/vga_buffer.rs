//! The text buffer and its writer.
//!
//! - [`color`]: the palette and the attribute byte.
//! - [`buffer`]: the cell grid in volatile memory.
//! - [`screen`]: the mathematical model of the screen.
//! - [`laws`]: what scrolling, wrapping, sanitizing and clearing guarantee.
//! - [`writer`]: the cursor that wraps, scrolls and sanitizes.
//! - [`shared`]: the one writer that everybody prints through, behind a lock.

pub mod buffer;
pub mod color;
pub mod laws;
pub mod screen;
pub mod shared;
pub mod writer;

pub use buffer::{Buffer, Cells, ScreenChar, BUFFER_HEIGHT, BUFFER_WIDTH};
pub use color::{Color, ColorCode};
pub use screen::Screen;
pub use shared::{SharedWriter, _print, glyph, prepare_test, print_screen_serial};
pub use writer::{sanitize, Writer};
