//! A text-mode display driver: a fixed grid of character cells in volatile
//! memory, a cursor-based writer that wraps and scrolls, and a lock-protected
//! handle that serializes every write to the one screen.

pub mod vga_buffer;
