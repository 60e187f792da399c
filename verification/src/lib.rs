//! A line-oriented text editor core: an in-memory buffer of lines, a
//! grapheme-aware cursor, a horizontal-scroll offset, and the mode state
//! machine that decides which user actions are heeded.
//!
//! Terminal rendering, raw input decoding, and file input/output live outside
//! this crate; they exchange plain values (lines, positions, actions) with it.

pub mod dispatch;
pub mod editor;
pub mod graphemes;
pub mod input;
pub mod laws;
pub mod render_state;
