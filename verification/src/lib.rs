//! Selection and viewport engine of a terminal byte inspector.
//!
//! - [`cursor`]: a selection of bytes as a half-open range of offsets in a
//!   64-bit address space, with moves that saturate at the ends of that
//!   space and keep the width of the selection, and an undo and redo
//!   history of selections.
//! - [`source`]: a fetched window of bytes with the offsets it covers, and
//!   what a source of bytes offers.
//! - [`viewport`]: which window to fetch for a display of some rows and
//!   columns, and how the selection follows what the source had.
//! - [`navigation`]: what the keys mean and what they do to the history.
//! - [`display`]: the rows of the hexadecimal and the character display.
//! - [`info`]: the selected bytes read as a number.
//! - [`terminal`]: colours for terminals of different depth.

pub mod cursor;
pub mod display;
pub mod info;
pub mod navigation;
pub mod source;
pub mod terminal;
pub mod viewport;
