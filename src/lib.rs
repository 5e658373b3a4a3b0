//! The core of a terminal viewer and editor for delimited-text tables: the
//! grid and its resizing, the window of it that fits on screen, how cells
//! and borders are drawn, and the modal key handling of an editing session.
//! Reading and writing the text goes through the `csv` crate.

pub mod grid;
pub mod viewport;
pub mod render;
pub mod parse;
pub mod session;
pub mod coms;
