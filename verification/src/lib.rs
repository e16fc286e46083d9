//! The interactive core of a terminal step sequencer: a column of time
//! steps, each silent or holding one note, with a cursor that the keyboard
//! moves.
//!
//! Everything here works on plain values. The caller owns the terminal: it
//! performs the operations that the library hands out and reports back what
//! happened.

pub mod grid;
pub mod input;
pub mod note;
pub mod render;
pub mod session;
pub mod text;
