//! The notice about missing image codecs: its text, its box and its state.
pub mod kind;
pub mod text;
pub mod geometry;
pub mod state;
