//! The custom window title bar: window buttons, tab strip and drag region.
pub mod constants;
pub mod controls;
pub mod geometry;
pub mod state;
pub mod tab_strip;
