//! The wallpaper preview dialog: layout, visuals and interaction state.
pub mod layout;
pub mod state;
pub mod compose;
