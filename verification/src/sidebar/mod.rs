//! The sidebar: navigation items, footer toggles and recent wallpapers.
pub mod nav;
pub mod layout;
pub mod state;
pub mod clear_canvas;
