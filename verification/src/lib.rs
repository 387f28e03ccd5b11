//! Verified interaction and layout logic for the window chrome, sidebar,
//! context menu, codec notice and wallpaper preview of an image-wall viewer.
//!
//! Rendering (GPU passes, anti-aliased painting, glyph rasterising) lives
//! outside this crate; the library holds the integer layout, the pixel copy
//! routines and the state machines that decide what a click or a cursor move
//! does.
#![allow(unused_imports)]

pub mod action;
pub mod tokens;
pub mod arith;
pub mod pixels;
pub mod chrome;
pub mod sidebar;
pub mod text;
pub mod notice;
pub mod surface;
pub mod context_menu;
pub mod wallpaper_preview;
pub mod font;
pub mod wallpaper;
