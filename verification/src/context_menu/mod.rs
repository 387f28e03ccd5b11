//! The context menu of a canvas slot: "Show in Explorer" and "Move to Trash".
pub mod layout;
pub mod state;
