//! Window-attribute logic of a desktop wallpaper overlay: the extended style
//! bits that make a window non-activating and click-through, the state machine
//! of the overlay and settings windows, and the tray menu that drives them.
//!
//! The library decides; the host application performs the returned actions
//! on the real windows.

pub mod style;
pub mod tray;
pub mod overlay;
pub mod laws;
