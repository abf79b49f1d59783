//! A tray-resident window: the visibility state machine that reacts to tray
//! clicks, focus loss and the menu, and the rule that anchors the window to
//! the tray icon before it is shown.

pub mod geometry;
pub mod controller;
pub mod router;
pub mod laws;
pub mod greeting;
