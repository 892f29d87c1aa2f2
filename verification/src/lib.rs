//! Verified wiring layer for a desktop application shell.
//!
//! The host GUI framework owns the window, the event loop and the plugin
//! registry; this library owns every decision that layer makes: which menu
//! is declared (ids, labels, accelerators, order), how a menu activation is
//! routed to the main window, and how startup fails fast when a capability
//! plugin cannot be registered.

pub mod events;
pub mod menu;
pub mod startup;
