//! Verified model of a desktop-shell bootstrap sequence.
//!
//! The library describes how one native application window is brought from
//! "not yet created" to "visible and running": a fixed set of capability
//! providers is registered, the window named "main" is looked up, its
//! decorations are force-disabled, it is made visible, and (in debug builds)
//! a logging provider is attached before the blocking run loop starts. Every
//! transition is a verified function; the host program performs the actual
//! window-manager and event-loop calls and feeds their outcomes back in.

pub mod bootstrap;
pub mod laws;
pub mod window;

pub use crate::bootstrap::run;
pub use crate::window::WindowState;
