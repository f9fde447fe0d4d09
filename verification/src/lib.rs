//! A small hosting shim for interactive graphical programs: the rules by which a
//! window is configured, a graphics device is chosen and brought up, log records
//! are laid out, and the per-frame run loop moves from start-up to shutdown.
//!
//! The library decides; the program around it performs. Every decision is a
//! function from plain values to plain values with a machine-checked contract.

pub mod app;
pub mod gfx;
pub mod logger;
pub mod trace;
pub mod window;

pub use crate::app::{ApplicationInfo, Event, RunLoop};
pub use crate::gfx::context::Context;
pub use crate::logger::{IdioError, LogLevel};
pub use crate::window::{ScreenMode, Window, WindowConfig};
