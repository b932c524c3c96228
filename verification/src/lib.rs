//! Focus tracking library: observes which window holds operating-system
//! input focus and reports focus-change events — identity (process, title)
//! and a normalized RGBA8 icon raster — as a deduplicated stream.
//!
//! The verified core is the focus state machine (`state`), the icon
//! normalization pipeline (`icon`), the configuration and error model, and
//! the loop-driver decisions (`source`); the OS-facing loop drivers that
//! feed them live outside this crate.

pub mod config;
pub mod error;
pub mod focus_tracker;
pub mod focused_window;
pub mod icon;
pub mod icon_fallback;
pub mod source;
pub mod state;

pub use config::{FocusTrackerConfig, IconConfig};
pub use error::{FerrousFocusError, FerrousFocusResult};
pub use focus_tracker::FocusTracker;
pub use focused_window::{FocusedWindow, IconExt};
pub use icon::RasterImage;
pub use source::{ImplFocusTracker, should_stop};
pub use state::{FocusSignal, FocusState, WindowIdentity};
