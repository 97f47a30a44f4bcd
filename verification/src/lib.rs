//! A desktop-activity probe library: detects foreground-window focus changes,
//! resolves the focused window's metadata (owning process id, executable path,
//! window title), and formats one activity record per change.
//!
//! The platform's windowing queries and the event sink live outside this
//! crate; the detection, debouncing, resolution and formatting logic here is
//! verified.

pub mod detector;
pub mod event;
pub mod probe;
pub mod resolver;
pub mod snapshot;
