//! A minimal text-editor shell, modelled around its one piece of stateful
//! behaviour: the open / save / close action lifecycle of an editor window.
//!
//! The library holds the document buffer, the string-keyed action group that
//! dispatches the window's commands, the per-invocation state machine that
//! runs a dialog-mediated file operation, and the progress monitor that
//! normalises the fractional progress an operation reports.  All surrounding
//! presentation (widgets, the event loop, the actual file I/O) lives outside
//! the library and talks to it through plain values.

pub mod actions;
pub mod buffer;
pub mod lifecycle;
pub mod progress;
