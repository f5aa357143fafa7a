//! Core logic of the Tectflow frontend: application versioning, the
//! event-loop state machine behind the debug panel, and the policy for
//! picking a graphics device and its queue families.
//!
//! Window creation, the immediate-mode UI bindings and the graphics API
//! calls themselves live outside this crate; they hand plain values in
//! and take plain values back.

pub mod device;
pub mod ui;
pub mod version;
