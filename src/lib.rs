//! The state and the event decisions of a native view that hosts a web view
//! and keeps a window's caption-bar buttons at a configured inset.

pub mod parent;
pub mod traffic_lights;
