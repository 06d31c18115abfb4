//! A minimal stereo gain effect: one automatable parameter, a lock-free
//! parameter store shared with the audio path, and a textual command protocol
//! for an embedded web-rendered control surface.
//!
//! The verified core holds the parameter store, the control-surface command
//! interpreter, the plugin metadata, and the markup of the surface document.
//! Host-facing plumbing (the plugin ABI traits, the per-sample floating-point
//! multiply, the web view) lives outside the library.

pub mod html;
pub mod info;
pub mod process;
pub mod store;
pub mod surface;
