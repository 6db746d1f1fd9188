//! Core of a tabbed terminal application for small encoding utilities.
//!
//! The crate verifies the pieces that decide what the application does: the
//! tab registry and its saturating navigation, the run/quit and focus state
//! machine, the translation of input events into state transitions, and the
//! pure construction of a frame description from the current state. Terminal
//! acquisition, event reading and the actual drawing are left to the binary
//! around the library; base64 itself is provided by an outside crate behind
//! narrow trusted declarations.

pub mod app;
pub mod base64mod;
pub mod render;
pub mod tabs;
