//! Verified model of a desktop application shell's bootstrap sequence.
//!
//! The shell itself is a thin program: it constructs an application builder,
//! registers a fixed set of prebuilt capability plugins, installs a one-time
//! setup callback that opens a developer-inspection panel in debug builds,
//! and hands control to the host's blocking run loop. All of the work behind
//! those capabilities lives in the external host and its plugins; what this
//! library owns and verifies is the bootstrap's decision logic: which
//! plugins are registered and in what order, what the setup callback does in
//! each build configuration, and how a startup failure ends the process.
//! The driver that performs the host calls consumes these decisions.

pub mod bootstrap;
pub mod plugins;
pub mod setup;
