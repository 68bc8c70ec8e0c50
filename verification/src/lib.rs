//! Core logic of a scratchpad toggle for a tiling window manager.
//!
//! Given a target application (a command to launch, or an already running
//! window identified by a tag), the library decides whether to launch, show
//! or hide it, and computes the concrete commands to issue: searching the
//! layout tree for the tagged container, resolving the scratchpad geometry
//! against the focused display, and correlating a freshly spawned process
//! with the window it eventually creates. All I/O (the manager's IPC socket,
//! process spawning, event polling) lives outside the library; it hands the
//! library plain values and carries its structured commands to the manager.

pub mod command;
pub mod config;
pub mod controller;
pub mod geometry;
pub mod lookup;
pub mod tree;
pub mod watcher;
