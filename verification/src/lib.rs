//! Rootless container runtime with a snapshot store over an overlay filesystem.

pub mod args;
pub mod command;
pub mod container;
pub mod digest;
pub mod image;
pub mod mount;
pub mod orchestrator;
pub mod syscall;
pub mod text;
pub mod vcs;
