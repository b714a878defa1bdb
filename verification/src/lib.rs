//! Backend library for a desktop development tool.
//!
//! The heart of the crate is the terminal session manager: a registry of
//! long-lived interactive shell sessions, each backed by a pseudo-terminal
//! and drained by a reader pump that forwards decoded output to an event
//! sink.  Around it stand small, fully specified helpers for the other
//! subsystems: file-name validation, shell-command output selection, and
//! parsing of git porcelain output.

pub mod errors;
pub mod validate;

pub mod boundaries;
pub mod decode;
pub mod pty;
pub mod registry;
pub mod pump;
pub mod commands;

pub mod gitparse;
pub mod github;
pub mod shellout;
pub mod tail;
