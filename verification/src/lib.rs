//! Provisioning and teardown of a tree of transient mounts.
//!
//! A configuration lists copy-on-write snapshots and mounts. The library turns
//! it into the exact sequence of external commands and filesystem probes that
//! sets the tree up under a toplevel directory, and into the reversed sequence
//! that tears it down again. It never touches the system itself: every probe
//! and every command is handed to the caller as an [`engine::Action`], and the
//! caller reports back what happened as an [`engine::Event`].

pub mod cli;
pub mod command;
pub mod config;
pub mod engine;
pub mod entry;
pub mod error;
pub mod laws;
pub mod lvm;
pub mod model;
pub mod mount;
pub mod path;
pub mod plan;
