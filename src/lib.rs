//! Per-application directories and a small INI-backed key/value settings store.
//!
//! The settings store is a read/modify/persist protocol: every read parses the
//! backing file afresh and every write rewrites it whole. The file system work
//! itself is left to the caller; this crate decides what to read, what to
//! create and what to write, and proves those decisions against a model of the
//! document.

pub mod app;
pub mod config;
pub mod document;
pub mod error;
mod paths;
pub mod user_dirs;
