//! The platform's per-user directories that need no file to be read.
//!
//! Each root comes from the `dirs` crate, which reads it from the environment
//! and the operating system. A root is `None` where the platform has no such
//! convention or it cannot be found; what a root is depends on the machine, so
//! nothing more is stated of it.

use vstd::prelude::*;

verus! {

/// Relies on `dirs::home_dir`: the user's home directory, where the platform has one.
pub assume_specification[ dirs::home_dir ]() -> Option<std::path::PathBuf>;

/// The user's home directory, where the platform has one.
pub fn home_dir() -> Option<std::path::PathBuf> {
    dirs::home_dir()
}

/// Relies on `dirs::cache_dir`: the user's cache directory, where the platform has one.
pub assume_specification[ dirs::cache_dir ]() -> Option<std::path::PathBuf>;

/// The user's cache directory, where the platform has one.
pub fn cache_dir() -> Option<std::path::PathBuf> {
    dirs::cache_dir()
}

/// Relies on `dirs::config_dir`: the user's configuration directory, where the platform has one.
pub assume_specification[ dirs::config_dir ]() -> Option<std::path::PathBuf>;

/// The user's configuration directory, where the platform has one.
pub fn config_dir() -> Option<std::path::PathBuf> {
    dirs::config_dir()
}

/// Relies on `dirs::data_dir`: the user's data directory, where the platform has one.
pub assume_specification[ dirs::data_dir ]() -> Option<std::path::PathBuf>;

/// The user's data directory, where the platform has one.
pub fn data_dir() -> Option<std::path::PathBuf> {
    dirs::data_dir()
}

/// Relies on `dirs::data_local_dir`: the user's local data directory, where the platform has one.
pub assume_specification[ dirs::data_local_dir ]() -> Option<std::path::PathBuf>;

/// The user's local data directory, where the platform has one.
pub fn data_local_dir() -> Option<std::path::PathBuf> {
    dirs::data_local_dir()
}

/// Relies on `dirs::executable_dir`: the user's executable directory, where the platform has one.
pub assume_specification[ dirs::executable_dir ]() -> Option<std::path::PathBuf>;

/// The user's executable directory, where the platform has one.
pub fn executable_dir() -> Option<std::path::PathBuf> {
    dirs::executable_dir()
}

/// Relies on `dirs::preference_dir`: the user's preference directory, where the platform has one.
pub assume_specification[ dirs::preference_dir ]() -> Option<std::path::PathBuf>;

/// The user's preference directory, where the platform has one.
pub fn preference_dir() -> Option<std::path::PathBuf> {
    dirs::preference_dir()
}

/// Relies on `dirs::runtime_dir`: the user's runtime directory, where the platform has one.
pub assume_specification[ dirs::runtime_dir ]() -> Option<std::path::PathBuf>;

/// The user's runtime directory, where the platform has one.
pub fn runtime_dir() -> Option<std::path::PathBuf> {
    dirs::runtime_dir()
}

/// Relies on `dirs::font_dir`: the user's font directory, where the platform has one.
pub assume_specification[ dirs::font_dir ]() -> Option<std::path::PathBuf>;

/// The user's font directory, where the platform has one.
pub fn font_dir() -> Option<std::path::PathBuf> {
    dirs::font_dir()
}

} // verus!
