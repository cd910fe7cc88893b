//! An application's name, and its directories and settings files.

use crate::config::Config;
use crate::paths::join_path;
use crate::user_dirs;
use vstd::prelude::*;

verus! {

/// An application: its name, which names its directories, and optionally the
/// name of its default settings file.
pub struct App {
    pub name: &'static str,
    pub config_file: Option<&'static str>,
}

/// An application called `name`, whose default settings file is `config_file`
/// (`None`: the file "config").
pub fn app(name: &'static str, config_file: Option<&'static str>) -> (r: App)
    ensures
        r.name == name,
        r.config_file == config_file,
{
    App { name, config_file }
}

/// The directory `name` under `root`, where there is a root.
fn app_dir(root: Option<std::path::PathBuf>, name: &str) -> (r: Option<std::path::PathBuf>)
    ensures
        r is Some <==> root is Some,
{
    match root {
        Some(base) => Some(join_path(&base, name)),
        None => None,
    }
}

impl App {
    /// The name of the default settings file.
    pub open spec fn default_file(&self) -> Seq<char> {
        match self.config_file {
            Some(f) => f@,
            None => "config"@,
        }
    }

    /// A handle on the default settings file in the application's
    /// configuration directory, scoped to the general section; `None` where
    /// the platform has no configuration directory.
    pub fn config(&self) -> (r: Option<Config>)
        ensures
            r matches Some(c) ==> c.file_name() == self.default_file() && c.scope() is None,
    {
        let file: &'static str = match self.config_file {
            Some(f) => f,
            None => "config",
        };
        self.config_file(file)
    }

    /// A handle on the settings file `file` in the application's configuration
    /// directory, scoped to the general section; `None` where the platform has
    /// no configuration directory.
    pub fn config_file(&self, file: &'static str) -> (r: Option<Config>)
        ensures
            r matches Some(c) ==> c.file_name() == file@ && c.scope() is None,
    {
        match user_dirs::config_dir() {
            Some(root) => Some(self.config_file_under(&root, file)),
            None => None,
        }
    }

    /// A handle on the settings file `file` in the application's directory
    /// under the configuration root `root`, scoped to the general section.
    pub fn config_file_under(&self, root: &std::path::PathBuf, file: &'static str) -> (r: Config)
        ensures
            r.file_name() == file@,
            r.scope() is None,
    {
        Config::from(join_path(root, self.name), file)
    }

    /// The application's cache directory, where the platform has a cache root.
    pub fn cache_dir(&self) -> Option<std::path::PathBuf> {
        app_dir(user_dirs::cache_dir(), self.name)
    }

    /// The application's configuration directory, where the platform has a
    /// configuration root.
    pub fn config_dir(&self) -> Option<std::path::PathBuf> {
        app_dir(user_dirs::config_dir(), self.name)
    }

    /// The application's data directory, where the platform has a data root.
    pub fn data_dir(&self) -> Option<std::path::PathBuf> {
        app_dir(user_dirs::data_dir(), self.name)
    }

    /// The application's local data directory, where the platform has a local
    /// data root.
    pub fn data_local_dir(&self) -> Option<std::path::PathBuf> {
        app_dir(user_dirs::data_local_dir(), self.name)
    }

    /// The application's preference directory, where the platform has a
    /// preference root.
    pub fn preference_dir(&self) -> Option<std::path::PathBuf> {
        app_dir(user_dirs::preference_dir(), self.name)
    }
}

} // verus!
