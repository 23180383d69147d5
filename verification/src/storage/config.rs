//! Where the application keeps its files.

use vstd::prelude::*;

verus! {

/// What `std::path::Path::join` returns for a directory and a relative
/// name, both as text: the path of the name below the directory.
pub uninterp spec fn path_join(base: Seq<char>, name: Seq<char>) -> Seq<char>;

/// Calls `std::path::Path::join` on `base` with `name` and gives the path
/// back as text. The result is named, not described.
#[verifier::external_body]
fn join_path(base: &str, name: &str) -> (path: String)
    ensures
        path@ == path_join(base@, name@),
{
    std::path::Path::new(base).join(name).to_string_lossy().into_owned()
}

/// The directories of an installation: the data files and the logs lie
/// below the directory of the program.
#[derive(Debug)]
pub struct StorageConfig {
    /// `<install_dir>/data`
    pub data_dir: String,
    /// `<install_dir>/logs`
    pub logs_dir: String,
    pub install_dir: String,
}

impl Clone for StorageConfig {
    fn clone(&self) -> (r: Self)
        ensures
            r == *self,
    {
        StorageConfig {
            data_dir: self.data_dir.clone(),
            logs_dir: self.logs_dir.clone(),
            install_dir: self.install_dir.clone(),
        }
    }
}

impl StorageConfig {
    /// Whether the directories are those of the installation directory.
    pub open spec fn wf(&self) -> bool {
        &&& self.data_dir@ == path_join(self.install_dir@, "data"@)
        &&& self.logs_dir@ == path_join(self.install_dir@, "logs"@)
    }

    /// The directories of the installation in `install_dir`.
    pub fn new(install_dir: String) -> (config: Self)
        ensures
            config.wf(),
            config.install_dir@ == install_dir@,
    {
        StorageConfig {
            data_dir: join_path(install_dir.as_str(), "data"),
            logs_dir: join_path(install_dir.as_str(), "logs"),
            install_dir,
        }
    }

    /// The file of the projects.
    pub fn projects_file(&self) -> (path: String)
        ensures
            path@ == path_join(self.data_dir@, "projects.json"@),
    {
        join_path(self.data_dir.as_str(), "projects.json")
    }

    /// The file of the statistics cache.
    pub fn stats_cache_file(&self) -> (path: String)
        ensures
            path@ == path_join(self.data_dir@, "stats_cache.json"@),
    {
        join_path(self.data_dir.as_str(), "stats_cache.json")
    }

    /// The file of the configuration profiles.
    pub fn claude_profiles_file(&self) -> (path: String)
        ensures
            path@ == path_join(self.data_dir@, "claude_profiles.json"@),
    {
        join_path(self.data_dir.as_str(), "claude_profiles.json")
    }

    /// The file of the download tasks.
    pub fn download_tasks_file(&self) -> (path: String)
        ensures
            path@ == path_join(self.data_dir@, "download_tasks.json"@),
    {
        join_path(self.data_dir.as_str(), "download_tasks.json")
    }

    /// The file of the forwarding rules.
    pub fn forward_rules_file(&self) -> (path: String)
        ensures
            path@ == path_join(self.data_dir@, "forward_rules.json"@),
    {
        join_path(self.data_dir.as_str(), "forward_rules.json")
    }

    /// The file of the interactive sessions.
    pub fn netcat_sessions_file(&self) -> (path: String)
        ensures
            path@ == path_join(self.data_dir@, "netcat_sessions.json"@),
    {
        join_path(self.data_dir.as_str(), "netcat_sessions.json")
    }

    /// The file of the static file servers.
    pub fn server_configs_file(&self) -> (path: String)
        ensures
            path@ == path_join(self.data_dir@, "server_configs.json"@),
    {
        join_path(self.data_dir.as_str(), "server_configs.json")
    }

    /// The file of the labels.
    pub fn labels_file(&self) -> (path: String)
        ensures
            path@ == path_join(self.data_dir@, "labels.json"@),
    {
        join_path(self.data_dir.as_str(), "labels.json")
    }

    /// The file of the categories.
    pub fn categories_file(&self) -> (path: String)
        ensures
            path@ == path_join(self.data_dir@, "categories.json"@),
    {
        join_path(self.data_dir.as_str(), "categories.json")
    }

    /// The file of the editors.
    pub fn editors_file(&self) -> (path: String)
        ensures
            path@ == path_join(self.data_dir@, "editors.json"@),
    {
        join_path(self.data_dir.as_str(), "editors.json")
    }

    /// The file of the terminal settings.
    pub fn terminal_file(&self) -> (path: String)
        ensures
            path@ == path_join(self.data_dir@, "terminal.json"@),
    {
        join_path(self.data_dir.as_str(), "terminal.json")
    }

    /// The file of the application settings.
    pub fn app_settings_file(&self) -> (path: String)
        ensures
            path@ == path_join(self.data_dir@, "app_settings.json"@),
    {
        join_path(self.data_dir.as_str(), "app_settings.json")
    }

    /// The file of the migration state.
    pub fn migration_file(&self) -> (path: String)
        ensures
            path@ == path_join(self.data_dir@, "migration.json"@),
    {
        join_path(self.data_dir.as_str(), "migration.json")
    }

    /// The file of the interface state.
    pub fn ui_state_file(&self) -> (path: String)
        ensures
            path@ == path_join(self.data_dir@, "ui_state.json"@),
    {
        join_path(self.data_dir.as_str(), "ui_state.json")
    }

    /// The file of the notifications.
    pub fn notifications_file(&self) -> (path: String)
        ensures
            path@ == path_join(self.data_dir@, "notifications.json"@),
    {
        join_path(self.data_dir.as_str(), "notifications.json")
    }

    /// The file of the quick configurations.
    pub fn claude_quick_configs_file(&self) -> (path: String)
        ensures
            path@ == path_join(self.data_dir@, "claude_quick_configs.json"@),
    {
        join_path(self.data_dir.as_str(), "claude_quick_configs.json")
    }

    /// The file of the cache of installations.
    pub fn claude_installations_cache_file(&self) -> (path: String)
        ensures
            path@ == path_join(self.data_dir@, "claude_installations_cache.json"@),
    {
        join_path(self.data_dir.as_str(), "claude_installations_cache.json")
    }
}

} // verus!
