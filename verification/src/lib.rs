//! Locating Unity Hub editor installations and the `UnityYAMLMerge` tool that
//! ships with them.
//!
//! Every decision is a function of plain values: the host's answers (the name
//! of the operating system, environment variables, directory listings, file
//! contents) are handed in by the caller, and what comes back are paths to
//! look at, the chosen installation, or a typed error.

pub mod error;
pub mod hub;
pub mod launch;
pub mod path;
pub mod platform;
pub mod project;
pub mod select;
pub mod text;
pub mod tool;
pub mod version;

pub use error::AppError;
pub use hub::{
    collect_installations, get_unityhub_base_app_path, get_unityhub_base_installations_path,
    get_unityhub_installations, unity_executable_path, HubEntry, UnityInstallation,
    UnityInstallationCollection,
};
pub use launch::{start, PendingChoice, PendingScan, PendingTool, Step};
pub use path::{join_path, PathKind};
pub use platform::{get_current_os, HostContext, OperatingSystem};
pub use project::{
    locate_project_version_file, parse_project_version_file, project_version_file_path,
    read_project_version, ProjectVersionFile,
};
pub use select::{
    choose_best_installation, find_installation, latest_installation, select_installation,
};
pub use tool::{get_yamltool, yamltool_path};
pub use version::ranks_at_most;
