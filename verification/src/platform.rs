use vstd::prelude::*;
use crate::error::{AppError, AppErrorView};
use crate::text::str_eq;

verus! {

/// The operating systems Unity supports.
#[derive(Clone, Copy, Debug, PartialEq, Eq, Structural)]
pub enum OperatingSystem {
    Windows,
    MacOS,
    Linux,
}

/// What the host tells about itself, gathered by the caller before any
/// decision is taken.
#[derive(Debug)]
pub struct HostContext {
    /// The name the host gives its operating system.
    pub os_name: String,
    /// The directory Windows installs programs to, where the host names one.
    pub program_files: Option<String>,
    /// The user's home directory, or the reason it is unknown.
    pub home: Result<String, String>,
    /// Whether the host asks to stop short of running the merge tool.
    pub dry_run: bool,
}

/// The operating system that goes by `name`; any other name is an
/// unsupported system.
pub open spec fn os_named(name: Seq<char>) -> Result<OperatingSystem, AppErrorView> {
    if name == "windows"@ {
        Ok(OperatingSystem::Windows)
    } else if name == "macos"@ {
        Ok(OperatingSystem::MacOS)
    } else if name == "linux"@ {
        Ok(OperatingSystem::Linux)
    } else {
        Err(AppErrorView::UnsupportedOS)
    }
}

/// Tells which supported operating system the host runs.
pub fn get_current_os(host: &HostContext) -> (found: Result<OperatingSystem, AppError>)
    ensures
        match os_named(host.os_name@) {
            Ok(os) => found matches Ok(it) && it == os,
            Err(e) => found matches Err(it) && it@ == e,
        },
{
    let name = host.os_name.as_str();
    if str_eq(name, "windows") {
        Ok(OperatingSystem::Windows)
    } else if str_eq(name, "macos") {
        Ok(OperatingSystem::MacOS)
    } else if str_eq(name, "linux") {
        Ok(OperatingSystem::Linux)
    } else {
        Err(AppError::UnsupportedOS)
    }
}

} // verus!
