use vstd::prelude::*;
use crate::error::{AppError, AppErrorView};
use crate::hub::{
    base_installations_path, get_unityhub_base_installations_path, get_unityhub_installations,
    hub_installations, installation_views, HubEntry, UnityInstallation,
    UnityInstallationCollection,
};
use crate::path::PathKind;
use crate::platform::{get_current_os, os_named, HostContext, OperatingSystem};
use crate::project::{project_version, ProjectVersionFile};
use crate::select::{choose_best_installation, selection, versions_of};
use crate::tool::{get_yamltool, located_yamltool, yamltool_location, yamltool_path};

verus! {

/// A search that waits for the listing of the installations directory.
#[derive(Debug)]
pub struct PendingScan {
    /// The operating system the host runs.
    pub os: OperatingSystem,
    /// What the host told about itself.
    pub host: HostContext,
    /// The directory to list.
    pub root: String,
}

/// A search that waits for the project's version file.
#[derive(Debug)]
pub struct PendingChoice {
    /// The operating system the host runs.
    pub os: OperatingSystem,
    /// Whether the host asks to stop short of running the merge tool.
    pub dry_run: bool,
    /// The installations to choose from, of which there is at least one.
    pub installations: UnityInstallationCollection,
}

/// A search that waits to hear what lies where the merge tool belongs.
#[derive(Debug)]
pub struct PendingTool {
    /// The operating system the host runs.
    pub os: OperatingSystem,
    /// Whether the host asks to stop short of running the merge tool.
    pub dry_run: bool,
    /// The chosen installation.
    pub installation: UnityInstallation,
    /// The path to look at.
    pub tool: String,
}

/// What the caller is to do next. The first three ask the host a question,
/// and the search goes on with the answer; the others end it.
#[derive(Debug)]
pub enum Step {
    /// List the entries of `root`, and answer with `PendingScan::listed`.
    ListInstallations(PendingScan),
    /// Look at the version file of the project in the working directory,
    /// and answer with `PendingChoice::read`.
    ReadProjectVersion(PendingChoice),
    /// Look at `tool`, and answer with `PendingTool::probed`.
    ProbeYamlTool(PendingTool),
    /// Run the merge tool at this path and hand on its exit code.
    Launch(String),
    /// The merge tool is at this path, and the host asked not to run it.
    DryRun(String),
    /// The search failed.
    Fail(AppError),
}

/// Whether `step` is the failure `e`.
pub open spec fn is_failure(step: Step, e: AppErrorView) -> bool {
    step matches Step::Fail(it) && it@ == e
}

/// Starts the search on this host.
///
/// Fails on an operating system that Unity does not support, then where
/// the installations directory is unknown; otherwise asks for its listing.
pub fn start(host: HostContext) -> (step: Step)
    ensures
        match os_named(host.os_name@) {
            Err(e) => is_failure(step, e),
            Ok(os) => match base_installations_path(os, host) {
                Err(e) => is_failure(step, e),
                Ok(root) => {
                    &&& step matches Step::ListInstallations(pending)
                    &&& pending.os == os
                    &&& pending.host == host
                    &&& pending.root@ == root
                },
            },
        },
{
    let os = match get_current_os(&host) {
        Ok(os) => os,
        Err(e) => { return Step::Fail(e); },
    };
    match get_unityhub_base_installations_path(os, &host) {
        Ok(root) => Step::ListInstallations(PendingScan { os, host, root }),
        Err(e) => Step::Fail(e),
    }
}

impl PendingScan {
    /// Goes on with the listing of `root`, or with nothing where the host
    /// could not list it.
    ///
    /// Fails where the directory could not be listed, then where it holds
    /// no installation; otherwise asks for the project's version file.
    pub fn listed(self, listing: Option<Vec<HubEntry>>) -> (step: Step)
        ensures
            match hub_installations(self.os, self.host, listing) {
                Err(e) => is_failure(step, e),
                Ok(found) => if found.len() == 0 {
                    is_failure(step, AppErrorView::NoUnityInstallations)
                } else {
                    &&& step matches Step::ReadProjectVersion(pending)
                    &&& pending.os == self.os
                    &&& pending.dry_run == self.host.dry_run
                    &&& installation_views(pending.installations@) == found
                },
            },
    {
        let installations = match get_unityhub_installations(self.os, &self.host, &listing) {
            Ok(installations) => installations,
            Err(e) => { return Step::Fail(e); },
        };
        if installations.len() == 0 {
            return Step::Fail(AppError::NoUnityInstallations);
        }
        Step::ReadProjectVersion(
            PendingChoice { os: self.os, dry_run: self.host.dry_run, installations },
        )
    }
}

impl PendingChoice {
    /// Goes on with what the host found at
    /// `project_version_file_path(workdir)`, where `workdir` is the working
    /// directory.
    ///
    /// Fails where no installation can be selected, then where the merge
    /// tool has no known place on this operating system; otherwise asks what
    /// lies at that place in the selected installation.
    pub fn read(self, workdir: &str, file: ProjectVersionFile) -> (step: Step)
        ensures
            match selection(project_version(file), versions_of(self.installations@)) {
                Err(e) => is_failure(step, e),
                Ok(at) => match yamltool_location(self.os, self.installations@[at].path@) {
                    Err(e) => is_failure(step, e),
                    Ok(tool) => {
                        &&& step matches Step::ProbeYamlTool(pending)
                        &&& pending.os == self.os
                        &&& pending.dry_run == self.dry_run
                        &&& pending.installation@ == self.installations@[at]@
                        &&& pending.tool@ == tool
                    },
                },
            },
    {
        let installation = match choose_best_installation(workdir, &file, &self.installations) {
            Ok(chosen) => chosen.clone(),
            Err(e) => { return Step::Fail(e); },
        };
        match yamltool_path(self.os, installation.path.as_str()) {
            Ok(tool) => Step::ProbeYamlTool(
                PendingTool { os: self.os, dry_run: self.dry_run, installation, tool },
            ),
            Err(e) => Step::Fail(e),
        }
    }
}

impl PendingTool {
    /// Goes on with what the host found at `tool`.
    ///
    /// Fails where nothing is there; otherwise the search ends with the
    /// merge tool, to be run unless the host asked for a dry run.
    pub fn probed(self, kind: PathKind) -> (step: Step)
        ensures
            match located_yamltool(self.os, self.installation.path@, kind) {
                Err(e) => is_failure(step, e),
                Ok(path) => if self.dry_run {
                    step matches Step::DryRun(tool) && tool@ == path
                } else {
                    step matches Step::Launch(tool) && tool@ == path
                },
            },
    {
        match get_yamltool(self.os, self.installation.path.as_str(), kind) {
            Ok(tool) => if self.dry_run {
                Step::DryRun(tool)
            } else {
                Step::Launch(tool)
            },
            Err(e) => Step::Fail(e),
        }
    }
}

} // verus!
