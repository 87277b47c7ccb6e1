use vstd::prelude::*;
use crate::error::{text_outcome, AppError, AppErrorView};
use crate::path::{join_path, joined, PathKind};
use crate::platform::{HostContext, OperatingSystem};

verus! {

/// One editor that Unity Hub installed.
#[derive(Debug)]
pub struct UnityInstallation {
    /// The editor's version, which is the name of its directory.
    pub version: String,
    /// The directory that holds the editor.
    pub path: String,
}

/// An installation as contracts see it.
pub ghost struct InstallationView {
    pub version: Seq<char>,
    pub path: Seq<char>,
}

impl View for UnityInstallation {
    type V = InstallationView;

    open spec fn view(&self) -> InstallationView {
        InstallationView { version: self.version@, path: self.path@ }
    }
}

impl Clone for UnityInstallation {
    fn clone(&self) -> (copy: Self)
        ensures
            copy == *self,
    {
        UnityInstallation { version: self.version.clone(), path: self.path.clone() }
    }
}

/// The editors found on a host, in the order in which they were listed. Two
/// of them may have the same version.
pub type UnityInstallationCollection = Vec<UnityInstallation>;

/// One entry of the directory that holds the installations, with what the
/// host found out about it.
#[derive(Debug)]
pub struct HubEntry {
    /// The entry's name within the directory.
    pub name: String,
    /// What the entry itself is.
    pub kind: PathKind,
    /// What lies where the editor's executable would be, had the entry been
    /// an installation: at `unity_executable_path` of the entry's path.
    pub executable: PathKind,
}

/// A directory entry as contracts see it.
pub ghost struct HubEntryView {
    pub name: Seq<char>,
    pub kind: PathKind,
    pub executable: PathKind,
}

impl View for HubEntry {
    type V = HubEntryView;

    open spec fn view(&self) -> HubEntryView {
        HubEntryView { name: self.name@, kind: self.kind, executable: self.executable }
    }
}

impl Clone for HubEntry {
    fn clone(&self) -> (copy: Self)
        ensures
            copy == *self,
    {
        HubEntry { name: self.name.clone(), kind: self.kind, executable: self.executable }
    }
}

/// The views of a run of installations, in the same order.
pub open spec fn installation_views(found: Seq<UnityInstallation>) -> Seq<InstallationView> {
    found.map_values(|installation: UnityInstallation| installation@)
}

/// The views of a run of directory entries, in the same order.
pub open spec fn entry_views(entries: Seq<HubEntry>) -> Seq<HubEntryView> {
    entries.map_values(|entry: HubEntry| entry@)
}

/// Where Windows installs programs when the host does not say.
pub open spec fn default_program_files() -> Seq<char> {
    "C:\\Program Files"@
}

/// Where macOS keeps applications.
pub open spec fn macos_applications() -> Seq<char> {
    "/Applications"@
}

/// Where Unity Hub keeps the editors, below the directory for applications.
pub open spec fn hub_subpath() -> Seq<char> {
    "Unity/Hub/Editor"@
}

/// The directory under which Unity Hub installs. Windows has the one the
/// host names, or a default; macOS has a fixed one; Linux has the home
/// directory, and where that is unknown the error carries the reason.
pub open spec fn base_app_path(os: OperatingSystem, host: HostContext) -> Result<
    Seq<char>,
    AppErrorView,
> {
    match os {
        OperatingSystem::Windows => Ok(
            match host.program_files {
                Some(dir) => dir@,
                None => default_program_files(),
            },
        ),
        OperatingSystem::MacOS => Ok(macos_applications()),
        OperatingSystem::Linux => match host.home {
            Ok(dir) => Ok(dir@),
            Err(reason) => Err(AppErrorView::BasedirFindIssue(reason@)),
        },
    }
}

/// The directory that holds one directory per installed editor.
pub open spec fn base_installations_path(os: OperatingSystem, host: HostContext) -> Result<
    Seq<char>,
    AppErrorView,
> {
    match base_app_path(os, host) {
        Ok(base) => Ok(joined(base, hub_subpath())),
        Err(e) => Err(e),
    }
}

/// Finds the directory under which Unity Hub installs on this host.
///
/// Windows and macOS always have one. Linux has one exactly when the home
/// directory is known.
pub fn get_unityhub_base_app_path(os: OperatingSystem, host: &HostContext) -> (found: Result<
    String,
    AppError,
>)
    ensures
        text_outcome(found) == base_app_path(os, *host),
{
    match os {
        OperatingSystem::Windows => match &host.program_files {
            Some(dir) => Ok(dir.clone()),
            None => Ok("C:\\Program Files".to_owned()),
        },
        OperatingSystem::MacOS => Ok("/Applications".to_owned()),
        OperatingSystem::Linux => match &host.home {
            Ok(dir) => Ok(dir.clone()),
            Err(reason) => Err(AppError::BasedirFindIssue(reason.clone())),
        },
    }
}

/// Finds the directory that holds one directory per installed editor.
pub fn get_unityhub_base_installations_path(os: OperatingSystem, host: &HostContext) -> (found:
    Result<String, AppError>)
    ensures
        text_outcome(found) == base_installations_path(os, *host),
{
    match get_unityhub_base_app_path(os, host) {
        Ok(base) => Ok(join_path(base.as_str(), "Unity/Hub/Editor")),
        Err(e) => Err(e),
    }
}

/// Where the editor's executable lies below an installation's directory.
pub open spec fn executable_subpath(os: OperatingSystem) -> Seq<char> {
    match os {
        OperatingSystem::Windows => "Editor/Unity.exe"@,
        OperatingSystem::MacOS => "Editor/MacOS/Unity"@,
        OperatingSystem::Linux => "Editor/Unity"@,
    }
}

/// The path at which an installation in `editor_dir` has its executable.
pub fn unity_executable_path(os: OperatingSystem, editor_dir: &str) -> (path: String)
    ensures
        path@ == joined(editor_dir@, executable_subpath(os)),
{
    match os {
        OperatingSystem::Windows => join_path(editor_dir, "Editor/Unity.exe"),
        OperatingSystem::MacOS => join_path(editor_dir, "Editor/MacOS/Unity"),
        OperatingSystem::Linux => join_path(editor_dir, "Editor/Unity"),
    }
}

/// Whether a directory entry is an installed editor: a directory with a
/// regular file where the executable belongs.
pub open spec fn is_editor(entry: HubEntryView) -> bool {
    entry.kind == PathKind::Directory && entry.executable == PathKind::File
}

/// The installation that an editor entry of the directory `root` stands
/// for: its version is the entry's name, and it lies in the entry.
pub open spec fn installation_of(root: Seq<char>, entry: HubEntryView) -> InstallationView {
    InstallationView { version: entry.name, path: joined(root, entry.name) }
}

/// The installation that the entry `entry` of the directory `root` stands
/// for, if it is one.
pub open spec fn installation_at(root: Seq<char>, entry: HubEntryView) -> Option<
    InstallationView,
> {
    if is_editor(entry) {
        Some(installation_of(root, entry))
    } else {
        None
    }
}

/// The installations among the entries of the directory `root`, in the
/// order of the listing.
pub open spec fn installations_in(root: Seq<char>, entries: Seq<HubEntryView>) -> Seq<
    InstallationView,
> {
    entries.filter_map(|entry: HubEntryView| installation_at(root, entry))
}

/// One more entry at the end of a listing adds its installation at the end
/// if it is an editor, and nothing if it is not.
pub proof fn lemma_one_more_entry(root: Seq<char>, entries: Seq<HubEntryView>, entry: HubEntryView)
    ensures
        installations_in(root, entries.push(entry)) == if is_editor(entry) {
            installations_in(root, entries).push(installation_of(root, entry))
        } else {
            installations_in(root, entries)
        },
{
    assert(entries.push(entry).drop_last() =~= entries);
}

/// Of a directory that holds one editor and one entry that is none, a
/// stray file or a directory without the executable, the installations are
/// the editor alone, in whichever order the two are listed.
pub proof fn lemma_decoy_is_passed_over(root: Seq<char>, editor: HubEntryView, decoy: HubEntryView)
    requires
        is_editor(editor),
        !is_editor(decoy),
    ensures
        installations_in(root, seq![editor, decoy]) == seq![installation_of(root, editor)],
        installations_in(root, seq![decoy, editor]) == seq![installation_of(root, editor)],
{
    reveal_with_fuel(Seq::filter_map, 3);
}

/// Collects the installations among the entries of the directory `root`.
///
/// Every entry that is an editor yields one installation, the others are
/// passed over, and the order of the listing is kept.
pub fn collect_installations(root: &str, entries: &Vec<HubEntry>) -> (found:
    UnityInstallationCollection)
    ensures
        installation_views(found@) == installations_in(root@, entry_views(entries@)),
{
    let mut found: UnityInstallationCollection = Vec::new();
    let ghost listing = entry_views(entries@);
    let ghost pick = |entry: HubEntryView| installation_at(root@, entry);
    let mut i: usize = 0;
    while i < entries.len()
        invariant
            i <= entries.len(),
            listing == entry_views(entries@),
            pick == |entry: HubEntryView| installation_at(root@, entry),
            installation_views(found@) == listing.take(i as int).filter_map(pick),
        decreases entries.len() - i,
    {
        let entry = &entries[i];
        proof {
            listing.lemma_filter_map_take_succ(pick, i as int);
        }
        if entry.kind == PathKind::Directory && entry.executable == PathKind::File {
            let ghost before = found@;
            let installation = UnityInstallation {
                version: entry.name.clone(),
                path: join_path(root, entry.name.as_str()),
            };
            found.push(installation);
            assert(installation_views(found@) =~= installation_views(before).push(
                installation@,
            ));
        }
        i += 1;
    }
    assert(listing.take(entries.len() as int) =~= listing);
    found
}

/// The installations on a host whose installations directory was listed
/// as `listing`, or not at all. It is an error if the directory is unknown,
/// and then if it could not be listed.
pub open spec fn hub_installations(
    os: OperatingSystem,
    host: HostContext,
    listing: Option<Vec<HubEntry>>,
) -> Result<Seq<InstallationView>, AppErrorView> {
    match base_installations_path(os, host) {
        Err(e) => Err(e),
        Ok(root) => match listing {
            None => Err(AppErrorView::NoAccessHubInstallations),
            Some(entries) => Ok(installations_in(root, entry_views(entries@))),
        },
    }
}

/// Installations or an error, as contracts see what a function returned.
pub open spec fn installations_outcome(
    outcome: Result<UnityInstallationCollection, AppError>,
) -> Result<Seq<InstallationView>, AppErrorView> {
    match outcome {
        Ok(installations) => Ok(installation_views(installations@)),
        Err(e) => Err(e@),
    }
}

/// Lists the editors that Unity Hub installed on this host.
///
/// `listing` holds the entries of the directory that
/// `get_unityhub_base_installations_path` names, or nothing where the host
/// could not list it. Fails where that directory is unknown, then where it
/// could not be listed; otherwise succeeds with the installations among the
/// entries, in the order of the listing.
pub fn get_unityhub_installations(
    os: OperatingSystem,
    host: &HostContext,
    listing: &Option<Vec<HubEntry>>,
) -> (found: Result<UnityInstallationCollection, AppError>)
    ensures
        installations_outcome(found) == hub_installations(os, *host, *listing),
{
    let root = match get_unityhub_base_installations_path(os, host) {
        Ok(root) => root,
        Err(e) => { return Err(e); },
    };
    match listing {
        None => Err(AppError::NoAccessHubInstallations),
        Some(entries) => Ok(collect_installations(root.as_str(), entries)),
    }
}

} // verus!
