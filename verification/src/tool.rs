use vstd::prelude::*;
use crate::error::{text_outcome, AppError, AppErrorView};
use crate::path::{join_path, joined, PathKind};
use crate::platform::OperatingSystem;

verus! {

/// Where a Windows editor keeps the merge tool, below its directory.
pub open spec fn windows_yamltool_subpath() -> Seq<char> {
    "Editor/Data/Tools/UnityYAMLMerge.exe"@
}

/// The path at which the installation in `installation` keeps the merge
/// tool. Only Windows has one defined; on the other systems the lookup is
/// unsupported.
pub open spec fn yamltool_location(os: OperatingSystem, installation: Seq<char>) -> Result<
    Seq<char>,
    AppErrorView,
> {
    match os {
        OperatingSystem::Windows => Ok(joined(installation, windows_yamltool_subpath())),
        _ => Err(AppErrorView::UnsupportedOS),
    }
}

/// The merge tool of the installation in `installation`, given that the
/// host found `kind` where it belongs: its path, unless nothing is there.
pub open spec fn located_yamltool(
    os: OperatingSystem,
    installation: Seq<char>,
    kind: PathKind,
) -> Result<Seq<char>, AppErrorView> {
    match yamltool_location(os, installation) {
        Ok(path) => if kind == PathKind::Missing {
            Err(AppErrorView::YamlToolNotFound)
        } else {
            Ok(path)
        },
        Err(e) => Err(e),
    }
}

/// Computes the path at which the installation in `installation` keeps the
/// merge tool.
pub fn yamltool_path(os: OperatingSystem, installation: &str) -> (path: Result<String, AppError>)
    ensures
        text_outcome(path) == yamltool_location(os, installation@),
{
    match os {
        OperatingSystem::Windows => Ok(
            join_path(installation, "Editor/Data/Tools/UnityYAMLMerge.exe"),
        ),
        _ => Err(AppError::UnsupportedOS),
    }
}

/// Gets the path of `UnityYAMLMerge` for an installation, given what the
/// host found at `yamltool_path(os, installation)`.
pub fn get_yamltool(os: OperatingSystem, installation: &str, kind: PathKind) -> (tool: Result<
    String,
    AppError,
>)
    ensures
        text_outcome(tool) == located_yamltool(os, installation@, kind),
{
    let path = match yamltool_path(os, installation) {
        Ok(path) => path,
        Err(e) => { return Err(e); },
    };
    match kind {
        PathKind::Missing => Err(AppError::YamlToolNotFound),
        _ => Ok(path),
    }
}

} // verus!
