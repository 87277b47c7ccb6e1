use vstd::prelude::*;

verus! {

/// Everything that can go wrong while looking for an editor installation and
/// its merge tool.
#[derive(Debug, PartialEq, Eq)]
pub enum AppError {
    /// The operating system is not one Unity supports, or the requested
    /// lookup is not defined for it.
    UnsupportedOS,
    /// The directory under which Unity Hub installs editors is unknown; the
    /// payload says why.
    BasedirFindIssue(String),
    /// There is no editor installation to choose from.
    NoUnityInstallations,
    /// The directory that holds the editor installations cannot be listed.
    NoAccessHubInstallations,
    /// The project version file has no editor version line.
    InvalidProjectVersionFile,
    /// The working directory holds no project version file.
    ProjectVersionFileNotFound,
    /// The project version file exists but cannot be read as text.
    ProjectVersionFileUnreadable,
    /// The merge tool is missing from the chosen installation.
    YamlToolNotFound,
    /// The project asks for an editor version that is not installed; the
    /// payload is that version.
    InstalledVersionNotFound(String),
}

/// An error as contracts see it: texts in place of strings.
pub ghost enum AppErrorView {
    UnsupportedOS,
    BasedirFindIssue(Seq<char>),
    NoUnityInstallations,
    NoAccessHubInstallations,
    InvalidProjectVersionFile,
    ProjectVersionFileNotFound,
    ProjectVersionFileUnreadable,
    YamlToolNotFound,
    InstalledVersionNotFound(Seq<char>),
}

impl View for AppError {
    type V = AppErrorView;

    open spec fn view(&self) -> AppErrorView {
        match self {
            AppError::UnsupportedOS => AppErrorView::UnsupportedOS,
            AppError::BasedirFindIssue(why) => AppErrorView::BasedirFindIssue(why@),
            AppError::NoUnityInstallations => AppErrorView::NoUnityInstallations,
            AppError::NoAccessHubInstallations => AppErrorView::NoAccessHubInstallations,
            AppError::InvalidProjectVersionFile => AppErrorView::InvalidProjectVersionFile,
            AppError::ProjectVersionFileNotFound => AppErrorView::ProjectVersionFileNotFound,
            AppError::ProjectVersionFileUnreadable => AppErrorView::ProjectVersionFileUnreadable,
            AppError::YamlToolNotFound => AppErrorView::YamlToolNotFound,
            AppError::InstalledVersionNotFound(version) => AppErrorView::InstalledVersionNotFound(
                version@,
            ),
        }
    }
}

/// A text or an error, as contracts see what a function returned.
pub open spec fn text_outcome(outcome: Result<String, AppError>) -> Result<
    Seq<char>,
    AppErrorView,
> {
    match outcome {
        Ok(text) => Ok(text@),
        Err(e) => Err(e@),
    }
}

} // verus!
