use itertools::Itertools;
use vstd::prelude::*;
use crate::error::{text_outcome, AppError, AppErrorView};
use crate::project::{project_version, read_project_version, ProjectVersionFile};
use crate::hub::{UnityInstallation, UnityInstallationCollection};
use crate::text::str_eq;
use crate::version::{
    first_match, is_first_match, is_latest, latest, lemma_first_match_exists,
    lemma_first_match_is, lemma_latest_exists, lemma_latest_is, lemma_version_le_total_order,
    version_le,
};

verus! {

/// The versions of a run of installations, in the same order.
pub open spec fn versions_of(installations: Seq<UnityInstallation>) -> Seq<Seq<char>> {
    installations.map_values(|installation: UnityInstallation| installation.version@)
}

/// Whether `order` lists the positions of `versions` as a stable sort into
/// ascending order leaves them: every position occurs, no version is
/// followed by one that ranks below it, and equal versions keep the order
/// they had.
pub open spec fn is_stable_ascending(order: Seq<usize>, versions: Seq<Seq<char>>) -> bool {
    &&& order.len() == versions.len()
    &&& forall|p: int| 0 <= p < order.len() ==> 0 <= #[trigger] order[p] < versions.len()
    &&& forall|at: usize| at < versions.len() ==> #[trigger] order.contains(at)
    &&& forall|p: int, q: int|
        0 <= p < q < order.len() ==> version_le(
            versions[#[trigger] order[p] as int],
            versions[#[trigger] order[q] as int],
        )
    &&& forall|p: int, q: int|
        0 <= p < q < order.len() && versions[#[trigger] order[p] as int]
            == versions[#[trigger] order[q] as int] ==> order[p] < order[q]
}

/// The positions of `installations`, sorted by version.
///
/// Calls `itertools::Itertools::sorted_by_key` on the positions, with the
/// version at a position as its key. Trusted: that this is a stable sort
/// into ascending order, and that `String`s compare as the bytes of their
/// UTF-8 encoding do, which is what `version_le` says.
#[verifier::external_body]
fn positions_by_version(installations: &UnityInstallationCollection) -> (order: Vec<usize>)
    ensures
        is_stable_ascending(order@, versions_of(installations@)),
{
    (0..installations.len()).sorted_by_key(|&at| &installations[at].version).collect()
}

/// Finds the installation with the latest version: of those whose version
/// none ranks above, the last.
pub fn latest_installation(installations: &UnityInstallationCollection) -> (found: Option<usize>)
    ensures
        match latest(versions_of(installations@)) {
            Some(at) => 0 <= at < installations.len() && found == Some(at as usize),
            None => found is None,
        },
{
    let order = positions_by_version(installations);
    let n: usize = order.len();
    if n == 0 {
        return None;
    }
    let at: usize = order[n - 1];
    proof {
        let versions = versions_of(installations@);
        assert forall|other: int| 0 <= other < versions.len() implies version_le(
            #[trigger] versions[other],
            versions[at as int],
        ) by {
            // `other` stands somewhere in the order, at the end or before it.
            assert(order@.contains(other as usize));
            lemma_version_le_total_order(versions[other], versions[other], versions[other]);
        }
        assert forall|other: int| at < other < versions.len() implies #[trigger] versions[other]
            != versions[at as int] by {
            // An equal version before the end of the order lies before `at`.
            assert(order@.contains(other as usize));
        }
        lemma_latest_is(versions, at as int);
    }
    Some(at)
}

/// Finds the first installation whose version is exactly `wanted`.
pub fn find_installation(installations: &UnityInstallationCollection, wanted: &str) -> (found:
    Option<usize>)
    ensures
        match first_match(versions_of(installations@), wanted@) {
            Some(at) => 0 <= at < installations.len() && found == Some(at as usize),
            None => found is None,
        },
{
    let ghost versions = versions_of(installations@);
    let mut i: usize = 0;
    while i < installations.len()
        invariant
            i <= installations.len(),
            versions == versions_of(installations@),
            forall|earlier: int| 0 <= earlier < i ==> #[trigger] versions[earlier] != wanted@,
        decreases installations.len() - i,
    {
        if str_eq(installations[i].version.as_str(), wanted) {
            proof {
                lemma_first_match_is(versions, wanted@, i as int);
            }
            return Some(i);
        }
        i += 1;
    }
    None
}

/// What selection settles on, given how reading the project's version went:
/// the position of the chosen installation, or the error.
///
/// A project version selects the first installation that has exactly that
/// version, and it is an error if none has. Where the directory is no
/// project, the latest installation is selected, and it is an error if
/// there is none. Any other failure to read the project version stands.
pub open spec fn selection(
    project_version: Result<Seq<char>, AppErrorView>,
    versions: Seq<Seq<char>>,
) -> Result<int, AppErrorView> {
    match project_version {
        Ok(wanted) => match first_match(versions, wanted) {
            Some(at) => Ok(at),
            None => Err(AppErrorView::InstalledVersionNotFound(wanted)),
        },
        Err(AppErrorView::ProjectVersionFileNotFound) => match latest(versions) {
            Some(at) => Ok(at),
            None => Err(AppErrorView::NoUnityInstallations),
        },
        Err(e) => Err(e),
    }
}

/// A project version that some installation has selects an installation
/// with exactly that version, wherever in the collection it lies: the first
/// of them, which is the only one where no other has that version.
pub proof fn lemma_project_version_selects_match(
    wanted: Seq<char>,
    versions: Seq<Seq<char>>,
    at: int,
)
    requires
        0 <= at < versions.len(),
        versions[at] == wanted,
    ensures
        selection(Ok(wanted), versions) matches Ok(chosen) && 0 <= chosen <= at
            && versions[chosen] == wanted,
        (forall|other: int| 0 <= other < at ==> versions[other] != wanted) ==> selection(
            Ok(wanted),
            versions,
        ) == Ok::<int, AppErrorView>(at),
{
    lemma_first_match_exists(versions, wanted);
    let chosen = choose|chosen: int| is_first_match(versions, wanted, chosen);
    lemma_first_match_is(versions, wanted, chosen);
}

/// A project version that no installation has is an error that names it.
pub proof fn lemma_project_version_without_match(wanted: Seq<char>, versions: Seq<Seq<char>>)
    requires
        !versions.contains(wanted),
    ensures
        selection(Ok(wanted), versions) == Err::<int, AppErrorView>(
            AppErrorView::InstalledVersionNotFound(wanted),
        ),
{
}

/// Where the directory is no project, selection settles on the latest
/// installation: no version ranks above its version, and of those with that
/// version it is the last. Without any installation it is an error.
pub proof fn lemma_no_project_selects_latest(versions: Seq<Seq<char>>)
    ensures
        versions.len() == 0 ==> selection(
            Err(AppErrorView::ProjectVersionFileNotFound),
            versions,
        ) == Err::<int, AppErrorView>(AppErrorView::NoUnityInstallations),
        versions.len() > 0 ==> (selection(
            Err(AppErrorView::ProjectVersionFileNotFound),
            versions,
        ) matches Ok(at) && is_latest(versions, at)),
{
    if versions.len() > 0 {
        lemma_latest_exists(versions);
        let at = choose|at: int| is_latest(versions, at);
        lemma_latest_is(versions, at);
    }
}

/// Whether `chosen` is what `choice` stands for: the installation at the
/// chosen position of `installations`, or the same error.
pub open spec fn is_choice(
    chosen: Result<&UnityInstallation, AppError>,
    choice: Result<int, AppErrorView>,
    installations: Seq<UnityInstallation>,
) -> bool {
    match choice {
        Ok(at) => {
            &&& 0 <= at < installations.len()
            &&& chosen matches Ok(it)
            &&& *it == installations[at]
        },
        Err(e) => chosen matches Err(it) && it@ == e,
    }
}

/// Selects the installation to use, given how reading the project's version
/// went. The installation is handed out as it lies in `installations`.
pub fn select_installation<'a>(
    project_version: Result<String, AppError>,
    installations: &'a UnityInstallationCollection,
) -> (chosen: Result<&'a UnityInstallation, AppError>)
    ensures
        is_choice(
            chosen,
            selection(text_outcome(project_version), versions_of(installations@)),
            installations@,
        ),
{
    match project_version {
        Ok(wanted) => match find_installation(installations, wanted.as_str()) {
            Some(at) => Ok(&installations[at]),
            None => Err(AppError::InstalledVersionNotFound(wanted)),
        },
        Err(AppError::ProjectVersionFileNotFound) => match latest_installation(installations) {
            Some(at) => Ok(&installations[at]),
            None => Err(AppError::NoUnityInstallations),
        },
        Err(e) => Err(e),
    }
}

/// Selects the installation for the project in `workdir`, of which the host
/// found the version file as `file`: the one the project asks for, or the
/// latest where the directory is no project.
pub fn choose_best_installation<'a>(
    workdir: &str,
    file: &ProjectVersionFile,
    installations: &'a UnityInstallationCollection,
) -> (chosen: Result<&'a UnityInstallation, AppError>)
    ensures
        is_choice(
            chosen,
            selection(project_version(*file), versions_of(installations@)),
            installations@,
        ),
{
    select_installation(read_project_version(workdir, file), installations)
}

} // verus!
