use uyamlt::{
    choose_best_installation, find_installation, latest_installation, select_installation,
    AppError, PathKind, ProjectVersionFile, UnityInstallation,
};

fn installations(versions: &[&str]) -> Vec<UnityInstallation> {
    versions
        .iter()
        .enumerate()
        .map(|(at, version)| UnityInstallation {
            version: version.to_string(),
            path: format!("/hub/{}#{}", version, at),
        })
        .collect()
}

fn no_project() -> ProjectVersionFile {
    ProjectVersionFile { kind: PathKind::Missing, contents: None }
}

fn project(version: &str) -> ProjectVersionFile {
    ProjectVersionFile {
        kind: PathKind::File,
        contents: Some(format!(
            "m_EditorVersion: {}\nm_EditorVersionWithRevision: {} (abc123)\n",
            version, version
        )),
    }
}

fn chosen_path(
    file: &ProjectVersionFile,
    installed: &Vec<UnityInstallation>,
) -> Result<String, AppError> {
    choose_best_installation("/work/game", file, installed).map(|chosen| chosen.path.clone())
}

#[test]
fn fallback_picks_greatest_by_bytes_not_by_number() {
    let installed = installations(&["2021.3.0f1", "2022.3.11f1", "2022.3.9f1"]);
    let chosen = choose_best_installation("/work/game", &no_project(), &installed).unwrap();
    assert_eq!(chosen.version, "2022.3.9f1");
    assert_eq!(chosen.path, "/hub/2022.3.9f1#2");
}

#[test]
fn fallback_picks_greatest_wherever_it_lies() {
    let installed = installations(&["2022.3.9f1", "2021.3.0f1", "2022.3.11f1"]);
    assert_eq!(chosen_path(&no_project(), &installed), Ok("/hub/2022.3.9f1#0".to_string()));
    let installed = installations(&["2021.3.0f1", "2022.3.9f1", "2022.3.11f1"]);
    assert_eq!(chosen_path(&no_project(), &installed), Ok("/hub/2022.3.9f1#1".to_string()));
}

#[test]
fn fallback_ranks_a_version_above_its_prefix() {
    let installed = installations(&["2022.3.11f1", "2022.3.11", "2022.3.1"]);
    assert_eq!(latest_installation(&installed), Some(0));
    let installed = installations(&["6000.0", "6000.0.1f1", "6000"]);
    assert_eq!(latest_installation(&installed), Some(1));
}

#[test]
fn fallback_ranks_by_the_bytes_of_the_encoding() {
    let installed = installations(&["z", "é", "Z", "~", "a\u{10000}", "a\u{ffff}"]);
    assert_eq!(latest_installation(&installed), Some(1));
    let installed = installations(&["a\u{ffff}", "a\u{10000}", "a~"]);
    assert_eq!(latest_installation(&installed), Some(1));
}

#[test]
fn fallback_picks_last_of_equal_versions() {
    let installed = installations(&["2022.3.9f1", "2021.3.0f1", "2022.3.9f1", "2022.3.11f1"]);
    assert_eq!(latest_installation(&installed), Some(2));
    assert_eq!(chosen_path(&no_project(), &installed), Ok("/hub/2022.3.9f1#2".to_string()));
}

#[test]
fn fallback_with_one_installation() {
    let installed = installations(&["2021.3.0f1"]);
    assert_eq!(latest_installation(&installed), Some(0));
}

#[test]
fn fallback_without_installations_fails() {
    let installed = installations(&[]);
    assert_eq!(latest_installation(&installed), None);
    assert_eq!(chosen_path(&no_project(), &installed), Err(AppError::NoUnityInstallations));
}

#[test]
fn no_regular_file_means_no_project() {
    let installed = installations(&["2022.3.9f1", "2021.3.0f1"]);
    for kind in [PathKind::Missing, PathKind::Directory, PathKind::Other] {
        let file = ProjectVersionFile {
            kind,
            contents: Some("m_EditorVersion: 2021.3.0f1\n".to_string()),
        };
        assert_eq!(chosen_path(&file, &installed), Ok("/hub/2022.3.9f1#0".to_string()));
    }
}

#[test]
fn project_version_picks_its_installation_at_any_position() {
    let versions = ["2021.3.0f1", "2022.3.11f1", "2022.3.9f1"];
    let installed = installations(&versions);
    for (at, version) in versions.iter().enumerate() {
        let chosen = choose_best_installation("/work/game", &project(version), &installed);
        let chosen = chosen.unwrap();
        assert_eq!(chosen.version, *version);
        assert_eq!(chosen.path, installed[at].path);
        assert!(std::ptr::eq(chosen, &installed[at]));
    }
}

#[test]
fn project_version_picks_first_of_equal_versions() {
    let installed = installations(&["2022.3.9f1", "2021.3.0f1", "2022.3.9f1", "2021.3.0f1"]);
    assert_eq!(find_installation(&installed, "2021.3.0f1"), Some(1));
    assert_eq!(chosen_path(&project("2021.3.0f1"), &installed), Ok("/hub/2021.3.0f1#1".to_string()));
    assert_eq!(chosen_path(&project("2022.3.9f1"), &installed), Ok("/hub/2022.3.9f1#0".to_string()));
}

#[test]
fn project_version_must_match_exactly() {
    let installed = installations(&["2022.3.11f1", "2022.3.9f1"]);
    assert_eq!(find_installation(&installed, "2022.3.11"), None);
    assert_eq!(find_installation(&installed, "2022.3.11f1 "), None);
    assert_eq!(find_installation(&installed, ""), None);
    assert_eq!(find_installation(&installed, "2022.3.11f1"), Some(0));
}

#[test]
fn project_version_that_is_not_installed_fails() {
    let installed = installations(&["2021.3.0f1", "2022.3.9f1"]);
    assert_eq!(
        chosen_path(&project("2022.3.11f1"), &installed),
        Err(AppError::InstalledVersionNotFound("2022.3.11f1".to_string()))
    );
    assert_eq!(
        chosen_path(&project("2022.3.11f1"), &installations(&[])),
        Err(AppError::InstalledVersionNotFound("2022.3.11f1".to_string()))
    );
}

#[test]
fn project_version_with_carriage_return_is_another_version() {
    let installed = installations(&["2022.3.11f1"]);
    let file = ProjectVersionFile {
        kind: PathKind::File,
        contents: Some("m_EditorVersion: 2022.3.11f1\r\n".to_string()),
    };
    assert_eq!(
        chosen_path(&file, &installed),
        Err(AppError::InstalledVersionNotFound("2022.3.11f1\r".to_string()))
    );
}

#[test]
fn unreadable_version_file_is_no_reason_to_fall_back() {
    let installed = installations(&["2021.3.0f1", "2022.3.9f1"]);
    let file = ProjectVersionFile { kind: PathKind::File, contents: None };
    assert_eq!(chosen_path(&file, &installed), Err(AppError::ProjectVersionFileUnreadable));
}

#[test]
fn invalid_version_file_is_no_reason_to_fall_back() {
    let installed = installations(&["2021.3.0f1", "2022.3.9f1"]);
    let file = ProjectVersionFile {
        kind: PathKind::File,
        contents: Some("pver: 2021.3.0f1\n".to_string()),
    };
    assert_eq!(chosen_path(&file, &installed), Err(AppError::InvalidProjectVersionFile));
}

#[test]
fn selection_hands_other_errors_on() {
    let installed = installations(&["2021.3.0f1"]);
    let errors = [
        AppError::UnsupportedOS,
        AppError::BasedirFindIssue("why".to_string()),
        AppError::NoUnityInstallations,
        AppError::NoAccessHubInstallations,
        AppError::InvalidProjectVersionFile,
        AppError::ProjectVersionFileUnreadable,
        AppError::YamlToolNotFound,
        AppError::InstalledVersionNotFound("1".to_string()),
    ];
    for error in errors {
        let expected = format!("{:?}", error);
        let chosen = select_installation(Err(error), &installed);
        assert_eq!(format!("{:?}", chosen.err().unwrap()), expected);
    }
}

#[test]
fn selection_by_version_and_by_fallback() {
    let installed = installations(&["2022.3.9f1", "2021.3.0f1"]);
    let chosen = select_installation(Ok("2021.3.0f1".to_string()), &installed);
    assert_eq!(chosen.map(|c| c.path.clone()), Ok("/hub/2021.3.0f1#1".to_string()));
    let chosen = select_installation(Err(AppError::ProjectVersionFileNotFound), &installed);
    assert_eq!(chosen.map(|c| c.path.clone()), Ok("/hub/2022.3.9f1#0".to_string()));
}
