use uyamlt::{get_yamltool, yamltool_path, AppError, OperatingSystem, PathKind};

#[test]
fn yamltool_path_on_windows() {
    assert_eq!(
        yamltool_path(OperatingSystem::Windows, "C:\\Hub\\2022.3.11f1"),
        Ok("C:\\Hub\\2022.3.11f1/Editor/Data/Tools/UnityYAMLMerge.exe".to_string())
    );
}

#[test]
fn yamltool_path_elsewhere_is_unsupported() {
    assert_eq!(yamltool_path(OperatingSystem::MacOS, "/hub/2022.3.11f1"), Err(AppError::UnsupportedOS));
    assert_eq!(yamltool_path(OperatingSystem::Linux, "/hub/2022.3.11f1"), Err(AppError::UnsupportedOS));
}

#[test]
fn yamltool_that_exists_is_found() {
    for kind in [PathKind::File, PathKind::Directory, PathKind::Other] {
        assert_eq!(
            get_yamltool(OperatingSystem::Windows, "C:\\Hub\\2022.3.11f1", kind),
            Ok("C:\\Hub\\2022.3.11f1/Editor/Data/Tools/UnityYAMLMerge.exe".to_string())
        );
    }
}

#[test]
fn yamltool_that_is_missing_is_not_found() {
    assert_eq!(
        get_yamltool(OperatingSystem::Windows, "C:\\Hub\\2022.3.11f1", PathKind::Missing),
        Err(AppError::YamlToolNotFound)
    );
}

#[test]
fn yamltool_elsewhere_is_unsupported_whatever_is_there() {
    for os in [OperatingSystem::MacOS, OperatingSystem::Linux] {
        for kind in [PathKind::Missing, PathKind::File, PathKind::Directory, PathKind::Other] {
            assert_eq!(get_yamltool(os, "/hub/2022.3.11f1", kind), Err(AppError::UnsupportedOS));
        }
    }
}
