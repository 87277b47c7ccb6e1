use uyamlt::{
    locate_project_version_file, parse_project_version_file, project_version_file_path,
    read_project_version, AppError, PathKind, ProjectVersionFile,
};

#[test]
fn test_parse_project_version_minimal() {
    let minimal_project_version_file = r#"m_EditorVersion: 2022.3.11f1
"#;
    let result = parse_project_version_file(minimal_project_version_file);
    assert!(result.is_ok());
    assert_eq!(result.unwrap(), "2022.3.11f1");
}

#[test]
fn test_parse_project_version_actual() {
    let sample_project_version_file = r#"m_EditorVersion: 2022.3.11f1
m_EditorVersionWithRevision: 2022.3.11f1 (d00248457e15)
"#;
    let result = parse_project_version_file(sample_project_version_file);
    assert!(result.is_ok());
    assert_eq!(result.unwrap(), "2022.3.11f1");
}

#[test]
fn test_parse_project_version_invalid() {
    let invalid_project_file = r#"pver: 2022.3.11f1 (d00248457e15)
"#;
    let result = parse_project_version_file(invalid_project_file);
    assert!(result.is_err());
    assert_eq!(result.err().unwrap(), AppError::InvalidProjectVersionFile);
}

#[test]
fn parse_version_line_with_revision_line_after_it() {
    let file = "m_EditorVersion: 2022.3.11f1\nm_EditorVersionWithRevision: 2022.3.11f1 (abc123)\n";
    assert_eq!(parse_project_version_file(file), Ok("2022.3.11f1".to_string()));
}

#[test]
fn parse_without_final_line_feed() {
    assert_eq!(
        parse_project_version_file("m_EditorVersion: 6000.0.1f1"),
        Ok("6000.0.1f1".to_string())
    );
}

#[test]
fn parse_keeps_carriage_return() {
    assert_eq!(
        parse_project_version_file("m_EditorVersion: 2022.3.11f1\r\nrest\r\n"),
        Ok("2022.3.11f1\r".to_string())
    );
}

#[test]
fn parse_keeps_trailing_blanks() {
    assert_eq!(
        parse_project_version_file("m_EditorVersion: 2022.3.11f1 \t\n"),
        Ok("2022.3.11f1 \t".to_string())
    );
}

#[test]
fn parse_takes_first_of_two_version_lines() {
    assert_eq!(
        parse_project_version_file("m_EditorVersion: first\nm_EditorVersion: second\n"),
        Ok("first".to_string())
    );
}

#[test]
fn parse_finds_version_line_after_other_lines() {
    assert_eq!(
        parse_project_version_file("# comment\n\nm_EditorVersion: 2021.3.0f1\n"),
        Ok("2021.3.0f1".to_string())
    );
}

#[test]
fn parse_empty_version() {
    assert_eq!(parse_project_version_file("m_EditorVersion: \nnext"), Ok(String::new()));
    assert_eq!(parse_project_version_file("m_EditorVersion: "), Ok(String::new()));
}

#[test]
fn parse_prefix_must_open_the_line() {
    assert_eq!(
        parse_project_version_file(" m_EditorVersion: 2022.3.11f1\n"),
        Err(AppError::InvalidProjectVersionFile)
    );
    assert_eq!(
        parse_project_version_file("x: 1 m_EditorVersion: 2022.3.11f1\n"),
        Err(AppError::InvalidProjectVersionFile)
    );
}

#[test]
fn parse_prefix_must_be_whole() {
    assert_eq!(
        parse_project_version_file("m_EditorVersion:2022.3.11f1\n"),
        Err(AppError::InvalidProjectVersionFile)
    );
    assert_eq!(
        parse_project_version_file("m_EditorVersion:\n 2022.3.11f1\n"),
        Err(AppError::InvalidProjectVersionFile)
    );
    assert_eq!(
        parse_project_version_file("m_EditorVersion"),
        Err(AppError::InvalidProjectVersionFile)
    );
}

#[test]
fn parse_empty_file() {
    assert_eq!(parse_project_version_file(""), Err(AppError::InvalidProjectVersionFile));
    assert_eq!(parse_project_version_file("\n\n"), Err(AppError::InvalidProjectVersionFile));
}

#[test]
fn parse_text_beyond_ascii() {
    assert_eq!(
        parse_project_version_file("名前: ゆ\nm_EditorVersion: 2022.3.11f1-β\né\n"),
        Ok("2022.3.11f1-β".to_string())
    );
}

#[test]
fn version_file_path_lies_below_workdir() {
    assert_eq!(
        project_version_file_path("/work/game"),
        "/work/game/ProjectSettings/ProjectVersion.txt"
    );
    assert_eq!(
        project_version_file_path("/work/game/"),
        "/work/game/ProjectSettings/ProjectVersion.txt"
    );
}

#[test]
fn locate_needs_a_regular_file() {
    assert_eq!(
        locate_project_version_file("/work/game", PathKind::File),
        Ok("/work/game/ProjectSettings/ProjectVersion.txt".to_string())
    );
    for kind in [PathKind::Missing, PathKind::Directory, PathKind::Other] {
        assert_eq!(
            locate_project_version_file("/work/game", kind),
            Err(AppError::ProjectVersionFileNotFound)
        );
    }
}

#[test]
fn read_version_of_a_project() {
    let file = ProjectVersionFile {
        kind: PathKind::File,
        contents: Some("m_EditorVersion: 2022.3.11f1\n".to_string()),
    };
    assert_eq!(read_project_version("/work/game", &file), Ok("2022.3.11f1".to_string()));
}

#[test]
fn read_without_a_file_is_not_found() {
    for kind in [PathKind::Missing, PathKind::Directory, PathKind::Other] {
        let file = ProjectVersionFile {
            kind,
            contents: Some("m_EditorVersion: 2022.3.11f1\n".to_string()),
        };
        assert_eq!(
            read_project_version("/work/game", &file),
            Err(AppError::ProjectVersionFileNotFound)
        );
    }
}

#[test]
fn read_unreadable_file() {
    let file = ProjectVersionFile { kind: PathKind::File, contents: None };
    assert_eq!(
        read_project_version("/work/game", &file),
        Err(AppError::ProjectVersionFileUnreadable)
    );
}

#[test]
fn read_file_without_version_line() {
    let file = ProjectVersionFile {
        kind: PathKind::File,
        contents: Some("nothing of note\n".to_string()),
    };
    assert_eq!(
        read_project_version("/work/game", &file),
        Err(AppError::InvalidProjectVersionFile)
    );
}

#[test]
fn clone_of_a_version_file_keeps_kind_and_contents() {
    let file = ProjectVersionFile {
        kind: PathKind::File,
        contents: Some("m_EditorVersion: 2022.3.11f1\n".to_string()),
    };
    let copy = file.clone();
    assert_eq!(copy.kind, PathKind::File);
    assert_eq!(copy.contents, Some("m_EditorVersion: 2022.3.11f1\n".to_string()));
    let copy = ProjectVersionFile { kind: PathKind::Other, contents: None }.clone();
    assert_eq!(copy.kind, PathKind::Other);
    assert_eq!(copy.contents, None);
}
