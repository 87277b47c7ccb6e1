use vstd::prelude::*;
use crate::error::{text_outcome, AppError, AppErrorView};
use crate::path::{join_path, joined, PathKind};
use crate::text::chars_of;

verus! {

/// What a line must begin with to declare the editor's version.
pub open spec fn version_prefix() -> Seq<char> {
    "m_EditorVersion: "@
}

/// Whether a line of `text` begins at `at`: at the start of the text, or
/// right after a line feed.
pub open spec fn is_line_start(text: Seq<char>, at: int) -> bool {
    0 <= at < text.len() && (at == 0 || text[at - 1] == '\n')
}

/// Where the line that holds position `at` ends: at the first line feed from
/// `at` on, or at the end of the text. A carriage return is a character of
/// the line like any other.
pub open spec fn line_end(text: Seq<char>, at: int) -> int
    decreases text.len() - at,
{
    if at < 0 || at >= text.len() {
        text.len() as int
    } else if text[at] == '\n' {
        at
    } else {
        line_end(text, at + 1)
    }
}

/// The line of `text` from `at` on, without its line feed.
pub open spec fn line_from(text: Seq<char>, at: int) -> Seq<char> {
    text.subrange(at, line_end(text, at))
}

/// Whether a line that declares the editor's version begins at `at`.
pub open spec fn is_version_line(text: Seq<char>, at: int) -> bool {
    is_line_start(text, at) && version_prefix().is_prefix_of(line_from(text, at))
}

/// Whether the first line that declares the editor's version begins at `at`.
pub open spec fn is_first_version_line(text: Seq<char>, at: int) -> bool {
    &&& is_version_line(text, at)
    &&& forall|earlier: int| 0 <= earlier < at ==> !is_version_line(text, earlier)
}

/// The version that the line from `at` on declares: all of the line that
/// follows the prefix, untrimmed.
pub open spec fn declared_version(text: Seq<char>, at: int) -> Seq<char> {
    line_from(text, at).skip(version_prefix().len() as int)
}

/// The editor version that a project version file declares: what the first
/// line that begins with the prefix holds after it. `None` where no line
/// begins with the prefix.
pub open spec fn parsed_version(text: Seq<char>) -> Option<Seq<char>> {
    if exists|at: int| is_version_line(text, at) {
        Some(declared_version(text, choose|at: int| is_first_version_line(text, at)))
    } else {
        None
    }
}

/// `line_end` is where the line ends: no line feed lies before it, and one
/// lies there unless the text is over.
pub proof fn lemma_line_end(text: Seq<char>, at: int)
    requires
        0 <= at <= text.len(),
    ensures
        at <= line_end(text, at) <= text.len(),
        line_end(text, at) < text.len() ==> text[line_end(text, at)] == '\n',
        forall|inner: int| at <= inner < line_end(text, at) ==> text[inner] != '\n',
    decreases text.len() - at,
{
    if at < text.len() && text[at] != '\n' {
        lemma_line_end(text, at + 1);
    }
}

/// Among the lines that declare a version, one is the first.
pub proof fn lemma_first_version_line_exists(text: Seq<char>, at: int)
    requires
        is_version_line(text, at),
    ensures
        exists|first: int| 0 <= first <= at && is_first_version_line(text, first),
    decreases at,
{
    if exists|earlier: int| 0 <= earlier < at && is_version_line(text, earlier) {
        let earlier = choose|earlier: int| 0 <= earlier < at && is_version_line(text, earlier);
        lemma_first_version_line_exists(text, earlier);
    } else {
        assert(is_first_version_line(text, at));
    }
}

/// The file declares what its first version line declares, and declares
/// nothing exactly when it has no version line.
pub proof fn lemma_parsed_version(text: Seq<char>)
    ensures
        forall|at: int| #[trigger]
            is_first_version_line(text, at) ==> parsed_version(text) == Some(
                declared_version(text, at),
            ),
        parsed_version(text) is Some ==> exists|at: int| #[trigger]
            is_first_version_line(text, at),
        parsed_version(text) is None <==> forall|at: int| !#[trigger] is_version_line(text, at),
{
    if parsed_version(text) is Some {
        lemma_first_version_line_exists(text, choose|at: int| is_version_line(text, at));
    }
    assert forall|at: int| #[trigger] is_first_version_line(text, at) implies parsed_version(text)
        == Some(declared_version(text, at)) by {
        let chosen = choose|at: int| is_first_version_line(text, at);
    }
    if exists|at: int| is_version_line(text, at) {
        let at = choose|at: int| is_version_line(text, at);
    }
}

/// A line ends where the first line feed from its start on lies, or where
/// the text ends if none does.
pub proof fn lemma_line_end_is(text: Seq<char>, at: int, end: int)
    requires
        0 <= at <= end <= text.len(),
        forall|inner: int| at <= inner < end ==> text[inner] != '\n',
        end == text.len() || text[end] == '\n',
    ensures
        line_end(text, at) == end,
    decreases end - at,
{
    if at < end {
        lemma_line_end_is(text, at + 1, end);
    }
}

/// The prefix holds no line feed, and is not empty.
pub proof fn lemma_version_prefix_is_one_line()
    ensures
        version_prefix().len() > 0,
        !version_prefix().contains('\n'),
{
    reveal_strlit("m_EditorVersion: ");
}

/// A file in which a line reads `m_EditorVersion: ` and then `version`,
/// after lines of which none begins with that prefix and before any other
/// lines, declares exactly `version`, whatever characters it ends in.
pub proof fn lemma_version_line_declares(
    before: Seq<char>,
    version: Seq<char>,
    after: Seq<char>,
)
    requires
        !version.contains('\n'),
        before.len() == 0 || before.last() == '\n',
        forall|at: int| !is_version_line(before, at),
        after.len() == 0 || after[0] == '\n',
    ensures
        parsed_version(before + version_prefix() + version + after) == Some(version),
{
    let prefix = version_prefix();
    let text = before + prefix + version + after;
    let at = before.len() as int;
    let end = at + prefix.len() + version.len();
    lemma_version_prefix_is_one_line();
    // The version line runs from `at` to `end`.
    assert(forall|inner: int| at <= inner < end ==> text[inner] != '\n');
    lemma_line_end_is(text, at, end);
    // A version line before it would be one of `before`, which has none.
    assert forall|earlier: int| 0 <= earlier < at implies !is_version_line(text, earlier) by {
        if is_version_line(text, earlier) {
            let stop = line_end(before, earlier);
            lemma_line_end(before, earlier);
            assert(forall|inner: int| earlier <= inner < stop ==> text[inner] != '\n');
            lemma_line_end_is(text, earlier, stop);
            assert(is_version_line(before, earlier));
        }
    }
    assert(is_first_version_line(text, at));
    lemma_parsed_version(text);
}

/// Parses a project version file as Unity writes it.
///
/// Lines end at a line feed. The first line that begins with
/// `m_EditorVersion: ` decides: the version is the rest of that line, kept
/// as it stands, trailing blanks and a carriage return included. A file
/// without such a line is invalid.
pub fn parse_project_version_file(file: &str) -> (parsed: Result<String, AppError>)
    ensures
        match parsed_version(file@) {
            Some(version) => parsed matches Ok(found) && found@ == version,
            None => parsed matches Err(AppError::InvalidProjectVersionFile),
        },
{
    let text = chars_of(file);
    let prefix = chars_of("m_EditorVersion: ");
    let mut at: usize = 0;
    while at < text.len()
        invariant
            text@ == file@,
            prefix@ == version_prefix(),
            at < text.len() ==> is_line_start(text@, at as int),
            forall|earlier: int| 0 <= earlier < at ==> !is_version_line(text@, earlier),
        decreases text.len() - at,
    {
        let mut end: usize = at;
        while end < text.len() && text[end] != '\n'
            invariant
                at <= end <= text.len(),
                line_end(text@, end as int) == line_end(text@, at as int),
            decreases text.len() - end,
        {
            end += 1;
        }
        if begins_with(&text, at, end, &prefix) {
            proof {
                assert(is_first_version_line(text@, at as int));
                lemma_parsed_version(text@);
            }
            let version = file.substring_char(at + prefix.len(), end);
            return Ok(version.to_owned());
        }
        proof {
            // No line begins between here and the line feed.
            lemma_line_end(text@, at as int);
            assert(forall|earlier: int| at < earlier <= end ==> !is_version_line(text@, earlier));
        }
        if end == text.len() {
            proof {
                lemma_parsed_version(text@);
            }
            return Err(AppError::InvalidProjectVersionFile);
        }
        at = end + 1;
    }
    proof {
        lemma_parsed_version(text@);
    }
    Err(AppError::InvalidProjectVersionFile)
}

/// Where a project keeps its version file, below its directory.
pub open spec fn version_file_subpath() -> Seq<char> {
    "ProjectSettings/ProjectVersion.txt"@
}

/// The path at which the project in `workdir` keeps its version file.
pub fn project_version_file_path(workdir: &str) -> (path: String)
    ensures
        path@ == joined(workdir@, version_file_subpath()),
{
    join_path(workdir, "ProjectSettings/ProjectVersion.txt")
}

/// The version file of the project in `workdir`, given that the host found
/// `kind` at its path: the path if a regular file is there, and otherwise
/// the directory is no project.
pub open spec fn located_version_file(workdir: Seq<char>, kind: PathKind) -> Result<
    Seq<char>,
    AppErrorView,
> {
    if kind == PathKind::File {
        Ok(joined(workdir, version_file_subpath()))
    } else {
        Err(AppErrorView::ProjectVersionFileNotFound)
    }
}

/// Locates the version file of the project in `workdir`, given what the
/// host found at `project_version_file_path(workdir)`.
pub fn locate_project_version_file(workdir: &str, kind: PathKind) -> (located: Result<
    String,
    AppError,
>)
    ensures
        text_outcome(located) == located_version_file(workdir@, kind),
{
    match kind {
        PathKind::File => Ok(project_version_file_path(workdir)),
        _ => Err(AppError::ProjectVersionFileNotFound),
    }
}

/// What the host found where a project keeps its version file.
#[derive(Debug)]
pub struct ProjectVersionFile {
    /// What lies at the file's path.
    pub kind: PathKind,
    /// The file's text, where the host could read it as text.
    pub contents: Option<String>,
}

impl Clone for ProjectVersionFile {
    fn clone(&self) -> (copy: Self)
        ensures
            copy == *self,
    {
        ProjectVersionFile {
            kind: self.kind,
            contents: match &self.contents {
                Some(text) => Some(text.clone()),
                None => None,
            },
        }
    }
}

/// The editor version that a project asks for, given what the host found
/// where its version file belongs. Without a regular file there, the
/// directory is no project; a file that could not be read, or that declares
/// no version, is an error of its own.
pub open spec fn project_version(file: ProjectVersionFile) -> Result<Seq<char>, AppErrorView> {
    if file.kind != PathKind::File {
        Err(AppErrorView::ProjectVersionFileNotFound)
    } else {
        match file.contents {
            None => Err(AppErrorView::ProjectVersionFileUnreadable),
            Some(text) => match parsed_version(text@) {
                Some(version) => Ok(version),
                None => Err(AppErrorView::InvalidProjectVersionFile),
            },
        }
    }
}

/// Reads the editor version that the project in `workdir` asks for.
pub fn read_project_version(workdir: &str, file: &ProjectVersionFile) -> (version: Result<
    String,
    AppError,
>)
    ensures
        text_outcome(version) == project_version(*file),
{
    match locate_project_version_file(workdir, file.kind) {
        Ok(_) => match &file.contents {
            None => Err(AppError::ProjectVersionFileUnreadable),
            Some(text) => parse_project_version_file(text.as_str()),
        },
        Err(e) => Err(e),
    }
}

/// Whether the stretch of `text` from `from` to `to` begins with `prefix`.
fn begins_with(text: &Vec<char>, from: usize, to: usize, prefix: &Vec<char>) -> (yes: bool)
    requires
        from <= to <= text.len(),
    ensures
        yes == prefix@.is_prefix_of(text@.subrange(from as int, to as int)),
{
    if to - from < prefix.len() {
        return false;
    }
    let ghost stretch = text@.subrange(from as int, to as int);
    let mut i: usize = 0;
    while i < prefix.len()
        invariant
            from <= to <= text.len(),
            prefix.len() <= to - from,
            i <= prefix.len(),
            stretch == text@.subrange(from as int, to as int),
            forall|j: int| 0 <= j < i ==> prefix@[j] == stretch[j],
        decreases prefix.len() - i,
    {
        if text[from + i] != prefix[i] {
            return false;
        }
        i += 1;
    }
    true
}

} // verus!
