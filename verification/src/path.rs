use vstd::prelude::*;

verus! {

/// What the host found at a path.
#[derive(Clone, Copy, Debug, PartialEq, Eq, Structural)]
pub enum PathKind {
    /// Nothing is there, or it cannot be reached.
    Missing,
    /// A regular file.
    File,
    /// A directory.
    Directory,
    /// Something that is neither a regular file nor a directory.
    Other,
}

/// The character that separates the parts of a path.
pub open spec fn separator() -> char {
    '/'
}

/// The path `rel` below the directory `base`: the two texts with one
/// separator between them, which is left out where `base` is empty or
/// already ends in one.
pub open spec fn joined(base: Seq<char>, rel: Seq<char>) -> Seq<char> {
    if base.len() == 0 || base.last() == separator() {
        base + rel
    } else {
        base + seq![separator()] + rel
    }
}

/// Puts the relative path `rel` below the directory `base`.
pub fn join_path(base: &str, rel: &str) -> (path: String)
    ensures
        path@ == joined(base@, rel@),
{
    let n: usize = base.unicode_len();
    let mut path = base.to_owned();
    if n > 0 && base.get_char(n - 1) != '/' {
        proof {
            reveal_strlit("/");
        }
        path.append("/");
    }
    path.append(rel);
    path
}

} // verus!
