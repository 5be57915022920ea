//! What the file system says of a path: the facts that the filter and the
//! start-up check go by.

use vstd::prelude::*;

verus! {

/// The error type of the permission query.
#[verifier::external_type_specification]
#[verifier::external_body]
pub struct ExIoError(std::io::Error);

/// The outcome of asking whether a path may be executed. `Unknown` stands
/// for a query that failed, whatever the reason.
#[derive(Clone, Copy, Debug, PartialEq, Eq)]
pub enum Executable {
    Yes,
    No,
    Unknown,
}

/// What was found out about one path when it was looked up.
#[derive(Debug, PartialEq, Eq)]
pub struct FileStatus {
    /// Whether anything is at the path.
    pub exists: bool,
    /// Whether this process may execute it.
    pub executable: Executable,
    /// The absolute form of the path with every link resolved, where it could be
    /// resolved.
    pub canonical: Option<String>,
}

/// The mathematical value of a [`FileStatus`].
pub struct FileStatusView {
    pub exists: bool,
    pub executable: Executable,
    pub canonical: Option<Seq<char>>,
}

impl DeepView for FileStatus {
    type V = FileStatusView;

    open spec fn deep_view(&self) -> FileStatusView {
        FileStatusView {
            exists: self.exists,
            executable: self.executable,
            canonical: self.canonical.deep_view(),
        }
    }
}

/// Whether a text holds a NUL character. No path of the operating system
/// does, and the permission query cannot take one.
pub open spec fn has_nul(text: Seq<char>) -> bool {
    exists|k: int| 0 <= k < text.len() && text[k] == '\0'
}

/// Calls `permissions::is_executable`, which asks the operating system
/// whether the process may execute what is at `path`. Nothing is claimed of
/// the answer: it depends on the file system at the moment of the call. The
/// outside function panics on a path with a NUL in it, so such a path is
/// left out.
#[verifier::external_body]
fn is_executable(path: &str) -> (answer: Result<bool, std::io::Error>)
    requires
        !has_nul(path@),
{
    permissions::is_executable(path)
}

/// Whether `path` holds a NUL character.
pub fn contains_nul(path: &str) -> (found: bool)
    ensures
        found == has_nul(path@),
{
    broadcast use vstd::string::group_string_axioms;

    let mut found = false;
    for c in it: path.chars()
        invariant
            it.seq() == path@,
            found == exists|k: int| 0 <= k < it.index() && path@[k] == '\0',
    {
        if c == '\0' {
            found = true;
        }
    }
    found
}

/// How the answer of the permission query is read: a failed query decides
/// nothing.
pub open spec fn executable_of(answer: Option<bool>) -> Executable {
    match answer {
        Some(true) => Executable::Yes,
        Some(false) => Executable::No,
        None => Executable::Unknown,
    }
}

impl Executable {
    /// Reads the answer of a permission query, `None` standing for a query
    /// that failed.
    pub fn from_answer(answer: Option<bool>) -> (executable: Executable)
        ensures
            executable == executable_of(answer),
    {
        match answer {
            Some(true) => Executable::Yes,
            Some(false) => Executable::No,
            None => Executable::Unknown,
        }
    }

    /// Asks the operating system whether `path` may be executed. A path
    /// that no query can take is `Unknown` without a query; of any other
    /// path the answer is whatever the file system says at this moment.
    pub fn probe(path: &str) -> (executable: Executable)
        ensures
            has_nul(path@) ==> executable == Executable::Unknown,
    {
        if contains_nul(path) {
            Executable::Unknown
        } else {
            match is_executable(path) {
                Ok(allowed) => Executable::from_answer(Some(allowed)),
                Err(_) => Executable::from_answer(None),
            }
        }
    }
}

impl FileStatus {
    /// Completes what the caller found out about `path` with the answer of
    /// the permission query.
    pub fn probe(path: &str, exists: bool, canonical: Option<String>) -> (status: FileStatus)
        ensures
            status.exists == exists,
            status.canonical == canonical,
            has_nul(path@) ==> status.executable == Executable::Unknown,
    {
        FileStatus { exists, executable: Executable::probe(path), canonical }
    }
}

} // verus!
