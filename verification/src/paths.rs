//! Path text: the parts that `std::path` splits a path into, and the rules
//! of the filter that read them.

use std::path::Path;
use vstd::prelude::*;

verus! {

/// One component of a path, as `std::path::Component` tells them apart.
#[derive(Debug, PartialEq, Eq)]
pub enum Component {
    Prefix,
    RootDir,
    CurDir,
    ParentDir,
    Normal(String),
}

/// The mathematical value of a [`Component`].
pub enum ComponentView {
    Prefix,
    RootDir,
    CurDir,
    ParentDir,
    Normal(Seq<char>),
}

impl DeepView for Component {
    type V = ComponentView;

    open spec fn deep_view(&self) -> ComponentView {
        match self {
            Component::Prefix => ComponentView::Prefix,
            Component::RootDir => ComponentView::RootDir,
            Component::CurDir => ComponentView::CurDir,
            Component::ParentDir => ComponentView::ParentDir,
            Component::Normal(name) => ComponentView::Normal(name@),
        }
    }
}

/// The components that `std::path::Path::components` yields for a path
/// with this text, in order.
pub uninterp spec fn path_components(path: Seq<char>) -> Seq<ComponentView>;

/// What `std::path::Path::file_name` returns for a path with this text.
pub uninterp spec fn path_file_name(path: Seq<char>) -> Option<Seq<char>>;

/// What `std::path::Path::parent` returns for a path with this text.
pub uninterp spec fn path_parent(path: Seq<char>) -> Option<Seq<char>>;

/// Calls `std::path::Path::components` and hands each component over under
/// the variant of the same name. Trusted: that the components depend on the
/// path's text alone, which is what [`path_components`] names.
#[verifier::external_body]
pub(crate) fn components(path: &str) -> (parts: Vec<Component>)
    ensures
        parts.deep_view() == path_components(path@),
{
    let mut parts = Vec::new();
    for part in Path::new(path).components() {
        parts.push(match part {
            std::path::Component::Prefix(_) => Component::Prefix,
            std::path::Component::RootDir => Component::RootDir,
            std::path::Component::CurDir => Component::CurDir,
            std::path::Component::ParentDir => Component::ParentDir,
            std::path::Component::Normal(name) => Component::Normal(name.to_string_lossy().into_owned()),
        });
    }
    parts
}

/// Calls `std::path::Path::file_name`. Trusted: that the result depends on
/// the path's text alone, which is what [`path_file_name`] names.
#[verifier::external_body]
pub(crate) fn file_name(path: &str) -> (name: Option<String>)
    ensures
        name.deep_view() == path_file_name(path@),
{
    match Path::new(path).file_name() {
        Some(name) => Some(name.to_string_lossy().into_owned()),
        None => None,
    }
}

/// Calls `std::path::Path::parent`. Trusted: that the result depends on the
/// path's text alone, which is what [`path_parent`] names.
#[verifier::external_body]
pub(crate) fn parent(path: &str) -> (dir: Option<String>)
    ensures
        dir.deep_view() == path_parent(path@),
{
    match Path::new(path).parent() {
        Some(dir) => Some(dir.to_string_lossy().into_owned()),
        None => None,
    }
}

/// A name is hidden when it begins with a dot.
pub open spec fn starts_with_dot(name: Seq<char>) -> bool {
    name.len() > 0 && name[0] == '.'
}

/// A path is hidden when one of its normal components is: the root, `.`
/// and `..` are no names and hide nothing.
pub open spec fn is_hidden(path: Seq<char>) -> bool {
    exists|k: int|
        0 <= k < path_components(path).len() && (#[trigger] path_components(path)[k] matches ComponentView::Normal(
            name,
        ) && starts_with_dot(name))
}

/// A path is an editor's backup when its file name ends with a tilde.
pub open spec fn is_backup(path: Seq<char>) -> bool {
    path_file_name(path) matches Some(name) && name.len() > 0 && name.last() == '~'
}

/// How a script is invoked from its own directory: by `./` and its name.
pub open spec fn invocation_of(name: Seq<char>) -> Seq<char> {
    seq!['.', '/'] + name
}

fn name_starts_with_dot(name: &str) -> (hidden: bool)
    ensures
        hidden == starts_with_dot(name@),
{
    !name.is_empty() && name.get_char(0) == '.'
}

/// Whether any normal component of `path` begins with a dot.
pub fn has_hidden_component(path: &str) -> (hidden: bool)
    ensures
        hidden == is_hidden(path@),
{
    let parts = components(path);
    let mut k: usize = 0;
    while k < parts.len()
        invariant
            k <= parts.len(),
            parts.deep_view() == path_components(path@),
            forall|j: int|
                0 <= j < k ==> !(#[trigger] path_components(path@)[j] matches ComponentView::Normal(name)
                    && starts_with_dot(name)),
        decreases parts.len() - k,
    {
        assert(parts.deep_view()[k as int] == parts[k as int].deep_view());
        match &parts[k] {
            Component::Normal(name) => {
                if name_starts_with_dot(name.as_str()) {
                    return true;
                }
            },
            _ => {},
        }
        k += 1;
    }
    false
}

/// Whether the file name of `path` ends with a tilde.
pub fn has_backup_name(path: &str) -> (backup: bool)
    ensures
        backup == is_backup(path@),
{
    match file_name(path) {
        Some(name) => {
            let n: usize = name.as_str().unicode_len();
            n > 0 && name.as_str().get_char(n - 1) == '~'
        },
        None => false,
    }
}

/// The invocation of the script at `path`, where the path has a file name.
pub fn script_invocation(path: &str) -> (line: Option<String>)
    ensures
        line.deep_view() == match path_file_name(path@) {
            Some(name) => Some(invocation_of(name)),
            None => None,
        },
{
    match file_name(path) {
        Some(name) => {
            proof {
                reveal_strlit("./");
            }
            let line = String::from_str("./").concat(name.as_str());
            Some(line)
        },
        None => None,
    }
}

} // verus!
