//! The path filter: from the notifications of one tick to the one script,
//! if any, that the tick acts on.

use crate::command::{bash_command, ShellCommand};
use crate::events::{content_changed, Event, EventView, Tag, TagView};
use crate::paths::{
    has_backup_name, has_hidden_component, invocation_of, is_backup, is_hidden, parent, path_file_name, path_parent,
    script_invocation,
};
use crate::probe::{Executable, FileStatus, FileStatusView};
use vstd::prelude::*;

verus! {

/// The script that a tick acts on, taken apart into what the supervisor
/// needs.
#[derive(Debug, PartialEq, Eq)]
pub struct ActionableTarget {
    /// The directory that holds the script, where the path has one.
    pub directory_to_cd_into: Option<String>,
    /// The line that runs the script from that directory.
    pub script_invocation: String,
    /// Whether the script is the configured follow-up script itself.
    pub is_then_script: bool,
}

/// The mathematical value of an [`ActionableTarget`].
pub struct TargetView {
    pub directory_to_cd_into: Option<Seq<char>>,
    pub script_invocation: Seq<char>,
    pub is_then_script: bool,
}

impl DeepView for ActionableTarget {
    type V = TargetView;

    open spec fn deep_view(&self) -> TargetView {
        TargetView {
            directory_to_cd_into: self.directory_to_cd_into.deep_view(),
            script_invocation: self.script_invocation@,
            is_then_script: self.is_then_script,
        }
    }
}

/// A path qualifies when it may be executed, no component of it is hidden,
/// it is no editor's backup, it names a file, and it could be resolved.
pub open spec fn qualifies(path: Seq<char>, file: FileStatusView) -> bool {
    &&& file.executable == Executable::Yes
    &&& !is_hidden(path)
    &&& !is_backup(path)
    &&& path_file_name(path) is Some
    &&& file.canonical is Some
}

/// The target that a qualifying path stands for. The script is the
/// follow-up script when its resolved path is the configured one.
pub open spec fn target_of(path: Seq<char>, file: FileStatusView, then_path: Option<Seq<char>>) -> TargetView {
    TargetView {
        directory_to_cd_into: path_parent(path),
        script_invocation: invocation_of(path_file_name(path).unwrap()),
        is_then_script: then_path is Some && file.canonical == then_path,
    }
}

/// Tag `j` of notification `i` is a qualifying path of a notification that
/// reports a change of content.
pub open spec fn passes_at(batch: Seq<EventView>, i: int, j: int) -> bool {
    &&& 0 <= i < batch.len()
    &&& 0 <= j < batch[i].tags.len()
    &&& content_changed(batch[i])
    &&& batch[i].tags[j] matches TagView::Path { path, file } && qualifies(path, file)
}

/// Position `(a, b)` is delivered before position `(i, j)`.
pub open spec fn before(a: int, b: int, i: int, j: int) -> bool {
    a < i || (a == i && b < j)
}

/// Position `(i, j)` passes and nothing delivered before it does.
pub open spec fn is_first(batch: Seq<EventView>, i: int, j: int) -> bool {
    &&& passes_at(batch, i, j)
    &&& forall|a: int, b: int| before(a, b, i, j) ==> !#[trigger] passes_at(batch, a, b)
}

/// The position of the first path that passes, in the order of delivery.
pub open spec fn first_passing(batch: Seq<EventView>) -> Option<(int, int)> {
    if exists|i: int, j: int| is_first(batch, i, j) {
        Some(choose|at: (int, int)| is_first(batch, at.0, at.1))
    } else {
        None
    }
}

/// The target at a position that holds a path.
pub open spec fn target_at(batch: Seq<EventView>, i: int, j: int, then_path: Option<Seq<char>>) -> TargetView {
    target_of(batch[i].tags[j]->path, batch[i].tags[j]->file, then_path)
}

/// What the filter selects: the target of the first path that passes, and
/// nothing where none does.
pub open spec fn select(batch: Seq<EventView>, then_path: Option<Seq<char>>) -> Option<TargetView> {
    match first_passing(batch) {
        Some((i, j)) => Some(target_at(batch, i, j, then_path)),
        None => None,
    }
}

/// Two positions that are both first are one position.
pub proof fn lemma_first_is_unique(batch: Seq<EventView>, i: int, j: int, a: int, b: int)
    requires
        is_first(batch, i, j),
        is_first(batch, a, b),
    ensures
        i == a && j == b,
{
}

/// A position that is first is the one that [`first_passing`] names.
pub proof fn lemma_first_is_selected(batch: Seq<EventView>, i: int, j: int)
    requires
        is_first(batch, i, j),
    ensures
        first_passing(batch) == Some((i, j)),
{
    let at = choose|at: (int, int)| is_first(batch, at.0, at.1);
    assert(is_first(batch, (i, j).0, (i, j).1));
    lemma_first_is_unique(batch, i, j, at.0, at.1);
}

/// Before any position that passes, or at it, stands one that is first.
pub proof fn lemma_some_position_is_first(batch: Seq<EventView>, i: int, j: int) -> (at: (int, int))
    requires
        passes_at(batch, i, j),
    ensures
        is_first(batch, at.0, at.1),
        !before(i, j, at.0, at.1),
    decreases i, j,
{
    if forall|a: int, b: int| before(a, b, i, j) ==> !#[trigger] passes_at(batch, a, b) {
        (i, j)
    } else {
        let (a, b) = choose|a: int, b: int| before(a, b, i, j) && #[trigger] passes_at(batch, a, b);
        lemma_some_position_is_first(batch, a, b)
    }
}

/// The position that [`first_passing`] names is first.
pub proof fn lemma_selected_is_first(batch: Seq<EventView>)
    ensures
        first_passing(batch) matches Some((i, j)) ==> is_first(batch, i, j),
        first_passing(batch) is None ==> forall|i: int, j: int| !#[trigger] passes_at(batch, i, j),
{
    if first_passing(batch) is None {
        assert forall|i: int, j: int| !#[trigger] passes_at(batch, i, j) by {
            if passes_at(batch, i, j) {
                lemma_some_position_is_first(batch, i, j);
            }
        }
    } else {
        let (i, j) = choose|i: int, j: int| is_first(batch, i, j);
        assert(is_first(batch, (i, j).0, (i, j).1));
    }
}

/// A batch in which no notification reports a change of content selects
/// nothing, whatever paths it names.
pub proof fn law_no_content_change_selects_nothing(batch: Seq<EventView>, then_path: Option<Seq<char>>)
    requires
        forall|i: int| 0 <= i < batch.len() ==> !content_changed(#[trigger] batch[i]),
    ensures
        select(batch, then_path) is None,
{
    lemma_selected_is_first(batch);
}

/// A path with a hidden component, a path whose name ends with a tilde and a
/// path that is not known to be executable are never the path selected.
pub proof fn law_excluded_path_is_never_selected(batch: Seq<EventView>, i: int, j: int)
    requires
        0 <= i < batch.len(),
        0 <= j < batch[i].tags.len(),
        batch[i].tags[j] matches TagView::Path { path, file } && (is_hidden(path) || is_backup(path)
            || file.executable != Executable::Yes),
    ensures
        first_passing(batch) != Some((i, j)),
{
    lemma_selected_is_first(batch);
}

/// Where every path of the batch is excluded, nothing is selected.
pub proof fn law_all_excluded_selects_nothing(batch: Seq<EventView>, then_path: Option<Seq<char>>)
    requires
        forall|i: int, j: int|
            0 <= i < batch.len() && 0 <= j < batch[i].tags.len() ==> (#[trigger] batch[i].tags[j] matches TagView::Path {
                path,
                file,
            } ==> is_hidden(path) || is_backup(path) || file.executable != Executable::Yes),
    ensures
        select(batch, then_path) is None,
{
    lemma_selected_is_first(batch);
}

/// Where any path passes, the filter selects one that passes and that no
/// passing path precedes in the order of delivery. The selection is a
/// function of the batch and the configured path alone.
pub proof fn law_first_in_delivery_order(batch: Seq<EventView>, then_path: Option<Seq<char>>, i: int, j: int)
    requires
        passes_at(batch, i, j),
    ensures
        first_passing(batch) matches Some((a, b)) && passes_at(batch, a, b) && !before(i, j, a, b) && select(
            batch,
            then_path,
        ) == Some(target_at(batch, a, b, then_path)),
{
    let at = lemma_some_position_is_first(batch, i, j);
    lemma_first_is_selected(batch, at.0, at.1);
}

impl ActionableTarget {
    /// The target of one delivered path: the path's own directory and file
    /// name, and whether its resolved form is the follow-up script. A path
    /// that does not qualify has none.
    pub fn from_candidate(path: &String, file: &FileStatus, then_path: Option<&String>) -> (target: Option<
        ActionableTarget,
    >)
        ensures
            target.deep_view() == if qualifies(path@, file.deep_view()) {
                Some(target_of(path@, file.deep_view(), then_path.deep_view()))
            } else {
                None
            },
    {
        match file.executable {
            Executable::Yes => {},
            _ => {
                return None;
            },
        }
        if has_hidden_component(path.as_str()) || has_backup_name(path.as_str()) {
            return None;
        }
        let resolved = match &file.canonical {
            Some(resolved) => resolved,
            None => {
                return None;
            },
        };
        let script_invocation = match script_invocation(path.as_str()) {
            Some(line) => line,
            None => {
                return None;
            },
        };
        let is_then_script = match then_path {
            Some(configured) => *configured == *resolved,
            None => false,
        };
        Some(ActionableTarget { directory_to_cd_into: parent(path.as_str()), script_invocation, is_then_script })
    }

    /// The command that runs the script.
    pub fn command(&self) -> (command: ShellCommand)
        ensures
            command.deep_view() == bash_command(self.deep_view().script_invocation),
    {
        ShellCommand::bash(self.script_invocation.clone())
    }
}

/// Selects the script to act on: the first path, in the order of delivery,
/// that qualifies and belongs to a notification that reports a change of
/// content.
pub fn get_command(events: &Vec<Event>, then_path: Option<&String>) -> (target: Option<ActionableTarget>)
    ensures
        target.deep_view() == select(events.deep_view(), then_path.deep_view()),
{
    let ghost batch = events.deep_view();
    let mut i: usize = 0;
    while i < events.len()
        invariant
            i <= events.len(),
            batch == events.deep_view(),
            forall|a: int, b: int| a < i ==> !#[trigger] passes_at(batch, a, b),
        decreases events.len() - i,
    {
        if events[i].is_content_change() {
            let tags = &events[i].tags;
            let mut j: usize = 0;
            while j < tags.len()
                invariant
                    i < events.len(),
                    j <= tags.len(),
                    batch == events.deep_view(),
                    tags == &events[i as int].tags,
                    batch[i as int] == events[i as int].deep_view(),
                    content_changed(batch[i as int]),
                    forall|a: int, b: int| before(a, b, i as int, j as int) ==> !#[trigger] passes_at(batch, a, b),
                decreases tags.len() - j,
            {
                match &tags[j] {
                    Tag::Path { path, file } => {
                        let target = ActionableTarget::from_candidate(path, file, then_path);
                        if target.is_some() {
                            proof {
                                lemma_first_is_selected(batch, i as int, j as int);
                            }
                            return target;
                        }
                    },
                    _ => {},
                }
                j += 1;
            }
        }
        i += 1;
    }
    None
}

} // verus!
