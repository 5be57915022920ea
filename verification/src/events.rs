//! The change notifications of one tick, as the watcher delivers them.

use crate::probe::{FileStatus, FileStatusView};
use vstd::prelude::*;

verus! {

/// What kind of change a notification reports.
#[derive(Clone, Copy, Debug, PartialEq, Eq)]
pub enum ChangeKind {
    /// Something was created.
    Created,
    /// The content of a file was written.
    ContentModified,
    /// Data changed in a way that is not known to be a write of content.
    DataModified,
    /// Permissions, times or other metadata changed.
    MetadataChanged,
    /// Something was renamed.
    Renamed,
    /// Something was removed.
    Removed,
    /// Something was opened, read or closed.
    Accessed,
    /// Any other kind, or none that is known.
    Other,
}

/// A signal that reached the watching process.
#[derive(Clone, Copy, Debug, PartialEq, Eq)]
pub enum Signal {
    /// The user asked the process to stop.
    Interrupt,
    /// Any other signal.
    Other,
}

/// One thing that a notification says.
#[derive(Debug, PartialEq, Eq)]
pub enum Tag {
    /// The notification is about this path, of which the file system said
    /// this.
    Path { path: String, file: FileStatus },
    /// The kind of change.
    Kind(ChangeKind),
    /// A signal was delivered.
    Signal(Signal),
    /// Anything that the filter does not read.
    Other,
}

/// The mathematical value of a [`Tag`].
pub enum TagView {
    Path { path: Seq<char>, file: FileStatusView },
    Kind(ChangeKind),
    Signal(Signal),
    Other,
}

impl DeepView for Tag {
    type V = TagView;

    open spec fn deep_view(&self) -> TagView {
        match self {
            Tag::Path { path, file } => TagView::Path { path: path@, file: file.deep_view() },
            Tag::Kind(kind) => TagView::Kind(*kind),
            Tag::Signal(signal) => TagView::Signal(*signal),
            Tag::Other => TagView::Other,
        }
    }
}

/// One notification: its tags in the order of delivery.
#[derive(Debug, PartialEq, Eq)]
pub struct Event {
    pub tags: Vec<Tag>,
}

/// The mathematical value of an [`Event`].
pub struct EventView {
    pub tags: Seq<TagView>,
}

impl DeepView for Event {
    type V = EventView;

    open spec fn deep_view(&self) -> EventView {
        EventView { tags: self.tags.deep_view() }
    }
}

/// A notification reports a change of content when one of its tags says so.
pub open spec fn content_changed(event: EventView) -> bool {
    exists|k: int| 0 <= k < event.tags.len() && #[trigger] event.tags[k] == TagView::Kind(ChangeKind::ContentModified)
}

/// A notification carries an interrupt when one of its tags is the interrupt
/// signal.
pub open spec fn carries_interrupt(event: EventView) -> bool {
    exists|k: int| 0 <= k < event.tags.len() && #[trigger] event.tags[k] == TagView::Signal(Signal::Interrupt)
}

/// A batch carries an interrupt when one of its notifications does.
pub open spec fn interrupted(batch: Seq<EventView>) -> bool {
    exists|i: int| 0 <= i < batch.len() && carries_interrupt(#[trigger] batch[i])
}

impl Event {
    /// Whether this notification reports a change of content.
    pub fn is_content_change(&self) -> (changed: bool)
        ensures
            changed == content_changed(self.deep_view()),
    {
        let mut k: usize = 0;
        while k < self.tags.len()
            invariant
                k <= self.tags.len(),
                forall|j: int|
                    0 <= j < k ==> #[trigger] self.deep_view().tags[j] != TagView::Kind(ChangeKind::ContentModified),
            decreases self.tags.len() - k,
        {
            assert(self.deep_view().tags[k as int] == self.tags[k as int].deep_view());
            match &self.tags[k] {
                Tag::Kind(ChangeKind::ContentModified) => {
                    return true;
                },
                _ => {},
            }
            k += 1;
        }
        false
    }

    /// Whether this notification carries the interrupt signal.
    pub fn is_interrupt(&self) -> (found: bool)
        ensures
            found == carries_interrupt(self.deep_view()),
    {
        let mut k: usize = 0;
        while k < self.tags.len()
            invariant
                k <= self.tags.len(),
                forall|j: int| 0 <= j < k ==> #[trigger] self.deep_view().tags[j] != TagView::Signal(Signal::Interrupt),
            decreases self.tags.len() - k,
        {
            assert(self.deep_view().tags[k as int] == self.tags[k as int].deep_view());
            match &self.tags[k] {
                Tag::Signal(Signal::Interrupt) => {
                    return true;
                },
                _ => {},
            }
            k += 1;
        }
        false
    }
}

/// Whether the batch carries an interrupt.
pub fn batch_interrupted(batch: &Vec<Event>) -> (found: bool)
    ensures
        found == interrupted(batch.deep_view()),
{
    let mut i: usize = 0;
    while i < batch.len()
        invariant
            i <= batch.len(),
            forall|a: int| 0 <= a < i ==> !carries_interrupt(#[trigger] batch.deep_view()[a]),
        decreases batch.len() - i,
    {
        assert(batch.deep_view()[i as int] == batch[i as int].deep_view());
        if batch[i].is_interrupt() {
            return true;
        }
        i += 1;
    }
    false
}

} // verus!
