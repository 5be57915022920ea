//! Jobs, and the actions by which the host is told to handle them.

use crate::command::{ShellCommand, ShellCommandView};
use vstd::prelude::*;

verus! {

/// What a job is for.
#[derive(Clone, Copy, Debug, PartialEq, Eq)]
pub enum Role {
    /// It runs the script that changed.
    Primary,
    /// It runs the follow-up script after a successful primary run.
    Then,
}

/// A job that the supervisor tracks.
#[derive(Debug, PartialEq, Eq)]
pub struct Job {
    /// The name by which the supervisor and the host speak of the job.
    pub id: u64,
    pub role: Role,
    pub command: ShellCommand,
    /// Whether the host was told to start it.
    pub started: bool,
}

/// The mathematical value of a [`Job`].
pub struct JobView {
    pub id: u64,
    pub role: Role,
    pub command: ShellCommandView,
    pub started: bool,
}

impl DeepView for Job {
    type V = JobView;

    open spec fn deep_view(&self) -> JobView {
        JobView { id: self.id, role: self.role, command: self.command.deep_view(), started: self.started }
    }
}

/// How the run of a job ended, as the task that waited for it saw it.
#[derive(Clone, Copy, Debug, PartialEq, Eq)]
pub enum JobEnd {
    /// The process finished with success.
    Success,
    /// The process finished in any other way.
    Failure,
    /// The job was stopped and discarded before its process finished.
    Killed,
}

/// Whether a run is waiting to be followed by the follow-up script.
#[derive(Clone, Copy, Debug, PartialEq, Eq)]
pub enum Chain {
    /// Nothing is waited for.
    Idle,
    /// The end of the primary job of this name is waited for.
    Waiting(u64),
    /// The primary job of this name succeeded; the follow-up job starts once
    /// the directory has been changed.
    Ready(u64),
}

/// One thing that the host is told to do. The host does the actions of a
/// list in order and as one step.
#[derive(Debug, PartialEq, Eq)]
pub enum Action {
    /// Stop the job at once and discard it.
    Delete(u64),
    /// Make a job of this name for this command, without starting it.
    Create { id: u64, command: ShellCommand },
    /// Start the job.
    Start(u64),
    /// Report the end of the job when it comes.
    Await(u64),
}

/// The mathematical value of an [`Action`].
pub enum ActionView {
    Delete(u64),
    Create { id: u64, command: ShellCommandView },
    Start(u64),
    Await(u64),
}

impl DeepView for Action {
    type V = ActionView;

    open spec fn deep_view(&self) -> ActionView {
        match self {
            Action::Delete(id) => ActionView::Delete(*id),
            Action::Create { id, command } => ActionView::Create { id: *id, command: command.deep_view() },
            Action::Start(id) => ActionView::Start(*id),
            Action::Await(id) => ActionView::Await(*id),
        }
    }
}

/// Whether the loop of ticks goes on.
#[derive(Clone, Copy, Debug, PartialEq, Eq)]
pub enum ControlDecision {
    Continue,
    Quit,
}

} // verus!
