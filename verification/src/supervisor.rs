//! The supervisor as a state machine: its states, its steps, and what holds
//! of every run of it.

use crate::command::{bash_command, ShellCommandView};
use crate::events::{interrupted, EventView};
use crate::filter::{select, TargetView};
use crate::jobs::{ActionView, Chain, JobEnd, JobView, Role};
use crate::paths::{invocation_of, path_file_name, path_parent};
use crate::payload::cd_plan;
use vstd::prelude::*;

verus! {

/// The state of the supervisor.
pub struct RunnerView {
    /// The directory that the process started in.
    pub initial_dir: Seq<char>,
    /// The resolved path of the follow-up script, where one is configured.
    pub then_path: Option<Seq<char>>,
    /// The jobs that are tracked, the primary job first.
    pub jobs: Seq<JobView>,
    /// No tracked job has this name or a later one.
    pub next_id: u64,
    pub chain: Chain,
}

/// What a tick asks for.
pub enum TickPlanView {
    /// The loop ends.
    Quit,
    /// Nothing is done, and no job is touched.
    Idle,
    /// The jobs are replaced by one that runs this target.
    Replace(TargetView),
}

/// The command of the follow-up job: it needs a follow-up script whose path
/// names a file.
pub open spec fn then_job_of(then_path: Option<Seq<char>>) -> Option<ShellCommandView> {
    match then_path {
        Some(path) => match path_file_name(path) {
            Some(name) => Some(bash_command(invocation_of(name))),
            None => None,
        },
        None => None,
    }
}

/// What a tick asks for: an interrupt ends the loop whatever else the batch
/// holds; otherwise the filter decides.
pub open spec fn tick_plan(batch: Seq<EventView>, then_path: Option<Seq<char>>) -> TickPlanView {
    if interrupted(batch) {
        TickPlanView::Quit
    } else {
        match select(batch, then_path) {
            Some(target) => TickPlanView::Replace(target),
            None => TickPlanView::Idle,
        }
    }
}

/// One action for each job, in the order of the jobs: its deletion.
pub open spec fn deletions(jobs: Seq<JobView>) -> Seq<ActionView> {
    Seq::new(jobs.len(), |k: int| ActionView::Delete(jobs[k].id))
}

/// Exactly one of the jobs is live, and it is the primary job: the first
/// job is primary and was started, and no other job was.
pub open spec fn one_live_primary(jobs: Seq<JobView>) -> bool {
    &&& jobs.len() >= 1
    &&& jobs[0].role == Role::Primary
    &&& jobs[0].started
    &&& forall|k: int| 1 <= k < jobs.len() ==> !(#[trigger] jobs[k]).started
}

/// Whether a list of actions tells the host to wait for any job.
pub open spec fn awaits_any(actions: Seq<ActionView>) -> bool {
    exists|k: int| 0 <= k < actions.len() && #[trigger] actions[k] is Await
}

impl RunnerView {
    /// The state before the first tick.
    pub open spec fn initial(initial_dir: Seq<char>, then_path: Option<Seq<char>>) -> RunnerView {
        RunnerView { initial_dir, then_path, jobs: Seq::empty(), next_id: 0, chain: Chain::Idle }
    }

    /// A run waits on the primary job `id`: that job is tracked and was
    /// started, and beside it the follow-up job is tracked, made and not
    /// started.
    pub open spec fn chained_on(self, id: u64) -> bool {
        &&& self.jobs.len() == 2
        &&& self.jobs[0].id == id
        &&& self.jobs[0].role == Role::Primary
        &&& self.jobs[0].started
        &&& self.jobs[1].role == Role::Then
        &&& !self.jobs[1].started
        &&& then_job_of(self.then_path) == Some(self.jobs[1].command)
    }

    /// What holds of every state: at most one primary and one follow-up job
    /// are tracked, under different names that were given out last, and a
    /// run waits only on a tracked primary job.
    pub open spec fn wf(self) -> bool {
        &&& self.jobs.len() <= 2
        &&& forall|k: int|
            0 <= k < self.jobs.len() ==> (#[trigger] self.jobs[k]).id < self.next_id <= self.jobs[k].id + 2
        &&& forall|k: int, l: int|
            0 <= k < l < self.jobs.len() ==> (#[trigger] self.jobs[k]).id != (#[trigger] self.jobs[l]).id
                && self.jobs[k].role != self.jobs[l].role
        &&& match self.chain {
            Chain::Idle => true,
            Chain::Waiting(id) => self.chained_on(id),
            Chain::Ready(id) => self.chained_on(id),
        }
    }

    /// The name of the next job: names count up, and start again from zero
    /// before they would run out.
    pub open spec fn fresh_id(self) -> u64 {
        if self.next_id > u64::MAX - 2 {
            0
        } else {
            self.next_id
        }
    }

    /// A run of `target` is followed by the follow-up script when the target
    /// is not that script itself and a follow-up job can be made.
    pub open spec fn chains(self, target: TargetView) -> bool {
        !target.is_then_script && then_job_of(self.then_path) is Some
    }

    /// The primary job that a replacement makes for `target`.
    pub open spec fn primary_for(self, target: TargetView) -> JobView {
        JobView {
            id: self.fresh_id(),
            role: Role::Primary,
            command: bash_command(target.script_invocation),
            started: true,
        }
    }

    /// The follow-up job that a replacement makes beside the primary job.
    pub open spec fn then_for(self) -> JobView {
        JobView {
            id: (self.fresh_id() + 1) as u64,
            role: Role::Then,
            command: then_job_of(self.then_path).unwrap(),
            started: false,
        }
    }

    /// The state after the jobs were replaced by one for `target`.
    pub open spec fn replaced(self, target: TargetView) -> RunnerView {
        if self.chains(target) {
            RunnerView {
                jobs: seq![self.primary_for(target), self.then_for()],
                next_id: (self.fresh_id() + 2) as u64,
                chain: Chain::Waiting(self.fresh_id()),
                ..self
            }
        } else {
            RunnerView {
                jobs: seq![self.primary_for(target)],
                next_id: (self.fresh_id() + 1) as u64,
                chain: Chain::Idle,
                ..self
            }
        }
    }

    /// What the host does for a replacement: it deletes every tracked job,
    /// then makes and starts the primary job; where the run is followed, it
    /// also makes the follow-up job and waits for the primary one.
    pub open spec fn replace_actions(self, target: TargetView) -> Seq<ActionView> {
        let primary = self.primary_for(target);
        let begin = deletions(self.jobs) + seq![
            ActionView::Create { id: primary.id, command: primary.command },
            ActionView::Start(primary.id),
        ];
        if self.chains(target) {
            begin + seq![
                ActionView::Create { id: self.then_for().id, command: self.then_for().command },
                ActionView::Await(primary.id),
            ]
        } else {
            begin
        }
    }

    /// The follow-up script is due when the job that the run waits on ends
    /// with success.
    pub open spec fn then_due(self, id: u64, end: JobEnd) -> bool {
        self.chain == Chain::Waiting(id) && end == JobEnd::Success
    }

    /// The directories to enter before the follow-up job starts.
    pub open spec fn then_dirs(self) -> Seq<Seq<char>> {
        cd_plan(self.initial_dir, path_parent(self.then_path.unwrap()))
    }

    /// The state after the end of job `id` was reported. The end of a job
    /// that no run waits on changes nothing.
    pub open spec fn after_job_ended(self, id: u64, end: JobEnd) -> RunnerView {
        if self.chain == Chain::Waiting(id) {
            RunnerView { chain: if end == JobEnd::Success { Chain::Ready(id) } else { Chain::Idle }, ..self }
        } else {
            self
        }
    }

    /// What the host does once the directory was changed for the follow-up
    /// script: it deletes the primary job and starts the follow-up job.
    /// Where the directory could not be changed, or the run was replaced
    /// meanwhile, it does nothing.
    pub open spec fn then_actions(self, id: u64, dirs_changed: bool) -> Seq<ActionView> {
        if self.chain == Chain::Ready(id) && dirs_changed {
            seq![ActionView::Delete(self.jobs[0].id), ActionView::Start(self.jobs[1].id)]
        } else {
            Seq::empty()
        }
    }

    /// The state after the host answered for the follow-up script.
    pub open spec fn after_then(self, id: u64, dirs_changed: bool) -> RunnerView {
        if self.chain == Chain::Ready(id) {
            if dirs_changed {
                RunnerView { jobs: seq![JobView { started: true, ..self.jobs[1] }], chain: Chain::Idle, ..self }
            } else {
                RunnerView { chain: Chain::Idle, ..self }
            }
        } else {
            self
        }
    }
}

/// The state before the first tick is well formed, and every step keeps a
/// well-formed state so: whatever the ticks and the reported ends, no more
/// than one primary and one follow-up job are ever tracked.
pub proof fn law_steps_keep_wf(
    state: RunnerView,
    target: TargetView,
    id: u64,
    end: JobEnd,
    dirs_changed: bool,
)
    requires
        state.wf(),
    ensures
        RunnerView::initial(state.initial_dir, state.then_path).wf(),
        state.replaced(target).wf(),
        state.after_job_ended(id, end).wf(),
        state.after_then(id, dirs_changed).wf(),
{
}

/// A tick that selects nothing and carries no interrupt asks for nothing:
/// the plan is to idle, and the supervisor's state is no part of the plan.
pub proof fn law_inert_tick_idles(batch: Seq<EventView>, then_path: Option<Seq<char>>)
    requires
        !interrupted(batch),
        select(batch, then_path) is None,
    ensures
        tick_plan(batch, then_path) == TickPlanView::Idle,
{
}

/// The same batch twice in a row: where it selects a target, both ticks
/// ask for a replacement by that target; after each replacement exactly one
/// job is live, the primary one; and the second replacement deletes every
/// job of the first and starts a new job with the same command.
pub proof fn law_same_batch_twice(state: RunnerView, batch: Seq<EventView>)
    requires
        state.wf(),
        !interrupted(batch),
        select(batch, state.then_path) is Some,
    ensures
        ({
            let target = select(batch, state.then_path).unwrap();
            let once = state.replaced(target);
            let twice = once.replaced(target);
            &&& tick_plan(batch, state.then_path) == TickPlanView::Replace(target)
            &&& tick_plan(batch, once.then_path) == TickPlanView::Replace(target)
            &&& one_live_primary(once.jobs)
            &&& one_live_primary(twice.jobs)
            &&& twice.jobs[0].command == once.jobs[0].command
            &&& twice.jobs.len() == once.jobs.len()
            &&& forall|k: int|
                0 <= k < once.jobs.len() ==> #[trigger] once.replace_actions(target)[k] == ActionView::Delete(
                    once.jobs[k].id,
                )
            &&& forall|k: int| 0 <= k < once.jobs.len() ==> (#[trigger] once.jobs[k]).id != twice.jobs[0].id
        }),
{
}

/// A run that is waited on and ends with success starts the follow-up job
/// exactly once, after the change into the starting directory and from there
/// into the follow-up script's own: the host is told to start that job and
/// no other, only where the directories were changed, and a second report of
/// the same end starts nothing.
pub proof fn law_success_starts_then_once(state: RunnerView, id: u64)
    requires
        state.wf(),
        state.chain == Chain::Waiting(id),
    ensures
        state.then_due(id, JobEnd::Success),
        state.then_path is Some,
        state.then_dirs() == cd_plan(state.initial_dir, path_parent(state.then_path.unwrap())),
        ({
            let ready = state.after_job_ended(id, JobEnd::Success);
            let done = ready.after_then(id, true);
            &&& state.jobs[1].role == Role::Then
            &&& ready.then_actions(id, true) == seq![
                ActionView::Delete(id),
                ActionView::Start(state.jobs[1].id),
            ]
            &&& ready.then_actions(id, false) == Seq::<ActionView>::empty()
            &&& done.jobs == seq![JobView { started: true, ..state.jobs[1] }]
            &&& forall|again: JobEnd| !done.then_due(id, again)
            &&& forall|changed: bool| #[trigger] done.then_actions(id, changed) == Seq::<ActionView>::empty()
        }),
{
}

/// A run that is waited on and ends in any other way starts no follow-up
/// job: nothing is due, the wait is over, and whatever the host answers
/// afterwards, it is told to do nothing.
pub proof fn law_failure_starts_nothing(state: RunnerView, id: u64, end: JobEnd)
    requires
        state.wf(),
        state.chain == Chain::Waiting(id),
        end != JobEnd::Success,
    ensures
        !state.then_due(id, end),
        state.after_job_ended(id, end).chain == Chain::Idle,
        state.after_job_ended(id, end).jobs == state.jobs,
        forall|asked: u64, changed: bool|
            #[trigger] state.after_job_ended(id, end).then_actions(asked, changed) == Seq::<ActionView>::empty(),
{
}

/// A change of the follow-up script itself runs it once, as the primary
/// job: no follow-up job is made, nothing is waited for, and no end of any
/// job makes the follow-up script due.
pub proof fn law_self_edit_is_not_chained(state: RunnerView, target: TargetView)
    requires
        state.wf(),
        target.is_then_script,
    ensures
        state.replaced(target).chain == Chain::Idle,
        state.replaced(target).jobs == seq![state.primary_for(target)],
        state.replace_actions(target) == deletions(state.jobs) + seq![
            ActionView::Create { id: state.fresh_id(), command: bash_command(target.script_invocation) },
            ActionView::Start(state.fresh_id()),
        ],
        !awaits_any(state.replace_actions(target)),
        forall|id: u64, end: JobEnd| !#[trigger] state.replaced(target).then_due(id, end),
{
    let actions = state.replace_actions(target);
    assert forall|k: int| 0 <= k < actions.len() implies !(#[trigger] actions[k] is Await) by {}
}

/// A replacement supersedes whatever came before it: every tracked job, a
/// follow-up job that is pending or running among them, is deleted before
/// the new primary job is started, none of them is tracked afterwards, and
/// a run that was waited on is waited on no longer, so that the end of its
/// job starts nothing.
pub proof fn law_replacement_supersedes(state: RunnerView, target: TargetView, k: int)
    requires
        state.wf(),
        0 <= k < state.jobs.len(),
    ensures
        ({
            let actions = state.replace_actions(target);
            let after = state.replaced(target);
            let start_at = state.jobs.len() as int + 1;
            &&& actions[k] == ActionView::Delete(state.jobs[k].id)
            &&& actions[start_at] == ActionView::Start(after.jobs[0].id)
            &&& k < start_at
            &&& forall|l: int| 0 <= l < after.jobs.len() ==> (#[trigger] after.jobs[l]).id != state.jobs[k].id
            &&& forall|end: JobEnd| !#[trigger] after.then_due(state.jobs[k].id, end)
            &&& forall|changed: bool|
                #[trigger] after.then_actions(state.jobs[k].id, changed) == Seq::<ActionView>::empty()
        }),
{
}

} // verus!
