//! The supervisor that the host drives: one call for each tick and for each
//! outcome that the host reports, each answered by what to do next.

use crate::command::ShellCommand;
use crate::events::{batch_interrupted, Event};
use crate::filter::{get_command, ActionableTarget};
use crate::jobs::{Action, ActionView, Chain, ControlDecision, Job, JobEnd, Role};
use crate::paths::script_invocation;
use crate::payload::{cd_plan, Payload, StartupError};
use crate::supervisor::{then_job_of, tick_plan, RunnerView, TickPlanView};
use vstd::prelude::*;

verus! {

/// What a tick asks of the host.
#[derive(Debug, PartialEq, Eq)]
pub enum TickPlan {
    /// End the loop.
    Quit,
    /// Do nothing.
    Idle,
    /// Enter the target's directory, then report to
    /// [`Runner::replace_and_start`].
    Replace(ActionableTarget),
}

impl DeepView for TickPlan {
    type V = TickPlanView;

    open spec fn deep_view(&self) -> TickPlanView {
        match self {
            TickPlan::Quit => TickPlanView::Quit,
            TickPlan::Idle => TickPlanView::Idle,
            TickPlan::Replace(target) => TickPlanView::Replace(target.deep_view()),
        }
    }
}

impl TickPlan {
    /// Whether the loop goes on after this tick: it ends on an interrupt
    /// alone.
    pub fn decision(&self) -> (decision: ControlDecision)
        ensures
            decision == if self is Quit {
                ControlDecision::Quit
            } else {
                ControlDecision::Continue
            },
    {
        match self {
            TickPlan::Quit => ControlDecision::Quit,
            _ => ControlDecision::Continue,
        }
    }
}

/// The jobs that are tracked and the run that is waited on.
struct Tracking {
    jobs: Vec<Job>,
    next_id: u64,
    chain: Chain,
}

/// The supervisor. It is made once, from a configuration that passed the
/// start-up check, and is well formed ever after.
pub struct Runner {
    payload: Payload,
    then_job: Option<ShellCommand>,
    tracking: Tracking,
}

impl DeepView for Runner {
    type V = RunnerView;

    closed spec fn deep_view(&self) -> RunnerView {
        RunnerView {
            initial_dir: self.payload.deep_view().initial_dir.unwrap(),
            then_path: self.payload.deep_view().raw_then_path,
            jobs: self.tracking.jobs.deep_view(),
            next_id: self.tracking.next_id,
            chain: self.tracking.chain,
        }
    }
}

impl Runner {
    #[verifier::type_invariant]
    spec fn inv(self) -> bool {
        &&& self.payload.deep_view().initial_dir is Some
        &&& self.then_job.deep_view() == then_job_of(self.payload.deep_view().raw_then_path)
        &&& self.deep_view().wf()
    }

    /// The supervisor for a configuration, before the first tick. A
    /// configuration without a starting directory has none.
    pub fn new(payload: Payload) -> (made: Result<Runner, StartupError>)
        ensures
            match payload.deep_view().initial_dir {
                Some(initial_dir) => made matches Ok(runner) && runner.deep_view() == RunnerView::initial(
                    initial_dir,
                    payload.deep_view().raw_then_path,
                ),
                None => made matches Err(error) && error == StartupError::NoCurrentDir,
            },
    {
        if payload.initial_dir().is_none() {
            return Err(StartupError::NoCurrentDir);
        }
        let names_a_file = match payload.raw_then_path() {
            Some(path) => script_invocation(path.as_str()).is_some(),
            None => true,
        };
        let then_job = if names_a_file {
            payload.then_job()
        } else {
            None
        };
        let tracking = Tracking { jobs: Vec::new(), next_id: 0, chain: Chain::Idle };
        assert(tracking.jobs.deep_view() =~= Seq::empty());
        Ok(Runner { payload, then_job, tracking })
    }

    /// The configuration that the supervisor was made from.
    pub fn payload(&self) -> (payload: &Payload)
        ensures
            payload.deep_view().initial_dir == Some(self.deep_view().initial_dir),
            payload.deep_view().raw_then_path == self.deep_view().then_path,
            self.deep_view().wf(),
    {
        proof {
            use_type_invariant(self);
        }
        &self.payload
    }

    /// The plan for one tick. The supervisor's state is not touched: a
    /// batch that selects nothing leaves every job as it is.
    pub fn on_tick(&self, batch: &Vec<Event>) -> (plan: TickPlan)
        ensures
            plan.deep_view() == tick_plan(batch.deep_view(), self.deep_view().then_path),
    {
        if batch_interrupted(batch) {
            TickPlan::Quit
        } else {
            match get_command(batch, self.payload.raw_then_path()) {
                Some(target) => TickPlan::Replace(target),
                None => TickPlan::Idle,
            }
        }
    }

    /// The directories to enter, in order, before `target` is run: the
    /// starting directory, then the target's own, where it has one.
    pub fn target_cd(&self, target: &ActionableTarget) -> (dirs: Vec<String>)
        ensures
            dirs.deep_view() == cd_plan(self.deep_view().initial_dir, target.deep_view().directory_to_cd_into),
    {
        proof {
            use_type_invariant(self);
        }
        let mut dirs: Vec<String> = Vec::new();
        match self.payload.initial_dir() {
            Some(dir) => {
                dirs.push(dir.clone());
            },
            None => {},
        }
        match &target.directory_to_cd_into {
            Some(dir) => {
                dirs.push(dir.clone());
            },
            None => {},
        }
        assert(dirs.deep_view() =~= cd_plan(
            self.deep_view().initial_dir,
            target.deep_view().directory_to_cd_into,
        ));
        dirs
    }

    /// Replaces every tracked job by one that runs `target`, as one step.
    /// `dirs_changed` says whether the host could enter every directory of
    /// [`Runner::target_cd`]; where it could not, nothing is replaced and
    /// nothing is to be done.
    pub fn replace_and_start(&mut self, target: &ActionableTarget, dirs_changed: bool) -> (actions: Vec<Action>)
        ensures
            old(self).deep_view().wf(),
            final(self).deep_view().wf(),
            final(self).deep_view() == if dirs_changed {
                old(self).deep_view().replaced(target.deep_view())
            } else {
                old(self).deep_view()
            },
            actions.deep_view() == if dirs_changed {
                old(self).deep_view().replace_actions(target.deep_view())
            } else {
                Seq::empty()
            },
    {
        proof {
            use_type_invariant(&*self);
        }
        let ghost before = self.deep_view();
        let mut actions: Vec<Action> = Vec::new();
        if !dirs_changed {
            return actions;
        }
        let mut k: usize = 0;
        while k < self.tracking.jobs.len()
            invariant
                k <= self.tracking.jobs.len(),
                before.jobs == self.tracking.jobs.deep_view(),
                actions.len() == k,
                forall|j: int| 0 <= j < k ==> (#[trigger] actions[j]).deep_view() == ActionView::Delete(before.jobs[j].id),
            decreases self.tracking.jobs.len() - k,
        {
            actions.push(Action::Delete(self.tracking.jobs[k].id));
            k += 1;
        }
        let id: u64 = if self.tracking.next_id > u64::MAX - 2 {
            0
        } else {
            self.tracking.next_id
        };
        let command = target.command();
        let mut jobs: Vec<Job> = Vec::new();
        actions.push(Action::Create { id, command: command.duplicate() });
        actions.push(Action::Start(id));
        jobs.push(Job { id, role: Role::Primary, command, started: true });
        let mut next_id: u64 = id + 1;
        let mut chain = Chain::Idle;
        if !target.is_then_script {
            match &self.then_job {
                Some(then_command) => {
                    actions.push(Action::Create { id: id + 1, command: then_command.duplicate() });
                    actions.push(Action::Await(id));
                    jobs.push(
                        Job { id: id + 1, role: Role::Then, command: then_command.duplicate(), started: false },
                    );
                    next_id = id + 2;
                    chain = Chain::Waiting(id);
                },
                None => {},
            }
        }
        assert(jobs.deep_view() =~= before.replaced(target.deep_view()).jobs);
        self.tracking = Tracking { jobs, next_id, chain };
        actions
    }

    /// Takes the report that job `id` ended. Where a run waited on that job
    /// and it ended with success, the follow-up script is due: the
    /// directories to enter for it come back, and the host reports to
    /// [`Runner::start_then`]. Any other end is the end of the wait; the end
    /// of a job that no run waits on changes nothing.
    pub fn job_ended(&mut self, id: u64, end: JobEnd) -> (dirs: Option<Vec<String>>)
        ensures
            old(self).deep_view().wf(),
            final(self).deep_view().wf(),
            final(self).deep_view() == old(self).deep_view().after_job_ended(id, end),
            dirs.deep_view() == if old(self).deep_view().then_due(id, end) {
                Some(old(self).deep_view().then_dirs())
            } else {
                None
            },
    {
        proof {
            use_type_invariant(&*self);
        }
        match self.tracking.chain {
            Chain::Waiting(waited) => {
                if waited == id {
                    match end {
                        JobEnd::Success => {
                            self.tracking.chain = Chain::Ready(id);
                            Some(self.payload.then_cd())
                        },
                        _ => {
                            self.tracking.chain = Chain::Idle;
                            None
                        },
                    }
                } else {
                    None
                }
            },
            _ => None,
        }
    }

    /// Takes the host's answer for the follow-up script of the run that
    /// waited on job `id`: where the directories of [`Runner::job_ended`]
    /// were entered, the primary job is deleted and the follow-up job
    /// starts; where they were not, the follow-up script is not run. An
    /// answer for a run that was replaced meanwhile changes nothing.
    pub fn start_then(&mut self, id: u64, dirs_changed: bool) -> (actions: Vec<Action>)
        ensures
            old(self).deep_view().wf(),
            final(self).deep_view().wf(),
            final(self).deep_view() == old(self).deep_view().after_then(id, dirs_changed),
            actions.deep_view() == old(self).deep_view().then_actions(id, dirs_changed),
    {
        proof {
            use_type_invariant(&*self);
        }
        let ghost before = self.deep_view();
        let mut actions: Vec<Action> = Vec::new();
        match self.tracking.chain {
            Chain::Ready(ready) => {
                if ready == id {
                    if dirs_changed {
                        let primary = &self.tracking.jobs[0];
                        let follow_up = &self.tracking.jobs[1];
                        actions.push(Action::Delete(primary.id));
                        actions.push(Action::Start(follow_up.id));
                        let mut jobs: Vec<Job> = Vec::new();
                        jobs.push(
                            Job {
                                id: follow_up.id,
                                role: Role::Then,
                                command: follow_up.command.duplicate(),
                                started: true,
                            },
                        );
                        let next_id: u64 = self.tracking.next_id;
                        assert(jobs.deep_view() =~= before.after_then(id, dirs_changed).jobs);
                        self.tracking = Tracking { jobs, next_id, chain: Chain::Idle };
                    } else {
                        self.tracking.chain = Chain::Idle;
                    }
                }
            },
            _ => {},
        }
        actions
    }

    /// The jobs that are tracked, the primary job first.
    pub fn jobs(&self) -> (jobs: &Vec<Job>)
        ensures
            jobs.deep_view() == self.deep_view().jobs,
            self.deep_view().wf(),
    {
        proof {
            use_type_invariant(self);
        }
        &self.tracking.jobs
    }

    /// Whether a run is waited on.
    pub fn chain(&self) -> (chain: Chain)
        ensures
            chain == self.deep_view().chain,
    {
        self.tracking.chain
    }
}

} // verus!
