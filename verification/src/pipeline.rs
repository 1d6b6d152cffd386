//! Pipelines, and the run that works through them.
//!
//! A run belongs to one push. It checks out a workspace, loads the
//! pipeline definitions, and for each pipeline that the push meets, in
//! the order of the definitions, takes the actions in order. The first
//! failure ends the whole run. However the run ends, the workspace that
//! was checked out is given up again, once.
//!
//! The run does nothing to the outside world itself. It says what is to
//! be done next (a `Step`), a driver does it and reports what came of it
//! (an `Event`), and the run answers with the next step.

use vstd::prelude::*;
use crate::actions::webhook::http_outcome;
use crate::actions::{
    command_outcome, command_views, plan_view, title_of, Action, ActionPlan, Command, HttpRequest,
    IAction,
};
use crate::actions::{Invocation, Plan, Request};
use crate::envs::{
    build_failure, content_views, empty_scope, environment, inherited, with_output, Envs, Scope,
};
use crate::error::{failure_of, Failure, RunError};
use crate::repo::{
    release_ops, step_views, workspace_of, Context, GitEvent, WorkspaceOp, WorkspaceStep,
    Workspace, Worktree,
};
use crate::text::views;
use crate::trigger::{is_met, meets_malformed, Trigger, WhenSpec};

verus! {

/// A named list of actions with the trigger that decides whether a push
/// sets it off.
#[derive(Debug)]
pub struct Pipeline {
    name: String,
    trigger: WhenSpec,
    envs: Envs,
    actions: Vec<Action>,
}

/// A pipeline as contracts see it.
pub ghost struct PipelineView {
    pub name: Seq<char>,
    pub trigger: Trigger,
    pub scope: Scope,
    pub actions: Seq<Action>,
}

impl View for Pipeline {
    type V = PipelineView;

    closed spec fn view(&self) -> PipelineView {
        PipelineView {
            name: self.name@,
            trigger: self.trigger@,
            scope: self.envs@,
            actions: self.actions@,
        }
    }
}

/// Whether the push `event` sets off a pipeline with the trigger `rule`,
/// or `None` where deciding this comes upon a malformed file pattern.
pub open spec fn decided(rule: Trigger, event: GitEvent) -> Option<bool> {
    if meets_malformed(rule, event.branch, event.fileset) {
        None
    } else {
        Some(is_met(rule, event.branch, event.fileset))
    }
}

impl Pipeline {
    /// The pipeline called `name` with the trigger `trigger`, the
    /// environment fragment `envs` and the actions `actions`.
    pub fn new(name: String, trigger: WhenSpec, envs: Envs, actions: Vec<Action>) -> (pipeline:
        Pipeline)
        ensures
            pipeline@ == (PipelineView {
                name: name@,
                trigger: trigger@,
                scope: envs@,
                actions: actions@,
            }),
    {
        Pipeline { name, trigger, envs, actions }
    }

    /// Whether the push `ctx` sets the pipeline off, or `None` where
    /// deciding this comes upon a malformed file pattern.
    pub fn should_run(&self, ctx: &Context) -> (met: Option<bool>)
        ensures
            met == decided(self@.trigger, ctx@),
    {
        self.trigger.try_match_changes(ctx.branch.as_str(), &ctx.fileset)
    }
}

/// Where a run stands.
#[derive(Clone, Copy, PartialEq, Eq, Debug, Structural)]
pub enum Phase {
    /// Not started.
    Idle,
    /// Waiting for the workspace to be checked out.
    CheckingOut,
    /// Waiting for the pipeline definitions.
    Loading,
    /// Waiting for the output file of a pipeline.
    Opening,
    /// Waiting for the environment files of an action.
    Preparing,
    /// Waiting for a command of an action to end.
    Spawning,
    /// Waiting for the answer to the request of an action.
    Sending,
    /// Waiting for the workspace to be given up.
    Releasing,
    /// Over.
    Finished,
}

/// What the driver is to do next.
#[derive(Debug)]
pub enum Step {
    /// Take the steps `acquire` of the workspace, and report `Acquired`.
    Acquire(Worktree),
    /// Read the pipeline definitions, one from each file of the directory
    /// `dir` in the workspace, and report `Loaded`, with no pipelines
    /// where there is no such directory, or `LoadFailed`.
    LoadPipelines { dir: String },
    /// Announce the pipeline `pipeline`, create a new, empty temporary
    /// file for its output, and report `ChannelOpened` or `ChannelFailed`.
    OpenChannel { pipeline: String },
    /// Print the line `title`, read the environment files `files`, and
    /// report `EnvFilesRead`, or `EnvFilesFailed` for a file that is there
    /// and cannot be read.
    ReadEnvFiles { title: String, files: Vec<String> },
    /// Run the command, passing on what it prints line by line, and report
    /// `Exited`.
    Spawn(Command),
    /// Send the request, and report `Answered` or `NotAnswered`.
    Send(HttpRequest),
    /// Take the steps that give the workspace up, and report `Released`.
    Release(Vec<WorkspaceStep>),
    /// The run is over: with success, or with the failure that ended it.
    Done(Option<RunError>),
}

/// A step as contracts see it.
pub ghost enum StepView {
    Acquire(Workspace),
    LoadPipelines { dir: Seq<char> },
    OpenChannel { pipeline: Seq<char> },
    ReadEnvFiles { title: Seq<char>, files: Seq<Seq<char>> },
    Spawn(Invocation),
    Send(Request),
    Release(Seq<WorkspaceOp>),
    Done(Option<Failure>),
}

impl View for Step {
    type V = StepView;

    open spec fn view(&self) -> StepView {
        match *self {
            Step::Acquire(worktree) => StepView::Acquire(worktree@),
            Step::LoadPipelines { dir } => StepView::LoadPipelines { dir: dir@ },
            Step::OpenChannel { pipeline } => StepView::OpenChannel { pipeline: pipeline@ },
            Step::ReadEnvFiles { title, files } => StepView::ReadEnvFiles {
                title: title@,
                files: views(files@),
            },
            Step::Spawn(command) => StepView::Spawn(command@),
            Step::Send(request) => StepView::Send(request@),
            Step::Release(steps) => StepView::Release(step_views(steps@)),
            Step::Done(failure) => StepView::Done(failure_of(failure)),
        }
    }
}

/// What the driver reports.
#[derive(Debug)]
pub enum Event {
    /// The run is to start.
    Start,
    /// The workspace was checked out (`ok`), or a step of checking it out
    /// failed.
    Acquired { ok: bool },
    /// The pipeline definitions, in the order in which their files were
    /// found.
    Loaded { pipelines: Vec<Pipeline> },
    /// A pipeline definition could not be read.
    LoadFailed { detail: String },
    /// The output file of the pipeline was created at `path`.
    ChannelOpened { path: String },
    /// The output file of the pipeline could not be created.
    ChannelFailed { detail: String },
    /// What was found at the places of the environment files: the text
    /// of each file, or `None` where there is no such file.
    EnvFilesRead { contents: Vec<Option<String>> },
    /// The environment file `path` is there and could not be read.
    EnvFilesFailed { path: String },
    /// The command ended with the exit code `code`, or without one: it
    /// could not be started, or did not end by itself.
    Exited { code: Option<i32> },
    /// The request was answered.
    Answered { status: u16, body: String },
    /// The request was not answered.
    NotAnswered { detail: String },
    /// The workspace was given up (`ok`), or a step of giving it up
    /// failed.
    Released { ok: bool },
}

/// A report as contracts see it.
pub ghost enum Signal {
    Start,
    Acquired { ok: bool },
    Loaded { pipelines: Seq<Pipeline> },
    LoadFailed { detail: Seq<char> },
    ChannelOpened { path: Seq<char> },
    ChannelFailed { detail: Seq<char> },
    EnvFilesRead { contents: Seq<Option<Seq<char>>> },
    EnvFilesFailed { path: Seq<char> },
    Exited { code: Option<i32> },
    Answered { status: u16, body: Seq<char> },
    NotAnswered { detail: Seq<char> },
    Released { ok: bool },
}

impl View for Event {
    type V = Signal;

    open spec fn view(&self) -> Signal {
        match *self {
            Event::Start => Signal::Start,
            Event::Acquired { ok } => Signal::Acquired { ok },
            Event::Loaded { pipelines } => Signal::Loaded { pipelines: pipelines@ },
            Event::LoadFailed { detail } => Signal::LoadFailed { detail: detail@ },
            Event::ChannelOpened { path } => Signal::ChannelOpened { path: path@ },
            Event::ChannelFailed { detail } => Signal::ChannelFailed { detail: detail@ },
            Event::EnvFilesRead { contents } => Signal::EnvFilesRead {
                contents: content_views(contents@),
            },
            Event::EnvFilesFailed { path } => Signal::EnvFilesFailed { path: path@ },
            Event::Exited { code } => Signal::Exited { code },
            Event::Answered { status, body } => Signal::Answered { status, body: body@ },
            Event::NotAnswered { detail } => Signal::NotAnswered { detail: detail@ },
            Event::Released { ok } => Signal::Released { ok },
        }
    }
}

/// A run as contracts see it.
pub ghost struct RunState {
    /// The push that the run belongs to.
    pub event: GitEvent,
    /// The scope that every pipeline inherits.
    pub base: Scope,
    /// The pipelines, once they are loaded.
    pub pipelines: Seq<Pipeline>,
    pub phase: Phase,
    /// The place of the pipeline at work.
    pub pipeline_at: int,
    /// The place of the action at work in its pipeline.
    pub action_at: int,
    /// The place of the command at work in its action.
    pub command_at: int,
    /// The scope of the pipeline at work.
    pub scope: Scope,
    /// The commands of the action at work.
    pub commands: Seq<Invocation>,
    /// The failure that ended the run, if one did.
    pub failure: Option<Failure>,
}

/// The directory of the pipeline definitions, below the workspace.
pub open spec fn pipeline_dir() -> Seq<char> {
    ".arrow"@
}

/// Whether the places that `st` names are there: the pipeline at work
/// while one is at work, and so its action and its command.
pub open spec fn well_formed(st: RunState) -> bool {
    &&& (st.phase == Phase::Opening || st.phase == Phase::Preparing || st.phase == Phase::Spawning
        || st.phase == Phase::Sending) ==> 0 <= st.pipeline_at < st.pipelines.len()
    &&& (st.phase == Phase::Preparing || st.phase == Phase::Spawning || st.phase == Phase::Sending)
        ==> 0 <= st.action_at < st.pipelines[st.pipeline_at]@.actions.len()
    &&& st.phase == Phase::Spawning ==> 0 <= st.command_at < st.commands.len()
}

/// Whether a run in this phase holds the workspace: it was checked out
/// and is not given up yet.
pub open spec fn holds_workspace(phase: Phase) -> bool {
    phase == Phase::Loading || phase == Phase::Opening || phase == Phase::Preparing || phase
        == Phase::Spawning || phase == Phase::Sending
}

/// The run that has not started yet.
pub open spec fn initial(event: GitEvent, base: Scope) -> RunState {
    RunState {
        event,
        base,
        pipelines: Seq::empty(),
        phase: Phase::Idle,
        pipeline_at: 0,
        action_at: 0,
        command_at: 0,
        scope: base,
        commands: Seq::empty(),
        failure: None,
    }
}

/// The run gives the workspace up: what failed before stays on record.
pub open spec fn released(st: RunState) -> (RunState, StepView) {
    (RunState { phase: Phase::Releasing, ..st }, StepView::Release(release_ops(st.event)))
}

/// The run ends with `failure`, and first gives the workspace up.
pub open spec fn failed(st: RunState, failure: Failure) -> (RunState, StepView) {
    released(RunState { failure: Some(failure), ..st })
}

/// The run ends at once, without a workspace to give up.
pub open spec fn aborted(st: RunState, failure: Failure) -> (RunState, StepView) {
    (
        RunState { phase: Phase::Finished, failure: Some(failure), ..st },
        StepView::Done(Some(failure)),
    )
}

/// The run turns to the first pipeline from place `from` on that the push
/// sets off, and asks for its output file. A pipeline that the push does
/// not set off is passed over; one whose trigger cannot be decided fails
/// the run. After the last pipeline the run gives the workspace up.
pub open spec fn next_pipeline(st: RunState, from: int) -> (RunState, StepView)
    decreases st.pipelines.len() - from,
{
    if from < 0 || from >= st.pipelines.len() {
        released(st)
    } else {
        match decided(st.pipelines[from]@.trigger, st.event) {
            None => failed(st, Failure::DefinitionParse { detail: st.pipelines[from]@.name }),
            Some(false) => next_pipeline(st, from + 1),
            Some(true) => (
                RunState { phase: Phase::Opening, pipeline_at: from, ..st },
                StepView::OpenChannel { pipeline: st.pipelines[from]@.name },
            ),
        }
    }
}

/// The action at work.
pub open spec fn action_of(st: RunState) -> Action {
    st.pipelines[st.pipeline_at]@.actions[st.action_at]
}

/// The scope of the action at work: its own fragment below the scope of
/// its pipeline.
pub open spec fn action_scope(st: RunState) -> Scope {
    inherited(action_of(st).fragment(), st.scope)
}

/// The run turns to the action at place `at` of the pipeline at work and
/// asks for its environment files, or to the next pipeline where the
/// pipeline has no such action.
pub open spec fn begin_action(st: RunState, at: int) -> (RunState, StepView) {
    if at < 0 || at >= st.pipelines[st.pipeline_at]@.actions.len() {
        next_pipeline(st, st.pipeline_at + 1)
    } else {
        let next = RunState { phase: Phase::Preparing, action_at: at, ..st };
        (
            next,
            StepView::ReadEnvFiles {
                title: title_of(action_of(next).label()),
                files: action_scope(next).env_file,
            },
        )
    }
}

/// The run turns to the command at place `at` of the action at work, or
/// to the next action where the action has no such command.
pub open spec fn next_command(st: RunState, at: int) -> (RunState, StepView) {
    if at < 0 || at >= st.commands.len() {
        begin_action(st, st.action_at + 1)
    } else {
        (RunState { phase: Phase::Spawning, command_at: at, ..st }, StepView::Spawn(st.commands[at]))
    }
}

/// The run takes up the plan of the action at work.
pub open spec fn planned(st: RunState, plan: Result<Plan, Failure>) -> (RunState, StepView) {
    match plan {
        Err(failure) => failed(st, failure),
        Ok(Plan::Http(request)) => (
            RunState { phase: Phase::Sending, ..st },
            StepView::Send(request),
        ),
        Ok(Plan::Commands(commands)) => next_command(RunState { commands, ..st }, 0),
    }
}

/// The run has the environment files of the action at work: a malformed
/// file fails the run, and otherwise the action plans in the environment
/// that is built from them.
pub open spec fn prepared(st: RunState, contents: Seq<Option<Seq<char>>>) -> (RunState, StepView) {
    match build_failure(action_scope(st), contents) {
        Some(failure) => failed(st, failure),
        None => planned(
            st,
            action_of(st).planned(
                workspace_of(st.event).path,
                environment(action_scope(st), contents),
            ),
        ),
    }
}

/// The end of the run: the failure on record, or the failure to give the
/// workspace up where nothing failed before.
pub open spec fn finished(st: RunState, ok: bool) -> (RunState, StepView) {
    let failure = match st.failure {
        Some(failure) => Some(failure),
        None => if ok {
            None
        } else {
            Some(Failure::Workspace { path: workspace_of(st.event).path })
        },
    };
    (RunState { phase: Phase::Finished, failure, ..st }, StepView::Done(failure))
}

/// The run hears something that it was not waiting for. A run that holds
/// the workspace fails and gives it up; one that waits for the workspace
/// to be given up takes that to have failed; one that is over stays so;
/// any other ends at once.
pub open spec fn confused(st: RunState) -> (RunState, StepView) {
    if holds_workspace(st.phase) {
        failed(st, Failure::Protocol)
    } else if st.phase == Phase::Finished {
        (st, StepView::Done(st.failure))
    } else if st.phase == Phase::Releasing {
        finished(st, false)
    } else {
        aborted(st, Failure::Protocol)
    }
}

/// The state and the step that follow when the run in state `st` hears
/// `signal`.
pub open spec fn react(st: RunState, signal: Signal) -> (RunState, StepView) {
    if !well_formed(st) {
        confused(st)
    } else {
        match (st.phase, signal) {
            (Phase::Idle, Signal::Start) => (
                RunState { phase: Phase::CheckingOut, ..st },
                StepView::Acquire(workspace_of(st.event)),
            ),
            (Phase::CheckingOut, Signal::Acquired { ok }) => if ok {
                (
                    RunState { phase: Phase::Loading, ..st },
                    StepView::LoadPipelines { dir: pipeline_dir() },
                )
            } else {
                aborted(st, Failure::Workspace { path: workspace_of(st.event).path })
            },
            (Phase::Loading, Signal::Loaded { pipelines }) => next_pipeline(
                RunState { pipelines, ..st },
                0,
            ),
            (Phase::Loading, Signal::LoadFailed { detail }) => failed(
                st,
                Failure::DefinitionParse { detail },
            ),
            (Phase::Opening, Signal::ChannelOpened { path }) => begin_action(
                RunState {
                    scope: with_output(
                        inherited(st.pipelines[st.pipeline_at]@.scope, st.base),
                        path,
                    ),
                    ..st
                },
                0,
            ),
            (Phase::Opening, Signal::ChannelFailed { detail }) => failed(
                st,
                Failure::Channel { detail },
            ),
            (Phase::Preparing, Signal::EnvFilesRead { contents }) => prepared(st, contents),
            (Phase::Preparing, Signal::EnvFilesFailed { path }) => failed(
                st,
                Failure::EnvFile { path },
            ),
            (Phase::Spawning, Signal::Exited { code }) => if code == Some(0i32) {
                next_command(st, st.command_at + 1)
            } else {
                failed(st, Failure::CommandFailed { code })
            },
            (Phase::Sending, Signal::Answered { status, body }) => if status < 400 {
                begin_action(st, st.action_at + 1)
            } else {
                failed(st, Failure::Http { status: Some(status), body })
            },
            (Phase::Sending, Signal::NotAnswered { detail }) => failed(
                st,
                Failure::Http { status: None, body: detail },
            ),
            (Phase::Releasing, Signal::Released { ok }) => finished(st, ok),
            _ => confused(st),
        }
    }
}

/// The run of the pipelines for one push.
#[derive(Debug)]
pub struct Pipelines {
    ctx: Context,
    base: Envs,
    pipelines: Vec<Pipeline>,
    phase: Phase,
    pipeline_at: usize,
    action_at: usize,
    command_at: usize,
    scope: Envs,
    commands: Vec<Command>,
    failure: Option<RunError>,
}

impl View for Pipelines {
    type V = RunState;

    closed spec fn view(&self) -> RunState {
        RunState {
            event: self.ctx@,
            base: self.base@,
            pipelines: self.pipelines@,
            phase: self.phase,
            pipeline_at: self.pipeline_at as int,
            action_at: self.action_at as int,
            command_at: self.command_at as int,
            scope: self.scope@,
            commands: command_views(self.commands@),
            failure: failure_of(self.failure),
        }
    }
}

/// A copy of an optional failure.
fn copy_failure(failure: &Option<RunError>) -> (copy: Option<RunError>)
    ensures
        failure_of(copy) == failure_of(*failure),
{
    match failure {
        Some(e) => Some(e.duplicate()),
        None => None,
    }
}

impl Pipelines {
    #[verifier::type_invariant]
    closed spec fn places_are_there(&self) -> bool {
        well_formed(self@)
    }

    /// The run for the push `ctx`, not started yet.
    pub fn new(ctx: Context) -> (run: Pipelines)
        ensures
            run@ == initial(ctx@, empty_scope()),
            well_formed(run@),
    {
        let base = ctx.prepare_envs();
        let scope = ctx.prepare_envs();
        let run = Pipelines {
            ctx,
            base,
            pipelines: Vec::new(),
            phase: Phase::Idle,
            pipeline_at: 0,
            action_at: 0,
            command_at: 0,
            scope,
            commands: Vec::new(),
            failure: None,
        };
        assert(run.pipelines@ =~= Seq::<Pipeline>::empty());
        assert(command_views(run.commands@) =~= Seq::<Invocation>::empty());
        run
    }

    /// Where the run stands.
    pub fn phase(&self) -> (phase: Phase)
        ensures
            phase == self@.phase,
    {
        self.phase
    }

    /// Whether the run is over.
    pub fn is_finished(&self) -> (over: bool)
        ensures
            over == (self@.phase == Phase::Finished),
    {
        self.phase == Phase::Finished
    }

    fn released(self) -> (next: (Pipelines, Step))
        ensures
            (next.0@, next.1@) == released(self@),
    {
        let steps = self.ctx.cleanup_workspace();
        (Pipelines { phase: Phase::Releasing, ..self }, Step::Release(steps))
    }

    fn failed(self, failure: RunError) -> (next: (Pipelines, Step))
        ensures
            (next.0@, next.1@) == failed(self@, failure@),
    {
        let run = Pipelines { phase: Phase::Releasing, failure: Some(failure), ..self };
        run.released()
    }

    fn aborted(self, failure: RunError) -> (next: (Pipelines, Step))
        ensures
            (next.0@, next.1@) == aborted(self@, failure@),
    {
        let copy = failure.duplicate();
        (Pipelines { phase: Phase::Finished, failure: Some(failure), ..self }, Step::Done(Some(copy)))
    }

    fn finished(self, ok: bool) -> (next: (Pipelines, Step))
        ensures
            (next.0@, next.1@) == finished(self@, ok),
    {
        let failure = match copy_failure(&self.failure) {
            Some(failure) => Some(failure),
            None => if ok {
                None
            } else {
                Some(RunError::Workspace { path: self.ctx.checkout_workspace().path })
            },
        };
        let copy = copy_failure(&failure);
        (Pipelines { phase: Phase::Finished, failure, ..self }, Step::Done(copy))
    }

    fn confused(self) -> (next: (Pipelines, Step))
        ensures
            (next.0@, next.1@) == confused(self@),
    {
        let phase = self.phase;
        if phase == Phase::Loading || phase == Phase::Opening || phase == Phase::Preparing || phase
            == Phase::Spawning || phase == Phase::Sending {
            self.failed(RunError::Protocol)
        } else if phase == Phase::Finished {
            let copy = copy_failure(&self.failure);
            (self, Step::Done(copy))
        } else if phase == Phase::Releasing {
            self.finished(false)
        } else {
            self.aborted(RunError::Protocol)
        }
    }

    fn next_pipeline(self, from: usize) -> (next: (Pipelines, Step))
        ensures
            (next.0@, next.1@) == next_pipeline(self@, from as int),
    {
        let mut at: usize = from;
        while at < self.pipelines.len()
            invariant
                next_pipeline(self@, at as int) == next_pipeline(self@, from as int),
            decreases self.pipelines.len() - at,
        {
            match self.pipelines[at].should_run(&self.ctx) {
                None => {
                    let detail = self.pipelines[at].name.clone();
                    return self.failed(RunError::DefinitionParse { detail });
                },
                Some(true) => {
                    let pipeline = self.pipelines[at].name.clone();
                    return (
                        Pipelines { phase: Phase::Opening, pipeline_at: at, ..self },
                        Step::OpenChannel { pipeline },
                    );
                },
                Some(false) => {
                    at += 1;
                },
            }
        }
        self.released()
    }

    fn begin_action(self, at: usize) -> (next: (Pipelines, Step))
        requires
            0 <= self@.pipeline_at < self@.pipelines.len(),
        ensures
            (next.0@, next.1@) == begin_action(self@, at as int),
    {
        if at >= self.pipelines[self.pipeline_at].actions.len() {
            assert(self.pipeline_at < self.pipelines.len());
            let from = self.pipeline_at + 1;
            return self.next_pipeline(from);
        }
        let action = &self.pipelines[self.pipeline_at].actions[at];
        let title = action.title();
        let files = action.scope(&self.scope).files();
        (
            Pipelines { phase: Phase::Preparing, action_at: at, ..self },
            Step::ReadEnvFiles { title, files },
        )
    }

    fn next_command(self, at: usize) -> (next: (Pipelines, Step))
        requires
            0 <= self@.pipeline_at < self@.pipelines.len(),
            0 <= self@.action_at < self@.pipelines[self@.pipeline_at]@.actions.len(),
        ensures
            (next.0@, next.1@) == next_command(self@, at as int),
    {
        if at >= self.commands.len() {
            assert(self.action_at < self.pipelines[self.pipeline_at as int].actions.len());
            let action = self.action_at + 1;
            return self.begin_action(action);
        }
        let command = self.commands[at].duplicate();
        (Pipelines { phase: Phase::Spawning, command_at: at, ..self }, Step::Spawn(command))
    }

    fn planned(self, plan: Result<ActionPlan, RunError>) -> (next: (Pipelines, Step))
        requires
            0 <= self@.pipeline_at < self@.pipelines.len(),
            0 <= self@.action_at < self@.pipelines[self@.pipeline_at]@.actions.len(),
            self@.phase == Phase::Preparing,
        ensures
            (next.0@, next.1@) == planned(self@, plan_view(plan)),
    {
        match plan {
            Err(failure) => self.failed(failure),
            Ok(ActionPlan::Http(request)) => (
                Pipelines { phase: Phase::Sending, ..self },
                Step::Send(request),
            ),
            Ok(ActionPlan::Commands(commands)) => {
                let run = Pipelines { commands, ..self };
                run.next_command(0)
            },
        }
    }

    /// Takes the run one step on: hears what the driver reports, and
    /// says what the driver is to do next.
    ///
    /// The new state and the step are those of `react`.
    pub fn run(self, event: Event) -> (next: (Pipelines, Step))
        ensures
            well_formed(self@),
            well_formed(next.0@),
            react(self@, event@) == (next.0@, next.1@),
    {
        proof {
            use_type_invariant(&self);
        }
        let ghost st = self@;
        let ghost signal = event@;
        let phase = self.phase;
        let next = match event {
            Event::Start => {
                if phase == Phase::Idle {
                    let worktree = self.ctx.checkout_workspace();
                    (Pipelines { phase: Phase::CheckingOut, ..self }, Step::Acquire(worktree))
                } else {
                    self.confused()
                }
            },
            Event::Acquired { ok } => {
                if phase == Phase::CheckingOut {
                    if ok {
                        (
                            Pipelines { phase: Phase::Loading, ..self },
                            Step::LoadPipelines { dir: ".arrow".to_owned() },
                        )
                    } else {
                        let path = self.ctx.checkout_workspace().path;
                        self.aborted(RunError::Workspace { path })
                    }
                } else {
                    self.confused()
                }
            },
            Event::Loaded { pipelines } => {
                if phase == Phase::Loading {
                    let run = Pipelines { pipelines, ..self };
                    run.next_pipeline(0)
                } else {
                    self.confused()
                }
            },
            Event::LoadFailed { detail } => {
                if phase == Phase::Loading {
                    self.failed(RunError::DefinitionParse { detail })
                } else {
                    self.confused()
                }
            },
            Event::ChannelOpened { path } => {
                if phase == Phase::Opening {
                    let scope = self.pipelines[self.pipeline_at].envs.inherit(
                        &self.base,
                    ).setup_output_env(path);
                    let run = Pipelines { scope, ..self };
                    run.begin_action(0)
                } else {
                    self.confused()
                }
            },
            Event::ChannelFailed { detail } => {
                if phase == Phase::Opening {
                    self.failed(RunError::Channel { detail })
                } else {
                    self.confused()
                }
            },
            Event::EnvFilesRead { contents } => {
                if phase == Phase::Preparing {
                    let action = &self.pipelines[self.pipeline_at].actions[self.action_at];
                    let scope = action.scope(&self.scope);
                    match scope.build_env(&contents) {
                        Err(e) => self.failed(e),
                        Ok(vars) => {
                            let workdir = self.ctx.checkout_workspace().path;
                            let plan = action.run(workdir.as_str(), &vars);
                            self.planned(plan)
                        },
                    }
                } else {
                    self.confused()
                }
            },
            Event::EnvFilesFailed { path } => {
                if phase == Phase::Preparing {
                    self.failed(RunError::EnvFile { path })
                } else {
                    self.confused()
                }
            },
            Event::Exited { code } => {
                if phase == Phase::Spawning {
                    match command_outcome(code) {
                        Ok(_) => {
                            assert(self.command_at < self.commands.len());
                            let at = self.command_at + 1;
                            self.next_command(at)
                        },
                        Err(failure) => self.failed(failure),
                    }
                } else {
                    self.confused()
                }
            },
            Event::Answered { status, body } => {
                if phase == Phase::Sending {
                    match http_outcome(status, body) {
                        Ok(_) => {
                            assert(self.action_at < self.pipelines[self.pipeline_at
                                as int].actions.len());
                            let at = self.action_at + 1;
                            self.begin_action(at)
                        },
                        Err(failure) => self.failed(failure),
                    }
                } else {
                    self.confused()
                }
            },
            Event::NotAnswered { detail } => {
                if phase == Phase::Sending {
                    self.failed(RunError::Http { status: None, body: detail })
                } else {
                    self.confused()
                }
            },
            Event::Released { ok } => {
                if phase == Phase::Releasing {
                    self.finished(ok)
                } else {
                    self.confused()
                }
            },
        };
        assert(react(st, signal) == (next.0@, next.1@));
        proof {
            use_type_invariant(&next.0);
        }
        next
    }
}

} // verus!
