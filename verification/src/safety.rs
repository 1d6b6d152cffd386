//! What holds of every run: the workspace is given up exactly once, and
//! the first failure is the last thing that happens.
//!
//! Whatever the driver reports, and in whatever order, a run asks for its
//! workspace to be given up once if it was checked out and never if it
//! was not, and it does so before it says that it is over.
//!
//! Two runs are followed from the start to the end: one on a push that
//! sets off no pipeline, which runs nothing, and one on a push that sets
//! off a pipeline with one shell action, which runs it once.

use vstd::prelude::*;
use crate::actions::shell::{shell_invocation, ShellAction};
use crate::actions::{title_of, with_shell, Action, IAction, Plan};
use crate::envs::{build_failure, environment, inherited, with_output, Scope};
use crate::error::Failure;
use crate::pipeline::{
    action_scope, begin_action, decided, holds_workspace, initial, next_command, next_pipeline,
    pipeline_dir, planned, react, released, well_formed, Phase, Pipeline, RunState, Signal,
    StepView,
};
use crate::repo::{release_ops, workspace_of, GitEvent};

verus! {

/// The state of the run after it has heard the first `n` of `signals`.
pub open spec fn state_after(st: RunState, signals: Seq<Signal>, n: nat) -> RunState
    decreases n,
{
    if n == 0 {
        st
    } else {
        react(state_after(st, signals, (n - 1) as nat), signals[n - 1]).0
    }
}

/// The step with which the run answers the `i`-th of `signals`.
pub open spec fn step_at(st: RunState, signals: Seq<Signal>, i: nat) -> StepView {
    react(state_after(st, signals, i), signals[i as int]).1
}

/// How often the run asks for the workspace to be given up in answer to
/// the first `n` of `signals`.
pub open spec fn releases(st: RunState, signals: Seq<Signal>, n: nat) -> nat
    decreases n,
{
    if n == 0 {
        0
    } else {
        let before = releases(st, signals, (n - 1) as nat);
        if step_at(st, signals, (n - 1) as nat) is Release {
            before + 1
        } else {
            before
        }
    }
}

/// How often the run hears, among the first `n` of `signals` and while it
/// waits for it, that the workspace was checked out.
pub open spec fn acquisitions(st: RunState, signals: Seq<Signal>, n: nat) -> nat
    decreases n,
{
    if n == 0 {
        0
    } else {
        let before = acquisitions(st, signals, (n - 1) as nat);
        if state_after(st, signals, (n - 1) as nat).phase == Phase::CheckingOut && signals[n
            - 1] == (Signal::Acquired { ok: true }) {
            before + 1
        } else {
            before
        }
    }
}

/// What one step from a state that holds the workspace leads to: a state
/// that still holds it, or the request to give it up.
pub open spec fn keeps_or_releases(out: (RunState, StepView)) -> bool {
    &&& well_formed(out.0)
    &&& {
        ||| holds_workspace(out.0.phase) && !(out.1 is Release) && !(out.1 is Done)
        ||| out.0.phase == Phase::Releasing && out.1 is Release
    }
}

proof fn lemma_next_pipeline(st: RunState, from: int)
    ensures
        keeps_or_releases(next_pipeline(st, from)),
    decreases st.pipelines.len() - from,
{
    if !(from < 0 || from >= st.pipelines.len()) {
        lemma_next_pipeline(st, from + 1);
    }
}

proof fn lemma_begin_action(st: RunState, at: int)
    requires
        0 <= st.pipeline_at < st.pipelines.len(),
    ensures
        keeps_or_releases(begin_action(st, at)),
{
    lemma_next_pipeline(st, st.pipeline_at + 1);
}

proof fn lemma_next_command(st: RunState, at: int)
    requires
        0 <= st.pipeline_at < st.pipelines.len(),
        0 <= st.action_at < st.pipelines[st.pipeline_at]@.actions.len(),
    ensures
        keeps_or_releases(next_command(st, at)),
{
    lemma_begin_action(st, st.action_at + 1);
}

proof fn lemma_planned(st: RunState, plan: Result<Plan, Failure>)
    requires
        well_formed(st),
        st.phase == Phase::Preparing,
    ensures
        keeps_or_releases(planned(st, plan)),
{
    match plan {
        Ok(Plan::Commands(commands)) => {
            lemma_next_command(RunState { commands, ..st }, 0);
        },
        _ => {},
    }
}

/// One step of a run. A run that holds the workspace keeps it or asks
/// for it to be given up, and only such a run asks for that. A run that
/// waits for the workspace to be given up is over with the next report,
/// and a run that is over stays as it is. The run says that it is over
/// exactly when it is, and it takes the workspace for checked out exactly
/// when it hears so while it waits for it.
pub proof fn lemma_step(st: RunState, signal: Signal)
    requires
        well_formed(st),
    ensures
        well_formed(react(st, signal).0),
        react(st, signal).1 is Release <==> holds_workspace(st.phase) && react(st, signal).0.phase == Phase::Releasing,
        react(st, signal).1 is Done <==> react(st, signal).0.phase == Phase::Finished,
        holds_workspace(st.phase) ==> holds_workspace(react(st, signal).0.phase) || react(st, signal).0.phase == Phase::Releasing,
        st.phase == Phase::Releasing ==> react(st, signal).0.phase == Phase::Finished,
        st.phase == Phase::Finished ==> react(st, signal).0 == st,
        st.phase == Phase::Idle ==> react(st, signal).0.phase == Phase::CheckingOut || react(st, signal).0.phase == Phase::Finished,
        st.phase == Phase::CheckingOut ==> react(st, signal).0.phase == (if signal == (
        Signal::Acquired { ok: true }) {
            Phase::Loading
        } else {
            Phase::Finished
        }),
{
    let out = react(st, signal);
    match (st.phase, signal) {
        (Phase::Loading, Signal::Loaded { pipelines }) => {
            lemma_next_pipeline(RunState { pipelines, ..st }, 0);
        },
        (Phase::Opening, Signal::ChannelOpened { path }) => {
            let scope = crate::envs::with_output(
                crate::envs::inherited(st.pipelines[st.pipeline_at]@.scope, st.base),
                path,
            );
            lemma_begin_action(RunState { scope, ..st }, 0);
        },
        (Phase::Preparing, Signal::EnvFilesRead { contents }) => {
            lemma_planned(
                st,
                crate::pipeline::action_of(st).planned(
                    crate::repo::workspace_of(st.event).path,
                    crate::envs::environment(crate::pipeline::action_scope(st), contents),
                ),
            );
        },
        (Phase::Spawning, Signal::Exited { code }) => {
            lemma_next_command(st, st.command_at + 1);
        },
        (Phase::Sending, Signal::Answered { status, body }) => {
            lemma_begin_action(st, st.action_at + 1);
        },
        _ => {},
    }
}

/// A run gives its workspace up exactly once. After any reports
/// whatever, a run that started afresh has asked for the workspace to be
/// given up at most once; it has not done so while it holds the
/// workspace or before; and once it is over, or waits for the workspace
/// to be given up, it has asked for that exactly as often as the
/// workspace was checked out, which is once or never.
pub proof fn lemma_released_once(
    event: GitEvent,
    base: Scope,
    signals: Seq<Signal>,
    n: nat,
)
    ensures
        well_formed(state_after(initial(event, base), signals, n)),
        acquisitions(initial(event, base), signals, n) <= 1,
        releases(initial(event, base), signals, n) <= acquisitions(
            initial(event, base),
            signals,
            n,
        ),
        ({
            let phase = state_after(initial(event, base), signals, n).phase;
            let given_up = releases(initial(event, base), signals, n);
            let checked_out = acquisitions(initial(event, base), signals, n);
            &&& phase == Phase::Idle || phase == Phase::CheckingOut ==> checked_out == 0
            &&& holds_workspace(phase) ==> checked_out == 1 && given_up == 0
            &&& phase == Phase::Releasing || phase == Phase::Finished ==> given_up == checked_out
        }),
    decreases n,
{
    if n > 0 {
        let start = initial(event, base);
        let m = (n - 1) as nat;
        lemma_released_once(event, base, signals, m);
        lemma_step(state_after(start, signals, m), signals[m as int]);
    }
}

/// A run that says it is over has given its workspace up exactly as
/// often as it was checked out.
pub proof fn lemma_done_after_release(
    event: GitEvent,
    base: Scope,
    signals: Seq<Signal>,
    i: nat,
)
    requires
        step_at(initial(event, base), signals, i) is Done,
    ensures
        releases(initial(event, base), signals, i + 1) == acquisitions(
            initial(event, base),
            signals,
            i + 1,
        ),
{
    let start = initial(event, base);
    lemma_released_once(event, base, signals, i);
    lemma_released_once(event, base, signals, i + 1);
    lemma_step(state_after(start, signals, i), signals[i as int]);
}

/// The first failure ends the whole run. A run that has a failure on
/// record and waits for the workspace to be given up, or is over, asks
/// for nothing more to be run or sent: whatever it hears, it says that it
/// is over, with that failure.
pub proof fn lemma_failure_is_final(st: RunState, signal: Signal)
    requires
        well_formed(st),
        st.phase == Phase::Releasing || st.phase == Phase::Finished,
        st.failure is Some,
    ensures
        react(st, signal).1 == StepView::Done(st.failure),
        react(st, signal).0.failure == st.failure,
        react(st, signal).0.phase == Phase::Finished,
{
}

/// A command that does not end with the exit code zero, and a request
/// that is answered with a status of 400 or above or not at all, put
/// their failure on record and make the run give the workspace up: no
/// further command, action or pipeline is taken up.
pub proof fn lemma_fails_fast(st: RunState, signal: Signal)
    requires
        well_formed(st),
        ({
            ||| st.phase == Phase::Spawning && signal is Exited && signal->code != Some(0i32)
            ||| st.phase == Phase::Sending && signal is Answered && signal->status >= 400
            ||| st.phase == Phase::Sending && signal is NotAnswered
        }),
    ensures
        react(st, signal).0.phase == Phase::Releasing,
        react(st, signal).1 is Release,
        react(st, signal).0.failure == Some(
            match signal {
                Signal::Exited { code } => Failure::CommandFailed { code },
                Signal::Answered { status, body } => Failure::Http { status: Some(status), body },
                Signal::NotAnswered { detail } => Failure::Http { status: None, body: detail },
                _ => Failure::Protocol,
            },
        ),
{
}

/// From place `from` on, pipelines that the push does not set off are
/// passed over one by one, and the workspace is given up.
proof fn lemma_all_passed_over(st: RunState, from: int)
    requires
        forall|i: int|
            from <= i < st.pipelines.len() ==> decided(
                (#[trigger] st.pipelines[i])@.trigger,
                st.event,
            ) == Some(false),
    ensures
        next_pipeline(st, from) == released(st),
    decreases st.pipelines.len() - from,
{
    if !(from < 0 || from >= st.pipelines.len()) {
        assert(decided(st.pipelines[from]@.trigger, st.event) == Some(false));
        lemma_all_passed_over(st, from + 1);
    }
}

/// A push that sets off none of the pipelines runs nothing. When the
/// definitions are loaded and the push sets off none of them, the run
/// asks at once for the workspace to be given up, without opening an
/// output file and without taking up an action, and then says that it is
/// over without a failure of its own.
pub proof fn lemma_nothing_set_off(st: RunState, pipelines: Seq<Pipeline>, ok: bool)
    requires
        well_formed(st),
        st.phase == Phase::Loading,
        forall|i: int|
            0 <= i < pipelines.len() ==> decided((#[trigger] pipelines[i])@.trigger, st.event)
                == Some(false),
    ensures
        react(st, Signal::Loaded { pipelines }) == released(RunState { pipelines, ..st }),
        react(st, Signal::Loaded { pipelines }).1 == StepView::Release(release_ops(st.event)),
        react(st, Signal::Loaded { pipelines }).0.failure == st.failure,
        st.failure is None ==> react(
            react(st, Signal::Loaded { pipelines }).0,
            Signal::Released { ok: true },
        ).1 == StepView::Done(None),
{
    lemma_all_passed_over(RunState { pipelines, ..st }, 0);
}

/// The reports of a run in which everything goes well, over one pipeline
/// with one command to run: the start, the workspace checked out, the
/// pipeline `p` loaded, its output file opened at `path`, the environment
/// files read as `contents`, the command ended with the exit code zero,
/// and the workspace given up.
pub open spec fn smooth_reports(p: Pipeline, path: Seq<char>, contents: Seq<Option<Seq<char>>>) -> Seq<
    Signal,
> {
    seq![
        Signal::Start,
        Signal::Acquired { ok: true },
        Signal::Loaded { pipelines: seq![p] },
        Signal::ChannelOpened { path },
        Signal::EnvFilesRead { contents },
        Signal::Exited { code: Some(0i32) },
        Signal::Released { ok: true },
    ]
}

/// A push that sets off one pipeline with one shell action runs that
/// action once, between checking the workspace out and giving it up. Let
/// the push set off the pipeline `p`, whose one action is the shell
/// action `a`, and let everything go well. Then the run asks, in this
/// order and for nothing else: for the workspace of the push to be
/// checked out, for the definitions, for the output file of `p`, for the
/// environment files of `a`, for `sh -c` with the script of `a` to be
/// run in the workspace with the environment built from those files, for
/// the workspace to be given up, and it ends without failure. The
/// workspace is checked out once and given up once.
pub proof fn lemma_one_shell_action(
    event: GitEvent,
    base: Scope,
    p: Pipeline,
    a: ShellAction,
    path: Seq<char>,
    contents: Seq<Option<Seq<char>>>,
)
    requires
        decided(p@.trigger, event) == Some(true),
        p@.actions == seq![Action::Shell(a)],
        build_failure(
            inherited(a@.scope, with_output(inherited(p@.scope, base), path)),
            contents,
        ) is None,
    ensures
        ({
            let start = initial(event, base);
            let reports = smooth_reports(p, path, contents);
            let scope = inherited(a@.scope, with_output(inherited(p@.scope, base), path));
            &&& step_at(start, reports, 0) == StepView::Acquire(workspace_of(event))
            &&& step_at(start, reports, 1) == StepView::LoadPipelines { dir: pipeline_dir() }
            &&& step_at(start, reports, 2) == StepView::OpenChannel { pipeline: p@.name }
            &&& step_at(start, reports, 3) == StepView::ReadEnvFiles {
                title: title_of(a@.name),
                files: scope.env_file,
            }
            &&& step_at(start, reports, 4) == StepView::Spawn(
                shell_invocation(
                    with_shell(a@, "sh"@),
                    workspace_of(event).path,
                    environment(scope, contents),
                ),
            )
            &&& step_at(start, reports, 5) == StepView::Release(release_ops(event))
            &&& step_at(start, reports, 6) == StepView::Done(None)
            &&& acquisitions(start, reports, 7) == 1
            &&& releases(start, reports, 7) == 1
        }),
{
    let start = initial(event, base);
    let reports = smooth_reports(p, path, contents);
    let scope = inherited(a@.scope, with_output(inherited(p@.scope, base), path));
    let s0 = state_after(start, reports, 0);
    let s1 = state_after(start, reports, 1);
    let s2 = state_after(start, reports, 2);
    let s3 = state_after(start, reports, 3);
    let s4 = state_after(start, reports, 4);
    let s5 = state_after(start, reports, 5);
    let s6 = state_after(start, reports, 6);
    let s7 = state_after(start, reports, 7);
    assert(s0 == start);
    assert(s1 == react(s0, reports[0]).0);
    assert(s1.phase == Phase::CheckingOut);
    assert(s2 == react(s1, reports[1]).0);
    assert(s2.phase == Phase::Loading);
    assert(s3 == react(s2, reports[2]).0);
    let loaded = RunState { pipelines: seq![p], ..s2 };
    assert(loaded.pipelines[0] == p);
    assert(s3 == RunState { phase: Phase::Opening, pipeline_at: 0, ..loaded });
    assert(s4 == react(s3, reports[3]).0);
    let opened = RunState { scope: with_output(inherited(p@.scope, base), path), ..s3 };
    assert(opened.pipelines[opened.pipeline_at]@.actions.len() == 1);
    assert(s4 == RunState { phase: Phase::Preparing, action_at: 0, ..opened });
    assert(action_scope(s4) == scope);
    assert(s5 == react(s4, reports[4]).0);
    assert(s5.phase == Phase::Spawning);
    assert(s5.commands.len() == 1);
    assert(s6 == react(s5, reports[5]).0);
    lemma_all_passed_over(s5, 1);
    assert(s6.phase == Phase::Releasing);
    assert(s6.failure is None);
    assert(s7 == react(s6, reports[6]).0);
    assert(releases(start, reports, 0) == 0);
    assert(releases(start, reports, 1) == 0);
    assert(releases(start, reports, 2) == 0);
    assert(releases(start, reports, 3) == 0);
    assert(releases(start, reports, 4) == 0);
    assert(releases(start, reports, 5) == 0);
    assert(releases(start, reports, 6) == 1);
    assert(acquisitions(start, reports, 0) == 0);
    assert(acquisitions(start, reports, 1) == 0);
    assert(acquisitions(start, reports, 2) == 1);
    assert(acquisitions(start, reports, 3) == 1);
    assert(acquisitions(start, reports, 4) == 1);
    assert(acquisitions(start, reports, 5) == 1);
    assert(acquisitions(start, reports, 6) == 1);
}

} // verus!
