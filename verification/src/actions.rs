//! Actions: the steps of a pipeline.
//!
//! An action does not act by itself. From the environment it is given it
//! works out a plan, which says exactly what is to be run or sent, and the
//! driver of the run carries the plan out and reports how it went.

pub mod shell;
pub mod ssh;
pub mod webhook;

use vstd::prelude::*;
use vstd::string::StringExecFns;
use crate::actions::shell::{shell_plan, ShellAction, ShellView};
use crate::actions::ssh::{ssh_plan, SshAction};
use crate::actions::webhook::{webhook_plan, WebHookAction};
use crate::envs::{Envs, Scope};
use crate::error::{Failure, RunError};
use crate::repo::optional_text;
use crate::text::{pair_views, views};
use crate::vars::{Pairs, Variables};

verus! {

/// A process to run: the program, its arguments, the variables to put
/// over the environment it inherits, the directory to run it in, and what
/// to write to its standard input, if anything.
#[derive(Debug)]
pub struct Command {
    pub program: String,
    pub args: Vec<String>,
    pub env: Vec<(String, String)>,
    pub cwd: String,
    pub stdin: Option<String>,
}

/// A process to run, as contracts see it.
pub ghost struct Invocation {
    pub program: Seq<char>,
    pub args: Seq<Seq<char>>,
    pub env: Pairs,
    pub cwd: Seq<char>,
    pub stdin: Option<Seq<char>>,
}

impl View for Command {
    type V = Invocation;

    open spec fn view(&self) -> Invocation {
        Invocation {
            program: self.program@,
            args: views(self.args@),
            env: pair_views(self.env@),
            cwd: self.cwd@,
            stdin: optional_text(self.stdin),
        }
    }
}

/// A copy of `pairs`.
pub fn copy_pairs(pairs: &Vec<(String, String)>) -> (copy: Vec<(String, String)>)
    ensures
        pair_views(copy@) == pair_views(pairs@),
{
    let mut copy: Vec<(String, String)> = Vec::new();
    let mut i: usize = 0;
    while i < pairs.len()
        invariant
            i <= pairs.len(),
            copy.len() == i,
            forall|j: int|
                0 <= j < i ==> copy@[j].0@ == pairs@[j].0@ && copy@[j].1@ == pairs@[j].1@,
        decreases pairs.len() - i,
    {
        copy.push((pairs[i].0.clone(), pairs[i].1.clone()));
        i += 1;
    }
    assert(pair_views(copy@) =~= pair_views(pairs@));
    copy
}

impl Command {
    /// A copy of the command.
    pub fn duplicate(&self) -> (copy: Command)
        ensures
            copy@ == self@,
    {
        Command {
            program: self.program.clone(),
            args: crate::envs::copy_strings(&self.args),
            env: copy_pairs(&self.env),
            cwd: self.cwd.clone(),
            stdin: match &self.stdin {
                Some(text) => Some(text.clone()),
                None => None,
            },
        }
    }
}

/// A request to send: the headers are set in order, and the request is
/// given up when no answer has come after `timeout_millis` milliseconds.
#[derive(Debug)]
pub struct HttpRequest {
    pub method: String,
    pub url: String,
    pub headers: Vec<(String, String)>,
    pub timeout_millis: u64,
    pub body: Option<String>,
}

/// A request to send, as contracts see it.
pub ghost struct Request {
    pub method: Seq<char>,
    pub url: Seq<char>,
    pub headers: Pairs,
    pub timeout_millis: u64,
    pub body: Option<Seq<char>>,
}

impl View for HttpRequest {
    type V = Request;

    open spec fn view(&self) -> Request {
        Request {
            method: self.method@,
            url: self.url@,
            headers: pair_views(self.headers@),
            timeout_millis: self.timeout_millis,
            body: optional_text(self.body),
        }
    }
}

/// What an action asks the driver to do: to run the commands one after
/// the other and to stop at the first that fails, or to send one request.
#[derive(Debug)]
pub enum ActionPlan {
    Commands(Vec<Command>),
    Http(HttpRequest),
}

/// A plan as contracts see it.
pub ghost enum Plan {
    Commands(Seq<Invocation>),
    Http(Request),
}

/// The views of a list of commands.
pub open spec fn command_views(commands: Seq<Command>) -> Seq<Invocation> {
    Seq::new(commands.len(), |i: int| commands[i]@)
}

impl View for ActionPlan {
    type V = Plan;

    open spec fn view(&self) -> Plan {
        match *self {
            ActionPlan::Commands(commands) => Plan::Commands(command_views(commands@)),
            ActionPlan::Http(request) => Plan::Http(request@),
        }
    }
}

/// The view of a planning result.
pub open spec fn plan_view(plan: Result<ActionPlan, RunError>) -> Result<Plan, Failure> {
    match plan {
        Ok(plan) => Ok(plan@),
        Err(e) => Err(e@),
    }
}

/// The line that announces an action by its name.
pub open spec fn title_of(name: Seq<char>) -> Seq<char> {
    "### "@ + name
}

/// The line that announces an action by its name.
pub fn title_line(name: &str) -> (line: String)
    ensures
        line@ == title_of(name@),
{
    let mut line = "### ".to_owned();
    line.append(name);
    line
}

/// What every kind of action offers to the run.
pub trait IAction {
    /// The name of the action.
    spec fn label(&self) -> Seq<char>;

    /// The environment fragment of the action itself.
    spec fn fragment(&self) -> Scope;

    /// What the action asks for when it runs in the directory `workdir`
    /// with the environment `env`.
    spec fn planned(&self, workdir: Seq<char>, env: Pairs) -> Result<Plan, Failure>;

    /// The line that announces the action.
    fn title(&self) -> (line: String)
        ensures
            line@ == title_of(self.label()),
    ;

    /// The scope of the action below the scope `parent` that it inherits:
    /// the action's own fragment wins.
    fn scope(&self, parent: &Envs) -> (envs: Envs)
        ensures
            envs@ == crate::envs::inherited(self.fragment(), parent@),
    ;

    /// Plans the action for the directory `workdir` and the environment
    /// `env`, which was built from the action's scope.
    fn run(&self, workdir: &str, env: &Variables) -> (plan: Result<ActionPlan, RunError>)
        ensures
            plan_view(plan) == self.planned(workdir@, env@),
    ;
}

/// One step of a pipeline.
#[derive(Debug)]
pub enum Action {
    /// A script for `sh`.
    Shell(ShellAction),
    /// A script for `bash`.
    Bash(ShellAction),
    /// A request to send.
    WebHook(WebHookAction),
    /// A script for remote hosts.
    Ssh(SshAction),
}

/// The shell action `action` with `shell` as its shell.
pub open spec fn with_shell(action: ShellView, shell: Seq<char>) -> ShellView {
    ShellView { shell, ..action }
}

impl IAction for Action {
    open spec fn label(&self) -> Seq<char> {
        match *self {
            Action::Shell(action) => action@.name,
            Action::Bash(action) => action@.name,
            Action::WebHook(action) => action@.name,
            Action::Ssh(action) => action@.name,
        }
    }

    open spec fn fragment(&self) -> Scope {
        match *self {
            Action::Shell(action) => action@.scope,
            Action::Bash(action) => action@.scope,
            Action::WebHook(action) => action@.scope,
            Action::Ssh(action) => action@.scope,
        }
    }

    open spec fn planned(&self, workdir: Seq<char>, env: Pairs) -> Result<Plan, Failure> {
        match *self {
            Action::Shell(action) => shell_plan(with_shell(action@, "sh"@), workdir, env),
            Action::Bash(action) => shell_plan(with_shell(action@, "bash"@), workdir, env),
            Action::WebHook(action) => webhook_plan(action@, env),
            Action::Ssh(action) => ssh_plan(action@, workdir, env),
        }
    }

    fn title(&self) -> (line: String) {
        match self {
            Action::Shell(action) => action.title(),
            Action::Bash(action) => action.title(),
            Action::WebHook(action) => action.title(),
            Action::Ssh(action) => action.title(),
        }
    }

    fn scope(&self, parent: &Envs) -> (envs: Envs) {
        match self {
            Action::Shell(action) => action.scope(parent),
            Action::Bash(action) => action.scope(parent),
            Action::WebHook(action) => action.scope(parent),
            Action::Ssh(action) => action.scope(parent),
        }
    }

    fn run(&self, workdir: &str, env: &Variables) -> (plan: Result<ActionPlan, RunError>) {
        match self {
            Action::Ssh(action) => action.run(workdir, env),
            Action::Shell(action) => {
                let action = action.set_shell("sh".to_owned());
                action.run(workdir, env)
            },
            Action::Bash(action) => {
                let action = action.set_shell("bash".to_owned());
                action.run(workdir, env)
            },
            Action::WebHook(action) => action.run(workdir, env),
        }
    }
}

/// How a command that came to its end went: an exit code of zero is
/// success, any other code a failure that carries it, and so is no code
/// at all, as of a process that a signal ended.
pub fn command_outcome(code: Option<i32>) -> (outcome: Result<(), RunError>)
    ensures
        match outcome {
            Ok(_) => code == Some(0i32),
            Err(e) => code != Some(0i32) && e@ == (Failure::CommandFailed { code }),
        },
{
    match code {
        Some(0) => Ok(()),
        _ => Err(RunError::CommandFailed { code }),
    }
}

} // verus!
