//! Scripts for a local shell.

use vstd::prelude::*;
use crate::actions::{title_line, ActionPlan, Command, IAction, Invocation, Plan};
use crate::envs::{Envs, Scope};
use crate::error::{Failure, RunError};
use crate::text::views;
use crate::vars::{Pairs, Variables};

verus! {

/// A script that a local shell runs.
#[derive(Debug)]
pub struct ShellAction {
    name: String,
    script: String,
    shell: String,
    envs: Envs,
}

/// A shell action as contracts see it.
pub ghost struct ShellView {
    pub name: Seq<char>,
    pub script: Seq<char>,
    pub shell: Seq<char>,
    pub scope: Scope,
}

impl View for ShellAction {
    type V = ShellView;

    closed spec fn view(&self) -> ShellView {
        ShellView {
            name: self.name@,
            script: self.script@,
            shell: self.shell@,
            scope: self.envs@,
        }
    }
}

/// The process that runs the script of `action`: its shell with `-c` and
/// the script, in the directory `workdir`, with `env` put over the
/// environment of the run.
pub open spec fn shell_invocation(action: ShellView, workdir: Seq<char>, env: Pairs) -> Invocation {
    Invocation {
        program: action.shell,
        args: seq!["-c"@, action.script],
        env,
        cwd: workdir,
        stdin: None,
    }
}

/// The plan of a shell action: its one process.
pub open spec fn shell_plan(action: ShellView, workdir: Seq<char>, env: Pairs) -> Result<
    Plan,
    Failure,
> {
    Ok(Plan::Commands(seq![shell_invocation(action, workdir, env)]))
}

impl ShellAction {
    /// The action called `name` that runs `script`, with the environment
    /// fragment `envs`. Its shell is not set yet.
    pub fn new(name: String, script: String, envs: Envs) -> (action: ShellAction)
        ensures
            action@ == (ShellView {
                name: name@,
                script: script@,
                shell: Seq::empty(),
                scope: envs@,
            }),
    {
        ShellAction { name, script, shell: String::new(), envs }
    }

    /// This action with `name` as its shell.
    pub fn set_shell(&self, name: String) -> (action: ShellAction)
        ensures
            action@ == (ShellView { shell: name@, ..self@ }),
    {
        ShellAction {
            name: self.name.clone(),
            script: self.script.clone(),
            shell: name,
            envs: self.envs.duplicate(),
        }
    }
}

impl IAction for ShellAction {
    open spec fn label(&self) -> Seq<char> {
        self@.name
    }

    open spec fn fragment(&self) -> Scope {
        self@.scope
    }

    open spec fn planned(&self, workdir: Seq<char>, env: Pairs) -> Result<Plan, Failure> {
        shell_plan(self@, workdir, env)
    }

    fn title(&self) -> (line: String) {
        title_line(self.name.as_str())
    }

    fn scope(&self, parent: &Envs) -> (envs: Envs) {
        self.envs.inherit(parent)
    }

    fn run(&self, workdir: &str, env: &Variables) -> (plan: Result<ActionPlan, RunError>) {
        let mut args: Vec<String> = Vec::new();
        args.push("-c".to_owned());
        args.push(self.script.clone());
        assert(views(args@) =~= seq!["-c"@, self.script@]);
        let command = Command {
            program: self.shell.clone(),
            args,
            env: env.to_pairs(),
            cwd: workdir.to_owned(),
            stdin: None,
        };
        let mut commands: Vec<Command> = Vec::new();
        commands.push(command);
        assert(crate::actions::command_views(commands@) =~= seq![
            shell_invocation(self@, workdir@, env@),
        ]);
        Ok(ActionPlan::Commands(commands))
    }
}

} // verus!
