//! Scripts for remote hosts, run through the `ssh` client.
//!
//! The hosts are taken strictly one after the other. For each, the client
//! is asked to run `sh -s` on it, and that shell reads from its standard
//! input the environment as shell assignments, the script and an `exit`.

use vstd::prelude::*;
use vstd::string::StringExecFns;
use crate::actions::{command_views, title_line, ActionPlan, Command, IAction, Invocation, Plan};
use crate::envs::{Envs, Scope};
use crate::error::{Failure, RunError};
use crate::repo::optional_text;
use crate::text::{
    chars_of, find_char, first_index_of, join, joined, pair_views, string_of_range, views,
};
use crate::vars::{Pairs, Variables};

verus! {

/// A script that remote hosts run.
#[derive(Debug)]
pub struct SshAction {
    name: String,
    user: String,
    identity_file: Option<String>,
    hosts: Vec<String>,
    args: Vec<String>,
    script: String,
    envs: Envs,
}

/// An ssh action as contracts see it.
pub ghost struct SshView {
    pub name: Seq<char>,
    pub user: Seq<char>,
    pub identity_file: Option<Seq<char>>,
    pub hosts: Seq<Seq<char>>,
    pub args: Seq<Seq<char>>,
    pub script: Seq<char>,
    pub scope: Scope,
}

impl View for SshAction {
    type V = SshView;

    closed spec fn view(&self) -> SshView {
        SshView {
            name: self.name@,
            user: self.user@,
            identity_file: optional_text(self.identity_file),
            hosts: views(self.hosts@),
            args: views(self.args@),
            script: self.script@,
            scope: self.envs@,
        }
    }
}

/// The host of `host` or `host:port`: what stands before the first `:`.
pub open spec fn host_of(host_port: Seq<char>) -> Seq<char> {
    host_port.subrange(0, first_index_of(host_port, ':'))
}

/// The port of `host` or `host:port`: what follows the first `:`, and 22
/// where there is none.
pub open spec fn port_of(host_port: Seq<char>) -> Seq<char> {
    if host_port.contains(':') {
        host_port.subrange(first_index_of(host_port, ':') + 1, host_port.len() as int)
    } else {
        "22"@
    }
}

/// The shell assignment that gives `name` the value `value`.
pub open spec fn assignment(name: Seq<char>, value: Seq<char>) -> Seq<char> {
    name + "='"@ + value + "'"@
}

/// The assignments of the variables `env`, in order.
pub open spec fn assignments(env: Pairs) -> Seq<Seq<char>> {
    Seq::new(env.len(), |i: int| assignment(env[i].0, env[i].1))
}

/// The environment `env` as shell text: one assignment per line.
pub open spec fn env_script(env: Pairs) -> Seq<char> {
    joined(assignments(env), "\n"@)
}

/// The arguments of the `ssh` client for `host_port`: the identity file
/// if there is one, the action's own arguments, the port, the user at
/// the host, and the remote command.
pub open spec fn ssh_args(action: SshView, host_port: Seq<char>) -> Seq<Seq<char>> {
    let identity = match action.identity_file {
        Some(file) => seq!["-i"@, file],
        None => Seq::<Seq<char>>::empty(),
    };
    identity + action.args + seq![
        "-p"@,
        port_of(host_port),
        action.user + "@"@ + host_of(host_port),
        "sh -s"@,
    ]
}

/// What the remote shell reads: the environment, a line feed, the script
/// as it stands, and an `exit`.
pub open spec fn ssh_input(script: Seq<char>, env_sh: Seq<char>) -> Seq<char> {
    env_sh + "\n"@ + script + "exit\n"@
}

/// The process that runs the script of `action` on `host_port`.
pub open spec fn ssh_invocation(
    action: SshView,
    host_port: Seq<char>,
    env_sh: Seq<char>,
    workdir: Seq<char>,
) -> Invocation {
    Invocation {
        program: "ssh"@,
        args: ssh_args(action, host_port),
        env: Pairs::empty(),
        cwd: workdir,
        stdin: Some(ssh_input(action.script, env_sh)),
    }
}

/// The plan of an ssh action: one process for each host, in the order of
/// the hosts.
pub open spec fn ssh_plan(action: SshView, workdir: Seq<char>, env: Pairs) -> Result<Plan, Failure> {
    Ok(
        Plan::Commands(
            Seq::new(
                action.hosts.len(),
                |i: int| ssh_invocation(action, action.hosts[i], env_script(env), workdir),
            ),
        ),
    )
}

/// The environment `env` as shell text: one assignment per line.
pub fn env_lines(env: &Variables) -> (text: String)
    ensures
        text@ == env_script(env@),
{
    let mut lines: Vec<String> = Vec::new();
    let mut i: usize = 0;
    while i < env.len()
        invariant
            i <= env@.len(),
            lines.len() == i,
            forall|j: int| 0 <= j < i ==> lines@[j]@ == assignment(env@[j].0, env@[j].1),
        decreases env@.len() - i,
    {
        let mut line = env.key_at(i).clone();
        line.append("='");
        line.append(env.value_at(i).as_str());
        line.append("'");
        lines.push(line);
        i += 1;
    }
    assert(views(lines@) =~= assignments(env@));
    join(&lines, "\n")
}

impl SshAction {
    /// The action called `name` that runs `script` as `user` on each of
    /// `hosts`.
    pub fn new(
        name: String,
        user: String,
        identity_file: Option<String>,
        hosts: Vec<String>,
        args: Vec<String>,
        script: String,
        envs: Envs,
    ) -> (action: SshAction)
        ensures
            action@ == (SshView {
                name: name@,
                user: user@,
                identity_file: optional_text(identity_file),
                hosts: views(hosts@),
                args: views(args@),
                script: script@,
                scope: envs@,
            }),
    {
        SshAction { name, user, identity_file, hosts, args, script, envs }
    }

    /// The process that runs the script on `host_port`, where `env_sh` is
    /// the environment as shell text.
    pub fn run_on_host(&self, host_port: &str, env_sh: &str, workdir: &str) -> (command: Command)
        ensures
            command@ == ssh_invocation(self@, host_port@, env_sh@, workdir@),
    {
        let chars = chars_of(host_port);
        let (host, port) = match find_char(&chars, ':') {
            Some(i) => {
                assert(chars@[i as int] == ':');
                (string_of_range(&chars, 0, i), string_of_range(&chars, i + 1, chars.len()))
            },
            None => {
                assert(chars@.subrange(0, chars@.len() as int) =~= chars@);
                (host_port.to_owned(), "22".to_owned())
            },
        };
        let mut user_host = self.user.clone();
        user_host.append("@");
        user_host.append(host.as_str());
        let mut args: Vec<String> = Vec::new();
        match &self.identity_file {
            Some(file) => {
                args.push("-i".to_owned());
                args.push(file.clone());
                assert(views(args@) =~= seq!["-i"@, file@]);
            },
            None => {
                assert(views(args@) =~= Seq::<Seq<char>>::empty());
            },
        }
        let ghost identity = views(args@);
        let mut i: usize = 0;
        assert(views(self.args@).take(0) =~= Seq::<Seq<char>>::empty());
        assert(identity + Seq::<Seq<char>>::empty() =~= identity);
        while i < self.args.len()
            invariant
                i <= self.args.len(),
                views(args@) == identity + views(self.args@).take(i as int),
            decreases self.args.len() - i,
        {
            let ghost before = views(args@);
            args.push(self.args[i].clone());
            assert(views(args@) =~= before.push(self.args@[i as int]@));
            assert(views(self.args@).take(i + 1) =~= views(self.args@).take(i as int).push(
                self.args@[i as int]@,
            ));
            assert(views(args@) =~= identity + views(self.args@).take(i + 1));
            i += 1;
        }
        assert(views(self.args@).take(i as int) =~= views(self.args@));
        let ghost before = views(args@);
        args.push("-p".to_owned());
        args.push(port);
        args.push(user_host);
        args.push("sh -s".to_owned());
        assert(views(args@) =~= before + seq![
            "-p"@,
            port_of(host_port@),
            self@.user + "@"@ + host_of(host_port@),
            "sh -s"@,
        ]);
        let mut input = env_sh.to_owned();
        input.append("\n");
        input.append(self.script.as_str());
        input.append("exit\n");
        let env: Vec<(String, String)> = Vec::new();
        assert(pair_views(env@) =~= Pairs::empty());
        Command { program: "ssh".to_owned(), args, env, cwd: workdir.to_owned(), stdin: Some(input) }
    }
}

impl IAction for SshAction {
    open spec fn label(&self) -> Seq<char> {
        self@.name
    }

    open spec fn fragment(&self) -> Scope {
        self@.scope
    }

    open spec fn planned(&self, workdir: Seq<char>, env: Pairs) -> Result<Plan, Failure> {
        ssh_plan(self@, workdir, env)
    }

    fn title(&self) -> (line: String) {
        title_line(self.name.as_str())
    }

    fn scope(&self, parent: &Envs) -> (envs: Envs) {
        self.envs.inherit(parent)
    }

    fn run(&self, workdir: &str, env: &Variables) -> (plan: Result<ActionPlan, RunError>) {
        let env_sh = env_lines(env);
        let mut commands: Vec<Command> = Vec::new();
        let mut i: usize = 0;
        while i < self.hosts.len()
            invariant
                i <= self.hosts.len(),
                commands.len() == i,
                env_sh@ == env_script(env@),
                forall|j: int|
                    0 <= j < i ==> commands@[j]@ == ssh_invocation(
                        self@,
                        self@.hosts[j],
                        env_sh@,
                        workdir@,
                    ),
            decreases self.hosts.len() - i,
        {
            assert(self@.hosts[i as int] == self.hosts@[i as int]@);
            let command = self.run_on_host(self.hosts[i].as_str(), env_sh.as_str(), workdir);
            commands.push(command);
            i += 1;
        }
        assert(command_views(commands@) =~= Seq::new(
            self@.hosts.len(),
            |i: int| ssh_invocation(self@, self@.hosts[i], env_script(env@), workdir@),
        ));
        Ok(ActionPlan::Commands(commands))
    }
}

} // verus!
