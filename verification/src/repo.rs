//! The push event and the repository it came from.

use vstd::prelude::*;
use vstd::string::StringExecFns;
use crate::envs::{copy_strings, empty_scope, Envs};
use crate::error::{Failure, RunError};
use crate::text::{
    chars_of, fields, is_last_index_of, last_index_of, lines, rfind_char, same_text, split,
    split_fields, split_lines, split_on, string_of_range, views,
};

verus! {

/// The three fields of the line that a hook reads from its standard input.
#[derive(Debug)]
pub struct HookInput {
    pub old_rev: String,
    pub new_rev: String,
    pub refname: String,
}

/// Reads the hook's input line: the old revision, the new revision and the
/// ref name, separated by white space. Further fields are ignored. A line
/// with fewer than three fields is refused.
pub fn parse_hook_input(line: &str) -> (parsed: Result<HookInput, RunError>)
    ensures
        match parsed {
            Ok(input) => {
                &&& fields(line@).len() >= 3
                &&& input.old_rev@ == fields(line@)[0]
                &&& input.new_rev@ == fields(line@)[1]
                &&& input.refname@ == fields(line@)[2]
            },
            Err(e) => fields(line@).len() < 3 && e@ == (Failure::Input { given: line@ }),
        },
{
    let parts = split_fields(line);
    if parts.len() < 3 {
        return Err(RunError::Input { given: line.to_owned() });
    }
    assert(views(parts@)[0] == parts@[0]@);
    assert(views(parts@)[1] == parts@[1]@);
    assert(views(parts@)[2] == parts@[2]@);
    Ok(
        HookInput {
            old_rev: parts[0].clone(),
            new_rev: parts[1].clone(),
            refname: parts[2].clone(),
        },
    )
}

/// The branch that a ref name names: what follows its last `/`. A ref name
/// without `/` names none.
pub open spec fn branch_of(refname: Seq<char>) -> Option<Seq<char>> {
    if refname.contains('/') {
        Some(refname.subrange(last_index_of(refname, '/') + 1, refname.len() as int))
    } else {
        None
    }
}

/// The name of a path component without its extension: what stands before
/// the last `.`, unless that `.` is the first character or there is none.
pub open spec fn stem(name: Seq<char>) -> Seq<char> {
    if last_index_of(name, '.') > 0 {
        name.subrange(0, last_index_of(name, '.'))
    } else {
        name
    }
}

/// The name for a repository whose path gives none.
pub open spec fn unnamed_repo() -> Seq<char> {
    "Unamed-repo"@
}

/// The repository name that the components `parts` of a path give, read
/// from the last one upwards. Empty components and `.` do not count. A
/// component whose stem is `.git` is passed over, so that both
/// `name/.git` and a bare `name.git` give `name`. The first other
/// component decides: its stem is the name, unless it is `..`, which like
/// a path without any such component gives no name.
pub open spec fn name_from(parts: Seq<Seq<char>>) -> Seq<char>
    decreases parts.len(),
{
    if parts.len() == 0 {
        unnamed_repo()
    } else {
        let last = parts.last();
        if last.len() == 0 || last == "."@ {
            name_from(parts.drop_last())
        } else if last == ".."@ {
            unnamed_repo()
        } else if stem(last) == ".git"@ {
            name_from(parts.drop_last())
        } else {
            stem(last)
        }
    }
}

/// The repository name that the path of a repository directory gives.
pub open spec fn repo_name_of(repo_dir: Seq<char>) -> Seq<char> {
    name_from(split(repo_dir, '/'))
}

/// Whether `rev` names no commit: it is empty or made of zeros only, as
/// the revision on the missing side of a branch creation or deletion is.
pub open spec fn is_null_rev(rev: Seq<char>) -> bool {
    forall|i: int| 0 <= i < rev.len() ==> rev[i] == '0'
}

/// The command that lists the files changed between two revisions.
pub open spec fn diff_command_text(old_rev: Seq<char>, new_rev: Seq<char>) -> Seq<char> {
    "git diff --name-only "@ + old_rev + ".."@ + new_rev
}

/// The name of a path component without its extension.
pub fn stem_of(name: &str) -> (text: String)
    ensures
        text@ == stem(name@),
{
    let chars = chars_of(name);
    match rfind_char(&chars, '.') {
        Some(i) => {
            if i > 0 {
                string_of_range(&chars, 0, i)
            } else {
                name.to_owned()
            }
        },
        None => name.to_owned(),
    }
}

/// Whether `rev` names no commit.
pub fn is_null_revision(rev: &str) -> (null: bool)
    ensures
        null == is_null_rev(rev@),
{
    let chars = chars_of(rev);
    let mut i: usize = 0;
    while i < chars.len()
        invariant
            i <= chars.len(),
            chars@ == rev@,
            forall|j: int| 0 <= j < i ==> rev@[j] == '0',
        decreases chars.len() - i,
    {
        if chars[i] != '0' {
            return false;
        }
        i += 1;
    }
    true
}

/// The command that lists the files changed between two revisions.
pub fn diff_command(old_rev: &str, new_rev: &str) -> (command: String)
    ensures
        command@ == diff_command_text(old_rev@, new_rev@),
{
    let mut command = "git diff --name-only ".to_owned();
    command.append(old_rev);
    command.append("..");
    command.append(new_rev);
    command
}

/// What the hook process found out about its surroundings before the
/// event is resolved.
#[derive(Debug)]
pub struct HookProbe {
    /// The absolute path of the repository directory, where the process
    /// environment names one.
    pub git_dir: Option<String>,
    /// The output of the diff command, where it was run and succeeded.
    pub diff_output: Option<String>,
    /// Whether git can create worktrees here.
    pub worktree_capable: bool,
}

/// A push event: the ref that moved, the revisions it moved between, and
/// what was derived from them.
#[derive(Debug)]
pub struct Context {
    /// The ref name, as in `refs/heads/master`.
    pub refname: String,
    /// The revision the ref pointed to before the push.
    pub old_rev: String,
    /// The revision the ref points to now.
    pub new_rev: String,
    /// The branch that the ref names.
    pub branch: String,
    /// The absolute path of the repository directory.
    pub repo_dir: String,
    /// The name of the repository.
    pub repo_name: String,
    /// The directory below which workspaces are checked out.
    pub workspace: String,
    /// Whether git can create worktrees here.
    pub cap_worktree: bool,
    /// The files changed between the two revisions, where they are known.
    pub fileset: Option<Vec<String>>,
}

/// A push event as contracts see it.
pub ghost struct GitEvent {
    pub refname: Seq<char>,
    pub old_rev: Seq<char>,
    pub new_rev: Seq<char>,
    pub branch: Seq<char>,
    pub repo_dir: Seq<char>,
    pub repo_name: Seq<char>,
    pub workspace: Seq<char>,
    pub cap_worktree: bool,
    pub fileset: Option<Seq<Seq<char>>>,
}

/// The views of an optional list of strings.
pub open spec fn optional_views(list: Option<Vec<String>>) -> Option<Seq<Seq<char>>> {
    match list {
        Some(list) => Some(views(list@)),
        None => None,
    }
}

/// The view of an optional string.
pub open spec fn optional_text(text: Option<String>) -> Option<Seq<char>> {
    match text {
        Some(text) => Some(text@),
        None => None,
    }
}

impl View for Context {
    type V = GitEvent;

    open spec fn view(&self) -> GitEvent {
        GitEvent {
            refname: self.refname@,
            old_rev: self.old_rev@,
            new_rev: self.new_rev@,
            branch: self.branch@,
            repo_dir: self.repo_dir@,
            repo_name: self.repo_name@,
            workspace: self.workspace@,
            cap_worktree: self.cap_worktree,
            fileset: optional_views(self.fileset),
        }
    }
}

/// The directory below which workspaces are checked out.
pub open spec fn workspace_root() -> Seq<char> {
    "/tmp/arrow-workspace"@
}

/// The event that a push resolves to, or the reason why it resolves to
/// none. A missing repository directory is reported first, then a ref
/// name without branch, then a failed diff.
///
/// Where one of the revisions names no commit, as on the creation or the
/// deletion of a branch, no diff is asked for and the changed files are
/// unknown.
pub open spec fn resolved(
    refname: Seq<char>,
    old_rev: Seq<char>,
    new_rev: Seq<char>,
    git_dir: Option<Seq<char>>,
    diff_output: Option<Seq<char>>,
    worktree_capable: bool,
) -> Result<GitEvent, Failure> {
    let no_diff = is_null_rev(old_rev) || is_null_rev(new_rev);
    if git_dir is None {
        Err(Failure::Environment)
    } else if branch_of(refname) is None {
        Err(Failure::Resolution { refname })
    } else if !no_diff && diff_output is None {
        Err(Failure::Diff { command: diff_command_text(old_rev, new_rev) })
    } else {
        Ok(
            GitEvent {
                refname,
                old_rev,
                new_rev,
                branch: branch_of(refname)->0,
                repo_dir: git_dir->0,
                repo_name: repo_name_of(git_dir->0),
                workspace: workspace_root(),
                cap_worktree: worktree_capable,
                fileset: if no_diff {
                    None
                } else {
                    Some(lines(diff_output->0))
                },
            },
        )
    }
}

/// `base` with the component `name` added, as a path is extended: a `name`
/// that starts with `/` stands for itself, and a `/` is put between the
/// two unless `base` is empty or ends with one.
pub open spec fn joined_path(base: Seq<char>, name: Seq<char>) -> Seq<char> {
    if name.len() > 0 && name[0] == '/' {
        name
    } else if base.len() == 0 || base.last() == '/' {
        base + name
    } else {
        base + seq!['/'] + name
    }
}

/// Extends the path `base` by the component `name`.
pub fn join_path(base: &str, name: &str) -> (path: String)
    ensures
        path@ == joined_path(base@, name@),
{
    let head = chars_of(name);
    if head.len() > 0 && head[0] == '/' {
        return name.to_owned();
    }
    let tail = chars_of(base);
    let mut path = base.to_owned();
    if tail.len() > 0 && tail[tail.len() - 1] != '/' {
        path.push('/');
    }
    path.append(name);
    path
}

/// How a workspace is made.
#[derive(Clone, Copy, PartialEq, Eq, Debug, Structural)]
pub enum WorkspaceMode {
    /// A worktree of the repository, of its own for each branch.
    Worktree,
    /// A clone of the repository, shared by all branches.
    Clone,
}

/// One step of checking out or removing a workspace.
#[derive(Debug)]
pub enum WorkspaceStep {
    /// Create the directory `path` and its missing parents.
    CreateDir { path: String },
    /// Run `script` with `sh -ex -c` in the directory `cwd`, with the
    /// variable `GIT_DIR` taken out of its environment unless
    /// `keep_git_dir` is set. An exit code other than zero fails the step.
    Script { cwd: String, script: String, keep_git_dir: bool },
    /// Make `path` the working directory of the process.
    ChangeDir { path: String },
}

/// A step as contracts see it.
pub ghost enum WorkspaceOp {
    CreateDir { path: Seq<char> },
    Script { cwd: Seq<char>, script: Seq<char>, keep_git_dir: bool },
    ChangeDir { path: Seq<char> },
}

impl View for WorkspaceStep {
    type V = WorkspaceOp;

    open spec fn view(&self) -> WorkspaceOp {
        match *self {
            WorkspaceStep::CreateDir { path } => WorkspaceOp::CreateDir { path: path@ },
            WorkspaceStep::Script { cwd, script, keep_git_dir } => WorkspaceOp::Script {
                cwd: cwd@,
                script: script@,
                keep_git_dir,
            },
            WorkspaceStep::ChangeDir { path } => WorkspaceOp::ChangeDir { path: path@ },
        }
    }
}

/// The views of a list of steps.
pub open spec fn step_views(steps: Seq<WorkspaceStep>) -> Seq<WorkspaceOp> {
    Seq::new(steps.len(), |i: int| steps[i]@)
}

/// A checkout of one branch, owned by one run: where it is, how it is
/// made, and the steps that make and remove it. The steps of either list
/// are taken in order, and the first that fails ends the list.
#[derive(Debug)]
pub struct Worktree {
    pub path: String,
    pub branch: String,
    pub mode: WorkspaceMode,
    pub acquire: Vec<WorkspaceStep>,
    pub release: Vec<WorkspaceStep>,
}

/// A checkout as contracts see it.
pub ghost struct Workspace {
    pub path: Seq<char>,
    pub branch: Seq<char>,
    pub mode: WorkspaceMode,
    pub acquire: Seq<WorkspaceOp>,
    pub release: Seq<WorkspaceOp>,
}

impl View for Worktree {
    type V = Workspace;

    open spec fn view(&self) -> Workspace {
        Workspace {
            path: self.path@,
            branch: self.branch@,
            mode: self.mode,
            acquire: step_views(self.acquire@),
            release: step_views(self.release@),
        }
    }
}

/// The directory of the worktree of `branch`: the repository's name, a
/// hyphen and the branch, below the workspace root.
pub open spec fn worktree_dir(event: GitEvent, branch: Seq<char>) -> Seq<char> {
    joined_path(event.workspace, event.repo_name + "-"@ + branch)
}

/// The directory of the clone: the repository's name below the workspace
/// root. It does not hold the branch, so runs on two branches of one
/// repository share it and must not overlap.
pub open spec fn clone_dir(event: GitEvent) -> Seq<char> {
    joined_path(event.workspace, event.repo_name)
}

/// The script that adds a worktree of `branch` at `workdir`.
pub open spec fn worktree_add_script(workdir: Seq<char>, branch: Seq<char>) -> Seq<char> {
    "git worktree add "@ + workdir + " "@ + branch
}

/// The script that removes the worktree at `workdir`, whatever its state.
pub open spec fn worktree_remove_script(workdir: Seq<char>) -> Seq<char> {
    "git worktree remove --force "@ + workdir
}

/// The script that brings the clone in the current directory to
/// `new_rev` on `branch`: it clones `origin` if no clone is there yet,
/// then fetches the branch, checks it out, resets it hard to the revision
/// and removes what does not belong to it.
pub open spec fn clone_script(origin: Seq<char>, branch: Seq<char>, new_rev: Seq<char>) -> Seq<
    char,
> {
    "if [ ! -d .git ]; then git clone "@ + origin + " .; fi\ngit fetch origin "@ + branch
        + "\ngit checkout "@ + branch + "\ngit reset --hard "@ + new_rev + "\ngit clean -fdx\n"@
}

/// The steps that check out the workspace of `event`.
pub open spec fn acquire_ops(event: GitEvent) -> Seq<WorkspaceOp> {
    if event.cap_worktree {
        seq![
            WorkspaceOp::Script {
                cwd: event.repo_dir,
                script: worktree_add_script(worktree_dir(event, event.branch), event.branch),
                keep_git_dir: true,
            },
            WorkspaceOp::ChangeDir { path: worktree_dir(event, event.branch) },
        ]
    } else {
        seq![
            WorkspaceOp::CreateDir { path: clone_dir(event) },
            WorkspaceOp::Script {
                cwd: clone_dir(event),
                script: clone_script(event.repo_dir, event.branch, event.new_rev),
                keep_git_dir: false,
            },
            WorkspaceOp::ChangeDir { path: clone_dir(event) },
        ]
    }
}

/// The steps that give the workspace of `event` up again: back to the
/// repository directory, and the worktree removed. A clone stays where it
/// is, for the next run.
pub open spec fn release_ops(event: GitEvent) -> Seq<WorkspaceOp> {
    if event.cap_worktree {
        seq![
            WorkspaceOp::ChangeDir { path: event.repo_dir },
            WorkspaceOp::Script {
                cwd: event.repo_dir,
                script: worktree_remove_script(worktree_dir(event, event.branch)),
                keep_git_dir: true,
            },
        ]
    } else {
        seq![WorkspaceOp::ChangeDir { path: event.repo_dir }]
    }
}

/// The workspace of `event`.
pub open spec fn workspace_of(event: GitEvent) -> Workspace {
    Workspace {
        path: if event.cap_worktree {
            worktree_dir(event, event.branch)
        } else {
            clone_dir(event)
        },
        branch: event.branch,
        mode: if event.cap_worktree {
            WorkspaceMode::Worktree
        } else {
            WorkspaceMode::Clone
        },
        acquire: acquire_ops(event),
        release: release_ops(event),
    }
}

impl Context {
    /// The branch that `refname` names: what follows its last `/`.
    pub fn resolve_branch(refname: &str) -> (branch: Result<String, RunError>)
        ensures
            match branch {
                Ok(name) => exists|i: int|
                    {
                        &&& #[trigger] is_last_index_of(refname@, '/', i)
                        &&& name@ == refname@.subrange(i + 1, refname@.len() as int)
                    },
                Err(e) => !refname@.contains('/') && e@ == (Failure::Resolution { refname: refname@ }),
            },
            match branch {
                Ok(name) => branch_of(refname@) == Some(name@),
                Err(_) => branch_of(refname@) is None,
            },
    {
        let chars = chars_of(refname);
        match rfind_char(&chars, '/') {
            Some(i) => {
                assert(chars@.contains('/'));
                assert(i < chars.len());
                Ok(string_of_range(&chars, i + 1, chars.len()))
            },
            None => Err(RunError::Resolution { refname: refname.to_owned() }),
        }
    }

    /// The repository name that the path `repodir` gives.
    pub fn resolve_reponame(repodir: &str) -> (name: String)
        ensures
            name@ == repo_name_of(repodir@),
    {
        let parts = split_on(repodir, '/');
        let mut n: usize = parts.len();
        assert(views(parts@).take(n as int) =~= views(parts@));
        while n > 0
            invariant
                n <= parts.len(),
                views(parts@) == split(repodir@, '/'),
                name_from(views(parts@).take(n as int)) == repo_name_of(repodir@),
            decreases n,
        {
            let ghost upto = views(parts@).take(n as int);
            assert(upto.last() == parts@[n - 1]@);
            assert(upto.drop_last() =~= views(parts@).take(n - 1));
            let part = parts[n - 1].as_str();
            n -= 1;
            proof {
                reveal_strlit("");
                if part@.len() == 0 {
                    assert(part@ =~= ""@);
                }
            }
            if same_text(part, "") || same_text(part, ".") {
                continue ;
            }
            if same_text(part, "..") {
                return "Unamed-repo".to_owned();
            }
            let name = stem_of(part);
            if same_text(name.as_str(), ".git") {
                continue ;
            }
            return name;
        }
        "Unamed-repo".to_owned()
    }

    /// The changed files that the output of the diff command lists: one path
    /// per line.
    pub fn resolve_fileset(diff_output: &str) -> (files: Vec<String>)
        ensures
            views(files@) == lines(diff_output@),
    {
        split_lines(diff_output)
    }

    /// Resolves the event of a push from the hook's input and from what
    /// the hook process found out about its surroundings.
    pub fn resolve_on_hook(refname: String, old_rev: String, new_rev: String, probe: HookProbe) -> (event:
        Result<Context, RunError>)
        ensures
            match event {
                Ok(ctx) => resolved(
                    refname@,
                    old_rev@,
                    new_rev@,
                    optional_text(probe.git_dir),
                    optional_text(probe.diff_output),
                    probe.worktree_capable,
                ) == Ok::<GitEvent, Failure>(ctx@),
                Err(e) => resolved(
                    refname@,
                    old_rev@,
                    new_rev@,
                    optional_text(probe.git_dir),
                    optional_text(probe.diff_output),
                    probe.worktree_capable,
                ) == Err::<GitEvent, Failure>(e@),
            },
    {
        let repo_dir = match probe.git_dir {
            Some(dir) => dir,
            None => {
                return Err(RunError::Environment);
            },
        };
        let branch = match Context::resolve_branch(refname.as_str()) {
            Ok(branch) => branch,
            Err(e) => {
                return Err(e);
            },
        };
        let repo_name = Context::resolve_reponame(repo_dir.as_str());
        let workspace = "/tmp/arrow-workspace".to_owned();
        let no_diff = is_null_revision(old_rev.as_str()) || is_null_revision(new_rev.as_str());
        let fileset = if no_diff {
            None
        } else {
            match probe.diff_output {
                Some(output) => Some(Context::resolve_fileset(output.as_str())),
                None => {
                    return Err(
                        RunError::Diff { command: diff_command(old_rev.as_str(), new_rev.as_str()) },
                    );
                },
            }
        };
        Ok(
            Context {
                refname,
                old_rev,
                new_rev,
                branch,
                repo_name,
                workspace,
                repo_dir,
                cap_worktree: probe.worktree_capable,
                fileset,
            },
        )
    }

    /// The files changed by the push, where they are known.
    pub fn get_fileset(&self) -> (files: Option<Vec<String>>)
        ensures
            optional_views(files) == self@.fileset,
    {
        match &self.fileset {
            Some(files) => Some(copy_strings(files)),
            None => None,
        }
    }

    /// The environment scope that every pipeline of the run inherits. It
    /// is empty: the event reaches the actions through the workspace.
    pub fn prepare_envs(&self) -> (envs: Envs)
        ensures
            envs@ == empty_scope(),
    {
        Envs::default()
    }

    /// The directory of the worktree of `branch`.
    pub fn build_worktree_dir(&self, branch: &str) -> (dir: String)
        ensures
            dir@ == worktree_dir(self@, branch@),
    {
        let mut name = self.repo_name.clone();
        name.append("-");
        name.append(branch);
        join_path(self.workspace.as_str(), name.as_str())
    }

    /// The steps that check out a worktree of `branch`.
    pub fn checkout_worktree(&self, branch: &str) -> (steps: Vec<WorkspaceStep>)
        ensures
            step_views(steps@) == seq![
                WorkspaceOp::Script {
                    cwd: self@.repo_dir,
                    script: worktree_add_script(worktree_dir(self@, branch@), branch@),
                    keep_git_dir: true,
                },
                WorkspaceOp::ChangeDir { path: worktree_dir(self@, branch@) },
            ],
    {
        let workdir = self.build_worktree_dir(branch);
        let mut script = "git worktree add ".to_owned();
        script.append(workdir.as_str());
        script.append(" ");
        script.append(branch);
        let mut steps: Vec<WorkspaceStep> = Vec::new();
        steps.push(WorkspaceStep::Script { cwd: self.repo_dir.clone(), script, keep_git_dir: true });
        steps.push(WorkspaceStep::ChangeDir { path: workdir });
        assert(step_views(steps@) =~= seq![steps@[0]@, steps@[1]@]);
        steps
    }

    /// The steps that remove the worktree of `branch`.
    pub fn cleanup_worktree(&self, branch: &str) -> (steps: Vec<WorkspaceStep>)
        ensures
            step_views(steps@) == seq![
                WorkspaceOp::ChangeDir { path: self@.repo_dir },
                WorkspaceOp::Script {
                    cwd: self@.repo_dir,
                    script: worktree_remove_script(worktree_dir(self@, branch@)),
                    keep_git_dir: true,
                },
            ],
    {
        let workdir = self.build_worktree_dir(branch);
        let mut script = "git worktree remove --force ".to_owned();
        script.append(workdir.as_str());
        let mut steps: Vec<WorkspaceStep> = Vec::new();
        steps.push(WorkspaceStep::ChangeDir { path: self.repo_dir.clone() });
        steps.push(WorkspaceStep::Script { cwd: self.repo_dir.clone(), script, keep_git_dir: true });
        assert(step_views(steps@) =~= seq![steps@[0]@, steps@[1]@]);
        steps
    }

    /// The steps that check out `branch` in the clone.
    pub fn checkout_clone(&self, branch: &str) -> (steps: Vec<WorkspaceStep>)
        ensures
            step_views(steps@) == seq![
                WorkspaceOp::CreateDir { path: clone_dir(self@) },
                WorkspaceOp::Script {
                    cwd: clone_dir(self@),
                    script: clone_script(self@.repo_dir, branch@, self@.new_rev),
                    keep_git_dir: false,
                },
                WorkspaceOp::ChangeDir { path: clone_dir(self@) },
            ],
    {
        let workdir = join_path(self.workspace.as_str(), self.repo_name.as_str());
        let mut script = "if [ ! -d .git ]; then git clone ".to_owned();
        script.append(self.repo_dir.as_str());
        script.append(" .; fi\ngit fetch origin ");
        script.append(branch);
        script.append("\ngit checkout ");
        script.append(branch);
        script.append("\ngit reset --hard ");
        script.append(self.new_rev.as_str());
        script.append("\ngit clean -fdx\n");
        let mut steps: Vec<WorkspaceStep> = Vec::new();
        steps.push(WorkspaceStep::CreateDir { path: workdir.clone() });
        steps.push(WorkspaceStep::Script { cwd: workdir.clone(), script, keep_git_dir: false });
        steps.push(WorkspaceStep::ChangeDir { path: workdir });
        assert(step_views(steps@) =~= seq![steps@[0]@, steps@[1]@, steps@[2]@]);
        steps
    }

    /// The steps that leave the clone: it stays where it is.
    pub fn cleanup_clone(&self) -> (steps: Vec<WorkspaceStep>)
        ensures
            step_views(steps@) == seq![WorkspaceOp::ChangeDir { path: self@.repo_dir }],
    {
        let mut steps: Vec<WorkspaceStep> = Vec::new();
        steps.push(WorkspaceStep::ChangeDir { path: self.repo_dir.clone() });
        assert(step_views(steps@) =~= seq![steps@[0]@]);
        steps
    }

    /// The steps that give the workspace up again.
    pub fn cleanup_workspace(&self) -> (steps: Vec<WorkspaceStep>)
        ensures
            step_views(steps@) == release_ops(self@),
    {
        if self.cap_worktree {
            self.cleanup_worktree(self.branch.as_str())
        } else {
            self.cleanup_clone()
        }
    }

    /// The workspace of the event, with the steps that check it out and
    /// the steps that give it up: a worktree where git can make one, and
    /// the clone otherwise.
    pub fn checkout_workspace(&self) -> (worktree: Worktree)
        ensures
            worktree@ == workspace_of(self@),
    {
        if self.cap_worktree {
            Worktree {
                path: self.build_worktree_dir(self.branch.as_str()),
                branch: self.branch.clone(),
                mode: WorkspaceMode::Worktree,
                acquire: self.checkout_worktree(self.branch.as_str()),
                release: self.cleanup_workspace(),
            }
        } else {
            Worktree {
                path: join_path(self.workspace.as_str(), self.repo_name.as_str()),
                branch: self.branch.clone(),
                mode: WorkspaceMode::Clone,
                acquire: self.checkout_clone(self.branch.as_str()),
                release: self.cleanup_workspace(),
            }
        }
    }
}

} // verus!
