//! Environment scopes: the variables that actions see.
//!
//! A scope names environment files and holds inline variables. Scopes are
//! composed by inheritance and never changed in place. The environment
//! of a scope is built anew whenever it is needed: the files are read in
//! order, a later file overriding an earlier one, and the inline
//! variables are put on top.

use vstd::prelude::*;
use crate::error::{Failure, RunError};
use crate::text::{pair_views, replace_all, replaced, views};
use crate::vars::{map_of, table_of, Mapping, Pairs, Variables};

verus! {

/// The variables that the text of an environment file assigns, or `None`
/// where the text is not a well-formed environment file: what
/// `env_file_reader::read_str` makes of it.
pub uninterp spec fn env_file_vars(content: Seq<char>) -> Option<Map<Seq<char>, Seq<char>>>;

/// Parses the text of an environment file with `env_file_reader::read_str`.
/// The pairs come back in no particular order; the contract claims that
/// together they are the file's variables.
#[verifier::external_body]
fn parse_env_text(content: &str) -> (parsed: Option<Vec<(String, String)>>)
    ensures
        match parsed {
            Some(pairs) => env_file_vars(content@) == Some(map_of(pair_views(pairs@))),
            None => env_file_vars(content@) is None,
        },
{
    match env_file_reader::read_str(content) {
        Ok(vars) => Some(vars.into_iter().collect()),
        Err(_) => None,
    }
}

/// The name of the variable that holds the path of the output file.
pub open spec fn output_env() -> Seq<char> {
    "ARROW_ENV"@
}

/// Environment files and inline variables.
#[derive(Debug)]
pub struct Envs {
    env_file: Vec<String>,
    variables: Variables,
}

/// A scope as contracts see it.
pub ghost struct Scope {
    pub env_file: Seq<Seq<char>>,
    pub variables: Mapping,
}

/// The scope without files and without variables.
pub open spec fn empty_scope() -> Scope {
    Scope { env_file: Seq::empty(), variables: Map::empty() }
}

/// The scope of `child` below `parent`: the parent's files come first, so
/// that the child's files override them, and the child's variables
/// override the parent's.
pub open spec fn inherited(child: Scope, parent: Scope) -> Scope {
    Scope {
        env_file: parent.env_file + child.env_file,
        variables: parent.variables.union_prefer_right(child.variables),
    }
}

/// `scope` with the output file `path` as its last environment file and as
/// the value of the output variable.
pub open spec fn with_output(scope: Scope, path: Seq<char>) -> Scope {
    Scope {
        env_file: scope.env_file.push(path),
        variables: scope.variables.insert(output_env(), path),
    }
}

/// What was found at the place of the `i`-th environment file: its text,
/// or `None` where there is no such file.
pub open spec fn content_at(contents: Seq<Option<Seq<char>>>, i: int) -> Option<Seq<char>> {
    if 0 <= i < contents.len() {
        contents[i]
    } else {
        None
    }
}

/// Whether the `i`-th environment file is there and malformed.
pub open spec fn malformed_at(contents: Seq<Option<Seq<char>>>, i: int) -> bool {
    content_at(contents, i) matches Some(text) && env_file_vars(text) is None
}

/// Whether the `i`-th of the first `n` environment files is the first
/// malformed one.
pub open spec fn is_first_malformed(contents: Seq<Option<Seq<char>>>, n: nat, i: int) -> bool {
    &&& 0 <= i < n
    &&& malformed_at(contents, i)
    &&& forall|j: int| 0 <= j < i ==> !malformed_at(contents, j)
}

/// The failure of building the environment of `scope`: that of its first
/// malformed file, or none where no file is malformed.
pub open spec fn build_failure(scope: Scope, contents: Seq<Option<Seq<char>>>) -> Option<Failure> {
    if exists|i: int| is_first_malformed(contents, scope.env_file.len(), i) {
        Some(
            Failure::EnvFile {
                path: scope.env_file[choose|i: int|
                    is_first_malformed(contents, scope.env_file.len(), i)],
            },
        )
    } else {
        None
    }
}

/// The variables of the `i`-th environment file; none where it is absent.
pub open spec fn file_vars_at(contents: Seq<Option<Seq<char>>>, i: int) -> Map<
    Seq<char>,
    Seq<char>,
> {
    match content_at(contents, i) {
        Some(text) => match env_file_vars(text) {
            Some(vars) => vars,
            None => Map::empty(),
        },
        None => Map::empty(),
    }
}

/// The variables of the first `n` environment files, a later file
/// overriding an earlier one.
pub open spec fn files_map(contents: Seq<Option<Seq<char>>>, n: nat) -> Map<Seq<char>, Seq<char>>
    decreases n,
{
    if n == 0 {
        Map::empty()
    } else {
        files_map(contents, (n - 1) as nat).union_prefer_right(file_vars_at(contents, n - 1))
    }
}

/// The environment of `scope` where `contents` holds what was found at
/// the places of its files: the files' variables, overridden by the
/// inline variables.
pub open spec fn environment_map(scope: Scope, contents: Seq<Option<Seq<char>>>) -> Map<
    Seq<char>,
    Seq<char>,
> {
    files_map(contents, scope.env_file.len()).union_prefer_right(scope.variables)
}

/// The environment of `scope` as a table: its variables in the order of
/// their names.
pub open spec fn environment(scope: Scope, contents: Seq<Option<Seq<char>>>) -> Pairs {
    table_of(environment_map(scope, contents))
}

/// `template` with `$NAME` replaced by the value of `NAME`, for each
/// variable of `vars` in turn, from the last to the first. In a table,
/// where the names stand in order, a name is so replaced before any name
/// that it starts with: `$HOMEPAGE` is not taken for `$HOME`.
pub open spec fn rendered(vars: Pairs, template: Seq<char>) -> Seq<char>
    decreases vars.len(),
{
    if vars.len() == 0 {
        template
    } else {
        rendered(
            vars.drop_last(),
            replaced(template, seq!['$'] + vars.last().0, vars.last().1),
        )
    }
}

/// The optional texts of `contents`, as contracts see them.
pub open spec fn content_views(contents: Seq<Option<String>>) -> Seq<Option<Seq<char>>> {
    Seq::new(
        contents.len(),
        |i: int|
            match contents[i] {
                Some(text) => Some(text@),
                None => None,
            },
    )
}

impl View for Envs {
    type V = Scope;

    closed spec fn view(&self) -> Scope {
        Scope { env_file: views(self.env_file@), variables: self.variables.map() }
    }
}

impl Default for Envs {
    /// The scope without files and without variables.
    fn default() -> (envs: Envs)
        ensures
            envs@ == empty_scope(),
    {
        let envs = Envs { env_file: Vec::new(), variables: Variables::new() };
        assert(views(envs.env_file@) =~= Seq::<Seq<char>>::empty());
        envs
    }
}

/// Replaces `$NAME` in `template` by the value of `NAME`, for each variable
/// of `vars` in turn, from the last to the first.
pub fn render_with(vars: &Variables, template: &str) -> (text: String)
    ensures
        text@ == rendered(vars@, template@),
{
    let mut text = template.to_owned();
    let mut i: usize = vars.len();
    assert(vars@.take(i as int) =~= vars@);
    while i > 0
        invariant
            i <= vars@.len(),
            rendered(vars@.take(i as int), text@) == rendered(vars@, template@),
        decreases i,
    {
        i -= 1;
        let mut token = String::new();
        token.push('$');
        vstd::string::StringExecFns::append(&mut token, vars.key_at(i).as_str());
        assert(token@ =~= seq!['$'] + vars@[i as int].0);
        assert(vars@.take(i + 1).drop_last() =~= vars@.take(i as int));
        assert(vars@.take(i + 1).last() == vars@[i as int]);
        text = replace_all(text.as_str(), token.as_str(), vars.value_at(i).as_str());
    }
    assert(vars@.take(0) =~= Pairs::empty());
    text
}

impl Envs {
    /// The scope with the files `env_file` and the variables `vars`. Of
    /// two variables with one name the later wins.
    pub fn new(env_file: Vec<String>, vars: Vec<(String, String)>) -> (envs: Envs)
        ensures
            envs@ == (Scope { env_file: views(env_file@), variables: map_of(pair_views(vars@)) }),
    {
        Envs { env_file, variables: Variables::from_pairs(&vars) }
    }

    /// The scope without files that holds the variables `vars`. Of two
    /// variables with one name the later wins.
    pub fn from_vars(vars: Vec<(String, String)>) -> (envs: Envs)
        ensures
            envs@ == (Scope { env_file: Seq::empty(), variables: map_of(pair_views(vars@)) }),
    {
        let envs = Envs { env_file: Vec::new(), variables: Variables::from_pairs(&vars) };
        assert(views(envs.env_file@) =~= Seq::<Seq<char>>::empty());
        envs
    }

    /// The paths of the environment files, in the order in which they are
    /// read.
    pub fn files(&self) -> (paths: Vec<String>)
        ensures
            views(paths@) == self@.env_file,
    {
        copy_strings(&self.env_file)
    }

    /// The inline variables.
    pub fn variables(&self) -> (vars: Variables)
        ensures
            vars.map() == self@.variables,
    {
        self.variables.duplicate()
    }

    /// A copy of the scope.
    pub fn duplicate(&self) -> (copy: Envs)
        ensures
            copy@ == self@,
    {
        Envs { env_file: copy_strings(&self.env_file), variables: self.variables.duplicate() }
    }

    /// This scope with the output file `path`: the file is read last, so
    /// that what an action writes to it overrides the other files, and
    /// actions find its path in the variable `ARROW_ENV`.
    pub fn setup_output_env(&self, path: String) -> (envs: Envs)
        ensures
            envs@ == with_output(self@, path@),
    {
        let mut env_file = copy_strings(&self.env_file);
        let mut variables = self.variables.duplicate();
        let ghost before = views(env_file@);
        env_file.push(path.clone());
        assert(views(env_file@) =~= before.push(path@));
        variables.insert("ARROW_ENV".to_owned(), path);
        Envs { env_file, variables }
    }

    /// The scope of `self` below `parent`. The child wins: its files are
    /// read after the parent's, and its variables override the parent's.
    pub fn inherit(&self, parent: &Envs) -> (envs: Envs)
        ensures
            envs@ == inherited(self@, parent@),
    {
        let mut env_file = copy_strings(&parent.env_file);
        let mut i: usize = 0;
        assert(views(self.env_file@).take(0) =~= Seq::<Seq<char>>::empty());
        assert(views(parent.env_file@) + Seq::<Seq<char>>::empty() =~= views(parent.env_file@));
        while i < self.env_file.len()
            invariant
                i <= self.env_file.len(),
                views(env_file@) == views(parent.env_file@) + views(self.env_file@).take(i as int),
            decreases self.env_file.len() - i,
        {
            let ghost before = views(env_file@);
            env_file.push(self.env_file[i].clone());
            assert(views(env_file@) =~= before.push(self.env_file@[i as int]@));
            assert(views(self.env_file@).take(i + 1) =~= views(self.env_file@).take(i as int).push(
                self.env_file@[i as int]@,
            ));
            assert(views(env_file@) =~= views(parent.env_file@) + views(self.env_file@).take(
                i + 1,
            ));
            i += 1;
        }
        assert(views(self.env_file@).take(i as int) =~= views(self.env_file@));
        let mut variables = parent.variables.duplicate();
        variables.extend(&self.variables);
        Envs { env_file, variables }
    }

    /// Builds the environment from what was found at the places of the
    /// environment files: `contents[i]` is the text of the `i`-th file, or
    /// `None` where there is no such file, which is skipped. A file beyond
    /// the end of `contents` counts as absent.
    ///
    /// The first malformed file fails the build (`build_failure`).
    /// Otherwise the result holds the files' variables, a later file
    /// overriding an earlier one, overridden by the inline variables.
    pub fn build_env(&self, contents: &Vec<Option<String>>) -> (built: Result<Variables, RunError>)
        ensures
            match built {
                Ok(vars) => {
                    &&& build_failure(self@, content_views(contents@)) is None
                    &&& vars.map() == environment_map(self@, content_views(contents@))
                    &&& vars@ == environment(self@, content_views(contents@))
                },
                Err(e) => build_failure(self@, content_views(contents@)) == Some(e@),
            },
    {
        let ghost found = content_views(contents@);
        let mut vars = Variables::new();
        let mut i: usize = 0;
        while i < self.env_file.len()
            invariant
                i <= self.env_file.len(),
                found == content_views(contents@),
                forall|j: int| 0 <= j < i ==> !malformed_at(found, j),
                vars.map() == files_map(found, i as nat),
            decreases self.env_file.len() - i,
        {
            if i < contents.len() {
                match &contents[i] {
                    Some(text) => {
                        assert(content_at(found, i as int) == Some(text@));
                        match parse_env_text(text.as_str()) {
                            Some(pairs) => {
                                let file_vars = Variables::from_pairs(&pairs);
                                vars.extend(&file_vars);
                            },
                            None => {
                                assert(malformed_at(found, i as int));
                                assert(views(self.env_file@)[i as int] == self.env_file@[i as int]@);
                                assert(is_first_malformed(
                                    found,
                                    self@.env_file.len(),
                                    i as int,
                                ));
                                return Err(RunError::EnvFile { path: self.env_file[i].clone() });
                            },
                        }
                    },
                    None => {
                        assert(content_at(found, i as int) is None);
                        assert(vars.map().union_prefer_right(Map::empty()) =~= vars.map());
                    },
                }
            } else {
                assert(content_at(found, i as int) is None);
                assert(vars.map().union_prefer_right(Map::empty()) =~= vars.map());
            }
            i += 1;
        }
        vars.extend(&self.variables);
        vars.names_are_ordered();
        Ok(vars)
    }

    /// Renders `template` in the environment of this scope, built from
    /// `contents` as `build_env` builds it: `$NAME` is replaced by the
    /// value of `NAME`, for each variable in turn, from the last name to
    /// the first.
    pub fn render(&self, contents: &Vec<Option<String>>, template: &str) -> (text: Result<
        String,
        RunError,
    >)
        ensures
            match text {
                Ok(text) => {
                    &&& build_failure(self@, content_views(contents@)) is None
                    &&& text@ == rendered(environment(self@, content_views(contents@)), template@)
                },
                Err(e) => build_failure(self@, content_views(contents@)) == Some(e@),
            },
    {
        match self.build_env(contents) {
            Ok(vars) => Ok(render_with(&vars, template)),
            Err(e) => Err(e),
        }
    }
}

/// A copy of `list`.
pub fn copy_strings(list: &Vec<String>) -> (copy: Vec<String>)
    ensures
        views(copy@) == views(list@),
        copy.len() == list.len(),
{
    let mut copy: Vec<String> = Vec::new();
    let mut i: usize = 0;
    while i < list.len()
        invariant
            i <= list.len(),
            copy.len() == i,
            forall|j: int| 0 <= j < i ==> copy@[j]@ == list@[j]@,
        decreases list.len() - i,
    {
        copy.push(list[i].clone());
        i += 1;
    }
    assert(views(copy@) =~= views(list@));
    copy
}

/// The child wins. A name that the child sets has the child's value in
/// the inherited scope and in every environment built from it, whatever
/// the parent sets and whatever the environment files hold.
pub proof fn lemma_child_wins(
    child: Scope,
    parent: Scope,
    contents: Seq<Option<Seq<char>>>,
    name: Seq<char>,
)
    requires
        child.variables.dom().contains(name),
    ensures
        inherited(child, parent).variables.dom().contains(name),
        inherited(child, parent).variables[name] == child.variables[name],
        environment_map(inherited(child, parent), contents).dom().contains(name),
        environment_map(inherited(child, parent), contents)[name] == child.variables[name],
{
}

/// A name that the child does not set keeps what the parent says of it
/// in the inherited scope.
pub proof fn lemma_parent_shows_through(child: Scope, parent: Scope, name: Seq<char>)
    requires
        !child.variables.dom().contains(name),
    ensures
        inherited(child, parent).variables.dom().contains(name) == parent.variables.dom().contains(
            name,
        ),
        parent.variables.dom().contains(name) ==> inherited(child, parent).variables[name]
            == parent.variables[name],
{
}

/// Among the environment files the last one that assigns a name decides
/// its value.
pub proof fn lemma_later_file_wins(
    contents: Seq<Option<Seq<char>>>,
    n: nat,
    at: int,
    name: Seq<char>,
)
    requires
        0 <= at < n,
        file_vars_at(contents, at).dom().contains(name),
        forall|j: int| at < j < n ==> !file_vars_at(contents, j).dom().contains(name),
    ensures
        files_map(contents, n).dom().contains(name),
        files_map(contents, n)[name] == file_vars_at(contents, at)[name],
    decreases n,
{
    if at < n - 1 {
        lemma_later_file_wins(contents, (n - 1) as nat, at, name);
    }
}

/// What an action writes to the output file reaches the actions after
/// it. Let a pipeline's scope be `scope` with the output file `path`, and
/// let an action with the fragment `child` inherit it. Then the output
/// file is among the action's environment files, at the place after the
/// files of `scope`, and the action finds its path under the output
/// variable unless it sets that variable itself. And where the output
/// file assigns `value` to `name`, the action's environment gives `name`
/// that value, provided that no file of the action itself assigns the
/// name and no inline variable carries it.
pub proof fn lemma_output_reaches_actions(
    scope: Scope,
    path: Seq<char>,
    child: Scope,
    contents: Seq<Option<Seq<char>>>,
    name: Seq<char>,
    value: Seq<char>,
)
    requires
        file_vars_at(contents, scope.env_file.len() as int).contains_pair(name, value),
        forall|j: int|
            scope.env_file.len() < j < scope.env_file.len() + 1 + child.env_file.len()
                ==> !file_vars_at(contents, j).dom().contains(name),
        !scope.variables.dom().contains(name),
        !child.variables.dom().contains(name),
        name != output_env(),
    ensures
        inherited(child, with_output(scope, path)).env_file[scope.env_file.len() as int] == path,
        !child.variables.dom().contains(output_env()) ==> inherited(
            child,
            with_output(scope, path),
        ).variables[output_env()] == path,
        environment_map(inherited(child, with_output(scope, path)), contents).dom().contains(name),
        environment_map(inherited(child, with_output(scope, path)), contents)[name] == value,
{
    let whole = inherited(child, with_output(scope, path));
    lemma_later_file_wins(contents, whole.env_file.len(), scope.env_file.len() as int, name);
}

/// Where none of the environment files is there, the build does not
/// fail and the environment holds the inline variables and no others.
pub proof fn lemma_no_files_found(scope: Scope, contents: Seq<Option<Seq<char>>>)
    requires
        forall|i: int| 0 <= i < scope.env_file.len() ==> content_at(contents, i) is None,
    ensures
        build_failure(scope, contents) is None,
        environment_map(scope, contents) == scope.variables,
{
    lemma_absent_files(contents, scope.env_file.len());
    assert(Map::<Seq<char>, Seq<char>>::empty().union_prefer_right(scope.variables)
        =~= scope.variables);
}

/// Environment files that are not there assign nothing.
proof fn lemma_absent_files(contents: Seq<Option<Seq<char>>>, n: nat)
    requires
        forall|i: int| 0 <= i < n ==> content_at(contents, i) is None,
    ensures
        files_map(contents, n) == Map::<Seq<char>, Seq<char>>::empty(),
    decreases n,
{
    if n > 0 {
        lemma_absent_files(contents, (n - 1) as nat);
        assert(files_map(contents, n) =~= Map::<Seq<char>, Seq<char>>::empty());
    }
}

} // verus!
