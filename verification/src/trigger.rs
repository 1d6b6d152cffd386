//! When a pipeline reacts to a push: the branch it is for, and the files
//! whose change it is for.
//!
//! File patterns are those of the `glob` crate with its default options:
//! `?` stands for any one character, `*` for any run of characters (a `/`
//! among them), `**` as a whole path component for any run of directories,
//! `[...]` for one of the characters or ranges listed and `[!...]` for any
//! other. Letters match by case. The paths of changed files are those
//! that git prints, with `/` between their components.

use vstd::prelude::*;
use crate::envs::copy_strings;
use crate::text::{same_text, views};

verus! {

/// Whether `pattern` is a well-formed file pattern: whether
/// `glob::Pattern::new` accepts it, on a system where `/` alone separates
/// the components of a path.
pub uninterp spec fn glob_valid(pattern: Seq<char>) -> bool;

/// Whether the well-formed `pattern` matches the whole of `text`: what
/// `glob::Pattern::matches` gives for the pattern compiled from `pattern`,
/// on a system where `/` alone separates the components of a path.
pub uninterp spec fn glob_hit(pattern: Seq<char>, text: Seq<char>) -> bool;

/// Asks `glob::Pattern::new` whether it accepts `pattern`.
#[verifier::external_body]
fn pattern_is_valid(pattern: &str) -> (valid: bool)
    ensures
        valid == glob_valid(pattern@),
{
    glob::Pattern::new(pattern).is_ok()
}

/// Compiles `pattern` and asks `glob::Pattern::matches` whether it matches
/// `text`. The pattern must be well-formed.
#[verifier::external_body]
fn pattern_matches(pattern: &str, text: &str) -> (hit: bool)
    requires
        glob_valid(pattern@),
    ensures
        hit == glob_hit(pattern@, text@),
{
    glob::Pattern::new(pattern).unwrap().matches(text)
}

/// The branch entry that stands for every branch.
pub open spec fn star_branch() -> Seq<char> {
    "*"@
}

/// The trigger of a pipeline.
#[derive(Debug)]
pub struct WhenSpec {
    /// The branches to react to. A `*` in the first place stands for all.
    branch: Vec<String>,
    /// File patterns, relative to the root of the repository. With none,
    /// the branch alone decides.
    changes: Vec<String>,
}

/// A trigger as contracts see it.
pub ghost struct Trigger {
    pub branch: Seq<Seq<char>>,
    pub changes: Seq<Seq<char>>,
}

impl View for WhenSpec {
    type V = Trigger;

    closed spec fn view(&self) -> Trigger {
        Trigger { branch: views(self.branch@), changes: views(self.changes@) }
    }
}

/// Whether a trigger for `branches` is for `branch`: the list starts with
/// `*` or holds the branch itself. An empty list is for no branch.
pub open spec fn branch_matches(branches: Seq<Seq<char>>, branch: Seq<char>) -> bool {
    branches.len() > 0 && (branches[0] == star_branch() || branches.contains(branch))
}

/// Whether `pattern` is well-formed and matches one of `files`.
pub open spec fn pattern_hits(pattern: Seq<char>, files: Seq<Seq<char>>) -> bool {
    glob_valid(pattern) && exists|j: int| 0 <= j < files.len() && glob_hit(pattern, #[trigger] files[j])
}

/// Whether `pattern` matches one of the changed files. Where they are not
/// known, it matches none.
pub open spec fn pattern_fires(pattern: Seq<char>, fileset: Option<Seq<Seq<char>>>) -> bool {
    fileset matches Some(files) && pattern_hits(pattern, files)
}

/// Whether one of the patterns `changes` matches one of the changed
/// files. No patterns at all are met by any push.
pub open spec fn changes_match(changes: Seq<Seq<char>>, fileset: Option<Seq<Seq<char>>>) -> bool {
    changes.len() == 0 || exists|i: int|
        0 <= i < changes.len() && pattern_fires(#[trigger] changes[i], fileset)
}

/// Whether `rule` is met by a push to `branch` that changed `fileset`.
pub open spec fn is_met(rule: Trigger, branch: Seq<char>, fileset: Option<Seq<Seq<char>>>) -> bool {
    branch_matches(rule.branch, branch) && changes_match(rule.changes, fileset)
}

/// Whether deciding `rule` for a push to `branch` comes upon a malformed
/// pattern. The patterns are tried in order until one matches, and only
/// where the branch is one to react to and the changed files are known:
/// a malformed pattern behind a matching one is never looked at, and
/// without files to hold them against no pattern is.
pub open spec fn meets_malformed(
    rule: Trigger,
    branch: Seq<char>,
    fileset: Option<Seq<Seq<char>>>,
) -> bool {
    branch_matches(rule.branch, branch) && fileset is Some && exists|i: int|
        {
            &&& 0 <= i < rule.changes.len()
            &&& !glob_valid(#[trigger] rule.changes[i])
            &&& forall|j: int| 0 <= j < i ==> !pattern_fires(#[trigger] rule.changes[j], fileset)
        }
}

/// Whether `list` holds `text`.
pub fn holds(list: &Vec<String>, text: &str) -> (found: bool)
    ensures
        found == views(list@).contains(text@),
{
    let mut i: usize = 0;
    while i < list.len()
        invariant
            i <= list.len(),
            forall|j: int| 0 <= j < i ==> views(list@)[j] != text@,
        decreases list.len() - i,
    {
        if same_text(list[i].as_str(), text) {
            assert(views(list@)[i as int] == text@);
            return true;
        }
        i += 1;
    }
    false
}

/// Whether the well-formed `pattern` matches one of `files`.
fn hits_any(pattern: &str, files: &Vec<String>) -> (hit: bool)
    requires
        glob_valid(pattern@),
    ensures
        hit == pattern_hits(pattern@, views(files@)),
{
    let mut j: usize = 0;
    while j < files.len()
        invariant
            j <= files.len(),
            glob_valid(pattern@),
            forall|k: int| 0 <= k < j ==> !glob_hit(pattern@, #[trigger] views(files@)[k]),
        decreases files.len() - j,
    {
        if pattern_matches(pattern, files[j].as_str()) {
            assert(glob_hit(pattern@, views(files@)[j as int]));
            return true;
        }
        j += 1;
    }
    false
}

/// Whether the well-formed `pattern` matches one of the changed files.
fn fires(pattern: &str, fileset: &Option<Vec<String>>) -> (hit: bool)
    requires
        glob_valid(pattern@),
    ensures
        hit == pattern_fires(pattern@, crate::repo::optional_views(*fileset)),
{
    match fileset {
        Some(files) => hits_any(pattern, files),
        None => false,
    }
}

impl WhenSpec {
    /// The trigger for the branches `branch` and the file patterns
    /// `changes`.
    pub fn new(branch: Vec<String>, changes: Vec<String>) -> (rule: WhenSpec)
        ensures
            rule@ == (Trigger { branch: views(branch@), changes: views(changes@) }),
    {
        WhenSpec { branch, changes }
    }

    /// The trigger that every push meets: any branch, no file patterns.
    pub fn always() -> (rule: WhenSpec)
        ensures
            rule@ == (Trigger { branch: seq![star_branch()], changes: Seq::empty() }),
    {
        let rule = WhenSpec { branch: WhenSpec::any_branch(), changes: Vec::new() };
        assert(views(rule.changes@) =~= Seq::<Seq<char>>::empty());
        rule
    }

    /// The branch list that stands for every branch.
    pub fn any_branch() -> (branches: Vec<String>)
        ensures
            views(branches@) == seq![star_branch()],
    {
        let mut branches: Vec<String> = Vec::new();
        branches.push("*".to_owned());
        assert(views(branches@) =~= seq![star_branch()]);
        branches
    }

    /// A copy of the trigger.
    pub fn duplicate(&self) -> (copy: WhenSpec)
        ensures
            copy@ == self@,
    {
        WhenSpec { branch: copy_strings(&self.branch), changes: copy_strings(&self.changes) }
    }

    /// Whether the trigger is for `branch`.
    pub fn for_branch(&self, branch: &str) -> (hit: bool)
        ensures
            hit == branch_matches(self@.branch, branch@),
    {
        if self.branch.len() == 0 {
            return false;
        }
        assert(views(self.branch@)[0] == self.branch@[0]@);
        same_text(self.branch[0].as_str(), "*") || holds(&self.branch, branch)
    }

    /// Whether deciding the trigger for this push comes upon a malformed
    /// file pattern.
    pub fn meets_malformed(&self, branch: &str, fileset: &Option<Vec<String>>) -> (bad: bool)
        ensures
            bad == meets_malformed(self@, branch@, crate::repo::optional_views(*fileset)),
    {
        if !self.for_branch(branch) {
            return false;
        }
        if fileset.is_none() {
            return false;
        }
        let ghost files = crate::repo::optional_views(*fileset);
        let mut i: usize = 0;
        while i < self.changes.len()
            invariant
                i <= self.changes.len(),
                files == crate::repo::optional_views(*fileset),
                files is Some,
                branch_matches(self@.branch, branch@),
                forall|j: int|
                    0 <= j < i ==> glob_valid(#[trigger] views(self.changes@)[j]) && !pattern_fires(
                        views(self.changes@)[j],
                        files,
                    ),
            decreases self.changes.len() - i,
        {
            assert(views(self.changes@)[i as int] == self.changes@[i as int]@);
            if !pattern_is_valid(self.changes[i].as_str()) {
                proof {
                    let patterns = self@.changes;
                    assert(!glob_valid(patterns[i as int]));
                    assert forall|j: int| 0 <= j < i implies !pattern_fires(
                        #[trigger] patterns[j],
                        files,
                    ) by {
                        assert(glob_valid(views(self.changes@)[j]));
                    }
                }
                return true;
            }
            if fires(self.changes[i].as_str(), fileset) {
                assert(pattern_fires(views(self.changes@)[i as int], files));
                return false;
            }
            i += 1;
        }
        false
    }

    /// Whether the trigger is met by a push to `branch` that changed the
    /// files `fileset` (`None` where they are not known). The branch must
    /// be one of the trigger's, and one of the file patterns, if there
    /// are any, must match one of the files. Where the files are not
    /// known, a trigger with file patterns is not met and one without is
    /// met by its branch alone; the patterns are not looked at.
    ///
    /// Deciding this must not come upon a malformed pattern:
    /// `try_match_changes` is for triggers of which that is not known.
    pub fn match_changes(&self, branch: &str, fileset: &Option<Vec<String>>) -> (met: bool)
        requires
            !meets_malformed(self@, branch@, crate::repo::optional_views(*fileset)),
        ensures
            met == is_met(self@, branch@, crate::repo::optional_views(*fileset)),
    {
        if !self.for_branch(branch) {
            return false;
        }
        if self.changes.len() == 0 {
            return true;
        }
        if fileset.is_none() {
            return false;
        }
        let ghost files = crate::repo::optional_views(*fileset);
        let mut i: usize = 0;
        while i < self.changes.len()
            invariant
                i <= self.changes.len(),
                files == crate::repo::optional_views(*fileset),
                files is Some,
                !meets_malformed(self@, branch@, files),
                branch_matches(self@.branch, branch@),
                forall|j: int| 0 <= j < i ==> !pattern_fires(#[trigger] views(self.changes@)[j], files),
            decreases self.changes.len() - i,
        {
            assert(views(self.changes@)[i as int] == self.changes@[i as int]@);
            proof {
                let patterns = self@.changes;
                if !glob_valid(patterns[i as int]) {
                    assert forall|j: int| 0 <= j < i implies !pattern_fires(
                        #[trigger] patterns[j],
                        files,
                    ) by {
                        assert(!pattern_fires(views(self.changes@)[j], files));
                    }
                    assert(meets_malformed(self@, branch@, files));
                }
            }
            if fires(self.changes[i].as_str(), fileset) {
                assert(pattern_fires(views(self.changes@)[i as int], files));
                return true;
            }
            i += 1;
        }
        false
    }

    /// Decides the trigger as `match_changes` does, or gives `None` where
    /// deciding it comes upon a malformed file pattern.
    pub fn try_match_changes(&self, branch: &str, fileset: &Option<Vec<String>>) -> (met: Option<
        bool,
    >)
        ensures
            met == if meets_malformed(self@, branch@, crate::repo::optional_views(*fileset)) {
                None
            } else {
                Some(is_met(self@, branch@, crate::repo::optional_views(*fileset)))
            },
    {
        if self.meets_malformed(branch, fileset) {
            None
        } else {
            Some(self.match_changes(branch, fileset))
        }
    }
}

/// A trigger for any branch and without file patterns is met by every
/// push, whatever the branch and whatever files changed, none at all and
/// unknown ones included; deciding it never comes upon a malformed
/// pattern.
pub proof fn lemma_star_matches_all(branch: Seq<char>, fileset: Option<Seq<Seq<char>>>)
    ensures
        is_met(Trigger { branch: seq![star_branch()], changes: Seq::empty() }, branch, fileset),
        !meets_malformed(
            Trigger { branch: seq![star_branch()], changes: Seq::empty() },
            branch,
            fileset,
        ),
{
}

/// A trigger whose branch list does not start with `*` and does not hold
/// the branch of the push is not met, whatever its file patterns and
/// whatever files changed.
pub proof fn lemma_other_branch_never_matches(
    rule: Trigger,
    branch: Seq<char>,
    fileset: Option<Seq<Seq<char>>>,
)
    requires
        rule.branch.len() == 0 || rule.branch[0] != star_branch(),
        !rule.branch.contains(branch),
    ensures
        !is_met(rule, branch, fileset),
        !meets_malformed(rule, branch, fileset),
{
}

/// Where the changed files are not known, a trigger is met exactly when
/// its branch list is for the branch and it has no file patterns: a
/// trigger with file patterns is never met, one without is met by its
/// branch alone. Deciding this never comes upon a malformed pattern,
/// whatever the patterns are.
pub proof fn lemma_unknown_files(rule: Trigger, branch: Seq<char>)
    ensures
        is_met(rule, branch, None) == (branch_matches(rule.branch, branch) && rule.changes.len()
            == 0),
        !meets_malformed(rule, branch, None),
{
}

/// A trigger without file patterns whose branch list is for the branch
/// is met, whatever files changed.
pub proof fn lemma_branch_alone(rule: Trigger, branch: Seq<char>, fileset: Option<Seq<Seq<char>>>)
    requires
        branch_matches(rule.branch, branch),
        rule.changes.len() == 0,
    ensures
        is_met(rule, branch, fileset),
        !meets_malformed(rule, branch, fileset),
{
}

/// A trigger with file patterns, all of them well-formed, is not met by
/// a push none of whose changed files any of the patterns matches.
pub proof fn lemma_no_pattern_hits(rule: Trigger, branch: Seq<char>, files: Seq<Seq<char>>)
    requires
        rule.changes.len() > 0,
        forall|i: int| 0 <= i < rule.changes.len() ==> glob_valid(#[trigger] rule.changes[i]),
        forall|i: int, j: int|
            0 <= i < rule.changes.len() && 0 <= j < files.len() ==> !glob_hit(
                #[trigger] rule.changes[i],
                #[trigger] files[j],
            ),
    ensures
        !is_met(rule, branch, Some(files)),
        !meets_malformed(rule, branch, Some(files)),
{
}

} // verus!
