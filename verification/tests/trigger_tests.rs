use git_arrow::decode::{string_or_seq, StringOrSeq};
use git_arrow::trigger::{holds, WhenSpec};

fn strings(items: &[&str]) -> Vec<String> {
    items.iter().map(|s| s.to_string()).collect()
}

fn files(items: &[&str]) -> Option<Vec<String>> {
    Some(strings(items))
}

#[test]
fn any_branch_is_a_star() {
    assert_eq!(WhenSpec::any_branch(), strings(&["*"]));
}

#[test]
fn always_matches_every_branch_and_fileset() {
    let rule = WhenSpec::always();
    for branch in ["main", "dev", "", "feature/x"] {
        assert_eq!(rule.try_match_changes(branch, &files(&["a", "b"])), Some(true));
        assert_eq!(rule.try_match_changes(branch, &files(&[])), Some(true));
        assert_eq!(rule.try_match_changes(branch, &None), Some(true));
    }
}

#[test]
fn star_list_without_changes_matches_an_empty_fileset() {
    let rule = WhenSpec::new(strings(&["*"]), strings(&[]));
    assert_eq!(rule.try_match_changes("anything", &files(&[])), Some(true));
}

#[test]
fn empty_branch_list_never_matches() {
    let rule = WhenSpec::new(strings(&[]), strings(&[]));
    assert_eq!(rule.try_match_changes("main", &files(&["a"])), Some(false));
    assert!(!rule.for_branch("main"));
}

#[test]
fn other_branch_never_matches() {
    let rule = WhenSpec::new(strings(&["main", "release"]), strings(&[]));
    assert_eq!(rule.try_match_changes("dev", &files(&["a"])), Some(false));
    assert_eq!(rule.try_match_changes("dev", &None), Some(false));
    let filtered = WhenSpec::new(strings(&["main"]), strings(&["*"]));
    assert_eq!(filtered.try_match_changes("dev", &files(&["a"])), Some(false));
    let malformed = WhenSpec::new(strings(&["main"]), strings(&["[bad"]));
    assert_eq!(malformed.try_match_changes("dev", &files(&["a"])), Some(false));
}

#[test]
fn listed_branch_matches() {
    let rule = WhenSpec::new(strings(&["main", "release"]), strings(&[]));
    assert_eq!(rule.try_match_changes("main", &files(&[])), Some(true));
    assert_eq!(rule.try_match_changes("release", &None), Some(true));
    assert!(rule.for_branch("release"));
}

#[test]
fn star_counts_only_in_first_place() {
    let rule = WhenSpec::new(strings(&["main", "*"]), strings(&[]));
    assert_eq!(rule.try_match_changes("dev", &files(&[])), Some(false));
    assert_eq!(rule.try_match_changes("*", &files(&[])), Some(true));
}

#[test]
fn change_patterns_need_a_matching_file() {
    let rule = WhenSpec::new(strings(&["main"]), strings(&["src/*.go"]));
    assert_eq!(rule.try_match_changes("main", &files(&["README.md"])), Some(false));
    assert_eq!(rule.try_match_changes("main", &files(&["README.md", "src/main.go"])), Some(true));
    assert_eq!(rule.try_match_changes("main", &files(&[])), Some(false));
}

#[test]
fn change_patterns_never_match_an_unknown_fileset() {
    let rule = WhenSpec::new(strings(&["*"]), strings(&["*"]));
    assert_eq!(rule.try_match_changes("main", &None), Some(false));
    assert_eq!(rule.try_match_changes("main", &files(&["x"])), Some(true));
}

#[test]
fn any_pattern_may_match() {
    let rule = WhenSpec::new(strings(&["*"]), strings(&["docs/*", "*.md"]));
    assert_eq!(rule.try_match_changes("main", &files(&["src/a.rs", "README.md"])), Some(true));
    assert_eq!(rule.try_match_changes("main", &files(&["src/a.rs"])), Some(false));
}

#[test]
fn glob_dialect() {
    let hit = |pattern: &str, file: &str| {
        WhenSpec::new(strings(&["*"]), strings(&[pattern]))
            .try_match_changes("b", &files(&[file]))
    };
    assert_eq!(hit("c?t", "cat"), Some(true));
    assert_eq!(hit("c?t", "ct"), Some(false));
    assert_eq!(hit("*.go", "src/main.go"), Some(true));
    assert_eq!(hit("src/**/*.go", "src/a/b/c.go"), Some(true));
    assert_eq!(hit("k[!e]tteh", "kitteh"), Some(true));
    assert_eq!(hit("k[!e]tteh", "ketteh"), Some(false));
    assert_eq!(hit("[a-c]x", "bx"), Some(true));
    assert_eq!(hit("README.md", "readme.md"), Some(false));
    assert_eq!(hit("src", "src/main.go"), Some(false));
}

#[test]
fn malformed_pattern_is_reported_when_reached() {
    let rule = WhenSpec::new(strings(&["*"]), strings(&["a**b", "*.md"]));
    assert_eq!(rule.try_match_changes("main", &files(&["README.md"])), None);
    assert!(rule.meets_malformed("main", &files(&["README.md"])));
    assert_eq!(rule.try_match_changes("main", &files(&[])), None);
}

#[test]
fn unknown_fileset_is_decided_without_looking_at_the_patterns() {
    let malformed = WhenSpec::new(strings(&["*"]), strings(&["a**b", "abc[def"]));
    assert_eq!(malformed.try_match_changes("main", &None), Some(false));
    assert!(!malformed.meets_malformed("main", &None));
    assert!(!malformed.match_changes("main", &None));
    let filtered = WhenSpec::new(strings(&["main"]), strings(&["src/*"]));
    assert!(!filtered.match_changes("main", &None));
    let plain = WhenSpec::new(strings(&["main"]), strings(&[]));
    assert!(plain.match_changes("main", &None));
    assert!(!plain.match_changes("dev", &None));
}

#[test]
fn malformed_pattern_behind_a_matching_one_is_not_looked_at() {
    let rule = WhenSpec::new(strings(&["*"]), strings(&["*.md", "abc[def"]));
    assert_eq!(rule.try_match_changes("main", &files(&["README.md"])), Some(true));
    assert!(rule.match_changes("main", &files(&["README.md"])));
    assert_eq!(rule.try_match_changes("main", &files(&["main.go"])), None);
}

#[test]
fn match_changes_on_well_formed_patterns() {
    let rule = WhenSpec::new(strings(&["main"]), strings(&["src/*"]));
    assert!(rule.match_changes("main", &files(&["src/x"])));
    assert!(!rule.match_changes("main", &files(&["doc/x"])));
    assert!(!rule.match_changes("dev", &files(&["src/x"])));
}

#[test]
fn copy_of_a_trigger_decides_alike() {
    let rule = WhenSpec::new(strings(&["main"]), strings(&["src/*"]));
    let copy = rule.duplicate();
    assert_eq!(copy.try_match_changes("main", &files(&["src/x"])), Some(true));
    assert_eq!(copy.try_match_changes("dev", &files(&["src/x"])), Some(false));
}

#[test]
fn holds_finds_whole_entries() {
    let list = strings(&["main", "dev"]);
    assert!(holds(&list, "dev"));
    assert!(!holds(&list, "de"));
    assert!(!holds(&strings(&[]), ""));
}

#[test]
fn one_string_is_a_list_of_one() {
    assert_eq!(string_or_seq(StringOrSeq::One("main".to_string())), strings(&["main"]));
    assert_eq!(
        string_or_seq(StringOrSeq::Many(strings(&["a", "b"]))),
        strings(&["a", "b"])
    );
    assert!(string_or_seq(StringOrSeq::Many(vec![])).is_empty());
}
