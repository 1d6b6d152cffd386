use git_arrow::envs::{render_with, Envs};
use git_arrow::error::RunError;
use git_arrow::vars::Variables;

fn pair(k: &str, v: &str) -> (String, String) {
    (k.to_string(), v.to_string())
}

fn value(vars: &Variables, name: &str) -> Option<String> {
    vars.get(name)
}

#[test]
fn table_keeps_the_last_value_of_a_name() {
    let vars = Variables::from_pairs(&vec![pair("B", "2"), pair("A", "1"), pair("A", "3")]);
    assert_eq!(vars.len(), 2);
    assert_eq!(vars.to_pairs(), vec![pair("A", "3"), pair("B", "2")]);
    assert_eq!(value(&vars, "A"), Some("3".to_string()));
    assert_eq!(value(&vars, "C"), None);
}

#[test]
fn table_insert_and_extend() {
    let mut vars = Variables::new();
    vars.insert("Y".to_string(), "2".to_string());
    vars.insert("X".to_string(), "1".to_string());
    vars.insert("X".to_string(), "9".to_string());
    assert_eq!(vars.to_pairs(), vec![pair("X", "9"), pair("Y", "2")]);
    assert_eq!(vars.key_at(0), "X");
    assert_eq!(vars.value_at(0), "9");
    let other = Variables::from_pairs(&vec![pair("Z", "4"), pair("Y", "3"), pair("A", "0")]);
    vars.extend(&other);
    assert_eq!(
        vars.to_pairs(),
        vec![pair("A", "0"), pair("X", "9"), pair("Y", "3"), pair("Z", "4")]
    );
    assert_eq!(vars.duplicate().to_pairs(), vars.to_pairs());
}

#[test]
fn from_vars_has_no_files() {
    let envs = Envs::from_vars(vec![pair("A", "1")]);
    assert!(envs.files().is_empty());
    assert_eq!(envs.variables().to_pairs(), vec![pair("A", "1")]);
}

#[test]
fn default_scope_is_empty() {
    let envs = Envs::default();
    assert!(envs.files().is_empty());
    assert_eq!(envs.variables().len(), 0);
}

#[test]
fn inherit_child_wins_on_variables() {
    let parent = Envs::from_vars(vec![pair("K", "parent"), pair("P", "p")]);
    let child = Envs::from_vars(vec![pair("K", "child"), pair("C", "c")]);
    let merged = child.inherit(&parent);
    let built = merged.build_env(&vec![]).unwrap();
    assert_eq!(value(&built, "K"), Some("child".to_string()));
    assert_eq!(value(&built, "P"), Some("p".to_string()));
    assert_eq!(value(&built, "C"), Some("c".to_string()));
    assert_eq!(merged.variables().to_pairs(), vec![pair("C", "c"), pair("K", "child"), pair("P", "p")]);
}

#[test]
fn inherit_puts_parent_files_first() {
    let parent = Envs::new(vec!["p.env".to_string()], vec![]);
    let child = Envs::new(vec!["c1.env".to_string(), "c2.env".to_string()], vec![]);
    let merged = child.inherit(&parent);
    assert_eq!(merged.files(), vec!["p.env".to_string(), "c1.env".to_string(), "c2.env".to_string()]);
}

#[test]
fn inherit_leaves_both_unchanged() {
    let parent = Envs::from_vars(vec![pair("K", "parent")]);
    let child = Envs::from_vars(vec![pair("K", "child")]);
    let _ = child.inherit(&parent);
    assert_eq!(parent.variables().to_pairs(), vec![pair("K", "parent")]);
    assert_eq!(child.variables().to_pairs(), vec![pair("K", "child")]);
}

#[test]
fn child_file_overrides_parent_file() {
    let parent = Envs::new(vec!["p.env".to_string()], vec![]);
    let child = Envs::new(vec!["c.env".to_string()], vec![]);
    let merged = child.inherit(&parent);
    let contents = vec![Some("K=parent\nP=1\n".to_string()), Some("K=child\n".to_string())];
    let built = merged.build_env(&contents).unwrap();
    assert_eq!(value(&built, "K"), Some("child".to_string()));
    assert_eq!(value(&built, "P"), Some("1".to_string()));
}

#[test]
fn inline_variables_override_files() {
    let envs = Envs::new(vec!["a.env".to_string()], vec![pair("K", "inline")]);
    let built = envs.build_env(&vec![Some("K=file\nF=f\n".to_string())]).unwrap();
    assert_eq!(value(&built, "K"), Some("inline".to_string()));
    assert_eq!(value(&built, "F"), Some("f".to_string()));
}

#[test]
fn absent_files_are_skipped() {
    let envs = Envs::new(vec!["a.env".to_string(), "b.env".to_string()], vec![pair("K", "v")]);
    let built = envs.build_env(&vec![None, Some("B=2".to_string())]).unwrap();
    assert_eq!(built.len(), 2);
    assert_eq!(value(&built, "B"), Some("2".to_string()));
    let short = envs.build_env(&vec![]).unwrap();
    assert_eq!(short.to_pairs(), vec![pair("K", "v")]);
}

#[test]
fn env_file_comments_and_blank_lines_are_ignored() {
    let envs = Envs::new(vec!["a.env".to_string()], vec![]);
    let built = envs.build_env(&vec![Some("# comment\n\nA=1\nexport B=two\n".to_string())]).unwrap();
    assert_eq!(built.len(), 2);
    assert_eq!(value(&built, "A"), Some("1".to_string()));
    assert_eq!(value(&built, "B"), Some("two".to_string()));
}

#[test]
fn first_malformed_file_fails_the_build() {
    let envs = Envs::new(
        vec!["a.env".to_string(), "b.env".to_string(), "c.env".to_string()],
        vec![],
    );
    let contents = vec![
        Some("A=1".to_string()),
        Some("key with whitespace=x".to_string()),
        Some("also bad=x".to_string()),
    ];
    match envs.build_env(&contents) {
        Err(RunError::EnvFile { path }) => assert_eq!(path, "b.env"),
        other => panic!("unexpected: {:?}", other),
    }
}

#[test]
fn output_env_is_last_file_and_is_exported() {
    let envs = Envs::new(vec!["a.env".to_string()], vec![pair("K", "v")]);
    let with = envs.setup_output_env("/tmp/arrow-1.env".to_string());
    assert_eq!(with.files(), vec!["a.env".to_string(), "/tmp/arrow-1.env".to_string()]);
    assert_eq!(
        with.variables().to_pairs(),
        vec![pair("ARROW_ENV", "/tmp/arrow-1.env"), pair("K", "v")]
    );
    assert_eq!(envs.files(), vec!["a.env".to_string()]);
}

#[test]
fn output_file_round_trip() {
    let pipeline = Envs::default().setup_output_env("/tmp/out.env".to_string());
    let action = Envs::default().inherit(&pipeline);
    assert_eq!(action.files(), vec!["/tmp/out.env".to_string()]);
    let before = action.build_env(&vec![Some("".to_string())]).unwrap();
    assert_eq!(value(&before, "FOO"), None);
    let after = action.build_env(&vec![Some("FOO=bar\n".to_string())]).unwrap();
    assert_eq!(value(&after, "FOO"), Some("bar".to_string()));
    assert_eq!(value(&after, "ARROW_ENV"), Some("/tmp/out.env".to_string()));
}

#[test]
fn render_replaces_dollar_names() {
    let vars = Variables::from_pairs(&vec![pair("NAME", "world"), pair("N", "1")]);
    assert_eq!(render_with(&vars, "hello $NAME"), "hello world");
    assert_eq!(render_with(&vars, "no names"), "no names");
    assert_eq!(render_with(&vars, "$N+$N"), "1+1");
}

#[test]
fn render_takes_the_variables_from_the_last_name_to_the_first() {
    let vars = Variables::from_pairs(&vec![pair("B", "x"), pair("A", "$B")]);
    assert_eq!(render_with(&vars, "$A"), "$B");
    let vars = Variables::from_pairs(&vec![pair("A", "x"), pair("B", "$A")]);
    assert_eq!(render_with(&vars, "$B"), "x");
}

#[test]
fn render_does_not_take_a_name_for_its_beginning() {
    let vars = Variables::from_pairs(&vec![pair("HOME", "/root"), pair("HOMEPAGE", "index")]);
    assert_eq!(render_with(&vars, "$HOMEPAGE in $HOME"), "index in /root");
}

#[test]
fn table_is_ordered_by_the_characters_of_the_names() {
    let names = ["b", "a", "B", "ab", "", "a0", "é", "z", "Z9", "_x"];
    let pairs: Vec<(String, String)> = names.iter().map(|n| pair(n, "v")).collect();
    let got: Vec<String> = Variables::from_pairs(&pairs).to_pairs().into_iter().map(|p| p.0).collect();
    let mut want: Vec<String> = names.iter().map(|n| n.to_string()).collect();
    want.sort();
    assert_eq!(got, want);
}

#[test]
fn table_does_not_depend_on_how_it_was_built() {
    let one = Variables::from_pairs(&vec![pair("A", "1"), pair("B", "2"), pair("C", "3")]);
    let mut two = Variables::new();
    two.insert("C".to_string(), "0".to_string());
    two.insert("B".to_string(), "2".to_string());
    two.insert("C".to_string(), "3".to_string());
    two.insert("A".to_string(), "1".to_string());
    assert_eq!(one.to_pairs(), two.to_pairs());
}

#[test]
fn scope_render_builds_then_replaces() {
    let envs = Envs::new(vec!["a.env".to_string()], vec![pair("WHO", "me")]);
    let text = envs.render(&vec![Some("WHAT=it".to_string())], "$WHO did $WHAT").unwrap();
    assert_eq!(text, "me did it");
    match envs.render(&vec![Some("not valid=".to_string())], "x") {
        Err(RunError::EnvFile { path }) => assert_eq!(path, "a.env"),
        other => panic!("unexpected: {:?}", other),
    }
}
