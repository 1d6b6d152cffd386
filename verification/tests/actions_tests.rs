use git_arrow::actions::shell::ShellAction;
use git_arrow::actions::ssh::{env_lines, SshAction};
use git_arrow::actions::webhook::{
    default_method, http_outcome, includes_partial, response_line, BodyData, HookSpec,
    WebHookAction,
};
use git_arrow::actions::{command_outcome, title_line, Action, ActionPlan, Command, IAction};
use git_arrow::envs::Envs;
use git_arrow::error::RunError;
use git_arrow::vars::Variables;

fn pair(k: &str, v: &str) -> (String, String) {
    (k.to_string(), v.to_string())
}

fn env(pairs: &[(&str, &str)]) -> Variables {
    let pairs: Vec<(String, String)> = pairs.iter().map(|(k, v)| pair(k, v)).collect();
    Variables::from_pairs(&pairs)
}

fn strings(items: &[&str]) -> Vec<String> {
    items.iter().map(|s| s.to_string()).collect()
}

fn commands(plan: Result<ActionPlan, RunError>) -> Vec<Command> {
    match plan {
        Ok(ActionPlan::Commands(commands)) => commands,
        other => panic!("unexpected: {:?}", other),
    }
}

fn hook(method: &str, url: &str) -> HookSpec {
    HookSpec {
        method: method.to_string(),
        url: url.to_string(),
        headers: vec![],
        timeout_millis: None,
        body: None,
    }
}

fn ssh(hosts: &[&str], identity: Option<&str>, args: &[&str]) -> SshAction {
    SshAction::new(
        "deploy".to_string(),
        "git".to_string(),
        identity.map(String::from),
        strings(hosts),
        strings(args),
        "echo hi\n".to_string(),
        Envs::default(),
    )
}

#[test]
fn title_names_the_action() {
    assert_eq!(title_line("build"), "### build");
    let action = ShellAction::new("build".to_string(), "make".to_string(), Envs::default());
    assert_eq!(action.title(), "### build");
}

#[test]
fn shell_action_runs_its_shell_with_the_script() {
    let action = ShellAction::new("hello".to_string(), "echo hello".to_string(), Envs::default())
        .set_shell("sh".to_string());
    let plan = commands(action.run("/work", &env(&[("B", "2"), ("A", "1")])));
    assert_eq!(plan.len(), 1);
    assert_eq!(plan[0].program, "sh");
    assert_eq!(plan[0].args, strings(&["-c", "echo hello"]));
    assert_eq!(plan[0].env, vec![pair("A", "1"), pair("B", "2")]);
    assert_eq!(plan[0].cwd, "/work");
    assert_eq!(plan[0].stdin, None);
}

#[test]
fn set_shell_leaves_the_action_unchanged() {
    let action = ShellAction::new("a".to_string(), "true".to_string(), Envs::default());
    let bash = action.set_shell("bash".to_string());
    assert_eq!(commands(bash.run("/w", &env(&[])))[0].program, "bash");
    assert_eq!(commands(action.run("/w", &env(&[])))[0].program, "");
}

#[test]
fn action_kind_chooses_the_shell() {
    let shell = Action::Shell(ShellAction::new("a".to_string(), "true".to_string(), Envs::default()));
    let bash = Action::Bash(ShellAction::new("b".to_string(), "true".to_string(), Envs::default()));
    assert_eq!(commands(shell.run("/w", &env(&[])))[0].program, "sh");
    assert_eq!(commands(bash.run("/w", &env(&[])))[0].program, "bash");
    assert_eq!(shell.title(), "### a");
    assert_eq!(bash.title(), "### b");
}

#[test]
fn action_scope_inherits_with_the_action_winning() {
    let own = Envs::new(strings(&["own.env"]), vec![pair("K", "own")]);
    let action = Action::Shell(ShellAction::new("a".to_string(), "true".to_string(), own));
    let parent = Envs::new(strings(&["parent.env"]), vec![pair("K", "parent"), pair("P", "p")]);
    let scope = action.scope(&parent);
    assert_eq!(scope.files(), strings(&["parent.env", "own.env"]));
    assert_eq!(scope.variables().to_pairs(), vec![pair("K", "own"), pair("P", "p")]);
}

#[test]
fn command_outcome_by_exit_code() {
    assert!(command_outcome(Some(0)).is_ok());
    match command_outcome(Some(3)) {
        Err(e) => {
            assert!(matches!(e, RunError::CommandFailed { code: Some(3) }));
            assert_eq!(e.message(), "Command failed with exit code 3");
        }
        Ok(_) => panic!("exit code 3 is no success"),
    }
    match command_outcome(Some(-1)) {
        Err(e) => assert_eq!(e.message(), "Command failed with exit code -1"),
        Ok(_) => panic!("exit code -1 is no success"),
    }
    match command_outcome(None) {
        Err(e) => {
            assert!(matches!(e, RunError::CommandFailed { code: None }));
            assert_eq!(e.message(), "Command failed without exit code");
        }
        Ok(_) => panic!("no exit code is no success"),
    }
}

#[test]
fn env_lines_are_shell_assignments() {
    assert_eq!(env_lines(&env(&[("B", "two words"), ("A", "1")])), "A='1'\nB='two words'");
    assert_eq!(env_lines(&env(&[("A", "1")])), "A='1'");
    assert_eq!(env_lines(&env(&[])), "");
}

#[test]
fn ssh_host_with_default_port() {
    let command = ssh(&[], None, &[]).run_on_host("example.org", "A='1'", "/w");
    assert_eq!(command.program, "ssh");
    assert_eq!(command.args, strings(&["-p", "22", "git@example.org", "sh -s"]));
    assert_eq!(command.stdin, Some("A='1'\necho hi\nexit\n".to_string()));
    assert!(command.env.is_empty());
    assert_eq!(command.cwd, "/w");
}

#[test]
fn ssh_host_with_port() {
    let command = ssh(&[], None, &[]).run_on_host("example.org:2222", "", "/w");
    assert_eq!(command.args, strings(&["-p", "2222", "git@example.org", "sh -s"]));
    let command = ssh(&[], None, &[]).run_on_host("h:1:2", "", "/w");
    assert_eq!(command.args, strings(&["-p", "1:2", "git@h", "sh -s"]));
    let command = ssh(&[], None, &[]).run_on_host("h:", "", "/w");
    assert_eq!(command.args, strings(&["-p", "", "git@h", "sh -s"]));
}

#[test]
fn ssh_identity_file_and_arguments_come_first() {
    let command = ssh(&[], Some("/keys/id"), &["-o", "BatchMode=yes"]).run_on_host("h", "", "/w");
    assert_eq!(
        command.args,
        strings(&["-i", "/keys/id", "-o", "BatchMode=yes", "-p", "22", "git@h", "sh -s"])
    );
}

#[test]
fn ssh_input_is_environment_script_and_exit() {
    let action = SshAction::new(
        "deploy".to_string(),
        "git".to_string(),
        None,
        strings(&["h"]),
        vec![],
        "make install".to_string(),
        Envs::default(),
    );
    let plan = commands(action.run("/w", &env(&[("A", "1"), ("B", "2")])));
    assert_eq!(plan[0].stdin, Some("A='1'\nB='2'\nmake installexit\n".to_string()));
}

#[test]
fn ssh_hosts_are_taken_in_order() {
    let plan = commands(ssh(&["one", "two:23", "three"], None, &[]).run("/w", &env(&[("A", "1")])));
    assert_eq!(plan.len(), 3);
    assert_eq!(plan[0].args[2], "git@one");
    assert_eq!(plan[1].args[2], "git@two");
    assert_eq!(plan[1].args[1], "23");
    assert_eq!(plan[2].args[2], "git@three");
    for command in &plan {
        assert_eq!(command.stdin, Some("A='1'\necho hi\nexit\n".to_string()));
    }
    assert!(commands(ssh(&[], None, &[]).run("/w", &env(&[]))).is_empty());
}

#[test]
fn default_method_is_post() {
    assert_eq!(default_method(), "POST");
}

#[test]
fn webhook_renders_the_address() {
    let request = hook("POST", "https://x/{{env}}").request(&env(&[("env", "prod")])).unwrap();
    assert_eq!(request.url, "https://x/prod");
    assert_eq!(request.method, "POST");
    assert_eq!(request.body, None);
    assert_eq!(request.timeout_millis, 10_000);
    assert_eq!(request.headers, vec![pair("User-Agent", "git-arrow/0.1.0")]);
}

#[test]
fn webhook_method_is_rendered_and_upper_cased() {
    let request = hook("{{m}}", "http://h/").request(&env(&[("m", "put")])).unwrap();
    assert_eq!(request.method, "PUT");
    let request = hook("get", "http://h/").request(&env(&[])).unwrap();
    assert_eq!(request.method, "GET");
}

#[test]
fn webhook_headers_are_rendered_in_order() {
    let mut spec = hook("POST", "http://h/");
    spec.headers = vec![pair("X-Branch", "{{branch}}"), pair("X-Fixed", "1")];
    spec.timeout_millis = Some(2500);
    let request = spec.request(&env(&[("branch", "main")])).unwrap();
    assert_eq!(
        request.headers,
        vec![pair("User-Agent", "git-arrow/0.1.0"), pair("X-Branch", "main"), pair("X-Fixed", "1")]
    );
    assert_eq!(request.timeout_millis, 2500);
}

#[test]
fn webhook_form_body_is_url_encoded_then_rendered() {
    let mut spec = hook("POST", "http://h/");
    spec.body = Some(BodyData::FormData(vec![pair("a", "1 2"), pair("b", "x&y")]));
    let request = spec.request(&env(&[])).unwrap();
    assert_eq!(request.body, Some("a=1+2&b=x%26y".to_string()));
    assert_eq!(
        request.headers,
        vec![
            pair("User-Agent", "git-arrow/0.1.0"),
            pair("Content-Type", "application/x-www-form-urlencoded")
        ]
    );
}

#[test]
fn webhook_json_body_is_rendered() {
    let mut spec = hook("POST", "http://h/");
    spec.body = Some(BodyData::JsonData("{\"ref\":\"{{branch}}\"}".to_string()));
    let request = spec.request(&env(&[("branch", "main")])).unwrap();
    assert_eq!(request.body, Some("{\"ref\":\"main\"}".to_string()));
    assert_eq!(request.headers[1], pair("Content-Type", "application/json"));
}

#[test]
fn webhook_render_env_keeps_the_method_as_written() {
    let done = hook("post", "http://{{host}}/").render_env(&env(&[("host", "h")])).unwrap();
    assert_eq!(done.method, "post");
    assert_eq!(done.url, "http://h/");
    assert!(done.headers.is_empty());
    assert_eq!(done.body, None);
}

#[test]
fn webhook_with_a_broken_template_fails() {
    match hook("POST", "http://h/{{#if}}").request(&env(&[])) {
        Err(RunError::Template { template }) => assert_eq!(template, "http://h/{{#if}}"),
        other => panic!("unexpected: {:?}", other),
    }
    let mut spec = hook("POST", "http://h/");
    spec.headers = vec![pair("A", "ok"), pair("B", "{{#each}}"), pair("C", "{{/if}}")];
    match spec.request(&env(&[])) {
        Err(e) => {
            assert!(matches!(e, RunError::Template { .. }));
            assert_eq!(e.message(), "Failed to render template {{#each}}");
        }
        Ok(_) => panic!("a broken header template was accepted"),
    }
}

#[test]
fn partial_tags_are_found() {
    assert!(includes_partial("{{> a}}"));
    assert!(includes_partial("{{>a}}"));
    assert!(includes_partial("x {{~ > a}} y"));
    assert!(includes_partial("{{#> layout}}body{{/layout}}"));
    assert!(includes_partial("{{ # \t> layout}}"));
    assert!(includes_partial("{{#*inline \"a\"}}{{> a}}{{/inline}}{{> a}}"));
    assert!(includes_partial("{{x}}{{\n>\n a }}"));
    assert!(includes_partial("{{>"));
}

#[test]
fn other_tags_are_no_partial_tags() {
    assert!(!includes_partial(""));
    assert!(!includes_partial("https://x/{{env}}"));
    assert!(!includes_partial("{{#if a}}>{{/if}}"));
    assert!(!includes_partial("{{a}} > {{b}}"));
    assert!(!includes_partial("{ {> a}}"));
    assert!(!includes_partial("{{gt a b}}"));
    assert!(!includes_partial("{{#*inline \"a\"}}x{{/inline}}"));
    assert!(!includes_partial("{{"));
    assert!(!includes_partial("{{ ~#"));
    assert!(!includes_partial("{{x> a}}"));
}

#[test]
fn webhook_with_a_partial_is_refused_before_it_is_rendered() {
    let looping = "{{#*inline \"a\"}}{{> a}}{{/inline}}{{> a}}";
    match hook("POST", looping).request(&env(&[])) {
        Err(RunError::Template { template }) => assert_eq!(template, looping),
        other => panic!("unexpected: {:?}", other),
    }
    let mut spec = hook("POST", "http://h/");
    spec.headers = vec![pair("A", "{{#> b}}x{{/b}}")];
    assert!(matches!(spec.request(&env(&[])), Err(RunError::Template { .. })));
    let mut spec = hook("POST", "http://h/");
    spec.body = Some(BodyData::JsonData("{\"a\":\"{{> a}}\"}".to_string()));
    assert!(matches!(spec.request(&env(&[])), Err(RunError::Template { .. })));
    assert!(matches!(hook("{{>m}}", "http://h/").request(&env(&[])), Err(RunError::Template { .. })));
}

#[test]
fn webhook_action_plans_one_request() {
    let action = WebHookAction::new(
        "notify".to_string(),
        hook("POST", "https://x/{{env}}"),
        Envs::default(),
    );
    assert_eq!(action.title(), "### notify");
    match action.run("/w", &env(&[("env", "prod")])) {
        Ok(ActionPlan::Http(request)) => assert_eq!(request.url, "https://x/prod"),
        other => panic!("unexpected: {:?}", other),
    }
}

#[test]
fn http_status_from_400_on_is_a_failure() {
    assert!(http_outcome(200, "ok".to_string()).is_ok());
    assert!(http_outcome(302, "".to_string()).is_ok());
    assert!(http_outcome(399, "".to_string()).is_ok());
    for status in [400u16, 404, 500] {
        match http_outcome(status, "boom".to_string()) {
            Err(RunError::Http { status: got, body }) => {
                assert_eq!(got, Some(status));
                assert_eq!(body, "boom");
            }
            other => panic!("unexpected: {:?}", other),
        }
    }
    let e = http_outcome(500, "boom".to_string()).unwrap_err();
    assert_eq!(e.message(), "500: boom");
}

#[test]
fn response_line_has_status_time_and_body() {
    assert_eq!(response_line(200, 12, "ok"), "  200 (12ms): ok");
    assert_eq!(response_line(500, 61_000, "boom"), "  500 (1m1s): boom");
}

#[test]
fn failure_copies_say_the_same() {
    let e = RunError::Http { status: None, body: "timed out".to_string() };
    assert_eq!(e.message(), "Request failed: timed out");
    assert_eq!(e.duplicate().message(), e.message());
    assert_eq!(RunError::Protocol.message(), "Unexpected report from the driver");
    assert_eq!(
        RunError::Workspace { path: "/w".to_string() }.message(),
        "Failed to checkout and update work dir at /w"
    );
    assert_eq!(
        RunError::DefinitionParse { detail: "a.yml".to_string() }.message(),
        "Failed to parse pipeline file a.yml"
    );
    assert_eq!(
        RunError::Diff { command: "git diff".to_string() }.message(),
        "Command error: git diff"
    );
    assert_eq!(
        RunError::EnvFile { path: "a.env".to_string() }.message(),
        "Failed to read env file a.env"
    );
}
