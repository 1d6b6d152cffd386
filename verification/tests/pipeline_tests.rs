use git_arrow::actions::shell::ShellAction;
use git_arrow::actions::ssh::SshAction;
use git_arrow::actions::webhook::{HookSpec, WebHookAction};
use git_arrow::actions::Action;
use git_arrow::envs::Envs;
use git_arrow::error::RunError;
use git_arrow::pipeline::{Event, Phase, Pipeline, Pipelines, Step};
use git_arrow::repo::{parse_hook_input, Context, HookProbe, WorkspaceMode};
use git_arrow::trigger::WhenSpec;

fn pair(k: &str, v: &str) -> (String, String) {
    (k.to_string(), v.to_string())
}

fn strings(items: &[&str]) -> Vec<String> {
    items.iter().map(|s| s.to_string()).collect()
}

fn context(diff: &str) -> Context {
    let input = parse_hook_input("aaa111 bbb222 refs/heads/main").unwrap();
    Context::resolve_on_hook(
        input.refname,
        input.old_rev,
        input.new_rev,
        HookProbe {
            git_dir: Some("/srv/git/app.git".to_string()),
            diff_output: Some(diff.to_string()),
            worktree_capable: true,
        },
    )
    .unwrap()
}

fn shell(name: &str, script: &str) -> Action {
    Action::Shell(ShellAction::new(name.to_string(), script.to_string(), Envs::default()))
}

fn webhook(name: &str, url: &str) -> Action {
    Action::WebHook(WebHookAction::new(
        name.to_string(),
        HookSpec {
            method: "POST".to_string(),
            url: url.to_string(),
            headers: vec![],
            timeout_millis: None,
            body: None,
        },
        Envs::default(),
    ))
}

fn pipeline(name: &str, branch: &[&str], changes: &[&str], envs: Envs, actions: Vec<Action>) -> Pipeline {
    Pipeline::new(name.to_string(), WhenSpec::new(strings(branch), strings(changes)), envs, actions)
}

/// Starts a run and takes it to the point where the pipelines are loaded.
fn loaded(ctx: Context, pipelines: Vec<Pipeline>) -> (Pipelines, Step) {
    let run = Pipelines::new(ctx);
    assert_eq!(run.phase(), Phase::Idle);
    let (run, step) = run.run(Event::Start);
    assert!(matches!(step, Step::Acquire(_)));
    assert_eq!(run.phase(), Phase::CheckingOut);
    let (run, step) = run.run(Event::Acquired { ok: true });
    match step {
        Step::LoadPipelines { dir } => assert_eq!(dir, ".arrow"),
        other => panic!("unexpected: {:?}", other),
    }
    run.run(Event::Loaded { pipelines })
}

fn expect_release(step: &Step) {
    match step {
        Step::Release(steps) => assert_eq!(steps.len(), 2),
        other => panic!("unexpected: {:?}", other),
    }
}

#[test]
fn push_to_main_runs_one_shell_action() {
    let ctx = context("README.md\n");
    let run = Pipelines::new(ctx);
    let (run, step) = run.run(Event::Start);
    match step {
        Step::Acquire(worktree) => {
            assert_eq!(worktree.branch, "main");
            assert_eq!(worktree.path, "/tmp/arrow-workspace/app-main");
            assert_eq!(worktree.mode, WorkspaceMode::Worktree);
        }
        other => panic!("unexpected: {:?}", other),
    }
    let (run, _) = run.run(Event::Acquired { ok: true });
    let hello = pipeline("hello", &["main"], &[], Envs::default(), vec![shell("say", "echo hello")]);
    let (run, step) = run.run(Event::Loaded { pipelines: vec![hello] });
    match step {
        Step::OpenChannel { pipeline } => assert_eq!(pipeline, "hello"),
        other => panic!("unexpected: {:?}", other),
    }
    let (run, step) = run.run(Event::ChannelOpened { path: "/tmp/arrow-1.env".to_string() });
    match step {
        Step::ReadEnvFiles { title, files } => {
            assert_eq!(title, "### say");
            assert_eq!(files, strings(&["/tmp/arrow-1.env"]));
        }
        other => panic!("unexpected: {:?}", other),
    }
    let (run, step) = run.run(Event::EnvFilesRead { contents: vec![Some(String::new())] });
    match step {
        Step::Spawn(command) => {
            assert_eq!(command.program, "sh");
            assert_eq!(command.args, strings(&["-c", "echo hello"]));
            assert_eq!(command.env, vec![pair("ARROW_ENV", "/tmp/arrow-1.env")]);
            assert_eq!(command.cwd, "/tmp/arrow-workspace/app-main");
        }
        other => panic!("unexpected: {:?}", other),
    }
    assert_eq!(run.phase(), Phase::Spawning);
    let (run, step) = run.run(Event::Exited { code: Some(0) });
    match &step {
        Step::Release(steps) => {
            assert_eq!(steps.len(), 2);
            assert!(format!("{:?}", steps[1]).contains("git worktree remove --force /tmp/arrow-workspace/app-main"));
        }
        other => panic!("unexpected: {:?}", other),
    }
    assert_eq!(run.phase(), Phase::Releasing);
    let (run, step) = run.run(Event::Released { ok: true });
    assert!(matches!(step, Step::Done(None)));
    assert!(run.is_finished());
}

#[test]
fn pipeline_for_other_files_does_not_run() {
    let go = pipeline("go", &["main"], &["src/*.go"], Envs::default(), vec![shell("x", "true")]);
    let (run, step) = loaded(context("README.md\n"), vec![go]);
    expect_release(&step);
    let (_, step) = run.run(Event::Released { ok: true });
    assert!(matches!(step, Step::Done(None)));
}

#[test]
fn pipeline_for_changed_files_runs() {
    let go = pipeline("go", &["main"], &["src/*.go"], Envs::default(), vec![shell("x", "true")]);
    let (_, step) = loaded(context("README.md\nsrc/main.go\n"), vec![go]);
    assert!(matches!(step, Step::OpenChannel { .. }));
}

#[test]
fn failing_webhook_aborts_the_run() {
    let notify = pipeline(
        "notify",
        &["main"],
        &[],
        Envs::from_vars(vec![pair("env", "prod")]),
        vec![webhook("call", "https://x/{{env}}"), shell("never", "true")],
    );
    let later = pipeline("later", &["*"], &[], Envs::default(), vec![shell("never", "true")]);
    let (run, _) = loaded(context(""), vec![notify, later]);
    let (run, _) = run.run(Event::ChannelOpened { path: "/tmp/o.env".to_string() });
    let (run, step) = run.run(Event::EnvFilesRead { contents: vec![None] });
    match step {
        Step::Send(request) => {
            assert_eq!(request.url, "https://x/prod");
            assert_eq!(request.method, "POST");
        }
        other => panic!("unexpected: {:?}", other),
    }
    assert_eq!(run.phase(), Phase::Sending);
    let (run, step) = run.run(Event::Answered { status: 500, body: "boom".to_string() });
    expect_release(&step);
    let (run, step) = run.run(Event::Released { ok: true });
    match step {
        Step::Done(Some(RunError::Http { status, body })) => {
            assert_eq!(status, Some(500));
            assert_eq!(body, "boom");
        }
        other => panic!("unexpected: {:?}", other),
    }
    assert!(run.is_finished());
}

#[test]
fn answered_webhook_goes_on_to_the_next_action() {
    let notify = pipeline(
        "notify",
        &["*"],
        &[],
        Envs::default(),
        vec![webhook("call", "https://x/"), shell("after", "true")],
    );
    let (run, _) = loaded(context(""), vec![notify]);
    let (run, _) = run.run(Event::ChannelOpened { path: "/tmp/o.env".to_string() });
    let (run, _) = run.run(Event::EnvFilesRead { contents: vec![None] });
    let (_, step) = run.run(Event::Answered { status: 204, body: String::new() });
    match step {
        Step::ReadEnvFiles { title, .. } => assert_eq!(title, "### after"),
        other => panic!("unexpected: {:?}", other),
    }
}

#[test]
fn unanswered_webhook_aborts_the_run() {
    let notify = pipeline("notify", &["*"], &[], Envs::default(), vec![webhook("call", "https://x/")]);
    let (run, _) = loaded(context(""), vec![notify]);
    let (run, _) = run.run(Event::ChannelOpened { path: "/tmp/o.env".to_string() });
    let (run, _) = run.run(Event::EnvFilesRead { contents: vec![None] });
    let (run, step) = run.run(Event::NotAnswered { detail: "timed out".to_string() });
    expect_release(&step);
    let (_, step) = run.run(Event::Released { ok: true });
    match step {
        Step::Done(Some(RunError::Http { status, body })) => {
            assert_eq!(status, None);
            assert_eq!(body, "timed out");
        }
        other => panic!("unexpected: {:?}", other),
    }
}

/// Drives a run over two pipelines of two shell actions each with exit
/// codes taken from `codes`, and counts what the run asks for.
fn drive(codes: &[i32]) -> (usize, usize, usize, Option<RunError>) {
    let one = pipeline("one", &["*"], &[], Envs::default(), vec![shell("a", "1"), shell("b", "2")]);
    let two = pipeline("two", &["*"], &[], Envs::default(), vec![shell("c", "3"), shell("d", "4")]);
    let mut acquired = 0;
    let mut released = 0;
    let mut spawned = 0;
    let mut state = Pipelines::new(context("")).run(Event::Start);
    for _ in 0..100 {
        let (run, step) = state;
        let event = match step {
            Step::Acquire(_) => {
                acquired += 1;
                Event::Acquired { ok: true }
            }
            Step::LoadPipelines { .. } => Event::Loaded {
                pipelines: vec![
                    pipeline("one", &["*"], &[], Envs::default(), vec![shell("a", "1"), shell("b", "2")]),
                    pipeline("two", &["*"], &[], Envs::default(), vec![shell("c", "3"), shell("d", "4")]),
                ],
            },
            Step::OpenChannel { .. } => Event::ChannelOpened { path: "/tmp/o.env".to_string() },
            Step::ReadEnvFiles { files, .. } => Event::EnvFilesRead { contents: files.iter().map(|_| None).collect() },
            Step::Spawn(_) => {
                spawned += 1;
                Event::Exited { code: Some(codes[spawned - 1]) }
            }
            Step::Send(_) => Event::Answered { status: 200, body: String::new() },
            Step::Release(_) => {
                released += 1;
                Event::Released { ok: true }
            }
            Step::Done(failure) => {
                assert!(run.is_finished());
                let _ = (one, two);
                return (acquired, released, spawned, failure);
            }
        };
        state = run.run(event);
    }
    panic!("the run did not end");
}

#[test]
fn all_actions_run_in_order_and_the_workspace_is_released_once() {
    let (acquired, released, spawned, failure) = drive(&[0, 0, 0, 0]);
    assert_eq!((acquired, released, spawned), (1, 1, 4));
    assert!(failure.is_none());
}

#[test]
fn first_failure_ends_the_whole_run_and_the_workspace_is_released_once() {
    let (acquired, released, spawned, failure) = drive(&[0, 7, 0, 0]);
    assert_eq!((acquired, released, spawned), (1, 1, 2));
    assert!(matches!(failure, Some(RunError::CommandFailed { code: Some(7) })));
    let (acquired, released, spawned, failure) = drive(&[1, 0, 0, 0]);
    assert_eq!((acquired, released, spawned), (1, 1, 1));
    assert!(matches!(failure, Some(RunError::CommandFailed { code: Some(1) })));
}

#[test]
fn actions_are_planned_in_declaration_order() {
    let p = pipeline("p", &["*"], &[], Envs::default(), vec![shell("a", "first"), shell("b", "second")]);
    let (run, _) = loaded(context(""), vec![p]);
    let (run, _) = run.run(Event::ChannelOpened { path: "/tmp/o.env".to_string() });
    let (run, step) = run.run(Event::EnvFilesRead { contents: vec![None] });
    match step {
        Step::Spawn(command) => assert_eq!(command.args[1], "first"),
        other => panic!("unexpected: {:?}", other),
    }
    let (run, _) = run.run(Event::Exited { code: Some(0) });
    let (_, step) = run.run(Event::EnvFilesRead { contents: vec![None] });
    match step {
        Step::Spawn(command) => assert_eq!(command.args[1], "second"),
        other => panic!("unexpected: {:?}", other),
    }
}

#[test]
fn failed_checkout_ends_the_run_without_release() {
    let run = Pipelines::new(context(""));
    let (run, _) = run.run(Event::Start);
    let (run, step) = run.run(Event::Acquired { ok: false });
    match step {
        Step::Done(Some(RunError::Workspace { path })) => {
            assert_eq!(path, "/tmp/arrow-workspace/app-main")
        }
        other => panic!("unexpected: {:?}", other),
    }
    assert!(run.is_finished());
    let (run, step) = run.run(Event::Released { ok: true });
    assert!(matches!(step, Step::Done(Some(RunError::Workspace { .. }))));
    assert!(run.is_finished());
}

#[test]
fn no_pipelines_means_release_and_success() {
    let (run, step) = loaded(context(""), vec![]);
    expect_release(&step);
    let (_, step) = run.run(Event::Released { ok: true });
    assert!(matches!(step, Step::Done(None)));
}

#[test]
fn unreadable_definitions_fail_the_run_after_release() {
    let run = Pipelines::new(context(""));
    let (run, _) = run.run(Event::Start);
    let (run, _) = run.run(Event::Acquired { ok: true });
    let (run, step) = run.run(Event::LoadFailed { detail: ".arrow/a.yml".to_string() });
    expect_release(&step);
    let (_, step) = run.run(Event::Released { ok: true });
    match step {
        Step::Done(Some(RunError::DefinitionParse { detail })) => assert_eq!(detail, ".arrow/a.yml"),
        other => panic!("unexpected: {:?}", other),
    }
}

#[test]
fn failed_release_is_reported_when_nothing_else_failed() {
    let (run, _) = loaded(context(""), vec![]);
    let (_, step) = run.run(Event::Released { ok: false });
    assert!(matches!(step, Step::Done(Some(RunError::Workspace { .. }))));
}

#[test]
fn failed_release_does_not_mask_an_action_failure() {
    let p = pipeline("p", &["*"], &[], Envs::default(), vec![shell("a", "false")]);
    let (run, _) = loaded(context(""), vec![p]);
    let (run, _) = run.run(Event::ChannelOpened { path: "/tmp/o.env".to_string() });
    let (run, _) = run.run(Event::EnvFilesRead { contents: vec![None] });
    let (run, step) = run.run(Event::Exited { code: Some(2) });
    expect_release(&step);
    let (_, step) = run.run(Event::Released { ok: false });
    assert!(matches!(step, Step::Done(Some(RunError::CommandFailed { code: Some(2) }))));
}

#[test]
fn pipelines_that_do_not_match_are_passed_over() {
    let dev = pipeline("dev", &["dev"], &[], Envs::default(), vec![shell("a", "true")]);
    let main = pipeline("main", &["main"], &[], Envs::default(), vec![shell("b", "true")]);
    let (_, step) = loaded(context(""), vec![dev, main]);
    match step {
        Step::OpenChannel { pipeline } => assert_eq!(pipeline, "main"),
        other => panic!("unexpected: {:?}", other),
    }
}

#[test]
fn pipeline_without_actions_is_followed_by_the_next() {
    let empty = pipeline("empty", &["*"], &[], Envs::default(), vec![]);
    let next = pipeline("next", &["*"], &[], Envs::default(), vec![shell("b", "true")]);
    let (run, step) = loaded(context(""), vec![empty, next]);
    assert!(matches!(step, Step::OpenChannel { .. }));
    let (_, step) = run.run(Event::ChannelOpened { path: "/tmp/1.env".to_string() });
    match step {
        Step::OpenChannel { pipeline } => assert_eq!(pipeline, "next"),
        other => panic!("unexpected: {:?}", other),
    }
}

#[test]
fn malformed_pattern_fails_the_run() {
    let bad = pipeline("bad", &["*"], &["a**b"], Envs::default(), vec![shell("a", "true")]);
    let (run, step) = loaded(context("x\n"), vec![bad]);
    expect_release(&step);
    let (_, step) = run.run(Event::Released { ok: true });
    match step {
        Step::Done(Some(RunError::DefinitionParse { detail })) => assert_eq!(detail, "bad"),
        other => panic!("unexpected: {:?}", other),
    }
}

#[test]
fn output_of_one_action_reaches_the_next_action_of_the_pipeline() {
    let p = pipeline("p", &["*"], &[], Envs::default(), vec![shell("a", "echo FOO=bar >> $ARROW_ENV"), shell("b", "echo $FOO")]);
    let q = pipeline("q", &["*"], &[], Envs::default(), vec![shell("c", "echo $FOO")]);
    let (run, _) = loaded(context(""), vec![p, q]);
    let (run, _) = run.run(Event::ChannelOpened { path: "/tmp/p.env".to_string() });
    let (run, step) = run.run(Event::EnvFilesRead { contents: vec![Some(String::new())] });
    match step {
        Step::Spawn(command) => assert_eq!(command.env, vec![pair("ARROW_ENV", "/tmp/p.env")]),
        other => panic!("unexpected: {:?}", other),
    }
    let (run, step) = run.run(Event::Exited { code: Some(0) });
    match step {
        Step::ReadEnvFiles { files, .. } => assert_eq!(files, strings(&["/tmp/p.env"])),
        other => panic!("unexpected: {:?}", other),
    }
    let (run, step) = run.run(Event::EnvFilesRead { contents: vec![Some("FOO=bar\n".to_string())] });
    match step {
        Step::Spawn(command) => {
            assert_eq!(command.env, vec![pair("ARROW_ENV", "/tmp/p.env"), pair("FOO", "bar")])
        }
        other => panic!("unexpected: {:?}", other),
    }
    let (run, step) = run.run(Event::Exited { code: Some(0) });
    match step {
        Step::OpenChannel { pipeline } => assert_eq!(pipeline, "q"),
        other => panic!("unexpected: {:?}", other),
    }
    let (run, step) = run.run(Event::ChannelOpened { path: "/tmp/q.env".to_string() });
    match step {
        Step::ReadEnvFiles { files, .. } => assert_eq!(files, strings(&["/tmp/q.env"])),
        other => panic!("unexpected: {:?}", other),
    }
    let (_, step) = run.run(Event::EnvFilesRead { contents: vec![Some(String::new())] });
    match step {
        Step::Spawn(command) => assert_eq!(command.env, vec![pair("ARROW_ENV", "/tmp/q.env")]),
        other => panic!("unexpected: {:?}", other),
    }
}

#[test]
fn malformed_environment_file_fails_the_run() {
    let envs = Envs::new(strings(&["deploy.env"]), vec![]);
    let p = pipeline("p", &["*"], &[], envs, vec![shell("a", "true")]);
    let (run, _) = loaded(context(""), vec![p]);
    let (run, step) = run.run(Event::ChannelOpened { path: "/tmp/o.env".to_string() });
    match step {
        Step::ReadEnvFiles { files, .. } => assert_eq!(files, strings(&["deploy.env", "/tmp/o.env"])),
        other => panic!("unexpected: {:?}", other),
    }
    let (run, step) = run.run(Event::EnvFilesRead { contents: vec![Some("not a file=".to_string()), None] });
    expect_release(&step);
    let (_, step) = run.run(Event::Released { ok: true });
    match step {
        Step::Done(Some(RunError::EnvFile { path })) => assert_eq!(path, "deploy.env"),
        other => panic!("unexpected: {:?}", other),
    }
}

#[test]
fn ssh_hosts_are_run_one_after_the_other_and_fail_fast() {
    let ssh = |hosts: &[&str]| {
        Action::Ssh(SshAction::new(
            "deploy".to_string(),
            "git".to_string(),
            None,
            strings(hosts),
            vec![],
            "true\n".to_string(),
            Envs::default(),
        ))
    };
    let p = pipeline("p", &["*"], &[], Envs::default(), vec![ssh(&["one", "two", "three"]), shell("after", "true")]);
    let (run, _) = loaded(context(""), vec![p]);
    let (run, _) = run.run(Event::ChannelOpened { path: "/tmp/o.env".to_string() });
    let (run, step) = run.run(Event::EnvFilesRead { contents: vec![None] });
    match step {
        Step::Spawn(command) => {
            assert_eq!(command.program, "ssh");
            assert_eq!(command.args[2], "git@one");
        }
        other => panic!("unexpected: {:?}", other),
    }
    let (run, step) = run.run(Event::Exited { code: Some(0) });
    match step {
        Step::Spawn(command) => assert_eq!(command.args[2], "git@two"),
        other => panic!("unexpected: {:?}", other),
    }
    let (run, step) = run.run(Event::Exited { code: Some(255) });
    expect_release(&step);
    let (_, step) = run.run(Event::Released { ok: true });
    assert!(matches!(step, Step::Done(Some(RunError::CommandFailed { code: Some(255) }))));
}

#[test]
fn channel_that_cannot_be_opened_fails_the_run() {
    let p = pipeline("p", &["*"], &[], Envs::default(), vec![shell("a", "true")]);
    let (run, _) = loaded(context(""), vec![p]);
    let (run, step) = run.run(Event::ChannelFailed { detail: "no space left".to_string() });
    expect_release(&step);
    let (_, step) = run.run(Event::Released { ok: true });
    match step {
        Step::Done(Some(e)) => {
            assert!(matches!(e, RunError::Channel { .. }));
            assert_eq!(e.message(), "Failed to create output env file: no space left");
        }
        other => panic!("unexpected: {:?}", other),
    }
}

#[test]
fn unexpected_report_while_holding_the_workspace_releases_it() {
    let p = pipeline("p", &["*"], &[], Envs::default(), vec![shell("a", "true")]);
    let (run, _) = loaded(context(""), vec![p]);
    let (run, step) = run.run(Event::Start);
    expect_release(&step);
    let (run, step) = run.run(Event::Released { ok: true });
    assert!(matches!(step, Step::Done(Some(RunError::Protocol))));
    let (run, step) = run.run(Event::Start);
    assert!(matches!(step, Step::Done(Some(RunError::Protocol))));
    assert!(run.is_finished());
}

#[test]
fn unexpected_report_before_the_start_ends_the_run() {
    let run = Pipelines::new(context(""));
    let (run, step) = run.run(Event::Exited { code: Some(0) });
    assert!(matches!(step, Step::Done(Some(RunError::Protocol))));
    assert!(run.is_finished());
}

#[test]
fn pipeline_should_run_decides_by_trigger() {
    let ctx = context("README.md\n");
    let go = pipeline("go", &["main"], &["src/*.go"], Envs::default(), vec![]);
    let md = pipeline("md", &["main"], &["*.md"], Envs::default(), vec![]);
    let bad = pipeline("bad", &["main"], &["[x"], Envs::default(), vec![]);
    assert_eq!(go.should_run(&ctx), Some(false));
    assert_eq!(md.should_run(&ctx), Some(true));
    assert_eq!(bad.should_run(&ctx), None);
}
