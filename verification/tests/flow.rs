//! Whole commands, from their words to what they print.

use karvex::cli::plans::WorkflowEnv;
use karvex::cli::sessions::{
    parse_terminal_dimension, print_session_table, session_deleted, session_stopped, SessionInfo,
};
use karvex::cli::settings::{
    channel_written, check_channel_config, config_check, self_update_done, Channel,
    ChannelSetInstallAction,
};
use karvex::cli::steps::{NodeCompleteEnv, Pending, Reading, Step};
use karvex::cli::tasks::{Task, TerminalSessionOptions};
use karvex::cli::workflow::{
    resume_file, resume_hook, resume_reply, resume_unreachable, run_workflow_command, HookInput,
};
use karvex::cli::{maybe_run, Dispatch};
use karvex::console::Console;
use karvex::documents::{check_toml, read_reply, Reply};
use karvex::json::Json;
use karvex::wire::{Method, WorkflowDefinitionFormat};

fn args(words: &str) -> Vec<String> {
    words.split(' ').map(str::to_string).collect()
}

fn env() -> WorkflowEnv {
    WorkflowEnv {
        run_id: Some("run-1".to_string()),
        node_path: Some("plan".to_string()),
        node_dir: Some("/tmp/node".to_string()),
        node_token: Some("tok".to_string()),
        review_run_id: Some("run-1".to_string()),
        review_member: Some("scout".to_string()),
        pane_id: Some(" w1:p2 ".to_string()),
        messaging_socket: Some("  ".to_string()),
        messaging_token: None,
        agent_name: "Agent".to_string(),
        windows: false,
    }
}

fn reply(text: &str) -> Reply {
    read_reply(text).expect("a reply")
}

fn begin(words: &str, console: &mut Console) -> Step {
    run_workflow_command(&args(words), &env(), console)
}

fn pending(step: Step) -> (String, Method, Pending) {
    match step {
        Step::Send { id, method, then } => (id, method, then),
        other => panic!("a request: {other:?}"),
    }
}

fn workflow(words: &[&str], replies: &[&str]) -> (Step, Console) {
    let mut console = Console::new();
    let mut step = run_workflow_command(
        &words.iter().map(|word| word.to_string()).collect::<Vec<String>>(),
        &env(),
        &mut console,
    );
    for text in replies {
        let (_, _, then) = pending(step);
        step = resume_reply(then, reply(text), &mut console);
    }
    (step, console)
}

const WORKFLOW: &str = r#"{"id":"1","result":{"workflow":{"workflow_id":"workflow:1",
    "name":"ship","description":"ships it","default_tier":"low","head_version":3,
    "head_version_id":"kvdag_version:3"},"versions":[]}}"#;

const VERSION: &str = r#"{"id":"1","result":{"version":{"args":[{"name":"goal"}],
    "nodes":[],"edges":[]}}}"#;

#[test]
fn a_run_starts_only_with_arguments_that_are_declared() {
    let (step, console) = workflow(
        &["run", "start", "ship", "--arg", "goal=x"],
        &[WORKFLOW, VERSION],
    );
    let (id, method, then) = pending(step);
    assert_eq!(id, "cli:workflow:run:start");
    assert!(matches!(method, Method::WorkflowRun(params) if params.workflow_id == "ship"));
    assert_eq!(then, Pending::Run { json: false });
    assert!(console.err.is_empty());

    let (step, console) = workflow(
        &["run", "start", "ship", "--arg", "bogus=x"],
        &[WORKFLOW, VERSION],
    );
    assert_eq!(step, Step::Exit(1));
    assert_eq!(
        console.err,
        vec!["unknown --arg key(s): bogus (declared args for ship: goal)"]
    );
}

#[test]
fn a_look_up_that_fails_blocks_nothing() {
    let mut console = Console::new();
    let words = "run start ship --arg goal=x";
    let (_, _, then) = pending(begin(words, &mut console));
    let (id, method, _) = pending(resume_unreachable(then).expect("it goes on"));
    assert_eq!(id, "cli:workflow:run:start");
    assert!(matches!(method, Method::WorkflowRun(params) if params.workflow_id == "ship"));

    let (_, _, then) = pending(begin(words, &mut console));
    let (id, _, then) = pending(resume_reply(then, reply(WORKFLOW), &mut console));
    assert_eq!(id, "cli:workflow:run:start:precheck:version");
    let (id, method, _) = pending(resume_unreachable(then).expect("it goes on"));
    assert_eq!(id, "cli:workflow:run:start");
    assert!(matches!(method, Method::WorkflowRun(_)));

    let (_, _, then) = pending(begin(words, &mut console));
    let refused = r#"{"id":"1","error":{"code":"x","message":"y"}}"#;
    let (id, _, then) = pending(resume_reply(then, reply(refused), &mut console));
    assert_eq!(id, "cli:workflow:run:start");
    assert_eq!(resume_unreachable(then), None);

    let Step::ReadFile { path, what } = begin("update ship --file def.toml", &mut console) else {
        panic!("a file is read first");
    };
    let step = resume_file(&path, what, Ok("name = \"ship\"\n".to_string()), false, &mut console);
    let (_, _, then) = pending(step);
    let (id, method, then) = pending(resume_unreachable(then).expect("it goes on"));
    assert_eq!(id, "cli:workflow:update");
    assert!(matches!(method, Method::WorkflowVersionCreate(params) if params.workflow_id == "ship"));
    assert_eq!(
        then,
        Pending::Update {
            previous: None,
            json: false
        }
    );
    assert!(console.out.is_empty() && console.err.is_empty());
}

#[test]
fn a_run_without_arguments_starts_at_once() {
    let mut console = Console::new();
    let (_, method, _) = pending(begin("run start ship", &mut console));
    assert!(matches!(method, Method::WorkflowRun(_)));
}

#[test]
fn a_stuck_run_names_its_node() {
    let (step, console) = workflow(
        &["run", "show", "run-1"],
        &[r#"{"id":"1","result":{"run":{"run_id":"run-1","status":"running","tier":"low",
            "max_nodes":12,"max_depth":3,"nodes_done":1,"nodes_total":2},
            "graph":{"nodes":[{"path":"plan","status":"succeeded"},
            {"path":"lint","status":"needs_attention","blocker":{"reason":"no workspace",
            "resume_when":"one is there"}}],"members":[]}}}"#],
    );
    assert_eq!(step, Step::Exit(0));
    assert_eq!(
        console.out,
        vec![
            "run_id:  run-1",
            "status:  running (node \"lint\": needs_attention)",
            "tier:    low",
            "limits:  max_nodes=12 · max_depth=3",
            "nodes:   1/2",
            "blocked: lint (needs_attention)",
            "reason:  no workspace",
            "resume:  one is there",
            "",
            "nodes:",
            "  plan                         succeeded",
            "  lint                         needs_attention",
        ]
    );
}

#[test]
fn a_workflow_is_shown_with_its_head_version_or_without() {
    let (step, console) = workflow(&["show", "ship"], &[WORKFLOW, VERSION]);
    assert_eq!(step, Step::Exit(0));
    assert_eq!(
        &console.out[..5],
        &[
            "workflow_id: workflow:1",
            "name:        ship",
            "description: ships it",
            "default_tier: low",
            "head_version: 3",
        ]
    );
    let (_, console) = workflow(
        &["show", "ship"],
        &[WORKFLOW, r#"{"id":"1","error":{"code":"gone","message":"no"}}"#],
    );
    assert_eq!(
        console.out.last().map(String::as_str),
        Some("(head version detail unavailable; nodes/edges/args not shown)")
    );
}

#[test]
fn json_prints_the_reply_as_it_is_and_a_refusal_fails() {
    let (step, console) = workflow(
        &["run", "cancel", "run-1", "--json"],
        &[r#"{"result":{"type":"ok"},"id":"1"}"#],
    );
    assert_eq!(step, Step::Exit(0));
    assert_eq!(console.out, vec![r#"{"id":"1","result":{"type":"ok"}}"#]);

    let (step, console) = workflow(
        &["run", "cancel", "run-1", "--json"],
        &[r#"{"id":"1","error":{"code":"workflow_run_closed","message":"over"}}"#],
    );
    assert_eq!(step, Step::Exit(1));
    assert_eq!(
        console.err,
        vec![r#"{"error":{"code":"workflow_run_closed","message":"over"},"id":"1"}"#]
    );
}

#[test]
fn an_update_that_changed_nothing_says_so() {
    let mut console = Console::new();
    let step = begin("update ship --file def.toml --change-summary again", &mut console);
    let (path, what) = match step {
        Step::ReadFile { path, what } => (path, what),
        other => panic!("a file is read first: {other:?}"),
    };
    assert_eq!(path, "def.toml");
    let step = resume_file(&path, what, Ok("name = \"ship\"\n".to_string()), false, &mut console);
    let (_, _, then) = pending(step);
    let step = resume_reply(then, reply(WORKFLOW), &mut console);
    let (id, method, then) = pending(step);
    assert_eq!(id, "cli:workflow:update");
    match method {
        Method::WorkflowVersionCreate(params) => {
            assert_eq!(params.change_summary, "again");
            assert_eq!(params.definition.format, WorkflowDefinitionFormat::Toml);
            assert_eq!(params.definition.text, "name = \"ship\"\n");
        }
        other => panic!("an update: {other:?}"),
    }
    let step = resume_reply(
        then,
        reply(
            r#"{"id":"1","result":{"workflow":{"workflow_id":"workflow:1","name":"ship"},
                "version":{"version":3}}}"#,
        ),
        &mut console,
    );
    assert_eq!(step, Step::Exit(0));
    assert_eq!(
        console.out[2],
        "version:     3 (unchanged — this definition matches the current version; no new version was created)"
    );
}

#[test]
fn a_definition_that_cannot_be_read_is_a_local_error() {
    let mut console = Console::new();
    let read = |console: &mut Console, path: &str, name: Option<&str>, text: Result<&str, &str>| {
        resume_file(
            path,
            Reading::CreateDefinition {
                name: name.map(str::to_string),
                json: false,
            },
            text.map(str::to_string).map_err(str::to_string),
            false,
            console,
        )
    };
    assert_eq!(
        read(&mut console, "def.toml", None, Err("no such file")),
        Step::Exit(1)
    );
    assert_eq!(
        read(&mut console, "def.yaml", None, Ok("name: ship")),
        Step::Exit(1)
    );
    assert_eq!(
        read(&mut console, "def.toml", Some("new"), Ok("name = [")),
        Step::Exit(1)
    );
    assert_eq!(
        read(&mut console, "def.json", Some("new"), Ok("[1]")),
        Step::Exit(1)
    );
    assert_eq!(
        console
            .err
            .iter()
            .filter(|line| line.as_str() == "error: invalid_definition")
            .count(),
        4
    );
    assert!(matches!(
        read(&mut console, "def.json", Some("new"), Ok(r#"{"name":"old"}"#)),
        Step::Send { .. }
    ));
}

#[test]
fn a_finished_node_always_reports() {
    let mut console = Console::new();
    let step = begin("node complete", &mut console);
    assert_eq!(
        step,
        Step::ReadFile {
            path: "/tmp/node/result.json".to_string(),
            what: Reading::NodeResult {
                env: NodeCompleteEnv {
                    run_id: "run-1".to_string(),
                    node_path: "plan".to_string(),
                    node_dir: "/tmp/node".to_string(),
                    node_token: "tok".to_string(),
                }
            }
        }
    );
    if let Step::ReadFile { path, what } = step {
        let step = resume_file(&path, what, Err("gone".to_string()), false, &mut console);
        let (_, method, _) = pending(step);
        assert!(
            matches!(method, Method::WorkflowNodeReport(params) if params.result == Json::Null)
        );
    }
    assert!(console.err.join("\n").contains("gone"));
}

#[test]
fn a_message_may_come_from_a_file() {
    let mut console = Console::new();
    let step = begin("run message --to scout --text-file m.md --priority now", &mut console);
    if let Step::ReadFile { path, what } = step {
        assert_eq!(path, "m.md");
        let step = resume_file(&path, what, Ok("hurry\n".to_string()), false, &mut console);
        let (_, method, _) = pending(step);
        match method {
            Method::WorkflowRunMessage(params) => {
                assert_eq!(params.target, "scout");
                assert_eq!(params.run_id, "run-1");
                assert!(params.text.starts_with("hurry"));
                assert_eq!(params.priority.as_deref(), Some("now"));
            }
            other => panic!("a message: {other:?}"),
        }
    } else {
        panic!("the file is read first");
    }
}

#[test]
fn a_session_reports_itself_in_silence() {
    let mut console = Console::new();
    assert_eq!(
        begin("run report-session", &mut console),
        Step::ReadHook {
            run_id: "run-1".to_string(),
            json: false
        }
    );
    assert_eq!(resume_hook("run-1".to_string(), false, None, &env()), Step::Exit(0));
    let step = resume_hook(
        "run-1".to_string(),
        false,
        Some(HookInput {
            session_id: "s1".to_string(),
            transcript_path: None,
            cwd: Some("/repo".to_string()),
            source: Some("startup".to_string()),
            agent_id: None,
        }),
        &env(),
    );
    let (_, method, then) = pending(step);
    match method {
        Method::WorkflowRunReportSession(params) => {
            assert_eq!(params.session_id, "s1");
            assert_eq!(params.pane_id.as_deref(), Some("w1:p2"));
            assert_eq!(params.messaging_socket, None);
        }
        other => panic!("a report: {other:?}"),
    }
    assert_eq!(
        resume_unreachable(Pending::ReportSession { json: true }),
        Some(Step::Exit(0))
    );
    assert_eq!(resume_unreachable(Pending::Raw), None);
    let step = resume_reply(
        then,
        reply(r#"{"id":"1","error":{"code":"x","message":"y"}}"#),
        &mut console,
    );
    assert_eq!(step, Step::Exit(0));
    assert!(console.out.is_empty() && console.err.is_empty());

    let refused = r#"{"id":"1","error":{"code":"x","message":"y"}}"#;
    let step = resume_reply(
        Pending::ReportSession { json: true },
        reply(refused),
        &mut console,
    );
    assert_eq!(step, Step::Exit(0));
    assert_eq!(console.err.len(), 1);
    console.err.clear();

    assert_eq!(begin("run report-session --bogus", &mut console), Step::Exit(0));
    assert_eq!(
        console.err.join("\n"),
        "usage: kvx workflow run report-session [--run <run_id>] [--json]\n(reads Agent's SessionStart hook payload on stdin)"
    );
}

#[test]
fn a_node_without_its_variables_says_which_is_missing() {
    let mut bare = env();
    bare.node_token = None;
    let mut console = Console::new();
    assert_eq!(
        run_workflow_command(&args("node complete"), &bare, &mut console),
        Step::Exit(1)
    );
    assert!(
        console.err.join("\n").contains("KARVEX_WORKFLOW_NODE_TOKEN"),
        "{:?}",
        console.err
    );
}

#[test]
fn the_other_replies_are_read_by_a_person() {
    let (_, console) = workflow(
        &["summary", "show", "run-1"],
        &[r#"{"id":"1","result":{"summary":null}}"#],
    );
    assert_eq!(console.out, vec!["no summary recorded for this run yet"]);
    let (_, console) = workflow(
        &["review", "show", "run-1"],
        &[r#"{"id":"1","result":{"review":null,"findings":[]}}"#],
    );
    assert_eq!(console.out, vec!["no review cycle for this run yet"]);
    let (_, console) = workflow(
        &["review", "show", "run-1"],
        &[r#"{"id":"1","result":{"review":{"id":"review_cycle:1","run_id":"run-1",
            "status":"awaiting_user","started_at_unix_ms":0,"evidence_only_count":2},
            "findings":[]}}"#],
    );
    assert_eq!(
        console.out,
        vec![
            "id:      review_cycle:1",
            "run_id:  run-1",
            "status:  awaiting_user",
            "started: 1970-01-01 00:00:00 UTC",
            "evidence_only: 2 interview(s) could not be attributed",
        ]
    );
}

fn run(words: &str, console: &mut Console) -> Dispatch {
    maybe_run(&args(words), false, &env(), console)
}

#[test]
fn terminals_and_sessions_are_named_on_the_command_line() {
    let mut console = Console::new();
    assert_eq!(
        run("kvx terminal attach t1 --takeover", &mut console),
        Dispatch::Run(Task::TerminalAttach {
            terminal_id: "t1".to_string(),
            takeover: true
        })
    );
    assert_eq!(
        run("kvx terminal session control w1:p1 --cols 90 --rows 30", &mut console),
        Dispatch::Run(Task::TerminalControl(TerminalSessionOptions {
            target: "w1:p1".to_string(),
            cols: 90,
            rows: 30,
            takeover: false
        }))
    );
    assert_eq!(
        run("kvx session stop work --json", &mut console),
        Dispatch::Run(Task::SessionStop {
            name: "work".to_string(),
            json: true
        })
    );
    assert_eq!(parse_terminal_dimension("0", "--cols").unwrap_err(), "--cols must be greater than 0");
    assert_eq!(
        parse_terminal_dimension("70000", "--cols").unwrap_err(),
        "--cols must be an integer between 1 and 65535"
    );
    assert!(console.err.is_empty());
}

#[test]
fn sessions_are_listed_and_ended() {
    let mut console = Console::new();
    let session = SessionInfo {
        name: "work".to_string(),
        running: true,
        session_dir: "/s/work".to_string(),
        socket_path: "/s/work/karvex.sock".to_string(),
    };
    assert_eq!(print_session_table(&vec![session], &mut console), 0);
    assert_eq!(console.out.len(), 2);
    assert!(console.out[1].starts_with("work"));
    assert!(console.out[1].contains("running"));
    assert_eq!(session_stopped(Ok("stopped".to_string()), &mut console), 0);
    assert_eq!(session_stopped(Err("not there".to_string()), &mut console), 1);
    assert_eq!(session_deleted(Err("still running".to_string()), &mut console), 1);
}

#[test]
fn settings_are_checked_before_they_are_written() {
    assert_eq!(check_toml("a = 1\n"), None);
    assert!(check_toml("a = [").is_some());
    let mut console = Console::new();
    assert_eq!(check_channel_config("/c/config.toml", "a = 1\n", &mut console), None);
    assert_eq!(
        check_channel_config("/c/config.toml", "a = [", &mut console),
        Some(1)
    );
    assert_eq!(config_check(&Vec::new(), &mut console), 0);
    assert_eq!(config_check(&vec!["unknown key".to_string()], &mut console), 1);
    assert_eq!(self_update_done(None, &mut console), 0);
    assert_eq!(self_update_done(Some("offline".to_string()), &mut console), 1);
    let left = channel_written(
        Channel::Preview,
        "/c/config.toml",
        Some("use the package manager".to_string()),
        &mut console,
    );
    assert_eq!(
        left,
        ChannelSetInstallAction::PrintGuidance("use the package manager".to_string())
    );
    assert_eq!(
        console.out.last().map(String::as_str),
        Some("use the package manager")
    );
}
