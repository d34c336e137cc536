//! The verbs and flags that an operator is taught are real ones.

use karvex::cli::plans::WorkflowEnv;
use karvex::cli::run_args::{parse_workflow_run_finish_args, parse_workflow_run_message_args};
use karvex::cli::steps::Step;
use karvex::cli::verbs::{choose_verb, Choice, Page};
use karvex::cli::workflow::run_workflow_command;
use karvex::console::Console;

fn args(values: &[&str]) -> Vec<String> {
    values.iter().map(|value| (*value).to_string()).collect()
}

const DOCUMENTED_VERBS: &[&[&str]] = &[
    &["list"],
    &["show"],
    &["create"],
    &["run", "start"],
    &["run", "show"],
    &["run", "list"],
    &["run", "cancel"],
    &["run", "finish"],
    &["run", "message"],
    &["summary", "list"],
    &["summary", "show"],
];

const RETIRED_NODE_VERBS: &[&[&str]] = &[
    &["node", "steer"],
    &["node", "interrupt"],
    &["node", "restart"],
    &["node", "complete"],
    &["node", "expand"],
    &["node", "interrogate"],
];

fn is_verb(path: &[&str]) -> bool {
    matches!(choose_verb(&args(path)), Choice::Verb { words, .. } if words == path.len())
}

fn finish(words: &[&str]) -> Result<(), String> {
    parse_workflow_run_finish_args(&args(words), Some("run-1".to_string())).map(|_| ())
}

#[test]
fn every_documented_verb_and_flag_is_real() {
    for path in DOCUMENTED_VERBS {
        assert!(is_verb(path), "{path:?} is no verb");
    }
    assert!(finish(&["--summary-file", "s.md"]).is_ok());
    for words in [
        vec!["--to", "scout", "--text", "hurry"],
        vec!["--to", "scout", "--text-file", "hurry.md"],
    ] {
        assert!(
            parse_workflow_run_message_args(&args(&words), Some("run-1".to_string())).is_ok(),
            "{words:?}"
        );
    }
}

#[test]
fn retired_node_verbs_still_resolve_as_verb_paths() {
    for path in RETIRED_NODE_VERBS {
        assert!(is_verb(path), "{path:?} is no verb");
    }
    assert!(is_verb(&["node", "show"]));
}

#[test]
fn a_fabricated_verb_is_answered_with_help() {
    assert_eq!(
        choose_verb(&args(&["run", "teleport"])),
        Choice::Help {
            page: Page::Run,
            asked: false
        }
    );
    let env = WorkflowEnv {
        run_id: None,
        node_path: None,
        node_dir: None,
        node_token: None,
        review_run_id: None,
        review_member: None,
        pane_id: None,
        messaging_socket: None,
        messaging_token: None,
        agent_name: "the agent".to_string(),
        windows: false,
    };
    let mut console = Console::new();
    assert_eq!(
        run_workflow_command(&args(&["run", "teleport"]), &env, &mut console),
        Step::Exit(2)
    );
    assert!(console.err.join("\n").contains("kvx workflow run start"));
}

#[test]
fn a_fabricated_flag_on_a_real_verb_is_absent() {
    assert!(finish(&["--teleport-to", "x"]).is_err());
}
