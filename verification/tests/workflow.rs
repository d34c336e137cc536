//! The `kvx workflow` command line.

use karvex::app::review_start::{REVIEW_MEMBER_ENV_VAR, REVIEW_RUN_ID_ENV_VAR};
use karvex::calendar::{civil_from_days, format_unix_ms, format_unix_ms_clock};
use karvex::cli::definition::{
    default_node_result_path, definition_format_from_path, load_definition_document,
    override_definition_name,
};
use karvex::cli::node_args::{
    parse_workflow_node_complete_args, parse_workflow_node_expand_args,
    parse_workflow_node_interrogate_args, parse_workflow_node_pair_args,
    parse_workflow_node_show_args, parse_workflow_node_steer_args,
};
use karvex::cli::other_args::{
    parse_workflow_create_args, parse_workflow_list_args, parse_workflow_review_answer_args,
    parse_workflow_review_apply_args, parse_workflow_review_report_args,
    parse_workflow_show_args, parse_workflow_summary_list_args,
    parse_workflow_summary_show_args, parse_workflow_update_args,
};
use karvex::cli::plans::WorkflowEnv;
use karvex::cli::render::{
    blocking_run_nodes, print_workflow_error, summarize_expand_response, update_was_deduplicated,
};
use karvex::cli::render_lines::{
    duplicate_workflow_name, format_node_delivery_failure_line,
    format_node_growth_limited_line, format_node_restored_from_line,
    format_node_transcript_line, format_restore_report_line, format_run_growth_line,
    format_run_limits_line, format_run_node_line, format_workflow_error,
    humanize_workflow_error_message,
};
use karvex::cli::run_args::{
    parse_workflow_review_run_target_args, parse_workflow_run_cancel_args,
    parse_workflow_run_list_args, parse_workflow_run_show_args,
    parse_workflow_run_start_args,
};
use karvex::cli::steps::{NodeCompleteEnv, Step};
use karvex::cli::values::{parse_arg_assignment, parse_workflow_tier};
use karvex::cli::verbs::{choose_verb, Choice};
use karvex::cli::workflow::{
    build_node_report_params, print_workflow_local_error, resume_reply,
    run_workflow_command, unknown_arg_message,
};
use karvex::console::Console;
use karvex::documents::{read_json, read_reply};
use karvex::json::Json;
use karvex::ordered::TextMap;
use karvex::wire::{
    Method, WorkflowDefinitionFormat, WorkflowInterrogationMode, WorkflowNodeReportParams,
    WorkflowNodeSteerParams, WorkflowNodeTarget, WorkflowRestoreRequest,
    WorkflowRunListParams, WorkflowRunParams, WorkflowRunTarget, WorkflowTarget,
    WorkflowTier,
};

const VERB_PATHS: &[&[&str]] = &[
    &["list"],
    &["show"],
    &["create"],
    &["update"],
    &["run", "start"],
    &["run", "list"],
    &["run", "show"],
    &["run", "cancel"],
    &["run", "finish"],
    &["run", "message"],
    &["run", "report-session"],
    &["node", "show"],
    &["node", "steer"],
    &["node", "interrupt"],
    &["node", "restart"],
    &["node", "complete"],
    &["node", "expand"],
    &["node", "interrogate"],
    &["summary", "show"],
    &["summary", "list"],
    &["review", "start"],
    &["review", "show"],
    &["review", "apply"],
    &["review", "answer"],
    &["review", "report"],
];

fn args(values: &[&str]) -> Vec<String> {
    values.iter().map(|value| (*value).to_string()).collect()
}

fn json(text: &str) -> Json {
    read_json(text).expect("a JSON document")
}

fn pairs(entries: &[(&str, &str)]) -> TextMap<String> {
    let mut map = TextMap::new();
    for (key, value) in entries {
        map.insert((*key).to_string(), (*value).to_string());
    }
    map
}

fn node_env() -> NodeCompleteEnv {
    NodeCompleteEnv {
        run_id: "run-1".to_string(),
        node_path: "plan".to_string(),
        node_dir: "/tmp/node".to_string(),
        node_token: "tok".to_string(),
    }
}

fn no_env() -> WorkflowEnv {
    WorkflowEnv {
        run_id: None,
        node_path: None,
        node_dir: None,
        node_token: None,
        review_run_id: None,
        review_member: None,
        pane_id: None,
        messaging_socket: None,
        messaging_token: None,
        agent_name: "the agent".to_string(),
        windows: false,
    }
}

#[test]
fn a_workflow_error_envelope_renders_as_readable_lines() {
    let response = json(r#"{
        "error": {
            "code": "workflow_node_result_invalid",
            "message": "result.json does not validate against the node's output_schema:\n  - missing required field \"summary\"\nfix result.json and run `kvx workflow node complete` again"
        }
    }"#);
    let rendered = format_workflow_error(&response).expect("an error envelope renders");
    let lines: Vec<&str> = rendered.lines().collect();
    assert_eq!(
        lines,
        vec![
            "error: workflow_node_result_invalid",
            "  result.json does not validate against the node's output_schema:",
            "    - missing required field \"summary\"",
            "  fix result.json and run `kvx workflow node complete` again",
        ],
        "every message line is indented under the code, never escaped: {rendered}"
    );
    assert!(
        !rendered.contains("\\n"),
        "no escaped newlines survive: {rendered}"
    );

    assert_eq!(
        format_workflow_error(&json(r#"{ "result": { "type": "ok" } }"#)),
        None,
        "a success response is left to the caller's own rendering"
    );
}

#[test]
fn an_error_without_a_code_is_still_an_error() {
    let response = json(r#"{ "error": { "message": "no" } }"#);
    assert_eq!(
        format_workflow_error(&response).as_deref(),
        Some("error: \n  no")
    );
    let mut console = Console::new();
    assert_eq!(print_workflow_error(&response, &mut console), Some(1));
    assert_eq!(
        print_workflow_error(&json(r#"{ "result": {} }"#), &mut console),
        None
    );
}

#[test]
fn workflow_list_accepts_no_arguments_and_rejects_extras() {
    assert!(parse_workflow_list_args(&args(&[])).is_ok());
    assert!(parse_workflow_list_args(&args(&["extra"])).is_err());
}

#[test]
fn workflow_show_builds_workflow_get() {
    let (target, json) = parse_workflow_show_args(&args(&["ship-feature"])).unwrap();
    assert!(!json);
    assert_eq!(
        Method::WorkflowGet(target),
        Method::WorkflowGet(WorkflowTarget {
            workflow_id: "ship-feature".to_string(),
        })
    );
}

#[test]
fn workflow_show_json_flag_parses() {
    let (target, json) = parse_workflow_show_args(&args(&["ship-feature", "--json"])).unwrap();
    assert!(json);
    assert_eq!(target.workflow_id, "ship-feature");
}

#[test]
fn workflow_show_rejects_wrong_argument_count() {
    assert!(parse_workflow_show_args(&args(&[])).is_err());
    assert!(parse_workflow_show_args(&args(&["a", "b"])).is_err());
}

#[test]
fn workflow_create_flags_parse_file_and_optional_name() {
    let (file, name, json) =
        parse_workflow_create_args(&args(&["--file", "def.toml", "--name", "ship"])).unwrap();
    assert_eq!(file, "def.toml");
    assert_eq!(name.as_deref(), Some("ship"));
    assert!(!json);

    let (file, name, json) =
        parse_workflow_create_args(&args(&["--file", "def.json"])).unwrap();
    assert_eq!(file, "def.json");
    assert_eq!(name, None);
    assert!(!json);
}

#[test]
fn workflow_create_json_flag_parses() {
    let (file, _name, json) =
        parse_workflow_create_args(&args(&["--file", "def.toml", "--json"])).unwrap();
    assert_eq!(file, "def.toml");
    assert!(json);
}

#[test]
fn workflow_create_requires_file() {
    assert!(parse_workflow_create_args(&args(&["--name", "ship"])).is_err());
}

#[test]
fn name_and_id_selectors_reach_the_wire_unchanged_for_show_update_and_run_start() {
    for selector in ["ship-feature", "workflow:abc123"] {
        let (target, _json) = parse_workflow_show_args(&args(&[selector])).unwrap();
        assert_eq!(target.workflow_id, selector);

        let (workflow_id, _file, _change_summary, _json) =
            parse_workflow_update_args(&args(&[selector, "--file", "def.toml"])).unwrap();
        assert_eq!(workflow_id, selector);

        let (params, _json) = parse_workflow_run_start_args(&args(&[selector])).unwrap();
        assert_eq!(params.workflow_id, selector);
    }
}

#[test]
fn workflow_update_flags_parse_target_file_and_change_summary() {
    let (workflow_id, file, change_summary, json) = parse_workflow_update_args(&args(&[
        "ship-feature",
        "--file",
        "def.toml",
        "--change-summary",
        "widen retries",
    ]))
    .unwrap();
    assert_eq!(workflow_id, "ship-feature");
    assert_eq!(file, "def.toml");
    assert_eq!(change_summary.as_deref(), Some("widen retries"));
    assert!(!json);
}

#[test]
fn workflow_update_json_flag_parses() {
    let (_workflow_id, _file, _change_summary, json) =
        parse_workflow_update_args(&args(&["ship-feature", "--file", "def.toml", "--json"]))
            .unwrap();
    assert!(json);
}

#[test]
fn workflow_update_requires_target_and_file() {
    assert!(parse_workflow_update_args(&args(&[])).is_err());
    assert!(parse_workflow_update_args(&args(&["ship-feature"])).is_err());
}

#[test]
fn a_definition_file_is_named_by_the_rules_of_its_platform() {
    for (path, unix, windows) in [
        ("dir\\.toml", true, false),
        ("dir/.toml", false, false),
        ("C:\\defs\\ship.toml", true, true),
        ("C:.toml", true, false),
        ("C:ship.toml", true, true),
        ("\\\\server\\ship.toml", true, false),
        ("\\\\server\\share\\ship.toml", true, true),
        ("\\\\?\\C:\\a/.toml", false, true),
    ] {
        assert_eq!(definition_format_from_path(path, false).is_ok(), unix, "{path}");
        assert_eq!(definition_format_from_path(path, true).is_ok(), windows, "{path}");
    }
}

#[test]
fn definition_format_detected_from_extension() {
    assert_eq!(
        definition_format_from_path("def.toml", false).unwrap(),
        WorkflowDefinitionFormat::Toml
    );
    assert_eq!(
        definition_format_from_path("def.json", false).unwrap(),
        WorkflowDefinitionFormat::Json
    );
    assert!(definition_format_from_path("def.yaml", false).is_err());
}

#[test]
fn override_definition_name_rewrites_toml_top_level_name() {
    let rewritten = override_definition_name(
        WorkflowDefinitionFormat::Toml,
        "name = \"old\"\nmax_depth = 3\n",
        "new-name",
    )
    .unwrap();
    let value: toml::Value = rewritten.parse().unwrap();
    assert_eq!(value["name"].as_str(), Some("new-name"));
    assert_eq!(value["max_depth"].as_integer(), Some(3));
}

#[test]
fn override_definition_name_rewrites_json_top_level_name() {
    let rewritten = override_definition_name(
        WorkflowDefinitionFormat::Json,
        r#"{"name":"old","max_depth":3}"#,
        "new-name",
    )
    .unwrap();
    let value: serde_json::Value = serde_json::from_str(&rewritten).unwrap();
    assert_eq!(value["name"], "new-name");
    assert_eq!(value["max_depth"], 3);
}

#[test]
fn load_definition_document_reads_file_and_applies_name_override() {
    let definition = load_definition_document(
        "def.toml",
        Ok("name = \"old\"\n".to_string()),
        Some("new-name".to_string()),
        false,
    )
    .unwrap();
    assert_eq!(definition.format, WorkflowDefinitionFormat::Toml);
    assert!(definition.text.contains("new-name"));
}

#[test]
fn workflow_run_start_builds_workflow_run_with_tier_and_args() {
    let (params, json) = parse_workflow_run_start_args(&args(&[
        "ship-feature",
        "--tier",
        "high",
        "--arg",
        "goal=add dark mode",
        "--json",
    ]))
    .unwrap();
    assert!(json);
    assert_eq!(
        Method::WorkflowRun(params),
        Method::WorkflowRun(WorkflowRunParams {
            workflow_id: "ship-feature".to_string(),
            version: None,
            tier: Some(WorkflowTier::High),
            args: pairs(&[("goal", "add dark mode")]),
            restore_from: None,
            include_prior_summaries: None,
        })
    );
}

#[test]
fn workflow_run_start_defaults_tier_and_json_when_omitted() {
    let (params, json) = parse_workflow_run_start_args(&args(&["ship-feature"])).unwrap();
    assert!(!json);
    assert_eq!(params.tier, None);
    assert!(params.args.entries.is_empty());
}

#[test]
fn workflow_run_start_rejects_malformed_arg_assignment() {
    assert!(
        parse_workflow_run_start_args(&args(&["ship-feature", "--arg", "no-equals-sign"]))
            .is_err()
    );
}

#[test]
fn workflow_run_start_rejects_invalid_tier() {
    assert!(
        parse_workflow_run_start_args(&args(&["ship-feature", "--tier", "ultra"])).is_err()
    );
}

#[test]
fn workflow_run_start_bare_restore_from_means_everything_restorable() {
    let (params, _json) =
        parse_workflow_run_start_args(&args(&["ship-feature", "--restore-from", "run-1"]))
            .unwrap();
    assert_eq!(
        params.restore_from,
        Some(WorkflowRestoreRequest {
            run_id: "run-1".to_string(),
            nodes: vec![],
            allow_changed: false,
        })
    );
}

#[test]
fn workflow_run_start_restore_selectors_are_repeatable_and_verbatim() {
    let (params, _json) = parse_workflow_run_start_args(&args(&[
        "ship-feature",
        "--restore-from",
        "run-1",
        "--restore",
        "plan",
        "--restore",
        "build=x",
        "--restore-allow-changed",
    ]))
    .unwrap();
    assert_eq!(
        params.restore_from,
        Some(WorkflowRestoreRequest {
            run_id: "run-1".to_string(),
            nodes: vec!["plan".to_string(), "build=x".to_string()],
            allow_changed: true,
        })
    );
}

#[test]
fn workflow_run_start_restore_requires_restore_from() {
    assert!(
        parse_workflow_run_start_args(&args(&["ship-feature", "--restore", "plan"])).is_err()
    );
}

#[test]
fn workflow_run_start_restore_allow_changed_requires_restore_from() {
    assert!(
        parse_workflow_run_start_args(&args(&["ship-feature", "--restore-allow-changed"]))
            .is_err()
    );
}

#[test]
fn workflow_run_start_no_prior_summaries_sets_include_prior_summaries_false() {
    let (params, _json) =
        parse_workflow_run_start_args(&args(&["ship-feature", "--no-prior-summaries"]))
            .unwrap();
    assert_eq!(params.include_prior_summaries, Some(false));
}

#[test]
fn workflow_run_start_omits_include_prior_summaries_by_default() {
    let (params, _json) = parse_workflow_run_start_args(&args(&["ship-feature"])).unwrap();
    assert_eq!(params.include_prior_summaries, None);
}

#[test]
fn workflow_run_list_builds_workflow_run_list_with_limit() {
    let (params, json) =
        parse_workflow_run_list_args(&args(&["ship-feature", "--limit", "10"])).unwrap();
    assert!(!json);
    assert_eq!(
        Method::WorkflowRunList(params),
        Method::WorkflowRunList(WorkflowRunListParams {
            workflow_id: Some("ship-feature".to_string()),
            limit: Some(10),
        })
    );
}

#[test]
fn workflow_run_list_accepts_json_flag() {
    let (_, json) = parse_workflow_run_list_args(&args(&["ship-feature", "--json"])).unwrap();
    assert!(json);
}

#[test]
fn workflow_run_list_requires_target() {
    assert!(parse_workflow_run_list_args(&args(&[])).is_err());
}

#[test]
fn workflow_run_show_builds_workflow_run_get() {
    let (target, json) = parse_workflow_run_show_args(&args(&["run-1", "--json"])).unwrap();
    assert!(json);
    assert_eq!(
        Method::WorkflowRunGet(target),
        Method::WorkflowRunGet(WorkflowRunTarget {
            run_id: "run-1".to_string(),
        })
    );
}

#[test]
fn workflow_run_show_defaults_json_to_false() {
    let (_, json) = parse_workflow_run_show_args(&args(&["run-1"])).unwrap();
    assert!(!json);
}

#[test]
fn workflow_run_cancel_builds_workflow_run_cancel() {
    let (target, json) = parse_workflow_run_cancel_args(&args(&["run-1"])).unwrap();
    assert!(!json);
    assert_eq!(
        Method::WorkflowRunCancel(target),
        Method::WorkflowRunCancel(WorkflowRunTarget {
            run_id: "run-1".to_string(),
        })
    );
}

#[test]
fn workflow_run_cancel_accepts_json_flag() {
    let (_, json) = parse_workflow_run_cancel_args(&args(&["run-1", "--json"])).unwrap();
    assert!(json);
}

#[test]
fn workflow_node_show_builds_workflow_node_get() {
    let (target, json) =
        parse_workflow_node_show_args(&args(&["run-1", "plan", "--json"])).unwrap();
    assert!(json);
    assert_eq!(
        Method::WorkflowNodeGet(target),
        Method::WorkflowNodeGet(WorkflowNodeTarget {
            run_id: "run-1".to_string(),
            path: "plan".to_string(),
        })
    );
}

#[test]
fn run_show_names_each_node_by_its_own_label() {
    let lines: Vec<String> = [
        json(r#"{"path": "fanout/worker/1", "status": "succeeded", "label": "Shard 1"}"#),
        json(r#"{"path": "fanout/worker/2", "status": "succeeded", "label": "Shard 2"}"#),
        json(r#"{"path": "fanout/worker/3", "status": "running", "label": "Shard 3"}"#),
    ]
    .iter()
    .map(format_run_node_line)
    .collect();
    assert_eq!(
        lines,
        vec![
            "  fanout/worker/1              succeeded    Shard 1".to_string(),
            "  fanout/worker/2              succeeded    Shard 2".to_string(),
            "  fanout/worker/3              running      Shard 3".to_string(),
        ],
        "a generation must not read as three identical rows"
    );
}

#[test]
fn run_show_omits_a_label_that_only_repeats_the_path() {
    assert_eq!(
        format_run_node_line(
            &json(r#"{"path": "plan", "status": "succeeded", "label": "plan"}"#)
        ),
        "  plan                         succeeded"
    );
    assert_eq!(
        format_run_node_line(&json(r#"{"path": "plan", "status": "succeeded"}"#)),
        "  plan                         succeeded",
        "a wire payload from an older server carries no label at all"
    );
}

#[test]
fn workflow_node_steer_joins_trailing_words_as_text() {
    let (params, json) =
        parse_workflow_node_steer_args(&args(&["run-1", "plan", "please", "hurry"])).unwrap();
    assert!(!json);
    assert_eq!(
        Method::WorkflowNodeSteer(params),
        Method::WorkflowNodeSteer(WorkflowNodeSteerParams {
            run_id: "run-1".to_string(),
            path: "plan".to_string(),
            text: "please hurry".to_string(),
        })
    );
}

#[test]
fn workflow_node_steer_requires_text() {
    assert!(parse_workflow_node_steer_args(&args(&["run-1", "plan"])).is_err());
}

#[test]
fn workflow_node_steer_recognizes_trailing_json_flag() {
    let (params, json) =
        parse_workflow_node_steer_args(&args(&["run-1", "plan", "hurry", "--json"])).unwrap();
    assert!(json);
    assert_eq!(params.text, "hurry");
}

#[test]
fn workflow_node_steer_treats_bare_json_as_text_without_other_words() {
    let (params, json) =
        parse_workflow_node_steer_args(&args(&["run-1", "plan", "--json"])).unwrap();
    assert!(!json);
    assert_eq!(params.text, "--json");
}

#[test]
fn workflow_node_interrupt_builds_workflow_node_interrupt() {
    let (target, json) =
        parse_workflow_node_pair_args(&args(&["run-1", "plan"]), "usage").unwrap();
    assert!(!json);
    assert_eq!(
        Method::WorkflowNodeInterrupt(target),
        Method::WorkflowNodeInterrupt(WorkflowNodeTarget {
            run_id: "run-1".to_string(),
            path: "plan".to_string(),
        })
    );
}

#[test]
fn workflow_node_interrupt_accepts_json_flag() {
    let (_, json) =
        parse_workflow_node_pair_args(&args(&["run-1", "plan", "--json"]), "usage").unwrap();
    assert!(json);
}

#[test]
fn workflow_node_restart_builds_workflow_node_restart() {
    let (target, json) =
        parse_workflow_node_pair_args(&args(&["run-1", "plan"]), "usage").unwrap();
    assert!(!json);
    assert_eq!(
        Method::WorkflowNodeRestart(target),
        Method::WorkflowNodeRestart(WorkflowNodeTarget {
            run_id: "run-1".to_string(),
            path: "plan".to_string(),
        })
    );
}

#[test]
fn workflow_node_expand_builds_workflow_node_expand() {
    let (params, json) = parse_workflow_node_expand_args(&args(&[
        "run-1",
        "plan",
        "--template",
        "worker",
        "--label",
        "Worker",
        "--count",
        "4",
        "--json",
    ]))
    .unwrap();
    assert!(json);
    assert_eq!(params.run_id, "run-1");
    assert_eq!(params.path, "plan");
    assert_eq!(params.template, "worker");
    assert_eq!(params.label, "Worker");
    assert_eq!(params.count, Some(4));
    assert_eq!(params.token, "");
}

#[test]
fn workflow_node_expand_json_flag_defaults_to_false() {
    let (_params, json) = parse_workflow_node_expand_args(&args(&[
        "run-1",
        "plan",
        "--template",
        "worker",
        "--label",
        "Worker",
    ]))
    .unwrap();
    assert!(!json);
}

#[test]
fn workflow_node_expand_requires_template_and_label() {
    assert!(parse_workflow_node_expand_args(&args(&["run-1", "plan"])).is_err());
    assert!(
        parse_workflow_node_expand_args(&args(&["run-1", "plan", "--template", "worker"]))
            .is_err()
    );
    assert!(
        parse_workflow_node_expand_args(&args(&["run-1", "plan", "--label", "Worker"]))
            .is_err()
    );
}

#[test]
fn workflow_node_expand_input_with_equals_in_the_value_parses_whole() {
    let (params, _json) = parse_workflow_node_expand_args(&args(&[
        "run-1",
        "plan",
        "--template",
        "worker",
        "--label",
        "Worker",
        "--input",
        "goal=a=b=c",
    ]))
    .unwrap();
    assert_eq!(params.inputs.get("goal").map(String::as_str), Some("a=b=c"));
}

#[test]
fn workflow_node_expand_accepts_repeated_inputs() {
    let (params, _json) = parse_workflow_node_expand_args(&args(&[
        "run-1",
        "plan",
        "--template",
        "worker",
        "--label",
        "Worker",
        "--input",
        "a=1",
        "--input",
        "b=2",
    ]))
    .unwrap();
    assert_eq!(params.inputs.get("a").map(String::as_str), Some("1"));
    assert_eq!(params.inputs.get("b").map(String::as_str), Some("2"));
}

#[test]
fn workflow_node_expand_rejects_unparseable_count() {
    assert!(parse_workflow_node_expand_args(&args(&[
        "run-1",
        "plan",
        "--template",
        "worker",
        "--label",
        "Worker",
        "--count",
        "many",
    ]))
    .is_err());
}

#[test]
fn workflow_node_expand_omits_count_when_not_given() {
    let (params, _json) = parse_workflow_node_expand_args(&args(&[
        "run-1",
        "plan",
        "--template",
        "worker",
        "--label",
        "Worker",
    ]))
    .unwrap();
    assert_eq!(params.count, None);
}

#[test]
fn summarize_expand_response_reports_partial_acceptance() {
    let response = json(r#"{
        "result": {
            "type": "workflow_node_expanded",
            "accepted": ["plan/worker/1", "plan/worker/2"],
            "rejected": [
                {
                    "template": "worker",
                    "reason": "truncated",
                    "requested": 4,
                    "accepted": 2,
                    "message": "expand_max 2 reached; 2 of 4 requested nodes created"
                }
            ]
        }
    }"#);
    let summary = summarize_expand_response(&response);
    assert_eq!(summary.accepted, vec!["plan/worker/1", "plan/worker/2"]);
    assert_eq!(summary.rejected.len(), 1);
    assert_eq!(summary.rejected[0].template, "worker");
    assert_eq!(summary.rejected[0].reason, "truncated");
    assert!(summary.rejected[0].message.contains("2 of 4"));
}

#[test]
fn summarize_expand_response_is_empty_for_a_wholly_accepted_proposal() {
    let response = json(r#"{
        "result": { "accepted": ["plan/worker/1"], "rejected": [] }
    }"#);
    let summary = summarize_expand_response(&response);
    assert_eq!(summary.accepted, vec!["plan/worker/1"]);
    assert!(summary.rejected.is_empty());
}

#[test]
fn workflow_node_interrogate_defaults_to_resumed_mode() {
    let (params, json) =
        parse_workflow_node_interrogate_args(&args(&["run-1", "plan"])).unwrap();
    assert!(!json);
    assert_eq!(params.run_id, "run-1");
    assert_eq!(params.path, "plan");
    assert_eq!(params.mode, WorkflowInterrogationMode::Resumed);
    assert_eq!(params.note, None);
}

#[test]
fn workflow_node_interrogate_reconstructed_flag_sets_mode() {
    let (params, _json) =
        parse_workflow_node_interrogate_args(&args(&["run-1", "plan", "--reconstructed"]))
            .unwrap();
    assert_eq!(params.mode, WorkflowInterrogationMode::Reconstructed);
}

#[test]
fn workflow_node_interrogate_parses_note_and_json() {
    let (params, json) = parse_workflow_node_interrogate_args(&args(&[
        "run-1",
        "plan",
        "--note",
        "why did this fail",
        "--json",
    ]))
    .unwrap();
    assert!(json);
    assert_eq!(params.note.as_deref(), Some("why did this fail"));
}

#[test]
fn workflow_node_interrogate_requires_run_id_and_path() {
    assert!(parse_workflow_node_interrogate_args(&args(&["run-1"])).is_err());
}

#[test]
fn workflow_summary_show_builds_workflow_summary_get() {
    let (target, json) = parse_workflow_summary_show_args(&args(&["run-1", "--json"])).unwrap();
    assert!(json);
    assert_eq!(
        Method::WorkflowSummaryGet(target),
        Method::WorkflowSummaryGet(WorkflowRunTarget {
            run_id: "run-1".to_string(),
        })
    );
}

#[test]
fn workflow_summary_show_requires_run_id() {
    assert!(parse_workflow_summary_show_args(&args(&[])).is_err());
}

#[test]
fn workflow_summary_list_workflow_is_optional() {
    let (params, json) = parse_workflow_summary_list_args(&args(&[])).unwrap();
    assert!(!json);
    assert_eq!(params.workflow_id, None);
    assert_eq!(params.limit, None);
}

#[test]
fn workflow_summary_list_parses_workflow_limit_and_json() {
    let (params, json) =
        parse_workflow_summary_list_args(&args(&["ship-feature", "--limit", "5", "--json"]))
            .unwrap();
    assert!(json);
    assert_eq!(params.workflow_id, Some("ship-feature".to_string()));
    assert_eq!(params.limit, Some(5));
}

#[test]
fn workflow_summary_list_rejects_a_second_positional() {
    assert!(parse_workflow_summary_list_args(&args(&["one", "two"])).is_err());
}

#[test]
fn format_restore_report_line_is_none_for_a_non_restoring_run() {
    assert_eq!(format_restore_report_line(&Json::Null), None);
}

#[test]
fn format_restore_report_line_matches_the_plan_example() {
    let restore = json(r#"{
        "restored": ["plan", "implement"],
        "skipped": [
            {"selector": "review", "reason": "definition_changed", "message": "prompt changed"}
        ]
    }"#);
    assert_eq!(
        format_restore_report_line(&restore).unwrap(),
        "restored: plan, implement · skipped: review (definition changed)"
    );
}

#[test]
fn format_restore_report_line_reports_an_all_skipped_restore() {
    let restore = json(r#"{
        "restored": [],
        "skipped": [
            {"selector": "plan", "reason": "no_checkpoint", "message": "no checkpoint"}
        ]
    }"#);
    let line = format_restore_report_line(&restore).unwrap();
    assert!(line.starts_with("skipped:"), "{line}");
    assert!(!line.contains("restored:"), "{line}");
}

#[test]
fn format_node_transcript_line_reports_present_or_absent() {
    assert_eq!(
        format_node_transcript_line(&json(r#"{"transcript_path": "/tmp/x.jsonl"}"#)),
        "transcript: present"
    );
    assert_eq!(
        format_node_transcript_line(&json(r#"{}"#)),
        "transcript: absent"
    );
}

#[test]
fn format_node_restored_from_line_names_run_node_and_checkpoint() {
    let node = json(r#"{
        "restored_from": {
            "run_id": "run-1",
            "node_key": "plan",
            "checkpoint_seq": 3
        }
    }"#);
    assert_eq!(
        format_node_restored_from_line(&node).unwrap(),
        "restored from: run run-1 · node plan · checkpoint #3"
    );
    assert_eq!(format_node_restored_from_line(&json(r#"{}"#)), None);
}

#[test]
fn format_run_growth_line_is_none_when_the_run_has_never_been_limited() {
    let run = json(r#"{
        "nodes_live": 3, "max_nodes": 12, "growth_limited": null
    }"#);
    assert_eq!(format_run_growth_line(&run), None);

    let run_without_field = json(r#"{ "nodes_live": 3, "max_nodes": 12 }"#);
    assert_eq!(format_run_growth_line(&run_without_field), None);
}

#[test]
fn format_run_growth_line_names_the_kind_and_clock_time() {
    let run = json(r#"{
        "nodes_live": 3,
        "max_nodes": 12,
        "growth_limited": {
            "kind": "max_nodes",
            "at_unix_ms": 1700000000000
        }
    }"#);
    let line = format_run_growth_line(&run).expect("a limited run has a growth line");
    assert!(line.starts_with("growth:"), "{line}");
    assert!(line.contains("3 of 12 nodes"), "{line}");
    assert!(line.contains("max_nodes reached at"), "{line}");
    assert!(line.ends_with(" UTC"), "{line}");
}

#[test]
fn format_node_growth_limited_line_is_none_without_a_rejection() {
    let node = json(r#"{ "path": "plan" }"#);
    assert_eq!(format_node_growth_limited_line(&node), None);
}

#[test]
fn format_node_growth_limited_line_names_accepted_of_requested() {
    let node = json(r#"{
        "growth_limited": {
            "kind": "expand_max",
            "requested": 4,
            "accepted": 2,
            "at_unix_ms": 1700000000000
        }
    }"#);
    let line =
        format_node_growth_limited_line(&node).expect("a limited node has a growth line");
    assert!(
        line.starts_with("growth_limited: expand_max reached at"),
        "{line}"
    );
    assert!(line.contains("(2 of 4 accepted)"), "{line}");
    assert!(line.contains(" UTC "), "{line}");
}

#[test]
fn format_node_delivery_failure_line_names_the_refused_delivery() {
    let node = json(r#"{
        "delivery_failure": "steer never reached the process: pane closed"
    }"#);
    let line = format_node_delivery_failure_line(&node)
        .expect("a node with a delivery failure has a line");
    assert_eq!(
        line,
        "delivery_failure: steer never reached the process: pane closed"
    );

    let clean_node = json(r#"{ "path": "plan" }"#);
    assert_eq!(format_node_delivery_failure_line(&clean_node), None);
}

#[test]
fn format_run_limits_line_reports_the_enforced_ceilings() {
    let run = json(r#"{ "max_nodes": 12, "max_depth": 3 }"#);
    assert_eq!(
        format_run_limits_line(&run),
        Some("limits:  max_nodes=12 · max_depth=3".to_string())
    );
}

#[test]
fn one_ceiling_is_enough_for_a_line() {
    assert_eq!(
        format_run_limits_line(&json(r#"{ "max_nodes": 12 }"#)),
        Some("limits:  max_nodes=12 · max_depth=0".to_string())
    );
    assert_eq!(
        format_run_limits_line(&json(r#"{ "max_depth": 3 }"#)),
        Some("limits:  max_nodes=0 · max_depth=3".to_string())
    );
}

#[test]
fn format_run_limits_line_is_none_without_ceilings() {
    let run = json(r#"{ "run_id": "run-1", "status": "running" }"#);
    assert_eq!(format_run_limits_line(&run), None);
}

#[test]
fn format_unix_ms_clock_names_utc_like_its_sibling() {
    assert_eq!(format_unix_ms_clock(0), "00:00 UTC");
    assert_eq!(format_unix_ms_clock(1_704_118_920_000), "14:22 UTC");
}

#[test]
fn workflow_node_pair_args_rejects_wrong_argument_count() {
    assert!(parse_workflow_node_pair_args(&args(&["run-1"]), "usage").is_err());
    assert!(
        parse_workflow_node_pair_args(&args(&["run-1", "plan", "extra"]), "usage").is_err()
    );
}

#[test]
fn workflow_node_complete_accepts_optional_result_file_flag() {
    assert_eq!(parse_workflow_node_complete_args(&args(&[])).unwrap(), None);
    assert_eq!(
        parse_workflow_node_complete_args(&args(&["--result-file", "out.json"])).unwrap(),
        Some("out.json".to_string())
    );
}

#[test]
fn workflow_node_complete_rejects_unknown_flag() {
    assert!(parse_workflow_node_complete_args(&args(&["--bogus"])).is_err());
}

#[test]
fn default_node_result_path_joins_node_dir_and_result_json() {
    assert_eq!(
        default_node_result_path("/tmp/karvex-cli-workflow-node-dir", false),
        "/tmp/karvex-cli-workflow-node-dir/result.json"
    );
    assert_eq!(default_node_result_path("/tmp/node/", false), "/tmp/node/result.json");
    for (dir, file) in [
        ("C:\\node", "C:\\node\\result.json"),
        ("C:\\node\\", "C:\\node\\result.json"),
        ("C:/node/", "C:/node/result.json"),
        ("C:", "C:result.json"),
        ("\\\\?\\C:\\a\\\\b", "\\\\?\\C:\\a\\b\\result.json"),
    ] {
        assert_eq!(default_node_result_path(dir, true), file);
    }
}

#[test]
fn build_node_report_params_reads_and_parses_result_file() {
    let report = build_node_report_params(
        node_env(),
        "/tmp/node/result.json",
        Ok(r#"{"summary":"done"}"#.to_string()),
    );
    assert_eq!(report.local_error, None);
    assert_eq!(
        Method::WorkflowNodeReport(report.params),
        Method::WorkflowNodeReport(WorkflowNodeReportParams {
            run_id: "run-1".to_string(),
            path: "plan".to_string(),
            token: "tok".to_string(),
            result: json(r#"{"summary": "done"}"#),
        })
    );
}

#[test]
fn an_unreadable_result_is_still_reported_to_the_server() {
    for (read, expected_warning) in [
        (Ok("not json".to_string()), "invalid JSON"),
        (Err("no such file".to_string()), "failed to read"),
    ] {
        let report = build_node_report_params(node_env(), "/tmp/node/result.json", read);
        assert_eq!(
            report.params.result,
            Json::Null,
            "an unusable result file reports null rather than blocking the report"
        );
        assert_eq!(report.params.run_id, "run-1");
        assert_eq!(report.params.path, "plan");
        assert_eq!(report.params.token, "tok");
        let warning = report
            .local_error
            .expect("the client still says what it could not do");
        assert!(
            warning.contains(expected_warning),
            "unexpected warning: {warning}"
        );
    }
}

#[test]
fn parse_arg_assignment_splits_on_first_equals() {
    assert_eq!(
        parse_arg_assignment("goal=add dark mode").unwrap(),
        ("goal".to_string(), "add dark mode".to_string())
    );
    assert!(parse_arg_assignment("no-equals-sign").is_err());
    assert!(parse_arg_assignment("=missing-key").is_err());
}

#[test]
fn parse_workflow_tier_matches_wire_variants() {
    assert_eq!(parse_workflow_tier("auto").unwrap(), WorkflowTier::Auto);
    assert_eq!(parse_workflow_tier("max").unwrap(), WorkflowTier::Max);
    assert_eq!(parse_workflow_tier("high").unwrap(), WorkflowTier::High);
    assert_eq!(parse_workflow_tier("medium").unwrap(), WorkflowTier::Medium);
    assert_eq!(parse_workflow_tier("low").unwrap(), WorkflowTier::Low);
    assert!(parse_workflow_tier("ultra").is_err());
}

#[test]
fn workflow_named_list_is_reachable_through_run_start_and_run_list() {
    let (params, _json) = parse_workflow_run_start_args(&args(&["list"])).unwrap();
    assert_eq!(params.workflow_id, "list");

    let (params, _json) = parse_workflow_run_list_args(&args(&["list"])).unwrap();
    assert_eq!(params.workflow_id, Some("list".to_string()));

    let (target, _json) = parse_workflow_show_args(&args(&["list"])).unwrap();
    assert_eq!(target.workflow_id, "list");
}

#[test]
fn every_verb_path_is_dispatched_without_reaching_the_network() {
    for path in VERB_PATHS {
        match path {
            [verb] => assert!(
                matches!(*verb, "list" | "show" | "create" | "update"),
                "unexpected top-level verb {verb}"
            ),
            [group, verb] => assert!(
                matches!(*group, "run" | "node" | "summary" | "review"),
                "unexpected verb group {group} for verb {verb}"
            ),
            other => panic!("unexpected verb path shape: {other:?}"),
        }
        assert!(
            matches!(choose_verb(&args(path)), Choice::Verb { words, .. } if words == path.len()),
            "{path:?} is no verb"
        );
    }
}

#[test]
fn unknown_arg_message_names_the_unknown_key_and_the_declared_list() {
    let supplied = pairs(&[
        ("goal", "x"),
        ("bogus", "y"),
    ]);
    let declared = args(&["goal", "tier_hint"]);
    let message = unknown_arg_message("ship-feature", &supplied, &declared)
        .expect("an undeclared key should produce a message");
    assert!(message.contains("bogus"), "message: {message}");
    assert!(
        !message.contains("unknown --arg key(s): goal"),
        "goal is declared and must not be listed as unknown: {message}"
    );
    assert!(
        message.contains("goal"),
        "declared list should still name goal: {message}"
    );
    assert!(
        message.contains("tier_hint"),
        "declared list should name every declared arg: {message}"
    );
    assert!(message.contains("ship-feature"), "message: {message}");
}

#[test]
fn unknown_arg_message_is_none_when_every_supplied_key_is_declared() {
    let supplied = pairs(&[("goal", "x")]);
    let declared = args(&["goal"]);
    assert_eq!(
        unknown_arg_message("ship-feature", &supplied, &declared),
        None
    );
}

#[test]
fn unknown_arg_message_names_no_declared_args_when_there_are_none() {
    let supplied = pairs(&[("goal", "x")]);
    let declared = args(&[]);
    let message = unknown_arg_message("ship-feature", &supplied, &declared).unwrap();
    assert!(message.contains("(none declared)"), "message: {message}");
}

#[test]
fn blocking_run_nodes_finds_needs_attention_blocked_and_failed_only() {
    let nodes = json(r#"[
        { "path": "plan", "status": "succeeded" },
        { "path": "lint", "status": "needs_attention", "blocker": { "reason": "no workspace to host the node's pane", "resume_when": "a workspace is available" } },
        { "path": "gate", "status": "pending" },
        { "path": "deploy", "status": "failed" }
    ]"#);
    let nodes = nodes.as_array().unwrap();
    let blocking = blocking_run_nodes(nodes);
    let paths: Vec<&str> = blocking.iter().map(|node| node.path.as_str()).collect();
    assert_eq!(paths, vec!["lint", "deploy"]);

    let lint = &blocking[0];
    assert_eq!(lint.status, "needs_attention");
    assert_eq!(lint.reason.as_deref(), Some("no workspace to host the node's pane"));
    assert_eq!(lint.resume_when.as_deref(), Some("a workspace is available"));

    let deploy = &blocking[1];
    assert_eq!(deploy.reason, None);
    assert_eq!(deploy.resume_when, None);
}

#[test]
fn blocking_run_nodes_is_empty_when_nothing_is_stuck() {
    let nodes = json(r#"[
        { "path": "plan", "status": "succeeded" },
        { "path": "implement", "status": "running" }
    ]"#);
    assert!(blocking_run_nodes(nodes.as_array().unwrap()).is_empty());
}

#[test]
fn update_was_deduplicated_matches_when_the_new_version_equals_the_previous_head() {
    assert!(update_was_deduplicated(Some(3), Some(3)));
    assert!(!update_was_deduplicated(Some(3), Some(4)));
    assert!(!update_was_deduplicated(None, Some(3)));
    assert!(!update_was_deduplicated(Some(3), None));
}

#[test]
fn duplicate_workflow_name_error_is_reworded_without_db_internals() {
    let message = "workflow store query failed: Database index `workflow_name` already contains 'demo', with record `workflow:6v4g4nctlshyixd756r8`";
    let humanized = humanize_workflow_error_message("workflow_store_error", message);
    assert!(humanized.contains("\"demo\""), "humanized: {humanized}");
    assert!(
        humanized.contains("already exists"),
        "humanized: {humanized}"
    );
    assert!(
        !humanized.contains("Database index"),
        "DB internals must not survive: {humanized}"
    );
    assert!(
        !humanized.contains("workflow:6v4g4nctlshyixd756r8"),
        "the raw record id must not survive: {humanized}"
    );
}

#[test]
fn unrelated_store_errors_are_left_alone() {
    let message = "workflow store query failed: connection reset";
    assert_eq!(
        humanize_workflow_error_message("workflow_store_error", message),
        message
    );
    let kvdag_message = "invalid kvdag: graph is cyclic through: a, b";
    assert_eq!(
        humanize_workflow_error_message("invalid_kvdag", kvdag_message),
        kvdag_message
    );
}

#[test]
fn duplicate_workflow_name_extracts_the_offending_name() {
    let message = "Database index `workflow_name` already contains 'ship-feature', with record `workflow:abc`";
    assert_eq!(duplicate_workflow_name(message).as_deref(), Some("ship-feature"));
    assert_eq!(duplicate_workflow_name("totally unrelated message"), None);
}

#[test]
fn print_workflow_local_error_returns_a_nonzero_exit_code() {
    let mut console = Console::new();
    assert_eq!(
        print_workflow_local_error(
            "invalid_definition",
            "line one\nline two",
            false,
            &mut console
        ),
        1
    );
    assert_eq!(
        print_workflow_local_error("invalid_definition", "line one\nline two", true, &mut console),
        1
    );
}

#[test]
fn every_mutating_workflow_verb_renders_its_refusal_for_a_human() {
    for words in [
        vec!["run", "cancel", "run-1"],
        vec!["node", "steer", "run-1", "plan", "hurry"],
        vec!["node", "interrupt", "run-1", "plan"],
        vec!["node", "restart", "run-1", "plan"],
    ] {
        let mut console = Console::new();
        let step = run_workflow_command(&args(&words), &no_env(), &mut console);
        let then = match step {
            Step::Send { then, .. } => then,
            other => panic!("{words:?} sends a request: {other:?}"),
        };
        let refusal = read_reply(
            r#"{"id":"1","error":{"code":"workflow_run_closed","message":"the run is over"}}"#,
        )
        .unwrap();
        assert_eq!(resume_reply(then, refusal, &mut console), Step::Exit(1));
        assert!(console.out.is_empty(), "{:?}", console.out);
        assert_eq!(
            console.err.join("\n"),
            "error: workflow_run_closed\n  the run is over"
        );
    }
}

#[test]
fn format_unix_ms_renders_known_epoch_instants() {
    assert_eq!(format_unix_ms(0), "1970-01-01 00:00:00 UTC");
    assert_eq!(format_unix_ms(1_704_067_200_000), "2024-01-01 00:00:00 UTC");
    assert_eq!(format_unix_ms(951_827_696_000), "2000-02-29 12:34:56 UTC");
}

#[test]
fn civil_from_days_matches_known_calendar_dates() {
    assert_eq!(civil_from_days(0), (1970, 1, 1));
    assert_eq!(civil_from_days(-1), (1969, 12, 31));
    assert_eq!(civil_from_days(19_723), (2024, 1, 1));
}

#[test]
fn workflow_review_start_and_show_parse_run_id_and_json() {
    let (target, json) = parse_workflow_review_run_target_args(
        &args(&["run-1"]),
        "usage: kvx workflow review start <run_id> [--json]",
    )
    .unwrap();
    assert_eq!(target.run_id, "run-1");
    assert!(!json);

    let (target, json) = parse_workflow_review_run_target_args(
        &args(&["run-1", "--json"]),
        "usage: kvx workflow review start <run_id> [--json]",
    )
    .unwrap();
    assert_eq!(target.run_id, "run-1");
    assert!(json);

    assert!(parse_workflow_review_run_target_args(
        &args(&[]),
        "usage: kvx workflow review start <run_id> [--json]",
    )
    .is_err());
}

#[test]
fn workflow_review_apply_accept_is_repeatable_and_deduplication_is_the_server_side() {
    let (params, json) = parse_workflow_review_apply_args(&args(&[
        "run-1", "--accept", "plan", "--accept", "lint",
    ]))
    .unwrap();
    assert_eq!(params.run_id, "run-1");
    assert_eq!(params.accept, vec!["plan".to_string(), "lint".to_string()]);
    assert!(!json);
}

#[test]
fn workflow_review_apply_decline_all_sends_an_empty_accept() {
    let (params, _json) =
        parse_workflow_review_apply_args(&args(&["run-1", "--decline-all", "--json"])).unwrap();
    assert_eq!(params.run_id, "run-1");
    assert!(params.accept.is_empty());
}

#[test]
fn workflow_review_apply_bare_is_refused() {
    let error = parse_workflow_review_apply_args(&args(&["run-1"])).unwrap_err();
    assert!(
        error.contains("--accept") && error.contains("--decline-all"),
        "error should name both ways to decide: {error}"
    );
}

#[test]
fn workflow_review_apply_accept_and_decline_all_together_is_refused() {
    let error = parse_workflow_review_apply_args(&args(&[
        "run-1",
        "--accept",
        "plan",
        "--decline-all",
    ]))
    .unwrap_err();
    assert!(error.contains("not both"), "error: {error}");
}

#[test]
fn workflow_review_answer_defaults_run_id_and_member_from_env() {
    let (params, json) = parse_workflow_review_answer_args(
        &args(&["--file", "/abs/answers/scout.json"]),
        Some("run-1".to_string()),
        Some("scout".to_string()),
    )
    .unwrap();
    assert_eq!(params.run_id, "run-1");
    assert_eq!(params.member, "scout");
    assert_eq!(
        params.answer_file.as_deref(),
        Some("/abs/answers/scout.json")
    );
    assert_eq!(params.answer, None);
    assert!(!json);
}

#[test]
fn workflow_review_answer_has_no_run_or_member_override_flag() {
    let error = parse_workflow_review_answer_args(
        &args(&["--file", "x.json", "--run", "run-1"]),
        Some("run-1".to_string()),
        Some("scout".to_string()),
    )
    .unwrap_err();
    assert!(error.contains("unknown option"), "error: {error}");
}

#[test]
fn workflow_review_answer_missing_run_id_env_is_refused() {
    let error = parse_workflow_review_answer_args(
        &args(&["--file", "x.json"]),
        None,
        Some("scout".into()),
    )
    .unwrap_err();
    assert!(error.contains(REVIEW_RUN_ID_ENV_VAR), "error: {error}");
}

#[test]
fn workflow_review_answer_missing_member_env_is_refused() {
    let error = parse_workflow_review_answer_args(
        &args(&["--file", "x.json"]),
        Some("run-1".into()),
        None,
    )
    .unwrap_err();
    assert!(error.contains(REVIEW_MEMBER_ENV_VAR), "error: {error}");
}

#[test]
fn workflow_review_answer_requires_a_file() {
    let error = parse_workflow_review_answer_args(
        &args(&[]),
        Some("run-1".into()),
        Some("scout".into()),
    )
    .unwrap_err();
    assert!(error.contains("--file"), "error: {error}");
}

#[test]
fn workflow_review_report_defaults_run_id_from_env_and_carries_no_member() {
    let (params, _json) = parse_workflow_review_report_args(
        &args(&["--file", "/abs/findings.json"]),
        Some("run-1".to_string()),
    )
    .unwrap();
    assert_eq!(params.run_id, "run-1");
    assert_eq!(params.findings_file.as_deref(), Some("/abs/findings.json"));
    assert_eq!(params.findings, None);
}

#[test]
fn workflow_review_report_missing_run_id_env_is_refused() {
    let error =
        parse_workflow_review_report_args(&args(&["--file", "x.json"]), None).unwrap_err();
    assert!(error.contains(REVIEW_RUN_ID_ENV_VAR), "error: {error}");
}

#[test]
fn workflow_review_compile_failed_code_surfaces_verbatim() {
    let response = json(r#"{
        "id": "cli:workflow:review:apply",
        "error": {
            "code": "workflow_review_compile_failed",
            "message": "finding \"plan\" has no replacement, required for verdict replace"
        }
    }"#);
    let rendered =
        format_workflow_error(&response).expect("an error envelope renders a message");
    assert!(
        rendered.contains("workflow_review_compile_failed"),
        "rendered: {rendered}"
    );
    assert!(
        !rendered.contains("invalid_definition"),
        "must not be relabelled as the authoring-error code: {rendered}"
    );
}

#[test]
fn review_verb_paths_are_all_present() {
    for verb in ["start", "show", "apply", "answer", "report"] {
        assert!(
            VERB_PATHS.contains(&["review", verb].as_slice()),
            "review {verb} is missing from the verb paths"
        );
    }
}
