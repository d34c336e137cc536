//! The top of the command line, its settings, and what is told where the server is not
//! there.

use karvex::cli::connect::{
    map_server_not_running_or_io, print_read_response, send_ok_request, socket_path_too_long_error,
    ApiClientError, Failure, ReadShown, SOCKET_PATH_ENV_VAR,
};
use karvex::cli::plans::WorkflowEnv;
use karvex::cli::settings::{
    channel_set_install_action, channel_set_rejection, config_reset_keys, key_config_backup_path,
    parse_channel_set_arg, Channel, ChannelSetInstallAction, ResetKeys,
};
use karvex::cli::tasks::{Namespace, Task};
use karvex::cli::values::{
    parse_agent_status, parse_env_assignment, parse_pane_agent_state, parse_read_format,
    parse_read_source, parse_split_direction, parse_token_assignment, parse_u64_flag, AgentStatus,
    PaneAgentState, ReadFormat, ReadSource, SplitDirection,
};
use karvex::cli::{maybe_run, restores_default_sigpipe, CommandOutcome, Dispatch};
use karvex::console::Console;
use karvex::documents::read_reply;
use karvex::ipc::{IoFailure, IoKind};

fn args(values: &[&str]) -> Vec<String> {
    values.iter().map(|value| (*value).to_string()).collect()
}

fn no_env() -> WorkflowEnv {
    WorkflowEnv {
        run_id: None,
        node_path: None,
        node_dir: None,
        node_token: None,
        review_run_id: None,
        review_member: None,
        pane_id: None,
        messaging_socket: None,
        messaging_token: None,
        agent_name: "the agent".to_string(),
        windows: false,
    }
}

fn run(words: &[&str], console: &mut Console) -> Dispatch {
    maybe_run(&args(words), false, &no_env(), console)
}

fn failure(kind: IoKind, message: &str) -> IoFailure {
    IoFailure {
        kind,
        message: message.to_string(),
    }
}

const SOCKET: &str = "/home/user/.config/karvex/karvex.sock";

#[test]
fn restores_default_sigpipe_only_for_print_and_exit_commands() {
    for (command, subcommand) in [
        ("workflow", Some("run")),
        ("pane", Some("list")),
        ("agent", Some("read")),
        ("status", None),
        ("api", Some("methods")),
        ("tab", Some("list")),
        ("completion", Some("bash")),
        ("workspace", Some("list")),
        ("terminal", Some("title")),
        ("--help", None),
        ("--version", None),
        ("--skill", None),
        ("--default-config", None),
    ] {
        assert!(
            restores_default_sigpipe(command, subcommand),
            "{command} {subcommand:?} prints and exits"
        );
    }

    assert!(!restores_default_sigpipe("client", Some("--help")));
    assert!(!restores_default_sigpipe("--help", Some("--session")));

    for command in [
        "server",
        "client",
        "remote-client-bridge",
        "update",
        "--session",
        "--remote",
        "my-session-name",
    ] {
        assert!(
            !restores_default_sigpipe(command, None),
            "{command} does not print and exit"
        );
    }

    for (command, subcommand) in [
        ("agent", Some("attach")),
        ("terminal", Some("attach")),
        ("terminal", Some("session")),
    ] {
        assert!(
            !restores_default_sigpipe(command, subcommand),
            "{command} {subcommand:?} takes over the terminal"
        );
    }
}

#[test]
fn parses_channel_set_argument() {
    assert_eq!(
        parse_channel_set_arg(&args(&["preview"])).map(|channel| channel.name()),
        Some("preview")
    );
    assert_eq!(
        parse_channel_set_arg(&args(&["stable"])).map(|channel| channel.name()),
        Some("stable")
    );
    assert_eq!(parse_channel_set_arg(&args(&["nightly"])), None);
    assert_eq!(parse_channel_set_arg(&args(&["preview", "stable"])), None);
}

#[test]
fn channel_set_rejects_package_managed_preview_before_config_write() {
    let no_preview = || Some("no preview".to_string());
    for windows in [false, true] {
        assert_eq!(
            channel_set_rejection(Channel::Preview, no_preview(), windows),
            no_preview()
        );
        assert_eq!(
            channel_set_rejection(Channel::Stable, no_preview(), windows).as_deref(),
            if windows {
                Some("stable channel is not available on Windows yet; Windows builds are preview-only")
            } else {
                None
            }
        );
        assert_eq!(channel_set_rejection(Channel::Preview, None, windows), None);
    }
}

#[test]
fn channel_set_rejects_stable_only_on_windows() {
    assert_eq!(
        channel_set_rejection(Channel::Stable, None, true).as_deref(),
        Some("stable channel is not available on Windows yet; Windows builds are preview-only")
    );
    assert_eq!(channel_set_rejection(Channel::Stable, None, false), None);
}

#[test]
fn channel_set_skips_self_update_for_package_manager_guidance() {
    assert_eq!(
        channel_set_install_action(Some("use package manager".to_string())),
        ChannelSetInstallAction::PrintGuidance("use package manager".to_string())
    );
    assert_eq!(
        channel_set_install_action(None),
        ChannelSetInstallAction::RunSelfUpdate
    );
}

#[test]
fn parse_env_assignment_accepts_empty_values() {
    assert_eq!(
        parse_env_assignment("KARVEX_ROLE=").unwrap(),
        ("KARVEX_ROLE".to_string(), String::new())
    );
}

#[test]
fn parse_env_assignment_requires_key_value_separator() {
    assert_eq!(
        parse_env_assignment("KARVEX_ROLE").unwrap_err(),
        "env must use KEY=VALUE"
    );
}

#[test]
fn maps_dead_server_connect_failure_to_friendly_error() {
    let mapped = map_server_not_running_or_io(
        ApiClientError::Io(failure(IoKind::NotFound, "entity not found")),
        "cli:workspace:create",
        SOCKET,
    );
    let response = match mapped {
        Failure::Reported(response) => response,
        other => panic!("a dead server is reported: {other:?}"),
    };
    assert_eq!(response.id, "cli:workspace:create");
    assert_eq!(response.code, "server_not_running");
    assert!(response.message.contains(SOCKET));
}

#[test]
fn classifier_ignores_unrelated_io_kinds() {
    let mapped = map_server_not_running_or_io(
        ApiClientError::Io(failure(IoKind::TimedOut, "timed out")),
        "cli:workspace:create",
        SOCKET,
    );
    assert!(!matches!(mapped, Failure::Reported(_)));
}

#[test]
fn maps_sun_path_too_long_connect_failure_to_actionable_error() {
    let mapped = map_server_not_running_or_io(
        ApiClientError::Io(failure(
            IoKind::InvalidInput,
            "local socket name length exceeds capacity of sun_path of sockaddr_un",
        )),
        "cli:session:list",
        SOCKET,
    );
    let response = match mapped {
        Failure::Reported(response) => response,
        other => panic!("a path that is too long is reported: {other:?}"),
    };
    assert_eq!(response.id, "cli:session:list");
    assert_eq!(response.code, "socket_path_too_long");
    assert!(
        response.message.contains(SOCKET),
        "message should name the offending path: {}",
        response.message
    );
    assert!(
        response.message.contains(&SOCKET.len().to_string()),
        "message should name the actual path length: {}",
        response.message
    );
    assert!(
        response.message.contains(SOCKET_PATH_ENV_VAR),
        "message should name the env var to override: {}",
        response.message
    );
    assert!(
        !response.message.contains("Custom {"),
        "message should never leak raw error formatting: {}",
        response.message
    );
}

#[test]
fn sun_path_classifier_only_matches_the_specific_os_error() {
    assert!(socket_path_too_long_error(&failure(
        IoKind::InvalidInput,
        "local socket name length exceeds capacity of sun_path of sockaddr_un",
    )));
    assert!(!socket_path_too_long_error(&failure(
        IoKind::InvalidInput,
        "some other invalid input",
    )));
    assert!(!socket_path_too_long_error(&failure(
        IoKind::NotFound,
        "entity not found"
    )));
}

#[test]
fn workflow_command_is_dispatched_without_reaching_the_network() {
    let mut console = Console::new();
    assert_eq!(
        run(&["kvx", "workflow", "not-a-real-verb"], &mut console),
        Dispatch::Done(CommandOutcome::Handled(2))
    );
}

#[test]
fn an_invocation_without_a_command_is_left_alone() {
    let mut console = Console::new();
    for words in [vec!["kvx"], vec!["kvx", "--session", "work"], vec!["kvx", "client"]] {
        assert_eq!(
            run(&words, &mut console),
            Dispatch::Done(CommandOutcome::NotCli)
        );
    }
    assert_eq!(
        maybe_run(&args(&["kvx", "workflow", "--help"]), true, &no_env(), &mut console),
        Dispatch::Done(CommandOutcome::Handled(0))
    );
    assert!(console.out.is_empty() && console.err.is_empty());
}

#[test]
fn commands_of_other_parts_are_handed_on_with_their_arguments() {
    let mut console = Console::new();
    assert_eq!(
        run(&["kvx", "pane", "list", "--json"], &mut console),
        Dispatch::Run(Task::Elsewhere {
            namespace: Namespace::Pane,
            args: args(&["list", "--json"]),
        })
    );
}

fn reset_keys(content: Option<&str>, stripped: Option<&str>, console: &mut Console) -> ResetKeys {
    config_reset_keys(
        "/c/config.toml",
        content.map(str::to_string),
        stripped.map(str::to_string),
        7,
        false,
        console,
    )
}

#[test]
fn only_valid_configurations_are_rewritten() {
    for (content, stripped, complaint) in [
        ("keys = [", Some(""), "is invalid TOML"),
        ("[keys]\nx = 1\n", None, "could not safely remove keybinding config"),
        ("[keys]\nx = 1\n", Some("a = ["), "leaving config unchanged"),
    ] {
        let mut console = Console::new();
        assert_eq!(
            reset_keys(Some(content), stripped, &mut console),
            ResetKeys::Exit(1)
        );
        assert!(console.err.join("\n").contains(complaint), "{:?}", console.err);
    }
    for content in [None, Some("theme = \"dark\"\n")] {
        let mut console = Console::new();
        assert_eq!(
            reset_keys(content, Some("never looked at ["), &mut console),
            ResetKeys::Exit(0)
        );
        assert!(console.out.join("\n").contains("Built-in v2 keybindings already apply"));
    }
    let mut console = Console::new();
    assert_eq!(
        reset_keys(
            Some("theme = \"dark\"\n[keys]\nx = 1\n"),
            Some("theme = \"dark\"\n"),
            &mut console
        ),
        ResetKeys::Rewrite {
            backup: "/c/config.toml.bak-keybind-v2-7".to_string(),
            updated: "theme = \"dark\"\n".to_string(),
        }
    );
    assert!(console.out.is_empty() && console.err.is_empty());
}

#[test]
fn a_configuration_is_kept_beside_itself() {
    for (path, backup) in [
        ("/c/config.toml", "/c/config.toml"),
        ("/", "/config.toml"),
        ("a//b", "a/b"),
        ("a/./b/.", "a/b"),
        ("a//b/c", "a//b/c"),
        ("./b", "./b"),
        ("//b", "/b"),
        ("..", "../config.toml"),
    ] {
        assert_eq!(
            key_config_backup_path(path, 7, false),
            format!("{backup}.bak-keybind-v2-7")
        );
    }
    for (path, backup) in [
        ("C:\\c\\config.toml", "C:\\c\\config.toml"),
        ("C:config.toml", "C:config.toml"),
        ("c\\\\config.toml", "c\\config.toml"),
        ("\\\\server\\share", "\\\\server\\share\\config.toml"),
    ] {
        assert_eq!(
            key_config_backup_path(path, 7, true),
            format!("{backup}.bak-keybind-v2-7")
        );
    }
}

#[test]
fn values_of_flags_are_read_by_name() {
    assert_eq!(parse_u64_flag("--lines", "12"), Ok(12));
    assert!(parse_u64_flag("--lines", "many").is_err());
    assert_eq!(parse_split_direction("right"), Ok(SplitDirection::Right));
    assert_eq!(parse_split_direction("down"), Ok(SplitDirection::Down));
    assert!(parse_split_direction("left").is_err());
    assert_eq!(parse_read_source("visible"), Ok(ReadSource::Visible));
    assert!(parse_read_source("hidden").is_err());
    assert_eq!(parse_read_format("ansi"), Ok(ReadFormat::Ansi));
    assert!(parse_read_format("html").is_err());
    assert_eq!(parse_agent_status("idle"), Ok(AgentStatus::Idle));
    assert!(parse_agent_status("asleep").is_err());
    assert_eq!(parse_pane_agent_state("working"), Ok(PaneAgentState::Working));
    assert!(parse_pane_agent_state("gone").is_err());
}

#[test]
fn a_token_has_a_name_and_any_value() {
    assert_eq!(
        parse_token_assignment("role=lead"),
        Ok(("role".to_string(), Some("lead".to_string())))
    );
    assert_eq!(
        parse_token_assignment("role="),
        Ok(("role".to_string(), Some(String::new())))
    );
    assert!(parse_token_assignment("=lead").is_err());
}

#[test]
fn a_pane_that_was_read_is_printed_as_it_is() {
    let mut console = Console::new();
    let read = read_reply(r#"{"id":"1","result":{"read":{"text":"$ ls\na b"}}}"#).unwrap();
    assert_eq!(
        print_read_response(&read, &mut console),
        ReadShown::Text("$ ls\na b".to_string())
    );
    let refused = read_reply(r#"{"id":"1","error":{"code":"gone","message":"no pane"}}"#).unwrap();
    assert_eq!(
        print_read_response(&refused, &mut console),
        ReadShown::Failed(1)
    );
    assert_eq!(send_ok_request(&refused, &mut console), 1);
    assert_eq!(send_ok_request(&read, &mut console), 0);
    assert_eq!(
        console.err,
        vec![
            r#"{"error":{"code":"gone","message":"no pane"},"id":"1"}"#,
            r#"{"error":{"code":"gone","message":"no pane"},"id":"1"}"#
        ]
    );
}
