//! The `tmux` command line, served.

use karvex::cli::connect::ApiClientError;
use karvex::cli::tmux::{
    decode_pane_id, decode_window_id, encode_pane_id, encode_window_id, invoked_as_tmux,
    looks_like_foreign_pane_id, pane_number_part, pane_ordinal, parse_invocation,
    plan_accent, plan_display_message, plan_kill_pane, plan_respawn_pane, plan_select_pane,
    plan_send_keys, plan_set_option, plan_show_options, plan_split_window,
    shell_looks_ready, should_service, socket_from_env_values, socket_paths_match,
    trailing_command, AccentCounter, AccentPlan, DisplayFormat, DisplayMessagePlan,
    AGENT_ACCENT_TOKEN_KEY,
};
use karvex::cli::tmux_run::{
    describe_client_error, find_real_tmux, resume_answer, resume_panes, run_shim, shim_answer,
    split_failure, AnswerPending, Candidate, PanesPending, ShimEnv, ShimMethod, ShimStep,
};
use karvex::cli::values::SplitDirection;
use karvex::console::Console;
use karvex::documents::{read_reply, Reply};
use karvex::ipc::{IoFailure, IoKind};

fn strings(values: &[&str]) -> Vec<String> {
    values.iter().map(|value| value.to_string()).collect()
}

fn serviced(socket: &str, args: &[&str]) -> bool {
    should_service(
        &parse_invocation(&strings(args)),
        Some(socket),
        &None,
        &None,
    )
}

fn env() -> ShimEnv {
    ShimEnv {
        socket_path: Some("/tmp/karvex.sock".to_string()),
        tmux: None,
        requested_file: None,
        own_file: None,
        tmux_pane: None,
        karvex_pane_id: Some("w1:p1".to_string()),
        term: None,
    }
}

fn shim(args: &[&str], console: &mut Console) -> ShimStep {
    run_shim(&strings(args), &env(), &mut AccentCounter::new(), console)
}

fn io(kind: IoKind, message: &str) -> ApiClientError {
    ApiClientError::Io(IoFailure {
        kind,
        message: message.to_string(),
    })
}

const DIGITS: &str = "0123456789ABCDEFGHJKMNPQRSTVWXYZ";

fn ordinal(pane_id: &str) -> u64 {
    let decoded = pane_number_part(pane_id).map(|number| {
        number.chars().fold(0, |value, digit| {
            value * 32 + DIGITS.find(digit).expect("a digit") as u64
        })
    });
    pane_ordinal(pane_id, decoded)
}

fn pane_numbered(number: u64) -> String {
    format!("w1:p{}", &DIGITS[number as usize..number as usize + 1])
}

#[test]
fn invoked_as_tmux_matches_only_the_tmux_stem() {
    assert!(invoked_as_tmux("tmux", false));
    assert!(invoked_as_tmux("/usr/local/bin/tmux", false));
    assert!(invoked_as_tmux("./shims/tmux", false));
    assert!(!invoked_as_tmux("kvx", false));
    assert!(!invoked_as_tmux("/usr/bin/kvx", false));
    assert!(!invoked_as_tmux("/tmp/tmux-wrapper", false));
    assert!(invoked_as_tmux("C:\\bin\\tmux.exe", true));
    assert!(!invoked_as_tmux("C:\\bin\\tmux.exe", false));
}

#[test]
fn parses_socket_and_subcommand() {
    let parsed = parse_invocation(&strings(&[
        "-S",
        "/tmp/karvex.sock",
        "display-message",
        "-p",
        "#{pane_id}",
    ]));
    assert_eq!(parsed.socket_path.as_deref(), Some("/tmp/karvex.sock"));
    assert_eq!(parsed.subcommand.as_deref(), Some("display-message"));
    assert_eq!(parsed.args, strings(&["-p", "#{pane_id}"]));
    assert!(!parsed.version_only);
}

#[test]
fn parses_version_flag() {
    let parsed = parse_invocation(&strings(&["-V"]));
    assert!(parsed.version_only);
    assert!(parsed.subcommand.is_none());
}

#[test]
fn named_socket_is_not_serviced() {
    let parsed = parse_invocation(&strings(&["-L", "named", "has-session", "-t", "x"]));
    assert_eq!(parsed.named_socket.as_deref(), Some("named"));
    assert!(!should_service(&parsed, Some("/tmp/karvex.sock"), &None, &None));
    assert!(!serviced(
        "/tmp/karvex.sock",
        &["-L", "named", "kill-pane", "-t", "w1:p1"]
    ));
}

#[test]
fn socket_mismatch_is_not_serviced() {
    assert!(!serviced(
        "/tmp/karvex-a.sock",
        &["-S", "/tmp/karvex-b.sock", "kill-pane", "-t", "w1:p1"]
    ));
    assert!(serviced(
        "/tmp/karvex-a.sock",
        &["-S", "/tmp/karvex-a.sock", "kill-pane", "-t", "w1:p1"]
    ));
}

#[test]
fn unknown_subcommand_is_not_serviced() {
    assert!(!serviced(
        "/tmp/karvex.sock",
        &["new-session", "-s", "work"]
    ));
    assert!(!serviced("/tmp/karvex.sock", &[]));
}

#[test]
fn no_resolvable_socket_is_not_serviced() {
    let parsed = parse_invocation(&strings(&["kill-pane", "-t", "w1:p1"]));
    assert!(!should_service(&parsed, None, &None, &None));
}

#[test]
fn socket_paths_match_compares_canonicalised_paths() {
    let real = Some("/run/karvex.sock".to_string());
    assert!(socket_paths_match(
        "/run/karvex.sock",
        "/run/karvex.sock",
        &real,
        &real
    ));
    assert!(socket_paths_match(
        "/run/alias.sock",
        "/run/karvex.sock",
        &real,
        &real
    ));
    assert!(!socket_paths_match(
        "/run/other.sock",
        "/run/karvex.sock",
        &None,
        &real
    ));
}

#[test]
fn socket_resolution_prefers_socket_path_then_tmux() {
    assert_eq!(
        socket_from_env_values(Some("/tmp/a.sock"), Some("/tmp/b.sock,42,0")),
        Some("/tmp/a.sock".to_string())
    );
    assert_eq!(
        socket_from_env_values(None, Some("/tmp/b.sock,42,0")),
        Some("/tmp/b.sock".to_string())
    );
    assert_eq!(
        socket_from_env_values(Some("  "), Some("/tmp/b.sock,42,0")),
        Some("/tmp/b.sock".to_string())
    );
    assert_eq!(socket_from_env_values(None, Some(",42,0")), None);
    assert_eq!(socket_from_env_values(None, None), None);
}

#[test]
fn resolves_socket_from_karvex_socket_path_env() {
    assert_eq!(
        socket_from_env_values(
            Some("/tmp/karvex-explicit.sock"),
            Some("/tmp/karvex-from-tmux.sock,42,0")
        ),
        Some("/tmp/karvex-explicit.sock".to_string())
    );
}

#[test]
fn resolves_socket_from_tmux_env_when_socket_path_unset() {
    assert_eq!(
        socket_from_env_values(None, Some("/tmp/karvex-from-tmux.sock,42,0")),
        Some("/tmp/karvex-from-tmux.sock".to_string())
    );
    assert_eq!(socket_from_env_values(None, None), None);
}

#[test]
fn encode_decode_pane_id_roundtrips() {
    for id in ["w1:p1", "w2:p10", "w1:p3"] {
        assert_eq!(decode_pane_id(&encode_pane_id(id)), id);
        assert_eq!(encode_pane_id(&decode_pane_id(id)), id);
    }
    for id in ["w1:t1", "w2:t7"] {
        assert_eq!(decode_window_id(&encode_window_id(id)), id);
    }
}

#[test]
fn pane_ordinal_orders_creation() {
    assert!(ordinal("w1:p2") < ordinal("w1:p10"));
    assert!(ordinal("w1:p1") < ordinal("w1:p2"));
    assert_eq!(ordinal(&pane_numbered(10)), 10);
    assert!(ordinal("w1:p9") < ordinal("w1:pA"));
    let ordered: Vec<String> = (1..=12).map(pane_numbered).collect();
    let mut shuffled = ordered.clone();
    shuffled.reverse();
    shuffled.sort_by_key(|id| ordinal(id));
    assert_eq!(shuffled, ordered);
}

#[test]
fn foreign_tmux_pane_ids_are_not_trusted() {
    assert!(looks_like_foreign_pane_id("%12"));
    assert!(!looks_like_foreign_pane_id("w1:p2"));
    assert!(!looks_like_foreign_pane_id(""));
}

#[test]
fn split_flags_extracted() {
    let args = strings(&[
        "-d",
        "-t",
        "w1:p1",
        "-h",
        "-l",
        "70%",
        "-P",
        "-F",
        "#{pane_id}",
        "--",
        "sleep 100000",
    ]);
    let plan = plan_split_window(&args);
    assert_eq!(plan.target.as_deref(), Some("w1:p1"));
    assert!(plan.print_pane_id);
    assert_eq!(trailing_command(&args).as_deref(), Some("sleep 100000"));
}

#[test]
fn trailing_command_absent() {
    assert_eq!(trailing_command(&strings(&["-t", "w1:p1"])), None);
    assert_eq!(trailing_command(&strings(&["-t", "w1:p1", "--"])), None);
}

#[test]
fn split_direction_defaults_to_right_and_honours_v() {
    assert_eq!(
        plan_split_window(&strings(&["-t", "w1:p1", "-h"])).direction,
        SplitDirection::Right
    );
    assert_eq!(
        plan_split_window(&strings(&["-t", "w1:p1"])).direction,
        SplitDirection::Right
    );
    assert_eq!(
        plan_split_window(&strings(&["-t", "w1:p1", "-v"])).direction,
        SplitDirection::Down
    );
    assert_eq!(
        plan_split_window(&strings(&["-t", "w1:p1", "--", "grep", "-v", "x"])).direction,
        SplitDirection::Right
    );
}

#[test]
fn split_d_flag_maps_to_focus_false_and_absent_d_focuses() {
    assert!(!plan_split_window(&strings(&["-d", "-t", "w1:p1", "-h"])).focus);
    assert!(plan_split_window(&strings(&["-t", "w1:p1", "-h"])).focus);
}

#[test]
fn split_failure_message_mentions_no_space() {
    let message = split_failure("pane_split_failed");
    assert!(message.contains("no space"), "unexpected {message}");
    assert!(message.contains("too small"), "unexpected {message}");
}

#[test]
fn respawn_plan_extracts_target_and_command() {
    let plan = plan_respawn_pane(&strings(&[
        "-k",
        "-t",
        "w1:p2",
        "--",
        "agent --agent-name teammate-a",
    ]));
    assert_eq!(plan.target.as_deref(), Some("w1:p2"));
    assert_eq!(
        plan.command.as_deref(),
        Some("agent --agent-name teammate-a")
    );
    assert_eq!(plan_respawn_pane(&strings(&["-t", "w1:p2"])).command, None);
}

#[test]
fn shell_readiness_requires_two_stable_non_empty_samples() {
    assert!(!shell_looks_ready("", ""));
    assert!(!shell_looks_ready("   ", "   "));
    assert!(!shell_looks_ready("", "user@host:~$"));
    assert!(!shell_looks_ready("user@host:~", "user@host:~$"));
    assert!(shell_looks_ready("user@host:~$", "user@host:~$"));
}

#[test]
fn send_keys_detects_trailing_enter() {
    let plan = plan_send_keys(&strings(&["-t", "w1:p2", "echo", "hi", "Enter"]));
    assert_eq!(plan.target.as_deref(), Some("w1:p2"));
    assert_eq!(plan.text, "echo hi");
    assert_eq!(plan.keys, strings(&["Enter"]));

    let plan = plan_send_keys(&strings(&["-t", "w1:p2", "echo", "hi"]));
    assert_eq!(plan.text, "echo hi");
    assert!(plan.keys.is_empty());
}

#[test]
fn send_keys_strips_flag_values() {
    let plan = plan_send_keys(&strings(&["-l", "-t", "w1:p2", "-R", "payload", "Enter"]));
    assert_eq!(plan.target.as_deref(), Some("w1:p2"));
    assert_eq!(plan.text, "payload");
    assert_eq!(plan.keys, strings(&["Enter"]));
}

#[test]
fn display_message_selects_format() {
    assert_eq!(
        plan_display_message(&strings(&["-p", "#{pane_id}"])),
        DisplayMessagePlan {
            target: None,
            format: DisplayFormat::PaneId,
        }
    );
    assert_eq!(
        plan_display_message(&strings(&["-t", "w1:p2", "-p", "#{window_id}"])),
        DisplayMessagePlan {
            target: Some("w1:p2".to_string()),
            format: DisplayFormat::WindowId,
        }
    );
    assert_eq!(
        plan_display_message(&strings(&["-p", "#{client_control_mode}"])).format,
        DisplayFormat::ClientControlMode
    );
    assert_eq!(
        plan_display_message(&strings(&["-p", "#{client_termtype}"])).format,
        DisplayFormat::ClientTermtype
    );
}

#[test]
fn display_message_unknown_format_is_empty() {
    assert_eq!(
        plan_display_message(&strings(&["-p", "#{session_name}"])).format,
        DisplayFormat::Unsupported
    );
    assert_eq!(
        plan_display_message(&strings(&["-p"])).format,
        DisplayFormat::Unsupported
    );
    assert_eq!(
        plan_display_message(&strings(&[])).format,
        DisplayFormat::Unsupported
    );
}

#[test]
fn select_pane_title_maps_to_rename() {
    let plan = plan_select_pane(&strings(&["-t", "w1:p2", "-T", "teammate-a"]));
    assert_eq!(plan.target.as_deref(), Some("w1:p2"));
    assert_eq!(plan.title.as_deref(), Some("teammate-a"));
}

#[test]
fn select_pane_without_title_accepts() {
    let plan = plan_select_pane(&strings(&["-t", "w1:p2"]));
    assert_eq!(plan.title, None);
    let mut console = Console::new();
    assert_eq!(shim(&["select-pane", "-t", "w1:p2"], &mut console), ShimStep::Exit(0));
    assert!(console.out.is_empty() && console.err.is_empty());
}

#[test]
fn kill_pane_plan_reads_target() {
    assert_eq!(
        plan_kill_pane(&strings(&["-t", "w1:p2"])).target.as_deref(),
        Some("w1:p2")
    );
    assert_eq!(plan_kill_pane(&strings(&[])).target, None);
}

#[test]
fn show_options_prints_prefix_only_when_asked() {
    assert!(plan_show_options(&strings(&["-g", "prefix"])).print_prefix);
    assert!(!plan_show_options(&strings(&["-g", "status"])).print_prefix);
}

#[test]
fn set_option_plan_extracts_target_option_and_value() {
    let plan = plan_set_option(&strings(&[
        "-p",
        "-t",
        "w1:p2",
        "pane-border-style",
        "fg=cyan",
    ]));
    assert_eq!(plan.target.as_deref(), Some("w1:p2"));
    assert_eq!(plan.option.as_deref(), Some("pane-border-style"));
    assert_eq!(plan.value.as_deref(), Some("fg=cyan"));
}

#[test]
fn set_option_extracts_fg_colour_from_style_value() {
    assert_eq!(
        plan_accent("pane-border-style", "fg=cyan"),
        AccentPlan::SetTo("cyan".to_string())
    );
    assert_eq!(
        plan_accent("pane-active-border-style", "fg=magenta"),
        AccentPlan::SetTo("magenta".to_string())
    );
    assert_eq!(
        plan_accent("window-style", "bg=default,fg=blue"),
        AccentPlan::SetTo("blue".to_string())
    );
}

#[test]
fn set_option_normalises_claude_colour_numbers() {
    assert_eq!(
        plan_accent("pane-border-style", "fg=colour208"),
        AccentPlan::SetTo("orange".to_string())
    );
    assert_eq!(
        plan_accent("pane-border-style", "fg=colour205"),
        AccentPlan::SetTo("pink".to_string())
    );
}

#[test]
fn set_option_unknown_option_is_accepted_without_metadata() {
    assert_eq!(plan_accent("remain-on-exit", "on"), AccentPlan::NotAccent);
    assert_eq!(
        plan_accent("pane-border-status", "top"),
        AccentPlan::NotAccent
    );
}

#[test]
fn set_option_pane_border_format_does_not_yield_an_accent() {
    assert_eq!(
        plan_accent(
            "pane-border-format",
            "#[fg=colour208,bold] #{pane_title} #[default]"
        ),
        AccentPlan::NotAccent
    );
}

#[test]
fn set_option_unknown_colour_is_dropped_not_propagated() {
    assert_eq!(
        plan_accent("pane-border-style", "fg=colour99"),
        AccentPlan::Unknown
    );
}

#[test]
fn set_option_empty_fg_clears_the_token() {
    assert_eq!(plan_accent("pane-border-style", "fg="), AccentPlan::Clear);
    assert_eq!(
        plan_accent("window-style", "bg=default,fg="),
        AccentPlan::Clear
    );
}

#[test]
fn set_option_accent_token_key_is_api_valid() {
    assert!(!AGENT_ACCENT_TOKEN_KEY.is_empty());
    assert!(AGENT_ACCENT_TOKEN_KEY
        .chars()
        .all(|ch| ch.is_ascii_alphanumeric() || matches!(ch, '_' | '-')));
    assert!(!AGENT_ACCENT_TOKEN_KEY.contains('.'));
}

#[test]
fn set_option_accent_seq_is_monotonic_per_process() {
    let mut counter = AccentCounter::new();
    let first = counter.next_accent_seq();
    let second = counter.next_accent_seq();
    let third = counter.next_accent_seq();
    assert!(second > first);
    assert!(third > second);
}

#[test]
fn accents_are_told_in_order_by_their_source() {
    let mut counter = AccentCounter::new();
    let mut console = Console::new();
    let args = strings(&["set-option", "-p", "-t", "%1", "pane-border-style", "fg=cyan"]);
    let told: Vec<(String, String, Option<String>, u64)> = (0..2)
        .map(|_| match run_shim(&args, &env(), &mut counter, &mut console) {
            ShimStep::Request {
                method:
                    ShimMethod::PaneReportMetadata {
                        source,
                        token,
                        value,
                        seq,
                        ..
                    },
                ..
            } => (source, token, value, seq),
            other => panic!("an accent is told: {other:?}"),
        })
        .collect();
    assert_eq!(told[0].0, "karvex:tmux-compat");
    assert_eq!(told[0].1, AGENT_ACCENT_TOKEN_KEY);
    assert_eq!(told[0].2.as_deref(), Some("cyan"));
    assert_eq!((told[0].3, told[1].3), (1, 2));
    run_shim(&strings(&["kill-pane", "-t", "%1"]), &env(), &mut counter, &mut console);
    assert_eq!(counter.next, 3);
}

fn reply(text: &str) -> Reply {
    read_reply(text).expect("a reply")
}

#[test]
fn a_failure_is_one_plain_line_whatever_it_says() {
    let err = io(IoKind::Other, "broken\r\n{\"error\":1}");
    assert_eq!(
        describe_client_error(&err),
        "karvex tmux-compat: broken  (\"error\":1)"
    );
    let refused = reply(r#"{"id":"1","error":{"code":"x","message":"no\n{pane}"}}"#);
    assert_eq!(
        shim_answer(Ok(refused)),
        Err("karvex tmux-compat: no (pane)".to_string())
    );
    assert_eq!(
        describe_client_error(&io(IoKind::Other, "boom")),
        "karvex tmux-compat: boom"
    );
    let mut console = Console::new();
    let step = resume_answer(
        AnswerPending::Quiet,
        Err("two\nlines".to_string()),
        &mut AccentCounter::new(),
        &mut console,
    );
    assert_eq!(step, ShimStep::Exit(1));
    assert_eq!(console.err, vec!["two lines"]);
}

#[test]
fn a_target_that_is_not_there_is_told_as_it_was_given() {
    for (target, told) in [
        ("{last}", "can't find window: {last}"),
        ("two\nlines", "can't find window: two lines"),
    ] {
        let mut console = Console::new();
        let step = resume_panes(
            PanesPending::FindWindow {
                target: target.to_string(),
            },
            Ok(Vec::new()),
            &mut console,
        );
        assert_eq!(step, ShimStep::Exit(1));
        assert_eq!(console.err, vec![told]);
    }
}

#[test]
fn a_split_without_a_pane_is_told_without_the_answer() {
    let mut console = Console::new();
    let step = resume_answer(
        AnswerPending::Split { print: true },
        Ok(reply(r#"{"id":"1","result":{"type":"pane_split"}}"#)),
        &mut AccentCounter::new(),
        &mut console,
    );
    assert_eq!(step, ShimStep::Exit(1));
    assert!(console.out.is_empty());
    assert_eq!(
        console.err,
        vec!["create pane failed: no space for new pane (too small): unexpected split response"]
    );
}

#[test]
fn dead_socket_maps_to_plain_no_server_running() {
    let err = io(IoKind::ConnectionRefused, "refused");
    assert_eq!(describe_client_error(&err), "no server running");
}

#[test]
fn shim_never_prints_a_json_envelope_on_error() {
    let errors = [
        io(IoKind::ConnectionRefused, "refused"),
        io(IoKind::TimedOut, "timeout"),
        io(IoKind::Other, "boom"),
        ApiClientError::EmptyResponse,
        ApiClientError::UnexpectedResult("Pong".to_string()),
    ];
    for err in &errors {
        let message = describe_client_error(err);
        assert!(!message.contains('{'), "json-ish stderr: {message}");
        assert!(!message.contains('}'), "json-ish stderr: {message}");
        assert!(!message.contains('\n'), "multi-line stderr: {message}");
    }
}

#[test]
fn passthrough_skips_own_binary() {
    let found = || {
        vec![Candidate {
            path: "/shims/tmux".to_string(),
            is_file: true,
            file: Some("/opt/kvx".to_string()),
        }]
    };
    assert_eq!(find_real_tmux(&found(), &Some("/opt/kvx".to_string())), None);
    assert_eq!(
        find_real_tmux(&found(), &Some("/nonexistent/kvx".to_string())),
        Some("/shims/tmux".to_string())
    );
    assert_eq!(find_real_tmux(&Vec::new(), &Some("/opt/kvx".to_string())), None);
}

#[test]
fn the_shim_never_calls_itself_but_finds_the_program_behind_it() {
    let candidates = vec![
        Candidate {
            path: "/shims/tmux".to_string(),
            is_file: true,
            file: Some("/opt/kvx".to_string()),
        },
        Candidate {
            path: "/gone/tmux".to_string(),
            is_file: false,
            file: None,
        },
        Candidate {
            path: "/usr/bin/tmux".to_string(),
            is_file: true,
            file: Some("/usr/bin/tmux".to_string()),
        },
    ];
    assert_eq!(
        find_real_tmux(&candidates, &Some("/opt/kvx".to_string())),
        Some("/usr/bin/tmux".to_string())
    );
}

#[test]
fn a_split_keeps_its_percentage_as_text() {
    assert_eq!(
        plan_split_window(&strings(&["-t", "w1:p1", "-h", "-l", "70%"]))
            .percent
            .as_deref(),
        Some("70")
    );
    assert_eq!(plan_split_window(&strings(&["-l", "20"])).percent, None);
    assert_eq!(plan_split_window(&strings(&[])).percent, None);
}
