//! The run of a team lead, and what is said to its sessions.

use karvex::app::effects::{DeliveryChannel, Effect, Priority, RunFailure, StoreWrite};
use karvex::app::lead::{
    bind_deadline, is_task_file, mark_lead_run_running, node_status_for, persist_lead_run_summary,
    preflight_messaging_for_lead, task_files, BindDecision, BindEvidence, LeadBinding, LeadDesk,
    LeadLaunch, MemberChange, MessagingSupport, PollStart, ReportVerdict, SessionEndpoint,
    TaskChange, TaskStatus, LEAD_TARGET_NAME, MAX_TASK_FILES, MESSAGING_REQUIRED_VERSION,
    RUN_PROJECTION_INTERVAL_MS,
};
use karvex::app::lead_talk::{
    projected_node_event, Handover, HandoverOutcome, MessagePlan, NodeEventKind, RunMessageError,
    WorkflowSessionRole,
};
use karvex::model::{NodeStatus, RunStatus};
use karvex::ordered::TextMap;

const RUN: &str = "workflow_run:1";
const SESSION: &str = "51ea857f-cb96-4372-ae75-bab1640c8428";
const TOKEN: &str = "50093985aaaabbbbccccddddeeeeffff";
const SOCKET: &str = "/run/user/1000/cc-socks/1.sock";

fn live_run_with(messaging: MessagingSupport, detail: &str) -> LeadDesk {
    let mut desk = LeadDesk::new();
    desk.bind_lead_run(LeadLaunch {
        run_id: RUN.to_string(),
        lead_pane_id: "w1:p1".to_string(),
        lead_terminal_id: "t1".to_string(),
        cwd: "/repo".to_string(),
        spawned_at_unix_ms: 1_000,
        messaging,
        messaging_detail: detail.to_string(),
        node_keys: vec!["plan".to_string()],
        seed_prompt: "run the plan".to_string(),
    });
    desk
}

fn live_run() -> LeadDesk {
    live_run_with(MessagingSupport::Available, "available")
}

fn endpoint(session: &str, socket: Option<&str>) -> SessionEndpoint {
    SessionEndpoint {
        session_id: session.to_string(),
        messaging_socket: socket.map(str::to_string),
        messaging_token: socket.map(|_| TOKEN.to_string()),
    }
}

fn lead_reports_itself(desk: &mut LeadDesk, socket: Option<&str>) -> bool {
    desk.record_run_session_report(ReportVerdict::Lead {
        endpoint: endpoint(SESSION, socket),
    })
}

fn send(
    desk: &mut LeadDesk,
    target: &str,
    outcome: HandoverOutcome,
    effects: &mut Vec<Effect>,
) -> Result<DeliveryChannel, RunMessageError> {
    let plan = desk.message_run_session(target)?;
    desk.message_handed_over(
        plan,
        outcome,
        Priority::Now,
        "rebase before you continue",
        5_000,
        effects,
    )
    .map(|receipt| receipt.channel)
}

fn bound() -> BindDecision {
    BindDecision::Bound {
        binding: LeadBinding {
            lead_session_id: SESSION.to_string(),
            team_name: "session-51ea857f".to_string(),
        },
        evidence: BindEvidence::Asserted,
    }
}

#[test]
fn claude_task_statuses_map_onto_node_statuses() {
    assert_eq!(node_status_for(&TaskStatus::Pending), NodeStatus::Pending);
    assert_eq!(
        node_status_for(&TaskStatus::InProgress),
        NodeStatus::Running
    );
    assert_eq!(
        node_status_for(&TaskStatus::Completed),
        NodeStatus::Succeeded
    );
}

#[test]
fn an_unknown_upstream_status_leaves_the_node_pending_rather_than_failing() {
    assert_eq!(
        node_status_for(&TaskStatus::Unknown("triaged".to_string())),
        NodeStatus::Pending
    );
}

#[test]
fn a_suspected_kill_switch_is_reported_to_clients_and_still_lets_the_run_be_messaged() {
    let mut desk = live_run_with(
        MessagingSupport::KillSwitchSuspected {
            variable: "DISABLE_TELEMETRY".to_string(),
            value: "1".to_string(),
        },
        "DISABLE_TELEMETRY=1 may switch messaging off",
    );
    lead_reports_itself(&mut desk, None);

    let info = desk
        .run_messaging_info(RUN)
        .expect("the live run publishes its messaging state");
    assert!(info.supported, "a suspicion is not a refusal");
    assert_eq!(info.reason.as_deref(), Some("kill_switch_suspected"));
    assert!(
        info.detail
            .as_deref()
            .is_some_and(|detail| detail.contains("DISABLE_TELEMETRY")),
        "the client is told which variable: {:?}",
        info.detail
    );

    let outcome = send(
        &mut desk,
        "team-lead",
        HandoverOutcome::WriteFailed("the pane is gone".to_string()),
        &mut Vec::new(),
    );
    assert!(
        !matches!(outcome, Err(RunMessageError::Unsupported(_))),
        "a suspicion must never block a send: {outcome:?}"
    );
}

#[test]
fn a_platform_without_cross_session_messaging_refuses_the_send_and_names_the_reason() {
    let mut desk = live_run_with(
        MessagingSupport::UnsupportedPlatform {
            platform: "native Windows".to_string(),
        },
        "cross-session messaging is not available on native Windows",
    );
    lead_reports_itself(&mut desk, Some(SOCKET));

    let info = desk.run_messaging_info(RUN).expect("a live run");
    assert!(!info.supported);
    assert_eq!(info.reason.as_deref(), Some("unsupported_platform"));

    let error = desk
        .message_run_session("team-lead")
        .expect_err("native Windows has no inbox socket to write to");
    assert!(
        matches!(error, RunMessageError::Unsupported(_)),
        "{error:?}"
    );
    assert!(error.message("the agent").contains("Windows"), "{error:?}");
}

#[test]
fn an_unknown_target_is_refused_with_the_roster_that_does_exist() {
    let mut desk = live_run();
    lead_reports_itself(&mut desk, Some(SOCKET));

    let error = desk
        .message_run_session("backend")
        .expect_err("no session is called backend");
    match &error {
        RunMessageError::UnknownTarget { requested, known } => {
            assert_eq!(requested, "backend");
            assert_eq!(known, &vec![LEAD_TARGET_NAME.to_string()]);
        }
        other => panic!("expected an unknown-target refusal, got {other:?}"),
    }
    assert_eq!(
        error.message("the agent"),
        "this run has no session called \"backend\"; it can address: team-lead"
    );
}

#[test]
fn a_run_whose_sessions_have_not_reported_refuses_rather_than_pretending() {
    let desk = live_run();
    assert_eq!(
        desk.message_run_session("team-lead"),
        Err(RunMessageError::NoAddressableSessions)
    );
}

#[test]
fn every_delivered_message_records_the_channel_that_carried_it() {
    let mut desk = live_run();
    lead_reports_itself(&mut desk, Some(SOCKET));
    let mut effects = Vec::new();
    assert_eq!(
        send(&mut desk, "team-lead", HandoverOutcome::Done, &mut effects),
        Ok(DeliveryChannel::InboxSocket)
    );
    assert_eq!(
        effects,
        vec![Effect::Write(StoreWrite::MessageDelivered {
            run: RUN.to_string(),
            seq: 0,
            target: "team-lead".to_string(),
            session_id: SESSION.to_string(),
            pane_id: Some("w1:p1".to_string()),
            channel: DeliveryChannel::InboxSocket,
            priority: Priority::Now,
            text_bytes: "rebase before you continue".len() as u64,
            at_unix_ms: 5_000,
        })]
    );
    assert_eq!(DeliveryChannel::InboxSocket.as_str(), "inbox_socket");
    assert_eq!(Priority::Now.as_str(), "now");
}

#[test]
fn a_refused_message_is_not_journalled_as_a_delivery() {
    let mut desk = live_run();
    lead_reports_itself(&mut desk, Some("/nonexistent/karvex/inbox.sock"));
    let mut effects = Vec::new();
    let error = send(
        &mut desk,
        "team-lead",
        HandoverOutcome::WriteFailed("no such file".to_string()),
        &mut effects,
    )
    .expect_err("there is no socket at that path");
    assert_eq!(
        error.message("the agent"),
        "the session's inbox socket could not be written: no such file"
    );
    assert!(effects.is_empty());
}

#[test]
fn the_leads_own_report_is_what_makes_the_run_addressable() {
    let mut desk = live_run();
    assert!(
        desk.run_message_targets().is_empty(),
        "nothing is addressable before anything reports"
    );
    assert!(lead_reports_itself(&mut desk, Some(SOCKET)));

    let targets = desk.run_message_targets();
    assert_eq!(targets.len(), 1);
    assert_eq!(targets[0].name, LEAD_TARGET_NAME);
    assert_eq!(
        targets[0].endpoint.messaging_socket.as_deref(),
        Some(SOCKET)
    );
    assert_eq!(
        targets[0].endpoint.messaging_token.as_deref(),
        Some(TOKEN),
        "the token is captured when the hook fires; it exists nowhere else"
    );
    assert!(
        !lead_reports_itself(&mut desk, Some(SOCKET)),
        "the same report again is no news"
    );
}

#[test]
fn a_session_with_an_inbox_is_never_typed_at() {
    let mut desk = live_run();
    lead_reports_itself(&mut desk, Some(SOCKET));
    desk.record_run_session_report(ReportVerdict::Member {
        pane_id: "w1:p2".to_string(),
        endpoint: endpoint("other", None),
    });
    let plan: MessagePlan = desk.message_run_session("TEAM-LEAD").expect("case is no matter");
    assert!(matches!(plan.handover, Handover::Inbox { .. }));
    let plan = desk.message_run_session("w1:p2").expect("named by its pane");
    assert_eq!(
        plan.handover,
        Handover::Pane {
            pane_id: "w1:p2".to_string()
        }
    );
}

#[test]
fn a_machine_without_a_known_version_is_too_old() {
    assert_eq!(
        preflight_messaging_for_lead(None),
        MessagingSupport::ClaudeTooOld {
            found: "unknown".to_string(),
            required: MESSAGING_REQUIRED_VERSION.to_string(),
        }
    );
    assert_eq!(
        preflight_messaging_for_lead(Some(MessagingSupport::Available)),
        MessagingSupport::Available
    );
    assert_eq!(
        live_run_with(preflight_messaging_for_lead(None), "too old").message_run_session("x"),
        Err(RunMessageError::Unsupported("too old".to_string()))
    );
    assert_eq!(
        LeadDesk::new().message_run_session("x"),
        Err(RunMessageError::NoLiveRun)
    );
}

#[test]
fn what_is_told_of_a_message_that_was_not_handed_over() {
    for (error, told) in [
        (
            RunMessageError::NoLiveRun,
            "no workflow run is live on this server",
        ),
        (RunMessageError::BadMessage("too long".to_string()), "too long"),
        (
            RunMessageError::UnknownTarget {
                requested: "a\"b".to_string(),
                known: Vec::new(),
            },
            "this run has no session called \"a\\\"b\"; it can address: nothing yet",
        ),
    ] {
        assert_eq!(error.message("the agent"), told);
    }
    assert!(RunMessageError::TargetNotAddressable {
        name: "scout".to_string()
    }
    .message("Agent")
    .starts_with("scout identified itself without a messaging socket, so Agent's"));
    assert!(RunMessageError::NoAddressableSessions
        .message("Agent")
        .contains("SessionStart hook"));
}

#[test]
fn a_run_is_looked_at_when_it_is_time() {
    let mut desk = live_run();
    let mut effects = Vec::new();
    assert_eq!(
        desk.poll_run_projection(100, true, 9_000, &mut effects),
        PollStart::Look
    );
    assert_eq!(
        desk.poll_run_projection(101, true, 9_000, &mut effects),
        PollStart::NotDue
    );
    assert_eq!(
        desk.run_projection_deadline(101),
        Some(100 + RUN_PROJECTION_INTERVAL_MS)
    );
    assert!(!desk.poll_run_watchdog(101));
    assert!(effects.is_empty());
}

#[test]
fn a_run_whose_lead_is_gone_is_closed_once() {
    let mut desk = live_run();
    let mut effects = Vec::new();
    assert!(desk.lead_terminal_is_gone(false));
    assert_eq!(
        desk.poll_run_projection(100, false, 9_000, &mut effects),
        PollStart::Ended
    );
    let failure = RunFailure::LeadExited { team_name: None };
    assert_eq!(failure.kind(), "lead_exited");
    assert!(failure.resumable());
    assert_eq!(
        effects,
        vec![
            Effect::Write(StoreWrite::RunFailed {
                run: RUN.to_string(),
                ended_at_unix_ms: 9_000,
                failure,
            }),
            Effect::RunFinished {
                run_id: RUN.to_string()
            },
        ]
    );
    assert!(!desk.lead_run_is_live());
    assert!(!desk.lead_run_ended_without_finishing(9_500, &mut effects));
    assert_eq!(effects.len(), 2);
    assert_eq!(desk.run_messaging_info(RUN), None);
    assert!(!lead_reports_itself(&mut desk, Some(SOCKET)));
}

#[test]
fn the_plan_is_handed_over_once_the_team_is_known_and_the_lead_is_ready() {
    let mut desk = live_run();
    let mut effects = Vec::new();
    assert!(!desk.seed_lead_if_ready(false, &mut effects));
    desk.bind_run_team(bound(), 3, 4_000, &mut effects);
    let _ = desk.seed_lead_if_ready(true, &mut effects);
    let prompts = |effects: &Vec<Effect>| {
        effects
            .iter()
            .filter(|effect| matches!(effect, Effect::Prompt { .. }))
            .count()
    };
    assert_eq!(prompts(&effects), 1);
    assert!(!desk.seed_lead_if_ready(true, &mut effects));
    assert_eq!(prompts(&effects), 1);
}

#[test]
fn a_look_writes_what_changed_and_tells_of_it() {
    let mut desk = live_run();
    let mut effects = Vec::new();
    desk.bind_run_team(bound(), 3, 4_000, &mut effects);
    effects.clear();
    let task = TaskChange {
        path: "plan".to_string(),
        node_key: Some("plan".to_string()),
        task_id: "7".to_string(),
        subject: "Plan the work".to_string(),
        owner: None,
        status: TaskStatus::InProgress,
        emergent: true,
        blocked_by: Vec::new(),
    };
    let member = MemberChange {
        name: "scout".to_string(),
        agent_type: "Explore".to_string(),
        model: None,
        pane_id: Some("w1:p2".to_string()),
        backend_type: "tmux".to_string(),
        is_active: true,
        cwd: None,
    };
    let changed = absorb(&mut desk, vec![task], vec![member], &mut effects);
    assert!(changed);
    assert!(matches!(
        &effects[0],
        Effect::Write(StoreWrite::RunTaskProjected { path, status: NodeStatus::Running, .. })
            if path == "plan"
    ));
    assert!(matches!(
        &effects[1],
        Effect::Write(StoreWrite::RunMemberSnapshot { name, .. }) if name == "scout"
    ));
    assert_eq!(
        effects[2],
        Effect::NodeEvents {
            run_id: RUN.to_string(),
            touched: vec!["plan".to_string()],
            created: vec!["plan".to_string()],
        }
    );
    effects.clear();
    assert!(!absorb(&mut desk, Vec::new(), Vec::new(), &mut effects));
    assert!(effects.is_empty());
}

fn absorb(
    desk: &mut LeadDesk,
    tasks: Vec<TaskChange>,
    members: Vec<MemberChange>,
    effects: &mut Vec<Effect>,
) -> bool {
    desk.absorb_run_projection(true, TextMap::new(), &tasks, &members, 6_000, effects)
}

#[test]
fn a_touched_node_came_up_or_changed() {
    let touched = vec!["plan".to_string(), "lint".to_string()];
    let created = vec!["lint".to_string()];
    assert_eq!(
        projected_node_event("lint", &touched, &created),
        Some(NodeEventKind::Created)
    );
    assert_eq!(
        projected_node_event("plan", &touched, &created),
        Some(NodeEventKind::Updated)
    );
    assert_eq!(projected_node_event("ship", &touched, &created), None);
}

#[test]
fn a_session_is_taken_for_the_lead_or_a_member() {
    let mut desk = live_run();
    lead_reports_itself(&mut desk, Some(SOCKET));
    desk.record_run_session_report(ReportVerdict::Member {
        pane_id: "w1:p2".to_string(),
        endpoint: endpoint("other", None),
    });
    assert_eq!(
        desk.run_session_report_outcome(SESSION, None).0,
        WorkflowSessionRole::Lead
    );
    assert_eq!(
        desk.run_session_report_outcome("other", None).0,
        WorkflowSessionRole::Member
    );
    assert_eq!(
        desk.run_session_report_outcome("stranger", None).0,
        WorkflowSessionRole::Ignored
    );
}

#[test]
fn a_run_is_finished_or_cancelled_by_its_id() {
    let mut desk = live_run();
    let mut effects = Vec::new();
    mark_lead_run_running(RUN, &mut effects);
    assert_eq!(
        effects,
        vec![Effect::Write(StoreWrite::RunStatus {
            run: RUN.to_string(),
            status: RunStatus::Running,
            ended_at_unix_ms: None,
        })]
    );
    assert!(desk.is_live_lead_run(RUN));
    assert_eq!(desk.live_lead_run_id().as_deref(), Some(RUN));
    desk.finish_lead_run(RUN, 9_000, &mut effects);
    assert!(!desk.is_live_lead_run(RUN));
    assert!(effects.contains(&Effect::Write(StoreWrite::RunStatus {
        run: RUN.to_string(),
        status: RunStatus::Succeeded,
        ended_at_unix_ms: Some(9_000),
    })));

    let mut desk = live_run();
    effects.clear();
    assert!(!desk.cancel_lead_run("workflow_run:2", 9_000, &mut effects));
    assert!(effects.is_empty() && desk.lead_run_is_live());
    assert!(desk.cancel_lead_run(RUN, 9_000, &mut effects));
    assert_eq!(
        effects,
        vec![
            Effect::Write(StoreWrite::RunStatus {
                run: RUN.to_string(),
                status: RunStatus::Cancelled,
                ended_at_unix_ms: Some(9_000),
            }),
            Effect::ClosePane {
                pane_id: "w1:p1".to_string()
            },
        ]
    );
    assert!(!desk.cancel_lead_run(RUN, 9_500, &mut effects));
}

#[test]
fn a_run_that_finds_no_team_fails_and_cannot_be_taken_up_again() {
    let mut desk = live_run();
    let mut effects = Vec::new();
    assert!(!desk.bind_run_team(BindDecision::Waiting, 3, 4_000, &mut effects));
    assert!(desk.bind_run_team(
        BindDecision::Expired {
            waited_ms: 90_000,
            reason: "no team came up".to_string(),
        },
        3,
        91_000,
        &mut effects,
    ));
    let failure = RunFailure::LeadUnbound {
        detail: "no team came up".to_string(),
        waited_ms: 90_000,
    };
    assert_eq!(failure.kind(), "lead_unbound");
    assert_eq!(failure.detail(), "no team came up");
    assert!(!failure.resumable());
    assert_eq!(
        effects,
        vec![Effect::Write(StoreWrite::RunFailed {
            run: RUN.to_string(),
            ended_at_unix_ms: 91_000,
            failure,
        })]
    );
    assert!(!desk.lead_run_is_live());
}

#[test]
fn a_summary_is_prose_alone() {
    let mut effects = Vec::new();
    persist_lead_run_summary(
        RUN,
        "kvdag_version:1",
        "all is well.".to_string(),
        "done".to_string(),
        &mut effects,
    );
    assert!(matches!(
        &effects[0],
        Effect::Write(StoreWrite::RunSummary { text, token_estimate: 3, per_node, .. })
            if text == "all is well." && per_node.is_empty()
    ));
}

#[test]
fn only_the_first_files_of_a_task_list_are_read() {
    assert!(is_task_file("/tasks/7.json", false));
    assert!(!is_task_file("/tasks/.lock", false));
    let mut entries = vec!["/tasks/.lock".to_string()];
    for number in 0..MAX_TASK_FILES {
        entries.push(format!("/tasks/{number}.json"));
    }
    let files = task_files(&entries, false);
    assert_eq!(files.len(), MAX_TASK_FILES - 1);
    assert_eq!(files[0], "/tasks/0.json");
}

#[test]
fn the_time_to_find_a_team_can_be_set() {
    assert_eq!(bind_deadline(None, 90_000), 90_000);
    assert_eq!(bind_deadline(Some(" 250 "), 90_000), 250);
    assert_eq!(bind_deadline(Some("0"), 90_000), 90_000);
    assert_eq!(bind_deadline(Some("soon"), 90_000), 90_000);
}
