//! Runs of the past.

use karvex::app::effects::{Effect, NoticeLevel};
use karvex::app::history::{
    node_status, projected_facts, rehydrate_run_graph, GrowthLimits, RunGraph, Succession,
};
use karvex::app::history_view::{
    historical_interrogations, historical_steer_refusal, interrogate_intent, interrogate_outcome,
    interrogation_row, wants_review, DagNode, DagViewState, HistoricalRunSnapshot, HistoryScreen,
    InterrogateIntent, InterrogateOutcome, InterrogationRecord, Mode, ReviewAnswer, ReviewKey,
    RunFetched, TRANSCRIPT_UNAVAILABLE_CODE,
};
use karvex::app::lead::{LeadDesk, LeadLaunch, MessagingSupport};
use karvex::documents::read_json;
use karvex::json::Json;
use karvex::model::{
    Attention, EdgeKind, Effort, Evidence, ModelAlias, NodeStatus, RunStatus, Tier,
};
use karvex::ordered::TextMap;
use karvex::wire::{
    WorkflowEdgeKind, WorkflowEvidence, WorkflowInterrogationMode, WorkflowNodeStatus,
    WorkflowRestoredFrom, WorkflowReviewStatus, WorkflowRunEdgeInfo, WorkflowRunGraph,
    WorkflowRunInfo, WorkflowRunNodeInfo, WorkflowRunStatus, WorkflowSuccession, WorkflowTier,
};

fn wire_node(path: &str, key: &str) -> WorkflowRunNodeInfo {
    WorkflowRunNodeInfo {
        path: path.to_string(),
        node_key: key.to_string(),
        label: String::new(),
        parent_path: None,
        depth: 0,
        status: WorkflowNodeStatus::Succeeded,
        model: "opus".to_string(),
        effort: "high".to_string(),
        attempt: 1,
        pane_id: Some("pane-9".to_string()),
        terminal_id: Some("term-9".to_string()),
        started_at_unix_ms: Some(1_000),
        ended_at_unix_ms: Some(4_000),
        total_tokens: 12,
        tool_uses: 3,
        duration_ms: 3_000,
        evidence: Some(WorkflowEvidence::SelfReport),
        succession: Some(WorkflowSuccession::Satisfied),
        watchdog_interventions: 0,
        assignment_reason: "measured".to_string(),
        restored_from: None,
        task_id: None,
        subject: String::new(),
        owner: String::new(),
        emergent: false,
        attention: None,
    }
}

fn wire_run() -> WorkflowRunInfo {
    WorkflowRunInfo {
        run_id: "workflow_run:past".to_string(),
        version_id: "kvdag_version:1".to_string(),
        workflow_name: "ux-dag-probe".to_string(),
        tier: WorkflowTier::High,
        status: WorkflowRunStatus::Succeeded,
        max_depth: 3,
        max_nodes: 24,
        team_name: None,
        lead_pane_id: None,
    }
}

fn wire_graph() -> WorkflowRunGraph {
    let mut child = wire_node("plan/impl", "impl");
    child.parent_path = Some("plan".to_string());
    child.depth = 1;
    WorkflowRunGraph {
        nodes: vec![wire_node("plan", "plan"), child],
        edges: vec![WorkflowRunEdgeInfo {
            from: "plan".to_string(),
            to: "plan/impl".to_string(),
            kind: WorkflowEdgeKind::Data,
            condition_result: None,
            fired: true,
        }],
        members: Vec::new(),
    }
}

fn dag_with(paths: &[&str]) -> DagViewState {
    DagViewState {
        run_id: "workflow_run:past".to_string(),
        nodes: paths
            .iter()
            .enumerate()
            .map(|(idx, path)| DagNode {
                idx,
                path: (*path).to_string(),
            })
            .collect(),
        selected: Some(0),
        lead_run: false,
        run_status: None,
        review_status: None,
    }
}

fn interrogated_ok() -> String {
    r#"{"id":"1","type":"success","result":{"type":"workflow_node_interrogated",
        "interrogation":{"id":"interrogation:1","run_id":"workflow_run:past","path":"plan",
        "source_session_id":"sid","forked_session_id":null,"pane_id":"pane-2",
        "reconstructed":false,"transcript_path":null,"cwd":"/tmp",
        "started_at_unix_ms":1,"ended_at_unix_ms":null,"note":""}}}"#
        .to_string()
}

fn refusal(code: &str, message: &str) -> String {
    format!(r#"{{"id":"1","type":"error","error":{{"code":"{code}","message":"{message}"}}}}"#)
}

fn closed_screen() -> HistoryScreen {
    HistoryScreen {
        mode: Mode::Terminal,
        historical_run: None,
    }
}

fn open_dag_on(run_id: &str) -> HistoryScreen {
    HistoryScreen {
        mode: Mode::WorkflowDag,
        historical_run: Some(HistoricalRunSnapshot {
            graph: RunGraph {
                run_id: run_id.to_string(),
                version_id: "kvdag_version:1".to_string(),
                tier: Tier::Auto,
                growth: GrowthLimits {
                    max_depth: 3,
                    max_nodes: 24,
                },
                nodes: Vec::new(),
                edges: Vec::new(),
                status: RunStatus::Succeeded,
                seq: 0,
            },
            workflow_name: "demo".to_string(),
            interrogations: Vec::new(),
            team_name: Some("session-213aa9bf".to_string()),
            lead_pane_id: None,
            projected: TextMap::new(),
            members: Vec::new(),
            review: None,
            review_findings: Vec::new(),
        }),
    }
}

fn no_review() -> ReviewAnswer {
    ReviewAnswer {
        review: None,
        findings: Vec::new(),
    }
}

fn some_review() -> ReviewAnswer {
    ReviewAnswer {
        review: Some(read_json(r#"{"id":"review_cycle:1"}"#).unwrap()),
        findings: vec![Json::Bool(true)],
    }
}

fn found(run: WorkflowRunInfo, review: ReviewAnswer) -> RunFetched {
    RunFetched::Found {
        run,
        graph: wire_graph(),
        review,
        interrogations: Vec::new(),
    }
}

#[test]
fn the_projection_resolves_edges_through_instance_paths() {
    let graph = rehydrate_run_graph(&wire_run(), &wire_graph());
    assert_eq!(graph.nodes.len(), 2);
    assert_eq!(graph.edges.len(), 1);
    assert_eq!(graph.edges[0].from, 0);
    assert_eq!(graph.edges[0].to, 1);
    assert_eq!(graph.edges[0].kind, EdgeKind::Data);
    assert!(graph.edges[0].fired);
    assert_eq!(graph.nodes[1].parent, Some(0));
    assert_eq!(graph.nodes[1].depth, 1);
    assert_eq!(graph.run_id, "workflow_run:past");
    assert_eq!(graph.status, RunStatus::Succeeded);
    assert_eq!(graph.tier, Tier::High);
    assert_eq!(graph.growth.max_nodes, 24);
}

#[test]
fn projected_task_facts_are_kept_beside_the_graph_and_only_for_observed_nodes() {
    assert!(
        projected_facts(&wire_graph()).entries.is_empty(),
        "an engine-era run has no projection to carry"
    );

    let mut wire = wire_graph();
    wire.nodes[0].task_id = Some("1".to_string());
    wire.nodes[0].subject = "plan the work".to_string();
    wire.nodes[0].owner = "research".to_string();
    wire.nodes[1].task_id = Some("7".to_string());
    wire.nodes[1].subject = "retest the parser".to_string();
    wire.nodes[1].emergent = true;

    let facts = projected_facts(&wire);
    assert_eq!(facts.entries.len(), 2);
    let planned = facts.get("plan").expect("keyed by instance path");
    assert_eq!(planned.owner, "research");
    assert_eq!(planned.subject, "plan the work");
    assert!(!planned.emergent);
    let emergent = facts.get("plan/impl").expect("keyed by instance path");
    assert!(emergent.emergent);
    assert_eq!(
        emergent.owner, "",
        "an unclaimed task keeps its empty owner rather than being defaulted"
    );

    let graph = rehydrate_run_graph(&wire_run(), &wire);
    assert_eq!(graph.nodes.len(), 2);
}

#[test]
fn watchdog_facts_alone_are_enough_to_project_a_node() {
    let mut wire = wire_graph();
    wire.nodes[0].watchdog_interventions = 2;
    wire.nodes[0].attention = Some(Attention::Stuck);

    let facts = projected_facts(&wire);
    let stuck = facts
        .get("plan")
        .expect("watchdog facts alone still project");
    assert_eq!(stuck.watchdog_interventions, 2);
    assert_eq!(
        stuck.attention,
        Some(Attention::Stuck)
    );
    assert!(stuck.owner.is_empty(), "nothing else was observed for it");
}

#[test]
fn an_edge_to_a_missing_node_is_dropped() {
    let mut wire = wire_graph();
    wire.edges.push(WorkflowRunEdgeInfo {
        from: "plan".to_string(),
        to: "gone".to_string(),
        kind: WorkflowEdgeKind::Sequence,
        condition_result: None,
        fired: false,
    });
    let graph = rehydrate_run_graph(&wire_run(), &wire);
    assert_eq!(graph.edges.len(), 1);
}

#[test]
fn a_historical_node_never_carries_a_live_binding() {
    let graph = rehydrate_run_graph(&wire_run(), &wire_graph());
    for node in &graph.nodes {
        assert!(node.binding.is_none(), "{:?}", node.path);
    }
}

#[test]
fn restore_provenance_survives_the_projection() {
    let mut wire = wire_graph();
    wire.nodes[0].status = WorkflowNodeStatus::Restored;
    wire.nodes[0].evidence = Some(WorkflowEvidence::Restored);
    wire.nodes[0].restored_from = Some(WorkflowRestoredFrom {
        run_id: "workflow_run:older".to_string(),
        node_key: "plan".to_string(),
        checkpoint_seq: 7,
    });
    let graph = rehydrate_run_graph(&wire_run(), &wire);
    assert_eq!(graph.nodes[0].status, NodeStatus::Restored);
    let source = graph.nodes[0].restored_from.as_ref().expect("provenance");
    assert_eq!(source.run, "workflow_run:older");
    assert_eq!(source.node_key, "plan");
    assert_eq!(source.checkpoint_seq, 7);
    assert_eq!(
        graph.nodes[0].result.as_ref().map(|result| result.evidence),
        Some(Evidence::Restored)
    );
}

#[test]
fn assignments_round_trip_and_degrade_rather_than_fail() {
    let graph = rehydrate_run_graph(&wire_run(), &wire_graph());
    assert_eq!(graph.nodes[0].assignment.model, ModelAlias::Opus);
    assert_eq!(graph.nodes[0].assignment.effort, Effort::High);
    assert_eq!(graph.nodes[0].assignment_reason, "measured");

    let mut wire = wire_graph();
    wire.nodes[0].model = "a-model-from-the-future".to_string();
    wire.nodes[0].effort = "ludicrous".to_string();
    let graph = rehydrate_run_graph(&wire_run(), &wire);
    assert_eq!(graph.nodes[0].assignment.model, ModelAlias::Sonnet);
    assert_eq!(graph.nodes[0].assignment.effort, Effort::Low);
}

#[test]
fn oversized_counts_saturate_instead_of_wrapping() {
    let mut run = wire_run();
    run.max_nodes = 70_000;
    run.max_depth = 70_000;
    let mut wire = wire_graph();
    wire.nodes[0].depth = 70_000;
    let graph = rehydrate_run_graph(&run, &wire);
    assert_eq!(graph.growth.max_nodes, u16::MAX);
    assert_eq!(graph.growth.max_depth, u16::MAX);
    assert_eq!(graph.nodes[0].depth, u16::MAX);
}

#[test]
fn the_key_chooses_the_mode() {
    let dag = dag_with(&["plan", "impl"]);
    assert_eq!(
        interrogate_intent(&dag, WorkflowInterrogationMode::Resumed),
        InterrogateIntent::Send {
            run_id: "workflow_run:past".to_string(),
            path: "plan".to_string(),
            mode: WorkflowInterrogationMode::Resumed,
        }
    );
    assert_eq!(
        interrogate_intent(&dag, WorkflowInterrogationMode::Reconstructed),
        InterrogateIntent::Send {
            run_id: "workflow_run:past".to_string(),
            path: "plan".to_string(),
            mode: WorkflowInterrogationMode::Reconstructed,
        }
    );
}

#[test]
fn the_intent_names_the_selected_node() {
    let mut dag = dag_with(&["plan", "impl"]);
    dag.selected = Some(1);
    assert_eq!(
        interrogate_intent(&dag, WorkflowInterrogationMode::Reconstructed),
        InterrogateIntent::Send {
            run_id: "workflow_run:past".to_string(),
            path: "impl".to_string(),
            mode: WorkflowInterrogationMode::Reconstructed,
        }
    );
}

#[test]
fn interrogate_is_ignored_with_no_run_and_with_no_selection() {
    let mut dag = dag_with(&["plan"]);
    dag.selected = None;
    assert_eq!(
        interrogate_intent(&dag, WorkflowInterrogationMode::Resumed),
        InterrogateIntent::Ignore
    );

    let mut dag = dag_with(&["plan"]);
    dag.run_id.clear();
    assert_eq!(
        interrogate_intent(&dag, WorkflowInterrogationMode::Resumed),
        InterrogateIntent::Ignore
    );
}

#[test]
fn a_missing_transcript_points_at_shift_i() {
    let outcome = interrogate_outcome(
        "plan",
        WorkflowInterrogationMode::Resumed,
        &refusal(
            TRANSCRIPT_UNAVAILABLE_CODE,
            "no transcript at /home/x/projects/p/sid.jsonl",
        ),
    );
    let InterrogateOutcome::OfferReconstructed(message) = outcome else {
        panic!("an unavailable transcript must point at the reconstruction key");
    };
    assert!(message.contains("Shift+I"), "{message}");
    assert!(message.contains("no transcript at"), "{message}");

    assert_eq!(
        interrogate_outcome(
            "plan",
            WorkflowInterrogationMode::Reconstructed,
            &interrogated_ok()
        ),
        InterrogateOutcome::Opened
    );
}

#[test]
fn a_failed_reconstruction_is_refused_not_offered_again() {
    let outcome = interrogate_outcome(
        "plan",
        WorkflowInterrogationMode::Reconstructed,
        &refusal(TRANSCRIPT_UNAVAILABLE_CODE, "no stored checkpoint"),
    );
    assert_eq!(
        outcome,
        InterrogateOutcome::Refused("no stored checkpoint".to_string())
    );
}

#[test]
fn other_refusals_are_shown_without_an_offer() {
    for (code, message) in [
        (
            "workflow_interrogation_active",
            "already interrogating plan",
        ),
        ("workflow_run_pruned", "history pruned"),
        ("workflow_unavailable", "this build has no workflow store"),
    ] {
        assert_eq!(
            interrogate_outcome(
                "plan",
                WorkflowInterrogationMode::Resumed,
                &refusal(code, message)
            ),
            InterrogateOutcome::Refused(message.to_string()),
            "{code}"
        );
    }
    let outcome = interrogate_outcome("plan", WorkflowInterrogationMode::Resumed, "not json");
    assert_eq!(
        outcome,
        InterrogateOutcome::Refused("could not interrogate plan".to_string())
    );
}

#[test]
fn an_interrogation_is_live_only_while_its_pane_is() {
    let record = |ended_at: Option<u64>, reconstructed: bool| InterrogationRecord {
        id: "interrogation:1".to_string(),
        path: "plan".to_string(),
        source_session_id: "sid".to_string(),
        forked_session_id: None,
        transcript_path: None,
        cwd: "/tmp".to_string(),
        pane_id: Some("w1:p7".to_string()),
        reconstructed,
        note: String::new(),
        started_at_unix_ms: 1,
        ended_at_unix_ms: ended_at,
    };

    let row = interrogation_row(&record(None, false), Some("w1:p7".to_string()));
    assert!(!row.ended);
    assert_eq!(row.pane_id.as_deref(), Some("w1:p7"));
    assert_eq!(row.path, "plan");
    assert!(!row.reconstructed);

    let row = interrogation_row(&record(None, false), None);
    assert!(row.ended, "no pane to click means the box is not live");
    assert_eq!(row.pane_id, None);

    let row = interrogation_row(&record(Some(9), true), Some("w1:p7".to_string()));
    assert!(row.ended);
    assert!(row.reconstructed, "the degraded kind must survive the map");

    let records = vec![record(None, false), record(Some(9), true)];
    let rows = historical_interrogations(&records, &vec!["w1:p7".to_string()]);
    assert_eq!(
        rows.iter().map(|row| row.ended).collect::<Vec<bool>>(),
        vec![false, true]
    );
    let rows = historical_interrogations(&records, &Vec::new());
    assert!(rows.iter().all(|row| row.ended && row.pane_id.is_none()));
}

#[test]
fn the_steer_refusal_names_the_right_reason() {
    let refusal = historical_steer_refusal();
    assert!(refusal.contains("past run"), "{refusal}");
    assert!(!refusal.contains("closed"), "{refusal}");
}

#[test]
fn every_wire_node_status_maps_to_a_distinct_engine_status() {
    let all = [
        (WorkflowNodeStatus::Pending, NodeStatus::Pending),
        (WorkflowNodeStatus::Ready, NodeStatus::Ready),
        (WorkflowNodeStatus::Running, NodeStatus::Running),
        (
            WorkflowNodeStatus::NeedsAttention,
            NodeStatus::NeedsAttention,
        ),
        (WorkflowNodeStatus::Blocked, NodeStatus::Blocked),
        (WorkflowNodeStatus::Succeeded, NodeStatus::Succeeded),
        (WorkflowNodeStatus::Failed, NodeStatus::Failed),
        (WorkflowNodeStatus::Skipped, NodeStatus::Skipped),
        (WorkflowNodeStatus::Restored, NodeStatus::Restored),
        (WorkflowNodeStatus::Cancelled, NodeStatus::Cancelled),
    ];
    for (wire, engine) in all {
        assert_eq!(node_status(wire), engine, "{wire:?}");
    }
}

#[test]
fn refresh_open_dag_review_no_ops_outside_dag_mode() {
    let mut screen = closed_screen();
    assert!(!screen.refresh_open_dag_review("workflow_run:none", no_review()));
}

#[test]
fn refresh_open_dag_review_no_ops_for_a_run_that_is_not_open() {
    let mut screen = open_dag_on("workflow_run:a");
    assert!(!screen.refresh_open_dag_review("workflow_run:b", no_review()));
}

#[test]
fn refresh_open_dag_review_reloads_the_open_run_even_with_no_server_side_cycle() {
    let mut screen = open_dag_on("workflow_run:a");
    assert!(screen.refresh_open_dag_review("workflow_run:a", no_review()));
    assert!(
        screen
            .historical_run
            .expect("still open")
            .review
            .is_none(),
        "no cycle on this server, so the honest answer is none"
    );
}

#[test]
fn v_does_nothing_with_no_dag_run_open() {
    let mut screen = closed_screen();
    screen.mode = Mode::WorkflowDag;
    assert_eq!(
        screen.handle_workflow_dag_review_key(&dag_with(&[])),
        ReviewKey::Nothing
    );
    assert_eq!(screen.mode, Mode::WorkflowDag);
}

#[test]
fn v_does_nothing_while_a_review_is_already_running() {
    let mut screen = open_dag_on("workflow_run:a");
    let mut dag = dag_with(&[]);
    dag.lead_run = true;
    dag.run_status = Some(RunStatus::Succeeded);
    dag.review_status = Some(WorkflowReviewStatus::Running);
    assert_eq!(screen.handle_workflow_dag_review_key(&dag), ReviewKey::Nothing);
    assert_eq!(screen.mode, Mode::WorkflowDag);
}

#[test]
fn v_does_nothing_on_a_run_that_has_not_finished() {
    let mut screen = open_dag_on("workflow_run:a");
    let mut dag = dag_with(&[]);
    dag.lead_run = true;
    dag.run_status = Some(RunStatus::Running);
    dag.review_status = None;
    assert_eq!(screen.handle_workflow_dag_review_key(&dag), ReviewKey::Nothing);
    assert_eq!(screen.mode, Mode::WorkflowDag);
}

#[test]
fn v_opens_the_findings_overlay_when_the_cached_status_says_awaiting_user() {
    let mut screen = open_dag_on("workflow_run:a");
    let mut dag = dag_with(&[]);
    dag.lead_run = true;
    dag.run_status = Some(RunStatus::Succeeded);
    dag.review_status = Some(WorkflowReviewStatus::AwaitingUser);
    assert_eq!(screen.handle_workflow_dag_review_key(&dag), ReviewKey::Open);
    assert_eq!(screen.mode, Mode::WorkflowReview);
}

#[test]
fn a_path_that_stands_twice_is_the_later_node() {
    let mut wire = wire_graph();
    wire.nodes.push(wire_node("plan", "again"));
    let graph = rehydrate_run_graph(&wire_run(), &wire);
    assert_eq!(graph.edges[0].from, 2);
    assert_eq!(graph.nodes[1].parent, Some(2));
    assert_eq!(graph.nodes[0].idx, 0);
}

#[test]
fn how_a_node_left_the_field_is_kept() {
    let mut wire = wire_graph();
    wire.nodes[0].succession = None;
    wire.nodes[1].evidence = None;
    wire.nodes[1].succession = Some(WorkflowSuccession::Blocked {
        reason: "no key".to_string(),
        resume_when: Some("a key is there".to_string()),
    });
    wire.nodes[1].attempt = 300;
    let graph = rehydrate_run_graph(&wire_run(), &wire);
    assert!(graph.nodes[0].result.is_none());
    assert_eq!(graph.nodes[0].succession, None);
    assert_eq!(
        graph.nodes[1].result.as_ref().map(|result| result.evidence),
        Some(Evidence::SelfReport)
    );
    assert_eq!(
        graph.nodes[1].succession,
        Some(Succession::Blocked {
            reason: "no key".to_string(),
            resume_when: Some("a key is there".to_string()),
        })
    );
    assert_eq!(graph.nodes[1].attempt, u8::MAX);
    assert_eq!(graph.nodes[0].attempt, 1);
}

#[test]
fn only_a_run_that_was_led_shows_a_review() {
    let mut screen = closed_screen();
    assert!(!wants_review(&wire_run()));
    assert_eq!(
        screen.load_historical_run("workflow_run:past", found(wire_run(), some_review())),
        Ok(())
    );
    assert_eq!(screen.mode, Mode::WorkflowDag);
    let open = screen.historical_run.as_ref().expect("open");
    assert!(open.review.is_none() && open.review_findings.is_empty());
    assert_eq!(open.workflow_name, "ux-dag-probe");

    let mut led = wire_run();
    led.team_name = Some("team".to_string());
    assert!(wants_review(&led));
    assert_eq!(
        screen.load_historical_run("workflow_run:past", found(led, some_review())),
        Ok(())
    );
    let open = screen.historical_run.as_ref().expect("open");
    assert!(open.review.is_some() && open.review_findings.len() == 1);
}

#[test]
fn only_a_run_that_is_live_is_opened_as_such() {
    let mut screen = closed_screen();
    let mut lead = LeadDesk::new();
    assert!(!screen.open_workflow_dag_on_the_live_run(&lead, found(wire_run(), some_review())));
    assert_eq!(screen, closed_screen());
    lead.bind_lead_run(LeadLaunch {
        run_id: "workflow_run:past".to_string(),
        lead_pane_id: "w1:p1".to_string(),
        lead_terminal_id: "t1".to_string(),
        cwd: "/repo".to_string(),
        spawned_at_unix_ms: 1_000,
        messaging: MessagingSupport::Available,
        messaging_detail: "available".to_string(),
        node_keys: Vec::new(),
        seed_prompt: "run the plan".to_string(),
    });
    let refused = RunFetched::Refused {
        response: "not json".to_string(),
    };
    assert!(!screen.open_workflow_dag_on_the_live_run(&lead, refused));
    assert_eq!(screen, closed_screen());
    assert!(screen.open_workflow_dag_on_the_live_run(&lead, found(wire_run(), some_review())));
    assert_eq!(screen.mode, Mode::WorkflowDag);
}

#[test]
fn a_run_that_cannot_be_opened_says_why_and_changes_nothing() {
    let mut screen = closed_screen();
    assert_eq!(
        screen.load_historical_run(
            "run-9",
            RunFetched::Refused {
                response: refusal("workflow_run_pruned", "history pruned"),
            }
        ),
        Err("history pruned".to_string())
    );
    assert_eq!(
        screen.load_historical_run(
            "run-9",
            RunFetched::Refused {
                response: "not json".to_string(),
            }
        ),
        Err("could not open run run-9".to_string())
    );
    assert_eq!(screen, closed_screen());
}

#[test]
fn a_run_that_moved_is_shown_anew_only_where_it_is_open() {
    let mut led = wire_run();
    led.run_id = "workflow_run:a".to_string();
    led.team_name = Some("team".to_string());

    let mut screen = open_dag_on("workflow_run:a");
    assert!(!screen.wants_reload("workflow_run:b"));
    assert!(screen.wants_reload("workflow_run:a"));
    assert!(!screen.reload_open_lead_run(
        "workflow_run:a",
        RunFetched::Refused {
            response: "not json".to_string()
        }
    ));
    assert_eq!(screen, open_dag_on("workflow_run:a"));
    assert!(screen.reload_open_lead_run("workflow_run:a", found(led, no_review())));
    assert_eq!(
        screen.historical_run.as_ref().map(|open| open.graph.nodes.len()),
        Some(2)
    );

    screen.close_historical_run();
    assert!(screen.historical_run.is_none());
    assert!(!screen.wants_reload("workflow_run:a"));
}

#[test]
fn v_starts_a_review_of_a_run_that_is_over() {
    let mut screen = open_dag_on("workflow_run:a");
    let mut dag = dag_with(&[]);
    dag.lead_run = true;
    dag.run_status = Some(RunStatus::Failed);
    assert_eq!(
        screen.handle_workflow_dag_review_key(&dag),
        ReviewKey::Start {
            run_id: "workflow_run:a".to_string()
        }
    );

    let mut effects = Vec::new();
    screen.start_review_from_dag(
        "workflow_run:a",
        Some(Json::Bool(true)),
        "{}",
        &mut effects,
    );
    assert_eq!(
        screen.historical_run.as_ref().expect("open").review,
        Some(Json::Bool(true))
    );
    screen.start_review_from_dag("workflow_run:a", None, "not json", &mut effects);
    let notices: Vec<(NoticeLevel, &str)> = effects
        .iter()
        .map(|effect| match effect {
            Effect::Notice(notice) => (notice.level, notice.message.as_str()),
            other => panic!("only notices: {other:?}"),
        })
        .collect();
    assert_eq!(
        notices,
        vec![
            (
                NoticeLevel::Info,
                "review started — interviewing the run's team"
            ),
            (NoticeLevel::Warning, "could not start a review for this run"),
        ]
    );
}
