//! Reviews of finished runs.

use karvex::app::effects::{Effect, PromptReason, ReviewEventKind, StoreWrite};
use karvex::app::review::{
    InterviewFailure, InterviewPhase, LiveReviewCycle, PlannedInterview, SessionRefKind,
    SynthesisState, SynthesisStep, TerminalInfo, TerminalSession, INTERVIEW_DEADLINE_MS,
};
use karvex::app::review_desk::{LiveReviews, ParsedFinding, ReviewRefusal, ReviewRefusalCode};
use karvex::app::lead::{LeadDesk, LeadLaunch, MessagingSupport, PollStart};
use karvex::app::review_inputs::{
    build_review_inputs, intervention_evidence, lead_identity, RawReview, ReviewInputs, TaskRows,
};
use karvex::app::tick::WorkflowDesk;
use karvex::app::review_start::{
    cycle_dir_refusal, load_review_inputs, record_key, review_workspace, synthesis_argv,
    CommandOverride, InterviewCommand, InterviewSpawnSpec, LoadRefusal, ReviewLoaded,
    SynthesisSpawn, INTERVIEW_ALLOWED_TOOL,
    REVIEW_CYCLE_ENV_VAR, REVIEW_MEMBER_ENV_VAR, REVIEW_RUN_ID_ENV_VAR, SYNTHESIS_ALLOWED_TOOL,
    SYNTHESIS_PANE_TITLE,
};
use karvex::app::store::StoreUnavailable;
use karvex::documents::read_json;
use karvex::model::{
    AgentState, Assignment, Attention, Effort, InterventionEvidence, InterviewMode, ModelAlias, NodeEvidence, NodeStatus,
    RecordedFailure, ReviewCycleStatus, RunMemberRecord, RunNodeRecord, RunRecord, RunStatus, Tier,
    WatchdogJournalEntry,
};
use karvex::ordered::TextMap;

const RUN: &str = "workflow_run:r1";
const NOW: u64 = 1_000_000;

/// How long after its cycle a pane is launched.
const LAUNCH_DELAY: u64 = 5;

fn assignment() -> Assignment {
    Assignment {
        model: ModelAlias::Sonnet,
        effort: Effort::Low,
    }
}

fn run_record(status: RunStatus) -> RunRecord {
    RunRecord {
        id: RUN.to_string(),
        workflow_name: "ship-it".to_string(),
        version: "kvdag_version:1".to_string(),
        status,
        tier: Tier::Low,
        started_at_unix_ms: 10,
        ended_at_unix_ms: Some(900),
        failure: None,
        lead_session_id: None,
    }
}

fn node(path: &str, key: &str, owner: &str) -> RunNodeRecord {
    RunNodeRecord {
        instance_path: path.to_string(),
        node_key: key.to_string(),
        label: String::new(),
        subject: "Plan the work".to_string(),
        owner: owner.to_string(),
        status: NodeStatus::Running,
        emergent: false,
        attention: None,
        model: "sonnet".to_string(),
        cwd: None,
        agent_session_id: None,
        transcript_path: None,
        started_at_unix_ms: Some(10),
        ended_at_unix_ms: None,
    }
}

fn member(name: &str, session: Option<&str>, transcript: Option<&str>) -> RunMemberRecord {
    RunMemberRecord {
        name: name.to_string(),
        agent_type: "Explore".to_string(),
        model: "sonnet".to_string(),
        pane_id: Some(format!("w1:p{}", name.len())),
        backend_type: "tmux".to_string(),
        cwd: Some("/repo".to_string()),
        session_id: session.map(str::to_string),
        transcript_path: transcript.map(str::to_string),
        last_state: Some("idle".to_string()),
        last_state_at_unix_ms: Some(800),
    }
}

fn raw(status: RunStatus, members: Vec<RunMemberRecord>) -> RawReview {
    RawReview {
        run: run_record(status),
        rows: TaskRows {
            nodes: vec![node("plan", "plan", "research"), node(".lead", ".lead", "")],
            watchdog: Vec::new(),
            evidence: Vec::new(),
        },
        members,
        summary: None,
        cycle: None,
        version: Some(4),
        graph_node_keys: vec!["plan".to_string()],
        readable_files: vec!["/t/build.jsonl".to_string()],
    }
}

fn inputs(status: RunStatus) -> ReviewInputs {
    build_review_inputs(raw(status, vec![member("research", None, None)]))
}

fn planned(member: &str, session: Option<&str>) -> PlannedInterview {
    PlannedInterview {
        member: member.to_string(),
        is_lead: false,
        mode: if session.is_some() {
            InterviewMode::Resumed
        } else {
            InterviewMode::EvidenceOnly
        },
        source_session_id: session.map(str::to_string),
        member_cwd: Some("/repo".to_string()),
        evidence_only_reason: match session {
            Some(_) => None,
            None => Some("no session was recorded".to_string()),
        },
    }
}

fn terminal(state: AgentState) -> TerminalInfo {
    TerminalInfo {
        interactive_ready: true,
        state,
        session: Some(TerminalSession {
            agent: "agent".to_string(),
            kind: SessionRefKind::Id,
            value: "fork-1".to_string(),
        }),
    }
}

fn terminals(ids: &[&str]) -> TextMap<TerminalInfo> {
    let mut map = TextMap::new();
    for id in ids {
        map.insert((*id).to_string(), terminal(AgentState::Working));
    }
    map
}

fn begin(
    desk: &LiveReviews,
    inputs: &ReviewInputs,
    interviews: usize,
    workspace: Option<usize>,
    command: CommandOverride,
) -> Result<karvex::app::review_start::ReviewStart, ReviewRefusal> {
    desk.start_review_cycle(
        RUN,
        "r1",
        inputs,
        interviews,
        workspace,
        "there is no pane to split",
        command,
        "agent".to_string(),
        "/runs/r1/review/c".to_string(),
        assignment(),
        NOW,
    )
}

fn start_with(
    desk: &mut LiveReviews,
    interviews: Vec<PlannedInterview>,
    effects: &mut Vec<Effect>,
) -> Result<(), ReviewRefusal> {
    let inputs = inputs(RunStatus::Succeeded);
    let mut start = begin(desk, &inputs, interviews.len(), Some(0), CommandOverride::Unset)?;
    for interview in interviews {
        let name = interview.member.clone();
        let request = start.interview_request(
            &interview,
            &inputs,
            &format!("interrogation:c-{name}"),
            &Vec::new(),
        );
        let interrogation = request.interrogation;
        let path = inputs.interrogation_path(&name);
        start.interview_spawned(
            interview,
            interrogation,
            path,
            format!("pane-{name}"),
            format!("term-{name}"),
            NOW + LAUNCH_DELAY,
            format!("read {name}.md"),
        );
    }
    let cycle = start.finish(vec!["verify".to_string()], inputs, effects)?;
    desk.add_cycle(cycle);
    Ok(())
}

fn started(interviews: Vec<PlannedInterview>) -> (LiveReviews, Vec<Effect>) {
    let mut desk = LiveReviews { cycles: Vec::new() };
    let mut effects = Vec::new();
    start_with(&mut desk, interviews, &mut effects).expect("the cycle starts");
    (desk, effects)
}

fn phase(desk: &LiveReviews, name: &str) -> Option<InterviewPhase> {
    desk.cycles[0].phases.get(name).copied()
}

fn poll(desk: &mut LiveReviews, live: &[&str], unix_ms: u64) -> (bool, Vec<SynthesisStep>) {
    for cycle in desk.cycles.iter_mut() {
        cycle.next_poll_at_ms = None;
    }
    desk.poll_review_cycles(&terminals(live), 5_000, unix_ms, &mut Vec::new())
}

fn spawn_synthesis(cycle: &mut LiveReviewCycle, effects: &mut Vec<Effect>) {
    cycle.synthesis_spawned(
        SynthesisSpawn::Spawned {
            pane_id: "pane-synthesis".to_string(),
            terminal_id: "term-synthesis".to_string(),
            seed_prompt: "read synthesis.md".to_string(),
        },
        NOW,
        effects,
    );
}

fn finding(source: Option<&str>) -> Vec<ParsedFinding> {
    vec![ParsedFinding {
        node_key: "plan".to_string(),
        source_member: source.map(str::to_string),
        body: "The brief never named the repository.".to_string(),
    }]
}

fn code<T>(refused: Result<T, ReviewRefusal>) -> Option<ReviewRefusalCode> {
    refused.err().map(|refusal| refusal.code)
}

#[test]
fn a_review_refuses_a_run_that_is_still_running() {
    let desk = LiveReviews { cycles: Vec::new() };
    let refusal = begin(
        &desk,
        &inputs(RunStatus::Running),
        1,
        Some(0),
        CommandOverride::Unset,
    )
    .err()
    .expect("a live run has no record to review yet");
    assert_eq!(refusal.code, ReviewRefusalCode::RunNotTerminal);
    assert_eq!(
        refusal.message,
        "workflow_run:r1 is still running; a review interviews a run that has finished"
    );
}

#[test]
fn a_second_review_of_the_same_run_is_refused_while_the_first_runs() {
    let (mut desk, mut effects) = started(vec![planned("research", None)]);
    let refused = start_with(&mut desk, vec![planned("research", None)], &mut effects);
    assert_eq!(code(refused), Some(ReviewRefusalCode::InFlight));
    assert_eq!(desk.cycles.len(), 1);
}

#[test]
fn a_run_with_nobody_to_interview_is_refused_by_name() {
    let desk = LiveReviews { cycles: Vec::new() };
    let refused = begin(
        &desk,
        &inputs(RunStatus::Succeeded),
        0,
        Some(0),
        CommandOverride::Unset,
    );
    assert_eq!(
        code(refused),
        Some(ReviewRefusalCode::NoInterviewableMembers)
    );
}

#[test]
fn every_other_precondition_has_its_own_refusal() {
    let desk = LiveReviews { cycles: Vec::new() };
    let mut waiting = inputs(RunStatus::Succeeded);
    waiting.existing_cycle = Some(ReviewCycleStatus::AwaitingUser);
    let refusal = begin(&desk, &waiting, 1, Some(0), CommandOverride::Unset)
        .err()
        .expect("a cycle waits");
    assert_eq!(
        refusal.message,
        "workflow_run:r1 already has a review cycle that is waiting for your decision"
    );
    let finished = inputs(RunStatus::Succeeded);
    let refusal = begin(&desk, &finished, 1, None, CommandOverride::Unset)
        .err()
        .expect("no pane");
    assert_eq!(refusal.code, ReviewRefusalCode::NoTargetPane);
    assert_eq!(refusal.message, "there is no pane to split");
    let refused = begin(
        &desk,
        &finished,
        1,
        Some(0),
        CommandOverride::Malformed("not a list".to_string()),
    );
    assert_eq!(code(refused), Some(ReviewRefusalCode::NotFound));
    assert!(cycle_dir_refusal("denied").message.ends_with(": denied"));
    let mut none = LiveReviews { cycles: Vec::new() };
    let mut effects = Vec::new();
    let start = begin(&none, &finished, 1, Some(0), CommandOverride::Unset).expect("begins");
    assert_eq!(start.cycle_id, "review_cycle:r1-1000000");
    let refused = start.finish(Vec::new(), finished, &mut effects);
    assert_eq!(code(refused), Some(ReviewRefusalCode::NotFound));
    assert!(effects.is_empty());
    none.drop_closed();
    assert!(none.cycles.is_empty());
}

#[test]
fn a_member_with_no_session_id_is_planned_as_evidence_only() {
    let inputs = build_review_inputs(raw(
        RunStatus::Succeeded,
        vec![
            member("research", None, None),
            member("build", Some("build-session"), Some("/t/build.jsonl")),
        ],
    ));
    let readable: Vec<(&str, bool)> = inputs
        .identities
        .iter()
        .map(|identity| (identity.name.as_str(), identity.transcript_readable))
        .collect();
    assert!(readable.contains(&("research", false)));
    assert!(readable.contains(&("build", true)));
}

#[test]
fn a_recorded_session_whose_transcript_is_gone_is_evidence_only() {
    let inputs = build_review_inputs(raw(
        RunStatus::Succeeded,
        vec![member(
            "research",
            Some("research-session"),
            Some("/nonexistent/research.jsonl"),
        )],
    ));
    assert!(!inputs.identities[0].transcript_readable);
    assert_eq!(
        inputs.identities[0].session_id.as_deref(),
        Some("research-session")
    );
}

#[test]
fn the_run_s_lead_is_interviewable_even_when_the_roster_never_named_it() {
    let inputs = inputs(RunStatus::Succeeded);
    assert!(
        inputs
            .identities
            .iter()
            .any(|identity| identity.is_lead && identity.name == "lead"),
        "{:?}",
        inputs.identities
    );
}

#[test]
fn the_record_of_a_run_is_put_together_from_its_rows() {
    let mut rows = raw(RunStatus::Failed, vec![member("research", None, None)]);
    rows.run.failure = Some(RecordedFailure {
        value: read_json(r#"{"kind":"lead_exited","detail":"gone"}"#).unwrap(),
        rendered: r#"{"kind":"lead_exited","detail":"gone"}"#.to_string(),
    });
    rows.rows.nodes[0].attention = Some(Attention::Stuck);
    rows.rows.watchdog.push(WatchdogJournalEntry {
        path: "plan".to_string(),
        at_unix_ms: 70,
        payload: read_json(r#"{"rung":2,"class":"stuck","delivery":{"channel":"pane_input"}}"#)
            .unwrap(),
    });
    rows.rows.watchdog.push(WatchdogJournalEntry {
        path: "plan".to_string(),
        at_unix_ms: 80,
        payload: read_json(r#"{"rung":300,"delivery":"undelivered","text":"hello?"}"#).unwrap(),
    });
    rows.rows.evidence.push(NodeEvidence {
        path: "plan".to_string(),
        blocked_by: vec!["lint".to_string()],
        time_in_progress_ms: 500,
        idle_while_in_progress_ms: 200,
    });
    let inputs = build_review_inputs(rows);
    assert_eq!(inputs.evidence.run_id, RUN);
    assert_eq!(inputs.evidence.kvdag_version, 4);
    assert_eq!(inputs.node_keys, vec!["plan".to_string()]);
    assert_eq!(inputs.run_nodes.get("plan").map(String::as_str), Some("plan"));
    assert!(inputs.evidence.failure.is_some());
    let tasks = &inputs
        .evidence
        .members
        .iter()
        .find(|member| member.name == "research")
        .expect("the member has a record")
        .tasks;
    assert_eq!(tasks.len(), 1);
    assert_eq!(tasks[0].unresolved_blockers, vec!["lint".to_string()]);
    assert_eq!(tasks[0].in_progress_ms, 500);
    assert_eq!(tasks[0].interventions.len(), 2);
    let landed = &tasks[0].interventions[0];
    assert_eq!((landed.rung, landed.kind.as_str()), (2, "stuck"));
    assert_eq!(landed.channel.as_deref(), Some("pane_input"));
    assert!(landed.delivered);
    assert_eq!(landed.text, None);
    let lost = &tasks[0].interventions[1];
    assert_eq!((lost.rung, lost.kind.as_str()), (u8::MAX, "unknown"));
    assert_eq!(lost.channel, None);
    assert!(!lost.delivered, "no delivery is invented");
    assert_eq!(lost.text.as_deref(), Some("hello?"));
}

#[test]
fn a_cycle_that_starts_says_so_and_keeps_who_was_left_out() {
    let (desk, effects) = started(vec![planned("research", Some("s1")), planned("build", None)]);
    let cycle = &desk.cycles[0];
    assert_eq!(cycle.skipped, vec!["verify".to_string()]);
    assert_eq!(cycle.plan.len(), 2);
    assert!(matches!(
        &effects[0],
        Effect::Write(StoreWrite::ReviewCycleStarted { id, .. }) if id == "review_cycle:r1-1000000"
    ));
    assert!(matches!(
        &effects[1],
        Effect::Write(StoreWrite::InterrogationStarted { id, source_session_id, note, .. })
            if id == "interrogation:c-research" && source_session_id == "s1"
                && note == "review interview"
    ));
    assert_eq!(
        effects[2],
        Effect::ReviewEvent {
            kind: ReviewEventKind::Started,
            run_id: RUN.to_string()
        }
    );
    assert!(matches!(
        &effects[3],
        Effect::Notice(notice) if notice.message == "review started: 2 interview(s) running"
    ));
    assert_eq!(effects.len(), 4);
}

#[test]
fn an_interview_pane_is_told_who_it_is() {
    let desk = LiveReviews { cycles: Vec::new() };
    let inputs = inputs(RunStatus::Succeeded);
    let start = begin(&desk, &inputs, 1, Some(3), CommandOverride::Unset).expect("begins");
    let fork = vec![("KARVEX_FORK".to_string(), "1".to_string())];
    let resumed = planned("research", Some("s1"));
    let request = start.interview_request(&resumed, &inputs, "i-1", &fork);
    assert_eq!(request.cwd, "/runs/r1/review/c", "never the member's own directory");
    assert_eq!(request.ws_idx, 3);
    assert_eq!(
        request.spec,
        InterviewSpawnSpec {
            agent: "agent".to_string(),
            member: "research".to_string(),
            cycle_dir: "/runs/r1/review/c".to_string(),
            member_project_dir: Some("/repo".to_string()),
            assignment: assignment(),
        }
    );
    assert_eq!(request.run.run_id, RUN);
    assert_eq!(request.evidence.map(|member| member.name.as_str()), Some("research"));
    assert_eq!(request.planned.member, "research");
    assert_eq!(request.interrogation.as_deref(), Some("i-1"));
    assert_eq!(request.command, InterviewCommand::Resume("s1".to_string()));
    assert!(request.managed);
    assert_eq!(
        request.env,
        vec![
            (REVIEW_RUN_ID_ENV_VAR.to_string(), RUN.to_string()),
            (
                REVIEW_CYCLE_ENV_VAR.to_string(),
                "review_cycle:r1-1000000".to_string()
            ),
            (REVIEW_MEMBER_ENV_VAR.to_string(), "research".to_string()),
            ("KARVEX_FORK".to_string(), "1".to_string()),
        ]
    );
    let bare = planned("build", None);
    let request = start.interview_request(&bare, &inputs, "i-2", &fork);
    assert_eq!(request.evidence, None);
    assert_eq!(
        request.planned.evidence_only_reason.as_deref(),
        Some("no session was recorded")
    );
    assert_eq!(request.interrogation, None);
    assert_eq!(request.command, InterviewCommand::EvidenceOnly);
    assert_eq!(request.env.len(), 3);
}

#[test]
fn a_silent_interview_times_out_and_the_cycle_still_reaches_synthesis() {
    let (mut desk, _) = started(vec![planned("research", None)]);
    let (changed, steps) = poll(&mut desk, &["term-research"], NOW + 16 * 60 * 1000);
    assert!(changed);
    assert_eq!(
        phase(&desk, "research"),
        Some(InterviewPhase::Failed(InterviewFailure::TimedOut))
    );
    assert_eq!(steps, vec![SynthesisStep::Spawn]);
    spawn_synthesis(&mut desk.cycles[0], &mut Vec::new());
    assert!(matches!(
        desk.cycles[0].synthesis,
        SynthesisState::Running(_)
    ));
}

#[test]
fn the_deadline_of_an_interview_runs_from_its_own_launch() {
    let (mut desk, _) = started(vec![planned("research", None)]);
    poll(&mut desk, &["term-research"], NOW + INTERVIEW_DEADLINE_MS);
    assert_eq!(phase(&desk, "research"), Some(InterviewPhase::Running));
    poll(
        &mut desk,
        &["term-research"],
        NOW + LAUNCH_DELAY + INTERVIEW_DEADLINE_MS,
    );
    assert_eq!(
        phase(&desk, "research"),
        Some(InterviewPhase::Failed(InterviewFailure::TimedOut))
    );
}

#[test]
fn an_interview_pane_that_dies_degrades_that_member_only() {
    let (mut desk, _) = started(vec![
        planned("research", Some("s1")),
        planned("build", Some("s2")),
    ]);
    desk.record_review_answer(RUN, "research", Ok("I planned the work.".to_string()))
        .expect("the answer parses");
    poll(&mut desk, &[], NOW + 1);
    assert_eq!(
        phase(&desk, "research"),
        Some(InterviewPhase::Answered),
        "an interview that answered and then exited answered"
    );
    assert_eq!(
        phase(&desk, "build"),
        Some(InterviewPhase::Failed(InterviewFailure::PaneGone))
    );
    let research = desk.cycles[0].attribution(Some("research"));
    assert_eq!(research.mode, InterviewMode::Resumed);
    assert!(research.interrogation.is_some());
    let build = desk.cycles[0].attribution(Some("build"));
    assert_eq!(build.mode, InterviewMode::EvidenceOnly);
    assert_eq!(build.interrogation, None);
}

#[test]
fn a_blocked_agent_ends_its_interview() {
    let (mut desk, _) = started(vec![planned("research", None)]);
    let mut live = TextMap::new();
    live.insert("term-research".to_string(), terminal(AgentState::Blocked));
    desk.poll_review_cycles(&live, 5_000, NOW + 1, &mut Vec::new());
    assert_eq!(
        phase(&desk, "research"),
        Some(InterviewPhase::Failed(InterviewFailure::Blocked))
    );
}

#[test]
fn a_synthesis_that_dies_twice_fails_the_cycle() {
    let (mut desk, _) = started(vec![planned("research", None)]);
    poll(&mut desk, &[], NOW + 1);
    spawn_synthesis(&mut desk.cycles[0], &mut Vec::new());

    let (_, steps) = poll(&mut desk, &[], NOW + 2);
    assert_eq!(
        steps,
        vec![SynthesisStep::Retry],
        "the first synthesis failure is a retry"
    );
    spawn_synthesis(&mut desk.cycles[0], &mut Vec::new());

    let mut effects = Vec::new();
    desk.cycles[0].next_poll_at_ms = None;
    let (_, steps) = desk.poll_review_cycles(&terminals(&[]), 5_000, NOW + 3, &mut effects);
    assert_eq!(steps, vec![SynthesisStep::GiveUp]);
    desk.drop_closed();
    assert!(
        desk.cycles.is_empty(),
        "the second failure fails the cycle and it stops being driven"
    );
    assert!(effects.iter().any(|effect| matches!(
        effect,
        Effect::Write(StoreWrite::ReviewCycleUpdate {
            status: Some(ReviewCycleStatus::Failed),
            ..
        })
    )));
    assert!(
        !effects.iter().any(|effect| matches!(
            effect,
            Effect::Write(StoreWrite::RunStatus { .. } | StoreWrite::RunFailed { .. })
        )),
        "a failed review leaves the run exactly as it found it"
    );
}

#[test]
fn a_malformed_answer_is_refused_and_the_interview_stays_open() {
    let (mut desk, _) = started(vec![planned("research", None)]);
    let refusal = desk
        .record_review_answer(
            RUN,
            "research",
            Err("the answer has no `what_happened`".to_string()),
        )
        .expect_err("an incomplete answer is refused");
    assert_eq!(refusal.code, ReviewRefusalCode::AnswerRefused);
    assert!(refusal.message.contains("what_happened"));

    poll(&mut desk, &["term-research"], NOW + 1);
    assert_eq!(
        phase(&desk, "research"),
        Some(InterviewPhase::Running),
        "a refused answer leaves the interview open to retry"
    );
    desk.record_review_answer(RUN, "research", Ok("{}".to_string()))
        .expect("the corrected answer is accepted");
    poll(&mut desk, &["term-research"], NOW + 2);
    assert_eq!(
        code(desk.record_review_answer(RUN, "research", Ok("{}".to_string()))),
        Some(ReviewRefusalCode::InterviewClosed)
    );
}

#[test]
fn an_answer_for_a_member_this_cycle_never_planned_is_refused() {
    let (mut desk, _) = started(vec![planned("research", None)]);
    assert_eq!(
        code(desk.record_review_answer(RUN, "stranger", Ok("{}".to_string()))),
        Some(ReviewRefusalCode::NotFound)
    );
    assert_eq!(
        code(desk.record_review_answer("workflow_run:r2", "research", Ok("{}".to_string()))),
        Some(ReviewRefusalCode::NotFound)
    );
}

#[test]
fn findings_reach_review_get_and_the_cycle_awaits_the_user() {
    let (mut desk, _) = started(vec![planned("research", Some("s1"))]);
    desk.record_review_answer(RUN, "research", Ok("{}".to_string()))
        .expect("the answer parses");
    poll(&mut desk, &[], NOW + 1);
    spawn_synthesis(&mut desk.cycles[0], &mut Vec::new());

    let mut effects = Vec::new();
    let count = desk
        .record_review_findings(RUN, Ok(finding(Some("research"))), NOW + 2, &mut effects)
        .expect("the findings parse");
    assert_eq!(count, 1);
    assert!(effects.iter().any(|effect| matches!(
        effect,
        Effect::Write(StoreWrite::ReviewCycleUpdate {
            status: Some(ReviewCycleStatus::AwaitingUser),
            ..
        })
    )));
    let seed = effects
        .iter()
        .find_map(|effect| match effect {
            Effect::Write(StoreWrite::ReviewFindings { findings, .. }) => Some(&findings[0]),
            _ => None,
        })
        .expect("the findings are stored");
    assert_eq!(seed.node_key, "plan");
    assert_eq!(
        seed.interview_mode,
        InterviewMode::Resumed,
        "an answered resumed interview with an interrogation row may be quoted"
    );
    assert!(seed.interview.is_some());
    assert!(desk.cycles[0].closed);
}

#[test]
fn a_finding_attributed_to_a_failed_interview_is_written_evidence_only() {
    let (mut desk, _) = started(vec![planned("research", Some("s1"))]);
    poll(&mut desk, &[], NOW + 1);
    assert_eq!(desk.live_review_evidence_only_count(RUN), Some(1));
    let mut effects = Vec::new();
    desk.record_review_findings(RUN, Ok(finding(Some("research"))), NOW + 2, &mut effects)
        .expect("the findings parse");
    let seed = effects
        .iter()
        .find_map(|effect| match effect {
            Effect::Write(StoreWrite::ReviewFindings { findings, .. }) => Some(&findings[0]),
            _ => None,
        })
        .expect("the findings are stored");
    assert_eq!(
        seed.interview_mode,
        InterviewMode::EvidenceOnly,
        "a member planned resumed whose interview failed is evidence-only"
    );
    assert_eq!(seed.interview, None);
}

#[test]
fn a_malformed_findings_document_is_refused_and_the_cycle_stays_open() {
    let (mut desk, _) = started(vec![planned("research", None)]);
    let mut effects = Vec::new();
    let refused = desk.record_review_findings(
        RUN,
        Err("replace needs a replacement".to_string()),
        NOW,
        &mut effects,
    );
    assert_eq!(code(refused), Some(ReviewRefusalCode::ReportRefused));
    assert!(!desk.cycles[0].closed, "a refused report leaves the cycle running");
    assert!(effects.is_empty());
}

#[test]
fn the_review_poller_runs_with_no_live_lead_run() {
    let (reviews, _) = started(vec![planned("research", None)]);
    let mut app = WorkflowDesk {
        lead: LeadDesk::new(),
        reviews,
    };
    assert!(app.lead.run.is_none(), "the fixture leaves no live run");
    assert!(
        app.reviews.review_cycle_deadline(5_000).is_some(),
        "a running cycle asks the loop to wake it"
    );
    // The whole tick, through the public entry point, with no lead at all.
    let mut effects = Vec::new();
    let tick =
        app.poll_run_projection(&terminals(&["term-research"]), 5_000, NOW + 1, &mut effects);
    assert_eq!(tick.run, PollStart::NotDue);
    assert_eq!(tick.syntheses, vec![SynthesisStep::Idle]);
    assert!(tick.changed, "its pane was given its instruction");
    assert_eq!(effects.len(), 1);
    assert_eq!(
        phase(&app.reviews, "research"),
        Some(InterviewPhase::Running)
    );
    assert_eq!(app.reviews.cycles[0].next_poll_at_ms, Some(7_000));
}

#[test]
fn a_running_review_does_not_block_a_new_run() {
    let (mut reviews, _) = started(vec![planned("research", None)]);
    let cycle = reviews.cycles.remove(0);
    let mut app = WorkflowDesk::new();
    app.add_review(cycle);
    assert_eq!(app.reviews.cycles.len(), 1);
    assert!(
        !app.lead.lead_run_is_live(),
        "a review cycle is not a live run and must not read as one"
    );
}

#[test]
fn a_tick_polls_the_reviews_before_it_closes_a_run_whose_lead_is_gone() {
    let (reviews, _) = started(vec![planned("research", None)]);
    let mut app = WorkflowDesk {
        lead: LeadDesk::new(),
        reviews,
    };
    app.lead.bind_lead_run(LeadLaunch {
        run_id: "workflow_run:r2".to_string(),
        lead_pane_id: "w1:p1".to_string(),
        lead_terminal_id: "term-lead".to_string(),
        cwd: "/repo".to_string(),
        spawned_at_unix_ms: NOW,
        messaging: MessagingSupport::Available,
        messaging_detail: String::new(),
        node_keys: Vec::new(),
        seed_prompt: "read the plan".to_string(),
    });
    let mut effects = Vec::new();
    let tick =
        app.poll_run_projection(&terminals(&["term-research"]), 5_000, NOW + 1, &mut effects);
    assert_eq!(tick.run, PollStart::Ended);
    assert!(tick.changed);
    assert!(matches!(&effects[0], Effect::Prompt { .. }));
    assert!(matches!(
        &effects[1],
        Effect::Write(StoreWrite::RunFailed { run, .. }) if run == "workflow_run:r2"
    ));
    assert!(!app.lead.lead_run_is_live());
}

#[test]
fn a_second_report_of_findings_is_refused() {
    let (mut desk, _) = started(vec![planned("research", None)]);
    let mut effects = Vec::new();
    assert_eq!(
        code(desk.record_review_findings(RUN, Err("no list".to_string()), NOW, &mut effects)),
        Some(ReviewRefusalCode::ReportRefused)
    );
    assert!(effects.is_empty());
    assert_eq!(
        desk.record_review_findings(RUN, Ok(finding(None)), NOW, &mut effects)
            .expect("the first report is taken"),
        1
    );
    let written = effects.len();
    let refused = desk.record_review_findings(RUN, Ok(finding(None)), NOW, &mut effects);
    assert_eq!(code(refused), Some(ReviewRefusalCode::NotFound));
    assert_eq!(effects.len(), written);
}

#[test]
fn the_lead_is_known_by_its_node_before_the_roster() {
    let mut lead = member("lead", Some("roster"), Some("/t/roster.jsonl"));
    let mut record = node(".lead", ".lead", "");
    let mut run = run_record(RunStatus::Succeeded);
    run.lead_session_id = Some("run".to_string());
    record.agent_session_id = Some("node".to_string());
    record.transcript_path = Some("/t/node.jsonl".to_string());
    record.cwd = Some("/node".to_string());
    let known = |a: &str, b: &str, c: &str| {
        (
            Some(a.to_string()),
            Some(b.to_string()),
            Some(c.to_string()),
        )
    };
    assert_eq!(
        lead_identity(&lead, Some(&record), &run),
        known("node", "/t/node.jsonl", "/node")
    );
    assert_eq!(
        lead_identity(&lead, None, &run),
        known("roster", "/t/roster.jsonl", "/repo")
    );
    lead.session_id = None;
    assert_eq!(
        lead_identity(&lead, None, &run),
        known("run", "/t/roster.jsonl", "/repo")
    );
}

#[test]
fn a_delivery_without_a_channel_is_no_delivery() {
    let said = |text: &str| intervention_evidence(7, &read_json(text).expect("a payload"));
    let claimed = said(r#"{"class":"stuck","rung":2,"delivery":{"delivered":true}}"#);
    assert_eq!(
        claimed,
        InterventionEvidence {
            at_unix_ms: 7,
            rung: 2,
            kind: "stuck".to_string(),
            channel: None,
            delivered: false,
            text: None,
        }
    );
    let landed = said(r#"{"delivery":{"channel":"inbox","delivered":true}}"#);
    assert!(landed.delivered);
    let lost = said(r#"{"delivery":{"channel":"inbox","delivered":false}}"#);
    assert_eq!(lost.channel.as_deref(), Some("inbox"));
    assert!(!lost.delivered);
}

#[test]
fn each_pane_is_given_its_one_instruction_once_its_agent_is_up() {
    let (mut desk, _) = started(vec![planned("research", Some("s1"))]);
    let mut effects = Vec::new();
    let (changed, _) =
        desk.poll_review_cycles(&terminals(&["term-research"]), 5_000, NOW + 1, &mut effects);
    assert!(changed);
    assert_eq!(
        effects,
        vec![
            Effect::Prompt {
                reason: PromptReason::ReviewSeed,
                pane_id: "pane-research".to_string(),
                text: "read research.md".to_string(),
            },
            Effect::Write(StoreWrite::InterrogationUpdate {
                id: "interrogation:c-research".to_string(),
                forked_session_id: Some("fork-1".to_string()),
                ended_at_unix_ms: None,
            }),
        ]
    );
    effects.clear();
    desk.cycles[0].next_poll_at_ms = None;
    desk.poll_review_cycles(&terminals(&["term-research"]), 9_000, NOW + 2, &mut effects);
    assert!(effects.is_empty());
}

#[test]
fn the_synthesis_pane_may_run_the_report_verb_the_interview_may_not() {
    let spec = InterviewSpawnSpec {
        agent: "agent".to_string(),
        member: "synthesis".to_string(),
        cycle_dir: "/runs/r/review/c".to_string(),
        member_project_dir: None,
        assignment: assignment(),
    };
    let argv = synthesis_argv(&spec);
    assert!(
        argv.iter().any(|arg| arg == SYNTHESIS_ALLOWED_TOOL),
        "the synthesis pane reports findings, not answers: {argv:?}"
    );
    assert!(
        !argv.iter().any(|arg| arg == INTERVIEW_ALLOWED_TOOL),
        "the interview's allow-list would stall synthesis on an approval dialog: {argv:?}"
    );
    assert!(
        !argv
            .iter()
            .any(|arg| arg == "--resume" || arg == "--fork-session"),
        "there is no session to fork for synthesis: {argv:?}"
    );
    assert!(
        !argv
            .iter()
            .any(|arg| arg.contains("interview.md") || arg.contains(".md")),
        "no positional prompt, ever: {argv:?}"
    );
}

#[test]
fn the_synthesis_is_told_what_each_interview_supports() {
    let (mut desk, _) = started(vec![planned("research", Some("s1")), planned("build", None)]);
    desk.record_review_answer(RUN, "research", Ok("mine".to_string()))
        .expect("the answer parses");
    poll(&mut desk, &[], NOW + 1);
    let request = desk.cycles[0].start_review_synthesis();
    assert_eq!(request.title, SYNTHESIS_PANE_TITLE);
    assert_eq!(request.cwd, "/runs/r1/review/c");
    assert_eq!(request.ws_idx, 0);
    assert_eq!(request.evidence.run_id, RUN);
    assert_eq!(request.node_keys, &vec!["plan".to_string()]);
    assert_eq!(request.argv[0], "agent");
    assert_eq!(request.env.len(), 2);
    let sources: Vec<(&str, Option<&str>, InterviewMode)> = request
        .sources
        .iter()
        .map(|source| {
            (
                source.member.as_str(),
                source.answer.as_deref(),
                source.attribution.mode,
            )
        })
        .collect();
    assert_eq!(
        sources,
        vec![
            ("research", Some("mine"), InterviewMode::Resumed),
            ("build", None, InterviewMode::EvidenceOnly),
        ]
    );
}

#[test]
fn ids_and_places_of_a_review() {
    assert_eq!(record_key("workflow_run:a:b"), "a:b");
    assert_eq!(record_key("bare"), "bare");
    assert_eq!(review_workspace(Some(1), &vec![3, 2]), Some(1));
    assert_eq!(review_workspace(Some(1), &vec![3, 0]), None);
    assert_eq!(review_workspace(Some(2), &vec![3, 2]), None);
    assert_eq!(review_workspace(None, &vec![3]), None);
}

#[test]
fn a_run_is_read_before_it_is_reviewed() {
    match load_review_inputs(RUN, ReviewLoaded::Found(raw(RunStatus::Succeeded, Vec::new()))) {
        Ok(found) => assert_eq!(found.status, RunStatus::Succeeded),
        Err(_) => panic!("the run is there"),
    }
    match load_review_inputs("run-9", ReviewLoaded::Missing) {
        Err(LoadRefusal::Refused(refusal)) => {
            assert_eq!(refusal.code, ReviewRefusalCode::NotFound);
            assert_eq!(refusal.message, "no run with id run-9");
        }
        _ => panic!("there is no such run"),
    }
    match load_review_inputs(RUN, ReviewLoaded::Store(StoreUnavailable::thread_lost())) {
        Err(LoadRefusal::Store(unavailable)) => {
            assert_eq!(unavailable, StoreUnavailable::thread_lost());
        }
        _ => panic!("the store is gone"),
    }
}

#[test]
fn a_run_under_review_is_known_before_it_is_read() {
    let (desk, _) = started(vec![planned("alpha", None)]);
    let refusal = desk.refuse_second_review(RUN).expect("it is being reviewed");
    assert_eq!(refusal.code, ReviewRefusalCode::InFlight);
    assert_eq!(
        refusal.message,
        format!("a review cycle is already running for {RUN}")
    );
    assert!(desk.refuse_second_review("workflow_run:other").is_none());
}
