//! What starting the review of a run promises.

use crate::app::effects::{Effect, NoticeLevel, ReviewEventKind, StoreWrite};
use crate::app::review::{InterviewPhase, LiveReviewCycle, PlannedInterview, SynthesisState};
use crate::app::review_desk::{lemma_open_cycle, LiveReviews, ReviewRefusal, ReviewRefusalCode};
use crate::app::review_inputs::ReviewInputs;
use crate::app::review_start::{
    begun, came_up, env_text, finished, id_key, interview_asked, member_record, sources_are,
    start_refusal, synthesis_asked, synthesis_came_up, CommandOverride, InterviewCommand,
    InterviewRequest, InterviewUp, ReviewStart, SynthesisRequest, SynthesisSpawn,
};
use crate::laws::reviews::may_be_quoted;
use crate::model::{Assignment, InterviewMode, MemberEvidence, ReviewCycleStatus, RunStatus};
use crate::text::{decimal, texts};
use vstd::prelude::*;

verus! {

broadcast use crate::text::group_texts;

/// A review is refused for the first thing that stands against it and for nothing else: an
/// open cycle of the run, a run that has not finished, a stored cycle that is running or
/// waiting, nobody to ask, no workspace for its panes, or a command that cannot be read.
pub proof fn law_a_review_is_refused_for_a_reason(
    desk: LiveReviews,
    run_id: Seq<char>,
    inputs: ReviewInputs,
    planned: nat,
    workspace: Option<usize>,
    no_pane: Seq<char>,
    command: CommandOverride,
)
    ensures
        ({
            let r = start_refusal(desk, run_id, inputs, planned, workspace, no_pane, command);
            let reviewed = exists|i: int|
                0 <= i < desk.cycles@.len() && !(#[trigger] desk.cycles@[i]).closed
                    && desk.cycles@[i].run_id@ == run_id;
            let going = inputs.status == RunStatus::Pending || inputs.status == RunStatus::Running
                || inputs.status == RunStatus::Paused;
            let stored = inputs.existing_cycle == Some(ReviewCycleStatus::Running)
                || inputs.existing_cycle == Some(ReviewCycleStatus::AwaitingUser);
            &&& reviewed ==> r is Some && (r->0).0 == ReviewRefusalCode::InFlight
            &&& !reviewed && going ==> r is Some && (r->0).0 == ReviewRefusalCode::RunNotTerminal
            &&& !reviewed && !going && stored ==> r is Some && (r->0).0 == ReviewRefusalCode::InFlight
            &&& !reviewed && !going && !stored && planned == 0 ==> r is Some && (r->0).0
                == ReviewRefusalCode::NoInterviewableMembers
            &&& !reviewed && !going && !stored && planned > 0 && workspace is None ==> r == Some(
                (ReviewRefusalCode::NoTargetPane, no_pane),
            )
            &&& !reviewed && !going && !stored && planned > 0 && workspace is Some ==> (
            r is Some <==> command is Malformed) && (command matches CommandOverride::Malformed(m)
                ==> r == Some((ReviewRefusalCode::NotFound, m@)))
        }),
{
    lemma_open_cycle(desk.cycles@, run_id);
    let at = crate::app::review_desk::open_cycle(desk.cycles@, run_id);
    if at is Some {
        assert(!desk.cycles@[at->0].closed);
    }
}

/// A cycle begins under an id made of its run and of when it was started, with the given
/// command where one overrides the usual, and with no interview yet.
pub proof fn law_a_cycle_begins_empty(
    start: ReviewStart,
    run_id: Seq<char>,
    run_segment: Seq<char>,
    ws_idx: usize,
    command: CommandOverride,
    agent: String,
    cycle_dir: String,
    assignment: Assignment,
    started_at: u64,
)
    requires
        begun(
            start,
            run_id,
            run_segment,
            ws_idx,
            command,
            agent,
            cycle_dir,
            assignment,
            started_at,
        ),
    ensures
        start.run_id@ == run_id,
        start.cycle_id@ == "review_cycle:"@ + run_segment + "-"@ + decimal(started_at as nat),
        start.agent == agent,
        start.cycle_dir == cycle_dir,
        start.ws_idx == ws_idx,
        start.assignment == assignment,
        start.started_at_unix_ms == started_at,
        command matches CommandOverride::Command(argv) ==> start.command_override == Some(argv),
        command is Unset ==> start.command_override is None,
        start.spawned@.len() == 0,
        start.rows@.len() == 0,
        forall|m: Seq<char>| !#[trigger] start.panes@.contains_key(m),
        forall|m: Seq<char>| !#[trigger] start.interrogations@.contains_key(m),
{
}

proof fn lemma_record(members: Seq<MemberEvidence>, name: Seq<char>)
    ensures
        member_record(members, name) is Some <==> exists|k: int|
            0 <= k < members.len() && (#[trigger] members[k]).name@ == name,
        member_record(members, name) matches Some(m) ==> m.name@ == name && members.contains(m),
    decreases members.len(),
{
    if members.len() > 0 {
        let rest = members.skip(1);
        lemma_record(rest, name);
        if members[0].name@ == name {
            assert(members[0].name@ == name);
        } else {
            if exists|k: int| 0 <= k < members.len() && (#[trigger] members[k]).name@ == name {
                let k = choose|k: int|
                    0 <= k < members.len() && (#[trigger] members[k]).name@ == name;
                assert(rest[k - 1].name@ == name);
            }
            if exists|k: int| 0 <= k < rest.len() && (#[trigger] rest[k]).name@ == name {
                let k = choose|k: int| 0 <= k < rest.len() && (#[trigger] rest[k]).name@ == name;
                assert(members[k + 1].name@ == name);
            }
            if let Some(m) = member_record(members, name) {
                let k = choose|k: int| 0 <= k < rest.len() && rest[k] == m;
                assert(members[k + 1] == m);
            }
        }
    }
}

/// An interview is about the member it was planned for and from that member's own record.
/// Its pane starts in the directory of the cycle and is told the run, the cycle and the
/// member. It forks the member's own session where there is one, and works from the record
/// where there is none, unless a command overrides both.
pub proof fn law_an_interview_is_about_its_member(
    start: ReviewStart,
    planned: PlannedInterview,
    inputs: ReviewInputs,
    interrogation: Seq<char>,
    fork_env: Seq<(String, String)>,
    r: InterviewRequest<'_>,
)
    requires
        interview_asked(start, planned, inputs, interrogation, fork_env, r),
    ensures
        *r.planned == planned,
        *r.run == inputs.evidence,
        r.evidence is Some <==> exists|k: int|
            0 <= k < inputs.evidence.members@.len() && (
            #[trigger] inputs.evidence.members@[k]).name@ == planned.member@,
        r.evidence matches Some(m) ==> m.name@ == planned.member@
            && inputs.evidence.members@.contains(*m),
        r.spec.agent == start.agent && r.spec.member == planned.member && r.spec.cycle_dir
            == start.cycle_dir && r.spec.member_project_dir == planned.member_cwd
            && r.spec.assignment == start.assignment,
        r.cwd == start.cycle_dir,
        r.ws_idx == start.ws_idx,
        planned.mode == InterviewMode::Resumed ==> r.interrogation is Some && r.interrogation->0@
            == interrogation && r.env@.len() == 3 + fork_env.len(),
        planned.mode != InterviewMode::Resumed ==> r.interrogation is None && r.env@.len() == 3,
        r.env@[0].0@ == "KARVEX_WORKFLOW_REVIEW_RUN_ID"@ && r.env@[0].1@ == start.run_id@,
        r.env@[1].0@ == "KARVEX_WORKFLOW_REVIEW_CYCLE"@ && r.env@[1].1@ == start.cycle_id@,
        r.env@[2].0@ == "KARVEX_WORKFLOW_REVIEW_MEMBER"@ && r.env@[2].1@ == planned.member@,
        planned.mode == InterviewMode::Resumed ==> forall|k: int|
            0 <= k < fork_env.len() ==> r.env@[3 + k].0@ == (#[trigger] fork_env[k]).0@
                && r.env@[3 + k].1@ == fork_env[k].1@,
        start.command_override matches Some(argv) ==> !r.managed && (
        r.command matches InterviewCommand::Override(a) && a@ == argv@),
        start.command_override is None ==> r.managed && (planned.source_session_id matches Some(id)
            ==> r.command == InterviewCommand::Resume(id)) && (planned.source_session_id is None
            ==> r.command is EvidenceOnly),
{
    lemma_record(inputs.evidence.members@, planned.member@);
    let env = env_text(r.env@);
    let forked = env_text(fork_env);
    assert(env.len() == r.env@.len());
    assert(env[0] == (r.env@[0].0@, r.env@[0].1@));
    assert(env[1] == (r.env@[1].0@, r.env@[1].1@));
    assert(env[2] == (r.env@[2].0@, r.env@[2].1@));
    if planned.mode == InterviewMode::Resumed {
        assert forall|k: int| 0 <= k < fork_env.len() implies r.env@[3 + k].0@ == (
        #[trigger] fork_env[k]).0@ && r.env@[3 + k].1@ == fork_env[k].1@ by {
            assert(env[3 + k] == forked[k]);
            assert(env[3 + k] == (r.env@[3 + k].0@, r.env@[3 + k].1@));
            assert(forked[k] == (fork_env[k].0@, fork_env[k].1@));
        }
    }
}

/// A pane that came up is remembered under its member, with when it was launched and what
/// it is to be told, and is told it by the server unless a command overrides the usual. Its
/// interrogation is put on record where it has an id, a node and a session it came from,
/// and only there; every other interview stays as it was.
pub proof fn law_a_pane_that_came_up_is_its_members(
    before: ReviewStart,
    after: ReviewStart,
    up: InterviewUp,
    other: Seq<char>,
)
    requires
        came_up(before, after, up),
    ensures
        after.spawned@ == before.spawned@.push(up.planned),
        after.panes@.contains_key(up.planned.member@),
        after.panes@[up.planned.member@].pane_id == up.pane_id,
        after.panes@[up.planned.member@].terminal_id == up.terminal_id,
        after.panes@[up.planned.member@].started_at_unix_ms == up.launched_at_unix_ms,
        after.panes@[up.planned.member@].seed_prompt == up.seed_prompt,
        after.panes@[up.planned.member@].seeded <==> before.command_override is Some,
        !after.panes@[up.planned.member@].identity_recorded,
        other != up.planned.member@ ==> (after.panes@.contains_key(other)
            <==> before.panes@.contains_key(other)) && (before.panes@.contains_key(other)
            ==> after.panes@[other] == before.panes@[other]) && (
        after.interrogations@.contains_key(other) <==> before.interrogations@.contains_key(other))
            && (before.interrogations@.contains_key(other) ==> after.interrogations@[other]
            == before.interrogations@[other]),
        after.run_id == before.run_id && after.cycle_id == before.cycle_id,
        ({
            let recorded = up.interrogation is Some && up.path is Some
                && up.planned.source_session_id is Some;
            &&& !recorded ==> after.rows == before.rows && after.interrogations
                == before.interrogations
            &&& recorded ==> {
                &&& after.interrogations@.contains_key(up.planned.member@)
                &&& after.interrogations@[up.planned.member@] == up.interrogation->0
                &&& after.rows@.len() == before.rows@.len() + 1
                &&& forall|i: int|
                    0 <= i < before.rows@.len() ==> #[trigger] after.rows@[i] == before.rows@[i]
                &&& after.rows@[before.rows@.len() as int] matches Effect::Write(
                    StoreWrite::InterrogationStarted {
                        id,
                        run,
                        path,
                        source_session_id,
                        forked_session_id,
                        transcript_path,
                        cwd,
                        pane_id,
                        reconstructed,
                        seeded_from_seq,
                        note,
                        started_at_unix_ms,
                    },
                ) && id == up.interrogation->0 && run == before.run_id && path == up.path->0
                    && source_session_id == up.planned.source_session_id->0 && forked_session_id
                    is None && transcript_path is None && cwd == before.cycle_dir && pane_id
                    == up.pane_id && !reconstructed && seeded_from_seq is None
                    && started_at_unix_ms == before.started_at_unix_ms
            }
        }),
{
    if up.interrogation is Some && up.path is Some && up.planned.source_session_id is Some {
        assert forall|i: int| 0 <= i < before.rows@.len() implies #[trigger] after.rows@[i]
            == before.rows@[i] by {
            assert(after.rows@.drop_last()[i] == before.rows@[i]);
        }
        assert(after.rows@.last() == after.rows@[before.rows@.len() as int]);
    }
}

/// A start with no interview up is refused and asks for nothing. One with any becomes a
/// cycle that is open and to be looked at at once, with its panes and interrogations as
/// they came up, every interview running and none answered; it is written with its
/// interrogations in order, announced, and told with how many interviews it has.
pub proof fn law_a_start_becomes_a_cycle(
    start: ReviewStart,
    skipped: Vec<String>,
    inputs: ReviewInputs,
    asked: Seq<Effect>,
    asked_after: Seq<Effect>,
    r: Result<LiveReviewCycle, ReviewRefusal>,
)
    requires
        finished(start, skipped, inputs, asked, asked_after, r),
        asked_after.len() >= asked.len(),
    ensures
        r is Ok <==> start.spawned@.len() > 0,
        r is Err ==> asked_after == asked,
        r matches Ok(cycle) ==> {
            let n: int = start.rows@.len() as int;
            let at: int = asked.len() as int;
            &&& cycle.run_id == start.run_id && cycle.cycle_id == start.cycle_id
            &&& cycle.plan == start.spawned
            &&& cycle.skipped == skipped
            &&& cycle.interviews == start.panes
            &&& cycle.interrogations == start.interrogations
            &&& cycle.evidence == inputs.evidence
            &&& cycle.node_keys == inputs.node_keys
            &&& cycle.run_nodes == inputs.run_nodes
            &&& cycle.command_override == start.command_override
            &&& !cycle.closed && cycle.next_poll_at_ms is None && cycle.synthesis is Waiting
                && !cycle.synthesis_failed_once
            &&& forall|m: Seq<char>| !#[trigger] cycle.answers@.contains_key(m)
            &&& forall|i: int|
                0 <= i < cycle.phases.entries@.len() ==> (#[trigger] cycle.phases.entries@[i]).1
                    == InterviewPhase::Running
            &&& asked_after.len() == at + n + 3
            &&& asked_after[at] == Effect::Write(
                StoreWrite::ReviewCycleStarted {
                    id: start.cycle_id,
                    run: start.run_id,
                    kvdag_version: inputs.version_id,
                    started_at_unix_ms: start.started_at_unix_ms,
                },
            )
            &&& forall|i: int| 0 <= i < n ==> asked_after[at + 1 + i] == #[trigger] start.rows@[i]
            &&& asked_after[at + n + 1] == (Effect::ReviewEvent {
                kind: ReviewEventKind::Started,
                run_id: start.run_id,
            })
            &&& asked_after[at + n + 2] matches Effect::Notice(notice) && notice.level
                == NoticeLevel::Info && notice.run == Some(start.run_id) && notice.message@
                == "review started: "@ + decimal(start.spawned@.len()) + " interview(s) running"@
        },
{
    if let Ok(cycle) = r {
        let n: int = start.rows@.len() as int;
        let at: int = asked.len() as int;
        let made = asked_after.skip(at);
        assert(start.start_effects(inputs.version_id, made));
        assert(made[0] == asked_after[at]);
        assert(made[n + 1] == asked_after[at + n + 1]);
        assert(made[n + 2] == asked_after[at + n + 2]);
        assert forall|i: int| 0 <= i < n implies asked_after[at + 1 + i]
            == #[trigger] start.rows@[i] by {
            assert(made.subrange(1, 1 + n)[i] == start.rows@[i]);
            assert(made[1 + i] == asked_after[at + 1 + i]);
        }
    }
}

/// The synthesis is told every interview of the plan in its order: who was asked, what was
/// answered, and whether that may be quoted. Its pane starts in the directory of the cycle
/// and is told the run and the cycle.
pub proof fn law_the_synthesis_is_told_every_answer(
    cycle: LiveReviewCycle,
    r: SynthesisRequest<'_>,
    i: int,
)
    requires
        synthesis_asked(cycle, r),
        0 <= i < cycle.plan@.len(),
    ensures
        r.sources@.len() == cycle.plan@.len(),
        ({
            let member = cycle.plan@[i].member;
            let s = r.sources@[i];
            &&& s.member == member
            &&& s.is_lead == cycle.plan@[i].is_lead
            &&& cycle.answers@.contains_key(member@) ==> s.answer == Some(cycle.answers@[member@])
            &&& !cycle.answers@.contains_key(member@) ==> s.answer is None
            &&& may_be_quoted(cycle, member@) ==> s.attribution.mode == InterviewMode::Resumed
                && s.attribution.interrogation == Some(cycle.interrogations@[member@])
            &&& !may_be_quoted(cycle, member@) ==> s.attribution.mode
                == InterviewMode::EvidenceOnly && s.attribution.interrogation is None
        }),
        r.cwd == cycle.cycle_dir,
        r.ws_idx == cycle.ws_idx,
        *r.evidence == cycle.evidence,
        *r.node_keys == cycle.node_keys,
        r.env@.len() == 2,
        r.env@[0].0@ == "KARVEX_WORKFLOW_REVIEW_RUN_ID"@ && r.env@[0].1@ == cycle.run_id@,
        r.env@[1].0@ == "KARVEX_WORKFLOW_REVIEW_CYCLE"@ && r.env@[1].1@ == cycle.cycle_id@,
        cycle.command_override matches Some(argv) ==> !r.managed && texts(r.argv@) == texts(argv@),
        cycle.command_override is None ==> r.managed && texts(r.argv@) == seq![
            cycle.agent@,
            "--model"@,
            cycle.assignment.model.name(),
            "--effort"@,
            cycle.assignment.effort.name(),
            "--permission-mode"@,
            "acceptEdits"@,
            "--allowedTools"@,
            "Bash(kvx workflow review report:*)"@,
        ],
{
    assert(sources_are(r.sources@, cycle));
    let member = cycle.plan@[i].member@;
    crate::laws::reviews::lemma_quoted(cycle, member);
    let s = r.sources@[i];
    assert(s.attribution == cycle.attributed(Some(member)));
    let env = env_text(r.env@);
    assert(env.len() == r.env@.len());
    assert(env[0] == (r.env@[0].0@, r.env@[0].1@));
    assert(env[1] == (r.env@[1].0@, r.env@[1].1@));
}

/// A synthesis that came up runs in its pane and is still to be told what to do, unless a
/// command overrides the usual. One that did not come up closes its cycle as failed, which
/// is written, announced and told; either way nothing else of the cycle changes.
pub proof fn law_a_synthesis_comes_up_or_its_cycle_fails(
    before: LiveReviewCycle,
    after: LiveReviewCycle,
    outcome: SynthesisSpawn,
    now_unix_ms: u64,
    asked: Seq<Effect>,
    asked_after: Seq<Effect>,
)
    requires
        synthesis_came_up(before, after, outcome, now_unix_ms, asked, asked_after),
        asked_after.len() >= asked.len(),
    ensures
        outcome matches SynthesisSpawn::Spawned { pane_id, terminal_id, seed_prompt } ==> {
            &&& asked_after == asked
            &&& after.closed == before.closed
            &&& after.synthesis matches SynthesisState::Running(pane) && pane.pane_id == pane_id
                && pane.terminal_id == terminal_id && pane.seed_prompt == seed_prompt && (
            pane.seeded <==> before.command_override is Some)
        },
        !(outcome is Spawned) ==> {
            &&& after.closed
            &&& after.synthesis == before.synthesis
            &&& asked_after.len() == asked.len() + 3
            &&& asked_after[asked.len() as int] == Effect::Write(
                StoreWrite::ReviewCycleUpdate {
                    id: before.cycle_id,
                    status: Some(ReviewCycleStatus::Failed),
                    ended_at_unix_ms: Some(now_unix_ms),
                    resulting_version: None,
                },
            )
            &&& asked_after[asked.len() as int + 1] == (Effect::ReviewEvent {
                kind: ReviewEventKind::Closed,
                run_id: before.run_id,
            })
            &&& asked_after[asked.len() as int + 2] matches Effect::Notice(notice) && notice.level
                == NoticeLevel::Warning && notice.run == Some(before.run_id)
        },
        after.answers == before.answers && after.phases == before.phases && after.plan
            == before.plan && after.interviews == before.interviews && after.run_id
            == before.run_id,
{
    let made = asked_after.skip(asked.len() as int);
    if !(outcome is Spawned) {
        assert(made[0] == asked_after[asked.len() as int]);
        assert(made[1] == asked_after[asked.len() as int + 1]);
        assert(made[2] == asked_after[asked.len() as int + 2]);
    }
}

/// The key of a record is what follows the first colon of its id, and the id itself where
/// it has none.
pub proof fn law_a_key_follows_the_colon(table: Seq<char>, key: Seq<char>)
    requires
        !table.contains(':'),
    ensures
        id_key(table.push(':') + key) == key,
        id_key(table) == table,
{
    let id = table.push(':') + key;
    crate::text::lemma_char_pos(id, ':');
    assert(id[table.len() as int] == ':');
    assert(forall|j: int| 0 <= j < table.len() ==> id[j] == #[trigger] table[j]);
    let p = crate::text::char_pos(id, ':')->0;
    if p < table.len() {
        assert(table[p] == ':');
    }
    assert(id.skip(table.len() as int + 1) =~= key);
    crate::text::lemma_char_pos(table, ':');
    if let Some(i) = crate::text::char_pos(table, ':') {
        assert(table[i] == ':');
    }
}

} // verus!
