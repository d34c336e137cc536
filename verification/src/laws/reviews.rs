//! What driving the review of a finished run promises.

use crate::app::effects::{Effect, NoticeLevel, PromptReason, ReviewEventKind, StoreWrite};
use crate::app::review::{
    agent_session, seed_effect, InterviewFailure, InterviewPane, InterviewPhase, LiveReviewCycle,
    SessionRefKind, SynthesisState, SynthesisStep, TerminalInfo,
};
use crate::app::review_desk::{
    answer_taken, decided, earliest, end_effect, evidence_only, findings_recorded, lemma_open_cycle,
    looked, looked_at_all, open_cycle, poll_effects, polled, report_effects, reviews_polled,
    seed_is, LiveReviews, ParsedFinding, ReviewRefusal, ReviewRefusalCode,
};
use crate::laws::places::filtered_places;
use crate::model::{AgentState, InterviewMode, ReviewCycleStatus};
use crate::text::{decimal, has_text};
use vstd::prelude::*;

verus! {

broadcast use crate::text::group_texts;

// ---------------------------------------------------------------------------
// Findings
// ---------------------------------------------------------------------------

/// Whether the cycle at `i` takes the reports about a run.
pub open spec fn takes_reports(desk: LiveReviews, i: int, run_id: Seq<char>) -> bool {
    &&& 0 <= i < desk.cycles@.len()
    &&& !desk.cycles@[i].closed
    &&& desk.cycles@[i].run_id@ == run_id
}

/// Whether a member may be quoted: its own session was taken up, it answered, and its
/// interrogation is on record.
pub open spec fn may_be_quoted(cycle: LiveReviewCycle, member: Seq<char>) -> bool {
    &&& exists|p: int|
        0 <= p < cycle.plan@.len() && (#[trigger] cycle.plan@[p]).member@ == member
            && cycle.plan@[p].mode == InterviewMode::Resumed
    &&& cycle.phases@.contains_key(member) && cycle.phases@[member] == InterviewPhase::Answered
    &&& cycle.interrogations@.contains_key(member)
}

pub proof fn lemma_quoted(cycle: LiveReviewCycle, member: Seq<char>)
    ensures
        cycle.attributable(member) == may_be_quoted(cycle, member),
{
    if may_be_quoted(cycle, member) {
        let p = choose|p: int|
            0 <= p < cycle.plan@.len() && (#[trigger] cycle.plan@[p]).member@ == member
                && cycle.plan@[p].mode == InterviewMode::Resumed;
        assert(cycle.plan@[p].member@ == member);
    }
    if cycle.attributable(member) {
        let p = choose|p: int|
            0 <= p < cycle.plan@.len() && #[trigger] cycle.plan@[p].member@ == member
                && cycle.plan@[p].mode == InterviewMode::Resumed;
        assert(cycle.plan@[p].member@ == member);
    }
}

proof fn lemma_the_open_cycle(desk: LiveReviews, i: int, run_id: Seq<char>)
    requires
        desk.wf(),
        takes_reports(desk, i, run_id),
    ensures
        open_cycle(desk.cycles@, run_id) == Some(i),
{
    lemma_open_cycle(desk.cycles@, run_id);
    assert(!desk.cycles@[i].closed);
    let j = open_cycle(desk.cycles@, run_id)->0;
    if j < i {
        assert(desk.cycles@[j].run_id@ != desk.cycles@[i].run_id@);
    } else if i < j {
        assert(desk.cycles@[i].run_id@ != desk.cycles@[j].run_id@);
    }
}

/// A report that is accepted is stored whole: as many findings as were reported, and at each
/// place the one that was reported there, with its node, its member and its words as they
/// were reported. Its node's path is that of the run's own node, and its member is quoted
/// exactly where the cycle's own record allows it.
pub proof fn law_findings_are_stored_as_they_were_reported(
    before: LiveReviews,
    after: LiveReviews,
    i: int,
    run_id: Seq<char>,
    findings: Vec<ParsedFinding>,
    now_unix_ms: u64,
    asked: Seq<Effect>,
    asked_after: Seq<Effect>,
    r: Result<usize, ReviewRefusal>,
)
    requires
        before.wf(),
        takes_reports(before, i, run_id),
        !(before.cycles@[i].synthesis is Reported),
        findings@.len() > 0,
        findings_recorded(
            before,
            after,
            run_id,
            Ok(findings),
            now_unix_ms,
            asked,
            asked_after,
            r,
        ),
        asked_after.len() >= asked.len(),
    ensures
        r == Ok::<usize, ReviewRefusal>(findings@.len() as usize),
        asked_after[asked.len() as int] matches Effect::Write(
            StoreWrite::ReviewFindings { cycle, findings: stored },
        ) && cycle == before.cycles@[i].cycle_id && stored@.len() == findings@.len() && forall|j: int|
            0 <= j < findings@.len() ==> {
                let finding = findings@[j];
                let seed = #[trigger] stored@[j];
                &&& seed.node_key == finding.node_key
                &&& seed.body == finding.body
                &&& seed.source_member == finding.source_member
                &&& before.cycles@[i].run_nodes@.contains_key(finding.node_key@) ==> seed.path
                    == Some(before.cycles@[i].run_nodes@[finding.node_key@])
                &&& !before.cycles@[i].run_nodes@.contains_key(finding.node_key@) ==> seed.path
                    is None
                &&& finding.source_member is Some && may_be_quoted(
                    before.cycles@[i],
                    finding.source_member->0@,
                ) ==> seed.interview_mode == InterviewMode::Resumed && seed.interview == Some(
                    before.cycles@[i].interrogations@[finding.source_member->0@],
                )
                &&& !(finding.source_member is Some && may_be_quoted(
                    before.cycles@[i],
                    finding.source_member->0@,
                )) ==> seed.interview_mode == InterviewMode::EvidenceOnly && seed.interview is None
            },
{
    lemma_the_open_cycle(before, i, run_id);
    let cycle = before.cycles@[i];
    let made = asked_after.skip(asked.len() as int);
    assert(report_effects(cycle, findings@, now_unix_ms, made));
    assert(made[0] == asked_after[asked.len() as int]);
    let stored = match made[0] {
        Effect::Write(StoreWrite::ReviewFindings { findings: stored, .. }) => stored@,
        _ => Seq::empty(),
    };
    assert forall|j: int| 0 <= j < findings@.len() implies seed_is(
        #[trigger] stored[j],
        findings@[j],
        cycle,
    ) && (findings@[j].source_member is Some ==> cycle.attributable(
        findings@[j].source_member->0@,
    ) == may_be_quoted(cycle, findings@[j].source_member->0@)) by {
        if findings@[j].source_member is Some {
            lemma_quoted(cycle, findings@[j].source_member->0@);
        }
    }
}

/// An accepted report hands the cycle to the user and is the last: the cycle waits for a
/// decision without having ended, every interrogation on record is ended now, the screen is
/// told how many findings there are, and the cycle is driven no longer while every other
/// stays as it was. A report without findings stores none.
pub proof fn law_an_accepted_report_hands_the_cycle_over(
    before: LiveReviews,
    after: LiveReviews,
    i: int,
    run_id: Seq<char>,
    findings: Vec<ParsedFinding>,
    now_unix_ms: u64,
    asked: Seq<Effect>,
    asked_after: Seq<Effect>,
    r: Result<usize, ReviewRefusal>,
)
    requires
        before.wf(),
        takes_reports(before, i, run_id),
        !(before.cycles@[i].synthesis is Reported),
        findings_recorded(
            before,
            after,
            run_id,
            Ok(findings),
            now_unix_ms,
            asked,
            asked_after,
            r,
        ),
        asked_after.len() >= asked.len(),
    ensures
        ({
            let cycle = before.cycles@[i];
            let entries = cycle.interrogations.entries@;
            let f: int = if findings@.len() > 0 {
                1
            } else {
                0
            };
            let n0: int = asked.len() as int;
            &&& after.cycles@.len() == before.cycles@.len()
            &&& after.cycles@[i].closed
            &&& after.cycles@[i].synthesis is Reported
            &&& after.cycles@[i].answers == cycle.answers
            &&& after.cycles@[i].run_id == cycle.run_id
            &&& forall|j: int|
                0 <= j < before.cycles@.len() && j != i ==> #[trigger] after.cycles@[j]
                    == before.cycles@[j]
            &&& asked_after.len() == n0 + f + entries.len() + 3
            &&& asked_after[n0 + f] == Effect::Write(
                StoreWrite::ReviewCycleUpdate {
                    id: cycle.cycle_id,
                    status: Some(ReviewCycleStatus::AwaitingUser),
                    ended_at_unix_ms: None,
                    resulting_version: None,
                },
            )
            &&& forall|k: int|
                0 <= k < entries.len() ==> asked_after[n0 + f + 1 + k] == Effect::Write(
                    StoreWrite::InterrogationUpdate {
                        id: (#[trigger] entries[k]).1,
                        forked_session_id: None,
                        ended_at_unix_ms: Some(now_unix_ms),
                    },
                )
            &&& asked_after[n0 + f + entries.len() + 1] == (Effect::ReviewEvent {
                kind: ReviewEventKind::Ready,
                run_id: cycle.run_id,
            })
            &&& asked_after[n0 + f + entries.len() + 2] matches Effect::Notice(notice)
                && notice.level == NoticeLevel::Info && notice.run == Some(cycle.run_id)
                && notice.message@ == "review ready: "@ + decimal(findings@.len())
                + " finding(s) waiting for your decision"@
        }),
{
    lemma_the_open_cycle(before, i, run_id);
    let cycle = before.cycles@[i];
    let entries = cycle.interrogations.entries@;
    let made = asked_after.skip(asked.len() as int);
    assert(report_effects(cycle, findings@, now_unix_ms, made));
    let f: int = if findings@.len() > 0 {
        1
    } else {
        0
    };
    let n0: int = asked.len() as int;
    assert(forall|k: int| 0 <= k < made.len() ==> #[trigger] made[k] == asked_after[n0 + k]);
    assert forall|k: int| 0 <= k < entries.len() implies asked_after[n0 + f + 1 + k]
        == Effect::Write(
        StoreWrite::InterrogationUpdate {
            id: (#[trigger] entries[k]).1,
            forked_session_id: None,
            ended_at_unix_ms: Some(now_unix_ms),
        },
    ) by {
        let part = made.subrange(f + 1, f + 1 + entries.len());
        assert(part[k] == end_effect(entries[k], now_unix_ms));
        assert(part[k] == made[f + 1 + k]);
    }
    assert(made[f] == asked_after[n0 + f]);
    assert(made[f + entries.len() + 1] == asked_after[n0 + f + entries.len() + 1]);
    assert(made[f + entries.len() + 2] == asked_after[n0 + f + entries.len() + 2]);
}

/// A report that is refused stores nothing and changes nothing: one for a run that no open
/// cycle reviews, one for a cycle that has reported, and one that cannot be read, which is
/// refused in the reader's own words.
pub proof fn law_a_refused_report_changes_nothing(
    before: LiveReviews,
    after: LiveReviews,
    i: int,
    run_id: Seq<char>,
    parsed: Result<Vec<ParsedFinding>, String>,
    now_unix_ms: u64,
    asked: Seq<Effect>,
    asked_after: Seq<Effect>,
    r: Result<usize, ReviewRefusal>,
)
    requires
        before.wf(),
        findings_recorded(before, after, run_id, parsed, now_unix_ms, asked, asked_after, r),
    ensures
        (forall|j: int| 0 <= j < before.cycles@.len() ==> !#[trigger] takes_reports(before, j, run_id))
            ==> r is Err && r->Err_0.code == ReviewRefusalCode::NotFound,
        takes_reports(before, i, run_id) && before.cycles@[i].synthesis is Reported ==> r is Err
            && r->Err_0.code == ReviewRefusalCode::NotAwaiting,
        takes_reports(before, i, run_id) && !(before.cycles@[i].synthesis is Reported) && parsed
            is Err ==> r is Err && r->Err_0.code == ReviewRefusalCode::ReportRefused
            && r->Err_0.message@ == parsed->Err_0@,
        takes_reports(before, i, run_id) && !(before.cycles@[i].synthesis is Reported) && parsed
            is Ok ==> r is Ok,
        r is Err ==> after == before && asked_after == asked,
{
    if takes_reports(before, i, run_id) {
        lemma_the_open_cycle(before, i, run_id);
    }
    lemma_open_cycle(before.cycles@, run_id);
    if open_cycle(before.cycles@, run_id) is Some {
        assert(takes_reports(before, open_cycle(before.cycles@, run_id)->0, run_id));
    }
}

// ---------------------------------------------------------------------------
// Answers
// ---------------------------------------------------------------------------

/// An answer of an interview that is still running is kept under the member's name, beside
/// those of the others, and the cycle is looked at again at once. Any other is refused and
/// changes nothing.
pub proof fn law_an_answer_is_kept_under_its_member(
    before: LiveReviews,
    after: LiveReviews,
    i: int,
    run_id: Seq<char>,
    member: Seq<char>,
    parsed: Result<String, String>,
    r: Result<(), ReviewRefusal>,
    other: Seq<char>,
)
    requires
        before.wf(),
        takes_reports(before, i, run_id),
        answer_taken(before, after, run_id, member, parsed, r),
    ensures
        ({
            let cycle = before.cycles@[i];
            let running = cycle.phases@.contains_key(member) && cycle.phases@[member]
                == InterviewPhase::Running;
            &&& r is Ok <==> running && parsed is Ok
            &&& r is Err ==> after == before
            &&& !cycle.phases@.contains_key(member) ==> r is Err && r->Err_0.code
                == ReviewRefusalCode::NotFound
            &&& cycle.phases@.contains_key(member) && !running ==> r is Err && r->Err_0.code
                == ReviewRefusalCode::InterviewClosed
            &&& running && parsed is Err ==> r->Err_0.code == ReviewRefusalCode::AnswerRefused
                && r->Err_0.message@ == parsed->Err_0@
            &&& r is Ok ==> {
                let kept = after.cycles@[i];
                &&& after.cycles@.len() == before.cycles@.len()
                &&& kept.answers@.contains_key(member) && kept.answers@[member] == parsed->Ok_0
                &&& other != member ==> kept.answers@.contains_key(other)
                    == cycle.answers@.contains_key(other) && (cycle.answers@.contains_key(other)
                    ==> kept.answers@[other] == cycle.answers@[other])
                &&& kept.next_poll_at_ms is None
                &&& kept.phases == cycle.phases
                &&& kept.run_id == cycle.run_id && kept.closed == cycle.closed
                &&& forall|j: int|
                    0 <= j < before.cycles@.len() && j != i ==> #[trigger] after.cycles@[j]
                        == before.cycles@[j]
            }
        }),
{
    lemma_the_open_cycle(before, i, run_id);
}

// ---------------------------------------------------------------------------
// Looking at a cycle
// ---------------------------------------------------------------------------

/// Whether a cycle is to be looked at.
pub open spec fn wants_a_look(cycle: LiveReviewCycle, now_ms: u64) -> bool {
    !cycle.closed && (cycle.next_poll_at_ms is None || cycle.next_poll_at_ms->0 <= now_ms)
}

/// Whether the agent in a terminal is there and takes prompts.
pub open spec fn takes_prompts(terminals: Map<Seq<char>, TerminalInfo>, id: Seq<char>) -> bool {
    terminals.contains_key(id) && terminals[id].interactive_ready
}

/// A cycle that is closed, or whose next look lies ahead, is left alone, and nothing is
/// asked for.
pub proof fn law_a_cycle_is_left_alone_until_it_is_due(
    before: LiveReviewCycle,
    after: LiveReviewCycle,
    step: SynthesisStep,
    moved: bool,
    asked: Seq<Effect>,
    asked_after: Seq<Effect>,
    terminals: Map<Seq<char>, TerminalInfo>,
    now_ms: u64,
    now_unix_ms: u64,
)
    requires
        looked(before, after, step, moved, asked, asked_after, terminals, now_ms, now_unix_ms),
        now_ms <= u64::MAX - 2000,
    ensures
        !wants_a_look(before, now_ms) ==> after == before && asked_after == asked && !moved && step
            is Idle,
        wants_a_look(before, now_ms) ==> {
            &&& after.next_poll_at_ms == Some((now_ms + 2000) as u64)
            &&& after.cycle_id == before.cycle_id
            &&& after.run_id == before.run_id
            &&& after.plan == before.plan
            &&& after.answers == before.answers
            &&& after.interrogations == before.interrogations
            &&& after.run_nodes == before.run_nodes
            &&& after.evidence == before.evidence
            &&& after.closed == (step is GiveUp)
        },
{
    if before.due(now_ms) {
        let (a, b, c, d) = choose|
            a: LiveReviewCycle,
            b: LiveReviewCycle,
            c: LiveReviewCycle,
            d: LiveReviewCycle,
        | #[trigger]
            polled(before, a, b, c, d, terminals, now_ms, now_unix_ms) && decided(
                d,
                after,
                step,
                terminals,
            );
        assert(decided(d, after, step, terminals));
    }
}

/// One look at an interview. One that is over stays as it ended. One whose answer was
/// accepted is answered, whatever became of its pane. Without an answer it fails where its
/// pane is gone, where its agent is blocked, or a quarter of an hour after it was launched;
/// and goes on otherwise.
pub proof fn law_an_interview_ends_for_a_reason(
    before: LiveReviewCycle,
    after: LiveReviewCycle,
    step: SynthesisStep,
    moved: bool,
    asked: Seq<Effect>,
    asked_after: Seq<Effect>,
    terminals: Map<Seq<char>, TerminalInfo>,
    now_ms: u64,
    now_unix_ms: u64,
    i: int,
)
    requires
        before.wf(),
        looked(before, after, step, moved, asked, asked_after, terminals, now_ms, now_unix_ms),
        wants_a_look(before, now_ms),
        0 <= i < before.phases.entries@.len(),
    ensures
        ({
            let was = before.phases.entries@[i].1;
            let now = after.phases.entries@[i].1;
            let name = before.phases.entries@[i].0@;
            let pane = before.interviews.entries@[i].1;
            let here = terminals.contains_key(pane.terminal_id@);
            let answered = before.answers@.contains_key(name);
            let blocked = here && terminals[pane.terminal_id@].state == AgentState::Blocked;
            let late = now_unix_ms - pane.started_at_unix_ms >= 900_000;
            &&& after.phases.entries@.len() == before.phases.entries@.len()
            &&& after.phases.entries@[i].0@ == name
            &&& before.interviews.entries@[i].0@ == name
            &&& was != InterviewPhase::Running ==> now == was
            &&& was == InterviewPhase::Running && answered ==> now == InterviewPhase::Answered
            &&& was == InterviewPhase::Running && !answered && !here ==> now
                == InterviewPhase::Failed(InterviewFailure::PaneGone)
            &&& was == InterviewPhase::Running && !answered && here && blocked ==> now
                == InterviewPhase::Failed(InterviewFailure::Blocked)
            &&& was == InterviewPhase::Running && !answered && here && !blocked && late ==> now
                == InterviewPhase::Failed(InterviewFailure::TimedOut)
            &&& was == InterviewPhase::Running && !answered && here && !blocked && !late ==> now
                == InterviewPhase::Running
        }),
{
    let (a, b, c, d) = choose|
        a: LiveReviewCycle,
        b: LiveReviewCycle,
        c: LiveReviewCycle,
        d: LiveReviewCycle,
    | #[trigger]
        polled(before, a, b, c, d, terminals, now_ms, now_unix_ms) && decided(
            d,
            after,
            step,
            terminals,
        );
    assert(before.due(now_ms));
    assert(decided(d, after, step, terminals));
    assert(after.phases == d.phases);
    assert(d.phases.keys().len() == c.phases.keys().len());
    assert(before.phases.keys()[i] == before.interviews.keys()[i]);
    assert(d.phases.keys()[i] == c.phases.keys()[i]);
    assert(d.phases.entries@[i].1 == c.phase_seen(i, terminals, now_unix_ms));
    assert(c.interviews.keys()[i] == b.interviews.keys()[i]);
    assert(b.interviews.keys()[i] == a.interviews.keys()[i]);
    assert(c.interviews.entries@[i].1.terminal_id == b.interviews.entries@[i].1.terminal_id);
    assert(b.interviews.entries@[i].1.terminal_id == a.interviews.entries@[i].1.terminal_id);
    assert(c.interviews.entries@[i].1.started_at_unix_ms
        == b.interviews.entries@[i].1.started_at_unix_ms);
    assert(b.interviews.entries@[i].1.started_at_unix_ms
        == a.interviews.entries@[i].1.started_at_unix_ms);
}

/// The synthesis starts once every interview is over, and not before. While its pane is
/// there nothing is done about it. A pane that went without a report is replaced once; the
/// second time the cycle is closed as failed, which the store, the listeners and the user
/// are told.
pub proof fn law_the_synthesis_follows_the_last_interview(
    before: LiveReviewCycle,
    after: LiveReviewCycle,
    step: SynthesisStep,
    moved: bool,
    asked: Seq<Effect>,
    asked_after: Seq<Effect>,
    terminals: Map<Seq<char>, TerminalInfo>,
    now_ms: u64,
    now_unix_ms: u64,
)
    requires
        before.wf(),
        looked(before, after, step, moved, asked, asked_after, terminals, now_ms, now_unix_ms),
        wants_a_look(before, now_ms),
    ensures
        ({
            let over = forall|i: int|
                0 <= i < after.phases.entries@.len() ==> (#[trigger] after.phases.entries@[i]).1
                    != InterviewPhase::Running;
            &&& before.synthesis is Reported ==> step is Idle && after.synthesis is Reported
            &&& before.synthesis is Waiting ==> (step is Spawn <==> over) && (step is Idle
                <==> !over) && after.synthesis is Waiting
            &&& before.synthesis matches SynthesisState::Running(pane) ==> {
                let here = terminals.contains_key(pane.terminal_id@);
                &&& here ==> step is Idle && (after.synthesis matches SynthesisState::Running(p)
                    && p.terminal_id == pane.terminal_id && p.pane_id == pane.pane_id)
                &&& !here && !before.synthesis_failed_once ==> step is Retry && after.synthesis
                    is Waiting && after.synthesis_failed_once && !after.closed
                &&& !here && before.synthesis_failed_once ==> step is GiveUp && after.closed
            }
            &&& step is GiveUp ==> {
                let n: int = asked_after.len() as int;
                &&& n >= asked.len() + 3
                &&& asked_after[n - 3] == Effect::Write(
                    StoreWrite::ReviewCycleUpdate {
                        id: before.cycle_id,
                        status: Some(ReviewCycleStatus::Failed),
                        ended_at_unix_ms: Some(now_unix_ms),
                        resulting_version: None,
                    },
                )
                &&& asked_after[n - 2] == (Effect::ReviewEvent {
                    kind: ReviewEventKind::Closed,
                    run_id: before.run_id,
                })
                &&& asked_after[n - 1] matches Effect::Notice(notice) && notice.level
                    == NoticeLevel::Warning && notice.run == Some(before.run_id)
            }
        }),
{
    let (a, b, c, d) = choose|
        a: LiveReviewCycle,
        b: LiveReviewCycle,
        c: LiveReviewCycle,
        d: LiveReviewCycle,
    | #[trigger]
        polled(before, a, b, c, d, terminals, now_ms, now_unix_ms) && decided(
            d,
            after,
            step,
            terminals,
        ) && poll_effects(asked, asked_after, a, b, d, step, terminals, now_unix_ms);
    assert(before.due(now_ms));
    assert(poll_effects(asked, asked_after, a, b, d, step, terminals, now_unix_ms));
    assert(decided(d, after, step, terminals));
    assert(after.phases == d.phases);
    if d.settled() {
        assert forall|i: int| 0 <= i < after.phases.entries@.len() implies (
        #[trigger] after.phases.entries@[i]).1 != InterviewPhase::Running by {
            assert(d.phases.entries@[i].1.over());
        }
    } else {
        let i = choose|i: int|
            0 <= i < d.phases.entries@.len() && !(#[trigger] d.phases.entries@[i]).1.over();
        assert(after.phases.entries@[i].1 == InterviewPhase::Running);
    }
    if step is GiveUp {
        let first = asked + a.due_prompts(terminals).map_values(|p: (String, String)| seed_effect(p))
            + b.identity_writes(terminals);
        let made = asked_after.skip(first.len() as int);
        let n: int = asked_after.len() as int;
        assert(made[0] == asked_after[n - 3]);
        assert(made[1] == asked_after[n - 2]);
        assert(made[2] == asked_after[n - 1]);
    }
}

/// Whether a prompt is the instruction of one of a cycle's panes that is due.
spec fn instruction_due(
    cycle: LiveReviewCycle,
    terminals: Map<Seq<char>, TerminalInfo>,
    p: (String, String),
) -> bool {
    ||| exists|j: int|
        #![trigger cycle.interviews.entries@[j]]
        0 <= j < cycle.interviews.entries@.len() && !cycle.interviews.entries@[j].1.seeded
            && takes_prompts(terminals, cycle.interviews.entries@[j].1.terminal_id@) && p == (
            cycle.interviews.entries@[j].1.pane_id,
            cycle.interviews.entries@[j].1.seed_prompt,
        )
    ||| cycle.synthesis matches SynthesisState::Running(pane) && !pane.seeded && takes_prompts(
        terminals,
        pane.terminal_id@,
    ) && p == (pane.pane_id, pane.seed_prompt)
}

proof fn lemma_prompts(cycle: LiveReviewCycle, terminals: Map<Seq<char>, TerminalInfo>)
    ensures
        forall|k: int|
            0 <= k < cycle.due_prompts(terminals).len() ==> instruction_due(
                cycle,
                terminals,
                #[trigger] cycle.due_prompts(terminals)[k],
            ),
        forall|j: int|
            #![trigger cycle.interviews.entries@[j]]
            0 <= j < cycle.interviews.entries@.len() && !cycle.interviews.entries@[j].1.seeded
                && takes_prompts(terminals, cycle.interviews.entries@[j].1.terminal_id@)
                ==> cycle.due_prompts(terminals).contains(
                (
                    cycle.interviews.entries@[j].1.pane_id,
                    cycle.interviews.entries@[j].1.seed_prompt,
                ),
            ),
        cycle.synthesis matches SynthesisState::Running(pane) ==> !pane.seeded && takes_prompts(
            terminals,
            pane.terminal_id@,
        ) ==> cycle.due_prompts(terminals).contains((pane.pane_id, pane.seed_prompt)),
{
    let entries = cycle.interviews.entries@;
    let waits = |e: (String, InterviewPane)|
        LiveReviewCycle::awaits_seed(e.1.seeded, e.1.terminal_id@, terminals);
    let prompt = |e: (String, InterviewPane)| (e.1.pane_id, e.1.seed_prompt);
    let kept = entries.filter(waits);
    let places = filtered_places(entries, waits);
    let all = cycle.due_prompts(terminals);
    assert(forall|k: int| 0 <= k < kept.len() ==> all[k] == prompt(#[trigger] kept[k]));
    assert forall|k: int| 0 <= k < all.len() implies instruction_due(
        cycle,
        terminals,
        #[trigger] all[k],
    ) by {
        if k < kept.len() {
            let j = places[k];
            assert(waits(entries[j]));
            assert(kept[k] == entries[j]);
            assert(cycle.interviews.entries@[j] == entries[j]);
        }
    }
    assert forall|j: int|
        #![trigger cycle.interviews.entries@[j]]
        0 <= j < cycle.interviews.entries@.len() && !cycle.interviews.entries@[j].1.seeded
            && takes_prompts(terminals, cycle.interviews.entries@[j].1.terminal_id@) implies all.contains(
    (cycle.interviews.entries@[j].1.pane_id, cycle.interviews.entries@[j].1.seed_prompt)) by {
        assert(waits(entries[j]));
        let k = choose|k: int| 0 <= k < places.len() && places[k] == j;
        assert(kept[k] == entries[j]);
        assert(all[k] == prompt(kept[k]));
    }
    if cycle.synthesis is Running {
        let pane = cycle.synthesis->Running_0;
        if !pane.seeded && takes_prompts(terminals, pane.terminal_id@) {
            assert(all[kept.len() as int] == (pane.pane_id, pane.seed_prompt));
        }
    }
}

/// Every pane of a cycle is given its own instruction once, as soon as its agent takes
/// prompts: it is typed into that pane and into no other, the pane counts as instructed
/// from then on, and no pane is given another one's words.
pub proof fn law_a_pane_is_given_its_own_instruction_once(
    before: LiveReviewCycle,
    after: LiveReviewCycle,
    step: SynthesisStep,
    moved: bool,
    asked: Seq<Effect>,
    asked_after: Seq<Effect>,
    terminals: Map<Seq<char>, TerminalInfo>,
    now_ms: u64,
    now_unix_ms: u64,
    j: int,
)
    requires
        before.wf(),
        looked(before, after, step, moved, asked, asked_after, terminals, now_ms, now_unix_ms),
        wants_a_look(before, now_ms),
        0 <= j < before.interviews.entries@.len(),
    ensures
        ({
            let pane = before.interviews.entries@[j].1;
            let now = after.interviews.entries@[j].1;
            let due = !pane.seeded && takes_prompts(terminals, pane.terminal_id@);
            &&& after.interviews.entries@.len() == before.interviews.entries@.len()
            &&& now.pane_id == pane.pane_id
            &&& now.terminal_id == pane.terminal_id
            &&& now.started_at_unix_ms == pane.started_at_unix_ms
            &&& now.seed_prompt == pane.seed_prompt
            &&& pane.seeded ==> now.seeded
            &&& due ==> now.seeded && moved && exists|k: int|
                asked.len() <= k < asked_after.len() && #[trigger] asked_after[k] == (
                Effect::Prompt {
                    reason: PromptReason::ReviewSeed,
                    pane_id: pane.pane_id,
                    text: pane.seed_prompt,
                })
        }),
        forall|k: int|
            asked.len() <= k < asked_after.len() ==> (#[trigger] asked_after[k] matches Effect::Prompt {
                reason,
                pane_id,
                text,
            } ==> reason == PromptReason::ReviewSeed && ((exists|i: int|
                #![trigger before.interviews.entries@[i]]
                0 <= i < before.interviews.entries@.len() && before.interviews.entries@[i].1.pane_id
                    == pane_id && before.interviews.entries@[i].1.seed_prompt == text
                    && !before.interviews.entries@[i].1.seeded && takes_prompts(
                    terminals,
                    before.interviews.entries@[i].1.terminal_id@,
                )) || (before.synthesis matches SynthesisState::Running(p) && p.pane_id == pane_id
                && p.seed_prompt == text && !p.seeded && takes_prompts(
                terminals,
                p.terminal_id@,
            )))),
{
    let (a, b, c, d) = choose|
        a: LiveReviewCycle,
        b: LiveReviewCycle,
        c: LiveReviewCycle,
        d: LiveReviewCycle,
    | #[trigger]
        polled(before, a, b, c, d, terminals, now_ms, now_unix_ms) && decided(
            d,
            after,
            step,
            terminals,
        ) && moved == (a.due_prompts(terminals).len() > 0 || b.identity_writes(terminals).len() > 0
            || crate::app::review_desk::any_moved(c, d) || !(step is Idle)) && poll_effects(
            asked,
            asked_after,
            a,
            b,
            d,
            step,
            terminals,
            now_unix_ms,
        );
    assert(before.due(now_ms));
    assert(poll_effects(asked, asked_after, a, b, d, step, terminals, now_unix_ms));
    lemma_prompts(a, terminals);
    lemma_writes_only(b, terminals);
    let due = a.due_prompts(terminals);
    let prompts = due.map_values(|p: (String, String)| seed_effect(p));
    let first = asked + prompts + b.identity_writes(terminals);
    assert(forall|k: int| 0 <= k < first.len() ==> #[trigger] asked_after[k] == first[k]) by {
        if step is GiveUp {
            assert forall|k: int| 0 <= k < first.len() implies #[trigger] asked_after[k]
                == first[k] by {
                assert(asked_after.take(first.len() as int)[k] == first[k]);
            }
        }
    }
    let pane = before.interviews.entries@[j].1;
    assert(a.interviews == before.interviews && a.synthesis == before.synthesis);
    assert(b.interviews.keys().len() == a.interviews.keys().len());
    assert(c.interviews.keys().len() == b.interviews.keys().len());
    assert(b.interviews.entries@[j].1.seed_prompt == pane.seed_prompt);
    assert(c.interviews.entries@[j].1.seed_prompt == pane.seed_prompt);
    if !pane.seeded && takes_prompts(terminals, pane.terminal_id@) {
        assert(a.interviews.entries@[j].1 == pane);
        assert(due.contains((pane.pane_id, pane.seed_prompt)));
        let k = choose|k: int| 0 <= k < due.len() && due[k] == (pane.pane_id, pane.seed_prompt);
        assert(prompts[k] == seed_effect(due[k]));
        assert(asked_after[asked.len() + k] == prompts[k]);
        let ids = LiveReviewCycle::prompted(due);
        assert(ids[k] == pane.pane_id@);
        assert(has_text(ids, pane.pane_id@));
    }
    assert forall|k: int| asked.len() <= k < asked_after.len() implies (
    #[trigger] asked_after[k] matches Effect::Prompt { reason, pane_id, text } ==> reason
        == PromptReason::ReviewSeed && ((exists|i: int|
        #![trigger before.interviews.entries@[i]]
        0 <= i < before.interviews.entries@.len() && before.interviews.entries@[i].1.pane_id
            == pane_id && before.interviews.entries@[i].1.seed_prompt == text
            && !before.interviews.entries@[i].1.seeded && takes_prompts(
            terminals,
            before.interviews.entries@[i].1.terminal_id@,
        )) || (before.synthesis matches SynthesisState::Running(p) && p.pane_id == pane_id
        && p.seed_prompt == text && !p.seeded && takes_prompts(terminals, p.terminal_id@)))) by {
        if k < asked.len() + due.len() {
            let p = due[k - asked.len()];
            assert(instruction_due(a, terminals, p));
            assert(asked_after[k] == prompts[k - asked.len()]);
            assert(asked_after[k] == seed_effect(p));
        } else if k < first.len() {
            let w = b.identity_writes(terminals)[k - asked.len() - due.len()];
            assert(asked_after[k] == w);
        } else {
            let made = asked_after.skip(first.len() as int);
            assert(asked_after[k] == made[k - first.len()]);
        }
    }
}

/// Whether a terminal runs a session of an agent that its hook knows by id.
pub open spec fn runs_session(
    terminals: Map<Seq<char>, TerminalInfo>,
    id: Seq<char>,
    agent: Seq<char>,
    session: String,
) -> bool {
    &&& terminals.contains_key(id)
    &&& terminals[id].session matches Some(s) && s.agent@ == agent && s.kind == SessionRefKind::Id
        && s.value == session
}

proof fn lemma_writes_only(cycle: LiveReviewCycle, terminals: Map<Seq<char>, TerminalInfo>)
    ensures
        forall|k: int|
            0 <= k < cycle.identity_writes(terminals).len() ==> {
                &&& #[trigger] cycle.identity_writes(terminals)[k] is Write
                &&& exists|j: int|
                    #![trigger cycle.interviews.entries@[j]]
                    0 <= j < cycle.interviews.entries@.len() && cycle.identity_due(
                        cycle.interviews.entries@[j],
                        terminals,
                    ) && cycle.identity_writes(terminals)[k] == cycle.identity_write(
                        cycle.interviews.entries@[j],
                        terminals,
                    )
            },
        forall|j: int|
            #![trigger cycle.interviews.entries@[j]]
            0 <= j < cycle.interviews.entries@.len() && cycle.identity_due(
                cycle.interviews.entries@[j],
                terminals,
            ) ==> cycle.identity_writes(terminals).contains(
                cycle.identity_write(cycle.interviews.entries@[j], terminals),
            ),
{
    let entries = cycle.interviews.entries@;
    let due = |e: (String, InterviewPane)| cycle.identity_due(e, terminals);
    let row = |e: (String, InterviewPane)| cycle.identity_write(e, terminals);
    let kept = entries.filter(due);
    let places = filtered_places(entries, due);
    let all = cycle.identity_writes(terminals);
    assert(all == kept.map_values(row));
    assert forall|k: int| 0 <= k < all.len() implies ({
        &&& #[trigger] all[k] is Write
        &&& exists|j: int|
            #![trigger cycle.interviews.entries@[j]]
            0 <= j < cycle.interviews.entries@.len() && cycle.identity_due(
                cycle.interviews.entries@[j],
                terminals,
            ) && all[k] == cycle.identity_write(cycle.interviews.entries@[j], terminals)
    }) by {
        let j = places[k];
        assert(kept[k] == entries[j]);
        assert(due(entries[j]));
        assert(all[k] == row(kept[k]));
        assert(cycle.interviews.entries@[j] == entries[j]);
    }
    assert forall|j: int|
        #![trigger cycle.interviews.entries@[j]]
        0 <= j < cycle.interviews.entries@.len() && cycle.identity_due(
            cycle.interviews.entries@[j],
            terminals,
        ) implies all.contains(cycle.identity_write(cycle.interviews.entries@[j], terminals)) by {
        assert(due(entries[j]));
        let k = choose|k: int| 0 <= k < places.len() && places[k] == j;
        assert(kept[k] == entries[j]);
        assert(all[k] == row(kept[k]));
    }
}

/// The session that an interview's pane runs is written onto that member's own
/// interrogation, once, as soon as the pane's hook has told it.
pub proof fn law_a_fork_is_put_on_its_own_interrogation(
    before: LiveReviewCycle,
    after: LiveReviewCycle,
    step: SynthesisStep,
    moved: bool,
    asked: Seq<Effect>,
    asked_after: Seq<Effect>,
    terminals: Map<Seq<char>, TerminalInfo>,
    now_ms: u64,
    now_unix_ms: u64,
    j: int,
    session: String,
)
    requires
        before.wf(),
        looked(before, after, step, moved, asked, asked_after, terminals, now_ms, now_unix_ms),
        wants_a_look(before, now_ms),
        0 <= j < before.interviews.entries@.len(),
    ensures
        ({
            let member = before.interviews.entries@[j].0@;
            let pane = before.interviews.entries@[j].1;
            let due = !pane.identity_recorded && before.interrogations@.contains_key(member)
                && runs_session(terminals, pane.terminal_id@, before.agent@, session);
            &&& pane.identity_recorded ==> after.interviews.entries@[j].1.identity_recorded
            &&& !before.interrogations@.contains_key(member) ==> after.interviews.entries@[j].1.identity_recorded
                == pane.identity_recorded
            &&& due ==> after.interviews.entries@[j].1.identity_recorded && moved && exists|k: int|
                asked.len() <= k < asked_after.len() && #[trigger] asked_after[k] == Effect::Write(
                    StoreWrite::InterrogationUpdate {
                        id: before.interrogations@[member],
                        forked_session_id: Some(session),
                        ended_at_unix_ms: None,
                    },
                )
        }),
{
    let (a, b, c, d) = choose|
        a: LiveReviewCycle,
        b: LiveReviewCycle,
        c: LiveReviewCycle,
        d: LiveReviewCycle,
    | #[trigger]
        polled(before, a, b, c, d, terminals, now_ms, now_unix_ms) && decided(
            d,
            after,
            step,
            terminals,
        ) && moved == (a.due_prompts(terminals).len() > 0 || b.identity_writes(terminals).len() > 0
            || crate::app::review_desk::any_moved(c, d) || !(step is Idle)) && poll_effects(
            asked,
            asked_after,
            a,
            b,
            d,
            step,
            terminals,
            now_unix_ms,
        );
    assert(before.due(now_ms));
    assert(poll_effects(asked, asked_after, a, b, d, step, terminals, now_unix_ms));
    lemma_writes_only(b, terminals);
    let member = before.interviews.entries@[j].0@;
    let pane = before.interviews.entries@[j].1;
    assert(b.interviews.keys().len() == a.interviews.keys().len());
    assert(c.interviews.keys().len() == b.interviews.keys().len());
    assert(b.interviews.keys()[j] == a.interviews.keys()[j]);
    assert(b.interviews.entries@[j].0@ == member);
    assert(b.interviews.entries@[j].1.terminal_id == pane.terminal_id);
    assert(b.interviews.entries@[j].1.identity_recorded == pane.identity_recorded);
    assert(c.interviews.entries@[j].1.identity_recorded == (pane.identity_recorded
        || b.identity_due(b.interviews.entries@[j], terminals)));
    let due = !pane.identity_recorded && before.interrogations@.contains_key(member)
        && runs_session(terminals, pane.terminal_id@, before.agent@, session);
    if due {
        assert(b.identity_due(b.interviews.entries@[j], terminals));
        let all = b.identity_writes(terminals);
        let row = b.identity_write(b.interviews.entries@[j], terminals);
        assert(all.contains(row));
        let k = choose|k: int| 0 <= k < all.len() && all[k] == row;
        let prompts = a.due_prompts(terminals).map_values(
            |p: (String, String)| seed_effect(p),
        );
        let first = asked + prompts + all;
        let at = asked.len() + prompts.len() + k;
        assert(first[at] == all[k]);
        if step is GiveUp {
            assert(asked_after.take(first.len() as int)[at] == first[at]);
        }
        assert(asked_after[at] == row);
    }
}

/// A tick looks at every cycle: each that is due is put off by the interval, and each that
/// is not stays as it was; none comes and none goes.
pub proof fn law_a_tick_looks_at_every_cycle(
    before: LiveReviews,
    after: LiveReviews,
    steps: Seq<SynthesisStep>,
    changed: bool,
    terminals: Map<Seq<char>, TerminalInfo>,
    now_ms: u64,
    now_unix_ms: u64,
    asked: Seq<Effect>,
    asked_after: Seq<Effect>,
    i: int,
)
    requires
        reviews_polled(
            before,
            after,
            steps,
            changed,
            terminals,
            now_ms,
            now_unix_ms,
            asked,
            asked_after,
        ),
        0 <= i < before.cycles@.len(),
        now_ms <= u64::MAX - 2000,
    ensures
        after.cycles@.len() == before.cycles@.len(),
        steps.len() == before.cycles@.len(),
        after.cycles@[i].run_id == before.cycles@[i].run_id,
        wants_a_look(before.cycles@[i], now_ms) ==> after.cycles@[i].next_poll_at_ms == Some(
            (now_ms + 2000) as u64,
        ) && after.cycles@[i].closed == (steps[i] is GiveUp),
        !wants_a_look(before.cycles@[i], now_ms) ==> after.cycles@[i] == before.cycles@[i]
            && steps[i] is Idle,
        !(steps[i] is Idle) ==> changed,
{
    let (moved, between) = choose|moved: Seq<bool>, between: Seq<Seq<Effect>>| #[trigger]
        looked_at_all(
            before.cycles@,
            after.cycles@,
            steps,
            moved,
            between,
            terminals,
            now_ms,
            now_unix_ms,
        ) && between.first() == asked && between.last() == asked_after && changed
            == moved.contains(true);
    assert(looked_at_all(
        before.cycles@,
        after.cycles@,
        steps,
        moved,
        between,
        terminals,
        now_ms,
        now_unix_ms,
    ));
    assert(looked(
        before.cycles@[i],
        after.cycles@[i],
        steps[i],
        moved[i],
        between[i],
        between[i + 1],
        terminals,
        now_ms,
        now_unix_ms,
    ));
    law_a_cycle_is_left_alone_until_it_is_due(
        before.cycles@[i],
        after.cycles@[i],
        steps[i],
        moved[i],
        between[i],
        between[i + 1],
        terminals,
        now_ms,
        now_unix_ms,
    );
    if !(steps[i] is Idle) {
        assert(moved[i] == true);
    }
}

/// The next look at any review is at the earliest time that one of the open cycles asks
/// for, a cycle that asks for none being due at once; with every cycle closed there is none.
pub proof fn law_the_next_look_is_the_earliest(cycles: Seq<LiveReviewCycle>, now_ms: u64)
    ensures
        match earliest(cycles, now_ms) {
            Some(at) => {
                &&& exists|i: int|
                    0 <= i < cycles.len() && !(#[trigger] cycles[i]).closed && at == (
                    match cycles[i].next_poll_at_ms {
                        Some(t) => t,
                        None => now_ms,
                    })
                &&& forall|i: int|
                    0 <= i < cycles.len() && !(#[trigger] cycles[i]).closed ==> at <= (
                    match cycles[i].next_poll_at_ms {
                        Some(t) => t,
                        None => now_ms,
                    })
            },
            None => forall|i: int| 0 <= i < cycles.len() ==> (#[trigger] cycles[i]).closed,
        },
    decreases cycles.len(),
{
    if cycles.len() > 0 {
        let n = cycles.len() - 1;
        let init = cycles.drop_last();
        law_the_next_look_is_the_earliest(init, now_ms);
        assert(forall|i: int| 0 <= i < n ==> init[i] == #[trigger] cycles[i]);
        if earliest(init, now_ms) is Some {
            let i = choose|i: int|
                0 <= i < init.len() && !(#[trigger] init[i]).closed && earliest(init, now_ms)->0 == (
                match init[i].next_poll_at_ms {
                    Some(t) => t,
                    None => now_ms,
                });
            assert(!cycles[i].closed);
        }
        assert(cycles[n] == cycles.last());
    }
}

/// How many interviews rest on the record is how many members of the plan may not be
/// quoted.
pub proof fn law_what_rests_on_the_record_is_counted(cycle: LiveReviewCycle, n: nat)
    requires
        n <= cycle.plan@.len(),
    ensures
        evidence_only(cycle, n) <= n,
        evidence_only(cycle, n) == 0 <==> forall|p: int|
            0 <= p < n ==> may_be_quoted(cycle, (#[trigger] cycle.plan@[p]).member@),
        evidence_only(cycle, n) == n <==> forall|p: int|
            0 <= p < n ==> !may_be_quoted(cycle, (#[trigger] cycle.plan@[p]).member@),
        n > 0 ==> evidence_only(cycle, n) == evidence_only(cycle, (n - 1) as nat) + (
        if may_be_quoted(cycle, cycle.plan@[n - 1].member@) {
            0int
        } else {
            1int
        }),
    decreases n,
{
    if n > 0 {
        law_what_rests_on_the_record_is_counted(cycle, (n - 1) as nat);
        lemma_quoted(cycle, cycle.plan@[n - 1].member@);
    }
}

/// A terminal's session is known by the id that its hook recorded, for the agent of the
/// review alone; a terminal that is gone, one without a session, and one of another agent or
/// known otherwise have none.
pub proof fn law_a_session_is_known_by_the_id_of_its_own_agent(
    terminals: Map<Seq<char>, TerminalInfo>,
    id: Seq<char>,
    agent: Seq<char>,
)
    ensures
        !terminals.contains_key(id) ==> agent_session(terminals, id, agent) is None,
        terminals.contains_key(id) ==> match terminals[id].session {
            None => agent_session(terminals, id, agent) is None,
            Some(s) => {
                &&& s.agent@ == agent && s.kind is Id ==> agent_session(terminals, id, agent)
                    == Some(s.value)
                &&& s.agent@ != agent || s.kind !is Id ==> agent_session(
                    terminals,
                    id,
                    agent,
                ) is None
            },
        },
{
}

} // verus!
