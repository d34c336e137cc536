//! Every review cycle this server is driving, and the reports that reach them.

use crate::app::effects::{
    extends, leaves_run_status, Effect, FindingSeed, NoticeLevel, ReviewEventKind, StoreWrite, UserNotice,
};
use crate::app::review::{
    InterviewPhase, LiveReviewCycle, SynthesisState, SynthesisStep, TerminalInfo,
    REVIEW_POLL_INTERVAL_MS,
};
use crate::model::{InterviewMode, ReviewCycleStatus};
use crate::ordered::TextMap;
use crate::text::{cat2, cat3, copy_opt, decimal, decimal_text, opt_text, str_eq};
use vstd::prelude::*;

verus! {

broadcast use crate::text::group_texts;

/// Why a review verb is refused.
#[derive(Debug, Clone, Copy, PartialEq, Eq, Structural)]
pub enum ReviewRefusalCode {
    InFlight,
    RunNotTerminal,
    NoInterviewableMembers,
    NoTargetPane,
    NotFound,
    InterviewClosed,
    AnswerRefused,
    NotAwaiting,
    ReportRefused,
}

/// A refusal: its code and its sentence.
#[derive(Debug, PartialEq, Eq)]
pub struct ReviewRefusal {
    pub code: ReviewRefusalCode,
    pub message: String,
}

impl ReviewRefusal {
    /// This refusal, word for word.
    pub open spec fn says(self, code: ReviewRefusalCode, message: Seq<char>) -> bool {
        self.code == code && self.message@ == message
    }

    pub fn new(code: ReviewRefusalCode, message: String) -> (r: Self)
        ensures
            r.says(code, message@),
    {
        ReviewRefusal { code, message }
    }
}

/// A finding as the synthesis reported it.
#[derive(Debug, PartialEq, Eq)]
pub struct ParsedFinding {
    pub node_key: String,
    pub source_member: Option<String>,
    pub body: String,
}

/// `seed` is `finding`, with the claim about its member that the cycle supports.
/// Nothing the synthesis wrote decides that claim.
pub open spec fn seed_is(seed: FindingSeed, finding: ParsedFinding, cycle: LiveReviewCycle) -> bool {
    let claim = cycle.attributed(opt_text(finding.source_member));
    &&& seed.node_key == finding.node_key
    &&& seed.path == (if cycle.run_nodes@.contains_key(finding.node_key@) {
        Some(cycle.run_nodes@[finding.node_key@])
    } else {
        None
    })
    &&& seed.source_member == finding.source_member
    &&& seed.interview_mode == claim.mode
    &&& seed.interview == claim.interrogation
    &&& seed.body == finding.body
}

pub fn finding_seed(finding: &ParsedFinding, cycle: &LiveReviewCycle) -> (r: FindingSeed)
    requires
        cycle.wf(),
    ensures
        seed_is(r, *finding, *cycle),
{
    let claim = match &finding.source_member {
        Some(m) => cycle.attribution(Some(m.as_str())),
        None => cycle.attribution(None),
    };
    FindingSeed {
        node_key: finding.node_key.clone(),
        path: match cycle.run_nodes.get(finding.node_key.as_str()) {
            Some(p) => Some(p.clone()),
            None => None,
        },
        source_member: copy_opt(&finding.source_member),
        interview_mode: claim.mode,
        interview: claim.interrogation,
        body: finding.body.clone(),
    }
}

/// A finding quotes a member only where that member's resumed interview was
/// answered and has an interrogation on record; otherwise it rests on the record.
pub proof fn law_a_finding_quotes_only_an_answered_interview(
    seed: FindingSeed,
    finding: ParsedFinding,
    cycle: LiveReviewCycle,
)
    requires
        seed_is(seed, finding, cycle),
    ensures
        seed.interview_mode == InterviewMode::Resumed <==> finding.source_member is Some
            && cycle.attributable(finding.source_member->0@),
        seed.interview is Some <==> seed.interview_mode == InterviewMode::Resumed,
{
}

/// The cycles this server is driving.
#[derive(Debug, PartialEq, Eq)]
pub struct LiveReviews {
    pub cycles: Vec<LiveReviewCycle>,
}

/// The place of the open cycle over `run_id`, the first of them.
pub open spec fn open_cycle(cycles: Seq<LiveReviewCycle>, run_id: Seq<char>) -> Option<int>
    decreases cycles.len(),
{
    if cycles.len() == 0 {
        None
    } else if !cycles[0].closed && cycles[0].run_id@ == run_id {
        Some(0)
    } else {
        match open_cycle(cycles.skip(1), run_id) {
            Some(i) => Some(i + 1),
            None => None,
        }
    }
}

/// No run has two cycles that are open.
pub open spec fn one_cycle_per_run(cycles: Seq<LiveReviewCycle>) -> bool {
    forall|i: int, j: int|
        0 <= i < j < cycles.len() && !(#[trigger] cycles[i]).closed && !(
        #[trigger] cycles[j]).closed ==> cycles[i].run_id@ != cycles[j].run_id@
}

/// A change to one cycle that keeps its run, and opens none that was closed, leaves every
/// run with one open cycle at most.
proof fn lemma_one_cycle_changed(before: Seq<LiveReviewCycle>, k: int, cycle: LiveReviewCycle)
    requires
        one_cycle_per_run(before),
        0 <= k < before.len(),
        cycle.run_id == before[k].run_id,
        before[k].closed ==> cycle.closed,
    ensures
        one_cycle_per_run(before.update(k, cycle)),
{
    let after = before.update(k, cycle);
    assert forall|i: int, j: int|
        0 <= i < j < after.len() && !(#[trigger] after[i]).closed && !(
        #[trigger] after[j]).closed implies after[i].run_id@ != after[j].run_id@ by {
        assert(!before[i].closed);
        assert(!before[j].closed);
    }
}

/// An open cycle is found exactly where there is one.
pub proof fn lemma_open_cycle(cycles: Seq<LiveReviewCycle>, run_id: Seq<char>)
    ensures
        match open_cycle(cycles, run_id) {
            Some(i) => 0 <= i < cycles.len() && !cycles[i].closed && cycles[i].run_id@ == run_id,
            None => forall|i: int|
                0 <= i < cycles.len() ==> (#[trigger] cycles[i]).closed || cycles[i].run_id@
                    != run_id,
        },
    decreases cycles.len(),
{
    if cycles.len() > 0 {
        let rest = cycles.skip(1);
        lemma_open_cycle(rest, run_id);
        if open_cycle(cycles, run_id) is None {
            assert forall|i: int| 0 <= i < cycles.len() implies (#[trigger] cycles[i]).closed
                || cycles[i].run_id@ != run_id by {
                if i > 0 {
                    assert(rest[i - 1] == cycles[i]);
                }
            }
        }
    }
}

/// The earliest deadline of `cycles`.
pub open spec fn earliest(cycles: Seq<LiveReviewCycle>, now_ms: u64) -> Option<u64>
    decreases cycles.len(),
{
    if cycles.len() == 0 {
        None
    } else {
        let before = earliest(cycles.drop_last(), now_ms);
        let last = cycles.last().deadline(now_ms);
        match (before, last) {
            (Some(a), Some(b)) => if b < a {
                Some(b)
            } else {
                Some(a)
            },
            (Some(a), None) => Some(a),
            (None, b) => b,
        }
    }
}

/// How many of the first `n` planned interviews rest on the record only.
pub open spec fn evidence_only(cycle: LiveReviewCycle, n: nat) -> nat
    decreases n,
{
    if n == 0 {
        0
    } else {
        evidence_only(cycle, (n - 1) as nat) + (if cycle.attributable(
            cycle.plan@[n - 1].member@,
        ) {
            0nat
        } else {
            1nat
        })
    }
}

/// One whole look at a due cycle: rearmed, seeded, identities recorded, interviews
/// looked at, and then the synthesis decided. The states in between are `a` to `d`.
pub open spec fn polled(
    before: LiveReviewCycle,
    a: LiveReviewCycle,
    b: LiveReviewCycle,
    c: LiveReviewCycle,
    d: LiveReviewCycle,
    terminals: Map<Seq<char>, TerminalInfo>,
    now_ms: u64,
    now_unix_ms: u64,
) -> bool {
    &&& a == (LiveReviewCycle {
        next_poll_at_ms: Some((now_ms + REVIEW_POLL_INTERVAL_MS) as u64),
        ..before
    })
    &&& b.seeded_from(a, terminals)
    &&& c == (LiveReviewCycle { interviews: c.interviews, ..b })
    &&& c.interviews.keys() == b.interviews.keys()
    &&& forall|i: int|
        0 <= i < c.interviews.entries@.len() ==> (#[trigger] c.interviews.entries@[i]).1 == (
        crate::app::review::InterviewPane {
            identity_recorded: b.interviews.entries@[i].1.identity_recorded || b.identity_due(
                b.interviews.entries@[i],
                terminals,
            ),
            ..b.interviews.entries@[i].1
        })
    &&& d == (LiveReviewCycle { phases: d.phases, ..c })
    &&& d.phases.keys() == c.phases.keys()
    &&& forall|i: int|
        0 <= i < d.phases.entries@.len() ==> (#[trigger] d.phases.entries@[i]).1 == c.phase_seen(
            i,
            terminals,
            now_unix_ms,
        )
}

/// What a look asks for: the instructions that are due, the sessions that can be
/// recorded, and the closing of a cycle whose synthesis gave up.
pub open spec fn poll_effects(
    before: Seq<Effect>,
    after: Seq<Effect>,
    a: LiveReviewCycle,
    b: LiveReviewCycle,
    d: LiveReviewCycle,
    step: SynthesisStep,
    terminals: Map<Seq<char>, TerminalInfo>,
    now_unix_ms: u64,
) -> bool {
    let first = before + a.due_prompts(terminals).map_values(
        |p: (String, String)| crate::app::review::seed_effect(p),
    ) + b.identity_writes(terminals);
    if step is GiveUp {
        extends(first, after) && d.failure_effects(
            after.skip(first.len() as int),
            "the review synthesis never reported findings"@,
            now_unix_ms,
        )
    } else {
        after == first
    }
}

/// Whether any interview of `before` is in another phase in `after`.
pub open spec fn any_moved(before: LiveReviewCycle, after: LiveReviewCycle) -> bool {
    exists|i: int|
        0 <= i < before.phases.entries@.len() && (#[trigger] before.phases.entries@[i]).1
            != after.phases.entries@[i].1
}

/// What a look decided: the cycle after it, as its synthesis step left it.
pub open spec fn decided(
    d: LiveReviewCycle,
    after: LiveReviewCycle,
    step: SynthesisStep,
    terminals: Map<Seq<char>, TerminalInfo>,
) -> bool {
    &&& step == d.synthesis_step(terminals)
    &&& after == (match step {
        SynthesisStep::Idle => d,
        SynthesisStep::Spawn => d,
        SynthesisStep::Retry => LiveReviewCycle {
            synthesis: SynthesisState::Waiting,
            synthesis_failed_once: true,
            ..d
        },
        SynthesisStep::GiveUp => LiveReviewCycle {
            synthesis: SynthesisState::Waiting,
            closed: true,
            ..d
        },
    })
}

/// One look at a cycle, from `before` to `after`: nothing where it is not due. `moved`
/// says whether anything changed, and `step` what the synthesis has to do next.
pub open spec fn looked(
    before: LiveReviewCycle,
    after: LiveReviewCycle,
    step: SynthesisStep,
    moved: bool,
    asked: Seq<Effect>,
    asked_after: Seq<Effect>,
    terminals: Map<Seq<char>, TerminalInfo>,
    now_ms: u64,
    now_unix_ms: u64,
) -> bool {
    if before.due(now_ms) {
        exists|a: LiveReviewCycle, b: LiveReviewCycle, c: LiveReviewCycle, d: LiveReviewCycle|
            #[trigger] polled(before, a, b, c, d, terminals, now_ms, now_unix_ms) && decided(
                d,
                after,
                step,
                terminals,
            ) && moved == (a.due_prompts(terminals).len() > 0 || b.identity_writes(
                terminals,
            ).len() > 0 || any_moved(c, d) || !(step is Idle)) && poll_effects(
                asked,
                asked_after,
                a,
                b,
                d,
                step,
                terminals,
                now_unix_ms,
            )
    } else {
        !moved && step is Idle && after == before && asked_after == asked
    }
}

/// A look at every cycle, one after the other. `asked[i]` is what was asked for before
/// the look at the cycle at `i`.
pub open spec fn looked_at_all(
    before: Seq<LiveReviewCycle>,
    after: Seq<LiveReviewCycle>,
    steps: Seq<SynthesisStep>,
    moved: Seq<bool>,
    asked: Seq<Seq<Effect>>,
    terminals: Map<Seq<char>, TerminalInfo>,
    now_ms: u64,
    now_unix_ms: u64,
) -> bool {
    &&& after.len() == before.len()
    &&& steps.len() == before.len()
    &&& moved.len() == before.len()
    &&& asked.len() == before.len() + 1
    &&& forall|i: int|
        0 <= i < before.len() ==> looked(
            before[i],
            #[trigger] after[i],
            steps[i],
            moved[i],
            asked[i],
            asked[i + 1],
            terminals,
            now_ms,
            now_unix_ms,
        )
}

/// A look at every review: `changed` says whether anything did, and `steps` what the
/// synthesis of each has to do next.
pub open spec fn reviews_polled(
    before: LiveReviews,
    after: LiveReviews,
    steps: Seq<SynthesisStep>,
    changed: bool,
    terminals: Map<Seq<char>, TerminalInfo>,
    now_ms: u64,
    now_unix_ms: u64,
    asked: Seq<Effect>,
    asked_after: Seq<Effect>,
) -> bool {
    exists|moved: Seq<bool>, between: Seq<Seq<Effect>>| #[trigger]
        looked_at_all(
            before.cycles@,
            after.cycles@,
            steps,
            moved,
            between,
            terminals,
            now_ms,
            now_unix_ms,
        ) && between.first() == asked && between.last() == asked_after && changed
            == moved.contains(true)
}

impl LiveReviews {
    /// Every cycle is well formed, and no run has two that are open.
    pub open spec fn wf(self) -> bool {
        &&& forall|i: int| 0 <= i < self.cycles@.len() ==> (#[trigger] self.cycles@[i]).wf()
        &&& one_cycle_per_run(self.cycles@)
    }

    /// The place of the open cycle over a run.
    pub fn live_review_index(&self, run_id: &str) -> (r: Result<usize, ReviewRefusal>)
        ensures
            match r {
                Ok(i) => i < self.cycles@.len() && open_cycle(self.cycles@, run_id@) == Some(
                    i as int,
                ),
                Err(e) => open_cycle(self.cycles@, run_id@) is None && e.says(
                    ReviewRefusalCode::NotFound,
                    "no review cycle is running for "@ + run_id@ + " on this server"@,
                ),
            },
    {
        let mut i: usize = 0;
        assert(self.cycles@.skip(0) =~= self.cycles@);
        while i < self.cycles.len()
            invariant
                i <= self.cycles@.len(),
                open_cycle(self.cycles@, run_id@) == (match open_cycle(
                    self.cycles@.skip(i as int),
                    run_id@,
                ) {
                    Some(j) => Some(j + i),
                    None => None,
                }),
            decreases self.cycles@.len() - i,
        {
            assert(self.cycles@.skip(i as int)[0] == self.cycles@[i as int]);
            if !self.cycles[i].closed && str_eq(self.cycles[i].run_id.as_str(), run_id) {
                return Ok(i);
            }
            assert(self.cycles@.skip(i as int).skip(1) =~= self.cycles@.skip(i as int + 1));
            i = i + 1;
        }
        Err(
            ReviewRefusal::new(
                ReviewRefusalCode::NotFound,
                cat3("no review cycle is running for ", run_id, " on this server"),
            ),
        )
    }

    /// When the poller next needs to be woken; `None` when nothing is in flight.
    pub fn review_cycle_deadline(&self, now_ms: u64) -> (r: Option<u64>)
        ensures
            r == earliest(self.cycles@, now_ms),
    {
        let mut best: Option<u64> = None;
        let mut i: usize = 0;
        while i < self.cycles.len()
            invariant
                i <= self.cycles@.len(),
                best == earliest(self.cycles@.take(i as int), now_ms),
            decreases self.cycles@.len() - i,
        {
            assert(self.cycles@.take(i as int + 1).drop_last() =~= self.cycles@.take(i as int));
            let next = self.cycles[i].next_poll_deadline(now_ms);
            best = match (best, next) {
                (Some(a), Some(b)) => if b < a {
                    Some(b)
                } else {
                    Some(a)
                },
                (Some(a), None) => Some(a),
                (None, b) => b,
            };
            i = i + 1;
        }
        assert(self.cycles@.take(self.cycles@.len() as int) =~= self.cycles@);
        best
    }

    /// One look at one cycle. Returns whether anything changed, and what the
    /// synthesis has to do next. A cycle that is not due is left alone.
    pub fn poll_review_cycle(
        &mut self,
        index: usize,
        terminals: &TextMap<TerminalInfo>,
        now_ms: u64,
        now_unix_ms: u64,
        effects: &mut Vec<Effect>,
    ) -> (r: (bool, SynthesisStep))
        requires
            old(self).wf(),
            terminals.wf(),
            now_ms + REVIEW_POLL_INTERVAL_MS <= u64::MAX,
        ensures
            final(self).wf(),
            final(self).cycles@.len() == old(self).cycles@.len(),
            forall|j: int|
                0 <= j < old(self).cycles@.len() && j != index
                    ==> #[trigger] final(self).cycles@[j] == old(self).cycles@[j],
            index >= old(self).cycles@.len() ==> r == (false, SynthesisStep::Idle)
                && final(effects)@ == old(effects)@,
            index < old(self).cycles@.len() ==> looked(
                old(self).cycles@[index as int],
                final(self).cycles@[index as int],
                r.1,
                r.0,
                old(effects)@,
                final(effects)@,
                terminals@,
                now_ms,
                now_unix_ms,
            ),
            extends(old(effects)@, final(effects)@),
            leaves_run_status(final(effects)@, old(effects)@.len() as int),
    {
        assert(effects@.take(effects@.len() as int) =~= effects@);
        if index >= self.cycles.len() {
            return (false, SynthesisStep::Idle);
        }
        if !self.cycles[index].poll_due(now_ms) {
            return (false, SynthesisStep::Idle);
        }
        let ghost start = self.cycles@;
        self.cycles[index].rearm(now_ms);
        let ghost a = self.cycles@[index as int];
        assert(self.cycles@ =~= start.update(index as int, a));
        let seeded = self.cycles[index].seed_review_panes(terminals, effects);
        let ghost b = self.cycles@[index as int];
        let ghost e1 = effects@;
        let recorded = self.cycles[index].record_interview_identities(terminals, effects);
        let ghost c = self.cycles@[index as int];
        let ghost e2 = effects@;
        let moved = self.cycles[index].absorb_review_interviews(terminals, now_unix_ms);
        let ghost d = self.cycles@[index as int];
        let step = self.cycles[index].advance_review_synthesis(terminals, now_unix_ms, effects);
        let ghost after = self.cycles@[index as int];
        proof {
            assert(self.cycles@ =~= start.update(index as int, after));
            lemma_one_cycle_changed(start, index as int, after);
            assert(polled(start[index as int], a, b, c, d, terminals@, now_ms, now_unix_ms));
            assert(moved == any_moved(c, d)) by {
                assert(c.phases.keys().len() == d.phases.keys().len());
                if moved {
                    let i = choose|i: int|
                        0 <= i < c.phases.entries@.len() && (#[trigger] c.phases.entries@[i]).1
                            != c.phase_seen(i, terminals@, now_unix_ms);
                    assert(d.phases.entries@[i].1 == c.phase_seen(i, terminals@, now_unix_ms));
                }
                if any_moved(c, d) {
                    let i = choose|i: int|
                        0 <= i < c.phases.entries@.len() && (#[trigger] c.phases.entries@[i]).1
                            != d.phases.entries@[i].1;
                    assert(d.phases.entries@[i].1 == c.phase_seen(i, terminals@, now_unix_ms));
                }
            }
            let prompts = a.due_prompts(terminals@).map_values(
                |p: (String, String)| crate::app::review::seed_effect(p),
            );
            assert(e1 == old(effects)@ + prompts);
            assert(e2 == e1 + b.identity_writes(terminals@));
            assert(effects@.take(old(effects)@.len() as int) =~= old(effects)@) by {
                assert(effects@.take(e2.len() as int).take(old(effects)@.len() as int)
                    =~= effects@.take(old(effects)@.len() as int));
                assert(e2.take(old(effects)@.len() as int) =~= old(effects)@);
            }
            assert forall|i: int| old(effects)@.len() <= i < effects@.len() implies (
            #[trigger] effects@[i] matches Effect::Write(w)
                ==> !crate::app::effects::touches_run_status(w)) by {
                if i < e2.len() {
                    assert(effects@.take(e2.len() as int)[i] == e2[i]);
                }
            }
        }
        (seeded || recorded || moved || step != SynthesisStep::Idle, step)
    }

    /// A look at every cycle. Returns whether anything changed, and what the synthesis of
    /// each has to do next. The cycles that it closed are still there.
    pub fn poll_review_cycles(
        &mut self,
        terminals: &TextMap<TerminalInfo>,
        now_ms: u64,
        now_unix_ms: u64,
        effects: &mut Vec<Effect>,
    ) -> (r: (bool, Vec<SynthesisStep>))
        requires
            old(self).wf(),
            terminals.wf(),
            now_ms + REVIEW_POLL_INTERVAL_MS <= u64::MAX,
        ensures
            final(self).wf(),
            reviews_polled(
                *old(self),
                *final(self),
                r.1@,
                r.0,
                terminals@,
                now_ms,
                now_unix_ms,
                old(effects)@,
                final(effects)@,
            ),
            extends(old(effects)@, final(effects)@),
            leaves_run_status(final(effects)@, old(effects)@.len() as int),
    {
        let ghost start = self.cycles@;
        let ghost n0 = effects@.len() as int;
        let ghost mut moved: Seq<bool> = Seq::empty();
        let ghost mut asked: Seq<Seq<Effect>> = seq![effects@];
        let mut steps: Vec<SynthesisStep> = Vec::new();
        let mut changed = false;
        let mut i: usize = 0;
        assert(effects@.take(n0) =~= effects@);
        while i < self.cycles.len()
            invariant
                start == old(self).cycles@,
                self.wf(),
                terminals.wf(),
                now_ms + REVIEW_POLL_INTERVAL_MS <= u64::MAX,
                self.cycles@.len() == start.len(),
                i <= start.len(),
                steps@.len() == i,
                moved.len() == i,
                asked.len() == i + 1,
                asked[0] == old(effects)@,
                asked[i as int] == effects@,
                n0 == old(effects)@.len(),
                changed == moved.contains(true),
                forall|k: int|
                    0 <= k < i ==> looked(
                        start[k],
                        #[trigger] self.cycles@[k],
                        steps@[k],
                        moved[k],
                        asked[k],
                        asked[k + 1],
                        terminals@,
                        now_ms,
                        now_unix_ms,
                    ),
                forall|k: int| i <= k < start.len() ==> #[trigger] self.cycles@[k] == start[k],
                extends(old(effects)@, effects@),
                leaves_run_status(effects@, n0),
            decreases start.len() - i,
        {
            let ghost cycles = self.cycles@;
            let ghost before = effects@;
            assert(cycles[i as int] == start[i as int]);
            let (this_moved, step) = self.poll_review_cycle(
                i,
                terminals,
                now_ms,
                now_unix_ms,
                effects,
            );
            steps.push(step);
            proof {
                let was = moved;
                moved = moved.push(this_moved);
                asked = asked.push(effects@);
                assert(moved.contains(true) == (was.contains(true) || this_moved)) by {
                    if was.contains(true) {
                        let k = choose|k: int| 0 <= k < was.len() && was[k] == true;
                        assert(moved[k] == true);
                    }
                    if this_moved {
                        assert(moved[i as int] == true);
                    }
                    if moved.contains(true) {
                        let k = choose|k: int| 0 <= k < moved.len() && moved[k] == true;
                        if k < was.len() {
                            assert(was[k] == true);
                        }
                    }
                }
                assert(effects@.take(n0) =~= effects@.take(before.len() as int).take(n0));
                assert forall|k: int| n0 <= k < effects@.len() implies (
                #[trigger] effects@[k] matches Effect::Write(w)
                    ==> !crate::app::effects::touches_run_status(w)) by {
                    if k < before.len() {
                        assert(effects@.take(before.len() as int)[k] == before[k]);
                    }
                }
                assert forall|k: int| 0 <= k < i + 1 implies looked(
                    start[k],
                    #[trigger] self.cycles@[k],
                    steps@[k],
                    moved[k],
                    asked[k],
                    asked[k + 1],
                    terminals@,
                    now_ms,
                    now_unix_ms,
                ) by {
                    if k < i {
                        assert(self.cycles@[k] == cycles[k]);
                    }
                }
            }
            changed = changed || this_moved;
            i = i + 1;
        }
        let r = (changed, steps);
        assert(asked.first() == old(effects)@);
        assert(asked.last() == effects@);
        assert(looked_at_all(
            old(self).cycles@,
            self.cycles@,
            r.1@,
            moved,
            asked,
            terminals@,
            now_ms,
            now_unix_ms,
        ));
        r
    }

    /// Stops driving the cycles that are closed.
    pub fn drop_closed(&mut self)
        requires
            old(self).wf(),
        ensures
            final(self).wf(),
            final(self).cycles@ == old(self).cycles@.filter(|c: LiveReviewCycle| !c.closed),
    {
        let ghost start = self.cycles@;
        let ghost open = |c: LiveReviewCycle| !c.closed;
        let mut i: usize = 0;
        let ghost mut seen: int = 0;
        proof {
            reveal(Seq::filter);
            assert(start.take(0).filter(open) =~= Seq::<LiveReviewCycle>::empty());
            assert(self.cycles@ =~= start.take(0).filter(open) + start.skip(0));
        }
        while i < self.cycles.len()
            invariant
                start == old(self).cycles@,
                open == |c: LiveReviewCycle| !c.closed,
                0 <= seen <= start.len(),
                i == start.take(seen).filter(open).len(),
                self.cycles@ == start.take(seen).filter(open) + start.skip(seen),
                self.wf(),
            decreases start.len() - seen,
        {
            let ghost kept = start.take(seen).filter(open);
            proof {
                reveal(Seq::filter);
                assert(start.take(seen + 1).drop_last() =~= start.take(seen));
                assert(start.take(seen + 1).last() == start[seen]);
                assert(self.cycles@[i as int] == start.skip(seen)[0]);
            }
            if self.cycles[i].closed {
                let ghost before = self.cycles@;
                let _gone = self.cycles.remove(i);
                proof {
                    assert(self.cycles@ =~= kept + start.skip(seen + 1));
                    assert forall|j: int| 0 <= j < self.cycles@.len() implies (
                    #[trigger] self.cycles@[j]).wf() by {
                        if j < i {
                            assert(self.cycles@[j] == before[j]);
                        } else {
                            assert(self.cycles@[j] == before[j + 1]);
                        }
                    }
                    assert forall|j: int, k: int|
                        0 <= j < k < self.cycles@.len() && !(#[trigger] self.cycles@[j]).closed
                            && !(#[trigger] self.cycles@[k]).closed implies self.cycles@[j].run_id@
                        != self.cycles@[k].run_id@ by {
                        let a = if j < i {
                            j
                        } else {
                            j + 1
                        };
                        let b = if k < i {
                            k
                        } else {
                            k + 1
                        };
                        assert(self.cycles@[j] == before[a]);
                        assert(self.cycles@[k] == before[b]);
                    }
                }
            } else {
                proof {
                    assert(self.cycles@ =~= kept.push(start[seen]) + start.skip(seen + 1));
                }
                i = i + 1;
            }
            proof {
                seen = seen + 1;
            }
        }
        proof {
            assert(start.take(start.len() as int) =~= start);
            assert(seen == start.len());
            assert(self.cycles@ =~= start.filter(open));
        }
    }

    // -----------------------------------------------------------------------
    // The two reports
    // -----------------------------------------------------------------------

    /// One interview pane reporting its answer. `parsed` is what reading the report
    /// gave: the answer, or the sentence that says what is wrong with it. A refused
    /// answer changes nothing, so the interview stays open for another try.
    pub fn record_review_answer(
        &mut self,
        run_id: &str,
        member: &str,
        parsed: Result<String, String>,
    ) -> (r: Result<(), ReviewRefusal>)
        requires
            old(self).wf(),
        ensures
            final(self).wf(),
            answer_taken(*old(self), *final(self), run_id@, member@, parsed, r),
    {
        let index = match self.live_review_index(run_id) {
            Ok(i) => i,
            Err(e) => {
                return Err(e);
            },
        };
        proof {
            lemma_open_cycle(self.cycles@, run_id@);
        }
        let phase: InterviewPhase = match self.cycles[index].phases.get(member) {
            Some(p) => *p,
            None => {
                return Err(
                    ReviewRefusal::new(
                        ReviewRefusalCode::NotFound,
                        cat2("this review cycle is not interviewing ", member),
                    ),
                );
            },
        };
        match phase {
            InterviewPhase::Answered => {
                return Err(
                    ReviewRefusal::new(
                        ReviewRefusalCode::InterviewClosed,
                        cat2(member, "'s interview has already been answered"),
                    ),
                );
            },
            InterviewPhase::Failed(_) => {
                return Err(
                    ReviewRefusal::new(
                        ReviewRefusalCode::InterviewClosed,
                        cat2(
                            member,
                            "'s interview was closed before this answer arrived; its findings will be recorded as evidence-only",
                        ),
                    ),
                );
            },
            InterviewPhase::Running => {},
        }
        match parsed {
            Err(sentence) => Err(ReviewRefusal::new(ReviewRefusalCode::AnswerRefused, sentence)),
            Ok(answer) => {
                let ghost start = self.cycles@;
                let name = member.to_owned();
                self.cycles[index].answers.insert(name, answer);
                self.cycles[index].next_poll_at_ms = None;
                proof {
                    let after = self.cycles@[index as int];
                    assert(self.cycles@ =~= start.update(index as int, after));
                    lemma_one_cycle_changed(start, index as int, after);
                }
                Ok(())
            },
        }
    }

    /// The synthesis pane's findings. Every claim about a member comes from the
    /// cycle's own record of that member's interview.
    pub fn record_review_findings(
        &mut self,
        run_id: &str,
        parsed: Result<Vec<ParsedFinding>, String>,
        now_unix_ms: u64,
        effects: &mut Vec<Effect>,
    ) -> (r: Result<usize, ReviewRefusal>)
        requires
            old(self).wf(),
        ensures
            final(self).wf(),
            extends(old(effects)@, final(effects)@),
            leaves_run_status(final(effects)@, old(effects)@.len() as int),
            findings_recorded(
                *old(self),
                *final(self),
                run_id@,
                parsed,
                now_unix_ms,
                old(effects)@,
                final(effects)@,
                r,
            ),
    {
        assert(effects@.take(effects@.len() as int) =~= effects@);
        let index = match self.live_review_index(run_id) {
            Ok(i) => i,
            Err(e) => {
                return Err(e);
            },
        };
        proof {
            lemma_open_cycle(self.cycles@, run_id@);
        }
        match &self.cycles[index].synthesis {
            SynthesisState::Reported => {
                return Err(
                    ReviewRefusal::new(
                        ReviewRefusalCode::NotAwaiting,
                        "this review cycle has already reported its findings".to_owned(),
                    ),
                );
            },
            _ => {},
        }
        let findings = match parsed {
            Ok(f) => f,
            Err(sentence) => {
                return Err(ReviewRefusal::new(ReviewRefusalCode::ReportRefused, sentence));
            },
        };
        let ghost start = self.cycles@;
        let ghost cycle = start[index as int];
        let ghost n0 = effects@.len() as int;
        let mut seeds: Vec<FindingSeed> = Vec::new();
        let mut k: usize = 0;
        while k < findings.len()
            invariant
                k <= findings@.len(),
                index < self.cycles@.len(),
                self.cycles@[index as int] == cycle,
                cycle.wf(),
                seeds@.len() == k,
                forall|j: int| 0 <= j < k ==> seed_is(#[trigger] seeds@[j], findings@[j], cycle),
            decreases findings@.len() - k,
        {
            seeds.push(finding_seed(&findings[k], &self.cycles[index]));
            k = k + 1;
        }
        let count: usize = seeds.len();
        let id = self.cycles[index].cycle_id.clone();
        if seeds.len() > 0 {
            effects.push(
                Effect::Write(StoreWrite::ReviewFindings { cycle: id.clone(), findings: seeds }),
            );
        }
        effects.push(
            Effect::Write(
                StoreWrite::ReviewCycleUpdate {
                    id,
                    status: Some(ReviewCycleStatus::AwaitingUser),
                    ended_at_unix_ms: None,
                    resulting_version: None,
                },
            ),
        );
        let ghost head = effects@;
        let ghost entries = cycle.interrogations.entries@;
        let ghost ends = |e: (String, String)| end_effect(e, now_unix_ms);
        let mut j: usize = 0;
        assert(head + entries.take(0).map_values(ends) =~= head);
        while j < self.cycles[index].interrogations.entries.len()
            invariant
                index < self.cycles@.len(),
                self.cycles@[index as int] == cycle,
                entries == cycle.interrogations.entries@,
                ends == |e: (String, String)| end_effect(e, now_unix_ms),
                j <= entries.len(),
                effects@ == head + entries.take(j as int).map_values(ends),
            decreases entries.len() - j,
        {
            effects.push(
                Effect::Write(
                    StoreWrite::InterrogationUpdate {
                        id: self.cycles[index].interrogations.entries[j].1.clone(),
                        forked_session_id: None,
                        ended_at_unix_ms: Some(now_unix_ms),
                    },
                ),
            );
            assert(entries.take(j as int + 1).map_values(ends) =~= entries.take(
                j as int,
            ).map_values(ends).push(end_effect(entries[j as int], now_unix_ms)));
            assert(effects@ =~= head + entries.take(j as int + 1).map_values(ends));
            j = j + 1;
        }
        assert(entries.take(entries.len() as int) =~= entries);
        let ghost body = effects@;
        self.cycles[index].synthesis = SynthesisState::Reported;
        self.cycles[index].closed = true;
        effects.push(
            Effect::ReviewEvent {
                kind: ReviewEventKind::Ready,
                run_id: self.cycles[index].run_id.clone(),
            },
        );
        effects.push(
            Effect::Notice(
                UserNotice {
                    level: NoticeLevel::Info,
                    run: Some(self.cycles[index].run_id.clone()),
                    path: None,
                    message: cat3(
                        "review ready: ",
                        decimal_text(count as u64).as_str(),
                        " finding(s) waiting for your decision",
                    ),
                },
            ),
        );
        proof {
            let after = self.cycles@[index as int];
            assert(self.cycles@ =~= start.update(index as int, after));
            lemma_one_cycle_changed(start, index as int, after);
            assert(effects@.take(n0) =~= old(effects)@);
            let made = effects@.skip(n0);
            let f: int = if findings@.len() > 0 {
                1
            } else {
                0
            };
            assert(head.skip(n0) =~= made.take(f + 1));
            assert(made.subrange(f + 1, f + 1 + entries.len()) =~= entries.map_values(ends));
            assert(report_effects(cycle, findings@, now_unix_ms, made));
        }
        Ok(count)
    }

    /// How many planned interviews of a run's open cycle rest on the record only;
    /// `None` when no cycle over the run is open.
    pub fn live_review_evidence_only_count(&self, run_id: &str) -> (r: Option<u32>)
        requires
            self.wf(),
        ensures
            r == (match open_cycle(self.cycles@, run_id@) {
                Some(i) => Some(
                    evidence_only(self.cycles@[i], self.cycles@[i].plan@.len()) as u32,
                ),
                None => None,
            }),
    {
        let index = match self.live_review_index(run_id) {
            Ok(i) => i,
            Err(_) => {
                return None;
            },
        };
        let cycle = &self.cycles[index];
        let mut count: usize = 0;
        let mut i: usize = 0;
        while i < cycle.plan.len()
            invariant
                cycle.wf(),
                i <= cycle.plan@.len(),
                count <= i,
                count == evidence_only(*cycle, i as nat),
            decreases cycle.plan@.len() - i,
        {
            let claim = cycle.attribution(Some(cycle.plan[i].member.as_str()));
            if claim.mode == InterviewMode::EvidenceOnly {
                count = count + 1;
            }
            i = i + 1;
        }
        Some(
            #[verifier::truncate]
            (count as u32),
        )
    }
}

/// What an answer of an interview comes to. A refused one changes nothing.
pub open spec fn answer_taken(
    before: LiveReviews,
    after: LiveReviews,
    run_id: Seq<char>,
    member: Seq<char>,
    parsed: Result<String, String>,
    r: Result<(), ReviewRefusal>,
) -> bool {
    &&& r is Err ==> after == before
    &&& match open_cycle(before.cycles@, run_id) {
        None => r is Err && r->Err_0.says(
            ReviewRefusalCode::NotFound,
            "no review cycle is running for "@ + run_id + " on this server"@,
        ),
        Some(i) => {
            let cycle = before.cycles@[i];
            if !cycle.phases@.contains_key(member) {
                r is Err && r->Err_0.says(
                    ReviewRefusalCode::NotFound,
                    "this review cycle is not interviewing "@ + member,
                )
            } else if cycle.phases@[member] is Answered {
                r is Err && r->Err_0.says(
                    ReviewRefusalCode::InterviewClosed,
                    member + "'s interview has already been answered"@,
                )
            } else if cycle.phases@[member] is Failed {
                r is Err && r->Err_0.says(
                    ReviewRefusalCode::InterviewClosed,
                    member
                        + "'s interview was closed before this answer arrived; its findings will be recorded as evidence-only"@,
                )
            } else {
                match parsed {
                    Err(sentence) => r is Err && r->Err_0.says(
                        ReviewRefusalCode::AnswerRefused,
                        sentence@,
                    ),
                    Ok(answer) => {
                        let kept = after.cycles@[i];
                        &&& r is Ok
                        &&& after.cycles@ == before.cycles@.update(i, kept)
                        &&& kept == (LiveReviewCycle {
                            answers: kept.answers,
                            next_poll_at_ms: None,
                            ..cycle
                        })
                        &&& kept.answers@ == cycle.answers@.insert(member, answer)
                    },
                }
            }
        },
    }
}

/// What a report of findings comes to. A refused one changes nothing and asks for nothing.
pub open spec fn findings_recorded(
    before: LiveReviews,
    after: LiveReviews,
    run_id: Seq<char>,
    parsed: Result<Vec<ParsedFinding>, String>,
    now_unix_ms: u64,
    asked: Seq<Effect>,
    asked_after: Seq<Effect>,
    r: Result<usize, ReviewRefusal>,
) -> bool {
    &&& r is Err ==> after == before && asked_after == asked
    &&& match open_cycle(before.cycles@, run_id) {
        None => r is Err && r->Err_0.says(
            ReviewRefusalCode::NotFound,
            "no review cycle is running for "@ + run_id + " on this server"@,
        ),
        Some(i) => {
            let cycle = before.cycles@[i];
            if cycle.synthesis is Reported {
                r is Err && r->Err_0.says(
                    ReviewRefusalCode::NotAwaiting,
                    "this review cycle has already reported its findings"@,
                )
            } else {
                match parsed {
                    Err(sentence) => r is Err && r->Err_0.says(
                        ReviewRefusalCode::ReportRefused,
                        sentence@,
                    ),
                    Ok(findings) => {
                        &&& r == Ok::<usize, ReviewRefusal>(findings@.len() as usize)
                        &&& after.cycles@ == before.cycles@.update(
                            i,
                            (LiveReviewCycle {
                                synthesis: SynthesisState::Reported,
                                closed: true,
                                ..cycle
                            }),
                        )
                        &&& report_effects(
                            cycle,
                            findings@,
                            now_unix_ms,
                            asked_after.skip(asked.len() as int),
                        )
                    },
                }
            }
        },
    }
}

/// The findings that an effect writes down.
pub open spec fn findings_written(effect: Effect) -> Option<Seq<FindingSeed>> {
    match effect {
        Effect::Write(StoreWrite::ReviewFindings { findings, .. }) => Some(findings@),
        _ => None,
    }
}

/// A cycle that has not reported takes one report. One that cannot be read is refused,
/// writes nothing and leaves the cycle open for another. One that can be read writes all
/// of its findings, each quoting its member only where that member's resumed interview
/// was answered and is on record; hands the cycle to the user without ending it; ends
/// every interrogation; and is the last: the cycle is driven no longer, and whatever is
/// reported for the run after it is an error that changes and asks for nothing.
pub proof fn law_a_review_reports_once(
    before: LiveReviews,
    after: LiveReviews,
    later: LiveReviews,
    run_id: Seq<char>,
    first: Result<Vec<ParsedFinding>, String>,
    second: Result<Vec<ParsedFinding>, String>,
    now_unix_ms: u64,
    then_unix_ms: u64,
    asked: Seq<Effect>,
    asked_after: Seq<Effect>,
    asked_later: Seq<Effect>,
    r: Result<usize, ReviewRefusal>,
    again: Result<usize, ReviewRefusal>,
)
    requires
        before.wf(),
        open_cycle(before.cycles@, run_id) matches Some(i) && !(before.cycles@[i].synthesis
            is Reported),
        findings_recorded(before, after, run_id, first, now_unix_ms, asked, asked_after, r),
        findings_recorded(
            after,
            later,
            run_id,
            second,
            then_unix_ms,
            asked_after,
            asked_later,
            again,
        ),
    ensures
        match first {
            Err(sentence) => {
                &&& r is Err && r->Err_0.says(ReviewRefusalCode::ReportRefused, sentence@)
                &&& after == before
                &&& asked_after == asked
                &&& open_cycle(after.cycles@, run_id) is Some
            },
            Ok(findings) => {
                let cycle = before.cycles@[open_cycle(before.cycles@, run_id)->0];
                let made = asked_after.skip(asked.len() as int);
                let f: int = if findings@.len() > 0 {
                    1
                } else {
                    0
                };
                let n: int = cycle.interrogations.entries@.len() as int;
                &&& r == Ok::<usize, ReviewRefusal>(findings@.len() as usize)
                &&& findings@.len() > 0 ==> {
                    &&& findings_written(made[0]) is Some
                    &&& findings_written(made[0])->0.len() == findings@.len()
                    &&& forall|j: int|
                        #![trigger findings_written(made[0])->0[j]]
                        0 <= j < findings@.len() ==> (findings_written(
                            made[0],
                        )->0[j].interview_mode == InterviewMode::Resumed <==> (
                        findings@[j].source_member is Some && cycle.attributable(
                            findings@[j].source_member->0@,
                        )))
                }
                &&& made[f] == Effect::Write(
                    StoreWrite::ReviewCycleUpdate {
                        id: cycle.cycle_id,
                        status: Some(ReviewCycleStatus::AwaitingUser),
                        ended_at_unix_ms: None,
                        resulting_version: None,
                    },
                )
                &&& made.subrange(f + 1, f + 1 + n) == cycle.interrogations.entries@.map_values(
                    |e: (String, String)| end_effect(e, now_unix_ms),
                )
                &&& open_cycle(after.cycles@, run_id) is None
                &&& again is Err && again->Err_0.says(
                    ReviewRefusalCode::NotFound,
                    "no review cycle is running for "@ + run_id + " on this server"@,
                )
                &&& later == after
                &&& asked_later == asked_after
            },
        },
{
    lemma_open_cycle(before.cycles@, run_id);
    lemma_open_cycle(after.cycles@, run_id);
    let i = open_cycle(before.cycles@, run_id)->0;
    let cycle = before.cycles@[i];
    match first {
        Err(_) => {},
        Ok(findings) => {
            assert(open_cycle(after.cycles@, run_id) is None) by {
                if open_cycle(after.cycles@, run_id) is Some {
                    let j = open_cycle(after.cycles@, run_id)->0;
                    assert(j != i);
                    assert(after.cycles@[j] == before.cycles@[j]);
                    assert(!before.cycles@[i].closed && !before.cycles@[j].closed);
                    if i < j {
                        assert(before.cycles@[i].run_id@ != before.cycles@[j].run_id@);
                    } else {
                        assert(before.cycles@[j].run_id@ != before.cycles@[i].run_id@);
                    }
                }
            }
            if findings@.len() > 0 {
                let seeds = findings_written(asked_after.skip(asked.len() as int)[0])->0;
                assert forall|j: int| #![trigger seeds[j]] 0 <= j < findings@.len() implies (
                seeds[j].interview_mode == InterviewMode::Resumed <==> (
                findings@[j].source_member is Some && cycle.attributable(
                    findings@[j].source_member->0@,
                ))) by {
                    assert(seed_is(seeds[j], findings@[j], cycle));
                }
            }
        },
    }
}

/// Ending a recorded interrogation.
pub open spec fn end_effect(e: (String, String), now_unix_ms: u64) -> Effect {
    Effect::Write(
        StoreWrite::InterrogationUpdate {
            id: e.1,
            forked_session_id: None,
            ended_at_unix_ms: Some(now_unix_ms),
        },
    )
}

/// What an accepted report asks for: the findings where there are any, the cycle
/// handed to the user, every interrogation ended, one event and one notice.
pub open spec fn report_effects(
    cycle: LiveReviewCycle,
    findings: Seq<ParsedFinding>,
    now_unix_ms: u64,
    made: Seq<Effect>,
) -> bool {
    let f: int = if findings.len() > 0 {
        1
    } else {
        0
    };
    let n: int = cycle.interrogations.entries@.len() as int;
    &&& made.len() == f + n + 3
    &&& findings.len() > 0 ==> (made[0] matches Effect::Write(w) && w matches StoreWrite::ReviewFindings { cycle: id, findings: seeds } && id == cycle.cycle_id && seeds@.len() == findings.len()
        && forall|j: int|
        0 <= j < findings.len() ==> seed_is(#[trigger] seeds@[j], findings[j], cycle))
    &&& made[f] == Effect::Write(
        StoreWrite::ReviewCycleUpdate {
            id: cycle.cycle_id,
            status: Some(ReviewCycleStatus::AwaitingUser),
            ended_at_unix_ms: None,
            resulting_version: None,
        },
    )
    &&& made.subrange(f + 1, f + 1 + n) == cycle.interrogations.entries@.map_values(
        |e: (String, String)| end_effect(e, now_unix_ms),
    )
    &&& made[f + n + 1] == (Effect::ReviewEvent {
        kind: ReviewEventKind::Ready,
        run_id: cycle.run_id,
    })
    &&& made[f + n + 2] matches Effect::Notice(notice) && notice.level == NoticeLevel::Info
        && notice.run == Some(cycle.run_id) && notice.path is None && notice.message@
        == "review ready: "@ + decimal(findings.len()) + " finding(s) waiting for your decision"@
}

} // verus!
