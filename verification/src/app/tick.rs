//! One tick of the server over everything that a workflow left running: the reviews, and
//! the run that is live.

use crate::app::effects::{extends, Effect};
use crate::app::lead::{is_live, run_polled, LeadDesk, PollStart};
use crate::app::review::{LiveReviewCycle, SynthesisStep, TerminalInfo, REVIEW_POLL_INTERVAL_MS};
use crate::app::review_desk::{open_cycle, reviews_polled, LiveReviews};
use crate::ordered::TextMap;
use vstd::prelude::*;

verus! {

/// What the server drives: the live run, where there is one, and the reviews.
pub struct WorkflowDesk {
    pub lead: LeadDesk,
    pub reviews: LiveReviews,
}

/// What a tick came to.
#[derive(Debug, PartialEq, Eq)]
pub struct Tick {
    /// Whether anything changed, so far as the tick itself went.
    pub changed: bool,
    /// What the synthesis of each review has to do next.
    pub syntheses: Vec<SynthesisStep>,
    /// How the look at the live run begins.
    pub run: PollStart,
}

/// Whether the terminal of the live run's lead is among `terminals`.
pub open spec fn lead_terminal_there(
    lead: LeadDesk,
    terminals: Map<Seq<char>, TerminalInfo>,
) -> bool {
    match lead.run {
        Some(run) => terminals.contains_key(run.lead_terminal_id@),
        None => true,
    }
}

/// One tick: first a look at every review, whatever the run, and then the beginning of a
/// look at the run.
pub open spec fn ticked(
    before: WorkflowDesk,
    after: WorkflowDesk,
    terminals: Map<Seq<char>, TerminalInfo>,
    now_ms: u64,
    now_unix_ms: u64,
    asked: Seq<Effect>,
    asked_after: Seq<Effect>,
    tick: Tick,
) -> bool {
    exists|between: Seq<Effect>, reviews_changed: bool| #[trigger]
        reviews_polled(
            before.reviews,
            after.reviews,
            tick.syntheses@,
            reviews_changed,
            terminals,
            now_ms,
            now_unix_ms,
            asked,
            between,
        ) && run_polled(
            before.lead,
            after.lead,
            now_ms,
            lead_terminal_there(before.lead, terminals),
            now_unix_ms,
            between,
            asked_after,
            tick.run,
        ) && tick.changed == (reviews_changed || tick.run is Ended)
}

impl WorkflowDesk {
    /// The run and the reviews are well formed.
    pub open spec fn wf(self) -> bool {
        self.lead.wf() && self.reviews.wf()
    }

    /// Nothing runs.
    pub fn new() -> (r: Self)
        ensures
            r.wf(),
            r.lead.run is None,
            r.reviews.cycles@.len() == 0,
    {
        WorkflowDesk { lead: LeadDesk::new(), reviews: LiveReviews { cycles: Vec::new() } }
    }

    /// Drives one more review, over a run that no other is open for. That makes no run live,
    /// and stands in the way of none.
    pub fn add_review(&mut self, cycle: LiveReviewCycle)
        requires
            old(self).wf(),
            cycle.wf(),
            open_cycle(old(self).reviews.cycles@, cycle.run_id@) is None,
        ensures
            final(self).wf(),
            final(self).lead == old(self).lead,
            is_live(final(self).lead) == is_live(old(self).lead),
            final(self).reviews.cycles@ == old(self).reviews.cycles@.push(cycle),
    {
        self.reviews.add_cycle(cycle);
    }

    /// One tick. The reviews are looked at on every one of them, also where no run is live.
    pub fn poll_run_projection(
        &mut self,
        terminals: &TextMap<TerminalInfo>,
        now_ms: u64,
        now_unix_ms: u64,
        effects: &mut Vec<Effect>,
    ) -> (r: Tick)
        requires
            old(self).wf(),
            terminals.wf(),
            now_ms + REVIEW_POLL_INTERVAL_MS <= u64::MAX,
        ensures
            final(self).wf(),
            ticked(
                *old(self),
                *final(self),
                terminals@,
                now_ms,
                now_unix_ms,
                old(effects)@,
                final(effects)@,
                r,
            ),
            extends(old(effects)@, final(effects)@),
    {
        let (moved, syntheses) = self.reviews.poll_review_cycles(
            terminals,
            now_ms,
            now_unix_ms,
            effects,
        );
        let ghost between = effects@;
        let present = match &self.lead.run {
            Some(run) => terminals.contains_key(run.lead_terminal_id.as_str()),
            None => true,
        };
        let run = self.lead.poll_run_projection(now_ms, present, now_unix_ms, effects);
        let ended = match run {
            PollStart::Ended => true,
            _ => false,
        };
        let r = Tick { changed: moved || ended, syntheses, run };
        assert(reviews_polled(
            old(self).reviews,
            self.reviews,
            r.syntheses@,
            moved,
            terminals@,
            now_ms,
            now_unix_ms,
            old(effects)@,
            between,
        ));
        assert(effects@.take(old(effects)@.len() as int) =~= between.take(
            old(effects)@.len() as int,
        ));
        r
    }
}

/// A tick without a live run looks at every review all the same, and at nothing else.
pub proof fn law_reviews_are_polled_without_a_run(
    before: WorkflowDesk,
    after: WorkflowDesk,
    terminals: Map<Seq<char>, TerminalInfo>,
    now_ms: u64,
    now_unix_ms: u64,
    asked: Seq<Effect>,
    asked_after: Seq<Effect>,
    tick: Tick,
)
    requires
        ticked(before, after, terminals, now_ms, now_unix_ms, asked, asked_after, tick),
        before.lead.run is None,
    ensures
        reviews_polled(
            before.reviews,
            after.reviews,
            tick.syntheses@,
            tick.changed,
            terminals,
            now_ms,
            now_unix_ms,
            asked,
            asked_after,
        ),
        tick.run is NotDue,
        after.lead == before.lead,
{
}

} // verus!
