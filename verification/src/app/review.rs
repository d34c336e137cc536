//! The review cycle of a finished run: plan, interview, collect, synthesise.
//!
//! A review never reaches the status of the run it reviews, and it never claims
//! more about a member than that member's own answered interview supports.

use crate::app::effects::{
    extends, leaves_run_status, Effect, NoticeLevel, PromptReason, ReviewEventKind, StoreWrite,
    UserNotice,
};
use crate::model::{AgentState, Assignment, InterviewMode, ReviewCycleStatus, RunEvidence};
use crate::ordered::{entry_keys, TextMap};
use crate::text::{cat2, contains_string, has_text, str_eq, texts};
use vstd::prelude::*;

verus! {

broadcast use crate::text::group_texts;

/// How often a live cycle looks at its panes, in milliseconds.
pub const REVIEW_POLL_INTERVAL_MS: u64 = 2_000;

/// How long an interview may go without an answer, in milliseconds.
pub const INTERVIEW_DEADLINE_MS: u64 = 900_000;

// ---------------------------------------------------------------------------
// Terminals
// ---------------------------------------------------------------------------

#[derive(Debug, Clone, Copy, PartialEq, Eq, Structural)]
pub enum SessionRefKind {
    Id,
    Path,
}

/// The agent session a terminal's hook recorded.
#[derive(Debug, PartialEq, Eq)]
pub struct TerminalSession {
    pub agent: String,
    pub kind: SessionRefKind,
    pub value: String,
}

/// What is known about one live terminal.
#[derive(Debug, PartialEq, Eq)]
pub struct TerminalInfo {
    pub interactive_ready: bool,
    pub state: AgentState,
    pub session: Option<TerminalSession>,
}

/// Whether the agent in a terminal can take a prompt.
pub open spec fn agent_ready(terminals: Map<Seq<char>, TerminalInfo>, id: Seq<char>) -> bool {
    terminals.contains_key(id) && terminals[id].interactive_ready
}

pub fn pane_agent_is_ready(terminals: &TextMap<TerminalInfo>, id: &str) -> (r: bool)
    requires
        terminals.wf(),
    ensures
        r == agent_ready(terminals@, id@),
{
    match terminals.get(id) {
        Some(t) => t.interactive_ready,
        None => false,
    }
}

/// The session of the review's agent that a terminal runs, where its hook recorded one by
/// id.
pub open spec fn agent_session(
    terminals: Map<Seq<char>, TerminalInfo>,
    id: Seq<char>,
    agent: Seq<char>,
) -> Option<String> {
    if terminals.contains_key(id) {
        match terminals[id].session {
            Some(s) => if s.agent@ == agent && s.kind == SessionRefKind::Id {
                Some(s.value)
            } else {
                None
            },
            None => None,
        }
    } else {
        None
    }
}

pub fn pane_agent_session_id(terminals: &TextMap<TerminalInfo>, id: &str, agent: &str) -> (r:
    Option<String>)
    requires
        terminals.wf(),
    ensures
        r == agent_session(terminals@, id@, agent@),
{
    match terminals.get(id) {
        Some(t) => match &t.session {
            Some(s) => if str_eq(s.agent.as_str(), agent) && s.kind == SessionRefKind::Id {
                Some(s.value.clone())
            } else {
                None
            },
            None => None,
        },
        None => None,
    }
}

// ---------------------------------------------------------------------------
// Interviews
// ---------------------------------------------------------------------------

#[derive(Debug, Clone, Copy, PartialEq, Eq, Structural)]
pub enum InterviewFailure {
    TimedOut,
    PaneGone,
    Blocked,
}

#[derive(Debug, Clone, Copy, PartialEq, Eq, Structural)]
pub enum InterviewPhase {
    Running,
    Answered,
    Failed(InterviewFailure),
}

impl InterviewPhase {
    /// Whether the interview is over.
    pub open spec fn over(self) -> bool {
        !(self is Running)
    }

    pub fn is_terminal(&self) -> (r: bool)
        ensures
            r == self.over(),
    {
        match self {
            InterviewPhase::Running => false,
            _ => true,
        }
    }
}

/// What is seen of one interview in one look at its pane.
#[derive(Debug, PartialEq, Eq)]
pub struct ObservedInterview {
    pub member: String,
    pub started_at_unix_ms: u64,
    pub pane_alive: bool,
    pub pane_state: Option<AgentState>,
    pub answer_recorded: bool,
}

/// The phase after one look. An interview that is over stays as it ended. A recorded
/// answer counts even when the pane is gone. A blocked agent ends its interview.
pub open spec fn next_phase(
    phase: InterviewPhase,
    seen: ObservedInterview,
    now_unix_ms: u64,
) -> InterviewPhase {
    if phase.over() {
        phase
    } else if seen.answer_recorded {
        InterviewPhase::Answered
    } else if !seen.pane_alive {
        InterviewPhase::Failed(InterviewFailure::PaneGone)
    } else if seen.pane_state == Some(AgentState::Blocked) {
        InterviewPhase::Failed(InterviewFailure::Blocked)
    } else if now_unix_ms - seen.started_at_unix_ms >= INTERVIEW_DEADLINE_MS {
        InterviewPhase::Failed(InterviewFailure::TimedOut)
    } else {
        InterviewPhase::Running
    }
}

pub fn phase_after(
    phase: InterviewPhase,
    seen: &ObservedInterview,
    now_unix_ms: u64,
) -> (r: InterviewPhase)
    ensures
        r == next_phase(phase, *seen, now_unix_ms),
{
    let blocked = match seen.pane_state {
        Some(AgentState::Blocked) => true,
        _ => false,
    };
    if phase.is_terminal() {
        phase
    } else if seen.answer_recorded {
        InterviewPhase::Answered
    } else if !seen.pane_alive {
        InterviewPhase::Failed(InterviewFailure::PaneGone)
    } else if blocked {
        InterviewPhase::Failed(InterviewFailure::Blocked)
    } else if now_unix_ms >= seen.started_at_unix_ms && now_unix_ms - seen.started_at_unix_ms
        >= INTERVIEW_DEADLINE_MS {
        InterviewPhase::Failed(InterviewFailure::TimedOut)
    } else {
        InterviewPhase::Running
    }
}

/// One member of the plan.
#[derive(Debug, PartialEq, Eq)]
pub struct PlannedInterview {
    pub member: String,
    pub is_lead: bool,
    pub mode: InterviewMode,
    pub source_session_id: Option<String>,
    /// The member's own directory.
    pub member_cwd: Option<String>,
    /// Why its session cannot be taken up, where the interview rests on the record.
    pub evidence_only_reason: Option<String>,
}

/// One interview pane, as it is held between polls.
#[derive(Debug, PartialEq, Eq)]
pub struct InterviewPane {
    pub pane_id: String,
    pub terminal_id: String,
    pub started_at_unix_ms: u64,
    pub seeded: bool,
    pub seed_prompt: String,
    pub identity_recorded: bool,
}

/// The pane that turns the answers into findings.
#[derive(Debug, PartialEq, Eq)]
pub struct SynthesisPane {
    pub pane_id: String,
    pub terminal_id: String,
    pub seeded: bool,
    pub seed_prompt: String,
}

/// Where the synthesis half of a cycle is.
#[derive(Debug, PartialEq, Eq)]
pub enum SynthesisState {
    Waiting,
    Running(SynthesisPane),
    Reported,
}

/// One review cycle that is being driven.
#[derive(Debug, PartialEq, Eq)]
pub struct LiveReviewCycle {
    pub cycle_id: String,
    pub run_id: String,
    /// The program of the agent that its panes run.
    pub agent: String,
    pub cycle_dir: String,
    pub ws_idx: usize,
    /// The interviews that were started, in the order of the plan.
    pub plan: Vec<PlannedInterview>,
    /// Who the plan left out.
    pub skipped: Vec<String>,
    /// Where each interview is, by member.
    pub phases: TextMap<InterviewPhase>,
    /// Whether a synthesis pane has already gone without reporting.
    pub synthesis_failed_once: bool,
    pub assignment: Assignment,
    /// What is on record of the run.
    pub evidence: RunEvidence,
    /// The nodes that a finding may name.
    pub node_keys: Vec<String>,
    pub run_nodes: TextMap<String>,
    pub interviews: TextMap<InterviewPane>,
    /// The recorded interrogations, of resumed interviews only.
    pub interrogations: TextMap<String>,
    /// The answers that were accepted, by member.
    pub answers: TextMap<String>,
    pub synthesis: SynthesisState,
    pub command_override: Option<Vec<String>>,
    pub closed: bool,
    pub next_poll_at_ms: Option<u64>,
}

/// What may be claimed about a member: its own words, through a recorded
/// interrogation, or only what the record shows.
#[derive(Debug, PartialEq, Eq)]
pub struct Attributed {
    pub mode: InterviewMode,
    pub interrogation: Option<String>,
}

/// Whether the plan has a resumed interview for `member`.
pub open spec fn planned_resumed(plan: Seq<PlannedInterview>, member: Seq<char>) -> bool {
    exists|i: int|
        0 <= i < plan.len() && #[trigger] plan[i].member@ == member && plan[i].mode
            == InterviewMode::Resumed
}

/// Typing a pane's instruction into it.
pub open spec fn seed_effect(prompt: (String, String)) -> Effect {
    Effect::Prompt { reason: PromptReason::ReviewSeed, pane_id: prompt.0, text: prompt.1 }
}

/// The same cycle, to be looked at again once the interval is over.
pub open spec fn cycle_rearmed(cycle: LiveReviewCycle, now_ms: u64) -> LiveReviewCycle {
    LiveReviewCycle {
        next_poll_at_ms: Some((now_ms + REVIEW_POLL_INTERVAL_MS) as u64),
        ..cycle
    }
}

impl LiveReviewCycle {
    /// The maps are ordered, and every interview has a pane and a phase.
    pub open spec fn wf(self) -> bool {
        &&& self.phases.wf()
        &&& self.run_nodes.wf()
        &&& self.interviews.wf()
        &&& self.interrogations.wf()
        &&& self.answers.wf()
        &&& self.phases.keys() == self.interviews.keys()
    }

    /// Whether `member` may be quoted: its interview was planned resumed, was
    /// answered, and has an interrogation on record.
    pub open spec fn attributable(self, member: Seq<char>) -> bool {
        &&& planned_resumed(self.plan@, member)
        &&& self.phases@.contains_key(member)
        &&& self.phases@[member] == InterviewPhase::Answered
        &&& self.interrogations@.contains_key(member)
    }

    /// What may be claimed about `member`.
    pub open spec fn attributed(self, member: Option<Seq<char>>) -> Attributed {
        match member {
            Some(m) => if self.attributable(m) {
                Attributed {
                    mode: InterviewMode::Resumed,
                    interrogation: Some(self.interrogations@[m]),
                }
            } else {
                Attributed { mode: InterviewMode::EvidenceOnly, interrogation: None }
            },
            None => Attributed { mode: InterviewMode::EvidenceOnly, interrogation: None },
        }
    }

    pub fn attribution(&self, member: Option<&str>) -> (r: Attributed)
        requires
            self.wf(),
        ensures
            r == self.attributed(crate::text::opt_str(member)),
    {
        match member {
            Some(name) => {
                let mut resumed = false;
                let mut i: usize = 0;
                while i < self.plan.len()
                    invariant
                        i <= self.plan@.len(),
                        resumed == exists|j: int|
                            0 <= j < i && #[trigger] self.plan@[j].member@ == name@
                                && self.plan@[j].mode == InterviewMode::Resumed,
                    decreases self.plan@.len() - i,
                {
                    if str_eq(self.plan[i].member.as_str(), name) && self.plan[i].mode
                        == InterviewMode::Resumed {
                        assert(self.plan@[i as int].member@ == name@);
                        resumed = true;
                    }
                    i = i + 1;
                }
                let answered = match self.phases.get(name) {
                    Some(InterviewPhase::Answered) => true,
                    _ => false,
                };
                match self.interrogations.get(name) {
                    Some(id) => if resumed && answered {
                        return Attributed {
                            mode: InterviewMode::Resumed,
                            interrogation: Some(id.clone()),
                        };
                    },
                    None => {},
                }
                Attributed { mode: InterviewMode::EvidenceOnly, interrogation: None }
            },
            None => Attributed { mode: InterviewMode::EvidenceOnly, interrogation: None },
        }
    }

    /// Whether every interview is over.
    pub open spec fn settled(self) -> bool {
        forall|i: int|
            0 <= i < self.phases.entries@.len() ==> (#[trigger] self.phases.entries@[i]).1.over()
    }

    pub fn interviews_settled(&self) -> (r: bool)
        ensures
            r == self.settled(),
    {
        let mut i: usize = 0;
        while i < self.phases.entries.len()
            invariant
                i <= self.phases.entries@.len(),
                forall|j: int| 0 <= j < i ==> (#[trigger] self.phases.entries@[j]).1.over(),
            decreases self.phases.entries@.len() - i,
        {
            if !self.phases.entries[i].1.is_terminal() {
                return false;
            }
            i = i + 1;
        }
        true
    }

    // -----------------------------------------------------------------------
    // When it is due
    // -----------------------------------------------------------------------

    /// A cycle is due unless it is closed or its next poll lies ahead.
    pub open spec fn due(self, now_ms: u64) -> bool {
        !self.closed && match self.next_poll_at_ms {
            Some(at) => now_ms >= at,
            None => true,
        }
    }

    pub fn poll_due(&self, now_ms: u64) -> (r: bool)
        ensures
            r == self.due(now_ms),
    {
        !self.closed && match self.next_poll_at_ms {
            Some(at) => now_ms >= at,
            None => true,
        }
    }

    /// Puts the next poll one interval ahead.
    pub fn rearm(&mut self, now_ms: u64)
        requires
            now_ms + REVIEW_POLL_INTERVAL_MS <= u64::MAX,
        ensures
            *final(self) == cycle_rearmed(*old(self), now_ms),
    {
        self.next_poll_at_ms = Some(now_ms + REVIEW_POLL_INTERVAL_MS);
    }

    /// When the cycle next needs to be woken; never once it is closed.
    pub open spec fn deadline(self, now_ms: u64) -> Option<u64> {
        if self.closed {
            None
        } else {
            match self.next_poll_at_ms {
                Some(at) => Some(at),
                None => Some(now_ms),
            }
        }
    }

    pub fn next_poll_deadline(&self, now_ms: u64) -> (r: Option<u64>)
        ensures
            r == self.deadline(now_ms),
    {
        if self.closed {
            return None;
        }
        match self.next_poll_at_ms {
            Some(at) => Some(at),
            None => Some(now_ms),
        }
    }

    // -----------------------------------------------------------------------
    // Seeding
    // -----------------------------------------------------------------------

    /// Whether a pane still waits for its instruction and can take it.
    pub open spec fn awaits_seed(
        seeded: bool,
        terminal_id: Seq<char>,
        terminals: Map<Seq<char>, TerminalInfo>,
    ) -> bool {
        !seeded && agent_ready(terminals, terminal_id)
    }

    /// The instructions that are due now: the interviews in the order of their
    /// members, then the synthesis.
    pub open spec fn due_prompts(self, terminals: Map<Seq<char>, TerminalInfo>) -> Seq<
        (String, String),
    > {
        self.interviews.entries@.filter(
            |e: (String, InterviewPane)|
                Self::awaits_seed(e.1.seeded, e.1.terminal_id@, terminals),
        ).map_values(|e: (String, InterviewPane)| (e.1.pane_id, e.1.seed_prompt)) + (
        match self.synthesis {
            SynthesisState::Running(p) => if Self::awaits_seed(
                p.seeded,
                p.terminal_id@,
                terminals,
            ) {
                seq![(p.pane_id, p.seed_prompt)]
            } else {
                Seq::empty()
            },
            _ => Seq::empty(),
        })
    }

    fn collect_due_prompts(&self, terminals: &TextMap<TerminalInfo>) -> (r: Vec<(String, String)>)
        requires
            terminals.wf(),
        ensures
            r@ == self.due_prompts(terminals@),
    {
        let mut out: Vec<(String, String)> = Vec::new();
        let ghost entries = self.interviews.entries@;
        let ghost ready = |e: (String, InterviewPane)|
            Self::awaits_seed(e.1.seeded, e.1.terminal_id@, terminals@);
        let ghost prompt = |e: (String, InterviewPane)| (e.1.pane_id, e.1.seed_prompt);
        let mut i: usize = 0;
        proof {
            reveal(Seq::filter);
            assert(entries.take(0).filter(ready).map_values(prompt) =~= Seq::<
                (String, String),
            >::empty());
        }
        while i < self.interviews.entries.len()
            invariant
                i <= self.interviews.entries@.len(),
                terminals.wf(),
                entries == self.interviews.entries@,
                ready == |e: (String, InterviewPane)|
                    Self::awaits_seed(e.1.seeded, e.1.terminal_id@, terminals@),
                prompt == |e: (String, InterviewPane)| (e.1.pane_id, e.1.seed_prompt),
                out@ == entries.take(i as int).filter(ready).map_values(prompt),
            decreases self.interviews.entries@.len() - i,
        {
            let pane = &self.interviews.entries[i].1;
            let ghost before = entries.take(i as int).filter(ready);
            let ghost next = entries.take(i as int + 1);
            proof {
                reveal(Seq::filter);
                assert(next.drop_last() =~= entries.take(i as int));
                assert(next.last() == entries[i as int]);
            }
            if !pane.seeded && pane_agent_is_ready(terminals, pane.terminal_id.as_str()) {
                out.push((pane.pane_id.clone(), pane.seed_prompt.clone()));
                assert(before.push(entries[i as int]).map_values(prompt) =~= before.map_values(
                    prompt,
                ).push((pane.pane_id, pane.seed_prompt)));
            }
            i = i + 1;
        }
        assert(entries.take(entries.len() as int) =~= entries);
        match &self.synthesis {
            SynthesisState::Running(p) => {
                if !p.seeded && pane_agent_is_ready(terminals, p.terminal_id.as_str()) {
                    out.push((p.pane_id.clone(), p.seed_prompt.clone()));
                }
            },
            _ => {},
        }
        assert(out@ =~= self.due_prompts(terminals@));
        out
    }

    /// The panes of `prompts`.
    pub open spec fn prompted(prompts: Seq<(String, String)>) -> Seq<Seq<char>> {
        prompts.map_values(|p: (String, String)| p.0@)
    }

    /// What seeding leaves behind: the panes that were prompted are marked, and
    /// nothing else changes.
    pub open spec fn seeded_from(
        self,
        before: LiveReviewCycle,
        terminals: Map<Seq<char>, TerminalInfo>,
    ) -> bool {
        let ids = Self::prompted(before.due_prompts(terminals));
        &&& self == (LiveReviewCycle {
            interviews: self.interviews,
            synthesis: self.synthesis,
            ..before
        })
        &&& entry_keys(self.interviews.entries@) == entry_keys(before.interviews.entries@)
        &&& forall|i: int|
            0 <= i < self.interviews.entries@.len() ==> (#[trigger] self.interviews.entries@[i]).1
                == (InterviewPane {
                seeded: before.interviews.entries@[i].1.seeded || has_text(
                    ids,
                    before.interviews.entries@[i].1.pane_id@,
                ),
                ..before.interviews.entries@[i].1
            })
        &&& self.synthesis == (match before.synthesis {
            SynthesisState::Running(p) => SynthesisState::Running(
                SynthesisPane { seeded: p.seeded || has_text(ids, p.pane_id@), ..p },
            ),
            other => other,
        })
    }

    /// Hands each pane its one instruction, once its agent can take it. Returns
    /// whether any was handed out.
    pub fn seed_review_panes(
        &mut self,
        terminals: &TextMap<TerminalInfo>,
        effects: &mut Vec<Effect>,
    ) -> (r: bool)
        requires
            old(self).wf(),
            terminals.wf(),
        ensures
            final(self).wf(),
            final(self).seeded_from(*old(self), terminals@),
            r == (old(self).due_prompts(terminals@).len() > 0),
            final(effects)@ == old(effects)@ + old(self).due_prompts(terminals@).map_values(
                |p: (String, String)| seed_effect(p),
            ),
    {
        let ready = self.collect_due_prompts(terminals);
        let ghost before = *self;
        let ghost due = before.due_prompts(terminals@);
        let ghost to_effect = |p: (String, String)| seed_effect(p);
        let mut ids: Vec<String> = Vec::new();
        let mut k: usize = 0;
        assert(due.take(0).map_values(to_effect) =~= Seq::<Effect>::empty());
        assert(effects@ + Seq::<Effect>::empty() =~= effects@);
        assert(texts(ids@) =~= Self::prompted(due).take(0));
        while k < ready.len()
            invariant
                k <= ready@.len(),
                ready@ == due,
                to_effect == |p: (String, String)| seed_effect(p),
                texts(ids@) == Self::prompted(due).take(k as int),
                effects@ == old(effects)@ + due.take(k as int).map_values(to_effect),
            decreases ready@.len() - k,
        {
            ids.push(ready[k].0.clone());
            effects.push(
                Effect::Prompt {
                    reason: PromptReason::ReviewSeed,
                    pane_id: ready[k].0.clone(),
                    text: ready[k].1.clone(),
                },
            );
            proof {
                assert(Self::prompted(due).take(k as int + 1) =~= Self::prompted(due).take(
                    k as int,
                ).push(due[k as int].0@));
                assert(due.take(k as int + 1).map_values(to_effect) =~= due.take(
                    k as int,
                ).map_values(to_effect).push(to_effect(due[k as int])));
                assert(effects@ =~= old(effects)@ + due.take(k as int + 1).map_values(to_effect));
            }
            k = k + 1;
        }
        assert(due.take(due.len() as int) =~= due);
        assert(Self::prompted(due).take(due.len() as int) =~= Self::prompted(due));
        let mut i: usize = 0;
        while i < self.interviews.entries.len()
            invariant
                i <= self.interviews.entries@.len(),
                texts(ids@) == Self::prompted(due),
                self.interviews.entries@.len() == before.interviews.entries@.len(),
                *self == (LiveReviewCycle { interviews: self.interviews, ..before }),
                forall|j: int|
                    0 <= j < self.interviews.entries@.len()
                        ==> (#[trigger] self.interviews.entries@[j]).0
                        == before.interviews.entries@[j].0,
                forall|j: int|
                    0 <= j < i ==> (#[trigger] self.interviews.entries@[j]).1 == (InterviewPane {
                        seeded: before.interviews.entries@[j].1.seeded || has_text(
                            Self::prompted(due),
                            before.interviews.entries@[j].1.pane_id@,
                        ),
                        ..before.interviews.entries@[j].1
                    }),
                forall|j: int|
                    i <= j < self.interviews.entries@.len()
                        ==> #[trigger] self.interviews.entries@[j]
                        == before.interviews.entries@[j],
            decreases self.interviews.entries@.len() - i,
        {
            if contains_string(ids.as_slice(), self.interviews.entries[i].1.pane_id.as_str()) {
                self.interviews.entries[i].1.seeded = true;
            }
            i = i + 1;
        }
        assert(entry_keys(self.interviews.entries@) =~= entry_keys(before.interviews.entries@));
        match &mut self.synthesis {
            SynthesisState::Running(p) => {
                if contains_string(ids.as_slice(), p.pane_id.as_str()) {
                    p.seeded = true;
                }
            },
            _ => {},
        }
        ready.len() > 0
    }

    // -----------------------------------------------------------------------
    // Identities
    // -----------------------------------------------------------------------

    /// Whether the session of an interview's fork can be recorded now: it has not
    /// been, the interview has an interrogation, and the terminal names a session.
    pub open spec fn identity_due(
        self,
        e: (String, InterviewPane),
        terminals: Map<Seq<char>, TerminalInfo>,
    ) -> bool {
        &&& !e.1.identity_recorded
        &&& self.interrogations@.contains_key(e.0@)
        &&& agent_session(terminals, e.1.terminal_id@, self.agent@) is Some
    }

    /// Recording the session of an interview's fork.
    pub open spec fn identity_write(
        self,
        e: (String, InterviewPane),
        terminals: Map<Seq<char>, TerminalInfo>,
    ) -> Effect {
        Effect::Write(
            StoreWrite::InterrogationUpdate {
                id: self.interrogations@[e.0@],
                forked_session_id: agent_session(terminals, e.1.terminal_id@, self.agent@),
                ended_at_unix_ms: None,
            },
        )
    }

    /// The rows that record the sessions that can be recorded now.
    pub open spec fn identity_writes(self, terminals: Map<Seq<char>, TerminalInfo>) -> Seq<Effect> {
        self.interviews.entries@.filter(
            |e: (String, InterviewPane)| self.identity_due(e, terminals),
        ).map_values(|e: (String, InterviewPane)| self.identity_write(e, terminals))
    }

    /// Copies each fork's own session onto its interrogation, once. Returns whether
    /// any was copied.
    pub fn record_interview_identities(
        &mut self,
        terminals: &TextMap<TerminalInfo>,
        effects: &mut Vec<Effect>,
    ) -> (r: bool)
        requires
            old(self).wf(),
            terminals.wf(),
        ensures
            final(self).wf(),
            *final(self) == (LiveReviewCycle { interviews: final(self).interviews, ..*old(self) }),
            final(self).interviews.keys() == old(self).interviews.keys(),
            forall|i: int|
                0 <= i < final(self).interviews.entries@.len()
                    ==> (#[trigger] final(self).interviews.entries@[i]).1 == (InterviewPane {
                    identity_recorded: old(self).interviews.entries@[i].1.identity_recorded || old(
                        self,
                    ).identity_due(old(self).interviews.entries@[i], terminals@),
                    ..old(self).interviews.entries@[i].1
                }),
            r == (old(self).identity_writes(terminals@).len() > 0),
            final(effects)@ == old(effects)@ + old(self).identity_writes(terminals@),
    {
        let ghost before = *self;
        let ghost entries = before.interviews.entries@;
        let ghost due = |e: (String, InterviewPane)| before.identity_due(e, terminals@);
        let ghost row = |e: (String, InterviewPane)| before.identity_write(e, terminals@);
        let mut any = false;
        let mut i: usize = 0;
        proof {
            reveal(Seq::filter);
            assert(entries.take(0).filter(due).map_values(row) =~= Seq::<Effect>::empty());
            assert(effects@ + Seq::<Effect>::empty() =~= effects@);
        }
        while i < self.interviews.entries.len()
            invariant
                i <= self.interviews.entries@.len(),
                terminals.wf(),
                before == *old(self),
                before.wf(),
                entries == before.interviews.entries@,
                self.interviews.entries@.len() == entries.len(),
                *self == (LiveReviewCycle { interviews: self.interviews, ..before }),
                due == |e: (String, InterviewPane)| before.identity_due(e, terminals@),
                row == |e: (String, InterviewPane)| before.identity_write(e, terminals@),
                forall|j: int|
                    0 <= j < entries.len() ==> (#[trigger] self.interviews.entries@[j]).0
                        == entries[j].0,
                forall|j: int|
                    0 <= j < i ==> (#[trigger] self.interviews.entries@[j]).1 == (InterviewPane {
                        identity_recorded: entries[j].1.identity_recorded || before.identity_due(
                            entries[j],
                            terminals@,
                        ),
                        ..entries[j].1
                    }),
                forall|j: int|
                    i <= j < entries.len() ==> #[trigger] self.interviews.entries@[j]
                        == entries[j],
                any == (entries.take(i as int).filter(due).len() > 0),
                effects@ == old(effects)@ + entries.take(i as int).filter(due).map_values(row),
            decreases entries.len() - i,
        {
            let ghost done = entries.take(i as int).filter(due);
            let ghost next = entries.take(i as int + 1);
            proof {
                reveal(Seq::filter);
                assert(next.drop_last() =~= entries.take(i as int));
                assert(next.last() == entries[i as int]);
                assert(done.push(entries[i as int]).map_values(row) =~= done.map_values(row).push(
                    row(entries[i as int]),
                ));
            }
            if !self.interviews.entries[i].1.identity_recorded {
                let id: Option<String> = match self.interrogations.get(
                    self.interviews.entries[i].0.as_str(),
                ) {
                    Some(id) => Some(id.clone()),
                    None => None,
                };
                let session = pane_agent_session_id(
                    terminals,
                    self.interviews.entries[i].1.terminal_id.as_str(),
                    self.agent.as_str(),
                );
                if session.is_some() {
                    match id {
                        Some(id) => {
                            self.interviews.entries[i].1.identity_recorded = true;
                            any = true;
                            effects.push(
                                Effect::Write(
                                    StoreWrite::InterrogationUpdate {
                                        id,
                                        forked_session_id: session,
                                        ended_at_unix_ms: None,
                                    },
                                ),
                            );
                            assert(effects@ =~= old(effects)@ + done.map_values(row).push(
                                row(entries[i as int]),
                            ));
                        },
                        None => {},
                    }
                }
            }
            i = i + 1;
        }
        assert(entries.take(entries.len() as int) =~= entries);
        assert(entry_keys(self.interviews.entries@) =~= entry_keys(entries));
        any
    }

    // -----------------------------------------------------------------------
    // Looking at the interviews
    // -----------------------------------------------------------------------

    /// What one look sees of the `i`th interview. An answer is what was accepted,
    /// never what merely lies in a file.
    pub open spec fn seen(self, i: int, terminals: Map<Seq<char>, TerminalInfo>) -> ObservedInterview {
        let e = self.interviews.entries@[i];
        let id = e.1.terminal_id@;
        ObservedInterview {
            member: e.0,
            started_at_unix_ms: e.1.started_at_unix_ms,
            pane_alive: terminals.contains_key(id),
            pane_state: if terminals.contains_key(id) {
                Some(terminals[id].state)
            } else {
                None
            },
            answer_recorded: self.answers@.contains_key(e.0@),
        }
    }

    fn observe(&self, i: usize, terminals: &TextMap<TerminalInfo>) -> (r: ObservedInterview)
        requires
            self.wf(),
            terminals.wf(),
            i < self.interviews.entries@.len(),
        ensures
            r == self.seen(i as int, terminals@),
    {
        let pane = &self.interviews.entries[i].1;
        let state: Option<AgentState> = match terminals.get(pane.terminal_id.as_str()) {
            Some(t) => Some(t.state),
            None => None,
        };
        ObservedInterview {
            member: self.interviews.entries[i].0.clone(),
            started_at_unix_ms: pane.started_at_unix_ms,
            pane_alive: state.is_some(),
            pane_state: state,
            answer_recorded: self.answers.contains_key(self.interviews.entries[i].0.as_str()),
        }
    }

    /// The phase of the `i`th interview after one look.
    pub open spec fn phase_seen(
        self,
        i: int,
        terminals: Map<Seq<char>, TerminalInfo>,
        now_unix_ms: u64,
    ) -> InterviewPhase {
        next_phase(self.phases.entries@[i].1, self.seen(i, terminals), now_unix_ms)
    }

    /// Looks at every interview once. Returns whether any changed its phase.
    pub fn absorb_review_interviews(
        &mut self,
        terminals: &TextMap<TerminalInfo>,
        now_unix_ms: u64,
    ) -> (r: bool)
        requires
            old(self).wf(),
            terminals.wf(),
        ensures
            final(self).wf(),
            *final(self) == (LiveReviewCycle { phases: final(self).phases, ..*old(self) }),
            final(self).phases.keys() == old(self).phases.keys(),
            forall|i: int|
                0 <= i < final(self).phases.entries@.len()
                    ==> (#[trigger] final(self).phases.entries@[i]).1 == old(self).phase_seen(
                    i,
                    terminals@,
                    now_unix_ms,
                ),
            r == exists|i: int|
                0 <= i < old(self).phases.entries@.len() && (
                #[trigger] old(self).phases.entries@[i]).1 != old(self).phase_seen(
                    i,
                    terminals@,
                    now_unix_ms,
                ),
    {
        let ghost before = *self;
        let ghost phases = before.phases.entries@;
        assert(entry_keys(phases).len() == entry_keys(before.interviews.entries@).len());
        let mut any = false;
        let mut i: usize = 0;
        while i < self.phases.entries.len()
            invariant
                i <= self.phases.entries@.len(),
                terminals.wf(),
                before == *old(self),
                before.wf(),
                phases == before.phases.entries@,
                phases.len() == before.interviews.entries@.len(),
                self.phases.entries@.len() == phases.len(),
                *self == (LiveReviewCycle { phases: self.phases, ..before }),
                self.phases.wf(),
                self.phases.keys() == before.phases.keys(),
                forall|j: int|
                    0 <= j < i ==> (#[trigger] self.phases.entries@[j]).1 == before.phase_seen(
                        j,
                        terminals@,
                        now_unix_ms,
                    ),
                forall|j: int|
                    i <= j < phases.len() ==> #[trigger] self.phases.entries@[j] == phases[j],
                any == exists|j: int|
                    0 <= j < i && (#[trigger] phases[j]).1 != before.phase_seen(
                        j,
                        terminals@,
                        now_unix_ms,
                    ),
            decreases phases.len() - i,
        {
            let seen = self.observe(i, terminals);
            let was = self.phases.entries[i].1;
            let now = phase_after(was, &seen, now_unix_ms);
            assert(now == before.phase_seen(i as int, terminals@, now_unix_ms));
            assert(phases[i as int].1 == was);
            if now != was {
                any = true;
            }
            self.phases.entries[i].1 = now;
            assert(self.phases.keys() =~= before.phases.keys());
            i = i + 1;
        }
        any
    }

    // -----------------------------------------------------------------------
    // Synthesis
    // -----------------------------------------------------------------------

    /// What closing a failed cycle asks for: its row, its event, and one notice.
    pub open spec fn failure_effects(self, made: Seq<Effect>, reason: Seq<char>, now: u64) -> bool {
        &&& made.len() == 3
        &&& made[0] == Effect::Write(
            StoreWrite::ReviewCycleUpdate {
                id: self.cycle_id,
                status: Some(ReviewCycleStatus::Failed),
                ended_at_unix_ms: Some(now),
                resulting_version: None,
            },
        )
        &&& made[1] == (Effect::ReviewEvent { kind: ReviewEventKind::Closed, run_id: self.run_id })
        &&& made[2] matches Effect::Notice(n) && n.level == NoticeLevel::Warning && n.run == Some(
            self.run_id,
        ) && n.path is None && n.message@ == "the run's review cycle failed: "@ + reason
    }

    /// Closes the cycle as failed. The run keeps its own status.
    pub fn fail_review_cycle(&mut self, reason: &str, now_unix_ms: u64, effects: &mut Vec<Effect>)
        ensures
            *final(self) == (LiveReviewCycle { closed: true, ..*old(self) }),
            extends(old(effects)@, final(effects)@),
            old(self).failure_effects(
                final(effects)@.skip(old(effects)@.len() as int),
                reason@,
                now_unix_ms,
            ),
            leaves_run_status(final(effects)@, old(effects)@.len() as int),
    {
        self.closed = true;
        effects.push(
            Effect::Write(
                StoreWrite::ReviewCycleUpdate {
                    id: self.cycle_id.clone(),
                    status: Some(ReviewCycleStatus::Failed),
                    ended_at_unix_ms: Some(now_unix_ms),
                    resulting_version: None,
                },
            ),
        );
        effects.push(
            Effect::ReviewEvent { kind: ReviewEventKind::Closed, run_id: self.run_id.clone() },
        );
        effects.push(
            Effect::Notice(
                UserNotice {
                    level: NoticeLevel::Warning,
                    run: Some(self.run_id.clone()),
                    path: None,
                    message: cat2("the run's review cycle failed: ", reason),
                },
            ),
        );
        assert(effects@.take(old(effects)@.len() as int) =~= old(effects)@);
    }

    /// What the synthesis half has to do next.
    pub open spec fn synthesis_step(self, terminals: Map<Seq<char>, TerminalInfo>) -> SynthesisStep {
        match self.synthesis {
            SynthesisState::Reported => SynthesisStep::Idle,
            SynthesisState::Waiting => if self.settled() {
                SynthesisStep::Spawn
            } else {
                SynthesisStep::Idle
            },
            SynthesisState::Running(p) => if terminals.contains_key(p.terminal_id@) {
                SynthesisStep::Idle
            } else if !self.synthesis_failed_once {
                SynthesisStep::Retry
            } else {
                SynthesisStep::GiveUp
            },
        }
    }

    /// Decides what the synthesis half does next. The last interview to settle
    /// starts it; a pane that goes without reporting is replaced once, and the
    /// second one fails the cycle.
    pub fn advance_review_synthesis(
        &mut self,
        terminals: &TextMap<TerminalInfo>,
        now_unix_ms: u64,
        effects: &mut Vec<Effect>,
    ) -> (step: SynthesisStep)
        requires
            old(self).wf(),
            terminals.wf(),
        ensures
            final(self).wf(),
            step == old(self).synthesis_step(terminals@),
            step is Idle || step is Spawn ==> *final(self) == *old(self) && final(effects)@ == old(
                effects,
            )@,
            step is Retry ==> *final(self) == (LiveReviewCycle {
                synthesis: SynthesisState::Waiting,
                synthesis_failed_once: true,
                ..*old(self)
            }) && final(effects)@ == old(effects)@,
            step is GiveUp ==> *final(self) == (LiveReviewCycle {
                synthesis: SynthesisState::Waiting,
                closed: true,
                ..*old(self)
            }) && old(self).failure_effects(
                final(effects)@.skip(old(effects)@.len() as int),
                "the review synthesis never reported findings"@,
                now_unix_ms,
            ),
            extends(old(effects)@, final(effects)@),
            leaves_run_status(final(effects)@, old(effects)@.len() as int),
    {
        assert(effects@.take(effects@.len() as int) =~= effects@);
        let gone = match &self.synthesis {
            SynthesisState::Reported => {
                return SynthesisStep::Idle;
            },
            SynthesisState::Waiting => {
                if self.interviews_settled() {
                    return SynthesisStep::Spawn;
                }
                return SynthesisStep::Idle;
            },
            SynthesisState::Running(p) => !terminals.contains_key(p.terminal_id.as_str()),
        };
        if !gone {
            return SynthesisStep::Idle;
        }
        self.synthesis = SynthesisState::Waiting;
        if !self.synthesis_failed_once {
            self.synthesis_failed_once = true;
            return SynthesisStep::Retry;
        }
        self.fail_review_cycle(
            "the review synthesis never reported findings",
            now_unix_ms,
            effects,
        );
        SynthesisStep::GiveUp
    }
}

/// What the synthesis half of a cycle has to do next.
#[derive(Debug, Clone, Copy, PartialEq, Eq, Structural)]
pub enum SynthesisStep {
    Idle,
    /// Start the synthesis pane.
    Spawn,
    /// The first synthesis pane went without reporting: start another.
    Retry,
    /// The second one did too: the cycle has failed.
    GiveUp,
}

} // verus!
