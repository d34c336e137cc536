//! What the workflow logic asks the rest of the server to do.
//!
//! The logic never touches the store, a pane or a socket itself. It appends
//! effects, and whoever drives it carries them out in order.

use crate::model::{InterviewMode, NodeStatus, ReviewCycleStatus, RunStatus};
use vstd::prelude::*;

verus! {

/// A finding as it is stored: who it is about, and how that may be claimed.
#[derive(Debug, PartialEq, Eq)]
pub struct FindingSeed {
    pub node_key: String,
    pub path: Option<String>,
    pub source_member: Option<String>,
    pub interview_mode: InterviewMode,
    pub interview: Option<String>,
    pub body: String,
}

/// Why a run ended badly.
#[derive(Debug, PartialEq, Eq)]
pub enum RunFailure {
    /// No team was recognised as the run's in time.
    LeadUnbound { detail: String, waited_ms: u64 },
    /// The team lead ended without a word.
    LeadExited { team_name: Option<String> },
}

/// The word a failure is recorded under.
pub open spec fn failure_kind(failure: RunFailure) -> Seq<char> {
    match failure {
        RunFailure::LeadUnbound { .. } => "lead_unbound"@,
        RunFailure::LeadExited { .. } => "lead_exited"@,
    }
}

/// What is told of a failure.
pub open spec fn failure_detail(failure: RunFailure) -> Seq<char> {
    match failure {
        RunFailure::LeadUnbound { detail, .. } => detail@,
        RunFailure::LeadExited { .. } =>
            "the run's team lead exited without calling `kvx workflow run finish`"@,
    }
}

impl RunFailure {
    pub fn kind(&self) -> (r: &'static str)
        ensures
            r@ == failure_kind(*self),
    {
        match self {
            RunFailure::LeadUnbound { .. } => "lead_unbound",
            RunFailure::LeadExited { .. } => "lead_exited",
        }
    }

    pub fn detail(&self) -> (r: String)
        ensures
            r@ == failure_detail(*self),
    {
        match self {
            RunFailure::LeadUnbound { detail, .. } => detail.clone(),
            RunFailure::LeadExited { .. } =>
                "the run's team lead exited without calling `kvx workflow run finish`".to_owned(),
        }
    }

    /// Only a run that had a team can be taken up again.
    pub fn resumable(&self) -> (r: bool)
        ensures
            r == (*self is LeadExited),
    {
        match self {
            RunFailure::LeadUnbound { .. } => false,
            RunFailure::LeadExited { .. } => true,
        }
    }
}

/// How a message reached a session.
#[derive(Debug, Clone, Copy, PartialEq, Eq, Structural)]
pub enum DeliveryChannel {
    InboxSocket,
    PaneInput,
}

pub open spec fn channel_word(channel: DeliveryChannel) -> Seq<char> {
    match channel {
        DeliveryChannel::InboxSocket => "inbox_socket"@,
        DeliveryChannel::PaneInput => "pane_input"@,
    }
}

impl DeliveryChannel {
    pub fn as_str(self) -> (r: &'static str)
        ensures
            r@ == channel_word(self),
    {
        match self {
            DeliveryChannel::InboxSocket => "inbox_socket",
            DeliveryChannel::PaneInput => "pane_input",
        }
    }
}

/// How soon a message is to be seen.
#[derive(Debug, Clone, Copy, PartialEq, Eq, Structural)]
pub enum Priority {
    Now,
    Next,
    Later,
}

pub open spec fn priority_word(priority: Priority) -> Seq<char> {
    match priority {
        Priority::Now => "now"@,
        Priority::Next => "next"@,
        Priority::Later => "later"@,
    }
}

impl Priority {
    pub fn as_str(self) -> (r: &'static str)
        ensures
            r@ == priority_word(self),
    {
        match self {
            Priority::Now => "now",
            Priority::Next => "next",
            Priority::Later => "later",
        }
    }
}

/// One row to write.
#[allow(inconsistent_fields)]
#[derive(Debug, PartialEq, Eq)]
pub enum StoreWrite {
    RunStatus { run: String, status: RunStatus, ended_at_unix_ms: Option<u64> },
    RunFailed { run: String, ended_at_unix_ms: u64, failure: RunFailure },
    RunLeadBinding {
        run: String,
        lead_session_id: String,
        team_name: String,
        lead_pane_id: Option<String>,
        lead_terminal_id: Option<String>,
        lead_prompt_version: u32,
    },
    RunTaskProjected {
        run: String,
        path: String,
        node_key: String,
        task_id: String,
        subject: String,
        owner: String,
        status: NodeStatus,
        emergent: bool,
        blocked_by: Vec<String>,
        observed_at_unix_ms: u64,
    },
    RunMemberSnapshot {
        run: String,
        name: String,
        agent_type: String,
        model: String,
        pane_id: Option<String>,
        backend_type: String,
        is_active: bool,
        cwd: Option<String>,
        observed_at_unix_ms: u64,
    },
    /// A message was handed over. Its text is not kept, only how long it was.
    MessageDelivered {
        run: String,
        seq: u64,
        target: String,
        session_id: String,
        pane_id: Option<String>,
        channel: DeliveryChannel,
        priority: Priority,
        text_bytes: u64,
        at_unix_ms: u64,
    },
    RunSummary {
        run: String,
        kvdag_version: String,
        text: String,
        outcome: String,
        highlights: Vec<String>,
        open_gaps: Vec<String>,
        per_node: Vec<String>,
        token_estimate: u32,
        generated_by_path: Option<String>,
    },
    ReviewCycleStarted { id: String, run: String, kvdag_version: String, started_at_unix_ms: u64 },
    ReviewCycleUpdate {
        id: String,
        status: Option<ReviewCycleStatus>,
        ended_at_unix_ms: Option<u64>,
        resulting_version: Option<String>,
    },
    InterrogationStarted {
        id: String,
        run: String,
        path: String,
        source_session_id: String,
        forked_session_id: Option<String>,
        transcript_path: Option<String>,
        cwd: String,
        pane_id: String,
        reconstructed: bool,
        seeded_from_seq: Option<u64>,
        note: String,
        started_at_unix_ms: u64,
    },
    InterrogationUpdate {
        id: String,
        forked_session_id: Option<String>,
        ended_at_unix_ms: Option<u64>,
    },
    ReviewFindings { cycle: String, findings: Vec<FindingSeed> },
}

/// Whether a write can change the status of a run.
pub open spec fn touches_run_status(write: StoreWrite) -> bool {
    write is RunStatus || write is RunFailed
}

#[derive(Debug, Clone, Copy, PartialEq, Eq, Structural)]
pub enum NoticeLevel {
    Info,
    Warning,
}

/// A message for the person in front of the screen.
#[derive(Debug, PartialEq, Eq)]
pub struct UserNotice {
    pub level: NoticeLevel,
    pub run: Option<String>,
    pub path: Option<String>,
    pub message: String,
}

/// Why a prompt is typed into a pane.
#[derive(Debug, Clone, Copy, PartialEq, Eq, Structural)]
pub enum PromptReason {
    LeadSeed,
    ReviewSeed,
}

#[derive(Debug, Clone, Copy, PartialEq, Eq, Structural)]
pub enum ReviewEventKind {
    Started,
    Ready,
    Closed,
}

/// One thing to do outside the workflow logic.
#[derive(Debug, PartialEq, Eq)]
pub enum Effect {
    /// Hand a row to the store.
    Write(StoreWrite),
    /// Show a notice.
    Notice(UserNotice),
    /// Type `text` into a pane as its agent's next prompt.
    Prompt { reason: PromptReason, pane_id: String, text: String },
    /// Publish the review cycle of a run as the store has it.
    ReviewEvent { kind: ReviewEventKind, run_id: String },
    /// Publish the nodes the projection touched, as the store has them.
    NodeEvents { run_id: String, touched: Vec<String>, created: Vec<String> },
    /// Publish that a run finished, as the store has it.
    RunFinished { run_id: String },
    /// Close a pane.
    ClosePane { pane_id: String },
}

/// Whether `after` is `before` with effects appended.
pub open spec fn extends(before: Seq<Effect>, after: Seq<Effect>) -> bool {
    before.len() <= after.len() && after.take(before.len() as int) == before
}

/// Whether no effect from `from` on can change the status of a run.
pub open spec fn leaves_run_status(effects: Seq<Effect>, from: int) -> bool {
    forall|i: int|
        from <= i < effects.len() ==> (#[trigger] effects[i] matches Effect::Write(w)
            ==> !touches_run_status(w))
}

} // verus!
