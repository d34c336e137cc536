//! The plain data of the workflow runtime: statuses, records of a stored run, and
//! what is written back to the store.

use crate::json::Json;
use vstd::prelude::*;

verus! {

#[derive(Debug, Clone, Copy, PartialEq, Eq, Structural)]
pub enum RunStatus {
    Pending,
    Running,
    Paused,
    Succeeded,
    Failed,
    Cancelled,
}

#[derive(Debug, Clone, Copy, PartialEq, Eq, Structural)]
pub enum NodeStatus {
    Pending,
    Ready,
    Running,
    NeedsAttention,
    Blocked,
    Succeeded,
    Failed,
    Skipped,
    Restored,
    Cancelled,
}

#[derive(Debug, Clone, Copy, PartialEq, Eq, Structural)]
pub enum EdgeKind {
    Sequence,
    Data,
    Conditional,
}

#[derive(Debug, Clone, Copy, PartialEq, Eq, Structural)]
pub enum Evidence {
    SelfReport,
    Hook,
    Detection,
    Restored,
}

/// A cost tier of a run.
#[derive(Debug, Clone, Copy, PartialEq, Eq, Structural)]
pub enum Tier {
    Auto,
    Max,
    High,
    Medium,
    Low,
}

#[derive(Debug, Clone, Copy, PartialEq, Eq, Structural)]
pub enum ModelAlias {
    Sonnet,
    Opus,
}

#[derive(Debug, Clone, Copy, PartialEq, Eq, Structural)]
pub enum Effort {
    Low,
    Medium,
    High,
}

/// The model and effort an agent runs at.
#[derive(Debug, Clone, Copy, PartialEq, Eq, Structural)]
pub struct Assignment {
    pub model: ModelAlias,
    pub effort: Effort,
}

/// What the watchdog thinks of a node.
#[derive(Debug, Clone, Copy, PartialEq, Eq, Structural)]
pub enum Attention {
    Stuck,
}

#[derive(Debug, Clone, Copy, PartialEq, Eq, Structural)]
pub enum ReviewCycleStatus {
    Running,
    AwaitingUser,
    Closed,
    Failed,
}

/// Whether an interview continued the member's own session or worked from the record.
#[derive(Debug, Clone, Copy, PartialEq, Eq, Structural)]
pub enum InterviewMode {
    Resumed,
    EvidenceOnly,
}

/// What a detector makes of the agent in a pane.
#[derive(Debug, Clone, Copy, PartialEq, Eq, Structural)]
pub enum AgentState {
    Working,
    Idle,
    Blocked,
    Unknown,
}

impl ModelAlias {
    /// The name of the model on a command line.
    pub open spec fn name(self) -> Seq<char> {
        match self {
            ModelAlias::Sonnet => "sonnet"@,
            ModelAlias::Opus => "opus"@,
        }
    }

    pub fn as_str(&self) -> (r: &'static str)
        ensures
            r@ == self.name(),
    {
        match self {
            ModelAlias::Sonnet => "sonnet",
            ModelAlias::Opus => "opus",
        }
    }
}

impl Effort {
    /// The name of the effort on a command line.
    pub open spec fn name(self) -> Seq<char> {
        match self {
            Effort::Low => "low"@,
            Effort::Medium => "medium"@,
            Effort::High => "high"@,
        }
    }

    pub fn as_str(&self) -> (r: &'static str)
        ensures
            r@ == self.name(),
    {
        match self {
            Effort::Low => "low",
            Effort::Medium => "medium",
            Effort::High => "high",
        }
    }
}

/// Whether a run has finished.
pub open spec fn is_terminal(status: RunStatus) -> bool {
    status is Succeeded || status is Failed || status is Cancelled
}

/// The instance path of a run's team lead.
pub const LEAD_INSTANCE_PATH: &'static str = ".lead";

/// The pane a team roster names for its lead.
pub const LEAD_PANE_SENTINEL: &'static str = "leader";

// ---------------------------------------------------------------------------
// A stored run
// ---------------------------------------------------------------------------

/// A recorded failure: the value that was stored, and how it is written.
#[derive(Debug, PartialEq, Eq)]
pub struct RecordedFailure {
    pub value: Json,
    pub rendered: String,
}

#[derive(Debug, PartialEq, Eq)]
pub struct RunRecord {
    pub id: String,
    pub workflow_name: String,
    pub version: String,
    pub status: RunStatus,
    pub tier: Tier,
    pub started_at_unix_ms: u64,
    pub ended_at_unix_ms: Option<u64>,
    pub failure: Option<RecordedFailure>,
    pub lead_session_id: Option<String>,
}

#[derive(Debug, PartialEq, Eq)]
pub struct RunNodeRecord {
    pub instance_path: String,
    pub node_key: String,
    pub label: String,
    pub subject: String,
    pub owner: String,
    pub status: NodeStatus,
    pub emergent: bool,
    pub attention: Option<Attention>,
    pub model: String,
    pub cwd: Option<String>,
    pub agent_session_id: Option<String>,
    pub transcript_path: Option<String>,
    pub started_at_unix_ms: Option<u64>,
    pub ended_at_unix_ms: Option<u64>,
}

#[derive(Debug, PartialEq, Eq)]
pub struct RunMemberRecord {
    pub name: String,
    pub agent_type: String,
    pub model: String,
    pub pane_id: Option<String>,
    pub backend_type: String,
    pub cwd: Option<String>,
    pub session_id: Option<String>,
    pub transcript_path: Option<String>,
    pub last_state: Option<String>,
    pub last_state_at_unix_ms: Option<u64>,
}

#[derive(Debug, PartialEq, Eq)]
pub struct WatchdogJournalEntry {
    pub path: String,
    pub at_unix_ms: u64,
    pub payload: Json,
}

/// What the store measured of one node.
#[derive(Debug, PartialEq, Eq)]
pub struct NodeEvidence {
    pub path: String,
    pub blocked_by: Vec<String>,
    pub time_in_progress_ms: u64,
    pub idle_while_in_progress_ms: u64,
}

// ---------------------------------------------------------------------------
// What a review reads of a run
// ---------------------------------------------------------------------------

/// One rung the watchdog climbed on a task.
#[derive(Debug, PartialEq, Eq)]
pub struct InterventionEvidence {
    pub at_unix_ms: u64,
    pub rung: u8,
    pub kind: String,
    pub channel: Option<String>,
    pub delivered: bool,
    pub text: Option<String>,
}

#[derive(Debug, PartialEq, Eq)]
pub struct TaskEvidence {
    pub path: String,
    pub node_key: Option<String>,
    pub subject: String,
    pub status: NodeStatus,
    pub emergent: bool,
    pub attention: Option<Attention>,
    pub owner: Option<String>,
    pub owner_changes: Vec<String>,
    pub unresolved_blockers: Vec<String>,
    pub first_seen_at_unix_ms: u64,
    pub last_change_at_unix_ms: u64,
    pub in_progress_ms: u64,
    pub idle_while_in_progress_ms: u64,
    pub interventions: Vec<InterventionEvidence>,
}

#[derive(Debug, PartialEq, Eq)]
pub struct MemberEvidence {
    pub name: String,
    pub tasks: Vec<TaskEvidence>,
    pub last_state: Option<String>,
    pub last_state_at_unix_ms: Option<u64>,
}

#[derive(Debug, PartialEq, Eq)]
pub struct MemberIdentity {
    pub name: String,
    pub is_lead: bool,
    pub model: String,
    pub backend_type: String,
    pub cwd: Option<String>,
    pub session_id: Option<String>,
    pub transcript_readable: bool,
    pub transcript_path: Option<String>,
}

#[derive(Debug, PartialEq, Eq)]
pub struct RunEvidence {
    pub run_id: String,
    pub workflow_name: String,
    pub kvdag_version: u32,
    pub status: RunStatus,
    pub started_at_unix_ms: u64,
    pub ended_at_unix_ms: Option<u64>,
    pub summary: Option<String>,
    pub failure: Option<String>,
    pub members: Vec<MemberEvidence>,
    pub unowned_tasks: Vec<TaskEvidence>,
}

} // verus!
