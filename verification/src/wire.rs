//! What travels over the socket: the requests the command line sends, and the
//! values a run is described with.

use crate::json::Json;
use crate::model::Attention;
use crate::ordered::TextMap;
use vstd::prelude::*;

verus! {

#[derive(Debug, Clone, Copy, PartialEq, Eq, Structural)]
pub enum WorkflowTier {
    Auto,
    Max,
    High,
    Medium,
    Low,
}

#[derive(Debug, Clone, Copy, PartialEq, Eq, Structural)]
pub enum WorkflowDefinitionFormat {
    Toml,
    Json,
}

/// How a past node's session is opened again.
#[derive(Debug, Clone, Copy, PartialEq, Eq, Structural)]
pub enum WorkflowInterrogationMode {
    /// Fork the recorded transcript.
    Resumed,
    /// Start over from the stored checkpoint.
    Reconstructed,
}

#[derive(Debug, Clone, Copy, PartialEq, Eq, Structural)]
pub enum WorkflowRunStatus {
    Pending,
    Running,
    Paused,
    Succeeded,
    Failed,
    Cancelled,
}

#[derive(Debug, Clone, Copy, PartialEq, Eq, Structural)]
pub enum WorkflowNodeStatus {
    Pending,
    Ready,
    Running,
    NeedsAttention,
    Blocked,
    Succeeded,
    Failed,
    Skipped,
    Restored,
    Cancelled,
}

#[derive(Debug, Clone, Copy, PartialEq, Eq, Structural)]
pub enum WorkflowEdgeKind {
    Sequence,
    Data,
    Conditional,
}

#[derive(Debug, Clone, Copy, PartialEq, Eq, Structural)]
pub enum WorkflowEvidence {
    SelfReport,
    Hook,
    Detection,
    Restored,
}

/// How a node left the field to those behind it.
#[allow(inconsistent_fields)]
#[derive(Debug, PartialEq, Eq)]
pub enum WorkflowSuccession {
    Satisfied,
    Blocked { reason: String, resume_when: Option<String> },
    NoFollowup { evidence: String },
}

#[derive(Debug, Clone, Copy, PartialEq, Eq, Structural)]
pub enum WorkflowReviewStatus {
    Running,
    AwaitingUser,
    Closed,
    Failed,
}

#[derive(Debug, PartialEq, Eq)]
pub struct WorkflowRestoredFrom {
    pub run_id: String,
    pub node_key: String,
    pub checkpoint_seq: u64,
}

/// A node of a run, as the server tells it.
#[derive(Debug, PartialEq, Eq)]
pub struct WorkflowRunNodeInfo {
    pub path: String,
    pub node_key: String,
    pub label: String,
    pub parent_path: Option<String>,
    pub depth: u32,
    pub status: WorkflowNodeStatus,
    pub model: String,
    pub effort: String,
    pub attempt: u32,
    pub pane_id: Option<String>,
    pub terminal_id: Option<String>,
    pub started_at_unix_ms: Option<u64>,
    pub ended_at_unix_ms: Option<u64>,
    pub total_tokens: u64,
    pub tool_uses: u64,
    pub duration_ms: u64,
    pub evidence: Option<WorkflowEvidence>,
    pub succession: Option<WorkflowSuccession>,
    pub watchdog_interventions: u32,
    pub assignment_reason: String,
    pub restored_from: Option<WorkflowRestoredFrom>,
    pub task_id: Option<String>,
    pub subject: String,
    pub owner: String,
    pub emergent: bool,
    pub attention: Option<Attention>,
}

/// An edge of a run, as the server tells it.
#[derive(Debug, PartialEq, Eq)]
pub struct WorkflowRunEdgeInfo {
    pub from: String,
    pub to: String,
    pub kind: WorkflowEdgeKind,
    pub condition_result: Option<bool>,
    pub fired: bool,
}

/// The graph of a run, as the server tells it.
#[derive(Debug, PartialEq, Eq)]
pub struct WorkflowRunGraph {
    pub nodes: Vec<WorkflowRunNodeInfo>,
    pub edges: Vec<WorkflowRunEdgeInfo>,
    pub members: Vec<Json>,
}

/// A run, as the server tells it.
#[derive(Debug, PartialEq, Eq)]
pub struct WorkflowRunInfo {
    pub run_id: String,
    pub version_id: String,
    pub workflow_name: String,
    pub tier: WorkflowTier,
    pub status: WorkflowRunStatus,
    pub max_depth: u32,
    pub max_nodes: u32,
    pub team_name: Option<String>,
    pub lead_pane_id: Option<String>,
}

#[derive(Debug, PartialEq, Eq)]
pub struct WorkflowDefinitionDocument {
    pub format: WorkflowDefinitionFormat,
    pub text: String,
}

#[derive(Debug, PartialEq, Eq)]
pub struct WorkflowTarget {
    pub workflow_id: String,
}

#[derive(Debug, PartialEq, Eq)]
pub struct WorkflowVersionCreateParams {
    pub workflow_id: String,
    pub definition: WorkflowDefinitionDocument,
    pub change_summary: String,
}

#[derive(Debug, PartialEq, Eq)]
pub struct WorkflowRestoreRequest {
    pub run_id: String,
    pub nodes: Vec<String>,
    pub allow_changed: bool,
}

#[derive(Debug, PartialEq, Eq)]
pub struct WorkflowRunParams {
    pub workflow_id: String,
    pub version: Option<u32>,
    pub tier: Option<WorkflowTier>,
    pub args: TextMap<String>,
    pub restore_from: Option<WorkflowRestoreRequest>,
    pub include_prior_summaries: Option<bool>,
}

#[derive(Debug, PartialEq, Eq)]
pub struct WorkflowRunListParams {
    pub workflow_id: Option<String>,
    pub limit: Option<u32>,
}

#[derive(Debug, PartialEq, Eq)]
pub struct WorkflowRunTarget {
    pub run_id: String,
}

#[derive(Debug, PartialEq, Eq)]
pub struct WorkflowRunFinishParams {
    pub run_id: String,
    pub summary: Option<String>,
    pub summary_file: Option<String>,
    pub outcome: Option<String>,
}

#[derive(Debug, PartialEq, Eq)]
pub struct WorkflowRunMessageParams {
    pub run_id: String,
    pub target: String,
    pub text: String,
    pub priority: Option<String>,
}

#[derive(Debug, PartialEq, Eq)]
pub struct WorkflowRunReportSessionParams {
    pub run_id: String,
    pub session_id: String,
    pub transcript_path: Option<String>,
    pub pane_id: Option<String>,
    pub cwd: Option<String>,
    pub source: Option<String>,
    pub messaging_socket: Option<String>,
    pub messaging_token: Option<String>,
    pub agent_id: Option<String>,
}

#[derive(Debug, PartialEq, Eq)]
pub struct WorkflowNodeTarget {
    pub run_id: String,
    pub path: String,
}

#[derive(Debug, PartialEq, Eq)]
pub struct WorkflowNodeSteerParams {
    pub run_id: String,
    pub path: String,
    pub text: String,
}

#[derive(Debug, PartialEq, Eq)]
pub struct WorkflowNodeExpandParams {
    pub run_id: String,
    pub path: String,
    pub token: String,
    pub template: String,
    pub label: String,
    pub inputs: TextMap<String>,
    pub count: Option<u32>,
}

#[derive(Debug, PartialEq, Eq)]
pub struct WorkflowNodeInterrogateParams {
    pub run_id: String,
    pub path: String,
    pub mode: WorkflowInterrogationMode,
    pub note: Option<String>,
}

/// A node's own report. `result` is its result document, and null where it has none
/// to show.
#[derive(Debug, PartialEq, Eq)]
pub struct WorkflowNodeReportParams {
    pub run_id: String,
    pub path: String,
    pub token: String,
    pub result: Json,
}

#[derive(Debug, PartialEq, Eq)]
pub struct WorkflowSummaryListParams {
    pub workflow_id: Option<String>,
    pub limit: Option<u32>,
}

#[derive(Debug, PartialEq, Eq)]
pub struct WorkflowReviewApplyParams {
    pub run_id: String,
    pub accept: Vec<String>,
}

#[derive(Debug, PartialEq, Eq)]
pub struct WorkflowReviewAnswerParams {
    pub run_id: String,
    pub member: String,
    pub answer: Option<String>,
    pub answer_file: Option<String>,
}

#[derive(Debug, PartialEq, Eq)]
pub struct WorkflowReviewReportParams {
    pub run_id: String,
    pub findings: Option<String>,
    pub findings_file: Option<String>,
}

/// The workflow requests of the command line.
#[derive(Debug, PartialEq, Eq)]
pub enum Method {
    WorkflowList,
    WorkflowGet(WorkflowTarget),
    WorkflowVersionGet(String),
    WorkflowCreate(WorkflowDefinitionDocument),
    WorkflowVersionCreate(WorkflowVersionCreateParams),
    WorkflowRun(WorkflowRunParams),
    WorkflowRunList(WorkflowRunListParams),
    WorkflowRunGet(WorkflowRunTarget),
    WorkflowRunCancel(WorkflowRunTarget),
    WorkflowRunFinish(WorkflowRunFinishParams),
    WorkflowRunMessage(WorkflowRunMessageParams),
    WorkflowRunReportSession(WorkflowRunReportSessionParams),
    WorkflowNodeGet(WorkflowNodeTarget),
    WorkflowNodeSteer(WorkflowNodeSteerParams),
    WorkflowNodeInterrupt(WorkflowNodeTarget),
    WorkflowNodeRestart(WorkflowNodeTarget),
    WorkflowNodeReport(WorkflowNodeReportParams),
    WorkflowNodeExpand(WorkflowNodeExpandParams),
    WorkflowNodeInterrogate(WorkflowNodeInterrogateParams),
    WorkflowSummaryGet(WorkflowRunTarget),
    WorkflowSummaryList(WorkflowSummaryListParams),
    WorkflowReviewStart(WorkflowRunTarget),
    WorkflowReviewGet(WorkflowRunTarget),
    WorkflowReviewApply(WorkflowReviewApplyParams),
    WorkflowReviewAnswer(WorkflowReviewAnswerParams),
    WorkflowReviewReport(WorkflowReviewReportParams),
}

} // verus!
