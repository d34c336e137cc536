//! What background work tells the main loop.

use crate::json::Json;
use crate::model::AgentState;
use crate::ordered::TextMap;
use vstd::prelude::*;

verus! {

/// The number of a pane within the program.
#[derive(Debug, Clone, Copy, PartialEq, Eq, Structural)]
pub struct PaneId {
    pub number: u64,
}

/// The place where an answer is awaited.
#[derive(Debug, Clone, Copy, PartialEq, Eq, Structural)]
pub struct AnswerSlot {
    pub number: u64,
}

/// The worktrees that a workspace belongs to.
#[derive(Debug, PartialEq, Eq)]
pub struct WorktreeSpaceMembership {
    pub repo_key: String,
    pub repo_name: String,
    pub checkout_path: String,
}

/// The session an agent reported of itself.
#[derive(Debug, PartialEq, Eq)]
pub struct AgentSessionRef {
    pub agent: String,
    pub session_id: String,
}

#[derive(Debug, PartialEq, Eq)]
pub struct ApiWorktreeAddRequest {
    pub id: String,
    pub operation_id: u64,
    pub checkout_key: String,
    pub source_workspace_id: Option<String>,
    pub source_existing_membership: Option<WorktreeSpaceMembership>,
    pub source_checkout_path: String,
    pub source_repo_root: String,
    pub repo_key: String,
    pub repo_name: String,
    pub label: Option<String>,
    pub focus: bool,
    pub respond_to: AnswerSlot,
}

#[derive(Debug, PartialEq, Eq)]
pub struct WorktreeAddResult {
    pub path: String,
    pub api_request: Option<ApiWorktreeAddRequest>,
    pub result: Result<(), String>,
}

#[derive(Debug, PartialEq, Eq)]
pub struct ApiWorktreeRemoveRequest {
    pub id: String,
    pub operation_id: u64,
    pub checkout_key: String,
    pub respond_to: AnswerSlot,
}

#[derive(Debug, PartialEq, Eq)]
pub struct WorktreeRemoveResult {
    pub workspace_id: String,
    pub path: String,
    pub workspace: Option<Json>,
    pub worktree: Option<Json>,
    pub forced: bool,
    pub api_request: Option<ApiWorktreeRemoveRequest>,
    pub result: Result<(), String>,
}

/// What becomes of the panes of a workflow's nodes. Times are in milliseconds.
#[allow(inconsistent_fields)]
#[derive(Debug, PartialEq, Eq)]
pub enum WorkflowAppEvent {
    /// The clock.
    Tick,
    /// A hook reported the state of a node's agent.
    NodeHookReported {
        pane_id: PaneId,
        source: String,
        agent_label: String,
        state: AgentState,
    },
    /// The state of a node's agent was seen or reported.
    NodeAgentStatus { pane_id: PaneId, state: AgentState, observed_at_ms: u64 },
    /// The process of a node's pane ended.
    NodePaneExited { pane_id: PaneId, code: Option<i32> },
}

/// An event from background work to the main loop. Times are in milliseconds.
#[allow(inconsistent_fields)]
#[derive(Debug, PartialEq, Eq)]
pub enum AppEvent {
    /// The process of a pane ended.
    PaneDied { pane_id: PaneId },
    /// The state seen in a pane changed.
    StateChanged {
        pane_id: PaneId,
        agent: Option<String>,
        state: AgentState,
        visible_blocker: bool,
        visible_working: bool,
        process_exited: bool,
        observed_at_ms: u64,
    },
    /// A hook reported the state of a pane's agent.
    HookStateReported {
        pane_id: PaneId,
        source: String,
        agent_label: String,
        state: AgentState,
        message: Option<String>,
        seq: Option<u64>,
        session_ref: Option<AgentSessionRef>,
    },
    /// An agent told which session it is, without a say over its state.
    AgentSessionReported {
        pane_id: PaneId,
        source: String,
        agent_label: String,
        seq: Option<u64>,
        session_ref: Option<AgentSessionRef>,
        session_start_source: Option<String>,
    },
    /// What a pane is to be shown with.
    HookMetadataReported {
        pane_id: PaneId,
        source: String,
        agent_label: Option<String>,
        applies_to_source: Option<String>,
        title: Option<String>,
        display_agent: Option<String>,
        state_labels: TextMap<String>,
        clear_title: bool,
        clear_display_agent: bool,
        clear_state_labels: bool,
        seq: Option<u64>,
        ttl_ms: Option<u64>,
    },
    /// A hook gave its say over a pane up.
    HookAuthorityCleared { pane_id: PaneId, source: Option<String>, seq: Option<u64> },
    /// The agent of a pane left it to the shell.
    HookAgentReleased {
        pane_id: PaneId,
        source: String,
        agent_label: String,
        known_agent: Option<String>,
        seq: Option<u64>,
    },
    /// A new version can be had.
    UpdateReady { version: String, install_command: String },
    /// The check for new ways to recognise agents is over.
    AgentDetectionManifestsUpdated { updated: Vec<String>, status: String },
    /// A pane wrote to the clipboard.
    ClipboardWrite { content: Vec<u8> },
    /// The input source for prefix keys is wanted, or no longer.
    PrefixInputSource { active: bool },
    /// A pane's shell told its directory.
    TerminalCwdReported { pane_id: PaneId, cwd: String },
    /// The state of the workspaces' repositories was read: each workspace with its
    /// state, and what is to be kept for each path.
    GitStatusRefreshed { results: Vec<(String, Json)>, cache_updates: Vec<(String, Json)> },
    /// A command of a plugin is over.
    PluginCommandFinished {
        log_id: String,
        finished_unix_ms: u64,
        exit_code: Option<i32>,
        stdout: String,
        stderr: String,
        error: Option<String>,
    },
    /// A worktree was added, or not.
    WorktreeAddFinished(Box<WorktreeAddResult>),
    /// A worktree was removed, or not.
    WorktreeRemoveFinished(Box<WorktreeRemoveResult>),
}

} // verus!
