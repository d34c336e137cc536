//! What a `kvx workflow` verb asks for next: a request to the server, a file, or
//! standard input.

use crate::cli::run_args::RunMessageRequest;
use crate::json::Json;
use crate::wire::{Method, WorkflowDefinitionDocument, WorkflowRunParams};
use vstd::prelude::*;

verus! {

/// What a node's own process knows of itself.
#[derive(Debug, PartialEq, Eq)]
pub struct NodeCompleteEnv {
    pub run_id: String,
    pub node_path: String,
    pub node_dir: String,
    pub node_token: String,
}

/// What is done with the reply to a request.
#[allow(inconsistent_fields)]
#[derive(Debug, PartialEq, Eq)]
pub enum Pending {
    /// Print the reply as it is.
    Raw,
    /// Print a workflow, once its head version is known.
    Show,
    /// Print the workflow in `response` with the version in the reply.
    ShowVersion { response: Json },
    Create { json: bool },
    /// Send the update, once the version that stands before it is known.
    UpdatePrecheck {
        workflow_id: String,
        definition: WorkflowDefinitionDocument,
        change_summary: String,
        json: bool,
    },
    Update { previous: Option<u32>, json: bool },
    /// Look for the version whose declared arguments the run has to match.
    RunPrecheck { params: WorkflowRunParams, json: bool },
    /// Start the run, unless it names an argument that was never declared.
    RunPrecheckVersion { params: WorkflowRunParams, json: bool },
    Run { json: bool },
    Mutation { json: bool },
    Node { json: bool },
    Expand { json: bool },
    Interrogate { json: bool },
    SummaryShow { json: bool },
    SummaryList { json: bool },
    ReviewShow { json: bool },
    ReportSession { json: bool },
}

/// What is done with a file that was read.
#[allow(inconsistent_fields)]
#[derive(Debug, PartialEq, Eq)]
pub enum Reading {
    CreateDefinition { name: Option<String>, json: bool },
    UpdateDefinition { workflow_id: String, change_summary: String, json: bool },
    Message { request: RunMessageRequest, json: bool },
    NodeResult { env: NodeCompleteEnv },
}

/// What comes next.
#[derive(Debug, PartialEq, Eq)]
pub enum Step {
    /// The command is over.
    Exit(i32),
    /// A request goes to the server.
    Send { id: String, method: Method, then: Pending },
    /// A file is read.
    ReadFile { path: String, what: Reading },
    /// Standard input is read: the report of a session of run `run_id`.
    ReadHook { run_id: String, json: bool },
}

/// The request that `step` sends under `id`, and what follows it.
pub open spec fn sent(step: Step, id: Seq<char>) -> Option<(Method, Pending)> {
    match step {
        Step::Send { id: i, method, then } => if i@ == id {
            Some((method, then))
        } else {
            None
        },
        _ => None,
    }
}

pub fn send(id: &str, method: Method, then: Pending) -> (r: Step)
    ensures
        sent(r, id@) == Some((method, then)),
{
    Step::Send { id: id.to_owned(), method, then }
}

} // verus!
