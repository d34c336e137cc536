//! What each verb of `kvx workflow` does with its arguments, before anything is sent.

use crate::cli::definition::{default_node_result_path, result_path};
use crate::cli::node_args::{
    complete_flags, expand_args, interrogate_args, parse_workflow_node_complete_args,
    parse_workflow_node_expand_args, parse_workflow_node_interrogate_args,
    parse_workflow_node_pair_args, parse_workflow_node_show_args, parse_workflow_node_steer_args,
    steer_json, steer_words, NODE_INTERRUPT_USAGE, NODE_RESTART_USAGE, NODE_SHOW_USAGE,
    NODE_STEER_USAGE,
};
use crate::cli::other_args::{
    answer_args, apply_args, create_args, findings_args, parse_workflow_create_args,
    parse_workflow_list_args, parse_workflow_review_answer_args, parse_workflow_review_apply_args,
    parse_workflow_review_report_args, parse_workflow_show_args, parse_workflow_summary_list_args,
    parse_workflow_summary_show_args, parse_workflow_update_args, summary_list_flags, update_args,
    LIST_USAGE, REVIEW_SHOW_USAGE, REVIEW_START_USAGE, SHOW_USAGE, SUMMARY_SHOW_USAGE,
};
use crate::cli::run_args::{
    operands_then_json, parse_report_session_args, parse_workflow_review_run_target_args,
    parse_workflow_run_cancel_args, parse_workflow_run_finish_args, parse_workflow_run_list_args,
    parse_workflow_run_message_args, parse_workflow_run_show_args, parse_workflow_run_start_args,
    report_session_flags, run_finish_args, run_list_flags, run_message_args, run_start_args,
    run_start_is, MessageSource, RunMessageRequest, RUN_CANCEL_USAGE, RUN_LIST_USAGE,
    RUN_SHOW_USAGE,
};
use crate::cli::steps::{send, sent, NodeCompleteEnv, Pending, Reading, Step};
use crate::cli::values::{flag_or_env, text_values};
use crate::cli::verbs::Verb;
use crate::text::{cat2, copy_opt, join, opt_text, texts};
use crate::wire::{Method, WorkflowRunMessageParams, WorkflowTarget};
use vstd::prelude::*;

verus! {

broadcast use crate::text::group_texts;

// ---------------------------------------------------------------------------
// The environment
// ---------------------------------------------------------------------------

/// The run a session belongs to.
pub const NODE_ENV_RUN_ID: &'static str = "KARVEX_WORKFLOW_RUN_ID";

/// The node a session works on.
pub const NODE_ENV_NODE_PATH: &'static str = "KARVEX_WORKFLOW_NODE_PATH";

/// The directory of that node.
pub const NODE_ENV_NODE_DIR: &'static str = "KARVEX_WORKFLOW_NODE_DIR";

/// The token minted for that node.
pub const NODE_ENV_NODE_TOKEN: &'static str = "KARVEX_WORKFLOW_NODE_TOKEN";

/// What the environment of the command line holds.
#[derive(Debug, PartialEq, Eq)]
pub struct WorkflowEnv {
    pub run_id: Option<String>,
    pub node_path: Option<String>,
    pub node_dir: Option<String>,
    pub node_token: Option<String>,
    pub review_run_id: Option<String>,
    pub review_member: Option<String>,
    pub pane_id: Option<String>,
    pub messaging_socket: Option<String>,
    pub messaging_token: Option<String>,
    /// What the agent is called whose hooks call in.
    pub agent_name: String,
    /// Whether paths are those of Windows.
    pub windows: bool,
}

/// The complaint about a variable that is not set.
pub open spec fn missing_variable(name: Seq<char>) -> Seq<char> {
    "missing required environment variable "@ + name
}

pub fn required_env(value: &Option<String>, name: &str) -> (r: Result<String, String>)
    ensures
        match *value {
            Some(v) => r == Ok::<String, String>(v),
            None => r is Err && r->Err_0@ == missing_variable(name@),
        },
{
    match value {
        Some(v) => Ok(v.clone()),
        None => Err(cat2("missing required environment variable ", name)),
    }
}

/// What a node's process knows of itself, or the first variable it lacks.
pub open spec fn node_env(env: WorkflowEnv) -> Result<NodeCompleteEnv, Seq<char>> {
    match (env.run_id, env.node_path, env.node_dir, env.node_token) {
        (None, _, _, _) => Err(missing_variable(NODE_ENV_RUN_ID@)),
        (Some(_), None, _, _) => Err(missing_variable(NODE_ENV_NODE_PATH@)),
        (Some(_), Some(_), None, _) => Err(missing_variable(NODE_ENV_NODE_DIR@)),
        (Some(_), Some(_), Some(_), None) => Err(missing_variable(NODE_ENV_NODE_TOKEN@)),
        (Some(run_id), Some(node_path), Some(node_dir), Some(node_token)) => Ok(
            NodeCompleteEnv { run_id, node_path, node_dir, node_token },
        ),
    }
}

pub fn read_node_complete_env(env: &WorkflowEnv) -> (r: Result<NodeCompleteEnv, String>)
    ensures
        match (r, node_env(*env)) {
            (Ok(e), Ok(want)) => e == want,
            (Err(m), Err(want)) => m@ == want,
            _ => false,
        },
{
    let run_id = match required_env(&env.run_id, NODE_ENV_RUN_ID) {
        Ok(v) => v,
        Err(m) => {
            return Err(m);
        },
    };
    let node_path = match required_env(&env.node_path, NODE_ENV_NODE_PATH) {
        Ok(v) => v,
        Err(m) => {
            return Err(m);
        },
    };
    let node_dir = match required_env(&env.node_dir, NODE_ENV_NODE_DIR) {
        Ok(v) => v,
        Err(m) => {
            return Err(m);
        },
    };
    let node_token = match required_env(&env.node_token, NODE_ENV_NODE_TOKEN) {
        Ok(v) => v,
        Err(m) => {
            return Err(m);
        },
    };
    Ok(NodeCompleteEnv { run_id, node_path, node_dir, node_token })
}

// ---------------------------------------------------------------------------
// Plans
// ---------------------------------------------------------------------------

/// What a verb does with its arguments.
#[derive(Debug, PartialEq, Eq)]
pub enum Plan {
    /// It goes on.
    Go(Step),
    /// The arguments are wrong.
    Refuse(String),
    /// Something it needs is missing.
    Fail { code: String, message: String, json: bool },
    /// The arguments are wrong. That is told, and fails nothing.
    Excuse(String),
    /// There is nothing to do.
    Nothing,
}

/// The request a plan goes on with under `id`, and what follows it.
pub open spec fn goes(plan: Plan, id: Seq<char>) -> Option<(Method, Pending)> {
    match plan {
        Plan::Go(step) => sent(step, id),
        _ => None,
    }
}

pub open spec fn refuses(plan: Plan, message: Seq<char>) -> bool {
    plan matches Plan::Refuse(m) && m@ == message
}

pub open spec fn fails(plan: Plan, code: Seq<char>, message: Seq<char>, json: bool) -> bool {
    plan matches Plan::Fail { code: c, message: m, json: j } && c@ == code && m@ == message && j
        == json
}

// Workflows.

pub open spec fn list_plan(args: Seq<String>, plan: Plan) -> bool {
    match operands_then_json(texts(args), 0) {
        None => refuses(plan, LIST_USAGE@),
        Some(_) => goes(plan, "cli:workflow:list"@) == Some((Method::WorkflowList, Pending::Raw)),
    }
}

pub fn workflow_list(args: &[String]) -> (r: Plan)
    ensures
        list_plan(args@, r),
{
    match parse_workflow_list_args(args) {
        Ok(_) => Plan::Go(send("cli:workflow:list", Method::WorkflowList, Pending::Raw)),
        Err(m) => Plan::Refuse(m),
    }
}

pub open spec fn show_plan(args: Seq<String>, plan: Plan) -> bool {
    match operands_then_json(texts(args), 1) {
        None => refuses(plan, SHOW_USAGE@),
        Some(json) => if json {
            goes(plan, "cli:workflow:get"@) matches Some((Method::WorkflowGet(t), Pending::Raw))
                && t.workflow_id == args[0]
        } else {
            goes(plan, "cli:workflow:show"@) matches Some((Method::WorkflowGet(t), Pending::Show))
                && t.workflow_id == args[0]
        },
    }
}

pub fn workflow_show(args: &[String]) -> (r: Plan)
    ensures
        show_plan(args@, r),
{
    match parse_workflow_show_args(args) {
        Ok((target, json)) => if json {
            Plan::Go(send("cli:workflow:get", Method::WorkflowGet(target), Pending::Raw))
        } else {
            Plan::Go(send("cli:workflow:show", Method::WorkflowGet(target), Pending::Show))
        },
        Err(m) => Plan::Refuse(m),
    }
}

pub open spec fn create_plan(args: Seq<String>, plan: Plan) -> bool {
    match create_args(texts(args)) {
        Err(e) => refuses(plan, e),
        Ok((file, name, json)) => plan matches Plan::Go(
            Step::ReadFile { path, what: Reading::CreateDefinition { name: n, json: j } },
        ) && path@ == file && opt_text(n) == name && j == json,
    }
}

pub fn workflow_create(args: &[String]) -> (r: Plan)
    ensures
        create_plan(args@, r),
{
    match parse_workflow_create_args(args) {
        Ok((path, name, json)) => Plan::Go(
            Step::ReadFile { path, what: Reading::CreateDefinition { name, json } },
        ),
        Err(m) => Plan::Refuse(m),
    }
}

/// The text that stands for a change that was not described.
pub open spec fn text_or_empty(text: Option<Seq<char>>) -> Seq<char> {
    match text {
        Some(t) => t,
        None => Seq::empty(),
    }
}

pub open spec fn update_plan(args: Seq<String>, plan: Plan) -> bool {
    match update_args(texts(args)) {
        Err(e) => refuses(plan, e),
        Ok((id, file, summary, json)) => plan matches Plan::Go(
            Step::ReadFile {
                path,
                what: Reading::UpdateDefinition { workflow_id, change_summary, json: j },
            },
        ) && path@ == file && workflow_id@ == id && change_summary@ == text_or_empty(summary) && j
            == json,
    }
}

pub fn workflow_update(args: &[String]) -> (r: Plan)
    ensures
        update_plan(args@, r),
{
    match parse_workflow_update_args(args) {
        Ok((workflow_id, path, summary, json)) => {
            let change_summary = match summary {
                Some(s) => s,
                None => String::new(),
            };
            Plan::Go(
                Step::ReadFile {
                    path,
                    what: Reading::UpdateDefinition { workflow_id, change_summary, json },
                },
            )
        },
        Err(m) => Plan::Refuse(m),
    }
}

// Runs.

/// A run whose arguments are named is checked against the declared ones first.
pub open spec fn run_start_plan(args: Seq<String>, plan: Plan) -> bool {
    match run_start_args(texts(args)) {
        Err(e) => refuses(plan, e),
        Ok((target, f)) => {
            ||| goes(plan, "cli:workflow:run:start"@) matches Some(
                (Method::WorkflowRun(p), Pending::Run { json }),
            ) && p.args.keys().len() == 0 && run_start_is(p, target, f) && json == f.json
            ||| goes(plan, "cli:workflow:run:start:precheck"@) matches Some(
                (Method::WorkflowGet(t), Pending::RunPrecheck { params: p, json }),
            ) && p.args.keys().len() > 0 && run_start_is(p, target, f) && json == f.json
                && t.workflow_id@ == target
        },
    }
}

pub fn workflow_run_start(args: &[String]) -> (r: Plan)
    ensures
        run_start_plan(args@, r),
{
    match parse_workflow_run_start_args(args) {
        Ok((params, json)) => if params.args.entries.len() == 0 {
            Plan::Go(
                send(
                    "cli:workflow:run:start",
                    Method::WorkflowRun(params),
                    Pending::Run { json },
                ),
            )
        } else {
            let target = WorkflowTarget { workflow_id: params.workflow_id.clone() };
            Plan::Go(
                send(
                    "cli:workflow:run:start:precheck",
                    Method::WorkflowGet(target),
                    Pending::RunPrecheck { params, json },
                ),
            )
        },
        Err(m) => Plan::Refuse(m),
    }
}

pub open spec fn run_list_plan(args: Seq<String>, plan: Plan) -> bool {
    if args.len() == 0 {
        refuses(plan, RUN_LIST_USAGE@)
    } else {
        match run_list_flags(texts(args), 1, None, false) {
            Err(e) => refuses(plan, e),
            Ok((limit, _)) => goes(plan, "cli:workflow:run:list"@) matches Some(
                (Method::WorkflowRunList(p), Pending::Raw),
            ) && p.workflow_id == Some(args[0]) && p.limit == limit,
        }
    }
}

pub fn workflow_run_list(args: &[String]) -> (r: Plan)
    ensures
        run_list_plan(args@, r),
{
    match parse_workflow_run_list_args(args) {
        Ok((params, _)) => Plan::Go(
            send("cli:workflow:run:list", Method::WorkflowRunList(params), Pending::Raw),
        ),
        Err(m) => Plan::Refuse(m),
    }
}

pub open spec fn run_show_plan(args: Seq<String>, plan: Plan) -> bool {
    match operands_then_json(texts(args), 1) {
        None => refuses(plan, RUN_SHOW_USAGE@),
        Some(j) => goes(plan, "cli:workflow:run:show"@) matches Some(
            (Method::WorkflowRunGet(t), Pending::Run { json }),
        ) && t.run_id == args[0] && json == j,
    }
}

pub fn workflow_run_show(args: &[String]) -> (r: Plan)
    ensures
        run_show_plan(args@, r),
{
    match parse_workflow_run_show_args(args) {
        Ok((target, json)) => Plan::Go(
            send("cli:workflow:run:show", Method::WorkflowRunGet(target), Pending::Run { json }),
        ),
        Err(m) => Plan::Refuse(m),
    }
}

pub open spec fn run_cancel_plan(args: Seq<String>, plan: Plan) -> bool {
    match operands_then_json(texts(args), 1) {
        None => refuses(plan, RUN_CANCEL_USAGE@),
        Some(j) => goes(plan, "cli:workflow:run:cancel"@) matches Some(
            (Method::WorkflowRunCancel(t), Pending::Mutation { json }),
        ) && t.run_id == args[0] && json == j,
    }
}

pub fn workflow_run_cancel(args: &[String]) -> (r: Plan)
    ensures
        run_cancel_plan(args@, r),
{
    match parse_workflow_run_cancel_args(args) {
        Ok((target, json)) => Plan::Go(
            send(
                "cli:workflow:run:cancel",
                Method::WorkflowRunCancel(target),
                Pending::Mutation { json },
            ),
        ),
        Err(m) => Plan::Refuse(m),
    }
}

pub open spec fn run_finish_plan(args: Seq<String>, env: WorkflowEnv, plan: Plan) -> bool {
    match run_finish_args(texts(args), opt_text(env.run_id)) {
        Err(e) => refuses(plan, e),
        Ok((run, f)) => goes(plan, "cli:workflow:run:finish"@) matches Some(
            (Method::WorkflowRunFinish(p), Pending::Mutation { json }),
        ) && p.run_id@ == run && opt_text(p.summary) == f.summary && opt_text(p.summary_file)
            == f.summary_file && opt_text(p.outcome) == f.outcome && json == f.json,
    }
}

pub fn workflow_run_finish(args: &[String], env: &WorkflowEnv) -> (r: Plan)
    ensures
        run_finish_plan(args@, *env, r),
{
    match parse_workflow_run_finish_args(args, copy_opt(&env.run_id)) {
        Ok((params, json)) => Plan::Go(
            send(
                "cli:workflow:run:finish",
                Method::WorkflowRunFinish(params),
                Pending::Mutation { json },
            ),
        ),
        Err(m) => Plan::Refuse(m),
    }
}

/// A message given as a file is read before it is sent.
pub open spec fn run_message_plan(args: Seq<String>, env: WorkflowEnv, plan: Plan) -> bool {
    match run_message_args(texts(args), opt_text(env.run_id)) {
        Err(e) => refuses(plan, e),
        Ok((run, f)) => match f.text {
            Some(text) => goes(plan, "cli:workflow:run:message"@) matches Some(
                (Method::WorkflowRunMessage(p), Pending::Mutation { json }),
            ) && p.run_id@ == run && Some(p.target@) == f.target && p.text@ == text && opt_text(
                p.priority,
            ) == f.priority && json == f.json,
            None => plan matches Plan::Go(
                Step::ReadFile { path, what: Reading::Message { request: p, json } },
            ) && Some(path@) == f.text_file && p.run_id@ == run && Some(p.target@) == f.target
                && opt_text(p.priority) == f.priority && json == f.json,
        },
    }
}

pub fn workflow_run_message(args: &[String], env: &WorkflowEnv) -> (r: Plan)
    ensures
        run_message_plan(args@, *env, r),
{
    match parse_workflow_run_message_args(args, copy_opt(&env.run_id)) {
        Ok((request, json)) => match request.source {
            MessageSource::Text(text) => Plan::Go(
                send(
                    "cli:workflow:run:message",
                    Method::WorkflowRunMessage(
                        WorkflowRunMessageParams {
                            run_id: request.run_id,
                            target: request.target,
                            text,
                            priority: request.priority,
                        },
                    ),
                    Pending::Mutation { json },
                ),
            ),
            MessageSource::File(path) => {
                let again = RunMessageRequest {
                    run_id: request.run_id,
                    target: request.target,
                    source: MessageSource::File(path.clone()),
                    priority: request.priority,
                };
                Plan::Go(
                    Step::ReadFile { path, what: Reading::Message { request: again, json } },
                )
            },
        },
        Err(m) => Plan::Refuse(m),
    }
}

/// A session that belongs to no run has nothing to report, and no session fails over its
/// report.
pub open spec fn report_session_plan(args: Seq<String>, env: WorkflowEnv, plan: Plan) -> bool {
    match report_session_flags(texts(args), 0, None, false, env.agent_name@) {
        Err(e) => plan matches Plan::Excuse(m) && m@ == e,
        Ok((flag, j)) => match flag_or_env(flag, opt_text(env.run_id)) {
            None => plan is Nothing,
            Some(run) => plan matches Plan::Go(Step::ReadHook { run_id, json }) && run_id@ == run
                && json == j,
        },
    }
}

pub fn workflow_run_report_session(args: &[String], env: &WorkflowEnv) -> (r: Plan)
    ensures
        report_session_plan(args@, *env, r),
{
    match parse_report_session_args(args, copy_opt(&env.run_id), env.agent_name.as_str()) {
        Ok((run, json)) => match run {
            Some(run_id) => Plan::Go(Step::ReadHook { run_id, json }),
            None => Plan::Nothing,
        },
        Err(m) => Plan::Excuse(m),
    }
}

// Nodes.

pub open spec fn node_show_plan(args: Seq<String>, plan: Plan) -> bool {
    match operands_then_json(texts(args), 2) {
        None => refuses(plan, NODE_SHOW_USAGE@),
        Some(j) => goes(plan, "cli:workflow:node:show"@) matches Some(
            (Method::WorkflowNodeGet(t), Pending::Node { json }),
        ) && t.run_id == args[0] && t.path == args[1] && json == j,
    }
}

pub fn workflow_node_show(args: &[String]) -> (r: Plan)
    ensures
        node_show_plan(args@, r),
{
    match parse_workflow_node_show_args(args) {
        Ok((target, json)) => Plan::Go(
            send("cli:workflow:node:show", Method::WorkflowNodeGet(target), Pending::Node { json }),
        ),
        Err(m) => Plan::Refuse(m),
    }
}

pub open spec fn node_steer_plan(args: Seq<String>, plan: Plan) -> bool {
    if args.len() < 3 {
        refuses(plan, NODE_STEER_USAGE@)
    } else {
        goes(plan, "cli:workflow:node:steer"@) matches Some(
            (Method::WorkflowNodeSteer(p), Pending::Mutation { json }),
        ) && p.run_id == args[0] && p.path == args[1] && p.text@ == join(
            steer_words(texts(args)),
            " "@,
        ) && json == steer_json(texts(args))
    }
}

pub fn workflow_node_steer(args: &[String]) -> (r: Plan)
    ensures
        node_steer_plan(args@, r),
{
    match parse_workflow_node_steer_args(args) {
        Ok((params, json)) => Plan::Go(
            send(
                "cli:workflow:node:steer",
                Method::WorkflowNodeSteer(params),
                Pending::Mutation { json },
            ),
        ),
        Err(m) => Plan::Refuse(m),
    }
}

pub open spec fn node_interrupt_plan(args: Seq<String>, plan: Plan) -> bool {
    match operands_then_json(texts(args), 2) {
        None => refuses(plan, NODE_INTERRUPT_USAGE@),
        Some(j) => goes(plan, "cli:workflow:node:interrupt"@) matches Some(
            (Method::WorkflowNodeInterrupt(t), Pending::Mutation { json }),
        ) && t.run_id == args[0] && t.path == args[1] && json == j,
    }
}

pub fn workflow_node_interrupt(args: &[String]) -> (r: Plan)
    ensures
        node_interrupt_plan(args@, r),
{
    match parse_workflow_node_pair_args(args, NODE_INTERRUPT_USAGE) {
        Ok((target, json)) => Plan::Go(
            send(
                "cli:workflow:node:interrupt",
                Method::WorkflowNodeInterrupt(target),
                Pending::Mutation { json },
            ),
        ),
        Err(m) => Plan::Refuse(m),
    }
}

pub open spec fn node_restart_plan(args: Seq<String>, plan: Plan) -> bool {
    match operands_then_json(texts(args), 2) {
        None => refuses(plan, NODE_RESTART_USAGE@),
        Some(j) => goes(plan, "cli:workflow:node:restart"@) matches Some(
            (Method::WorkflowNodeRestart(t), Pending::Mutation { json }),
        ) && t.run_id == args[0] && t.path == args[1] && json == j,
    }
}

pub fn workflow_node_restart(args: &[String]) -> (r: Plan)
    ensures
        node_restart_plan(args@, r),
{
    match parse_workflow_node_pair_args(args, NODE_RESTART_USAGE) {
        Ok((target, json)) => Plan::Go(
            send(
                "cli:workflow:node:restart",
                Method::WorkflowNodeRestart(target),
                Pending::Mutation { json },
            ),
        ),
        Err(m) => Plan::Refuse(m),
    }
}

/// A node reports the file it was told to, or the one in its own directory.
pub open spec fn node_complete_plan(args: Seq<String>, env: WorkflowEnv, plan: Plan) -> bool {
    match complete_flags(texts(args), 0, None) {
        Err(e) => refuses(plan, e),
        Ok(file) => match node_env(env) {
            Err(m) => fails(plan, "missing_node_environment"@, m, true),
            Ok(node) => plan matches Plan::Go(
                Step::ReadFile { path, what: Reading::NodeResult { env: e } },
            ) && e == node && path@ == (match file {
                Some(f) => f,
                None => result_path(node.node_dir@, env.windows),
            }),
        },
    }
}

pub fn workflow_node_complete(args: &[String], env: &WorkflowEnv) -> (r: Plan)
    ensures
        node_complete_plan(args@, *env, r),
{
    let file = match parse_workflow_node_complete_args(args) {
        Ok(file) => file,
        Err(m) => {
            return Plan::Refuse(m);
        },
    };
    match read_node_complete_env(env) {
        Err(message) => Plan::Fail {
            code: "missing_node_environment".to_owned(),
            message,
            json: true,
        },
        Ok(node) => {
            let path = match file {
                Some(f) => f,
                None => default_node_result_path(node.node_dir.as_str(), env.windows),
            };
            Plan::Go(Step::ReadFile { path, what: Reading::NodeResult { env: node } })
        },
    }
}

pub open spec fn node_expand_plan(args: Seq<String>, env: WorkflowEnv, plan: Plan) -> bool {
    match expand_args(texts(args)) {
        Err(e) => refuses(plan, e),
        Ok(f) => match env.node_token {
            None => fails(
                plan,
                "missing_node_environment"@,
                missing_variable(NODE_ENV_NODE_TOKEN@),
                f.json,
            ),
            Some(token) => goes(plan, "cli:workflow:node:expand"@) matches Some(
                (Method::WorkflowNodeExpand(p), Pending::Expand { json }),
            ) && p.run_id == args[0] && p.path == args[1] && p.token == token && Some(p.template@)
                == f.template && Some(p.label@) == f.label && p.inputs.wf() && text_values(
                p.inputs@,
            ) == f.inputs && p.count == f.count && json == f.json,
        },
    }
}

pub fn workflow_node_expand(args: &[String], env: &WorkflowEnv) -> (r: Plan)
    ensures
        node_expand_plan(args@, *env, r),
{
    match parse_workflow_node_expand_args(args) {
        Err(m) => Plan::Refuse(m),
        Ok((params, json)) => match required_env(&env.node_token, NODE_ENV_NODE_TOKEN) {
            Err(message) => Plan::Fail {
                code: "missing_node_environment".to_owned(),
                message,
                json,
            },
            Ok(token) => {
                let mut params = params;
                params.token = token;
                Plan::Go(
                    send(
                        "cli:workflow:node:expand",
                        Method::WorkflowNodeExpand(params),
                        Pending::Expand { json },
                    ),
                )
            },
        },
    }
}

pub open spec fn node_interrogate_plan(args: Seq<String>, plan: Plan) -> bool {
    match interrogate_args(texts(args)) {
        Err(e) => refuses(plan, e),
        Ok(f) => goes(plan, "cli:workflow:node:interrogate"@) matches Some(
            (Method::WorkflowNodeInterrogate(p), Pending::Interrogate { json }),
        ) && p.run_id == args[0] && p.path == args[1] && p.mode == f.mode && opt_text(p.note)
            == f.note && json == f.json,
    }
}

pub fn workflow_node_interrogate(args: &[String]) -> (r: Plan)
    ensures
        node_interrogate_plan(args@, r),
{
    match parse_workflow_node_interrogate_args(args) {
        Ok((params, json)) => Plan::Go(
            send(
                "cli:workflow:node:interrogate",
                Method::WorkflowNodeInterrogate(params),
                Pending::Interrogate { json },
            ),
        ),
        Err(m) => Plan::Refuse(m),
    }
}

// Summaries.

pub open spec fn summary_show_plan(args: Seq<String>, plan: Plan) -> bool {
    match operands_then_json(texts(args), 1) {
        None => refuses(plan, SUMMARY_SHOW_USAGE@),
        Some(j) => goes(plan, "cli:workflow:summary:show"@) matches Some(
            (Method::WorkflowSummaryGet(t), Pending::SummaryShow { json }),
        ) && t.run_id == args[0] && json == j,
    }
}

pub fn workflow_summary_show(args: &[String]) -> (r: Plan)
    ensures
        summary_show_plan(args@, r),
{
    match parse_workflow_summary_show_args(args) {
        Ok((target, json)) => Plan::Go(
            send(
                "cli:workflow:summary:show",
                Method::WorkflowSummaryGet(target),
                Pending::SummaryShow { json },
            ),
        ),
        Err(m) => Plan::Refuse(m),
    }
}

pub open spec fn summary_list_plan(args: Seq<String>, plan: Plan) -> bool {
    match summary_list_flags(texts(args), 0, None, None, false) {
        Err(e) => refuses(plan, e),
        Ok((w, l, j)) => goes(plan, "cli:workflow:summary:list"@) matches Some(
            (Method::WorkflowSummaryList(p), Pending::SummaryList { json }),
        ) && opt_text(p.workflow_id) == w && p.limit == l && json == j,
    }
}

pub fn workflow_summary_list(args: &[String]) -> (r: Plan)
    ensures
        summary_list_plan(args@, r),
{
    match parse_workflow_summary_list_args(args) {
        Ok((params, json)) => Plan::Go(
            send(
                "cli:workflow:summary:list",
                Method::WorkflowSummaryList(params),
                Pending::SummaryList { json },
            ),
        ),
        Err(m) => Plan::Refuse(m),
    }
}

// Reviews.

pub open spec fn review_start_plan(args: Seq<String>, plan: Plan) -> bool {
    match operands_then_json(texts(args), 1) {
        None => refuses(plan, REVIEW_START_USAGE@),
        Some(j) => goes(plan, "cli:workflow:review:start"@) matches Some(
            (Method::WorkflowReviewStart(t), Pending::Mutation { json }),
        ) && t.run_id == args[0] && json == j,
    }
}

pub fn workflow_review_start(args: &[String]) -> (r: Plan)
    ensures
        review_start_plan(args@, r),
{
    match parse_workflow_review_run_target_args(args, REVIEW_START_USAGE) {
        Ok((target, json)) => Plan::Go(
            send(
                "cli:workflow:review:start",
                Method::WorkflowReviewStart(target),
                Pending::Mutation { json },
            ),
        ),
        Err(m) => Plan::Refuse(m),
    }
}

pub open spec fn review_show_plan(args: Seq<String>, plan: Plan) -> bool {
    match operands_then_json(texts(args), 1) {
        None => refuses(plan, REVIEW_SHOW_USAGE@),
        Some(j) => goes(plan, "cli:workflow:review:show"@) matches Some(
            (Method::WorkflowReviewGet(t), Pending::ReviewShow { json }),
        ) && t.run_id == args[0] && json == j,
    }
}

pub fn workflow_review_show(args: &[String]) -> (r: Plan)
    ensures
        review_show_plan(args@, r),
{
    match parse_workflow_review_run_target_args(args, REVIEW_SHOW_USAGE) {
        Ok((target, json)) => Plan::Go(
            send(
                "cli:workflow:review:show",
                Method::WorkflowReviewGet(target),
                Pending::ReviewShow { json },
            ),
        ),
        Err(m) => Plan::Refuse(m),
    }
}

pub open spec fn review_apply_plan(args: Seq<String>, plan: Plan) -> bool {
    match apply_args(texts(args)) {
        Err(e) => refuses(plan, e),
        Ok(f) => goes(plan, "cli:workflow:review:apply"@) matches Some(
            (Method::WorkflowReviewApply(p), Pending::Mutation { json }),
        ) && p.run_id == args[0] && texts(p.accept@) == f.accept && json == f.json,
    }
}

pub fn workflow_review_apply(args: &[String]) -> (r: Plan)
    ensures
        review_apply_plan(args@, r),
{
    match parse_workflow_review_apply_args(args) {
        Ok((params, json)) => Plan::Go(
            send(
                "cli:workflow:review:apply",
                Method::WorkflowReviewApply(params),
                Pending::Mutation { json },
            ),
        ),
        Err(m) => Plan::Refuse(m),
    }
}

pub open spec fn review_answer_plan(args: Seq<String>, env: WorkflowEnv, plan: Plan) -> bool {
    match answer_args(texts(args), opt_text(env.review_run_id), opt_text(env.review_member)) {
        Err(e) => refuses(plan, e),
        Ok((run, member, file, j)) => goes(plan, "cli:workflow:review:answer"@) matches Some(
            (Method::WorkflowReviewAnswer(p), Pending::Mutation { json }),
        ) && p.run_id@ == run && p.member@ == member && p.answer is None && opt_text(
            p.answer_file,
        ) == Some(file) && json == j,
    }
}

pub fn workflow_review_answer(args: &[String], env: &WorkflowEnv) -> (r: Plan)
    ensures
        review_answer_plan(args@, *env, r),
{
    match parse_workflow_review_answer_args(
        args,
        copy_opt(&env.review_run_id),
        copy_opt(&env.review_member),
    ) {
        Ok((params, json)) => Plan::Go(
            send(
                "cli:workflow:review:answer",
                Method::WorkflowReviewAnswer(params),
                Pending::Mutation { json },
            ),
        ),
        Err(m) => Plan::Refuse(m),
    }
}

pub open spec fn review_report_plan(args: Seq<String>, env: WorkflowEnv, plan: Plan) -> bool {
    match findings_args(texts(args), opt_text(env.review_run_id)) {
        Err(e) => refuses(plan, e),
        Ok((run, file, j)) => goes(plan, "cli:workflow:review:report"@) matches Some(
            (Method::WorkflowReviewReport(p), Pending::Mutation { json }),
        ) && p.run_id@ == run && p.findings is None && opt_text(p.findings_file) == Some(file)
            && json == j,
    }
}

pub fn workflow_review_report(args: &[String], env: &WorkflowEnv) -> (r: Plan)
    ensures
        review_report_plan(args@, *env, r),
{
    match parse_workflow_review_report_args(args, copy_opt(&env.review_run_id)) {
        Ok((params, json)) => Plan::Go(
            send(
                "cli:workflow:review:report",
                Method::WorkflowReviewReport(params),
                Pending::Mutation { json },
            ),
        ),
        Err(m) => Plan::Refuse(m),
    }
}

// ---------------------------------------------------------------------------
// All of them
// ---------------------------------------------------------------------------

/// What `verb` does with its arguments.
pub open spec fn verb_plan(verb: Verb, args: Seq<String>, env: WorkflowEnv, plan: Plan) -> bool {
    match verb {
        Verb::List => list_plan(args, plan),
        Verb::Show => show_plan(args, plan),
        Verb::Create => create_plan(args, plan),
        Verb::Update => update_plan(args, plan),
        Verb::RunStart => run_start_plan(args, plan),
        Verb::RunList => run_list_plan(args, plan),
        Verb::RunShow => run_show_plan(args, plan),
        Verb::RunCancel => run_cancel_plan(args, plan),
        Verb::RunFinish => run_finish_plan(args, env, plan),
        Verb::RunMessage => run_message_plan(args, env, plan),
        Verb::RunReportSession => report_session_plan(args, env, plan),
        Verb::NodeShow => node_show_plan(args, plan),
        Verb::NodeSteer => node_steer_plan(args, plan),
        Verb::NodeInterrupt => node_interrupt_plan(args, plan),
        Verb::NodeRestart => node_restart_plan(args, plan),
        Verb::NodeComplete => node_complete_plan(args, env, plan),
        Verb::NodeExpand => node_expand_plan(args, env, plan),
        Verb::NodeInterrogate => node_interrogate_plan(args, plan),
        Verb::SummaryShow => summary_show_plan(args, plan),
        Verb::SummaryList => summary_list_plan(args, plan),
        Verb::ReviewStart => review_start_plan(args, plan),
        Verb::ReviewShow => review_show_plan(args, plan),
        Verb::ReviewApply => review_apply_plan(args, plan),
        Verb::ReviewAnswer => review_answer_plan(args, env, plan),
        Verb::ReviewReport => review_report_plan(args, env, plan),
    }
}

pub fn plan_verb(verb: Verb, args: &[String], env: &WorkflowEnv) -> (r: Plan)
    ensures
        verb_plan(verb, args@, *env, r),
{
    match verb {
        Verb::List => workflow_list(args),
        Verb::Show => workflow_show(args),
        Verb::Create => workflow_create(args),
        Verb::Update => workflow_update(args),
        Verb::RunStart => workflow_run_start(args),
        Verb::RunList => workflow_run_list(args),
        Verb::RunShow => workflow_run_show(args),
        Verb::RunCancel => workflow_run_cancel(args),
        Verb::RunFinish => workflow_run_finish(args, env),
        Verb::RunMessage => workflow_run_message(args, env),
        Verb::RunReportSession => workflow_run_report_session(args, env),
        Verb::NodeShow => workflow_node_show(args),
        Verb::NodeSteer => workflow_node_steer(args),
        Verb::NodeInterrupt => workflow_node_interrupt(args),
        Verb::NodeRestart => workflow_node_restart(args),
        Verb::NodeComplete => workflow_node_complete(args, env),
        Verb::NodeExpand => workflow_node_expand(args, env),
        Verb::NodeInterrogate => workflow_node_interrogate(args),
        Verb::SummaryShow => workflow_summary_show(args),
        Verb::SummaryList => workflow_summary_list(args),
        Verb::ReviewStart => workflow_review_start(args),
        Verb::ReviewShow => workflow_review_show(args),
        Verb::ReviewApply => workflow_review_apply(args),
        Verb::ReviewAnswer => workflow_review_answer(args, env),
        Verb::ReviewReport => workflow_review_report(args, env),
    }
}

} // verus!
