//! Arguments of `kvx workflow run`.
//!
//! Flags are read from left to right. The first one that is unknown or lacks its
//! value decides the complaint; a repeated flag keeps its last value, except those
//! that collect.

use crate::cli::values::{
    assignment_of, flag_or, flag_or_env, parse_arg_assignment, parse_u32_flag,
    parse_workflow_tier, text_values, tier_of, u32_flag,
};
use crate::ordered::TextMap;
use crate::text::{cat2, cat3, opt_text, str_eq, texts};
use crate::wire::{
    WorkflowRestoreRequest, WorkflowRunFinishParams, WorkflowRunListParams, WorkflowRunParams,
    WorkflowRunTarget, WorkflowTier,
};
use vstd::prelude::*;

verus! {

broadcast use {crate::text::group_texts, crate::cli::values::lemma_text_values_insert};

// ---------------------------------------------------------------------------
// run start
// ---------------------------------------------------------------------------

pub const RUN_START_USAGE: &'static str =
    "usage: kvx workflow run start <name|id> [--tier <tier>] [--arg KEY=VALUE]... [--restore-from <run-id>] [--restore <selector>]... [--restore-allow-changed] [--no-prior-summaries] [--json]";

/// The flags of `run start`.
pub struct RunStartFlags {
    pub tier: Option<WorkflowTier>,
    pub args: Map<Seq<char>, Seq<char>>,
    pub json: bool,
    pub restore_from: Option<Seq<char>>,
    pub restore: Seq<Seq<char>>,
    pub allow_changed: bool,
    pub no_prior_summaries: bool,
}

/// The flags before any is given.
pub open spec fn run_start_defaults() -> RunStartFlags {
    RunStartFlags {
        tier: None,
        args: Map::empty(),
        json: false,
        restore_from: None,
        restore: Seq::empty(),
        allow_changed: false,
        no_prior_summaries: false,
    }
}

/// The flags of `args` from place `i` on, added to `f`.
pub open spec fn run_start_flags(args: Seq<Seq<char>>, i: int, f: RunStartFlags) -> Result<
    RunStartFlags,
    Seq<char>,
>
    decreases args.len() - i,
{
    if i >= args.len() {
        Ok(f)
    } else if args[i] == "--tier"@ {
        if i + 1 >= args.len() {
            Err("missing value for --tier"@)
        } else {
            match tier_of(args[i + 1]) {
                Ok(t) => run_start_flags(args, i + 2, RunStartFlags { tier: Some(t), ..f }),
                Err(m) => Err(m),
            }
        }
    } else if args[i] == "--arg"@ {
        if i + 1 >= args.len() {
            Err("missing value for --arg"@)
        } else {
            match assignment_of(args[i + 1]) {
                Ok((k, v)) => run_start_flags(
                    args,
                    i + 2,
                    RunStartFlags { args: f.args.insert(k, v), ..f },
                ),
                Err(m) => Err(m),
            }
        }
    } else if args[i] == "--restore-from"@ {
        if i + 1 >= args.len() {
            Err("missing value for --restore-from"@)
        } else {
            run_start_flags(args, i + 2, RunStartFlags { restore_from: Some(args[i + 1]), ..f })
        }
    } else if args[i] == "--restore"@ {
        if i + 1 >= args.len() {
            Err("missing value for --restore"@)
        } else {
            run_start_flags(
                args,
                i + 2,
                RunStartFlags { restore: f.restore.push(args[i + 1]), ..f },
            )
        }
    } else if args[i] == "--restore-allow-changed"@ {
        run_start_flags(args, i + 1, RunStartFlags { allow_changed: true, ..f })
    } else if args[i] == "--no-prior-summaries"@ {
        run_start_flags(args, i + 1, RunStartFlags { no_prior_summaries: true, ..f })
    } else if args[i] == "--json"@ {
        run_start_flags(args, i + 1, RunStartFlags { json: true, ..f })
    } else {
        Err("unknown option: "@ + args[i])
    }
}

/// The target and flags of `run start`. What to restore, and how, may only be said
/// together with where to restore it from.
pub open spec fn run_start_args(args: Seq<Seq<char>>) -> Result<
    (Seq<char>, RunStartFlags),
    Seq<char>,
> {
    if args.len() == 0 {
        Err(RUN_START_USAGE@)
    } else {
        match run_start_flags(args, 1, run_start_defaults()) {
            Err(m) => Err(m),
            Ok(f) => if f.restore_from is None && f.restore.len() > 0 {
                Err("--restore requires --restore-from"@)
            } else if f.restore_from is None && f.allow_changed {
                Err("--restore-allow-changed requires --restore-from"@)
            } else {
                Ok((args[0], f))
            },
        }
    }
}

/// The request that a target and flags stand for.
pub open spec fn run_start_is(p: WorkflowRunParams, target: Seq<char>, f: RunStartFlags) -> bool {
    &&& p.workflow_id@ == target
    &&& p.version is None
    &&& p.tier == f.tier
    &&& p.args.wf()
    &&& text_values(p.args@) == f.args
    &&& match (p.restore_from, f.restore_from) {
        (Some(r), Some(id)) => r.run_id@ == id && texts(r.nodes@) == f.restore && r.allow_changed
            == f.allow_changed,
        (None, None) => true,
        _ => false,
    }
    &&& p.include_prior_summaries == (if f.no_prior_summaries {
        Some(false)
    } else {
        None
    })
}

/// Reads the arguments of `run start`.
pub fn parse_workflow_run_start_args(args: &[String]) -> (r: Result<
    (WorkflowRunParams, bool),
    String,
>)
    ensures
        match (r, run_start_args(texts(args@))) {
            (Ok((p, json)), Ok((target, f))) => run_start_is(p, target, f) && json == f.json,
            (Err(m), Err(e)) => m@ == e,
            _ => false,
        },
{
    let ghost all = texts(args@);
    if args.len() == 0 {
        return Err(RUN_START_USAGE.to_owned());
    }
    let mut tier: Option<WorkflowTier> = None;
    let mut run_args: TextMap<String> = TextMap::new();
    let mut json = false;
    let mut restore_from: Option<String> = None;
    let mut restore_nodes: Vec<String> = Vec::new();
    let mut allow_changed = false;
    let mut no_prior_summaries = false;
    let mut i: usize = 1;
    let ghost mut f = run_start_defaults();
    proof {
        assert(text_values(run_args@) =~= f.args);
        assert(texts(restore_nodes@) =~= f.restore);
    }
    while i < args.len()
        invariant
            1 <= i <= args@.len(),
            all == texts(args@),
            run_args.wf(),
            f == (RunStartFlags {
                tier,
                args: text_values(run_args@),
                json,
                restore_from: opt_text(restore_from),
                restore: texts(restore_nodes@),
                allow_changed,
                no_prior_summaries,
            }),
            run_start_flags(all, 1, run_start_defaults()) == run_start_flags(all, i as int, f),
        decreases args@.len() - i,
    {
        let arg = args[i].as_str();
        assert(all[i as int] == arg@);
        let has_value = args.len() - i > 1;
        if str_eq(arg, "--tier") {
            if !has_value {
                return Err("missing value for --tier".to_owned());
            }
            assert(all[i + 1] == args@[i + 1]@);
            match parse_workflow_tier(args[i + 1].as_str()) {
                Ok(t) => {
                    tier = Some(t);
                },
                Err(m) => {
                    return Err(m);
                },
            }
            i = i + 2;
        } else if str_eq(arg, "--arg") {
            if !has_value {
                return Err("missing value for --arg".to_owned());
            }
            assert(all[i + 1] == args@[i + 1]@);
            match parse_arg_assignment(args[i + 1].as_str()) {
                Ok((key, value)) => {
                    run_args.insert(key, value);
                },
                Err(m) => {
                    return Err(m);
                },
            }
            i = i + 2;
        } else if str_eq(arg, "--restore-from") {
            if !has_value {
                return Err("missing value for --restore-from".to_owned());
            }
            assert(all[i + 1] == args@[i + 1]@);
            restore_from = Some(args[i + 1].clone());
            i = i + 2;
        } else if str_eq(arg, "--restore") {
            if !has_value {
                return Err("missing value for --restore".to_owned());
            }
            assert(all[i + 1] == args@[i + 1]@);
            restore_nodes.push(args[i + 1].clone());
            i = i + 2;
        } else if str_eq(arg, "--restore-allow-changed") {
            allow_changed = true;
            i = i + 1;
        } else if str_eq(arg, "--no-prior-summaries") {
            no_prior_summaries = true;
            i = i + 1;
        } else if str_eq(arg, "--json") {
            json = true;
            i = i + 1;
        } else {
            return Err(cat2("unknown option: ", arg));
        }
        proof {
            f = RunStartFlags {
                tier,
                args: text_values(run_args@),
                json,
                restore_from: opt_text(restore_from),
                restore: texts(restore_nodes@),
                allow_changed,
                no_prior_summaries,
            };
        }
    }
    let restore: Option<WorkflowRestoreRequest> = match restore_from {
        Some(run_id) => Some(
            WorkflowRestoreRequest { run_id, nodes: restore_nodes, allow_changed },
        ),
        None => {
            if restore_nodes.len() > 0 {
                return Err("--restore requires --restore-from".to_owned());
            }
            if allow_changed {
                return Err("--restore-allow-changed requires --restore-from".to_owned());
            }
            None
        },
    };
    Ok(
        (
            WorkflowRunParams {
                workflow_id: args[0].clone(),
                version: None,
                tier,
                args: run_args,
                restore_from: restore,
                include_prior_summaries: if no_prior_summaries {
                    Some(false)
                } else {
                    None
                },
            },
            json,
        ),
    )
}

/// Restoring is never asked for by halves: an accepted `run start` that names what
/// to restore, or allows changes, also names the run to restore from.
pub proof fn law_restore_needs_a_source(args: Seq<Seq<char>>)
    ensures
        match run_start_args(args) {
            Ok((_, f)) => f.restore.len() > 0 || f.allow_changed ==> f.restore_from is Some,
            Err(_) => true,
        },
{
}

// ---------------------------------------------------------------------------
// run list
// ---------------------------------------------------------------------------

pub const RUN_LIST_USAGE: &'static str =
    "usage: kvx workflow run list <name|id> [--limit N] [--json]";

/// The flags of `run list` from place `i` on: the limit and whether JSON is wanted.
pub open spec fn run_list_flags(
    args: Seq<Seq<char>>,
    i: int,
    limit: Option<u32>,
    json: bool,
) -> Result<(Option<u32>, bool), Seq<char>>
    decreases args.len() - i,
{
    if i >= args.len() {
        Ok((limit, json))
    } else if args[i] == "--limit"@ {
        if i + 1 >= args.len() {
            Err("missing value for --limit"@)
        } else {
            match u32_flag("--limit"@, args[i + 1]) {
                Ok(n) => run_list_flags(args, i + 2, Some(n), json),
                Err(m) => Err(m),
            }
        }
    } else if args[i] == "--json"@ {
        run_list_flags(args, i + 1, limit, true)
    } else {
        Err("unknown option: "@ + args[i])
    }
}

/// Reads the arguments of `run list`.
pub fn parse_workflow_run_list_args(args: &[String]) -> (r: Result<
    (WorkflowRunListParams, bool),
    String,
>)
    ensures
        match r {
            Ok((p, json)) => args@.len() > 0 && run_list_flags(texts(args@), 1, None, false)
                == Ok::<(Option<u32>, bool), Seq<char>>((p.limit, json)) && p.workflow_id == Some(
                args@[0],
            ),
            Err(m) => if args@.len() == 0 {
                m@ == RUN_LIST_USAGE@
            } else {
                run_list_flags(texts(args@), 1, None, false) == Err::<
                    (Option<u32>, bool),
                    Seq<char>,
                >(m@)
            },
        },
{
    let ghost all = texts(args@);
    if args.len() == 0 {
        return Err(RUN_LIST_USAGE.to_owned());
    }
    let mut limit: Option<u32> = None;
    let mut json = false;
    let mut i: usize = 1;
    while i < args.len()
        invariant
            1 <= i <= args@.len(),
            all == texts(args@),
            run_list_flags(all, 1, None, false) == run_list_flags(all, i as int, limit, json),
        decreases args@.len() - i,
    {
        let arg = args[i].as_str();
        assert(all[i as int] == arg@);
        if str_eq(arg, "--limit") {
            if args.len() - i <= 1 {
                return Err("missing value for --limit".to_owned());
            }
            assert(all[i + 1] == args@[i + 1]@);
            match parse_u32_flag("--limit", args[i + 1].as_str()) {
                Ok(n) => {
                    limit = Some(n);
                },
                Err(m) => {
                    return Err(m);
                },
            }
            i = i + 2;
        } else if str_eq(arg, "--json") {
            json = true;
            i = i + 1;
        } else {
            return Err(cat2("unknown option: ", arg));
        }
    }
    Ok((WorkflowRunListParams { workflow_id: Some(args[0].clone()), limit }, json))
}

// ---------------------------------------------------------------------------
// run show, run cancel
// ---------------------------------------------------------------------------

pub const RUN_SHOW_USAGE: &'static str = "usage: kvx workflow run show <run_id> [--json]";

pub const RUN_CANCEL_USAGE: &'static str = "usage: kvx workflow run cancel <run_id> [--json]";

/// `n` operands, and after them nothing or `--json`: whether JSON is wanted.
pub open spec fn operands_then_json(args: Seq<Seq<char>>, n: int) -> Option<bool> {
    if args.len() == n {
        Some(false)
    } else if args.len() == n + 1 && args[n] == "--json"@ {
        Some(true)
    } else {
        None
    }
}

/// Whether JSON is wanted, where `args` are `n` operands and at most `--json`.
pub fn json_after(args: &[String], n: usize) -> (r: Option<bool>)
    ensures
        r == operands_then_json(texts(args@), n as int),
        r is Some ==> args@.len() >= n,
{
    if args.len() == n {
        Some(false)
    } else if args.len() > n && args.len() - n == 1 && str_eq(args[n].as_str(), "--json") {
        Some(true)
    } else {
        None
    }
}

/// What a verb with one run as its operand reads from its arguments.
pub open spec fn run_target_is(
    r: Result<(WorkflowRunTarget, bool), String>,
    args: Seq<String>,
    usage: Seq<char>,
) -> bool {
    match (r, operands_then_json(texts(args), 1)) {
        (Ok((t, json)), Some(j)) => t.run_id == args[0] && json == j,
        (Err(m), None) => m@ == usage,
        _ => false,
    }
}

/// Reads one run and at most `--json`.
pub fn parse_workflow_review_run_target_args(args: &[String], usage: &str) -> (r: Result<
    (WorkflowRunTarget, bool),
    String,
>)
    ensures
        run_target_is(r, args@, usage@),
{
    match json_after(args, 1) {
        Some(json) => Ok((WorkflowRunTarget { run_id: args[0].clone() }, json)),
        None => Err(usage.to_owned()),
    }
}

pub fn parse_workflow_run_show_args(args: &[String]) -> (r: Result<
    (WorkflowRunTarget, bool),
    String,
>)
    ensures
        run_target_is(r, args@, RUN_SHOW_USAGE@),
{
    parse_workflow_review_run_target_args(args, RUN_SHOW_USAGE)
}

pub fn parse_workflow_run_cancel_args(args: &[String]) -> (r: Result<
    (WorkflowRunTarget, bool),
    String,
>)
    ensures
        run_target_is(r, args@, RUN_CANCEL_USAGE@),
{
    parse_workflow_review_run_target_args(args, RUN_CANCEL_USAGE)
}

// ---------------------------------------------------------------------------
// run finish
// ---------------------------------------------------------------------------

pub const RUN_FINISH_USAGE: &'static str =
    "usage: kvx workflow run finish [--run <run_id>] (--summary-file <path> | --summary <text>) [--outcome <word>] [--json]";

/// The flags of `run finish`.
pub struct RunFinishFlags {
    pub run: Option<Seq<char>>,
    pub summary: Option<Seq<char>>,
    pub summary_file: Option<Seq<char>>,
    pub outcome: Option<Seq<char>>,
    pub json: bool,
}

pub open spec fn run_finish_defaults() -> RunFinishFlags {
    RunFinishFlags { run: None, summary: None, summary_file: None, outcome: None, json: false }
}

/// The complaint about a flag without its value.
pub open spec fn needs_value(flag: Seq<char>, usage: Seq<char>) -> Seq<char> {
    flag + " needs a value\n"@ + usage
}

/// The flags of `run finish` from place `i` on, added to `f`.
pub open spec fn run_finish_flags(args: Seq<Seq<char>>, i: int, f: RunFinishFlags) -> Result<
    RunFinishFlags,
    Seq<char>,
>
    decreases args.len() - i,
{
    if i >= args.len() {
        Ok(f)
    } else if args[i] == "--json"@ {
        run_finish_flags(args, i + 1, RunFinishFlags { json: true, ..f })
    } else if args[i] == "--run"@ || args[i] == "--run-id"@ || args[i] == "--summary"@ || args[i]
        == "--summary-file"@ || args[i] == "--outcome"@ {
        if i + 1 >= args.len() {
            Err(needs_value(args[i], RUN_FINISH_USAGE@))
        } else {
            let v = Some(args[i + 1]);
            run_finish_flags(
                args,
                i + 2,
                if args[i] == "--summary"@ {
                    RunFinishFlags { summary: v, ..f }
                } else if args[i] == "--summary-file"@ {
                    RunFinishFlags { summary_file: v, ..f }
                } else if args[i] == "--outcome"@ {
                    RunFinishFlags { outcome: v, ..f }
                } else {
                    RunFinishFlags { run: v, ..f }
                },
            )
        }
    } else {
        Err(RUN_FINISH_USAGE@)
    }
}

/// What `run finish` is asked: the run, by flag or by environment, and exactly one
/// of the two ways to hand over a summary.
pub open spec fn run_finish_args(args: Seq<Seq<char>>, env: Option<Seq<char>>) -> Result<
    (Seq<char>, RunFinishFlags),
    Seq<char>,
> {
    match run_finish_flags(args, 0, run_finish_defaults()) {
        Err(m) => Err(m),
        Ok(f) => match flag_or_env(f.run, env) {
            None => Err(
                "no run to finish: pass --run <run_id>, or run this from the run's lead pane where KARVEX_WORKFLOW_RUN_ID is exported\n"@
                    + RUN_FINISH_USAGE@,
            ),
            Some(run) => if f.summary is None && f.summary_file is None {
                Err(
                    "a run summary is required: pass --summary-file <path> or --summary <text>\n"@
                        + RUN_FINISH_USAGE@,
                )
            } else if f.summary is Some && f.summary_file is Some {
                Err("pass either --summary or --summary-file, not both\n"@ + RUN_FINISH_USAGE@)
            } else {
                Ok((run, f))
            },
        },
    }
}

/// Reads the arguments of `run finish`.
pub fn parse_workflow_run_finish_args(args: &[String], env_run_id: Option<String>) -> (r: Result<
    (WorkflowRunFinishParams, bool),
    String,
>)
    ensures
        match (r, run_finish_args(texts(args@), opt_text(env_run_id))) {
            (Ok((p, json)), Ok((run, f))) => p.run_id@ == run && opt_text(p.summary) == f.summary
                && opt_text(p.summary_file) == f.summary_file && opt_text(p.outcome) == f.outcome
                && json == f.json,
            (Err(m), Err(e)) => m@ == e,
            _ => false,
        },
{
    let ghost all = texts(args@);
    let mut run: Option<String> = None;
    let mut summary: Option<String> = None;
    let mut summary_file: Option<String> = None;
    let mut outcome: Option<String> = None;
    let mut json = false;
    let mut i: usize = 0;
    let ghost mut f = run_finish_defaults();
    while i < args.len()
        invariant
            i <= args@.len(),
            all == texts(args@),
            f == (RunFinishFlags {
                run: opt_text(run),
                summary: opt_text(summary),
                summary_file: opt_text(summary_file),
                outcome: opt_text(outcome),
                json,
            }),
            run_finish_flags(all, 0, run_finish_defaults()) == run_finish_flags(all, i as int, f),
        decreases args@.len() - i,
    {
        let arg = args[i].as_str();
        assert(all[i as int] == arg@);
        if str_eq(arg, "--json") {
            json = true;
            i = i + 1;
        } else if str_eq(arg, "--run") || str_eq(arg, "--run-id") || str_eq(arg, "--summary")
            || str_eq(arg, "--summary-file") || str_eq(arg, "--outcome") {
            if args.len() - i <= 1 {
                return Err(cat3(arg, " needs a value\n", RUN_FINISH_USAGE));
            }
            assert(all[i + 1] == args@[i + 1]@);
            let value = Some(args[i + 1].clone());
            if str_eq(arg, "--summary") {
                summary = value;
            } else if str_eq(arg, "--summary-file") {
                summary_file = value;
            } else if str_eq(arg, "--outcome") {
                outcome = value;
            } else {
                run = value;
            }
            i = i + 2;
        } else {
            return Err(RUN_FINISH_USAGE.to_owned());
        }
        proof {
            f = RunFinishFlags {
                run: opt_text(run),
                summary: opt_text(summary),
                summary_file: opt_text(summary_file),
                outcome: opt_text(outcome),
                json,
            };
        }
    }
    let run_id = match flag_or(run, env_run_id) {
        Some(id) => id,
        None => {
            return Err(
                cat2(
                    "no run to finish: pass --run <run_id>, or run this from the run's lead pane where KARVEX_WORKFLOW_RUN_ID is exported\n",
                    RUN_FINISH_USAGE,
                ),
            );
        },
    };
    if summary.is_none() && summary_file.is_none() {
        return Err(
            cat2(
                "a run summary is required: pass --summary-file <path> or --summary <text>\n",
                RUN_FINISH_USAGE,
            ),
        );
    }
    if summary.is_some() && summary_file.is_some() {
        return Err(
            cat2("pass either --summary or --summary-file, not both\n", RUN_FINISH_USAGE),
        );
    }
    Ok((WorkflowRunFinishParams { run_id, summary, summary_file, outcome }, json))
}

// ---------------------------------------------------------------------------
// run message
// ---------------------------------------------------------------------------

pub const RUN_MESSAGE_USAGE: &'static str =
    "usage: kvx workflow run message [--run <run_id>] --to <name> (--text <text> | --text-file <path>) [--priority now|next|later] [--json]";

/// The flags of `run message`.
pub struct RunMessageFlags {
    pub run: Option<Seq<char>>,
    pub target: Option<Seq<char>>,
    pub text: Option<Seq<char>>,
    pub text_file: Option<Seq<char>>,
    pub priority: Option<Seq<char>>,
    pub json: bool,
}

pub open spec fn run_message_defaults() -> RunMessageFlags {
    RunMessageFlags {
        run: None,
        target: None,
        text: None,
        text_file: None,
        priority: None,
        json: false,
    }
}

/// The flags of `run message` from place `i` on, added to `f`.
pub open spec fn run_message_flags(args: Seq<Seq<char>>, i: int, f: RunMessageFlags) -> Result<
    RunMessageFlags,
    Seq<char>,
>
    decreases args.len() - i,
{
    if i >= args.len() {
        Ok(f)
    } else if args[i] == "--json"@ {
        run_message_flags(args, i + 1, RunMessageFlags { json: true, ..f })
    } else if args[i] == "--run"@ || args[i] == "--run-id"@ || args[i] == "--to"@ || args[i]
        == "--target"@ || args[i] == "--text"@ || args[i] == "--text-file"@ || args[i]
        == "--priority"@ {
        if i + 1 >= args.len() {
            Err(needs_value(args[i], RUN_MESSAGE_USAGE@))
        } else {
            let v = Some(args[i + 1]);
            run_message_flags(
                args,
                i + 2,
                if args[i] == "--to"@ || args[i] == "--target"@ {
                    RunMessageFlags { target: v, ..f }
                } else if args[i] == "--text"@ {
                    RunMessageFlags { text: v, ..f }
                } else if args[i] == "--text-file"@ {
                    RunMessageFlags { text_file: v, ..f }
                } else if args[i] == "--priority"@ {
                    RunMessageFlags { priority: v, ..f }
                } else {
                    RunMessageFlags { run: v, ..f }
                },
            )
        }
    } else {
        Err(RUN_MESSAGE_USAGE@)
    }
}

/// Where the text of a message comes from.
#[derive(Debug, PartialEq, Eq)]
pub enum MessageSource {
    Text(String),
    File(String),
}

/// A message as the command line asks for it.
#[derive(Debug, PartialEq, Eq)]
pub struct RunMessageRequest {
    pub run_id: String,
    pub target: String,
    pub source: MessageSource,
    pub priority: Option<String>,
}

/// What `run message` is asked: the run and the flags, with a target and exactly one
/// of the two ways to hand over a text.
pub open spec fn run_message_args(args: Seq<Seq<char>>, env: Option<Seq<char>>) -> Result<
    (Seq<char>, RunMessageFlags),
    Seq<char>,
> {
    match run_message_flags(args, 0, run_message_defaults()) {
        Err(m) => Err(m),
        Ok(f) => match flag_or_env(f.run, env) {
            None => Err(
                "no run to message: pass --run <run_id>, or run this from the run's lead pane where KARVEX_WORKFLOW_RUN_ID is exported\n"@
                    + RUN_MESSAGE_USAGE@,
            ),
            Some(run) => if f.target is None {
                Err(
                    "name the session to reach with --to (the run's lead is `team-lead`)\n"@
                        + RUN_MESSAGE_USAGE@,
                )
            } else if f.text is Some && f.text_file is Some {
                Err("pass either --text or --text-file, not both\n"@ + RUN_MESSAGE_USAGE@)
            } else if f.text is None && f.text_file is None {
                Err("a message needs --text or --text-file\n"@ + RUN_MESSAGE_USAGE@)
            } else {
                Ok((run, f))
            },
        },
    }
}

/// Reads the arguments of `run message`.
pub fn parse_workflow_run_message_args(args: &[String], env_run_id: Option<String>) -> (r: Result<
    (RunMessageRequest, bool),
    String,
>)
    ensures
        match (r, run_message_args(texts(args@), opt_text(env_run_id))) {
            (Ok((p, json)), Ok((run, f))) => p.run_id@ == run && Some(p.target@) == f.target
                && opt_text(p.priority) == f.priority && json == f.json && (match p.source {
                MessageSource::Text(t) => Some(t@) == f.text,
                MessageSource::File(path) => f.text is None && Some(path@) == f.text_file,
            }),
            (Err(m), Err(e)) => m@ == e,
            _ => false,
        },
{
    let ghost all = texts(args@);
    let mut run: Option<String> = None;
    let mut target: Option<String> = None;
    let mut text: Option<String> = None;
    let mut text_file: Option<String> = None;
    let mut priority: Option<String> = None;
    let mut json = false;
    let mut i: usize = 0;
    let ghost mut f = run_message_defaults();
    while i < args.len()
        invariant
            i <= args@.len(),
            all == texts(args@),
            f == (RunMessageFlags {
                run: opt_text(run),
                target: opt_text(target),
                text: opt_text(text),
                text_file: opt_text(text_file),
                priority: opt_text(priority),
                json,
            }),
            run_message_flags(all, 0, run_message_defaults()) == run_message_flags(
                all,
                i as int,
                f,
            ),
        decreases args@.len() - i,
    {
        let arg = args[i].as_str();
        assert(all[i as int] == arg@);
        if str_eq(arg, "--json") {
            json = true;
            i = i + 1;
        } else if str_eq(arg, "--run") || str_eq(arg, "--run-id") || str_eq(arg, "--to") || str_eq(
            arg,
            "--target",
        ) || str_eq(arg, "--text") || str_eq(arg, "--text-file") || str_eq(arg, "--priority") {
            if args.len() - i <= 1 {
                return Err(cat3(arg, " needs a value\n", RUN_MESSAGE_USAGE));
            }
            assert(all[i + 1] == args@[i + 1]@);
            let value = Some(args[i + 1].clone());
            if str_eq(arg, "--to") || str_eq(arg, "--target") {
                target = value;
            } else if str_eq(arg, "--text") {
                text = value;
            } else if str_eq(arg, "--text-file") {
                text_file = value;
            } else if str_eq(arg, "--priority") {
                priority = value;
            } else {
                run = value;
            }
            i = i + 2;
        } else {
            return Err(RUN_MESSAGE_USAGE.to_owned());
        }
        proof {
            f = RunMessageFlags {
                run: opt_text(run),
                target: opt_text(target),
                text: opt_text(text),
                text_file: opt_text(text_file),
                priority: opt_text(priority),
                json,
            };
        }
    }
    let run_id = match flag_or(run, env_run_id) {
        Some(id) => id,
        None => {
            return Err(
                cat2(
                    "no run to message: pass --run <run_id>, or run this from the run's lead pane where KARVEX_WORKFLOW_RUN_ID is exported\n",
                    RUN_MESSAGE_USAGE,
                ),
            );
        },
    };
    let target = match target {
        Some(t) => t,
        None => {
            return Err(
                cat2(
                    "name the session to reach with --to (the run's lead is `team-lead`)\n",
                    RUN_MESSAGE_USAGE,
                ),
            );
        },
    };
    let source = match (text, text_file) {
        (Some(_), Some(_)) => {
            return Err(
                cat2("pass either --text or --text-file, not both\n", RUN_MESSAGE_USAGE),
            );
        },
        (Some(t), None) => MessageSource::Text(t),
        (None, Some(path)) => MessageSource::File(path),
        (None, None) => {
            return Err(cat2("a message needs --text or --text-file\n", RUN_MESSAGE_USAGE));
        },
    };
    Ok((RunMessageRequest { run_id, target, source, priority }, json))
}

/// The complaint about a message file that could not be read.
pub fn message_file_error(path: &str, error: &str) -> (r: String)
    ensures
        r@ == path@ + " could not be read: "@ + error@ + "\n"@ + RUN_MESSAGE_USAGE@,
{
    crate::text::cat5(path, " could not be read: ", error, "\n", RUN_MESSAGE_USAGE)
}

// ---------------------------------------------------------------------------
// run report-session
// ---------------------------------------------------------------------------

/// How `run report-session` is used. `agent` is what the agent is called whose hook calls
/// it.
pub open spec fn report_session_usage(agent: Seq<char>) -> Seq<char> {
    "usage: kvx workflow run report-session [--run <run_id>] [--json]\n(reads "@ + agent
        + "'s SessionStart hook payload on stdin)"@
}

/// The flags of `run report-session` from place `i` on: the run and whether JSON is
/// wanted. A flag without its value takes back an earlier one.
pub open spec fn report_session_flags(
    args: Seq<Seq<char>>,
    i: int,
    run: Option<Seq<char>>,
    json: bool,
    agent: Seq<char>,
) -> Result<(Option<Seq<char>>, bool), Seq<char>>
    decreases args.len() - i,
{
    if i >= args.len() {
        Ok((run, json))
    } else if args[i] == "--run"@ || args[i] == "--run-id"@ {
        if i + 1 >= args.len() {
            Ok((None, json))
        } else {
            report_session_flags(args, i + 2, Some(args[i + 1]), json, agent)
        }
    } else if args[i] == "--json"@ {
        report_session_flags(args, i + 1, run, true, agent)
    } else {
        Err(report_session_usage(agent))
    }
}

/// Reads the arguments of `run report-session`. Without a run there is nothing to
/// report, which is no error.
pub fn parse_report_session_args(
    args: &[String],
    env_run_id: Option<String>,
    agent: &str,
) -> (r: Result<(Option<String>, bool), String>)
    ensures
        match (r, report_session_flags(texts(args@), 0, None, false, agent@)) {
            (Ok((run, json)), Ok((flag, j))) => opt_text(run) == flag_or_env(
                flag,
                opt_text(env_run_id),
            ) && json == j,
            (Err(m), Err(e)) => m@ == e,
            _ => false,
        },
{
    let ghost all = texts(args@);
    let mut run: Option<String> = None;
    let mut json = false;
    let mut i: usize = 0;
    while i < args.len()
        invariant
            i <= args@.len(),
            all == texts(args@),
            report_session_flags(all, 0, None, false, agent@) == report_session_flags(
                all,
                i as int,
                opt_text(run),
                json,
                agent@,
            ),
        decreases args@.len() - i,
    {
        let arg = args[i].as_str();
        assert(all[i as int] == arg@);
        if str_eq(arg, "--run") || str_eq(arg, "--run-id") {
            if args.len() - i <= 1 {
                run = None;
                i = i + 1;
            } else {
                assert(all[i + 1] == args@[i + 1]@);
                run = Some(args[i + 1].clone());
                i = i + 2;
            }
        } else if str_eq(arg, "--json") {
            json = true;
            i = i + 1;
        } else {
            return Err(
                crate::text::cat3(
                    "usage: kvx workflow run report-session [--run <run_id>] [--json]\n(reads ",
                    agent,
                    "'s SessionStart hook payload on stdin)",
                ),
            );
        }
    }
    Ok((flag_or(run, env_run_id), json))
}

} // verus!
