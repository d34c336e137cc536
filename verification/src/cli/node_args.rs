//! Arguments of `kvx workflow node`.

use crate::cli::run_args::{json_after, operands_then_json};
use crate::cli::values::{
    assignment_of, parse_arg_assignment, parse_u32_flag, text_values, u32_flag,
};
use crate::ordered::TextMap;
use crate::text::{cat2, join, join_strings, opt_text, str_eq, tail_strings, texts};
use crate::wire::{
    WorkflowInterrogationMode, WorkflowNodeExpandParams, WorkflowNodeInterrogateParams,
    WorkflowNodeSteerParams, WorkflowNodeTarget,
};
use vstd::prelude::*;

verus! {

broadcast use {crate::text::group_texts, crate::cli::values::lemma_text_values_insert};

pub const NODE_SHOW_USAGE: &'static str = "usage: kvx workflow node show <run_id> <path> [--json]";

pub const NODE_INTERRUPT_USAGE: &'static str =
    "usage: kvx workflow node interrupt <run_id> <path> [--json]";

pub const NODE_RESTART_USAGE: &'static str =
    "usage: kvx workflow node restart <run_id> <path> [--json]";

pub const NODE_STEER_USAGE: &'static str =
    "usage: kvx workflow node steer <run_id> <path> <text> [--json]";

pub const NODE_EXPAND_USAGE: &'static str =
    "usage: kvx workflow node expand <run_id> <path> --template <key> --label <text> [--input KEY=VALUE]... [--count N] [--json]";

pub const NODE_INTERROGATE_USAGE: &'static str =
    "usage: kvx workflow node interrogate <run_id> <path> [--reconstructed] [--note <text>] [--json]";

// ---------------------------------------------------------------------------
// node show, interrupt, restart
// ---------------------------------------------------------------------------

/// What a verb with one node as its operands reads from its arguments.
pub open spec fn node_target_is(
    r: Result<(WorkflowNodeTarget, bool), String>,
    args: Seq<String>,
    usage: Seq<char>,
) -> bool {
    match (r, operands_then_json(texts(args), 2)) {
        (Ok((t, json)), Some(j)) => t.run_id == args[0] && t.path == args[1] && json == j,
        (Err(m), None) => m@ == usage,
        _ => false,
    }
}

/// Reads a run, a path and at most `--json`.
pub fn parse_workflow_node_pair_args(args: &[String], usage: &str) -> (r: Result<
    (WorkflowNodeTarget, bool),
    String,
>)
    ensures
        node_target_is(r, args@, usage@),
{
    match json_after(args, 2) {
        Some(json) => Ok(
            (WorkflowNodeTarget { run_id: args[0].clone(), path: args[1].clone() }, json),
        ),
        None => Err(usage.to_owned()),
    }
}

pub fn parse_workflow_node_show_args(args: &[String]) -> (r: Result<
    (WorkflowNodeTarget, bool),
    String,
>)
    ensures
        node_target_is(r, args@, NODE_SHOW_USAGE@),
{
    parse_workflow_node_pair_args(args, NODE_SHOW_USAGE)
}

// ---------------------------------------------------------------------------
// node steer
// ---------------------------------------------------------------------------

/// Whether the last word of `node steer` is a flag. It is one only where another
/// word of text stays without it.
pub open spec fn steer_json(args: Seq<Seq<char>>) -> bool {
    args.len() > 3 && args.last() == "--json"@
}

/// The words a node is steered with.
pub open spec fn steer_words(args: Seq<Seq<char>>) -> Seq<Seq<char>> {
    if steer_json(args) {
        args.drop_last().skip(2)
    } else {
        args.skip(2)
    }
}

/// Reads the arguments of `node steer`.
pub fn parse_workflow_node_steer_args(args: &[String]) -> (r: Result<
    (WorkflowNodeSteerParams, bool),
    String,
>)
    ensures
        match r {
            Ok((p, json)) => args@.len() >= 3 && p.run_id == args@[0] && p.path == args@[1]
                && p.text@ == join(steer_words(texts(args@)), " "@) && json == steer_json(
                texts(args@),
            ),
            Err(m) => args@.len() < 3 && m@ == NODE_STEER_USAGE@,
        },
{
    if args.len() < 3 {
        return Err(NODE_STEER_USAGE.to_owned());
    }
    let n: usize = args.len();
    let json = n > 3 && str_eq(args[n - 1].as_str(), "--json");
    let mut words = tail_strings(args, 2);
    if json {
        let _flag = words.pop();
        assert(texts(words@) =~= texts(args@).drop_last().skip(2));
    } else {
        assert(texts(words@) =~= texts(args@).skip(2));
    }
    let text = join_strings(words.as_slice(), " ");
    Ok((WorkflowNodeSteerParams { run_id: args[0].clone(), path: args[1].clone(), text }, json))
}

/// A steered node is always told something: at least one word is left for it.
pub proof fn law_steering_keeps_a_word(args: Seq<Seq<char>>)
    requires
        args.len() >= 3,
    ensures
        steer_words(args).len() >= 1,
{
}

// ---------------------------------------------------------------------------
// node expand
// ---------------------------------------------------------------------------

/// The flags of `node expand`.
pub struct ExpandFlags {
    pub template: Option<Seq<char>>,
    pub label: Option<Seq<char>>,
    pub inputs: Map<Seq<char>, Seq<char>>,
    pub count: Option<u32>,
    pub json: bool,
}

pub open spec fn expand_defaults() -> ExpandFlags {
    ExpandFlags { template: None, label: None, inputs: Map::empty(), count: None, json: false }
}

/// The flags of `node expand` from place `i` on, added to `f`.
pub open spec fn expand_flags(args: Seq<Seq<char>>, i: int, f: ExpandFlags) -> Result<
    ExpandFlags,
    Seq<char>,
>
    decreases args.len() - i,
{
    if i >= args.len() {
        Ok(f)
    } else if args[i] == "--json"@ {
        expand_flags(args, i + 1, ExpandFlags { json: true, ..f })
    } else if args[i] == "--template"@ || args[i] == "--label"@ || args[i] == "--input"@ || args[i]
        == "--count"@ {
        if i + 1 >= args.len() {
            Err("missing value for "@ + args[i])
        } else if args[i] == "--template"@ {
            expand_flags(args, i + 2, ExpandFlags { template: Some(args[i + 1]), ..f })
        } else if args[i] == "--label"@ {
            expand_flags(args, i + 2, ExpandFlags { label: Some(args[i + 1]), ..f })
        } else if args[i] == "--input"@ {
            match assignment_of(args[i + 1]) {
                Ok((k, v)) => expand_flags(
                    args,
                    i + 2,
                    ExpandFlags { inputs: f.inputs.insert(k, v), ..f },
                ),
                Err(m) => Err(m),
            }
        } else {
            match u32_flag("--count"@, args[i + 1]) {
                Ok(n) => expand_flags(args, i + 2, ExpandFlags { count: Some(n), ..f }),
                Err(m) => Err(m),
            }
        }
    } else {
        Err("unknown option: "@ + args[i])
    }
}

/// What `node expand` is asked: its flags, a template and a label among them.
pub open spec fn expand_args(args: Seq<Seq<char>>) -> Result<ExpandFlags, Seq<char>> {
    if args.len() < 2 {
        Err(NODE_EXPAND_USAGE@)
    } else {
        match expand_flags(args, 2, expand_defaults()) {
            Ok(f) => if f.template is None || f.label is None {
                Err(NODE_EXPAND_USAGE@)
            } else {
                Ok(f)
            },
            Err(m) => Err(m),
        }
    }
}

/// Reads the arguments of `node expand`. The token is filled in from the node's own
/// environment.
pub fn parse_workflow_node_expand_args(args: &[String]) -> (r: Result<
    (WorkflowNodeExpandParams, bool),
    String,
>)
    ensures
        match (r, expand_args(texts(args@))) {
            (Ok((p, json)), Ok(f)) => p.run_id == args@[0] && p.path == args@[1]
                && p.token@.len() == 0 && Some(p.template@) == f.template && Some(p.label@)
                == f.label && p.inputs.wf() && text_values(p.inputs@) == f.inputs && p.count
                == f.count && json == f.json,
            (Err(m), Err(e)) => m@ == e,
            _ => false,
        },
{
    let ghost all = texts(args@);
    if args.len() < 2 {
        return Err(NODE_EXPAND_USAGE.to_owned());
    }
    let mut template: Option<String> = None;
    let mut label: Option<String> = None;
    let mut inputs: TextMap<String> = TextMap::new();
    let mut count: Option<u32> = None;
    let mut json = false;
    let mut i: usize = 2;
    let ghost mut f = expand_defaults();
    assert(text_values(inputs@) =~= f.inputs);
    while i < args.len()
        invariant
            2 <= i <= args@.len(),
            all == texts(args@),
            inputs.wf(),
            f == (ExpandFlags {
                template: opt_text(template),
                label: opt_text(label),
                inputs: text_values(inputs@),
                count,
                json,
            }),
            expand_flags(all, 2, expand_defaults()) == expand_flags(all, i as int, f),
        decreases args@.len() - i,
    {
        let arg = args[i].as_str();
        assert(all[i as int] == arg@);
        if str_eq(arg, "--json") {
            json = true;
            i = i + 1;
        } else if str_eq(arg, "--template") || str_eq(arg, "--label") || str_eq(arg, "--input")
            || str_eq(arg, "--count") {
            if args.len() - i <= 1 {
                return Err(cat2("missing value for ", arg));
            }
            assert(all[i + 1] == args@[i + 1]@);
            if str_eq(arg, "--template") {
                template = Some(args[i + 1].clone());
            } else if str_eq(arg, "--label") {
                label = Some(args[i + 1].clone());
            } else if str_eq(arg, "--input") {
                match parse_arg_assignment(args[i + 1].as_str()) {
                    Ok((key, value)) => {
                        inputs.insert(key, value);
                    },
                    Err(m) => {
                        return Err(m);
                    },
                }
            } else {
                match parse_u32_flag("--count", args[i + 1].as_str()) {
                    Ok(n) => {
                        count = Some(n);
                    },
                    Err(m) => {
                        return Err(m);
                    },
                }
            }
            i = i + 2;
        } else {
            return Err(cat2("unknown option: ", arg));
        }
        proof {
            f = ExpandFlags {
                template: opt_text(template),
                label: opt_text(label),
                inputs: text_values(inputs@),
                count,
                json,
            };
        }
    }
    match (template, label) {
        (Some(template), Some(label)) => Ok(
            (
                WorkflowNodeExpandParams {
                    run_id: args[0].clone(),
                    path: args[1].clone(),
                    token: String::new(),
                    template,
                    label,
                    inputs,
                    count,
                },
                json,
            ),
        ),
        _ => Err(NODE_EXPAND_USAGE.to_owned()),
    }
}

// ---------------------------------------------------------------------------
// node interrogate
// ---------------------------------------------------------------------------

/// The flags of `node interrogate`.
pub struct InterrogateFlags {
    pub mode: WorkflowInterrogationMode,
    pub note: Option<Seq<char>>,
    pub json: bool,
}

pub open spec fn interrogate_defaults() -> InterrogateFlags {
    InterrogateFlags { mode: WorkflowInterrogationMode::Resumed, note: None, json: false }
}

/// The flags of `node interrogate` from place `i` on, added to `f`.
pub open spec fn interrogate_flags(args: Seq<Seq<char>>, i: int, f: InterrogateFlags) -> Result<
    InterrogateFlags,
    Seq<char>,
>
    decreases args.len() - i,
{
    if i >= args.len() {
        Ok(f)
    } else if args[i] == "--reconstructed"@ {
        interrogate_flags(
            args,
            i + 1,
            InterrogateFlags { mode: WorkflowInterrogationMode::Reconstructed, ..f },
        )
    } else if args[i] == "--note"@ {
        if i + 1 >= args.len() {
            Err("missing value for --note"@)
        } else {
            interrogate_flags(args, i + 2, InterrogateFlags { note: Some(args[i + 1]), ..f })
        }
    } else if args[i] == "--json"@ {
        interrogate_flags(args, i + 1, InterrogateFlags { json: true, ..f })
    } else {
        Err("unknown option: "@ + args[i])
    }
}

/// What `node interrogate` is asked.
pub open spec fn interrogate_args(args: Seq<Seq<char>>) -> Result<InterrogateFlags, Seq<char>> {
    if args.len() < 2 {
        Err(NODE_INTERROGATE_USAGE@)
    } else {
        interrogate_flags(args, 2, interrogate_defaults())
    }
}

/// Reads the arguments of `node interrogate`.
pub fn parse_workflow_node_interrogate_args(args: &[String]) -> (r: Result<
    (WorkflowNodeInterrogateParams, bool),
    String,
>)
    ensures
        match (r, interrogate_args(texts(args@))) {
            (Ok((p, json)), Ok(f)) => p.run_id == args@[0] && p.path == args@[1] && p.mode
                == f.mode && opt_text(p.note) == f.note && json == f.json,
            (Err(m), Err(e)) => m@ == e,
            _ => false,
        },
{
    let ghost all = texts(args@);
    if args.len() < 2 {
        return Err(NODE_INTERROGATE_USAGE.to_owned());
    }
    let mut mode = WorkflowInterrogationMode::Resumed;
    let mut note: Option<String> = None;
    let mut json = false;
    let mut i: usize = 2;
    while i < args.len()
        invariant
            2 <= i <= args@.len(),
            all == texts(args@),
            interrogate_flags(all, 2, interrogate_defaults()) == interrogate_flags(
                all,
                i as int,
                (InterrogateFlags { mode, note: opt_text(note), json }),
            ),
        decreases args@.len() - i,
    {
        let arg = args[i].as_str();
        assert(all[i as int] == arg@);
        if str_eq(arg, "--reconstructed") {
            mode = WorkflowInterrogationMode::Reconstructed;
            i = i + 1;
        } else if str_eq(arg, "--note") {
            if args.len() - i <= 1 {
                return Err("missing value for --note".to_owned());
            }
            assert(all[i + 1] == args@[i + 1]@);
            note = Some(args[i + 1].clone());
            i = i + 2;
        } else if str_eq(arg, "--json") {
            json = true;
            i = i + 1;
        } else {
            return Err(cat2("unknown option: ", arg));
        }
    }
    Ok(
        (
            WorkflowNodeInterrogateParams {
                run_id: args[0].clone(),
                path: args[1].clone(),
                mode,
                note,
            },
            json,
        ),
    )
}

/// A session is reconstructed only where that was asked for by name.
pub proof fn law_reconstruction_is_asked_for(args: Seq<Seq<char>>, i: int, f: InterrogateFlags)
    requires
        0 <= i,
        interrogate_flags(args, i, f) is Ok,
        interrogate_flags(args, i, f)->Ok_0.mode == WorkflowInterrogationMode::Reconstructed,
        f.mode == WorkflowInterrogationMode::Resumed,
    ensures
        exists|k: int| i <= k < args.len() && #[trigger] args[k] == "--reconstructed"@,
    decreases args.len() - i,
{
    if i < args.len() {
        if args[i] == "--reconstructed"@ {
        } else if args[i] == "--note"@ {
            law_reconstruction_is_asked_for(
                args,
                i + 2,
                InterrogateFlags { note: Some(args[i + 1]), ..f },
            );
        } else {
            law_reconstruction_is_asked_for(args, i + 1, InterrogateFlags { json: true, ..f });
        }
    }
}

// ---------------------------------------------------------------------------
// node complete
// ---------------------------------------------------------------------------

/// The result file `node complete` names, from place `i` on.
pub open spec fn complete_flags(
    args: Seq<Seq<char>>,
    i: int,
    file: Option<Seq<char>>,
) -> Result<Option<Seq<char>>, Seq<char>>
    decreases args.len() - i,
{
    if i >= args.len() {
        Ok(file)
    } else if args[i] == "--result-file"@ {
        if i + 1 >= args.len() {
            Err("missing value for --result-file"@)
        } else {
            complete_flags(args, i + 2, Some(args[i + 1]))
        }
    } else {
        Err("unknown option: "@ + args[i])
    }
}

/// Reads the arguments of `node complete`.
pub fn parse_workflow_node_complete_args(args: &[String]) -> (r: Result<Option<String>, String>)
    ensures
        match (r, complete_flags(texts(args@), 0, None)) {
            (Ok(file), Ok(f)) => opt_text(file) == f,
            (Err(m), Err(e)) => m@ == e,
            _ => false,
        },
{
    let ghost all = texts(args@);
    let mut file: Option<String> = None;
    let mut i: usize = 0;
    while i < args.len()
        invariant
            i <= args@.len(),
            all == texts(args@),
            complete_flags(all, 0, None) == complete_flags(all, i as int, opt_text(file)),
        decreases args@.len() - i,
    {
        let arg = args[i].as_str();
        assert(all[i as int] == arg@);
        if str_eq(arg, "--result-file") {
            if args.len() - i <= 1 {
                return Err("missing value for --result-file".to_owned());
            }
            assert(all[i + 1] == args@[i + 1]@);
            file = Some(args[i + 1].clone());
            i = i + 2;
        } else {
            return Err(cat2("unknown option: ", arg));
        }
    }
    Ok(file)
}

} // verus!
