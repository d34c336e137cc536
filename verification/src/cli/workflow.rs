//! `kvx workflow`: from a command line to what is printed, with everything that has
//! to be asked of the server on the way.

use crate::cli::definition::{definition_loaded, load_definition_document};
use crate::cli::plans::{plan_verb, verb_plan, Plan, WorkflowEnv};
use crate::cli::render::{
    complaint, create_lines, expand_lines, interrogation_lines, mutation_shown, node_lines,
    print_response, print_workflow_create_response, print_workflow_mutation,
    print_workflow_node_expand_response, print_workflow_node_interrogate_response,
    print_workflow_node_response, print_workflow_review_show_response,
    print_workflow_run_response, print_workflow_show, print_workflow_summary_list_response,
    print_workflow_summary_show_response, print_workflow_update_response, raw_shown, reply_shown,
    review_show_lines, run_lines, show_lines, shows, success, summary_list_lines,
    summary_show_lines, update_lines, Shown,
};
use crate::cli::render_lines::items_at;
use crate::cli::run_args::{message_file_error, RUN_MESSAGE_USAGE};
use crate::cli::steps::{send, sent, NodeCompleteEnv, Pending, Reading, Step};
use crate::cli::verbs::{choice, choose_verb, Choice, Page, Verb};
use crate::console::Console;
use crate::documents::{
    compact_json, insert_json, json_compact, json_contents, json_document, json_object,
    json_string, read_json, Reply,
};
use crate::json::{at, member, text_at, unsigned_at, Json};
use crate::ordered::{sorted_distinct, sorted_distinct_strings, TextMap};
use crate::text::{
    cat2, cat4, cat7, contains_string, has_text, join, join_strings, lines, opt_text,
    split_lines, tail_strings, texts, trim, trim_str,
};
use crate::wire::{
    Method, WorkflowDefinitionDocument, WorkflowNodeReportParams, WorkflowRunMessageParams,
    WorkflowRunParams, WorkflowRunReportSessionParams, WorkflowTarget, WorkflowVersionCreateParams,
};
use vstd::prelude::*;

verus! {

broadcast use crate::text::group_texts;

// ---------------------------------------------------------------------------
// Help
// ---------------------------------------------------------------------------

/// A page of help, line by line.
pub open spec fn help_lines(page: Page) -> Seq<Seq<char>> {
    match page {
        Page::Workflow => seq![
            "kvx workflow commands:"@,
            "  kvx workflow list [--json]"@,
            "  kvx workflow show <name|id> [--json]"@,
            "  kvx workflow create --file <definition.toml|json> [--name <name>] [--json]"@,
            "  kvx workflow update <name|id> --file <definition.toml|json> [--change-summary <text>] [--json]"@,
            "  kvx workflow run <subcommand> ..."@,
            "  kvx workflow node <subcommand> ..."@,
            "  kvx workflow summary <subcommand> ..."@,
            "  kvx workflow review <subcommand> ..."@,
        ],
        Page::Run => seq![
            "kvx workflow run commands:"@,
            "  kvx workflow run start <name|id> [--tier <tier>] [--arg KEY=VALUE]... [--restore-from <run-id>] [--restore <selector>]... [--restore-allow-changed] [--no-prior-summaries] [--json]"@,
            "  kvx workflow run list <name|id> [--limit N] [--json]"@,
            "  kvx workflow run show <run_id> [--json]"@,
            "  kvx workflow run cancel <run_id> [--json]"@,
            "  kvx workflow run finish [--run <run_id>] (--summary-file <path> | --summary <text>) [--outcome <word>] [--json]"@,
            "  kvx workflow run message [--run <run_id>] --to <name> (--text <text> | --text-file <path>) [--priority now|next|later] [--json]"@,
            "  kvx workflow run report-session [--run <run_id>] [--json]"@,
        ],
        Page::Node => seq![
            "kvx workflow node commands:"@,
            "  kvx workflow node show <run_id> <path> [--json]"@,
            "  kvx workflow node steer <run_id> <path> <text> [--json]"@,
            "  kvx workflow node interrupt <run_id> <path> [--json]"@,
            "  kvx workflow node restart <run_id> <path> [--json]"@,
            "  kvx workflow node complete [--result-file <path>]   # run by the node itself; reads KARVEX_WORKFLOW_RUN_ID/NODE_PATH/NODE_DIR/NODE_TOKEN"@,
            "  kvx workflow node expand <run_id> <path> --template <key> --label <text> [--input KEY=VALUE]... [--count N] [--json]   # run by the node itself; reads KARVEX_WORKFLOW_NODE_TOKEN"@,
            "  kvx workflow node interrogate <run_id> <path> [--reconstructed] [--note <text>] [--json]"@,
        ],
        Page::Summary => seq![
            "kvx workflow summary commands:"@,
            "  kvx workflow summary show <run_id> [--json]"@,
            "  kvx workflow summary list [<workflow>] [--limit N] [--json]"@,
        ],
        Page::Review => seq![
            "kvx workflow review commands:"@,
            "  kvx workflow review start <run_id> [--json]"@,
            "  kvx workflow review show <run_id> [--json]"@,
            "  kvx workflow review apply <run_id> (--accept <node_key>... | --decline-all) [--json]"@,
            "  kvx workflow review answer --file <path> [--json]   # run from an interview pane; reads KARVEX_WORKFLOW_REVIEW_RUN_ID/MEMBER"@,
            "  kvx workflow review report --file <path> [--json]   # run from the synthesis pane; reads KARVEX_WORKFLOW_REVIEW_RUN_ID"@,
        ],
    }
}

fn print_help(page: Page, console: &mut Console)
    ensures
        final(console).out_lines() == old(console).out_lines(),
        final(console).err_lines() == old(console).err_lines() + help_lines(page),
{
    match page {
        Page::Workflow => {
            console.eprint("kvx workflow commands:");
            console.eprint("  kvx workflow list [--json]");
            console.eprint("  kvx workflow show <name|id> [--json]");
            console.eprint(
                "  kvx workflow create --file <definition.toml|json> [--name <name>] [--json]",
            );
            console.eprint(
                "  kvx workflow update <name|id> --file <definition.toml|json> [--change-summary <text>] [--json]",
            );
            console.eprint("  kvx workflow run <subcommand> ...");
            console.eprint("  kvx workflow node <subcommand> ...");
            console.eprint("  kvx workflow summary <subcommand> ...");
            console.eprint("  kvx workflow review <subcommand> ...");
        },
        Page::Run => {
            console.eprint("kvx workflow run commands:");
            console.eprint(
                "  kvx workflow run start <name|id> [--tier <tier>] [--arg KEY=VALUE]... [--restore-from <run-id>] [--restore <selector>]... [--restore-allow-changed] [--no-prior-summaries] [--json]",
            );
            console.eprint("  kvx workflow run list <name|id> [--limit N] [--json]");
            console.eprint("  kvx workflow run show <run_id> [--json]");
            console.eprint("  kvx workflow run cancel <run_id> [--json]");
            console.eprint(
                "  kvx workflow run finish [--run <run_id>] (--summary-file <path> | --summary <text>) [--outcome <word>] [--json]",
            );
            console.eprint(
                "  kvx workflow run message [--run <run_id>] --to <name> (--text <text> | --text-file <path>) [--priority now|next|later] [--json]",
            );
            console.eprint("  kvx workflow run report-session [--run <run_id>] [--json]");
        },
        Page::Node => {
            console.eprint("kvx workflow node commands:");
            console.eprint("  kvx workflow node show <run_id> <path> [--json]");
            console.eprint("  kvx workflow node steer <run_id> <path> <text> [--json]");
            console.eprint("  kvx workflow node interrupt <run_id> <path> [--json]");
            console.eprint("  kvx workflow node restart <run_id> <path> [--json]");
            console.eprint(
                "  kvx workflow node complete [--result-file <path>]   # run by the node itself; reads KARVEX_WORKFLOW_RUN_ID/NODE_PATH/NODE_DIR/NODE_TOKEN",
            );
            console.eprint(
                "  kvx workflow node expand <run_id> <path> --template <key> --label <text> [--input KEY=VALUE]... [--count N] [--json]   # run by the node itself; reads KARVEX_WORKFLOW_NODE_TOKEN",
            );
            console.eprint(
                "  kvx workflow node interrogate <run_id> <path> [--reconstructed] [--note <text>] [--json]",
            );
        },
        Page::Summary => {
            console.eprint("kvx workflow summary commands:");
            console.eprint("  kvx workflow summary show <run_id> [--json]");
            console.eprint("  kvx workflow summary list [<workflow>] [--limit N] [--json]");
        },
        Page::Review => {
            console.eprint("kvx workflow review commands:");
            console.eprint("  kvx workflow review start <run_id> [--json]");
            console.eprint("  kvx workflow review show <run_id> [--json]");
            console.eprint(
                "  kvx workflow review apply <run_id> (--accept <node_key>... | --decline-all) [--json]",
            );
            console.eprint(
                "  kvx workflow review answer --file <path> [--json]   # run from an interview pane; reads KARVEX_WORKFLOW_REVIEW_RUN_ID/MEMBER",
            );
            console.eprint(
                "  kvx workflow review report --file <path> [--json]   # run from the synthesis pane; reads KARVEX_WORKFLOW_REVIEW_RUN_ID",
            );
        },
    }
    assert(console.err_lines() =~= old(console).err_lines() + help_lines(page));
}

// ---------------------------------------------------------------------------
// Errors that never reach the server
// ---------------------------------------------------------------------------

/// An object that holds an error of this code and message, and nothing else.
pub open spec fn envelope_is(envelope: Json, code: Seq<char>, message: Seq<char>) -> bool {
    let error = at(envelope, "error"@);
    &&& envelope is Object
    &&& forall|k: Seq<char>| k != "error"@ ==> #[trigger] member(envelope, k) is None
    &&& error is Object
    &&& text_at(error, "code"@) == Some(code)
    &&& text_at(error, "message"@) == Some(message)
    &&& forall|k: Seq<char>|
        k != "code"@ && k != "message"@ ==> #[trigger] member(error, k) is None
}

fn error_envelope(code: &str, message: &str) -> (r: serde_json::Value)
    ensures
        envelope_is(json_contents(r), code@, message@),
{
    proof {
        reveal_strlit("code");
        reveal_strlit("message");
        assert("code"@.len() != "message"@.len());
    }
    let mut error = json_object();
    let _ = insert_json(&mut error, "code", json_string(code));
    let _ = insert_json(&mut error, "message", json_string(message));
    let mut envelope = json_object();
    let _ = insert_json(&mut envelope, "error", error);
    envelope
}

/// A local error in words: its code, and its message with its own line breaks.
pub open spec fn local_error_lines(code: Seq<char>, message: Seq<char>) -> Seq<Seq<char>> {
    seq!["error: "@ + code] + lines(message).map_values(|l: Seq<char>| "  "@ + l)
}

/// How a local error is shown: as an error envelope where JSON is wanted.
pub open spec fn failure_shown(
    before: Console,
    after: Console,
    r: i32,
    code: Seq<char>,
    message: Seq<char>,
    json: bool,
) -> bool {
    if json {
        exists|v: serde_json::Value|
            envelope_is(#[trigger] json_contents(v), code, message) && shows(
                before,
                after,
                r,
                complaint(json_compact(v), 1),
            )
    } else {
        shows(
            before,
            after,
            r,
            Shown { out: Seq::empty(), err: local_error_lines(code, message), code: 1 },
        )
    }
}

pub fn print_workflow_cli_error(code: &str, message: &str, console: &mut Console) -> (r: i32)
    ensures
        failure_shown(*old(console), *final(console), r, code@, message@, true),
{
    let envelope = error_envelope(code, message);
    console.complain(compact_json(&envelope).as_str(), 1)
}

pub fn print_workflow_local_error(
    code: &str,
    message: &str,
    json: bool,
    console: &mut Console,
) -> (r: i32)
    ensures
        failure_shown(*old(console), *final(console), r, code@, message@, json),
{
    if json {
        return print_workflow_cli_error(code, message, console);
    }
    let parts = split_lines(message);
    let ghost all = local_error_lines(code@, message@);
    console.eprint(cat2("error: ", code).as_str());
    let mut i: usize = 0;
    assert(console.err_lines() =~= old(console).err_lines() + all.take(1));
    while i < parts.len()
        invariant
            i <= parts@.len(),
            texts(parts@) == lines(message@),
            all == local_error_lines(code@, message@),
            console.out_lines() == old(console).out_lines(),
            console.err_lines() == old(console).err_lines() + all.take(i + 1),
        decreases parts@.len() - i,
    {
        console.eprint(cat2("  ", parts[i].as_str()).as_str());
        assert(all[i + 1] == "  "@ + lines(message@)[i as int]);
        assert(console.err_lines() =~= old(console).err_lines() + all.take(i + 2));
        i = i + 1;
    }
    assert(all.take(all.len() as int) =~= all);
    assert(console.out_lines() =~= old(console).out_lines() + Seq::<Seq<char>>::empty());
    1
}

// ---------------------------------------------------------------------------
// Declared arguments
// ---------------------------------------------------------------------------

/// The supplied keys that were never declared, in order.
pub open spec fn unknown_keys(
    supplied: Seq<Seq<char>>,
    declared: Seq<Seq<char>>,
) -> Seq<Seq<char>> {
    supplied.filter(|k: Seq<char>| !has_text(declared, k))
}

/// The complaint about arguments that were never declared.
pub open spec fn unknown_arg_text(
    workflow_id: Seq<char>,
    supplied: Seq<Seq<char>>,
    declared: Seq<Seq<char>>,
) -> Option<Seq<char>> {
    let unknown = unknown_keys(supplied, declared);
    if unknown.len() == 0 {
        None
    } else {
        Some(
            "unknown --arg key(s): "@ + join(unknown, ", "@) + " (declared args for "@
                + workflow_id + ": "@ + (if declared.len() == 0 {
                "(none declared)"@
            } else {
                join(sorted_distinct(declared), ", "@)
            }) + ")"@,
        )
    }
}

pub fn unknown_arg_message(
    workflow_id: &str,
    supplied: &TextMap<String>,
    declared: &Vec<String>,
) -> (r: Option<String>)
    ensures
        opt_text(r) == unknown_arg_text(workflow_id@, supplied.keys(), texts(declared@)),
{
    let ghost unseen = |k: Seq<char>| !has_text(texts(declared@), k);
    let ghost keys = supplied.keys();
    let mut unknown: Vec<String> = Vec::new();
    let mut i: usize = 0;
    proof {
        reveal(Seq::filter);
        assert(keys.take(0).filter(unseen) =~= Seq::empty());
        assert(texts(unknown@) =~= Seq::empty());
    }
    while i < supplied.entries.len()
        invariant
            i <= supplied.entries@.len(),
            keys == supplied.keys(),
            keys.len() == supplied.entries@.len(),
            unseen == |k: Seq<char>| !has_text(texts(declared@), k),
            texts(unknown@) == keys.take(i as int).filter(unseen),
        decreases supplied.entries@.len() - i,
    {
        proof {
            reveal(Seq::filter);
            assert(keys.take(i as int + 1).drop_last() =~= keys.take(i as int));
            assert(keys[i as int] == supplied.entries@[i as int].0@);
        }
        let key = &supplied.entries[i].0;
        if !contains_string(declared.as_slice(), key.as_str()) {
            unknown.push(key.clone());
        }
        i = i + 1;
    }
    assert(keys.take(keys.len() as int) =~= keys);
    if unknown.len() == 0 {
        return None;
    }
    let listed = if declared.len() == 0 {
        "(none declared)".to_owned()
    } else {
        let names = sorted_distinct_strings(declared.as_slice());
        join_strings(names.as_slice(), ", ")
    };
    Some(
        cat7(
            "unknown --arg key(s): ",
            join_strings(unknown.as_slice(), ", ").as_str(),
            " (declared args for ",
            workflow_id,
            ": ",
            listed.as_str(),
            ")",
        ),
    )
}

/// A run is held back over its arguments exactly where one of them was never
/// declared.
pub proof fn law_only_undeclared_arguments_are_refused(
    workflow_id: Seq<char>,
    supplied: Seq<Seq<char>>,
    declared: Seq<Seq<char>>,
)
    ensures
        unknown_arg_text(workflow_id, supplied, declared) is Some <==> exists|i: int|
            0 <= i < supplied.len() && !has_text(declared, #[trigger] supplied[i]),
{
    broadcast use vstd::seq_lib::group_filter_ensures;

    let unseen = |k: Seq<char>| !has_text(declared, k);
    let unknown = supplied.filter(unseen);
    if unknown.len() > 0 {
        lemma_filter_keeps_only(supplied, unseen);
        assert(supplied.contains(unknown[0]) && unseen(unknown[0]));
        let i = choose|i: int| 0 <= i < supplied.len() && supplied[i] == unknown[0];
        assert(!has_text(declared, supplied[i]));
    }
    if exists|i: int| 0 <= i < supplied.len() && !has_text(declared, #[trigger] supplied[i]) {
        let i = choose|i: int| 0 <= i < supplied.len() && !has_text(declared, #[trigger] supplied[i]);
        assert(unseen(supplied[i]));
        assert(unknown.contains(supplied[i]));
    }
}

proof fn lemma_filter_keeps_only(items: Seq<Seq<char>>, keep: spec_fn(Seq<char>) -> bool)
    ensures
        forall|j: int|
            0 <= j < items.filter(keep).len() ==> items.contains(#[trigger] items.filter(keep)[j]),
    decreases items.len(),
{
    reveal(Seq::filter);
    if items.len() > 0 {
        let front = items.drop_last();
        lemma_filter_keeps_only(front, keep);
        assert forall|j: int| 0 <= j < items.filter(keep).len() implies items.contains(
            #[trigger] items.filter(keep)[j],
        ) by {
            if j < front.filter(keep).len() {
                assert(front.contains(front.filter(keep)[j]));
                let k = choose|k: int| 0 <= k < front.len() && front[k] == front.filter(keep)[j];
                assert(items[k] == items.filter(keep)[j]);
            } else {
                assert(items[items.len() - 1] == items.filter(keep)[j]);
            }
        }
    }
}

/// The names of the declared arguments.
pub open spec fn declared_names(args: Seq<Json>) -> Seq<Seq<char>>
    decreases args.len(),
{
    if args.len() == 0 {
        Seq::empty()
    } else {
        let before = declared_names(args.drop_last());
        match text_at(args.last(), "name"@) {
            Some(name) => before.push(name),
            None => before,
        }
    }
}

fn read_declared_names(version_response: &Json) -> (r: Vec<String>)
    ensures
        texts(r@) == declared_names(
            items_at(at(at(*version_response, "result"@), "version"@), "args"@),
        ),
{
    let null = Json::Null;
    let mut names: Vec<String> = Vec::new();
    assert(texts(names@) =~= Seq::empty());
    match version_response.at("result", &null).at("version", &null).at("args", &null).as_array() {
        Some(args) => {
            let mut i: usize = 0;
            assert(args@.take(0) =~= Seq::empty());
            while i < args.len()
                invariant
                    i <= args@.len(),
                    texts(names@) == declared_names(args@.take(i as int)),
                decreases args@.len() - i,
            {
                assert(args@.take(i as int + 1).drop_last() =~= args@.take(i as int));
                match args[i].text_at("name") {
                    Some(name) => {
                        names.push(name);
                    },
                    None => {},
                }
                i = i + 1;
            }
            assert(args@.take(args@.len() as int) =~= args@);
        },
        None => {},
    }
    names
}

// ---------------------------------------------------------------------------
// Starting a command
// ---------------------------------------------------------------------------

/// The command is over, having shown this.
pub open spec fn ends(before: Console, after: Console, step: Step, shown: Shown) -> bool {
    step == Step::Exit(shown.code) && shows(before, after, shown.code, shown)
}

/// What carrying a plan out comes to.
pub open spec fn carried_out(plan: Plan, before: Console, after: Console, step: Step) -> bool {
    match plan {
        Plan::Go(next) => step == next && after == before,
        Plan::Refuse(message) => ends(before, after, step, complaint(message@, 2)),
        Plan::Fail { code, message, json } => step == Step::Exit(1) && failure_shown(
            before,
            after,
            1,
            code@,
            message@,
            json,
        ),
        Plan::Excuse(message) => ends(before, after, step, complaint(message@, 0)),
        Plan::Nothing => step == Step::Exit(0) && after == before,
    }
}

/// What a command line comes to.
pub open spec fn workflow_started(
    args: Seq<String>,
    env: WorkflowEnv,
    before: Console,
    after: Console,
    step: Step,
) -> bool {
    match choice(texts(args)) {
        Choice::Help { page, asked } => ends(
            before,
            after,
            step,
            Shown {
                out: Seq::empty(),
                err: help_lines(page),
                code: if asked {
                    0
                } else {
                    2
                },
            },
        ),
        Choice::Verb { verb, words } => exists|plan: Plan| #[trigger]
            verb_plan(verb, args.skip(words as int), env, plan) && carried_out(
                plan,
                before,
                after,
                step,
            ),
    }
}

pub fn run_workflow_command(args: &[String], env: &WorkflowEnv, console: &mut Console) -> (r: Step)
    ensures
        workflow_started(args@, *env, *old(console), *final(console), r),
{
    match choose_verb(args) {
        Choice::Help { page, asked } => {
            print_help(page, console);
            assert(console.out_lines() =~= old(console).out_lines() + Seq::<Seq<char>>::empty());
            Step::Exit(
                if asked {
                    0
                } else {
                    2
                },
            )
        },
        Choice::Verb { verb, words } => {
            let rest = tail_strings(args, words);
            let plan = plan_verb(verb, rest.as_slice(), env);
            let ghost planned = plan;
            assert(verb_plan(verb, args@.skip(words as int), *env, planned));
            match plan {
                Plan::Go(step) => step,
                Plan::Refuse(message) => Step::Exit(console.complain(message.as_str(), 2)),
                Plan::Fail { code, message, json } => Step::Exit(
                    print_workflow_local_error(code.as_str(), message.as_str(), json, console),
                ),
                Plan::Excuse(message) => Step::Exit(console.complain(message.as_str(), 0)),
                Plan::Nothing => Step::Exit(0),
            }
        },
    }
}

// ---------------------------------------------------------------------------
// Going on with a file
// ---------------------------------------------------------------------------

/// A node's report, and what was noticed about its result on the way.
#[derive(Debug, PartialEq, Eq)]
pub struct NodeReport {
    pub params: WorkflowNodeReportParams,
    pub local_error: Option<String>,
}

/// The result a node's file holds, or null and why there is none.
pub open spec fn node_result(
    path: Seq<char>,
    read: Result<String, String>,
) -> (Json, Option<Seq<char>>) {
    match read {
        Err(e) => (Json::Null, Some("failed to read "@ + path + ": "@ + e@)),
        Ok(text) => match json_document(text@) {
            Ok(value) => (json_contents(value), None),
            Err(e) => (Json::Null, Some("invalid JSON in "@ + path + ": "@ + e)),
        },
    }
}

/// A report is always made. A result that cannot be read or parsed is reported as
/// null.
pub fn build_node_report_params(
    env: NodeCompleteEnv,
    result_path: &str,
    read: Result<String, String>,
) -> (r: NodeReport)
    ensures
        r.params.run_id == env.run_id,
        r.params.path == env.node_path,
        r.params.token == env.node_token,
        r.params.result == node_result(result_path@, read).0,
        opt_text(r.local_error) == node_result(result_path@, read).1,
{
    let (result, local_error): (Json, Option<String>) = match read {
        Err(e) => (Json::Null, Some(cat4("failed to read ", result_path, ": ", e.as_str()))),
        Ok(text) => match read_json(text.as_str()) {
            Ok(value) => (value, None),
            Err(e) => (Json::Null, Some(cat4("invalid JSON in ", result_path, ": ", e.as_str()))),
        },
    };
    NodeReport {
        params: WorkflowNodeReportParams {
            run_id: env.run_id,
            path: env.node_path,
            token: env.node_token,
            result,
        },
        local_error,
    }
}

/// What follows a definition that was loaded.
pub open spec fn definition_step(
    what: Reading,
    loaded: Result<WorkflowDefinitionDocument, String>,
    before: Console,
    after: Console,
    step: Step,
) -> bool {
    match (what, loaded) {
        (Reading::CreateDefinition { json, .. }, Err(m)) => step == Step::Exit(1) && failure_shown(
            before,
            after,
            1,
            "invalid_definition"@,
            m@,
            json,
        ),
        (Reading::UpdateDefinition { json, .. }, Err(m)) => step == Step::Exit(1) && failure_shown(
            before,
            after,
            1,
            "invalid_definition"@,
            m@,
            json,
        ),
        (Reading::CreateDefinition { json, .. }, Ok(d)) => after == before && sent(
            step,
            "cli:workflow:create"@,
        ) == Some((Method::WorkflowCreate(d), Pending::Create { json })),
        (
            Reading::UpdateDefinition { workflow_id, change_summary, json },
            Ok(definition),
        ) => after == before && if json {
            sent(step, "cli:workflow:update"@) == Some(
                (
                    Method::WorkflowVersionCreate(
                        WorkflowVersionCreateParams { workflow_id, definition, change_summary },
                    ),
                    Pending::Update { previous: None, json },
                ),
            )
        } else {
            sent(step, "cli:workflow:update:precheck"@) == Some(
                (
                    Method::WorkflowGet(WorkflowTarget { workflow_id }),
                    Pending::UpdatePrecheck { workflow_id, definition, change_summary, json },
                ),
            )
        },
        _ => false,
    }
}

/// What follows a file that was read, or could not be.
pub open spec fn file_handled(
    path: Seq<char>,
    what: Reading,
    read: Result<String, String>,
    windows: bool,
    before: Console,
    after: Console,
    step: Step,
) -> bool {
    match what {
        Reading::CreateDefinition { name, .. } => exists|d:
            Result<WorkflowDefinitionDocument, String>| #[trigger]
            definition_loaded(path, read, name, windows, d) && definition_step(
                what,
                d,
                before,
                after,
                step,
            ),
        Reading::UpdateDefinition { .. } => exists|d: Result<WorkflowDefinitionDocument, String>|
            #[trigger]
            definition_loaded(path, read, None, windows, d) && definition_step(
                what,
                d,
                before,
                after,
                step,
            ),
        Reading::Message { request, json } => match read {
            Err(e) => ends(
                before,
                after,
                step,
                complaint(path + " could not be read: "@ + e@ + "\n"@ + RUN_MESSAGE_USAGE@, 2),
            ),
            Ok(text) => after == before && sent(step, "cli:workflow:run:message"@) == Some(
                (
                    Method::WorkflowRunMessage(
                        WorkflowRunMessageParams {
                            run_id: request.run_id,
                            target: request.target,
                            text,
                            priority: request.priority,
                        },
                    ),
                    Pending::Mutation { json },
                ),
            ),
        },
        Reading::NodeResult { env } => {
            &&& sent(step, "cli:workflow:node:complete"@) == Some(
                (
                    Method::WorkflowNodeReport(
                        WorkflowNodeReportParams {
                            run_id: env.run_id,
                            path: env.node_path,
                            token: env.node_token,
                            result: node_result(path, read).0,
                        },
                    ),
                    Pending::Mutation { json: false },
                ),
            )
            &&& after.out_lines() == before.out_lines()
            &&& after.err_lines() == before.err_lines() + (match node_result(path, read).1 {
                Some(warning) => seq!["warning: "@ + warning],
                None => Seq::empty(),
            })
        },
    }
}

/// Goes on with a file that was read, or could not be.
pub fn resume_file(
    path: &str,
    what: Reading,
    read: Result<String, String>,
    windows: bool,
    console: &mut Console,
) -> (r: Step)
    ensures
        file_handled(path@, what, read, windows, *old(console), *final(console), r),
{
    match what {
        Reading::CreateDefinition { name, json } => {
            let loaded = load_definition_document(path, read, name, windows);
            assert(definition_loaded(path@, read, name, windows, loaded));
            match loaded {
                Err(m) => Step::Exit(
                    print_workflow_local_error("invalid_definition", m.as_str(), json, console),
                ),
                Ok(definition) => send(
                    "cli:workflow:create",
                    Method::WorkflowCreate(definition),
                    Pending::Create { json },
                ),
            }
        },
        Reading::UpdateDefinition { workflow_id, change_summary, json } => {
            let loaded = load_definition_document(path, read, None, windows);
            assert(definition_loaded(path@, read, None, windows, loaded));
            match loaded {
                Err(m) => Step::Exit(
                    print_workflow_local_error("invalid_definition", m.as_str(), json, console),
                ),
                Ok(definition) => if json {
                    send(
                        "cli:workflow:update",
                        Method::WorkflowVersionCreate(
                            WorkflowVersionCreateParams { workflow_id, definition, change_summary },
                        ),
                        Pending::Update { previous: None, json },
                    )
                } else {
                    send(
                        "cli:workflow:update:precheck",
                        Method::WorkflowGet(WorkflowTarget { workflow_id: workflow_id.clone() }),
                        Pending::UpdatePrecheck { workflow_id, definition, change_summary, json },
                    )
                },
            }
        },
        Reading::Message { request, json } => match read {
            Err(e) => Step::Exit(
                console.complain(message_file_error(path, e.as_str()).as_str(), 2),
            ),
            Ok(text) => send(
                "cli:workflow:run:message",
                Method::WorkflowRunMessage(
                    WorkflowRunMessageParams {
                        run_id: request.run_id,
                        target: request.target,
                        text,
                        priority: request.priority,
                    },
                ),
                Pending::Mutation { json },
            ),
        },
        Reading::NodeResult { env } => {
            let report = build_node_report_params(env, path, read);
            match &report.local_error {
                Some(warning) => {
                    console.eprint(cat2("warning: ", warning.as_str()).as_str());
                },
                None => {},
            }
            assert(console.err_lines() =~= old(console).err_lines() + (match node_result(
                path@,
                read,
            ).1 {
                Some(warning) => seq!["warning: "@ + warning],
                None => Seq::empty(),
            }));
            send(
                "cli:workflow:node:complete",
                Method::WorkflowNodeReport(report.params),
                Pending::Mutation { json: false },
            )
        },
    }
}

/// A node that finished always reports: no result file, however broken, keeps its
/// report from being sent.
pub proof fn law_a_finished_node_always_reports(
    path: Seq<char>,
    env: NodeCompleteEnv,
    read: Result<String, String>,
    windows: bool,
    before: Console,
    after: Console,
    step: Step,
)
    requires
        file_handled(path, Reading::NodeResult { env }, read, windows, before, after, step),
    ensures
        step matches Step::Send { method: Method::WorkflowNodeReport(p), .. } && p.run_id
            == env.run_id && p.path == env.node_path && p.token == env.node_token,
{
}

// ---------------------------------------------------------------------------
// Going on with a session's own report
// ---------------------------------------------------------------------------

/// What a session says of itself as it starts.
#[derive(Debug, PartialEq, Eq)]
pub struct HookInput {
    pub session_id: String,
    pub transcript_path: Option<String>,
    pub cwd: Option<String>,
    pub source: Option<String>,
    pub agent_id: Option<String>,
}

/// A variable without the space around it, and nothing where that leaves nothing.
pub open spec fn env_text(value: Option<Seq<char>>) -> Option<Seq<char>> {
    match value {
        Some(v) => if trim(v).len() == 0 {
            None
        } else {
            Some(trim(v))
        },
        None => None,
    }
}

pub fn env_value(value: &Option<String>) -> (r: Option<String>)
    ensures
        opt_text(r) == env_text(opt_text(*value)),
{
    match value {
        Some(v) => {
            let t = trim_str(v.as_str());
            if t.as_str().is_empty() {
                None
            } else {
                Some(t)
            }
        },
        None => None,
    }
}

/// What follows standard input: the report of a session, with what its environment tells,
/// and nothing where it held none.
pub open spec fn hook_handled(
    run_id: String,
    json: bool,
    hook: Option<HookInput>,
    env: WorkflowEnv,
    step: Step,
) -> bool {
    match hook {
        None => step == Step::Exit(0),
        Some(h) => sent(step, "cli:workflow:run:report-session"@) matches Some(
            (Method::WorkflowRunReportSession(p), Pending::ReportSession { json: j }),
        ) && p.run_id == run_id && p.session_id == h.session_id && p.transcript_path
            == h.transcript_path && opt_text(p.pane_id) == env_text(opt_text(env.pane_id)) && p.cwd
            == h.cwd && p.source == h.source && opt_text(p.messaging_socket) == env_text(
            opt_text(env.messaging_socket),
        ) && opt_text(p.messaging_token) == env_text(opt_text(env.messaging_token)) && p.agent_id
            == h.agent_id && j == json,
    }
}

/// Goes on with what standard input held. What is no session's report is passed over.
pub fn resume_hook(run_id: String, json: bool, hook: Option<HookInput>, env: &WorkflowEnv) -> (r:
    Step)
    ensures
        hook_handled(run_id, json, hook, *env, r),
{
    match hook {
        None => Step::Exit(0),
        Some(h) => send(
            "cli:workflow:run:report-session",
            Method::WorkflowRunReportSession(
                WorkflowRunReportSessionParams {
                    run_id,
                    session_id: h.session_id,
                    transcript_path: h.transcript_path,
                    pane_id: env_value(&env.pane_id),
                    cwd: h.cwd,
                    source: h.source,
                    messaging_socket: env_value(&env.messaging_socket),
                    messaging_token: env_value(&env.messaging_token),
                    agent_id: h.agent_id,
                },
            ),
            Pending::ReportSession { json },
        ),
    }
}

// ---------------------------------------------------------------------------
// Going on with a reply
// ---------------------------------------------------------------------------

/// The head version of a workflow that a reply names.
pub open spec fn head_version_id(response: Json) -> Option<Seq<char>> {
    text_at(at(at(response, "result"@), "workflow"@), "head_version_id"@)
}

/// The number of the head version that a reply names.
pub open spec fn head_version(response: Json) -> Option<u32> {
    match unsigned_at(at(at(response, "result"@), "workflow"@), "head_version"@) {
        Some(v) => Some(v as u32),
        None => None,
    }
}

/// The run is started.
pub open spec fn starts_run(step: Step, params: WorkflowRunParams, json: bool) -> bool {
    sent(step, "cli:workflow:run:start"@) == Some(
        (Method::WorkflowRun(params), Pending::Run { json }),
    )
}

/// The version with this id is asked for.
pub open spec fn asks_version(step: Step, id: Seq<char>, version: Seq<char>, then: Pending) -> bool {
    sent(step, id) matches Some((Method::WorkflowVersionGet(v), t)) && v@ == version && t == then
}

/// What follows a reply.
pub open spec fn reply_handled(
    then: Pending,
    reply: Reply,
    before: Console,
    after: Console,
    step: Step,
) -> bool {
    let value = reply.value;
    let refused = member(value, "error"@) is Some;
    match then {
        Pending::Raw => ends(before, after, step, raw_shown(reply)),
        Pending::Show => if refused {
            ends(before, after, step, raw_shown(reply))
        } else {
            match head_version_id(value) {
                Some(version) => after == before && asks_version(
                    step,
                    "cli:workflow:show:version"@,
                    version,
                    Pending::ShowVersion { response: value },
                ),
                None => ends(before, after, step, success(show_lines(value, None))),
            }
        },
        Pending::ShowVersion { response } => ends(
            before,
            after,
            step,
            success(
                show_lines(
                    response,
                    if refused {
                        None
                    } else {
                        Some(value)
                    },
                ),
            ),
        ),
        Pending::Create { json } => ends(
            before,
            after,
            step,
            reply_shown(reply, json, create_lines(value)),
        ),
        Pending::UpdatePrecheck { workflow_id, definition, change_summary, json } => after == before
            && sent(step, "cli:workflow:update"@) == Some(
            (
                Method::WorkflowVersionCreate(
                    WorkflowVersionCreateParams { workflow_id, definition, change_summary },
                ),
                Pending::Update { previous: head_version(value), json },
            ),
        ),
        Pending::Update { previous, json } => ends(
            before,
            after,
            step,
            reply_shown(reply, json, update_lines(value, previous)),
        ),
        Pending::RunPrecheck { params, json } => after == before && match (
            refused,
            head_version_id(value),
        ) {
            (false, Some(version)) => asks_version(
                step,
                "cli:workflow:run:start:precheck:version"@,
                version,
                Pending::RunPrecheckVersion { params, json },
            ),
            _ => starts_run(step, params, json),
        },
        Pending::RunPrecheckVersion { params, json } => {
            let declared = declared_names(
                items_at(at(at(value, "result"@), "version"@), "args"@),
            );
            let unknown = unknown_arg_text(params.workflow_id@, params.args.keys(), declared);
            match (refused, unknown) {
                (false, Some(message)) => ends(before, after, step, complaint(message, 1)),
                _ => after == before && starts_run(step, params, json),
            }
        },
        Pending::Run { json } => ends(
            before,
            after,
            step,
            reply_shown(reply, json, run_lines(value)),
        ),
        Pending::Mutation { json } => ends(before, after, step, mutation_shown(reply, json)),
        Pending::Node { json } => ends(
            before,
            after,
            step,
            reply_shown(reply, json, node_lines(value)),
        ),
        Pending::Expand { json } => ends(
            before,
            after,
            step,
            reply_shown(reply, json, expand_lines(value)),
        ),
        Pending::Interrogate { json } => ends(
            before,
            after,
            step,
            reply_shown(reply, json, interrogation_lines(value)),
        ),
        Pending::SummaryShow { json } => ends(
            before,
            after,
            step,
            reply_shown(reply, json, summary_show_lines(value)),
        ),
        Pending::SummaryList { json } => ends(
            before,
            after,
            step,
            reply_shown(reply, json, summary_list_lines(value)),
        ),
        Pending::ReviewShow { json } => ends(
            before,
            after,
            step,
            reply_shown(reply, json, review_show_lines(value)),
        ),
        Pending::ReportSession { json } => if json {
            ends(before, after, step, Shown { code: 0, ..raw_shown(reply) })
        } else {
            step == Step::Exit(0) && after == before
        },
    }
}

/// Goes on with a reply of the server.
pub fn resume_reply(then: Pending, reply: Reply, console: &mut Console) -> (r: Step)
    ensures
        reply_handled(then, reply, *old(console), *final(console), r),
{
    let null = Json::Null;
    let refused = reply.value.get("error").is_some();
    match then {
        Pending::Raw => Step::Exit(print_response(&reply, console)),
        Pending::Show => {
            if refused {
                return Step::Exit(print_response(&reply, console));
            }
            match reply.value.at("result", &null).at("workflow", &null).text_at("head_version_id") {
                Some(version) => send(
                    "cli:workflow:show:version",
                    Method::WorkflowVersionGet(version),
                    Pending::ShowVersion { response: reply.value },
                ),
                None => {
                    let human = print_workflow_show(&reply.value, None);
                    Step::Exit(console.succeed(&human))
                },
            }
        },
        Pending::ShowVersion { response } => {
            let human = if refused {
                print_workflow_show(&response, None)
            } else {
                print_workflow_show(&response, Some(&reply.value))
            };
            Step::Exit(console.succeed(&human))
        },
        Pending::Create { json } => Step::Exit(
            print_workflow_create_response(&reply, json, console),
        ),
        Pending::UpdatePrecheck { workflow_id, definition, change_summary, json } => {
            let previous: Option<u32> = match reply.value.at("result", &null).at(
                "workflow",
                &null,
            ).u64_at("head_version") {
                Some(v) => Some(v as u32),
                None => None,
            };
            send(
                "cli:workflow:update",
                Method::WorkflowVersionCreate(
                    WorkflowVersionCreateParams { workflow_id, definition, change_summary },
                ),
                Pending::Update { previous, json },
            )
        },
        Pending::Update { previous, json } => Step::Exit(
            print_workflow_update_response(&reply, json, previous, console),
        ),
        Pending::RunPrecheck { params, json } => {
            if !refused {
                match reply.value.at("result", &null).at("workflow", &null).text_at(
                    "head_version_id",
                ) {
                    Some(version) => {
                        return send(
                            "cli:workflow:run:start:precheck:version",
                            Method::WorkflowVersionGet(version),
                            Pending::RunPrecheckVersion { params, json },
                        );
                    },
                    None => {},
                }
            }
            send("cli:workflow:run:start", Method::WorkflowRun(params), Pending::Run { json })
        },
        Pending::RunPrecheckVersion { params, json } => {
            if !refused {
                let declared = read_declared_names(&reply.value);
                match unknown_arg_message(params.workflow_id.as_str(), &params.args, &declared) {
                    Some(message) => {
                        return Step::Exit(console.complain(message.as_str(), 1));
                    },
                    None => {},
                }
            }
            send("cli:workflow:run:start", Method::WorkflowRun(params), Pending::Run { json })
        },
        Pending::Run { json } => Step::Exit(print_workflow_run_response(&reply, json, console)),
        Pending::Mutation { json } => Step::Exit(print_workflow_mutation(&reply, json, console)),
        Pending::Node { json } => Step::Exit(print_workflow_node_response(&reply, json, console)),
        Pending::Expand { json } => Step::Exit(
            print_workflow_node_expand_response(&reply, json, console),
        ),
        Pending::Interrogate { json } => Step::Exit(
            print_workflow_node_interrogate_response(&reply, json, console),
        ),
        Pending::SummaryShow { json } => Step::Exit(
            print_workflow_summary_show_response(&reply, json, console),
        ),
        Pending::SummaryList { json } => Step::Exit(
            print_workflow_summary_list_response(&reply, json, console),
        ),
        Pending::ReviewShow { json } => Step::Exit(
            print_workflow_review_show_response(&reply, json, console),
        ),
        Pending::ReportSession { json } => {
            if json {
                let _ = print_response(&reply, console);
            }
            Step::Exit(0)
        },
    }
}

/// What follows where no reply came. A session's own report passes over that in silence,
/// and a look-up before an update or a start stands in no one's way; nothing means that
/// the error is the command's.
pub open spec fn silence_handled(then: Pending, r: Option<Step>) -> bool {
    match then {
        Pending::ReportSession { .. } => r == Some(Step::Exit(0)),
        Pending::UpdatePrecheck { workflow_id, definition, change_summary, json } => r matches Some(
            step,
        ) && sent(step, "cli:workflow:update"@) == Some(
            (
                Method::WorkflowVersionCreate(
                    WorkflowVersionCreateParams { workflow_id, definition, change_summary },
                ),
                Pending::Update { previous: None, json },
            ),
        ),
        Pending::RunPrecheck { params, json } => r matches Some(step) && starts_run(
            step,
            params,
            json,
        ),
        Pending::RunPrecheckVersion { params, json } => r matches Some(step) && starts_run(
            step,
            params,
            json,
        ),
        _ => r is None,
    }
}

/// Goes on where no reply came.
pub fn resume_unreachable(then: Pending) -> (r: Option<Step>)
    ensures
        silence_handled(then, r),
{
    match then {
        Pending::ReportSession { .. } => Some(Step::Exit(0)),
        Pending::UpdatePrecheck { workflow_id, definition, change_summary, json } => Some(
            send(
                "cli:workflow:update",
                Method::WorkflowVersionCreate(
                    WorkflowVersionCreateParams { workflow_id, definition, change_summary },
                ),
                Pending::Update { previous: None, json },
            ),
        ),
        Pending::RunPrecheck { params, json } => Some(
            send("cli:workflow:run:start", Method::WorkflowRun(params), Pending::Run { json }),
        ),
        Pending::RunPrecheckVersion { params, json } => Some(
            send("cli:workflow:run:start", Method::WorkflowRun(params), Pending::Run { json }),
        ),
        _ => None,
    }
}

/// A look-up that fails, with an error, without a version or with no reply at all, never keeps a run from
/// being started as it was asked for.
pub proof fn law_a_failed_look_up_blocks_no_run(
    params: WorkflowRunParams,
    json: bool,
    then: Pending,
    reply: Reply,
    before: Console,
    after: Console,
    answered: Step,
    unanswered: Option<Step>,
)
    requires
        then == (Pending::RunPrecheck { params, json }) || then == (Pending::RunPrecheckVersion {
            params,
            json,
        }),
        member(reply.value, "error"@) is Some || (then is RunPrecheck && head_version_id(
            reply.value,
        ) is None),
        reply_handled(then, reply, before, after, answered),
        silence_handled(then, unanswered),
    ensures
        starts_run(answered, params, json),
        after == before,
        unanswered matches Some(step) && starts_run(step, params, json),
{
}

/// A look-up that tells no version, or gets no reply at all, never keeps an update from
/// being sent, and no earlier version is claimed then.
pub proof fn law_a_failed_look_up_blocks_no_update(
    params: WorkflowVersionCreateParams,
    json: bool,
    reply: Reply,
    before: Console,
    after: Console,
    answered: Step,
    unanswered: Option<Step>,
)
    requires
        reply_handled(
            Pending::UpdatePrecheck {
                workflow_id: params.workflow_id,
                definition: params.definition,
                change_summary: params.change_summary,
                json,
            },
            reply,
            before,
            after,
            answered,
        ),
        head_version(reply.value) is None,
        silence_handled(
            Pending::UpdatePrecheck {
                workflow_id: params.workflow_id,
                definition: params.definition,
                change_summary: params.change_summary,
                json,
            },
            unanswered,
        ),
    ensures
        sent(answered, "cli:workflow:update"@) == Some(
            (Method::WorkflowVersionCreate(params), Pending::Update { previous: None, json }),
        ),
        after == before,
        unanswered matches Some(step) && sent(step, "cli:workflow:update"@) == Some(
            (Method::WorkflowVersionCreate(params), Pending::Update { previous: None, json }),
        ),
{
}

/// The report of a session never fails it: the command ends well, whatever its arguments,
/// its hook and the server say, or goes on to what ends well.
pub proof fn law_a_session_report_never_fails(
    args: Seq<String>,
    env: WorkflowEnv,
    json: bool,
    reply: Reply,
    before: Console,
    after: Console,
    started: Step,
    answered: Step,
    unanswered: Option<Step>,
)
    requires
        choice(texts(args)) matches Choice::Verb { verb: Verb::RunReportSession, .. },
        workflow_started(args, env, before, after, started),
        reply_handled(Pending::ReportSession { json }, reply, before, after, answered),
        silence_handled(Pending::ReportSession { json }, unanswered),
    ensures
        started == Step::Exit(0) || started is ReadHook,
        answered == Step::Exit(0),
        unanswered == Some(Step::Exit(0)),
{
}

/// A run is never started with an argument that its workflow is known not to declare.
pub proof fn law_no_run_starts_with_an_undeclared_argument(
    params: WorkflowRunParams,
    json: bool,
    reply: Reply,
    before: Console,
    after: Console,
    step: Step,
    i: int,
)
    requires
        reply_handled(
            Pending::RunPrecheckVersion { params, json },
            reply,
            before,
            after,
            step,
        ),
        member(reply.value, "error"@) is None,
        0 <= i < params.args.keys().len(),
        !has_text(
            declared_names(items_at(at(at(reply.value, "result"@), "version"@), "args"@)),
            params.args.keys()[i],
        ),
    ensures
        step == Step::Exit(1),
{
    law_only_undeclared_arguments_are_refused(
        params.workflow_id@,
        params.args.keys(),
        declared_names(items_at(at(at(reply.value, "result"@), "version"@), "args"@)),
    );
}

} // verus!
