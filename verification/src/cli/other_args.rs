//! Arguments of `kvx workflow list`, `show`, `create`, `update`, `summary` and
//! `review`.

use crate::app::review_start::{REVIEW_MEMBER_ENV_VAR, REVIEW_RUN_ID_ENV_VAR};
use crate::cli::run_args::{
    json_after, operands_then_json, parse_workflow_review_run_target_args, run_target_is,
};
use crate::cli::values::{drop_blank, parse_u32_flag, u32_flag, unless_blank};
use crate::text::{cat2, cat4, opt_text, starts_with_str, str_eq, texts};
use crate::wire::{
    WorkflowReviewAnswerParams, WorkflowReviewApplyParams, WorkflowReviewReportParams,
    WorkflowRunTarget, WorkflowSummaryListParams, WorkflowTarget,
};
use vstd::prelude::*;

verus! {

broadcast use crate::text::group_texts;

pub const LIST_USAGE: &'static str = "usage: kvx workflow list [--json]";

pub const SHOW_USAGE: &'static str = "usage: kvx workflow show <name|id> [--json]";

pub const CREATE_USAGE: &'static str =
    "usage: kvx workflow create --file <definition.toml|json> [--name <name>] [--json]";

pub const UPDATE_USAGE: &'static str =
    "usage: kvx workflow update <name|id> --file <definition.toml|json> [--change-summary <text>] [--json]";

pub const SUMMARY_SHOW_USAGE: &'static str = "usage: kvx workflow summary show <run_id> [--json]";

pub const SUMMARY_LIST_USAGE: &'static str =
    "usage: kvx workflow summary list [<workflow>] [--limit N] [--json]";

pub const REVIEW_START_USAGE: &'static str = "usage: kvx workflow review start <run_id> [--json]";

pub const REVIEW_SHOW_USAGE: &'static str = "usage: kvx workflow review show <run_id> [--json]";

pub const REVIEW_APPLY_USAGE: &'static str =
    "usage: kvx workflow review apply <run_id> (--accept <node_key>... | --decline-all) [--json]";

pub const REVIEW_ANSWER_USAGE: &'static str =
    "usage: kvx workflow review answer --file <path> [--json]";

pub const REVIEW_REPORT_USAGE: &'static str =
    "usage: kvx workflow review report --file <path> [--json]";

// ---------------------------------------------------------------------------
// list, show
// ---------------------------------------------------------------------------

pub fn parse_workflow_list_args(args: &[String]) -> (r: Result<bool, String>)
    ensures
        match (r, operands_then_json(texts(args@), 0)) {
            (Ok(json), Some(j)) => json == j,
            (Err(m), None) => m@ == LIST_USAGE@,
            _ => false,
        },
{
    match json_after(args, 0) {
        Some(json) => Ok(json),
        None => Err(LIST_USAGE.to_owned()),
    }
}

pub fn parse_workflow_show_args(args: &[String]) -> (r: Result<(WorkflowTarget, bool), String>)
    ensures
        match (r, operands_then_json(texts(args@), 1)) {
            (Ok((t, json)), Some(j)) => t.workflow_id == args@[0] && json == j,
            (Err(m), None) => m@ == SHOW_USAGE@,
            _ => false,
        },
{
    match json_after(args, 1) {
        Some(json) => Ok((WorkflowTarget { workflow_id: args[0].clone() }, json)),
        None => Err(SHOW_USAGE.to_owned()),
    }
}

// ---------------------------------------------------------------------------
// create, update
// ---------------------------------------------------------------------------

/// The flags of `create` and `update`: a definition file, one more text, and JSON.
pub struct DefinitionFlags {
    pub file: Option<Seq<char>>,
    pub extra: Option<Seq<char>>,
    pub json: bool,
}

pub open spec fn definition_defaults() -> DefinitionFlags {
    DefinitionFlags { file: None, extra: None, json: false }
}

/// The flags from place `i` on, added to `f`; `extra` is the name of the other flag
/// that takes a value.
pub open spec fn definition_flags(
    args: Seq<Seq<char>>,
    i: int,
    extra: Seq<char>,
    f: DefinitionFlags,
) -> Result<DefinitionFlags, Seq<char>>
    decreases args.len() - i,
{
    if i >= args.len() {
        Ok(f)
    } else if args[i] == "--file"@ {
        if i + 1 >= args.len() {
            Err("missing value for --file"@)
        } else {
            definition_flags(args, i + 2, extra, DefinitionFlags { file: Some(args[i + 1]), ..f })
        }
    } else if args[i] == extra {
        if i + 1 >= args.len() {
            Err("missing value for "@ + extra)
        } else {
            definition_flags(args, i + 2, extra, DefinitionFlags { extra: Some(args[i + 1]), ..f })
        }
    } else if args[i] == "--json"@ {
        definition_flags(args, i + 1, extra, DefinitionFlags { json: true, ..f })
    } else {
        Err("unknown option: "@ + args[i])
    }
}

fn read_definition_flags(args: &[String], from: usize, extra: &str) -> (r: Result<
    (Option<String>, Option<String>, bool),
    String,
>)
    requires
        from <= args@.len(),
    ensures
        match (r, definition_flags(texts(args@), from as int, extra@, definition_defaults())) {
            (Ok((file, other, json)), Ok(f)) => opt_text(file) == f.file && opt_text(other)
                == f.extra && json == f.json,
            (Err(m), Err(e)) => m@ == e,
            _ => false,
        },
{
    let ghost all = texts(args@);
    let mut file: Option<String> = None;
    let mut other: Option<String> = None;
    let mut json = false;
    let mut i: usize = from;
    while i < args.len()
        invariant
            from <= i <= args@.len(),
            all == texts(args@),
            definition_flags(all, from as int, extra@, definition_defaults()) == definition_flags(
                all,
                i as int,
                extra@,
                (DefinitionFlags { file: opt_text(file), extra: opt_text(other), json }),
            ),
        decreases args@.len() - i,
    {
        let arg = args[i].as_str();
        assert(all[i as int] == arg@);
        let has_value = args.len() - i > 1;
        if str_eq(arg, "--file") {
            if !has_value {
                return Err("missing value for --file".to_owned());
            }
            assert(all[i + 1] == args@[i + 1]@);
            file = Some(args[i + 1].clone());
            i = i + 2;
        } else if str_eq(arg, extra) {
            if !has_value {
                return Err(cat2("missing value for ", extra));
            }
            assert(all[i + 1] == args@[i + 1]@);
            other = Some(args[i + 1].clone());
            i = i + 2;
        } else if str_eq(arg, "--json") {
            json = true;
            i = i + 1;
        } else {
            return Err(cat2("unknown option: ", arg));
        }
    }
    Ok((file, other, json))
}

/// What `create` is asked: a definition file, perhaps another name, perhaps JSON.
pub open spec fn create_args(args: Seq<Seq<char>>) -> Result<
    (Seq<char>, Option<Seq<char>>, bool),
    Seq<char>,
> {
    match definition_flags(args, 0, "--name"@, definition_defaults()) {
        Err(m) => Err(m),
        Ok(f) => match f.file {
            Some(file) => Ok((file, f.extra, f.json)),
            None => Err(CREATE_USAGE@),
        },
    }
}

pub fn parse_workflow_create_args(args: &[String]) -> (r: Result<
    (String, Option<String>, bool),
    String,
>)
    ensures
        match r {
            Ok((file, name, json)) => create_args(texts(args@)) == Ok::<
                (Seq<char>, Option<Seq<char>>, bool),
                Seq<char>,
            >((file@, opt_text(name), json)),
            Err(m) => create_args(texts(args@)) == Err::<
                (Seq<char>, Option<Seq<char>>, bool),
                Seq<char>,
            >(m@),
        },
{
    match read_definition_flags(args, 0, "--name") {
        Err(m) => Err(m),
        Ok((file, name, json)) => match file {
            Some(file) => Ok((file, name, json)),
            None => Err(CREATE_USAGE.to_owned()),
        },
    }
}

/// What `update` is asked: the workflow, a definition file, perhaps what changed,
/// perhaps JSON.
pub open spec fn update_args(args: Seq<Seq<char>>) -> Result<
    (Seq<char>, Seq<char>, Option<Seq<char>>, bool),
    Seq<char>,
> {
    if args.len() == 0 {
        Err(UPDATE_USAGE@)
    } else {
        match definition_flags(args, 1, "--change-summary"@, definition_defaults()) {
            Err(m) => Err(m),
            Ok(f) => match f.file {
                Some(file) => Ok((args[0], file, f.extra, f.json)),
                None => Err(UPDATE_USAGE@),
            },
        }
    }
}

pub fn parse_workflow_update_args(args: &[String]) -> (r: Result<
    (String, String, Option<String>, bool),
    String,
>)
    ensures
        match r {
            Ok((id, file, summary, json)) => update_args(texts(args@)) == Ok::<
                (Seq<char>, Seq<char>, Option<Seq<char>>, bool),
                Seq<char>,
            >((id@, file@, opt_text(summary), json)),
            Err(m) => update_args(texts(args@)) == Err::<
                (Seq<char>, Seq<char>, Option<Seq<char>>, bool),
                Seq<char>,
            >(m@),
        },
{
    if args.len() == 0 {
        return Err(UPDATE_USAGE.to_owned());
    }
    match read_definition_flags(args, 1, "--change-summary") {
        Err(m) => Err(m),
        Ok((file, summary, json)) => match file {
            Some(file) => Ok((args[0].clone(), file, summary, json)),
            None => Err(UPDATE_USAGE.to_owned()),
        },
    }
}

// ---------------------------------------------------------------------------
// summary
// ---------------------------------------------------------------------------

pub fn parse_workflow_summary_show_args(args: &[String]) -> (r: Result<
    (WorkflowRunTarget, bool),
    String,
>)
    ensures
        run_target_is(r, args@, SUMMARY_SHOW_USAGE@),
{
    parse_workflow_review_run_target_args(args, SUMMARY_SHOW_USAGE)
}

/// What `summary list` is asked, from place `i` on: a workflow, a limit, JSON.
pub open spec fn summary_list_flags(
    args: Seq<Seq<char>>,
    i: int,
    workflow: Option<Seq<char>>,
    limit: Option<u32>,
    json: bool,
) -> Result<(Option<Seq<char>>, Option<u32>, bool), Seq<char>>
    decreases args.len() - i,
{
    if i >= args.len() {
        Ok((workflow, limit, json))
    } else if args[i] == "--limit"@ {
        if i + 1 >= args.len() {
            Err("missing value for --limit"@)
        } else {
            match u32_flag("--limit"@, args[i + 1]) {
                Ok(n) => summary_list_flags(args, i + 2, workflow, Some(n), json),
                Err(m) => Err(m),
            }
        }
    } else if args[i] == "--json"@ {
        summary_list_flags(args, i + 1, workflow, limit, true)
    } else if "--"@.is_prefix_of(args[i]) {
        Err("unknown option: "@ + args[i])
    } else if workflow is None {
        summary_list_flags(args, i + 1, Some(args[i]), limit, json)
    } else {
        Err(SUMMARY_LIST_USAGE@)
    }
}

pub fn parse_workflow_summary_list_args(args: &[String]) -> (r: Result<
    (WorkflowSummaryListParams, bool),
    String,
>)
    ensures
        match (r, summary_list_flags(texts(args@), 0, None, None, false)) {
            (Ok((p, json)), Ok((w, l, j))) => opt_text(p.workflow_id) == w && p.limit == l && json
                == j,
            (Err(m), Err(e)) => m@ == e,
            _ => false,
        },
{
    let ghost all = texts(args@);
    let mut workflow_id: Option<String> = None;
    let mut limit: Option<u32> = None;
    let mut json = false;
    let mut i: usize = 0;
    while i < args.len()
        invariant
            i <= args@.len(),
            all == texts(args@),
            summary_list_flags(all, 0, None, None, false) == summary_list_flags(
                all,
                i as int,
                opt_text(workflow_id),
                limit,
                json,
            ),
        decreases args@.len() - i,
    {
        let arg = args[i].as_str();
        assert(all[i as int] == arg@);
        if str_eq(arg, "--limit") {
            if args.len() - i <= 1 {
                return Err("missing value for --limit".to_owned());
            }
            assert(all[i + 1] == args@[i + 1]@);
            match parse_u32_flag("--limit", args[i + 1].as_str()) {
                Ok(n) => {
                    limit = Some(n);
                },
                Err(m) => {
                    return Err(m);
                },
            }
            i = i + 2;
        } else if str_eq(arg, "--json") {
            json = true;
            i = i + 1;
        } else if starts_with_str(arg, "--") {
            return Err(cat2("unknown option: ", arg));
        } else if workflow_id.is_none() {
            workflow_id = Some(args[i].clone());
            i = i + 1;
        } else {
            return Err(SUMMARY_LIST_USAGE.to_owned());
        }
    }
    Ok((WorkflowSummaryListParams { workflow_id, limit }, json))
}

// ---------------------------------------------------------------------------
// review apply
// ---------------------------------------------------------------------------

/// The flags of `review apply`.
pub struct ApplyFlags {
    pub accept: Seq<Seq<char>>,
    pub decline_all: bool,
    pub json: bool,
}

pub open spec fn apply_defaults() -> ApplyFlags {
    ApplyFlags { accept: Seq::empty(), decline_all: false, json: false }
}

/// The flags of `review apply` from place `i` on, added to `f`.
pub open spec fn apply_flags(args: Seq<Seq<char>>, i: int, f: ApplyFlags) -> Result<
    ApplyFlags,
    Seq<char>,
>
    decreases args.len() - i,
{
    if i >= args.len() {
        Ok(f)
    } else if args[i] == "--accept"@ {
        if i + 1 >= args.len() {
            Err("missing value for --accept\n"@ + REVIEW_APPLY_USAGE@)
        } else {
            apply_flags(args, i + 2, ApplyFlags { accept: f.accept.push(args[i + 1]), ..f })
        }
    } else if args[i] == "--decline-all"@ {
        apply_flags(args, i + 1, ApplyFlags { decline_all: true, ..f })
    } else if args[i] == "--json"@ {
        apply_flags(args, i + 1, ApplyFlags { json: true, ..f })
    } else {
        Err("unknown option: "@ + args[i] + "\n"@ + REVIEW_APPLY_USAGE@)
    }
}

/// What `review apply` is asked: exactly one of accepting named findings and
/// declining all of them.
pub open spec fn apply_args(args: Seq<Seq<char>>) -> Result<ApplyFlags, Seq<char>> {
    if args.len() == 0 {
        Err(REVIEW_APPLY_USAGE@)
    } else {
        match apply_flags(args, 1, apply_defaults()) {
            Err(m) => Err(m),
            Ok(f) => if f.decline_all && f.accept.len() > 0 {
                Err("pass either --accept or --decline-all, not both\n"@ + REVIEW_APPLY_USAGE@)
            } else if !f.decline_all && f.accept.len() == 0 {
                Err(
                    "an apply must say what to do: pass --accept <node_key> (repeatable) or --decline-all — minting a version is irreversible and never defaults\n"@
                        + REVIEW_APPLY_USAGE@,
                )
            } else {
                Ok(f)
            },
        }
    }
}

pub fn parse_workflow_review_apply_args(args: &[String]) -> (r: Result<
    (WorkflowReviewApplyParams, bool),
    String,
>)
    ensures
        match (r, apply_args(texts(args@))) {
            (Ok((p, json)), Ok(f)) => p.run_id == args@[0] && texts(p.accept@) == f.accept && json
                == f.json,
            (Err(m), Err(e)) => m@ == e,
            _ => false,
        },
{
    let ghost all = texts(args@);
    if args.len() == 0 {
        return Err(REVIEW_APPLY_USAGE.to_owned());
    }
    let mut accept: Vec<String> = Vec::new();
    let mut decline_all = false;
    let mut json = false;
    let mut i: usize = 1;
    assert(texts(accept@) =~= Seq::<Seq<char>>::empty());
    while i < args.len()
        invariant
            1 <= i <= args@.len(),
            all == texts(args@),
            apply_flags(all, 1, apply_defaults()) == apply_flags(
                all,
                i as int,
                (ApplyFlags { accept: texts(accept@), decline_all, json }),
            ),
        decreases args@.len() - i,
    {
        let arg = args[i].as_str();
        assert(all[i as int] == arg@);
        if str_eq(arg, "--accept") {
            if args.len() - i <= 1 {
                return Err(cat2("missing value for --accept\n", REVIEW_APPLY_USAGE));
            }
            assert(all[i + 1] == args@[i + 1]@);
            accept.push(args[i + 1].clone());
            i = i + 2;
        } else if str_eq(arg, "--decline-all") {
            decline_all = true;
            i = i + 1;
        } else if str_eq(arg, "--json") {
            json = true;
            i = i + 1;
        } else {
            return Err(cat4("unknown option: ", arg, "\n", REVIEW_APPLY_USAGE));
        }
    }
    if decline_all && accept.len() > 0 {
        return Err(
            cat2("pass either --accept or --decline-all, not both\n", REVIEW_APPLY_USAGE),
        );
    }
    if !decline_all && accept.len() == 0 {
        return Err(
            cat2(
                "an apply must say what to do: pass --accept <node_key> (repeatable) or --decline-all — minting a version is irreversible and never defaults\n",
                REVIEW_APPLY_USAGE,
            ),
        );
    }
    Ok((WorkflowReviewApplyParams { run_id: args[0].clone(), accept }, json))
}

/// Applying a review never defaults to anything: an accepted `review apply` names
/// findings, or says that it declines all of them, and never both.
pub proof fn law_apply_never_defaults(args: Seq<Seq<char>>)
    ensures
        match apply_args(args) {
            Ok(f) => f.decline_all <==> f.accept.len() == 0,
            Err(_) => true,
        },
{
}

// ---------------------------------------------------------------------------
// review answer, review report
// ---------------------------------------------------------------------------

/// The file and JSON flag of a self-report, from place `i` on.
pub open spec fn report_flags(
    args: Seq<Seq<char>>,
    i: int,
    usage: Seq<char>,
    file: Option<Seq<char>>,
    json: bool,
) -> Result<(Option<Seq<char>>, bool), Seq<char>>
    decreases args.len() - i,
{
    if i >= args.len() {
        Ok((file, json))
    } else if args[i] == "--file"@ {
        if i + 1 >= args.len() {
            Err("missing value for --file\n"@ + usage)
        } else {
            report_flags(args, i + 2, usage, Some(args[i + 1]), json)
        }
    } else if args[i] == "--json"@ {
        report_flags(args, i + 1, usage, file, true)
    } else {
        Err("unknown option: "@ + args[i] + "\n"@ + usage)
    }
}

fn read_report_flags(args: &[String], usage: &str) -> (r: Result<(Option<String>, bool), String>)
    ensures
        match (r, report_flags(texts(args@), 0, usage@, None, false)) {
            (Ok((file, json)), Ok((f, j))) => opt_text(file) == f && json == j,
            (Err(m), Err(e)) => m@ == e,
            _ => false,
        },
{
    let ghost all = texts(args@);
    let mut file: Option<String> = None;
    let mut json = false;
    let mut i: usize = 0;
    while i < args.len()
        invariant
            i <= args@.len(),
            all == texts(args@),
            report_flags(all, 0, usage@, None, false) == report_flags(
                all,
                i as int,
                usage@,
                opt_text(file),
                json,
            ),
        decreases args@.len() - i,
    {
        let arg = args[i].as_str();
        assert(all[i as int] == arg@);
        if str_eq(arg, "--file") {
            if args.len() - i <= 1 {
                return Err(cat2("missing value for --file\n", usage));
            }
            assert(all[i + 1] == args@[i + 1]@);
            file = Some(args[i + 1].clone());
            i = i + 2;
        } else if str_eq(arg, "--json") {
            json = true;
            i = i + 1;
        } else {
            return Err(cat4("unknown option: ", arg, "\n", usage));
        }
    }
    Ok((file, json))
}

/// What `review answer` is asked: the file, and the run and member that only the
/// environment of the interview pane can name.
pub open spec fn answer_args(
    args: Seq<Seq<char>>,
    env_run: Option<Seq<char>>,
    env_member: Option<Seq<char>>,
) -> Result<(Seq<char>, Seq<char>, Seq<char>, bool), Seq<char>> {
    match report_flags(args, 0, REVIEW_ANSWER_USAGE@, None, false) {
        Err(m) => Err(m),
        Ok((None, _)) => Err(
            "an answer file is required: pass --file <path>\n"@ + REVIEW_ANSWER_USAGE@,
        ),
        Ok((Some(file), json)) => match (unless_blank(env_run), unless_blank(env_member)) {
            (None, _) => Err(
                "no run to answer for: run this from a review interview pane, where "@
                    + REVIEW_RUN_ID_ENV_VAR@ + " is exported\n"@ + REVIEW_ANSWER_USAGE@,
            ),
            (_, None) => Err(
                "no member to answer as: run this from a review interview pane, where "@
                    + REVIEW_MEMBER_ENV_VAR@ + " is exported\n"@ + REVIEW_ANSWER_USAGE@,
            ),
            (Some(run), Some(member)) => Ok((run, member, file, json)),
        },
    }
}

pub fn parse_workflow_review_answer_args(
    args: &[String],
    env_run_id: Option<String>,
    env_member: Option<String>,
) -> (r: Result<(WorkflowReviewAnswerParams, bool), String>)
    ensures
        match (r, answer_args(texts(args@), opt_text(env_run_id), opt_text(env_member))) {
            (Ok((p, json)), Ok((run, member, file, j))) => p.run_id@ == run && p.member@ == member
                && p.answer is None && opt_text(p.answer_file) == Some(file) && json == j,
            (Err(m), Err(e)) => m@ == e,
            _ => false,
        },
{
    let (file, json) = match read_report_flags(args, REVIEW_ANSWER_USAGE) {
        Ok(parsed) => parsed,
        Err(m) => {
            return Err(m);
        },
    };
    let file = match file {
        Some(file) => file,
        None => {
            return Err(
                cat2("an answer file is required: pass --file <path>\n", REVIEW_ANSWER_USAGE),
            );
        },
    };
    let run_id = match drop_blank(env_run_id) {
        Some(run) => run,
        None => {
            return Err(
                cat4(
                    "no run to answer for: run this from a review interview pane, where ",
                    REVIEW_RUN_ID_ENV_VAR,
                    " is exported\n",
                    REVIEW_ANSWER_USAGE,
                ),
            );
        },
    };
    let member = match drop_blank(env_member) {
        Some(member) => member,
        None => {
            return Err(
                cat4(
                    "no member to answer as: run this from a review interview pane, where ",
                    REVIEW_MEMBER_ENV_VAR,
                    " is exported\n",
                    REVIEW_ANSWER_USAGE,
                ),
            );
        },
    };
    Ok((WorkflowReviewAnswerParams { run_id, member, answer: None, answer_file: Some(file) }, json))
}

/// What `review report` is asked: the file, and the run that only the environment of
/// the synthesis pane can name.
pub open spec fn findings_args(args: Seq<Seq<char>>, env_run: Option<Seq<char>>) -> Result<
    (Seq<char>, Seq<char>, bool),
    Seq<char>,
> {
    match report_flags(args, 0, REVIEW_REPORT_USAGE@, None, false) {
        Err(m) => Err(m),
        Ok((None, _)) => Err(
            "a findings file is required: pass --file <path>\n"@ + REVIEW_REPORT_USAGE@,
        ),
        Ok((Some(file), json)) => match unless_blank(env_run) {
            None => Err(
                "no run to report for: run this from a review synthesis pane, where "@
                    + REVIEW_RUN_ID_ENV_VAR@ + " is exported\n"@ + REVIEW_REPORT_USAGE@,
            ),
            Some(run) => Ok((run, file, json)),
        },
    }
}

pub fn parse_workflow_review_report_args(args: &[String], env_run_id: Option<String>) -> (r: Result<
    (WorkflowReviewReportParams, bool),
    String,
>)
    ensures
        match (r, findings_args(texts(args@), opt_text(env_run_id))) {
            (Ok((p, json)), Ok((run, file, j))) => p.run_id@ == run && p.findings is None
                && opt_text(p.findings_file) == Some(file) && json == j,
            (Err(m), Err(e)) => m@ == e,
            _ => false,
        },
{
    let (file, json) = match read_report_flags(args, REVIEW_REPORT_USAGE) {
        Ok(parsed) => parsed,
        Err(m) => {
            return Err(m);
        },
    };
    let file = match file {
        Some(file) => file,
        None => {
            return Err(
                cat2("a findings file is required: pass --file <path>\n", REVIEW_REPORT_USAGE),
            );
        },
    };
    let run_id = match drop_blank(env_run_id) {
        Some(run) => run,
        None => {
            return Err(
                cat4(
                    "no run to report for: run this from a review synthesis pane, where ",
                    REVIEW_RUN_ID_ENV_VAR,
                    " is exported\n",
                    REVIEW_REPORT_USAGE,
                ),
            );
        },
    };
    Ok((WorkflowReviewReportParams { run_id, findings: None, findings_file: Some(file) }, json))
}

} // verus!
