//! Single lines of what `kvx workflow` prints for a person.

use crate::calendar::{clock_text, format_unix_ms, format_unix_ms_clock, stamp_text};
use crate::json::{
    array_of, at, flag_at, member, text_at, text_or, unsigned_at, unsigned_or_0, Json,
};
use crate::text::{
    after_part, cat2, cat3, cat4, cat5, cat6, cat7, contains_part, decimal, decimal_text,
    has_part, join, join_strings, lines, opt_text, pad_right, padded_right, replace_char,
    replaced, split_lines, split_once, split_once_at, str_eq, text_after_part, texts, trim,
    trim_str,
};
use vstd::prelude::*;

verus! {

broadcast use crate::text::group_texts;

/// The point in time under `key`, written out; nothing where there is none.
pub open spec fn stamp_at(value: Json, key: Seq<char>) -> Seq<char> {
    match unsigned_at(value, key) {
        Some(ms) => stamp_text(ms as nat),
        None => Seq::empty(),
    }
}

pub fn stamp_or_empty(value: &Json, key: &str) -> (r: String)
    ensures
        r@ == stamp_at(*value, key@),
{
    match value.u64_at(key) {
        Some(ms) => format_unix_ms(ms),
        None => String::new(),
    }
}

// ---------------------------------------------------------------------------
// Summaries and findings
// ---------------------------------------------------------------------------

/// One row of `summary list`.
pub open spec fn summary_row(summary: Json) -> Seq<char> {
    text_or(summary, "run_id"@, ""@) + "  "@ + pad_right(
        text_or(summary, "workflow_name"@, ""@),
        20,
    ) + " "@ + pad_right(text_or(summary, "outcome"@, ""@), 12) + " "@ + (stamp_at(
        summary,
        "created_at_unix_ms"@,
    ) + (if flag_at(summary, "run_pruned"@) {
        " (pruned)"@
    } else {
        ""@
    }))
}

pub fn format_summary_list_row(summary: &Json) -> (r: String)
    ensures
        r@ == summary_row(*summary),
{
    let pruned = if summary.flag_at("run_pruned") {
        " (pruned)"
    } else {
        ""
    };
    let created = cat2(stamp_or_empty(summary, "created_at_unix_ms").as_str(), pruned);
    cat7(
        summary.text_or("run_id", "").as_str(),
        "  ",
        padded_right(summary.text_or("workflow_name", "").as_str(), 20).as_str(),
        " ",
        padded_right(summary.text_or("outcome", "").as_str(), 12).as_str(),
        " ",
        created.as_str(),
    )
}

/// One finding under `review show`.
pub open spec fn finding_line(finding: Json) -> Seq<char> {
    "  "@ + pad_right(text_or(finding, "node_key"@, ""@), 24) + " "@ + pad_right(
        text_or(finding, "level"@, ""@),
        11,
    ) + " "@ + pad_right(text_or(finding, "verdict"@, ""@), 8) + (" ("@ + text_or(
        finding,
        "interview_mode"@,
        ""@,
    ) + ", "@ + (if flag_at(finding, "accepted"@) {
        "accepted"@
    } else {
        "pending"@
    }) + ")"@)
}

pub fn format_review_finding_line(finding: &Json) -> (r: String)
    ensures
        r@ == finding_line(*finding),
{
    let accepted = if finding.flag_at("accepted") {
        "accepted"
    } else {
        "pending"
    };
    let tail = cat5(
        " (",
        finding.text_or("interview_mode", "").as_str(),
        ", ",
        accepted,
        ")",
    );
    cat7(
        "  ",
        padded_right(finding.text_or("node_key", "").as_str(), 24).as_str(),
        " ",
        padded_right(finding.text_or("level", "").as_str(), 11).as_str(),
        " ",
        padded_right(finding.text_or("verdict", "").as_str(), 8).as_str(),
        tail.as_str(),
    )
}

// ---------------------------------------------------------------------------
// Runs
// ---------------------------------------------------------------------------

/// One member under `run show`. Whoever has no pane is the session itself.
pub open spec fn member_line(member: Json) -> Seq<char> {
    let model = text_or(member, "model"@, ""@);
    let pane = text_or(member, "pane_id"@, ""@);
    "  "@ + text_or(member, "name"@, ""@) + " ("@ + (if flag_at(member, "is_active"@) {
        "active"@
    } else {
        "idle"@
    }) + (if model.len() == 0 {
        Seq::empty()
    } else {
        ", "@ + model
    }) + ")"@ + (if pane.len() == 0 {
        " — "@ + text_or(member, "backend_type"@, ""@)
    } else {
        " — pane "@ + pane
    })
}

pub fn format_run_member_line(member: &Json) -> (r: String)
    ensures
        r@ == member_line(*member),
{
    let active = if member.flag_at("is_active") {
        "active"
    } else {
        "idle"
    };
    let model = member.text_or("model", "");
    let with_model = if model.as_str().is_empty() {
        String::new()
    } else {
        cat2(", ", model.as_str())
    };
    let pane = member.text_or("pane_id", "");
    let place = if pane.as_str().is_empty() {
        cat2(" — ", member.text_or("backend_type", "").as_str())
    } else {
        cat2(" — pane ", pane.as_str())
    };
    cat7(
        "  ",
        member.text_or("name", "").as_str(),
        " (",
        active,
        with_model.as_str(),
        ")",
        place.as_str(),
    )
}

/// One node under `run show`. A label that only repeats the path is left out.
pub open spec fn node_line(node: Json) -> Seq<char> {
    let path = text_or(node, "path"@, ""@);
    let status = text_or(node, "status"@, ""@);
    let label = trim(text_or(node, "label"@, ""@));
    if label.len() == 0 || label == path {
        "  "@ + pad_right(path, 28) + " "@ + status
    } else {
        "  "@ + pad_right(path, 28) + " "@ + pad_right(status, 12) + " "@ + label
    }
}

pub fn format_run_node_line(node: &Json) -> (r: String)
    ensures
        r@ == node_line(*node),
{
    let path = node.text_or("path", "");
    let status = node.text_or("status", "");
    let label = trim_str(node.text_or("label", "").as_str());
    if label.as_str().is_empty() || str_eq(label.as_str(), path.as_str()) {
        cat4("  ", padded_right(path.as_str(), 28).as_str(), " ", status.as_str())
    } else {
        cat6(
            "  ",
            padded_right(path.as_str(), 28).as_str(),
            " ",
            padded_right(status.as_str(), 12).as_str(),
            " ",
            label.as_str(),
        )
    }
}

/// The ceilings a run enforces. Only a run that states neither has no such line.
pub open spec fn limits_line(run: Json) -> Option<Seq<char>> {
    if member(run, "max_nodes"@) is Some || member(run, "max_depth"@) is Some {
        Some(
            "limits:  max_nodes="@ + decimal(unsigned_or_0(run, "max_nodes"@) as nat)
                + " · max_depth="@ + decimal(unsigned_or_0(run, "max_depth"@) as nat),
        )
    } else {
        None
    }
}

pub fn format_run_limits_line(run: &Json) -> (r: Option<String>)
    ensures
        opt_text(r) == limits_line(*run),
{
    if run.get("max_nodes").is_none() && run.get("max_depth").is_none() {
        return None;
    }
    Some(
        cat4(
            "limits:  max_nodes=",
            decimal_text(run.u64_or_0("max_nodes")).as_str(),
            " · max_depth=",
            decimal_text(run.u64_or_0("max_depth")).as_str(),
        ),
    )
}

/// Whether a limit is recorded under `growth_limited`.
pub open spec fn growth_limited(value: Json) -> bool {
    !(at(value, "growth_limited"@) is Null)
}

/// How far a run has grown, where it was ever limited.
pub open spec fn run_growth_line(run: Json) -> Option<Seq<char>> {
    let limit = at(run, "growth_limited"@);
    if growth_limited(run) {
        Some(
            "growth:  "@ + decimal(unsigned_or_0(run, "nodes_live"@) as nat) + " of "@ + decimal(
                unsigned_or_0(run, "max_nodes"@) as nat,
            ) + " nodes · limited: "@ + (text_or(limit, "kind"@, "limit"@) + " reached at "@
                + clock_text(unsigned_or_0(limit, "at_unix_ms"@) as nat)),
        )
    } else {
        None
    }
}

pub fn format_run_growth_line(run: &Json) -> (r: Option<String>)
    ensures
        opt_text(r) == run_growth_line(*run),
{
    let limit = match run.get("growth_limited") {
        Some(l) => l,
        None => {
            return None;
        },
    };
    if limit.is_null() {
        return None;
    }
    let reached = cat3(
        limit.text_or("kind", "limit").as_str(),
        " reached at ",
        format_unix_ms_clock(limit.u64_or_0("at_unix_ms")).as_str(),
    );
    Some(
        cat6(
            "growth:  ",
            decimal_text(run.u64_or_0("nodes_live")).as_str(),
            " of ",
            decimal_text(run.u64_or_0("max_nodes")).as_str(),
            " nodes · limited: ",
            reached.as_str(),
        ),
    )
}

/// What one proposing node was refused.
pub open spec fn node_growth_line(node: Json) -> Option<Seq<char>> {
    let limit = at(node, "growth_limited"@);
    if growth_limited(node) {
        Some(
            "growth_limited: "@ + text_or(limit, "kind"@, "limit"@) + " reached at "@ + clock_text(
                unsigned_or_0(limit, "at_unix_ms"@) as nat,
            ) + (" ("@ + decimal(unsigned_or_0(limit, "accepted"@) as nat) + " of "@ + decimal(
                unsigned_or_0(limit, "requested"@) as nat,
            ) + " accepted)"@),
        )
    } else {
        None
    }
}

pub fn format_node_growth_limited_line(node: &Json) -> (r: Option<String>)
    ensures
        opt_text(r) == node_growth_line(*node),
{
    let limit = match node.get("growth_limited") {
        Some(l) => l,
        None => {
            return None;
        },
    };
    if limit.is_null() {
        return None;
    }
    let counts = cat5(
        " (",
        decimal_text(limit.u64_or_0("accepted")).as_str(),
        " of ",
        decimal_text(limit.u64_or_0("requested")).as_str(),
        " accepted)",
    );
    Some(
        cat5(
            "growth_limited: ",
            limit.text_or("kind", "limit").as_str(),
            " reached at ",
            format_unix_ms_clock(limit.u64_or_0("at_unix_ms")).as_str(),
            counts.as_str(),
        ),
    )
}

/// The last delivery the runtime refused for a node.
pub open spec fn delivery_failure_line(node: Json) -> Option<Seq<char>> {
    match text_at(node, "delivery_failure"@) {
        Some(text) => Some("delivery_failure: "@ + text),
        None => None,
    }
}

pub fn format_node_delivery_failure_line(node: &Json) -> (r: Option<String>)
    ensures
        opt_text(r) == delivery_failure_line(*node),
{
    match node.text_at("delivery_failure") {
        Some(text) => Some(cat2("delivery_failure: ", text.as_str())),
        None => None,
    }
}

/// Whether a node has a transcript on record.
pub open spec fn transcript_line(node: Json) -> Seq<char> {
    if text_at(node, "transcript_path"@) is Some {
        "transcript: present"@
    } else {
        "transcript: absent"@
    }
}

pub fn format_node_transcript_line(node: &Json) -> (r: String)
    ensures
        r@ == transcript_line(*node),
{
    if node.text_at("transcript_path").is_some() {
        "transcript: present".to_owned()
    } else {
        "transcript: absent".to_owned()
    }
}

/// Where a restored node comes from.
pub open spec fn restored_from_line(node: Json) -> Option<Seq<char>> {
    let source = at(node, "restored_from"@);
    if source is Null {
        None
    } else {
        Some(
            "restored from: run "@ + text_or(source, "run_id"@, ""@) + " · node "@ + text_or(
                source,
                "node_key"@,
                ""@,
            ) + " · checkpoint #"@ + decimal(unsigned_or_0(source, "checkpoint_seq"@) as nat),
        )
    }
}

pub fn format_node_restored_from_line(node: &Json) -> (r: Option<String>)
    ensures
        opt_text(r) == restored_from_line(*node),
{
    let source = match node.get("restored_from") {
        Some(s) => s,
        None => {
            return None;
        },
    };
    if source.is_null() {
        return None;
    }
    Some(
        cat6(
            "restored from: run ",
            source.text_or("run_id", "").as_str(),
            " · node ",
            source.text_or("node_key", "").as_str(),
            " · checkpoint #",
            decimal_text(source.u64_or_0("checkpoint_seq")).as_str(),
        ),
    )
}

// ---------------------------------------------------------------------------
// Restore report
// ---------------------------------------------------------------------------

/// The strings among `values`, in order.
pub open spec fn strings_of(values: Seq<Json>) -> Seq<Seq<char>>
    decreases values.len(),
{
    if values.len() == 0 {
        Seq::empty()
    } else {
        let before = strings_of(values.drop_last());
        match values.last() {
            Json::Str(s) => before.push(s@),
            _ => before,
        }
    }
}

pub fn collect_strings(values: &Vec<Json>) -> (r: Vec<String>)
    ensures
        texts(r@) == strings_of(values@),
{
    let mut out: Vec<String> = Vec::new();
    let mut i: usize = 0;
    assert(texts(out@) =~= strings_of(values@.take(0)));
    while i < values.len()
        invariant
            i <= values@.len(),
            texts(out@) == strings_of(values@.take(i as int)),
        decreases values@.len() - i,
    {
        assert(values@.take(i as int + 1).drop_last() =~= values@.take(i as int));
        match &values[i] {
            Json::Str(s) => {
                out.push(s.clone());
            },
            _ => {},
        }
        i = i + 1;
    }
    assert(values@.take(values@.len() as int) =~= values@);
    out
}

/// One node that was not restored, and why.
pub open spec fn skip_text(skip: Json) -> Seq<char> {
    text_or(skip, "selector"@, ""@) + " ("@ + replaced(text_or(skip, "reason"@, ""@), '_', ' ')
        + ")"@
}

/// Every node that was not restored, and why.
pub open spec fn skip_texts(skipped: Seq<Json>) -> Seq<Seq<char>> {
    skipped.map_values(|s: Json| skip_text(s))
}

fn collect_skips(skipped: &Vec<Json>) -> (r: Vec<String>)
    ensures
        texts(r@) == skip_texts(skipped@),
{
    let mut out: Vec<String> = Vec::new();
    let mut i: usize = 0;
    assert(texts(out@) =~= skip_texts(skipped@).take(0));
    while i < skipped.len()
        invariant
            i <= skipped@.len(),
            texts(out@) == skip_texts(skipped@).take(i as int),
        decreases skipped@.len() - i,
    {
        let skip = &skipped[i];
        out.push(
            cat4(
                skip.text_or("selector", "").as_str(),
                " (",
                replace_char(skip.text_or("reason", "").as_str(), '_', ' ').as_str(),
                ")",
            ),
        );
        assert(skip_texts(skipped@).take(i as int + 1) =~= skip_texts(skipped@).take(
            i as int,
        ).push(skip_text(*skip)));
        i = i + 1;
    }
    assert(skip_texts(skipped@).take(skipped@.len() as int) =~= skip_texts(skipped@));
    out
}

/// The elements under `key`; none where there is no array.
pub open spec fn items_at(value: Json, key: Seq<char>) -> Seq<Json> {
    match array_of(at(value, key)) {
        Some(v) => v,
        None => Seq::empty(),
    }
}

/// What a restoring run took over and what it left out. A run that does not restore
/// says nothing; one that restored nothing says so.
pub open spec fn restore_line(restore: Json) -> Option<Seq<char>> {
    let restored = strings_of(items_at(restore, "restored"@));
    let skipped = skip_texts(items_at(restore, "skipped"@));
    if restore is Null {
        None
    } else if restored.len() == 0 && skipped.len() == 0 {
        Some("restore: none restored, none skipped"@)
    } else if skipped.len() == 0 {
        Some("restored: "@ + join(restored, ", "@))
    } else if restored.len() == 0 {
        Some("skipped: "@ + join(skipped, ", "@))
    } else {
        Some("restored: "@ + join(restored, ", "@) + " · "@ + ("skipped: "@ + join(skipped, ", "@)))
    }
}

pub fn format_restore_report_line(restore: &Json) -> (r: Option<String>)
    ensures
        opt_text(r) == restore_line(*restore),
{
    if restore.is_null() {
        return None;
    }
    let null = Json::Null;
    let restored: Vec<String> = match restore.at("restored", &null).as_array() {
        Some(v) => collect_strings(v),
        None => Vec::new(),
    };
    let skipped: Vec<String> = match restore.at("skipped", &null).as_array() {
        Some(v) => collect_skips(v),
        None => Vec::new(),
    };
    assert(texts(restored@) =~= strings_of(items_at(*restore, "restored"@)));
    assert(texts(skipped@) =~= skip_texts(items_at(*restore, "skipped"@)));
    if restored.len() == 0 && skipped.len() == 0 {
        return Some("restore: none restored, none skipped".to_owned());
    }
    let first = cat2("restored: ", join_strings(restored.as_slice(), ", ").as_str());
    let second = cat2("skipped: ", join_strings(skipped.as_slice(), ", ").as_str());
    if skipped.len() == 0 {
        Some(first)
    } else if restored.len() == 0 {
        Some(second)
    } else {
        Some(cat3(first.as_str(), " · ", second.as_str()))
    }
}

// ---------------------------------------------------------------------------
// Errors
// ---------------------------------------------------------------------------

/// The name that a unique-index violation of the store complains about.
pub open spec fn duplicate_name(message: Seq<char>) -> Option<Seq<char>> {
    if !has_part(message, "workflow_name"@) {
        None
    } else {
        match after_part(message, "already contains '"@) {
            None => None,
            Some(rest) => match split_once(rest, '\'') {
                Some((name, _)) => Some(name),
                None => None,
            },
        }
    }
}

pub fn duplicate_workflow_name(message: &str) -> (r: Option<String>)
    ensures
        opt_text(r) == duplicate_name(message@),
{
    if !contains_part(message, "workflow_name") {
        return None;
    }
    match text_after_part(message, "already contains '") {
        None => None,
        Some(rest) => match split_once_at(rest.as_str(), '\'') {
            Some((name, _)) => Some(name),
            None => None,
        },
    }
}

/// The message a person reads. A duplicate name is told in words; every other
/// message stays as the server wrote it.
pub open spec fn human_message(code: Seq<char>, message: Seq<char>) -> Seq<char> {
    if code == "workflow_store_error"@ && duplicate_name(message) is Some {
        let name = duplicate_name(message)->0;
        "a workflow named \""@ + name
            + "\" already exists; choose a different name, or run `kvx workflow update "@ + name
            + " --file <definition>` to add a new version to the existing one"@
    } else {
        message
    }
}

pub fn humanize_workflow_error_message(code: &str, message: &str) -> (r: String)
    ensures
        r@ == human_message(code@, message@),
{
    if str_eq(code, "workflow_store_error") {
        match duplicate_workflow_name(message) {
            Some(name) => {
                return cat5(
                    "a workflow named \"",
                    name.as_str(),
                    "\" already exists; choose a different name, or run `kvx workflow update ",
                    name.as_str(),
                    " --file <definition>` to add a new version to the existing one",
                );
            },
            None => {},
        }
    }
    message.to_owned()
}

/// `parts`, each on a line of its own behind two spaces.
pub open spec fn indented(parts: Seq<Seq<char>>) -> Seq<char>
    decreases parts.len(),
{
    if parts.len() == 0 {
        Seq::empty()
    } else {
        indented(parts.drop_last()) + "\n  "@ + parts.last()
    }
}

/// An error reply as a person reads it; nothing where the reply carries no error.
pub open spec fn error_text(response: Json) -> Option<Seq<char>> {
    match member(response, "error"@) {
        None => None,
        Some(error) => {
            let code = text_or(error, "code"@, ""@);
            Some(
                "error: "@ + code + indented(
                    lines(human_message(code, text_or(error, "message"@, ""@))),
                ),
            )
        },
    }
}

pub fn format_workflow_error(response: &Json) -> (r: Option<String>)
    ensures
        opt_text(r) == error_text(*response),
{
    let error = match response.get("error") {
        Some(e) => e,
        None => {
            return None;
        },
    };
    let code = error.text_or("code", "");
    let message = humanize_workflow_error_message(
        code.as_str(),
        error.text_or("message", "").as_str(),
    );
    let parts = split_lines(message.as_str());
    let mut out = cat2("error: ", code.as_str());
    let ghost head = out@;
    let ghost all = texts(parts@);
    let mut i: usize = 0;
    assert(head + indented(all.take(0)) =~= head);
    while i < parts.len()
        invariant
            i <= parts@.len(),
            all == texts(parts@),
            out@ == head + indented(all.take(i as int)),
        decreases parts@.len() - i,
    {
        out.append("\n  ");
        out.append(parts[i].as_str());
        proof {
            assert(all.take(i as int + 1).drop_last() =~= all.take(i as int));
            assert(out@ =~= head + indented(all.take(i as int + 1)));
        }
        i = i + 1;
    }
    assert(all.take(all.len() as int) =~= all);
    Some(out)
}

/// An error is told exactly where a reply carries one, and its code is always shown as the
/// server wrote it, whatever becomes of its message.
pub proof fn law_error_code_is_shown(response: Json)
    ensures
        match member(response, "error"@) {
            Some(error) => error_text(response) is Some && ("error: "@ + text_or(
                error,
                "code"@,
                ""@,
            )).is_prefix_of(error_text(response)->0),
            None => error_text(response) is None,
        },
{
    match member(response, "error"@) {
        Some(error) => {
            let head = "error: "@ + text_or(error, "code"@, ""@);
            assert(error_text(response)->0.subrange(0, head.len() as int) =~= head);
        },
        None => {},
    }
}

} // verus!
