//! What `kvx workflow` prints for the replies it gets.

use crate::cli::render_lines::{
    collect_strings, delivery_failure_line, error_text, finding_line,
    format_node_delivery_failure_line, format_node_growth_limited_line,
    format_node_restored_from_line, format_node_transcript_line, format_restore_report_line,
    format_review_finding_line, format_run_growth_line, format_run_limits_line,
    format_run_member_line, format_run_node_line, format_summary_list_row,
    format_workflow_error, items_at, limits_line, member_line, node_growth_line, node_line,
    restore_line, restored_from_line, run_growth_line, stamp_at, stamp_or_empty, strings_of,
    summary_row, transcript_line,
};
use crate::calendar::{format_unix_ms, stamp_text};
use crate::console::{opt_line, Console};
use crate::documents::Reply;
use crate::json::{
    array_of, at, flag_at, member, text_at, text_or, unsigned_at, unsigned_or_0, Json,
};
use crate::text::{
    cat2, cat3, cat4, cat5, cat6, cat7, decimal, decimal_text, opt_text, pad_right,
    padded_right, str_eq, texts, trim, trim_str,
};
use vstd::prelude::*;

verus! {

broadcast use crate::text::group_texts;

// ---------------------------------------------------------------------------
// Outcomes
// ---------------------------------------------------------------------------

/// What a command prints, line by line, and the code it exits with.
pub struct Shown {
    pub out: Seq<Seq<char>>,
    pub err: Seq<Seq<char>>,
    pub code: i32,
}

/// `after` is `before` with what was shown appended.
pub open spec fn shows(before: Console, after: Console, code: i32, shown: Shown) -> bool {
    &&& after.out_lines() == before.out_lines() + shown.out
    &&& after.err_lines() == before.err_lines() + shown.err
    &&& code == shown.code
}

/// Lines on standard output, and success.
pub open spec fn success(out: Seq<Seq<char>>) -> Shown {
    Shown { out, err: Seq::empty(), code: 0 }
}

/// One line on standard error, and a code.
pub open spec fn complaint(line: Seq<char>, code: i32) -> Shown {
    Shown { out: Seq::empty(), err: seq![line], code }
}

/// A reply as it is: an error goes to standard error and fails.
pub open spec fn raw_shown(reply: Reply) -> Shown {
    if member(reply.value, "error"@) is Some {
        complaint(reply.compact@, 1)
    } else {
        success(seq![reply.compact@])
    }
}

/// A reply for a person: the reply as it is where JSON is wanted, the error in words
/// where it is one, and `human` otherwise.
pub open spec fn reply_shown(reply: Reply, json: bool, human: Seq<Seq<char>>) -> Shown {
    if json {
        raw_shown(reply)
    } else {
        match error_text(reply.value) {
            Some(text) => complaint(text, 1),
            None => success(human),
        }
    }
}

impl Console {
    /// Prints every line on standard output.
    pub fn print_all(&mut self, items: &Vec<String>)
        ensures
            final(self).out_lines() == old(self).out_lines() + texts(items@),
            final(self).err_lines() == old(self).err_lines(),
    {
        let ghost all = texts(items@);
        let mut i: usize = 0;
        assert(self.out_lines() + all.take(0) =~= self.out_lines());
        while i < items.len()
            invariant
                i <= items@.len(),
                all == texts(items@),
                self.out_lines() == old(self).out_lines() + all.take(i as int),
                self.err_lines() == old(self).err_lines(),
            decreases items@.len() - i,
        {
            self.print(items[i].as_str());
            assert(self.out_lines() =~= old(self).out_lines() + all.take(i as int + 1));
            i = i + 1;
        }
        assert(all.take(all.len() as int) =~= all);
    }

    /// Prints one complaint and gives back its code.
    pub fn complain(&mut self, line: &str, code: i32) -> (r: i32)
        ensures
            shows(*old(self), *final(self), r, complaint(line@, code)),
    {
        self.eprint(line);
        assert(self.err_lines() =~= old(self).err_lines() + seq![line@]);
        assert(self.out_lines() =~= old(self).out_lines() + Seq::<Seq<char>>::empty());
        code
    }

    /// Prints lines and gives back success.
    pub fn succeed(&mut self, items: &Vec<String>) -> (r: i32)
        ensures
            shows(*old(self), *final(self), r, success(texts(items@))),
    {
        self.print_all(items);
        assert(self.err_lines() =~= old(self).err_lines() + Seq::<Seq<char>>::empty());
        0
    }
}

/// Prints a reply as it is.
pub fn print_response(reply: &Reply, console: &mut Console) -> (r: i32)
    ensures
        shows(*old(console), *final(console), r, raw_shown(*reply)),
{
    if reply.value.get("error").is_some() {
        return console.complain(reply.compact.as_str(), 1);
    }
    let mut out: Vec<String> = Vec::new();
    out.push(reply.compact.clone());
    assert(texts(out@) =~= seq![reply.compact@]);
    console.succeed(&out)
}

/// Prints an error reply in words; nothing where the reply is no error.
pub fn print_workflow_error(response: &Json, console: &mut Console) -> (r: Option<i32>)
    ensures
        match error_text(*response) {
            Some(text) => r is Some && shows(
                *old(console),
                *final(console),
                r->0,
                complaint(text, 1),
            ),
            None => r is None && *final(console) == *old(console),
        },
{
    match format_workflow_error(response) {
        Some(text) => Some(console.complain(text.as_str(), 1)),
        None => None,
    }
}

fn print_human(reply: &Reply, json: bool, human: &Vec<String>, console: &mut Console) -> (r: i32)
    ensures
        shows(*old(console), *final(console), r, reply_shown(*reply, json, texts(human@))),
{
    if json {
        return print_response(reply, console);
    }
    match print_workflow_error(&reply.value, console) {
        Some(code) => code,
        None => console.succeed(human),
    }
}

/// A reply to a verb that changes something: success is shown as it is, and so is a
/// refusal where JSON is wanted; otherwise a refusal is told in words.
pub open spec fn mutation_shown(reply: Reply, json: bool) -> Shown {
    match error_text(reply.value) {
        Some(text) => if json {
            raw_shown(reply)
        } else {
            complaint(text, 1)
        },
        None => raw_shown(reply),
    }
}

pub fn print_workflow_mutation(reply: &Reply, json: bool, console: &mut Console) -> (r: i32)
    ensures
        shows(*old(console), *final(console), r, mutation_shown(*reply, json)),
{
    if !json {
        match print_workflow_error(&reply.value, console) {
            Some(code) => {
                return code;
            },
            None => {},
        }
    }
    print_response(reply, console)
}

/// A refused change always fails, whether it is told in words or as it is.
pub proof fn law_refusals_fail(reply: Reply, json: bool)
    requires
        member(reply.value, "error"@) is Some,
    ensures
        mutation_shown(reply, json).code == 1,
        mutation_shown(reply, json).out.len() == 0,
        mutation_shown(reply, json).err.len() == 1,
{
}

/// Whether a reply is printed as it is or told in words, the command ends the same way:
/// it fails exactly where the reply carries an error.
pub proof fn law_both_forms_end_alike(reply: Reply, json: bool, human: Seq<Seq<char>>)
    ensures
        reply_shown(reply, json, human).code == (if member(reply.value, "error"@) is Some {
            1i32
        } else {
            0i32
        }),
        mutation_shown(reply, json).code == reply_shown(reply, json, human).code,
{
}

// ---------------------------------------------------------------------------
// Building lists of lines
// ---------------------------------------------------------------------------

fn add_line(out: &mut Vec<String>, line: String)
    ensures
        texts(final(out)@) == texts(old(out)@) + seq![line@],
{
    out.push(line);
    assert(texts(out@) =~= texts(old(out)@) + seq![line@]);
}

fn add_opt(out: &mut Vec<String>, line: Option<String>)
    ensures
        texts(final(out)@) == texts(old(out)@) + opt_line(opt_text(line)),
{
    match line {
        Some(l) => {
            out.push(l);
        },
        None => {},
    }
    assert(texts(out@) =~= texts(old(out)@) + opt_line(opt_text(line)));
}

fn add_all(out: &mut Vec<String>, items: Vec<String>)
    ensures
        texts(final(out)@) == texts(old(out)@) + texts(items@),
{
    let mut items = items;
    out.append(&mut items);
}

/// A line only where `text` is not empty.
pub open spec fn unless_empty(head: Seq<char>, text: Seq<char>) -> Seq<Seq<char>> {
    if text.len() == 0 {
        Seq::empty()
    } else {
        seq![head + text]
    }
}

fn add_unless_empty(out: &mut Vec<String>, head: &str, text: &str)
    ensures
        texts(final(out)@) == texts(old(out)@) + unless_empty(head@, text@),
{
    if !text.is_empty() {
        out.push(cat2(head, text));
    }
    assert(texts(out@) =~= texts(old(out)@) + unless_empty(head@, text@));
}

/// A line only where there is a text.
pub open spec fn where_given(head: Seq<char>, text: Option<Seq<char>>) -> Option<Seq<char>> {
    match text {
        Some(t) => Some(head + t),
        None => None,
    }
}

fn given(head: &str, text: Option<String>) -> (r: Option<String>)
    ensures
        opt_text(r) == where_given(head@, opt_text(text)),
{
    match text {
        Some(t) => Some(cat2(head, t.as_str())),
        None => None,
    }
}

/// The kinds of rows that lists are printed in.
#[derive(Debug, Clone, Copy, PartialEq, Eq, Structural)]
pub enum Row {
    Node,
    Member,
    Finding,
    Summary,
    Bullet,
    NodeVerdict,
    Version,
    Argument,
    DefinedNode,
    Edge,
}

/// The text of a JSON string, or nothing.
pub open spec fn text_of(value: Json) -> Seq<char> {
    match value {
        Json::Str(s) => s@,
        _ => Seq::empty(),
    }
}

/// One version in the history of a workflow.
pub open spec fn version_line(version: Json) -> Seq<char> {
    let change = text_or(version, "change_summary"@, ""@);
    "  v"@ + decimal(unsigned_or_0(version, "version"@) as nat) + "  "@ + stamp_at(
        version,
        "created_at_unix_ms"@,
    ) + (if change.len() == 0 {
        Seq::empty()
    } else {
        "  "@ + change
    })
}

/// One declared argument of a workflow.
pub open spec fn argument_line(arg: Json) -> Seq<char> {
    let description = text_or(arg, "description"@, ""@);
    "  "@ + pad_right(text_or(arg, "name"@, ""@), 20) + " "@ + (if flag_at(arg, "required"@) {
        "required"@
    } else {
        "optional"@
    }) + (match text_at(arg, "default"@) {
        Some(d) => "  default="@ + d,
        None => Seq::empty(),
    }) + (if description.len() == 0 {
        Seq::empty()
    } else {
        "  "@ + description
    })
}

/// One node of a definition.
pub open spec fn defined_node_line(node: Json) -> Seq<char> {
    "  "@ + pad_right(text_or(node, "node_key"@, ""@), 20) + " "@ + pad_right(
        text_or(node, "label"@, ""@),
        24,
    ) + " runner="@ + pad_right(text_or(node, "runner"@, ""@), 8) + (" demand="@ + text_or(
        node,
        "demand"@,
        ""@,
    ))
}

/// One edge of a definition.
pub open spec fn edge_line(edge: Json) -> Seq<char> {
    "  "@ + text_or(edge, "from"@, ""@) + " -> "@ + text_or(edge, "to"@, ""@) + "  kind="@
        + text_or(edge, "kind"@, ""@) + (match text_at(edge, "port"@) {
        Some(p) => "  port="@ + p,
        None => Seq::empty(),
    })
}

/// What one node of a summary came to.
pub open spec fn verdict_line(line: Json) -> Seq<char> {
    "  "@ + pad_right(text_or(line, "node_key"@, ""@), 20) + " "@ + pad_right(
        text_or(line, "verdict"@, ""@),
        12,
    ) + " "@ + text_or(line, "one_liner"@, ""@)
}

/// The row of a value.
pub open spec fn row_text(row: Row, value: Json) -> Seq<char> {
    match row {
        Row::Node => node_line(value),
        Row::Member => member_line(value),
        Row::Finding => finding_line(value),
        Row::Summary => summary_row(value),
        Row::Bullet => "  - "@ + text_of(value),
        Row::NodeVerdict => verdict_line(value),
        Row::Version => version_line(value),
        Row::Argument => argument_line(value),
        Row::DefinedNode => defined_node_line(value),
        Row::Edge => edge_line(value),
    }
}

fn format_version(version: &Json) -> (r: String)
    ensures
        r@ == version_line(*version),
{
    let change = version.text_or("change_summary", "");
    let tail = if change.as_str().is_empty() {
        String::new()
    } else {
        cat2("  ", change.as_str())
    };
    cat5(
        "  v",
        decimal_text(version.u64_or_0("version")).as_str(),
        "  ",
        stamp_or_empty(version, "created_at_unix_ms").as_str(),
        tail.as_str(),
    )
}

fn format_argument(arg: &Json) -> (r: String)
    ensures
        r@ == argument_line(*arg),
{
    let required = if arg.flag_at("required") {
        "required"
    } else {
        "optional"
    };
    let default = match arg.text_at("default") {
        Some(d) => cat2("  default=", d.as_str()),
        None => String::new(),
    };
    let description = arg.text_or("description", "");
    let tail = if description.as_str().is_empty() {
        String::new()
    } else {
        cat2("  ", description.as_str())
    };
    cat6(
        "  ",
        padded_right(arg.text_or("name", "").as_str(), 20).as_str(),
        " ",
        required,
        default.as_str(),
        tail.as_str(),
    )
}

fn format_row(row: Row, value: &Json) -> (r: String)
    ensures
        r@ == row_text(row, *value),
{
    match row {
        Row::Node => format_run_node_line(value),
        Row::Member => format_run_member_line(value),
        Row::Finding => format_review_finding_line(value),
        Row::Summary => format_summary_list_row(value),
        Row::Bullet => match value.as_str() {
            Some(s) => cat2("  - ", s),
            None => {
                assert("  - "@ + Seq::<char>::empty() =~= "  - "@);
                "  - ".to_owned()
            },
        },
        Row::NodeVerdict => cat6(
            "  ",
            padded_right(value.text_or("node_key", "").as_str(), 20).as_str(),
            " ",
            padded_right(value.text_or("verdict", "").as_str(), 12).as_str(),
            " ",
            value.text_or("one_liner", "").as_str(),
        ),
        Row::Version => format_version(value),
        Row::Argument => format_argument(value),
        Row::DefinedNode => {
            let tail = cat2(" demand=", value.text_or("demand", "").as_str());
            cat7(
                "  ",
                padded_right(value.text_or("node_key", "").as_str(), 20).as_str(),
                " ",
                padded_right(value.text_or("label", "").as_str(), 24).as_str(),
                " runner=",
                padded_right(value.text_or("runner", "").as_str(), 8).as_str(),
                tail.as_str(),
            )
        },
        Row::Edge => {
            let port = match value.text_at("port") {
                Some(p) => cat2("  port=", p.as_str()),
                None => String::new(),
            };
            cat7(
                "  ",
                value.text_or("from", "").as_str(),
                " -> ",
                value.text_or("to", "").as_str(),
                "  kind=",
                value.text_or("kind", "").as_str(),
                port.as_str(),
            )
        },
    }
}

/// The rows of `values`.
pub open spec fn rows(row: Row, values: Seq<Json>) -> Seq<Seq<char>> {
    values.map_values(|v: Json| row_text(row, v))
}

fn format_rows(row: Row, values: &Vec<Json>) -> (r: Vec<String>)
    ensures
        texts(r@) == rows(row, values@),
{
    let mut out: Vec<String> = Vec::new();
    let ghost all = rows(row, values@);
    let mut i: usize = 0;
    assert(texts(out@) =~= all.take(0));
    while i < values.len()
        invariant
            i <= values@.len(),
            all == rows(row, values@),
            texts(out@) == all.take(i as int),
        decreases values@.len() - i,
    {
        out.push(format_row(row, &values[i]));
        assert(all.take(i as int + 1) =~= all.take(i as int).push(row_text(row, values@[i as int])));
        i = i + 1;
    }
    assert(all.take(all.len() as int) =~= all);
    out
}

/// An empty line, a title and the rows of a list. Without a list there is nothing;
/// an empty list is titled only where `even_empty`.
pub open spec fn section(
    title: Seq<char>,
    row: Row,
    values: Option<Seq<Json>>,
    even_empty: bool,
) -> Seq<Seq<char>> {
    match values {
        Some(v) => if v.len() > 0 || even_empty {
            seq![""@, title] + rows(row, v)
        } else {
            Seq::empty()
        },
        None => Seq::empty(),
    }
}

fn add_section(
    out: &mut Vec<String>,
    title: &str,
    row: Row,
    values: Option<&Vec<Json>>,
    even_empty: bool,
)
    ensures
        texts(final(out)@) == texts(old(out)@) + section(
            title@,
            row,
            (match values {
                Some(v) => Some(v@),
                None => None,
            }),
            even_empty,
        ),
{
    match values {
        Some(v) => {
            if v.len() > 0 || even_empty {
                out.push("".to_owned());
                out.push(title.to_owned());
                let mut more = format_rows(row, v);
                out.append(&mut more);
                assert(texts(out@) =~= texts(old(out)@) + (seq![""@, title@] + rows(row, v@)));
            } else {
                assert(texts(out@) =~= texts(old(out)@) + Seq::<Seq<char>>::empty());
            }
        },
        None => {
            assert(texts(out@) =~= texts(old(out)@) + Seq::<Seq<char>>::empty());
        },
    }
}

// ---------------------------------------------------------------------------
// run start, run show
// ---------------------------------------------------------------------------

/// A node that holds a run up, with what is known of why.
#[derive(Debug, PartialEq, Eq)]
pub struct BlockingRunNode {
    pub path: String,
    pub status: String,
    pub reason: Option<String>,
    pub resume_when: Option<String>,
}

/// Whether a node holds its run up.
pub open spec fn blocks(node: Json) -> bool {
    let status = text_at(node, "status"@);
    status == Some("needs_attention"@) || status == Some("blocked"@) || status == Some("failed"@)
}

/// The nodes that hold a run up, in order.
pub open spec fn blocking(nodes: Seq<Json>) -> Seq<Json> {
    nodes.filter(|n: Json| blocks(n))
}

/// `b` is what the wire says of `node`.
pub open spec fn blocking_is(b: BlockingRunNode, node: Json) -> bool {
    &&& b.path@ == text_or(node, "path"@, ""@)
    &&& b.status@ == text_or(node, "status"@, ""@)
    &&& opt_text(b.reason) == text_at(at(node, "blocker"@), "reason"@)
    &&& opt_text(b.resume_when) == text_at(at(node, "blocker"@), "resume_when"@)
}

/// What is told of the nodes that hold a run up.
pub open spec fn blocking_told(told: Seq<BlockingRunNode>, nodes: Seq<Json>) -> bool {
    &&& told.len() == blocking(nodes).len()
    &&& forall|i: int| 0 <= i < told.len() ==> blocking_is(#[trigger] told[i], blocking(nodes)[i])
}

pub fn blocking_run_nodes(nodes: &Vec<Json>) -> (r: Vec<BlockingRunNode>)
    ensures
        blocking_told(r@, nodes@),
{
    let mut out: Vec<BlockingRunNode> = Vec::new();
    let ghost stuck = |n: Json| blocks(n);
    let null = Json::Null;
    let mut i: usize = 0;
    proof {
        reveal(Seq::filter);
        assert(nodes@.take(0).filter(stuck) =~= Seq::<Json>::empty());
    }
    while i < nodes.len()
        invariant
            i <= nodes@.len(),
            null is Null,
            stuck == |n: Json| blocks(n),
            out@.len() == nodes@.take(i as int).filter(stuck).len(),
            forall|j: int|
                0 <= j < out@.len() ==> blocking_is(
                    #[trigger] out@[j],
                    nodes@.take(i as int).filter(stuck)[j],
                ),
        decreases nodes@.len() - i,
    {
        proof {
            reveal(Seq::filter);
            assert(nodes@.take(i as int + 1).drop_last() =~= nodes@.take(i as int));
        }
        let node = &nodes[i];
        let status = node.text_at("status");
        let held = match &status {
            Some(s) => str_eq(s.as_str(), "needs_attention") || str_eq(s.as_str(), "blocked")
                || str_eq(s.as_str(), "failed"),
            None => false,
        };
        if held {
            let blocker = node.at("blocker", &null);
            out.push(
                BlockingRunNode {
                    path: node.text_or("path", ""),
                    status: node.text_or("status", ""),
                    reason: blocker.text_at("reason"),
                    resume_when: blocker.text_at("resume_when"),
                },
            );
        }
        i = i + 1;
    }
    assert(nodes@.take(nodes@.len() as int) =~= nodes@);
    out
}

/// The lines about one node that holds its run up.
pub open spec fn blocked_lines(node: Json) -> Seq<Seq<char>> {
    let blocker = at(node, "blocker"@);
    seq![
        "blocked: "@ + text_or(node, "path"@, ""@) + " ("@ + text_or(node, "status"@, ""@) + ")"@,
    ] + opt_line(where_given("reason:  "@, text_at(blocker, "reason"@))) + opt_line(
        where_given("resume:  "@, text_at(blocker, "resume_when"@)),
    )
}

/// The lines about every node that holds its run up.
pub open spec fn all_blocked_lines(nodes: Seq<Json>) -> Seq<Seq<char>>
    decreases nodes.len(),
{
    if nodes.len() == 0 {
        Seq::empty()
    } else {
        all_blocked_lines(nodes.drop_last()) + blocked_lines(nodes.last())
    }
}

fn add_blocked(out: &mut Vec<String>, nodes: &Vec<BlockingRunNode>, Ghost(stuck): Ghost<Seq<Json>>)
    requires
        nodes@.len() == stuck.len(),
        forall|i: int| 0 <= i < nodes@.len() ==> blocking_is(#[trigger] nodes@[i], stuck[i]),
    ensures
        texts(final(out)@) == texts(old(out)@) + all_blocked_lines(stuck),
{
    let mut i: usize = 0;
    let ghost start = texts(out@);
    assert(start + all_blocked_lines(stuck.take(0)) =~= start);
    while i < nodes.len()
        invariant
            i <= nodes@.len(),
            nodes@.len() == stuck.len(),
            forall|j: int| 0 <= j < nodes@.len() ==> blocking_is(#[trigger] nodes@[j], stuck[j]),
            texts(out@) == start + all_blocked_lines(stuck.take(i as int)),
        decreases nodes@.len() - i,
    {
        let node = &nodes[i];
        let ghost before = texts(out@);
        add_line(
            out,
            cat5("blocked: ", node.path.as_str(), " (", node.status.as_str(), ")"),
        );
        add_opt(out, given("reason:  ", node.reason.clone()));
        add_opt(out, given("resume:  ", node.resume_when.clone()));
        proof {
            assert(stuck.take(i as int + 1).drop_last() =~= stuck.take(i as int));
            assert(texts(out@) =~= before + blocked_lines(stuck[i as int]));
            assert(texts(out@) =~= start + all_blocked_lines(stuck.take(i as int + 1)));
        }
        i = i + 1;
    }
    assert(stuck.take(stuck.len() as int) =~= stuck);
}

/// The status of a run, with the first node that holds it up.
pub open spec fn status_line(run: Json, stuck: Seq<Json>) -> Seq<char> {
    "status:  "@ + text_or(run, "status"@, ""@) + (if stuck.len() > 0 {
        " (node \""@ + text_or(stuck[0], "path"@, ""@) + "\": "@ + text_or(
            stuck[0],
            "status"@,
            ""@,
        ) + ")"@
    } else {
        Seq::empty()
    })
}

/// A run as a person reads it.
pub open spec fn run_lines(response: Json) -> Seq<Seq<char>> {
    let result = at(response, "result"@);
    let run = at(result, "run"@);
    let graph = at(result, "graph"@);
    let stuck = blocking(items_at(graph, "nodes"@));
    seq!["run_id:  "@ + text_or(run, "run_id"@, ""@)] + seq![status_line(run, stuck)] + seq![
        "tier:    "@ + text_or(run, "tier"@, ""@),
    ] + opt_line(limits_line(run)) + seq![
        "nodes:   "@ + decimal(unsigned_or_0(run, "nodes_done"@) as nat) + "/"@ + decimal(
            unsigned_or_0(run, "nodes_total"@) as nat,
        ),
    ] + opt_line(run_growth_line(run)) + opt_line(restore_line(at(result, "restore"@)))
        + all_blocked_lines(stuck) + unless_empty("team:    "@, text_or(run, "team_name"@, ""@))
        + section("nodes:"@, Row::Node, array_of(at(graph, "nodes"@)), false) + section(
        "members:"@,
        Row::Member,
        array_of(at(graph, "members"@)),
        false,
    )
}

fn render_run(response: &Json) -> (r: Vec<String>)
    ensures
        texts(r@) == run_lines(*response),
{
    let null = Json::Null;
    let result = response.at("result", &null);
    let run = result.at("run", &null);
    let graph = result.at("graph", &null);
    let nodes = graph.at("nodes", &null).as_array();
    let ghost stuck = blocking(items_at(*graph, "nodes"@));
    let held: Vec<BlockingRunNode> = match nodes {
        Some(v) => blocking_run_nodes(v),
        None => {
            proof {
                reveal(Seq::filter);
                assert(stuck =~= Seq::<Json>::empty());
            }
            Vec::new()
        },
    };
    let mut out: Vec<String> = Vec::new();
    out.push(cat2("run_id:  ", run.text_or("run_id", "").as_str()));
    assert(texts(out@) =~= seq!["run_id:  "@ + text_or(*run, "run_id"@, ""@)]);
    let culprit = if held.len() > 0 {
        assert(blocking_is(held@[0], stuck[0]));
        cat5(" (node \"", held[0].path.as_str(), "\": ", held[0].status.as_str(), ")")
    } else {
        String::new()
    };
    add_line(&mut out, cat3("status:  ", run.text_or("status", "").as_str(), culprit.as_str()));
    add_line(&mut out, cat2("tier:    ", run.text_or("tier", "").as_str()));
    add_opt(&mut out, format_run_limits_line(run));
    add_line(
        &mut out,
        cat4(
            "nodes:   ",
            decimal_text(run.u64_or_0("nodes_done")).as_str(),
            "/",
            decimal_text(run.u64_or_0("nodes_total")).as_str(),
        ),
    );
    add_opt(&mut out, format_run_growth_line(run));
    add_opt(&mut out, format_restore_report_line(result.at("restore", &null)));
    add_blocked(&mut out, &held, Ghost(stuck));
    add_unless_empty(&mut out, "team:    ", run.text_or("team_name", "").as_str());
    add_section(&mut out, "nodes:", Row::Node, nodes, false);
    add_section(&mut out, "members:", Row::Member, graph.at("members", &null).as_array(), false);
    out
}

pub fn print_workflow_run_response(reply: &Reply, json: bool, console: &mut Console) -> (r: i32)
    ensures
        shows(*old(console), *final(console), r, reply_shown(*reply, json, run_lines(reply.value))),
{
    let human = render_run(&reply.value);
    print_human(reply, json, &human, console)
}

/// A run that is held up always names the node responsible for it.
pub proof fn law_a_stuck_run_names_its_node(response: Json, i: int)
    requires
        ({
            let nodes = items_at(at(at(response, "result"@), "graph"@), "nodes"@);
            0 <= i < nodes.len() && blocks(nodes[i])
        }),
    ensures
        ({
            let nodes = items_at(at(at(response, "result"@), "graph"@), "nodes"@);
            exists|k: int|
                0 <= k < run_lines(response).len() && #[trigger] run_lines(response)[k]
                    == "blocked: "@ + text_or(nodes[i], "path"@, ""@) + " ("@ + text_or(
                    nodes[i],
                    "status"@,
                    ""@,
                ) + ")"@
        }),
{
    let result = at(response, "result"@);
    let run = at(result, "run"@);
    let graph = at(result, "graph"@);
    let nodes = items_at(graph, "nodes"@);
    let stuck = blocking(nodes);
    broadcast use vstd::seq_lib::group_filter_ensures;

    assert(stuck.contains(nodes[i]));
    let j = choose|j: int| 0 <= j < stuck.len() && stuck[j] == nodes[i];
    let p = lemma_blocked_line(stuck, j);
    let all = all_blocked_lines(stuck);
    let head = seq!["run_id:  "@ + text_or(run, "run_id"@, ""@)] + seq![status_line(run, stuck)]
        + seq!["tier:    "@ + text_or(run, "tier"@, ""@)] + opt_line(limits_line(run)) + seq![
        "nodes:   "@ + decimal(unsigned_or_0(run, "nodes_done"@) as nat) + "/"@ + decimal(
            unsigned_or_0(run, "nodes_total"@) as nat,
        ),
    ] + opt_line(run_growth_line(run)) + opt_line(restore_line(at(result, "restore"@)));
    let tail1 = unless_empty("team:    "@, text_or(run, "team_name"@, ""@));
    let tail2 = section("nodes:"@, Row::Node, array_of(at(graph, "nodes"@)), false);
    let tail3 = section("members:"@, Row::Member, array_of(at(graph, "members"@)), false);
    assert(run_lines(response) == head + all + tail1 + tail2 + tail3);
    assert(run_lines(response)[head.len() + p] == all[p]);
}

proof fn lemma_blocked_line(stuck: Seq<Json>, j: int) -> (p: int)
    requires
        0 <= j < stuck.len(),
    ensures
        0 <= p < all_blocked_lines(stuck).len(),
        all_blocked_lines(stuck)[p] == "blocked: "@ + text_or(stuck[j], "path"@, ""@) + " ("@
            + text_or(stuck[j], "status"@, ""@) + ")"@,
    decreases stuck.len(),
{
    let before = all_blocked_lines(stuck.drop_last());
    let last = blocked_lines(stuck.last());
    if j == stuck.len() - 1 {
        assert((before + last)[before.len() as int] == last[0]);
        before.len() as int
    } else {
        let p = lemma_blocked_line(stuck.drop_last(), j);
        assert((before + last)[p] == before[p]);
        p
    }
}

// ---------------------------------------------------------------------------
// node show, node expand, node interrogate
// ---------------------------------------------------------------------------

/// A node as a person reads it.
pub open spec fn node_lines(response: Json) -> Seq<Seq<char>> {
    let node = at(at(response, "result"@), "node"@);
    let path = text_or(node, "path"@, ""@);
    let label = trim(text_or(node, "label"@, ""@));
    let blocker = at(node, "blocker"@);
    let interventions = unsigned_or_0(node, "watchdog_interventions"@);
    seq!["path:    "@ + path] + (if label == path {
        Seq::empty()
    } else {
        unless_empty("label:   "@, label)
    }) + seq!["status:  "@ + text_or(node, "status"@, ""@)] + opt_line(
        where_given("attention: "@, text_at(node, "attention"@)),
    ) + seq!["model:   "@ + text_or(node, "model"@, ""@)] + seq![
        "effort:  "@ + text_or(node, "effort"@, ""@),
    ] + opt_line(where_given("pane_id: "@, text_at(node, "pane_id"@))) + (if interventions > 0 {
        seq!["interventions: "@ + decimal(interventions as nat)]
    } else {
        Seq::empty()
    }) + opt_line(where_given("blocker: "@, text_at(blocker, "reason"@))) + opt_line(
        where_given("resume:  "@, text_at(blocker, "resume_when"@)),
    ) + opt_line(node_growth_line(node)) + opt_line(delivery_failure_line(node)) + seq![
        transcript_line(node),
    ] + opt_line(restored_from_line(node))
}

fn render_node(response: &Json) -> (r: Vec<String>)
    ensures
        texts(r@) == node_lines(*response),
{
    let null = Json::Null;
    let node = response.at("result", &null).at("node", &null);
    let path = node.text_or("path", "");
    let label = trim_str(node.text_or("label", "").as_str());
    let blocker = node.at("blocker", &null);
    let mut out: Vec<String> = Vec::new();
    out.push(cat2("path:    ", path.as_str()));
    assert(texts(out@) =~= seq!["path:    "@ + path@]);
    if str_eq(label.as_str(), path.as_str()) {
        assert(texts(out@) =~= texts(out@) + Seq::<Seq<char>>::empty());
    } else {
        add_unless_empty(&mut out, "label:   ", label.as_str());
    }
    add_line(&mut out, cat2("status:  ", node.text_or("status", "").as_str()));
    add_opt(&mut out, given("attention: ", node.text_at("attention")));
    add_line(&mut out, cat2("model:   ", node.text_or("model", "").as_str()));
    add_line(&mut out, cat2("effort:  ", node.text_or("effort", "").as_str()));
    add_opt(&mut out, given("pane_id: ", node.text_at("pane_id")));
    let interventions = node.u64_or_0("watchdog_interventions");
    if interventions > 0 {
        add_line(&mut out, cat2("interventions: ", decimal_text(interventions).as_str()));
    } else {
        assert(texts(out@) =~= texts(out@) + Seq::<Seq<char>>::empty());
    }
    add_opt(&mut out, given("blocker: ", blocker.text_at("reason")));
    add_opt(&mut out, given("resume:  ", blocker.text_at("resume_when")));
    add_opt(&mut out, format_node_growth_limited_line(node));
    add_opt(&mut out, format_node_delivery_failure_line(node));
    add_line(&mut out, format_node_transcript_line(node));
    add_opt(&mut out, format_node_restored_from_line(node));
    out
}

pub fn print_workflow_node_response(reply: &Reply, json: bool, console: &mut Console) -> (r: i32)
    ensures
        shows(
            *old(console),
            *final(console),
            r,
            reply_shown(*reply, json, node_lines(reply.value)),
        ),
{
    let human = render_node(&reply.value);
    print_human(reply, json, &human, console)
}

/// One refused proposal of an expansion.
#[derive(Debug, PartialEq, Eq)]
pub struct ExpandRejectionLine {
    pub template: String,
    pub reason: String,
    pub message: String,
}

/// What became of an expansion.
#[derive(Debug, PartialEq, Eq)]
pub struct ExpandSummary {
    pub accepted: Vec<String>,
    pub rejected: Vec<ExpandRejectionLine>,
}

/// `line` is what the wire says of a refused proposal.
pub open spec fn rejection_is(line: ExpandRejectionLine, rejection: Json) -> bool {
    &&& line.template@ == text_or(rejection, "template"@, ""@)
    &&& line.reason@ == text_or(rejection, "reason"@, ""@)
    &&& line.message@ == text_or(rejection, "message"@, ""@)
}

/// What became of an expansion, as its answer tells.
pub open spec fn expansion_told(r: ExpandSummary, response: Json) -> bool {
    let result = at(response, "result"@);
    let refused = items_at(result, "rejected"@);
    &&& texts(r.accepted@) == strings_of(items_at(result, "accepted"@))
    &&& r.rejected@.len() == refused.len()
    &&& forall|i: int|
        0 <= i < refused.len() ==> rejection_is(#[trigger] r.rejected@[i], refused[i])
}

pub fn summarize_expand_response(response: &Json) -> (r: ExpandSummary)
    ensures
        expansion_told(r, *response),
{
    let null = Json::Null;
    let result = response.at("result", &null);
    let accepted: Vec<String> = match result.at("accepted", &null).as_array() {
        Some(v) => collect_strings(v),
        None => Vec::new(),
    };
    assert(texts(accepted@) =~= strings_of(items_at(*result, "accepted"@)));
    let mut rejected: Vec<ExpandRejectionLine> = Vec::new();
    match result.at("rejected", &null).as_array() {
        Some(v) => {
            let mut i: usize = 0;
            while i < v.len()
                invariant
                    i <= v@.len(),
                    rejected@.len() == i,
                    forall|j: int| 0 <= j < i ==> rejection_is(#[trigger] rejected@[j], v@[j]),
                decreases v@.len() - i,
            {
                rejected.push(
                    ExpandRejectionLine {
                        template: v[i].text_or("template", ""),
                        reason: v[i].text_or("reason", ""),
                        message: v[i].text_or("message", ""),
                    },
                );
                i = i + 1;
            }
        },
        None => {},
    }
    ExpandSummary { accepted, rejected }
}

/// The lines about refused proposals.
pub open spec fn rejection_lines(refused: Seq<Json>) -> Seq<Seq<char>>
    decreases refused.len(),
{
    if refused.len() == 0 {
        Seq::empty()
    } else {
        rejection_lines(refused.drop_last()) + seq![
            "  template="@ + text_or(refused.last(), "template"@, ""@) + " reason="@ + text_or(
                refused.last(),
                "reason"@,
                ""@,
            ),
        ] + unless_empty("    "@, text_or(refused.last(), "message"@, ""@))
    }
}

/// The lines about accepted proposals.
pub open spec fn accepted_lines(paths: Seq<Seq<char>>) -> Seq<Seq<char>> {
    paths.map_values(|p: Seq<char>| "  "@ + p)
}

/// An expansion as a person reads it.
pub open spec fn expand_lines(response: Json) -> Seq<Seq<char>> {
    let result = at(response, "result"@);
    let accepted = strings_of(items_at(result, "accepted"@));
    let refused = items_at(result, "rejected"@);
    seq!["accepted: "@ + decimal(accepted.len())] + accepted_lines(accepted) + seq![
        "rejected: "@ + decimal(refused.len()),
    ] + rejection_lines(refused)
}

fn render_expand(response: &Json) -> (r: Vec<String>)
    ensures
        texts(r@) == expand_lines(*response),
{
    let summary = summarize_expand_response(response);
    let ghost accepted = texts(summary.accepted@);
    let ghost refused = items_at(at(*response, "result"@), "rejected"@);
    let mut out: Vec<String> = Vec::new();
    out.push(cat2("accepted: ", decimal_text(summary.accepted.len() as u64).as_str()));
    let ghost start = texts(out@);
    assert(start =~= seq!["accepted: "@ + decimal(accepted.len())]);
    let mut i: usize = 0;
    assert(start + accepted_lines(accepted).take(0) =~= start);
    while i < summary.accepted.len()
        invariant
            i <= summary.accepted@.len(),
            accepted == texts(summary.accepted@),
            texts(out@) == start + accepted_lines(accepted).take(i as int),
        decreases summary.accepted@.len() - i,
    {
        out.push(cat2("  ", summary.accepted[i].as_str()));
        assert(texts(out@) =~= start + accepted_lines(accepted).take(i as int + 1));
        i = i + 1;
    }
    assert(accepted_lines(accepted).take(accepted.len() as int) =~= accepted_lines(accepted));
    add_line(&mut out, cat2("rejected: ", decimal_text(summary.rejected.len() as u64).as_str()));
    let ghost middle = texts(out@);
    let mut j: usize = 0;
    assert(middle + rejection_lines(refused.take(0)) =~= middle);
    while j < summary.rejected.len()
        invariant
            j <= summary.rejected@.len(),
            summary.rejected@.len() == refused.len(),
            forall|k: int|
                0 <= k < refused.len() ==> rejection_is(
                    #[trigger] summary.rejected@[k],
                    refused[k],
                ),
            texts(out@) == middle + rejection_lines(refused.take(j as int)),
        decreases summary.rejected@.len() - j,
    {
        let line = &summary.rejected[j];
        add_line(
            &mut out,
            cat4("  template=", line.template.as_str(), " reason=", line.reason.as_str()),
        );
        add_unless_empty(&mut out, "    ", line.message.as_str());
        proof {
            assert(refused.take(j as int + 1).drop_last() =~= refused.take(j as int));
            assert(texts(out@) =~= middle + rejection_lines(refused.take(j as int + 1)));
        }
        j = j + 1;
    }
    assert(refused.take(refused.len() as int) =~= refused);
    out
}

pub fn print_workflow_node_expand_response(
    reply: &Reply,
    json: bool,
    console: &mut Console,
) -> (r: i32)
    ensures
        shows(
            *old(console),
            *final(console),
            r,
            reply_shown(*reply, json, expand_lines(reply.value)),
        ),
{
    let human = render_expand(&reply.value);
    print_human(reply, json, &human, console)
}

/// An opened interrogation as a person reads it.
pub open spec fn interrogation_lines(response: Json) -> Seq<Seq<char>> {
    let interrogation = at(at(response, "result"@), "interrogation"@);
    seq!["id:      "@ + text_or(interrogation, "id"@, ""@)] + seq![
        "mode:    "@ + (if flag_at(interrogation, "reconstructed"@) {
            "reconstructed"@
        } else {
            "resumed"@
        }),
    ] + opt_line(where_given("pane_id: "@, text_at(interrogation, "pane_id"@)))
}

pub fn print_workflow_node_interrogate_response(
    reply: &Reply,
    json: bool,
    console: &mut Console,
) -> (r: i32)
    ensures
        shows(
            *old(console),
            *final(console),
            r,
            reply_shown(*reply, json, interrogation_lines(reply.value)),
        ),
{
    let null = Json::Null;
    let interrogation = reply.value.at("result", &null).at("interrogation", &null);
    let mode = if interrogation.flag_at("reconstructed") {
        "reconstructed"
    } else {
        "resumed"
    };
    let mut out: Vec<String> = Vec::new();
    out.push(cat2("id:      ", interrogation.text_or("id", "").as_str()));
    assert(texts(out@) =~= seq!["id:      "@ + text_or(*interrogation, "id"@, ""@)]);
    add_line(&mut out, cat2("mode:    ", mode));
    add_opt(&mut out, given("pane_id: ", interrogation.text_at("pane_id")));
    print_human(reply, json, &out, console)
}

// ---------------------------------------------------------------------------
// summary show, summary list
// ---------------------------------------------------------------------------

/// A summary as a person reads it.
pub open spec fn summary_lines(summary: Json) -> Seq<Seq<char>> {
    seq!["run_id:   "@ + text_or(summary, "run_id"@, ""@)] + seq![
        "workflow: "@ + text_or(summary, "workflow_name"@, ""@),
    ] + seq!["outcome:  "@ + text_or(summary, "outcome"@, ""@)] + (if flag_at(
        summary,
        "run_pruned"@,
    ) {
        seq!["pruned:   yes"@]
    } else {
        Seq::empty()
    }) + seq![""@] + seq![text_or(summary, "text"@, ""@)] + section(
        "highlights:"@,
        Row::Bullet,
        array_of(at(summary, "highlights"@)),
        false,
    ) + section("open gaps:"@, Row::Bullet, array_of(at(summary, "open_gaps"@)), false) + section(
        "nodes:"@,
        Row::NodeVerdict,
        array_of(at(summary, "per_node"@)),
        false,
    )
}

pub fn print_run_summary(summary: &Json) -> (r: Vec<String>)
    ensures
        texts(r@) == summary_lines(*summary),
{
    let null = Json::Null;
    let mut out: Vec<String> = Vec::new();
    out.push(cat2("run_id:   ", summary.text_or("run_id", "").as_str()));
    assert(texts(out@) =~= seq!["run_id:   "@ + text_or(*summary, "run_id"@, ""@)]);
    add_line(&mut out, cat2("workflow: ", summary.text_or("workflow_name", "").as_str()));
    add_line(&mut out, cat2("outcome:  ", summary.text_or("outcome", "").as_str()));
    if summary.flag_at("run_pruned") {
        add_line(&mut out, "pruned:   yes".to_owned());
    } else {
        assert(texts(out@) =~= texts(out@) + Seq::<Seq<char>>::empty());
    }
    add_line(&mut out, "".to_owned());
    add_line(&mut out, summary.text_or("text", ""));
    add_section(
        &mut out,
        "highlights:",
        Row::Bullet,
        summary.at("highlights", &null).as_array(),
        false,
    );
    add_section(
        &mut out,
        "open gaps:",
        Row::Bullet,
        summary.at("open_gaps", &null).as_array(),
        false,
    );
    add_section(
        &mut out,
        "nodes:",
        Row::NodeVerdict,
        summary.at("per_node", &null).as_array(),
        false,
    );
    out
}

/// What `summary show` prints. A run without a summary is a plain answer.
pub open spec fn summary_show_lines(response: Json) -> Seq<Seq<char>> {
    let summary = at(at(response, "result"@), "summary"@);
    if summary is Null {
        seq!["no summary recorded for this run yet"@]
    } else {
        summary_lines(summary)
    }
}

pub fn print_workflow_summary_show_response(
    reply: &Reply,
    json: bool,
    console: &mut Console,
) -> (r: i32)
    ensures
        shows(
            *old(console),
            *final(console),
            r,
            reply_shown(*reply, json, summary_show_lines(reply.value)),
        ),
{
    let null = Json::Null;
    let summary = reply.value.at("result", &null).at("summary", &null);
    let human: Vec<String> = if summary.is_null() {
        let mut one: Vec<String> = Vec::new();
        one.push("no summary recorded for this run yet".to_owned());
        assert(texts(one@) =~= seq!["no summary recorded for this run yet"@]);
        one
    } else {
        print_run_summary(summary)
    };
    print_human(reply, json, &human, console)
}

/// What `summary list` prints.
pub open spec fn summary_list_lines(response: Json) -> Seq<Seq<char>> {
    match array_of(at(at(response, "result"@), "summaries"@)) {
        None => Seq::empty(),
        Some(v) => if v.len() == 0 {
            seq!["no summaries recorded"@]
        } else {
            rows(Row::Summary, v)
        },
    }
}

pub fn print_workflow_summary_list_response(
    reply: &Reply,
    json: bool,
    console: &mut Console,
) -> (r: i32)
    ensures
        shows(
            *old(console),
            *final(console),
            r,
            reply_shown(*reply, json, summary_list_lines(reply.value)),
        ),
{
    let null = Json::Null;
    let human: Vec<String> = match reply.value.at("result", &null).at(
        "summaries",
        &null,
    ).as_array() {
        None => Vec::new(),
        Some(v) => if v.len() == 0 {
            let mut one: Vec<String> = Vec::new();
            one.push("no summaries recorded".to_owned());
            one
        } else {
            format_rows(Row::Summary, v)
        },
    };
    assert(texts(human@) =~= summary_list_lines(reply.value));
    print_human(reply, json, &human, console)
}

// ---------------------------------------------------------------------------
// review show
// ---------------------------------------------------------------------------

/// A point in time under a heading, where there is one.
pub open spec fn stamp_line(head: Seq<char>, value: Json, key: Seq<char>) -> Option<Seq<char>> {
    match unsigned_at(value, key) {
        Some(ms) => Some(head + stamp_text(ms as nat)),
        None => None,
    }
}

fn stamped(head: &str, value: &Json, key: &str) -> (r: Option<String>)
    ensures
        opt_text(r) == stamp_line(head@, *value, key@),
{
    match value.u64_at(key) {
        Some(ms) => Some(cat2(head, format_unix_ms(ms).as_str())),
        None => None,
    }
}

/// A review cycle as a person reads it.
pub open spec fn review_lines(review: Json) -> Seq<Seq<char>> {
    let degraded = unsigned_or_0(review, "evidence_only_count"@);
    seq!["id:      "@ + text_or(review, "id"@, ""@)] + seq![
        "run_id:  "@ + text_or(review, "run_id"@, ""@),
    ] + seq!["status:  "@ + text_or(review, "status"@, ""@)] + opt_line(
        stamp_line("started: "@, review, "started_at_unix_ms"@),
    ) + opt_line(stamp_line("ended:   "@, review, "ended_at_unix_ms"@)) + opt_line(
        where_given("version: "@, text_at(review, "resulting_version_id"@)),
    ) + (if degraded > 0 {
        seq![
            "evidence_only: "@ + decimal(degraded as nat)
                + " interview(s) could not be attributed"@,
        ]
    } else {
        Seq::empty()
    })
}

pub fn print_workflow_review_summary(review: &Json) -> (r: Vec<String>)
    ensures
        texts(r@) == review_lines(*review),
{
    let mut out: Vec<String> = Vec::new();
    out.push(cat2("id:      ", review.text_or("id", "").as_str()));
    assert(texts(out@) =~= seq!["id:      "@ + text_or(*review, "id"@, ""@)]);
    add_line(&mut out, cat2("run_id:  ", review.text_or("run_id", "").as_str()));
    add_line(&mut out, cat2("status:  ", review.text_or("status", "").as_str()));
    add_opt(&mut out, stamped("started: ", review, "started_at_unix_ms"));
    add_opt(&mut out, stamped("ended:   ", review, "ended_at_unix_ms"));
    add_opt(&mut out, given("version: ", review.text_at("resulting_version_id")));
    let degraded = review.u64_or_0("evidence_only_count");
    if degraded > 0 {
        add_line(
            &mut out,
            cat3(
                "evidence_only: ",
                decimal_text(degraded).as_str(),
                " interview(s) could not be attributed",
            ),
        );
    } else {
        assert(texts(out@) =~= texts(out@) + Seq::<Seq<char>>::empty());
    }
    out
}

/// What `review show` prints. A run that was never reviewed is a plain answer.
pub open spec fn review_show_lines(response: Json) -> Seq<Seq<char>> {
    let result = at(response, "result"@);
    let review = at(result, "review"@);
    if review is Null {
        seq!["no review cycle for this run yet"@]
    } else {
        review_lines(review) + section(
            "findings:"@,
            Row::Finding,
            array_of(at(result, "findings"@)),
            false,
        )
    }
}

pub fn print_workflow_review_show_response(
    reply: &Reply,
    json: bool,
    console: &mut Console,
) -> (r: i32)
    ensures
        shows(
            *old(console),
            *final(console),
            r,
            reply_shown(*reply, json, review_show_lines(reply.value)),
        ),
{
    let null = Json::Null;
    let result = reply.value.at("result", &null);
    let review = result.at("review", &null);
    let human: Vec<String> = if review.is_null() {
        let mut one: Vec<String> = Vec::new();
        one.push("no review cycle for this run yet".to_owned());
        assert(texts(one@) =~= seq!["no review cycle for this run yet"@]);
        one
    } else {
        let mut out = print_workflow_review_summary(review);
        add_section(
            &mut out,
            "findings:",
            Row::Finding,
            result.at("findings", &null).as_array(),
            false,
        );
        out
    };
    print_human(reply, json, &human, console)
}

// ---------------------------------------------------------------------------
// create, update, show
// ---------------------------------------------------------------------------

/// A created workflow as a person reads it.
pub open spec fn create_lines(response: Json) -> Seq<Seq<char>> {
    let workflow = at(at(response, "result"@), "workflow"@);
    let version = at(at(response, "result"@), "version"@);
    seq!["workflow_id: "@ + text_or(workflow, "workflow_id"@, ""@)] + seq![
        "name:        "@ + text_or(workflow, "name"@, ""@),
    ] + seq!["version:     "@ + decimal(unsigned_or_0(version, "version"@) as nat)]
        + unless_empty("change:      "@, text_or(version, "change_summary"@, ""@))
}

/// Whether an update made no new version: its version is the one that stood before.
pub open spec fn deduplicated(previous: Option<u32>, new: Option<u64>) -> bool {
    match (previous, new) {
        (Some(p), Some(n)) => p == n,
        _ => false,
    }
}

pub fn update_was_deduplicated(previous: Option<u32>, new: Option<u64>) -> (r: bool)
    ensures
        r == deduplicated(previous, new),
{
    match (previous, new) {
        (Some(p), Some(n)) => p as u64 == n,
        _ => false,
    }
}

/// An updated workflow as a person reads it. An update that made no new version says
/// so, and does not claim a change.
pub open spec fn update_lines(response: Json, previous: Option<u32>) -> Seq<Seq<char>> {
    let workflow = at(at(response, "result"@), "workflow"@);
    let version = at(at(response, "result"@), "version"@);
    if deduplicated(previous, unsigned_at(version, "version"@)) {
        seq!["workflow_id: "@ + text_or(workflow, "workflow_id"@, ""@)] + seq![
            "name:        "@ + text_or(workflow, "name"@, ""@),
        ] + seq![
            "version:     "@ + decimal(unsigned_or_0(version, "version"@) as nat)
                + " (unchanged — this definition matches the current version; no new version was created)"@,
        ]
    } else {
        create_lines(response)
    }
}

fn render_create(response: &Json) -> (r: Vec<String>)
    ensures
        texts(r@) == create_lines(*response),
{
    let null = Json::Null;
    let result = response.at("result", &null);
    let workflow = result.at("workflow", &null);
    let version = result.at("version", &null);
    let mut out: Vec<String> = Vec::new();
    out.push(cat2("workflow_id: ", workflow.text_or("workflow_id", "").as_str()));
    assert(texts(out@) =~= seq!["workflow_id: "@ + text_or(*workflow, "workflow_id"@, ""@)]);
    add_line(&mut out, cat2("name:        ", workflow.text_or("name", "").as_str()));
    add_line(&mut out, cat2("version:     ", decimal_text(version.u64_or_0("version")).as_str()));
    add_unless_empty(&mut out, "change:      ", version.text_or("change_summary", "").as_str());
    out
}

pub fn print_workflow_create_response(
    reply: &Reply,
    json: bool,
    console: &mut Console,
) -> (r: i32)
    ensures
        shows(
            *old(console),
            *final(console),
            r,
            reply_shown(*reply, json, create_lines(reply.value)),
        ),
{
    let human = render_create(&reply.value);
    print_human(reply, json, &human, console)
}

pub fn print_workflow_update_response(
    reply: &Reply,
    json: bool,
    previous_head_version: Option<u32>,
    console: &mut Console,
) -> (r: i32)
    ensures
        shows(
            *old(console),
            *final(console),
            r,
            reply_shown(*reply, json, update_lines(reply.value, previous_head_version)),
        ),
{
    let null = Json::Null;
    let result = reply.value.at("result", &null);
    let workflow = result.at("workflow", &null);
    let version = result.at("version", &null);
    let human: Vec<String> = if update_was_deduplicated(
        previous_head_version,
        version.u64_at("version"),
    ) {
        let mut out: Vec<String> = Vec::new();
        out.push(cat2("workflow_id: ", workflow.text_or("workflow_id", "").as_str()));
        assert(texts(out@) =~= seq!["workflow_id: "@ + text_or(*workflow, "workflow_id"@, ""@)]);
        add_line(&mut out, cat2("name:        ", workflow.text_or("name", "").as_str()));
        add_line(
            &mut out,
            cat3(
                "version:     ",
                decimal_text(version.u64_or_0("version")).as_str(),
                " (unchanged — this definition matches the current version; no new version was created)",
            ),
        );
        out
    } else {
        render_create(&reply.value)
    };
    print_human(reply, json, &human, console)
}

/// A workflow as a person reads it: what it is, its history, and, where the head
/// version could be had, the arguments, nodes and edges it defines.
pub open spec fn show_lines(response: Json, version_response: Option<Json>) -> Seq<Seq<char>> {
    let result = at(response, "result"@);
    let workflow = at(result, "workflow"@);
    let head = seq!["workflow_id: "@ + text_or(workflow, "workflow_id"@, ""@)] + seq![
        "name:        "@ + text_or(workflow, "name"@, ""@),
    ] + unless_empty("description: "@, text_or(workflow, "description"@, ""@)) + seq![
        "default_tier: "@ + text_or(workflow, "default_tier"@, ""@),
    ] + opt_line(
        match unsigned_at(workflow, "head_version"@) {
            Some(n) => Some("head_version: "@ + decimal(n as nat)),
            None => None,
        },
    ) + section("versions:"@, Row::Version, array_of(at(result, "versions"@)), true);
    match version_response {
        None => head + seq![""@] + seq![
            "(head version detail unavailable; nodes/edges/args not shown)"@,
        ],
        Some(reply) => {
            let version = at(at(reply, "result"@), "version"@);
            head + section("args:"@, Row::Argument, array_of(at(version, "args"@)), false)
                + section("nodes:"@, Row::DefinedNode, array_of(at(version, "nodes"@)), true)
                + section("edges:"@, Row::Edge, array_of(at(version, "edges"@)), false)
        },
    }
}

pub fn print_workflow_show(get_response: &Json, version_response: Option<&Json>) -> (r: Vec<String>)
    ensures
        texts(r@) == show_lines(
            *get_response,
            (match version_response {
                Some(v) => Some(*v),
                None => None,
            }),
        ),
{
    let null = Json::Null;
    let result = get_response.at("result", &null);
    let workflow = result.at("workflow", &null);
    let mut out: Vec<String> = Vec::new();
    out.push(cat2("workflow_id: ", workflow.text_or("workflow_id", "").as_str()));
    assert(texts(out@) =~= seq!["workflow_id: "@ + text_or(*workflow, "workflow_id"@, ""@)]);
    add_line(&mut out, cat2("name:        ", workflow.text_or("name", "").as_str()));
    add_unless_empty(&mut out, "description: ", workflow.text_or("description", "").as_str());
    add_line(&mut out, cat2("default_tier: ", workflow.text_or("default_tier", "").as_str()));
    let head_version: Option<String> = match workflow.u64_at("head_version") {
        Some(n) => Some(cat2("head_version: ", decimal_text(n).as_str())),
        None => None,
    };
    add_opt(&mut out, head_version);
    add_section(
        &mut out,
        "versions:",
        Row::Version,
        result.at("versions", &null).as_array(),
        true,
    );
    match version_response {
        None => {
            add_line(&mut out, "".to_owned());
            add_line(
                &mut out,
                "(head version detail unavailable; nodes/edges/args not shown)".to_owned(),
            );
        },
        Some(reply) => {
            let version = reply.at("result", &null).at("version", &null);
            add_section(
                &mut out,
                "args:",
                Row::Argument,
                version.at("args", &null).as_array(),
                false,
            );
            add_section(
                &mut out,
                "nodes:",
                Row::DefinedNode,
                version.at("nodes", &null).as_array(),
                true,
            );
            add_section(
                &mut out,
                "edges:",
                Row::Edge,
                version.at("edges", &null).as_array(),
                false,
            );
        },
    }
    out
}

/// An update is never reported as a change where the version that came back is the
/// one that stood before it.
pub proof fn law_a_repeated_update_claims_no_change(response: Json, previous: u32)
    requires
        unsigned_at(at(at(response, "result"@), "version"@), "version"@) == Some(previous as u64),
    ensures
        update_lines(response, Some(previous)).len() == 3,
        update_lines(response, Some(previous))[2] == "version:     "@ + decimal(previous as nat)
            + " (unchanged — this definition matches the current version; no new version was created)"@,
{
}

} // verus!
