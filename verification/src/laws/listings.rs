//! What telling an answer in words promises.

use crate::calendar::{clock_text, stamp_text};
use crate::cli::render::{
    accepted_lines, all_blocked_lines, argument_line, blocked_lines, blocking, blocks, create_lines,
    defined_node_line, edge_line, expand_lines, interrogation_lines, rejection_lines, review_lines,
    review_show_lines, rows, run_lines, section, show_lines, status_line, summary_list_lines,
    summary_show_lines, update_lines, verdict_line, version_line, Row,
};
use crate::cli::render_lines::{
    error_text, finding_line, human_message, indented, items_at, member_line, node_growth_line,
    node_line, restore_line, restored_from_line, run_growth_line, skip_text, strings_of,
    summary_row,
};
use crate::json::{
    array_of, at, flag_at, member, text_at, text_or, unsigned_at, unsigned_or_0, Json,
};
use crate::laws::places::filtered_places;
use crate::text::{decimal, has_part, join, lines, replaced, trim};
use vstd::prelude::*;

verus! {

broadcast use {crate::laws::places::lemma_in_either, crate::laws::places::lemma_in_pushed};

proof fn lemma_part(s: Seq<char>, before: Seq<char>, part: Seq<char>, after: Seq<char>)
    requires
        s =~= before + part + after,
    ensures
        has_part(s, part),
{
    let i = before.len() as int;
    assert(s.subrange(i, i + part.len()) =~= part);
}

// ---------------------------------------------------------------------------
// Rows
// ---------------------------------------------------------------------------

/// A row about a node begins with its path and tells its status, and its label where it has
/// one that is not its path.
pub proof fn law_a_node_row_tells_path_status_and_label(node: Json)
    ensures
        has_part(node_line(node), text_or(node, "path"@, ""@)),
        has_part(node_line(node), text_or(node, "status"@, ""@)),
        has_part(node_line(node), trim(text_or(node, "label"@, ""@))) || trim(
            text_or(node, "label"@, ""@),
        ).len() == 0,
{
    broadcast use {
        crate::laws::places::lemma_part_of_either,
        crate::laws::places::lemma_part_of_itself,
        crate::laws::places::lemma_part_of_column,
    };
}

/// A row about a member tells its name, whether it is at work, its model, and the pane it
/// is in or what it runs on.
pub proof fn law_a_member_row_tells_who_and_where(m: Json)
    ensures
        has_part(member_line(m), text_or(m, "name"@, ""@)),
        flag_at(m, "is_active"@) ==> has_part(member_line(m), "active"@),
        !flag_at(m, "is_active"@) ==> has_part(member_line(m), "idle"@),
        has_part(member_line(m), text_or(m, "model"@, ""@)) || text_or(m, "model"@, ""@).len() == 0,
        text_or(m, "pane_id"@, ""@).len() > 0 ==> has_part(
            member_line(m),
            text_or(m, "pane_id"@, ""@),
        ),
        text_or(m, "pane_id"@, ""@).len() == 0 ==> has_part(
            member_line(m),
            text_or(m, "backend_type"@, ""@),
        ),
{
    broadcast use {
        crate::laws::places::lemma_part_of_either,
        crate::laws::places::lemma_part_of_itself,
        crate::laws::places::lemma_part_of_column,
    };
}

/// A row about a finding tells its node, its level, its verdict, on what it rests and
/// whether it was accepted.
pub proof fn law_a_finding_row_tells_its_verdict(finding: Json)
    ensures
        has_part(finding_line(finding), text_or(finding, "node_key"@, ""@)),
        has_part(finding_line(finding), text_or(finding, "level"@, ""@)),
        has_part(finding_line(finding), text_or(finding, "verdict"@, ""@)),
        has_part(finding_line(finding), text_or(finding, "interview_mode"@, ""@)),
        flag_at(finding, "accepted"@) ==> has_part(finding_line(finding), "accepted"@),
        !flag_at(finding, "accepted"@) ==> has_part(finding_line(finding), "pending"@),
{
    broadcast use {
        crate::laws::places::lemma_part_of_either,
        crate::laws::places::lemma_part_of_itself,
        crate::laws::places::lemma_part_of_column,
    };
}

/// A row about a summary tells its run, its workflow, its outcome and when it was written,
/// and that the run is gone where it is.
pub proof fn law_a_summary_row_tells_run_and_outcome(summary: Json)
    ensures
        has_part(summary_row(summary), text_or(summary, "run_id"@, ""@)),
        has_part(summary_row(summary), text_or(summary, "workflow_name"@, ""@)),
        has_part(summary_row(summary), text_or(summary, "outcome"@, ""@)),
        unsigned_at(summary, "created_at_unix_ms"@) matches Some(ms) ==> has_part(
            summary_row(summary),
            stamp_text(ms as nat),
        ),
        flag_at(summary, "run_pruned"@) ==> has_part(summary_row(summary), " (pruned)"@),
{
    broadcast use {
        crate::laws::places::lemma_part_of_either,
        crate::laws::places::lemma_part_of_itself,
        crate::laws::places::lemma_part_of_column,
    };
}

/// The rows of a definition tell what they are about: a version its number, its time and
/// its change; an argument its name, whether it has to be given, its default and what it is
/// for; a node its key, its label, its runner and its demand; and an edge its two ends, its
/// kind and its port.
pub proof fn law_the_rows_of_a_definition_tell_all_of_it(v: Json)
    ensures
        has_part(version_line(v), decimal(unsigned_or_0(v, "version"@) as nat)),
        has_part(version_line(v), text_or(v, "change_summary"@, ""@)) || text_or(
            v,
            "change_summary"@,
            ""@,
        ).len() == 0,
        has_part(argument_line(v), text_or(v, "name"@, ""@)),
        flag_at(v, "required"@) ==> has_part(argument_line(v), "required"@),
        !flag_at(v, "required"@) ==> has_part(argument_line(v), "optional"@),
        text_at(v, "default"@) matches Some(d) ==> has_part(argument_line(v), "  default="@ + d),
        has_part(argument_line(v), text_or(v, "description"@, ""@)) || text_or(
            v,
            "description"@,
            ""@,
        ).len() == 0,
        has_part(defined_node_line(v), text_or(v, "node_key"@, ""@)),
        has_part(defined_node_line(v), text_or(v, "label"@, ""@)),
        has_part(defined_node_line(v), text_or(v, "runner"@, ""@)),
        has_part(defined_node_line(v), text_or(v, "demand"@, ""@)),
        has_part(
            edge_line(v),
            text_or(v, "from"@, ""@) + " -> "@ + text_or(v, "to"@, ""@),
        ),
        has_part(edge_line(v), text_or(v, "kind"@, ""@)),
        text_at(v, "port"@) matches Some(p) ==> has_part(edge_line(v), "  port="@ + p),
{
    lemma_version_row(v);
    lemma_argument_row(v);
    lemma_defined_node_row(v);
    lemma_edge_row(v);
}

proof fn lemma_edge_row(v: Json)
    ensures
        has_part(
            edge_line(v),
            text_or(v, "from"@, ""@) + " -> "@ + text_or(v, "to"@, ""@),
        ),
        has_part(edge_line(v), text_or(v, "kind"@, ""@)),
        text_at(v, "port"@) matches Some(p) ==> has_part(edge_line(v), "  port="@ + p),
{
    broadcast use {
        crate::laws::places::lemma_part_of_either,
        crate::laws::places::lemma_part_of_itself,
        crate::laws::places::lemma_part_of_column,
    };

    let from = text_or(v, "from"@, ""@);
    let to = text_or(v, "to"@, ""@);
    let both = from + " -> "@ + to;
    let head = "  "@ + from + " -> "@ + to;
    lemma_part(head, "  "@, both, Seq::empty());
}

proof fn lemma_version_row(v: Json)
    ensures
        has_part(version_line(v), decimal(unsigned_or_0(v, "version"@) as nat)),
        has_part(version_line(v), text_or(v, "change_summary"@, ""@)) || text_or(
            v,
            "change_summary"@,
            ""@,
        ).len() == 0,
{
    broadcast use {
        crate::laws::places::lemma_part_of_either,
        crate::laws::places::lemma_part_of_itself,
        crate::laws::places::lemma_part_of_column,
    };
}

proof fn lemma_argument_row(v: Json)
    ensures
        has_part(argument_line(v), text_or(v, "name"@, ""@)),
        flag_at(v, "required"@) ==> has_part(argument_line(v), "required"@),
        !flag_at(v, "required"@) ==> has_part(argument_line(v), "optional"@),
        text_at(v, "default"@) matches Some(d) ==> has_part(argument_line(v), "  default="@ + d),
        has_part(argument_line(v), text_or(v, "description"@, ""@)) || text_or(
            v,
            "description"@,
            ""@,
        ).len() == 0,
{
    broadcast use {
        crate::laws::places::lemma_part_of_either,
        crate::laws::places::lemma_part_of_itself,
        crate::laws::places::lemma_part_of_column,
    };
}

proof fn lemma_defined_node_row(v: Json)
    ensures
        has_part(defined_node_line(v), text_or(v, "node_key"@, ""@)),
        has_part(defined_node_line(v), text_or(v, "label"@, ""@)),
        has_part(defined_node_line(v), text_or(v, "runner"@, ""@)),
        has_part(defined_node_line(v), text_or(v, "demand"@, ""@)),
{
    broadcast use {
        crate::laws::places::lemma_part_of_either,
        crate::laws::places::lemma_part_of_itself,
        crate::laws::places::lemma_part_of_column,
    };
}

/// A row about what became of a node in a summary tells its key, its verdict and the line
/// about it.
pub proof fn law_a_verdict_row_tells_its_node(v: Json)
    ensures
        has_part(verdict_line(v), text_or(v, "node_key"@, ""@)),
        has_part(verdict_line(v), text_or(v, "verdict"@, ""@)),
        has_part(verdict_line(v), text_or(v, "one_liner"@, ""@)),
{
    broadcast use {
        crate::laws::places::lemma_part_of_either,
        crate::laws::places::lemma_part_of_itself,
        crate::laws::places::lemma_part_of_column,
    };
}

/// Every value of a list has a row of its own, in the order of the list, behind the title;
/// a list that is not there has neither.
pub proof fn law_every_value_has_a_row(
    title: Seq<char>,
    row: Row,
    values: Seq<Json>,
    even_empty: bool,
)
    ensures
        section(title, row, None, even_empty).len() == 0,
        values.len() > 0 || even_empty ==> {
            let s = section(title, row, Some(values), even_empty);
            &&& s.len() == values.len() + 2
            &&& s[1] == title
            &&& row == Row::Node ==> forall|i: int|
                0 <= i < values.len() ==> s[i + 2] == node_line(#[trigger] values[i])
            &&& row == Row::Member ==> forall|i: int|
                0 <= i < values.len() ==> s[i + 2] == member_line(#[trigger] values[i])
            &&& row == Row::Finding ==> forall|i: int|
                0 <= i < values.len() ==> s[i + 2] == finding_line(#[trigger] values[i])
            &&& row == Row::Version ==> forall|i: int|
                0 <= i < values.len() ==> s[i + 2] == version_line(#[trigger] values[i])
            &&& row == Row::Argument ==> forall|i: int|
                0 <= i < values.len() ==> s[i + 2] == argument_line(#[trigger] values[i])
            &&& row == Row::DefinedNode ==> forall|i: int|
                0 <= i < values.len() ==> s[i + 2] == defined_node_line(#[trigger] values[i])
            &&& row == Row::Edge ==> forall|i: int|
                0 <= i < values.len() ==> s[i + 2] == edge_line(#[trigger] values[i])
            &&& row == Row::NodeVerdict ==> forall|i: int|
                0 <= i < values.len() ==> s[i + 2] == verdict_line(#[trigger] values[i])
            &&& row == Row::Bullet ==> forall|i: int|
                0 <= i < values.len() ==> (#[trigger] values[i] matches Json::Str(t) ==> s[i + 2]
                    == "  - "@ + t@)
        },
        values.len() == 0 && !even_empty ==> section(title, row, Some(values), even_empty).len()
            == 0,
{
    if values.len() > 0 || even_empty {
        let s = section(title, row, Some(values), even_empty);
        let r = rows(row, values);
        assert(s =~= seq![""@, title] + r);
        assert(forall|i: int| 0 <= i < values.len() ==> s[i + 2] == #[trigger] r[i]);
        assert forall|i: int| 0 <= i < values.len() implies r[i]
            == crate::cli::render::row_text(row, #[trigger] values[i]) && s[i + 2] == r[i] by {}
    }
}

// ---------------------------------------------------------------------------
// Runs
// ---------------------------------------------------------------------------

/// A run is told with its id, its tier, how many of its nodes are done and of how many, its
/// limits, its team, and whatever limited its growth or was restored, each where there is
/// one.
pub proof fn law_a_run_is_told_with_all_of_it(response: Json)
    ensures
        ({
            let result = at(response, "result"@);
            let run = at(result, "run"@);
            let told = run_lines(response);
            &&& told[0] == "run_id:  "@ + text_or(run, "run_id"@, ""@)
            &&& told.contains("tier:    "@ + text_or(run, "tier"@, ""@))
            &&& told.contains(
                "nodes:   "@ + decimal(unsigned_or_0(run, "nodes_done"@) as nat) + "/"@ + decimal(
                    unsigned_or_0(run, "nodes_total"@) as nat,
                ),
            )
            &&& member(run, "max_nodes"@) is Some || member(run, "max_depth"@) is Some
                ==> told.contains(
                "limits:  max_nodes="@ + decimal(unsigned_or_0(run, "max_nodes"@) as nat)
                    + " · max_depth="@ + decimal(unsigned_or_0(run, "max_depth"@) as nat),
            )
            &&& text_or(run, "team_name"@, ""@).len() > 0 ==> told.contains(
                "team:    "@ + text_or(run, "team_name"@, ""@),
            )
            &&& run_growth_line(run) matches Some(line) ==> told.contains(line)
            &&& restore_line(at(result, "restore"@)) matches Some(line) ==> told.contains(line)
        }),
{
    let result = at(response, "result"@);
    let run = at(result, "run"@);
    let told = run_lines(response);
    assert(told[0] == "run_id:  "@ + text_or(run, "run_id"@, ""@));
}

/// Every node of a run has its own row, in order, and every member its own after them.
pub proof fn law_every_node_and_member_of_a_run_is_listed(response: Json) -> (base: int)
    ensures
        ({
            let graph = at(at(response, "result"@), "graph"@);
            let told = run_lines(response);
            let nodes = items_at(graph, "nodes"@);
            let members = items_at(graph, "members"@);
            &&& 0 <= base
            &&& told.len() == base + (if nodes.len() > 0 {
                nodes.len() + 2
            } else {
                0
            }) + (if members.len() > 0 {
                members.len() + 2
            } else {
                0
            })
            &&& nodes.len() > 0 ==> told[base + 1] == "nodes:"@
            &&& forall|i: int|
                0 <= i < nodes.len() ==> told[base + 2 + i] == node_line(#[trigger] nodes[i])
            &&& forall|i: int|
                0 <= i < members.len() ==> told[told.len() - members.len() + i] == member_line(
                    #[trigger] members[i],
                )
        }),
{
    let graph = at(at(response, "result"@), "graph"@);
    let told = run_lines(response);
    let nodes = items_at(graph, "nodes"@);
    let members = items_at(graph, "members"@);
    let s1 = section("nodes:"@, Row::Node, array_of(at(graph, "nodes"@)), false);
    let s2 = section("members:"@, Row::Member, array_of(at(graph, "members"@)), false);
    law_every_value_has_a_row("nodes:"@, Row::Node, nodes, false);
    law_every_value_has_a_row("members:"@, Row::Member, members, false);
    let base = told.len() - s1.len() - s2.len();
    assert forall|i: int| 0 <= i < nodes.len() implies told[base + 2 + i] == node_line(
        #[trigger] nodes[i],
    ) by {
        assert(s1[i + 2] == node_line(nodes[i]));
    }
    assert forall|i: int| 0 <= i < members.len() implies told[told.len() - members.len() + i]
        == member_line(#[trigger] members[i]) by {
        assert(s2[i + 2] == member_line(members[i]));
    }
    if nodes.len() > 0 {
        assert(told[base + 1] == s1[1]);
    }
    base
}

/// Whether a node keeps its run from going on.
pub open spec fn stuck(node: Json) -> bool {
    let status = text_at(node, "status"@);
    status == Some("needs_attention"@) || status == Some("blocked"@) || status == Some("failed"@)
}

proof fn lemma_blocked(nodes: Seq<Json>, line: Seq<char>)
    ensures
        all_blocked_lines(nodes).contains(line) <==> exists|i: int|
            0 <= i < nodes.len() && blocked_lines(#[trigger] nodes[i]).contains(line),
    decreases nodes.len(),
{
    if nodes.len() > 0 {
        let n = nodes.len() - 1;
        let init = nodes.drop_last();
        lemma_blocked(init, line);
        if exists|i: int| 0 <= i < nodes.len() && blocked_lines(#[trigger] nodes[i]).contains(line) {
            let i = choose|i: int|
                0 <= i < nodes.len() && blocked_lines(#[trigger] nodes[i]).contains(line);
            if i < n {
                assert(init[i] == nodes[i]);
            }
        }
        if exists|i: int| 0 <= i < init.len() && blocked_lines(#[trigger] init[i]).contains(line) {
            let i = choose|i: int|
                0 <= i < init.len() && blocked_lines(#[trigger] init[i]).contains(line);
            assert(nodes[i] == init[i]);
        }
        if blocked_lines(nodes[n]).contains(line) {
            assert(blocked_lines(nodes[n]).contains(line));
        }
    }
}

/// Every node that keeps its run from going on is told of, with why and until when where
/// that is known; and the run's status names the first of them, and none where there is
/// none.
pub proof fn law_every_stuck_node_is_told_of(response: Json, i: int)
    requires
        0 <= i < items_at(at(at(response, "result"@), "graph"@), "nodes"@).len(),
        stuck(items_at(at(at(response, "result"@), "graph"@), "nodes"@)[i]),
    ensures
        ({
            let nodes = items_at(at(at(response, "result"@), "graph"@), "nodes"@);
            let node = nodes[i];
            let run = at(at(response, "result"@), "run"@);
            let blocker = at(node, "blocker"@);
            let told = run_lines(response);
            &&& told.contains(
                "blocked: "@ + text_or(node, "path"@, ""@) + " ("@ + text_or(node, "status"@, ""@)
                    + ")"@,
            )
            &&& text_at(blocker, "reason"@) matches Some(t) ==> told.contains("reason:  "@ + t)
            &&& text_at(blocker, "resume_when"@) matches Some(t) ==> told.contains("resume:  "@ + t)
            &&& (forall|j: int| 0 <= j < i ==> !stuck(#[trigger] nodes[j])) ==> told.contains(
                "status:  "@ + text_or(run, "status"@, ""@) + (" (node \""@ + text_or(
                    node,
                    "path"@,
                    ""@,
                ) + "\": "@ + text_or(node, "status"@, ""@) + ")"@),
            )
        }),
{
    let nodes = items_at(at(at(response, "result"@), "graph"@), "nodes"@);
    let node = nodes[i];
    let told = run_lines(response);
    let keep = |n: Json| blocks(n);
    let kept = blocking(nodes);
    assert(kept == nodes.filter(keep));
    let places = filtered_places(nodes, keep);
    assert(keep(node));
    let k = choose|k: int| 0 <= k < places.len() && places[k] == i;
    assert(kept[k] == node);
    let blocker = at(node, "blocker"@);
    let first = "blocked: "@ + text_or(node, "path"@, ""@) + " ("@ + text_or(node, "status"@, ""@)
        + ")"@;
    assert(blocked_lines(kept[k]).contains(first));
    lemma_blocked(kept, first);
    if let Some(t) = text_at(blocker, "reason"@) {
        assert(blocked_lines(kept[k]).contains("reason:  "@ + t));
        lemma_blocked(kept, "reason:  "@ + t);
    }
    if let Some(t) = text_at(blocker, "resume_when"@) {
        assert(blocked_lines(kept[k]).contains("resume:  "@ + t));
        lemma_blocked(kept, "resume:  "@ + t);
    }
    if forall|j: int| 0 <= j < i ==> !stuck(#[trigger] nodes[j]) {
        assert(keep(kept[0]));
        assert(nodes[places[0]] == kept[0]);
        if places[0] < i {
            assert(!stuck(nodes[places[0]]));
        }
        if k > 0 {
            assert(places[0] < places[k]);
        }
        assert(kept[0] == node);
        assert(told.contains(status_line(at(at(response, "result"@), "run"@), kept)));
    }
}

/// What limited the growth of a run or a node is told with what it was, when, and how much
/// came of what was asked.
pub proof fn law_a_limit_is_told_with_what_came_of_it(v: Json)
    ensures
        at(v, "growth_limited"@) is Null ==> run_growth_line(v) is None && node_growth_line(v)
            is None,
        !(at(v, "growth_limited"@) is Null) ==> {
            let limit = at(v, "growth_limited"@);
            &&& run_growth_line(v) == Some(
                "growth:  "@ + decimal(unsigned_or_0(v, "nodes_live"@) as nat) + " of "@ + decimal(
                    unsigned_or_0(v, "max_nodes"@) as nat,
                ) + " nodes · limited: "@ + (text_or(limit, "kind"@, "limit"@) + " reached at "@
                    + clock_text(unsigned_or_0(limit, "at_unix_ms"@) as nat)),
            )
            &&& node_growth_line(v) == Some(
                "growth_limited: "@ + text_or(limit, "kind"@, "limit"@) + " reached at "@
                    + clock_text(unsigned_or_0(limit, "at_unix_ms"@) as nat) + (" ("@ + decimal(
                    unsigned_or_0(limit, "accepted"@) as nat,
                ) + " of "@ + decimal(unsigned_or_0(limit, "requested"@) as nat) + " accepted)"@),
            )
        },
        at(v, "restored_from"@) is Null ==> restored_from_line(v) is None,
        !(at(v, "restored_from"@) is Null) ==> restored_from_line(v) == Some(
            "restored from: run "@ + text_or(at(v, "restored_from"@), "run_id"@, ""@)
                + " · node "@ + text_or(at(v, "restored_from"@), "node_key"@, ""@)
                + " · checkpoint #"@ + decimal(
                unsigned_or_0(at(v, "restored_from"@), "checkpoint_seq"@) as nat,
            ),
        ),
{
}

// ---------------------------------------------------------------------------
// The rest
// ---------------------------------------------------------------------------

proof fn lemma_strings(values: Seq<Json>, s: Seq<char>)
    ensures
        strings_of(values).contains(s) <==> exists|i: int|
            0 <= i < values.len() && (#[trigger] values[i] matches Json::Str(t) && t@ == s),
        (forall|i: int| 0 <= i < values.len() ==> #[trigger] values[i] is Str) ==> strings_of(
            values,
        ).len() == values.len(),
    decreases values.len(),
{
    if values.len() > 0 {
        let n = values.len() - 1;
        let init = values.drop_last();
        lemma_strings(init, s);
        assert(forall|i: int| 0 <= i < n ==> init[i] == #[trigger] values[i]);
        if exists|i: int| 0 <= i < values.len() && (#[trigger] values[i] matches Json::Str(t) && t@ == s) {
            let i = choose|i: int|
                0 <= i < values.len() && (#[trigger] values[i] matches Json::Str(t) && t@ == s);
            if i < n {
                assert(init[i] matches Json::Str(t) && t@ == s);
            }
        }
        if exists|i: int| 0 <= i < init.len() && (#[trigger] init[i] matches Json::Str(t) && t@ == s) {
            let i = choose|i: int|
                0 <= i < init.len() && (#[trigger] init[i] matches Json::Str(t) && t@ == s);
            assert(values[i] matches Json::Str(t) && t@ == s);
        }
        assert(values[n] == values.last());
    }
}

/// The strings of a list are those of its values that are strings, and no others.
pub proof fn law_the_strings_of_a_list_are_its_strings(values: Seq<Json>, s: Seq<char>)
    ensures
        strings_of(values).contains(s) <==> exists|i: int|
            0 <= i < values.len() && (#[trigger] values[i] matches Json::Str(t) && t@ == s),
        (forall|i: int| 0 <= i < values.len() ==> #[trigger] values[i] is Str) ==> strings_of(
            values,
        ).len() == values.len(),
{
    lemma_strings(values, s);
}

proof fn lemma_rejections(refused: Seq<Json>, line: Seq<char>, i: int)
    requires
        0 <= i < refused.len(),
        line == "  template="@ + text_or(refused[i], "template"@, ""@) + " reason="@ + text_or(
            refused[i],
            "reason"@,
            ""@,
        ) || (text_or(refused[i], "message"@, ""@).len() > 0 && line == "    "@ + text_or(
            refused[i],
            "message"@,
            ""@,
        )),
    ensures
        rejection_lines(refused).contains(line),
    decreases refused.len(),
{
    let n = refused.len() - 1;
    if i < n {
        assert(refused.drop_last()[i] == refused[i]);
        lemma_rejections(refused.drop_last(), line, i);
    }
}

/// An expansion is told with how many nodes were accepted and which, and how many were
/// refused and, of each, from which template and why.
pub proof fn law_an_expansion_is_told_with_every_refusal(response: Json, i: int, path: Seq<char>)
    ensures
        ({
            let result = at(response, "result"@);
            let accepted = strings_of(items_at(result, "accepted"@));
            let refused = items_at(result, "rejected"@);
            let told = expand_lines(response);
            &&& told[0] == "accepted: "@ + decimal(accepted.len())
            &&& told.contains("rejected: "@ + decimal(refused.len()))
            &&& accepted.contains(path) ==> told.contains("  "@ + path)
            &&& 0 <= i < refused.len() ==> told.contains(
                "  template="@ + text_or(refused[i], "template"@, ""@) + " reason="@ + text_or(
                    refused[i],
                    "reason"@,
                    ""@,
                ),
            ) && (text_or(refused[i], "message"@, ""@).len() > 0 ==> told.contains(
                "    "@ + text_or(refused[i], "message"@, ""@),
            ))
        }),
{
    let result = at(response, "result"@);
    let accepted = strings_of(items_at(result, "accepted"@));
    let refused = items_at(result, "rejected"@);
    let told = expand_lines(response);
    assert(told[0] == "accepted: "@ + decimal(accepted.len()));
    if accepted.contains(path) {
        let k = choose|k: int| 0 <= k < accepted.len() && accepted[k] == path;
        assert(accepted_lines(accepted)[k] == "  "@ + path);
        assert(accepted_lines(accepted).contains("  "@ + path));
    }
    if 0 <= i < refused.len() {
        lemma_rejections(
            refused,
            "  template="@ + text_or(refused[i], "template"@, ""@) + " reason="@ + text_or(
                refused[i],
                "reason"@,
                ""@,
            ),
            i,
        );
        if text_or(refused[i], "message"@, ""@).len() > 0 {
            lemma_rejections(refused, "    "@ + text_or(refused[i], "message"@, ""@), i);
        }
    }
}

/// An interrogation is told with its id, whether its session was reconstructed, and its
/// pane where it has one.
pub proof fn law_an_interrogation_is_told_with_its_pane(response: Json)
    ensures
        ({
            let q = at(at(response, "result"@), "interrogation"@);
            let told = interrogation_lines(response);
            &&& told[0] == "id:      "@ + text_or(q, "id"@, ""@)
            &&& flag_at(q, "reconstructed"@) ==> told[1] == "mode:    "@ + "reconstructed"@
            &&& !flag_at(q, "reconstructed"@) ==> told[1] == "mode:    "@ + "resumed"@
            &&& text_at(q, "pane_id"@) matches Some(t) ==> told.contains("pane_id: "@ + t)
        }),
{
    let q = at(at(response, "result"@), "interrogation"@);
    let told = interrogation_lines(response);
    assert(told[0] == "id:      "@ + text_or(q, "id"@, ""@));
}

/// A summary is told with its run, its workflow, its outcome and its text, word for word,
/// and with each highlight and each open gap; and where there is none, that is told.
pub proof fn law_a_summary_is_told_word_for_word(response: Json, i: int, t: String)
    ensures
        ({
            let summary = at(at(response, "result"@), "summary"@);
            let told = summary_show_lines(response);
            &&& summary is Null ==> told == seq!["no summary recorded for this run yet"@]
            &&& !(summary is Null) ==> {
                &&& told[0] == "run_id:   "@ + text_or(summary, "run_id"@, ""@)
                &&& told.contains("workflow: "@ + text_or(summary, "workflow_name"@, ""@))
                &&& told.contains("outcome:  "@ + text_or(summary, "outcome"@, ""@))
                &&& told.contains(text_or(summary, "text"@, ""@))
                &&& flag_at(summary, "run_pruned"@) ==> told.contains("pruned:   yes"@)
                &&& 0 <= i < items_at(summary, "highlights"@).len() && items_at(
                    summary,
                    "highlights"@,
                )[i] == Json::Str(t) ==> told.contains("  - "@ + t@)
                &&& 0 <= i < items_at(summary, "open_gaps"@).len() && items_at(
                    summary,
                    "open_gaps"@,
                )[i] == Json::Str(t) ==> told.contains("  - "@ + t@)
                &&& 0 <= i < items_at(summary, "per_node"@).len() ==> told.contains(
                    verdict_line(items_at(summary, "per_node"@)[i]),
                )
            }
        }),
{
    let summary = at(at(response, "result"@), "summary"@);
    let told = summary_show_lines(response);
    if !(summary is Null) {
        assert(told[0] == "run_id:   "@ + text_or(summary, "run_id"@, ""@));
        let a = items_at(summary, "highlights"@);
        let b = items_at(summary, "open_gaps"@);
        let c = items_at(summary, "per_node"@);
        law_every_value_has_a_row("highlights:"@, Row::Bullet, a, false);
        law_every_value_has_a_row("open gaps:"@, Row::Bullet, b, false);
        law_every_value_has_a_row("nodes:"@, Row::NodeVerdict, c, false);
        if 0 <= i < a.len() && a[i] == Json::Str(t) {
            let s = section("highlights:"@, Row::Bullet, Some(a), false);
            assert(s[i + 2] == "  - "@ + t@);
            assert(s.contains("  - "@ + t@));
        }
        if 0 <= i < b.len() && b[i] == Json::Str(t) {
            let s = section("open gaps:"@, Row::Bullet, Some(b), false);
            assert(s[i + 2] == "  - "@ + t@);
            assert(s.contains("  - "@ + t@));
        }
        if 0 <= i < c.len() {
            let s = section("nodes:"@, Row::NodeVerdict, Some(c), false);
            assert(s[i + 2] == verdict_line(c[i]));
            assert(s.contains(verdict_line(c[i])));
        }
    }
}

/// The summaries are listed one to a row and in order; where there are none, that is told.
pub proof fn law_every_summary_is_listed(response: Json, values: Seq<Json>)
    requires
        array_of(at(at(response, "result"@), "summaries"@)) == Some(values),
    ensures
        values.len() == 0 ==> summary_list_lines(response) == seq!["no summaries recorded"@],
        values.len() > 0 ==> summary_list_lines(response).len() == values.len() && forall|i: int|
            0 <= i < values.len() ==> summary_list_lines(response)[i] == summary_row(
                #[trigger] values[i],
            ),
{
    if values.len() > 0 {
        let r = rows(Row::Summary, values);
        assert forall|i: int| 0 <= i < values.len() implies r[i] == summary_row(
            #[trigger] values[i],
        ) by {}
    }
}

/// A review is told with its id, its run, its status and when it began and ended, with how
/// many interviews could not be attributed, and with every finding in order; and where there
/// is none, that is told.
pub proof fn law_a_review_is_told_with_every_finding(response: Json, i: int)
    ensures
        ({
            let review = at(at(response, "result"@), "review"@);
            let findings = items_at(at(response, "result"@), "findings"@);
            let told = review_show_lines(response);
            &&& review is Null ==> told == seq!["no review cycle for this run yet"@]
            &&& !(review is Null) ==> {
                &&& told[0] == "id:      "@ + text_or(review, "id"@, ""@)
                &&& told.contains("run_id:  "@ + text_or(review, "run_id"@, ""@))
                &&& told.contains("status:  "@ + text_or(review, "status"@, ""@))
                &&& unsigned_at(review, "started_at_unix_ms"@) matches Some(ms) ==> told.contains(
                    "started: "@ + stamp_text(ms as nat),
                )
                &&& unsigned_at(review, "ended_at_unix_ms"@) matches Some(ms) ==> told.contains(
                    "ended:   "@ + stamp_text(ms as nat),
                )
                &&& text_at(review, "resulting_version_id"@) matches Some(t) ==> told.contains(
                    "version: "@ + t,
                )
                &&& unsigned_or_0(review, "evidence_only_count"@) > 0 ==> told.contains(
                    "evidence_only: "@ + decimal(
                        unsigned_or_0(review, "evidence_only_count"@) as nat,
                    ) + " interview(s) could not be attributed"@,
                )
                &&& 0 <= i < findings.len() ==> told[told.len() - findings.len() + i]
                    == finding_line(findings[i])
            }
        }),
{
    let review = at(at(response, "result"@), "review"@);
    let findings = items_at(at(response, "result"@), "findings"@);
    let told = review_show_lines(response);
    if !(review is Null) {
        assert(told[0] == review_lines(review)[0]);
        law_every_value_has_a_row("findings:"@, Row::Finding, findings, false);
        if 0 <= i < findings.len() {
            let s = section("findings:"@, Row::Finding, Some(findings), false);
            assert(s[i + 2] == finding_line(findings[i]));
        }
    }
}

/// A workflow that was created or updated is told with its id, its name, its version and
/// the change; a version that is the same as before is said to be unchanged, and only that.
pub proof fn law_a_new_version_is_told_by_its_number(response: Json, previous: Option<u32>)
    ensures
        ({
            let workflow = at(at(response, "result"@), "workflow"@);
            let version = at(at(response, "result"@), "version"@);
            let number = decimal(unsigned_or_0(version, "version"@) as nat);
            let made = create_lines(response);
            let told = update_lines(response, previous);
            let same = previous is Some && unsigned_at(version, "version"@) is Some && previous->0
                == unsigned_at(version, "version"@)->0;
            &&& made[0] == "workflow_id: "@ + text_or(workflow, "workflow_id"@, ""@)
            &&& made[1] == "name:        "@ + text_or(workflow, "name"@, ""@)
            &&& made[2] == "version:     "@ + number
            &&& text_or(version, "change_summary"@, ""@).len() > 0 ==> made.contains(
                "change:      "@ + text_or(version, "change_summary"@, ""@),
            )
            &&& !same ==> told == made
            &&& same ==> told.len() == 3 && told[0] == made[0] && told[1] == made[1]
                && "version:     "@.is_prefix_of(told[2]) && told[2] != made[2]
        }),
{
    let workflow = at(at(response, "result"@), "workflow"@);
    let version = at(at(response, "result"@), "version"@);
    let number = decimal(unsigned_or_0(version, "version"@) as nat);
    let made = create_lines(response);
    let told = update_lines(response, previous);
    assert(made[0] == "workflow_id: "@ + text_or(workflow, "workflow_id"@, ""@));
    assert(made[1] == "name:        "@ + text_or(workflow, "name"@, ""@));
    assert(made[2] == "version:     "@ + number);
    if crate::cli::render::deduplicated(previous, unsigned_at(version, "version"@)) {
        reveal_strlit(
            " (unchanged — this definition matches the current version; no new version was created)",
        );
        let note =
            " (unchanged — this definition matches the current version; no new version was created)"@;
        assert(told[2] == "version:     "@ + number + note);
        assert(told[2].len() != made[2].len());
        assert("version:     "@ =~= told[2].subrange(0, "version:     "@.len() as int));
    }
}

/// A workflow is shown with its id, its name, its description, its tier and its head, with
/// every version, and with every argument, node and edge of its head version where that
/// could be had; where it could not, that is told.
pub proof fn law_a_workflow_is_shown_with_all_of_it(response: Json, version: Option<Json>, i: int)
    ensures
        ({
            let result = at(response, "result"@);
            let workflow = at(result, "workflow"@);
            let told = show_lines(response, version);
            let versions = items_at(result, "versions"@);
            &&& told[0] == "workflow_id: "@ + text_or(workflow, "workflow_id"@, ""@)
            &&& told[1] == "name:        "@ + text_or(workflow, "name"@, ""@)
            &&& text_or(workflow, "description"@, ""@).len() > 0 ==> told.contains(
                "description: "@ + text_or(workflow, "description"@, ""@),
            )
            &&& told.contains("default_tier: "@ + text_or(workflow, "default_tier"@, ""@))
            &&& unsigned_at(workflow, "head_version"@) matches Some(n) ==> told.contains(
                "head_version: "@ + decimal(n as nat),
            )
            &&& 0 <= i < versions.len() ==> told.contains(version_line(versions[i]))
            &&& version is None ==> told.contains(
                "(head version detail unavailable; nodes/edges/args not shown)"@,
            )
            &&& version matches Some(reply) ==> {
                let v = at(at(reply, "result"@), "version"@);
                &&& 0 <= i < items_at(v, "args"@).len() ==> told.contains(
                    argument_line(items_at(v, "args"@)[i]),
                )
                &&& 0 <= i < items_at(v, "nodes"@).len() ==> told.contains(
                    defined_node_line(items_at(v, "nodes"@)[i]),
                )
                &&& 0 <= i < items_at(v, "edges"@).len() ==> told.contains(
                    edge_line(items_at(v, "edges"@)[i]),
                )
            }
        }),
{
    let result = at(response, "result"@);
    let workflow = at(result, "workflow"@);
    let told = show_lines(response, version);
    let versions = items_at(result, "versions"@);
    assert(told[0] == "workflow_id: "@ + text_or(workflow, "workflow_id"@, ""@));
    assert(told[1] == "name:        "@ + text_or(workflow, "name"@, ""@));
    if 0 <= i < versions.len() {
        law_every_value_has_a_row("versions:"@, Row::Version, versions, true);
        let s = section("versions:"@, Row::Version, Some(versions), true);
        assert(s[i + 2] == version_line(versions[i]));
        assert(s.contains(version_line(versions[i])));
    }
    if let Some(reply) = version {
        let v = at(at(reply, "result"@), "version"@);
        let a = items_at(v, "args"@);
        let b = items_at(v, "nodes"@);
        let c = items_at(v, "edges"@);
        if 0 <= i < a.len() {
            law_every_value_has_a_row("args:"@, Row::Argument, a, false);
            let s = section("args:"@, Row::Argument, Some(a), false);
            assert(s[i + 2] == argument_line(a[i]));
            assert(s.contains(argument_line(a[i])));
        }
        if 0 <= i < b.len() {
            law_every_value_has_a_row("nodes:"@, Row::DefinedNode, b, true);
            let s = section("nodes:"@, Row::DefinedNode, Some(b), true);
            assert(s[i + 2] == defined_node_line(b[i]));
            assert(s.contains(defined_node_line(b[i])));
        }
        if 0 <= i < c.len() {
            law_every_value_has_a_row("edges:"@, Row::Edge, c, false);
            let s = section("edges:"@, Row::Edge, Some(c), false);
            assert(s[i + 2] == edge_line(c[i]));
            assert(s.contains(edge_line(c[i])));
        }
    }
}

/// What was restored and what was not is told by name, and why not; where nothing was, that
/// is told.
pub proof fn law_what_was_restored_is_told(restore: Json)
    requires
        !(restore is Null),
    ensures
        ({
            let restored = strings_of(items_at(restore, "restored"@));
            let skipped = items_at(restore, "skipped"@);
            let line = restore_line(restore)->0;
            &&& restore_line(restore) is Some
            &&& restored.len() > 0 ==> has_part(line, join(restored, ", "@))
            &&& skipped.len() == 1 ==> has_part(
                line,
                text_or(skipped[0], "selector"@, ""@) + " ("@ + replaced(
                    text_or(skipped[0], "reason"@, ""@),
                    '_',
                    ' ',
                ) + ")"@,
            )
            &&& restored.len() == 0 && skipped.len() == 0 ==> line
                == "restore: none restored, none skipped"@
        }),
{
    let restored = strings_of(items_at(restore, "restored"@));
    let skipped = items_at(restore, "skipped"@);
    let line = restore_line(restore)->0;
    let texts = crate::cli::render_lines::skip_texts(skipped);
    let a = join(restored, ", "@);
    let b = join(texts, ", "@);
    assert(texts.len() == skipped.len());
    if skipped.len() == 1 {
        assert(texts[0] == skip_text(skipped[0]));
        assert(b == texts[0]);
    }
    if restored.len() > 0 && skipped.len() == 0 {
        lemma_part(line, "restored: "@, a, Seq::empty());
    } else if restored.len() == 0 && skipped.len() > 0 {
        lemma_part(line, "skipped: "@, b, Seq::empty());
    } else if restored.len() > 0 && skipped.len() > 0 {
        lemma_part(line, "restored: "@, a, " · "@ + "skipped: "@ + b);
        lemma_part(line, "restored: "@ + a + " · "@ + "skipped: "@, b, Seq::empty());
    }
}

proof fn lemma_indented(parts: Seq<Seq<char>>, i: int)
    requires
        0 <= i < parts.len(),
    ensures
        has_part(indented(parts), parts[i]),
    decreases parts.len(),
{
    let n = parts.len() - 1;
    let init = parts.drop_last();
    let whole = indented(parts);
    if i < n {
        lemma_indented(init, i);
        assert(init[i] == parts[i]);
        let head = indented(init);
        let k = choose|k: int|
            0 <= k && k + parts[i].len() <= head.len() && #[trigger] head.subrange(
                k,
                k + parts[i].len(),
            ) == parts[i];
        assert(whole.subrange(k, k + parts[i].len()) =~= head.subrange(k, k + parts[i].len()));
    } else {
        lemma_part(whole, indented(init) + "\n  "@, parts[i], Seq::empty());
    }
}

/// A refusal of the server is told with its code and every line of its message, unless the
/// name of a workflow is taken: then that is told, with the name.
pub proof fn law_a_refusal_is_told_in_full(response: Json, error: Json, i: int)
    requires
        member(response, "error"@) == Some(error),
    ensures
        ({
            let code = text_or(error, "code"@, ""@);
            let message = text_or(error, "message"@, ""@);
            let told = error_text(response)->0;
            &&& error_text(response) is Some
            &&& ("error: "@ + code).is_prefix_of(told)
            &&& code != "workflow_store_error"@ && 0 <= i < lines(message).len() ==> has_part(
                told,
                lines(message)[i],
            )
        }),
{
    let code = text_or(error, "code"@, ""@);
    let message = text_or(error, "message"@, ""@);
    let told = error_text(response)->0;
    let parts = lines(human_message(code, message));
    let head = "error: "@ + code;
    assert(told == head + indented(parts));
    assert(head =~= told.subrange(0, head.len() as int));
    if code != "workflow_store_error"@ && 0 <= i < lines(message).len() {
        lemma_indented(parts, i);
        let tail = indented(parts);
        let k = choose|k: int|
            0 <= k && k + parts[i].len() <= tail.len() && #[trigger] tail.subrange(
                k,
                k + parts[i].len(),
            ) == parts[i];
        let at = head.len() + k;
        assert(told.subrange(at, at + parts[i].len()) =~= tail.subrange(k, k + parts[i].len()));
    }
}

} // verus!
