//! What telling a node in words promises.

use crate::cli::render::{
    blocking, blocking_told, blocks, expansion_told, node_lines, review_lines, unless_empty,
    where_given, BlockingRunNode, ExpandSummary,
};
use crate::cli::render_lines::{
    delivery_failure_line, duplicate_name, human_message, items_at, node_growth_line,
    restored_from_line, transcript_line,
};
use crate::console::opt_line;
use crate::json::{at, text_at, text_or, unsigned_at, unsigned_or_0, Json};
use crate::laws::listings::stuck;
use crate::laws::places::{filtered_places, rising};
use crate::text::{after_part, decimal, has_part, opt_text, split_once, trim};
use vstd::prelude::*;

verus! {

/// The lines of all parts, one behind the other.
pub open spec fn together(parts: Seq<Seq<Seq<char>>>) -> Seq<Seq<char>>
    decreases parts.len(),
{
    if parts.len() == 0 {
        Seq::empty()
    } else {
        together(parts.drop_last()) + parts.last()
    }
}

proof fn lemma_told(parts: Seq<Seq<Seq<char>>>, i: int, j: int)
    requires
        0 <= i < parts.len(),
        0 <= j < parts[i].len(),
    ensures
        together(parts).contains(parts[i][j]),
        i == 0 ==> together(parts)[j] == parts[0][j],
    decreases parts.len(),
{
    let init = together(parts.drop_last());
    if i == parts.len() - 1 {
        assert(together(parts)[init.len() + j] == parts[i][j]);
        if i == 0 {
            assert(init.len() == 0);
        }
    } else {
        lemma_told(parts.drop_last(), i, j);
        let k = choose|k: int| 0 <= k < init.len() && init[k] == parts[i][j];
        assert(together(parts)[k] == parts[i][j]);
        if i == 0 {
            lemma_first_fits(parts.drop_last());
        }
    }
}

proof fn lemma_first_fits(parts: Seq<Seq<Seq<char>>>)
    requires
        parts.len() > 0,
    ensures
        together(parts).len() >= parts[0].len(),
    decreases parts.len(),
{
    if parts.len() > 1 {
        lemma_first_fits(parts.drop_last());
    }
}

proof fn lemma_fourteen(p: Seq<Seq<Seq<char>>>)
    requires
        p.len() == 14,
    ensures
        together(p) == p[0] + p[1] + p[2] + p[3] + p[4] + p[5] + p[6] + p[7] + p[8] + p[9] + p[10]
            + p[11] + p[12] + p[13],
{
    reveal_with_fuel(together, 15);
    let p13 = p.drop_last();
    let p12 = p13.drop_last();
    let p11 = p12.drop_last();
    let p10 = p11.drop_last();
    let p9 = p10.drop_last();
    let p8 = p9.drop_last();
    let p7 = p8.drop_last();
    let p6 = p7.drop_last();
    let p5 = p6.drop_last();
    let p4 = p5.drop_last();
    let p3 = p4.drop_last();
    let p2 = p3.drop_last();
    let p1 = p2.drop_last();
    assert(p1.drop_last().len() == 0);
    assert(together(p1) == Seq::<Seq<char>>::empty() + p[0]);
    assert(Seq::<Seq<char>>::empty() + p[0] =~= p[0]);
}

/// One part of what is told of a node.
spec fn part(response: Json, i: int) -> Seq<Seq<char>> {
    let node = at(at(response, "result"@), "node"@);
    let blocker = at(node, "blocker"@);
    let path = text_or(node, "path"@, ""@);
    let label = trim(text_or(node, "label"@, ""@));
    let count = unsigned_or_0(node, "watchdog_interventions"@);
    if i == 0 {
        seq!["path:    "@ + path]
    } else if i == 1 {
        if label == path {
            Seq::empty()
        } else {
            unless_empty("label:   "@, label)
        }
    } else if i == 2 {
        seq!["status:  "@ + text_or(node, "status"@, ""@)]
    } else if i == 3 {
        opt_line(where_given("attention: "@, text_at(node, "attention"@)))
    } else if i == 4 {
        seq!["model:   "@ + text_or(node, "model"@, ""@)]
    } else if i == 5 {
        seq!["effort:  "@ + text_or(node, "effort"@, ""@)]
    } else if i == 6 {
        opt_line(where_given("pane_id: "@, text_at(node, "pane_id"@)))
    } else if i == 7 {
        if count > 0 {
            seq!["interventions: "@ + decimal(count as nat)]
        } else {
            Seq::empty()
        }
    } else if i == 8 {
        opt_line(where_given("blocker: "@, text_at(blocker, "reason"@)))
    } else if i == 9 {
        opt_line(where_given("resume:  "@, text_at(blocker, "resume_when"@)))
    } else if i == 10 {
        opt_line(node_growth_line(node))
    } else if i == 11 {
        opt_line(delivery_failure_line(node))
    } else if i == 12 {
        seq![transcript_line(node)]
    } else {
        opt_line(restored_from_line(node))
    }
}

proof fn lemma_parts(response: Json)
    ensures
        node_lines(response) == together(Seq::new(14, |i: int| part(response, i))),
{
    let p = Seq::new(14, |i: int| part(response, i));
    lemma_fourteen(p);
}

proof fn lemma_line(response: Json, i: int, line: Seq<char>)
    requires
        0 <= i < 14,
        part(response, i).len() > 0,
        part(response, i)[0] == line,
    ensures
        node_lines(response).contains(line),
        i == 0 ==> node_lines(response)[0] == line,
{
    let p = Seq::new(14, |k: int| part(response, k));
    lemma_parts(response);
    assert(p[i] == part(response, i));
    lemma_told(p, i, 0);
}

/// A node is told with its path, its status, its model and its effort, and with whatever
/// else there is to tell of it.
pub proof fn law_a_node_is_told_with_all_of_it(response: Json)
    ensures
        ({
            let node = at(at(response, "result"@), "node"@);
            let blocker = at(node, "blocker"@);
            let path = text_or(node, "path"@, ""@);
            let label = trim(text_or(node, "label"@, ""@));
            let told = node_lines(response);
            &&& told[0] == "path:    "@ + path
            &&& label.len() > 0 && label != path ==> told.contains("label:   "@ + label)
            &&& told.contains("status:  "@ + text_or(node, "status"@, ""@))
            &&& told.contains("model:   "@ + text_or(node, "model"@, ""@))
            &&& told.contains("effort:  "@ + text_or(node, "effort"@, ""@))
            &&& text_at(node, "attention"@) matches Some(t) ==> told.contains("attention: "@ + t)
            &&& text_at(node, "pane_id"@) matches Some(t) ==> told.contains("pane_id: "@ + t)
            &&& unsigned_or_0(node, "watchdog_interventions"@) > 0 ==> told.contains(
                "interventions: "@ + decimal(
                    unsigned_or_0(node, "watchdog_interventions"@) as nat,
                ),
            )
            &&& text_at(blocker, "reason"@) matches Some(t) ==> told.contains("blocker: "@ + t)
            &&& text_at(blocker, "resume_when"@) matches Some(t) ==> told.contains("resume:  "@ + t)
            &&& text_at(node, "delivery_failure"@) matches Some(t) ==> told.contains(
                "delivery_failure: "@ + t,
            )
            &&& text_at(node, "transcript_path"@) is Some ==> told.contains("transcript: present"@)
            &&& text_at(node, "transcript_path"@) is None ==> told.contains("transcript: absent"@)
            &&& node_growth_line(node) matches Some(line) ==> told.contains(line)
            &&& restored_from_line(node) matches Some(line) ==> told.contains(line)
        }),
{
    let node = at(at(response, "result"@), "node"@);
    let blocker = at(node, "blocker"@);
    let path = text_or(node, "path"@, ""@);
    let label = trim(text_or(node, "label"@, ""@));
    let count = unsigned_or_0(node, "watchdog_interventions"@);
    lemma_line(response, 0, "path:    "@ + path);
    lemma_line(response, 2, "status:  "@ + text_or(node, "status"@, ""@));
    lemma_line(response, 4, "model:   "@ + text_or(node, "model"@, ""@));
    lemma_line(response, 5, "effort:  "@ + text_or(node, "effort"@, ""@));
    lemma_line(response, 12, transcript_line(node));
    if label.len() > 0 && label != path {
        lemma_line(response, 1, "label:   "@ + label);
    }
    if let Some(t) = text_at(node, "attention"@) {
        lemma_line(response, 3, "attention: "@ + t);
    }
    if let Some(t) = text_at(node, "pane_id"@) {
        lemma_line(response, 6, "pane_id: "@ + t);
    }
    if count > 0 {
        lemma_line(response, 7, "interventions: "@ + decimal(count as nat));
    }
    if let Some(t) = text_at(blocker, "reason"@) {
        lemma_line(response, 8, "blocker: "@ + t);
    }
    if let Some(t) = text_at(blocker, "resume_when"@) {
        lemma_line(response, 9, "resume:  "@ + t);
    }
    if let Some(line) = node_growth_line(node) {
        lemma_line(response, 10, line);
    }
    if let Some(t) = text_at(node, "delivery_failure"@) {
        lemma_line(response, 11, "delivery_failure: "@ + t);
    }
    if let Some(line) = restored_from_line(node) {
        lemma_line(response, 13, line);
    }
}

/// The nodes that hold a run up are told in order, and all of them: each with its path, its
/// status, and why it waits and until when where that is known. `places` says which they are.
pub proof fn law_what_holds_a_run_up_is_told(
    told: Seq<BlockingRunNode>,
    nodes: Seq<Json>,
) -> (places: Seq<int>)
    requires
        blocking_told(told, nodes),
    ensures
        rising(places, nodes.len()),
        places.len() == told.len(),
        forall|k: int| 0 <= k < places.len() ==> stuck(nodes[#[trigger] places[k]]),
        forall|i: int| 0 <= i < nodes.len() && stuck(#[trigger] nodes[i]) ==> places.contains(i),
        forall|k: int|
            0 <= k < told.len() ==> {
                let node = nodes[places[k]];
                let blocker = at(node, "blocker"@);
                &&& (#[trigger] told[k]).path@ == text_or(node, "path"@, ""@)
                &&& told[k].status@ == text_or(node, "status"@, ""@)
                &&& opt_text(told[k].reason) == text_at(blocker, "reason"@)
                &&& opt_text(told[k].resume_when) == text_at(blocker, "resume_when"@)
            },
{
    let keep = |n: Json| blocks(n);
    let places = filtered_places(nodes, keep);
    assert(blocking(nodes) == nodes.filter(keep));
    assert forall|k: int| 0 <= k < places.len() implies stuck(nodes[#[trigger] places[k]]) by {
        assert(keep(nodes.filter(keep)[k]));
    }
    assert forall|i: int| 0 <= i < nodes.len() && stuck(#[trigger] nodes[i]) implies places.contains(
        i,
    ) by {
        assert(keep(nodes[i]));
    }
    assert forall|k: int| 0 <= k < told.len() implies {
        let node = nodes[places[k]];
        let blocker = at(node, "blocker"@);
        &&& (#[trigger] told[k]).path@ == text_or(node, "path"@, ""@)
        &&& told[k].status@ == text_or(node, "status"@, ""@)
        &&& opt_text(told[k].reason) == text_at(blocker, "reason"@)
        &&& opt_text(told[k].resume_when) == text_at(blocker, "resume_when"@)
    } by {
        assert(nodes.filter(keep)[k] == nodes[places[k]]);
    }
    places
}

/// Every refused proposal of an expansion is told with its template, its reason and what was
/// said of it.
pub proof fn law_a_refused_proposal_is_told_in_full(r: ExpandSummary, response: Json, i: int)
    requires
        expansion_told(r, response),
        0 <= i < items_at(at(response, "result"@), "rejected"@).len(),
    ensures
        r.rejected@.len() == items_at(at(response, "result"@), "rejected"@).len(),
        ({
            let refused = items_at(at(response, "result"@), "rejected"@)[i];
            &&& r.rejected@[i].template@ == text_or(refused, "template"@, ""@)
            &&& r.rejected@[i].reason@ == text_or(refused, "reason"@, ""@)
            &&& r.rejected@[i].message@ == text_or(refused, "message"@, ""@)
        }),
{
    assert(crate::cli::render::rejection_is(
        r.rejected@[i],
        items_at(at(response, "result"@), "rejected"@)[i],
    ));
}

/// A review is told in as many lines as there is to tell of it: nothing is said of an end, of
/// a version or of interviews without a member where there is none.
pub proof fn law_nothing_is_told_of_what_is_not_there(review: Json)
    ensures
        ({
            let one = |given: bool|
                if given {
                    1int
                } else {
                    0int
                };
            review_lines(review).len() == 3 + one(
                unsigned_at(review, "started_at_unix_ms"@) is Some,
            ) + one(unsigned_at(review, "ended_at_unix_ms"@) is Some) + one(
                text_at(review, "resulting_version_id"@) is Some,
            ) + one(unsigned_or_0(review, "evidence_only_count"@) > 0)
        }),
{
}

/// A name that is taken is told in words, with how to add a version to the workflow that has
/// it; every other message stays as the server wrote it.
pub proof fn law_a_taken_name_is_told_in_words(code: Seq<char>, message: Seq<char>)
    ensures
        code != "workflow_store_error"@ ==> human_message(code, message) == message,
        duplicate_name(message) is None ==> human_message(code, message) == message,
        code == "workflow_store_error"@ ==> (duplicate_name(message) matches Some(name) ==> {
            &&& has_part(human_message(code, message), "a workflow named \""@ + name)
            &&& has_part(human_message(code, message), name)
        }),
        duplicate_name(message) matches Some(name) ==> has_part(message, "workflow_name"@)
            && !name.contains('\'') && exists|before: Seq<char>, rest: Seq<char>|
            message == #[trigger] ((before + "already contains '"@) + (name.push('\'') + rest)),
        !has_part(message, "workflow_name"@) ==> duplicate_name(message) is None,
{
    broadcast use {
        crate::laws::places::lemma_part_of_either,
        crate::laws::places::lemma_part_of_itself,
    };

    if let Some(name) = duplicate_name(message) {
        let part = "already contains '"@;
        crate::laws::words::law_what_follows_a_part_follows_it_at_once(message, part);
        let rest = after_part(message, part)->0;
        let before = choose|before: Seq<char>| message == #[trigger] (before + part) + rest;
        crate::laws::words::law_a_text_is_parted_at_the_first_place(rest, '\'');
        let tail = (split_once(rest, '\'')->0).1;
        assert(message == (before + part) + (name.push('\'') + tail));
    }
}

} // verus!
