//! What the evidence of a finished run promises.

use crate::app::review_inputs::{
    at_least_as_troubled, blocker_name, evidence_of, first_named, inputs_are, interventions_are,
    interview_path, interview_paths, is_task, journal_of, key_paths, law_most_troubled_is_the_worst,
    lead_row, measured_at, most_troubled, names_lead, nodes_of_owners, owned_nodes, owner_of,
    ownerless_nodes, roster_names, stray_nodes, stray_owners, subject_at, task_is, top_rung,
    unowned_nodes, RawReview, ReviewInputs, TaskRows,
};
use crate::json::{as_flag, as_text, as_unsigned, member, Json};
use crate::laws::places::{filtered_places, rising};
use crate::model::{
    InterventionEvidence, MemberEvidence, MemberIdentity, NodeEvidence, RunMemberRecord,
    RunNodeRecord, TaskEvidence, WatchdogJournalEntry,
};
use crate::ordered::{lemma_sorted_distinct, sorted_distinct};
use crate::text::{has_text, opt_text, texts, trim};
use vstd::prelude::*;

verus! {

broadcast use crate::text::group_texts;

/// Whether the node at `k` is the last one at `path`.
pub open spec fn last_node_at(nodes: Seq<RunNodeRecord>, k: int, path: Seq<char>) -> bool {
    &&& 0 <= k < nodes.len()
    &&& nodes[k].instance_path@ == path
    &&& forall|j: int| k < j < nodes.len() ==> (#[trigger] nodes[j]).instance_path@ != path
}

/// Whether the measurement at `k` is the last one at `path`.
pub open spec fn last_measured_at(evidence: Seq<NodeEvidence>, k: int, path: Seq<char>) -> bool {
    &&& 0 <= k < evidence.len()
    &&& evidence[k].path@ == path
    &&& forall|j: int| k < j < evidence.len() ==> (#[trigger] evidence[j]).path@ != path
}

proof fn lemma_subject(nodes: Seq<RunNodeRecord>, path: Seq<char>)
    ensures
        match subject_at(nodes, path) {
            Some(subject) => exists|k: int| #[trigger]
                last_node_at(nodes, k, path) && subject == (if trim(nodes[k].subject@).len() == 0 {
                    nodes[k].label
                } else {
                    nodes[k].subject
                }),
            None => forall|k: int| 0 <= k < nodes.len() ==> (#[trigger] nodes[k]).instance_path@ != path,
        },
    decreases nodes.len(),
{
    if nodes.len() > 0 {
        let n = nodes.len() - 1;
        if nodes[n].instance_path@ == path {
            assert(last_node_at(nodes, n, path));
        } else {
            let init = nodes.drop_last();
            lemma_subject(init, path);
            assert(forall|k: int| 0 <= k < n ==> init[k] == #[trigger] nodes[k]);
            if subject_at(init, path) is Some {
                let k = choose|k: int| #[trigger]
                    last_node_at(init, k, path) && subject_at(init, path)->0 == (if trim(
                        init[k].subject@,
                    ).len() == 0 {
                        init[k].label
                    } else {
                        init[k].subject
                    });
                assert(last_node_at(nodes, k, path));
            }
        }
    }
}

proof fn lemma_measured(evidence: Seq<NodeEvidence>, path: Seq<char>)
    ensures
        match measured_at(evidence, path) {
            Some(m) => exists|k: int| #[trigger]
                last_measured_at(evidence, k, path) && m == evidence[k],
            None => forall|k: int| 0 <= k < evidence.len() ==> (#[trigger] evidence[k]).path@ != path,
        },
    decreases evidence.len(),
{
    if evidence.len() > 0 {
        let n = evidence.len() - 1;
        if evidence[n].path@ == path {
            assert(last_measured_at(evidence, n, path));
        } else {
            let init = evidence.drop_last();
            lemma_measured(init, path);
            assert(forall|k: int| 0 <= k < n ==> init[k] == #[trigger] evidence[k]);
            if measured_at(init, path) is Some {
                let k = choose|k: int| #[trigger]
                    last_measured_at(init, k, path) && measured_at(init, path)->0 == init[k];
                assert(last_measured_at(evidence, k, path));
            }
        }
    }
}

/// A task is told as its node's row has it: its path, its status, whether it emerged, what
/// holds its attention, who owns it unless nobody does, its key unless it emerged, and when
/// it was seen first and changed last.
pub proof fn law_a_task_is_told_as_its_row_has_it(
    task: TaskEvidence,
    node: RunNodeRecord,
    rows: TaskRows,
)
    requires
        task_is(task, node, rows),
    ensures
        task.path == node.instance_path,
        task.status == node.status,
        task.emergent == node.emergent,
        task.attention == node.attention,
        node.emergent ==> task.node_key is None,
        !node.emergent ==> task.node_key == Some(node.node_key),
        trim(node.owner@).len() == 0 ==> task.owner is None,
        trim(node.owner@).len() > 0 ==> task.owner == Some(node.owner),
        task.owner_changes@.len() == 0,
        node.started_at_unix_ms is Some ==> Some(task.first_seen_at_unix_ms)
            == node.started_at_unix_ms,
        node.started_at_unix_ms is None ==> task.first_seen_at_unix_ms == 0,
        node.ended_at_unix_ms is Some ==> Some(task.last_change_at_unix_ms)
            == node.ended_at_unix_ms,
        node.ended_at_unix_ms is None ==> task.last_change_at_unix_ms
            == task.first_seen_at_unix_ms,
{
}

/// A task is called by the subject of the last row at its path, and by its label where that
/// subject is blank.
pub proof fn law_a_task_is_called_by_its_subject(
    task: TaskEvidence,
    node: RunNodeRecord,
    rows: TaskRows,
    k: int,
)
    requires
        task_is(task, node, rows),
        last_node_at(rows.nodes@, k, node.instance_path@),
    ensures
        trim(rows.nodes@[k].subject@).len() > 0 ==> task.subject == rows.nodes@[k].subject,
        trim(rows.nodes@[k].subject@).len() == 0 ==> task.subject == rows.nodes@[k].label,
{
    lemma_subject(rows.nodes@, node.instance_path@);
    let j = choose|j: int| #[trigger]
        last_node_at(rows.nodes@, j, node.instance_path@) && task.subject == (if trim(
            rows.nodes@[j].subject@,
        ).len() == 0 {
            rows.nodes@[j].label
        } else {
            rows.nodes@[j].subject
        });
    assert(j == k);
}

/// What was measured of a task is what was measured last at its path: how long it was in
/// progress, how long it lay idle, and every blocker in order, each by the subject of the
/// last row at its path and by the path where there is none. Nothing is measured of a task
/// that no measurement is about.
pub proof fn law_a_task_is_measured_at_its_own_path(
    task: TaskEvidence,
    node: RunNodeRecord,
    rows: TaskRows,
    k: int,
)
    requires
        task_is(task, node, rows),
    ensures
        last_measured_at(rows.evidence@, k, node.instance_path@) ==> {
            let m = rows.evidence@[k];
            &&& task.in_progress_ms == m.time_in_progress_ms
            &&& task.idle_while_in_progress_ms == m.idle_while_in_progress_ms
            &&& task.unresolved_blockers@.len() == m.blocked_by@.len()
            &&& forall|b: int, j: int|
                0 <= b < m.blocked_by@.len() && #[trigger] last_node_at(
                    rows.nodes@,
                    j,
                    (#[trigger] m.blocked_by@[b])@,
                ) ==> task.unresolved_blockers@[b] == (if trim(rows.nodes@[j].subject@).len() > 0 {
                    rows.nodes@[j].subject
                } else {
                    rows.nodes@[j].label
                })
            &&& forall|b: int|
                #![trigger m.blocked_by@[b]]
                0 <= b < m.blocked_by@.len() && (forall|j: int|
                    0 <= j < rows.nodes@.len() ==> (#[trigger] rows.nodes@[j]).instance_path@
                        != m.blocked_by@[b]@) ==> task.unresolved_blockers@[b]
                    == m.blocked_by@[b]
        },
        (forall|j: int|
            0 <= j < rows.evidence@.len() ==> (#[trigger] rows.evidence@[j]).path@
                != node.instance_path@) ==> task.in_progress_ms == 0
            && task.idle_while_in_progress_ms == 0 && task.unresolved_blockers@.len() == 0,
{
    let path = node.instance_path@;
    lemma_measured(rows.evidence@, path);
    if last_measured_at(rows.evidence@, k, path) {
        let m = rows.evidence@[k];
        assert(measured_at(rows.evidence@, path) == Some(m)) by {
            if measured_at(rows.evidence@, path) is Some {
                let j = choose|j: int| #[trigger]
                    last_measured_at(rows.evidence@, j, path) && measured_at(
                        rows.evidence@,
                        path,
                    )->0 == rows.evidence@[j];
                assert(j == k);
            }
        }
        let names = m.blocked_by@.map_values(|p: String| blocker_name(rows.nodes@, p));
        assert forall|b: int, j: int|
            0 <= b < m.blocked_by@.len() && #[trigger] last_node_at(
                rows.nodes@,
                j,
                (#[trigger] m.blocked_by@[b])@,
            ) implies task.unresolved_blockers@[b] == (if trim(rows.nodes@[j].subject@).len() > 0 {
            rows.nodes@[j].subject
        } else {
            rows.nodes@[j].label
        }) by {
            let at = m.blocked_by@[b]@;
            lemma_subject(rows.nodes@, at);
            assert(names[b] == blocker_name(rows.nodes@, m.blocked_by@[b]));
            assert(subject_at(rows.nodes@, at) is Some);
            let i = choose|i: int| #[trigger]
                last_node_at(rows.nodes@, i, at) && subject_at(rows.nodes@, at)->0 == (if trim(
                    rows.nodes@[i].subject@,
                ).len() == 0 {
                    rows.nodes@[i].label
                } else {
                    rows.nodes@[i].subject
                });
            assert(i == j);
        }
        assert forall|b: int|
            #![trigger m.blocked_by@[b]]
            0 <= b < m.blocked_by@.len() && (forall|j: int|
                0 <= j < rows.nodes@.len() ==> (#[trigger] rows.nodes@[j]).instance_path@
                    != m.blocked_by@[b]@) implies task.unresolved_blockers@[b] == m.blocked_by@[b] by {
            lemma_subject(rows.nodes@, m.blocked_by@[b]@);
            assert(names[b] == blocker_name(rows.nodes@, m.blocked_by@[b]));
        }
    }
}

/// Whether an intervention is told as a journal entry has it: when it was, how high it
/// climbed, what it was about, what it said, and the channel that carried it.
pub open spec fn told_as_journalled(
    told: InterventionEvidence,
    entry: WatchdogJournalEntry,
) -> bool {
    let payload = entry.payload;
    &&& told.at_unix_ms == entry.at_unix_ms
    &&& match member(payload, "rung"@) {
        Some(v) => match as_unsigned(v) {
            Some(n) => told.rung == (if n <= 255 {
                n as int
            } else {
                255
            }),
            None => told.rung == 0,
        },
        None => told.rung == 0,
    }
    &&& match member(payload, "class"@) {
        Some(v) => match as_text(v) {
            Some(t) => told.kind@ == t,
            None => told.kind@ == "unknown"@,
        },
        None => told.kind@ == "unknown"@,
    }
    &&& match member(payload, "text"@) {
        Some(v) => opt_text(told.text) == as_text(v),
        None => told.text is None,
    }
    &&& match member(payload, "delivery"@) {
        Some(Json::Str(word)) => if word@ == ""@ || word@ == "none"@ || word@ == "undelivered"@ {
            told.channel is None && !told.delivered
        } else {
            opt_text(told.channel) == Some(word@) && told.delivered
        },
        Some(delivery) => match member(delivery, "channel"@) {
            Some(v) => match as_text(v) {
                Some(word) => if word == ""@ || word == "none"@ || word == "undelivered"@ {
                    told.channel is None && !told.delivered
                } else {
                    &&& opt_text(told.channel) == Some(word)
                    &&& told.delivered <==> !(member(delivery, "delivered"@) is Some && as_flag(
                        member(delivery, "delivered"@)->0,
                    ) == Some(false))
                },
                None => told.channel is None && !told.delivered,
            },
            None => told.channel is None && !told.delivered,
        },
        None => told.channel is None && !told.delivered,
    }
}

/// Every intervention of a task comes from a journal entry whose path is the task's own,
/// and is told as that entry has it; every journal entry with that path is there, in order;
/// and no entry of another path adds anything.
pub proof fn law_interventions_come_from_the_tasks_own_entries(
    task: TaskEvidence,
    node: RunNodeRecord,
    rows: TaskRows,
) -> (places: Seq<int>)
    requires
        task_is(task, node, rows),
    ensures
        rising(places, rows.watchdog@.len()),
        places.len() == task.interventions@.len(),
        forall|j: int|
            0 <= j < places.len() ==> rows.watchdog@[#[trigger] places[j]].path@
                == node.instance_path@ && told_as_journalled(
                task.interventions@[j],
                rows.watchdog@[places[j]],
            ),
        forall|k: int|
            0 <= k < rows.watchdog@.len() && (#[trigger] rows.watchdog@[k]).path@
                == node.instance_path@ ==> places.contains(k),
{
    let own = node.instance_path@;
    let journal = journal_of(rows.watchdog@, node.instance_path@);
    let about = |e: WatchdogJournalEntry| e.path@ == node.instance_path@;
    assert(journal == rows.watchdog@.filter(about));
    let places = filtered_places(rows.watchdog@, about);
    assert forall|j: int| 0 <= j < places.len() implies rows.watchdog@[#[trigger] places[j]].path@
        == own && told_as_journalled(task.interventions@[j], rows.watchdog@[places[j]]) by {
        assert(interventions_are(task.interventions@, journal));
        assert(journal[j] == rows.watchdog@[places[j]]);
        let told = task.interventions@[j];
        assert(crate::app::review_inputs::intervention_is(
            told,
            journal[j].at_unix_ms,
            journal[j].payload,
        ));
    }
    places
}

// ---------------------------------------------------------------------------
// Who answers for a task
// ---------------------------------------------------------------------------

/// Whether a task of the run belongs to `name`.
pub open spec fn belongs_to(node: RunNodeRecord, name: Seq<char>) -> bool {
    node.instance_path@ != ".lead"@ && trim(node.owner@).len() > 0 && node.owner@ == name
}

/// Whether a task of the run belongs to nobody that the roster has.
pub open spec fn belongs_to_nobody(node: RunNodeRecord, members: Seq<RunMemberRecord>) -> bool {
    &&& node.instance_path@ != ".lead"@
    &&& trim(node.owner@).len() == 0 || forall|m: int|
        0 <= m < members.len() ==> (#[trigger] members[m]).name@ != node.owner@
}

proof fn owned_places(nodes: Seq<RunNodeRecord>, owner: Seq<char>) -> (places: Seq<int>)
    ensures
        rising(places, nodes.len()),
        places.len() == owned_nodes(nodes, owner).len(),
        forall|j: int|
            0 <= j < places.len() ==> belongs_to(nodes[#[trigger] places[j]], owner)
                && nodes[places[j]] == owned_nodes(nodes, owner)[j],
        forall|k: int|
            0 <= k < nodes.len() && belongs_to(#[trigger] nodes[k], owner) ==> places.contains(k),
{
    let held = |n: RunNodeRecord| is_task(n) && opt_text(owner_of(n)) == Some(owner);
    assert(owned_nodes(nodes, owner) == nodes.filter(held));
    let places = filtered_places(nodes, held);
    assert forall|k: int| 0 <= k < nodes.len() && belongs_to(#[trigger] nodes[k], owner) implies places.contains(
        k,
    ) by {
        assert(held(nodes[k]));
    }
    assert forall|j: int| 0 <= j < places.len() implies belongs_to(
        nodes[#[trigger] places[j]],
        owner,
    ) && nodes[places[j]] == owned_nodes(nodes, owner)[j] by {
        assert(held(nodes[places[j]]));
    }
    places
}

proof fn ownerless_places(nodes: Seq<RunNodeRecord>) -> (places: Seq<int>)
    ensures
        rising(places, nodes.len()),
        places.len() == ownerless_nodes(nodes).len(),
        forall|j: int|
            0 <= j < places.len() ==> nodes[#[trigger] places[j]] == ownerless_nodes(nodes)[j]
                && nodes[places[j]].instance_path@ != ".lead"@ && trim(
                nodes[places[j]].owner@,
            ).len() == 0,
        forall|k: int|
            0 <= k < nodes.len() && (#[trigger] nodes[k]).instance_path@ != ".lead"@ && trim(
                nodes[k].owner@,
            ).len() == 0 ==> places.contains(k),
{
    let free = |n: RunNodeRecord| is_task(n) && owner_of(n) is None;
    assert(ownerless_nodes(nodes) == nodes.filter(free));
    let places = filtered_places(nodes, free);
    assert forall|k: int|
        0 <= k < nodes.len() && (#[trigger] nodes[k]).instance_path@ != ".lead"@ && trim(
            nodes[k].owner@,
        ).len() == 0 implies places.contains(k) by {
        assert(free(nodes[k]));
    }
    assert forall|j: int| 0 <= j < places.len() implies nodes[#[trigger] places[j]]
        == ownerless_nodes(nodes)[j] && nodes[places[j]].instance_path@ != ".lead"@ && trim(
        nodes[places[j]].owner@,
    ).len() == 0 by {
        assert(free(nodes[places[j]]));
    }
    places
}

proof fn owners_places(nodes: Seq<RunNodeRecord>, owners: Seq<Seq<char>>) -> (places: Seq<int>)
    requires
        owners.no_duplicates(),
    ensures
        places.no_duplicates(),
        places.len() == nodes_of_owners(nodes, owners).len(),
        forall|j: int|
            0 <= j < places.len() ==> 0 <= #[trigger] places[j] < nodes.len() && nodes[places[j]]
                == nodes_of_owners(nodes, owners)[j] && belongs_to(
                nodes[places[j]],
                nodes[places[j]].owner@,
            ) && owners.contains(nodes[places[j]].owner@),
        forall|k: int|
            0 <= k < nodes.len() && belongs_to(#[trigger] nodes[k], nodes[k].owner@)
                && owners.contains(nodes[k].owner@) ==> places.contains(k),
    decreases owners.len(),
{
    if owners.len() == 0 {
        Seq::empty()
    } else {
        let init = owners.drop_last();
        let last = owners.last();
        assert(init.no_duplicates());
        let before = owners_places(nodes, init);
        let more = owned_places(nodes, last);
        let places = before + more;
        assert(!init.contains(last)) by {
            if init.contains(last) {
                let i = choose|i: int| 0 <= i < init.len() && init[i] == last;
                assert(owners[i] == owners[owners.len() - 1]);
            }
        }
        assert forall|j: int| 0 <= j < places.len() implies 0 <= #[trigger] places[j] < nodes.len()
            && nodes[places[j]] == nodes_of_owners(nodes, owners)[j] && belongs_to(
            nodes[places[j]],
            nodes[places[j]].owner@,
        ) && owners.contains(nodes[places[j]].owner@) by {
            if j < before.len() {
                assert(places[j] == before[j]);
                let i = choose|i: int|
                    0 <= i < init.len() && init[i] == nodes[before[j]].owner@;
                assert(owners[i] == nodes[before[j]].owner@);
            } else {
                assert(places[j] == more[j - before.len()]);
                assert(owners[owners.len() - 1] == last);
            }
        }
        assert forall|i: int, j: int| 0 <= i < j < places.len() implies places[i] != places[j] by {
            if j >= before.len() {
                let b = more[j - before.len()];
                assert(nodes[b].owner@ == last);
                if i < before.len() {
                    assert(init.contains(nodes[before[i]].owner@));
                } else {
                    assert(more[i - before.len()] < b);
                }
            }
        }
        assert(places.no_duplicates());
        assert forall|k: int|
            0 <= k < nodes.len() && belongs_to(#[trigger] nodes[k], nodes[k].owner@)
                && owners.contains(nodes[k].owner@) implies places.contains(k) by {
            let i = choose|i: int| 0 <= i < owners.len() && owners[i] == nodes[k].owner@;
            if i < init.len() {
                assert(init[i] == nodes[k].owner@);
                let j = choose|j: int| 0 <= j < before.len() && before[j] == k;
                assert(places[j] == k);
            } else {
                let j = choose|j: int| 0 <= j < more.len() && more[j] == k;
                assert(places[before.len() + j] == k);
            }
        }
        places
    }
}

/// A member of the roster answers for every task that it owns, in the order of the rows,
/// and for no other; of two members with one name the first answers for all of them.
pub proof fn law_a_member_answers_for_what_it_owns(
    inputs: ReviewInputs,
    raw: RawReview,
    m: int,
) -> (places: Seq<int>)
    requires
        inputs_are(inputs, raw),
        0 <= m < raw.members@.len(),
    ensures
        ({
            let nodes = raw.rows.nodes@;
            let name = raw.members@[m].name@;
            let record = inputs.evidence.members@[m];
            let first = forall|k: int| 0 <= k < m ==> (#[trigger] raw.members@[k]).name@ != name;
            &&& record.name == raw.members@[m].name
            &&& record.last_state == raw.members@[m].last_state
            &&& record.last_state_at_unix_ms == raw.members@[m].last_state_at_unix_ms
            &&& rising(places, nodes.len())
            &&& record.tasks@.len() == places.len()
            &&& forall|j: int|
                0 <= j < places.len() ==> {
                    &&& belongs_to(nodes[#[trigger] places[j]], name)
                    &&& record.tasks@[j].path == nodes[places[j]].instance_path
                    &&& record.tasks@[j].owner == Some(nodes[places[j]].owner)
                    &&& task_is(record.tasks@[j], nodes[places[j]], raw.rows)
                }
            &&& first ==> forall|k: int|
                0 <= k < nodes.len() && belongs_to(#[trigger] nodes[k], name) ==> places.contains(k)
            &&& !first ==> places.len() == 0
        }),
{
    let nodes = raw.rows.nodes@;
    let name = raw.members@[m].name@;
    let record = inputs.evidence.members@[m];
    assert(crate::app::review_inputs::member_record_is(raw, m, record));
    let names = roster_names(raw.members@);
    if first_named(raw.members@, m) {
        assert forall|k: int| 0 <= k < m implies (#[trigger] raw.members@[k]).name@ != name by {
            assert(names.take(m)[k] == raw.members@[k].name@);
        }
        let places = owned_places(nodes, name);
        assert forall|j: int| 0 <= j < places.len() implies {
            &&& belongs_to(nodes[#[trigger] places[j]], name)
            &&& record.tasks@[j].path == nodes[places[j]].instance_path
            &&& record.tasks@[j].owner == Some(nodes[places[j]].owner)
            &&& task_is(record.tasks@[j], nodes[places[j]], raw.rows)
        } by {
            assert(task_is(record.tasks@[j], owned_nodes(nodes, name)[j], raw.rows));
        }
        places
    } else {
        let k = choose|k: int| 0 <= k < names.take(m).len() && names.take(m)[k] == name;
        assert(raw.members@[k].name@ == name);
        Seq::empty()
    }
}

/// Every task that nobody of the roster owns is told as unowned, once, and no other is.
pub proof fn law_what_nobody_owns_is_told_as_such(inputs: ReviewInputs, raw: RawReview) -> (places:
    Seq<int>)
    requires
        inputs_are(inputs, raw),
    ensures
        ({
            let nodes = raw.rows.nodes@;
            let told = inputs.evidence.unowned_tasks@;
            &&& places.no_duplicates()
            &&& told.len() == places.len()
            &&& forall|j: int|
                0 <= j < places.len() ==> {
                    &&& 0 <= #[trigger] places[j] < nodes.len()
                    &&& belongs_to_nobody(nodes[places[j]], raw.members@)
                    &&& told[j].path == nodes[places[j]].instance_path
                    &&& task_is(told[j], nodes[places[j]], raw.rows)
                }
            &&& forall|k: int|
                0 <= k < nodes.len() && belongs_to_nobody(#[trigger] nodes[k], raw.members@)
                    ==> places.contains(k)
        }),
{
    let nodes = raw.rows.nodes@;
    let told = inputs.evidence.unowned_tasks@;
    let roster = roster_names(raw.members@);
    let owners = stray_owners(nodes, roster);
    let free = ownerless_places(nodes);
    assert(owners.no_duplicates()) by {
        lemma_sorted_distinct(
            stray_nodes(nodes, roster).map_values(|n: RunNodeRecord| n.owner@),
        );
        assert forall|i: int, j: int| 0 <= i < j < owners.len() implies owners[i] != owners[j] by {
            assert(crate::ordered::text_lt(owners[i], owners[j]));
            crate::ordered::lemma_text_lt_irreflexive(owners[i]);
        }
    }
    lemma_stray_owners(nodes, raw.members@);
    let stray = owners_places(nodes, owners);
    let places = free + stray;
    let all = unowned_nodes(nodes, roster);
    assert forall|j: int| 0 <= j < places.len() implies {
        &&& 0 <= #[trigger] places[j] < nodes.len()
        &&& belongs_to_nobody(nodes[places[j]], raw.members@)
        &&& told[j].path == nodes[places[j]].instance_path
        &&& task_is(told[j], nodes[places[j]], raw.rows)
    } by {
        assert(task_is(told[j], all[j], raw.rows));
        if j < free.len() {
            assert(places[j] == free[j]);
        } else {
            assert(places[j] == stray[j - free.len()]);
            assert(owners.contains(nodes[places[j]].owner@));
        }
    }
    assert forall|i: int, j: int| 0 <= i < j < places.len() implies places[i] != places[j] by {
        if j >= free.len() {
            let b = stray[j - free.len()];
            assert(trim(nodes[b].owner@).len() > 0);
            if i < free.len() {
                assert(trim(nodes[free[i]].owner@).len() == 0);
            }
        }
    }
    assert forall|k: int|
        0 <= k < nodes.len() && belongs_to_nobody(#[trigger] nodes[k], raw.members@) implies places.contains(
        k,
    ) by {
        if trim(nodes[k].owner@).len() == 0 {
            let j = choose|j: int| 0 <= j < free.len() && free[j] == k;
            assert(places[j] == k);
        } else {
            assert(belongs_to(nodes[k], nodes[k].owner@));
            assert(owners.contains(nodes[k].owner@));
            let j = choose|j: int| 0 <= j < stray.len() && stray[j] == k;
            assert(places[free.len() + j] == k);
        }
    }
    places
}

proof fn lemma_stray_owners(nodes: Seq<RunNodeRecord>, members: Seq<RunMemberRecord>)
    ensures
        forall|k: int|
            0 <= k < nodes.len() && belongs_to(#[trigger] nodes[k], nodes[k].owner@) ==> (
            stray_owners(nodes, roster_names(members)).contains(nodes[k].owner@) <==> (forall|m: int|
                0 <= m < members.len() ==> (#[trigger] members[m]).name@ != nodes[k].owner@)),
{
    let roster = roster_names(members);
    let lost = stray_nodes(nodes, roster);
    let stray = |n: RunNodeRecord|
        is_task(n) && owner_of(n) is Some && !has_text(roster_names(members), owner_of(n)->0@);
    assert(stray_nodes(nodes, roster_names(members)) == nodes.filter(stray));
    let places = filtered_places(nodes, stray);
    let names = lost.map_values(|n: RunNodeRecord| n.owner@);
    lemma_sorted_distinct(names);
    assert forall|k: int|
        0 <= k < nodes.len() && belongs_to(#[trigger] nodes[k], nodes[k].owner@) implies (
    stray_owners(nodes, roster).contains(nodes[k].owner@) <==> (forall|m: int|
        0 <= m < members.len() ==> (#[trigger] members[m]).name@ != nodes[k].owner@)) by {
        let owner = nodes[k].owner@;
        assert(stray_owners(nodes, roster) == sorted_distinct(names));
        if stray_owners(nodes, roster).contains(owner) {
            assert(names.contains(owner));
            let j = choose|j: int| 0 <= j < names.len() && names[j] == owner;
            assert(stray(nodes[places[j]]));
            assert(lost[j].owner@ == owner);
            assert forall|m: int| 0 <= m < members.len() implies (#[trigger] members[m]).name@
                != owner by {
                assert(roster[m] == members[m].name@);
            }
        }
        if forall|m: int| 0 <= m < members.len() ==> (#[trigger] members[m]).name@ != owner {
            assert(!has_text(roster, owner)) by {
                if has_text(roster, owner) {
                    let m = choose|m: int| 0 <= m < roster.len() && #[trigger] roster[m] == owner;
                    assert(members[m].name@ == owner);
                }
            }
            assert(stray(nodes[k]));
            let j = choose|j: int| 0 <= j < places.len() && places[j] == k;
            assert(lost[j] == nodes[k]);
            assert(names[j] == owner);
        }
    }
}

// ---------------------------------------------------------------------------
// Who was in the team
// ---------------------------------------------------------------------------

/// Whether the node at `k` is the first one that stands for the lead.
pub open spec fn first_lead_node(nodes: Seq<RunNodeRecord>, k: int) -> bool {
    &&& 0 <= k < nodes.len()
    &&& nodes[k].instance_path@ == ".lead"@
    &&& forall|j: int| 0 <= j < k ==> (#[trigger] nodes[j]).instance_path@ != ".lead"@
}

/// Whether a row of the roster is the lead's.
pub open spec fn leads(member: RunMemberRecord) -> bool {
    opt_text(member.pane_id) == Some("leader"@) || (member.backend_type@ == "in-process"@
        && member.agent_type@ == "team-lead"@)
}

/// Whether a recorded transcript is one of the files that are there.
pub open spec fn still_there(path: Option<String>, files: Seq<String>) -> bool {
    path is Some && trim(path->0@).len() > 0 && exists|f: int|
        0 <= f < files.len() && #[trigger] files[f]@ == trim(path->0@)
}

proof fn lemma_lead_row(nodes: Seq<RunNodeRecord>)
    ensures
        match lead_row(nodes) {
            Some(node) => exists|k: int| #[trigger] first_lead_node(nodes, k) && node == nodes[k],
            None => forall|k: int|
                0 <= k < nodes.len() ==> (#[trigger] nodes[k]).instance_path@ != ".lead"@,
        },
    decreases nodes.len(),
{
    if nodes.len() > 0 {
        if nodes[0].instance_path@ == ".lead"@ {
            assert(first_lead_node(nodes, 0));
        } else {
            let rest = nodes.skip(1);
            lemma_lead_row(rest);
            assert(forall|k: int| 1 <= k < nodes.len() ==> rest[k - 1] == #[trigger] nodes[k]);
            if lead_row(rest) is Some {
                let k = choose|k: int| #[trigger]
                    first_lead_node(rest, k) && lead_row(rest)->0 == rest[k];
                assert forall|j: int| 0 <= j < k + 1 implies (#[trigger] nodes[j]).instance_path@
                    != ".lead"@ by {
                    if j > 0 {
                        assert(rest[j - 1] == nodes[j]);
                    }
                }
                assert(first_lead_node(nodes, k + 1));
            }
        }
    }
}

proof fn lemma_the_lead_row(nodes: Seq<RunNodeRecord>, k: int)
    requires
        first_lead_node(nodes, k),
    ensures
        lead_row(nodes) == Some(nodes[k]),
{
    lemma_lead_row(nodes);
    assert(nodes[k].instance_path@ == ".lead"@);
    let j = choose|j: int| #[trigger] first_lead_node(nodes, j) && lead_row(nodes)->0 == nodes[j];
    if j < k {
        assert(nodes[j].instance_path@ == ".lead"@);
    }
}

proof fn lemma_still_there(path: Option<String>, files: Seq<String>)
    ensures
        crate::app::review_inputs::readable(path, texts(files)) == still_there(path, files),
{
    if still_there(path, files) {
        let f = choose|f: int| 0 <= f < files.len() && #[trigger] files[f]@ == trim(path->0@);
        assert(texts(files)[f] == trim(path->0@));
    }
    if crate::app::review_inputs::readable(path, texts(files)) {
        let f = choose|f: int|
            0 <= f < texts(files).len() && #[trigger] texts(files)[f] == trim(path->0@);
        assert(files[f]@ == trim(path->0@));
    }
}

/// A member of the roster is known by its own row. The lead is known by its node first,
/// then by its row, and its session by the run last. A transcript counts as readable only
/// where its file is there.
pub proof fn law_a_member_is_known_by_its_row(inputs: ReviewInputs, raw: RawReview, m: int, k: int)
    requires
        inputs_are(inputs, raw),
        0 <= m < raw.members@.len(),
    ensures
        ({
            let who = inputs.identities@[m];
            let row = raw.members@[m];
            let nodes = raw.rows.nodes@;
            &&& who.name == row.name
            &&& who.model == row.model
            &&& who.backend_type == row.backend_type
            &&& who.is_lead == leads(row)
            &&& who.transcript_readable == still_there(who.transcript_path, raw.readable_files@)
            &&& !leads(row) ==> who.session_id == row.session_id && who.transcript_path
                == row.transcript_path && who.cwd == row.cwd
            &&& leads(row) && first_lead_node(nodes, k) ==> {
                let node = nodes[k];
                &&& node.agent_session_id is Some ==> who.session_id == node.agent_session_id
                &&& node.agent_session_id is None && row.session_id is Some ==> who.session_id
                    == row.session_id
                &&& node.agent_session_id is None && row.session_id is None ==> who.session_id
                    == raw.run.lead_session_id
                &&& node.transcript_path is Some ==> who.transcript_path == node.transcript_path
                &&& node.transcript_path is None ==> who.transcript_path == row.transcript_path
                &&& node.cwd is Some ==> who.cwd == node.cwd
                &&& node.cwd is None ==> who.cwd == row.cwd
            }
            &&& leads(row) && (forall|j: int|
                0 <= j < nodes.len() ==> (#[trigger] nodes[j]).instance_path@ != ".lead"@) ==> {
                &&& row.session_id is Some ==> who.session_id == row.session_id
                &&& row.session_id is None ==> who.session_id == raw.run.lead_session_id
                &&& who.transcript_path == row.transcript_path
                &&& who.cwd == row.cwd
            }
        }),
{
    let who = inputs.identities@[m];
    assert(crate::app::review_inputs::identity_is(
        who,
        raw.members@[m],
        lead_row(raw.rows.nodes@),
        raw.run,
        texts(raw.readable_files@),
    ));
    lemma_still_there(who.transcript_path, raw.readable_files@);
    lemma_lead_row(raw.rows.nodes@);
    if first_lead_node(raw.rows.nodes@, k) {
        lemma_the_lead_row(raw.rows.nodes@, k);
    }
}

/// A lead that the roster never recorded is known by its node all the same, under a name
/// that nobody of the roster has: `lead`, or its path where a member is called that. A run
/// without such a node, or with a lead in its roster, has the members of its roster only.
pub proof fn law_a_lead_without_a_row_is_known_by_its_node(
    inputs: ReviewInputs,
    raw: RawReview,
    k: int,
)
    requires
        inputs_are(inputs, raw),
    ensures
        ({
            let n = raw.members@.len();
            let nodes = raw.rows.nodes@;
            let recorded = exists|m: int| 0 <= m < n && leads(#[trigger] raw.members@[m]);
            let called = exists|m: int|
                0 <= m < n && (#[trigger] raw.members@[m]).name@ == "lead"@;
            &&& recorded ==> inputs.identities@.len() == n && inputs.evidence.members@.len() == n
            &&& (forall|j: int|
                0 <= j < nodes.len() ==> (#[trigger] nodes[j]).instance_path@ != ".lead"@)
                ==> inputs.identities@.len() == n && inputs.evidence.members@.len() == n
            &&& !recorded && first_lead_node(nodes, k) ==> {
                let who = inputs.identities@[n as int];
                let record = inputs.evidence.members@[n as int];
                &&& inputs.identities@.len() == n + 1
                &&& inputs.evidence.members@.len() == n + 1
                &&& who.is_lead
                &&& who.name@ == (if called {
                    ".lead"@
                } else {
                    "lead"@
                })
                &&& who.model == nodes[k].model
                &&& who.backend_type@ == "in-process"@
                &&& who.cwd == nodes[k].cwd
                &&& who.transcript_path == nodes[k].transcript_path
                &&& who.transcript_readable == still_there(
                    nodes[k].transcript_path,
                    raw.readable_files@,
                )
                &&& nodes[k].agent_session_id is Some ==> who.session_id
                    == nodes[k].agent_session_id
                &&& nodes[k].agent_session_id is None ==> who.session_id
                    == raw.run.lead_session_id
                &&& record.name == who.name
                &&& record.tasks@.len() == 0
                &&& record.last_state is None
                &&& record.last_state_at_unix_ms is None
            }
        }),
{
    let nodes = raw.rows.nodes@;
    let n = raw.members@.len();
    lemma_lead_row(nodes);
    assert forall|m: int| 0 <= m < n implies leads(#[trigger] raw.members@[m])
        == crate::app::review_inputs::is_lead_row(raw.members@[m]) by {}
    let recorded = exists|m: int| 0 <= m < n && leads(#[trigger] raw.members@[m]);
    if recorded {
        let m = choose|m: int| 0 <= m < n && leads(#[trigger] raw.members@[m]);
        assert(crate::app::review_inputs::is_lead_row(raw.members@[m]));
        assert(names_lead(raw.members@));
    } else {
        assert(!names_lead(raw.members@)) by {
            if names_lead(raw.members@) {
                let m = choose|m: int|
                    0 <= m < n && crate::app::review_inputs::is_lead_row(
                        #[trigger] raw.members@[m],
                    );
                assert(leads(raw.members@[m]));
            }
        }
        if first_lead_node(nodes, k) {
            lemma_the_lead_row(nodes, k);
            lemma_still_there(nodes[k].transcript_path, raw.readable_files@);
            let names = roster_names(raw.members@);
            let called = exists|m: int|
                0 <= m < n && (#[trigger] raw.members@[m]).name@ == "lead"@;
            if called {
                let m = choose|m: int|
                    0 <= m < n && (#[trigger] raw.members@[m]).name@ == "lead"@;
                assert(names[m] == "lead"@);
                assert(has_text(names, "lead"@));
            } else if has_text(names, "lead"@) {
                let m = choose|m: int| 0 <= m < names.len() && #[trigger] names[m] == "lead"@;
                assert(raw.members@[m].name@ == "lead"@);
            }
        }
    }
}

// ---------------------------------------------------------------------------
// The run
// ---------------------------------------------------------------------------

/// A review reads the run itself as the store has it: its identity, its name, its version,
/// its times, its status and tier, its summary, and why it failed: the reason that was
/// recorded, else the kind, else the record as it is.
pub proof fn law_the_run_is_told_as_it_is_stored(inputs: ReviewInputs, raw: RawReview)
    requires
        inputs_are(inputs, raw),
    ensures
        inputs.status == raw.run.status,
        inputs.tier == raw.run.tier,
        inputs.version_id == raw.run.version,
        inputs.existing_cycle == raw.cycle,
        inputs.node_keys@ == raw.graph_node_keys@,
        inputs.evidence.run_id == raw.run.id,
        inputs.evidence.workflow_name == raw.run.workflow_name,
        inputs.evidence.status == raw.run.status,
        inputs.evidence.started_at_unix_ms == raw.run.started_at_unix_ms,
        inputs.evidence.ended_at_unix_ms == raw.run.ended_at_unix_ms,
        inputs.evidence.summary == raw.summary,
        raw.version is Some ==> Some(inputs.evidence.kvdag_version) == raw.version,
        raw.version is None ==> inputs.evidence.kvdag_version == 0,
        raw.run.failure is None ==> inputs.evidence.failure is None,
        raw.run.failure matches Some(f) ==> {
            let reason = member(f.value, "reason"@);
            let kind = member(f.value, "kind"@);
            &&& inputs.evidence.failure is Some
            &&& reason is Some && as_text(reason->0) is Some ==> inputs.evidence.failure->0@
                == as_text(reason->0)->0
            &&& !(reason is Some && as_text(reason->0) is Some) && kind is Some && as_text(kind->0)
                is Some ==> inputs.evidence.failure->0@ == as_text(kind->0)->0
            &&& !(reason is Some && as_text(reason->0) is Some) && !(kind is Some && as_text(
                kind->0,
            ) is Some) ==> inputs.evidence.failure->0@ == f.rendered@
        },
{
}

/// Whether the node at `k` is the last one with a key.
pub open spec fn last_with_key(nodes: Seq<RunNodeRecord>, k: int, key: Seq<char>) -> bool {
    &&& 0 <= k < nodes.len()
    &&& nodes[k].node_key@ == key
    &&& forall|j: int| k < j < nodes.len() ==> (#[trigger] nodes[j]).node_key@ != key
}

proof fn lemma_key_paths(nodes: Seq<RunNodeRecord>, key: Seq<char>)
    ensures
        key_paths(nodes).contains_key(key) ==> exists|k: int| #[trigger]
            last_with_key(nodes, k, key) && key_paths(nodes)[key] == nodes[k].instance_path,
        !key_paths(nodes).contains_key(key) ==> forall|k: int|
            0 <= k < nodes.len() ==> (#[trigger] nodes[k]).node_key@ != key,
    decreases nodes.len(),
{
    if nodes.len() > 0 {
        let n = nodes.len() - 1;
        let init = nodes.drop_last();
        lemma_key_paths(init, key);
        assert(forall|k: int| 0 <= k < n ==> init[k] == #[trigger] nodes[k]);
        if nodes[n].node_key@ == key {
            assert(last_with_key(nodes, n, key));
        } else if key_paths(init).contains_key(key) {
            let k = choose|k: int| #[trigger]
                last_with_key(init, k, key) && key_paths(init)[key] == init[k].instance_path;
            assert(last_with_key(nodes, k, key));
        }
    }
}

/// A finding's node is looked up by its key: the path of the last row with that key, and
/// nothing for a key that no row has.
pub proof fn law_a_key_leads_to_its_last_row(
    inputs: ReviewInputs,
    raw: RawReview,
    key: Seq<char>,
    k: int,
)
    requires
        inputs_are(inputs, raw),
    ensures
        last_with_key(raw.rows.nodes@, k, key) ==> inputs.run_nodes@.contains_key(key)
            && inputs.run_nodes@[key] == raw.rows.nodes@[k].instance_path,
        inputs.run_nodes@.contains_key(key) ==> exists|j: int| #[trigger]
            last_with_key(raw.rows.nodes@, j, key),
{
    lemma_key_paths(raw.rows.nodes@, key);
    if last_with_key(raw.rows.nodes@, k, key) {
        let j = choose|j: int| #[trigger]
            last_with_key(raw.rows.nodes@, j, key) && key_paths(raw.rows.nodes@)[key]
                == raw.rows.nodes@[j].instance_path;
        assert(j == k);
    }
}

// ---------------------------------------------------------------------------
// What an interview is recorded against
// ---------------------------------------------------------------------------

/// Whether the watchdog climbed at least this high over a task.
pub open spec fn climbed(task: TaskEvidence, rung: int) -> bool {
    rung <= 0 || exists|i: int|
        0 <= i < task.interventions@.len() && (#[trigger] task.interventions@[i]).rung >= rung
}

/// Whether a task was in at least as much trouble as another: whatever was climbed over the
/// other was climbed over it too, and where it was no higher it lay idle no shorter.
pub open spec fn no_less_trouble(a: TaskEvidence, b: TaskEvidence) -> bool {
    &&& forall|r: int| #[trigger] climbed(b, r) ==> climbed(a, r)
    &&& (exists|r: int| #[trigger] climbed(a, r) && !climbed(b, r))
        || a.idle_while_in_progress_ms >= b.idle_while_in_progress_ms
}

proof fn lemma_top_rung(interventions: Seq<InterventionEvidence>)
    ensures
        forall|i: int|
            0 <= i < interventions.len() ==> (#[trigger] interventions[i]).rung <= top_rung(
                interventions,
            ),
        top_rung(interventions) > 0 ==> exists|i: int|
            0 <= i < interventions.len() && (#[trigger] interventions[i]).rung == top_rung(
                interventions,
            ),
    decreases interventions.len(),
{
    if interventions.len() > 0 {
        let n = interventions.len() - 1;
        let init = interventions.drop_last();
        lemma_top_rung(init);
        assert(forall|i: int| 0 <= i < n ==> init[i] == #[trigger] interventions[i]);
        if top_rung(interventions) > 0 {
            if interventions[n].rung >= top_rung(init) {
                assert(interventions[n].rung == top_rung(interventions));
            } else {
                let i = choose|i: int|
                    0 <= i < init.len() && (#[trigger] init[i]).rung == top_rung(init);
                assert(interventions[i].rung == top_rung(interventions));
            }
        }
    }
}

proof fn lemma_climbed(task: TaskEvidence, rung: int)
    ensures
        climbed(task, rung) == (rung <= top_rung(task.interventions@)),
{
    lemma_top_rung(task.interventions@);
    let top = top_rung(task.interventions@);
    if rung > 0 && rung <= top {
        let i = choose|i: int|
            0 <= i < task.interventions@.len() && (#[trigger] task.interventions@[i]).rung == top;
        assert(task.interventions@[i].rung >= rung);
    }
}

proof fn lemma_no_less_trouble(a: TaskEvidence, b: TaskEvidence)
    requires
        at_least_as_troubled(a, b),
    ensures
        no_less_trouble(a, b),
{
    assert forall|r: int| #[trigger] climbed(b, r) implies climbed(a, r) by {
        lemma_climbed(a, r);
        lemma_climbed(b, r);
    }
    let x = top_rung(a.interventions@) as int;
    if x > top_rung(b.interventions@) {
        lemma_climbed(a, x);
        lemma_climbed(b, x);
        assert(climbed(a, x) && !climbed(b, x));
    }
}

proof fn lemma_interview_paths(
    identities: Seq<MemberIdentity>,
    evidence: Seq<MemberEvidence>,
    nodes: Seq<RunNodeRecord>,
    i: int,
)
    requires
        0 <= i < identities.len(),
        forall|j: int|
            i < j < identities.len() ==> (#[trigger] identities[j]).name@ != identities[i].name@,
    ensures
        ({
            let name = identities[i].name@;
            match interview_path(identities[i], evidence_of(evidence, name), nodes) {
                Some(path) => interview_paths(identities, evidence, nodes).contains_key(name)
                    && interview_paths(identities, evidence, nodes)[name] == path,
                None => true,
            }
        }),
    decreases identities.len(),
{
    let n = identities.len() - 1;
    if i < n {
        let init = identities.drop_last();
        assert(forall|j: int| 0 <= j < n ==> init[j] == #[trigger] identities[j]);
        lemma_interview_paths(init, evidence, nodes, i);
        assert(identities[n].name@ != identities[i].name@);
    }
}

/// An interview of a lead that has a node is recorded against that node. One of another
/// member is recorded against a task of its own that no other task of it was in more
/// trouble than; without tasks against the lead's node; and without that against the first
/// node of the run.
pub proof fn law_an_interview_is_recorded_where_the_trouble_was(
    inputs: ReviewInputs,
    raw: RawReview,
    i: int,
    e: int,
)
    requires
        inputs_are(inputs, raw),
        0 <= i < inputs.identities@.len(),
        forall|j: int|
            i < j < inputs.identities@.len() ==> (#[trigger] inputs.identities@[j]).name@
                != inputs.identities@[i].name@,
        0 <= e < inputs.evidence.members@.len(),
        inputs.evidence.members@[e].name@ == inputs.identities@[i].name@,
        forall|j: int|
            0 <= j < e ==> (#[trigger] inputs.evidence.members@[j]).name@
                != inputs.identities@[i].name@,
    ensures
        ({
            let who = inputs.identities@[i];
            let tasks = inputs.evidence.members@[e].tasks@;
            let nodes = raw.rows.nodes@;
            let paths = inputs.interrogation_paths@;
            let led = exists|k: int| #[trigger] first_lead_node(nodes, k);
            &&& who.is_lead && led ==> paths.contains_key(who.name@) && paths[who.name@]@
                == ".lead"@
            &&& !(who.is_lead && led) && tasks.len() > 0 ==> paths.contains_key(who.name@)
                && exists|t: int|
                0 <= t < tasks.len() && paths[who.name@] == (#[trigger] tasks[t]).path && forall|u: int|
                    0 <= u < tasks.len() ==> no_less_trouble(tasks[t], #[trigger] tasks[u])
            &&& !who.is_lead && tasks.len() == 0 && led ==> paths.contains_key(who.name@)
                && paths[who.name@]@ == ".lead"@
            &&& !led && tasks.len() == 0 && nodes.len() > 0 ==> paths.contains_key(who.name@)
                && paths[who.name@] == nodes[0].instance_path
        }),
{
    let who = inputs.identities@[i];
    let records = inputs.evidence.members@;
    let tasks = records[e].tasks@;
    let nodes = raw.rows.nodes@;
    lemma_interview_paths(inputs.identities@, records, nodes, i);
    lemma_evidence_of(records, who.name@, e);
    lemma_lead_row(nodes);
    if exists|k: int| #[trigger] first_lead_node(nodes, k) {
        let k = choose|k: int| #[trigger] first_lead_node(nodes, k);
        lemma_the_lead_row(nodes, k);
    }
    law_most_troubled_is_the_worst(tasks);
    if tasks.len() > 0 {
        let t = most_troubled(tasks)->0;
        assert forall|u: int| 0 <= u < tasks.len() implies no_less_trouble(
            tasks[t],
            #[trigger] tasks[u],
        ) by {
            lemma_no_less_trouble(tasks[t], tasks[u]);
        }
    }
}

proof fn lemma_evidence_of(records: Seq<MemberEvidence>, name: Seq<char>, e: int)
    requires
        0 <= e < records.len(),
        records[e].name@ == name,
        forall|j: int| 0 <= j < e ==> (#[trigger] records[j]).name@ != name,
    ensures
        evidence_of(records, name) == Some(records[e]),
    decreases e,
{
    if e > 0 {
        assert(records[0].name@ != name);
        let rest = records.skip(1);
        assert(rest[e - 1] == records[e]);
        assert forall|j: int| 0 <= j < e - 1 implies (#[trigger] rest[j]).name@ != name by {
            assert(rest[j] == records[j + 1]);
        }
        lemma_evidence_of(rest, name, e - 1);
    }
}

} // verus!
