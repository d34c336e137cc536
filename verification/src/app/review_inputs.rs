//! What a review cycle needs to know about a finished run, assembled from the
//! store's rows.
//!
//! Everything unmeasured stays empty rather than being guessed at: no row records
//! who took a task from whom, so a task's `owner_changes` is always empty.

use crate::json::{as_flag, as_unsigned, at, member, text_at, text_or, Json};
use crate::model::{
    InterventionEvidence, MemberEvidence, MemberIdentity, NodeEvidence, RecordedFailure,
    ReviewCycleStatus, RunEvidence, RunMemberRecord, RunNodeRecord, RunRecord, RunStatus,
    TaskEvidence, Tier, WatchdogJournalEntry, LEAD_INSTANCE_PATH, LEAD_PANE_SENTINEL,
};
use crate::ordered::{add_sorted, ascending, sorted_distinct, TextMap};
use crate::text::{
    contains_string, copy_opt, has_text, is_blank, opt_is, opt_str, opt_text, str_eq, texts, trim,
    trim_str,
};
use vstd::prelude::*;

verus! {

broadcast use {crate::text::group_texts, vstd::seq_lib::group_filter_ensures};

// ---------------------------------------------------------------------------
// One watchdog intervention
// ---------------------------------------------------------------------------

/// The channel a journal payload names: the delivery itself where it is a word,
/// its `channel` where it is an object.
pub open spec fn named_channel(payload: Json) -> Option<Seq<char>> {
    match member(payload, "delivery"@) {
        Some(Json::Str(word)) => Some(word@),
        Some(delivery) => text_at(delivery, "channel"@),
        None => None,
    }
}

/// The channel that carried an intervention. The words that say nothing carried it
/// are no channel.
pub open spec fn delivery_channel(payload: Json) -> Option<Seq<char>> {
    match named_channel(payload) {
        Some(c) => if c == ""@ || c == "none"@ || c == "undelivered"@ {
            None
        } else {
            Some(c)
        },
        None => None,
    }
}

/// The rung a journal payload names, at most 255.
pub open spec fn payload_rung(payload: Json) -> u8 {
    match as_unsigned(at(payload, "rung"@)) {
        Some(n) => if n > 255 {
            255u8
        } else {
            n as u8
        },
        None => 0u8,
    }
}

/// Whether a journal payload says that the intervention landed: it names the channel
/// that carried it, and does not take that back.
pub open spec fn payload_delivered(payload: Json) -> bool {
    delivery_channel(payload) is Some && as_flag(at(at(payload, "delivery"@), "delivered"@))
        != Some(false)
}

/// `e` is what the journal entry with this payload says.
pub open spec fn intervention_is(
    e: InterventionEvidence,
    at_unix_ms: u64,
    payload: Json,
) -> bool {
    &&& e.at_unix_ms == at_unix_ms
    &&& e.rung == payload_rung(payload)
    &&& e.kind@ == text_or(payload, "class"@, "unknown"@)
    &&& opt_text(e.channel) == delivery_channel(payload)
    &&& e.delivered == payload_delivered(payload)
    &&& opt_text(e.text) == text_at(payload, "text"@)
}

/// One `watchdog` journal payload. A delivery that cannot be read as a channel is
/// recorded as undelivered.
pub fn intervention_evidence(at_unix_ms: u64, payload: &Json) -> (r: InterventionEvidence)
    ensures
        intervention_is(r, at_unix_ms, *payload),
{
    let rung: u8 = match payload.u64_at("rung") {
        Some(n) => if n > 255 {
            255
        } else {
            n as u8
        },
        None => 0,
    };
    let kind = payload.text_or("class", "unknown");
    let named: Option<String> = match payload.get("delivery") {
        Some(delivery) => match delivery.as_str() {
            Some(word) => Some(word.to_owned()),
            None => delivery.text_at("channel"),
        },
        None => None,
    };
    assert(opt_text(named) == named_channel(*payload));
    let channel: Option<String> = match named {
        Some(c) => if str_eq(c.as_str(), "") || str_eq(c.as_str(), "none") || str_eq(
            c.as_str(),
            "undelivered",
        ) {
            None
        } else {
            Some(c)
        },
        None => None,
    };
    let own_word: Option<bool> = match payload.get("delivery") {
        Some(delivery) => match delivery.get("delivered") {
            Some(v) => v.as_bool(),
            None => None,
        },
        None => None,
    };
    let taken_back = match own_word {
        Some(b) => !b,
        None => false,
    };
    let delivered = channel.is_some() && !taken_back;
    InterventionEvidence {
        at_unix_ms,
        rung,
        kind,
        channel,
        delivered,
        text: payload.text_at("text"),
    }
}

/// An intervention is never reported as delivered unless its payload names the channel
/// that carried it.
pub proof fn law_no_delivery_is_invented(e: InterventionEvidence, at_unix_ms: u64, payload: Json)
    requires
        intervention_is(e, at_unix_ms, payload),
        e.delivered,
    ensures
        e.channel is Some,
{
}

// ---------------------------------------------------------------------------
// One task
// ---------------------------------------------------------------------------

/// What a node is called: its subject, or its label where the subject is blank.
pub open spec fn node_subject(node: RunNodeRecord) -> String {
    if trim(node.subject@).len() == 0 {
        node.label
    } else {
        node.subject
    }
}

/// What the node at `path` is called; of two nodes there, the later one.
pub open spec fn subject_at(nodes: Seq<RunNodeRecord>, path: Seq<char>) -> Option<String>
    decreases nodes.len(),
{
    if nodes.len() == 0 {
        None
    } else if nodes.last().instance_path@ == path {
        Some(node_subject(nodes.last()))
    } else {
        subject_at(nodes.drop_last(), path)
    }
}

/// What was measured of the node at `path`; of two measurements, the later one.
pub open spec fn measured_at(evidence: Seq<NodeEvidence>, path: Seq<char>) -> Option<NodeEvidence>
    decreases evidence.len(),
{
    if evidence.len() == 0 {
        None
    } else if evidence.last().path@ == path {
        Some(evidence.last())
    } else {
        measured_at(evidence.drop_last(), path)
    }
}

/// The journal entries about `path`, in order.
pub open spec fn journal_of(
    watchdog: Seq<WatchdogJournalEntry>,
    path: Seq<char>,
) -> Seq<WatchdogJournalEntry> {
    watchdog.filter(|e: WatchdogJournalEntry| e.path@ == path)
}

/// Who owns the task, unless nobody does.
pub open spec fn owner_of(node: RunNodeRecord) -> Option<String> {
    if trim(node.owner@).len() == 0 {
        None
    } else {
        Some(node.owner)
    }
}

/// What a blocker is called: the subject of the node at its path, or the path.
pub open spec fn blocker_name(nodes: Seq<RunNodeRecord>, path: String) -> String {
    match subject_at(nodes, path@) {
        Some(s) => s,
        None => path,
    }
}

/// The rows a task's evidence is read from.
pub struct TaskRows {
    pub nodes: Vec<RunNodeRecord>,
    pub watchdog: Vec<WatchdogJournalEntry>,
    pub evidence: Vec<NodeEvidence>,
}

/// Each intervention is what the journal entry at the same place says.
pub open spec fn interventions_are(
    found: Seq<InterventionEvidence>,
    journal: Seq<WatchdogJournalEntry>,
) -> bool {
    &&& found.len() == journal.len()
    &&& forall|i: int|
        0 <= i < found.len() ==> intervention_is(
            #[trigger] found[i],
            journal[i].at_unix_ms,
            journal[i].payload,
        )
}

/// `task` is what the rows say about `node`.
pub open spec fn task_is(task: TaskEvidence, node: RunNodeRecord, rows: TaskRows) -> bool {
    let measured = measured_at(rows.evidence@, node.instance_path@);
    &&& task.path == node.instance_path
    &&& task.node_key == (if node.emergent {
        None
    } else {
        Some(node.node_key)
    })
    &&& subject_at(rows.nodes@, node.instance_path@) == Some(task.subject)
    &&& task.status == node.status
    &&& task.emergent == node.emergent
    &&& task.attention == node.attention
    &&& task.owner == owner_of(node)
    &&& task.owner_changes@ == Seq::<String>::empty()
    &&& task.unresolved_blockers@ == (match measured {
        Some(m) => m.blocked_by@.map_values(|p: String| blocker_name(rows.nodes@, p)),
        None => Seq::empty(),
    })
    &&& task.first_seen_at_unix_ms == (match node.started_at_unix_ms {
        Some(t) => t,
        None => 0,
    })
    &&& task.last_change_at_unix_ms == (match node.ended_at_unix_ms {
        Some(t) => t,
        None => match node.started_at_unix_ms {
            Some(t) => t,
            None => 0,
        },
    })
    &&& task.in_progress_ms == (match measured {
        Some(m) => m.time_in_progress_ms,
        None => 0,
    })
    &&& task.idle_while_in_progress_ms == (match measured {
        Some(m) => m.idle_while_in_progress_ms,
        None => 0,
    })
    &&& interventions_are(
        task.interventions@,
        journal_of(rows.watchdog@, node.instance_path@),
    )
}

/// The name of the node at `path`; of two nodes there, the later one.
fn find_subject(nodes: &Vec<RunNodeRecord>, path: &str) -> (r: Option<String>)
    ensures
        r == subject_at(nodes@, path@),
{
    let mut i: usize = nodes.len();
    assert(nodes@.take(i as int) =~= nodes@);
    while i > 0
        invariant
            i <= nodes@.len(),
            subject_at(nodes@, path@) == subject_at(nodes@.take(i as int), path@),
        decreases i,
    {
        let node = &nodes[i - 1];
        assert(nodes@.take(i as int).last() == *node);
        assert(nodes@.take(i as int).drop_last() =~= nodes@.take(i - 1));
        if str_eq(node.instance_path.as_str(), path) {
            let subject = if is_blank(node.subject.as_str()) {
                node.label.clone()
            } else {
                node.subject.clone()
            };
            return Some(subject);
        }
        i = i - 1;
    }
    None
}

/// What was measured of the node at `path`.
fn find_measured<'a>(evidence: &'a Vec<NodeEvidence>, path: &str) -> (r: Option<&'a NodeEvidence>)
    ensures
        match r {
            Some(m) => measured_at(evidence@, path@) == Some(*m),
            None => measured_at(evidence@, path@) is None,
        },
{
    let mut i: usize = evidence.len();
    assert(evidence@.take(i as int) =~= evidence@);
    while i > 0
        invariant
            i <= evidence@.len(),
            measured_at(evidence@, path@) == measured_at(evidence@.take(i as int), path@),
        decreases i,
    {
        assert(evidence@.take(i as int).last() == evidence@[i - 1]);
        assert(evidence@.take(i as int).drop_last() =~= evidence@.take(i - 1));
        if str_eq(evidence[i - 1].path.as_str(), path) {
            return Some(&evidence[i - 1]);
        }
        i = i - 1;
    }
    None
}

/// The interventions the journal records at `path`, in order.
fn find_interventions(watchdog: &Vec<WatchdogJournalEntry>, path: &str) -> (r: Vec<
    InterventionEvidence,
>)
    ensures
        interventions_are(r@, journal_of(watchdog@, path@)),
{
    let mut out: Vec<InterventionEvidence> = Vec::new();
    let ghost about = |e: WatchdogJournalEntry| e.path@ == path@;
    let mut i: usize = 0;
    proof {
        reveal(Seq::filter);
        assert(watchdog@.take(0).filter(about) =~= Seq::<WatchdogJournalEntry>::empty());
    }
    while i < watchdog.len()
        invariant
            i <= watchdog@.len(),
            about == |e: WatchdogJournalEntry| e.path@ == path@,
            interventions_are(out@, watchdog@.take(i as int).filter(about)),
        decreases watchdog@.len() - i,
    {
        let ghost next = watchdog@.take(i as int + 1);
        proof {
            reveal(Seq::filter);
            assert(next.drop_last() =~= watchdog@.take(i as int));
            assert(next.last() == watchdog@[i as int]);
        }
        if str_eq(watchdog[i].path.as_str(), path) {
            out.push(intervention_evidence(watchdog[i].at_unix_ms, &watchdog[i].payload));
        }
        i = i + 1;
    }
    assert(watchdog@.take(watchdog@.len() as int) =~= watchdog@);
    out
}

/// What the rows say about one node.
fn task_evidence(rows: &TaskRows, index: usize) -> (r: TaskEvidence)
    requires
        index < rows.nodes@.len(),
    ensures
        task_is(r, rows.nodes@[index as int], *rows),
{
    let node = &rows.nodes[index];
    let path = node.instance_path.as_str();
    let measured = find_measured(&rows.evidence, path);
    let subject = match find_subject(&rows.nodes, path) {
        Some(s) => s,
        None => {
            proof {
                lemma_subject_found(rows.nodes@, index as int);
            }
            String::new()
        },
    };
    let mut blockers: Vec<String> = Vec::new();
    let mut in_progress_ms: u64 = 0;
    let mut idle_ms: u64 = 0;
    match measured {
        Some(m) => {
            in_progress_ms = m.time_in_progress_ms;
            idle_ms = m.idle_while_in_progress_ms;
            let ghost names = m.blocked_by@.map_values(
                |p: String| blocker_name(rows.nodes@, p),
            );
            let mut i: usize = 0;
            while i < m.blocked_by.len()
                invariant
                    i <= m.blocked_by@.len(),
                    names == m.blocked_by@.map_values(|p: String| blocker_name(rows.nodes@, p)),
                    blockers@ == names.take(i as int),
                decreases m.blocked_by@.len() - i,
            {
                let name = match find_subject(&rows.nodes, m.blocked_by[i].as_str()) {
                    Some(s) => s,
                    None => m.blocked_by[i].clone(),
                };
                blockers.push(name);
                assert(names.take(i as int + 1) =~= names.take(i as int).push(names[i as int]));
                i = i + 1;
            }
            assert(names.take(names.len() as int) =~= names);
        },
        None => {},
    }
    TaskEvidence {
        path: node.instance_path.clone(),
        node_key: if node.emergent {
            None
        } else {
            Some(node.node_key.clone())
        },
        subject,
        status: node.status,
        emergent: node.emergent,
        attention: node.attention,
        owner: if is_blank(node.owner.as_str()) {
            None
        } else {
            Some(node.owner.clone())
        },
        owner_changes: Vec::new(),
        unresolved_blockers: blockers,
        first_seen_at_unix_ms: match node.started_at_unix_ms {
            Some(t) => t,
            None => 0,
        },
        last_change_at_unix_ms: match node.ended_at_unix_ms {
            Some(t) => t,
            None => match node.started_at_unix_ms {
                Some(t) => t,
                None => 0,
            },
        },
        in_progress_ms,
        idle_while_in_progress_ms: idle_ms,
        interventions: find_interventions(&rows.watchdog, path),
    }
}

/// A node is found under its own path.
proof fn lemma_subject_found(nodes: Seq<RunNodeRecord>, i: int)
    requires
        0 <= i < nodes.len(),
    ensures
        subject_at(nodes, nodes[i].instance_path@) is Some,
    decreases nodes.len(),
{
    if nodes.last().instance_path@ != nodes[i].instance_path@ {
        assert(nodes.drop_last()[i] == nodes[i]);
        lemma_subject_found(nodes.drop_last(), i);
    }
}

// ---------------------------------------------------------------------------
// Whose task it is
// ---------------------------------------------------------------------------

/// Whether a node is one of the run's tasks. The lead's node stands for the lead
/// itself, not for a task of its own.
pub open spec fn is_task(node: RunNodeRecord) -> bool {
    node.instance_path@ != LEAD_INSTANCE_PATH@
}

/// The tasks that `owner` holds, in order.
pub open spec fn owned_nodes(nodes: Seq<RunNodeRecord>, owner: Seq<char>) -> Seq<RunNodeRecord> {
    nodes.filter(|n: RunNodeRecord| is_task(n) && opt_text(owner_of(n)) == Some(owner))
}

/// The tasks that nobody holds, in order.
pub open spec fn ownerless_nodes(nodes: Seq<RunNodeRecord>) -> Seq<RunNodeRecord> {
    nodes.filter(|n: RunNodeRecord| is_task(n) && owner_of(n) is None)
}

/// The tasks held by a name the roster does not have, in order.
pub open spec fn stray_nodes(nodes: Seq<RunNodeRecord>, roster: Seq<Seq<char>>) -> Seq<
    RunNodeRecord,
> {
    nodes.filter(
        |n: RunNodeRecord|
            is_task(n) && owner_of(n) is Some && !has_text(roster, owner_of(n)->0@),
    )
}

/// The names that hold tasks and are missing from the roster, in the order of names.
pub open spec fn stray_owners(nodes: Seq<RunNodeRecord>, roster: Seq<Seq<char>>) -> Seq<Seq<char>> {
    sorted_distinct(stray_nodes(nodes, roster).map_values(|n: RunNodeRecord| n.owner@))
}

/// The tasks of each of `owners`, one owner after the other.
pub open spec fn nodes_of_owners(
    nodes: Seq<RunNodeRecord>,
    owners: Seq<Seq<char>>,
) -> Seq<RunNodeRecord>
    decreases owners.len(),
{
    if owners.len() == 0 {
        Seq::empty()
    } else {
        nodes_of_owners(nodes, owners.drop_last()) + owned_nodes(nodes, owners.last())
    }
}

/// Every task that no member of the roster holds: first those nobody holds, then
/// those of names the roster never recorded.
pub open spec fn unowned_nodes(nodes: Seq<RunNodeRecord>, roster: Seq<Seq<char>>) -> Seq<
    RunNodeRecord,
> {
    ownerless_nodes(nodes) + nodes_of_owners(nodes, stray_owners(nodes, roster))
}

/// Each task is what the rows say about the node at the same place.
pub open spec fn tasks_are(
    tasks: Seq<TaskEvidence>,
    nodes: Seq<RunNodeRecord>,
    rows: TaskRows,
) -> bool {
    &&& tasks.len() == nodes.len()
    &&& forall|i: int| 0 <= i < tasks.len() ==> task_is(#[trigger] tasks[i], nodes[i], rows)
}

/// The tasks that `owner` holds; without an owner, those that nobody holds.
fn tasks_held_by(rows: &TaskRows, owner: Option<&str>) -> (r: Vec<TaskEvidence>)
    ensures
        match owner {
            Some(name) => tasks_are(r@, owned_nodes(rows.nodes@, name@), *rows),
            None => tasks_are(r@, ownerless_nodes(rows.nodes@), *rows),
        },
{
    let mut out: Vec<TaskEvidence> = Vec::new();
    let ghost wanted = match owner {
        Some(name) => |n: RunNodeRecord| is_task(n) && opt_text(owner_of(n)) == Some(name@),
        None => |n: RunNodeRecord| is_task(n) && owner_of(n) is None,
    };
    let mut i: usize = 0;
    proof {
        reveal(Seq::filter);
        assert(rows.nodes@.take(0).filter(wanted) =~= Seq::<RunNodeRecord>::empty());
    }
    while i < rows.nodes.len()
        invariant
            i <= rows.nodes@.len(),
            forall|n: RunNodeRecord| #[trigger]
                wanted(n) == (is_task(n) && opt_text(owner_of(n)) == opt_str(owner)),
            tasks_are(out@, rows.nodes@.take(i as int).filter(wanted), *rows),
        decreases rows.nodes@.len() - i,
    {
        let ghost next = rows.nodes@.take(i as int + 1);
        proof {
            reveal(Seq::filter);
            assert(next.drop_last() =~= rows.nodes@.take(i as int));
            assert(next.last() == rows.nodes@[i as int]);
        }
        let node = &rows.nodes[i];
        let keep = if str_eq(node.instance_path.as_str(), LEAD_INSTANCE_PATH) {
            false
        } else if is_blank(node.owner.as_str()) {
            owner.is_none()
        } else {
            match owner {
                Some(name) => str_eq(node.owner.as_str(), name),
                None => false,
            }
        };
        if keep {
            assert(wanted(*node));
            out.push(task_evidence(rows, i));
        } else {
            assert(!wanted(*node));
        }
        i = i + 1;
    }
    assert(rows.nodes@.take(rows.nodes@.len() as int) =~= rows.nodes@);
    out
}

/// The names that hold tasks and are missing from the roster.
fn find_stray_owners(nodes: &Vec<RunNodeRecord>, roster: &Vec<String>) -> (r: Vec<String>)
    ensures
        texts(r@) == stray_owners(nodes@, texts(roster@)),
{
    let mut out: Vec<String> = Vec::new();
    let ghost names = texts(roster@);
    let ghost stray = |n: RunNodeRecord|
        is_task(n) && owner_of(n) is Some && !has_text(names, owner_of(n)->0@);
    let ghost owner = |n: RunNodeRecord| n.owner@;
    let mut i: usize = 0;
    proof {
        reveal(Seq::filter);
        assert(nodes@.take(0).filter(stray).map_values(owner) =~= Seq::<Seq<char>>::empty());
        assert(texts(out@) =~= Seq::<Seq<char>>::empty());
    }
    while i < nodes.len()
        invariant
            i <= nodes@.len(),
            names == texts(roster@),
            stray == |n: RunNodeRecord|
                is_task(n) && owner_of(n) is Some && !has_text(names, owner_of(n)->0@),
            owner == |n: RunNodeRecord| n.owner@,
            texts(out@) == sorted_distinct(
                nodes@.take(i as int).filter(stray).map_values(owner),
            ),
            ascending(texts(out@)),
        decreases nodes@.len() - i,
    {
        let ghost before = nodes@.take(i as int).filter(stray);
        let ghost next = nodes@.take(i as int + 1);
        proof {
            reveal(Seq::filter);
            assert(next.drop_last() =~= nodes@.take(i as int));
            assert(next.last() == nodes@[i as int]);
        }
        let node = &nodes[i];
        if !str_eq(node.instance_path.as_str(), LEAD_INSTANCE_PATH) && !is_blank(
            node.owner.as_str(),
        ) && !contains_string(roster.as_slice(), node.owner.as_str()) {
            add_sorted(&mut out, node.owner.as_str());
            proof {
                let after = before.push(*node).map_values(owner);
                assert(after.drop_last() =~= before.map_values(owner));
                assert(after.last() == node.owner@);
            }
        }
        i = i + 1;
    }
    assert(nodes@.take(nodes@.len() as int) =~= nodes@);
    out
}

/// Every task that no member of the roster holds.
fn unowned_tasks(rows: &TaskRows, roster: &Vec<String>) -> (r: Vec<TaskEvidence>)
    ensures
        tasks_are(r@, unowned_nodes(rows.nodes@, texts(roster@)), *rows),
{
    let mut out = tasks_held_by(rows, None);
    let owners = find_stray_owners(&rows.nodes, roster);
    let ghost first = ownerless_nodes(rows.nodes@);
    let ghost all = texts(owners@);
    let mut i: usize = 0;
    proof {
        assert(nodes_of_owners(rows.nodes@, all.take(0)) =~= Seq::<RunNodeRecord>::empty());
        assert(first + Seq::<RunNodeRecord>::empty() =~= first);
    }
    while i < owners.len()
        invariant
            i <= owners@.len(),
            all == texts(owners@),
            tasks_are(out@, first + nodes_of_owners(rows.nodes@, all.take(i as int)), *rows),
        decreases owners@.len() - i,
    {
        let mut more = tasks_held_by(rows, Some(owners[i].as_str()));
        let ghost so_far = first + nodes_of_owners(rows.nodes@, all.take(i as int));
        let ghost theirs = owned_nodes(rows.nodes@, owners@[i as int]@);
        let ghost a = out@;
        let ghost b = more@;
        out.append(&mut more);
        proof {
            assert(all.take(i as int + 1).drop_last() =~= all.take(i as int));
            assert(first + nodes_of_owners(rows.nodes@, all.take(i as int + 1)) =~= so_far
                + theirs);
            assert(out@ =~= a + b);
            assert forall|j: int| 0 <= j < out@.len() implies task_is(
                #[trigger] out@[j],
                (so_far + theirs)[j],
                *rows,
            ) by {
                if j < a.len() {
                    assert(task_is(a[j], so_far[j], *rows));
                } else {
                    assert(task_is(b[j - a.len()], theirs[j - a.len()], *rows));
                }
            }
        }
        i = i + 1;
    }
    assert(all.take(all.len() as int) =~= all);
    out
}

// ---------------------------------------------------------------------------
// Who was in the team
// ---------------------------------------------------------------------------

/// Whether a roster row is the team's lead: the pane sentinel first, then an
/// in-process team lead.
pub open spec fn is_lead_row(member: RunMemberRecord) -> bool {
    ||| opt_text(member.pane_id) == Some(LEAD_PANE_SENTINEL@)
    ||| member.backend_type@ == "in-process"@ && member.agent_type@ == "team-lead"@
}

pub fn member_is_lead(member: &RunMemberRecord) -> (r: bool)
    ensures
        r == is_lead_row(*member),
{
    opt_is(&member.pane_id, LEAD_PANE_SENTINEL) || (str_eq(
        member.backend_type.as_str(),
        "in-process",
    ) && str_eq(member.agent_type.as_str(), "team-lead"))
}

/// The first of two optional strings that is there.
pub open spec fn either(a: Option<String>, b: Option<String>) -> Option<String> {
    match a {
        Some(_) => a,
        None => b,
    }
}

fn first_of(a: &Option<String>, b: &Option<String>) -> (r: Option<String>)
    ensures
        r == either(*a, *b),
{
    match a {
        Some(s) => Some(s.clone()),
        None => copy_opt(b),
    }
}

/// The session, transcript and directory that a lead is known by. The lead's node tells
/// them first, since it outlives the roster; then the roster; and the run knows the
/// session last.
pub open spec fn lead_known_by(
    member: RunMemberRecord,
    lead_node: Option<RunNodeRecord>,
    run: RunRecord,
) -> (Option<String>, Option<String>, Option<String>) {
    match lead_node {
        Some(node) => (
            either(either(node.agent_session_id, member.session_id), run.lead_session_id),
            either(node.transcript_path, member.transcript_path),
            either(node.cwd, member.cwd),
        ),
        None => (
            either(member.session_id, run.lead_session_id),
            member.transcript_path,
            member.cwd,
        ),
    }
}

/// The session, transcript and directory that a member is known by.
pub open spec fn identity_of(
    member: RunMemberRecord,
    lead_node: Option<RunNodeRecord>,
    run: RunRecord,
) -> (Option<String>, Option<String>, Option<String>) {
    if is_lead_row(member) {
        lead_known_by(member, lead_node, run)
    } else {
        (member.session_id, member.transcript_path, member.cwd)
    }
}

/// The identity of a lead that the roster has as `member`.
pub fn lead_identity(
    member: &RunMemberRecord,
    lead_node: Option<&RunNodeRecord>,
    run: &RunRecord,
) -> (r: (Option<String>, Option<String>, Option<String>))
    ensures
        r == lead_known_by(
            *member,
            (match lead_node {
                Some(n) => Some(*n),
                None => None,
            }),
            *run,
        ),
{
    match lead_node {
        Some(node) => {
            let session = first_of(&node.agent_session_id, &member.session_id);
            (
                first_of(&session, &run.lead_session_id),
                first_of(&node.transcript_path, &member.transcript_path),
                first_of(&node.cwd, &member.cwd),
            )
        },
        None => (
            first_of(&member.session_id, &run.lead_session_id),
            copy_opt(&member.transcript_path),
            copy_opt(&member.cwd),
        ),
    }
}

/// Whether a recorded transcript is still there: `files` are the paths that name a
/// file, and a blank path names none.
pub open spec fn readable(path: Option<String>, files: Seq<Seq<char>>) -> bool {
    match path {
        Some(p) => trim(p@).len() > 0 && has_text(files, trim(p@)),
        None => false,
    }
}

pub fn transcript_is_readable(path: &Option<String>, files: &Vec<String>) -> (r: bool)
    ensures
        r == readable(*path, texts(files@)),
{
    match path {
        Some(p) => {
            let name = trim_str(p.as_str());
            !name.as_str().is_empty() && contains_string(files.as_slice(), name.as_str())
        },
        None => false,
    }
}

/// `identity` is what the rows say about a member of the roster.
pub open spec fn identity_is(
    identity: MemberIdentity,
    member: RunMemberRecord,
    lead_node: Option<RunNodeRecord>,
    run: RunRecord,
    files: Seq<Seq<char>>,
) -> bool {
    let known = identity_of(member, lead_node, run);
    &&& identity.name == member.name
    &&& identity.is_lead == is_lead_row(member)
    &&& identity.model == member.model
    &&& identity.backend_type == member.backend_type
    &&& identity.session_id == known.0
    &&& identity.transcript_path == known.1
    &&& identity.cwd == known.2
    &&& identity.transcript_readable == readable(known.1, files)
}

fn member_identity(
    member: &RunMemberRecord,
    lead_node: Option<&RunNodeRecord>,
    run: &RunRecord,
    files: &Vec<String>,
) -> (r: MemberIdentity)
    ensures
        identity_is(
            r,
            *member,
            (match lead_node {
                Some(n) => Some(*n),
                None => None,
            }),
            *run,
            texts(files@),
        ),
{
    let is_lead = member_is_lead(member);
    let (session_id, transcript_path, cwd) = if is_lead {
        lead_identity(member, lead_node, run)
    } else {
        (
            copy_opt(&member.session_id),
            copy_opt(&member.transcript_path),
            copy_opt(&member.cwd),
        )
    };
    let transcript_readable = transcript_is_readable(&transcript_path, files);
    MemberIdentity {
        name: member.name.clone(),
        is_lead,
        model: member.model.clone(),
        backend_type: member.backend_type.clone(),
        cwd,
        session_id,
        transcript_readable,
        transcript_path,
    }
}

/// The name a lead takes that the roster never recorded.
pub const FALLBACK_LEAD_NAME: &'static str = "lead";

/// The lead of a run whose roster names none, as its node describes it.
pub open spec fn fallback_identity_is(
    identity: MemberIdentity,
    node: RunNodeRecord,
    run: RunRecord,
    roster: Seq<Seq<char>>,
    files: Seq<Seq<char>>,
) -> bool {
    &&& identity.name@ == (if has_text(roster, FALLBACK_LEAD_NAME@) {
        LEAD_INSTANCE_PATH@
    } else {
        FALLBACK_LEAD_NAME@
    })
    &&& identity.is_lead
    &&& identity.model == node.model
    &&& identity.backend_type@ == "in-process"@
    &&& identity.session_id == either(node.agent_session_id, run.lead_session_id)
    &&& identity.transcript_path == node.transcript_path
    &&& identity.cwd == node.cwd
    &&& identity.transcript_readable == readable(node.transcript_path, files)
}

fn fallback_identity(
    node: &RunNodeRecord,
    run: &RunRecord,
    roster: &Vec<String>,
    files: &Vec<String>,
) -> (r: MemberIdentity)
    ensures
        fallback_identity_is(r, *node, *run, texts(roster@), texts(files@)),
{
    let name = if contains_string(roster.as_slice(), FALLBACK_LEAD_NAME) {
        LEAD_INSTANCE_PATH.to_owned()
    } else {
        FALLBACK_LEAD_NAME.to_owned()
    };
    MemberIdentity {
        name,
        is_lead: true,
        model: node.model.clone(),
        backend_type: "in-process".to_owned(),
        cwd: copy_opt(&node.cwd),
        session_id: first_of(&node.agent_session_id, &run.lead_session_id),
        transcript_readable: transcript_is_readable(&node.transcript_path, files),
        transcript_path: copy_opt(&node.transcript_path),
    }
}

// ---------------------------------------------------------------------------
// The run's failure, as one sentence
// ---------------------------------------------------------------------------

/// The recorded reason; without one the recorded kind; without either the record.
pub open spec fn failure_text(failure: RecordedFailure) -> Seq<char> {
    match text_at(failure.value, "reason"@) {
        Some(reason) => reason,
        None => match text_at(failure.value, "kind"@) {
            Some(kind) => kind,
            None => failure.rendered@,
        },
    }
}

pub fn failure_sentence(failure: &RecordedFailure) -> (r: String)
    ensures
        r@ == failure_text(*failure),
{
    match failure.value.text_at("reason") {
        Some(reason) => reason,
        None => match failure.value.text_at("kind") {
            Some(kind) => kind,
            None => failure.rendered.clone(),
        },
    }
}

// ---------------------------------------------------------------------------
// The node an interview is recorded against
// ---------------------------------------------------------------------------

/// The highest rung the watchdog climbed; 0 where it never stepped in.
pub open spec fn top_rung(interventions: Seq<InterventionEvidence>) -> u8
    decreases interventions.len(),
{
    if interventions.len() == 0 {
        0
    } else {
        let before = top_rung(interventions.drop_last());
        if interventions.last().rung >= before {
            interventions.last().rung
        } else {
            before
        }
    }
}

/// Whether `a` was in at least as much trouble as `b`: the higher rung first, then
/// the longer idle time.
pub open spec fn at_least_as_troubled(a: TaskEvidence, b: TaskEvidence) -> bool {
    let x = top_rung(a.interventions@);
    let y = top_rung(b.interventions@);
    x > y || (x == y && a.idle_while_in_progress_ms >= b.idle_while_in_progress_ms)
}

/// The place of the task in most trouble; of equals the last.
pub open spec fn most_troubled(tasks: Seq<TaskEvidence>) -> Option<int>
    decreases tasks.len(),
{
    if tasks.len() == 0 {
        None
    } else {
        match most_troubled(tasks.drop_last()) {
            Some(i) => if at_least_as_troubled(tasks.last(), tasks[i]) {
                Some(tasks.len() - 1)
            } else {
                Some(i)
            },
            None => Some(tasks.len() - 1),
        }
    }
}

/// No task was in more trouble than the one `most_troubled` picks, and there is one
/// wherever there is a task.
pub proof fn law_most_troubled_is_the_worst(tasks: Seq<TaskEvidence>)
    ensures
        match most_troubled(tasks) {
            Some(i) => 0 <= i < tasks.len() && forall|j: int|
                0 <= j < tasks.len() ==> at_least_as_troubled(tasks[i], #[trigger] tasks[j]),
            None => tasks.len() == 0,
        },
    decreases tasks.len(),
{
    if tasks.len() > 0 {
        let init = tasks.drop_last();
        law_most_troubled_is_the_worst(init);
        if init.len() > 0 {
            assert forall|j: int| 0 <= j < tasks.len() implies at_least_as_troubled(
                tasks[most_troubled(tasks)->0],
                #[trigger] tasks[j],
            ) by {
                if j < init.len() {
                    assert(init[j] == tasks[j]);
                }
            }
        }
    }
}

fn highest_rung(interventions: &Vec<InterventionEvidence>) -> (r: u8)
    ensures
        r == top_rung(interventions@),
{
    let mut best: u8 = 0;
    let mut i: usize = 0;
    while i < interventions.len()
        invariant
            i <= interventions@.len(),
            best == top_rung(interventions@.take(i as int)),
        decreases interventions@.len() - i,
    {
        let ghost next = interventions@.take(i as int + 1);
        assert(next.drop_last() =~= interventions@.take(i as int));
        if interventions[i].rung >= best {
            best = interventions[i].rung;
        }
        i = i + 1;
    }
    assert(interventions@.take(interventions@.len() as int) =~= interventions@);
    best
}

fn find_most_troubled(tasks: &Vec<TaskEvidence>) -> (r: Option<usize>)
    ensures
        match r {
            Some(i) => i < tasks@.len() && most_troubled(tasks@) == Some(i as int),
            None => most_troubled(tasks@) is None,
        },
{
    let mut best: Option<usize> = None;
    let mut i: usize = 0;
    while i < tasks.len()
        invariant
            i <= tasks@.len(),
            match best {
                Some(b) => b < i && most_troubled(tasks@.take(i as int)) == Some(b as int),
                None => most_troubled(tasks@.take(i as int)) is None,
            },
        decreases tasks@.len() - i,
    {
        let ghost next = tasks@.take(i as int + 1);
        assert(next.drop_last() =~= tasks@.take(i as int));
        best = match best {
            Some(b) => {
                let x = highest_rung(&tasks[i].interventions);
                let y = highest_rung(&tasks[b].interventions);
                if x > y || (x == y && tasks[i].idle_while_in_progress_ms
                    >= tasks[b].idle_while_in_progress_ms) {
                    Some(i)
                } else {
                    Some(b)
                }
            },
            None => Some(i),
        };
        i = i + 1;
    }
    assert(tasks@.take(tasks@.len() as int) =~= tasks@);
    best
}

/// The run's lead node: the first one at the lead's path.
pub open spec fn lead_row(nodes: Seq<RunNodeRecord>) -> Option<RunNodeRecord>
    decreases nodes.len(),
{
    if nodes.len() == 0 {
        None
    } else if !is_task(nodes[0]) {
        Some(nodes[0])
    } else {
        lead_row(nodes.skip(1))
    }
}

/// Which node an interview with this member is recorded against. The lead's is the
/// lead's node. Another member's is its task in most trouble, without tasks the
/// lead's node, and without that the run's first node.
pub open spec fn interview_path(
    identity: MemberIdentity,
    evidence: Option<MemberEvidence>,
    nodes: Seq<RunNodeRecord>,
) -> Option<String> {
    let lead = match lead_row(nodes) {
        Some(node) => Some(node.instance_path),
        None => None,
    };
    let owned = match evidence {
        Some(e) => match most_troubled(e.tasks@) {
            Some(i) => Some(e.tasks@[i].path),
            None => None,
        },
        None => None,
    };
    if identity.is_lead && lead is Some {
        lead
    } else if owned is Some {
        owned
    } else if lead is Some {
        lead
    } else if nodes.len() > 0 {
        Some(nodes[0].instance_path)
    } else {
        None
    }
}

pub fn interrogation_path_for(
    identity: &MemberIdentity,
    evidence: Option<&MemberEvidence>,
    lead_path: &Option<String>,
    nodes: &Vec<RunNodeRecord>,
) -> (r: Option<String>)
    requires
        *lead_path == (match lead_row(nodes@) {
            Some(node) => Some(node.instance_path),
            None => None,
        }),
    ensures
        r == interview_path(
            *identity,
            (match evidence {
                Some(e) => Some(*e),
                None => None,
            }),
            nodes@,
        ),
{
    if identity.is_lead {
        match lead_path {
            Some(path) => {
                return Some(path.clone());
            },
            None => {},
        }
    }
    match evidence {
        Some(e) => match find_most_troubled(&e.tasks) {
            Some(i) => {
                return Some(e.tasks[i].path.clone());
            },
            None => {},
        },
        None => {},
    }
    match lead_path {
        Some(path) => Some(path.clone()),
        None => if nodes.len() > 0 {
            Some(nodes[0].instance_path.clone())
        } else {
            None
        },
    }
}

// ---------------------------------------------------------------------------
// Everything together
// ---------------------------------------------------------------------------

/// The rows of one finished run. `readable_files` are the trimmed transcript paths
/// that name a file right now.
pub struct RawReview {
    pub run: RunRecord,
    pub rows: TaskRows,
    pub members: Vec<RunMemberRecord>,
    pub summary: Option<String>,
    pub cycle: Option<ReviewCycleStatus>,
    pub version: Option<u32>,
    pub graph_node_keys: Vec<String>,
    pub readable_files: Vec<String>,
}

/// What starting a review cycle needs.
pub struct ReviewInputs {
    pub status: RunStatus,
    pub tier: Tier,
    pub version_id: String,
    pub existing_cycle: Option<ReviewCycleStatus>,
    pub evidence: RunEvidence,
    pub identities: Vec<MemberIdentity>,
    pub node_keys: Vec<String>,
    pub run_nodes: TextMap<String>,
    pub interrogation_paths: TextMap<String>,
}

/// The names of the roster.
pub open spec fn roster_names(members: Seq<RunMemberRecord>) -> Seq<Seq<char>> {
    members.map_values(|m: RunMemberRecord| m.name@)
}

/// The path of each node key; of two nodes with one key, the later one.
pub open spec fn key_paths(nodes: Seq<RunNodeRecord>) -> Map<Seq<char>, String>
    decreases nodes.len(),
{
    if nodes.len() == 0 {
        Map::empty()
    } else {
        key_paths(nodes.drop_last()).insert(nodes.last().node_key@, nodes.last().instance_path)
    }
}

/// The evidence recorded under `name`, the first of it.
pub open spec fn evidence_of(evidence: Seq<MemberEvidence>, name: Seq<char>) -> Option<
    MemberEvidence,
>
    decreases evidence.len(),
{
    if evidence.len() == 0 {
        None
    } else if evidence[0].name@ == name {
        Some(evidence[0])
    } else {
        evidence_of(evidence.skip(1), name)
    }
}

/// The node of each member's interview.
pub open spec fn interview_paths(
    identities: Seq<MemberIdentity>,
    evidence: Seq<MemberEvidence>,
    nodes: Seq<RunNodeRecord>,
) -> Map<Seq<char>, String>
    decreases identities.len(),
{
    if identities.len() == 0 {
        Map::empty()
    } else {
        let before = interview_paths(identities.drop_last(), evidence, nodes);
        let who = identities.last();
        match interview_path(who, evidence_of(evidence, who.name@), nodes) {
            Some(path) => before.insert(who.name@, path),
            None => before,
        }
    }
}

/// Whether the roster names a lead.
pub open spec fn names_lead(members: Seq<RunMemberRecord>) -> bool {
    exists|i: int| 0 <= i < members.len() && is_lead_row(#[trigger] members[i])
}

/// Whether no earlier member has the name of the `i`th.
pub open spec fn first_named(members: Seq<RunMemberRecord>, i: int) -> bool {
    !has_text(roster_names(members).take(i), members[i].name@)
}

/// The nodes whose tasks the `i`th member answers for: those it owns, unless an
/// earlier member has the same name.
pub open spec fn nodes_of_member(raw: RawReview, i: int) -> Seq<RunNodeRecord> {
    if first_named(raw.members@, i) {
        owned_nodes(raw.rows.nodes@, raw.members@[i].name@)
    } else {
        Seq::empty()
    }
}

/// The record of the `i`th member of the roster.
pub open spec fn member_record_is(raw: RawReview, i: int, record: MemberEvidence) -> bool {
    &&& record.name == raw.members@[i].name
    &&& record.last_state == raw.members@[i].last_state
    &&& record.last_state_at_unix_ms == raw.members@[i].last_state_at_unix_ms
    &&& tasks_are(record.tasks@, nodes_of_member(raw, i), raw.rows)
}

/// The identities and records of the roster, and of the lead where the roster
/// names none but the run has a lead node.
pub open spec fn team_is(
    raw: RawReview,
    identities: Seq<MemberIdentity>,
    records: Seq<MemberEvidence>,
) -> bool {
    let n = raw.members@.len();
    let lead = lead_row(raw.rows.nodes@);
    let fallback = !names_lead(raw.members@) && lead is Some;
    &&& identities.len() == records.len()
    &&& identities.len() == n + (if fallback {
        1int
    } else {
        0int
    })
    &&& forall|i: int|
        0 <= i < n ==> identity_is(
            #[trigger] identities[i],
            raw.members@[i],
            lead,
            raw.run,
            texts(raw.readable_files@),
        )
    &&& forall|i: int| 0 <= i < n ==> member_record_is(raw, i, #[trigger] records[i])
    &&& fallback ==> fallback_identity_is(
        identities[n as int],
        lead->0,
        raw.run,
        roster_names(raw.members@),
        texts(raw.readable_files@),
    ) && records[n as int].name == identities[n as int].name && records[n as int].tasks@.len() == 0
        && records[n as int].last_state is None && records[n as int].last_state_at_unix_ms is None
}

/// `inputs` is what the rows of the run say.
pub open spec fn inputs_are(inputs: ReviewInputs, raw: RawReview) -> bool {
    let e = inputs.evidence;
    &&& inputs.status == raw.run.status
    &&& inputs.tier == raw.run.tier
    &&& inputs.version_id == raw.run.version
    &&& inputs.existing_cycle == raw.cycle
    &&& inputs.node_keys@ == raw.graph_node_keys@
    &&& inputs.run_nodes.wf()
    &&& inputs.run_nodes@ == key_paths(raw.rows.nodes@)
    &&& inputs.interrogation_paths.wf()
    &&& inputs.interrogation_paths@ == interview_paths(
        inputs.identities@,
        e.members@,
        raw.rows.nodes@,
    )
    &&& team_is(raw, inputs.identities@, e.members@)
    &&& e.run_id == raw.run.id
    &&& e.workflow_name == raw.run.workflow_name
    &&& e.kvdag_version == (match raw.version {
        Some(v) => v,
        None => 0,
    })
    &&& e.status == raw.run.status
    &&& e.started_at_unix_ms == raw.run.started_at_unix_ms
    &&& e.ended_at_unix_ms == raw.run.ended_at_unix_ms
    &&& e.summary == raw.summary
    &&& opt_text(e.failure) == (match raw.run.failure {
        Some(f) => Some(failure_text(f)),
        None => None,
    })
    &&& tasks_are(
        e.unowned_tasks@,
        unowned_nodes(raw.rows.nodes@, roster_names(raw.members@)),
        raw.rows,
    )
}

fn find_lead(nodes: &Vec<RunNodeRecord>) -> (r: Option<&RunNodeRecord>)
    ensures
        match r {
            Some(n) => lead_row(nodes@) == Some(*n),
            None => lead_row(nodes@) is None,
        },
{
    let mut i: usize = 0;
    assert(nodes@.skip(0) =~= nodes@);
    while i < nodes.len()
        invariant
            i <= nodes@.len(),
            lead_row(nodes@) == lead_row(nodes@.skip(i as int)),
        decreases nodes@.len() - i,
    {
        assert(nodes@.skip(i as int)[0] == nodes@[i as int]);
        if str_eq(nodes[i].instance_path.as_str(), LEAD_INSTANCE_PATH) {
            return Some(&nodes[i]);
        }
        assert(nodes@.skip(i as int).skip(1) =~= nodes@.skip(i as int + 1));
        i = i + 1;
    }
    None
}

fn find_evidence<'a>(evidence: &'a Vec<MemberEvidence>, name: &str) -> (r: Option<
    &'a MemberEvidence,
>)
    ensures
        match r {
            Some(e) => evidence_of(evidence@, name@) == Some(*e),
            None => evidence_of(evidence@, name@) is None,
        },
{
    let mut i: usize = 0;
    assert(evidence@.skip(0) =~= evidence@);
    while i < evidence.len()
        invariant
            i <= evidence@.len(),
            evidence_of(evidence@, name@) == evidence_of(evidence@.skip(i as int), name@),
        decreases evidence@.len() - i,
    {
        assert(evidence@.skip(i as int)[0] == evidence@[i as int]);
        if str_eq(evidence[i].name.as_str(), name) {
            return Some(&evidence[i]);
        }
        assert(evidence@.skip(i as int).skip(1) =~= evidence@.skip(i as int + 1));
        i = i + 1;
    }
    None
}

fn paths_by_key(nodes: &Vec<RunNodeRecord>) -> (r: TextMap<String>)
    ensures
        r.wf(),
        r@ == key_paths(nodes@),
{
    let mut out: TextMap<String> = TextMap::new();
    let mut i: usize = 0;
    while i < nodes.len()
        invariant
            i <= nodes@.len(),
            out.wf(),
            out@ == key_paths(nodes@.take(i as int)),
        decreases nodes@.len() - i,
    {
        assert(nodes@.take(i as int + 1).drop_last() =~= nodes@.take(i as int));
        out.insert(nodes[i].node_key.clone(), nodes[i].instance_path.clone());
        i = i + 1;
    }
    assert(nodes@.take(nodes@.len() as int) =~= nodes@);
    out
}

fn paths_by_member(
    identities: &Vec<MemberIdentity>,
    evidence: &Vec<MemberEvidence>,
    nodes: &Vec<RunNodeRecord>,
) -> (r: TextMap<String>)
    ensures
        r.wf(),
        r@ == interview_paths(identities@, evidence@, nodes@),
{
    let lead_path: Option<String> = match find_lead(nodes) {
        Some(node) => Some(node.instance_path.clone()),
        None => None,
    };
    let mut out: TextMap<String> = TextMap::new();
    let mut i: usize = 0;
    while i < identities.len()
        invariant
            i <= identities@.len(),
            lead_path == (match lead_row(nodes@) {
                Some(node) => Some(node.instance_path),
                None => None,
            }),
            out.wf(),
            out@ == interview_paths(identities@.take(i as int), evidence@, nodes@),
        decreases identities@.len() - i,
    {
        assert(identities@.take(i as int + 1).drop_last() =~= identities@.take(i as int));
        let found = find_evidence(evidence, identities[i].name.as_str());
        match interrogation_path_for(&identities[i], found, &lead_path, nodes) {
            Some(path) => {
                out.insert(identities[i].name.clone(), path);
            },
            None => {},
        }
        i = i + 1;
    }
    assert(identities@.take(identities@.len() as int) =~= identities@);
    out
}

/// Turns the store's rows into what a review works from.
pub fn build_review_inputs(raw: RawReview) -> (r: ReviewInputs)
    ensures
        inputs_are(r, raw),
{
    let mut identities: Vec<MemberIdentity> = Vec::new();
    let mut records: Vec<MemberEvidence> = Vec::new();
    let mut roster: Vec<String> = Vec::new();
    let mut named_lead = false;
    let lead = find_lead(&raw.rows.nodes);
    let ghost lead_node = lead_row(raw.rows.nodes@);
    let ghost names = roster_names(raw.members@);
    let ghost files = texts(raw.readable_files@);
    let mut i: usize = 0;
    assert(texts(roster@) =~= names.take(0));
    while i < raw.members.len()
        invariant
            i <= raw.members@.len(),
            lead_node == lead_row(raw.rows.nodes@),
            match lead {
                Some(n) => lead_node == Some(*n),
                None => lead_node is None,
            },
            names == roster_names(raw.members@),
            files == texts(raw.readable_files@),
            texts(roster@) == names.take(i as int),
            named_lead == exists|j: int| 0 <= j < i && is_lead_row(#[trigger] raw.members@[j]),
            identities@.len() == i,
            records@.len() == i,
            forall|j: int|
                0 <= j < i ==> identity_is(
                    #[trigger] identities@[j],
                    raw.members@[j],
                    lead_node,
                    raw.run,
                    files,
                ),
            forall|j: int| 0 <= j < i ==> member_record_is(raw, j, #[trigger] records@[j]),
        decreases raw.members@.len() - i,
    {
        let member = &raw.members[i];
        let identity = member_identity(member, lead, &raw.run, &raw.readable_files);
        named_lead = named_lead || identity.is_lead;
        identities.push(identity);
        let tasks: Vec<TaskEvidence> = if contains_string(
            roster.as_slice(),
            member.name.as_str(),
        ) {
            Vec::new()
        } else {
            tasks_held_by(&raw.rows, Some(member.name.as_str()))
        };
        let record = MemberEvidence {
            name: member.name.clone(),
            tasks,
            last_state: copy_opt(&member.last_state),
            last_state_at_unix_ms: member.last_state_at_unix_ms,
        };
        assert(member_record_is(raw, i as int, record));
        records.push(record);
        roster.push(member.name.clone());
        assert(names.take(i as int + 1) =~= names.take(i as int).push(names[i as int]));
        i = i + 1;
    }
    assert(names.take(names.len() as int) =~= names);
    assert(named_lead == names_lead(raw.members@));
    if !named_lead {
        match lead {
            Some(node) => {
                let identity = fallback_identity(node, &raw.run, &roster, &raw.readable_files);
                let name = identity.name.clone();
                identities.push(identity);
                records.push(
                    MemberEvidence {
                        name,
                        tasks: Vec::new(),
                        last_state: None,
                        last_state_at_unix_ms: None,
                    },
                );
            },
            None => {},
        }
    }
    let unowned = unowned_tasks(&raw.rows, &roster);
    let interrogation_paths = paths_by_member(&identities, &records, &raw.rows.nodes);
    let run_nodes = paths_by_key(&raw.rows.nodes);
    let failure: Option<String> = match &raw.run.failure {
        Some(f) => Some(failure_sentence(f)),
        None => None,
    };
    ReviewInputs {
        status: raw.run.status,
        tier: raw.run.tier,
        version_id: raw.run.version.clone(),
        existing_cycle: raw.cycle,
        node_keys: raw.graph_node_keys,
        run_nodes,
        interrogation_paths,
        identities,
        evidence: RunEvidence {
            run_id: raw.run.id.clone(),
            workflow_name: raw.run.workflow_name.clone(),
            kvdag_version: match raw.version {
                Some(v) => v,
                None => 0,
            },
            status: raw.run.status,
            started_at_unix_ms: raw.run.started_at_unix_ms,
            ended_at_unix_ms: raw.run.ended_at_unix_ms,
            summary: raw.summary,
            failure,
            members: records,
            unowned_tasks: unowned,
        },
    }
}

impl ReviewInputs {
    /// The node an interview with `member` is recorded against.
    pub fn interrogation_path(&self, member: &str) -> (r: Option<String>)
        requires
            self.interrogation_paths.wf(),
        ensures
            match r {
                Some(path) => self.interrogation_paths@.contains_key(member@)
                    && self.interrogation_paths@[member@] == path,
                None => !self.interrogation_paths@.contains_key(member@),
            },
    {
        match self.interrogation_paths.get(member) {
            Some(path) => Some(path.clone()),
            None => None,
        }
    }
}

// ---------------------------------------------------------------------------
// Nothing is dropped
// ---------------------------------------------------------------------------

proof fn lemma_owners_cover(nodes: Seq<RunNodeRecord>, owners: Seq<Seq<char>>, i: int, k: int)
    requires
        0 <= i < nodes.len(),
        is_task(nodes[i]),
        0 <= k < owners.len(),
        opt_text(owner_of(nodes[i])) == Some(owners[k]),
    ensures
        nodes_of_owners(nodes, owners).contains(nodes[i]),
    decreases owners.len(),
{
    let before = nodes_of_owners(nodes, owners.drop_last());
    let last = owned_nodes(nodes, owners.last());
    if k == owners.len() - 1 {
        assert(last.contains(nodes[i]));
        let j = choose|j: int| 0 <= j < last.len() && last[j] == nodes[i];
        assert((before + last)[before.len() + j] == nodes[i]);
    } else {
        lemma_owners_cover(nodes, owners.drop_last(), i, k);
        let j = choose|j: int| 0 <= j < before.len() && before[j] == nodes[i];
        assert((before + last)[j] == nodes[i]);
    }
}

proof fn lemma_first_named(members: Seq<RunMemberRecord>, k: int) -> (first: int)
    requires
        0 <= k < members.len(),
    ensures
        0 <= first <= k,
        members[first].name@ == members[k].name@,
        first_named(members, first),
    decreases k,
{
    if first_named(members, k) {
        k
    } else {
        let names = roster_names(members).take(k);
        let j = choose|j: int| 0 <= j < names.len() && names[j] == members[k].name@;
        lemma_first_named(members, j)
    }
}

/// Every task of the run is in the picture: a member of the roster answers for it,
/// or it is reported as unowned.
pub proof fn law_no_task_is_dropped(raw: RawReview, i: int)
    requires
        0 <= i < raw.rows.nodes@.len(),
        is_task(raw.rows.nodes@[i]),
    ensures
        (exists|k: int|
            0 <= k < raw.members@.len() && #[trigger] nodes_of_member(raw, k).contains(
                raw.rows.nodes@[i],
            )) || unowned_nodes(raw.rows.nodes@, roster_names(raw.members@)).contains(
            raw.rows.nodes@[i],
        ),
{
    let nodes = raw.rows.nodes@;
    let node = nodes[i];
    let roster = roster_names(raw.members@);
    let free = ownerless_nodes(nodes);
    let stray = nodes_of_owners(nodes, stray_owners(nodes, roster));
    match owner_of(node) {
        None => {
            assert(free.contains(node));
            let j = choose|j: int| 0 <= j < free.len() && free[j] == node;
            assert((free + stray)[j] == node);
        },
        Some(owner) => {
            if has_text(roster, owner@) {
                let k = choose|k: int| 0 <= k < roster.len() && roster[k] == owner@;
                let first = lemma_first_named(raw.members@, k);
                assert(nodes_of_member(raw, first).contains(node));
            } else {
                let lost = stray_nodes(nodes, roster);
                assert(lost.contains(node));
                let names = lost.map_values(|n: RunNodeRecord| n.owner@);
                let j = choose|j: int| 0 <= j < lost.len() && lost[j] == node;
                assert(names[j] == owner@);
                crate::ordered::lemma_sorted_distinct(names);
                assert(names.contains(owner@));
                assert(sorted_distinct(names).contains(owner@));
                let k = choose|k: int|
                    0 <= k < sorted_distinct(names).len() && sorted_distinct(names)[k] == owner@;
                lemma_owners_cover(nodes, stray_owners(nodes, roster), i, k);
                let p = choose|p: int| 0 <= p < stray.len() && stray[p] == node;
                assert((free + stray)[free.len() + p] == node);
            }
        },
    }
}

} // verus!
