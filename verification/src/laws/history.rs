//! What showing a run of the past promises.

use crate::app::history::{
    edge_told, edges_told, facts_told, graph_is, index_of, node_is, RunEdge, RunGraph, Succession,
};
use crate::laws::places::rising;
use crate::model::{EdgeKind, Effort, Evidence, ModelAlias, NodeStatus, RunStatus, Tier};
use crate::wire::{
    WorkflowEdgeKind, WorkflowEvidence, WorkflowNodeStatus, WorkflowRunEdgeInfo, WorkflowRunGraph,
    WorkflowRunInfo, WorkflowRunNodeInfo, WorkflowRunStatus, WorkflowSuccession, WorkflowTier,
};
use vstd::prelude::*;

verus! {

/// Whether the node at `k` is the last one with a path.
pub open spec fn last_with_path(
    nodes: Seq<WorkflowRunNodeInfo>,
    k: int,
    path: Seq<char>,
) -> bool {
    &&& 0 <= k < nodes.len()
    &&& nodes[k].path@ == path
    &&& forall|j: int| k < j < nodes.len() ==> (#[trigger] nodes[j]).path@ != path
}

/// Whether some node has a path.
pub open spec fn has_path(nodes: Seq<WorkflowRunNodeInfo>, path: Seq<char>) -> bool {
    exists|k: int| 0 <= k < nodes.len() && (#[trigger] nodes[k]).path@ == path
}

proof fn lemma_index(nodes: Seq<WorkflowRunNodeInfo>, path: Seq<char>)
    ensures
        index_of(nodes, path) is Some <==> has_path(nodes, path),
        index_of(nodes, path) matches Some(k) ==> last_with_path(nodes, k, path),
    decreases nodes.len(),
{
    if nodes.len() > 0 {
        let n = nodes.len() - 1;
        let init = nodes.drop_last();
        assert(forall|j: int| 0 <= j < n ==> init[j] == #[trigger] nodes[j]);
        if nodes[n].path@ != path {
            lemma_index(init, path);
            if has_path(nodes, path) {
                let k = choose|k: int|
                    0 <= k < nodes.len() && (#[trigger] nodes[k]).path@ == path;
                assert(init[k].path@ == path);
            }
            if has_path(init, path) {
                let k = choose|k: int| 0 <= k < init.len() && (#[trigger] init[k]).path@ == path;
                assert(nodes[k].path@ == path);
            }
        }
    }
}

/// Whether an edge of a graph is the one that was told: between the same paths, of the same
/// kind, with the same outcome of its condition, and fired or not as it was told.
pub open spec fn edge_as_told(
    edge: RunEdge,
    told: WorkflowRunEdgeInfo,
    nodes: Seq<WorkflowRunNodeInfo>,
) -> bool {
    &&& last_with_path(nodes, edge.from as int, told.from@)
    &&& last_with_path(nodes, edge.to as int, told.to@)
    &&& (edge.kind == EdgeKind::Sequence <==> told.kind == WorkflowEdgeKind::Sequence)
    &&& (edge.kind == EdgeKind::Data <==> told.kind == WorkflowEdgeKind::Data)
    &&& (edge.kind == EdgeKind::Conditional <==> told.kind == WorkflowEdgeKind::Conditional)
    &&& edge.condition_result == told.condition_result
    &&& edge.fired == told.fired
}

proof fn lemma_edges(
    edges: Seq<WorkflowRunEdgeInfo>,
    nodes: Seq<WorkflowRunNodeInfo>,
) -> (places: Seq<int>)
    requires
        nodes.len() <= usize::MAX,
    ensures
        rising(places, edges.len()),
        places.len() == edges_told(edges, nodes).len(),
        forall|k: int|
            0 <= k < places.len() ==> edge_as_told(
                #[trigger] edges_told(edges, nodes)[k],
                edges[places[k]],
                nodes,
            ),
        forall|j: int|
            0 <= j < edges.len() && has_path(nodes, (#[trigger] edges[j]).from@) && has_path(
                nodes,
                edges[j].to@,
            ) ==> places.contains(j),
    decreases edges.len(),
{
    if edges.len() == 0 {
        Seq::empty()
    } else {
        let n = edges.len() - 1;
        let init = edges.drop_last();
        let before = lemma_edges(init, nodes);
        let all = edges_told(edges, nodes);
        assert(forall|j: int| 0 <= j < n ==> init[j] == #[trigger] edges[j]);
        lemma_index(nodes, edges[n].from@);
        lemma_index(nodes, edges[n].to@);
        let places = if edge_told(edges[n], nodes) is Some {
            before.push(n)
        } else {
            before
        };
        assert forall|k: int| 0 <= k < places.len() implies edge_as_told(
            #[trigger] all[k],
            edges[places[k]],
            nodes,
        ) by {
            if k < before.len() {
                assert(all[k] == edges_told(init, nodes)[k]);
                assert(edge_as_told(edges_told(init, nodes)[k], init[before[k]], nodes));
            }
        }
        assert forall|j: int|
            0 <= j < edges.len() && has_path(nodes, (#[trigger] edges[j]).from@) && has_path(
                nodes,
                edges[j].to@,
            ) implies places.contains(j) by {
            if j < n {
                assert(init[j] == edges[j]);
                assert(before.contains(j));
                let i = choose|i: int| 0 <= i < before.len() && before[i] == j;
                assert(places[i] == j);
            } else {
                assert(places[before.len() as int] == n);
            }
        }
        places
    }
}

/// Every told edge whose two ends are paths of told nodes is in the graph, once and in the
/// told order, with its kind, the outcome of its condition and whether it fired; the graph
/// has no other edge. Only an edge with an end that no node has is left out.
pub proof fn law_every_edge_between_told_nodes_is_there(
    g: RunGraph,
    run: WorkflowRunInfo,
    told: WorkflowRunGraph,
) -> (places: Seq<int>)
    requires
        graph_is(g, run, told),
    ensures
        rising(places, told.edges@.len()),
        places.len() == g.edges@.len(),
        forall|k: int|
            0 <= k < g.edges@.len() ==> edge_as_told(
                #[trigger] g.edges@[k],
                told.edges@[places[k]],
                told.nodes@,
            ),
        forall|j: int|
            0 <= j < told.edges@.len() && has_path(told.nodes@, (#[trigger] told.edges@[j]).from@)
                && has_path(told.nodes@, told.edges@[j].to@) ==> places.contains(j),
{
    assert(told.nodes@.len() == told.nodes.len());
    lemma_edges(told.edges@, told.nodes@)
}

/// Every told node is in the graph at its place, with what was told of it, and holds no
/// pane; its parent is the last node with the told path, where there is one.
pub proof fn law_a_node_is_shown_as_it_was_told(
    g: RunGraph,
    run: WorkflowRunInfo,
    told: WorkflowRunGraph,
    i: int,
)
    requires
        graph_is(g, run, told),
        0 <= i < told.nodes@.len(),
    ensures
        g.nodes@.len() == told.nodes@.len(),
        ({
            let n = g.nodes@[i];
            let t = told.nodes@[i];
            &&& n.idx == i
            &&& n.key == t.node_key
            &&& n.path == t.path
            &&& n.label == t.label
            &&& t.parent_path is None ==> n.parent is None
            &&& t.parent_path matches Some(p) ==> (n.parent is Some <==> has_path(told.nodes@, p@))
                && (n.parent matches Some(k) ==> last_with_path(told.nodes@, k as int, p@))
            &&& t.depth <= 65535 ==> n.depth == t.depth
            &&& t.depth > 65535 ==> n.depth == 65535
            &&& n.assignment.model == ModelAlias::Opus <==> t.model@ == "opus"@
            &&& n.assignment.effort == Effort::High <==> t.effort@ == "high"@
            &&& n.assignment.effort == Effort::Medium <==> t.effort@ == "medium"@
            &&& n.assignment_reason == t.assignment_reason
            &&& t.attempt <= 255 ==> n.attempt == t.attempt
            &&& t.attempt > 255 ==> n.attempt == 255
            &&& n.binding is None
            &&& n.checkpoint_seq == 0
            &&& n.usage.total_tokens == t.total_tokens
            &&& n.usage.tool_uses == t.tool_uses
            &&& n.usage.duration_ms == t.duration_ms
            &&& n.started_at_unix_ms == t.started_at_unix_ms
            &&& n.ended_at_unix_ms == t.ended_at_unix_ms
            &&& n.result is Some <==> t.succession is Some
            &&& n.succession is Some <==> t.succession is Some
            &&& n.restored_from is Some <==> t.restored_from is Some
            &&& n.restored_from matches Some(r) ==> r.run == t.restored_from->0.run_id && r.node_key
                == t.restored_from->0.node_key && r.checkpoint_seq
                == t.restored_from->0.checkpoint_seq
        }),
{
    assert(node_is(g.nodes@[i], i, told.nodes@[i], told.nodes@));
    reveal_strlit("high");
    reveal_strlit("medium");
    assert("high"@.len() == 4 && "medium"@.len() == 6);
    assert(told.nodes@.len() == told.nodes.len());
    if let Some(p) = told.nodes@[i].parent_path {
        lemma_index(told.nodes@, p@);
    }
}

/// A node is shown with the status it was told with, and no two statuses are shown alike.
pub proof fn law_a_status_is_shown_by_its_name(
    g: RunGraph,
    run: WorkflowRunInfo,
    told: WorkflowRunGraph,
    i: int,
)
    requires
        graph_is(g, run, told),
        0 <= i < told.nodes@.len(),
    ensures
        ({
            let n = g.nodes@[i].status;
            let t = told.nodes@[i].status;
            &&& n == NodeStatus::Pending <==> t == WorkflowNodeStatus::Pending
            &&& n == NodeStatus::Ready <==> t == WorkflowNodeStatus::Ready
            &&& n == NodeStatus::Running <==> t == WorkflowNodeStatus::Running
            &&& n == NodeStatus::NeedsAttention <==> t == WorkflowNodeStatus::NeedsAttention
            &&& n == NodeStatus::Blocked <==> t == WorkflowNodeStatus::Blocked
            &&& n == NodeStatus::Succeeded <==> t == WorkflowNodeStatus::Succeeded
            &&& n == NodeStatus::Failed <==> t == WorkflowNodeStatus::Failed
            &&& n == NodeStatus::Skipped <==> t == WorkflowNodeStatus::Skipped
            &&& n == NodeStatus::Restored <==> t == WorkflowNodeStatus::Restored
            &&& n == NodeStatus::Cancelled <==> t == WorkflowNodeStatus::Cancelled
        }),
{
    assert(node_is(g.nodes@[i], i, told.nodes@[i], told.nodes@));
}

/// A node that was left to those behind it is shown with how it left the field and on what
/// evidence, in the told words; without told evidence it is the node's own report.
pub proof fn law_a_succession_is_shown_as_it_was_told(
    g: RunGraph,
    run: WorkflowRunInfo,
    told: WorkflowRunGraph,
    i: int,
)
    requires
        graph_is(g, run, told),
        0 <= i < told.nodes@.len(),
        told.nodes@[i].succession is Some,
    ensures
        ({
            let n = g.nodes@[i];
            let t = told.nodes@[i];
            &&& n.succession is Some && n.result is Some
            &&& t.succession->0 is Satisfied <==> n.succession->0 is Satisfied
            &&& t.succession->0 matches WorkflowSuccession::Blocked { reason, resume_when }
                ==> n.succession->0 == (Succession::Blocked { reason, resume_when })
            &&& t.succession->0 matches WorkflowSuccession::NoFollowup { evidence }
                ==> n.succession->0 == (Succession::NoFollowup { evidence })
            &&& t.evidence is None ==> n.result->0.evidence == Evidence::SelfReport
            &&& n.result->0.evidence == Evidence::Hook <==> t.evidence == Some(
                WorkflowEvidence::Hook,
            )
            &&& n.result->0.evidence == Evidence::Detection <==> t.evidence == Some(
                WorkflowEvidence::Detection,
            )
            &&& n.result->0.evidence == Evidence::Restored <==> t.evidence == Some(
                WorkflowEvidence::Restored,
            )
            &&& n.result->0.summary@.len() == 0 && n.result->0.digest@.len() == 0
                && n.result->0.artifact_paths@.len() == 0
        }),
{
    assert(node_is(g.nodes@[i], i, told.nodes@[i], told.nodes@));
}

/// The run itself is shown as it was told, its limits as far as they can be counted.
pub proof fn law_a_run_is_shown_as_it_was_told(
    g: RunGraph,
    run: WorkflowRunInfo,
    told: WorkflowRunGraph,
)
    requires
        graph_is(g, run, told),
    ensures
        g.run_id == run.run_id,
        g.version_id == run.version_id,
        g.tier == Tier::Auto <==> run.tier == WorkflowTier::Auto,
        g.tier == Tier::Max <==> run.tier == WorkflowTier::Max,
        g.tier == Tier::High <==> run.tier == WorkflowTier::High,
        g.tier == Tier::Medium <==> run.tier == WorkflowTier::Medium,
        g.tier == Tier::Low <==> run.tier == WorkflowTier::Low,
        run.max_depth <= 65535 ==> g.growth.max_depth == run.max_depth,
        run.max_depth > 65535 ==> g.growth.max_depth == 65535,
        run.max_nodes <= 65535 ==> g.growth.max_nodes == run.max_nodes,
        run.max_nodes > 65535 ==> g.growth.max_nodes == 65535,
        g.status == RunStatus::Pending <==> run.status == WorkflowRunStatus::Pending,
        g.status == RunStatus::Running <==> run.status == WorkflowRunStatus::Running,
        g.status == RunStatus::Paused <==> run.status == WorkflowRunStatus::Paused,
        g.status == RunStatus::Succeeded <==> run.status == WorkflowRunStatus::Succeeded,
        g.status == RunStatus::Failed <==> run.status == WorkflowRunStatus::Failed,
        g.status == RunStatus::Cancelled <==> run.status == WorkflowRunStatus::Cancelled,
        g.seq == 0,
{
}

/// Whether anything was told of a node's task.
pub open spec fn has_task(n: WorkflowRunNodeInfo) -> bool {
    n.task_id is Some || n.subject@.len() > 0 || n.owner@.len() > 0 || n.attention is Some
        || n.watchdog_interventions > 0
}

/// What is known of the task at a path is what the last node there with a task was told
/// with; a path without such a node is told nothing about.
pub proof fn law_a_task_is_remembered_at_its_path(
    nodes: Seq<WorkflowRunNodeInfo>,
    path: Seq<char>,
    k: int,
)
    ensures
        (forall|j: int| 0 <= j < nodes.len() && has_task(#[trigger] nodes[j]) ==> nodes[j].path@
            != path) ==> !facts_told(nodes).contains_key(path),
        (0 <= k < nodes.len() && nodes[k].path@ == path && has_task(nodes[k]) && forall|j: int|
            k < j < nodes.len() && has_task(#[trigger] nodes[j]) ==> nodes[j].path@ != path) ==> {
            &&& facts_told(nodes).contains_key(path)
            &&& facts_told(nodes)[path].task_id == nodes[k].task_id
            &&& facts_told(nodes)[path].subject == nodes[k].subject
            &&& facts_told(nodes)[path].owner == nodes[k].owner
            &&& facts_told(nodes)[path].emergent == nodes[k].emergent
            &&& facts_told(nodes)[path].attention == nodes[k].attention
            &&& facts_told(nodes)[path].watchdog_interventions == nodes[k].watchdog_interventions
        },
    decreases nodes.len(),
{
    if nodes.len() > 0 {
        let n = nodes.len() - 1;
        let init = nodes.drop_last();
        assert(forall|j: int| 0 <= j < n ==> init[j] == #[trigger] nodes[j]);
        law_a_task_is_remembered_at_its_path(init, path, k);
        if forall|j: int| 0 <= j < nodes.len() && has_task(#[trigger] nodes[j]) ==> nodes[j].path@
            != path {
            assert forall|j: int| 0 <= j < init.len() && has_task(#[trigger] init[j]) implies init[j].path@
                != path by {
                assert(nodes[j].path@ != path);
            }
            assert(has_task(nodes[n]) ==> nodes[n].path@ != path);
        }
        if 0 <= k < n && forall|j: int|
            k < j < nodes.len() && has_task(#[trigger] nodes[j]) ==> nodes[j].path@ != path {
            assert forall|j: int| k < j < init.len() && has_task(#[trigger] init[j]) implies init[j].path@
                != path by {
                assert(nodes[j].path@ != path);
            }
            assert(has_task(nodes[n]) ==> nodes[n].path@ != path);
        }
    }
}

} // verus!
