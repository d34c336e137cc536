//! A run of the past, put together again from what the server tells of it.

use crate::model::{
    Assignment, Attention, EdgeKind, Effort, Evidence, ModelAlias, NodeStatus, RunStatus, Tier,
};
use crate::ordered::TextMap;
use crate::text::{copy_opt, str_eq};
use crate::wire::{
    WorkflowEdgeKind, WorkflowEvidence, WorkflowNodeStatus, WorkflowRunEdgeInfo, WorkflowRunGraph,
    WorkflowRunInfo, WorkflowRunNodeInfo, WorkflowRunStatus, WorkflowSuccession, WorkflowTier,
};
use vstd::prelude::*;

verus! {

// ---------------------------------------------------------------------------
// Words
// ---------------------------------------------------------------------------

/// A count that does not fit becomes the largest that does, never a small one.
pub open spec fn clamped(value: u32) -> u16 {
    if value > u16::MAX {
        u16::MAX
    } else {
        value as u16
    }
}

pub fn clamp_u16(value: u32) -> (r: u16)
    ensures
        r == clamped(value),
{
    if value > u16::MAX as u32 {
        u16::MAX
    } else {
        value as u16
    }
}

/// The model of this name; the cheapest where it is not known.
pub open spec fn model_named(name: Seq<char>) -> ModelAlias {
    if name == "opus"@ {
        ModelAlias::Opus
    } else {
        ModelAlias::Sonnet
    }
}

pub fn parse_model(value: &str) -> (r: ModelAlias)
    ensures
        r == model_named(value@),
{
    if str_eq(value, "opus") {
        ModelAlias::Opus
    } else {
        ModelAlias::Sonnet
    }
}

/// The effort of this name; the least where it is not known.
pub open spec fn effort_named(name: Seq<char>) -> Effort {
    if name == "medium"@ {
        Effort::Medium
    } else if name == "high"@ {
        Effort::High
    } else {
        Effort::Low
    }
}

pub fn parse_effort(value: &str) -> (r: Effort)
    ensures
        r == effort_named(value@),
{
    if str_eq(value, "medium") {
        Effort::Medium
    } else if str_eq(value, "high") {
        Effort::High
    } else {
        Effort::Low
    }
}

/// A model or an effort that is told by its name is understood again.
pub proof fn law_names_are_understood_again(model: ModelAlias, effort: Effort)
    ensures
        model_named(model.name()) == model,
        effort_named(effort.name()) == effort,
{
    reveal_strlit("sonnet");
    reveal_strlit("opus");
    reveal_strlit("low");
    reveal_strlit("medium");
    reveal_strlit("high");
    assert("sonnet"@.len() == 6 && "opus"@.len() == 4);
    assert("low"@.len() == 3 && "medium"@.len() == 6 && "high"@.len() == 4);
}

pub open spec fn tier_told(tier: WorkflowTier) -> Tier {
    match tier {
        WorkflowTier::Auto => Tier::Auto,
        WorkflowTier::Max => Tier::Max,
        WorkflowTier::High => Tier::High,
        WorkflowTier::Medium => Tier::Medium,
        WorkflowTier::Low => Tier::Low,
    }
}

pub fn engine_tier(tier: WorkflowTier) -> (r: Tier)
    ensures
        r == tier_told(tier),
{
    match tier {
        WorkflowTier::Auto => Tier::Auto,
        WorkflowTier::Max => Tier::Max,
        WorkflowTier::High => Tier::High,
        WorkflowTier::Medium => Tier::Medium,
        WorkflowTier::Low => Tier::Low,
    }
}

pub open spec fn run_status_told(status: WorkflowRunStatus) -> RunStatus {
    match status {
        WorkflowRunStatus::Pending => RunStatus::Pending,
        WorkflowRunStatus::Running => RunStatus::Running,
        WorkflowRunStatus::Paused => RunStatus::Paused,
        WorkflowRunStatus::Succeeded => RunStatus::Succeeded,
        WorkflowRunStatus::Failed => RunStatus::Failed,
        WorkflowRunStatus::Cancelled => RunStatus::Cancelled,
    }
}

pub fn run_status(status: WorkflowRunStatus) -> (r: RunStatus)
    ensures
        r == run_status_told(status),
{
    match status {
        WorkflowRunStatus::Pending => RunStatus::Pending,
        WorkflowRunStatus::Running => RunStatus::Running,
        WorkflowRunStatus::Paused => RunStatus::Paused,
        WorkflowRunStatus::Succeeded => RunStatus::Succeeded,
        WorkflowRunStatus::Failed => RunStatus::Failed,
        WorkflowRunStatus::Cancelled => RunStatus::Cancelled,
    }
}

pub open spec fn node_status_told(status: WorkflowNodeStatus) -> NodeStatus {
    match status {
        WorkflowNodeStatus::Pending => NodeStatus::Pending,
        WorkflowNodeStatus::Ready => NodeStatus::Ready,
        WorkflowNodeStatus::Running => NodeStatus::Running,
        WorkflowNodeStatus::NeedsAttention => NodeStatus::NeedsAttention,
        WorkflowNodeStatus::Blocked => NodeStatus::Blocked,
        WorkflowNodeStatus::Succeeded => NodeStatus::Succeeded,
        WorkflowNodeStatus::Failed => NodeStatus::Failed,
        WorkflowNodeStatus::Skipped => NodeStatus::Skipped,
        WorkflowNodeStatus::Restored => NodeStatus::Restored,
        WorkflowNodeStatus::Cancelled => NodeStatus::Cancelled,
    }
}

pub fn node_status(status: WorkflowNodeStatus) -> (r: NodeStatus)
    ensures
        r == node_status_told(status),
{
    match status {
        WorkflowNodeStatus::Pending => NodeStatus::Pending,
        WorkflowNodeStatus::Ready => NodeStatus::Ready,
        WorkflowNodeStatus::Running => NodeStatus::Running,
        WorkflowNodeStatus::NeedsAttention => NodeStatus::NeedsAttention,
        WorkflowNodeStatus::Blocked => NodeStatus::Blocked,
        WorkflowNodeStatus::Succeeded => NodeStatus::Succeeded,
        WorkflowNodeStatus::Failed => NodeStatus::Failed,
        WorkflowNodeStatus::Skipped => NodeStatus::Skipped,
        WorkflowNodeStatus::Restored => NodeStatus::Restored,
        WorkflowNodeStatus::Cancelled => NodeStatus::Cancelled,
    }
}

/// No two statuses are told as one.
pub proof fn law_statuses_stay_apart(
    a: WorkflowNodeStatus,
    b: WorkflowNodeStatus,
    x: WorkflowRunStatus,
    y: WorkflowRunStatus,
)
    ensures
        node_status_told(a) == node_status_told(b) ==> a == b,
        run_status_told(x) == run_status_told(y) ==> x == y,
{
}

pub open spec fn edge_kind_told(kind: WorkflowEdgeKind) -> EdgeKind {
    match kind {
        WorkflowEdgeKind::Sequence => EdgeKind::Sequence,
        WorkflowEdgeKind::Data => EdgeKind::Data,
        WorkflowEdgeKind::Conditional => EdgeKind::Conditional,
    }
}

pub fn edge_kind(kind: WorkflowEdgeKind) -> (r: EdgeKind)
    ensures
        r == edge_kind_told(kind),
{
    match kind {
        WorkflowEdgeKind::Sequence => EdgeKind::Sequence,
        WorkflowEdgeKind::Data => EdgeKind::Data,
        WorkflowEdgeKind::Conditional => EdgeKind::Conditional,
    }
}

pub open spec fn evidence_told(evidence: WorkflowEvidence) -> Evidence {
    match evidence {
        WorkflowEvidence::SelfReport => Evidence::SelfReport,
        WorkflowEvidence::Hook => Evidence::Hook,
        WorkflowEvidence::Detection => Evidence::Detection,
        WorkflowEvidence::Restored => Evidence::Restored,
    }
}

pub fn evidence(told: WorkflowEvidence) -> (r: Evidence)
    ensures
        r == evidence_told(told),
{
    match told {
        WorkflowEvidence::SelfReport => Evidence::SelfReport,
        WorkflowEvidence::Hook => Evidence::Hook,
        WorkflowEvidence::Detection => Evidence::Detection,
        WorkflowEvidence::Restored => Evidence::Restored,
    }
}

// ---------------------------------------------------------------------------
// The graph
// ---------------------------------------------------------------------------

/// A live hold on a pane.
#[derive(Debug, PartialEq, Eq)]
pub struct NodeBinding {
    pub pane_id: String,
    pub terminal_id: String,
}

/// How a node left the field to those behind it.
#[allow(inconsistent_fields)]
#[derive(Debug, PartialEq, Eq)]
pub enum Succession {
    Satisfied,
    Blocked { reason: String, resume_when: Option<String> },
    NoFollowup { evidence: String },
}

/// What a node came to.
#[derive(Debug, PartialEq, Eq)]
pub struct NodeResult {
    pub summary: String,
    pub artifact_paths: Vec<String>,
    pub digest: String,
    pub evidence: Evidence,
}

#[derive(Debug, Clone, Copy, PartialEq, Eq, Structural)]
pub struct NodeUsage {
    pub total_tokens: u64,
    pub tool_uses: u64,
    pub duration_ms: u64,
}

/// The node of an older run that a result was taken from.
#[derive(Debug, PartialEq, Eq)]
pub struct RestoredRef {
    pub run: String,
    pub node_key: String,
    pub checkpoint_seq: u64,
}

#[derive(Debug, PartialEq, Eq)]
pub struct RunNode {
    pub idx: usize,
    pub key: String,
    pub path: String,
    pub label: String,
    pub parent: Option<usize>,
    pub depth: u16,
    pub status: NodeStatus,
    pub assignment: Assignment,
    pub assignment_reason: String,
    pub attempt: u8,
    pub binding: Option<NodeBinding>,
    pub result: Option<NodeResult>,
    pub usage: NodeUsage,
    pub started_at_unix_ms: Option<u64>,
    pub ended_at_unix_ms: Option<u64>,
    pub succession: Option<Succession>,
    pub checkpoint_seq: u64,
    pub restored_from: Option<RestoredRef>,
}

#[derive(Debug, PartialEq, Eq)]
pub struct RunEdge {
    pub from: usize,
    pub to: usize,
    pub kind: EdgeKind,
    pub condition_result: Option<bool>,
    pub fired: bool,
}

#[derive(Debug, Clone, Copy, PartialEq, Eq, Structural)]
pub struct GrowthLimits {
    pub max_depth: u16,
    pub max_nodes: u16,
}

#[derive(Debug, PartialEq, Eq)]
pub struct RunGraph {
    pub run_id: String,
    pub version_id: String,
    pub tier: Tier,
    pub growth: GrowthLimits,
    pub nodes: Vec<RunNode>,
    pub edges: Vec<RunEdge>,
    pub status: RunStatus,
    pub seq: u64,
}

/// Where a path stands among nodes: at the last node that has it.
pub open spec fn index_of(nodes: Seq<WorkflowRunNodeInfo>, path: Seq<char>) -> Option<int>
    decreases nodes.len(),
{
    if nodes.len() == 0 {
        None
    } else if nodes.last().path@ == path {
        Some(nodes.len() - 1)
    } else {
        index_of(nodes.drop_last(), path)
    }
}

proof fn lemma_index_of(nodes: Seq<WorkflowRunNodeInfo>, path: Seq<char>)
    ensures
        match index_of(nodes, path) {
            Some(i) => 0 <= i < nodes.len() && nodes[i].path@ == path,
            None => forall|i: int| 0 <= i < nodes.len() ==> (#[trigger] nodes[i]).path@ != path,
        },
    decreases nodes.len(),
{
    if nodes.len() > 0 && nodes.last().path@ != path {
        lemma_index_of(nodes.drop_last(), path);
        if index_of(nodes.drop_last(), path) is None {
            assert forall|i: int| 0 <= i < nodes.len() implies (#[trigger] nodes[i]).path@
                != path by {
                if i < nodes.len() - 1 {
                    assert(nodes.drop_last()[i] == nodes[i]);
                }
            }
        }
    }
}

/// The place of a path, as a number that a list can be reached by.
pub open spec fn place_of(nodes: Seq<WorkflowRunNodeInfo>, path: Option<String>) -> Option<usize> {
    match path {
        Some(p) => match index_of(nodes, p@) {
            Some(i) => Some(i as usize),
            None => None,
        },
        None => None,
    }
}

fn find_index(nodes: &Vec<WorkflowRunNodeInfo>, path: &str) -> (r: Option<usize>)
    ensures
        match (r, index_of(nodes@, path@)) {
            (Some(i), Some(k)) => i == k && i < nodes@.len(),
            (None, None) => true,
            _ => false,
        },
{
    let mut n: usize = nodes.len();
    assert(nodes@.take(n as int) =~= nodes@);
    while n > 0
        invariant
            n <= nodes@.len(),
            index_of(nodes@, path@) == index_of(nodes@.take(n as int), path@),
        decreases n,
    {
        assert(nodes@.take(n as int).last() == nodes@[n - 1]);
        assert(nodes@.take(n as int).drop_last() =~= nodes@.take(n - 1));
        if str_eq(nodes[n - 1].path.as_str(), path) {
            return Some(n - 1);
        }
        n = n - 1;
    }
    None
}

/// A count of attempts, as far as it can be kept.
pub open spec fn attempts(value: u32) -> u8 {
    if value > u8::MAX {
        u8::MAX
    } else {
        value as u8
    }
}

pub open spec fn succession_is(s: Succession, told: WorkflowSuccession) -> bool {
    match told {
        WorkflowSuccession::Satisfied => s is Satisfied,
        WorkflowSuccession::Blocked { reason, resume_when } => s == (Succession::Blocked {
            reason,
            resume_when,
        }),
        WorkflowSuccession::NoFollowup { evidence } => s == (Succession::NoFollowup { evidence }),
    }
}

/// A node of the past as it is put together again. It never holds a pane: the panes of
/// a run that is over are gone.
pub open spec fn node_is(
    n: RunNode,
    position: int,
    told: WorkflowRunNodeInfo,
    all: Seq<WorkflowRunNodeInfo>,
) -> bool {
    &&& n.idx == position
    &&& n.key == told.node_key
    &&& n.path == told.path
    &&& n.label == told.label
    &&& n.parent == place_of(all, told.parent_path)
    &&& n.depth == clamped(told.depth)
    &&& n.status == node_status_told(told.status)
    &&& n.assignment.model == model_named(told.model@)
    &&& n.assignment.effort == effort_named(told.effort@)
    &&& n.assignment_reason == told.assignment_reason
    &&& n.attempt == attempts(told.attempt)
    &&& n.binding is None
    &&& match (n.result, told.succession) {
        (Some(r), Some(_)) => r.summary@.len() == 0 && r.artifact_paths@.len() == 0
            && r.digest@.len() == 0 && r.evidence == (match told.evidence {
            Some(e) => evidence_told(e),
            None => Evidence::SelfReport,
        }),
        (None, None) => true,
        _ => false,
    }
    &&& n.usage == (NodeUsage {
        total_tokens: told.total_tokens,
        tool_uses: told.tool_uses,
        duration_ms: told.duration_ms,
    })
    &&& n.started_at_unix_ms == told.started_at_unix_ms
    &&& n.ended_at_unix_ms == told.ended_at_unix_ms
    &&& match (n.succession, told.succession) {
        (Some(s), Some(t)) => succession_is(s, t),
        (None, None) => true,
        _ => false,
    }
    &&& n.checkpoint_seq == 0
    &&& match (n.restored_from, told.restored_from) {
        (Some(r), Some(t)) => r.run == t.run_id && r.node_key == t.node_key && r.checkpoint_seq
            == t.checkpoint_seq,
        (None, None) => true,
        _ => false,
    }
}

fn rehydrate_succession(told: &WorkflowSuccession) -> (r: Succession)
    ensures
        succession_is(r, *told),
{
    match told {
        WorkflowSuccession::Satisfied => Succession::Satisfied,
        WorkflowSuccession::Blocked { reason, resume_when } => Succession::Blocked {
            reason: reason.clone(),
            resume_when: copy_opt(resume_when),
        },
        WorkflowSuccession::NoFollowup { evidence } => Succession::NoFollowup {
            evidence: evidence.clone(),
        },
    }
}

fn rehydrate_node(
    position: usize,
    told: &WorkflowRunNodeInfo,
    all: &Vec<WorkflowRunNodeInfo>,
) -> (r: RunNode)
    ensures
        node_is(r, position as int, *told, all@),
{
    let parent = match &told.parent_path {
        Some(p) => find_index(all, p.as_str()),
        None => None,
    };
    let attempt: u8 = if told.attempt > u8::MAX as u32 {
        u8::MAX
    } else {
        told.attempt as u8
    };
    let result: Option<NodeResult> = match &told.succession {
        Some(_) => Some(
            NodeResult {
                summary: String::new(),
                artifact_paths: Vec::new(),
                digest: String::new(),
                evidence: match told.evidence {
                    Some(e) => evidence(e),
                    None => Evidence::SelfReport,
                },
            },
        ),
        None => None,
    };
    let succession: Option<Succession> = match &told.succession {
        Some(s) => Some(rehydrate_succession(s)),
        None => None,
    };
    let restored_from: Option<RestoredRef> = match &told.restored_from {
        Some(t) => Some(
            RestoredRef {
                run: t.run_id.clone(),
                node_key: t.node_key.clone(),
                checkpoint_seq: t.checkpoint_seq,
            },
        ),
        None => None,
    };
    RunNode {
        idx: position,
        key: told.node_key.clone(),
        path: told.path.clone(),
        label: told.label.clone(),
        parent,
        depth: clamp_u16(told.depth),
        status: node_status(told.status),
        assignment: Assignment {
            model: parse_model(told.model.as_str()),
            effort: parse_effort(told.effort.as_str()),
        },
        assignment_reason: told.assignment_reason.clone(),
        attempt,
        binding: None,
        result,
        usage: NodeUsage {
            total_tokens: told.total_tokens,
            tool_uses: told.tool_uses,
            duration_ms: told.duration_ms,
        },
        started_at_unix_ms: told.started_at_unix_ms,
        ended_at_unix_ms: told.ended_at_unix_ms,
        succession,
        checkpoint_seq: 0,
        restored_from,
    }
}

/// The edge that is told, between the places of its ends; nothing where one of them is
/// not there.
pub open spec fn edge_told(
    told: WorkflowRunEdgeInfo,
    nodes: Seq<WorkflowRunNodeInfo>,
) -> Option<RunEdge> {
    match (index_of(nodes, told.from@), index_of(nodes, told.to@)) {
        (Some(from), Some(to)) => Some(
            RunEdge {
                from: from as usize,
                to: to as usize,
                kind: edge_kind_told(told.kind),
                condition_result: told.condition_result,
                fired: told.fired,
            },
        ),
        _ => None,
    }
}

/// The edges that are told, in order, without those that lead nowhere.
pub open spec fn edges_told(
    edges: Seq<WorkflowRunEdgeInfo>,
    nodes: Seq<WorkflowRunNodeInfo>,
) -> Seq<RunEdge>
    decreases edges.len(),
{
    if edges.len() == 0 {
        Seq::empty()
    } else {
        let before = edges_told(edges.drop_last(), nodes);
        match edge_told(edges.last(), nodes) {
            Some(e) => before.push(e),
            None => before,
        }
    }
}

/// A run of the past as it is put together again.
pub open spec fn graph_is(g: RunGraph, run: WorkflowRunInfo, told: WorkflowRunGraph) -> bool {
    &&& g.run_id == run.run_id
    &&& g.version_id == run.version_id
    &&& g.tier == tier_told(run.tier)
    &&& g.growth == (GrowthLimits {
        max_depth: clamped(run.max_depth),
        max_nodes: clamped(run.max_nodes),
    })
    &&& g.nodes@.len() == told.nodes@.len()
    &&& forall|i: int|
        0 <= i < told.nodes@.len() ==> node_is(
            #[trigger] g.nodes@[i],
            i,
            told.nodes@[i],
            told.nodes@,
        )
    &&& g.edges@ == edges_told(told.edges@, told.nodes@)
    &&& g.status == run_status_told(run.status)
    &&& g.seq == 0
}

pub fn rehydrate_run_graph(run: &WorkflowRunInfo, told: &WorkflowRunGraph) -> (r: RunGraph)
    ensures
        graph_is(r, *run, *told),
{
    let mut nodes: Vec<RunNode> = Vec::new();
    let mut i: usize = 0;
    while i < told.nodes.len()
        invariant
            i <= told.nodes@.len(),
            nodes@.len() == i,
            forall|k: int|
                0 <= k < i ==> node_is(#[trigger] nodes@[k], k, told.nodes@[k], told.nodes@),
        decreases told.nodes@.len() - i,
    {
        nodes.push(rehydrate_node(i, &told.nodes[i], &told.nodes));
        i = i + 1;
    }
    let mut edges: Vec<RunEdge> = Vec::new();
    let mut j: usize = 0;
    assert(told.edges@.take(0) =~= Seq::empty());
    while j < told.edges.len()
        invariant
            j <= told.edges@.len(),
            edges@ == edges_told(told.edges@.take(j as int), told.nodes@),
        decreases told.edges@.len() - j,
    {
        let edge = &told.edges[j];
        assert(told.edges@.take(j as int + 1).drop_last() =~= told.edges@.take(j as int));
        assert(told.edges@.take(j as int + 1).last() == *edge);
        match (find_index(&told.nodes, edge.from.as_str()), find_index(&told.nodes, edge.to.as_str())) {
            (Some(from), Some(to)) => {
                edges.push(
                    RunEdge {
                        from,
                        to,
                        kind: edge_kind(edge.kind),
                        condition_result: edge.condition_result,
                        fired: edge.fired,
                    },
                );
            },
            _ => {},
        }
        j = j + 1;
    }
    assert(told.edges@.take(told.edges@.len() as int) =~= told.edges@);
    RunGraph {
        run_id: run.run_id.clone(),
        version_id: run.version_id.clone(),
        tier: engine_tier(run.tier),
        growth: GrowthLimits {
            max_depth: clamp_u16(run.max_depth),
            max_nodes: clamp_u16(run.max_nodes),
        },
        nodes,
        edges,
        status: run_status(run.status),
        seq: 0,
    }
}

/// Every edge of a graph leads from one of its nodes to another, and joins the paths it
/// was told to join.
pub proof fn law_edges_join_what_they_were_told_to(
    g: RunGraph,
    run: WorkflowRunInfo,
    told: WorkflowRunGraph,
    k: int,
)
    requires
        graph_is(g, run, told),
        0 <= k < g.edges@.len(),
    ensures
        g.edges@[k].from < g.nodes@.len(),
        g.edges@[k].to < g.nodes@.len(),
        exists|j: int|
            0 <= j < told.edges@.len() && (#[trigger] told.edges@[j]).from@ == g.nodes@[g.edges@[k].from as int].path@
                && told.edges@[j].to@ == g.nodes@[g.edges@[k].to as int].path@,
{
    let nodes = told.nodes@;
    lemma_edges_told(told.edges@, nodes, k);
    let j = choose|j: int|
        0 <= j < told.edges@.len() && edge_told(#[trigger] told.edges@[j], nodes) == Some(
            edges_told(told.edges@, nodes)[k],
        );
    lemma_index_of(nodes, told.edges@[j].from@);
    lemma_index_of(nodes, told.edges@[j].to@);
    let from = index_of(nodes, told.edges@[j].from@)->0;
    let to = index_of(nodes, told.edges@[j].to@)->0;
    assert(nodes.len() == told.nodes.len());
    assert(node_is(g.nodes@[from], from, nodes[from], nodes));
    assert(node_is(g.nodes@[to], to, nodes[to], nodes));
    assert(g.nodes@[from].idx == from);
    assert(g.nodes@[to].idx == to);
}

proof fn lemma_edges_told(
    edges: Seq<WorkflowRunEdgeInfo>,
    nodes: Seq<WorkflowRunNodeInfo>,
    k: int,
)
    requires
        0 <= k < edges_told(edges, nodes).len(),
    ensures
        exists|j: int|
            0 <= j < edges.len() && edge_told(#[trigger] edges[j], nodes) == Some(
                edges_told(edges, nodes)[k],
            ),
    decreases edges.len(),
{
    let front = edges.drop_last();
    let before = edges_told(front, nodes);
    if k < before.len() {
        lemma_edges_told(front, nodes, k);
        let j = choose|j: int|
            0 <= j < front.len() && edge_told(#[trigger] front[j], nodes) == Some(before[k]);
        assert(edges[j] == front[j]);
        assert(edges_told(edges, nodes)[k] == before[k]);
    } else {
        assert(edge_told(edges[edges.len() - 1], nodes) == Some(edges_told(edges, nodes)[k]));
    }
}

// ---------------------------------------------------------------------------
// What was seen of the work
// ---------------------------------------------------------------------------

/// What was seen of a node's task.
#[derive(Debug, PartialEq, Eq)]
pub struct ProjectedNodeFacts {
    pub task_id: Option<String>,
    pub subject: String,
    pub owner: String,
    pub emergent: bool,
    pub attention: Option<Attention>,
    pub watchdog_interventions: u32,
}

/// Whether anything was seen of a node's task.
pub open spec fn was_seen(n: WorkflowRunNodeInfo) -> bool {
    n.task_id is Some || n.subject@.len() > 0 || n.owner@.len() > 0 || n.attention is Some
        || n.watchdog_interventions > 0
}

/// What was seen of a node's task.
pub open spec fn facts_of(n: WorkflowRunNodeInfo) -> ProjectedNodeFacts {
    ProjectedNodeFacts {
        task_id: n.task_id,
        subject: n.subject,
        owner: n.owner,
        emergent: n.emergent,
        attention: n.attention,
        watchdog_interventions: n.watchdog_interventions,
    }
}

/// What was seen of the nodes' tasks, by their paths.
pub open spec fn facts_told(nodes: Seq<WorkflowRunNodeInfo>) -> Map<Seq<char>, ProjectedNodeFacts>
    decreases nodes.len(),
{
    if nodes.len() == 0 {
        Map::empty()
    } else if was_seen(nodes.last()) {
        facts_told(nodes.drop_last()).insert(nodes.last().path@, facts_of(nodes.last()))
    } else {
        facts_told(nodes.drop_last())
    }
}

pub fn projected_facts(graph: &WorkflowRunGraph) -> (r: TextMap<ProjectedNodeFacts>)
    ensures
        r.wf(),
        r@ == facts_told(graph.nodes@),
{
    let mut out: TextMap<ProjectedNodeFacts> = TextMap::new();
    let mut i: usize = 0;
    assert(graph.nodes@.take(0) =~= Seq::empty());
    while i < graph.nodes.len()
        invariant
            i <= graph.nodes@.len(),
            out.wf(),
            out@ == facts_told(graph.nodes@.take(i as int)),
        decreases graph.nodes@.len() - i,
    {
        let n = &graph.nodes[i];
        assert(graph.nodes@.take(i as int + 1).drop_last() =~= graph.nodes@.take(i as int));
        assert(graph.nodes@.take(i as int + 1).last() == *n);
        let seen = n.task_id.is_some() || !n.subject.as_str().is_empty()
            || !n.owner.as_str().is_empty() || n.attention.is_some() || n.watchdog_interventions
            > 0;
        if seen {
            out.insert(
                n.path.clone(),
                ProjectedNodeFacts {
                    task_id: copy_opt(&n.task_id),
                    subject: n.subject.clone(),
                    owner: n.owner.clone(),
                    emergent: n.emergent,
                    attention: n.attention,
                    watchdog_interventions: n.watchdog_interventions,
                },
            );
        }
        i = i + 1;
    }
    assert(graph.nodes@.take(graph.nodes@.len() as int) =~= graph.nodes@);
    out
}

/// A node that nothing was seen of is told nothing about, and one that something was
/// seen of always is.
pub proof fn law_what_was_seen_is_kept(nodes: Seq<WorkflowRunNodeInfo>, path: Seq<char>)
    ensures
        facts_told(nodes).contains_key(path) <==> exists|i: int|
            0 <= i < nodes.len() && (#[trigger] nodes[i]).path@ == path && was_seen(nodes[i]),
    decreases nodes.len(),
{
    if nodes.len() > 0 {
        let front = nodes.drop_last();
        law_what_was_seen_is_kept(front, path);
        if exists|i: int|
            0 <= i < front.len() && (#[trigger] front[i]).path@ == path && was_seen(front[i]) {
            let i = choose|i: int|
                0 <= i < front.len() && (#[trigger] front[i]).path@ == path && was_seen(front[i]);
            assert(nodes[i] == front[i]);
        }
        if was_seen(nodes.last()) && nodes.last().path@ == path {
            assert(nodes[nodes.len() - 1].path@ == path);
        }
        if exists|i: int|
            0 <= i < nodes.len() && (#[trigger] nodes[i]).path@ == path && was_seen(nodes[i]) {
            let i = choose|i: int|
                0 <= i < nodes.len() && (#[trigger] nodes[i]).path@ == path && was_seen(nodes[i]);
            if i < front.len() {
                assert(front[i] == nodes[i]);
            }
        }
    }
}

} // verus!
