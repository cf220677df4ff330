//! Readiness of nodes in a regional quest's condition graph.
//!
//! A node is ready when, for every edge into it, the source node is
//! optional, or completed, or belongs to an exclusive group of which some
//! member is completed.

use vstd::prelude::*;
use crate::text::str_eq;

verus! {

/// A condition node of a regional quest.
#[derive(Debug, Clone, PartialEq, Eq)]
pub struct QuestConditionNode {
    pub id: String,
    pub optional: bool,
    pub exclusive_group: Option<String>,
}

/// A prerequisite edge: `from` must be satisfied before `to`.
#[derive(Debug, Clone, PartialEq, Eq)]
pub struct QuestConditionEdge {
    pub from: String,
    pub to: String,
}

/// The condition graph of one regional quest.
#[derive(Debug, Clone, PartialEq, Eq)]
pub struct QuestConditionGraph {
    pub nodes: Vec<QuestConditionNode>,
    pub edges: Vec<QuestConditionEdge>,
}

pub struct ConditionNodeView {
    pub id: Seq<char>,
    pub optional: bool,
    pub group: Option<Seq<char>>,
}

pub struct ConditionEdgeView {
    pub from: Seq<char>,
    pub to: Seq<char>,
}

pub struct ConditionGraphView {
    pub nodes: Seq<ConditionNodeView>,
    pub edges: Seq<ConditionEdgeView>,
}

impl View for QuestConditionNode {
    type V = ConditionNodeView;

    open spec fn view(&self) -> ConditionNodeView {
        ConditionNodeView {
            id: self.id@,
            optional: self.optional,
            group: match self.exclusive_group {
                Some(g) => Some(g@),
                None => None,
            },
        }
    }
}

impl View for QuestConditionEdge {
    type V = ConditionEdgeView;

    open spec fn view(&self) -> ConditionEdgeView {
        ConditionEdgeView { from: self.from@, to: self.to@ }
    }
}

impl View for QuestConditionGraph {
    type V = ConditionGraphView;

    open spec fn view(&self) -> ConditionGraphView {
        ConditionGraphView {
            nodes: self.nodes@.map_values(|n: QuestConditionNode| n@),
            edges: self.edges@.map_values(|e: QuestConditionEdge| e@),
        }
    }
}

pub open spec fn texts_view(s: Seq<String>) -> Seq<Seq<char>> {
    s.map_values(|t: String| t@)
}

/// The first node from `start` on with the given id; -1 if none.
pub open spec fn find_node_from(nodes: Seq<ConditionNodeView>, id: Seq<char>, start: int) -> int
    decreases nodes.len() - start,
{
    if start < 0 || start >= nodes.len() {
        -1
    } else if nodes[start].id == id {
        start
    } else {
        find_node_from(nodes, id, start + 1)
    }
}

/// Some member of the exclusive group is completed.
pub open spec fn group_done(g: ConditionGraphView, group: Seq<char>, completed: Seq<Seq<char>>) -> bool {
    exists|i: int|
        0 <= i < g.nodes.len() && #[trigger] g.nodes[i].group == Some(group) && completed.contains(g.nodes[i].id)
}

/// The source of an incoming edge exists and no longer blocks its target.
pub open spec fn incoming_edge_ok(g: ConditionGraphView, e: ConditionEdgeView, completed: Seq<Seq<char>>) -> bool {
    let k = find_node_from(g.nodes, e.from, 0);
    k >= 0 && (g.nodes[k].optional || match g.nodes[k].group {
        Some(group) => group_done(g, group, completed),
        None => completed.contains(g.nodes[k].id),
    })
}

pub open spec fn spec_node_ready(g: ConditionGraphView, node_id: Seq<char>, completed: Seq<Seq<char>>) -> bool {
    forall|i: int|
        0 <= i < g.edges.len() && #[trigger] g.edges[i].to == node_id ==> incoming_edge_ok(g, g.edges[i], completed)
}

/// A node on the quest route no longer needs doing: it is completed,
/// optional, or another member of its exclusive group is completed.
pub open spec fn spec_route_node_satisfied(g: ConditionGraphView, node: ConditionNodeView, completed: Seq<Seq<char>>) -> bool {
    completed.contains(node.id) || node.optional || match node.group {
        Some(group) => group_done(g, group, completed),
        None => false,
    }
}

fn contains_text(texts: &[String], id: &str) -> (r: bool)
    ensures
        r == texts_view(texts@).contains(id@),
{
    let mut i: usize = 0;
    while i < texts.len()
        invariant
            i <= texts@.len(),
            forall|j: int| 0 <= j < i ==> texts@[j]@ != id@,
        decreases texts@.len() - i,
    {
        if str_eq(texts[i].as_str(), id) {
            assert(texts_view(texts@)[i as int] == id@);
            return true;
        }
        i = i + 1;
    }
    assert forall|j: int| 0 <= j < texts_view(texts@).len() implies texts_view(texts@)[j] != id@ by {
        assert(texts_view(texts@)[j] == texts@[j]@);
    }
    false
}

fn find_node(graph: &QuestConditionGraph, id: &str) -> (r: Option<usize>)
    ensures
        match r {
            Some(k) => find_node_from(graph@.nodes, id@, 0) == k as int && k < graph.nodes@.len(),
            None => find_node_from(graph@.nodes, id@, 0) == -1,
        },
{
    let ghost v = graph@;
    let mut i: usize = 0;
    while i < graph.nodes.len()
        invariant
            v == graph@,
            i <= graph.nodes@.len(),
            find_node_from(v.nodes, id@, 0) == find_node_from(v.nodes, id@, i as int),
        decreases graph.nodes@.len() - i,
    {
        if str_eq(graph.nodes[i].id.as_str(), id) {
            return Some(i);
        }
        i = i + 1;
    }
    None
}

fn group_completed(graph: &QuestConditionGraph, group: &str, completed: &[String]) -> (r: bool)
    ensures
        r == group_done(graph@, group@, texts_view(completed@)),
{
    let ghost v = graph@;
    let ghost c = texts_view(completed@);
    let mut i: usize = 0;
    while i < graph.nodes.len()
        invariant
            v == graph@,
            c == texts_view(completed@),
            i <= graph.nodes@.len(),
            forall|j: int| 0 <= j < i ==> !(#[trigger] v.nodes[j].group == Some(group@) && c.contains(v.nodes[j].id)),
        decreases graph.nodes@.len() - i,
    {
        let candidate = &graph.nodes[i];
        assert(v.nodes[i as int] == candidate@);
        let in_group = match &candidate.exclusive_group {
            Some(g) => str_eq(g.as_str(), group),
            None => false,
        };
        if in_group && contains_text(completed, candidate.id.as_str()) {
            assert(v.nodes[i as int].group == Some(group@));
            return true;
        }
        i = i + 1;
    }
    false
}

/// Whether every prerequisite of `node_id` is met by the completed nodes.
pub fn quest_graph_node_ready(graph: &QuestConditionGraph, node_id: &str, completed: &[String]) -> (r: bool)
    ensures
        r == spec_node_ready(graph@, node_id@, texts_view(completed@)),
{
    let ghost v = graph@;
    let ghost c = texts_view(completed@);
    let mut i: usize = 0;
    while i < graph.edges.len()
        invariant
            v == graph@,
            c == texts_view(completed@),
            i <= graph.edges@.len(),
            forall|j: int| 0 <= j < i && #[trigger] v.edges[j].to == node_id@ ==> incoming_edge_ok(v, v.edges[j], c),
        decreases graph.edges@.len() - i,
    {
        let edge = &graph.edges[i];
        assert(v.edges[i as int] == edge@);
        if str_eq(edge.to.as_str(), node_id) {
            match find_node(graph, edge.from.as_str()) {
                None => {
                    assert(v.edges[i as int].to == node_id@);
                    assert(!incoming_edge_ok(v, v.edges[i as int], c));
                    assert(!spec_node_ready(v, node_id@, c));
                    return false;
                },
                Some(k) => {
                    let source = &graph.nodes[k];
                    assert(v.nodes[k as int] == source@);
                    if !source.optional {
                        match &source.exclusive_group {
                            Some(group) => {
                                if !group_completed(graph, group.as_str(), completed) {
                                    assert(v.nodes[k as int].group == Some(group@));
                                    assert(v.edges[i as int].to == node_id@);
                    assert(!incoming_edge_ok(v, v.edges[i as int], c));
                    assert(!spec_node_ready(v, node_id@, c));
                                    return false;
                                }
                            },
                            None => {
                                if !contains_text(completed, source.id.as_str()) {
                                    assert(v.edges[i as int].to == node_id@);
                    assert(!incoming_edge_ok(v, v.edges[i as int], c));
                    assert(!spec_node_ready(v, node_id@, c));
                                    return false;
                                }
                            },
                        }
                    }
                },
            }
        }
        i = i + 1;
    }
    true
}

/// Whether a node of the route is satisfied by the completed nodes.
pub fn quest_route_node_satisfied(graph: &QuestConditionGraph, node: &QuestConditionNode, completed: &[String]) -> (r: bool)
    ensures
        r == spec_route_node_satisfied(graph@, node@, texts_view(completed@)),
{
    if contains_text(completed, node.id.as_str()) || node.optional {
        return true;
    }
    match &node.exclusive_group {
        Some(group) => group_completed(graph, group.as_str(), completed),
        None => false,
    }
}

/// Progress never goes backwards: completing more nodes never makes a
/// ready node unready, nor a satisfied route node unsatisfied.
pub proof fn lemma_readiness_is_monotone(
    g: ConditionGraphView,
    node_id: Seq<char>,
    node: ConditionNodeView,
    fewer: Seq<Seq<char>>,
    more: Seq<Seq<char>>,
)
    requires
        forall|x: Seq<char>| fewer.contains(x) ==> more.contains(x),
    ensures
        spec_node_ready(g, node_id, fewer) ==> spec_node_ready(g, node_id, more),
        spec_route_node_satisfied(g, node, fewer) ==> spec_route_node_satisfied(g, node, more),
{
    assert forall|group: Seq<char>| group_done(g, group, fewer) implies group_done(g, group, more) by {
        let i = choose|i: int| 0 <= i < g.nodes.len() && #[trigger] g.nodes[i].group == Some(group) && fewer.contains(g.nodes[i].id);
        assert(more.contains(g.nodes[i].id));
    }
    if spec_node_ready(g, node_id, fewer) {
        assert forall|i: int| 0 <= i < g.edges.len() && #[trigger] g.edges[i].to == node_id implies incoming_edge_ok(g, g.edges[i], more) by {
            assert(incoming_edge_ok(g, g.edges[i], fewer));
        }
    }
}

} // verus!
