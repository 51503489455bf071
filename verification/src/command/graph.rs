//! The directed graph that holds the scopes, and walks through it.
//!
//! The graph is petgraph's. Nothing in this file is proved: each function
//! makes one call into petgraph, and its contract says what petgraph's
//! source shows of that call.

use petgraph::graph::{Graph, NodeIndex};
use petgraph::visit::{Dfs, Visitable};
use petgraph::Directed;
use vstd::prelude::*;

verus! {

/// petgraph's `Graph`. What it holds goes by the names [`graph_node_count`]
/// and [`graph_edges`].
#[verifier::external_type_specification]
#[verifier::external_body]
#[verifier::reject_recursive_types(N)]
#[verifier::reject_recursive_types(E)]
#[verifier::reject_recursive_types(Ty)]
#[verifier::reject_recursive_types(Ix)]
pub struct ExGraph<N, E, Ty, Ix>(Graph<N, E, Ty, Ix>);

/// petgraph's marker for graphs whose edges have a direction.
#[verifier::external_type_specification]
#[verifier::external_body]
pub struct ExDirected(Directed);

/// The number of nodes of a graph. Nodes are numbered from zero without
/// gaps.
pub uninterp spec fn graph_node_count(graph: Graph<String, (), Directed, u32>) -> nat;

/// The edges of a graph, each as the pair of the node it leaves and the
/// node it enters, in the order in which the graph stores them.
pub uninterp spec fn graph_edges(graph: Graph<String, (), Directed, u32>) -> Seq<(int, int)>;

/// `Graph::new`: a graph without nodes and edges.
#[verifier::external_body]
pub(crate) fn graph_new() -> (graph: Graph<String, (), Directed, u32>)
    ensures
        graph_node_count(graph) == 0,
        graph_edges(graph) == Seq::<(int, int)>::empty(),
{
    Graph::new()
}

/// `Graph::node_count`.
#[verifier::external_body]
pub(crate) fn graph_count_nodes(graph: &Graph<String, (), Directed, u32>) -> (count: usize)
    ensures
        count == graph_node_count(*graph),
{
    graph.node_count()
}

/// `Graph::edge_count`.
#[verifier::external_body]
pub(crate) fn graph_count_edges(graph: &Graph<String, (), Directed, u32>) -> (count: usize)
    ensures
        count == graph_edges(*graph).len(),
{
    graph.edge_count()
}

/// `Graph::add_node`: the new node takes the next number. petgraph panics
/// where that number is the highest that 32 bits hold, so such a graph is
/// left out.
#[verifier::external_body]
pub(crate) fn graph_add_node(graph: &mut Graph<String, (), Directed, u32>, label: String) -> (node:
    usize)
    requires
        graph_node_count(*old(graph)) < u32::MAX,
    ensures
        node == graph_node_count(*old(graph)),
        graph_node_count(*final(graph)) == graph_node_count(*old(graph)) + 1,
        graph_edges(*final(graph)) == graph_edges(*old(graph)),
{
    graph.add_node(label).index()
}

/// `Graph::add_edge`: the new edge comes last. petgraph panics where one
/// of the nodes does not exist or the graph has as many edges as 32 bits
/// count, so such calls are left out.
#[verifier::external_body]
pub(crate) fn graph_add_edge(graph: &mut Graph<String, (), Directed, u32>, from: usize, to: usize)
    requires
        from < graph_node_count(*old(graph)),
        to < graph_node_count(*old(graph)),
        graph_edges(*old(graph)).len() < u32::MAX,
    ensures
        graph_node_count(*final(graph)) == graph_node_count(*old(graph)),
        graph_edges(*final(graph)) == graph_edges(*old(graph)).push((from as int, to as int)),
{
    graph.add_edge(NodeIndex::new(from), NodeIndex::new(to), ());
}

/// Where an edge ends up when node `removed` leaves a graph whose last
/// node is `last`: the last node takes the number of the removed one.
pub open spec fn renumbered(node: int, removed: int, last: int) -> int {
    if node == last {
        removed
    } else {
        node
    }
}

/// `Graph::remove_node`: where the node exists, it leaves the graph with
/// every edge that touches it, and the last node of the graph takes its
/// number; the edges that stay may change their order. Where the node does
/// not exist, nothing changes.
#[verifier::external_body]
pub(crate) fn graph_remove_node(graph: &mut Graph<String, (), Directed, u32>, node: usize) -> (removed:
    bool)
    requires
        node <= u32::MAX,
    ensures
        removed == (node < graph_node_count(*old(graph))),
        !removed ==> graph_node_count(*final(graph)) == graph_node_count(*old(graph))
            && graph_edges(*final(graph)) == graph_edges(*old(graph)),
        removed ==> graph_node_count(*final(graph)) == graph_node_count(*old(graph)) - 1,
        removed ==> graph_edges(*final(graph)).len() <= graph_edges(*old(graph)).len(),
        removed ==> forall|from: int, to: int|
            #![trigger graph_edges(*final(graph)).contains((from, to))]
            graph_edges(*final(graph)).contains((from, to)) <==> exists|a: int, b: int|
                {
                    &&& #[trigger] graph_edges(*old(graph)).contains((a, b))
                    &&& a != node
                    &&& b != node
                    &&& from == renumbered(a, node as int, graph_node_count(*old(graph)) - 1)
                    &&& to == renumbered(b, node as int, graph_node_count(*old(graph)) - 1)
                },
{
    graph.remove_node(NodeIndex::new(node)).is_some()
}

/// A depth-first walk through a graph of scopes: petgraph's `Dfs`, with a
/// stack of nodes to look at and a set of nodes handed out. What it holds
/// goes by the names [`walk_stack`], [`walk_discovered`] and
/// [`walk_capacity`].
#[verifier::external_body]
pub struct ScopeWalk {
    dfs: Dfs<NodeIndex<u32>, <Graph<String, (), Directed, u32> as Visitable>::Map>,
}

/// The nodes that a walk has still to look at, the next one last.
pub uninterp spec fn walk_stack(walk: ScopeWalk) -> Seq<int>;

/// The nodes that a walk has handed out.
pub uninterp spec fn walk_discovered(walk: ScopeWalk) -> Set<int>;

/// The number of nodes that a walk can mark: those of the graph it began
/// on.
pub uninterp spec fn walk_capacity(walk: ScopeWalk) -> nat;

/// `Dfs::new`: a walk that has handed out nothing and has `start` to look
/// at. It can mark as many nodes as the graph has now.
#[verifier::external_body]
pub(crate) fn walk_new(graph: &Graph<String, (), Directed, u32>, start: usize) -> (walk: ScopeWalk)
    requires
        start <= u32::MAX,
    ensures
        walk_stack(walk) == seq![start as int],
        walk_discovered(walk) == Set::<int>::empty(),
        walk_capacity(walk) == graph_node_count(*graph),
{
    ScopeWalk { dfs: Dfs::new(graph, NodeIndex::new(start)) }
}

/// `Dfs::next`: takes nodes off the stack until one comes that was not
/// handed out before; marks it, puts on the stack every node that an edge
/// from it leads to and that is not marked, and hands it out. Hands out
/// nothing once the stack is used up. petgraph panics on marking a node
/// beyond those that the walk can mark, so the stack and the edges of the
/// graph must stay below that number.
#[verifier::external_body]
pub(crate) fn walk_next(walk: &mut ScopeWalk, graph: &Graph<String, (), Directed, u32>) -> (node:
    Option<usize>)
    requires
        forall|i: int|
            0 <= i < walk_stack(*old(walk)).len() ==> 0 <= #[trigger] walk_stack(*old(walk))[i]
                < walk_capacity(*old(walk)),
        forall|from: int, to: int|
            #[trigger] graph_edges(*graph).contains((from, to)) ==> 0 <= to < walk_capacity(
                *old(walk),
            ),
    ensures
        walk_capacity(*final(walk)) == walk_capacity(*old(walk)),
        match node {
            Some(node) => exists|at: int, pushed: Seq<int>|
                {
                    &&& 0 <= at < walk_stack(*old(walk)).len()
                    &&& walk_stack(*old(walk))[at] == node
                    &&& !walk_discovered(*old(walk)).contains(node as int)
                    &&& forall|i: int|
                        at < i < walk_stack(*old(walk)).len() ==> walk_discovered(
                            *old(walk),
                        ).contains(#[trigger] walk_stack(*old(walk))[i])
                    &&& walk_discovered(*final(walk)) == walk_discovered(*old(walk)).insert(
                        node as int,
                    )
                    &&& #[trigger] (walk_stack(*old(walk)).take(at) + pushed) == walk_stack(
                        *final(walk),
                    )
                    &&& forall|to: int|
                        #[trigger] pushed.contains(to) <==> graph_edges(*graph).contains(
                            (node as int, to),
                        ) && !walk_discovered(*final(walk)).contains(to)
                },
            None => {
                &&& walk_stack(*final(walk)) == Seq::<int>::empty()
                &&& walk_discovered(*final(walk)) == walk_discovered(*old(walk))
                &&& forall|i: int|
                    0 <= i < walk_stack(*old(walk)).len() ==> walk_discovered(
                        *old(walk),
                    ).contains(#[trigger] walk_stack(*old(walk))[i])
            },
        },
{
    match walk.dfs.next(graph) {
        Some(node) => Some(node.index()),
        None => None,
    }
}

} // verus!
