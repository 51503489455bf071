//! Which nodes of a graph can be reached from which.

use petgraph::graph::Graph;
use petgraph::Directed;
use vstd::prelude::*;
use vstd::set_lib::set_int_range;

use crate::command::graph::{
    graph_count_nodes,
    graph_edges,
    graph_node_count,
    walk_capacity,
    walk_discovered,
    walk_new,
    walk_next,
    walk_stack,
    ScopeWalk,
};

verus! {

/// An edge leads from the node at position `i` of `path` to the next.
pub open spec fn steps_at(edges: Seq<(int, int)>, path: Seq<int>, i: int) -> bool {
    edges.contains((path[i], path[i + 1]))
}

/// A sequence of nodes, at least one, in which an edge leads from each to
/// the next.
pub open spec fn is_path(edges: Seq<(int, int)>, path: Seq<int>) -> bool {
    &&& path.len() >= 1
    &&& forall|i: int| 0 <= i < path.len() - 1 ==> #[trigger] steps_at(edges, path, i)
}

/// A path leads from `from` to `to`. Every node is reachable from itself.
pub open spec fn reachable(edges: Seq<(int, int)>, from: int, to: int) -> bool {
    exists|path: Seq<int>| #[trigger] is_path(edges, path) && path[0] == from && path.last() == to
}

/// Every edge leads from a node of the graph to a node of the graph.
pub open spec fn edges_in_range(edges: Seq<(int, int)>, nodes: nat) -> bool {
    forall|from: int, to: int| #[trigger]
        edges.contains((from, to)) ==> 0 <= from < nodes && 0 <= to < nodes
}

/// A path that touches none of the nodes in `marked`.
pub open spec fn is_clear_path(edges: Seq<(int, int)>, marked: Set<int>, path: Seq<int>) -> bool {
    &&& is_path(edges, path)
    &&& forall|i: int| 0 <= i < path.len() ==> !marked.contains(#[trigger] path[i])
}

/// A path clear of marked nodes leads to `node` from a node on the stack.
pub open spec fn has_clear_path(
    edges: Seq<(int, int)>,
    stack: Seq<int>,
    marked: Set<int>,
    node: int,
) -> bool {
    exists|i: int, path: Seq<int>|
        0 <= i < stack.len() && #[trigger] is_clear_path(edges, marked, path) && path[0]
            == #[trigger] stack[i] && path.last() == node
}

/// All that a walk from `start` has marked or has still to look at is
/// reachable from `start`.
pub open spec fn walk_is_sound(
    edges: Seq<(int, int)>,
    start: int,
    stack: Seq<int>,
    marked: Set<int>,
) -> bool {
    &&& forall|i: int| 0 <= i < stack.len() ==> reachable(edges, start, #[trigger] stack[i])
    &&& forall|node: int| #[trigger] marked.contains(node) ==> reachable(edges, start, node)
}

/// Every node reachable from `start` is marked, or lies on a path, clear
/// of marked nodes, from a node that the walk has still to look at.
pub open spec fn walk_is_complete(
    edges: Seq<(int, int)>,
    start: int,
    stack: Seq<int>,
    marked: Set<int>,
) -> bool {
    forall|node: int|
        reachable(edges, start, node) ==> marked.contains(node) || #[trigger] has_clear_path(
            edges,
            stack,
            marked,
            node,
        )
}

/// What holds between the steps of a walk that began at `start`.
pub open spec fn walk_covers(
    edges: Seq<(int, int)>,
    start: int,
    stack: Seq<int>,
    marked: Set<int>,
) -> bool {
    walk_is_sound(edges, start, stack, marked) && walk_is_complete(edges, start, stack, marked)
}

/// A path can be followed by an edge.
pub proof fn lemma_reachable_step(edges: Seq<(int, int)>, from: int, via: int, to: int)
    requires
        reachable(edges, from, via),
        edges.contains((via, to)),
    ensures
        reachable(edges, from, to),
{
    let path = choose|path: Seq<int>| #[trigger]
        is_path(edges, path) && path[0] == from && path.last() == via;
    let longer = path.push(to);
    assert forall|i: int| 0 <= i < longer.len() - 1 implies #[trigger] steps_at(
        edges,
        longer,
        i,
    ) by {
        if i < path.len() - 1 {
            assert(steps_at(edges, path, i));
            assert(longer[i] == path[i]);
            assert(longer[i + 1] == path[i + 1]);
        }
    }
    assert(is_path(edges, longer));
    assert(longer[0] == from);
}

/// Every node is reachable from itself.
pub proof fn lemma_reachable_self(edges: Seq<(int, int)>, node: int)
    ensures
        reachable(edges, node, node),
{
    let path = seq![node];
    assert(is_path(edges, path));
    assert(path[0] == node && path.last() == node);
}

/// A walk that has just begun covers what is reachable from its start.
pub proof fn lemma_walk_begins(edges: Seq<(int, int)>, start: int)
    ensures
        walk_covers(edges, start, seq![start], Set::<int>::empty()),
{
    lemma_reachable_self(edges, start);
    let stack = seq![start];
    let marked = Set::<int>::empty();
    assert forall|node: int| reachable(edges, start, node) implies marked.contains(node)
        || #[trigger] has_clear_path(edges, stack, marked, node) by {
        let path = choose|path: Seq<int>| #[trigger]
            is_path(edges, path) && path[0] == start && path.last() == node;
        assert(is_clear_path(edges, marked, path));
        assert(stack[0] == start);
    }
}

/// The part of a path from position `from` on is a path.
proof fn lemma_path_suffix(edges: Seq<(int, int)>, path: Seq<int>, from: int)
    requires
        is_path(edges, path),
        0 <= from < path.len(),
    ensures
        is_path(edges, path.skip(from)),
        path.skip(from)[0] == path[from],
        path.skip(from).last() == path.last(),
{
    let rest = path.skip(from);
    assert forall|i: int| 0 <= i < rest.len() - 1 implies #[trigger] steps_at(edges, rest, i) by {
        assert(steps_at(edges, path, from + i));
        assert(rest[i] == path[from + i]);
        assert(rest[i + 1] == path[from + i + 1]);
    }
}

/// The last position at which `node` occurs in `path`, given that it
/// occurs at or before `upto`.
proof fn lemma_last_occurrence(path: Seq<int>, node: int, upto: int) -> (last: int)
    requires
        0 <= upto < path.len(),
        exists|i: int| 0 <= i <= upto && path[i] == node,
    ensures
        0 <= last <= upto,
        path[last] == node,
        forall|i: int| last < i <= upto ==> path[i] != node,
    decreases upto,
{
    if path[upto] == node {
        upto
    } else {
        let i = choose|i: int| 0 <= i <= upto && path[i] == node;
        assert(i <= upto - 1);
        lemma_last_occurrence(path, node, upto - 1)
    }
}

/// A node that had a clear path from the stack before a step of the walk
/// is marked by the step or has a clear path from the stack after it.
proof fn lemma_clear_path_survives(
    edges: Seq<(int, int)>,
    stack: Seq<int>,
    marked: Set<int>,
    node: int,
    at: int,
    pushed: Seq<int>,
    target: int,
)
    requires
        0 <= at < stack.len(),
        stack[at] == node,
        forall|i: int| at < i < stack.len() ==> marked.contains(#[trigger] stack[i]),
        forall|to: int| #[trigger]
            pushed.contains(to) <==> edges.contains((node, to)) && !marked.insert(node).contains(
                to,
            ),
        has_clear_path(edges, stack, marked, target),
        target != node,
    ensures
        has_clear_path(edges, stack.take(at) + pushed, marked.insert(node), target),
{
    let new_stack = stack.take(at) + pushed;
    let new_marked = marked.insert(node);
    let (i, path) = choose|i: int, path: Seq<int>|
        0 <= i < stack.len() && #[trigger] is_clear_path(edges, marked, path) && path[0]
            == #[trigger] stack[i] && path.last() == target;
    assert(!marked.contains(path[0]));
    assert(i <= at);
    if exists|k: int| 0 <= k <= path.len() - 1 && path[k] == node {
        let last = lemma_last_occurrence(path, node, path.len() - 1);
        assert(last < path.len() - 1);
        lemma_path_suffix(edges, path, last + 1);
        let rest = path.skip(last + 1);
        let to = path[last + 1];
        assert(steps_at(edges, path, last));
        assert(to != node);
        assert(!marked.contains(to));
        assert(pushed.contains(to));
        let j = choose|j: int| 0 <= j < pushed.len() && pushed[j] == to;
        assert(new_stack[at + j] == to);
        assert forall|k: int| 0 <= k < rest.len() implies !new_marked.contains(
            #[trigger] rest[k],
        ) by {
            assert(rest[k] == path[last + 1 + k]);
            assert(!marked.contains(path[last + 1 + k]));
        }
        assert(is_clear_path(edges, new_marked, rest));
        assert(rest[0] == new_stack[at + j]);
    } else {
        assert(path[0] != node);
        assert(i < at);
        assert(new_stack[i] == stack[i]);
        assert forall|k: int| 0 <= k < path.len() implies !new_marked.contains(
            #[trigger] path[k],
        ) by {
            assert(path[k] != node);
            assert(!marked.contains(path[k]));
        }
        assert(is_clear_path(edges, new_marked, path));
        assert(path[0] == new_stack[i]);
    }
}

/// One step of a walk keeps what holds between its steps: the node handed
/// out is marked, what lay above it on the stack was marked before, and
/// the unmarked nodes that its edges lead to come onto the stack.
pub proof fn lemma_walk_steps(
    edges: Seq<(int, int)>,
    start: int,
    stack: Seq<int>,
    marked: Set<int>,
    node: int,
    at: int,
    pushed: Seq<int>,
)
    requires
        walk_covers(edges, start, stack, marked),
        0 <= at < stack.len(),
        stack[at] == node,
        !marked.contains(node),
        forall|i: int| at < i < stack.len() ==> marked.contains(#[trigger] stack[i]),
        forall|to: int| #[trigger]
            pushed.contains(to) <==> edges.contains((node, to)) && !marked.insert(node).contains(
                to,
            ),
    ensures
        walk_covers(edges, start, stack.take(at) + pushed, marked.insert(node)),
{
    let new_stack = stack.take(at) + pushed;
    let new_marked = marked.insert(node);
    assert(reachable(edges, start, stack[at]));
    assert forall|i: int| 0 <= i < new_stack.len() implies reachable(
        edges,
        start,
        #[trigger] new_stack[i],
    ) by {
        if i < at {
            assert(new_stack[i] == stack[i]);
        } else {
            let to = pushed[i - at];
            assert(new_stack[i] == to);
            assert(pushed.contains(to));
            lemma_reachable_step(edges, start, node, to);
        }
    }
    assert forall|other: int| #[trigger] new_marked.contains(other) implies reachable(
        edges,
        start,
        other,
    ) by {
        if other != node {
            assert(marked.contains(other));
        }
    }
    assert forall|target: int| reachable(edges, start, target) implies new_marked.contains(target)
        || #[trigger] has_clear_path(edges, new_stack, new_marked, target) by {
        if !new_marked.contains(target) {
            assert(has_clear_path(edges, stack, marked, target));
            lemma_clear_path_survives(edges, stack, marked, node, at, pushed, target);
        }
    }
}

/// Once all of the stack of a walk is marked, every reachable node is
/// marked.
pub proof fn lemma_walk_is_done(
    edges: Seq<(int, int)>,
    start: int,
    stack: Seq<int>,
    marked: Set<int>,
    target: int,
)
    requires
        walk_covers(edges, start, stack, marked),
        forall|i: int| 0 <= i < stack.len() ==> marked.contains(#[trigger] stack[i]),
        reachable(edges, start, target),
    ensures
        marked.contains(target),
{
    if !marked.contains(target) {
        assert(has_clear_path(edges, stack, marked, target));
        let (i, path) = choose|i: int, path: Seq<int>|
            0 <= i < stack.len() && #[trigger] is_clear_path(edges, marked, path) && path[0]
                == #[trigger] stack[i] && path.last() == target;
        assert(!marked.contains(path[0]));
    }
}

/// What a step of a walk that hands out `node` leaves behind.
pub open spec fn is_step(
    edges: Seq<(int, int)>,
    stack: Seq<int>,
    marked: Set<int>,
    node: int,
    new_stack: Seq<int>,
    new_marked: Set<int>,
) -> bool {
    exists|at: int, pushed: Seq<int>|
        {
            &&& 0 <= at < stack.len()
            &&& stack[at] == node
            &&& !marked.contains(node)
            &&& forall|i: int| at < i < stack.len() ==> marked.contains(#[trigger] stack[i])
            &&& new_marked == marked.insert(node)
            &&& #[trigger] (stack.take(at) + pushed) == new_stack
            &&& forall|to: int| #[trigger]
                pushed.contains(to) <==> edges.contains((node, to)) && !new_marked.contains(to)
        }
}

/// A step of a walk keeps what holds between its steps, keeps the stack
/// within the graph, and marks one node more.
pub proof fn lemma_step_keeps_walk(
    edges: Seq<(int, int)>,
    nodes: nat,
    start: int,
    stack: Seq<int>,
    marked: Set<int>,
    node: int,
    new_stack: Seq<int>,
    new_marked: Set<int>,
)
    requires
        walk_covers(edges, start, stack, marked),
        edges_in_range(edges, nodes),
        forall|i: int| 0 <= i < stack.len() ==> 0 <= #[trigger] stack[i] < nodes,
        marked.finite(),
        marked.subset_of(set_int_range(0, nodes as int)),
        is_step(edges, stack, marked, node, new_stack, new_marked),
    ensures
        walk_covers(edges, start, new_stack, new_marked),
        forall|i: int| 0 <= i < new_stack.len() ==> 0 <= #[trigger] new_stack[i] < nodes,
        new_marked.finite(),
        new_marked.subset_of(set_int_range(0, nodes as int)),
        new_marked.len() == marked.len() + 1,
        new_marked.len() <= nodes,
        new_marked == marked.insert(node),
        reachable(edges, start, node),
{
    let (at, pushed) = choose|at: int, pushed: Seq<int>|
        {
            &&& 0 <= at < stack.len()
            &&& stack[at] == node
            &&& !marked.contains(node)
            &&& forall|i: int| at < i < stack.len() ==> marked.contains(#[trigger] stack[i])
            &&& new_marked == marked.insert(node)
            &&& #[trigger] (stack.take(at) + pushed) == new_stack
            &&& forall|to: int| #[trigger]
                pushed.contains(to) <==> edges.contains((node, to)) && !new_marked.contains(to)
        };
    lemma_walk_steps(edges, start, stack, marked, node, at, pushed);
    assert forall|i: int| 0 <= i < new_stack.len() implies 0 <= #[trigger] new_stack[i]
        < nodes by {
        if i < at {
            assert(new_stack[i] == stack[i]);
        } else {
            assert(new_stack[i] == pushed[i - at]);
            assert(pushed.contains(pushed[i - at]));
        }
    }
    assert(0 <= stack[at] < nodes);
    vstd::set_lib::lemma_int_range(0, nodes as int);
    vstd::set_lib::lemma_len_subset(new_marked, set_int_range(0, nodes as int));
    assert(reachable(edges, start, stack[at]));
}

/// Whether a path leads from `from` to `to` in the graph, found by a
/// depth-first walk.
pub fn reaches(graph: &Graph<String, (), Directed, u32>, from: usize, to: usize) -> (found: bool)
    requires
        edges_in_range(graph_edges(*graph), graph_node_count(*graph)),
        from < graph_node_count(*graph),
        graph_node_count(*graph) <= u32::MAX,
    ensures
        found == reachable(graph_edges(*graph), from as int, to as int),
{
    let nodes: usize = graph_count_nodes(graph);
    let mut walk: ScopeWalk = walk_new(graph, from);
    let ghost edges = graph_edges(*graph);
    proof {
        lemma_walk_begins(edges, from as int);
    }
    loop
        invariant
            edges == graph_edges(*graph),
            edges_in_range(edges, nodes as nat),
            nodes == graph_node_count(*graph),
            walk_capacity(walk) == nodes,
            walk_covers(edges, from as int, walk_stack(walk), walk_discovered(walk)),
            forall|i: int|
                0 <= i < walk_stack(walk).len() ==> 0 <= #[trigger] walk_stack(walk)[i] < nodes,
            walk_discovered(walk).finite(),
            walk_discovered(walk).subset_of(set_int_range(0, nodes as int)),
            !walk_discovered(walk).contains(to as int),
        decreases nodes - walk_discovered(walk).len(),
    {
        let ghost stack = walk_stack(walk);
        let ghost marked = walk_discovered(walk);
        match walk_next(&mut walk, graph) {
            None => {
                proof {
                    if reachable(edges, from as int, to as int) {
                        lemma_walk_is_done(edges, from as int, stack, marked, to as int);
                    }
                }
                return false;
            },
            Some(node) => {
                proof {
                    assert(is_step(
                        edges,
                        stack,
                        marked,
                        node as int,
                        walk_stack(walk),
                        walk_discovered(walk),
                    ));
                    lemma_step_keeps_walk(
                        edges,
                        nodes as nat,
                        from as int,
                        stack,
                        marked,
                        node as int,
                        walk_stack(walk),
                        walk_discovered(walk),
                    );
                }
                if node == to {
                    return true;
                }
            },
        }
    }
}

} // verus!
