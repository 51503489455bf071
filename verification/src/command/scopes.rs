//! Scope graph for commands.
//!
//! Each scope is a node in a graph. A path from one node to another says
//! that the first scope implies the second. A dot in the name of a scope
//! separates it from the scope above it: adding `kanden.command.tp` adds
//! `kanden`, `kanden.command` and `kanden.command.tp`, each with an edge from
//! the one before, so that a player with the scope `kanden.command` can use
//! what asks for `kanden.command.tp`. Scopes can also be linked by hand: an
//! edge from `kanden.admin` to `kanden.command` gives the admin all commands.

use petgraph::graph::Graph;
use petgraph::Directed;
use vstd::hash_map::StringHashMap;
use vstd::hash_set::StringHashSet;
use vstd::prelude::*;
use vstd::string::{StrSliceExecFns, StringExecFns};

use crate::command::graph::{
    graph_add_edge,
    graph_add_node,
    graph_count_edges,
    graph_count_nodes,
    graph_edges,
    graph_new,
    graph_node_count,
    graph_remove_node,
    renumbered,
};
use crate::command::reach::{edges_in_range, reachable, reaches};

verus! {

/// The scopes that a player has. A player with a scope can use every
/// command that asks for that scope or for one it implies.
pub struct CommandScopes(pub StringHashSet);

impl View for CommandScopes {
    type V = Set<Seq<char>>;

    open spec fn view(&self) -> Set<Seq<char>> {
        self.0@
    }
}

impl CommandScopes {
    /// No scope at all.
    pub fn new() -> (scopes: CommandScopes)
        ensures
            scopes@ == Set::<Seq<char>>::empty(),
    {
        CommandScopes(StringHashSet::new())
    }

    /// Adds a scope.
    pub fn add(&mut self, scope: &str)
        ensures
            final(self)@ == old(self)@.insert(scope@),
    {
        let _ = self.0.insert(String::from_str(scope));
    }

    /// Whether the player has exactly this scope.
    pub fn contains(&self, scope: &str) -> (b: bool)
        ensures
            b == self@.contains(scope@),
    {
        self.0.contains(scope)
    }
}

/// What a [`CommandScopeRegistry`] stands for in contracts.
pub struct ScopeModel {
    /// The number of nodes of the graph; they are numbered from zero.
    pub nodes: nat,
    /// The edges of the graph.
    pub edges: Seq<(int, int)>,
    /// The node of every scope that has a name.
    pub names: Map<Seq<char>, usize>,
    /// The node that implies every scope.
    pub root: int,
}

impl ScopeModel {
    /// Every edge leads from a node of the graph to a node of the graph,
    /// and nodes and edges can be counted in 32 bits.
    pub open spec fn is_sound(self) -> bool {
        &&& self.nodes <= u32::MAX
        &&& self.edges.len() <= u32::MAX
        &&& edges_in_range(self.edges, self.nodes)
    }

    /// The graph is sound, and every name and the root stand for a node of
    /// it, no two names for the same.
    pub open spec fn is_live(self) -> bool {
        &&& self.is_sound()
        &&& 0 <= self.root < self.nodes
        &&& forall|name: Seq<char>| #[trigger]
            self.names.contains_key(name) ==> self.names[name] < self.nodes
        &&& forall|one: Seq<char>, other: Seq<char>|
            #![trigger self.names[one], self.names[other]]
            self.names.contains_key(one) && self.names.contains_key(other) && one != other
                ==> self.names[one] != self.names[other]
    }

    /// The registry with one more node, named `key` and entered by an edge
    /// from `current`; unchanged where `key` is known.
    pub open spec fn entered(self, key: Seq<char>, current: int) -> ScopeModel {
        if self.names.contains_key(key) {
            self
        } else {
            ScopeModel {
                nodes: self.nodes + 1,
                edges: self.edges.push((current, self.nodes as int)),
                names: self.names.insert(key, self.nodes as usize),
                root: self.root,
            }
        }
    }

    /// The node that `key` has once it is entered.
    pub open spec fn node_of(self, key: Seq<char>) -> int {
        if self.names.contains_key(key) {
            self.names[key] as int
        } else {
            self.nodes as int
        }
    }

    /// The registry after entering, one below the other, every part of
    /// `scope` that ends at or after position `pos`; `current` is the node
    /// of the part before.
    pub open spec fn with_prefixes(self, scope: Seq<char>, pos: int, current: int) -> ScopeModel
        decreases scope.len() + 1 - pos,
    {
        if pos < 0 || pos > scope.len() {
            self
        } else if pos == scope.len() || scope[pos] == '.' {
            self.entered(scope.take(pos), current).with_prefixes(
                scope,
                pos + 1,
                self.node_of(scope.take(pos)),
            )
        } else {
            self.with_prefixes(scope, pos + 1, current)
        }
    }

    /// The registry after adding `scope`: unchanged where the scope is
    /// known, otherwise with every part of it entered below the root.
    pub open spec fn with_scope(self, scope: Seq<char>) -> ScopeModel {
        if self.names.contains_key(scope) {
            self
        } else {
            self.with_prefixes(scope, 0, self.root)
        }
    }

    /// The registry after linking `scope` to `other`: with both added, and
    /// an edge from the first to the second.
    pub open spec fn linked(self, scope: Seq<char>, other: Seq<char>) -> ScopeModel {
        let both = self.with_scope(scope).with_scope(other);
        ScopeModel {
            edges: both.edges.push((both.names[scope] as int, both.names[other] as int)),
            ..both
        }
    }

    /// Whether `scope` grants `other`: a scope grants itself; of two known
    /// scopes the first grants the second where it is the root or a path
    /// leads from it to the second.
    pub open spec fn grants(self, scope: Seq<char>, other: Seq<char>) -> bool {
        scope == other || (self.names.contains_key(scope) && self.names.contains_key(other) && (
        self.names[scope] == self.root || reachable(
            self.edges,
            self.names[scope] as int,
            self.names[other] as int,
        )))
    }

    /// The registry after the node of `scope` left the graph: the name is
    /// forgotten, the edges of the node are gone, and the last node of the
    /// graph has taken its number. Names keep the numbers they had.
    pub open spec fn is_without(self, scope: Seq<char>, before: ScopeModel) -> bool {
        let node = before.names[scope] as int;
        &&& self.names == before.names.remove(scope)
        &&& self.root == before.root
        &&& if before.names.contains_key(scope) && node < before.nodes {
            &&& self.nodes == before.nodes - 1
            &&& self.edges.len() <= before.edges.len()
            &&& forall|from: int, to: int|
                #![trigger self.edges.contains((from, to))]
                self.edges.contains((from, to)) <==> exists|a: int, b: int|
                    {
                        &&& #[trigger] before.edges.contains((a, b))
                        &&& a != node
                        &&& b != node
                        &&& from == renumbered(a, node, before.nodes - 1)
                        &&& to == renumbered(b, node, before.nodes - 1)
                    }
        } else {
            self.nodes == before.nodes && self.edges == before.edges
        }
    }
}

/// Stores the scope graph and answers questions about it.
pub struct CommandScopeRegistry {
    graph: Graph<String, (), Directed, u32>,
    string_to_node: StringHashMap<usize>,
    root: usize,
}

impl View for CommandScopeRegistry {
    type V = ScopeModel;

    closed spec fn view(&self) -> ScopeModel {
        ScopeModel {
            nodes: graph_node_count(self.graph),
            edges: graph_edges(self.graph),
            names: self.string_to_node@,
            root: self.root as int,
        }
    }
}

impl CommandScopeRegistry {
    /// A registry that knows the scope `root` and nothing else.
    pub fn new() -> (registry: CommandScopeRegistry)
        ensures
            registry@.nodes == 1,
            registry@.edges == Seq::<(int, int)>::empty(),
            registry@.names == Map::<Seq<char>, usize>::empty().insert("root"@, 0usize),
            registry@.root == 0,
            registry@.is_live(),
    {
        let mut graph: Graph<String, (), Directed, u32> = graph_new();
        let root: usize = graph_add_node(&mut graph, String::from_str("root"));
        let mut string_to_node: StringHashMap<usize> = StringHashMap::new();
        string_to_node.insert(String::from_str("root"), root);
        CommandScopeRegistry { graph, string_to_node, root }
    }

    /// Whether the scope is known by name.
    pub fn has_scope(&self, scope: &str) -> (known: bool)
        ensures
            known == self@.names.contains_key(scope@),
    {
        self.string_to_node.contains_key(scope)
    }

    /// Enters `key` below `current`: where the name is new, a node comes
    /// into the graph with an edge from `current`. Hands back the node of the
    /// name.
    fn enter(&mut self, key: &str, label: &str, current: usize) -> (node: usize)
        requires
            old(self)@.is_live(),
            current < old(self)@.nodes,
            old(self)@.nodes < u32::MAX,
            old(self)@.edges.len() < u32::MAX,
        ensures
            final(self)@ == old(self)@.entered(key@, current as int),
            node == old(self)@.node_of(key@),
            final(self)@.is_live(),
            node < final(self)@.nodes,
    {
        match self.string_to_node.get(key) {
            Some(node) => *node,
            None => {
                let node: usize = graph_add_node(&mut self.graph, String::from_str(label));
                graph_add_edge(&mut self.graph, current, node);
                self.string_to_node.insert(String::from_str(key), node);
                proof {
                    let before = old(self)@;
                    let after = self@;
                    assert(after.edges == before.edges.push((current as int, node as int)));
                    assert forall|from: int, to: int| #[trigger]
                        after.edges.contains((from, to)) implies 0 <= from < after.nodes && 0
                        <= to < after.nodes by {
                        let i = choose|i: int|
                            0 <= i < after.edges.len() && after.edges[i] == (from, to);
                        if i < before.edges.len() {
                            assert(before.edges[i] == (from, to));
                            assert(before.edges.contains((from, to)));
                        }
                    }
                    assert(after.names == before.names.insert(key@, node));
                    assert forall|name: Seq<char>| #[trigger]
                        after.names.contains_key(name) implies after.names[name] < after.nodes by {
                        if name != key@ {
                            assert(before.names.contains_key(name));
                        }
                    }
                    assert forall|one: Seq<char>, other: Seq<char>|
                        #![trigger after.names[one], after.names[other]]
                        after.names.contains_key(one) && after.names.contains_key(other) && one
                            != other implies after.names[one] != after.names[other] by {
                        if one != key@ {
                            assert(before.names.contains_key(one));
                        }
                        if other != key@ {
                            assert(before.names.contains_key(other));
                        }
                    }
                }
                node
            },
        }
    }

    /// Adds a scope to the registry, with every scope above it. A scope
    /// that is known already changes nothing.
    pub fn add_scope(&mut self, scope: &str)
        requires
            old(self)@.is_live(),
            old(self)@.nodes + scope@.len() + 1 <= u32::MAX,
            old(self)@.edges.len() + scope@.len() + 1 <= u32::MAX,
        ensures
            final(self)@ == old(self)@.with_scope(scope@),
            final(self)@.is_live(),
            final(self)@.names.contains_key(scope@),
            final(self)@.nodes <= old(self)@.nodes + scope@.len() + 1,
            final(self)@.edges.len() <= old(self)@.edges.len() + scope@.len() + 1,
            forall|name: Seq<char>| #[trigger]
                old(self)@.names.contains_key(name) ==> final(self)@.names.contains_key(name)
                    && final(self)@.names[name] == old(self)@.names[name],
    {
        if self.string_to_node.contains_key(scope) {
            return ;
        }
        let len: usize = scope.unicode_len();
        let mut current: usize = self.root;
        let mut start: usize = 0;
        let mut pos: usize = 0;
        while pos <= len
            invariant
                len == scope@.len(),
                old(self)@.nodes + len + 1 <= u32::MAX,
                old(self)@.edges.len() + len + 1 <= u32::MAX,
                0 <= start <= pos <= len + 1,
                self@.is_live(),
                current < self@.nodes,
                self@.nodes <= old(self)@.nodes + pos,
                self@.edges.len() <= old(self)@.edges.len() + pos,
                self@.with_prefixes(scope@, pos as int, current as int) == old(self)@.with_prefixes(scope@, 0, old(self)@.root),
                forall|name: Seq<char>| #[trigger]
                    old(self)@.names.contains_key(name) ==> self@.names.contains_key(name)
                        && self@.names[name] == old(self)@.names[name],
                pos == len + 1 ==> self@.names.contains_key(scope@),
            decreases len + 1 - pos,
        {
            let at_end: bool = pos == len;
            if at_end || scope.get_char(pos) == '.' {
                let key: &str = scope.substring_char(0, pos);
                let label: &str = scope.substring_char(start, pos);
                assert(key@ == scope@.take(pos as int));
                let ghost before = self@;
                current = self.enter(key, label, current);
                proof {
                    if at_end {
                        assert(scope@.take(pos as int) =~= scope@);
                    }
                    assert forall|name: Seq<char>| #[trigger]
                        old(self)@.names.contains_key(name) implies self@.names.contains_key(name)
                        && self@.names[name] == old(self)@.names[name] by {
                        assert(before.names.contains_key(name));
                    }
                }
                start = pos + 1;
            }
            pos += 1;
        }
    }

    /// Removes a scope from the registry: its name, its node, and the
    /// edges of its node. The scopes below it stay.
    ///
    /// The last node of the graph takes the number of the node that left,
    /// and the names keep the numbers they had: unless the scope removed had
    /// the last node, the registry is not live afterwards.
    pub fn remove_scope(&mut self, scope: &str)
        requires
            old(self)@.is_sound(),
        ensures
            final(self)@.is_without(scope@, old(self)@),
            final(self)@.is_sound(),
            old(self)@.is_live() && old(self)@.names.contains_key(scope@) && old(self)@.names[scope@]
                == old(self)@.nodes - 1 && old(self)@.root != old(self)@.nodes - 1 ==> final(self)@.is_live(),
    {
        let found: Option<usize> = match self.string_to_node.get(scope) {
            Some(node) => Some(*node),
            None => None,
        };
        self.string_to_node.remove(scope);
        match found {
            None => {},
            Some(node) => {
                if node <= u32::MAX as usize {
                    let ghost before = old(self)@;
                    let _ = graph_remove_node(&mut self.graph, node);
                    proof {
                        let after = self@;
                        if node < before.nodes {
                            assert forall|from: int, to: int| #[trigger]
                                after.edges.contains((from, to)) implies 0 <= from < after.nodes
                                && 0 <= to < after.nodes by {
                                let (a, b) = choose|a: int, b: int|
                                    {
                                        &&& #[trigger] before.edges.contains((a, b))
                                        &&& a != node
                                        &&& b != node
                                        &&& from == renumbered(a, node as int, before.nodes - 1)
                                        &&& to == renumbered(b, node as int, before.nodes - 1)
                                    };
                            }
                        }
                    }
                }
            },
        }
    }

    /// Whether a scope grants another scope.
    pub fn grants(&self, scope: &str, other: &str) -> (granted: bool)
        requires
            self@.is_sound(),
        ensures
            granted == self@.grants(scope@, other@),
    {
        if String::from_str(scope) == String::from_str(other) {
            return true;
        }
        let scope_idx: usize = match self.string_to_node.get(scope) {
            None => {
                return false;
            },
            Some(idx) => *idx,
        };
        let other_idx: usize = match self.string_to_node.get(other) {
            None => {
                return false;
            },
            Some(idx) => *idx,
        };
        if scope_idx == self.root {
            return true;
        }
        if scope_idx == other_idx {
            proof {
                crate::command::reach::lemma_reachable_self(self@.edges, scope_idx as int);
            }
            return true;
        }
        if scope_idx >= graph_count_nodes(&self.graph) {
            proof {
                lemma_nothing_leaves_the_graph(
                    self@.edges,
                    self@.nodes,
                    scope_idx as int,
                    other_idx as int,
                );
            }
            return false;
        }
        reaches(&self.graph, scope_idx, other_idx)
    }

    /// Whether any of the scopes grants the other scope.
    pub fn any_grants(&self, scopes: &Vec<&str>, other: &str) -> (granted: bool)
        requires
            self@.is_sound(),
        ensures
            granted == exists|i: int|
                0 <= i < scopes@.len() && self@.grants((#[trigger] scopes@[i])@, other@),
    {
        let n: usize = scopes.len();
        let mut i: usize = 0;
        while i < n
            invariant
                i <= n,
                n == scopes@.len(),
                self@.is_sound(),
                forall|j: int| 0 <= j < i ==> !self@.grants((#[trigger] scopes@[j])@, other@),
            decreases n - i,
        {
            if self.grants(scopes[i], other) {
                return true;
            }
            i += 1;
        }
        false
    }

    /// Links two scopes so that the first implies the second. Scopes that
    /// are not known are added.
    pub fn link(&mut self, scope: &str, other: &str)
        requires
            old(self)@.is_live(),
            old(self)@.nodes + scope@.len() + other@.len() + 2 <= u32::MAX,
            old(self)@.edges.len() + scope@.len() + other@.len() + 3 <= u32::MAX,
        ensures
            final(self)@ == old(self)@.linked(scope@, other@),
            final(self)@.is_live(),
    {
        self.add_scope(scope);
        self.add_scope(other);
        let scope_idx: usize = match self.string_to_node.get(scope) {
            Some(idx) => *idx,
            None => 0,
        };
        let other_idx: usize = match self.string_to_node.get(other) {
            Some(idx) => *idx,
            None => 0,
        };
        let ghost before = self@;
        graph_add_edge(&mut self.graph, scope_idx, other_idx);
        proof {
            let after = self@;
            assert forall|from: int, to: int| #[trigger]
                after.edges.contains((from, to)) implies 0 <= from < after.nodes && 0 <= to
                < after.nodes by {
                let i = choose|i: int| 0 <= i < after.edges.len() && after.edges[i] == (from, to);
                if i < before.edges.len() {
                    assert(before.edges[i] == (from, to));
                    assert(before.edges.contains((from, to)));
                }
            }
        }
    }

    /// The number of scopes in the registry.
    pub fn scope_count(&self) -> (count: usize)
        ensures
            count == self@.nodes,
    {
        graph_count_nodes(&self.graph)
    }

    /// The number of edges between the scopes in the registry.
    pub fn edge_count(&self) -> (count: usize)
        ensures
            count == self@.edges.len(),
    {
        graph_count_edges(&self.graph)
    }
}

/// From a number that is no node of the graph, no path leads anywhere
/// else.
pub proof fn lemma_nothing_leaves_the_graph(edges: Seq<(int, int)>, nodes: nat, from: int, to: int)
    requires
        edges_in_range(edges, nodes),
        from >= nodes,
        from != to,
    ensures
        !reachable(edges, from, to),
{
    if reachable(edges, from, to) {
        let path = choose|path: Seq<int>| #[trigger]
            crate::command::reach::is_path(edges, path) && path[0] == from && path.last() == to;
        assert(path.len() >= 2);
        assert(crate::command::reach::steps_at(edges, path, 0));
        assert(edges.contains((path[0], path[1])));
    }
}

} // verus!
