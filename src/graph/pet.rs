//! The petgraph graph that stores the entity graph, and the algorithms run on it.
use vstd::prelude::*;
use petgraph::algo;
use petgraph::graph::{EdgeIndex, NodeIndex};
use petgraph::{Directed, Graph};
use std::hash::RandomState;
use crate::graph::node::{Node, Relation};
use crate::graph::walk::{
    has_cycle, is_scc_partition, is_simple_path, is_topological_order, on_cycle, EdgeView,
};

verus! {

#[verifier::external_type_specification]
#[verifier::external_body]
#[verifier::reject_recursive_types(N)]
#[verifier::reject_recursive_types(E)]
#[verifier::reject_recursive_types(Ty)]
#[verifier::reject_recursive_types(Ix)]
pub struct ExGraph<N, E, Ty, Ix>(Graph<N, E, Ty, Ix>);

#[verifier::external_type_specification]
#[verifier::external_body]
pub struct ExDirected(Directed);

/// The graph that stores nodes and edges; indices are `usize`, so adding never runs out
/// of indices.
pub type EntityGraph = Graph<Node, Relation, Directed, usize>;

/// The node weights of a graph, by node index.
pub uninterp spec fn pet_nodes(g: EntityGraph) -> Seq<Node>;

/// The edges of a graph, by edge index: source, target and weight.
pub uninterp spec fn pet_edges(g: EntityGraph) -> Seq<EdgeView>;

/// Relies on petgraph's `Graph::default`: a graph with no nodes and no edges.
#[verifier::external_body]
pub(crate) fn pet_new() -> (g: EntityGraph)
    ensures
        pet_nodes(g) == Seq::<Node>::empty(),
        pet_edges(g) == Seq::<EdgeView>::empty(),
{
    Graph::default()
}

/// Relies on petgraph's `Graph::add_node`: the weight is appended and its index is the
/// old node count (with `usize` indices there is no limit to check).
#[verifier::external_body]
pub(crate) fn pet_add_node(g: &mut EntityGraph, weight: Node) -> (r: usize)
    ensures
        r == pet_nodes(*old(g)).len(),
        pet_nodes(*final(g)) == pet_nodes(*old(g)).push(weight),
        pet_edges(*final(g)) == pet_edges(*old(g)),
{
    g.add_node(weight).index()
}

/// Relies on petgraph's `Graph::add_edge`: the edge is appended and its index is the old
/// edge count; it panics only on a missing endpoint.
#[verifier::external_body]
pub(crate) fn pet_add_edge(g: &mut EntityGraph, a: usize, b: usize, weight: Relation) -> (r: usize)
    requires
        a < pet_nodes(*old(g)).len(),
        b < pet_nodes(*old(g)).len(),
    ensures
        r == pet_edges(*old(g)).len(),
        pet_nodes(*final(g)) == pet_nodes(*old(g)),
        pet_edges(*final(g)) == pet_edges(*old(g)).push((a, b, weight)),
{
    g.add_edge(NodeIndex::new(a), NodeIndex::new(b), weight).index()
}

/// Relies on petgraph's `Graph::node_count`.
#[verifier::external_body]
pub(crate) fn pet_node_count(g: &EntityGraph) -> (r: usize)
    ensures
        r == pet_nodes(*g).len(),
{
    g.node_count()
}

/// Relies on petgraph's `Graph::edge_count`.
#[verifier::external_body]
pub(crate) fn pet_edge_count(g: &EntityGraph) -> (r: usize)
    ensures
        r == pet_edges(*g).len(),
{
    g.edge_count()
}

/// Relies on petgraph's `Graph::node_weight`: the weight of an existing node.
#[verifier::external_body]
pub(crate) fn pet_node_weight(g: &EntityGraph, i: usize) -> (r: Option<&Node>)
    ensures
        i < pet_nodes(*g).len() ==> r == Some(&pet_nodes(*g)[i as int]),
        i >= pet_nodes(*g).len() ==> r is None,
{
    g.node_weight(NodeIndex::new(i))
}

/// Relies on petgraph's `Graph::edge_endpoints`: source and target of an existing edge.
#[verifier::external_body]
pub(crate) fn pet_edge_endpoints(g: &EntityGraph, e: usize) -> (r: Option<(usize, usize)>)
    ensures
        e < pet_edges(*g).len() ==> r == Some((pet_edges(*g)[e as int].0, pet_edges(*g)[e as int].1)),
        e >= pet_edges(*g).len() ==> r is None,
{
    g.edge_endpoints(EdgeIndex::new(e)).map(|(a, b)| (a.index(), b.index()))
}

/// Relies on petgraph's `Graph::edge_weight`: the weight of an existing edge.
#[verifier::external_body]
pub(crate) fn pet_edge_weight(g: &EntityGraph, e: usize) -> (r: Option<&Relation>)
    ensures
        e < pet_edges(*g).len() ==> r == Some(&pet_edges(*g)[e as int].2),
        e >= pet_edges(*g).len() ==> r is None,
{
    g.edge_weight(EdgeIndex::new(e))
}

/// Relies on petgraph's `algo::is_cyclic_directed`: true exactly when some walk of at
/// least one edge returns to its start (a self loop counts).
#[verifier::external_body]
pub(crate) fn pet_is_cyclic(g: &EntityGraph) -> (r: bool)
    ensures
        r == has_cycle(pet_nodes(*g).len(), pet_edges(*g)),
{
    algo::is_cyclic_directed(g)
}

/// Relies on petgraph's `algo::toposort`: on an acyclic graph every node once, each
/// before its successors; otherwise a node that lies on a cycle.
#[verifier::external_body]
pub(crate) fn pet_toposort(g: &EntityGraph) -> (r: Result<Vec<usize>, usize>)
    ensures
        match r {
            Ok(order) => !has_cycle(pet_nodes(*g).len(), pet_edges(*g))
                && is_topological_order(pet_nodes(*g).len(), pet_edges(*g), order@),
            Err(v) => v < pet_nodes(*g).len() && on_cycle(pet_edges(*g), v),
        },
{
    match algo::toposort(g, None) {
        Ok(order) => Ok(order.into_iter().map(|i| i.index()).collect()),
        Err(cycle) => Err(cycle.node_id().index()),
    }
}

/// Relies on petgraph's `algo::tarjan_scc`: the strongly connected components, each node
/// in exactly one of them.
#[verifier::external_body]
pub(crate) fn pet_tarjan_scc(g: &EntityGraph) -> (r: Vec<Vec<usize>>)
    ensures
        is_scc_partition(pet_nodes(*g).len(), pet_edges(*g), r@.map_values(|c: Vec<usize>| c@)),
{
    algo::tarjan_scc(g).into_iter().map(|c| c.into_iter().map(|i| i.index()).collect()).collect()
}

/// Relies on petgraph's `algo::all_simple_paths` with no bound on the number of
/// intermediate nodes: every simple path from `from` to `to`, and nothing else.
#[verifier::external_body]
pub(crate) fn pet_all_simple_paths(g: &EntityGraph, from: usize, to: usize) -> (r: Vec<Vec<usize>>)
    requires
        from < pet_nodes(*g).len(),
        to < pet_nodes(*g).len(),
        from != to,
    ensures
        forall|i: int| 0 <= i < r@.len() ==> is_simple_path(pet_edges(*g), #[trigger] r@[i]@, from, to),
        forall|p: Seq<usize>| is_simple_path(pet_edges(*g), p, from, to) ==> exists|i: int|
            0 <= i < r@.len() && #[trigger] r@[i]@ == p,
{
    algo::all_simple_paths::<Vec<NodeIndex<usize>>, _, RandomState>(g, NodeIndex::new(from), NodeIndex::new(to), 0, None)
        .map(|p| p.into_iter().map(|i| i.index()).collect())
        .collect()
}

} // verus!
