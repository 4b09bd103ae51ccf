//! Walks, cycles and components over an edge list.
use vstd::prelude::*;
use crate::graph::node::Relation;

verus! {

/// An edge: source index, target index, relation.
pub type EdgeView = (usize, usize, Relation);

pub open spec fn has_edge(edges: Seq<EdgeView>, a: usize, b: usize) -> bool {
    exists|i: int| 0 <= i < edges.len() && #[trigger] edges[i].0 == a && edges[i].1 == b
}

/// `p` is a non-empty sequence of nodes, each joined to the next by an edge.
pub open spec fn is_walk(edges: Seq<EdgeView>, p: Seq<usize>) -> bool {
    &&& p.len() >= 1
    &&& forall|i: int| 0 <= i < p.len() - 1 ==> has_edge(edges, #[trigger] p[i], p[i + 1])
}

pub open spec fn reaches(edges: Seq<EdgeView>, a: usize, b: usize) -> bool {
    exists|p: Seq<usize>| #[trigger] is_walk(edges, p) && p[0] == a && p.last() == b
}

/// `v` lies on a cycle: a walk of at least one edge leads from `v` back to `v`.
pub open spec fn on_cycle(edges: Seq<EdgeView>, v: usize) -> bool {
    exists|p: Seq<usize>| #[trigger] is_walk(edges, p) && p.len() >= 2 && p[0] == v && p.last() == v
}

pub open spec fn has_cycle(n: nat, edges: Seq<EdgeView>) -> bool {
    exists|v: usize| v < n && #[trigger] on_cycle(edges, v)
}

/// `p` is a walk from `from` to `to` that visits no node twice.
pub open spec fn is_simple_path(edges: Seq<EdgeView>, p: Seq<usize>, from: usize, to: usize) -> bool {
    &&& is_walk(edges, p)
    &&& p[0] == from
    &&& p.last() == to
    &&& p.no_duplicates()
}

/// `order` lists each node below `n` exactly once, and every edge goes forward in it.
pub open spec fn is_topological_order(n: nat, edges: Seq<EdgeView>, order: Seq<usize>) -> bool {
    &&& order.len() == n
    &&& order.no_duplicates()
    &&& forall|i: int| 0 <= i < order.len() ==> #[trigger] order[i] < n
    &&& forall|e: int, i: int, j: int|
        #![trigger edges[e], order[i], order[j]]
        0 <= e < edges.len() && 0 <= i < order.len() && 0 <= j < order.len() && order[i]
            == edges[e].0 && order[j] == edges[e].1 ==> i < j
}

pub open spec fn in_some_component(comps: Seq<Seq<usize>>, v: usize) -> bool {
    exists|c: int, i: int| 0 <= c < comps.len() && 0 <= i < comps[c].len() && #[trigger] comps[c][i] == v
}

/// `comps` splits the nodes below `n` into the strongly connected components.
pub open spec fn is_scc_partition(n: nat, edges: Seq<EdgeView>, comps: Seq<Seq<usize>>) -> bool {
    &&& forall|c: int, i: int|
        0 <= c < comps.len() && 0 <= i < comps[c].len() ==> #[trigger] comps[c][i] < n
    &&& forall|v: usize| v < n ==> #[trigger] in_some_component(comps, v)
    &&& forall|c: int, i: int, d: int, j: int|
        0 <= c < comps.len() && 0 <= i < comps[c].len() && 0 <= d < comps.len() && 0 <= j
            < comps[d].len() && #[trigger] comps[c][i] == #[trigger] comps[d][j] ==> c == d && i == j
    &&& forall|c: int, i: int, d: int, j: int|
        0 <= c < comps.len() && 0 <= i < comps[c].len() && 0 <= d < comps.len() && 0 <= j
            < comps[d].len() ==> (c == d <==> (reaches(edges, #[trigger] comps[c][i], #[trigger] comps[d][j])
            && reaches(edges, comps[d][j], comps[c][i])))
}

} // verus!
