//! The entity graph: typed nodes and typed edges, with lookups and path insertion.
use vstd::prelude::*;
use crate::graph::node::{
    Entry, Function, Module, Node, NodeKind, NodeView, RelatedEntry, Relation, Trait, Type,
    kind_str,
};
use crate::graph::pet::{
    EntityGraph, pet_add_edge, pet_add_node, pet_all_simple_paths, pet_edge_count,
    pet_edge_endpoints, pet_edge_weight, pet_edges, pet_is_cyclic, pet_new, pet_node_count,
    pet_node_weight, pet_nodes, pet_tarjan_scc, pet_toposort,
};
use crate::graph::walk::{
    EdgeView, has_cycle, has_edge, is_scc_partition, is_simple_path, is_topological_order,
    is_walk, on_cycle,
};
use crate::path::{
    contains, join_prefix, join_sep, last_segment, split_path, split_sep, str_contains, str_eq,
    strings_view, lemma_split_nonempty, to_lower, lower_of,
};

verus! {

/// The graph as a value: nodes and edges by index.
pub struct GraphView {
    pub nodes: Seq<NodeView>,
    pub edges: Seq<EdgeView>,
}

/// Every edge joins two existing nodes.
pub open spec fn edges_in_range(g: GraphView) -> bool {
    forall|e: int|
        0 <= e < g.edges.len() ==> (#[trigger] g.edges[e]).0 < g.nodes.len() && g.edges[e].1
            < g.nodes.len()
}

/// Containment only ever points from an older node to a newer one, and no node is
/// contained twice.
pub open spec fn contains_forest(g: GraphView) -> bool {
    &&& edges_in_range(g)
    &&& forall|e: int|
        0 <= e < g.edges.len() && (#[trigger] g.edges[e]).2 == Relation::Contains ==> g.edges[e].0
            < g.edges[e].1
    &&& forall|e: int, f: int|
        0 <= e < g.edges.len() && 0 <= f < g.edges.len() && e != f && (#[trigger] g.edges[e]).2
            == Relation::Contains && (#[trigger] g.edges[f]).2 == Relation::Contains ==> g.edges[e].1
            != g.edges[f].1
}

pub open spec fn push_node(g: GraphView, n: NodeView) -> GraphView {
    GraphView { nodes: g.nodes.push(n), edges: g.edges }
}

pub open spec fn push_edge(g: GraphView, a: usize, b: usize, rel: Relation) -> GraphView {
    GraphView { nodes: g.nodes, edges: g.edges.push((a, b, rel)) }
}

/// The indices below `k` of the nodes that satisfy `pred`, in ascending order.
pub open spec fn select_nodes(nodes: Seq<NodeView>, pred: spec_fn(NodeView) -> bool, k: int) -> Seq<usize>
    decreases k,
{
    if k <= 0 {
        Seq::empty()
    } else if pred(nodes[k - 1]) {
        select_nodes(nodes, pred, k - 1).push((k - 1) as usize)
    } else {
        select_nodes(nodes, pred, k - 1)
    }
}

/// The indices below `k` of the edges that satisfy `pred`, in ascending order.
pub open spec fn select_edges(edges: Seq<EdgeView>, pred: spec_fn(EdgeView) -> bool, k: int) -> Seq<int>
    decreases k,
{
    if k <= 0 {
        Seq::empty()
    } else if pred(edges[k - 1]) {
        select_edges(edges, pred, k - 1).push(k - 1)
    } else {
        select_edges(edges, pred, k - 1)
    }
}

/// `r` lists, in order, the nodes at the indices `sel`.
pub open spec fn entries_match(g: GraphView, r: Seq<Entry>, sel: Seq<usize>) -> bool {
    &&& r.len() == sel.len()
    &&& forall|k: int|
        0 <= k < r.len() ==> (#[trigger] r[k]).index == sel[k] && sel[k] < g.nodes.len()
            && r[k].node@ == g.nodes[sel[k] as int]
}

/// `r` lists, in order, the far ends of the edges at the indices `sel`.
pub open spec fn related_match(g: GraphView, r: Seq<RelatedEntry>, sel: Seq<int>, outgoing: bool) -> bool {
    &&& r.len() == sel.len()
    &&& forall|k: int|
        0 <= k < r.len() ==> {
            let e = g.edges[sel[k]];
            let far = if outgoing { e.1 } else { e.0 };
            &&& 0 <= sel[k] < g.edges.len()
            &&& (#[trigger] r[k]).index == far
            &&& r[k].relation == e.2
            &&& far < g.nodes.len()
            &&& r[k].node@ == g.nodes[far as int]
        }
}

pub open spec fn named(name: Seq<char>) -> spec_fn(NodeView) -> bool {
    |v: NodeView| v.name == name
}

pub open spec fn name_contains(part: Seq<char>) -> spec_fn(NodeView) -> bool {
    |v: NodeView| contains(v.name, part)
}

pub open spec fn of_kind_named(kind: Seq<char>) -> spec_fn(NodeView) -> bool {
    |v: NodeView| kind_str(v.kind) == kind
}

/// Case-insensitive containment: both sides lowered as `str::to_lowercase` does.
pub open spec fn name_matches_pattern(pattern: Seq<char>) -> spec_fn(NodeView) -> bool {
    |v: NodeView| contains(lower_of(v.name), lower_of(pattern))
}

pub open spec fn outgoing_from(idx: usize, n: nat) -> spec_fn(EdgeView) -> bool {
    |e: EdgeView| e.0 == idx && e.1 < n
}

pub open spec fn incoming_to(idx: usize, n: nat) -> spec_fn(EdgeView) -> bool {
    |e: EdgeView| e.1 == idx && e.0 < n
}

/// Some `Contains` edge leads into node `k`.
pub open spec fn has_container(g: GraphView, k: int) -> bool {
    exists|e: int| 0 <= e < g.edges.len() && #[trigger] g.edges[e].1 == k && g.edges[e].2 == Relation::Contains
}

/// The first root module (contained by nothing), by index from `k` on, named `name`.
pub open spec fn first_module_from(g: GraphView, name: Seq<char>, k: int) -> Option<usize>
    decreases g.nodes.len() - k,
{
    if k < 0 || k >= g.nodes.len() {
        None
    } else if g.nodes[k].kind == NodeKind::Module && g.nodes[k].name == name && !has_container(g, k) {
        Some(k as usize)
    } else {
        first_module_from(g, name, k + 1)
    }
}

/// The module named `name` that `cur` contains through the first such edge from `e` on.
pub open spec fn first_child_from(g: GraphView, cur: usize, name: Seq<char>, e: int) -> Option<usize>
    decreases g.edges.len() - e,
{
    if e < 0 || e >= g.edges.len() {
        None
    } else if g.edges[e].0 == cur && g.edges[e].2 == Relation::Contains && g.edges[e].1
        < g.nodes.len() && g.nodes[g.edges[e].1 as int].kind == NodeKind::Module
        && g.nodes[g.edges[e].1 as int].name == name {
        Some(g.edges[e].1)
    } else {
        first_child_from(g, cur, name, e + 1)
    }
}

/// From module `cur`, step down through `segs`, one contained module per segment.
pub open spec fn descend(g: GraphView, cur: usize, segs: Seq<Seq<char>>) -> Option<usize>
    decreases segs.len(),
{
    if segs.len() == 0 {
        Some(cur)
    } else {
        match first_child_from(g, cur, segs[0], 0) {
            None => None,
            Some(c) => descend(g, c, segs.drop_first()),
        }
    }
}

/// The module that a path of segments names: a root module named like the first segment,
/// then the contained modules named like the others.
pub open spec fn find_module(g: GraphView, segs: Seq<Seq<char>>) -> Option<usize> {
    if segs.len() == 0 {
        None
    } else {
        match first_module_from(g, segs[0], 0) {
            None => None,
            Some(root) => descend(g, root, segs.drop_first()),
        }
    }
}

/// The module step of path insertion, for module segments `i` up to the last but one:
/// reuse the module that the prefix names, or create it under the previous one.
pub open spec fn insert_modules(g: GraphView, segs: Seq<Seq<char>>, i: int, parent: Option<usize>) -> (GraphView, Option<usize>)
    decreases segs.len() - 1 - i,
{
    if i < 0 || i + 1 >= segs.len() {
        (g, parent)
    } else {
        match find_module(g, segs.take(i + 1)) {
            Some(m) => insert_modules(g, segs, i + 1, Some(m)),
            None => {
                let m = g.nodes.len() as usize;
                let g1 = push_node(
                    g,
                    NodeView {
                        kind: NodeKind::Module,
                        name: segs[i],
                        path: join_sep(segs.take(i + 1)),
                    },
                );
                let g2 = match parent {
                    Some(p) => push_edge(g1, p, m, Relation::Contains),
                    None => g1,
                };
                insert_modules(g2, segs, i + 1, Some(m))
            }
        }
    }
}

/// Path insertion: the graph after it and the index of the leaf.
pub open spec fn add_from_path_spec(g: GraphView, path: Seq<char>, leaf: NodeView) -> (GraphView, usize) {
    let segs = split_sep(path);
    if segs.len() <= 1 {
        (push_node(g, leaf), g.nodes.len() as usize)
    } else {
        let (g1, parent) = insert_modules(g, segs, 0, None);
        let r = g1.nodes.len() as usize;
        let g2 = push_node(g1, leaf);
        let g3 = match parent {
            Some(p) => push_edge(g2, p, r, Relation::Contains),
            None => g2,
        };
        (g3, r)
    }
}

/// The view of a leaf node of the given kind, named after the path's last segment.
pub open spec fn leaf_view(kind: NodeKind, path: Seq<char>) -> NodeView {
    NodeView { kind, name: last_segment(path), path }
}

/// The edges that carry `Contains`.
pub open spec fn containment(edges: Seq<EdgeView>) -> Seq<EdgeView> {
    edges.filter(|e: EdgeView| e.2 == Relation::Contains)
}

proof fn lemma_first_module_bound(g: GraphView, name: Seq<char>, k: int)
    ensures
        first_module_from(g, name, k) matches Some(m) ==> m < g.nodes.len(),
    decreases g.nodes.len() - k,
{
    if !(k < 0 || k >= g.nodes.len()) && !(g.nodes[k].kind == NodeKind::Module && g.nodes[k].name
        == name && !has_container(g, k)) {
        lemma_first_module_bound(g, name, k + 1);
    }
}

proof fn lemma_first_child_bound(g: GraphView, cur: usize, name: Seq<char>, e: int)
    ensures
        first_child_from(g, cur, name, e) matches Some(m) ==> m < g.nodes.len(),
    decreases g.edges.len() - e,
{
    if !(e < 0 || e >= g.edges.len()) {
        lemma_first_child_bound(g, cur, name, e + 1);
    }
}

proof fn lemma_descend_bound(g: GraphView, cur: usize, segs: Seq<Seq<char>>)
    requires
        cur < g.nodes.len(),
    ensures
        descend(g, cur, segs) matches Some(m) ==> m < g.nodes.len(),
    decreases segs.len(),
{
    if segs.len() > 0 {
        lemma_first_child_bound(g, cur, segs[0], 0);
        if let Some(c) = first_child_from(g, cur, segs[0], 0) {
            lemma_descend_bound(g, c, segs.drop_first());
        }
    }
}

pub proof fn lemma_find_module_bound(g: GraphView, segs: Seq<Seq<char>>)
    ensures
        find_module(g, segs) matches Some(m) ==> m < g.nodes.len(),
{
    if segs.len() > 0 {
        lemma_first_module_bound(g, segs[0], 0);
        if let Some(root) = first_module_from(g, segs[0], 0) {
            lemma_descend_bound(g, root, segs.drop_first());
        }
    }
}

/// A new node, then a containment edge into it from an older node, keep the forest.
proof fn lemma_forest_push(g: GraphView, n: NodeView, parent: Option<usize>)
    requires
        contains_forest(g),
        g.nodes.len() <= usize::MAX,
        parent matches Some(p) ==> p < g.nodes.len(),
    ensures
        contains_forest(push_node(g, n)),
        contains_forest(
            match parent {
                Some(p) => push_edge(push_node(g, n), p, g.nodes.len() as usize, Relation::Contains),
                None => push_node(g, n),
            },
        ),
{
    let g1 = push_node(g, n);
    assert(g1.edges == g.edges);
    if let Some(p) = parent {
        let m = g.nodes.len() as usize;
        let g2 = push_edge(g1, p, m, Relation::Contains);
        assert forall|e: int| 0 <= e < g2.edges.len() implies (#[trigger] g2.edges[e]).0
            < g2.nodes.len() && g2.edges[e].1 < g2.nodes.len() by {
            if e < g.edges.len() {
                assert(g2.edges[e] == g.edges[e]);
            }
        }
        assert forall|e: int, f: int|
            0 <= e < g2.edges.len() && 0 <= f < g2.edges.len() && e != f
                && (#[trigger] g2.edges[e]).2 == Relation::Contains && (#[trigger] g2.edges[f]).2
                == Relation::Contains implies g2.edges[e].1 != g2.edges[f].1 by {
            if e < g.edges.len() && f < g.edges.len() {
                assert(g2.edges[e] == g.edges[e]);
                assert(g2.edges[f] == g.edges[f]);
            } else if e < g.edges.len() {
                assert(g2.edges[e] == g.edges[e]);
            } else {
                assert(g2.edges[f] == g.edges[f]);
            }
        }
        assert forall|e: int|
            0 <= e < g2.edges.len() && (#[trigger] g2.edges[e]).2
                == Relation::Contains implies g2.edges[e].0 < g2.edges[e].1 by {
            if e < g.edges.len() {
                assert(g2.edges[e] == g.edges[e]);
            }
        }
    }
}

proof fn lemma_insert_modules_len(g: GraphView, segs: Seq<Seq<char>>, i: int, parent: Option<usize>)
    requires
        0 <= i <= segs.len(),
    ensures
        insert_modules(g, segs, i, parent).0.nodes.len() <= g.nodes.len() + segs.len() - i,
    decreases segs.len() - 1 - i,
{
    if i < 0 || i + 1 >= segs.len() {
    } else {
        match find_module(g, segs.take(i + 1)) {
            Some(m) => {
                lemma_insert_modules_len(g, segs, i + 1, Some(m));
            },
            None => {
                let m = g.nodes.len() as usize;
                let g1 = push_node(
                    g,
                    NodeView {
                        kind: NodeKind::Module,
                        name: segs[i],
                        path: join_sep(segs.take(i + 1)),
                    },
                );
                let g2 = match parent {
                    Some(p) => push_edge(g1, p, m, Relation::Contains),
                    None => g1,
                };
                lemma_insert_modules_len(g2, segs, i + 1, Some(m));
            },
        }
    }
}

/// Path round trip: inserting a path creates a leaf that carries exactly that path,
/// which is what `get_node_path` reads back.
pub proof fn lemma_path_round_trip(g: GraphView, path: Seq<char>, kind: NodeKind)
    requires
        g.nodes.len() + split_sep(path).len() < usize::MAX,
    ensures
        ({
            let (g2, r) = add_from_path_spec(g, path, leaf_view(kind, path));
            &&& r < g2.nodes.len()
            &&& g2.nodes[r as int].path == path
            &&& g2.nodes[r as int].name == last_segment(path)
            &&& g2.nodes[r as int].kind == kind
        }),
{
    let segs = split_sep(path);
    if segs.len() > 1 {
        lemma_insert_modules_len(g, segs, 0, None);
    }
}

/// An edge between existing nodes that is not containment keeps the forest.
pub proof fn lemma_forest_push_other_edge(g: GraphView, a: usize, b: usize, rel: Relation)
    requires
        contains_forest(g),
        a < g.nodes.len(),
        b < g.nodes.len(),
        rel != Relation::Contains,
    ensures
        contains_forest(push_edge(g, a, b, rel)),
{
    let g2 = push_edge(g, a, b, rel);
    assert forall|e: int| 0 <= e < g2.edges.len() implies (#[trigger] g2.edges[e]).0
        < g2.nodes.len() && g2.edges[e].1 < g2.nodes.len() by {
        if e < g.edges.len() {
            assert(g2.edges[e] == g.edges[e]);
        }
    }
    assert forall|e: int, f: int|
        0 <= e < g2.edges.len() && 0 <= f < g2.edges.len() && e != f
            && (#[trigger] g2.edges[e]).2 == Relation::Contains && (#[trigger] g2.edges[f]).2
            == Relation::Contains implies g2.edges[e].1 != g2.edges[f].1 by {
        assert(g2.edges[e] == g.edges[e]);
        assert(g2.edges[f] == g.edges[f]);
    }
    assert forall|e: int|
        0 <= e < g2.edges.len() && (#[trigger] g2.edges[e]).2
            == Relation::Contains implies g2.edges[e].0 < g2.edges[e].1 by {
        assert(g2.edges[e] == g.edges[e]);
    }
}

/// Module reuse: inserting `a::b::x` and then `a::b::y` into an empty graph creates one
/// module `a` and one module `b`, shared by both leaves; when the four names differ, a
/// lookup by name finds `a` once and `b` once.
pub proof fn lemma_module_reuse(
    first: Seq<char>,
    second: Seq<char>,
    a: Seq<char>,
    b: Seq<char>,
    x: Seq<char>,
    y: Seq<char>,
)
    requires
        split_sep(first) == seq![a, b, x],
        split_sep(second) == seq![a, b, y],
        a != b,
        a != x,
        a != y,
        b != x,
        b != y,
    ensures
        ({
            let g0 = GraphView { nodes: Seq::empty(), edges: Seq::empty() };
            let (g1, r1) = add_from_path_spec(g0, first, leaf_view(NodeKind::Type, first));
            let (g2, r2) = add_from_path_spec(g1, second, leaf_view(NodeKind::Type, second));
            &&& g2.nodes.len() == 4
            &&& g2.nodes[0].kind == NodeKind::Module && g2.nodes[0].name == a
            &&& g2.nodes[1].kind == NodeKind::Module && g2.nodes[1].name == b
            &&& r1 == 2 && r2 == 3
            &&& g2.edges == seq![
                (0usize, 1usize, Relation::Contains),
                (1usize, 2usize, Relation::Contains),
                (1usize, 3usize, Relation::Contains),
            ]
            &&& select_nodes(g2.nodes, named(a), 4) == seq![0usize]
            &&& select_nodes(g2.nodes, named(b), 4) == seq![1usize]
        }),
{
    let g0 = GraphView { nodes: Seq::empty(), edges: Seq::empty() };
    let s1 = split_sep(first);
    let s2 = split_sep(second);
    assert(s1.take(1) =~= seq![a]);
    assert(s1.take(2) =~= seq![a, b]);
    assert(s2.take(1) =~= seq![a]);
    assert(s2.take(2) =~= seq![a, b]);
    assert(seq![a].drop_first() =~= Seq::<Seq<char>>::empty());
    assert(seq![a, b].drop_first() =~= seq![b]);
    assert(seq![b].drop_first() =~= Seq::<Seq<char>>::empty());
    // First insertion: both modules are new.
    assert(first_module_from(g0, a, 0) is None);
    assert(find_module(g0, s1.take(1)) is None);
    let ma = NodeView { kind: NodeKind::Module, name: a, path: join_sep(s1.take(1)) };
    let ga = push_node(g0, ma);
    assert(!has_container(ga, 0));
    assert(first_module_from(ga, a, 0) == Some(0usize));
    assert(first_child_from(ga, 0, b, 0) is None);
    assert(descend(ga, 0, seq![b]) is None);
    assert(find_module(ga, s1.take(2)) is None);
    let mb = NodeView { kind: NodeKind::Module, name: b, path: join_sep(s1.take(2)) };
    let gb = push_edge(push_node(ga, mb), 0, 1, Relation::Contains);
    assert(insert_modules(gb, s1, 2, Some(1usize)) == (gb, Some(1usize)));
    assert(insert_modules(ga, s1, 1, Some(0usize)) == (gb, Some(1usize)));
    assert(insert_modules(g0, s1, 0, None) == (gb, Some(1usize)));
    let lx = leaf_view(NodeKind::Type, first);
    let g1 = push_edge(push_node(gb, lx), 1, 2, Relation::Contains);
    assert(add_from_path_spec(g0, first, lx) == (g1, 2usize));
    // Second insertion: both modules are found again.
    assert(g1.nodes[0] == ma);
    assert(g1.edges =~= seq![
        (0usize, 1usize, Relation::Contains),
        (1usize, 2usize, Relation::Contains),
    ]);
    assert(!has_container(g1, 0));
    assert(first_module_from(g1, a, 0) == Some(0usize));
    assert(descend(g1, 0, Seq::<Seq<char>>::empty()) == Some(0usize));
    assert(find_module(g1, s2.take(1)) == Some(0usize));
    assert(g1.edges[0] == (0usize, 1usize, Relation::Contains));
    assert(g1.nodes[1] == mb);
    assert(first_child_from(g1, 0, b, 0) == Some(1usize));
    assert(descend(g1, 1, Seq::<Seq<char>>::empty()) == Some(1usize));
    assert(descend(g1, 0, seq![b]) == Some(1usize));
    assert(find_module(g1, s2.take(2)) == Some(1usize));
    assert(insert_modules(g1, s2, 2, Some(1usize)) == (g1, Some(1usize)));
    assert(insert_modules(g1, s2, 1, Some(0usize)) == (g1, Some(1usize)));
    assert(insert_modules(g1, s2, 0, None) == (g1, Some(1usize)));
    let ly = leaf_view(NodeKind::Type, second);
    let g2 = push_edge(push_node(g1, ly), 1, 3, Relation::Contains);
    assert(add_from_path_spec(g1, second, ly) == (g2, 3usize));
    assert(lx.name == x);
    assert(ly.name == y);
    assert(g2.nodes =~= seq![ma, mb, lx, ly]);
    assert(g2.edges =~= seq![
        (0usize, 1usize, Relation::Contains),
        (1usize, 2usize, Relation::Contains),
        (1usize, 3usize, Relation::Contains),
    ]);
    reveal_with_fuel(select_nodes, 5);
    assert(select_nodes(g2.nodes, named(a), 4) =~= seq![0usize]);
    assert(select_nodes(g2.nodes, named(b), 4) =~= seq![1usize]);
}

/// A walk over containment edges only goes to ever newer nodes.
proof fn lemma_containment_walk_increases(g: GraphView, p: Seq<usize>, j: int)
    requires
        contains_forest(g),
        is_walk(containment(g.edges), p),
        1 <= j < p.len(),
    ensures
        p[0] < p[j],
    decreases j,
{
    let c = containment(g.edges);
    assert(has_edge(c, p[j - 1], p[j]));
    let i = choose|i: int| 0 <= i < c.len() && #[trigger] c[i].0 == p[j - 1] && c[i].1 == p[j];
    let pred = |e: EdgeView| e.2 == Relation::Contains;
    g.edges.lemma_filter_pred(pred, i);
    assert(c.contains(c[i]));
    g.edges.lemma_filter_contains_rev(pred, c[i]);
    let e2 = choose|e: int| 0 <= e < g.edges.len() && g.edges[e] == c[i];
    assert(g.edges[e2].2 == Relation::Contains);
    assert(p[j - 1] < p[j]);
    if j > 1 {
        lemma_containment_walk_increases(g, p, j - 1);
    }
}

/// Every node has at most one incoming `Contains` edge, and the `Contains` edges alone
/// form no cycle.
pub open spec fn containment_law(g: GraphView) -> bool {
    &&& forall|e: int, f: int|
        0 <= e < g.edges.len() && 0 <= f < g.edges.len() && (#[trigger] g.edges[e]).2
            == Relation::Contains && (#[trigger] g.edges[f]).2 == Relation::Contains
            && g.edges[e].1 == g.edges[f].1 ==> e == f
    &&& !has_cycle(g.nodes.len(), containment(g.edges))
}

/// The forest law: when containment is a forest in the sense above, every node has at
/// most one incoming `Contains` edge and the `Contains` edges alone form no cycle.
pub proof fn lemma_containment_is_forest(g: GraphView)
    requires
        contains_forest(g),
    ensures
        containment_law(g),
{
    assert forall|v: usize| v < g.nodes.len() implies !(#[trigger] on_cycle(containment(g.edges), v)) by {
        if on_cycle(containment(g.edges), v) {
            let p = choose|p: Seq<usize>|
                #[trigger] is_walk(containment(g.edges), p) && p.len() >= 2 && p[0] == v && p.last() == v;
            lemma_containment_walk_increases(g, p, p.len() - 1);
        }
    }
}

/// The entity graph.
pub struct RustGraph {
    pub graph: EntityGraph,
}

impl Default for RustGraph {
    fn default() -> (r: Self)
        ensures
            r@.nodes.len() == 0,
            r@.edges.len() == 0,
            contains_forest(r@),
    {
        Self::new()
    }
}

impl View for RustGraph {
    type V = GraphView;

    open spec fn view(&self) -> GraphView {
        GraphView {
            nodes: pet_nodes(self.graph).map_values(|n: Node| n@),
            edges: pet_edges(self.graph),
        }
    }
}

impl RustGraph {
    pub fn new() -> (r: Self)
        ensures
            r@.nodes.len() == 0,
            r@.edges.len() == 0,
            contains_forest(r@),
    {
        let graph = pet_new();
        let r = Self { graph };
        proof {
            assert(r@.nodes.len() == 0);
        }
        r
    }

    /// Whether some walk of at least one edge returns to its start.
    pub fn is_cyclic(&self) -> (r: bool)
        ensures
            r == has_cycle(self@.nodes.len(), self@.edges),
    {
        pet_is_cyclic(&self.graph)
    }

    /// The strongly connected components over all edges.
    pub fn strongly_connected_components(&self) -> (r: Vec<Vec<usize>>)
        ensures
            is_scc_partition(self@.nodes.len(), self@.edges, r@.map_values(|c: Vec<usize>| c@)),
    {
        pet_tarjan_scc(&self.graph)
    }

    /// A topological order of all nodes, or a node that lies on a cycle.
    pub fn topological_sort(&self) -> (r: Result<Vec<usize>, usize>)
        ensures
            match r {
                Ok(order) => !has_cycle(self@.nodes.len(), self@.edges) && is_topological_order(
                    self@.nodes.len(),
                    self@.edges,
                    order@,
                ),
                Err(v) => v < self@.nodes.len() && on_cycle(self@.edges, v),
            },
    {
        pet_toposort(&self.graph)
    }

    pub fn add_node(&mut self, node: Node) -> (r: usize)
        ensures
            r == old(self)@.nodes.len(),
            final(self)@ == push_node(old(self)@, node@),
    {
        let ghost n = node@;
        let r = pet_add_node(&mut self.graph, node);
        proof {
            assert(self@.nodes =~= old(self)@.nodes.push(n));
        }
        r
    }

    pub fn add_edge(&mut self, source: usize, target: usize, relation: Relation) -> (r: usize)
        requires
            source < old(self)@.nodes.len(),
            target < old(self)@.nodes.len(),
        ensures
            r == old(self)@.edges.len(),
            final(self)@ == push_edge(old(self)@, source, target, relation),
    {
        let r = pet_add_edge(&mut self.graph, source, target, relation);
        proof {
            assert(self@.nodes =~= old(self)@.nodes);
        }
        r
    }

    pub fn node_count(&self) -> (r: usize)
        ensures
            r == self@.nodes.len(),
    {
        pet_node_count(&self.graph)
    }

    pub fn edge_count(&self) -> (r: usize)
        ensures
            r == self@.edges.len(),
    {
        pet_edge_count(&self.graph)
    }

    /// The node at an index, if there is one.
    pub fn node(&self, index: usize) -> (r: Option<&Node>)
        ensures
            index < self@.nodes.len() ==> (r matches Some(n) && n@ == self@.nodes[index as int]),
            index >= self@.nodes.len() ==> r is None,
    {
        pet_node_weight(&self.graph, index)
    }

    /// Every node named exactly `name`, in index order.
    pub fn find_by_name(&self, name: &str) -> (r: Vec<Entry>)
        ensures
            entries_match(self@, r@, select_nodes(self@.nodes, named(name@), self@.nodes.len() as int)),
    {
        let n = self.node_count();
        let mut r: Vec<Entry> = Vec::new();
        let mut i: usize = 0;
        while i < n
            invariant
                n == self@.nodes.len(),
                i <= n,
                entries_match(self@, r@, select_nodes(self@.nodes, named(name@), i as int)),
            decreases n - i,
        {
            if let Some(node) = self.node(i) {
                let node_name = node.name();
                if str_eq(node_name.as_str(), name) {
                    r.push(Entry::new(i, node.duplicate()));
                }
            }
            i = i + 1;
        }
        r
    }

    /// Every node whose name contains `partial_name`, in index order.
    pub fn find_by_partial_name(&self, partial_name: &str) -> (r: Vec<Entry>)
        ensures
            entries_match(
                self@,
                r@,
                select_nodes(self@.nodes, name_contains(partial_name@), self@.nodes.len() as int),
            ),
    {
        let n = self.node_count();
        let mut r: Vec<Entry> = Vec::new();
        let mut i: usize = 0;
        while i < n
            invariant
                n == self@.nodes.len(),
                i <= n,
                entries_match(self@, r@, select_nodes(self@.nodes, name_contains(partial_name@), i as int)),
            decreases n - i,
        {
            if let Some(node) = self.node(i) {
                let node_name = node.name();
                if str_contains(node_name.as_str(), partial_name) {
                    r.push(Entry::new(i, node.duplicate()));
                }
            }
            i = i + 1;
        }
        r
    }

    /// Every node whose kind is named `node_type` (`"Module"`, `"Type"`, ...), in index order.
    pub fn find_by_type(&self, node_type: &str) -> (r: Vec<Entry>)
        ensures
            entries_match(
                self@,
                r@,
                select_nodes(self@.nodes, of_kind_named(node_type@), self@.nodes.len() as int),
            ),
    {
        let n = self.node_count();
        let mut r: Vec<Entry> = Vec::new();
        let mut i: usize = 0;
        while i < n
            invariant
                n == self@.nodes.len(),
                i <= n,
                entries_match(self@, r@, select_nodes(self@.nodes, of_kind_named(node_type@), i as int)),
            decreases n - i,
        {
            if let Some(node) = self.node(i) {
                if str_eq(node.node_str(), node_type) {
                    r.push(Entry::new(i, node.duplicate()));
                }
            }
            i = i + 1;
        }
        r
    }

    /// Every node whose name contains `pattern`, ignoring case, in index order.
    pub fn find_by_pattern(&self, pattern: &str) -> (r: Vec<Entry>)
        ensures
            entries_match(
                self@,
                r@,
                select_nodes(self@.nodes, name_matches_pattern(pattern@), self@.nodes.len() as int),
            ),
    {
        let pattern_lower = to_lower(pattern);
        let n = self.node_count();
        let mut r: Vec<Entry> = Vec::new();
        let mut i: usize = 0;
        while i < n
            invariant
                n == self@.nodes.len(),
                i <= n,
                pattern_lower@ == lower_of(pattern@),
                entries_match(self@, r@, select_nodes(self@.nodes, name_matches_pattern(pattern@), i as int)),
            decreases n - i,
        {
            if let Some(node) = self.node(i) {
                let node_name = node.name();
                let name_lower = to_lower(node_name.as_str());
                if str_contains(name_lower.as_str(), pattern_lower.as_str()) {
                    r.push(Entry::new(i, node.duplicate()));
                }
            }
            i = i + 1;
        }
        r
    }

    /// The far end of every edge out of `node_idx`, with its relation, in edge order.
    pub fn find_connected_nodes(&self, node_idx: usize) -> (r: Vec<RelatedEntry>)
        ensures
            related_match(
                self@,
                r@,
                select_edges(self@.edges, outgoing_from(node_idx, self@.nodes.len()), self@.edges.len() as int),
                true,
            ),
    {
        let n = self.node_count();
        let m = self.edge_count();
        let mut r: Vec<RelatedEntry> = Vec::new();
        let mut e: usize = 0;
        while e < m
            invariant
                n == self@.nodes.len(),
                m == self@.edges.len(),
                e <= m,
                related_match(self@, r@, select_edges(self@.edges, outgoing_from(node_idx, n as nat), e as int), true),
            decreases m - e,
        {
            if let Some((a, b, rel)) = self.edge(e) {
                if a == node_idx && b < n {
                    if let Some(node) = self.node(b) {
                        r.push(RelatedEntry::new(b, node.duplicate(), rel));
                    }
                }
            }
            e = e + 1;
        }
        r
    }

    /// The near end of every edge into `node_idx`, with its relation, in edge order.
    pub fn find_dependents(&self, node_idx: usize) -> (r: Vec<RelatedEntry>)
        ensures
            related_match(
                self@,
                r@,
                select_edges(self@.edges, incoming_to(node_idx, self@.nodes.len()), self@.edges.len() as int),
                false,
            ),
    {
        let n = self.node_count();
        let m = self.edge_count();
        let mut r: Vec<RelatedEntry> = Vec::new();
        let mut e: usize = 0;
        while e < m
            invariant
                n == self@.nodes.len(),
                m == self@.edges.len(),
                e <= m,
                related_match(self@, r@, select_edges(self@.edges, incoming_to(node_idx, n as nat), e as int), false),
            decreases m - e,
        {
            if let Some((a, b, rel)) = self.edge(e) {
                if b == node_idx && a < n {
                    if let Some(node) = self.node(a) {
                        r.push(RelatedEntry::new(a, node.duplicate(), rel));
                    }
                }
            }
            e = e + 1;
        }
        r
    }

    fn same_path(a: &Vec<usize>, b: &Vec<usize>) -> (r: bool)
        ensures
            r == (a@ == b@),
    {
        if a.len() != b.len() {
            return false;
        }
        let mut i: usize = 0;
        while i < a.len()
            invariant
                a@.len() == b@.len(),
                i <= a@.len(),
                forall|j: int| 0 <= j < i ==> a@[j] == b@[j],
            decreases a@.len() - i,
        {
            if a[i] != b[i] {
                return false;
            }
            i = i + 1;
        }
        proof {
            assert(a@ =~= b@);
        }
        true
    }

    /// Every simple path from `from` to `to`, each once; from a node to itself, the
    /// one-node path; nothing when either node does not exist.
    pub fn find_paths(&self, from: usize, to: usize) -> (r: Vec<Vec<usize>>)
        ensures
            (from >= self@.nodes.len() || to >= self@.nodes.len()) ==> r@.len() == 0,
            from < self@.nodes.len() && from == to ==> r@.len() == 1 && r@[0]@ == seq![from],
            from != to ==> forall|i: int| 0 <= i < r@.len() ==> is_simple_path(self@.edges, #[trigger] r@[i]@, from, to),
            from != to && from < self@.nodes.len() && to < self@.nodes.len() ==> forall|p: Seq<usize>|
                is_simple_path(self@.edges, p, from, to) ==> exists|i: int| 0 <= i < r@.len() && #[trigger] r@[i]@ == p,
            forall|i: int, j: int| 0 <= i < r@.len() && 0 <= j < r@.len() && i != j ==> r@[i]@ != r@[j]@,
    {
        let n = self.node_count();
        if from >= n || to >= n {
            return Vec::new();
        }
        if from == to {
            let r = vec![vec![from]];
            proof {
                assert(r@[0]@ =~= seq![from]);
            }
            return r;
        }
        let all = pet_all_simple_paths(&self.graph, from, to);
        let mut r: Vec<Vec<usize>> = Vec::new();
        let mut k: usize = 0;
        while k < all.len()
            invariant
                k <= all@.len(),
                forall|i: int| 0 <= i < all@.len() ==> is_simple_path(self@.edges, #[trigger] all@[i]@, from, to),
                forall|i: int| 0 <= i < r@.len() ==> is_simple_path(self@.edges, #[trigger] r@[i]@, from, to),
                forall|i: int| 0 <= i < k ==> exists|j: int| 0 <= j < r@.len() && #[trigger] r@[j]@ == (#[trigger] all@[i])@,
                forall|i: int, j: int| 0 <= i < r@.len() && 0 <= j < r@.len() && i != j ==> r@[i]@ != r@[j]@,
            decreases all@.len() - k,
        {
            let mut found = false;
            let mut j: usize = 0;
            while j < r.len()
                invariant
                    j <= r@.len(),
                    k < all@.len(),
                    found ==> exists|q: int| 0 <= q < r@.len() && #[trigger] r@[q]@ == all@[k as int]@,
                    !found ==> forall|q: int| 0 <= q < j ==> #[trigger] r@[q]@ != all@[k as int]@,
                decreases r@.len() - j,
            {
                if Self::same_path(&r[j], &all[k]) {
                    found = true;
                }
                j = j + 1;
            }
            if !found {
                let p = all[k].clone();
                proof {
                    assert(p@ == all@[k as int]@);
                }
                let ghost before = r@;
                r.push(p);
                proof {
                    assert(r@[before.len() as int]@ == all@[k as int]@);
                    assert forall|i: int| 0 <= i < k + 1 implies exists|j: int| 0 <= j < r@.len() && #[trigger] r@[j]@ == (#[trigger] all@[i])@ by {
                        if i < k {
                            let j0 = choose|j: int| 0 <= j < before.len() && #[trigger] before[j]@ == all@[i]@;
                            assert(r@[j0] == before[j0]);
                        } else {
                            assert(r@[before.len() as int]@ == all@[i]@);
                        }
                    }
                    assert forall|i: int, j: int| 0 <= i < r@.len() && 0 <= j < r@.len() && i != j implies r@[i]@ != r@[j]@ by {
                        if i < before.len() && j < before.len() {
                            assert(r@[i] == before[i] && r@[j] == before[j]);
                        } else if i < before.len() {
                            assert(r@[i] == before[i]);
                        } else if j < before.len() {
                            assert(r@[j] == before[j]);
                        }
                    }
                    assert forall|i: int| 0 <= i < r@.len() implies is_simple_path(self@.edges, #[trigger] r@[i]@, from, to) by {
                        if i < before.len() {
                            assert(r@[i] == before[i]);
                        }
                    }
                }
            }
            k = k + 1;
        }
        proof {
            assert forall|p: Seq<usize>| is_simple_path(self@.edges, p, from, to) implies exists|i: int|
                0 <= i < r@.len() && #[trigger] r@[i]@ == p by {
                let i0 = choose|i: int| 0 <= i < all@.len() && #[trigger] all@[i]@ == p;
                assert(exists|j: int| 0 <= j < r@.len() && #[trigger] r@[j]@ == (#[trigger] all@[i0])@);
            }
        }
        r
    }

    /// Whether some `Contains` edge leads into node `k`.
    fn has_container_edge(&self, k: usize) -> (r: bool)
        ensures
            r == has_container(self@, k as int),
    {
        let m = self.edge_count();
        let mut e: usize = 0;
        while e < m
            invariant
                m == self@.edges.len(),
                e <= m,
                forall|f: int| 0 <= f < e ==> !(#[trigger] self@.edges[f].1 == k && self@.edges[f].2 == Relation::Contains),
            decreases m - e,
        {
            if let Some((_, b, rel)) = self.edge(e) {
                if b == k && rel == Relation::Contains {
                    return true;
                }
            }
            e = e + 1;
        }
        false
    }

    /// The first root module, by index, named `name`.
    fn first_module_named(&self, name: &str) -> (r: Option<usize>)
        ensures
            r == first_module_from(self@, name@, 0),
    {
        let n = self.node_count();
        let mut i: usize = 0;
        while i < n
            invariant
                n == self@.nodes.len(),
                i <= n,
                first_module_from(self@, name@, 0) == first_module_from(self@, name@, i as int),
            decreases n - i,
        {
            if let Some(node) = self.node(i) {
                if let Node::Module(module) = node {
                    if str_eq(module.name.as_str(), name) && !self.has_container_edge(i) {
                        return Some(i);
                    }
                }
            }
            i = i + 1;
        }
        None
    }

    /// The module named `name` that `cur` contains, by the first such edge.
    fn first_child_named(&self, cur: usize, name: &str) -> (r: Option<usize>)
        ensures
            r == first_child_from(self@, cur, name@, 0),
    {
        let n = self.node_count();
        let m = self.edge_count();
        let mut e: usize = 0;
        while e < m
            invariant
                n == self@.nodes.len(),
                m == self@.edges.len(),
                e <= m,
                first_child_from(self@, cur, name@, 0) == first_child_from(self@, cur, name@, e as int),
            decreases m - e,
        {
            if let Some((a, b, rel)) = self.edge(e) {
                if a == cur && rel == Relation::Contains && b < n {
                    if let Some(node) = self.node(b) {
                        if let Node::Module(module) = node {
                            if str_eq(module.name.as_str(), name) {
                                return Some(b);
                            }
                        }
                    }
                }
            }
            e = e + 1;
        }
        None
    }

    /// The module that the first `k` segments name.
    pub fn find_module_by_segments(&self, segs: &Vec<String>, k: usize) -> (r: Option<usize>)
        requires
            1 <= k <= segs@.len(),
        ensures
            r == find_module(self@, strings_view(segs@).take(k as int)),
            r matches Some(m) ==> m < self@.nodes.len(),
    {
        let ghost t = strings_view(segs@).take(k as int);
        proof {
            lemma_find_module_bound(self@, t);
        }
        let root = self.first_module_named(segs[0].as_str());
        match root {
            None => None,
            Some(root) => {
                let mut cur = root;
                let mut j: usize = 1;
                proof {
                    assert(t.drop_first() =~= t.subrange(1, k as int));
                }
                while j < k
                    invariant
                        1 <= j <= k <= segs@.len(),
                        t == strings_view(segs@).take(k as int),
                        find_module(self@, t) == descend(self@, cur, t.subrange(j as int, k as int)),
                    decreases k - j,
                {
                    let ghost rest = t.subrange(j as int, k as int);
                    proof {
                        assert(rest[0] == segs@[j as int]@);
                        assert(rest.drop_first() =~= t.subrange(j + 1, k as int));
                    }
                    match self.first_child_named(cur, segs[j].as_str()) {
                        None => {
                            return None;
                        },
                        Some(c) => {
                            cur = c;
                        },
                    }
                    j = j + 1;
                }
                proof {
                    assert(t.subrange(k as int, k as int).len() == 0);
                }
                Some(cur)
            },
        }
    }

    /// The module that a `::`-separated path names, found by walking containment down
    /// from a module named like the first segment.
    pub fn find_module_by_path_hierarchical(&self, path: &str) -> (r: Option<usize>)
        ensures
            r == find_module(self@, split_sep(path@)),
            r matches Some(m) ==> m < self@.nodes.len(),
    {
        let segs = split_path(path);
        proof {
            lemma_split_nonempty(path@);
            assert(strings_view(segs@).take(segs@.len() as int) =~= split_sep(path@));
        }
        self.find_module_by_segments(&segs, segs.len())
    }

    /// Inserts `final_type` under the modules that `path` names, creating those that do
    /// not exist yet; returns the index of `final_type`.
    pub fn add_from_path(&mut self, path: &str, final_type: Node) -> (r: usize)
        ensures
            (final(self)@, r) == add_from_path_spec(old(self)@, path@, final_type@),
            contains_forest(old(self)@) ==> contains_forest(final(self)@) && containment_law(final(self)@),
            final(self)@.nodes.len() > old(self)@.nodes.len(),
            r < final(self)@.nodes.len(),
            final(self)@.nodes[r as int] == final_type@,
    {
        let ghost leaf = final_type@;
        let segs = split_path(path);
        let ghost s = split_sep(path@);
        if segs.len() <= 1 {
            let r = self.add_node(final_type);
            proof {
                if contains_forest(old(self)@) {
                    lemma_forest_push(old(self)@, leaf, None);
                    lemma_containment_is_forest(self@);
                }
            }
            return r;
        }
        let mut parent: Option<usize> = None;
        let mut i: usize = 0;
        let last = segs.len() - 1;
        while i < last
            invariant
                last == segs@.len() - 1,
                strings_view(segs@) == s,
                s == split_sep(path@),
                segs@.len() >= 2,
                i + 1 <= segs@.len(),
                insert_modules(old(self)@, s, 0, None) == insert_modules(self@, s, i as int, parent),
                parent matches Some(p) ==> p < self@.nodes.len(),
                contains_forest(old(self)@) ==> contains_forest(self@),
                self@.nodes.len() >= old(self)@.nodes.len(),
            decreases segs@.len() - i,
        {
            let found = self.find_module_by_segments(&segs, i + 1);
            match found {
                Some(m) => {
                    parent = Some(m);
                },
                None => {
                    let name = segs[i].clone();
                    let prefix_path = join_prefix(&segs, i + 1);
                    let ghost g0 = self@;
                    let ghost nv = NodeView {
                        kind: NodeKind::Module,
                        name: s[i as int],
                        path: join_sep(s.take(i + 1)),
                    };
                    let m = self.add_node(Node::Module(Module { name, path: prefix_path }));
                    proof {
                        assert(self@ == push_node(g0, nv));
                        if contains_forest(old(self)@) {
                            lemma_forest_push(g0, nv, parent);
                        }
                    }
                    match parent {
                        Some(p) => {
                            self.add_edge(p, m, Relation::Contains);
                        },
                        None => {},
                    }
                    parent = Some(m);
                },
            }
            i = i + 1;
        }
        let ghost g1 = self@;
        let r = self.add_node(final_type);
        proof {
            if contains_forest(old(self)@) {
                lemma_forest_push(g1, leaf, parent);
            }
        }
        match parent {
            Some(p) => {
                self.add_edge(p, r, Relation::Contains);
            },
            None => {},
        }
        proof {
            if contains_forest(old(self)@) {
                lemma_containment_is_forest(self@);
            }
        }
        r
    }

    /// The node for `path`'s last segment.
    fn leaf_name(path: &str) -> (r: String)
        ensures
            r@ == last_segment(path@),
    {
        let segs = split_path(path);
        proof {
            lemma_split_nonempty(path@);
        }
        let last = segs.len() - 1;
        segs[last].clone()
    }

    /// Inserts a `Type` node named after the last segment of `path`.
    pub fn add_type_from_path(&mut self, path: &str) -> (r: usize)
        ensures
            (final(self)@, r) == add_from_path_spec(old(self)@, path@, leaf_view(NodeKind::Type, path@)),
            contains_forest(old(self)@) ==> contains_forest(final(self)@) && containment_law(final(self)@),
            final(self)@.nodes.len() > old(self)@.nodes.len(),
            r < final(self)@.nodes.len(),
            final(self)@.nodes[r as int] == leaf_view(NodeKind::Type, path@),
    {
        let name = Self::leaf_name(path);
        self.add_from_path(path, Node::Type(Type { name, path: path.to_owned() }))
    }

    /// Inserts a `Function` node named after the last segment of `path`.
    pub fn add_function_from_path(&mut self, path: &str) -> (r: usize)
        ensures
            (final(self)@, r) == add_from_path_spec(old(self)@, path@, leaf_view(NodeKind::Function, path@)),
            contains_forest(old(self)@) ==> contains_forest(final(self)@) && containment_law(final(self)@),
            final(self)@.nodes.len() > old(self)@.nodes.len(),
            r < final(self)@.nodes.len(),
            final(self)@.nodes[r as int] == leaf_view(NodeKind::Function, path@),
    {
        let name = Self::leaf_name(path);
        self.add_from_path(path, Node::Function(Function { name, path: path.to_owned() }))
    }

    /// Inserts a `Trait` node named after the last segment of `path`.
    pub fn add_trait_from_path(&mut self, path: &str) -> (r: usize)
        ensures
            (final(self)@, r) == add_from_path_spec(old(self)@, path@, leaf_view(NodeKind::Trait, path@)),
            contains_forest(old(self)@) ==> contains_forest(final(self)@) && containment_law(final(self)@),
            final(self)@.nodes.len() > old(self)@.nodes.len(),
            r < final(self)@.nodes.len(),
            final(self)@.nodes[r as int] == leaf_view(NodeKind::Trait, path@),
    {
        let name = Self::leaf_name(path);
        self.add_from_path(path, Node::Trait(Trait { name, path: path.to_owned() }))
    }

    /// The full path stored in a node; empty when there is no such node.
    pub fn get_node_path(&self, node_idx: usize) -> (r: String)
        ensures
            node_idx < self@.nodes.len() ==> r@ == self@.nodes[node_idx as int].path,
            node_idx >= self@.nodes.len() ==> r@ == Seq::<char>::empty(),
    {
        match self.node(node_idx) {
            Some(node) => node.full_path(),
            None => String::new(),
        }
    }

    /// The endpoints and relation of an edge, if there is one.
    pub fn edge(&self, index: usize) -> (r: Option<(usize, usize, Relation)>)
        ensures
            index < self@.edges.len() ==> r == Some(self@.edges[index as int]),
            index >= self@.edges.len() ==> r is None,
    {
        match (pet_edge_endpoints(&self.graph, index), pet_edge_weight(&self.graph, index)) {
            (Some((a, b)), Some(w)) => Some((a, b, *w)),
            _ => None,
        }
    }
}

} // verus!
