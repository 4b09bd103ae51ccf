//! The code-generation graph: symbol discovery, resolution and import generation over the
//! entity graph.
use vstd::prelude::*;
use crate::blox::actor::Actor;
use crate::blox::component::Component;
use crate::blox::enums::{EnumDef, EnumVariant};
use crate::blox::ext_state::ExtState;
use crate::blox::message_set::MessageSet;
use crate::blox::state::State;
use crate::field::Field;
use crate::link::Link;
use crate::graph::node::{Module, Node, NodeKind, NodeView, Relation, kind_str};
use crate::graph::walk::{has_cycle, is_topological_order, on_cycle};
use crate::graph::rgraph::{outgoing_from, related_match, select_edges};
use crate::path::{concat_all, concat_parts, contains, str_contains};
use crate::graph::rgraph::{
    GraphView, RustGraph, add_from_path_spec, contains_forest, find_module, leaf_view,
    lemma_forest_push_other_edge, push_edge,
};
use crate::graph::discover::{extract_types, extract_types_from_string, is_prelude, is_prelude_name};
use crate::graph::ty::{
    DiscoveredType, DiscoveredView, Import, LocationView, TypeContext, TypeLocation, import_line,
};
use crate::path::{
    ends_with, last_segment, lemma_split_nonempty, sep_at, split_path, split_sep, starts_with,
    str_ends_with, str_eq, str_starts_with, strings_view, lower_of, to_lower, push_string,
};
use crate::sorted::{insert_sorted, lemma_lex_irreflexive, strictly_sorted};

verus! {

/// The last separator that starts before `k`.
pub open spec fn last_sep_before(s: Seq<char>, k: int) -> Option<int>
    decreases k,
{
    if k <= 0 {
        None
    } else if sep_at(s, k - 1) {
        Some(k - 1)
    } else {
        last_sep_before(s, k - 1)
    }
}

proof fn lemma_last_sep_range(s: Seq<char>, k: int)
    ensures
        last_sep_before(s, k) matches Some(i) ==> 0 <= i < k,
    decreases k,
{
    if k > 0 && !sep_at(s, k - 1) {
        lemma_last_sep_range(s, k - 1);
    }
}

/// The module a path imports from: a glob path without its `::*`, any other path without
/// its last segment.
pub open spec fn owner_path(to: Seq<char>) -> Seq<char> {
    if ends_with(to, "::*"@) {
        to.take(to.len() - 3)
    } else {
        match last_sep_before(to, to.len() as int) {
            Some(i) => to.take(i),
            None => to,
        }
    }
}

/// A path in rooted form: under `crate::`.
pub open spec fn rooted(p: Seq<char>) -> Seq<char> {
    if starts_with(p, "crate::"@) {
        p
    } else {
        "crate::"@ + p
    }
}

/// Importing `to` into module `from` would import from `from` itself.
pub open spec fn is_self_import_spec(from: Seq<char>, to: Seq<char>) -> bool {
    rooted(owner_path(to)) == rooted(from)
}

/// The stored path of a node, empty for a missing node.
pub open spec fn node_path(g: GraphView, idx: usize) -> Seq<char> {
    if idx < g.nodes.len() {
        g.nodes[idx as int].path
    } else {
        Seq::empty()
    }
}

/// Importing node `n` into module `from` imports from `from` itself: its path lies in
/// `from`, or it is a module (a glob target) whose path is `from`, both in rooted form.
pub open spec fn is_self_target(from: Seq<char>, n: NodeView) -> bool {
    is_self_import_spec(from, n.path) || (n.kind == NodeKind::Module && rooted(n.path) == rooted(from))
}

/// Edge `e` is a `Uses` edge out of `idx` whose target, not imported from `from1` or
/// `from2` itself, renders as `line`.
pub open spec fn import_edge(g: GraphView, idx: usize, from1: Seq<char>, from2: Seq<char>, line: Seq<char>, e: int) -> bool {
    &&& 0 <= e < g.edges.len()
    &&& g.edges[e].0 == idx
    &&& g.edges[e].2 == Relation::Uses
    &&& g.edges[e].1 < g.nodes.len()
    &&& !is_self_target(from1, g.nodes[g.edges[e].1 as int])
    &&& !is_self_target(from2, g.nodes[g.edges[e].1 as int])
    &&& line == import_line(g.nodes[g.edges[e].1 as int].path)
}

pub open spec fn import_wanted_below(g: GraphView, idx: usize, from1: Seq<char>, from2: Seq<char>, line: Seq<char>, k: int) -> bool {
    exists|e: int| e < k && #[trigger] import_edge(g, idx, from1, from2, line, e)
}

pub open spec fn import_wanted(g: GraphView, idx: usize, from1: Seq<char>, from2: Seq<char>, line: Seq<char>) -> bool {
    import_wanted_below(g, idx, from1, from2, line, g.edges.len() as int)
}

/// `r` holds, sorted and once each, the import statements of module `idx`.
pub open spec fn imports_are(g: GraphView, idx: usize, from1: Seq<char>, from2: Seq<char>, r: Seq<Seq<char>>) -> bool {
    &&& strictly_sorted(r)
    &&& forall|line: Seq<char>| r.contains(line) <==> import_wanted(g, idx, from1, from2, line)
}

/// The module for a path: the existing one, or a new one inserted under its parents.
pub open spec fn generated_module_spec(g: GraphView, path: Seq<char>) -> (GraphView, usize) {
    match find_module(g, split_sep(path)) {
        Some(m) => (g, m),
        None => add_from_path_spec(g, path, leaf_view(NodeKind::Module, path)),
    }
}

/// The node for an import target: the module (existing or new) for a glob path, a new
/// type otherwise.
pub open spec fn target_node_spec(g: GraphView, path: Seq<char>) -> (GraphView, usize) {
    if ends_with(path, "::*"@) {
        generated_module_spec(g, path.take(path.len() - 3))
    } else {
        add_from_path_spec(g, path, leaf_view(NodeKind::Type, path))
    }
}

/// A `Uses` edge from the module `from` to a new node for `to`, unless that would be a
/// self-import.
pub open spec fn dependency_spec(g: GraphView, from: Seq<char>, to: Seq<char>) -> GraphView {
    if is_self_import_spec(from, to) {
        g
    } else {
        let (g1, f) = generated_module_spec(g, from);
        let (g2, t) = target_node_spec(g1, to);
        push_edge(g2, f, t, Relation::Uses)
    }
}

/// The dependencies added one after the other.
pub open spec fn dependencies_spec(g: GraphView, from: Seq<char>, paths: Seq<Seq<char>>) -> GraphView
    decreases paths.len(),
{
    if paths.len() == 0 {
        g
    } else {
        dependency_spec(dependencies_spec(g, from, paths.drop_last()), from, paths.last())
    }
}

/// The import statement renders its path back out: equal statements import equal paths.
pub proof fn lemma_import_line_injective(p: Seq<char>, q: Seq<char>)
    requires
        import_line(p) == import_line(q),
    ensures
        p == q,
{
    reveal_strlit("use ");
    reveal_strlit(";");
    assert("use "@.len() == 4);
    assert(";"@.len() == 1);
    assert(import_line(p).len() == p.len() + 5);
    assert(import_line(q).len() == q.len() + 5);
    assert(p.len() == q.len());
    assert(p =~= import_line(p).subrange(4, 4 + p.len() as int));
    assert(q =~= import_line(q).subrange(4, 4 + q.len() as int));
}

/// Self-import exclusion: a `Uses` target that lies in the module being generated never
/// appears among that module's import statements.
pub proof fn lemma_self_import_excluded(g: GraphView, idx: usize, from1: Seq<char>, module: Seq<char>, target: Seq<char>)
    requires
        is_self_import_spec(module, target),
    ensures
        !import_wanted(g, idx, from1, module, import_line(target)),
{
    if import_wanted(g, idx, from1, module, import_line(target)) {
        let e = choose|e: int|
            e < g.edges.len() && #[trigger] import_edge(g, idx, from1, module, import_line(target), e);
        lemma_import_line_injective(g.nodes[g.edges[e].1 as int].path, target);
    }
}

/// Deduplication: a strictly sorted list holds each statement once.
pub proof fn lemma_imports_unique(r: Seq<Seq<char>>)
    requires
        strictly_sorted(r),
    ensures
        r.no_duplicates(),
{
    assert forall|i: int, j: int| 0 <= i < r.len() && 0 <= j < r.len() && i != j implies r[i] != r[j] by {
        if i < j {
            assert(crate::sorted::lex_lt(r[i], r[j]));
        } else {
            assert(crate::sorted::lex_lt(r[j], r[i]));
        }
        lemma_lex_irreflexive(r[i]);
    }
}

/// Some record already holds `name` for `module`.
pub open spec fn already_discovered(disc: Seq<DiscoveredView>, name: Seq<char>, module: Seq<char>) -> bool {
    exists|i: int| 0 <= i < disc.len() && #[trigger] disc[i].name == name && disc[i].used_in_module == module
}

/// The records after discovering `names`, each `(name, module)` pair kept once.
pub open spec fn discover_names(
    disc: Seq<DiscoveredView>,
    names: Seq<Seq<char>>,
    full: Seq<char>,
    module: Seq<char>,
    ctx: TypeContext,
) -> Seq<DiscoveredView>
    decreases names.len(),
{
    if names.len() == 0 {
        disc
    } else {
        let d = discover_names(disc, names.drop_last(), full, module, ctx);
        if already_discovered(d, names.last(), module) {
            d
        } else {
            d.push(DiscoveredView { name: names.last(), full_type: full, used_in_module: module, context: ctx })
        }
    }
}

/// The records after discovering the names of one type signature.
pub open spec fn discover_usage_spec(disc: Seq<DiscoveredView>, type_string: Seq<char>, module: Seq<char>, ctx: TypeContext) -> Seq<DiscoveredView> {
    discover_names(disc, extract_types(type_string), type_string, module, ctx)
}

/// The records after discovering several type signatures in order.
pub open spec fn discover_all_spec(disc: Seq<DiscoveredView>, strings: Seq<Seq<char>>, module: Seq<char>, ctx: TypeContext) -> Seq<DiscoveredView>
    decreases strings.len(),
{
    if strings.len() == 0 {
        disc
    } else {
        discover_usage_spec(discover_all_spec(disc, strings.drop_last(), module, ctx), strings.last(), module, ctx)
    }
}

/// The index of the first entry from `k` on whose key is `key`.
pub open spec fn first_key_from<V>(s: Seq<(Seq<char>, V)>, key: Seq<char>, k: int) -> Option<int>
    decreases s.len() - k,
{
    if k < 0 || k >= s.len() {
        None
    } else if s[k].0 == key {
        Some(k)
    } else {
        first_key_from(s, key, k + 1)
    }
}

proof fn lemma_first_key_range<V>(s: Seq<(Seq<char>, V)>, key: Seq<char>, k: int)
    ensures
        first_key_from(s, key, k) matches Some(i) ==> 0 <= i < s.len() && s[i].0 == key,
    decreases s.len() - k,
{
    if !(k < 0 || k >= s.len()) && s[k].0 != key {
        lemma_first_key_range(s, key, k + 1);
    }
}

/// No two entries share a key.
pub open spec fn keys_unique<V>(s: Seq<(Seq<char>, V)>) -> bool {
    forall|i: int, j: int| 0 <= i < s.len() && 0 <= j < s.len() && i != j ==> #[trigger] s[i].0 != #[trigger] s[j].0
}

proof fn lemma_first_key_none<V>(s: Seq<(Seq<char>, V)>, key: Seq<char>, k: int)
    requires
        0 <= k,
        first_key_from(s, key, k) is None,
    ensures
        forall|j: int| k <= j < s.len() ==> #[trigger] s[j].0 != key,
    decreases s.len() - k,
{
    if k < s.len() {
        lemma_first_key_none(s, key, k + 1);
    }
}

/// Setting a key keeps the keys unique.
pub proof fn lemma_assoc_set_unique<V>(s: Seq<(Seq<char>, V)>, key: Seq<char>, v: V)
    requires
        keys_unique(s),
    ensures
        keys_unique(assoc_set(s, key, v)),
{
    lemma_first_key_range(s, key, 0);
    let t = assoc_set(s, key, v);
    match first_key_from(s, key, 0) {
        Some(i) => {
            assert forall|a: int, b: int| 0 <= a < t.len() && 0 <= b < t.len() && a != b implies #[trigger] t[a].0 != #[trigger] t[b].0 by {
                assert(t[a].0 == s[a].0);
                assert(t[b].0 == s[b].0);
            }
        },
        None => {
            lemma_first_key_none(s, key, 0);
            assert forall|a: int, b: int| 0 <= a < t.len() && 0 <= b < t.len() && a != b implies #[trigger] t[a].0 != #[trigger] t[b].0 by {
                if a < s.len() && b < s.len() {
                    assert(t[a] == s[a] && t[b] == s[b]);
                } else if a < s.len() {
                    assert(t[a] == s[a]);
                } else {
                    assert(t[b] == s[b]);
                }
            }
        },
    }
}

pub open spec fn lookup<V>(s: Seq<(Seq<char>, V)>, key: Seq<char>) -> Option<V> {
    match first_key_from(s, key, 0) {
        Some(i) => Some(s[i].1),
        None => None,
    }
}

/// Sets the value of `key`: replaces its entry, or appends one.
pub open spec fn assoc_set<V>(s: Seq<(Seq<char>, V)>, key: Seq<char>, v: V) -> Seq<(Seq<char>, V)> {
    match first_key_from(s, key, 0) {
        Some(i) => s.update(i, (key, v)),
        None => s.push((key, v)),
    }
}

/// The path an actor-custom symbol of the actor module `actor` has.
pub open spec fn messaging_path(actor: Seq<char>, name: Seq<char>) -> Seq<char> {
    local_path(actor, "messaging"@, name)
}

pub open spec fn has_custom(res: Seq<(Seq<char>, LocationView)>, p: Seq<char>) -> bool {
    exists|i: int| 0 <= i < res.len() && #[trigger] res[i].1 == LocationView::ActorCustom(p)
}

/// Classification of a symbol, first match wins: builtin, cached, framework, registered
/// actor-custom symbol of the consuming module's actor, unknown.
pub open spec fn resolve_spec(
    fw: Seq<(Seq<char>, Seq<char>)>,
    res: Seq<(Seq<char>, LocationView)>,
    name: Seq<char>,
    module: Seq<char>,
) -> LocationView {
    if is_prelude(name) {
        LocationView::Builtin
    } else {
        match lookup(res, name) {
            Some(l) => l,
            None => match lookup(fw, name) {
                Some(p) => LocationView::Framework(p),
                None => {
                    let a = split_sep(module)[0];
                    if a.len() > 0 && has_custom(res, messaging_path(a, name)) {
                        LocationView::ActorCustom(messaging_path(a, name))
                    } else {
                        LocationView::Unknown
                    }
                },
            },
        }
    }
}

/// The resolution state: cache, graph, unresolved records.
pub type ResolveState = (Seq<(Seq<char>, LocationView)>, GraphView, Seq<DiscoveredView>);

/// Resolving one record: unknown ones are set aside; the others are cached, and those of
/// the framework or the actor get a `Uses` edge from the consuming module.
pub open spec fn resolve_step(fw: Seq<(Seq<char>, Seq<char>)>, st: ResolveState, d: DiscoveredView) -> ResolveState {
    let loc = resolve_spec(fw, st.0, d.name, d.used_in_module);
    match loc {
        LocationView::Unknown => (st.0, st.1, st.2.push(d)),
        LocationView::Builtin => (assoc_set(st.0, d.name, loc), st.1, st.2),
        LocationView::Framework(p) => (assoc_set(st.0, d.name, loc), dependency_spec(st.1, d.used_in_module, p), st.2),
        LocationView::ActorCustom(p) => (assoc_set(st.0, d.name, loc), dependency_spec(st.1, d.used_in_module, p), st.2),
    }
}

pub open spec fn resolve_all(fw: Seq<(Seq<char>, Seq<char>)>, st: ResolveState, ds: Seq<DiscoveredView>) -> ResolveState
    decreases ds.len(),
{
    if ds.len() == 0 {
        st
    } else {
        resolve_step(fw, resolve_all(fw, st, ds.drop_last()), ds.last())
    }
}

/// The whole state of the code-generation graph as a value.
pub struct CodeGenView {
    pub graph: GraphView,
    pub discovered: Seq<DiscoveredView>,
    pub framework: Seq<(Seq<char>, Seq<char>)>,
    pub resolved: Seq<(Seq<char>, LocationView)>,
    pub unresolved: Seq<DiscoveredView>,
}

/// The kind of a framework symbol.
#[derive(Debug, Clone, Copy, PartialEq, Eq, Structural)]
pub enum FrameworkKind {
    Trait,
    Type,
}

pub open spec fn framework_node_kind(k: FrameworkKind) -> NodeKind {
    match k {
        FrameworkKind::Trait => NodeKind::Trait,
        FrameworkKind::Type => NodeKind::Type,
    }
}

/// The runtime framework's public symbols: name, full path, kind.
pub open spec fn framework_table() -> Seq<(Seq<char>, Seq<char>, FrameworkKind)> {
    seq![
        ("Components"@, "bloxide_tokio::components::Components"@, FrameworkKind::Trait),
        ("Runtime"@, "bloxide_tokio::components::Runtime"@, FrameworkKind::Trait),
        ("Runnable"@, "bloxide_tokio::components::Runnable"@, FrameworkKind::Trait),
        ("TokioMessageHandle"@, "bloxide_tokio::TokioMessageHandle"@, FrameworkKind::Type),
        ("TokioRuntime"@, "bloxide_tokio::TokioRuntime"@, FrameworkKind::Type),
        ("MessageSender"@, "bloxide_tokio::messaging::MessageSender"@, FrameworkKind::Type),
        ("MessageSet"@, "bloxide_tokio::messaging::MessageSet"@, FrameworkKind::Trait),
        ("Message"@, "bloxide_tokio::messaging::Message"@, FrameworkKind::Type),
        ("StandardPayload"@, "bloxide_tokio::messaging::StandardPayload"@, FrameworkKind::Type),
        ("StandardMessage"@, "bloxide_tokio::messaging::StandardMessage"@, FrameworkKind::Type),
        ("StateMachine"@, "bloxide_tokio::state_machine::StateMachine"@, FrameworkKind::Trait),
        ("State"@, "bloxide_tokio::state_machine::State"@, FrameworkKind::Trait),
        ("StateEnum"@, "bloxide_tokio::state_machine::StateEnum"@, FrameworkKind::Trait),
        ("Transition"@, "bloxide_tokio::state_machine::Transition"@, FrameworkKind::Type),
        ("ExtendedState"@, "bloxide_tokio::state_machine::ExtendedState"@, FrameworkKind::Trait),
    ]
}

/// Registering one framework symbol: its path, its classification, its node.
pub open spec fn bootstrap_step(v: CodeGenView, e: (Seq<char>, Seq<char>, FrameworkKind)) -> CodeGenView {
    CodeGenView {
        graph: add_from_path_spec(v.graph, e.1, leaf_view(framework_node_kind(e.2), e.1)).0,
        discovered: v.discovered,
        framework: assoc_set(v.framework, e.0, e.1),
        resolved: assoc_set(v.resolved, e.0, LocationView::Framework(e.1)),
        unresolved: v.unresolved,
    }
}

pub open spec fn bootstrap_all(v: CodeGenView, es: Seq<(Seq<char>, Seq<char>, FrameworkKind)>) -> CodeGenView
    decreases es.len(),
{
    if es.len() == 0 {
        v
    } else {
        bootstrap_step(bootstrap_all(v, es.drop_last()), es.last())
    }
}

pub open spec fn with_graph(v: CodeGenView, g: GraphView) -> CodeGenView {
    CodeGenView { graph: g, discovered: v.discovered, framework: v.framework, resolved: v.resolved, unresolved: v.unresolved }
}

pub open spec fn with_discovered(v: CodeGenView, d: Seq<DiscoveredView>) -> CodeGenView {
    CodeGenView { graph: v.graph, discovered: d, framework: v.framework, resolved: v.resolved, unresolved: v.unresolved }
}

pub open spec fn sub_module(a: Seq<char>, name: Seq<char>) -> Seq<char> {
    a + "::"@ + name
}

/// `crate::<a>::<module>::<name>`.
pub open spec fn local_path(a: Seq<char>, module: Seq<char>, name: Seq<char>) -> Seq<char> {
    "crate::"@ + a + "::"@ + module + "::"@ + name
}

pub open spec fn link_views(ls: Seq<Link>) -> Seq<Seq<char>> {
    ls.map_values(|l: Link| l.0@)
}

/// The arguments of the variants, in order.
pub open spec fn variant_args(vs: Seq<EnumVariant>) -> Seq<Seq<char>>
    decreases vs.len(),
{
    if vs.len() == 0 {
        Seq::empty()
    } else {
        variant_args(vs.drop_last()) + link_views(vs.last().args@)
    }
}

/// The variant arguments of the states that have variants, in order.
pub open spec fn state_args(ss: Seq<State>) -> Seq<Seq<char>>
    decreases ss.len(),
{
    if ss.len() == 0 {
        Seq::empty()
    } else {
        state_args(ss.drop_last()) + match ss.last().variants {
            Some(vs) => variant_args(vs@),
            None => Seq::empty(),
        }
    }
}

/// The variant arguments of the enums, in order.
pub open spec fn enum_args(es: Seq<EnumDef>) -> Seq<Seq<char>>
    decreases es.len(),
{
    if es.len() == 0 {
        Seq::empty()
    } else {
        enum_args(es.drop_last()) + variant_args(es.last().variants@)
    }
}

/// The custom types registered as symbols of the actor's messaging module.
pub open spec fn register_customs(res: Seq<(Seq<char>, LocationView)>, es: Seq<EnumDef>, a: Seq<char>) -> Seq<(Seq<char>, LocationView)>
    decreases es.len(),
{
    if es.len() == 0 {
        res
    } else {
        let r = register_customs(res, es.drop_last(), a);
        assoc_set(r, es.last().ident@, LocationView::ActorCustom(messaging_path(a, es.last().ident@)))
    }
}

/// The modules of an actor, inserted when missing.
pub open spec fn modules_phase(v: CodeGenView, a: Seq<char>) -> CodeGenView {
    let g0 = generated_module_spec(v.graph, a).0;
    let g1 = generated_module_spec(g0, sub_module(a, "component"@)).0;
    let g2 = generated_module_spec(g1, sub_module(a, "states"@)).0;
    let g3 = generated_module_spec(g2, sub_module(a, "ext_state"@)).0;
    let g4 = generated_module_spec(g3, sub_module(a, "runtime"@)).0;
    let g5 = generated_module_spec(g4, sub_module(a, "messaging"@)).0;
    with_graph(v, g5)
}

pub open spec fn ext_state_defaults() -> Seq<Seq<char>> {
    seq!["bloxide_tokio::state_machine::ExtendedState"@]
}

pub open spec fn runtime_defaults() -> Seq<Seq<char>> {
    seq![
        "bloxide_tokio::components::Runnable"@,
        "bloxide_tokio::components::Blox"@,
        "std::pin::Pin"@,
        "tokio::select"@,
    ]
}

pub open spec fn states_defaults() -> Seq<Seq<char>> {
    seq![
        "bloxide_tokio::state_machine::StateMachine"@,
        "bloxide_tokio::state_machine::State"@,
        "bloxide_tokio::state_machine::StateEnum"@,
        "bloxide_tokio::state_machine::Transition"@,
        "bloxide_tokio::components::Components"@,
    ]
}

pub open spec fn messaging_defaults() -> Seq<Seq<char>> {
    seq!["bloxide_tokio::messaging::Message"@, "bloxide_tokio::messaging::MessageSet"@]
}

/// The extended-state module depends on `ExtendedState` and on its field types.
pub open spec fn ext_state_phase(v: CodeGenView, ext: ExtState, a: Seq<char>) -> CodeGenView {
    let m = sub_module(a, "ext_state"@);
    CodeGenView {
        graph: dependencies_spec(v.graph, m, ext_state_defaults()),
        discovered: discover_all_spec(
            v.discovered,
            ext.spec_fields().map_values(|f: Field| f.spec_ty()),
            m,
            TypeContext::ExtendedState,
        ),
        framework: v.framework,
        resolved: v.resolved,
        unresolved: v.unresolved,
    }
}

/// What the component module depends on: `Components`; the handle type when there are
/// handles; the runtime, sender and runtime type when there are receivers; the message
/// set trait and type when there is a message set; the state enum and the extended state.
pub open spec fn component_deps(c: Component, a: Seq<char>) -> Seq<Seq<char>> {
    seq!["bloxide_tokio::components::Components"@] + (if c.message_handles.handles@.len() > 0 {
        seq!["bloxide_tokio::TokioMessageHandle"@]
    } else {
        Seq::empty()
    }) + (if c.message_receivers.receivers@.len() > 0 {
        seq![
            "bloxide_tokio::components::Runtime"@,
            "bloxide_tokio::messaging::MessageSender"@,
            "bloxide_tokio::TokioRuntime"@,
        ]
    } else {
        Seq::empty()
    }) + (if c.message_set is Some {
        seq!["bloxide_tokio::messaging::MessageSet"@]
    } else {
        Seq::empty()
    }) + seq![local_path(a, "states"@, c.states.state_enum.0.ident@)] + (match c.message_set {
        Some(ms) => seq![local_path(a, "messaging"@, ms.def.ident@)],
        None => Seq::empty(),
    }) + seq![local_path(a, "ext_state"@, c.ext_state.spec_ident())]
}

/// The message types of the handles, then of the receivers.
pub open spec fn component_strings(c: Component) -> Seq<Seq<char>> {
    c.message_handles.handles@.map_values(|h: crate::blox::message_handlers::MessageHandle| h.message_type@)
        + c.message_receivers.receivers@.map_values(
        |r: crate::blox::message_handlers::MessageReceiver| r.message_type@,
    )
}

pub open spec fn component_phase(v: CodeGenView, c: Component, a: Seq<char>) -> CodeGenView {
    let m = sub_module(a, "component"@);
    CodeGenView {
        graph: dependencies_spec(v.graph, m, component_deps(c, a)),
        discovered: discover_all_spec(v.discovered, component_strings(c), m, TypeContext::Component),
        framework: v.framework,
        resolved: v.resolved,
        unresolved: v.unresolved,
    }
}

/// What the states module depends on: the state-machine framework, the component type,
/// the message set type when there is one.
pub open spec fn states_deps(c: Component, a: Seq<char>) -> Seq<Seq<char>> {
    states_defaults() + seq![local_path(a, "component"@, c.ident@)] + (match c.message_set {
        Some(ms) => seq![local_path(a, "messaging"@, ms.def.ident@)],
        None => Seq::empty(),
    })
}

pub open spec fn states_phase(v: CodeGenView, c: Component, a: Seq<char>) -> CodeGenView {
    let m = sub_module(a, "states"@);
    CodeGenView {
        graph: dependencies_spec(v.graph, m, states_deps(c, a)),
        discovered: discover_all_spec(
            v.discovered,
            state_args(c.states.states@) + variant_args(c.states.state_enum.0.variants@),
            m,
            TypeContext::States,
        ),
        framework: v.framework,
        resolved: v.resolved,
        unresolved: v.unresolved,
    }
}

pub open spec fn messaging_phase(v: CodeGenView, ms: MessageSet, a: Seq<char>) -> CodeGenView {
    let m = sub_module(a, "messaging"@);
    CodeGenView {
        graph: dependencies_spec(v.graph, m, messaging_defaults()),
        discovered: discover_all_spec(
            v.discovered,
            variant_args(ms.def.variants@) + enum_args(ms.custom_types@),
            m,
            TypeContext::MessageSet,
        ),
        framework: v.framework,
        resolved: register_customs(v.resolved, ms.custom_types@, a),
        unresolved: v.unresolved,
    }
}

pub open spec fn runtime_phase(v: CodeGenView, a: Seq<char>) -> CodeGenView {
    with_graph(v, dependencies_spec(v.graph, sub_module(a, "runtime"@), runtime_defaults()))
}

/// Discovery over a whole actor, whose module is its lowercase name.
pub open spec fn discover_actor_spec(v: CodeGenView, actor: Actor) -> CodeGenView {
    let a = lower_of(actor.ident@);
    let c = actor.component;
    let v1 = modules_phase(v, a);
    let v2 = ext_state_phase(v1, c.ext_state, a);
    let v3 = component_phase(v2, c, a);
    let v4 = states_phase(v3, c, a);
    let v5 = match c.message_set {
        Some(ms) => messaging_phase(v4, ms, a),
        None => v4,
    };
    runtime_phase(v5, a)
}

pub open spec fn resolve_phase(v: CodeGenView) -> CodeGenView {
    let st = resolve_all(v.framework, (v.resolved, v.graph, v.unresolved), v.discovered);
    CodeGenView { graph: st.1, discovered: v.discovered, framework: v.framework, resolved: st.0, unresolved: st.2 }
}

/// The three phases: bootstrap, discovery, resolution.
pub open spec fn analyze_spec(v: CodeGenView, actor: Actor) -> CodeGenView {
    resolve_phase(discover_actor_spec(bootstrap_all(v, framework_table()), actor))
}

/// A cycle among the dependencies, with a node on it.
#[derive(Debug, Clone, Copy, PartialEq, Eq, Structural)]
pub struct CycleDetected {
    pub node: usize,
}

/// A type inserted with a `Uses` edge to a new type node for each dependency.
pub open spec fn generated_type_spec(g: GraphView, t: usize, deps: Seq<Seq<char>>) -> GraphView
    decreases deps.len(),
{
    if deps.len() == 0 {
        g
    } else {
        let g1 = generated_type_spec(g, t, deps.drop_last());
        let (g2, d) = add_from_path_spec(g1, deps.last(), leaf_view(NodeKind::Type, deps.last()));
        push_edge(g2, t, d, Relation::Uses)
    }
}

/// The code mentions the type in one of the shapes of a use: `impl T`, `: T`, `<T>`,
/// `T::`, `T<`, `as T`.
pub open spec fn code_uses(code: Seq<char>, t: Seq<char>) -> bool {
    contains(code, "impl "@ + t) || contains(code, ": "@ + t) || contains(code, "<"@ + t + ">"@)
        || contains(code, t + "::"@) || contains(code, t + "<"@) || contains(code, "as "@ + t)
}

/// The framework symbols whose use in code is recognised, with their paths.
pub open spec fn usage_table() -> Seq<(Seq<char>, Seq<char>)> {
    seq![
        ("Components"@, "bloxide_tokio::components::Components"@),
        ("TokioMessageHandle"@, "bloxide_tokio::TokioMessageHandle"@),
        ("TokioRuntime"@, "bloxide_tokio::TokioRuntime"@),
        ("Runtime"@, "bloxide_tokio::components::Runtime"@),
        ("MessageSender"@, "bloxide_tokio::messaging::MessageSender"@),
        ("MessageSet"@, "bloxide_tokio::messaging::MessageSet"@),
        ("Message"@, "bloxide_tokio::messaging::Message"@),
        ("StateMachine"@, "bloxide_tokio::state_machine::StateMachine"@),
        ("State"@, "bloxide_tokio::state_machine::State"@),
        ("StateEnum"@, "bloxide_tokio::state_machine::StateEnum"@),
        ("Transition"@, "bloxide_tokio::state_machine::Transition"@),
        ("ExtendedState"@, "bloxide_tokio::state_machine::ExtendedState"@),
        ("Runnable"@, "bloxide_tokio::components::Runnable"@),
    ]
}

/// The paths of the table entries whose symbol the code uses, in table order.
pub open spec fn required_imports(code: Seq<char>, table: Seq<(Seq<char>, Seq<char>)>) -> Seq<Seq<char>>
    decreases table.len(),
{
    if table.len() == 0 {
        Seq::empty()
    } else {
        required_imports(code, table.drop_last()) + if code_uses(code, table.last().0) {
            seq![table.last().1]
        } else {
            Seq::empty()
        }
    }
}

pub open spec fn relation_str(r: Relation) -> Seq<char> {
    match r {
        Relation::Contains => "Contains"@,
        Relation::Implements => "Implements"@,
        Relation::Uses => "Uses"@,
    }
}

/// One line per outgoing edge listed in `sel`: `  -> <name> (<relation>)`.
pub open spec fn edge_lines(g: GraphView, sel: Seq<int>, k: int) -> Seq<char>
    decreases k,
{
    if k <= 0 {
        Seq::empty()
    } else {
        let e = g.edges[sel[k - 1]];
        edge_lines(g, sel, k - 1) + "  -> "@ + g.nodes[e.1 as int].name + " ("@ + relation_str(e.2)
            + ")\n"@
    }
}

/// The block of one node: `Node: <name> (<kind>)`, its outgoing edges, a blank line.
pub open spec fn node_block(g: GraphView, i: int) -> Seq<char> {
    let sel = select_edges(g.edges, outgoing_from(i as usize, g.nodes.len()), g.edges.len() as int);
    "Node: "@ + g.nodes[i].name + " ("@ + kind_str(g.nodes[i].kind) + ")\n"@ + edge_lines(
        g,
        sel,
        sel.len() as int,
    ) + "\n"@
}

pub open spec fn node_blocks(g: GraphView, k: int) -> Seq<char>
    decreases k,
{
    if k <= 0 {
        Seq::empty()
    } else {
        node_blocks(g, k - 1) + node_block(g, k - 1)
    }
}

/// The dump of all nodes and their outgoing relations.
pub open spec fn debug_text(g: GraphView) -> Seq<char> {
    "=== Code Generation Dependency Graph ===\n"@ + node_blocks(g, g.nodes.len() as int)
}

pub open spec fn context_str(c: TypeContext) -> Seq<char> {
    match c {
        TypeContext::ExtendedState => "ExtendedState"@,
        TypeContext::Component => "Component"@,
        TypeContext::States => "States"@,
        TypeContext::MessageSet => "MessageSet"@,
        TypeContext::Runtime => "Runtime"@,
    }
}

/// A location as written in the dump: its kind, with the path in quotes.
pub open spec fn location_str(l: LocationView) -> Seq<char> {
    match l {
        LocationView::Builtin => "Builtin"@,
        LocationView::Framework(p) => concat_all(seq!["BloxideFramework(\""@, p, "\")"@]),
        LocationView::ActorCustom(p) => concat_all(seq!["ActorCustom(\""@, p, "\")"@]),
        LocationView::Unknown => "Unknown"@,
    }
}

pub open spec fn framework_lines(fw: Seq<(Seq<char>, Seq<char>)>) -> Seq<char>
    decreases fw.len(),
{
    if fw.len() == 0 {
        Seq::empty()
    } else {
        framework_lines(fw.drop_last()) + concat_all(seq!["  "@, fw.last().0, " -> "@, fw.last().1, "\n"@])
    }
}

pub open spec fn discovered_lines(ds: Seq<DiscoveredView>) -> Seq<char>
    decreases ds.len(),
{
    if ds.len() == 0 {
        Seq::empty()
    } else {
        discovered_lines(ds.drop_last()) + concat_all(
            seq![
                "  "@,
                ds.last().name,
                " (in "@,
                ds.last().used_in_module,
                ", context: "@,
                context_str(ds.last().context),
                ")\n"@,
            ],
        )
    }
}

pub open spec fn resolved_lines(res: Seq<(Seq<char>, LocationView)>) -> Seq<char>
    decreases res.len(),
{
    if res.len() == 0 {
        Seq::empty()
    } else {
        resolved_lines(res.drop_last()) + concat_all(
            seq!["  "@, res.last().0, " -> "@, location_str(res.last().1), "\n"@],
        )
    }
}

/// The dump of the framework table, the discovered records and the cache, in order.
pub open spec fn resolution_text(v: CodeGenView) -> Seq<char> {
    "=== Type Resolution Debug ===\n\nFramework Types:\n"@ + framework_lines(v.framework)
        + "\nDiscovered Types:\n"@ + discovered_lines(v.discovered) + "\nResolved Types:\n"@
        + resolved_lines(v.resolved)
}

/// The code-generation graph of one actor: the entity graph with the records of the
/// discovery and resolution phases.
pub struct CodeGenGraph {
    pub graph: RustGraph,
    /// Symbols found during discovery.
    pub discovered_types: Vec<DiscoveredType>,
    /// Framework symbol name to full path.
    pub framework_types: Vec<(String, String)>,
    /// Symbol name to where it was resolved, one entry per name.
    pub resolved_types: Vec<(String, TypeLocation)>,
    /// Discovered symbols that could not be resolved.
    pub unresolved_types: Vec<DiscoveredType>,
}

impl Default for CodeGenGraph {
    fn default() -> (r: Self)
        ensures
            r.graph@.nodes.len() == 0,
            r.graph@.edges.len() == 0,
            r.wf(),
            r.spec_discovered().len() == 0,
            r.spec_framework().len() == 0,
            r.spec_resolved().len() == 0,
            r.spec_unresolved().len() == 0,
    {
        Self::new()
    }
}

impl View for CodeGenGraph {
    type V = CodeGenView;

    open spec fn view(&self) -> CodeGenView {
        CodeGenView {
            graph: self.graph@,
            discovered: self.spec_discovered(),
            framework: self.spec_framework(),
            resolved: self.spec_resolved(),
            unresolved: self.spec_unresolved(),
        }
    }
}

impl CodeGenGraph {
    pub open spec fn spec_discovered(&self) -> Seq<DiscoveredView> {
        self.discovered_types@.map_values(|d: DiscoveredType| d@)
    }

    pub open spec fn spec_framework(&self) -> Seq<(Seq<char>, Seq<char>)> {
        self.framework_types@.map_values(|e: (String, String)| (e.0@, e.1@))
    }

    pub open spec fn spec_resolved(&self) -> Seq<(Seq<char>, LocationView)> {
        self.resolved_types@.map_values(|e: (String, TypeLocation)| (e.0@, e.1@))
    }

    pub open spec fn spec_unresolved(&self) -> Seq<DiscoveredView> {
        self.unresolved_types@.map_values(|d: DiscoveredType| d@)
    }

    /// Containment in the entity graph is a forest, and the framework table and the
    /// cache hold each name once.
    pub open spec fn wf(&self) -> bool {
        &&& contains_forest(self.graph@)
        &&& keys_unique(self.spec_framework())
        &&& keys_unique(self.spec_resolved())
    }

    pub fn new() -> (r: Self)
        ensures
            r.graph@.nodes.len() == 0,
            r.graph@.edges.len() == 0,
            r.wf(),
            r.spec_discovered().len() == 0,
            r.spec_framework().len() == 0,
            r.spec_resolved().len() == 0,
            r.spec_unresolved().len() == 0,
    {
        CodeGenGraph {
            graph: RustGraph::new(),
            discovered_types: Vec::new(),
            framework_types: Vec::new(),
            resolved_types: Vec::new(),
            unresolved_types: Vec::new(),
        }
    }

    /// The position of the last `::` in `s`.
    fn last_sep(s: &str) -> (r: Option<usize>)
        ensures
            match last_sep_before(s@, s@.len() as int) {
                Some(i) => r == Some(i as usize),
                None => r is None,
            },
            r matches Some(i) ==> i < s@.len(),
    {
        let n = s.unicode_len();
        proof {
            lemma_last_sep_range(s@, n as int);
        }
        let mut k: usize = n;
        while k > 0
            invariant
                k <= n,
                n == s@.len(),
                last_sep_before(s@, n as int) == last_sep_before(s@, k as int),
            decreases k,
        {
            if k < n && s.get_char(k - 1) == ':' && s.get_char(k) == ':' {
                proof {
                    assert(sep_at(s@, k - 1));
                }
                return Some(k - 1);
            }
            proof {
                assert(!sep_at(s@, k - 1));
            }
            k = k - 1;
        }
        None
    }

    fn owner(to: &str) -> (r: String)
        ensures
            r@ == owner_path(to@),
    {
        let n = to.unicode_len();
        if str_ends_with(to, "::*") {
            proof {
                reveal_strlit("::*");
            }
            return to.substring_char(0, n - 3).to_owned();
        }
        proof {
            lemma_last_sep_range(to@, to@.len() as int);
        }
        match Self::last_sep(to) {
            Some(i) => to.substring_char(0, i).to_owned(),
            None => to.to_owned(),
        }
    }

    fn rooted_path(p: &str) -> (r: String)
        ensures
            r@ == rooted(p@),
    {
        if str_starts_with(p, "crate::") {
            p.to_owned()
        } else {
            let mut r = String::from_str("crate::");
            r.append(p);
            r
        }
    }

    /// Whether importing `to_path` into `from_module` imports from that module itself,
    /// both compared in rooted form.
    pub fn is_self_import(&self, from_module: &str, to_path: &str) -> (r: bool)
        ensures
            r == is_self_import_spec(from_module@, to_path@),
    {
        let owner = Self::owner(to_path);
        let a = Self::rooted_path(owner.as_str());
        let b = Self::rooted_path(from_module);
        str_eq(a.as_str(), b.as_str())
    }

    /// Whether importing a node with path `path` (a module when `is_module`) into
    /// `from_module` imports from that module itself.
    fn is_self_target_exec(&self, from_module: &str, path: &str, is_module: bool) -> (r: bool)
        ensures
            r == (is_self_import_spec(from_module@, path@) || (is_module && rooted(path@) == rooted(
                from_module@,
            ))),
    {
        if self.is_self_import(from_module, path) {
            return true;
        }
        if !is_module {
            return false;
        }
        let a = Self::rooted_path(path);
        let b = Self::rooted_path(from_module);
        str_eq(a.as_str(), b.as_str())
    }

    /// The sorted, deduplicated import statements for the `Uses` edges out of `idx`,
    /// without self-imports of the module at `idx` or of `also_from`.
    fn imports_of(&self, idx: usize, also_from: &str) -> (r: Vec<String>)
        ensures
            imports_are(self.graph@, idx, node_path(self.graph@, idx), also_from@, strings_view(r@)),
    {
        let ghost g = self.graph@;
        let own = self.graph.get_node_path(idx);
        let m = self.graph.edge_count();
        let mut r: Vec<String> = Vec::new();
        let mut e: usize = 0;
        while e < m
            invariant
                g == self.graph@,
                m == g.edges.len(),
                e <= m,
                own@ == node_path(g, idx),
                strictly_sorted(strings_view(r@)),
                forall|line: Seq<char>|
                    strings_view(r@).contains(line) <==> import_wanted_below(
                        g,
                        idx,
                        own@,
                        also_from@,
                        line,
                        e as int,
                    ),
            decreases m - e,
        {
            let ghost before = strings_view(r@);
            if let Some((a, b, rel)) = self.graph.edge(e) {
                if a == idx && rel == Relation::Uses && b < self.graph.node_count() {
                    let target = self.graph.get_node_path(b);
                    let is_module = match self.graph.node(b) {
                        Some(Node::Module(_)) => true,
                        _ => false,
                    };
                    if !self.is_self_target_exec(own.as_str(), target.as_str(), is_module)
                        && !self.is_self_target_exec(also_from, target.as_str(), is_module) {
                        let line = Import::new(target.as_str()).rust_import();
                        let ghost l = line@;
                        insert_sorted(&mut r, line);
                        proof {
                            assert(import_edge(g, idx, own@, also_from@, l, e as int));
                            assert forall|x: Seq<char>|
                                strings_view(r@).contains(x) <==> import_wanted_below(
                                    g,
                                    idx,
                                    own@,
                                    also_from@,
                                    x,
                                    e + 1,
                                ) by {
                                if import_wanted_below(g, idx, own@, also_from@, x, e + 1) {
                                    let f = choose|f: int|
                                        f < e + 1 && #[trigger] import_edge(g, idx, own@, also_from@, x, f);
                                    if f < e {
                                        assert(import_wanted_below(g, idx, own@, also_from@, x, e as int));
                                    }
                                }
                                if before.contains(x) {
                                    assert(import_wanted_below(g, idx, own@, also_from@, x, e as int));
                                    let f = choose|f: int|
                                        f < e && #[trigger] import_edge(g, idx, own@, also_from@, x, f);
                                    assert(import_edge(g, idx, own@, also_from@, x, f));
                                }
                            }
                        }
                        e = e + 1;
                        continue;
                    }
                }
            }
            proof {
                assert forall|x: Seq<char>|
                    strings_view(r@).contains(x) <==> import_wanted_below(g, idx, own@, also_from@, x, e + 1) by {
                    if import_wanted_below(g, idx, own@, also_from@, x, e + 1) {
                        let f = choose|f: int|
                            f < e + 1 && #[trigger] import_edge(g, idx, own@, also_from@, x, f);
                        if f < e {
                            assert(import_wanted_below(g, idx, own@, also_from@, x, e as int));
                        }
                    }
                    if before.contains(x) {
                        assert(import_wanted_below(g, idx, own@, also_from@, x, e as int));
                        let f = choose|f: int|
                            f < e && #[trigger] import_edge(g, idx, own@, also_from@, x, f);
                        assert(import_edge(g, idx, own@, also_from@, x, f));
                    }
                }
            }
            e = e + 1;
        }
        r
    }

    /// The import statements of the module at `module_idx`: one `use` per `Uses` target,
    /// sorted, deduplicated, without self-imports.
    pub fn get_imports_for_module(&self, module_idx: usize) -> (r: Vec<String>)
        ensures
            imports_are(
                self.graph@,
                module_idx,
                node_path(self.graph@, module_idx),
                node_path(self.graph@, module_idx),
                strings_view(r@),
            ),
    {
        let own = self.graph.get_node_path(module_idx);
        self.imports_of(module_idx, own.as_str())
    }

    /// The import statements of the module that `mod_path` names; none when no module
    /// has that path.
    pub fn generate_imports_for_module(&self, mod_path: &str) -> (r: Vec<String>)
        ensures
            match find_module(self.graph@, split_sep(mod_path@)) {
                None => r@.len() == 0,
                Some(m) => imports_are(
                    self.graph@,
                    m,
                    node_path(self.graph@, m),
                    mod_path@,
                    strings_view(r@),
                ),
            },
    {
        match self.graph.find_module_by_path_hierarchical(mod_path) {
            Some(m) => self.imports_of(m, mod_path),
            None => Vec::new(),
        }
    }

    /// The full path stored in a node.
    pub fn get_node_path(&self, node_idx: usize) -> (r: String)
        ensures
            r@ == node_path(self.graph@, node_idx),
    {
        self.graph.get_node_path(node_idx)
    }

    fn module_node(path: &str) -> (r: Node)
        ensures
            r@ == leaf_view(NodeKind::Module, path@),
    {
        let segs = split_path(path);
        proof {
            lemma_split_nonempty(path@);
        }
        let name = segs[segs.len() - 1].clone();
        Node::Module(Module { name, path: path.to_owned() })
    }

    /// The module for `mod_path`, inserted with its parents when missing.
    pub fn add_generated_module(&mut self, mod_path: &str) -> (r: usize)
        requires
            old(self).wf(),
        ensures
            final(self).wf(),
            (final(self).graph@, r) == generated_module_spec(old(self).graph@, mod_path@),
            r < final(self).graph@.nodes.len(),
            final(self).graph@.nodes.len() >= old(self).graph@.nodes.len(),
            final(self).spec_discovered() == old(self).spec_discovered(),
            final(self).spec_framework() == old(self).spec_framework(),
            final(self).spec_resolved() == old(self).spec_resolved(),
            final(self).spec_unresolved() == old(self).spec_unresolved(),
    {
        match self.graph.find_module_by_path_hierarchical(mod_path) {
            Some(m) => m,
            None => {
                let node = Self::module_node(mod_path);
                self.graph.add_from_path(mod_path, node)
            },
        }
    }

    /// A new node for an import target: a module for a glob path, a type otherwise.
    pub fn get_or_create_node_by_path(&mut self, path: &str) -> (r: usize)
        requires
            old(self).wf(),
        ensures
            final(self).wf(),
            (final(self).graph@, r) == target_node_spec(old(self).graph@, path@),
            r < final(self).graph@.nodes.len(),
            final(self).graph@.nodes.len() >= old(self).graph@.nodes.len(),
            final(self).spec_discovered() == old(self).spec_discovered(),
            final(self).spec_framework() == old(self).spec_framework(),
            final(self).spec_resolved() == old(self).spec_resolved(),
            final(self).spec_unresolved() == old(self).spec_unresolved(),
    {
        if str_ends_with(path, "::*") {
            proof {
                reveal_strlit("::*");
            }
            let n = path.unicode_len();
            let m = path.substring_char(0, n - 3);
            return self.add_generated_module(m);
        }
        self.graph.add_type_from_path(path)
    }

    /// A `Uses` edge from module `from_module` (inserted when missing) to a new node for
    /// `to_path`; nothing when that would be a self-import.
    pub fn add_dependency_by_path(&mut self, from_module: &str, to_path: &str)
        requires
            old(self).wf(),
        ensures
            final(self).wf(),
            final(self).graph@ == dependency_spec(old(self).graph@, from_module@, to_path@),
            final(self).graph@.nodes.len() >= old(self).graph@.nodes.len(),
            final(self).spec_discovered() == old(self).spec_discovered(),
            final(self).spec_framework() == old(self).spec_framework(),
            final(self).spec_resolved() == old(self).spec_resolved(),
            final(self).spec_unresolved() == old(self).spec_unresolved(),
    {
        if self.is_self_import(from_module, to_path) {
            return;
        }
        let from = self.add_generated_module(from_module);
        let to = self.get_or_create_node_by_path(to_path);
        proof {
            lemma_forest_push_other_edge(self.graph@, from, to, Relation::Uses);
        }
        self.graph.add_edge(from, to, Relation::Uses);
    }

    /// Adds the dependencies in order.
    fn add_dependencies(&mut self, from_module: &str, paths: &Vec<String>)
        requires
            old(self).wf(),
        ensures
            final(self).wf(),
            final(self).graph@ == dependencies_spec(old(self).graph@, from_module@, strings_view(paths@)),
            final(self).spec_discovered() == old(self).spec_discovered(),
            final(self).spec_framework() == old(self).spec_framework(),
            final(self).spec_resolved() == old(self).spec_resolved(),
            final(self).spec_unresolved() == old(self).spec_unresolved(),
    {
        let mut i: usize = 0;
        while i < paths.len()
            invariant
                i <= paths@.len(),
                self.wf(),
                self.graph@ == dependencies_spec(
                    old(self).graph@,
                    from_module@,
                    strings_view(paths@).take(i as int),
                ),
                self.spec_discovered() == old(self).spec_discovered(),
                self.spec_framework() == old(self).spec_framework(),
                self.spec_resolved() == old(self).spec_resolved(),
                self.spec_unresolved() == old(self).spec_unresolved(),
            decreases paths@.len() - i,
        {
            proof {
                let t = strings_view(paths@).take(i + 1);
                assert(t.drop_last() =~= strings_view(paths@).take(i as int));
                assert(t.last() == paths@[i as int]@);
            }
            self.add_dependency_by_path(from_module, paths[i].as_str());
            i = i + 1;
        }
        proof {
            assert(strings_view(paths@).take(paths@.len() as int) =~= strings_view(paths@));
        }
    }

    /// Records each candidate name of `type_string` for `mod_path`, once per pair.
    pub fn discover_type_usage(&mut self, type_string: &str, mod_path: &str, context: TypeContext)
        ensures
            final(self).spec_discovered() == discover_usage_spec(
                old(self).spec_discovered(),
                type_string@,
                mod_path@,
                context,
            ),
            final(self).graph == old(self).graph,
            final(self).spec_framework() == old(self).spec_framework(),
            final(self).spec_resolved() == old(self).spec_resolved(),
            final(self).spec_unresolved() == old(self).spec_unresolved(),
    {
        let types = extract_types_from_string(type_string);
        let ghost names = strings_view(types@);
        let mut k: usize = 0;
        proof {
            assert(names.take(0) =~= Seq::<Seq<char>>::empty());
        }
        while k < types.len()
            invariant
                names == strings_view(types@),
                names == extract_types(type_string@),
                k <= types@.len(),
                self.spec_discovered() == discover_names(
                    old(self).spec_discovered(),
                    names.take(k as int),
                    type_string@,
                    mod_path@,
                    context,
                ),
                self.graph == old(self).graph,
                self.spec_framework() == old(self).spec_framework(),
                self.spec_resolved() == old(self).spec_resolved(),
                self.spec_unresolved() == old(self).spec_unresolved(),
            decreases types@.len() - k,
        {
            let name = types[k].as_str();
            proof {
                assert(names.take(k + 1).drop_last() =~= names.take(k as int));
                assert(names.take(k + 1).last() == name@);
            }
            let ghost d = self.spec_discovered();
            let mut found = false;
            let mut i: usize = 0;
            while i < self.discovered_types.len()
                invariant
                    i <= self.discovered_types@.len(),
                    d == self.spec_discovered(),
                    !found ==> forall|j: int|
                        0 <= j < i ==> !(#[trigger] d[j].name == name@ && d[j].used_in_module
                            == mod_path@),
                    found ==> already_discovered(d, name@, mod_path@),
                decreases self.discovered_types@.len() - i,
            {
                let dt = &self.discovered_types[i];
                if str_eq(dt.name.as_str(), name) && str_eq(dt.used_in_module.as_str(), mod_path) {
                    proof {
                        assert(d[i as int].name == name@);
                    }
                    found = true;
                }
                i = i + 1;
            }
            if !found {
                let record = DiscoveredType {
                    name: name.to_owned(),
                    full_type: type_string.to_owned(),
                    used_in_module: mod_path.to_owned(),
                    context,
                };
                self.discovered_types.push(record);
                proof {
                    assert(self.spec_discovered() =~= d.push(record@));
                }
            }
            k = k + 1;
        }
        proof {
            assert(names.take(types@.len() as int) =~= names);
        }
    }

    /// Discovers the signatures in order.
    fn discover_all(&mut self, strings: &Vec<String>, mod_path: &str, context: TypeContext)
        ensures
            final(self).spec_discovered() == discover_all_spec(
                old(self).spec_discovered(),
                strings_view(strings@),
                mod_path@,
                context,
            ),
            final(self).graph == old(self).graph,
            final(self).spec_framework() == old(self).spec_framework(),
            final(self).spec_resolved() == old(self).spec_resolved(),
            final(self).spec_unresolved() == old(self).spec_unresolved(),
    {
        let mut i: usize = 0;
        while i < strings.len()
            invariant
                i <= strings@.len(),
                self.spec_discovered() == discover_all_spec(
                    old(self).spec_discovered(),
                    strings_view(strings@).take(i as int),
                    mod_path@,
                    context,
                ),
                self.graph == old(self).graph,
                self.spec_framework() == old(self).spec_framework(),
                self.spec_resolved() == old(self).spec_resolved(),
                self.spec_unresolved() == old(self).spec_unresolved(),
            decreases strings@.len() - i,
        {
            proof {
                let t = strings_view(strings@).take(i + 1);
                assert(t.drop_last() =~= strings_view(strings@).take(i as int));
                assert(t.last() == strings@[i as int]@);
            }
            self.discover_type_usage(strings[i].as_str(), mod_path, context);
            i = i + 1;
        }
        proof {
            assert(strings_view(strings@).take(strings@.len() as int) =~= strings_view(strings@));
        }
    }

    fn resolved_index(&self, name: &str) -> (r: Option<usize>)
        ensures
            r is None <==> first_key_from(self.spec_resolved(), name@, 0) is None,
            r matches Some(i) ==> first_key_from(self.spec_resolved(), name@, 0) == Some(i as int) && i
                < self.spec_resolved().len(),
    {
        proof {
            lemma_first_key_range(self.spec_resolved(), name@, 0);
        }
        let mut i: usize = 0;
        while i < self.resolved_types.len()
            invariant
                i <= self.resolved_types@.len(),
                first_key_from(self.spec_resolved(), name@, 0) == first_key_from(
                    self.spec_resolved(),
                    name@,
                    i as int,
                ),
            decreases self.resolved_types@.len() - i,
        {
            if str_eq(self.resolved_types[i].0.as_str(), name) {
                return Some(i);
            }
            i = i + 1;
        }
        None
    }

    fn framework_index(&self, name: &str) -> (r: Option<usize>)
        ensures
            r is None <==> first_key_from(self.spec_framework(), name@, 0) is None,
            r matches Some(i) ==> first_key_from(self.spec_framework(), name@, 0) == Some(i as int) && i
                < self.spec_framework().len(),
    {
        proof {
            lemma_first_key_range(self.spec_framework(), name@, 0);
        }
        let mut i: usize = 0;
        while i < self.framework_types.len()
            invariant
                i <= self.framework_types@.len(),
                first_key_from(self.spec_framework(), name@, 0) == first_key_from(
                    self.spec_framework(),
                    name@,
                    i as int,
                ),
            decreases self.framework_types@.len() - i,
        {
            if str_eq(self.framework_types[i].0.as_str(), name) {
                return Some(i);
            }
            i = i + 1;
        }
        None
    }

    /// Sets the cached classification of `name`.
    fn set_resolved(&mut self, name: &str, loc: TypeLocation)
        ensures
            final(self).spec_resolved() == assoc_set(old(self).spec_resolved(), name@, loc@),
            keys_unique(old(self).spec_resolved()) ==> keys_unique(final(self).spec_resolved()),
            final(self).graph == old(self).graph,
            final(self).spec_discovered() == old(self).spec_discovered(),
            final(self).spec_framework() == old(self).spec_framework(),
            final(self).spec_unresolved() == old(self).spec_unresolved(),
    {
        let ghost lv = loc@;
        proof {
            if keys_unique(self.spec_resolved()) {
                lemma_assoc_set_unique(self.spec_resolved(), name@, lv);
            }
        }
        match self.resolved_index(name) {
            Some(i) => {
                self.resolved_types.set(i, (name.to_owned(), loc));
                proof {
                    assert(self.spec_resolved() =~= old(self).spec_resolved().update(i as int, (name@, lv)));
                }
            },
            None => {
                self.resolved_types.push((name.to_owned(), loc));
                proof {
                    assert(self.spec_resolved() =~= old(self).spec_resolved().push((name@, lv)));
                }
            },
        }
    }

    /// Sets the framework path of `name`.
    fn set_framework(&mut self, name: &str, path: &str)
        ensures
            final(self).spec_framework() == assoc_set(old(self).spec_framework(), name@, path@),
            keys_unique(old(self).spec_framework()) ==> keys_unique(final(self).spec_framework()),
            final(self).graph == old(self).graph,
            final(self).spec_discovered() == old(self).spec_discovered(),
            final(self).spec_resolved() == old(self).spec_resolved(),
            final(self).spec_unresolved() == old(self).spec_unresolved(),
    {
        proof {
            if keys_unique(self.spec_framework()) {
                lemma_assoc_set_unique(self.spec_framework(), name@, path@);
            }
        }
        match self.framework_index(name) {
            Some(i) => {
                self.framework_types.set(i, (name.to_owned(), path.to_owned()));
                proof {
                    assert(self.spec_framework() =~= old(self).spec_framework().update(i as int, (name@, path@)));
                }
            },
            None => {
                self.framework_types.push((name.to_owned(), path.to_owned()));
                proof {
                    assert(self.spec_framework() =~= old(self).spec_framework().push((name@, path@)));
                }
            },
        }
    }

    fn has_custom_path(&self, p: &str) -> (r: bool)
        ensures
            r == has_custom(self.spec_resolved(), p@),
    {
        let mut i: usize = 0;
        while i < self.resolved_types.len()
            invariant
                i <= self.resolved_types@.len(),
                forall|j: int|
                    0 <= j < i ==> #[trigger] self.spec_resolved()[j].1 != LocationView::ActorCustom(p@),
            decreases self.resolved_types@.len() - i,
        {
            if let TypeLocation::ActorCustom(q) = &self.resolved_types[i].1 {
                if str_eq(q.as_str(), p) {
                    proof {
                        assert(self.spec_resolved()[i as int].1 == LocationView::ActorCustom(p@));
                    }
                    return true;
                }
            }
            i = i + 1;
        }
        false
    }

    /// Classifies `symbol` as used in `used_in_module`.
    pub fn resolve_type_location(&self, symbol: &str, used_in_module: &str) -> (r: TypeLocation)
        ensures
            r@ == resolve_spec(self.spec_framework(), self.spec_resolved(), symbol@, used_in_module@),
    {
        if is_prelude_name(symbol) {
            return TypeLocation::Builtin;
        }
        if let Some(i) = self.resolved_index(symbol) {
            return self.resolved_types[i].1.duplicate();
        }
        if let Some(i) = self.framework_index(symbol) {
            return TypeLocation::BloxideFramework(self.framework_types[i].1.clone());
        }
        let segs = split_path(used_in_module);
        proof {
            lemma_split_nonempty(used_in_module@);
        }
        let actor = segs[0].as_str();
        if actor.unicode_len() > 0 {
            let path = Self::local_path_of(actor, "messaging", symbol);
            if self.has_custom_path(path.as_str()) {
                return TypeLocation::ActorCustom(path);
            }
        }
        TypeLocation::Unknown
    }

    /// Resolves every discovered record in order: unknown ones are set aside, the others
    /// are cached and, for framework and actor symbols, recorded as a `Uses` edge.
    pub fn resolve_type_relationships(&mut self) -> (r: Result<(), String>)
        requires
            old(self).wf(),
        ensures
            r is Ok,
            final(self).wf(),
            (final(self).spec_resolved(), final(self).graph@, final(self).spec_unresolved()) == resolve_all(
                old(self).spec_framework(),
                (old(self).spec_resolved(), old(self).graph@, old(self).spec_unresolved()),
                old(self).spec_discovered(),
            ),
            final(self).spec_discovered() == old(self).spec_discovered(),
            final(self).spec_framework() == old(self).spec_framework(),
    {
        let ghost ds = self.spec_discovered();
        let ghost fw = self.spec_framework();
        let n = self.discovered_types.len();
        let mut i: usize = 0;
        proof {
            assert(ds.take(0) =~= Seq::<DiscoveredView>::empty());
        }
        while i < n
            invariant
                n == ds.len(),
                i <= n,
                self.wf(),
                ds == self.spec_discovered(),
                fw == self.spec_framework(),
                (self.spec_resolved(), self.graph@, self.spec_unresolved()) == resolve_all(
                    fw,
                    (old(self).spec_resolved(), old(self).graph@, old(self).spec_unresolved()),
                    ds.take(i as int),
                ),
            decreases n - i,
        {
            let name = self.discovered_types[i].name.clone();
            let module = self.discovered_types[i].used_in_module.clone();
            let ghost d = ds[i as int];
            proof {
                assert(ds.take(i + 1).drop_last() =~= ds.take(i as int));
                assert(ds.take(i + 1).last() == d);
            }
            let loc = self.resolve_type_location(name.as_str(), module.as_str());
            match loc {
                TypeLocation::Unknown => {
                    let record = DiscoveredType {
                        name: name,
                        full_type: self.discovered_types[i].full_type.clone(),
                        used_in_module: module,
                        context: self.discovered_types[i].context,
                    };
                    self.unresolved_types.push(record);
                },
                TypeLocation::Builtin => {
                    self.set_resolved(name.as_str(), TypeLocation::Builtin);
                },
                TypeLocation::BloxideFramework(p) => {
                    self.set_resolved(name.as_str(), TypeLocation::BloxideFramework(p.clone()));
                    self.add_dependency_by_path(module.as_str(), p.as_str());
                },
                TypeLocation::ActorCustom(p) => {
                    self.set_resolved(name.as_str(), TypeLocation::ActorCustom(p.clone()));
                    self.add_dependency_by_path(module.as_str(), p.as_str());
                },
            }
            i = i + 1;
        }
        proof {
            assert(ds.take(n as int) =~= ds);
        }
        Ok(())
    }

    /// The framework table, as values.
    fn framework_entries() -> (r: Vec<(&'static str, &'static str, FrameworkKind)>)
        ensures
            r@.map_values(|e: (&'static str, &'static str, FrameworkKind)| (e.0@, e.1@, e.2))
                == framework_table(),
    {
        let r = vec![
            ("Components", "bloxide_tokio::components::Components", FrameworkKind::Trait),
            ("Runtime", "bloxide_tokio::components::Runtime", FrameworkKind::Trait),
            ("Runnable", "bloxide_tokio::components::Runnable", FrameworkKind::Trait),
            ("TokioMessageHandle", "bloxide_tokio::TokioMessageHandle", FrameworkKind::Type),
            ("TokioRuntime", "bloxide_tokio::TokioRuntime", FrameworkKind::Type),
            ("MessageSender", "bloxide_tokio::messaging::MessageSender", FrameworkKind::Type),
            ("MessageSet", "bloxide_tokio::messaging::MessageSet", FrameworkKind::Trait),
            ("Message", "bloxide_tokio::messaging::Message", FrameworkKind::Type),
            ("StandardPayload", "bloxide_tokio::messaging::StandardPayload", FrameworkKind::Type),
            ("StandardMessage", "bloxide_tokio::messaging::StandardMessage", FrameworkKind::Type),
            ("StateMachine", "bloxide_tokio::state_machine::StateMachine", FrameworkKind::Trait),
            ("State", "bloxide_tokio::state_machine::State", FrameworkKind::Trait),
            ("StateEnum", "bloxide_tokio::state_machine::StateEnum", FrameworkKind::Trait),
            ("Transition", "bloxide_tokio::state_machine::Transition", FrameworkKind::Type),
            ("ExtendedState", "bloxide_tokio::state_machine::ExtendedState", FrameworkKind::Trait),
        ];
        proof {
            assert(r@.map_values(|e: (&'static str, &'static str, FrameworkKind)| (e.0@, e.1@, e.2))
                =~= framework_table());
        }
        r
    }

    /// Registers every framework symbol: its path, its node and its classification.
    pub fn bootstrap_bloxide_types(&mut self)
        requires
            old(self).wf(),
        ensures
            final(self).wf(),
            final(self)@ == bootstrap_all(old(self)@, framework_table()),
    {
        let entries = Self::framework_entries();
        let ghost t = framework_table();
        let mut i: usize = 0;
        proof {
            assert(t.take(0) =~= Seq::<(Seq<char>, Seq<char>, FrameworkKind)>::empty());
        }
        while i < entries.len()
            invariant
                i <= entries@.len(),
                entries@.map_values(|e: (&'static str, &'static str, FrameworkKind)| (e.0@, e.1@, e.2)) == t,
                t == framework_table(),
                self.wf(),
                self@ == bootstrap_all(old(self)@, t.take(i as int)),
            decreases entries@.len() - i,
        {
            let (name, path, kind) = entries[i];
            let ghost before = self@;
            proof {
                assert(t.take(i + 1).drop_last() =~= t.take(i as int));
                assert(t.take(i + 1).last() == t[i as int]);
                assert(t[i as int] == (name@, path@, kind));
            }
            self.set_framework(name, path);
            match kind {
                FrameworkKind::Trait => {
                    self.graph.add_trait_from_path(path);
                },
                FrameworkKind::Type => {
                    self.graph.add_type_from_path(path);
                },
            }
            self.set_resolved(name, TypeLocation::BloxideFramework(path.to_owned()));
            proof {
                assert(self@ == bootstrap_step(before, (name@, path@, kind)));
            }
            i = i + 1;
        }
        proof {
            assert(t.take(entries@.len() as int) =~= t);
        }
    }

    fn strings_of(items: &[&str]) -> (r: Vec<String>)
        ensures
            strings_view(r@) == items@.map_values(|x: &str| x@),
    {
        let mut r: Vec<String> = Vec::new();
        let mut i: usize = 0;
        while i < items.len()
            invariant
                i <= items@.len(),
                strings_view(r@) == items@.map_values(|x: &str| x@).take(i as int),
            decreases items@.len() - i,
        {
            push_string(&mut r, items[i].to_owned());
            proof {
                assert(items@.map_values(|x: &str| x@).take(i + 1) =~= items@.map_values(|x: &str| x@).take(
                    i as int,
                ).push(items@[i as int]@));
            }
            i = i + 1;
        }
        proof {
            assert(items@.map_values(|x: &str| x@).take(items@.len() as int) =~= items@.map_values(|x: &str| x@));
        }
        r
    }

    fn sub_module_of(a: &str, name: &str) -> (r: String)
        ensures
            r@ == sub_module(a@, name@),
    {
        let mut r = String::from_str(a);
        r.append("::");
        r.append(name);
        r
    }

    fn local_path_of(a: &str, module: &str, name: &str) -> (r: String)
        ensures
            r@ == local_path(a@, module@, name@),
    {
        let mut r = String::from_str("crate::");
        r.append(a);
        r.append("::");
        r.append(module);
        r.append("::");
        r.append(name);
        r
    }

    fn push_links(out: &mut Vec<String>, links: &Vec<Link>)
        ensures
            strings_view(final(out)@) == strings_view(old(out)@) + link_views(links@),
    {
        let mut i: usize = 0;
        while i < links.len()
            invariant
                i <= links@.len(),
                strings_view(out@) == strings_view(old(out)@) + link_views(links@).take(i as int),
            decreases links@.len() - i,
        {
            let ghost before = strings_view(out@);
            push_string(out, links[i].0.clone());
            proof {
                assert(link_views(links@).take(i + 1) =~= link_views(links@).take(i as int).push(
                    links@[i as int].0@,
                ));
                assert(strings_view(out@) =~= strings_view(old(out)@) + link_views(links@).take(i + 1));
            }
            i = i + 1;
        }
        proof {
            assert(link_views(links@).take(links@.len() as int) =~= link_views(links@));
        }
    }

    fn push_variant_args(out: &mut Vec<String>, vs: &Vec<EnumVariant>)
        ensures
            strings_view(final(out)@) == strings_view(old(out)@) + variant_args(vs@),
    {
        let mut i: usize = 0;
        proof {
            assert(vs@.take(0) =~= Seq::<EnumVariant>::empty());
            assert(strings_view(out@) =~= strings_view(old(out)@) + variant_args(vs@.take(0)));
        }
        while i < vs.len()
            invariant
                i <= vs@.len(),
                strings_view(out@) == strings_view(old(out)@) + variant_args(vs@.take(i as int)),
            decreases vs@.len() - i,
        {
            Self::push_links(out, &vs[i].args);
            proof {
                assert(vs@.take(i + 1).drop_last() =~= vs@.take(i as int));
                assert(vs@.take(i + 1).last() == vs@[i as int]);
                assert(strings_view(out@) =~= strings_view(old(out)@) + variant_args(vs@.take(i + 1)));
            }
            i = i + 1;
        }
        proof {
            assert(vs@.take(vs@.len() as int) =~= vs@);
        }
    }

    fn push_state_args(out: &mut Vec<String>, ss: &Vec<State>)
        ensures
            strings_view(final(out)@) == strings_view(old(out)@) + state_args(ss@),
    {
        let mut i: usize = 0;
        proof {
            assert(ss@.take(0) =~= Seq::<State>::empty());
            assert(strings_view(out@) =~= strings_view(old(out)@) + state_args(ss@.take(0)));
        }
        while i < ss.len()
            invariant
                i <= ss@.len(),
                strings_view(out@) == strings_view(old(out)@) + state_args(ss@.take(i as int)),
            decreases ss@.len() - i,
        {
            let ghost before = strings_view(out@);
            match &ss[i].variants {
                Some(vs) => {
                    Self::push_variant_args(out, vs);
                },
                None => {},
            }
            proof {
                assert(ss@.take(i + 1).drop_last() =~= ss@.take(i as int));
                assert(ss@.take(i + 1).last() == ss@[i as int]);
                assert(strings_view(out@) =~= strings_view(old(out)@) + state_args(ss@.take(i + 1)));
            }
            i = i + 1;
        }
        proof {
            assert(ss@.take(ss@.len() as int) =~= ss@);
        }
    }

    fn push_enum_args(out: &mut Vec<String>, es: &Vec<EnumDef>)
        ensures
            strings_view(final(out)@) == strings_view(old(out)@) + enum_args(es@),
    {
        let mut i: usize = 0;
        proof {
            assert(es@.take(0) =~= Seq::<EnumDef>::empty());
            assert(strings_view(out@) =~= strings_view(old(out)@) + enum_args(es@.take(0)));
        }
        while i < es.len()
            invariant
                i <= es@.len(),
                strings_view(out@) == strings_view(old(out)@) + enum_args(es@.take(i as int)),
            decreases es@.len() - i,
        {
            Self::push_variant_args(out, &es[i].variants);
            proof {
                assert(es@.take(i + 1).drop_last() =~= es@.take(i as int));
                assert(es@.take(i + 1).last() == es@[i as int]);
                assert(strings_view(out@) =~= strings_view(old(out)@) + enum_args(es@.take(i + 1)));
            }
            i = i + 1;
        }
        proof {
            assert(es@.take(es@.len() as int) =~= es@);
        }
    }

    /// The runtime module depends on the runner, the blox type, `Pin` and `select`.
    fn discover_runtime_types(&mut self, actor_module: &str)
        requires
            old(self).wf(),
        ensures
            final(self).wf(),
            final(self)@ == runtime_phase(old(self)@, actor_module@),
    {
        let m = Self::sub_module_of(actor_module, "runtime");
        let deps = Self::strings_of(
            &[
                "bloxide_tokio::components::Runnable",
                "bloxide_tokio::components::Blox",
                "std::pin::Pin",
                "tokio::select",
            ],
        );
        proof {
            assert(strings_view(deps@) =~= runtime_defaults());
        }
        self.add_dependencies(m.as_str(), &deps);
    }

    /// The extended-state module depends on `ExtendedState` and on its field types.
    fn discover_extended_state_types(&mut self, ext_state: &ExtState, actor_module: &str)
        requires
            old(self).wf(),
        ensures
            final(self).wf(),
            final(self)@ == ext_state_phase(old(self)@, *ext_state, actor_module@),
    {
        let m = Self::sub_module_of(actor_module, "ext_state");
        let deps = Self::strings_of(&["bloxide_tokio::state_machine::ExtendedState"]);
        proof {
            assert(strings_view(deps@) =~= ext_state_defaults());
        }
        self.add_dependencies(m.as_str(), &deps);
        let fields = ext_state.fields();
        let mut types: Vec<String> = Vec::new();
        let mut i: usize = 0;
        while i < fields.len()
            invariant
                i <= fields@.len(),
                fields@ == ext_state.spec_fields(),
                strings_view(types@) == fields@.map_values(|f: Field| f.spec_ty()).take(i as int),
            decreases fields@.len() - i,
        {
            push_string(&mut types, fields[i].ty().0.clone());
            proof {
                assert(fields@.map_values(|f: Field| f.spec_ty()).take(i + 1) =~= fields@.map_values(
                    |f: Field| f.spec_ty(),
                ).take(i as int).push(fields@[i as int].spec_ty()));
            }
            i = i + 1;
        }
        proof {
            assert(fields@.map_values(|f: Field| f.spec_ty()).take(fields@.len() as int)
                =~= fields@.map_values(|f: Field| f.spec_ty()));
        }
        self.discover_all(&types, m.as_str(), TypeContext::ExtendedState);
    }

    /// The component module's dependencies, in order.
    fn component_dependencies(component: &Component, actor_module: &str) -> (r: Vec<String>)
        ensures
            strings_view(r@) == component_deps(*component, actor_module@),
    {
        let mut r = Self::strings_of(&["bloxide_tokio::components::Components"]);
        let ghost s0 = strings_view(r@);
        if component.message_handles.handles.len() > 0 {
            push_string(&mut r, "bloxide_tokio::TokioMessageHandle".to_owned());
        }
        let ghost s1 = strings_view(r@);
        proof {
            assert(s1 =~= s0 + (if component.message_handles.handles@.len() > 0 {
                seq!["bloxide_tokio::TokioMessageHandle"@]
            } else {
                Seq::empty()
            }));
        }
        if component.message_receivers.receivers.len() > 0 {
            push_string(&mut r, "bloxide_tokio::components::Runtime".to_owned());
            push_string(&mut r, "bloxide_tokio::messaging::MessageSender".to_owned());
            push_string(&mut r, "bloxide_tokio::TokioRuntime".to_owned());
        }
        let ghost s2 = strings_view(r@);
        proof {
            assert(s2 =~= s1 + (if component.message_receivers.receivers@.len() > 0 {
                seq![
                    "bloxide_tokio::components::Runtime"@,
                    "bloxide_tokio::messaging::MessageSender"@,
                    "bloxide_tokio::TokioRuntime"@,
                ]
            } else {
                Seq::empty()
            }));
        }
        if component.message_set.is_some() {
            push_string(&mut r, "bloxide_tokio::messaging::MessageSet".to_owned());
        }
        let ghost s3 = strings_view(r@);
        proof {
            assert(s3 =~= s2 + (if component.message_set is Some {
                seq!["bloxide_tokio::messaging::MessageSet"@]
            } else {
                Seq::empty()
            }));
        }
        push_string(&mut r, Self::local_path_of(actor_module, "states", component.states.state_enum.0.ident.as_str()));
        let ghost s4 = strings_view(r@);
        proof {
            assert(s4 =~= s3 + seq![local_path(actor_module@, "states"@, component.states.state_enum.0.ident@)]);
        }
        match &component.message_set {
            Some(ms) => {
                push_string(&mut r, Self::local_path_of(actor_module, "messaging", ms.def.ident.as_str()));
            },
            None => {},
        }
        let ghost s5 = strings_view(r@);
        proof {
            assert(s5 =~= s4 + match component.message_set {
                Some(ms) => seq![local_path(actor_module@, "messaging"@, ms.def.ident@)],
                None => Seq::empty(),
            });
        }
        push_string(&mut r, Self::local_path_of(actor_module, "ext_state", component.ext_state.ident()));
        proof {
            assert(strings_view(r@) =~= s5 + seq![local_path(actor_module@, "ext_state"@, component.ext_state.spec_ident())]);
            assert(strings_view(r@) =~= component_deps(*component, actor_module@));
        }
        r
    }

    /// The component module depends on the framework types its structure needs and on
    /// the actor's state enum, message set and extended state; its handle and receiver
    /// message types are discovered.
    fn discover_component_types(&mut self, component: &Component, actor_module: &str)
        requires
            old(self).wf(),
        ensures
            final(self).wf(),
            final(self)@ == component_phase(old(self)@, *component, actor_module@),
    {
        let m = Self::sub_module_of(actor_module, "component");
        let deps = Self::component_dependencies(component, actor_module);
        self.add_dependencies(m.as_str(), &deps);
        let handles = &component.message_handles.handles;
        let receivers = &component.message_receivers.receivers;
        let mut types: Vec<String> = Vec::new();
        let mut i: usize = 0;
        while i < handles.len()
            invariant
                i <= handles@.len(),
                strings_view(types@) == handles@.map_values(
                    |h: crate::blox::message_handlers::MessageHandle| h.message_type@,
                ).take(i as int),
            decreases handles@.len() - i,
        {
            push_string(&mut types, handles[i].message_type.clone());
            proof {
                assert(handles@.map_values(
                    |h: crate::blox::message_handlers::MessageHandle| h.message_type@,
                ).take(i + 1) =~= handles@.map_values(
                    |h: crate::blox::message_handlers::MessageHandle| h.message_type@,
                ).take(i as int).push(handles@[i as int].message_type@));
            }
            i = i + 1;
        }
        proof {
            assert(handles@.map_values(
                |h: crate::blox::message_handlers::MessageHandle| h.message_type@,
            ).take(handles@.len() as int) =~= handles@.map_values(
                |h: crate::blox::message_handlers::MessageHandle| h.message_type@,
            ));
        }
        let ghost hv = strings_view(types@);
        let mut j: usize = 0;
        while j < receivers.len()
            invariant
                j <= receivers@.len(),
                strings_view(types@) == hv + receivers@.map_values(
                    |r: crate::blox::message_handlers::MessageReceiver| r.message_type@,
                ).take(j as int),
            decreases receivers@.len() - j,
        {
            push_string(&mut types, receivers[j].message_type.clone());
            proof {
                assert(receivers@.map_values(
                    |r: crate::blox::message_handlers::MessageReceiver| r.message_type@,
                ).take(j + 1) =~= receivers@.map_values(
                    |r: crate::blox::message_handlers::MessageReceiver| r.message_type@,
                ).take(j as int).push(receivers@[j as int].message_type@));
                assert(strings_view(types@) =~= hv + receivers@.map_values(
                    |r: crate::blox::message_handlers::MessageReceiver| r.message_type@,
                ).take(j + 1));
            }
            j = j + 1;
        }
        proof {
            assert(receivers@.map_values(
                |r: crate::blox::message_handlers::MessageReceiver| r.message_type@,
            ).take(receivers@.len() as int) =~= receivers@.map_values(
                |r: crate::blox::message_handlers::MessageReceiver| r.message_type@,
            ));
            assert(strings_view(types@) =~= component_strings(*component));
        }
        self.discover_all(&types, m.as_str(), TypeContext::Component);
    }

    /// The states module depends on the state-machine framework, the component type and
    /// the message set type; the argument types of state variants are discovered.
    fn discover_state_types(&mut self, component: &Component, actor_module: &str)
        requires
            old(self).wf(),
        ensures
            final(self).wf(),
            final(self)@ == states_phase(old(self)@, *component, actor_module@),
    {
        let m = Self::sub_module_of(actor_module, "states");
        let mut deps = Self::strings_of(
            &[
                "bloxide_tokio::state_machine::StateMachine",
                "bloxide_tokio::state_machine::State",
                "bloxide_tokio::state_machine::StateEnum",
                "bloxide_tokio::state_machine::Transition",
                "bloxide_tokio::components::Components",
            ],
        );
        let ghost s0 = strings_view(deps@);
        push_string(&mut deps, Self::local_path_of(actor_module, "component", component.ident.as_str()));
        let ghost s1 = strings_view(deps@);
        match &component.message_set {
            Some(ms) => {
                push_string(&mut deps, Self::local_path_of(actor_module, "messaging", ms.def.ident.as_str()));
            },
            None => {},
        }
        proof {
            assert(s0 =~= states_defaults());
            assert(strings_view(deps@) =~= s1 + match component.message_set {
                Some(ms) => seq![local_path(actor_module@, "messaging"@, ms.def.ident@)],
                None => Seq::empty(),
            });
            assert(strings_view(deps@) =~= states_deps(*component, actor_module@));
        }
        self.add_dependencies(m.as_str(), &deps);
        let mut types: Vec<String> = Vec::new();
        Self::push_state_args(&mut types, &component.states.states);
        Self::push_variant_args(&mut types, &component.states.state_enum.0.variants);
        proof {
            assert(strings_view(types@) =~= state_args(component.states.states@) + variant_args(
                component.states.state_enum.0.variants@,
            ));
        }
        self.discover_all(&types, m.as_str(), TypeContext::States);
    }

    /// The messaging module depends on `Message` and `MessageSet`; its custom types are
    /// registered as actor symbols, and the argument types of all variants are discovered.
    fn discover_message_types(&mut self, message_set: &MessageSet, actor_module: &str)
        requires
            old(self).wf(),
        ensures
            final(self).wf(),
            final(self)@ == messaging_phase(old(self)@, *message_set, actor_module@),
    {
        let m = Self::sub_module_of(actor_module, "messaging");
        let deps = Self::strings_of(
            &["bloxide_tokio::messaging::Message", "bloxide_tokio::messaging::MessageSet"],
        );
        proof {
            assert(strings_view(deps@) =~= messaging_defaults());
        }
        self.add_dependencies(m.as_str(), &deps);
        let customs = &message_set.custom_types;
        let mut i: usize = 0;
        proof {
            assert(customs@.take(0) =~= Seq::<EnumDef>::empty());
        }
        while i < customs.len()
            invariant
                i <= customs@.len(),
                self.wf(),
                self.spec_resolved() == register_customs(
                    old(self).spec_resolved(),
                    customs@.take(i as int),
                    actor_module@,
                ),
                self.graph@ == dependencies_spec(old(self).graph@, m@, messaging_defaults()),
                m@ == sub_module(actor_module@, "messaging"@),
                self.spec_discovered() == old(self).spec_discovered(),
                self.spec_framework() == old(self).spec_framework(),
                self.spec_unresolved() == old(self).spec_unresolved(),
            decreases customs@.len() - i,
        {
            let ident = customs[i].ident.as_str();
            let path = Self::local_path_of(actor_module, "messaging", ident);
            proof {
                assert(customs@.take(i + 1).drop_last() =~= customs@.take(i as int));
                assert(customs@.take(i + 1).last() == customs@[i as int]);
                assert(path@ == messaging_path(actor_module@, ident@));
            }
            self.set_resolved(ident, TypeLocation::ActorCustom(path));
            i = i + 1;
        }
        proof {
            assert(customs@.take(customs@.len() as int) =~= customs@);
        }
        let mut types: Vec<String> = Vec::new();
        Self::push_variant_args(&mut types, &message_set.def.variants);
        Self::push_enum_args(&mut types, customs);
        proof {
            assert(strings_view(types@) =~= variant_args(message_set.def.variants@) + enum_args(customs@));
        }
        self.discover_all(&types, m.as_str(), TypeContext::MessageSet);
    }

    /// Inserts the actor's modules and discovers, module by module, what each depends on.
    pub fn discover_actor_types(&mut self, actor: &Actor) -> (r: Result<(), String>)
        requires
            old(self).wf(),
        ensures
            r is Ok,
            final(self).wf(),
            final(self)@ == discover_actor_spec(old(self)@, *actor),
    {
        let a = to_lower(actor.ident.as_str());
        let am = a.as_str();
        let ghost v0 = self@;
        self.add_generated_module(am);
        let component = Self::sub_module_of(am, "component");
        self.add_generated_module(component.as_str());
        let states = Self::sub_module_of(am, "states");
        self.add_generated_module(states.as_str());
        let ext = Self::sub_module_of(am, "ext_state");
        self.add_generated_module(ext.as_str());
        let runtime = Self::sub_module_of(am, "runtime");
        self.add_generated_module(runtime.as_str());
        let messaging = Self::sub_module_of(am, "messaging");
        self.add_generated_module(messaging.as_str());
        proof {
            assert(self@ == modules_phase(v0, a@));
        }
        self.discover_extended_state_types(&actor.component.ext_state, am);
        self.discover_component_types(&actor.component, am);
        self.discover_state_types(&actor.component, am);
        match &actor.component.message_set {
            Some(ms) => {
                self.discover_message_types(ms, am);
            },
            None => {},
        }
        self.discover_runtime_types(am);
        Ok(())
    }

    /// Runs the three phases for an actor: bootstrap, discovery, resolution. Symbols that
    /// cannot be resolved are collected in `unresolved_types`, not reported as errors.
    pub fn analyze_actor(&mut self, actor: &Actor) -> (r: Result<(), String>)
        requires
            old(self).wf(),
        ensures
            r is Ok,
            final(self).wf(),
            final(self)@ == analyze_spec(old(self)@, *actor),
    {
        self.bootstrap_bloxide_types();
        self.discover_actor_types(actor)?;
        self.resolve_type_relationships()
    }

    /// An order in which every node comes before those it depends on, or a node on a
    /// dependency cycle.
    pub fn get_generation_order(&self) -> (r: Result<Vec<usize>, CycleDetected>)
        ensures
            match r {
                Ok(order) => !has_cycle(self.graph@.nodes.len(), self.graph@.edges)
                    && is_topological_order(self.graph@.nodes.len(), self.graph@.edges, order@),
                Err(c) => c.node < self.graph@.nodes.len() && on_cycle(self.graph@.edges, c.node),
            },
    {
        match self.graph.topological_sort() {
            Ok(order) => Ok(order),
            Err(node) => Err(CycleDetected { node }),
        }
    }

    /// Inserts a type and, for each dependency, a new type node that it uses.
    pub fn add_generated_type(&mut self, type_path: &str, dependencies: &[String]) -> (r: usize)
        requires
            old(self).wf(),
        ensures
            final(self).wf(),
            ({
                let (g1, t) = add_from_path_spec(old(self).graph@, type_path@, leaf_view(NodeKind::Type, type_path@));
                r == t && final(self).graph@ == generated_type_spec(g1, t, strings_view(dependencies@))
            }),
            final(self).spec_discovered() == old(self).spec_discovered(),
            final(self).spec_framework() == old(self).spec_framework(),
            final(self).spec_resolved() == old(self).spec_resolved(),
            final(self).spec_unresolved() == old(self).spec_unresolved(),
    {
        let t = self.graph.add_type_from_path(type_path);
        let ghost g1 = self.graph@;
        let mut i: usize = 0;
        proof {
            assert(strings_view(dependencies@).take(0) =~= Seq::<Seq<char>>::empty());
        }
        while i < dependencies.len()
            invariant
                i <= dependencies@.len(),
                self.wf(),
                t < g1.nodes.len(),
                self.graph@.nodes.len() >= g1.nodes.len(),
                self.graph@ == generated_type_spec(g1, t, strings_view(dependencies@).take(i as int)),
                self.spec_discovered() == old(self).spec_discovered(),
                self.spec_framework() == old(self).spec_framework(),
                self.spec_resolved() == old(self).spec_resolved(),
                self.spec_unresolved() == old(self).spec_unresolved(),
            decreases dependencies@.len() - i,
        {
            proof {
                let d = strings_view(dependencies@).take(i + 1);
                assert(d.drop_last() =~= strings_view(dependencies@).take(i as int));
                assert(d.last() == dependencies@[i as int]@);
            }
            let d = self.graph.add_type_from_path(dependencies[i].as_str());
            proof {
                lemma_forest_push_other_edge(self.graph@, t, d, Relation::Uses);
            }
            self.graph.add_edge(t, d, Relation::Uses);
            i = i + 1;
        }
        proof {
            assert(strings_view(dependencies@).take(dependencies@.len() as int) =~= strings_view(dependencies@));
        }
        t
    }

    /// Whether the code uses `symbol` in one of the recognised shapes.
    pub fn code_uses_type(&self, code: &str, symbol: &str) -> (r: bool)
        ensures
            r == code_uses(code@, symbol@),
    {
        let mut as_impl = String::from_str("impl ");
        as_impl.append(symbol);
        let mut as_annotation = String::from_str(": ");
        as_annotation.append(symbol);
        let mut as_argument = String::from_str("<");
        as_argument.append(symbol);
        as_argument.append(">");
        let mut as_qualifier = String::from_str(symbol);
        as_qualifier.append("::");
        let mut as_generic = String::from_str(symbol);
        as_generic.append("<");
        let mut as_cast = String::from_str("as ");
        as_cast.append(symbol);
        str_contains(code, as_impl.as_str()) || str_contains(code, as_annotation.as_str()) || str_contains(
            code,
            as_argument.as_str(),
        ) || str_contains(code, as_qualifier.as_str()) || str_contains(code, as_generic.as_str()) || str_contains(
            code,
            as_cast.as_str(),
        )
    }

    /// The import paths of the framework symbols that the code uses, in table order.
    pub fn extract_required_imports(&self, code: &str) -> (r: Vec<String>)
        ensures
            strings_view(r@) == required_imports(code@, usage_table()),
    {
        let table = vec![
            ("Components", "bloxide_tokio::components::Components"),
            ("TokioMessageHandle", "bloxide_tokio::TokioMessageHandle"),
            ("TokioRuntime", "bloxide_tokio::TokioRuntime"),
            ("Runtime", "bloxide_tokio::components::Runtime"),
            ("MessageSender", "bloxide_tokio::messaging::MessageSender"),
            ("MessageSet", "bloxide_tokio::messaging::MessageSet"),
            ("Message", "bloxide_tokio::messaging::Message"),
            ("StateMachine", "bloxide_tokio::state_machine::StateMachine"),
            ("State", "bloxide_tokio::state_machine::State"),
            ("StateEnum", "bloxide_tokio::state_machine::StateEnum"),
            ("Transition", "bloxide_tokio::state_machine::Transition"),
            ("ExtendedState", "bloxide_tokio::state_machine::ExtendedState"),
            ("Runnable", "bloxide_tokio::components::Runnable"),
        ];
        let ghost t = usage_table();
        proof {
            assert(table@.map_values(|e: (&str, &str)| (e.0@, e.1@)) =~= t);
        }
        let mut r: Vec<String> = Vec::new();
        let mut i: usize = 0;
        proof {
            assert(t.take(0) =~= Seq::<(Seq<char>, Seq<char>)>::empty());
            assert(strings_view(r@) =~= Seq::<Seq<char>>::empty());
        }
        while i < table.len()
            invariant
                i <= table@.len(),
                table@.map_values(|e: (&str, &str)| (e.0@, e.1@)) == t,
                t == usage_table(),
                strings_view(r@) == required_imports(code@, t.take(i as int)),
            decreases table@.len() - i,
        {
            let (name, path) = table[i];
            proof {
                assert(t.take(i + 1).drop_last() =~= t.take(i as int));
                assert(t.take(i + 1).last() == t[i as int]);
                assert(t[i as int] == (name@, path@));
            }
            let ghost before = strings_view(r@);
            if self.code_uses_type(code, name) {
                push_string(&mut r, path.to_owned());
            }
            proof {
                assert(strings_view(r@) =~= before + if code_uses(code@, name@) {
                    seq![path@]
                } else {
                    Seq::empty()
                });
            }
            i = i + 1;
        }
        proof {
            assert(t.take(table@.len() as int) =~= t);
        }
        r
    }

    fn relation_name(r: Relation) -> (s: &'static str)
        ensures
            s@ == relation_str(r),
    {
        match r {
            Relation::Contains => "Contains",
            Relation::Implements => "Implements",
            Relation::Uses => "Uses",
        }
    }

    /// A dump of every node, in index order, with the far end and relation of each of its
    /// outgoing edges.
    pub fn debug_dependencies(&self) -> (r: String)
        ensures
            r@ == debug_text(self.graph@),
    {
        let ghost g = self.graph@;
        let mut out = String::from_str("=== Code Generation Dependency Graph ===\n");
        let n = self.graph.node_count();
        let mut i: usize = 0;
        while i < n
            invariant
                g == self.graph@,
                n == g.nodes.len(),
                i <= n,
                out@ == "=== Code Generation Dependency Graph ===\n"@ + node_blocks(g, i as int),
            decreases n - i,
        {
            if let Some(node) = self.graph.node(i) {
                let ghost before = out@;
                out.append("Node: ");
                out.append(node.name().as_str());
                out.append(" (");
                out.append(node.node_str());
                out.append(")\n");
                let connected = self.graph.find_connected_nodes(i);
                let ghost sel = select_edges(g.edges, outgoing_from(i, g.nodes.len()), g.edges.len() as int);
                let ghost head = out@;
                let mut k: usize = 0;
                while k < connected.len()
                    invariant
                        g == self.graph@,
                        k <= connected@.len(),
                        related_match(g, connected@, sel, true),
                        out@ == head + edge_lines(g, sel, k as int),
                    decreases connected@.len() - k,
                {
                    let entry = &connected[k];
                    out.append("  -> ");
                    out.append(entry.node.name().as_str());
                    out.append(" (");
                    out.append(Self::relation_name(entry.relation));
                    out.append(")\n");
                    k = k + 1;
                }
                out.append("\n");
                proof {
                    assert(out@ =~= before + node_block(g, i as int));
                }
            }
            i = i + 1;
        }
        out
    }

    fn context_name(c: TypeContext) -> (r: &'static str)
        ensures
            r@ == context_str(c),
    {
        match c {
            TypeContext::ExtendedState => "ExtendedState",
            TypeContext::Component => "Component",
            TypeContext::States => "States",
            TypeContext::MessageSet => "MessageSet",
            TypeContext::Runtime => "Runtime",
        }
    }

    fn location_name(l: &TypeLocation) -> (r: String)
        ensures
            r@ == location_str(l@),
    {
        match l {
            TypeLocation::Builtin => String::from_str("Builtin"),
            TypeLocation::BloxideFramework(p) => {
                let parts = ["BloxideFramework(\"", p.as_str(), "\")"];
                proof {
                    assert(parts@.map_values(|x: &str| x@) =~= seq![parts@[0]@, p@, parts@[2]@]);
                }
                concat_parts(&parts)
            },
            TypeLocation::ActorCustom(p) => {
                let parts = ["ActorCustom(\"", p.as_str(), "\")"];
                proof {
                    assert(parts@.map_values(|x: &str| x@) =~= seq![parts@[0]@, p@, parts@[2]@]);
                }
                concat_parts(&parts)
            },
            TypeLocation::Unknown => String::from_str("Unknown"),
        }
    }

    /// A dump of the framework table, the discovered records and the cache, each in the
    /// order its entries were made.
    pub fn debug_type_resolution(&self) -> (r: String)
        ensures
            r@ == resolution_text(self@),
    {
        let mut out = String::from_str("=== Type Resolution Debug ===\n\nFramework Types:\n");
        let ghost head = out@;
        let fw = &self.framework_types;
        let mut i: usize = 0;
        proof {
            assert(self.spec_framework().take(0) =~= Seq::<(Seq<char>, Seq<char>)>::empty());
        }
        while i < fw.len()
            invariant
                i <= fw@.len(),
                fw == &self.framework_types,
                out@ == head + framework_lines(self.spec_framework().take(i as int)),
            decreases fw@.len() - i,
        {
            let parts = ["  ", fw[i].0.as_str(), " -> ", fw[i].1.as_str(), "\n"];
            proof {
                assert(parts@.map_values(|x: &str| x@) =~= seq![parts@[0]@, fw@[i as int].0@, parts@[2]@, fw@[i as int].1@, parts@[4]@]);
                assert(self.spec_framework().take(i + 1).drop_last() =~= self.spec_framework().take(i as int));
                assert(self.spec_framework().take(i + 1).last() == (fw@[i as int].0@, fw@[i as int].1@));
            }
            out.append(concat_parts(&parts).as_str());
            i = i + 1;
        }
        proof {
            assert(self.spec_framework().take(fw@.len() as int) =~= self.spec_framework());
        }
        out.append("\nDiscovered Types:\n");
        let ghost head2 = out@;
        let ds = &self.discovered_types;
        let mut j: usize = 0;
        proof {
            assert(self.spec_discovered().take(0) =~= Seq::<DiscoveredView>::empty());
        }
        while j < ds.len()
            invariant
                j <= ds@.len(),
                ds == &self.discovered_types,
                out@ == head2 + discovered_lines(self.spec_discovered().take(j as int)),
            decreases ds@.len() - j,
        {
            let d = &ds[j];
            let parts = ["  ", d.name.as_str(), " (in ", d.used_in_module.as_str(), ", context: ", Self::context_name(d.context), ")\n"];
            proof {
                assert(parts@.map_values(|x: &str| x@) =~= seq![
                    parts@[0]@, d.name@, parts@[2]@, d.used_in_module@, parts@[4]@, context_str(d.context), parts@[6]@,
                ]);
                assert(self.spec_discovered().take(j + 1).drop_last() =~= self.spec_discovered().take(j as int));
                assert(self.spec_discovered().take(j + 1).last() == d@);
            }
            out.append(concat_parts(&parts).as_str());
            j = j + 1;
        }
        proof {
            assert(self.spec_discovered().take(ds@.len() as int) =~= self.spec_discovered());
        }
        out.append("\nResolved Types:\n");
        let ghost head3 = out@;
        let res = &self.resolved_types;
        let mut k: usize = 0;
        proof {
            assert(self.spec_resolved().take(0) =~= Seq::<(Seq<char>, LocationView)>::empty());
        }
        while k < res.len()
            invariant
                k <= res@.len(),
                res == &self.resolved_types,
                out@ == head3 + resolved_lines(self.spec_resolved().take(k as int)),
            decreases res@.len() - k,
        {
            let loc = Self::location_name(&res[k].1);
            let parts = ["  ", res[k].0.as_str(), " -> ", loc.as_str(), "\n"];
            proof {
                assert(parts@.map_values(|x: &str| x@) =~= seq![parts@[0]@, res@[k as int].0@, parts@[2]@, loc@, parts@[4]@]);
                assert(self.spec_resolved().take(k + 1).drop_last() =~= self.spec_resolved().take(k as int));
                assert(self.spec_resolved().take(k + 1).last() == (res@[k as int].0@, res@[k as int].1@));
            }
            out.append(concat_parts(&parts).as_str());
            k = k + 1;
        }
        proof {
            assert(self.spec_resolved().take(res@.len() as int) =~= self.spec_resolved());
        }
        out
    }
}

} // verus!
