//! Code of the actor's states: one implementation per state and the state enum.
use vstd::prelude::*;
use crate::blox::actor::Actor;
use crate::blox::state::State;
use crate::create::runtime_gen::lines_section;
use crate::graph::codegen::{CodeGenGraph, imports_are, node_path};
use crate::graph::rgraph::find_module;
use crate::path::{
    concat_all, concat_parts, join_strings, lower_of, push_string, split_sep, strings_view, to_lower,
};

verus! {

/// The message set as named in state code: its enum, or the component's associated type.
pub open spec fn state_message_set(actor: Actor) -> Seq<char> {
    match actor.component.message_set {
        Some(ms) => ms.def.ident@,
        None => concat_all(seq!["<"@, actor.component.ident@, " as Components>::MessageSet"@]),
    }
}

/// The message set as named by `Actor::message_set_ident`.
pub open spec fn actor_message_set(actor: Actor) -> Seq<char> {
    match actor.component.message_set {
        Some(ms) => ms.def.ident@,
        None => actor.ident@ + "_MessageSet"@,
    }
}

pub open spec fn inner_state_text(actor_mod: Seq<char>, component: Seq<char>, message_set: Seq<char>, name: Seq<char>) -> Seq<char> {
    concat_all(
        seq![
            "use bloxide_tokio::{components::Components, state_machine::{StateMachine, State, Transition}};\nuse crate::"@,
            actor_mod,
            "::{component::"@,
            component,
            ", messaging::"@,
            message_set,
            "}};\n\n/// State implementation for "@,
            name,
            " state\n#[derive(Debug, Clone, PartialEq, Eq)]\npub struct "@,
            name,
            ";\n\nimpl State<"@,
            component,
            "> for "@,
            name,
            " {\n    fn handle_message(\n        &self,\n        state_machine: &mut StateMachine<"@,
            component,
            ">,\n        message: "@,
            message_set,
            ",\n    ) -> Option<Transition<<"@,
            component,
            " as Components>::States, "@,
            message_set,
            ">> {\n        None\n    }\n}\n"@,
        ],
    )
}

fn message_set_name(actor: &Actor) -> (r: String)
    ensures
        r@ == state_message_set(*actor),
{
    match &actor.component.message_set {
        Some(ms) => ms.def.ident.clone(),
        None => {
            let c = actor.component.ident.as_str();
            let parts = ["<", c, " as Components>::MessageSet"];
            proof {
                assert(parts@.map_values(|p: &str| p@) =~= seq![parts@[0]@, c@, parts@[2]@]);
            }
            concat_parts(&parts)
        },
    }
}

/// The code of one state of the actor: its struct and its `State` implementation.
pub fn generate_inner_states(actor: &Actor, state: &State) -> (r: Result<String, String>)
    ensures
        r matches Ok(text) && text@ == inner_state_text(
            lower_of(actor.ident@),
            actor.component.ident@,
            state_message_set(*actor),
            state.ident@,
        ),
{
    let actor_mod = to_lower(actor.ident.as_str());
    let message_set = message_set_name(actor);
    let a = actor_mod.as_str();
    let c = actor.component.ident.as_str();
    let m = message_set.as_str();
    let s = state.ident.as_str();
    let parts = [
        "use bloxide_tokio::{components::Components, state_machine::{StateMachine, State, Transition}};\nuse crate::",
        a,
        "::{component::",
        c,
        ", messaging::",
        m,
        "}};\n\n/// State implementation for ",
        s,
        " state\n#[derive(Debug, Clone, PartialEq, Eq)]\npub struct ",
        s,
        ";\n\nimpl State<",
        c,
        "> for ",
        s,
        " {\n    fn handle_message(\n        &self,\n        state_machine: &mut StateMachine<",
        c,
        ">,\n        message: ",
        m,
        ",\n    ) -> Option<Transition<<",
        c,
        " as Components>::States, ",
        m,
        ">> {\n        None\n    }\n}\n",
    ];
    let text = concat_parts(&parts);
    proof {
        assert(parts@.map_values(|p: &str| p@) =~= seq![
            parts@[0]@, a@, parts@[2]@, c@, parts@[4]@, m@, parts@[6]@, s@, parts@[8]@, s@,
            parts@[10]@, c@, parts@[12]@, s@, parts@[14]@, c@, parts@[16]@, m@, parts@[18]@, c@,
            parts@[20]@, m@, parts@[22]@,
        ]);
    }
    Ok(text)
}

/// One line per state, made by `line` from the state's name.
pub open spec fn state_lines(states: Seq<State>, line: spec_fn(Seq<char>) -> Seq<char>) -> Seq<char>
    decreases states.len(),
{
    if states.len() == 0 {
        Seq::empty()
    } else {
        state_lines(states.drop_last(), line) + line(states.last().ident@)
    }
}

pub open spec fn import_line_of(s: Seq<char>) -> Seq<char> {
    concat_all(seq!["use "@, lower_of(s), "::"@, s, ";\n"@])
}

pub open spec fn variant_line_of(s: Seq<char>) -> Seq<char> {
    concat_all(seq!["    /// "@, s, " state\n    "@, s, "("@, s, "),\n"@])
}

pub open spec fn arm_line_of(e: Seq<char>, call: Seq<char>, s: Seq<char>) -> Seq<char> {
    concat_all(seq!["            "@, e, "::"@, s, "(state) => state."@, call, "\n"@])
}

pub open spec fn arm_lines(states: Seq<State>, e: Seq<char>, call: Seq<char>) -> Seq<char>
    decreases states.len(),
{
    if states.len() == 0 {
        Seq::empty()
    } else {
        arm_lines(states.drop_last(), e, call) + arm_line_of(e, call, states.last().ident@)
    }
}

/// The state enum and its implementations, after its imports; `m` is the message set
/// named in `handle_message`.
pub open spec fn state_enum_body(actor: Actor, m: Seq<char>) -> Seq<char> {
    let states = actor.component.states.states@;
    let e = actor.component.states.state_enum.0.ident@;
    let c = actor.component.ident@;
    concat_all(
        seq![
            "/// Enumeration of all possible states for the actor's state machine\n#[derive(Clone, PartialEq, Debug)]\npub enum "@,
            e,
            " {\n"@,
            state_lines(states, |s: Seq<char>| variant_line_of(s)),
            "}\n\nimpl State<"@,
            c,
            "> for "@,
            e,
            " {\n    /// Handles incoming messages and returns a transition to a new state if needed\n    fn handle_message(\n        &self,\n        state_machine: &mut StateMachine<"@,
            c,
            ">,\n        message: "@,
            m,
            ",\n    ) -> Option<Transition<<"@,
            c,
            " as Components>::States, "@,
            m,
            ">> {\n        match self {\n"@,
            arm_lines(states, e, "handle_message(state_machine, message),"@),
            "\n        }\n    }\n\n    /// Executes actions when entering a state\n    fn on_entry(&self, state_machine: &mut StateMachine<"@,
            c,
            ">) {\n        match self {\n"@,
            arm_lines(states, e, "on_entry(state_machine),"@),
            "\n        }\n    }\n\n    /// Executes actions when exiting a state\n    fn on_exit(&self, state_machine: &mut StateMachine<"@,
            c,
            ">) {\n        match self {\n"@,
            arm_lines(states, e, "on_exit(state_machine),"@),
            "\n        }\n    }\n\n    /// Returns the parent state in the state machine hierarchy\n    fn parent(&self) -> "@,
            e,
            " {\n        match self {\n"@,
            arm_lines(states, e, "parent(),"@),
            "\n        }\n    }\n}\n\nimpl StateEnum for "@,
            e,
            " {\n    fn new() -> Self {\n        Self::default()\n    }\n}\n\nimpl Default for "@,
            e,
            " {\n    fn default() -> Self {\n        "@,
            e,
            "::Uninit(Uninit)\n    }\n}\n"@,
        ],
    )
}

pub open spec fn state_enum_text(actor: Actor) -> Seq<char> {
    let states = actor.component.states.states@;
    let imports = state_lines(states, |s: Seq<char>| import_line_of(s)) + concat_all(
        seq![
            "use crate::"@,
            lower_of(actor.ident@),
            "::{component::"@,
            actor.component.ident@,
            ", messaging::"@,
            state_message_set(actor),
            "};"@,
        ],
    );
    concat_all(
        seq![
            "use bloxide_tokio::{components::Components, messaging::MessageSet, state_machine::{StateMachine, State, StateEnum, Transition}};\n"@,
            imports,
            "\n\n"@,
            state_enum_body(actor, actor_message_set(actor)),
        ],
    )
}

fn import_lines(states: &Vec<State>) -> (r: String)
    ensures
        r@ == state_lines(states@, |s: Seq<char>| import_line_of(s)),
{
    let mut r = String::new();
    let mut i: usize = 0;
    proof {
        assert(states@.take(0) =~= Seq::<State>::empty());
    }
    while i < states.len()
        invariant
            i <= states@.len(),
            r@ == state_lines(states@.take(i as int), |s: Seq<char>| import_line_of(s)),
        decreases states@.len() - i,
    {
        let s = states[i].ident.as_str();
        let lower = to_lower(s);
        let parts = ["use ", lower.as_str(), "::", s, ";\n"];
        let line = concat_parts(&parts);
        proof {
            assert(parts@.map_values(|p: &str| p@) =~= seq![parts@[0]@, lower@, parts@[2]@, s@, parts@[4]@]);
            assert(states@.take(i + 1).drop_last() =~= states@.take(i as int));
            assert(states@.take(i + 1).last() == states@[i as int]);
        }
        r.append(line.as_str());
        i = i + 1;
    }
    proof {
        assert(states@.take(states@.len() as int) =~= states@);
    }
    r
}

fn variant_lines(states: &Vec<State>) -> (r: String)
    ensures
        r@ == state_lines(states@, |s: Seq<char>| variant_line_of(s)),
{
    let mut r = String::new();
    let mut i: usize = 0;
    proof {
        assert(states@.take(0) =~= Seq::<State>::empty());
    }
    while i < states.len()
        invariant
            i <= states@.len(),
            r@ == state_lines(states@.take(i as int), |s: Seq<char>| variant_line_of(s)),
        decreases states@.len() - i,
    {
        let s = states[i].ident.as_str();
        let parts = ["    /// ", s, " state\n    ", s, "(", s, "),\n"];
        let line = concat_parts(&parts);
        proof {
            assert(parts@.map_values(|p: &str| p@) =~= seq![
                parts@[0]@, s@, parts@[2]@, s@, parts@[4]@, s@, parts@[6]@,
            ]);
            assert(states@.take(i + 1).drop_last() =~= states@.take(i as int));
            assert(states@.take(i + 1).last() == states@[i as int]);
        }
        r.append(line.as_str());
        i = i + 1;
    }
    proof {
        assert(states@.take(states@.len() as int) =~= states@);
    }
    r
}

fn match_arms(states: &Vec<State>, e: &str, call: &str) -> (r: String)
    ensures
        r@ == arm_lines(states@, e@, call@),
{
    let mut r = String::new();
    let mut i: usize = 0;
    proof {
        assert(states@.take(0) =~= Seq::<State>::empty());
    }
    while i < states.len()
        invariant
            i <= states@.len(),
            r@ == arm_lines(states@.take(i as int), e@, call@),
        decreases states@.len() - i,
    {
        let s = states[i].ident.as_str();
        let parts = ["            ", e, "::", s, "(state) => state.", call, "\n"];
        let line = concat_parts(&parts);
        proof {
            assert(parts@.map_values(|p: &str| p@) =~= seq![
                parts@[0]@, e@, parts@[2]@, s@, parts@[4]@, call@, parts@[6]@,
            ]);
            assert(states@.take(i + 1).drop_last() =~= states@.take(i as int));
            assert(states@.take(i + 1).last() == states@[i as int]);
        }
        r.append(line.as_str());
        i = i + 1;
    }
    proof {
        assert(states@.take(states@.len() as int) =~= states@);
    }
    r
}

fn enum_body(actor: &Actor, m: &str) -> (r: String)
    ensures
        r@ == state_enum_body(*actor, m@),
{
    let states = &actor.component.states.states;
    let c = actor.component.ident.as_str();
    let e = actor.component.states.state_enum.0.ident.as_str();
    let variants = variant_lines(states);
    let handle_arms = match_arms(states, e, "handle_message(state_machine, message),");
    let entry_arms = match_arms(states, e, "on_entry(state_machine),");
    let exit_arms = match_arms(states, e, "on_exit(state_machine),");
    let parent_arms = match_arms(states, e, "parent(),");
    let parts = [
        "/// Enumeration of all possible states for the actor's state machine\n#[derive(Clone, PartialEq, Debug)]\npub enum ",
        e,
        " {\n",
        variants.as_str(),
        "}\n\nimpl State<",
        c,
        "> for ",
        e,
        " {\n    /// Handles incoming messages and returns a transition to a new state if needed\n    fn handle_message(\n        &self,\n        state_machine: &mut StateMachine<",
        c,
        ">,\n        message: ",
        m,
        ",\n    ) -> Option<Transition<<",
        c,
        " as Components>::States, ",
        m,
        ">> {\n        match self {\n",
        handle_arms.as_str(),
        "\n        }\n    }\n\n    /// Executes actions when entering a state\n    fn on_entry(&self, state_machine: &mut StateMachine<",
        c,
        ">) {\n        match self {\n",
        entry_arms.as_str(),
        "\n        }\n    }\n\n    /// Executes actions when exiting a state\n    fn on_exit(&self, state_machine: &mut StateMachine<",
        c,
        ">) {\n        match self {\n",
        exit_arms.as_str(),
        "\n        }\n    }\n\n    /// Returns the parent state in the state machine hierarchy\n    fn parent(&self) -> ",
        e,
        " {\n        match self {\n",
        parent_arms.as_str(),
        "\n        }\n    }\n}\n\nimpl StateEnum for ",
        e,
        " {\n    fn new() -> Self {\n        Self::default()\n    }\n}\n\nimpl Default for ",
        e,
        " {\n    fn default() -> Self {\n        ",
        e,
        "::Uninit(Uninit)\n    }\n}\n",
    ];
    proof {
        assert(parts@.map_values(|p: &str| p@) =~= seq![
            parts@[0]@, e@, parts@[2]@, variants@, parts@[4]@, c@, parts@[6]@, e@, parts@[8]@, c@,
            parts@[10]@, m@, parts@[12]@, c@, parts@[14]@, m@, parts@[16]@, handle_arms@, parts@[18]@,
            c@, parts@[20]@, entry_arms@, parts@[22]@, c@, parts@[24]@, exit_arms@, parts@[26]@, e@,
            parts@[28]@, parent_arms@, parts@[30]@, e@, parts@[32]@, e@, parts@[34]@, e@, parts@[36]@,
        ]);
    }
    concat_parts(&parts)
}

/// The code of the state enum: one variant per state and the `State`, `StateEnum` and
/// `Default` implementations that dispatch to the states.
pub fn generate_state_enum_impl(actor: &Actor) -> (r: Result<String, String>)
    ensures
        r matches Ok(text) && text@ == state_enum_text(*actor),
{
    let states = &actor.component.states.states;
    let actor_mod = to_lower(actor.ident.as_str());
    let c = actor.component.ident.as_str();
    let local_set = message_set_name(actor);
    let named_set = actor.message_set_ident();
    let mut imports = import_lines(states);
    let use_parts = ["use crate::", actor_mod.as_str(), "::{component::", c, ", messaging::", local_set.as_str(), "};"];
    let use_line = concat_parts(&use_parts);
    proof {
        assert(use_parts@.map_values(|p: &str| p@) =~= seq![
            use_parts@[0]@, actor_mod@, use_parts@[2]@, c@, use_parts@[4]@, local_set@, use_parts@[6]@,
        ]);
    }
    imports.append(use_line.as_str());
    let body = enum_body(actor, named_set.as_str());
    let parts = [
        "use bloxide_tokio::{components::Components, messaging::MessageSet, state_machine::{StateMachine, State, StateEnum, Transition}};\n",
        imports.as_str(),
        "\n\n",
        body.as_str(),
    ];
    proof {
        assert(parts@.map_values(|p: &str| p@) =~= seq![parts@[0]@, imports@, parts@[2]@, body@]);
    }
    Ok(concat_parts(&parts))
}

/// The state implementation after its imports.
pub open spec fn inner_state_body(name: Seq<char>, component: Seq<char>, message_set: Seq<char>) -> Seq<char> {
    concat_all(
        seq![
            "/// State implementation for "@,
            name,
            " state\n#[derive(Debug, Clone, PartialEq, Eq)]\npub struct "@,
            name,
            ";\n\nimpl State<"@,
            component,
            "> for "@,
            name,
            " {\n    fn handle_message(\n        &self,\n        state_machine: &mut StateMachine<"@,
            component,
            ">,\n        message: "@,
            message_set,
            ",\n    ) -> Option<Transition<<"@,
            component,
            " as Components>::States, "@,
            message_set,
            ">> {\n        None\n    }\n}\n"@,
        ],
    )
}

fn inner_body(name: &str, component: &str, message_set: &str) -> (r: String)
    ensures
        r@ == inner_state_body(name@, component@, message_set@),
{
    let n = name;
    let c = component;
    let m = message_set;
    let parts = [
        "/// State implementation for ",
        n,
        " state\n#[derive(Debug, Clone, PartialEq, Eq)]\npub struct ",
        n,
        ";\n\nimpl State<",
        c,
        "> for ",
        n,
        " {\n    fn handle_message(\n        &self,\n        state_machine: &mut StateMachine<",
        c,
        ">,\n        message: ",
        m,
        ",\n    ) -> Option<Transition<<",
        c,
        " as Components>::States, ",
        m,
        ">> {\n        None\n    }\n}\n",
    ];
    proof {
        assert(parts@.map_values(|p: &str| p@) =~= seq![
            parts@[0]@, n@, parts@[2]@, n@, parts@[4]@, c@, parts@[6]@, n@, parts@[8]@, c@,
            parts@[10]@, m@, parts@[12]@, c@, parts@[14]@, m@, parts@[16]@,
        ]);
    }
    concat_parts(&parts)
}

/// The import statements of a state module when the graph has no states module.
pub open spec fn inner_state_fallback(actor: Actor) -> Seq<Seq<char>> {
    let a = lower_of(actor.ident@);
    seq![
        "use bloxide_tokio::components::Components;"@,
        "use bloxide_tokio::state_machine::{StateMachine, State, Transition};"@,
        concat_all(seq!["use crate::"@, a, "::component::"@, actor.component.ident@, ";"@]),
        concat_all(seq!["use crate::"@, a, "::messaging::"@, state_message_set(actor), ";"@]),
    ]
}

/// The import statements of the states module when the graph has none.
pub open spec fn state_enum_fallback(actor: Actor) -> Seq<Seq<char>> {
    let a = lower_of(actor.ident@);
    seq![
        "use bloxide_tokio::components::Components;"@,
        "use bloxide_tokio::messaging::MessageSet;"@,
        "use bloxide_tokio::state_machine::{StateMachine, State, StateEnum, Transition};"@,
        concat_all(seq!["use crate::"@, a, "::component::"@, actor.component.ident@, ";"@]),
        concat_all(seq!["use crate::"@, a, "::messaging::"@, state_message_set(actor), ";"@]),
    ]
}

/// `use <state>::<State>;` for each state.
pub open spec fn state_uses(states: Seq<State>) -> Seq<Seq<char>> {
    states.map_values(|s: State| concat_all(seq!["use "@, lower_of(s.ident@), "::"@, s.ident@, ";"@]))
}

fn use_line(a: &str, module: &str, name: &str) -> (r: String)
    ensures
        r@ == concat_all(seq!["use crate::"@, a@, module@, name@, ";"@]),
{
    let p = ["use crate::", a, module, name, ";"];
    proof {
        assert(p@.map_values(|x: &str| x@) =~= seq![p@[0]@, a@, module@, name@, p@[4]@]);
    }
    concat_parts(&p)
}

/// The import statements of the actor's states module, or `fallback` when there is none.
fn states_imports(actor: &Actor, graph: &CodeGenGraph, fallback: bool, with_enum: bool) -> (r: Vec<String>)
    ensures
        match find_module(graph.graph@, split_sep(lower_of(actor.ident@) + "::states"@)) {
            Some(m) => imports_are(graph.graph@, m, node_path(graph.graph@, m), node_path(graph.graph@, m), strings_view(r@)),
            None => strings_view(r@) == if !fallback {
                Seq::empty()
            } else if with_enum {
                state_enum_fallback(*actor)
            } else {
                inner_state_fallback(*actor)
            },
        },
{
    let a = to_lower(actor.ident.as_str());
    let mut path = a.clone();
    path.append("::states");
    match graph.graph.find_module_by_path_hierarchical(path.as_str()) {
        Some(m) => graph.get_imports_for_module(m),
        None => {
            let mut v: Vec<String> = Vec::new();
            if fallback {
                let c = actor.component.ident.as_str();
                let ms = message_set_name(actor);
                push_string(&mut v, "use bloxide_tokio::components::Components;".to_owned());
                if with_enum {
                    push_string(&mut v, "use bloxide_tokio::messaging::MessageSet;".to_owned());
                    push_string(&mut v, "use bloxide_tokio::state_machine::{StateMachine, State, StateEnum, Transition};".to_owned());
                } else {
                    push_string(&mut v, "use bloxide_tokio::state_machine::{StateMachine, State, Transition};".to_owned());
                }
                push_string(&mut v, use_line(a.as_str(), "::component::", c));
                push_string(&mut v, use_line(a.as_str(), "::messaging::", ms.as_str()));
                proof {
                    if with_enum {
                        assert(strings_view(v@) =~= state_enum_fallback(*actor));
                    } else {
                        assert(strings_view(v@) =~= inner_state_fallback(*actor));
                    }
                }
            } else {
                proof {
                    assert(strings_view(v@) =~= Seq::<Seq<char>>::empty());
                }
            }
            v
        },
    }
}

fn inner_states_over(actor: &Actor, state: &State, graph: &CodeGenGraph, fallback: bool) -> (r: String)
    ensures
        match find_module(graph.graph@, split_sep(lower_of(actor.ident@) + "::states"@)) {
            Some(m) => exists|imps: Seq<Seq<char>>|
                #[trigger] imports_are(graph.graph@, m, node_path(graph.graph@, m), node_path(graph.graph@, m), imps)
                    && r@ == lines_section(imps) + inner_state_body(state.ident@, actor.component.ident@, state_message_set(*actor)),
            None => r@ == lines_section(if fallback { inner_state_fallback(*actor) } else { Seq::empty() })
                + inner_state_body(state.ident@, actor.component.ident@, state_message_set(*actor)),
        },
{
    let imports = states_imports(actor, graph, fallback, false);
    let mut text = if imports.len() == 0 {
        String::new()
    } else {
        let mut s = join_strings(&imports, "\n");
        s.append("\n\n");
        s
    };
    let m = message_set_name(actor);
    let body = inner_body(state.ident.as_str(), actor.component.ident.as_str(), m.as_str());
    text.append(body.as_str());
    proof {
        assert(text@ == lines_section(strings_view(imports@)) + inner_state_body(
            state.ident@,
            actor.component.ident@,
            state_message_set(*actor),
        ));
    }
    text
}

/// One state's code after the imports of the actor's states module, or fixed imports when
/// the graph has no such module.
pub fn generate_inner_states_with_graph(actor: &Actor, state: &State, graph: &CodeGenGraph) -> (r: Result<String, String>)
    ensures
        r matches Ok(text) && match find_module(graph.graph@, split_sep(lower_of(actor.ident@) + "::states"@)) {
            Some(m) => exists|imps: Seq<Seq<char>>|
                #[trigger] imports_are(graph.graph@, m, node_path(graph.graph@, m), node_path(graph.graph@, m), imps)
                    && text@ == lines_section(imps) + inner_state_body(state.ident@, actor.component.ident@, state_message_set(*actor)),
            None => text@ == lines_section(inner_state_fallback(*actor)) + inner_state_body(
                state.ident@,
                actor.component.ident@,
                state_message_set(*actor),
            ),
        },
{
    Ok(inner_states_over(actor, state, graph, true))
}

/// One state's code after the imports of the actor's states module, if the graph has it.
pub fn generate_inner_states_with_structural_analysis(actor: &Actor, state: &State, graph: &CodeGenGraph) -> (r: Result<String, String>)
    ensures
        r matches Ok(text) && match find_module(graph.graph@, split_sep(lower_of(actor.ident@) + "::states"@)) {
            Some(m) => exists|imps: Seq<Seq<char>>|
                #[trigger] imports_are(graph.graph@, m, node_path(graph.graph@, m), node_path(graph.graph@, m), imps)
                    && text@ == lines_section(imps) + inner_state_body(state.ident@, actor.component.ident@, state_message_set(*actor)),
            None => text@ == inner_state_body(state.ident@, actor.component.ident@, state_message_set(*actor)),
        },
{
    let text = inner_states_over(actor, state, graph, false);
    proof {
        assert(lines_section(Seq::<Seq<char>>::empty()) =~= Seq::<char>::empty());
        assert(Seq::<char>::empty() + inner_state_body(state.ident@, actor.component.ident@, state_message_set(*actor))
            =~= inner_state_body(state.ident@, actor.component.ident@, state_message_set(*actor)));
    }
    Ok(text)
}

/// The state enum after the imports of the actor's states module (or fixed imports when
/// the graph has none) and one `use` per state module.
pub fn generate_state_enum_impl_with_graph(actor: &Actor, graph: &CodeGenGraph) -> (r: Result<String, String>)
    ensures
        r matches Ok(text) && match find_module(graph.graph@, split_sep(lower_of(actor.ident@) + "::states"@)) {
            Some(m) => exists|imps: Seq<Seq<char>>|
                #[trigger] imports_are(graph.graph@, m, node_path(graph.graph@, m), node_path(graph.graph@, m), imps)
                    && text@ == lines_section(imps + state_uses(actor.component.states.states@))
                    + state_enum_body(*actor, state_message_set(*actor)),
            None => text@ == lines_section(state_enum_fallback(*actor) + state_uses(actor.component.states.states@))
                + state_enum_body(*actor, state_message_set(*actor)),
        },
{
    let mut imports = states_imports(actor, graph, true, true);
    let ghost base = strings_view(imports@);
    let states = &actor.component.states.states;
    let mut i: usize = 0;
    while i < states.len()
        invariant
            i <= states@.len(),
            strings_view(imports@) == base + state_uses(states@).take(i as int),
        decreases states@.len() - i,
    {
        let s = states[i].ident.as_str();
        let lower = to_lower(s);
        let p = ["use ", lower.as_str(), "::", s, ";"];
        proof {
            assert(p@.map_values(|x: &str| x@) =~= seq![p@[0]@, lower@, p@[2]@, s@, p@[4]@]);
        }
        push_string(&mut imports, concat_parts(&p));
        proof {
            assert(state_uses(states@).take(i + 1) =~= state_uses(states@).take(i as int).push(
                concat_all(seq!["use "@, lower_of(states@[i as int].ident@), "::"@, states@[i as int].ident@, ";"@]),
            ));
            assert(strings_view(imports@) =~= base + state_uses(states@).take(i + 1));
        }
        i = i + 1;
    }
    proof {
        assert(state_uses(states@).take(states@.len() as int) =~= state_uses(states@));
    }
    let mut text = if imports.len() == 0 {
        String::new()
    } else {
        let mut s = join_strings(&imports, "\n");
        s.append("\n\n");
        s
    };
    let m = message_set_name(actor);
    let body = enum_body(actor, m.as_str());
    text.append(body.as_str());
    proof {
        assert(text@ == lines_section(strings_view(imports@)) + state_enum_body(*actor, state_message_set(*actor)));
    }
    Ok(text)
}

/// The state enum as `generate_state_enum_impl_with_graph` writes it.
pub fn generate_state_enum_impl_with_structural_analysis(actor: &Actor, graph: &CodeGenGraph) -> (r: Result<String, String>)
    ensures
        r matches Ok(text) && match find_module(graph.graph@, split_sep(lower_of(actor.ident@) + "::states"@)) {
            Some(m) => exists|imps: Seq<Seq<char>>|
                #[trigger] imports_are(graph.graph@, m, node_path(graph.graph@, m), node_path(graph.graph@, m), imps)
                    && text@ == lines_section(imps + state_uses(actor.component.states.states@))
                    + state_enum_body(*actor, state_message_set(*actor)),
            None => text@ == lines_section(state_enum_fallback(*actor) + state_uses(actor.component.states.states@))
                + state_enum_body(*actor, state_message_set(*actor)),
        },
{
    generate_state_enum_impl_with_graph(actor, graph)
}

} // verus!
