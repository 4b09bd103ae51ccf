//! Code of the runtime module: the actor's run loop.
use vstd::prelude::*;
use crate::blox::actor::Actor;
use crate::blox::enums::EnumVariant;
use crate::blox::message_handlers::MessageReceiver;
use crate::blox::state::State;
use crate::graph::codegen::{CodeGenGraph, imports_are, node_path};
use crate::graph::rgraph::find_module;
use crate::path::{concat_all, concat_parts, join_strings, join_with, lower_of, push_string, split_sep, strings_view, to_lower};

verus! {

/// The import statements used when the graph has no runtime module.
pub open spec fn runtime_fallback_imports() -> Seq<Seq<char>> {
    seq![
        "use bloxide_tokio::components::{Runnable, *};"@,
        "use bloxide_tokio::runtime::*;"@,
        "use bloxide_tokio::std_exports::*;"@,
    ]
}

pub open spec fn lines_section(imports: Seq<Seq<char>>) -> Seq<char> {
    if imports.len() == 0 {
        Seq::empty()
    } else {
        join_with(imports, "\n"@) + "\n\n"@
    }
}

/// One `select!` arm: messages from a receiver are dispatched as a message-set variant.
pub open spec fn select_arm(receiver: Seq<char>, message_set: Seq<char>, variant: Seq<char>) -> Seq<char> {
    concat_all(
        seq![
            "                    Some(msg) = self.receivers."@,
            receiver,
            ".recv() => {\n                        let current_state = self.state_machine.current_state.clone();\n                        self.state_machine.dispatch("@,
            message_set,
            "::"@,
            variant,
            "(msg), &current_state);\n                    }\n"@,
        ],
    )
}

/// The arms for the first `k` receiver and variant pairs, in order.
pub open spec fn select_arms(rs: Seq<MessageReceiver>, vs: Seq<EnumVariant>, message_set: Seq<char>, k: int) -> Seq<char>
    decreases k,
{
    if k <= 0 {
        Seq::empty()
    } else {
        select_arms(rs, vs, message_set, k - 1) + select_arm(rs[k - 1].ident@, message_set, vs[k - 1].ident@)
    }
}

pub open spec fn min(a: int, b: int) -> int {
    if a < b {
        a
    } else {
        b
    }
}

/// The run loop of an actor: it starts in its first two states (the first one twice when
/// there is only one) and dispatches what each receiver delivers.
pub open spec fn runtime_text(actor: Actor, imports: Seq<Seq<char>>) -> Seq<char> {
    let m = match actor.component.message_set {
        Some(ms) => ms.def.ident@,
        None => Seq::empty(),
    };
    let states = actor.component.states.states@;
    let first = states[0].ident@;
    let second = if states.len() > 1 {
        states[1].ident@
    } else {
        first
    };
    let e = actor.component.states.state_enum.0.ident@;
    let a = actor.ident@;
    let rs = actor.component.message_receivers.receivers@;
    let vs = match actor.component.message_set {
        Some(ms) => ms.def.variants@,
        None => Seq::empty(),
    };
    concat_all(
        seq![
            lines_section(imports),
            "use super::{\n    component::"@,
            a,
            "Components,\n    states::{\n        "@,
            lower_of(first),
            "::"@,
            first,
            ",\n        "@,
            lower_of(second),
            "::"@,
            second,
            ",\n        "@,
            e,
            ",\n    },\n    messaging::"@,
            m,
            ",\n};\n\nimpl Runnable<"@,
            a,
            "Components> for Blox<"@,
            a,
            "Components> {\n    fn run(mut self: Box<Self>) -> Pin<Box<dyn Future<Output = ()> + Send + 'static>> {\n        self.state_machine.init(\n            &"@,
            e,
            "::"@,
            first,
            "("@,
            first,
            "),\n            &"@,
            e,
            "::"@,
            second,
            "("@,
            second,
            "),\n        );\n\n        Box::pin(async move {\n            loop {\n                select! {\n"@,
            select_arms(rs, vs, m, min(rs.len() as int, vs.len() as int)),
            "\n                }\n            }\n        })\n    }\n}"@,
        ],
    )
}

/// The runtime code of an actor with at least one state, after the given imports.
pub fn runtime_code(actor: &Actor, imports: &Vec<String>) -> (r: String)
    requires
        actor.component.states.states@.len() > 0,
    ensures
        r@ == runtime_text(*actor, strings_view(imports@)),
{
    let section = if imports.len() == 0 {
        String::new()
    } else {
        let mut s = join_strings(imports, "\n");
        s.append("\n\n");
        s
    };
    let no_variants: Vec<EnumVariant> = Vec::new();
    let (m, vs): (&str, &Vec<EnumVariant>) = match &actor.component.message_set {
        Some(ms) => (ms.def.ident.as_str(), &ms.def.variants),
        None => ("", &no_variants),
    };
    proof {
        reveal_strlit("");
        assert(m@ == match actor.component.message_set {
            Some(ms) => ms.def.ident@,
            None => Seq::<char>::empty(),
        });
        assert(vs@ == match actor.component.message_set {
            Some(ms) => ms.def.variants@,
            None => Seq::<EnumVariant>::empty(),
        });
    }
    let rs = &actor.component.message_receivers.receivers;
    let k = if rs.len() < vs.len() {
        rs.len()
    } else {
        vs.len()
    };
    let mut arms = String::new();
    let mut i: usize = 0;
    while i < k
        invariant
            i <= k,
            k <= rs@.len(),
            k <= vs@.len(),
            arms@ == select_arms(rs@, vs@, m@, i as int),
        decreases k - i,
    {
        let p = [
            "                    Some(msg) = self.receivers.",
            rs[i].ident.as_str(),
            ".recv() => {\n                        let current_state = self.state_machine.current_state.clone();\n                        self.state_machine.dispatch(",
            m,
            "::",
            vs[i].ident.as_str(),
            "(msg), &current_state);\n                    }\n",
        ];
        proof {
            assert(p@.map_values(|x: &str| x@) =~= seq![
                p@[0]@, rs@[i as int].ident@, p@[2]@, m@, p@[4]@, vs@[i as int].ident@, p@[6]@,
            ]);
        }
        let arm = concat_parts(&p);
        arms.append(arm.as_str());
        i = i + 1;
    }
    let states = &actor.component.states.states;
    let first = states[0].ident.as_str();
    let second = if states.len() > 1 {
        states[1].ident.as_str()
    } else {
        first
    };
    let first_lower = to_lower(first);
    let second_lower = to_lower(second);
    let e = actor.component.states.state_enum.0.ident.as_str();
    let a = actor.ident.as_str();
    let p = [
        section.as_str(),
        "use super::{\n    component::",
        a,
        "Components,\n    states::{\n        ",
        first_lower.as_str(),
        "::",
        first,
        ",\n        ",
        second_lower.as_str(),
        "::",
        second,
        ",\n        ",
        e,
        ",\n    },\n    messaging::",
        m,
        ",\n};\n\nimpl Runnable<",
        a,
        "Components> for Blox<",
        a,
        "Components> {\n    fn run(mut self: Box<Self>) -> Pin<Box<dyn Future<Output = ()> + Send + 'static>> {\n        self.state_machine.init(\n            &",
        e,
        "::",
        first,
        "(",
        first,
        "),\n            &",
        e,
        "::",
        second,
        "(",
        second,
        "),\n        );\n\n        Box::pin(async move {\n            loop {\n                select! {\n",
        arms.as_str(),
        "\n                }\n            }\n        })\n    }\n}",
    ];
    let text = concat_parts(&p);
    proof {
        assert(section@ == lines_section(strings_view(imports@)));
        assert(p@.map_values(|x: &str| x@) =~= seq![
            section@, p@[1]@, a@, p@[3]@, first_lower@, p@[5]@, first@, p@[7]@, second_lower@,
            p@[9]@, second@, p@[11]@, e@, p@[13]@, m@, p@[15]@, a@, p@[17]@, a@, p@[19]@, e@,
            p@[21]@, first@, p@[23]@, first@, p@[25]@, e@, p@[27]@, second@, p@[29]@, second@,
            p@[31]@, arms@, p@[33]@,
        ]);
    }
    text
}

/// The runtime module of an actor with a message set and at least one state.
pub fn generate_runtime(actor: &Actor, graph: &CodeGenGraph) -> (r: Result<String, String>)
    requires
        actor.component.message_set is Some,
        actor.component.states.states@.len() > 0,
    ensures
        r matches Ok(text) && match find_module(
            graph.graph@,
            split_sep(lower_of(actor.ident@) + "::runtime"@),
        ) {
            Some(m) => exists|imps: Seq<Seq<char>>|
                #[trigger] imports_are(graph.graph@, m, node_path(graph.graph@, m), node_path(graph.graph@, m), imps)
                    && text@ == runtime_text(*actor, imps),
            None => text@ == runtime_text(*actor, runtime_fallback_imports()),
        },
{
    let mut path = to_lower(actor.ident.as_str());
    path.append("::runtime");
    let found = graph.graph.find_module_by_path_hierarchical(path.as_str());
    let imports = match found {
        Some(m) => graph.get_imports_for_module(m),
        None => {
            let mut v: Vec<String> = Vec::new();
            push_string(&mut v, "use bloxide_tokio::components::{Runnable, *};".to_owned());
            push_string(&mut v, "use bloxide_tokio::runtime::*;".to_owned());
            push_string(&mut v, "use bloxide_tokio::std_exports::*;".to_owned());
            proof {
                assert(strings_view(v@) =~= runtime_fallback_imports());
            }
            v
        },
    };
    let text = runtime_code(actor, &imports);
    proof {
        match found {
            Some(mi) => {
                assert(imports_are(
                    graph.graph@,
                    mi,
                    node_path(graph.graph@, mi),
                    node_path(graph.graph@, mi),
                    strings_view(imports@),
                ) && text@ == runtime_text(*actor, strings_view(imports@)));
            },
            None => {},
        }
    }
    Ok(text)
}

} // verus!
