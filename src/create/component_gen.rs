//! Code of the component module.
use vstd::prelude::*;
use crate::blox::actor::Actor;
use crate::blox::component::component_text;
use crate::graph::codegen::{CodeGenGraph, imports_are, node_path};
use crate::graph::rgraph::find_module;
use crate::path::{concat_all, concat_parts, join_strings, join_with, lower_of, split_sep, strings_view, to_lower};

verus! {

/// The component code of an actor.
pub fn generate_component(actor: &Actor) -> (r: String)
    ensures
        r@ == component_text(actor.component),
{
    actor.component.to_rust()
}

pub open spec fn component_doc(a: Seq<char>) -> Seq<char> {
    concat_all(
        seq![
            "//! # "@,
            a,
            " Components\n//!\n//! This module defines the component structure for the "@,
            a,
            " Blox.\n//! It specifies the states, message types, extended state, and communication\n//! channels that make up the "@,
            a,
            " component.\n"@,
        ],
    )
}

/// The header of the component module: the module doc, then the import statements and a
/// blank line when there are any.
pub open spec fn component_header(a: Seq<char>, imports: Seq<Seq<char>>) -> Seq<char> {
    if imports.len() == 0 {
        component_doc(a)
    } else {
        component_doc(a) + join_with(imports, "\n"@) + "\n\n"@
    }
}

/// The component module of an actor: with the import statements of the actor's component
/// module when the graph has it, with no header otherwise.
pub fn generate_component_with_graph(actor: &Actor, graph: &CodeGenGraph) -> (r: Result<String, String>)
    ensures
        r matches Ok(text) && ({
            let a = lower_of(actor.ident@);
            match find_module(graph.graph@, split_sep(a + "::component"@)) {
                Some(m) => exists|imps: Seq<Seq<char>>|
                    #[trigger] imports_are(graph.graph@, m, node_path(graph.graph@, m), node_path(graph.graph@, m), imps)
                        && text@ == component_header(a, imps) + "\n\n"@ + component_text(actor.component),
                None => text@ == "\n\n"@ + component_text(actor.component),
            }
        }),
{
    let a = to_lower(actor.ident.as_str());
    let mut path = a.clone();
    path.append("::component");
    let found = graph.graph.find_module_by_path_hierarchical(path.as_str());
    let body = actor.component.to_rust();
    match found {
        Some(m) => {
            let imports = graph.get_imports_for_module(m);
            let p = [
                "//! # ",
                a.as_str(),
                " Components\n//!\n//! This module defines the component structure for the ",
                a.as_str(),
                " Blox.\n//! It specifies the states, message types, extended state, and communication\n//! channels that make up the ",
                a.as_str(),
                " component.\n",
            ];
            proof {
                assert(p@.map_values(|x: &str| x@) =~= seq![p@[0]@, a@, p@[2]@, a@, p@[4]@, a@, p@[6]@]);
            }
            let mut text = concat_parts(&p);
            if imports.len() > 0 {
                let joined = join_strings(&imports, "\n");
                text.append(joined.as_str());
                text.append("\n\n");
            }
            text.append("\n\n");
            text.append(body.as_str());
            proof {
                assert(imports_are(
                    graph.graph@,
                    m,
                    node_path(graph.graph@, m),
                    node_path(graph.graph@, m),
                    strings_view(imports@),
                ) && text@ == component_header(a@, strings_view(imports@)) + "\n\n"@ + component_text(
                    actor.component,
                ));
            }
            Ok(text)
        },
        None => {
            let mut text = String::from_str("\n\n");
            text.append(body.as_str());
            Ok(text)
        },
    }
}

} // verus!
