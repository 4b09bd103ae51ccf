//! The generator of one actor: the analysed graph and the code of each module.
use vstd::prelude::*;
use crate::blox::actor::Actor;
use crate::blox::component::component_text;
use crate::blox::ext_state::ext_state_text;
use crate::blox::message_set::MessageSet;
use crate::blox::state::{State, state_enum_code, state_text};
use crate::create::component_gen::{component_header, generate_component_with_graph};
use crate::create::message_gen::{
    CUSTOM_DOC, MODULE_DOC_HEAD, MODULE_DOC_TAIL, custom_type_texts, enum_definition_with, enum_text,
    enum_text_with,
};
use crate::create::runtime_gen::{lines_section, runtime_code, runtime_text};
use crate::create::state_gen::state_message_set;
use crate::graph::codegen::{CodeGenGraph, CodeGenView, analyze_spec, imports_are, node_path};
use crate::graph::rgraph::{GraphView, find_module};
use crate::path::{concat_all, concat_parts, join_strings, join_with, lower_of, split_sep, strings_view, to_lower};

verus! {

/// The state of a graph that nothing was added to.
pub open spec fn empty_view() -> CodeGenView {
    CodeGenView {
        graph: GraphView { nodes: Seq::empty(), edges: Seq::empty() },
        discovered: Seq::empty(),
        framework: Seq::empty(),
        resolved: Seq::empty(),
        unresolved: Seq::empty(),
    }
}

/// `imps` are the import statements of the module at `path`: none when there is no such
/// module.
pub open spec fn module_imports(g: GraphView, path: Seq<char>, imps: Seq<Seq<char>>) -> bool {
    match find_module(g, split_sep(path)) {
        Some(m) => imports_are(g, m, node_path(g, m), node_path(g, m), imps),
        None => imps.len() == 0,
    }
}

pub open spec fn messaging_text(ms: MessageSet, imports: Seq<Seq<char>>) -> Seq<char> {
    concat_all(
        seq![
            MODULE_DOC_HEAD@,
            ms.def.ident@,
            MODULE_DOC_TAIL@,
            lines_section(imports),
            "\n\n"@,
            enum_text(ms.def, true),
            "\n\n"@,
            join_with(custom_type_texts(ms.custom_types@), "\n\n"@),
            "\n\nimpl MessageSet for "@,
            ms.def.ident@,
            " {}\n"@,
        ],
    )
}

pub open spec fn ext_state_module_text(actor: Actor) -> Seq<char> {
    let i = actor.ident@;
    concat_all(
        seq![
            "//! # "@,
            i,
            " Extended State\n//! \n//! Extended state for the "@,
            i,
            " component.\n//! This file defines the extended state data structure that persists across state transitions.\n\n/// Extended state for the "@,
            i,
            " component\n"@,
            ext_state_text(actor.component.ext_state),
            "\n"@,
        ],
    )
}

/// Generates the code of one actor over the graph its analysis built.
pub struct ActorGenerator {
    graph: CodeGenGraph,
    actor: Actor,
}

impl ActorGenerator {
    pub closed spec fn spec_actor(&self) -> Actor {
        self.actor
    }

    pub closed spec fn spec_graph(&self) -> CodeGenView {
        self.graph@
    }

    pub closed spec fn wf(&self) -> bool {
        self.graph.wf()
    }

    /// A generator whose graph is the analysis of `actor`.
    pub fn new(actor: Actor) -> (r: Result<Self, String>)
        ensures
            r matches Ok(g) && g.wf() && g.spec_actor() == actor && g.spec_graph() == analyze_spec(
                empty_view(),
                actor,
            ),
    {
        let mut graph = CodeGenGraph::new();
        proof {
            assert(graph@.graph.nodes =~= Seq::empty());
            assert(graph@.graph.edges =~= Seq::empty());
            assert(graph@.discovered =~= Seq::empty());
            assert(graph@.framework =~= Seq::empty());
            assert(graph@.resolved =~= Seq::empty());
            assert(graph@.unresolved =~= Seq::empty());
            assert(graph@ == empty_view());
        }
        graph.analyze_actor(&actor)?;
        Ok(ActorGenerator { graph, actor })
    }

    pub fn actor(&self) -> (r: &Actor)
        ensures
            *r == self.spec_actor(),
    {
        &self.actor
    }

    pub fn graph(&self) -> (r: &CodeGenGraph)
        ensures
            r@ == self.spec_graph(),
    {
        &self.graph
    }

    /// The graph, for further changes.
    pub fn graph_mut(&mut self) -> (r: &mut CodeGenGraph)
        ensures
            r@ == old(self).spec_graph(),
    {
        &mut self.graph
    }

    /// The name of the component type.
    pub fn component_type(&self) -> (r: &str)
        ensures
            r@ == self.spec_actor().component.ident@,
    {
        self.actor.component.ident.as_str()
    }

    /// The message set type: its enum, or the component's associated type.
    pub fn message_set(&self) -> (r: String)
        ensures
            r@ == state_message_set(self.spec_actor()),
    {
        match &self.actor.component.message_set {
            Some(ms) => ms.def.ident.clone(),
            None => {
                let c = self.actor.component.ident.as_str();
                let parts = ["<", c, " as Components>::MessageSet"];
                proof {
                    assert(parts@.map_values(|p: &str| p@) =~= seq![parts@[0]@, c@, parts@[2]@]);
                }
                concat_parts(&parts)
            },
        }
    }

    /// The actor's module: its lowercase name.
    pub fn actor_module(&self) -> (r: String)
        ensures
            r@ == lower_of(self.spec_actor().ident@),
    {
        to_lower(self.actor.ident.as_str())
    }

    fn imports_at(&self, path: &str) -> (r: Vec<String>)
        ensures
            module_imports(self.graph.graph@, path@, strings_view(r@)),
    {
        match self.graph.graph.find_module_by_path_hierarchical(path) {
            Some(m) => self.graph.get_imports_for_module(m),
            None => Vec::new(),
        }
    }

    /// The component module.
    pub fn generate_component(&mut self) -> (r: Result<String, String>)
        ensures
            final(self).spec_actor() == old(self).spec_actor(),
            final(self).spec_graph() == old(self).spec_graph(),
            r matches Ok(text) && ({
                let a = lower_of(old(self).spec_actor().ident@);
                let g = old(self).spec_graph().graph;
                match find_module(g, split_sep(a + "::component"@)) {
                    Some(m) => exists|imps: Seq<Seq<char>>|
                        #[trigger] imports_are(g, m, node_path(g, m), node_path(g, m), imps) && text@
                            == component_header(a, imps) + "\n\n"@ + component_text(old(self).spec_actor().component),
                    None => text@ == "\n\n"@ + component_text(old(self).spec_actor().component),
                }
            }),
    {
        generate_component_with_graph(&self.actor, &self.graph)
    }

    /// The message module; none without a message set.
    pub fn generate_messaging(&mut self) -> (r: Result<Option<String>, String>)
        ensures
            final(self).spec_actor() == old(self).spec_actor(),
            final(self).spec_graph() == old(self).spec_graph(),
            r is Ok,
            match old(self).spec_actor().component.message_set {
                None => r == Ok::<Option<String>, String>(None),
                Some(ms) => r matches Ok(Some(text)) && exists|imps: Seq<Seq<char>>|
                    #[trigger] module_imports(
                        old(self).spec_graph().graph,
                        lower_of(old(self).spec_actor().ident@) + "::messaging"@,
                        imps,
                    ) && text@ == messaging_text(ms, imps),
            },
    {
        let ms = match &self.actor.component.message_set {
            Some(ms) => ms,
            None => {
                return Ok(None);
            },
        };
        let mut path = to_lower(self.actor.ident.as_str());
        path.append("::messaging");
        let imports = self.imports_at(path.as_str());
        let section = if imports.len() == 0 {
            String::new()
        } else {
            let mut s = join_strings(&imports, "\n");
            s.append("\n\n");
            s
        };
        let main_enum = crate::create::message_gen::generate_enum_definition(&ms.def)?;
        let customs = &ms.custom_types;
        let mut custom_defs: Vec<String> = Vec::new();
        let mut i: usize = 0;
        while i < customs.len()
            invariant
                i <= customs@.len(),
                strings_view(custom_defs@) == custom_type_texts(customs@).take(i as int),
            decreases customs@.len() - i,
        {
            let d = enum_definition_with(CUSTOM_DOC, &customs[i], false);
            crate::path::push_string(&mut custom_defs, d);
            proof {
                assert(custom_type_texts(customs@).take(i + 1) =~= custom_type_texts(customs@).take(
                    i as int,
                ).push(enum_text_with(CUSTOM_DOC@, customs@[i as int], false)));
            }
            i = i + 1;
        }
        proof {
            assert(custom_type_texts(customs@).take(customs@.len() as int) =~= custom_type_texts(customs@));
        }
        let custom_types = join_strings(&custom_defs, "\n\n");
        let ident = ms.def.ident.as_str();
        let p = [
            MODULE_DOC_HEAD,
            ident,
            MODULE_DOC_TAIL,
            section.as_str(),
            "\n\n",
            main_enum.as_str(),
            "\n\n",
            custom_types.as_str(),
            "\n\nimpl MessageSet for ",
            ident,
            " {}\n",
        ];
        let text = concat_parts(&p);
        proof {
            assert(section@ == lines_section(strings_view(imports@)));
            assert(p@.map_values(|x: &str| x@) =~= seq![
                MODULE_DOC_HEAD@, ident@, MODULE_DOC_TAIL@, section@, p@[4]@, main_enum@, p@[6]@,
                custom_types@, p@[8]@, ident@, p@[10]@,
            ]);
            assert(module_imports(self.graph.graph@, path@, strings_view(imports@)));
            assert(self.spec_graph().graph == self.graph.graph@);
            assert(path@ == lower_of(self.spec_actor().ident@) + "::messaging"@);
            assert(module_imports(
                self.spec_graph().graph,
                lower_of(self.spec_actor().ident@) + "::messaging"@,
                strings_view(imports@),
            ) && text@ == messaging_text(*ms, strings_view(imports@)));
        }
        Ok(Some(text))
    }

    /// The runtime module of an actor with at least one state.
    pub fn generate_runtime(&self) -> (r: Result<String, String>)
        requires
            self.spec_actor().component.states.states@.len() > 0,
        ensures
            r matches Ok(text) && exists|imps: Seq<Seq<char>>|
                #[trigger] module_imports(
                    self.spec_graph().graph,
                    lower_of(self.spec_actor().ident@) + "::runtime"@,
                    imps,
                ) && text@ == runtime_text(self.spec_actor(), imps),
    {
        let mut path = to_lower(self.actor.ident.as_str());
        path.append("::runtime");
        let imports = self.imports_at(path.as_str());
        let text = runtime_code(&self.actor, &imports);
        proof {
            assert(module_imports(self.graph.graph@, path@, strings_view(imports@)));
            assert(self.spec_graph().graph == self.graph.graph@);
            assert(path@ == lower_of(self.spec_actor().ident@) + "::runtime"@);
            assert(module_imports(
                self.spec_graph().graph,
                lower_of(self.spec_actor().ident@) + "::runtime"@,
                strings_view(imports@),
            ) && text@ == runtime_text(self.spec_actor(), strings_view(imports@)));
        }
        Ok(text)
    }

    /// The extended-state module.
    pub fn generate_ext_state(&mut self) -> (r: String)
        ensures
            final(self).spec_actor() == old(self).spec_actor(),
            final(self).spec_graph() == old(self).spec_graph(),
            r@ == ext_state_module_text(old(self).spec_actor()),
    {
        let i = self.actor.ident.as_str();
        let body = self.actor.component.ext_state.to_rust();
        let p = [
            "//! # ",
            i,
            " Extended State\n//! \n//! Extended state for the ",
            i,
            " component.\n//! This file defines the extended state data structure that persists across state transitions.\n\n/// Extended state for the ",
            i,
            " component\n",
            body.as_str(),
            "\n",
        ];
        proof {
            assert(p@.map_values(|x: &str| x@) =~= seq![
                p@[0]@, i@, p@[2]@, i@, p@[4]@, i@, p@[6]@, body@, p@[8]@,
            ]);
        }
        concat_parts(&p)
    }

    /// The module of one state: the imports of its module, when the graph has one, then
    /// its code.
    pub fn generate_state_impl(&self, state: &State) -> (r: Result<String, String>)
        ensures
            r matches Ok(text) && exists|imps: Seq<Seq<char>>|
                #[trigger] module_imports(
                    self.spec_graph().graph,
                    lower_of(self.spec_actor().ident@) + "::states::"@ + lower_of(state.ident@),
                    imps,
                ) && text@ == lines_section(imps) + state_text(
                    state.ident@,
                    self.spec_actor().component.ident@,
                    state_message_set(self.spec_actor()),
                ),
    {
        let mut path = to_lower(self.actor.ident.as_str());
        path.append("::states::");
        let lower = to_lower(state.ident.as_str());
        path.append(lower.as_str());
        let imports = self.imports_at(path.as_str());
        let mut text = if imports.len() == 0 {
            String::new()
        } else {
            let mut s = join_strings(&imports, "\n");
            s.append("\n\n");
            s
        };
        let m = self.message_set();
        let code = state.to_rust(self.component_type(), m.as_str());
        text.append(code.as_str());
        proof {
            assert(self.spec_graph().graph == self.graph.graph@);
            assert(path@ == lower_of(self.spec_actor().ident@) + "::states::"@ + lower_of(state.ident@));
            assert(module_imports(self.spec_graph().graph, lower_of(self.spec_actor().ident@) + "::states::"@ + lower_of(state.ident@), strings_view(imports@)) && text@
                == lines_section(strings_view(imports@)) + state_text(
                state.ident@,
                self.actor.component.ident@,
                state_message_set(self.actor),
            ));
        }
        Ok(text)
    }

    /// The states module's enum: the imports of the states module, then the enum code.
    pub fn generate_state_enum(&self) -> (r: Result<String, String>)
        ensures
            r matches Ok(text) && exists|imps: Seq<Seq<char>>|
                #[trigger] module_imports(
                    self.spec_graph().graph,
                    lower_of(self.spec_actor().ident@) + "::states"@,
                    imps,
                ) && text@ == lines_section(imps) + state_enum_code(
                    self.spec_actor().component.states.state_enum.0.ident@,
                    self.spec_actor().component.states.states@,
                    self.spec_actor().component.ident@,
                    state_message_set(self.spec_actor()),
                ),
    {
        let mut path = to_lower(self.actor.ident.as_str());
        path.append("::states");
        let imports = self.imports_at(path.as_str());
        let mut text = if imports.len() == 0 {
            String::new()
        } else {
            let mut s = join_strings(&imports, "\n");
            s.append("\n\n");
            s
        };
        let m = self.message_set();
        let states = &self.actor.component.states;
        let code = states.state_enum.to_rust(&states.states, self.component_type(), m.as_str());
        text.append(code.as_str());
        proof {
            assert(self.spec_graph().graph == self.graph.graph@);
            assert(path@ == lower_of(self.spec_actor().ident@) + "::states"@);
            assert(module_imports(self.spec_graph().graph, lower_of(self.spec_actor().ident@) + "::states"@, strings_view(imports@)) && text@
                == lines_section(strings_view(imports@)) + state_enum_code(
                self.actor.component.states.state_enum.0.ident@,
                self.actor.component.states.states@,
                self.actor.component.ident@,
                state_message_set(self.actor),
            ));
        }
        Ok(text)
    }
}

} // verus!
