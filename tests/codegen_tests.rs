use bloxml::actor::Actor;
use bloxml::enums::{EnumDef, EnumVariant};
use bloxml::graph::node::Relation;
use bloxml::graph::CodeGenGraph;
use bloxml::graph::discover::extract_types_from_string;
use bloxml::message_handlers::{MessageHandle, MessageReceiver};
use bloxml::message_set::MessageSet;
use bloxml::state::{State, StateEnum, States};
use bloxml::Link;

fn create_test_states() -> States {
    States::new(
        vec![
            State::new("Create", None, None),
            State::new("Update", Some("Create".to_string()), None),
        ],
        StateEnum::new(EnumDef::new("ActorStates", vec![])),
    )
}

#[test]
fn test_unified_dependency_system() {
    let mut graph = CodeGenGraph::new();
    let module = "session::component";

    graph.add_dependency_by_path(module, "bloxide_tokio::components::Components");
    graph.add_dependency_by_path(module, "bloxide_tokio::TokioMessageHandle");
    graph.add_dependency_by_path(module, "crate::session::messaging::CustomArgs");

    let module_idx = graph
        .graph
        .find_module_by_path_hierarchical(module)
        .expect("Module should exist");
    let imports = graph.get_imports_for_module(module_idx);

    assert!(imports.iter().any(|s| s.contains("Components")));
    assert!(imports.iter().any(|s| s.contains("TokioMessageHandle")));
    assert!(imports.iter().any(|s| s.contains("CustomArgs")));
}

#[test]
fn test_self_import_detection() {
    let graph = CodeGenGraph::new();

    assert!(graph.is_self_import("session::component", "crate::session::component::SomeType"));
    assert!(graph.is_self_import("session::component", "crate::session::component::*"));
    assert!(graph.is_self_import(
        "crate::session::component",
        "crate::session::component::SomeType"
    ));

    assert!(!graph.is_self_import(
        "session::component",
        "crate::session::messaging::CustomArgs"
    ));
    assert!(!graph.is_self_import(
        "session::component",
        "bloxide_tokio::components::Components"
    ));
    assert!(!graph.is_self_import("session::component", "bloxide_tokio::TokioMessageHandle"));
}

#[test]
fn test_self_import_prevention() {
    let mut graph = CodeGenGraph::new();

    assert!(graph.is_self_import("session::component", "crate::session::component::SomeType"));
    assert!(graph.is_self_import("session::component", "crate::session::component::*"));
    assert!(graph.is_self_import(
        "crate::session::component",
        "crate::session::component::SomeType"
    ));

    assert!(!graph.is_self_import(
        "session::component",
        "crate::session::messaging::CustomArgs"
    ));
    assert!(!graph.is_self_import(
        "session::component",
        "bloxide_tokio::components::Components"
    ));
    assert!(!graph.is_self_import("session::component", "bloxide_tokio::TokioMessageHandle"));

    graph.add_dependency_by_path("session::component", "crate::session::component::SomeType");
    graph.add_dependency_by_path("session::component", "crate::session::messaging::CustomArgs");
    graph.add_dependency_by_path("session::component", "bloxide_tokio::components::Components");

    if let Some(component_idx) = graph
        .graph
        .find_module_by_path_hierarchical("session::component")
    {
        let imports = graph.get_imports_for_module(component_idx);
        assert!(imports.iter().any(|s| s.contains("CustomArgs")));
        assert!(imports.iter().any(|s| s.contains("Components")));
        for import in &imports {
            assert!(
                !import.contains("crate::session::component"),
                "Found self-import in generated imports: {import}",
            );
        }
    } else {
        panic!("Component module should exist in graph");
    }
}

#[test]
fn test_add_dependency_by_path_creates_uses_relationships() {
    let mut graph = CodeGenGraph::new();
    graph.add_dependency_by_path("session::component", "bloxide_tokio::components::Components");

    let component_module_idx = graph
        .graph
        .find_module_by_path_hierarchical("session::component")
        .expect("Component module should exist");

    let connections = graph.graph.find_connected_nodes(component_module_idx);
    let uses_connections: Vec<_> = connections
        .into_iter()
        .filter(|entry| entry.relation() == Relation::Uses)
        .collect();

    assert!(!uses_connections.is_empty(), "Should have at least one Uses relationship");

    let components_connection = uses_connections
        .iter()
        .find(|entry| entry.node().name() == "Components");

    assert!(
        components_connection.is_some(),
        "Should have a Uses relationship to Components trait"
    );
}

#[test]
fn test_code_usage_detection() {
    let graph = CodeGenGraph::new();
    let test_cases = vec![
        ("impl Components for Test", "Components", true),
        ("pub field: TokioMessageHandle<Msg>", "TokioMessageHandle", true),
        (": TokioRuntime", "TokioRuntime", true),
        ("<<Runtime>::MessageHandle", "Runtime", true),
        ("as MessageSender", "MessageSender", true),
        ("random_function()", "Components", false),
        ("SomeOtherType", "TokioMessageHandle", false),
    ];
    for (code, symbol, expected) in test_cases {
        let result = graph.code_uses_type(code, symbol);
        assert_eq!(result, expected, "Expected {expected} for type '{symbol}' in code: '{code}'");
    }
}

#[test]
fn test_comprehensive_structural_analysis() {
    let mut actor = Actor::new("TestActor", "test", create_test_states(), None);
    actor
        .component
        .message_handles
        .add_handle(MessageHandle::new("test_handle", "TestMessage"));
    actor
        .component
        .message_receivers
        .add_receiver(MessageReceiver::new("test_rx", "TestMessage"));

    let mut graph = CodeGenGraph::new();
    let _ = graph.analyze_actor(&actor);

    let component_module_idx = graph
        .graph
        .find_module_by_path_hierarchical("testactor::component")
        .expect("Component module should exist");
    let component_imports = graph.get_imports_for_module(component_module_idx);
    assert!(component_imports
        .iter()
        .any(|s| s.contains("bloxide_tokio::components::Components")));
    assert!(component_imports
        .iter()
        .any(|s| s.contains("bloxide_tokio::components::Runtime")));
    assert!(component_imports
        .iter()
        .any(|s| s.contains("bloxide_tokio::TokioMessageHandle")));

    let states_module_idx = graph
        .graph
        .find_module_by_path_hierarchical("testactor::states")
        .expect("States module should exist");
    let states_imports = graph.get_imports_for_module(states_module_idx);
    assert!(states_imports
        .iter()
        .any(|s| s.contains("bloxide_tokio::state_machine::StateMachine")));
    assert!(states_imports
        .iter()
        .any(|s| s.contains("bloxide_tokio::state_machine::State")));

    let ext_state_module_idx = graph
        .graph
        .find_module_by_path_hierarchical("testactor::ext_state")
        .expect("ExtState module should exist");
    let ext_state_imports = graph.get_imports_for_module(ext_state_module_idx);
    assert!(ext_state_imports
        .iter()
        .any(|s| s.contains("bloxide_tokio::state_machine::ExtendedState")));

    let runtime_module_idx = graph
        .graph
        .find_module_by_path_hierarchical("testactor::runtime")
        .expect("Runtime module should exist");
    let runtime_imports = graph.get_imports_for_module(runtime_module_idx);
    assert!(runtime_imports.iter().any(|s| s.contains("Runnable")));
}

#[test]
fn self_import_excluded_through_glob_and_direct() {
    let mut graph = CodeGenGraph::new();
    graph.add_dependency_by_path("app::ui", "crate::app::other::Thing");
    let m = graph.graph.find_module_by_path_hierarchical("app::ui").unwrap();
    // A Uses edge that the insertion guard would have refused, added directly.
    let own = graph.graph.add_type_from_path("crate::app::ui::Own");
    graph.graph.add_edge(m, own, Relation::Uses);
    let edges_before = graph.graph.edge_count();
    graph.add_dependency_by_path("app::ui", "crate::app::ui::*");
    assert_eq!(graph.graph.edge_count(), edges_before);
    let imports = graph.generate_imports_for_module("app::ui");
    assert_eq!(imports, vec!["use crate::app::other::Thing;".to_string()]);
}

#[test]
fn duplicate_targets_yield_one_sorted_import() {
    let mut graph = CodeGenGraph::new();
    graph.add_dependency_by_path("s::m", "z::Last");
    graph.add_dependency_by_path("s::m", "a::First");
    graph.add_dependency_by_path("s::m", "z::Last");
    graph.add_dependency_by_path("s::m", "a::b");
    let imports = graph.generate_imports_for_module("s::m");
    assert_eq!(
        imports,
        vec![
            "use a::First;".to_string(),
            "use a::b;".to_string(),
            "use z::Last;".to_string(),
        ]
    );
    let mut sorted = imports.clone();
    sorted.sort();
    assert_eq!(sorted, imports);
}

#[test]
fn imports_of_missing_module_are_empty() {
    let graph = CodeGenGraph::new();
    assert!(graph.generate_imports_for_module("nowhere::at_all").is_empty());
}

#[test]
fn generation_order_reports_a_cycle_node() {
    let mut graph = CodeGenGraph::new();
    let a = graph.graph.add_type_from_path("A");
    let b = graph.graph.add_type_from_path("B");
    let c = graph.graph.add_type_from_path("C");
    graph.graph.add_edge(a, b, Relation::Uses);
    graph.graph.add_edge(b, c, Relation::Uses);
    let order = graph.get_generation_order().expect("acyclic");
    assert_eq!(order.len(), 3);
    graph.graph.add_edge(c, a, Relation::Uses);
    assert!(graph.graph.is_cyclic());
    let err = graph.get_generation_order().unwrap_err();
    assert!([a, b, c].contains(&err.node));
}

#[test]
fn end_to_end_custom_message_type() {
    let def = EnumDef::new("ShopMessageSet", vec![EnumVariant::new("Order", vec![Link::new("Message<SomeType>")])]);
    let custom = EnumDef::new("SomeType", vec![EnumVariant::new("Value", vec![Link::new("String")])]);
    let ms = MessageSet::with_custom_types(def, vec![custom]);
    let mut actor = Actor::new("Shop", "out", create_test_states(), Some(ms));
    actor
        .component
        .message_handles
        .add_handle(MessageHandle::new("some_handle", "SomeType"));
    let mut graph = CodeGenGraph::new();
    assert!(graph.analyze_actor(&actor).is_ok());

    let messaging = graph.generate_imports_for_module("shop::messaging");
    assert!(messaging.contains(&"use bloxide_tokio::messaging::Message;".to_string()));
    assert!(messaging.iter().all(|s| !s.contains("crate::shop::messaging")));

    let component = graph.generate_imports_for_module("shop::component");
    assert!(component.contains(&"use crate::shop::messaging::SomeType;".to_string()));
    assert!(component.contains(&"use crate::shop::messaging::ShopMessageSet;".to_string()));
    assert!(graph.unresolved_types.is_empty());
}

#[test]
fn unknown_types_are_collected_not_fatal() {
    let mut actor = Actor::new("Lab", "out", create_test_states(), None);
    actor
        .component
        .message_handles
        .add_handle(MessageHandle::new("h", "Vec<Mystery>"));
    let mut graph = CodeGenGraph::new();
    assert!(graph.analyze_actor(&actor).is_ok());
    assert_eq!(graph.unresolved_types.len(), 1);
    assert_eq!(graph.unresolved_types[0].name, "Mystery");
    assert_eq!(graph.unresolved_types[0].used_in_module, "lab::component");
}

#[test]
fn extract_required_imports_in_table_order() {
    let graph = CodeGenGraph::new();
    let found = graph.extract_required_imports("impl Runnable for X { fn f(s: StateMachine<C>) {} }");
    assert_eq!(
        found,
        vec![
            "bloxide_tokio::state_machine::StateMachine".to_string(),
            "bloxide_tokio::state_machine::State".to_string(),
            "bloxide_tokio::components::Runnable".to_string(),
        ]
    );
}

#[test]
fn debug_dump_lists_nodes_and_relations() {
    let mut graph = CodeGenGraph::new();
    graph.add_dependency_by_path("m", "x::T");
    let dump = graph.debug_dependencies();
    assert_eq!(
        dump,
        "=== Code Generation Dependency Graph ===\nNode: m (Module)\n  -> T (Uses)\n\nNode: x (Module)\n  -> T (Contains)\n\nNode: T (Type)\n\n"
    );
}

#[test]
fn generated_type_uses_its_dependencies() {
    let mut graph = CodeGenGraph::new();
    let t = graph.add_generated_type("gen::Thing", &["dep::A".to_string(), "dep::B".to_string()]);
    let uses: Vec<String> = graph
        .graph
        .find_connected_nodes(t)
        .into_iter()
        .filter(|e| e.relation() == Relation::Uses)
        .map(|e| graph.get_node_path(e.index))
        .collect();
    assert_eq!(uses, vec!["dep::A".to_string(), "dep::B".to_string()]);
}

#[test]
fn resolution_precedence() {
    let mut graph = CodeGenGraph::new();
    graph.bootstrap_bloxide_types();
    assert!(matches!(
        graph.resolve_type_location("String", "a::b"),
        bloxml::graph::ty::TypeLocation::Builtin
    ));
    match graph.resolve_type_location("Message", "a::b") {
        bloxml::graph::ty::TypeLocation::BloxideFramework(p) => {
            assert_eq!(p, "bloxide_tokio::messaging::Message")
        }
        _ => panic!("Message is a framework type"),
    }
    assert!(matches!(
        graph.resolve_type_location("Nope", "a::b"),
        bloxml::graph::ty::TypeLocation::Unknown
    ));
}

#[test]
fn extract_types_from_signatures() {
    assert_eq!(
        extract_types_from_string("Result<Vec<a::b::Thing>, (Other, 9x, i32)>"),
        vec!["Thing".to_string(), "Other".to_string()]
    );
    assert!(extract_types_from_string("").is_empty());
    assert!(extract_types_from_string("a::b-c").is_empty());
}

#[test]
fn resolution_dump_lists_tables_in_order() {
    let mut actor = Actor::new("Lab", "out", create_test_states(), None);
    actor
        .component
        .message_handles
        .add_handle(MessageHandle::new("h", "Mystery"));
    let mut graph = CodeGenGraph::new();
    graph.analyze_actor(&actor).unwrap();
    let dump = graph.debug_type_resolution();
    assert!(dump.starts_with("=== Type Resolution Debug ===\n\nFramework Types:\n  Components -> bloxide_tokio::components::Components\n"));
    assert!(dump.contains("\nDiscovered Types:\n  Mystery (in lab::component, context: Component)\n"));
    assert!(dump.contains("  Message -> BloxideFramework(\"bloxide_tokio::messaging::Message\")\n"));
}

#[test]
fn glob_target_reuses_existing_module() {
    let mut graph = CodeGenGraph::new();
    let m = graph.add_generated_module("crate::lib::util");
    let before = graph.graph.node_count();
    let g = graph.get_or_create_node_by_path("crate::lib::util::*");
    assert_eq!(g, m);
    assert_eq!(graph.graph.node_count(), before);
}

#[test]
fn glob_back_into_module_is_not_imported() {
    let mut graph = CodeGenGraph::new();
    graph.add_dependency_by_path("app::ui", "other::Thing");
    let m = graph.graph.find_module_by_path_hierarchical("app::ui").unwrap();
    let glob = graph.get_or_create_node_by_path("crate::app::ui::*");
    graph.graph.add_edge(m, glob, Relation::Uses);
    let imports = graph.generate_imports_for_module("app::ui");
    assert_eq!(imports, vec!["use other::Thing;".to_string()]);
}

#[test]
fn tokens_split_on_unicode_whitespace() {
    assert_eq!(extract_types_from_string("\u{a0}Foo\u{a0}"), vec!["Foo".to_string()]);
    assert_eq!(extract_types_from_string("Vec<\u{b}Bar\u{2028}>"), vec!["Bar".to_string()]);
    assert!(extract_types_from_string("a-b::Foo").is_empty());
    assert_eq!(extract_types_from_string("Message<SomeType>"), vec!["Message".to_string(), "SomeType".to_string()]);
    assert!(extract_types_from_string("Vec<String>").is_empty());
}
