use bloxml::actor::Actor;
use bloxml::component::Component;
use bloxml::create::component_gen::{generate_component, generate_component_with_graph};
use bloxml::create::ext_state_gen::generate_ext_state;
use bloxml::create::message_gen::generate_message_set;
use bloxml::create::runtime_gen::generate_runtime;
use bloxml::create::ActorGenerator;
use bloxml::create::{
    generate_inner_states_with_graph, generate_inner_states_with_structural_analysis,
    generate_state_enum_impl_with_graph, generate_state_enum_impl_with_structural_analysis,
};
use bloxml::enums::{EnumDef, EnumVariant};
use bloxml::ext_state::{ExtState, InitArgs};
use bloxml::graph::CodeGenGraph;
use bloxml::message_handlers::{MessageHandle, MessageHandles, MessageReceiver, MessageReceivers};
use bloxml::message_set::MessageSet;
use bloxml::state::{State, StateEnum, States};
use bloxml::{Field, Link, Method};

fn create_test_message_set() -> MessageSet {
    MessageSet::new(EnumDef::new(
        "ActorMessageSet",
        vec![
            EnumVariant::new("CustomValue1", vec![Link::new("bloxide_core::messaging::Standard")]),
            EnumVariant::new("CustomValue2", vec![Link::new("CustomArgs")]),
        ],
    ))
}

fn create_test_states() -> States {
    States::new(
        vec![
            State::new("Create", None, None),
            State::new("Update", Some("Create".to_string()), None),
        ],
        StateEnum::new(EnumDef::new("ActorStates", vec![])),
    )
}

fn create_test_ext_state() -> ExtState {
    ExtState::new(
        "ActorExtState",
        vec![Field::new("field1", "String"), Field::new("field2", "i32")],
        vec![
            Method::new("get_custom_value", &[], "String", "self.custom_value"),
            Method::new("get_custom_value2", &[], "i32", "self.custom_value2"),
            Method::new("hello_world", &[], "", r#"println!("Hello, world!")"#),
        ],
        InitArgs::new("ActorInitArgs", vec![Field::new("field1", "String")]),
    )
}

fn create_test_component() -> Component {
    let mut handles = MessageHandles::new("ActorHandles");
    handles.add_handle(MessageHandle::new("standard_handle", "Standard"));
    handles.add_handle(MessageHandle::new("customargs_handle", "CustomArgs"));
    let mut receivers = MessageReceivers::new("ActorReceivers");
    receivers.add_receiver(MessageReceiver::new("standard_rx", "Standard"));
    receivers.add_receiver(MessageReceiver::new("customargs_rx", "CustomArgs"));
    Component::new(
        "ActorComponents",
        handles,
        receivers,
        create_test_states(),
        Some(create_test_message_set()),
        create_test_ext_state(),
    )
}

fn create_test_actor() -> Actor {
    let mut actor = Actor::new("Actor", "tests/output", create_test_states(), Some(create_test_message_set()));
    actor.component = create_test_component();
    actor
}

fn to_rust_component() -> String {
    let mut handles = MessageHandles::new("ActorHandles");
    handles.add_handle(MessageHandle::new("test_handle", "TestMessage"));
    let mut receivers = MessageReceivers::new("ActorReceivers");
    receivers.add_receiver(MessageReceiver::new("test_rx", "TestMessage"));
    let component = Component::new(
        "ActorComponents",
        handles,
        receivers,
        create_test_states(),
        None,
        ExtState::default(),
    );
    component.to_rust()
}

#[test]
fn component_test_to_rust() {
    let rust_code = to_rust_component();
    assert!(rust_code.contains("pub struct ActorHandles"));
    assert!(rust_code.contains("pub struct ActorReceivers"));
    assert!(rust_code.contains("pub test_handle: TokioMessageHandle<TestMessage>"));
    assert!(rust_code.contains("pub test_rx: <<TokioRuntime as Runtime>::MessageHandle<TestMessage> as MessageSender>::ReceiverType"));
}

#[test]
fn component_gen_test_to_rust() {
    let rust_code = to_rust_component();
    assert!(rust_code.contains("pub struct ActorHandles"));
    assert!(rust_code.contains("pub struct ActorReceivers"));
    assert!(rust_code.contains("pub test_handle: TokioMessageHandle<TestMessage>"));
    assert!(rust_code.contains("pub test_rx: <<TokioRuntime as Runtime>::MessageHandle<TestMessage> as MessageSender>::ReceiverType"));
}

#[test]
fn test_structural_import_detection() {
    let actor = Actor::new("TestActor", "test", create_test_states(), None);
    let mut graph = CodeGenGraph::new();
    graph.analyze_actor(&actor).expect("Actor analysis should succeed");

    let component_module_path = "testactor::component";
    let result = generate_component_with_graph(&actor, &graph);
    assert!(result.is_ok());
    let generated_code = result.unwrap();
    assert!(generated_code.contains("//! # testactor Components"));

    let component_module_idx = graph
        .graph
        .find_module_by_path_hierarchical(component_module_path)
        .expect("Component module should exist");
    let imports = graph.get_imports_for_module(component_module_idx);
    assert!(imports.iter().any(|s| s.contains("Components")));
}

#[test]
fn test_generate_message_set() {
    let enum_def = EnumDef::new(
        "TestMessageSet",
        vec![
            EnumVariant::new("Variant1", vec![Link::new("SomeType")]),
            EnumVariant::new("Variant2", vec![Link::new("SomeType2")]),
        ],
    );
    let custom_type = EnumDef::new(
        "SomeType",
        vec![
            EnumVariant::new("Value1", vec![Link::new("String")]),
            EnumVariant::new("Value2", vec![Link::new("i32")]),
        ],
    );
    let message_set = MessageSet::with_custom_types(enum_def, vec![custom_type]);

    let graph = CodeGenGraph::new();
    let result = generate_message_set(&message_set, &create_test_actor(), &graph)
        .expect("Failed to generate message set");

    assert!(result.contains("pub enum TestMessageSet"));
    assert!(result.contains("Variant1(Message<SomeType>)"));
    assert!(result.contains("Variant2(Message<SomeType2>)"));
    assert!(result.contains("impl MessageSet for TestMessageSet"));
    assert!(result.contains("pub enum SomeType"));
    assert!(result.contains("Value1(String)"));
    assert!(result.contains("Value2(i32)"));
}

#[test]
fn test_actor_generator_basic() {
    let actor = create_test_actor();
    let mut generator = ActorGenerator::new(actor).expect("Generator creation should succeed");

    let component_result = generator.generate_component();
    assert!(component_result.is_ok());
    let component_code = component_result.unwrap();
    assert!(component_code.contains("pub struct ActorComponents"));
    assert!(component_code.contains("impl Components for ActorComponents"));

    let messaging_result = generator.generate_messaging();
    assert!(messaging_result.is_ok());
    let messaging_code = messaging_result.unwrap();
    assert!(messaging_code.is_some());
    assert!(messaging_code.unwrap().contains("pub enum ActorMessageSet"));

    let runtime_result = generator.generate_runtime();
    assert!(runtime_result.is_ok());
    let runtime_code = runtime_result.unwrap();
    assert!(runtime_code.contains("impl Runnable<ActorComponents>"));

    let ext_state_code = generator.generate_ext_state();
    assert!(ext_state_code.contains("Extended state for the Actor component"));
}

#[test]
fn test_actor_generator_state_generation() {
    let actor = create_test_actor();
    let generator = ActorGenerator::new(actor).expect("Generator creation should succeed");

    let create_state = &generator.actor().component.states.states[0];
    let state_result = generator.generate_state_impl(create_state);
    assert!(state_result.is_ok());
    let state_code = state_result.unwrap();
    assert!(state_code.contains("pub struct Create"));
    assert!(state_code.contains("impl State<ActorComponents> for Create"));

    let state_enum_result = generator.generate_state_enum();
    assert!(state_enum_result.is_ok());
    let state_enum_code = state_enum_result.unwrap();
    assert!(state_enum_code.contains("pub enum ActorStates"));
    assert!(state_enum_code.contains("impl State<ActorComponents> for ActorStates"));

    let actor_mod = generator.actor_module();
    let state_module_path = format!("{actor_mod}::states");
    let state_module_idx = generator
        .graph()
        .graph
        .find_module_by_path_hierarchical(&state_module_path)
        .unwrap();
    let imports = generator.graph().get_imports_for_module(state_module_idx);
    assert!(imports.iter().any(|imp| imp.contains("ActorComponents")));
}

#[test]
fn test_actor_generator_creation() {
    let actor = create_test_actor();
    let mut generator = ActorGenerator::new(actor).expect("Generator creation should succeed");
    let component_result = generator.generate_component();
    assert!(component_result.is_ok());
}

#[test]
fn generated_runtime_dispatches_each_receiver() {
    let actor = create_test_actor();
    let graph = CodeGenGraph::new();
    let code = generate_runtime(&actor, &graph).unwrap();
    assert!(code.starts_with("use bloxide_tokio::components::{Runnable, *};\nuse bloxide_tokio::runtime::*;\nuse bloxide_tokio::std_exports::*;\n\nuse super::{"));
    assert!(code.contains("self.receivers.standard_rx.recv()"));
    assert!(code.contains("dispatch(ActorMessageSet::CustomValue2(msg), &current_state)"));
    assert!(code.contains("        create::Create,\n        update::Update,\n        ActorStates,"));
}

#[test]
fn generated_ext_state_code() {
    let graph = CodeGenGraph::new();
    let code = generate_ext_state(&create_test_ext_state(), &graph);
    assert!(code.contains("pub struct ActorExtState {\n    pub field1: String,\n\tpub field2: i32\n}"));
    assert!(code.contains("pub fn new(field1: String, field2: i32) -> Self"));
    assert!(code.contains("type InitArgs = ActorInitArgs;"));
    assert!(code.contains("field1: args.field1\n            field2: Default::default()"));
    assert!(code.contains("pub fn hello_world() {\n        println!(\"Hello, world!\")\n    }"));
    assert!(code.contains("pub fn get_custom_value() -> String {"));
}

#[test]
fn generated_component_from_actor() {
    let code = generate_component(&create_test_actor());
    assert!(code.contains("    type MessageSet = ActorMessageSet;\n"));
    assert!(code.contains("    type ExtendedState = ActorExtState;\n"));
    assert!(code.contains("/// Defines the structure of the Actor Blox component"));
}

#[test]
fn graph_state_generators_use_fallbacks_without_analysis() {
    let actor = create_test_actor();
    let graph = CodeGenGraph::new();
    let state = State::new("Create", None, None);
    let with_graph = generate_inner_states_with_graph(&actor, &state, &graph).unwrap();
    assert!(with_graph.starts_with("use bloxide_tokio::components::Components;\nuse bloxide_tokio::state_machine::{StateMachine, State, Transition};\nuse crate::actor::component::ActorComponents;\nuse crate::actor::messaging::ActorMessageSet;\n\n/// State implementation for Create state"));
    let structural = generate_inner_states_with_structural_analysis(&actor, &state, &graph).unwrap();
    assert!(structural.starts_with("/// State implementation for Create state"));
    let enum_code = generate_state_enum_impl_with_graph(&actor, &graph).unwrap();
    assert!(enum_code.contains("use crate::actor::messaging::ActorMessageSet;\nuse create::Create;\nuse update::Update;\n\n/// Enumeration"));
    assert_eq!(enum_code, generate_state_enum_impl_with_structural_analysis(&actor, &graph).unwrap());
}

#[test]
fn graph_state_generators_after_analysis() {
    let actor = create_test_actor();
    let mut graph = CodeGenGraph::new();
    graph.analyze_actor(&actor).unwrap();
    let state = State::new("Update", Some("Create".to_string()), None);
    let code = generate_inner_states_with_graph(&actor, &state, &graph).unwrap();
    assert!(code.contains("use crate::actor::component::ActorComponents;\n"));
    assert!(code.contains("use bloxide_tokio::state_machine::StateMachine;\n"));
    assert!(code.contains("pub struct Update;"));
    let enum_code = generate_state_enum_impl_with_graph(&actor, &graph).unwrap();
    assert!(enum_code.contains("            ActorStates::Update(state) => state.on_exit(state_machine),"));
}

#[test]
fn generator_graph_can_take_more_dependencies() {
    let mut generator = ActorGenerator::new(create_test_actor()).unwrap();
    generator
        .graph_mut()
        .add_dependency_by_path("actor::runtime", "extra::Helper");
    let code = generator.generate_runtime().unwrap();
    assert!(code.contains("use extra::Helper;\n"));
    assert_eq!(generator.component_type(), "ActorComponents");
    assert_eq!(generator.message_set(), "ActorMessageSet");
}
