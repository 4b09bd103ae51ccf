use bloxml::actor::Actor;
use bloxml::component::Component;
use bloxml::create::{generate_inner_states, generate_state_enum_impl, generate_state_impls};
use bloxml::enums::{EnumDef, EnumVariant};
use bloxml::ext_state::{ExtState, InitArgs};
use bloxml::message_handlers::{MessageHandle, MessageHandles, MessageReceiver, MessageReceivers};
use bloxml::message_set::MessageSet;
use bloxml::state::{State, StateEnum, States};
use bloxml::{Field, Link, Method};

const TEST_OUTPUT_DIR: &str = "tests/output";

fn create_test_message_set() -> MessageSet {
    MessageSet::new(EnumDef::new(
        "ActorMessageSet",
        vec![
            EnumVariant::new("CustomValue1", vec![Link::new("bloxide_core::messaging::Standard")]),
            EnumVariant::new("CustomValue2", vec![Link::new("CustomArgs")]),
        ],
    ))
}

fn create_test_states() -> States {
    States::new(
        vec![
            State::new("Create", None, None),
            State::new("Update", Some("Create".to_string()), None),
        ],
        StateEnum::new(EnumDef::new("ActorStates", vec![])),
    )
}

fn create_test_ext_state() -> ExtState {
    ExtState::new(
        "ActorExtState",
        vec![Field::new("field1", "String"), Field::new("field2", "i32")],
        vec![
            Method::new("get_custom_value", &[], "String", "self.custom_value"),
            Method::new("get_custom_value2", &[], "i32", "self.custom_value2"),
            Method::new("hello_world", &[], "", r#"println!("Hello, world!")"#),
        ],
        InitArgs::new("ActorInitArgs", vec![Field::new("field1", "String")]),
    )
}

fn create_test_handles() -> MessageHandles {
    let mut handles = MessageHandles::new("ActorHandles");
    handles.add_handle(MessageHandle::new("standard_handle", "Standard"));
    handles.add_handle(MessageHandle::new("customargs_handle", "CustomArgs"));
    handles
}

fn create_test_receivers() -> MessageReceivers {
    let mut receivers = MessageReceivers::new("ActorReceivers");
    receivers.add_receiver(MessageReceiver::new("standard_rx", "Standard"));
    receivers.add_receiver(MessageReceiver::new("customargs_rx", "CustomArgs"));
    receivers
}

fn create_test_component() -> Component {
    Component::new(
        "ActorComponents",
        create_test_handles(),
        create_test_receivers(),
        create_test_states(),
        Some(create_test_message_set()),
        create_test_ext_state(),
    )
}

fn create_test_actor() -> Actor {
    let mut actor = Actor::new(
        "Actor",
        TEST_OUTPUT_DIR,
        create_test_states(),
        Some(create_test_message_set()),
    );
    actor.component = create_test_component();
    actor
}

#[test]
fn state_gen_test_generate_state_impls() {
    let mut actor = create_test_actor();
    let state = State::new("Create", None, None);

    let states = States::new(
        vec![State::new("Create", None, None)],
        StateEnum::new(EnumDef::new("ActorStates", vec![])),
    );
    actor.component.states = states;
    let impl_content =
        generate_inner_states(&actor, &state).expect("Failed to generate state impls");
    let ident = state.ident;
    println!("State impl for {ident}: {impl_content}");

    assert!(impl_content.contains(&format!("pub struct {ident}")));
    assert!(impl_content.contains(&format!("impl State<ActorComponents> for {ident}")));
}

#[test]
fn test_generate_state_enum_impl() {
    let mut actor = create_test_actor();
    let component_ident = actor.component.ident.clone();
    let state_enum = StateEnum::new(EnumDef::new("ActorStates", vec![]));

    let states = States::new(
        vec![
            State::new("Create", None, None),
            State::new("Update", Some("Create".to_string()), None),
            State::new("Delete", Some("Update".to_string()), None),
        ],
        state_enum,
    );

    actor.component.states = states;

    let impl_content =
        generate_state_enum_impl(&actor).expect("Failed to generate state enum impl");
    println!("State enum impl: {impl_content}");

    assert!(impl_content.contains("pub enum ActorStates"));
    assert!(impl_content.contains(&format!("impl State<{component_ident}> for ActorStates")));

    for state in &actor.component.states.states {
        assert!(impl_content.contains(&format!("    {}({})", state.ident, state.ident)));
    }

    assert!(impl_content.contains("match self {"));
    assert!(impl_content.contains("ActorStates::Create(state) =>"));
}

#[test]
fn trait_impl_test_generate_state_impls() {
    let states = vec![
        State::new("Create", None, None),
        State::new("Update", Some("Create".to_string()), None),
    ];

    for state in states {
        let impl_content = generate_state_impls(&state).expect("Failed to generate state impls");
        println!("Impl content: {impl_content}");
        assert!(impl_content.contains(&format!("pub struct {}", state.ident)));
        assert!(impl_content.contains(&format!("impl State<Components> for {}", state.ident)));
    }
}

#[test]
fn inner_state_exact_text() {
    let actor = Actor::new(
        "Door",
        "out",
        States::new(vec![], StateEnum::new(EnumDef::new("DoorStates", vec![]))),
        None,
    );
    let state = State::new("Open", None, None);
    let text = generate_inner_states(&actor, &state).unwrap();
    assert!(text.starts_with("use bloxide_tokio::{components::Components, state_machine::{StateMachine, State, Transition}};\nuse crate::door::{component::DoorComponents, messaging::<DoorComponents as Components>::MessageSet}};\n"));
    assert!(text.ends_with(">> {\n        None\n    }\n}\n"));
}

#[test]
fn state_enum_imports_and_parent_default() {
    let mut actor = create_test_actor();
    actor.component.states = create_test_states();
    let text = generate_state_enum_impl(&actor).unwrap();
    assert!(text.contains("use create::Create;\nuse update::Update;\nuse crate::actor::{component::ActorComponents, messaging::ActorMessageSet};"));
    assert!(text.contains("            ActorStates::Update(state) => state.parent(),\n"));
    let orphan = State::new("Top", None, None);
    assert!(generate_state_impls(&orphan).unwrap().contains("        Init::default()\n"));
}
