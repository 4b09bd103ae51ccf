use bloxml::actor::Actor;
use bloxml::enums::{EnumDef, EnumVariant};
use bloxml::ext_state::{ExtState, InitArgs};
use bloxml::message_handlers::{MessageHandle, MessageHandles, MessageReceiver, MessageReceivers};
use bloxml::message_set::MessageSet;
use bloxml::state::{State, StateEnum, States};
use bloxml::{Field, Link, Method};

#[test]
fn actor_new_builds_handles_from_message_set() {
    let ms = MessageSet::new(EnumDef::new(
        "ActorMessageSet",
        vec![
            EnumVariant::new("CustomValue1", vec![Link::new("bloxide_core::messaging::Standard")]),
            EnumVariant::new("CustomValue2", vec![Link::new("CustomArgs")]),
        ],
    ));
    let states = States::new(vec![State::new("Create", None, None)], StateEnum::new(EnumDef::new("ActorStates", vec![])));
    let actor = Actor::new("Actor", "tests/output", states, Some(ms));
    let handles = &actor.component.message_handles.handles;
    assert_eq!(handles.len(), 2);
    assert_eq!(handles[0].ident, "standard_handle");
    assert_eq!(handles[0].message_type, "Standard");
    assert_eq!(handles[1].ident, "customargs_handle");
    let receivers = &actor.component.message_receivers.receivers;
    assert_eq!(receivers[1].ident, "customargs_rx");
    assert_eq!(actor.component.ident, "ActorComponents");
    assert_eq!(actor.message_set_ident(), "ActorMessageSet");
    assert_eq!(actor.create_mod_path(), "tests/output/actor");
    assert_eq!(actor.create_states_path(), "tests/output/actor/states");
}

#[test]
fn actor_without_message_set() {
    let states = States::new(vec![], StateEnum::new(EnumDef::new("S", vec![])));
    let actor = Actor::new("Ping", "", states, None);
    assert_eq!(actor.message_set_ident(), "Ping_MessageSet");
    assert_eq!(actor.create_mod_path(), "ping");
    assert!(actor.component.message_handles.handles.is_empty());
}

#[test]
fn handles_and_receivers_lookup() {
    let mut handles = MessageHandles::new("ActorHandles");
    handles.add_handle(MessageHandle::new("standard_handle", "Standard"));
    handles.add_handle(MessageHandle::standard("std"));
    assert_eq!(handles.get_handle("std").unwrap().message_type, "StandardMessage");
    assert!(handles.get_handle("missing").is_none());
    let mut receivers = MessageReceivers::new("ActorReceivers");
    receivers.add_receiver(MessageReceiver::new("standard_rx", "Standard"));
    receivers.add_receiver(MessageReceiver::standard("rx"));
    assert_eq!(receivers.get_receiver("standard_rx").unwrap().message_type, "Standard");
    assert!(receivers.get_receiver("nope").is_none());
}

#[test]
fn states_validation() {
    let ok = States::new(
        vec![State::new("Create", None, None), State::new("Update", Some("Create".to_string()), None)],
        StateEnum::new(EnumDef::new(
            "ActorStates",
            vec![EnumVariant::new("Create", vec![Link::new("Create")]), EnumVariant::new("Ext", vec![Link::new("a::B")])],
        )),
    );
    assert_eq!(ok.validate(), Ok(()));
    assert!(ok.get_state("Update").is_some());
    assert!(ok.get_state("Gone").is_none());

    let orphan = States::new(
        vec![State::new("Update", Some("Missing".to_string()), None)],
        StateEnum::new(EnumDef::new("S", vec![])),
    );
    assert_eq!(orphan.validate(), Err("State 'Update' has unknown parent 'Missing'".to_string()));

    let bad_arg = States::new(
        vec![State::new("Create", None, None)],
        StateEnum::new(EnumDef::new("S", vec![EnumVariant::new("V", vec![Link::new("Nope")])])),
    );
    assert_eq!(bad_arg.validate(), Err("Variant 'V' references unknown state 'Nope'".to_string()));
}

#[test]
fn ext_state_accessors() {
    let mut ext = ExtState::new(
        "ActorExtState",
        vec![Field::new("field1", "String"), Field::new("field2", "i32")],
        vec![Method::new("get_custom_value", &[], "String", "self.custom_value")],
        InitArgs::new("ActorInitArgs", vec![Field::new("field1", "String")]),
    );
    assert_eq!(ext.ident(), "ActorExtState");
    assert_eq!(ext.fields().len(), 2);
    assert_eq!(ext.fields()[1].ty().as_str(), "i32");
    ext.add_field(Field::new("field3", "u64"));
    assert_eq!(ext.fields()[2].ident(), "field3");
    let m = &ext.methods()[0];
    assert_eq!(m.ident(), "get_custom_value");
    assert_eq!(m.ret().as_str(), "String");
    assert_eq!(m.body(), "self.custom_value");
    assert!(m.args().is_empty());
    assert_eq!(ext.init_args().ident, "ActorInitArgs");
}

#[test]
fn simple_constructors() {
    let v = bloxml::enum_variant::EnumVariant::new("Plain");
    assert!(v.args.is_empty());
    let l = bloxml::enum_variant::Link::new("x::Y");
    assert_eq!(l.as_str(), "x::Y");
    let me = bloxml::msg_enum::MsgEnum::new("M", vec![v]);
    assert_eq!(me.ident, "M");
    let ms = MessageSet::with_custom_types(EnumDef::new("D", vec![]), vec![EnumDef::new("C", vec![])]);
    assert_eq!(ms.get().ident, "D");
    assert_eq!(ms.custom_types.len(), 1);
    let imp = bloxml::graph::Import::new("a::b::C");
    assert_eq!(imp.rust_import(), "use a::b::C;");
}
