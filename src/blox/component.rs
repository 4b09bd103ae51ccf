//! The component of an actor: what the generated state machine is made of.
use vstd::prelude::*;
use crate::blox::ext_state::ExtState;
use crate::blox::message_handlers::{MessageHandles, MessageReceivers};
use crate::blox::message_set::MessageSet;
use crate::blox::state::States;
use crate::path::{concat_all, concat_parts, str_before, text_before};

verus! {

#[derive(Debug)]
pub struct Component {
    pub ident: String,
    pub states: States,
    pub message_set: Option<MessageSet>,
    pub message_handles: MessageHandles,
    pub message_receivers: MessageReceivers,
    pub ext_state: ExtState,
}

impl Component {
    pub fn new(
        ident: &str,
        message_handles: MessageHandles,
        message_receivers: MessageReceivers,
        states: States,
        message_set: Option<MessageSet>,
        ext_state: ExtState,
    ) -> (r: Self)
        ensures
            r.ident@ == ident@,
            r.message_handles == message_handles,
            r.message_receivers == message_receivers,
            r.states == states,
            r.message_set == message_set,
            r.ext_state == ext_state,
    {
        Component {
            ident: ident.to_owned(),
            message_handles,
            message_receivers,
            states,
            message_set,
            ext_state,
        }
    }
}

/// The actor's name as a component names it: what comes before `Components`.
pub open spec fn actor_name_of(c: Component) -> Seq<char> {
    text_before(c.ident@, "Components"@)
}

/// The message set type a component uses: its enum, or `<actor>MessageSet`.
pub open spec fn component_message_set(c: Component) -> Seq<char> {
    match c.message_set {
        Some(ms) => ms.def.ident@,
        None => actor_name_of(c) + "MessageSet"@,
    }
}

pub open spec fn component_text(c: Component) -> Seq<char> {
    let a = actor_name_of(c);
    concat_all(
        seq![
            "\n/// Defines the structure of the "@,
            a,
            " Blox component\npub struct "@,
            c.ident@,
            ";\n\nimpl Components for "@,
            c.ident@,
            " {\n    type States = "@,
            c.states.state_enum.0.ident@,
            ";\n    type MessageSet = "@,
            component_message_set(c),
            ";\n    type ExtendedState = "@,
            c.ext_state.spec_ident(),
            ";\n    type Receivers = "@,
            c.message_receivers.ident@,
            ";\n    type Handles = "@,
            c.message_handles.ident@,
            ";\n}\n\n/// Receiver channels for the "@,
            a,
            " component\n"@,
            c.message_receivers.text(),
            "\n\n/// Message handles for sending messages from the "@,
            a,
            " component\n"@,
            c.message_handles.text(),
            "\n"@,
        ],
    )
}

impl Component {
    /// The component struct, its `Components` implementation, its receivers and handles.
    pub fn to_rust(&self) -> (r: String)
        ensures
            r@ == component_text(*self),
    {
        proof {
            reveal_strlit("Components");
        }
        let a = str_before(self.ident.as_str(), "Components");
        let message_set = match &self.message_set {
            Some(ms) => ms.def.ident.clone(),
            None => {
                let mut m = a.clone();
                m.append("MessageSet");
                m
            },
        };
        let receivers = self.message_receivers.to_rust();
        let handles = self.message_handles.to_rust();
        let c = self.ident.as_str();
        let p = [
            "\n/// Defines the structure of the ",
            a.as_str(),
            " Blox component\npub struct ",
            c,
            ";\n\nimpl Components for ",
            c,
            " {\n    type States = ",
            self.states.state_enum.0.ident.as_str(),
            ";\n    type MessageSet = ",
            message_set.as_str(),
            ";\n    type ExtendedState = ",
            self.ext_state.ident(),
            ";\n    type Receivers = ",
            self.message_receivers.ident.as_str(),
            ";\n    type Handles = ",
            self.message_handles.ident.as_str(),
            ";\n}\n\n/// Receiver channels for the ",
            a.as_str(),
            " component\n",
            receivers.as_str(),
            "\n\n/// Message handles for sending messages from the ",
            a.as_str(),
            " component\n",
            handles.as_str(),
            "\n",
        ];
        proof {
            assert(p@.map_values(|x: &str| x@) =~= seq![
                p@[0]@, a@, p@[2]@, c@, p@[4]@, c@, p@[6]@, self.states.state_enum.0.ident@, p@[8]@,
                message_set@, p@[10]@, self.ext_state.spec_ident(), p@[12]@,
                self.message_receivers.ident@, p@[14]@, self.message_handles.ident@, p@[16]@, a@,
                p@[18]@, receivers@, p@[20]@, a@, p@[22]@, handles@, p@[24]@,
            ]);
        }
        concat_parts(&p)
    }
}

} // verus!
