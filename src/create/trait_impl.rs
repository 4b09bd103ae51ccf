//! A stand-alone state implementation whose parent is named in the state.
use vstd::prelude::*;
use crate::blox::state::State;
use crate::path::{concat_all, concat_parts};

verus! {

/// The parent of a state as written in code: its name, or `Init` for a top state.
pub open spec fn parent_or_init(state: State) -> Seq<char> {
    match state.parent {
        Some(p) => p@,
        None => "Init"@,
    }
}

pub open spec fn state_impl_text(name: Seq<char>, parent: Seq<char>) -> Seq<char> {
    concat_all(
        seq![
            "\nuse bloxide_core::{components::Components, message::MessageSet, state_machine::{StateMachine, State, Transition}};\nuse log::trace;\n\n#[derive(Debug, Clone, PartialEq, Eq)]\npub struct "@,
            name,
            ";\n\nimpl State<Components> for "@,
            name,
            " {\n    fn on_entry(&self, _state_machine: &mut StateMachine<Components>) {\n        trace!(\"State on_entry: "@,
            name,
            "\");\n    }\n\n    fn on_exit(&self, _state_machine: &mut StateMachine<Components>) {\n        trace!(\"State on_exit: "@,
            name,
            "\");\n    }\n\n    fn parent(&self) -> Components::States {\n        "@,
            parent,
            "::default()\n    }\n\n    fn handle_message(\n        &self,\n        state_machine: &mut StateMachine<Components>,\n        message: Components::MessageSet,\n    ) -> Option<Transition<Components::States, Components::MessageSet>> {\n        None\n    }\n}\n"@,
        ],
    )
}

/// The code of one state: its struct and its `State` implementation.
pub fn generate_state_impls(state: &State) -> (r: Result<String, String>)
    ensures
        r matches Ok(text) && text@ == state_impl_text(state.ident@, parent_or_init(*state)),
{
    let parent: &str = match &state.parent {
        Some(p) => p.as_str(),
        None => "Init",
    };
    let name = state.ident.as_str();
    let parts = [
        "\nuse bloxide_core::{components::Components, message::MessageSet, state_machine::{StateMachine, State, Transition}};\nuse log::trace;\n\n#[derive(Debug, Clone, PartialEq, Eq)]\npub struct ",
        name,
        ";\n\nimpl State<Components> for ",
        name,
        " {\n    fn on_entry(&self, _state_machine: &mut StateMachine<Components>) {\n        trace!(\"State on_entry: ",
        name,
        "\");\n    }\n\n    fn on_exit(&self, _state_machine: &mut StateMachine<Components>) {\n        trace!(\"State on_exit: ",
        name,
        "\");\n    }\n\n    fn parent(&self) -> Components::States {\n        ",
        parent,
        "::default()\n    }\n\n    fn handle_message(\n        &self,\n        state_machine: &mut StateMachine<Components>,\n        message: Components::MessageSet,\n    ) -> Option<Transition<Components::States, Components::MessageSet>> {\n        None\n    }\n}\n",
    ];
    let text = concat_parts(&parts);
    proof {
        assert(parts@.map_values(|p: &str| p@) =~= seq![
            parts@[0]@, name@, parts@[2]@, name@, parts@[4]@, name@, parts@[6]@, name@, parts@[8]@,
            parent@, parts@[10]@,
        ]);
    }
    Ok(text)
}

} // verus!
