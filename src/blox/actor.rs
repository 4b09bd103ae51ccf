//! The actor: the unit that code is generated for.
use vstd::prelude::*;
use crate::blox::component::Component;
use crate::blox::enums::EnumVariant;
use crate::blox::ext_state::ExtState;
use crate::blox::message_handlers::{
    MessageHandle, MessageHandles, MessageReceiver, MessageReceivers,
};
use crate::blox::message_set::MessageSet;
use crate::blox::state::States;
use crate::path::{last_segment, lower_of, split_path, to_lower, lemma_split_nonempty};

verus! {

/// `base` and `seg` joined as a relative path component is appended to a directory path.
pub open spec fn join_dir(base: Seq<char>, seg: Seq<char>) -> Seq<char> {
    if base.len() == 0 {
        seg
    } else if base.last() == '/' {
        base + seg
    } else {
        base + "/"@ + seg
    }
}

/// The message type that a variant is handled by: the last segment of its first argument.
pub open spec fn variant_message_type(v: EnumVariant) -> Seq<char> {
    last_segment(v.args@[0].0@)
}

/// Every variant of the message set has an argument.
pub open spec fn variants_have_args(message_set: Option<MessageSet>) -> bool {
    message_set matches Some(ms) ==> forall|i: int|
        0 <= i < ms.def.variants@.len() ==> (#[trigger] ms.def.variants@[i]).args@.len() >= 1
}

/// One handle and one receiver per message-set variant, named after its message type.
pub open spec fn handles_for(
    message_set: Option<MessageSet>,
    handles: Seq<MessageHandle>,
    receivers: Seq<MessageReceiver>,
) -> bool {
    match message_set {
        None => handles.len() == 0 && receivers.len() == 0,
        Some(ms) => {
            &&& handles.len() == ms.def.variants@.len()
            &&& receivers.len() == ms.def.variants@.len()
            &&& forall|i: int|
                0 <= i < handles.len() ==> {
                    let t = variant_message_type(ms.def.variants@[i]);
                    &&& (#[trigger] handles[i]).message_type@ == t
                    &&& handles[i].ident@ == lower_of(t) + "_handle"@
                    &&& receivers[i].message_type@ == t
                    &&& receivers[i].ident@ == lower_of(t) + "_rx"@
                }
        },
    }
}

#[derive(Debug)]
pub struct Actor {
    pub ident: String,
    pub path: String,
    pub component: Component,
}

impl Actor {
    /// An actor whose component is named `<ident>Components`, with a handle and a
    /// receiver for each variant of the message set and an empty extended state.
    pub fn new(ident: &str, path: &str, states: States, message_set: Option<MessageSet>) -> (r: Self)
        requires
            variants_have_args(message_set),
        ensures
            r.ident@ == ident@,
            r.path@ == path@,
            r.component.ident@ == ident@ + "Components"@,
            r.component.states == states,
            r.component.message_set == message_set,
            r.component.message_handles.ident@ == ident@ + "Handles"@,
            r.component.message_receivers.ident@ == ident@ + "Receivers"@,
            handles_for(
                message_set,
                r.component.message_handles.handles@,
                r.component.message_receivers.receivers@,
            ),
            r.component.ext_state.spec_ident().len() == 0,
            r.component.ext_state.spec_fields().len() == 0,
            r.component.ext_state.spec_methods().len() == 0,
    {
        let (handles, receivers) = Self::create_handles(ident, &message_set);
        let mut component_ident = String::from_str(ident);
        component_ident.append("Components");
        let component = Component::new(
            component_ident.as_str(),
            handles,
            receivers,
            states,
            message_set,
            ExtState::default(),
        );
        Actor { ident: ident.to_owned(), path: path.to_owned(), component }
    }

    /// The directory of the actor's module: the actor's path joined with its lowercase name.
    pub fn create_mod_path(&self) -> (r: String)
        ensures
            r@ == join_dir(self.path@, lower_of(self.ident@)),
    {
        let lower = to_lower(self.ident.as_str());
        Self::join(self.path.as_str(), lower.as_str())
    }

    /// The directory of the actor's states.
    pub fn create_states_path(&self) -> (r: String)
        ensures
            r@ == join_dir(join_dir(self.path@, lower_of(self.ident@)), "states"@),
    {
        let base = self.create_mod_path();
        Self::join(base.as_str(), "states")
    }

    fn join(base: &str, seg: &str) -> (r: String)
        ensures
            r@ == join_dir(base@, seg@),
    {
        let n = base.unicode_len();
        if n == 0 {
            return seg.to_owned();
        }
        let mut r = base.to_owned();
        if base.get_char(n - 1) != '/' {
            r.append("/");
        }
        r.append(seg);
        r
    }

    fn create_handles(ident: &str, message_set: &Option<MessageSet>) -> (r: (MessageHandles, MessageReceivers))
        requires
            variants_have_args(*message_set),
        ensures
            r.0.ident@ == ident@ + "Handles"@,
            r.1.ident@ == ident@ + "Receivers"@,
            handles_for(*message_set, r.0.handles@, r.1.receivers@),
    {
        let mut handles_ident = String::from_str(ident);
        handles_ident.append("Handles");
        let mut receivers_ident = String::from_str(ident);
        receivers_ident.append("Receivers");
        let mut handles = MessageHandles::new(handles_ident.as_str());
        let mut receivers = MessageReceivers::new(receivers_ident.as_str());
        match message_set {
            None => (handles, receivers),
            Some(ms) => {
                let variants = &ms.def.variants;
                let mut i: usize = 0;
                while i < variants.len()
                    invariant
                        i <= variants@.len(),
                        variants == &ms.def.variants,
                        variants_have_args(*message_set),
                        *message_set == Some(*ms),
                        handles.ident@ == ident@ + "Handles"@,
                        receivers.ident@ == ident@ + "Receivers"@,
                        handles.handles@.len() == i,
                        receivers.receivers@.len() == i,
                        forall|j: int|
                            0 <= j < i ==> {
                                let t = variant_message_type(variants@[j]);
                                &&& (#[trigger] handles.handles@[j]).message_type@ == t
                                &&& handles.handles@[j].ident@ == lower_of(t) + "_handle"@
                                &&& receivers.receivers@[j].message_type@ == t
                                &&& receivers.receivers@[j].ident@ == lower_of(t) + "_rx"@
                            },
                    decreases variants@.len() - i,
                {
                    let variant = &variants[i];
                    proof {
                        let m = (*message_set).unwrap();
                        assert(m == *ms);
                        assert((#[trigger] m.def.variants@[i as int]).args@.len() >= 1);
                    }
                    let segs = split_path(variant.args[0].as_str());
                    proof {
                        lemma_split_nonempty(variant.args@[0].0@);
                    }
                    let message_type = segs[segs.len() - 1].clone();
                    let lower = to_lower(message_type.as_str());
                    let mut handle_name = lower.clone();
                    handle_name.append("_handle");
                    let mut receiver_name = lower;
                    receiver_name.append("_rx");
                    handles.add_handle(MessageHandle::new(handle_name.as_str(), message_type.as_str()));
                    receivers.add_receiver(
                        MessageReceiver::new(receiver_name.as_str(), message_type.as_str()),
                    );
                    i = i + 1;
                }
                (handles, receivers)
            },
        }
    }

    /// The name of the message set: its enum's name, or `<ident>_MessageSet` without one.
    pub fn message_set_ident(&self) -> (r: String)
        ensures
            self.component.message_set matches Some(ms) ==> r@ == ms.def.ident@,
            self.component.message_set is None ==> r@ == self.ident@ + "_MessageSet"@,
    {
        match &self.component.message_set {
            Some(ms) => ms.def.ident.clone(),
            None => {
                let mut r = self.ident.clone();
                r.append("_MessageSet");
                r
            },
        }
    }
}

} // verus!
