//! Message handles (senders) and receivers of an actor's component.
use vstd::prelude::*;
use crate::path::{concat_all, concat_parts, join_strings, join_with, push_string, str_eq, strings_view};

verus! {

/// A message handle for sending messages.
#[derive(Debug)]
pub struct MessageHandle {
    /// Name of the handle.
    pub ident: String,
    /// Type of message this handle sends.
    pub message_type: String,
}

impl MessageHandle {
    pub fn new(ident: &str, message_type: &str) -> (r: Self)
        ensures
            r.ident@ == ident@,
            r.message_type@ == message_type@,
    {
        MessageHandle { ident: ident.to_owned(), message_type: message_type.to_owned() }
    }

    /// A handle for the standard system messages.
    pub fn standard(name: &str) -> (r: Self)
        ensures
            r.ident@ == name@,
            r.message_type@ == "StandardMessage"@,
    {
        Self::new(name, "StandardMessage")
    }
}

impl MessageHandle {
    pub open spec fn text(&self) -> Seq<char> {
        concat_all(
            seq!["pub "@, self.ident@, ": TokioMessageHandle<"@, self.message_type@, ">"@],
        )
    }

    /// The handle as a struct field.
    pub fn to_rust(&self) -> (r: String)
        ensures
            r@ == self.text(),
    {
        let p = ["pub ", self.ident.as_str(), ": TokioMessageHandle<", self.message_type.as_str(), ">"];
        proof {
            assert(p@.map_values(|x: &str| x@) =~= seq![p@[0]@, self.ident@, p@[2]@, self.message_type@, p@[4]@]);
        }
        concat_parts(&p)
    }
}

/// A message receiver.
#[derive(Debug)]
pub struct MessageReceiver {
    /// Name of the receiver.
    pub ident: String,
    /// Type of message this receiver accepts.
    pub message_type: String,
}

impl MessageReceiver {
    pub fn new(ident: &str, message_type: &str) -> (r: Self)
        ensures
            r.ident@ == ident@,
            r.message_type@ == message_type@,
    {
        MessageReceiver { ident: ident.to_owned(), message_type: message_type.to_owned() }
    }

    /// A receiver for the standard system messages.
    pub fn standard(ident: &str) -> (r: Self)
        ensures
            r.ident@ == ident@,
            r.message_type@ == "StandardMessage"@,
    {
        Self::new(ident, "StandardMessage")
    }
}

impl MessageReceiver {
    pub open spec fn text(&self) -> Seq<char> {
        concat_all(
            seq![
                "pub "@,
                self.ident@,
                ": <<TokioRuntime as Runtime>::MessageHandle<"@,
                self.message_type@,
                "> as MessageSender>::ReceiverType"@,
            ],
        )
    }

    /// The receiver as a struct field.
    pub fn to_rust(&self) -> (r: String)
        ensures
            r@ == self.text(),
    {
        let p = [
            "pub ",
            self.ident.as_str(),
            ": <<TokioRuntime as Runtime>::MessageHandle<",
            self.message_type.as_str(),
            "> as MessageSender>::ReceiverType",
        ];
        proof {
            assert(p@.map_values(|x: &str| x@) =~= seq![p@[0]@, self.ident@, p@[2]@, self.message_type@, p@[4]@]);
        }
        concat_parts(&p)
    }
}

/// A struct with the given fields, one per line.
pub open spec fn struct_text(ident: Seq<char>, fields: Seq<Seq<char>>) -> Seq<char> {
    concat_all(seq!["pub struct "@, ident, " {\n    "@, join_with(fields, ",\n\t"@), "\n}"@])
}

/// The index of the first item from `k` on whose identifier is `name`.
pub open spec fn first_handle_from(items: Seq<MessageHandle>, name: Seq<char>, k: int) -> Option<int>
    decreases items.len() - k,
{
    if k < 0 || k >= items.len() {
        None
    } else if items[k].ident@ == name {
        Some(k)
    } else {
        first_handle_from(items, name, k + 1)
    }
}

pub open spec fn first_receiver_from(items: Seq<MessageReceiver>, name: Seq<char>, k: int) -> Option<int>
    decreases items.len() - k,
{
    if k < 0 || k >= items.len() {
        None
    } else if items[k].ident@ == name {
        Some(k)
    } else {
        first_receiver_from(items, name, k + 1)
    }
}

/// The message handles of an actor.
#[derive(Debug, Default)]
pub struct MessageHandles {
    /// Name of the struct.
    pub ident: String,
    /// All handles, in order of addition.
    pub handles: Vec<MessageHandle>,
}

impl MessageHandles {
    pub fn new(ident: &str) -> (r: Self)
        ensures
            r.ident@ == ident@,
            r.handles@.len() == 0,
    {
        MessageHandles { ident: ident.to_owned(), handles: Vec::new() }
    }

    pub fn add_handle(&mut self, handle: MessageHandle)
        ensures
            final(self).ident == old(self).ident,
            final(self).handles@ == old(self).handles@.push(handle),
    {
        self.handles.push(handle);
    }

    /// The first handle named `name`.
    pub fn get_handle(&self, name: &str) -> (r: Option<&MessageHandle>)
        ensures
            match first_handle_from(self.handles@, name@, 0) {
                Some(i) => r == Some(&self.handles@[i]),
                None => r is None,
            },
    {
        let mut i: usize = 0;
        while i < self.handles.len()
            invariant
                i <= self.handles@.len(),
                first_handle_from(self.handles@, name@, 0) == first_handle_from(self.handles@, name@, i as int),
            decreases self.handles@.len() - i,
        {
            if str_eq(self.handles[i].ident.as_str(), name) {
                return Some(&self.handles[i]);
            }
            i = i + 1;
        }
        None
    }
}

impl MessageHandles {
    pub open spec fn text(&self) -> Seq<char> {
        struct_text(self.ident@, self.handles@.map_values(|h: MessageHandle| h.text()))
    }

    /// The handles as a struct.
    pub fn to_rust(&self) -> (r: String)
        ensures
            r@ == self.text(),
    {
        let mut fields: Vec<String> = Vec::new();
        let mut i: usize = 0;
        while i < self.handles.len()
            invariant
                i <= self.handles@.len(),
                strings_view(fields@) == self.handles@.map_values(|h: MessageHandle| h.text()).take(i as int),
            decreases self.handles@.len() - i,
        {
            push_string(&mut fields, self.handles[i].to_rust());
            proof {
                assert(self.handles@.map_values(|h: MessageHandle| h.text()).take(i + 1)
                    =~= self.handles@.map_values(|h: MessageHandle| h.text()).take(i as int).push(
                    self.handles@[i as int].text(),
                ));
            }
            i = i + 1;
        }
        proof {
            assert(self.handles@.map_values(|h: MessageHandle| h.text()).take(self.handles@.len() as int)
                =~= self.handles@.map_values(|h: MessageHandle| h.text()));
        }
        let joined = join_strings(&fields, ",\n\t");
        let p = ["pub struct ", self.ident.as_str(), " {\n    ", joined.as_str(), "\n}"];
        proof {
            assert(p@.map_values(|x: &str| x@) =~= seq![p@[0]@, self.ident@, p@[2]@, joined@, p@[4]@]);
        }
        concat_parts(&p)
    }
}

/// The message receivers of an actor.
#[derive(Debug, Default)]
pub struct MessageReceivers {
    /// Name of the receivers struct.
    pub ident: String,
    /// All receivers, in order of addition.
    pub receivers: Vec<MessageReceiver>,
}

impl MessageReceivers {
    pub fn new(ident: &str) -> (r: Self)
        ensures
            r.ident@ == ident@,
            r.receivers@.len() == 0,
    {
        MessageReceivers { ident: ident.to_owned(), receivers: Vec::new() }
    }

    pub fn add_receiver(&mut self, receiver: MessageReceiver)
        ensures
            final(self).ident == old(self).ident,
            final(self).receivers@ == old(self).receivers@.push(receiver),
    {
        self.receivers.push(receiver);
    }

    /// The first receiver named `name`.
    pub fn get_receiver(&self, name: &str) -> (r: Option<&MessageReceiver>)
        ensures
            match first_receiver_from(self.receivers@, name@, 0) {
                Some(i) => r == Some(&self.receivers@[i]),
                None => r is None,
            },
    {
        let mut i: usize = 0;
        while i < self.receivers.len()
            invariant
                i <= self.receivers@.len(),
                first_receiver_from(self.receivers@, name@, 0) == first_receiver_from(self.receivers@, name@, i as int),
            decreases self.receivers@.len() - i,
        {
            if str_eq(self.receivers[i].ident.as_str(), name) {
                return Some(&self.receivers[i]);
            }
            i = i + 1;
        }
        None
    }
}

impl MessageReceivers {
    pub open spec fn text(&self) -> Seq<char> {
        struct_text(self.ident@, self.receivers@.map_values(|h: MessageReceiver| h.text()))
    }

    /// The receivers as a struct.
    pub fn to_rust(&self) -> (r: String)
        ensures
            r@ == self.text(),
    {
        let mut fields: Vec<String> = Vec::new();
        let mut i: usize = 0;
        while i < self.receivers.len()
            invariant
                i <= self.receivers@.len(),
                strings_view(fields@) == self.receivers@.map_values(|h: MessageReceiver| h.text()).take(i as int),
            decreases self.receivers@.len() - i,
        {
            push_string(&mut fields, self.receivers[i].to_rust());
            proof {
                assert(self.receivers@.map_values(|h: MessageReceiver| h.text()).take(i + 1)
                    =~= self.receivers@.map_values(|h: MessageReceiver| h.text()).take(i as int).push(
                    self.receivers@[i as int].text(),
                ));
            }
            i = i + 1;
        }
        proof {
            assert(self.receivers@.map_values(|h: MessageReceiver| h.text()).take(self.receivers@.len() as int)
                =~= self.receivers@.map_values(|h: MessageReceiver| h.text()));
        }
        let joined = join_strings(&fields, ",\n\t");
        let p = ["pub struct ", self.ident.as_str(), " {\n    ", joined.as_str(), "\n}"];
        proof {
            assert(p@.map_values(|x: &str| x@) =~= seq![p@[0]@, self.ident@, p@[2]@, joined@, p@[4]@]);
        }
        concat_parts(&p)
    }
}

} // verus!
