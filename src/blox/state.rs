//! The state hierarchy of an actor.
use vstd::prelude::*;
use crate::blox::enums::{EnumDef, EnumVariant};
use crate::link::Link;
use crate::path::{concat_all, concat_parts, contains, join_strings, join_with, push_string, str_contains, str_eq, strings_view};

verus! {

/// The enum that gathers the states.
#[derive(Debug)]
pub struct StateEnum(pub EnumDef);

impl StateEnum {
    pub fn new(enum_def: EnumDef) -> (r: Self)
        ensures
            r.0 == enum_def,
    {
        StateEnum(enum_def)
    }

    pub fn get(&self) -> (r: &EnumDef)
        ensures
            *r == self.0,
    {
        &self.0
    }
}

/// A named state with an optional parent and optional variant arguments.
#[derive(Debug)]
pub struct State {
    pub ident: String,
    pub parent: Option<String>,
    pub variants: Option<Vec<EnumVariant>>,
}

impl State {
    pub fn new(ident: &str, parent: Option<String>, variants: Option<Vec<EnumVariant>>) -> (r: Self)
        ensures
            r.ident@ == ident@,
            r.parent == parent,
            r.variants == variants,
    {
        State { ident: ident.to_owned(), parent, variants }
    }
}

/// Some state is named `name`.
pub open spec fn has_state(states: Seq<State>, name: Seq<char>) -> bool {
    exists|i: int| 0 <= i < states.len() && #[trigger] states[i].ident@ == name
}

/// The state has a parent that is not among the states.
pub open spec fn has_unknown_parent(states: Seq<State>, s: State) -> bool {
    s.parent matches Some(p) && !has_state(states, p@)
}

/// A variant argument that is neither a qualified path nor a state.
pub open spec fn is_unknown_state_arg(states: Seq<State>, arg: Seq<char>) -> bool {
    !contains(arg, "::"@) && !has_state(states, arg)
}

pub open spec fn first_orphan_from(states: Seq<State>, k: int) -> Option<int>
    decreases states.len() - k,
{
    if k < 0 || k >= states.len() {
        None
    } else if has_unknown_parent(states, states[k]) {
        Some(k)
    } else {
        first_orphan_from(states, k + 1)
    }
}

pub open spec fn first_unknown_arg_from(states: Seq<State>, args: Seq<Link>, k: int) -> Option<int>
    decreases args.len() - k,
{
    if k < 0 || k >= args.len() {
        None
    } else if is_unknown_state_arg(states, args[k].0@) {
        Some(k)
    } else {
        first_unknown_arg_from(states, args, k + 1)
    }
}

/// The first variant, from `k` on, with an unknown argument, and that argument.
pub open spec fn first_bad_variant_from(states: Seq<State>, variants: Seq<EnumVariant>, k: int) -> Option<(int, int)>
    decreases variants.len() - k,
{
    if k < 0 || k >= variants.len() {
        None
    } else {
        match first_unknown_arg_from(states, variants[k].args@, 0) {
            Some(a) => Some((k, a)),
            None => first_bad_variant_from(states, variants, k + 1),
        }
    }
}

pub open spec fn unknown_parent_message(state: Seq<char>, parent: Seq<char>) -> Seq<char> {
    "State '"@ + state + "' has unknown parent '"@ + parent + "'"@
}

pub open spec fn unknown_state_message(variant: Seq<char>, arg: Seq<char>) -> Seq<char> {
    "Variant '"@ + variant + "' references unknown state '"@ + arg + "'"@
}

/// The states of an actor with their enum.
#[derive(Debug)]
pub struct States {
    pub state_enum: StateEnum,
    pub states: Vec<State>,
}

impl States {
    pub fn new(states: Vec<State>, state_enum: StateEnum) -> (r: Self)
        ensures
            r.states == states,
            r.state_enum == state_enum,
    {
        States { state_enum, states }
    }

    /// The first state named `name`.
    pub fn get_state(&self, name: &str) -> (r: Option<&State>)
        ensures
            r matches Some(s) ==> s.ident@ == name@ && exists|i: int|
                0 <= i < self.states@.len() && self.states@[i] == *s && forall|j: int|
                    0 <= j < i ==> #[trigger] self.states@[j].ident@ != name@,
            r is None ==> !has_state(self.states@, name@),
    {
        let mut i: usize = 0;
        while i < self.states.len()
            invariant
                i <= self.states@.len(),
                forall|j: int| 0 <= j < i ==> #[trigger] self.states@[j].ident@ != name@,
            decreases self.states@.len() - i,
        {
            if str_eq(self.states[i].ident.as_str(), name) {
                return Some(&self.states[i]);
            }
            i = i + 1;
        }
        None
    }

    fn knows(&self, name: &str) -> (r: bool)
        ensures
            r == has_state(self.states@, name@),
    {
        let mut i: usize = 0;
        while i < self.states.len()
            invariant
                i <= self.states@.len(),
                forall|j: int| 0 <= j < i ==> #[trigger] self.states@[j].ident@ != name@,
            decreases self.states@.len() - i,
        {
            if str_eq(self.states[i].ident.as_str(), name) {
                return true;
            }
            i = i + 1;
        }
        false
    }

    /// Checks that every parent is a known state and that every argument of the state
    /// enum's variants is a qualified path or a known state; the first failure is reported.
    pub fn validate(&self) -> (r: Result<(), String>)
        ensures
            match first_orphan_from(self.states@, 0) {
                Some(i) => r matches Err(msg) && msg@ == unknown_parent_message(
                    self.states@[i].ident@,
                    self.states@[i].parent.unwrap()@,
                ),
                None => match first_bad_variant_from(self.states@, self.state_enum.0.variants@, 0) {
                    Some((v, a)) => r matches Err(msg) && msg@ == unknown_state_message(
                        self.state_enum.0.variants@[v].ident@,
                        self.state_enum.0.variants@[v].args@[a].0@,
                    ),
                    None => r is Ok,
                },
            },
    {
        let mut i: usize = 0;
        while i < self.states.len()
            invariant
                i <= self.states@.len(),
                first_orphan_from(self.states@, 0) == first_orphan_from(self.states@, i as int),
            decreases self.states@.len() - i,
        {
            let state = &self.states[i];
            match &state.parent {
                Some(parent) => {
                    if !self.knows(parent.as_str()) {
                        let mut msg = String::from_str("State '");
                        msg.append(state.ident.as_str());
                        msg.append("' has unknown parent '");
                        msg.append(parent.as_str());
                        msg.append("'");
                        return Err(msg);
                    }
                },
                None => {},
            }
            i = i + 1;
        }
        let variants = &self.state_enum.0.variants;
        let mut v: usize = 0;
        while v < variants.len()
            invariant
                v <= variants@.len(),
                variants == &self.state_enum.0.variants,
                first_orphan_from(self.states@, 0) is None,
                first_bad_variant_from(self.states@, variants@, 0) == first_bad_variant_from(
                    self.states@,
                    variants@,
                    v as int,
                ),
            decreases variants@.len() - v,
        {
            let args = &variants[v].args;
            let mut a: usize = 0;
            while a < args.len()
                invariant
                    a <= args@.len(),
                    args == &variants@[v as int].args,
                    v < variants@.len(),
                    variants == &self.state_enum.0.variants,
                    first_orphan_from(self.states@, 0) is None,
                    first_bad_variant_from(self.states@, variants@, 0) == first_bad_variant_from(
                        self.states@,
                        variants@,
                        v as int,
                    ),
                    first_unknown_arg_from(self.states@, args@, 0) == first_unknown_arg_from(
                        self.states@,
                        args@,
                        a as int,
                    ),
                decreases args@.len() - a,
            {
                let arg = args[a].as_str();
                if !str_contains(arg, "::") && !self.knows(arg) {
                    proof {
                        assert(is_unknown_state_arg(self.states@, args@[a as int].0@));
                        assert(first_unknown_arg_from(self.states@, args@, a as int) == Some(a as int));
                        assert(first_bad_variant_from(self.states@, variants@, v as int) == Some(
                            (v as int, a as int),
                        ));
                    }
                    let mut msg = String::from_str("Variant '");
                    msg.append(variants[v].ident.as_str());
                    msg.append("' references unknown state '");
                    msg.append(arg);
                    msg.append("'");
                    proof {
                        assert(msg@ == unknown_state_message(
                            self.state_enum.0.variants@[v as int].ident@,
                            self.state_enum.0.variants@[v as int].args@[a as int].0@,
                        ));
                    }
                    return Err(msg);
                }
                a = a + 1;
            }
            proof {
                assert(first_unknown_arg_from(self.states@, args@, 0) is None);
            }
            v = v + 1;
        }
        Ok(())
    }
}

pub open spec fn state_text(name: Seq<char>, component: Seq<char>, message_set: Seq<char>) -> Seq<char> {
    concat_all(
        seq![
            "/// State implementation for "@,
            name,
            " state\n#[derive(Debug, Clone, PartialEq, Eq)]\npub struct "@,
            name,
            ";\n\nimpl State<"@,
            component,
            "> for "@,
            name,
            " {\n    fn handle_message(\n        &self,\n        _state_machine: &mut StateMachine<"@,
            component,
            ">,\n        _message: "@,
            message_set,
            ",\n    ) -> Option<Transition<<"@,
            component,
            " as Components>::States, "@,
            message_set,
            ">> {\n        None\n    }\n}"@,
        ],
    )
}

impl State {
    /// The state's struct and its `State` implementation for the given component and
    /// message set.
    pub fn to_rust(&self, component_type: &str, message_set: &str) -> (r: String)
        ensures
            r@ == state_text(self.ident@, component_type@, message_set@),
    {
        let n = self.ident.as_str();
        let c = component_type;
        let m = message_set;
        let p = [
            "/// State implementation for ",
            n,
            " state\n#[derive(Debug, Clone, PartialEq, Eq)]\npub struct ",
            n,
            ";\n\nimpl State<",
            c,
            "> for ",
            n,
            " {\n    fn handle_message(\n        &self,\n        _state_machine: &mut StateMachine<",
            c,
            ">,\n        _message: ",
            m,
            ",\n    ) -> Option<Transition<<",
            c,
            " as Components>::States, ",
            m,
            ">> {\n        None\n    }\n}",
        ];
        proof {
            assert(p@.map_values(|x: &str| x@) =~= seq![
                p@[0]@, n@, p@[2]@, n@, p@[4]@, c@, p@[6]@, n@, p@[8]@, c@, p@[10]@, m@, p@[12]@, c@,
                p@[14]@, m@, p@[16]@,
            ]);
        }
        concat_parts(&p)
    }
}

/// A variant declaration per state, joined by line breaks.
pub open spec fn variant_block(states: Seq<State>) -> Seq<char> {
    join_with(states.map_values(|s: State| variant_decl(s.ident@)), "\n"@)
}

/// A match arm per state, joined by line breaks.
pub open spec fn arm_block(states: Seq<State>, e: Seq<char>, call: Seq<char>) -> Seq<char> {
    join_with(states.map_values(|s: State| dispatch_arm(e, call, s.ident@)), "\n"@)
}

pub open spec fn variant_decl(s: Seq<char>) -> Seq<char> {
    concat_all(seq!["    /// "@, s, " state\n    "@, s, "("@, s, "),"@])
}

pub open spec fn dispatch_arm(e: Seq<char>, call: Seq<char>, s: Seq<char>) -> Seq<char> {
    concat_all(seq!["            "@, e, "::"@, s, "(state) => state."@, call])
}

pub open spec fn state_enum_code(e: Seq<char>, states: Seq<State>, c: Seq<char>, m: Seq<char>) -> Seq<char> {
    concat_all(
        seq![
            "/// Enumeration of all possible states for the actor's state machine\n#[derive(Clone, PartialEq, Debug)]\npub enum "@,
            e,
            " {\n"@,
            variant_block(states),
            "\n}\n\nimpl State<"@,
            c,
            "> for "@,
            e,
            " {\n    /// Handles incoming messages and returns a transition to a new state if needed\n    fn handle_message(\n        &self,\n        state_machine: &mut StateMachine<"@,
            c,
            ">,\n        message: "@,
            m,
            ",\n    ) -> Option<Transition<<"@,
            c,
            " as Components>::States, "@,
            m,
            ">> {\n        match self {\n"@,
            arm_block(states, e, "handle_message(state_machine, message),"@),
            "\n        }\n    }\n\n    /// Executes actions when entering a state\n    fn on_entry(&self, state_machine: &mut StateMachine<"@,
            c,
            ">) {\n        match self {\n"@,
            arm_block(states, e, "on_entry(state_machine),"@),
            "\n        }\n    }\n\n    /// Executes actions when exiting a state\n    fn on_exit(&self, state_machine: &mut StateMachine<"@,
            c,
            ">) {\n        match self {\n"@,
            arm_block(states, e, "on_exit(state_machine),"@),
            "\n        }\n    }\n\n    /// Returns the parent state in the state machine hierarchy\n    fn parent(&self) -> "@,
            e,
            " {\n        match self {\n"@,
            arm_block(states, e, "parent(),"@),
            "\n        }\n    }\n}\n\nimpl StateEnum for "@,
            e,
            " {\n    fn new() -> Self {\n        Self::default()\n    }\n}\n\nimpl Default for "@,
            e,
            " {\n    fn default() -> Self {\n        "@,
            e,
            "::Uninit(Uninit)\n    }\n}"@,
        ],
    )
}

fn variant_decls(states: &Vec<State>) -> (r: String)
    ensures
        r@ == variant_block(states@),
{
    let mut lines: Vec<String> = Vec::new();
    let mut i: usize = 0;
    while i < states.len()
        invariant
            i <= states@.len(),
            strings_view(lines@) == states@.map_values(|s: State| variant_decl(s.ident@)).take(i as int),
        decreases states@.len() - i,
    {
        let n = states[i].ident.as_str();
        let p = ["    /// ", n, " state\n    ", n, "(", n, "),"];
        proof {
            assert(p@.map_values(|x: &str| x@) =~= seq![p@[0]@, n@, p@[2]@, n@, p@[4]@, n@, p@[6]@]);
        }
        push_string(&mut lines, concat_parts(&p));
        proof {
            assert(states@.map_values(|s: State| variant_decl(s.ident@)).take(i + 1) =~= states@.map_values(
                |s: State| variant_decl(s.ident@),
            ).take(i as int).push(variant_decl(states@[i as int].ident@)));
        }
        i = i + 1;
    }
    proof {
        assert(states@.map_values(|s: State| variant_decl(s.ident@)).take(states@.len() as int)
            =~= states@.map_values(|s: State| variant_decl(s.ident@)));
    }
    join_strings(&lines, "\n")
}

fn dispatch_arms(states: &Vec<State>, e: &str, call: &str) -> (r: String)
    ensures
        r@ == arm_block(states@, e@, call@),
{
    let mut lines: Vec<String> = Vec::new();
    let mut i: usize = 0;
    while i < states.len()
        invariant
            i <= states@.len(),
            strings_view(lines@) == states@.map_values(|s: State| dispatch_arm(e@, call@, s.ident@)).take(i as int),
        decreases states@.len() - i,
    {
        let n = states[i].ident.as_str();
        let p = ["            ", e, "::", n, "(state) => state.", call];
        proof {
            assert(p@.map_values(|x: &str| x@) =~= seq![p@[0]@, e@, p@[2]@, n@, p@[4]@, call@]);
        }
        push_string(&mut lines, concat_parts(&p));
        proof {
            assert(states@.map_values(|s: State| dispatch_arm(e@, call@, s.ident@)).take(i + 1)
                =~= states@.map_values(|s: State| dispatch_arm(e@, call@, s.ident@)).take(i as int).push(
                dispatch_arm(e@, call@, states@[i as int].ident@),
            ));
        }
        i = i + 1;
    }
    proof {
        assert(states@.map_values(|s: State| dispatch_arm(e@, call@, s.ident@)).take(states@.len() as int)
            =~= states@.map_values(|s: State| dispatch_arm(e@, call@, s.ident@)));
    }
    join_strings(&lines, "\n")
}

impl StateEnum {
    /// The enum over the given states with its `State`, `StateEnum` and `Default`
    /// implementations.
    pub fn to_rust(&self, states: &Vec<State>, component_type: &str, message_set: &str) -> (r: String)
        ensures
            r@ == state_enum_code(self.0.ident@, states@, component_type@, message_set@),
    {
        let e = self.0.ident.as_str();
        let c = component_type;
        let m = message_set;
        let variants = variant_decls(states);
        let handle = dispatch_arms(states, e, "handle_message(state_machine, message),");
        let entry = dispatch_arms(states, e, "on_entry(state_machine),");
        let exit = dispatch_arms(states, e, "on_exit(state_machine),");
        let parent = dispatch_arms(states, e, "parent(),");
        let p = [
            "/// Enumeration of all possible states for the actor's state machine\n#[derive(Clone, PartialEq, Debug)]\npub enum ",
            e,
            " {\n",
            variants.as_str(),
            "\n}\n\nimpl State<",
            c,
            "> for ",
            e,
            " {\n    /// Handles incoming messages and returns a transition to a new state if needed\n    fn handle_message(\n        &self,\n        state_machine: &mut StateMachine<",
            c,
            ">,\n        message: ",
            m,
            ",\n    ) -> Option<Transition<<",
            c,
            " as Components>::States, ",
            m,
            ">> {\n        match self {\n",
            handle.as_str(),
            "\n        }\n    }\n\n    /// Executes actions when entering a state\n    fn on_entry(&self, state_machine: &mut StateMachine<",
            c,
            ">) {\n        match self {\n",
            entry.as_str(),
            "\n        }\n    }\n\n    /// Executes actions when exiting a state\n    fn on_exit(&self, state_machine: &mut StateMachine<",
            c,
            ">) {\n        match self {\n",
            exit.as_str(),
            "\n        }\n    }\n\n    /// Returns the parent state in the state machine hierarchy\n    fn parent(&self) -> ",
            e,
            " {\n        match self {\n",
            parent.as_str(),
            "\n        }\n    }\n}\n\nimpl StateEnum for ",
            e,
            " {\n    fn new() -> Self {\n        Self::default()\n    }\n}\n\nimpl Default for ",
            e,
            " {\n    fn default() -> Self {\n        ",
            e,
            "::Uninit(Uninit)\n    }\n}",
        ];
        proof {
            assert(p@.map_values(|x: &str| x@) =~= seq![
                p@[0]@, e@, p@[2]@, variants@, p@[4]@, c@, p@[6]@, e@, p@[8]@, c@, p@[10]@, m@,
                p@[12]@, c@, p@[14]@, m@, p@[16]@, handle@, p@[18]@, c@, p@[20]@, entry@, p@[22]@, c@,
                p@[24]@, exit@, p@[26]@, e@, p@[28]@, parent@, p@[30]@, e@, p@[32]@, e@, p@[34]@, e@,
                p@[36]@,
            ]);
        }
        concat_parts(&p)
    }
}

impl States {
    pub open spec fn text(&self, component: Seq<char>, message_set: Seq<char>) -> Seq<char> {
        join_with(self.states@.map_values(|s: State| state_text(s.ident@, component, message_set)), "\n\n"@)
            + "\n\n"@ + state_enum_code(self.state_enum.0.ident@, self.states@, component, message_set)
    }

    /// Every state's code, then the state enum's.
    pub fn to_rust(&self, component_type: &str, message_set: &str) -> (r: String)
        ensures
            r@ == self.text(component_type@, message_set@),
    {
        let mut parts: Vec<String> = Vec::new();
        let mut i: usize = 0;
        while i < self.states.len()
            invariant
                i <= self.states@.len(),
                strings_view(parts@) == self.states@.map_values(
                    |s: State| state_text(s.ident@, component_type@, message_set@),
                ).take(i as int),
            decreases self.states@.len() - i,
        {
            push_string(&mut parts, self.states[i].to_rust(component_type, message_set));
            proof {
                assert(self.states@.map_values(|s: State| state_text(s.ident@, component_type@, message_set@)).take(
                    i + 1,
                ) =~= self.states@.map_values(|s: State| state_text(s.ident@, component_type@, message_set@)).take(
                    i as int,
                ).push(state_text(self.states@[i as int].ident@, component_type@, message_set@)));
            }
            i = i + 1;
        }
        proof {
            assert(self.states@.map_values(|s: State| state_text(s.ident@, component_type@, message_set@)).take(
                self.states@.len() as int,
            ) =~= self.states@.map_values(|s: State| state_text(s.ident@, component_type@, message_set@)));
        }
        let mut r = join_strings(&parts, "\n\n");
        r.append("\n\n");
        let e = self.state_enum.to_rust(&self.states, component_type, message_set);
        r.append(e.as_str());
        r
    }
}

} // verus!
