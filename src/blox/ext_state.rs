//! The extended state of an actor: fields, methods and initialisation arguments.
use vstd::prelude::*;
use crate::field::Field;
use crate::method::Method;
use crate::path::{concat_all, concat_parts, join_strings, join_with, push_string, strings_view};

verus! {

/// The arguments that initialise the extended state.
#[derive(Debug, Default)]
pub struct InitArgs {
    pub ident: String,
    pub fields: Vec<Field>,
}

impl InitArgs {
    pub fn new(ident: &str, fields: Vec<Field>) -> (r: Self)
        ensures
            r.ident@ == ident@,
            r.fields == fields,
    {
        InitArgs { ident: ident.to_owned(), fields }
    }
}

#[derive(Debug)]
pub struct ExtState {
    ident: String,
    fields: Vec<Field>,
    methods: Vec<Method>,
    init_args: InitArgs,
}

impl Default for ExtState {
    fn default() -> (r: Self)
        ensures
            r.spec_ident().len() == 0,
            r.spec_fields().len() == 0,
            r.spec_methods().len() == 0,
    {
        ExtState {
            ident: String::new(),
            fields: Vec::new(),
            methods: Vec::new(),
            init_args: InitArgs { ident: String::new(), fields: Vec::new() },
        }
    }
}

impl ExtState {
    pub closed spec fn spec_ident(&self) -> Seq<char> {
        self.ident@
    }

    pub closed spec fn spec_fields(&self) -> Seq<Field> {
        self.fields@
    }

    pub closed spec fn spec_methods(&self) -> Seq<Method> {
        self.methods@
    }

    pub closed spec fn spec_init_args(&self) -> InitArgs {
        self.init_args
    }

    pub fn new(ident: &str, fields: Vec<Field>, methods: Vec<Method>, init_args: InitArgs) -> (r: Self)
        ensures
            r.spec_ident() == ident@,
            r.spec_fields() == fields@,
            r.spec_methods() == methods@,
            r.spec_init_args() == init_args,
    {
        ExtState { ident: ident.to_owned(), fields, methods, init_args }
    }

    pub fn ident(&self) -> (r: &str)
        ensures
            r@ == self.spec_ident(),
    {
        self.ident.as_str()
    }

    pub fn add_field(&mut self, field: Field)
        ensures
            final(self).spec_fields() == old(self).spec_fields().push(field),
            final(self).spec_ident() == old(self).spec_ident(),
            final(self).spec_methods() == old(self).spec_methods(),
            final(self).spec_init_args() == old(self).spec_init_args(),
    {
        self.fields.push(field);
    }

    pub fn fields(&self) -> (r: &[Field])
        ensures
            r@ == self.spec_fields(),
    {
        self.fields.as_slice()
    }

    pub fn methods(&self) -> (r: &[Method])
        ensures
            r@ == self.spec_methods(),
    {
        self.methods.as_slice()
    }

    pub fn init_args(&self) -> (r: &InitArgs)
        ensures
            *r == self.spec_init_args(),
    {
        &self.init_args
    }
}

/// Some initialisation argument has the field's name and type.
pub open spec fn in_init(init: Seq<Field>, f: Field) -> bool {
    exists|j: int|
        0 <= j < init.len() && #[trigger] init[j].spec_ident() == f.spec_ident() && init[j].spec_ty()
            == f.spec_ty()
}

/// `name: Default::default()` for the first `k` fields that are not initialisation arguments.
pub open spec fn default_field_texts(fs: Seq<Field>, init: Seq<Field>, k: int) -> Seq<Seq<char>>
    decreases k,
{
    if k <= 0 {
        Seq::empty()
    } else if in_init(init, fs[k - 1]) {
        default_field_texts(fs, init, k - 1)
    } else {
        default_field_texts(fs, init, k - 1).push(fs[k - 1].spec_ident() + ": Default::default()"@)
    }
}

pub open spec fn ext_state_text(e: ExtState) -> Seq<char> {
    let fs = e.spec_fields();
    let init = e.spec_init_args();
    let ident = e.spec_ident();
    concat_all(
        seq![
            "\n        use bloxide_tokio::state_machine::ExtendedState;\n        pub struct "@,
            ident,
            " {\n    "@,
            join_with(fs.map_values(|f: Field| f.text()), ",\n\t"@),
            "\n}\n\nimpl "@,
            ident,
            " {\n    pub fn new("@,
            join_with(fs.map_values(|f: Field| f.spec_ident() + ": "@ + f.spec_ty()), ", "@),
            ") -> Self {\n        Self {\n            "@,
            join_with(fs.map_values(|f: Field| f.spec_ident()), ",\n\t"@),
            "\n        }\n    }\n\n    "@,
            join_with(e.spec_methods().map_values(|m: Method| m.text()), "\n\t"@),
            "\n}\n    \nimpl ExtendedState for "@,
            ident,
            " {\n    type InitArgs = "@,
            if init.ident@.len() == 0 {
                "()"@
            } else {
                init.ident@
            },
            ";\n    fn new(args: Self::InitArgs) -> Self {\n        Self {\n            "@,
            join_with(init.fields@.map_values(|f: Field| f.spec_ident() + ": args."@ + f.spec_ident()), ",\n\t"@),
            "\n            "@,
            join_with(default_field_texts(fs, init.fields@, fs.len() as int), ",\n\t"@),
            "\n        }\n    }\n}\n    "@,
        ],
    )
}

impl ExtState {
    /// The extended state's struct, constructor, methods and `ExtendedState` implementation.
    pub fn to_rust(&self) -> (r: String)
        ensures
            r@ == ext_state_text(*self),
    {
        let fs = &self.fields;
        let mut fields: Vec<String> = Vec::new();
        let mut params: Vec<String> = Vec::new();
        let mut names: Vec<String> = Vec::new();
        let mut defaults: Vec<String> = Vec::new();
        let init = &self.init_args.fields;
        let mut i: usize = 0;
        while i < fs.len()
            invariant
                i <= fs@.len(),
                fs == &self.fields,
                init == &self.init_args.fields,
                strings_view(fields@) == fs@.map_values(|f: Field| f.text()).take(i as int),
                strings_view(params@) == fs@.map_values(|f: Field| f.spec_ident() + ": "@ + f.spec_ty()).take(i as int),
                strings_view(names@) == fs@.map_values(|f: Field| f.spec_ident()).take(i as int),
                strings_view(defaults@) == default_field_texts(fs@, init@, i as int),
            decreases fs@.len() - i,
        {
            let f = &fs[i];
            push_string(&mut fields, f.to_rust());
            let mut param = String::from_str(f.ident());
            param.append(": ");
            param.append(f.ty().as_str());
            push_string(&mut params, param);
            push_string(&mut names, f.ident().to_owned());
            let mut found = false;
            let mut j: usize = 0;
            while j < init.len()
                invariant
                    j <= init@.len(),
                    !found ==> forall|k: int|
                        0 <= k < j ==> !(#[trigger] init@[k].spec_ident() == f.spec_ident() && init@[k].spec_ty()
                            == f.spec_ty()),
                    found ==> in_init(init@, *f),
                decreases init@.len() - j,
            {
                if init[j].same_as(f) {
                    found = true;
                }
                j = j + 1;
            }
            if !found {
                let mut d = String::from_str(f.ident());
                d.append(": Default::default()");
                push_string(&mut defaults, d);
            }
            proof {
                assert(fs@.map_values(|f: Field| f.text()).take(i + 1) =~= fs@.map_values(|f: Field| f.text()).take(i as int).push(fs@[i as int].text()));
                assert(fs@.map_values(|f: Field| f.spec_ident() + ": "@ + f.spec_ty()).take(i + 1)
                    =~= fs@.map_values(|f: Field| f.spec_ident() + ": "@ + f.spec_ty()).take(i as int).push(
                    fs@[i as int].spec_ident() + ": "@ + fs@[i as int].spec_ty(),
                ));
                assert(fs@.map_values(|f: Field| f.spec_ident()).take(i + 1) =~= fs@.map_values(|f: Field| f.spec_ident()).take(i as int).push(fs@[i as int].spec_ident()));
            }
            i = i + 1;
        }
        proof {
            assert(fs@.map_values(|f: Field| f.text()).take(fs@.len() as int) =~= fs@.map_values(|f: Field| f.text()));
            assert(fs@.map_values(|f: Field| f.spec_ident() + ": "@ + f.spec_ty()).take(fs@.len() as int)
                =~= fs@.map_values(|f: Field| f.spec_ident() + ": "@ + f.spec_ty()));
            assert(fs@.map_values(|f: Field| f.spec_ident()).take(fs@.len() as int) =~= fs@.map_values(|f: Field| f.spec_ident()));
        }
        let mut inits: Vec<String> = Vec::new();
        let mut k: usize = 0;
        while k < init.len()
            invariant
                k <= init@.len(),
                strings_view(inits@) == init@.map_values(|f: Field| f.spec_ident() + ": args."@ + f.spec_ident()).take(k as int),
            decreases init@.len() - k,
        {
            let mut t = String::from_str(init[k].ident());
            t.append(": args.");
            t.append(init[k].ident());
            push_string(&mut inits, t);
            proof {
                assert(init@.map_values(|f: Field| f.spec_ident() + ": args."@ + f.spec_ident()).take(k + 1)
                    =~= init@.map_values(|f: Field| f.spec_ident() + ": args."@ + f.spec_ident()).take(k as int).push(
                    init@[k as int].spec_ident() + ": args."@ + init@[k as int].spec_ident(),
                ));
            }
            k = k + 1;
        }
        proof {
            assert(init@.map_values(|f: Field| f.spec_ident() + ": args."@ + f.spec_ident()).take(init@.len() as int)
                =~= init@.map_values(|f: Field| f.spec_ident() + ": args."@ + f.spec_ident()));
        }
        let ms = &self.methods;
        let mut methods: Vec<String> = Vec::new();
        let mut m: usize = 0;
        while m < ms.len()
            invariant
                m <= ms@.len(),
                strings_view(methods@) == ms@.map_values(|x: Method| x.text()).take(m as int),
            decreases ms@.len() - m,
        {
            push_string(&mut methods, ms[m].to_rust());
            proof {
                assert(ms@.map_values(|x: Method| x.text()).take(m + 1) =~= ms@.map_values(|x: Method| x.text()).take(m as int).push(ms@[m as int].text()));
            }
            m = m + 1;
        }
        proof {
            assert(ms@.map_values(|x: Method| x.text()).take(ms@.len() as int) =~= ms@.map_values(|x: Method| x.text()));
        }
        let fields_text = join_strings(&fields, ",\n\t");
        let params_text = join_strings(&params, ", ");
        let names_text = join_strings(&names, ",\n\t");
        let methods_text = join_strings(&methods, "\n\t");
        let inits_text = join_strings(&inits, ",\n\t");
        let defaults_text = join_strings(&defaults, ",\n\t");
        let init_ident: &str = if self.init_args.ident.as_str().unicode_len() == 0 {
            "()"
        } else {
            self.init_args.ident.as_str()
        };
        let ident = self.ident.as_str();
        let p = [
            "\n        use bloxide_tokio::state_machine::ExtendedState;\n        pub struct ",
            ident,
            " {\n    ",
            fields_text.as_str(),
            "\n}\n\nimpl ",
            ident,
            " {\n    pub fn new(",
            params_text.as_str(),
            ") -> Self {\n        Self {\n            ",
            names_text.as_str(),
            "\n        }\n    }\n\n    ",
            methods_text.as_str(),
            "\n}\n    \nimpl ExtendedState for ",
            ident,
            " {\n    type InitArgs = ",
            init_ident,
            ";\n    fn new(args: Self::InitArgs) -> Self {\n        Self {\n            ",
            inits_text.as_str(),
            "\n            ",
            defaults_text.as_str(),
            "\n        }\n    }\n}\n    ",
        ];
        proof {
            assert(p@.map_values(|x: &str| x@) =~= seq![
                p@[0]@, ident@, p@[2]@, fields_text@, p@[4]@, ident@, p@[6]@, params_text@, p@[8]@,
                names_text@, p@[10]@, methods_text@, p@[12]@, ident@, p@[14]@, init_ident@, p@[16]@,
                inits_text@, p@[18]@, defaults_text@, p@[20]@,
            ]);
        }
        concat_parts(&p)
    }
}

} // verus!
