//! A method of the extended state.
use vstd::prelude::*;
use crate::field::{Field, copy_fields};
use crate::link::Link;
use crate::path::{concat_all, concat_parts, join_strings, join_with, push_string, str_eq, strings_view};

verus! {

#[derive(Debug)]
pub struct Method {
    ident: String,
    args: Vec<Field>,
    ret: Link,
    body: String,
}

impl Method {
    pub closed spec fn spec_ident(&self) -> Seq<char> {
        self.ident@
    }

    pub closed spec fn spec_args(&self) -> Seq<Field> {
        self.args@
    }

    pub closed spec fn spec_ret(&self) -> Seq<char> {
        self.ret.0@
    }

    pub closed spec fn spec_body(&self) -> Seq<char> {
        self.body@
    }

    pub fn new(ident: &str, args: &[Field], ret: &str, body: &str) -> (r: Self)
        ensures
            r.spec_ident() == ident@,
            r.spec_args().len() == args@.len(),
            forall|i: int|
                0 <= i < args@.len() ==> (#[trigger] r.spec_args()[i]).spec_ident()
                    == args@[i].spec_ident() && r.spec_args()[i].spec_ty() == args@[i].spec_ty(),
            r.spec_ret() == ret@,
            r.spec_body() == body@,
    {
        Method {
            ident: ident.to_owned(),
            args: copy_fields(args),
            ret: Link::new(ret),
            body: body.to_owned(),
        }
    }

    pub fn ident(&self) -> (r: &str)
        ensures
            r@ == self.spec_ident(),
    {
        self.ident.as_str()
    }

    pub fn args(&self) -> (r: &[Field])
        ensures
            r@ == self.spec_args(),
    {
        self.args.as_slice()
    }

    pub fn ret(&self) -> (r: &Link)
        ensures
            r.0@ == self.spec_ret(),
    {
        &self.ret
    }

    pub fn body(&self) -> (r: &str)
        ensures
            r@ == self.spec_body(),
    {
        self.body.as_str()
    }
}

/// An argument as written in a signature: a receiver as is, any other as `name: type`.
pub open spec fn arg_text(f: Field) -> Seq<char> {
    if f.spec_ident() == "self"@ || f.spec_ident() == "&self"@ || f.spec_ident() == "&mut self"@ {
        f.spec_ident()
    } else {
        concat_all(seq![f.spec_ident(), ": "@, f.spec_ty()])
    }
}

impl Method {
    pub open spec fn text(&self) -> Seq<char> {
        let ret = if self.spec_ret().len() == 0 {
            Seq::empty()
        } else {
            " -> "@ + self.spec_ret()
        };
        concat_all(
            seq![
                "pub fn "@,
                self.spec_ident(),
                "("@,
                join_with(self.spec_args().map_values(|f: Field| arg_text(f)), ", "@),
                ")"@,
                ret,
                " {\n        "@,
                self.spec_body(),
                "\n    }\n    "@,
            ],
        )
    }

    /// The method's code.
    pub fn to_rust(&self) -> (r: String)
        ensures
            r@ == self.text(),
    {
        let mut args: Vec<String> = Vec::new();
        let mut i: usize = 0;
        while i < self.args.len()
            invariant
                i <= self.args@.len(),
                strings_view(args@) == self.spec_args().map_values(|f: Field| arg_text(f)).take(i as int),
            decreases self.args@.len() - i,
        {
            let a = &self.args[i];
            let id = a.ident();
            let text = if str_eq(id, "self") || str_eq(id, "&self") || str_eq(id, "&mut self") {
                id.to_owned()
            } else {
                let p = [id, ": ", a.ty().as_str()];
                proof {
                    assert(p@.map_values(|x: &str| x@) =~= seq![id@, p@[1]@, a.spec_ty()]);
                }
                concat_parts(&p)
            };
            push_string(&mut args, text);
            proof {
                assert(self.spec_args().map_values(|f: Field| arg_text(f)).take(i + 1)
                    =~= self.spec_args().map_values(|f: Field| arg_text(f)).take(i as int).push(
                    arg_text(self.args@[i as int]),
                ));
            }
            i = i + 1;
        }
        proof {
            assert(self.spec_args().map_values(|f: Field| arg_text(f)).take(self.args@.len() as int)
                =~= self.spec_args().map_values(|f: Field| arg_text(f)));
        }
        let joined = join_strings(&args, ", ");
        let ret = if self.ret.as_str().unicode_len() == 0 {
            String::new()
        } else {
            let mut r = String::from_str(" -> ");
            r.append(self.ret.as_str());
            r
        };
        let p = ["pub fn ", self.ident.as_str(), "(", joined.as_str(), ")", ret.as_str(), " {\n        ", self.body.as_str(), "\n    }\n    "];
        proof {
            assert(p@.map_values(|x: &str| x@) =~= seq![
                p@[0]@, self.spec_ident(), p@[2]@, joined@, p@[4]@, ret@, p@[6]@, self.spec_body(), p@[8]@,
            ]);
        }
        concat_parts(&p)
    }
}

} // verus!
