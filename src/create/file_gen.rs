//! The module declarations of a generated module directory.
use vstd::prelude::*;
use crate::path::{concat_all, concat_parts, join_strings, join_with, push_string, strings_view};

verus! {

pub open spec fn mod_line(name: Seq<char>) -> Seq<char> {
    concat_all(seq!["pub mod "@, name, ";"@])
}

/// `pub mod <name>;` for each name, one per line.
pub open spec fn mod_rs_text(names: Seq<Seq<char>>) -> Seq<char> {
    join_with(names.map_values(|n: Seq<char>| mod_line(n)), "\n"@)
}

/// The declarations of the given submodules, one per line.
pub fn mod_declarations(names: &Vec<String>) -> (r: String)
    ensures
        r@ == mod_rs_text(strings_view(names@)),
{
    let ghost nv = strings_view(names@);
    let mut lines: Vec<String> = Vec::new();
    let mut i: usize = 0;
    while i < names.len()
        invariant
            i <= names@.len(),
            nv == strings_view(names@),
            strings_view(lines@) == nv.map_values(|n: Seq<char>| mod_line(n)).take(i as int),
        decreases names@.len() - i,
    {
        let n = names[i].as_str();
        let p = ["pub mod ", n, ";"];
        proof {
            assert(p@.map_values(|x: &str| x@) =~= seq![p@[0]@, n@, p@[2]@]);
        }
        push_string(&mut lines, concat_parts(&p));
        proof {
            assert(nv.map_values(|n: Seq<char>| mod_line(n)).take(i + 1) =~= nv.map_values(
                |n: Seq<char>| mod_line(n),
            ).take(i as int).push(mod_line(nv[i as int])));
        }
        i = i + 1;
    }
    proof {
        assert(nv.map_values(|n: Seq<char>| mod_line(n)).take(names@.len() as int) =~= nv.map_values(
            |n: Seq<char>| mod_line(n),
        ));
    }
    join_strings(&lines, "\n")
}

} // verus!
