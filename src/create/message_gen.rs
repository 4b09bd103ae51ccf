//! Code of the message module: the message set enum and its custom payload types.
use vstd::prelude::*;
use crate::blox::actor::Actor;
use crate::blox::enums::{EnumDef, EnumVariant};
use crate::blox::message_set::MessageSet;
use crate::graph::codegen::{CodeGenGraph, imports_are, node_path};
use crate::graph::rgraph::find_module;
use crate::link::Link;
use crate::path::{
    concat_all, concat_parts, join_strings, join_with, lower_of, push_string, split_sep,
    strings_view, to_lower,
};

verus! {

pub const ENUM_DOC: &'static str = "/// The primary message set for the actor's state machine.\n///\n/// This enum contains all possible message types that can be dispatched to the\n/// actor's state machine, allowing for unified message processing logic.\npub enum ";

pub const CUSTOM_DOC: &'static str = "/// Custom type definition\n#[derive(Debug, Clone, PartialEq)]\npub enum ";

pub const MODULE_DOC_HEAD: &'static str = "//! # ";

pub const MODULE_DOC_TAIL: &'static str = " Message Module\n//!\n//! This module defines the message types and payloads used for communication\n//! within the system. The message set follows a hierarchical structure.\n//!\n//! ## Message Structure\n//! - `MessageSet` - The top-level message set enum that wraps all message types\n";

pub const FALLBACK_MESSAGING_IMPORT: &'static str = "use bloxide_tokio::messaging::{Message, MessageSet};";

/// The argument types of a variant, each wrapped as `Message<T>` when `wrap` holds.
pub open spec fn arg_texts(args: Seq<Link>, wrap: bool) -> Seq<Seq<char>> {
    args.map_values(|l: Link| if wrap { concat_all(seq!["Message<"@, l.0@, ">"@]) } else { l.0@ })
}

/// One variant: a doc line, then the name with its arguments in parentheses, if any.
pub open spec fn variant_text(v: EnumVariant, wrap: bool) -> Seq<char> {
    if v.args@.len() == 0 {
        concat_all(seq!["    /// "@, v.ident@, "\n    "@, v.ident@, ",\n"@])
    } else {
        concat_all(
            seq![
                "    /// "@,
                v.ident@,
                "\n    "@,
                v.ident@,
                "("@,
                join_with(arg_texts(v.args@, wrap), ", "@),
                "),\n"@,
            ],
        )
    }
}

pub open spec fn variants_text(vs: Seq<EnumVariant>, wrap: bool) -> Seq<char>
    decreases vs.len(),
{
    if vs.len() == 0 {
        Seq::empty()
    } else {
        variants_text(vs.drop_last(), wrap) + variant_text(vs.last(), wrap)
    }
}

/// An enum definition after `doc`; the message set wraps each argument as `Message<T>`.
pub open spec fn enum_text_with(doc: Seq<char>, e: EnumDef, wrap: bool) -> Seq<char> {
    concat_all(seq![doc, e.ident@, " {\n"@, variants_text(e.variants@, wrap), "}"@])
}

pub open spec fn enum_text(e: EnumDef, wrap: bool) -> Seq<char> {
    enum_text_with(ENUM_DOC@, e, wrap)
}

/// The custom types as the actor generator writes them.
pub open spec fn custom_type_texts(es: Seq<EnumDef>) -> Seq<Seq<char>> {
    es.map_values(|e: EnumDef| enum_text_with(CUSTOM_DOC@, e, false))
}

pub open spec fn custom_texts(es: Seq<EnumDef>) -> Seq<Seq<char>> {
    es.map_values(|e: EnumDef| enum_text(e, false))
}

/// The imports section: the statements joined by `;` and a line break, then `;` and a
/// blank line; nothing without statements.
pub open spec fn imports_section(imports: Seq<Seq<char>>) -> Seq<char> {
    if imports.len() == 0 {
        Seq::empty()
    } else {
        join_with(imports, ";\n"@) + ";\n\n"@
    }
}

pub open spec fn message_module_text(ms: MessageSet, imports: Seq<Seq<char>>) -> Seq<char> {
    concat_all(
        seq![
            MODULE_DOC_HEAD@,
            ms.def.ident@,
            MODULE_DOC_TAIL@,
            imports_section(imports),
            "\n\n"@,
            enum_text(ms.def, true),
            "\n\n"@,
            join_with(custom_texts(ms.custom_types@), "\n\n"@),
            "\n\nimpl MessageSet for "@,
            ms.def.ident@,
            " {}"@,
        ],
    )
}

fn arg_list(args: &Vec<Link>, wrap: bool) -> (r: String)
    ensures
        r@ == join_with(arg_texts(args@, wrap), ", "@),
{
    let mut parts: Vec<String> = Vec::new();
    let mut i: usize = 0;
    while i < args.len()
        invariant
            i <= args@.len(),
            strings_view(parts@) == arg_texts(args@, wrap).take(i as int),
        decreases args@.len() - i,
    {
        let a = args[i].as_str();
        let text = if wrap {
            let p = ["Message<", a, ">"];
            proof {
                assert(p@.map_values(|x: &str| x@) =~= seq![p@[0]@, a@, p@[2]@]);
            }
            concat_parts(&p)
        } else {
            a.to_owned()
        };
        push_string(&mut parts, text);
        proof {
            assert(arg_texts(args@, wrap).take(i + 1) =~= arg_texts(args@, wrap).take(i as int).push(
                text@,
            ));
        }
        i = i + 1;
    }
    proof {
        assert(arg_texts(args@, wrap).take(args@.len() as int) =~= arg_texts(args@, wrap));
    }
    join_strings(&parts, ", ")
}

pub(crate) fn enum_definition_with(doc: &str, enum_def: &EnumDef, wrap: bool) -> (r: String)
    ensures
        r@ == enum_text_with(doc@, *enum_def, wrap),
{
    let vs = &enum_def.variants;
    let mut variants = String::new();
    let mut i: usize = 0;
    proof {
        assert(vs@.take(0) =~= Seq::<EnumVariant>::empty());
    }
    while i < vs.len()
        invariant
            i <= vs@.len(),
            vs == &enum_def.variants,
            variants@ == variants_text(vs@.take(i as int), wrap),
        decreases vs@.len() - i,
    {
        let v = &vs[i];
        let id = v.ident.as_str();
        let line = if v.args.len() == 0 {
            let p = ["    /// ", id, "\n    ", id, ",\n"];
            proof {
                assert(p@.map_values(|x: &str| x@) =~= seq![p@[0]@, id@, p@[2]@, id@, p@[4]@]);
            }
            concat_parts(&p)
        } else {
            let args = arg_list(&v.args, wrap);
            let p = ["    /// ", id, "\n    ", id, "(", args.as_str(), "),\n"];
            proof {
                assert(p@.map_values(|x: &str| x@) =~= seq![
                    p@[0]@, id@, p@[2]@, id@, p@[4]@, args@, p@[6]@,
                ]);
            }
            concat_parts(&p)
        };
        variants.append(line.as_str());
        proof {
            assert(vs@.take(i + 1).drop_last() =~= vs@.take(i as int));
            assert(vs@.take(i + 1).last() == vs@[i as int]);
        }
        i = i + 1;
    }
    proof {
        assert(vs@.take(vs@.len() as int) =~= vs@);
    }
    let p = [doc, enum_def.ident.as_str(), " {\n", variants.as_str(), "}"];
    proof {
        assert(p@.map_values(|x: &str| x@) =~= seq![doc@, enum_def.ident@, p@[2]@, variants@, p@[4]@]);
    }
    concat_parts(&p)
}

fn enum_definition(enum_def: &EnumDef, wrap: bool) -> (r: String)
    ensures
        r@ == enum_text(*enum_def, wrap),
{
    enum_definition_with(ENUM_DOC, enum_def, wrap)
}

/// The message set enum: each argument wrapped as `Message<T>`.
pub fn generate_enum_definition(enum_def: &EnumDef) -> (r: Result<String, String>)
    ensures
        r matches Ok(text) && text@ == enum_text(*enum_def, true),
{
    Ok(enum_definition(enum_def, true))
}

/// A custom payload enum: arguments as written.
pub fn generate_custom_type_definition(enum_def: &EnumDef) -> (r: Result<String, String>)
    ensures
        r matches Ok(text) && text@ == enum_text(*enum_def, false),
{
    Ok(enum_definition(enum_def, false))
}

/// The message module of an actor: a header, the import statements of the actor's
/// messaging module (a fixed statement when the graph has no such module), the message
/// set enum, the custom types, and the `MessageSet` implementation.
pub fn generate_message_set(msg_set: &MessageSet, actor: &Actor, graph: &CodeGenGraph) -> (r: Result<String, String>)
    ensures
        r matches Ok(text) && match find_module(
            graph.graph@,
            split_sep(lower_of(actor.ident@) + "::messaging"@),
        ) {
            Some(m) => exists|imps: Seq<Seq<char>>|
                #[trigger] imports_are(graph.graph@, m, node_path(graph.graph@, m), node_path(graph.graph@, m), imps)
                    && text@ == message_module_text(*msg_set, imps),
            None => text@ == message_module_text(*msg_set, seq![FALLBACK_MESSAGING_IMPORT@]),
        },
{
    let mut path = to_lower(actor.ident.as_str());
    path.append("::messaging");
    let found = graph.graph.find_module_by_path_hierarchical(path.as_str());
    let imports = match found {
        Some(m) => graph.get_imports_for_module(m),
        None => {
            let mut v: Vec<String> = Vec::new();
            push_string(&mut v, FALLBACK_MESSAGING_IMPORT.to_owned());
            v
        },
    };
    let section = if imports.len() == 0 {
        String::new()
    } else {
        let mut s = join_strings(&imports, ";\n");
        s.append(";\n\n");
        s
    };
    let main_enum = enum_definition(&msg_set.def, true);
    let customs = &msg_set.custom_types;
    let mut custom_defs: Vec<String> = Vec::new();
    let mut i: usize = 0;
    while i < customs.len()
        invariant
            i <= customs@.len(),
            customs == &msg_set.custom_types,
            strings_view(custom_defs@) == custom_texts(customs@).take(i as int),
        decreases customs@.len() - i,
    {
        let d = enum_definition(&customs[i], false);
        push_string(&mut custom_defs, d);
        proof {
            assert(custom_texts(customs@).take(i + 1) =~= custom_texts(customs@).take(i as int).push(
                enum_text(customs@[i as int], false),
            ));
        }
        i = i + 1;
    }
    proof {
        assert(custom_texts(customs@).take(customs@.len() as int) =~= custom_texts(customs@));
    }
    let custom_types = join_strings(&custom_defs, "\n\n");
    let ident = msg_set.def.ident.as_str();
    let p = [
        MODULE_DOC_HEAD,
        ident,
        MODULE_DOC_TAIL,
        section.as_str(),
        "\n\n",
        main_enum.as_str(),
        "\n\n",
        custom_types.as_str(),
        "\n\nimpl MessageSet for ",
        ident,
        " {}",
    ];
    let text = concat_parts(&p);
    proof {
        assert(section@ == imports_section(strings_view(imports@)));
        assert(p@.map_values(|x: &str| x@) =~= seq![
            MODULE_DOC_HEAD@, ident@, MODULE_DOC_TAIL@, section@, p@[4]@, main_enum@, p@[6]@,
            custom_types@, p@[8]@, ident@, p@[10]@,
        ]);
    }
    Ok(text)
}

} // verus!
