//! Crate-level laws: facts that relate the two emitters and the discovery
//! step, proved once and for all inputs.

use vstd::prelude::*;
use crate::discovery::{files_methods, SourceFile};
use crate::glue_emit::{
    glue_cap_params, glue_inner_args, glue_param_texts, glue_text, jni_ret_of, jni_ret_supported,
};
use crate::java_emit::{java_arg_decls, java_class_text, java_ret_of, java_ret_supported};
use crate::mapping::{java_type_of, lemma_type_tables_agree};
use crate::model::{ArgModel, EntityModel, FnModel, spec_is_static};

verus! {

/// The emitters agree on which return types they can handle: the stub
/// emitter can declare a method's return type iff the glue emitter can.
pub proof fn lemma_ret_supportedness_agrees(f: FnModel)
    ensures
        java_ret_supported(f) <==> jni_ret_supported(f),
{
    match f.ret {
        Some(t) => lemma_type_tables_agree(t),
        None => {},
    }
}

/// The emitters agree on void-ness: the stub emitter declares "void" and the
/// glue emitter emits no return type exactly for the methods that return
/// nothing.
pub proof fn lemma_voidness_agrees(f: FnModel)
    ensures
        (java_ret_of(f) == Some("void"@)) <==> (f.ret is None),
        (jni_ret_of(f) == Some(None::<Seq<char>>)) <==> (f.ret is None),
{
    broadcast use vstd::string::group_string_axioms;

    reveal_strlit("void");
    reveal_strlit("byte");
    reveal_strlit("boolean");
    reveal_strlit("short");
    reveal_strlit("char");
    reveal_strlit("int");
    reveal_strlit("long");
    reveal_strlit("float");
    reveal_strlit("double");
    reveal_strlit("String");
    reveal_strlit("byte[]");
    assert("void"@.len() == 4);
    assert("void"@[0] == 'v');
    assert("byte"@[0] == 'b');
    assert("char"@[0] == 'c');
    assert("long"@[0] == 'l');
    assert("boolean"@.len() == 7);
    assert("short"@.len() == 5);
    assert("int"@.len() == 3);
    assert("float"@.len() == 5);
    assert("double"@.len() == 6);
    assert("String"@.len() == 6);
    assert("byte[]"@.len() == 6);
    match f.ret {
        None => {},
        Some(t) => {
            assert(java_type_of(t) != Some("void"@));
        },
    }
}

/// The emitters agree on argument count: for any argument list, the stub
/// declaration and the glue function carry one entry per captured argument,
/// and the glue function's full parameter list adds exactly the environment
/// handle and the class-or-instance reference.
pub proof fn lemma_arg_counts_agree(args: Seq<ArgModel>)
    ensures
        java_arg_decls(args).len() == glue_cap_params(args).len(),
        glue_inner_args(args).len() == glue_cap_params(args).len(),
    decreases args.len(),
{
    if args.len() > 0 {
        lemma_arg_counts_agree(args.drop_last());
    }
}

/// The glue function's parameter list holds the environment handle, the
/// class-or-instance reference, and one parameter per captured argument.
pub proof fn lemma_param_count(f: FnModel)
    ensures
        glue_param_texts(f).len() == 2 + glue_cap_params(f.args).len(),
{
}

/// A method is static iff its argument list contains no self-receiver
/// variant, whatever its argument count or return type.
pub proof fn lemma_static_iff_no_receiver(f: FnModel)
    ensures
        spec_is_static(f.args) <==> !(exists|i: int|
            0 <= i < f.args.len() && ((#[trigger] f.args[i]) is SelfBorrow || f.args[i]
                is SelfOwned)),
{
}

/// Idempotence: generation is a pure function of the parsed source tree, the
/// target identifier and the library name — an unchanged tree and identical
/// identifier yield byte-identical artifacts in both outputs, run after run.
pub proof fn lemma_generation_idempotent(
    files1: Seq<SourceFile>,
    files2: Seq<SourceFile>,
    ident: Seq<char>,
    lib: Seq<char>,
)
    requires
        files1 == files2,
    ensures
        files_methods(files1, ident) == files_methods(files2, ident),
        java_class_text(
            EntityModel { name: ident, fns: files_methods(files1, ident) },
            lib,
        ) == java_class_text(EntityModel { name: ident, fns: files_methods(files2, ident) }, lib),
        glue_text(EntityModel { name: ident, fns: files_methods(files1, ident) }) == glue_text(
            EntityModel { name: ident, fns: files_methods(files2, ident) },
        ),
{
}

} // verus!
