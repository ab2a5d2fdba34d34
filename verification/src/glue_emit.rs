//! The native glue emitter: produces the source text of one exported,
//! ABI-conformant function per method, rendered as a stream of
//! space-separated tokens.

use vstd::prelude::*;
use crate::casing::camel_of;
use crate::mapping::{
    arg_conv_of, glue_arg_conv, glue_param_text, glue_ret_conv, glue_ret_text, jni_type_of,
    param_text_of, ret_conv_of, ret_text_of, rust_to_jni_type,
};
use crate::model::{
    ConversionError, DerivedEntity, DerivedFn, DerivedFnArg, ArgModel, EntityModel, FnModel,
    entity_args_supported, fn_args_supported, reports_unsupported_ret, spec_is_static,
};
use crate::strutil::{join_strs, join_with, str_eq};

verus! {

/// Native-boundary return type name of a method: `Some(None)` for a method
/// that returns nothing, `Some(Some(name))` for a supported return type,
/// `None` when the return type is outside the mapping table.
pub open spec fn jni_ret_of(f: FnModel) -> Option<Option<Seq<char>>> {
    match f.ret {
        None => Some(None),
        Some(t) => match jni_type_of(t) {
            Some(v) => if v == "roast::JString"@ {
                Some(Some("roast::jstring"@))
            } else {
                Some(Some(v))
            },
            None => None,
        },
    }
}

/// Whether the glue emitter can handle the method's return type.
pub open spec fn jni_ret_supported(f: FnModel) -> bool {
    jni_ret_of(f) is Some
}

/// Parameter declarations of the captured arguments as they are spelled in
/// the glue text, in declaration order.
pub open spec fn glue_cap_params(args: Seq<ArgModel>) -> Seq<Seq<char>>
    decreases args.len(),
{
    if args.len() == 0 {
        Seq::empty()
    } else {
        let rest = glue_cap_params(args.drop_last());
        match args.last() {
            ArgModel::Captured { name, ty } => rest.push(name + " : "@ + param_text_of(ty).unwrap()),
            _ => rest,
        }
    }
}

/// The conversion-call expressions handing each captured argument to the
/// bound method, in declaration order.
pub open spec fn glue_inner_args(args: Seq<ArgModel>) -> Seq<Seq<char>>
    decreases args.len(),
{
    if args.len() == 0 {
        Seq::empty()
    } else {
        let rest = glue_inner_args(args.drop_last());
        match args.last() {
            ArgModel::Captured { name, ty } => rest.push(
                "roast :: convert :: convert_arg_"@ + arg_conv_of(ty).unwrap() + " ( & env , "@
                    + name + " )"@,
            ),
            _ => rest,
        }
    }
}

/// The full parameter list of one glue function: the environment handle, the
/// class or instance reference, then one boundary-typed parameter per
/// captured argument.
pub open spec fn glue_param_texts(f: FnModel) -> Seq<Seq<char>> {
    let env = if f.ret is None && glue_inner_args(f.args).len() == 0 {
        "_env : roast :: JNIEnv"@
    } else {
        "env : roast :: JNIEnv"@
    };
    let cls = if spec_is_static(f.args) {
        "_class : roast :: JClass"@
    } else {
        "_obj : roast :: JObject"@
    };
    seq![env, cls] + glue_cap_params(f.args)
}

/// A parenthesized, comma-joined token group.
pub open spec fn paren_group(items: Seq<Seq<char>>) -> Seq<char> {
    if items.len() == 0 {
        " ( )"@
    } else {
        " ( "@ + join_with(items, " , "@) + " )"@
    }
}

/// The call of the bound method by its original declared name.
pub open spec fn glue_call_text(entity: Seq<char>, f: FnModel) -> Seq<char> {
    entity + " :: "@ + f.name + paren_group(glue_inner_args(f.args))
}

/// The text of one exported glue function.
pub open spec fn glue_fn_text(entity: Seq<char>, f: FnModel) -> Seq<char> {
    "# [ no_mangle ] pub extern \"system\" fn Host_"@ + entity + "_"@ + camel_of(f.name)
        + paren_group(glue_param_texts(f)) + (match f.ret {
        None => " { "@ + glue_call_text(entity, f) + " }"@,
        Some(t) => " -> "@ + ret_text_of(t).unwrap() + " { roast :: convert :: convert_retval_"@
            + ret_conv_of(t).unwrap() + " ( & env , "@ + glue_call_text(entity, f) + " ) }"@,
    })
}

/// The glue function texts of all methods, in discovery order.
pub open spec fn glue_fn_texts(entity: Seq<char>, fns: Seq<FnModel>) -> Seq<Seq<char>>
    decreases fns.len(),
{
    if fns.len() == 0 {
        Seq::empty()
    } else {
        glue_fn_texts(entity, fns.drop_last()).push(glue_fn_text(entity, fns.last()))
    }
}

/// The complete glue artifact: one function per method, joined as a token
/// stream.
pub open spec fn glue_text(e: EntityModel) -> Seq<char> {
    join_with(glue_fn_texts(e.name, e.fns), " "@)
}

/// Takes a derived function and returns its native-boundary return type name
/// (`None` for a method that returns nothing), or the one reported error when
/// the return type is outside the mapping table.
pub fn rust_to_jni_return_type(func: &DerivedFn) -> (r: Result<Option<String>, ConversionError>)
    ensures
        match r {
            Ok(None) => jni_ret_of(func@) == Some(None::<Seq<char>>),
            Ok(Some(s)) => jni_ret_of(func@) == Some(Some(s@)),
            Err(e) => jni_ret_of(func@) is None && reports_unsupported_ret(e, func@),
        },
{
    match &func.return_type {
        None => Ok(None),
        Some(t) => match rust_to_jni_type(t.as_str()) {
            Some(v) => if str_eq(v, "roast::JString") {
                Ok(Some(String::from_str("roast::jstring")))
            } else {
                Ok(Some(String::from_str(v)))
            },
            None => Err(
                ConversionError::UnsupportedReturnType { rt: t.clone(), func: func.name.clone() },
            ),
        },
    }
}

/// Renders a parenthesized, comma-joined token group.
fn paren_group_exec(items: &Vec<String>) -> (r: String)
    ensures
        r@ == paren_group(items.deep_view()),
{
    if items.len() == 0 {
        String::from_str(" ( )")
    } else {
        let joined = join_strs(items, " , ");
        let mut s = String::from_str(" ( ");
        s.append(joined.as_str());
        s.append(" )");
        proof {
            assert(s@ =~= paren_group(items.deep_view()));
        }
        s
    }
}

impl DerivedEntity {
    /// Generates the native glue source for all the entity's methods: one
    /// exported function per method, in order, as a space-separated token
    /// stream. Fails with `UnsupportedReturnType` on the first method in
    /// order whose return type is outside the mapping table.
    pub fn export_jni_ffi_tokens(&self) -> (r: Result<String, ConversionError>)
        requires
            entity_args_supported(self@),
        ensures
            (r is Ok) == (forall|i: int|
                0 <= i < self@.fns.len() ==> jni_ret_supported(#[trigger] self@.fns[i])),
            r matches Ok(s) ==> s@ == glue_text(self@),
            r matches Err(e) ==> exists|i: int|
                0 <= i < self@.fns.len() && !jni_ret_supported(#[trigger] self@.fns[i]) && (
                forall|j: int| 0 <= j < i ==> jni_ret_supported(#[trigger] self@.fns[j]))
                    && reports_unsupported_ret(e, self@.fns[i]),
    {
        let mut fn_texts: Vec<String> = Vec::new();
        let n = self.fns.len();
        let mut i: usize = 0;
        while i < n
            invariant
                n == self.fns.len(),
                i <= n,
                entity_args_supported(self@),
                fn_texts.deep_view() == glue_fn_texts(self@.name, self@.fns.take(i as int)),
                forall|j: int| 0 <= j < i ==> jni_ret_supported(#[trigger] self@.fns[j]),
            decreases n - i,
        {
            let f = &self.fns[i];
            proof {
                assert(self.fns.deep_view()[i as int] == self.fns@[i as int].deep_view());
                assert(self@.fns[i as int] == f.deep_view());
                assert(fn_args_supported(f@));
            }
            match rust_to_jni_return_type(f) {
                Ok(_) => {},
                Err(e) => {
                    proof {
                        assert(!jni_ret_supported(self@.fns[i as int]));
                    }
                    return Err(e);
                },
            }

            let mut cap_params: Vec<String> = Vec::new();
            let mut inner_args: Vec<String> = Vec::new();
            let m = f.args.len();
            let mut k: usize = 0;
            while k < m
                invariant
                    m == f.args.len(),
                    k <= m,
                    fn_args_supported(f.deep_view()),
                    f.deep_view().args == f.args.deep_view(),
                    cap_params.deep_view() == glue_cap_params(f.args.deep_view().take(k as int)),
                    inner_args.deep_view() == glue_inner_args(f.args.deep_view().take(k as int)),
                decreases m - k,
            {
                proof {
                    let av = f.args.deep_view();
                    assert(av[k as int] == f.args@[k as int].deep_view());
                    assert(av.take(k + 1).drop_last() =~= av.take(k as int));
                    assert(av.take(k + 1).last() == av[k as int]);
                }
                match &f.args[k] {
                    DerivedFnArg::Captured { name, ty } => {
                        proof {
                            assert(f.deep_view().args[k as int] matches ArgModel::Captured {
                                ty: t,
                                ..
                            } && jni_type_of(t) is Some);
                            crate::mapping::lemma_glue_spellings_agree(ty@);
                        }
                        let mut p = name.clone();
                        p.append(" : ");
                        p.append(glue_param_text(ty.as_str()).unwrap());
                        cap_params.push(p);

                        let mut a = String::from_str("roast :: convert :: convert_arg_");
                        a.append(glue_arg_conv(ty.as_str()).unwrap());
                        a.append(" ( & env , ");
                        a.append(name.as_str());
                        a.append(" )");
                        inner_args.push(a);
                        proof {
                            assert(cap_params.deep_view() =~= glue_cap_params(
                                f.args.deep_view().take(k + 1),
                            ));
                            assert(inner_args.deep_view() =~= glue_inner_args(
                                f.args.deep_view().take(k + 1),
                            ));
                        }
                    },
                    _ => {
                        proof {
                            assert(cap_params.deep_view() =~= glue_cap_params(
                                f.args.deep_view().take(k + 1),
                            ));
                            assert(inner_args.deep_view() =~= glue_inner_args(
                                f.args.deep_view().take(k + 1),
                            ));
                        }
                    },
                }
                k = k + 1;
            }
            proof {
                assert(f.args.deep_view().take(m as int) =~= f.args.deep_view());
            }

            let mut params: Vec<String> = Vec::new();
            if f.return_type.is_none() && inner_args.len() == 0 {
                params.push(String::from_str("_env : roast :: JNIEnv"));
            } else {
                params.push(String::from_str("env : roast :: JNIEnv"));
            }
            if f.is_static() {
                params.push(String::from_str("_class : roast :: JClass"));
            } else {
                params.push(String::from_str("_obj : roast :: JObject"));
            }
            let mut cap_moved = cap_params;
            params.append(&mut cap_moved);
            proof {
                assert(params.deep_view() =~= glue_param_texts(f@));
            }

            let mut call = String::new();
            call.append(self.name.as_str());
            call.append(" :: ");
            call.append(f.name.as_str());
            let inner_group = paren_group_exec(&inner_args);
            call.append(inner_group.as_str());
            proof {
                assert(call@ =~= glue_call_text(self@.name, f@));
            }

            let mut t = String::from_str("# [ no_mangle ] pub extern \"system\" fn Host_");
            t.append(self.name.as_str());
            t.append("_");
            let jname = f.java_name();
            t.append(jname.as_str());
            let param_group = paren_group_exec(&params);
            t.append(param_group.as_str());
            match &f.return_type {
                None => {
                    t.append(" { ");
                    t.append(call.as_str());
                    t.append(" }");
                },
                Some(rt) => {
                    proof {
                        crate::mapping::lemma_glue_spellings_agree(rt@);
                    }
                    t.append(" -> ");
                    t.append(glue_ret_text(rt.as_str()).unwrap());
                    t.append(" { roast :: convert :: convert_retval_");
                    t.append(glue_ret_conv(rt.as_str()).unwrap());
                    t.append(" ( & env , ");
                    t.append(call.as_str());
                    t.append(" ) }");
                },
            }
            proof {
                assert(t@ =~= glue_fn_text(self@.name, f@));
            }
            fn_texts.push(t);
            proof {
                assert(self@.fns.take(i + 1).drop_last() =~= self@.fns.take(i as int));
                assert(self@.fns.take(i + 1).last() == self@.fns[i as int]);
                assert(fn_texts.deep_view() =~= glue_fn_texts(
                    self@.name,
                    self@.fns.take(i + 1),
                ));
            }
            i = i + 1;
        }
        proof {
            assert(self@.fns.take(n as int) =~= self@.fns);
        }
        Ok(join_strs(&fn_texts, " "))
    }
}

} // verus!
