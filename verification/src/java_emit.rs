//! The host stub emitter: produces the complete stub class source text for a
//! derived entity, one native-method declaration per method.

use vstd::prelude::*;
use crate::casing::camel_of;
use crate::mapping::{java_type_of, jni_type_of, rust_to_java_type};
use crate::model::{
    ConversionError, DerivedEntity, DerivedFn, DerivedFnArg, ArgModel, EntityModel, FnModel,
    entity_args_supported, fn_args_supported, reports_unsupported_ret, spec_is_static,
};
use crate::strutil::{join_strs, join_with};

verus! {

/// Host declared return type of a method: "void" when the method returns
/// nothing, the mapped host type otherwise, `None` when unsupported.
pub open spec fn java_ret_of(f: FnModel) -> Option<Seq<char>> {
    match f.ret {
        None => Some("void"@),
        Some(t) => java_type_of(t),
    }
}

/// Whether the stub emitter can declare the method's return type.
pub open spec fn java_ret_supported(f: FnModel) -> bool {
    java_ret_of(f) is Some
}

/// Declaration text of one captured argument: host type, a space, and the
/// camelCase argument name.
pub open spec fn java_arg_decl(name: Seq<char>, ty: Seq<char>) -> Seq<char> {
    java_type_of(ty).unwrap() + " "@ + camel_of(name)
}

/// Declaration texts of the captured arguments, in declaration order.
pub open spec fn java_arg_decls(args: Seq<ArgModel>) -> Seq<Seq<char>>
    decreases args.len(),
{
    if args.len() == 0 {
        Seq::empty()
    } else {
        let rest = java_arg_decls(args.drop_last());
        match args.last() {
            ArgModel::Captured { name, ty } => rest.push(java_arg_decl(name, ty)),
            _ => rest,
        }
    }
}

/// One native-method declaration block, preceded by one blank line.
pub open spec fn java_method_decl(f: FnModel) -> Seq<char> {
    "\n\tpublic"@ + (if spec_is_static(f.args) {
        " static"@
    } else {
        Seq::empty()
    }) + " native "@ + java_ret_of(f).unwrap() + " "@ + camel_of(f.name) + "("@ + join_with(
        java_arg_decls(f.args),
        ", "@,
    ) + ");\n"@
}

/// The method declaration blocks of all methods, in discovery order.
pub open spec fn java_methods_text(fns: Seq<FnModel>) -> Seq<char>
    decreases fns.len(),
{
    if fns.len() == 0 {
        Seq::empty()
    } else {
        java_methods_text(fns.drop_last()) + java_method_decl(fns.last())
    }
}

/// The static initializer block loading the shared library.
pub open spec fn java_header(lib: Seq<char>) -> Seq<char> {
    "\n\tstatic {\n\t\tSystem.loadLibrary(\""@ + lib + "\");\n\t}\n"@
}

/// The complete stub class text.
pub open spec fn java_class_text(e: EntityModel, lib: Seq<char>) -> Seq<char> {
    "public class "@ + e.name + " {\n"@ + java_header(lib) + java_methods_text(e.fns) + "\n}\n"@
}

/// Takes a derived function and returns its return type as a host-language
/// string, or the one reported error when the return type is outside the
/// mapping table.
pub fn rust_to_java_return_type(func: &DerivedFn) -> (r: Result<String, ConversionError>)
    ensures
        match r {
            Ok(s) => java_ret_of(func@) == Some(s@),
            Err(e) => java_ret_of(func@) is None && reports_unsupported_ret(e, func@),
        },
{
    match &func.return_type {
        None => Ok(String::from_str("void")),
        Some(t) => match rust_to_java_type(t.as_str()) {
            Some(v) => Ok(String::from_str(v)),
            None => Err(
                ConversionError::UnsupportedReturnType { rt: t.clone(), func: func.name.clone() },
            ),
        },
    }
}

impl DerivedEntity {
    /// Generates the complete stub class file for the derived entity: the
    /// library-loading block, then one declaration per method in order, each
    /// preceded by one blank line. Fails with `UnsupportedReturnType` on the
    /// first method in order whose return type is outside the mapping table.
    pub fn export_java_syntax(&self, lib_name: &str) -> (r: Result<String, ConversionError>)
        requires
            entity_args_supported(self@),
        ensures
            (r is Ok) == (forall|i: int|
                0 <= i < self@.fns.len() ==> java_ret_supported(#[trigger] self@.fns[i])),
            r matches Ok(s) ==> s@ == java_class_text(self@, lib_name@),
            r matches Err(e) ==> exists|i: int|
                0 <= i < self@.fns.len() && !java_ret_supported(#[trigger] self@.fns[i]) && (
                forall|j: int| 0 <= j < i ==> java_ret_supported(#[trigger] self@.fns[j]))
                    && reports_unsupported_ret(e, self@.fns[i]),
    {
        let mut methods = String::new();
        methods.append("\n\tstatic {\n\t\tSystem.loadLibrary(\"");
        methods.append(lib_name);
        methods.append("\");\n\t}\n");
        proof {
            assert(methods@ =~= java_header(lib_name@));
        }

        let n = self.fns.len();
        let mut i: usize = 0;
        while i < n
            invariant
                n == self.fns.len(),
                i <= n,
                entity_args_supported(self@),
                methods@ == java_header(lib_name@) + java_methods_text(self@.fns.take(i as int)),
                forall|j: int| 0 <= j < i ==> java_ret_supported(#[trigger] self@.fns[j]),
            decreases n - i,
        {
            let f = &self.fns[i];
            proof {
                assert(self.fns.deep_view()[i as int] == self.fns@[i as int].deep_view());
                assert(self@.fns[i as int] == f.deep_view());
                assert(fn_args_supported(f@));
            }
            let return_type = match rust_to_java_return_type(f) {
                Ok(v) => v,
                Err(e) => {
                    proof {
                        assert(!java_ret_supported(self@.fns[i as int]));
                    }
                    return Err(e);
                },
            };

            let mut arg_decls: Vec<String> = Vec::new();
            let m = f.args.len();
            let mut k: usize = 0;
            while k < m
                invariant
                    m == f.args.len(),
                    k <= m,
                    fn_args_supported(f.deep_view()),
                    f.deep_view().args == f.args.deep_view(),
                    arg_decls.deep_view() == java_arg_decls(f.args.deep_view().take(k as int)),
                decreases m - k,
            {
                proof {
                    let av = f.args.deep_view();
                    assert(av[k as int] == f.args@[k as int].deep_view());
                    assert(av.take(k + 1).drop_last() =~= av.take(k as int));
                    assert(av.take(k + 1).last() == av[k as int]);
                }
                let arg = &f.args[k];
                match arg {
                    DerivedFnArg::Captured { name, ty } => {
                        proof {
                            assert(f.deep_view().args[k as int] matches ArgModel::Captured {
                                ty: t,
                                ..
                            } && jni_type_of(t) is Some);
                            crate::mapping::lemma_type_tables_agree(ty@);
                        }
                        let host_ty = rust_to_java_type(ty.as_str()).unwrap();
                        let mut decl = String::from_str(host_ty);
                        decl.append(" ");
                        let jn = arg.java_name().unwrap();
                        decl.append(jn.as_str());
                        proof {
                            assert(decl@ =~= java_arg_decl(name@, ty@));
                        }
                        arg_decls.push(decl);
                        proof {
                            assert(arg_decls.deep_view() =~= java_arg_decls(
                                f.args.deep_view().take(k + 1),
                            ));
                        }
                    },
                    _ => {
                        proof {
                            assert(arg_decls.deep_view() =~= java_arg_decls(
                                f.args.deep_view().take(k + 1),
                            ));
                        }
                    },
                }
                k = k + 1;
            }
            proof {
                assert(f.args.deep_view().take(m as int) =~= f.args.deep_view());
            }
            let args_joined = join_strs(&arg_decls, ", ");

            methods.append("\n\tpublic");
            if f.is_static() {
                methods.append(" static");
            }
            methods.append(" native ");
            methods.append(return_type.as_str());
            methods.append(" ");
            let jname = f.java_name();
            methods.append(jname.as_str());
            methods.append("(");
            methods.append(args_joined.as_str());
            methods.append(");\n");
            proof {
                assert(self@.fns.take(i + 1).drop_last() =~= self@.fns.take(i as int));
                assert(self@.fns.take(i + 1).last() == self@.fns[i as int]);
                assert(methods@ =~= java_header(lib_name@) + java_methods_text(
                    self@.fns.take(i + 1),
                ));
            }
            i = i + 1;
        }
        proof {
            assert(self@.fns.take(n as int) =~= self@.fns);
        }

        let mut result = String::from_str("public class ");
        result.append(self.name.as_str());
        result.append(" {\n");
        result.append(methods.as_str());
        result.append("\n}\n");
        proof {
            assert(result@ =~= java_class_text(self@, lib_name@));
        }
        Ok(result)
    }
}

} // verus!
