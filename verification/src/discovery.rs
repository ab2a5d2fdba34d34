//! Signature discovery over a parsed source tree: for a target identifier,
//! collect every public method defined in any implementation block for that
//! type, in file order then declaration order.
//!
//! The parsed surface is modelled by plain records: each file contributes its
//! implementation blocks, each block the segments of its target type path and
//! its methods, each method its visibility, name, argument shapes and return
//! shape. Argument or return shapes the generator does not understand make
//! the whole discovery step fail, reported here as `None`.

use vstd::prelude::*;
use crate::casing::{pascal_of, to_pascal};
use crate::model::{ArgModel, DerivedEntity, DerivedFn, DerivedFnArg, EntityModel, FnModel};
use crate::strutil::str_eq;

verus! {

/// A parsed argument pattern: a plain identifier, or any other shape.
#[derive(Debug)]
pub enum RawPat {
    Named(String),
    Other,
}

/// A parsed type position: a simple named type path, or any other shape.
#[derive(Debug)]
pub enum RawTypeExpr {
    Path(String),
    Other,
}

/// A parsed return position: nothing declared, or a declared type.
#[derive(Debug)]
pub enum RawRet {
    Default,
    Declared(RawTypeExpr),
}

/// A parsed method argument: a self receiver, or a typed argument.
#[derive(Debug)]
pub enum RawArg {
    Receiver { by_ref: bool, mutable: bool },
    Typed { pat: RawPat, ty: RawTypeExpr },
}

/// A parsed method of an implementation block.
#[derive(Debug)]
pub struct RawMethod {
    pub is_public: bool,
    pub name: String,
    pub args: Vec<RawArg>,
    pub ret: RawRet,
}

/// A parsed implementation block: the segments of its target type path, and
/// its methods in declaration order.
#[derive(Debug)]
pub struct ImplBlock {
    pub self_path: Vec<String>,
    pub methods: Vec<RawMethod>,
}

/// One parsed source file: its implementation blocks in declaration order.
#[derive(Debug)]
pub struct SourceFile {
    pub impls: Vec<ImplBlock>,
}

/// Whether any segment of the block's target type path equals the identifier.
pub open spec fn path_matches(self_path: Seq<String>, ident: Seq<char>) -> bool {
    exists|i: int| 0 <= i < self_path.len() && (#[trigger] self_path[i])@ == ident
}

/// Whether discovery understands the argument's shape.
pub open spec fn arg_shape_ok(a: RawArg) -> bool {
    match a {
        RawArg::Typed { pat, ty } => pat is Named && ty is Path,
        RawArg::Receiver { .. } => true,
    }
}

/// Whether discovery understands the return position's shape.
pub open spec fn ret_shape_ok(r: RawRet) -> bool {
    match r {
        RawRet::Default => true,
        RawRet::Declared(t) => t is Path,
    }
}

/// Whether discovery understands every shape in the method's signature.
pub open spec fn method_shape_ok(m: RawMethod) -> bool {
    ret_shape_ok(m.ret) && (forall|i: int|
        0 <= i < m.args@.len() ==> arg_shape_ok(#[trigger] m.args@[i]))
}

/// The normalized form of a well-shaped argument.
pub open spec fn arg_model_of(a: RawArg) -> ArgModel {
    match a {
        RawArg::Receiver { by_ref: true, mutable } => ArgModel::SelfBorrow { mutable },
        RawArg::Receiver { by_ref: false, mutable } => ArgModel::SelfOwned { mutable },
        RawArg::Typed { pat: RawPat::Named(n), ty: RawTypeExpr::Path(t) } => ArgModel::Captured {
            name: n@,
            ty: t@,
        },
        _ => ArgModel::Captured { name: Seq::empty(), ty: Seq::empty() },
    }
}

/// The normalized return type of a well-shaped method.
pub open spec fn ret_model_of(r: RawRet) -> Option<Seq<char>> {
    match r {
        RawRet::Default => None,
        RawRet::Declared(RawTypeExpr::Path(t)) => Some(t@),
        RawRet::Declared(RawTypeExpr::Other) => None,
    }
}

/// The normalized model of a well-shaped method.
pub open spec fn fn_model_of(m: RawMethod) -> FnModel {
    FnModel {
        name: m.name@,
        ret: ret_model_of(m.ret),
        args: Seq::new(m.args@.len(), |i: int| arg_model_of(m.args@[i])),
    }
}

/// The public methods of one implementation block, in declaration order.
pub open spec fn impl_methods(ms: Seq<RawMethod>) -> Seq<FnModel>
    decreases ms.len(),
{
    if ms.len() == 0 {
        Seq::empty()
    } else {
        let rest = impl_methods(ms.drop_last());
        if ms.last().is_public {
            rest.push(fn_model_of(ms.last()))
        } else {
            rest
        }
    }
}

/// The methods contributed by one file's matching implementation blocks.
pub open spec fn file_methods(impls: Seq<ImplBlock>, ident: Seq<char>) -> Seq<FnModel>
    decreases impls.len(),
{
    if impls.len() == 0 {
        Seq::empty()
    } else {
        let rest = file_methods(impls.drop_last(), ident);
        if path_matches(impls.last().self_path@, ident) {
            rest + impl_methods(impls.last().methods@)
        } else {
            rest
        }
    }
}

/// The flattened method list over all files, in traversal order.
pub open spec fn files_methods(files: Seq<SourceFile>, ident: Seq<char>) -> Seq<FnModel>
    decreases files.len(),
{
    if files.len() == 0 {
        Seq::empty()
    } else {
        files_methods(files.drop_last(), ident) + file_methods(files.last().impls@, ident)
    }
}

/// Whether every public method of the block has shapes discovery understands.
pub open spec fn impl_ok(ms: Seq<RawMethod>) -> bool {
    forall|k: int| 0 <= k < ms.len() && (#[trigger] ms[k]).is_public ==> method_shape_ok(ms[k])
}

/// Whether every matching block of the file passes `impl_ok`.
pub open spec fn file_ok(impls: Seq<ImplBlock>, ident: Seq<char>) -> bool {
    forall|j: int|
        0 <= j < impls.len() && path_matches((#[trigger] impls[j]).self_path@, ident) ==> impl_ok(
            impls[j].methods@,
        )
}

/// Whether discovery succeeds on the whole tree for the identifier.
pub open spec fn discovery_ok(files: Seq<SourceFile>, ident: Seq<char>) -> bool {
    forall|i: int| 0 <= i < files.len() ==> file_ok((#[trigger] files[i]).impls@, ident)
}

/// Whether any segment of the path equals the identifier.
fn path_matches_exec(self_path: &Vec<String>, ident: &str) -> (r: bool)
    ensures
        r == path_matches(self_path@, ident@),
{
    let n = self_path.len();
    let mut i: usize = 0;
    while i < n
        invariant
            n == self_path.len(),
            i <= n,
            forall|j: int| 0 <= j < i ==> (#[trigger] self_path@[j])@ != ident@,
        decreases n - i,
    {
        if str_eq(self_path[i].as_str(), ident) {
            return true;
        }
        i = i + 1;
    }
    false
}

/// Extracts the declared return type, `None` standing for a shape discovery
/// does not understand.
fn extract_return_type(ty: &RawRet) -> (r: Option<Option<String>>)
    ensures
        (r is Some) == ret_shape_ok(*ty),
        r matches Some(o) ==> o.deep_view() == ret_model_of(*ty),
{
    match ty {
        RawRet::Default => Some(None),
        RawRet::Declared(RawTypeExpr::Path(t)) => Some(Some(t.clone())),
        RawRet::Declared(RawTypeExpr::Other) => None,
    }
}

/// Normalizes one parsed method, `None` standing for a signature shape
/// discovery does not understand.
fn convert_method(m: &RawMethod) -> (r: Option<DerivedFn>)
    ensures
        (r is Some) == method_shape_ok(*m),
        r matches Some(df) ==> df.deep_view() == fn_model_of(*m),
{
    let mut args: Vec<DerivedFnArg> = Vec::new();
    let n = m.args.len();
    let mut i: usize = 0;
    while i < n
        invariant
            n == m.args@.len(),
            i <= n,
            args@.len() == i,
            forall|j: int| 0 <= j < i ==> arg_shape_ok(#[trigger] m.args@[j]),
            forall|j: int|
                0 <= j < i ==> (#[trigger] args@[j]).deep_view() == arg_model_of(m.args@[j]),
        decreases n - i,
    {
        match &m.args[i] {
            RawArg::Receiver { by_ref, mutable } => {
                if *by_ref {
                    args.push(DerivedFnArg::SelfBorrow { mutable: *mutable });
                    proof {
                        assert(args@.last().deep_view() == arg_model_of(m.args@[i as int]));
                    }
                } else {
                    args.push(DerivedFnArg::SelfOwned { mutable: *mutable });
                    proof {
                        assert(args@.last().deep_view() == arg_model_of(m.args@[i as int]));
                    }
                }
            },
            RawArg::Typed { pat: RawPat::Named(nm), ty: RawTypeExpr::Path(tp) } => {
                args.push(DerivedFnArg::Captured { name: nm.clone(), ty: tp.clone() });
                proof {
                    assert(args@.last().deep_view() == arg_model_of(m.args@[i as int]));
                }
            },
            RawArg::Typed { .. } => {
                proof {
                    assert(!arg_shape_ok(m.args@[i as int]));
                }
                return None;
            },
        }
        i = i + 1;
    }
    let ret = match extract_return_type(&m.ret) {
        Some(o) => o,
        None => {
            return None;
        },
    };
    proof {
        assert(args.deep_view() =~= fn_model_of(*m).args);
    }
    let df = DerivedFn { name: m.name.clone(), return_type: ret, args };
    Some(df)
}

/// Collects the normalized public methods of one implementation block.
fn collect_impl(ib: &ImplBlock) -> (r: Option<Vec<DerivedFn>>)
    ensures
        (r is Some) == impl_ok(ib.methods@),
        r matches Some(v) ==> v.deep_view() == impl_methods(ib.methods@),
{
    let mut out: Vec<DerivedFn> = Vec::new();
    let n = ib.methods.len();
    let mut i: usize = 0;
    while i < n
        invariant
            n == ib.methods@.len(),
            i <= n,
            forall|j: int|
                0 <= j < i && (#[trigger] ib.methods@[j]).is_public ==> method_shape_ok(
                    ib.methods@[j],
                ),
            out.deep_view() == impl_methods(ib.methods@.take(i as int)),
        decreases n - i,
    {
        proof {
            assert(ib.methods@.take(i + 1).drop_last() =~= ib.methods@.take(i as int));
            assert(ib.methods@.take(i + 1).last() == ib.methods@[i as int]);
        }
        let m = &ib.methods[i];
        if m.is_public {
            match convert_method(m) {
                Some(df) => {
                    out.push(df);
                    proof {
                        assert(out.deep_view() =~= impl_methods(ib.methods@.take(i + 1)));
                    }
                },
                None => {
                    proof {
                        assert(ib.methods@[i as int].is_public && !method_shape_ok(
                            ib.methods@[i as int],
                        ));
                    }
                    return None;
                },
            }
        } else {
            proof {
                assert(out.deep_view() =~= impl_methods(ib.methods@.take(i + 1)));
            }
        }
        i = i + 1;
    }
    proof {
        assert(ib.methods@.take(n as int) =~= ib.methods@);
    }
    Some(out)
}

/// Extracts the flattened list of methods for a given identifier from the
/// parsed source tree. `None` reports a signature shape somewhere in a
/// matching block that discovery does not understand; the whole generation
/// pass is then abandoned.
pub fn methods_for_ident(files: &Vec<SourceFile>, ident: &str) -> (r: Option<Vec<DerivedFn>>)
    ensures
        (r is Some) == discovery_ok(files@, ident@),
        r matches Some(v) ==> v.deep_view() == files_methods(files@, ident@),
{
    let mut out: Vec<DerivedFn> = Vec::new();
    let nf = files.len();
    let mut i: usize = 0;
    while i < nf
        invariant
            nf == files@.len(),
            i <= nf,
            forall|j: int| 0 <= j < i ==> file_ok((#[trigger] files@[j]).impls@, ident@),
            out.deep_view() == files_methods(files@.take(i as int), ident@),
        decreases nf - i,
    {
        let file = &files[i];
        let ni = file.impls.len();
        let mut j: usize = 0;
        while j < ni
            invariant
                i < files@.len(),
                file == files@[i as int],
                ni == file.impls@.len(),
                j <= ni,
                forall|j2: int|
                    0 <= j2 < j && path_matches((#[trigger] file.impls@[j2]).self_path@, ident@)
                        ==> impl_ok(file.impls@[j2].methods@),
                out.deep_view() == files_methods(files@.take(i as int), ident@) + file_methods(
                    file.impls@.take(j as int),
                    ident@,
                ),
            decreases ni - j,
        {
            proof {
                assert(file.impls@.take(j + 1).drop_last() =~= file.impls@.take(j as int));
                assert(file.impls@.take(j + 1).last() == file.impls@[j as int]);
            }
            let ib = &file.impls[j];
            if path_matches_exec(&ib.self_path, ident) {
                match collect_impl(ib) {
                    Some(mut v) => {
                        proof {
                            assert(out.deep_view() + v.deep_view() =~= files_methods(
                                files@.take(i as int),
                                ident@,
                            ) + file_methods(file.impls@.take(j + 1), ident@));
                        }
                        out.append(&mut v);
                        proof {
                            assert(out.deep_view() =~= files_methods(files@.take(i as int), ident@)
                                + file_methods(file.impls@.take(j + 1), ident@));
                        }
                    },
                    None => {
                        proof {
                            assert(path_matches(file.impls@[j as int].self_path@, ident@)
                                && !impl_ok(file.impls@[j as int].methods@));
                            assert(!file_ok(files@[i as int].impls@, ident@));
                        }
                        return None;
                    },
                }
            } else {
                proof {
                    assert(out.deep_view() =~= files_methods(files@.take(i as int), ident@)
                        + file_methods(file.impls@.take(j + 1), ident@));
                }
            }
            j = j + 1;
        }
        proof {
            assert(file.impls@.take(ni as int) =~= file.impls@);
            assert(files@.take(i + 1).drop_last() =~= files@.take(i as int));
            assert(files@.take(i + 1).last() == files@[i as int]);
            assert(out.deep_view() =~= files_methods(files@.take(i + 1), ident@));
        }
        i = i + 1;
    }
    proof {
        assert(files@.take(nf as int) =~= files@);
    }
    Some(out)
}

/// Runs discovery for a raw identifier: the identifier is first rewritten to
/// its capitalized host-conventional form, and the resulting entity carries
/// that form as its name.
pub fn derive_entity(files: &Vec<SourceFile>, raw_ident: &str) -> (r: Option<DerivedEntity>)
    ensures
        (r is Some) == discovery_ok(files@, pascal_of(raw_ident@)),
        r matches Some(e) ==> e@ == (EntityModel {
            name: pascal_of(raw_ident@),
            fns: files_methods(files@, pascal_of(raw_ident@)),
        }),
{
    let ident = to_pascal(raw_ident);
    match methods_for_ident(files, ident.as_str()) {
        Some(fns) => Some(DerivedEntity::new(ident.as_str(), fns)),
        None => None,
    }
}

} // verus!
