//! The method model: the normalized structural records the two emitters
//! consume, together with their mathematical views.

use vstd::prelude::*;
use crate::casing::{camel_of, to_camel};
use crate::mapping::jni_type_of;

verus! {

/// The one reported failure: a method whose return type is outside the
/// mapping table.
#[derive(Debug)]
pub enum ConversionError {
    UnsupportedReturnType { func: String, rt: String },
}

/// A method argument: a self receiver (by reference or by value, mutable or
/// not) or a captured argument with a name and a concrete type.
#[derive(Debug)]
pub enum DerivedFnArg {
    SelfBorrow { mutable: bool },
    SelfOwned { mutable: bool },
    Captured { name: String, ty: String },
}

/// A method of the derived entity: name, optional return type, and the
/// argument list in declaration order.
#[derive(Debug)]
pub struct DerivedFn {
    pub name: String,
    pub return_type: Option<String>,
    pub args: Vec<DerivedFnArg>,
}

/// The entity whose methods are being bound.
#[derive(Debug)]
pub struct DerivedEntity {
    pub name: String,
    pub fns: Vec<DerivedFn>,
}

/// Mathematical view of an argument.
pub enum ArgModel {
    SelfBorrow { mutable: bool },
    SelfOwned { mutable: bool },
    Captured { name: Seq<char>, ty: Seq<char> },
}

/// Mathematical view of a method.
pub struct FnModel {
    pub name: Seq<char>,
    pub ret: Option<Seq<char>>,
    pub args: Seq<ArgModel>,
}

/// Mathematical view of an entity.
pub struct EntityModel {
    pub name: Seq<char>,
    pub fns: Seq<FnModel>,
}

impl View for DerivedFnArg {
    type V = ArgModel;

    open spec fn view(&self) -> ArgModel {
        match self {
            DerivedFnArg::SelfBorrow { mutable } => ArgModel::SelfBorrow { mutable: *mutable },
            DerivedFnArg::SelfOwned { mutable } => ArgModel::SelfOwned { mutable: *mutable },
            DerivedFnArg::Captured { name, ty } => ArgModel::Captured { name: name@, ty: ty@ },
        }
    }
}

impl DeepView for DerivedFnArg {
    type V = ArgModel;

    open spec fn deep_view(&self) -> ArgModel {
        self.view()
    }
}

impl View for DerivedFn {
    type V = FnModel;

    open spec fn view(&self) -> FnModel {
        FnModel {
            name: self.name@,
            ret: self.return_type.deep_view(),
            args: self.args.deep_view(),
        }
    }
}

impl DeepView for DerivedFn {
    type V = FnModel;

    open spec fn deep_view(&self) -> FnModel {
        self.view()
    }
}

impl View for DerivedEntity {
    type V = EntityModel;

    open spec fn view(&self) -> EntityModel {
        EntityModel { name: self.name@, fns: self.fns.deep_view() }
    }
}

/// Name of a captured argument, if the argument is one.
pub open spec fn spec_arg_name(a: ArgModel) -> Option<Seq<char>> {
    match a {
        ArgModel::Captured { name, .. } => Some(name),
        _ => None,
    }
}

/// camelCase name of a captured argument, if the argument is one.
pub open spec fn spec_arg_java_name(a: ArgModel) -> Option<Seq<char>> {
    match a {
        ArgModel::Captured { name, .. } => Some(camel_of(name)),
        _ => None,
    }
}

/// A method is static iff its argument list contains no self receiver.
pub open spec fn spec_is_static(args: Seq<ArgModel>) -> bool {
    forall|i: int| 0 <= i < args.len() ==> args[i] is Captured
}

/// Whether a char survives return-type sanitizing.
pub open spec fn keep_char(c: char) -> bool {
    c != '<' && c != '>' && c != ' '
}

/// The sanitized form of a return type: all chars that cannot appear in an
/// identifier-like position removed.
pub open spec fn sanitized(t: Seq<char>) -> Seq<char> {
    t.filter(|c: char| keep_char(c))
}

pub proof fn lemma_sanitized_push(t: Seq<char>, c: char)
    ensures
        sanitized(t.push(c)) == (if keep_char(c) {
            sanitized(t).push(c)
        } else {
            sanitized(t)
        }),
{
    reveal(Seq::filter);
    assert(t.push(c).drop_last() =~= t);
    assert(t.push(c).last() == c);
}

/// Whether every captured argument of the method has a type in the mapping
/// table.
pub open spec fn fn_args_supported(f: FnModel) -> bool {
    forall|i: int|
        0 <= i < f.args.len() ==> match #[trigger] f.args[i] {
            ArgModel::Captured { ty, .. } => jni_type_of(ty) is Some,
            _ => true,
        }
}

/// Whether every captured argument of every method has a supported type.
pub open spec fn entity_args_supported(e: EntityModel) -> bool {
    forall|i: int| 0 <= i < e.fns.len() ==> fn_args_supported(#[trigger] e.fns[i])
}

/// Whether an error value reports the given method's return type as
/// unsupported.
pub open spec fn reports_unsupported_ret(e: ConversionError, f: FnModel) -> bool {
    match e {
        ConversionError::UnsupportedReturnType { func, rt } => func@ == f.name && Some(rt@)
            == f.ret,
    }
}

impl DerivedFnArg {
    /// The declared name of a captured argument.
    pub fn name(&self) -> (r: Option<String>)
        ensures
            r.deep_view() == spec_arg_name(self@),
    {
        match self {
            DerivedFnArg::Captured { name, .. } => Some(name.clone()),
            _ => None,
        }
    }

    /// The camelCase name of a captured argument.
    pub fn java_name(&self) -> (r: Option<String>)
        ensures
            r.deep_view() == spec_arg_java_name(self@),
    {
        match self {
            DerivedFnArg::Captured { name, .. } => Some(to_camel(name.as_str())),
            _ => None,
        }
    }
}

impl DerivedFn {
    pub fn new(name: &str, return_type: Option<String>, args: Vec<DerivedFnArg>) -> (r: Self)
        ensures
            r@ == (FnModel { name: name@, ret: return_type.deep_view(), args: args.deep_view() }),
    {
        DerivedFn { name: String::from_str(name), return_type, args }
    }

    /// If the argument list contains a self receiver this method is
    /// instance-bound, otherwise it is static.
    pub fn is_static(&self) -> (r: bool)
        ensures
            r == spec_is_static(self@.args),
    {
        let n = self.args.len();
        let mut i: usize = 0;
        while i < n
            invariant
                n == self.args.len(),
                i <= n,
                forall|j: int| 0 <= j < i ==> self.args.deep_view()[j] is Captured,
            decreases n - i,
        {
            proof {
                assert(self.args.deep_view()[i as int] == self.args@[i as int].deep_view());
            }
            match &self.args[i] {
                DerivedFnArg::SelfBorrow { .. } => {
                    proof {
                        assert(!(self@.args[i as int] is Captured));
                    }
                    return false;
                },
                DerivedFnArg::SelfOwned { .. } => {
                    proof {
                        assert(!(self@.args[i as int] is Captured));
                    }
                    return false;
                },
                _ => {},
            }
            i = i + 1;
        }
        true
    }

    /// The method name rewritten into the host-language camelCase style.
    pub fn java_name(&self) -> (r: String)
        ensures
            r@ == camel_of(self@.name),
    {
        to_camel(self.name.as_str())
    }

    /// The return type with every char removed that could not stand in a
    /// generated function name.
    pub fn sanitized_return_type(&self) -> (r: Option<String>)
        ensures
            match r {
                Some(s) => self@.ret matches Some(t) && s@ == sanitized(t),
                None => self@.ret is None,
            },
    {
        match &self.return_type {
            None => None,
            Some(t) => {
                let len = t.as_str().unicode_len();
                let mut res = String::new();
                let mut i: usize = 0;
                while i < len
                    invariant
                        len == t@.len(),
                        i <= len,
                        res@ == sanitized(t@.take(i as int)),
                    decreases len - i,
                {
                    let c = t.as_str().get_char(i);
                    proof {
                        assert(t@.take(i + 1 as int) =~= t@.take(i as int).push(t@[i as int]));
                        lemma_sanitized_push(t@.take(i as int), t@[i as int]);
                    }
                    if c != '<' && c != '>' && c != ' ' {
                        let piece = t.as_str().substring_char(i, i + 1);
                        proof {
                            assert(piece@ =~= seq![t@[i as int]]);
                            assert(sanitized(t@.take(i as int)).push(t@[i as int]) =~= sanitized(
                                t@.take(i as int),
                            ) + seq![t@[i as int]]);
                        }
                        res.append(piece);
                    }
                    i = i + 1;
                }
                proof {
                    assert(t@.take(len as int) =~= t@);
                }
                Some(res)
            },
        }
    }
}

impl DerivedEntity {
    /// Creates a new `DerivedEntity`.
    pub fn new(name: &str, fns: Vec<DerivedFn>) -> (r: Self)
        ensures
            r@ == (EntityModel { name: name@, fns: fns.deep_view() }),
    {
        DerivedEntity { name: String::from_str(name), fns }
    }

    /// Returns the name of this derived entity.
    pub fn name(&self) -> (r: &str)
        ensures
            r@ == self@.name,
    {
        self.name.as_str()
    }

    /// Whether every captured argument of every method has a type in the
    /// mapping table; both emitters demand this of their input.
    pub fn args_supported(&self) -> (r: bool)
        ensures
            r == entity_args_supported(self@),
    {
        let n = self.fns.len();
        let mut i: usize = 0;
        while i < n
            invariant
                n == self.fns.len(),
                i <= n,
                forall|j: int| 0 <= j < i ==> fn_args_supported(#[trigger] self.fns.deep_view()[j]),
            decreases n - i,
        {
            let f = &self.fns[i];
            proof {
                assert(self.fns.deep_view()[i as int] == self.fns@[i as int].deep_view());
                assert(f.deep_view().args == f.args.deep_view());
            }
            let m = f.args.len();
            let mut k: usize = 0;
            while k < m
                invariant
                    m == f.args.len(),
                    k <= m,
                    i < self.fns.len(),
                    self.fns.deep_view()[i as int] == f.deep_view(),
                    forall|j: int|
                        0 <= j < k ==> match #[trigger] f.args.deep_view()[j] {
                            ArgModel::Captured { ty, .. } => jni_type_of(ty) is Some,
                            _ => true,
                        },
                decreases m - k,
            {
                proof {
                    assert(f.args.deep_view()[k as int] == f.args@[k as int].deep_view());
                }
                match &f.args[k] {
                    DerivedFnArg::Captured { ty, .. } => {
                        if crate::mapping::rust_to_jni_type(ty.as_str()).is_none() {
                            proof {
                                assert(f.args.deep_view()[k as int] matches ArgModel::Captured {
                                    ty: t,
                                    ..
                                } && jni_type_of(t) is None);
                                assert(!fn_args_supported(f.deep_view()));
                                assert(self@.fns[i as int] == f.deep_view());
                                assert(!entity_args_supported(self@));
                            }
                            return false;
                        }
                    },
                    _ => {},
                }
                k = k + 1;
            }
            proof {
                assert(fn_args_supported(self.fns.deep_view()[i as int]));
            }
            i = i + 1;
        }
        true
    }
}

} // verus!
