//! The fixed, closed table mapping each supported concrete type to its
//! native-boundary representation and its host declared type, together with
//! the derived spellings the glue emitter needs (boundary parameter types as
//! they appear in the glue text, and the names of the designated conversion
//! functions). The 32-bit unsigned integer has no slot of its own at the
//! boundary: it crosses widened into the 64-bit signed slot.

use vstd::prelude::*;
use crate::strutil::str_eq;

verus! {

/// Host declared type for a concrete type, or `None` when unsupported.
pub open spec fn java_type_of(ty: Seq<char>) -> Option<Seq<char>> {
    if ty == "i8"@ {
        Some("byte"@)
    } else if ty == "i16"@ {
        Some("short"@)
    } else if ty == "u16"@ {
        Some("char"@)
    } else if ty == "i32"@ {
        Some("int"@)
    } else if ty == "u32"@ {
        Some("long"@)
    } else if ty == "i64"@ {
        Some("long"@)
    } else if ty == "f32"@ {
        Some("float"@)
    } else if ty == "f64"@ {
        Some("double"@)
    } else if ty == "bool"@ {
        Some("boolean"@)
    } else if ty == "String"@ {
        Some("String"@)
    } else if ty == "Vec<u8>"@ {
        Some("byte[]"@)
    } else {
        None
    }
}

/// Native-boundary representation type for a concrete type, or `None` when
/// unsupported.
pub open spec fn jni_type_of(ty: Seq<char>) -> Option<Seq<char>> {
    if ty == "i8"@ {
        Some("roast::jbyte"@)
    } else if ty == "i16"@ {
        Some("roast::jshort"@)
    } else if ty == "u16"@ {
        Some("roast::jchar"@)
    } else if ty == "i32"@ {
        Some("roast::jint"@)
    } else if ty == "u32"@ {
        Some("roast::jlong"@)
    } else if ty == "i64"@ {
        Some("roast::jlong"@)
    } else if ty == "f32"@ {
        Some("roast::jfloat"@)
    } else if ty == "f64"@ {
        Some("roast::jdouble"@)
    } else if ty == "bool"@ {
        Some("roast::jboolean"@)
    } else if ty == "String"@ {
        Some("roast::JString"@)
    } else if ty == "Vec<u8>"@ {
        Some("roast::jbyteArray"@)
    } else {
        None
    }
}

/// Boundary parameter type as it is spelled in the emitted glue text.
pub open spec fn param_text_of(ty: Seq<char>) -> Option<Seq<char>> {
    if ty == "i8"@ {
        Some("roast :: jbyte"@)
    } else if ty == "i16"@ {
        Some("roast :: jshort"@)
    } else if ty == "u16"@ {
        Some("roast :: jchar"@)
    } else if ty == "i32"@ {
        Some("roast :: jint"@)
    } else if ty == "u32"@ {
        Some("roast :: jlong"@)
    } else if ty == "i64"@ {
        Some("roast :: jlong"@)
    } else if ty == "f32"@ {
        Some("roast :: jfloat"@)
    } else if ty == "f64"@ {
        Some("roast :: jdouble"@)
    } else if ty == "bool"@ {
        Some("roast :: jboolean"@)
    } else if ty == "String"@ {
        Some("roast :: JString"@)
    } else if ty == "Vec<u8>"@ {
        Some("roast :: jbyteArray"@)
    } else {
        None
    }
}

/// Boundary return type as it is spelled in the emitted glue text; it differs
/// from the parameter spelling only for the text type, whose return handle is
/// the lower-cased string handle.
pub open spec fn ret_text_of(ty: Seq<char>) -> Option<Seq<char>> {
    if ty == "String"@ {
        Some("roast :: jstring"@)
    } else {
        param_text_of(ty)
    }
}

/// Suffix of the designated conversion-from-boundary function for an
/// argument of the given concrete type.
pub open spec fn arg_conv_of(ty: Seq<char>) -> Option<Seq<char>> {
    if ty == "i8"@ {
        Some("jbyte"@)
    } else if ty == "i16"@ {
        Some("jshort"@)
    } else if ty == "u16"@ {
        Some("jchar"@)
    } else if ty == "i32"@ {
        Some("jint"@)
    } else if ty == "u32"@ {
        Some("jlong"@)
    } else if ty == "i64"@ {
        Some("jlong"@)
    } else if ty == "f32"@ {
        Some("jfloat"@)
    } else if ty == "f64"@ {
        Some("jdouble"@)
    } else if ty == "bool"@ {
        Some("jboolean"@)
    } else if ty == "String"@ {
        Some("jstring"@)
    } else if ty == "Vec<u8>"@ {
        Some("jbytearray"@)
    } else {
        None
    }
}

/// Suffix of the designated conversion-to-boundary function for a return
/// value of the given concrete type.
pub open spec fn ret_conv_of(ty: Seq<char>) -> Option<Seq<char>> {
    if ty == "i8"@ {
        Some("i8"@)
    } else if ty == "i16"@ {
        Some("i16"@)
    } else if ty == "u16"@ {
        Some("u16"@)
    } else if ty == "i32"@ {
        Some("i32"@)
    } else if ty == "u32"@ {
        Some("u32"@)
    } else if ty == "i64"@ {
        Some("i64"@)
    } else if ty == "f32"@ {
        Some("f32"@)
    } else if ty == "f64"@ {
        Some("f64"@)
    } else if ty == "bool"@ {
        Some("bool"@)
    } else if ty == "String"@ {
        Some("string"@)
    } else if ty == "Vec<u8>"@ {
        Some("vecu8"@)
    } else {
        None
    }
}

/// The two sides of the mapping table agree on which types are supported: a
/// type has a host declared type iff it has a native-boundary representation
/// type.
pub proof fn lemma_type_tables_agree(ty: Seq<char>)
    ensures
        (java_type_of(ty) is Some) <==> (jni_type_of(ty) is Some),
{
}

/// The glue-text spellings exist for exactly the types that the boundary
/// table supports.
pub proof fn lemma_glue_spellings_agree(ty: Seq<char>)
    ensures
        (param_text_of(ty) is Some) <==> (jni_type_of(ty) is Some),
        (ret_text_of(ty) is Some) <==> (jni_type_of(ty) is Some),
        (arg_conv_of(ty) is Some) <==> (jni_type_of(ty) is Some),
        (ret_conv_of(ty) is Some) <==> (jni_type_of(ty) is Some),
{
}

/// Converts the string representation of a concrete type into its host
/// declared type, or `None` when the type is outside the mapping table.
pub fn rust_to_java_type(ty: &str) -> (r: Option<&'static str>)
    ensures
        match r {
            Some(v) => java_type_of(ty@) == Some(v@),
            None => java_type_of(ty@) is None,
        },
{
    if str_eq(ty, "i8") {
        Some("byte")
    } else if str_eq(ty, "i16") {
        Some("short")
    } else if str_eq(ty, "u16") {
        Some("char")
    } else if str_eq(ty, "i32") {
        Some("int")
    } else if str_eq(ty, "u32") {
        Some("long")
    } else if str_eq(ty, "i64") {
        Some("long")
    } else if str_eq(ty, "f32") {
        Some("float")
    } else if str_eq(ty, "f64") {
        Some("double")
    } else if str_eq(ty, "bool") {
        Some("boolean")
    } else if str_eq(ty, "String") {
        Some("String")
    } else if str_eq(ty, "Vec<u8>") {
        Some("byte[]")
    } else {
        None
    }
}

/// Converts the string representation of a concrete type into its
/// native-boundary representation type, or `None` when unsupported.
pub fn rust_to_jni_type(ty: &str) -> (r: Option<&'static str>)
    ensures
        match r {
            Some(v) => jni_type_of(ty@) == Some(v@),
            None => jni_type_of(ty@) is None,
        },
{
    if str_eq(ty, "i8") {
        Some("roast::jbyte")
    } else if str_eq(ty, "i16") {
        Some("roast::jshort")
    } else if str_eq(ty, "u16") {
        Some("roast::jchar")
    } else if str_eq(ty, "i32") {
        Some("roast::jint")
    } else if str_eq(ty, "u32") {
        Some("roast::jlong")
    } else if str_eq(ty, "i64") {
        Some("roast::jlong")
    } else if str_eq(ty, "f32") {
        Some("roast::jfloat")
    } else if str_eq(ty, "f64") {
        Some("roast::jdouble")
    } else if str_eq(ty, "bool") {
        Some("roast::jboolean")
    } else if str_eq(ty, "String") {
        Some("roast::JString")
    } else if str_eq(ty, "Vec<u8>") {
        Some("roast::jbyteArray")
    } else {
        None
    }
}

/// Boundary parameter spelling for the glue text.
pub(crate) fn glue_param_text(ty: &str) -> (r: Option<&'static str>)
    ensures
        match r {
            Some(v) => param_text_of(ty@) == Some(v@),
            None => param_text_of(ty@) is None,
        },
{
    if str_eq(ty, "i8") {
        Some("roast :: jbyte")
    } else if str_eq(ty, "i16") {
        Some("roast :: jshort")
    } else if str_eq(ty, "u16") {
        Some("roast :: jchar")
    } else if str_eq(ty, "i32") {
        Some("roast :: jint")
    } else if str_eq(ty, "u32") {
        Some("roast :: jlong")
    } else if str_eq(ty, "i64") {
        Some("roast :: jlong")
    } else if str_eq(ty, "f32") {
        Some("roast :: jfloat")
    } else if str_eq(ty, "f64") {
        Some("roast :: jdouble")
    } else if str_eq(ty, "bool") {
        Some("roast :: jboolean")
    } else if str_eq(ty, "String") {
        Some("roast :: JString")
    } else if str_eq(ty, "Vec<u8>") {
        Some("roast :: jbyteArray")
    } else {
        None
    }
}

/// Boundary return spelling for the glue text.
pub(crate) fn glue_ret_text(ty: &str) -> (r: Option<&'static str>)
    ensures
        match r {
            Some(v) => ret_text_of(ty@) == Some(v@),
            None => ret_text_of(ty@) is None,
        },
{
    if str_eq(ty, "String") {
        Some("roast :: jstring")
    } else {
        glue_param_text(ty)
    }
}

/// Conversion-from-boundary function suffix for the glue text.
pub(crate) fn glue_arg_conv(ty: &str) -> (r: Option<&'static str>)
    ensures
        match r {
            Some(v) => arg_conv_of(ty@) == Some(v@),
            None => arg_conv_of(ty@) is None,
        },
{
    if str_eq(ty, "i8") {
        Some("jbyte")
    } else if str_eq(ty, "i16") {
        Some("jshort")
    } else if str_eq(ty, "u16") {
        Some("jchar")
    } else if str_eq(ty, "i32") {
        Some("jint")
    } else if str_eq(ty, "u32") {
        Some("jlong")
    } else if str_eq(ty, "i64") {
        Some("jlong")
    } else if str_eq(ty, "f32") {
        Some("jfloat")
    } else if str_eq(ty, "f64") {
        Some("jdouble")
    } else if str_eq(ty, "bool") {
        Some("jboolean")
    } else if str_eq(ty, "String") {
        Some("jstring")
    } else if str_eq(ty, "Vec<u8>") {
        Some("jbytearray")
    } else {
        None
    }
}

/// Conversion-to-boundary function suffix for the glue text.
pub(crate) fn glue_ret_conv(ty: &str) -> (r: Option<&'static str>)
    ensures
        match r {
            Some(v) => ret_conv_of(ty@) == Some(v@),
            None => ret_conv_of(ty@) is None,
        },
{
    if str_eq(ty, "i8") {
        Some("i8")
    } else if str_eq(ty, "i16") {
        Some("i16")
    } else if str_eq(ty, "u16") {
        Some("u16")
    } else if str_eq(ty, "i32") {
        Some("i32")
    } else if str_eq(ty, "u32") {
        Some("u32")
    } else if str_eq(ty, "i64") {
        Some("i64")
    } else if str_eq(ty, "f32") {
        Some("f32")
    } else if str_eq(ty, "f64") {
        Some("f64")
    } else if str_eq(ty, "bool") {
        Some("bool")
    } else if str_eq(ty, "String") {
        Some("string")
    } else if str_eq(ty, "Vec<u8>") {
        Some("vecu8")
    } else {
        None
    }
}

} // verus!
