use roast::model::{DerivedEntity, DerivedFn, DerivedFnArg};

#[test]
fn ffi_convert_no_methods() {
    let derived = DerivedEntity::new("Entity", vec![]);
    let exported = derived.export_jni_ffi_tokens().unwrap();
    assert!(exported.is_empty());
}

#[test]
fn ffi_convert_static_no_arg_no_ret() {
    let mut fns = vec![];
    fns.push(DerivedFn::new("foobar", None, vec![]));
    let derived = DerivedEntity::new("Entity", fns);
    let exported = derived.export_jni_ffi_tokens().unwrap();
    let expected = "# [ no_mangle ] pub extern \"system\" fn \
                    Host_Entity_foobar ( _env : roast :: JNIEnv , _class : roast :: JClass ) \
                    { Entity :: foobar ( ) }";
    assert_eq!(expected, exported);
}

#[test]
fn ffi_convert_no_arg_no_ret() {
    let mut fns = vec![];
    fns.push(DerivedFn::new(
        "foobar",
        None,
        vec![DerivedFnArg::SelfBorrow { mutable: false }],
    ));
    let derived = DerivedEntity::new("Entity", fns);
    let exported = derived.export_jni_ffi_tokens().unwrap();
    let expected = "# [ no_mangle ] pub extern \"system\" fn \
                    Host_Entity_foobar ( _env : roast :: JNIEnv , _obj : roast :: JObject ) \
                    { Entity :: foobar ( ) }";
    assert_eq!(expected, exported);
}

#[test]
fn ffi_convert_static_no_arg_ret() {
    let mut fns = vec![];
    fns.push(DerivedFn::new("foobar", Some("i32".into()), vec![]));
    let derived = DerivedEntity::new("Entity", fns);
    let exported = derived.export_jni_ffi_tokens().unwrap();
    let expected =
        "# [ no_mangle ] pub extern \"system\" fn \
         Host_Entity_foobar ( env : roast :: JNIEnv , _class : roast :: JClass ) -> \
         roast :: jint { roast :: convert :: convert_retval_i32 ( & env , Entity :: foobar ( ) ) }";
    assert_eq!(expected, exported);
}

#[test]
fn ffi_convert_static_arg_no_ret() {
    let mut fns = vec![];
    fns.push(DerivedFn::new(
        "foobar",
        None,
        vec![DerivedFnArg::Captured {
            name: "a".into(),
            ty: "i64".into(),
        }],
    ));
    let derived = DerivedEntity::new("Entity", fns);
    let exported = derived.export_jni_ffi_tokens().unwrap();
    let expected =
        "# [ no_mangle ] pub extern \"system\" fn Host_Entity_foobar \
         ( env : roast :: JNIEnv , _class : roast :: JClass , a : roast :: jlong ) \
         { Entity :: foobar ( roast :: convert :: convert_arg_jlong ( & env , a ) ) }";
    assert_eq!(expected, exported);
}

#[test]
fn ffi_convert_static_arg_and_ret() {
    let mut fns = vec![];
    fns.push(DerivedFn::new(
        "foobar",
        Some("bool".into()),
        vec![
            DerivedFnArg::Captured {
                name: "a".into(),
                ty: "i32".into(),
            },
            DerivedFnArg::Captured {
                name: "b".into(),
                ty: "i16".into(),
            },
        ],
    ));
    let derived = DerivedEntity::new("Entity", fns);
    let exported = derived.export_jni_ffi_tokens().unwrap();
    let expected = "# [ no_mangle ] pub extern \"system\" fn Host_Entity_foobar \
                    ( env : roast :: JNIEnv , _class : roast :: JClass , \
                    a : roast :: jint , b : roast :: jshort ) -> roast :: jboolean \
                    { roast :: convert :: convert_retval_bool ( & env , Entity :: foobar \
                    ( roast :: convert :: convert_arg_jint ( & env , a ) , \
                    roast :: convert :: convert_arg_jshort ( & env , b ) ) ) }";
    assert_eq!(expected, exported);
}

#[test]
fn ffi_convert_static_two_methods() {
    let mut fns = vec![];
    fns.push(DerivedFn::new(
        "foo",
        Some("bool".into()),
        vec![
            DerivedFnArg::Captured {
                name: "a".into(),
                ty: "i32".into(),
            },
            DerivedFnArg::Captured {
                name: "b".into(),
                ty: "i16".into(),
            },
        ],
    ));
    fns.push(DerivedFn::new("bar", Some("i32".into()), vec![]));

    let derived = DerivedEntity::new("Entity", fns);
    let exported = derived.export_jni_ffi_tokens().unwrap();
    let expected =
        "# [ no_mangle ] pub extern \"system\" fn Host_Entity_foo \
         ( env : roast :: JNIEnv , _class : roast :: JClass , a : roast :: jint , \
         b : roast :: jshort ) -> roast :: jboolean { roast :: convert :: convert_retval_bool \
         ( & env , Entity :: foo ( roast :: convert :: convert_arg_jint ( & env , a ) , \
         roast :: convert :: convert_arg_jshort ( & env , b ) ) ) } \
         # [ no_mangle ] pub extern \"system\" fn Host_Entity_bar ( env : roast :: JNIEnv , \
         _class : roast :: JClass ) -> roast :: jint { roast :: convert :: convert_retval_i32 \
         ( & env , Entity :: bar ( ) ) }";
    assert_eq!(expected, exported);
}

#[test]
fn ffi_convert_mixed_static_nonstatic_two_methods() {
    let mut fns = vec![];
    fns.push(DerivedFn::new(
        "get_foo_bar",
        Some("bool".into()),
        vec![
            DerivedFnArg::Captured {
                name: "a".into(),
                ty: "i32".into(),
            },
            DerivedFnArg::Captured {
                name: "b".into(),
                ty: "i16".into(),
            },
            DerivedFnArg::SelfOwned { mutable: true },
        ],
    ));
    fns.push(DerivedFn::new("bar", Some("i32".into()), vec![]));

    let derived = DerivedEntity::new("Entity", fns);
    let exported = derived.export_jni_ffi_tokens().unwrap();
    let expected =
        "# [ no_mangle ] pub extern \"system\" fn Host_Entity_getFooBar \
         ( env : roast :: JNIEnv , _obj : roast :: JObject , a : roast :: jint , b : \
         roast :: jshort ) -> roast :: jboolean { roast :: convert :: convert_retval_bool \
         ( & env , Entity :: get_foo_bar ( roast :: convert :: convert_arg_jint ( & env , a ) \
         , roast :: convert :: convert_arg_jshort ( & env , b ) ) ) } \
         # [ no_mangle ] pub extern \"system\" fn Host_Entity_bar ( env : roast :: JNIEnv , \
         _class : roast :: JClass ) -> roast :: jint { roast :: convert :: convert_retval_i32 \
         ( & env , Entity :: bar ( ) ) }";
    assert_eq!(expected, exported);
}

#[test]
fn ffi_convert_string_return_value() {
    let mut fns = vec![];
    fns.push(DerivedFn::new("myfunc", Some("String".into()), vec![]));
    let derived = DerivedEntity::new("Entity", fns);
    let exported = derived.export_jni_ffi_tokens().unwrap();
    let expected =
        "# [ no_mangle ] pub extern \"system\" fn Host_Entity_myfunc \
         ( env : roast :: JNIEnv , _class : roast :: JClass ) -> roast :: jstring \
         { roast :: convert :: convert_retval_string ( & env , Entity :: myfunc ( ) ) }";
    assert_eq!(expected, exported);
}

#[test]
fn ffi_convert_string_arg_value() {
    let mut fns = vec![];
    fns.push(DerivedFn::new(
        "my_func",
        None,
        vec![DerivedFnArg::Captured {
            name: "my_var".into(),
            ty: "String".into(),
        }],
    ));
    let derived = DerivedEntity::new("Entity", fns);
    let exported = derived.export_jni_ffi_tokens().unwrap();
    let expected =
        "# [ no_mangle ] pub extern \"system\" fn Host_Entity_myFunc \
         ( env : roast :: JNIEnv , _class : roast :: JClass , my_var : roast :: JString ) \
         { Entity :: my_func ( roast :: convert :: convert_arg_jstring ( & env , my_var ) ) }";
    assert_eq!(expected, exported);
}
