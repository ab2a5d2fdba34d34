use roast::model::{DerivedEntity, DerivedFn, DerivedFnArg};

#[test]
fn func_name_to_java_style() {
    assert_eq!(
        String::from("func"),
        DerivedFn::new("func", None, vec![]).java_name()
    );
    assert_eq!(
        String::from("myFuncName"),
        DerivedFn::new("my_func_name", None, vec![]).java_name()
    );
}

#[test]
fn java_convert_no_methods() {
    let derived = DerivedEntity::new("Entity", vec![]);
    let expected = r#"public class Entity {

	static {
		System.loadLibrary("mylib");
	}

}
"#;
    assert_eq!(expected, derived.export_java_syntax("mylib").unwrap());
}

#[test]
fn java_convert_static_no_arg_no_ret() {
    let mut fns = vec![];
    fns.push(DerivedFn::new("foobar", None, vec![]));
    let derived = DerivedEntity::new("Entity", fns);

    let expected = r#"public class Entity {

	static {
		System.loadLibrary("mylib");
	}

	public static native void foobar();

}
"#;
    assert_eq!(expected, derived.export_java_syntax("mylib").unwrap());
}

#[test]
fn java_convert_no_arg_no_ret() {
    let mut fns = vec![];
    fns.push(DerivedFn::new(
        "foobar",
        None,
        vec![DerivedFnArg::SelfBorrow { mutable: false }],
    ));
    let derived = DerivedEntity::new("Entity", fns);

    let expected = r#"public class Entity {

	static {
		System.loadLibrary("mylib");
	}

	public native void foobar();

}
"#;
    assert_eq!(expected, derived.export_java_syntax("mylib").unwrap());
}

#[test]
fn java_convert_static_no_arg_ret() {
    let mut fns = vec![];
    fns.push(DerivedFn::new("foobar", Some("i32".into()), vec![]));
    let derived = DerivedEntity::new("Entity", fns);

    let expected = r#"public class Entity {

	static {
		System.loadLibrary("mylib");
	}

	public static native int foobar();

}
"#;
    assert_eq!(expected, derived.export_java_syntax("mylib").unwrap());
}

#[test]
fn java_convert_static_arg_no_ret() {
    let mut fns = vec![];
    fns.push(DerivedFn::new(
        "foobar",
        None,
        vec![DerivedFnArg::Captured {
            name: "a".into(),
            ty: "i64".into(),
        }],
    ));
    let derived = DerivedEntity::new("Entity", fns);

    let expected = r#"public class Entity {

	static {
		System.loadLibrary("mylib");
	}

	public static native void foobar(long a);

}
"#;
    assert_eq!(expected, derived.export_java_syntax("mylib").unwrap());
}

#[test]
fn java_convert_static_arg_and_ret() {
    let mut fns = vec![];
    fns.push(DerivedFn::new(
        "foobar",
        Some("bool".into()),
        vec![
            DerivedFnArg::Captured {
                name: "a".into(),
                ty: "i32".into(),
            },
            DerivedFnArg::Captured {
                name: "b".into(),
                ty: "i16".into(),
            },
        ],
    ));
    let derived = DerivedEntity::new("Entity", fns);

    let expected = r#"public class Entity {

	static {
		System.loadLibrary("mylib");
	}

	public static native boolean foobar(int a, short b);

}
"#;
    assert_eq!(expected, derived.export_java_syntax("mylib").unwrap());
}

#[test]
fn java_convert_static_two_methods() {
    let mut fns = vec![];
    fns.push(DerivedFn::new(
        "foo",
        Some("bool".into()),
        vec![
            DerivedFnArg::Captured {
                name: "a".into(),
                ty: "i32".into(),
            },
            DerivedFnArg::Captured {
                name: "b".into(),
                ty: "i16".into(),
            },
        ],
    ));
    fns.push(DerivedFn::new("bar", Some("i32".into()), vec![]));

    let derived = DerivedEntity::new("Entity", fns);

    let expected = r#"public class Entity {

	static {
		System.loadLibrary("mylib");
	}

	public static native boolean foo(int a, short b);

	public static native int bar();

}
"#;
    assert_eq!(expected, derived.export_java_syntax("mylib").unwrap());
}

#[test]
fn java_convert_mixed_static_nonstatic_two_methods() {
    let mut fns = vec![];
    fns.push(DerivedFn::new(
        "foo",
        Some("bool".into()),
        vec![
            DerivedFnArg::Captured {
                name: "a".into(),
                ty: "i32".into(),
            },
            DerivedFnArg::Captured {
                name: "b".into(),
                ty: "i16".into(),
            },
            DerivedFnArg::SelfOwned { mutable: true },
        ],
    ));
    fns.push(DerivedFn::new("bar", Some("i32".into()), vec![]));

    let derived = DerivedEntity::new("Entity", fns);

    let expected = r#"public class Entity {

	static {
		System.loadLibrary("mylib");
	}

	public native boolean foo(int a, short b);

	public static native int bar();

}
"#;
    assert_eq!(expected, derived.export_java_syntax("mylib").unwrap());
}

#[test]
fn java_convert_string_return_value() {
    let mut fns = vec![];
    fns.push(DerivedFn::new("myfunc", Some("String".into()), vec![]));
    let derived = DerivedEntity::new("Entity", fns);

    let expected = r#"public class Entity {

	static {
		System.loadLibrary("mylib");
	}

	public static native String myfunc();

}
"#;
    assert_eq!(expected, derived.export_java_syntax("mylib").unwrap());
}

#[test]
fn java_convert_string_arg_value() {
    let mut fns = vec![];
    fns.push(DerivedFn::new(
        "my_func",
        None,
        vec![DerivedFnArg::Captured {
            name: "my_var".into(),
            ty: "String".into(),
        }],
    ));
    let derived = DerivedEntity::new("Entity", fns);
    let expected = r#"public class Entity {

	static {
		System.loadLibrary("mylib");
	}

	public static native void myFunc(String myVar);

}
"#;
    assert_eq!(expected, derived.export_java_syntax("mylib").unwrap());
}
