use ffmapi_bindgen::canon::{canonicalize_type, maybe_primitive_to_boxed, type_to_value_layout};
use ffmapi_bindgen::classify::{primitive_match, primitive_to_java};
use ffmapi_bindgen::javagen::{
    combine_files, generate_java_code, generate_type_class_from_name, generate_type_classes,
    generate_wrapper_class, get_return_type_string, rust_type_to_value_layout,
};
use ffmapi_bindgen::strutil::{capitalize_first_letter, to_lowercase, to_uppercase};
use ffmapi_bindgen::stub::boxify_type;
use ffmapi_bindgen::{ArgKind, FnItem, FnParam, ParamPat, RustFnArg, RustType};

fn path(name: &str) -> RustType {
    RustType::Path {
        segments: vec![name.to_string()],
    }
}

fn arg(name: &str, kind: ArgKind, ty: RustType) -> RustFnArg {
    RustFnArg {
        ident: name.to_string(),
        kind,
        ty,
    }
}

#[test]
fn primitive_match_accepts_the_vocabulary() {
    for p in [
        "i8", "i16", "i32", "i64", "u8", "u16", "u32", "u64", "f32", "f64", "char", "bool",
    ] {
        assert_eq!(primitive_match(&vec![p.to_string()]), Some(p));
    }
    assert_eq!(primitive_match(&vec!["Thing".to_string()]), None);
    assert_eq!(primitive_match(&vec!["isize".to_string()]), None);
    assert_eq!(
        primitive_match(&vec!["std".to_string(), "i32".to_string()]),
        None
    );
    assert_eq!(primitive_match(&vec![]), None);
}

#[test]
fn primitive_to_java_maps_widths() {
    assert_eq!(primitive_to_java("i8"), Some("byte"));
    assert_eq!(primitive_to_java("u8"), Some("byte"));
    assert_eq!(primitive_to_java("i16"), Some("short"));
    assert_eq!(primitive_to_java("u16"), Some("short"));
    assert_eq!(primitive_to_java("i32"), Some("int"));
    assert_eq!(primitive_to_java("u32"), Some("int"));
    assert_eq!(primitive_to_java("char"), Some("int"));
    assert_eq!(primitive_to_java("i64"), Some("long"));
    assert_eq!(primitive_to_java("u64"), Some("long"));
    assert_eq!(primitive_to_java("isize"), Some("long"));
    assert_eq!(primitive_to_java("usize"), Some("long"));
    assert_eq!(primitive_to_java("f32"), Some("float"));
    assert_eq!(primitive_to_java("f64"), Some("double"));
    assert_eq!(primitive_to_java("bool"), Some("boolean"));
    assert_eq!(primitive_to_java("Thing"), None);
}

#[test]
fn classification_covers_the_grammar() {
    assert_eq!(ArgKind::from_type(&path("i32")), Some(ArgKind::Primitive));
    assert_eq!(ArgKind::from_type(&path("Thing")), Some(ArgKind::Boxed));
    assert_eq!(
        ArgKind::from_type(&RustType::Path {
            segments: vec!["crate".to_string(), "Thing".to_string()],
        }),
        Some(ArgKind::Boxed)
    );
    assert_eq!(
        ArgKind::from_type(&RustType::Reference {
            mutable: true,
            elem: Box::new(path("i32")),
        }),
        Some(ArgKind::Address)
    );
    assert_eq!(
        ArgKind::from_type(&RustType::Pointer {
            mutable: false,
            elem: Box::new(path("Thing")),
        }),
        Some(ArgKind::Address)
    );
    assert_eq!(ArgKind::from_type(&RustType::Unsupported), None);
}

#[test]
fn canonical_names_follow_the_policy() {
    assert_eq!(
        canonicalize_type(&arg("x", ArgKind::Primitive, path("i32"))),
        Some("int".to_string())
    );
    assert_eq!(
        canonicalize_type(&arg("x", ArgKind::Boxed, path("Thing"))),
        Some("RThing".to_string())
    );
    let nested = RustType::Path {
        segments: vec!["demo".to_string(), "Thing".to_string()],
    };
    assert_eq!(
        canonicalize_type(&arg("x", ArgKind::Boxed, nested)),
        Some("RThing".to_string())
    );
    assert_eq!(
        canonicalize_type(&arg(
            "x",
            ArgKind::Address,
            RustType::Reference {
                mutable: false,
                elem: Box::new(path("Thing")),
            },
        )),
        Some("Ref<RThing>".to_string())
    );
    assert_eq!(
        canonicalize_type(&arg(
            "x",
            ArgKind::Address,
            RustType::Reference {
                mutable: true,
                elem: Box::new(path("i32")),
            },
        )),
        Some("RefMut<Integer>".to_string())
    );
    assert_eq!(
        canonicalize_type(&arg(
            "x",
            ArgKind::Address,
            RustType::Pointer {
                mutable: true,
                elem: Box::new(path("Thing")),
            },
        )),
        Some("MemorySegment".to_string())
    );
    assert_eq!(
        canonicalize_type(&arg(
            "x",
            ArgKind::Address,
            RustType::Reference {
                mutable: false,
                elem: Box::new(RustType::Unsupported),
            },
        )),
        None
    );
}

#[test]
fn canonicalization_is_deterministic() {
    let a = arg("x", ArgKind::Boxed, path("Widget"));
    let first = canonicalize_type(&a);
    let second = canonicalize_type(&a);
    assert_eq!(first, second);
    assert_eq!(first, Some("RWidget".to_string()));
}

#[test]
fn boxed_wrappers_for_primitive_pointees() {
    assert_eq!(maybe_primitive_to_boxed("byte"), "Byte");
    assert_eq!(maybe_primitive_to_boxed("short"), "Short");
    assert_eq!(maybe_primitive_to_boxed("int"), "Integer");
    assert_eq!(maybe_primitive_to_boxed("long"), "Long");
    assert_eq!(maybe_primitive_to_boxed("float"), "Float");
    assert_eq!(maybe_primitive_to_boxed("double"), "Double");
    assert_eq!(maybe_primitive_to_boxed("boolean"), "Boolean");
    assert_eq!(maybe_primitive_to_boxed("RThing"), "RThing");
}

#[test]
fn layout_tags_for_each_policy() {
    assert_eq!(
        type_to_value_layout(&arg("x", ArgKind::Primitive, path("u16"))),
        "ValueLayout.JAVA_SHORT"
    );
    assert_eq!(
        type_to_value_layout(&arg("x", ArgKind::Primitive, path("char"))),
        "ValueLayout.JAVA_INT"
    );
    assert_eq!(
        type_to_value_layout(&arg("x", ArgKind::Boxed, path("Thing"))),
        "ValueLayout.ADDRESS"
    );
    assert_eq!(
        type_to_value_layout(&arg(
            "x",
            ArgKind::Address,
            RustType::Reference {
                mutable: false,
                elem: Box::new(path("Thing")),
            },
        )),
        "ValueLayout.ADDRESS"
    );
}

#[test]
fn boxify_wraps_the_type_text() {
    assert_eq!(boxify_type(&path("Thing")), "Box<Thing>");
    let nested = RustType::Path {
        segments: vec!["demo".to_string(), "Thing".to_string()],
    };
    assert_eq!(boxify_type(&nested), "Box<demo::Thing>");
    let r = RustType::Reference {
        mutable: true,
        elem: Box::new(path("u8")),
    };
    assert_eq!(boxify_type(&r), "Box<&mut u8>");
    let p = RustType::Pointer {
        mutable: false,
        elem: Box::new(path("u8")),
    };
    assert_eq!(boxify_type(&p), "Box<*const u8>");
}

#[test]
fn case_mapping_is_ascii() {
    assert_eq!(capitalize_first_letter("make_thing"), "Make_thing");
    assert_eq!(capitalize_first_letter(""), "");
    assert_eq!(capitalize_first_letter("Already"), "Already");
    assert_eq!(capitalize_first_letter("9lives"), "9lives");
    assert_eq!(to_lowercase("MakeThing"), "makething");
    assert_eq!(to_uppercase("bool"), "BOOL");
}

#[test]
fn layout_table_matches_canonical_primitives() {
    // A source char is 32 bits and crosses as an int, like i32/u32.
    let (t, l) = rust_type_to_value_layout(&arg("x", ArgKind::Primitive, path("char")));
    assert_eq!((t, l), ("int", "ValueLayout.JAVA_INT"));
    let (t, l) = rust_type_to_value_layout(&arg("x", ArgKind::Primitive, path("f32")));
    assert_eq!((t, l), ("float", "ValueLayout.JAVA_FLOAT"));
    let (t, l) = rust_type_to_value_layout(&arg("x", ArgKind::Boxed, path("Thing")));
    assert_eq!((t, l), ("MemorySegment", "ValueLayout.ADDRESS"));
}

#[test]
fn return_slot_is_a_layout_tag() {
    assert_eq!(get_return_type_string(None), "void");
    assert_eq!(
        get_return_type_string(Some(&arg("return_type", ArgKind::Primitive, path("i32")))),
        "ValueLayout.JAVA_INT"
    );
    assert_eq!(
        get_return_type_string(Some(&arg("return_type", ArgKind::Boxed, path("Thing")))),
        "ValueLayout.ADDRESS"
    );
}

#[test]
fn type_class_from_name_is_minimal() {
    assert_eq!(
        generate_type_class_from_name("Thing"),
        "\npublic class RThing {\n\tMemorySegment value;\n}\n\n"
    );
}

#[test]
fn type_classes_concatenate_in_order() {
    let names = vec!["A".to_string(), "B".to_string()];
    assert_eq!(
        generate_type_classes(&names),
        "\npublic class RA {\n\tMemorySegment value;\n}\n\n\npublic class RB {\n\tMemorySegment value;\n}\n\n"
    );
}

#[test]
fn java_code_pieces_for_one_function() {
    let f = FnItem {
        name: "make_thing".to_string(),
        params: vec![FnParam::Typed {
            pat: ParamPat::Ident("x".to_string()),
            ty: path("i32"),
        }],
        ret: Some(path("Thing")),
    };
    let code = generate_java_code(&f).unwrap();
    assert_eq!(
        code.definitions,
        "private static final MethodHandle make_thingHandle;\n"
    );
    assert_eq!(
        code.drop_definitions,
        "private static final MethodHandle dropMake_thingHandle;\n"
    );
    assert!(code.implementations.contains(
        "make_thingHandle = Global.linker.downcallHandle(\n            \
         Global.lib.find(\"make_thing\").orElseThrow(),\n            \
         FunctionDescriptor.of(ValueLayout.ADDRESS, ValueLayout.JAVA_INT)\n        );\n"
    ));
    assert!(code
        .drop_implementations
        .contains("Global.lib.find(\"make_thing_drop\").orElseThrow()"));
    assert!(code
        .make_method
        .contains("public static Ref<Make_thing> makeMake_thing(int x) throws Throwable {"));
    assert!(code
        .make_method
        .contains("return new Ref<>(new RefCell<>(make_thing));"));
    assert!(code
        .drop_method
        .contains("static void dropMake_thing(Make_thing make_thing) {"));
    // One class per distinct layout name: the parameter layout and the
    // return slot.
    assert_eq!(
        code.type_classes,
        "\npublic class RValueLayout.JAVA_INT {\n\tMemorySegment value;\n}\n\n\npublic class RValueLayout.ADDRESS {\n\tMemorySegment value;\n}\n\n"
    );
}

#[test]
fn wrapper_class_reads_through_the_return_layout() {
    let f = FnItem {
        name: "make_counter".to_string(),
        params: vec![],
        ret: Some(path("i64")),
    };
    let (class_name, contents) = generate_wrapper_class(&f).unwrap();
    assert_eq!(class_name, "Make_counter");
    assert!(contents.contains("public class Make_counter implements AutoCloseable {"));
    assert!(contents.contains("public long getValue() {"));
    assert!(contents.contains("return value.get(ValueLayout.JAVA_LONG, 0);"));
    assert!(contents.contains("RustFunctions.dropMake_counter(this);"));
}

#[test]
fn combined_unit_wraps_the_pieces() {
    let combined = combine_files("DEFS", "IMPLS", "MAKE", "DROP");
    assert!(combined.starts_with(
        "\nimport java.lang.foreign.ValueLayout;\nimport java.lang.invoke.MethodHandle;\n"
    ));
    assert!(combined.contains("DEFS    static {\n        try {\nIMPLS"));
    assert!(combined.contains("MAKEDROP"));
    assert!(combined.ends_with("  }\n}\n"));
}
