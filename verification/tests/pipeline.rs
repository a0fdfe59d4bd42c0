use ffmapi_bindgen::emit::{finalize, generate_bindings};
use ffmapi_bindgen::state::{process_fn, State};
use ffmapi_bindgen::stub::rewrite_stub;
use ffmapi_bindgen::{ArgKind, BindError, FnItem, FnParam, ParamPat, RustType};

fn path(name: &str) -> RustType {
    RustType::Path {
        segments: vec![name.to_string()],
    }
}

fn param(name: &str, ty: RustType) -> FnParam {
    FnParam::Typed {
        pat: ParamPat::Ident(name.to_string()),
        ty,
    }
}

fn add_fn() -> FnItem {
    FnItem {
        name: "add".to_string(),
        params: vec![param("a", path("i32")), param("b", path("i32"))],
        ret: Some(path("i32")),
    }
}

fn make_thing_fn() -> FnItem {
    FnItem {
        name: "make_thing".to_string(),
        params: vec![param("x", path("i32"))],
        ret: Some(path("Thing")),
    }
}

fn lookup_fn() -> FnItem {
    FnItem {
        name: "lookup".to_string(),
        params: vec![param(
            "r",
            RustType::Reference {
                mutable: false,
                elem: Box::new(path("Thing")),
            },
        )],
        ret: Some(path("i32")),
    }
}

#[test]
fn primitive_stub_keeps_signature() {
    let stub = rewrite_stub(&add_fn()).unwrap();
    assert_eq!(
        stub.stub_fn,
        "#[export_name = \"add\"]\nextern \"C\" fn _add(a: i32, b: i32) -> i32 {\n    add(a, b).into()\n}\n"
    );
    assert_eq!(stub.assertions, "");
}

#[test]
fn primitive_call_descriptor_layout() {
    let mut state = State::new();
    process_fn(&add_fn(), &mut state).unwrap();
    let artifacts = finalize(state, "libadd.so").unwrap();
    assert!(artifacts.holder_units.is_empty());
    assert!(artifacts.glue.contains(
        "\t\t\tadd_handle = getHandle(linker, lib, \"add\", \
         FunctionDescriptor.of(ValueLayout.JAVA_INT, ValueLayout.JAVA_INT, ValueLayout.JAVA_INT));\n"
    ));
    assert!(artifacts
        .glue
        .contains("\tstatic int add(int a, int b) throws Throwable {\n"));
    assert!(artifacts
        .glue
        .contains("\t\treturn (int)add_handle.invokeExact(a, b);"));
}

#[test]
fn boxed_return_gains_holder_and_wrapping() {
    let mut state = State::new();
    process_fn(&make_thing_fn(), &mut state).unwrap();
    assert_eq!(state.types().len(), 1);
    assert_eq!(state.types()[0], "RThing");
    let artifacts = finalize(state, "libthing.so").unwrap();
    assert_eq!(artifacts.holder_units.len(), 1);
    assert_eq!(artifacts.holder_units[0].file_name, "RThing.java");
    assert_eq!(
        artifacts.holder_units[0].contents,
        "import java.lang.foreign.MemorySegment;\n\npublic class RThing {\n\tMemorySegment value;\n\t\n\tRThing(MemorySegment value) {\n\t\tthis.value = value;\n\t}\n}\n"
    );
    assert!(artifacts
        .glue
        .contains("\t\treturn new RThing((MemorySegment)make_thing_handle.invokeExact(x));"));
}

#[test]
fn boxed_stub_boxes_types_and_dereferences_once() {
    let stub = rewrite_stub(&make_thing_fn()).unwrap();
    assert_eq!(
        stub.stub_fn,
        "#[export_name = \"make_thing\"]\nextern \"C\" fn _make_thing(x: i32) -> Box<Thing> {\n    make_thing(x).into()\n}\n"
    );
    assert_eq!(
        stub.assertions,
        "const _: () = {\n    trait SendPlusSync: Send + Sync {}\n    impl SendPlusSync for Thing {}\n};\n"
    );

    let consume = FnItem {
        name: "consume".to_string(),
        params: vec![param("t", path("Thing"))],
        ret: None,
    };
    let stub = rewrite_stub(&consume).unwrap();
    assert_eq!(
        stub.stub_fn,
        "#[export_name = \"consume\"]\nextern \"C\" fn _consume(t: Box<Thing>) {\n    consume(*t).into()\n}\n"
    );
    assert_eq!(stub.stub_fn.matches('*').count(), 1);
}

#[test]
fn reference_parameter_passes_address_through() {
    let stub = rewrite_stub(&lookup_fn()).unwrap();
    assert_eq!(
        stub.stub_fn,
        "#[export_name = \"lookup\"]\nextern \"C\" fn _lookup(r: &Thing) -> i32 {\n    lookup(r).into()\n}\n"
    );
    assert_eq!(stub.assertions, "");

    let mut state = State::new();
    process_fn(&lookup_fn(), &mut state).unwrap();
    // The wrapper takes Ref<RThing>, so the boxed pointee's holder type
    // must be registered and emitted, or the glue would reference an
    // undefined class.
    assert_eq!(state.types().len(), 1);
    assert_eq!(state.types()[0], "RThing");
    let artifacts = finalize(state, "libthing.so").unwrap();
    assert_eq!(artifacts.holder_units.len(), 1);
    assert_eq!(artifacts.holder_units[0].file_name, "RThing.java");
    assert!(artifacts.glue.contains(
        "\t\t\tlookup_handle = getHandle(linker, lib, \"lookup\", \
         FunctionDescriptor.of(ValueLayout.JAVA_INT, ValueLayout.ADDRESS));\n"
    ));
    assert!(artifacts
        .glue
        .contains("\tstatic int lookup(Ref<RThing> r) throws Throwable {\n"));
    assert!(artifacts
        .glue
        .contains("\t\treturn (int)lookup_handle.invokeExact(r.get().value);"));
}

#[test]
fn receiver_parameter_fails_whole_run() {
    let f = FnItem {
        name: "method".to_string(),
        params: vec![FnParam::Receiver],
        ret: None,
    };
    match rewrite_stub(&f) {
        Err(BindError::Receiver { func, param }) => {
            assert_eq!(func, "method");
            assert_eq!(param, 0);
        }
        other => panic!("expected a receiver failure, got {:?}", other.is_ok()),
    }
    let mut state = State::new();
    assert!(process_fn(&f, &mut state).is_err());
    assert!(state.types().is_empty());
    assert!(state.methods().is_empty());

    let run = generate_bindings(&vec![add_fn(), f], "lib.so");
    assert!(matches!(run, Err(BindError::Receiver { .. })));
}

#[test]
fn regeneration_is_idempotent() {
    let fns = vec![add_fn(), make_thing_fn(), lookup_fn()];
    let a1 = generate_bindings(&fns, "libdemo.so").unwrap();
    let a2 = generate_bindings(&fns, "libdemo.so").unwrap();
    assert_eq!(a1.glue, a2.glue);
    assert_eq!(a1.holder_units.len(), a2.holder_units.len());
    for (u1, u2) in a1.holder_units.iter().zip(a2.holder_units.iter()) {
        assert_eq!(u1.file_name, u2.file_name);
        assert_eq!(u1.contents, u2.contents);
    }
}

#[test]
fn registry_dedups_shared_boxed_type() {
    let other = FnItem {
        name: "copy_thing".to_string(),
        params: vec![param("t", path("Thing"))],
        ret: Some(path("Thing")),
    };
    let mut state = State::new();
    process_fn(&make_thing_fn(), &mut state).unwrap();
    process_fn(&other, &mut state).unwrap();
    let names: Vec<&String> = state.types().iter().collect();
    assert_eq!(names.len(), 1);
    assert_eq!(names[0], "RThing");
}

#[test]
fn address_return_fails_emission() {
    let f = FnItem {
        name: "borrow_thing".to_string(),
        params: vec![],
        ret: Some(RustType::Reference {
            mutable: false,
            elem: Box::new(path("Thing")),
        }),
    };
    let mut state = State::new();
    process_fn(&f, &mut state).unwrap();
    match finalize(state, "lib.so") {
        Err(BindError::AddressReturn { func }) => assert_eq!(func, "borrow_thing"),
        other => panic!("expected an address-return failure, got {:?}", other.is_ok()),
    }
}

#[test]
fn unnameable_boxed_type_fails_processing() {
    let f = FnItem {
        name: "odd".to_string(),
        params: vec![param("x", RustType::Path { segments: vec![] })],
        ret: None,
    };
    let mut state = State::new();
    match process_fn(&f, &mut state) {
        Err(BindError::NoCanonicalName { func }) => assert_eq!(func, "odd"),
        other => panic!("expected a canonical-name failure, got {:?}", other.is_ok()),
    }
    assert!(state.types().is_empty());
    assert!(state.methods().is_empty());
}

#[test]
fn destructuring_pattern_fails_analysis() {
    let f = FnItem {
        name: "pair".to_string(),
        params: vec![
            param("a", path("i32")),
            FnParam::Typed {
                pat: ParamPat::Other,
                ty: path("i32"),
            },
        ],
        ret: None,
    };
    match rewrite_stub(&f) {
        Err(BindError::UnsupportedPattern { func, param }) => {
            assert_eq!(func, "pair");
            assert_eq!(param, 1);
        }
        other => panic!("expected a pattern failure, got {:?}", other.is_ok()),
    }
}

#[test]
fn unsupported_type_fails_analysis() {
    let f = FnItem {
        name: "tup".to_string(),
        params: vec![param("t", RustType::Unsupported)],
        ret: None,
    };
    match rewrite_stub(&f) {
        Err(BindError::UnsupportedType { func, param }) => {
            assert_eq!(func, "tup");
            assert_eq!(param, 0);
        }
        other => panic!("expected a type failure, got {:?}", other.is_ok()),
    }
}

#[test]
fn unsupported_return_type_fails_analysis() {
    let f = FnItem {
        name: "mystery".to_string(),
        params: vec![],
        ret: Some(RustType::Unsupported),
    };
    match rewrite_stub(&f) {
        Err(BindError::InvalidReturnType { func }) => assert_eq!(func, "mystery"),
        other => panic!("expected a return-type failure, got {:?}", other.is_ok()),
    }
    assert_eq!(
        ffmapi_bindgen::BindError::InvalidReturnType {
            func: "mystery".to_string()
        }
        .message(),
        "Invalid return type"
    );
}

#[test]
fn stub_checks_return_before_parameters() {
    // The stub rewriter validates the declared return type before the
    // parameters; the aggregator analyzes the parameters first.
    let f = FnItem {
        name: "odd".to_string(),
        params: vec![param("t", RustType::Unsupported)],
        ret: Some(RustType::Unsupported),
    };
    assert!(matches!(
        rewrite_stub(&f),
        Err(BindError::InvalidReturnType { .. })
    ));
    let mut state = State::new();
    assert!(matches!(
        process_fn(&f, &mut state),
        Err(BindError::UnsupportedType { .. })
    ));
}

#[test]
fn mutable_reference_and_pointer_stubs() {
    let f = FnItem {
        name: "touch".to_string(),
        params: vec![
            param(
                "m",
                RustType::Reference {
                    mutable: true,
                    elem: Box::new(path("Thing")),
                },
            ),
            param(
                "p",
                RustType::Pointer {
                    mutable: false,
                    elem: Box::new(path("u8")),
                },
            ),
        ],
        ret: None,
    };
    let stub = rewrite_stub(&f).unwrap();
    assert_eq!(
        stub.stub_fn,
        "#[export_name = \"touch\"]\nextern \"C\" fn _touch(m: &mut Thing, p: *const u8) {\n    touch(m, p).into()\n}\n"
    );

    let mut state = State::new();
    process_fn(&f, &mut state).unwrap();
    let artifacts = finalize(state, "lib.so").unwrap();
    assert!(artifacts
        .glue
        .contains("\tstatic void touch(RefMut<RThing> m, MemorySegment p) throws Throwable {\n"));
    assert!(artifacts
        .glue
        .contains("\t\ttouch_handle.invokeExact(m.get().value, p.get().value);"));
    // The mutable reference's boxed pointee gets its holder; the raw
    // pointer is opaque and registers none.
    assert_eq!(artifacts.holder_units.len(), 1);
    assert_eq!(artifacts.holder_units[0].file_name, "RThing.java");
}

#[test]
fn nested_reference_registers_innermost_pointee() {
    let f = FnItem {
        name: "peek".to_string(),
        params: vec![param(
            "r",
            RustType::Reference {
                mutable: false,
                elem: Box::new(RustType::Reference {
                    mutable: false,
                    elem: Box::new(path("Thing")),
                }),
            },
        )],
        ret: None,
    };
    let mut state = State::new();
    process_fn(&f, &mut state).unwrap();
    assert_eq!(state.types().len(), 1);
    assert_eq!(state.types()[0], "RThing");
    let artifacts = finalize(state, "lib.so").unwrap();
    assert!(artifacts
        .glue
        .contains("\tstatic void peek(Ref<Ref<RThing>> r) throws Throwable {\n"));
    assert_eq!(artifacts.holder_units.len(), 1);
    assert_eq!(artifacts.holder_units[0].file_name, "RThing.java");
}

#[test]
fn void_function_uses_of_void_descriptor() {
    let f = FnItem {
        name: "ping".to_string(),
        params: vec![],
        ret: None,
    };
    let mut state = State::new();
    process_fn(&f, &mut state).unwrap();
    let artifacts = finalize(state, "lib.so").unwrap();
    assert!(artifacts
        .glue
        .contains("\t\t\tping_handle = getHandle(linker, lib, \"ping\", FunctionDescriptor.ofVoid());\n"));
    assert!(artifacts
        .glue
        .contains("\tstatic void ping() throws Throwable {\n"));
    assert!(artifacts.glue.contains("\t\tping_handle.invokeExact();"));
}

#[test]
fn glue_head_and_library_identifier() {
    let mut state = State::new();
    process_fn(&add_fn(), &mut state).unwrap();
    let artifacts = finalize(state, "target/libadd.so").unwrap();
    assert!(artifacts
        .glue
        .starts_with("import java.lang.invoke.MethodHandle;\n"));
    assert!(artifacts.glue.contains(
        "var lib = SymbolLookup.libraryLookup(\"target/libadd.so\", Arena.global());\n"
    ));
    assert!(artifacts.glue.contains("\tstatic MethodHandle add_handle;\n"));
    assert!(artifacts.glue.ends_with("}\n"));
}
