//! A second, per-function glue generator beside the aggregate emitter:
//! it produces, for one exported function at a time, the pieces of a
//! `RustFunctions` class built around a global linker, a companion
//! wrapper class with explicit release, and a minimal class per layout
//! name, and combines the accumulated pieces into one unit.

use vstd::prelude::*;

use crate::analyze::args_view;
use crate::analyze::extract_args;
use crate::analyze::extract_args_spec;
use crate::analyze::extract_return_type;
use crate::analyze::return_arg_spec;
use crate::classify::primitive_match;
use crate::classify::primitive_match_spec;
use crate::model::ArgKind;
use crate::model::ArgV;
use crate::model::BindError;
use crate::model::BindErrorV;
use crate::model::FnItem;
use crate::model::FnItemV;
use crate::model::RustFnArg;
use crate::model::RustType;
use crate::model::TypeV;
use crate::state::lemma_register_all_push;
use crate::state::register;
use crate::state::register_all;
use crate::state::register_type;
use crate::strutil::capitalize_first_letter;
use crate::strutil::capitalize_spec;
use crate::strutil::comma_join;
use crate::strutil::concat_seq;
use crate::strutil::join_comma;
use crate::strutil::lemma_concat_seq_push;
use crate::strutil::lower_spec;
use crate::strutil::to_lowercase;

verus! {

/// The target type keyword and the layout tag of one descriptor, keyed by
/// the source primitive name; everything that is not a recognized
/// primitive is carried as an opaque address. A source character is a
/// 32-bit value and crosses the boundary as an `int`, like the other
/// 32-bit primitives.
pub open spec fn jg_prim_spec(p: Seq<char>) -> (Seq<char>, Seq<char>) {
    if p == "f64"@ {
        ("double"@, "ValueLayout.JAVA_DOUBLE"@)
    } else if p == "f32"@ {
        ("float"@, "ValueLayout.JAVA_FLOAT"@)
    } else if p == "i64"@ || p == "isize"@ || p == "u64"@ {
        ("long"@, "ValueLayout.JAVA_LONG"@)
    } else if p == "i32"@ || p == "u32"@ || p == "char"@ {
        ("int"@, "ValueLayout.JAVA_INT"@)
    } else if p == "i16"@ || p == "u16"@ {
        ("short"@, "ValueLayout.JAVA_SHORT"@)
    } else if p == "i8"@ || p == "u8"@ {
        ("byte"@, "ValueLayout.JAVA_BYTE"@)
    } else if p == "bool"@ {
        ("boolean"@, "ValueLayout.JAVA_BOOLEAN"@)
    } else {
        ("MemorySegment"@, "ValueLayout.ADDRESS"@)
    }
}

/// The target type keyword and the layout tag of one descriptor.
pub open spec fn jg_layout_spec(a: ArgV) -> (Seq<char>, Seq<char>) {
    match a.kind {
        ArgKind::Primitive => match a.ty {
            TypeV::Path { segments } => match primitive_match_spec(segments) {
                Option::Some(p) => jg_prim_spec(p),
                Option::None => ("MemorySegment"@, "ValueLayout.ADDRESS"@),
            },
            _ => ("MemorySegment"@, "ValueLayout.ADDRESS"@),
        },
        _ => ("MemorySegment"@, "ValueLayout.ADDRESS"@),
    }
}

fn jg_prim(p: &str) -> (r: (&'static str, &'static str))
    ensures
        (r.0@, r.1@) == jg_prim_spec(p@),
{
    let e = crate::strutil::str_eq;
    if e(p, "f64") {
        ("double", "ValueLayout.JAVA_DOUBLE")
    } else if e(p, "f32") {
        ("float", "ValueLayout.JAVA_FLOAT")
    } else if e(p, "i64") || e(p, "isize") || e(p, "u64") {
        ("long", "ValueLayout.JAVA_LONG")
    } else if e(p, "i32") || e(p, "u32") || e(p, "char") {
        ("int", "ValueLayout.JAVA_INT")
    } else if e(p, "i16") || e(p, "u16") {
        ("short", "ValueLayout.JAVA_SHORT")
    } else if e(p, "i8") || e(p, "u8") {
        ("byte", "ValueLayout.JAVA_BYTE")
    } else if e(p, "bool") {
        ("boolean", "ValueLayout.JAVA_BOOLEAN")
    } else {
        ("MemorySegment", "ValueLayout.ADDRESS")
    }
}

/// Derives the target type keyword and the layout tag of one descriptor.
pub fn rust_type_to_value_layout(rust_arg: &RustFnArg) -> (r: (&'static str, &'static str))
    ensures
        (r.0@, r.1@) == jg_layout_spec(rust_arg@),
{
    match rust_arg.kind {
        ArgKind::Primitive => match &rust_arg.ty {
            RustType::Path { segments } => match primitive_match(segments) {
                Option::Some(p) => jg_prim(p),
                Option::None => ("MemorySegment", "ValueLayout.ADDRESS"),
            },
            _ => ("MemorySegment", "ValueLayout.ADDRESS"),
        },
        _ => ("MemorySegment", "ValueLayout.ADDRESS"),
    }
}

/// The return slot of a function descriptor: the layout tag of the
/// return's type — the matching primitive layout for a primitive, the
/// opaque-address layout for a boxed or address-classified return — and
/// void without a return.
pub open spec fn return_type_string_spec(ret: Option<ArgV>) -> Seq<char> {
    match ret {
        Option::None => "void"@,
        Option::Some(a) => jg_layout_spec(a).1,
    }
}

/// Renders the return slot of a function descriptor.
pub fn get_return_type_string(return_type_arg: Option<&RustFnArg>) -> (r: String)
    ensures
        r@ == return_type_string_spec(
            match return_type_arg {
                Option::Some(a) => Option::Some(a@),
                Option::None => Option::None,
            },
        ),
{
    match return_type_arg {
        Option::None => "void".to_owned(),
        Option::Some(arg) => rust_type_to_value_layout(arg).1.to_owned(),
    }
}

/// One minimal class per layout name, around one opaque handle.
pub open spec fn type_class_spec(name: Seq<char>) -> Seq<char> {
    "\npublic class R"@ + name + " {\n\tMemorySegment value;\n}\n\n"@
}

/// Renders the minimal class of one layout name.
pub fn generate_type_class_from_name(name: &str) -> (r: String)
    ensures
        r@ == type_class_spec(name@),
{
    let mut out = "\npublic class R".to_owned();
    out.append(name);
    out.append(" {\n\tMemorySegment value;\n}\n\n");
    out
}

/// The minimal classes of a list of layout names, in order.
pub open spec fn type_classes_spec(names: Seq<Seq<char>>) -> Seq<char> {
    concat_seq(names.map_values(|n: Seq<char>| type_class_spec(n)))
}

/// Renders the minimal classes of a list of layout names.
pub fn generate_type_classes(types: &Vec<String>) -> (r: String)
    ensures
        r@ == type_classes_spec(types.deep_view()),
{
    let ghost tv = types.deep_view();
    let mut out = String::new();
    let mut i: usize = 0;
    while i < types.len()
        invariant
            i <= types.len(),
            tv == types.deep_view(),
            tv.len() == types@.len(),
            out@ == type_classes_spec(tv.take(i as int)),
        decreases types.len() - i,
    {
        proof {
            assert(tv[i as int] == types@[i as int]@);
        }
        let one = generate_type_class_from_name(types[i].as_str());
        out.append(one.as_str());
        proof {
            let f = |n: Seq<char>| type_class_spec(n);
            lemma_concat_seq_push(tv.take(i as int).map_values(f), type_class_spec(tv[i as int]));
            assert(tv.take(i as int).map_values(f).push(type_class_spec(tv[i as int])) =~= tv.take(
                i + 1,
            ).map_values(f));
        }
        i = i + 1;
    }
    proof {
        assert(tv.take(tv.len() as int) =~= tv);
    }
    out
}

/// The declaration of the call handle of one function.
pub open spec fn definitions_spec(fn_name: Seq<char>) -> Seq<char> {
    "private static final MethodHandle "@ + fn_name + "Handle;\n"@
}

/// The declaration of the release handle of one function's class.
pub open spec fn drop_definitions_spec(class_name: Seq<char>) -> Seq<char> {
    "private static final MethodHandle drop"@ + class_name + "Handle;\n"@
}

/// The function descriptor of one call: the return name first, then the
/// parameter layouts in call order.
pub open spec fn param_layouts_spec(ret_string: Seq<char>, layouts: Seq<Seq<char>>) -> Seq<char> {
    if layouts.len() == 0 {
        "FunctionDescriptor.of("@ + ret_string + ")"@
    } else {
        "FunctionDescriptor.of("@ + ret_string + ", "@ + comma_join(layouts) + ")"@
    }
}

/// The initializer of the call handle of one function.
pub open spec fn implementations_spec(fn_name: Seq<char>, param_layouts: Seq<char>) -> Seq<char> {
    "        "@ + fn_name + "Handle = Global.linker.downcallHandle(\n            Global.lib.find(\""@
        + fn_name + "\").orElseThrow(),\n            "@ + param_layouts + "\n        );\n"@
}

/// The initializer of the release handle of one function's class.
pub open spec fn drop_implementations_spec(class_name: Seq<char>, fn_name: Seq<char>) -> Seq<
    char,
> {
    "        drop"@ + class_name + "Handle = Global.linker.downcallHandle(\n            Global.lib.find(\""@
        + fn_name
        + "_drop\").orElseThrow(),\n            FunctionDescriptor.ofVoid(ValueLayout.ADDRESS)\n        );\n"@
}

/// The construction method of one function's class.
pub open spec fn make_method_spec(
    class_name: Seq<char>,
    fn_name: Seq<char>,
    lower_class_name: Seq<char>,
) -> Seq<char> {
    "\n    public static Ref<"@ + class_name + "> make"@ + class_name
        + "(int x) throws Throwable {\n        try (Arena arena = Arena.ofConfined()) {\n            MemorySegment inputSegment = arena.allocate(ValueLayout.JAVA_INT);\n            inputSegment.set(ValueLayout.JAVA_INT, 0, x);\n\n            MemorySegment resultSegment = (MemorySegment) "@
        + fn_name + "Handle.invoke(inputSegment);\n            "@ + class_name + " "@
        + lower_class_name + " = new "@ + class_name
        + "(resultSegment);\n            return new Ref<>(new RefCell<>("@ + lower_class_name
        + "));\n        }\n    }\n    "@
}

/// The release method of one function's class.
pub open spec fn drop_method_spec(class_name: Seq<char>, lower_class_name: Seq<char>) -> Seq<
    char,
> {
    "\n    static void drop"@ + class_name + "("@ + class_name + " "@ + lower_class_name
        + ") {\n        try {\n            drop"@ + class_name + "Handle.invoke("@
        + lower_class_name
        + ".getMemorySegment().address());\n        } catch (Throwable e) {\n            throw new RuntimeException(\"Failed to release "@
        + class_name + " memory\", e);\n        }\n    }\n    "@
}

/// The pieces this generator accumulates for one exported function.
pub struct JavaCode {
    pub definitions: String,
    pub drop_definitions: String,
    pub implementations: String,
    pub drop_implementations: String,
    pub make_method: String,
    pub drop_method: String,
    pub type_classes: String,
}

/// Mathematical shape of a `JavaCode`.
#[verifier::ext_equal]
pub struct JavaCodeV {
    pub definitions: Seq<char>,
    pub drop_definitions: Seq<char>,
    pub implementations: Seq<char>,
    pub drop_implementations: Seq<char>,
    pub make_method: Seq<char>,
    pub drop_method: Seq<char>,
    pub type_classes: Seq<char>,
}

impl View for JavaCode {
    type V = JavaCodeV;

    open spec fn view(&self) -> JavaCodeV {
        JavaCodeV {
            definitions: self.definitions@,
            drop_definitions: self.drop_definitions@,
            implementations: self.implementations@,
            drop_implementations: self.drop_implementations@,
            make_method: self.make_method@,
            drop_method: self.drop_method@,
            type_classes: self.type_classes@,
        }
    }
}

/// The layout tags of a parameter list, in call order.
pub open spec fn jg_layouts(args: Seq<ArgV>) -> Seq<Seq<char>> {
    args.map_values(|a: ArgV| jg_layout_spec(a).1)
}

/// The deduplicated layout names one function contributes, in first-use
/// order: each parameter's layout tag, then the return-type name.
pub open spec fn existing_types_spec(args: Seq<ArgV>, ret: Option<ArgV>) -> Seq<Seq<char>> {
    register(register_all(Seq::empty(), jg_layouts(args)), return_type_string_spec(ret))
}

/// What `generate_java_code` produces for one function, or the failure of
/// its analysis.
pub open spec fn java_code_spec(f: FnItemV) -> Result<JavaCodeV, BindErrorV> {
    match extract_args_spec(f) {
        Result::Err(e) => Result::Err(e),
        Result::Ok(args) => match return_arg_spec(f) {
            Result::Err(e) => Result::Err(e),
            Result::Ok(ret) => {
                let class_name = capitalize_spec(f.name);
                let lower = lower_spec(f.name);
                let rts = return_type_string_spec(ret);
                Result::Ok(
                    JavaCodeV {
                        definitions: definitions_spec(f.name),
                        drop_definitions: drop_definitions_spec(class_name),
                        implementations: implementations_spec(
                            f.name,
                            param_layouts_spec(rts, jg_layouts(args)),
                        ),
                        drop_implementations: drop_implementations_spec(class_name, f.name),
                        make_method: make_method_spec(class_name, f.name, lower),
                        drop_method: drop_method_spec(class_name, lower),
                        type_classes: type_classes_spec(existing_types_spec(args, ret)),
                    },
                )
            },
        },
    }
}

/// Generates the glue pieces of one exported function: the handle
/// declarations and initializers, the construction and release methods,
/// and the minimal classes of every layout name the function uses.
pub fn generate_java_code(fn_item: &FnItem) -> (r: Result<JavaCode, BindError>)
    ensures
        match r {
            Result::Ok(c) => java_code_spec(fn_item@) == Result::<JavaCodeV, BindErrorV>::Ok(c@),
            Result::Err(e) => java_code_spec(fn_item@) == Result::<JavaCodeV, BindErrorV>::Err(
                e@,
            ),
        },
{
    let args = match extract_args(fn_item) {
        Result::Err(e) => {
            return Result::Err(e);
        },
        Result::Ok(args) => args,
    };
    let ret = match extract_return_type(fn_item) {
        Result::Err(e) => {
            return Result::Err(e);
        },
        Result::Ok(ret) => ret,
    };
    let ghost argsv = args_view(args@);
    let ghost retv = match &ret {
        Option::Some(a) => Option::Some(a@),
        Option::None => Option::<ArgV>::None,
    };

    let fn_name = &fn_item.name;
    let class_name = capitalize_first_letter(fn_name.as_str());
    let lower_class_name = to_lowercase(fn_name.as_str());

    // The parameter layouts, and the deduplicated layout names.
    let mut params: Vec<String> = Vec::new();
    let mut existing_types: Vec<String> = Vec::new();
    let mut i: usize = 0;
    while i < args.len()
        invariant
            i <= args.len(),
            argsv == args_view(args@),
            argsv.len() == args@.len(),
            params.deep_view() == jg_layouts(argsv.take(i as int)),
            existing_types.deep_view() == register_all(
                Seq::empty(),
                jg_layouts(argsv.take(i as int)),
            ),
        decreases args.len() - i,
    {
        let a = &args[i];
        proof {
            assert(argsv[i as int] == args@[i as int]@);
        }
        let lay = rust_type_to_value_layout(a).1;
        let ghost layv = lay@;
        let ghost params_pre = params.deep_view();
        params.push(lay.to_owned());
        register_type(&mut existing_types, lay.to_owned());
        proof {
            assert(params.deep_view() =~= params_pre.push(layv));
            assert(jg_layouts(argsv.take(i as int)).push(layv) =~= jg_layouts(argsv.take(i + 1)));
            lemma_register_all_push(Seq::empty(), jg_layouts(argsv.take(i as int)), layv);
        }
        i = i + 1;
    }
    proof {
        assert(argsv.take(argsv.len() as int) =~= argsv);
    }

    let return_type_string = match &ret {
        Option::Some(a) => get_return_type_string(Option::Some(a)),
        Option::None => get_return_type_string(Option::None),
    };
    register_type(&mut existing_types, return_type_string.clone());
    let type_classes = generate_type_classes(&existing_types);

    // The handle declarations.
    let mut definitions = "private static final MethodHandle ".to_owned();
    definitions.append(fn_name.as_str());
    definitions.append("Handle;\n");
    let mut drop_definitions = "private static final MethodHandle drop".to_owned();
    drop_definitions.append(class_name.as_str());
    drop_definitions.append("Handle;\n");

    // The function descriptor and the handle initializers.
    let mut param_layouts = "FunctionDescriptor.of(".to_owned();
    param_layouts.append(return_type_string.as_str());
    if params.len() == 0 {
        param_layouts.append(")");
    } else {
        param_layouts.append(", ");
        let joined = join_comma(&params);
        param_layouts.append(joined.as_str());
        param_layouts.append(")");
    }
    let mut implementations = "        ".to_owned();
    implementations.append(fn_name.as_str());
    implementations.append("Handle = Global.linker.downcallHandle(\n            Global.lib.find(\"");
    implementations.append(fn_name.as_str());
    implementations.append("\").orElseThrow(),\n            ");
    implementations.append(param_layouts.as_str());
    implementations.append("\n        );\n");
    let mut drop_implementations = "        drop".to_owned();
    drop_implementations.append(class_name.as_str());
    drop_implementations.append(
        "Handle = Global.linker.downcallHandle(\n            Global.lib.find(\"",
    );
    drop_implementations.append(fn_name.as_str());
    drop_implementations.append(
        "_drop\").orElseThrow(),\n            FunctionDescriptor.ofVoid(ValueLayout.ADDRESS)\n        );\n",
    );

    // The construction method.
    let mut make_method = "\n    public static Ref<".to_owned();
    make_method.append(class_name.as_str());
    make_method.append("> make");
    make_method.append(class_name.as_str());
    make_method.append(
        "(int x) throws Throwable {\n        try (Arena arena = Arena.ofConfined()) {\n            MemorySegment inputSegment = arena.allocate(ValueLayout.JAVA_INT);\n            inputSegment.set(ValueLayout.JAVA_INT, 0, x);\n\n            MemorySegment resultSegment = (MemorySegment) ",
    );
    make_method.append(fn_name.as_str());
    make_method.append("Handle.invoke(inputSegment);\n            ");
    make_method.append(class_name.as_str());
    make_method.append(" ");
    make_method.append(lower_class_name.as_str());
    make_method.append(" = new ");
    make_method.append(class_name.as_str());
    make_method.append("(resultSegment);\n            return new Ref<>(new RefCell<>(");
    make_method.append(lower_class_name.as_str());
    make_method.append("));\n        }\n    }\n    ");

    // The release method.
    let mut drop_method = "\n    static void drop".to_owned();
    drop_method.append(class_name.as_str());
    drop_method.append("(");
    drop_method.append(class_name.as_str());
    drop_method.append(" ");
    drop_method.append(lower_class_name.as_str());
    drop_method.append(") {\n        try {\n            drop");
    drop_method.append(class_name.as_str());
    drop_method.append("Handle.invoke(");
    drop_method.append(lower_class_name.as_str());
    drop_method.append(
        ".getMemorySegment().address());\n        } catch (Throwable e) {\n            throw new RuntimeException(\"Failed to release ",
    );
    drop_method.append(class_name.as_str());
    drop_method.append(" memory\", e);\n        }\n    }\n    ");

    let c = JavaCode {
        definitions,
        drop_definitions,
        implementations,
        drop_implementations,
        make_method,
        drop_method,
        type_classes,
    };
    proof {
        assert(c@ =~= java_code_spec(fn_item@)->Ok_0);
    }
    Result::Ok(c)
}

/// The companion wrapper class of one function: its typed accessor reads
/// the held value through the return type's layout, and closing it
/// releases the handle once.
pub open spec fn wrapper_class_spec(
    class_name: Seq<char>,
    java_type: Seq<char>,
    value_layout: Seq<char>,
) -> Seq<char> {
    "\nimport java.lang.foreign.MemorySegment;\nimport java.lang.foreign.ValueLayout;\n\npublic class "@
        + class_name + " implements AutoCloseable {\n    private MemorySegment value;\n\n    "@
        + class_name
        + "(MemorySegment value) {\n        this.value = value;\n    }\n\n    public "@ + java_type
        + " getValue() {\n        if (value == null) {\n            throw new IllegalStateException(\"MemorySegment has been released.\");\n        }\n        return value.get("@
        + value_layout
        + ", 0);\n    }\n\n    @Override\n    public void close() {\n        if (this.value != null) {\n            RustFunctions.drop"@
        + class_name
        + "(this);\n            this.value = null;\n        }\n    }\n\n    MemorySegment getMemorySegment() {\n        return this.value;\n    }\n}\n"@
}

/// The type keyword and layout tag a wrapper class reads its value with.
pub open spec fn wrapper_class_layout(ret: Option<ArgV>) -> (Seq<char>, Seq<char>) {
    match ret {
        Option::Some(a) => match a.kind {
            ArgKind::Primitive => jg_layout_spec(a),
            _ => ("MemorySegment"@, "ValueLayout.ADDRESS"@),
        },
        Option::None => ("void"@, ""@),
    }
}

/// What `generate_wrapper_class` produces: the class name and the class
/// source, or the failure of the return type.
pub open spec fn wrapper_class_result_spec(f: FnItemV) -> Result<
    (Seq<char>, Seq<char>),
    BindErrorV,
> {
    match return_arg_spec(f) {
        Result::Err(e) => Result::Err(e),
        Result::Ok(ret) => {
            let class_name = capitalize_spec(f.name);
            let (java_type, value_layout) = wrapper_class_layout(ret);
            Result::Ok((class_name, wrapper_class_spec(class_name, java_type, value_layout)))
        },
    }
}

/// Generates the companion wrapper class of one exported function,
/// returning the class name and the class source.
pub fn generate_wrapper_class(fn_item: &FnItem) -> (r: Result<(String, String), BindError>)
    ensures
        match r {
            Result::Ok(c) => wrapper_class_result_spec(fn_item@) == Result::<
                (Seq<char>, Seq<char>),
                BindErrorV,
            >::Ok((c.0@, c.1@)),
            Result::Err(e) => wrapper_class_result_spec(fn_item@) == Result::<
                (Seq<char>, Seq<char>),
                BindErrorV,
            >::Err(e@),
        },
{
    let ret = match extract_return_type(fn_item) {
        Result::Err(e) => {
            return Result::Err(e);
        },
        Result::Ok(ret) => ret,
    };
    let ghost retv = match &ret {
        Option::Some(a) => Option::Some(a@),
        Option::None => Option::<ArgV>::None,
    };
    let class_name = capitalize_first_letter(fn_item.name.as_str());
    let (java_type, value_layout): (String, String) = match &ret {
        Option::Some(arg) => match arg.kind {
            ArgKind::Primitive => {
                let (t, l) = rust_type_to_value_layout(arg);
                (t.to_owned(), l.to_owned())
            },
            _ => ("MemorySegment".to_owned(), "ValueLayout.ADDRESS".to_owned()),
        },
        Option::None => ("void".to_owned(), String::new()),
    };
    proof {
        reveal_strlit("");
        assert(""@ =~= Seq::<char>::empty());
        assert((java_type@, value_layout@) == wrapper_class_layout(retv));
    }

    let mut contents =
        "\nimport java.lang.foreign.MemorySegment;\nimport java.lang.foreign.ValueLayout;\n\npublic class ".to_owned();
    contents.append(class_name.as_str());
    contents.append(" implements AutoCloseable {\n    private MemorySegment value;\n\n    ");
    contents.append(class_name.as_str());
    contents.append("(MemorySegment value) {\n        this.value = value;\n    }\n\n    public ");
    contents.append(java_type.as_str());
    contents.append(
        " getValue() {\n        if (value == null) {\n            throw new IllegalStateException(\"MemorySegment has been released.\");\n        }\n        return value.get(",
    );
    contents.append(value_layout.as_str());
    contents.append(
        ", 0);\n    }\n\n    @Override\n    public void close() {\n        if (this.value != null) {\n            RustFunctions.drop",
    );
    contents.append(class_name.as_str());
    contents.append(
        "(this);\n            this.value = null;\n        }\n    }\n\n    MemorySegment getMemorySegment() {\n        return this.value;\n    }\n}\n",
    );
    Result::Ok((class_name, contents))
}

/// The fixed head of the combined unit.
pub open spec fn combine_header_spec() -> Seq<char> {
    "\nimport java.lang.foreign.ValueLayout;\nimport java.lang.invoke.MethodHandle;\nimport java.lang.foreign.FunctionDescriptor;\n\npublic class RustFunctions {\n"@
}

/// The combined unit: the class head, the accumulated handle
/// declarations, the initializer block around the accumulated
/// initializers, the accumulated construction and release methods, and
/// the closing of the class.
pub open spec fn combine_files_spec(
    definitions: Seq<char>,
    implementations: Seq<char>,
    make_content: Seq<char>,
    drop_content: Seq<char>,
) -> Seq<char> {
    combine_header_spec() + definitions + "    static {\n        try {\n"@ + implementations
        + "    } catch (Throwable e) {\n        throw new RuntimeException(\"Failed to initialize Rust function handles\", e);\n    }\n  }\n"@
        + make_content + drop_content
        + "\n    } catch (Throwable e) {\n        throw new RuntimeException(\"Failed to initialize Rust function handles\", e);\n    }\n  }\n}\n"@
}

/// Combines the accumulated pieces of a run into the one `RustFunctions`
/// unit.
pub fn combine_files(
    definitions: &str,
    implementations: &str,
    make_content: &str,
    drop_content: &str,
) -> (r: String)
    ensures
        r@ == combine_files_spec(definitions@, implementations@, make_content@, drop_content@),
{
    let mut out =
        "\nimport java.lang.foreign.ValueLayout;\nimport java.lang.invoke.MethodHandle;\nimport java.lang.foreign.FunctionDescriptor;\n\npublic class RustFunctions {\n".to_owned();
    out.append(definitions);
    out.append("    static {\n        try {\n");
    out.append(implementations);
    out.append(
        "    } catch (Throwable e) {\n        throw new RuntimeException(\"Failed to initialize Rust function handles\", e);\n    }\n  }\n",
    );
    out.append(make_content);
    out.append(drop_content);
    out.append(
        "\n    } catch (Throwable e) {\n        throw new RuntimeException(\"Failed to initialize Rust function handles\", e);\n    }\n  }\n}\n",
    );
    out
}

} // verus!
