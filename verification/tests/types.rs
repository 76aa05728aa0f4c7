use op_signature::{
    parse_arg, parse_numeric_type, parse_type, parse_type_path, parse_type_special,
    parse_type_state, parse_v8_type, Arg, ArgError, Attribute, AttributeArgs, AttributeError,
    AttributeModifier, Attributes, Buffer, BufferMode, External, FnArg, GenericArgument,
    NumericArg, ParsedType, ParsedTypeContainer, Path, PathArguments, PathSegment, Place,
    RefType, Special, TypeExpr, TypePath, V8Arg,
};

fn toks(parts: &[&str]) -> Vec<String> {
    parts.iter().map(|p| p.to_string()).collect()
}

fn seg(name: &str) -> PathSegment {
    PathSegment { ident: name.to_string(), arguments: PathArguments::Absent }
}

fn seg_of(name: &str, args: Vec<GenericArgument>) -> PathSegment {
    PathSegment { ident: name.to_string(), arguments: PathArguments::AngleBracketed(args) }
}

fn path(segments: Vec<PathSegment>, tokens: &[&str]) -> Path {
    Path { leading_colon: false, segments, tokens: toks(tokens) }
}

fn type_path(segments: Vec<PathSegment>, tokens: &[&str]) -> TypePath {
    TypePath { qualified: false, path: path(segments, tokens), tokens: toks(tokens) }
}

fn path_type(segments: Vec<PathSegment>, tokens: &[&str]) -> TypeExpr {
    TypeExpr::Path(type_path(segments, tokens))
}

fn named(name: &str) -> TypeExpr {
    path_type(vec![seg(name)], &[name])
}

fn v8(name: &str) -> TypeExpr {
    path_type(vec![seg("v8"), seg(name)], &["v8", ":", ":", name])
}

fn generic(name: &str, arg: TypeExpr, tokens: &[&str]) -> TypeExpr {
    path_type(vec![seg_of(name, vec![GenericArgument::Type(arg)])], tokens)
}

fn reference(mutable: bool, elem: TypeExpr, tokens: &[&str]) -> TypeExpr {
    TypeExpr::Reference { mutable, elem: Box::new(elem), tokens: toks(tokens) }
}

fn pointer(mutable: bool, elem: TypeExpr, tokens: &[&str]) -> TypeExpr {
    TypeExpr::Ptr { mutable, elem: Box::new(elem), tokens: toks(tokens) }
}

fn slice(elem: TypeExpr, tokens: &[&str]) -> TypeExpr {
    TypeExpr::Slice { elem: Box::new(elem), tokens: toks(tokens) }
}

fn plain() -> Attributes {
    Attributes::default()
}

fn with(modifier: AttributeModifier) -> Attributes {
    Attributes { primary: Some(modifier) }
}

fn buffer(mode: BufferMode) -> Attributes {
    with(AttributeModifier::Buffer(mode))
}

fn attr(name: &str) -> Attribute {
    Attribute {
        inner: false,
        name: name.to_string(),
        args: AttributeArgs::Absent,
        tokens: vec!["#".to_string(), format!("[{name}]")],
    }
}

fn text(s: &str) -> String {
    s.to_string()
}

#[test]
fn numeric_types() {
    assert_eq!(parse_type(plain(), &named("u32")), Ok(Arg::Numeric(NumericArg::u32)));
    assert_eq!(parse_type(plain(), &named("bool")), Ok(Arg::Numeric(NumericArg::bool)));
    assert_eq!(parse_type(plain(), &named("f64")), Ok(Arg::Numeric(NumericArg::F64)));
    assert_eq!(parse_type(plain(), &named("usize")), Ok(Arg::Numeric(NumericArg::usize)));
}

#[test]
fn a_numeric_name_counts_whatever_surrounds_it() {
    let odd = TypeExpr::Path(TypePath {
        qualified: false,
        path: Path { leading_colon: true, segments: vec![seg("u8")], tokens: toks(&[":", ":", "u8"]) },
        tokens: toks(&[":", ":", "u8"]),
    });
    assert_eq!(parse_type(plain(), &odd), Ok(Arg::Numeric(NumericArg::u8)));
}

#[test]
fn numeric_type_of_a_path() {
    assert_eq!(parse_numeric_type(&path(vec![seg("i16")], &["i16"])), Ok(NumericArg::i16));
    assert_eq!(
        parse_numeric_type(&path(vec![seg("String")], &["String"])),
        Err(ArgError::InvalidNumericType(text("String")))
    );
    assert_eq!(
        parse_numeric_type(&path(vec![seg("std"), seg("u8")], &["std", ":", ":", "u8"])),
        Err(ArgError::InvalidNumericType(text("std::u8")))
    );
    assert_eq!(
        parse_numeric_type(&path(vec![], &[])),
        Err(ArgError::InvalidNumericType(text("")))
    );
}

#[test]
fn handle_kind_of_a_name() {
    assert_eq!(parse_v8_type(&text("Uint8Array")), Ok(V8Arg::Uint8Array));
    assert_eq!(parse_v8_type(&text("Map")), Ok(V8Arg::V8Map));
    assert_eq!(parse_v8_type(&text("Nope")), Err(ArgError::InvalidV8Type(text("Nope"))));
}

#[test]
fn the_unit_type_is_void() {
    let unit = TypeExpr::Tuple { elems: vec![], tokens: toks(&["()"]) };
    assert_eq!(parse_type(plain(), &unit), Ok(Arg::Void));
    assert_eq!(parse_type(with(AttributeModifier::String), &unit), Ok(Arg::Void));
}

#[test]
fn other_tuples_need_serialization() {
    let pair =
        TypeExpr::Tuple { elems: vec![named("A"), named("B")], tokens: toks(&["(A , B)"]) };
    assert_eq!(parse_type(plain(), &pair), Err(ArgError::InvalidType(text("(A, B)"))));
    assert_eq!(
        parse_type(with(AttributeModifier::Serde), &pair),
        Ok(Arg::SerdeV8(text("(A, B)")))
    );
}

#[test]
fn small_integers_ignore_the_declared_type() {
    let smi = with(AttributeModifier::Smi);
    assert_eq!(parse_type(smi, &named("ResourceId")), Ok(Arg::Numeric(NumericArg::__SMI__)));
    assert_eq!(parse_type(smi, &named("String")), Ok(Arg::Numeric(NumericArg::__SMI__)));
    let other = TypeExpr::Other { tokens: toks(&["[u8; 4]"]) };
    assert_eq!(parse_type(smi, &other), Ok(Arg::Numeric(NumericArg::__SMI__)));
}

#[test]
fn strings_with_their_packages() {
    let string = with(AttributeModifier::String);
    let std_string = path_type(
        vec![seg("std"), seg("str"), seg("String")],
        &["std", ":", ":", "str", ":", ":", "String"],
    );
    assert_eq!(parse_type(string, &std_string), Ok(Arg::Special(Special::String)));
    let cow = path_type(
        vec![
            seg("std"),
            seg("borrow"),
            seg_of("Cow", vec![GenericArgument::Type(named("str"))]),
        ],
        &["std", ":", ":", "borrow", ":", ":", "Cow", "<", "str", ">"],
    );
    assert_eq!(parse_type(string, &cow), Ok(Arg::Special(Special::CowStr)));
    let other = path_type(
        vec![seg("alloc"), seg("string"), seg("String")],
        &["alloc", ":", ":", "string", ":", ":", "String"],
    );
    assert_eq!(
        parse_type(string, &other),
        Err(ArgError::InvalidTypePath(text("alloc::string::String")))
    );
}

#[test]
fn a_borrowed_string_needs_a_reference() {
    let string = with(AttributeModifier::String);
    assert_eq!(parse_type(string, &named("str")), Err(ArgError::MissingReference(text("str"))));
    let by_ref = reference(false, named("str"), &["&", "str"]);
    assert_eq!(parse_type(string, &by_ref), Ok(Arg::Special(Special::RefStr)));
}

#[test]
fn an_owned_string_takes_no_reference() {
    let string = with(AttributeModifier::String);
    let by_ref = reference(false, named("String"), &["&", "String"]);
    assert_eq!(parse_type(string, &by_ref), Err(ArgError::InvalidReference(text("String"))));
}

#[test]
fn handles_need_a_reference_or_a_wrapper() {
    assert_eq!(
        parse_type(plain(), &v8("Value")),
        Err(ArgError::MissingReference(text("v8::Value")))
    );
    let by_ref = reference(false, v8("Value"), &["&", "v8", ":", ":", "Value"]);
    assert_eq!(parse_type(plain(), &by_ref), Ok(Arg::V8Ref(RefType::Ref, V8Arg::Value)));
    let unknown = reference(false, v8("Nope"), &["&", "v8", ":", ":", "Nope"]);
    assert_eq!(parse_type(plain(), &unknown), Err(ArgError::InvalidV8Type(text("Nope"))));
    let bare_local = reference(false, v8("Local"), &["&", "v8", ":", ":", "Local"]);
    assert_eq!(parse_type(plain(), &bare_local), Err(ArgError::InvalidV8Type(text("Local"))));
}

#[test]
fn wrapped_handles() {
    let local = path_type(
        vec![
            seg("v8"),
            seg_of("Local", vec![GenericArgument::Lifetime, GenericArgument::Type(v8("Object"))]),
        ],
        &["v8", ":", ":", "Local", "<", "'", "s", ",", "v8", ":", ":", "Object", ">"],
    );
    assert_eq!(parse_type(plain(), &local), Ok(Arg::V8Local(V8Arg::Object)));
    let option = generic(
        "Option",
        path_type(
            vec![seg("v8"), seg_of("Local", vec![GenericArgument::Type(v8("Object"))])],
            &["v8", ":", ":", "Local", "<", "v8", ":", ":", "Object", ">"],
        ),
        &["Option", "<", "v8", ":", ":", "Local", "<", "v8", ":", ":", "Object", ">", ">"],
    );
    assert_eq!(parse_type(plain(), &option), Ok(Arg::OptionV8Local(V8Arg::Object)));
    let by_ref = reference(
        false,
        path_type(
            vec![seg("v8"), seg_of("Global", vec![GenericArgument::Type(v8("Object"))])],
            &["v8", ":", ":", "Global", "<", "v8", ":", ":", "Object", ">"],
        ),
        &["&", "v8", ":", ":", "Global", "<", "v8", ":", ":", "Object", ">"],
    );
    assert_eq!(
        parse_type(plain(), &by_ref),
        Err(ArgError::InvalidReference(text("v8::Global<v8::Object>")))
    );
}

#[test]
fn optional_handles_by_reference() {
    let option = generic(
        "Option",
        reference(false, v8("Function"), &["&", "v8", ":", ":", "Function"]),
        &["Option", "<", "&", "v8", ":", ":", "Function", ">"],
    );
    assert_eq!(parse_type(plain(), &option), Ok(Arg::OptionV8Ref(RefType::Ref, V8Arg::Function)));
}

#[test]
fn one_layer_of_option_only() {
    let inner = generic("Option", named("u32"), &["Option", "<", "u32", ">"]);
    let outer = generic("Option", inner, &["Option", "<", "Option", "<", "u32", ">", ">"]);
    assert_eq!(parse_type(plain(), &outer), Err(ArgError::InvalidType(text("Option<u32>"))));
}

#[test]
fn options_of_what_has_no_optional_form() {
    let unit = TypeExpr::Tuple { elems: vec![], tokens: toks(&["()"]) };
    let of_unit = generic("Option", unit, &["Option", "<", "()", ">"]);
    assert_eq!(parse_type(plain(), &of_unit), Err(ArgError::InvalidType(text("()"))));
    let vec_u8 = generic("Vec", named("u8"), &["Vec", "<", "u8", ">"]);
    let of_buffer = generic("Option", vec_u8, &["Option", "<", "Vec", "<", "u8", ">", ">"]);
    assert_eq!(
        parse_type(buffer(BufferMode::Copy), &of_buffer),
        Err(ArgError::InvalidType(text("Option<Vec<u8>>")))
    );
}

#[test]
fn optional_shared_state() {
    let option = generic("Option", named("OpState"), &["Option", "<", "OpState", ">"]);
    assert_eq!(parse_type(plain(), &option), Ok(Arg::Option(Special::OpState)));
}

#[test]
fn shared_cells_hold_special_kinds() {
    let cell = generic("RefCell", named("u32"), &["RefCell", "<", "u32", ">"]);
    let rc = generic("Rc", cell, &["Rc", "<", "RefCell", "<", "u32", ">", ">"]);
    assert_eq!(parse_type(plain(), &rc), Err(ArgError::InvalidType(text("u32"))));
    assert_eq!(
        parse_type_special(plain(), &named("OpState")),
        Ok(Special::OpState)
    );
    assert_eq!(
        parse_type_special(plain(), &named("u32")),
        Err(ArgError::InvalidType(text("u32")))
    );
    assert_eq!(
        parse_type_special(plain(), &named("Unknown")),
        Err(ArgError::InvalidTypePath(text("Unknown")))
    );
}

#[test]
fn a_shared_cell_takes_no_reference() {
    let cell = generic("RefCell", named("OpState"), &["RefCell", "<", "OpState", ">"]);
    let rc = generic("Rc", cell, &["Rc", "<", "RefCell", "<", "OpState", ">", ">"]);
    let by_ref = reference(false, rc, &["&", "Rc", "<", "RefCell", "<", "OpState", ">", ">"]);
    assert_eq!(
        parse_type(plain(), &by_ref),
        Err(ArgError::InvalidReference(text("Rc<RefCell<OpState>>")))
    );
}

#[test]
fn the_shared_state_stands_either_way() {
    assert_eq!(parse_type(plain(), &named("OpState")), Ok(Arg::Special(Special::OpState)));
    let by_ref = reference(false, named("OpState"), &["&", "OpState"]);
    assert_eq!(parse_type(plain(), &by_ref), Ok(Arg::Ref(RefType::Ref, Special::OpState)));
    let qualified = path_type(
        vec![seg("deno_core"), seg("OpState")],
        &["deno_core", ":", ":", "OpState"],
    );
    assert_eq!(
        parse_type(plain(), &qualified),
        Err(ArgError::InvalidTypePath(text("deno_core::OpState")))
    );
}

#[test]
fn fast_call_options() {
    let options = v8("FastApiCallbackOptions");
    assert_eq!(
        parse_type(plain(), &options),
        Ok(Arg::Special(Special::FastApiCallbackOptions))
    );
}

#[test]
fn unknown_paths() {
    assert_eq!(
        parse_type(plain(), &named("ResourceId")),
        Err(ArgError::InvalidTypePath(text("ResourceId")))
    );
    let qualified = TypeExpr::Path(TypePath {
        qualified: true,
        path: path(vec![seg("Trait"), seg("Out")], &["Trait", ":", ":", "Out"]),
        tokens: toks(&["<", "T", "as", "Trait", ">", ":", ":", "Out"]),
    });
    assert_eq!(
        parse_type(plain(), &qualified),
        Err(ArgError::InvalidTypePath(text("<TasTrait>::Out")))
    );
    assert_eq!(
        parse_type(with(AttributeModifier::Serde), &qualified),
        Ok(Arg::SerdeV8(text("Trait::Out")))
    );
}

#[test]
fn other_type_expressions() {
    let array = TypeExpr::Other { tokens: toks(&["[u8 ; 4]"]) };
    assert_eq!(parse_type(plain(), &array), Err(ArgError::InvalidType(text("[u8 ; 4]"))));
    assert_eq!(
        parse_type(with(AttributeModifier::Serde), &array),
        Err(ArgError::InvalidSerdeAttributeType(text("[u8 ; 4]")))
    );
    assert_eq!(
        parse_type(with(AttributeModifier::State), &array),
        Err(ArgError::InvalidStateType(text("[u8 ; 4]")))
    );
    let by_ref = reference(false, TypeExpr::Other { tokens: toks(&["[u8 ; 4]"]) }, &["&", "[u8 ; 4]"]);
    assert_eq!(parse_type(plain(), &by_ref), Err(ArgError::InvalidType(text("&[u8 ; 4]"))));
    let by_ptr = pointer(true, TypeExpr::Other { tokens: toks(&["[u8 ; 4]"]) }, &["*", "mut", "[u8 ; 4]"]);
    assert_eq!(parse_type(plain(), &by_ptr), Err(ArgError::InvalidType(text("*mut[u8 ; 4]"))));
    let bare_slice = slice(named("u8"), &["[u8]"]);
    assert_eq!(parse_type(plain(), &bare_slice), Err(ArgError::InvalidType(text("[u8]"))));
}

#[test]
fn slices_of_numbers_are_buffers() {
    let bytes = reference(false, slice(named("u8"), &["[u8]"]), &["&", "[u8]"]);
    assert_eq!(
        parse_type(buffer(BufferMode::Detach), &bytes),
        Ok(Arg::Buffer(Buffer::Slice(RefType::Ref, NumericArg::u8)))
    );
    assert_eq!(
        parse_type(buffer(BufferMode::Copy), &bytes),
        Err(ArgError::InvalidBufferMode(text("Copy"), text("&[u8]")))
    );
    assert_eq!(
        parse_type(buffer(BufferMode::Unsafe), &bytes),
        Err(ArgError::InvalidBufferMode(text("Unsafe"), text("&[u8]")))
    );
    assert_eq!(parse_type(plain(), &bytes), Err(ArgError::MissingBufferAttribute));
    assert_eq!(
        parse_type(with(AttributeModifier::String), &bytes),
        Err(ArgError::MissingBufferAttribute)
    );
    let words = reference(true, slice(named("u32"), &["[u32]"]), &["&", "mut", "[u32]"]);
    assert_eq!(
        parse_type(buffer(BufferMode::Detach), &words),
        Ok(Arg::Buffer(Buffer::Slice(RefType::Mut, NumericArg::u32)))
    );
}

#[test]
fn slices_of_other_things() {
    let strings = reference(false, slice(named("String"), &["[String]"]), &["&", "[String]"]);
    assert_eq!(
        parse_type(buffer(BufferMode::Detach), &strings),
        Err(ArgError::InvalidNumericType(text("String")))
    );
    let units = reference(
        false,
        slice(TypeExpr::Tuple { elems: vec![], tokens: toks(&["()"]) }, &["[()]"]),
        &["&", "[()]"],
    );
    assert_eq!(
        parse_type(buffer(BufferMode::Detach), &units),
        Err(ArgError::InvalidType(text("&[()]")))
    );
}

#[test]
fn slices_of_untyped_data_are_external() {
    let opaque = reference(true, slice(named("__VOID__"), &["[__VOID__]"]), &["&", "mut", "[__VOID__]"]);
    assert_eq!(parse_type(plain(), &opaque), Ok(Arg::External(External::Ptr(RefType::Mut))));
    let void = reference(false, slice(named("c_void"), &["[c_void]"]), &["&", "[c_void]"]);
    assert_eq!(parse_type(plain(), &void), Ok(Arg::External(External::Ptr(RefType::Ref))));
    assert_eq!(
        parse_type(buffer(BufferMode::Detach), &void),
        Ok(Arg::External(External::Ptr(RefType::Ref)))
    );
    let std_void = reference(
        true,
        slice(
            path_type(
                vec![seg("std"), seg("ffi"), seg("c_void")],
                &["std", ":", ":", "ffi", ":", ":", "c_void"],
            ),
            &["[std :: ffi :: c_void]"],
        ),
        &["&", "mut", "[std :: ffi :: c_void]"],
    );
    assert_eq!(parse_type(plain(), &std_void), Ok(Arg::External(External::Ptr(RefType::Mut))));
    let other = reference(
        false,
        slice(
            path_type(vec![seg("libc"), seg("c_void")], &["libc", ":", ":", "c_void"]),
            &["[libc :: c_void]"],
        ),
        &["&", "[libc :: c_void]"],
    );
    assert_eq!(
        parse_type(plain(), &other),
        Err(ArgError::InvalidNumericType(text("libc::c_void")))
    );
}

fn options(levels: usize, inner: TypeExpr) -> TypeExpr {
    let mut ty = inner;
    for _ in 0..levels {
        let mut tokens = vec!["Option".to_string(), "<".to_string()];
        tokens.extend(ty.tokens().iter().cloned());
        tokens.push(">".to_string());
        let texts: Vec<&str> = tokens.iter().map(|t| t.as_str()).collect();
        ty = generic("Option", ty, &texts);
    }
    ty
}

#[test]
fn nesting_is_read_down_to_the_limit() {
    assert_eq!(op_signature::MAX_NESTING, 16);
    // The number stands sixteen levels down and is read; what fails is the
    // option around the option around it.
    assert_eq!(
        parse_type(plain(), &options(16, named("u32"))),
        Err(ArgError::InvalidType(text("Option<u32>")))
    );
    assert_eq!(
        parse_type(plain(), &options(16, named("Unknown"))),
        Err(ArgError::InvalidTypePath(text("Unknown")))
    );
}

#[test]
fn nesting_beyond_the_limit_is_refused() {
    // The type seventeen levels down is refused without being read.
    assert_eq!(
        parse_type(plain(), &options(17, named("u32"))),
        Err(ArgError::InvalidType(text("u32")))
    );
    assert_eq!(
        parse_type(plain(), &options(17, named("Unknown"))),
        Err(ArgError::InvalidType(text("Unknown")))
    );
    assert_eq!(
        parse_type(plain(), &options(40, named("u32"))),
        Err(ArgError::InvalidType(text(&format!("{}u32{}", "Option<".repeat(23), ">".repeat(23)))))
    );
}

#[test]
fn nesting_of_state_types_has_the_same_limit() {
    let thing = || reference(false, named("Thing"), &["&", "Thing"]);
    assert_eq!(
        parse_type_state(&options(1, thing())),
        Ok(Arg::OptionState(RefType::Ref, text("Thing")))
    );
    assert_eq!(
        parse_type_state(&options(16, named("Thing"))),
        Err(ArgError::InvalidStateType(text("Thing")))
    );
    assert_eq!(
        parse_type_state(&options(17, named("Thing"))),
        Err(ArgError::InvalidStateType(text("Thing")))
    );
    assert_eq!(
        parse_type_state(&options(18, named("Thing"))),
        Err(ArgError::InvalidStateType(text("Option<Thing>")))
    );
    assert_eq!(
        parse_type_state(&options(17, thing())),
        Err(ArgError::InvalidStateType(text("&Thing")))
    );
}

#[test]
fn shared_cells_count_as_a_level() {
    let cell = generic("RefCell", named("OpState"), &["RefCell", "<", "OpState", ">"]);
    let rc = generic("Rc", cell, &["Rc", "<", "RefCell", "<", "OpState", ">", ">"]);
    assert_eq!(
        parse_type(plain(), &options(15, rc)),
        Err(ArgError::InvalidType(text("Rc<RefCell<OpState>>")))
    );
    let cell = generic("RefCell", named("OpState"), &["RefCell", "<", "OpState", ">"]);
    let rc = generic("Rc", cell, &["Rc", "<", "RefCell", "<", "OpState", ">", ">"]);
    assert_eq!(
        parse_type(plain(), &options(16, rc)),
        Err(ArgError::InvalidType(text("OpState")))
    );
}

#[test]
fn pointers_to_untyped_data_are_external() {
    let void = pointer(false, named("c_void"), &["*", "const", "c_void"]);
    assert_eq!(parse_type(plain(), &void), Ok(Arg::External(External::Ptr(RefType::Ref))));
    let std_void = pointer(
        true,
        path_type(
            vec![seg("std"), seg("ffi"), seg("c_void")],
            &["std", ":", ":", "ffi", ":", ":", "c_void"],
        ),
        &["*", "mut", "std", ":", ":", "ffi", ":", ":", "c_void"],
    );
    assert_eq!(parse_type(plain(), &std_void), Ok(Arg::External(External::Ptr(RefType::Mut))));
}

#[test]
fn pointers_to_numbers_are_buffers() {
    let bytes = pointer(false, named("u8"), &["*", "const", "u8"]);
    assert_eq!(
        parse_type(buffer(BufferMode::Detach), &bytes),
        Ok(Arg::Buffer(Buffer::Ptr(RefType::Ref, NumericArg::u8)))
    );
    assert_eq!(
        parse_type(buffer(BufferMode::Unsafe), &bytes),
        Err(ArgError::InvalidBufferMode(text("Unsafe"), text("*constu8")))
    );
    assert_eq!(parse_type(plain(), &bytes), Err(ArgError::MissingBufferAttribute));
    let words = pointer(true, named("u32"), &["*", "mut", "u32"]);
    assert_eq!(
        parse_type(buffer(BufferMode::Detach), &words),
        Ok(Arg::Buffer(Buffer::Ptr(RefType::Mut, NumericArg::u32)))
    );
}

#[test]
fn pointers_to_other_things() {
    let handle = pointer(false, v8("Value"), &["*", "const", "v8", ":", ":", "Value"]);
    assert_eq!(
        parse_type(plain(), &handle),
        Err(ArgError::MissingReference(text("v8::Value")))
    );
    let state = pointer(false, named("OpState"), &["*", "const", "OpState"]);
    assert_eq!(parse_type(plain(), &state), Err(ArgError::InvalidType(text("*constOpState"))));
    let void = pointer(false, named("c_void"), &["*", "const", "c_void"]);
    assert_eq!(
        parse_type(buffer(BufferMode::Detach), &void),
        Err(ArgError::InvalidBufferType(text("c_void")))
    );
    assert_eq!(
        parse_type(with(AttributeModifier::String), &void),
        Err(ArgError::InvalidStringType(text("c_void")))
    );
}

#[test]
fn owned_buffers() {
    let vec_u8 = generic("Vec", named("u8"), &["Vec", "<", "u8", ">"]);
    assert_eq!(
        parse_type(buffer(BufferMode::Copy), &vec_u8),
        Ok(Arg::Buffer(Buffer::Vec(NumericArg::u8)))
    );
    assert_eq!(
        parse_type(buffer(BufferMode::Unsafe), &vec_u8),
        Err(ArgError::InvalidBufferMode(text("Unsafe"), text("Vec<u8>")))
    );
    assert_eq!(
        parse_type(buffer(BufferMode::Detach), &vec_u8),
        Err(ArgError::InvalidBufferMode(text("Detach"), text("Vec<u8>")))
    );
    assert_eq!(parse_type(plain(), &vec_u8), Err(ArgError::MissingBufferAttribute));
    assert_eq!(
        parse_type(with(AttributeModifier::String), &vec_u8),
        Err(ArgError::MissingBufferAttribute)
    );
    let vec_string = generic("Vec", named("String"), &["Vec", "<", "String", ">"]);
    assert_eq!(
        parse_type(buffer(BufferMode::Copy), &vec_string),
        Err(ArgError::InvalidNumericType(text("String")))
    );
    let std_vec = path_type(
        vec![seg("std"), seg("vec"), seg_of("Vec", vec![GenericArgument::Type(named("u16"))])],
        &["std", ":", ":", "vec", ":", ":", "Vec", "<", "u16", ">"],
    );
    assert_eq!(
        parse_type(buffer(BufferMode::Copy), &std_vec),
        Ok(Arg::Buffer(Buffer::Vec(NumericArg::u16)))
    );
    let boxed = generic("Box", slice(named("i32"), &["[i32]"]), &["Box", "<", "[i32]", ">"]);
    assert_eq!(
        parse_type(buffer(BufferMode::Copy), &boxed),
        Ok(Arg::Buffer(Buffer::BoxSlice(NumericArg::i32)))
    );
    let boxed_value = generic("Box", named("i32"), &["Box", "<", "i32", ">"]);
    assert_eq!(
        parse_type(buffer(BufferMode::Copy), &boxed_value),
        Err(ArgError::InvalidTypePath(text("Box<i32>")))
    );
}

#[test]
fn shared_buffers_take_every_mode() {
    for mode in [BufferMode::Unsafe, BufferMode::Copy, BufferMode::Detach] {
        assert_eq!(parse_type(buffer(mode), &named("JSBuffer")), Ok(Arg::Buffer(Buffer::JSBuffer)));
        assert_eq!(parse_type(buffer(mode), &named("V8Slice")), Ok(Arg::Buffer(Buffer::V8Slice)));
    }
    assert_eq!(
        parse_type(buffer(BufferMode::Copy), &named("Bytes")),
        Ok(Arg::Buffer(Buffer::Bytes))
    );
    assert_eq!(
        parse_type(buffer(BufferMode::Detach), &named("Bytes")),
        Err(ArgError::InvalidBufferMode(text("Detach"), text("Bytes")))
    );
}

#[test]
fn state_types() {
    let state = with(AttributeModifier::State);
    let by_ref = reference(false, named("Thing"), &["&", "Thing"]);
    assert_eq!(parse_type(state, &by_ref), Ok(Arg::State(RefType::Ref, text("Thing"))));
    let by_mut = reference(true, named("Thing"), &["&", "mut", "Thing"]);
    assert_eq!(parse_type_state(&by_mut), Ok(Arg::State(RefType::Mut, text("Thing"))));
    let option = generic(
        "Option",
        reference(true, named("Thing"), &["&", "mut", "Thing"]),
        &["Option", "<", "&", "mut", "Thing", ">"],
    );
    assert_eq!(parse_type_state(&option), Ok(Arg::OptionState(RefType::Mut, text("Thing"))));
}

#[test]
fn invalid_state_types() {
    assert_eq!(
        parse_type_state(&named("Thing")),
        Err(ArgError::InvalidStateType(text("Thing")))
    );
    let option = generic("Option", named("Thing"), &["Option", "<", "Thing", ">"]);
    assert_eq!(parse_type_state(&option), Err(ArgError::InvalidStateType(text("Thing"))));
    let nested = generic(
        "Option",
        generic(
            "Option",
            reference(false, named("Thing"), &["&", "Thing"]),
            &["Option", "<", "&", "Thing", ">"],
        ),
        &["Option", "<", "Option", "<", "&", "Thing", ">", ">"],
    );
    assert_eq!(
        parse_type_state(&nested),
        Err(ArgError::InvalidStateType(text("Option<Option<&Thing>>")))
    );
    let unit = TypeExpr::Tuple { elems: vec![], tokens: toks(&["()"]) };
    assert_eq!(parse_type_state(&unit), Err(ArgError::InvalidStateType(text("()"))));
}

#[test]
fn serialization_is_for_types_that_need_it() {
    let serde = with(AttributeModifier::Serde);
    assert_eq!(parse_type(serde, &named("Thing")), Ok(Arg::SerdeV8(text("Thing"))));
    assert_eq!(
        parse_type(serde, &named("u32")),
        Err(ArgError::InvalidSerdeAttributeType(text("u32")))
    );
    assert_eq!(
        parse_type(serde, &named("String")),
        Err(ArgError::InvalidSerdeAttributeType(text("String")))
    );
    assert_eq!(
        parse_type(serde, &named("OpState")),
        Err(ArgError::InvalidSerdeAttributeType(text("OpState")))
    );
    // A buffer does not classify without its own modifier.
    assert_eq!(parse_type(serde, &named("JSBuffer")), Ok(Arg::SerdeV8(text("JSBuffer"))));
    let value = path_type(
        vec![seg_of("Value", vec![GenericArgument::Lifetime])],
        &["Value", "<", "'", "a", ">"],
    );
    assert_eq!(
        parse_type(serde, &value),
        Err(ArgError::InvalidSerdeType(text("Value<'a>"), "use v8::Value"))
    );
}

#[test]
fn shapes_of_paths() {
    let u8_path = type_path(vec![seg("u8")], &["u8"]);
    assert_eq!(
        parse_type_path(plain(), Place::Bare, &u8_path),
        Ok(ParsedTypeContainer::CBare(ParsedType::TNumeric(NumericArg::u8)))
    );
    assert_eq!(
        parse_type_path(buffer(BufferMode::Detach), Place::Pointee, &u8_path),
        Ok(ParsedTypeContainer::CBare(ParsedType::TNumeric(NumericArg::u8)))
    );
    assert_eq!(
        parse_type_path(buffer(BufferMode::Detach), Place::Bare, &u8_path),
        Err(ArgError::InvalidBufferType(text("u8")))
    );
    assert_eq!(
        parse_type_path(plain(), Place::Referent, &u8_path),
        Err(ArgError::InvalidReference(text("u8")))
    );
    let scope = type_path(vec![seg("v8"), seg("HandleScope")], &["v8", ":", ":", "HandleScope"]);
    assert_eq!(
        parse_type_path(plain(), Place::Referent, &scope),
        Ok(ParsedTypeContainer::CBare(ParsedType::TSpecial(Special::HandleScope)))
    );
    assert_eq!(
        parse_type_path(plain(), Place::Pointee, &scope),
        Err(ArgError::MissingReference(text("v8::HandleScope")))
    );
    let option = type_path(
        vec![seg_of(
            "Option",
            vec![GenericArgument::Type(reference(
                true,
                v8("Value"),
                &["&", "mut", "v8", ":", ":", "Value"],
            ))],
        )],
        &["Option", "<", "&", "mut", "v8", ":", ":", "Value", ">"],
    );
    assert_eq!(
        parse_type_path(plain(), Place::Bare, &option),
        Ok(ParsedTypeContainer::COption(ParsedType::TV8Mut(V8Arg::Value)))
    );
}

#[test]
fn parameters() {
    assert_eq!(parse_arg(&FnArg::Receiver), Err(ArgError::InvalidSelf));
    let two = FnArg::Typed {
        name: Some(text("x")),
        attrs: vec![attr("string"), attr("smi")],
        ty: named("u32"),
    };
    assert_eq!(
        parse_arg(&two),
        Err(ArgError::AttributeError(AttributeError::TooManyAttributes))
    );
    let one = FnArg::Typed { name: None, attrs: vec![attr("smi")], ty: named("Id") };
    assert_eq!(parse_arg(&one), Ok(Arg::Numeric(NumericArg::__SMI__)));
}
