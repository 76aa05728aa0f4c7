use op_signature::{
    Arg, AttributeModifier, Attributes, Buffer, BufferMode, External, NumericArg, RefType, RetVal,
    Special, V8Arg,
};

const NUMERIC: [(NumericArg, &str); 15] = [
    (NumericArg::__SMI__, "__SMI__"),
    (NumericArg::__VOID__, "__VOID__"),
    (NumericArg::bool, "bool"),
    (NumericArg::i8, "i8"),
    (NumericArg::u8, "u8"),
    (NumericArg::i16, "i16"),
    (NumericArg::u16, "u16"),
    (NumericArg::i32, "i32"),
    (NumericArg::u32, "u32"),
    (NumericArg::i64, "i64"),
    (NumericArg::u64, "u64"),
    (NumericArg::F32, "f32"),
    (NumericArg::F64, "f64"),
    (NumericArg::isize, "isize"),
    (NumericArg::usize, "usize"),
];

const HANDLES: [(V8Arg, &str); 45] = [
    (V8Arg::Value, "Value"),
    (V8Arg::External, "External"),
    (V8Arg::Object, "Object"),
    (V8Arg::Array, "Array"),
    (V8Arg::ArrayBuffer, "ArrayBuffer"),
    (V8Arg::ArrayBufferView, "ArrayBufferView"),
    (V8Arg::DataView, "DataView"),
    (V8Arg::TypedArray, "TypedArray"),
    (V8Arg::BigInt64Array, "BigInt64Array"),
    (V8Arg::BigUint64Array, "BigUint64Array"),
    (V8Arg::Float32Array, "Float32Array"),
    (V8Arg::Float64Array, "Float64Array"),
    (V8Arg::Int16Array, "Int16Array"),
    (V8Arg::Int32Array, "Int32Array"),
    (V8Arg::Int8Array, "Int8Array"),
    (V8Arg::Uint16Array, "Uint16Array"),
    (V8Arg::Uint32Array, "Uint32Array"),
    (V8Arg::Uint8Array, "Uint8Array"),
    (V8Arg::Uint8ClampedArray, "Uint8ClampedArray"),
    (V8Arg::BigIntObject, "BigIntObject"),
    (V8Arg::BooleanObject, "BooleanObject"),
    (V8Arg::Date, "Date"),
    (V8Arg::Function, "Function"),
    (V8Arg::V8Map, "Map"),
    (V8Arg::NumberObject, "NumberObject"),
    (V8Arg::Promise, "Promise"),
    (V8Arg::PromiseResolver, "PromiseResolver"),
    (V8Arg::Proxy, "Proxy"),
    (V8Arg::RegExp, "RegExp"),
    (V8Arg::V8Set, "Set"),
    (V8Arg::SharedArrayBuffer, "SharedArrayBuffer"),
    (V8Arg::StringObject, "StringObject"),
    (V8Arg::SymbolObject, "SymbolObject"),
    (V8Arg::WasmMemoryObject, "WasmMemoryObject"),
    (V8Arg::WasmModuleObject, "WasmModuleObject"),
    (V8Arg::Primitive, "Primitive"),
    (V8Arg::BigInt, "BigInt"),
    (V8Arg::Boolean, "Boolean"),
    (V8Arg::Name, "Name"),
    (V8Arg::String, "String"),
    (V8Arg::Symbol, "Symbol"),
    (V8Arg::Number, "Number"),
    (V8Arg::Integer, "Integer"),
    (V8Arg::Int32, "Int32"),
    (V8Arg::Uint32, "Uint32"),
];

#[test]
fn numeric_kinds_map_to_typed_arrays() {
    assert_eq!(NumericArg::i8.v8_array_type(), Some(V8Arg::Int8Array));
    assert_eq!(NumericArg::u8.v8_array_type(), Some(V8Arg::Uint8Array));
    assert_eq!(NumericArg::i16.v8_array_type(), Some(V8Arg::Int16Array));
    assert_eq!(NumericArg::u16.v8_array_type(), Some(V8Arg::Uint16Array));
    assert_eq!(NumericArg::i32.v8_array_type(), Some(V8Arg::Int32Array));
    assert_eq!(NumericArg::u32.v8_array_type(), Some(V8Arg::Uint32Array));
    assert_eq!(NumericArg::i64.v8_array_type(), Some(V8Arg::BigInt64Array));
    assert_eq!(NumericArg::u64.v8_array_type(), Some(V8Arg::BigUint64Array));
    assert_eq!(NumericArg::F32.v8_array_type(), Some(V8Arg::Float32Array));
    assert_eq!(NumericArg::F64.v8_array_type(), Some(V8Arg::Float64Array));
}

#[test]
fn placeholders_and_other_kinds_have_no_typed_array() {
    assert_eq!(NumericArg::__SMI__.v8_array_type(), None);
    assert_eq!(NumericArg::__VOID__.v8_array_type(), None);
    assert_eq!(NumericArg::bool.v8_array_type(), None);
    assert_eq!(NumericArg::isize.v8_array_type(), None);
    assert_eq!(NumericArg::usize.v8_array_type(), None);
}

#[test]
fn numeric_names_go_both_ways() {
    for (kind, name) in NUMERIC {
        assert_eq!(kind.name(), name);
        assert_eq!(NumericArg::from_name(name), Some(kind));
    }
    assert_eq!(NumericArg::from_name("u128"), None);
    assert_eq!(NumericArg::from_name("U32"), None);
    assert_eq!(NumericArg::from_name(""), None);
    assert_eq!(NumericArg::from_name("F32"), None);
}

#[test]
fn handle_names_go_both_ways() {
    for (kind, name) in HANDLES {
        assert_eq!(kind.name(), name);
        assert_eq!(V8Arg::from_name(name), Some(kind));
    }
    assert_eq!(V8Arg::from_name("V8Map"), None);
    assert_eq!(V8Arg::from_name("Local"), None);
    assert_eq!(V8Arg::from_name("string"), None);
}

#[test]
fn mode_names() {
    assert_eq!(BufferMode::Unsafe.name(), "Unsafe");
    assert_eq!(BufferMode::Copy.name(), "Copy");
    assert_eq!(BufferMode::Detach.name(), "Detach");
}

fn modes(buffer: Buffer) -> [bool; 3] {
    [
        buffer.is_valid_mode(BufferMode::Unsafe),
        buffer.is_valid_mode(BufferMode::Copy),
        buffer.is_valid_mode(BufferMode::Detach),
    ]
}

#[test]
fn buffer_modes_follow_the_matrix() {
    assert_eq!(modes(Buffer::Bytes), [false, true, false]);
    assert_eq!(modes(Buffer::JSBuffer), [true, true, true]);
    assert_eq!(modes(Buffer::V8Slice), [true, true, true]);
    assert_eq!(modes(Buffer::Vec(NumericArg::u8)), [false, true, false]);
    assert_eq!(modes(Buffer::BoxSlice(NumericArg::u32)), [false, true, false]);
    assert_eq!(modes(Buffer::Slice(RefType::Ref, NumericArg::u8)), [false, false, true]);
    assert_eq!(modes(Buffer::Slice(RefType::Mut, NumericArg::u8)), [false, false, true]);
    assert_eq!(modes(Buffer::Ptr(RefType::Ref, NumericArg::u8)), [false, false, true]);
    assert_eq!(modes(Buffer::Ptr(RefType::Mut, NumericArg::i64)), [false, false, true]);
}

#[test]
fn framework_arguments_are_virtual() {
    for special in [Special::FastApiCallbackOptions, Special::OpState, Special::HandleScope] {
        assert!(Arg::Special(special).is_virtual());
        assert!(Arg::Ref(RefType::Ref, special).is_virtual());
        assert!(Arg::Ref(RefType::Mut, special).is_virtual());
        assert!(Arg::RcRefCell(special).is_virtual());
    }
    assert!(Arg::State(RefType::Ref, "T".to_string()).is_virtual());
    assert!(Arg::OptionState(RefType::Mut, "T".to_string()).is_virtual());
}

#[test]
fn caller_arguments_are_not_virtual() {
    for special in [Special::String, Special::CowStr, Special::RefStr] {
        assert!(!Arg::Special(special).is_virtual());
        assert!(!Arg::Ref(RefType::Ref, special).is_virtual());
        assert!(!Arg::RcRefCell(special).is_virtual());
    }
    assert!(!Arg::Void.is_virtual());
    assert!(!Arg::Option(Special::OpState).is_virtual());
    assert!(!Arg::Numeric(NumericArg::u32).is_virtual());
    assert!(!Arg::Buffer(Buffer::Bytes).is_virtual());
    assert!(!Arg::External(External::Ptr(RefType::Ref)).is_virtual());
    assert!(!Arg::V8Local(V8Arg::Value).is_virtual());
    assert!(!Arg::SerdeV8("T".to_string()).is_virtual());
}

#[test]
fn optional_arguments() {
    assert!(Arg::OptionV8Ref(RefType::Ref, V8Arg::Value).is_option());
    assert!(Arg::OptionV8Local(V8Arg::Value).is_option());
    assert!(Arg::OptionNumeric(NumericArg::u8).is_option());
    assert!(Arg::Option(Special::String).is_option());
    assert!(Arg::OptionState(RefType::Ref, "T".to_string()).is_option());
    assert!(!Arg::Void.is_option());
    assert!(!Arg::Special(Special::String).is_option());
    assert!(!Arg::V8Ref(RefType::Ref, V8Arg::Value).is_option());
    assert!(!Arg::V8Local(V8Arg::Value).is_option());
    assert!(!Arg::V8Global(V8Arg::Value).is_option());
    assert!(!Arg::Numeric(NumericArg::u8).is_option());
    assert!(!Arg::State(RefType::Ref, "T".to_string()).is_option());
    assert!(!Arg::SerdeV8("Option<T>".to_string()).is_option());
}

#[test]
fn asynchronous_return_values() {
    assert!(!RetVal::Infallible(Arg::Void).is_async());
    assert!(!RetVal::Result(Arg::Void).is_async());
    assert!(RetVal::Future(Arg::Void).is_async());
    assert!(RetVal::FutureResult(Arg::Void).is_async());
    assert!(RetVal::ResultFuture(Arg::Void).is_async());
    assert!(RetVal::ResultFutureResult(Arg::Void).is_async());
}

#[test]
fn attributes_of_a_string_site() {
    assert_eq!(Attributes::string().primary, Some(AttributeModifier::String));
    assert_eq!(Attributes::default().primary, None);
}
