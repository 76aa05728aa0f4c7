//! The names under which declarations write numeric kinds, handle kinds and
//! sharing modes.
use crate::ir::{BufferMode, NumericArg, V8Arg};
use crate::text::text_eq;
use vstd::prelude::*;

verus! {

impl NumericArg {
    /// The name of this kind as a declaration writes it.
    pub open spec fn name_text(self) -> Seq<char> {
        match self {
            NumericArg::__SMI__ => "__SMI__"@,
            NumericArg::__VOID__ => "__VOID__"@,
            NumericArg::bool => "bool"@,
            NumericArg::i8 => "i8"@,
            NumericArg::u8 => "u8"@,
            NumericArg::i16 => "i16"@,
            NumericArg::u16 => "u16"@,
            NumericArg::i32 => "i32"@,
            NumericArg::u32 => "u32"@,
            NumericArg::i64 => "i64"@,
            NumericArg::u64 => "u64"@,
            NumericArg::F32 => "f32"@,
            NumericArg::F64 => "f64"@,
            NumericArg::isize => "isize"@,
            NumericArg::usize => "usize"@,
        }
    }

    /// The kind that a declaration writes as `name`, if there is one.
    pub open spec fn named(name: Seq<char>) -> Option<NumericArg> {
        if name == "__SMI__"@ {
            Some(NumericArg::__SMI__)
        } else if name == "__VOID__"@ {
            Some(NumericArg::__VOID__)
        } else if name == "bool"@ {
            Some(NumericArg::bool)
        } else if name == "i8"@ {
            Some(NumericArg::i8)
        } else if name == "u8"@ {
            Some(NumericArg::u8)
        } else if name == "i16"@ {
            Some(NumericArg::i16)
        } else if name == "u16"@ {
            Some(NumericArg::u16)
        } else if name == "i32"@ {
            Some(NumericArg::i32)
        } else if name == "u32"@ {
            Some(NumericArg::u32)
        } else if name == "i64"@ {
            Some(NumericArg::i64)
        } else if name == "u64"@ {
            Some(NumericArg::u64)
        } else if name == "f32"@ {
            Some(NumericArg::F32)
        } else if name == "f64"@ {
            Some(NumericArg::F64)
        } else if name == "isize"@ {
            Some(NumericArg::isize)
        } else if name == "usize"@ {
            Some(NumericArg::usize)
        } else {
            None
        }
    }

    /// Returns the name of this kind.
    pub fn name(self) -> (name: &'static str)
        ensures
            name@ == self.name_text(),
    {
        match self {
            NumericArg::__SMI__ => "__SMI__",
            NumericArg::__VOID__ => "__VOID__",
            NumericArg::bool => "bool",
            NumericArg::i8 => "i8",
            NumericArg::u8 => "u8",
            NumericArg::i16 => "i16",
            NumericArg::u16 => "u16",
            NumericArg::i32 => "i32",
            NumericArg::u32 => "u32",
            NumericArg::i64 => "i64",
            NumericArg::u64 => "u64",
            NumericArg::F32 => "f32",
            NumericArg::F64 => "f64",
            NumericArg::isize => "isize",
            NumericArg::usize => "usize",
        }
    }

    /// Finds the kind that is written as `name`.
    pub fn from_name(name: &str) -> (found: Option<NumericArg>)
        ensures
            found == NumericArg::named(name@),
    {
        if text_eq(name, "__SMI__") {
            Some(NumericArg::__SMI__)
        } else if text_eq(name, "__VOID__") {
            Some(NumericArg::__VOID__)
        } else if text_eq(name, "bool") {
            Some(NumericArg::bool)
        } else if text_eq(name, "i8") {
            Some(NumericArg::i8)
        } else if text_eq(name, "u8") {
            Some(NumericArg::u8)
        } else if text_eq(name, "i16") {
            Some(NumericArg::i16)
        } else if text_eq(name, "u16") {
            Some(NumericArg::u16)
        } else if text_eq(name, "i32") {
            Some(NumericArg::i32)
        } else if text_eq(name, "u32") {
            Some(NumericArg::u32)
        } else if text_eq(name, "i64") {
            Some(NumericArg::i64)
        } else if text_eq(name, "u64") {
            Some(NumericArg::u64)
        } else if text_eq(name, "f32") {
            Some(NumericArg::F32)
        } else if text_eq(name, "f64") {
            Some(NumericArg::F64)
        } else if text_eq(name, "isize") {
            Some(NumericArg::isize)
        } else if text_eq(name, "usize") {
            Some(NumericArg::usize)
        } else {
            None
        }
    }
}

impl V8Arg {
    /// The name of this handle kind in the runtime's interface.
    pub open spec fn name_text(self) -> Seq<char> {
        match self {
            V8Arg::Value => "Value"@,
            V8Arg::External => "External"@,
            V8Arg::Object => "Object"@,
            V8Arg::Array => "Array"@,
            V8Arg::ArrayBuffer => "ArrayBuffer"@,
            V8Arg::ArrayBufferView => "ArrayBufferView"@,
            V8Arg::DataView => "DataView"@,
            V8Arg::TypedArray => "TypedArray"@,
            V8Arg::BigInt64Array => "BigInt64Array"@,
            V8Arg::BigUint64Array => "BigUint64Array"@,
            V8Arg::Float32Array => "Float32Array"@,
            V8Arg::Float64Array => "Float64Array"@,
            V8Arg::Int16Array => "Int16Array"@,
            V8Arg::Int32Array => "Int32Array"@,
            V8Arg::Int8Array => "Int8Array"@,
            V8Arg::Uint16Array => "Uint16Array"@,
            V8Arg::Uint32Array => "Uint32Array"@,
            V8Arg::Uint8Array => "Uint8Array"@,
            V8Arg::Uint8ClampedArray => "Uint8ClampedArray"@,
            V8Arg::BigIntObject => "BigIntObject"@,
            V8Arg::BooleanObject => "BooleanObject"@,
            V8Arg::Date => "Date"@,
            V8Arg::Function => "Function"@,
            V8Arg::V8Map => "Map"@,
            V8Arg::NumberObject => "NumberObject"@,
            V8Arg::Promise => "Promise"@,
            V8Arg::PromiseResolver => "PromiseResolver"@,
            V8Arg::Proxy => "Proxy"@,
            V8Arg::RegExp => "RegExp"@,
            V8Arg::V8Set => "Set"@,
            V8Arg::SharedArrayBuffer => "SharedArrayBuffer"@,
            V8Arg::StringObject => "StringObject"@,
            V8Arg::SymbolObject => "SymbolObject"@,
            V8Arg::WasmMemoryObject => "WasmMemoryObject"@,
            V8Arg::WasmModuleObject => "WasmModuleObject"@,
            V8Arg::Primitive => "Primitive"@,
            V8Arg::BigInt => "BigInt"@,
            V8Arg::Boolean => "Boolean"@,
            V8Arg::Name => "Name"@,
            V8Arg::String => "String"@,
            V8Arg::Symbol => "Symbol"@,
            V8Arg::Number => "Number"@,
            V8Arg::Integer => "Integer"@,
            V8Arg::Int32 => "Int32"@,
            V8Arg::Uint32 => "Uint32"@,
        }
    }

    /// The handle kind that the runtime's interface calls `name`, if there is
    /// one.
    pub open spec fn named(name: Seq<char>) -> Option<V8Arg> {
        if name == "Value"@ {
            Some(V8Arg::Value)
        } else if name == "External"@ {
            Some(V8Arg::External)
        } else if name == "Object"@ {
            Some(V8Arg::Object)
        } else if name == "Array"@ {
            Some(V8Arg::Array)
        } else if name == "ArrayBuffer"@ {
            Some(V8Arg::ArrayBuffer)
        } else if name == "ArrayBufferView"@ {
            Some(V8Arg::ArrayBufferView)
        } else if name == "DataView"@ {
            Some(V8Arg::DataView)
        } else if name == "TypedArray"@ {
            Some(V8Arg::TypedArray)
        } else if name == "BigInt64Array"@ {
            Some(V8Arg::BigInt64Array)
        } else if name == "BigUint64Array"@ {
            Some(V8Arg::BigUint64Array)
        } else if name == "Float32Array"@ {
            Some(V8Arg::Float32Array)
        } else if name == "Float64Array"@ {
            Some(V8Arg::Float64Array)
        } else if name == "Int16Array"@ {
            Some(V8Arg::Int16Array)
        } else if name == "Int32Array"@ {
            Some(V8Arg::Int32Array)
        } else if name == "Int8Array"@ {
            Some(V8Arg::Int8Array)
        } else if name == "Uint16Array"@ {
            Some(V8Arg::Uint16Array)
        } else if name == "Uint32Array"@ {
            Some(V8Arg::Uint32Array)
        } else if name == "Uint8Array"@ {
            Some(V8Arg::Uint8Array)
        } else if name == "Uint8ClampedArray"@ {
            Some(V8Arg::Uint8ClampedArray)
        } else if name == "BigIntObject"@ {
            Some(V8Arg::BigIntObject)
        } else if name == "BooleanObject"@ {
            Some(V8Arg::BooleanObject)
        } else if name == "Date"@ {
            Some(V8Arg::Date)
        } else if name == "Function"@ {
            Some(V8Arg::Function)
        } else if name == "Map"@ {
            Some(V8Arg::V8Map)
        } else if name == "NumberObject"@ {
            Some(V8Arg::NumberObject)
        } else if name == "Promise"@ {
            Some(V8Arg::Promise)
        } else if name == "PromiseResolver"@ {
            Some(V8Arg::PromiseResolver)
        } else if name == "Proxy"@ {
            Some(V8Arg::Proxy)
        } else if name == "RegExp"@ {
            Some(V8Arg::RegExp)
        } else if name == "Set"@ {
            Some(V8Arg::V8Set)
        } else if name == "SharedArrayBuffer"@ {
            Some(V8Arg::SharedArrayBuffer)
        } else if name == "StringObject"@ {
            Some(V8Arg::StringObject)
        } else if name == "SymbolObject"@ {
            Some(V8Arg::SymbolObject)
        } else if name == "WasmMemoryObject"@ {
            Some(V8Arg::WasmMemoryObject)
        } else if name == "WasmModuleObject"@ {
            Some(V8Arg::WasmModuleObject)
        } else if name == "Primitive"@ {
            Some(V8Arg::Primitive)
        } else if name == "BigInt"@ {
            Some(V8Arg::BigInt)
        } else if name == "Boolean"@ {
            Some(V8Arg::Boolean)
        } else if name == "Name"@ {
            Some(V8Arg::Name)
        } else if name == "String"@ {
            Some(V8Arg::String)
        } else if name == "Symbol"@ {
            Some(V8Arg::Symbol)
        } else if name == "Number"@ {
            Some(V8Arg::Number)
        } else if name == "Integer"@ {
            Some(V8Arg::Integer)
        } else if name == "Int32"@ {
            Some(V8Arg::Int32)
        } else if name == "Uint32"@ {
            Some(V8Arg::Uint32)
        } else {
            None
        }
    }

    /// Returns the name of this handle kind.
    pub fn name(self) -> (name: &'static str)
        ensures
            name@ == self.name_text(),
    {
        match self {
            V8Arg::Value => "Value",
            V8Arg::External => "External",
            V8Arg::Object => "Object",
            V8Arg::Array => "Array",
            V8Arg::ArrayBuffer => "ArrayBuffer",
            V8Arg::ArrayBufferView => "ArrayBufferView",
            V8Arg::DataView => "DataView",
            V8Arg::TypedArray => "TypedArray",
            V8Arg::BigInt64Array => "BigInt64Array",
            V8Arg::BigUint64Array => "BigUint64Array",
            V8Arg::Float32Array => "Float32Array",
            V8Arg::Float64Array => "Float64Array",
            V8Arg::Int16Array => "Int16Array",
            V8Arg::Int32Array => "Int32Array",
            V8Arg::Int8Array => "Int8Array",
            V8Arg::Uint16Array => "Uint16Array",
            V8Arg::Uint32Array => "Uint32Array",
            V8Arg::Uint8Array => "Uint8Array",
            V8Arg::Uint8ClampedArray => "Uint8ClampedArray",
            V8Arg::BigIntObject => "BigIntObject",
            V8Arg::BooleanObject => "BooleanObject",
            V8Arg::Date => "Date",
            V8Arg::Function => "Function",
            V8Arg::V8Map => "Map",
            V8Arg::NumberObject => "NumberObject",
            V8Arg::Promise => "Promise",
            V8Arg::PromiseResolver => "PromiseResolver",
            V8Arg::Proxy => "Proxy",
            V8Arg::RegExp => "RegExp",
            V8Arg::V8Set => "Set",
            V8Arg::SharedArrayBuffer => "SharedArrayBuffer",
            V8Arg::StringObject => "StringObject",
            V8Arg::SymbolObject => "SymbolObject",
            V8Arg::WasmMemoryObject => "WasmMemoryObject",
            V8Arg::WasmModuleObject => "WasmModuleObject",
            V8Arg::Primitive => "Primitive",
            V8Arg::BigInt => "BigInt",
            V8Arg::Boolean => "Boolean",
            V8Arg::Name => "Name",
            V8Arg::String => "String",
            V8Arg::Symbol => "Symbol",
            V8Arg::Number => "Number",
            V8Arg::Integer => "Integer",
            V8Arg::Int32 => "Int32",
            V8Arg::Uint32 => "Uint32",
        }
    }

    /// Finds the handle kind that is called `name`.
    pub fn from_name(name: &str) -> (found: Option<V8Arg>)
        ensures
            found == V8Arg::named(name@),
    {
        if text_eq(name, "Value") {
            Some(V8Arg::Value)
        } else if text_eq(name, "External") {
            Some(V8Arg::External)
        } else if text_eq(name, "Object") {
            Some(V8Arg::Object)
        } else if text_eq(name, "Array") {
            Some(V8Arg::Array)
        } else if text_eq(name, "ArrayBuffer") {
            Some(V8Arg::ArrayBuffer)
        } else if text_eq(name, "ArrayBufferView") {
            Some(V8Arg::ArrayBufferView)
        } else if text_eq(name, "DataView") {
            Some(V8Arg::DataView)
        } else if text_eq(name, "TypedArray") {
            Some(V8Arg::TypedArray)
        } else if text_eq(name, "BigInt64Array") {
            Some(V8Arg::BigInt64Array)
        } else if text_eq(name, "BigUint64Array") {
            Some(V8Arg::BigUint64Array)
        } else if text_eq(name, "Float32Array") {
            Some(V8Arg::Float32Array)
        } else if text_eq(name, "Float64Array") {
            Some(V8Arg::Float64Array)
        } else if text_eq(name, "Int16Array") {
            Some(V8Arg::Int16Array)
        } else if text_eq(name, "Int32Array") {
            Some(V8Arg::Int32Array)
        } else if text_eq(name, "Int8Array") {
            Some(V8Arg::Int8Array)
        } else if text_eq(name, "Uint16Array") {
            Some(V8Arg::Uint16Array)
        } else if text_eq(name, "Uint32Array") {
            Some(V8Arg::Uint32Array)
        } else if text_eq(name, "Uint8Array") {
            Some(V8Arg::Uint8Array)
        } else if text_eq(name, "Uint8ClampedArray") {
            Some(V8Arg::Uint8ClampedArray)
        } else if text_eq(name, "BigIntObject") {
            Some(V8Arg::BigIntObject)
        } else if text_eq(name, "BooleanObject") {
            Some(V8Arg::BooleanObject)
        } else if text_eq(name, "Date") {
            Some(V8Arg::Date)
        } else if text_eq(name, "Function") {
            Some(V8Arg::Function)
        } else if text_eq(name, "Map") {
            Some(V8Arg::V8Map)
        } else if text_eq(name, "NumberObject") {
            Some(V8Arg::NumberObject)
        } else if text_eq(name, "Promise") {
            Some(V8Arg::Promise)
        } else if text_eq(name, "PromiseResolver") {
            Some(V8Arg::PromiseResolver)
        } else if text_eq(name, "Proxy") {
            Some(V8Arg::Proxy)
        } else if text_eq(name, "RegExp") {
            Some(V8Arg::RegExp)
        } else if text_eq(name, "Set") {
            Some(V8Arg::V8Set)
        } else if text_eq(name, "SharedArrayBuffer") {
            Some(V8Arg::SharedArrayBuffer)
        } else if text_eq(name, "StringObject") {
            Some(V8Arg::StringObject)
        } else if text_eq(name, "SymbolObject") {
            Some(V8Arg::SymbolObject)
        } else if text_eq(name, "WasmMemoryObject") {
            Some(V8Arg::WasmMemoryObject)
        } else if text_eq(name, "WasmModuleObject") {
            Some(V8Arg::WasmModuleObject)
        } else if text_eq(name, "Primitive") {
            Some(V8Arg::Primitive)
        } else if text_eq(name, "BigInt") {
            Some(V8Arg::BigInt)
        } else if text_eq(name, "Boolean") {
            Some(V8Arg::Boolean)
        } else if text_eq(name, "Name") {
            Some(V8Arg::Name)
        } else if text_eq(name, "String") {
            Some(V8Arg::String)
        } else if text_eq(name, "Symbol") {
            Some(V8Arg::Symbol)
        } else if text_eq(name, "Number") {
            Some(V8Arg::Number)
        } else if text_eq(name, "Integer") {
            Some(V8Arg::Integer)
        } else if text_eq(name, "Int32") {
            Some(V8Arg::Int32)
        } else if text_eq(name, "Uint32") {
            Some(V8Arg::Uint32)
        } else {
            None
        }
    }
}

impl BufferMode {
    /// The name of this mode as diagnostics print it.
    pub open spec fn name_text(self) -> Seq<char> {
        match self {
            BufferMode::Unsafe => "Unsafe"@,
            BufferMode::Copy => "Copy"@,
            BufferMode::Detach => "Detach"@,
        }
    }

    /// Returns the name of this mode.
    pub fn name(self) -> (name: &'static str)
        ensures
            name@ == self.name_text(),
    {
        match self {
            BufferMode::Unsafe => "Unsafe",
            BufferMode::Copy => "Copy",
            BufferMode::Detach => "Detach",
        }
    }
}

/// Holds of every length and character; it only gives a proof a way to name
/// them.
#[verifier::opaque]
spec fn seen(len: nat, letter: char) -> bool {
    true
}

/// Brings a length and a character before the solver, which compares two
/// spellings only at positions that a proof names.
proof fn look_at(len: nat, letter: char)
    ensures
        seen(len, letter),
{
    reveal(seen);
}

/// A name is found as a numeric kind exactly when it is that kind's name: no
/// two kinds share a name.
pub proof fn numeric_names_are_exact(name: Seq<char>, kind: NumericArg)
    ensures
        NumericArg::named(name) == Some(kind) <==> name == kind.name_text(),
{
    look_at(name.len(), name[0]);
    look_at(name.len(), name[1]);
    look_at(name.len(), name[2]);
    look_at(name.len(), name[3]);
    look_at(name.len(), name[4]);
    look_at(name.len(), name[5]);
    look_at(name.len(), name[6]);
    look_at(name.len(), name[7]);
    reveal_strlit("__SMI__");
    reveal_strlit("__VOID__");
    reveal_strlit("bool");
    reveal_strlit("i8");
    reveal_strlit("u8");
    reveal_strlit("i16");
    reveal_strlit("u16");
    reveal_strlit("i32");
    reveal_strlit("u32");
    reveal_strlit("i64");
    reveal_strlit("u64");
    reveal_strlit("f32");
    reveal_strlit("f64");
    reveal_strlit("isize");
    reveal_strlit("usize");
}

/// A name is found as a handle kind exactly when it is that kind's name: no
/// two kinds share a name.
pub proof fn handle_names_are_exact(name: Seq<char>, kind: V8Arg)
    ensures
        V8Arg::named(name) == Some(kind) <==> name == kind.name_text(),
{
    look_at(name.len(), name[0]);
    look_at(name.len(), name[1]);
    look_at(name.len(), name[2]);
    look_at(name.len(), name[3]);
    look_at(name.len(), name[4]);
    look_at(name.len(), name[5]);
    look_at(name.len(), name[6]);
    look_at(name.len(), name[7]);
    look_at(name.len(), name[8]);
    look_at(name.len(), name[9]);
    look_at(name.len(), name[10]);
    look_at(name.len(), name[11]);
    look_at(name.len(), name[12]);
    look_at(name.len(), name[13]);
    look_at(name.len(), name[14]);
    look_at(name.len(), name[15]);
    look_at(name.len(), name[16]);
    reveal_strlit("Value");
    reveal_strlit("External");
    reveal_strlit("Object");
    reveal_strlit("Array");
    reveal_strlit("ArrayBuffer");
    reveal_strlit("ArrayBufferView");
    reveal_strlit("DataView");
    reveal_strlit("TypedArray");
    reveal_strlit("BigInt64Array");
    reveal_strlit("BigUint64Array");
    reveal_strlit("Float32Array");
    reveal_strlit("Float64Array");
    reveal_strlit("Int16Array");
    reveal_strlit("Int32Array");
    reveal_strlit("Int8Array");
    reveal_strlit("Uint16Array");
    reveal_strlit("Uint32Array");
    reveal_strlit("Uint8Array");
    reveal_strlit("Uint8ClampedArray");
    reveal_strlit("BigIntObject");
    reveal_strlit("BooleanObject");
    reveal_strlit("Date");
    reveal_strlit("Function");
    reveal_strlit("Map");
    reveal_strlit("NumberObject");
    reveal_strlit("Promise");
    reveal_strlit("PromiseResolver");
    reveal_strlit("Proxy");
    reveal_strlit("RegExp");
    reveal_strlit("Set");
    reveal_strlit("SharedArrayBuffer");
    reveal_strlit("StringObject");
    reveal_strlit("SymbolObject");
    reveal_strlit("WasmMemoryObject");
    reveal_strlit("WasmModuleObject");
    reveal_strlit("Primitive");
    reveal_strlit("BigInt");
    reveal_strlit("Boolean");
    reveal_strlit("Name");
    reveal_strlit("String");
    reveal_strlit("Symbol");
    reveal_strlit("Number");
    reveal_strlit("Integer");
    reveal_strlit("Int32");
    reveal_strlit("Uint32");
}

} // verus!
