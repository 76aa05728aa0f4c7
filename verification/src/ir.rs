//! The closed description that classification produces: numeric kinds, handle
//! kinds, buffers and their sharing modes, arguments and return values.
use vstd::prelude::*;

verus! {

/// A numeric parameter kind.
#[allow(non_camel_case_types)]
#[derive(Copy, Clone, Debug, PartialEq, Eq, Structural)]
pub enum NumericArg {
    /// Stands for any parameter decorated as a small integer, whatever its
    /// declared type.
    __SMI__,
    /// Stands for untyped data behind a pointer.
    __VOID__,
    bool,
    i8,
    u8,
    i16,
    u16,
    i32,
    u32,
    i64,
    u64,
    /// The 32-bit floating-point kind.
    F32,
    /// The 64-bit floating-point kind.
    F64,
    isize,
    usize,
}

/// A kind of object that the runtime hands out by handle.
#[derive(Copy, Clone, Debug, PartialEq, Eq, Structural)]
pub enum V8Arg {
    Value,
    External,
    Object,
    Array,
    ArrayBuffer,
    ArrayBufferView,
    DataView,
    TypedArray,
    BigInt64Array,
    BigUint64Array,
    Float32Array,
    Float64Array,
    Int16Array,
    Int32Array,
    Int8Array,
    Uint16Array,
    Uint32Array,
    Uint8Array,
    Uint8ClampedArray,
    BigIntObject,
    BooleanObject,
    Date,
    Function,
    /// The runtime's `Map`.
    V8Map,
    NumberObject,
    Promise,
    PromiseResolver,
    Proxy,
    RegExp,
    /// The runtime's `Set`.
    V8Set,
    SharedArrayBuffer,
    StringObject,
    SymbolObject,
    WasmMemoryObject,
    WasmModuleObject,
    Primitive,
    BigInt,
    Boolean,
    Name,
    String,
    Symbol,
    Number,
    Integer,
    Int32,
    Uint32,
}

/// Parameters that the framework supplies or treats specially.
#[derive(Copy, Clone, Debug, PartialEq, Eq, Structural)]
pub enum Special {
    HandleScope,
    OpState,
    String,
    CowStr,
    RefStr,
    FastApiCallbackOptions,
}

/// Whether a reference or pointer allows writing.
#[derive(Copy, Clone, Debug, PartialEq, Eq, Structural)]
pub enum RefType {
    Ref,
    Mut,
}

/// How a buffer is shared between the runtime and native code.
#[derive(Copy, Clone, Debug, PartialEq, Eq, Structural)]
pub enum BufferMode {
    /// Shared with the runtime, which may change it between calls.
    Unsafe,
    /// Always copied into memory that native code owns.
    Copy,
    /// Handed over to native code; the runtime keeps an empty buffer.
    Detach,
}

/// The physical representations of a buffer.
#[derive(Copy, Clone, Debug, PartialEq, Eq, Structural)]
pub enum Buffer {
    /// A borrowed slice, `&[u8]` or `&mut [u8]`.
    Slice(RefType, NumericArg),
    /// A raw pointer, `*const u8` or `*mut u8`.
    Ptr(RefType, NumericArg),
    /// An owned boxed slice, `Box<[u8]>`.
    BoxSlice(NumericArg),
    /// An owned vector, `Vec<u8>`.
    Vec(NumericArg),
    /// A reference-counted byte buffer that can be shared.
    Bytes,
    /// A view of fixed length into memory that the runtime shares.
    V8Slice,
    /// A buffer that the runtime shares and may resize.
    JSBuffer,
}

/// A raw pointer to untyped data.
#[derive(Copy, Clone, Debug, PartialEq, Eq, Structural)]
pub enum External {
    Ptr(RefType),
}

/// The primary modifier that a decorator asks for.
#[derive(Copy, Clone, Debug, PartialEq, Eq, Structural)]
pub enum AttributeModifier {
    /// `#[serde]`: pass the value through serialization.
    Serde,
    /// `#[smi]`: a small integer, whatever the declared type.
    Smi,
    /// `#[string]`: a string.
    String,
    /// `#[state]`: extract a value from the shared state.
    State,
    /// `#[buffer]`: a buffer, with its sharing mode.
    Buffer(BufferMode),
}

/// The modifier in force at one declaration site, if any.
#[derive(Copy, Clone, Debug, PartialEq, Eq, Structural)]
pub struct Attributes {
    pub primary: Option<AttributeModifier>,
}

/// A recognised shape, before its container is taken into account.
#[derive(Copy, Clone, Debug, PartialEq, Eq, Structural)]
pub enum ParsedType {
    TSpecial(Special),
    TBuffer(Buffer),
    TV8(V8Arg),
    /// A handle kind behind a mutable reference.
    TV8Mut(V8Arg),
    TNumeric(NumericArg),
}

/// A recognised shape together with what wraps it.
#[derive(Copy, Clone, Debug, PartialEq, Eq, Structural)]
pub enum ParsedTypeContainer {
    CBare(ParsedType),
    COption(ParsedType),
    CRcRefCell(ParsedType),
    COptionV8Local(ParsedType),
    CV8Local(ParsedType),
    CV8Global(ParsedType),
}

/// The classification of one parameter or of the value a function returns.
#[derive(Clone, Debug, PartialEq, Eq)]
pub enum Arg {
    Void,
    Special(Special),
    Buffer(Buffer),
    External(External),
    Ref(RefType, Special),
    RcRefCell(Special),
    Option(Special),
    OptionNumeric(NumericArg),
    OptionV8Local(V8Arg),
    V8Local(V8Arg),
    V8Global(V8Arg),
    OptionV8Ref(RefType, V8Arg),
    V8Ref(RefType, V8Arg),
    Numeric(NumericArg),
    /// A value passed through serialization, with the text of its type.
    SerdeV8(String),
    /// A value extracted from the shared state, with the text of its type.
    State(RefType, String),
    /// The same, where the value may be missing.
    OptionState(RefType, String),
}

/// What an [`Arg`] is to the specifications: the same value with its texts
/// as sequences of characters.
pub enum ArgView {
    Void,
    Special(Special),
    Buffer(Buffer),
    External(External),
    Ref(RefType, Special),
    RcRefCell(Special),
    Option(Special),
    OptionNumeric(NumericArg),
    OptionV8Local(V8Arg),
    V8Local(V8Arg),
    V8Global(V8Arg),
    OptionV8Ref(RefType, V8Arg),
    V8Ref(RefType, V8Arg),
    Numeric(NumericArg),
    SerdeV8(Seq<char>),
    State(RefType, Seq<char>),
    OptionState(RefType, Seq<char>),
}

impl View for Arg {
    type V = ArgView;

    open spec fn view(&self) -> ArgView {
        match *self {
            Arg::Void => ArgView::Void,
            Arg::Special(s) => ArgView::Special(s),
            Arg::Buffer(b) => ArgView::Buffer(b),
            Arg::External(e) => ArgView::External(e),
            Arg::Ref(r, s) => ArgView::Ref(r, s),
            Arg::RcRefCell(s) => ArgView::RcRefCell(s),
            Arg::Option(s) => ArgView::Option(s),
            Arg::OptionNumeric(n) => ArgView::OptionNumeric(n),
            Arg::OptionV8Local(v) => ArgView::OptionV8Local(v),
            Arg::V8Local(v) => ArgView::V8Local(v),
            Arg::V8Global(v) => ArgView::V8Global(v),
            Arg::OptionV8Ref(r, v) => ArgView::OptionV8Ref(r, v),
            Arg::V8Ref(r, v) => ArgView::V8Ref(r, v),
            Arg::Numeric(n) => ArgView::Numeric(n),
            Arg::SerdeV8(t) => ArgView::SerdeV8(t@),
            Arg::State(r, t) => ArgView::State(r, t@),
            Arg::OptionState(r, t) => ArgView::OptionState(r, t@),
        }
    }
}

/// How a function hands back its value: whether it may fail, whether it is
/// asynchronous, and when a failure shows.
#[derive(Clone, Debug, PartialEq, Eq)]
pub enum RetVal {
    /// Never fails.
    Infallible(Arg),
    /// Returns at once and may fail.
    Result(Arg),
    /// Asynchronous and never fails.
    Future(Arg),
    /// Asynchronous; may fail once the asynchronous work has started.
    FutureResult(Arg),
    /// May fail before any asynchronous work starts; that work never fails.
    ResultFuture(Arg),
    /// May fail before the asynchronous work starts, and that work may fail.
    ResultFutureResult(Arg),
}

/// What a [`RetVal`] is to the specifications.
pub enum RetValView {
    Infallible(ArgView),
    Result(ArgView),
    Future(ArgView),
    FutureResult(ArgView),
    ResultFuture(ArgView),
    ResultFutureResult(ArgView),
}

impl View for RetVal {
    type V = RetValView;

    open spec fn view(&self) -> RetValView {
        match *self {
            RetVal::Infallible(a) => RetValView::Infallible(a@),
            RetVal::Result(a) => RetValView::Result(a@),
            RetVal::Future(a) => RetValView::Future(a@),
            RetVal::FutureResult(a) => RetValView::FutureResult(a@),
            RetVal::ResultFuture(a) => RetValView::ResultFuture(a@),
            RetVal::ResultFutureResult(a) => RetValView::ResultFutureResult(a@),
        }
    }
}

impl NumericArg {
    /// The typed array whose elements are of this kind, if there is one.
    pub open spec fn typed_array(self) -> Option<V8Arg> {
        match self {
            NumericArg::i8 => Some(V8Arg::Int8Array),
            NumericArg::u8 => Some(V8Arg::Uint8Array),
            NumericArg::i16 => Some(V8Arg::Int16Array),
            NumericArg::u16 => Some(V8Arg::Uint16Array),
            NumericArg::i32 => Some(V8Arg::Int32Array),
            NumericArg::u32 => Some(V8Arg::Uint32Array),
            NumericArg::i64 => Some(V8Arg::BigInt64Array),
            NumericArg::u64 => Some(V8Arg::BigUint64Array),
            NumericArg::F32 => Some(V8Arg::Float32Array),
            NumericArg::F64 => Some(V8Arg::Float64Array),
            _ => None,
        }
    }

    /// Returns the typed array that holds elements of this kind.
    pub fn v8_array_type(self) -> (array: Option<V8Arg>)
        ensures
            array == self.typed_array(),
    {
        match self {
            NumericArg::i8 => Some(V8Arg::Int8Array),
            NumericArg::u8 => Some(V8Arg::Uint8Array),
            NumericArg::i16 => Some(V8Arg::Int16Array),
            NumericArg::u16 => Some(V8Arg::Uint16Array),
            NumericArg::i32 => Some(V8Arg::Int32Array),
            NumericArg::u32 => Some(V8Arg::Uint32Array),
            NumericArg::i64 => Some(V8Arg::BigInt64Array),
            NumericArg::u64 => Some(V8Arg::BigUint64Array),
            NumericArg::F32 => Some(V8Arg::Float32Array),
            NumericArg::F64 => Some(V8Arg::Float64Array),
            NumericArg::__SMI__ | NumericArg::__VOID__ | NumericArg::bool | NumericArg::isize
            | NumericArg::usize => None,
        }
    }
}

impl Buffer {
    /// The sharing modes that each representation admits.
    pub open spec fn admits(self, mode: BufferMode) -> bool {
        match self {
            Buffer::Bytes | Buffer::Vec(_) | Buffer::BoxSlice(_) => mode == BufferMode::Copy,
            Buffer::JSBuffer | Buffer::V8Slice => true,
            Buffer::Slice(_, _) | Buffer::Ptr(_, _) => mode == BufferMode::Detach,
        }
    }

    /// Whether a buffer of this representation may be shared in `mode`.
    pub fn is_valid_mode(&self, mode: BufferMode) -> (valid: bool)
        ensures
            valid == self.admits(mode),
    {
        match self {
            Buffer::Bytes => matches!(mode, BufferMode::Copy),
            Buffer::JSBuffer => true,
            Buffer::V8Slice => true,
            Buffer::Vec(_) => matches!(mode, BufferMode::Copy),
            Buffer::BoxSlice(_) => matches!(mode, BufferMode::Copy),
            Buffer::Slice(_, _) => matches!(mode, BufferMode::Detach),
            Buffer::Ptr(_, _) => matches!(mode, BufferMode::Detach),
        }
    }
}

impl Special {
    /// Whether the framework supplies a value of this kind itself.
    pub open spec fn from_framework(self) -> bool {
        self == Special::FastApiCallbackOptions || self == Special::OpState || self
            == Special::HandleScope
    }
}

impl ArgView {
    /// Whether the argument comes from the framework and not from the
    /// caller's argument list.
    pub open spec fn is_virtual(self) -> bool {
        match self {
            ArgView::Special(s) | ArgView::Ref(_, s) | ArgView::RcRefCell(s) => s.from_framework(),
            ArgView::State(_, _) | ArgView::OptionState(_, _) => true,
            _ => false,
        }
    }

    /// Whether the argument may be missing.
    pub open spec fn is_option(self) -> bool {
        self is OptionV8Ref || self is OptionV8Local || self is OptionNumeric || self is Option
            || self is OptionState
    }
}

impl Arg {
    /// Is this argument virtual, that is supplied by the framework and not
    /// taken from the caller's argument list?
    pub fn is_virtual(&self) -> (virt: bool)
        ensures
            virt == self@.is_virtual(),
    {
        match self {
            Arg::Special(Special::FastApiCallbackOptions | Special::OpState | Special::HandleScope) => true,
            Arg::Ref(_, Special::FastApiCallbackOptions | Special::OpState | Special::HandleScope) => true,
            Arg::RcRefCell(Special::FastApiCallbackOptions | Special::OpState | Special::HandleScope) => true,
            Arg::State(_, _) | Arg::OptionState(_, _) => true,
            _ => false,
        }
    }

    /// Is this argument optional?
    pub fn is_option(&self) -> (optional: bool)
        ensures
            optional == self@.is_option(),
    {
        matches!(
            self,
            Arg::OptionV8Ref(_, _) | Arg::OptionV8Local(_) | Arg::OptionNumeric(_) | Arg::Option(_)
                | Arg::OptionState(_, _)
        )
    }
}

impl RetValView {
    /// Whether the value arrives asynchronously.
    pub open spec fn is_async(self) -> bool {
        !(self is Infallible || self is Result)
    }
}

impl RetVal {
    /// Does the function hand back its value asynchronously?
    pub fn is_async(&self) -> (asynchronous: bool)
        ensures
            asynchronous == self@.is_async(),
    {
        matches!(
            self,
            RetVal::Future(_) | RetVal::FutureResult(_) | RetVal::ResultFuture(_)
                | RetVal::ResultFutureResult(_)
        )
    }
}

impl Attributes {
    /// No modifier.
    pub open spec fn none() -> Attributes {
        Attributes { primary: None }
    }

    /// The attributes of a site decorated as a string.
    pub fn string() -> (attrs: Attributes)
        ensures
            attrs.primary == Some(AttributeModifier::String),
    {
        Attributes { primary: Some(AttributeModifier::String) }
    }
}

impl Default for Attributes {
    fn default() -> (attrs: Attributes)
        ensures
            attrs == Attributes::none(),
    {
        Attributes { primary: None }
    }
}

} // verus!
