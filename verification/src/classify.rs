//! Classification of one type expression under the modifier of its site.
//!
//! A path is first resolved to a shape by its name and arguments. The shape
//! is then held against where the path stands (bare, behind a reference,
//! behind a raw pointer) and against the modifier. At last the type
//! expression around the path decides the argument.
use crate::error::{failing, outcome, ArgError, ArgErrorView};
use crate::ir::{
    Arg, ArgView, AttributeModifier, Attributes, Buffer, BufferMode, External, NumericArg,
    ParsedType, ParsedTypeContainer, RefType, Special, V8Arg,
};
use crate::syntax::{Path, TypeExpr, TypePath};
use crate::text::{rendered, stringify_token};
use vstd::prelude::*;

verus! {

/// How many levels of types inside types classification reads below the
/// type expression that it is given.
pub const MAX_NESTING: usize = 16;

/// Where a path stands in a type expression.
#[derive(Copy, Clone, Debug, PartialEq, Eq, Structural)]
pub enum Place {
    /// By itself, or as an argument of another path.
    Bare,
    /// Behind `&` or `&mut`.
    Referent,
    /// Behind `*const` or `*mut`.
    Pointee,
}

/// The canonical text of a type expression.
pub open spec fn text_of(ty: TypeExpr) -> Seq<char> {
    rendered(ty.token_texts())
}

/// The reference kind that `&mut` or `&`, `*mut` or `*const` stands for.
pub open spec fn ref_type(mutable: bool) -> RefType {
    if mutable {
        RefType::Mut
    } else {
        RefType::Ref
    }
}

/// The numeric kind that a path names: a path of one segment whose name is
/// that of a numeric kind.
pub open spec fn numeric_of(p: Path) -> Result<NumericArg, ArgErrorView> {
    if p.segments.len() == 1 {
        match NumericArg::named(p.segments[0].ident@) {
            Some(n) => Ok(n),
            None => Err(ArgErrorView::InvalidNumericType(rendered(p.tokens@))),
        }
    } else {
        Err(ArgErrorView::InvalidNumericType(rendered(p.tokens@)))
    }
}

/// The handle kind of the given name.
pub open spec fn handle_of(name: Seq<char>) -> Result<V8Arg, ArgErrorView> {
    match V8Arg::named(name) {
        Some(v) => Ok(v),
        None => Err(ArgErrorView::InvalidV8Type(name)),
    }
}

/// The shape of a path that is recognised by its name alone.
pub open spec fn fixed_shape(p: Path) -> Option<ParsedType> {
    if p.may_be_under2("std"@, "str"@) && p.ends_plainly_with("String"@) {
        Some(ParsedType::TSpecial(Special::String))
    } else if p.may_be_under2("std"@, "str"@) && p.ends_plainly_with("str"@) {
        Some(ParsedType::TSpecial(Special::RefStr))
    } else if p.may_be_under("serde_v8"@) && p.ends_plainly_with("V8Slice"@) {
        Some(ParsedType::TBuffer(Buffer::V8Slice))
    } else if p.may_be_under("serde_v8"@) && p.ends_plainly_with("JSBuffer"@) {
        Some(ParsedType::TBuffer(Buffer::JSBuffer))
    } else if p.may_be_under("bytes"@) && p.ends_plainly_with("Bytes"@) {
        Some(ParsedType::TBuffer(Buffer::Bytes))
    } else if p.may_be_under2("std"@, "ffi"@) && p.ends_plainly_with("c_void"@) {
        Some(ParsedType::TNumeric(NumericArg::__VOID__))
    } else if p.is_single() && p.ends_plainly_with("OpState"@) {
        Some(ParsedType::TSpecial(Special::OpState))
    } else if p.is_under("v8"@) && p.ends_plainly_with("FastApiCallbackOptions"@) {
        Some(ParsedType::TSpecial(Special::FastApiCallbackOptions))
    } else {
        None
    }
}

/// Whether the path is `Cow<str>`, with or without `std::borrow::`.
pub open spec fn is_cow_str(p: Path) -> bool {
    p.may_be_under2("std"@, "borrow"@) && p.ends_with("Cow"@) && match p.last().sole_type() {
        Some(ty) => match ty.plain_path() {
            Some(q) => q.is_single() && q.ends_plainly_with("str"@),
            None => false,
        },
        None => false,
    }
}

/// Whether the path is `v8::HandleScope`, with or without a lifetime.
pub open spec fn is_handle_scope(p: Path) -> bool {
    p.is_under("v8"@) && p.ends_with("HandleScope"@) && p.last().takes_at_most_a_lifetime()
}

/// The path `T` of `Vec<T>`, with or without `std::vec::`.
pub open spec fn vec_element(p: Path) -> Option<Path> {
    if p.may_be_under2("std"@, "vec"@) && p.ends_with("Vec"@) {
        match p.last().sole_type() {
            Some(ty) => ty.plain_path(),
            None => None,
        }
    } else {
        None
    }
}

/// The path `T` of `Box<[T]>`, with or without `std::boxed::`.
pub open spec fn boxed_slice_element(p: Path) -> Option<Path> {
    if p.may_be_under2("std"@, "boxed"@) && p.ends_with("Box"@) {
        match p.last().sole_type() {
            Some(TypeExpr::Slice { elem, .. }) => elem.plain_path(),
            _ => None,
        }
    } else {
        None
    }
}

/// The name `X` of `v8::wrapper<v8::X>`, with or without a lifetime before
/// the argument.
pub open spec fn wrapped_handle(p: Path, wrapper: Seq<char>) -> Option<Seq<char>> {
    if p.is_under("v8"@) && p.ends_with(wrapper) {
        match p.last().scoped_type() {
            Some(ty) => match ty.plain_path() {
                Some(q) => if q.is_under("v8"@) && q.last().arguments is Absent {
                    Some(q.last().ident@)
                } else {
                    None
                },
                None => None,
            },
            None => None,
        }
    } else {
        None
    }
}

/// The name `X` of `v8::X`.
pub open spec fn bare_handle(p: Path) -> Option<Seq<char>> {
    if p.is_under("v8"@) && p.last().arguments is Absent {
        Some(p.last().ident@)
    } else {
        None
    }
}

/// The type `T` of `Rc<RefCell<T>>`.
pub open spec fn shared_cell_content(p: Path) -> Option<TypeExpr> {
    if p.is_single() && p.ends_with("Rc"@) {
        match p.last().sole_type() {
            Some(ty) => match ty.plain_path() {
                Some(q) => if q.is_single() && q.ends_with("RefCell"@) {
                    q.last().sole_type()
                } else {
                    None
                },
                None => None,
            },
            None => None,
        }
    } else {
        None
    }
}

/// The type `T` of `Option<T>`.
pub open spec fn optional_content(p: Path) -> Option<TypeExpr> {
    if p.is_single() && p.ends_with("Option"@) {
        p.last().sole_type()
    } else {
        None
    }
}

/// What `Option<T>` resolves to, given how `T` classifies.
pub open spec fn optional_shape(inner: ArgView, text: Seq<char>) -> Result<
    ParsedTypeContainer,
    ArgErrorView,
> {
    match inner {
        ArgView::Special(s) => Ok(ParsedTypeContainer::COption(ParsedType::TSpecial(s))),
        ArgView::Numeric(n) => Ok(ParsedTypeContainer::COption(ParsedType::TNumeric(n))),
        ArgView::Buffer(b) => Ok(ParsedTypeContainer::COption(ParsedType::TBuffer(b))),
        ArgView::V8Ref(RefType::Ref, v) => Ok(ParsedTypeContainer::COption(ParsedType::TV8(v))),
        ArgView::V8Ref(RefType::Mut, v) => Ok(
            ParsedTypeContainer::COption(ParsedType::TV8Mut(v)),
        ),
        ArgView::V8Local(v) => Ok(ParsedTypeContainer::COptionV8Local(ParsedType::TV8(v))),
        _ => Err(ArgErrorView::InvalidType(text)),
    }
}

/// What `Rc<RefCell<T>>` resolves to, given how `T` classifies.
pub open spec fn shared_cell_shape(inner: ArgView, text: Seq<char>) -> Result<
    ParsedTypeContainer,
    ArgErrorView,
> {
    match special_of(inner, text) {
        Ok(s) => Ok(ParsedTypeContainer::CRcRefCell(ParsedType::TSpecial(s))),
        Err(e) => Err(e),
    }
}

/// The special kind that a type stands for, given how the type classifies.
pub open spec fn special_of(inner: ArgView, text: Seq<char>) -> Result<Special, ArgErrorView> {
    match inner {
        ArgView::Special(s) => Ok(s),
        _ => Err(ArgErrorView::InvalidType(text)),
    }
}

/// The special kind that a type stands for under `attrs`.
pub open spec fn special_class(attrs: Attributes, ty: TypeExpr) -> Result<Special, ArgErrorView> {
    match type_class(attrs, ty) {
        Ok(a) => special_of(a, text_of(ty)),
        Err(e) => Err(e),
    }
}

/// The classification of a type that stands inside another type, with
/// `depth` levels of nesting left: with none left the type is refused as
/// invalid, whatever it is; otherwise it classifies with one level less.
pub open spec fn nested_class(depth: nat, attrs: Attributes, ty: TypeExpr) -> Result<
    ArgView,
    ArgErrorView,
>
    decreases ty, 2nat,
{
    if depth == 0 {
        Err(ArgErrorView::InvalidType(text_of(ty)))
    } else {
        type_class_within((depth - 1) as nat, attrs, ty)
    }
}

/// The shape that a path resolves to, by its name and arguments alone, with
/// `depth` levels of nesting left for the types among its arguments.
///
/// A numeric name comes first, whatever surrounds it. A path that is
/// qualified by a self type names no shape. Then come the names that stand
/// for one shape, then the names that take arguments.
pub open spec fn resolve_within(depth: nat, attrs: Attributes, tp: TypePath) -> Result<
    ParsedTypeContainer,
    ArgErrorView,
>
    decreases tp, 0nat,
{
    let p = tp.path;
    if numeric_of(p) is Ok {
        Ok(ParsedTypeContainer::CBare(ParsedType::TNumeric(numeric_of(p)->Ok_0)))
    } else if tp.qualified {
        Err(ArgErrorView::InvalidTypePath(rendered(tp.tokens@)))
    } else if fixed_shape(p) is Some {
        Ok(ParsedTypeContainer::CBare(fixed_shape(p)->Some_0))
    } else if is_cow_str(p) {
        Ok(ParsedTypeContainer::CBare(ParsedType::TSpecial(Special::CowStr)))
    } else if is_handle_scope(p) {
        Ok(ParsedTypeContainer::CBare(ParsedType::TSpecial(Special::HandleScope)))
    } else if vec_element(p) is Some {
        match numeric_of(vec_element(p)->Some_0) {
            Ok(n) => Ok(ParsedTypeContainer::CBare(ParsedType::TBuffer(Buffer::Vec(n)))),
            Err(e) => Err(e),
        }
    } else if boxed_slice_element(p) is Some {
        match numeric_of(boxed_slice_element(p)->Some_0) {
            Ok(n) => Ok(ParsedTypeContainer::CBare(ParsedType::TBuffer(Buffer::BoxSlice(n)))),
            Err(e) => Err(e),
        }
    } else if wrapped_handle(p, "Local"@) is Some {
        match handle_of(wrapped_handle(p, "Local"@)->Some_0) {
            Ok(v) => Ok(ParsedTypeContainer::CV8Local(ParsedType::TV8(v))),
            Err(e) => Err(e),
        }
    } else if wrapped_handle(p, "Global"@) is Some {
        match handle_of(wrapped_handle(p, "Global"@)->Some_0) {
            Ok(v) => Ok(ParsedTypeContainer::CV8Global(ParsedType::TV8(v))),
            Err(e) => Err(e),
        }
    } else if bare_handle(p) is Some {
        match handle_of(bare_handle(p)->Some_0) {
            Ok(v) => Ok(ParsedTypeContainer::CBare(ParsedType::TV8(v))),
            Err(e) => Err(e),
        }
    } else if shared_cell_content(p) is Some {
        let inner = shared_cell_content(p)->Some_0;
        match nested_class(depth, attrs, inner) {
            Ok(a) => shared_cell_shape(a, text_of(inner)),
            Err(e) => Err(e),
        }
    } else if optional_content(p) is Some {
        let inner = optional_content(p)->Some_0;
        match nested_class(depth, attrs, inner) {
            Ok(a) => optional_shape(a, text_of(inner)),
            Err(e) => Err(e),
        }
    } else {
        Err(ArgErrorView::InvalidTypePath(rendered(tp.tokens@)))
    }
}

impl ParsedTypeContainer {
    /// Whether the shape can only stand behind a reference: a bare handle
    /// kind, the handle scope, the borrowed string.
    pub open spec fn needs_reference(self) -> bool {
        match self {
            ParsedTypeContainer::CBare(ParsedType::TSpecial(s)) => s == Special::RefStr || s
                == Special::HandleScope,
            ParsedTypeContainer::CBare(ParsedType::TV8(_)) => true,
            _ => false,
        }
    }

    /// Whether the shape may stand behind a reference or without one: the
    /// shared state.
    pub open spec fn allows_reference(self) -> bool {
        self == ParsedTypeContainer::CBare(ParsedType::TSpecial(Special::OpState))
    }

    /// Whether the shape is one of the three strings, bare.
    pub open spec fn is_string(self) -> bool {
        match self {
            ParsedTypeContainer::CBare(ParsedType::TSpecial(s)) => s == Special::RefStr || s
                == Special::CowStr || s == Special::String,
            _ => false,
        }
    }

    /// Whether the shape is a bare numeric kind that holds data, which a raw
    /// pointer can point to as a buffer.
    pub open spec fn is_pointable(self) -> bool {
        match self {
            ParsedTypeContainer::CBare(ParsedType::TNumeric(n)) => n != NumericArg::__VOID__,
            _ => false,
        }
    }
}

/// What is wrong, if anything, with a shape standing at `place`.
pub open spec fn reference_error(shape: ParsedTypeContainer, place: Place, text: Seq<char>)
    -> Option<ArgErrorView> {
    if shape.allows_reference() {
        None
    } else if shape.needs_reference() {
        if place is Referent {
            None
        } else {
            Some(ArgErrorView::MissingReference(text))
        }
    } else if place is Referent {
        Some(ArgErrorView::InvalidReference(text))
    } else {
        None
    }
}

/// What is wrong, if anything, with a shape under the modifier of its site.
///
/// A string needs the string modifier. A buffer needs the buffer modifier,
/// in a mode that its representation admits. Any other bare shape takes
/// neither, but for a numeric kind behind a raw pointer, which the buffer
/// modifier makes a buffer.
pub open spec fn attribute_error(
    shape: ParsedTypeContainer,
    attrs: Attributes,
    place: Place,
    text: Seq<char>,
) -> Option<ArgErrorView> {
    match shape {
        ParsedTypeContainer::CBare(ParsedType::TBuffer(buffer)) => match attrs.primary {
            Some(AttributeModifier::Buffer(mode)) => if buffer.admits(mode) {
                None
            } else {
                Some(ArgErrorView::InvalidBufferMode(mode.name_text(), text))
            },
            _ => Some(ArgErrorView::MissingBufferAttribute),
        },
        ParsedTypeContainer::CBare(_) => if shape.is_string() {
            if attrs.primary == Some(AttributeModifier::String) {
                None
            } else {
                Some(ArgErrorView::MissingStringAttribute)
            }
        } else {
            match attrs.primary {
                Some(AttributeModifier::String) => Some(ArgErrorView::InvalidStringType(text)),
                Some(AttributeModifier::Buffer(_)) => if place is Pointee && shape.is_pointable() {
                    None
                } else {
                    Some(ArgErrorView::InvalidBufferType(text))
                },
                _ => None,
            }
        },
        _ => None,
    }
}

/// The shape of a path at `place` under `attrs`: the shape it resolves to,
/// if that shape may stand there and agrees with the modifier.
pub open spec fn path_class(attrs: Attributes, place: Place, tp: TypePath) -> Result<
    ParsedTypeContainer,
    ArgErrorView,
> {
    path_class_within(MAX_NESTING as nat, attrs, place, tp)
}

/// The shape of a path at `place` under `attrs`, with `depth` levels of
/// nesting left.
pub open spec fn path_class_within(depth: nat, attrs: Attributes, place: Place, tp: TypePath)
    -> Result<ParsedTypeContainer, ArgErrorView>
    decreases tp, 1nat,
{
    let text = rendered(tp.tokens@);
    match resolve_within(depth, attrs, tp) {
        Err(e) => Err(e),
        Ok(shape) => match reference_error(shape, place, text) {
            Some(e) => Err(e),
            None => match attribute_error(shape, attrs, place, text) {
                Some(e) => Err(e),
                None => Ok(shape),
            },
        },
    }
}

/// The buffer argument of representation `buffer`, if the site carries the
/// buffer modifier in a mode that the representation admits. Without the
/// modifier the buffer lacks its decorator.
pub open spec fn buffer_class(attrs: Attributes, buffer: Buffer, text: Seq<char>) -> Result<
    ArgView,
    ArgErrorView,
> {
    match attrs.primary {
        Some(AttributeModifier::Buffer(mode)) => if buffer.admits(mode) {
            Ok(ArgView::Buffer(buffer))
        } else {
            Err(ArgErrorView::InvalidBufferMode(mode.name_text(), text))
        },
        _ => Err(ArgErrorView::MissingBufferAttribute),
    }
}

/// The argument for a path that stands by itself, given its shape.
pub open spec fn bare_argument(shape: ParsedTypeContainer, text: Seq<char>) -> Result<
    ArgView,
    ArgErrorView,
> {
    match shape {
        ParsedTypeContainer::CBare(ParsedType::TNumeric(n)) => Ok(ArgView::Numeric(n)),
        ParsedTypeContainer::CBare(ParsedType::TSpecial(s)) => Ok(ArgView::Special(s)),
        ParsedTypeContainer::CBare(ParsedType::TBuffer(b)) => Ok(ArgView::Buffer(b)),
        ParsedTypeContainer::COption(ParsedType::TNumeric(n)) => Ok(ArgView::OptionNumeric(n)),
        ParsedTypeContainer::COption(ParsedType::TSpecial(s)) => Ok(ArgView::Option(s)),
        ParsedTypeContainer::CRcRefCell(ParsedType::TSpecial(s)) => Ok(ArgView::RcRefCell(s)),
        ParsedTypeContainer::COptionV8Local(ParsedType::TV8(v)) => Ok(ArgView::OptionV8Local(v)),
        ParsedTypeContainer::COption(ParsedType::TV8(v)) => Ok(
            ArgView::OptionV8Ref(RefType::Ref, v),
        ),
        ParsedTypeContainer::COption(ParsedType::TV8Mut(v)) => Ok(
            ArgView::OptionV8Ref(RefType::Mut, v),
        ),
        ParsedTypeContainer::CV8Local(ParsedType::TV8(v)) => Ok(ArgView::V8Local(v)),
        ParsedTypeContainer::CV8Global(ParsedType::TV8(v)) => Ok(ArgView::V8Global(v)),
        _ => Err(ArgErrorView::InvalidType(text)),
    }
}

/// The argument for a reference to a path, given the shape of the path.
pub open spec fn referent_argument(shape: ParsedTypeContainer, r: RefType, text: Seq<char>)
    -> Result<ArgView, ArgErrorView> {
    match shape {
        ParsedTypeContainer::CBare(ParsedType::TSpecial(Special::RefStr)) => Ok(
            ArgView::Special(Special::RefStr),
        ),
        ParsedTypeContainer::CBare(ParsedType::TV8(v)) => Ok(ArgView::V8Ref(r, v)),
        ParsedTypeContainer::CBare(ParsedType::TSpecial(s)) => Ok(ArgView::Ref(r, s)),
        _ => Err(ArgErrorView::InvalidType(text)),
    }
}

/// The argument for a raw pointer to a path, given the shape of the path.
pub open spec fn pointee_argument(
    shape: ParsedTypeContainer,
    attrs: Attributes,
    r: RefType,
    text: Seq<char>,
) -> Result<ArgView, ArgErrorView> {
    match shape {
        ParsedTypeContainer::CBare(ParsedType::TNumeric(n)) => if n == NumericArg::__VOID__ {
            Ok(ArgView::External(External::Ptr(r)))
        } else {
            buffer_class(attrs, Buffer::Ptr(r, n), text)
        },
        _ => Err(ArgErrorView::InvalidType(text)),
    }
}

/// Whether a path names untyped data: `c_void`, with or without
/// `std::ffi::`.
pub open spec fn is_untyped(tp: TypePath) -> bool {
    !tp.qualified && fixed_shape(tp.path) == Some(ParsedType::TNumeric(NumericArg::__VOID__))
}

/// The kind of the elements of a slice: the numeric kind that the path
/// names, or the placeholder for untyped data.
pub open spec fn element_of(tp: TypePath) -> Result<NumericArg, ArgErrorView> {
    match numeric_of(tp.path) {
        Ok(n) => Ok(n),
        Err(e) => if is_untyped(tp) {
            Ok(NumericArg::__VOID__)
        } else {
            Err(e)
        },
    }
}

/// The argument for a reference to a slice of `elem`: an external pointer
/// for untyped elements, with or without a modifier, and a buffer for
/// elements of a numeric kind.
pub open spec fn slice_argument(attrs: Attributes, r: RefType, elem: TypeExpr, text: Seq<char>)
    -> Result<ArgView, ArgErrorView> {
    match elem {
        TypeExpr::Path(tp) => match element_of(tp) {
            Err(e) => Err(e),
            Ok(n) => if n == NumericArg::__VOID__ {
                Ok(ArgView::External(External::Ptr(r)))
            } else {
                buffer_class(attrs, Buffer::Slice(r, n), text)
            },
        },
        _ => Err(ArgErrorView::InvalidType(text)),
    }
}

/// Whether a path names a type that should not be passed through
/// serialization because the runtime has a handle kind for it.
pub open spec fn is_denied_passthrough(tp: TypePath) -> bool {
    !tp.qualified && tp.path.may_be_under("serde_v8"@) && tp.path.ends_with("Value"@)
        && tp.path.last().takes_at_most_a_lifetime()
}

/// The argument of a type under the serialization modifier: a tuple, or a
/// path that classifies neither undecorated nor as a string and that is not
/// denied.
pub open spec fn serde_class_within(depth: nat, ty: TypeExpr) -> Result<ArgView, ArgErrorView>
    decreases ty, 0nat,
{
    match ty {
        TypeExpr::Tuple { .. } => Ok(ArgView::SerdeV8(text_of(ty))),
        TypeExpr::Path(tp) => if path_class_within(depth, Attributes::none(), Place::Bare, tp) is Ok
            || path_class_within(
            depth,
            Attributes { primary: Some(AttributeModifier::String) },
            Place::Bare,
            tp,
        ) is Ok {
            Err(ArgErrorView::InvalidSerdeAttributeType(text_of(ty)))
        } else if is_denied_passthrough(tp) {
            Err(ArgErrorView::InvalidSerdeType(text_of(ty), "use v8::Value"@))
        } else {
            Ok(ArgView::SerdeV8(rendered(tp.path.tokens@)))
        },
        _ => Err(ArgErrorView::InvalidSerdeAttributeType(text_of(ty))),
    }
}

/// The argument of a type under the state modifier: `&T`, `&mut T`, or one
/// of them in one `Option`.
pub open spec fn state_class(ty: TypeExpr) -> Result<ArgView, ArgErrorView> {
    state_class_within(MAX_NESTING as nat, ty)
}

/// The argument of a type under the state modifier, with `depth` levels of
/// nesting left: with none left, the type inside an `Option` is refused as
/// no state type, whatever it is.
pub open spec fn state_class_within(depth: nat, ty: TypeExpr) -> Result<ArgView, ArgErrorView>
    decreases ty,
{
    match ty {
        TypeExpr::Path(tp) => if !tp.qualified && optional_content(tp.path) is Some {
            let inner = optional_content(tp.path)->Some_0;
            if depth == 0 {
                Err(ArgErrorView::InvalidStateType(text_of(inner)))
            } else {
                match state_class_within((depth - 1) as nat, inner) {
                    Ok(ArgView::State(r, name)) => Ok(ArgView::OptionState(r, name)),
                    Ok(_) => Err(ArgErrorView::InvalidStateType(text_of(ty))),
                    Err(e) => Err(e),
                }
            }
        } else {
            Err(ArgErrorView::InvalidStateType(text_of(ty)))
        },
        TypeExpr::Reference { mutable, elem, .. } => Ok(
            ArgView::State(ref_type(mutable), text_of(*elem)),
        ),
        _ => Err(ArgErrorView::InvalidStateType(text_of(ty))),
    }
}

/// The argument of a type by its structure, under no modifier or under the
/// string or buffer modifier.
pub open spec fn plain_class_within(depth: nat, attrs: Attributes, ty: TypeExpr) -> Result<
    ArgView,
    ArgErrorView,
>
    decreases ty, 0nat,
{
    let text = text_of(ty);
    match ty {
        TypeExpr::Tuple { elems, .. } => if elems.len() == 0 {
            Ok(ArgView::Void)
        } else {
            Err(ArgErrorView::InvalidType(text))
        },
        TypeExpr::Reference { mutable, elem, .. } => match *elem {
            TypeExpr::Slice { elem: of, .. } => slice_argument(attrs, ref_type(mutable), *of, text),
            TypeExpr::Path(tp) => match path_class_within(depth, attrs, Place::Referent, tp) {
                Ok(shape) => referent_argument(shape, ref_type(mutable), text),
                Err(e) => Err(e),
            },
            _ => Err(ArgErrorView::InvalidType(text)),
        },
        TypeExpr::Ptr { mutable, elem, .. } => match *elem {
            TypeExpr::Path(tp) => match path_class_within(depth, attrs, Place::Pointee, tp) {
                Ok(shape) => pointee_argument(shape, attrs, ref_type(mutable), text),
                Err(e) => Err(e),
            },
            _ => Err(ArgErrorView::InvalidType(text)),
        },
        TypeExpr::Path(tp) => match path_class_within(depth, attrs, Place::Bare, tp) {
            Ok(shape) => bare_argument(shape, text),
            Err(e) => Err(e),
        },
        _ => Err(ArgErrorView::InvalidType(text)),
    }
}

/// The classification of a type expression under the modifier of its site.
///
/// Classification reads the types that stand inside `Option<..>` and
/// `Rc<RefCell<..>>`, and those inside them, down to [`MAX_NESTING`] levels
/// below the type expression itself. A type that stands deeper is refused as
/// invalid without being read.
pub open spec fn type_class(attrs: Attributes, ty: TypeExpr) -> Result<ArgView, ArgErrorView> {
    type_class_within(MAX_NESTING as nat, attrs, ty)
}

/// The classification of a type expression under the modifier of its site,
/// with `depth` levels of nesting left below it.
pub open spec fn type_class_within(depth: nat, attrs: Attributes, ty: TypeExpr) -> Result<
    ArgView,
    ArgErrorView,
>
    decreases ty, 1nat,
{
    match attrs.primary {
        Some(AttributeModifier::Serde) => serde_class_within(depth, ty),
        Some(AttributeModifier::State) => state_class_within(depth, ty),
        Some(AttributeModifier::Smi) => Ok(ArgView::Numeric(NumericArg::__SMI__)),
        _ => plain_class_within(depth, attrs, ty),
    }
}

/// Finds the numeric kind that a path names.
pub fn parse_numeric_type(p: &Path) -> (r: Result<NumericArg, ArgError>)
    ensures
        failing(r) == numeric_of(*p),
{
    if p.segments.len() == 1 {
        match NumericArg::from_name(p.segments[0].ident.as_str()) {
            Some(n) => {
                return Ok(n);
            },
            None => {},
        }
    }
    Err(ArgError::InvalidNumericType(stringify_token(&p.tokens)))
}

/// Finds the handle kind of the given name.
pub fn parse_v8_type(name: &String) -> (r: Result<V8Arg, ArgError>)
    ensures
        failing(r) == handle_of(name@),
{
    match V8Arg::from_name(name.as_str()) {
        Some(v) => Ok(v),
        None => Err(ArgError::InvalidV8Type(name.clone())),
    }
}

fn find_fixed_shape(p: &Path) -> (found: Option<ParsedType>)
    ensures
        found == fixed_shape(*p),
{
    if (p.single() || p.under2("std", "str")) && p.ends_plainly_in("String") {
        Some(ParsedType::TSpecial(Special::String))
    } else if (p.single() || p.under2("std", "str")) && p.ends_plainly_in("str") {
        Some(ParsedType::TSpecial(Special::RefStr))
    } else if (p.single() || p.under("serde_v8")) && p.ends_plainly_in("V8Slice") {
        Some(ParsedType::TBuffer(Buffer::V8Slice))
    } else if (p.single() || p.under("serde_v8")) && p.ends_plainly_in("JSBuffer") {
        Some(ParsedType::TBuffer(Buffer::JSBuffer))
    } else if (p.single() || p.under("bytes")) && p.ends_plainly_in("Bytes") {
        Some(ParsedType::TBuffer(Buffer::Bytes))
    } else if (p.single() || p.under2("std", "ffi")) && p.ends_plainly_in("c_void") {
        Some(ParsedType::TNumeric(NumericArg::__VOID__))
    } else if p.single() && p.ends_plainly_in("OpState") {
        Some(ParsedType::TSpecial(Special::OpState))
    } else if p.under("v8") && p.ends_plainly_in("FastApiCallbackOptions") {
        Some(ParsedType::TSpecial(Special::FastApiCallbackOptions))
    } else {
        None
    }
}

fn names_cow_str(p: &Path) -> (so: bool)
    ensures
        so == is_cow_str(*p),
{
    if (p.single() || p.under2("std", "borrow")) && p.ends_in("Cow") {
        match p.last_segment().only_type() {
            Some(ty) => match ty.as_plain_path() {
                Some(q) => q.single() && q.ends_plainly_in("str"),
                None => false,
            },
            None => false,
        }
    } else {
        false
    }
}

fn names_handle_scope(p: &Path) -> (so: bool)
    ensures
        so == is_handle_scope(*p),
{
    p.under("v8") && p.ends_in("HandleScope") && p.last_segment().at_most_a_lifetime()
}

fn find_vec_element(p: &Path) -> (found: Option<&Path>)
    ensures
        match found {
            Some(q) => vec_element(*p) == Some(*q),
            None => vec_element(*p) is None,
        },
{
    if (p.single() || p.under2("std", "vec")) && p.ends_in("Vec") {
        match p.last_segment().only_type() {
            Some(ty) => ty.as_plain_path(),
            None => None,
        }
    } else {
        None
    }
}

fn find_boxed_slice_element(p: &Path) -> (found: Option<&Path>)
    ensures
        match found {
            Some(q) => boxed_slice_element(*p) == Some(*q),
            None => boxed_slice_element(*p) is None,
        },
{
    if (p.single() || p.under2("std", "boxed")) && p.ends_in("Box") {
        match p.last_segment().only_type() {
            Some(TypeExpr::Slice { elem, .. }) => elem.as_plain_path(),
            _ => None,
        }
    } else {
        None
    }
}

fn find_wrapped_handle<'a>(p: &'a Path, wrapper: &str) -> (found: Option<&'a String>)
    ensures
        match found {
            Some(name) => wrapped_handle(*p, wrapper@) == Some(name@),
            None => wrapped_handle(*p, wrapper@) is None,
        },
{
    if p.under("v8") && p.ends_in(wrapper) {
        match p.last_segment().type_in_scope() {
            Some(ty) => match ty.as_plain_path() {
                Some(q) => {
                    if q.under("v8") && q.last_segment().is_bare() {
                        Some(&q.last_segment().ident)
                    } else {
                        None
                    }
                },
                None => None,
            },
            None => None,
        }
    } else {
        None
    }
}

fn find_bare_handle(p: &Path) -> (found: Option<&String>)
    ensures
        match found {
            Some(name) => bare_handle(*p) == Some(name@),
            None => bare_handle(*p) is None,
        },
{
    if p.under("v8") && p.last_segment().is_bare() {
        Some(&p.last_segment().ident)
    } else {
        None
    }
}

fn find_shared_cell_content(p: &Path) -> (found: Option<&TypeExpr>)
    ensures
        match found {
            Some(ty) => shared_cell_content(*p) == Some(*ty),
            None => shared_cell_content(*p) is None,
        },
{
    if p.single() && p.ends_in("Rc") {
        match p.last_segment().only_type() {
            Some(ty) => match ty.as_plain_path() {
                Some(q) => {
                    if q.single() && q.ends_in("RefCell") {
                        q.last_segment().only_type()
                    } else {
                        None
                    }
                },
                None => None,
            },
            None => None,
        }
    } else {
        None
    }
}

fn find_optional_content(p: &Path) -> (found: Option<&TypeExpr>)
    ensures
        match found {
            Some(ty) => optional_content(*p) == Some(*ty),
            None => optional_content(*p) is None,
        },
{
    if p.single() && p.ends_in("Option") {
        p.last_segment().only_type()
    } else {
        None
    }
}

fn shape_of_optional(inner: Arg, ty: &TypeExpr) -> (r: Result<ParsedTypeContainer, ArgError>)
    ensures
        failing(r) == optional_shape(inner@, text_of(*ty)),
{
    match inner {
        Arg::Special(s) => Ok(ParsedTypeContainer::COption(ParsedType::TSpecial(s))),
        Arg::Numeric(n) => Ok(ParsedTypeContainer::COption(ParsedType::TNumeric(n))),
        Arg::Buffer(b) => Ok(ParsedTypeContainer::COption(ParsedType::TBuffer(b))),
        Arg::V8Ref(RefType::Ref, v) => Ok(ParsedTypeContainer::COption(ParsedType::TV8(v))),
        Arg::V8Ref(RefType::Mut, v) => Ok(ParsedTypeContainer::COption(ParsedType::TV8Mut(v))),
        Arg::V8Local(v) => Ok(ParsedTypeContainer::COptionV8Local(ParsedType::TV8(v))),
        _ => Err(ArgError::InvalidType(stringify_token(ty.tokens()))),
    }
}

fn shape_of_shared_cell(inner: Arg, ty: &TypeExpr) -> (r: Result<ParsedTypeContainer, ArgError>)
    ensures
        failing(r) == shared_cell_shape(inner@, text_of(*ty)),
{
    match inner {
        Arg::Special(s) => Ok(ParsedTypeContainer::CRcRefCell(ParsedType::TSpecial(s))),
        _ => Err(ArgError::InvalidType(stringify_token(ty.tokens()))),
    }
}

/// Classifies a type that stands inside another type.
fn parse_nested_type(depth: usize, attrs: Attributes, ty: &TypeExpr) -> (r: Result<Arg, ArgError>)
    ensures
        outcome(r) == nested_class(depth as nat, attrs, *ty),
    decreases ty, 2nat,
{
    if depth == 0 {
        Err(ArgError::InvalidType(stringify_token(ty.tokens())))
    } else {
        parse_type_within(depth - 1, attrs, ty)
    }
}

/// Resolves a path to a shape by its name and arguments.
fn resolve_type_path(depth: usize, attrs: Attributes, tp: &TypePath) -> (r: Result<
    ParsedTypeContainer,
    ArgError,
>)
    ensures
        failing(r) == resolve_within(depth as nat, attrs, *tp),
    decreases tp, 0nat,
{
    let p = &tp.path;
    if let Ok(n) = parse_numeric_type(p) {
        return Ok(ParsedTypeContainer::CBare(ParsedType::TNumeric(n)));
    }
    if tp.qualified {
        return Err(ArgError::InvalidTypePath(stringify_token(&tp.tokens)));
    }
    if let Some(shape) = find_fixed_shape(p) {
        return Ok(ParsedTypeContainer::CBare(shape));
    }
    if names_cow_str(p) {
        return Ok(ParsedTypeContainer::CBare(ParsedType::TSpecial(Special::CowStr)));
    }
    if names_handle_scope(p) {
        return Ok(ParsedTypeContainer::CBare(ParsedType::TSpecial(Special::HandleScope)));
    }
    if let Some(q) = find_vec_element(p) {
        return match parse_numeric_type(q) {
            Ok(n) => Ok(ParsedTypeContainer::CBare(ParsedType::TBuffer(Buffer::Vec(n)))),
            Err(e) => Err(e),
        };
    }
    if let Some(q) = find_boxed_slice_element(p) {
        return match parse_numeric_type(q) {
            Ok(n) => Ok(ParsedTypeContainer::CBare(ParsedType::TBuffer(Buffer::BoxSlice(n)))),
            Err(e) => Err(e),
        };
    }
    if let Some(name) = find_wrapped_handle(p, "Local") {
        return match parse_v8_type(name) {
            Ok(v) => Ok(ParsedTypeContainer::CV8Local(ParsedType::TV8(v))),
            Err(e) => Err(e),
        };
    }
    if let Some(name) = find_wrapped_handle(p, "Global") {
        return match parse_v8_type(name) {
            Ok(v) => Ok(ParsedTypeContainer::CV8Global(ParsedType::TV8(v))),
            Err(e) => Err(e),
        };
    }
    if let Some(name) = find_bare_handle(p) {
        return match parse_v8_type(name) {
            Ok(v) => Ok(ParsedTypeContainer::CBare(ParsedType::TV8(v))),
            Err(e) => Err(e),
        };
    }
    if let Some(inner) = find_shared_cell_content(p) {
        return match parse_nested_type(depth, attrs, inner) {
            Ok(a) => shape_of_shared_cell(a, inner),
            Err(e) => Err(e),
        };
    }
    if let Some(inner) = find_optional_content(p) {
        return match parse_nested_type(depth, attrs, inner) {
            Ok(a) => shape_of_optional(a, inner),
            Err(e) => Err(e),
        };
    }
    Err(ArgError::InvalidTypePath(stringify_token(&tp.tokens)))
}

/// Classifies a path at `place` under `attrs`: resolves it to a shape, then
/// holds the shape against the place and against the modifier.
pub fn parse_type_path(attrs: Attributes, place: Place, tp: &TypePath) -> (r: Result<
    ParsedTypeContainer,
    ArgError,
>)
    ensures
        failing(r) == path_class(attrs, place, *tp),
{
    parse_type_path_within(MAX_NESTING, attrs, place, tp)
}

fn parse_type_path_within(depth: usize, attrs: Attributes, place: Place, tp: &TypePath) -> (r:
    Result<ParsedTypeContainer, ArgError>)
    ensures
        failing(r) == path_class_within(depth as nat, attrs, place, *tp),
    decreases tp, 1nat,
{
    let shape = match resolve_type_path(depth, attrs, tp) {
        Ok(shape) => shape,
        Err(e) => {
            return Err(e);
        },
    };
    let referent = matches!(place, Place::Referent);
    match shape {
        ParsedTypeContainer::CBare(ParsedType::TSpecial(Special::OpState)) => {},
        ParsedTypeContainer::CBare(
            ParsedType::TSpecial(Special::RefStr | Special::HandleScope) | ParsedType::TV8(_),
        ) => {
            if !referent {
                return Err(ArgError::MissingReference(stringify_token(&tp.tokens)));
            }
        },
        _ => {
            if referent {
                return Err(ArgError::InvalidReference(stringify_token(&tp.tokens)));
            }
        },
    }
    match shape {
        ParsedTypeContainer::CBare(
            ParsedType::TSpecial(Special::RefStr | Special::CowStr | Special::String),
        ) => {
            if !matches!(attrs.primary, Some(AttributeModifier::String)) {
                return Err(ArgError::MissingStringAttribute);
            }
        },
        ParsedTypeContainer::CBare(ParsedType::TBuffer(buffer)) => {
            match attrs.primary {
                Some(AttributeModifier::Buffer(mode)) => {
                    if !buffer.is_valid_mode(mode) {
                        return Err(
                            ArgError::InvalidBufferMode(
                                mode.name().to_owned(),
                                stringify_token(&tp.tokens),
                            ),
                        );
                    }
                },
                _ => {
                    return Err(ArgError::MissingBufferAttribute);
                },
            }
        },
        ParsedTypeContainer::CBare(inner) => {
            match attrs.primary {
                Some(AttributeModifier::String) => {
                    return Err(ArgError::InvalidStringType(stringify_token(&tp.tokens)));
                },
                Some(AttributeModifier::Buffer(_)) => {
                    let pointable = match inner {
                        ParsedType::TNumeric(NumericArg::__VOID__) => false,
                        ParsedType::TNumeric(_) => true,
                        _ => false,
                    };
                    if !(matches!(place, Place::Pointee) && pointable) {
                        return Err(ArgError::InvalidBufferType(stringify_token(&tp.tokens)));
                    }
                },
                _ => {},
            }
        },
        _ => {},
    }
    Ok(shape)
}

/// Classifies a type that must stand for a special kind.
pub fn parse_type_special(attrs: Attributes, ty: &TypeExpr) -> (r: Result<Special, ArgError>)
    ensures
        failing(r) == special_class(attrs, *ty),
{
    match parse_type(attrs, ty) {
        Ok(Arg::Special(s)) => Ok(s),
        Ok(_) => Err(ArgError::InvalidType(stringify_token(ty.tokens()))),
        Err(e) => Err(e),
    }
}

/// Classifies a type under the state modifier.
pub fn parse_type_state(ty: &TypeExpr) -> (r: Result<Arg, ArgError>)
    ensures
        outcome(r) == state_class(*ty),
{
    parse_type_state_within(MAX_NESTING, ty)
}

fn parse_type_state_within(depth: usize, ty: &TypeExpr) -> (r: Result<Arg, ArgError>)
    ensures
        outcome(r) == state_class_within(depth as nat, *ty),
    decreases ty,
{
    match ty {
        TypeExpr::Path(tp) => {
            let inner = if tp.qualified {
                None
            } else {
                find_optional_content(&tp.path)
            };
            match inner {
                Some(inner) => {
                    if depth == 0 {
                        return Err(ArgError::InvalidStateType(stringify_token(inner.tokens())));
                    }
                    match parse_type_state_within(depth - 1, inner) {
                        Ok(Arg::State(r, name)) => Ok(Arg::OptionState(r, name)),
                        Ok(_) => Err(ArgError::InvalidStateType(stringify_token(ty.tokens()))),
                        Err(e) => Err(e),
                    }
                },
                None => Err(ArgError::InvalidStateType(stringify_token(ty.tokens()))),
            }
        },
        TypeExpr::Reference { mutable, elem, .. } => {
            let r = if *mutable {
                RefType::Mut
            } else {
                RefType::Ref
            };
            Ok(Arg::State(r, stringify_token(elem.tokens())))
        },
        _ => Err(ArgError::InvalidStateType(stringify_token(ty.tokens()))),
    }
}

fn buffer_argument(attrs: Attributes, buffer: Buffer, ty: &TypeExpr) -> (r: Result<Arg, ArgError>)
    ensures
        outcome(r) == buffer_class(attrs, buffer, text_of(*ty)),
{
    match attrs.primary {
        Some(AttributeModifier::Buffer(mode)) => {
            if buffer.is_valid_mode(mode) {
                Ok(Arg::Buffer(buffer))
            } else {
                Err(
                    ArgError::InvalidBufferMode(
                        mode.name().to_owned(),
                        stringify_token(ty.tokens()),
                    ),
                )
            }
        },
        _ => Err(ArgError::MissingBufferAttribute),
    }
}

fn element_type(tp: &TypePath) -> (r: Result<NumericArg, ArgError>)
    ensures
        failing(r) == element_of(*tp),
{
    match parse_numeric_type(&tp.path) {
        Ok(n) => Ok(n),
        Err(e) => {
            if !tp.qualified && matches!(
                find_fixed_shape(&tp.path),
                Some(ParsedType::TNumeric(NumericArg::__VOID__))
            ) {
                Ok(NumericArg::__VOID__)
            } else {
                Err(e)
            }
        },
    }
}

fn parse_type_serde(depth: usize, ty: &TypeExpr) -> (r: Result<Arg, ArgError>)
    ensures
        outcome(r) == serde_class_within(depth as nat, *ty),
    decreases ty, 0nat,
{
    match ty {
        TypeExpr::Tuple { .. } => Ok(Arg::SerdeV8(stringify_token(ty.tokens()))),
        TypeExpr::Path(tp) => {
            // A type that classifies without the modifier, or as a string,
            // has no use for it.
            if parse_type_path_within(depth, Attributes::default(), Place::Bare, tp).is_ok() {
                return Err(ArgError::InvalidSerdeAttributeType(stringify_token(ty.tokens())));
            }
            if parse_type_path_within(depth, Attributes::string(), Place::Bare, tp).is_ok() {
                return Err(ArgError::InvalidSerdeAttributeType(stringify_token(ty.tokens())));
            }
            let p = &tp.path;
            if !tp.qualified && (p.single() || p.under("serde_v8")) && p.ends_in("Value")
                && p.last_segment().at_most_a_lifetime() {
                return Err(
                    ArgError::InvalidSerdeType(stringify_token(ty.tokens()), "use v8::Value"),
                );
            }
            Ok(Arg::SerdeV8(stringify_token(&p.tokens)))
        },
        _ => Err(ArgError::InvalidSerdeAttributeType(stringify_token(ty.tokens()))),
    }
}

fn parse_type_plain(depth: usize, attrs: Attributes, ty: &TypeExpr) -> (r: Result<Arg, ArgError>)
    ensures
        outcome(r) == plain_class_within(depth as nat, attrs, *ty),
    decreases ty, 0nat,
{
    match ty {
        TypeExpr::Tuple { elems, .. } => {
            if elems.len() == 0 {
                Ok(Arg::Void)
            } else {
                Err(ArgError::InvalidType(stringify_token(ty.tokens())))
            }
        },
        TypeExpr::Reference { mutable, elem, .. } => {
            let r = if *mutable {
                RefType::Mut
            } else {
                RefType::Ref
            };
            match &**elem {
                // Only slices of numeric kinds are buffers.
                TypeExpr::Slice { elem: of, .. } => match &**of {
                    TypeExpr::Path(tp) => match element_type(tp) {
                        Err(e) => Err(e),
                        Ok(NumericArg::__VOID__) => Ok(Arg::External(External::Ptr(r))),
                        Ok(n) => buffer_argument(attrs, Buffer::Slice(r, n), ty),
                    },
                    _ => Err(ArgError::InvalidType(stringify_token(ty.tokens()))),
                },
                TypeExpr::Path(tp) => match parse_type_path_within(
                    depth,
                    attrs,
                    Place::Referent,
                    tp,
                ) {
                    Err(e) => Err(e),
                    Ok(ParsedTypeContainer::CBare(ParsedType::TSpecial(Special::RefStr))) => Ok(
                        Arg::Special(Special::RefStr),
                    ),
                    Ok(ParsedTypeContainer::CBare(ParsedType::TV8(v))) => Ok(Arg::V8Ref(r, v)),
                    Ok(ParsedTypeContainer::CBare(ParsedType::TSpecial(s))) => Ok(Arg::Ref(r, s)),
                    Ok(_) => Err(ArgError::InvalidType(stringify_token(ty.tokens()))),
                },
                _ => Err(ArgError::InvalidType(stringify_token(ty.tokens()))),
            }
        },
        TypeExpr::Ptr { mutable, elem, .. } => {
            let r = if *mutable {
                RefType::Mut
            } else {
                RefType::Ref
            };
            match &**elem {
                TypeExpr::Path(tp) => match parse_type_path_within(
                    depth,
                    attrs,
                    Place::Pointee,
                    tp,
                ) {
                    Err(e) => Err(e),
                    Ok(ParsedTypeContainer::CBare(ParsedType::TNumeric(NumericArg::__VOID__))) => Ok(
                        Arg::External(External::Ptr(r)),
                    ),
                    Ok(ParsedTypeContainer::CBare(ParsedType::TNumeric(n))) => buffer_argument(
                        attrs,
                        Buffer::Ptr(r, n),
                        ty,
                    ),
                    Ok(_) => Err(ArgError::InvalidType(stringify_token(ty.tokens()))),
                },
                _ => Err(ArgError::InvalidType(stringify_token(ty.tokens()))),
            }
        },
        TypeExpr::Path(tp) => match parse_type_path_within(depth, attrs, Place::Bare, tp) {
            Err(e) => Err(e),
            Ok(ParsedTypeContainer::CBare(ParsedType::TNumeric(n))) => Ok(Arg::Numeric(n)),
            Ok(ParsedTypeContainer::CBare(ParsedType::TSpecial(s))) => Ok(Arg::Special(s)),
            Ok(ParsedTypeContainer::CBare(ParsedType::TBuffer(b))) => Ok(Arg::Buffer(b)),
            Ok(ParsedTypeContainer::COption(ParsedType::TNumeric(n))) => Ok(Arg::OptionNumeric(n)),
            Ok(ParsedTypeContainer::COption(ParsedType::TSpecial(s))) => Ok(Arg::Option(s)),
            Ok(ParsedTypeContainer::CRcRefCell(ParsedType::TSpecial(s))) => Ok(Arg::RcRefCell(s)),
            Ok(ParsedTypeContainer::COptionV8Local(ParsedType::TV8(v))) => Ok(
                Arg::OptionV8Local(v),
            ),
            Ok(ParsedTypeContainer::COption(ParsedType::TV8(v))) => Ok(
                Arg::OptionV8Ref(RefType::Ref, v),
            ),
            Ok(ParsedTypeContainer::COption(ParsedType::TV8Mut(v))) => Ok(
                Arg::OptionV8Ref(RefType::Mut, v),
            ),
            Ok(ParsedTypeContainer::CV8Local(ParsedType::TV8(v))) => Ok(Arg::V8Local(v)),
            Ok(ParsedTypeContainer::CV8Global(ParsedType::TV8(v))) => Ok(Arg::V8Global(v)),
            Ok(_) => Err(ArgError::InvalidType(stringify_token(ty.tokens()))),
        },
        _ => Err(ArgError::InvalidType(stringify_token(ty.tokens()))),
    }
}

/// Classifies a type expression under the modifier of its site, reading
/// the types inside it down to [`MAX_NESTING`] levels.
pub fn parse_type(attrs: Attributes, ty: &TypeExpr) -> (r: Result<Arg, ArgError>)
    ensures
        outcome(r) == type_class(attrs, *ty),
{
    parse_type_within(MAX_NESTING, attrs, ty)
}

fn parse_type_within(depth: usize, attrs: Attributes, ty: &TypeExpr) -> (r: Result<Arg, ArgError>)
    ensures
        outcome(r) == type_class_within(depth as nat, attrs, *ty),
    decreases ty, 1nat,
{
    match attrs.primary {
        Some(AttributeModifier::Serde) => parse_type_serde(depth, ty),
        Some(AttributeModifier::State) => parse_type_state_within(depth, ty),
        Some(AttributeModifier::Smi) => Ok(Arg::Numeric(NumericArg::__SMI__)),
        _ => parse_type_plain(depth, attrs, ty),
    }
}

/// A type classifies as a buffer only under the buffer modifier, and only in
/// a mode that the buffer's representation admits.
pub proof fn buffers_respect_their_modes(attrs: Attributes, ty: TypeExpr, buffer: Buffer)
    requires
        type_class(attrs, ty) == Ok::<_, ArgErrorView>(ArgView::Buffer(buffer)),
    ensures
        attrs.primary matches Some(AttributeModifier::Buffer(mode)) && buffer.admits(mode),
{
}

impl ParsedTypeContainer {
    /// Whether a path has the shape by its own name and arguments, and not
    /// by how a type inside it classifies.
    pub open spec fn is_own(self) -> bool {
        self is CBare || self is CV8Local || self is CV8Global
    }
}

impl ArgView {
    /// Whether the argument is one that can stand inside an `Option` or a
    /// shared cell.
    pub open spec fn may_nest(self) -> bool {
        self is Special || self is Numeric || self is Buffer || self is V8Ref || self is V8Local
    }
}

/// A shape that a path has by its own name and arguments is its shape
/// whatever depth is left.
proof fn lemma_own_shape(depth: nat, other: nat, attrs: Attributes, tp: TypePath)
    requires
        resolve_within(depth, attrs, tp) matches Ok(shape) && shape.is_own(),
    ensures
        resolve_within(other, attrs, tp) == resolve_within(depth, attrs, tp),
{
}

/// A type that classifies as something that can stand inside another type
/// does so whatever depth is left: it holds no type that is read.
proof fn lemma_nests_at_any_depth(depth: nat, other: nat, attrs: Attributes, ty: TypeExpr)
    requires
        type_class_within(depth, attrs, ty) matches Ok(a) && a.may_nest(),
    ensures
        type_class_within(other, attrs, ty) == type_class_within(depth, attrs, ty),
{
    let tp = match ty {
        TypeExpr::Reference { elem, .. } => match *elem {
            TypeExpr::Path(tp) => Some(tp),
            _ => None,
        },
        TypeExpr::Ptr { elem, .. } => match *elem {
            TypeExpr::Path(tp) => Some(tp),
            _ => None,
        },
        TypeExpr::Path(tp) => Some(tp),
        _ => None,
    };
    if tp matches Some(tp) && resolve_within(depth, attrs, tp) matches Ok(shape) && shape.is_own() {
        lemma_own_shape(depth, other, attrs, tp->Some_0);
    }
}

/// With one level of nesting or more left, a path has the same shape with
/// one level more, where it has a shape with either.
proof fn lemma_path_with_one_level_more(depth: nat, attrs: Attributes, place: Place, tp: TypePath)
    requires
        depth >= 1,
    ensures
        path_class_within(depth, attrs, place, tp) is Ok || path_class_within(
            depth + 1,
            attrs,
            place,
            tp,
        ) is Ok ==> path_class_within(depth, attrs, place, tp) == path_class_within(
            depth + 1,
            attrs,
            place,
            tp,
        ),
{
    let p = tp.path;
    let below = (depth - 1) as nat;
    if shared_cell_content(p) is Some {
        let inner = shared_cell_content(p)->Some_0;
        if type_class_within(depth, attrs, inner) matches Ok(a) && a.may_nest() {
            lemma_nests_at_any_depth(depth, below, attrs, inner);
        }
        if type_class_within(below, attrs, inner) matches Ok(a) && a.may_nest() {
            lemma_nests_at_any_depth(below, depth, attrs, inner);
        }
    }
    if optional_content(p) is Some {
        let inner = optional_content(p)->Some_0;
        if type_class_within(depth, attrs, inner) matches Ok(a) && a.may_nest() {
            lemma_nests_at_any_depth(depth, below, attrs, inner);
        }
        if type_class_within(below, attrs, inner) matches Ok(a) && a.may_nest() {
            lemma_nests_at_any_depth(below, depth, attrs, inner);
        }
    }
}

/// With one level of nesting or more left, a type classifies the same with
/// one level more, where it classifies with either.
proof fn lemma_with_one_level_more(depth: nat, attrs: Attributes, ty: TypeExpr)
    requires
        depth >= 1,
    ensures
        type_class_within(depth, attrs, ty) is Ok || type_class_within(depth + 1, attrs, ty) is Ok
            ==> type_class_within(depth, attrs, ty) == type_class_within(depth + 1, attrs, ty),
{
    let string = Attributes { primary: Some(AttributeModifier::String) };
    match ty {
        TypeExpr::Reference { elem, .. } => match *elem {
            TypeExpr::Path(tp) => lemma_path_with_one_level_more(depth, attrs, Place::Referent, tp),
            _ => {},
        },
        TypeExpr::Ptr { elem, .. } => match *elem {
            TypeExpr::Path(tp) => lemma_path_with_one_level_more(depth, attrs, Place::Pointee, tp),
            _ => {},
        },
        TypeExpr::Path(tp) => {
            lemma_path_with_one_level_more(depth, attrs, Place::Bare, tp);
            lemma_path_with_one_level_more(depth, Attributes::none(), Place::Bare, tp);
            lemma_path_with_one_level_more(depth, string, Place::Bare, tp);
        },
        _ => {},
    }
}

/// No type that classifies needs more than one level of nesting: with one
/// level or more left, a type classifies as it does with one level, where it
/// classifies with either.
pub proof fn one_level_of_nesting_suffices(depth: nat, attrs: Attributes, ty: TypeExpr)
    requires
        depth >= 1,
    ensures
        type_class_within(depth, attrs, ty) is Ok || type_class_within(1, attrs, ty) is Ok
            ==> type_class_within(depth, attrs, ty) == type_class_within(1, attrs, ty),
    decreases depth,
{
    if depth > 1 {
        lemma_with_one_level_more((depth - 1) as nat, attrs, ty);
        one_level_of_nesting_suffices((depth - 1) as nat, attrs, ty);
    }
}

/// The limit on nesting refuses no type that would classify under another
/// limit: what classifies with any depth of one level or more classifies the
/// same under [`MAX_NESTING`], and the other way round.
pub proof fn nesting_limit_refuses_nothing(depth: nat, attrs: Attributes, ty: TypeExpr)
    requires
        depth >= 1,
    ensures
        type_class_within(depth, attrs, ty) is Ok || type_class(attrs, ty) is Ok ==> type_class(
            attrs,
            ty,
        ) == type_class_within(depth, attrs, ty),
{
    one_level_of_nesting_suffices(depth, attrs, ty);
    one_level_of_nesting_suffices(MAX_NESTING as nat, attrs, ty);
}

} // verus!
