//! The syntax tree of a declaration, as a front-end hands it over.
//!
//! The tree holds what classification reads: the shape of each type
//! expression, the segments of its paths and their generic arguments, the
//! decorators, the generics. Where a diagnostic names a piece of syntax, the
//! tree carries the texts of that piece's tokens.
use vstd::prelude::*;

verus! {

/// One argument between the angle brackets of a path segment.
#[derive(Debug, PartialEq, Eq)]
pub enum GenericArgument {
    /// A lifetime, `'a`.
    Lifetime,
    /// A type, `T`.
    Type(TypeExpr),
    /// An associated type given a value, `Name = T`.
    Binding(String, TypeExpr),
    /// Anything else: a constant, a constraint.
    Other,
}

/// What follows the name of a path segment.
#[derive(Debug, PartialEq, Eq)]
pub enum PathArguments {
    /// Nothing.
    Absent,
    /// Arguments between angle brackets, `<A, B>`.
    AngleBracketed(Vec<GenericArgument>),
    /// Anything else: arguments after `::`, or between parentheses.
    Other,
}

/// One segment of a path: a name and its arguments.
#[derive(Debug, PartialEq, Eq)]
pub struct PathSegment {
    pub ident: String,
    pub arguments: PathArguments,
}

/// A path such as `std::vec::Vec<u8>`.
#[derive(Debug, PartialEq, Eq)]
pub struct Path {
    /// Whether the path starts with `::`.
    pub leading_colon: bool,
    pub segments: Vec<PathSegment>,
    /// The texts of the path's tokens.
    pub tokens: Vec<String>,
}

/// A path in type position.
#[derive(Debug, PartialEq, Eq)]
pub struct TypePath {
    /// Whether the path is qualified by a self type, as in `<T as Trait>::Name`.
    pub qualified: bool,
    pub path: Path,
    /// The texts of the tokens of the whole type.
    pub tokens: Vec<String>,
}

/// One bound of a type parameter, of a where predicate or of an `impl` type.
#[derive(Debug, PartialEq, Eq)]
pub enum TypeParamBound {
    /// A trait named by a path and nothing more.
    Trait(Path),
    /// Anything else: a lifetime, a bound with a modifier or with a binder.
    Other,
}

/// A type expression.
#[derive(Debug, PartialEq, Eq)]
pub enum TypeExpr {
    /// `(A, B)`; with no elements, the unit type.
    Tuple { elems: Vec<TypeExpr>, tokens: Vec<String> },
    /// `&T` or `&mut T`.
    Reference { mutable: bool, elem: Box<TypeExpr>, tokens: Vec<String> },
    /// `*const T` or `*mut T`.
    Ptr { mutable: bool, elem: Box<TypeExpr>, tokens: Vec<String> },
    /// `[T]`.
    Slice { elem: Box<TypeExpr>, tokens: Vec<String> },
    /// A path.
    Path(TypePath),
    /// `impl Bound + Bound`.
    ImplTrait { bounds: Vec<TypeParamBound>, tokens: Vec<String> },
    /// Any other type expression.
    Other { tokens: Vec<String> },
}

impl TypeExpr {
    /// The texts of the tokens of this type expression.
    pub open spec fn token_texts(self) -> Seq<String> {
        match self {
            TypeExpr::Tuple { tokens, .. } => tokens@,
            TypeExpr::Reference { tokens, .. } => tokens@,
            TypeExpr::Ptr { tokens, .. } => tokens@,
            TypeExpr::Slice { tokens, .. } => tokens@,
            TypeExpr::Path(tp) => tp.tokens@,
            TypeExpr::ImplTrait { tokens, .. } => tokens@,
            TypeExpr::Other { tokens } => tokens@,
        }
    }

    /// The texts of the tokens of this type expression.
    pub fn tokens(&self) -> (tokens: &Vec<String>)
        ensures
            tokens@ == self.token_texts(),
    {
        match self {
            TypeExpr::Tuple { tokens, .. } => tokens,
            TypeExpr::Reference { tokens, .. } => tokens,
            TypeExpr::Ptr { tokens, .. } => tokens,
            TypeExpr::Slice { tokens, .. } => tokens,
            TypeExpr::Path(tp) => &tp.tokens,
            TypeExpr::ImplTrait { tokens, .. } => tokens,
            TypeExpr::Other { tokens } => tokens,
        }
    }
}

/// What a decorator carries after its name.
#[derive(Debug, PartialEq, Eq)]
pub enum AttributeArgs {
    /// Nothing: `#[name]`.
    Absent,
    /// Tokens between parentheses: `#[name(tokens)]`.
    List {
        /// The texts of the tokens between the parentheses.
        tokens: Vec<String>,
        /// Whether those tokens form a path.
        is_path: bool,
    },
    /// A value: `#[name = value]`.
    Value {
        /// Whether the value is a literal.
        literal: bool,
    },
    /// Anything else.
    Other,
}

/// A decorator on a function or on a parameter.
#[derive(Debug, PartialEq, Eq)]
pub struct Attribute {
    /// Whether the decorator is written with `#!`.
    pub inner: bool,
    /// The decorator's name, as written.
    pub name: String,
    pub args: AttributeArgs,
    /// The texts of the decorator's tokens.
    pub tokens: Vec<String>,
}

/// A parameter of a function.
#[derive(Debug, PartialEq, Eq)]
pub enum FnArg {
    /// `self` in any form.
    Receiver,
    /// A parameter with a pattern and a type.
    Typed {
        /// The parameter's name; `None` where the pattern binds no single name.
        name: Option<String>,
        attrs: Vec<Attribute>,
        ty: TypeExpr,
    },
}

/// A lifetime parameter, `'a`.
#[derive(Debug, PartialEq, Eq)]
pub struct LifetimeParam {
    /// The name without its tick.
    pub name: String,
    /// Whether the parameter has bounds, as in `'a: 'b`.
    pub bounded: bool,
}

/// A type parameter, `T` or `T: Trait`.
#[derive(Debug, PartialEq, Eq)]
pub struct TypeParam {
    pub name: String,
    pub bounds: Vec<TypeParamBound>,
    /// Whether the parameter is written with its name and, after a colon, its
    /// bounds, and nothing else: no decorator, no default, no colon without
    /// bounds.
    pub plain: bool,
    /// The parameter as text.
    pub text: String,
}

/// One parameter of a generics list.
#[derive(Debug, PartialEq, Eq)]
pub enum GenericParam {
    Lifetime(LifetimeParam),
    Type(TypeParam),
    Const,
}

/// One predicate of a where clause.
#[derive(Debug, PartialEq, Eq)]
pub struct WherePredicate {
    /// The name that the predicate bounds, where it bounds a bare name.
    pub subject: Option<String>,
    pub bounds: Vec<TypeParamBound>,
    /// The predicate as text.
    pub text: String,
}

/// The generic parameters of a declaration and its where clause.
#[derive(Debug, PartialEq, Eq)]
pub struct Generics {
    pub params: Vec<GenericParam>,
    pub where_clause: Vec<WherePredicate>,
}

/// A function declaration without its body.
#[derive(Debug, PartialEq, Eq)]
pub struct Signature {
    pub is_async: bool,
    pub generics: Generics,
    pub inputs: Vec<FnArg>,
    /// The declared return type; `None` where the declaration names none.
    pub output: Option<TypeExpr>,
}

} // verus!
