//! The errors of classification. Each declaration either classifies in full
//! or is rejected with one of these.
use vstd::prelude::*;

verus! {

/// A decorator that cannot be used.
#[derive(Clone, Debug, PartialEq, Eq)]
pub enum AttributeError {
    /// The decorator is not known; holds its text.
    InvalidAttribute(String),
    /// More than one decorator asks for a modifier.
    TooManyAttributes,
}

/// An [`AttributeError`] with its text as a sequence of characters.
pub enum AttributeErrorView {
    InvalidAttribute(Seq<char>),
    TooManyAttributes,
}

impl View for AttributeError {
    type V = AttributeErrorView;

    open spec fn view(&self) -> AttributeErrorView {
        match *self {
            AttributeError::InvalidAttribute(t) => AttributeErrorView::InvalidAttribute(t@),
            AttributeError::TooManyAttributes => AttributeErrorView::TooManyAttributes,
        }
    }
}

/// A parameter, or the type of a returned value, that cannot be classified.
#[derive(Clone, Debug, PartialEq, Eq)]
pub enum ArgError {
    /// The parameter is `self`.
    InvalidSelf,
    /// The type cannot be used where it stands, or stands deeper inside
    /// other types than classification reads.
    InvalidType(String),
    /// A numeric type was expected.
    InvalidNumericType(String),
    /// The path names no known shape; a decorator may be missing.
    InvalidTypePath(String),
    /// The type cannot stand behind a reference.
    InvalidReference(String),
    /// The type must stand behind a reference.
    MissingReference(String),
    /// The type should not be passed through serialization; holds the type
    /// and what to use in its place.
    InvalidSerdeType(String, &'static str),
    /// The type is decorated as a string and is none.
    InvalidStringType(String),
    /// The type is decorated as a buffer and is none.
    InvalidBufferType(String),
    /// The buffer cannot be shared in the mode asked for; holds the mode and
    /// the type.
    InvalidBufferMode(String, String),
    /// The type needs no serialization, or cannot have it.
    InvalidSerdeAttributeType(String),
    /// The runtime has no handle kind of this name.
    InvalidV8Type(String),
    /// The type is a string and is not decorated as one.
    MissingStringAttribute,
    /// The type is a buffer and is not decorated as one.
    MissingBufferAttribute,
    /// The type cannot be extracted from the shared state.
    InvalidStateType(String),
    /// A decorator of the parameter cannot be used.
    AttributeError(AttributeError),
}

/// An [`ArgError`] with its texts as sequences of characters.
pub enum ArgErrorView {
    InvalidSelf,
    InvalidType(Seq<char>),
    InvalidNumericType(Seq<char>),
    InvalidTypePath(Seq<char>),
    InvalidReference(Seq<char>),
    MissingReference(Seq<char>),
    InvalidSerdeType(Seq<char>, Seq<char>),
    InvalidStringType(Seq<char>),
    InvalidBufferType(Seq<char>),
    InvalidBufferMode(Seq<char>, Seq<char>),
    InvalidSerdeAttributeType(Seq<char>),
    InvalidV8Type(Seq<char>),
    MissingStringAttribute,
    MissingBufferAttribute,
    InvalidStateType(Seq<char>),
    AttributeError(AttributeErrorView),
}

impl View for ArgError {
    type V = ArgErrorView;

    open spec fn view(&self) -> ArgErrorView {
        match *self {
            ArgError::InvalidSelf => ArgErrorView::InvalidSelf,
            ArgError::InvalidType(t) => ArgErrorView::InvalidType(t@),
            ArgError::InvalidNumericType(t) => ArgErrorView::InvalidNumericType(t@),
            ArgError::InvalidTypePath(t) => ArgErrorView::InvalidTypePath(t@),
            ArgError::InvalidReference(t) => ArgErrorView::InvalidReference(t@),
            ArgError::MissingReference(t) => ArgErrorView::MissingReference(t@),
            ArgError::InvalidSerdeType(t, hint) => ArgErrorView::InvalidSerdeType(t@, hint@),
            ArgError::InvalidStringType(t) => ArgErrorView::InvalidStringType(t@),
            ArgError::InvalidBufferType(t) => ArgErrorView::InvalidBufferType(t@),
            ArgError::InvalidBufferMode(mode, t) => ArgErrorView::InvalidBufferMode(mode@, t@),
            ArgError::InvalidSerdeAttributeType(t) => ArgErrorView::InvalidSerdeAttributeType(t@),
            ArgError::InvalidV8Type(t) => ArgErrorView::InvalidV8Type(t@),
            ArgError::MissingStringAttribute => ArgErrorView::MissingStringAttribute,
            ArgError::MissingBufferAttribute => ArgErrorView::MissingBufferAttribute,
            ArgError::InvalidStateType(t) => ArgErrorView::InvalidStateType(t@),
            ArgError::AttributeError(e) => ArgErrorView::AttributeError(e@),
        }
    }
}

/// A return type that cannot be classified.
#[derive(Clone, Debug, PartialEq, Eq)]
pub enum RetError {
    InvalidType(ArgError),
    AttributeError(AttributeError),
}

/// A [`RetError`] with its texts as sequences of characters.
pub enum RetErrorView {
    InvalidType(ArgErrorView),
    AttributeError(AttributeErrorView),
}

impl View for RetError {
    type V = RetErrorView;

    open spec fn view(&self) -> RetErrorView {
        match *self {
            RetError::InvalidType(e) => RetErrorView::InvalidType(e@),
            RetError::AttributeError(e) => RetErrorView::AttributeError(e@),
        }
    }
}

/// A declaration that cannot be classified.
#[derive(Clone, Debug, PartialEq, Eq)]
pub enum SignatureError {
    /// A parameter cannot be classified; holds its name.
    ArgError(String, ArgError),
    /// The return type cannot be classified.
    RetError(RetError),
    /// There is more than one lifetime parameter.
    TooManyLifetimes,
    /// The type parameter has no bound, or one where it is declared and
    /// another in the where clause.
    GenericBoundCardinality(String),
    /// The where clause bounds a name that is no type parameter.
    WherePredicateMustAppearInGenerics(String),
    /// The name is bound twice.
    DuplicateGeneric(String),
    /// The lifetime parameter has bounds.
    LifetimesMayNotHaveBounds(String),
    /// The type parameter is not of the form `T` or `T: Trait`.
    InvalidGeneric(String),
    /// The where predicate is not of the form `T: Trait`.
    InvalidWherePredicate(String),
    /// The parameters reach the shared state in ways that exclude each other.
    InvalidOpStateCombination,
}

/// A [`SignatureError`] with its texts as sequences of characters.
pub enum SignatureErrorView {
    ArgError(Seq<char>, ArgErrorView),
    RetError(RetErrorView),
    TooManyLifetimes,
    GenericBoundCardinality(Seq<char>),
    WherePredicateMustAppearInGenerics(Seq<char>),
    DuplicateGeneric(Seq<char>),
    LifetimesMayNotHaveBounds(Seq<char>),
    InvalidGeneric(Seq<char>),
    InvalidWherePredicate(Seq<char>),
    InvalidOpStateCombination,
}

impl View for SignatureError {
    type V = SignatureErrorView;

    open spec fn view(&self) -> SignatureErrorView {
        match *self {
            SignatureError::ArgError(name, e) => SignatureErrorView::ArgError(name@, e@),
            SignatureError::RetError(e) => SignatureErrorView::RetError(e@),
            SignatureError::TooManyLifetimes => SignatureErrorView::TooManyLifetimes,
            SignatureError::GenericBoundCardinality(t) => SignatureErrorView::GenericBoundCardinality(t@),
            SignatureError::WherePredicateMustAppearInGenerics(t) =>
                SignatureErrorView::WherePredicateMustAppearInGenerics(t@),
            SignatureError::DuplicateGeneric(t) => SignatureErrorView::DuplicateGeneric(t@),
            SignatureError::LifetimesMayNotHaveBounds(t) => SignatureErrorView::LifetimesMayNotHaveBounds(t@),
            SignatureError::InvalidGeneric(t) => SignatureErrorView::InvalidGeneric(t@),
            SignatureError::InvalidWherePredicate(t) => SignatureErrorView::InvalidWherePredicate(t@),
            SignatureError::InvalidOpStateCombination => SignatureErrorView::InvalidOpStateCombination,
        }
    }
}

/// The outcome of a step as the specifications see it: the view of the value
/// or the view of the error.
pub open spec fn outcome<T: View, E: View>(r: Result<T, E>) -> Result<T::V, E::V> {
    match r {
        Ok(t) => Ok(t@),
        Err(e) => Err(e@),
    }
}

/// The outcome of a step whose value holds no text: the value itself, or the
/// view of the error.
pub open spec fn failing<T, E: View>(r: Result<T, E>) -> Result<T, E::V> {
    match r {
        Ok(t) => Ok(t),
        Err(e) => Err(e@),
    }
}

} // verus!
