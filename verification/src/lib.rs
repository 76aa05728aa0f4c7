//! Classification of native function declarations for a runtime binding
//! generator.
//!
//! A declaration (parameters with their decorators and type expressions, a
//! return type, generics) is turned into a closed description: one [`Arg`] per
//! parameter, one [`RetVal`], the lifetime and the generic bounds. Every
//! function here is verified against a specification stated over the syntax
//! tree of the declaration.
pub mod attributes;
pub mod bounds;
pub mod classify;
pub mod error;
pub mod generics;
pub mod ir;
pub mod names;
pub mod retval;
pub mod shape;
pub mod signature;
pub mod syntax;
pub mod text;

pub use crate::attributes::{
    is_attribute_ignorable, is_attribute_special, parse_attribute, parse_attributes,
};
pub use crate::bounds::BoundMap;
pub use crate::classify::{
    parse_numeric_type, parse_type, parse_type_path, parse_type_special, parse_type_state,
    parse_v8_type, Place, MAX_NESTING,
};
pub use crate::error::{ArgError, AttributeError, RetError, SignatureError};
pub use crate::generics::{parse_generics, parse_lifetime};
pub use crate::ir::{
    Arg, AttributeModifier, Attributes, Buffer, BufferMode, External, NumericArg, ParsedType,
    ParsedTypeContainer, RefType, RetVal, Special, V8Arg,
};
pub use crate::retval::{parse_return, Wrapping};
pub use crate::signature::{check_state_combination, parse_arg, parse_signature, ParsedSignature};
pub use crate::syntax::{
    Attribute, AttributeArgs, FnArg, GenericArgument, GenericParam, Generics, LifetimeParam, Path,
    PathArguments, PathSegment, Signature, TypeExpr, TypeParam, TypeParamBound, TypePath,
    WherePredicate,
};
pub use crate::text::{stringify_token, text_eq, text_order, Placement};
