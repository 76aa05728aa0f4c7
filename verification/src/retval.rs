//! Classification of what a function returns: the value, whether the
//! function may fail, and whether the value arrives asynchronously.
use crate::classify::{parse_type, text_of, type_class};
use crate::error::{outcome, ArgError, ArgErrorView, RetError, RetErrorView};
use crate::ir::{Arg, ArgView, Attributes, RetVal, RetValView};
use crate::syntax::{TypeExpr, TypeParamBound};
use crate::text::stringify_token;
use vstd::prelude::*;

verus! {

/// How a return type wraps its value.
#[derive(Copy, Clone, Debug, PartialEq, Eq, Structural)]
pub enum Wrapping {
    /// `T`.
    Infallible,
    /// `Result<T>`.
    Result,
    /// `impl Future<Output = T>`.
    Future,
    /// `impl Future<Output = Result<T>>`.
    FutureResult,
    /// `Result<impl Future<Output = T>>`.
    ResultFuture,
    /// `Result<impl Future<Output = Result<T>>>`.
    ResultFutureResult,
}

/// The type `T` of `Result<T>` or `Result<T, E>`, whatever packages the
/// name stands under.
pub open spec fn result_content(ty: TypeExpr) -> Option<TypeExpr> {
    match ty.plain_path() {
        Some(p) => if p.is_in_packages() && p.ends_with("Result"@) {
            p.last().leading_type()
        } else {
            None
        },
        None => None,
    }
}

/// The type `T` of `impl Future<Output = T>`, whatever packages the name
/// stands under.
pub open spec fn future_content(ty: TypeExpr) -> Option<TypeExpr> {
    match ty {
        TypeExpr::ImplTrait { bounds, .. } => if bounds.len() == 1 {
            match bounds[0] {
                TypeParamBound::Trait(p) => if p.is_in_packages() && p.ends_with("Future"@) {
                    p.last().sole_binding("Output"@)
                } else {
                    None
                },
                TypeParamBound::Other => None,
            }
        } else {
            None
        },
        _ => None,
    }
}

/// The wrapping of a return type and the type of the value inside.
pub open spec fn unwrapped(ty: TypeExpr) -> (Wrapping, TypeExpr) {
    match result_content(ty) {
        Some(inner) => match future_content(inner) {
            Some(output) => match result_content(output) {
                Some(value) => (Wrapping::ResultFutureResult, value),
                None => (Wrapping::ResultFuture, output),
            },
            None => (Wrapping::Result, inner),
        },
        None => match future_content(ty) {
            Some(output) => match result_content(output) {
                Some(value) => (Wrapping::FutureResult, value),
                None => (Wrapping::Future, output),
            },
            None => (Wrapping::Infallible, ty),
        },
    }
}

/// The wrapping of what a function returns, given the wrapping of its
/// return type: an asynchronous function makes a future of what it
/// declares, and cannot declare a future.
pub open spec fn promoted(wrapping: Wrapping, is_async: bool) -> Option<Wrapping> {
    if !is_async {
        Some(wrapping)
    } else {
        match wrapping {
            Wrapping::Infallible => Some(Wrapping::Future),
            Wrapping::Result => Some(Wrapping::FutureResult),
            _ => None,
        }
    }
}

/// The return value with the given wrapping around `value`.
pub open spec fn wrapped(wrapping: Wrapping, value: ArgView) -> RetValView {
    match wrapping {
        Wrapping::Infallible => RetValView::Infallible(value),
        Wrapping::Result => RetValView::Result(value),
        Wrapping::Future => RetValView::Future(value),
        Wrapping::FutureResult => RetValView::FutureResult(value),
        Wrapping::ResultFuture => RetValView::ResultFuture(value),
        Wrapping::ResultFutureResult => RetValView::ResultFutureResult(value),
    }
}

/// The classification of what a function returns.
///
/// A function that declares no return type returns nothing. Otherwise the
/// value inside the wrapping classifies as a parameter of that type would
/// under the modifier of the function.
pub open spec fn return_class(is_async: bool, attrs: Attributes, output: Option<TypeExpr>)
    -> Result<RetValView, RetErrorView> {
    match output {
        None => Ok(wrapped(promoted(Wrapping::Infallible, is_async)->Some_0, ArgView::Void)),
        Some(ty) => match type_class(attrs, unwrapped(ty).1) {
            Err(e) => Err(RetErrorView::InvalidType(e)),
            Ok(value) => match promoted(unwrapped(ty).0, is_async) {
                Some(wrapping) => Ok(wrapped(wrapping, value)),
                None => Err(RetErrorView::InvalidType(ArgErrorView::InvalidType(text_of(ty)))),
            },
        },
    }
}

fn find_result_content(ty: &TypeExpr) -> (found: Option<&TypeExpr>)
    ensures
        match found {
            Some(inner) => result_content(*ty) == Some(*inner),
            None => result_content(*ty) is None,
        },
{
    match ty.as_plain_path() {
        Some(p) => {
            if p.in_packages() && p.ends_in("Result") {
                p.last_segment().first_type()
            } else {
                None
            }
        },
        None => None,
    }
}

fn find_future_content(ty: &TypeExpr) -> (found: Option<&TypeExpr>)
    ensures
        match found {
            Some(inner) => future_content(*ty) == Some(*inner),
            None => future_content(*ty) is None,
        },
{
    match ty {
        TypeExpr::ImplTrait { bounds, .. } => {
            if bounds.len() == 1 {
                match &bounds[0] {
                    TypeParamBound::Trait(p) => {
                        if p.in_packages() && p.ends_in("Future") {
                            p.last_segment().only_binding("Output")
                        } else {
                            None
                        }
                    },
                    TypeParamBound::Other => None,
                }
            } else {
                None
            }
        },
        _ => None,
    }
}

fn unwrap_return(ty: &TypeExpr) -> (found: (Wrapping, &TypeExpr))
    ensures
        unwrapped(*ty) == (found.0, *found.1),
{
    match find_result_content(ty) {
        Some(inner) => match find_future_content(inner) {
            Some(output) => match find_result_content(output) {
                Some(value) => (Wrapping::ResultFutureResult, value),
                None => (Wrapping::ResultFuture, output),
            },
            None => (Wrapping::Result, inner),
        },
        None => match find_future_content(ty) {
            Some(output) => match find_result_content(output) {
                Some(value) => (Wrapping::FutureResult, value),
                None => (Wrapping::Future, output),
            },
            None => (Wrapping::Infallible, ty),
        },
    }
}

fn wrap(wrapping: Wrapping, value: Arg) -> (ret: RetVal)
    ensures
        ret@ == wrapped(wrapping, value@),
{
    match wrapping {
        Wrapping::Infallible => RetVal::Infallible(value),
        Wrapping::Result => RetVal::Result(value),
        Wrapping::Future => RetVal::Future(value),
        Wrapping::FutureResult => RetVal::FutureResult(value),
        Wrapping::ResultFuture => RetVal::ResultFuture(value),
        Wrapping::ResultFutureResult => RetVal::ResultFutureResult(value),
    }
}

fn promote(wrapping: Wrapping, is_async: bool) -> (found: Option<Wrapping>)
    ensures
        found == promoted(wrapping, is_async),
{
    if !is_async {
        Some(wrapping)
    } else {
        match wrapping {
            Wrapping::Infallible => Some(Wrapping::Future),
            Wrapping::Result => Some(Wrapping::FutureResult),
            _ => None,
        }
    }
}

/// Classifies what a function returns.
pub fn parse_return(is_async: bool, attrs: Attributes, output: &Option<TypeExpr>) -> (r: Result<
    RetVal,
    RetError,
>)
    ensures
        outcome(r) == return_class(is_async, attrs, *output),
{
    match output {
        None => {
            if is_async {
                Ok(RetVal::Future(Arg::Void))
            } else {
                Ok(RetVal::Infallible(Arg::Void))
            }
        },
        Some(ty) => {
            let (wrapping, inner) = unwrap_return(ty);
            let value = match parse_type(attrs, inner) {
                Ok(value) => value,
                Err(e) => {
                    return Err(RetError::InvalidType(e));
                },
            };
            match promote(wrapping, is_async) {
                Some(wrapping) => Ok(wrap(wrapping, value)),
                None => Err(
                    RetError::InvalidType(ArgError::InvalidType(stringify_token(ty.tokens()))),
                ),
            }
        },
    }
}

} // verus!
