//! The generic parameters of a declaration: at most one lifetime, without
//! bounds, and for each type parameter one bound, given either where the
//! parameter is declared or in the where clause.
use crate::bounds::{least_name, BoundMap};
use crate::error::{SignatureError, SignatureErrorView};
use crate::syntax::{GenericParam, Generics, TypeParam, TypeParamBound, WherePredicate};
use crate::text::{rendered, stringify_token};
use vstd::prelude::*;
use vstd::string::*;

verus! {

/// A table of bounds as the specifications see it.
pub type Bounds = Map<Seq<char>, Seq<char>>;

/// The text of the bound, where the bounds are one trait named by a path.
pub open spec fn simple_bound(bounds: Seq<TypeParamBound>) -> Option<Seq<char>> {
    if bounds.len() == 1 {
        match bounds[0] {
            TypeParamBound::Trait(path) => Some(rendered(path.tokens@)),
            TypeParamBound::Other => None,
        }
    } else {
        None
    }
}

/// The name and the bound of a where predicate of the form `T: Trait`.
pub open spec fn where_entry(pred: WherePredicate) -> Option<(Seq<char>, Seq<char>)> {
    match (pred.subject, simple_bound(pred.bounds@)) {
        (Some(name), Some(bound)) => Some((name@, bound)),
        _ => None,
    }
}

/// What a type parameter declares: `Some(None)` for `T`, `Some(Some(bound))`
/// for `T: Trait`, `None` for any other form.
pub open spec fn declared(param: TypeParam) -> Option<Option<Seq<char>>> {
    if !param.plain {
        None
    } else if param.bounds@.len() == 0 {
        Some(None)
    } else {
        match simple_bound(param.bounds@) {
            Some(bound) => Some(Some(bound)),
            None => None,
        }
    }
}

/// The table of the where clause, read from predicate `from` on into
/// `table`: each predicate must have the form `T: Trait` and a name that no
/// earlier predicate has.
pub open spec fn where_table_from(preds: Seq<WherePredicate>, from: int, table: Bounds) -> Result<
    Bounds,
    SignatureErrorView,
>
    decreases preds.len() - from,
{
    if from < 0 || from >= preds.len() {
        Ok(table)
    } else {
        match where_entry(preds[from]) {
            None => Err(SignatureErrorView::InvalidWherePredicate(preds[from].text@)),
            Some((name, bound)) => if table.contains_key(name) {
                Err(SignatureErrorView::DuplicateGeneric(name))
            } else {
                where_table_from(preds, from + 1, table.insert(name, bound))
            },
        }
    }
}

/// The table of the where clause.
pub open spec fn where_table(preds: Seq<WherePredicate>) -> Result<Bounds, SignatureErrorView> {
    where_table_from(preds, 0, Map::empty())
}

/// Gives one type parameter its bound. `left` holds the predicates of the
/// where clause that no parameter has taken yet, `done` the bounds given so
/// far. A parameter with a bound of its own must have no predicate left; one
/// without takes its predicate. No name is given a bound twice.
pub open spec fn bind_one(param: TypeParam, left: Bounds, done: Bounds) -> Result<
    (Bounds, Bounds),
    SignatureErrorView,
> {
    let name = param.name@;
    match declared(param) {
        None => Err(SignatureErrorView::InvalidGeneric(param.text@)),
        Some(Some(bound)) => if left.contains_key(name) {
            Err(SignatureErrorView::GenericBoundCardinality(name))
        } else if done.contains_key(name) {
            Err(SignatureErrorView::DuplicateGeneric(name))
        } else {
            Ok((left, done.insert(name, bound)))
        },
        Some(None) => if !left.contains_key(name) {
            Err(SignatureErrorView::GenericBoundCardinality(name))
        } else if done.contains_key(name) {
            Err(SignatureErrorView::DuplicateGeneric(name))
        } else {
            Ok((left.remove(name), done.insert(name, left[name])))
        },
    }
}

/// Gives the type parameters from `from` on their bounds, in order.
pub open spec fn bind_from(params: Seq<GenericParam>, from: int, left: Bounds, done: Bounds)
    -> Result<(Bounds, Bounds), SignatureErrorView>
    decreases params.len() - from,
{
    if from < 0 || from >= params.len() {
        Ok((left, done))
    } else {
        match params[from] {
            GenericParam::Type(param) => match bind_one(param, left, done) {
                Err(e) => Err(e),
                Ok((left, done)) => bind_from(params, from + 1, left, done),
            },
            _ => bind_from(params, from + 1, left, done),
        }
    }
}

/// The bounds of the type parameters of a declaration: each parameter has
/// one bound, its own or that of the where clause, and the where clause
/// bounds nothing else. Where it does, the error names the least of the
/// names that are left over.
pub open spec fn generics_class(generics: Generics) -> Result<Bounds, SignatureErrorView> {
    match where_table(generics.where_clause@) {
        Err(e) => Err(e),
        Ok(table) => match bind_from(generics.params@, 0, table, Map::empty()) {
            Err(e) => Err(e),
            Ok((left, done)) => if left == Map::<Seq<char>, Seq<char>>::empty() {
                Ok(done)
            } else {
                Err(
                    SignatureErrorView::WherePredicateMustAppearInGenerics(
                        least_name(left.dom()),
                    ),
                )
            },
        },
    }
}

/// The lifetime with its tick, as diagnostics write it.
pub open spec fn ticked(name: Seq<char>) -> Seq<char> {
    "'"@ + name
}

/// The lifetime of the parameters from `from` on, where `found` is the
/// lifetime of those before: a lifetime must have no bounds and must be the
/// only one.
pub open spec fn lifetime_from(params: Seq<GenericParam>, from: int, found: Option<Seq<char>>)
    -> Result<Option<Seq<char>>, SignatureErrorView>
    decreases params.len() - from,
{
    if from < 0 || from >= params.len() {
        Ok(found)
    } else {
        match params[from] {
            GenericParam::Lifetime(lt) => if lt.bounded {
                Err(SignatureErrorView::LifetimesMayNotHaveBounds(ticked(lt.name@)))
            } else if found is Some {
                Err(SignatureErrorView::TooManyLifetimes)
            } else {
                lifetime_from(params, from + 1, Some(lt.name@))
            },
            _ => lifetime_from(params, from + 1, found),
        }
    }
}

/// The one lifetime of a declaration, if it has one.
pub open spec fn lifetime_class(generics: Generics) -> Result<
    Option<Seq<char>>,
    SignatureErrorView,
> {
    lifetime_from(generics.params@, 0, None)
}

/// The view of an optional text.
pub open spec fn text_view(text: Option<String>) -> Option<Seq<char>> {
    match text {
        Some(t) => Some(t@),
        None => None,
    }
}

/// Extracts the one lifetime of the generics, which must have no bounds.
pub fn parse_lifetime(generics: &Generics) -> (r: Result<Option<String>, SignatureError>)
    ensures
        match r {
            Ok(name) => lifetime_class(*generics) == Ok::<_, SignatureErrorView>(text_view(name)),
            Err(e) => lifetime_class(*generics) == Err::<Option<Seq<char>>, _>(e@),
        },
{
    let params = &generics.params;
    let mut found: Option<String> = None;
    let mut i: usize = 0;
    while i < params.len()
        invariant
            i <= params.len(),
            lifetime_from(params@, i as int, text_view(found)) == lifetime_class(*generics),
            params == &generics.params,
        decreases params.len() - i,
    {
        if let GenericParam::Lifetime(lt) = &params[i] {
            if lt.bounded {
                let mut text = String::from_str("'");
                text.append(lt.name.as_str());
                return Err(SignatureError::LifetimesMayNotHaveBounds(text));
            }
            if found.is_some() {
                return Err(SignatureError::TooManyLifetimes);
            }
            found = Some(lt.name.clone());
        }
        i += 1;
    }
    Ok(found)
}

fn find_simple_bound(bounds: &Vec<TypeParamBound>) -> (found: Option<String>)
    ensures
        text_view(found) == simple_bound(bounds@),
{
    if bounds.len() == 1 {
        match &bounds[0] {
            TypeParamBound::Trait(path) => Some(stringify_token(&path.tokens)),
            TypeParamBound::Other => None,
        }
    } else {
        None
    }
}

fn read_where_clause(preds: &Vec<WherePredicate>) -> (r: Result<BoundMap, SignatureError>)
    ensures
        match r {
            Ok(table) => table.wf() && where_table(preds@) == Ok::<_, SignatureErrorView>(
                table@,
            ),
            Err(e) => where_table(preds@) == Err::<Bounds, _>(e@),
        },
{
    let mut table = BoundMap::new();
    let mut i: usize = 0;
    while i < preds.len()
        invariant
            i <= preds.len(),
            table.wf(),
            where_table_from(preds@, i as int, table@) == where_table(preds@),
        decreases preds.len() - i,
    {
        let pred = &preds[i];
        let (name, bound) = match (&pred.subject, find_simple_bound(&pred.bounds)) {
            (Some(name), Some(bound)) => (name.clone(), bound),
            _ => {
                return Err(SignatureError::InvalidWherePredicate(pred.text.clone()));
            },
        };
        if table.contains_key(name.as_str()) {
            return Err(SignatureError::DuplicateGeneric(name));
        }
        table.insert(name, bound);
        i += 1;
    }
    Ok(table)
}

/// Parses the generics: each type parameter gets its one bound.
pub fn parse_generics(generics: &Generics) -> (r: Result<BoundMap, SignatureError>)
    ensures
        match r {
            Ok(bounds) => bounds.wf() && generics_class(*generics) == Ok::<
                _,
                SignatureErrorView,
            >(bounds@),
            Err(e) => generics_class(*generics) == Err::<Bounds, _>(e@),
        },
{
    // The where clause comes first, so that a parameter can be held against
    // it.
    let mut left = match read_where_clause(&generics.where_clause) {
        Ok(table) => table,
        Err(e) => {
            return Err(e);
        },
    };
    let ghost table = left@;
    let params = &generics.params;
    let mut done = BoundMap::new();
    let mut i: usize = 0;
    while i < params.len()
        invariant
            i <= params.len(),
            left.wf(),
            done.wf(),
            params == &generics.params,
            where_table(generics.where_clause@) == Ok::<_, SignatureErrorView>(table),
            bind_from(params@, i as int, left@, done@) == bind_from(
                params@,
                0,
                table,
                Map::empty(),
            ),
        decreases params.len() - i,
    {
        if let GenericParam::Type(param) = &params[i] {
            if !param.plain {
                return Err(SignatureError::InvalidGeneric(param.text.clone()));
            }
            let name = param.name.clone();
            let bound = if param.bounds.len() == 0 {
                match left.remove(name.as_str()) {
                    Some(bound) => bound,
                    None => {
                        return Err(SignatureError::GenericBoundCardinality(name));
                    },
                }
            } else {
                match find_simple_bound(&param.bounds) {
                    Some(bound) => {
                        if left.contains_key(name.as_str()) {
                            return Err(SignatureError::GenericBoundCardinality(name));
                        }
                        bound
                    },
                    None => {
                        return Err(SignatureError::InvalidGeneric(param.text.clone()));
                    },
                }
            };
            if done.contains_key(name.as_str()) {
                return Err(SignatureError::DuplicateGeneric(name));
            }
            done.insert(name, bound);
        }
        i += 1;
    }
    match left.first_key() {
        Some(name) => Err(SignatureError::WherePredicateMustAppearInGenerics(name.clone())),
        None => Ok(done),
    }
}

} // verus!
