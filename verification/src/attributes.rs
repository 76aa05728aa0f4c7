//! Decorators: which modifier each asks for, and the one modifier of a
//! declaration site.
use crate::error::{failing, AttributeError, AttributeErrorView};
use crate::ir::{AttributeModifier, Attributes, BufferMode};
use crate::syntax::{Attribute, AttributeArgs};
use crate::text::{rendered, stringify_token, text_eq};
use vstd::prelude::*;

verus! {

/// The modifier that a decorator without arguments asks for.
pub open spec fn bare_modifier(name: Seq<char>) -> Option<AttributeModifier> {
    if name == "serde"@ {
        Some(AttributeModifier::Serde)
    } else if name == "smi"@ {
        Some(AttributeModifier::Smi)
    } else if name == "string"@ {
        Some(AttributeModifier::String)
    } else if name == "state"@ {
        Some(AttributeModifier::State)
    } else if name == "buffer"@ {
        Some(AttributeModifier::Buffer(BufferMode::Unsafe))
    } else {
        None
    }
}

/// The sharing mode that the word between the parentheses of `#[buffer(..)]`
/// names.
pub open spec fn mode_word(tokens: Seq<String>) -> Option<BufferMode> {
    if tokens.len() != 1 {
        None
    } else if tokens[0]@ == "unsafe"@ {
        Some(BufferMode::Unsafe)
    } else if tokens[0]@ == "copy"@ {
        Some(BufferMode::Copy)
    } else if tokens[0]@ == "detach"@ {
        Some(BufferMode::Detach)
    } else {
        None
    }
}

/// What a decorator asks for, where it is one that classification knows:
/// `Some` modifier, or `None` for a decorator that is known and asks for
/// nothing (`#[allow(path)]`, `#[doc = literal]`).
pub open spec fn recognised(attr: Attribute) -> Option<Option<AttributeModifier>> {
    if attr.inner {
        None
    } else {
        match attr.args {
            AttributeArgs::Absent => match bare_modifier(attr.name@) {
                Some(m) => Some(Some(m)),
                None => None,
            },
            AttributeArgs::List { tokens, is_path } => if attr.name@ == "buffer"@ && mode_word(
                tokens@,
            ) is Some {
                Some(Some(AttributeModifier::Buffer(mode_word(tokens@)->Some_0)))
            } else if attr.name@ == "allow"@ && is_path {
                Some(None)
            } else {
                None
            },
            AttributeArgs::Value { literal } => if attr.name@ == "doc"@ && literal {
                Some(None)
            } else {
                None
            },
            AttributeArgs::Other => None,
        }
    }
}

/// The modifier of one decorator, or the error that names the decorator
/// where it is not known.
pub open spec fn attribute_modifier(attr: Attribute) -> Result<
    Option<AttributeModifier>,
    AttributeErrorView,
> {
    match recognised(attr) {
        Some(m) => Ok(m),
        None => Err(AttributeErrorView::InvalidAttribute(rendered(attr.tokens@))),
    }
}

/// The modifiers that the decorators ask for, in order; the error of the
/// first decorator that is not known.
pub open spec fn modifiers_of(attrs: Seq<Attribute>) -> Result<
    Seq<AttributeModifier>,
    AttributeErrorView,
>
    decreases attrs.len(),
{
    if attrs.len() == 0 {
        Ok(Seq::empty())
    } else {
        match modifiers_of(attrs.drop_last()) {
            Err(e) => Err(e),
            Ok(found) => match attribute_modifier(attrs.last()) {
                Err(e) => Err(e),
                Ok(Some(m)) => Ok(found.push(m)),
                Ok(None) => Ok(found),
            },
        }
    }
}

/// The modifier of a site with the given decorators: none, or the one that
/// the decorators ask for; an error where a decorator is not known or where
/// they ask for more than one.
pub open spec fn attributes_of(attrs: Seq<Attribute>) -> Result<Attributes, AttributeErrorView> {
    match modifiers_of(attrs) {
        Err(e) => Err(e),
        Ok(found) => if found.len() == 0 {
            Ok(Attributes::none())
        } else if found.len() > 1 {
            Err(AttributeErrorView::TooManyAttributes)
        } else {
            Ok(Attributes { primary: Some(found[0]) })
        },
    }
}

fn find_bare_modifier(name: &str) -> (found: Option<AttributeModifier>)
    ensures
        found == bare_modifier(name@),
{
    if text_eq(name, "serde") {
        Some(AttributeModifier::Serde)
    } else if text_eq(name, "smi") {
        Some(AttributeModifier::Smi)
    } else if text_eq(name, "string") {
        Some(AttributeModifier::String)
    } else if text_eq(name, "state") {
        Some(AttributeModifier::State)
    } else if text_eq(name, "buffer") {
        Some(AttributeModifier::Buffer(BufferMode::Unsafe))
    } else {
        None
    }
}

fn find_mode_word(tokens: &Vec<String>) -> (found: Option<BufferMode>)
    ensures
        found == mode_word(tokens@),
{
    if tokens.len() != 1 {
        None
    } else if text_eq(tokens[0].as_str(), "unsafe") {
        Some(BufferMode::Unsafe)
    } else if text_eq(tokens[0].as_str(), "copy") {
        Some(BufferMode::Copy)
    } else if text_eq(tokens[0].as_str(), "detach") {
        Some(BufferMode::Detach)
    } else {
        None
    }
}

fn recognise(attr: &Attribute) -> (found: Option<Option<AttributeModifier>>)
    ensures
        found == recognised(*attr),
{
    if attr.inner {
        return None;
    }
    let name = attr.name.as_str();
    match &attr.args {
        AttributeArgs::Absent => match find_bare_modifier(name) {
            Some(m) => Some(Some(m)),
            None => None,
        },
        AttributeArgs::List { tokens, is_path } => {
            if text_eq(name, "buffer") {
                if let Some(mode) = find_mode_word(tokens) {
                    return Some(Some(AttributeModifier::Buffer(mode)));
                }
            }
            if text_eq(name, "allow") && *is_path {
                Some(None)
            } else {
                None
            }
        },
        AttributeArgs::Value { literal } => {
            if text_eq(name, "doc") && *literal {
                Some(None)
            } else {
                None
            }
        },
        AttributeArgs::Other => None,
    }
}

/// Parses a decorator: the modifier it asks for, `None` for a decorator that
/// is known and asks for nothing, an error where it is not known.
pub fn parse_attribute(attr: &Attribute) -> (r: Result<Option<AttributeModifier>, AttributeError>)
    ensures
        failing(r) == attribute_modifier(*attr),
{
    match recognise(attr) {
        Some(m) => Ok(m),
        None => Err(AttributeError::InvalidAttribute(stringify_token(&attr.tokens))),
    }
}

/// Is this a decorator that asks for a modifier?
pub fn is_attribute_special(attr: &Attribute) -> (special: bool)
    ensures
        special == (recognised(*attr) matches Some(Some(_))),
{
    matches!(recognise(attr), Some(Some(_)))
}

/// Is this a decorator that is known and asks for nothing, such as a
/// documentation comment?
pub fn is_attribute_ignorable(attr: &Attribute) -> (ignorable: bool)
    ensures
        ignorable == (recognised(*attr) == Some(None::<AttributeModifier>)),
{
    matches!(recognise(attr), Some(None))
}

/// Parses the decorators of one site into its modifier.
pub fn parse_attributes(attrs: &Vec<Attribute>) -> (r: Result<Attributes, AttributeError>)
    ensures
        failing(r) == attributes_of(attrs@),
{
    let mut found: Vec<AttributeModifier> = Vec::new();
    let mut i: usize = 0;
    assert(attrs@.take(0) =~= Seq::<Attribute>::empty());
    while i < attrs.len()
        invariant
            i <= attrs.len(),
            modifiers_of(attrs@.take(i as int)) == Ok::<_, AttributeErrorView>(found@),
        decreases attrs.len() - i,
    {
        proof {
            let next = attrs@.take(i + 1);
            assert(next.drop_last() =~= attrs@.take(i as int));
            assert(next.last() == attrs@[i as int]);
            lemma_first_error_stays(attrs@, i + 1);
        }
        match parse_attribute(&attrs[i]) {
            Err(e) => {
                return Err(e);
            },
            Ok(Some(m)) => {
                found.push(m);
            },
            Ok(None) => {},
        }
        i += 1;
    }
    assert(attrs@.take(attrs.len() as int) =~= attrs@);
    if found.len() == 0 {
        Ok(Attributes::default())
    } else if found.len() > 1 {
        Err(AttributeError::TooManyAttributes)
    } else {
        Ok(Attributes { primary: Some(found[0]) })
    }
}

/// An error among the first `n` decorators is the error of them all.
proof fn lemma_first_error_stays(attrs: Seq<Attribute>, n: int)
    requires
        0 <= n <= attrs.len(),
    ensures
        modifiers_of(attrs.take(n)) matches Err(e) ==> modifiers_of(attrs) == Err::<
            Seq<AttributeModifier>,
            _,
        >(e),
    decreases attrs.len() - n,
{
    if n < attrs.len() {
        let next = attrs.take(n + 1);
        assert(next.drop_last() =~= attrs.take(n));
        lemma_first_error_stays(attrs, n + 1);
    } else {
        assert(attrs.take(n) =~= attrs);
    }
}

/// Where every decorator is known, each one that asks for a modifier adds
/// one to those found.
proof fn lemma_modifiers_count(attrs: Seq<Attribute>, i: int)
    requires
        0 <= i < attrs.len(),
        forall|k: int| 0 <= k < attrs.len() ==> recognised(#[trigger] attrs[k]) is Some,
        recognised(attrs[i]) matches Some(Some(_)),
    ensures
        modifiers_of(attrs) is Ok,
        modifiers_of(attrs)->Ok_0.len() >= 1,
        modifiers_of(attrs.take(i)) is Ok,
        modifiers_of(attrs)->Ok_0.len() > modifiers_of(attrs.take(i))->Ok_0.len(),
    decreases attrs.len(),
{
    let init = attrs.drop_last();
    lemma_all_known(init);
    lemma_all_known(attrs.take(i));
    if i == attrs.len() - 1 {
        assert(attrs.take(i) =~= init);
    } else {
        lemma_modifiers_count(init, i);
        assert(init.take(i) =~= attrs.take(i));
    }
}

/// Where every decorator is known, none gives an error.
proof fn lemma_all_known(attrs: Seq<Attribute>)
    requires
        forall|k: int| 0 <= k < attrs.len() ==> recognised(#[trigger] attrs[k]) is Some,
    ensures
        modifiers_of(attrs) is Ok,
    decreases attrs.len(),
{
    if attrs.len() > 0 {
        lemma_all_known(attrs.drop_last());
    }
}

/// A site where every decorator is known and two of them ask for a modifier
/// is rejected for having too many.
pub proof fn two_modifiers_are_too_many(attrs: Seq<Attribute>, i: int, j: int)
    requires
        0 <= i < j < attrs.len(),
        forall|k: int| 0 <= k < attrs.len() ==> recognised(#[trigger] attrs[k]) is Some,
        recognised(attrs[i]) matches Some(Some(_)),
        recognised(attrs[j]) matches Some(Some(_)),
    ensures
        attributes_of(attrs) == Err::<Attributes, _>(AttributeErrorView::TooManyAttributes),
{
    lemma_modifiers_count(attrs, j);
    lemma_modifiers_count(attrs.take(j), i);
}

} // verus!
