//! Questions about paths: how many segments a path has, what they are called
//! and which arguments the last one takes.
use crate::syntax::{GenericArgument, Path, PathArguments, PathSegment, TypeExpr};
use crate::text::text_eq;
use vstd::prelude::*;

verus! {

impl PathSegment {
    /// Whether the segment is the bare name `name`.
    pub open spec fn is_plain(self, name: Seq<char>) -> bool {
        self.ident@ == name && self.arguments is Absent
    }

    /// The type `T` of a segment written `name<T>`.
    pub open spec fn sole_type(self) -> Option<TypeExpr> {
        match self.arguments {
            PathArguments::AngleBracketed(args) => if args.len() == 1 {
                match args[0] {
                    GenericArgument::Type(ty) => Some(ty),
                    _ => None,
                }
            } else {
                None
            },
            _ => None,
        }
    }

    /// The type `T` of a segment written `name<T>` or `name<'a, T>`.
    pub open spec fn scoped_type(self) -> Option<TypeExpr> {
        match self.arguments {
            PathArguments::AngleBracketed(args) => if args.len() == 2 && args[0] is Lifetime {
                match args[1] {
                    GenericArgument::Type(ty) => Some(ty),
                    _ => None,
                }
            } else {
                self.sole_type()
            },
            _ => None,
        }
    }

    /// The type `T` of a segment written `name<T>` or `name<T, E>`.
    pub open spec fn leading_type(self) -> Option<TypeExpr> {
        match self.arguments {
            PathArguments::AngleBracketed(args) => if args.len() == 2 && args[1] is Type {
                match args[0] {
                    GenericArgument::Type(ty) => Some(ty),
                    _ => None,
                }
            } else {
                self.sole_type()
            },
            _ => None,
        }
    }

    /// The type `T` of a segment written `name<key = T>`.
    pub open spec fn sole_binding(self, key: Seq<char>) -> Option<TypeExpr> {
        match self.arguments {
            PathArguments::AngleBracketed(args) => if args.len() == 1 {
                match args[0] {
                    GenericArgument::Binding(name, ty) => if name@ == key {
                        Some(ty)
                    } else {
                        None
                    },
                    _ => None,
                }
            } else {
                None
            },
            _ => None,
        }
    }

    /// Whether the segment is written `name` or `name<'a>`.
    pub open spec fn takes_at_most_a_lifetime(self) -> bool {
        match self.arguments {
            PathArguments::Absent => true,
            PathArguments::AngleBracketed(args) => args.len() == 1 && args[0] is Lifetime,
            PathArguments::Other => false,
        }
    }

    /// Whether the segment takes no arguments.
    pub fn is_bare(&self) -> (bare: bool)
        ensures
            bare == (self.arguments is Absent),
    {
        matches!(self.arguments, PathArguments::Absent)
    }

    /// Whether the segment is called `name`, whatever its arguments.
    pub fn is_called(&self, name: &str) -> (called: bool)
        ensures
            called == (self.ident@ == name@),
    {
        text_eq(self.ident.as_str(), name)
    }

    /// Whether the segment is the bare name `name`.
    pub fn plain(&self, name: &str) -> (plain: bool)
        ensures
            plain == self.is_plain(name@),
    {
        self.is_bare() && self.is_called(name)
    }

    /// The type `T` of a segment written `name<T>`.
    pub fn only_type(&self) -> (found: Option<&TypeExpr>)
        ensures
            match found {
                Some(ty) => self.sole_type() == Some(*ty),
                None => self.sole_type() is None,
            },
    {
        match &self.arguments {
            PathArguments::AngleBracketed(args) => {
                if args.len() == 1 {
                    match &args[0] {
                        GenericArgument::Type(ty) => Some(ty),
                        _ => None,
                    }
                } else {
                    None
                }
            },
            _ => None,
        }
    }

    /// The type `T` of a segment written `name<T>` or `name<'a, T>`.
    pub fn type_in_scope(&self) -> (found: Option<&TypeExpr>)
        ensures
            match found {
                Some(ty) => self.scoped_type() == Some(*ty),
                None => self.scoped_type() is None,
            },
    {
        match &self.arguments {
            PathArguments::AngleBracketed(args) => {
                if args.len() == 2 && matches!(args[0], GenericArgument::Lifetime) {
                    match &args[1] {
                        GenericArgument::Type(ty) => Some(ty),
                        _ => None,
                    }
                } else {
                    self.only_type()
                }
            },
            _ => None,
        }
    }

    /// The type `T` of a segment written `name<T>` or `name<T, E>`.
    pub fn first_type(&self) -> (found: Option<&TypeExpr>)
        ensures
            match found {
                Some(ty) => self.leading_type() == Some(*ty),
                None => self.leading_type() is None,
            },
    {
        match &self.arguments {
            PathArguments::AngleBracketed(args) => {
                if args.len() == 2 && matches!(args[1], GenericArgument::Type(_)) {
                    match &args[0] {
                        GenericArgument::Type(ty) => Some(ty),
                        _ => None,
                    }
                } else {
                    self.only_type()
                }
            },
            _ => None,
        }
    }

    /// The type `T` of a segment written `name<key = T>`.
    pub fn only_binding(&self, key: &str) -> (found: Option<&TypeExpr>)
        ensures
            match found {
                Some(ty) => self.sole_binding(key@) == Some(*ty),
                None => self.sole_binding(key@) is None,
            },
    {
        match &self.arguments {
            PathArguments::AngleBracketed(args) => {
                if args.len() == 1 {
                    match &args[0] {
                        GenericArgument::Binding(name, ty) => {
                            if text_eq(name.as_str(), key) {
                                Some(ty)
                            } else {
                                None
                            }
                        },
                        _ => None,
                    }
                } else {
                    None
                }
            },
            _ => None,
        }
    }

    /// Whether the segment is written `name` or `name<'a>`.
    pub fn at_most_a_lifetime(&self) -> (so: bool)
        ensures
            so == self.takes_at_most_a_lifetime(),
    {
        match &self.arguments {
            PathArguments::Absent => true,
            PathArguments::AngleBracketed(args) => args.len() == 1 && matches!(
                args[0],
                GenericArgument::Lifetime
            ),
            PathArguments::Other => false,
        }
    }
}

impl Path {
    /// Whether the path is one segment with no `::` before it.
    pub open spec fn is_single(self) -> bool {
        !self.leading_colon && self.segments.len() == 1
    }

    /// Whether the path is one segment under the bare name `outer`, as in
    /// `outer::Name`.
    pub open spec fn is_under(self, outer: Seq<char>) -> bool {
        !self.leading_colon && self.segments.len() == 2 && self.segments[0].is_plain(outer)
    }

    /// Whether the path is one segment under two bare names, as in
    /// `outer::inner::Name`.
    pub open spec fn is_under2(self, outer: Seq<char>, inner: Seq<char>) -> bool {
        !self.leading_colon && self.segments.len() == 3 && self.segments[0].is_plain(outer)
            && self.segments[1].is_plain(inner)
    }

    /// Whether the path is `Name` or `outer::Name`.
    pub open spec fn may_be_under(self, outer: Seq<char>) -> bool {
        self.is_single() || self.is_under(outer)
    }

    /// Whether the path is `Name` or `outer::inner::Name`.
    pub open spec fn may_be_under2(self, outer: Seq<char>, inner: Seq<char>) -> bool {
        self.is_single() || self.is_under2(outer, inner)
    }

    /// Whether every segment before the last is a bare name and no `::`
    /// stands before the first.
    pub open spec fn is_in_packages(self) -> bool {
        !self.leading_colon && self.segments.len() >= 1 && forall|i: int|
            0 <= i < self.segments.len() - 1 ==> (#[trigger] self.segments[i]).arguments is Absent
    }

    /// The last segment.
    pub open spec fn last(self) -> PathSegment
        recommends
            self.segments.len() > 0,
    {
        self.segments[self.segments.len() - 1]
    }

    /// Whether the last segment is called `name`.
    pub open spec fn ends_with(self, name: Seq<char>) -> bool {
        self.segments.len() > 0 && self.last().ident@ == name
    }

    /// Whether the last segment is the bare name `name`.
    pub open spec fn ends_plainly_with(self, name: Seq<char>) -> bool {
        self.segments.len() > 0 && self.last().is_plain(name)
    }

    /// Whether the path is one segment with no `::` before it.
    pub fn single(&self) -> (so: bool)
        ensures
            so == self.is_single(),
    {
        !self.leading_colon && self.segments.len() == 1
    }

    /// Whether the path is written `outer::Name`.
    pub fn under(&self, outer: &str) -> (so: bool)
        ensures
            so == self.is_under(outer@),
    {
        !self.leading_colon && self.segments.len() == 2 && self.segments[0].plain(outer)
    }

    /// Whether the path is written `outer::inner::Name`.
    pub fn under2(&self, outer: &str, inner: &str) -> (so: bool)
        ensures
            so == self.is_under2(outer@, inner@),
    {
        !self.leading_colon && self.segments.len() == 3 && self.segments[0].plain(outer)
            && self.segments[1].plain(inner)
    }

    /// Whether every segment before the last is a bare name and no `::`
    /// stands before the first.
    pub fn in_packages(&self) -> (so: bool)
        ensures
            so == self.is_in_packages(),
    {
        if self.leading_colon || self.segments.len() == 0 {
            return false;
        }
        let n = self.segments.len() - 1;
        let mut i: usize = 0;
        while i < n
            invariant
                i <= n,
                n == self.segments.len() - 1,
                forall|j: int| 0 <= j < i ==> (#[trigger] self.segments[j]).arguments is Absent,
            decreases n - i,
        {
            if !self.segments[i].is_bare() {
                return false;
            }
            i += 1;
        }
        true
    }

    /// The last segment.
    pub fn last_segment(&self) -> (segment: &PathSegment)
        requires
            self.segments.len() > 0,
        ensures
            *segment == self.last(),
    {
        &self.segments[self.segments.len() - 1]
    }

    /// Whether the last segment is called `name`.
    pub fn ends_in(&self, name: &str) -> (so: bool)
        ensures
            so == self.ends_with(name@),
    {
        self.segments.len() > 0 && self.last_segment().is_called(name)
    }

    /// Whether the last segment is the bare name `name`.
    pub fn ends_plainly_in(&self, name: &str) -> (so: bool)
        ensures
            so == self.ends_plainly_with(name@),
    {
        self.segments.len() > 0 && self.last_segment().plain(name)
    }
}

impl TypeExpr {
    /// The path of a type that is a path with no self type before it.
    pub open spec fn plain_path(self) -> Option<Path> {
        match self {
            TypeExpr::Path(tp) => if tp.qualified {
                None
            } else {
                Some(tp.path)
            },
            _ => None,
        }
    }

    /// The path of a type that is a path with no self type before it.
    pub fn as_plain_path(&self) -> (found: Option<&Path>)
        ensures
            match found {
                Some(path) => self.plain_path() == Some(*path),
                None => self.plain_path() is None,
            },
    {
        match self {
            TypeExpr::Path(tp) => {
                if tp.qualified {
                    None
                } else {
                    Some(&tp.path)
                }
            },
            _ => None,
        }
    }
}

} // verus!
