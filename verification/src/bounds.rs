//! The table of generic bounds: a map from the name of a type parameter to
//! the text of its bound, kept in the order of the names.
use crate::text::{
    text_before, text_order, text_order_is_irreflexive, text_order_is_total,
    text_order_is_transitive, Placement,
};
use vstd::prelude::*;

verus! {

/// A map from names to bounds that lists its entries in the order of the
/// names.
#[derive(Clone, Debug, PartialEq, Eq)]
pub struct BoundMap {
    entries: Vec<(String, String)>,
}

/// The name in `names` that comes first in the order of texts.
pub open spec fn least_name(names: Set<Seq<char>>) -> Seq<char> {
    choose|name: Seq<char>| is_least_name(names, name)
}

/// Whether `name` is in `names` and no name in `names` comes before it.
pub open spec fn is_least_name(names: Set<Seq<char>>, name: Seq<char>) -> bool {
    names.contains(name) && forall|other: Seq<char>| #[trigger]
        names.contains(other) ==> !text_before(other, name)
}

/// A set of names has one least name at most.
pub proof fn least_name_is_unique(names: Set<Seq<char>>, name: Seq<char>)
    requires
        is_least_name(names, name),
    ensures
        least_name(names) == name,
{
    let chosen = least_name(names);
    if chosen != name {
        text_order_is_total(chosen, name);
    }
}

impl BoundMap {
    /// The entries as pairs of a name and a bound, in the order in which the
    /// map lists them.
    pub closed spec fn listing(self) -> Seq<(Seq<char>, Seq<char>)> {
        Seq::new(self.entries.len() as nat, |i: int| (self.entries[i].0@, self.entries[i].1@))
    }

    /// Whether the map lists its names in ascending order, each once.
    pub open spec fn wf(self) -> bool {
        forall|i: int, j: int|
            0 <= i < j < self.listing().len() ==> text_before(
                (#[trigger] self.listing()[i]).0,
                (#[trigger] self.listing()[j]).0,
            )
    }

    /// Whether the entry at `at` is that of `name`.
    pub open spec fn holds(self, name: Seq<char>, at: int) -> bool {
        0 <= at < self.listing().len() && self.listing()[at].0 == name
    }

    /// Where the entry of `name` stands.
    pub open spec fn position(self, name: Seq<char>) -> int {
        choose|at: int| self.holds(name, at)
    }

    /// In a well-formed map the entry of a name stands at one place only.
    proof fn lemma_position(self, name: Seq<char>, at: int)
        requires
            self.wf(),
            self.holds(name, at),
        ensures
            self.position(name) == at,
            self@.contains_key(name),
            self@[name] == self.listing()[at].1,
    {
        let chosen = self.position(name);
        text_order_is_irreflexive(name);
        if chosen < at {
            assert(text_before(self.listing()[chosen].0, self.listing()[at].0));
        } else if at < chosen {
            assert(text_before(self.listing()[at].0, self.listing()[chosen].0));
        }
    }

    /// A name that comes after the names before `at` and before the name at
    /// `at` has no entry.
    proof fn lemma_absent(self, name: Seq<char>, at: int)
        requires
            self.wf(),
            0 <= at <= self.listing().len(),
            forall|i: int| 0 <= i < at ==> text_before((#[trigger] self.listing()[i]).0, name),
            at < self.listing().len() ==> text_before(name, self.listing()[at].0),
        ensures
            forall|i: int| !self.holds(name, i),
            !self@.contains_key(name),
            forall|i: int|
                at <= i < self.listing().len() ==> text_before(
                    name,
                    (#[trigger] self.listing()[i]).0,
                ),
    {
        text_order_is_irreflexive(name);
        assert forall|i: int| at <= i < self.listing().len() implies text_before(
            name,
            (#[trigger] self.listing()[i]).0,
        ) by {
            if at < i {
                assert(text_before(self.listing()[at].0, self.listing()[i].0));
                text_order_is_transitive(name, self.listing()[at].0, self.listing()[i].0);
            }
        }
        assert forall|i: int| !self.holds(name, i) by {
            if 0 <= i < self.listing().len() {
                if i < at {
                    assert(text_before(self.listing()[i].0, name));
                } else {
                    assert(text_before(name, self.listing()[i].0));
                }
            }
        }
    }

    /// An empty map.
    pub fn new() -> (map: BoundMap)
        ensures
            map.wf(),
            map@ == Map::<Seq<char>, Seq<char>>::empty(),
    {
        let map = BoundMap { entries: Vec::new() };
        assert(map@ =~= Map::<Seq<char>, Seq<char>>::empty());
        map
    }

    /// The entries in the order of their names.
    pub fn entries(&self) -> (entries: &Vec<(String, String)>)
        ensures
            entries@.len() == self.listing().len(),
            forall|i: int|
                0 <= i < entries@.len() ==> (#[trigger] entries@[i]).0@ == self.listing()[i].0
                    && entries@[i].1@ == self.listing()[i].1,
    {
        &self.entries
    }

    /// Finds where the entry of `name` stands, or where it would have to
    /// stand.
    fn locate(&self, name: &str) -> (place: (usize, bool))
        requires
            self.wf(),
        ensures
            place.0 <= self.listing().len(),
            place.1 ==> self.holds(name@, place.0 as int),
            !place.1 ==> forall|i: int| !self.holds(name@, i),
            place.1 == self@.contains_key(name@),
            forall|i: int|
                0 <= i < place.0 ==> text_before((#[trigger] self.listing()[i]).0, name@),
            !place.1 ==> forall|i: int|
                place.0 <= i < self.listing().len() ==> text_before(
                    name@,
                    (#[trigger] self.listing()[i]).0,
                ),
    {
        let mut at: usize = 0;
        while at < self.entries.len()
            invariant
                at <= self.entries.len(),
                self.wf(),
                forall|i: int| 0 <= i < at ==> text_before((#[trigger] self.listing()[i]).0, name@),
            decreases self.entries.len() - at,
        {
            match text_order(self.entries[at].0.as_str(), name) {
                Placement::Before => {
                    assert(self.listing()[at as int].0 == self.entries[at as int].0@);
                },
                Placement::Same => {
                    proof {
                        self.lemma_position(name@, at as int);
                    }
                    return (at, true);
                },
                Placement::After => {
                    proof {
                        self.lemma_absent(name@, at as int);
                    }
                    return (at, false);
                },
            }
            at += 1;
        }
        proof {
            self.lemma_absent(name@, at as int);
        }
        (at, false)
    }

    /// Whether the map has an entry for `name`.
    pub fn contains_key(&self, name: &str) -> (found: bool)
        requires
            self.wf(),
        ensures
            found == self@.contains_key(name@),
    {
        self.locate(name).1
    }

    /// Whether the map has no entry.
    pub fn is_empty(&self) -> (empty: bool)
        ensures
            empty == (self@ == Map::<Seq<char>, Seq<char>>::empty()),
    {
        if self.entries.len() == 0 {
            assert(self@ =~= Map::<Seq<char>, Seq<char>>::empty());
            true
        } else {
            assert(self.holds(self.listing()[0].0, 0));
            assert(self@.contains_key(self.listing()[0].0));
            false
        }
    }

    /// The name that the map lists first: the least of its names.
    pub fn first_key(&self) -> (first: Option<&String>)
        requires
            self.wf(),
        ensures
            match first {
                Some(name) => is_least_name(self@.dom(), name@) && least_name(self@.dom())
                    == name@,
                None => self@ == Map::<Seq<char>, Seq<char>>::empty(),
            },
    {
        if self.entries.len() == 0 {
            assert(self@ =~= Map::<Seq<char>, Seq<char>>::empty());
            None
        } else {
            let name = &self.entries[0].0;
            proof {
                assert(self.holds(name@, 0));
                text_order_is_irreflexive(name@);
                assert forall|other: Seq<char>| #[trigger]
                    self@.dom().contains(other) implies !text_before(other, name@) by {
                    let at = self.position(other);
                    assert(self.holds(other, at));
                    if at > 0 {
                        assert(text_before(self.listing()[0].0, self.listing()[at].0));
                        if text_before(other, name@) {
                            text_order_is_transitive(name@, other, name@);
                        }
                    }
                }
                least_name_is_unique(self@.dom(), name@);
            }
            Some(name)
        }
    }

    /// Gives `name` the bound `bound`, in place of the bound it had if it
    /// had one. Returns whether it had one.
    pub fn insert(&mut self, name: String, bound: String) -> (replaced: bool)
        requires
            old(self).wf(),
        ensures
            final(self).wf(),
            final(self)@ == old(self)@.insert(name@, bound@),
            replaced == old(self)@.contains_key(name@),
    {
        let (at, found) = self.locate(name.as_str());
        let ghost before = *self;
        let ghost key = name@;
        let ghost value = bound@;
        if found {
            self.entries.set(at, (name, bound));
            proof {
                let after = *self;
                assert(after.listing() =~= before.listing().update(at as int, (key, value)));
                assert(after.wf()) by {
                    assert forall|i: int, j: int|
                        0 <= i < j < after.listing().len() implies text_before(
                        (#[trigger] after.listing()[i]).0,
                        (#[trigger] after.listing()[j]).0,
                    ) by {
                        assert(after.listing()[i].0 == before.listing()[i].0);
                        assert(after.listing()[j].0 == before.listing()[j].0);
                    }
                }
                assert forall|other: Seq<char>| #[trigger]
                    after@.contains_key(other) <==> before@.insert(key, value).contains_key(
                        other,
                    ) by {
                    if after@.contains_key(other) {
                        let i = after.position(other);
                        assert(after.holds(other, i));
                        assert(before.holds(other, i));
                    }
                    if before@.contains_key(other) {
                        let i = before.position(other);
                        assert(before.holds(other, i));
                        assert(after.holds(other, i));
                    }
                    if other == key {
                        assert(after.holds(other, at as int));
                    }
                }
                assert forall|other: Seq<char>| #[trigger]
                    after@.contains_key(other) implies after@[other] == before@.insert(
                    key,
                    value,
                )[other] by {
                    let i = after.position(other);
                    assert(after.holds(other, i));
                    after.lemma_position(other, i);
                    if other != key {
                        assert(before.holds(other, i));
                        before.lemma_position(other, i);
                    } else {
                        after.lemma_position(other, at as int);
                    }
                }
                assert(after@ =~= before@.insert(key, value));
            }
        } else {
            self.entries.insert(at, (name, bound));
            proof {
                let after = *self;
                assert(after.listing() =~= before.listing().insert(at as int, (key, value)));
                assert(after.wf()) by {
                    assert forall|i: int, j: int|
                        0 <= i < j < after.listing().len() implies text_before(
                        (#[trigger] after.listing()[i]).0,
                        (#[trigger] after.listing()[j]).0,
                    ) by {
                        let a = if i < at { i } else { i - 1 };
                        let b = if j < at { j } else { j - 1 };
                        if i != at {
                            assert(after.listing()[i] == before.listing()[a]);
                        }
                        if j != at {
                            assert(after.listing()[j] == before.listing()[b]);
                        }
                    }
                }
                assert forall|other: Seq<char>| #[trigger]
                    after@.contains_key(other) <==> before@.insert(key, value).contains_key(
                        other,
                    ) by {
                    if after@.contains_key(other) {
                        let i = after.position(other);
                        assert(after.holds(other, i));
                        if i < at {
                            assert(before.holds(other, i));
                        } else if i > at {
                            assert(before.holds(other, i - 1));
                        }
                    }
                    if before@.contains_key(other) {
                        let i = before.position(other);
                        assert(before.holds(other, i));
                        if i < at {
                            assert(after.holds(other, i));
                        } else {
                            assert(after.holds(other, i + 1));
                        }
                    }
                    if other == key {
                        assert(after.holds(other, at as int));
                    }
                }
                assert forall|other: Seq<char>| #[trigger]
                    after@.contains_key(other) implies after@[other] == before@.insert(
                    key,
                    value,
                )[other] by {
                    let i = after.position(other);
                    assert(after.holds(other, i));
                    after.lemma_position(other, i);
                    if i < at {
                        assert(before.holds(other, i));
                        before.lemma_position(other, i);
                    } else if i > at {
                        assert(before.holds(other, i - 1));
                        before.lemma_position(other, i - 1);
                    }
                }
                assert(after@ =~= before@.insert(key, value));
            }
        }
        found
    }

    /// Takes the entry of `name` out of the map and returns its bound, if
    /// the map has such an entry.
    pub fn remove(&mut self, name: &str) -> (bound: Option<String>)
        requires
            old(self).wf(),
        ensures
            final(self).wf(),
            final(self)@ == old(self)@.remove(name@),
            match bound {
                Some(b) => old(self)@.contains_key(name@) && b@ == old(self)@[name@],
                None => !old(self)@.contains_key(name@),
            },
    {
        let (at, found) = self.locate(name);
        let ghost before = *self;
        let ghost key = name@;
        if !found {
            assert(before@ =~= before@.remove(key));
            return None;
        }
        let entry = self.entries.remove(at);
        proof {
            let after = *self;
            before.lemma_position(key, at as int);
            text_order_is_irreflexive(key);
            assert(after.listing() =~= before.listing().remove(at as int));
            assert(after.wf()) by {
                assert forall|i: int, j: int|
                    0 <= i < j < after.listing().len() implies text_before(
                    (#[trigger] after.listing()[i]).0,
                    (#[trigger] after.listing()[j]).0,
                ) by {
                    let a = if i < at { i } else { i + 1 };
                    let b = if j < at { j } else { j + 1 };
                    assert(after.listing()[i] == before.listing()[a]);
                    assert(after.listing()[j] == before.listing()[b]);
                }
            }
            assert forall|other: Seq<char>| #[trigger]
                after@.contains_key(other) <==> before@.remove(key).contains_key(other) by {
                if after@.contains_key(other) {
                    let i = after.position(other);
                    assert(after.holds(other, i));
                    let a = if i < at { i } else { i + 1 };
                    assert(before.holds(other, a));
                    if other == key {
                        before.lemma_position(other, a);
                    }
                }
                if before@.contains_key(other) && other != key {
                    let i = before.position(other);
                    assert(before.holds(other, i));
                    if i < at {
                        assert(after.holds(other, i));
                    } else {
                        assert(after.holds(other, i - 1));
                    }
                }
            }
            assert forall|other: Seq<char>| #[trigger]
                after@.contains_key(other) implies after@[other] == before@.remove(key)[other] by {
                let i = after.position(other);
                assert(after.holds(other, i));
                after.lemma_position(other, i);
                let a = if i < at { i } else { i + 1 };
                assert(before.holds(other, a));
                before.lemma_position(other, a);
            }
            assert(after@ =~= before@.remove(key));
        }
        Some(entry.1)
    }
}

/// Two well-formed maps with the same entries agree on the first `upto`
/// places of their listings.
proof fn lemma_same_listing(a: BoundMap, b: BoundMap, upto: int)
    requires
        a.wf(),
        b.wf(),
        a@ == b@,
        0 <= upto <= a.listing().len(),
    ensures
        upto <= b.listing().len(),
        forall|i: int| 0 <= i < upto ==> a.listing()[i] == b.listing()[i],
    decreases upto,
{
    if upto > 0 {
        let at = upto - 1;
        lemma_same_listing(a, b, at);
        let (la, lb) = (a.listing(), b.listing());
        let name = la[at].0;
        text_order_is_irreflexive(name);
        assert(a.holds(name, at));
        a.lemma_position(name, at);
        assert(b@.contains_key(name));
        let in_b = b.position(name);
        assert(b.holds(name, in_b));
        b.lemma_position(name, in_b);
        if in_b < at {
            assert(la[in_b] == lb[in_b]);
            assert(text_before(la[in_b].0, la[at].0));
        } else if in_b > at {
            let other = lb[at].0;
            text_order_is_irreflexive(other);
            assert(text_before(lb[at].0, lb[in_b].0));
            assert(b.holds(other, at));
            b.lemma_position(other, at);
            assert(a@.contains_key(other));
            let in_a = a.position(other);
            assert(a.holds(other, in_a));
            if in_a < at {
                assert(la[in_a] == lb[in_a]);
                assert(text_before(lb[in_a].0, lb[at].0));
            } else if in_a > at {
                assert(text_before(la[at].0, la[in_a].0));
                text_order_is_transitive(name, other, name);
            }
        }
    }
}

/// A well-formed map lists its entries in one way only: two well-formed maps
/// with the same entries have the same listing.
pub proof fn listing_is_determined(a: BoundMap, b: BoundMap)
    requires
        a.wf(),
        b.wf(),
        a@ == b@,
    ensures
        a.listing() == b.listing(),
{
    lemma_same_listing(a, b, a.listing().len() as int);
    lemma_same_listing(b, a, b.listing().len() as int);
    assert(a.listing() =~= b.listing());
}

impl View for BoundMap {
    type V = Map<Seq<char>, Seq<char>>;

    /// The map from each listed name to its bound.
    open spec fn view(&self) -> Map<Seq<char>, Seq<char>> {
        Map::new(
            |name: Seq<char>| exists|at: int| self.holds(name, at),
            |name: Seq<char>| self.listing()[self.position(name)].1,
        )
    }
}

} // verus!
