//! Header collections: a mapping from header name to value that remembers the
//! order in which names were first seen.
use vstd::prelude::*;
use vstd::string::*;
use vstd::multiset::{lemma_insert_increases_count_by_1, lemma_insert_other_elements_unchanged};
use vstd::seq_lib::{to_multiset_build, to_multiset_contains, to_multiset_insert, to_multiset_len};
use crate::text::{
    lemma_precedes_irreflexive, lemma_precedes_total, lemma_precedes_transitive, precedes,
    same_text, text_precedes,
};

verus! {

/// Names and values of a list of entries, as plain texts.
pub open spec fn pairs_of(entries: Seq<(String, String)>) -> Seq<(Seq<char>, Seq<char>)> {
    Seq::new(entries.len(), |i: int| (entries[i].0@, entries[i].1@))
}

/// No name occurs twice in a listing.
pub open spec fn distinct_names(pairs: Seq<(Seq<char>, Seq<char>)>) -> bool {
    forall|i: int, j: int|
        0 <= i < j < pairs.len() ==> (#[trigger] pairs[i]).0 != (#[trigger] pairs[j]).0
}

/// The names of a listing go up in dictionary order from each entry to the next.
pub open spec fn ascending_by_name(pairs: Seq<(Seq<char>, Seq<char>)>) -> bool {
    forall|i: int, j: int|
        0 <= i < j < pairs.len() ==> precedes((#[trigger] pairs[i]).0, (#[trigger] pairs[j]).0)
}

/// `listing` holds the entries of `pairs`, each as often as `pairs` does, in
/// dictionary order of their names.
pub open spec fn lists(
    listing: Seq<(Seq<char>, Seq<char>)>,
    pairs: Seq<(Seq<char>, Seq<char>)>,
) -> bool {
    &&& ascending_by_name(listing)
    &&& listing.to_multiset() == pairs.to_multiset()
}

/// The entries of `pairs` in dictionary order of their names. There is one
/// such listing exactly where no name occurs twice in `pairs`.
pub open spec fn sorted_by_name(pairs: Seq<(Seq<char>, Seq<char>)>) -> Seq<(Seq<char>, Seq<char>)> {
    choose|listing: Seq<(Seq<char>, Seq<char>)>| lists(listing, pairs)
}

/// Two listings in dictionary order that hold the same entries are the same
/// listing.
pub proof fn lemma_listing_unique(a: Seq<(Seq<char>, Seq<char>)>, b: Seq<(Seq<char>, Seq<char>)>)
    requires
        ascending_by_name(a),
        ascending_by_name(b),
        a.to_multiset() == b.to_multiset(),
    ensures
        a == b,
    decreases a.len(),
{
    to_multiset_len(a);
    to_multiset_len(b);
    if a.len() == 0 {
        assert(a =~= b);
    } else {
        let n = a.len() as int;
        let x = a[n - 1];
        let y = b[n - 1];
        // the last entry of each listing occurs somewhere in the other
        to_multiset_contains(a, x);
        to_multiset_contains(b, x);
        to_multiset_contains(a, y);
        to_multiset_contains(b, y);
        assert(a.contains(x));
        assert(b.contains(y));
        let k = choose|k: int| 0 <= k < b.len() && b[k] == x;
        let m = choose|m: int| 0 <= m < a.len() && a[m] == y;
        if k < n - 1 {
            // x = b[k] comes before y = a[m], which does not come after x
            assert(precedes(b[k].0, b[n - 1].0));
            if m < n - 1 {
                assert(precedes(a[m].0, a[n - 1].0));
                lemma_precedes_transitive(x.0, y.0, x.0);
            }
            lemma_precedes_irreflexive(x.0);
        }
        assert(x == y);
        let a0 = a.drop_last();
        let b0 = b.drop_last();
        assert(a =~= a0.push(x));
        assert(b =~= b0.push(x));
        to_multiset_build(a0, x);
        to_multiset_build(b0, x);
        assert forall|v: (Seq<char>, Seq<char>)| a0.to_multiset().count(v) == b0.to_multiset().count(
            v,
        ) by {
            if v == x {
                lemma_insert_increases_count_by_1(a0.to_multiset(), x);
                lemma_insert_increases_count_by_1(b0.to_multiset(), x);
            } else {
                lemma_insert_other_elements_unchanged(a0.to_multiset(), x, v);
                lemma_insert_other_elements_unchanged(b0.to_multiset(), x, v);
            }
        }
        assert(a0.to_multiset() =~= b0.to_multiset());
        assert(ascending_by_name(a0)) by {
            assert forall|i: int, j: int| 0 <= i < j < a0.len() implies precedes(
                (#[trigger] a0[i]).0,
                (#[trigger] a0[j]).0,
            ) by {
                assert(a0[i] == a[i] && a0[j] == a[j]);
            }
        }
        assert(ascending_by_name(b0)) by {
            assert forall|i: int, j: int| 0 <= i < j < b0.len() implies precedes(
                (#[trigger] b0[i]).0,
                (#[trigger] b0[j]).0,
            ) by {
                assert(b0[i] == b[i] && b0[j] == b[j]);
            }
        }
        lemma_listing_unique(a0, b0);
    }
}

/// A listing in dictionary order of some entries is the listing of them.
pub proof fn lemma_sorted_by_name(listing: Seq<(Seq<char>, Seq<char>)>, pairs: Seq<(Seq<char>, Seq<char>)>)
    requires
        lists(listing, pairs),
    ensures
        sorted_by_name(pairs) == listing,
{
    let chosen = sorted_by_name(pairs);
    assert(lists(chosen, pairs));
    lemma_listing_unique(chosen, listing);
}

/// A mapping from header name to header value.
///
/// Names are kept exactly as given (no case folding); writing a name a second
/// time replaces its value, so the last write wins.
#[derive(Debug)]
pub struct Headers {
    entries: Vec<(String, String)>,
}

impl Clone for Headers {
    /// A copy with the same entries in the same order.
    fn clone(&self) -> (copy: Headers)
        ensures
            copy.pairs() == self.pairs(),
            copy@ == self@,
    {
        let mut entries: Vec<(String, String)> = Vec::new();
        let mut i: usize = 0;
        while i < self.entries.len()
            invariant
                i <= self.entries.len(),
                entries@.len() == i,
                forall|k: int|
                    0 <= k < i ==> (#[trigger] entries@[k]).0@ == self.entries@[k].0@
                        && entries@[k].1@ == self.entries@[k].1@,
            decreases self.entries.len() - i,
        {
            entries.push((self.entries[i].0.clone(), self.entries[i].1.clone()));
            i += 1;
        }
        proof {
            use_type_invariant(self);
            assert(pairs_of(entries@) =~= self.pairs());
        }
        let copy = Headers { entries };
        assert(copy@ =~= self@);
        copy
    }
}

impl View for Headers {
    type V = Map<Seq<char>, Seq<char>>;

    /// The mapping itself: each name with the value last written for it.
    closed spec fn view(&self) -> Map<Seq<char>, Seq<char>> {
        Map::new(
            |name: Seq<char>| self.has_name(name),
            |name: Seq<char>| self.pairs()[self.slot_of(name)].1,
        )
    }
}

impl Headers {
    /// The entries in the order in which their names were first written.
    pub closed spec fn pairs(&self) -> Seq<(Seq<char>, Seq<char>)> {
        pairs_of(self.entries@)
    }

    /// Validity: no name is listed twice. Every collection that the program
    /// holds is valid.
    #[verifier::type_invariant]
    pub closed spec fn wf(&self) -> bool {
        distinct_names(self.pairs())
    }

    /// Some entry carries `name`.
    spec fn has_name(&self, name: Seq<char>) -> bool {
        exists|i: int| 0 <= i < self.pairs().len() && (#[trigger] self.pairs()[i]).0 == name
    }

    /// A position at which `name` is listed, if it is listed at all.
    spec fn slot_of(&self, name: Seq<char>) -> int {
        choose|i: int| 0 <= i < self.pairs().len() && (#[trigger] self.pairs()[i]).0 == name
    }

    /// Listing and mapping describe the same entries: every listed pair is in
    /// the mapping, every mapped name is listed, and no name is listed twice.
    pub proof fn lemma_pairs_agree(&self)
        requires
            self.wf(),
        ensures
            forall|i: int|
                0 <= i < self.pairs().len() ==> self@.contains_key(
                    (#[trigger] self.pairs()[i]).0,
                ) && self@[self.pairs()[i].0] == self.pairs()[i].1,
            forall|name: Seq<char>| #[trigger]
                self@.contains_key(name) ==> exists|i: int|
                    0 <= i < self.pairs().len() && (#[trigger] self.pairs()[i]).0 == name,
            distinct_names(self.pairs()),
    {
        assert forall|i: int| 0 <= i < self.pairs().len() implies self@.contains_key(
            (#[trigger] self.pairs()[i]).0,
        ) && self@[self.pairs()[i].0] == self.pairs()[i].1 by {
            self.lemma_slot(self.pairs()[i].0, i);
        }
    }

    /// With distinct names, the position of a listed name is the only one.
    proof fn lemma_slot(&self, name: Seq<char>, i: int)
        requires
            self.wf(),
            0 <= i < self.pairs().len(),
            self.pairs()[i].0 == name,
        ensures
            self.has_name(name),
            self.slot_of(name) == i,
            self@.contains_key(name),
            self@[name] == self.pairs()[i].1,
    {
        let j = self.slot_of(name);
        assert(0 <= j < self.pairs().len() && self.pairs()[j].0 == name);
        if j < i {
            assert(self.pairs()[j].0 != self.pairs()[i].0);
        } else if i < j {
            assert(self.pairs()[i].0 != self.pairs()[j].0);
        }
    }

    /// An empty collection.
    pub fn new() -> (headers: Headers)
        ensures
            headers@ == Map::<Seq<char>, Seq<char>>::empty(),
            headers.pairs() == Seq::<(Seq<char>, Seq<char>)>::empty(),
    {
        let entries: Vec<(String, String)> = Vec::new();
        assert(pairs_of(entries@) =~= Seq::<(Seq<char>, Seq<char>)>::empty());
        let headers = Headers { entries };
        assert(headers@ =~= Map::<Seq<char>, Seq<char>>::empty());
        headers
    }

    /// Number of distinct names.
    pub fn len(&self) -> (count: usize)
        ensures
            count == self.pairs().len(),
    {
        self.entries.len()
    }

    /// Whether no header is held.
    pub fn is_empty(&self) -> (empty: bool)
        ensures
            empty == (self.pairs().len() == 0),
    {
        self.entries.len() == 0
    }

    /// The name of the entry at `index`.
    pub fn name_at(&self, index: usize) -> (name: &String)
        requires
            index < self.pairs().len(),
        ensures
            name@ == self.pairs()[index as int].0,
    {
        &self.entries[index].0
    }

    /// The value of the entry at `index`.
    pub fn value_at(&self, index: usize) -> (value: &String)
        requires
            index < self.pairs().len(),
        ensures
            value@ == self.pairs()[index as int].1,
    {
        &self.entries[index].1
    }

    /// The position at which `name` is listed.
    pub fn position(&self, name: &str) -> (found: Option<usize>)
        ensures
            match found {
                Some(i) => i < self.pairs().len() && self.pairs()[i as int].0 == name@,
                None => forall|i: int|
                    0 <= i < self.pairs().len() ==> (#[trigger] self.pairs()[i]).0 != name@,
            },
    {
        let mut i: usize = 0;
        while i < self.entries.len()
            invariant
                i <= self.entries.len(),
                self.pairs().len() == self.entries.len(),
                forall|k: int| 0 <= k < i ==> (#[trigger] self.pairs()[k]).0 != name@,
            decreases self.entries.len() - i,
        {
            if same_text(self.entries[i].0.as_str(), name) {
                return Some(i);
            }
            i += 1;
        }
        None
    }

    /// The value written for `name`, if any.
    pub fn get(&self, name: &str) -> (value: Option<&String>)
        ensures
            match value {
                Some(v) => self@.contains_key(name@) && v@ == self@[name@],
                None => !self@.contains_key(name@),
            },
    {
        match self.position(name) {
            Some(i) => {
                proof {
                    use_type_invariant(self);
                    self.lemma_slot(name@, i as int);
                }
                Some(&self.entries[i].1)
            },
            None => None,
        }
    }

    /// Whether a value is held for `name`.
    pub fn contains(&self, name: &str) -> (held: bool)
        ensures
            held == self@.contains_key(name@),
    {
        let found = self.position(name);
        proof {
            if self@.contains_key(name@) {
                let j = self.slot_of(name@);
                assert(self.pairs()[j].0 == name@);
            }
        }
        found.is_some()
    }

    /// Writes `value` for `name`. A name that is already listed keeps its
    /// place and takes the new value; a new name goes to the end.
    pub fn insert(&mut self, name: String, value: String)
        ensures
            final(self)@ == old(self)@.insert(name@, value@),
            forall|i: int|
                0 <= i < old(self).pairs().len() && (#[trigger] old(self).pairs()[i]).0 == name@
                    ==> final(self).pairs() == old(self).pairs().update(i, (name@, value@)),
            !old(self)@.contains_key(name@) ==> final(self).pairs() == old(self).pairs().push(
                (name@, value@),
            ),
    {
        proof {
            use_type_invariant(&*self);
        }
        let ghost before = *self;
        let ghost key = name@;
        let ghost val = value@;
        let found = self.position(name.as_str());
        let mut entries: Vec<(String, String)> = Vec::new();
        assert(pairs_of(entries@) =~= Seq::<(Seq<char>, Seq<char>)>::empty());
        core::mem::swap(&mut self.entries, &mut entries);
        match found {
            Some(i) => {
                entries.set(i, (name, value));
                proof {
                    before.lemma_slot(key, i as int);
                    assert(pairs_of(entries@) =~= before.pairs().update(i as int, (key, val)));
                    Self::lemma_update(before.pairs(), pairs_of(entries@), i as int, key, val);
                }
            },
            None => {
                entries.push((name, value));
                proof {
                    assert(pairs_of(entries@) =~= before.pairs().push((key, val)));
                    Self::lemma_push(before.pairs(), pairs_of(entries@), key, val);
                }
            },
        }
        core::mem::swap(&mut self.entries, &mut entries);
        proof {
            match found {
                Some(i) => {
                    Self::lemma_update_view(before, *self, i as int, key, val);
                    assert forall|j: int|
                        0 <= j < before.pairs().len() && (#[trigger] before.pairs()[j]).0
                            == key implies j == i by {
                        before.lemma_slot(key, j);
                    }
                },
                None => {
                    Self::lemma_push_view(before, *self, key, val);
                },
            }
        }
    }

    /// The entries in dictionary order of their names.
    pub fn sorted(&self) -> (listing: Vec<(String, String)>)
        ensures
            pairs_of(listing@) == sorted_by_name(self.pairs()),
            lists(pairs_of(listing@), self.pairs()),
    {
        proof {
            use_type_invariant(self);
        }
        let mut listing: Vec<(String, String)> = Vec::new();
        let mut i: usize = 0;
        assert(self.pairs().take(0) =~= pairs_of(listing@));
        while i < self.entries.len()
            invariant
                i <= self.entries.len(),
                self.pairs().len() == self.entries.len(),
                distinct_names(self.pairs()),
                ascending_by_name(pairs_of(listing@)),
                pairs_of(listing@).to_multiset() == self.pairs().take(i as int).to_multiset(),
            decreases self.entries.len() - i,
        {
            let name = self.entries[i].0.clone();
            let value = self.entries[i].1.clone();
            let ghost before = pairs_of(listing@);
            let ghost entry = (name@, value@);
            proof {
                // the new name is none of the names listed so far
                assert forall|k: int| 0 <= k < before.len() implies (#[trigger] before[k]).0
                    != entry.0 by {
                    to_multiset_contains(before, before[k]);
                    to_multiset_contains(self.pairs().take(i as int), before[k]);
                    assert(before.contains(before[k]));
                    let j = choose|j: int|
                        0 <= j < self.pairs().take(i as int).len() && self.pairs().take(i as int)[j]
                            == before[k];
                    assert(self.pairs()[j] == before[k]);
                    assert(self.pairs()[j].0 != self.pairs()[i as int].0);
                }
            }
            let mut at: usize = 0;
            while at < listing.len() && !text_precedes(name.as_str(), listing[at].0.as_str())
                invariant
                    at <= listing.len(),
                    before == pairs_of(listing@),
                    forall|k: int| 0 <= k < before.len() ==> (#[trigger] before[k]).0 != name@,
                    forall|k: int| 0 <= k < at ==> precedes((#[trigger] before[k]).0, name@),
                decreases listing.len() - at,
            {
                proof {
                    lemma_precedes_total(name@, before[at as int].0);
                }
                at += 1;
            }
            listing.insert(at, (name, value));
            proof {
                let after = pairs_of(listing@);
                assert(after =~= before.insert(at as int, entry));
                to_multiset_insert(before, at as int, entry);
                assert(self.pairs().take(i as int + 1) =~= self.pairs().take(i as int).push(entry));
                to_multiset_build(self.pairs().take(i as int), entry);
                assert forall|a: int, b: int| 0 <= a < b < after.len() implies precedes(
                    (#[trigger] after[a]).0,
                    (#[trigger] after[b]).0,
                ) by {
                    if b == at {
                        assert(after[a] == before[a]);
                    } else if a == at {
                        assert(after[b] == before[b - 1]);
                        assert(precedes(entry.0, before[at as int].0));
                        if b - 1 > at {
                            assert(precedes(before[at as int].0, before[b - 1].0));
                            lemma_precedes_transitive(entry.0, before[at as int].0, before[b - 1].0);
                        }
                    } else {
                        let a0 = if a < at { a } else { a - 1 };
                        let b0 = if b < at { b } else { b - 1 };
                        assert(after[a] == before[a0]);
                        assert(after[b] == before[b0]);
                    }
                }
            }
            i += 1;
        }
        proof {
            assert(self.pairs().take(i as int) =~= self.pairs());
            lemma_sorted_by_name(pairs_of(listing@), self.pairs());
        }
        listing
    }

    /// Replacing the value of a listed name keeps the names distinct.
    proof fn lemma_update(
        before: Seq<(Seq<char>, Seq<char>)>,
        after: Seq<(Seq<char>, Seq<char>)>,
        i: int,
        key: Seq<char>,
        val: Seq<char>,
    )
        requires
            distinct_names(before),
            0 <= i < before.len(),
            before[i].0 == key,
            after == before.update(i, (key, val)),
        ensures
            distinct_names(after),
    {
        assert forall|a: int, b: int| 0 <= a < b < after.len() implies (#[trigger] after[a]).0 != (
        #[trigger] after[b]).0 by {
            assert(after[a].0 == before[a].0);
            assert(after[b].0 == before[b].0);
        }
    }

    /// Listing a new name keeps the names distinct.
    proof fn lemma_push(
        before: Seq<(Seq<char>, Seq<char>)>,
        after: Seq<(Seq<char>, Seq<char>)>,
        key: Seq<char>,
        val: Seq<char>,
    )
        requires
            distinct_names(before),
            forall|i: int| 0 <= i < before.len() ==> (#[trigger] before[i]).0 != key,
            after == before.push((key, val)),
        ensures
            distinct_names(after),
    {
        let n = before.len() as int;
        assert forall|a: int, b: int| 0 <= a < b < after.len() implies (#[trigger] after[a]).0 != (
        #[trigger] after[b]).0 by {
            assert(after[a] == before[a]);
            if b < n {
                assert(after[b] == before[b]);
            }
        }
    }

    /// Replacing the value of a listed name rewrites that name in the mapping.
    proof fn lemma_update_view(before: Headers, after: Headers, i: int, key: Seq<char>, val: Seq<char>)
        requires
            before.wf(),
            after.wf(),
            0 <= i < before.pairs().len(),
            before.pairs()[i].0 == key,
            after.pairs() == before.pairs().update(i, (key, val)),
        ensures
            after@ == before@.insert(key, val),
    {
        assert forall|name: Seq<char>| after@.contains_key(name) == before@.insert(
            key,
            val,
        ).contains_key(name) by {
            if before.has_name(name) {
                let j = before.slot_of(name);
                assert(after.pairs()[j].0 == name);
            }
            if after.has_name(name) {
                let j = after.slot_of(name);
                assert(before.pairs()[j].0 == name);
            }
        }
        assert forall|name: Seq<char>| after@.contains_key(name) implies after@[name]
            == before@.insert(key, val)[name] by {
            let j = after.slot_of(name);
            assert(before.pairs()[j].0 == name);
            before.lemma_slot(name, j);
            after.lemma_slot(name, j);
        }
        assert(after@ =~= before@.insert(key, val));
    }

    /// Listing a new name adds it to the mapping.
    proof fn lemma_push_view(before: Headers, after: Headers, key: Seq<char>, val: Seq<char>)
        requires
            before.wf(),
            after.wf(),
            forall|i: int| 0 <= i < before.pairs().len() ==> (#[trigger] before.pairs()[i]).0 != key,
            after.pairs() == before.pairs().push((key, val)),
        ensures
            !before@.contains_key(key),
            after@ == before@.insert(key, val),
    {
        let n = before.pairs().len() as int;
        assert(after.pairs()[n].0 == key);
        after.lemma_slot(key, n);
        assert forall|name: Seq<char>| after@.contains_key(name) == before@.insert(
            key,
            val,
        ).contains_key(name) by {
            if before.has_name(name) {
                let j = before.slot_of(name);
                assert(after.pairs()[j].0 == name);
            }
            if after.has_name(name) && name != key {
                let j = after.slot_of(name);
                assert(before.pairs()[j].0 == name);
            }
        }
        assert forall|name: Seq<char>| after@.contains_key(name) implies after@[name]
            == before@.insert(key, val)[name] by {
            let j = after.slot_of(name);
            if name != key {
                assert(before.pairs()[j].0 == name);
                before.lemma_slot(name, j);
            }
            after.lemma_slot(name, j);
        }
        assert(after@ =~= before@.insert(key, val));
    }
}

} // verus!
