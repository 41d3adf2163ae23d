//! An insertion-ordered map from names to text values. Request headers and
//! the named fields of a payload are both kept in one.

use vstd::prelude::*;

verus! {

/// A sequence of named text values, as specifications see it.
pub type Entries = Seq<(Seq<char>, Seq<char>)>;

/// The position of the first entry called `name`, or the length of `entries`
/// where there is none.
pub open spec fn index_of(entries: Entries, name: Seq<char>) -> int
    decreases entries.len(),
{
    if entries.len() == 0 {
        0
    } else if entries[0].0 == name {
        0
    } else {
        1 + index_of(entries.drop_first(), name)
    }
}

/// Whether some entry is called `name`.
pub open spec fn has_name(entries: Entries, name: Seq<char>) -> bool {
    index_of(entries, name) < entries.len()
}

/// The value of the first entry called `name`.
pub open spec fn lookup(entries: Entries, name: Seq<char>) -> Option<Seq<char>> {
    if has_name(entries, name) {
        Some(entries[index_of(entries, name)].1)
    } else {
        None
    }
}

/// No two entries share a name.
pub open spec fn distinct_names(entries: Entries) -> bool {
    forall|i: int, j: int| 0 <= i < j < entries.len() ==> entries[i].0 != entries[j].0
}

/// `entries` with `name` bound to `value`: in place where the name is already
/// there, at the end where it is new.
pub open spec fn upsert(entries: Entries, name: Seq<char>, value: Seq<char>) -> Entries {
    if has_name(entries, name) {
        entries.update(index_of(entries, name), (name, value))
    } else {
        entries.push((name, value))
    }
}

/// The map that a sequence of entries stands for: each name with the value of
/// its first entry.
pub open spec fn as_map(entries: Entries) -> Map<Seq<char>, Seq<char>> {
    Map::new(
        |name: Seq<char>| has_name(entries, name),
        |name: Seq<char>| entries[index_of(entries, name)].1,
    )
}

/// `index_of` stays within the sequence, points at an entry of that name, and
/// passes over none of that name.
pub proof fn lemma_index_of(entries: Entries, name: Seq<char>)
    ensures
        0 <= index_of(entries, name) <= entries.len(),
        has_name(entries, name) ==> entries[index_of(entries, name)].0 == name,
        forall|j: int| 0 <= j < index_of(entries, name) ==> entries[j].0 != name,
    decreases entries.len(),
{
    if entries.len() != 0 && entries[0].0 != name {
        let rest = entries.drop_first();
        lemma_index_of(rest, name);
        assert forall|j: int| 0 <= j < index_of(entries, name) implies entries[j].0 != name by {
            if j > 0 {
                assert(entries[j] == rest[j - 1]);
            }
        }
        if has_name(entries, name) {
            assert(entries[index_of(entries, name)] == rest[index_of(rest, name)]);
        }
    }
}

/// A position that passes over no entry called `name`, and either ends the
/// sequence or holds such an entry, is `index_of`.
pub proof fn lemma_index_of_is(entries: Entries, name: Seq<char>, k: int)
    requires
        0 <= k <= entries.len(),
        forall|j: int| 0 <= j < k ==> entries[j].0 != name,
        k < entries.len() ==> entries[k].0 == name,
    ensures
        index_of(entries, name) == k,
    decreases entries.len(),
{
    if entries.len() != 0 && entries[0].0 != name {
        let rest = entries.drop_first();
        assert forall|j: int| 0 <= j < k - 1 implies rest[j].0 != name by {
            assert(rest[j] == entries[j + 1]);
        }
        if k < entries.len() {
            assert(rest[k - 1] == entries[k]);
        }
        lemma_index_of_is(rest, name, k - 1);
    } else if entries.len() != 0 {
        if k > 0 {
            assert(entries[0].0 != name);
        }
    }
}

/// After `upsert`, the name is bound to the value, every other name is bound
/// as before, and distinct names stay distinct.
pub proof fn lemma_upsert(entries: Entries, name: Seq<char>, value: Seq<char>)
    requires
        distinct_names(entries),
    ensures
        distinct_names(upsert(entries, name, value)),
        lookup(upsert(entries, name, value), name) == Some(value),
        forall|other: Seq<char>|
            other != name ==> lookup(upsert(entries, name, value), other) == lookup(
                entries,
                other,
            ),
        as_map(upsert(entries, name, value)) == as_map(entries).insert(name, value),
{
    let after = upsert(entries, name, value);
    let at = index_of(entries, name);
    lemma_index_of(entries, name);
    lemma_index_of_is(after, name, at);
    assert forall|other: Seq<char>| other != name implies index_of(after, other) == index_of(
        entries,
        other,
    ) + (if has_name(entries, other) || has_name(entries, name) {
        0int
    } else {
        1int
    }) && lookup(after, other) == lookup(entries, other) by {
        lemma_index_of(entries, other);
        let k = index_of(entries, other);
        if has_name(entries, other) {
            lemma_index_of_is(after, other, k);
        } else {
            lemma_index_of_is(after, other, after.len() as int);
        }
    }
    assert(as_map(after) =~= as_map(entries).insert(name, value));
}

/// The entries bound one after another, from the first to the last, into an
/// empty sequence: of several entries with one name the last gives the value
/// and the first the place.
pub open spec fn bind_all(entries: Entries) -> Entries
    decreases entries.len(),
{
    if entries.len() == 0 {
        Seq::empty()
    } else {
        upsert(bind_all(entries.drop_last()), entries.last().0, entries.last().1)
    }
}

/// What a vector of owned entries holds, as specifications see it.
pub open spec fn entries_of(pairs: Seq<(String, String)>) -> Entries {
    Seq::new(pairs.len(), |i: int| (pairs[i].0@, pairs[i].1@))
}

/// An insertion-ordered map from names to text values, in which no name
/// occurs twice.
#[derive(Debug)]
pub struct Fields {
    entries: Vec<(String, String)>,
}

impl Clone for Fields {
    fn clone(&self) -> (r: Self)
        ensures
            r.entries() == self.entries(),
    {
        proof {
            use_type_invariant(self);
        }
        let mut entries: Vec<(String, String)> = Vec::new();
        let mut at: usize = 0;
        while at < self.entries.len()
            invariant
                at <= self.entries@.len(),
                entries@.len() == at,
                entries_of(entries@) == self.entries().take(at as int),
            decreases self.entries@.len() - at,
        {
            let ghost before = entries@;
            entries.push((self.entries[at].0.clone(), self.entries[at].1.clone()));
            assert forall|j: int| 0 <= j <= at implies entries_of(entries@)[j] == self.entries()[j] by {
                if j < at {
                    assert(entries_of(before)[j] == self.entries().take(at as int)[j]);
                }
            }
            assert(entries_of(entries@) =~= self.entries().take(at + 1));
            at += 1;
        }
        assert(self.entries().take(at as int) =~= self.entries());
        Fields { entries }
    }
}

impl View for Fields {
    type V = Map<Seq<char>, Seq<char>>;

    open spec fn view(&self) -> Map<Seq<char>, Seq<char>> {
        as_map(self.entries())
    }
}

impl Fields {
    /// The entries in the order in which their names were first inserted.
    pub closed spec fn entries(&self) -> Entries {
        entries_of(self.entries@)
    }

    #[verifier::type_invariant]
    spec fn names_are_distinct(&self) -> bool {
        distinct_names(self.entries())
    }

    /// A map without entries.
    pub fn new() -> (r: Self)
        ensures
            r.entries() == Entries::empty(),
            r@ == Map::<Seq<char>, Seq<char>>::empty(),
    {
        let r = Fields { entries: Vec::new() };
        assert(r.entries() =~= Entries::empty());
        assert(r@ =~= Map::<Seq<char>, Seq<char>>::empty());
        r
    }

    /// A map made of the given entries, bound one after another.
    pub fn collect(pairs: &Vec<(String, String)>) -> (r: Self)
        ensures
            r.entries() == bind_all(entries_of(pairs@)),
    {
        let mut collected = Fields::new();
        let mut at: usize = 0;
        while at < pairs.len()
            invariant
                at <= pairs@.len(),
                collected.entries() == bind_all(entries_of(pairs@).take(at as int)),
            decreases pairs@.len() - at,
        {
            collected.insert(pairs[at].0.as_str(), pairs[at].1.as_str());
            proof {
                let all = entries_of(pairs@);
                assert(all.take(at + 1).drop_last() =~= all.take(at as int));
            }
            at += 1;
        }
        assert(entries_of(pairs@).take(at as int) =~= entries_of(pairs@));
        collected
    }

    /// The entries as owned pairs, in order.
    pub fn pairs(&self) -> (r: &Vec<(String, String)>)
        ensures
            entries_of(r@) == self.entries(),
            distinct_names(entries_of(r@)),
    {
        proof {
            use_type_invariant(self);
        }
        &self.entries
    }

    /// The number of entries.
    pub fn len(&self) -> (n: usize)
        ensures
            n == self.entries().len(),
    {
        self.entries.len()
    }

    /// The position of the entry called `name`, or the number of entries where
    /// there is none.
    fn find(&self, name: &str) -> (at: usize)
        ensures
            at == index_of(self.entries(), name@),
            at <= self.entries().len(),
    {
        let wanted = name.to_owned();
        let mut at: usize = 0;
        while at < self.entries.len() && self.entries[at].0 != wanted
            invariant
                at <= self.entries@.len(),
                wanted@ == name@,
                forall|j: int| 0 <= j < at ==> self.entries()[j].0 != name@,
            decreases self.entries@.len() - at,
        {
            at += 1;
        }
        proof {
            lemma_index_of_is(self.entries(), name@, at as int);
        }
        at
    }

    /// Whether some entry is called `name`.
    pub fn contains(&self, name: &str) -> (b: bool)
        ensures
            b == has_name(self.entries(), name@),
            b == self@.dom().contains(name@),
    {
        self.find(name) < self.entries.len()
    }

    /// The value bound to `name`.
    pub fn get(&self, name: &str) -> (r: Option<&String>)
        ensures
            r is Some <==> self@.dom().contains(name@),
            r matches Some(value) ==> value@ == self@[name@],
            (match r {
                Some(value) => Some(value@),
                None => None,
            }) == lookup(self.entries(), name@),
    {
        let at = self.find(name);
        if at < self.entries.len() {
            Some(&self.entries[at].1)
        } else {
            None
        }
    }

    /// Whether every name of this map is bound to the same value in `other`.
    pub fn is_part_of(&self, other: &Fields) -> (b: bool)
        ensures
            b == self@.submap_of(other@),
    {
        proof {
            use_type_invariant(self);
        }
        let mut at: usize = 0;
        while at < self.entries.len()
            invariant
                at <= self.entries@.len(),
                distinct_names(self.entries()),
                forall|j: int|
                    0 <= j < at ==> other@.dom().contains(#[trigger] self.entries()[j].0)
                        && other@[self.entries()[j].0] == self.entries()[j].1,
            decreases self.entries@.len() - at,
        {
            let same = match other.get(self.entries[at].0.as_str()) {
                Some(value) => *value == self.entries[at].1,
                None => false,
            };
            if !same {
                proof {
                    let name = self.entries()[at as int].0;
                    lemma_index_of_is(self.entries(), name, at as int);
                    assert(self@.dom().contains(name));
                }
                return false;
            }
            at += 1;
        }
        proof {
            assert forall|name: Seq<char>| #[trigger]
                self@.dom().contains(name) implies other@.dom().contains(name) && self@[name]
                == other@[name] by {
                lemma_index_of(self.entries(), name);
                let k = index_of(self.entries(), name);
                assert(self.entries()[k].0 == name);
            }
        }
        true
    }

    /// Whether the two maps bind the same names to the same values, in
    /// whatever order.
    pub fn same_as(&self, other: &Fields) -> (b: bool)
        ensures
            b == (self@ == other@),
    {
        let b = self.is_part_of(other) && other.is_part_of(self);
        proof {
            if b {
                assert(self@ =~= other@);
            }
        }
        b
    }

    /// The name of the entry at position `at`.
    pub fn name_at(&self, at: usize) -> (r: &String)
        requires
            at < self.entries().len(),
        ensures
            r@ == self.entries()[at as int].0,
    {
        &self.entries[at].0
    }

    /// The value of the entry at position `at`.
    pub fn value_at(&self, at: usize) -> (r: &String)
        requires
            at < self.entries().len(),
        ensures
            r@ == self.entries()[at as int].1,
    {
        &self.entries[at].1
    }

    /// Binds `name` to `value`. A name that is already there keeps its place
    /// and takes the new value; a new name goes to the end.
    pub fn insert(&mut self, name: &str, value: &str)
        ensures
            final(self).entries() == upsert(old(self).entries(), name@, value@),
            final(self)@ == old(self)@.insert(name@, value@),
    {
        proof {
            use_type_invariant(&*self);
            lemma_upsert(self.entries(), name@, value@);
        }
        let at = self.find(name);
        let entry = (name.to_owned(), value.to_owned());
        let mut entries: Vec<(String, String)> = Vec::new();
        std::mem::swap(&mut entries, &mut self.entries);
        if at < entries.len() {
            entries.set(at, entry);
        } else {
            entries.push(entry);
        }
        assert(entries_of(entries@) =~= upsert(old(self).entries(), name@, value@));
        std::mem::swap(&mut entries, &mut self.entries);
    }
}

} // verus!
