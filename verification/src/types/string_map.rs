//! A map from names to values, in which the last write wins.

use vstd::prelude::*;

verus! {

/// The map that results from writing `entries` one after the other, oldest
/// first: where a name occurs more than once, the last value stands.
pub open spec fn map_of<T>(entries: Seq<(Seq<char>, T)>) -> Map<Seq<char>, T>
    decreases entries.len(),
{
    if entries.len() == 0 {
        Map::empty()
    } else {
        map_of(entries.drop_last()).insert(entries.last().0, entries.last().1)
    }
}

/// Writing one more entry is an insertion into the map written so far.
pub proof fn lemma_map_of_push<T>(entries: Seq<(Seq<char>, T)>, name: Seq<char>, value: T)
    ensures
        map_of(entries.push((name, value))) == map_of(entries).insert(name, value),
{
    assert(entries.push((name, value)).drop_last() =~= entries);
}

/// The names of a map are the names that were written.
pub proof fn lemma_map_of_names<T>(entries: Seq<(Seq<char>, T)>, name: Seq<char>)
    ensures
        map_of(entries).dom().contains(name) <==> exists|i: int|
            0 <= i < entries.len() && (#[trigger] entries[i]).0 == name,
        map_of(entries).dom().finite(),
    decreases entries.len(),
{
    if entries.len() > 0 {
        let rest = entries.drop_last();
        lemma_map_of_names(rest, name);
        if map_of(entries).dom().contains(name) {
            if entries.last().0 == name {
                assert(entries[entries.len() - 1].0 == name);
            } else {
                let i = choose|i: int| 0 <= i < rest.len() && (#[trigger] rest[i]).0 == name;
                assert(entries[i].0 == name);
            }
        }
        if exists|i: int| 0 <= i < entries.len() && (#[trigger] entries[i]).0 == name {
            let i = choose|i: int| 0 <= i < entries.len() && (#[trigger] entries[i]).0 == name;
            if i < rest.len() {
                assert(rest[i].0 == name);
            }
        }
    }
}

/// Whether no name occurs twice in `entries`.
pub open spec fn distinct_names<T>(entries: Seq<(Seq<char>, T)>) -> bool {
    forall|i: int, j: int|
        0 <= i < j < entries.len() ==> (#[trigger] entries[i]).0 != (#[trigger] entries[j]).0
}

/// Where no name occurs twice, the map holds each entry as it was written,
/// and as many names as there are entries.
proof fn lemma_map_of_distinct<T>(entries: Seq<(Seq<char>, T)>)
    requires
        distinct_names(entries),
    ensures
        forall|i: int|
            0 <= i < entries.len() ==> map_of(entries).dom().contains((#[trigger] entries[i]).0)
                && map_of(entries)[entries[i].0] == entries[i].1,
        map_of(entries).dom().finite(),
        map_of(entries).dom().len() == entries.len(),
    decreases entries.len(),
{
    if entries.len() > 0 {
        let rest = entries.drop_last();
        let last = entries.last();
        assert forall|i: int, j: int| 0 <= i < j < rest.len() implies (#[trigger] rest[i]).0 != (
        #[trigger] rest[j]).0 by {
            assert(entries[i].0 != entries[j].0);
        }
        lemma_map_of_distinct(rest);
        lemma_map_of_names(rest, last.0);
        if map_of(rest).dom().contains(last.0) {
            let i = choose|i: int| 0 <= i < rest.len() && (#[trigger] rest[i]).0 == last.0;
            assert(entries[i].0 != entries[entries.len() - 1].0);
        }
        assert forall|i: int| 0 <= i < entries.len() implies map_of(entries).dom().contains(
            (#[trigger] entries[i]).0,
        ) && map_of(entries)[entries[i].0] == entries[i].1 by {
            if i < rest.len() {
                assert(rest[i] == entries[i]);
                assert(entries[i].0 != entries[entries.len() - 1].0);
            }
        }
    }
}

/// Where no name occurs twice, overwriting the value of one entry is an
/// insertion into the map.
proof fn lemma_map_of_update<T>(entries: Seq<(Seq<char>, T)>, at: int, value: T)
    requires
        distinct_names(entries),
        0 <= at < entries.len(),
    ensures
        map_of(entries.update(at, (entries[at].0, value))) == map_of(entries).insert(
            entries[at].0,
            value,
        ),
    decreases entries.len(),
{
    let name = entries[at].0;
    let updated = entries.update(at, (name, value));
    let rest = entries.drop_last();
    if at == entries.len() - 1 {
        assert(updated.drop_last() =~= rest);
        assert(map_of(updated) =~= map_of(entries).insert(name, value));
    } else {
        assert forall|i: int, j: int| 0 <= i < j < rest.len() implies (#[trigger] rest[i]).0 != (
        #[trigger] rest[j]).0 by {
            assert(entries[i].0 != entries[j].0);
        }
        lemma_map_of_update(rest, at, value);
        assert(updated.drop_last() =~= rest.update(at, (name, value)));
        assert(updated.last() == entries.last());
        assert(entries[at].0 != entries[entries.len() - 1].0);
        assert(map_of(updated) =~= map_of(entries).insert(name, value));
    }
}

/// A map from names to values.
///
/// It offers what a hash map keyed by strings offers to a reader of parse
/// results: a name has at most one value, and writing a name again replaces
/// its value. The order of the entries carries no meaning.
#[derive(Debug)]
pub struct StringMap<V> {
    entries: Vec<(String, V)>,
}

impl<V: View> View for StringMap<V> {
    type V = Map<Seq<char>, V::V>;

    closed spec fn view(&self) -> Map<Seq<char>, V::V> {
        map_of(self.written())
    }
}

impl<V: View> StringMap<V> {
    /// The entries as they are stored, by their views.
    pub closed spec fn written(&self) -> Seq<(Seq<char>, V::V)> {
        Seq::new(self.entries@.len(), |i: int| (self.entries@[i].0@, self.entries@[i].1@))
    }

    /// The invariant: no name is stored twice.
    pub closed spec fn wf(&self) -> bool {
        distinct_names(self.written())
    }

    /// An empty map.
    pub fn new() -> (map: Self)
        ensures
            map.wf(),
            map@ == Map::<Seq<char>, V::V>::empty(),
    {
        let map = StringMap { entries: Vec::new() };
        assert(map.written() =~= Seq::empty());
        map
    }

    /// The index at which `name` is stored, if it is.
    fn position(&self, name: &String) -> (found: Option<usize>)
        requires
            self.wf(),
        ensures
            match found {
                Some(at) => at < self.entries@.len() && self.entries@[at as int].0@ == name@,
                None => forall|i: int|
                    0 <= i < self.entries@.len() ==> (#[trigger] self.entries@[i]).0@ != name@,
            },
    {
        let mut at: usize = 0;
        while at < self.entries.len()
            invariant
                at <= self.entries@.len(),
                forall|i: int| 0 <= i < at ==> (#[trigger] self.entries@[i]).0@ != name@,
            decreases self.entries@.len() - at,
        {
            if self.entries[at].0 == *name {
                return Some(at);
            }
            at += 1;
        }
        None
    }

    /// Writes `value` under `name`. A value that stood under that name is
    /// replaced.
    pub fn insert(&mut self, name: String, value: V)
        requires
            old(self).wf(),
        ensures
            final(self).wf(),
            final(self)@ == old(self)@.insert(name@, value@),
    {
        let ghost before = self.written();
        match self.position(&name) {
            Some(at) => {
                self.entries.set(at, (name, value));
                proof {
                    assert(self.written() =~= before.update(at as int, (name@, value@)));
                    assert(before[at as int].0 == name@);
                    lemma_map_of_update(before, at as int, value@);
                    assert forall|i: int, j: int| 0 <= i < j < self.written().len() implies (
                    #[trigger] self.written()[i]).0 != (#[trigger] self.written()[j]).0 by {
                        assert(before[i].0 != before[j].0);
                    }
                }
            },
            None => {
                self.entries.push((name, value));
                proof {
                    assert(self.written() =~= before.push((name@, value@)));
                    lemma_map_of_push(before, name@, value@);
                    assert forall|i: int, j: int| 0 <= i < j < self.written().len() implies (
                    #[trigger] self.written()[i]).0 != (#[trigger] self.written()[j]).0 by {
                        if j < before.len() {
                            assert(before[i].0 != before[j].0);
                        } else {
                            assert(before[i].0 == old(self).entries@[i].0@);
                        }
                    }
                }
            },
        }
    }

    /// The value under `name`, if there is one.
    pub fn get(&self, name: &str) -> (value: Option<&V>)
        requires
            self.wf(),
        ensures
            value is Some <==> self@.dom().contains(name@),
            value matches Some(found) ==> found@ == self@[name@],
    {
        let wanted = name.to_owned();
        proof {
            lemma_map_of_distinct(self.written());
            lemma_map_of_names(self.written(), name@);
        }
        match self.position(&wanted) {
            Some(at) => {
                assert(self.written()[at as int].0 == name@);
                Some(&self.entries[at].1)
            },
            None => {
                assert forall|i: int| 0 <= i < self.written().len() implies (
                #[trigger] self.written()[i]).0 != name@ by {
                    assert(self.entries@[i].0@ != name@);
                }
                None
            },
        }
    }

    /// Whether there is a value under `name`.
    pub fn contains_key(&self, name: &str) -> (present: bool)
        requires
            self.wf(),
        ensures
            present == self@.dom().contains(name@),
    {
        self.get(name).is_some()
    }

    /// The number of names.
    pub fn len(&self) -> (count: usize)
        requires
            self.wf(),
        ensures
            self@.dom().finite(),
            count == self@.dom().len(),
    {
        proof {
            lemma_map_of_distinct(self.written());
        }
        self.entries.len()
    }

    /// Whether the map holds no name.
    pub fn is_empty(&self) -> (empty: bool)
        requires
            self.wf(),
        ensures
            empty == (self@ == Map::<Seq<char>, V::V>::empty()),
    {
        proof {
            lemma_map_of_distinct(self.written());
            if self.entries@.len() == 0 {
                assert(self.written() =~= Seq::empty());
            } else {
                assert(self@.dom().contains(self.written()[0].0));
            }
        }
        self.entries.len() == 0
    }

    /// The entries, each name once, in no particular order.
    pub fn into_entries(self) -> (entries: Vec<(String, V)>)
        requires
            self.wf(),
        ensures
            entries@.len() == self@.dom().len(),
            self@.dom().finite(),
            forall|i: int|
                0 <= i < entries@.len() ==> self@.dom().contains((#[trigger] entries@[i]).0@)
                    && self@[entries@[i].0@] == entries@[i].1@,
            forall|i: int, j: int|
                0 <= i < j < entries@.len() ==> (#[trigger] entries@[i]).0@ != (
                #[trigger] entries@[j]).0@,
    {
        proof {
            lemma_map_of_distinct(self.written());
            assert forall|i: int| 0 <= i < self.entries@.len() implies self@.dom().contains(
                (#[trigger] self.entries@[i]).0@,
            ) && self@[self.entries@[i].0@] == self.entries@[i].1@ by {
                assert(self.written()[i].0 == self.entries@[i].0@);
            }
            assert forall|i: int, j: int| 0 <= i < j < self.entries@.len() implies (
            #[trigger] self.entries@[i]).0@ != (#[trigger] self.entries@[j]).0@ by {
                assert(self.written()[i].0 != self.written()[j].0);
            }
        }
        self.entries
    }
}

} // verus!
