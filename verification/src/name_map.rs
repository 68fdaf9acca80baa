//! A map from names to values, kept as a list of entries with distinct names.

use vstd::prelude::*;

verus! {

/// A map whose keys are strings. Each name has at most one entry.
pub struct NameMap<V> {
    entries: Vec<(String, V)>,
}

impl<V> NameMap<V> {
    /// No name has two entries.
    pub closed spec fn wf(&self) -> bool {
        distinct_names(self.entries@)
    }

    /// The map that the entries stand for.
    pub closed spec fn map(&self) -> Map<Seq<char>, V> {
        entry_map(self.entries@)
    }
}

impl<V> View for NameMap<V> {
    type V = Map<Seq<char>, V>;

    open spec fn view(&self) -> Map<Seq<char>, V> {
        self.map()
    }
}

spec fn distinct_names<V>(entries: Seq<(String, V)>) -> bool {
    forall|i: int, j: int|
        0 <= i < j < entries.len() ==> (#[trigger] entries[i]).0@ != (#[trigger] entries[j]).0@
}

spec fn has_name<V>(entries: Seq<(String, V)>, name: Seq<char>) -> bool {
    exists|i: int| 0 <= i < entries.len() && (#[trigger] entries[i]).0@ == name
}

spec fn index_of_name<V>(entries: Seq<(String, V)>, name: Seq<char>) -> int {
    choose|i: int| 0 <= i < entries.len() && (#[trigger] entries[i]).0@ == name
}

spec fn entry_map<V>(entries: Seq<(String, V)>) -> Map<Seq<char>, V> {
    Map::new(
        |name: Seq<char>| has_name(entries, name),
        |name: Seq<char>| entries[index_of_name(entries, name)].1,
    )
}

/// The entry at `i` is the one that the map gives for its name.
proof fn lemma_entry<V>(entries: Seq<(String, V)>, i: int)
    requires
        distinct_names(entries),
        0 <= i < entries.len(),
    ensures
        entry_map(entries).contains_key(entries[i].0@),
        entry_map(entries)[entries[i].0@] == entries[i].1,
{
    let name = entries[i].0@;
    assert(has_name(entries, name));
    let k = index_of_name(entries, name);
    assert(0 <= k < entries.len() && entries[k].0@ == name);
    assert(k == i);
}

proof fn lemma_push<V>(entries: Seq<(String, V)>, entry: (String, V))
    requires
        distinct_names(entries),
        !has_name(entries, entry.0@),
    ensures
        distinct_names(entries.push(entry)),
        entry_map(entries.push(entry)) == entry_map(entries).insert(entry.0@, entry.1),
{
    let grown = entries.push(entry);
    assert forall|i: int, j: int| 0 <= i < j < grown.len() implies (#[trigger] grown[i]).0@ != (
    #[trigger] grown[j]).0@ by {
        assert(entries[i] == grown[i]);
        if j < entries.len() {
            assert(entries[j] == grown[j]);
        }
    }
    assert forall|name: Seq<char>|
        #![auto]
        has_name(grown, name) <==> (name == entry.0@ || has_name(entries, name)) by {
        if has_name(grown, name) {
            let i = index_of_name(grown, name);
            assert(grown[i].0@ == name);
            if i < entries.len() {
                assert(entries[i].0@ == name);
            }
        }
        if name == entry.0@ {
            assert(grown[entries.len() as int].0@ == name);
        }
        if has_name(entries, name) {
            let i = index_of_name(entries, name);
            assert(grown[i].0@ == name);
        }
    }
    assert forall|name: Seq<char>| has_name(grown, name) implies entry_map(grown)[name]
        == entry_map(entries).insert(entry.0@, entry.1)[name] by {
        if name == entry.0@ {
            lemma_entry(grown, entries.len() as int);
        } else {
            let i = index_of_name(entries, name);
            assert(entries[i].0@ == name && grown[i] == entries[i]);
            lemma_entry(grown, i);
            lemma_entry(entries, i);
        }
    }
    assert(entry_map(grown) =~= entry_map(entries).insert(entry.0@, entry.1));
}

proof fn lemma_update<V>(entries: Seq<(String, V)>, i: int, value: V)
    requires
        distinct_names(entries),
        0 <= i < entries.len(),
    ensures
        distinct_names(entries.update(i, (entries[i].0, value))),
        entry_map(entries.update(i, (entries[i].0, value))) == entry_map(entries).insert(
            entries[i].0@,
            value,
        ),
{
    let changed = entries.update(i, (entries[i].0, value));
    assert forall|a: int, b: int| 0 <= a < b < changed.len() implies (#[trigger] changed[a]).0@ != (
    #[trigger] changed[b]).0@ by {
        assert(changed[a].0 == entries[a].0);
        assert(changed[b].0 == entries[b].0);
    }
    assert forall|name: Seq<char>|
        #![auto]
        has_name(changed, name) <==> has_name(entries, name) by {
        if has_name(changed, name) {
            let k = index_of_name(changed, name);
            assert(changed[k].0@ == name && entries[k].0@ == name);
        }
        if has_name(entries, name) {
            let k = index_of_name(entries, name);
            assert(entries[k].0@ == name && changed[k].0@ == name);
        }
    }
    lemma_entry(entries, i);
    assert forall|name: Seq<char>| has_name(changed, name) implies entry_map(changed)[name]
        == entry_map(entries).insert(entries[i].0@, value)[name] by {
        let k = index_of_name(changed, name);
        assert(changed[k].0@ == name && entries[k].0@ == name);
        lemma_entry(changed, k);
        lemma_entry(entries, k);
    }
    assert(entry_map(changed) =~= entry_map(entries).insert(entries[i].0@, value));
}

proof fn lemma_remove<V>(entries: Seq<(String, V)>, i: int)
    requires
        distinct_names(entries),
        0 <= i < entries.len(),
    ensures
        distinct_names(entries.remove(i)),
        entry_map(entries.remove(i)) == entry_map(entries).remove(entries[i].0@),
{
    let left = entries.remove(i);
    assert forall|a: int, b: int| 0 <= a < b < left.len() implies (#[trigger] left[a]).0@ != (
    #[trigger] left[b]).0@ by {
        let c = if a < i { a } else { a + 1 };
        let d = if b < i { b } else { b + 1 };
        assert(left[a] == entries[c] && left[b] == entries[d]);
    }
    assert forall|name: Seq<char>|
        #![auto]
        has_name(left, name) <==> (has_name(entries, name) && name != entries[i].0@) by {
        if has_name(left, name) {
            let a = index_of_name(left, name);
            let c = if a < i { a } else { a + 1 };
            assert(left[a].0@ == name && left[a] == entries[c]);
            assert(entries[c].0@ == name);
        }
        if has_name(entries, name) && name != entries[i].0@ {
            let c = index_of_name(entries, name);
            assert(entries[c].0@ == name);
            let a = if c < i { c } else { c - 1 };
            assert(left[a] == entries[c]);
            assert(left[a].0@ == name);
        }
    }
    assert forall|name: Seq<char>| has_name(left, name) implies entry_map(left)[name]
        == entry_map(entries).remove(entries[i].0@)[name] by {
        let a = index_of_name(left, name);
        let c = if a < i { a } else { a + 1 };
        assert(left[a].0@ == name && left[a] == entries[c]);
        lemma_entry(left, a);
        lemma_entry(entries, c);
    }
    assert(entry_map(left) =~= entry_map(entries).remove(entries[i].0@));
}

impl<V> NameMap<V> {
    /// The empty map.
    pub fn new() -> (map: Self)
        ensures
            map.wf(),
            map@ == Map::<Seq<char>, V>::empty(),
    {
        let map = NameMap { entries: Vec::new() };
        assert(map@ =~= Map::<Seq<char>, V>::empty());
        map
    }

    /// The position of the entry for `name`.
    fn position(&self, name: &str) -> (found: Option<usize>)
        ensures
            match found {
                Some(i) => i < self.entries@.len() && self.entries@[i as int].0@ == name@,
                None => !has_name(self.entries@, name@),
            },
    {
        let key: String = name.to_owned();
        let mut i: usize = 0;
        while i < self.entries.len()
            invariant
                i <= self.entries@.len(),
                key@ == name@,
                forall|j: int| 0 <= j < i ==> (#[trigger] self.entries@[j]).0@ != name@,
            decreases self.entries@.len() - i,
        {
            if self.entries[i].0 == key {
                return Some(i);
            }
            i = i + 1;
        }
        None
    }

    /// Whether `name` has an entry.
    pub fn contains(&self, name: &str) -> (found: bool)
        ensures
            found == self@.contains_key(name@),
    {
        match self.position(name) {
            Some(i) => true,
            None => false,
        }
    }

    /// The value of `name`, where it has one.
    pub fn get(&self, name: &str) -> (value: Option<&V>)
        requires
            self.wf(),
        ensures
            match value {
                Some(v) => self@.contains_key(name@) && *v == self@[name@],
                None => !self@.contains_key(name@),
            },
    {
        match self.position(name) {
            Some(i) => {
                proof {
                    lemma_entry(self.entries@, i as int);
                }
                Some(&self.entries[i].1)
            },
            None => None,
        }
    }

    /// The value of `name`, to be changed in place, where it has one.
    pub fn get_mut(&mut self, name: &str) -> (value: Option<&mut V>)
        requires
            old(self).wf(),
        ensures
            final(self).wf(),
            match value {
                Some(v) => old(self)@.contains_key(name@) && *v == old(self)@[name@]
                    && final(self)@ == old(self)@.insert(name@, *final(v)),
                None => !old(self)@.contains_key(name@) && final(self)@ == old(self)@,
            },
    {
        match self.position(name) {
            Some(i) => {
                proof {
                    lemma_entry(self.entries@, i as int);
                    assert forall|value: V| #![auto]
                        distinct_names(self.entries@.update(i as int, (self.entries@[i as int].0, value)))
                        && entry_map(self.entries@.update(i as int, (self.entries@[i as int].0, value)))
                        == entry_map(self.entries@).insert(name@, value) by {
                        lemma_update(self.entries@, i as int, value);
                    }
                }
                Some(&mut self.entries[i].1)
            },
            None => None,
        }
    }

    /// Gives `name` the value `value`, in place of the one it had.
    pub fn insert(&mut self, name: String, value: V)
        requires
            old(self).wf(),
        ensures
            final(self).wf(),
            final(self)@ == old(self)@.insert(name@, value),
    {
        match self.position(name.as_str()) {
            Some(i) => {
                proof {
                    lemma_update(self.entries@, i as int, value);
                }
                self.entries[i].1 = value;
            },
            None => {
                proof {
                    lemma_push(self.entries@, (name, value));
                }
                self.entries.push((name, value));
            },
        }
    }

    /// Takes the entry for `name` out.
    pub fn remove(&mut self, name: &str) -> (value: Option<V>)
        requires
            old(self).wf(),
        ensures
            final(self).wf(),
            final(self)@ == old(self)@.remove(name@),
            match value {
                Some(v) => old(self)@.contains_key(name@) && v == old(self)@[name@],
                None => !old(self)@.contains_key(name@),
            },
    {
        match self.position(name) {
            Some(i) => {
                proof {
                    lemma_entry(self.entries@, i as int);
                    lemma_remove(self.entries@, i as int);
                }
                let entry = self.entries.remove(i);
                Some(entry.1)
            },
            None => {
                assert(self@.remove(name@) =~= self@);
                None
            },
        }
    }
}

/// A new map has no names.
pub proof fn new_map_is_empty<V>(map: NameMap<V>, name: Seq<char>)
    requires
        call_ensures(NameMap::<V>::new, (), map),
    ensures
        map.wf(),
        !map@.contains_key(name),
{
}

/// A name that was given a value has just that value, and the others keep theirs.
pub proof fn inserted_value_is_found<V>(
    map: &mut NameMap<V>,
    name: String,
    value: V,
    asked: &str,
    found: Option<&V>,
    before: Option<&V>,
    present: bool,
)
    requires
        call_ensures(NameMap::<V>::get, (&*old(map), asked), before),
        call_ensures(NameMap::<V>::insert, (map, name, value), ()),
        call_ensures(NameMap::<V>::get, (&*final(map), asked), found),
        call_ensures(NameMap::<V>::contains, (&*final(map), asked), present),
    ensures
        final(map).wf(),
        asked@ == name@ ==> found == Some(&value),
        asked@ != name@ ==> found == before,
        present <==> found is Some,
{
}

/// A name that was taken out is gone, with the value that it had handed out, and the others
/// keep theirs.
pub proof fn removed_value_is_gone<V>(
    map: &mut NameMap<V>,
    name: &str,
    removed: Option<V>,
    asked: &str,
    found: Option<&V>,
    before: Option<&V>,
    present: bool,
)
    requires
        call_ensures(NameMap::<V>::get, (&*old(map), asked), before),
        call_ensures(NameMap::<V>::remove, (map, name), removed),
        call_ensures(NameMap::<V>::get, (&*final(map), asked), found),
        call_ensures(NameMap::<V>::contains, (&*final(map), asked), present),
    ensures
        final(map).wf(),
        asked@ == name@ ==> found is None && (removed is Some <==> before is Some),
        asked@ == name@ && removed is Some ==> before == Some(&removed->0),
        asked@ != name@ ==> found == before,
        present <==> found is Some,
{
}

/// A value that is changed in place is found as it was left, and the others keep theirs.
pub proof fn changed_value_is_found<V>(
    map: &mut NameMap<V>,
    name: &str,
    value: Option<&mut V>,
    asked: &str,
    found: Option<&V>,
    before: Option<&V>,
)
    requires
        call_ensures(NameMap::<V>::get, (&*old(map), asked), before),
        call_ensures(NameMap::<V>::get_mut, (map, name), value),
        call_ensures(NameMap::<V>::get, (&*final(map), asked), found),
    ensures
        final(map).wf(),
        asked@ == name@ ==> (value is Some <==> before is Some),
        asked@ == name@ && value is Some ==> before == Some(&*(value->0)) && found == Some(
            &*final(value->0),
        ),
        asked@ == name@ && value is None ==> found is None,
        asked@ != name@ ==> found == before,
{
}

} // verus!
