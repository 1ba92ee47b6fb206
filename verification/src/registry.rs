//! A map from names to records, as a factory keeps it.

use vstd::prelude::*;

verus! {

/// One record under its name.
struct Entry<V> {
    key: String,
    value: V,
}

/// A finite map from names to records. No name occurs twice.
pub struct Registry<V> {
    entries: Vec<Entry<V>>,
}

/// Entry `i` exists and stands under `key`.
spec fn holds_key<V>(entries: Seq<Entry<V>>, i: int, key: Seq<char>) -> bool {
    0 <= i < entries.len() && entries[i].key@ == key
}

spec fn has_key<V>(entries: Seq<Entry<V>>, key: Seq<char>) -> bool {
    exists|i: int| holds_key(entries, i, key)
}

spec fn position<V>(entries: Seq<Entry<V>>, key: Seq<char>) -> int {
    choose|i: int| holds_key(entries, i, key)
}

spec fn distinct_keys<V>(entries: Seq<Entry<V>>) -> bool {
    forall|i: int, j: int|
        0 <= i < entries.len() && 0 <= j < entries.len() && i != j ==> #[trigger] entries[i].key@
            != #[trigger] entries[j].key@
}

spec fn model<V: View>(entries: Seq<Entry<V>>) -> Map<Seq<char>, V::V> {
    Map::new(
        |key: Seq<char>| has_key(entries, key),
        |key: Seq<char>| entries[position(entries, key)].value@,
    )
}

proof fn lemma_position<V>(entries: Seq<Entry<V>>, i: int)
    requires
        distinct_keys(entries),
        0 <= i < entries.len(),
    ensures
        has_key(entries, entries[i].key@),
        position(entries, entries[i].key@) == i,
{
    assert(holds_key(entries, i, entries[i].key@));
}

proof fn lemma_push<V: View>(entries: Seq<Entry<V>>, entry: Entry<V>)
    requires
        distinct_keys(entries),
        !has_key(entries, entry.key@),
    ensures
        distinct_keys(entries.push(entry)),
        model(entries.push(entry)) == model(entries).insert(entry.key@, entry.value@),
{
    let grown = entries.push(entry);
    assert forall|i: int, j: int|
        0 <= i < grown.len() && 0 <= j < grown.len() && i != j implies #[trigger] grown[i].key@
        != #[trigger] grown[j].key@ by {
        if i < entries.len() {
            assert(holds_key(entries, i, entries[i].key@));
        }
        if j < entries.len() {
            assert(holds_key(entries, j, entries[j].key@));
        }
    }
    assert forall|key: Seq<char>| has_key(grown, key) <==> (has_key(entries, key) || key
        == entry.key@) by {
        if has_key(grown, key) {
            let p = position(grown, key);
            if p < entries.len() {
                assert(holds_key(entries, p, key));
            }
        }
        if has_key(entries, key) {
            assert(holds_key(grown, position(entries, key), key));
        }
        if key == entry.key@ {
            assert(holds_key(grown, entries.len() as int, key));
        }
    }
    assert forall|key: Seq<char>| has_key(grown, key) implies #[trigger] model(grown)[key]
        == model(entries).insert(entry.key@, entry.value@)[key] by {
        let p = position(grown, key);
        lemma_position(grown, p);
        if p < entries.len() {
            assert(holds_key(entries, p, key));
            lemma_position(entries, p);
        }
    }
    assert(model(grown) =~= model(entries).insert(entry.key@, entry.value@));
}

proof fn lemma_remove<V: View>(entries: Seq<Entry<V>>, i: int)
    requires
        distinct_keys(entries),
        0 <= i < entries.len(),
    ensures
        distinct_keys(entries.remove(i)),
        model(entries.remove(i)) == model(entries).remove(entries[i].key@),
{
    let rest = entries.remove(i);
    let gone = entries[i].key@;
    assert forall|a: int, b: int|
        0 <= a < rest.len() && 0 <= b < rest.len() && a != b implies #[trigger] rest[a].key@
        != #[trigger] rest[b].key@ by {
        let a0 = if a < i { a } else { a + 1 };
        let b0 = if b < i { b } else { b + 1 };
        assert(rest[a] == entries[a0]);
        assert(rest[b] == entries[b0]);
    }
    assert forall|key: Seq<char>| has_key(rest, key) <==> (has_key(entries, key) && key
        != gone) by {
        if has_key(rest, key) {
            let p = position(rest, key);
            let p0 = if p < i { p } else { p + 1 };
            assert(rest[p] == entries[p0]);
            assert(holds_key(entries, p0, key));
        }
        if has_key(entries, key) && key != gone {
            let q = position(entries, key);
            let q1 = if q < i { q } else { q - 1 };
            assert(rest[q1] == entries[q]);
            assert(holds_key(rest, q1, key));
        }
    }
    assert forall|key: Seq<char>| has_key(rest, key) implies #[trigger] model(rest)[key] == model(
        entries,
    ).remove(gone)[key] by {
        let p = position(rest, key);
        let p0 = if p < i { p } else { p + 1 };
        assert(rest[p] == entries[p0]);
        assert(holds_key(entries, p0, key));
        lemma_position(entries, p0);
    }
    assert(model(rest) =~= model(entries).remove(gone));
}

impl<V: View> View for Registry<V> {
    type V = Map<Seq<char>, V::V>;

    closed spec fn view(&self) -> Map<Seq<char>, V::V> {
        model(self.entries@)
    }
}

impl<V> Registry<V> {
    #[verifier::type_invariant]
    spec fn well_formed(self) -> bool {
        distinct_keys(self.entries@)
    }
}

impl<V: View> Registry<V> {
    /// An empty registry.
    pub fn new() -> (registry: Self)
        ensures
            registry@ == Map::<Seq<char>, V::V>::empty(),
    {
        let registry = Registry { entries: Vec::new() };
        assert(registry@ =~= Map::<Seq<char>, V::V>::empty()) by {
            assert forall|key: Seq<char>| !has_key(registry.entries@, key) by {
                if has_key(registry.entries@, key) {
                    let p = position(registry.entries@, key);
                    assert(holds_key(registry.entries@, p, key));
                }
            }
        }
        registry
    }

    /// Where `key` stands among the entries, if it does.
    fn find(&self, key: &str) -> (found: Option<usize>)
        ensures
            match found {
                Some(i) => holds_key(self.entries@, i as int, key@),
                None => !has_key(self.entries@, key@),
            },
    {
        let wanted = key.to_owned();
        let mut i: usize = 0;
        while i < self.entries.len()
            invariant
                i <= self.entries.len(),
                wanted@ == key@,
                forall|j: int| 0 <= j < i ==> !holds_key(self.entries@, j, key@),
            decreases self.entries.len() - i,
        {
            if self.entries[i].key == wanted {
                return Some(i);
            }
            i = i + 1;
        }
        assert(!has_key(self.entries@, key@)) by {
            if has_key(self.entries@, key@) {
                let p = position(self.entries@, key@);
                assert(holds_key(self.entries@, p, key@));
            }
        }
        None
    }

    /// Whether a record stands under `key`.
    pub fn contains_key(&self, key: &str) -> (present: bool)
        ensures
            present == self@.contains_key(key@),
    {
        self.find(key).is_some()
    }

    /// The record under `key`, if there is one.
    pub fn get(&self, key: &str) -> (record: Option<&V>)
        ensures
            record is Some <==> self@.contains_key(key@),
            record matches Some(v) ==> v@ == self@[key@],
    {
        match self.find(key) {
            Some(i) => {
                proof {
                    use_type_invariant(self);
                    lemma_position(self.entries@, i as int);
                }
                Some(&self.entries[i].value)
            },
            None => None,
        }
    }

    /// The names that have a record, each once, in no particular order.
    pub fn keys(&self) -> (keys: Vec<String>)
        ensures
            forall|key: Seq<char>|
                self@.contains_key(key) <==> exists|i: int|
                    0 <= i < keys.len() && (#[trigger] keys[i])@ == key,
            forall|i: int, j: int|
                0 <= i < keys.len() && 0 <= j < keys.len() && i != j ==> (#[trigger] keys[i])@ != (
                #[trigger] keys[j])@,
    {
        proof {
            use_type_invariant(self);
        }
        let mut keys: Vec<String> = Vec::new();
        let mut i: usize = 0;
        while i < self.entries.len()
            invariant
                i <= self.entries.len(),
                keys.len() == i,
                forall|j: int| 0 <= j < i ==> (#[trigger] keys[j])@ == self.entries[j].key@,
            decreases self.entries.len() - i,
        {
            keys.push(self.entries[i].key.clone());
            i = i + 1;
        }
        proof {
            assert forall|key: Seq<char>|
                self@.contains_key(key) <==> exists|i: int|
                    0 <= i < keys.len() && (#[trigger] keys[i])@ == key by {
                if self@.contains_key(key) {
                    let p = position(self.entries@, key);
                    assert(holds_key(self.entries@, p, key));
                    assert(keys[p]@ == key);
                }
                if exists|i: int| 0 <= i < keys.len() && (#[trigger] keys[i])@ == key {
                    let q = choose|i: int| 0 <= i < keys.len() && (#[trigger] keys[i])@ == key;
                    assert(holds_key(self.entries@, q, key));
                }
            }
        }
        keys
    }

    /// Puts `value` under `key`, in place of what stood there.
    pub fn insert(&mut self, key: String, value: V)
        ensures
            final(self)@ == old(self)@.insert(key@, value@),
    {
        self.remove(key.as_str());
        assert(!self@.contains_key(key@));
        let mut entries = self.take_entries();
        proof {
            assert(model(entries@).contains_key(key@) == has_key(entries@, key@));
            lemma_push(entries@, Entry { key, value });
        }
        entries.push(Entry { key, value });
        *self = Registry { entries };
    }

    /// Takes away what stands under `key`, if anything does.
    pub fn remove(&mut self, key: &str)
        ensures
            final(self)@ == old(self)@.remove(key@),
    {
        match self.find(key) {
            Some(i) => {
                let mut entries = self.take_entries();
                proof {
                    lemma_remove(entries@, i as int);
                }
                entries.remove(i);
                *self = Registry { entries };
            },
            None => {
                assert(self@ =~= self@.remove(key@));
            },
        }
    }

    /// Moves the entries out and leaves the registry empty.
    fn take_entries(&mut self) -> (entries: Vec<Entry<V>>)
        ensures
            entries@ == old(self).entries@,
            distinct_keys(entries@),
    {
        proof {
            use_type_invariant(&*self);
        }
        let mut taken = Registry { entries: Vec::new() };
        core::mem::swap(self, &mut taken);
        taken.entries
    }
}

} // verus!
