//! A small table of values for textures of the renderer.
use vstd::prelude::*;

verus! {

/// Identity of a texture over all generations of render resources.
#[derive(Debug, Clone, Copy, PartialEq, Eq, Structural)]
pub struct RenderLeaseKey {
    /// Generation of render resources.
    pub generation: u64,
    /// Number of the texture.
    pub handle: u64,
}

/// One line of a [`LeaseTable`].
#[derive(Debug)]
pub struct LeaseEntry<T> {
    /// Texture.
    pub key: RenderLeaseKey,
    /// Its value.
    pub value: T,
}

/// Values for textures, at most one for each.
#[derive(Debug)]
pub struct LeaseTable<T> {
    entries: Vec<LeaseEntry<T>>,
}

/// Whether a line of the table is about the texture.
spec fn lists<T>(entries: Seq<LeaseEntry<T>>, key: RenderLeaseKey) -> bool {
    exists|i: int| 0 <= i < entries.len() && (#[trigger] entries[i]).key == key
}

/// The line of the table that is about the texture.
spec fn line_of<T>(entries: Seq<LeaseEntry<T>>, key: RenderLeaseKey) -> int {
    choose|i: int| 0 <= i < entries.len() && (#[trigger] entries[i]).key == key
}

/// Whether no two lines of the table are about one texture.
spec fn distinct<T>(entries: Seq<LeaseEntry<T>>) -> bool {
    forall|i: int, j: int|
        #![trigger entries[i], entries[j]]
        0 <= i < j < entries.len() ==> entries[i].key != entries[j].key
}

/// The table as a map.
spec fn as_map<T>(entries: Seq<LeaseEntry<T>>) -> Map<RenderLeaseKey, T> {
    Map::new(
        |key: RenderLeaseKey| lists(entries, key),
        |key: RenderLeaseKey| entries[line_of(entries, key)].value,
    )
}

impl<T> View for LeaseTable<T> {
    type V = Map<RenderLeaseKey, T>;

    closed spec fn view(&self) -> Map<RenderLeaseKey, T> {
        as_map(self.entries@)
    }
}

impl<T> LeaseTable<T> {
    /// No texture occurs twice.
    pub closed spec fn wf(self) -> bool {
        distinct(self.entries@)
    }

    /// A table without values.
    pub fn new() -> (r: Self)
        ensures
            r.wf(),
            r@ == Map::<RenderLeaseKey, T>::empty(),
    {
        let r = LeaseTable { entries: Vec::new() };
        assert(r@ =~= Map::<RenderLeaseKey, T>::empty());
        r
    }

    /// The line that is about the texture.
    fn find(&self, key: RenderLeaseKey) -> (r: Option<usize>)
        ensures
            match r {
                Some(index) => index < self.entries@.len() && self.entries@[index as int].key == key,
                None => !lists(self.entries@, key),
            },
    {
        let mut index: usize = 0;
        while index < self.entries.len()
            invariant
                index <= self.entries@.len(),
                forall|i: int| 0 <= i < index ==> (#[trigger] self.entries@[i]).key != key,
            decreases self.entries@.len() - index,
        {
            if self.entries[index].key == key {
                return Some(index);
            }
            index = index + 1;
        }
        None
    }

    /// Whether the texture has a value.
    pub fn contains_key(&self, key: RenderLeaseKey) -> (r: bool)
        ensures
            r == self@.contains_key(key),
    {
        match self.find(key) {
            Some(index) => {
                assert(lists(self.entries@, key));
                true
            },
            None => false,
        }
    }

    /// The value of the texture.
    pub fn get(&self, key: RenderLeaseKey) -> (r: Option<&T>)
        requires
            self.wf(),
        ensures
            r is Some <==> self@.contains_key(key),
            r matches Some(value) ==> *value == self@[key],
    {
        match self.find(key) {
            Some(index) => {
                proof {
                    lemma_line(self.entries@, index as int);
                }
                Some(&self.entries[index].value)
            },
            None => None,
        }
    }

    /// Gives the texture a value in the place of a former one.
    pub fn insert(&mut self, key: RenderLeaseKey, value: T)
        requires
            old(self).wf(),
        ensures
            final(self).wf(),
            final(self)@ == old(self)@.insert(key, value),
    {
        let _former = self.remove(key);
        let ghost before = self.entries@;
        assert(!as_map(before).contains_key(key));
        self.entries.push(LeaseEntry { key, value });
        proof {
            lemma_pushed(before, LeaseEntry { key, value });
            assert(self@ =~= old(self)@.insert(key, value));
        }
    }

    /// Takes the value of the texture away.
    pub fn remove(&mut self, key: RenderLeaseKey) -> (r: Option<T>)
        requires
            old(self).wf(),
        ensures
            final(self).wf(),
            final(self)@ == old(self)@.remove(key),
            r == if old(self)@.contains_key(key) {
                Some(old(self)@[key])
            } else {
                None
            },
    {
        match self.find(key) {
            Some(index) => {
                let entry = self.entries.swap_remove(index);
                proof {
                    lemma_line(old(self).entries@, index as int);
                    lemma_removed(old(self).entries@, self.entries@, index as int);
                }
                Some(entry.value)
            },
            None => {
                assert(self@ =~= old(self)@.remove(key));
                None
            },
        }
    }

    /// Takes all values away.
    pub fn clear(&mut self)
        ensures
            final(self).wf(),
            final(self)@ == Map::<RenderLeaseKey, T>::empty(),
    {
        self.entries.clear();
        assert(self@ =~= Map::<RenderLeaseKey, T>::empty());
    }

    /// The number of textures that have a value.
    pub fn len(&self) -> (r: usize)
        requires
            self.wf(),
        ensures
            r == self@.dom().len(),
            self@.dom().finite(),
    {
        proof {
            lemma_size(self.entries@);
        }
        self.entries.len()
    }

    /// Whether a texture of the generation has a value.
    pub fn has_generation(&self, generation: u64) -> (r: bool)
        ensures
            r == exists|key: RenderLeaseKey| #[trigger]
                self@.contains_key(key) && key.generation == generation,
    {
        let mut index: usize = 0;
        while index < self.entries.len()
            invariant
                index <= self.entries@.len(),
                forall|i: int|
                    0 <= i < index ==> (#[trigger] self.entries@[i]).key.generation != generation,
            decreases self.entries@.len() - index,
        {
            if self.entries[index].key.generation == generation {
                proof {
                    let key = self.entries@[index as int].key;
                    assert(lists(self.entries@, key));
                    assert(self@.contains_key(key));
                }
                return true;
            }
            index = index + 1;
        }
        false
    }
}

/// The map gives a texture the value on its line.
proof fn lemma_line<T>(entries: Seq<LeaseEntry<T>>, i: int)
    requires
        distinct(entries),
        0 <= i < entries.len(),
    ensures
        as_map(entries).contains_key(entries[i].key),
        as_map(entries)[entries[i].key] == entries[i].value,
{
    let key = entries[i].key;
    assert(lists(entries, key));
    let line = line_of(entries, key);
    assert(0 <= line < entries.len() && entries[line].key == key);
    if line < i {
        assert(entries[line].key != entries[i].key);
    } else if i < line {
        assert(entries[i].key != entries[line].key);
    }
}

/// A new line adds its texture.
proof fn lemma_pushed<T>(entries: Seq<LeaseEntry<T>>, entry: LeaseEntry<T>)
    requires
        distinct(entries),
        !lists(entries, entry.key),
    ensures
        distinct(entries.push(entry)),
        as_map(entries.push(entry)) == as_map(entries).insert(entry.key, entry.value),
{
    let after = entries.push(entry);
    assert forall|i: int, j: int|
        #![trigger after[i], after[j]]
        0 <= i < j < after.len() implies after[i].key != after[j].key by {
        if j < entries.len() {
            assert(entries[i].key != entries[j].key);
        } else {
            assert(entries[i].key != entry.key);
        }
    }
    lemma_line(after, entries.len() as int);
    assert forall|key: RenderLeaseKey| key != entry.key implies lists(after, key) == lists(
        entries,
        key,
    ) && (lists(entries, key) ==> as_map(after)[key] == as_map(entries)[key]) by {
        if lists(entries, key) {
            let i = line_of(entries, key);
            assert(after[i].key == key);
            lemma_line(entries, i);
            lemma_line(after, i);
        }
        if lists(after, key) {
            let i = line_of(after, key);
            assert(i < entries.len());
            assert(entries[i].key == key);
        }
    }
    assert(as_map(after) =~= as_map(entries).insert(entry.key, entry.value));
}

/// Taking a line out and putting the last one in its place takes its texture away.
proof fn lemma_removed<T>(before: Seq<LeaseEntry<T>>, after: Seq<LeaseEntry<T>>, index: int)
    requires
        distinct(before),
        0 <= index < before.len(),
        after == before.update(index, before.last()).drop_last(),
    ensures
        distinct(after),
        as_map(after) == as_map(before).remove(before[index].key),
{
    let removed = before[index].key;
    let last = before.len() - 1;
    assert forall|i: int| 0 <= i < after.len() implies after[i] == before[if i == index {
        last
    } else {
        i
    }] by {}
    assert forall|i: int, j: int|
        #![trigger after[i], after[j]]
        0 <= i < j < after.len() implies after[i].key != after[j].key by {
        let a = if i == index { last } else { i };
        let b = if j == index { last } else { j };
        assert(a != b);
        if a < b {
            assert(before[a].key != before[b].key);
        } else {
            assert(before[b].key != before[a].key);
        }
    }
    assert forall|key: RenderLeaseKey| key != removed implies lists(after, key) == lists(before, key)
        && (lists(before, key) ==> as_map(after)[key] == as_map(before)[key]) by {
        if lists(before, key) {
            let i = line_of(before, key);
            let k = if i == last { index } else { i };
            assert(after[k].key == key);
            lemma_line(before, i);
            lemma_line(after, k);
        }
        if lists(after, key) {
            let k = line_of(after, key);
            let i = if k == index { last } else { k };
            assert(before[i].key == key);
        }
    }
    assert(!lists(after, removed)) by {
        if lists(after, removed) {
            let k = line_of(after, removed);
            let i = if k == index { last } else { k };
            assert(before[i].key == removed);
            if i < index {
                assert(before[i].key != before[index].key);
            } else if index < i {
                assert(before[index].key != before[i].key);
            }
        }
    }
    assert(as_map(after) =~= as_map(before).remove(removed));
}

/// The map has as many textures as the table has lines.
proof fn lemma_size<T>(entries: Seq<LeaseEntry<T>>)
    requires
        distinct(entries),
    ensures
        as_map(entries).dom().finite(),
        as_map(entries).dom().len() == entries.len(),
{
    let keys = Seq::new(entries.len(), |i: int| entries[i].key);
    assert(keys.no_duplicates()) by {
        assert forall|i: int, j: int| 0 <= i < keys.len() && 0 <= j < keys.len() && i != j implies keys[i]
            != keys[j] by {
            if i < j {
                assert(entries[i].key != entries[j].key);
            } else {
                assert(entries[j].key != entries[i].key);
            }
        }
    }
    keys.unique_seq_to_set();
    assert(keys.to_set() =~= as_map(entries).dom()) by {
        assert forall|key: RenderLeaseKey| keys.to_set().contains(key) == as_map(
            entries,
        ).contains_key(key) by {
            if keys.contains(key) {
                let i = choose|i: int| 0 <= i < keys.len() && keys[i] == key;
                assert(entries[i].key == key);
            }
            if lists(entries, key) {
                let i = line_of(entries, key);
                assert(keys[i] == key);
            }
        }
    }
}

} // verus!
