use vstd::prelude::*;

verus! {

/// The map that a list of (name, value) entries defines when later entries replace earlier
/// ones of the same name.
pub open spec fn entries_map<V>(entries: Seq<(Seq<char>, V)>) -> Map<Seq<char>, V>
    decreases entries.len(),
{
    if entries.len() == 0 {
        Map::empty()
    } else {
        entries_map(entries.drop_last()).insert(entries.last().0, entries.last().1)
    }
}

/// Value of `key` in `m`, if any.
pub open spec fn lookup<V>(m: Map<Seq<char>, V>, key: Seq<char>) -> Option<V> {
    if m.dom().contains(key) {
        Some(m[key])
    } else {
        None
    }
}

/// The map after the names `keys[i]` were given the values `values[i]`, in order.
pub open spec fn insert_all<V>(m: Map<Seq<char>, V>, keys: Seq<Seq<char>>, values: Seq<V>) -> Map<
    Seq<char>,
    V,
>
    decreases keys.len(),
{
    if keys.len() == 0 || values.len() == 0 {
        m
    } else {
        insert_all(m, keys.drop_last(), values.drop_last()).insert(keys.last(), values.last())
    }
}

/// Handles that Wireshark assigned, looked up by the names the protocol gave them. A name
/// given a second time takes the newer handle.
pub struct HandleTable<V> {
    entries: Vec<(String, V)>,
}

impl<V> HandleTable<V> {
    /// The entries as (name, value) pairs, oldest first.
    pub closed spec fn entries_view(&self) -> Seq<(Seq<char>, V)> {
        self.entries@.map_values(|e: (String, V)| (e.0@, e.1))
    }
}

impl<V> View for HandleTable<V> {
    type V = Map<Seq<char>, V>;

    open spec fn view(&self) -> Map<Seq<char>, V> {
        entries_map(self.entries_view())
    }
}

/// The last entry of `entries` named `key` decides its value; with no such entry the key is
/// absent.
proof fn lemma_last_entry_decides<V>(entries: Seq<(Seq<char>, V)>, key: Seq<char>, i: int)
    requires
        -1 <= i < entries.len(),
        forall|j: int| i < j < entries.len() ==> #[trigger] entries[j].0 != key,
        i >= 0 ==> entries[i].0 == key,
    ensures
        i >= 0 ==> entries_map(entries).dom().contains(key) && entries_map(entries)[key]
            == entries[i].1,
        i < 0 ==> !entries_map(entries).dom().contains(key),
    decreases entries.len(),
{
    if entries.len() == 0 {
    } else if i == entries.len() - 1 {
    } else {
        let prefix = entries.drop_last();
        assert forall|j: int| i < j < prefix.len() implies #[trigger] prefix[j].0 != key by {
            assert(prefix[j] == entries[j]);
        }
        lemma_last_entry_decides(prefix, key, i);
        assert(entries.last() == entries[entries.len() - 1]);
    }
}

impl<V: Copy> HandleTable<V> {
    /// An empty table.
    pub fn new() -> (t: Self)
        ensures
            t@ == Map::<Seq<char>, V>::empty(),
    {
        let t = HandleTable { entries: Vec::new() };
        assert(t.entries_view() =~= Seq::<(Seq<char>, V)>::empty());
        t
    }

    /// Gives `key` the value `value`.
    pub fn insert(&mut self, key: String, value: V)
        ensures
            final(self)@ == old(self)@.insert(key@, value),
    {
        let ghost before = self.entries_view();
        self.entries.push((key, value));
        assert(self.entries_view().drop_last() =~= before);
    }

    /// The value of `key`, if it has one.
    pub fn get(&self, key: &String) -> (v: Option<V>)
        ensures
            v == lookup(self@, key@),
    {
        let ghost es = self.entries_view();
        let mut i = self.entries.len();
        while i > 0
            invariant
                0 <= i <= self.entries.len(),
                es == self.entries_view(),
                es.len() == self.entries.len(),
                forall|j: int| i <= j < es.len() ==> #[trigger] es[j].0 != key@,
            decreases i,
        {
            i = i - 1;
            if self.entries[i].0 == *key {
                proof {
                    assert(es[i as int].0 == self.entries@[i as int].0@);
                    lemma_last_entry_decides(es, key@, i as int);
                }
                return Some(self.entries[i].1);
            }
            assert(es[i as int].0 == self.entries@[i as int].0@);
        }
        proof {
            lemma_last_entry_decides(es, key@, -1);
        }
        None
    }
}

/// A name looked up right after it was given a value has that value; every other name keeps
/// the value it had.
pub proof fn lemma_lookup_after_insert<V>(m: Map<Seq<char>, V>, key: Seq<char>, value: V, other: Seq<char>)
    ensures
        lookup(m.insert(key, value), key) == Some(value),
        other != key ==> lookup(m.insert(key, value), other) == lookup(m, other),
{
}

/// After names were given values in order, a name has the value of the last time it was
/// given one; a name that was not given any keeps the value it had.
pub proof fn lemma_insert_all_last_wins<V>(
    m: Map<Seq<char>, V>,
    keys: Seq<Seq<char>>,
    values: Seq<V>,
    key: Seq<char>,
    i: int,
)
    requires
        keys.len() == values.len(),
        -1 <= i < keys.len(),
        i >= 0 ==> keys[i] == key,
        forall|j: int| i < j < keys.len() ==> #[trigger] keys[j] != key,
    ensures
        i >= 0 ==> lookup(insert_all(m, keys, values), key) == Some(values[i]),
        i < 0 ==> lookup(insert_all(m, keys, values), key) == lookup(m, key),
    decreases keys.len(),
{
    if keys.len() > 0 && i != keys.len() - 1 {
        let ks = keys.drop_last();
        assert forall|j: int| i < j < ks.len() implies #[trigger] ks[j] != key by {
            assert(ks[j] == keys[j]);
        }
        lemma_insert_all_last_wins(m, ks, values.drop_last(), key, i);
        assert(keys.last() == keys[keys.len() - 1]);
        if i >= 0 {
            assert(ks[i] == keys[i]);
            assert(values.drop_last()[i] == values[i]);
        }
    }
}

/// Every name that was given a value has one afterwards.
pub proof fn lemma_insert_all_covers<V>(
    m: Map<Seq<char>, V>,
    keys: Seq<Seq<char>>,
    values: Seq<V>,
    i: int,
)
    requires
        keys.len() == values.len(),
        0 <= i < keys.len(),
    ensures
        insert_all(m, keys, values).dom().contains(keys[i]),
    decreases keys.len(),
{
    if i != keys.len() - 1 {
        lemma_insert_all_covers(m, keys.drop_last(), values.drop_last(), i);
        assert(keys.drop_last()[i] == keys[i]);
    }
}

} // verus!
