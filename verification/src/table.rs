//! A map from names to values.

use vstd::prelude::*;

verus! {

/// Values that can be copied without loss.
pub trait Duplicate: View + Sized {
    fn duplicate(&self) -> (r: Self)
        ensures
            r@ == self@,
    ;
}

/// A map keyed by strings.
pub struct Table<V> {
    entries: Vec<(String, V)>,
}

spec fn has_key<V>(entries: Seq<(String, V)>, key: Seq<char>) -> bool {
    exists|i: int| 0 <= i < entries.len() && #[trigger] entries[i].0@ == key
}

spec fn position<V>(entries: Seq<(String, V)>, key: Seq<char>) -> int {
    choose|i: int| 0 <= i < entries.len() && #[trigger] entries[i].0@ == key
}

spec fn as_map<V: View>(entries: Seq<(String, V)>) -> Map<Seq<char>, V::V> {
    Map::new(|key: Seq<char>| has_key(entries, key), |key: Seq<char>| entries[position(entries, key)].1@)
}

impl<V: View> View for Table<V> {
    type V = Map<Seq<char>, V::V>;

    closed spec fn view(&self) -> Map<Seq<char>, V::V> {
        as_map(self.entries@)
    }
}

spec fn distinct<V>(entries: Seq<(String, V)>) -> bool {
    forall|i: int, j: int|
        0 <= i < j < entries.len() ==> (#[trigger] entries[i]).0@ != (#[trigger] entries[j]).0@
}

impl<V> Table<V> {
    /// No key occurs twice.
    #[verifier::type_invariant]
    spec fn inv(self) -> bool {
        distinct(self.entries@)
    }
}

/// Storing an entry, in place of the one with its key or behind the others,
/// stores its value under its key.
proof fn lemma_put<V: View>(before: Seq<(String, V)>, at: int, entry: (String, V), after: Seq<(String, V)>)
    requires
        distinct(before),
        ({
            ||| 0 <= at < before.len() && before[at].0@ == entry.0@ && after == before.update(at, entry)
            ||| at == before.len() && !has_key(before, entry.0@) && after == before.push(entry)
        }),
    ensures
        distinct(after),
        as_map(after) == as_map(before).insert(entry.0@, entry.1@),
{
    let k = entry.0@;
    assert(after[at].0@ == k);
    assert(forall|j: int| 0 <= j < before.len() ==> (#[trigger] after[j]).0@ == before[j].0@);
    assert forall|x: Seq<char>| #[trigger] has_key(after, x) <==> (has_key(before, x) || x == k) by {
        if has_key(before, x) {
            assert(after[position(before, x)].0@ == x);
        }
        if has_key(after, x) && x != k {
            assert(before[position(after, x)].0@ == x);
        }
    }
    assert forall|x: Seq<char>| x != k && #[trigger] has_key(after, x) implies after[position(after, x)].1
        == before[position(before, x)].1 by {
        assert(after[position(before, x)].0@ == x);
    }
    assert(position(after, k) == at);
    assert(as_map(after) =~= as_map(before).insert(k, entry.1@));
}

impl<V: View> Table<V> {
    /// The empty table.
    pub fn new() -> (t: Self)
        ensures
            t@ == Map::<Seq<char>, V::V>::empty(),
    {
        let t = Table { entries: Vec::new() };
        assert(t@ =~= Map::<Seq<char>, V::V>::empty());
        t
    }

    /// Where `key` stands in the table.
    fn find(&self, key: &str) -> (r: Option<usize>)
        ensures
            match r {
                Some(i) => i < self.entries@.len() && self.entries@[i as int].0@ == key@,
                None => !has_key(self.entries@, key@),
            },
    {
        let wanted = key.to_owned();
        let mut i: usize = 0;
        while i < self.entries.len()
            invariant
                wanted@ == key@,
                i <= self.entries@.len(),
                forall|j: int| 0 <= j < i ==> (#[trigger] self.entries@[j]).0@ != key@,
            decreases self.entries@.len() - i,
        {
            if self.entries[i].0 == wanted {
                return Some(i);
            }
            i = i + 1;
        }
        None
    }

    /// The value stored under `key`.
    pub fn get(&self, key: &str) -> (r: Option<&V>)
        ensures
            match r {
                Some(v) => self@.contains_key(key@) && v@ == self@[key@],
                None => !self@.contains_key(key@),
            },
    {
        proof {
            use_type_invariant(self);
        }
        match self.find(key) {
            Some(i) => Some(&self.entries[i].1),
            None => None,
        }
    }

    /// Stores `value` under `key`, in place of what was stored there.
    pub fn insert(&mut self, key: String, value: V)
        ensures
            final(self)@ == old(self)@.insert(key@, value@),
    {
        proof {
            use_type_invariant(&*self);
        }
        let found = self.find(key.as_str());
        let mut entries: Vec<(String, V)> = Vec::new();
        std::mem::swap(&mut entries, &mut self.entries);
        let ghost before = entries@;
        let ghost entry = (key, value);
        match found {
            Some(i) => {
                entries.set(i, (key, value));
                proof {
                    lemma_put(before, i as int, entry, entries@);
                }
            },
            None => {
                entries.push((key, value));
                proof {
                    lemma_put(before, before.len() as int, entry, entries@);
                }
            },
        }
        self.entries = entries;
    }
}

impl<V: Duplicate> Duplicate for Table<V> {
    fn duplicate(&self) -> (r: Self) {
        let mut r: Table<V> = Table::new();
        let mut i: usize = 0;
        proof {
            use_type_invariant(self);
            assert(as_map(self.entries@.take(0)) =~= r@);
        }
        while i < self.entries.len()
            invariant
                i <= self.entries@.len(),
                distinct(self.entries@),
                r@ == as_map(self.entries@.take(i as int)),
            decreases self.entries@.len() - i,
        {
            r.insert(self.entries[i].0.clone(), self.entries[i].1.duplicate());
            proof {
                let before = self.entries@.take(i as int);
                let entry = self.entries@[i as int];
                assert(self.entries@.take(i + 1) =~= before.push(entry));
                lemma_put(before, i as int, entry, before.push(entry));
            }
            i = i + 1;
        }
        assert(self.entries@.take(i as int) =~= self.entries@);
        r
    }
}

/// What was stored under a key is found there, and what stood under another key
/// stays: a table after a store gives for each key what it gave before, but for the
/// key of the store.
pub proof fn a_table_gives_back_what_was_stored<V: View>(
    table: &mut Table<V>,
    key: String,
    value: V,
    wanted: &str,
    before: Option<&V>,
    after: Option<&V>,
)
    requires
        call_ensures(Table::<V>::get, (&*old(table), wanted), before),
        call_ensures(Table::<V>::insert, (table, key, value), ()),
        call_ensures(Table::<V>::get, (&*final(table), wanted), after),
    ensures
        wanted@ == key@ ==> after is Some && after->0@ == value@,
        wanted@ != key@ ==> (after is Some <==> before is Some),
        wanted@ != key@ && before is Some ==> after->0@ == before->0@,
{
}

/// A new table holds nothing, and a copy of a table gives the same for each key.
pub proof fn new_tables_and_copies<V: Duplicate>(
    new: Table<V>,
    table: Table<V>,
    copy: Table<V>,
    wanted: &str,
    in_new: Option<&V>,
    in_table: Option<&V>,
    in_copy: Option<&V>,
)
    requires
        call_ensures(Table::<V>::new, (), new),
        call_ensures(<Table<V> as Duplicate>::duplicate, (&table,), copy),
        call_ensures(Table::<V>::get, (&new, wanted), in_new),
        call_ensures(Table::<V>::get, (&table, wanted), in_table),
        call_ensures(Table::<V>::get, (&copy, wanted), in_copy),
    ensures
        in_new is None,
        in_copy is Some <==> in_table is Some,
        in_table is Some ==> in_copy->0@ == in_table->0@,
{
}

} // verus!
