//! A small table from text keys to values in which no key occurs twice. It
//! stands for a map, and remembers the order in which its keys came in.

use crate::text::same_text;
use vstd::prelude::*;

verus! {

/// One row of a table.
pub struct Row<V> {
    pub key: String,
    pub value: V,
}

/// A table from text keys to values. No key occurs twice.
pub struct KeyedTable<V> {
    rows: Vec<Row<V>>,
}

/// The map that a sequence of rows stands for; a later row wins over an
/// earlier one with the same key.
pub open spec fn rows_map<V>(rows: Seq<Row<V>>) -> Map<Seq<char>, V>
    decreases rows.len(),
{
    if rows.len() == 0 {
        Map::empty()
    } else {
        rows_map(rows.drop_last()).insert(rows.last().key@, rows.last().value)
    }
}

/// No two rows have the same key.
pub open spec fn distinct_keys<V>(rows: Seq<Row<V>>) -> bool {
    forall|i: int, j: int|
        0 <= i < rows.len() && 0 <= j < rows.len() && i != j ==> rows[i].key@ != rows[j].key@
}

proof fn lemma_distinct_prefix<V>(rows: Seq<Row<V>>)
    requires
        distinct_keys(rows),
        rows.len() > 0,
    ensures
        distinct_keys(rows.drop_last()),
{
    let init = rows.drop_last();
    assert forall|a: int, b: int|
        0 <= a < init.len() && 0 <= b < init.len() && a != b implies init[a].key@
        != init[b].key@ by {
        assert(init[a] == rows[a] && init[b] == rows[b]);
    }
}

/// The keys of the map are the keys of the rows.
pub proof fn lemma_rows_map_dom<V>(rows: Seq<Row<V>>)
    ensures
        forall|k: Seq<char>|
            rows_map(rows).dom().contains(k) <==> exists|i: int|
                0 <= i < rows.len() && #[trigger] rows[i].key@ == k,
        rows_map(rows).dom().finite(),
    decreases rows.len(),
{
    if rows.len() > 0 {
        let init = rows.drop_last();
        lemma_rows_map_dom(init);
        assert forall|k: Seq<char>|
            rows_map(rows).dom().contains(k) <==> exists|i: int|
                0 <= i < rows.len() && #[trigger] rows[i].key@ == k by {
            if rows_map(rows).dom().contains(k) {
                if k == rows.last().key@ {
                    assert(rows[rows.len() - 1].key@ == k);
                } else {
                    let i = choose|i: int| 0 <= i < init.len() && #[trigger] init[i].key@ == k;
                    assert(rows[i].key@ == k);
                }
            }
            if exists|i: int| 0 <= i < rows.len() && #[trigger] rows[i].key@ == k {
                let i = choose|i: int| 0 <= i < rows.len() && #[trigger] rows[i].key@ == k;
                if i < rows.len() - 1 {
                    assert(init[i].key@ == k);
                }
            }
        }
    }
}

/// Under distinct keys, the map holds each row's value under its key.
pub proof fn lemma_rows_map_value<V>(rows: Seq<Row<V>>, i: int)
    requires
        distinct_keys(rows),
        0 <= i < rows.len(),
    ensures
        rows_map(rows).dom().contains(rows[i].key@),
        rows_map(rows)[rows[i].key@] == rows[i].value,
    decreases rows.len(),
{
    let init = rows.drop_last();
    if i < rows.len() - 1 {
        lemma_distinct_prefix(rows);
        lemma_rows_map_value(init, i);
        assert(init[i] == rows[i]);
        assert(rows[i].key@ != rows[rows.len() - 1].key@);
    }
}

/// Under distinct keys, the map has as many keys as there are rows.
pub proof fn lemma_rows_map_len<V>(rows: Seq<Row<V>>)
    requires
        distinct_keys(rows),
    ensures
        rows_map(rows).dom().finite(),
        rows_map(rows).dom().len() == rows.len(),
    decreases rows.len(),
{
    lemma_rows_map_dom(rows);
    if rows.len() > 0 {
        let init = rows.drop_last();
        lemma_distinct_prefix(rows);
        lemma_rows_map_len(init);
        lemma_rows_map_dom(init);
        if rows_map(init).dom().contains(rows.last().key@) {
            let i = choose|i: int|
                0 <= i < init.len() && #[trigger] init[i].key@ == rows.last().key@;
            assert(init[i] == rows[i]);
            assert(false);
        }
    }
}

proof fn lemma_rows_map_update<V>(rows: Seq<Row<V>>, i: int, row: Row<V>)
    requires
        distinct_keys(rows),
        0 <= i < rows.len(),
        row.key@ == rows[i].key@,
    ensures
        distinct_keys(rows.update(i, row)),
        rows_map(rows.update(i, row)) == rows_map(rows).insert(row.key@, row.value),
    decreases rows.len(),
{
    let after = rows.update(i, row);
    assert forall|a: int, b: int|
        0 <= a < after.len() && 0 <= b < after.len() && a != b implies after[a].key@
        != after[b].key@ by {
        assert(after[a].key@ == rows[a].key@);
        assert(after[b].key@ == rows[b].key@);
    }
    let init = rows.drop_last();
    if i == rows.len() - 1 {
        assert(after.drop_last() == init);
        assert(rows_map(after) == rows_map(rows).insert(row.key@, row.value));
    } else {
        lemma_distinct_prefix(rows);
        assert(init[i] == rows[i]);
        lemma_rows_map_update(init, i, row);
        assert(after.drop_last() == init.update(i, row));
        assert(after.last() == rows.last());
        assert(rows.last().key@ != row.key@);
        assert(rows_map(after) == rows_map(rows).insert(row.key@, row.value));
    }
}

proof fn lemma_rows_map_push<V>(rows: Seq<Row<V>>, row: Row<V>)
    requires
        distinct_keys(rows),
        forall|j: int| 0 <= j < rows.len() ==> rows[j].key@ != row.key@,
    ensures
        distinct_keys(rows.push(row)),
        rows_map(rows.push(row)) == rows_map(rows).insert(row.key@, row.value),
{
    let after = rows.push(row);
    assert(after.drop_last() == rows);
    assert forall|a: int, b: int|
        0 <= a < after.len() && 0 <= b < after.len() && a != b implies after[a].key@
        != after[b].key@ by {
        if a < rows.len() {
            assert(after[a] == rows[a]);
        }
        if b < rows.len() {
            assert(after[b] == rows[b]);
        }
    }
}

proof fn lemma_rows_map_remove<V>(rows: Seq<Row<V>>, i: int)
    requires
        distinct_keys(rows),
        0 <= i < rows.len(),
    ensures
        distinct_keys(rows.remove(i)),
        rows_map(rows.remove(i)) == rows_map(rows).remove(rows[i].key@),
    decreases rows.len(),
{
    let after = rows.remove(i);
    assert forall|a: int, b: int|
        0 <= a < after.len() && 0 <= b < after.len() && a != b implies after[a].key@
        != after[b].key@ by {
        let a0 = if a < i { a } else { a + 1 };
        let b0 = if b < i { b } else { b + 1 };
        assert(after[a] == rows[a0] && after[b] == rows[b0]);
    }
    let init = rows.drop_last();
    lemma_distinct_prefix(rows);
    if i == rows.len() - 1 {
        assert(after == init);
        lemma_rows_map_dom(init);
        if rows_map(init).dom().contains(rows[i].key@) {
            let j = choose|j: int| 0 <= j < init.len() && #[trigger] init[j].key@ == rows[i].key@;
            assert(init[j] == rows[j]);
            assert(false);
        }
        assert(rows_map(after) == rows_map(rows).remove(rows[i].key@));
    } else {
        assert(init[i] == rows[i]);
        lemma_rows_map_remove(init, i);
        assert(after.drop_last() == init.remove(i));
        assert(after.last() == rows.last());
        assert(rows.last().key@ != rows[i].key@);
        assert(rows_map(after) == rows_map(rows).remove(rows[i].key@));
    }
}

impl<V> View for KeyedTable<V> {
    type V = Map<Seq<char>, V>;

    closed spec fn view(&self) -> Map<Seq<char>, V> {
        rows_map(self.rows@)
    }
}

impl<V> KeyedTable<V> {
    /// No key occurs twice. Holds of every table that exists at run time.
    #[verifier::type_invariant]
    pub closed spec fn keys_are_distinct(self) -> bool {
        distinct_keys(self.rows@)
    }

    /// The keys in the order in which they came in.
    pub closed spec fn keys(&self) -> Seq<Seq<char>> {
        Seq::new(self.rows@.len(), |i: int| self.rows@[i].key@)
    }

    /// The values in the order in which their keys came in.
    pub closed spec fn values(&self) -> Seq<V> {
        Seq::new(self.rows@.len(), |i: int| self.rows@[i].value)
    }

    /// The keys and the values are two readings of the same rows: one value
    /// per key, no key twice, and the map holds under each key the value
    /// listed at the key's position.
    pub proof fn lemma_listing(&self)
        requires
            self.keys_are_distinct(),
        ensures
            self.values().len() == self.keys().len(),
            self@.dom().finite(),
            self@.dom().len() == self.keys().len(),
            forall|i: int|
                0 <= i < self.keys().len() ==> self@.dom().contains(#[trigger] self.keys()[i])
                    && self@[self.keys()[i]] == self.values()[i],
            forall|k: Seq<char>|
                self@.dom().contains(k) ==> exists|i: int|
                    0 <= i < self.keys().len() && #[trigger] self.keys()[i] == k,
            forall|i: int, j: int|
                0 <= i < self.keys().len() && 0 <= j < self.keys().len() && i != j
                    ==> self.keys()[i] != self.keys()[j],
    {
        lemma_rows_map_len(self.rows@);
        lemma_rows_map_dom(self.rows@);
        assert forall|i: int| 0 <= i < self.keys().len() implies self@.dom().contains(
            #[trigger] self.keys()[i],
        ) && self@[self.keys()[i]] == self.values()[i] by {
            lemma_rows_map_value(self.rows@, i);
        }
        assert forall|k: Seq<char>| self@.dom().contains(k) implies exists|i: int|
            0 <= i < self.keys().len() && #[trigger] self.keys()[i] == k by {
            let i = choose|i: int| 0 <= i < self.rows@.len() && #[trigger] self.rows@[i].key@ == k;
            assert(self.keys()[i] == k);
        }
    }

    /// A table with no row.
    pub fn new() -> (table: KeyedTable<V>)
        ensures
            table@ == Map::<Seq<char>, V>::empty(),
            table.keys().len() == 0,
            table.values().len() == 0,
    {
        KeyedTable { rows: Vec::new() }
    }

    /// The number of rows.
    pub fn len(&self) -> (n: usize)
        ensures
            n == self.keys().len(),
            n == self.values().len(),
            n == self@.dom().len(),
    {
        proof {
            use_type_invariant(self);
            lemma_rows_map_len(self.rows@);
        }
        self.rows.len()
    }

    /// The position of `key`, if the table has it.
    pub fn position(&self, key: &str) -> (found: Option<usize>)
        ensures
            match found {
                Some(i) => i < self.keys().len() && self.keys()[i as int] == key@
                    && self@.dom().contains(key@) && self@[key@] == self.values()[i as int],
                None => !self@.dom().contains(key@),
            },
    {
        proof {
            use_type_invariant(self);
            lemma_rows_map_dom(self.rows@);
        }
        let mut i: usize = 0;
        while i < self.rows.len()
            invariant
                i <= self.rows@.len(),
                distinct_keys(self.rows@),
                forall|j: int| 0 <= j < i ==> self.rows@[j].key@ != key@,
            decreases self.rows@.len() - i,
        {
            if same_text(self.rows[i].key.as_str(), key) {
                proof {
                    lemma_rows_map_value(self.rows@, i as int);
                }
                return Some(i);
            }
            i += 1;
        }
        None
    }

    /// The key at a position.
    pub fn key_at(&self, i: usize) -> (key: &str)
        requires
            i < self.keys().len(),
        ensures
            key@ == self.keys()[i as int],
    {
        self.rows[i].key.as_str()
    }

    /// The value at a position.
    pub fn value_at(&self, i: usize) -> (value: &V)
        requires
            i < self.values().len(),
        ensures
            *value == self.values()[i as int],
    {
        &self.rows[i].value
    }

    /// The value under `key`, if the table has the key.
    pub fn get(&self, key: &str) -> (found: Option<&V>)
        ensures
            match found {
                Some(value) => self@.dom().contains(key@) && *value == self@[key@],
                None => !self@.dom().contains(key@),
            },
    {
        match self.position(key) {
            Some(i) => Some(&self.rows[i].value),
            None => None,
        }
    }

    /// Puts `value` under `key`, in place of what the key had. A new key goes
    /// to the end; a key that is replaced keeps its position.
    pub fn insert(&mut self, key: String, value: V)
        ensures
            final(self)@ == old(self)@.insert(key@, value),
    {
        proof {
            use_type_invariant(&*self);
            lemma_rows_map_dom(self.rows@);
        }
        let ghost before = self.rows@;
        let row = Row { key, value };
        let found = self.position(row.key.as_str());
        let mut rows: Vec<Row<V>> = Vec::new();
        std::mem::swap(&mut self.rows, &mut rows);
        match found {
            Some(i) => {
                proof {
                    lemma_rows_map_update(before, i as int, row);
                }
                rows.set(i, row);
            },
            None => {
                proof {
                    assert forall|j: int| 0 <= j < before.len() implies before[j].key@
                        != row.key@ by {
                        assert(before[j].key@ == before[j].key@);
                    }
                    lemma_rows_map_push(before, row);
                }
                rows.push(row);
            },
        }
        std::mem::swap(&mut self.rows, &mut rows);
    }

    /// Takes out the row under `key` and hands back its value, if the table
    /// has the key. The other rows keep their order.
    pub fn remove(&mut self, key: &str) -> (taken: Option<V>)
        ensures
            final(self)@ == old(self)@.remove(key@),
            match taken {
                Some(value) => old(self)@.dom().contains(key@) && value == old(self)@[key@],
                None => !old(self)@.dom().contains(key@),
            },
    {
        proof {
            use_type_invariant(&*self);
        }
        let ghost before = self.rows@;
        match self.position(key) {
            Some(i) => {
                let mut rows: Vec<Row<V>> = Vec::new();
                std::mem::swap(&mut self.rows, &mut rows);
                proof {
                    lemma_rows_map_remove(before, i as int);
                    lemma_rows_map_value(before, i as int);
                }
                let row = rows.remove(i);
                std::mem::swap(&mut self.rows, &mut rows);
                Some(row.value)
            },
            None => {
                assert(self@.remove(key@) =~= self@);
                None
            },
        }
    }
}

} // verus!
