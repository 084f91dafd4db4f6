use vstd::prelude::*;
use vstd::string::*;

verus! {

/// One row of a keyed table: a string key and its payload.
pub struct Entry<V> {
    pub key: String,
    pub val: V,
}

/// Index of the first row at or after `i` whose key reads `key`.
pub open spec fn find<V>(rows: Seq<Entry<V>>, key: Seq<char>, i: int) -> Option<int>
    decreases rows.len() - i,
{
    if i < 0 || i >= rows.len() {
        None
    } else if rows[i].key@ == key {
        Some(i)
    } else {
        find(rows, key, i + 1)
    }
}

pub proof fn lemma_find_some<V>(rows: Seq<Entry<V>>, key: Seq<char>, i: int, j: int)
    requires
        find(rows, key, i) == Some(j),
    ensures
        i <= j < rows.len(),
        rows[j].key@ == key,
        forall|k: int| i <= k < j ==> rows[k].key@ != key,
    decreases rows.len() - i,
{
    if 0 <= i < rows.len() && rows[i].key@ != key {
        lemma_find_some(rows, key, i + 1, j);
    }
}

pub proof fn lemma_find_none<V>(rows: Seq<Entry<V>>, key: Seq<char>, i: int)
    requires
        0 <= i,
        find(rows, key, i) is None,
    ensures
        forall|k: int| i <= k < rows.len() ==> rows[k].key@ != key,
    decreases rows.len() - i,
{
    if 0 <= i < rows.len() && rows[i].key@ != key {
        lemma_find_none(rows, key, i + 1);
    }
}

pub proof fn lemma_find_of_props<V>(rows: Seq<Entry<V>>, key: Seq<char>, i: int, j: int)
    requires
        0 <= i <= j < rows.len(),
        rows[j].key@ == key,
        forall|k: int| i <= k < j ==> rows[k].key@ != key,
    ensures
        find(rows, key, i) == Some(j),
    decreases rows.len() - i,
{
    if i < j {
        lemma_find_of_props(rows, key, i + 1, j);
    }
}

pub proof fn lemma_find_none_of_props<V>(rows: Seq<Entry<V>>, key: Seq<char>, i: int)
    requires
        forall|k: int| i <= k < rows.len() ==> rows[k].key@ != key,
    ensures
        find(rows, key, i) is None,
    decreases rows.len() - i,
{
    if 0 <= i < rows.len() {
        lemma_find_none_of_props(rows, key, i + 1);
    }
}

/// A keyed table with single-slot semantics: at most one row per key.
pub struct Table<V> {
    pub rows: Vec<Entry<V>>,
}

impl<V> Table<V> {
    /// No two rows share a key.
    pub open spec fn wf(self) -> bool {
        forall|i: int, j: int|
            0 <= i < j < self.rows@.len() ==> self.rows@[i].key@ != self.rows@[j].key@
    }

    /// The payload stored under `key`, if any.
    pub open spec fn spec_get(self, key: Seq<char>) -> Option<V> {
        match find(self.rows@, key, 0) {
            Some(i) => Some(self.rows@[i].val),
            None => None,
        }
    }

    /// Under well-formedness, any row with the key is the found row.
    pub proof fn lemma_get_at(self, key: Seq<char>, m: int)
        requires
            self.wf(),
            0 <= m < self.rows@.len(),
            self.rows@[m].key@ == key,
        ensures
            find(self.rows@, key, 0) == Some(m),
            self.spec_get(key) == Some(self.rows@[m].val),
    {
        if let Some(j) = find(self.rows@, key, 0) {
            lemma_find_some(self.rows@, key, 0, j);
            assert(j == m);
        } else {
            lemma_find_none(self.rows@, key, 0);
        }
    }

    pub fn new() -> (t: Table<V>)
        ensures
            t.wf(),
            forall|k: Seq<char>| t.spec_get(k) is None,
            t.rows@.len() == 0,
    {
        Table { rows: Vec::new() }
    }

    /// Position of the row holding `key`, if one does.
    fn index_of(&self, key: &str) -> (r: Option<usize>)
        ensures
            match r {
                Some(i) => find(self.rows@, key@, 0) == Some(i as int),
                None => find(self.rows@, key@, 0) is None,
            },
    {
        let n = self.rows.len();
        let mut i: usize = 0;
        while i < n
            invariant
                0 <= i <= n,
                n == self.rows@.len(),
                find(self.rows@, key@, 0) == find(self.rows@, key@, i as int),
            decreases n - i,
        {
            if crate::strutil::str_eq(self.rows[i].key.as_str(), key) {
                return Some(i);
            }
            i += 1;
        }
        None
    }

    pub fn get(&self, key: &str) -> (r: Option<&V>)
        ensures
            match r {
                Some(v) => self.spec_get(key@) == Some(*v),
                None => self.spec_get(key@) is None,
            },
    {
        match self.index_of(key) {
            Some(i) => {
                proof {
                    lemma_find_some(self.rows@, key@, 0, i as int);
                }
                Some(&self.rows[i].val)
            },
            None => None,
        }
    }

    /// Store `val` under `key`, replacing whatever row held the key.
    pub fn put(&mut self, key: &str, val: V)
        requires
            old(self).wf(),
        ensures
            final(self).wf(),
            final(self).spec_get(key@) == Some(val),
            forall|k: Seq<char>| k != key@ ==> final(self).spec_get(k) == old(self).spec_get(k),
    {
        let entry = Entry { key: String::from_str(key), val };
        match self.index_of(key) {
            Some(i) => {
                proof {
                    lemma_find_some(self.rows@, key@, 0, i as int);
                }
                let ghost oldrows = self.rows@;
                self.rows.remove(i);
                self.rows.insert(i, entry);
                proof {
                    assert(self.rows@ =~= oldrows.update(i as int, self.rows@[i as int]));
                    self.lemma_get_at(key@, i as int);
                    assert forall|k: Seq<char>| k != key@ implies self.spec_get(k)
                        == old(self).spec_get(k) by {
                        Self::frame_pointwise(oldrows, self.rows@, k);
                    }
                }
            },
            None => {
                proof {
                    lemma_find_none(self.rows@, key@, 0);
                }
                let ghost oldrows = self.rows@;
                self.rows.push(entry);
                proof {
                    self.lemma_get_at(key@, oldrows.len() as int);
                    assert forall|k: Seq<char>| k != key@ implies self.spec_get(k)
                        == old(self).spec_get(k) by {
                        Self::frame_pointwise_grow(oldrows, self.rows@, k);
                    }
                }
            },
        }
    }

    /// Drop the row holding `key`, if one does.
    pub fn del(&mut self, key: &str)
        requires
            old(self).wf(),
        ensures
            final(self).wf(),
            final(self).spec_get(key@) is None,
            forall|k: Seq<char>| k != key@ ==> final(self).spec_get(k) == old(self).spec_get(k),
    {
        match self.index_of(key) {
            Some(i) => {
                proof {
                    lemma_find_some(self.rows@, key@, 0, i as int);
                }
                let ghost oldrows = self.rows@;
                self.rows.remove(i);
                proof {
                    assert forall|k: int| 0 <= k < self.rows@.len() implies self.rows@[k].key@
                        != key@ by {
                        if k < i {
                            assert(self.rows@[k] == oldrows[k]);
                        } else {
                            assert(self.rows@[k] == oldrows[k + 1]);
                        }
                    }
                    lemma_find_none_of_props(self.rows@, key@, 0);
                    assert forall|k: Seq<char>| k != key@ implies self.spec_get(k)
                        == old(self).spec_get(k) by {
                        Self::frame_shrink(oldrows, self.rows@, i as int, k);
                    }
                }
            },
            None => {
                proof {
                    lemma_find_none(self.rows@, key@, 0);
                }
            },
        }
    }

    /// Two row sequences of equal keys, equal values at a key, look the
    /// same to a lookup for that key.
    proof fn frame_pointwise(oldrows: Seq<Entry<V>>, newrows: Seq<Entry<V>>, k: Seq<char>)
        requires
            oldrows.len() == newrows.len(),
            forall|m: int| 0 <= m < oldrows.len() ==> oldrows[m].key@ == newrows[m].key@,
            forall|m: int|
                0 <= m < oldrows.len() && oldrows[m].key@ == k ==> oldrows[m].val == newrows[m].val,
        ensures
            match find(oldrows, k, 0) {
                Some(i) => find(newrows, k, 0) == Some(i) && oldrows[i].val == newrows[i].val,
                None => find(newrows, k, 0) is None,
            },
    {
        match find(oldrows, k, 0) {
            Some(i) => {
                lemma_find_some(oldrows, k, 0, i);
                lemma_find_of_props(newrows, k, 0, i);
            },
            None => {
                lemma_find_none(oldrows, k, 0);
                lemma_find_none_of_props(newrows, k, 0);
            },
        }
    }

    /// Appending a row of a different key leaves a lookup unchanged.
    proof fn frame_pointwise_grow(oldrows: Seq<Entry<V>>, newrows: Seq<Entry<V>>, k: Seq<char>)
        requires
            newrows.len() == oldrows.len() + 1,
            forall|m: int| 0 <= m < oldrows.len() ==> oldrows[m] == newrows[m],
            newrows.last().key@ != k,
        ensures
            match find(oldrows, k, 0) {
                Some(i) => find(newrows, k, 0) == Some(i) && oldrows[i].val == newrows[i].val,
                None => find(newrows, k, 0) is None,
            },
    {
        match find(oldrows, k, 0) {
            Some(i) => {
                lemma_find_some(oldrows, k, 0, i);
                lemma_find_of_props(newrows, k, 0, i);
            },
            None => {
                lemma_find_none(oldrows, k, 0);
                lemma_find_none_of_props(newrows, k, 0);
            },
        }
    }

    /// Removing the one row of some other key leaves a lookup unchanged,
    /// as long as keys were distinct.
    proof fn frame_shrink(oldrows: Seq<Entry<V>>, newrows: Seq<Entry<V>>, i: int, k: Seq<char>)
        requires
            0 <= i < oldrows.len(),
            newrows == oldrows.remove(i),
            oldrows[i].key@ != k,
            forall|m: int, n: int|
                0 <= m < n < oldrows.len() ==> oldrows[m].key@ != oldrows[n].key@,
        ensures
            match find(oldrows, k, 0) {
                Some(j) => exists|j2: int|
                    find(newrows, k, 0) == Some(j2) && 0 <= j2 < newrows.len()
                        && newrows[j2].val == oldrows[j].val,
                None => find(newrows, k, 0) is None,
            },
    {
        match find(oldrows, k, 0) {
            Some(j) => {
                lemma_find_some(oldrows, k, 0, j);
                let j2: int = if j < i {
                    j
                } else {
                    j - 1
                };
                assert(newrows[j2] == oldrows[j]);
                assert forall|m: int| 0 <= m < j2 implies newrows[m].key@ != k by {
                    if m < i {
                        assert(newrows[m] == oldrows[m]);
                    } else {
                        assert(newrows[m] == oldrows[m + 1]);
                    }
                }
                lemma_find_of_props(newrows, k, 0, j2);
            },
            None => {
                lemma_find_none(oldrows, k, 0);
                assert forall|m: int| 0 <= m < newrows.len() implies newrows[m].key@ != k by {
                    if m < i {
                        assert(newrows[m] == oldrows[m]);
                    } else {
                        assert(newrows[m] == oldrows[m + 1]);
                    }
                }
                lemma_find_none_of_props(newrows, k, 0);
            },
        }
    }
}

} // verus!
