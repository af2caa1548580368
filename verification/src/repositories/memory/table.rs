//! A keyed record table: the storage behind every in-memory store.
//!
//! Records are kept in insertion order and no two records share a key.

use vstd::prelude::*;

verus! {

/// A value that is stored under a text key.
pub trait Record: Sized {
    /// The key the record is stored under.
    spec fn key(&self) -> Seq<char>;

    /// The key, computed.
    fn key_string(&self) -> (k: String)
        ensures
            k@ == self.key(),
    ;

    /// A copy of the record.
    fn duplicate(&self) -> (r: Self)
        ensures
            r == *self,
    ;
}

/// No two records of `s` share a key.
pub open spec fn unique_keys<T: Record>(s: Seq<T>) -> bool {
    forall|i: int, j: int|
        0 <= i < s.len() && 0 <= j < s.len() && i != j ==> #[trigger] s[i].key() != #[trigger] s[j].key()
}

/// Some record of `s` is stored under `k`.
pub open spec fn has_key<T: Record>(s: Seq<T>, k: Seq<char>) -> bool {
    exists|i: int| 0 <= i < s.len() && #[trigger] s[i].key() == k
}

/// The position of a record of `s` stored under `k`.
pub open spec fn key_index<T: Record>(s: Seq<T>, k: Seq<char>) -> int {
    choose|i: int| 0 <= i < s.len() && #[trigger] s[i].key() == k
}

/// The records of `s`, by key.
pub open spec fn as_map<T: Record>(s: Seq<T>) -> Map<Seq<char>, T> {
    Map::new(|k: Seq<char>| has_key(s, k), |k: Seq<char>| s[key_index(s, k)])
}

/// In a table with unique keys, the record at a position is the one its key maps to.
pub proof fn lemma_index_is_key_index<T: Record>(s: Seq<T>, i: int)
    requires
        unique_keys(s),
        0 <= i < s.len(),
    ensures
        has_key(s, s[i].key()),
        key_index(s, s[i].key()) == i,
        as_map(s).contains_key(s[i].key()),
        as_map(s)[s[i].key()] == s[i],
{
    let k = s[i].key();
    assert(has_key(s, k));
    let j = key_index(s, k);
    if j != i {
        assert(s[i].key() != s[j].key());
    }
}

/// Every record of the map is stored under its own key.
pub proof fn lemma_map_key<T: Record>(s: Seq<T>, k: Seq<char>)
    requires
        as_map(s).contains_key(k),
    ensures
        as_map(s)[k].key() == k,
{
}

/// The map of an empty table is empty.
pub proof fn lemma_empty_map<T: Record>()
    ensures
        as_map(Seq::<T>::empty()) == Map::<Seq<char>, T>::empty(),
{
    assert(as_map(Seq::<T>::empty()) =~= Map::<Seq<char>, T>::empty());
}

/// Appending a record under a new key adds exactly that key to the map.
pub proof fn lemma_push_map<T: Record>(s: Seq<T>, v: T)
    requires
        unique_keys(s),
        !has_key(s, v.key()),
    ensures
        unique_keys(s.push(v)),
        as_map(s.push(v)) == as_map(s).insert(v.key(), v),
{
    let t = s.push(v);
    assert forall|i: int, j: int|
        0 <= i < t.len() && 0 <= j < t.len() && i != j implies #[trigger] t[i].key() != #[trigger] t[j].key() by {
        if i < s.len() && j < s.len() {
            assert(t[i] == s[i] && t[j] == s[j]);
        } else if i < s.len() {
            assert(t[i] == s[i]);
        } else {
            assert(t[j] == s[j]);
        }
    }
    assert forall|k: Seq<char>| #[trigger] has_key(t, k) == (has_key(s, k) || k == v.key()) by {
        if has_key(s, k) {
            let i = choose|i: int| 0 <= i < s.len() && #[trigger] s[i].key() == k;
            assert(t[i] == s[i]);
        }
        if k == v.key() {
            assert(t[s.len() as int] == v);
        }
        if has_key(t, k) && k != v.key() {
            let i = choose|i: int| 0 <= i < t.len() && #[trigger] t[i].key() == k;
            assert(t[i] == s[i]);
        }
    }
    assert forall|k: Seq<char>| #[trigger] as_map(s).insert(v.key(), v).contains_key(k) implies as_map(t)[k]
        == as_map(s).insert(v.key(), v)[k] by {
        if k == v.key() {
            lemma_index_is_key_index(t, s.len() as int);
        } else {
            let i = key_index(s, k);
            lemma_index_is_key_index(s, i);
            assert(t[i] == s[i]);
            lemma_index_is_key_index(t, i);
        }
    }
    assert(as_map(t) =~= as_map(s).insert(v.key(), v));
}

/// Removing the record at a position removes exactly its key from the map.
pub proof fn lemma_remove_map<T: Record>(s: Seq<T>, i: int)
    requires
        unique_keys(s),
        0 <= i < s.len(),
    ensures
        unique_keys(s.remove(i)),
        as_map(s.remove(i)) == as_map(s).remove(s[i].key()),
{
    let t = s.remove(i);
    let kv = s[i].key();
    assert forall|a: int, b: int|
        0 <= a < t.len() && 0 <= b < t.len() && a != b implies #[trigger] t[a].key() != #[trigger] t[b].key() by {
        let a2 = if a < i { a } else { a + 1 };
        let b2 = if b < i { b } else { b + 1 };
        assert(t[a] == s[a2] && t[b] == s[b2]);
    }
    assert forall|k: Seq<char>| #[trigger] has_key(t, k) == (has_key(s, k) && k != kv) by {
        if has_key(s, k) && k != kv {
            let a = choose|a: int| 0 <= a < s.len() && #[trigger] s[a].key() == k;
            if a < i {
                assert(t[a] == s[a]);
            } else {
                assert(a != i);
                assert(t[a - 1] == s[a]);
            }
        }
        if has_key(t, k) {
            let a = choose|a: int| 0 <= a < t.len() && #[trigger] t[a].key() == k;
            let a2 = if a < i { a } else { a + 1 };
            assert(t[a] == s[a2]);
            assert(a2 != i);
        }
    }
    assert forall|k: Seq<char>| #[trigger] as_map(s).remove(kv).contains_key(k) implies as_map(t)[k]
        == as_map(s).remove(kv)[k] by {
        assert(has_key(t, k));
        let a = key_index(t, k);
        lemma_index_is_key_index(t, a);
        let a2 = if a < i { a } else { a + 1 };
        assert(t[a] == s[a2]);
        lemma_index_is_key_index(s, a2);
    }
    assert(as_map(t) =~= as_map(s).remove(kv));
}

/// Replacing the record at a position with one under the same key updates that key.
pub proof fn lemma_update_map<T: Record>(s: Seq<T>, i: int, v: T)
    requires
        unique_keys(s),
        0 <= i < s.len(),
        v.key() == s[i].key(),
    ensures
        unique_keys(s.update(i, v)),
        as_map(s.update(i, v)) == as_map(s).insert(v.key(), v),
{
    let t = s.update(i, v);
    assert forall|a: int, b: int|
        0 <= a < t.len() && 0 <= b < t.len() && a != b implies #[trigger] t[a].key() != #[trigger] t[b].key() by {
        assert(t[a].key() == s[a].key() && t[b].key() == s[b].key()) by {
            if a == i {
                assert(t[a] == v);
            } else {
                assert(t[a] == s[a]);
            }
            if b == i {
                assert(t[b] == v);
            } else {
                assert(t[b] == s[b]);
            }
        }
    }
    assert forall|k: Seq<char>| #[trigger] has_key(t, k) == has_key(s, k) by {
        if has_key(s, k) {
            let a = choose|a: int| 0 <= a < s.len() && #[trigger] s[a].key() == k;
            assert(t[a].key() == s[a].key());
        }
        if has_key(t, k) {
            let a = choose|a: int| 0 <= a < t.len() && #[trigger] t[a].key() == k;
            assert(t[a].key() == s[a].key());
        }
    }
    lemma_index_is_key_index(s, i);
    assert forall|k: Seq<char>| #[trigger] as_map(s).insert(v.key(), v).contains_key(k) implies as_map(t)[k]
        == as_map(s).insert(v.key(), v)[k] by {
        assert(has_key(s, k)) by {
            if k == v.key() {
                assert(s[i].key() == k);
            }
        }
        assert(has_key(t, k));
        let a = key_index(t, k);
        lemma_index_is_key_index(t, a);
        if a != i {
            assert(t[a] == s[a]);
            lemma_index_is_key_index(s, a);
        }
    }
    assert(as_map(t) =~= as_map(s).insert(v.key(), v));
}

/// `v` lists each record of `m` that satisfies `pred` exactly once, and nothing else.
pub open spec fn lists_exactly<T: Record>(
    v: Seq<T>,
    m: Map<Seq<char>, T>,
    pred: spec_fn(T) -> bool,
) -> bool {
    &&& unique_keys(v)
    &&& forall|a: int|
        0 <= a < v.len() ==> m.contains_key(#[trigger] v[a].key()) && m[v[a].key()] == v[a] && pred(
            v[a],
        )
    &&& forall|k: Seq<char>| #[trigger] m.contains_key(k) && pred(m[k]) ==> has_key(v, k)
}

/// Filtering a table with unique keys lists exactly the matching records of its map.
pub proof fn lemma_filter_lists_exactly<T: Record>(s: Seq<T>, pred: spec_fn(T) -> bool)
    requires
        unique_keys(s),
    ensures
        lists_exactly(s.filter(pred), as_map(s), pred),
    decreases s.len(),
{
    broadcast use vstd::seq_lib::group_filter_ensures;

    let f = s.filter(pred);
    lemma_filter_unique(s, pred);
    assert forall|a: int| 0 <= a < f.len() implies as_map(s).contains_key(#[trigger] f[a].key())
        && as_map(s)[f[a].key()] == f[a] && pred(f[a]) by {
        assert(f.contains(f[a]));
        s.lemma_filter_contains_rev(pred, f[a]);
        let j = choose|j: int| 0 <= j < s.len() && s[j] == f[a];
        lemma_index_is_key_index(s, j);
    }
    assert forall|k: Seq<char>| #[trigger] as_map(s).contains_key(k) && pred(as_map(s)[k]) implies has_key(
        f,
        k,
    ) by {
        let j = key_index(s, k);
        lemma_index_is_key_index(s, j);
        s.lemma_filter_contains(pred, j);
        let a = choose|a: int| 0 <= a < f.len() && f[a] == s[j];
        assert(f[a].key() == k);
    }
}

/// Filtering keeps keys unique.
pub proof fn lemma_filter_unique<T: Record>(s: Seq<T>, pred: spec_fn(T) -> bool)
    requires
        unique_keys(s),
    ensures
        unique_keys(s.filter(pred)),
    decreases s.len(),
{
    reveal(Seq::filter);
    if s.len() > 0 {
        let r = s.drop_last();
        assert forall|i: int, j: int|
            0 <= i < r.len() && 0 <= j < r.len() && i != j implies #[trigger] r[i].key() != #[trigger] r[j].key() by {
            assert(r[i] == s[i] && r[j] == s[j]);
        }
        lemma_filter_unique(r, pred);
        let fr = r.filter(pred);
        if pred(s.last()) {
            let f = fr.push(s.last());
            assert forall|i: int, j: int|
                0 <= i < f.len() && 0 <= j < f.len() && i != j implies #[trigger] f[i].key() != #[trigger] f[j].key() by {
                if i < fr.len() && j < fr.len() {
                    assert(f[i] == fr[i] && f[j] == fr[j]);
                } else {
                    let a = if i < fr.len() { i } else { j };
                    assert(f[a] == fr[a]);
                    assert(fr.contains(fr[a]));
                    r.lemma_filter_contains_rev(pred, fr[a]);
                    let b = choose|b: int| 0 <= b < r.len() && r[b] == fr[a];
                    assert(s[b] == r[b]);
                    assert(s[s.len() - 1] == s.last());
                }
            }
        }
    }
}

/// Records stored under distinct keys, in insertion order.
#[derive(Debug)]
pub struct Table<T: Record> {
    records: Vec<T>,
}

impl<T: Record> View for Table<T> {
    type V = Seq<T>;

    closed spec fn view(&self) -> Seq<T> {
        self.records@
    }
}

impl<T: Record> Table<T> {
    /// No two records of the table share a key.
    pub open spec fn wf(&self) -> bool {
        unique_keys(self@)
    }

    /// An empty table.
    pub fn new() -> (t: Self)
        ensures
            t.wf(),
            t@ == Seq::<T>::empty(),
            as_map(t@) == Map::<Seq<char>, T>::empty(),
    {
        proof {
            lemma_empty_map::<T>();
        }
        Table { records: Vec::new() }
    }

    /// The position of the record stored under `key`.
    pub fn position(&self, key: &String) -> (r: Option<usize>)
        requires
            self.wf(),
        ensures
            match r {
                Some(i) => i < self@.len() && self@[i as int].key() == key@ && key_index(self@, key@)
                    == i,
                None => !has_key(self@, key@),
            },
    {
        let mut i: usize = 0;
        while i < self.records.len()
            invariant
                unique_keys(self.records@),
                i <= self.records@.len(),
                forall|j: int| 0 <= j < i ==> #[trigger] self.records@[j].key() != key@,
            decreases self.records@.len() - i,
        {
            let k = self.records[i].key_string();
            if k == *key {
                proof {
                    lemma_index_is_key_index(self.records@, i as int);
                }
                return Some(i);
            }
            i += 1;
        }
        None
    }

    /// Whether a record is stored under `key`.
    pub fn contains(&self, key: &String) -> (b: bool)
        requires
            self.wf(),
        ensures
            b == as_map(self@).contains_key(key@),
    {
        self.position(key).is_some()
    }

    /// A copy of the record stored under `key`.
    pub fn get(&self, key: &String) -> (r: Option<T>)
        requires
            self.wf(),
        ensures
            match r {
                Some(v) => as_map(self@).contains_key(key@) && v == as_map(self@)[key@],
                None => !as_map(self@).contains_key(key@),
            },
    {
        match self.position(key) {
            Some(i) => Some(self.records[i].duplicate()),
            None => None,
        }
    }

    /// Appends a record under a key that is not yet used.
    pub fn insert(&mut self, v: T)
        requires
            old(self).wf(),
            !as_map(old(self)@).contains_key(v.key()),
        ensures
            final(self).wf(),
            final(self)@ == old(self)@.push(v),
            as_map(final(self)@) == as_map(old(self)@).insert(v.key(), v),
    {
        proof {
            lemma_push_map(self.records@, v);
        }
        self.records.push(v);
    }

    /// Replaces the record stored under the key of `v`, which must be in use.
    pub fn replace(&mut self, v: T)
        requires
            old(self).wf(),
            as_map(old(self)@).contains_key(v.key()),
        ensures
            final(self).wf(),
            final(self)@ == old(self)@.update(key_index(old(self)@, v.key()), v),
            as_map(final(self)@) == as_map(old(self)@).insert(v.key(), v),
    {
        let k = v.key_string();
        let i = self.position(&k).unwrap();
        proof {
            lemma_update_map(self.records@, i as int, v);
        }
        self.records.set(i, v);
    }

    /// Removes the record stored under `key`, if any, and hands it back.
    pub fn remove(&mut self, key: &String) -> (r: Option<T>)
        requires
            old(self).wf(),
        ensures
            final(self).wf(),
            match r {
                Some(v) => as_map(old(self)@).contains_key(key@) && v == as_map(old(self)@)[key@]
                    && final(self)@ == old(self)@.remove(key_index(old(self)@, key@)),
                None => !as_map(old(self)@).contains_key(key@) && final(self)@ == old(self)@,
            },
            as_map(final(self)@) == as_map(old(self)@).remove(key@),
    {
        match self.position(key) {
            Some(i) => {
                proof {
                    lemma_index_is_key_index(self.records@, i as int);
                    lemma_remove_map(self.records@, i as int);
                }
                let v = self.records.remove(i);
                Some(v)
            },
            None => {
                proof {
                    assert(as_map(self.records@) =~= as_map(self.records@).remove(key@));
                }
                None
            },
        }
    }

    /// Copies of all records, in insertion order.
    pub fn values(&self) -> (r: Vec<T>)
        ensures
            r@ == self@,
    {
        let mut out: Vec<T> = Vec::new();
        let mut i: usize = 0;
        while i < self.records.len()
            invariant
                i <= self.records@.len(),
                out@ == self.records@.subrange(0, i as int),
            decreases self.records@.len() - i,
        {
            out.push(self.records[i].duplicate());
            proof {
                assert(self.records@.subrange(0, i + 1) == self.records@.subrange(0, i as int).push(
                    self.records@[i as int],
                ));
            }
            i += 1;
        }
        proof {
            assert(self.records@.subrange(0, self.records@.len() as int) == self.records@);
        }
        out
    }
}

} // verus!
