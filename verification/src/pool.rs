//! A keyed record collection: each record carries a text key, no two records
//! share a key, and inserting a record under a present key replaces it.

use vstd::prelude::*;

verus! {

/// A record that is found again by a text key.
pub trait Keyed {
    spec fn key_view(&self) -> Seq<char>;

    fn key(&self) -> (k: &str)
        ensures
            k@ == self.key_view(),
    ;
}

/// Some record in `s` carries key `k`.
pub open spec fn has_key<T: Keyed>(s: Seq<T>, k: Seq<char>) -> bool {
    exists|i: int| 0 <= i < s.len() && #[trigger] s[i].key_view() == k
}

/// No two records of `s` carry the same key.
pub open spec fn keys_distinct<T: Keyed>(s: Seq<T>) -> bool {
    forall|i: int, j: int|
        0 <= i < s.len() && 0 <= j < s.len() && i != j ==> #[trigger] s[i].key_view()
            != #[trigger] s[j].key_view()
}

/// The position of the record with key `k` (meaningful when `has_key(s, k)`).
pub open spec fn index_of_key<T: Keyed>(s: Seq<T>, k: Seq<char>) -> int {
    choose|i: int| 0 <= i < s.len() && #[trigger] s[i].key_view() == k
}

/// The record stored under `k`, if any.
pub open spec fn lookup<T: Keyed>(s: Seq<T>, k: Seq<char>) -> Option<T> {
    if has_key(s, k) {
        Some(s[index_of_key(s, k)])
    } else {
        None
    }
}

/// `s` after storing `x`: it replaces the record with the same key in place,
/// or is appended when its key is new.
pub open spec fn upsert<T: Keyed>(s: Seq<T>, x: T) -> Seq<T> {
    if has_key(s, x.key_view()) {
        s.update(index_of_key(s, x.key_view()), x)
    } else {
        s.push(x)
    }
}

/// `s` without the record stored under `k`.
pub open spec fn without_key<T: Keyed>(s: Seq<T>, k: Seq<char>) -> Seq<T> {
    if has_key(s, k) {
        s.remove(index_of_key(s, k))
    } else {
        s
    }
}

/// With distinct keys, the record at position `i` is the one stored under its key.
pub proof fn lemma_index_of_key_unique<T: Keyed>(s: Seq<T>, i: int)
    requires
        keys_distinct(s),
        0 <= i < s.len(),
    ensures
        has_key(s, s[i].key_view()),
        index_of_key(s, s[i].key_view()) == i,
        lookup(s, s[i].key_view()) == Some(s[i]),
{
    let k = s[i].key_view();
    assert(has_key(s, k));
    let j = index_of_key(s, k);
    assert(s[j].key_view() == k);
}

/// Storing a record keeps keys distinct; afterwards its key finds it, and every
/// other key finds what it found before.
pub proof fn lemma_upsert<T: Keyed>(s: Seq<T>, x: T)
    requires
        keys_distinct(s),
    ensures
        keys_distinct(upsert(s, x)),
        lookup(upsert(s, x), x.key_view()) == Some(x),
        forall|k: Seq<char>| k != x.key_view() ==> #[trigger] lookup(upsert(s, x), k) == lookup(s, k),
        forall|k: Seq<char>| #[trigger] has_key(upsert(s, x), k) <==> (has_key(s, k) || k == x.key_view()),
{
    let t = upsert(s, x);
    let kx = x.key_view();
    if has_key(s, kx) {
        let p = index_of_key(s, kx);
        assert(s[p].key_view() == kx);
        assert forall|i: int, j: int|
            0 <= i < t.len() && 0 <= j < t.len() && i != j implies #[trigger] t[i].key_view()
            != #[trigger] t[j].key_view() by {
            if i == p {
                assert(s[j].key_view() != s[p].key_view());
            } else if j == p {
                assert(s[i].key_view() != s[p].key_view());
            } else {
                assert(s[i].key_view() != s[j].key_view());
            }
        }
        assert(t[p] == x);
        lemma_index_of_key_unique(t, p);
        assert forall|k: Seq<char>| k != kx implies #[trigger] lookup(t, k) == lookup(s, k) by {
            if has_key(s, k) {
                let q = index_of_key(s, k);
                assert(q != p);
                assert(t[q] == s[q]);
                lemma_index_of_key_unique(t, q);
            } else {
                if has_key(t, k) {
                    let q = index_of_key(t, k);
                    assert(q != p);
                    assert(s[q].key_view() == k);
                }
            }
        }
        assert forall|k: Seq<char>| #[trigger] has_key(t, k) <==> (has_key(s, k) || k == kx) by {
            if has_key(t, k) {
                let q = index_of_key(t, k);
                if q != p {
                    assert(s[q].key_view() == k);
                }
            }
            if has_key(s, k) && k != kx {
                let q = index_of_key(s, k);
                assert(t[q].key_view() == k);
            }
            if k == kx {
                assert(t[p].key_view() == k);
            }
        }
    } else {
        let p = s.len() as int;
        assert forall|i: int, j: int|
            0 <= i < t.len() && 0 <= j < t.len() && i != j implies #[trigger] t[i].key_view()
            != #[trigger] t[j].key_view() by {
            if i == p {
                assert(!(s[j].key_view() == kx));
            } else if j == p {
                assert(!(s[i].key_view() == kx));
            } else {
                assert(s[i].key_view() != s[j].key_view());
            }
        }
        assert(t[p] == x);
        lemma_index_of_key_unique(t, p);
        assert forall|k: Seq<char>| k != kx implies #[trigger] lookup(t, k) == lookup(s, k) by {
            if has_key(s, k) {
                let q = index_of_key(s, k);
                assert(t[q] == s[q]);
                lemma_index_of_key_unique(t, q);
            } else {
                if has_key(t, k) {
                    let q = index_of_key(t, k);
                    assert(q != p);
                    assert(s[q].key_view() == k);
                }
            }
        }
        assert forall|k: Seq<char>| #[trigger] has_key(t, k) <==> (has_key(s, k) || k == kx) by {
            if has_key(t, k) {
                let q = index_of_key(t, k);
                if q != p {
                    assert(s[q].key_view() == k);
                }
            }
            if has_key(s, k) {
                let q = index_of_key(s, k);
                assert(t[q].key_view() == k);
            }
            if k == kx {
                assert(t[p].key_view() == k);
            }
        }
    }
}

/// Removing a key keeps keys distinct; afterwards that key finds nothing, and
/// every other key finds what it found before.
pub proof fn lemma_without_key<T: Keyed>(s: Seq<T>, k: Seq<char>)
    requires
        keys_distinct(s),
    ensures
        keys_distinct(without_key(s, k)),
        lookup(without_key(s, k), k) is None,
        forall|k2: Seq<char>| k2 != k ==> #[trigger] lookup(without_key(s, k), k2) == lookup(s, k2),
{
    let t = without_key(s, k);
    if has_key(s, k) {
        let p = index_of_key(s, k);
        assert(s[p].key_view() == k);
        assert forall|i: int| 0 <= i < t.len() implies #[trigger] t[i] == (if i < p { s[i] } else { s[i + 1] }) by {}
        assert forall|i: int, j: int|
            0 <= i < t.len() && 0 <= j < t.len() && i != j implies #[trigger] t[i].key_view()
            != #[trigger] t[j].key_view() by {
            let a = if i < p { i } else { i + 1 };
            let b = if j < p { j } else { j + 1 };
            assert(t[i] == s[a]);
            assert(t[j] == s[b]);
            assert(s[a].key_view() != s[b].key_view());
        }
        if has_key(t, k) {
            let q = index_of_key(t, k);
            let a = if q < p { q } else { q + 1 };
            assert(t[q] == s[a]);
            assert(s[a].key_view() != s[p].key_view());
        }
        assert forall|k2: Seq<char>| k2 != k implies #[trigger] lookup(t, k2) == lookup(s, k2) by {
            if has_key(s, k2) {
                let q = index_of_key(s, k2);
                assert(q != p);
                let r = if q < p { q } else { q - 1 };
                assert(t[r] == s[q]);
                lemma_index_of_key_unique(t, r);
            } else {
                if has_key(t, k2) {
                    let q = index_of_key(t, k2);
                    let a = if q < p { q } else { q + 1 };
                    assert(t[q] == s[a]);
                }
            }
        }
    }
}

/// The key-to-record map that a sequence with distinct keys stands for.
pub open spec fn map_of<T: Keyed>(s: Seq<T>) -> Map<Seq<char>, T> {
    Map::new(|k: Seq<char>| has_key(s, k), |k: Seq<char>| lookup(s, k)->0)
}

/// Storing a record into a sequence inserts it into the map it stands for.
pub proof fn lemma_map_of_upsert<T: Keyed>(s: Seq<T>, x: T)
    requires
        keys_distinct(s),
    ensures
        keys_distinct(upsert(s, x)),
        map_of(upsert(s, x)) == map_of(s).insert(x.key_view(), x),
{
    lemma_upsert(s, x);
    let a = map_of(upsert(s, x));
    let b = map_of(s).insert(x.key_view(), x);
    assert forall|k: Seq<char>| #[trigger] a.contains_key(k) <==> b.contains_key(k) by {}
    assert forall|k: Seq<char>| a.contains_key(k) implies #[trigger] a[k] == b[k] by {
        if k != x.key_view() {
            assert(lookup(upsert(s, x), k) == lookup(s, k));
        }
    }
    assert(a =~= b);
}

/// Removing a key from a sequence removes it from the map it stands for.
pub proof fn lemma_map_of_without<T: Keyed>(s: Seq<T>, k: Seq<char>)
    requires
        keys_distinct(s),
    ensures
        keys_distinct(without_key(s, k)),
        map_of(without_key(s, k)) == map_of(s).remove(k),
{
    lemma_without_key(s, k);
    let a = map_of(without_key(s, k));
    let b = map_of(s).remove(k);
    assert forall|k2: Seq<char>| #[trigger] a.contains_key(k2) <==> b.contains_key(k2) by {
        if k2 != k {
            assert(lookup(without_key(s, k), k2) == lookup(s, k2));
        }
    }
    assert forall|k2: Seq<char>| a.contains_key(k2) implies #[trigger] a[k2] == b[k2] by {
        assert(lookup(without_key(s, k), k2) == lookup(s, k2));
    }
    assert(a =~= b);
}

/// The record at a position is the one the map holds under its key.
pub proof fn lemma_map_of_index<T: Keyed>(s: Seq<T>, i: int)
    requires
        keys_distinct(s),
        0 <= i < s.len(),
    ensures
        map_of(s).contains_key(s[i].key_view()),
        map_of(s)[s[i].key_view()] == s[i],
{
    lemma_index_of_key_unique(s, i);
}

/// Every key of the map is carried by some record of the sequence.
pub proof fn lemma_map_of_key<T: Keyed>(s: Seq<T>, k: Seq<char>)
    requires
        keys_distinct(s),
        map_of(s).contains_key(k),
    ensures
        0 <= index_of_key(s, k) < s.len(),
        s[index_of_key(s, k)].key_view() == k,
        map_of(s)[k] == s[index_of_key(s, k)],
{
}

/// A sequence after storing each record of `xs` in turn.
pub open spec fn upsert_all<T: Keyed>(s: Seq<T>, xs: Seq<T>) -> Seq<T>
    decreases xs.len(),
{
    if xs.len() == 0 {
        s
    } else {
        upsert(upsert_all(s, xs.drop_last()), xs.last())
    }
}

/// Records kept in insertion order, found again by key.
pub struct Pool<T> {
    items: Vec<T>,
}

impl<T> View for Pool<T> {
    type V = Seq<T>;

    closed spec fn view(&self) -> Seq<T> {
        self.items@
    }
}

impl<T: Keyed> Pool<T> {
    /// The pool is well formed: no two records share a key.
    pub open spec fn wf(&self) -> bool {
        keys_distinct(self@)
    }

    /// An empty pool.
    pub fn new() -> (p: Self)
        ensures
            p@ == Seq::<T>::empty(),
            p.wf(),
    {
        Pool { items: Vec::new() }
    }

    /// The key-to-record map this pool stands for.
    pub open spec fn entries(&self) -> Map<Seq<char>, T> {
        map_of(self@)
    }

    /// A pool holding `records`, each stored in turn (a later record replaces
    /// an earlier one with the same key).
    pub fn from_records(records: Vec<T>) -> (p: Self)
        ensures
            p@ == upsert_all(Seq::<T>::empty(), records@),
            p.wf(),
    {
        let mut p = Pool::new();
        let mut rest = records;
        let ghost all = rest@;
        // records are stored front to back: reverse them so that popping yields that order
        let mut rev: Vec<T> = Vec::new();
        while rest.len() > 0
            invariant
                rev@ + rest@.reverse() == all.reverse(),
            decreases rest.len(),
        {
            let ghost r0 = rest@;
            let x = rest.pop().unwrap();
            assert(r0 == rest@.push(x));
            assert(r0.reverse() =~= seq![x] + rest@.reverse());
            rev.push(x);
            assert(rev@ + rest@.reverse() =~= all.reverse());
        }
        assert(rev@ =~= all.reverse());
        assert(rev@.reverse() =~= all);
        let ghost mut taken: Seq<T> = Seq::empty();
        while rev.len() > 0
            invariant
                p.wf(),
                taken + rev@.reverse() == all,
                p@ == upsert_all(Seq::<T>::empty(), taken),
            decreases rev.len(),
        {
            let ghost r0 = rev@;
            let x = rev.pop().unwrap();
            assert(r0 == rev@.push(x));
            assert(r0.reverse() =~= seq![x] + rev@.reverse());
            let ghost t1 = taken.push(x);
            assert(t1.drop_last() =~= taken);
            assert(t1.last() == x);
            p.upsert(x);
            proof {
                taken = t1;
            }
            assert(taken + rev@.reverse() =~= all);
        }
        assert(rev@.reverse() =~= Seq::<T>::empty());
        assert(taken =~= all);
        p
    }

    /// The number of records.
    pub fn len(&self) -> (n: usize)
        ensures
            n == self@.len(),
    {
        self.items.len()
    }

    /// The records, in storage order.
    pub fn items(&self) -> (v: &Vec<T>)
        ensures
            v@ == self@,
    {
        &self.items
    }

    /// The position of the record stored under `key`.
    pub fn position(&self, key: &str) -> (r: Option<usize>)
        requires
            self.wf(),
        ensures
            r is Some <==> has_key(self@, key@),
            r is Some <==> self.entries().contains_key(key@),
            r matches Some(i) ==> i < self@.len() && self@[i as int].key_view() == key@ && i
                == index_of_key(self@, key@) && self.entries()[key@] == self@[i as int],
    {
        let mut i: usize = 0;
        while i < self.items.len()
            invariant
                self.wf(),
                i <= self.items@.len(),
                forall|j: int| 0 <= j < i ==> #[trigger] self.items@[j].key_view() != key@,
            decreases self.items@.len() - i,
        {
            let k = self.items[i].key();
            if crate::text::str_eq(k, key) {
                proof {
                    lemma_index_of_key_unique(self@, i as int);
                }
                return Some(i);
            }
            i = i + 1;
        }
        None
    }

    /// The record stored under `key`, if any.
    pub fn get(&self, key: &str) -> (r: Option<&T>)
        requires
            self.wf(),
        ensures
            match r {
                Some(x) => lookup(self@, key@) == Some(*x) && self.entries().contains_key(key@)
                    && self.entries()[key@] == *x,
                None => lookup(self@, key@) is None && !self.entries().contains_key(key@),
            },
    {
        match self.position(key) {
            Some(i) => Some(&self.items[i]),
            None => None,
        }
    }

    /// Stores `x`, replacing the record with the same key.
    pub fn upsert(&mut self, x: T)
        requires
            old(self).wf(),
        ensures
            final(self)@ == upsert(old(self)@, x),
            final(self).wf(),
            final(self).entries() == old(self).entries().insert(x.key_view(), x),
    {
        proof {
            lemma_upsert(self@, x);
            lemma_map_of_upsert(self@, x);
        }
        match self.position(x.key()) {
            Some(i) => {
                self.items.remove(i);
                self.items.insert(i, x);
                assert(self.items@ =~= upsert(old(self)@, x));
            },
            None => {
                self.items.push(x);
            },
        }
    }

    /// Takes out the record stored under `key`.
    pub fn remove(&mut self, key: &str) -> (r: Option<T>)
        requires
            old(self).wf(),
        ensures
            r == lookup(old(self)@, key@),
            final(self)@ == without_key(old(self)@, key@),
            final(self).wf(),
            final(self).entries() == old(self).entries().remove(key@),
            r is Some <==> old(self).entries().contains_key(key@),
            r matches Some(x) ==> x == old(self).entries()[key@],
    {
        proof {
            lemma_without_key(self@, key@);
            lemma_map_of_without(self@, key@);
        }
        match self.position(key) {
            Some(i) => {
                let x = self.items.remove(i);
                Some(x)
            },
            None => None,
        }
    }
}

} // verus!
