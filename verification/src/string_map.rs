//! A small map from `String` keys to values, backed by a vector of entries.
//!
//! The pallets key their storage by account identifiers or content values,
//! both strings. This module supplies the one storage type they share: keys
//! are compared by character content, and the abstract view of a map is a
//! `Map<Seq<char>, T>` from key content to value.

use vstd::prelude::*;

verus! {

/// An association list with pairwise-distinct keys.
#[derive(Debug)]
pub struct StringMap<T> {
    entries: Vec<(String, T)>,
}

/// The map that a sequence of entries denotes: later entries would win,
/// but a well-formed `StringMap` never holds two entries with one key.
spec fn map_of<T>(s: Seq<(String, T)>) -> Map<Seq<char>, T>
    decreases s.len(),
{
    if s.len() == 0 {
        Map::empty()
    } else {
        map_of(s.drop_last()).insert(s.last().0@, s.last().1)
    }
}

/// No entry of `s` has key content `k`.
spec fn key_absent<T>(s: Seq<(String, T)>, k: Seq<char>) -> bool {
    forall|i: int| 0 <= i < s.len() ==> (#[trigger] s[i].0@) != k
}

/// The key contents of `s` are pairwise distinct.
spec fn distinct_keys<T>(s: Seq<(String, T)>) -> bool {
    forall|i: int, j: int|
        0 <= i < j < s.len() ==> (#[trigger] s[i].0@) != (#[trigger] s[j].0@)
}

proof fn lemma_map_of_absent<T>(s: Seq<(String, T)>, k: Seq<char>)
    requires
        key_absent(s, k),
    ensures
        !map_of(s).dom().contains(k),
    decreases s.len(),
{
    if s.len() > 0 {
        assert(forall|i: int|
            0 <= i < s.drop_last().len() ==> #[trigger] s.drop_last()[i] == s[i]);
        lemma_map_of_absent(s.drop_last(), k);
        assert(s.last().0@ != k);
    }
}

proof fn lemma_map_of_index<T>(s: Seq<(String, T)>, i: int)
    requires
        distinct_keys(s),
        0 <= i < s.len(),
    ensures
        map_of(s).dom().contains(s[i].0@),
        map_of(s)[s[i].0@] == s[i].1,
    decreases s.len(),
{
    if i < s.len() - 1 {
        assert(forall|x: int|
            0 <= x < s.drop_last().len() ==> #[trigger] s.drop_last()[x] == s[x]);
        lemma_map_of_index(s.drop_last(), i);
        assert(s[i].0@ != s[s.len() - 1].0@);
    }
}

proof fn lemma_remove_distinct<T>(s: Seq<(String, T)>, i: int)
    requires
        distinct_keys(s),
        0 <= i < s.len(),
    ensures
        distinct_keys(s.remove(i)),
        key_absent(s.remove(i), s[i].0@),
{
    s.remove_ensures(i);
    assert forall|x: int, y: int| 0 <= x < y < s.remove(i).len() implies (#[trigger] s.remove(
        i,
    )[x].0@) != (#[trigger] s.remove(i)[y].0@) by {
        let sx = if x < i { x } else { x + 1 };
        let sy = if y < i { y } else { y + 1 };
        assert(s.remove(i)[x] == s[sx] && s.remove(i)[y] == s[sy]);
    };
    assert forall|x: int| 0 <= x < s.remove(i).len() implies (#[trigger] s.remove(i)[x].0@) != s[i].0@ by {
        let sx = if x < i { x } else { x + 1 };
        assert(s.remove(i)[x] == s[sx]);
    };
}

proof fn lemma_push_distinct<T>(s: Seq<(String, T)>, key: String, value: T)
    requires
        distinct_keys(s),
        key_absent(s, key@),
    ensures
        distinct_keys(s.push((key, value))),
{
    let t = s.push((key, value));
    assert forall|x: int, y: int| 0 <= x < y < t.len() implies (#[trigger] t[x].0@) != (#[trigger] t[y].0@) by {
        assert(t[x] == s[x]);
        if y < s.len() {
            assert(t[y] == s[y]);
        } else {
            assert(t[y] == (key, value));
        }
    };
}

proof fn lemma_map_of_push<T>(s: Seq<(String, T)>, key: String, value: T)
    ensures
        map_of(s.push((key, value))) == map_of(s).insert(key@, value),
{
    assert(s.push((key, value)).drop_last() =~= s);
    assert(s.push((key, value)).last() == (key, value));
}

proof fn lemma_map_of_remove<T>(s: Seq<(String, T)>, i: int)
    requires
        distinct_keys(s),
        0 <= i < s.len(),
    ensures
        map_of(s.remove(i)) == map_of(s).remove(s[i].0@),
    decreases s.len(),
{
    let k = s[i].0@;
    if i == s.len() - 1 {
        assert(s.remove(i) =~= s.drop_last());
        lemma_remove_distinct(s, i);
        lemma_map_of_absent(s.drop_last(), k);
        assert(map_of(s).remove(k) =~= map_of(s.drop_last()));
    } else {
        let dl = s.drop_last();
        assert(forall|x: int| 0 <= x < dl.len() ==> #[trigger] dl[x] == s[x]);
        s.remove_ensures(i);
        dl.remove_ensures(i);
        assert(s.remove(i).drop_last() =~= dl.remove(i));
        assert(s.remove(i).last() == s.last());
        lemma_map_of_remove(dl, i);
        // The final entry's key differs from the removed key, so the trailing
        // insert and the removal commute.
        assert(s[i].0@ != s[s.len() - 1].0@);
        assert(map_of(dl).remove(k).insert(s.last().0@, s.last().1) =~= map_of(dl).insert(
            s.last().0@,
            s.last().1,
        ).remove(k));
    }
}

impl<T> View for StringMap<T> {
    type V = Map<Seq<char>, T>;

    closed spec fn view(&self) -> Map<Seq<char>, T> {
        map_of(self.entries@)
    }
}

impl<T> StringMap<T> {
    /// The entries hold each key at most once, so the view loses nothing.
    pub closed spec fn wf(&self) -> bool {
        distinct_keys(self.entries@)
    }

    /// An empty map.
    pub fn new() -> (r: Self)
        ensures
            r.wf(),
            r@ == Map::<Seq<char>, T>::empty(),
    {
        StringMap { entries: Vec::new() }
    }

    /// The position of the entry whose key has `key`'s content, if any.
    fn index_of(&self, key: &String) -> (r: Option<usize>)
        ensures
            match r {
                Some(i) => i < self.entries@.len() && self.entries@[i as int].0@ == key@,
                None => key_absent(self.entries@, key@),
            },
    {
        let n = self.entries.len();
        let mut i: usize = 0;
        while i < n
            invariant
                n == self.entries@.len(),
                i <= n,
                forall|j: int| 0 <= j < i ==> (#[trigger] self.entries@[j].0@) != key@,
            decreases n - i,
        {
            if self.entries[i].0 == *key {
                return Some(i);
            }
            i += 1;
        }
        None
    }

    /// Look the key up; `None` exactly when the key is unbound.
    pub fn get(&self, key: &String) -> (r: Option<&T>)
        requires
            self.wf(),
        ensures
            match r {
                Some(v) => self@.dom().contains(key@) && *v == self@[key@],
                None => !self@.dom().contains(key@),
            },
    {
        match self.index_of(key) {
            Some(i) => {
                proof {
                    lemma_map_of_index(self.entries@, i as int);
                }
                Some(&self.entries[i].1)
            },
            None => {
                proof {
                    lemma_map_of_absent(self.entries@, key@);
                }
                None
            },
        }
    }

    /// Bind `key` to `value`, replacing any earlier binding.
    pub fn insert(&mut self, key: String, value: T)
        requires
            old(self).wf(),
        ensures
            final(self).wf(),
            final(self)@ == old(self)@.insert(key@, value),
    {
        let ghost s0 = self.entries@;
        match self.index_of(&key) {
            Some(i) => {
                proof {
                    lemma_map_of_remove(s0, i as int);
                    lemma_remove_distinct(s0, i as int);
                }
                self.entries.remove(i);
                proof {
                    lemma_map_of_push(self.entries@, key, value);
                    lemma_push_distinct(self.entries@, key, value);
                    assert(map_of(s0).remove(key@).insert(key@, value) =~= map_of(s0).insert(
                        key@,
                        value,
                    ));
                }
                self.entries.push((key, value));
            },
            None => {
                proof {
                    lemma_map_of_push(self.entries@, key, value);
                    lemma_push_distinct(self.entries@, key, value);
                }
                self.entries.push((key, value));
            },
        }
    }

    /// Unbind `key`, returning the value it was bound to, if any.
    pub fn remove(&mut self, key: &String) -> (r: Option<T>)
        requires
            old(self).wf(),
        ensures
            final(self).wf(),
            final(self)@ == old(self)@.remove(key@),
            match r {
                Some(v) => old(self)@.dom().contains(key@) && v == old(self)@[key@],
                None => !old(self)@.dom().contains(key@),
            },
    {
        match self.index_of(key) {
            Some(i) => {
                proof {
                    lemma_map_of_index(self.entries@, i as int);
                    lemma_map_of_remove(self.entries@, i as int);
                    lemma_remove_distinct(self.entries@, i as int);
                }
                let entry = self.entries.remove(i);
                Some(entry.1)
            },
            None => {
                proof {
                    lemma_map_of_absent(self.entries@, key@);
                    assert(map_of(self.entries@).remove(key@) =~= map_of(self.entries@));
                }
                None
            },
        }
    }
}

} // verus!
