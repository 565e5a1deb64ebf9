//! A string-keyed map of export headers in which each key occurs once.

use vstd::prelude::*;

use crate::text::str_eq;

verus! {

/// Header name to header value; a key occurs at most once.
#[derive(Clone, Debug)]
pub struct HeaderMap {
    entries: Vec<(String, String)>,
}

/// Whether the keys of `entries` are pairwise distinct.
pub open spec fn keys_distinct(entries: Seq<(String, String)>) -> bool {
    forall|i: int, j: int|
        0 <= i < entries.len() && 0 <= j < entries.len() && i != j ==> #[trigger] entries[i].0@
            != #[trigger] entries[j].0@
}

/// Whether the entry at `i` has key `k`.
pub open spec fn has_key_at(entries: Seq<(String, String)>, i: int, k: Seq<char>) -> bool {
    0 <= i < entries.len() && entries[i].0@ == k
}

/// The map that a sequence of entries with distinct keys stands for.
pub open spec fn entries_map(entries: Seq<(String, String)>) -> Map<Seq<char>, Seq<char>> {
    Map::new(
        |k: Seq<char>| exists|i: int| #[trigger] has_key_at(entries, i, k),
        |k: Seq<char>| entries[choose|i: int| #[trigger] has_key_at(entries, i, k)].1@,
    )
}

proof fn lemma_entry_lookup(entries: Seq<(String, String)>, i: int)
    requires
        keys_distinct(entries),
        0 <= i < entries.len(),
    ensures
        entries_map(entries).contains_key(entries[i].0@),
        entries_map(entries)[entries[i].0@] == entries[i].1@,
{
    let k = entries[i].0@;
    assert(has_key_at(entries, i, k));
    let j = choose|j: int| #[trigger] has_key_at(entries, j, k);
    assert(has_key_at(entries, j, k));
    if j != i {
        assert(entries[i].0@ != entries[j].0@);
    }
}

impl View for HeaderMap {
    type V = Map<Seq<char>, Seq<char>>;

    closed spec fn view(&self) -> Map<Seq<char>, Seq<char>> {
        entries_map(self.entries@)
    }
}

impl HeaderMap {
    /// Well-formedness: each key occurs once.
    pub closed spec fn wf(&self) -> bool {
        keys_distinct(self.entries@)
    }

    /// An empty map.
    pub fn new() -> (res: Self)
        ensures
            res.wf(),
            res@ == Map::<Seq<char>, Seq<char>>::empty(),
    {
        let res = HeaderMap { entries: Vec::new() };
        assert(res@ =~= Map::<Seq<char>, Seq<char>>::empty());
        res
    }

    fn find(&self, key: &str) -> (res: Option<usize>)
        requires
            self.wf(),
        ensures
            match res {
                Some(i) => has_key_at(self.entries@, i as int, key@),
                None => !self@.contains_key(key@),
            },
    {
        let n = self.entries.len();
        for i in 0..n
            invariant
                n == self.entries@.len(),
                forall|j: int| 0 <= j < i ==> self.entries@[j].0@ != key@,
        {
            if str_eq(self.entries[i].0.as_str(), key) {
                return Some(i);
            }
        }
        None
    }

    /// The value stored under `key`.
    pub fn get(&self, key: &str) -> (res: Option<&String>)
        requires
            self.wf(),
        ensures
            match res {
                Some(v) => self@.contains_key(key@) && self@[key@] == v@,
                None => !self@.contains_key(key@),
            },
    {
        match self.find(key) {
            Some(i) => {
                proof {
                    lemma_entry_lookup(self.entries@, i as int);
                }
                Some(&self.entries[i].1)
            },
            None => None,
        }
    }

    /// Whether `key` has a value.
    pub fn contains_key(&self, key: &str) -> (res: bool)
        requires
            self.wf(),
        ensures
            res == self@.contains_key(key@),
    {
        match self.find(key) {
            Some(i) => {
                proof {
                    lemma_entry_lookup(self.entries@, i as int);
                }
                true
            },
            None => false,
        }
    }

    /// Sets `key` to `value`, replacing a previous value.
    pub fn insert(&mut self, key: String, value: String)
        requires
            old(self).wf(),
        ensures
            final(self).wf(),
            final(self)@ == old(self)@.insert(key@, value@),
    {
        let ghost old_entries = self.entries@;
        let ghost k = key@;
        let ghost v = value@;
        match self.find(key.as_str()) {
            Some(i) => {
                self.entries.set(i, (key, value));
                let ghost new_entries = self.entries@;
                assert(keys_distinct(new_entries)) by {
                    assert forall|a: int, b: int|
                        0 <= a < new_entries.len() && 0 <= b < new_entries.len() && a != b implies #[trigger] new_entries[a].0@
                        != #[trigger] new_entries[b].0@ by {
                        assert(old_entries[a].0@ != old_entries[b].0@);
                        assert(old_entries[i as int].0@ == k);
                    }
                }
                assert forall|kk: Seq<char>| #[trigger]
                    entries_map(new_entries).contains_key(kk) == old(self)@.insert(
                        k,
                        v,
                    ).contains_key(kk) by {
                    if exists|j: int| #[trigger] has_key_at(new_entries, j, kk) {
                        let j = choose|j: int| #[trigger] has_key_at(new_entries, j, kk);
                        if j != i {
                            assert(has_key_at(old_entries, j, kk));
                        }
                    }
                    if exists|j: int| #[trigger] has_key_at(old_entries, j, kk) {
                        let j = choose|j: int| #[trigger] has_key_at(old_entries, j, kk);
                        assert(has_key_at(new_entries, j, kk));
                    }
                    if kk == k {
                        assert(has_key_at(new_entries, i as int, kk));
                    }
                }
                assert forall|kk: Seq<char>| #[trigger]
                    entries_map(new_entries).contains_key(kk) implies entries_map(new_entries)[kk]
                    == old(self)@.insert(k, v)[kk] by {
                    let j = choose|j: int| #[trigger] has_key_at(new_entries, j, kk);
                    assert(has_key_at(new_entries, j, kk));
                    lemma_entry_lookup(new_entries, j);
                    if kk != k {
                        assert(j != i);
                        assert(has_key_at(old_entries, j, kk));
                        lemma_entry_lookup(old_entries, j);
                    }
                }
                assert(self@ =~= old(self)@.insert(k, v));
            },
            None => {
                self.entries.push((key, value));
                let ghost new_entries = self.entries@;
                let ghost last = old_entries.len() as int;
                assert(keys_distinct(new_entries)) by {
                    assert forall|a: int, b: int|
                        0 <= a < new_entries.len() && 0 <= b < new_entries.len() && a != b implies #[trigger] new_entries[a].0@
                        != #[trigger] new_entries[b].0@ by {
                        if a == last {
                            if new_entries[b].0@ == k {
                                assert(has_key_at(old_entries, b, k));
                            }
                        } else if b == last {
                            if new_entries[a].0@ == k {
                                assert(has_key_at(old_entries, a, k));
                            }
                        } else {
                            assert(old_entries[a].0@ != old_entries[b].0@);
                        }
                    }
                }
                assert forall|kk: Seq<char>| #[trigger]
                    entries_map(new_entries).contains_key(kk) == old(self)@.insert(
                        k,
                        v,
                    ).contains_key(kk) by {
                    if exists|j: int| #[trigger] has_key_at(new_entries, j, kk) {
                        let j = choose|j: int| #[trigger] has_key_at(new_entries, j, kk);
                        if j != last {
                            assert(has_key_at(old_entries, j, kk));
                        }
                    }
                    if exists|j: int| #[trigger] has_key_at(old_entries, j, kk) {
                        let j = choose|j: int| #[trigger] has_key_at(old_entries, j, kk);
                        assert(has_key_at(new_entries, j, kk));
                    }
                    if kk == k {
                        assert(has_key_at(new_entries, last, kk));
                    }
                }
                assert forall|kk: Seq<char>| #[trigger]
                    entries_map(new_entries).contains_key(kk) implies entries_map(new_entries)[kk]
                    == old(self)@.insert(k, v)[kk] by {
                    let j = choose|j: int| #[trigger] has_key_at(new_entries, j, kk);
                    assert(has_key_at(new_entries, j, kk));
                    lemma_entry_lookup(new_entries, j);
                    if kk != k {
                        assert(j != last);
                        assert(has_key_at(old_entries, j, kk));
                        lemma_entry_lookup(old_entries, j);
                    }
                }
                assert(self@ =~= old(self)@.insert(k, v));
            },
        }
    }

    /// Sets `key` to `value` only when `key` has no value yet
    /// (`entry(key).or_insert(value)`).
    pub fn insert_if_absent(&mut self, key: String, value: String)
        requires
            old(self).wf(),
        ensures
            final(self).wf(),
            final(self)@ == if old(self)@.contains_key(key@) {
                old(self)@
            } else {
                old(self)@.insert(key@, value@)
            },
    {
        if !self.contains_key(key.as_str()) {
            self.insert(key, value);
        }
    }

    /// The entries, each key once.
    pub fn pairs(&self) -> (res: Vec<(String, String)>)
        requires
            self.wf(),
        ensures
            keys_distinct(res@),
            entries_map(res@) == self@,
    {
        let n = self.entries.len();
        let mut out: Vec<(String, String)> = Vec::new();
        for i in 0..n
            invariant
                n == self.entries@.len(),
                out@.len() == i,
                forall|j: int| 0 <= j < i ==> #[trigger] out@[j] == self.entries@[j],
        {
            let k = self.entries[i].0.clone();
            let v = self.entries[i].1.clone();
            out.push((k, v));
            assert(out@[i as int] == self.entries@[i as int]);
        }
        assert forall|a: int, b: int|
            0 <= a < out@.len() && 0 <= b < out@.len() && a != b implies #[trigger] out@[a].0@
            != #[trigger] out@[b].0@ by {
            assert(self.entries@[a].0@ != self.entries@[b].0@);
        }
        assert forall|kk: Seq<char>| #[trigger] entries_map(out@).contains_key(kk) == self@.contains_key(kk) by {
            if exists|j: int| #[trigger] has_key_at(out@, j, kk) {
                let j = choose|j: int| #[trigger] has_key_at(out@, j, kk);
                assert(has_key_at(self.entries@, j, kk));
            }
            if exists|j: int| #[trigger] has_key_at(self.entries@, j, kk) {
                let j = choose|j: int| #[trigger] has_key_at(self.entries@, j, kk);
                assert(has_key_at(out@, j, kk));
            }
        }
        assert forall|kk: Seq<char>| #[trigger] entries_map(out@).contains_key(kk) implies entries_map(out@)[kk] == self@[kk] by {
            let j = choose|j: int| #[trigger] has_key_at(out@, j, kk);
            assert(has_key_at(out@, j, kk));
            lemma_entry_lookup(out@, j);
            assert(has_key_at(self.entries@, j, kk));
            lemma_entry_lookup(self.entries@, j);
        }
        assert(entries_map(out@) =~= self@);
        out
    }
}

} // verus!
