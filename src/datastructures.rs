//! A dictionary from string keys to non-empty lists of values.
use vstd::prelude::*;

verus! {

/// The entries of a multi-dictionary as plain values, in order of first insertion.
pub type MultiDictView<T> = Seq<(Seq<char>, Seq<T>)>;

/// Whether `k` is a key of `s`.
pub open spec fn has_key<T>(s: MultiDictView<T>, k: Seq<char>) -> bool {
    exists|i: int| 0 <= i < s.len() && #[trigger] s[i].0 == k
}

/// The position of key `k` in `s` (meaningful where `has_key(s, k)`).
pub open spec fn key_index<T>(s: MultiDictView<T>, k: Seq<char>) -> int {
    choose|i: int| 0 <= i < s.len() && #[trigger] s[i].0 == k
}

/// The list of values stored under `k`, if any.
pub open spec fn lookup<T>(s: MultiDictView<T>, k: Seq<char>) -> Option<Seq<T>> {
    if has_key(s, k) {
        Some(s[key_index(s, k)].1)
    } else {
        None
    }
}

/// Keys appear once each, and every key holds at least one value.
pub open spec fn entries_wf<T>(s: MultiDictView<T>) -> bool {
    &&& forall|i: int, j: int| 0 <= i < j < s.len() ==> #[trigger] s[i].0 != #[trigger] s[j].0
    &&& forall|i: int| 0 <= i < s.len() ==> (#[trigger] s[i].1).len() > 0
}

/// What `set` makes of `s`: the key holds exactly `v` afterwards.
pub open spec fn set_spec<T>(s: MultiDictView<T>, k: Seq<char>, v: T) -> MultiDictView<T> {
    if has_key(s, k) {
        s.update(key_index(s, k), (k, seq![v]))
    } else {
        s.push((k, seq![v]))
    }
}

/// What `add` makes of `s`: `v` is appended to the values of the key.
pub open spec fn add_spec<T>(s: MultiDictView<T>, k: Seq<char>, v: T) -> MultiDictView<T> {
    if has_key(s, k) {
        s.update(key_index(s, k), (k, s[key_index(s, k)].1.push(v)))
    } else {
        s.push((k, seq![v]))
    }
}

#[derive(Debug)]
pub struct MultiDict<T> {
    entries: Vec<(String, Vec<T>)>,
}

impl<T> View for MultiDict<T> {
    type V = MultiDictView<T>;

    closed spec fn view(&self) -> MultiDictView<T> {
        self.entries@.map_values(|e: (String, Vec<T>)| (e.0@, e.1@))
    }
}

impl<T> MultiDict<T> {
    /// Keys are unique and no list is empty.
    pub open spec fn wf(&self) -> bool {
        entries_wf(self@)
    }

    pub fn new() -> (r: MultiDict<T>)
        ensures
            r.wf(),
            r@ == Seq::<(Seq<char>, Seq<T>)>::empty(),
    {
        let r = MultiDict { entries: Vec::new() };
        assert(r@ =~= Seq::<(Seq<char>, Seq<T>)>::empty());
        r
    }

    /// The position of `key`, if it is present.
    fn find(&self, key: &str) -> (r: Option<usize>)
        requires
            self.wf(),
        ensures
            match r {
                Some(i) => has_key(self@, key@) && i == key_index(self@, key@) && i
                    < self@.len(),
                None => !has_key(self@, key@),
            },
    {
        let k = key.to_owned();
        let mut i: usize = 0;
        while i < self.entries.len()
            invariant
                0 <= i <= self.entries.len(),
                k@ == key@,
                entries_wf(self@),
                self@.len() == self.entries@.len(),
                forall|j: int| 0 <= j < i ==> self@[j].0 != key@,
            decreases self.entries.len() - i,
        {
            if self.entries[i].0 == k {
                assert(self@[i as int].0 == key@);
                assert(has_key(self@, key@));
                let ghost c = key_index(self@, key@);
                assert(self@[c].0 == key@);
                assert(c == i as int);
                return Some(i);
            }
            i = i + 1;
        }
        None
    }

    /// The first value stored under `key`.
    pub fn get(&self, key: &str) -> (r: Option<&T>)
        requires
            self.wf(),
        ensures
            match lookup(self@, key@) {
                Some(vs) => r == Some(&vs[0]),
                None => r is None,
            },
    {
        match self.find(key) {
            Some(i) => Some(&self.entries[i].1[0]),
            None => None,
        }
    }

    /// All values stored under `key`, in order of insertion.
    pub fn getlist(&self, key: &str) -> (r: Option<&Vec<T>>)
        requires
            self.wf(),
        ensures
            match lookup(self@, key@) {
                Some(vs) => r is Some && r.unwrap()@ == vs,
                None => r is None,
            },
    {
        match self.find(key) {
            Some(i) => Some(&self.entries[i].1),
            None => None,
        }
    }

    /// Replaces whatever `key` held by the single value `value`.
    pub fn set(&mut self, key: &str, value: T)
        requires
            old(self).wf(),
        ensures
            final(self).wf(),
            final(self)@ == set_spec(old(self)@, key@, value),
    {
        match self.find(key) {
            Some(i) => {
                let mut v: Vec<T> = Vec::new();
                v.push(value);
                let k = key.to_owned();
                self.entries.set(i, (k, v));
                proof {
                    assert(self@ =~= set_spec(old(self)@, key@, value));
                }
            },
            None => {
                let mut v: Vec<T> = Vec::new();
                v.push(value);
                self.entries.push((key.to_owned(), v));
                proof {
                    assert(self@ =~= set_spec(old(self)@, key@, value));
                }
            },
        }
    }

    /// Appends `value` to the values of `key`.
    pub fn add(&mut self, key: String, value: T)
        requires
            old(self).wf(),
        ensures
            final(self).wf(),
            final(self)@ == add_spec(old(self)@, key@, value),
    {
        match self.find(key.as_str()) {
            Some(i) => {
                let mut entry = self.entries.remove(i);
                entry.1.push(value);
                self.entries.insert(i, entry);
                proof {
                    assert(self@ =~= add_spec(old(self)@, key@, value));
                }
            },
            None => {
                let mut v: Vec<T> = Vec::new();
                v.push(value);
                self.entries.push((key, v));
                proof {
                    assert(self@ =~= add_spec(old(self)@, key@, value));
                }
            },
        }
    }
    /// The keys, in order of first insertion.
    pub fn keys(&self) -> (r: Vec<String>)
        ensures
            r@.len() == self@.len(),
            forall|i: int| 0 <= i < r@.len() ==> (#[trigger] r@[i])@ == self@[i].0,
    {
        let mut r: Vec<String> = Vec::new();
        let mut i: usize = 0;
        while i < self.entries.len()
            invariant
                0 <= i <= self.entries.len(),
                self@.len() == self.entries@.len(),
                r@.len() == i,
                forall|j: int| 0 <= j < i ==> (#[trigger] r@[j])@ == self@[j].0,
            decreases self.entries.len() - i,
        {
            r.push(self.entries[i].0.clone());
            i = i + 1;
        }
        r
    }

    /// The first value of each key, in key order.
    pub fn values(&self) -> (r: Vec<&T>)
        requires
            self.wf(),
        ensures
            r@.len() == self@.len(),
            forall|i: int| 0 <= i < r@.len() ==> *(#[trigger] r@[i]) == self@[i].1[0],
    {
        let mut r: Vec<&T> = Vec::new();
        let mut i: usize = 0;
        while i < self.entries.len()
            invariant
                0 <= i <= self.entries.len(),
                self.wf(),
                self@.len() == self.entries@.len(),
                r@.len() == i,
                forall|j: int| 0 <= j < i ==> *(#[trigger] r@[j]) == self@[j].1[0],
            decreases self.entries.len() - i,
        {
            assert(self@[i as int].1.len() > 0);
            r.push(&self.entries[i].1[0]);
            i = i + 1;
        }
        r
    }

    /// The list of values of each key, in key order.
    pub fn listvalues(&self) -> (r: Vec<&Vec<T>>)
        ensures
            r@.len() == self@.len(),
            forall|i: int| 0 <= i < r@.len() ==> (#[trigger] r@[i])@ == self@[i].1,
    {
        let mut r: Vec<&Vec<T>> = Vec::new();
        let mut i: usize = 0;
        while i < self.entries.len()
            invariant
                0 <= i <= self.entries.len(),
                self@.len() == self.entries@.len(),
                r@.len() == i,
                forall|j: int| 0 <= j < i ==> (#[trigger] r@[j])@ == self@[j].1,
            decreases self.entries.len() - i,
        {
            r.push(&self.entries[i].1);
            i = i + 1;
        }
        r
    }

    /// Each key with its first value, in key order.
    pub fn iter(&self) -> (r: Vec<(&String, &T)>)
        requires
            self.wf(),
        ensures
            r@.len() == self@.len(),
            forall|i: int|
                0 <= i < r@.len() ==> (#[trigger] r@[i]).0@ == self@[i].0 && *r@[i].1
                    == self@[i].1[0],
    {
        let mut r: Vec<(&String, &T)> = Vec::new();
        let mut i: usize = 0;
        while i < self.entries.len()
            invariant
                0 <= i <= self.entries.len(),
                self.wf(),
                self@.len() == self.entries@.len(),
                r@.len() == i,
                forall|j: int|
                    0 <= j < i ==> (#[trigger] r@[j]).0@ == self@[j].0 && *r@[j].1
                        == self@[j].1[0],
            decreases self.entries.len() - i,
        {
            assert(self@[i as int].1.len() > 0);
            let e = &self.entries[i];
            r.push((&e.0, &e.1[0]));
            i = i + 1;
        }
        r
    }

    /// Each key with its list of values, in key order.
    pub fn listiter(&self) -> (r: Vec<(&String, &Vec<T>)>)
        ensures
            r@.len() == self@.len(),
            forall|i: int|
                0 <= i < r@.len() ==> (#[trigger] r@[i]).0@ == self@[i].0 && r@[i].1@
                    == self@[i].1,
    {
        let mut r: Vec<(&String, &Vec<T>)> = Vec::new();
        let mut i: usize = 0;
        while i < self.entries.len()
            invariant
                0 <= i <= self.entries.len(),
                self@.len() == self.entries@.len(),
                r@.len() == i,
                forall|j: int|
                    0 <= j < i ==> (#[trigger] r@[j]).0@ == self@[j].0 && r@[j].1@
                        == self@[j].1,
            decreases self.entries.len() - i,
        {
            let e = &self.entries[i];
            r.push((&e.0, &e.1));
            i = i + 1;
        }
        r
    }
}

} // verus!
