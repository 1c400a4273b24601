use vstd::prelude::*;

verus! {

/// The entries of a map keyed by identifier, in the order they were first
/// inserted, as (identifier, value) pairs.
pub open spec fn keys_distinct<T>(s: Seq<(Seq<char>, T)>) -> bool {
    forall|i: int, j: int|
        0 <= i < s.len() && 0 <= j < s.len() && i != j ==> #[trigger] s[i].0 != #[trigger] s[j].0
}

/// Whether `k` is the identifier of some entry.
pub open spec fn has_key<T>(s: Seq<(Seq<char>, T)>, k: Seq<char>) -> bool {
    exists|i: int| 0 <= i < s.len() && #[trigger] s[i].0 == k
}

/// The position of the entry for `k` (meaningful when `has_key(s, k)`).
pub open spec fn key_index<T>(s: Seq<(Seq<char>, T)>, k: Seq<char>) -> int {
    choose|i: int| 0 <= i < s.len() && #[trigger] s[i].0 == k
}

/// The value stored under `k`, if any.
pub open spec fn spec_lookup<T>(s: Seq<(Seq<char>, T)>, k: Seq<char>) -> Option<T> {
    if has_key(s, k) {
        Some(s[key_index(s, k)].1)
    } else {
        None
    }
}

/// The entries after storing `v` under `k`: an existing entry for `k` keeps
/// its place and takes the new value; otherwise the pair is appended.
pub open spec fn spec_insert<T>(s: Seq<(Seq<char>, T)>, k: Seq<char>, v: T) -> Seq<(Seq<char>, T)> {
    if has_key(s, k) {
        s.update(key_index(s, k), (k, v))
    } else {
        s.push((k, v))
    }
}

/// A map from identifiers to values that remembers the order in which
/// identifiers were first inserted. No identifier occurs twice.
pub struct IdMap<T> {
    entries: Vec<(String, T)>,
}

impl<T> View for IdMap<T> {
    type V = Seq<(Seq<char>, T)>;

    closed spec fn view(&self) -> Seq<(Seq<char>, T)> {
        self.entries@.map_values(|e: (String, T)| (e.0@, e.1))
    }
}

impl<T> IdMap<T> {
    #[verifier::type_invariant]
    closed spec fn inv(self) -> bool {
        keys_distinct(self@)
    }

    /// An empty map.
    pub fn new() -> (m: Self)
        ensures
            m@ == Seq::<(Seq<char>, T)>::empty(),
            keys_distinct(m@),
    {
        let m = IdMap { entries: Vec::new() };
        assert(m@ =~= Seq::<(Seq<char>, T)>::empty());
        m
    }

    /// The number of entries; no identifier occurs twice among them.
    pub fn len(&self) -> (n: usize)
        ensures
            n == self@.len(),
            keys_distinct(self@),
    {
        proof {
            use_type_invariant(self);
        }
        self.entries.len()
    }

    /// The identifier and value of the entry at position `i`.
    pub fn entry(&self, i: usize) -> (r: (&String, &T))
        requires
            i < self@.len(),
        ensures
            r.0@ == self@[i as int].0,
            *r.1 == self@[i as int].1,
    {
        let e = &self.entries[i];
        (&e.0, &e.1)
    }

    /// The position of the entry whose identifier is `id`, if there is one.
    fn position(&self, id: &String) -> (r: Option<usize>)
        ensures
            match r {
                Some(i) => i < self@.len() && self@[i as int].0 == id@,
                None => !has_key(self@, id@),
            },
    {
        let n = self.entries.len();
        let mut i: usize = 0;
        while i < n
            invariant
                n == self.entries@.len(),
                n == self@.len(),
                i <= n,
                forall|j: int| 0 <= j < i ==> #[trigger] self@[j].0 != id@,
            decreases n - i,
        {
            assert(self@[i as int].0 == self.entries@[i as int].0@);
            if self.entries[i].0 == *id {
                return Some(i);
            }
            i = i + 1;
        }
        None
    }

    /// The value stored under `id`, if any.
    pub fn get(&self, id: &String) -> (r: Option<&T>)
        ensures
            match r {
                Some(v) => spec_lookup(self@, id@) == Some(*v),
                None => spec_lookup(self@, id@) is None,
            },
    {
        proof {
            use_type_invariant(self);
        }
        match self.position(id) {
            Some(i) => {
                proof {
                    assert(key_index(self@, id@) == i as int);
                }
                Some(&self.entries[i].1)
            },
            None => None,
        }
    }

    /// Stores `value` under `id`, replacing the value an entry for `id`
    /// already had (that entry keeps its position).
    pub fn insert(&mut self, id: String, value: T)
        ensures
            final(self)@ == spec_insert(old(self)@, id@, value),
            keys_distinct(final(self)@),
    {
        proof {
            use_type_invariant(&*self);
        }
        let ghost old_view = self@;
        let pos = self.position(&id);
        let mut entries: Vec<(String, T)> = Vec::new();
        std::mem::swap(&mut entries, &mut self.entries);
        let ghost k = id@;
        match pos {
            Some(i) => {
                proof {
                    assert(key_index(old_view, k) == i as int);
                }
                entries.set(i, (id, value));
                proof {
                    let nv = entries@.map_values(|e: (String, T)| (e.0@, e.1));
                    assert(nv =~= old_view.update(i as int, (k, value)));
                }
            },
            None => {
                entries.push((id, value));
                proof {
                    let nv = entries@.map_values(|e: (String, T)| (e.0@, e.1));
                    assert(nv =~= old_view.push((k, value)));
                }
            },
        }
        self.entries = entries;
    }
}

/// Reading back what was just written: after storing `v` under `k`, the
/// value stored under `k` is `v`, and every other identifier keeps its value.
pub proof fn lemma_lookup_after_insert<T>(s: Seq<(Seq<char>, T)>, k: Seq<char>, v: T, other: Seq<char>)
    requires
        keys_distinct(s),
    ensures
        spec_lookup(spec_insert(s, k, v), k) == Some(v),
        other != k ==> spec_lookup(spec_insert(s, k, v), other) == spec_lookup(s, other),
{
    let t = spec_insert(s, k, v);
    if has_key(s, k) {
        let i = key_index(s, k);
        assert(t[i].0 == k);
        assert(has_key(t, k));
        assert(key_index(t, k) == i);
        if has_key(s, other) && other != k {
            let j = key_index(s, other);
            assert(t[j].0 == other);
            assert(key_index(t, other) == j);
        }
        if has_key(t, other) && other != k {
            let j = key_index(t, other);
            assert(s[j].0 == other);
        }
    } else {
        let n = s.len() as int;
        assert(t[n].0 == k);
        assert(has_key(t, k));
        if has_key(s, other) && other != k {
            let j = key_index(s, other);
            assert(t[j].0 == other);
        }
        if has_key(t, other) && other != k {
            let j = key_index(t, other);
            assert(s[j].0 == other);
        }
    }
}

/// Storing a value never duplicates an identifier, grows the map by one
/// entry exactly when the identifier was new, and leaves every other entry
/// where it was.
pub proof fn lemma_insert_shape<T>(s: Seq<(Seq<char>, T)>, k: Seq<char>, v: T)
    requires
        keys_distinct(s),
    ensures
        keys_distinct(spec_insert(s, k, v)),
        spec_insert(s, k, v).len() == if has_key(s, k) { s.len() } else { s.len() + 1 },
        forall|i: int| 0 <= i < s.len() && s[i].0 != k ==> #[trigger] spec_insert(s, k, v)[i] == s[i],
{
}

} // verus!
