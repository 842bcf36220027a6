use vstd::prelude::*;

verus! {

/// No two pairs of `s` carry the same key text.
pub open spec fn keys_distinct<V>(s: Seq<(String, V)>) -> bool {
    forall|i: int, j: int|
        #![trigger s[i], s[j]]
        0 <= i < s.len() && 0 <= j < s.len() && i != j ==> s[i].0@ != s[j].0@
}

/// Some pair of `s` carries key `k`.
pub open spec fn has_key<V>(s: Seq<(String, V)>, k: Seq<char>) -> bool {
    exists|i: int| 0 <= i < s.len() && #[trigger] s[i].0@ == k
}

/// The map that a sequence of pairs with distinct keys stands for.
pub open spec fn pairs_view<V: View>(s: Seq<(String, V)>) -> Map<Seq<char>, V::V> {
    Map::new(
        |k: Seq<char>| has_key(s, k),
        |k: Seq<char>| s[choose|i: int| 0 <= i < s.len() && #[trigger] s[i].0@ == k].1@,
    )
}

pub proof fn lemma_pairs_view_at<V: View>(s: Seq<(String, V)>, i: int)
    requires
        keys_distinct(s),
        0 <= i < s.len(),
    ensures
        pairs_view(s).contains_key(s[i].0@),
        pairs_view(s)[s[i].0@] == s[i].1@,
{
    let k = s[i].0@;
    assert(has_key(s, k));
    let j = choose|j: int| 0 <= j < s.len() && #[trigger] s[j].0@ == k;
    assert(s[j].0@ == k);
    if j != i {
        assert(s[i].0@ != s[j].0@);
    }
}

pub proof fn lemma_pairs_view_absent<V: View>(s: Seq<(String, V)>, k: Seq<char>)
    requires
        forall|i: int| 0 <= i < s.len() ==> #[trigger] s[i].0@ != k,
    ensures
        !pairs_view(s).contains_key(k),
{
}

pub proof fn lemma_pairs_view_push<V: View>(s: Seq<(String, V)>, p: (String, V))
    requires
        keys_distinct(s),
        !has_key(s, p.0@),
    ensures
        keys_distinct(s.push(p)),
        pairs_view(s.push(p)) == pairs_view(s).insert(p.0@, p.1@),
{
    let t = s.push(p);
    assert forall|i: int, j: int| 0 <= i < t.len() && 0 <= j < t.len() && i != j implies #[trigger] t[i].0@
        != #[trigger] t[j].0@ by {
        if i < s.len() && j < s.len() {
            assert(t[i] == s[i] && t[j] == s[j]);
        } else if i < s.len() {
            assert(t[i] == s[i]);
        } else {
            assert(t[j] == s[j]);
        }
    }
    let a = pairs_view(t);
    let b = pairs_view(s).insert(p.0@, p.1@);
    assert forall|k: Seq<char>| a.contains_key(k) <==> b.contains_key(k) by {
        if has_key(s, k) {
            let i = choose|i: int| 0 <= i < s.len() && #[trigger] s[i].0@ == k;
            assert(t[i] == s[i]);
        }
        if has_key(t, k) {
            let i = choose|i: int| 0 <= i < t.len() && #[trigger] t[i].0@ == k;
            if i < s.len() {
                assert(t[i] == s[i]);
            }
        }
        if k == p.0@ {
            assert(t[s.len() as int] == p);
        }
    }
    assert forall|k: Seq<char>| #[trigger] a.contains_key(k) implies a[k] == b[k] by {
        let i = choose|i: int| 0 <= i < t.len() && #[trigger] t[i].0@ == k;
        lemma_pairs_view_at(t, i);
        if i < s.len() {
            assert(t[i] == s[i]);
            lemma_pairs_view_at(s, i);
        }
    }
    assert(a =~= b);
}

pub proof fn lemma_pairs_view_update<V: View>(s: Seq<(String, V)>, i: int, p: (String, V))
    requires
        keys_distinct(s),
        0 <= i < s.len(),
        s[i].0@ == p.0@,
    ensures
        keys_distinct(s.update(i, p)),
        pairs_view(s.update(i, p)) == pairs_view(s).insert(p.0@, p.1@),
{
    let t = s.update(i, p);
    assert forall|a: int, b: int| 0 <= a < t.len() && 0 <= b < t.len() && a != b implies #[trigger] t[a].0@
        != #[trigger] t[b].0@ by {
        assert(s[a].0@ == t[a].0@);
        assert(s[b].0@ == t[b].0@);
        assert(s[a].0@ != s[b].0@);
    }
    let x = pairs_view(t);
    let y = pairs_view(s).insert(p.0@, p.1@);
    assert forall|k: Seq<char>| x.contains_key(k) <==> y.contains_key(k) by {
        if has_key(s, k) {
            let j = choose|j: int| 0 <= j < s.len() && #[trigger] s[j].0@ == k;
            assert(t[j].0@ == k);
        }
        if has_key(t, k) {
            let j = choose|j: int| 0 <= j < t.len() && #[trigger] t[j].0@ == k;
            assert(s[j].0@ == k);
        }
        if k == p.0@ {
            assert(t[i].0@ == k);
        }
    }
    assert forall|k: Seq<char>| #[trigger] x.contains_key(k) implies x[k] == y[k] by {
        let j = choose|j: int| 0 <= j < t.len() && #[trigger] t[j].0@ == k;
        lemma_pairs_view_at(t, j);
        if j != i {
            assert(t[j] == s[j]);
            lemma_pairs_view_at(s, j);
        }
    }
    assert(x =~= y);
}

pub proof fn lemma_pairs_view_remove<V: View>(s: Seq<(String, V)>, i: int)
    requires
        keys_distinct(s),
        0 <= i < s.len(),
    ensures
        keys_distinct(s.remove(i)),
        pairs_view(s.remove(i)) == pairs_view(s).remove(s[i].0@),
{
    let t = s.remove(i);
    let k0 = s[i].0@;
    assert forall|a: int, b: int| 0 <= a < t.len() && 0 <= b < t.len() && a != b implies #[trigger] t[a].0@
        != #[trigger] t[b].0@ by {
        let a1 = if a < i { a } else { a + 1 };
        let b1 = if b < i { b } else { b + 1 };
        assert(t[a] == s[a1]);
        assert(t[b] == s[b1]);
        assert(s[a1].0@ != s[b1].0@);
    }
    let x = pairs_view(t);
    let y = pairs_view(s).remove(k0);
    assert forall|k: Seq<char>| x.contains_key(k) <==> y.contains_key(k) by {
        if has_key(s, k) && k != k0 {
            let j = choose|j: int| 0 <= j < s.len() && #[trigger] s[j].0@ == k;
            assert(j != i);
            let j1 = if j < i { j } else { j - 1 };
            assert(t[j1] == s[j]);
        }
        if has_key(t, k) {
            let j = choose|j: int| 0 <= j < t.len() && #[trigger] t[j].0@ == k;
            let j1 = if j < i { j } else { j + 1 };
            assert(t[j] == s[j1]);
            assert(j1 != i);
            assert(s[j1].0@ != s[i].0@);
        }
    }
    assert forall|k: Seq<char>| #[trigger] x.contains_key(k) implies x[k] == y[k] by {
        let j = choose|j: int| 0 <= j < t.len() && #[trigger] t[j].0@ == k;
        lemma_pairs_view_at(t, j);
        let j1 = if j < i { j } else { j + 1 };
        assert(t[j] == s[j1]);
        lemma_pairs_view_at(s, j1);
    }
    assert(x =~= y);
}

/// A finite map from text keys to values, kept as a vector of pairs whose keys
/// are all different.
pub struct StringMap<V> {
    pub(crate) entries: Vec<(String, V)>,
}

impl<V: View> View for StringMap<V> {
    type V = Map<Seq<char>, V::V>;

    closed spec fn view(&self) -> Map<Seq<char>, V::V> {
        pairs_view(self.entries@)
    }
}

impl<V> StringMap<V> {
    #[verifier::type_invariant]
    pub closed spec fn inv(self) -> bool {
        keys_distinct(self.entries@)
    }
}

impl<V: View> StringMap<V> {
    /// The map is what its pairs stand for.
    pub(crate) proof fn lemma_view_is_pairs(&self)
        ensures
            self@ == pairs_view(self.entries@),
    {
    }

    /// The invariant, spelled out.
    pub(crate) proof fn lemma_inv(&self)
        requires
            self.inv(),
        ensures
            keys_distinct(self.entries@),
    {
    }

    /// The empty map.
    pub fn new() -> (m: Self)
        ensures
            m@ == Map::<Seq<char>, V::V>::empty(),
    {
        let m = StringMap { entries: Vec::new() };
        assert(m@ =~= Map::<Seq<char>, V::V>::empty());
        m
    }

    /// Position of the pair that holds `key`, if any.
    fn position(&self, key: &String) -> (r: Option<usize>)
        ensures
            match r {
                Some(i) => i < self.entries@.len() && self.entries@[i as int].0@ == key@,
                None => forall|j: int| 0 <= j < self.entries@.len() ==> #[trigger] self.entries@[j].0@ != key@,
            },
    {
        let n = self.entries.len();
        let mut i: usize = 0;
        while i < n
            invariant
                n == self.entries@.len(),
                i <= n,
                forall|j: int| 0 <= j < i ==> #[trigger] self.entries@[j].0@ != key@,
            decreases n - i,
        {
            if self.entries[i].0 == *key {
                return Some(i);
            }
            i = i + 1;
        }
        None
    }

    /// The value stored under `key`.
    pub fn get(&self, key: &String) -> (r: Option<&V>)
        ensures
            r is Some <==> self@.contains_key(key@),
            r matches Some(v) ==> v@ == self@[key@],
    {
        proof {
            use_type_invariant(self);
        }
        match self.position(key) {
            Some(i) => {
                proof {
                    lemma_pairs_view_at(self.entries@, i as int);
                }
                Some(&self.entries[i].1)
            },
            None => {
                proof {
                    lemma_pairs_view_absent(self.entries@, key@);
                }
                None
            },
        }
    }

    /// Whether some value is stored under `key`.
    pub fn contains_key(&self, key: &String) -> (r: bool)
        ensures
            r == self@.contains_key(key@),
    {
        self.get(key).is_some()
    }

    /// Stores `value` under `key`, replacing what was stored there before.
    pub fn insert(&mut self, key: String, value: V)
        ensures
            final(self)@ == old(self)@.insert(key@, value@),
    {
        proof {
            use_type_invariant(&*self);
        }
        match self.position(&key) {
            Some(i) => {
                proof {
                    lemma_pairs_view_update(self.entries@, i as int, (key, value));
                }
                let mut entries = Vec::new();
                std::mem::swap(&mut entries, &mut self.entries);
                entries.set(i, (key, value));
                self.entries = entries;
            },
            None => {
                proof {
                    if has_key(self.entries@, key@) {
                        let j = choose|j: int|
                            0 <= j < self.entries@.len() && #[trigger] self.entries@[j].0@ == key@;
                        assert(self.entries@[j].0@ != key@);
                    }
                    lemma_pairs_view_push(self.entries@, (key, value));
                }
                let mut entries = Vec::new();
                std::mem::swap(&mut entries, &mut self.entries);
                entries.push((key, value));
                self.entries = entries;
            },
        }
    }

    /// Stores every pair of `other`, replacing what `self` held under the
    /// same keys.
    pub fn extend(&mut self, other: StringMap<V>)
        ensures
            final(self)@ == old(self)@.union_prefer_right(other@),
    {
        proof {
            use_type_invariant(&other);
        }
        let ghost target = self@.union_prefer_right(other@);
        let StringMap { entries: mut rest } = other;
        while rest.len() > 0
            invariant
                keys_distinct(rest@),
                self@.union_prefer_right(pairs_view(rest@)) == target,
            decreases rest@.len(),
        {
            let ghost before = rest@;
            let last = rest.pop();
            match last {
                Some(p) => {
                    proof {
                        assert(before =~= rest@.push(p));
                        assert(keys_distinct(rest@)) by {
                            assert forall|i: int, j: int|
                                0 <= i < rest@.len() && 0 <= j < rest@.len() && i != j implies #[trigger] rest@[i].0@
                                != #[trigger] rest@[j].0@ by {
                                assert(rest@[i] == before[i] && rest@[j] == before[j]);
                            }
                        }
                        if has_key(rest@, p.0@) {
                            let j = choose|j: int| 0 <= j < rest@.len() && #[trigger] rest@[j].0@ == p.0@;
                            assert(before[j] == rest@[j]);
                            assert(before[before.len() - 1] == p);
                        }
                        lemma_pairs_view_push(rest@, p);
                        assert(!pairs_view(rest@).contains_key(p.0@));
                    }
                    let ghost old_self = self@;
                    self.insert(p.0, p.1);
                    proof {
                        assert(self@.union_prefer_right(pairs_view(rest@)) =~= old_self.union_prefer_right(
                            pairs_view(before),
                        ));
                    }
                },
                None => {},
            }
        }
        proof {
            assert(pairs_view(rest@) =~= Map::<Seq<char>, V::V>::empty());
            assert(self@.union_prefer_right(pairs_view(rest@)) =~= self@);
        }
    }

    /// Drops what is stored under `key`, if anything.
    pub fn remove(&mut self, key: &String)
        ensures
            final(self)@ == old(self)@.remove(key@),
    {
        proof {
            use_type_invariant(&*self);
        }
        match self.position(key) {
            Some(i) => {
                proof {
                    lemma_pairs_view_remove(self.entries@, i as int);
                }
                let mut entries = Vec::new();
                std::mem::swap(&mut entries, &mut self.entries);
                entries.remove(i);
                self.entries = entries;
            },
            None => {
                proof {
                    lemma_pairs_view_absent(self.entries@, key@);
                    assert(self@.remove(key@) =~= self@);
                }
            },
        }
    }
}

/// After `insert(k, v)`, `get(k)` gives `v`; after `remove(k)`, `get(k)`
/// gives nothing; either leaves every other key as it was.
pub proof fn lemma_get_after_update<V>(m: Map<Seq<char>, V>, k: Seq<char>, v: V)
    ensures
        m.insert(k, v).contains_key(k) && m.insert(k, v)[k] == v,
        !m.remove(k).contains_key(k),
        forall|other: Seq<char>|
            other != k ==> (#[trigger] m.insert(k, v).contains_key(other) == m.contains_key(other)
                && m.remove(k).contains_key(other) == m.contains_key(other) && (m.contains_key(other)
                ==> m.insert(k, v)[other] == m[other] && m.remove(k)[other] == m[other])),
{
}

} // verus!
