//! A map keyed by strings that keeps its keys in insertion order.

use vstd::prelude::*;

use crate::text::{
    lemma_seq_lt_irreflexive, lemma_seq_lt_total, lemma_seq_lt_transitive, seq_lt, str_eq, str_lt,
};

verus! {

/// No key occurs twice.
pub open spec fn distinct_keys(s: Seq<Seq<char>>) -> bool {
    forall|i: int, j: int|
        0 <= i < s.len() && 0 <= j < s.len() && i != j ==> #[trigger] s[i] != #[trigger] s[j]
}

/// `s` without the occurrences of `k`, the others keeping their order.
pub open spec fn without(s: Seq<Seq<char>>, k: Seq<char>) -> Seq<Seq<char>>
    decreases s.len(),
{
    if s.len() == 0 {
        s
    } else if s.last() == k {
        without(s.drop_last(), k)
    } else {
        without(s.drop_last(), k).push(s.last())
    }
}

/// Removing a key that does not occur changes nothing.
pub proof fn lemma_without_absent(s: Seq<Seq<char>>, k: Seq<char>)
    requires
        !s.contains(k),
    ensures
        without(s, k) == s,
    decreases s.len(),
{
    if s.len() > 0 {
        assert(!s.drop_last().contains(k)) by {
            if s.drop_last().contains(k) {
                let j = choose|j: int| 0 <= j < s.drop_last().len() && s.drop_last()[j] == k;
                assert(s[j] == k);
            }
        }
        lemma_without_absent(s.drop_last(), k);
        assert(s.last() != k) by {
            assert(s[s.len() - 1] == s.last());
        }
        assert(s.drop_last().push(s.last()) =~= s);
    }
}

/// Removing the only occurrence of a key at `i` is removing position `i`.
pub proof fn lemma_without_at(s: Seq<Seq<char>>, k: Seq<char>, i: int)
    requires
        distinct_keys(s),
        0 <= i < s.len(),
        s[i] == k,
    ensures
        without(s, k) == s.remove(i),
    decreases s.len(),
{
    let d = s.drop_last();
    if i == s.len() - 1 {
        assert(!d.contains(k)) by {
            if d.contains(k) {
                let j = choose|j: int| 0 <= j < d.len() && d[j] == k;
                assert(s[j] == s[i]);
            }
        }
        lemma_without_absent(d, k);
        assert(s.remove(i) =~= d);
    } else {
        assert(distinct_keys(d)) by {
            assert forall|a: int, b: int|
                0 <= a < d.len() && 0 <= b < d.len() && a != b implies #[trigger] d[a]
                != #[trigger] d[b] by {
                assert(s[a] != s[b]);
            }
        }
        assert(d[i] == k);
        lemma_without_at(d, k, i);
        assert(s.last() != k) by {
            assert(s[s.len() - 1] != s[i]);
        }
        assert(s.remove(i) =~= d.remove(i).push(s.last()));
    }
}

/// Names strictly increasing in the order of [`seq_lt`].
pub open spec fn sorted_names(s: Seq<Seq<char>>) -> bool {
    forall|i: int, j: int| 0 <= i < j < s.len() ==> seq_lt(#[trigger] s[i], #[trigger] s[j])
}

spec fn keys_of<V>(s: Seq<(String, V)>) -> Seq<Seq<char>> {
    Seq::new(s.len(), |i: int| s[i].0@)
}

spec fn values_of<V>(s: Seq<(String, V)>) -> Seq<V> {
    Seq::new(s.len(), |i: int| s[i].1)
}

/// Map from strings to values that keeps its keys in the order in which
/// they were first inserted.
///
/// Its view is a `Map` from the keys' characters to the values; `key_seq`
/// gives the keys in that order.
#[derive(Debug, PartialEq, Eq)]
pub struct StringMap<V> {
    entries: Vec<(String, V)>,
}

impl<V> StringMap<V> {
    /// The keys, in insertion order.
    pub closed spec fn key_seq(self) -> Seq<Seq<char>> {
        keys_of(self.entries@)
    }

    /// The values, in the order of their keys.
    pub closed spec fn value_seq(self) -> Seq<V> {
        values_of(self.entries@)
    }

    #[verifier::type_invariant]
    closed spec fn keys_distinct(self) -> bool {
        distinct_keys(self.key_seq())
    }

    /// How the view, the keys and the values relate.
    pub open spec fn laid_out(self) -> bool {
        &&& distinct_keys(self.key_seq())
        &&& self.key_seq().len() == self.value_seq().len()
        &&& forall|k: Seq<char>| #[trigger]
            self@.dom().contains(k) <==> self.key_seq().contains(k)
        &&& forall|i: int|
            0 <= i < self.key_seq().len() ==> #[trigger] self@[self.key_seq()[i]]
                == self.value_seq()[i]
    }

    proof fn lemma_laid_out(self)
        requires
            self.keys_distinct(),
        ensures
            self.laid_out(),
    {
        let ks = self.key_seq();
        assert forall|i: int| 0 <= i < ks.len() implies #[trigger] self@[ks[i]]
            == self.value_seq()[i] by {
            assert(ks.contains(ks[i]));
            let j = ks.index_of(ks[i]);
            assert(0 <= j < ks.len() && ks[j] == ks[i]);
        }
    }

    /// An empty map.
    pub fn new() -> (r: Self)
        ensures
            r@ == Map::<Seq<char>, V>::empty(),
            r.key_seq() == Seq::<Seq<char>>::empty(),
            r.laid_out(),
    {
        let r = StringMap { entries: Vec::new() };
        assert(r.key_seq() =~= Seq::<Seq<char>>::empty());
        assert(r@ =~= Map::<Seq<char>, V>::empty());
        proof {
            r.lemma_laid_out();
        }
        r
    }

    /// Number of entries; also states how the view, keys and values relate.
    pub fn len(&self) -> (r: usize)
        ensures
            r == self.key_seq().len(),
            self.laid_out(),
    {
        proof {
            use_type_invariant(self);
            self.lemma_laid_out();
        }
        self.entries.len()
    }

    /// Whether the map is empty.
    pub fn is_empty(&self) -> (r: bool)
        ensures
            r == (self@.dom() == Set::<Seq<char>>::empty()),
            self.laid_out(),
    {
        let n = self.len();
        if n > 0 {
            assert(self@.dom().contains(self.key_seq()[0]));
        } else {
            assert(self@.dom() =~= Set::<Seq<char>>::empty());
        }
        n == 0
    }

    /// The key of the `i`-th entry.
    pub fn key_at(&self, i: usize) -> (r: &String)
        requires
            i < self.key_seq().len(),
        ensures
            r@ == self.key_seq()[i as int],
    {
        &self.entries[i].0
    }

    /// The value of the `i`-th entry.
    pub fn value_at(&self, i: usize) -> (r: &V)
        requires
            i < self.key_seq().len(),
        ensures
            *r == self.value_seq()[i as int],
    {
        &self.entries[i].1
    }

    /// Position of `k`, if it is a key.
    fn find(&self, k: &str) -> (r: Option<usize>)
        ensures
            r matches Some(p) ==> p < self.key_seq().len() && self.key_seq()[p as int] == k@,
            r is None ==> !self.key_seq().contains(k@),
            self.laid_out(),
    {
        let n = self.len();
        let mut p: usize = 0;
        while p < n
            invariant
                n == self.key_seq().len(),
                p <= n,
                self.laid_out(),
                forall|j: int| 0 <= j < p ==> #[trigger] self.key_seq()[j] != k@,
            decreases n - p,
        {
            if str_eq(self.entries[p].0.as_str(), k) {
                return Some(p);
            }
            p = p + 1;
        }
        None
    }

    /// Whether `k` is a key.
    pub fn contains_key(&self, k: &str) -> (r: bool)
        ensures
            r == self@.dom().contains(k@),
    {
        match self.find(k) {
            Some(p) => {
                assert(self.key_seq().contains(k@));
                true
            },
            None => false,
        }
    }

    /// The value at `k`, if any.
    pub fn get(&self, k: &str) -> (r: Option<&V>)
        ensures
            r matches Some(v) ==> self@.dom().contains(k@) && *v == self@[k@],
            r is None ==> !self@.dom().contains(k@),
    {
        match self.find(k) {
            Some(p) => {
                assert(self.key_seq().contains(k@));
                Some(&self.entries[p].1)
            },
            None => None,
        }
    }

    /// Sets the value at `k`, replacing any previous one; a new key comes
    /// last, an existing one keeps its place.
    pub fn insert(&mut self, k: String, v: V)
        ensures
            final(self)@ == old(self)@.insert(k@, v),
            old(self)@.dom().contains(k@) ==> final(self).key_seq() == old(self).key_seq(),
            !old(self)@.dom().contains(k@) ==> final(self).key_seq() == old(self).key_seq().push(
                k@,
            ),
    {
        let found = self.find(k.as_str());
        let ghost old_ks = self.key_seq();
        let ghost old_vs = self.value_seq();
        let ghost old_view = self@;
        let ghost kv = k@;
        let mut ents: Vec<(String, V)> = Vec::new();
        std::mem::swap(&mut ents, &mut self.entries);
        assert(keys_of(ents@) == old_ks);
        assert(values_of(ents@) == old_vs);
        match found {
            Some(p) => {
                ents.set(p, (k, v));
                proof {
                    assert(keys_of(ents@) =~= old_ks);
                    assert(values_of(ents@) =~= old_vs.update(p as int, v));
                }
            },
            None => {
                ents.push((k, v));
                proof {
                    assert(keys_of(ents@) =~= old_ks.push(kv));
                    assert(values_of(ents@) =~= old_vs.push(v));
                    let ks = keys_of(ents@);
                    assert forall|i: int, j: int|
                        0 <= i < ks.len() && 0 <= j < ks.len() && i != j implies #[trigger] ks[i]
                        != #[trigger] ks[j] by {
                        if i == old_ks.len() {
                            assert(old_ks[j] == ks[j]);
                            assert(old_ks.contains(old_ks[j]));
                        } else if j == old_ks.len() {
                            assert(old_ks[i] == ks[i]);
                            assert(old_ks.contains(old_ks[i]));
                        } else {
                            assert(old_ks[i] != old_ks[j]);
                        }
                    }
                }
            },
        }
        self.entries = ents;
        proof {
            use_type_invariant(&*self);
            self.lemma_laid_out();
            let ks = self.key_seq();
            let vs = self.value_seq();
            let p: int = match found {
                Some(p) => p as int,
                None => old_ks.len() as int,
            };
            assert(ks[p] == kv);
            assert forall|x: Seq<char>| #[trigger] self@.dom().contains(x) == old_view.insert(
                kv,
                v,
            ).dom().contains(x) by {
                if old_ks.contains(x) {
                    let j = choose|j: int| 0 <= j < old_ks.len() && old_ks[j] == x;
                    assert(ks[j] == x);
                }
                if ks.contains(x) && x != kv {
                    let j = choose|j: int| 0 <= j < ks.len() && ks[j] == x;
                    assert(j != p);
                    assert(old_ks[j] == x);
                }
            }
            assert forall|x: Seq<char>| #[trigger] self@.dom().contains(x) implies self@[x]
                == old_view.insert(kv, v)[x] by {
                let j = choose|j: int| 0 <= j < ks.len() && ks[j] == x;
                assert(self@[ks[j]] == vs[j]);
                if x != kv {
                    assert(j != p);
                    assert(old_view[old_ks[j]] == old_vs[j]);
                } else {
                    assert(j == p);
                }
            }
            assert(self@ =~= old_view.insert(kv, v));
            if found is None {
                assert(!old_ks.contains(kv));
            }
        }
    }

    /// Removes `k` and returns its value, if any; the other keys keep their
    /// order.
    pub fn remove(&mut self, k: &str) -> (r: Option<V>)
        ensures
            final(self)@ == old(self)@.remove(k@),
            final(self).key_seq() == without(old(self).key_seq(), k@),
            r matches Some(v) ==> old(self)@.dom().contains(k@) && v == old(self)@[k@],
            r is None ==> !old(self)@.dom().contains(k@),
    {
        let found = self.find(k);
        let ghost old_ks = self.key_seq();
        let ghost old_vs = self.value_seq();
        let ghost old_view = self@;
        match found {
            Some(p) => {
                let mut ents: Vec<(String, V)> = Vec::new();
                std::mem::swap(&mut ents, &mut self.entries);
                assert(keys_of(ents@) == old_ks);
                let (_, v) = ents.remove(p);
                proof {
                    assert(keys_of(ents@) =~= old_ks.remove(p as int));
                    assert(values_of(ents@) =~= old_vs.remove(p as int));
                    let ks = keys_of(ents@);
                    assert forall|i: int, j: int|
                        0 <= i < ks.len() && 0 <= j < ks.len() && i != j implies #[trigger] ks[i]
                        != #[trigger] ks[j] by {
                        let oi = if i < p { i } else { i + 1 };
                        let oj = if j < p { j } else { j + 1 };
                        assert(old_ks[oi] != old_ks[oj]);
                    }
                }
                self.entries = ents;
                proof {
                    let ks = self.key_seq();
                    use_type_invariant(&*self);
                    self.lemma_laid_out();
                    lemma_without_at(old_ks, k@, p as int);
                    let vs = self.value_seq();
                    assert(old_view[old_ks[p as int]] == old_vs[p as int]);
                    assert forall|x: Seq<char>| #[trigger] self@.dom().contains(x)
                        == old_view.remove(k@).dom().contains(x) by {
                        if old_ks.contains(x) && x != k@ {
                            let j = choose|j: int| 0 <= j < old_ks.len() && old_ks[j] == x;
                            if j < p {
                                assert(ks[j] == x);
                            } else {
                                assert(j != p);
                                assert(ks[j - 1] == x);
                            }
                        }
                        if ks.contains(x) {
                            let j = choose|j: int| 0 <= j < ks.len() && ks[j] == x;
                            let oj = if j < p { j } else { j + 1 };
                            assert(old_ks[oj] == x);
                            assert(old_ks[oj] != old_ks[p as int]);
                        }
                    }
                    assert forall|x: Seq<char>| #[trigger] self@.dom().contains(x) implies self@[x]
                        == old_view.remove(k@)[x] by {
                        let j = choose|j: int| 0 <= j < ks.len() && ks[j] == x;
                        assert(self@[ks[j]] == vs[j]);
                        if j < p {
                            assert(old_view[old_ks[j]] == old_vs[j]);
                        } else {
                            assert(old_view[old_ks[j + 1]] == old_vs[j + 1]);
                        }
                    }
                    assert(self@ =~= old_view.remove(k@));
                }
                Some(v)
            },
            None => {
                proof {
                    lemma_without_absent(old_ks, k@);
                    assert(self@ =~= old_view.remove(k@));
                }
                None
            },
        }
    }

    /// The keys, in increasing order.
    pub fn names_in_order(&self) -> (r: Vec<String>)
        ensures
            r@.len() == self.key_seq().len(),
            sorted_names(crate::args::strs(r@)),
            forall|k: Seq<char>| #[trigger]
                self@.dom().contains(k) <==> crate::args::strs(r@).contains(k),
    {
        let n = self.len();
        let ghost ks = self.key_seq();
        let mut out: Vec<String> = Vec::new();
        let mut i: usize = 0;
        while i < n
            invariant
                n == ks.len(),
                ks == self.key_seq(),
                self.laid_out(),
                i <= n,
                out@.len() == i,
                sorted_names(crate::args::strs(out@)),
                forall|k: Seq<char>| #[trigger]
                    crate::args::strs(out@).contains(k) <==> ks.subrange(0, i as int).contains(k),
            decreases n - i,
        {
            let key = self.key_at(i);
            let ghost kv = key@;
            let ghost before = crate::args::strs(out@);
            assert(!before.contains(kv)) by {
                if before.contains(kv) {
                    let j = choose|j: int| 0 <= j < i && ks.subrange(0, i as int)[j] == kv;
                    assert(ks[j] == ks[i as int]);
                }
            }
            let mut p: usize = 0;
            while p < out.len() && str_lt(out[p].as_str(), key.as_str())
                invariant
                    p <= out@.len(),
                    kv == key@,
                    before == crate::args::strs(out@),
                    forall|j: int| 0 <= j < p ==> seq_lt(#[trigger] before[j], kv),
                decreases out@.len() - p,
            {
                p = p + 1;
            }
            proof {
                if p < before.len() {
                    lemma_seq_lt_total(before[p as int], kv);
                    assert(before[p as int] != kv);
                    assert forall|j: int| p <= j < before.len() implies seq_lt(
                        kv,
                        #[trigger] before[j],
                    ) by {
                        if j > p {
                            lemma_seq_lt_transitive(kv, before[p as int], before[j]);
                        }
                    }
                }
            }
            out.insert(p, String::from_str(key.as_str()));
            proof {
                let after = crate::args::strs(out@);
                assert(after =~= before.insert(p as int, kv));
                assert forall|a: int, b: int| 0 <= a < b < after.len() implies seq_lt(
                    #[trigger] after[a],
                    #[trigger] after[b],
                ) by {
                    if b < p {
                    } else if b == p {
                    } else if a < p {
                        lemma_seq_lt_transitive(before[a], kv, before[b - 1]);
                    } else if a == p {
                    } else {
                    }
                }
                let sub0 = ks.subrange(0, i as int);
                let sub1 = ks.subrange(0, i + 1);
                assert forall|k: Seq<char>| #[trigger]
                    after.contains(k) <==> sub1.contains(k) by {
                    if after.contains(k) {
                        let j = choose|j: int| 0 <= j < after.len() && after[j] == k;
                        if j < p {
                            assert(before[j] == k);
                            assert(before.contains(k));
                            let m = choose|m: int| 0 <= m < i && #[trigger] sub0[m] == k;
                            assert(sub1[m] == k);
                        } else if j == p {
                            assert(sub1[i as int] == k);
                        } else {
                            assert(before[j - 1] == k);
                            assert(before.contains(k));
                            let m = choose|m: int| 0 <= m < i && #[trigger] sub0[m] == k;
                            assert(sub1[m] == k);
                        }
                    }
                    if sub1.contains(k) {
                        let m = choose|m: int| 0 <= m < i + 1 && #[trigger] sub1[m] == k;
                        if m == i {
                            assert(after[p as int] == k);
                        } else {
                            assert(sub0[m] == k);
                            assert(before.contains(k));
                            let j = choose|j: int| 0 <= j < before.len() && before[j] == k;
                            if j < p {
                                assert(after[j] == k);
                            } else {
                                assert(after[j + 1] == k);
                            }
                        }
                    }
                }
            }
            i = i + 1;
        }
        proof {
            assert(ks.subrange(0, n as int) =~= ks);
        }
        out
    }

    /// The entries, in the map's order.
    pub fn into_entries(self) -> (r: Vec<(String, V)>)
        ensures
            r@.len() == self.key_seq().len(),
            forall|i: int|
                0 <= i < r@.len() ==> (#[trigger] r@[i]).0@ == self.key_seq()[i] && r@[i].1
                    == self.value_seq()[i],
            self.laid_out(),
    {
        proof {
            use_type_invariant(&self);
            self.lemma_laid_out();
        }
        self.entries
    }
}

impl<V> View for StringMap<V> {
    type V = Map<Seq<char>, V>;

    closed spec fn view(&self) -> Map<Seq<char>, V> {
        Map::new(
            |k: Seq<char>| self.key_seq().contains(k),
            |k: Seq<char>| self.value_seq()[self.key_seq().index_of(k)],
        )
    }
}

} // verus!
