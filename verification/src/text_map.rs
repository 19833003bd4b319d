//! A map from text keys to values that keeps its entries ordered by key, as a
//! JSON object of `serde_json` (a `BTreeMap<String, _>`) does: a later insert
//! under the same key replaces the earlier value, and iteration visits the
//! keys in ascending order.
use vstd::prelude::*;
use crate::text::{chars_eq, chars_of, lemma_text_lt_irreflexive, lemma_text_lt_total, lemma_text_lt_transitive, text_lt};

verus! {

/// Whether the keys of `ps` ascend strictly.
pub open spec fn sorted_pairs<V>(ps: Seq<(Seq<char>, V)>) -> bool {
    forall|i: int, j: int| 0 <= i < j < ps.len() ==> text_lt(#[trigger] ps[i].0, #[trigger] ps[j].0)
}

/// Whether `k` is a key of `ps`.
pub open spec fn has_key<V>(ps: Seq<(Seq<char>, V)>, k: Seq<char>) -> bool {
    exists|i: int| 0 <= i < ps.len() && #[trigger] ps[i].0 == k
}

/// The map that the pairs `ps` stand for.
pub open spec fn map_of<V>(ps: Seq<(Seq<char>, V)>) -> Map<Seq<char>, V> {
    Map::new(
        |k: Seq<char>| has_key(ps, k),
        |k: Seq<char>| ps[choose|i: int| 0 <= i < ps.len() && #[trigger] ps[i].0 == k].1,
    )
}

/// In sorted pairs, the entry at `i` is what the map holds for its key.
pub proof fn lemma_map_of_at<V>(ps: Seq<(Seq<char>, V)>, i: int)
    requires
        sorted_pairs(ps),
        0 <= i < ps.len(),
    ensures
        map_of(ps).dom().contains(ps[i].0),
        map_of(ps)[ps[i].0] == ps[i].1,
{
    assert(has_key(ps, ps[i].0));
    let j = choose|j: int| 0 <= j < ps.len() && #[trigger] ps[j].0 == ps[i].0;
    if j < i {
        lemma_text_lt_irreflexive(ps[i].0);
        assert(text_lt(ps[j].0, ps[i].0));
    } else if i < j {
        lemma_text_lt_irreflexive(ps[i].0);
        assert(text_lt(ps[i].0, ps[j].0));
    }
}

/// A map from text keys to values, ordered by key.
pub struct TextMap<V> {
    entries: Vec<(String, V)>,
}

impl<V> TextMap<V> {
    /// The entries, keys taken by their characters, in ascending key order.
    pub closed spec fn pairs(&self) -> Seq<(Seq<char>, V)> {
        self.entries@.map_values(|e: (String, V)| (e.0@, e.1))
    }

    /// The entries ascend strictly by key.
    pub open spec fn wf(&self) -> bool {
        sorted_pairs(self.pairs())
    }

    /// The map the entries stand for.
    pub open spec fn view(&self) -> Map<Seq<char>, V> {
        map_of(self.pairs())
    }

    /// The entry at `i` is what the map holds for its key.
    pub proof fn lemma_at(&self, i: int)
        requires
            self.wf(),
            0 <= i < self.pairs().len(),
        ensures
            self@.dom().contains(self.pairs()[i].0),
            self@[self.pairs()[i].0] == self.pairs()[i].1,
    {
        lemma_map_of_at(self.pairs(), i);
    }

    /// An empty map.
    pub fn new() -> (res: Self)
        ensures
            res.wf(),
            res.pairs() == Seq::<(Seq<char>, V)>::empty(),
            res@ == Map::<Seq<char>, V>::empty(),
    {
        let res = TextMap { entries: Vec::new() };
        assert(res.pairs() =~= Seq::<(Seq<char>, V)>::empty());
        assert(res@ =~= Map::<Seq<char>, V>::empty());
        res
    }

    /// The number of entries.
    pub fn len(&self) -> (res: usize)
        ensures
            res == self.pairs().len(),
    {
        self.entries.len()
    }

    /// The key of the entry at `i`.
    pub fn key_at(&self, i: usize) -> (res: &String)
        requires
            i < self.pairs().len(),
        ensures
            res@ == self.pairs()[i as int].0,
    {
        &self.entries[i].0
    }

    /// The value of the entry at `i`.
    pub fn value_at(&self, i: usize) -> (res: &V)
        requires
            i < self.pairs().len(),
        ensures
            *res == self.pairs()[i as int].1,
    {
        &self.entries[i].1
    }

    /// The first position whose key is not below `k`, and whether that key is `k`.
    fn locate(&self, k: &[char]) -> (res: (usize, bool))
        ensures
            res.0 <= self.pairs().len(),
            forall|j: int| 0 <= j < res.0 ==> text_lt(#[trigger] self.pairs()[j].0, k@),
            res.0 < self.pairs().len() ==> !text_lt(self.pairs()[res.0 as int].0, k@),
            res.1 == (res.0 < self.pairs().len() && self.pairs()[res.0 as int].0 == k@),
    {
        let n = self.entries.len();
        let mut i: usize = 0;
        while i < n
            invariant
                n == self.pairs().len(),
                i <= n,
                forall|j: int| 0 <= j < i ==> text_lt(#[trigger] self.pairs()[j].0, k@),
            decreases n - i,
        {
            let key = chars_of(self.entries[i].0.as_str());
            if !chars_lt(key.as_slice(), k) {
                let same = chars_eq(key.as_slice(), k);
                return (i, same);
            }
            i = i + 1;
        }
        (n, false)
    }

    /// The position of the entry with key `k`, if there is one.
    pub fn find(&self, k: &str) -> (res: Option<usize>)
        ensures
            self.wf() ==> (res is Some == self@.dom().contains(k@)),
            res matches Some(i) ==> i < self.pairs().len() && self.pairs()[i as int].0 == k@,
    {
        let kv = chars_of(k);
        let (i, same) = self.locate(kv.as_slice());
        if same {
            Some(i)
        } else {
            proof {
                if self.wf() && self@.dom().contains(k@) {
                    let j = choose|j: int| 0 <= j < self.pairs().len() && #[trigger] self.pairs()[j].0 == k@;
                    lemma_text_lt_irreflexive(k@);
                    if j < i {
                        assert(text_lt(self.pairs()[j].0, k@));
                    } else if j > i {
                        assert(text_lt(self.pairs()[i as int].0, self.pairs()[j].0));
                        lemma_text_lt_total(self.pairs()[i as int].0, k@);
                    }
                }
            }
            None
        }
    }

    /// The value under `k`, if there is one.
    pub fn get(&self, k: &str) -> (res: Option<&V>)
        ensures
            self.wf() ==> (res is Some == self@.dom().contains(k@)),
            self.wf() ==> (res matches Some(v) ==> *v == self@[k@]),
    {
        match self.find(k) {
            Some(i) => {
                proof {
                    if self.wf() {
                        self.lemma_at(i as int);
                    }
                }
                Some(&self.entries[i].1)
            },
            None => None,
        }
    }

    /// Puts `v` under `k`, replacing what was there.
    pub fn insert(&mut self, k: String, v: V)
        requires
            old(self).wf(),
        ensures
            final(self).wf(),
            final(self)@ == old(self)@.insert(k@, v),
    {
        let kv = chars_of(k.as_str());
        let (i, same) = self.locate(kv.as_slice());
        let ghost ps = self.pairs();
        let ghost kk = k@;
        if same {
            self.entries.set(i, (k, v));
            assert(self.pairs() =~= ps.update(i as int, (kk, v)));
        } else {
            self.entries.insert(i, (k, v));
            assert(self.pairs() =~= ps.insert(i as int, (kk, v)));
        }
        let ghost qs = self.pairs();
        assert(sorted_pairs(qs)) by {
            assert forall|a: int, b: int| 0 <= a < b < qs.len() implies text_lt(
                #[trigger] qs[a].0,
                #[trigger] qs[b].0,
            ) by {
                if !same {
                    if i < ps.len() {
                        lemma_text_lt_total(ps[i as int].0, kk);
                    }
                    if a == i && b > i {
                        if b > i + 1 {
                            assert(text_lt(ps[i as int].0, ps[b - 1].0));
                            lemma_text_lt_transitive(kk, ps[i as int].0, ps[b - 1].0);
                        }
                    }
                    if a < i && b > i {
                        assert(text_lt(ps[a].0, kk));
                        if b == i {
                        } else {
                            assert(qs[b] == ps[b - 1]);
                        }
                    }
                    if a < i && b == i {
                    }
                    if a > i {
                        assert(qs[a] == ps[a - 1]);
                        assert(qs[b] == ps[b - 1]);
                    }
                } else {
                    assert(qs[a].0 == ps[a].0);
                    assert(qs[b].0 == ps[b].0);
                }
            }
        }
        assert(self@ =~= old(self)@.insert(kk, v)) by {
            assert forall|key: Seq<char>| #[trigger] self@.dom().contains(key) <==> old(self)@.insert(
                kk,
                v,
            ).dom().contains(key) by {
                if self@.dom().contains(key) {
                    let j = choose|j: int| 0 <= j < qs.len() && #[trigger] qs[j].0 == key;
                    if key != kk {
                        if same {
                            assert(ps[j].0 == key);
                        } else if j < i {
                            assert(ps[j].0 == key);
                        } else {
                            assert(ps[j - 1].0 == key);
                        }
                    }
                }
                if old(self)@.dom().contains(key) {
                    let j = choose|j: int| 0 <= j < ps.len() && #[trigger] ps[j].0 == key;
                    if same || j < i {
                        assert(qs[j].0 == key || (same && j == i));
                    } else {
                        assert(qs[j + 1].0 == key);
                    }
                }
                if key == kk {
                    assert(qs[i as int].0 == kk);
                }
            }
            assert forall|key: Seq<char>| #[trigger] self@.dom().contains(key) implies self@[key]
                == old(self)@.insert(kk, v)[key] by {
                let j = choose|j: int| 0 <= j < qs.len() && #[trigger] qs[j].0 == key;
                lemma_map_of_at(qs, j);
                if key == kk {
                    lemma_map_of_at(qs, i as int);
                } else {
                    if same || j < i {
                        lemma_map_of_at(ps, j);
                    } else {
                        lemma_map_of_at(ps, j - 1);
                    }
                }
            }
        }
    }

    /// Takes the value under `k` out of the map, if there is one.
    pub fn take(&mut self, k: &str) -> (res: Option<V>)
        requires
            old(self).wf(),
        ensures
            final(self).wf(),
            final(self)@ == old(self)@.remove(k@),
            res is Some == old(self)@.dom().contains(k@),
            res matches Some(v) ==> v == old(self)@[k@],
    {
        match self.find(k) {
            Some(i) => {
                let ghost ps = self.pairs();
                proof {
                    self.lemma_at(i as int);
                }
                let (_, v) = self.entries.remove(i);
                let ghost qs = self.pairs();
                assert(qs =~= ps.remove(i as int));
                assert(sorted_pairs(qs)) by {
                    assert forall|a: int, b: int| 0 <= a < b < qs.len() implies text_lt(
                        #[trigger] qs[a].0,
                        #[trigger] qs[b].0,
                    ) by {
                        if a >= i {
                            assert(qs[a] == ps[a + 1]);
                        }
                        if b >= i {
                            assert(qs[b] == ps[b + 1]);
                        }
                    }
                }
                assert(self@ =~= old(self)@.remove(k@)) by {
                    assert forall|key: Seq<char>| #[trigger] self@.dom().contains(key) <==> old(
                        self,
                    )@.remove(k@).dom().contains(key) by {
                        if self@.dom().contains(key) {
                            let j = choose|j: int| 0 <= j < qs.len() && #[trigger] qs[j].0 == key;
                            if j < i {
                                assert(ps[j].0 == key);
                                lemma_text_lt_irreflexive(key);
                                assert(text_lt(ps[j].0, ps[i as int].0));
                            } else {
                                assert(ps[j + 1].0 == key);
                                lemma_text_lt_irreflexive(key);
                                assert(text_lt(ps[i as int].0, ps[j + 1].0));
                            }
                        }
                        if old(self)@.remove(k@).dom().contains(key) {
                            let j = choose|j: int| 0 <= j < ps.len() && #[trigger] ps[j].0 == key;
                            if j < i {
                                assert(qs[j].0 == key);
                            } else {
                                assert(qs[j - 1].0 == key);
                            }
                        }
                    }
                    assert forall|key: Seq<char>| #[trigger] self@.dom().contains(key) implies self@[key]
                        == old(self)@.remove(k@)[key] by {
                        let j = choose|j: int| 0 <= j < qs.len() && #[trigger] qs[j].0 == key;
                        lemma_map_of_at(qs, j);
                        if j < i {
                            lemma_map_of_at(ps, j);
                        } else {
                            lemma_map_of_at(ps, j + 1);
                        }
                    }
                }
                Some(v)
            },
            None => {
                assert(self@ =~= old(self)@.remove(k@));
                None
            },
        }
    }
}

/// The entries of `es`, keys taken by their characters.
pub open spec fn entry_views<V>(es: Seq<(String, V)>) -> Seq<(Seq<char>, V)> {
    es.map_values(|e: (String, V)| (e.0@, e.1))
}

/// The map `m` after putting in each entry of `es`, one after another.
pub open spec fn inserted_all<V>(m: Map<Seq<char>, V>, es: Seq<(Seq<char>, V)>) -> Map<Seq<char>, V>
    decreases es.len(),
{
    if es.len() == 0 {
        m
    } else {
        inserted_all(m, es.drop_last()).insert(es.last().0, es.last().1)
    }
}

impl<V> TextMap<V> {
    /// Puts in each of `entries`, one after another: a later entry replaces an
    /// earlier one with the same key, and keys that no entry names keep their
    /// values.
    pub fn insert_all(&mut self, entries: Vec<(String, V)>)
        requires
            old(self).wf(),
        ensures
            final(self).wf(),
            final(self)@ == inserted_all(old(self)@, entry_views(entries@)),
    {
        let ghost es = entry_views(entries@);
        let ghost m0 = self@;
        let mut rest = entries;
        let n = rest.len();
        let mut i: usize = 0;
        assert(entry_views(rest@) =~= es.skip(0));
        assert(es.take(0) =~= Seq::<(Seq<char>, V)>::empty());
        while i < n
            invariant
                n == es.len(),
                i <= n,
                self.wf(),
                entry_views(rest@) == es.skip(i as int),
                self@ == inserted_all(m0, es.take(i as int)),
            decreases n - i,
        {
            assert(entry_views(rest@).len() == rest@.len());
            let ghost r0 = rest@;
            let (k, v) = rest.remove(0);
            assert(es[i as int] == es.skip(i as int)[0]);
            assert(entry_views(r0)[0] == (k@, v));
            assert(entry_views(rest@) =~= es.skip(i + 1)) by {
                assert(rest@ =~= r0.drop_first());
                assert forall|j: int| 0 <= j < rest@.len() implies #[trigger] entry_views(rest@)[j]
                    == es.skip(i + 1)[j] by {
                    assert(entry_views(rest@)[j] == entry_views(r0)[j + 1]);
                    assert(es.skip(i + 1)[j] == es.skip(i as int)[j + 1]);
                }
            }
            assert(es.take(i + 1).drop_last() =~= es.take(i as int));
            self.insert(k, v);
            i = i + 1;
        }
        assert(es.take(n as int) =~= es);
    }
}

/// After putting in the entries `es`, a key that none of them names is held
/// exactly as before: present if and only if it was, with the same value.
pub proof fn law_inserted_all_keeps<V>(m: Map<Seq<char>, V>, es: Seq<(Seq<char>, V)>, k: Seq<char>)
    requires
        forall|i: int| 0 <= i < es.len() ==> #[trigger] es[i].0 != k,
    ensures
        inserted_all(m, es).dom().contains(k) == m.dom().contains(k),
        m.dom().contains(k) ==> inserted_all(m, es)[k] == m[k],
    decreases es.len(),
{
    if es.len() > 0 {
        assert(es.last() == es[es.len() - 1]);
        assert forall|i: int| 0 <= i < es.drop_last().len() implies #[trigger] es.drop_last()[i].0 != k by {
            assert(es.drop_last()[i] == es[i]);
        }
        law_inserted_all_keeps(m, es.drop_last(), k);
    }
}

/// After putting in the entries `es`, the key of entry `i` holds the value of
/// that entry when no later entry names the same key: the last write wins.
pub proof fn law_inserted_all_last<V>(m: Map<Seq<char>, V>, es: Seq<(Seq<char>, V)>, i: int)
    requires
        0 <= i < es.len(),
        forall|j: int| i < j < es.len() ==> #[trigger] es[j].0 != es[i].0,
    ensures
        inserted_all(m, es).dom().contains(es[i].0),
        inserted_all(m, es)[es[i].0] == es[i].1,
    decreases es.len(),
{
    if i < es.len() - 1 {
        assert(es.last() == es[es.len() - 1]);
        let d = es.drop_last();
        assert(d[i] == es[i]);
        assert forall|j: int| i < j < d.len() implies #[trigger] d[j].0 != d[i].0 by {
            assert(d[j] == es[j]);
        }
        law_inserted_all_last(m, d, i);
    }
}

/// Whether `a` comes strictly before `b` in the order of `String`.
pub fn chars_lt(a: &[char], b: &[char]) -> (res: bool)
    ensures
        res == text_lt(a@, b@),
{
    let n = a.len();
    let m = b.len();
    let mut i: usize = 0;
    assert(a@.skip(0) =~= a@);
    assert(b@.skip(0) =~= b@);
    while i < n && i < m && a[i] == b[i]
        invariant
            n == a@.len(),
            m == b@.len(),
            i <= n,
            i <= m,
            text_lt(a@, b@) == text_lt(a@.skip(i as int), b@.skip(i as int)),
        decreases n - i,
    {
        assert(a@.skip(i as int).drop_first() =~= a@.skip(i + 1));
        assert(b@.skip(i as int).drop_first() =~= b@.skip(i + 1));
        i = i + 1;
    }
    if i == n {
        i < m
    } else if i == m {
        false
    } else {
        assert(a@.skip(i as int)[0] == a@[i as int]);
        assert(b@.skip(i as int)[0] == b@[i as int]);
        a[i] < b[i]
    }
}

} // verus!
