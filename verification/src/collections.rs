//! A small string-keyed map that keeps its entries in the order of their
//! keys.
//!
//! Labels, annotations, selectors and similar key/value sets of Kubernetes
//! objects are held in an [`OrderedMap`]. Its abstract view is a
//! `Map<Seq<char>, V>`: each key is identified by its characters.
use vstd::prelude::*;
use crate::steps::result::{same_result, same_value, same_values, JsonValue, StepResult};
use crate::text::{lemma_lt_irreflexive, lemma_lt_total, lemma_lt_transitive, text_less, text_lt};

verus! {

/// A map from strings to values, kept as a sequence of entries in strictly
/// increasing order of their keys.
#[derive(Debug, PartialEq, Eq)]
pub struct OrderedMap<V> {
    entries: Vec<(String, V)>,
}

/// The characters of each string of a sequence.
pub open spec fn views(s: Seq<String>) -> Seq<Seq<char>> {
    s.map_values(|x: String| x@)
}

/// The characters of each of `s`.
pub open spec fn str_views(s: Seq<&str>) -> Seq<Seq<char>> {
    s.map_values(|x: &str| x@)
}

/// The owned strings of `s`.
pub fn to_strings(s: &Vec<&str>) -> (r: Vec<String>)
    ensures
        views(r@) == str_views(s@),
{
    let mut r: Vec<String> = Vec::new();
    let mut i: usize = 0;
    while i < s.len()
        invariant
            i <= s@.len(),
            views(r@) == str_views(s@).take(i as int),
        decreases s@.len() - i,
    {
        let ghost old_r = views(r@);
        let x: &str = s[i];
        let y = x.to_string();
        assert(y@ == str_views(s@)[i as int]);
        r.push(y);
        assert(views(r@) =~= old_r.push(y@));
        assert(str_views(s@).take(i + 1) =~= str_views(s@).take(i as int).push(str_views(s@)[i as int]));
        i = i + 1;
    }
    assert(str_views(s@).take(s@.len() as int) =~= str_views(s@));
    r
}

/// Each text of `s` comes strictly before every later one.
pub open spec fn sorted_texts(s: Seq<Seq<char>>) -> bool {
    forall|i: int, j: int| 0 <= i < j < s.len() ==> text_lt(#[trigger] s[i], #[trigger] s[j])
}

/// Texts in increasing order are pairwise distinct.
pub proof fn lemma_sorted_distinct(s: Seq<Seq<char>>)
    requires
        sorted_texts(s),
    ensures
        s.no_duplicates(),
{
    assert forall|i: int, j: int| 0 <= i < s.len() && 0 <= j < s.len() && i != j implies s[i]
        != s[j] by {
        if i < j {
            lemma_lt_irreflexive(s[i]);
        } else {
            lemma_lt_irreflexive(s[j]);
        }
    }
}

/// The keys of a sequence of entries, by their characters.
pub open spec fn entry_keys<V>(s: Seq<(String, V)>) -> Seq<Seq<char>> {
    s.map_values(|e: (String, V)| e.0@)
}

impl<V> OrderedMap<V> {
    /// The keys, in increasing order.
    pub closed spec fn spec_keys(self) -> Seq<Seq<char>> {
        entry_keys(self.entries@)
    }

    /// The values, aligned with `spec_keys`.
    pub closed spec fn spec_values(self) -> Seq<V> {
        self.entries@.map_values(|e: (String, V)| e.1)
    }

    #[verifier::type_invariant]
    closed spec fn keys_in_order(self) -> bool {
        sorted_texts(self.spec_keys())
    }

    /// The position of key `k` among the entries (meaningful when `k` is a key).
    pub closed spec fn spec_index_of(self, k: Seq<char>) -> int {
        choose|i: int| 0 <= i < self.spec_keys().len() && self.spec_keys()[i] == k
    }

    /// Builds the empty map.
    pub fn new() -> (r: Self)
        ensures
            r@ == Map::<Seq<char>, V>::empty(),
            r.spec_keys() == Seq::<Seq<char>>::empty(),
    {
        let r = OrderedMap { entries: Vec::new() };
        assert(r@ =~= Map::<Seq<char>, V>::empty());
        assert(r.spec_keys() =~= Seq::<Seq<char>>::empty());
        r
    }

    /// Every key of the sequence names exactly one entry; the view holds
    /// the value stored at that entry.
    proof fn lemma_view_at(self, i: int)
        requires
            self.spec_keys().no_duplicates(),
            0 <= i < self.spec_keys().len(),
        ensures
            self.spec_index_of(self.spec_keys()[i]) == i,
            self@.contains_key(self.spec_keys()[i]),
            self@[self.spec_keys()[i]] == self.spec_values()[i],
    {
        let k = self.spec_keys()[i];
        assert(self.spec_keys()[i] == k);
        let j = self.spec_index_of(k);
        assert(self.spec_keys()[j] == k);
    }

    /// The view contains exactly the keys of the sequence.
    proof fn lemma_dom(self)
        requires
            self.spec_keys().no_duplicates(),
        ensures
            self@.dom() == self.spec_keys().to_set(),
            self@.len() == self.spec_keys().len(),
            self@.dom().finite(),
    {
        assert(self@.dom() =~= self.spec_keys().to_set());
        self.spec_keys().unique_seq_to_set();
    }

    /// The map has finitely many keys: those of its entries.
    pub proof fn lemma_dom_finite(self)
        ensures
            self@.dom().finite(),
            self@.dom() == self.spec_keys().to_set(),
    {
        assert(self@.dom() =~= self.spec_keys().to_set());
        vstd::seq_lib::seq_to_set_is_finite(self.spec_keys());
    }

    /// The number of entries.
    pub fn len(&self) -> (r: usize)
        ensures
            r == self.spec_keys().len(),
            r == self@.len(),
    {
        proof {
            use_type_invariant(self);
            lemma_sorted_distinct(self.spec_keys());
            self.lemma_dom();
        }
        self.entries.len()
    }

    /// Whether the map has no entry.
    pub fn is_empty(&self) -> (r: bool)
        ensures
            r == (self.spec_keys().len() == 0),
            r == (self@.len() == 0),
    {
        proof {
            use_type_invariant(self);
            lemma_sorted_distinct(self.spec_keys());
            self.lemma_dom();
        }
        self.entries.len() == 0
    }

    /// The position of key `k`, if it is a key of the map.
    fn find(&self, k: &str) -> (r: Option<usize>)
        ensures
            r is None ==> !self.spec_keys().contains(k@),
            r matches Some(i) ==> i < self.spec_keys().len() && self.spec_keys()[i as int] == k@,
    {
        let mut i: usize = 0;
        let key = k.to_string();
        while i < self.entries.len()
            invariant
                i <= self.entries@.len(),
                key@ == k@,
                forall|j: int| 0 <= j < i ==> self.spec_keys()[j] != k@,
            decreases self.entries@.len() - i,
        {
            if self.entries[i].0 == key {
                return Some(i);
            }
            i = i + 1;
        }
        None
    }

    /// Whether `k` is a key of the map.
    pub fn contains_key(&self, k: &str) -> (r: bool)
        ensures
            r == self@.contains_key(k@),
    {
        match self.find(k) {
            Some(i) => {
                proof {
                    use_type_invariant(self);
                    lemma_sorted_distinct(self.spec_keys());
                    self.lemma_view_at(i as int);
                }
                true
            },
            None => false,
        }
    }

    /// The value stored under `k`, if any.
    pub fn get(&self, k: &str) -> (r: Option<&V>)
        ensures
            r is Some <==> self@.contains_key(k@),
            r matches Some(v) ==> *v == self@[k@],
    {
        match self.find(k) {
            Some(i) => {
                proof {
                    use_type_invariant(self);
                    lemma_sorted_distinct(self.spec_keys());
                    self.lemma_view_at(i as int);
                }
                Some(&self.entries[i].1)
            },
            None => None,
        }
    }

    /// Stores `v` under `k`, replacing the value of an existing key.
    pub fn insert(&mut self, k: String, v: V)
        ensures
            final(self)@ == old(self)@.insert(k@, v),
            final(self)@.dom() == old(self)@.dom().insert(k@),
    {
        proof {
            use_type_invariant(&*self);
            lemma_sorted_distinct(self.spec_keys());
        }
        let ghost old_self = *self;
        let ghost kv = k@;
        match self.find(k.as_str()) {
            Some(i) => {
                let mut entries: Vec<(String, V)> = Vec::new();
                std::mem::swap(&mut entries, &mut self.entries);
                entries.set(i, (k, v));
                proof {
                    assert(entry_keys(entries@) =~= old_self.spec_keys());
                }
                self.entries = entries;
                proof {
                    assert(self.spec_keys() =~= old_self.spec_keys());
                    lemma_sorted_distinct(self.spec_keys());
                    assert forall|key: Seq<char>|
                        #![trigger self@.contains_key(key)]
                        self@.contains_key(key) == old_self@.insert(kv, v).contains_key(key) by {
                    }
                    assert forall|key: Seq<char>| #[trigger]
                        self@.contains_key(key) implies self@[key] == old_self@.insert(
                        kv,
                        v,
                    )[key] by {
                        let j = choose|j: int|
                            0 <= j < self.spec_keys().len() && self.spec_keys()[j] == key;
                        self.lemma_view_at(j);
                        if j != i {
                            old_self.lemma_view_at(j);
                        }
                    }
                    assert(self@ =~= old_self@.insert(kv, v));
                }
            },
            None => {
                let p = self.position_for(k.as_str());
                let mut entries: Vec<(String, V)> = Vec::new();
                std::mem::swap(&mut entries, &mut self.entries);
                entries.insert(p, (k, v));
                let ghost ok = old_self.spec_keys();
                proof {
                    assert(entry_keys(entries@) =~= ok.insert(p as int, kv));
                    let nk = ok.insert(p as int, kv);
                    assert forall|a: int, b: int| 0 <= a < b < nk.len() implies text_lt(
                        #[trigger] nk[a],
                        #[trigger] nk[b],
                    ) by {
                        if b < p {
                        } else if b == p {
                        } else if a == p {
                            if b - 1 > p {
                                lemma_lt_transitive(kv, ok[p as int], ok[b - 1]);
                            }
                        } else if a < p {
                            if b - 1 >= p {
                                lemma_lt_transitive(ok[a], kv, ok[b - 1]);
                            }
                        } else {
                        }
                    }
                }
                self.entries = entries;
                proof {
                    let nk = self.spec_keys();
                    assert(nk =~= ok.insert(p as int, kv));
                    lemma_sorted_distinct(nk);
                    assert forall|key: Seq<char>| #[trigger]
                        self@.contains_key(key) implies self@[key] == old_self@.insert(
                        kv,
                        v,
                    )[key] by {
                        let j = choose|j: int| 0 <= j < nk.len() && nk[j] == key;
                        self.lemma_view_at(j);
                        if j < p {
                            old_self.lemma_view_at(j);
                        } else if j > p {
                            old_self.lemma_view_at(j - 1);
                        }
                    }
                    assert forall|key: Seq<char>|
                        #![trigger self@.contains_key(key)]
                        self@.contains_key(key) == old_self@.insert(kv, v).contains_key(key) by {
                        if key == kv {
                            assert(nk[p as int] == kv);
                        } else if old_self@.contains_key(key) {
                            let j = choose|j: int| 0 <= j < ok.len() && ok[j] == key;
                            if j < p {
                                assert(nk[j] == key);
                            } else {
                                assert(nk[j + 1] == key);
                            }
                        } else if self@.contains_key(key) {
                            let j = choose|j: int| 0 <= j < nk.len() && nk[j] == key;
                            if j < p {
                                assert(ok[j] == key);
                            } else if j > p {
                                assert(ok[j - 1] == key);
                            }
                        }
                    }
                    assert(self@ =~= old_self@.insert(kv, v));
                }
            },
        }
    }

    /// Takes out the entry of `k`, returning its value; the map is unchanged
    /// when `k` is not a key.
    pub fn remove(&mut self, k: &str) -> (r: Option<V>)
        ensures
            final(self)@ == old(self)@.remove(k@),
            r is Some <==> old(self)@.contains_key(k@),
            r matches Some(v) ==> v == old(self)@[k@],
    {
        proof {
            use_type_invariant(&*self);
            lemma_sorted_distinct(self.spec_keys());
        }
        let ghost old_self = *self;
        let ghost kv = k@;
        match self.find(k) {
            None => {
                proof {
                    assert(!old_self@.contains_key(kv));
                    assert(old_self@.remove(kv) =~= old_self@);
                }
                None
            },
            Some(i) => {
                proof {
                    old_self.lemma_view_at(i as int);
                }
                let mut entries: Vec<(String, V)> = Vec::new();
                std::mem::swap(&mut entries, &mut self.entries);
                let e = entries.remove(i);
                let ghost ok = old_self.spec_keys();
                proof {
                    assert(entry_keys(entries@) =~= ok.remove(i as int));
                    let nk = ok.remove(i as int);
                    assert forall|a: int, b: int| 0 <= a < b < nk.len() implies text_lt(
                        #[trigger] nk[a],
                        #[trigger] nk[b],
                    ) by {
                        let oa = if a < i { a } else { a + 1 };
                        let ob = if b < i { b } else { b + 1 };
                        assert(nk[a] == ok[oa]);
                        assert(nk[b] == ok[ob]);
                    }
                }
                self.entries = entries;
                proof {
                    let nk = self.spec_keys();
                    assert(nk =~= ok.remove(i as int));
                    lemma_sorted_distinct(nk);
                    assert forall|key: Seq<char>|
                        #![trigger self@.contains_key(key)]
                        self@.contains_key(key) == old_self@.remove(kv).contains_key(key) by {
                        if self@.contains_key(key) {
                            let j = choose|j: int| 0 <= j < nk.len() && nk[j] == key;
                            let oj = if j < i { j } else { j + 1 };
                            assert(ok[oj] == key);
                        } else if old_self@.contains_key(key) && key != kv {
                            let j = choose|j: int| 0 <= j < ok.len() && ok[j] == key;
                            if j < i {
                                assert(nk[j] == key);
                            } else {
                                assert(nk[j - 1] == key);
                            }
                        }
                    }
                    assert forall|key: Seq<char>| #[trigger]
                        self@.contains_key(key) implies self@[key] == old_self@.remove(kv)[key] by {
                        let j = choose|j: int| 0 <= j < nk.len() && nk[j] == key;
                        self.lemma_view_at(j);
                        if j < i {
                            old_self.lemma_view_at(j);
                        } else {
                            old_self.lemma_view_at(j + 1);
                        }
                    }
                    assert(self@ =~= old_self@.remove(kv));
                }
                Some(e.1)
            },
        }
    }

    /// Where a key that is not in the map belongs: after every smaller key,
    /// before every larger one.
    fn position_for(&self, k: &str) -> (r: usize)
        requires
            !self.spec_keys().contains(k@),
        ensures
            r <= self.spec_keys().len(),
            forall|q: int| 0 <= q < r ==> text_lt(#[trigger] self.spec_keys()[q], k@),
            forall|q: int| r <= q < self.spec_keys().len() ==> text_lt(k@, #[trigger] self.spec_keys()[q]),
    {
        proof {
            use_type_invariant(self);
        }
        let mut i: usize = 0;
        while i < self.entries.len()
            invariant
                i <= self.entries@.len(),
                sorted_texts(self.spec_keys()),
                !self.spec_keys().contains(k@),
                forall|q: int| 0 <= q < i ==> text_lt(#[trigger] self.spec_keys()[q], k@),
            decreases self.entries@.len() - i,
        {
            let here = self.entries[i].0.as_str();
            assert(self.spec_keys()[i as int] == here@);
            if text_less(k, here) {
                proof {
                    assert forall|q: int| i <= q < self.spec_keys().len() implies text_lt(
                        k@,
                        #[trigger] self.spec_keys()[q],
                    ) by {
                        if q > i {
                            lemma_lt_transitive(k@, here@, self.spec_keys()[q]);
                        }
                    }
                }
                return i;
            }
            proof {
                lemma_lt_total(k@, here@);
                assert(self.spec_keys().contains(here@));
            }
            i = i + 1;
        }
        i
    }

    /// The entries, in increasing order of their keys.
    pub fn entries(&self) -> (r: &Vec<(String, V)>)
        ensures
            entry_keys(r@) == self.spec_keys(),
            r@.map_values(|e: (String, V)| e.1) == self.spec_values(),
            sorted_texts(self.spec_keys()),
            self.spec_keys().no_duplicates(),
            self@.dom() == self.spec_keys().to_set(),
            forall|i: int| 0 <= i < self.spec_keys().len() ==> #[trigger] self@[self.spec_keys()[i]]
                == self.spec_values()[i],
    {
        proof {
            use_type_invariant(self);
            lemma_sorted_distinct(self.spec_keys());
            self.lemma_dom();
            assert forall|i: int| 0 <= i < self.spec_keys().len() implies #[trigger] self@[self.spec_keys()[i]]
                == self.spec_values()[i] by {
                self.lemma_view_at(i);
            }
        }
        &self.entries
    }
}

impl<V> View for OrderedMap<V> {
    type V = Map<Seq<char>, V>;

    closed spec fn view(&self) -> Map<Seq<char>, V> {
        Map::new(
            |k: Seq<char>| self.spec_keys().contains(k),
            |k: Seq<char>| self.spec_values()[self.spec_index_of(k)],
        )
    }
}

impl<V: Clone> Clone for OrderedMap<V> {
    /// A copy with the same keys in the same order; each value is cloned.
    fn clone(&self) -> (r: Self)
        ensures
            r.spec_keys() == self.spec_keys(),
    {
        proof {
            use_type_invariant(self);
        }
        let mut entries: Vec<(String, V)> = Vec::new();
        let mut i: usize = 0;
        while i < self.entries.len()
            invariant
                i <= self.entries@.len(),
                entries@.len() == i,
                forall|j: int| 0 <= j < i ==> #[trigger] entries@[j].0 == self.entries@[j].0,
            decreases self.entries@.len() - i,
        {
            let k = self.entries[i].0.clone();
            let v = self.entries[i].1.clone();
            entries.push((k, v));
            i = i + 1;
        }
        assert(entry_keys(entries@) =~= self.spec_keys());
        OrderedMap { entries }
    }
}

/// `new` is `old` with the text `v` stored under `k`: the same keys plus
/// `k`, the value of `k` reading `v`, and every other value unchanged.
pub open spec fn inserted_text(new: OrderedMap<String>, old: OrderedMap<String>, k: Seq<char>, v: Seq<char>) -> bool {
    &&& new@.dom() == old@.dom().insert(k)
    &&& new@[k]@ == v
    &&& forall|q: Seq<char>| q != k && old@.contains_key(q) ==> new@[q] == old@[q]
}

impl OrderedMap<String> {
    /// Stores a copy of the text `v` under a copy of `k`.
    pub fn insert_text(&mut self, k: &str, v: &str)
        ensures
            inserted_text(*final(self), *old(self), k@, v@),
    {
        let value = v.to_string();
        let ghost vv = value;
        self.insert(k.to_string(), value);
        assert(self@ == old(self)@.insert(k@, vv));
    }
}

impl OrderedMap<String> {
    /// A copy of the map: the same keys, in the same order, with the same values.
    pub fn duplicate(&self) -> (r: Self)
        ensures
            r@ == self@,
            r.spec_keys() == self.spec_keys(),
    {
        proof {
            use_type_invariant(self);
        }
        let mut entries: Vec<(String, String)> = Vec::new();
        let mut i: usize = 0;
        while i < self.entries.len()
            invariant
                i <= self.entries@.len(),
                entries@.len() == i,
                forall|j: int| 0 <= j < i ==> #[trigger] entries@[j] == self.entries@[j],
            decreases self.entries@.len() - i,
        {
            let k = self.entries[i].0.clone();
            let v = self.entries[i].1.clone();
            entries.push((k, v));
            i = i + 1;
        }
        assert(entries@ =~= self.entries@);
        OrderedMap { entries }
    }
}

impl OrderedMap<JsonValue> {
    /// A copy of the map: the same keys, in the same order, each with the
    /// same value.
    pub fn duplicate(&self) -> (r: Self)
        ensures
            r.spec_keys() == self.spec_keys(),
            same_values(r@, self@),
    {
        proof {
            use_type_invariant(self);
        }
        let mut entries: Vec<(String, JsonValue)> = Vec::new();
        let mut i: usize = 0;
        while i < self.entries.len()
            invariant
                i <= self.entries@.len(),
                entries@.len() == i,
                forall|j: int|
                    0 <= j < i ==> #[trigger] entries@[j].0 == self.entries@[j].0 && same_value(
                        entries@[j].1,
                        self.entries@[j].1,
                    ),
            decreases self.entries@.len() - i,
        {
            let k = self.entries[i].0.clone();
            let v = self.entries[i].1.duplicate();
            entries.push((k, v));
            i = i + 1;
        }
        assert(entry_keys(entries@) =~= self.spec_keys());
        let r = OrderedMap { entries };
        proof {
            assert(r.spec_keys() == self.spec_keys());
            assert(r@.dom() =~= self@.dom());
            assert forall|k: Seq<char>| #[trigger] r@.contains_key(k) implies same_value(r@[k], self@[k]) by {
                assert(r.spec_index_of(k) == self.spec_index_of(k));
                let j = self.spec_index_of(k);
                assert(0 <= j < self.spec_keys().len() && self.spec_keys()[j] == k);
                assert(r.spec_values()[j] == r.entries@[j].1);
                assert(self.spec_values()[j] == self.entries@[j].1);
            }
        }
        r
    }
}

impl OrderedMap<StepResult> {
    /// A copy of the map: the same keys, in the same order, each with a
    /// result that reports the same.
    pub fn duplicate(&self) -> (r: Self)
        ensures
            r.spec_keys() == self.spec_keys(),
            r@.dom() == self@.dom(),
            forall|k: Seq<char>| #[trigger] r@.contains_key(k) ==> same_result(r@[k], self@[k]),
    {
        proof {
            use_type_invariant(self);
        }
        let mut entries: Vec<(String, StepResult)> = Vec::new();
        let mut i: usize = 0;
        while i < self.entries.len()
            invariant
                i <= self.entries@.len(),
                entries@.len() == i,
                forall|j: int|
                    0 <= j < i ==> #[trigger] entries@[j].0 == self.entries@[j].0 && same_result(
                        entries@[j].1,
                        self.entries@[j].1,
                    ),
            decreases self.entries@.len() - i,
        {
            let k = self.entries[i].0.clone();
            let v = self.entries[i].1.duplicate();
            entries.push((k, v));
            i = i + 1;
        }
        assert(entry_keys(entries@) =~= self.spec_keys());
        let r = OrderedMap { entries };
        proof {
            assert(r.spec_keys() == self.spec_keys());
            assert(r@.dom() =~= self@.dom());
            assert forall|k: Seq<char>| #[trigger] r@.contains_key(k) implies same_result(r@[k], self@[k]) by {
                assert(r.spec_index_of(k) == self.spec_index_of(k));
                let j = self.spec_index_of(k);
                assert(0 <= j < self.spec_keys().len() && self.spec_keys()[j] == k);
                assert(r.spec_values()[j] == r.entries@[j].1);
                assert(self.spec_values()[j] == self.entries@[j].1);
            }
        }
        r
    }
}

} // verus!
