//! A string-to-string mapping with unique keys, used for the resolved
//! configuration set and for template contexts. It is a vector of pairs kept
//! free of duplicate keys, viewed in contracts as a `Map` of character
//! sequences.

use vstd::prelude::*;
use crate::text::str_eq;

verus! {

/// One key/value binding.
pub struct StrPair {
    pub key: String,
    pub value: String,
}

/// The set of keys of a sequence of bindings.
pub open spec fn keys_of(pairs: Seq<(Seq<char>, Seq<char>)>) -> Set<Seq<char>> {
    Set::new(|k: Seq<char>| exists|i: int| 0 <= i < pairs.len() && #[trigger] pairs[i].0 == k)
}

proof fn lemma_distinct_key_count(pairs: Seq<(Seq<char>, Seq<char>)>)
    requires
        forall|i: int, j: int|
            0 <= i < j < pairs.len() ==> #[trigger] pairs[i].0 != #[trigger] pairs[j].0,
    ensures
        keys_of(pairs).finite(),
        keys_of(pairs).len() == pairs.len(),
    decreases pairs.len(),
{
    if pairs.len() == 0 {
        assert(keys_of(pairs) =~= Set::<Seq<char>>::empty());
    } else {
        let head = pairs.drop_last();
        lemma_distinct_key_count(head);
        assert forall|k: Seq<char>|
            keys_of(pairs).contains(k) <==> keys_of(head).insert(pairs.last().0).contains(
            k,
        ) by {
            if keys_of(pairs).contains(k) {
                let w = choose|i: int| 0 <= i < pairs.len() && #[trigger] pairs[i].0 == k;
                if w < pairs.len() - 1 {
                    assert(head[w].0 == k);
                }
            }
            if keys_of(head).contains(k) {
                let w = choose|i: int| 0 <= i < head.len() && #[trigger] head[i].0 == k;
                assert(pairs[w].0 == k);
            }
            if k == pairs.last().0 {
                assert(pairs[pairs.len() - 1].0 == k);
            }
        }
        assert(keys_of(pairs) =~= keys_of(head).insert(pairs.last().0));
        if keys_of(head).contains(pairs.last().0) {
            let w = choose|i: int| 0 <= i < head.len() && #[trigger] head[i].0 == pairs.last().0;
            assert(pairs[w].0 == pairs[pairs.len() - 1].0);
            assert(false);
        }
    }
}

/// A mapping from names to string values with unique keys.
pub struct StrMap {
    items: Vec<StrPair>,
}

/// The position of the first pair with the given key, if any.
fn index_of_key(items: &Vec<StrPair>, key: &str) -> (r: Option<usize>)
    ensures
        match r {
            Some(f) => f < items@.len() && items@[f as int].key@ == key@,
            None => forall|j: int| 0 <= j < items@.len() ==> #[trigger] items@[j].key@ != key@,
        },
{
    let mut i: usize = 0;
    while i < items.len()
        invariant
            i <= items@.len(),
            forall|j: int| 0 <= j < i ==> #[trigger] items@[j].key@ != key@,
        decreases items@.len() - i,
    {
        if str_eq(items[i].key.as_str(), key) {
            return Some(i);
        }
        i = i + 1;
    }
    None
}

impl StrMap {
    /// The bindings as a sequence of (key, value) character sequences,
    /// in insertion order.
    pub closed spec fn pairs(&self) -> Seq<(Seq<char>, Seq<char>)> {
        self.items@.map(|i: int, p: StrPair| (p.key@, p.value@))
    }

    /// No two bindings share a key.
    pub open spec fn wf(&self) -> bool {
        forall|i: int, j: int|
            0 <= i < j < self.pairs().len() ==> #[trigger] self.pairs()[i].0
                != #[trigger] self.pairs()[j].0
    }

    /// Some binding has this key.
    pub open spec fn spec_contains(&self, key: Seq<char>) -> bool {
        exists|i: int| 0 <= i < self.pairs().len() && #[trigger] self.pairs()[i].0 == key
    }

    /// The index of the binding with this key, when one exists.
    pub open spec fn spec_index_of(&self, key: Seq<char>) -> int {
        choose|i: int| 0 <= i < self.pairs().len() && #[trigger] self.pairs()[i].0 == key
    }

    /// The value bound to this key, when one is.
    pub open spec fn spec_get(&self, key: Seq<char>) -> Option<Seq<char>> {
        if self.spec_contains(key) {
            Some(self.pairs()[self.spec_index_of(key)].1)
        } else {
            None
        }
    }

    /// The bindings as a mathematical map.
    pub open spec fn map_view(&self) -> Map<Seq<char>, Seq<char>> {
        Map::new(
            |k: Seq<char>| self.spec_contains(k),
            |k: Seq<char>| self.spec_get(k)->Some_0,
        )
    }

    /// A well-formed mapping has exactly one key per binding: what `len`
    /// reports is the number of distinct keys.
    pub proof fn lemma_key_count(&self)
        requires
            self.wf(),
        ensures
            self.map_view().dom().finite(),
            self.map_view().dom().len() == self.pairs().len(),
    {
        lemma_distinct_key_count(self.pairs());
        assert(self.map_view().dom() =~= keys_of(self.pairs()));
    }

    /// An empty mapping.
    pub fn new() -> (r: StrMap)
        ensures
            r.pairs() == Seq::<(Seq<char>, Seq<char>)>::empty(),
            r.wf(),
            r.map_view() == Map::<Seq<char>, Seq<char>>::empty(),
    {
        let r = StrMap { items: Vec::new() };
        proof {
            assert(r.pairs() =~= Seq::<(Seq<char>, Seq<char>)>::empty());
            assert(r.map_view() =~= Map::<Seq<char>, Seq<char>>::empty());
        }
        r
    }

    /// The number of bindings.
    pub fn len(&self) -> (r: usize)
        ensures
            r == self.pairs().len(),
    {
        self.items.len()
    }

    /// Whether a binding with this key exists.
    pub fn contains_key(&self, key: &str) -> (r: bool)
        ensures
            r == self.spec_contains(key@),
    {
        let mut i: usize = 0;
        while i < self.items.len()
            invariant
                i <= self.pairs().len(),
                self.pairs().len() == self.items@.len(),
                forall|j: int| 0 <= j < i ==> #[trigger] self.pairs()[j].0 != key@,
            decreases self.items@.len() - i,
        {
            if str_eq(self.items[i].key.as_str(), key) {
                proof {
                    assert(self.pairs()[i as int].0 == key@);
                }
                return true;
            }
            i = i + 1;
        }
        false
    }

    /// The value bound to this key, if any.
    pub fn get(&self, key: &str) -> (r: Option<&String>)
        requires
            self.wf(),
        ensures
            match r {
                Some(v) => self.spec_get(key@) == Some(v@),
                None => self.spec_get(key@) is None,
            },
    {
        let mut i: usize = 0;
        while i < self.items.len()
            invariant
                i <= self.pairs().len(),
                self.pairs().len() == self.items@.len(),
                self.wf(),
                forall|j: int| 0 <= j < i ==> #[trigger] self.pairs()[j].0 != key@,
            decreases self.items@.len() - i,
        {
            if str_eq(self.items[i].key.as_str(), key) {
                proof {
                    assert(self.pairs()[i as int].0 == key@);
                    assert(self.spec_index_of(key@) == i as int);
                }
                return Some(&self.items[i].value);
            }
            i = i + 1;
        }
        None
    }

    /// Binds `key` to `value`, replacing any earlier binding of the key.
    pub fn insert(&mut self, key: String, value: String)
        requires
            old(self).wf(),
        ensures
            final(self).wf(),
            final(self).map_view() == old(self).map_view().insert(key@, value@),
            final(self).spec_contains(key@),
            final(self).spec_get(key@) == Some(value@),
            forall|k: Seq<char>|
                k != key@ ==> #[trigger] final(self).spec_contains(k) == old(self).spec_contains(
                    k,
                ),
            forall|k: Seq<char>|
                k != key@ ==> #[trigger] final(self).spec_get(k) == old(self).spec_get(k),
            final(self).pairs().len() == if old(self).spec_contains(key@) {
                old(self).pairs().len()
            } else {
                old(self).pairs().len() + 1
            },
    {
        let ghost pre = *self;
        let ghost k = key@;
        let ghost v = value@;
        let found = index_of_key(&self.items, key.as_str());
        match found {
            Some(f) => {
                let _ = self.items.remove(f);
                self.items.push(StrPair { key, value });
                proof {
                    assert(self.pairs() =~= pre.pairs().remove(f as int).push((k, v)));
                }
            },
            None => {
                self.items.push(StrPair { key, value });
                proof {
                    assert(self.pairs() =~= pre.pairs().push((k, v)));
                }
            },
        }
        proof {
            self.lemma_insert_post(pre, k, v, found);
        }
    }

    proof fn lemma_insert_post(
        &self,
        pre: StrMap,
        key: Seq<char>,
        value: Seq<char>,
        found: Option<usize>,
    )
        requires
            pre.wf(),
            match found {
                Some(f) => 0 <= f < pre.pairs().len() && pre.pairs()[f as int].0 == key
                    && self.pairs() =~= pre.pairs().remove(f as int).push((key, value)),
                None => (forall|j: int|
                    0 <= j < pre.pairs().len() ==> #[trigger] pre.pairs()[j].0 != key)
                    && self.pairs() =~= pre.pairs().push((key, value)),
            },
        ensures
            self.wf(),
            self.map_view() == pre.map_view().insert(key, value),
            self.spec_contains(key),
            self.spec_get(key) == Some(value),
            forall|k: Seq<char>|
                k != key ==> #[trigger] self.spec_contains(k) == pre.spec_contains(k),
            forall|k: Seq<char>| k != key ==> #[trigger] self.spec_get(k) == pre.spec_get(k),
            self.pairs().len() == if pre.spec_contains(key) {
                pre.pairs().len()
            } else {
                pre.pairs().len() + 1
            },
    {
        let post = self.pairs();
        let n = post.len();
        assert(post[n - 1] == (key, value));
        assert forall|i: int, j: int| 0 <= i < j < n implies #[trigger] post[i].0
            != #[trigger] post[j].0 by {
            match found {
                Some(f) => {
                    let base = pre.pairs().remove(f as int);
                    if j < n - 1 {
                        assert(post[i] == base[i] && post[j] == base[j]);
                    } else {
                        assert(post[i] == base[i]);
                        if i < f {
                            assert(base[i] == pre.pairs()[i]);
                        } else {
                            assert(base[i] == pre.pairs()[i + 1]);
                        }
                    }
                },
                None => {
                    if j < n - 1 {
                        assert(post[i] == pre.pairs()[i] && post[j] == pre.pairs()[j]);
                    } else {
                        assert(post[i] == pre.pairs()[i]);
                    }
                },
            }
        }
        assert(self.wf());
        assert(self.pairs()[n - 1].0 == key);
        assert(self.spec_contains(key));
        assert(self.spec_index_of(key) == n - 1);
        assert(self.spec_get(key) == Some(value));
        assert forall|k: Seq<char>| k != key implies #[trigger] self.spec_contains(k)
            == pre.spec_contains(k) && self.spec_get(k) == pre.spec_get(k) by {
            self.lemma_other_keys(pre, key, value, found, k);
        }
        if pre.spec_contains(key) {
            match found {
                Some(_) => {},
                None => {
                    let w = choose|i: int|
                        0 <= i < pre.pairs().len() && #[trigger] pre.pairs()[i].0 == key;
                    assert(pre.pairs()[w].0 != key);
                },
            }
        } else {
            match found {
                Some(f) => {
                    assert(pre.pairs()[f as int].0 == key);
                },
                None => {},
            }
        }
        assert(self.map_view() =~= pre.map_view().insert(key, value));
    }

    proof fn lemma_other_keys(
        &self,
        pre: StrMap,
        key: Seq<char>,
        value: Seq<char>,
        found: Option<usize>,
        k: Seq<char>,
    )
        requires
            pre.wf(),
            k != key,
            match found {
                Some(f) => 0 <= f < pre.pairs().len() && pre.pairs()[f as int].0 == key
                    && self.pairs() =~= pre.pairs().remove(f as int).push((key, value)),
                None => (forall|j: int|
                    0 <= j < pre.pairs().len() ==> #[trigger] pre.pairs()[j].0 != key)
                    && self.pairs() =~= pre.pairs().push((key, value)),
            },
        ensures
            self.spec_contains(k) == pre.spec_contains(k),
            self.spec_get(k) == pre.spec_get(k),
    {
        let post = self.pairs();
        let n = post.len();
        if pre.spec_contains(k) {
            let w = pre.spec_index_of(k);
            assert(pre.pairs()[w].0 == k);
            match found {
                Some(f) => {
                    assert(w != f);
                    if w < f {
                        assert(post[w] == pre.pairs()[w]);
                        assert(self.spec_contains(k));
                    } else {
                        assert(post[w - 1] == pre.pairs()[w]);
                        assert(self.spec_contains(k));
                    }
                },
                None => {
                    assert(post[w] == pre.pairs()[w]);
                    assert(self.spec_contains(k));
                },
            }
            let u = self.spec_index_of(k);
            assert(post[u].0 == k);
            assert(u < n - 1);
            match found {
                Some(f) => {
                    let base = pre.pairs().remove(f as int);
                    assert(post[u] == base[u]);
                    if u < f {
                        assert(base[u] == pre.pairs()[u]);
                        assert(pre.spec_index_of(k) == u);
                    } else {
                        assert(base[u] == pre.pairs()[u + 1]);
                        assert(pre.spec_index_of(k) == u + 1);
                    }
                },
                None => {
                    assert(post[u] == pre.pairs()[u]);
                    assert(pre.spec_index_of(k) == u);
                },
            }
        } else {
            if self.spec_contains(k) {
                let u = self.spec_index_of(k);
                assert(post[u].0 == k);
                assert(u < n - 1);
                match found {
                    Some(f) => {
                        let base = pre.pairs().remove(f as int);
                        assert(post[u] == base[u]);
                        if u < f {
                            assert(pre.pairs()[u].0 == k);
                        } else {
                            assert(pre.pairs()[u + 1].0 == k);
                        }
                    },
                    None => {
                        assert(pre.pairs()[u].0 == k);
                    },
                }
            }
        }
    }

    /// The bindings as the vector of pairs they are stored in.
    pub fn entries(&self) -> (r: &Vec<StrPair>)
        ensures
            r@.map(|i: int, p: StrPair| (p.key@, p.value@)) == self.pairs(),
    {
        &self.items
    }

    /// Copies the mapping, binding for binding.
    pub fn duplicate(&self) -> (r: StrMap)
        ensures
            r.pairs() == self.pairs(),
    {
        let mut items: Vec<StrPair> = Vec::new();
        let mut i: usize = 0;
        while i < self.items.len()
            invariant
                i <= self.items@.len(),
                items@.len() == i,
                forall|j: int|
                    0 <= j < i ==> #[trigger] items@[j].key@ == self.items@[j].key@
                        && items@[j].value@ == self.items@[j].value@,
            decreases self.items@.len() - i,
        {
            items.push(
                StrPair { key: self.items[i].key.clone(), value: self.items[i].value.clone() },
            );
            i = i + 1;
        }
        let r = StrMap { items };
        proof {
            assert(r.pairs() =~= self.pairs());
        }
        r
    }

    /// The keys, in the order the bindings stand.
    pub fn keys(&self) -> (r: Vec<String>)
        ensures
            r.deep_view().len() == self.pairs().len(),
            forall|i: int|
                0 <= i < r.deep_view().len() ==> #[trigger] r.deep_view()[i] == self.pairs()[i].0,
    {
        let mut r: Vec<String> = Vec::new();
        let mut i: usize = 0;
        while i < self.items.len()
            invariant
                i <= self.items@.len(),
                self.pairs().len() == self.items@.len(),
                r.deep_view().len() == i,
                forall|j: int| 0 <= j < i ==> #[trigger] r.deep_view()[j] == self.pairs()[j].0,
            decreases self.items@.len() - i,
        {
            let ghost prev = r.deep_view();
            r.push(self.items[i].key.clone());
            proof {
                assert(r.deep_view() =~= prev.push(self.items@[i as int].key@));
            }
            i = i + 1;
        }
        r
    }
}

} // verus!
