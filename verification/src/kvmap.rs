//! A small string-keyed association map.
//!
//! The manager's controller tables are keyed by controller name; this map
//! keeps its entries in insertion order (later insertions for the same key
//! shadow earlier ones), which is exactly the semantics the two kernel-table
//! parsers need.

use vstd::prelude::*;
use crate::strutil::str_eq;

verus! {

/// The map described by a sequence of key/value pairs, where a later pair
/// for the same key shadows an earlier one.
pub open spec fn kv_fold<T>(pairs: Seq<(Seq<char>, T)>) -> Map<Seq<char>, T>
    decreases pairs.len(),
{
    if pairs.len() == 0 {
        Map::empty()
    } else {
        kv_fold(pairs.drop_last()).insert(pairs.last().0, pairs.last().1)
    }
}

pub proof fn lemma_kv_fold_get<T>(pairs: Seq<(Seq<char>, T)>, i: int)
    requires
        0 <= i < pairs.len(),
        forall|j: int| i < j < pairs.len() ==> pairs[j].0 != pairs[i].0,
    ensures
        kv_fold(pairs).contains_key(pairs[i].0),
        kv_fold(pairs)[pairs[i].0] == pairs[i].1,
    decreases pairs.len(),
{
    if i < pairs.len() - 1 {
        lemma_kv_fold_get(pairs.drop_last(), i);
    }
}

pub proof fn lemma_kv_fold_absent<T>(pairs: Seq<(Seq<char>, T)>, key: Seq<char>)
    requires
        forall|j: int| 0 <= j < pairs.len() ==> pairs[j].0 != key,
    ensures
        !kv_fold(pairs).contains_key(key),
    decreases pairs.len(),
{
    if pairs.len() > 0 {
        lemma_kv_fold_absent(pairs.drop_last(), key);
    }
}

/// A string-keyed map, entries kept in insertion order.
#[derive(Debug, Clone)]
pub struct KvMap<V> {
    entries: Vec<(String, V)>,
}

impl<V: View> KvMap<V> {
    /// The key/value pairs in insertion order, as mathematical values.
    pub closed spec fn pairs(self) -> Seq<(Seq<char>, V::V)> {
        self.entries@.map_values(|e: (String, V)| (e.0@, e.1@))
    }
}

impl<V: View> View for KvMap<V> {
    type V = Map<Seq<char>, V::V>;

    open spec fn view(&self) -> Map<Seq<char>, V::V> {
        kv_fold(self.pairs())
    }
}

impl<V: View> KvMap<V> {
    pub fn new() -> (r: Self)
        ensures
            r.pairs() == Seq::<(Seq<char>, V::V)>::empty(),
            r@ == Map::<Seq<char>, V::V>::empty(),
    {
        let r = KvMap { entries: Vec::new() };
        proof {
            assert(r.pairs() =~= Seq::<(Seq<char>, V::V)>::empty());
        }
        r
    }

    pub fn insert(&mut self, k: String, v: V)
        ensures
            final(self).pairs() == old(self).pairs().push((k@, v@)),
            final(self)@ == old(self)@.insert(k@, v@),
    {
        let ghost old_pairs = self.pairs();
        self.entries.push((k, v));
        proof {
            assert(self.pairs() =~= old_pairs.push((k@, v@)));
            assert(self.pairs().drop_last() =~= old_pairs);
        }
    }

    /// Looks a key up; the latest insertion for the key wins.
    pub fn get<'a>(&'a self, k: &str) -> (r: Option<&'a V>)
        ensures
            match r {
                Some(v) => self@.contains_key(k@) && v@ == self@[k@],
                None => !self@.contains_key(k@),
            },
    {
        let n = self.entries.len();
        let mut i: usize = n;
        while i > 0
            invariant
                0 <= i <= n,
                n == self.entries@.len(),
                n == self.pairs().len(),
                forall|j: int| i <= j < n ==> self.pairs()[j].0 != k@,
            decreases i,
        {
            i = i - 1;
            if str_eq(self.entries[i].0.as_str(), k) {
                proof {
                    lemma_kv_fold_get(self.pairs(), i as int);
                }
                return Some(&self.entries[i].1);
            }
        }
        proof {
            lemma_kv_fold_absent(self.pairs(), k@);
        }
        None
    }

    /// Whether the key is present.
    pub fn contains_key(&self, k: &str) -> (r: bool)
        ensures
            r == self@.contains_key(k@),
    {
        self.get(k).is_some()
    }

    /// How many entries the map holds (shadowed entries included).
    pub fn num_entries(&self) -> (n: usize)
        ensures
            n == self.pairs().len(),
    {
        self.entries.len()
    }

    /// The entry at a position, in insertion order.
    pub fn entry_at<'a>(&'a self, i: usize) -> (r: &'a (String, V))
        requires
            i < self.pairs().len(),
        ensures
            r.0@ == self.pairs()[i as int].0,
            r.1@ == self.pairs()[i as int].1,
    {
        &self.entries[i]
    }
}

} // verus!
