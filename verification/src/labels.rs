//! String-keyed maps as they appear in object metadata (labels, annotations).

use vstd::prelude::*;

verus! {

/// The map that a list of key/value pairs denotes: a later pair replaces an
/// earlier one with the same key.
pub open spec fn pairs_map(pairs: Seq<(String, String)>) -> Map<Seq<char>, Seq<char>>
    decreases pairs.len(),
{
    if pairs.len() == 0 {
        Map::empty()
    } else {
        pairs_map(pairs.drop_last()).insert(pairs.last().0@, pairs.last().1@)
    }
}

/// Appending lists of pairs overlays their maps, the right one winning.
pub proof fn lemma_pairs_map_concat(a: Seq<(String, String)>, b: Seq<(String, String)>)
    ensures
        pairs_map(a + b) == pairs_map(a).union_prefer_right(pairs_map(b)),
    decreases b.len(),
{
    if b.len() == 0 {
        assert(a + b =~= a);
        assert(pairs_map(a).union_prefer_right(pairs_map(b)) =~= pairs_map(a));
    } else {
        assert((a + b).drop_last() =~= a + b.drop_last());
        assert((a + b).last() == b.last());
        lemma_pairs_map_concat(a, b.drop_last());
        assert(pairs_map(a + b) =~= pairs_map(a).union_prefer_right(pairs_map(b)));
    }
}

/// Whether two string slices hold the same text.
pub fn same_text(a: &str, b: &str) -> (r: bool)
    ensures
        r == (a@ == b@),
{
    let x: String = a.to_owned();
    let y: String = b.to_owned();
    x == y
}

/// A map from strings to strings, kept as the list of its insertions.
#[derive(Debug, Clone)]
pub struct StringMap {
    pub entries: Vec<(String, String)>,
}

impl View for StringMap {
    type V = Map<Seq<char>, Seq<char>>;

    open spec fn view(&self) -> Map<Seq<char>, Seq<char>> {
        pairs_map(self.entries@)
    }
}

impl StringMap {
    /// The empty map.
    pub fn new() -> (m: StringMap)
        ensures
            m@ == Map::<Seq<char>, Seq<char>>::empty(),
    {
        StringMap { entries: Vec::new() }
    }

    /// Whether the map has no key.
    pub fn is_empty(&self) -> (b: bool)
        ensures
            b == (self@ == Map::<Seq<char>, Seq<char>>::empty()),
    {
        let b = self.entries.len() == 0;
        proof {
            if !b {
                assert(self@.contains_key(self.entries@.last().0@));
            }
        }
        b
    }

    /// The value stored under `key`, if any.
    pub fn get(&self, key: &str) -> (v: Option<&String>)
        ensures
            v is Some <==> self@.contains_key(key@),
            v is Some ==> v->0@ == self@[key@],
    {
        let mut i: usize = self.entries.len();
        proof {
            assert(self.entries@.subrange(0, i as int) =~= self.entries@);
        }
        while i > 0
            invariant
                i <= self.entries.len(),
                self@.contains_key(key@) == pairs_map(
                    self.entries@.subrange(0, i as int),
                ).contains_key(key@),
                self@.contains_key(key@) ==> self@[key@] == pairs_map(
                    self.entries@.subrange(0, i as int),
                )[key@],
            decreases i,
        {
            proof {
                let head = self.entries@.subrange(0, i as int);
                assert(head.drop_last() =~= self.entries@.subrange(0, i - 1));
                assert(head.last() == self.entries@[i - 1]);
            }
            i = i - 1;
            if same_text(self.entries[i].0.as_str(), key) {
                return Some(&self.entries[i].1);
            }
        }
        None
    }

    /// Stores `value` under `key`, replacing what was there.
    pub fn insert(&mut self, key: String, value: String)
        ensures
            final(self)@ == old(self)@.insert(key@, value@),
    {
        self.entries.push((key, value));
        proof {
            assert(self.entries@.drop_last() =~= old(self).entries@);
        }
    }

    /// Copies every entry of `other` into the map; on a shared key the value of `other` wins.
    pub fn append(&mut self, other: &StringMap)
        ensures
            final(self)@ == old(self)@.union_prefer_right(other@),
    {
        let mut i: usize = 0;
        while i < other.entries.len()
            invariant
                i <= other.entries.len(),
                self.entries@ == old(self).entries@ + other.entries@.subrange(0, i as int),
            decreases other.entries.len() - i,
        {
            let k: String = other.entries[i].0.clone();
            let v: String = other.entries[i].1.clone();
            self.entries.push((k, v));
            proof {
                assert(other.entries@.subrange(0, i + 1) =~= other.entries@.subrange(0, i as int).push(
                    other.entries@[i as int],
                ));
            }
            i = i + 1;
        }
        proof {
            assert(other.entries@.subrange(0, i as int) =~= other.entries@);
            lemma_pairs_map_concat(old(self).entries@, other.entries@);
        }
    }

    /// A copy of the map.
    pub fn duplicate(&self) -> (m: StringMap)
        ensures
            m@ == self@,
    {
        let mut m = StringMap::new();
        m.append(self);
        proof {
            assert(Map::<Seq<char>, Seq<char>>::empty().union_prefer_right(self@) =~= self@);
        }
        m
    }
}

} // verus!
