//! Lookup tables built from ordered configuration entries, where a later entry for
//! a key replaces an earlier one.

use vstd::prelude::*;

verus! {

/// The map that inserting the entries in order builds.
pub open spec fn assoc_map<K, V>(s: Seq<(K, V)>) -> Map<K, V>
    decreases s.len(),
{
    if s.len() == 0 {
        Map::empty()
    } else {
        assoc_map(s.drop_last()).insert(s.last().0, s.last().1)
    }
}

/// Where no entry from index `i` on has key `k`, the map holds for `k` what the
/// entries before `i` give; where entry `i - 1` has it, that entry's value.
pub proof fn lemma_assoc_suffix<K, V>(s: Seq<(K, V)>, k: K, i: int)
    requires
        0 <= i <= s.len(),
        forall|j: int| i <= j < s.len() ==> (#[trigger] s[j]).0 != k,
    ensures
        assoc_map(s).contains_key(k) == assoc_map(s.take(i)).contains_key(k),
        assoc_map(s.take(i)).contains_key(k) ==> assoc_map(s)[k] == assoc_map(s.take(i))[k],
        i > 0 && s[i - 1].0 == k ==> assoc_map(s).contains_key(k) && assoc_map(s)[k] == s[i - 1].1,
    decreases s.len() - i,
{
    if i < s.len() {
        let t = s.drop_last();
        assert forall|j: int| i <= j < t.len() implies (#[trigger] t[j]).0 != k by {
            assert(t[j] == s[j]);
        }
        lemma_assoc_suffix(t, k, i);
        assert(t.take(i) =~= s.take(i));
    } else {
        assert(s.take(i) =~= s);
        if i > 0 && s[i - 1].0 == k {
            assert(s.drop_last() == s.take(i - 1));
        }
    }
}

/// A table from strings to strings.
#[derive(Debug, Clone)]
pub struct StringTable {
    entries: Vec<(String, String)>,
}

pub open spec fn string_pairs(s: Seq<(String, String)>) -> Seq<(Seq<char>, Seq<char>)> {
    s.map_values(|p: (String, String)| (p.0@, p.1@))
}

impl View for StringTable {
    type V = Map<Seq<char>, Seq<char>>;

    closed spec fn view(&self) -> Map<Seq<char>, Seq<char>> {
        assoc_map(string_pairs(self.entries@))
    }
}

impl StringTable {
    /// An empty table.
    pub fn new() -> (r: Self)
        ensures
            r@ == Map::<Seq<char>, Seq<char>>::empty(),
    {
        let r = StringTable { entries: Vec::new() };
        assert(string_pairs(r.entries@) =~= Seq::<(Seq<char>, Seq<char>)>::empty());
        r
    }

    /// Maps `key` to `value`, replacing what it was mapped to.
    pub fn insert(&mut self, key: String, value: String)
        ensures
            final(self)@ == old(self)@.insert(key@, value@),
    {
        let ghost k = key@;
        let ghost v = value@;
        self.entries.push((key, value));
        assert(string_pairs(self.entries@).drop_last() =~= string_pairs(old(self).entries@));
    }

    /// The value that `key` is mapped to.
    pub fn get(&self, key: &str) -> (r: Option<&String>)
        ensures
            match r {
                Some(v) => self@.contains_key(key@) && self@[key@] == v@,
                None => !self@.contains_key(key@),
            },
    {
        let k = key.to_owned();
        let ghost s = string_pairs(self.entries@);
        let mut i: usize = self.entries.len();
        while i > 0
            invariant
                i <= self.entries@.len(),
                s == string_pairs(self.entries@),
                k@ == key@,
                forall|j: int| i <= j < s.len() ==> (#[trigger] s[j]).0 != key@,
            decreases i,
        {
            if self.entries[i - 1].0 == k {
                proof {
                    lemma_assoc_suffix(s, key@, i as int);
                }
                return Some(&self.entries[i - 1].1);
            }
            i = i - 1;
        }
        proof {
            lemma_assoc_suffix(s, key@, 0);
        }
        None
    }
}

} // verus!
