//! Property bags: the key/value metadata the server attaches to a global
//! object. A bag is an ordered mapping with unique keys; writing an existing
//! key replaces its value in place, so the last write wins.

use vstd::prelude::*;

verus! {

/// The mapping described by a sequence of key/value entries, a later entry
/// overriding an earlier one with the same key.
pub open spec fn entries_map(s: Seq<(String, String)>) -> Map<Seq<char>, Seq<char>>
    decreases s.len(),
{
    if s.len() == 0 {
        Map::<Seq<char>, Seq<char>>::empty()
    } else {
        entries_map(s.drop_last()).insert(s.last().0@, s.last().1@)
    }
}

/// A key is in the mapping of an entry sequence exactly when some entry
/// carries it.
pub proof fn lemma_entries_map_dom(s: Seq<(String, String)>, k: Seq<char>)
    ensures
        entries_map(s).contains_key(k) <==> exists|i: int| 0 <= i < s.len() && s[i].0@ == k,
    decreases s.len(),
{
    if s.len() > 0 {
        lemma_entries_map_dom(s.drop_last(), k);
        if s.last().0@ != k && entries_map(s).contains_key(k) {
            let i = choose|i: int| 0 <= i < s.drop_last().len() && s.drop_last()[i].0@ == k;
            assert(s[i].0@ == k);
        }
        if exists|i: int| 0 <= i < s.len() && s[i].0@ == k {
            let i = choose|i: int| 0 <= i < s.len() && s[i].0@ == k;
            if i < s.len() - 1 {
                assert(s.drop_last()[i].0@ == k);
            }
        }
    }
}

/// The value the mapping gives a key is the one of the last entry carrying
/// that key.
pub proof fn lemma_entries_map_value(s: Seq<(String, String)>, i: int)
    requires
        0 <= i < s.len(),
        forall|j: int| i < j < s.len() ==> s[j].0@ != s[i].0@,
    ensures
        entries_map(s).contains_key(s[i].0@),
        entries_map(s)[s[i].0@] == s[i].1@,
    decreases s.len(),
{
    lemma_entries_map_dom(s, s[i].0@);
    if i < s.len() - 1 {
        assert(s.drop_last()[i] == s[i]);
        lemma_entries_map_value(s.drop_last(), i);
    }
}

/// Replacing the value of the last entry that carries a key updates the
/// mapping at that key.
proof fn lemma_entries_map_update(s: Seq<(String, String)>, i: int, key: String, value: String)
    requires
        0 <= i < s.len(),
        key@ == s[i].0@,
        forall|j: int| i < j < s.len() ==> s[j].0@ != s[i].0@,
    ensures
        entries_map(s.update(i, (key, value))) == entries_map(s).insert(key@, value@),
    decreases s.len(),
{
    let t = s.update(i, (key, value));
    if i == s.len() - 1 {
        assert(t.drop_last() =~= s.drop_last());
        assert(t.last() == (key, value));
        assert(entries_map(t) =~= entries_map(s).insert(key@, value@));
    } else {
        lemma_entries_map_update(s.drop_last(), i, key, value);
        assert(t.drop_last() =~= s.drop_last().update(i, (key, value)));
        assert(t.last() == s.last());
        assert(s.last().0@ != key@);
        assert(entries_map(t) =~= entries_map(s).insert(key@, value@));
    }
}

/// An ordered mapping from string keys to string values; the server returns
/// one of these for any object it announces.
#[derive(Debug, PartialEq, Eq)]
pub struct PropertyBag {
    entries: Vec<(String, String)>,
}

impl PropertyBag {
    /// Keys are pairwise distinct.
    pub closed spec fn wf(self) -> bool {
        forall|i: int, j: int|
            0 <= i < j < self.entries@.len() ==> self.entries@[i].0@ != self.entries@[j].0@
    }

    /// The mapping held by the bag.
    pub closed spec fn as_map(self) -> Map<Seq<char>, Seq<char>> {
        entries_map(self.entries@)
    }

    /// The keys, in insertion order.
    pub closed spec fn key_seq(self) -> Seq<Seq<char>> {
        self.entries@.map_values(|p: (String, String)| p.0@)
    }

    /// An empty bag.
    pub fn new() -> (r: Self)
        ensures
            r.wf(),
            r.as_map() == Map::<Seq<char>, Seq<char>>::empty(),
            r.key_seq() == Seq::<Seq<char>>::empty(),
    {
        let r = PropertyBag { entries: Vec::new() };
        proof {
            assert(r.key_seq() =~= Seq::<Seq<char>>::empty());
        }
        r
    }

    /// How many keys the bag holds.
    pub fn len(&self) -> (r: usize)
        ensures
            r == self.key_seq().len(),
    {
        self.entries.len()
    }

    /// The entry at a position, in insertion order.
    pub fn entry_at(&self, i: usize) -> (r: &(String, String))
        requires
            i < self.key_seq().len(),
        ensures
            r.0@ == self.key_seq()[i as int],
            self.wf() ==> self.as_map().contains_key(r.0@) && r.1@ == self.as_map()[r.0@],
    {
        proof {
            if self.wf() {
                lemma_entries_map_value(self.entries@, i as int);
            }
        }
        &self.entries[i]
    }

    /// Writes one key. An existing key keeps its position and takes the new
    /// value; a new key is appended.
    #[verifier::loop_isolation(false)]
    pub fn insert(&mut self, key: String, value: String)
        requires
            old(self).wf(),
        ensures
            final(self).wf(),
            final(self).as_map() == old(self).as_map().insert(key@, value@),
            old(self).as_map().contains_key(key@) ==> final(self).key_seq() == old(
                self,
            ).key_seq(),
            !old(self).as_map().contains_key(key@) ==> final(self).key_seq() == old(
                self,
            ).key_seq().push(key@),
    {
        proof {
            lemma_entries_map_dom(old(self).entries@, key@);
        }
        let ghost pre = old(self).entries@;
        let mut i: usize = 0;
        while i < self.entries.len()
            invariant
                self.entries@ == pre,
                i <= pre.len(),
                forall|j: int| 0 <= j < i ==> pre[j].0@ != key@,
            decreases pre.len() - i,
        {
            if self.entries[i].0 == key {
                self.entries.set(i, (key, value));
                proof {
                    let post = self.entries@;
                    assert(post == pre.update(i as int, (key, value)));
                    assert forall|p: int, q: int|
                        0 <= p < q < post.len() implies post[p].0@ != post[q].0@ by {
                        assert(pre[p].0@ != pre[q].0@);
                        assert(post[p].0@ == pre[p].0@);
                        assert(post[q].0@ == pre[q].0@);
                    }
                    lemma_entries_map_update(pre, i as int, key, value);
                    assert(self.key_seq() =~= old(self).key_seq());
                }
                return;
            }
            i += 1;
        }
        self.entries.push((key, value));
        proof {
            let post = self.entries@;
            assert forall|p: int, q: int|
                0 <= p < q < post.len() implies post[p].0@ != post[q].0@ by {
                if q < post.len() - 1 {
                    assert(pre[p].0@ != pre[q].0@);
                } else {
                    assert(pre[p].0@ != key@);
                }
            }
            assert(post.drop_last() =~= pre);
            assert(self.key_seq() =~= old(self).key_seq().push(key@));
        }
    }

    /// Looks a key up.
    #[verifier::loop_isolation(false)]
    pub fn get(&self, key: &str) -> (r: Option<&String>)
        requires
            self.wf(),
        ensures
            match r {
                Some(v) => self.as_map().contains_key(key@) && v@ == self.as_map()[key@],
                None => !self.as_map().contains_key(key@),
            },
    {
        proof {
            lemma_entries_map_dom(self.entries@, key@);
        }
        let k: String = key.to_owned();
        let mut i: usize = 0;
        while i < self.entries.len()
            invariant
                i <= self.entries@.len(),
                forall|j: int| 0 <= j < i ==> self.entries@[j].0@ != key@,
            decreases self.entries@.len() - i,
        {
            if self.entries[i].0 == k {
                proof {
                    lemma_entries_map_value(self.entries@, i as int);
                }
                return Some(&self.entries[i].1);
            }
            i += 1;
        }
        None
    }

    /// Converts a raw announced dictionary, later duplicates overriding
    /// earlier ones.
    #[verifier::loop_isolation(false)]
    pub fn from_entries(dict: &Vec<(String, String)>) -> (r: Self)
        ensures
            r.wf(),
            r.as_map() == entries_map(dict@),
    {
        let mut r = PropertyBag::new();
        let mut i: usize = 0;
        while i < dict.len()
            invariant
                r.wf(),
                i <= dict@.len(),
                r.as_map() == entries_map(dict@.take(i as int)),
            decreases dict@.len() - i,
        {
            let key = dict[i].0.clone();
            let value = dict[i].1.clone();
            r.insert(key, value);
            proof {
                assert(dict@.take(i as int + 1).drop_last() =~= dict@.take(i as int));
                assert(dict@.take(i as int + 1).last() == dict@[i as int]);
            }
            i += 1;
        }
        proof {
            assert(dict@.take(dict@.len() as int) =~= dict@);
        }
        r
    }
}

} // verus!
