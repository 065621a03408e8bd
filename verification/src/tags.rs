//! Tag sets: the key/value addressing data carried by every signal and
//! message, and the subset matching rule that routes them.
use vstd::prelude::*;

verus! {

/// `true` iff every key of the listener/target tag set `l` is present in the
/// published tag set `p` with an equal value. The listener constrains, the
/// publisher may over-specify; the empty tag set matches everything.
pub open spec fn tags_match(l: Map<Seq<char>, Seq<char>>, p: Map<Seq<char>, Seq<char>>) -> bool {
    forall|k: Seq<char>| #[trigger] l.dom().contains(k) ==> p.dom().contains(k) && p[k] == l[k]
}

/// The empty tag set matches any published tag set.
pub proof fn lemma_empty_tags_match(p: Map<Seq<char>, Seq<char>>)
    ensures
        tags_match(Map::<Seq<char>, Seq<char>>::empty(), p),
{
}

/// Matching is exact by key and value: a listener tag set only ever matches
/// publishers that carry each of its pairs verbatim, never by prefix or
/// accident.
pub proof fn lemma_match_is_exact(
    l: Map<Seq<char>, Seq<char>>,
    p: Map<Seq<char>, Seq<char>>,
    k: Seq<char>,
)
    requires
        tags_match(l, p),
        l.dom().contains(k),
    ensures
        p.dom().contains(k),
        p[k] == l[k],
{
}

/// An unordered mapping from string key to string value, stored as a vector
/// of pairs with pairwise-distinct keys.
pub struct TagSet {
    entries: Vec<(String, String)>,
}

/// The mathematical value of a sequence of key/value pairs with distinct
/// keys: the map sending each stored key to its stored value.
pub closed spec fn entries_map(s: Seq<(String, String)>) -> Map<Seq<char>, Seq<char>> {
    Map::new(
        |k: Seq<char>| exists|i: int| 0 <= i < s.len() && #[trigger] s[i].0@ == k,
        |k: Seq<char>| s[choose|i: int| 0 <= i < s.len() && #[trigger] s[i].0@ == k].1@,
    )
}

impl View for TagSet {
    type V = Map<Seq<char>, Seq<char>>;

    closed spec fn view(&self) -> Map<Seq<char>, Seq<char>> {
        entries_map(self.entries@)
    }
}

impl TagSet {
    /// Keys are pairwise distinct, so each key determines one value.
    pub closed spec fn wf(&self) -> bool {
        forall|i: int, j: int|
            0 <= i < self.entries@.len() && 0 <= j < self.entries@.len() && i != j
                ==> (#[trigger] self.entries@[i]).0@ != (#[trigger] self.entries@[j]).0@
    }

    proof fn lemma_entry_value(&self, i: int)
        requires
            self.wf(),
            0 <= i < self.entries@.len(),
        ensures
            self@.dom().contains(self.entries@[i].0@),
            self@[self.entries@[i].0@] == self.entries@[i].1@,
    {
        let s = self.entries@;
        let k = s[i].0@;
        assert(exists|j: int| 0 <= j < s.len() && #[trigger] s[j].0@ == k);
        let j = choose|j: int| 0 <= j < s.len() && #[trigger] s[j].0@ == k;
        assert(j == i);
    }

    pub fn new() -> (r: TagSet)
        ensures
            r.wf(),
            r@ == Map::<Seq<char>, Seq<char>>::empty(),
    {
        let r = TagSet { entries: Vec::new() };
        proof {
            assert(r@ =~= Map::<Seq<char>, Seq<char>>::empty());
        }
        r
    }

    pub fn len(&self) -> (n: usize)
        requires
            self.wf(),
        ensures
            n == self@.dom().len(),
    {
        proof {
            self.lemma_dom_len();
        }
        self.entries.len()
    }

    proof fn lemma_dom_len(&self)
        requires
            self.wf(),
        ensures
            self@.dom().len() == self.entries@.len(),
            self@.dom().finite(),
    {
        Self::lemma_dom_len_rec(self.entries@);
    }

    spec fn spec_with_entries_dom(s: Seq<(String, String)>) -> Set<Seq<char>> {
        entries_map(s).dom()
    }

    proof fn lemma_dom_len_rec(s: Seq<(String, String)>)
        requires
            forall|i: int, j: int|
                0 <= i < s.len() && 0 <= j < s.len() && i != j ==> (#[trigger] s[i]).0@ != (
                #[trigger] s[j]).0@,
        ensures
            Self::spec_with_entries_dom(s).len() == s.len(),
            Self::spec_with_entries_dom(s).finite(),
        decreases s.len(),
    {
        if s.len() == 0 {
            assert(Self::spec_with_entries_dom(s) =~= Set::<Seq<char>>::empty());
        } else {
            let prefix = s.drop_last();
            let last = s.len() - 1;
            Self::lemma_dom_len_rec(prefix);
            assert forall|k: Seq<char>| #[trigger]
                Self::spec_with_entries_dom(s).contains(k) implies Self::spec_with_entries_dom(
                prefix,
            ).contains(k) || k == s.last().0@ by {
                let i = choose|i: int| 0 <= i < s.len() && #[trigger] s[i].0@ == k;
                if i < last {
                    assert(prefix[i].0@ == k);
                }
            }
            assert forall|k: Seq<char>|
                Self::spec_with_entries_dom(prefix).contains(k) || k == s.last().0@ implies
                #[trigger] Self::spec_with_entries_dom(s).contains(k) by {
                if Self::spec_with_entries_dom(prefix).contains(k) {
                    let i = choose|i: int| 0 <= i < prefix.len() && #[trigger] prefix[i].0@ == k;
                    assert(s[i].0@ == k);
                } else {
                    assert(s[last as int].0@ == k);
                }
            }
            assert(Self::spec_with_entries_dom(s) =~= Self::spec_with_entries_dom(prefix).insert(
                s.last().0@,
            ));
            if Self::spec_with_entries_dom(prefix).contains(s.last().0@) {
                let i = choose|i: int| 0 <= i < prefix.len() && #[trigger] prefix[i].0@ == s.last().0@;
                assert(s[i].0@ == s[last as int].0@);
                assert(false);
            }
        }
    }

    /// Look the key up; `Some` exactly when the key is present, and then the
    /// stored value.
    pub fn get(&self, key: &String) -> (r: Option<&String>)
        requires
            self.wf(),
        ensures
            match r {
                Some(v) => self@.dom().contains(key@) && self@[key@] == v@,
                None => !self@.dom().contains(key@),
            },
    {
        let n = self.entries.len();
        let mut i: usize = 0;
        while i < n
            invariant
                n == self.entries@.len(),
                0 <= i <= n,
                self.wf(),
                forall|j: int| 0 <= j < i ==> (#[trigger] self.entries@[j]).0@ != key@,
            decreases n - i,
        {
            if self.entries[i].0 == *key {
                proof {
                    self.lemma_entry_value(i as int);
                }
                return Some(&self.entries[i].1);
            }
            i += 1;
        }
        proof {
            if self@.dom().contains(key@) {
                let j = choose|j: int|
                    0 <= j < self.entries@.len() && #[trigger] self.entries@[j].0@ == key@;
                assert(false);
            }
        }
        None
    }

    /// Insert or replace: afterwards the tag set maps `key` to `value` and is
    /// otherwise unchanged.
    pub fn insert(&mut self, key: String, value: String)
        requires
            old(self).wf(),
        ensures
            final(self).wf(),
            final(self)@ == old(self)@.insert(key@, value@),
    {
        let n = self.entries.len();
        let mut i: usize = 0;
        while i < n
            invariant
                n == self.entries@.len(),
                0 <= i <= n,
                self.wf(),
                *self == *old(self),
                forall|j: int| 0 <= j < i ==> (#[trigger] self.entries@[j]).0@ != key@,
            decreases n - i,
        {
            if self.entries[i].0 == key {
                self.entries.set(i, (key, value));
                proof {
                    self.lemma_replace_is_insert(old(self), i as int);
                }
                return ;
            }
            i += 1;
        }
        self.entries.push((key, value));
        proof {
            self.lemma_push_is_insert(old(self));
        }
    }

    proof fn lemma_replace_is_insert(&self, prev: &TagSet, i: int)
        requires
            prev.wf(),
            0 <= i < prev.entries@.len(),
            self.entries@ == prev.entries@.update(i, self.entries@[i]),
            self.entries@[i].0@ == prev.entries@[i].0@,
        ensures
            self.wf(),
            self@ == prev@.insert(self.entries@[i].0@, self.entries@[i].1@),
    {
        let k = self.entries@[i].0@;
        let v = self.entries@[i].1@;
        assert forall|a: int, b: int|
            0 <= a < self.entries@.len() && 0 <= b < self.entries@.len() && a != b implies (
        #[trigger] self.entries@[a]).0@ != (#[trigger] self.entries@[b]).0@ by {
            assert(prev.entries@[a].0@ != prev.entries@[b].0@);
        }
        assert forall|k2: Seq<char>| #[trigger]
            self@.dom().contains(k2) == prev@.insert(k, v).dom().contains(k2) by {
            if exists|a: int| 0 <= a < self.entries@.len() && #[trigger] self.entries@[a].0@ == k2 {
                let a = choose|a: int|
                    0 <= a < self.entries@.len() && #[trigger] self.entries@[a].0@ == k2;
                assert(prev.entries@[a].0@ == k2);
            }
            if exists|a: int| 0 <= a < prev.entries@.len() && #[trigger] prev.entries@[a].0@ == k2 {
                let a = choose|a: int|
                    0 <= a < prev.entries@.len() && #[trigger] prev.entries@[a].0@ == k2;
                if a != i {
                    assert(self.entries@[a].0@ == k2);
                } else {
                    assert(self.entries@[i].0@ == k2);
                }
            }
        }
        assert forall|k2: Seq<char>| #[trigger] self@.dom().contains(k2) implies self@[k2]
            == prev@.insert(k, v)[k2] by {
            let a = choose|a: int|
                0 <= a < self.entries@.len() && #[trigger] self.entries@[a].0@ == k2;
            self.lemma_entry_value(a);
            if k2 == k {
                assert(a == i);
            } else {
                assert(a != i);
                assert(prev.entries@[a].0@ == k2);
                prev.lemma_entry_value(a);
            }
        }
        assert(self@ =~= prev@.insert(k, v));
    }

    proof fn lemma_push_is_insert(&self, prev: &TagSet)
        requires
            prev.wf(),
            self.entries@ == prev.entries@.push(self.entries@.last()),
            self.entries@.len() == prev.entries@.len() + 1,
            forall|j: int|
                0 <= j < prev.entries@.len() ==> (#[trigger] prev.entries@[j]).0@
                    != self.entries@.last().0@,
        ensures
            self.wf(),
            self@ == prev@.insert(self.entries@.last().0@, self.entries@.last().1@),
    {
        let s = self.entries@;
        let k = s.last().0@;
        let v = s.last().1@;
        let last = s.len() - 1;
        assert forall|a: int, b: int| 0 <= a < s.len() && 0 <= b < s.len() && a != b implies (
        #[trigger] s[a]).0@ != (#[trigger] s[b]).0@ by {
            if a < last && b < last {
                assert(prev.entries@[a].0@ != prev.entries@[b].0@);
            } else if a == last {
                assert(prev.entries@[b].0@ != k);
            } else {
                assert(prev.entries@[a].0@ != k);
            }
        }
        assert forall|k2: Seq<char>| #[trigger]
            self@.dom().contains(k2) == prev@.insert(k, v).dom().contains(k2) by {
            if exists|a: int| 0 <= a < s.len() && #[trigger] s[a].0@ == k2 {
                let a = choose|a: int| 0 <= a < s.len() && #[trigger] s[a].0@ == k2;
                if a < last {
                    assert(prev.entries@[a].0@ == k2);
                }
            }
            if exists|a: int| 0 <= a < prev.entries@.len() && #[trigger] prev.entries@[a].0@ == k2 {
                let a = choose|a: int|
                    0 <= a < prev.entries@.len() && #[trigger] prev.entries@[a].0@ == k2;
                assert(s[a].0@ == k2);
            }
        }
        assert forall|k2: Seq<char>| #[trigger] self@.dom().contains(k2) implies self@[k2]
            == prev@.insert(k, v)[k2] by {
            let a = choose|a: int| 0 <= a < s.len() && #[trigger] s[a].0@ == k2;
            self.lemma_entry_value(a);
            if k2 == k {
                assert(a == last);
            } else {
                assert(a != last);
                assert(prev.entries@[a].0@ == k2);
                prev.lemma_entry_value(a);
            }
        }
        assert(self@ =~= prev@.insert(k, v));
    }

    /// Subset matching: `true` iff every pair of `self` occurs in `p`.
    pub fn matches_published(&self, p: &TagSet) -> (r: bool)
        requires
            self.wf(),
            p.wf(),
        ensures
            r == tags_match(self@, p@),
    {
        let n = self.entries.len();
        let mut i: usize = 0;
        while i < n
            invariant
                n == self.entries@.len(),
                0 <= i <= n,
                self.wf(),
                p.wf(),
                forall|j: int|
                    0 <= j < i ==> p@.dom().contains((#[trigger] self.entries@[j]).0@) && p@[(
                    #[trigger] self.entries@[j]).0@] == self.entries@[j].1@,
            decreases n - i,
        {
            let matched = match p.get(&self.entries[i].0) {
                Some(v) => *v == self.entries[i].1,
                None => false,
            };
            if !matched {
                proof {
                    self.lemma_entry_value(i as int);
                }
                return false;
            }
            i += 1;
        }
        proof {
            assert forall|k: Seq<char>| #[trigger] self@.dom().contains(k) implies p@.dom()
                .contains(k) && p@[k] == self@[k] by {
                let a = choose|a: int|
                    0 <= a < self.entries@.len() && #[trigger] self.entries@[a].0@ == k;
                self.lemma_entry_value(a);
            }
        }
        true
    }
}

impl Clone for TagSet {
    fn clone(&self) -> (r: Self)
        ensures
            r@ == self@,
            r.wf() == self.wf(),
    {
        let n = self.entries.len();
        let mut out: Vec<(String, String)> = Vec::new();
        let mut i: usize = 0;
        while i < n
            invariant
                n == self.entries@.len(),
                0 <= i <= n,
                out@ == self.entries@.subrange(0, i as int),
            decreases n - i,
        {
            out.push((self.entries[i].0.clone(), self.entries[i].1.clone()));
            proof {
                assert(out@ =~= self.entries@.subrange(0, i + 1));
            }
            i += 1;
        }
        proof {
            assert(out@ =~= self.entries@);
        }
        TagSet { entries: out }
    }
}

} // verus!
