use crate::kv::{assoc_map, lemma_assoc_contains, lemma_assoc_push, lemma_assoc_update, unique_keys,
    lemma_assoc_value};
use vstd::prelude::*;

verus! {

/// Whether two maps hold the same information about one name: both or
/// neither contain it, with equal values if both.
pub open spec fn maps_agree_at(m1: Map<Seq<char>, Seq<char>>, m2: Map<Seq<char>, Seq<char>>, k:
    Seq<char>) -> bool {
    m1.contains_key(k) == m2.contains_key(k) && (m1.contains_key(k) ==> m1[k] == m2[k])
}

/// Header elements attached to a message envelope: a mapping from header
/// names to values, with insertion overwriting an existing name.
#[derive(Debug)]
pub struct MessageHeader {
    entries: Vec<(String, String)>,
}

impl View for MessageHeader {
    type V = Map<Seq<char>, Seq<char>>;

    closed spec fn view(&self) -> Map<Seq<char>, Seq<char>> {
        assoc_map(self.entries@)
    }
}

impl MessageHeader {
    /// Each header name appears at most once.
    pub closed spec fn wf(&self) -> bool {
        unique_keys(self.entries@)
    }

    /// How many header entries are stored; equal to the number of distinct
    /// names when the header is well formed.
    pub closed spec fn spec_len(&self) -> nat {
        self.entries@.len()
    }

    pub fn new() -> (h: MessageHeader)
        ensures
            h.wf(),
            h@ == Map::<Seq<char>, Seq<char>>::empty(),
            h.spec_len() == 0,
    {
        MessageHeader { entries: Vec::new() }
    }

    /// The index of the entry carrying `key`, if any.
    fn find(&self, key: &String) -> (r: Option<usize>)
        ensures
            match r {
                Some(i) => i < self.entries@.len() && self.entries@[i as int].0@ == key@
                    && forall|j: int| 0 <= j < i ==> (#[trigger] self.entries@[j]).0@ != key@,
                None => forall|j: int|
                    0 <= j < self.entries@.len() ==> (#[trigger] self.entries@[j]).0@ != key@,
            },
    {
        let n = self.entries.len();
        let mut i: usize = 0;
        while i < n
            invariant
                i <= n,
                n == self.entries@.len(),
                forall|j: int| 0 <= j < i ==> (#[trigger] self.entries@[j]).0@ != key@,
            decreases n - i,
        {
            if self.entries[i].0 == *key {
                return Some(i);
            }
            i += 1;
        }
        None
    }

    /// Associates `value` with `key`, overwriting any value stored for `key`
    /// before.
    pub fn insert(&mut self, key: String, value: String)
        requires
            old(self).wf(),
        ensures
            final(self).wf(),
            final(self)@ == old(self)@.insert(key@, value@),
            old(self)@.contains_key(key@) ==> final(self).spec_len() == old(self).spec_len(),
            !old(self)@.contains_key(key@) ==> final(self).spec_len() == old(self).spec_len() + 1,
    {
        proof {
            lemma_assoc_contains(self.entries@, key@);
        }
        match self.find(&key) {
            Some(i) => {
                let ghost s0 = self.entries@;
                let ghost gv = value;
                let entry = &mut self.entries[i];
                entry.1 = value;
                proof {
                    let e = (s0[i as int].0, gv);
                    assert(self.entries@ =~= s0.update(i as int, e));
                    lemma_assoc_update(s0, i as int, e);
                    assert(self@ == old(self)@.insert(key@, gv@));
                    assert forall|a: int, b: int| 0 <= a < b < self.entries@.len() implies (
                    #[trigger] self.entries@[a]).0@ != (#[trigger] self.entries@[b]).0@ by {
                        assert(self.entries@[a].0@ == s0[a].0@);
                        assert(self.entries@[b].0@ == s0[b].0@);
                    }
                }
            }
            None => {
                proof {
                    lemma_assoc_push(self.entries@, (key, value));
                }
                self.entries.push((key, value));
            }
        }
    }

    /// The value stored for `key`, if any.
    pub fn get(&self, key: &String) -> (r: Option<&String>)
        ensures
            match r {
                Some(v) => self@.contains_key(key@) && v@ == self@[key@],
                None => !self@.contains_key(key@),
            },
    {
        proof {
            lemma_assoc_contains(self.entries@, key@);
        }
        match self.find(key) {
            Some(i) => {
                proof {
                    lemma_assoc_value(self.entries@, i as int);
                }
                Some(&self.entries[i].1)
            }
            None => None,
        }
    }

    /// The number of entries stored.
    pub fn len(&self) -> (r: usize)
        ensures
            r == self.spec_len(),
    {
        self.entries.len()
    }

    /// Inserts every entry of `other`, in order, overwriting values already
    /// stored for the same name.
    pub fn extend(&mut self, other: MessageHeader)
        requires
            old(self).wf(),
            other.wf(),
        ensures
            final(self).wf(),
            final(self)@ == old(self)@.union_prefer_right(other@),
    {
        let ghost m0 = self@;
        let n = other.entries.len();
        let mut i: usize = 0;
        while i < n
            invariant
                self.wf(),
                other.wf(),
                i <= n,
                n == other.entries@.len(),
                self@ == m0.union_prefer_right(assoc_map(other.entries@.take(i as int))),
            decreases n - i,
        {
            let k = other.entries[i].0.clone();
            let v = other.entries[i].1.clone();
            proof {
                let pre = other.entries@.take(i as int);
                assert(other.entries@.take(i as int + 1) =~= pre.push(other.entries@[i as int]));
                assert(forall|j: int|
                    0 <= j < pre.len() ==> (#[trigger] pre[j]).0@ != other.entries@[i as int].0@);
                lemma_assoc_push(pre, other.entries@[i as int]);
                vstd::map_lib::lemma_union_insert_right(
                    m0,
                    assoc_map(pre),
                    other.entries@[i as int].0@,
                    other.entries@[i as int].1@,
                );
            }
            self.insert(k, v);
            i += 1;
        }
        proof {
            assert(other.entries@.take(n as int) =~= other.entries@);
        }
    }

    /// Whether this header and `other` hold the same information about
    /// `key`.
    fn agrees_with_at(&self, other: &MessageHeader, key: &String) -> (r: bool)
        ensures
            r == maps_agree_at(self@, other@, key@),
    {
        match (self.get(key), other.get(key)) {
            (Some(a), Some(b)) => *a == *b,
            (None, None) => true,
            _ => false,
        }
    }
}

impl PartialEq for MessageHeader {
    /// Two headers are equal when they map the same names to the same
    /// values, whatever order their entries are stored in.
    fn eq(&self, other: &MessageHeader) -> (r: bool) {
        let n = self.entries.len();
        let mut i: usize = 0;
        while i < n
            invariant
                i <= n,
                n == self.entries@.len(),
                forall|j: int|
                    0 <= j < i ==> maps_agree_at(self@, other@, (#[trigger] self.entries@[j]).0@),
            decreases n - i,
        {
            if !self.agrees_with_at(other, &self.entries[i].0) {
                return false;
            }
            i += 1;
        }
        let m = other.entries.len();
        let mut j: usize = 0;
        while j < m
            invariant
                j <= m,
                m == other.entries@.len(),
                n == self.entries@.len(),
                forall|a: int|
                    0 <= a < n ==> maps_agree_at(self@, other@, (#[trigger] self.entries@[a]).0@),
                forall|b: int|
                    0 <= b < j ==> maps_agree_at(self@, other@, (#[trigger] other.entries@[b]).0@),
            decreases m - j,
        {
            if !self.agrees_with_at(other, &other.entries[j].0) {
                return false;
            }
            j += 1;
        }
        proof {
            assert forall|k: Seq<char>| self@.dom().contains(k) == other@.dom().contains(k) by {
                lemma_assoc_contains(self.entries@, k);
                lemma_assoc_contains(other.entries@, k);
                if self@.contains_key(k) {
                    let idx = choose|idx: int|
                        0 <= idx < self.entries@.len() && (#[trigger] self.entries@[idx]).0@ == k;
                    assert(maps_agree_at(self@, other@, self.entries@[idx].0@));
                }
                if other@.contains_key(k) {
                    let idx = choose|idx: int|
                        0 <= idx < other.entries@.len() && (#[trigger] other.entries@[idx]).0@
                            == k;
                    assert(maps_agree_at(self@, other@, other.entries@[idx].0@));
                }
            }
            assert forall|k: Seq<char>| self@.dom().contains(k) implies self@[k] == other@[k] by {
                lemma_assoc_contains(self.entries@, k);
                let idx = choose|idx: int|
                    0 <= idx < self.entries@.len() && (#[trigger] self.entries@[idx]).0@ == k;
                assert(maps_agree_at(self@, other@, self.entries@[idx].0@));
            }
            assert(self@ =~= other@);
        }
        true
    }
}

impl vstd::std_specs::cmp::PartialEqSpecImpl for MessageHeader {
    open spec fn obeys_eq_spec() -> bool {
        true
    }

    open spec fn eq_spec(&self, other: &MessageHeader) -> bool {
        self@ == other@
    }
}

} // verus!
