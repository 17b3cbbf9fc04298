use crate::kv::{assoc_map, lemma_assoc_contains, lemma_assoc_push, lemma_assoc_remove,
    lemma_assoc_value, unique_keys};
use crate::message::Pid;
use crate::process::ProcessHandle;
use vstd::prelude::*;

verus! {

/// One independently guarded partition of the registry's key space: a mapping
/// from `Pid` to `ProcessHandle` in which each `Pid` is registered at most
/// once. `ShardedRegistry` owns a fixed array of these; a caller that wants
/// its own locking discipline (one lock per shard) can also use the type
/// directly.
pub struct ShardTable {
    entries: Vec<(Pid, ProcessHandle)>,
}

impl View for ShardTable {
    type V = Map<(Seq<char>, Seq<char>), Seq<char>>;

    closed spec fn view(&self) -> Map<(Seq<char>, Seq<char>), Seq<char>> {
        assoc_map(self.entries@)
    }
}

impl ShardTable {
    /// Each `Pid` is registered at most once.
    pub closed spec fn wf(&self) -> bool {
        unique_keys(self.entries@)
    }

    /// The number of registrations held.
    pub closed spec fn spec_len(&self) -> nat {
        self.entries@.len()
    }

    /// The keys of the table, as a sequence in registration order.
    pub closed spec fn spec_key_at(&self, i: int) -> (Seq<char>, Seq<char>) {
        self.entries@[i].0@
    }

    pub fn new() -> (t: ShardTable)
        ensures
            t.wf(),
            t@ == Map::<(Seq<char>, Seq<char>), Seq<char>>::empty(),
            t.spec_len() == 0,
    {
        ShardTable { entries: Vec::new() }
    }

    /// The index of the entry registered under `key`, if any.
    fn find(&self, key: &Pid) -> (r: Option<usize>)
        ensures
            match r {
                Some(i) => i < self.entries@.len() && self.entries@[i as int].0@ == key@
                    && forall|j: int| 0 <= j < i ==> (#[trigger] self.entries@[j]).0@ != key@,
                None => forall|j: int|
                    0 <= j < self.entries@.len() ==> (#[trigger] self.entries@[j]).0@ != key@,
            },
    {
        let n = self.entries.len();
        let mut i: usize = 0;
        while i < n
            invariant
                i <= n,
                n == self.entries@.len(),
                forall|j: int| 0 <= j < i ==> (#[trigger] self.entries@[j]).0@ != key@,
            decreases n - i,
        {
            if self.entries[i].0 == *key {
                return Some(i);
            }
            i += 1;
        }
        None
    }

    /// Pure lookup: the handle registered under `key`, if any; never creates.
    pub fn get(&self, key: &Pid) -> (r: Option<ProcessHandle>)
        ensures
            match r {
                Some(h) => self@.contains_key(key@) && h@ == self@[key@],
                None => !self@.contains_key(key@),
            },
    {
        proof {
            lemma_assoc_contains(self.entries@, key@);
        }
        match self.find(key) {
            Some(i) => {
                proof {
                    lemma_assoc_value(self.entries@, i as int);
                }
                Some(self.entries[i].1.clone())
            }
            None => None,
        }
    }

    /// Returns the handle registered under `key`, creating it with `factory`
    /// and registering it first if `key` was absent. Re-registering an
    /// existing key is idempotent: the existing handle is returned unchanged
    /// and the factory's result is not installed.
    pub fn get_or_create<F: FnOnce() -> ProcessHandle>(&mut self, key: &Pid, factory: F) -> (r:
        ProcessHandle)
        requires
            old(self).wf(),
            call_requires(factory, ()),
        ensures
            final(self).wf(),
            final(self)@ == old(self)@.insert(key@, r@),
            old(self)@.contains_key(key@) ==> final(self)@ == old(self)@ && r@ == old(self)@[key@]
                && final(self).spec_len() == old(self).spec_len(),
            !old(self)@.contains_key(key@) ==> call_ensures(factory, (), r)
                && final(self).spec_len() == old(self).spec_len() + 1,
    {
        proof {
            lemma_assoc_contains(self.entries@, key@);
        }
        match self.find(key) {
            Some(i) => {
                proof {
                    lemma_assoc_value(self.entries@, i as int);
                    assert(old(self)@.insert(key@, old(self)@[key@]) =~= old(self)@);
                }
                self.entries[i].1.clone()
            }
            None => {
                let h = factory();
                let r = h.clone();
                proof {
                    lemma_assoc_push(self.entries@, (*key, h));
                }
                let k = key.clone();
                self.entries.push((k, h));
                proof {
                    assert forall|a: int, b: int| 0 <= a < b < self.entries@.len() implies (
                    #[trigger] self.entries@[a]).0@ != (#[trigger] self.entries@[b]).0@ by {}
                }
                r
            }
        }
    }

    /// Removes and returns the handle registered under `key` if present;
    /// removing an absent key is a safe no-op returning `None`.
    pub fn remove(&mut self, key: &Pid) -> (r: Option<ProcessHandle>)
        requires
            old(self).wf(),
        ensures
            final(self).wf(),
            final(self)@ == old(self)@.remove(key@),
            match r {
                Some(h) => old(self)@.contains_key(key@) && h@ == old(self)@[key@]
                    && final(self).spec_len() + 1 == old(self).spec_len(),
                None => !old(self)@.contains_key(key@) && final(self)@ == old(self)@
                    && final(self).spec_len() == old(self).spec_len(),
            },
    {
        proof {
            lemma_assoc_contains(self.entries@, key@);
        }
        match self.find(key) {
            Some(i) => {
                proof {
                    lemma_assoc_value(self.entries@, i as int);
                    lemma_assoc_remove(self.entries@, i as int);
                }
                let (_, h) = self.entries.remove(i);
                Some(h)
            }
            None => {
                proof {
                    assert(old(self)@.remove(key@) =~= old(self)@);
                }
                None
            }
        }
    }

    /// The number of registrations held.
    pub fn len(&self) -> (r: usize)
        ensures
            r == self.spec_len(),
    {
        self.entries.len()
    }

    /// In a well-formed table the entry count is exactly the number of
    /// registered keys: no key is ever counted twice.
    pub proof fn lemma_len_counts_keys(&self)
        requires
            self.wf(),
        ensures
            self@.dom().finite(),
            self@.dom().len() == self.spec_len(),
    {
        crate::kv::lemma_assoc_card(self.entries@);
    }
}

} // verus!
