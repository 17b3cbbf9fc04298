use crate::message::Pid;
use crate::process::{ProcessHandle, ShardTable};
use std::collections::hash_map::DefaultHasher;
use std::hash::Hasher;
use vstd::prelude::*;
use vstd::std_specs::hash::DefaultHasherAdditionalSpecFns;
use vstd::utf8::encode_utf8;

verus! {

/// The 64-bit content hash of a key: the hash of the byte representation of
/// its host followed by the byte representation of its local identifier.
/// A pure function of the key, so identical keys always hash alike within one
/// process run; stability across runs is not promised.
pub open spec fn spec_key_hash(k: (Seq<char>, Seq<char>)) -> u64 {
    DefaultHasher::spec_finish(seq![encode_utf8(k.0), encode_utf8(k.1)])
}

/// The shard a key belongs to: the key's hash with the sign bit of its low 32
/// bits masked off, reduced modulo the shard count. Deterministic in
/// `(k, shard_count)` and always in `[0, shard_count)` when `shard_count > 0`.
pub open spec fn spec_partition(k: (Seq<char>, Seq<char>), shard_count: int) -> int {
    ((spec_key_hash(k) & 0x7fff_ffff) as int) % shard_count
}

/// Computes the shard `key` belongs to. Hashing happens outside any shard
/// lock; the result is non-negative regardless of the sign of the hash type.
pub fn partition_index(key: &Pid, shard_count: usize) -> (r: usize)
    requires
        shard_count > 0,
    ensures
        r == spec_partition(key@, shard_count as int),
        r < shard_count,
{
    let mut hasher = DefaultHasher::new();
    hasher.write(key.host.as_str().as_bytes());
    hasher.write(key.id.as_str().as_bytes());
    let h = hasher.finish();
    proof {
        assert(hasher@ =~= seq![encode_utf8(key.host@), encode_utf8(key.id@)]);
        assert((h & 0x7fff_ffff) <= 0x7fff_ffff) by (bit_vector);
    }
    let masked = h & 0x7fff_ffff;
    (masked % (shard_count as u64)) as usize
}

/// Calling the partition function twice with the same key and shard count
/// always yields the same index, and the index is always in
/// `[0, shard_count)`.
pub proof fn lemma_partition_deterministic(k1: (Seq<char>, Seq<char>), k2: (Seq<char>, Seq<char>),
    shard_count: int)
    requires
        k1 == k2,
        shard_count > 0,
    ensures
        spec_partition(k1, shard_count) == spec_partition(k2, shard_count),
        0 <= spec_partition(k1, shard_count) < shard_count,
{
}

/// The sum of the sizes of the first `k` shards.
pub open spec fn sum_prefix(shards: Seq<ShardTable>, k: int) -> int
    decreases k,
{
    if k <= 0 {
        0
    } else {
        sum_prefix(shards, k - 1) + shards[k - 1].spec_len()
    }
}

proof fn lemma_sum_prefix_nonneg(shards: Seq<ShardTable>, k: int)
    ensures
        sum_prefix(shards, k) >= 0,
    decreases k,
{
    if k > 0 {
        lemma_sum_prefix_nonneg(shards, k - 1);
    }
}

proof fn lemma_sum_prefix_le(shards: Seq<ShardTable>, k: int)
    requires
        0 <= k <= shards.len(),
    ensures
        sum_prefix(shards, k) <= sum_prefix(shards, shards.len() as int),
    decreases shards.len() - k,
{
    if k < shards.len() {
        lemma_sum_prefix_le(shards, k + 1);
    }
}

/// `sum_prefix` only reads the first `k` shards.
proof fn lemma_sum_prefix_agree(s1: Seq<ShardTable>, s2: Seq<ShardTable>, k: int)
    requires
        0 <= k <= s1.len(),
        k <= s2.len(),
        forall|i: int| 0 <= i < k ==> s1[i].spec_len() == s2[i].spec_len(),
    ensures
        sum_prefix(s1, k) == sum_prefix(s2, k),
    decreases k,
{
    if k > 0 {
        lemma_sum_prefix_agree(s1, s2, k - 1);
    }
}

/// The sum changes by exactly the change of the one updated shard.
proof fn lemma_sum_prefix_update(shards: Seq<ShardTable>, i: int, t: ShardTable, k: int)
    requires
        0 <= i < shards.len(),
        0 <= k <= shards.len(),
    ensures
        sum_prefix(shards.update(i, t), k) == if i < k {
            sum_prefix(shards, k) - shards[i].spec_len() + t.spec_len()
        } else {
            sum_prefix(shards, k)
        },
    decreases k,
{
    if k > 0 {
        lemma_sum_prefix_update(shards, i, t, k - 1);
    }
}

/// The keys registered in the first `k` shards.
spec fn doms_prefix(shards: Seq<ShardTable>, k: int) -> Set<(Seq<char>, Seq<char>)>
    decreases k,
{
    if k <= 0 {
        Set::empty()
    } else {
        doms_prefix(shards, k - 1) + shards[k - 1]@.dom()
    }
}

proof fn lemma_doms_prefix_contains(shards: Seq<ShardTable>, k: int, x: (Seq<char>, Seq<char>))
    requires
        0 <= k <= shards.len(),
    ensures
        doms_prefix(shards, k).contains(x) <==> exists|s: int|
            0 <= s < k && (#[trigger] shards[s])@.dom().contains(x),
    decreases k,
{
    if k > 0 {
        lemma_doms_prefix_contains(shards, k - 1, x);
        if doms_prefix(shards, k).contains(x) && !doms_prefix(shards, k - 1).contains(x) {
            assert(shards[k - 1]@.dom().contains(x));
        }
        if exists|s: int| 0 <= s < k && (#[trigger] shards[s])@.dom().contains(x) {
            let s = choose|s: int| 0 <= s < k && (#[trigger] shards[s])@.dom().contains(x);
            if s < k - 1 {
                assert(doms_prefix(shards, k - 1).contains(x));
            } else {
                assert(doms_prefix(shards, k).contains(x));
            }
        }
    }
}

proof fn lemma_doms_prefix_card(shards: Seq<ShardTable>, k: int)
    requires
        0 <= k <= shards.len(),
        forall|s: int| 0 <= s < shards.len() ==> (#[trigger] shards[s]).wf(),
        forall|s: int, x: (Seq<char>, Seq<char>)|
            0 <= s < shards.len() && #[trigger] shards[s]@.contains_key(x) ==> spec_partition(x,
                shards.len() as int) == s,
    ensures
        doms_prefix(shards, k).finite(),
        doms_prefix(shards, k).len() == sum_prefix(shards, k),
    decreases k,
{
    if k > 0 {
        lemma_doms_prefix_card(shards, k - 1);
        shards[k - 1].lemma_len_counts_keys();
        assert forall|x: (Seq<char>, Seq<char>)| !(#[trigger] doms_prefix(shards, k - 1).contains(
            x) && shards[k - 1]@.dom().contains(x)) by {
            if doms_prefix(shards, k - 1).contains(x) && shards[k - 1]@.dom().contains(x) {
                lemma_doms_prefix_contains(shards, k - 1, x);
                let s = choose|s: int| 0 <= s < k - 1 && (#[trigger] shards[s])@.dom().contains(x);
                assert(shards[s]@.contains_key(x));
                assert(shards[k - 1]@.contains_key(x));
            }
        }
        assert(doms_prefix(shards, k - 1).disjoint(shards[k - 1]@.dom()));
        vstd::set_lib::lemma_set_disjoint_lens(doms_prefix(shards, k - 1), shards[k - 1]@.dom());
    }
}

/// Concurrency-safe storage with exactly-once-creation semantics per key: a
/// fixed array of independently guarded partitions of the `Pid` space. The
/// shard count is chosen at construction and never changes; a key is served
/// entirely by the one shard the partition function assigns it to.
pub struct ShardedRegistry {
    shards: Vec<ShardTable>,
}

impl View for ShardedRegistry {
    type V = Map<(Seq<char>, Seq<char>), Seq<char>>;

    closed spec fn view(&self) -> Map<(Seq<char>, Seq<char>), Seq<char>> {
        Map::new(
            |k: (Seq<char>, Seq<char>)|
                self.shards@[spec_partition(k, self.shards@.len() as int)]@.contains_key(k),
            |k: (Seq<char>, Seq<char>)|
                self.shards@[spec_partition(k, self.shards@.len() as int)]@[k],
        )
    }
}

impl ShardedRegistry {
    /// The number of shards, fixed at construction.
    pub closed spec fn spec_shard_count(&self) -> int {
        self.shards@.len() as int
    }

    /// The mapping held by shard `s`.
    pub closed spec fn spec_shard(&self, s: int) -> Map<(Seq<char>, Seq<char>), Seq<char>> {
        self.shards@[s]@
    }

    /// The total number of registrations, summed over all shards.
    pub closed spec fn spec_total(&self) -> int {
        sum_prefix(self.shards@, self.shards@.len() as int)
    }

    /// There is at least one shard, every shard is well formed, every key
    /// rests in the one shard the partition function assigns it to, and the
    /// total number of registrations fits a machine word.
    pub closed spec fn wf(&self) -> bool {
        &&& self.shards@.len() >= 1
        &&& forall|s: int| 0 <= s < self.shards@.len() ==> (#[trigger] self.shards@[s]).wf()
        &&& forall|s: int, k: (Seq<char>, Seq<char>)|
            0 <= s < self.shards@.len() && #[trigger] self.shards@[s]@.contains_key(k)
                ==> spec_partition(k, self.shards@.len() as int) == s
        &&& self.spec_total() <= usize::MAX
    }

    /// Creates a registry with `shard_count` independently guarded shards;
    /// a registry with no shards would admit no valid partitioning, so a
    /// positive count is required.
    pub fn new(shard_count: usize) -> (r: ShardedRegistry)
        requires
            shard_count >= 1,
        ensures
            r.wf(),
            r.spec_shard_count() == shard_count,
            r@ == Map::<(Seq<char>, Seq<char>), Seq<char>>::empty(),
            r.spec_total() == 0,
    {
        let mut shards: Vec<ShardTable> = Vec::new();
        let mut i: usize = 0;
        while i < shard_count
            invariant
                i <= shard_count,
                shards@.len() == i,
                forall|s: int| 0 <= s < i ==> (#[trigger] shards@[s]).wf(),
                forall|s: int| 0 <= s < i ==> (#[trigger] shards@[s])@
                    == Map::<(Seq<char>, Seq<char>), Seq<char>>::empty(),
                forall|s: int| 0 <= s < i ==> (#[trigger] shards@[s]).spec_len() == 0,
                sum_prefix(shards@, i as int) == 0,
            decreases shard_count - i,
        {
            let ghost pre = shards@;
            shards.push(ShardTable::new());
            proof {
                lemma_sum_prefix_agree(shards@, pre, i as int);
            }
            i += 1;
        }
        let r = ShardedRegistry { shards };
        proof {
            assert(r@ =~= Map::<(Seq<char>, Seq<char>), Seq<char>>::empty());
        }
        r
    }

    /// The number of shards.
    pub fn shard_count(&self) -> (r: usize)
        requires
            self.wf(),
        ensures
            r == self.spec_shard_count(),
    {
        self.shards.len()
    }

    /// Returns the handle registered under `key`, creating and registering it
    /// with `factory` if absent. The whole check-then-insert sequence works on
    /// the one shard `key` belongs to; every other shard is untouched, which
    /// is what lets callers on keys of different shards proceed without
    /// blocking each other. Under racing callers of the same key, exactly one
    /// factory result is installed and every caller receives it.
    pub fn get_or_create<F: FnOnce() -> ProcessHandle>(&mut self, key: &Pid, factory: F) -> (r:
        ProcessHandle)
        requires
            old(self).wf(),
            call_requires(factory, ()),
            old(self).spec_total() < usize::MAX,
        ensures
            final(self).wf(),
            final(self).spec_shard_count() == old(self).spec_shard_count(),
            final(self)@ == old(self)@.insert(key@, r@),
            old(self)@.contains_key(key@) ==> final(self)@ == old(self)@ && r@ == old(self)@[key@]
                && final(self).spec_total() == old(self).spec_total(),
            !old(self)@.contains_key(key@) ==> call_ensures(factory, (), r)
                && final(self).spec_total() == old(self).spec_total() + 1,
            forall|s: int|
                0 <= s < old(self).spec_shard_count() && s != spec_partition(key@,
                    old(self).spec_shard_count()) ==> final(self).spec_shard(s) == old(
                self).spec_shard(s),
    {
        let ghost pre = *self;
        let n = self.shards.len();
        let idx = partition_index(key, n);
        proof {
            lemma_sum_prefix_le(self.shards@, idx as int + 1);
            lemma_sum_prefix_nonneg(self.shards@, idx as int);
            assert(self.shards@[idx as int].spec_len() <= sum_prefix(self.shards@, idx as int + 1));
        }
        let tbl = &mut self.shards[idx];
        let r = tbl.get_or_create(key, factory);
        proof {
            let ghost post = *self;
            assert(post.shards@ =~= pre.shards@.update(idx as int, post.shards@[idx as int]));
            lemma_sum_prefix_update(pre.shards@, idx as int, post.shards@[idx as int], n as int);
            assert(pre@.contains_key(key@) == pre.shards@[idx as int]@.contains_key(key@));
            assert(post@ =~= pre@.insert(key@, r@));
            assert forall|s: int, k: (Seq<char>, Seq<char>)|
                0 <= s < post.shards@.len() && #[trigger] post.shards@[s]@.contains_key(k) implies
                spec_partition(k, post.shards@.len() as int) == s by {
                if s != idx as int {
                    assert(pre.shards@[s]@.contains_key(k));
                }
            }
        }
        r
    }

    /// Pure lookup in the one shard `key` belongs to; never creates.
    pub fn get(&self, key: &Pid) -> (r: Option<ProcessHandle>)
        requires
            self.wf(),
        ensures
            match r {
                Some(h) => self@.contains_key(key@) && h@ == self@[key@],
                None => !self@.contains_key(key@),
            },
    {
        let n = self.shards.len();
        let idx = partition_index(key, n);
        self.shards[idx].get(key)
    }

    /// Removes and returns the handle registered under `key` if present, in
    /// the one shard `key` belongs to; removing an absent key is a safe
    /// no-op returning `None`.
    pub fn remove(&mut self, key: &Pid) -> (r: Option<ProcessHandle>)
        requires
            old(self).wf(),
        ensures
            final(self).wf(),
            final(self).spec_shard_count() == old(self).spec_shard_count(),
            final(self)@ == old(self)@.remove(key@),
            match r {
                Some(h) => old(self)@.contains_key(key@) && h@ == old(self)@[key@]
                    && final(self).spec_total() == old(self).spec_total() - 1,
                None => !old(self)@.contains_key(key@) && final(self)@ == old(self)@
                    && final(self).spec_total() == old(self).spec_total(),
            },
            forall|s: int|
                0 <= s < old(self).spec_shard_count() && s != spec_partition(key@,
                    old(self).spec_shard_count()) ==> final(self).spec_shard(s) == old(
                self).spec_shard(s),
    {
        let ghost pre = *self;
        let n = self.shards.len();
        let idx = partition_index(key, n);
        let tbl = &mut self.shards[idx];
        let r = tbl.remove(key);
        proof {
            let ghost post = *self;
            assert(post.shards@ =~= pre.shards@.update(idx as int, post.shards@[idx as int]));
            lemma_sum_prefix_update(pre.shards@, idx as int, post.shards@[idx as int], n as int);
            assert(pre@.contains_key(key@) == pre.shards@[idx as int]@.contains_key(key@));
            assert(post@ =~= pre@.remove(key@));
            if r is None {
                assert(post@ =~= pre@);
            }
            assert forall|s: int, k: (Seq<char>, Seq<char>)|
                0 <= s < post.shards@.len() && #[trigger] post.shards@[s]@.contains_key(k) implies
                spec_partition(k, post.shards@.len() as int) == s by {
                if s != idx as int {
                    assert(pre.shards@[s]@.contains_key(k));
                } else {
                    assert(pre.shards@[s]@.contains_key(k));
                }
            }
        }
        r
    }

    /// The total number of registrations, obtained by visiting each shard in
    /// turn. The aggregate is explicitly weak: under concurrent use, shards
    /// visited early may change before the scan finishes, so the returned
    /// value can be stale by the time it is read; within one thread of
    /// control it is exact.
    pub fn len(&self) -> (r: usize)
        requires
            self.wf(),
        ensures
            r == self.spec_total(),
    {
        let n = self.shards.len();
        let mut total: usize = 0;
        let mut i: usize = 0;
        while i < n
            invariant
                self.wf(),
                i <= n,
                n == self.shards@.len(),
                total == sum_prefix(self.shards@, i as int),
            decreases n - i,
        {
            proof {
                lemma_sum_prefix_le(self.shards@, i as int + 1);
            }
            total = total + self.shards[i].len();
            i += 1;
        }
        total
    }

    /// In a well-formed registry the sum of the per-shard sizes — what
    /// `len` returns — is exactly the number of registered keys: every key
    /// rests in one shard, so none is double-counted across shards.
    pub proof fn lemma_len_counts_keys(&self)
        requires
            self.wf(),
        ensures
            self@.dom().finite(),
            self@.dom().len() == self.spec_total(),
    {
        let shards = self.shards@;
        let n = shards.len() as int;
        lemma_doms_prefix_card(shards, n);
        assert forall|x: (Seq<char>, Seq<char>)| self@.dom().contains(x) == doms_prefix(shards,
            n).contains(x) by {
            lemma_doms_prefix_contains(shards, n, x);
            if self@.dom().contains(x) {
                assert(shards[spec_partition(x, n)]@.dom().contains(x));
            }
            if exists|s: int| 0 <= s < n && (#[trigger] shards[s])@.dom().contains(x) {
                let s = choose|s: int| 0 <= s < n && (#[trigger] shards[s])@.dom().contains(x);
                assert(shards[s]@.contains_key(x));
                assert(spec_partition(x, n) == s);
                assert(self@.contains_key(x));
            }
        }
        assert(self@.dom() =~= doms_prefix(shards, n));
    }
}

/// Exactly-once creation and idempotence of registration. After
/// `get_or_create` has installed (or found) handle `h` under key `k` — its
/// contract leaves the registry's map at `m.insert(k, h)` — the key is
/// registered with exactly `h`: a `get` of `k` returns `h`, and a second
/// `get_or_create` of `k` meets the already-registered case of its contract,
/// so it returns `h`, changes nothing, and its factory's result is never
/// installed.
pub proof fn lemma_get_or_create_idempotent(m: Map<(Seq<char>, Seq<char>), Seq<char>>, k: (
    Seq<char>, Seq<char>), h: Seq<char>)
    ensures
        m.insert(k, h).contains_key(k),
        m.insert(k, h)[k] == h,
        m.insert(k, h).insert(k, h) == m.insert(k, h),
{
    assert(m.insert(k, h).insert(k, h) =~= m.insert(k, h));
}

/// Round trip of registration and removal: registering `k`, then removing
/// `k`, leaves `k` unregistered, so a following `get` returns `None` and the
/// lookup path reports the key as not found.
pub proof fn lemma_register_remove_round_trip(m: Map<(Seq<char>, Seq<char>), Seq<char>>, k: (
    Seq<char>, Seq<char>), h: Seq<char>)
    ensures
        !m.insert(k, h).remove(k).contains_key(k),
{
}

/// Shard independence: an operation that touches only the shard of `k1` —
/// as the contracts of `get_or_create` and `remove` promise — leaves the
/// shard of any key with a different partition exactly as it was. This is
/// the structural fact behind running callers of keys of different shards
/// in parallel without blocking one another.
pub proof fn lemma_distinct_shards_independent(pre: ShardedRegistry, post: ShardedRegistry, k1: (
    Seq<char>, Seq<char>), k2: (Seq<char>, Seq<char>))
    requires
        post.spec_shard_count() == pre.spec_shard_count(),
        pre.spec_shard_count() >= 1,
        spec_partition(k1, pre.spec_shard_count()) != spec_partition(k2, pre.spec_shard_count()),
        forall|s: int|
            0 <= s < pre.spec_shard_count() && s != spec_partition(k1, pre.spec_shard_count())
                ==> post.spec_shard(s) == pre.spec_shard(s),
    ensures
        post.spec_shard(spec_partition(k2, pre.spec_shard_count())) == pre.spec_shard(
            spec_partition(k2, pre.spec_shard_count())),
{
}

} // verus!
