use crate::message::Pid;
use crate::process::{ProcessHandle, ShardTable};
use vstd::prelude::*;

verus! {

/// One operation on the registry, as carried over a request channel to the
/// owning task of a `SingleOwnerRegistry`.
pub enum RegistryRequest {
    /// Return the handle for the key, installing the carried handle first if
    /// the key is absent.
    GetOrCreate(Pid, ProcessHandle),
    /// Pure lookup.
    Get(Pid),
    /// Remove the key if present.
    Remove(Pid),
    /// The number of registrations held.
    Len,
}

/// The owning task's answer to one `RegistryRequest`.
pub enum RegistryReply {
    Handle(ProcessHandle),
    Lookup(Option<ProcessHandle>),
    Removed(Option<ProcessHandle>),
    Size(usize),
}

/// Serves the same `get_or_create`/`get`/`remove` contract as
/// `ShardedRegistry` by routing every call through one owning task instead
/// of shard locks: only one logical owner ever touches the map, which rules
/// out lock contention and data races by construction, but every call pays a
/// full request/response handoff and throughput is bounded by the one owner
/// regardless of available parallelism. The sharded design instead scales
/// with shard count for non-colliding keys at the cost of lock discipline;
/// both expose the same operation contract, so one can be swapped for the
/// other behind the interface without affecting callers.
pub struct SingleOwnerRegistry {
    table: ShardTable,
}

impl View for SingleOwnerRegistry {
    type V = Map<(Seq<char>, Seq<char>), Seq<char>>;

    closed spec fn view(&self) -> Map<(Seq<char>, Seq<char>), Seq<char>> {
        self.table@
    }
}

impl SingleOwnerRegistry {
    pub closed spec fn wf(&self) -> bool {
        self.table.wf()
    }

    /// The number of registrations held.
    pub closed spec fn spec_total(&self) -> int {
        self.table.spec_len() as int
    }

    pub fn new() -> (r: SingleOwnerRegistry)
        ensures
            r.wf(),
            r@ == Map::<(Seq<char>, Seq<char>), Seq<char>>::empty(),
            r.spec_total() == 0,
    {
        SingleOwnerRegistry { table: ShardTable::new() }
    }

    /// Returns the handle registered under `key`, creating and registering
    /// it with `factory` if absent; identical in contract to
    /// `ShardedRegistry::get_or_create`.
    pub fn get_or_create<F: FnOnce() -> ProcessHandle>(&mut self, key: &Pid, factory: F) -> (r:
        ProcessHandle)
        requires
            old(self).wf(),
            call_requires(factory, ()),
        ensures
            final(self).wf(),
            final(self)@ == old(self)@.insert(key@, r@),
            old(self)@.contains_key(key@) ==> final(self)@ == old(self)@ && r@ == old(self)@[key@]
                && final(self).spec_total() == old(self).spec_total(),
            !old(self)@.contains_key(key@) ==> call_ensures(factory, (), r)
                && final(self).spec_total() == old(self).spec_total() + 1,
    {
        self.table.get_or_create(key, factory)
    }

    /// Pure lookup; identical in contract to `ShardedRegistry::get`.
    pub fn get(&self, key: &Pid) -> (r: Option<ProcessHandle>)
        requires
            self.wf(),
        ensures
            match r {
                Some(h) => self@.contains_key(key@) && h@ == self@[key@],
                None => !self@.contains_key(key@),
            },
    {
        self.table.get(key)
    }

    /// Removes the key if present; identical in contract to
    /// `ShardedRegistry::remove`.
    pub fn remove(&mut self, key: &Pid) -> (r: Option<ProcessHandle>)
        requires
            old(self).wf(),
        ensures
            final(self).wf(),
            final(self)@ == old(self)@.remove(key@),
            match r {
                Some(h) => old(self)@.contains_key(key@) && h@ == old(self)@[key@]
                    && final(self).spec_total() == old(self).spec_total() - 1,
                None => !old(self)@.contains_key(key@) && final(self)@ == old(self)@
                    && final(self).spec_total() == old(self).spec_total(),
            },
    {
        self.table.remove(key)
    }

    /// The number of registrations held.
    pub fn len(&self) -> (r: usize)
        requires
            self.wf(),
        ensures
            r == self.spec_total(),
    {
        self.table.len()
    }

    /// What `len` returns is exactly the number of registered keys.
    pub proof fn lemma_len_counts_keys(&self)
        requires
            self.wf(),
        ensures
            self@.dom().finite(),
            self@.dom().len() == self.spec_total(),
    {
        self.table.lemma_len_counts_keys();
    }

    /// One step of the owning task: decides and applies the state change a
    /// request asks for and builds the reply to send back. The channel loop
    /// around it only carries requests in and replies out. A `GetOrCreate`
    /// request carries the handle to install on a miss, since the factory
    /// itself cannot travel over the channel.
    pub fn handle_request(&mut self, req: RegistryRequest) -> (reply: RegistryReply)
        requires
            old(self).wf(),
        ensures
            final(self).wf(),
            match req {
                RegistryRequest::GetOrCreate(key, fallback) => {
                    &&& reply matches RegistryReply::Handle(h) && final(self)@ == old(
                        self)@.insert(key@, h@)
                    &&& old(self)@.contains_key(key@) ==> final(self)@ == old(self)@
                        && (reply matches RegistryReply::Handle(h) && h@ == old(self)@[key@])
                    &&& !old(self)@.contains_key(key@) ==> (reply matches RegistryReply::Handle(h)
                        && h@ == fallback@)
                },
                RegistryRequest::Get(key) => {
                    &&& final(self)@ == old(self)@
                    &&& reply matches RegistryReply::Lookup(r) && (match r {
                        Some(h) => old(self)@.contains_key(key@) && h@ == old(self)@[key@],
                        None => !old(self)@.contains_key(key@),
                    })
                },
                RegistryRequest::Remove(key) => {
                    &&& final(self)@ == old(self)@.remove(key@)
                    &&& reply matches RegistryReply::Removed(r) && (match r {
                        Some(h) => old(self)@.contains_key(key@) && h@ == old(self)@[key@],
                        None => !old(self)@.contains_key(key@),
                    })
                },
                RegistryRequest::Len => {
                    &&& final(self)@ == old(self)@
                    &&& reply matches RegistryReply::Size(n) && n == old(self).spec_total()
                },
            },
    {
        match req {
            RegistryRequest::GetOrCreate(key, fallback) => {
                let h = self.table.get_or_create(&key, move || -> (r: ProcessHandle)
                    ensures
                        r == fallback,
                    { fallback });
                RegistryReply::Handle(h)
            }
            RegistryRequest::Get(key) => RegistryReply::Lookup(self.table.get(&key)),
            RegistryRequest::Remove(key) => RegistryReply::Removed(self.table.remove(&key)),
            RegistryRequest::Len => RegistryReply::Size(self.table.len()),
        }
    }
}

} // verus!
