use crate::message::Pid;
use crate::process::{HostResolverChain, IdGenerator, ProcessHandle, ShardedRegistry};
use vstd::prelude::*;

verus! {

/// Why a registry operation could not produce a handle.
#[derive(Clone, Copy, Debug, PartialEq, Eq, Structural)]
pub enum RegistryError {
    /// Lookup miss after exhausting the local shard table and the resolver
    /// chain; non-fatal, returned to the immediate caller (never retried
    /// internally) to drive dead-letter handling.
    NotFound,
    /// A shard's guard was found in an unrecoverable state, for instance
    /// because a prior holder failed while mutating it. Fatal for that
    /// shard: its invariants can no longer be trusted, so no partial
    /// recovery is attempted and the fault must be escalated loudly. The
    /// verified operations here never produce it; it arises only in the
    /// locking layer wrapped around this type.
    RegistryCorrupted,
}

/// Manages all processes in the actor system: a sharded map from `Pid` to
/// `ProcessHandle` together with the sequence counter that mints local
/// identifiers. Constructed once at system start, shared with every caller,
/// and torn down at shutdown.
pub struct Registry {
    ids: IdGenerator,
    table: ShardedRegistry,
}

impl View for Registry {
    type V = Map<(Seq<char>, Seq<char>), Seq<char>>;

    closed spec fn view(&self) -> Map<(Seq<char>, Seq<char>), Seq<char>> {
        self.table@
    }
}

impl Registry {
    pub closed spec fn wf(&self) -> bool {
        self.table.wf()
    }

    /// The sequence counter minting local identifiers.
    pub closed spec fn spec_counter(&self) -> nat {
        self.ids.spec_counter()
    }

    /// The host name stamped into minted `Pid`s.
    pub closed spec fn spec_host(&self) -> Seq<char> {
        self.ids.spec_host()
    }

    /// The total number of registrations, summed over all shards.
    pub closed spec fn spec_total(&self) -> int {
        self.table.spec_total()
    }

    pub fn new(host: String, shard_count: usize) -> (r: Registry)
        requires
            shard_count >= 1,
        ensures
            r.wf(),
            r@ == Map::<(Seq<char>, Seq<char>), Seq<char>>::empty(),
            r.spec_total() == 0,
            r.spec_counter() == 0,
            r.spec_host() == host@,
    {
        Registry { ids: IdGenerator::new(host), table: ShardedRegistry::new(shard_count) }
    }

    /// Mints the next sequential local `Pid`; see `IdGenerator::next_local`.
    pub fn next_local(&mut self) -> (p: Pid)
        requires
            old(self).spec_counter() < u64::MAX,
        ensures
            final(self).wf() == old(self).wf(),
            final(self)@ == old(self)@,
            final(self).spec_host() == old(self).spec_host(),
            final(self).spec_counter() == old(self).spec_counter() + 1,
            p@ == (old(self).spec_host(), crate::process::spec_decimal(old(self).spec_counter())),
    {
        self.ids.next_local()
    }

    /// Mints a random globally unique `Pid`; see `IdGenerator::next_global`.
    pub fn next_global(&self) -> (p: Pid)
        ensures
            p@.0 == self.spec_host(),
            p@.1.len() == 36,
    {
        self.ids.next_global()
    }

    /// Returns the handle registered under `key`, creating and registering
    /// it with `factory` if absent; see `ShardedRegistry::get_or_create`.
    pub fn get_or_create<F: FnOnce() -> ProcessHandle>(&mut self, key: &Pid, factory: F) -> (r:
        ProcessHandle)
        requires
            old(self).wf(),
            call_requires(factory, ()),
            old(self).spec_total() < usize::MAX,
        ensures
            final(self).wf(),
            final(self)@ == old(self)@.insert(key@, r@),
            old(self)@.contains_key(key@) ==> final(self)@ == old(self)@ && r@ == old(self)@[key@]
                && final(self).spec_total() == old(self).spec_total(),
            !old(self)@.contains_key(key@) ==> call_ensures(factory, (), r)
                && final(self).spec_total() == old(self).spec_total() + 1,
            final(self).spec_counter() == old(self).spec_counter(),
    {
        self.table.get_or_create(key, factory)
    }

    /// Pure lookup in the local shard table; never creates and never
    /// consults the resolver chain.
    pub fn get(&self, key: &Pid) -> (r: Option<ProcessHandle>)
        requires
            self.wf(),
        ensures
            match r {
                Some(h) => self@.contains_key(key@) && h@ == self@[key@],
                None => !self@.contains_key(key@),
            },
    {
        self.table.get(key)
    }

    /// Removes and returns the handle registered under `key` if present;
    /// removing an absent key is a safe no-op returning `None`.
    pub fn remove(&mut self, key: &Pid) -> (r: Option<ProcessHandle>)
        requires
            old(self).wf(),
        ensures
            final(self).wf(),
            final(self)@ == old(self)@.remove(key@),
            match r {
                Some(h) => old(self)@.contains_key(key@) && h@ == old(self)@[key@]
                    && final(self).spec_total() == old(self).spec_total() - 1,
                None => !old(self)@.contains_key(key@) && final(self)@ == old(self)@
                    && final(self).spec_total() == old(self).spec_total(),
            },
            final(self).spec_counter() == old(self).spec_counter(),
    {
        self.table.remove(key)
    }

    /// The total number of registrations; see `ShardedRegistry::len` for the
    /// weakness of the aggregate under concurrent use.
    pub fn len(&self) -> (r: usize)
        requires
            self.wf(),
        ensures
            r == self.spec_total(),
    {
        self.table.len()
    }

    /// The send/lookup path: looks `key` up locally and, on a local miss,
    /// delegates to the resolver chain in registration order. A `Pid`
    /// resolved by neither is surfaced as `RegistryError::NotFound`, feeding
    /// the caller's dead-letter handling.
    pub fn lookup<F: Fn(&Pid) -> Option<ProcessHandle>>(&self, key: &Pid, chain:
        &HostResolverChain<F>) -> (r: Result<ProcessHandle, RegistryError>)
        requires
            self.wf(),
            forall|i: int|
                0 <= i < chain.spec_resolvers().len() ==> call_requires(
                    #[trigger] chain.spec_resolvers()[i],
                    (key,),
                ),
        ensures
            self@.contains_key(key@) ==> (r matches Ok(h) && h@ == self@[key@]),
            !self@.contains_key(key@) && chain.spec_resolvers().len() == 0 ==> r == Result::<
                ProcessHandle, RegistryError>::Err(RegistryError::NotFound),
            r == Result::<ProcessHandle, RegistryError>::Err(RegistryError::NotFound)
                ==> !self@.contains_key(key@) && forall|i: int|
                    0 <= i < chain.spec_resolvers().len() ==> call_ensures(
                        #[trigger] chain.spec_resolvers()[i],
                        (key,),
                        None,
                    ),
            r is Err ==> r == Result::<ProcessHandle, RegistryError>::Err(RegistryError::NotFound),
            r matches Ok(h) ==> (self@.contains_key(key@) || exists|i: int|
                0 <= i < chain.spec_resolvers().len() && call_ensures(
                    #[trigger] chain.spec_resolvers()[i],
                    (key,),
                    Some(h),
                )),
    {
        match self.table.get(key) {
            Some(h) => Ok(h),
            None => match chain.resolve(key) {
                Some(h) => Ok(h),
                None => Err(RegistryError::NotFound),
            },
        }
    }
}

} // verus!
