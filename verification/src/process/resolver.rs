use crate::message::Pid;
use crate::process::ProcessHandle;
use vstd::prelude::*;

verus! {

/// Ordered fallback lookup used when a `Pid` is not present in the local
/// shard table, for instance because it belongs to a remote host. Each
/// resolver is a function from `Pid` to an optional handle; registration
/// order is significant, and the first non-empty result wins.
pub struct HostResolverChain<F> {
    resolvers: Vec<F>,
}

impl<F: Fn(&Pid) -> Option<ProcessHandle>> HostResolverChain<F> {
    /// The registered resolvers, in registration order.
    pub closed spec fn spec_resolvers(&self) -> Seq<F> {
        self.resolvers@
    }

    pub fn new() -> (c: Self)
        ensures
            c.spec_resolvers().len() == 0,
    {
        HostResolverChain { resolvers: Vec::new() }
    }

    /// Appends `resolver` after every resolver registered so far.
    pub fn register(&mut self, resolver: F)
        ensures
            final(self).spec_resolvers() == old(self).spec_resolvers().push(resolver),
    {
        self.resolvers.push(resolver);
    }

    /// Tries each registered resolver in registration order and returns the
    /// first non-empty result; `None` once every resolver is exhausted
    /// without a match. In particular, a chain with no registered resolvers
    /// returns `None` for every `Pid`.
    pub fn resolve(&self, key: &Pid) -> (r: Option<ProcessHandle>)
        requires
            forall|i: int|
                0 <= i < self.spec_resolvers().len() ==> call_requires(
                    #[trigger] self.spec_resolvers()[i],
                    (key,),
                ),
        ensures
            self.spec_resolvers().len() == 0 ==> r is None,
            r matches Some(h) ==> exists|i: int|
                0 <= i < self.spec_resolvers().len() && call_ensures(
                    #[trigger] self.spec_resolvers()[i],
                    (key,),
                    Some(h),
                ) && (forall|j: int|
                    0 <= j < i ==> call_ensures(#[trigger] self.spec_resolvers()[j], (key,), None)),
            r is None ==> forall|i: int|
                0 <= i < self.spec_resolvers().len() ==> call_ensures(
                    #[trigger] self.spec_resolvers()[i],
                    (key,),
                    None,
                ),
    {
        let n = self.resolvers.len();
        let mut i: usize = 0;
        while i < n
            invariant
                i <= n,
                n == self.spec_resolvers().len(),
                forall|j: int|
                    0 <= j < n ==> call_requires(#[trigger] self.spec_resolvers()[j], (key,)),
                forall|j: int|
                    0 <= j < i ==> call_ensures(#[trigger] self.spec_resolvers()[j], (key,), None),
            decreases n - i,
        {
            let r = (self.resolvers[i])(key);
            if r.is_some() {
                return r;
            }
            i += 1;
        }
        None
    }
}

} // verus!
