use crate::system::ActorSystem;
use std::sync::Arc;
use vstd::prelude::*;

verus! {

/// A process backed by an actor and its mailbox. Delivery into the mailbox
/// is owned by the dispatch layer, not by this crate: the registry only
/// hands out the association from `Pid` to process, so this type carries no
/// delivery logic, only its share of the system.
pub struct ActorProcess {
    system: Arc<ActorSystem>,
}

impl ActorProcess {
    pub closed spec fn spec_system(&self) -> Arc<ActorSystem> {
        self.system
    }

    pub fn new(system: Arc<ActorSystem>) -> (p: ActorProcess)
        ensures
            p.spec_system() == system,
    {
        ActorProcess { system }
    }

    /// The actor system this process belongs to. The caller clones the
    /// returned handle if it needs shared ownership.
    pub fn system(&self) -> (r: &Arc<ActorSystem>)
        ensures
            *r == self.spec_system(),
    {
        &self.system
    }
}

} // verus!
