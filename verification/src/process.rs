mod actor_process;
mod id_generator;
mod registry;
mod resolver;
mod shard_table;
mod sharded_registry;
mod single_owner;

pub use actor_process::ActorProcess;
pub use id_generator::{IdGenerator, spec_decimal, spec_digit};
pub use registry::{Registry, RegistryError};
pub use resolver::HostResolverChain;
pub use shard_table::ShardTable;
pub use sharded_registry::{ShardedRegistry, partition_index, spec_key_hash, spec_partition,
    lemma_distinct_shards_independent, lemma_get_or_create_idempotent,
    lemma_partition_deterministic, lemma_register_remove_round_trip};
pub use single_owner::{RegistryReply, RegistryRequest, SingleOwnerRegistry};

use crate::message::{Message, Pid, SystemMessage};
use crate::system::ActorSystem;
use std::sync::Arc;
use vstd::prelude::*;

verus! {

/// A registered process, as the registry's consumers see it: it belongs to a
/// system and accepts runtime lifecycle messages.
pub trait Process {
    fn system(&self) -> Arc<ActorSystem>;

    fn send_system_message(&self, pid: &Pid, msg: SystemMessage);

    fn stop(&self, pid: &Pid) {
        self.send_system_message(pid, SystemMessage::Stop)
    }
}

/// A process that accepts user messages.
pub trait ReceiverProcess {
    fn send_user_message<M>(&self, pid: &Pid, msg: M) where
        M: Message + Sync + 'static,
        M::Result: Sync + 'static,
    ;
}

/// Shared-ownership reference to the process state a `Pid` resolves to. The
/// registry manages only the association from `Pid` to handle; the process's
/// own state is owned by its referent and is identified here by `id`.
#[derive(Debug)]
pub struct ProcessHandle {
    pub id: String,
}

impl View for ProcessHandle {
    type V = Seq<char>;

    open spec fn view(&self) -> Seq<char> {
        self.id@
    }
}

impl ProcessHandle {
    pub fn new(id: String) -> (h: ProcessHandle)
        ensures
            h@ == id@,
    {
        ProcessHandle { id }
    }
}

impl Clone for ProcessHandle {
    fn clone(&self) -> (r: Self)
        ensures
            r == *self,
    {
        ProcessHandle { id: self.id.clone() }
    }
}

impl PartialEq for ProcessHandle {
    fn eq(&self, other: &ProcessHandle) -> (r: bool) {
        self.id == other.id
    }
}

impl vstd::std_specs::cmp::PartialEqSpecImpl for ProcessHandle {
    open spec fn obeys_eq_spec() -> bool {
        true
    }

    open spec fn eq_spec(&self, other: &ProcessHandle) -> bool {
        self.id@ == other.id@
    }
}

} // verus!
