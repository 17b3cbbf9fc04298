use protoactor::message::Pid;
use protoactor::process::{
    HostResolverChain, IdGenerator, ProcessHandle, Registry, RegistryError, RegistryReply,
    RegistryRequest, ShardTable, ShardedRegistry, SingleOwnerRegistry, partition_index,
};
use std::cell::Cell;
use std::rc::Rc;

fn pid(id: &str) -> Pid {
    Pid::new("nohost".to_string(), id.to_string())
}

fn handle(id: &str) -> ProcessHandle {
    ProcessHandle::new(id.to_string())
}

#[test]
fn get_or_create_then_get_returns_same_handle() {
    let mut registry = ShardedRegistry::new(8);
    let created = registry.get_or_create(&pid("7"), || handle("7"));
    let fetched = registry.get(&pid("7")).expect("key was registered");
    assert_eq!(created, fetched);
}

#[test]
fn factory_runs_exactly_once_per_key() {
    let mut registry = ShardedRegistry::new(8);
    let calls = Rc::new(Cell::new(0u32));
    let c1 = calls.clone();
    let first = registry.get_or_create(&pid("k"), move || {
        c1.set(c1.get() + 1);
        handle("k")
    });
    let c2 = calls.clone();
    let second = registry.get_or_create(&pid("k"), move || {
        c2.set(c2.get() + 1);
        handle("other")
    });
    assert_eq!(1, calls.get());
    assert_eq!(first, second);
    assert_eq!(1, registry.len());
}

#[test]
fn register_remove_get_round_trip_reports_not_found() {
    let mut registry = Registry::new("nohost".to_string(), 4);
    let key = pid("gone");
    registry.get_or_create(&key, || handle("gone"));
    let removed = registry.remove(&key).expect("key was registered");
    assert_eq!(removed, handle("gone"));
    assert!(registry.get(&key).is_none());
    let chain: HostResolverChain<fn(&Pid) -> Option<ProcessHandle>> = HostResolverChain::new();
    assert_eq!(Err(RegistryError::NotFound), registry.lookup(&key, &chain));
}

#[test]
fn remove_of_absent_key_is_a_no_op() {
    let mut registry = ShardedRegistry::new(4);
    registry.get_or_create(&pid("a"), || handle("a"));
    assert!(registry.remove(&pid("b")).is_none());
    assert_eq!(1, registry.len());
}

#[test]
fn partition_is_deterministic_and_in_range() {
    for shard_count in [1usize, 2, 4, 7, 32] {
        for i in 0..64u32 {
            let key = pid(&i.to_string());
            let first = partition_index(&key, shard_count);
            let second = partition_index(&key, shard_count);
            assert_eq!(first, second);
            assert!(first < shard_count);
        }
    }
}

#[test]
fn sixteen_keys_on_four_shards_are_stable_and_in_range() {
    let shard_count = 4usize;
    let mut registry = ShardedRegistry::new(shard_count);
    for i in 0..16u32 {
        let key = pid(&i.to_string());
        registry.get_or_create(&key, || handle(&i.to_string()));
    }
    assert_eq!(16, registry.len());
    for i in 0..16u32 {
        let key = pid(&i.to_string());
        let first = partition_index(&key, shard_count);
        let second = partition_index(&key, shard_count);
        assert_eq!(first, second);
        assert!(first < shard_count);
        assert!(registry.get(&key).is_some());
    }
}

#[test]
fn sixty_four_callers_collapse_to_fifteen_shared_keys_plus_globals() {
    let mut registry = Registry::new("nohost".to_string(), 8);
    let mut globals: Vec<Pid> = Vec::new();
    for caller in 0..64u64 {
        let key_index = caller % 16;
        let key = if key_index == 0 {
            let global = registry.next_global();
            globals.push(global.clone());
            global
        } else {
            pid(&key_index.to_string())
        };
        let id = key.id.clone();
        registry.get_or_create(&key, move || ProcessHandle::new(id));
    }
    for a in 0..globals.len() {
        for b in (a + 1)..globals.len() {
            assert_ne!(globals[a], globals[b]);
        }
    }
    assert_eq!(4, globals.len());
    assert_eq!(15 + globals.len(), registry.len());
}

#[test]
fn empty_resolver_chain_resolves_nothing() {
    let chain: HostResolverChain<fn(&Pid) -> Option<ProcessHandle>> = HostResolverChain::new();
    assert!(chain.resolve(&pid("anything")).is_none());
    assert!(chain.resolve(&pid("else")).is_none());
}

fn resolve_seven(key: &Pid) -> Option<ProcessHandle> {
    if key.id == "7" {
        Some(ProcessHandle::new("remote-7".to_string()))
    } else {
        None
    }
}

fn resolve_any(key: &Pid) -> Option<ProcessHandle> {
    Some(ProcessHandle::new(format!("any-{}", key.id)))
}

#[test]
fn resolver_chain_first_match_wins() {
    let mut chain: HostResolverChain<fn(&Pid) -> Option<ProcessHandle>> = HostResolverChain::new();
    chain.register(resolve_seven);
    chain.register(resolve_any);
    assert_eq!(
        Some(ProcessHandle::new("remote-7".to_string())),
        chain.resolve(&pid("7"))
    );
    assert_eq!(
        Some(ProcessHandle::new("any-3".to_string())),
        chain.resolve(&pid("3"))
    );
}

#[test]
fn lookup_falls_back_to_resolver_chain() {
    let mut registry = Registry::new("nohost".to_string(), 4);
    registry.get_or_create(&pid("local"), || handle("local"));
    let mut chain: HostResolverChain<fn(&Pid) -> Option<ProcessHandle>> = HostResolverChain::new();
    chain.register(resolve_seven);
    assert_eq!(Ok(handle("local")), registry.lookup(&pid("local"), &chain));
    assert_eq!(
        Ok(ProcessHandle::new("remote-7".to_string())),
        registry.lookup(&pid("7"), &chain)
    );
    assert_eq!(
        Err(RegistryError::NotFound),
        registry.lookup(&pid("8"), &chain)
    );
}

#[test]
fn id_generator_counts_sequentially() {
    let mut ids = IdGenerator::new("hostX".to_string());
    let first = ids.next_local();
    let second = ids.next_local();
    let third = ids.next_local();
    assert_eq!(pid_of("hostX", "0"), first);
    assert_eq!(pid_of("hostX", "1"), second);
    assert_eq!(pid_of("hostX", "2"), third);
}

fn pid_of(host: &str, id: &str) -> Pid {
    Pid::new(host.to_string(), id.to_string())
}

#[test]
fn global_ids_are_long_random_and_distinct() {
    let ids = IdGenerator::new("hostX".to_string());
    let a = ids.next_global();
    let b = ids.next_global();
    assert_eq!("hostX", a.host);
    assert_eq!(36, a.id.len());
    assert_eq!(36, b.id.len());
    assert_ne!(a, b);
}

#[test]
fn single_owner_registry_serves_the_same_contract() {
    let mut registry = SingleOwnerRegistry::new();
    let created = registry.get_or_create(&pid("s"), || handle("s"));
    let again = registry.get_or_create(&pid("s"), || handle("ignored"));
    assert_eq!(created, again);
    assert_eq!(created, registry.get(&pid("s")).expect("registered"));
    assert_eq!(1, registry.len());
    assert_eq!(Some(handle("s")), registry.remove(&pid("s")));
    assert!(registry.get(&pid("s")).is_none());
    assert_eq!(0, registry.len());
}

#[test]
fn single_owner_requests_step_the_state() {
    let mut registry = SingleOwnerRegistry::new();
    match registry.handle_request(RegistryRequest::GetOrCreate(pid("q"), handle("q"))) {
        RegistryReply::Handle(h) => assert_eq!(handle("q"), h),
        _ => panic!("unexpected reply kind"),
    }
    match registry.handle_request(RegistryRequest::GetOrCreate(pid("q"), handle("replacement"))) {
        RegistryReply::Handle(h) => assert_eq!(handle("q"), h),
        _ => panic!("unexpected reply kind"),
    }
    match registry.handle_request(RegistryRequest::Len) {
        RegistryReply::Size(n) => assert_eq!(1, n),
        _ => panic!("unexpected reply kind"),
    }
    match registry.handle_request(RegistryRequest::Get(pid("q"))) {
        RegistryReply::Lookup(h) => assert_eq!(Some(handle("q")), h),
        _ => panic!("unexpected reply kind"),
    }
    match registry.handle_request(RegistryRequest::Remove(pid("q"))) {
        RegistryReply::Removed(h) => assert_eq!(Some(handle("q")), h),
        _ => panic!("unexpected reply kind"),
    }
    match registry.handle_request(RegistryRequest::Get(pid("q"))) {
        RegistryReply::Lookup(h) => assert_eq!(None, h),
        _ => panic!("unexpected reply kind"),
    }
}

#[test]
fn shard_table_get_or_create_is_idempotent() {
    let mut table = ShardTable::new();
    let first = table.get_or_create(&pid("t"), || handle("t"));
    let second = table.get_or_create(&pid("t"), || handle("u"));
    assert_eq!(first, second);
    assert_eq!(1, table.len());
    assert_eq!(Some(handle("t")), table.remove(&pid("t")));
    assert_eq!(0, table.len());
}

#[test]
fn different_hosts_are_different_keys() {
    let mut registry = ShardedRegistry::new(4);
    registry.get_or_create(&Pid::new("h1".to_string(), "1".to_string()), || handle("a"));
    registry.get_or_create(&Pid::new("h2".to_string(), "1".to_string()), || handle("b"));
    assert_eq!(2, registry.len());
    assert_eq!(
        Some(handle("a")),
        registry.get(&Pid::new("h1".to_string(), "1".to_string()))
    );
    assert_eq!(
        Some(handle("b")),
        registry.get(&Pid::new("h2".to_string(), "1".to_string()))
    );
}

#[test]
fn one_shard_registry_still_works() {
    let mut registry = ShardedRegistry::new(1);
    for i in 0..10u32 {
        registry.get_or_create(&pid(&i.to_string()), || handle(&i.to_string()));
    }
    assert_eq!(10, registry.len());
    assert_eq!(0, partition_index(&pid("3"), 1));
}
