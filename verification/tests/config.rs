use protoactor::message::Pid;
use protoactor::process::{ActorProcess, ProcessHandle};
use protoactor::system::config::ActorSystemConfig;
use protoactor::system::{ActorSystem, client_host, no_host};
use std::sync::Arc;
use std::time::Duration;

#[test]
fn setup_matches_the_documented_defaults() {
    let config = ActorSystemConfig::setup();
    assert_eq!(Duration::from_secs(1), config.dead_letter_throttle_interval);
    assert_eq!(3, config.dead_letter_throttle_count);
    assert!(config.dead_letter_request_logging);
    assert!(config.dead_letter_response_logging);
    assert!(config.developer_supervision_logging);
    assert!(!config.metrics_enabled);
    assert!(config.shared_futures);
    assert_eq!(5000, config.shared_futures_size);
    assert_eq!(Duration::from_secs(5), config.actor_request_timeout);
}

#[test]
fn builders_change_exactly_their_field() {
    let config = ActorSystemConfig::setup()
        .with_dead_letter_throttle_interval(Duration::from_secs(9))
        .with_dead_letter_throttle_count(7)
        .with_dead_letter_request_logging(false)
        .with_dead_letter_response_logging(false)
        .with_developer_supervision_logging(false)
        .with_metrics(true)
        .with_actor_request_timeout(Duration::from_secs(30))
        .with_with_shared_futures(123);
    assert_eq!(Duration::from_secs(9), config.dead_letter_throttle_interval);
    assert_eq!(7, config.dead_letter_throttle_count);
    assert!(!config.dead_letter_request_logging);
    assert!(!config.dead_letter_response_logging);
    assert!(!config.developer_supervision_logging);
    assert!(config.metrics_enabled);
    assert!(config.shared_futures);
    assert_eq!(123, config.shared_futures_size);
    assert_eq!(Duration::from_secs(30), config.actor_request_timeout);
}

#[test]
fn sentinel_host_names_have_their_documented_values() {
    assert_eq!("nohost", no_host());
    assert_eq!("$client", client_host());
}

#[test]
fn actor_system_carries_host_port_and_an_empty_registry() {
    let system = ActorSystem::new(no_host(), 8090, ActorSystemConfig::setup(), 4);
    assert_eq!("nohost", *system.host());
    assert_eq!(8090, system.port());
    assert!(system.config().shared_futures);
    assert_eq!(0, system.registry().len());
    assert!(system
        .registry()
        .get(&Pid::new(no_host(), "0".to_string()))
        .is_none());
}

#[test]
fn actor_process_shares_its_system() {
    let system = Arc::new(ActorSystem::new(no_host(), 1, ActorSystemConfig::setup(), 2));
    let process = ActorProcess::new(system.clone());
    assert!(Arc::ptr_eq(&system, process.system()));
    let _ = ProcessHandle::new("p".to_string());
}
