use std::time::Duration;
use vstd::prelude::*;

verus! {

/// The `Duration` denoting a given number of whole seconds.
pub uninterp spec fn duration_from_secs(secs: u64) -> Duration;

/// Relies on `std::time::Duration::from_secs`: the returned `Duration` is a
/// pure function of the argument alone.
pub assume_specification[ Duration::from_secs ](secs: u64) -> (r: Duration)
    ensures
        r == duration_from_secs(secs),
;

/// Tunable settings of an `ActorSystem`, built with a chain of `with_*`
/// calls starting from `setup`.
#[derive(Debug)]
pub struct ActorSystemConfig {
    pub dead_letter_throttle_interval: Duration,
    pub dead_letter_throttle_count: i32,
    pub dead_letter_request_logging: bool,
    pub dead_letter_response_logging: bool,
    pub developer_supervision_logging: bool,
    pub metrics_enabled: bool,
    pub shared_futures: bool,
    pub shared_futures_size: usize,
    pub actor_request_timeout: Duration,
}

impl Default for ActorSystemConfig {
    fn default() -> (r: Self)
        ensures
            r.dead_letter_throttle_interval == duration_from_secs(1),
            r.dead_letter_throttle_count == 3,
            r.dead_letter_request_logging == true,
            r.dead_letter_response_logging == true,
            r.developer_supervision_logging == true,
            r.metrics_enabled == false,
            r.shared_futures == true,
            r.shared_futures_size == 5000,
            r.actor_request_timeout == duration_from_secs(5),
    {
        ActorSystemConfig {
            dead_letter_throttle_interval: Duration::from_secs(1),
            dead_letter_throttle_count: 3,
            dead_letter_request_logging: true,
            dead_letter_response_logging: true,
            developer_supervision_logging: true,
            metrics_enabled: false,
            shared_futures: true,
            shared_futures_size: 5000,
            actor_request_timeout: Duration::from_secs(5),
        }
    }
}

impl ActorSystemConfig {
    /// The default configuration, as a starting point for the `with_*`
    /// chain.
    pub fn setup() -> (r: Self)
        ensures
            r.dead_letter_throttle_interval == duration_from_secs(1),
            r.dead_letter_throttle_count == 3,
            r.dead_letter_request_logging == true,
            r.dead_letter_response_logging == true,
            r.developer_supervision_logging == true,
            r.metrics_enabled == false,
            r.shared_futures == true,
            r.shared_futures_size == 5000,
            r.actor_request_timeout == duration_from_secs(5),
    {
        Self::default()
    }

    /// The interval used to trigger throttling of dead-letter message logs.
    pub fn with_dead_letter_throttle_interval(self, interval: Duration) -> (r: Self)
        ensures
            r == (ActorSystemConfig { dead_letter_throttle_interval: interval, ..self }),
    {
        Self { dead_letter_throttle_interval: interval, ..self }
    }

    /// The counter used to trigger throttling of dead-letter message logs:
    /// throttling triggers when that many dead letters arrive within one
    /// throttle interval.
    pub fn with_dead_letter_throttle_count(self, count: i32) -> (r: Self)
        ensures
            r == (ActorSystemConfig { dead_letter_throttle_count: count, ..self }),
    {
        Self { dead_letter_throttle_count: count, ..self }
    }

    /// Enables logging for dead-letter responses in requests; when disabled,
    /// the requesting code is responsible for logging manually.
    pub fn with_dead_letter_request_logging(self, enabled: bool) -> (r: Self)
        ensures
            r == (ActorSystemConfig { dead_letter_request_logging: enabled, ..self }),
    {
        Self { dead_letter_request_logging: enabled, ..self }
    }

    /// Enables shared futures, which let the system serve multiple requests
    /// from one registered future instead of registering a new temporary
    /// process for each request.
    pub fn with_with_shared_futures(self, size: usize) -> (r: Self)
        ensures
            r == (ActorSystemConfig { shared_futures: true, shared_futures_size: size, ..self }),
    {
        Self { shared_futures_size: size, shared_futures: true, ..self }
    }

    /// Developer debugging feature: enables extended logging for actor
    /// supervision failures.
    pub fn with_developer_supervision_logging(self, enabled: bool) -> (r: Self)
        ensures
            r == (ActorSystemConfig { developer_supervision_logging: enabled, ..self }),
    {
        Self { developer_supervision_logging: enabled, ..self }
    }

    /// Enables actor metrics, for exporting through telemetry exporters.
    pub fn with_metrics(self, enabled: bool) -> (r: Self)
        ensures
            r == (ActorSystemConfig { metrics_enabled: enabled, ..self }),
    {
        Self { metrics_enabled: enabled, ..self }
    }

    /// How long a request waits for an actor's reply.
    pub fn with_actor_request_timeout(self, timeout: Duration) -> (r: Self)
        ensures
            r == (ActorSystemConfig { actor_request_timeout: timeout, ..self }),
    {
        Self { actor_request_timeout: timeout, ..self }
    }

    /// Enables logging for dead-letter responses returned from the
    /// dead-letter process to the original sender.
    pub fn with_dead_letter_response_logging(self, enabled: bool) -> (r: Self)
        ensures
            r == (ActorSystemConfig { dead_letter_response_logging: enabled, ..self }),
    {
        Self { dead_letter_response_logging: enabled, ..self }
    }
}

} // verus!
