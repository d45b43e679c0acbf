//! The settings that starting a light client derives from the run command
//! and the chain specification.
use vstd::prelude::*;

use crate::shutdown::NANOS_PER_SEC;

verus! {

/// Minutes before a gas price corpus expires (light client).
pub const GAS_CORPUS_EXPIRATION_MINUTES: u64 = 60 * 6;

/// Number of DNS threads of the light client's fetch service.
pub const FETCH_LIGHT_NUM_DNS_THREADS: usize = 1;

/// The options of a run command that the light client's setup reads.
pub struct RunCmd {
    /// Size of the block queue, in MiB.
    pub queue_size_mb: u32,
    /// Whether to check block seals.
    pub check_seal: bool,
    /// Whether hard-coded sync is disabled.
    pub no_hardcoded_sync: bool,
    /// Whether the configured boot nodes replace the chain's.
    pub custom_bootnodes: bool,
    /// The configured boot nodes.
    pub boot_nodes: Vec<String>,
    /// The configured network id, if any.
    pub network_id: Option<u64>,
    /// Seconds a request may wait for a response, if configured.
    pub on_demand_response_time_window: Option<u64>,
    /// Seconds of the first request backoff, if configured.
    pub on_demand_request_backoff_start: Option<u64>,
    /// Seconds of the longest request backoff, if configured.
    pub on_demand_request_backoff_max: Option<u64>,
    /// Maximum number of backoff rounds, if configured.
    pub on_demand_request_backoff_rounds_max: Option<usize>,
    /// Consecutive failures allowed, if configured.
    pub on_demand_request_consecutive_failures: Option<usize>,
}

/// The defaults of the on-demand request service, for options that the run
/// command leaves unset. Durations are in nanoseconds.
pub struct OnDemandDefaults {
    pub response_time_to_live_nanos: u128,
    pub request_min_backoff_nanos: u128,
    pub request_max_backoff_nanos: u128,
    pub max_request_backoff_rounds: usize,
    pub num_consecutive_failed_requests: usize,
}

/// What the light client is started with. Durations are in nanoseconds.
pub struct LightSettings {
    /// Memory the block queue may use, in bytes.
    pub queue_max_mem_use: usize,
    /// Whether blocks are fully verified.
    pub verify_full: bool,
    pub check_seal: bool,
    pub no_hardcoded_sync: bool,
    /// Lifetime of the gas price corpus cache, in seconds.
    pub cache_expiration_secs: u64,
    pub response_time_window_nanos: u128,
    pub request_backoff_start_nanos: u128,
    pub request_backoff_max_nanos: u128,
    pub request_backoff_rounds_max: usize,
    pub consecutive_failures: usize,
    /// The boot nodes of the network.
    pub boot_nodes: Vec<String>,
    /// The network id.
    pub network_id: u64,
    /// Number of DNS threads of the fetch service.
    pub fetch_dns_threads: usize,
}

/// A configured number of seconds in nanoseconds, or the default.
pub open spec fn secs_or_default(setting: Option<u64>, default_nanos: u128) -> u128 {
    match setting {
        Some(s) => (s * NANOS_PER_SEC) as u128,
        None => default_nanos,
    }
}

/// A configured number of seconds is that many whole seconds in
/// nanoseconds, whatever the default; the default is taken only where
/// nothing is configured.
pub proof fn lemma_secs_or_default(setting: Option<u64>, default_nanos: u128)
    ensures
        setting matches Some(secs) ==> secs_or_default(setting, default_nanos) == secs as int
            * 1_000_000_000,
        setting is None ==> secs_or_default(setting, default_nanos) == default_nanos,
{
    if let Some(secs) = setting {
        assert(secs as int * 1_000_000_000 <= u128::MAX) by (nonlinear_arith)
            requires
                secs <= u64::MAX,
        ;
    }
}

fn secs_or(setting: Option<u64>, default_nanos: u128) -> (r: u128)
    ensures
        r == secs_or_default(setting, default_nanos),
        setting matches Some(secs) ==> r == secs as int * 1_000_000_000,
        setting is None ==> r == default_nanos,
{
    match setting {
        Some(s) => {
            assert((s as u128) * NANOS_PER_SEC <= u128::MAX) by (nonlinear_arith)
                requires
                    s <= u64::MAX,
            ;
            (s as u128) * NANOS_PER_SEC
        },
        None => default_nanos,
    }
}

/// Derives the light client's settings from the run command, the boot nodes
/// and network id of the chain specification, and the on-demand defaults.
/// The chain's boot nodes are used unless the command brings its own; the
/// chain's network id is used unless the command sets one; each unset
/// on-demand option takes its default.
pub fn light_settings(
    cmd: RunCmd,
    spec_nodes: Vec<String>,
    spec_network_id: u64,
    defaults: OnDemandDefaults,
) -> (r: LightSettings)
    requires
        cmd.queue_size_mb * 1024 * 1024 <= usize::MAX,
    ensures
        r.queue_max_mem_use == cmd.queue_size_mb * 1024 * 1024,
        r.verify_full,
        r.check_seal == cmd.check_seal,
        r.no_hardcoded_sync == cmd.no_hardcoded_sync,
        r.cache_expiration_secs == 60 * GAS_CORPUS_EXPIRATION_MINUTES,
        r.cache_expiration_secs == 21_600,
        r.response_time_window_nanos == secs_or_default(
            cmd.on_demand_response_time_window,
            defaults.response_time_to_live_nanos,
        ),
        r.request_backoff_start_nanos == secs_or_default(
            cmd.on_demand_request_backoff_start,
            defaults.request_min_backoff_nanos,
        ),
        r.request_backoff_max_nanos == secs_or_default(
            cmd.on_demand_request_backoff_max,
            defaults.request_max_backoff_nanos,
        ),
        cmd.on_demand_response_time_window matches Some(secs) ==> r.response_time_window_nanos
            == secs as int * 1_000_000_000,
        cmd.on_demand_response_time_window is None ==> r.response_time_window_nanos
            == defaults.response_time_to_live_nanos,
        cmd.on_demand_request_backoff_start matches Some(secs) ==> r.request_backoff_start_nanos
            == secs as int * 1_000_000_000,
        cmd.on_demand_request_backoff_start is None ==> r.request_backoff_start_nanos
            == defaults.request_min_backoff_nanos,
        cmd.on_demand_request_backoff_max matches Some(secs) ==> r.request_backoff_max_nanos
            == secs as int * 1_000_000_000,
        cmd.on_demand_request_backoff_max is None ==> r.request_backoff_max_nanos
            == defaults.request_max_backoff_nanos,
        r.request_backoff_rounds_max == (match cmd.on_demand_request_backoff_rounds_max {
            Some(n) => n,
            None => defaults.max_request_backoff_rounds,
        }),
        r.consecutive_failures == (match cmd.on_demand_request_consecutive_failures {
            Some(n) => n,
            None => defaults.num_consecutive_failed_requests,
        }),
        r.boot_nodes@ == (if cmd.custom_bootnodes {
            cmd.boot_nodes@
        } else {
            spec_nodes@
        }),
        r.network_id == (match cmd.network_id {
            Some(n) => n,
            None => spec_network_id,
        }),
        r.fetch_dns_threads == FETCH_LIGHT_NUM_DNS_THREADS,
        r.fetch_dns_threads == 1,
{
    let queue_max_mem_use = (cmd.queue_size_mb as usize) * 1024 * 1024;
    let response_time_window_nanos = secs_or(
        cmd.on_demand_response_time_window,
        defaults.response_time_to_live_nanos,
    );
    let request_backoff_start_nanos = secs_or(
        cmd.on_demand_request_backoff_start,
        defaults.request_min_backoff_nanos,
    );
    let request_backoff_max_nanos = secs_or(
        cmd.on_demand_request_backoff_max,
        defaults.request_max_backoff_nanos,
    );
    let request_backoff_rounds_max = match cmd.on_demand_request_backoff_rounds_max {
        Some(n) => n,
        None => defaults.max_request_backoff_rounds,
    };
    let consecutive_failures = match cmd.on_demand_request_consecutive_failures {
        Some(n) => n,
        None => defaults.num_consecutive_failed_requests,
    };
    let boot_nodes = if !cmd.custom_bootnodes {
        spec_nodes
    } else {
        cmd.boot_nodes
    };
    let network_id = match cmd.network_id {
        Some(n) => n,
        None => spec_network_id,
    };
    LightSettings {
        queue_max_mem_use,
        verify_full: true,
        check_seal: cmd.check_seal,
        no_hardcoded_sync: cmd.no_hardcoded_sync,
        cache_expiration_secs: 60 * GAS_CORPUS_EXPIRATION_MINUTES,
        response_time_window_nanos,
        request_backoff_start_nanos,
        request_backoff_max_nanos,
        request_backoff_rounds_max,
        consecutive_failures,
        boot_nodes,
        network_id,
        fetch_dns_threads: FETCH_LIGHT_NUM_DNS_THREADS,
    }
}

} // verus!
