use vstd::prelude::*;
use crate::config::{CpuMinerConfig, StartError};
use crate::feed::TemplateFeed;
use crate::metrics::CpuMinerMetrics;
use crate::register::WorkRegister;
use crate::shutdown::ShutdownFlag;

verus! {

/// The engine's initial state, assembled once per start: how many search
/// threads to run, whether they throttle, and every shared component in its
/// starting state.  The caller wires these together with its scheduler of
/// choice; nothing here carries over from any earlier run.
pub struct EngineStart {
    pub threads: usize,
    pub throttled: bool,
    pub register: WorkRegister,
    pub metrics: CpuMinerMetrics,
    pub shutdown: ShutdownFlag,
    pub feed: TemplateFeed,
}

/// The longest pause between two attempts to reach the node.
pub const MAX_CONNECT_BACKOFF_MILLIS: u64 = 5000;

/// The pause before the next connection attempt after a failed one: the
/// previous pause doubled, capped at five seconds.
pub fn next_connect_backoff_millis(current: u64) -> (next: u64)
    ensures
        next == (if 2 * current <= MAX_CONNECT_BACKOFF_MILLIS {
            2 * current
        } else {
            MAX_CONNECT_BACKOFF_MILLIS as int
        }),
{
    if current < MAX_CONNECT_BACKOFF_MILLIS / 2 {
        2 * current
    } else {
        MAX_CONNECT_BACKOFF_MILLIS
    }
}

/// Check the configuration and build the engine's starting state.  Fails
/// fast, before anything would be spawned, exactly when the mining address is
/// blank.  Every start gets a fresh metrics set at zero, a register with
/// nothing published, an unsignaled shutdown flag and template ids beginning
/// at zero, whatever any earlier engine did.
pub fn start_cpu_miner(config: &CpuMinerConfig) -> (r: Result<EngineStart, StartError>)
    ensures
        r is Ok <==> config.accepted(),
        r matches Ok(e) ==> {
            &&& e.threads == (if config.threads == 0 {
                1usize
            } else {
                config.threads
            })
            &&& e.threads >= 1
            &&& e.throttled == (config.throttle_millis is Some)
            &&& e.register.wf()
            &&& e.register.spec_version() == 0
            &&& e.register.spec_work() is None
            &&& e.metrics.is_zero()
            &&& !e.shutdown.is_signaled()
            &&& e.feed.spec_next_id() == 0
        },
        r is Err ==> r == Result::<EngineStart, StartError>::Err(StartError::BlankMiningAddress),
{
    match config.validate() {
        Err(e) => Err(e),
        Ok(()) => {
            let threads = config.effective_threads();
            let throttled = config.throttle_millis.is_some();
            Ok(
                EngineStart {
                    threads,
                    throttled,
                    register: WorkRegister::new(),
                    metrics: CpuMinerMetrics::new(),
                    shutdown: ShutdownFlag::new(),
                    feed: TemplateFeed::new(),
                },
            )
        },
    }
}

} // verus!
