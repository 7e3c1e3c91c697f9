use vstd::prelude::*;

pub mod block;
pub mod config;
pub mod engine;
pub mod feed;
pub mod metrics;
pub mod pipeline;
pub mod pow;
pub mod register;
pub mod shutdown;
pub mod work;
pub mod worker;

pub use config::CpuMinerConfig;
pub use config::StartError;
pub use metrics::CpuMinerMetrics;

verus! {

/// How a status line shown to the operator is classified.
#[derive(Clone, Copy, PartialEq, Eq, Structural, Debug)]
pub enum StatusType {
    Info,
    Success,
    Error,
}

} // verus!
