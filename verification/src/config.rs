//! Tuning parameters for the default executor.

use vstd::prelude::*;

verus! {

/// Tuning parameters for the default executor.
#[derive(Clone, Copy, Debug, PartialEq, Eq, Structural)]
pub struct RuntimeConfig {
    /// Number of OS worker threads owned by the executor.
    pub worker_threads: usize,
    /// Tick count after which a worker checks the executor's global task
    /// queue instead of only its own local queue, bounding starvation.
    pub global_queue_interval: u32,
}

impl RuntimeConfig {
    /// A configuration the executor builder accepts: at least one worker
    /// thread, and a positive fairness interval.
    pub open spec fn wf(self) -> bool {
        &&& self.worker_threads >= 1
        &&& self.global_queue_interval >= 1
    }

    /// The fixed out-of-the-box tuning: a single worker thread (concurrency
    /// through interleaving, not parallelism) and a fairness interval of 31.
    pub open spec fn spec_default() -> RuntimeConfig {
        RuntimeConfig { worker_threads: 1, global_queue_interval: 31 }
    }
}

impl Default for RuntimeConfig {
    /// Every call returns the same fixed tuning, so independently constructed
    /// default executors carry equal configurations.
    fn default() -> (c: RuntimeConfig)
        ensures
            c == RuntimeConfig::spec_default(),
            c.wf(),
    {
        RuntimeConfig { worker_threads: 1, global_queue_interval: 31 }
    }
}

} // verus!
