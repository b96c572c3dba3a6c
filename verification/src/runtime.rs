//! The default executor: a multi-thread runtime with fixed tuning, and the
//! spawning capability it implements.

use vstd::prelude::*;

use crate::config::RuntimeConfig;

verus! {

#[verifier::external_type_specification]
#[verifier::external_body]
pub struct ExRuntime(tokio::runtime::Runtime);

#[verifier::external_type_specification]
#[verifier::external_body]
#[verifier::reject_recursive_types(T)]
pub struct ExJoinHandle<T>(tokio::task::JoinHandle<T>);

// `JoinHandle`'s `Future` impl has output `Result<T, JoinError>`, so
// declaring the handle requires declaring the error type too.
#[verifier::external_type_specification]
#[verifier::external_body]
pub struct ExJoinError(tokio::task::JoinError);

/// The spawning capability: submit an asynchronous unit of work, receive a
/// handle to its eventual result.
///
/// Implementations own (or reference) an underlying executor, which must stay
/// alive while any submitted task is outstanding. A handle may be dropped
/// without awaiting it: the task still runs, its outcome unobserved.
pub trait BaseAsyncRuntime {
    /// Submits `future` to the executor. The work begins running concurrently
    /// with the caller on one of the executor's worker threads; the returned
    /// handle resolves to the work's result, or to a failure indicator if the
    /// work panicked, once awaited. A failure never propagates out of this
    /// call synchronously.
    fn spawn<F>(&self, future: F) -> tokio::task::JoinHandle<F::Output> where
        F: core::future::Future + Send + 'static,
        F::Output: Send + 'static,
    ;
}

/// Relies on tokio's `Runtime::spawn`: the future is handed to the runtime's
/// workers and runs to completion or failure concurrently with the caller;
/// the returned handle resolves to the future's output, or to a `JoinError`
/// if the future panicked. Spawning never blocks and never panics.
#[verifier::external_body]
fn spawn_on<F>(rt: &tokio::runtime::Runtime, future: F) -> (h: tokio::task::JoinHandle<F::Output>) where
    F: core::future::Future + Send + 'static,
    F::Output: Send + 'static,
{
    rt.spawn(future)
}

/// Relies on tokio's `Runtime::spawn_blocking`: the closure runs to
/// completion on a thread of this runtime's dedicated blocking pool,
/// distinct from the async worker threads, and the returned handle resolves
/// to its return value. On a live runtime its only panic is environmental
/// (the OS cannot spawn a pool thread), the same class as `build_runtime`'s.
#[verifier::external_body]
fn spawn_blocking_on<F, R>(rt: &tokio::runtime::Runtime, f: F) -> (h: tokio::task::JoinHandle<R>) where
    F: FnOnce() -> R + Send + 'static,
    R: Send + 'static,
{
    rt.spawn_blocking(f)
}

/// Relies on tokio's runtime builder: `Builder::new_multi_thread` followed by
/// `worker_threads`, `global_queue_interval`, `thread_name`, `enable_all` and
/// `build` yields a runtime with `cfg.worker_threads` worker threads, the
/// fairness interval `cfg.global_queue_interval`, workers named `thread_name`,
/// and the I/O and time drivers enabled. `worker_threads` and
/// `global_queue_interval` panic on zero, which `cfg.wf()` rules out; `build`
/// fails only when the host OS cannot start the runtime's threads, and this
/// constructor panics then.
#[verifier::external_body]
fn build_runtime(cfg: &RuntimeConfig, thread_name: &str) -> (rt: tokio::runtime::Runtime)
    requires
        cfg.wf(),
{
    tokio::runtime::Builder::new_multi_thread()
        .worker_threads(cfg.worker_threads)
        .global_queue_interval(cfg.global_queue_interval)
        .thread_name(thread_name)
        .enable_all()
        .build()
        .unwrap()
}

/// The default implementation of the spawning capability: a multi-thread
/// executor with the fixed out-of-the-box tuning of
/// [`RuntimeConfig::spec_default`]. Two instances are fully independent:
/// each owns its executor, and submitting to one never affects the other.
pub struct SimpleAsyncRuntime {
    /// The wrapped executor. Exposed so a host can drive it directly
    /// (for instance, block on a handle from synchronous code).
    pub runtime: tokio::runtime::Runtime,
    /// The tuning the executor was built with.
    pub config: Ghost<RuntimeConfig>,
}

impl SimpleAsyncRuntime {
    /// The executor was built from a configuration its builder accepts.
    pub open spec fn wf(self) -> bool {
        self.config@.wf()
    }

    /// Constructs an executor with the given tuning; I/O and time drivers are
    /// always enabled. Succeeds exactly on the configurations the builder
    /// accepts, and returns `None` on those it would refuse (zero worker
    /// threads, or a zero fairness interval).
    pub fn with_config(cfg: RuntimeConfig) -> (r: Option<SimpleAsyncRuntime>)
        ensures
            r is Some <==> cfg.wf(),
            (r matches Some(rt) ==> rt.config@ == cfg && rt.wf()),
    {
        if cfg.worker_threads >= 1 && cfg.global_queue_interval >= 1 {
            let runtime = build_runtime(&cfg, "async-spawner-worker");
            Some(SimpleAsyncRuntime { runtime, config: Ghost(cfg) })
        } else {
            None
        }
    }
}

impl Default for SimpleAsyncRuntime {
    /// Constructs a ready-to-use executor with the fixed default tuning:
    /// one worker thread, a fairness interval of 31, I/O and time drivers
    /// enabled. Every call builds a fresh, independent executor, always
    /// with this same tuning.
    fn default() -> (r: SimpleAsyncRuntime)
        ensures
            r.config@ == RuntimeConfig::spec_default(),
            r.wf(),
    {
        match SimpleAsyncRuntime::with_config(RuntimeConfig::default()) {
            Some(rt) => rt,
            None => unreached(),
        }
    }
}

impl BaseAsyncRuntime for SimpleAsyncRuntime {
    fn spawn<F>(&self, future: F) -> tokio::task::JoinHandle<F::Output> where
        F: core::future::Future + Send + 'static,
        F::Output: Send + 'static,
    {
        spawn_on(&self.runtime, future)
    }
}

/// Submits synchronous work that would otherwise occupy an async worker
/// thread for its whole duration. The closure runs on the executor's
/// dedicated blocking pool, so a long blocking call never stalls the
/// (single, by default) async worker thread; the returned handle resolves
/// to the closure's return value.
///
/// The last argument exists for hosts without OS threads, where the caller
/// must supply a thread-pool-like resource of its own; on hosts with a true
/// OS-thread-backed executor it is unused, since the executor brings its own
/// blocking pool.
pub fn spawn_blocking_with<F, R, TP>(
    rt: &SimpleAsyncRuntime,
    f: F,
    _thread_pool_on_web: TP,
) -> tokio::task::JoinHandle<R> where
    F: FnOnce() -> R + Send + 'static,
    R: Send + 'static,
{
    spawn_blocking_on(&rt.runtime, f)
}

} // verus!
