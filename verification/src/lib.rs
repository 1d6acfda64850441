//! Helpers to bridge between blocking code and suspendable (async)
//! computations running under an ambient tokio runtime.
//!
//! The core of the crate is [`sync_await`], which lets a synchronous
//! function obtain the final result of a suspendable computation without the
//! whole call stack becoming suspension-aware. [`make_runtime`] is the thin
//! configuration helper that builds the kind of runtime the bridge needs:
//! multi-worker-threaded, with every optional subsystem enabled.

use vstd::prelude::*;
use core::future::Future;
use vstd::future::FutureAdditionalSpecFns;

mod tokio_specs;

use crate::tokio_specs::enable_all_subsystems;

verus! {

/// Builds the standard multi-worker-thread runtime with every optional
/// subsystem (timers, I/O readiness polling) enabled — the same
/// configuration a plain `#[tokio::main]` entry point uses.
///
/// Returns the owned runtime, or the `std::io::Error` with which the
/// operating system refused to allocate the worker threads or other kernel
/// resources. Both sides of the result are opaque to the verifier, so the
/// outcome is not constrained further; retrying is the caller's decision.
pub fn make_runtime() -> Result<tokio::runtime::Runtime, std::io::Error> {
    let mut builder = tokio::runtime::Builder::new_multi_thread();
    enable_all_subsystems(&mut builder);
    builder.build()
}

/// Runs a suspendable computation to completion from a blocking context and
/// returns exactly its final output (`future@` in the prophetic model of
/// `vstd::future`): the bridge is a transparent pass-through for one
/// invocation, never a partial or transformed result.
///
/// The calling thread must be a worker of an already-running runtime with
/// more than one worker thread. That precondition is about the ambient
/// scheduler, not about any argument, so it cannot be stated as a
/// `requires`; violating it terminates the call abnormally (a panic from
/// the underlying scheduler primitives), by design, rather than returning a
/// wrong result. A panic inside the computation likewise propagates out
/// unchanged.
///
/// The bracket is guaranteed-release: the thread's exemption from the
/// scheduler's non-blocking contract, taken for the duration of the call,
/// is released on every exit path, normal or abnormal.
pub fn sync_await<F: Future>(future: F) -> (ret: F::Output)
    ensures
        ret == future@,
{
    tokio::task::block_in_place(move || -> (r: F::Output)
        ensures
            r == future@,
        {
            let handle = tokio::runtime::Handle::current();
            handle.block_on(future)
        })
}

/// Independence of concurrent bridge calls: results never cross-contaminate.
/// For any two bridge invocations — `r1` returned for the computation `f1`
/// and `r2` for `f2`, as [`sync_await`]'s contract states — each result is
/// its own computation's final value, so computations with distinct final
/// values yield distinct results, whatever threads the two calls ran on.
pub proof fn lemma_independent_results<T, F1: Future<Output = T>, F2: Future<Output = T>>(
    f1: F1,
    f2: F2,
    r1: T,
    r2: T,
)
    requires
        r1 == f1@,
        r2 == f2@,
        f1@ != f2@,
    ensures
        r1 != r2,
{
}

} // verus!
