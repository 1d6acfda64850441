//! Trusted declarations for the tokio scheduler primitives that the bridge
//! is built on. Every contract here is believed, not proved: each doc
//! comment names the tokio item relied on and what its documentation and
//! source promise.

use vstd::prelude::*;
use core::future::Future;
use vstd::future::FutureAdditionalSpecFns;

verus! {

/// `tokio::runtime::Runtime` is opaque to the verifier: an owned handle to a
/// pool of worker threads driving suspendable computations.
#[verifier::external_type_specification]
#[verifier::external_body]
pub struct ExRuntime(tokio::runtime::Runtime);

/// `tokio::runtime::Builder` is opaque to the verifier: a configuration
/// value from which a `Runtime` is built.
#[verifier::external_type_specification]
#[verifier::external_body]
pub struct ExBuilder(tokio::runtime::Builder);

/// `tokio::runtime::Handle` is opaque to the verifier: a shared reference to
/// an already-running runtime's scheduler.
#[verifier::external_type_specification]
#[verifier::external_body]
pub struct ExHandle(tokio::runtime::Handle);

/// `std::io::Error` is opaque to the verifier: the operating-system-level
/// error a failed runtime construction reports.
#[verifier::external_type_specification]
#[verifier::external_body]
pub struct ExIoError(std::io::Error);

/// Relies on `tokio::runtime::Builder::new_multi_thread`: returns a builder
/// with the multi-thread scheduler selected. The builder is opaque, so
/// nothing further is stated.
pub assume_specification[ tokio::runtime::Builder::new_multi_thread ]() -> tokio::runtime::Builder;

/// Relies on `tokio::runtime::Builder::enable_all`: turns on every optional
/// subsystem (timers, I/O readiness polling) of the configuration. Its
/// `&mut Self` return is dropped here because the verifier does not take a
/// mutable-reference return type; the builder is opaque, so nothing further
/// is stated.
#[verifier::external_body]
pub(crate) fn enable_all_subsystems(builder: &mut tokio::runtime::Builder) {
    builder.enable_all();
}

/// Relies on `tokio::runtime::Builder::build`: creates the configured
/// runtime, or reports the operating system's failure to allocate worker
/// threads or kernel resources as an `std::io::Error`. Both outcomes are
/// opaque, so nothing further is stated.
pub assume_specification[ tokio::runtime::Builder::build ](
    builder: &mut tokio::runtime::Builder,
) -> Result<tokio::runtime::Runtime, std::io::Error>;

/// Relies on `tokio::runtime::Handle::current`: returns a handle to the
/// runtime the calling thread is running under. Panics when no such runtime
/// is reachable from the calling thread; that abnormal termination on misuse
/// is the documented contract of the bridge, so no `requires` can or should
/// rule it out.
pub assume_specification[ tokio::runtime::Handle::current ]() -> tokio::runtime::Handle;

/// Relies on `tokio::runtime::Handle::block_on`: drives `future` on the
/// current thread, blocking until it completes, and returns exactly the
/// future's final output (`future@` in the prophetic model of
/// `vstd::future`). Panics when the future itself panics, propagating the
/// abnormal outcome to the caller unchanged, or when called from within an
/// asynchronous context.
pub assume_specification<F: Future>[ tokio::runtime::Handle::block_on ](
    handle: &tokio::runtime::Handle,
    future: F,
) -> (r: F::Output)
    ensures
        r == future@,
;

/// Relies on `tokio::task::block_in_place`: marks the current worker thread
/// as blocking so the scheduler compensates (hands its duties to another
/// worker), runs `f` once on the now-exempt thread, releases the exemption,
/// and returns exactly what `f` returned. Panics when the calling thread is
/// a worker of a runtime that has only one worker thread; that abnormal
/// termination on misuse is the documented contract of the bridge, so no
/// `requires` can or should rule it out.
pub assume_specification<F, R>[ tokio::task::block_in_place ](f: F) -> (r: R) where
    F: FnOnce() -> R
    requires
        f.requires(()),
    ensures
        f.ensures((), r),
;

} // verus!
