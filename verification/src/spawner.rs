//! There you can find traits that are necessary for implementing executor.
//!
//! An executor that serves futures which borrow from their surroundings must
//! not run them after its handle has resolved, which no contract here states.
use core::future::Future;
use vstd::future::FutureAdditionalSpecFns;
use vstd::prelude::*;

pub mod use_async_std;
pub mod use_tokio;

verus! {

/// An executor that runs futures with output `T`.
pub trait Spawner<T> {
    /// What the handle of a running future resolves to.
    type FutureOutput;

    /// The handle of a running future.
    type SpawnHandle: Future<Output = Self::FutureOutput> + Send;

    /// What the output of a handle says of the future that it stands for: the
    /// value that the future has resolved to, or nothing. An executor that does
    /// not say otherwise promises nothing.
    open spec fn outcome(output: Self::FutureOutput) -> Option<T> {
        None
    }

    /// Run a future. Once the handle has been awaited, what its output says of
    /// the future is true.
    fn spawn<F: Future<Output = T> + Send + 'static>(&self, f: F) -> (handle: Self::SpawnHandle)
        ensures
            handle.awaited() && Self::outcome(handle@) is Some ==> {
                &&& f.awaited()
                &&& Self::outcome(handle@) == Some(f@)
            },
    ;
}

/// An executor that runs blocking functions with result `T`.
pub trait FuncSpawner<T> {
    /// What the handle of a running function resolves to.
    type FutureOutput;

    /// The handle of a running function.
    type SpawnHandle: Future<Output = Self::FutureOutput> + Send;

    /// What the output of a handle says of the function that it stands for:
    /// the value that the function has returned, or nothing. An executor that
    /// does not say otherwise promises nothing.
    open spec fn func_outcome(output: Self::FutureOutput) -> Option<T> {
        None
    }

    /// Run a function. Once the handle has been awaited, what its output says
    /// of the function is true.
    fn spawn_func<F: FnOnce() -> T + Send + 'static>(&self, f: F) -> (handle: Self::SpawnHandle)
        requires
            f.requires(()),
        ensures
            handle.awaited() && Self::func_outcome(handle@) is Some ==> f.ensures(
                (),
                Self::func_outcome(handle@)->0,
            ),
    ;
}

/// An executor that can block the current thread on a future.
pub trait Blocker {
    /// Drive a future to completion, blocking the current thread.
    fn block_on<T, F: Future<Output = T>>(&self, f: F) -> (output: T)
        ensures
            output == f@,
            f.awaited(),
    ;
}

} // verus!
