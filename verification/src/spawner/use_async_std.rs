//! Spawning with `async_std`.
use async_std::task::JoinHandle;
use core::future::Future;
use vstd::future::FutureAdditionalSpecFns;
use vstd::prelude::*;

use crate::spawner::{Blocker, FuncSpawner, Spawner};

verus! {

/// Calls [`async_std::task::spawn`], which runs the future as a task. The
/// handle resolves to the output of the future, when the future has been driven
/// to completion. Awaiting the handle of a task whose future has panicked
/// panics.
#[verifier::external_body]
pub fn spawn_task<T, F>(future: F) -> (handle: JoinHandle<T>) where
    F: Future<Output = T> + Send + 'static,
    T: Send + 'static,

    ensures
        handle@ == future@,
        handle.awaited() ==> future.awaited(),
{
    async_std::task::spawn(future)
}

/// Calls [`async_std::task::spawn_blocking`], which runs the function on a
/// thread for blocking work. The handle resolves to what the function returns.
#[verifier::external_body]
pub fn spawn_blocking_task<T, F>(f: F) -> (handle: JoinHandle<T>) where
    F: FnOnce() -> T + Send + 'static,
    T: Send + 'static,

    requires
        f.requires(()),
    ensures
        handle.awaited() ==> f.ensures((), handle@),
{
    async_std::task::spawn_blocking(f)
}

/// Calls [`async_std::task::block_on`], which drives the future to completion
/// on the current thread and returns its output.
#[verifier::external_body]
pub(crate) fn block_on_task<T, F>(future: F) -> (output: T) where F: Future<Output = T>
    ensures
        (output, true) == (future@, future.awaited()),
{
    async_std::task::block_on(future)
}

/// The executor of `async_std`.
#[derive(Default)]
pub struct AsyncStdSpawner;

impl AsyncStdSpawner {
    /// Run a future as a task.
    pub fn run<T, F>(&self, f: F) -> (handle: JoinHandle<T>) where
        F: Future<Output = T> + Send + 'static,
        T: Send + 'static,

        ensures
            call_ensures(spawn_task::<T, F>, (f,), handle),
            handle@ == f@,
            handle.awaited() ==> f.awaited(),
    {
        let spawn = spawn_task::<T, F>;
        spawn(f)
    }

    /// Run a function on a thread for blocking work.
    pub fn run_func<T, F>(&self, f: F) -> (handle: JoinHandle<T>) where
        F: FnOnce() -> T + Send + 'static,
        T: Send + 'static,

        requires
            f.requires(()),
        ensures
            call_ensures(spawn_blocking_task::<T, F>, (f,), handle),
            handle.awaited() ==> f.ensures((), handle@),
    {
        let spawn_blocking = spawn_blocking_task::<T, F>;
        spawn_blocking(f)
    }
}

impl<T: Send + 'static> Spawner<T> for AsyncStdSpawner {
    type FutureOutput = T;

    type SpawnHandle = JoinHandle<T>;

    /// The handle resolves to the output of the future.
    open spec fn outcome(output: T) -> Option<T> {
        Some(output)
    }

    fn spawn<F: Future<Output = T> + Send + 'static>(&self, f: F) -> (handle: JoinHandle<T>) {
        self.run(f)
    }
}

impl<T: Send + 'static> FuncSpawner<T> for AsyncStdSpawner {
    type FutureOutput = T;

    type SpawnHandle = JoinHandle<T>;

    /// The handle resolves to what the function returns.
    open spec fn func_outcome(output: T) -> Option<T> {
        Some(output)
    }

    fn spawn_func<F: FnOnce() -> T + Send + 'static>(&self, f: F) -> (handle: JoinHandle<T>) {
        self.run_func(f)
    }
}

impl Blocker for AsyncStdSpawner {
    fn block_on<T, F: Future<Output = T>>(&self, f: F) -> (output: T) {
        block_on_task(f)
    }
}

/// What a handle resolves to is the output of its future, or what its function
/// returned, always.
pub proof fn law_outcome_is_the_output<T: Send + 'static>(output: T)
    ensures
        <AsyncStdSpawner as Spawner<T>>::outcome(output) == Some(output),
        <AsyncStdSpawner as FuncSpawner<T>>::func_outcome(output) == Some(output),
{
}

} // verus!
