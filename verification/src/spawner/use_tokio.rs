//! Spawning with `tokio`.
use core::future::Future;
use tokio::runtime::{Builder, Handle, Runtime, TryCurrentError};
use tokio::task::{JoinError, JoinHandle};
use vstd::future::FutureAdditionalSpecFns;
use vstd::prelude::*;

use crate::spawner::{FuncSpawner, Spawner};

verus! {

/// The handle that a runtime lends out.
pub uninterp spec fn runtime_handle(runtime: Runtime) -> Handle;

/// [`Runtime::handle`] lends out the one handle that the runtime holds.
pub assume_specification[ Runtime::handle ](runtime: &Runtime) -> (handle: &Handle)
    ensures
        *handle == runtime_handle(*runtime),
;

/// A clone of a [`Handle`] is a handle to the same runtime.
pub assume_specification[ <Handle as Clone>::clone ](handle: &Handle) -> (cloned: Handle)
    ensures
        cloned == *handle,
;

/// [`Handle::try_current`] gives a handle to the runtime in whose context it is
/// called, or an error where there is none. Nothing is said of which.
pub assume_specification[ Handle::try_current ]() -> (current: Result<Handle, TryCurrentError>)
;

/// Calls [`Builder::build`] for a runtime on the current thread. Whether the
/// system has the resources for it is left open.
#[verifier::external_body]
pub fn build_runtime() -> (runtime: Result<Runtime, std::io::Error>) {
    Builder::new_current_thread().build()
}

/// Calls [`Handle::spawn`], which runs the future as a task of the runtime.
/// Where the handle of the task has resolved to a value, the future has been
/// driven to completion and the value is its output; it resolves to an error
/// where the future panicked or the task was dropped with its runtime.
#[verifier::external_body]
pub fn spawn_on<F>(handle: &Handle, future: F) -> (task: JoinHandle<F::Output>) where
    F: Future + Send + 'static,
    F::Output: Send + 'static,

    ensures
        task.awaited() && task@ is Ok ==> future.awaited() && task@->Ok_0 == future@,
{
    handle.spawn(future)
}

/// Calls [`Handle::spawn_blocking`], which runs the function on a thread for
/// blocking work. Where the handle of the task has resolved to a value, the
/// function has returned it. It panics where the system cannot give a thread.
#[verifier::external_body]
pub fn spawn_blocking_on<F, R>(handle: &Handle, func: F) -> (task: JoinHandle<R>) where
    F: FnOnce() -> R + Send + 'static,
    R: Send + 'static,

    requires
        func.requires(()),
    ensures
        task.awaited() && task@ is Ok ==> func.ensures((), task@->Ok_0),
{
    handle.spawn_blocking(func)
}

/// Leave to block the current thread: the thread is in no asynchronous context.
/// [`leave_context`] gives it to the function that it calls.
pub struct MayBlock(());

/// Calls [`Handle::block_on`], which drives the future to completion on the
/// current thread and returns its output. It panics where the current thread
/// must not block.
#[verifier::external_body]
pub fn block_on_handle<F: Future>(handle: &Handle, future: F, may_block: MayBlock) -> (output:
    F::Output)
    ensures
        (output, true) == (future@, future.awaited()),
{
    handle.block_on(future)
}

/// Calls [`Runtime::block_on`], which drives the future to completion on the
/// current thread, and with it the tasks of the runtime, and returns its
/// output. It panics where the current thread must not block.
#[verifier::external_body]
pub fn block_on_runtime<F: Future>(runtime: &Runtime, future: F, may_block: MayBlock) -> (output:
    F::Output)
    ensures
        (output, true) == (future@, future.awaited()),
{
    runtime.block_on(future)
}

/// Calls [`tokio::task::block_in_place`], which leaves the asynchronous context
/// that the current thread may be in, so that the thread may block, calls the
/// function on the argument and returns what it returned. It panics where that context cannot be
/// left, which is what `can_leave` tells: inside a runtime that runs all on the
/// current thread, and inside a set of tasks that are bound to it.
#[verifier::external_body]
pub fn leave_context<A, F, R>(can_leave: bool, f: F, argument: A) -> (result: R) where
    F: FnOnce(A, MayBlock) -> R,

    requires
        can_leave,
        forall|may_block: MayBlock| #[trigger] f.requires((argument, may_block)),
    ensures
        exists|may_block: MayBlock| #[trigger] f.ensures((argument, may_block), result),
{
    tokio::task::block_in_place(|| f(argument, MayBlock(())))
}

/// Calls a function on an argument through [`leave_context`].
fn in_place<A, F, R>(can_leave: bool, f: F, argument: A) -> (result: R) where
    F: FnOnce(A, MayBlock) -> R,

    requires
        can_leave,
        forall|may_block: MayBlock| #[trigger] f.requires((argument, may_block)),
    ensures
        call_ensures(leave_context::<A, F, R>, (can_leave, f, argument), result),
        exists|may_block: MayBlock| #[trigger] f.ensures((argument, may_block), result),
{
    let leave = leave_context::<A, F, R>;
    leave(can_leave, f, argument)
}

/// Evidence that a runtime has been told to shut down.
pub struct ShutDown {
    runtime: Ghost<Runtime>,
}

impl View for ShutDown {
    type V = Runtime;

    closed spec fn view(&self) -> Runtime {
        self.runtime@
    }
}

impl ShutDown {
    /// Calls [`Runtime::shutdown_background`], which shuts the runtime down
    /// without waiting for its tasks.
    #[verifier::external_body]
    pub fn background(runtime: Runtime) -> (done: Self)
        ensures
            done@ == runtime,
    {
        let done = ShutDown { runtime: Ghost(runtime) };
        runtime.shutdown_background();
        done
    }
}

/// Variants of supplied tokio runtime.
/// Is needed because runtime can be either passed or created.
enum TokioRuntime {
    /// User provides its own runtime, we'll refer to it by handle.
    ByHandle(Handle),
    /// We've created our own ad-hoc runtime, so we'll own it.
    Owned(Runtime),
}

/// The executor of a `tokio` runtime, which is there as long as the spawner.
pub struct TokioSpawner(TokioRuntime);

impl TokioSpawner {
    /// The handle of the runtime that the spawner works on.
    pub closed spec fn runtime(&self) -> Handle {
        match self.0 {
            TokioRuntime::ByHandle(handle) => handle,
            TokioRuntime::Owned(runtime) => runtime_handle(runtime),
        }
    }

    /// The runtime that the spawner has made for itself, if it has.
    pub closed spec fn owned_runtime(&self) -> Option<Runtime> {
        match self.0 {
            TokioRuntime::ByHandle(_) => None,
            TokioRuntime::Owned(runtime) => Some(runtime),
        }
    }

    /// Whether the spawner has made its own runtime.
    pub open spec fn owns_runtime(&self) -> bool {
        self.owned_runtime() is Some
    }

    /// A spawner that works on the runtime of the handle.
    pub fn new(rt_handle: Handle) -> (spawner: Self)
        ensures
            spawner.runtime() == rt_handle,
            !spawner.owns_runtime(),
    {
        TokioSpawner(TokioRuntime::ByHandle(rt_handle))
    }

    /// The handle of the runtime.
    pub fn handle(&self) -> (handle: &Handle)
        ensures
            *handle == self.runtime(),
    {
        match &self.0 {
            TokioRuntime::ByHandle(handle) => handle,
            TokioRuntime::Owned(runtime) => runtime.handle(),
        }
    }

    /// `spawner` is what is made of `built`, the outcome of building a runtime:
    /// a spawner that owns the runtime, or the error.
    pub open spec fn made_of(
        built: Result<Runtime, std::io::Error>,
        spawner: Result<Self, std::io::Error>,
    ) -> bool {
        match built {
            Ok(runtime) => spawner is Ok && spawner->Ok_0.owned_runtime() == Some(runtime),
            Err(error) => spawner == Err::<Self, std::io::Error>(error),
        }
    }

    /// `spawner` is what is made where `current` is the runtime that is
    /// available, if one is: a spawner on that runtime, and else what is made of
    /// a runtime built for it.
    pub open spec fn chosen(
        current: Result<Handle, TryCurrentError>,
        spawner: Result<Self, std::io::Error>,
    ) -> bool {
        match (current, spawner) {
            (Ok(handle), Ok(spawner)) => {
                &&& spawner.runtime() == handle
                &&& !spawner.owns_runtime()
            },
            (Ok(_), Err(_)) => false,
            (Err(_), _) => exists|built: Result<Runtime, std::io::Error>| #[trigger]
                call_ensures(build_runtime, (), built) && TokioSpawner::made_of(built, spawner),
        }
    }

    /// By default, `TokioSpawner` operates on globally available runtime.
    /// Ad-hoc runtime would only be created if it is not available globally.
    /// Fails where the ad-hoc runtime cannot be created.
    ///
    /// Which runtime is available is what [`Handle::try_current`] reports.
    pub fn try_default() -> (spawner: Result<Self, std::io::Error>)
        ensures
            exists|current: Result<Handle, TryCurrentError>| #[trigger]
                call_ensures(Handle::try_current, (), current) && TokioSpawner::chosen(
                    current,
                    spawner,
                ),
    {
        // The contract speaks of this very call, so it goes through a value.
        let try_current = Handle::try_current;
        TokioSpawner::on_current(try_current())
    }

    /// A spawner on the runtime that is available, if one is, and else on a
    /// new one that it owns. Fails where the new one cannot be created.
    pub fn on_current(current: Result<Handle, TryCurrentError>) -> (spawner: Result<
        Self,
        std::io::Error,
    >)
        ensures
            TokioSpawner::chosen(current, spawner),
            current is Ok ==> {
                &&& spawner is Ok
                &&& spawner->Ok_0.runtime() == current->Ok_0
                &&& spawner->Ok_0.owned_runtime() is None
            },
            current is Err && spawner is Ok ==> spawner->Ok_0.owned_runtime() is Some,
    {
        if let Ok(handle) = current {
            return Ok(TokioSpawner(TokioRuntime::ByHandle(handle)));
        }
        let build = build_runtime;
        TokioSpawner::owning(build())
    }

    /// A spawner that owns the runtime that was built, or the error of building
    /// it.
    pub fn owning(built: Result<Runtime, std::io::Error>) -> (spawner: Result<
        Self,
        std::io::Error,
    >)
        ensures
            TokioSpawner::made_of(built, spawner),
            match built {
                Ok(runtime) => spawner is Ok && spawner->Ok_0.owned_runtime() == Some(runtime),
                Err(error) => spawner == Err::<Self, std::io::Error>(error),
            },
    {
        match built {
            Ok(runtime) => Ok(TokioSpawner(TokioRuntime::Owned(runtime))),
            Err(error) => Err(error),
        }
    }

    /// Run a future on the runtime of the spawner.
    pub fn run<F>(&self, f: F) -> (task: JoinHandle<F::Output>) where
        F: Future + Send + 'static,
        F::Output: Send + 'static,

        ensures
            call_ensures(spawn_on::<F>, (&self.runtime(), f), task),
            task.awaited() && task@ is Ok ==> f.awaited() && task@->Ok_0 == f@,
    {
        let spawn = spawn_on::<F>;
        spawn(self.handle(), f)
    }

    /// Run a function on a thread for blocking work of the runtime of the
    /// spawner.
    pub fn run_func<F, R>(&self, f: F) -> (task: JoinHandle<R>) where
        F: FnOnce() -> R + Send + 'static,
        R: Send + 'static,

        requires
            f.requires(()),
        ensures
            call_ensures(spawn_blocking_on::<F, R>, (&self.runtime(), f), task),
            task.awaited() && task@ is Ok ==> f.ensures((), task@->Ok_0),
    {
        let spawn_blocking = spawn_blocking_on::<F, R>;
        spawn_blocking(self.handle(), f)
    }

    /// Drive a future to completion, blocking the current thread.
    ///
    /// `can_leave` tells whether the current thread is in no asynchronous
    /// context, or in one that can be left for blocking: not inside a runtime
    /// that runs all on this thread, nor inside a set of tasks bound to it.
    pub fn block_on<T, F: Future<Output = T>>(&self, f: F, can_leave: bool) -> (output: T)
        requires
            can_leave,
        ensures
            output == f@,
            f.awaited(),
            call_ensures(
                leave_context::<(&TokioSpawner, F), _, T>,
                (can_leave, TokioSpawner::drive::<F>, (self, f)),
                output,
            ),
            self.owns_runtime() ==> exists|may_block: MayBlock| #[trigger]
                call_ensures(
                    block_on_runtime::<F>,
                    (&self.owned_runtime()->0, f, may_block),
                    output,
                ),
            !self.owns_runtime() ==> exists|may_block: MayBlock| #[trigger]
                call_ensures(block_on_handle::<F>, (&self.runtime(), f, may_block), output),
    {
        let drive = TokioSpawner::drive::<F>;
        let output = in_place(can_leave, drive, (self, f));
        proof {
            let may_block = choose|may_block: MayBlock|
                call_ensures(TokioSpawner::drive::<F>, ((self, f), may_block), output);
            if self.owns_runtime() {
                assert(call_ensures(
                    block_on_runtime::<F>,
                    (&self.owned_runtime()->0, f, may_block),
                    output,
                ));
            } else {
                assert(call_ensures(
                    block_on_handle::<F>,
                    (&self.runtime(), f, may_block),
                    output,
                ));
            }
        }
        output
    }

    /// Drive a future to completion on a thread that may block.
    pub fn drive<F: Future>(work: (&TokioSpawner, F), may_block: MayBlock) -> (output: F::Output)
        ensures
            output == work.1@,
            work.1.awaited(),
            work.0.owns_runtime() ==> call_ensures(
                block_on_runtime::<F>,
                (&work.0.owned_runtime()->0, work.1, may_block),
                output,
            ),
            !work.0.owns_runtime() ==> call_ensures(
                block_on_handle::<F>,
                (&work.0.runtime(), work.1, may_block),
                output,
            ),
    {
        let (spawner, f) = work;
        match &spawner.0 {
            TokioRuntime::ByHandle(handle) => {
                let block_on = block_on_handle::<F>;
                block_on(handle, f, may_block)
            },
            // if runtime is owned, `block_on` must be called directly on it,
            // not via it's handle. Otherwise, future won't be able to run IO-tasks.
            // see `block_on` docs for more info.
            TokioRuntime::Owned(runtime) => {
                let block_on = block_on_runtime::<F>;
                block_on(runtime, f, may_block)
            },
        }
    }

    /// Graceful shutdown of an owned runtime. A runtime that was supplied goes
    /// on running.
    pub fn shutdown(self) -> (done: Option<ShutDown>)
        ensures
            done is Some <==> self.owns_runtime(),
            done is Some ==> self.owned_runtime() == Some(done->0@),
            done is Some ==> self.runtime() == runtime_handle(done->0@),
            done is Some ==> call_ensures(
                ShutDown::background,
                (self.owned_runtime()->0,),
                done->0,
            ),
    {
        match self.0 {
            TokioRuntime::ByHandle(_) => None,
            TokioRuntime::Owned(runtime) => {
                let shut_down = ShutDown::background;
                Some(shut_down(runtime))
            },
        }
    }
}

impl Clone for TokioSpawner {
    /// The clone works on the same runtime, and never owns it.
    fn clone(&self) -> (cloned: Self)
        ensures
            cloned.runtime() == self.runtime(),
            !cloned.owns_runtime(),
    {
        TokioSpawner(
            match &self.0 {
                TokioRuntime::ByHandle(handle) => TokioRuntime::ByHandle(handle.clone()),
                TokioRuntime::Owned(runtime) => TokioRuntime::ByHandle(runtime.handle().clone()),
            },
        )
    }
}

impl<T: Send + 'static> Spawner<T> for TokioSpawner {
    type FutureOutput = Result<T, JoinError>;

    type SpawnHandle = JoinHandle<T>;

    /// The handle resolves to the output of the future, or to an error.
    open spec fn outcome(output: Result<T, JoinError>) -> Option<T> {
        match output {
            Ok(value) => Some(value),
            Err(_) => None,
        }
    }

    fn spawn<F: Future<Output = T> + Send + 'static>(&self, f: F) -> (handle: JoinHandle<T>) {
        self.run(f)
    }
}

impl<T: Send + 'static> FuncSpawner<T> for TokioSpawner {
    type FutureOutput = Result<T, JoinError>;

    type SpawnHandle = JoinHandle<T>;

    /// The handle resolves to what the function returns, or to an error.
    open spec fn func_outcome(output: Result<T, JoinError>) -> Option<T> {
        match output {
            Ok(value) => Some(value),
            Err(_) => None,
        }
    }

    fn spawn_func<F: FnOnce() -> T + Send + 'static>(&self, f: F) -> (handle: JoinHandle<T>) {
        self.run_func(f)
    }
}

/// A value that a handle resolves to is the output of its future, or what its
/// function returned; an error says nothing of it.
pub proof fn law_outcome_is_the_value<T: Send + 'static>(output: Result<T, JoinError>)
    ensures
        output is Ok ==> <TokioSpawner as Spawner<T>>::outcome(output) == Some(output->Ok_0),
        output is Ok ==> <TokioSpawner as FuncSpawner<T>>::func_outcome(output) == Some(
            output->Ok_0,
        ),
        output is Err ==> <TokioSpawner as Spawner<T>>::outcome(output) is None,
        output is Err ==> <TokioSpawner as FuncSpawner<T>>::func_outcome(output) is None,
{
}

/// A runtime that is available is used, and not owned; making a spawner on it
/// does not fail.
pub proof fn law_available_runtime_is_used(
    handle: Handle,
    spawner: Result<TokioSpawner, std::io::Error>,
)
    requires
        TokioSpawner::chosen(Ok(handle), spawner),
    ensures
        spawner is Ok,
        spawner->Ok_0.runtime() == handle,
        spawner->Ok_0.owned_runtime() is None,
{
}

/// Where no runtime is available, a runtime is built, and the spawner owns that
/// one. It fails just where building fails, with the error of that.
pub proof fn law_built_runtime_is_owned(
    missing: TryCurrentError,
    spawner: Result<TokioSpawner, std::io::Error>,
) -> (built: Result<Runtime, std::io::Error>)
    requires
        TokioSpawner::chosen(Err(missing), spawner),
    ensures
        call_ensures(build_runtime, (), built),
        spawner is Ok <==> built is Ok,
        spawner is Ok ==> spawner->Ok_0.owned_runtime() == Some(built->Ok_0),
        spawner is Ok ==> spawner->Ok_0.runtime() == runtime_handle(built->Ok_0),
        spawner is Err ==> spawner->Err_0 == built->Err_0,
{
    choose|built: Result<Runtime, std::io::Error>| #[trigger]
        call_ensures(build_runtime, (), built) && TokioSpawner::made_of(built, spawner)
}

/// A spawner owns a runtime or works on that of another, and the runtime that it
/// owns is the one that it works on.
pub proof fn law_owned_runtime_is_worked_on(spawner: TokioSpawner)
    ensures
        spawner.owns_runtime() <==> spawner.owned_runtime() is Some,
        spawner.owned_runtime() is Some ==> spawner.runtime() == runtime_handle(
            spawner.owned_runtime()->0,
        ),
{
}

} // verus!
