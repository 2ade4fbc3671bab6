//! Controlled spawning of futures.
use async_std::task::JoinHandle;
use core::future::Future;
use vstd::future::FutureAdditionalSpecFns;
use vstd::prelude::*;

pub mod abort;
pub mod cancellable_future;
pub mod cancellation;
pub mod driven;
mod external;
pub mod ordered;
pub mod scoped;
pub mod spawner;
pub mod unordered;
pub mod verified_stream;
pub mod wakers;

pub use cancellable_future::CancellableFuture;
pub use cancellation::Cancellation;
pub use verified_stream::VerifiedStream;

use ordered::OrderedFutures;
use spawner::use_async_std::spawn_task;

verus! {

/// A scope to allow controlled spawning of futures.
///
/// The view is the sequence of the handles of the futures spawned, in order.
#[verifier::reject_recursive_types(T)]
pub struct Scope<T: Send + 'static> {
    futs: OrderedFutures<JoinHandle<T>>,
}

impl<T: Send + 'static> View for Scope<T> {
    type V = Seq<JoinHandle<T>>;

    closed spec fn view(&self) -> Seq<JoinHandle<T>> {
        self.futs@
    }
}

impl<T: Send + 'static> Scope<T> {
    /// Whether no future has been spawned.
    pub closed spec fn fresh(&self) -> bool {
        self.futs.fresh()
    }

    /// Create a Scope object.
    pub fn create() -> (scope: Self)
        ensures
            scope@ == Seq::<JoinHandle<T>>::empty(),
            scope.fresh(),
    {
        Scope { futs: OrderedFutures::new() }
    }

    /// Spawn a future with `async_std::task::spawn`.
    pub fn spawn<F: Future<Output = T> + Send + 'static>(&mut self, f: F)
        ensures
            final(self)@.len() == old(self)@.len() + 1,
            final(self)@.drop_last() == old(self)@,
            call_ensures(spawn_task::<T, F>, (f,), final(self)@.last()),
            final(self)@.last()@ == f@,
            final(self)@.last().awaited() ==> f.awaited(),
            !final(self).fresh(),
    {
        let spawn = spawn_task::<T, F>;
        let handle = spawn(f);
        self.futs.push(handle);
    }

    /// Convert `Scope` into a `Stream` of spawned future outputs.
    ///
    /// This function is useful when spawning in an async context. This allows,
    /// for instance, to apply back-pressure.
    pub fn into_stream(self) -> (stream: VerifiedStream<JoinHandle<T>>)
        ensures
            stream@ == self@,
            stream.queue().fresh() == self.fresh(),
            stream.total() == self@.len(),
            !stream.is_done(),
            stream.wf(),
    {
        let len = self.futs.len();
        VerifiedStream::new(self.futs, len)
    }
}

/// Creates a `Scope` to spawn futures. The function is called with a block
/// which takes an `&mut Scope`. The `spawn` method on this arg. can be used to
/// spawn futures.
///
/// # Returns
///
/// The function returns a tuple of `VerifiedStream`, and the return value of
/// the block passed to it. The values returned from the stream are the output
/// of the futures spawned.
pub fn scope<T: Send + 'static, R, F: FnOnce(&mut Scope<T>) -> R>(f: F) -> (ret: (
    VerifiedStream<JoinHandle<T>>,
    R,
))
    requires
        forall|scope: &mut Scope<T>|
            (*scope)@.len() == 0 && (*scope).fresh() ==> #[trigger] f.requires((scope,)),
    ensures
        exists|scope: &mut Scope<T>|
            {
                &&& (*scope)@.len() == 0
                &&& (*scope).fresh()
                &&& #[trigger] f.ensures((scope,), ret.1)
                &&& ret.0@ == (*final(scope))@
                &&& ret.0.queue().fresh() == (*final(scope)).fresh()
            },
        ret.0.total() == ret.0@.len(),
        !ret.0.is_done(),
        ret.0.wf(),
{
    let mut scope = Scope::create();
    let arg = &mut scope;
    assert((*arg)@.len() == 0 && (*arg).fresh());
    let op = f(arg);
    let ghost called = choose|arg: &mut Scope<T>|
        (*arg)@.len() == 0 && (*arg).fresh() && *final(arg) == scope && #[trigger] f.ensures(
            (arg,),
            op,
        );
    let ret = (scope.into_stream(), op);
    assert(f.ensures((called,), ret.1));
    ret
}

/// A function that creates a scope and immediately awaits, _blocking the
/// current thread_ for spawned futures to complete. The outputs of the futures
/// are collected as a `Vec` and returned along with the output of the block.
pub fn scope_and_block<T: Send + 'static, R, F: FnOnce(&mut Scope<T>) -> R>(f: F) -> (ret: (
    R,
    Vec<T>,
))
    requires
        forall|scope: &mut Scope<T>|
            (*scope)@.len() == 0 && (*scope).fresh() ==> #[trigger] f.requires((scope,)),
    ensures
        exists|scope: &mut Scope<T>|
            {
                &&& (*scope)@.len() == 0
                &&& (*scope).fresh()
                &&& #[trigger] f.ensures((scope,), ret.0)
                &&& ret.1@.len() == (*final(scope))@.len()
                &&& forall|i: int|
                    0 <= i < ret.1@.len() ==> #[trigger] ret.1@[i] == (*final(scope))@[i]@
                &&& forall|i: int|
                    0 <= i < ret.1@.len() ==> (#[trigger] (*final(scope))@[i]).awaited()
            },
{
    let (mut stream, block_output) = scope(f);
    let ghost called = choose|arg: &mut Scope<T>|
        (*arg)@.len() == 0 && (*arg).fresh() && stream@ == (*final(arg))@ && #[trigger] f.ensures(
            (arg,),
            block_output,
        );
    let proc_outputs = stream.block_and_collect();
    let ret = (block_output, proc_outputs);
    assert(f.ensures((called,), ret.0));
    ret
}

} // verus!
