//! Futures that are polled until they give their output.
use core::future::Future;
use core::pin::Pin;
use core::task::{Context, Poll, Waker};
use vstd::future::FutureAdditionalSpecFns;
use vstd::prelude::*;

verus! {

/// A future, and whether it has given its output. A future that has is not to
/// be polled again.
#[verifier::reject_recursive_types(F)]
pub struct DrivenFuture<F: Future + Unpin> {
    fut: F,
    finished: Ghost<bool>,
}

impl<F: Future + Unpin> DrivenFuture<F> {
    /// The future.
    pub closed spec fn future(&self) -> F {
        self.fut
    }

    /// Whether the future has given its output.
    pub closed spec fn finished(&self) -> bool {
        self.finished@
    }

    /// Wrap a future that has not given its output. From then on it is to be
    /// polled through the wrapper only.
    pub fn new(fut: F) -> (driven: Self)
        ensures
            driven.future() == fut,
            !driven.finished(),
    {
        DrivenFuture { fut, finished: Ghost(false) }
    }

    /// Calls [`Future::poll`] on the future, in a context that consists of the
    /// waker.
    ///
    /// A future that is ready has been driven to completion and has given the
    /// output that it resolves to; of one that is pending, neither what it
    /// resolves to nor whether it does has changed. A future that has given its
    /// output may panic if it is polled again.
    #[verifier::external_body]
    pub fn poll(&mut self, waker: &Waker) -> (polled: Poll<F::Output>)
        requires
            !old(self).finished(),
        ensures
            match polled {
                Poll::Ready(output) => {
                    &&& output == old(self).future()@
                    &&& old(self).future().awaited()
                    &&& final(self).finished()
                },
                Poll::Pending => {
                    &&& final(self).future()@ == old(self).future()@
                    &&& final(self).future().awaited() == old(self).future().awaited()
                    &&& !final(self).finished()
                },
            },
    {
        Pin::new(&mut self.fut).poll(&mut Context::from_waker(waker))
    }
}

} // verus!
