//! A first-in, first-out queue of futures.
use core::future::Future;
use core::pin::Pin;
use core::task::{Context, Poll};
use futures::stream::{FuturesOrdered, Next, Stream, StreamExt};
use vstd::future::FutureAdditionalSpecFns;
use vstd::prelude::*;

verus! {

/// A queue of futures that are driven together and whose outputs come out in
/// the order in which the futures were pushed.
///
/// The view is the sequence of futures that were pushed and whose output has
/// not been handed out yet, each in the state in which it was pushed. For a
/// future `h` of it, `h@` is the output that `h` resolves to, and `h.awaited()`
/// says that it does so, that is, that `h` is driven to completion.
#[verifier::reject_recursive_types(H)]
pub struct OrderedFutures<H: Future> {
    queue: FuturesOrdered<H>,
    pending: Ghost<Seq<H>>,
    fresh: Ghost<bool>,
}

impl<H: Future> View for OrderedFutures<H> {
    type V = Seq<H>;

    closed spec fn view(&self) -> Seq<H> {
        self.pending@
    }
}

impl<H: Future> OrderedFutures<H> {
    /// Whether no future has ever been pushed.
    pub closed spec fn fresh(&self) -> bool {
        self.fresh@
    }

    /// Calls [`FuturesOrdered::new`], which makes a queue without futures.
    #[verifier::external_body]
    pub(crate) fn new() -> (queue: Self)
        ensures
            queue@ == Seq::<H>::empty(),
            queue.fresh(),
    {
        OrderedFutures {
            queue: FuturesOrdered::new(),
            pending: Ghost(Seq::empty()),
            fresh: Ghost(true),
        }
    }

    /// Calls [`FuturesOrdered::push_back`], which puts the future behind all
    /// others of the queue and does not poll it.
    #[verifier::external_body]
    pub(crate) fn push(&mut self, future: H)
        ensures
            final(self)@ == old(self)@.push(future),
            !final(self).fresh(),
    {
        self.queue.push_back(future);
    }

    /// Calls [`FuturesOrdered::len`], which counts the futures whose output
    /// has not been handed out, finished or not.
    #[verifier::external_body]
    pub(crate) fn len(&self) -> (n: usize)
        ensures
            n == self@.len(),
    {
        self.queue.len()
    }

    /// Calls `poll_next` of [`FuturesOrdered`].
    ///
    /// An output that comes out is that of the first future, which has finished
    /// and leaves the queue; the end is reported only by a queue without
    /// futures. Whether the first future has finished is for the executor to
    /// say. A queue without futures can be pending once more, while a wake-up of
    /// a future that has left it is still being delivered by another thread; one
    /// that never had a future is not.
    #[verifier::external_body]
    pub fn poll_next(&mut self, cx: &mut Context<'_>) -> (polled: Poll<Option<H::Output>>)
        ensures
            match polled {
                Poll::Ready(Some(output)) => {
                    &&& old(self)@.len() > 0
                    &&& output == old(self)@[0]@
                    &&& old(self)@[0].awaited()
                    &&& final(self)@ == old(self)@.drop_first()
                },
                Poll::Ready(None) => old(self)@.len() == 0 && final(self)@ == old(self)@,
                Poll::Pending => final(self)@ == old(self)@,
            },
            old(self).fresh() ==> polled == Poll::<Option<H::Output>>::Ready(None),
            final(self).fresh() == old(self).fresh(),
    {
        Pin::new(&mut self.queue).poll_next(cx)
    }

    /// Calls [`StreamExt::next`], which makes a future of the next item of the
    /// queue.
    ///
    /// Once awaited, that future has resolved to the output of the first
    /// future of the queue, which has finished and left it, or to `None` if the
    /// queue had no future. If it is dropped before, the queue is as it was.
    #[verifier::external_body]
    pub(crate) fn next(&mut self) -> (item: Next<'_, FuturesOrdered<H>>)
        ensures
            item.awaited() ==> match item@ {
                Some(output) => {
                    &&& old(self)@.len() > 0
                    &&& output == old(self)@[0]@
                    &&& old(self)@[0].awaited()
                    &&& final(self)@ == old(self)@.drop_first()
                },
                None => old(self)@.len() == 0 && final(self)@ == old(self)@,
            },
            !item.awaited() ==> final(self)@ == old(self)@,
            final(self).fresh() == old(self).fresh(),
    {
        self.queue.next()
    }
}

} // verus!
