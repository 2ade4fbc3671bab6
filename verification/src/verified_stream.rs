//! The stream of the outputs of a scope.
use core::future::Future;
use core::task::{Context, Poll};
use vstd::future::FutureAdditionalSpecFns;
use vstd::prelude::*;

use crate::cancellation::Cancellation;
use crate::ordered::OrderedFutures;
use crate::spawner::use_async_std::block_on_task;

verus! {

impl<H: Future> OrderedFutures<H> {
    /// A queue of the given futures, the first of them in front.
    pub fn of(futures: Vec<H>) -> (queue: Self)
        ensures
            queue@ == futures@,
            queue.fresh() == (futures@.len() == 0),
    {
        let mut queue = OrderedFutures::new();
        for future in it: futures
            invariant
                queue@ == it.seq().take(it.index()),
                queue.fresh() == (it.index() == 0),
        {
            queue.push(future);
        }
        queue
    }
}

/// A stream wrapper that ensures the underlying stream is driven to completion
/// before it goes away: `finish` blocks the thread and drains the stream.
///
/// The view is the sequence of futures whose output is still to come.
#[verifier::reject_recursive_types(H)]
pub struct VerifiedStream<H: Future> {
    stream: OrderedFutures<H>,
    /// Whether the end of the stream has been seen.
    pub done: bool,
    /// The number of outputs of the whole stream.
    pub len: usize,
}

impl<H: Future> View for VerifiedStream<H> {
    type V = Seq<H>;

    closed spec fn view(&self) -> Seq<H> {
        self.stream@
    }
}

impl<H: Future> VerifiedStream<H> {
    /// Whether the end of the stream has been seen.
    pub closed spec fn is_done(&self) -> bool {
        self.done
    }

    /// The number of outputs of the whole stream.
    pub closed spec fn total(&self) -> usize {
        self.len
    }

    /// The futures, as the queue that drives them.
    pub closed spec fn queue(&self) -> OrderedFutures<H> {
        self.stream
    }

    /// At the end no output is to come.
    pub open spec fn wf(&self) -> bool {
        self.is_done() ==> self@.len() == 0
    }

    /// A stream of the outputs of the given futures, of which there are `len`.
    pub fn new(stream: OrderedFutures<H>, len: usize) -> (verified: Self)
        ensures
            verified@ == stream@,
            verified.queue() == stream,
            !verified.is_done(),
            verified.total() == len,
            verified.wf(),
    {
        VerifiedStream { stream, done: false, len }
    }

    /// Cancel all futures spawned with cancellation.
    pub fn cancel(&self, cancellation: &mut Cancellation)
        requires
            old(cancellation)@.wf(),
        ensures
            final(cancellation)@ == old(cancellation)@.cancelled(),
            !final(cancellation)@.live,
            final(cancellation)@.wf(),
    {
        cancellation.cancel();
    }

    /// Note what polling the underlying stream has brought, and hand it on.
    pub fn record_poll<O>(&mut self, polled: Poll<Option<O>>) -> (same: Poll<Option<O>>)
        requires
            old(self).wf(),
            match polled {
                Poll::Ready(None) => old(self)@.len() == 0,
                _ => true,
            },
        ensures
            same == polled,
            final(self)@ == old(self)@,
            final(self).queue() == old(self).queue(),
            final(self).total() == old(self).total(),
            final(self).is_done() == match polled {
                Poll::Ready(None) => true,
                _ => old(self).is_done(),
            },
            final(self).wf(),
    {
        if let Poll::Ready(None) = &polled {
            self.done = true;
        }
        polled
    }

    /// Poll for the next output, in the order in which the futures were
    /// spawned: poll the queue of the futures, once, and hand on what that
    /// brings.
    pub fn poll_next(&mut self, cx: &mut Context<'_>) -> (polled: Poll<Option<H::Output>>)
        requires
            old(self).wf(),
        ensures
            match polled {
                Poll::Ready(Some(output)) => {
                    &&& old(self)@.len() > 0
                    &&& output == old(self)@[0]@
                    &&& old(self)@[0].awaited()
                    &&& final(self)@ == old(self)@.drop_first()
                    &&& final(self).is_done() == old(self).is_done()
                },
                Poll::Ready(None) => {
                    &&& old(self)@.len() == 0
                    &&& final(self)@ == old(self)@
                    &&& final(self).is_done()
                },
                Poll::Pending => {
                    &&& final(self)@ == old(self)@
                    &&& final(self).is_done() == old(self).is_done()
                },
            },
            exists|queue: &mut OrderedFutures<H>, context: &mut Context<'_>|
                {
                    &&& *queue == old(self).queue()
                    &&& *final(queue) == final(self).queue()
                    &&& *context == *old(cx)
                    &&& *final(context) == *final(cx)
                    &&& #[trigger] call_ensures(
                        OrderedFutures::<H>::poll_next,
                        (queue, context),
                        polled,
                    )
                },
            old(self).queue().fresh() ==> polled == Poll::<Option<H::Output>>::Ready(None),
            final(self).queue().fresh() == old(self).queue().fresh(),
            final(self).total() == old(self).total(),
            final(self).wf(),
    {
        let poll_next = OrderedFutures::<H>::poll_next;
        let polled = poll_next(&mut self.stream, cx);
        self.record_poll(polled)
    }

    /// Wait for the next output, blocking the current thread.
    pub fn block_next(&mut self) -> (item: Option<H::Output>)
        requires
            old(self).wf(),
        ensures
            match item {
                Some(output) => {
                    &&& old(self)@.len() > 0
                    &&& output == old(self)@[0]@
                    &&& old(self)@[0].awaited()
                    &&& final(self)@ == old(self)@.drop_first()
                    &&& final(self).is_done() == old(self).is_done()
                },
                None => {
                    &&& old(self)@.len() == 0
                    &&& final(self)@ == old(self)@
                    &&& final(self).is_done()
                },
            },
            final(self).total() == old(self).total(),
            final(self).wf(),
    {
        let item = block_on_task(self.stream.next());
        match self.record_poll(Poll::Ready(item)) {
            Poll::Ready(item) => item,
            Poll::Pending => None,
        }
    }

    /// One poll of a collection of the whole stream: take the outputs that are
    /// there, until the stream has ended or is pending. It is ready when the
    /// stream has ended.
    pub fn poll_collect(&mut self, proc_outputs: &mut Vec<H::Output>, cx: &mut Context<'_>) -> (polled:
        Poll<()>)
        requires
            old(self).wf(),
        ensures
            collects(old(self)@, final(self)@, old(proc_outputs)@, final(proc_outputs)@),
            old(proc_outputs)@.is_prefix_of(final(proc_outputs)@),
            final(proc_outputs)@.len() - old(proc_outputs)@.len() <= old(self)@.len(),
            final(self)@ == old(self)@.skip(
                final(proc_outputs)@.len() - old(proc_outputs)@.len(),
            ),
            forall|i: int|
                old(proc_outputs)@.len() <= i < final(proc_outputs)@.len()
                    ==> #[trigger] final(proc_outputs)@[i] == old(self)@[i
                    - old(proc_outputs)@.len()]@,
            forall|i: int|
                0 <= i < final(proc_outputs)@.len() - old(proc_outputs)@.len() ==> (
                #[trigger] old(self)@[i]).awaited(),
            match polled {
                Poll::Ready(()) => final(self).is_done(),
                Poll::Pending => final(self).is_done() == old(self).is_done(),
            },
            exists|
                stream: &mut VerifiedStream<H>,
                context: &mut Context<'_>,
                last: Poll<Option<H::Output>>,
            |
                {
                    &&& (*stream)@ == final(self)@
                    &&& *final(stream) == *final(self)
                    &&& *final(context) == *final(cx)
                    &&& #[trigger] call_ensures(
                        VerifiedStream::<H>::poll_next,
                        (stream, context),
                        last,
                    )
                    &&& last == match polled {
                        Poll::Ready(()) => Poll::Ready(None::<H::Output>),
                        Poll::Pending => Poll::Pending,
                    }
                },
            old(self).queue().fresh() ==> polled == Poll::Ready(()),
            final(self).queue().fresh() == old(self).queue().fresh(),
            final(self).total() == old(self).total(),
            final(self).wf(),
    {
        let poll_next = VerifiedStream::<H>::poll_next;
        let ghost before = self@;
        let ghost taken = proc_outputs@;
        loop
            invariant
                before == old(self)@,
                taken == old(proc_outputs)@,
                poll_next == VerifiedStream::<H>::poll_next,
                self.queue().fresh() == old(self).queue().fresh(),
                self.wf(),
                self.is_done() == old(self).is_done(),
                self.total() == old(self).total(),
                collects(before, self@, taken, proc_outputs@),
                forall|i: int|
                    taken.len() <= i < proc_outputs@.len() ==> #[trigger] proc_outputs@[i]
                        == before[i - taken.len()]@,
                forall|i: int|
                    0 <= i < proc_outputs@.len() - taken.len() ==> (
                    #[trigger] before[i]).awaited(),
            decreases self@.len(),
        {
            match poll_next(self, cx) {
                Poll::Ready(Some(item)) => {
                    proc_outputs.push(item);
                },
                Poll::Ready(None) => {
                    return Poll::Ready(());
                },
                Poll::Pending => {
                    return Poll::Pending;
                },
            }
        }
    }

    /// Collect the outputs of the whole stream, blocking the current thread
    /// until the last future has finished.
    pub fn block_and_collect(&mut self) -> (proc_outputs: Vec<H::Output>)
        requires
            old(self).wf(),
        ensures
            proc_outputs@.len() == old(self)@.len(),
            forall|i: int|
                0 <= i < proc_outputs@.len() ==> #[trigger] proc_outputs@[i] == old(self)@[i]@,
            forall|i: int| 0 <= i < old(self)@.len() ==> (#[trigger] old(self)@[i]).awaited(),
            final(self)@.len() == 0,
            final(self).is_done(),
            final(self).total() == old(self).total(),
            final(self).wf(),
    {
        let mut proc_outputs: Vec<H::Output> = Vec::with_capacity(self.stream.len());
        let ghost before = self@;
        loop
            invariant
                before == old(self)@,
                self.wf(),
                self.total() == old(self).total(),
                proc_outputs@.len() <= before.len(),
                self@ == before.skip(proc_outputs@.len() as int),
                forall|i: int|
                    0 <= i < proc_outputs@.len() ==> #[trigger] proc_outputs@[i] == before[i]@,
                forall|i: int|
                    0 <= i < proc_outputs@.len() ==> (#[trigger] before[i]).awaited(),
            ensures
                self.wf(),
                self.is_done(),
                self.total() == old(self).total(),
                proc_outputs@.len() == before.len(),
                forall|i: int|
                    0 <= i < proc_outputs@.len() ==> #[trigger] proc_outputs@[i] == before[i]@,
                forall|i: int|
                    0 <= i < proc_outputs@.len() ==> (#[trigger] before[i]).awaited(),
            decreases self@.len(),
        {
            match self.block_next() {
                Some(item) => {
                    proc_outputs.push(item);
                },
                None => {
                    break;
                },
            }
        }
        proc_outputs
    }

    /// Drive the stream to completion, as must be done before it goes away.
    ///
    /// Where the end of the stream has not been seen, `cancel` is called, on
    /// the stream as it is, and then the current thread is blocked until all
    /// futures have finished. Their outputs are dropped. Where the end has been
    /// seen, `cancel` is not called.
    pub fn finish<C: FnOnce(&VerifiedStream<H>)>(&mut self, cancel: C)
        requires
            old(self).wf(),
            !old(self).is_done() ==> cancel.requires((&*old(self),)),
        ensures
            old(self).is_done() ==> *final(self) == *old(self),
            !old(self).is_done() ==> cancel.ensures((&*old(self),), ()),
            forall|i: int| 0 <= i < old(self)@.len() ==> (#[trigger] old(self)@[i]).awaited(),
            final(self)@.len() == 0,
            final(self).is_done(),
            final(self).total() == old(self).total(),
            final(self).wf(),
    {
        if !self.done {
            cancel(self);
            // Await all the futures to be dropped.
            let ghost before = self@;
            loop
                invariant
                    before == old(self)@,
                    self.wf(),
                    self.total() == old(self).total(),
                    self@.len() <= before.len(),
                    self@ == before.skip(before.len() - self@.len()),
                    forall|i: int|
                        0 <= i < before.len() - self@.len() ==> (#[trigger] before[i]).awaited(),
                ensures
                    self.wf(),
                    self.is_done(),
                    self.total() == old(self).total(),
                    forall|i: int| 0 <= i < before.len() ==> (#[trigger] before[i]).awaited(),
                decreases self@.len(),
            {
                if self.block_next().is_none() {
                    break;
                }
            }
        }
    }
}

/// `before` is what a stream had to come and `had` what was collected of it,
/// before a poll of a collection, and `after` and `has` are that after it: what
/// has been added to the outputs has come off the front of the stream.
pub open spec fn collects<H, O>(before: Seq<H>, after: Seq<H>, had: Seq<O>, has: Seq<O>) -> bool {
    &&& had.is_prefix_of(has)
    &&& has.len() - had.len() <= before.len()
    &&& after =~= before.skip(has.len() - had.len())
}

/// To collect a stream by polls, however many, gives what collecting it in one
/// go gives: the outputs of its futures, in order, of all of them when nothing is
/// to come any more, and these futures have been driven to completion.
///
/// `pending[k]` is what the stream has to come after `k` polls, `outputs[k]` is
/// what has been collected by then, and `n` is a number of polls.
pub proof fn law_polls_collect_all<H: Future>(
    pending: Seq<Seq<H>>,
    outputs: Seq<Seq<H::Output>>,
    n: int,
)
    requires
        pending.len() == outputs.len(),
        pending.len() > 0,
        outputs[0].len() == 0,
        forall|j: int, k: int|
            0 <= j && k == j + 1 && k < pending.len() ==> collects(
                pending[j],
                pending[k],
                #[trigger] outputs[j],
                #[trigger] outputs[k],
            ),
        forall|j: int, k: int|
            #![trigger outputs[j], outputs[k]]
            0 <= j && k == j + 1 && k < pending.len() ==> forall|i: int|
                outputs[j].len() <= i < outputs[k].len() ==> #[trigger] outputs[k][i]
                    == pending[j][i - outputs[j].len()]@,
        forall|j: int, k: int|
            #![trigger outputs[j], outputs[k]]
            0 <= j && k == j + 1 && k < pending.len() ==> forall|i: int|
                0 <= i < outputs[k].len() - outputs[j].len() ==> (
                #[trigger] pending[j][i]).awaited(),
        0 <= n < pending.len(),
    ensures
        collects(pending[0], pending[n], outputs[0], outputs[n]),
        forall|i: int| 0 <= i < outputs[n].len() ==> #[trigger] outputs[n][i] == pending[0][i]@,
        forall|i: int| 0 <= i < outputs[n].len() ==> (#[trigger] pending[0][i]).awaited(),
        pending[n].len() == 0 ==> outputs[n].len() == pending[0].len(),
    decreases n,
{
    if n > 0 {
        law_polls_collect_all::<H>(pending, outputs, n - 1);
        let had = outputs[n - 1].len();
        assert(collects(pending[n - 1], pending[n], outputs[n - 1], outputs[n]));
        assert forall|i: int| 0 <= i < outputs[n].len() implies #[trigger] outputs[n][i]
            == pending[0][i]@ by {
            if i < had {
                assert(outputs[n][i] == outputs[n - 1][i]);
            } else {
                assert(pending[n - 1][i - had] == pending[0][i]);
            }
        }
        assert forall|i: int| 0 <= i < outputs[n].len() implies (
        #[trigger] pending[0][i]).awaited() by {
            if i >= had {
                assert(pending[n - 1][i - had] == pending[0][i]);
            }
        }
    }
}

/// The two fields that everybody sees are what the contracts speak of.
proof fn law_stream_fields<H: Future>(stream: VerifiedStream<H>)
    ensures
        stream.is_done() == stream.done,
        stream.total() == stream.len,
{
}

/// The outputs of a stream are those of its queue, and one that is well-formed
/// has nothing to come once it is done.
pub proof fn law_stream_is_its_queue<H: Future>(stream: VerifiedStream<H>)
    ensures
        stream@ == stream.queue()@,
        stream.wf() <==> (stream.is_done() ==> stream@.len() == 0),
{
}

/// A poll of a collection takes outputs off the front of the stream alone: those
/// collected before stay, and what comes after those it adds is still to come.
pub proof fn law_poll_of_collection_takes_the_front<H, O>(
    before: Seq<H>,
    after: Seq<H>,
    had: Seq<O>,
    has: Seq<O>,
)
    requires
        collects(before, after, had, has),
    ensures
        had.is_prefix_of(has),
        has.len() + after.len() == had.len() + before.len(),
        after == before.skip(before.len() - after.len()),
{
}

} // verus!
