//! A set of futures.
use core::future::Future;
use core::pin::Pin;
use core::task::{Context, Poll};
use futures::stream::{Collect, FuturesUnordered, Next, Stream, StreamExt};
use vstd::future::FutureAdditionalSpecFns;
use vstd::multiset::Multiset;
use vstd::prelude::*;

verus! {

/// What an [`UnorderedFutures`] stands for. Each future is meant in the state
/// in which it was pushed; for a future `h`, `h@` is the output that `h`
/// resolves to, and `h.awaited()` says that it does so, that is, that `h` is
/// driven to completion.
#[verifier::ext_equal]
#[verifier::reject_recursive_types(H)]
pub struct UnorderedView<H> {
    /// All the futures that were pushed, in order.
    pub pushed: Seq<H>,
    /// The futures whose output has been handed out, in the order of that.
    pub delivered: Seq<H>,
    /// The other ones.
    pub pending: Multiset<H>,
}

impl<H> UnorderedView<H> {
    /// Each future that was pushed is pending or has been delivered, once.
    pub open spec fn wf(self) -> bool {
        self.pushed.to_multiset() == self.pending.add(self.delivered.to_multiset())
    }

    /// The set without futures.
    pub open spec fn empty() -> Self {
        UnorderedView {
            pushed: Seq::empty(),
            delivered: Seq::empty(),
            pending: Multiset::empty(),
        }
    }

    /// The set with one more future.
    pub open spec fn push(self, future: H) -> Self {
        UnorderedView {
            pushed: self.pushed.push(future),
            delivered: self.delivered,
            pending: self.pending.insert(future),
        }
    }

    /// `after` is this set when the next future has been delivered: one of the
    /// pending ones, `after.delivered.last()`.
    pub open spec fn delivers_one(self, after: Self) -> bool {
        &&& after.delivered.len() > 0
        &&& after.delivered.drop_last() == self.delivered
        &&& self.pending.count(after.delivered.last()) > 0
        &&& after.pending == self.pending.remove(after.delivered.last())
        &&& after.pushed == self.pushed
    }

    /// `after` is this set when all the pending futures have been delivered.
    pub open spec fn delivers_all(self, after: Self) -> bool {
        &&& self.delivered.is_prefix_of(after.delivered)
        &&& after.delivered.skip(self.delivered.len() as int).to_multiset() == self.pending
        &&& after.pending == Multiset::<H>::empty()
        &&& after.pushed == self.pushed
    }
}

/// A set of futures that are driven together and whose outputs come out in the
/// order in which the futures finish.
#[verifier::reject_recursive_types(H)]
pub struct UnorderedFutures<H: Future> {
    futs: FuturesUnordered<H>,
    model: Ghost<UnorderedView<H>>,
}

impl<H: Future> View for UnorderedFutures<H> {
    type V = UnorderedView<H>;

    closed spec fn view(&self) -> UnorderedView<H> {
        self.model@
    }
}

impl<H: Future> UnorderedFutures<H> {
    /// Calls [`FuturesUnordered::new`], which makes a set without futures.
    #[verifier::external_body]
    pub(crate) fn new() -> (futs: Self)
        ensures
            futs@ == UnorderedView::<H>::empty(),
    {
        UnorderedFutures { futs: FuturesUnordered::new(), model: Ghost(UnorderedView::empty()) }
    }

    /// Calls [`FuturesUnordered::push`], which puts the future into the set and
    /// does not poll it.
    #[verifier::external_body]
    pub(crate) fn push(&mut self, future: H)
        ensures
            final(self)@ == old(self)@.push(future),
    {
        self.futs.push(future);
    }

    /// Calls `poll_next` of [`FuturesUnordered`].
    ///
    /// An output that comes out is that of one of the pending futures, which
    /// has finished and is then delivered; the end is reported only by a set
    /// without pending futures. Which future has finished is for the executor to
    /// say. A set without pending futures can be pending once more, while a
    /// wake-up of a delivered future is still being given by another thread; one
    /// that never had a future is not.
    #[verifier::external_body]
    pub fn poll_next(&mut self, cx: &mut Context<'_>) -> (polled: Poll<Option<H::Output>>)
        ensures
            match polled {
                Poll::Ready(Some(output)) => {
                    &&& old(self)@.delivers_one(final(self)@)
                    &&& output == final(self)@.delivered.last()@
                    &&& final(self)@.delivered.last().awaited()
                },
                Poll::Ready(None) => old(self)@.pending.len() == 0 && final(self)@ == old(self)@,
                Poll::Pending => final(self)@ == old(self)@,
            },
            old(self)@.pushed.len() == 0 ==> polled == Poll::<Option<H::Output>>::Ready(None),
    {
        Pin::new(&mut self.futs).poll_next(cx)
    }

    /// Calls [`StreamExt::next`], which makes a future of the next item of the
    /// set.
    ///
    /// Once awaited, that future has resolved to the output of one of the
    /// pending futures, which has finished and is then delivered, or to `None`
    /// if no future was pending. If it is dropped before, the set is as it was.
    #[verifier::external_body]
    pub(crate) fn next(&mut self) -> (item: Next<'_, FuturesUnordered<H>>)
        ensures
            item.awaited() ==> match item@ {
                Some(output) => {
                    &&& old(self)@.delivers_one(final(self)@)
                    &&& output == final(self)@.delivered.last()@
                    &&& final(self)@.delivered.last().awaited()
                },
                None => old(self)@.pending.len() == 0 && final(self)@ == old(self)@,
            },
            !item.awaited() ==> final(self)@ == old(self)@,
    {
        self.futs.next()
    }

    /// Calls [`StreamExt::collect`], which makes a future of all the items of
    /// the set.
    ///
    /// Once awaited, that future has resolved to the outputs of the pending
    /// futures, which have finished and are then delivered, one by one, in the
    /// order in which the outputs stand. What is left of the set if it is
    /// dropped before is left open.
    #[verifier::external_body]
    pub(crate) fn collect_all(&mut self) -> (all: Collect<
        &mut FuturesUnordered<H>,
        Vec<H::Output>,
    >)
        ensures
            all.awaited() ==> {
                &&& old(self)@.delivers_all(final(self)@)
                &&& all@@.len() == old(self)@.pending.len()
                &&& forall|i: int|
                    0 <= i < all@@.len() ==> #[trigger] all@@[i]
                        == final(self)@.delivered[old(self)@.delivered.len() + i]@
                &&& forall|i: int|
                    old(self)@.delivered.len() <= i < final(self)@.delivered.len() ==> (
                    #[trigger] final(self)@.delivered[i]).awaited()
            },
    {
        (&mut self.futs).collect()
    }
}

/// A set without futures is well-formed.
pub proof fn lemma_empty_wf<H>()
    ensures
        UnorderedView::<H>::empty().wf(),
{
    broadcast use vstd::seq_lib::group_to_multiset_ensures;

    let model = UnorderedView::<H>::empty();
    assert(model.pushed.to_multiset() =~= Multiset::empty());
    assert(model.pending.add(model.delivered.to_multiset()) =~= Multiset::empty());
}

/// To push a future keeps the set well-formed.
pub proof fn lemma_push_wf<H>(model: UnorderedView<H>, future: H)
    requires
        model.wf(),
    ensures
        model.push(future).wf(),
{
    broadcast use vstd::seq_lib::group_to_multiset_ensures;

    let after = model.push(future);
    assert(after.pushed.to_multiset() =~= after.pending.add(after.delivered.to_multiset()));
}

/// To deliver a future keeps the set well-formed.
pub proof fn lemma_delivers_one_wf<H>(model: UnorderedView<H>, after: UnorderedView<H>)
    requires
        model.wf(),
        model.delivers_one(after),
    ensures
        after.wf(),
{
    broadcast use vstd::seq_lib::group_to_multiset_ensures;

    let future = after.delivered.last();
    assert(after.delivered =~= model.delivered.push(future));
    assert(after.pushed.to_multiset() =~= after.pending.add(after.delivered.to_multiset()));
}

/// To deliver all the futures keeps the set well-formed.
pub proof fn lemma_delivers_all_wf<H>(model: UnorderedView<H>, after: UnorderedView<H>)
    requires
        model.wf(),
        model.delivers_all(after),
    ensures
        after.wf(),
        after.delivered.len() == model.delivered.len() + model.pending.len(),
{
    broadcast use vstd::seq_lib::group_to_multiset_ensures;

    let rest = after.delivered.skip(model.delivered.len() as int);
    assert(after.delivered =~= model.delivered + rest);
    vstd::seq_lib::lemma_multiset_commutative(model.delivered, rest);
    assert(after.pushed.to_multiset() =~= after.pending.add(after.delivered.to_multiset()));
}

/// A set without futures has none, and none has come out.
pub proof fn law_empty_has_none<H>()
    ensures
        UnorderedView::<H>::empty().pushed.len() == 0,
        UnorderedView::<H>::empty().delivered.len() == 0,
        UnorderedView::<H>::empty().pending.len() == 0,
{
}

/// In a well-formed set, a future is pending or delivered as often as it was
/// pushed.
pub proof fn law_pushed_is_pending_or_delivered<H>(model: UnorderedView<H>, future: H)
    requires
        model.wf(),
    ensures
        model.pending.count(future) + model.delivered.to_multiset().count(future)
            == model.pushed.to_multiset().count(future),
{
}

/// To push a future adds it, as pending, behind those that were pushed before,
/// and takes nothing away.
pub proof fn law_push_adds_one<H>(model: UnorderedView<H>, future: H)
    ensures
        model.push(future).pushed == model.pushed.push(future),
        model.push(future).delivered == model.delivered,
        model.push(future).pending == model.pending.insert(future),
{
}

/// To deliver a future moves one that was pending behind those delivered before,
/// and changes nothing else.
pub proof fn law_deliver_moves_one<H>(model: UnorderedView<H>, after: UnorderedView<H>)
    requires
        model.delivers_one(after),
    ensures
        after.pushed == model.pushed,
        after.delivered == model.delivered.push(after.delivered.last()),
        model.pending.count(after.delivered.last()) > 0,
        model.pending == after.pending.insert(after.delivered.last()),
        after.pending.len() + 1 == model.pending.len(),
{
    assert(after.delivered =~= model.delivered.push(after.delivered.last()));
    assert(model.pending =~= after.pending.insert(after.delivered.last()));
}

/// To deliver all the futures moves just those that were pending, each once,
/// behind those delivered before.
pub proof fn law_deliver_moves_all<H>(model: UnorderedView<H>, after: UnorderedView<H>, future: H)
    requires
        model.delivers_all(after),
    ensures
        after.pushed == model.pushed,
        model.delivered.is_prefix_of(after.delivered),
        after.pending.len() == 0,
        after.delivered.skip(model.delivered.len() as int).to_multiset().count(future)
            == model.pending.count(future),
{
}

} // verus!
