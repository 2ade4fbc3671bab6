//! Futures that can be cancelled.
use core::future::Future;
use core::task::{Poll, Waker};
use vstd::future::FutureAdditionalSpecFns;
use vstd::prelude::*;

use crate::cancellation::{Cancellation, CancellationView};
use crate::driven::DrivenFuture;

verus! {

/// What a [`CancellableFuture`] stands for, apart from the future that is
/// wrapped.
#[verifier::ext_equal]
#[verifier::reject_recursive_types(Fu)]
pub struct CancellableView<Fu> {
    /// The key under which the future is registered, if it is.
    pub key: Option<usize>,
    /// The function that makes the default, until it has been called.
    pub default: Option<Fu>,
    /// Whether an output has been given. As any future, this one is not to be
    /// polled after that.
    pub finished: bool,
}

impl<Fu> CancellableView<Fu> {
    /// A future that has not been polled.
    pub open spec fn new(default: Fu) -> Self {
        CancellableView { key: None, default: Some(default), finished: false }
    }

    /// `after` is this future when it has been polled, under `waker`, and
    /// `state_after` is the state of its cancellation from then on. `ready`
    /// tells whether the poll has brought an output.
    ///
    /// Where cancellation has happened, or is happening (`entered` is false),
    /// the default is made, and else the future that is wrapped is polled.
    pub open spec fn polled(
        self,
        after: Self,
        state: CancellationView,
        state_after: CancellationView,
        entered: bool,
        ready: bool,
        waker: Waker,
    ) -> bool {
        if entered && state.live {
            &&& after.default == self.default
            &&& after.finished == ready
            &&& state.poll_recorded(state_after, self.key, ready, waker, after.key)
        } else {
            &&& ready
            &&& after == (CancellableView { default: None, finished: true, ..self })
            &&& state_after == state
        }
    }
}

/// A wrapper for a future to make it cancellable from the scope that spawned
/// it. Polled after cancellation, it gives a default in place of the output of
/// the future.
#[verifier::reject_recursive_types(I)]
#[verifier::reject_recursive_types(F)]
#[verifier::reject_recursive_types(Fu)]
pub struct CancellableFuture<I, F: Future<Output = I> + Unpin, Fu: FnOnce() -> I> {
    key: Option<usize>,
    default: Option<Fu>,
    fut: DrivenFuture<F>,
}

impl<I, F: Future<Output = I> + Unpin, Fu: FnOnce() -> I> View for CancellableFuture<I, F, Fu> {
    type V = CancellableView<Fu>;

    closed spec fn view(&self) -> CancellableView<Fu> {
        CancellableView {
            key: self.key,
            default: self.default,
            finished: self.fut.finished() || self.default is None,
        }
    }
}

impl<I, F: Future<Output = I> + Unpin, Fu: FnOnce() -> I> CancellableFuture<I, F, Fu> {
    /// The future that is wrapped.
    pub closed spec fn driven(&self) -> DrivenFuture<F> {
        self.fut
    }

    /// Until it is finished, the future that is wrapped can be polled, and the
    /// function that makes the default is there to be called.
    pub open spec fn wf(&self) -> bool {
        &&& self@.finished == (self.driven().finished() || self@.default is None)
        &&& self@.default is Some ==> self@.default->0.requires(())
    }

    /// Wrap a future. `default` gives the output in case of cancellation.
    pub fn new(fut: F, default: Fu) -> (wrapped: Self)
        requires
            default.requires(()),
        ensures
            wrapped@ == CancellableView::new(default),
            wrapped.driven().future() == fut,
            wrapped.wf(),
    {
        CancellableFuture { key: None, default: Some(default), fut: DrivenFuture::new(fut) }
    }

    /// Whether the key of the future is one that polling it can rely on.
    pub fn has_valid_key(&self, cancellation: &Cancellation) -> (valid: bool)
        ensures
            valid == cancellation@.valid_key(self@.key),
    {
        match self.key {
            Some(id) => cancellation.is_cancelled() || cancellation.is_registered(id),
            None => true,
        }
    }

    /// Finish with the default.
    pub fn take_default(&mut self) -> (output: I)
        requires
            old(self).wf(),
            !old(self)@.finished,
        ensures
            old(self)@.default->0.ensures((), output),
            final(self)@ == (CancellableView { default: None, finished: true, ..old(self)@ }),
            final(self).driven() == old(self).driven(),
            final(self).wf(),
    {
        let default = self.default.take().unwrap();
        default()
    }

    /// Poll the future that is wrapped, once, and hand on what that brings.
    pub fn poll_inner(&mut self, waker: &Waker) -> (polled: Poll<I>)
        requires
            old(self).wf(),
            !old(self)@.finished,
        ensures
            match polled {
                Poll::Ready(output) => {
                    &&& output == old(self).driven().future()@
                    &&& old(self).driven().future().awaited()
                },
                Poll::Pending => {
                    &&& final(self).driven().future()@ == old(self).driven().future()@
                    &&& final(self).driven().future().awaited()
                        == old(self).driven().future().awaited()
                },
            },
            exists|fut: &mut DrivenFuture<F>|
                {
                    &&& *fut == old(self).driven()
                    &&& *final(fut) == final(self).driven()
                    &&& #[trigger] call_ensures(DrivenFuture::<F>::poll, (fut, waker), polled)
                },
            final(self)@ == (CancellableView { finished: polled is Ready, ..old(self)@ }),
            final(self).wf(),
    {
        let poll = DrivenFuture::<F>::poll;
        poll(&mut self.fut, waker)
    }

    /// Record with the cancellation that the future that is wrapped has been
    /// polled.
    pub fn record_poll(&mut self, cancellation: &mut Cancellation, ready: bool, waker: Waker)
        requires
            old(cancellation)@.wf(),
            old(cancellation)@.live,
            old(cancellation)@.valid_key(old(self)@.key),
        ensures
            old(cancellation)@.poll_recorded(
                final(cancellation)@,
                old(self)@.key,
                ready,
                waker,
                final(self)@.key,
            ),
            final(cancellation)@.wf(),
            final(cancellation)@.valid_key(final(self)@.key),
            final(self)@ == (CancellableView { key: final(self)@.key, ..old(self)@ }),
            final(self).driven() == old(self).driven(),
    {
        self.key = cancellation.record_poll(self.key, ready, waker);
    }

    /// Poll the future that is wrapped, once and under this waker, and hand on
    /// what that brings, unless cancellation has happened or is happening
    /// (`entered` is false): then finish with the default.
    pub fn poll(&mut self, cancellation: &mut Cancellation, entered: bool, waker: Waker) -> (polled:
        Poll<I>)
        requires
            old(self).wf(),
            !old(self)@.finished,
            old(cancellation)@.wf(),
            entered ==> old(cancellation)@.valid_key(old(self)@.key),
        ensures
            old(self)@.polled(
                final(self)@,
                old(cancellation)@,
                final(cancellation)@,
                entered,
                polled is Ready,
                waker,
            ),
            entered && old(cancellation)@.live ==> {
                &&& match polled {
                    Poll::Ready(output) => {
                        &&& output == old(self).driven().future()@
                        &&& old(self).driven().future().awaited()
                    },
                    Poll::Pending => {
                        &&& final(self).driven().future()@ == old(self).driven().future()@
                        &&& final(self).driven().future().awaited()
                            == old(self).driven().future().awaited()
                    },
                }
                &&& exists|fut: &mut DrivenFuture<F>|
                    {
                        &&& *fut == old(self).driven()
                        &&& *final(fut) == final(self).driven()
                        &&& #[trigger] call_ensures(DrivenFuture::<F>::poll, (fut, &waker), polled)
                    }
            },
            !(entered && old(cancellation)@.live) ==> {
                &&& match polled {
                    Poll::Ready(output) => old(self)@.default->0.ensures((), output),
                    Poll::Pending => false,
                }
                &&& final(self).driven() == old(self).driven()
            },
            final(self).wf(),
            final(cancellation)@.wf(),
            !final(self)@.finished ==> final(cancellation)@.valid_key(final(self)@.key),
    {
        if let Some((polled, new_key)) = cancellation.poll_future(
            entered,
            self.key,
            &mut self.fut,
            waker,
        ) {
            self.key = new_key;
            polled
        } else {
            Poll::Ready(self.take_default())
        }
    }
}

/// A future that has not been polled has no key, and has its default to make.
pub proof fn law_new_is_unpolled<Fu>(default: Fu)
    ensures
        CancellableView::new(default).key is None,
        CancellableView::new(default).default == Some(default),
        !CancellableView::new(default).finished,
{
}

/// To poll a future while cancellation has neither happened nor is happening
/// keeps the default for later, finishes the future just where the poll brings
/// an output, and leaves it with a key just where it does not. To poll it at any
/// other time brings an output, uses the default up, and leaves the cancellation
/// alone.
pub proof fn law_poll_effects<Fu>(
    before: CancellableView<Fu>,
    after: CancellableView<Fu>,
    state: CancellationView,
    state_after: CancellationView,
    entered: bool,
    ready: bool,
    waker: Waker,
)
    requires
        before.polled(after, state, state_after, entered, ready, waker),
    ensures
        after.finished == ready,
        entered && state.live ==> {
            &&& after.default == before.default
            &&& after.key is Some <==> !ready
            &&& state_after.live
            &&& state_after.woken == state.woken
            &&& !ready ==> {
                &&& state_after.wakers.contains_key(after.key->0)
                &&& state_after.wakers[after.key->0] == waker
                &&& before.key is Some ==> after.key == before.key
                &&& before.key is None ==> !state.wakers.contains_key(after.key->0)
            }
            &&& ready && before.key is Some ==> !state_after.wakers.contains_key(before.key->0)
            &&& forall|other: usize|
                before.key != Some(other) && after.key != Some(other)
                    ==> #[trigger] state_after.wakers.contains_key(other)
                    == state.wakers.contains_key(other)
            &&& forall|other: usize|
                before.key != Some(other) && after.key != Some(other)
                    && state.wakers.contains_key(other) ==> #[trigger] state_after.wakers[other]
                    == state.wakers[other]
        },
        !(entered && state.live) ==> {
            &&& ready
            &&& after.default is None
            &&& after.key == before.key
            &&& state_after == state
        },
{
}

/// One poll of a future that can be cancelled.
#[verifier::reject_recursive_types(Fu)]
pub struct PollStep<Fu> {
    /// The future before the poll, and after it.
    pub before: CancellableView<Fu>,
    pub after: CancellableView<Fu>,
    /// The cancellation before the poll, and after it.
    pub state: CancellationView,
    pub state_after: CancellationView,
    /// Whether the poll was let in.
    pub entered: bool,
    /// Whether the poll has brought an output.
    pub ready: bool,
    /// The waker of the poll.
    pub waker: Waker,
}

impl<Fu> PollStep<Fu> {
    /// The poll was in order and has done what a poll does.
    pub open spec fn wf(self) -> bool {
        &&& !self.before.finished
        &&& self.entered ==> self.state.valid_key(self.before.key)
        &&& self.before.polled(
            self.after,
            self.state,
            self.state_after,
            self.entered,
            self.ready,
            self.waker,
        )
    }

    /// Whether the poll was one of the future that is wrapped.
    pub open spec fn polls_future(self) -> bool {
        self.entered && self.state.live
    }

    /// Whether the poll has called the function that makes the default.
    pub open spec fn calls_default(self) -> bool {
        self.before.default is Some && self.after.default is None
    }
}

/// `steps` are the polls of one future, from the first on. Between two of them
/// the cancellation may change in any way.
pub open spec fn polls_of_one<Fu>(steps: Seq<PollStep<Fu>>) -> bool {
    &&& steps.len() > 0 ==> {
        &&& steps[0].before.default is Some
        &&& steps[0].before == CancellableView::new(steps[0].before.default->0)
    }
    &&& forall|i: int| 0 <= i < steps.len() ==> (#[trigger] steps[i]).wf()
    &&& forall|i: int|
        0 < i < steps.len() ==> (#[trigger] steps[i]).before == steps[i - 1].after
}

/// The keys that the first `n` of the polls have put into use and not given
/// back.
pub open spec fn keys_held<Fu>(steps: Seq<PollStep<Fu>>, n: int) -> Set<usize>
    decreases n,
{
    if n <= 0 {
        Set::empty()
    } else {
        let before = steps[n - 1].state.wakers.dom();
        let after = steps[n - 1].state_after.wakers.dom();
        keys_held(steps, n - 1).union(after.difference(before)).difference(
            before.difference(after),
        )
    }
}

/// Each poll of a future does one of two things: it polls the future that is
/// wrapped, or it calls the function that makes the default.
pub proof fn law_polls_or_defaults<Fu>(steps: Seq<PollStep<Fu>>, i: int)
    requires
        polls_of_one(steps),
        0 <= i < steps.len(),
    ensures
        steps[i].before.default is Some,
        steps[i].polls_future() != steps[i].calls_default(),
    decreases i,
{
    assert(steps[i].wf());
    if i > 0 {
        law_polls_or_defaults(steps, i - 1);
        assert(steps[i - 1].wf());
    }
}

/// In the whole life of a future the function that makes the default is called
/// at most once: the poll that calls it is the last.
pub proof fn law_default_called_at_most_once<Fu>(steps: Seq<PollStep<Fu>>, i: int)
    requires
        polls_of_one(steps),
        0 <= i < steps.len(),
        steps[i].calls_default(),
    ensures
        i == steps.len() - 1,
        forall|j: int|
            0 <= j < steps.len() && (#[trigger] steps[j]).calls_default() ==> j == i,
{
    assert forall|j: int| 0 <= j < steps.len() && (#[trigger] steps[j]).calls_default() implies j
        == steps.len() - 1 by {
        law_polls_or_defaults(steps, j);
        assert(steps[j].wf());
        if j + 1 < steps.len() {
            assert(steps[j + 1].wf());
        }
    }
}

/// At any time in its life a future holds at most one key, which is the one
/// that it has.
pub proof fn law_holds_at_most_one_key<Fu>(steps: Seq<PollStep<Fu>>, n: int)
    requires
        polls_of_one(steps),
        0 < n <= steps.len(),
    ensures
        keys_held(steps, n) == match steps[n - 1].after.key {
            Some(id) => Set::<usize>::empty().insert(id),
            None => Set::<usize>::empty(),
        },
        keys_held(steps, n).len() <= 1,
    decreases n,
{
    let step = steps[n - 1];
    assert(step.wf());
    let held = keys_held(steps, n - 1);
    if n > 1 {
        law_holds_at_most_one_key(steps, n - 1);
    } else {
        assert(keys_held(steps, 0) == Set::<usize>::empty());
    }
    assert(held =~= match step.before.key {
        Some(id) => Set::<usize>::empty().insert(id),
        None => Set::<usize>::empty(),
    });
    assert(keys_held(steps, n) =~= match step.after.key {
        Some(id) => Set::<usize>::empty().insert(id),
        None => Set::<usize>::empty(),
    });
}

} // verus!
