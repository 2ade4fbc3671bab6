//! Cancellation of the futures of a scope.
use core::future::Future;
use core::task::{Poll, Waker};
use slab::Slab;
use vstd::future::FutureAdditionalSpecFns;
use vstd::prelude::*;

use crate::driven::DrivenFuture;
use crate::wakers;
use crate::wakers::{
    slab_contains, slab_drain, slab_get_mut, slab_insert, slab_new, slab_remove, WakeLog,
};

verus! {

/// What a [`Cancellation`] stands for.
#[verifier::ext_equal]
pub struct CancellationView {
    /// Whether cancellation has not been triggered.
    pub live: bool,
    /// The wakers of the pending futures, each under the key of its future.
    pub wakers: Map<usize, Waker>,
    /// All the wake-ups that cancellation has given.
    pub woken: Seq<Waker>,
}

impl CancellationView {
    /// Nothing is registered once cancellation has been triggered.
    pub open spec fn wf(self) -> bool {
        !self.live ==> self.wakers == wakers::no_wakers()
    }

    /// Before cancellation, the key of a future is one that is in use.
    pub open spec fn valid_key(self, key: Option<usize>) -> bool {
        self.live && key is Some ==> self.wakers.contains_key(key->0)
    }

    /// The state after cancellation: every registered waker has been woken,
    /// once, and none is registered any more.
    pub open spec fn cancelled(self) -> Self {
        if self.live {
            CancellationView {
                live: false,
                wakers: wakers::no_wakers(),
                woken: self.woken + wakers::in_key_order(self.wakers),
            }
        } else {
            self
        }
    }

    /// `after` is the state after a future with the key `key` was polled under
    /// `waker`, and `new_key` is the key of the future from then on.
    ///
    /// A future that is ready gives its key back. One that is pending is
    /// registered with `waker`: under the key it has, or under one that was not
    /// in use.
    pub open spec fn poll_recorded(
        self,
        after: Self,
        key: Option<usize>,
        ready: bool,
        waker: Waker,
        new_key: Option<usize>,
    ) -> bool {
        &&& after.live == self.live
        &&& after.woken == self.woken
        &&& if ready {
            &&& new_key is None
            &&& after.wakers == match key {
                Some(id) => self.wakers.remove(id),
                None => self.wakers,
            }
        } else {
            &&& new_key is Some
            &&& after.wakers == self.wakers.insert(new_key->0, waker)
            &&& match key {
                Some(id) => new_key == Some(id),
                None => !self.wakers.contains_key(new_key->0),
            }
        }
    }
}

/// Decides whether futures go on being polled, and wakes the pending ones when
/// they do not.
pub struct Cancellation {
    flag: bool,
    read_wakers: Slab<Waker>,
    wakes: WakeLog,
}

impl View for Cancellation {
    type V = CancellationView;

    closed spec fn view(&self) -> CancellationView {
        CancellationView {
            live: self.flag,
            wakers: wakers::slab_wakers(self.read_wakers),
            woken: self.wakes@,
        }
    }
}

impl Cancellation {
    /// A cancellation that has not been triggered, without futures.
    pub fn new() -> (cancellation: Self)
        ensures
            cancellation@.live,
            cancellation@.wakers == wakers::no_wakers(),
            cancellation@.woken == Seq::<Waker>::empty(),
            cancellation@.wf(),
    {
        Cancellation { flag: true, read_wakers: slab_new(), wakes: WakeLog::new() }
    }

    /// Whether cancellation has been triggered.
    pub fn is_cancelled(&self) -> (cancelled: bool)
        ensures
            cancelled == !self@.live,
    {
        !self.flag
    }

    /// Whether a future with this key is registered.
    pub fn is_registered(&self, key: usize) -> (registered: bool)
        ensures
            registered == self@.wakers.contains_key(key),
    {
        slab_contains(&self.read_wakers, key)
    }

    /// Trigger cancellation: set the flag to false and wake all futures
    /// registered with us. Does nothing if it has been triggered before.
    pub fn cancel(&mut self)
        requires
            old(self)@.wf(),
        ensures
            final(self)@ == old(self)@.cancelled(),
            !final(self)@.live,
            forall|key: usize| !(#[trigger] final(self)@.wakers.contains_key(key)),
            !old(self)@.live ==> final(self)@.woken == old(self)@.woken,
            old(self)@.live ==> final(self)@.woken == old(self)@.woken + wakers::in_key_order(
                old(self)@.wakers,
            ),
            final(self)@.wf(),
    {
        if !self.flag {
            return;
        }
        self.flag = false;
        let wakers = slab_drain(&mut self.read_wakers);
        self.wakes.wake_all(wakers);
    }

    /// Whether a future is to be polled.
    ///
    /// `entered` tells whether the caller was let in to poll, that is, whether
    /// nobody is triggering the cancellation at this moment.
    pub fn may_poll(&self, entered: bool) -> (may: bool)
        ensures
            may == (entered && self@.live),
    {
        entered && self.flag
    }

    /// Record that a future has been polled, and return its key from then on.
    ///
    /// A future that is ready gives back the key it has, if any. One that is
    /// pending is registered with the waker, to be woken on cancellation.
    pub fn record_poll(&mut self, key: Option<usize>, ready: bool, waker: Waker) -> (new_key: Option<
        usize,
    >)
        requires
            old(self)@.wf(),
            old(self)@.live,
            old(self)@.valid_key(key),
        ensures
            old(self)@.poll_recorded(final(self)@, key, ready, waker, new_key),
            final(self)@.live,
            final(self)@.woken == old(self)@.woken,
            new_key is Some <==> !ready,
            !ready && key is Some ==> new_key == key,
            !ready && key is None ==> !old(self)@.wakers.contains_key(new_key->0),
            !ready ==> final(self)@.wakers == old(self)@.wakers.insert(new_key->0, waker),
            ready && key is Some ==> final(self)@.wakers == old(self)@.wakers.remove(key->0),
            ready && key is None ==> final(self)@.wakers == old(self)@.wakers,
            final(self)@.wf(),
            final(self)@.valid_key(new_key),
    {
        if ready {
            if let Some(id) = key {
                let _ = slab_remove(&mut self.read_wakers, id);
            }
            None
        } else {
            match key {
                Some(id) => {
                    // If we have a key, it must be valid.
                    if let Some(slot) = slab_get_mut(&mut self.read_wakers, id) {
                        *slot = waker;
                    }
                    Some(id)
                },
                None => Some(slab_insert(&mut self.read_wakers, waker)),
            }
        }
    }

    /// Poll a future if cancellation has not happened. If polled, which happens
    /// once and under this waker, the poll result is returned, with the key of
    /// the future from then on; otherwise, the cancellation has been triggered,
    /// or is being triggered (`entered` is false), and this method returns None.
    pub fn poll_future<F: Future + Unpin>(
        &mut self,
        entered: bool,
        key: Option<usize>,
        fut: &mut DrivenFuture<F>,
        waker: Waker,
    ) -> (polled: Option<(Poll<F::Output>, Option<usize>)>)
        requires
            old(self)@.wf(),
            entered ==> old(self)@.valid_key(key),
            entered && old(self)@.live ==> !old(fut).finished(),
        ensures
            polled is Some <==> entered && old(self)@.live,
            match polled {
                Some((result, new_key)) => {
                    &&& match result {
                        Poll::Ready(output) => {
                            &&& output == old(fut).future()@
                            &&& old(fut).future().awaited()
                            &&& final(fut).finished()
                        },
                        Poll::Pending => {
                            &&& final(fut).future()@ == old(fut).future()@
                            &&& final(fut).future().awaited() == old(fut).future().awaited()
                            &&& !final(fut).finished()
                        },
                    }
                    &&& exists|polled_fut: &mut DrivenFuture<F>|
                        {
                            &&& *polled_fut == *old(fut)
                            &&& *final(polled_fut) == *final(fut)
                            &&& #[trigger] call_ensures(
                                DrivenFuture::<F>::poll,
                                (polled_fut, &waker),
                                result,
                            )
                        }
                    &&& old(self)@.poll_recorded(
                        final(self)@,
                        key,
                        result is Ready,
                        waker,
                        new_key,
                    )
                    &&& final(self)@.valid_key(new_key)
                },
                None => *final(self) == *old(self) && *final(fut) == *old(fut),
            },
            final(self)@.wf(),
    {
        if self.may_poll(entered) {
            let poll = DrivenFuture::<F>::poll;
            let result = poll(fut, &waker);
            let ready = match &result {
                Poll::Ready(_) => true,
                Poll::Pending => false,
            };
            let new_key = self.record_poll(key, ready, waker);
            return Some((result, new_key));
        }
        // Either already cancelled, or being cancelled.
        None
    }
}

/// What holds of a cancellation and of all the futures that are polled under
/// it, whose keys are `keys`: before cancellation, the futures that have a key
/// have different ones, and the keys in use are just these.
pub open spec fn consistent(state: CancellationView, keys: Seq<Option<usize>>) -> bool {
    &&& state.wf()
    &&& state.live ==> {
        &&& forall|i: int|
            0 <= i < keys.len() && (#[trigger] keys[i]) is Some ==> state.wakers.contains_key(
                keys[i]->0,
            )
        &&& forall|i: int, j: int|
            0 <= i < j < keys.len() && (#[trigger] keys[i]) is Some ==> keys[i]
                != #[trigger] keys[j]
        &&& forall|key: usize| #[trigger]
            state.wakers.contains_key(key) ==> keys.contains(Some(key))
    }
}

/// A cancellation without futures is consistent.
pub proof fn law_start_is_consistent(state: CancellationView)
    requires
        state.live,
        state.wakers == wakers::no_wakers(),
    ensures
        consistent(state, Seq::empty()),
{
}

/// A future that has not been polled can be added at any time.
pub proof fn law_new_future_is_consistent(state: CancellationView, keys: Seq<Option<usize>>)
    requires
        consistent(state, keys),
    ensures
        consistent(state, keys.push(None)),
{
    if state.live {
        assert forall|key: usize| #[trigger] state.wakers.contains_key(key) implies keys.push(
            None,
        ).contains(Some(key)) by {
            let i = choose|i: int| 0 <= i < keys.len() && keys[i] == Some(key);
            assert(keys.push(None)[i] == Some(key));
        }
    }
}

/// Polling one of the futures keeps all of them consistent, whatever the poll
/// brings.
pub proof fn law_poll_is_consistent(
    state: CancellationView,
    after: CancellationView,
    keys: Seq<Option<usize>>,
    i: int,
    ready: bool,
    waker: Waker,
    new_key: Option<usize>,
)
    requires
        consistent(state, keys),
        state.live,
        0 <= i < keys.len(),
        state.poll_recorded(after, keys[i], ready, waker, new_key),
    ensures
        consistent(after, keys.update(i, new_key)),
{
    let new_keys = keys.update(i, new_key);
    assert forall|j: int| 0 <= j < new_keys.len() && (#[trigger] new_keys[j]) is Some implies {
        after.wakers.contains_key(new_keys[j]->0)
    } by {
        if j != i {
            assert(keys[j] == new_keys[j]);
            assert(keys[i] is Some ==> keys[i] != keys[j]);
        }
    }
    assert forall|a: int, b: int|
        0 <= a < b < new_keys.len() && (#[trigger] new_keys[a]) is Some implies new_keys[a]
        != #[trigger] new_keys[b] by {
        assert(a != i ==> keys[a] == new_keys[a]);
        assert(b != i ==> keys[b] == new_keys[b]);
    }
    assert forall|key: usize| #[trigger] after.wakers.contains_key(key) implies new_keys.contains(
        Some(key),
    ) by {
        if new_key == Some(key) {
            assert(new_keys[i] == Some(key));
        } else {
            let j = choose|j: int| 0 <= j < keys.len() && keys[j] == Some(key);
            assert(new_keys[j] == Some(key));
        }
    }
}

/// Cancelling keeps the futures consistent.
pub proof fn law_cancel_is_consistent(state: CancellationView, keys: Seq<Option<usize>>)
    requires
        consistent(state, keys),
    ensures
        consistent(state.cancelled(), keys),
{
}

/// Whatever was polled and cancelled before, the key of each future is one
/// that polling it can rely on.
pub proof fn law_keys_are_valid(state: CancellationView, keys: Seq<Option<usize>>, i: int)
    requires
        consistent(state, keys),
        0 <= i < keys.len(),
    ensures
        state.valid_key(keys[i]),
{
}

/// Polling one future leaves the registration of every other one alone.
pub proof fn law_poll_leaves_others_registered(
    state: CancellationView,
    after: CancellationView,
    keys: Seq<Option<usize>>,
    i: int,
    j: int,
    ready: bool,
    waker: Waker,
    new_key: Option<usize>,
)
    requires
        consistent(state, keys),
        state.live,
        0 <= i < keys.len(),
        0 <= j < keys.len(),
        i != j,
        keys[j] is Some,
        state.poll_recorded(after, keys[i], ready, waker, new_key),
    ensures
        after.wakers.contains_key(keys[j]->0),
        after.wakers[keys[j]->0] == state.wakers[keys[j]->0],
{
    assert(keys[i] != keys[j]) by {
        if i < j && keys[i] is Some {
            assert(keys[i] != keys[j]);
        }
        if j < i {
            assert(keys[j] != keys[i]);
        }
    }
}

/// A future that was pending at its last poll is woken by cancellation, with
/// the waker of that poll.
pub proof fn law_pending_future_is_woken(
    state: CancellationView,
    after: CancellationView,
    key: Option<usize>,
    waker: Waker,
    new_key: Option<usize>,
)
    requires
        state.live,
        state.poll_recorded(after, key, false, waker, new_key),
    ensures
        after.cancelled().woken.contains(waker),
{
    law_cancel_wakes_registered(after, new_key->0);
    assert(after.wakers[new_key->0] == waker);
}

/// Cancellation wakes whoever is registered.
pub proof fn law_cancel_wakes_registered(state: CancellationView, key: usize)
    requires
        state.live,
        state.wakers.contains_key(key),
    ensures
        state.cancelled().woken.contains(state.wakers[key]),
{
    wakers::lemma_in_key_order_contains(state.wakers, key);
    let order = wakers::in_key_order(state.wakers);
    let n = choose|n: int| 0 <= n < order.len() && order[n] == state.wakers[key];
    assert(state.cancelled().woken[state.woken.len() + n] == state.wakers[key]);
}

/// Cancellation gives each registered future one wake-up, and gives no other.
pub proof fn law_cancel_wakes_once(state: CancellationView)
    requires
        state.live,
    ensures
        state.wakers.dom().finite(),
        state.cancelled().woken.len() == state.woken.len() + state.wakers.dom().len(),
{
    wakers::lemma_in_key_order_len(state.wakers);
}

/// To cancel again changes nothing and wakes nobody.
pub proof fn law_cancel_is_idempotent(state: CancellationView)
    ensures
        state.cancelled().cancelled() == state.cancelled(),
{
}

/// Once cancellation has been triggered no future is polled any more: nothing
/// makes the flag true again.
pub proof fn law_cancelled_for_good(
    state: CancellationView,
    after: CancellationView,
    key: Option<usize>,
    ready: bool,
    waker: Waker,
    new_key: Option<usize>,
)
    ensures
        !state.cancelled().live,
        !state.live && state.poll_recorded(after, key, ready, waker, new_key) ==> !after.live,
{
}

/// To cancel gives one wake-up to each future that is registered, from the
/// lowest key to the highest, and no other, and to cancel again gives none. From
/// then on the futures are no longer polled, and none is registered.
pub proof fn law_cancel_wakes_each_key(state: CancellationView) -> (order: Seq<usize>)
    requires
        state.live,
    ensures
        forall|key: usize| #[trigger] order.contains(key) <==> state.wakers.contains_key(key),
        forall|i: int, j: int| 0 <= i < j < order.len() ==> #[trigger] order[i] < #[trigger] order[j],
        state.cancelled().woken.len() == state.woken.len() + order.len(),
        state.woken.is_prefix_of(state.cancelled().woken),
        forall|i: int|
            0 <= i < order.len() ==> state.cancelled().woken[state.woken.len() + i]
                == state.wakers[#[trigger] order[i]],
        !state.cancelled().live,
        forall|key: usize| !(#[trigger] state.cancelled().wakers.contains_key(key)),
        state.cancelled().cancelled().woken == state.cancelled().woken,
{
    let order = wakers::law_in_key_order(state.wakers);
    assert forall|i: int| 0 <= i < order.len() implies state.cancelled().woken[state.woken.len() + i]
        == state.wakers[#[trigger] order[i]] by {
        assert(wakers::in_key_order(state.wakers)[i] == state.wakers[order[i]]);
    }
    order
}

/// A cancellation that has been triggered stays as it is when it is triggered
/// again, whatever is in it.
pub proof fn law_cancel_of_cancelled(state: CancellationView)
    requires
        !state.live,
    ensures
        state.cancelled() == state,
{
}

/// To record a poll touches the registration of the future that was polled and
/// nothing else: the future is registered with the waker of the poll, under the
/// one key that it has from then on, just where it is pending, and gives its key
/// back where it is ready. Nobody is woken, and nothing is cancelled.
pub proof fn law_poll_touches_one_registration(
    state: CancellationView,
    after: CancellationView,
    key: Option<usize>,
    ready: bool,
    waker: Waker,
    new_key: Option<usize>,
    other: usize,
)
    requires
        state.poll_recorded(after, key, ready, waker, new_key),
    ensures
        after.live == state.live,
        after.woken == state.woken,
        new_key is Some <==> !ready,
        !ready && key is Some ==> new_key == key,
        !ready && key is None ==> !state.wakers.contains_key(new_key->0),
        !ready ==> after.wakers.contains_key(new_key->0) && after.wakers[new_key->0] == waker,
        ready && key is Some ==> !after.wakers.contains_key(key->0),
        key != Some(other) && new_key != Some(other) ==> {
            &&& after.wakers.contains_key(other) == state.wakers.contains_key(other)
            &&& state.wakers.contains_key(other) ==> after.wakers[other] == state.wakers[other]
        },
{
}

/// A well-formed cancellation that has been triggered has nobody registered, and
/// before that the key of a future is valid just where somebody is registered
/// under it.
pub proof fn law_validity(state: CancellationView, key: usize)
    ensures
        state.wf() && !state.live ==> !state.wakers.contains_key(key),
        state.live ==> (state.valid_key(Some(key)) <==> state.wakers.contains_key(key)),
        state.valid_key(None),
{
}

} // verus!
