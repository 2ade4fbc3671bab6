//! Wakers kept under keys, and the waking of them.
use core::task::Waker;
use slab::Slab;
use vstd::prelude::*;

verus! {

/// What a slab of wakers holds: each key in use, with its waker.
pub uninterp spec fn slab_wakers(slab: Slab<Waker>) -> Map<usize, Waker>;

/// No key in use.
pub open spec fn no_wakers() -> Map<usize, Waker> {
    Map::empty()
}

/// Calls [`Slab::new`], which makes a slab without keys.
#[verifier::external_body]
pub(crate) fn slab_new() -> (slab: Slab<Waker>)
    ensures
        slab_wakers(slab) == no_wakers(),
{
    Slab::new()
}

/// Calls [`Slab::insert`], which stores the waker under a key that was not in
/// use and returns that key. Which free key it takes is left open here. As any
/// collection that grows, it panics where there is no memory left.
#[verifier::external_body]
pub(crate) fn slab_insert(slab: &mut Slab<Waker>, waker: Waker) -> (key: usize)
    ensures
        !slab_wakers(*old(slab)).contains_key(key),
        slab_wakers(*final(slab)) == slab_wakers(*old(slab)).insert(key, waker),
{
    slab.insert(waker)
}

/// Calls [`Slab::remove`], which frees a key that is in use and returns the
/// waker that was stored under it. It panics on a key that is not in use.
#[verifier::external_body]
pub(crate) fn slab_remove(slab: &mut Slab<Waker>, key: usize) -> (waker: Waker)
    requires
        slab_wakers(*old(slab)).contains_key(key),
    ensures
        waker == slab_wakers(*old(slab))[key],
        slab_wakers(*final(slab)) == slab_wakers(*old(slab)).remove(key),
{
    slab.remove(key)
}

/// Calls [`Slab::get_mut`], which lends out the waker stored under a key, or
/// nothing if the key is not in use.
#[verifier::external_body]
pub(crate) fn slab_get_mut(slab: &mut Slab<Waker>, key: usize) -> (slot: Option<&mut Waker>)
    ensures
        match slot {
            Some(slot) => {
                &&& slab_wakers(*old(slab)).contains_key(key)
                &&& *slot == slab_wakers(*old(slab))[key]
                &&& slab_wakers(*final(slab)) == slab_wakers(*old(slab)).insert(
                    key,
                    *final(slot),
                )
            },
            None => {
                &&& !slab_wakers(*old(slab)).contains_key(key)
                &&& *final(slab) == *old(slab)
            },
        },
{
    slab.get_mut(key)
}

/// Calls [`Slab::contains`], which tells whether a key is in use.
#[verifier::external_body]
pub(crate) fn slab_contains(slab: &Slab<Waker>, key: usize) -> (found: bool)
    ensures
        found == slab_wakers(*slab).contains_key(key),
{
    slab.contains(key)
}

/// The wakers stored under keys below `bound`, by ascending key.
pub open spec fn wakers_below(wakers: Map<usize, Waker>, bound: nat) -> Seq<Waker>
    decreases bound,
{
    if bound == 0 {
        Seq::empty()
    } else {
        let key = (bound - 1) as usize;
        let rest = wakers_below(wakers, (bound - 1) as nat);
        if wakers.contains_key(key) {
            rest.push(wakers[key])
        } else {
            rest
        }
    }
}

/// All the wakers stored, by ascending key.
pub open spec fn in_key_order(wakers: Map<usize, Waker>) -> Seq<Waker> {
    wakers_below(wakers, usize::MAX as nat + 1)
}

/// Calls [`Slab::drain`], which frees every key and hands out the wakers by
/// ascending key.
#[verifier::external_body]
pub(crate) fn slab_drain(slab: &mut Slab<Waker>) -> (wakers: Vec<Waker>)
    ensures
        wakers@ == in_key_order(slab_wakers(*old(slab))),
        slab_wakers(*final(slab)) == no_wakers(),
{
    slab.drain().collect()
}

/// The wake-ups that were given, in order. It exists in proofs alone.
pub struct WakeLog {
    woken: Ghost<Seq<Waker>>,
}

impl View for WakeLog {
    type V = Seq<Waker>;

    closed spec fn view(&self) -> Seq<Waker> {
        self.woken@
    }
}

impl WakeLog {
    /// The log of no wake-up.
    pub(crate) fn new() -> (log: Self)
        ensures
            log@ == Seq::<Waker>::empty(),
    {
        WakeLog { woken: Ghost(Seq::empty()) }
    }

    /// Calls [`Waker::wake`] on the waker, once, and logs it.
    #[verifier::external_body]
    pub(crate) fn wake(&mut self, waker: Waker)
        ensures
            final(self)@ == old(self)@.push(waker),
    {
        waker.wake();
    }

    /// Wakes all the wakers, in order, each of them by a call of
    /// [`WakeLog::wake`].
    pub(crate) fn wake_all(&mut self, wakers: Vec<Waker>)
        ensures
            final(self)@ == old(self)@ + wakers@,
            forall|waker: Waker| #[trigger]
                wakers@.contains(waker) ==> exists|log: &mut WakeLog| #[trigger]
                    call_ensures(WakeLog::wake, (log, waker), ()),
    {
        let wake = WakeLog::wake;
        let ghost before = self@;
        for waker in it: wakers
            invariant
                wake == WakeLog::wake,
                it.seq() == wakers@,
                self@ == before + it.seq().take(it.index()),
                forall|given: Waker| #[trigger]
                    it.seq().take(it.index()).contains(given) ==> exists|log: &mut WakeLog|
                        #[trigger]
                        call_ensures(WakeLog::wake, (log, given), ()),
        {
            let ghost n = it.index();
            let ghost now = waker;
            wake(self, waker);
            assert forall|given: Waker| #[trigger]
                it.seq().take(n + 1).contains(given) implies exists|log: &mut WakeLog| #[trigger]
                call_ensures(WakeLog::wake, (log, given), ()) by {
                assert(given == now || it.seq().take(n).contains(given)) by {
                    let more = it.seq().take(n + 1);
                    let i = choose|i: int| 0 <= i < more.len() && more[i] == given;
                    assert(i < n ==> it.seq().take(n)[i] == given);
                }
            }
        }
        assert(wakers@.take(wakers@.len() as int) =~= wakers@);
    }
}

/// A stored waker is among the wakers in key order.
pub proof fn lemma_in_key_order_contains(wakers: Map<usize, Waker>, key: usize)
    requires
        wakers.contains_key(key),
    ensures
        in_key_order(wakers).contains(wakers[key]),
{
    lemma_wakers_below_contains(wakers, key, usize::MAX as nat + 1);
}

proof fn lemma_wakers_below_contains(wakers: Map<usize, Waker>, key: usize, bound: nat)
    requires
        wakers.contains_key(key),
        key < bound <= usize::MAX as nat + 1,
    ensures
        wakers_below(wakers, bound).contains(wakers[key]),
    decreases bound,
{
    let last = (bound - 1) as usize;
    let rest = wakers_below(wakers, (bound - 1) as nat);
    if key == last {
        assert(wakers_below(wakers, bound).last() == wakers[key]);
    } else {
        lemma_wakers_below_contains(wakers, key, (bound - 1) as nat);
        let i = choose|i: int| 0 <= i < rest.len() && rest[i] == wakers[key];
        assert(wakers_below(wakers, bound)[i] == wakers[key]);
    }
}

/// There are as many wakers in key order as there are keys in use.
pub proof fn lemma_in_key_order_len(wakers: Map<usize, Waker>)
    ensures
        wakers.dom().finite(),
        in_key_order(wakers).len() == wakers.dom().len(),
{
    let bound = usize::MAX as nat + 1;
    lemma_wakers_below_len(wakers, bound);
    assert(keys_below(wakers, bound) =~= wakers.dom());
}

spec fn keys_below(wakers: Map<usize, Waker>, bound: nat) -> Set<usize> {
    Set::new(|key: usize| wakers.contains_key(key) && key < bound)
}

proof fn lemma_wakers_below_len(wakers: Map<usize, Waker>, bound: nat)
    requires
        bound <= usize::MAX as nat + 1,
    ensures
        keys_below(wakers, bound).finite(),
        wakers_below(wakers, bound).len() == keys_below(wakers, bound).len(),
    decreases bound,
{
    if bound == 0 {
        assert(keys_below(wakers, bound) =~= Set::empty());
    } else {
        let key = (bound - 1) as usize;
        let rest = keys_below(wakers, (bound - 1) as nat);
        lemma_wakers_below_len(wakers, (bound - 1) as nat);
        if wakers.contains_key(key) {
            assert(keys_below(wakers, bound) =~= rest.insert(key));
        } else {
            assert(keys_below(wakers, bound) =~= rest);
        }
    }
}

/// Where no key is in use, none is.
pub proof fn law_no_wakers_has_no_key(key: usize)
    ensures
        !no_wakers().contains_key(key),
{
}

/// The wakers in key order are the waker of each key in use, once, from the
/// lowest key to the highest.
pub proof fn law_in_key_order(wakers: Map<usize, Waker>) -> (order: Seq<usize>)
    ensures
        forall|key: usize| #[trigger] order.contains(key) <==> wakers.contains_key(key),
        forall|i: int, j: int| 0 <= i < j < order.len() ==> #[trigger] order[i] < #[trigger] order[j],
        in_key_order(wakers).len() == order.len(),
        forall|i: int|
            0 <= i < order.len() ==> #[trigger] in_key_order(wakers)[i] == wakers[order[i]],
{
    lemma_wakers_below_order(wakers, usize::MAX as nat + 1)
}

proof fn lemma_wakers_below_order(wakers: Map<usize, Waker>, bound: nat) -> (order: Seq<usize>)
    requires
        bound <= usize::MAX as nat + 1,
    ensures
        forall|key: usize| #[trigger]
            order.contains(key) <==> wakers.contains_key(key) && key < bound,
        forall|i: int, j: int| 0 <= i < j < order.len() ==> #[trigger] order[i] < #[trigger] order[j],
        wakers_below(wakers, bound).len() == order.len(),
        forall|i: int|
            0 <= i < order.len() ==> #[trigger] wakers_below(wakers, bound)[i]
                == wakers[order[i]],
    decreases bound,
{
    if bound == 0 {
        Seq::empty()
    } else {
        let last = (bound - 1) as usize;
        let rest = lemma_wakers_below_order(wakers, (bound - 1) as nat);
        if wakers.contains_key(last) {
            let order = rest.push(last);
            assert forall|key: usize| #[trigger]
                order.contains(key) <==> wakers.contains_key(key) && key < bound by {
                if wakers.contains_key(key) && key < bound {
                    if key == last {
                        assert(order[rest.len() as int] == key);
                    } else {
                        assert(rest.contains(key));
                        let i = choose|i: int| 0 <= i < rest.len() && rest[i] == key;
                        assert(order[i] == key);
                    }
                }
                if order.contains(key) {
                    let i = choose|i: int| 0 <= i < order.len() && order[i] == key;
                    assert(i < rest.len() ==> rest.contains(rest[i]));
                }
            }
            assert forall|i: int, j: int| 0 <= i < j < order.len() implies #[trigger] order[i]
                < #[trigger] order[j] by {
                assert(rest.contains(rest[i]));
            }
            order
        } else {
            rest
        }
    }
}

} // verus!
