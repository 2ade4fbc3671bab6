//! A scope on any executor, whose outputs come out as the futures finish.
use core::future::Future;
use core::task::{Context, Poll};
use futures::future::{Abortable, Aborted};
use futures::stream::{Collect, FuturesUnordered};
use vstd::future::FutureAdditionalSpecFns;
use vstd::prelude::*;

use crate::abort::{make_abortable, map_output, output_or_default, AbortLog, Aborter};
use crate::spawner::{Blocker, FuncSpawner, Spawner};
use crate::unordered;
use crate::unordered::{UnorderedFutures, UnorderedView};

verus! {

/// How far a scope has come.
pub struct Progress {
    /// Whether the stream has ended.
    pub done: bool,
    /// Total number of futures spawned.
    pub len: usize,
    /// Number of futures remaining.
    pub remaining: usize,
}

impl Progress {
    /// Nothing has been spawned.
    pub fn new() -> (progress: Self)
        ensures
            !progress.done,
            progress.len == 0,
            progress.remaining == 0,
    {
        Progress { done: false, len: 0, remaining: 0 }
    }

    /// Count a future that has been spawned.
    pub fn record_spawn(&mut self)
        requires
            old(self).remaining <= old(self).len < usize::MAX,
        ensures
            final(self).done == old(self).done,
            final(self).len == old(self).len + 1,
            final(self).remaining == old(self).remaining + 1,
    {
        self.len += 1;
        self.remaining += 1;
    }

    /// Count what polling the futures has brought: the end of the stream, an
    /// output, or nothing yet. Hand it on.
    pub fn record_poll<O>(&mut self, polled: Poll<Option<O>>) -> (same: Poll<Option<O>>)
        requires
            match polled {
                Poll::Ready(Some(_)) => old(self).remaining > 0,
                _ => true,
            },
        ensures
            same == polled,
            final(self).len == old(self).len,
            match polled {
                Poll::Ready(None) => {
                    &&& final(self).done
                    &&& final(self).remaining == old(self).remaining
                },
                Poll::Ready(Some(_)) => {
                    &&& final(self).done == old(self).done
                    &&& final(self).remaining == old(self).remaining - 1
                },
                Poll::Pending => *final(self) == *old(self),
            },
    {
        match &polled {
            Poll::Ready(None) => {
                self.done = true;
            },
            Poll::Ready(Some(_)) => {
                self.remaining -= 1;
            },
            Poll::Pending => {},
        }
        polled
    }

    /// Count that all outputs have come out, and then the end of the stream.
    pub fn record_collect(&mut self)
        ensures
            final(self).done,
            final(self).len == old(self).len,
            final(self).remaining == 0,
    {
        self.remaining = 0;
        self.done = true;
    }

    /// How many outputs are still to come, as bounds from below and above.
    pub fn size_hint(&self) -> (hint: (usize, Option<usize>))
        ensures
            hint == (self.remaining, Some(self.remaining)),
    {
        (self.remaining, Some(self.remaining))
    }
}

/// What a [`Scope`] stands for, with handles of type `H`.
#[verifier::ext_equal]
#[verifier::reject_recursive_types(H)]
pub struct ScopeView<H> {
    /// Whether the stream has ended.
    pub done: bool,
    /// Total number of futures spawned.
    pub len: nat,
    /// Number of futures remaining.
    pub remaining: nat,
    /// The handles of the futures spawned.
    pub futs: UnorderedView<H>,
    /// The handles that cancel futures, of those not cancelled yet.
    pub abort_handles: Seq<Aborter>,
    /// The handles that were told to abort.
    pub aborted: Seq<Aborter>,
}

impl<H> ScopeView<H> {
    /// The counts are those of the futures.
    pub open spec fn wf(self) -> bool {
        &&& self.futs.wf()
        &&& self.len == self.futs.pushed.len()
        &&& self.remaining == self.futs.pending.len()
    }

    /// The scope with one more future.
    pub open spec fn spawned(self, handle: H) -> Self {
        ScopeView {
            len: self.len + 1,
            remaining: self.remaining + 1,
            futs: self.futs.push(handle),
            ..self
        }
    }

    /// The scope after cancellation: every handle kept for it has been told to
    /// abort, once, and none is kept any more.
    pub open spec fn cancelled(self) -> Self {
        ScopeView {
            abort_handles: Seq::empty(),
            aborted: self.aborted + self.abort_handles,
            ..self
        }
    }

    /// `after` is this scope when some more outputs have come out.
    pub open spec fn advanced(self, after: Self) -> bool {
        &&& after.len == self.len
        &&& after.abort_handles == self.abort_handles
        &&& after.aborted == self.aborted
        &&& after.futs.pushed == self.futs.pushed
        &&& self.futs.delivered.is_prefix_of(after.futs.delivered)
        &&& after.remaining + after.futs.delivered.len() == self.remaining
            + self.futs.delivered.len()
    }

    /// Nothing is left to wait for: the stream has ended, and no future was
    /// spawned since.
    pub open spec fn complete(self) -> bool {
        self.done && self.remaining == 0
    }

    /// `after` is this scope when it has been driven to completion: where
    /// something was left to wait for, it has been cancelled and all outputs
    /// have come out. No handle is kept for cancellation.
    pub open spec fn finished(self, after: Self) -> bool {
        if self.complete() {
            after == (ScopeView { abort_handles: Seq::empty(), ..self })
        } else {
            &&& self.cancelled().advanced(after)
            &&& after.done
            &&& after.remaining == 0
        }
    }
}

/// A scope to allow controlled spawning of futures. Futures can be spawned
/// using `spawn` or `spawn_cancellable` methods.
#[verifier::reject_recursive_types(T)]
#[verifier::reject_recursive_types(Sp)]
pub struct Scope<T, Sp: Spawner<T> + Blocker> {
    progress: Progress,
    futs: UnorderedFutures<Sp::SpawnHandle>,
    abort_handles: Vec<Aborter>,
    aborts: AbortLog,
    spawner: Sp,
}

impl<T, Sp: Spawner<T> + Blocker> View for Scope<T, Sp> {
    type V = ScopeView<Sp::SpawnHandle>;

    closed spec fn view(&self) -> ScopeView<Sp::SpawnHandle> {
        ScopeView {
            done: self.progress.done,
            len: self.progress.len as nat,
            remaining: self.progress.remaining as nat,
            futs: self.futs@,
            abort_handles: self.abort_handles@,
            aborted: self.aborts@,
        }
    }
}

impl<T, Sp: Spawner<T> + Blocker> Scope<T, Sp> {
    /// The futures, as the set that drives them.
    pub closed spec fn set(&self) -> UnorderedFutures<Sp::SpawnHandle> {
        self.futs
    }

    /// The executor.
    pub closed spec fn executor(&self) -> Sp {
        self.spawner
    }
}

impl<T: Send + 'static, Sp: Spawner<T> + Blocker> Scope<T, Sp> {
    /// Create a Scope object.
    pub fn create(spawner: Sp) -> (scope: Self)
        ensures
            !scope@.done,
            scope@.len == 0,
            scope@.remaining == 0,
            scope@.futs == UnorderedView::<Sp::SpawnHandle>::empty(),
            scope@.abort_handles == Seq::<Aborter>::empty(),
            scope@.aborted == Seq::<Aborter>::empty(),
            scope.executor() == spawner,
            scope@.wf(),
    {
        proof {
            unordered::lemma_empty_wf::<Sp::SpawnHandle>();
        }
        Scope {
            progress: Progress::new(),
            futs: UnorderedFutures::new(),
            abort_handles: Vec::new(),
            aborts: AbortLog::new(),
            spawner,
        }
    }

    /// Spawn a future with the executor's `task::spawn` functionality.
    pub fn spawn<F: Future<Output = T> + Send + 'static>(&mut self, f: F)
        requires
            old(self)@.wf(),
            old(self)@.len < usize::MAX,
        ensures
            final(self)@ == old(self)@.spawned(final(self)@.futs.pushed.last()),
            final(self)@.done == old(self)@.done,
            final(self)@.len == old(self)@.len + 1,
            final(self)@.remaining == old(self)@.remaining + 1,
            final(self)@.futs.pushed.len() == old(self)@.futs.pushed.len() + 1,
            final(self)@.futs.pushed.drop_last() == old(self)@.futs.pushed,
            final(self)@.futs.delivered == old(self)@.futs.delivered,
            final(self)@.futs.pending == old(self)@.futs.pending.insert(
                final(self)@.futs.pushed.last(),
            ),
            final(self)@.aborted == old(self)@.aborted,
            final(self)@.abort_handles == old(self)@.abort_handles,
            call_ensures(
                <Sp as Spawner<T>>::spawn::<F>,
                (&old(self).executor(), f),
                final(self)@.futs.pushed.last(),
            ),
            ({
                let handle = final(self)@.futs.pushed.last();
                handle.awaited() && Sp::outcome(handle@) is Some ==> {
                    &&& f.awaited()
                    &&& Sp::outcome(handle@) == Some(f@)
                }
            }),
            final(self).executor() == old(self).executor(),
            final(self)@.wf(),
    {
        let spawn = <Sp as Spawner<T>>::spawn::<F>;
        let handle = spawn(&self.spawner, f);
        self.add(handle);
    }

    fn add(&mut self, handle: Sp::SpawnHandle)
        requires
            old(self)@.wf(),
            old(self)@.len < usize::MAX,
        ensures
            final(self)@ == old(self)@.spawned(handle),
            final(self).executor() == old(self).executor(),
            final(self)@.wf(),
    {
        proof {
            law_counts(self@);
            unordered::lemma_push_wf(self@.futs, handle);
        }
        self.futs.push(handle);
        self.progress.record_spawn();
    }
}

impl<T: Send + 'static, Sp: Spawner<T> + Blocker> Scope<T, Sp> {
    /// Spawn a cancellable future with the executor's `task::spawn`
    /// functionality.
    ///
    /// The future is cancelled if the `Scope` is finished pre-maturely. It can
    /// also be cancelled by explicitly calling the `cancel` method. A future
    /// that is cancelled before it is ready resolves to what `default` returns;
    /// which of the two comes first is up to the executor. One that is never
    /// cancelled resolves to its own output.
    pub fn spawn_cancellable<
        F: Future<Output = T> + Send + 'static,
        Fu: FnOnce() -> T + Send + 'static,
    >(&mut self, f: F, default: Fu)
        requires
            old(self)@.wf(),
            old(self)@.len < usize::MAX,
            default.requires(()),
        ensures
            final(self)@.abort_handles.len() == old(self)@.abort_handles.len() + 1,
            final(self)@.abort_handles.drop_last() == old(self)@.abort_handles,
            final(self)@.done == old(self)@.done,
            final(self)@.len == old(self)@.len + 1,
            final(self)@.remaining == old(self)@.remaining + 1,
            final(self)@.futs.pushed.len() == old(self)@.futs.pushed.len() + 1,
            final(self)@.futs.pushed.drop_last() == old(self)@.futs.pushed,
            final(self)@.futs.delivered == old(self)@.futs.delivered,
            final(self)@.futs.pending == old(self)@.futs.pending.insert(
                final(self)@.futs.pushed.last(),
            ),
            final(self)@.aborted == old(self)@.aborted,
            final(self)@ == (ScopeView {
                abort_handles: final(self)@.abort_handles,
                ..old(self)@.spawned(final(self)@.futs.pushed.last())
            }),
            ({
                let handle = final(self)@.futs.pushed.last();
                let aborter = final(self)@.abort_handles.last();
                exists|fut: Abortable<F>|
                    {
                        &&& #[trigger] call_ensures(make_abortable::<F>, (f,), (fut, aborter))
                        &&& handle.awaited() && Sp::outcome(handle@) is Some ==> {
                            &&& fut.awaited()
                            &&& match fut@ {
                                Ok(output) => Sp::outcome(handle@) == Some(output),
                                Err(_) => default.ensures((), Sp::outcome(handle@)->0),
                            }
                            &&& call_ensures(
                                output_or_default::<T, Fu>,
                                (fut@, default),
                                Sp::outcome(handle@)->0,
                            )
                        }
                    }
            }),
            ({
                let handle = final(self)@.futs.pushed.last();
                let aborter = final(self)@.abort_handles.last();
                handle.awaited() && Sp::outcome(handle@) is Some ==> {
                    ||| f.awaited() && Sp::outcome(handle@) == Some(f@)
                    ||| aborter.aborts() && default.ensures((), Sp::outcome(handle@)->0)
                }
            }),
            final(self).executor() == old(self).executor(),
            final(self)@.wf(),
    {
        let make = make_abortable::<F>;
        let (fut, aborter) = make(f);
        let ghost made = (fut, aborter);
        self.abort_handles.push(aborter);
        let fut = map_output(
            fut,
            |result: Result<T, Aborted>| -> (output: T)
                ensures
                    match result {
                        Ok(value) => output == value,
                        Err(_) => default.ensures((), output),
                    } && call_ensures(output_or_default::<T, Fu>, (result, default), output)
            {
                let resolve = output_or_default::<T, Fu>;
                resolve(result, default)
            },
        );
        self.spawn(fut);
        assert(call_ensures(make_abortable::<F>, (f,), made));
        assert(made == (made.0, self@.abort_handles.last()));
    }

    /// Spawn a function as a blocking future with executor's `spawn_blocking`
    /// functionality.
    ///
    /// It cannot be cancelled: `cancel` stops the futures that were spawned with
    /// `spawn_cancellable` only, which come with a default to give instead. When
    /// the `Scope` is finished, the function is waited for.
    pub fn spawn_blocking<F: FnOnce() -> T + Send + 'static>(&mut self, f: F) where
        Sp: FuncSpawner<
            T,
            FutureOutput = <Sp as Spawner<T>>::FutureOutput,
            SpawnHandle = <Sp as Spawner<T>>::SpawnHandle,
        >,

        requires
            old(self)@.wf(),
            old(self)@.len < usize::MAX,
            f.requires(()),
        ensures
            final(self)@ == old(self)@.spawned(final(self)@.futs.pushed.last()),
            final(self)@.done == old(self)@.done,
            final(self)@.len == old(self)@.len + 1,
            final(self)@.remaining == old(self)@.remaining + 1,
            final(self)@.futs.pushed.len() == old(self)@.futs.pushed.len() + 1,
            final(self)@.futs.pushed.drop_last() == old(self)@.futs.pushed,
            final(self)@.futs.delivered == old(self)@.futs.delivered,
            final(self)@.futs.pending == old(self)@.futs.pending.insert(
                final(self)@.futs.pushed.last(),
            ),
            final(self)@.aborted == old(self)@.aborted,
            final(self)@.abort_handles == old(self)@.abort_handles,
            call_ensures(
                <Sp as FuncSpawner<T>>::spawn_func::<F>,
                (&old(self).executor(), f),
                final(self)@.futs.pushed.last(),
            ),
            ({
                let handle = final(self)@.futs.pushed.last();
                let outcome = <Sp as FuncSpawner<T>>::func_outcome(handle@);
                handle.awaited() && outcome is Some ==> f.ensures((), outcome->0)
            }),
            final(self).executor() == old(self).executor(),
            final(self)@.wf(),
    {
        let spawn_func = <Sp as FuncSpawner<T>>::spawn_func::<F>;
        let handle = spawn_func(&self.spawner, f);
        self.add(handle);
    }
}

impl<T, Sp: Spawner<T> + Blocker> Scope<T, Sp> {
    /// Cancel all futures spawned with cancellation.
    pub fn cancel(&mut self)
        ensures
            final(self)@ == old(self)@.cancelled(),
            final(self)@.done == old(self)@.done,
            final(self)@.len == old(self)@.len,
            final(self)@.remaining == old(self)@.remaining,
            final(self)@.futs == old(self)@.futs,
            final(self)@.abort_handles.len() == 0,
            final(self)@.aborted == old(self)@.aborted + old(self)@.abort_handles,
            forall|i: int|
                0 <= i < old(self)@.abort_handles.len() ==> (
                #[trigger] old(self)@.abort_handles[i]).aborts(),
            final(self).executor() == old(self).executor(),
    {
        let ghost before = self@;
        let mut abort_handles: Vec<Aborter> = Vec::new();
        core::mem::swap(&mut abort_handles, &mut self.abort_handles);
        for aborter in it: abort_handles
            invariant
                it.seq() == before.abort_handles,
                self.executor() == old(self).executor(),
                self@ == (ScopeView {
                    abort_handles: Seq::empty(),
                    aborted: before.aborted + before.abort_handles.take(it.index()),
                    ..before
                }),
                forall|j: int|
                    0 <= j < it.index() ==> (#[trigger] before.abort_handles[j]).aborts(),
        {
            self.aborts.abort(aborter);
        }
    }

    /// Drop the handles that cancel futures, without telling them to.
    fn retire_handles(&mut self)
        ensures
            final(self)@ == (ScopeView { abort_handles: Seq::empty(), ..old(self)@ }),
            forall|i: int|
                0 <= i < old(self)@.abort_handles.len() ==> !(
                #[trigger] old(self)@.abort_handles[i]).aborts(),
            final(self).executor() == old(self).executor(),
    {
        let ghost before = self@;
        let mut abort_handles: Vec<Aborter> = Vec::new();
        core::mem::swap(&mut abort_handles, &mut self.abort_handles);
        for aborter in it: abort_handles
            invariant
                it.seq() == before.abort_handles,
                self.executor() == old(self).executor(),
                self@ == (ScopeView { abort_handles: Seq::empty(), ..before }),
                forall|j: int|
                    0 <= j < it.index() ==> !(#[trigger] before.abort_handles[j]).aborts(),
        {
            self.aborts.retire(aborter);
        }
    }

    /// Total number of futures spawned in this scope.
    pub fn len(&self) -> (len: usize)
        ensures
            len == self@.len,
    {
        self.progress.len
    }

    /// Number of futures remaining in this scope.
    pub fn remaining(&self) -> (remaining: usize)
        ensures
            remaining == self@.remaining,
    {
        self.progress.remaining
    }

    /// Whether the stream of outputs has ended.
    pub fn is_done(&self) -> (done: bool)
        ensures
            done == self@.done,
    {
        self.progress.done
    }

    /// How many outputs are still to come, as bounds from below and above.
    pub fn size_hint(&self) -> (hint: (usize, Option<usize>))
        ensures
            hint.0 == self@.remaining,
            hint.1 == Some(hint.0),
    {
        self.progress.size_hint()
    }

    /// Poll for the output of the next future that finishes: poll the set of the
    /// futures, once, and hand on what that brings.
    pub fn poll_next(&mut self, cx: &mut Context<'_>) -> (polled: Poll<Option<Sp::FutureOutput>>)
        requires
            old(self)@.wf(),
        ensures
            match polled {
                Poll::Ready(Some(output)) => {
                    &&& old(self)@.futs.delivers_one(final(self)@.futs)
                    &&& output == final(self)@.futs.delivered.last()@
                    &&& final(self)@.futs.delivered.last().awaited()
                    &&& final(self)@ == (ScopeView {
                        remaining: (old(self)@.remaining - 1) as nat,
                        futs: final(self)@.futs,
                        ..old(self)@
                    })
                },
                Poll::Ready(None) => {
                    &&& old(self)@.remaining == 0
                    &&& final(self)@ == (ScopeView { done: true, ..old(self)@ })
                },
                Poll::Pending => final(self)@ == old(self)@,
            },
            exists|set: &mut UnorderedFutures<Sp::SpawnHandle>, context: &mut Context<'_>|
                {
                    &&& *set == old(self).set()
                    &&& *final(set) == final(self).set()
                    &&& *context == *old(cx)
                    &&& *final(context) == *final(cx)
                    &&& #[trigger] call_ensures(
                        UnorderedFutures::<Sp::SpawnHandle>::poll_next,
                        (set, context),
                        polled,
                    )
                },
            old(self)@.len == 0 ==> polled == Poll::<Option<Sp::FutureOutput>>::Ready(None),
            final(self)@.len == old(self)@.len,
            final(self)@.futs.pushed == old(self)@.futs.pushed,
            old(self)@.futs.delivered.is_prefix_of(final(self)@.futs.delivered),
            final(self)@.futs.delivered.len() - old(self)@.futs.delivered.len()
                == old(self)@.remaining - final(self)@.remaining,
            final(self)@.abort_handles == old(self)@.abort_handles,
            final(self)@.aborted == old(self)@.aborted,
            final(self).executor() == old(self).executor(),
            final(self)@.wf(),
    {
        let poll_next = UnorderedFutures::<Sp::SpawnHandle>::poll_next;
        let polled = poll_next(&mut self.futs, cx);
        proof {
            if self@.futs != old(self)@.futs {
                unordered::lemma_delivers_one_wf(old(self)@.futs, self@.futs);
            }
        }
        self.progress.record_poll(polled)
    }

    /// Wait for the output of the next future that finishes, blocking the
    /// current thread.
    pub fn block_next(&mut self) -> (item: Option<Sp::FutureOutput>)
        requires
            old(self)@.wf(),
        ensures
            match item {
                Some(output) => {
                    &&& old(self)@.futs.delivers_one(final(self)@.futs)
                    &&& output == final(self)@.futs.delivered.last()@
                    &&& final(self)@.futs.delivered.last().awaited()
                    &&& final(self)@ == (ScopeView {
                        remaining: (old(self)@.remaining - 1) as nat,
                        futs: final(self)@.futs,
                        ..old(self)@
                    })
                },
                None => {
                    &&& old(self)@.remaining == 0
                    &&& final(self)@ == (ScopeView { done: true, ..old(self)@ })
                },
            },
            final(self)@.len == old(self)@.len,
            final(self)@.futs.pushed == old(self)@.futs.pushed,
            old(self)@.futs.delivered.is_prefix_of(final(self)@.futs.delivered),
            final(self)@.futs.delivered.len() - old(self)@.futs.delivered.len()
                == old(self)@.remaining - final(self)@.remaining,
            final(self)@.abort_handles == old(self)@.abort_handles,
            final(self)@.aborted == old(self)@.aborted,
            final(self).executor() == old(self).executor(),
            final(self)@.wf(),
    {
        let item = self.spawner.block_on(self.futs.next());
        proof {
            if self@.futs != old(self)@.futs {
                unordered::lemma_delivers_one_wf(old(self)@.futs, self@.futs);
            }
        }
        match self.progress.record_poll(Poll::Ready(item)) {
            Poll::Ready(item) => item,
            Poll::Pending => None,
        }
    }

    /// One poll of a `collect` on the stream: take the outputs that are there,
    /// until the stream has ended or is pending. It is ready when the stream has
    /// ended.
    pub fn poll_collect(
        &mut self,
        proc_outputs: &mut Vec<Sp::FutureOutput>,
        cx: &mut Context<'_>,
    ) -> (polled: Poll<()>)
        requires
            old(self)@.wf(),
        ensures
            collects(old(self)@, final(self)@, old(proc_outputs)@, final(proc_outputs)@),
            old(proc_outputs)@.is_prefix_of(final(proc_outputs)@),
            final(proc_outputs)@.len() - old(proc_outputs)@.len() == old(self)@.remaining
                - final(self)@.remaining,
            final(self)@.len == old(self)@.len,
            final(self)@.futs.pushed == old(self)@.futs.pushed,
            old(self)@.futs.delivered.is_prefix_of(final(self)@.futs.delivered),
            final(self)@.futs.delivered.len() - old(self)@.futs.delivered.len()
                == old(self)@.remaining - final(self)@.remaining,
            final(self)@.abort_handles == old(self)@.abort_handles,
            final(self)@.aborted == old(self)@.aborted,
            forall|i: int|
                old(proc_outputs)@.len() <= i < final(proc_outputs)@.len()
                    ==> #[trigger] final(proc_outputs)@[i] == final(self)@.futs.delivered[i
                    - old(proc_outputs)@.len() + old(self)@.futs.delivered.len()]@,
            forall|i: int|
                old(self)@.futs.delivered.len() <= i < final(self)@.futs.delivered.len() ==> (
                #[trigger] final(self)@.futs.delivered[i]).awaited(),
            match polled {
                Poll::Ready(()) => final(self)@.done && final(self)@.remaining == 0,
                Poll::Pending => final(self)@.done == old(self)@.done,
            },
            exists|
                scope: &mut Scope<T, Sp>,
                context: &mut Context<'_>,
                last: Poll<Option<Sp::FutureOutput>>,
            |
                {
                    &&& (*scope)@.futs == final(self)@.futs
                    &&& *final(scope) == *final(self)
                    &&& *final(context) == *final(cx)
                    &&& #[trigger] call_ensures(Scope::<T, Sp>::poll_next, (scope, context), last)
                    &&& last == match polled {
                        Poll::Ready(()) => Poll::Ready(None::<Sp::FutureOutput>),
                        Poll::Pending => Poll::Pending,
                    }
                },
            old(self)@.len == 0 ==> polled == Poll::Ready(()),
            final(self).executor() == old(self).executor(),
            final(self)@.wf(),
    {
        let poll_next = Scope::<T, Sp>::poll_next;
        let ghost before = self@;
        let ghost taken = proc_outputs@;
        loop
            invariant
                before == old(self)@,
                taken == old(proc_outputs)@,
                poll_next == Scope::<T, Sp>::poll_next,
                self.executor() == old(self).executor(),
                self@.wf(),
                before.advanced(self@),
                self@.done == before.done,
                taken.is_prefix_of(proc_outputs@),
                proc_outputs@.len() - taken.len() == before.remaining - self@.remaining,
                forall|i: int|
                    taken.len() <= i < proc_outputs@.len() ==> #[trigger] proc_outputs@[i]
                        == self@.futs.delivered[i - taken.len() + before.futs.delivered.len()]@,
                forall|i: int|
                    before.futs.delivered.len() <= i < self@.futs.delivered.len() ==> (
                    #[trigger] self@.futs.delivered[i]).awaited(),
            decreases self@.remaining,
        {
            let ghost now = self@;
            match poll_next(self, cx) {
                Poll::Ready(Some(item)) => {
                    proc_outputs.push(item);
                    proof {
                        assert(self@.futs.delivered =~= now.futs.delivered.push(
                            self@.futs.delivered.last(),
                        ));
                    }
                },
                Poll::Ready(None) => {
                    return Poll::Ready(());
                },
                Poll::Pending => {
                    return Poll::Pending;
                },
            }
        }
    }

    /// Collect the outputs of all futures, blocking the current thread until
    /// the last one has finished.
    pub fn collect(&mut self) -> (proc_outputs: Vec<Sp::FutureOutput>)
        requires
            old(self)@.wf(),
        ensures
            old(self)@.advanced(final(self)@),
            final(self)@.len == old(self)@.len,
            final(self)@.futs.pushed == old(self)@.futs.pushed,
            old(self)@.futs.delivered.is_prefix_of(final(self)@.futs.delivered),
            final(self)@.futs.delivered.len() - old(self)@.futs.delivered.len()
                == old(self)@.remaining - final(self)@.remaining,
            final(self)@.abort_handles == old(self)@.abort_handles,
            final(self)@.aborted == old(self)@.aborted,
            final(self)@.done,
            final(self)@.remaining == 0,
            proc_outputs@.len() == old(self)@.remaining,
            forall|i: int|
                0 <= i < proc_outputs@.len() ==> #[trigger] proc_outputs@[i]
                    == final(self)@.futs.delivered[old(self)@.futs.delivered.len() + i]@,
            forall|i: int|
                old(self)@.futs.delivered.len() <= i < final(self)@.futs.delivered.len() ==> (
                #[trigger] final(self)@.futs.delivered[i]).awaited(),
            final(self)@.futs.delivered.skip(
                old(self)@.futs.delivered.len() as int,
            ).to_multiset() == old(self)@.futs.pending,
            exists|
                all: Collect<
                    &mut FuturesUnordered<Sp::SpawnHandle>,
                    Vec<Sp::FutureOutput>,
                >,
            |
                #[trigger] call_ensures(
                    <Sp as Blocker>::block_on,
                    (&old(self).executor(), all),
                    proc_outputs,
                ),
            final(self).executor() == old(self).executor(),
            final(self)@.wf(),
    {
        let block_on = <Sp as Blocker>::block_on;
        let all = self.futs.collect_all();
        let ghost collecting = all;
        let proc_outputs = block_on(&self.spawner, all);
        assert(call_ensures(
            <Sp as Blocker>::block_on,
            (&old(self).executor(), collecting),
            proc_outputs,
        ));
        proof {
            unordered::lemma_delivers_all_wf(old(self)@.futs, self@.futs);
        }
        self.progress.record_collect();
        proc_outputs
    }

    /// Drive the scope to completion, as must be done before it goes away.
    ///
    /// A scope of which something is left to wait for is cancelled, and then the
    /// current thread is blocked until all futures have finished. Their outputs
    /// are dropped. The futures of any other scope are left alone: they have
    /// finished, and those of them that were never cancelled never will be.
    pub fn finish(&mut self)
        requires
            old(self)@.wf(),
        ensures
            old(self)@.finished(final(self)@),
            final(self)@.done,
            final(self)@.remaining == 0,
            final(self)@.len == old(self)@.len,
            final(self)@.futs.pushed == old(self)@.futs.pushed,
            old(self)@.futs.delivered.is_prefix_of(final(self)@.futs.delivered),
            final(self)@.futs.delivered.len() - old(self)@.futs.delivered.len()
                == old(self)@.remaining - final(self)@.remaining,
            final(self)@.abort_handles.len() == 0,
            final(self)@.aborted == (if old(self)@.done && old(self)@.remaining == 0 {
                old(self)@.aborted
            } else {
                old(self)@.aborted + old(self)@.abort_handles
            }),
            !old(self)@.complete() ==> exists|
                scope: &mut Scope<T, Sp>,
                proc_outputs: Vec<Sp::FutureOutput>,
            |
                {
                    &&& (*scope)@ == old(self)@.cancelled()
                    &&& *final(scope) == *final(self)
                    &&& #[trigger] call_ensures(
                        Scope::<T, Sp>::collect,
                        (scope,),
                        proc_outputs,
                    )
                },
            forall|i: int|
                0 <= i < old(self)@.abort_handles.len() ==> (
                #[trigger] old(self)@.abort_handles[i]).aborts() == !old(self)@.complete(),
            forall|i: int|
                old(self)@.futs.delivered.len() <= i < final(self)@.futs.delivered.len() ==> (
                #[trigger] final(self)@.futs.delivered[i]).awaited(),
            final(self).executor() == old(self).executor(),
            final(self)@.wf(),
    {
        if !self.progress.done || self.progress.remaining > 0 {
            self.cancel();
            let collect = Scope::<T, Sp>::collect;
            let _ = collect(self);
        } else {
            self.retire_handles();
        }
    }
}

/// What is remaining and what has come out is all that was spawned.
pub proof fn law_counts<H>(scope: ScopeView<H>)
    requires
        scope.wf(),
    ensures
        scope.remaining + scope.futs.delivered.len() == scope.len,
{
    broadcast use vstd::seq_lib::group_to_multiset_ensures;

    assert(scope.futs.pushed.to_multiset().len() == scope.futs.pushed.len());
    assert(scope.futs.delivered.to_multiset().len() == scope.futs.delivered.len());
}

/// Where nothing is remaining, each future that was spawned has delivered its
/// output once, and no other output has come out.
pub proof fn law_none_remaining_all_delivered<H>(scope: ScopeView<H>)
    requires
        scope.wf(),
        scope.remaining == 0,
    ensures
        scope.futs.delivered.len() == scope.len,
        scope.futs.delivered.to_multiset() == scope.futs.pushed.to_multiset(),
{
    law_counts(scope);
    assert(scope.futs.pending =~= vstd::multiset::Multiset::empty()) by {
        assert forall|h: H| scope.futs.pending.count(h) == 0 by {
            if scope.futs.pending.count(h) > 0 {
                assert(scope.futs.pending.remove(h).len() == scope.futs.pending.len() - 1);
            }
        }
    }
    assert(scope.futs.pending.add(scope.futs.delivered.to_multiset())
        =~= scope.futs.delivered.to_multiset());
}

/// A scope that has been driven to completion has no future left that has not
/// finished, whatever was spawned and whenever.
pub proof fn law_finish_leaves_none_remaining<H>(scope: ScopeView<H>, after: ScopeView<H>)
    requires
        scope.wf(),
        scope.finished(after),
        after.wf(),
    ensures
        after.remaining == 0,
        after.len == scope.len,
        after.futs.delivered.to_multiset() == scope.futs.pushed.to_multiset(),
{
    law_none_remaining_all_delivered(after);
}

/// A scope that is driven to completion while something is left to wait for has
/// told every handle kept for cancellation to abort.
pub proof fn law_finish_cancels<H>(scope: ScopeView<H>, after: ScopeView<H>)
    requires
        !scope.complete(),
        scope.finished(after),
    ensures
        after.aborted == scope.aborted + scope.abort_handles,
        after.abort_handles == Seq::<Aborter>::empty(),
{
}

/// To cancel again tells nobody to abort, and cancelling touches neither the
/// counts nor the futures, so that the scope stays well-formed.
pub proof fn law_cancel_is_idempotent<H>(scope: ScopeView<H>)
    ensures
        scope.wf() ==> scope.cancelled().wf(),
        scope.cancelled().cancelled() == scope.cancelled(),
        scope.cancelled().len == scope.len,
        scope.cancelled().remaining == scope.remaining,
        scope.cancelled().done == scope.done,
        scope.cancelled().futs == scope.futs,
{
    assert(scope.cancelled().cancelled() =~= scope.cancelled());
}

/// Outputs that come out in several steps are those of one longer step.
pub proof fn law_advances_compose<H>(
    scope: ScopeView<H>,
    between: ScopeView<H>,
    after: ScopeView<H>,
)
    requires
        scope.advanced(between),
        between.advanced(after),
    ensures
        scope.advanced(after),
{
}

/// `had` was collected of the scope `before`, before a poll of a collection, and
/// `has` and `after` are that after it: as many outputs have been added as have
/// come out.
pub open spec fn collects<H, O>(
    before: ScopeView<H>,
    after: ScopeView<H>,
    had: Seq<O>,
    has: Seq<O>,
) -> bool {
    &&& before.advanced(after)
    &&& had.is_prefix_of(has)
    &&& has.len() - had.len() == before.remaining - after.remaining
}

/// To collect the outputs of a scope by polls, however many, gives what
/// collecting them in one go gives: what has come out, in order, which is all
/// when nothing remains, and the futures of it have been driven to completion.
///
/// `scopes[k]` is the scope after `k` polls, `outputs[k]` is what has been
/// collected by then, and `n` is a number of polls.
pub proof fn law_polls_collect_all<H: Future>(
    scopes: Seq<ScopeView<H>>,
    outputs: Seq<Seq<H::Output>>,
    n: int,
)
    requires
        scopes.len() == outputs.len(),
        outputs[0].len() == 0,
        forall|j: int, k: int|
            0 <= j && k == j + 1 && k < scopes.len() ==> collects(
                scopes[j],
                scopes[k],
                #[trigger] outputs[j],
                #[trigger] outputs[k],
            ),
        forall|j: int, k: int|
            #![trigger outputs[j], outputs[k]]
            0 <= j && k == j + 1 && k < scopes.len() ==> forall|i: int|
                outputs[j].len() <= i < outputs[k].len() ==> #[trigger] outputs[k][i]
                    == scopes[k].futs.delivered[i - outputs[j].len()
                    + scopes[j].futs.delivered.len()]@,
        forall|j: int, k: int|
            #![trigger scopes[j], scopes[k]]
            0 <= j && k == j + 1 && k < scopes.len() ==> forall|i: int|
                scopes[j].futs.delivered.len() <= i < scopes[k].futs.delivered.len() ==> (
                #[trigger] scopes[k].futs.delivered[i]).awaited(),
        0 <= n < scopes.len(),
    ensures
        collects(scopes[0], scopes[n], outputs[0], outputs[n]),
        forall|i: int|
            0 <= i < outputs[n].len() ==> #[trigger] outputs[n][i]
                == scopes[n].futs.delivered[scopes[0].futs.delivered.len() + i]@,
        forall|i: int|
            scopes[0].futs.delivered.len() <= i < scopes[n].futs.delivered.len() ==> (
            #[trigger] scopes[n].futs.delivered[i]).awaited(),
        scopes[n].remaining == 0 ==> outputs[n].len() == scopes[0].remaining,
    decreases n,
{
    if n > 0 {
        law_polls_collect_all::<H>(scopes, outputs, n - 1);
        let before = scopes[n - 1].futs.delivered;
        let after = scopes[n].futs.delivered;
        let start = scopes[0].futs.delivered.len();
        assert(collects(scopes[n - 1], scopes[n], outputs[n - 1], outputs[n]));
        assert forall|i: int| 0 <= i < outputs[n].len() implies #[trigger] outputs[n][i]
            == after[start + i]@ by {
            if i < outputs[n - 1].len() {
                assert(outputs[n][i] == outputs[n - 1][i]);
                assert(after[start + i] == before[start + i]);
            }
        }
        assert forall|i: int| start <= i < after.len() implies (#[trigger] after[i]).awaited() by {
            if i < before.len() {
                assert(after[i] == before[i]);
            }
        }
    }
}

/// To collect takes the outputs of the futures that had not delivered theirs, of
/// each of them once and of no other. Nothing remains then, and to collect again
/// brings nothing.
pub proof fn law_collect_takes_what_remains<H>(scope: ScopeView<H>, after: ScopeView<H>)
    requires
        scope.wf(),
        scope.advanced(after),
        after.remaining == 0,
        after.wf(),
    ensures
        after.len == scope.len,
        after.futs.delivered.len() == scope.futs.delivered.len() + scope.remaining,
        after.futs.delivered.skip(scope.futs.delivered.len() as int).to_multiset()
            == scope.futs.pending,
        forall|again: ScopeView<H>| #[trigger]
            after.advanced(again) ==> again.remaining == 0 && again.futs.delivered
                == after.futs.delivered,
{
    broadcast use vstd::seq_lib::group_to_multiset_ensures;

    law_none_remaining_all_delivered(after);
    let rest = after.futs.delivered.skip(scope.futs.delivered.len() as int);
    assert(after.futs.delivered =~= scope.futs.delivered + rest);
    vstd::seq_lib::lemma_multiset_commutative(scope.futs.delivered, rest);
    let before = scope.futs.delivered.to_multiset();
    assert(before.add(rest.to_multiset()) == before.add(scope.futs.pending));
    assert forall|h: H| rest.to_multiset().count(h) == scope.futs.pending.count(h) by {
        assert(before.add(rest.to_multiset()).count(h) == before.count(h)
            + rest.to_multiset().count(h));
        assert(before.add(scope.futs.pending).count(h) == before.count(h)
            + scope.futs.pending.count(h));
    }
    assert(rest.to_multiset() =~= scope.futs.pending);
    assert forall|again: ScopeView<H>| #[trigger] after.advanced(again) implies again.remaining == 0
        && again.futs.delivered == after.futs.delivered by {
        assert(again.futs.delivered =~= after.futs.delivered);
    }
}

/// A future that had not delivered its output when the scope was driven to
/// completion has finished then, whatever had happened to the scope before.
pub proof fn law_finish_completes_what_remains<H: Future>(
    scope: ScopeView<H>,
    after: ScopeView<H>,
    handle: H,
)
    requires
        scope.wf(),
        scope.futs.pending.count(handle) > 0,
        scope.finished(after),
        forall|i: int|
            scope.futs.delivered.len() <= i < after.futs.delivered.len() ==> (
            #[trigger] after.futs.delivered[i]).awaited(),
        after.wf(),
    ensures
        handle.awaited(),
        after.remaining == 0,
{
    broadcast use vstd::seq_lib::group_to_multiset_ensures;

    assert(scope.remaining > 0) by {
        assert(scope.futs.pending.remove(handle).len() == scope.futs.pending.len() - 1);
    }
    law_collect_takes_what_remains(scope.cancelled(), after);
    let start = scope.futs.delivered.len() as int;
    let rest = after.futs.delivered.skip(start);
    assert(rest.contains(handle));
    let i = choose|i: int| 0 <= i < rest.len() && rest[i] == handle;
    assert(after.futs.delivered[start + i] == handle);
}

/// No future outlives its scope, not even one that was spawned after the stream
/// of the scope had ended: it has finished when the scope has been driven to
/// completion.
pub proof fn law_finish_completes_late_spawn<H: Future>(
    ended: ScopeView<H>,
    handle: H,
    after: ScopeView<H>,
)
    requires
        ended.wf(),
        ended.done,
        ended.spawned(handle).finished(after),
        forall|i: int|
            ended.futs.delivered.len() <= i < after.futs.delivered.len() ==> (
            #[trigger] after.futs.delivered[i]).awaited(),
        after.wf(),
    ensures
        handle.awaited(),
        after.remaining == 0,
{
    unordered::lemma_push_wf(ended.futs, handle);
    law_finish_completes_what_remains(ended.spawned(handle), after, handle);
}

/// A well-formed scope has spawned as many futures as it counts, and of these
/// just the ones that it counts as remaining have not delivered their output.
pub proof fn law_counts_are_those_of_the_futures<H>(scope: ScopeView<H>, future: H)
    requires
        scope.wf(),
    ensures
        scope.len == scope.futs.pushed.len(),
        scope.remaining == scope.futs.pending.len(),
        scope.futs.pending.count(future) + scope.futs.delivered.to_multiset().count(future)
            == scope.futs.pushed.to_multiset().count(future),
{
    unordered::law_pushed_is_pending_or_delivered(scope.futs, future);
}

/// To spawn a future or a function adds its handle, behind those that are there,
/// and one to both counts. It leaves alone what has come out, whether the stream
/// has ended, and everything about cancellation: each handle that was kept for it
/// is kept, and none is told to abort.
pub proof fn law_spawn_leaves_cancellation_alone<H>(scope: ScopeView<H>, handle: H)
    ensures
        scope.spawned(handle).abort_handles == scope.abort_handles,
        scope.spawned(handle).aborted == scope.aborted,
        scope.spawned(handle).done == scope.done,
        scope.spawned(handle).len == scope.len + 1,
        scope.spawned(handle).remaining == scope.remaining + 1,
        scope.spawned(handle).futs.pushed == scope.futs.pushed.push(handle),
        scope.spawned(handle).futs.delivered == scope.futs.delivered,
        scope.spawned(handle).futs.pending == scope.futs.pending.insert(handle),
{
    unordered::law_push_adds_one(scope.futs, handle);
}

/// To collect outputs, however far, cancels nothing: the handles kept for
/// cancellation and those told to abort are the same after it as before. It
/// spawns nothing either, takes back no output, and each output that comes out is
/// one less that remains.
pub proof fn law_advance_leaves_cancellation_alone<H>(scope: ScopeView<H>, after: ScopeView<H>)
    requires
        scope.advanced(after),
    ensures
        after.abort_handles == scope.abort_handles,
        after.aborted == scope.aborted,
        after.len == scope.len,
        after.futs.pushed == scope.futs.pushed,
        scope.futs.delivered.is_prefix_of(after.futs.delivered),
        after.futs.delivered.len() - scope.futs.delivered.len() == scope.remaining
            - after.remaining,
{
}

/// The same of one poll of a collection, which adds to the outputs collected as
/// many as have come out.
pub proof fn law_poll_of_collection_leaves_cancellation_alone<H, O>(
    before: ScopeView<H>,
    after: ScopeView<H>,
    had: Seq<O>,
    has: Seq<O>,
)
    requires
        collects(before, after, had, has),
    ensures
        after.abort_handles == before.abort_handles,
        after.aborted == before.aborted,
        after.len == before.len,
        had.is_prefix_of(has),
        has.len() - had.len() == after.futs.delivered.len() - before.futs.delivered.len(),
{
    law_advance_leaves_cancellation_alone(before, after);
}

/// To cancel tells each handle that was kept to abort, in order, and no other,
/// whatever was spawned since the handle came to be kept. It leaves the futures
/// and the counts alone.
pub proof fn law_cancel_reaches_every_handle<H>(scope: ScopeView<H>, later: Seq<H>)
    ensures
        scope.cancelled().aborted == scope.aborted + scope.abort_handles,
        scope.cancelled().abort_handles.len() == 0,
        scope.cancelled().done == scope.done,
        scope.cancelled().len == scope.len,
        scope.cancelled().remaining == scope.remaining,
        scope.cancelled().futs == scope.futs,
        later.fold_left(scope, |s: ScopeView<H>, h: H| s.spawned(h)).cancelled().aborted
            == scope.aborted + scope.abort_handles,
{
    lemma_spawns_leave_cancellation_alone(scope, later);
}

proof fn lemma_spawns_leave_cancellation_alone<H>(scope: ScopeView<H>, later: Seq<H>)
    ensures
        later.fold_left(scope, |s: ScopeView<H>, h: H| s.spawned(h)).aborted == scope.aborted,
        later.fold_left(scope, |s: ScopeView<H>, h: H| s.spawned(h)).abort_handles
            == scope.abort_handles,
    decreases later.len(),
{
    reveal_with_fuel(Seq::fold_left, 2);
    if later.len() > 0 {
        lemma_spawns_leave_cancellation_alone(scope, later.drop_last());
    }
}

/// To drive a scope to completion leaves nothing remaining, takes back no output
/// and loses no future. It tells the handles kept for cancellation to abort where
/// the stream had not ended or a future was remaining, and none otherwise, and
/// keeps no handle.
pub proof fn law_finish_effects<H>(scope: ScopeView<H>, after: ScopeView<H>)
    requires
        scope.finished(after),
    ensures
        after.done,
        after.remaining == 0,
        after.len == scope.len,
        after.futs.pushed == scope.futs.pushed,
        scope.futs.delivered.is_prefix_of(after.futs.delivered),
        after.futs.delivered.len() - scope.futs.delivered.len() == scope.remaining,
        after.abort_handles.len() == 0,
        scope.done && scope.remaining == 0 ==> after.aborted == scope.aborted,
        !(scope.done && scope.remaining == 0) ==> after.aborted == scope.aborted
            + scope.abort_handles,
{
}

} // verus!
