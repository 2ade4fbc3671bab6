//! Aborting of futures.
use core::future::Future;
use futures::future::{AbortHandle, Abortable, Aborted};
use futures::FutureExt;
use vstd::future::FutureAdditionalSpecFns;
use vstd::prelude::*;

verus! {

/// The handle that stops a future, as long as it has not been told to. It is the
/// only one of its future.
pub struct Aborter {
    handle: AbortHandle,
    aborts: Ghost<bool>,
}

impl Aborter {
    /// Whether the handle is ever told to abort.
    pub closed spec fn aborts(&self) -> bool {
        self.aborts@
    }
}

/// Calls [`futures::future::abortable`], which wraps a future and makes the
/// handle that stops it.
///
/// Where the wrapped future has resolved to a value, the future has been driven
/// to completion and the value is its output. Where it has resolved to an
/// error, its handle, the one made with it, has been told to abort. Which of
/// these comes of a handle that is told to abort is left open: the future may be
/// ready before.
#[verifier::external_body]
pub fn make_abortable<F: Future>(future: F) -> (made: (Abortable<F>, Aborter))
    ensures
        made.0.awaited() ==> match made.0@ {
            Ok(output) => future.awaited() && output == future@,
            Err(_) => made.1.aborts(),
        },
{
    let (fut, handle) = futures::future::abortable(future);
    (fut, Aborter { handle, aborts: Ghost(arbitrary()) })
}

/// Calls [`FutureExt::map`], which makes a future that awaits the given one and
/// resolves to the result of the function on its output.
#[verifier::external_body]
pub(crate) fn map_output<F: Future, U, G: FnOnce(F::Output) -> U>(future: F, f: G) -> (mapped:
    futures::future::Map<F, G>)
    requires
        forall|output: F::Output| #[trigger] f.requires((output,)),
    ensures
        mapped.awaited() ==> future.awaited() && f.ensures((future@,), mapped@),
{
    future.map(f)
}

/// The output of a future that was made abortable, or the default if it was
/// aborted. The default is made in that case only.
pub fn output_or_default<T, Fu: FnOnce() -> T>(result: Result<T, Aborted>, default: Fu) -> (output:
    T)
    requires
        result is Err ==> default.requires(()),
    ensures
        match result {
            Ok(value) => output == value,
            Err(_) => default.ensures((), output),
        },
{
    match result {
        Ok(value) => value,
        Err(_) => default(),
    }
}

/// The handles that were told to abort, and those that were dropped, in order.
/// It exists in proofs alone.
pub struct AbortLog {
    aborted: Ghost<Seq<Aborter>>,
    retired: Ghost<Seq<Aborter>>,
}

impl View for AbortLog {
    type V = Seq<Aborter>;

    closed spec fn view(&self) -> Seq<Aborter> {
        self.aborted@
    }
}

impl AbortLog {
    /// The handles that were dropped without being told to abort.
    pub closed spec fn retired(&self) -> Seq<Aborter> {
        self.retired@
    }

    /// The log of no abort.
    pub(crate) fn new() -> (log: Self)
        ensures
            log@ == Seq::<Aborter>::empty(),
    {
        AbortLog { aborted: Ghost(Seq::empty()), retired: Ghost(Seq::empty()) }
    }

    /// Calls [`AbortHandle::abort`] on the handle, once, and logs it.
    #[verifier::external_body]
    pub(crate) fn abort(&mut self, aborter: Aborter)
        ensures
            final(self)@ == old(self)@.push(aborter),
            final(self)@.last().aborts(),
    {
        aborter.handle.abort();
    }

    /// Drops an [`AbortHandle`], and logs it. Nobody else has one of the same
    /// future, so that this one is never told to abort.
    #[verifier::external_body]
    pub(crate) fn retire(&mut self, aborter: Aborter)
        ensures
            final(self)@ == old(self)@,
            final(self).retired() == old(self).retired().push(aborter),
            !final(self).retired().last().aborts(),
    {
        drop(aborter.handle);
    }
}

} // verus!
