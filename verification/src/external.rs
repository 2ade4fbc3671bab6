//! Types of `std` and of other crates that values of this library carry.
//!
//! All of them but [`core::task::Poll`] are opaque here: nothing is known of
//! what is inside, and what a call does to such a value is said where the call
//! is made.
use core::future::Future;
use core::task::{Context, Poll, Waker};
use futures::future::{AbortHandle, Abortable, Aborted};
use futures::stream::{Collect, FuturesOrdered, FuturesUnordered, Next};
use slab::Slab;
use vstd::prelude::*;

verus! {

#[verifier::external_type_specification]
#[verifier::reject_recursive_types(T)]
pub struct ExPoll<T>(Poll<T>);

#[verifier::external_type_specification]
#[verifier::external_body]
pub struct ExContext<'a>(Context<'a>);

#[verifier::external_type_specification]
#[verifier::external_body]
pub struct ExWaker(Waker);

#[verifier::external_type_specification]
#[verifier::external_body]
#[verifier::reject_recursive_types(T)]
pub struct ExSlab<T>(Slab<T>);

#[verifier::external_type_specification]
#[verifier::external_body]
#[verifier::reject_recursive_types(T)]
pub struct ExFuturesOrdered<T: Future>(FuturesOrdered<T>);

#[verifier::external_type_specification]
#[verifier::external_body]
#[verifier::reject_recursive_types(Fut)]
pub struct ExFuturesUnordered<Fut>(FuturesUnordered<Fut>);

#[verifier::external_type_specification]
#[verifier::external_body]
#[verifier::reject_recursive_types(St)]
pub struct ExNext<'a, St: ?Sized>(Next<'a, St>);

#[verifier::external_type_specification]
#[verifier::external_body]
#[verifier::reject_recursive_types(St)]
#[verifier::reject_recursive_types(C)]
pub struct ExCollect<St, C>(Collect<St, C>);

#[verifier::external_type_specification]
#[verifier::external_body]
pub struct ExAbortHandle(AbortHandle);

#[verifier::external_type_specification]
#[verifier::external_body]
pub struct ExAborted(Aborted);

#[verifier::external_type_specification]
#[verifier::external_body]
#[verifier::reject_recursive_types(T)]
pub struct ExAbortable<T>(Abortable<T>);

#[verifier::external_type_specification]
#[verifier::external_body]
#[verifier::reject_recursive_types(Fut)]
#[verifier::reject_recursive_types(F)]
pub struct ExFutureMap<Fut, F>(futures::future::Map<Fut, F>);

#[verifier::external_type_specification]
#[verifier::external_body]
#[verifier::reject_recursive_types(T)]
pub struct ExAsyncStdJoinHandle<T>(async_std::task::JoinHandle<T>);

#[verifier::external_type_specification]
#[verifier::external_body]
#[verifier::reject_recursive_types(T)]
pub struct ExTokioJoinHandle<T>(tokio::task::JoinHandle<T>);

#[verifier::external_type_specification]
#[verifier::external_body]
pub struct ExTokioJoinError(tokio::task::JoinError);

#[verifier::external_type_specification]
#[verifier::external_body]
pub struct ExTokioHandle(tokio::runtime::Handle);

#[verifier::external_type_specification]
#[verifier::external_body]
pub struct ExTokioRuntime(tokio::runtime::Runtime);

#[verifier::external_type_specification]
#[verifier::external_body]
pub struct ExTokioTryCurrentError(tokio::runtime::TryCurrentError);

#[verifier::external_type_specification]
#[verifier::external_body]
pub struct ExIoError(std::io::Error);

} // verus!
