use std::future::Future;
use std::pin::Pin;
use std::sync::atomic::{AtomicUsize, Ordering};
use std::sync::Arc;
use std::task::{Context, Poll, Wake, Waker};

use async_scoped::driven::DrivenFuture;
use async_scoped::{CancellableFuture, Cancellation};
use futures::future::{pending, ready, Pending};

struct Counter(AtomicUsize);

impl Wake for Counter {
    fn wake(self: Arc<Self>) {
        self.0.fetch_add(1, Ordering::SeqCst);
    }
}

fn counter() -> (Arc<Counter>, Waker) {
    let counter = Arc::new(Counter(AtomicUsize::new(0)));
    (counter.clone(), Waker::from(counter))
}

fn woken(counter: &Arc<Counter>) -> usize {
    counter.0.load(Ordering::SeqCst)
}

#[test]
fn ready_future_is_returned() {
    let mut cancellation = Cancellation::new();
    let (count, waker) = counter();
    let mut fut = DrivenFuture::new(ready(5));
    let polled = cancellation.poll_future(true, None, &mut fut, waker);
    assert_eq!(polled, Some((Poll::Ready(5), None)));
    cancellation.cancel();
    assert_eq!(woken(&count), 0);
}

#[test]
fn pending_future_is_registered_and_woken() {
    let mut cancellation = Cancellation::new();
    let (count, waker) = counter();
    let mut fut: DrivenFuture<Pending<u8>> = DrivenFuture::new(pending());
    let (polled, key) = cancellation.poll_future(true, None, &mut fut, waker).unwrap();
    assert_eq!(polled, Poll::Pending);
    let key = key.unwrap();
    assert!(cancellation.is_registered(key));
    assert_eq!(woken(&count), 0);
    cancellation.cancel();
    assert_eq!(woken(&count), 1);
    assert!(!cancellation.is_registered(key));
}

#[test]
fn pending_again_replaces_the_waker() {
    let mut cancellation = Cancellation::new();
    let (old, old_waker) = counter();
    let (new, new_waker) = counter();
    let mut fut: DrivenFuture<Pending<u8>> = DrivenFuture::new(pending());
    let (_, key) = cancellation.poll_future(true, None, &mut fut, old_waker).unwrap();
    let (_, again) = cancellation.poll_future(true, key, &mut fut, new_waker).unwrap();
    assert_eq!(again, key);
    cancellation.cancel();
    assert_eq!(woken(&old), 0);
    assert_eq!(woken(&new), 1);
}

#[test]
fn ready_future_gives_its_key_back() {
    let mut cancellation = Cancellation::new();
    let (count, waker) = counter();
    let key = cancellation.record_poll(None, false, waker.clone());
    assert!(cancellation.is_registered(key.unwrap()));
    assert_eq!(cancellation.record_poll(key, true, waker), None);
    assert!(!cancellation.is_registered(key.unwrap()));
    cancellation.cancel();
    assert_eq!(woken(&count), 0);
}

#[test]
fn futures_have_different_keys() {
    let mut cancellation = Cancellation::new();
    let (first, first_waker) = counter();
    let (second, second_waker) = counter();
    let a = cancellation.record_poll(None, false, first_waker.clone());
    let b = cancellation.record_poll(None, false, second_waker);
    assert_ne!(a, b);
    assert_eq!(cancellation.record_poll(a, true, first_waker), None);
    assert!(cancellation.is_registered(b.unwrap()));
    cancellation.cancel();
    assert_eq!(woken(&first), 0);
    assert_eq!(woken(&second), 1);
}

#[test]
fn cancel_wakes_everyone_once() {
    let mut cancellation = Cancellation::new();
    let (count, waker) = counter();
    for _ in 0..7 {
        cancellation.record_poll(None, false, waker.clone());
    }
    cancellation.cancel();
    assert_eq!(woken(&count), 7);
    cancellation.cancel();
    assert_eq!(woken(&count), 7);
    assert!(cancellation.is_cancelled());
}

#[test]
fn nothing_is_polled_after_cancel() {
    let mut cancellation = Cancellation::new();
    assert!(cancellation.may_poll(true));
    assert!(!cancellation.may_poll(false));
    cancellation.cancel();
    assert!(!cancellation.may_poll(true));
    let (_, waker) = counter();
    let mut fut = DrivenFuture::new(ready(5));
    assert_eq!(cancellation.poll_future(true, None, &mut fut, waker), None);
}

#[test]
fn nothing_is_polled_while_being_cancelled() {
    let mut cancellation = Cancellation::new();
    let (_, waker) = counter();
    let mut fut = DrivenFuture::new(ready(5));
    assert_eq!(cancellation.poll_future(false, None, &mut fut, waker.clone()), None);
    assert_eq!(cancellation.poll_future(false, Some(9), &mut fut, waker.clone()), None);
    assert!(!cancellation.is_cancelled());
    assert!(!cancellation.is_registered(9));
    let polled = cancellation.poll_future(true, None, &mut fut, waker);
    assert_eq!(polled, Some((Poll::Ready(5), None)));
}

#[test]
fn cancellable_future_gives_its_output() {
    let mut cancellation = Cancellation::new();
    let (_, waker) = counter();
    let mut fut = CancellableFuture::new(ready(5), || 0);
    assert_eq!(fut.poll(&mut cancellation, true, waker), Poll::Ready(5));
}

#[test]
fn cancelled_future_gives_the_default_at_its_next_poll() {
    let mut cancellation = Cancellation::new();
    let (count, waker) = counter();
    let fut: Pending<u8> = pending();
    let mut fut = CancellableFuture::new(fut, || 77);
    assert_eq!(fut.poll(&mut cancellation, true, waker.clone()), Poll::Pending);
    assert_eq!(fut.poll(&mut cancellation, true, waker.clone()), Poll::Pending);
    cancellation.cancel();
    assert_eq!(woken(&count), 1);
    assert_eq!(fut.poll(&mut cancellation, true, waker), Poll::Ready(77));
}

#[test]
fn future_polled_during_cancellation_gives_the_default() {
    let mut cancellation = Cancellation::new();
    let (_, waker) = counter();
    let mut fut = CancellableFuture::new(ready(5), || 0);
    assert_eq!(fut.poll(&mut cancellation, false, waker), Poll::Ready(0));
}

/// Pending at the first polls, and ready then; counts its polls.
struct Later {
    left: usize,
    polls: Arc<AtomicUsize>,
}

impl Future for Later {
    type Output = u8;

    fn poll(mut self: Pin<&mut Self>, _cx: &mut Context<'_>) -> Poll<u8> {
        self.polls.fetch_add(1, Ordering::SeqCst);
        if self.left == 0 {
            return Poll::Ready(5);
        }
        self.left -= 1;
        Poll::Pending
    }
}

#[test]
fn each_poll_polls_once() {
    let mut cancellation = Cancellation::new();
    let (count, waker) = counter();
    let polls = Arc::new(AtomicUsize::new(0));
    let defaults = Arc::new(AtomicUsize::new(0));
    let made = defaults.clone();
    let later = Later { left: 2, polls: polls.clone() };
    let mut fut = CancellableFuture::new(later, move || {
        made.fetch_add(1, Ordering::SeqCst);
        9
    });
    assert_eq!(fut.poll(&mut cancellation, true, waker.clone()), Poll::Pending);
    assert_eq!(polls.load(Ordering::SeqCst), 1);
    assert_eq!(fut.poll(&mut cancellation, true, waker.clone()), Poll::Pending);
    assert_eq!(polls.load(Ordering::SeqCst), 2);
    assert_eq!(fut.poll(&mut cancellation, true, waker), Poll::Ready(5));
    assert_eq!(polls.load(Ordering::SeqCst), 3);
    assert_eq!(defaults.load(Ordering::SeqCst), 0);
    cancellation.cancel();
    assert_eq!(woken(&count), 0);
}

#[test]
fn default_is_made_once_and_the_future_polled_no_more() {
    let mut cancellation = Cancellation::new();
    let (count, waker) = counter();
    let polls = Arc::new(AtomicUsize::new(0));
    let defaults = Arc::new(AtomicUsize::new(0));
    let made = defaults.clone();
    let later = Later { left: 9, polls: polls.clone() };
    let mut fut = CancellableFuture::new(later, move || {
        made.fetch_add(1, Ordering::SeqCst);
        9
    });
    for _ in 0..3 {
        assert_eq!(fut.poll(&mut cancellation, true, waker.clone()), Poll::Pending);
    }
    cancellation.cancel();
    assert_eq!(woken(&count), 1);
    assert_eq!(fut.poll(&mut cancellation, true, waker), Poll::Ready(9));
    assert_eq!(polls.load(Ordering::SeqCst), 3);
    assert_eq!(defaults.load(Ordering::SeqCst), 1);
}

#[test]
fn poll_in_steps() {
    let mut cancellation = Cancellation::new();
    let (count, waker) = counter();
    let fut: Pending<u8> = pending();
    let mut fut = CancellableFuture::new(fut, || 7);
    let polled = fut.poll_inner(&waker);
    assert_eq!(polled, Poll::Pending);
    fut.record_poll(&mut cancellation, polled.is_ready(), waker);
    cancellation.cancel();
    assert_eq!(woken(&count), 1);
    assert_eq!(fut.take_default(), 7);
}
