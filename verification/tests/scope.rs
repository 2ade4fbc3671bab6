use std::future::Future;
use std::sync::atomic::{AtomicUsize, Ordering};
use std::sync::Arc;
use std::task::{Context, Poll, Waker};
use std::time::Duration;

use async_scoped::ordered::OrderedFutures;
use async_scoped::{scope, scope_and_block, Cancellation, Scope, VerifiedStream};
use futures::future::{pending, ready, Pending, Ready};

fn late(ms: u64, value: u64) -> impl Future<Output = u64> + Send + 'static {
    async move {
        async_std::task::sleep(Duration::from_millis(ms)).await;
        value
    }
}

#[test]
fn test_scope_and_block() {
    let not_copy = Arc::new(String::from("hello world!"));
    let (_, vals) = scope_and_block(|s| {
        for _ in 0..10 {
            let not_copy = not_copy.clone();
            s.spawn(async move {
                assert_eq!(*not_copy, "hello world!");
            });
        }
    });
    assert_eq!(vals.len(), 10);
}

#[test]
fn block_output_is_returned() {
    let (foo, outputs) = scope_and_block(|s| {
        for _ in 0..10 {
            s.spawn(async {});
        }
        42
    });
    assert_eq!(foo, 42);
    assert_eq!(outputs.len(), 10);
}

#[test]
fn scoped_futures() {
    let (mut stream, _) = scope(|s| {
        for _ in 0..10 {
            s.spawn(async {});
        }
    });
    assert_eq!(stream.len, 10);
    let mut count = 0;
    while let Some(_) = stream.block_next() {
        count += 1;
    }
    assert_eq!(count, 10);
    assert!(stream.done);
}

#[test]
fn outputs_come_in_spawn_order() {
    let (_, outputs) = scope_and_block(|s: &mut Scope<u64>| {
        s.spawn(late(60, 1));
        s.spawn(late(0, 2));
        s.spawn(late(30, 3));
    });
    assert_eq!(outputs, vec![1, 2, 3]);
}

#[test]
fn empty_scope_gives_no_output() {
    let (unit, outputs) = scope_and_block(|_: &mut Scope<u64>| "nothing");
    assert_eq!(unit, "nothing");
    assert_eq!(outputs, Vec::<u64>::new());
}

#[test]
fn into_stream_keeps_the_futures() {
    let mut scope: Scope<u64> = Scope::create();
    scope.spawn(async { 5 });
    scope.spawn(async { 6 });
    let mut stream = scope.into_stream();
    assert_eq!(stream.len, 2);
    assert!(!stream.done);
    assert_eq!(stream.block_next(), Some(5));
    assert!(!stream.done);
    assert_eq!(stream.block_next(), Some(6));
    assert!(!stream.done);
    assert_eq!(stream.block_next(), None);
    assert!(stream.done);
    assert_eq!(stream.block_next(), None);
    assert_eq!(stream.len, 2);
}

#[test]
fn poll_next_in_order() {
    let mut cx = Context::from_waker(Waker::noop());
    let mut stream = VerifiedStream::new(OrderedFutures::of(vec![ready(1u8), ready(2)]), 2);
    assert_eq!(stream.poll_next(&mut cx), Poll::Ready(Some(1)));
    assert_eq!(stream.poll_next(&mut cx), Poll::Ready(Some(2)));
    assert!(!stream.done);
    assert_eq!(stream.poll_next(&mut cx), Poll::Ready(None));
    assert!(stream.done);
}

#[test]
fn poll_next_waits_for_the_first() {
    let mut cx = Context::from_waker(Waker::noop());
    let futs: Vec<Pending<u8>> = vec![pending(), pending()];
    let mut stream = VerifiedStream::new(OrderedFutures::of(futs), 2);
    assert_eq!(stream.poll_next(&mut cx), Poll::Pending);
    assert!(!stream.done);
}

#[test]
fn record_poll_notes_the_end_only() {
    let none: Vec<Ready<u8>> = vec![];
    let mut stream = VerifiedStream::new(OrderedFutures::of(none), 0);
    assert_eq!(stream.record_poll::<u8>(Poll::Pending), Poll::Pending);
    assert!(!stream.done);
    assert_eq!(stream.record_poll(Poll::Ready(Some(3u8))), Poll::Ready(Some(3)));
    assert!(!stream.done);
    assert_eq!(stream.record_poll::<u8>(Poll::Ready(None)), Poll::Ready(None));
    assert!(stream.done);
}

#[test]
fn poll_collect_takes_what_is_there() {
    let mut cx = Context::from_waker(Waker::noop());
    let futs: Vec<futures::future::BoxFuture<'static, u8>> =
        vec![Box::pin(ready(1)), Box::pin(ready(2)), Box::pin(pending())];
    let mut stream = VerifiedStream::new(OrderedFutures::of(futs), 3);
    let mut outputs = vec![9];
    assert_eq!(stream.poll_collect(&mut outputs, &mut cx), Poll::Pending);
    assert_eq!(outputs, vec![9, 1, 2]);
    assert!(!stream.done);

    let mut stream = VerifiedStream::new(OrderedFutures::of(vec![ready(4u8), ready(5)]), 2);
    let mut outputs = vec![];
    assert_eq!(stream.poll_collect(&mut outputs, &mut cx), Poll::Ready(()));
    assert_eq!(outputs, vec![4, 5]);
    assert!(stream.done);
}

#[test]
fn block_and_collect_whole_stream() {
    let mut stream = VerifiedStream::new(OrderedFutures::of(vec![ready(1u8), ready(2)]), 2);
    assert_eq!(stream.block_and_collect(), vec![1, 2]);
    assert!(stream.done);
    assert_eq!(stream.block_and_collect(), vec![]);
}

#[test]
fn finish_cancels_and_drives_to_completion() {
    let finished = Arc::new(AtomicUsize::new(0));
    let mut scope: Scope<()> = Scope::create();
    for _ in 0..5 {
        let finished = finished.clone();
        scope.spawn(async move {
            async_std::task::sleep(Duration::from_millis(30)).await;
            finished.fetch_add(1, Ordering::SeqCst);
        });
    }
    let mut stream = scope.into_stream();
    let mut cancelled = 0;
    stream.finish(|_| cancelled += 1);
    assert_eq!(cancelled, 1);
    assert_eq!(finished.load(Ordering::SeqCst), 5);
    assert!(stream.done);
}

#[test]
fn finish_cancels_before_it_waits() {
    let (sender, receiver) = futures::channel::oneshot::channel::<u64>();
    let mut scope: Scope<u64> = Scope::create();
    scope.spawn(async move { receiver.await.unwrap() });
    let mut stream = scope.into_stream();
    let mut seen = None;
    stream.finish(|stream| {
        seen = Some((stream.len, stream.done));
        sender.send(1).unwrap();
    });
    assert_eq!(seen, Some((1, false)));
    assert!(stream.done);
}

#[test]
fn polls_collect_what_one_go_collects() {
    let (_, in_one_go) = scope_and_block(|s: &mut Scope<u64>| {
        s.spawn(late(60, 1));
        s.spawn(late(0, 2));
        s.spawn(late(30, 3));
    });
    let (mut stream, _) = scope(|s: &mut Scope<u64>| {
        s.spawn(late(60, 1));
        s.spawn(late(0, 2));
        s.spawn(late(30, 3));
    });
    let mut outputs = vec![];
    async_std::task::block_on(futures::future::poll_fn(|cx| {
        stream.poll_collect(&mut outputs, cx)
    }));
    assert_eq!(outputs, in_one_go);
}

#[test]
fn stream_without_futures_has_ended() {
    let mut cx = Context::from_waker(Waker::noop());
    let (mut stream, _) = scope(|_: &mut Scope<u64>| {});
    assert_eq!(stream.poll_next(&mut cx), Poll::Ready(None));
    let mut outputs = vec![];
    assert_eq!(stream.poll_collect(&mut outputs, &mut cx), Poll::Ready(()));
    assert_eq!(outputs, vec![]);
}

#[test]
fn finish_takes_the_rest_of_the_stream() {
    let mut stream = VerifiedStream::new(OrderedFutures::of(vec![ready(1u8), ready(2)]), 2);
    assert_eq!(stream.block_next(), Some(1));
    stream.finish(|_| {});
    assert!(stream.done);
    assert_eq!(stream.block_next(), None);
}

#[test]
fn finish_of_a_finished_stream_does_nothing() {
    let mut stream = VerifiedStream::new(OrderedFutures::of(vec![ready(1u8)]), 1);
    stream.block_and_collect();
    let mut cancelled = 0;
    stream.finish(|_| cancelled += 1);
    assert_eq!(cancelled, 0);
    assert!(stream.done);
}

#[test]
fn stream_cancel_cancels() {
    let stream = VerifiedStream::new(OrderedFutures::of(vec![ready(1u8)]), 1);
    let mut cancellation = Cancellation::new();
    assert!(!cancellation.is_cancelled());
    stream.cancel(&mut cancellation);
    assert!(cancellation.is_cancelled());
}
