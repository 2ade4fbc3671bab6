use std::future::Future;
use std::sync::atomic::{AtomicUsize, Ordering};
use std::sync::Arc;
use std::task::{Context, Poll, Waker};
use std::time::Duration;

use async_scoped::abort::output_or_default;
use async_scoped::scoped::{Progress, Scope};
use async_scoped::spawner::use_async_std::AsyncStdSpawner;
use async_scoped::spawner::use_tokio::TokioSpawner;
use async_scoped::spawner::{Blocker, FuncSpawner, Spawner};
use futures::future::{pending, ready, Aborted, Ready};
use tokio::task::{JoinError, JoinHandle};

fn late(ms: u64, value: u64) -> impl Future<Output = u64> + Send + 'static {
    async move {
        async_std::task::sleep(Duration::from_millis(ms)).await;
        value
    }
}

/// Runs nothing: the handle of a future is a future of a given value. Counts
/// how often it blocks.
struct Fixed(u8, Arc<AtomicUsize>);

impl Fixed {
    fn new(value: u8) -> Self {
        Fixed(value, Arc::new(AtomicUsize::new(0)))
    }
}

impl Spawner<u8> for Fixed {
    type FutureOutput = u8;
    type SpawnHandle = Ready<u8>;

    fn spawn<F: Future<Output = u8> + Send + 'static>(&self, _f: F) -> Ready<u8> {
        ready(self.0)
    }
}

impl Blocker for Fixed {
    fn block_on<T, F: Future<Output = T>>(&self, f: F) -> T {
        self.1.fetch_add(1, Ordering::SeqCst);
        futures::executor::block_on(f)
    }
}

/// Blocks on threads that are in no asynchronous context.
struct OnTokio(TokioSpawner);

impl Spawner<u64> for OnTokio {
    type FutureOutput = Result<u64, JoinError>;
    type SpawnHandle = JoinHandle<u64>;

    fn spawn<F: Future<Output = u64> + Send + 'static>(&self, f: F) -> JoinHandle<u64> {
        self.0.spawn(f)
    }
}

impl FuncSpawner<u64> for OnTokio {
    type FutureOutput = Result<u64, JoinError>;
    type SpawnHandle = JoinHandle<u64>;

    fn spawn_func<F: FnOnce() -> u64 + Send + 'static>(&self, f: F) -> JoinHandle<u64> {
        self.0.spawn_func(f)
    }
}

impl Blocker for OnTokio {
    fn block_on<T, F: Future<Output = T>>(&self, f: F) -> T {
        self.0.block_on(f, true)
    }
}

fn counts(scope: &Scope<u64, AsyncStdSpawner>) -> (usize, usize, bool) {
    (scope.len(), scope.remaining(), scope.is_done())
}

#[test]
fn collect_gives_every_output_once() {
    let mut scope: Scope<u64, AsyncStdSpawner> = Scope::create(AsyncStdSpawner);
    assert_eq!(counts(&scope), (0, 0, false));
    for i in 0..10 {
        scope.spawn(async move { i * i });
    }
    assert_eq!(counts(&scope), (10, 10, false));
    assert_eq!(scope.size_hint(), (10, Some(10)));
    let mut outputs = scope.collect();
    outputs.sort();
    assert_eq!(outputs, vec![0, 1, 4, 9, 16, 25, 36, 49, 64, 81]);
    assert_eq!(counts(&scope), (10, 0, true));
    assert_eq!(scope.size_hint(), (0, Some(0)));
}

#[test]
fn outputs_come_as_the_futures_finish() {
    let mut scope: Scope<u64, AsyncStdSpawner> = Scope::create(AsyncStdSpawner);
    scope.spawn(late(400, 1));
    scope.spawn(late(0, 2));
    assert_eq!(scope.block_next(), Some(2));
    assert_eq!(counts(&scope), (2, 1, false));
    assert_eq!(scope.block_next(), Some(1));
    assert_eq!(counts(&scope), (2, 0, false));
    assert_eq!(scope.block_next(), None);
    assert_eq!(counts(&scope), (2, 0, true));
}

#[test]
fn cancel_gives_the_default() {
    let mut scope: Scope<u64, AsyncStdSpawner> = Scope::create(AsyncStdSpawner);
    scope.spawn_cancellable(pending(), || 9);
    scope.spawn_cancellable(pending(), || 8);
    scope.spawn(late(50, 1));
    assert_eq!(scope.len(), 3);
    scope.cancel();
    scope.cancel();
    assert_eq!(scope.remaining(), 3);
    let mut outputs = scope.collect();
    outputs.sort();
    assert_eq!(outputs, vec![1, 8, 9]);
}

#[test]
fn cancellable_future_that_is_not_cancelled() {
    let mut scope: Scope<u64, AsyncStdSpawner> = Scope::create(AsyncStdSpawner);
    scope.spawn_cancellable(late(20, 4), || 9);
    assert_eq!(scope.collect(), vec![4]);
}

#[test]
fn spawn_after_cancel_is_not_cancelled() {
    let mut scope: Scope<u64, AsyncStdSpawner> = Scope::create(AsyncStdSpawner);
    scope.cancel();
    scope.spawn_cancellable(late(20, 4), || 9);
    assert_eq!(scope.collect(), vec![4]);
}

#[test]
fn blocking_functions() {
    let mut scope: Scope<u64, AsyncStdSpawner> = Scope::create(AsyncStdSpawner);
    scope.spawn_blocking(|| 6 * 7);
    assert_eq!((scope.len(), scope.remaining()), (1, 1));
    assert_eq!(scope.collect(), vec![42]);
}

#[test]
fn finish_drives_to_completion() {
    let finished = Arc::new(AtomicUsize::new(0));
    let mut scope: Scope<(), AsyncStdSpawner> = Scope::create(AsyncStdSpawner);
    for _ in 0..4 {
        let finished = finished.clone();
        scope.spawn(async move {
            async_std::task::sleep(Duration::from_millis(30)).await;
            finished.fetch_add(1, Ordering::SeqCst);
        });
    }
    scope.spawn_cancellable(pending(), || ());
    scope.finish();
    assert_eq!(finished.load(Ordering::SeqCst), 4);
    assert_eq!((scope.len(), scope.remaining(), scope.is_done()), (5, 0, true));
}

#[test]
fn finish_waits_for_what_was_spawned_after_the_end() {
    let finished = Arc::new(AtomicUsize::new(0));
    let mut scope: Scope<u64, AsyncStdSpawner> = Scope::create(AsyncStdSpawner);
    scope.spawn(ready(1));
    assert_eq!(scope.collect(), vec![1]);
    let count = finished.clone();
    scope.spawn(async move {
        async_std::task::sleep(Duration::from_millis(30)).await;
        count.fetch_add(1, Ordering::SeqCst);
        2
    });
    scope.spawn_cancellable(pending(), || 3);
    assert_eq!(counts(&scope), (3, 2, true));
    scope.finish();
    assert_eq!(finished.load(Ordering::SeqCst), 1);
    assert_eq!(counts(&scope), (3, 0, true));
}

#[test]
fn finish_of_a_complete_scope_does_nothing() {
    let spawner = Fixed::new(3);
    let blocked = spawner.1.clone();
    let mut scope: Scope<u8, Fixed> = Scope::create(spawner);
    scope.spawn_cancellable(ready(1), || 2);
    assert_eq!(scope.collect(), vec![3]);
    assert_eq!(blocked.load(Ordering::SeqCst), 1);
    scope.finish();
    assert_eq!(blocked.load(Ordering::SeqCst), 1);
    assert_eq!((scope.len(), scope.remaining(), scope.is_done()), (1, 0, true));
}

#[test]
fn finish_blocks_once() {
    let spawner = Fixed::new(3);
    let blocked = spawner.1.clone();
    let mut scope: Scope<u8, Fixed> = Scope::create(spawner);
    for _ in 0..4 {
        scope.spawn(ready(1));
    }
    scope.finish();
    assert_eq!(blocked.load(Ordering::SeqCst), 1);
    assert_eq!((scope.len(), scope.remaining(), scope.is_done()), (4, 0, true));
}

#[test]
fn poll_next_counts() {
    let mut cx = Context::from_waker(Waker::noop());
    let mut scope: Scope<u8, Fixed> = Scope::create(Fixed::new(3));
    scope.spawn(ready(1));
    scope.spawn(ready(2));
    assert_eq!(scope.poll_next(&mut cx), Poll::Ready(Some(3)));
    assert_eq!((scope.len(), scope.remaining(), scope.is_done()), (2, 1, false));
    assert_eq!(scope.poll_next(&mut cx), Poll::Ready(Some(3)));
    assert_eq!(scope.poll_next(&mut cx), Poll::Ready(None));
    assert_eq!((scope.len(), scope.remaining(), scope.is_done()), (2, 0, true));
}

#[test]
fn scope_without_futures_has_ended() {
    let mut cx = Context::from_waker(Waker::noop());
    let mut scope: Scope<u8, Fixed> = Scope::create(Fixed::new(3));
    assert_eq!(scope.poll_next(&mut cx), Poll::Ready(None));
    assert!(scope.is_done());
}

#[test]
fn poll_next_of_a_pending_future() {
    let mut cx = Context::from_waker(Waker::noop());
    let mut scope: Scope<u64, AsyncStdSpawner> = Scope::create(AsyncStdSpawner);
    scope.spawn_cancellable(pending(), || 5);
    assert_eq!(scope.poll_next(&mut cx), Poll::Pending);
    assert_eq!(counts(&scope), (1, 1, false));
    scope.finish();
}

#[test]
fn poll_collect_to_the_end() {
    let mut cx = Context::from_waker(Waker::noop());
    let mut scope: Scope<u8, Fixed> = Scope::create(Fixed::new(3));
    scope.spawn(ready(1));
    scope.spawn(ready(2));
    let mut outputs = vec![0];
    assert_eq!(scope.poll_collect(&mut outputs, &mut cx), Poll::Ready(()));
    assert_eq!(outputs, vec![0, 3, 3]);
    assert!(scope.is_done());
}

#[test]
fn poll_collect_under_an_executor() {
    let mut scope: Scope<u64, AsyncStdSpawner> = Scope::create(AsyncStdSpawner);
    scope.spawn(late(30, 1));
    scope.spawn(late(60, 2));
    let mut outputs = vec![];
    async_std::task::block_on(futures::future::poll_fn(|cx| {
        scope.poll_collect(&mut outputs, cx)
    }));
    assert_eq!(outputs, vec![1, 2]);
}

#[test]
fn collect_after_some_outputs_gives_the_others() {
    let mut scope: Scope<u64, AsyncStdSpawner> = Scope::create(AsyncStdSpawner);
    for i in 0..5 {
        scope.spawn(async move { i });
    }
    let mut outputs = vec![scope.block_next().unwrap(), scope.block_next().unwrap()];
    assert_eq!(counts(&scope), (5, 3, false));
    outputs.extend(scope.collect());
    outputs.sort();
    assert_eq!(outputs, vec![0, 1, 2, 3, 4]);
    assert_eq!(counts(&scope), (5, 0, true));
    assert_eq!(scope.collect(), Vec::<u64>::new());
    assert_eq!(counts(&scope), (5, 0, true));
}

#[test]
fn progress_counts() {
    let mut progress = Progress::new();
    assert_eq!(progress.size_hint(), (0, Some(0)));
    progress.record_spawn();
    progress.record_spawn();
    assert_eq!((progress.len, progress.remaining, progress.done), (2, 2, false));
    assert_eq!(progress.record_poll::<u8>(Poll::Pending), Poll::Pending);
    assert_eq!((progress.len, progress.remaining, progress.done), (2, 2, false));
    assert_eq!(progress.record_poll(Poll::Ready(Some(1u8))), Poll::Ready(Some(1)));
    assert_eq!((progress.len, progress.remaining, progress.done), (2, 1, false));
    assert_eq!(progress.record_poll::<u8>(Poll::Ready(None)), Poll::Ready(None));
    assert_eq!((progress.len, progress.remaining, progress.done), (2, 1, true));
    assert_eq!(progress.size_hint(), (1, Some(1)));
    progress.record_collect();
    assert_eq!((progress.len, progress.remaining, progress.done), (2, 0, true));
}

#[test]
fn default_for_an_aborted_future_only() {
    assert_eq!(output_or_default(Ok(4), || 5), 4);
    assert_eq!(output_or_default(Err(Aborted), || 5), 5);
}

#[test]
fn tokio_scope() {
    let runtime = tokio::runtime::Builder::new_multi_thread().worker_threads(2).build().unwrap();
    let spawner = TokioSpawner::new(runtime.handle().clone());
    let mut scope: Scope<u64, OnTokio> = Scope::create(OnTokio(spawner));
    scope.spawn(async { 1 });
    scope.spawn_blocking(|| 2);
    scope.spawn_cancellable(pending(), || 3);
    scope.cancel();
    let mut outputs: Vec<u64> =
        scope.collect().into_iter().map(|output| output.unwrap()).collect();
    outputs.sort();
    assert_eq!(outputs, vec![1, 2, 3]);
}

#[test]
fn tokio_handle_reports_a_panic() {
    let runtime = tokio::runtime::Builder::new_multi_thread().worker_threads(1).build().unwrap();
    let spawner = TokioSpawner::new(runtime.handle().clone());
    let handle = spawner.spawn(async {
        if true {
            panic!("on purpose");
        }
        1u8
    });
    assert!(spawner.block_on(handle, true).is_err());
    let handle = spawner.spawn_func(|| 3u8);
    assert_eq!(spawner.block_on(handle, true).unwrap(), 3);
}

#[test]
fn tokio_spawner_owns_a_runtime_where_there_is_none() {
    let spawner = TokioSpawner::try_default().unwrap();
    let handle = Spawner::<u8>::spawn(&spawner, async { 5 });
    assert_eq!(spawner.block_on(handle, true).unwrap(), 5);
    let clone = spawner.clone();
    assert!(clone.shutdown().is_none());
    assert!(spawner.shutdown().is_some());
}

#[test]
fn tokio_spawner_uses_the_current_runtime() {
    let runtime = tokio::runtime::Builder::new_multi_thread().worker_threads(1).build().unwrap();
    let guard = runtime.enter();
    let spawner = TokioSpawner::try_default().unwrap();
    drop(guard);
    let id = |handle: &tokio::runtime::Handle| handle.metrics().num_workers();
    assert_eq!(id(spawner.handle()), 1);
    assert_eq!(id(spawner.clone().handle()), 1);
    assert!(spawner.shutdown().is_none());
    assert_eq!(runtime.block_on(async { 3 }), 3);
}

#[test]
fn tokio_spawner_on_a_given_outcome() {
    let missing = tokio::runtime::Handle::try_current();
    assert!(missing.is_err());
    let spawner = TokioSpawner::on_current(missing).unwrap();
    assert!(spawner.shutdown().is_some());

    let runtime = tokio::runtime::Builder::new_current_thread().build().unwrap();
    let spawner = TokioSpawner::on_current(Ok(runtime.handle().clone())).unwrap();
    assert!(spawner.shutdown().is_none());
}

#[test]
fn tokio_spawner_owns_what_was_built() {
    let built = tokio::runtime::Builder::new_current_thread().build();
    let spawner = TokioSpawner::owning(built).unwrap();
    let task = spawner.run(async { 4u8 });
    assert_eq!(spawner.block_on(task, true).unwrap(), 4);
    assert!(spawner.shutdown().is_some());

    let failed = std::io::Error::new(std::io::ErrorKind::OutOfMemory, "no runtime");
    let error = TokioSpawner::owning(Err(failed)).err().unwrap();
    assert_eq!(error.kind(), std::io::ErrorKind::OutOfMemory);
}

#[test]
fn tokio_spawner_runs_on_its_own_runtime() {
    let runtime = tokio::runtime::Builder::new_multi_thread()
        .worker_threads(1)
        .build()
        .unwrap();
    let other = tokio::runtime::Builder::new_multi_thread().worker_threads(1).build().unwrap();
    let spawner = TokioSpawner::new(runtime.handle().clone());
    let guard = other.enter();
    let task = spawner.run(async { tokio::runtime::Handle::current().id() });
    let func = spawner.run_func(|| tokio::runtime::Handle::current().id());
    drop(guard);
    assert_eq!(spawner.block_on(task, true).unwrap(), runtime.handle().id());
    assert_eq!(spawner.block_on(func, true).unwrap(), runtime.handle().id());
}

#[test]
fn async_std_spawner() {
    let spawner = AsyncStdSpawner::default();
    let handle = spawner.spawn(late(10, 5));
    assert_eq!(spawner.block_on(handle), 5);
    let handle = spawner.spawn_func(|| 8u8);
    assert_eq!(spawner.block_on(handle), 8);
}
