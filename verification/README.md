# async_scoped

Controlled spawning of futures: a scope hands futures to an executor, gives out
their outputs, and is driven to completion before it goes away.

The rules of this (what is spawned, cancelled, woken, counted and collected, and
in which order) are in `src/`, verified with Verus. The executors, the
collections that drive futures, the slab of wakers and the abortable futures come
from `async-std`, `tokio`, `futures` and `slab`; each call into them stands in a
small function whose doc comment says what is taken for granted of it.

## Layout

- `src/lib.rs`: a scope on `async-std`, whose outputs come in the order of
  spawning, with `scope` and `scope_and_block`.
- `src/verified_stream.rs`: the stream of the outputs of such a scope.
- `src/scoped.rs`: a scope on any executor, whose outputs come as the futures
  finish.
- `src/cancellation.rs`, `src/cancellable_future.rs`, `src/driven.rs`: cancellation
  by waking, the futures that fall back to a default, and the polling of them.
- `src/abort.rs`: cancellation by abort handles.
- `src/spawner.rs` and `src/spawner/`: what an executor is, and two of them.
- `src/ordered.rs`, `src/unordered.rs`, `src/wakers.rs`, `src/external.rs`: the
  collections and types of other crates.
- `app/`: what faces a program: locks, `Future`, `Stream` and `Drop`, asynchronous
  functions, and the erasure of lifetimes that lets futures borrow.
- `tests/`: the library at work on real executors.

## What is proved

- The outputs of a scope on `async-std` are those of its futures, each once and
  in the order of spawning, and all the futures have been driven to completion
  when they are collected.
- The outputs of a scope on any executor are those of its futures, each once;
  what remains and what has come out add up to what was spawned; a scope that is
  finished with something left to wait for tells each of its cancellable futures
  to abort, once, and then waits for all of them. A cancellable future that is
  never cancelled gives its own output.
- A future that is pending is registered under one key, with the waker of its
  last poll; cancelling wakes each registered future once, and from then on
  nothing is polled: a cancelled future gives its default, which is made at most
  once.
- To collect outputs by any number of polls gives what collecting them in one go
  gives.

A future `f` stands in the contracts as its output `f@` and by `f.awaited()`,
which says that it is driven to completion. Where a contract has to say that an
outside call is made, it says so with `call_ensures` of the function that makes
it.
