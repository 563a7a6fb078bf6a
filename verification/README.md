# actix_async

An actor framework for async Rust whose decisions are verified with Verus.

```rust
use prelude::*;

struct TestActor;
actor!(TestActor);

struct TestMessage;
message!(TestMessage, u32);

impl Handler<TestMessage> for TestActor {
    // concurrent message handler where actor state is borrowed immutably.
    fn handle<'act>(&'act self, _: TestMessage, _: Context<Self>) -> LocalBoxFuture<'act, u32> {
        Box::pin(async { 996 })
    }

    // exclusive message handler where actor state is borrowed mutably.
    fn handle_wait<'act>(
        &'act mut self,
        _: TestMessage,
        _: Context<Self>,
    ) -> LocalBoxFuture<'act, u32> {
        Box::pin(async { 251 })
    }
}

async fn example() {
    let address = TestActor.start();
    assert_eq!(address.send(TestMessage).await, Ok(996));
    assert_eq!(address.wait(TestMessage).await, Ok(251));
}
```

## Layout

- `src/` is the verified library. It takes no lock but that of the wake queue, spawns nothing and
  polls nothing.
  - `util/`: a slab, an event with its listeners, a bounded and an unbounded queue, a bounded
    channel (`async_channel`), the channel of an actor (`channel`) and a channel for one value
    (`oneshot`). State that several ends share is an argument of their operations, and the wakers
    that an operation calls are collected for the caller.
  - `message`, `address`, `request`, `handler`: what is sent to an actor, and how it is answered.
  - `context_future`, `context`, `context_run`: three ways to run an actor, as state machines that
    say what is to be polled or called next.
  - `supervisor`, `worker_pool`: several instances of an actor.
  - `waker`: how a task of an actor is woken.
- `app/` runs what the library decides: locks, futures, streams, timers, tasks and threads.
- `tests/` holds the tests of the library.

Laws of the library are the public proof functions whose names start with `law_`.
