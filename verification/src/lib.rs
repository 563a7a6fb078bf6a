//! The decisions of an actor framework: how messages reach an actor, when its tasks are polled, and
//! how it starts, stops and is recovered.
//!
//! Nothing here blocks, spawns or performs I/O. State that several ends share is passed to the
//! operations of the ends, tasks are known by their wakers, and whatever is to be polled or called
//! is asked for: the context of an actor, a request and a supervisor say what is to be done next
//! and are told what came of it.

pub mod actor;
pub mod address;
pub mod context;
pub mod context_future;
pub mod context_run;
pub mod error;
pub mod handler;
pub mod message;
pub mod prelude;
pub mod request;
pub mod runtime;
pub mod supervisor;
pub mod util;
pub mod waker;
pub mod worker_pool;
