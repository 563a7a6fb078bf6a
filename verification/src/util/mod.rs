pub mod async_channel;
pub mod bounded;
pub mod channel;
pub mod event;
pub mod futures;
pub mod oneshot;
pub mod padded;
pub mod slab;
pub mod unbounded;
