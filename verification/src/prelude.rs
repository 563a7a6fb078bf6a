//! What most users of the library need.

pub use crate::actor::Actor;
pub use crate::context::{Context, ContextJoinHandle};
pub use crate::error::ActixAsyncError;
pub use crate::message::Message;
pub use crate::runtime::RuntimeService;
