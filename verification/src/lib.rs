//! A request/response server core for a kernel HTTP listener: the completion
//! bridge that turns completion callbacks into awaitable operations, the
//! request queue and listener lifecycle, and the multi-worker dispatcher.

pub mod bridge;
pub mod dispatch;
pub mod listener;
pub mod message;
pub mod overlapped;
pub mod plot;
pub mod queue;
pub mod server;
pub mod status;
pub mod util;
