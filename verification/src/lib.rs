//! A poll-based cooperative task library.
//!
//! A task is a steppable unit of work: each call to `advance` does a bounded
//! amount of non-blocking work and reports `Pending`, `Ready(value)` or
//! `Failed(error)`. Streams produce a sequence of items the same way.
//! Combinators (`map`, `and_then`, `take`, `zip`) compose tasks and streams,
//! channels pass values between independently scheduled tasks, the offload
//! handle bridges blocking work run elsewhere into a task, and the executor
//! drives a set of spawned tasks round-robin until none can make progress.

pub mod channel;
pub mod combine;
pub mod exec;
pub mod offload;
pub mod poll;
pub mod pump;
pub mod scripted;
pub mod take;
pub mod task;
pub mod zip;

pub use channel::BufferedChannel;
pub use channel::ChannelError;
pub use channel::OneShotChannel;
pub use channel::SendAttempt;
pub use combine::AndThenTask;
pub use combine::MapTask;
pub use exec::Executor;
pub use offload::OffloadError;
pub use offload::OffloadTask;
pub use poll::PollResult;
pub use pump::PumpTask;
pub use scripted::ScriptedStream;
pub use scripted::ScriptedTask;
pub use scripted::StreamEvent;
pub use scripted::TaskEvent;
pub use take::TakeTask;
pub use task::Stream;
pub use task::Task;
pub use zip::ZipStream;
