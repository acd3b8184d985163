// Log shipping to a GELF collector: records are filtered by severity, queued
// as events, gathered into batches and written over TCP, with retry after a
// failed delivery and a hard stop after repeated ones.

pub mod appender;
pub mod batch;
pub mod builder;
pub mod encode;
pub mod error;
pub mod level;
pub mod output;
pub mod result;
pub mod tcp;

pub use appender::{BufferAppender, BufferAppenderBuilder};
pub use level::GelfLevel;
