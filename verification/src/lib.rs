//! Job records, the queue protocol and the progress engine of a video
//! transcoding service.

pub mod block;
pub mod command;
pub mod dimensions;
pub mod duration;
pub mod engine;
pub mod ingest;
pub mod job;
pub mod lifecycle;
pub mod pattern;
pub mod progress;
pub mod queue;
pub mod text;
