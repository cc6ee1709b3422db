//! A load-generation harness for HTTP services: request templates that are
//! filled in per index, the bookkeeping of a bounded worker pool, and the
//! latency statistics of a run.

pub mod about;
pub mod dispatch;
pub mod job;
pub mod json;
pub mod queue;
pub mod report;
pub mod stats;
pub mod task;
pub mod template;
pub mod text;

pub use about::clap_about;
pub use dispatch::Dispatcher;
pub use job::{materialize_all, Header, Job, JobHeader, MaterializeError, Method, Request};
pub use report::{summarize, Bucket, Summary};
pub use stats::{categorize, Record};
pub use task::{recording, subtask, Reply, TaskError, TaskResult};
pub use template::{expand, Kind, Param, Token};
