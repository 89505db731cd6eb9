//! The background job queue.
use vstd::prelude::*;

use crate::data_dir::DataDir;

verus! {

/// Why the job queue could not be set up; each variant carries the underlying message.
#[derive(Clone, Debug, PartialEq, Eq)]
pub enum QueueError {
    SqliteExtension(String),
    Sqlite(String),
    IO(String),
}

/// The job queue. Built without a job store, it holds nothing and setting it up cannot fail.
#[derive(Clone, Debug, PartialEq, Eq)]
pub struct Queue {}

impl Queue {
    /// The queue for the data directory `data_dir`, or an in-memory one.
    pub fn new(data_dir: Option<&DataDir>) -> (r: Result<Queue, QueueError>)
        ensures
            r == Ok::<Queue, QueueError>(Queue {}),
    {
        Ok(Queue {})
    }
}

} // verus!
