//! Scheduler data model: the process-tracker row a scheduled task runs
//! under, and the retry mappings that drive task rescheduling.

use std::collections::HashMap;

use vstd::prelude::*;

use crate::entities::clone_opt_string;

verus! {

/// One tracked background process.
pub struct ProcessTracker {
    pub id: String,
    pub name: Option<String>,
    pub retry_count: i32,
    pub schedule_time: Option<i64>,
}

impl Clone for ProcessTracker {
    fn clone(&self) -> (r: Self)
        ensures
            r == *self,
    {
        ProcessTracker {
            id: self.id.clone(),
            name: clone_opt_string(&self.name),
            retry_count: self.retry_count,
            schedule_time: self.schedule_time,
        }
    }
}

/// The stores a scheduled process works against, with its tracker row.
pub struct ProcessData {
    db_name: String,
    cache_name: String,
    process_tracker: ProcessTracker,
}

impl ProcessData {
    /// Bundles the store names a process uses with its tracker row.
    pub fn new(db_name: String, cache_name: String, process_tracker: ProcessTracker) -> (r: Self)
        ensures
            r.spec_db_name() == db_name,
            r.spec_cache_name() == cache_name,
            r.spec_process_tracker() == process_tracker,
    {
        ProcessData { db_name, cache_name, process_tracker }
    }

    /// The relational store's name.
    pub closed spec fn spec_db_name(self) -> String {
        self.db_name
    }

    /// The cache's name.
    pub closed spec fn spec_cache_name(self) -> String {
        self.cache_name
    }

    /// The tracker row.
    pub closed spec fn spec_process_tracker(self) -> ProcessTracker {
        self.process_tracker
    }
}

/// How retries of one kind of task are spaced: after `start_after` seconds,
/// each entry of `count` many retries waits the matching `frequency`.
pub struct RetryMapping {
    pub start_after: i32,
    pub frequency: Vec<i32>,
    pub count: Vec<i32>,
}

/// Retry mappings per connector: a default, per-merchant overrides, and the
/// retry ceiling.
pub struct ConnectorPTMapping {
    pub default_mapping: RetryMapping,
    pub custom_merchant_mapping: HashMap<String, RetryMapping>,
    pub max_retries_count: i32,
}

} // verus!
