//! The progress events that long-running catalog operations report.

use vstd::prelude::*;

verus! {

/// A real-time progress update emitted during long-running operations
/// (querying the catalog, resolving a product's packages, searching).
///
/// `stage` is a stable identifier (e.g. `"fe3.syncUpdates"`); `message`
/// is human-readable detail. `current`/`total` are populated for stages
/// that report `"N of M"` counters.
#[derive(Debug, Clone)]
pub struct ProgressEvent {
    pub stage: &'static str,
    pub message: String,
    pub current: Option<u32>,
    pub total: Option<u32>,
}

impl ProgressEvent {
    /// An event of `stage` without a counter.
    pub fn new(stage: &'static str, message: String) -> (r: ProgressEvent)
        ensures
            r.stage == stage,
            r.message == message,
            r.current is None,
            r.total is None,
    {
        ProgressEvent { stage, message, current: None, total: None }
    }

    /// An event of `stage` that reports `current` of `total`.
    pub fn counter(stage: &'static str, message: String, current: u32, total: u32) -> (r:
        ProgressEvent)
        ensures
            r.stage == stage,
            r.message == message,
            r.current == Some(current),
            r.total == Some(total),
    {
        ProgressEvent { stage, message, current: Some(current), total: Some(total) }
    }
}

} // verus!
