//! Typed shapes of common response documents, with payloads held as plain
//! JSON values.

use crate::json::Json;
use vstd::prelude::*;

verus! {

/// One changefeed notification: the document before and after the change,
/// and the optional bookkeeping fields of state and offset reporting.
#[derive(Debug)]
pub struct Change {
    pub old_val: Option<Json>,
    pub new_val: Option<Json>,
    pub result_type: Option<String>,
    pub old_offset: Option<usize>,
    pub new_offset: Option<usize>,
    pub state: Option<String>,
}

/// The status document a write operation returns.
#[derive(Debug)]
pub struct WriteStatus {
    pub inserted: u32,
    pub replaced: u32,
    pub unchanged: u32,
    pub skipped: u32,
    pub deleted: u32,
    pub errors: u32,
    pub first_error: Option<String>,
    pub generated_keys: Option<Vec<String>>,
    pub warnings: Option<Vec<String>>,
    pub changes: Option<Vec<Change>>,
}

} // verus!
