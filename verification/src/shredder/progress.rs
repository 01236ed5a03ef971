//! Progress reporters that need no user interface.

use vstd::prelude::*;
use crate::shredder::errors::ShredError;
use crate::shredder::traits::ProgressReporter;
use crate::shredder::types::ShredResult;

verus! {

/// A reporter that discards every event.
pub struct NoopProgressReporter;

impl ProgressReporter for NoopProgressReporter {
    fn on_file_start(&self, _path: &str, _file_size: u64) {
    }

    fn on_pass_start(&self, _pass: u32, _total_passes: u32) {
    }

    fn on_progress(&self, _bytes_written: u64, _total: u64) {
    }

    fn on_pass_complete(&self, _pass: u32, _total_passes: u32) {
    }

    fn on_file_complete(&self, _path: &str, _result: &ShredResult, _total_passes: u32) {
    }

    fn on_error(&self, _path: &str, _error: &ShredError) {
    }

    fn on_warning(&self, _path: &str, _message: &str) {
    }
}

} // verus!
