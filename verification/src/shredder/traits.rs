//! Callbacks the shredder reports progress through.

use vstd::prelude::*;
use crate::shredder::errors::ShredError;
use crate::shredder::types::ShredResult;

verus! {

/// Receives progress of destructive work. Implementations may do anything;
/// nothing is assumed of them.
pub trait ProgressReporter {
    fn on_file_start(&self, path: &str, file_size: u64);
    fn on_pass_start(&self, pass: u32, total_passes: u32);
    fn on_progress(&self, bytes_written: u64, total: u64);
    fn on_pass_complete(&self, pass: u32, total_passes: u32);
    fn on_file_complete(&self, path: &str, result: &ShredResult, total_passes: u32);
    fn on_error(&self, path: &str, error: &ShredError);
    fn on_warning(&self, path: &str, message: &str);
}

} // verus!
