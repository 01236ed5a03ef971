//! Policy and result types of the shredder.

use vstd::prelude::*;
use crate::shredder::errors::ShredError;

pub use crate::shredder::root_execution::types::{
    BatchRootResult, ChildErrorDto, ExecuteRootRequest, ExecuteRootsRequest, ExecutionStage,
    RootResultDto, RootStatus, TargetAvailability, TargetKind, TargetMetadataDto, VaultError,
    VaultSchemaSource, VaultTarget,
};

verus! {

/// Byte patterns for overwriting.
#[derive(Debug, Clone, Copy, PartialEq, Eq, Structural)]
pub enum PatternType {
    Random,
    Zeros,
    Ones,
}

/// Media type for storage-aware deletion.
#[derive(Debug, Clone, Copy, PartialEq, Eq, Structural)]
pub enum MediaType {
    Ssd,
    Hdd,
    Unknown,
}

/// Status carried by a progress event.
#[derive(Debug, Clone)]
pub enum ShredStatus {
    Shredding,
    Complete,
    Warning { message: String },
    Error { message: String },
}

/// Result of a single file shredding operation.
#[derive(Debug)]
pub struct ShredResult {
    pub success: bool,
    pub passes_completed: u32,
    pub bytes_written: u64,
    pub errors: Vec<ShredError>,
}

/// Result of a read-back verification.
#[derive(Debug)]
pub struct VerificationResult {
    pub passed: bool,
}

/// Information about a hard link.
#[derive(Debug)]
pub struct HardLinkInfo {
    pub link_count: u32,
}

/// Information about a process holding a file lock.
#[derive(Debug, Clone)]
pub struct ProcessInfo {
    pub pid: u32,
    pub name: String,
}

/// One failed entry of a batch report.
#[derive(Debug)]
pub struct ShredReportError {
    pub path: String,
    pub error: String,
}

/// Progress event sent to the user interface.
#[derive(Debug, Clone)]
pub struct ProgressEvent {
    pub file_path: String,
    pub file_size: u64,
    pub bytes_written: u64,
    pub current_pass: u32,
    pub total_passes: u32,
    pub speed_bytes_per_sec: u64,
    pub estimated_time_remaining_secs: u64,
    pub status: ShredStatus,
}

/// Read-back levels of the legacy argument surface.
#[derive(Debug, Clone, Copy, PartialEq, Eq, Structural)]
pub enum VerificationLevel {
    Off,
    Sample,
    Full,
}

/// How many logical overwrite passes a file receives before removal.
#[derive(Debug, Clone, Copy, PartialEq, Eq, Structural)]
pub enum DeletionMethod {
    /// One logical random overwrite pass.
    Automatic,
    /// Fixed zeros, ones, random sequence; only permitted on magnetic storage.
    LegacyThreePass,
}

/// Final-state read-back mode.
#[derive(Debug, Clone, Copy, PartialEq, Eq, Structural)]
pub enum WriteCheck {
    Off,
    Spot,
    Full,
}

/// Outcome of the final-state read-back.
#[derive(Debug, Clone, Copy, PartialEq, Eq, Structural)]
pub enum WriteCheckOutcome {
    NotRun,
    Passed,
    Failed,
}

/// Deletion configuration: method and write check.
#[derive(Debug, Clone, Copy, PartialEq, Eq, Structural)]
pub struct DeletionPolicy {
    pub method: DeletionMethod,
    pub write_check: WriteCheck,
}

impl Default for DeletionPolicy {
    fn default() -> (r: Self)
        ensures
            r == (DeletionPolicy { method: DeletionMethod::Automatic, write_check: WriteCheck::Spot }),
    {
        DeletionPolicy { method: DeletionMethod::Automatic, write_check: WriteCheck::Spot }
    }
}

/// Number of overwrite passes of a method.
pub open spec fn method_passes(method: DeletionMethod) -> u32 {
    match method {
        DeletionMethod::Automatic => 1,
        DeletionMethod::LegacyThreePass => 3,
    }
}

impl DeletionPolicy {
    /// Number of overwrite passes the method performs.
    pub fn total_passes(&self) -> (r: u32)
        ensures
            r == method_passes(self.method),
            1 <= r <= 3,
    {
        match self.method {
            DeletionMethod::Automatic => 1,
            DeletionMethod::LegacyThreePass => 3,
        }
    }

    /// Whether the method is only allowed on magnetic storage.
    pub fn requires_hdd(&self) -> (r: bool)
        ensures
            r == (self.method == DeletionMethod::LegacyThreePass),
    {
        match self.method {
            DeletionMethod::Automatic => false,
            DeletionMethod::LegacyThreePass => true,
        }
    }
}

/// The storage rule: the three-pass method only on confirmed magnetic media.
pub open spec fn storage_allows(method: DeletionMethod, media: MediaType) -> bool {
    method == DeletionMethod::Automatic || media == MediaType::Hdd
}

/// The three-pass method is refused on anything but a confirmed hard disk
/// (solid-state or unknown media), and the automatic method is refused
/// nowhere.
pub proof fn lemma_legacy_only_on_hard_disks(method: DeletionMethod, media: MediaType)
    ensures
        method == DeletionMethod::LegacyThreePass && media != MediaType::Hdd ==> !storage_allows(method, media),
        method == DeletionMethod::LegacyThreePass && media == MediaType::Ssd ==> !storage_allows(method, media),
        method == DeletionMethod::LegacyThreePass && media == MediaType::Unknown ==> !storage_allows(method, media),
        method == DeletionMethod::LegacyThreePass && media == MediaType::Hdd ==> storage_allows(method, media),
        method == DeletionMethod::Automatic ==> storage_allows(method, media),
{
}

/// Enforces the storage rule for a method, with an empty diagnostic path.
pub fn validate_storage_for_method(method: DeletionMethod, media: MediaType) -> (r: Result<(), ShredError>)
    ensures
        r is Ok <==> storage_allows(method, media),
        method == DeletionMethod::LegacyThreePass && media != MediaType::Hdd ==> r is Err,
        method == DeletionMethod::Automatic || media == MediaType::Hdd ==> r is Ok,
        r matches Err(e) ==> e == (ShredError::UnsupportedStorageForMethod {
            path: e->UnsupportedStorageForMethod_path,
            method,
            media,
        }) && e->UnsupportedStorageForMethod_path@ == Seq::<char>::empty(),
{
    let legacy = match method {
        DeletionMethod::Automatic => false,
        DeletionMethod::LegacyThreePass => true,
    };
    let hdd = match media {
        MediaType::Hdd => true,
        _ => false,
    };
    if legacy && !hdd {
        return Err(ShredError::UnsupportedStorageForMethod { path: String::new(), method, media });
    }
    Ok(())
}

/// Metadata returned for each path found by path validation.
#[derive(Debug, Clone)]
pub struct FileMetadata {
    pub path: String,
    pub name: String,
    pub size: u64,
    pub kind: TargetKind,
    pub is_shortcut: bool,
    pub shortcut_target: Option<String>,
}

} // verus!
