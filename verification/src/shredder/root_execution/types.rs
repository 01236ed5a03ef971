//! Request, result and vault types shared by root execution and the vault.

use vstd::prelude::*;
use crate::text::{cat, cat4, decimal, u64_to_string};
use crate::shredder::types::WriteCheckOutcome;

verus! {

/// What a requested root is expected to be.
#[derive(Debug, Clone, Copy, PartialEq, Eq, Structural)]
pub enum TargetKind {
    File,
    Directory,
    Link,
    UnknownLegacy,
}

/// Whether a stored target can be executed.
#[derive(Debug, Clone, Copy, PartialEq, Eq, Structural)]
pub enum TargetAvailability {
    Ready,
    Missing,
    Blocked,
}

/// Final status of one requested root.
#[derive(Debug, Clone, Copy, PartialEq, Eq, Structural)]
pub enum RootStatus {
    Destroyed,
    Failed,
    Cancelled,
    Skipped,
}

/// The step at which a child error occurred.
#[derive(Debug, Clone, Copy, PartialEq, Eq, Structural)]
pub enum ExecutionStage {
    Preflight,
    Overwrite,
    Verify,
    Rename,
    Truncate,
    Delete,
    DirectoryRemove,
    Journal,
    Sync,
}

/// Which stored vault schema a load decoded.
#[derive(Debug, Clone, Copy, PartialEq, Eq, Structural)]
pub enum VaultSchemaSource {
    V1,
    V2,
}

/// Every way loading or saving the vault can fail.
#[derive(Debug)]
pub enum VaultError {
    Io { action: String, source: String },
    Crypto(String),
    Decode(String),
    UnsupportedSchema(u32),
    Replace { source: String },
    Sync { path: String, source: String },
}

/// The text that describes a vault error.
pub open spec fn vault_error_message(e: VaultError) -> Seq<char> {
    match e {
        VaultError::Io { action, source } => "I/O error while "@ + action@ + ": "@ + source@,
        VaultError::Crypto(m) => "Cryptographic error: "@ + m@,
        VaultError::Decode(m) => "Decode error: "@ + m@,
        VaultError::UnsupportedSchema(v) => "Unsupported vault schema: "@ + decimal(v as nat),
        VaultError::Replace { source } => "Failed to replace vault: "@ + source@,
        VaultError::Sync { path, source } => "Failed to sync vault path "@ + path@ + ": "@ + source@,
    }
}

impl VaultError {
    /// The human-readable description of the error.
    pub fn message(&self) -> (r: String)
        ensures
            r@ == vault_error_message(*self),
    {
        match self {
            VaultError::Io { action, source } => cat4("I/O error while ", action.as_str(), ": ", source.as_str()),
            VaultError::Crypto(m) => cat("Cryptographic error: ", m.as_str()),
            VaultError::Decode(m) => cat("Decode error: ", m.as_str()),
            VaultError::UnsupportedSchema(v) => {
                let n = u64_to_string(*v as u64);
                cat("Unsupported vault schema: ", n.as_str())
            },
            VaultError::Replace { source } => cat("Failed to replace vault: ", source.as_str()),
            VaultError::Sync { path, source } => cat4("Failed to sync vault path ", path.as_str(), ": ", source.as_str()),
        }
    }
}

/// A stored deletion target.
#[derive(Debug, Clone, PartialEq, Eq)]
pub struct VaultTarget {
    pub path: String,
    pub kind: TargetKind,
}

/// Validation result for one stored target.
#[derive(Debug, Clone, PartialEq, Eq)]
pub struct TargetMetadataDto {
    pub path: String,
    pub kind: TargetKind,
    pub availability: TargetAvailability,
    pub reason: Option<String>,
    pub name: String,
    pub size: u64,
}

/// One root to execute.
#[derive(Debug, Clone, PartialEq, Eq)]
pub struct ExecuteRootRequest {
    pub target_id: String,
    pub path: String,
    pub kind: TargetKind,
}

/// A batch of roots to execute, in order.
#[derive(Debug, Clone, PartialEq, Eq)]
pub struct ExecuteRootsRequest {
    pub roots: Vec<ExecuteRootRequest>,
}

/// One error recorded while executing a root.
#[derive(Debug, Clone, PartialEq, Eq)]
pub struct ChildErrorDto {
    pub path: String,
    pub stage: ExecutionStage,
    pub error_type: String,
    pub message: String,
    pub actionable: String,
}

/// The outcome of one requested root.
#[derive(Debug, Clone, PartialEq, Eq)]
pub struct RootResultDto {
    pub target_id: String,
    pub requested_path: String,
    pub kind: TargetKind,
    pub status: RootStatus,
    pub root_removed: bool,
    pub files_destroyed: u64,
    pub directories_removed: u64,
    pub bytes_shredded: u64,
    pub write_check: WriteCheckOutcome,
    pub errors: Vec<ChildErrorDto>,
}

/// The outcome of a batch, one result per requested root in request order.
#[derive(Debug, Clone, PartialEq, Eq)]
pub struct BatchRootResult {
    pub roots: Vec<RootResultDto>,
}

} // verus!
