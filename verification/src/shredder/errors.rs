//! Error types of the shredder and of the journal.

use vstd::prelude::*;
use crate::shredder::types::{DeletionMethod, MediaType};
use crate::text::{cat, cat3, cat4, decimal, owned, u64_to_string};

verus! {

/// Every way a destructive operation or its validation can fail.
#[derive(Debug)]
pub enum ShredError {
    FileNotFound(String),
    PermissionDenied(String),
    FileLocked { path: String, process: String },
    IoError { path: String, kind: String, message: String },
    VerificationFailed { path: String, pass: u32 },
    HardLinkBlocked { path: String, count: u64 },
    UnsupportedStorageForMethod { path: String, method: DeletionMethod, media: MediaType },
    WriteCheckFailed { path: String },
    BrowserCollectionFailed { path: String, detail: String },
    NetworkDrive(String),
    SystemFile(String),
    ShortcutDetected { path: String, target: String },
    InvalidPathType(String),
    EmptyPath,
    ValidationFailed(String),
}

/// Debug name of a deletion method.
pub open spec fn method_name(m: DeletionMethod) -> Seq<char> {
    match m {
        DeletionMethod::Automatic => "Automatic"@,
        DeletionMethod::LegacyThreePass => "LegacyThreePass"@,
    }
}

/// Debug name of a media type.
pub open spec fn media_name(m: MediaType) -> Seq<char> {
    match m {
        MediaType::Ssd => "Ssd"@,
        MediaType::Hdd => "Hdd"@,
        MediaType::Unknown => "Unknown"@,
    }
}

/// The text that describes an error.
pub open spec fn shred_error_message(e: ShredError) -> Seq<char> {
    match e {
        ShredError::FileNotFound(p) => "File not found: "@ + p@,
        ShredError::PermissionDenied(p) => "Permission denied: "@ + p@,
        ShredError::FileLocked { path, process } => "File locked by process '"@ + process@ + "': "@ + path@,
        ShredError::IoError { path, kind, message } => "I/O error at "@ + path@ + ": "@ + kind@ + ": "@ + message@,
        ShredError::VerificationFailed { path, pass } => "Verification failed at "@ + path@ + " on pass "@ + decimal(pass as nat),
        ShredError::HardLinkBlocked { path, count } => "hard link blocked at "@ + path@ + ": link count "@ + decimal(count as nat),
        ShredError::UnsupportedStorageForMethod { path, method, media } =>
            "unsupported storage for method "@ + method_name(method) + " at "@ + path@ + ": media type "@ + media_name(media),
        ShredError::WriteCheckFailed { path } => "write check failed at "@ + path@,
        ShredError::BrowserCollectionFailed { path, detail } => "browser data collection failed at "@ + path@ + ": "@ + detail@,
        ShredError::NetworkDrive(p) => "Network drive not supported: "@ + p@,
        ShredError::SystemFile(p) => "System file protected: "@ + p@,
        ShredError::ShortcutDetected { path, target } => "Shortcut or symlink detected: "@ + path@ + " -> "@ + target@
            + ". Enable 'Also shred linked targets' to shred the target."@,
        ShredError::InvalidPathType(p) => "Path is not a file or directory: "@ + p@,
        ShredError::EmptyPath => "Empty path"@,
        ShredError::ValidationFailed(m) => "Validation failed: "@ + m@,
    }
}

fn method_text(m: DeletionMethod) -> (r: &'static str)
    ensures
        r@ == method_name(m),
{
    match m {
        DeletionMethod::Automatic => "Automatic",
        DeletionMethod::LegacyThreePass => "LegacyThreePass",
    }
}

fn media_text(m: MediaType) -> (r: &'static str)
    ensures
        r@ == media_name(m),
{
    match m {
        MediaType::Ssd => "Ssd",
        MediaType::Hdd => "Hdd",
        MediaType::Unknown => "Unknown",
    }
}

impl ShredError {
    /// Builds the I/O variant from an operating-system error's kind name and text.
    pub fn from_io_error(path: String, kind: String, message: String) -> (r: ShredError)
        ensures
            r == (ShredError::IoError { path, kind, message }),
    {
        ShredError::IoError { path, kind, message }
    }

    /// The human-readable description of the error.
    pub fn message(&self) -> (r: String)
        ensures
            r@ == shred_error_message(*self),
    {
        match self {
            ShredError::FileNotFound(p) => cat("File not found: ", p.as_str()),
            ShredError::PermissionDenied(p) => cat("Permission denied: ", p.as_str()),
            ShredError::FileLocked { path, process } =>
                cat4("File locked by process '", process.as_str(), "': ", path.as_str()),
            ShredError::IoError { path, kind, message } => {
                let mut r = cat4("I/O error at ", path.as_str(), ": ", kind.as_str());
                r.append(": ");
                r.append(message.as_str());
                r
            },
            ShredError::VerificationFailed { path, pass } => {
                let mut r = cat3("Verification failed at ", path.as_str(), " on pass ");
                let n = u64_to_string(*pass as u64);
                r.append(n.as_str());
                r
            },
            ShredError::HardLinkBlocked { path, count } => {
                let mut r = cat3("hard link blocked at ", path.as_str(), ": link count ");
                let n = u64_to_string(*count);
                r.append(n.as_str());
                r
            },
            ShredError::UnsupportedStorageForMethod { path, method, media } => {
                let mut r = cat4("unsupported storage for method ", method_text(*method), " at ", path.as_str());
                r.append(": media type ");
                r.append(media_text(*media));
                r
            },
            ShredError::WriteCheckFailed { path } => cat("write check failed at ", path.as_str()),
            ShredError::BrowserCollectionFailed { path, detail } =>
                cat4("browser data collection failed at ", path.as_str(), ": ", detail.as_str()),
            ShredError::NetworkDrive(p) => cat("Network drive not supported: ", p.as_str()),
            ShredError::SystemFile(p) => cat("System file protected: ", p.as_str()),
            ShredError::ShortcutDetected { path, target } => {
                let mut r = cat4("Shortcut or symlink detected: ", path.as_str(), " -> ", target.as_str());
                r.append(". Enable 'Also shred linked targets' to shred the target.");
                r
            },
            ShredError::InvalidPathType(p) => cat("Path is not a file or directory: ", p.as_str()),
            ShredError::EmptyPath => owned("Empty path"),
            ShredError::ValidationFailed(m) => cat("Validation failed: ", m.as_str()),
        }
    }
}

/// Every way the deletion journal can fail.
#[derive(Debug)]
pub enum JournalError {
    Io { operation: String, path: String, message: String },
    Serialize(String),
    Decode { path: String, message: String },
    LegacyRecord { path: String },
    IdentityMismatch { path: String, reason: String },
    UnsafeParent { path: String, reason: String },
    RecordNotFound { path: String },
}

/// The path a journal error concerns, if any.
pub open spec fn journal_error_path(e: JournalError) -> Option<Seq<char>> {
    match e {
        JournalError::Io { path, .. } => Some(path@),
        JournalError::Serialize(_) => None,
        JournalError::Decode { path, .. } => Some(path@),
        JournalError::LegacyRecord { path } => Some(path@),
        JournalError::IdentityMismatch { path, .. } => Some(path@),
        JournalError::UnsafeParent { path, .. } => Some(path@),
        JournalError::RecordNotFound { path } => Some(path@),
    }
}

/// The text that describes a journal error.
pub open spec fn journal_error_message(e: JournalError) -> Seq<char> {
    match e {
        JournalError::Io { operation, path, message } =>
            "journal I/O failed while "@ + operation@ + " at "@ + path@ + ": "@ + message@,
        JournalError::Serialize(m) => "journal serialization failed: "@ + m@,
        JournalError::Decode { path, message } => "journal decode failed at "@ + path@ + ": "@ + message@,
        JournalError::LegacyRecord { path } =>
            "legacy path-only journal record at "@ + path@ + " is not trusted for recovery"@,
        JournalError::IdentityMismatch { path, reason } =>
            "journal record identity mismatch at "@ + path@ + ": "@ + reason@,
        JournalError::UnsafeParent { path, reason } =>
            "journal record has an unsafe recovery parent: "@ + path@ + ": "@ + reason@,
        JournalError::RecordNotFound { path } =>
            "journal record was not found while clearing: "@ + path@,
    }
}

impl JournalError {
    /// The path the error concerns; serialization errors have none.
    pub fn path(&self) -> (r: Option<&str>)
        ensures
            match r {
                Some(p) => journal_error_path(*self) == Some(p@),
                None => journal_error_path(*self) is None,
            },
    {
        match self {
            JournalError::Io { path, .. } => Some(path.as_str()),
            JournalError::Serialize(_) => None,
            JournalError::Decode { path, .. } => Some(path.as_str()),
            JournalError::LegacyRecord { path } => Some(path.as_str()),
            JournalError::IdentityMismatch { path, .. } => Some(path.as_str()),
            JournalError::UnsafeParent { path, .. } => Some(path.as_str()),
            JournalError::RecordNotFound { path } => Some(path.as_str()),
        }
    }

    /// The human-readable description of the error.
    pub fn message(&self) -> (r: String)
        ensures
            r@ == journal_error_message(*self),
    {
        match self {
            JournalError::Io { operation, path, message } => {
                let mut r = cat4("journal I/O failed while ", operation.as_str(), " at ", path.as_str());
                r.append(": ");
                r.append(message.as_str());
                r
            },
            JournalError::Serialize(m) => cat("journal serialization failed: ", m.as_str()),
            JournalError::Decode { path, message } =>
                cat4("journal decode failed at ", path.as_str(), ": ", message.as_str()),
            JournalError::LegacyRecord { path } =>
                cat3("legacy path-only journal record at ", path.as_str(), " is not trusted for recovery"),
            JournalError::IdentityMismatch { path, reason } =>
                cat4("journal record identity mismatch at ", path.as_str(), ": ", reason.as_str()),
            JournalError::UnsafeParent { path, reason } =>
                cat4("journal record has an unsafe recovery parent: ", path.as_str(), ": ", reason.as_str()),
            JournalError::RecordNotFound { path } =>
                cat("journal record was not found while clearing: ", path.as_str()),
        }
    }
}

} // verus!
