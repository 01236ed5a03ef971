//! The error payload the user interface receives.

use vstd::prelude::*;
use crate::shredder::errors::{shred_error_message, ShredError};
use crate::text::{cat3, cat4};

verus! {

/// An error as the interface shows it.
#[derive(Debug, Clone)]
pub struct ShredErrorDto {
    /// Stable machine-readable category, the variant's name.
    pub error_type: String,
    /// Human-readable description.
    pub message: String,
    /// The path the error concerns, when it has one.
    pub path: Option<String>,
    /// What the user can do about it.
    pub actionable: String,
}

/// The category name of an error.
pub open spec fn category(e: ShredError) -> Seq<char> {
    match e {
        ShredError::FileNotFound(_) => "FileNotFound"@,
        ShredError::PermissionDenied(_) => "PermissionDenied"@,
        ShredError::FileLocked { .. } => "FileLocked"@,
        ShredError::IoError { .. } => "IoError"@,
        ShredError::VerificationFailed { .. } => "VerificationFailed"@,
        ShredError::HardLinkBlocked { .. } => "HardLinkBlocked"@,
        ShredError::UnsupportedStorageForMethod { .. } => "UnsupportedStorageForMethod"@,
        ShredError::WriteCheckFailed { .. } => "WriteCheckFailed"@,
        ShredError::BrowserCollectionFailed { .. } => "BrowserCollectionFailed"@,
        ShredError::NetworkDrive(_) => "NetworkDrive"@,
        ShredError::SystemFile(_) => "SystemFile"@,
        ShredError::ShortcutDetected { .. } => "ShortcutDetected"@,
        ShredError::InvalidPathType(_) => "InvalidPathType"@,
        ShredError::EmptyPath => "EmptyPath"@,
        ShredError::ValidationFailed(_) => "ValidationFailed"@,
    }
}

/// The path an error concerns: every variant but the empty path and a
/// validation failure carries one.
pub open spec fn error_path(e: ShredError) -> Option<Seq<char>> {
    match e {
        ShredError::FileNotFound(p) => Some(p@),
        ShredError::PermissionDenied(p) => Some(p@),
        ShredError::FileLocked { path, .. } => Some(path@),
        ShredError::IoError { path, .. } => Some(path@),
        ShredError::VerificationFailed { path, .. } => Some(path@),
        ShredError::HardLinkBlocked { path, .. } => Some(path@),
        ShredError::UnsupportedStorageForMethod { path, .. } => Some(path@),
        ShredError::WriteCheckFailed { path } => Some(path@),
        ShredError::BrowserCollectionFailed { path, .. } => Some(path@),
        ShredError::NetworkDrive(p) => Some(p@),
        ShredError::SystemFile(p) => Some(p@),
        ShredError::ShortcutDetected { path, .. } => Some(path@),
        ShredError::InvalidPathType(p) => Some(p@),
        ShredError::EmptyPath => None,
        ShredError::ValidationFailed(_) => None,
    }
}

/// The guidance shown for an error.
pub open spec fn guidance(e: ShredError) -> Seq<char> {
    match e {
        ShredError::FileNotFound(_) => "Verify the file exists and is accessible. It may have been moved or deleted."@,
        ShredError::PermissionDenied(_) => "Run KnockKnock as administrator, or check the file's ownership and permissions."@,
        ShredError::FileLocked { .. } => "Close the application using this file, then retry. On Windows, schedule deletion at next reboot if needed."@,
        ShredError::VerificationFailed { .. } => "Overwrite verification failed. Retry the operation; if it persists, the disk may be failing."@,
        ShredError::HardLinkBlocked { .. } => "This file has other hard links. Remove the other links first; destroying one name would leave the data reachable."@,
        ShredError::UnsupportedStorageForMethod { .. } => "The three-pass method is only allowed on hard disks. Use the automatic method on this drive."@,
        ShredError::WriteCheckFailed { .. } => "The final write check failed. The file was removed, but the disk may not have stored the overwrite; check the drive."@,
        ShredError::BrowserCollectionFailed { .. } => "Browser data could not be inspected. Close the browser and check the profile's permissions, then retry."@,
        ShredError::NetworkDrive(_) => "Copy the file to a local drive and retry. Network drives cannot be reliably shredded."@,
        ShredError::SystemFile(_) => "This is a protected system file. Do not shred it — this operation has been refused for your safety."@,
        ShredError::ShortcutDetected { .. } => "Shortcuts and symlinks are refused to prevent shredding unintended targets. Resolve the link and retry with the real file."@,
        ShredError::InvalidPathType(_) => "Select a regular file or directory. Special filesystem entries (sockets, pipes, devices) are not supported."@,
        ShredError::EmptyPath => "Provide a valid file or directory path."@,
        ShredError::ValidationFailed(_) => "The target did not pass the safety checks. Review the selection and retry."@,
        ShredError::IoError { kind, message, .. } => "Check disk health, free space, and file integrity. ("@
            + "OS reported "@ + kind@ + ": "@ + message@ + ")"@,
    }
}

/// Every kind of error comes with guidance.
pub proof fn lemma_every_variant_has_guidance(e: ShredError)
    ensures
        guidance(e).len() > 0,
{
    reveal_strlit("Verify the file exists and is accessible. It may have been moved or deleted.");
    reveal_strlit("Run KnockKnock as administrator, or check the file's ownership and permissions.");
    reveal_strlit("Close the application using this file, then retry. On Windows, schedule deletion at next reboot if needed.");
    reveal_strlit("Overwrite verification failed. Retry the operation; if it persists, the disk may be failing.");
    reveal_strlit("This file has other hard links. Remove the other links first; destroying one name would leave the data reachable.");
    reveal_strlit("The three-pass method is only allowed on hard disks. Use the automatic method on this drive.");
    reveal_strlit("The final write check failed. The file was removed, but the disk may not have stored the overwrite; check the drive.");
    reveal_strlit("Browser data could not be inspected. Close the browser and check the profile's permissions, then retry.");
    reveal_strlit("Copy the file to a local drive and retry. Network drives cannot be reliably shredded.");
    reveal_strlit("This is a protected system file. Do not shred it — this operation has been refused for your safety.");
    reveal_strlit("Shortcuts and symlinks are refused to prevent shredding unintended targets. Resolve the link and retry with the real file.");
    reveal_strlit("Select a regular file or directory. Special filesystem entries (sockets, pipes, devices) are not supported.");
    reveal_strlit("Provide a valid file or directory path.");
    reveal_strlit("The target did not pass the safety checks. Review the selection and retry.");
    reveal_strlit("Check disk health, free space, and file integrity. (");
}

/// The category name of an error.
pub fn error_type_name(err: &ShredError) -> (r: String)
    ensures
        r@ == category(*err),
{
    let name = match err {
        ShredError::FileNotFound(_) => "FileNotFound",
        ShredError::PermissionDenied(_) => "PermissionDenied",
        ShredError::FileLocked { .. } => "FileLocked",
        ShredError::IoError { .. } => "IoError",
        ShredError::VerificationFailed { .. } => "VerificationFailed",
        ShredError::HardLinkBlocked { .. } => "HardLinkBlocked",
        ShredError::UnsupportedStorageForMethod { .. } => "UnsupportedStorageForMethod",
        ShredError::WriteCheckFailed { .. } => "WriteCheckFailed",
        ShredError::BrowserCollectionFailed { .. } => "BrowserCollectionFailed",
        ShredError::NetworkDrive(_) => "NetworkDrive",
        ShredError::SystemFile(_) => "SystemFile",
        ShredError::ShortcutDetected { .. } => "ShortcutDetected",
        ShredError::InvalidPathType(_) => "InvalidPathType",
        ShredError::EmptyPath => "EmptyPath",
        ShredError::ValidationFailed(_) => "ValidationFailed",
    };
    String::from_str(name)
}

/// The path an error concerns, and guidance for every variant.
pub fn extract_path_and_action(err: &ShredError) -> (r: (Option<String>, String))
    ensures
        match r.0 {
            Some(p) => error_path(*err) == Some(p@),
            None => error_path(*err) is None,
        },
        r.1@ == guidance(*err),
{
    match err {
        ShredError::FileNotFound(p) => (Some(p.clone()), String::from_str(
            "Verify the file exists and is accessible. It may have been moved or deleted.")),
        ShredError::PermissionDenied(p) => (Some(p.clone()), String::from_str(
            "Run KnockKnock as administrator, or check the file's ownership and permissions.")),
        ShredError::FileLocked { path, .. } => (Some(path.clone()), String::from_str(
            "Close the application using this file, then retry. On Windows, schedule deletion at next reboot if needed.")),
        ShredError::IoError { path, kind, message } => {
            let detail = cat4("OS reported ", kind.as_str(), ": ", message.as_str());
            let action = cat3("Check disk health, free space, and file integrity. (", detail.as_str(), ")");
            (Some(path.clone()), action)
        },
        ShredError::VerificationFailed { path, .. } => (Some(path.clone()), String::from_str(
            "Overwrite verification failed. Retry the operation; if it persists, the disk may be failing.")),
        ShredError::HardLinkBlocked { path, .. } => (Some(path.clone()), String::from_str(
            "This file has other hard links. Remove the other links first; destroying one name would leave the data reachable.")),
        ShredError::UnsupportedStorageForMethod { path, .. } => (Some(path.clone()), String::from_str(
            "The three-pass method is only allowed on hard disks. Use the automatic method on this drive.")),
        ShredError::WriteCheckFailed { path } => (Some(path.clone()), String::from_str(
            "The final write check failed. The file was removed, but the disk may not have stored the overwrite; check the drive.")),
        ShredError::BrowserCollectionFailed { path, .. } => (Some(path.clone()), String::from_str(
            "Browser data could not be inspected. Close the browser and check the profile's permissions, then retry.")),
        ShredError::NetworkDrive(p) => (Some(p.clone()), String::from_str(
            "Copy the file to a local drive and retry. Network drives cannot be reliably shredded.")),
        ShredError::SystemFile(p) => (Some(p.clone()), String::from_str(
            "This is a protected system file. Do not shred it — this operation has been refused for your safety.")),
        ShredError::ShortcutDetected { path, .. } => (Some(path.clone()), String::from_str(
            "Shortcuts and symlinks are refused to prevent shredding unintended targets. Resolve the link and retry with the real file.")),
        ShredError::InvalidPathType(p) => (Some(p.clone()), String::from_str(
            "Select a regular file or directory. Special filesystem entries (sockets, pipes, devices) are not supported.")),
        ShredError::EmptyPath => (None, String::from_str("Provide a valid file or directory path.")),
        ShredError::ValidationFailed(_) => (None, String::from_str(
            "The target did not pass the safety checks. Review the selection and retry.")),
    }
}

impl ShredErrorDto {
    /// The payload for an error: its category, its message, its path and
    /// guidance; the guidance is never empty.
    pub fn from_error(err: &ShredError) -> (r: Self)
        ensures
            r.error_type@ == category(*err),
            r.message@ == shred_error_message(*err),
            match r.path {
                Some(p) => error_path(*err) == Some(p@),
                None => error_path(*err) is None,
            },
            r.actionable@ == guidance(*err),
            r.actionable@.len() > 0,
    {
        proof {
            lemma_every_variant_has_guidance(*err);
        }
        let message = err.message();
        let (path, actionable) = extract_path_and_action(err);
        ShredErrorDto { error_type: error_type_name(err), message, path, actionable }
    }
}

} // verus!
