//! Windows drive classification from the drive type and the seek penalty.

use vstd::prelude::*;
use crate::drive::info::{DriveInfo, DriveType};
use crate::text::{cat, chars_of, seq_starts_with, str_starts_with, string_of};

verus! {

/// `GetDriveTypeW`: a removable drive.
pub const DRIVE_REMOVABLE: u32 = 2;
/// `GetDriveTypeW`: a fixed drive.
pub const DRIVE_FIXED: u32 = 3;
/// `GetDriveTypeW`: a network drive.
pub const DRIVE_REMOTE: u32 = 4;

/// The class of a Windows drive from its drive type and, for local drives,
/// whether it incurs a seek penalty. A removable drive of unknown kind counts
/// as a hard disk.
pub open spec fn windows_class(raw: u32, seek_penalty: Option<bool>) -> DriveType {
    if raw == DRIVE_REMOTE {
        DriveType::Network
    } else if raw == DRIVE_REMOVABLE {
        if seek_penalty == Some(false) { DriveType::UsbSsd } else { DriveType::UsbHdd }
    } else if raw == DRIVE_FIXED {
        match seek_penalty {
            Some(false) => DriveType::Ssd,
            Some(true) => DriveType::Hdd,
            None => DriveType::Unknown,
        }
    } else {
        DriveType::Unknown
    }
}

/// A remote drive (type 4) is a network drive whatever else is known; for a
/// removable (type 2) or fixed (type 3) drive the absence of a seek penalty
/// means solid-state and its presence a hard disk, never the other way
/// round; a removable drive of unknown kind is a USB hard disk, a fixed one
/// stays unknown, and any other drive type is unknown.
pub proof fn lemma_seek_penalty_decides(raw: u32, seek_penalty: Option<bool>)
    ensures
        raw == 4 ==> windows_class(raw, seek_penalty) == DriveType::Network,
        raw == 2 && seek_penalty == Some(false) ==> windows_class(raw, seek_penalty) == DriveType::UsbSsd,
        raw == 2 && seek_penalty != Some(false) ==> windows_class(raw, seek_penalty) == DriveType::UsbHdd,
        raw == 3 && seek_penalty == Some(false) ==> windows_class(raw, seek_penalty) == DriveType::Ssd,
        raw == 3 && seek_penalty == Some(true) ==> windows_class(raw, seek_penalty) == DriveType::Hdd,
        raw == 3 && seek_penalty is None ==> windows_class(raw, seek_penalty) == DriveType::Unknown,
        raw != 2 && raw != 3 && raw != 4 ==> windows_class(raw, seek_penalty) == DriveType::Unknown,
        seek_penalty == Some(false) ==> windows_class(raw, seek_penalty) != DriveType::Hdd
            && windows_class(raw, seek_penalty) != DriveType::UsbHdd,
        seek_penalty == Some(true) ==> windows_class(raw, seek_penalty) != DriveType::Ssd
            && windows_class(raw, seek_penalty) != DriveType::UsbSsd,
{
}

/// Classifies a Windows drive.
pub fn windows_drive_type(raw: u32, seek_penalty: Option<bool>) -> (r: DriveType)
    ensures
        r == windows_class(raw, seek_penalty),
        raw == 4 ==> r == DriveType::Network,
        raw == 2 && seek_penalty == Some(false) ==> r == DriveType::UsbSsd,
        raw == 2 && seek_penalty != Some(false) ==> r == DriveType::UsbHdd,
        raw == 3 && seek_penalty == Some(false) ==> r == DriveType::Ssd,
        raw == 3 && seek_penalty == Some(true) ==> r == DriveType::Hdd,
        raw == 3 && seek_penalty is None ==> r == DriveType::Unknown,
        raw != 2 && raw != 3 && raw != 4 ==> r == DriveType::Unknown,
{
    proof {
        lemma_seek_penalty_decides(raw, seek_penalty);
    }
    if raw == DRIVE_REMOTE {
        DriveType::Network
    } else if raw == DRIVE_REMOVABLE {
        match seek_penalty {
            Some(false) => DriveType::UsbSsd,
            _ => DriveType::UsbHdd,
        }
    } else if raw == DRIVE_FIXED {
        match seek_penalty {
            Some(false) => DriveType::Ssd,
            Some(true) => DriveType::Hdd,
            None => DriveType::Unknown,
        }
    } else {
        DriveType::Unknown
    }
}

/// A UNC path: it begins with two backslashes or two slashes.
pub open spec fn is_unc_text(path: Seq<char>) -> bool {
    seq_starts_with(path, "\\\\"@) || seq_starts_with(path, "//"@)
}

/// The drive root of a path with a drive letter: the letter, a colon and a
/// backslash.
pub open spec fn drive_root_text(path: Seq<char>) -> Option<Seq<char>> {
    if path.len() >= 2 && path[1] == ':' { Some(seq![path[0]] + ":\\"@) } else { None }
}

/// The drive root of a path with a drive letter.
pub fn drive_root(path: &str) -> (r: Option<String>)
    ensures
        match r {
            Some(s) => drive_root_text(path@) == Some(s@),
            None => drive_root_text(path@) is None,
        },
{
    let c = chars_of(path);
    if c.len() >= 2 && c[1] == ':' {
        let mut one: Vec<char> = Vec::new();
        one.push(c[0]);
        let l = string_of(one.as_slice());
        Some(cat(l.as_str(), ":\\"))
    } else {
        None
    }
}

/// The label of a local drive: the volume label, or "Local Disk" when it
/// could not be read.
pub open spec fn windows_label_text(label: Option<String>) -> Seq<char> {
    match label {
        Some(l) => l@,
        None => "Local Disk"@,
    }
}

/// Queries a Windows host for what drive detection needs. Nothing is assumed
/// of what an implementation returns.
pub trait WindowsDriveProbe {
    /// `GetDriveTypeW` of a drive root.
    fn drive_type(&self, root: &str) -> u32;
    /// The volume label of a drive root, when it could be read.
    fn volume_label(&self, root: &str) -> Option<String>;
    /// Total and free bytes of a drive root; zero when unavailable.
    fn free_space(&self, root: &str) -> (u64, u64);
    /// Whether the volume incurs a seek penalty, when the device could be queried.
    fn seek_penalty(&self, drive_letter: &str) -> Option<bool>;
}

/// Detects the drive holding `path` on Windows. UNC paths are network
/// shares; a path without a drive letter is an error.
pub fn detect_drive_info<P: WindowsDriveProbe>(path: &str, probe: &P) -> (r: Result<DriveInfo, String>)
    ensures
        is_unc_text(path@) ==> (r matches Ok(d) && d.drive_type == DriveType::Network),
        !is_unc_text(path@) ==> (r is Err <==> drive_root_text(path@) is None),
        !is_unc_text(path@) && drive_root_text(path@) is Some ==> (r matches Ok(d)
            && d.drive_letter@ == seq![path@[0], ':']),
        !is_unc_text(path@) ==> (r matches Ok(d) ==> exists|raw: u32, seek: Option<bool>|
            #[trigger] windows_class(raw, seek) == d.drive_type
            && (raw != DRIVE_REMOVABLE && raw != DRIVE_FIXED ==> seek is None)),
        !is_unc_text(path@) ==> (r matches Ok(d) ==> exists|label: Option<String>|
            #[trigger] windows_label_text(label) == d.label@),
{
    if str_starts_with(path, "\\\\") || str_starts_with(path, "//") {
        return Ok(DriveInfo {
            drive_letter: String::from_str("Network"),
            drive_type: DriveType::Network,
            label: String::from_str("Network Share"),
            total_bytes: 0,
            free_bytes: 0,
        });
    }
    let root = match drive_root(path) {
        Some(r) => r,
        None => return Err(cat("Cannot determine drive for path: ", path)),
    };
    let raw = probe.drive_type(root.as_str());
    let label_answer = probe.volume_label(root.as_str());
    let ghost label0 = label_answer;
    let label = match label_answer {
        Some(l) => l,
        None => String::from_str("Local Disk"),
    };
    assert(windows_label_text(label0) == label@);
    let (total_bytes, free_bytes) = probe.free_space(root.as_str());
    let c = chars_of(path);
    let mut letter_chars: Vec<char> = Vec::new();
    letter_chars.push(c[0]);
    letter_chars.push(':');
    let drive_letter = string_of(letter_chars.as_slice());
    proof {
        assert(letter_chars@ =~= seq![path@[0], ':']);
    }
    let seek = if raw == DRIVE_REMOVABLE || raw == DRIVE_FIXED {
        probe.seek_penalty(drive_letter.as_str())
    } else {
        None
    };
    let drive_type = windows_drive_type(raw, seek);
    assert(windows_class(raw, seek) == drive_type);
    Ok(DriveInfo { drive_letter, drive_type, label, total_bytes, free_bytes })
}

} // verus!
