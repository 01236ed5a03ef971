//! Decisions of the deletion commands: the legacy argument mapping, the
//! validation of stored targets and the grouping of drives.

use vstd::prelude::*;
use crate::text::{cat, cat4, chars_of, decimal, owned, str_eq, u64_to_string};
use crate::scan::{trim, trim_seq};
use crate::pathname::{file_name, file_name_of, is_absolute, path_is_absolute};
use crate::shredder::types::{DeletionMethod, DeletionPolicy, FileMetadata, VerificationLevel, WriteCheck};
use crate::shredder::root_execution::types::{TargetAvailability, TargetKind, TargetMetadataDto, VaultTarget};
use crate::shredder::errors::{shred_error_message, ShredError};
use crate::shredder::validation::{classify_path, validate_path, PathClassification, PathInspector};
use crate::drive::info::DriveInfo;
use crate::shredder::algorithms::{algorithm_max_passes, all_algorithms};

verus! {

/// The deletion method a legacy algorithm index stands for: the DoD index
/// is the fixed three-pass method, the NIST and random indexes are the
/// automatic single pass, any other index has none.
pub open spec fn legacy_method(index: int) -> Option<DeletionMethod> {
    if index == 0 || index == 2 {
        Some(DeletionMethod::Automatic)
    } else if index == 1 {
        Some(DeletionMethod::LegacyThreePass)
    } else {
        None
    }
}

/// Only the DoD index (1) selects the three-pass method; the NIST (0) and
/// random (2) indexes select the automatic single pass, and no other index
/// selects a method.
pub proof fn lemma_only_dod_is_three_pass(index: int)
    ensures
        legacy_method(index) == Some(DeletionMethod::LegacyThreePass) <==> index == 1,
        index == 0 || index == 2 ==> legacy_method(index) == Some(DeletionMethod::Automatic),
        index < 0 || index > 2 ==> legacy_method(index) is None,
{
}

/// The write check a legacy verification level stands for.
pub open spec fn legacy_write_check(level: VerificationLevel) -> WriteCheck {
    match level {
        VerificationLevel::Off => WriteCheck::Off,
        VerificationLevel::Sample => WriteCheck::Spot,
        VerificationLevel::Full => WriteCheck::Full,
    }
}

/// Maps the legacy algorithm index and verification level to a deletion
/// policy; an unknown index is refused.
pub fn policy_from_legacy_args(algorithm_index: usize, verification_level: VerificationLevel) -> (r: Result<DeletionPolicy, String>)
    ensures
        match legacy_method(algorithm_index as int) {
            Some(m) => r == Ok::<DeletionPolicy, String>(DeletionPolicy { method: m, write_check: legacy_write_check(verification_level) }),
            None => r matches Err(msg) && msg@ == "Invalid algorithm index: "@ + decimal(algorithm_index as nat),
        },
        algorithm_index == 1 ==> (r matches Ok(p) && p.method == DeletionMethod::LegacyThreePass),
        algorithm_index == 0 || algorithm_index == 2 ==> (r matches Ok(p) && p.method == DeletionMethod::Automatic),
        algorithm_index > 2 ==> r is Err,
{
    let method = if algorithm_index == 0 || algorithm_index == 2 {
        DeletionMethod::Automatic
    } else if algorithm_index == 1 {
        DeletionMethod::LegacyThreePass
    } else {
        let n = u64_to_string(algorithm_index as u64);
        return Err(cat("Invalid algorithm index: ", n.as_str()));
    };
    let write_check = match verification_level {
        VerificationLevel::Off => WriteCheck::Off,
        VerificationLevel::Sample => WriteCheck::Spot,
        VerificationLevel::Full => WriteCheck::Full,
    };
    Ok(DeletionPolicy { method, write_check })
}

/// Checks the legacy execution arguments against the algorithm table and
/// maps them to a deletion policy: the index must name an algorithm and the
/// pass count may not exceed that algorithm's maximum.
pub fn check_legacy_arguments(algorithm_index: usize, passes: u32, verification_level: VerificationLevel) -> (r: Result<DeletionPolicy, String>)
    ensures
        algorithm_index >= 3 ==> (r matches Err(m) && m@ == "Invalid algorithm index: "@ + decimal(algorithm_index as nat)),
        algorithm_index < 3 && passes > algorithm_max_passes(algorithm_index as int) ==> (r matches Err(m)
            && m@ == "Passes "@ + decimal(passes as nat) + " exceeds maximum "@ + decimal(algorithm_max_passes(algorithm_index as int) as nat)),
        algorithm_index < 3 && passes <= algorithm_max_passes(algorithm_index as int) ==> r == Ok::<DeletionPolicy, String>(DeletionPolicy {
            method: legacy_method(algorithm_index as int).unwrap(),
            write_check: legacy_write_check(verification_level),
        }),
{
    let algorithms = all_algorithms();
    if algorithm_index >= algorithms.len() {
        let n = u64_to_string(algorithm_index as u64);
        return Err(cat("Invalid algorithm index: ", n.as_str()));
    }
    let max = algorithms[algorithm_index].max_passes;
    if passes > max {
        let p = u64_to_string(passes as u64);
        let m = u64_to_string(max as u64);
        let text = cat4("Passes ", p.as_str(), " exceeds maximum ", m.as_str());
        return Err(text);
    }
    policy_from_legacy_args(algorithm_index, verification_level)
}

/// The display name of a target path: its last component, `unknown` when
/// it has none.
pub open spec fn target_name_of(path: Seq<char>) -> Seq<char> {
    match file_name_of(path) {
        Some(n) => n,
        None => "unknown"@,
    }
}

/// The display name of a target path.
pub fn target_name(path: &str) -> (r: String)
    ensures
        r@ == target_name_of(path@),
{
    match file_name(path) {
        Some(n) => n,
        None => owned("unknown"),
    }
}

/// The name under which a target kind is reported.
pub open spec fn kind_text(kind: TargetKind) -> Seq<char> {
    match kind {
        TargetKind::File => "File"@,
        TargetKind::Directory => "Directory"@,
        TargetKind::Link => "Link"@,
        TargetKind::UnknownLegacy => "UnknownLegacy"@,
    }
}

fn kind_name(kind: TargetKind) -> (r: &'static str)
    ensures
        r@ == kind_text(kind),
{
    match kind {
        TargetKind::File => "File",
        TargetKind::Directory => "Directory",
        TargetKind::Link => "Link",
        TargetKind::UnknownLegacy => "UnknownLegacy",
    }
}

/// What a no-follow inspection of a stored target found.
#[derive(Debug, Clone)]
pub enum TargetInspection {
    /// Nothing exists at the path.
    NotFound,
    /// The inspection failed; the text describes the failure.
    Failed(String),
    /// Something exists; its kind is absent when it is neither a regular
    /// file, a directory nor a link.
    Found { kind: Option<TargetKind>, size: u64 },
}

/// The kind reported for a target once its actual kind is known: a legacy
/// target takes the actual kind, any other keeps the stored one.
pub open spec fn reported_kind(stored: TargetKind, actual: TargetKind) -> TargetKind {
    if stored == TargetKind::UnknownLegacy { actual } else { stored }
}

/// Kind, availability, reason and size reported for a stored target, given
/// whether its path is absolute, whether it is on the network, what
/// inspection found and what path validation answered. The checks run in
/// this order and the first that fails decides.
pub open spec fn target_verdict(
    target: VaultTarget,
    absolute: bool,
    network: bool,
    inspection: TargetInspection,
    validation: Result<(), ShredError>,
) -> (TargetKind, TargetAvailability, Option<Seq<char>>, u64) {
    if trim_seq(target.path@).len() == 0 {
        (target.kind, TargetAvailability::Blocked, Some("Target path is empty"@), 0)
    } else if !absolute {
        (target.kind, TargetAvailability::Blocked, Some("Relative paths are not safe execution roots"@), 0)
    } else if network {
        (target.kind, TargetAvailability::Blocked, Some("Network roots are not safe execution roots"@), 0)
    } else {
        match inspection {
            TargetInspection::NotFound => if target.kind == TargetKind::UnknownLegacy {
                (TargetKind::UnknownLegacy, TargetAvailability::Blocked, Some("Legacy target is missing"@), 0)
            } else {
                (target.kind, TargetAvailability::Missing, None, 0)
            },
            TargetInspection::Failed(m) =>
                (target.kind, TargetAvailability::Blocked, Some("Cannot inspect target: "@ + m@), 0),
            TargetInspection::Found { kind, size } => match kind {
                None => (target.kind, TargetAvailability::Blocked,
                    Some("Target is not a regular file, directory, or link"@), size),
                Some(actual) => match validation {
                    Err(e) => (reported_kind(target.kind, actual), TargetAvailability::Blocked,
                        Some(shred_error_message(e)), size),
                    Ok(_) => if actual == TargetKind::Link {
                        (reported_kind(target.kind, actual), TargetAvailability::Blocked,
                            Some("Symbolic links are not safe execution roots"@), size)
                    } else if target.kind == TargetKind::UnknownLegacy || target.kind == actual {
                        (actual, TargetAvailability::Ready, None, size)
                    } else {
                        (target.kind, TargetAvailability::Blocked,
                            Some("Target kind mismatch: expected "@ + kind_text(target.kind) + ", found "@ + kind_text(actual)),
                            size)
                    },
                },
            },
        }
    }
}

/// The text of an optional string.
pub open spec fn reason_view(r: Option<String>) -> Option<Seq<char>> {
    match r {
        Some(s) => Some(s@),
        None => None,
    }
}

/// `r` reports `target` with the given verdict.
pub open spec fn reports(r: TargetMetadataDto, target: VaultTarget, verdict: (TargetKind, TargetAvailability, Option<Seq<char>>, u64)) -> bool {
    &&& r.path@ == target.path@
    &&& r.name@ == target_name_of(target.path@)
    &&& r.kind == verdict.0
    &&& r.availability == verdict.1
    &&& reason_view(r.reason) == verdict.2
    &&& r.size == verdict.3
}

fn metadata_for_target(
    target: &VaultTarget,
    kind: TargetKind,
    availability: TargetAvailability,
    reason: Option<String>,
    size: u64,
) -> (r: TargetMetadataDto)
    ensures
        r.path@ == target.path@,
        r.name@ == target_name_of(target.path@),
        r.kind == kind,
        r.availability == availability,
        reason_view(r.reason) == reason_view(reason),
        r.size == size,
{
    TargetMetadataDto {
        path: owned(target.path.as_str()),
        kind,
        availability,
        reason,
        name: target_name(target.path.as_str()),
        size,
    }
}

fn blocked(target: &VaultTarget, kind: TargetKind, reason: String, size: u64) -> (r: TargetMetadataDto)
    ensures
        reports(r, *target, (kind, TargetAvailability::Blocked, Some(reason@), size)),
{
    metadata_for_target(target, kind, TargetAvailability::Blocked, Some(reason), size)
}

/// A stored target is offered for deletion only as what it was stored as:
/// it is ready only when its path is usable, the inspection found it, it
/// is not a link, validation passed, and (unless it is a legacy target of
/// unknown kind) the kind found is the kind stored; a target whose kind
/// changed is blocked with the mismatch named.
pub proof fn lemma_ready_only_as_stored(
    target: VaultTarget,
    absolute: bool,
    network: bool,
    inspection: TargetInspection,
    validation: Result<(), ShredError>,
)
    ensures
        target_verdict(target, absolute, network, inspection, validation).1 == TargetAvailability::Ready ==> {
            &&& trim_seq(target.path@).len() > 0 && absolute && !network && validation is Ok
            &&& inspection matches TargetInspection::Found { kind: Some(actual), .. }
            &&& inspection->Found_kind->Some_0 != TargetKind::Link
            &&& target.kind == TargetKind::UnknownLegacy || inspection->Found_kind->Some_0 == target.kind
            &&& target_verdict(target, absolute, network, inspection, validation).0 == inspection->Found_kind->Some_0
        },
        ({
            &&& trim_seq(target.path@).len() > 0 && absolute && !network && validation is Ok
            &&& target.kind != TargetKind::UnknownLegacy
            &&& inspection matches TargetInspection::Found { kind: Some(actual), .. }
            &&& inspection->Found_kind->Some_0 != TargetKind::Link
            &&& inspection->Found_kind->Some_0 != target.kind
        }) ==> target_verdict(target, absolute, network, inspection, validation) == (target.kind, TargetAvailability::Blocked,
            Some("Target kind mismatch: expected "@ + kind_text(target.kind) + ", found "@ + kind_text(inspection->Found_kind->Some_0)),
            inspection->Found_size),
{
}

/// Reports a stored target from the answers of the filesystem queries.
pub fn decide_target(
    target: &VaultTarget,
    absolute: bool,
    network: bool,
    inspection: &TargetInspection,
    validation: &Result<(), ShredError>,
) -> (r: TargetMetadataDto)
    ensures
        reports(r, *target, target_verdict(*target, absolute, network, *inspection, *validation)),
        r.availability == TargetAvailability::Ready ==> (inspection matches TargetInspection::Found { kind: Some(actual), .. }
            && actual != TargetKind::Link && r.kind == actual
            && (target.kind == TargetKind::UnknownLegacy || actual == target.kind)) && validation is Ok && absolute && !network,
        (inspection matches TargetInspection::Found { kind: Some(actual), .. } && target.kind != TargetKind::UnknownLegacy
            && actual != TargetKind::Link && actual != target.kind && validation is Ok && absolute && !network
            && trim_seq(target.path@).len() > 0) ==> r.availability == TargetAvailability::Blocked && r.kind == target.kind
            && reason_view(r.reason) == Some("Target kind mismatch: expected "@ + kind_text(target.kind) + ", found "@
                + kind_text(inspection->Found_kind->Some_0)),
{
    proof {
        lemma_ready_only_as_stored(*target, absolute, network, *inspection, *validation);
    }
    let trimmed = trim(target.path.as_str());
    if trimmed.unicode_len() == 0 {
        return blocked(target, target.kind, owned("Target path is empty"), 0);
    }
    if !absolute {
        return blocked(target, target.kind, owned("Relative paths are not safe execution roots"), 0);
    }
    if network {
        return blocked(target, target.kind, owned("Network roots are not safe execution roots"), 0);
    }
    match inspection {
        TargetInspection::NotFound => {
            if target.kind == TargetKind::UnknownLegacy {
                blocked(target, TargetKind::UnknownLegacy, owned("Legacy target is missing"), 0)
            } else {
                metadata_for_target(target, target.kind, TargetAvailability::Missing, None, 0)
            }
        },
        TargetInspection::Failed(m) => blocked(target, target.kind, cat("Cannot inspect target: ", m.as_str()), 0),
        TargetInspection::Found { kind, size } => match kind {
            None => blocked(target, target.kind, owned("Target is not a regular file, directory, or link"), *size),
            Some(actual) => {
                let actual = *actual;
                let shown = if target.kind == TargetKind::UnknownLegacy { actual } else { target.kind };
                match validation {
                    Err(e) => blocked(target, shown, e.message(), *size),
                    Ok(_) => {
                        if actual == TargetKind::Link {
                            blocked(target, shown, owned("Symbolic links are not safe execution roots"), *size)
                        } else if target.kind == TargetKind::UnknownLegacy || target.kind == actual {
                            metadata_for_target(target, actual, TargetAvailability::Ready, None, *size)
                        } else {
                            let mut m = cat4("Target kind mismatch: expected ", kind_name(target.kind), ", found ", kind_name(actual));
                            proof {
                                assert(m@ == "Target kind mismatch: expected "@ + kind_text(target.kind) + ", found "@ + kind_text(actual));
                            }
                            blocked(target, target.kind, m, *size)
                        }
                    },
                }
            },
        },
    }
}

fn is_ascii_letter(c: char) -> (r: bool)
    ensures
        r == ascii_letter(c),
{
    ('a' <= c && c <= 'z') || ('A' <= c && c <= 'Z')
}

/// An ASCII letter.
pub open spec fn ascii_letter(c: char) -> bool {
    ('a' <= c && c <= 'z') || ('A' <= c && c <= 'Z')
}

/// A path separator on the given host.
pub open spec fn host_separator(c: char, windows: bool) -> bool {
    c == '/' || (windows && c == '\\')
}

/// The path is absolute on the host: on Windows a drive letter with a root
/// (`C:\`) or a UNC prefix (`\\server`), elsewhere a leading `/`.
pub open spec fn host_absolute(p: Seq<char>, windows: bool) -> bool {
    if windows {
        (p.len() >= 3 && ascii_letter(p[0]) && p[1] == ':' && host_separator(p[2], true))
            || (p.len() >= 2 && host_separator(p[0], true) && host_separator(p[1], true))
    } else {
        is_absolute(p)
    }
}

fn is_windows_separator(c: char) -> (r: bool)
    ensures
        r == host_separator(c, true),
{
    c == '/' || c == '\\'
}

/// Whether the path is absolute on the host.
pub fn host_path_is_absolute(path: &str, windows: bool) -> (r: bool)
    ensures
        r == host_absolute(path@, windows),
{
    let c = chars_of(path);
    if !windows {
        return path_is_absolute(path);
    }
    (c.len() >= 3 && is_ascii_letter(c[0]) && c[1] == ':' && is_windows_separator(c[2]))
        || (c.len() >= 2 && is_windows_separator(c[0]) && is_windows_separator(c[1]))
}

/// The filesystem queries target validation makes, beyond those of path
/// validation. Nothing is assumed of what an implementation returns.
pub trait TargetProbe: PathInspector {
    /// A no-follow inspection of the path.
    fn inspect_target(&self, path: &str) -> TargetInspection;
}

/// Validates one stored target: empty, relative and network paths are
/// blocked, a missing target is missing (a missing legacy target is
/// blocked), links and protected paths are blocked, and a target is ready
/// only when it exists with the stored kind (any kind for a legacy target).
pub fn validate_target<P: TargetProbe>(target: &VaultTarget, probe: &P) -> (r: TargetMetadataDto)
    ensures
        exists|windows: bool, network: bool, inspection: TargetInspection, validation: Result<(), ShredError>|
            reports(r, *target, #[trigger] target_verdict(*target, host_absolute(target.path@, windows), network, inspection, validation)),
        trim_seq(target.path@).len() == 0 ==> r.availability == TargetAvailability::Blocked
            && reason_view(r.reason) == Some("Target path is empty"@),
{
    let path = target.path.as_str();
    let windows = probe.is_windows();
    let absolute = host_path_is_absolute(path, windows);
    let trimmed = trim(path);
    if trimmed.unicode_len() == 0 || !absolute {
        let none = TargetInspection::NotFound;
        let fine: Result<(), ShredError> = Ok(());
        let r = decide_target(target, absolute, false, &none, &fine);
        assert(reports(r, *target, target_verdict(*target, host_absolute(target.path@, windows), false, none, fine)));
        return r;
    }
    let network = probe.is_network(path);
    if network {
        return decide_target(target, absolute, true, &TargetInspection::NotFound, &Ok(()));
    }
    let inspection = probe.inspect_target(path);
    let validation = match &inspection {
        TargetInspection::Found { kind: Some(_), .. } => validate_path(path, false, probe),
        _ => Ok(()),
    };
    let r = decide_target(target, absolute, false, &inspection, &validation);
    assert(reports(r, *target, target_verdict(*target, host_absolute(target.path@, windows), false, inspection, validation)));
    r
}

/// Validates every stored target, one record per target in order.
pub fn validate_targets<P: TargetProbe>(targets: &Vec<VaultTarget>, probe: &P) -> (r: Result<Vec<TargetMetadataDto>, String>)
    ensures
        r matches Ok(v) && v@.len() == targets@.len()
            && forall|i: int| 0 <= i < v@.len() ==> {
                &&& (#[trigger] v@[i]).path@ == targets@[i].path@
                &&& exists|windows: bool, network: bool, inspection: TargetInspection, validation: Result<(), ShredError>|
                    reports(v@[i], targets@[i], #[trigger] target_verdict(targets@[i], host_absolute(targets@[i].path@, windows), network, inspection, validation))
            },
{
    let mut out: Vec<TargetMetadataDto> = Vec::new();
    let mut i: usize = 0;
    while i < targets.len()
        invariant
            i <= targets@.len(),
            out@.len() == i,
            forall|j: int| 0 <= j < i ==> {
                &&& (#[trigger] out@[j]).path@ == targets@[j].path@
                &&& exists|windows: bool, network: bool, inspection: TargetInspection, validation: Result<(), ShredError>|
                    reports(out@[j], targets@[j], #[trigger] target_verdict(targets@[j], host_absolute(targets@[j].path@, windows), network, inspection, validation))
            },
        decreases targets.len() - i,
    {
        let m = validate_target(&targets[i], probe);
        out.push(m);
        i = i + 1;
    }
    Ok(out)
}

/// What the selection list shows for a path, given how it was classified
/// and what a no-follow inspection found: a shell shortcut that is itself a
/// regular file is shown as a file with its target; a regular file or a
/// directory is shown as itself; anything else (links included) is left out.
pub open spec fn selection_record_kind(classification: PathClassification, inspection: TargetInspection) -> Option<TargetKind> {
    match inspection {
        TargetInspection::Found { kind: Some(TargetKind::File), .. } => Some(TargetKind::File),
        TargetInspection::Found { kind: Some(TargetKind::Directory), .. } => match classification {
            PathClassification::Normal => Some(TargetKind::Directory),
            PathClassification::Shortcut { .. } => None,
        },
        _ => None,
    }
}

/// The record a selected path contributes to the selection list, if any.
pub fn selection_record(path: &str, classification: PathClassification, inspection: &TargetInspection) -> (r: Option<FileMetadata>)
    ensures
        match selection_record_kind(classification, *inspection) {
            None => r is None,
            Some(k) => r matches Some(m) && m.kind == k && m.path@ == path@ && m.name@ == target_name_of(path@)
                && m.size == inspection->size
                && m.is_shortcut == (classification is Shortcut)
                && match classification {
                    PathClassification::Shortcut { target } => m.shortcut_target matches Some(t) && t@ == target@,
                    PathClassification::Normal => m.shortcut_target is None,
                },
        },
{
    let (kind, size) = match inspection {
        TargetInspection::Found { kind: Some(k), size } => (*k, *size),
        _ => return None,
    };
    match classification {
        PathClassification::Shortcut { target } => {
            if kind != TargetKind::File {
                return None;
            }
            Some(FileMetadata {
                path: owned(path),
                name: target_name(path),
                size,
                kind: TargetKind::File,
                is_shortcut: true,
                shortcut_target: Some(target),
            })
        },
        PathClassification::Normal => {
            if kind != TargetKind::File && kind != TargetKind::Directory {
                return None;
            }
            Some(FileMetadata {
                path: owned(path),
                name: target_name(path),
                size,
                kind,
                is_shortcut: false,
                shortcut_target: None,
            })
        },
    }
}

/// Every record names one of the chosen paths.
pub open spec fn records_from(records: Seq<FileMetadata>, paths: Seq<String>) -> bool {
    forall|i: int| 0 <= i < records.len() ==> exists|j: int| 0 <= j < paths.len()
        && (#[trigger] records[i]).path@ == (#[trigger] paths[j])@
}

/// The selection list for the chosen paths, in order: each path that can be
/// classified contributes its record, if it has one; the error list stays
/// empty, since refusals are reported when deletion runs.
pub fn validate_paths<P: TargetProbe>(paths: &Vec<String>, probe: &P) -> (r: Result<(Vec<FileMetadata>, Vec<String>), String>)
    ensures
        r is Ok,
        r->Ok_0.1@.len() == 0,
        r->Ok_0.0@.len() <= paths@.len(),
        records_from(r->Ok_0.0@, paths@),
{
    let mut valid: Vec<FileMetadata> = Vec::new();
    let mut i: usize = 0;
    while i < paths.len()
        invariant
            i <= paths@.len(),
            valid@.len() <= i,
            records_from(valid@, paths@),
        decreases paths.len() - i,
    {
        let path = paths[i].as_str();
        if let Ok(classification) = classify_path(path, probe) {
            let inspection = probe.inspect_target(path);
            if let Some(record) = selection_record(path, classification, &inspection) {
                valid.push(record);
                assert(valid@.last().path@ == paths@[i as int]@);
            }
        }
        i = i + 1;
    }
    let errors: Vec<String> = Vec::new();
    assert(errors@.len() == 0);
    Ok((valid, errors))
}

/// Drive detection for one path. Nothing is assumed of what an
/// implementation returns.
pub trait DriveDetector {
    /// The drive holding `path`.
    fn detect(&self, path: &str) -> Result<DriveInfo, String>;
}

/// No two drives in `drives` share a drive key.
pub open spec fn distinct_drives(drives: Seq<DriveInfo>) -> bool {
    forall|i: int, j: int| 0 <= i < j < drives.len() ==> (#[trigger] drives[i]).drive_letter@ != (#[trigger] drives[j]).drive_letter@
}

/// One drive per distinct drive key among the paths' drives, in the order
/// the keys were first seen; the first detection error stops the scan.
pub fn get_all_drive_info<D: DriveDetector>(paths: &Vec<String>, detector: &D) -> (r: Result<Vec<DriveInfo>, String>)
    ensures
        r matches Ok(v) ==> distinct_drives(v@) && v@.len() <= paths@.len(),
        r matches Ok(v) ==> (v@.len() == 0 <==> paths@.len() == 0),
        paths@.len() == 0 ==> (r matches Ok(v) && v@.len() == 0),
{
    let mut drives: Vec<DriveInfo> = Vec::new();
    let mut i: usize = 0;
    while i < paths.len()
        invariant
            i <= paths@.len(),
            drives@.len() <= i,
            i > 0 ==> drives@.len() > 0,
            distinct_drives(drives@),
        decreases paths.len() - i,
    {
        let info = detector.detect(paths[i].as_str())?;
        let mut seen = false;
        let mut k: usize = 0;
        while k < drives.len()
            invariant
                k <= drives@.len(),
                seen ==> drives@.len() > 0,
                !seen ==> forall|j: int| 0 <= j < k ==> (#[trigger] drives@[j]).drive_letter@ != info.drive_letter@,
            decreases drives.len() - k,
        {
            if str_eq(drives[k].drive_letter.as_str(), info.drive_letter.as_str()) {
                seen = true;
            }
            k = k + 1;
        }
        if !seen {
            drives.push(info);
        }
        i = i + 1;
    }
    Ok(drives)
}

} // verus!
