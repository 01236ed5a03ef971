//! The policy-driven shredder of one already-open regular file.

use vstd::prelude::*;
use crate::shredder::engine::{overwrite_file, overwrite_sound, OverwriteOutcome, OverwriteState, OverwriteTarget};
use crate::shredder::errors::ShredError;
use crate::shredder::root_execution::plan::{FileShredRequest, FileShredResult, NodeIdentity, NodeKind, OpenFileShredder};
use crate::shredder::traits::ProgressReporter;
use crate::shredder::types::{DeletionPolicy, ShredResult, WriteCheckOutcome};

verus! {

/// What the shredder reads from the metadata of an open handle.
#[derive(Debug, Clone, Copy)]
pub struct OpenFileFacts {
    /// The handle refers to a regular file.
    pub is_file: bool,
    /// Its length in bytes.
    pub len: u64,
}

/// An already-open file the policy shredder overwrites. Nothing is assumed of
/// what an implementation returns.
pub trait ShredFile: OverwriteTarget {
    /// Metadata of the open handle.
    fn facts(&mut self) -> Result<OpenFileFacts, ShredError>;
    /// Hard-link count of the open handle, queried without reopening by path.
    fn link_count(&mut self) -> Result<u64, ShredError>;
}

/// Overwrites already-open regular files under one deletion policy: identity
/// and kind checks, a hard-link recheck on the open handle, the overwrite
/// passes and the final write check. Renaming and unlinking stay with the
/// tree adapter.
pub struct PolicyFileShredder<P: ProgressReporter> {
    policy: DeletionPolicy,
    progress: P,
}

/// A completion event is successful when every pass ran and no check failed.
pub open spec fn completion_success(state: OverwriteState, check: WriteCheckOutcome) -> bool {
    state == OverwriteState::Completed && check != WriteCheckOutcome::Failed
}

/// The completion event sent to the progress reporter; issues travel in the
/// structured result instead.
pub fn completion_record(state: OverwriteState, check: WriteCheckOutcome, passes: u32, bytes: u64) -> (r: ShredResult)
    ensures
        r.success == completion_success(state, check),
        r.passes_completed == passes,
        r.bytes_written == bytes,
        r.errors@.len() == 0,
{
    ShredResult {
        success: state == OverwriteState::Completed && check != WriteCheckOutcome::Failed,
        passes_completed: passes,
        bytes_written: bytes,
        errors: Vec::new(),
    }
}

/// The execution-time hard-link rule on an already-open handle: a failed
/// query blocks, and so does any count above one.
pub fn validate_open_handle_link_count(path: &str, link_count: Result<u64, ShredError>) -> (r: Result<(), ShredError>)
    ensures
        link_count matches Err(e) ==> r == Err::<(), ShredError>(e),
        link_count matches Ok(c) ==> (r is Ok <==> c <= 1),
        link_count matches Ok(c) ==> (c > 1 ==> (r matches Err(ShredError::HardLinkBlocked { path: p, count })
            && p@ == path@ && count == c)),
{
    let count = match link_count {
        Ok(c) => c,
        Err(e) => return Err(e),
    };
    if count > 1 {
        return Err(ShredError::HardLinkBlocked { path: String::from_str(path), count });
    }
    Ok(())
}

/// The per-file result an overwrite's outcome gives: an overwrite that wrote
/// nothing is a not-started result carrying its error.
pub open spec fn file_result_of(res: FileShredResult, outcome: Result<OverwriteOutcome, ShredError>) -> bool {
    match outcome {
        Err(e) => res.overwrite_state == OverwriteState::NotStarted && res.write_check_status == WriteCheckOutcome::NotRun
            && res.bytes_shredded == 0 && res.issues@ == seq![e],
        Ok(o) => res.overwrite_state == o.state && res.write_check_status == o.write_check
            && res.bytes_shredded == o.bytes_written && res.issues@ == o.issues@,
    }
}

/// The size the open-file shredder overwrites, when it admits the handle: a
/// regular-file identity, a handle whose metadata reads as a regular file,
/// a link count of at most one and a size it can count passes of.
pub open spec fn admitted_size(
    kind: NodeKind,
    facts: Result<OpenFileFacts, ShredError>,
    link_count: Result<u64, ShredError>,
) -> Option<u64> {
    match (facts, link_count) {
        (Ok(f), Ok(c)) => if kind == NodeKind::RegularFile && f.is_file && c <= 1 && f.len <= u64::MAX / 4 {
            Some(f.len)
        } else {
            None
        },
        _ => None,
    }
}

/// The refusal the open-file shredder gives a handle it does not admit, in
/// the order it checks: the identity's kind, the metadata query, the kind of
/// the handle, the link-count query, the link count, the size.
pub open spec fn admission_refusal(
    e: ShredError,
    kind: NodeKind,
    facts: Result<OpenFileFacts, ShredError>,
    link_count: Result<u64, ShredError>,
    path: Seq<char>,
) -> bool {
    if kind != NodeKind::RegularFile {
        e matches ShredError::ValidationFailed(m) && m@ == "open-file shredder requires a regular-file identity"@
    } else {
        match facts {
            Err(fe) => e == fe,
            Ok(f) => if !f.is_file {
                e matches ShredError::ValidationFailed(m) && m@ == "open-file shredder rejected a non-regular file handle"@
            } else {
                match link_count {
                    Err(ce) => e == ce,
                    Ok(c) => if c > 1 {
                        e matches ShredError::HardLinkBlocked { path: p, count } && p@ == path && count == c
                    } else {
                        f.len > u64::MAX / 4 && (e matches ShredError::ValidationFailed(m)
                            && m@ == "file is too large to overwrite"@)
                    },
                }
            },
        }
    }
}

/// The per-file result of an overwrite, and the passes it completed. An
/// overwrite that wrote nothing becomes a not-started result carrying its error.
pub fn file_result(outcome: Result<OverwriteOutcome, ShredError>) -> (r: (FileShredResult, u32))
    ensures
        file_result_of(r.0, outcome),
        outcome matches Err(e) ==> r.0.overwrite_state == OverwriteState::NotStarted
            && r.0.write_check_status == WriteCheckOutcome::NotRun && r.0.bytes_shredded == 0
            && r.0.issues@ == seq![e] && r.1 == 0,
        outcome matches Ok(o) ==> r.0.overwrite_state == o.state && r.0.write_check_status == o.write_check
            && r.0.bytes_shredded == o.bytes_written && r.0.issues@ == o.issues@ && r.1 == o.passes_completed,
{
    match outcome {
        Err(error) => {
            let mut issues: Vec<ShredError> = Vec::new();
            issues.push(error);
            (FileShredResult {
                overwrite_state: OverwriteState::NotStarted,
                write_check_status: WriteCheckOutcome::NotRun,
                bytes_shredded: 0,
                issues,
            }, 0)
        },
        Ok(o) => {
            let passes = o.passes_completed;
            (FileShredResult {
                overwrite_state: o.state,
                write_check_status: o.write_check,
                bytes_shredded: o.bytes_written,
                issues: o.issues,
            }, passes)
        },
    }
}

impl<P: ProgressReporter> PolicyFileShredder<P> {
    /// A shredder for `policy` that reports to `progress`.
    pub fn new(policy: DeletionPolicy, progress: P) -> (r: Self)
        ensures
            r.policy() == policy,
    {
        PolicyFileShredder { policy, progress }
    }

    /// The policy files are overwritten under.
    pub closed spec fn policy(&self) -> DeletionPolicy {
        self.policy
    }

    /// Sends the completion event; its pass total is always the policy's.
    fn report_completion(&self, path: &str, state: OverwriteState, check: WriteCheckOutcome, passes: u32, bytes: u64) {
        let record = completion_record(state, check, passes, bytes);
        self.progress.on_file_complete(path, &record, self.policy.total_passes());
    }
}

impl<P: ProgressReporter, F: ShredFile> OpenFileShredder<F> for PolicyFileShredder<P> {
    /// `Err` means nothing was written and the handle was refused; a
    /// not-started result means the overwrite wrote nothing; otherwise the
    /// overwrite ran, and the caller must clean the file up.
    fn shred_open_file(&self, file: F, identity: NodeIdentity, request: &FileShredRequest) -> (r: Result<FileShredResult, ShredError>)
        ensures
            identity.spec_kind() != NodeKind::RegularFile ==> (r matches Err(ShredError::ValidationFailed(_))),
            r matches Err(e) ==> exists|facts: Result<OpenFileFacts, ShredError>, count: Result<u64, ShredError>|
                admitted_size(identity.spec_kind(), facts, count) is None
                && #[trigger] admission_refusal(e, identity.spec_kind(), facts, count, request.spec_path()),
            r matches Ok(res) ==> exists|facts: Result<OpenFileFacts, ShredError>, count: Result<u64, ShredError>,
                outcome: Result<OverwriteOutcome, ShredError>|
                #![trigger admitted_size(identity.spec_kind(), facts, count), file_result_of(res, outcome)]
                admitted_size(identity.spec_kind(), facts, count) matches Some(n)
                && overwrite_sound(outcome, n, self.policy(), request.spec_path())
                && file_result_of(res, outcome),
            r matches Ok(res) ==> (res.overwrite_state == OverwriteState::NotStarted ==> res.bytes_shredded == 0
                && res.write_check_status == WriteCheckOutcome::NotRun && res.issues@.len() == 1),
            r matches Ok(res) ==> (res.write_check_status == WriteCheckOutcome::Failed ==> res.issues@.len() > 0),
            r matches Ok(res) ==> (res.overwrite_state == OverwriteState::Partial ==> res.issues@.len() > 0),
    {
        let mut file = file;
        let kind = identity.kind();
        let path = request.diagnostic_path();
        match kind {
            NodeKind::RegularFile => {},
            _ => {
                let e = ShredError::ValidationFailed(String::from_str("open-file shredder requires a regular-file identity"));
                proof {
                    let w: Result<u64, ShredError> = Ok(0u64);
                    assert(admission_refusal(e, kind, Ok(OpenFileFacts { is_file: false, len: 0 }), w, path@));
                }
                return Err(e);
            },
        }
        let facts = file.facts();
        let f = match facts {
            Ok(f) => f,
            Err(e) => {
                proof {
                    let w: Result<u64, ShredError> = Ok(0u64);
                    assert(admission_refusal(e, kind, Err(e), w, path@));
                    assert(admitted_size(kind, Err(e), w) is None);
                }
                return Err(e);
            },
        };
        if !f.is_file {
            let e = ShredError::ValidationFailed(String::from_str("open-file shredder rejected a non-regular file handle"));
            proof {
                let w: Result<u64, ShredError> = Ok(0u64);
                assert(admission_refusal(e, kind, Ok(f), w, path@));
                assert(admitted_size(kind, Ok(f), w) is None);
            }
            return Err(e);
        }
        let count = file.link_count();
        let ghost count0 = count;
        if let Err(e) = validate_open_handle_link_count(path, count) {
            proof {
                assert(admission_refusal(e, kind, Ok(f), count0, path@));
                assert(admitted_size(kind, Ok(f), count0) is None);
            }
            return Err(e);
        }
        let file_size = f.len;
        if file_size > u64::MAX / 4 {
            let e = ShredError::ValidationFailed(String::from_str("file is too large to overwrite"));
            proof {
                assert(admission_refusal(e, kind, Ok(f), count0, path@));
                assert(admitted_size(kind, Ok(f), count0) is None);
            }
            return Err(e);
        }
        assert(admitted_size(kind, Ok(f), count0) == Some(file_size));
        self.progress.on_file_start(path, file_size);
        let outcome = overwrite_file(&mut file, file_size, self.policy, &self.progress, path);
        let ghost outcome0 = outcome;
        let (result, passes) = file_result(outcome);
        proof {
            assert(file_result_of(result, outcome0));
        }
        self.report_completion(path, result.overwrite_state, result.write_check_status, passes, result.bytes_shredded);
        Ok(result)
    }
}

} // verus!
