//! The overwrite lifecycle of one open file: passes, sync, final write check.

use vstd::prelude::*;
use crate::shredder::errors::ShredError;
use crate::shredder::traits::ProgressReporter;
use crate::shredder::types::{
    method_passes, DeletionMethod, DeletionPolicy, PatternType, WriteCheck, WriteCheckOutcome,
};
use crate::text::str_eq;

verus! {

/// Overwrite lifecycle state of one file.
#[derive(Debug, Clone, Copy, PartialEq, Eq, Structural)]
pub enum OverwriteState {
    NotStarted,
    Partial,
    Completed,
}

/// Structured outcome of one file's overwrite.
pub struct OverwriteOutcome {
    pub state: OverwriteState,
    pub bytes_written: u64,
    pub passes_completed: u32,
    pub write_check: WriteCheckOutcome,
    pub issues: Vec<ShredError>,
    /// The patterns handed to the file, one for each pass started, in order.
    pub written: Ghost<Seq<PatternType>>,
}

/// The pass sequence of a method.
pub open spec fn planned_passes(method: DeletionMethod) -> Seq<PatternType> {
    match method {
        DeletionMethod::Automatic => seq![PatternType::Random],
        DeletionMethod::LegacyThreePass => seq![PatternType::Zeros, PatternType::Ones, PatternType::Random],
    }
}

/// The pass sequence of a method: one random pass, or zeros, ones, random.
pub fn pass_plan(method: DeletionMethod) -> (r: Vec<PatternType>)
    ensures
        r@ == planned_passes(method),
{
    match method {
        DeletionMethod::Automatic => vec![PatternType::Random],
        DeletionMethod::LegacyThreePass => vec![PatternType::Zeros, PatternType::Ones, PatternType::Random],
    }
}

/// The three-pass method writes the DoD sequence, zeros, ones, random, and
/// the automatic method a single random pass.
pub proof fn lemma_legacy_plan_is_dod_sequence()
    ensures
        forall|k: int| 0 <= k < 3 ==> #[trigger] planned_passes(DeletionMethod::LegacyThreePass)[k] == crate::shredder::algorithms::dod_pattern(k as u32),
        planned_passes(DeletionMethod::LegacyThreePass) == seq![PatternType::Zeros, PatternType::Ones, PatternType::Random],
        planned_passes(DeletionMethod::Automatic) == seq![PatternType::Random],
{
    assert forall|k: int| 0 <= k < 3 implies #[trigger] planned_passes(DeletionMethod::LegacyThreePass)[k] == crate::shredder::algorithms::dod_pattern(k as u32) by {
        assert(k == 0 || k == 1 || k == 2);
    }
}

/// Every plan has as many passes as the method counts, and ends on a random pass.
pub proof fn lemma_plan_matches_pass_count(method: DeletionMethod)
    ensures
        planned_passes(method).len() == method_passes(method),
        planned_passes(method).last() == PatternType::Random,
{
}

/// An open file the overwrite lifecycle writes to. Implementations own the
/// byte streams (fixed patterns or a seeded keystream), chunking, progress
/// inside a pass and cancellation between chunks; nothing is assumed of what
/// they return.
pub trait OverwriteTarget {
    /// Writes `pattern` over the first `file_size` bytes from offset zero,
    /// reporting the bytes written so far to `progress` as it goes.
    /// Returns the bytes written; a stop request is an `IoError` of kind `Cancelled`.
    fn write_pass<P: ProgressReporter>(&mut self, file_size: u64, pattern: PatternType, progress: &P) -> Result<u64, ShredError>;
    /// The handle's cursor, if it can be read.
    fn stream_position(&mut self) -> Option<u64>;
    /// Flushes the file to stable storage.
    fn sync_all(&mut self) -> Result<(), ShredError>;
    /// Reads the file back and compares it with the final pass; `Ok(true)` when it matched.
    fn verify_final(&mut self, check: WriteCheck, pattern: PatternType, file_size: u64) -> Result<bool, ShredError>;
}

/// The error is a stop request observed inside a pass.
pub open spec fn is_cancel_error(e: ShredError) -> bool {
    e matches ShredError::IoError { kind, .. } && kind@ == "Cancelled"@
}

fn is_cancelled_error(error: &ShredError) -> (r: bool)
    ensures
        r == is_cancel_error(*error),
{
    match error {
        ShredError::IoError { kind, .. } => str_eq(kind.as_str(), "Cancelled"),
        _ => false,
    }
}

/// What an interrupted pass leaves: `Err` only when nothing reached the file
/// and no stop was requested; otherwise a partial outcome that must be cleaned up.
pub fn interrupted_outcome(
    error: ShredError,
    cancelled: bool,
    bytes_before: u64,
    pass_bytes: u64,
    passes_completed: u32,
    issues: Vec<ShredError>,
) -> (r: Result<OverwriteOutcome, ShredError>)
    requires
        bytes_before + pass_bytes <= u64::MAX,
    ensures
        r is Err <==> (!cancelled && bytes_before == 0 && pass_bytes == 0),
        r matches Err(e) ==> e == error,
        r matches Ok(o) ==> o.state == OverwriteState::Partial
            && o.bytes_written == bytes_before + pass_bytes
            && o.passes_completed == passes_completed
            && o.write_check == WriteCheckOutcome::NotRun
            && o.issues@ == issues@.push(error),
{
    if !cancelled && bytes_before == 0 && pass_bytes == 0 {
        return Err(error);
    }
    let mut issues = issues;
    issues.push(error);
    Ok(OverwriteOutcome {
        state: OverwriteState::Partial,
        bytes_written: bytes_before + pass_bytes,
        passes_completed,
        write_check: WriteCheckOutcome::NotRun,
        issues,
        written: Ghost(Seq::empty()),
    })
}

/// What holds of an overwrite's outcome whatever the file answered: an empty
/// file completes at once with nothing written; otherwise the passes and
/// bytes stay within the plan, a completed overwrite ran every pass, a
/// partial one carries an issue, and a failed write check is the last issue.
pub open spec fn overwrite_sound(
    r: Result<OverwriteOutcome, ShredError>,
    file_size: u64,
    policy: DeletionPolicy,
    path: Seq<char>,
) -> bool {
    &&& file_size == 0 ==> (r matches Ok(o) && o.state == OverwriteState::Completed && o.bytes_written == 0
        && o.passes_completed == 0 && o.write_check == WriteCheckOutcome::NotRun && o.issues@.len() == 0)
    &&& r matches Ok(o) ==> {
        &&& o.state != OverwriteState::NotStarted
        &&& o.passes_completed <= method_passes(policy.method)
        &&& o.bytes_written <= file_size * method_passes(policy.method)
        &&& (o.state == OverwriteState::Completed && file_size > 0) ==> o.passes_completed == method_passes(policy.method)
        &&& o.state == OverwriteState::Partial ==> o.write_check == WriteCheckOutcome::NotRun && o.issues@.len() > 0
        &&& policy.write_check == WriteCheck::Off ==> o.write_check != WriteCheckOutcome::Failed
        &&& o.write_check == WriteCheckOutcome::Failed ==> o.issues@.len() > 0
            && (o.issues@.last() matches ShredError::WriteCheckFailed { path: p } && p@ == path)
        &&& o.written@.len() <= planned_passes(policy.method).len()
        &&& o.written@ == planned_passes(policy.method).take(o.written@.len() as int)
        &&& (o.state == OverwriteState::Completed && file_size > 0) ==> o.written@ == planned_passes(policy.method)
        &&& file_size == 0 ==> o.written@.len() == 0
        &&& o.state == OverwriteState::Partial ==> (o.written@.len() == o.passes_completed + 1
            || o.written@ == planned_passes(policy.method))
    }
}

/// One file's destructive write lifecycle: every planned pass, a sync, then
/// the final-state write check. `Err` means no byte of any pass reached the
/// file; `Partial` means cleanup must run; `Completed` means every pass ran,
/// and a failed check is reported through `write_check` and an issue.
pub fn overwrite_file<T: OverwriteTarget, P: ProgressReporter>(
    file: &mut T,
    file_size: u64,
    policy: DeletionPolicy,
    progress: &P,
    path: &str,
) -> (r: Result<OverwriteOutcome, ShredError>)
    requires
        file_size <= u64::MAX / 4,
    ensures
        overwrite_sound(r, file_size, policy, path@),
{
    if file_size == 0 {
        assert(Seq::<PatternType>::empty() =~= planned_passes(policy.method).take(0));
        return Ok(OverwriteOutcome {
            state: OverwriteState::Completed,
            bytes_written: 0,
            passes_completed: 0,
            write_check: WriteCheckOutcome::NotRun,
            issues: Vec::new(),
            written: Ghost(Seq::empty()),
        });
    }
    let total_passes = policy.total_passes();
    let plan = pass_plan(policy.method);
    let mut bytes_total: u64 = 0;
    let mut passes_completed: u32 = 0;
    let issues: Vec<ShredError> = Vec::new();
    let mut idx: usize = 0;
    let ghost mut handed: Seq<PatternType> = Seq::empty();
    while idx < plan.len()
        invariant
            handed == plan@.take(idx as int),
            plan@ == planned_passes(policy.method),
            total_passes == method_passes(policy.method),
            idx <= plan@.len(),
            passes_completed == idx,
            bytes_total <= file_size * idx,
            0 < file_size <= u64::MAX / 4,
            issues@.len() == 0,
        decreases plan.len() - idx,
    {
        let pass: u32 = (idx + 1) as u32;
        let pattern = plan[idx];
        progress.on_pass_start(pass, total_passes);
        let answer = file.write_pass(file_size, pattern, progress);
        proof {
            handed = handed.push(pattern);
            assert(handed =~= plan@.take(idx + 1));
        }
        match answer {
            Ok(written) => {
                let counted = if written > file_size { file_size } else { written };
                assert(bytes_total + counted <= file_size * (idx + 1)) by (nonlinear_arith)
                    requires bytes_total <= file_size * idx, counted <= file_size;
                assert(plan@.len() <= 3);
                assert(file_size * (idx + 1) <= file_size * 3) by (nonlinear_arith)
                    requires idx + 1 <= 3;
                bytes_total = bytes_total + counted;
                passes_completed = pass;
                progress.on_pass_complete(pass, total_passes);
            },
            Err(error) => {
                let cancelled = is_cancelled_error(&error);
                let pass_bytes = match file.stream_position() {
                    Some(position) => if position > file_size { file_size } else { position },
                    None => file_size,
                };
                assert(bytes_total + pass_bytes <= file_size * (idx + 1)) by (nonlinear_arith)
                    requires bytes_total <= file_size * idx, pass_bytes <= file_size;
                assert(file_size * (idx + 1) <= file_size * 3) by (nonlinear_arith)
                    requires idx + 1 <= 3;
                return match interrupted_outcome(error, cancelled, bytes_total, pass_bytes, passes_completed, issues) {
                    Ok(o) => {
                        let mut o = o;
                        o.written = Ghost(handed);
                        Ok(o)
                    },
                    Err(e) => Err(e),
                };
            },
        }
        idx = idx + 1;
    }
    let mut issues = issues;
    assert(handed =~= planned_passes(policy.method));
    assert(handed =~= planned_passes(policy.method).take(handed.len() as int));
    if let Err(error) = file.sync_all() {
        if bytes_total == 0 {
            return Err(error);
        }
        issues.push(error);
        return Ok(OverwriteOutcome {
            state: OverwriteState::Partial,
            bytes_written: bytes_total,
            passes_completed,
            write_check: WriteCheckOutcome::NotRun,
            issues,
            written: Ghost(handed),
        });
    }
    let answer = match policy.write_check {
        WriteCheck::Off => Ok(true),
        check => file.verify_final(check, plan[plan.len() - 1], file_size),
    };
    let mut done = completed_outcome(bytes_total, passes_completed, policy.write_check, answer, path, issues);
    done.written = Ghost(handed);
    assert(handed =~= planned_passes(policy.method));
    Ok(done)
}

/// The outcome of an overwrite whose every pass ran and was flushed: no
/// check when checks are off; otherwise the check passed exactly when the
/// read-back matched, and a failed check ends the issues with a
/// `WriteCheckFailed` at the path.
pub fn completed_outcome(
    bytes: u64,
    passes: u32,
    check: WriteCheck,
    answer: Result<bool, ShredError>,
    path: &str,
    issues: Vec<ShredError>,
) -> (r: OverwriteOutcome)
    ensures
        r.state == OverwriteState::Completed,
        r.bytes_written == bytes,
        r.passes_completed == passes,
        check == WriteCheck::Off ==> r.write_check == WriteCheckOutcome::NotRun && r.issues@ == issues@,
        check != WriteCheck::Off && answer == Ok::<bool, ShredError>(true) ==> r.write_check == WriteCheckOutcome::Passed
            && r.issues@ == issues@,
        check != WriteCheck::Off && answer != Ok::<bool, ShredError>(true) ==> r.write_check == WriteCheckOutcome::Failed
            && r.issues@.len() == issues@.len() + 1 && r.issues@.drop_last() == issues@
            && (r.issues@.last() matches ShredError::WriteCheckFailed { path: p } && p@ == path@),
{
    let mut issues = issues;
    let write_check = match check {
        WriteCheck::Off => WriteCheckOutcome::NotRun,
        _ => match answer {
            Ok(true) => WriteCheckOutcome::Passed,
            _ => {
                issues.push(ShredError::WriteCheckFailed { path: String::from_str(path) });
                WriteCheckOutcome::Failed
            },
        },
    };
    OverwriteOutcome {
        state: OverwriteState::Completed,
        bytes_written: bytes,
        passes_completed: passes,
        write_check,
        issues,
        written: Ghost(Seq::empty()),
    }
}

} // verus!
