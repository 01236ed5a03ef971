use std::cell::RefCell;

use chacha20::cipher::{KeyIvInit, StreamCipher};

use knockknock::shredder::engine::{completed_outcome, overwrite_file, OverwriteState, OverwriteTarget};
use knockknock::shredder::policy::{validate_open_handle_link_count, OpenFileFacts, ShredFile};
use knockknock::shredder::progress::NoopProgressReporter;
use knockknock::shredder::root_execution::plan::{FileShredRequest, NodeIdentity, OpenFileShredder};
use knockknock::shredder::stream::{check_ranges, fill_pattern, next_chunk, PrngSeed, BUFFER_SIZE, KEYSTREAM_LIMIT};
use knockknock::shredder::traits::ProgressReporter;
use knockknock::shredder::types::{DeletionMethod, DeletionPolicy, PatternType, ShredResult, WriteCheck, WriteCheckOutcome};
use knockknock::shredder::{PolicyFileShredder, ShredError};

/// A file of `len` bytes whose passes can fail part-way.
struct FakeFile {
    len: u64,
    links: u64,
    passes: Vec<PatternType>,
    fail_pass: Option<usize>,
    position: Option<u64>,
    check_ok: bool,
}

impl FakeFile {
    fn new(len: u64) -> FakeFile {
        FakeFile { len, links: 1, passes: vec![], fail_pass: None, position: None, check_ok: true }
    }
}

impl OverwriteTarget for FakeFile {
    fn write_pass<P: ProgressReporter>(&mut self, file_size: u64, pattern: PatternType, _progress: &P) -> Result<u64, ShredError> {
        if self.fail_pass == Some(self.passes.len()) {
            return Err(ShredError::IoError { path: "f".to_string(), kind: "Other".to_string(), message: "disk".to_string() });
        }
        self.passes.push(pattern);
        Ok(file_size)
    }
    fn stream_position(&mut self) -> Option<u64> {
        self.position
    }
    fn sync_all(&mut self) -> Result<(), ShredError> {
        Ok(())
    }
    fn verify_final(&mut self, _check: WriteCheck, _pattern: PatternType, _file_size: u64) -> Result<bool, ShredError> {
        Ok(self.check_ok)
    }
}

impl ShredFile for FakeFile {
    fn facts(&mut self) -> Result<OpenFileFacts, ShredError> {
        Ok(OpenFileFacts { is_file: true, len: self.len })
    }
    fn link_count(&mut self) -> Result<u64, ShredError> {
        Ok(self.links)
    }
}

fn policy(method: DeletionMethod, write_check: WriteCheck) -> DeletionPolicy {
    DeletionPolicy { method, write_check }
}

#[test]
fn the_legacy_method_writes_zeros_ones_random() {
    let mut file = FakeFile::new(100);
    let outcome = overwrite_file(&mut file, 100, policy(DeletionMethod::LegacyThreePass, WriteCheck::Full), &NoopProgressReporter, "/f").unwrap();
    assert_eq!(file.passes, vec![PatternType::Zeros, PatternType::Ones, PatternType::Random]);
    assert_eq!(outcome.state, OverwriteState::Completed);
    assert_eq!(outcome.bytes_written, 300);
    assert_eq!(outcome.passes_completed, 3);
    assert_eq!(outcome.write_check, WriteCheckOutcome::Passed);
    assert!(outcome.issues.is_empty());
}

#[test]
fn an_empty_file_needs_no_pass() {
    let mut file = FakeFile::new(0);
    let outcome = overwrite_file(&mut file, 0, policy(DeletionMethod::Automatic, WriteCheck::Full), &NoopProgressReporter, "/f").unwrap();
    assert!(file.passes.is_empty());
    assert_eq!(outcome.state, OverwriteState::Completed);
    assert_eq!(outcome.write_check, WriteCheckOutcome::NotRun);
}

#[test]
fn a_failed_first_pass_with_nothing_written_is_an_error() {
    let mut file = FakeFile::new(10);
    file.fail_pass = Some(0);
    file.position = Some(0);
    assert!(overwrite_file(&mut file, 10, policy(DeletionMethod::Automatic, WriteCheck::Off), &NoopProgressReporter, "/f").is_err());
}

#[test]
fn a_pass_interrupted_after_writing_is_partial() {
    let mut file = FakeFile::new(10);
    file.fail_pass = Some(1);
    file.position = Some(4);
    let outcome = overwrite_file(&mut file, 10, policy(DeletionMethod::LegacyThreePass, WriteCheck::Off), &NoopProgressReporter, "/f").unwrap();
    assert_eq!(outcome.state, OverwriteState::Partial);
    assert_eq!(outcome.bytes_written, 14);
    assert_eq!(outcome.passes_completed, 1);
    assert_eq!(outcome.issues.len(), 1);
}

#[test]
fn a_failed_write_check_is_reported_as_an_issue() {
    let mut file = FakeFile::new(10);
    file.check_ok = false;
    let outcome = overwrite_file(&mut file, 10, policy(DeletionMethod::Automatic, WriteCheck::Spot), &NoopProgressReporter, "/f").unwrap();
    assert_eq!(outcome.write_check, WriteCheckOutcome::Failed);
    assert!(matches!(outcome.issues.last(), Some(ShredError::WriteCheckFailed { path }) if path == "/f"));
}

#[derive(Default)]
struct Recorder {
    completions: RefCell<Vec<(bool, u32, u32, u64)>>,
}

impl ProgressReporter for Recorder {
    fn on_file_start(&self, _path: &str, _file_size: u64) {}
    fn on_pass_start(&self, _pass: u32, _total_passes: u32) {}
    fn on_progress(&self, _bytes_written: u64, _total: u64) {}
    fn on_pass_complete(&self, _pass: u32, _total_passes: u32) {}
    fn on_file_complete(&self, _path: &str, result: &ShredResult, total_passes: u32) {
        self.completions.borrow_mut().push((result.success, result.passes_completed, total_passes, result.bytes_written));
    }
    fn on_error(&self, _path: &str, _error: &ShredError) {}
    fn on_warning(&self, _path: &str, _message: &str) {}
}

#[test]
fn the_policy_shredder_overwrites_and_reports_completion() {
    let shredder = PolicyFileShredder::new(policy(DeletionMethod::Automatic, WriteCheck::Off), Recorder::default());
    let result = shredder
        .shred_open_file(FakeFile::new(8), NodeIdentity::regular(1, 1), &FileShredRequest::new("/f".to_string()))
        .unwrap();
    assert_eq!(result.overwrite_state, OverwriteState::Completed);
    assert_eq!(result.bytes_shredded, 8);
}

#[test]
fn the_policy_shredder_refuses_links_and_other_identities() {
    let shredder = PolicyFileShredder::new(policy(DeletionMethod::Automatic, WriteCheck::Off), NoopProgressReporter);
    let mut linked = FakeFile::new(8);
    linked.links = 2;
    assert!(matches!(
        shredder.shred_open_file(linked, NodeIdentity::regular(1, 1), &FileShredRequest::new("/f".to_string())),
        Err(ShredError::HardLinkBlocked { count: 2, .. })
    ));
    assert!(matches!(
        shredder.shred_open_file(FakeFile::new(8), NodeIdentity::directory(1, 1), &FileShredRequest::new("/f".to_string())),
        Err(ShredError::ValidationFailed(_))
    ));
    assert!(validate_open_handle_link_count("/f", Ok(1)).is_ok());
    assert!(validate_open_handle_link_count("/f", Err(ShredError::EmptyPath)).is_err());
}

const MIB: u64 = 1024 * 1024;

/// Records the pass and progress events of one overwrite; with
/// `cancel_on_first_progress` set, the first progress event stops `token`.
#[derive(Default)]
struct RecordingProgress {
    pass_starts: RefCell<Vec<(u32, u32)>>,
    pass_completes: RefCell<Vec<(u32, u32)>>,
    progress_events: RefCell<Vec<(u64, u64)>>,
    cancel_on_first_progress: RefCell<Option<knockknock::shredder::cancel::CancellationToken>>,
}

impl ProgressReporter for RecordingProgress {
    fn on_file_start(&self, _path: &str, _file_size: u64) {}
    fn on_pass_start(&self, pass: u32, total_passes: u32) {
        self.pass_starts.borrow_mut().push((pass, total_passes));
    }
    fn on_progress(&self, bytes_written: u64, total: u64) {
        if let Some(token) = self.cancel_on_first_progress.borrow_mut().take() {
            token.cancel();
        }
        self.progress_events.borrow_mut().push((bytes_written, total));
    }
    fn on_pass_complete(&self, pass: u32, total_passes: u32) {
        self.pass_completes.borrow_mut().push((pass, total_passes));
    }
    fn on_file_complete(&self, _path: &str, _result: &ShredResult, _total_passes: u32) {}
    fn on_error(&self, _path: &str, _error: &ShredError) {}
    fn on_warning(&self, _path: &str, _message: &str) {}
}

/// A file written in 1 MiB chunks, reporting progress after each chunk and
/// checking the stop flag before each one, as the real handle does.
struct ChunkedFile {
    contents: Vec<u8>,
    cursor: u64,
    token: knockknock::shredder::cancel::CancellationToken,
}

impl ChunkedFile {
    fn new(len: u64, token: knockknock::shredder::cancel::CancellationToken) -> Self {
        ChunkedFile { contents: vec![0xAA; len as usize], cursor: 0, token }
    }
}

impl OverwriteTarget for ChunkedFile {
    fn write_pass<P: ProgressReporter>(&mut self, file_size: u64, pattern: PatternType, progress: &P) -> Result<u64, ShredError> {
        let byte = match pattern {
            PatternType::Zeros => 0x00,
            PatternType::Ones => 0xFF,
            _ => 0x5A,
        };
        self.cursor = 0;
        while self.cursor < file_size {
            if self.token.is_cancelled() {
                return Err(ShredError::IoError {
                    path: "f".to_string(),
                    kind: "Cancelled".to_string(),
                    message: "stopped".to_string(),
                });
            }
            let end = (self.cursor + MIB).min(file_size);
            for b in &mut self.contents[self.cursor as usize..end as usize] {
                *b = byte;
            }
            self.cursor = end;
            progress.on_progress(self.cursor, file_size);
        }
        Ok(file_size)
    }
    fn stream_position(&mut self) -> Option<u64> {
        Some(self.cursor)
    }
    fn sync_all(&mut self) -> Result<(), ShredError> {
        Ok(())
    }
    fn verify_final(&mut self, _check: WriteCheck, _pattern: PatternType, _file_size: u64) -> Result<bool, ShredError> {
        Ok(true)
    }
}

fn has_cancelled_issue(issues: &[ShredError]) -> bool {
    issues.iter().any(|e| matches!(e, ShredError::IoError { kind, .. } if kind == "Cancelled"))
}

#[test]
fn zero_length_file_returns_vacuous_completed() {
    let progress = RecordingProgress::default();
    let mut file = ChunkedFile::new(0, knockknock::shredder::cancel::CancellationToken::new());
    let outcome = overwrite_file(&mut file, 0, policy(DeletionMethod::LegacyThreePass, WriteCheck::Full), &NoopProgressReporter, "/f").unwrap();

    assert_eq!(outcome.state, OverwriteState::Completed);
    assert_eq!(outcome.bytes_written, 0);
    assert_eq!(outcome.passes_completed, 0);
    assert_eq!(outcome.write_check, WriteCheckOutcome::NotRun);
    assert!(outcome.issues.is_empty());
    assert_eq!(file.contents.len(), 0, "file must be untouched");
}

#[test]
fn automatic_mid_pass_cancel_reports_partial_and_skips_final_check() {
    let token = knockknock::shredder::cancel::CancellationToken::new();
    let progress = RecordingProgress::default();
    *progress.cancel_on_first_progress.borrow_mut() = Some(token.clone());
    let mut file = ChunkedFile::new(3 * MIB, token);
    let outcome = overwrite_file(&mut file, 3 * MIB, policy(DeletionMethod::Automatic, WriteCheck::Spot), &progress, "/f").unwrap();

    assert_eq!(outcome.state, OverwriteState::Partial);
    assert_eq!(
        outcome.write_check,
        WriteCheckOutcome::NotRun,
        "the final write check must never run after an interrupted pass"
    );
    assert_eq!(outcome.passes_completed, 0);
    assert_eq!(outcome.bytes_written, MIB, "the first 1 MiB chunk completed before the cancel fired");
    assert!(has_cancelled_issue(&outcome.issues), "expected a Cancelled issue, got {:?}", outcome.issues);
}

#[test]
fn legacy_cancel_before_first_pass_reports_partial_never_passed() {
    let token = knockknock::shredder::cancel::CancellationToken::new();
    token.cancel();
    let progress = RecordingProgress::default();
    let mut file = ChunkedFile::new(MIB, token);
    let outcome = overwrite_file(&mut file, MIB, policy(DeletionMethod::LegacyThreePass, WriteCheck::Spot), &NoopProgressReporter, "/f").unwrap();

    assert_eq!(outcome.state, OverwriteState::Partial);
    assert_eq!(
        outcome.write_check,
        WriteCheckOutcome::NotRun,
        "a cancelled overwrite must never report a passed write check"
    );
    assert_eq!(outcome.bytes_written, 0);
    assert_eq!(outcome.passes_completed, 0);
    assert!(has_cancelled_issue(&outcome.issues), "expected a Cancelled issue, got {:?}", outcome.issues);
}

#[test]
fn automatic_progress_is_pass_local_and_bounded() {
    let progress = RecordingProgress::default();
    let mut file = ChunkedFile::new(2 * MIB, knockknock::shredder::cancel::CancellationToken::new());
    let outcome = overwrite_file(&mut file, 2 * MIB, policy(DeletionMethod::Automatic, WriteCheck::Off), &progress, "/f").unwrap();
    assert_eq!(outcome.state, OverwriteState::Completed);

    assert_eq!(*progress.pass_starts.borrow(), vec![(1, 1)]);
    assert_eq!(*progress.pass_completes.borrow(), vec![(1, 1)]);

    let events = progress.progress_events.borrow();
    assert!(!events.is_empty(), "2 MiB must produce progress events");
    for &(bytes, total) in events.iter() {
        assert!(bytes <= total, "progress {bytes} exceeds total {total}");
        assert_eq!(total, 2 * MIB, "pass-local total must equal file size");
    }
}

#[test]
fn legacy_progress_totals_three_and_stays_bounded() {
    let progress = RecordingProgress::default();
    let mut file = ChunkedFile::new(2 * MIB, knockknock::shredder::cancel::CancellationToken::new());
    let outcome = overwrite_file(&mut file, 2 * MIB, policy(DeletionMethod::LegacyThreePass, WriteCheck::Off), &progress, "/f").unwrap();
    assert_eq!(outcome.state, OverwriteState::Completed);
    assert_eq!(outcome.passes_completed, 3);

    assert_eq!(*progress.pass_starts.borrow(), vec![(1, 3), (2, 3), (3, 3)]);
    assert_eq!(*progress.pass_completes.borrow(), vec![(1, 3), (2, 3), (3, 3)]);

    let events = progress.progress_events.borrow();
    assert!(!events.is_empty());
    for &(bytes, total) in events.iter() {
        assert!(bytes <= total, "progress {bytes} exceeds total {total}");
        assert_eq!(total, 2 * MIB);
    }
}

#[test]
fn zero_length_emits_no_pass_events() {
    let progress = RecordingProgress::default();
    let mut file = ChunkedFile::new(0, knockknock::shredder::cancel::CancellationToken::new());
    let outcome = overwrite_file(&mut file, 0, policy(DeletionMethod::Automatic, WriteCheck::Spot), &progress, "/f").unwrap();
    assert_eq!(outcome.state, OverwriteState::Completed);

    assert!(progress.pass_starts.borrow().is_empty());
    assert!(progress.pass_completes.borrow().is_empty());
    assert!(progress.progress_events.borrow().is_empty());
}

#[test]
fn fixed_patterns_fill_their_byte_and_random_follows_the_seed() {
    let seed = PrngSeed::from_parts(vec![7u8; 32], vec![9u8; 12]).unwrap();
    assert_eq!(fill_pattern(PatternType::Zeros, &seed, 5, 3, "/f").unwrap(), vec![0x00; 3]);
    assert_eq!(fill_pattern(PatternType::Ones, &seed, 5, 3, "/f").unwrap(), vec![0xFF; 3]);
    let whole = fill_pattern(PatternType::Random, &seed, 0, 200, "/f").unwrap();
    let tail = fill_pattern(PatternType::Random, &seed, 70, 130, "/f").unwrap();
    assert_eq!(&whole[70..], &tail[..], "the keystream at an offset continues the stream");
    assert_ne!(whole, vec![0u8; 200]);
    let other = PrngSeed::from_parts(vec![8u8; 32], vec![9u8; 12]).unwrap();
    assert_ne!(fill_pattern(PatternType::Random, &other, 0, 200, "/f").unwrap(), whole);
    assert!(matches!(
        fill_pattern(PatternType::Random, &seed, KEYSTREAM_LIMIT - 10, 11, "/f"),
        Err(ShredError::IoError { kind, .. }) if kind == "CipherSeek"
    ));
    assert!(PrngSeed::from_parts(vec![0u8; 31], vec![0u8; 12]).is_none());
}

#[test]
fn the_known_chacha20_block_is_produced() {
    // RFC 8439, section 2.4.2: key 00..1f, nonce 00 00 00 00 00 00 00 4a 00 00 00 00,
    // counter 1 — the keystream from byte 64 on.
    let key: Vec<u8> = (0u8..32).collect();
    let nonce = vec![0, 0, 0, 0, 0, 0, 0, 0x4a, 0, 0, 0, 0];
    let seed = PrngSeed::from_parts(key, nonce).unwrap();
    let block = fill_pattern(PatternType::Random, &seed, 64, 16, "/f").unwrap();
    assert_eq!(block, vec![0x22, 0x4f, 0x51, 0xf3, 0x40, 0x1b, 0xd9, 0xe1, 0x2f, 0xde, 0x27, 0x6f, 0xb8, 0x63, 0x1d, 0xed]);
}

#[test]
fn write_checks_read_back_chunks_or_spread_samples() {
    assert!(check_ranges(WriteCheck::Off, 10).is_empty());
    assert_eq!(check_ranges(WriteCheck::Full, 0), vec![]);
    assert_eq!(
        check_ranges(WriteCheck::Full, 2 * BUFFER_SIZE + 5),
        vec![(0, BUFFER_SIZE), (BUFFER_SIZE, BUFFER_SIZE), (2 * BUFFER_SIZE, 5)]
    );
    let spot = check_ranges(WriteCheck::Spot, 100);
    assert_eq!(spot.len(), 16);
    assert!(spot.iter().all(|&r| r == (0, 100)));
    let spot = check_ranges(WriteCheck::Spot, 4096 + 150);
    assert_eq!(spot[0], (0, 4096));
    assert_eq!(spot[1], (10, 4096));
    assert_eq!(spot[15], (150, 4096));
    assert_eq!(next_chunk(10, 4), 6);
    assert_eq!(next_chunk(3 * BUFFER_SIZE, 0), BUFFER_SIZE);
}

const KIB: u64 = 1024;

/// An in-memory file written through the library's pass streams, read back
/// through its write-check ranges, as the host file handle does.
struct SeededMemFile {
    contents: Vec<u8>,
    seed: PrngSeed,
}

impl SeededMemFile {
    fn new(len: u64, key: u8, nonce: u8) -> SeededMemFile {
        SeededMemFile {
            contents: vec![0xAA; len as usize],
            seed: PrngSeed::from_parts(vec![key; 32], vec![nonce; 12]).unwrap(),
        }
    }
}

impl OverwriteTarget for SeededMemFile {
    fn write_pass<P: ProgressReporter>(&mut self, file_size: u64, pattern: PatternType, progress: &P) -> Result<u64, ShredError> {
        let mut written = 0u64;
        while written < file_size {
            let chunk = next_chunk(file_size, written);
            let bytes = fill_pattern(pattern, &self.seed, written, chunk as usize, "/f")?;
            self.contents[written as usize..(written + chunk) as usize].copy_from_slice(&bytes);
            written += chunk;
            progress.on_progress(written, file_size);
        }
        Ok(written)
    }
    fn stream_position(&mut self) -> Option<u64> {
        None
    }
    fn sync_all(&mut self) -> Result<(), ShredError> {
        Ok(())
    }
    fn verify_final(&mut self, check: WriteCheck, pattern: PatternType, file_size: u64) -> Result<bool, ShredError> {
        for (offset, len) in check_ranges(check, file_size) {
            let expected = fill_pattern(pattern, &self.seed, offset, len as usize, "/f")?;
            if self.contents[offset as usize..(offset + len) as usize] != expected[..] {
                return Ok(false);
            }
        }
        Ok(true)
    }
}

/// The keystream a seed of repeated key and nonce bytes produces from offset 0.
fn expected_stream(key: u8, nonce: u8, len: usize) -> Vec<u8> {
    let mut expected = vec![0u8; len];
    let mut cipher = chacha20::ChaCha20::new(&[key; 32].into(), &[nonce; 12].into());
    cipher.apply_keystream(&mut expected);
    expected
}

#[test]
fn automatic_seeded_overwrite_matches_expected_stream() {
    let mut file = SeededMemFile::new(256 * KIB, 1, 2);
    let outcome =
        overwrite_file(&mut file, 256 * KIB, policy(DeletionMethod::Automatic, WriteCheck::Full), &NoopProgressReporter, "/f").unwrap();

    assert_eq!(outcome.state, OverwriteState::Completed);
    assert_eq!(outcome.passes_completed, 1);
    assert_eq!(outcome.bytes_written, 256 * KIB);
    assert_eq!(outcome.write_check, WriteCheckOutcome::Passed);
    assert!(outcome.issues.is_empty());
    assert_eq!(file.contents, expected_stream(1, 2, 256 * KIB as usize));
}

#[test]
fn legacy_seeded_overwrite_matches_pass3_stream() {
    let mut file = SeededMemFile::new(256 * KIB, 9, 4);
    let outcome =
        overwrite_file(&mut file, 256 * KIB, policy(DeletionMethod::LegacyThreePass, WriteCheck::Full), &NoopProgressReporter, "/f")
            .unwrap();

    assert_eq!(outcome.state, OverwriteState::Completed);
    assert_eq!(outcome.passes_completed, 3);
    assert_eq!(outcome.bytes_written, 3 * 256 * KIB);
    assert_eq!(outcome.write_check, WriteCheckOutcome::Passed);
    assert!(outcome.issues.is_empty());
    // The final content must equal the pass-3 (seeded random) stream.
    assert_eq!(file.contents, expected_stream(9, 4, 256 * KIB as usize));
}

#[test]
fn write_pass_writes_fixed_patterns_and_seeded_random() {
    let size = 64 * KIB;
    for (pattern, expected) in [
        (PatternType::Zeros, vec![0x00u8; size as usize]),
        (PatternType::Ones, vec![0xFFu8; size as usize]),
        (PatternType::Random, expected_stream(5, 6, size as usize)),
    ] {
        let mut file = SeededMemFile::new(size, 5, 6);
        let written = file.write_pass(size, pattern, &NoopProgressReporter).unwrap();
        assert_eq!(written, size);
        assert_eq!(file.contents, expected, "pattern {pattern:?}");
    }
}

#[test]
fn a_changed_byte_fails_the_final_write_check() {
    let mut file = SeededMemFile::new(8 * KIB, 3, 3);
    let outcome =
        overwrite_file(&mut file, 8 * KIB, policy(DeletionMethod::Automatic, WriteCheck::Full), &NoopProgressReporter, "/f").unwrap();
    assert_eq!(outcome.write_check, WriteCheckOutcome::Passed);
    file.contents[100] ^= 1;
    assert!(matches!(file.verify_final(WriteCheck::Full, PatternType::Random, 8 * KIB), Ok(false)));
}

#[test]
fn a_completed_overwrite_reports_the_read_back_answer() {
    use_completed_outcome();
}

fn use_completed_outcome() {
    let passed = completed_outcome(10, 1, WriteCheck::Spot, Ok(true), "/f", vec![]);
    assert_eq!(passed.state, OverwriteState::Completed);
    assert_eq!(passed.write_check, WriteCheckOutcome::Passed);
    assert!(passed.issues.is_empty());
    let failed = completed_outcome(10, 1, WriteCheck::Full, Ok(false), "/f", vec![]);
    assert_eq!(failed.write_check, WriteCheckOutcome::Failed);
    assert!(matches!(failed.issues.last(), Some(ShredError::WriteCheckFailed { path }) if path == "/f"));
    let unread = completed_outcome(10, 1, WriteCheck::Full, Err(ShredError::EmptyPath), "/f", vec![]);
    assert_eq!(unread.write_check, WriteCheckOutcome::Failed);
    let off = completed_outcome(10, 3, WriteCheck::Off, Ok(false), "/f", vec![]);
    assert_eq!(off.write_check, WriteCheckOutcome::NotRun);
    assert_eq!(off.passes_completed, 3);
    assert_eq!(off.bytes_written, 10);
}
