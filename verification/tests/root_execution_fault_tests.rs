use std::cell::RefCell;
use std::collections::{BTreeMap, BTreeSet, VecDeque};

use knockknock::shredder::cancel::CancellationToken;
use knockknock::shredder::engine::OverwriteState;
use knockknock::shredder::journal::{
    JournalEntry, JournalIo, JournalReadError, JournalStore, JournalWriteError, NodeObservation,
};
use knockknock::shredder::progress::NoopProgressReporter;
use knockknock::shredder::root_execution::plan::{
    execute_roots, ChildName, DirHandle, FileShredRequest, FileShredResult, MediaClassifier, NodeHandle,
    NodeIdentity, NodeKind, OpenFileShredder, RenamedNode, SecureTreeIo,
};
use knockknock::shredder::root_execution::types::{
    BatchRootResult, ExecuteRootRequest, ExecuteRootsRequest, ExecutionStage, RootStatus, TargetKind,
};
use knockknock::shredder::types::{DeletionMethod, DeletionPolicy, MediaType, WriteCheck, WriteCheckOutcome};
use knockknock::shredder::{PolicyFileShredder, ShredError};

const HOME: &str = "/home/u";

#[derive(Clone)]
struct FakeNode {
    identity: NodeIdentity,
    kind: NodeKind,
    children: Vec<(String, u64)>,
}

#[derive(Default)]
struct FakeEvents {
    calls: Vec<String>,
    root_opens: usize,
    rename_calls: usize,
}

/// A tree of handles with recorded calls and injectable faults.
struct FakeIo {
    roots: BTreeMap<String, u64>,
    nodes: BTreeMap<u64, FakeNode>,
    link_counts: BTreeMap<u64, u64>,
    fail_enumerate: BTreeSet<u64>,
    fail_open: BTreeSet<u64>,
    fail_rename: bool,
    fail_rollback: bool,
    fail_unlink: bool,
    fail_sync: bool,
    cancel_token: Option<CancellationToken>,
    cancel_on_nth_event: Option<(String, usize)>,
    events: RefCell<FakeEvents>,
}

impl FakeIo {
    fn new() -> Self {
        FakeIo {
            roots: BTreeMap::new(),
            nodes: BTreeMap::new(),
            link_counts: BTreeMap::new(),
            fail_enumerate: BTreeSet::new(),
            fail_open: BTreeSet::new(),
            fail_rename: false,
            fail_rollback: false,
            fail_unlink: false,
            fail_sync: false,
            cancel_token: None,
            cancel_on_nth_event: None,
            events: RefCell::new(FakeEvents::default()),
        }
    }

    /// Stops `token` when the `nth` occurrence of `event` is recorded.
    fn cancel_on_nth(mut self, event: &str, nth: usize, token: CancellationToken) -> Self {
        self.cancel_token = Some(token);
        self.cancel_on_nth_event = Some((event.to_string(), nth));
        self
    }

    fn root(mut self, path: &str, handle: u64, node: FakeNode) -> Self {
        self.roots.insert(path.to_string(), handle);
        self.nodes.insert(handle, node);
        self
    }

    fn add_node(mut self, handle: u64, node: FakeNode) -> Self {
        self.nodes.insert(handle, node);
        self
    }

    fn link_count(mut self, handle: u64, count: u64) -> Self {
        self.link_counts.insert(handle, count);
        self
    }

    fn fail_directory(mut self, handle: u64) -> Self {
        self.fail_enumerate.insert(handle);
        self
    }

    /// Opening the given node for overwrite fails.
    fn fail_open(mut self, handle: u64) -> Self {
        self.fail_open.insert(handle);
        self
    }

    fn fail_rename(mut self) -> Self {
        self.fail_rename = true;
        self
    }

    fn fail_unlink(mut self) -> Self {
        self.fail_unlink = true;
        self
    }

    fn fail_rollback(mut self) -> Self {
        self.fail_rollback = true;
        self
    }

    fn fail_sync(mut self) -> Self {
        self.fail_sync = true;
        self
    }

    fn record(&self, event: &str) {
        let mut events = self.events.borrow_mut();
        if let Some((target, nth)) = &self.cancel_on_nth_event {
            if target == event && events.calls.iter().filter(|call| *call == event).count() + 1 == *nth {
                if let Some(token) = &self.cancel_token {
                    token.cancel();
                }
            }
        }
        events.calls.push(event.to_string());
    }

    fn count(&self, event: &str) -> usize {
        self.events.borrow().calls.iter().filter(|call| *call == event).count()
    }

    fn called(&self, event: &str) -> bool {
        self.count(event) > 0
    }

    fn get_node(&self, handle: u64) -> Result<&FakeNode, ShredError> {
        self.nodes.get(&handle).ok_or_else(|| ShredError::ValidationFailed(format!("unknown fake node {handle}")))
    }
}

impl SecureTreeIo for FakeIo {
    type File = u64;

    fn home_directory(&self) -> Option<String> {
        Some(HOME.to_string())
    }
    fn is_network_location(&self, _path: &str) -> bool {
        false
    }
    fn open_root_nofollow(&self, path: &str) -> Result<DirHandle, ShredError> {
        self.events.borrow_mut().root_opens += 1;
        self.record(&format!("open_root:{path}"));
        self.roots
            .get(path)
            .copied()
            .map(DirHandle::new)
            .ok_or_else(|| ShredError::ValidationFailed("missing fake root".to_string()))
    }
    fn enumerate(&self, dir: &DirHandle) -> Result<Vec<ChildName>, ShredError> {
        self.record("enumerate");
        if self.fail_enumerate.contains(&dir.get_id()) {
            return Err(ShredError::ValidationFailed("injected unreadable directory".to_string()));
        }
        let node = self.get_node(dir.get_id())?;
        Ok(node.children.iter().map(|(name, _)| ChildName::new(name.clone())).collect())
    }
    fn open_child_nofollow(&self, parent: &DirHandle, name: &str) -> Result<NodeHandle, ShredError> {
        self.record("open_child");
        let node = self.get_node(parent.get_id())?;
        node.children
            .iter()
            .find(|(child_name, _)| child_name == name)
            .map(|(_, handle)| NodeHandle::new(*handle))
            .ok_or_else(|| ShredError::ValidationFailed("unknown fake child".to_string()))
    }
    fn identity(&self, node: &NodeHandle) -> Result<NodeIdentity, ShredError> {
        self.record("identity");
        Ok(self.get_node(node.get_id())?.identity)
    }
    fn link_count(&self, node: &NodeHandle) -> Result<u64, ShredError> {
        self.record("link_count");
        Ok(self.link_counts.get(&node.get_id()).copied().unwrap_or(1))
    }
    fn open_regular_for_shred(&self, node: &NodeHandle) -> Result<u64, ShredError> {
        self.record("open_regular");
        if self.fail_open.contains(&node.get_id()) {
            return Err(ShredError::IoError {
                path: "fake".to_string(),
                kind: "injected".to_string(),
                message: "injected open failure".to_string(),
            });
        }
        if self.get_node(node.get_id())?.kind != NodeKind::RegularFile {
            return Err(ShredError::ValidationFailed("fake adapter opened a non-regular node".to_string()));
        }
        Ok(node.get_id())
    }
    fn rename_noreplace(&self, _parent: &DirHandle, _node: &NodeHandle, _new_name: &str) -> Result<RenamedNode, ShredError> {
        let mut events = self.events.borrow_mut();
        events.calls.push("rename".to_string());
        events.rename_calls += 1;
        if self.fail_rename || (self.fail_rollback && events.rename_calls > 1) {
            return Err(ShredError::ValidationFailed("injected rename failure".to_string()));
        }
        Ok(RenamedNode::new())
    }
    fn unlink_leaf(&self, _parent: &DirHandle, _node: &NodeHandle) -> Result<(), ShredError> {
        self.record("unlink");
        if self.fail_unlink {
            return Err(ShredError::ValidationFailed("injected deletion failure".to_string()));
        }
        Ok(())
    }
    fn remove_empty_dir(&self, _parent: &DirHandle, _node: &NodeHandle) -> Result<(), ShredError> {
        self.record("remove_dir");
        Ok(())
    }
    fn sync_parent(&self, _parent: &DirHandle) -> Result<(), ShredError> {
        self.record("sync");
        if self.fail_sync {
            return Err(ShredError::ValidationFailed("injected parent sync failure".to_string()));
        }
        Ok(())
    }
}

/// What the fake shredder reports for one file.
#[derive(Debug, Clone, Copy, PartialEq, Eq)]
enum FakeShredOutcome {
    Completed,
    CompletedCheckFailed,
    PartialPostWriteError,
    CompletedNoCheck,
    NotStarted,
}

struct FakeShredder {
    calls: RefCell<Vec<String>>,
    outcomes: RefCell<VecDeque<FakeShredOutcome>>,
}

impl FakeShredder {
    fn new() -> Self {
        FakeShredder { calls: RefCell::new(Vec::new()), outcomes: RefCell::new(VecDeque::new()) }
    }

    fn outcome(self, outcome: FakeShredOutcome) -> Self {
        self.outcomes.borrow_mut().push_back(outcome);
        self
    }

    fn outcomes(self, outcomes: Vec<FakeShredOutcome>) -> Self {
        self.outcomes.borrow_mut().extend(outcomes);
        self
    }
}

impl OpenFileShredder<u64> for FakeShredder {
    fn shred_open_file(&self, _file: u64, _identity: NodeIdentity, request: &FileShredRequest) -> Result<FileShredResult, ShredError> {
        self.calls.borrow_mut().push(request.diagnostic_path().to_string());
        let path = request.diagnostic_path().to_string();
        match self.outcomes.borrow_mut().pop_front().unwrap_or(FakeShredOutcome::Completed) {
            FakeShredOutcome::Completed => Ok(FileShredResult {
                overwrite_state: OverwriteState::Completed,
                write_check_status: WriteCheckOutcome::Passed,
                bytes_shredded: 7,
                issues: Vec::new(),
            }),
            FakeShredOutcome::CompletedCheckFailed => Ok(FileShredResult {
                overwrite_state: OverwriteState::Completed,
                write_check_status: WriteCheckOutcome::Failed,
                bytes_shredded: 7,
                issues: vec![ShredError::WriteCheckFailed { path }],
            }),
            FakeShredOutcome::PartialPostWriteError => Ok(FileShredResult {
                overwrite_state: OverwriteState::Partial,
                write_check_status: WriteCheckOutcome::NotRun,
                bytes_shredded: 7,
                issues: vec![ShredError::IoError {
                    path,
                    kind: "injected_post_write".to_string(),
                    message: "injected post-write failure".to_string(),
                }],
            }),
            FakeShredOutcome::CompletedNoCheck => Ok(FileShredResult {
                overwrite_state: OverwriteState::Completed,
                write_check_status: WriteCheckOutcome::NotRun,
                bytes_shredded: 0,
                issues: Vec::new(),
            }),
            FakeShredOutcome::NotStarted => Err(ShredError::ValidationFailed("injected child failure".to_string())),
        }
    }
}

/// A journal kept in memory; writes or syncs fail on request, and every
/// operation is recorded.
#[derive(Default)]
struct FakeJournal {
    current: RefCell<Option<Vec<JournalEntry>>>,
    temporary: RefCell<Option<Vec<JournalEntry>>>,
    ops: RefCell<Vec<String>>,
    syncs: RefCell<usize>,
    fail_write: bool,
    fail_every_sync: bool,
    fail_sync_at: Option<usize>,
}

impl FakeJournal {
    fn failing_write() -> Self {
        FakeJournal { fail_write: true, ..FakeJournal::default() }
    }

    fn failing_sync() -> Self {
        FakeJournal { fail_every_sync: true, ..FakeJournal::default() }
    }

    fn failing_sync_at(n: usize) -> Self {
        FakeJournal { fail_sync_at: Some(n), ..FakeJournal::default() }
    }

    fn op_count(&self, op: &str) -> usize {
        self.ops.borrow().iter().filter(|o| *o == op).count()
    }
}

impl JournalIo for FakeJournal {
    fn read(&self, _path: &str) -> Result<Option<Vec<JournalEntry>>, JournalReadError> {
        Ok(self.current.borrow().clone())
    }
    fn write_temp(&self, _path: &str, entries: &[JournalEntry]) -> Result<String, JournalWriteError> {
        self.ops.borrow_mut().push("write_temp".to_string());
        if self.fail_write {
            return Err(JournalWriteError::Io("injected journal write failure".to_string()));
        }
        *self.temporary.borrow_mut() = Some(entries.to_vec());
        Ok("journal.tmp".to_string())
    }
    fn sync(&self, _path: &str) -> Result<(), String> {
        self.ops.borrow_mut().push("sync".to_string());
        *self.syncs.borrow_mut() += 1;
        if self.fail_every_sync || self.fail_sync_at == Some(*self.syncs.borrow()) {
            return Err("injected journal sync failure".to_string());
        }
        Ok(())
    }
    fn sync_parent(&self, _path: &str) -> Result<(), String> {
        self.ops.borrow_mut().push("sync_parent".to_string());
        Ok(())
    }
    fn atomic_replace(&self, _temporary: &str, _destination: &str) -> Result<(), String> {
        self.ops.borrow_mut().push("atomic_replace".to_string());
        let t = self.temporary.borrow_mut().take();
        *self.current.borrow_mut() = t;
        Ok(())
    }
    fn delete(&self, _path: &str) -> Result<(), String> {
        self.ops.borrow_mut().push("delete".to_string());
        *self.temporary.borrow_mut() = None;
        Ok(())
    }
    fn inspect(&self, _path: &str) -> Result<NodeObservation, String> {
        Err("not used".to_string())
    }
    fn is_network_location(&self, _path: &str) -> bool {
        false
    }
}

/// A journal the test can still inspect after handing it to the store.
#[derive(Clone)]
struct SharedJournal(std::rc::Rc<FakeJournal>);

impl JournalIo for SharedJournal {
    fn read(&self, path: &str) -> Result<Option<Vec<JournalEntry>>, JournalReadError> {
        self.0.read(path)
    }
    fn write_temp(&self, path: &str, entries: &[JournalEntry]) -> Result<String, JournalWriteError> {
        self.0.write_temp(path, entries)
    }
    fn sync(&self, path: &str) -> Result<(), String> {
        self.0.sync(path)
    }
    fn sync_parent(&self, path: &str) -> Result<(), String> {
        self.0.sync_parent(path)
    }
    fn atomic_replace(&self, temporary: &str, destination: &str) -> Result<(), String> {
        self.0.atomic_replace(temporary, destination)
    }
    fn delete(&self, path: &str) -> Result<(), String> {
        self.0.delete(path)
    }
    fn inspect(&self, path: &str) -> Result<NodeObservation, String> {
        self.0.inspect(path)
    }
    fn is_network_location(&self, path: &str) -> bool {
        self.0.is_network_location(path)
    }
}

/// The automatic method never asks for the media type.
struct NoClassification;

impl MediaClassifier for NoClassification {
    fn classify(&self, _path: &str) -> Result<MediaType, ShredError> {
        Ok(MediaType::Unknown)
    }
}

fn home_child(name: &str) -> String {
    format!("{HOME}/{name}")
}

fn root_request(id: &str, path: &str, kind: TargetKind) -> ExecuteRootRequest {
    ExecuteRootRequest { target_id: id.to_string(), path: path.to_string(), kind }
}

fn regular(identity: u128) -> FakeNode {
    FakeNode { identity: NodeIdentity::regular(identity, 1), kind: NodeKind::RegularFile, children: Vec::new() }
}

fn directory(identity: u128, children: Vec<(u64, &str)>) -> FakeNode {
    FakeNode {
        identity: NodeIdentity::directory(identity, 1),
        kind: NodeKind::Directory,
        children: children.into_iter().map(|(handle, name)| (name.to_string(), handle)).collect(),
    }
}

fn run_full(
    roots: Vec<ExecuteRootRequest>,
    io: &FakeIo,
    shredder: &FakeShredder,
    journal: &JournalStore<SharedJournal>,
    cancel: &CancellationToken,
) -> BatchRootResult {
    execute_roots(
        ExecuteRootsRequest { roots },
        DeletionPolicy::default(),
        io,
        shredder,
        journal,
        &NoopProgressReporter,
        cancel,
        &NoClassification,
    )
}

fn run_with_journal(
    roots: Vec<ExecuteRootRequest>,
    io: &FakeIo,
    shredder: &FakeShredder,
    journal: &JournalStore<SharedJournal>,
) -> BatchRootResult {
    run_full(roots, io, shredder, journal, &CancellationToken::new())
}

fn journal_with(io: FakeJournal) -> JournalStore<SharedJournal> {
    JournalStore::with_io("/data/journal.json".to_string(), SharedJournal(std::rc::Rc::new(io)))
}

fn shared_journal(io: FakeJournal) -> (JournalStore<SharedJournal>, std::rc::Rc<FakeJournal>) {
    let shared = std::rc::Rc::new(io);
    (JournalStore::with_io("/data/journal.json".to_string(), SharedJournal(shared.clone())), shared)
}

fn run(roots: Vec<ExecuteRootRequest>, io: &FakeIo, shredder: &FakeShredder) -> BatchRootResult {
    run_with_journal(roots, io, shredder, &journal_with(FakeJournal::default()))
}

fn single_file_root(name: &str) -> (String, FakeIo) {
    let root = home_child(name);
    let io = FakeIo::new().root(&root, 1, directory(1, vec![(2, "file")])).add_node(2, regular(2));
    (root, io)
}

#[test]
fn journal_write_failure_prevents_root_rename() {
    let (root, io) = single_file_root("task8-journal-write-failure");
    let shredder = FakeShredder::new();
    let journal = journal_with(FakeJournal::failing_write());

    let result = run_with_journal(vec![root_request("write-failure", &root, TargetKind::Directory)], &io, &shredder, &journal);

    assert_eq!(result.roots[0].status, RootStatus::Failed);
    assert!(!io.called("rename"));
    assert!(result.roots[0].errors.iter().any(|error| error.stage == ExecutionStage::Journal));
}

#[test]
fn journal_sync_failure_prevents_root_rename() {
    let (root, io) = single_file_root("task8-journal-sync-failure");
    let shredder = FakeShredder::new();
    let journal = journal_with(FakeJournal::failing_sync());

    let result = run_with_journal(vec![root_request("sync-failure", &root, TargetKind::Directory)], &io, &shredder, &journal);

    assert_eq!(result.roots[0].status, RootStatus::Failed);
    assert!(!io.called("rename"));
}

#[test]
fn rename_failure_retains_identity_bound_journal_record() {
    let (root, io) = single_file_root("task8-rename-failure");
    let io = io.fail_rename();
    let shredder = FakeShredder::new();
    let journal = journal_with(FakeJournal::default());

    let result = run_with_journal(vec![root_request("rename-failure", &root, TargetKind::Directory)], &io, &shredder, &journal);

    assert_eq!(result.roots[0].status, RootStatus::Failed);
    assert!(!journal.read().expect("journal read").is_empty());
}

#[test]
fn parent_sync_failure_rolls_back_without_deleting() {
    let (root, io) = single_file_root("task8-sync-failure");
    let io = io.fail_sync();
    let shredder = FakeShredder::new();
    let journal = journal_with(FakeJournal::default());

    let result = run_with_journal(vec![root_request("sync-failure", &root, TargetKind::Directory)], &io, &shredder, &journal);

    assert_eq!(result.roots[0].status, RootStatus::Failed);
    assert!(!io.called("unlink"));
    assert!(!journal.read().expect("journal read").is_empty());
}

#[test]
fn deletion_failure_rolls_back_and_retains_journal_record() {
    let (root, io) = single_file_root("task8-delete-failure");
    let io = io.fail_unlink();
    let shredder = FakeShredder::new();
    let journal = journal_with(FakeJournal::default());

    let result = run_with_journal(vec![root_request("delete-failure", &root, TargetKind::Directory)], &io, &shredder, &journal);

    assert_eq!(result.roots[0].status, RootStatus::Failed);
    assert!(!result.roots[0].root_removed);
    assert_eq!(io.events.borrow().rename_calls, 2);
    assert!(!journal.read().expect("journal read").is_empty());
}

#[test]
fn rollback_failure_is_reported_and_never_widens_scope() {
    let (root, io) = single_file_root("task8-rollback-failure");
    let io = io.fail_unlink().fail_rollback();
    let shredder = FakeShredder::new();
    let journal = journal_with(FakeJournal::default());

    let result = run_with_journal(vec![root_request("rollback-failure", &root, TargetKind::Directory)], &io, &shredder, &journal);

    assert_eq!(result.roots[0].status, RootStatus::Failed);
    assert!(result.roots[0].errors.iter().any(|error| error.message.contains("rollback to original name failed")));
    assert!(!result.roots[0].root_removed);
    assert!(!journal.read().expect("journal read").is_empty());
}

#[test]
fn journal_clear_failure_after_delete_is_reported_and_retained() {
    let (root, io) = single_file_root("task8-journal-clear-failure");
    let shredder = FakeShredder::new();
    let journal = journal_with(FakeJournal::failing_sync_at(4));

    let result = run_with_journal(vec![root_request("journal-clear-failure", &root, TargetKind::Directory)], &io, &shredder, &journal);

    assert_eq!(result.roots[0].status, RootStatus::Failed);
    assert_eq!(result.roots[0].files_destroyed, 1);
    assert!(result.roots[0].errors.iter().any(|error| error.stage == ExecutionStage::Journal));
    assert!(!journal.read().expect("journal read").is_empty());
}

#[test]
fn completes_batch_preflight_before_any_mutation() {
    let first = home_child("task7-first");
    let second = home_child("task7-second");
    let io = FakeIo::new()
        .root(&first, 1, directory(1, vec![(2, "file")]))
        .add_node(2, regular(2))
        .root(&second, 3, directory(3, vec![]))
        .fail_directory(3);
    let shredder = FakeShredder::new();

    let result = run(
        vec![root_request("first", &first, TargetKind::Directory), root_request("second", &second, TargetKind::Directory)],
        &io,
        &shredder,
    );

    assert!(result.roots.iter().any(|root| root.status == RootStatus::Failed));
    assert!(shredder.calls.borrow().is_empty());
    assert!(io.events.borrow().calls.iter().all(|call| call != "rename" && call != "unlink" && call != "remove_dir"));
}

#[test]
fn discovered_links_are_unlink_only() {
    let root = home_child("task7-links");
    let io = FakeIo::new()
        .root(&root, 1, directory(1, vec![(2, "link"), (3, "file")]))
        .add_node(2, FakeNode { identity: NodeIdentity::link(2, 1), kind: NodeKind::Link, children: Vec::new() })
        .add_node(3, regular(3));
    let shredder = FakeShredder::new();

    let result = run(vec![root_request("links", &root, TargetKind::Directory)], &io, &shredder);

    assert_eq!(result.roots[0].status, RootStatus::Destroyed);
    assert_eq!(shredder.calls.borrow().len(), 1);
    assert_eq!(io.count("unlink"), 2);
    assert_eq!(io.count("open_regular"), 1);
}

#[test]
fn child_failure_reports_issue_and_later_roots_still_process() {
    let first = home_child("task7-failing");
    let second = home_child("task7-later");
    let io = FakeIo::new()
        .root(&first, 1, directory(1, vec![(2, "file")]))
        .add_node(2, regular(2))
        .root(&second, 3, directory(3, vec![(4, "file")]))
        .add_node(4, regular(4));
    let shredder = FakeShredder::new().outcomes(vec![FakeShredOutcome::NotStarted]);

    let result = run(
        vec![root_request("failing", &first, TargetKind::Directory), root_request("later", &second, TargetKind::Directory)],
        &io,
        &shredder,
    );

    assert_eq!(result.roots[0].status, RootStatus::Failed);
    assert_eq!(result.roots[1].status, RootStatus::Destroyed);
    assert!(result.roots[1].root_removed);
    assert!(result.roots[0].errors.iter().any(|error| error.message.contains("injected child failure")));
    assert!(result.roots[0].errors.iter().all(|error| error.stage == ExecutionStage::Overwrite));
    assert!(result.roots[0].errors.iter().all(|error| !error.message.contains("irreversible partial destruction")));
    assert_eq!(io.count("rename"), 1);
    assert_eq!(io.count("unlink"), 1);
    assert_eq!(io.count("open_regular"), 2);
}

#[test]
fn rejects_special_files_mount_crossings_and_depth_overflow() {
    let special = home_child("task7-special");
    let mount = home_child("task7-mount");
    let deep = home_child("task7-deep");
    let mut io = FakeIo::new()
        .root(&special, 1, FakeNode { identity: NodeIdentity::special(1, 1), kind: NodeKind::Special, children: Vec::new() })
        .root(&mount, 100, directory(100, vec![(101, "mounted")]))
        .add_node(101, FakeNode { identity: NodeIdentity::directory(101, 2), kind: NodeKind::Directory, children: Vec::new() })
        .root(&deep, 200, directory(200, vec![(201, "level")]))
        .add_node(201, directory(201, vec![(202, "level")]));
    for handle in 202..=251u64 {
        io = io.add_node(handle, directory(handle as u128, vec![(handle + 1, "level")]));
    }
    io = io.add_node(252, regular(252));
    let shredder = FakeShredder::new();

    let result = run(
        vec![
            root_request("special", &special, TargetKind::UnknownLegacy),
            root_request("mount", &mount, TargetKind::Directory),
            root_request("deep", &deep, TargetKind::Directory),
        ],
        &io,
        &shredder,
    );

    assert!(result.roots.iter().all(|root| root.status == RootStatus::Failed));
    assert!(shredder.calls.borrow().is_empty());
}

/// A handle whose metadata says it is a regular file of eight bytes.
struct OpenHandle;

impl knockknock::shredder::engine::OverwriteTarget for OpenHandle {
    fn write_pass<P: knockknock::shredder::ProgressReporter>(
        &mut self,
        file_size: u64,
        _pattern: knockknock::shredder::types::PatternType,
        _progress: &P,
    ) -> Result<u64, ShredError> {
        Ok(file_size)
    }
    fn stream_position(&mut self) -> Option<u64> {
        None
    }
    fn sync_all(&mut self) -> Result<(), ShredError> {
        Ok(())
    }
    fn verify_final(
        &mut self,
        _check: knockknock::shredder::types::WriteCheck,
        _pattern: knockknock::shredder::types::PatternType,
        _file_size: u64,
    ) -> Result<bool, ShredError> {
        Ok(true)
    }
}

impl knockknock::shredder::policy::ShredFile for OpenHandle {
    fn facts(&mut self) -> Result<knockknock::shredder::policy::OpenFileFacts, ShredError> {
        Ok(knockknock::shredder::policy::OpenFileFacts { is_file: true, len: 8 })
    }
    fn link_count(&mut self) -> Result<u64, ShredError> {
        Ok(1)
    }
}

#[test]
fn policy_file_shredder_rejects_directory_identity() {
    let adapter = PolicyFileShredder::new(DeletionPolicy::default(), NoopProgressReporter);
    let request = FileShredRequest::new(home_child("task7-directory-handle"));
    let error = adapter
        .shred_open_file(OpenHandle, NodeIdentity::directory(1, 1), &request)
        .expect_err("directory identity must be rejected");

    assert!(matches!(error, ShredError::ValidationFailed(_)));
}

#[test]
fn root_result_aggregates_write_check() {
    let alpha = home_child("task22-aggregate-alpha");
    let beta = home_child("task22-aggregate-beta");
    let gamma = home_child("task22-aggregate-gamma");
    let io = FakeIo::new()
        .root(&alpha, 1, directory(1, vec![(2, "failed"), (3, "passed")]))
        .add_node(2, regular(2))
        .add_node(3, regular(3))
        .root(&beta, 4, directory(4, vec![(5, "passed-a"), (6, "passed-b")]))
        .add_node(5, regular(5))
        .add_node(6, regular(6))
        .root(&gamma, 7, directory(7, vec![(8, "nocheck-a"), (9, "nocheck-b")]))
        .add_node(8, regular(8))
        .add_node(9, regular(9));
    let shredder = FakeShredder::new().outcomes(vec![
        FakeShredOutcome::CompletedCheckFailed,
        FakeShredOutcome::Completed,
        FakeShredOutcome::Completed,
        FakeShredOutcome::Completed,
        FakeShredOutcome::CompletedNoCheck,
        FakeShredOutcome::CompletedNoCheck,
    ]);

    let result = run(
        vec![
            root_request("alpha", &alpha, TargetKind::Directory),
            root_request("beta", &beta, TargetKind::Directory),
            root_request("gamma", &gamma, TargetKind::Directory),
        ],
        &io,
        &shredder,
    );

    assert_eq!(result.roots[0].write_check, WriteCheckOutcome::Failed);
    assert_eq!(result.roots[0].status, RootStatus::Failed);
    assert_eq!(result.roots[1].write_check, WriteCheckOutcome::Passed);
    assert_eq!(result.roots[1].status, RootStatus::Destroyed);
    assert_eq!(result.roots[2].write_check, WriteCheckOutcome::NotRun);
    assert_eq!(result.roots[2].status, RootStatus::Destroyed);
}

#[test]
fn hard_linked_file_inside_directory_root_blocks_before_mutation() {
    let root = home_child("task23-hardlink-inside");
    let io = FakeIo::new()
        .root(&root, 1, directory(1, vec![(2, "linked"), (3, "clean")]))
        .add_node(2, regular(2))
        .add_node(3, regular(3))
        .link_count(2, 2);
    let shredder = FakeShredder::new();

    let result = run(vec![root_request("dir", &root, TargetKind::Directory)], &io, &shredder);

    let root_result = &result.roots[0];
    assert_eq!(root_result.status, RootStatus::Failed);
    assert!(!root_result.root_removed);
    assert!(root_result
        .errors
        .iter()
        .any(|error| error.stage == ExecutionStage::Preflight && error.error_type == "hard_link_blocked"));
    assert!(shredder.calls.borrow().is_empty());
    assert!(!io.called("open_regular"));
    assert!(!io.called("rename") && !io.called("unlink") && !io.called("remove_dir"));
}

#[test]
fn stop_during_file_a_completes_a_skips_b_c() {
    let root = home_child("task24-stop-during-a");
    let cancel = CancellationToken::new();
    let io = FakeIo::new()
        .root(&root, 1, directory(1, vec![(2, "a"), (3, "b"), (4, "c")]))
        .add_node(2, regular(2))
        .add_node(3, regular(3))
        .add_node(4, regular(4))
        .cancel_on_nth("open_regular", 1, cancel.clone());
    let shredder = FakeShredder::new();
    let (journal, journal_io) = shared_journal(FakeJournal::default());

    let result = run_full(vec![root_request("stop", &root, TargetKind::Directory)], &io, &shredder, &journal, &cancel);

    let root_result = &result.roots[0];
    assert_eq!(root_result.status, RootStatus::Cancelled);
    assert!(!root_result.root_removed);
    assert_eq!(root_result.files_destroyed, 1);
    assert_eq!(root_result.bytes_shredded, 7);
    assert!(root_result.errors.is_empty());
    let shred_calls = shredder.calls.borrow();
    assert_eq!(shred_calls.len(), 1, "only A may start overwrite");
    assert_eq!(shred_calls[0], format!("{root}/a"));
    assert_eq!(io.count("rename"), 1);
    assert_eq!(io.count("unlink"), 1);
    assert_eq!(io.count("open_regular"), 1);
    assert_eq!(io.count("remove_dir"), 0, "the cancelled root must not begin directory cleanup");
    assert_eq!(
        journal_io.op_count("write_temp"),
        2,
        "A must append and clear exactly one journal entry"
    );
}

#[test]
fn stop_after_sole_child_completes_prevents_parent_directory_removal() {
    let root = home_child("task24-stop-after-sole-child");
    let cancel = CancellationToken::new();
    let io = FakeIo::new()
        .root(&root, 1, directory(1, vec![(2, "only")]))
        .add_node(2, regular(2))
        .cancel_on_nth("open_regular", 1, cancel.clone());
    let shredder = FakeShredder::new();
    let journal = journal_with(FakeJournal::default());

    let result = run_full(vec![root_request("stop", &root, TargetKind::Directory)], &io, &shredder, &journal, &cancel);

    let root_result = &result.roots[0];
    assert_eq!(root_result.status, RootStatus::Cancelled);
    assert!(!root_result.root_removed);
    assert_eq!(root_result.files_destroyed, 1);
    assert_eq!(root_result.directories_removed, 0);
    assert!(root_result.errors.is_empty());
    assert_eq!(shredder.calls.borrow().len(), 1);
    assert_eq!(io.count("rename"), 1, "the active file must complete cleanup");
    assert_eq!(io.count("unlink"), 1, "the active file must complete cleanup");
    assert_eq!(io.count("remove_dir"), 0, "the parent directory must remain after stop");
}

#[test]
fn stop_before_root_start_skips_all_destructive_processing() {
    let root = home_child("task24-stop-before-root");
    let io = FakeIo::new().root(&root, 1, directory(1, vec![(2, "a")])).add_node(2, regular(2));
    let shredder = FakeShredder::new();
    let (journal, journal_io) = shared_journal(FakeJournal::default());
    let cancel = CancellationToken::new();
    cancel.cancel();

    let result = run_full(vec![root_request("stop", &root, TargetKind::Directory)], &io, &shredder, &journal, &cancel);

    let root_result = &result.roots[0];
    assert_eq!(root_result.status, RootStatus::Cancelled);
    assert!(!root_result.root_removed);
    assert_eq!(root_result.files_destroyed, 0);
    assert_eq!(root_result.directories_removed, 0);
    assert_eq!(root_result.bytes_shredded, 0);
    assert!(root_result.errors.is_empty());
    assert!(shredder.calls.borrow().is_empty(), "no overwrite may start");
    assert!(
        io.events.borrow().calls.iter().any(|call| call.starts_with("open_root:")),
        "preflight inspection may still open the root"
    );
    assert!(!io
        .events
        .borrow()
        .calls
        .iter()
        .any(|call| matches!(call.as_str(), "open_regular" | "rename" | "unlink" | "remove_dir")));
    assert!(journal_io.ops.borrow().is_empty(), "no journal append may occur");
}

/// Reports a media type per path (unknown otherwise), or fails every
/// request; counts the requests.
#[derive(Default)]
struct FakeClassifier {
    media: BTreeMap<String, MediaType>,
    error: bool,
    calls: RefCell<usize>,
}

impl FakeClassifier {
    fn media(mut self, path: &str, media: MediaType) -> Self {
        self.media.insert(path.to_string(), media);
        self
    }

    fn calls(&self) -> usize {
        *self.calls.borrow()
    }
}

impl MediaClassifier for FakeClassifier {
    fn classify(&self, path: &str) -> Result<MediaType, ShredError> {
        *self.calls.borrow_mut() += 1;
        if self.error {
            return Err(ShredError::ValidationFailed(format!("injected classifier failure at {path}")));
        }
        Ok(self.media.get(path).copied().unwrap_or(MediaType::Unknown))
    }
}

fn run_legacy(roots: Vec<ExecuteRootRequest>, io: &FakeIo, shredder: &FakeShredder, classifier: &FakeClassifier) -> BatchRootResult {
    execute_roots(
        ExecuteRootsRequest { roots },
        DeletionPolicy { method: DeletionMethod::LegacyThreePass, write_check: WriteCheck::Off },
        io,
        shredder,
        &journal_with(FakeJournal::default()),
        &NoopProgressReporter,
        &CancellationToken::new(),
        classifier,
    )
}

fn regular_on(identity: u128, mount_id: u64) -> FakeNode {
    FakeNode { identity: NodeIdentity::regular(identity, mount_id), kind: NodeKind::RegularFile, children: Vec::new() }
}

fn directory_on(identity: u128, mount_id: u64) -> FakeNode {
    FakeNode { identity: NodeIdentity::directory(identity, mount_id), kind: NodeKind::Directory, children: Vec::new() }
}

/// A file root `<home>/<parent>/file` whose containing directory is handle
/// `dir` and whose file is handle `dir + 1`.
fn file_root(io: FakeIo, parent: &str, dir: u64) -> (String, FakeIo) {
    let parent = home_child(parent);
    let root = format!("{parent}/file");
    let io = io.root(&parent, dir, directory(dir as u128, vec![])).root(&root, dir + 1, regular((dir + 1) as u128));
    (root, io)
}

fn mutated(io: &FakeIo) -> bool {
    io.called("open_regular") || io.called("rename") || io.called("unlink") || io.called("remove_dir")
}

#[test]
fn rejects_unsafe_roots_before_opening_or_mutation() {
    let io = FakeIo::new();
    let shredder = FakeShredder::new();
    let roots = vec![
        root_request("relative", "relative", TargetKind::Directory),
        root_request("filesystem", "/", TargetKind::Directory),
        root_request("home", HOME, TargetKind::Directory),
        root_request("outside", "/definitely/outside/home", TargetKind::Directory),
    ];

    let result = run(roots.clone(), &io, &shredder);

    assert_eq!(result.roots.len(), roots.len());
    assert!(result.roots.iter().all(|root| root.status == RootStatus::Failed));
    assert_eq!(io.events.borrow().root_opens, 0);
    assert!(shredder.calls.borrow().is_empty());
}

#[test]
fn executes_file_root_using_its_containing_directory() {
    let parent = home_child("task8-file-root-parent");
    let root = format!("{parent}/file");
    let io = FakeIo::new().root(&parent, 1, directory(1, vec![])).root(&root, 2, regular(2));
    let shredder = FakeShredder::new();

    let result = run(vec![root_request("file-root", &root, TargetKind::File)], &io, &shredder);

    assert_eq!(result.roots[0].status, RootStatus::Destroyed);
    assert!(result.roots[0].root_removed);
    assert_eq!(result.roots[0].files_destroyed, 1);
    let events = io.events.borrow();
    let first_mutation = events
        .calls
        .iter()
        .position(|call| call == "open_regular")
        .expect("file mutation must open the regular file");
    assert!(events.calls[..first_mutation].iter().any(|call| call == &format!("open_root:{parent}")));
    assert!(events.calls[..first_mutation].iter().filter(|call| call.starts_with("open_root:")).count() >= 2);
    assert!(events.calls[first_mutation..].iter().all(|call| !call.starts_with("open_root:")));
}

#[test]
fn rejects_parent_child_root_overlap_before_mutation() {
    let parent = home_child("task7-parent");
    let child = format!("{parent}/child");
    let io = FakeIo::new().root(&parent, 1, directory(1, vec![])).root(&child, 2, regular(2));
    let shredder = FakeShredder::new();

    let result = run(
        vec![root_request("parent", &parent, TargetKind::Directory), root_request("child", &child, TargetKind::File)],
        &io,
        &shredder,
    );

    assert_eq!(result.roots[1].status, RootStatus::Failed);
    assert!(shredder.calls.borrow().is_empty());
    assert!(!io.called("rename") && !io.called("unlink") && !io.called("remove_dir"));
}

#[test]
fn rejects_duplicate_node_identities_before_mutation() {
    let first = home_child("task7-duplicate-first");
    let second = home_child("task7-duplicate-second");
    let io = FakeIo::new().root(&first, 1, regular(42)).root(&second, 2, regular(42));
    let shredder = FakeShredder::new();

    let result = run(
        vec![root_request("first", &first, TargetKind::File), root_request("second", &second, TargetKind::File)],
        &io,
        &shredder,
    );

    assert_eq!(result.roots[1].status, RootStatus::Failed);
    assert!(shredder.calls.borrow().is_empty());
    assert!(!io.called("rename") && !io.called("unlink"));
}

#[test]
fn write_check_failure_does_not_prevent_removal() {
    let (root, io) = file_root(FakeIo::new(), "task22-check-failure", 1);
    let shredder = FakeShredder::new().outcome(FakeShredOutcome::CompletedCheckFailed);
    let journal = journal_with(FakeJournal::default());

    let result = run_with_journal(vec![root_request("check-failure", &root, TargetKind::File)], &io, &shredder, &journal);

    let root_result = &result.roots[0];
    assert_eq!(root_result.status, RootStatus::Failed);
    assert!(root_result.root_removed);
    assert_eq!(root_result.files_destroyed, 1);
    assert_eq!(root_result.write_check, WriteCheckOutcome::Failed);
    assert!(root_result
        .errors
        .iter()
        .any(|error| error.stage == ExecutionStage::Verify && error.error_type == "write_check_failed"));
    assert!(io.called("rename"));
    assert!(io.called("unlink"));
    assert!(journal.read().expect("journal read").is_empty());
}

#[test]
fn not_started_failure_leaves_target_intact() {
    let (root, io) = file_root(FakeIo::new(), "task22-not-started", 1);
    let shredder = FakeShredder::new().outcome(FakeShredOutcome::NotStarted);
    let journal = journal_with(FakeJournal::default());

    let result = run_with_journal(vec![root_request("not-started", &root, TargetKind::File)], &io, &shredder, &journal);

    let root_result = &result.roots[0];
    assert_eq!(root_result.status, RootStatus::Failed);
    assert!(!root_result.root_removed);
    assert_eq!(root_result.files_destroyed, 0);
    assert_eq!(root_result.write_check, WriteCheckOutcome::NotRun);
    assert_eq!(shredder.calls.borrow().len(), 1);
    assert!(root_result.errors.iter().any(|error| error.stage == ExecutionStage::Overwrite));
    assert!(!io.called("rename"));
    assert!(!io.called("unlink"));
    assert!(journal.read().expect("journal read").is_empty());
}

#[test]
fn open_failure_is_per_file_issue_and_batch_continues() {
    let (first, io) = file_root(FakeIo::new(), "task30-open-failure-parent", 1);
    let (second, io) = file_root(io, "task30-open-later-parent", 3);
    let io = io.fail_open(2);
    let shredder = FakeShredder::new();

    let result = run(
        vec![root_request("open-failure", &first, TargetKind::File), root_request("later", &second, TargetKind::File)],
        &io,
        &shredder,
    );

    let first_result = &result.roots[0];
    assert_eq!(first_result.status, RootStatus::Failed);
    assert!(!first_result.root_removed);
    assert_eq!(first_result.files_destroyed, 0);
    assert!(first_result
        .errors
        .iter()
        .any(|error| error.stage == ExecutionStage::Overwrite && error.message.contains("injected open failure")));
    assert_eq!(result.roots[1].status, RootStatus::Destroyed);
    assert!(result.roots[1].root_removed);
    assert_eq!(result.roots[1].files_destroyed, 1);
    assert_eq!(io.count("open_regular"), 2);
    assert_eq!(io.count("rename"), 1);
    assert_eq!(io.count("unlink"), 1);
    let calls = shredder.calls.borrow();
    assert_eq!(calls.len(), 1);
    assert_eq!(calls[0], second);
}

#[test]
fn post_write_error_yields_partial_and_cleans_up_current_file() {
    let (root, io) = file_root(FakeIo::new(), "task22-partial", 1);
    let shredder = FakeShredder::new().outcome(FakeShredOutcome::PartialPostWriteError);
    let (journal, journal_io) = shared_journal(FakeJournal::default());

    let result = run_with_journal(vec![root_request("partial", &root, TargetKind::File)], &io, &shredder, &journal);

    let root_result = &result.roots[0];
    assert_eq!(root_result.status, RootStatus::Failed);
    assert!(root_result.root_removed);
    assert_eq!(root_result.files_destroyed, 1);
    assert_eq!(root_result.write_check, WriteCheckOutcome::NotRun);
    assert!(root_result.errors.iter().any(|error| {
        error.stage == ExecutionStage::Overwrite && error.message.contains("injected post-write failure")
    }));
    assert!(io.called("rename"));
    assert!(io.called("unlink"));
    assert_eq!(journal_io.op_count("write_temp"), 2, "the partial file must append and clear its journal entry");
}

#[test]
fn root_with_file_issues_is_failed_not_destroyed_but_removed_and_batch_continues() {
    let (first, io) = file_root(FakeIo::new(), "task22-issue-root-parent", 1);
    let (second, io) = file_root(io, "task22-later-root-parent", 3);
    let shredder = FakeShredder::new().outcome(FakeShredOutcome::CompletedCheckFailed);

    let result = run(
        vec![root_request("issue", &first, TargetKind::File), root_request("later", &second, TargetKind::File)],
        &io,
        &shredder,
    );

    assert_eq!(result.roots[0].status, RootStatus::Failed);
    assert!(result.roots[0].root_removed);
    assert_eq!(result.roots[0].write_check, WriteCheckOutcome::Failed);
    assert_eq!(result.roots[1].status, RootStatus::Destroyed);
    assert!(result.roots[1].root_removed);
    assert_eq!(result.roots[1].write_check, WriteCheckOutcome::Passed);
    assert_eq!(io.count("open_regular"), 2);
}

#[test]
fn hard_linked_file_root_blocked_before_overwrite() {
    let (root, io) = file_root(FakeIo::new(), "task23-hardlink-root", 1);
    let io = io.link_count(2, 2);
    let shredder = FakeShredder::new();

    let result = run(vec![root_request("hard-link", &root, TargetKind::File)], &io, &shredder);

    let root_result = &result.roots[0];
    assert_eq!(root_result.status, RootStatus::Failed);
    assert!(!root_result.root_removed);
    assert!(root_result
        .errors
        .iter()
        .any(|error| error.stage == ExecutionStage::Preflight && error.error_type == "hard_link_blocked"));
    assert!(shredder.calls.borrow().is_empty());
    assert!(!io.called("open_regular"));
    assert!(!io.called("rename"));
}

#[test]
fn stop_between_roots_marks_remaining_cancelled() {
    let cancel = CancellationToken::new();
    let (first, io) = file_root(FakeIo::new(), "task24-between-parent-a", 1);
    let (second, io) = file_root(io, "task24-between-parent-b", 3);
    // A file root's lifecycle syncs after the rename and after the unlink;
    // stopping on the second lets the first root finish.
    let io = io.cancel_on_nth("sync", 2, cancel.clone());
    let shredder = FakeShredder::new();
    let journal = journal_with(FakeJournal::default());

    let result = run_full(
        vec![root_request("first", &first, TargetKind::File), root_request("second", &second, TargetKind::File)],
        &io,
        &shredder,
        &journal,
        &cancel,
    );

    assert_eq!(result.roots[0].status, RootStatus::Destroyed);
    assert!(result.roots[0].root_removed);
    assert_eq!(result.roots[1].status, RootStatus::Cancelled);
    assert!(!result.roots[1].root_removed);
    assert_eq!(result.roots[1].bytes_shredded, 0);
    assert_eq!(io.count("open_regular"), 1);
}

#[test]
fn legacy_rejected_on_ssd_root_before_mutation() {
    let (root, io) = file_root(FakeIo::new(), "task31-ssd-root-parent", 1);
    let classifier = FakeClassifier::default().media(&root, MediaType::Ssd);
    let shredder = FakeShredder::new();

    let result = run_legacy(vec![root_request("ssd", &root, TargetKind::File)], &io, &shredder, &classifier);

    let root_result = &result.roots[0];
    assert_eq!(root_result.status, RootStatus::Failed);
    assert!(!root_result.root_removed);
    assert_eq!(root_result.files_destroyed, 0);
    assert!(root_result.errors.iter().any(|error| {
        error.stage == ExecutionStage::Preflight && error.error_type == "unsupported_storage_for_method"
    }));
    assert!(shredder.calls.borrow().is_empty());
    assert!(!mutated(&io));
    assert_eq!(classifier.calls(), 1);
}

#[test]
fn legacy_allowed_on_hdd_root() {
    let (root, io) = file_root(FakeIo::new(), "task31-hdd-root-parent", 1);
    let classifier = FakeClassifier::default().media(&root, MediaType::Hdd);
    let shredder = FakeShredder::new();

    let result = run_legacy(vec![root_request("hdd", &root, TargetKind::File)], &io, &shredder, &classifier);

    let root_result = &result.roots[0];
    assert_eq!(root_result.status, RootStatus::Destroyed);
    assert!(root_result.root_removed);
    assert_eq!(root_result.files_destroyed, 1);
    assert!(root_result.errors.is_empty());
    assert_eq!(classifier.calls(), 1);
}

#[test]
fn legacy_rejected_when_classifier_errors() {
    let (root, io) = file_root(FakeIo::new(), "task31-classify-error-parent", 1);
    let classifier = FakeClassifier { error: true, ..FakeClassifier::default() };
    let shredder = FakeShredder::new();

    let result = run_legacy(vec![root_request("classify-error", &root, TargetKind::File)], &io, &shredder, &classifier);

    let root_result = &result.roots[0];
    assert_eq!(root_result.status, RootStatus::Failed);
    assert!(!root_result.root_removed);
    assert!(root_result.errors.iter().any(|error| {
        error.stage == ExecutionStage::Preflight && error.message.contains("injected classifier failure")
    }));
    assert!(shredder.calls.borrow().is_empty());
    assert!(!mutated(&io));
    assert_eq!(classifier.calls(), 1);
}

/// File roots `<home>/<parent>/file` on the given mounts.
fn file_roots_on(parents: [(&str, u64); 2]) -> (Vec<String>, FakeIo) {
    let mut io = FakeIo::new();
    let mut roots = Vec::new();
    for (i, (parent, mount)) in parents.iter().enumerate() {
        let dir = 2 * i as u64 + 1;
        let parent = home_child(parent);
        let root = format!("{parent}/file");
        io = io.root(&parent, dir, directory_on(dir as u128, *mount)).root(&root, dir + 1, regular_on((dir + 1) as u128, *mount));
        roots.push(root);
    }
    (roots, io)
}

#[test]
fn mixed_roots_ssd_aborts_whole_batch() {
    let (roots, io) = file_roots_on([("task31-mixed-ssd-parent", 1), ("task31-mixed-hdd-parent", 2)]);
    let classifier = FakeClassifier::default().media(&roots[0], MediaType::Ssd).media(&roots[1], MediaType::Hdd);
    let shredder = FakeShredder::new();

    let result = run_legacy(
        vec![root_request("ssd", &roots[0], TargetKind::File), root_request("hdd", &roots[1], TargetKind::File)],
        &io,
        &shredder,
        &classifier,
    );

    assert_eq!(result.roots[0].status, RootStatus::Failed);
    assert!(result.roots[0].errors.iter().any(|error| {
        error.stage == ExecutionStage::Preflight && error.error_type == "unsupported_storage_for_method"
    }));
    assert_eq!(result.roots[1].status, RootStatus::Skipped);
    assert!(result.roots[1].errors.is_empty());
    assert!(shredder.calls.borrow().is_empty());
    assert!(!mutated(&io));
    assert_eq!(classifier.calls(), 2);
}

#[test]
fn automatic_runs_without_classification() {
    let (roots, io) = file_roots_on([("task31-auto-parent-a", 1), ("task31-auto-parent-b", 2)]);
    let classifier = FakeClassifier::default();
    let shredder = FakeShredder::new();

    let result = execute_roots(
        ExecuteRootsRequest {
            roots: vec![root_request("auto-a", &roots[0], TargetKind::File), root_request("auto-b", &roots[1], TargetKind::File)],
        },
        DeletionPolicy::default(),
        &io,
        &shredder,
        &journal_with(FakeJournal::default()),
        &NoopProgressReporter,
        &CancellationToken::new(),
        &classifier,
    );

    assert_eq!(result.roots[0].status, RootStatus::Destroyed);
    assert_eq!(result.roots[1].status, RootStatus::Destroyed);
    assert_eq!(classifier.calls(), 0);
}

#[test]
fn classification_cached_per_distinct_mount_id() {
    let (roots, io) = file_roots_on([("task31-cache-same-parent-a", 1), ("task31-cache-same-parent-b", 1)]);
    let classifier = FakeClassifier::default().media(&roots[0], MediaType::Hdd).media(&roots[1], MediaType::Hdd);
    let shredder = FakeShredder::new();
    let result = run_legacy(
        vec![root_request("same-a", &roots[0], TargetKind::File), root_request("same-b", &roots[1], TargetKind::File)],
        &io,
        &shredder,
        &classifier,
    );
    assert_eq!(result.roots[0].status, RootStatus::Destroyed);
    assert_eq!(result.roots[1].status, RootStatus::Destroyed);
    assert_eq!(classifier.calls(), 1, "one call per distinct mount id");

    let (roots, io) = file_roots_on([("task31-cache-diff-parent-a", 1), ("task31-cache-diff-parent-b", 2)]);
    let classifier = FakeClassifier::default().media(&roots[0], MediaType::Hdd).media(&roots[1], MediaType::Hdd);
    let shredder = FakeShredder::new();
    let result = run_legacy(
        vec![root_request("diff-a", &roots[0], TargetKind::File), root_request("diff-b", &roots[1], TargetKind::File)],
        &io,
        &shredder,
        &classifier,
    );
    assert_eq!(result.roots[0].status, RootStatus::Destroyed);
    assert_eq!(result.roots[1].status, RootStatus::Destroyed);
    assert_eq!(classifier.calls(), 2, "one call per distinct mount id");
}

#[test]
fn text_refusals_carry_their_exact_message() {
    let io = FakeIo::new();
    let shredder = FakeShredder::new();
    let result = run(
        vec![
            root_request("relative", "relative", TargetKind::Directory),
            root_request("filesystem", "/", TargetKind::Directory),
            root_request("parent", "/home/u/../x", TargetKind::Directory),
        ],
        &io,
        &shredder,
    );
    let messages: Vec<&str> = result.roots.iter().map(|r| r.errors[0].message.as_str()).collect();
    assert_eq!(
        messages,
        vec![
            "Validation failed: relative paths are not safe execution roots",
            "Validation failed: filesystem roots are not safe execution roots",
            "Validation failed: parent traversal is not safe for execution roots",
        ]
    );
    assert!(result.roots.iter().all(|r| r.errors[0].error_type == "validation_failed"));
    assert_eq!(io.events.borrow().root_opens, 0);
}

#[test]
fn more_than_one_name_blocks_a_file() {
    assert!(knockknock::shredder::root_execution::plan::check_link_count("/f", 1).is_ok());
    assert!(matches!(
        knockknock::shredder::root_execution::plan::check_link_count("/f", 2),
        Err(ShredError::HardLinkBlocked { count: 2, .. })
    ));
}
