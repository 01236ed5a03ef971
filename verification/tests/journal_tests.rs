use std::cell::RefCell;
use std::collections::BTreeMap;

use knockknock::shredder::journal::{
    cleanup_orphans, is_valid_basename, JournalEntry, JournalError, JournalIo, JournalNodeIdentity,
    JournalNodeKind, JournalOperation, JournalReadError, JournalStore, JournalWriteError, NodeObservation,
};

#[derive(Default)]
struct MemJournal {
    current: RefCell<Option<Vec<JournalEntry>>>,
    temporary: RefCell<Option<Vec<JournalEntry>>>,
    nodes: RefCell<BTreeMap<String, NodeObservation>>,
    deleted: RefCell<Vec<String>>,
    fail_sync: RefCell<bool>,
}

impl JournalIo for MemJournal {
    fn read(&self, _path: &str) -> Result<Option<Vec<JournalEntry>>, JournalReadError> {
        Ok(self.current.borrow().clone())
    }
    fn write_temp(&self, _path: &str, entries: &[JournalEntry]) -> Result<String, JournalWriteError> {
        *self.temporary.borrow_mut() = Some(entries.to_vec());
        Ok("journal.tmp".to_string())
    }
    fn sync(&self, _path: &str) -> Result<(), String> {
        if *self.fail_sync.borrow() {
            return Err("injected journal sync failure".to_string());
        }
        Ok(())
    }
    fn sync_parent(&self, _path: &str) -> Result<(), String> {
        Ok(())
    }
    fn atomic_replace(&self, _temporary: &str, _destination: &str) -> Result<(), String> {
        let t = self.temporary.borrow_mut().take();
        *self.current.borrow_mut() = t;
        Ok(())
    }
    fn delete(&self, path: &str) -> Result<(), String> {
        self.deleted.borrow_mut().push(path.to_string());
        self.nodes.borrow_mut().remove(path);
        Ok(())
    }
    fn inspect(&self, path: &str) -> Result<NodeObservation, String> {
        self.nodes.borrow().get(path).copied().ok_or("missing".to_string())
    }
    fn is_network_location(&self, _path: &str) -> bool {
        false
    }
}

fn entry() -> JournalEntry {
    JournalEntry::identity_bound(
        "/tmp/trusted-parent".to_string(),
        JournalNodeIdentity::new(10, 20),
        ".knockknock-generated".to_string(),
        JournalNodeIdentity::new(30, 40),
        JournalNodeKind::RegularFile,
    )
}

fn observation(kind: JournalNodeKind, id: u128, mount: u64) -> NodeObservation {
    NodeObservation { kind, identity: Some(JournalNodeIdentity::new(id, mount)) }
}

#[test]
fn identity_bound_records_carry_their_operational_path() {
    let e = entry();
    assert!(e.is_identity_bound());
    assert_eq!(e.renamed_path, "/tmp/trusted-parent/.knockknock-generated");
    assert_eq!(e.operational_path().unwrap(), "/tmp/trusted-parent/.knockknock-generated");
    let mut legacy = entry();
    legacy.operation = JournalOperation::LegacyPathOnly;
    assert!(!legacy.is_identity_bound());
    assert!(matches!(legacy.operational_path(), Err(JournalError::LegacyRecord { .. })));
}

#[test]
fn append_then_clear_leaves_the_journal_as_it_was() {
    let store = JournalStore::with_io("/j/journal.json".to_string(), MemJournal::default());
    assert!(store.read().unwrap().is_empty());
    store.append(entry()).unwrap();
    assert_eq!(store.read().unwrap().len(), 1);
    store.clear(&store.read().unwrap()[0]).unwrap();
    assert!(store.read().unwrap().is_empty());
}

#[test]
fn legacy_records_are_refused_and_missing_records_are_errors() {
    let store = JournalStore::with_io("/j/journal.json".to_string(), MemJournal::default());
    let mut legacy = entry();
    legacy.operation = JournalOperation::LegacyPathOnly;
    assert!(matches!(store.append(legacy), Err(JournalError::LegacyRecord { path }) if path == "/tmp/trusted-parent/.knockknock-generated"));
    assert!(matches!(store.clear(&entry()), Err(JournalError::RecordNotFound { .. })));
}

#[test]
fn a_failed_sync_leaves_the_previous_journal_in_place() {
    let io = MemJournal::default();
    *io.current.borrow_mut() = Some(vec![entry()]);
    *io.fail_sync.borrow_mut() = true;
    let store = JournalStore::with_io("/j/journal.json".to_string(), io);
    assert!(matches!(store.append(entry()), Err(JournalError::Io { .. })));
    assert_eq!(store.read().unwrap().len(), 1);
}

#[test]
fn recovery_deletes_a_confirmed_generated_file_and_clears_its_record() {
    let io = MemJournal::default();
    io.nodes.borrow_mut().insert("/tmp/trusted-parent".to_string(), observation(JournalNodeKind::Directory, 10, 20));
    io.nodes.borrow_mut().insert(
        "/tmp/trusted-parent/.knockknock-generated".to_string(),
        observation(JournalNodeKind::RegularFile, 30, 40),
    );
    let store = JournalStore::with_io("/j/journal.json".to_string(), io);
    store.append(entry()).unwrap();
    let remaining = store.recover().unwrap();
    assert!(remaining.is_empty());
}

#[test]
fn recovery_refuses_a_replaced_file() {
    let io = MemJournal::default();
    io.nodes.borrow_mut().insert("/tmp/trusted-parent".to_string(), observation(JournalNodeKind::Directory, 10, 20));
    io.nodes.borrow_mut().insert(
        "/tmp/trusted-parent/.knockknock-generated".to_string(),
        observation(JournalNodeKind::RegularFile, 99, 40),
    );
    let store = JournalStore::with_io("/j/journal.json".to_string(), io);
    store.append(entry()).unwrap();
    match store.recover() {
        Err(JournalError::IdentityMismatch { reason, .. }) => {
            assert_eq!(reason, "generated target identity does not match the journal")
        }
        other => panic!("unexpected {other:?}"),
    }
    assert_eq!(store.read().unwrap().len(), 1);
}

#[test]
fn recovery_refuses_an_unsafe_parent() {
    let store = JournalStore::with_io("/j/journal.json".to_string(), MemJournal::default());
    let mut e = entry();
    e.trusted_parent_path = "relative/parent".to_string();
    assert!(matches!(store.recover_entry(&e), Err(JournalError::UnsafeParent { .. })));
}

#[test]
fn an_unresolved_journal_location_is_an_io_error() {
    match cleanup_orphans(Err("no data folder".to_string()), MemJournal::default()) {
        Err(JournalError::Io { operation, path, message }) => {
            assert_eq!(operation, "resolve journal path");
            assert_eq!(path, "");
            assert_eq!(message, "no data folder");
        }
        other => panic!("unexpected {other:?}"),
    }
    assert!(cleanup_orphans(Ok("/j/journal.json".to_string()), MemJournal::default()).unwrap().is_empty());
}

#[test]
fn basenames_are_single_plain_components() {
    assert!(is_valid_basename(".knockknock-00"));
    assert!(!is_valid_basename(""));
    assert!(!is_valid_basename("a/b"));
    assert!(!is_valid_basename(".."));
    assert!(!is_valid_basename("."));
}

#[test]
fn journal_error_messages() {
    let e = JournalError::RecordNotFound { path: "/x".to_string() };
    assert_eq!(e.message(), "journal record was not found while clearing: /x");
    assert_eq!(e.path(), Some("/x"));
    assert_eq!(JournalError::Serialize("bad".to_string()).path(), None);
}

/// Journal storage that fails the write of the temporary file, or the
/// sync with the given ordinal (counting from one).
#[derive(Default)]
struct FaultyJournal {
    inner: MemJournal,
    fail_write: bool,
    syncs: RefCell<usize>,
    fail_sync_at: Option<usize>,
}

impl JournalIo for FaultyJournal {
    fn read(&self, path: &str) -> Result<Option<Vec<JournalEntry>>, JournalReadError> {
        self.inner.read(path)
    }
    fn write_temp(&self, path: &str, entries: &[JournalEntry]) -> Result<String, JournalWriteError> {
        if self.fail_write {
            return Err(JournalWriteError::Io("injected journal write failure".to_string()));
        }
        self.inner.write_temp(path, entries)
    }
    fn sync(&self, path: &str) -> Result<(), String> {
        *self.syncs.borrow_mut() += 1;
        if self.fail_sync_at == Some(*self.syncs.borrow()) {
            return Err("injected journal sync failure".to_string());
        }
        self.inner.sync(path)
    }
    fn sync_parent(&self, path: &str) -> Result<(), String> {
        self.inner.sync_parent(path)
    }
    fn atomic_replace(&self, temporary: &str, destination: &str) -> Result<(), String> {
        self.inner.atomic_replace(temporary, destination)
    }
    fn delete(&self, path: &str) -> Result<(), String> {
        *self.inner.temporary.borrow_mut() = None;
        self.inner.delete(path)
    }
    fn inspect(&self, path: &str) -> Result<NodeObservation, String> {
        self.inner.inspect(path)
    }
    fn is_network_location(&self, path: &str) -> bool {
        self.inner.is_network_location(path)
    }
}

fn same_records(found: &[JournalEntry], expected: &[JournalEntry]) -> bool {
    found.len() == expected.len()
        && found.iter().zip(expected.iter()).all(|(a, b)| knockknock::shredder::journal::entries_match(a, b))
}

#[test]
fn temporary_store_round_trips_identity_bound_entries() {
    let store = JournalStore::with_io("/data/journal.json".to_string(), MemJournal::default());
    let expected = entry();

    store.append(expected.clone()).expect("journal append");

    let entries = store.read().expect("journal read");
    assert!(same_records(&entries, &[expected]));
}

#[test]
fn journal_write_fault_is_returned_and_does_not_create_a_record() {
    let io = FaultyJournal { fail_write: true, ..FaultyJournal::default() };
    let store = JournalStore::with_io("/data/journal.json".to_string(), io);

    let error = store.append(entry()).expect_err("write fault must fail");
    assert!(matches!(error, JournalError::Io { .. }));
    assert!(store.read().expect("journal read").is_empty());
}

#[test]
fn clear_sync_fault_is_returned_and_record_remains_recoverable() {
    let io = FaultyJournal { fail_sync_at: Some(4), ..FaultyJournal::default() };
    let store = JournalStore::with_io("/data/journal.json".to_string(), io);
    let expected = entry();
    store.append(expected.clone()).expect("journal append");

    let error = store.clear(&expected).expect_err("clear sync fault must fail");
    assert!(matches!(error, JournalError::Io { .. }));
    assert!(same_records(&store.read().expect("journal read"), &[expected]));
}
