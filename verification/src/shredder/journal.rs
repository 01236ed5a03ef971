//! The durable deletion journal: identity-bound records written before a
//! root file is renamed, cleared after it is gone, and replayed on recovery.

use vstd::prelude::*;
pub use crate::shredder::errors::JournalError;
use crate::pathname::{
    contains_parent_component, has_parent_component, is_absolute, join, join_path, parent_of,
    parent_path, path_is_absolute,
};
use crate::text::{cat, cat3, chars_of, contains_char, str_eq};
use crate::clock::unix_now_secs;

verus! {

/// What a journal record describes.
#[derive(Debug, Clone, Copy, PartialEq, Eq, Structural)]
pub enum JournalOperation {
    RootFileRename,
    LegacyPathOnly,
}

impl Default for JournalOperation {
    fn default() -> (r: Self)
        ensures
            r == JournalOperation::LegacyPathOnly,
    {
        JournalOperation::LegacyPathOnly
    }
}

/// Kind of the node a record describes.
#[derive(Debug, Clone, Copy, PartialEq, Eq, Structural)]
pub enum JournalNodeKind {
    RegularFile,
    Directory,
    Link,
    Special,
}

/// Filesystem identity of a node: its number and the volume it lives on.
#[derive(Debug, Clone, Copy, PartialEq, Eq, Structural)]
pub struct JournalNodeIdentity {
    pub id: u128,
    pub mount_id: u64,
}

impl JournalNodeIdentity {
    /// The identity with the given node number and volume.
    pub fn new(id: u128, mount_id: u64) -> (r: Self)
        ensures
            r.id == id,
            r.mount_id == mount_id,
    {
        JournalNodeIdentity { id, mount_id }
    }
}

/// Durable cleanup record. `renamed_path` is diagnostic only; recovery
/// reconstructs the operational name from `trusted_parent_path` and
/// `generated_basename` after identity validation.
#[derive(Debug, Clone)]
pub struct JournalEntry {
    pub operation: JournalOperation,
    pub trusted_parent_path: String,
    pub trusted_parent_identity: Option<JournalNodeIdentity>,
    pub generated_basename: Option<String>,
    pub node_identity: Option<JournalNodeIdentity>,
    pub node_kind: Option<JournalNodeKind>,
    pub original_path_hash: Option<String>,
    pub renamed_path: String,
    pub timestamp: u64,
}

/// The view of an optional string.
pub open spec fn opt_view(s: Option<String>) -> Option<Seq<char>> {
    match s {
        Some(v) => Some(v@),
        None => None,
    }
}

/// Every field of a record, strings taken by their characters.
pub open spec fn entry_key(e: JournalEntry) -> (
    JournalOperation,
    Seq<char>,
    Option<JournalNodeIdentity>,
    Option<Seq<char>>,
    Option<JournalNodeIdentity>,
    Option<JournalNodeKind>,
    Option<Seq<char>>,
    Seq<char>,
    u64,
) {
    (
        e.operation,
        e.trusted_parent_path@,
        e.trusted_parent_identity,
        opt_view(e.generated_basename),
        e.node_identity,
        e.node_kind,
        opt_view(e.original_path_hash),
        e.renamed_path@,
        e.timestamp,
    )
}

/// Two records hold the same fields.
pub open spec fn same_entry(a: JournalEntry, b: JournalEntry) -> bool {
    entry_key(a) == entry_key(b)
}

/// A name is one plain path component: not empty, no separator, not `.` or `..`.
pub open spec fn valid_basename(name: Seq<char>) -> bool {
    name.len() > 0 && !name.contains('/') && name != seq!['.'] && name != seq!['.', '.']
}

/// The record carries everything recovery needs to act on it.
pub open spec fn is_identity_bound(e: JournalEntry) -> bool {
    &&& e.operation == JournalOperation::RootFileRename
    &&& e.trusted_parent_identity is Some
    &&& e.generated_basename is Some
    &&& e.node_identity is Some
    &&& e.node_kind is Some
    &&& valid_basename(e.generated_basename.unwrap()@)
}

/// The textual conditions recovery demands of a recorded parent.
pub open spec fn safe_recovery_parent_text(parent: Seq<char>) -> bool {
    is_absolute(parent) && !has_parent_component(parent) && parent_of(parent) is Some
}

/// Whether a name is one plain path component.
pub fn is_valid_basename(name: &str) -> (r: bool)
    ensures
        r == valid_basename(name@),
{
    let v = chars_of(name);
    if v.len() == 0 || contains_char(v.as_slice(), '/') {
        return false;
    }
    if v.len() == 1 && v[0] == '.' {
        assert(v@ =~= seq!['.']);
        return false;
    }
    if v.len() == 2 && v[0] == '.' && v[1] == '.' {
        assert(v@ =~= seq!['.', '.']);
        return false;
    }
    proof {
        if v@ == seq!['.'] {
            assert(v@[0] == '.');
        }
        if v@ == seq!['.', '.'] {
            assert(v@[0] == '.' && v@[1] == '.');
        }
    }
    true
}

fn copy_opt_string(s: &Option<String>) -> (r: Option<String>)
    ensures
        r == *s,
{
    match s {
        Some(v) => Some(v.clone()),
        None => None,
    }
}

impl JournalEntry {
    /// A record bound to the identities of the parent and of the node, with
    /// the current time.
    pub fn identity_bound(
        trusted_parent_path: String,
        trusted_parent_identity: JournalNodeIdentity,
        generated_basename: String,
        node_identity: JournalNodeIdentity,
        node_kind: JournalNodeKind,
    ) -> (r: Self)
        ensures
            r.operation == JournalOperation::RootFileRename,
            r.trusted_parent_path@ == trusted_parent_path@,
            r.trusted_parent_identity == Some(trusted_parent_identity),
            opt_view(r.generated_basename) == Some(generated_basename@),
            r.node_identity == Some(node_identity),
            r.node_kind == Some(node_kind),
            r.original_path_hash is None,
            r.renamed_path@ == join_path(trusted_parent_path@, generated_basename@),
    {
        let renamed_path = join(trusted_parent_path.as_str(), generated_basename.as_str());
        JournalEntry {
            operation: JournalOperation::RootFileRename,
            renamed_path,
            trusted_parent_path,
            trusted_parent_identity: Some(trusted_parent_identity),
            generated_basename: Some(generated_basename),
            node_identity: Some(node_identity),
            node_kind: Some(node_kind),
            original_path_hash: None,
            timestamp: unix_now_secs(),
        }
    }

    /// A field-by-field copy.
    pub fn duplicate(&self) -> (r: Self)
        ensures
            r == *self,
    {
        JournalEntry {
            operation: self.operation,
            trusted_parent_path: self.trusted_parent_path.clone(),
            trusted_parent_identity: self.trusted_parent_identity,
            generated_basename: copy_opt_string(&self.generated_basename),
            node_identity: self.node_identity,
            node_kind: self.node_kind,
            original_path_hash: copy_opt_string(&self.original_path_hash),
            renamed_path: self.renamed_path.clone(),
            timestamp: self.timestamp,
        }
    }

    /// Whether the record carries everything recovery needs.
    pub fn is_identity_bound(&self) -> (r: bool)
        ensures
            r == is_identity_bound(*self),
    {
        let operation_ok = match self.operation {
            JournalOperation::RootFileRename => true,
            JournalOperation::LegacyPathOnly => false,
        };
        if !operation_ok || self.trusted_parent_identity.is_none() || self.node_identity.is_none()
            || self.node_kind.is_none() {
            return false;
        }
        match &self.generated_basename {
            Some(name) => is_valid_basename(name.as_str()),
            None => false,
        }
    }

    /// The path recovery acts on: the generated name inside the trusted parent.
    /// Records that are not identity-bound are refused as legacy records.
    pub fn operational_path(&self) -> (r: Result<String, JournalError>)
        ensures
            is_identity_bound(*self) ==> (r matches Ok(p)
                && p@ == join_path(self.trusted_parent_path@, self.generated_basename.unwrap()@)),
            !is_identity_bound(*self) ==> (r matches Err(JournalError::LegacyRecord { path })
                && path@ == self.renamed_path@),
    {
        if !self.is_identity_bound() {
            return Err(JournalError::LegacyRecord { path: self.renamed_path.clone() });
        }
        match &self.generated_basename {
            Some(name) => Ok(join(self.trusted_parent_path.as_str(), name.as_str())),
            None => Err(JournalError::LegacyRecord { path: self.renamed_path.clone() }),
        }
    }
}

/// Whether two records hold the same fields.
pub fn entries_match(a: &JournalEntry, b: &JournalEntry) -> (r: bool)
    ensures
        r == same_entry(*a, *b),
{
    let op_eq = match (a.operation, b.operation) {
        (JournalOperation::RootFileRename, JournalOperation::RootFileRename) => true,
        (JournalOperation::LegacyPathOnly, JournalOperation::LegacyPathOnly) => true,
        _ => false,
    };
    let kind_eq = match (a.node_kind, b.node_kind) {
        (None, None) => true,
        (Some(x), Some(y)) => x == y,
        _ => false,
    };
    let name_eq = match (&a.generated_basename, &b.generated_basename) {
        (None, None) => true,
        (Some(x), Some(y)) => str_eq(x.as_str(), y.as_str()),
        _ => false,
    };
    let hash_eq = match (&a.original_path_hash, &b.original_path_hash) {
        (None, None) => true,
        (Some(x), Some(y)) => str_eq(x.as_str(), y.as_str()),
        _ => false,
    };
    let parent_id_eq = match (a.trusted_parent_identity, b.trusted_parent_identity) {
        (None, None) => true,
        (Some(x), Some(y)) => x.id == y.id && x.mount_id == y.mount_id,
        _ => false,
    };
    let node_id_eq = match (a.node_identity, b.node_identity) {
        (None, None) => true,
        (Some(x), Some(y)) => x.id == y.id && x.mount_id == y.mount_id,
        _ => false,
    };
    op_eq && kind_eq && name_eq && hash_eq && parent_id_eq && node_id_eq
        && str_eq(a.trusted_parent_path.as_str(), b.trusted_parent_path.as_str())
        && str_eq(a.renamed_path.as_str(), b.renamed_path.as_str())
        && a.timestamp == b.timestamp
}

/// The records that do not match `entry`, in order.
pub open spec fn without_entry(entries: Seq<JournalEntry>, entry: JournalEntry) -> Seq<JournalEntry>
    decreases entries.len(),
{
    if entries.len() == 0 {
        Seq::empty()
    } else if same_entry(entries.last(), entry) {
        without_entry(entries.drop_last(), entry)
    } else {
        without_entry(entries.drop_last(), entry).push(entries.last())
    }
}

/// Some record matches `entry`.
pub open spec fn holds_entry(entries: Seq<JournalEntry>, entry: JournalEntry) -> bool {
    exists|i: int| 0 <= i < entries.len() && same_entry(#[trigger] entries[i], entry)
}

/// A field-by-field copy of a record list.
pub fn copy_entries(entries: &Vec<JournalEntry>) -> (r: Vec<JournalEntry>)
    ensures
        r@ == entries@,
{
    let mut r: Vec<JournalEntry> = Vec::new();
    let mut i: usize = 0;
    while i < entries.len()
        invariant
            i <= entries@.len(),
            r@ == entries@.subrange(0, i as int),
        decreases entries.len() - i,
    {
        r.push(entries[i].duplicate());
        i = i + 1;
        assert(r@ =~= entries@.subrange(0, i as int));
    }
    assert(entries@.subrange(0, entries@.len() as int) =~= entries@);
    r
}

proof fn lemma_without_prefix(entries: Seq<JournalEntry>, entry: JournalEntry, i: int)
    requires
        0 <= i < entries.len(),
    ensures
        without_entry(entries.subrange(0, i + 1), entry) == if same_entry(entries[i], entry) {
            without_entry(entries.subrange(0, i), entry)
        } else {
            without_entry(entries.subrange(0, i), entry).push(entries[i])
        },
{
    assert(entries.subrange(0, i + 1).drop_last() =~= entries.subrange(0, i));
}

/// The records other than those matching `entry`, and whether any matched.
pub fn remove_matching(entries: &Vec<JournalEntry>, entry: &JournalEntry) -> (r: (Vec<JournalEntry>, bool))
    ensures
        r.0@ == without_entry(entries@, *entry),
        r.1 == holds_entry(entries@, *entry),
{
    let mut kept: Vec<JournalEntry> = Vec::new();
    let mut removed = false;
    let mut i: usize = 0;
    while i < entries.len()
        invariant
            i <= entries@.len(),
            kept@ == without_entry(entries@.subrange(0, i as int), *entry),
            removed == exists|j: int| 0 <= j < i && same_entry(#[trigger] entries@[j], *entry),
        decreases entries.len() - i,
    {
        proof {
            lemma_without_prefix(entries@, *entry, i as int);
        }
        if entries_match(&entries[i], entry) {
            removed = true;
        } else {
            kept.push(entries[i].duplicate());
        }
        i = i + 1;
    }
    assert(entries@.subrange(0, entries@.len() as int) =~= entries@);
    (kept, removed)
}


/// Why reading the stored journal failed.
#[derive(Debug)]
pub enum JournalReadError {
    /// The file could not be read.
    Io(String),
    /// The bytes are not a journal.
    Decode(String),
}

/// Why writing a temporary journal failed.
#[derive(Debug)]
pub enum JournalWriteError {
    /// The records could not be encoded.
    Serialize(String),
    /// The temporary file could not be written.
    Io(String),
}

/// What inspection of a path without following links found.
#[derive(Debug, Clone, Copy)]
pub struct NodeObservation {
    pub kind: JournalNodeKind,
    pub identity: Option<JournalNodeIdentity>,
}

/// Storage and filesystem access the journal needs. Implementations own the
/// encoding of records; nothing is assumed of what they return.
pub trait JournalIo {
    /// The stored records, or `None` when no journal exists.
    fn read(&self, path: &str) -> Result<Option<Vec<JournalEntry>>, JournalReadError>;
    /// Writes the encoded records next to `path`; returns the temporary path.
    fn write_temp(&self, path: &str, entries: &[JournalEntry]) -> Result<String, JournalWriteError>;
    /// Flushes a file to stable storage.
    fn sync(&self, path: &str) -> Result<(), String>;
    /// Flushes a directory's entries to stable storage.
    fn sync_parent(&self, path: &str) -> Result<(), String>;
    /// Replaces `destination` by `temporary` in one step.
    fn atomic_replace(&self, temporary: &str, destination: &str) -> Result<(), String>;
    /// Removes a file; a missing file is no error.
    fn delete(&self, path: &str) -> Result<(), String>;
    /// Kind and identity of the node at `path`, links not followed.
    fn inspect(&self, path: &str) -> Result<NodeObservation, String>;
    /// Whether `path` lies on a network filesystem.
    fn is_network_location(&self, path: &str) -> bool;
}

/// The journal file at one path, with its storage access.
pub struct JournalStore<J: JournalIo> {
    path: String,
    io: J,
}

fn io_error(operation: &str, path: &str, message: String) -> (r: JournalError)
    ensures
        r matches JournalError::Io { operation: o, path: p, message: m }
            && o@ == operation@ && p@ == path@ && m@ == message@,
{
    JournalError::Io { operation: String::from_str(operation), path: String::from_str(path), message }
}

fn is_sync_journal_failure(error: &JournalError) -> (r: bool)
    ensures
        r == (error matches JournalError::Io { operation, .. } && operation@ == "sync journal"@),
{
    match error {
        JournalError::Io { operation, .. } => str_eq(operation.as_str(), "sync journal"),
        _ => false,
    }
}

/// A call a journal store made to its storage, with what it answered.
pub enum JournalCall {
    /// The records were read; `None` when the read failed (an absent
    /// journal reads as no records).
    Read { answer: Option<Seq<JournalEntry>> },
    /// The records were written to a temporary file.
    WriteTemp { entries: Seq<JournalEntry>, ok: bool },
    /// A file was flushed.
    Sync { ok: bool },
    /// The temporary file replaced the journal.
    Replace { ok: bool },
    /// The temporary file was removed after a failure.
    Delete { ok: bool },
    /// A generated file named by a record was removed during recovery.
    RemoveFile { path: Seq<char>, ok: bool },
}

/// No call of `t` removed a generated file.
pub open spec fn nothing_removed(t: Seq<JournalCall>) -> bool {
    forall|i: int| 0 <= i < t.len() ==> !(#[trigger] t[i] is RemoveFile)
}

/// The storage calls of a recovery and its result: the records are read
/// first; a failed read is an error with nothing else done; a first record
/// that is not identity-bound is refused at once; success means every read
/// record was identity-bound with a safe parent, and the result is what the
/// last call, a read of the journal, gave back.
pub open spec fn recovery_run(t: Seq<JournalCall>, r: Result<Vec<JournalEntry>, JournalError>) -> bool {
    &&& t.len() >= 1
    &&& t[0] matches JournalCall::Read { answer } && match answer {
        None => r is Err && t.len() == 1,
        Some(first) => {
            &&& first.len() > 0 && !is_identity_bound(first[0]) ==> (r matches Err(JournalError::LegacyRecord { path })
                && path@ == first[0].renamed_path@) && t.len() == 1
            &&& r is Ok ==> forall|i: int| 0 <= i < first.len() ==> is_identity_bound(#[trigger] first[i])
                && safe_recovery_parent_text(first[i].trusted_parent_path@)
        },
    }
    &&& r matches Ok(left) ==> t.last() == (JournalCall::Read { answer: Some(left@) })
}

/// What a read answered: the records, or `None` when it failed.
pub open spec fn read_answer(r: Result<Vec<JournalEntry>, JournalError>) -> Option<Seq<JournalEntry>> {
    match r {
        Ok(v) => Some(v@),
        Err(_) => None,
    }
}

/// A write of `entries` that went through: written to a temporary file,
/// flushed, swapped in, flushed again.
pub open spec fn written_run(entries: Seq<JournalEntry>) -> Seq<JournalCall> {
    seq![
        JournalCall::WriteTemp { entries, ok: true },
        JournalCall::Sync { ok: true },
        JournalCall::Replace { ok: true },
        JournalCall::Sync { ok: true },
    ]
}

/// The calls made between two moments of a log.
pub open spec fn journal_calls_between(before: Seq<JournalCall>, after: Seq<JournalCall>) -> Seq<JournalCall> {
    after.subrange(before.len() as int, after.len() as int)
}

/// `after` keeps `before` and adds calls at the end.
pub open spec fn journal_log_extends(before: Seq<JournalCall>, after: Seq<JournalCall>) -> bool {
    before.len() <= after.len() && forall|i: int| 0 <= i < before.len() ==> #[trigger] after[i] == before[i]
}

/// No call of `t` swapped a temporary file in.
pub open spec fn nothing_replaced(t: Seq<JournalCall>) -> bool {
    forall|i: int| 0 <= i < t.len() ==> #[trigger] t[i] != (JournalCall::Replace { ok: true })
}

impl<J: JournalIo> JournalStore<J> {
    /// The journal at `path`, accessed through `io`.
    pub fn with_io(path: String, io: J) -> (r: Self)
        ensures
            r.path()@ == path@,
    {
        JournalStore { path, io }
    }

    /// Where the journal is stored.
    pub closed spec fn path(&self) -> String {
        self.path
    }

    /// Where the journal is stored.
    pub fn location(&self) -> (r: &str)
        ensures
            r@ == self.path()@,
    {
        self.path.as_str()
    }

    /// The stored records; an absent journal holds none.
    pub fn read(&self) -> (r: Result<Vec<JournalEntry>, JournalError>)
        ensures
            r matches Err(e) ==> (e is Io || e is Decode),
    {
        let mut log = Ghost(Seq::empty());
        self.read_logged(&mut log)
    }

    /// The stored records, with the read logged.
    pub fn read_logged(&self, log: &mut Ghost<Seq<JournalCall>>) -> (r: Result<Vec<JournalEntry>, JournalError>)
        ensures
            r matches Err(e) ==> (e is Io || e is Decode),
            final(log)@ == old(log)@.push(JournalCall::Read { answer: read_answer(r) }),
    {
        let r = self.read_once();
        *log = Ghost(log@.push(JournalCall::Read { answer: read_answer(r) }));
        r
    }

    fn read_once(&self) -> (r: Result<Vec<JournalEntry>, JournalError>)
        ensures
            r matches Err(e) ==> (e is Io || e is Decode),
    {
        match self.io.read(self.path.as_str()) {
            Ok(Some(entries)) => Ok(entries),
            Ok(None) => Ok(Vec::new()),
            Err(JournalReadError::Io(message)) => Err(io_error("read", self.path.as_str(), message)),
            Err(JournalReadError::Decode(message)) => Err(JournalError::Decode { path: self.path.clone(), message }),
        }
    }

    /// Adds an identity-bound record; any other record is refused before the
    /// journal is touched.
    pub fn append(&self, entry: JournalEntry) -> (r: Result<(), JournalError>)
        ensures
            !is_identity_bound(entry) ==> (r matches Err(JournalError::LegacyRecord { path })
                && path@ == entry.renamed_path@),
    {
        let mut log = Ghost(Seq::empty());
        self.append_logged(entry, &mut log)
    }

    /// Adds an identity-bound record, with the storage calls logged: the
    /// records are read, and the read records with the new one after them
    /// are written and swapped in. It succeeds exactly when every step did;
    /// a failed read writes nothing, and a refused record touches nothing.
    pub fn append_logged(&self, entry: JournalEntry, log: &mut Ghost<Seq<JournalCall>>) -> (r: Result<(), JournalError>)
        ensures
            !is_identity_bound(entry) ==> (r matches Err(JournalError::LegacyRecord { path })
                && path@ == entry.renamed_path@) && final(log)@ == old(log)@,
            journal_log_extends(old(log)@, final(log)@),
            is_identity_bound(entry) ==> journal_calls_between(old(log)@, final(log)@).len() >= 1
                && (journal_calls_between(old(log)@, final(log)@)[0] matches JournalCall::Read { answer }
                && match answer {
                    None => r is Err && journal_calls_between(old(log)@, final(log)@).len() == 1,
                    Some(stored) => (r is Ok <==> journal_calls_between(old(log)@, final(log)@)
                        == seq![JournalCall::Read { answer: Some(stored) }] + written_run(stored.push(entry))),
                }),
    {
        if !entry.is_identity_bound() {
            return Err(JournalError::LegacyRecord { path: entry.renamed_path });
        }
        let ghost before = log@;
        let read = self.read_logged(log);
        let mut entries = match read {
            Ok(v) => v,
            Err(e) => {
                assert(journal_calls_between(before, log@) =~= seq![log@.last()]);
                return Err(e);
            },
        };
        let ghost c0 = log@.last();
        let ghost stored = entries@;
        assert(c0 == JournalCall::Read { answer: Some(stored) });
        let previous = copy_entries(&entries);
        entries.push(entry);
        assert(entries@ == stored.push(entry));
        let ghost mid = log@;
        let r = self.write_entries(&entries, &previous, log);
        proof {
            let t = journal_calls_between(before, log@);
            let w = journal_calls_between(mid, log@);
            assert(t =~= seq![c0] + w);
            assert(t[0] == c0);
            if r is Ok {
                assert(w == written_run(stored.push(entry)));
                assert(t =~= seq![JournalCall::Read { answer: Some(stored) }] + written_run(stored.push(entry)));
            }
            let target = seq![JournalCall::Read { answer: Some(stored) }] + written_run(stored.push(entry));
            if t == target {
                assert(w =~= t.drop_first());
                assert(target.drop_first() =~= written_run(stored.push(entry)));
            }
        }
        r
    }

    /// Removes every record matching `entry`. Records that are not
    /// identity-bound are refused, and a missing record is an error.
    pub fn clear(&self, entry: &JournalEntry) -> (r: Result<(), JournalError>)
        ensures
            !is_identity_bound(*entry) ==> (r matches Err(JournalError::LegacyRecord { path })
                && path@ == entry.renamed_path@),
            r matches Err(JournalError::RecordNotFound { path }) ==> path@ == entry.renamed_path@,
    {
        let mut log = Ghost(Seq::empty());
        self.clear_logged(entry, &mut log)
    }

    /// Removes every record matching `entry`, with the storage calls logged:
    /// the records are read; a missing record is `RecordNotFound` and
    /// nothing is written; otherwise the other records are written and
    /// swapped in, and it succeeds exactly when every step did.
    pub fn clear_logged(&self, entry: &JournalEntry, log: &mut Ghost<Seq<JournalCall>>) -> (r: Result<(), JournalError>)
        ensures
            !is_identity_bound(*entry) ==> (r matches Err(JournalError::LegacyRecord { path })
                && path@ == entry.renamed_path@) && final(log)@ == old(log)@,
            r matches Err(JournalError::RecordNotFound { path }) ==> path@ == entry.renamed_path@,
            r matches Err(e) ==> !(e is IdentityMismatch) && !(e is UnsafeParent),
            journal_log_extends(old(log)@, final(log)@),
            is_identity_bound(*entry) ==> journal_calls_between(old(log)@, final(log)@).len() >= 1
                && (journal_calls_between(old(log)@, final(log)@)[0] matches JournalCall::Read { answer }
                && match answer {
                    None => r is Err && journal_calls_between(old(log)@, final(log)@).len() == 1,
                    Some(stored) => if !holds_entry(stored, *entry) {
                        (r matches Err(JournalError::RecordNotFound { .. }))
                            && journal_calls_between(old(log)@, final(log)@).len() == 1
                    } else {
                        r is Ok <==> journal_calls_between(old(log)@, final(log)@)
                            == seq![JournalCall::Read { answer: Some(stored) }] + written_run(without_entry(stored, *entry))
                    },
                }),
    {
        if !entry.is_identity_bound() {
            return Err(JournalError::LegacyRecord { path: entry.renamed_path.clone() });
        }
        let ghost before = log@;
        let read = self.read_logged(log);
        let entries = match read {
            Ok(v) => v,
            Err(e) => {
                assert(journal_calls_between(before, log@) =~= seq![log@.last()]);
                return Err(e);
            },
        };
        let ghost c0 = log@.last();
        assert(journal_calls_between(before, log@) =~= seq![c0]);
        assert(c0 == JournalCall::Read { answer: Some(entries@) });
        let previous = copy_entries(&entries);
        let (kept, removed) = remove_matching(&entries, entry);
        if !removed {
            return Err(JournalError::RecordNotFound { path: entry.renamed_path.clone() });
        }
        let ghost mid = log@;
        let r = self.write_entries(&kept, &previous, log);
        proof {
            let t = journal_calls_between(before, log@);
            let w = journal_calls_between(mid, log@);
            assert(t =~= seq![c0] + w);
            assert(t[0] == c0);
            if r is Ok {
                assert(t =~= seq![JournalCall::Read { answer: Some(entries@) }] + written_run(without_entry(entries@, *entry)));
            }
            let target = seq![JournalCall::Read { answer: Some(entries@) }] + written_run(without_entry(entries@, *entry));
            if t == target {
                assert(w =~= t.drop_first());
                assert(target.drop_first() =~= written_run(without_entry(entries@, *entry)));
            }
        }
        r
    }

    /// Replays every record: the generated file is removed after its parent
    /// and its own identity are confirmed, then the record is cleared. A
    /// legacy record stops recovery and stays for an explicit decision.
    /// Returns the records that remain.
    pub fn recover(&self) -> (r: Result<Vec<JournalEntry>, JournalError>)
        ensures
            exists|t: Seq<JournalCall>| #[trigger] recovery_run(t, r),
    {
        let mut log = Ghost(Seq::empty());
        let r = self.recover_logged(&mut log);
        assert(recovery_run(journal_calls_between(Seq::empty(), log@), r));
        r
    }

    /// Replays the journal, with the storage calls logged: the records are
    /// read and recovered in order, and what the journal holds afterwards is
    /// read back and returned. A failed first read recovers nothing; a first
    /// record that is not identity-bound stops recovery at once.
    pub fn recover_logged(&self, log: &mut Ghost<Seq<JournalCall>>) -> (r: Result<Vec<JournalEntry>, JournalError>)
        ensures
            journal_log_extends(old(log)@, final(log)@),
            recovery_run(journal_calls_between(old(log)@, final(log)@), r),
    {
        let ghost before = log@;
        let entries = match self.read_logged(log) {
            Ok(v) => v,
            Err(e) => {
                assert(journal_calls_between(before, log@) =~= seq![log@.last()]);
                return Err(e);
            },
        };
        let ghost c0 = log@.last();
        let ghost mid = log@;
        assert(journal_calls_between(before, log@)[0] == c0);
        let recovered = self.recover_entries_logged(&entries, log);
        proof {
            assert(journal_calls_between(before, log@)[0] == log@[before.len() as int]);
            assert(log@[before.len() as int] == mid[before.len() as int]);
        }
        recovered?;
        let ghost mid2 = log@;
        let r = self.read_logged(log);
        proof {
            assert(log@[before.len() as int] == mid2[before.len() as int]);
            assert(journal_calls_between(before, log@)[0] == c0);
        }
        r
    }

    /// Recovers the records in order. The first record that is not
    /// identity-bound, or whose parent fails the textual checks, stops
    /// recovery with its refusal when every record before it was recovered;
    /// success means every record was identity-bound, had a safe parent, and
    /// was recovered.
    pub fn recover_entries(&self, entries: &Vec<JournalEntry>) -> (r: Result<(), JournalError>)
        ensures
            r is Ok ==> forall|i: int| 0 <= i < entries@.len() ==> is_identity_bound(#[trigger] entries@[i])
                && safe_recovery_parent_text(entries@[i].trusted_parent_path@),
            entries@.len() > 0 && !is_identity_bound(entries@[0]) ==> (r matches Err(JournalError::LegacyRecord { path })
                && path@ == entries@[0].renamed_path@),
            entries@.len() > 0 && is_identity_bound(entries@[0]) && !safe_recovery_parent_text(entries@[0].trusted_parent_path@)
                ==> r matches Err(JournalError::UnsafeParent { .. }),
    {
        let mut log = Ghost(Seq::empty());
        self.recover_entries_logged(entries, &mut log)
    }

    /// Recovers the records in order, with the storage calls logged.
    pub fn recover_entries_logged(&self, entries: &Vec<JournalEntry>, log: &mut Ghost<Seq<JournalCall>>) -> (r: Result<(), JournalError>)
        ensures
            journal_log_extends(old(log)@, final(log)@),
            entries@.len() > 0 && !is_identity_bound(entries@[0]) ==> final(log)@ == old(log)@,
            r is Ok ==> forall|i: int| 0 <= i < entries@.len() ==> is_identity_bound(#[trigger] entries@[i])
                && safe_recovery_parent_text(entries@[i].trusted_parent_path@),
            entries@.len() > 0 && !is_identity_bound(entries@[0]) ==> (r matches Err(JournalError::LegacyRecord { path })
                && path@ == entries@[0].renamed_path@),
            entries@.len() > 0 && is_identity_bound(entries@[0]) && !safe_recovery_parent_text(entries@[0].trusted_parent_path@)
                ==> r matches Err(JournalError::UnsafeParent { .. }),
    {
        let mut i: usize = 0;
        while i < entries.len()
            invariant
                i <= entries@.len(),
                forall|k: int| 0 <= k < i ==> is_identity_bound(#[trigger] entries@[k])
                    && safe_recovery_parent_text(entries@[k].trusted_parent_path@),
                journal_log_extends(old(log)@, log@),
                i == 0 ==> log@ == old(log)@,
            decreases entries.len() - i,
        {
            let entry = &entries[i];
            if !entry.is_identity_bound() {
                return Err(JournalError::LegacyRecord { path: entry.renamed_path.clone() });
            }
            self.recover_entry_logged(entry, log)?;
            i = i + 1;
        }
        Ok(())
    }

    /// Recovers one record; nothing is deleted unless the record is
    /// identity-bound, its parent passes the textual checks, and both
    /// observed identities match the record.
    pub fn recover_entry(&self, entry: &JournalEntry) -> (r: Result<(), JournalError>)
        ensures
            r is Ok ==> is_identity_bound(*entry) && safe_recovery_parent_text(entry.trusted_parent_path@),
            !safe_recovery_parent_text(entry.trusted_parent_path@) ==> r matches Err(JournalError::UnsafeParent { .. }),
    {
        let mut log = Ghost(Seq::empty());
        self.recover_entry_logged(entry, &mut log)
    }

    /// Recovers one record, with the storage calls logged. The generated
    /// file is removed only once the parent and the file's own identity and
    /// kind match the record: a mismatch, an unsafe parent, or a file that
    /// cannot be inspected removes nothing.
    pub fn recover_entry_logged(&self, entry: &JournalEntry, log: &mut Ghost<Seq<JournalCall>>) -> (r: Result<(), JournalError>)
        ensures
            r is Ok ==> is_identity_bound(*entry) && safe_recovery_parent_text(entry.trusted_parent_path@),
            !safe_recovery_parent_text(entry.trusted_parent_path@) ==> r matches Err(JournalError::UnsafeParent { .. }),
            journal_log_extends(old(log)@, final(log)@),
            (r matches Err(JournalError::IdentityMismatch { .. }) || r matches Err(JournalError::UnsafeParent { .. }))
                ==> final(log)@ == old(log)@,
            !nothing_removed(journal_calls_between(old(log)@, final(log)@)) ==> journal_calls_between(old(log)@, final(log)@)[0]
                == (JournalCall::RemoveFile { path: join_path(entry.trusted_parent_path@,
                    entry.generated_basename.unwrap()@), ok: journal_calls_between(old(log)@, final(log)@)[0]->RemoveFile_ok }),
    {
        self.validate_recovery_parent(entry)?;
        let operational_path = entry.operational_path()?;
        let observed = match self.io.inspect(operational_path.as_str()) {
            Ok(observed) => observed,
            Err(message) => {
                return Err(JournalError::IdentityMismatch {
                    path: entry.renamed_path.clone(),
                    reason: cat("generated target cannot be validated: ", message.as_str()),
                });
            },
        };
        let actual_identity = match observed.identity {
            Some(identity) => identity,
            None => {
                return Err(JournalError::IdentityMismatch {
                    path: entry.renamed_path.clone(),
                    reason: String::from_str("filesystem identity is unavailable"),
                });
            },
        };
        let identity_matches = match entry.node_identity {
            Some(expected) => expected.id == actual_identity.id && expected.mount_id == actual_identity.mount_id,
            None => false,
        };
        if !identity_matches {
            return Err(JournalError::IdentityMismatch {
                path: entry.renamed_path.clone(),
                reason: String::from_str("generated target identity does not match the journal"),
            });
        }
        let kind_matches = match entry.node_kind {
            Some(expected) => expected == observed.kind,
            None => false,
        };
        if !kind_matches {
            return Err(JournalError::IdentityMismatch {
                path: entry.renamed_path.clone(),
                reason: String::from_str("generated target kind does not match the journal"),
            });
        }
        if observed.kind != JournalNodeKind::RegularFile {
            return Err(JournalError::IdentityMismatch {
                path: entry.renamed_path.clone(),
                reason: String::from_str("only regular files are valid recovery targets"),
            });
        }
        let ghost before = log@;
        let removed = self.io.delete(operational_path.as_str());
        let ghost c0 = JournalCall::RemoveFile { path: operational_path@, ok: removed is Ok };
        *log = Ghost(log@.push(c0));
        if let Err(message) = removed {
            assert(journal_calls_between(before, log@) =~= seq![c0]);
            return Err(io_error("recover generated file", operational_path.as_str(), message));
        }
        if let Err(message) = self.io.sync_parent(entry.trusted_parent_path.as_str()) {
            assert(journal_calls_between(before, log@) =~= seq![c0]);
            return Err(io_error("sync recovered parent", entry.trusted_parent_path.as_str(), message));
        }
        let ghost mid = log@;
        let r = self.clear_logged(entry, log);
        proof {
            assert(journal_calls_between(before, log@)[0] == log@[before.len() as int]);
            assert(log@[before.len() as int] == mid[before.len() as int]);
        }
        r
    }

    fn validate_recovery_parent(&self, entry: &JournalEntry) -> (r: Result<(), JournalError>)
        ensures
            r is Ok ==> safe_recovery_parent_text(entry.trusted_parent_path@),
            !safe_recovery_parent_text(entry.trusted_parent_path@) ==> r matches Err(JournalError::UnsafeParent { .. }),
    {
        let parent = entry.trusted_parent_path.as_str();
        if !path_is_absolute(parent) || contains_parent_component(parent) {
            return Err(JournalError::UnsafeParent {
                path: entry.trusted_parent_path.clone(),
                reason: String::from_str("parent is not an absolute, normalized path"),
            });
        }
        if parent_path(parent).is_none() || self.io.is_network_location(parent) {
            return Err(JournalError::UnsafeParent {
                path: entry.trusted_parent_path.clone(),
                reason: String::from_str("filesystem roots and network locations are not allowed"),
            });
        }
        let observed = match self.io.inspect(parent) {
            Ok(observed) => observed,
            Err(message) => {
                return Err(JournalError::UnsafeParent {
                    path: entry.trusted_parent_path.clone(),
                    reason: cat("trusted parent cannot be inspected: ", message.as_str()),
                });
            },
        };
        if observed.kind != JournalNodeKind::Directory {
            return Err(JournalError::UnsafeParent {
                path: entry.trusted_parent_path.clone(),
                reason: String::from_str("trusted parent is not a real directory"),
            });
        }
        let identity = match observed.identity {
            Some(identity) => identity,
            None => {
                return Err(JournalError::UnsafeParent {
                    path: entry.trusted_parent_path.clone(),
                    reason: String::from_str("trusted parent identity is unavailable"),
                });
            },
        };
        let matches = match entry.trusted_parent_identity {
            Some(expected) => expected.id == identity.id && expected.mount_id == identity.mount_id,
            None => false,
        };
        if !matches {
            return Err(JournalError::IdentityMismatch {
                path: entry.trusted_parent_path.clone(),
                reason: String::from_str("trusted parent identity does not match the journal"),
            });
        }
        Ok(())
    }

    fn write_entries(&self, entries: &Vec<JournalEntry>, previous: &Vec<JournalEntry>, log: &mut Ghost<Seq<JournalCall>>) -> (r: Result<(), JournalError>)
        ensures
            r matches Err(e) ==> (e is Io || e is Serialize),
            journal_log_extends(old(log)@, final(log)@),
            r is Ok <==> journal_calls_between(old(log)@, final(log)@) == written_run(entries@),
    {
        let ghost before = log@;
        match self.write_entries_once(entries, log) {
            Ok(()) => Ok(()),
            Err(error) => {
                let ghost first = log@;
                if !is_sync_journal_failure(&error) {
                    return Err(error);
                }
                let second = self.write_entries_once(previous, log);
                proof {
                    let t = journal_calls_between(before, log@);
                    let a = journal_calls_between(before, first);
                    assert(a != written_run(entries@));
                    if t == written_run(entries@) {
                        assert(a.len() <= t.len());
                        assert forall|i: int| 0 <= i < a.len() implies a[i] == t[i] by {
                            assert(log@[before.len() + i] == first[before.len() + i]);
                        }
                        assert(a.len() >= 1);
                    }
                }
                match second {
                    Ok(()) => Err(error),
                    Err(rollback_error) => {
                        let first = error.message();
                        let second = rollback_error.message();
                        let message = cat3(first.as_str(), "; restore failed: ", second.as_str());
                        Err(io_error("restore journal after sync failure", self.path.as_str(), message))
                    },
                }
            },
        }
    }

    fn write_entries_once(&self, entries: &Vec<JournalEntry>, log: &mut Ghost<Seq<JournalCall>>) -> (r: Result<(), JournalError>)
        ensures
            r matches Err(e) ==> (e is Io || e is Serialize),
            journal_log_extends(old(log)@, final(log)@),
            journal_calls_between(old(log)@, final(log)@).len() >= 1,
            journal_calls_between(old(log)@, final(log)@)[0] matches JournalCall::WriteTemp { entries: w, .. } && w == entries@,
            r is Ok <==> journal_calls_between(old(log)@, final(log)@) == written_run(entries@),
            r is Err && !(r matches Err(JournalError::Io { operation, .. }) && operation@ == "sync journal"@)
                ==> nothing_replaced(journal_calls_between(old(log)@, final(log)@)),
    {
        let ghost before = log@;
        let written = self.io.write_temp(self.path.as_str(), entries.as_slice());
        let ghost c0 = JournalCall::WriteTemp { entries: entries@, ok: written is Ok };
        *log = Ghost(log@.push(c0));
        let temporary = match written {
            Ok(temporary) => temporary,
            Err(JournalWriteError::Serialize(message)) => {
                assert(journal_calls_between(before, log@) =~= seq![c0]);
                return Err(JournalError::Serialize(message));
            },
            Err(JournalWriteError::Io(message)) => {
                assert(journal_calls_between(before, log@) =~= seq![c0]);
                return Err(io_error("write temporary journal", self.path.as_str(), message));
            },
        };
        let synced = self.io.sync(temporary.as_str());
        let ghost c1 = JournalCall::Sync { ok: synced is Ok };
        *log = Ghost(log@.push(c1));
        if let Err(message) = synced {
            let error = io_error("sync temporary journal", self.path.as_str(), message);
            let r = self.cleanup_after_failure(temporary, error, log);
            assert(journal_calls_between(before, log@) =~= seq![c0, c1, log@.last()]);
            return Err(r);
        }
        let replaced = self.io.atomic_replace(temporary.as_str(), self.path.as_str());
        let ghost c2 = JournalCall::Replace { ok: replaced is Ok };
        *log = Ghost(log@.push(c2));
        if let Err(message) = replaced {
            let error = io_error("atomically replace journal", self.path.as_str(), message);
            let r = self.cleanup_after_failure(temporary, error, log);
            assert(journal_calls_between(before, log@) =~= seq![c0, c1, c2, log@.last()]);
            return Err(r);
        }
        let synced_again = self.io.sync(self.path.as_str());
        let ghost c3 = JournalCall::Sync { ok: synced_again is Ok };
        *log = Ghost(log@.push(c3));
        assert(journal_calls_between(before, log@) =~= seq![c0, c1, c2, c3]);
        match synced_again {
            Ok(()) => Ok(()),
            Err(message) => Err(io_error("sync journal", self.path.as_str(), message)),
        }
    }

    fn cleanup_after_failure(&self, temporary: String, error: JournalError, log: &mut Ghost<Seq<JournalCall>>) -> (r: JournalError)
        requires
            error is Io,
        ensures
            final(log)@ == old(log)@.push(JournalCall::Delete { ok: r == error }),
            r is Io,
            r == error || (r matches JournalError::Io { operation, path, .. }
                && operation@ == "clean up temporary journal"@ && path@ == temporary@),
    {
        match self.io.delete(temporary.as_str()) {
            Ok(()) => {
                *log = Ghost(log@.push(JournalCall::Delete { ok: true }));
                error
            },
            Err(cleanup_error) => {
                let first = error.message();
                let message = cat3(first.as_str(), "; cleanup failed: ", cleanup_error.as_str());
                let r = JournalError::Io { operation: String::from_str("clean up temporary journal"), path: temporary, message };
                *log = Ghost(log@.push(JournalCall::Delete { ok: r == error }));
                r
            },
        }
    }
}

/// Replays the journal at `journal_path` and returns the records that
/// remain; a journal location that could not be resolved is an I/O error.
pub fn cleanup_orphans<J: JournalIo>(journal_path: Result<String, String>, io: J) -> (r: Result<Vec<JournalEntry>, JournalError>)
    ensures
        journal_path matches Err(m) ==> (r matches Err(JournalError::Io { operation, path, message })
            && operation@ == "resolve journal path"@ && path@.len() == 0 && message@ == m@),
{
    match journal_path {
        Ok(path) => JournalStore::with_io(path, io).recover(),
        Err(message) => {
            proof {
                reveal_strlit("");
            }
            Err(io_error("resolve journal path", "", message))
        },
    }
}

/// Clearing a record right after appending it leaves what matched nothing
/// before: the journal returns to its earlier records.
pub proof fn lemma_clear_undoes_append(entries: Seq<JournalEntry>, entry: JournalEntry)
    requires
        !holds_entry(entries, entry),
    ensures
        without_entry(entries.push(entry), entry) == entries,
        holds_entry(entries.push(entry), entry),
    decreases entries.len(),
{
    assert(entries.push(entry).drop_last() =~= entries);
    lemma_without_absent(entries, entry);
    assert(same_entry(entries.push(entry)[entries.len() as int], entry));
}

/// Removing a record that is absent changes nothing.
pub proof fn lemma_without_absent(entries: Seq<JournalEntry>, entry: JournalEntry)
    requires
        !holds_entry(entries, entry),
    ensures
        without_entry(entries, entry) == entries,
    decreases entries.len(),
{
    if entries.len() > 0 {
        let rest = entries.drop_last();
        assert forall|i: int| 0 <= i < rest.len() implies !same_entry(#[trigger] rest[i], entry) by {
            assert(rest[i] == entries[i]);
        }
        lemma_without_absent(rest, entry);
        assert(!same_entry(entries[entries.len() - 1], entry));
        assert(rest.push(entries.last()) =~= entries);
    }
}

} // verus!
