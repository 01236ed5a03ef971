//! Batch execution of deletion roots: a preflight of every root before any
//! mutation, then root-by-root destruction through a secure tree adapter.

use vstd::prelude::*;
use crate::pathname::{contains_parent_component, file_name, has_parent_component, is_absolute, is_same_path, join, join_path, parent_of, parent_path, path_is_absolute, rebuild, file_name_of, path_starts_with, same_path, starts_with_path};
use crate::shredder::cancel::CancellationToken;
use crate::shredder::engine::OverwriteState;
use crate::shredder::errors::{shred_error_message, JournalError, ShredError};
use crate::shredder::journal::{opt_view, valid_basename, JournalEntry, JournalIo, JournalNodeIdentity, JournalNodeKind, JournalOperation, JournalStore};
use crate::shredder::traits::ProgressReporter;
use crate::shredder::types::{
    storage_allows, DeletionMethod, DeletionPolicy, MediaType, WriteCheckOutcome,
};
use crate::shredder::root_execution::types::{
    BatchRootResult, ChildErrorDto, ExecuteRootRequest, ExecuteRootsRequest, ExecutionStage,
    RootResultDto, RootStatus, TargetKind,
};
use crate::text::{cat, cat3, cat4, hex_fixed, hex_padded, owned, string_of, u64_to_string};

verus! {

/// The deepest directory level preflight descends to.
pub const MAX_DEPTH: usize = 50;

/// An adapter-issued handle to an open directory.
#[derive(Debug, Clone, Copy, PartialEq, Eq, Structural)]
pub struct DirHandle {
    id: u64,
}

impl DirHandle {
    pub fn new(id: u64) -> (r: Self)
        ensures
            r.id() == id,
    {
        DirHandle { id }
    }

    pub closed spec fn id(&self) -> u64 {
        self.id
    }

    pub fn get_id(&self) -> (r: u64)
        ensures
            r == self.id(),
    {
        self.id
    }

    pub fn as_node(&self) -> (r: NodeHandle)
        ensures
            r.id() == self.id(),
    {
        NodeHandle { id: self.id }
    }
}

/// An adapter-issued handle to an open node.
#[derive(Debug, Clone, Copy, PartialEq, Eq, Structural)]
pub struct NodeHandle {
    id: u64,
}

impl NodeHandle {
    pub fn new(id: u64) -> (r: Self)
        ensures
            r.id() == id,
    {
        NodeHandle { id }
    }

    pub closed spec fn id(&self) -> u64 {
        self.id
    }

    pub fn get_id(&self) -> (r: u64)
        ensures
            r == self.id(),
    {
        self.id
    }

    pub fn as_dir(&self) -> (r: DirHandle)
        ensures
            r.id() == self.id(),
    {
        DirHandle { id: self.id }
    }
}

/// A name an adapter found inside a directory.
#[derive(Debug, Clone)]
pub struct ChildName(String);

impl ChildName {
    pub fn new(name: String) -> (r: Self)
        ensures
            r@ == name@,
    {
        ChildName(name)
    }

    pub fn as_str(&self) -> (r: &str)
        ensures
            r@ == self@,
    {
        self.0.as_str()
    }
}

impl View for ChildName {
    type V = Seq<char>;

    closed spec fn view(&self) -> Seq<char> {
        self.0@
    }
}

/// Kind of an opened node.
#[derive(Debug, Clone, Copy, PartialEq, Eq, Structural)]
pub enum NodeKind {
    RegularFile,
    Directory,
    Link,
    Special,
}

/// Filesystem identity of an opened node, with its kind. Two identities name
/// the same node when number and volume agree.
#[derive(Debug, Clone, Copy)]
pub struct NodeIdentity {
    id: u128,
    mount_id: u64,
    kind: NodeKind,
}

impl NodeIdentity {
    pub fn new(id: u128, mount_id: u64, kind: NodeKind) -> (r: Self)
        ensures
            r.spec_id() == id,
            r.spec_mount_id() == mount_id,
            r.spec_kind() == kind,
    {
        NodeIdentity { id, mount_id, kind }
    }

    pub fn regular(id: u128, mount_id: u64) -> (r: Self)
        ensures
            r.spec_id() == id,
            r.spec_mount_id() == mount_id,
            r.spec_kind() == NodeKind::RegularFile,
    {
        Self::new(id, mount_id, NodeKind::RegularFile)
    }

    pub fn directory(id: u128, mount_id: u64) -> (r: Self)
        ensures
            r.spec_id() == id,
            r.spec_mount_id() == mount_id,
            r.spec_kind() == NodeKind::Directory,
    {
        Self::new(id, mount_id, NodeKind::Directory)
    }

    pub fn link(id: u128, mount_id: u64) -> (r: Self)
        ensures
            r.spec_id() == id,
            r.spec_mount_id() == mount_id,
            r.spec_kind() == NodeKind::Link,
    {
        Self::new(id, mount_id, NodeKind::Link)
    }

    pub fn special(id: u128, mount_id: u64) -> (r: Self)
        ensures
            r.spec_id() == id,
            r.spec_mount_id() == mount_id,
            r.spec_kind() == NodeKind::Special,
    {
        Self::new(id, mount_id, NodeKind::Special)
    }

    pub closed spec fn spec_id(&self) -> u128 {
        self.id
    }

    pub closed spec fn spec_mount_id(&self) -> u64 {
        self.mount_id
    }

    pub closed spec fn spec_kind(&self) -> NodeKind {
        self.kind
    }

    pub fn id(&self) -> (r: u128)
        ensures
            r == self.spec_id(),
    {
        self.id
    }

    pub fn mount_id(&self) -> (r: u64)
        ensures
            r == self.spec_mount_id(),
    {
        self.mount_id
    }

    pub fn kind(&self) -> (r: NodeKind)
        ensures
            r == self.spec_kind(),
    {
        self.kind
    }

    /// Whether both identities name the same node.
    pub fn same_node(&self, other: &NodeIdentity) -> (r: bool)
        ensures
            r == (self.spec_id() == other.spec_id() && self.spec_mount_id() == other.spec_mount_id()),
    {
        self.id == other.id && self.mount_id == other.mount_id
    }
}

/// Proof that a rename happened.
#[derive(Debug, Clone, Copy)]
pub struct RenamedNode;

impl RenamedNode {
    pub fn new() -> Self {
        RenamedNode
    }
}

/// What the open-file shredder is asked to do, for diagnostics.
#[derive(Debug, Clone)]
pub struct FileShredRequest {
    diagnostic_path: String,
}

impl FileShredRequest {
    pub fn new(diagnostic_path: String) -> (r: Self)
        ensures
            r.spec_path() == diagnostic_path@,
    {
        FileShredRequest { diagnostic_path }
    }

    pub closed spec fn spec_path(&self) -> Seq<char> {
        self.diagnostic_path@
    }

    pub fn diagnostic_path(&self) -> (r: &str)
        ensures
            r@ == self.spec_path(),
    {
        self.diagnostic_path.as_str()
    }
}

/// What the open-file shredder did to one file.
#[derive(Debug)]
pub struct FileShredResult {
    pub overwrite_state: OverwriteState,
    pub write_check_status: WriteCheckOutcome,
    pub bytes_shredded: u64,
    pub issues: Vec<ShredError>,
}

impl FileShredResult {
    /// A completed overwrite without a write check and without issues.
    pub fn success(bytes_shredded: u64) -> (r: Self)
        ensures
            r.overwrite_state == OverwriteState::Completed,
            r.write_check_status == WriteCheckOutcome::NotRun,
            r.bytes_shredded == bytes_shredded,
            r.issues@.len() == 0,
    {
        FileShredResult {
            overwrite_state: OverwriteState::Completed,
            write_check_status: WriteCheckOutcome::NotRun,
            bytes_shredded,
            issues: Vec::new(),
        }
    }
}

/// Handle-relative filesystem access that never follows links. Nothing is
/// assumed of what an implementation returns.
pub trait SecureTreeIo {
    /// The open regular file handed to the shredder.
    type File;
    /// The user's home directory, the only place roots may lie.
    fn home_directory(&self) -> Option<String>;
    /// Whether `path` lies on a network filesystem.
    fn is_network_location(&self, path: &str) -> bool;
    /// Opens an absolute path as a directory or file root without following
    /// links; relative paths are never handed over.
    fn open_root_nofollow(&self, path: &str) -> Result<DirHandle, ShredError>
        requires
            is_absolute(path@),
    ;
    fn enumerate(&self, dir: &DirHandle) -> Result<Vec<ChildName>, ShredError>;
    /// Opens a child of a directory without following links; only plain
    /// entry names are handed over.
    fn open_child_nofollow(&self, parent: &DirHandle, name: &str) -> Result<NodeHandle, ShredError>
        requires
            crate::shredder::journal::valid_basename(name@),
    ;
    fn identity(&self, node: &NodeHandle) -> Result<NodeIdentity, ShredError>;
    fn link_count(&self, node: &NodeHandle) -> Result<u64, ShredError>;
    fn open_regular_for_shred(&self, node: &NodeHandle) -> Result<Self::File, ShredError>;
    /// Renames a node within its directory, never over an existing entry;
    /// only plain names are handed over.
    fn rename_noreplace(&self, parent: &DirHandle, node: &NodeHandle, new_name: &str) -> Result<RenamedNode, ShredError>
        requires
            crate::shredder::journal::valid_basename(new_name@),
    ;
    fn unlink_leaf(&self, parent: &DirHandle, node: &NodeHandle) -> Result<(), ShredError>;
    fn remove_empty_dir(&self, parent: &DirHandle, node: &NodeHandle) -> Result<(), ShredError>;
    fn sync_parent(&self, parent: &DirHandle) -> Result<(), ShredError>;
}

/// Overwrites one already-open regular file.
pub trait OpenFileShredder<F> {
    fn shred_open_file(&self, file: F, identity: NodeIdentity, request: &FileShredRequest) -> Result<FileShredResult, ShredError>;
}

/// Tells what storage medium a path lives on.
pub trait MediaClassifier {
    fn classify(&self, path: &str) -> Result<MediaType, ShredError>;
}

/// Stable machine-readable name of an error variant.
pub open spec fn error_type_text(e: ShredError) -> Seq<char> {
    match e {
        ShredError::FileNotFound(_) => "file_not_found"@,
        ShredError::PermissionDenied(_) => "permission_denied"@,
        ShredError::FileLocked { .. } => "file_locked"@,
        ShredError::IoError { .. } => "io_error"@,
        ShredError::VerificationFailed { .. } => "verification_failed"@,
        ShredError::HardLinkBlocked { .. } => "hard_link_blocked"@,
        ShredError::UnsupportedStorageForMethod { .. } => "unsupported_storage_for_method"@,
        ShredError::WriteCheckFailed { .. } => "write_check_failed"@,
        ShredError::BrowserCollectionFailed { .. } => "browser_collection_failed"@,
        ShredError::NetworkDrive(_) => "network_drive"@,
        ShredError::SystemFile(_) => "system_file"@,
        ShredError::ShortcutDetected { .. } => "shortcut_detected"@,
        ShredError::InvalidPathType(_) => "invalid_path_type"@,
        ShredError::EmptyPath => "empty_path"@,
        ShredError::ValidationFailed(_) => "validation_failed"@,
    }
}

/// Stable machine-readable name of an error variant.
pub fn error_type(error: &ShredError) -> (r: &'static str)
    ensures
        r@ == error_type_text(*error),
{
    match error {
        ShredError::FileNotFound(_) => "file_not_found",
        ShredError::PermissionDenied(_) => "permission_denied",
        ShredError::FileLocked { .. } => "file_locked",
        ShredError::IoError { .. } => "io_error",
        ShredError::VerificationFailed { .. } => "verification_failed",
        ShredError::HardLinkBlocked { .. } => "hard_link_blocked",
        ShredError::UnsupportedStorageForMethod { .. } => "unsupported_storage_for_method",
        ShredError::WriteCheckFailed { .. } => "write_check_failed",
        ShredError::BrowserCollectionFailed { .. } => "browser_collection_failed",
        ShredError::NetworkDrive(_) => "network_drive",
        ShredError::SystemFile(_) => "system_file",
        ShredError::ShortcutDetected { .. } => "shortcut_detected",
        ShredError::InvalidPathType(_) => "invalid_path_type",
        ShredError::EmptyPath => "empty_path",
        ShredError::ValidationFailed(_) => "validation_failed",
    }
}

/// Guidance for an error at a stage.
pub open spec fn actionable_text(stage: ExecutionStage) -> Seq<char> {
    match stage {
        ExecutionStage::Preflight => "Fix the target validation errors and retry"@,
        ExecutionStage::Overwrite | ExecutionStage::Verify =>
            "The target may be partially destroyed; inspect it before retrying"@,
        ExecutionStage::Rename | ExecutionStage::Truncate | ExecutionStage::Delete =>
            "The target may be partially destroyed; do not assume cleanup completed"@,
        ExecutionStage::DirectoryRemove | ExecutionStage::Journal | ExecutionStage::Sync =>
            "Containing directories were preserved; resolve the error before retrying"@,
    }
}

/// Guidance for an error at a stage.
pub fn actionable(stage: ExecutionStage) -> (r: &'static str)
    ensures
        r@ == actionable_text(stage),
{
    match stage {
        ExecutionStage::Preflight => "Fix the target validation errors and retry",
        ExecutionStage::Overwrite | ExecutionStage::Verify =>
            "The target may be partially destroyed; inspect it before retrying",
        ExecutionStage::Rename | ExecutionStage::Truncate | ExecutionStage::Delete =>
            "The target may be partially destroyed; do not assume cleanup completed",
        ExecutionStage::DirectoryRemove | ExecutionStage::Journal | ExecutionStage::Sync =>
            "Containing directories were preserved; resolve the error before retrying",
    }
}

/// The error record for a failure at a path and stage.
pub fn child_error(path: &str, stage: ExecutionStage, error: ShredError) -> (r: ChildErrorDto)
    ensures
        r.path@ == path@,
        r.stage == stage,
        r.error_type@ == error_type_text(error),
        r.message@ == shred_error_message(error),
        r.actionable@ == actionable_text(stage),
{
    ChildErrorDto {
        path: String::from_str(path),
        stage,
        error_type: String::from_str(error_type(&error)),
        message: error.message(),
        actionable: String::from_str(actionable(stage)),
    }
}

/// The error record for a journal failure at a path.
pub fn journal_child_error(path: &str, error: JournalError) -> (r: ChildErrorDto)
    ensures
        r.path@ == path@,
        r.stage == ExecutionStage::Journal,
        r.error_type@ == "journal_error"@,
{
    ChildErrorDto {
        path: String::from_str(path),
        stage: ExecutionStage::Journal,
        error_type: String::from_str("journal_error"),
        message: error.message(),
        actionable: String::from_str(
            "Journal durability or recovery failed; preserve the containing directory and investigate before retrying",
        ),
    }
}

/// The result fields copied from the request.
pub open spec fn answers(r: RootResultDto, q: ExecuteRootRequest) -> bool {
    r.target_id@ == q.target_id@ && r.requested_path@ == q.path@ && r.kind == q.kind
}

/// A result with nothing done: no removal, no counts, nothing shredded.
pub open spec fn untouched(r: RootResultDto) -> bool {
    !r.root_removed && r.files_destroyed == 0 && r.directories_removed == 0 && r.bytes_shredded == 0
}

fn empty_result(request: ExecuteRootRequest, status: RootStatus, errors: Vec<ChildErrorDto>) -> (r: RootResultDto)
    ensures
        answers(r, request),
        r.status == status,
        untouched(r),
        r.errors@ == errors@,
        r.write_check == WriteCheckOutcome::NotRun,
{
    RootResultDto {
        target_id: request.target_id,
        requested_path: request.path,
        kind: request.kind,
        status,
        root_removed: false,
        files_destroyed: 0,
        directories_removed: 0,
        bytes_shredded: 0,
        write_check: WriteCheckOutcome::NotRun,
        errors,
    }
}

/// A root that failed before anything was done.
pub fn failed_result(request: ExecuteRootRequest, errors: Vec<ChildErrorDto>) -> (r: RootResultDto)
    ensures
        answers(r, request),
        r.status == RootStatus::Failed,
        untouched(r),
        r.errors@ == errors@,
        r.write_check == WriteCheckOutcome::NotRun,
{
    empty_result(request, RootStatus::Failed, errors)
}

/// A root left alone because another root failed preflight or execution.
pub fn skipped_result(request: ExecuteRootRequest) -> (r: RootResultDto)
    ensures
        answers(r, request),
        r.status == RootStatus::Skipped,
        untouched(r),
        r.errors@.len() == 0,
        r.write_check == WriteCheckOutcome::NotRun,
{
    empty_result(request, RootStatus::Skipped, Vec::new())
}

/// A root not started because the operation was stopped.
pub fn cancelled_result(request: ExecuteRootRequest) -> (r: RootResultDto)
    ensures
        answers(r, request),
        r.status == RootStatus::Cancelled,
        untouched(r),
        r.errors@.len() == 0,
        r.write_check == WriteCheckOutcome::NotRun,
{
    empty_result(request, RootStatus::Cancelled, Vec::new())
}

/// The textual conditions on a root path, given the home directory.
pub open spec fn root_path_acceptable(path: Seq<char>, network: bool, home: Option<Seq<char>>) -> bool {
    &&& is_absolute(path)
    &&& parent_of(path) is Some
    &&& !has_parent_component(path)
    &&& !network
    &&& home matches Some(h) && !same_path(path, h) && path_starts_with(path, h)
}

fn validation_failed(message: &str) -> (r: ShredError)
    ensures
        r matches ShredError::ValidationFailed(m) && m@ == message@,
{
    ShredError::ValidationFailed(String::from_str(message))
}

/// The reason a root path is refused on its text alone, checked in this
/// order: relative, a filesystem root, a `..` component.
pub open spec fn text_refusal(path: Seq<char>) -> Option<Seq<char>> {
    if !is_absolute(path) {
        Some("relative paths are not safe execution roots"@)
    } else if parent_of(path) is None {
        Some("filesystem roots are not safe execution roots"@)
    } else if has_parent_component(path) {
        Some("parent traversal is not safe for execution roots"@)
    } else {
        None
    }
}

/// The parent of an absolute path is absolute.
proof fn lemma_rebuild_absolute(comps: Seq<Seq<char>>)
    ensures
        is_absolute(rebuild(true, comps)),
    decreases comps.len(),
{
    if comps.len() > 1 {
        lemma_rebuild_absolute(comps.drop_last());
    }
}

/// Where a root may not lie, given the home directory: the message refusing
/// it when the home directory is unknown, the root is the home directory
/// itself, or it lies outside it.
pub open spec fn place_refusal(path: Seq<char>, home: Option<Seq<char>>) -> Option<Seq<char>> {
    match home {
        None => Some("home directory is unavailable"@),
        Some(h) => if same_path(path, h) {
            Some("the home directory is not a safe execution root"@)
        } else if !path_starts_with(path, h) {
            Some("execution roots must be inside the home directory"@)
        } else {
            None
        },
    }
}

/// The text of an optional home directory.
pub open spec fn home_text(home: Option<&str>) -> Option<Seq<char>> {
    match home {
        Some(h) => Some(h@),
        None => None,
    }
}

/// Checks a requested root path: absolute, not a filesystem root, no `..`,
/// not on the network, strictly inside the home directory, in that order.
pub fn validate_root_path(path: &str, network: bool, home: Option<&str>) -> (r: Result<(), ShredError>)
    ensures
        r is Ok <==> root_path_acceptable(path@, network, home_text(home)),
        text_refusal(path@) matches Some(m) ==> (r matches Err(ShredError::ValidationFailed(e)) && e@ == m),
        text_refusal(path@) is None && network ==> (r matches Err(ShredError::NetworkDrive(p)) && p@ == path@),
        text_refusal(path@) is None && !network ==> (place_refusal(path@, home_text(home)) matches Some(m)
            ==> (r matches Err(ShredError::ValidationFailed(e)) && e@ == m)),
{
    if !path_is_absolute(path) {
        return Err(validation_failed("relative paths are not safe execution roots"));
    }
    if parent_path(path).is_none() {
        return Err(validation_failed("filesystem roots are not safe execution roots"));
    }
    if contains_parent_component(path) {
        return Err(validation_failed("parent traversal is not safe for execution roots"));
    }
    if network {
        return Err(ShredError::NetworkDrive(String::from_str(path)));
    }
    let home = match home {
        Some(h) => h,
        None => return Err(validation_failed("home directory is unavailable")),
    };
    if is_same_path(path, home) {
        return Err(validation_failed("the home directory is not a safe execution root"));
    }
    if !starts_with_path(path, home) {
        return Err(validation_failed("execution roots must be inside the home directory"));
    }
    Ok(())
}

/// A regular file with more than one name is refused: destroying it would
/// leave its data reachable under the other names.
pub fn check_link_count(path: &str, count: u64) -> (r: Result<(), ShredError>)
    ensures
        count <= 1 ==> r is Ok,
        count > 1 ==> (r matches Err(ShredError::HardLinkBlocked { path: p, count: c }) && p@ == path@ && c == count),
{
    if count > 1 {
        return Err(ShredError::HardLinkBlocked { path: owned(path), count });
    }
    Ok(())
}

/// Two roots overlap when one lies at or below the other.
pub open spec fn overlapping(left: Seq<char>, right: Seq<char>) -> bool {
    same_path(left, right) || path_starts_with(left, right) || path_starts_with(right, left)
}

/// Whether one root lies at or below the other.
pub fn roots_overlap(left: &str, right: &str) -> (r: bool)
    ensures
        r == overlapping(left@, right@),
{
    is_same_path(left, right) || starts_with_path(left, right) || starts_with_path(right, left)
}

/// Overlap does not depend on the order of the two roots.
pub proof fn lemma_overlap_symmetric(left: Seq<char>, right: Seq<char>)
    ensures
        overlapping(left, right) == overlapping(right, left),
{
}

/// A root overlaps every root that lies at or below it, and every root it
/// lies below: a directory and anything inside it are never both roots of
/// one batch.
pub proof fn lemma_nested_roots_overlap(outer: Seq<char>, inner: Seq<char>)
    ensures
        path_starts_with(inner, outer) ==> overlapping(outer, inner) && overlapping(inner, outer),
        same_path(inner, outer) ==> overlapping(outer, inner),
{
}

/// The requested kind admits the opened kind; links and special files never do.
pub open spec fn root_kind_admits(requested: TargetKind, actual: NodeKind) -> bool {
    match actual {
        NodeKind::Link | NodeKind::Special => false,
        NodeKind::RegularFile => requested == TargetKind::File || requested == TargetKind::UnknownLegacy,
        NodeKind::Directory => requested == TargetKind::Directory || requested == TargetKind::UnknownLegacy,
    }
}

/// A root is admitted only as the kind it was requested as: a file root
/// only when it opens as a regular file, a directory root only when it
/// opens as a directory, a legacy root as either; links and special nodes
/// never, and a link root never.
pub proof fn lemma_root_kind_must_match(requested: TargetKind, actual: NodeKind)
    ensures
        root_kind_admits(requested, actual) ==> actual == NodeKind::RegularFile || actual == NodeKind::Directory,
        root_kind_admits(requested, actual) && requested == TargetKind::File ==> actual == NodeKind::RegularFile,
        root_kind_admits(requested, actual) && requested == TargetKind::Directory ==> actual == NodeKind::Directory,
        root_kind_admits(requested, actual) ==> requested != TargetKind::Link,
        (actual == NodeKind::RegularFile || actual == NodeKind::Directory) && requested == TargetKind::UnknownLegacy
            ==> root_kind_admits(requested, actual),
        requested == TargetKind::File && actual == NodeKind::RegularFile ==> root_kind_admits(requested, actual),
        requested == TargetKind::Directory && actual == NodeKind::Directory ==> root_kind_admits(requested, actual),
{
}

/// Checks that an opened root is what was requested.
pub fn validate_root_kind(requested: TargetKind, actual: NodeKind) -> (r: Result<(), ShredError>)
    ensures
        r is Ok <==> root_kind_admits(requested, actual),
        r is Err ==> r->Err_0 is ValidationFailed,
        requested == TargetKind::File && actual != NodeKind::RegularFile ==> r is Err,
        requested == TargetKind::Directory && actual != NodeKind::Directory ==> r is Err,
        requested == TargetKind::Link || actual == NodeKind::Link || actual == NodeKind::Special ==> r is Err,
        (requested == TargetKind::File && actual == NodeKind::RegularFile)
            || (requested == TargetKind::Directory && actual == NodeKind::Directory) ==> r is Ok,
        (actual == NodeKind::Link || actual == NodeKind::Special) ==> (r matches Err(ShredError::ValidationFailed(m))
            && m@ == "links and special files are not safe execution roots"@),
        actual != NodeKind::Link && actual != NodeKind::Special && r is Err ==> (r matches Err(ShredError::ValidationFailed(m))
            && m@ == "execution root kind does not match the opened node"@),
{
    match actual {
        NodeKind::Link | NodeKind::Special => {
            return Err(validation_failed("links and special files are not safe execution roots"));
        },
        _ => {},
    }
    let valid = match requested {
        TargetKind::File => actual == NodeKind::RegularFile,
        TargetKind::Directory => actual == NodeKind::Directory,
        TargetKind::Link => false,
        TargetKind::UnknownLegacy => true,
    };
    if valid {
        Ok(())
    } else {
        Err(validation_failed("execution root kind does not match the opened node"))
    }
}

/// Checks that an adapter returned a single plain name.
pub fn validate_child_name(name: &str) -> (r: Result<(), ShredError>)
    ensures
        r is Ok <==> crate::shredder::journal::valid_basename(name@),
{
    if crate::shredder::journal::is_valid_basename(name) {
        Ok(())
    } else {
        Err(validation_failed("adapter returned an unsafe child name"))
    }
}

/// The aggregate write check: any failure dominates, then any pass.
pub open spec fn merged_check(acc: WriteCheckOutcome, next: WriteCheckOutcome) -> WriteCheckOutcome {
    if acc == WriteCheckOutcome::Failed || next == WriteCheckOutcome::Failed {
        WriteCheckOutcome::Failed
    } else if acc == WriteCheckOutcome::Passed || next == WriteCheckOutcome::Passed {
        WriteCheckOutcome::Passed
    } else {
        WriteCheckOutcome::NotRun
    }
}

/// Folds one file's write-check outcome into a root's aggregate.
pub fn merge_write_check(acc: WriteCheckOutcome, next: WriteCheckOutcome) -> (r: WriteCheckOutcome)
    ensures
        r == merged_check(acc, next),
{
    match (acc, next) {
        (WriteCheckOutcome::Failed, _) | (_, WriteCheckOutcome::Failed) => WriteCheckOutcome::Failed,
        (WriteCheckOutcome::Passed, _) | (_, WriteCheckOutcome::Passed) => WriteCheckOutcome::Passed,
        _ => WriteCheckOutcome::NotRun,
    }
}

/// The aggregate does not depend on the order in which files were checked,
/// and a file without a check leaves it unchanged.
pub proof fn lemma_merge_order_free(a: WriteCheckOutcome, b: WriteCheckOutcome, c: WriteCheckOutcome)
    ensures
        merged_check(a, b) == merged_check(b, a),
        merged_check(merged_check(a, b), c) == merged_check(a, merged_check(b, c)),
        merged_check(a, WriteCheckOutcome::NotRun) == a,
        merged_check(a, a) == a,
{
}

/// How a root settles once its walk ended: visible errors make it failed,
/// then a stop request makes it cancelled; otherwise it is destroyed when
/// the root itself is gone.
pub open spec fn settled_status(removed: bool, cancelled: bool, has_errors: bool) -> RootStatus {
    if has_errors {
        RootStatus::Failed
    } else if cancelled {
        RootStatus::Cancelled
    } else if removed {
        RootStatus::Destroyed
    } else {
        RootStatus::Failed
    }
}

/// A root is reported destroyed only when it was removed, without errors
/// and without cancellation; any error makes it failed, and a cancellation
/// without errors makes it cancelled.
pub proof fn lemma_destroyed_only_when_removed_cleanly(removed: bool, cancelled: bool, has_errors: bool)
    ensures
        settled_status(removed, cancelled, has_errors) == RootStatus::Destroyed <==> (removed && !cancelled && !has_errors),
        has_errors ==> settled_status(removed, cancelled, has_errors) == RootStatus::Failed,
        !has_errors && cancelled ==> settled_status(removed, cancelled, has_errors) == RootStatus::Cancelled,
        !removed && !cancelled ==> settled_status(removed, cancelled, has_errors) == RootStatus::Failed,
{
}

/// The status of a root whose walk ended.
pub fn root_status(removed: bool, cancelled: bool, has_errors: bool) -> (r: RootStatus)
    ensures
        r == settled_status(removed, cancelled, has_errors),
        r == RootStatus::Destroyed <==> (removed && !cancelled && !has_errors),
        has_errors ==> r == RootStatus::Failed,
        !has_errors && cancelled ==> r == RootStatus::Cancelled,
{
    if has_errors {
        RootStatus::Failed
    } else if cancelled {
        RootStatus::Cancelled
    } else if removed {
        RootStatus::Destroyed
    } else {
        RootStatus::Failed
    }
}

/// The note added to a fatal error once bytes were already overwritten.
pub open spec fn partial_destruction_note() -> Seq<char> {
    "; previous overwrites are irreversible partial destruction"@
}

/// The guidance given for a fatal error after partial destruction.
pub open spec fn partial_destruction_guidance() -> Seq<char> {
    "Previous overwrites are irreversible; preserve the containing directory and investigate before retrying"@
}

/// Marks a fatal error as following irreversible partial destruction.
pub fn annotate_partial_destruction(error: ChildErrorDto) -> (r: ChildErrorDto)
    ensures
        r.path == error.path,
        r.stage == error.stage,
        r.error_type == error.error_type,
        r.message@ == error.message@ + partial_destruction_note(),
        r.actionable@ == partial_destruction_guidance(),
{
    let message = cat(error.message.as_str(), "; previous overwrites are irreversible partial destruction");
    ChildErrorDto {
        path: error.path,
        stage: error.stage,
        error_type: error.error_type,
        message,
        actionable: String::from_str(
            "Previous overwrites are irreversible; preserve the containing directory and investigate before retrying",
        ),
    }
}

/// The text of a failure whose rollback to the original name failed too.
pub open spec fn rollback_failure_text(description: Seq<char>, error: ShredError, rollback: ShredError) -> Seq<char> {
    description + ": "@ + shred_error_message(error) + "; rollback to original name failed: "@
        + shred_error_message(rollback)
}

/// The error reported after a failed step of a file's cleanup: the step's own
/// error when the rename back to the original name succeeded, otherwise one
/// that names both failures.
pub fn rollback_report(description: &str, error: ShredError, rollback: Result<(), ShredError>) -> (r: ShredError)
    ensures
        rollback is Ok ==> r == error,
        rollback matches Err(e) ==> (r matches ShredError::ValidationFailed(m)
            && m@ == rollback_failure_text(description@, error, e)),
{
    match rollback {
        Ok(()) => error,
        Err(rollback_error) => {
            let first = cat4(description, ": ", error.message().as_str(), "; rollback to original name failed: ");
            ShredError::ValidationFailed(cat(first.as_str(), rollback_error.message().as_str()))
        },
    }
}

/// A piece of a path that can be a component: not empty, no separator, not `.`.
spec fn plain_piece(c: Seq<char>) -> bool {
    c.len() > 0 && !c.contains('/') && c != seq!['.']
}

/// Every component a path splits into is a plain piece.
proof fn lemma_components_plain(s: Seq<char>, cur: Seq<char>, acc: Seq<Seq<char>>)
    requires
        forall|i: int| 0 <= i < acc.len() ==> plain_piece(#[trigger] acc[i]),
        !cur.contains('/'),
    ensures
        forall|i: int| 0 <= i < crate::pathname::comps_acc(s, cur, acc).len()
            ==> plain_piece(#[trigger] crate::pathname::comps_acc(s, cur, acc)[i]),
    decreases s.len(),
{
    let flushed = crate::pathname::flush(acc, cur);
    assert forall|i: int| 0 <= i < flushed.len() implies plain_piece(#[trigger] flushed[i]) by {
        if i < acc.len() {
            assert(flushed[i] == acc[i]);
        }
    }
    if s.len() == 0 {
        assert(crate::pathname::comps_acc(s, cur, acc) == flushed);
    } else {
        if s[0] == '/' {
            assert(crate::pathname::comps_acc(s, cur, acc) == crate::pathname::comps_acc(s.drop_first(), Seq::empty(), flushed));
            assert(!Seq::<char>::empty().contains('/'));
            lemma_components_plain(s.drop_first(), Seq::empty(), flushed);
        } else {
            let next = cur.push(s[0]);
            assert forall|i: int| 0 <= i < next.len() implies next[i] != '/' by {
                if i < cur.len() {
                    assert(next[i] == cur[i]);
                }
            }
            assert(crate::pathname::comps_acc(s, cur, acc) == crate::pathname::comps_acc(s.drop_first(), next, acc));
            lemma_components_plain(s.drop_first(), next, acc);
        }
    }
}

/// The name of a path, when it has one, is a plain name.
proof fn lemma_file_name_plain(p: Seq<char>)
    ensures
        file_name_of(p) matches Some(n) ==> valid_basename(n),
{
    lemma_components_plain(p, Seq::empty(), Seq::empty());
    let c = crate::pathname::components(p);
    if c.len() > 0 {
        assert(plain_piece(c[c.len() - 1]));
    }
}

/// The hidden name a file is renamed to is a plain name.
proof fn lemma_generated_name_plain(id: u128)
    ensures
        valid_basename(generated_name_text(id)),
{
    crate::text::lemma_hex_fixed_no_separator(id as nat, 32);
    reveal_strlit(".knockknock-");
    let pre = ".knockknock-"@;
    let h = hex_fixed(id as nat, 32);
    let g = generated_name_text(id);
    assert forall|i: int| 0 <= i < g.len() implies g[i] != '/' by {
        if i < pre.len() {
            assert(g[i] == pre[i]);
        } else {
            assert(g[i] == h[i - pre.len()]);
        }
    }
    assert(g.len() == 44);
    assert(g != seq!['.']);
    assert(g != seq!['.', '.']);
    assert(!g.contains('/'));
}

/// The hidden name a file takes just before it is unlinked.
pub open spec fn generated_name_text(id: u128) -> Seq<char> {
    ".knockknock-"@ + hex_fixed(id as nat, 32)
}

/// The hidden name a file takes just before it is unlinked: a fixed prefix and
/// its identity as 32 hexadecimal digits.
pub fn generated_name(id: u128) -> (r: String)
    ensures
        r@ == generated_name_text(id),
{
    let digits = hex_padded(id, 32);
    let hex = string_of(digits.as_slice());
    cat(".knockknock-", hex.as_str())
}

/// The stage at which a file's reported issues are recorded: the overwrite
/// when it did not complete, the write check when it did.
pub open spec fn issue_stage(state: OverwriteState) -> ExecutionStage {
    match state {
        OverwriteState::Completed => ExecutionStage::Verify,
        _ => ExecutionStage::Overwrite,
    }
}

/// The stage at which a file's reported issues are recorded.
pub fn stage_for_issues(state: OverwriteState) -> (r: ExecutionStage)
    ensures
        r == issue_stage(state),
{
    match state {
        OverwriteState::Completed => ExecutionStage::Verify,
        _ => ExecutionStage::Overwrite,
    }
}

/// The storage rule applied to a classifier's answer for a root: a method
/// that needs magnetic storage runs only where the classifier confirmed it;
/// a classifier failure blocks the root.
pub fn check_storage(
    method: DeletionMethod,
    classified: Result<MediaType, ShredError>,
    path: &str,
) -> (r: Result<(), ShredError>)
    ensures
        classified matches Ok(m) ==> (r is Ok <==> storage_allows(method, m)),
        classified matches Ok(m) ==> (!storage_allows(method, m) ==> (r matches Err(
            ShredError::UnsupportedStorageForMethod { path: p, method: rm, media: rd },
        ) && p@ == path@ && rm == method && rd == m)),
        classified matches Err(e) ==> r == Err::<(), ShredError>(e),
        method == DeletionMethod::LegacyThreePass && !(classified matches Ok(m) && m == MediaType::Hdd) ==> r is Err,
        classified is Ok && (method == DeletionMethod::Automatic || classified == Ok::<MediaType, ShredError>(MediaType::Hdd))
            ==> r is Ok,
{
    match classified {
        Err(e) => Err(e),
        Ok(media) => {
            let legacy = match method {
                DeletionMethod::Automatic => false,
                DeletionMethod::LegacyThreePass => true,
            };
            let hdd = match media {
                MediaType::Hdd => true,
                _ => false,
            };
            if legacy && !hdd {
                Err(ShredError::UnsupportedStorageForMethod { path: String::from_str(path), method, media })
            } else {
                Ok(())
            }
        },
    }
}

/// Two identities name the same node.
pub open spec fn same_identity(a: NodeIdentity, b: NodeIdentity) -> bool {
    a.spec_id() == b.spec_id() && a.spec_mount_id() == b.spec_mount_id()
}

/// No node is named twice.
pub open spec fn distinct_identities(s: Seq<NodeIdentity>) -> bool {
    forall|i: int, j: int| 0 <= i < j < s.len() ==> !same_identity(#[trigger] s[i], #[trigger] s[j])
}

/// `identity` names a node already in `s`.
pub open spec fn identity_seen(s: Seq<NodeIdentity>, identity: NodeIdentity) -> bool {
    exists|i: int| 0 <= i < s.len() && same_identity(#[trigger] s[i], identity)
}

/// Records a node for the batch: `false`, and nothing recorded, when the
/// same node was already planned.
fn record_identity(seen: &mut Vec<NodeIdentity>, identity: NodeIdentity) -> (r: bool)
    ensures
        r == !identity_seen(old(seen)@, identity),
        r ==> final(seen)@ == old(seen)@.push(identity),
        !r ==> final(seen)@ == old(seen)@,
        distinct_identities(old(seen)@) ==> distinct_identities(final(seen)@),
{
    let mut i: usize = 0;
    while i < seen.len()
        invariant
            i <= seen@.len(),
            forall|k: int| 0 <= k < i ==> !same_identity(#[trigger] seen@[k], identity),
        decreases seen.len() - i,
    {
        if seen[i].same_node(&identity) {
            return false;
        }
        i = i + 1;
    }
    let ghost before = seen@;
    seen.push(identity);
    proof {
        assert forall|a: int, b: int| 0 <= a < b < seen@.len() && distinct_identities(before)
            implies !same_identity(#[trigger] seen@[a], #[trigger] seen@[b]) by {
            if b == before.len() {
                assert(!same_identity(before[a], identity));
            }
        }
    }
    true
}

/// The storage class already found for a volume in this batch.
fn cached_media(cache: &Vec<(u64, MediaType)>, mount_id: u64) -> (r: Option<MediaType>)
    ensures
        r matches Some(m) ==> exists|i: int| 0 <= i < cache@.len() && cache@[i] == (mount_id, m),
        r is None ==> forall|i: int| 0 <= i < cache@.len() ==> (#[trigger] cache@[i]).0 != mount_id,
{
    let mut i: usize = 0;
    while i < cache.len()
        invariant
            i <= cache@.len(),
            forall|k: int| 0 <= k < i ==> (#[trigger] cache@[k]).0 != mount_id,
        decreases cache.len() - i,
    {
        let (id, media) = cache[i];
        if id == mount_id {
            return Some(media);
        }
        i = i + 1;
    }
    None
}

/// One node of a root's plan, as preflight found it.
struct PlannedNode {
    parent: DirHandle,
    handle: NodeHandle,
    identity: NodeIdentity,
    kind: NodeKind,
    name: String,
    trusted_parent_path: String,
    diagnostic_path: String,
    children: Vec<PlannedNode>,
    /// The hard-link count the adapter reported, for a regular file.
    link_count: Ghost<u64>,
}

/// A planned node and everything below it are safe to destroy: kinds agree
/// with identities, nothing is special, every node lies on the root's volume,
/// directories stop above the depth limit, and every child is a plain name
/// inside its directory.
spec fn node_wf(n: PlannedNode, depth: nat, mount: u64) -> bool
    decreases MAX_DEPTH - depth,
{
    &&& n.kind == n.identity.spec_kind()
    &&& n.kind != NodeKind::Special
    &&& n.kind == NodeKind::RegularFile ==> n.link_count@ <= 1
    &&& valid_basename(n.name@)
    &&& n.identity.spec_mount_id() == mount
    &&& if n.kind == NodeKind::Directory {
        if depth < MAX_DEPTH {
            forall|i: int| 0 <= i < n.children@.len() ==> {
                &&& node_wf(#[trigger] n.children@[i], depth + 1, mount)
                &&& n.children@[i].parent.id() == n.handle.id()
                &&& valid_basename(n.children@[i].name@)
                &&& n.children@[i].trusted_parent_path@ == n.diagnostic_path@
                &&& n.children@[i].diagnostic_path@ == join_path(n.diagnostic_path@, n.children@[i].name@)
            }
        } else {
            false
        }
    } else {
        n.children@.len() == 0
    }
}

/// Walks one directory during preflight: every entry is a plain name, opened
/// without following links, on the root's volume, never seen before in the
/// batch, not special, and (for regular files) not hard-linked elsewhere.
fn inspect_directory<I: SecureTreeIo>(
    parent: &DirHandle,
    diagnostic_path: &str,
    root_mount_id: u64,
    depth: usize,
    io: &I,
    identities: &mut Vec<NodeIdentity>,
    link_counts: &mut Ghost<Seq<u64>>,
) -> (r: Result<Vec<PlannedNode>, ShredError>)
    requires
        depth <= MAX_DEPTH,
    ensures
        distinct_identities(old(identities)@) ==> distinct_identities(final(identities)@),
        old(link_counts)@.is_prefix_of(final(link_counts)@),
        r is Ok ==> forall|i: int| old(link_counts)@.len() <= i < final(link_counts)@.len()
            ==> #[trigger] final(link_counts)@[i] <= 1,
        r matches Ok(children) ==> depth < MAX_DEPTH && forall|i: int| 0 <= i < children@.len() ==> {
            &&& node_wf(#[trigger] children@[i], (depth + 1) as nat, root_mount_id)
            &&& children@[i].parent.id() == parent.id()
            &&& valid_basename(children@[i].name@)
            &&& children@[i].trusted_parent_path@ == diagnostic_path@
            &&& children@[i].diagnostic_path@ == join_path(diagnostic_path@, children@[i].name@)
        },
    decreases MAX_DEPTH - depth,
{
    if depth >= MAX_DEPTH {
        let limit = u64_to_string(50);
        return Err(ShredError::ValidationFailed(cat3("directory depth limit (", limit.as_str(), ") exceeded")));
    }
    let names = io.enumerate(parent)?;
    let mut plans: Vec<PlannedNode> = Vec::new();
    let mut k: usize = 0;
    while k < names.len()
        invariant
            depth < MAX_DEPTH,
            k <= names@.len(),
            distinct_identities(old(identities)@) ==> distinct_identities(identities@),
            old(link_counts)@.is_prefix_of(link_counts@),
            forall|i: int| old(link_counts)@.len() <= i < link_counts@.len() ==> #[trigger] link_counts@[i] <= 1,
            forall|i: int| 0 <= i < plans@.len() ==> {
                &&& node_wf(#[trigger] plans@[i], (depth + 1) as nat, root_mount_id)
                &&& plans@[i].parent.id() == parent.id()
                &&& valid_basename(plans@[i].name@)
                &&& plans@[i].trusted_parent_path@ == diagnostic_path@
                &&& plans@[i].diagnostic_path@ == join_path(diagnostic_path@, plans@[i].name@)
            },
        decreases names.len() - k,
    {
        let child_name = names[k].as_str();
        validate_child_name(child_name)?;
        let node = io.open_child_nofollow(parent, child_name)?;
        let identity = io.identity(&node)?;
        if identity.mount_id() != root_mount_id {
            return Err(validation_failed("mount crossing detected"));
        }
        if !record_identity(identities, identity) {
            return Err(validation_failed("duplicate node identity"));
        }
        let child_path = join(diagnostic_path, child_name);
        let kind = identity.kind();
        let ghost mut links: u64 = 0;
        let nested = match kind {
            NodeKind::Directory => {
                let child_dir = node.as_dir();
                let ghost before_counts = link_counts@;
                let nested = inspect_directory(&child_dir, child_path.as_str(), root_mount_id, depth + 1, io, identities, link_counts)?;
                proof {
                    assert forall|i: int| old(link_counts)@.len() <= i < link_counts@.len() implies #[trigger] link_counts@[i] <= 1 by {
                        if i < before_counts.len() {
                            assert(link_counts@[i] == before_counts[i]);
                        }
                    }
                }
                nested
            },
            NodeKind::Special => {
                return Err(validation_failed("special files are not safe execution targets"));
            },
            NodeKind::RegularFile => {
                let count = io.link_count(&node)?;
                *link_counts = Ghost(link_counts@.push(count));
                check_link_count(child_path.as_str(), count)?;
                proof {
                    links = count;
                }
                Vec::new()
            },
            NodeKind::Link => Vec::new(),
        };
        let planned = PlannedNode {
            parent: *parent,
            handle: node,
            identity,
            kind,
            name: String::from_str(child_name),
            trusted_parent_path: String::from_str(diagnostic_path),
            diagnostic_path: child_path,
            children: nested,
            link_count: Ghost(links),
        };
        proof {
            assert(node_wf(planned, (depth + 1) as nat, root_mount_id));
        }
        plans.push(planned);
        k = k + 1;
    }
    Ok(plans)
}

/// The textual conditions on a root path that need no filesystem access.
pub open spec fn root_text_acceptable(path: Seq<char>) -> bool {
    is_absolute(path) && parent_of(path) is Some && !has_parent_component(path)
}

/// A root's preflight: ready to execute, or refused with one error.
enum PreflightOutcome {
    Ready(ExecuteRootRequest, PlannedNode),
    Failed(ExecuteRootRequest, ChildErrorDto),
}

spec fn outcome_request(o: PreflightOutcome) -> ExecuteRootRequest {
    match o {
        PreflightOutcome::Ready(q, _) => q,
        PreflightOutcome::Failed(q, _) => q,
    }
}

/// What preflight promises of each outcome.
spec fn outcome_sound(o: PreflightOutcome) -> bool {
    match o {
        PreflightOutcome::Ready(q, node) => {
            &&& root_text_acceptable(q.path@)
            &&& root_kind_admits(q.kind, node.kind)
            &&& node.diagnostic_path@ == q.path@
            &&& node_wf(node, 0, node.identity.spec_mount_id())
        },
        PreflightOutcome::Failed(q, e) => e.stage == ExecutionStage::Preflight && e.path@ == q.path@,
    }
}

fn copy_request(q: &ExecuteRootRequest) -> (r: ExecuteRootRequest)
    ensures
        r == *q,
{
    ExecuteRootRequest { target_id: q.target_id.clone(), path: q.path.clone(), kind: q.kind }
}

fn copy_child_error(e: &ChildErrorDto) -> (r: ChildErrorDto)
    ensures
        r == *e,
{
    ChildErrorDto {
        path: e.path.clone(),
        stage: e.stage,
        error_type: e.error_type.clone(),
        message: e.message.clone(),
        actionable: e.actionable.clone(),
    }
}

/// A preflight refusal of the request with the error record of `error`.
spec fn refused_with(o: PreflightOutcome, request: ExecuteRootRequest, error: ShredError) -> bool {
    o matches PreflightOutcome::Failed(q, e) && q == request && e.path@ == request.path@
        && e.stage == ExecutionStage::Preflight && e.error_type@ == error_type_text(error)
        && e.message@ == shred_error_message(error) && e.actionable@ == actionable_text(ExecutionStage::Preflight)
}

/// A preflight refusal for a validation rule with the given message.
spec fn refused_for(o: PreflightOutcome, request: ExecuteRootRequest, message: Seq<char>) -> bool {
    o matches PreflightOutcome::Failed(q, e) && q == request && e.path@ == request.path@
        && e.stage == ExecutionStage::Preflight && e.error_type@ == "validation_failed"@
        && e.message@ == "Validation failed: "@ + message && e.actionable@ == actionable_text(ExecutionStage::Preflight)
}

fn refuse(request: ExecuteRootRequest, error: ShredError) -> (r: PreflightOutcome)
    ensures
        r == PreflightOutcome::Failed(request, r->Failed_1),
        outcome_sound(r),
        refused_with(r, request, error),
        error matches ShredError::ValidationFailed(m) ==> refused_for(r, request, m@),
{
    let e = child_error(request.path.as_str(), ExecutionStage::Preflight, error);
    PreflightOutcome::Failed(request, e)
}

/// The journal's name for a node kind.
pub open spec fn journal_kind_of(kind: NodeKind) -> JournalNodeKind {
    match kind {
        NodeKind::RegularFile => JournalNodeKind::RegularFile,
        NodeKind::Directory => JournalNodeKind::Directory,
        NodeKind::Link => JournalNodeKind::Link,
        NodeKind::Special => JournalNodeKind::Special,
    }
}

fn journal_kind(kind: NodeKind) -> (r: JournalNodeKind)
    ensures
        r == journal_kind_of(kind),
{
    match kind {
        NodeKind::RegularFile => JournalNodeKind::RegularFile,
        NodeKind::Directory => JournalNodeKind::Directory,
        NodeKind::Link => JournalNodeKind::Link,
        NodeKind::Special => JournalNodeKind::Special,
    }
}

/// What a classifier answered: the medium, or `None` when it failed.
pub open spec fn media_answer(r: Result<MediaType, ShredError>) -> Option<MediaType> {
    match r {
        Ok(m) => Some(m),
        Err(_) => None,
    }
}

/// Preflight of one root, before anything in the batch is changed: the path
/// rules, no overlap with an earlier root, the opened node's kind, identities
/// new to the batch, no hard links, a file root's containing directory on the
/// same volume, a full walk of a directory root, and the storage rule.
fn preflight_root<I: SecureTreeIo, C: MediaClassifier>(
    request: ExecuteRootRequest,
    policy: DeletionPolicy,
    network: bool,
    home: Option<&str>,
    io: &I,
    classifier: &C,
    identities: &mut Vec<NodeIdentity>,
    requested_paths: &Vec<String>,
    media_cache: &mut Vec<(u64, MediaType)>,
    classified: &mut Ghost<Seq<Option<MediaType>>>,
    link_counts: &mut Ghost<Seq<u64>>,
) -> (r: PreflightOutcome)
    ensures
        old(link_counts)@.is_prefix_of(final(link_counts)@),
        (exists|i: int| old(link_counts)@.len() <= i < final(link_counts)@.len()
            && #[trigger] final(link_counts)@[i] > 1) ==> r is Failed,
        old(classified)@.is_prefix_of(final(classified)@),
        policy.method == DeletionMethod::Automatic ==> final(classified)@ == old(classified)@,
        (exists|i: int| old(classified)@.len() <= i < final(classified)@.len()
            && #[trigger] final(classified)@[i] != Some(MediaType::Hdd)) ==> r is Failed,
        outcome_request(r) == request,
        outcome_sound(r),
        !root_text_acceptable(request.path@) ==> r is Failed,
        text_refusal(request.path@) matches Some(m) ==> refused_for(r, request, m)
            && final(identities)@ == old(identities)@ && final(media_cache)@ == old(media_cache)@,
        !root_path_acceptable(request.path@, network, home_text(home)) ==> r is Failed
            && final(identities)@ == old(identities)@ && final(media_cache)@ == old(media_cache)@,
        text_refusal(request.path@) is None && network ==> (r matches PreflightOutcome::Failed(_, e)
            && e.error_type@ == "network_drive"@),
        text_refusal(request.path@) is None && !network ==> (place_refusal(request.path@, home_text(home)) matches Some(m)
            ==> refused_for(r, request, m)),
        (exists|k: int| 0 <= k < requested_paths@.len() && overlapping(request.path@, #[trigger] requested_paths@[k]@))
            ==> r is Failed && final(identities)@ == old(identities)@ && final(media_cache)@ == old(media_cache)@,
        root_path_acceptable(request.path@, network, home_text(home)) && (exists|k: int| 0 <= k < requested_paths@.len()
            && overlapping(request.path@, #[trigger] requested_paths@[k]@))
            ==> refused_for(r, request, "parent/child root overlap"@),
        distinct_identities(old(identities)@) ==> distinct_identities(final(identities)@),
        old(media_cache)@.is_prefix_of(final(media_cache)@),
        r matches PreflightOutcome::Ready(q, node) ==> (q.kind == TargetKind::File ==> node.kind == NodeKind::RegularFile)
            && (q.kind == TargetKind::Directory ==> node.kind == NodeKind::Directory)
            && node.kind == node.identity.spec_kind() && q.kind != TargetKind::Link,
        r matches PreflightOutcome::Ready(_, node) ==> (policy.method == DeletionMethod::LegacyThreePass
            ==> exists|i: int| 0 <= i < final(media_cache)@.len()
                && #[trigger] final(media_cache)@[i] == (node.identity.spec_mount_id(), MediaType::Hdd)),
{
    let ghost counts0 = link_counts@;
    let path_text = request.path.clone();
    let path = path_text.as_str();
    let checked = validate_root_path(path, network, home);
    if let Err(e) = checked {
        return refuse(request, e);
    }
    let mut k: usize = 0;
    while k < requested_paths.len()
        invariant
            k <= requested_paths@.len(),
            text_refusal(path@) is None,
            root_path_acceptable(path@, network, home_text(home)),
            path@ == request.path@,
            forall|j: int| 0 <= j < k ==> !overlapping(path@, #[trigger] requested_paths@[j]@),
        decreases requested_paths.len() - k,
    {
        if roots_overlap(path, requested_paths[k].as_str()) {
            return refuse(request, validation_failed("parent/child root overlap"));
        }
        k = k + 1;
    }
    let handle = match io.open_root_nofollow(path) {
        Ok(h) => h,
        Err(e) => return refuse(request, e),
    };
    let node_handle = handle.as_node();
    let identity = match io.identity(&node_handle) {
        Ok(i) => i,
        Err(e) => return refuse(request, e),
    };
    let kind = identity.kind();
    if let Err(e) = validate_root_kind(request.kind, kind) {
        return refuse(request, e);
    }
    if !record_identity(identities, identity) {
        return refuse(request, validation_failed("duplicate node identity"));
    }
    proof {
        lemma_file_name_plain(path@);
    }
    let root_name = match file_name(path) {
        Some(n) => n,
        None => return refuse(request, validation_failed("execution target has no original basename")),
    };
    let trusted_parent_path = match parent_path(path) {
        Some(p) => p,
        None => String::new(),
    };
    let ghost mut links: u64 = 0;
    let parent_dir = match kind {
        NodeKind::RegularFile => {
            let count = match io.link_count(&node_handle) {
                Ok(c) => c,
                Err(e) => return refuse(request, e),
            };
            *link_counts = Ghost(link_counts@.push(count));
            if let Err(e) = check_link_count(path, count) {
                return refuse(request, e);
            }
            proof {
                links = count;
            }
            proof {
                lemma_rebuild_absolute(crate::pathname::components(path@).drop_last());
            }
            let parent = match io.open_root_nofollow(trusted_parent_path.as_str()) {
                Ok(p) => p,
                Err(e) => return refuse(request, e),
            };
            let parent_identity = match io.identity(&parent.as_node()) {
                Ok(i) => i,
                Err(e) => return refuse(request, e),
            };
            match parent_identity.kind() {
                NodeKind::Directory => {},
                _ => return refuse(request, validation_failed("file root parent is not a directory")),
            }
            if parent_identity.mount_id() != identity.mount_id() {
                return refuse(request, validation_failed("file root parent mount does not match the root"));
            }
            parent
        },
        _ => handle,
    };
    let children = match kind {
        NodeKind::Directory => match inspect_directory(&handle, path, identity.mount_id(), 0, io, identities, link_counts) {
            Ok(c) => c,
            Err(e) => return refuse(request, e),
        },
        _ => Vec::new(),
    };
    let ghost cache0 = media_cache@;
    let ghost classified0 = classified@;
    let ghost mut hdd_at: int = 0;
    if policy.requires_hdd() {
        let mount = identity.mount_id();
        let media = match cached_media(media_cache, mount) {
            Some(m) => {
                proof {
                    hdd_at = choose|i: int| 0 <= i < media_cache@.len() && media_cache@[i] == (mount, m);
                }
                Ok(m)
            },
            None => {
                let answer = classifier.classify(path);
                *classified = Ghost(classified@.push(media_answer(answer)));
                if let Ok(m) = &answer {
                    media_cache.push((mount, *m));
                    proof {
                        hdd_at = media_cache@.len() - 1;
                    }
                }
                answer
            },
        };
        let ghost media0 = media;
        if let Err(e) = check_storage(policy.method, media, path) {
            return refuse(request, e);
        }
        proof {
            assert(media0 matches Ok(m) && m == MediaType::Hdd && media_cache@[hdd_at] == (mount, m));
        }
    }
    proof {
        assert(cache0.is_prefix_of(media_cache@));
        assert(classified0.is_prefix_of(classified@));
        assert(forall|i: int| classified0.len() <= i < classified@.len() ==> #[trigger] classified@[i] == Some(MediaType::Hdd));
        assert(forall|i: int| counts0.len() <= i < link_counts@.len() ==> #[trigger] link_counts@[i] <= 1);
    }
    let node = PlannedNode {
        parent: parent_dir,
        handle: node_handle,
        identity,
        kind,
        name: root_name,
        trusted_parent_path,
        diagnostic_path: owned(path),
        children,
        link_count: Ghost(links),
    };
    proof {
        assert(node_wf(node, 0, identity.spec_mount_id()));
    }
    PreflightOutcome::Ready(request, node)
}

/// How the walk left a node.
#[derive(PartialEq, Eq, Structural)]
enum NodeOutcome {
    /// The node is gone.
    Removed,
    /// The node stays, with its issue recorded.
    Retained,
    /// A stop request ended the walk before this node was finished.
    Cancelled,
}

/// Counters and issues of the root being executed.
struct RootExecution {
    files_destroyed: u64,
    directories_removed: u64,
    bytes_shredded: u64,
    partial_destruction: bool,
    write_check: WriteCheckOutcome,
    errors: Vec<ChildErrorDto>,
    /// Every call made to the tree adapter, the shredder and the journal
    /// while executing the root, in order, with what it answered.
    calls: Ghost<Seq<IoCall>>,
}

/// One call made while executing a root, with its answer. Nodes are named
/// by their identity number.
pub enum IoCall {
    /// The file was opened for overwriting.
    OpenForShred { node: u128, ok: bool },
    /// The open file was handed to the shredder; `None` when it refused.
    Shred { node: u128, state: Option<OverwriteState> },
    /// The identity of the file's parent directory was read.
    ParentIdentity { node: u128, answer: Option<NodeIdentity> },
    /// A record was appended to the journal.
    Append { entry: JournalEntry, ok: bool },
    /// The node was renamed within its directory.
    Rename { node: u128, name: Seq<char>, ok: bool },
    /// The directory holding the node was flushed.
    SyncParent { node: u128, ok: bool },
    /// The node (a file or a link) was unlinked.
    Unlink { node: u128, ok: bool },
    /// The empty directory was removed.
    RemoveDir { node: u128, ok: bool },
    /// A record was cleared from the journal.
    Clear { entry: JournalEntry, ok: bool },
}

/// `after` keeps every call of `before` and adds calls at the end.
spec fn calls_extend(before: Seq<IoCall>, after: Seq<IoCall>) -> bool {
    before.len() <= after.len() && forall|i: int| 0 <= i < before.len() ==> #[trigger] after[i] == before[i]
}

/// The calls made between two states of an execution.
spec fn new_calls(before: RootExecution, after: RootExecution) -> Seq<IoCall> {
    after.calls@.subrange(before.calls@.len() as int, after.calls@.len() as int)
}

/// The journal record of a file about to be renamed: bound to its trusted
/// parent (path and identity), to its generated name and to its own
/// identity and kind.
spec fn journal_entry_for(e: JournalEntry, node: PlannedNode, parent: NodeIdentity) -> bool {
    &&& e.operation == JournalOperation::RootFileRename
    &&& e.trusted_parent_path@ == node.trusted_parent_path@
    &&& e.trusted_parent_identity == Some(JournalNodeIdentity { id: parent.spec_id(), mount_id: parent.spec_mount_id() })
    &&& opt_view(e.generated_basename) == Some(generated_name_text(node.identity.spec_id()))
    &&& e.node_identity == Some(JournalNodeIdentity { id: node.identity.spec_id(), mount_id: node.identity.spec_mount_id() })
    &&& e.node_kind == Some(journal_kind_of(node.kind))
}

/// The rollback of a renamed file: a rename back to its original name and,
/// when that worked, a flush of its directory.
spec fn rollback_run(t: Seq<IoCall>, node: PlannedNode) -> bool {
    let id = node.identity.spec_id();
    t.len() >= 1 && match t[0] {
        IoCall::Rename { node: n, name, ok } => n == id && name == node.name@ && if ok {
            t.len() == 2 && (t[1] matches IoCall::SyncParent { node: m, .. } && m == id)
        } else {
            t.len() == 1
        },
        _ => false,
    }
}

/// How the cleanup of a file ends, when `t` is a run of it: `None` once the
/// file is gone and its record cleared, otherwise the stage of the error.
/// The run reads the parent's identity, appends the record, renames the file
/// to its generated name, flushes the parent, unlinks, flushes again and
/// clears the record; each step runs only once the one before succeeded. A
/// failed flush after the rename, or a failed unlink, is followed by the
/// rollback and keeps the record.
spec fn cleanup_run(t: Seq<IoCall>, node: PlannedNode) -> Option<Option<ExecutionStage>> {
    let id = node.identity.spec_id();
    if t.len() == 0 {
        None
    } else {
        match t[0] {
            IoCall::ParentIdentity { node: n, answer: None } => if n == id && t.len() == 1 {
                Some(Some(ExecutionStage::Journal))
            } else {
                None
            },
            IoCall::ParentIdentity { node: n, answer: Some(parent) } => if n == id {
                cleanup_after_identity(t.drop_first(), node, parent)
            } else {
                None
            },
            _ => None,
        }
    }
}

spec fn cleanup_after_identity(t: Seq<IoCall>, node: PlannedNode, parent: NodeIdentity) -> Option<Option<ExecutionStage>> {
    if t.len() == 0 {
        None
    } else {
        match t[0] {
            IoCall::Append { entry, ok } => if !journal_entry_for(entry, node, parent) {
                None
            } else if !ok {
                if t.len() == 1 { Some(Some(ExecutionStage::Journal)) } else { None }
            } else {
                cleanup_after_append(t.drop_first(), node, entry)
            },
            _ => None,
        }
    }
}

spec fn cleanup_after_append(t: Seq<IoCall>, node: PlannedNode, entry: JournalEntry) -> Option<Option<ExecutionStage>> {
    let id = node.identity.spec_id();
    if t.len() < 2 {
        if t.len() == 1 && t[0] == (IoCall::Rename { node: id, name: generated_name_text(id), ok: false }) {
            Some(Some(ExecutionStage::Rename))
        } else {
            None
        }
    } else if t[0] != (IoCall::Rename { node: id, name: generated_name_text(id), ok: true }) {
        None
    } else {
        match t[1] {
            IoCall::SyncParent { node: n, ok: false } => if n == id && rollback_run(t.skip(2), node) {
                Some(Some(ExecutionStage::Sync))
            } else {
                None
            },
            IoCall::SyncParent { node: n, ok: true } => if n == id {
                cleanup_after_sync(t.skip(2), node, entry)
            } else {
                None
            },
            _ => None,
        }
    }
}

spec fn cleanup_after_sync(t: Seq<IoCall>, node: PlannedNode, entry: JournalEntry) -> Option<Option<ExecutionStage>> {
    let id = node.identity.spec_id();
    if t.len() == 0 {
        None
    } else if t[0] == (IoCall::Unlink { node: id, ok: false }) {
        if rollback_run(t.drop_first(), node) { Some(Some(ExecutionStage::Delete)) } else { None }
    } else if t[0] != (IoCall::Unlink { node: id, ok: true }) || t.len() < 2 {
        None
    } else if t[1] == (IoCall::SyncParent { node: id, ok: false }) {
        if t.len() == 2 { Some(Some(ExecutionStage::Sync)) } else { None }
    } else if t[1] != (IoCall::SyncParent { node: id, ok: true }) || t.len() != 3 {
        None
    } else if t[2] == (IoCall::Clear { entry, ok: true }) {
        Some(None)
    } else if t[2] == (IoCall::Clear { entry, ok: false }) {
        Some(Some(ExecutionStage::Journal))
    } else {
        None
    }
}

/// The cleanup run unlinked the file: everything up to and including the
/// unlink succeeded.
spec fn cleanup_unlinked(t: Seq<IoCall>) -> bool {
    t.len() > 4 && t[4] matches IoCall::Unlink { ok: true, .. }
}

/// A failed write check is always accompanied by a recorded issue.
spec fn execution_inv(s: RootExecution) -> bool {
    s.write_check == WriteCheckOutcome::Failed ==> s.errors@.len() > 0
}

/// What a step of the walk keeps: recorded issues are never withdrawn, and a
/// failed write check stays failed.
spec fn execution_step(before: RootExecution, after: RootExecution) -> bool {
    &&& calls_extend(before.calls@, after.calls@)
    &&& after.errors@.len() >= before.errors@.len()
    &&& forall|i: int| 0 <= i < before.errors@.len() ==> after.errors@[i] == before.errors@[i]
    &&& (before.write_check == WriteCheckOutcome::Failed ==> after.write_check == WriteCheckOutcome::Failed)
    &&& (before.partial_destruction ==> after.partial_destruction)
}

/// The fallback issue for a file outcome that reported none.
fn fallback_issue(state: OverwriteState, path: &str) -> (r: ShredError)
    ensures
        state == OverwriteState::NotStarted ==> (r matches ShredError::ValidationFailed(m) && m@ == "file overwrite did not start"@),
        state == OverwriteState::Partial ==> (r matches ShredError::ValidationFailed(m)
            && m@ == "file shredder reported irreversible partial destruction"@),
        state == OverwriteState::Completed ==> (r matches ShredError::WriteCheckFailed { path: p } && p@ == path@),
{
    match state {
        OverwriteState::NotStarted => validation_failed("file overwrite did not start"),
        OverwriteState::Partial => validation_failed("file shredder reported irreversible partial destruction"),
        OverwriteState::Completed => ShredError::WriteCheckFailed { path: owned(path) },
    }
}

/// Records the issues a shredder reported for one file, at the stage its
/// overwrite state calls for; a non-clean outcome without any reported issue
/// gets one, so that it is never hidden.
fn record_file_issues(
    exec: &mut RootExecution,
    path: &str,
    state: OverwriteState,
    check: WriteCheckOutcome,
    issues: Vec<ShredError>,
)
    ensures
        execution_step(*old(exec), *final(exec)),
        final(exec).errors@.len() == old(exec).errors@.len() + if issues@.len() == 0 { 1 } else { issues@.len() },
        forall|i: int| 0 <= i < issues@.len() ==> {
            let e = #[trigger] final(exec).errors@[old(exec).errors@.len() + i];
            &&& e.path@ == path@
            &&& e.stage == issue_stage(state)
            &&& e.message@ == shred_error_message(issues@[i])
        },
        final(exec).write_check == old(exec).write_check,
        final(exec).files_destroyed == old(exec).files_destroyed,
        final(exec).directories_removed == old(exec).directories_removed,
        final(exec).bytes_shredded == old(exec).bytes_shredded,
        final(exec).partial_destruction == old(exec).partial_destruction,
        final(exec).calls == old(exec).calls,
{
    let stage = stage_for_issues(state);
    if issues.len() == 0 {
        let e = child_error(path, stage, fallback_issue(state, path));
        exec.errors.push(e);
        return;
    }
    let ghost base = exec.errors@.len();
    let ghost originals = issues@;
    let ghost before = exec.errors@;
    let mut rest = issues;
    let mut k: usize = 0;
    while rest.len() > 0
        invariant
            k + rest@.len() == originals.len(),
            originals.len() <= usize::MAX,
            stage == issue_stage(state),
            rest@ == originals.subrange(k as int, originals.len() as int),
            exec.errors@.len() == base + k,
            base == before.len(),
            forall|i: int| 0 <= i < base ==> exec.errors@[i] == before[i],
            forall|i: int| 0 <= i < k ==> {
                let e = #[trigger] exec.errors@[base + i];
                &&& e.path@ == path@
                &&& e.stage == issue_stage(state)
                &&& e.message@ == shred_error_message(originals[i])
            },
            exec.write_check == old(exec).write_check,
            exec.files_destroyed == old(exec).files_destroyed,
            exec.directories_removed == old(exec).directories_removed,
            exec.bytes_shredded == old(exec).bytes_shredded,
            exec.partial_destruction == old(exec).partial_destruction,
            exec.calls == old(exec).calls,
        decreases rest.len(),
    {
        let issue = rest.remove(0);
        assert(issue == originals[k as int]);
        let e = child_error(path, stage, issue);
        let ghost prior = exec.errors@;
        exec.errors.push(e);
        assert(exec.errors@ == prior.push(e));
        assert(exec.errors@[base + k] == e);
        assert forall|i: int| 0 <= i < k + 1 implies {
            let f = #[trigger] exec.errors@[base + i];
            &&& f.path@ == path@
            &&& f.stage == issue_stage(state)
            &&& f.message@ == shred_error_message(originals[i])
        } by {
            if i < k {
                assert(exec.errors@[base + i] == prior[base + i]);
            } else {
                assert(i == k);
            }
        }
        k = k + 1;
    }
}

/// Renames the file back to its original name after a failed cleanup step,
/// and reports the step's failure together with any failure of the rollback.
fn rollback_after_failure<I: SecureTreeIo>(
    exec: &mut RootExecution,
    node: &PlannedNode,
    parent: &DirHandle,
    io: &I,
    error: ShredError,
    stage: ExecutionStage,
    description: &str,
) -> (r: ChildErrorDto)
    requires
        valid_basename(node.name@),
    ensures
        r.path@ == node.diagnostic_path@,
        r.stage == stage,
        final(exec).files_destroyed == old(exec).files_destroyed,
        final(exec).errors == old(exec).errors,
        final(exec).write_check == old(exec).write_check,
        final(exec).partial_destruction == old(exec).partial_destruction,
        final(exec).bytes_shredded == old(exec).bytes_shredded,
        final(exec).directories_removed == old(exec).directories_removed,
        calls_extend(old(exec).calls@, final(exec).calls@),
        rollback_run(new_calls(*old(exec), *final(exec)), *node),
{
    let ghost before = exec.calls@;
    let id = node.identity.id();
    let renamed = io.rename_noreplace(parent, &node.handle, node.name.as_str());
    exec.calls = Ghost(exec.calls@.push(IoCall::Rename { node: id, name: node.name@, ok: renamed is Ok }));
    let rollback = match renamed {
        Ok(_) => {
            let synced = io.sync_parent(parent);
            exec.calls = Ghost(exec.calls@.push(IoCall::SyncParent { node: id, ok: synced is Ok }));
            synced
        },
        Err(e) => Err(e),
    };
    assert(new_calls(*old(exec), *exec) =~= exec.calls@.subrange(before.len() as int, exec.calls@.len() as int));
    child_error(node.diagnostic_path.as_str(), stage, rollback_report(description, error, rollback))
}

/// The destructive cleanup of an overwritten file: journal record bound to
/// both identities, rename to a generated name, durable parent, unlink,
/// durable parent, journal record cleared. A failed sync after the rename or
/// a failed unlink renames the file back and keeps the record. The calls
/// made are a run of `cleanup_run`, and the result is the end it gives.
fn cleanup_file<I: SecureTreeIo, J: JournalIo>(
    exec: &mut RootExecution,
    node: &PlannedNode,
    io: &I,
    journal: &JournalStore<J>,
) -> (r: Result<NodeOutcome, ChildErrorDto>)
    requires
        valid_basename(node.name@),
    ensures
        final(exec).errors == old(exec).errors,
        final(exec).write_check == old(exec).write_check,
        final(exec).partial_destruction == old(exec).partial_destruction,
        final(exec).bytes_shredded == old(exec).bytes_shredded,
        final(exec).directories_removed == old(exec).directories_removed,
        calls_extend(old(exec).calls@, final(exec).calls@),
        cleanup_run(new_calls(*old(exec), *final(exec)), *node) matches Some(end) && match end {
            None => r == Ok::<NodeOutcome, ChildErrorDto>(NodeOutcome::Removed),
            Some(stage) => r matches Err(e) && e.stage == stage && e.path@ == node.diagnostic_path@,
        },
        final(exec).files_destroyed == if cleanup_unlinked(new_calls(*old(exec), *final(exec))) {
            (if old(exec).files_destroyed < u64::MAX { (old(exec).files_destroyed + 1) as u64 } else { old(exec).files_destroyed })
        } else {
            old(exec).files_destroyed
        },
{
    let ghost start = *exec;
    let path = node.diagnostic_path.as_str();
    let id = node.identity.id();
    let name = generated_name(id);
    proof {
        lemma_generated_name_plain(node.identity.spec_id());
    }
    let parent = node.parent;
    let parent_answer = io.identity(&parent.as_node());
    let parent_identity = match parent_answer {
        Ok(i) => {
            exec.calls = Ghost(exec.calls@.push(IoCall::ParentIdentity { node: id, answer: Some(i) }));
            i
        },
        Err(e) => {
            exec.calls = Ghost(exec.calls@.push(IoCall::ParentIdentity { node: id, answer: None }));
            assert(new_calls(start, *exec) =~= seq![IoCall::ParentIdentity { node: id, answer: None }]);
            return Err(child_error(path, ExecutionStage::Journal, e));
        },
    };
    let entry = JournalEntry::identity_bound(
        owned(node.trusted_parent_path.as_str()),
        JournalNodeIdentity::new(parent_identity.id(), parent_identity.mount_id()),
        name.clone(),
        JournalNodeIdentity::new(node.identity.id(), node.identity.mount_id()),
        journal_kind(node.kind),
    );
    assert(journal_entry_for(entry, *node, parent_identity));
    let ghost c0 = IoCall::ParentIdentity { node: id, answer: Some(parent_identity) };
    let appended = journal.append(entry.duplicate());
    let ghost c1 = IoCall::Append { entry, ok: appended is Ok };
    exec.calls = Ghost(exec.calls@.push(c1));
    if let Err(e) = appended {
        assert(new_calls(start, *exec) =~= seq![c0, c1]);
        return Err(journal_child_error(path, e));
    }
    let renamed = io.rename_noreplace(&parent, &node.handle, name.as_str());
    let ghost c2 = IoCall::Rename { node: id, name: name@, ok: renamed is Ok };
    exec.calls = Ghost(exec.calls@.push(c2));
    if let Err(e) = renamed {
        assert(new_calls(start, *exec) =~= seq![c0, c1, c2]);
        return Err(child_error(path, ExecutionStage::Rename, e));
    }
    let synced = io.sync_parent(&parent);
    let ghost c3 = IoCall::SyncParent { node: id, ok: synced is Ok };
    exec.calls = Ghost(exec.calls@.push(c3));
    if let Err(e) = synced {
        let ghost mid = *exec;
        let r = rollback_after_failure(exec, node, &parent, io, e, ExecutionStage::Sync, "rename durability sync failed");
        proof {
            let tail = new_calls(mid, *exec);
            assert(new_calls(start, *exec) =~= seq![c0, c1, c2, c3] + tail);
            assert(new_calls(start, *exec).skip(1).skip(1).skip(2) =~= tail);
            assert(new_calls(start, *exec).drop_first().drop_first() =~= seq![c2, c3] + tail);
            assert((seq![c2, c3] + tail).skip(2) =~= tail);
        }
        return Err(r);
    }
    let unlinked = io.unlink_leaf(&parent, &node.handle);
    let ghost c4 = IoCall::Unlink { node: id, ok: unlinked is Ok };
    exec.calls = Ghost(exec.calls@.push(c4));
    if let Err(e) = unlinked {
        let ghost mid = *exec;
        let r = rollback_after_failure(exec, node, &parent, io, e, ExecutionStage::Delete, "deletion failed");
        proof {
            let tail = new_calls(mid, *exec);
            assert(new_calls(start, *exec) =~= seq![c0, c1, c2, c3, c4] + tail);
            assert(new_calls(start, *exec).drop_first().drop_first() =~= seq![c2, c3, c4] + tail);
            assert((seq![c2, c3, c4] + tail).skip(2) =~= seq![c4] + tail);
            assert((seq![c4] + tail).drop_first() =~= tail);
        }
        return Err(r);
    }
    exec.files_destroyed = exec.files_destroyed.saturating_add(1);
    let synced_again = io.sync_parent(&parent);
    let ghost c5 = IoCall::SyncParent { node: id, ok: synced_again is Ok };
    exec.calls = Ghost(exec.calls@.push(c5));
    if let Err(e) = synced_again {
        proof {
            assert(new_calls(start, *exec) =~= seq![c0, c1, c2, c3, c4, c5]);
            assert(new_calls(start, *exec).drop_first().drop_first().skip(2) =~= seq![c4, c5]);
        }
        return Err(child_error(path, ExecutionStage::Sync, e));
    }
    let cleared = journal.clear(&entry);
    let ghost c6 = IoCall::Clear { entry, ok: cleared is Ok };
    exec.calls = Ghost(exec.calls@.push(c6));
    proof {
        assert(new_calls(start, *exec) =~= seq![c0, c1, c2, c3, c4, c5, c6]);
        assert(new_calls(start, *exec).drop_first().drop_first().skip(2) =~= seq![c4, c5, c6]);
    }
    if let Err(e) = cleared {
        return Err(journal_child_error(path, e));
    }
    Ok(NodeOutcome::Removed)
}

/// How the execution of a file ends, when `t` is a run of it: it is opened
/// and handed to the shredder; a failed open, a refused overwrite or an
/// overwrite that wrote nothing leaves the file (`Retained`), otherwise the
/// cleanup runs and its end is the file's.
spec fn file_run(t: Seq<IoCall>, node: PlannedNode) -> Option<Result<NodeOutcome, ExecutionStage>> {
    let id = node.identity.spec_id();
    if t.len() == 0 {
        None
    } else if t[0] == (IoCall::OpenForShred { node: id, ok: false }) {
        if t.len() == 1 { Some(Ok(NodeOutcome::Retained)) } else { None }
    } else if t[0] != (IoCall::OpenForShred { node: id, ok: true }) || t.len() < 2 {
        None
    } else {
        match t[1] {
            IoCall::Shred { node: n, state } => if n != id {
                None
            } else if state is None || state == Some(OverwriteState::NotStarted) {
                if t.len() == 2 { Some(Ok(NodeOutcome::Retained)) } else { None }
            } else {
                match cleanup_run(t.skip(2), node) {
                    None => None,
                    Some(None) => Some(Ok(NodeOutcome::Removed)),
                    Some(Some(stage)) => Some(Err(stage)),
                }
            },
            _ => None,
        }
    }
}

/// One regular file: open it, overwrite it through the shredder, record what
/// it reported, and clean it up unless no byte was written. A file that could
/// not be opened or overwritten stays, with its issue recorded at the
/// Overwrite stage and nothing else changed.
fn execute_file<I: SecureTreeIo, S: OpenFileShredder<I::File>, J: JournalIo>(
    exec: &mut RootExecution,
    node: &PlannedNode,
    io: &I,
    shredder: &S,
    journal: &JournalStore<J>,
) -> (r: Result<NodeOutcome, ChildErrorDto>)
    requires
        execution_inv(*old(exec)),
        valid_basename(node.name@),
    ensures
        execution_inv(*final(exec)),
        execution_step(*old(exec), *final(exec)),
        r matches Ok(o) ==> o != NodeOutcome::Cancelled,
        r matches Ok(NodeOutcome::Retained) ==> final(exec).errors@.len() > old(exec).errors@.len(),
        r matches Err(e) ==> e.path@ == node.diagnostic_path@,
        file_run(new_calls(*old(exec), *final(exec)), *node) matches Some(end) && match end {
            Ok(o) => r == Ok::<NodeOutcome, ChildErrorDto>(o),
            Err(stage) => r matches Err(e) && e.stage == stage,
        },
        ({
            let t = new_calls(*old(exec), *final(exec));
            t[0] == (IoCall::OpenForShred { node: node.identity.spec_id(), ok: false })
                || t[1] == (IoCall::Shred { node: node.identity.spec_id(), state: None })
        }) ==> final(exec).errors@ == old(exec).errors@.push(final(exec).errors@.last())
            && final(exec).errors@.last().stage == ExecutionStage::Overwrite
            && final(exec).errors@.last().path@ == node.diagnostic_path@
            && final(exec).files_destroyed == old(exec).files_destroyed
            && final(exec).bytes_shredded == old(exec).bytes_shredded,
{
    let ghost start = *exec;
    let path = node.diagnostic_path.as_str();
    let id = node.identity.id();
    let opened = io.open_regular_for_shred(&node.handle);
    let ghost c0 = IoCall::OpenForShred { node: id, ok: opened is Ok };
    exec.calls = Ghost(exec.calls@.push(c0));
    let file = match opened {
        Ok(f) => f,
        Err(e) => {
            exec.errors.push(child_error(path, ExecutionStage::Overwrite, e));
            assert(new_calls(start, *exec) =~= seq![c0]);
            return Ok(NodeOutcome::Retained);
        },
    };
    let request = FileShredRequest::new(owned(path));
    let shredded = shredder.shred_open_file(file, node.identity, &request);
    let ghost c1 = IoCall::Shred { node: id, state: if shredded is Ok { Some(shredded->Ok_0.overwrite_state) } else { None } };
    exec.calls = Ghost(exec.calls@.push(c1));
    let result = match shredded {
        Ok(r) => r,
        Err(e) => {
            exec.errors.push(child_error(path, ExecutionStage::Overwrite, e));
            assert(new_calls(start, *exec) =~= seq![c0, c1]);
            return Ok(NodeOutcome::Retained);
        },
    };
    let FileShredResult { overwrite_state, write_check_status, bytes_shredded, issues } = result;
    exec.bytes_shredded = exec.bytes_shredded.saturating_add(bytes_shredded);
    exec.write_check = merge_write_check(exec.write_check, write_check_status);
    let clean = overwrite_state == OverwriteState::Completed && write_check_status != WriteCheckOutcome::Failed
        && issues.len() == 0;
    if !clean {
        record_file_issues(exec, path, overwrite_state, write_check_status, issues);
    }
    assert(new_calls(start, *exec) =~= seq![c0, c1]);
    match overwrite_state {
        OverwriteState::NotStarted => {
            return Ok(NodeOutcome::Retained);
        },
        OverwriteState::Partial => {
            exec.partial_destruction = true;
        },
        OverwriteState::Completed => {},
    }
    let ghost mid = *exec;
    let r = cleanup_file(exec, node, io, journal);
    proof {
        let tail = new_calls(mid, *exec);
        assert(new_calls(start, *exec) =~= seq![c0, c1] + tail);
        assert(new_calls(start, *exec).skip(2) =~= tail);
    }
    r
}

/// A link found inside a directory root: the link itself is removed, its
/// target is never touched.
fn execute_link<I: SecureTreeIo>(exec: &mut RootExecution, node: &PlannedNode, io: &I) -> (r: Result<NodeOutcome, ChildErrorDto>)
    ensures
        final(exec).errors == old(exec).errors,
        final(exec).write_check == old(exec).write_check,
        final(exec).partial_destruction == old(exec).partial_destruction,
        r matches Ok(o) ==> o == NodeOutcome::Removed,
        calls_extend(old(exec).calls@, final(exec).calls@),
{
    let path = node.diagnostic_path.as_str();
    let id = node.identity.id();
    let unlinked = io.unlink_leaf(&node.parent, &node.handle);
    exec.calls = Ghost(exec.calls@.push(IoCall::Unlink { node: id, ok: unlinked is Ok }));
    if let Err(e) = unlinked {
        return Err(child_error(path, ExecutionStage::Delete, e));
    }
    let synced = io.sync_parent(&node.parent);
    exec.calls = Ghost(exec.calls@.push(IoCall::SyncParent { node: id, ok: synced is Ok }));
    if let Err(e) = synced {
        return Err(child_error(path, ExecutionStage::Sync, e));
    }
    exec.files_destroyed = exec.files_destroyed.saturating_add(1);
    Ok(NodeOutcome::Removed)
}

/// Destroys a planned node and everything below it, stopping at the next node
/// boundary once a stop is requested. A directory is removed only when every
/// child was removed and no stop was requested.
fn execute_node<I: SecureTreeIo, S: OpenFileShredder<I::File>, J: JournalIo>(
    exec: &mut RootExecution,
    node: &PlannedNode,
    depth: usize,
    mount: Ghost<u64>,
    io: &I,
    shredder: &S,
    journal: &JournalStore<J>,
    cancel: &CancellationToken,
) -> (r: Result<NodeOutcome, ChildErrorDto>)
    requires
        depth <= MAX_DEPTH,
        node_wf(*node, depth as nat, mount@),
        execution_inv(*old(exec)),
    ensures
        execution_inv(*final(exec)),
        execution_step(*old(exec), *final(exec)),
        r matches Ok(NodeOutcome::Retained) ==> final(exec).errors@.len() > 0,
    decreases MAX_DEPTH - depth,
{
    if cancel.is_cancelled() {
        return Ok(NodeOutcome::Cancelled);
    }
    match node.kind {
        NodeKind::RegularFile => execute_file(exec, node, io, shredder, journal),
        NodeKind::Link => execute_link(exec, node, io),
        NodeKind::Special => Err(child_error(
            node.diagnostic_path.as_str(),
            ExecutionStage::Preflight,
            validation_failed("special files are not safe execution targets"),
        )),
        NodeKind::Directory => {
            let mut any_retained = false;
            let mut i: usize = 0;
            let ghost start = *exec;
            while i < node.children.len()
                invariant
                    depth < MAX_DEPTH,
                    node_wf(*node, depth as nat, mount@),
                    node.kind == NodeKind::Directory,
                    i <= node.children@.len(),
                    execution_inv(*exec),
                    execution_step(start, *exec),
                    start == *old(exec),
                    any_retained ==> exec.errors@.len() > 0,
                decreases node.children.len() - i,
            {
                let child = &node.children[i];
                let outcome = execute_node(exec, child, depth + 1, mount, io, shredder, journal, cancel);
                match outcome {
                    Err(e) => {
                        return Err(e);
                    },
                    Ok(NodeOutcome::Cancelled) => {
                        return Ok(NodeOutcome::Cancelled);
                    },
                    Ok(NodeOutcome::Retained) => {
                        any_retained = true;
                    },
                    Ok(NodeOutcome::Removed) => {},
                }
                i = i + 1;
            }
            if any_retained {
                return Ok(NodeOutcome::Retained);
            }
            if cancel.is_cancelled() {
                return Ok(NodeOutcome::Cancelled);
            }
            let path = node.diagnostic_path.as_str();
            let id = node.identity.id();
            let removed = io.remove_empty_dir(&node.parent, &node.handle);
            exec.calls = Ghost(exec.calls@.push(IoCall::RemoveDir { node: id, ok: removed is Ok }));
            if let Err(e) = removed {
                return Err(child_error(path, ExecutionStage::DirectoryRemove, e));
            }
            let synced = io.sync_parent(&node.parent);
            exec.calls = Ghost(exec.calls@.push(IoCall::SyncParent { node: id, ok: synced is Ok }));
            if let Err(e) = synced {
                return Err(child_error(path, ExecutionStage::Sync, e));
            }
            exec.directories_removed = exec.directories_removed.saturating_add(1);
            Ok(NodeOutcome::Removed)
        },
    }
}

/// A result left alone: nothing done, nothing reported.
pub open spec fn left_alone(r: RootResultDto) -> bool {
    untouched(r) && r.errors@.len() == 0 && r.write_check == WriteCheckOutcome::NotRun
}

/// A root refused by preflight, with its one preflight error and nothing done.
pub open spec fn rejected_in_preflight(r: RootResultDto) -> bool {
    &&& r.status == RootStatus::Failed
    &&& untouched(r)
    &&& r.write_check == WriteCheckOutcome::NotRun
    &&& r.errors@.len() == 1
    &&& r.errors@[0].stage == ExecutionStage::Preflight
    &&& r.errors@[0].path@ == r.requested_path@
}

/// What every status promises of a result.
pub open spec fn status_consistent(r: RootResultDto) -> bool {
    &&& r.status == RootStatus::Skipped ==> left_alone(r)
    &&& r.status == RootStatus::Cancelled ==> !r.root_removed && r.errors@.len() == 0
    &&& r.status == RootStatus::Destroyed ==> r.root_removed && r.errors@.len() == 0
        && r.write_check != WriteCheckOutcome::Failed
    &&& r.status == RootStatus::Failed ==> r.errors@.len() > 0
    &&& r.write_check == WriteCheckOutcome::Failed ==> r.errors@.len() > 0
}

/// A batch refused as a whole in preflight: some root failed there, every
/// other one was skipped, and nothing was done to any.
pub open spec fn preflight_refused(rs: Seq<RootResultDto>) -> bool {
    &&& exists|k: int| 0 <= k < rs.len() && rejected_in_preflight(#[trigger] rs[k])
    &&& forall|k: int| 0 <= k < rs.len() ==> rejected_in_preflight(#[trigger] rs[k])
        || (rs[k].status == RootStatus::Skipped && left_alone(rs[k]))
}

/// A batch that executed: once a root is skipped every later root is
/// skipped, the first skipped root comes right after a failed one, and once
/// a stop request ends a root every later root is cancelled without being
/// touched.
#[verifier::opaque]
pub open spec fn executed_in_order(rs: Seq<RootResultDto>) -> bool {
    &&& forall|i: int, j: int| 0 <= i < j < rs.len() && (#[trigger] rs[i]).status == RootStatus::Skipped
        ==> (#[trigger] rs[j]).status == RootStatus::Skipped
    &&& forall|i: int, j: int| 0 <= i < j < rs.len() && (#[trigger] rs[i]).status == RootStatus::Cancelled
        ==> (#[trigger] rs[j]).status == RootStatus::Cancelled && left_alone(rs[j])
    &&& forall|i: int, j: int| 0 <= i && j == i + 1 && j < rs.len() && (#[trigger] rs[j]).status == RootStatus::Skipped
        && (#[trigger] rs[i]).status != RootStatus::Skipped ==> rs[i].status == RootStatus::Failed
    &&& rs.len() > 0 ==> rs[0].status != RootStatus::Skipped
}

/// A root refused in preflight by a validation rule with the given message.
pub open spec fn rejected_for(r: RootResultDto, message: Seq<char>) -> bool {
    &&& rejected_in_preflight(r)
    &&& r.errors@[0].error_type@ == "validation_failed"@
    &&& r.errors@[0].message@ == "Validation failed: "@ + message
}

/// Some requested path breaks a textual rule or overlaps an earlier one.
pub open spec fn batch_breaks_path_rules(roots: Seq<ExecuteRootRequest>) -> bool {
    exists|k: int| 0 <= k < roots.len() && (!root_text_acceptable((#[trigger] roots[k]).path@)
        || exists|j: int| 0 <= j < k && overlapping(roots[k].path@, (#[trigger] roots[j]).path@))
}

/// Preflight of every root of a batch, in order, before anything is changed.
/// Returns one outcome per root and whether any root was refused.
fn preflight_all<I: SecureTreeIo, C: MediaClassifier>(
    roots: &Vec<ExecuteRootRequest>,
    policy: DeletionPolicy,
    io: &I,
    classifier: &C,
    answers_seen: &mut Ghost<(Option<Seq<char>>, Seq<bool>)>,
    classified: &mut Ghost<Seq<Option<MediaType>>>,
    link_counts: &mut Ghost<Seq<u64>>,
) -> (r: (Vec<PreflightOutcome>, bool))
    requires
        old(classified)@.len() == 0,
        old(link_counts)@.len() == 0,
    ensures
        (exists|i: int| 0 <= i < final(link_counts)@.len() && #[trigger] final(link_counts)@[i] > 1) ==> r.1,
        policy.method == DeletionMethod::Automatic ==> final(classified)@.len() == 0,
        (exists|i: int| 0 <= i < final(classified)@.len() && #[trigger] final(classified)@[i] != Some(MediaType::Hdd)) ==> r.1,
        final(answers_seen)@.1.len() == roots@.len(),
        forall|k: int| 0 <= k < roots@.len() ==> !root_path_acceptable((#[trigger] roots@[k]).path@,
            final(answers_seen)@.1[k], final(answers_seen)@.0) ==> r.0@[k] is Failed,
        forall|k: int| 0 <= k < roots@.len() ==> (text_refusal((#[trigger] roots@[k]).path@) is None
            && final(answers_seen)@.1[k] ==> (r.0@[k] matches PreflightOutcome::Failed(_, e) && e.error_type@ == "network_drive"@)),
        forall|k: int| 0 <= k < roots@.len() ==> (text_refusal((#[trigger] roots@[k]).path@) is None
            && !final(answers_seen)@.1[k] ==> (place_refusal(roots@[k].path@, final(answers_seen)@.0) matches Some(m)
            ==> refused_for(r.0@[k], roots@[k], m))),
        r.0@.len() == roots@.len(),
        forall|k: int| 0 <= k < roots@.len() ==> outcome_request(#[trigger] r.0@[k]) == roots@[k]
            && outcome_sound(r.0@[k]),
        r.1 <==> exists|k: int| 0 <= k < r.0@.len() && (#[trigger] r.0@[k]) is Failed,
        batch_breaks_path_rules(roots@) ==> r.1,
        forall|k: int| 0 <= k < roots@.len() ==> (text_refusal((#[trigger] roots@[k]).path@) matches Some(m)
            ==> refused_for(r.0@[k], roots@[k], m)),
{
    let home = io.home_directory();
    let ghost home_seen: Option<Seq<char>> = opt_view(home);
    let ghost mut nets: Seq<bool> = Seq::empty();
    let mut identities: Vec<NodeIdentity> = Vec::new();
    let mut requested: Vec<String> = Vec::new();
    let mut media_cache: Vec<(u64, MediaType)> = Vec::new();
    let mut outcomes: Vec<PreflightOutcome> = Vec::new();
    let mut any_failed = false;
    let mut i: usize = 0;
    while i < roots.len()
        invariant
            i <= roots@.len(),
            outcomes@.len() == i,
            requested@.len() == i,
            forall|k: int| 0 <= k < i ==> (#[trigger] requested@[k])@ == roots@[k].path@,
            forall|k: int| 0 <= k < i ==> outcome_request(#[trigger] outcomes@[k]) == roots@[k]
                && outcome_sound(outcomes@[k]),
            any_failed <==> exists|k: int| 0 <= k < i && (#[trigger] outcomes@[k]) is Failed,
            forall|k: int| 0 <= k < i && (!root_text_acceptable((#[trigger] roots@[k]).path@)
                || exists|j: int| 0 <= j < k && overlapping(roots@[k].path@, (#[trigger] roots@[j]).path@))
                ==> outcomes@[k] is Failed,
            forall|k: int| 0 <= k < i ==> (text_refusal((#[trigger] roots@[k]).path@) matches Some(m)
                ==> refused_for(outcomes@[k], roots@[k], m)),
            distinct_identities(identities@),
            nets.len() == i,
            home_seen == opt_view(home),
            policy.method == DeletionMethod::Automatic ==> classified@.len() == 0,
            (exists|j: int| 0 <= j < classified@.len() && #[trigger] classified@[j] != Some(MediaType::Hdd)) ==> any_failed,
            (exists|j: int| 0 <= j < link_counts@.len() && #[trigger] link_counts@[j] > 1) ==> any_failed,
            forall|k: int| 0 <= k < i ==> !root_path_acceptable((#[trigger] roots@[k]).path@, nets[k], home_seen)
                ==> outcomes@[k] is Failed,
            forall|k: int| 0 <= k < i ==> (text_refusal((#[trigger] roots@[k]).path@) is None
                && nets[k] ==> (outcomes@[k] matches PreflightOutcome::Failed(_, e) && e.error_type@ == "network_drive"@)),
            forall|k: int| 0 <= k < i ==> (text_refusal((#[trigger] roots@[k]).path@) is None
                && !nets[k] ==> (place_refusal(roots@[k].path@, home_seen) matches Some(m)
                ==> refused_for(outcomes@[k], roots@[k], m))),
        decreases roots.len() - i,
    {
        let root = copy_request(&roots[i]);
        let path = owned(root.path.as_str());
        let network = io.is_network_location(path.as_str());
        let ghost nets_before = nets;
        let ghost classified_before = classified@;
        let ghost counts_before = link_counts@;
        proof {
            nets = nets.push(network);
        }
        let outcome = match &home {
            Some(h) => preflight_root(root, policy, network, Some(h.as_str()), io, classifier, &mut identities, &requested, &mut media_cache, classified, link_counts),
            None => preflight_root(root, policy, network, None, io, classifier, &mut identities, &requested, &mut media_cache, classified, link_counts),
        };
        proof {
            if exists|j: int| 0 <= j < i && overlapping(roots@[i as int].path@, (#[trigger] roots@[j]).path@) {
                let j = choose|j: int| 0 <= j < i && overlapping(roots@[i as int].path@, (#[trigger] roots@[j]).path@);
                assert(requested@[j]@ == roots@[j].path@);
                assert(overlapping(roots@[i as int].path@, requested@[j]@));
            }
        }
        if let PreflightOutcome::Failed(_, _) = &outcome {
            any_failed = true;
        }
        let ghost prior = outcomes@;
        outcomes.push(outcome);
        requested.push(path);
        proof {
            assert(outcomes@ == prior.push(outcomes@[i as int]));
            assert forall|k: int| 0 <= k < i implies nets[k] == nets_before[k] by {}
            if exists|j: int| 0 <= j < link_counts@.len() && #[trigger] link_counts@[j] > 1 {
                let j = choose|j: int| 0 <= j < link_counts@.len() && #[trigger] link_counts@[j] > 1;
                if j < counts_before.len() {
                    assert(counts_before[j] == link_counts@[j]);
                }
            }
            if exists|j: int| 0 <= j < classified@.len() && #[trigger] classified@[j] != Some(MediaType::Hdd) {
                let j = choose|j: int| 0 <= j < classified@.len() && #[trigger] classified@[j] != Some(MediaType::Hdd);
                if j < classified_before.len() {
                    assert(classified_before[j] == classified@[j]);
                }
            }
            if exists|k: int| 0 <= k < i + 1 && (#[trigger] outcomes@[k]) is Failed {
                let k = choose|k: int| 0 <= k < i + 1 && (#[trigger] outcomes@[k]) is Failed;
                if k < i {
                    assert(prior[k] is Failed);
                }
            }
            if exists|k: int| 0 <= k < i && (#[trigger] prior[k]) is Failed {
                let k = choose|k: int| 0 <= k < i && (#[trigger] prior[k]) is Failed;
                assert(outcomes@[k] == prior[k]);
            }
        }
        i = i + 1;
    }
    *answers_seen = Ghost((home_seen, nets));
    (outcomes, any_failed)
}

/// The answer to a batch refused in preflight: the refused roots report their
/// preflight error, every other root is skipped.
fn refusal_results(outcomes: &Vec<PreflightOutcome>) -> (r: Vec<RootResultDto>)
    requires
        forall|k: int| 0 <= k < outcomes@.len() ==> outcome_sound(#[trigger] outcomes@[k]),
    ensures
        r@.len() == outcomes@.len(),
        forall|k: int| 0 <= k < r@.len() ==> answers(#[trigger] r@[k], outcome_request(outcomes@[k])),
        forall|k: int| 0 <= k < r@.len() ==> (outcomes@[k] is Failed ==> rejected_in_preflight(#[trigger] r@[k]))
            && (outcomes@[k] is Ready ==> r@[k].status == RootStatus::Skipped && left_alone(r@[k])),
        forall|k: int| 0 <= k < r@.len() ==> (outcomes@[k] matches PreflightOutcome::Failed(_, e)
            ==> (#[trigger] r@[k]).errors@ == seq![e]),
{
    let mut results: Vec<RootResultDto> = Vec::new();
    let mut i: usize = 0;
    while i < outcomes.len()
        invariant
            i <= outcomes@.len(),
            results@.len() == i,
            forall|k: int| 0 <= k < outcomes@.len() ==> outcome_sound(#[trigger] outcomes@[k]),
            forall|k: int| 0 <= k < i ==> answers(#[trigger] results@[k], outcome_request(outcomes@[k])),
            forall|k: int| 0 <= k < i ==> (outcomes@[k] is Failed ==> rejected_in_preflight(#[trigger] results@[k]))
                && (outcomes@[k] is Ready ==> results@[k].status == RootStatus::Skipped && left_alone(results@[k])),
            forall|k: int| 0 <= k < i ==> (outcomes@[k] matches PreflightOutcome::Failed(_, e)
                ==> (#[trigger] results@[k]).errors@ == seq![e]),
        decreases outcomes.len() - i,
    {
        let result = match &outcomes[i] {
            PreflightOutcome::Failed(q, e) => {
                let mut errors: Vec<ChildErrorDto> = Vec::new();
                errors.push(copy_child_error(e));
                failed_result(copy_request(q), errors)
            },
            PreflightOutcome::Ready(q, _) => skipped_result(copy_request(q)),
        };
        results.push(result);
        i = i + 1;
    }
    results
}

/// Executes one planned root and reports it; also whether a stop request
/// ended it and whether a fatal error did, which stops the batch.
fn execute_root<I: SecureTreeIo, S: OpenFileShredder<I::File>, J: JournalIo>(
    request: ExecuteRootRequest,
    node: &PlannedNode,
    io: &I,
    shredder: &S,
    journal: &JournalStore<J>,
    cancel: &CancellationToken,
    calls: &mut Ghost<Seq<IoCall>>,
) -> (r: (RootResultDto, bool, bool))
    requires
        node_wf(*node, 0, node.identity.spec_mount_id()),
    ensures
        calls_extend(old(calls)@, final(calls)@),
        answers(r.0, request),
        status_consistent(r.0),
        r.0.status != RootStatus::Skipped,
        r.0.status == RootStatus::Cancelled ==> r.1,
        r.2 ==> r.0.status == RootStatus::Failed && !r.1,
{
    let mut exec = RootExecution {
        files_destroyed: 0,
        directories_removed: 0,
        bytes_shredded: 0,
        partial_destruction: false,
        write_check: WriteCheckOutcome::NotRun,
        errors: Vec::new(),
        calls: Ghost(Seq::empty()),
    };
    let outcome = execute_node(&mut exec, node, 0, Ghost(node.identity.spec_mount_id()), io, shredder, journal, cancel);
    let (removed, cancelled, fatal) = match outcome {
        Ok(NodeOutcome::Removed) => (true, false, false),
        Ok(NodeOutcome::Retained) => (false, false, false),
        Ok(NodeOutcome::Cancelled) => (false, true, false),
        Err(e) => {
            let reported = if exec.partial_destruction || exec.bytes_shredded > 0 {
                annotate_partial_destruction(e)
            } else {
                e
            };
            exec.errors.push(reported);
            (false, false, true)
        },
    };
    let status = if fatal {
        RootStatus::Failed
    } else {
        root_status(removed, cancelled, exec.errors.len() > 0)
    };
    *calls = Ghost(calls@ + exec.calls@);
    let result = RootResultDto {
        target_id: request.target_id,
        requested_path: request.path,
        kind: request.kind,
        status,
        root_removed: removed,
        files_destroyed: exec.files_destroyed,
        directories_removed: exec.directories_removed,
        bytes_shredded: exec.bytes_shredded,
        write_check: exec.write_check,
        errors: exec.errors,
    };
    (result, cancelled, fatal)
}

/// Some result in `rs` has the status.
spec fn any_with_status(rs: Seq<RootResultDto>, status: RootStatus) -> bool {
    exists|k: int| 0 <= k < rs.len() && (#[trigger] rs[k]).status == status
}

/// Appending a result keeps the batch order when a skipped result only
/// follows a failed or skipped one, once everything after a skip is skipped,
/// and when everything after a cancellation is cancelled and left alone.
proof fn lemma_push_keeps_order(before: Seq<RootResultDto>, r: RootResultDto)
    requires
        executed_in_order(before),
        r.status == RootStatus::Skipped ==> before.len() > 0 && (before.last().status == RootStatus::Failed
            || before.last().status == RootStatus::Skipped),
        any_with_status(before, RootStatus::Skipped) ==> r.status == RootStatus::Skipped,
        any_with_status(before, RootStatus::Cancelled) ==> r.status == RootStatus::Cancelled && left_alone(r),
    ensures
        executed_in_order(before.push(r)),
{
    reveal(executed_in_order);
    let after = before.push(r);
    assert forall|i: int, j: int| 0 <= i < j < after.len() && (#[trigger] after[i]).status == RootStatus::Skipped
        implies (#[trigger] after[j]).status == RootStatus::Skipped by {
        assert(after[i] == before[i]);
        if j < before.len() {
            assert(after[j] == before[j]);
        } else {
            assert(any_with_status(before, RootStatus::Skipped));
        }
    }
    assert forall|i: int, j: int| 0 <= i < j < after.len() && (#[trigger] after[i]).status == RootStatus::Cancelled
        implies (#[trigger] after[j]).status == RootStatus::Cancelled && left_alone(after[j]) by {
        assert(after[i] == before[i]);
        if j < before.len() {
            assert(after[j] == before[j]);
        } else {
            assert(any_with_status(before, RootStatus::Cancelled));
        }
    }
    assert forall|i: int, j: int| 0 <= i && j == i + 1 && j < after.len() && (#[trigger] after[j]).status
        == RootStatus::Skipped && (#[trigger] after[i]).status != RootStatus::Skipped
        implies after[i].status == RootStatus::Failed by {
        assert(after[i] == before[i]);
        if j < before.len() {
            assert(after[j] == before[j]);
        }
    }
}

/// Executes the planned roots in order. A fatal error stops the batch and
/// every later root is skipped; once a stop is requested every later root is
/// cancelled without being started.
fn run_plans<I: SecureTreeIo, S: OpenFileShredder<I::File>, J: JournalIo>(
    outcomes: &Vec<PreflightOutcome>,
    io: &I,
    shredder: &S,
    journal: &JournalStore<J>,
    cancel: &CancellationToken,
    calls: &mut Ghost<Seq<IoCall>>,
) -> (r: Vec<RootResultDto>)
    requires
        forall|k: int| 0 <= k < outcomes@.len() ==> (#[trigger] outcomes@[k]) is Ready && outcome_sound(outcomes@[k]),
    ensures
        calls_extend(old(calls)@, final(calls)@),
        r@.len() == outcomes@.len(),
        forall|k: int| 0 <= k < r@.len() ==> answers(#[trigger] r@[k], outcome_request(outcomes@[k]))
            && status_consistent(r@[k]),
        executed_in_order(r@),
{
    let mut results: Vec<RootResultDto> = Vec::new();
    assert(executed_in_order(results@)) by {
        reveal(executed_in_order);
    }
    let mut stopped = false;
    let mut cancel_seen = false;
    let mut i: usize = 0;
    while i < outcomes.len()
        invariant
            i <= outcomes@.len(),
            results@.len() == i,
            forall|k: int| 0 <= k < outcomes@.len() ==> (#[trigger] outcomes@[k]) is Ready
                && outcome_sound(outcomes@[k]),
            forall|k: int| 0 <= k < i ==> answers(#[trigger] results@[k], outcome_request(outcomes@[k]))
                && status_consistent(results@[k]),
            executed_in_order(results@),
            any_with_status(results@, RootStatus::Skipped) ==> stopped,
            stopped ==> results@.len() > 0 && (results@.last().status == RootStatus::Failed
                || results@.last().status == RootStatus::Skipped),
            any_with_status(results@, RootStatus::Cancelled) ==> cancel_seen,
            cancel_seen ==> !stopped,
            calls_extend(old(calls)@, calls@),
        decreases outcomes.len() - i,
    {
        let ghost before = results@;
        let ghost was_stopped = stopped;
        match &outcomes[i] {
            PreflightOutcome::Failed(q, _) => {
                assert(false);
            },
            PreflightOutcome::Ready(q, node) => {
                let request = copy_request(q);
                let r = if stopped {
                    skipped_result(request)
                } else if cancel_seen || cancel.is_cancelled() {
                    cancel_seen = true;
                    cancelled_result(request)
                } else {
                    let (r, was_cancelled, fatal) = execute_root(request, node, io, shredder, journal, cancel, calls);
                    if was_cancelled {
                        cancel_seen = true;
                    }
                    if fatal {
                        stopped = true;
                    }
                    r
                };
                proof {
                    if any_with_status(before, RootStatus::Skipped) {
                        assert(was_stopped);
                    }
                    lemma_push_keeps_order(before, r);
                }
                results.push(r);
            },
        }
        assert(results@ == before.push(results@[i as int]));
        i = i + 1;
    }
    results
}

/// What a batch saw of its surroundings: the home directory, whether each
/// requested root lies on a network filesystem, and every call made to the
/// tree adapter, the shredder and the journal while executing roots.
pub struct BatchObservation {
    /// Preflight refused the batch.
    pub refused: bool,
    /// What the storage classifier answered, in order (`None` for an error).
    pub classified: Seq<Option<MediaType>>,
    /// The hard-link counts the adapter reported for regular files, in order.
    pub link_counts: Seq<u64>,
    pub home: Option<Seq<char>>,
    pub network: Seq<bool>,
    pub calls: Seq<IoCall>,
}

/// Executes a batch of deletion roots, and tells what it saw. Every root is
/// checked before anything is changed: a root that breaks a path rule (given
/// the home directory and network answers it got), overlaps an earlier root,
/// or fails any other check refuses the whole batch, which then makes no
/// execution call at all. Otherwise the roots run in order.
pub fn execute_roots_observed<I: SecureTreeIo, S: OpenFileShredder<I::File>, J: JournalIo, P: ProgressReporter, C: MediaClassifier>(
    request: ExecuteRootsRequest,
    policy: DeletionPolicy,
    io: &I,
    shredder: &S,
    journal: &JournalStore<J>,
    progress: &P,
    cancel: &CancellationToken,
    classifier: &C,
) -> (r: (BatchRootResult, Ghost<BatchObservation>))
    ensures
        r.0.roots@.len() == request.roots@.len(),
        forall|k: int| 0 <= k < r.0.roots@.len() ==> answers(#[trigger] r.0.roots@[k], request.roots@[k])
            && status_consistent(r.0.roots@[k]),
        batch_breaks_path_rules(request.roots@) ==> preflight_refused(r.0.roots@),
        forall|k: int| 0 <= k < request.roots@.len() ==> (text_refusal((#[trigger] request.roots@[k]).path@) matches Some(m)
            ==> rejected_for(r.0.roots@[k], m)),
        preflight_refused(r.0.roots@) || executed_in_order(r.0.roots@),
        r.1@.network.len() == request.roots@.len(),
        forall|k: int| 0 <= k < request.roots@.len() ==> !root_path_acceptable((#[trigger] request.roots@[k]).path@,
            r.1@.network[k], r.1@.home) ==> r.1@.refused && rejected_in_preflight(r.0.roots@[k]),
        forall|k: int| 0 <= k < request.roots@.len() ==> (text_refusal((#[trigger] request.roots@[k]).path@) is None
            && r.1@.network[k] ==> rejected_in_preflight(r.0.roots@[k])
            && r.0.roots@[k].errors@[0].error_type@ == "network_drive"@),
        forall|k: int| 0 <= k < request.roots@.len() ==> (text_refusal((#[trigger] request.roots@[k]).path@) is None
            && !r.1@.network[k] ==> (place_refusal(request.roots@[k].path@, r.1@.home) matches Some(m)
            ==> rejected_for(r.0.roots@[k], m))),
        r.1@.refused ==> preflight_refused(r.0.roots@) && r.1@.calls.len() == 0,
        policy.method == DeletionMethod::Automatic ==> r.1@.classified.len() == 0,
        (exists|i: int| 0 <= i < r.1@.classified.len() && #[trigger] r.1@.classified[i] != Some(MediaType::Hdd))
            ==> r.1@.refused,
        (exists|i: int| 0 <= i < r.1@.link_counts.len() && #[trigger] r.1@.link_counts[i] > 1) ==> r.1@.refused,
        !r.1@.refused ==> executed_in_order(r.0.roots@),
        batch_breaks_path_rules(request.roots@) ==> r.1@.refused,
{
    let mut seen: Ghost<(Option<Seq<char>>, Seq<bool>)> = Ghost((None, Seq::empty()));
    let mut classified: Ghost<Seq<Option<MediaType>>> = Ghost(Seq::empty());
    let mut link_counts: Ghost<Seq<u64>> = Ghost(Seq::empty());
    let (outcomes, any_failed) = preflight_all(&request.roots, policy, io, classifier, &mut seen, &mut classified, &mut link_counts);
    let mut calls: Ghost<Seq<IoCall>> = Ghost(Seq::empty());
    let roots = if any_failed {
        let roots = refusal_results(&outcomes);
        proof {
            let k = choose|k: int| 0 <= k < outcomes@.len() && (#[trigger] outcomes@[k]) is Failed;
            assert(rejected_in_preflight(roots@[k]));
        }
        roots
    } else {
        let roots = run_plans(&outcomes, io, shredder, journal, cancel, &mut calls);
        proof {
            assert forall|k: int| 0 <= k < request.roots@.len() implies root_path_acceptable(
                (#[trigger] request.roots@[k]).path@, seen@.1[k], seen@.0) by {
                assert(outcomes@[k] is Ready);
            }
        }
        roots
    };
    let observation = Ghost(BatchObservation { refused: any_failed, classified: classified@, link_counts: link_counts@, home: seen@.0, network: seen@.1, calls: calls@ });
    (BatchRootResult { roots }, observation)
}

/// Executes a batch of deletion roots. Every root is checked before anything
/// is changed; if any root is refused, the whole batch is refused and the
/// other roots are skipped. Otherwise the roots run in order: per-file issues
/// are reported and the walk goes on, a fatal error stops the batch, and a
/// stop request ends the walk at the next node boundary.
pub fn execute_roots<I: SecureTreeIo, S: OpenFileShredder<I::File>, J: JournalIo, P: ProgressReporter, C: MediaClassifier>(
    request: ExecuteRootsRequest,
    policy: DeletionPolicy,
    io: &I,
    shredder: &S,
    journal: &JournalStore<J>,
    progress: &P,
    cancel: &CancellationToken,
    classifier: &C,
) -> (r: BatchRootResult)
    ensures
        r.roots@.len() == request.roots@.len(),
        forall|k: int| 0 <= k < r.roots@.len() ==> answers(#[trigger] r.roots@[k], request.roots@[k])
            && status_consistent(r.roots@[k]),
        batch_breaks_path_rules(request.roots@) ==> preflight_refused(r.roots@),
        forall|k: int| 0 <= k < request.roots@.len() ==> (text_refusal((#[trigger] request.roots@[k]).path@) matches Some(m)
            ==> rejected_for(r.roots@[k], m)),
        preflight_refused(r.roots@) || executed_in_order(r.roots@),
{
    let (r, _) = execute_roots_observed(request, policy, io, shredder, journal, progress, cancel, classifier);
    r
}

} // verus!
