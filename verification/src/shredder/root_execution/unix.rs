//! The rules of the Unix tree adapter: which root paths can be walked from
//! the filesystem root, and what every opened node and every mutation must
//! match before the adapter acts on it.

use vstd::prelude::*;
use crate::pathname::{components, contains_parent_component, has_parent_component, is_absolute, path_components, path_is_absolute};
use crate::shredder::errors::ShredError;
use crate::shredder::root_execution::plan::{NodeIdentity, NodeKind};
use crate::text::string_of;

verus! {

/// The device a node lives on.
#[derive(Debug, Clone, Copy, PartialEq, Eq, Structural)]
pub struct VolumeIdentity {
    device: u64,
}

impl VolumeIdentity {
    /// The volume of a device number.
    pub fn new(device: u64) -> (r: Self)
        ensures
            r.device() == device,
    {
        VolumeIdentity { device }
    }

    /// The device number.
    pub closed spec fn device(&self) -> u64 {
        self.device
    }
}

/// Whether two nodes live on the same volume; a walk that leaves the root's
/// volume has crossed a mount point.
pub fn same_volume(left: VolumeIdentity, right: VolumeIdentity) -> (r: bool)
    ensures
        r == (left.device() == right.device()),
{
    left.device == right.device
}

/// A refusal with the given message.
pub open spec fn refused<T>(r: Result<T, ShredError>, message: Seq<char>) -> bool {
    r matches Err(ShredError::ValidationFailed(m)) && m@ == message
}

/// Both identities name the same node of the same kind.
pub open spec fn unchanged_identity(a: NodeIdentity, b: NodeIdentity) -> bool {
    a.spec_id() == b.spec_id() && a.spec_mount_id() == b.spec_mount_id() && a.spec_kind() == b.spec_kind()
}

fn refuse(message: &str) -> (r: ShredError)
    ensures
        r matches ShredError::ValidationFailed(m) && m@ == message@,
{
    ShredError::ValidationFailed(String::from_str(message))
}

/// Whether both identities name the same node of the same kind.
pub fn identity_unchanged(a: &NodeIdentity, b: &NodeIdentity) -> (r: bool)
    ensures
        r == unchanged_identity(*a, *b),
{
    a.same_node(b) && a.kind() == b.kind()
}

/// Why a root path cannot be walked down from the filesystem root, if it
/// cannot: it must be absolute and hold no `..`.
pub open spec fn root_path_refusal(p: Seq<char>) -> Option<Seq<char>> {
    if !is_absolute(p) {
        Some("secure Unix root must be absolute"@)
    } else if has_parent_component(p) {
        Some("secure Unix root contains a non-normal component"@)
    } else {
        None
    }
}

/// Checks that a root path can be walked down from the filesystem root.
pub fn check_root_path(path: &str) -> (r: Result<(), ShredError>)
    ensures
        match root_path_refusal(path@) {
            Some(m) => refused(r, m),
            None => r is Ok,
        },
{
    if !path_is_absolute(path) {
        return Err(refuse("secure Unix root must be absolute"));
    }
    if contains_parent_component(path) {
        return Err(refuse("secure Unix root contains a non-normal component"));
    }
    Ok(())
}

/// The components the walk opens one by one from the filesystem root; a
/// path without any names the filesystem root itself, which is refused.
pub fn root_components(path: &str) -> (r: Result<Vec<String>, ShredError>)
    ensures
        components(path@).len() == 0 ==> refused(r, "filesystem roots are not safe execution targets"@),
        components(path@).len() > 0 ==> (r matches Ok(v) && v@.len() == components(path@).len()
            && forall|i: int| 0 <= i < v@.len() ==> #[trigger] v@[i]@ == components(path@)[i]),
{
    let parts = path_components(path);
    if parts.len() == 0 {
        return Err(refuse("filesystem roots are not safe execution targets"));
    }
    let mut out: Vec<String> = Vec::new();
    let mut i: usize = 0;
    while i < parts.len()
        invariant
            i <= parts@.len(),
            parts@.len() == components(path@).len(),
            forall|j: int| 0 <= j < parts@.len() ==> #[trigger] parts@[j]@ == components(path@)[j],
            out@.len() == i,
            forall|j: int| 0 <= j < i ==> #[trigger] out@[j]@ == components(path@)[j],
        decreases parts.len() - i,
    {
        out.push(string_of(parts[i].as_slice()));
        i = i + 1;
    }
    Ok(out)
}

/// The check after one component of a root path was opened without
/// following links: every component before the last must be a directory,
/// and none may lie on another volume than the directory it was opened from.
pub fn check_root_component(component: &NodeIdentity, is_final: bool, containing: &NodeIdentity) -> (r: Result<(), ShredError>)
    ensures
        component.spec_kind() != NodeKind::Directory && !is_final ==> refused(r, "root path component is not a directory"@),
        (component.spec_kind() == NodeKind::Directory || is_final)
            && component.spec_mount_id() != containing.spec_mount_id() ==> refused(r, "mount crossing detected while opening root"@),
        (component.spec_kind() == NodeKind::Directory || is_final)
            && component.spec_mount_id() == containing.spec_mount_id() ==> r is Ok,
{
    if component.kind() != NodeKind::Directory && !is_final {
        return Err(refuse("root path component is not a directory"));
    }
    if !same_volume(VolumeIdentity::new(component.mount_id()), VolumeIdentity::new(containing.mount_id())) {
        return Err(refuse("mount crossing detected while opening root"));
    }
    Ok(())
}

/// The check on the opened root itself: a link is never a root.
pub fn check_opened_root(root: &NodeIdentity) -> (r: Result<(), ShredError>)
    ensures
        root.spec_kind() == NodeKind::Link ==> refused(r, "symlink root is not a safe execution target"@),
        root.spec_kind() != NodeKind::Link ==> r is Ok,
{
    if root.kind() == NodeKind::Link {
        return Err(refuse("symlink root is not a safe execution target"));
    }
    Ok(())
}

/// The check on a directory before a child is opened in it: it must be a
/// directory and still be the node that was opened.
pub fn check_child_parent(recorded: &NodeIdentity, current: &NodeIdentity) -> (r: Result<(), ShredError>)
    ensures
        recorded.spec_kind() != NodeKind::Directory ==> refused(r, "child open parent is not a directory"@),
        recorded.spec_kind() == NodeKind::Directory && !unchanged_identity(*current, *recorded)
            ==> refused(r, "child open parent identity changed"@),
        recorded.spec_kind() == NodeKind::Directory && unchanged_identity(*current, *recorded) ==> r is Ok,
{
    if recorded.kind() != NodeKind::Directory {
        return Err(refuse("child open parent is not a directory"));
    }
    if !identity_unchanged(current, recorded) {
        return Err(refuse("child open parent identity changed"));
    }
    Ok(())
}

/// The check on an opened child: it must lie on its directory's volume.
pub fn check_child_volume(parent: &NodeIdentity, child: &NodeIdentity) -> (r: Result<(), ShredError>)
    ensures
        parent.spec_mount_id() != child.spec_mount_id() ==> refused(r, "mount crossing detected while opening child"@),
        parent.spec_mount_id() == child.spec_mount_id() ==> r is Ok,
{
    if !same_volume(VolumeIdentity::new(parent.mount_id()), VolumeIdentity::new(child.mount_id())) {
        return Err(refuse("mount crossing detected while opening child"));
    }
    Ok(())
}

/// The check on the directory a rename or removal acts in: it must be a
/// directory and still be the one the node was opened from.
pub fn check_mutation_parent(recorded: &NodeIdentity, expected: Option<NodeIdentity>, current: &NodeIdentity) -> (r: Result<(), ShredError>)
    ensures
        recorded.spec_kind() != NodeKind::Directory ==> refused(r, "secure mutation parent is not a directory"@),
        recorded.spec_kind() == NodeKind::Directory && !(expected matches Some(e) && unchanged_identity(e, *current))
            ==> refused(r, "mutation parent identity mismatch"@),
        recorded.spec_kind() == NodeKind::Directory && (expected matches Some(e) && unchanged_identity(e, *current)) ==> r is Ok,
{
    if recorded.kind() != NodeKind::Directory {
        return Err(refuse("secure mutation parent is not a directory"));
    }
    match expected {
        Some(e) => {
            if !identity_unchanged(&e, current) {
                return Err(refuse("mutation parent identity mismatch"));
            }
        },
        None => return Err(refuse("mutation parent identity mismatch")),
    }
    Ok(())
}

/// The check on the node a rename or removal acts on: the name must still
/// lead to the node that was opened.
pub fn check_mutation_target(found: &NodeIdentity, opened: &NodeIdentity) -> (r: Result<(), ShredError>)
    ensures
        !unchanged_identity(*found, *opened) ==> refused(r, "mutation target identity mismatch"@),
        unchanged_identity(*found, *opened) ==> r is Ok,
{
    if !identity_unchanged(found, opened) {
        return Err(refuse("mutation target identity mismatch"));
    }
    Ok(())
}

} // verus!
