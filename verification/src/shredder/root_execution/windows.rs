//! The file dialog options of the Windows pickers, and the directory
//! records a Windows directory query returns.

use vstd::prelude::*;
use crate::shredder::errors::ShredError;
use crate::pathname::{components, path_components};
use crate::scan::slice_string;
use crate::text::{chars_of, replace_char, replace_char_seq, string_of};

verus! {

/// Pick folders instead of files.
pub const FOS_PICKFOLDERS: u32 = 0x20;
/// Only file-system items.
pub const FOS_FORCEFILESYSTEM: u32 = 0x40;
/// The path must exist.
pub const FOS_PATHMUSTEXIST: u32 = 0x800;
/// The file must exist.
pub const FOS_FILEMUSTEXIST: u32 = 0x1000;
/// Several items may be picked.
pub const FOS_ALLOWMULTISELECT: u32 = 0x200;
/// Shortcuts are returned as themselves, never resolved to their targets.
pub const FOS_NODEREFERENCELINKS: u32 = 0x0010_0000;

/// The options of the folder picker: existing file-system folders, links
/// not resolved.
pub fn folder_picker_options() -> (r: u32)
    ensures
        r == FOS_PICKFOLDERS | FOS_NODEREFERENCELINKS | FOS_FORCEFILESYSTEM | FOS_PATHMUSTEXIST,
        r & FOS_PICKFOLDERS != 0,
        r & FOS_NODEREFERENCELINKS != 0,
        r & FOS_FORCEFILESYSTEM != 0,
        r & FOS_PATHMUSTEXIST != 0,
{
    let r = FOS_PICKFOLDERS | FOS_NODEREFERENCELINKS | FOS_FORCEFILESYSTEM | FOS_PATHMUSTEXIST;
    assert(r == 0x0010_0860u32) by (bit_vector)
        requires r == 0x20u32 | 0x0010_0000u32 | 0x40u32 | 0x800u32;
    assert(r & 0x20u32 != 0 && r & 0x0010_0000u32 != 0 && r & 0x40u32 != 0 && r & 0x800u32 != 0) by (bit_vector)
        requires r == 0x0010_0860u32;
    r
}

/// The options of the file picker: several existing files, links not
/// resolved, so a shortcut is returned as the shortcut file itself.
pub fn file_picker_options() -> (r: u32)
    ensures
        r == FOS_ALLOWMULTISELECT | FOS_FILEMUSTEXIST | FOS_NODEREFERENCELINKS | FOS_PATHMUSTEXIST,
        r & FOS_ALLOWMULTISELECT != 0,
        r & FOS_FILEMUSTEXIST != 0,
        r & FOS_NODEREFERENCELINKS != 0,
        r & FOS_PATHMUSTEXIST != 0,
{
    let r = FOS_ALLOWMULTISELECT | FOS_FILEMUSTEXIST | FOS_NODEREFERENCELINKS | FOS_PATHMUSTEXIST;
    assert(r == 0x0010_1A00u32) by (bit_vector)
        requires r == 0x200u32 | 0x1000u32 | 0x0010_0000u32 | 0x800u32;
    assert(r & 0x200u32 != 0 && r & 0x1000u32 != 0 && r & 0x0010_0000u32 != 0 && r & 0x800u32 != 0) by (bit_vector)
        requires r == 0x0010_1A00u32;
    r
}

/// Read the data of a file, or list a directory.
pub const FILE_READ_DATA: u32 = 0x0001;
/// Write a file's data; on a directory, add a file to it.
pub const FILE_WRITE_DATA: u32 = 0x0002;
/// Remove a child of a directory.
pub const FILE_DELETE_CHILD: u32 = 0x0040;
/// Read a node's attributes.
pub const FILE_READ_ATTRIBUTES: u32 = 0x0080;
/// Change a node's attributes.
pub const FILE_WRITE_ATTRIBUTES: u32 = 0x0100;
/// Delete the node itself.
pub const DELETE: u32 = 0x0001_0000;
/// Wait on the handle; needed for synchronous I/O.
pub const SYNCHRONIZE: u32 = 0x0010_0000;

/// Why a component of a root path is opened.
#[derive(Debug, Clone, Copy, PartialEq, Eq, Structural)]
pub enum OpenRole {
    /// An intermediate directory: traversal and reading only.
    Traverse,
    /// The directory holding the root: traversal plus the rights a
    /// no-replace rename into it needs, never the right to delete it.
    RenameParent,
    /// The root itself: the only node opened with the right to delete.
    Destructive,
}

/// The role of the component at `index` of a root path with `count`
/// components: the last is the root, the one before it its parent.
pub fn role_for(index: usize, count: usize) -> (r: OpenRole)
    requires
        index < count,
    ensures
        index + 1 == count ==> r == OpenRole::Destructive,
        index + 2 == count ==> r == OpenRole::RenameParent,
        index + 2 < count ==> r == OpenRole::Traverse,
{
    if index + 1 == count {
        OpenRole::Destructive
    } else if index + 2 == count {
        OpenRole::RenameParent
    } else {
        OpenRole::Traverse
    }
}

/// The access a component is opened with: reading, attributes and
/// synchronous waiting always; the parent adds creating and removing
/// children; the root adds writing and deletion. Only the root may be
/// deleted through its handle.
pub fn access_mask(role: OpenRole) -> (r: u32)
    ensures
        role == OpenRole::Traverse ==> r == FILE_READ_DATA | FILE_READ_ATTRIBUTES | SYNCHRONIZE,
        role == OpenRole::RenameParent ==> r == FILE_READ_DATA | FILE_READ_ATTRIBUTES | SYNCHRONIZE | FILE_WRITE_DATA
            | FILE_DELETE_CHILD,
        role == OpenRole::Destructive ==> r == FILE_READ_DATA | FILE_READ_ATTRIBUTES | SYNCHRONIZE | FILE_WRITE_DATA
            | FILE_WRITE_ATTRIBUTES | DELETE,
        (r & DELETE != 0) <==> role == OpenRole::Destructive,
        r & FILE_READ_DATA != 0 && r & SYNCHRONIZE != 0,
{
    let base = FILE_READ_DATA | FILE_READ_ATTRIBUTES | SYNCHRONIZE;
    assert(base == 0x0010_0081u32) by (bit_vector)
        requires base == 0x0001u32 | 0x0080u32 | 0x0010_0000u32;
    match role {
        OpenRole::Traverse => {
            assert(base & 0x0001_0000u32 == 0 && base & 0x0001u32 != 0 && base & 0x0010_0000u32 != 0) by (bit_vector)
                requires base == 0x0010_0081u32;
            base
        },
        OpenRole::RenameParent => {
            let r = base | FILE_WRITE_DATA | FILE_DELETE_CHILD;
            assert(r & 0x0001_0000u32 == 0 && r & 0x0001u32 != 0 && r & 0x0010_0000u32 != 0) by (bit_vector)
                requires base == 0x0010_0081u32, r == base | 0x0002u32 | 0x0040u32;
            r
        },
        OpenRole::Destructive => {
            let r = base | FILE_WRITE_DATA | FILE_WRITE_ATTRIBUTES | DELETE;
            assert(r & 0x0001_0000u32 != 0 && r & 0x0001u32 != 0 && r & 0x0010_0000u32 != 0) by (bit_vector)
                requires base == 0x0010_0081u32, r == base | 0x0002u32 | 0x0100u32 | 0x0001_0000u32;
            r
        },
    }
}

/// A Windows path separator.
pub open spec fn is_win_sep(c: char) -> bool {
    c == '\\' || c == '/'
}

/// The path begins with a drive letter and a colon.
pub open spec fn has_drive_prefix(p: Seq<char>) -> bool {
    p.len() >= 2 && p[1] == ':' && (('a' <= p[0] && p[0] <= 'z') || ('A' <= p[0] && p[0] <= 'Z'))
}

/// The named components after the drive's root separator, either separator
/// accepted; empty and `.` pieces are no components.
pub open spec fn win_root_components(p: Seq<char>) -> Seq<Seq<char>> {
    components(replace_char_seq(p.skip(3), '\\', '/'))
}

/// Splits a root path for the secure Windows adapter into its drive letter
/// and components: a path that begins with two separators (a share or a
/// device) is a network location; anything but a drive letter, a colon and
/// a separator is refused; `..` is refused; a drive root alone is refused.
pub fn check_windows_root_path(path: &str) -> (r: Result<(char, Vec<String>), ShredError>)
    ensures
        path@.len() >= 2 && is_win_sep(path@[0]) && is_win_sep(path@[1])
            ==> (r matches Err(ShredError::NetworkDrive(p)) && p@ == path@),
        !(path@.len() >= 2 && is_win_sep(path@[0]) && is_win_sep(path@[1]))
            && !(has_drive_prefix(path@) && path@.len() >= 3 && is_win_sep(path@[2]))
            ==> (r matches Err(ShredError::ValidationFailed(m)) && m@ == "secure Windows root must be an absolute fixed-drive path"@),
        !(path@.len() >= 2 && is_win_sep(path@[0]) && is_win_sep(path@[1]))
            && has_drive_prefix(path@) && path@.len() >= 3 && is_win_sep(path@[2]) ==> {
            let cs = win_root_components(path@);
            &&& cs.contains(seq!['.', '.']) ==> (r matches Err(ShredError::ValidationFailed(m))
                && m@ == "secure Windows root contains a non-normal component"@)
            &&& !cs.contains(seq!['.', '.']) && cs.len() == 0 ==> (r matches Err(ShredError::ValidationFailed(m))
                && m@ == "filesystem roots are not safe execution targets"@)
            &&& !cs.contains(seq!['.', '.']) && cs.len() > 0 ==> (r matches Ok((d, names)) && d == path@[0]
                && names@.len() == cs.len() && forall|i: int| 0 <= i < cs.len() ==> #[trigger] names@[i]@ == cs[i])
        },
{
    let c = chars_of(path);
    if c.len() >= 2 && (c[0] == '\\' || c[0] == '/') && (c[1] == '\\' || c[1] == '/') {
        return Err(ShredError::NetworkDrive(String::from_str(path)));
    }
    let drive_ok = c.len() >= 3 && c[1] == ':' && (('a' <= c[0] && c[0] <= 'z') || ('A' <= c[0] && c[0] <= 'Z'))
        && (c[2] == '\\' || c[2] == '/');
    if !drive_ok {
        return Err(ShredError::ValidationFailed(String::from_str("secure Windows root must be an absolute fixed-drive path")));
    }
    let rest = slice_string(&c, 3, c.len());
    assert(rest@ =~= path@.skip(3));
    let normalized = replace_char(rest.as_str(), '\\', '/');
    let pieces = path_components(normalized.as_str());
    let ghost cs = win_root_components(path@);
    assert(c@ == path@);
    let mut names: Vec<String> = Vec::new();
    let mut i: usize = 0;
    while i < pieces.len()
        invariant
            i <= pieces@.len(),
            pieces@.len() == cs.len(),
            forall|k: int| 0 <= k < pieces@.len() ==> #[trigger] pieces@[k]@ == cs[k],
            names@.len() == i,
            forall|k: int| 0 <= k < i ==> #[trigger] names@[k]@ == cs[k],
            forall|k: int| 0 <= k < i ==> cs[k] != seq!['.', '.'],
            cs == win_root_components(path@),
            !(path@.len() >= 2 && is_win_sep(path@[0]) && is_win_sep(path@[1])),
            has_drive_prefix(path@) && path@.len() >= 3 && is_win_sep(path@[2]),
        decreases pieces.len() - i,
    {
        let piece = &pieces[i];
        if piece.len() == 2 && piece[0] == '.' && piece[1] == '.' {
            assert(piece@ =~= seq!['.', '.']);
            assert(cs[i as int] == seq!['.', '.']);
            return Err(ShredError::ValidationFailed(String::from_str("secure Windows root contains a non-normal component")));
        }
        assert(piece@ != seq!['.', '.']) by {
            if piece@ == seq!['.', '.'] {
                assert(piece@.len() == 2 && piece@[0] == '.' && piece@[1] == '.');
            }
        }
        names.push(string_of(piece.as_slice()));
        i = i + 1;
    }
    assert(!cs.contains(seq!['.', '.']));
    if names.len() == 0 {
        return Err(ShredError::ValidationFailed(String::from_str("filesystem roots are not safe execution targets")));
    }
    Ok((c[0], names))
}

/// The drive-type rule for a root on the secure Windows adapter: a remote
/// drive is a network location; anything but a fixed local drive is refused.
pub fn check_windows_root_drive(path: &str, drive_type: u32) -> (r: Result<(), ShredError>)
    ensures
        drive_type == crate::drive::windows::DRIVE_REMOTE ==> (r matches Err(ShredError::NetworkDrive(p)) && p@ == path@),
        drive_type != crate::drive::windows::DRIVE_REMOTE && drive_type != crate::drive::windows::DRIVE_FIXED
            ==> (r matches Err(ShredError::ValidationFailed(m)) && m@ == "only fixed local Windows volumes are safe execution roots"@),
        r is Ok <==> drive_type == crate::drive::windows::DRIVE_FIXED,
{
    if drive_type == crate::drive::windows::DRIVE_REMOTE {
        return Err(ShredError::NetworkDrive(String::from_str(path)));
    }
    if drive_type != crate::drive::windows::DRIVE_FIXED {
        return Err(ShredError::ValidationFailed(String::from_str("only fixed local Windows volumes are safe execution roots")));
    }
    Ok(())
}

/// Offset of `FileNameLength` in a `FILE_ID_BOTH_DIR_INFORMATION` record.
pub const NAME_LENGTH_FIELD: usize = 60;
/// Offset of `FileName` in the record: the 8-byte alignment of `FileId`
/// puts it at 104, not at the 102 the unaligned field listing implies.
pub const FILE_NAME_FIELD: usize = 104;

/// The little-endian 32-bit value at `at`.
pub open spec fn le_u32(b: Seq<u8>, at: int) -> int {
    b[at] as int + b[at + 1] as int * 256 + b[at + 2] as int * 65536 + b[at + 3] as int * 16777216
}

/// The `n` little-endian UTF-16 code units starting at `at`.
pub open spec fn utf16_units(b: Seq<u8>, at: int, n: int) -> Seq<u16> {
    Seq::new(n as nat, |i: int| (b[at + 2 * i] as int + b[at + 2 * i + 1] as int * 256) as u16)
}

/// The `.` and `..` entries, which are not children.
pub open spec fn is_dot_entry(name: Seq<u16>) -> bool {
    name == seq![46u16] || name == seq![46u16, 46u16]
}

/// The child names of the records from `offset` on, in order, or the reason
/// the records are refused: fewer than four bytes left, a name that is of
/// odd length or runs past the records, or a next-record offset past them.
/// A zero next-record offset ends the list.
pub open spec fn dir_records(b: Seq<u8>, offset: int) -> Result<Seq<Seq<u16>>, Seq<char>>
    decreases b.len() - offset,
{
    if offset < 0 || offset >= b.len() {
        Ok(Seq::empty())
    } else if b.len() - offset < 4 {
        Err("directory enumeration returned a truncated record"@)
    } else if offset + FILE_NAME_FIELD > b.len() || le_u32(b, offset + NAME_LENGTH_FIELD) % 2 != 0
        || offset + FILE_NAME_FIELD + le_u32(b, offset + NAME_LENGTH_FIELD) > b.len() {
        Err("directory enumeration returned an invalid name record"@)
    } else {
        let name = utf16_units(b, offset + FILE_NAME_FIELD, le_u32(b, offset + NAME_LENGTH_FIELD) / 2);
        let head = if is_dot_entry(name) { Seq::empty() } else { seq![name] };
        let next = le_u32(b, offset);
        if next == 0 {
            Ok(head)
        } else if next > b.len() - offset {
            Err("directory enumeration returned an invalid record offset"@)
        } else {
            match dir_records(b, offset + next) {
                Ok(rest) => Ok(head + rest),
                Err(m) => Err(m),
            }
        }
    }
}

/// The names a list of code-unit vectors holds.
pub open spec fn unit_names(v: Seq<Vec<u16>>) -> Seq<Seq<u16>> {
    v.map_values(|x: Vec<u16>| x@)
}

fn read_le_u32(b: &[u8], at: usize) -> (r: u64)
    requires
        at + 4 <= b@.len(),
    ensures
        r as int == le_u32(b@, at as int),
{
    b[at] as u64 + (b[at + 1] as u64) * 256 + (b[at + 2] as u64) * 65536 + (b[at + 3] as u64) * 16777216
}

fn read_utf16(b: &[u8], start: usize, n: usize) -> (r: Vec<u16>)
    requires
        start + 2 * n <= b@.len(),
    ensures
        r@ == utf16_units(b@, start as int, n as int),
{
    let blen = b.len();
    let mut v: Vec<u16> = Vec::new();
    let mut i: usize = 0;
    while i < n
        invariant
            i <= n,
            blen == b@.len(),
            start + 2 * n <= b@.len(),
            v@ == utf16_units(b@, start as int, i as int),
        decreases n - i,
    {
        let lo = b[start + 2 * i] as u16;
        let hi = b[start + 2 * i + 1] as u16;
        let unit: u16 = lo + hi * 256;
        v.push(unit);
        assert(v@ =~= utf16_units(b@, start as int, i + 1));
        i = i + 1;
    }
    v
}

/// The child names in the records a directory query returned (the bytes it
/// reported as used), `.` and `..` left out; the records are refused when
/// they are truncated, a name is malformed or a next-record offset points
/// past them.
pub fn parse_dir_records(records: &[u8]) -> (r: Result<Vec<Vec<u16>>, ShredError>)
    ensures
        match dir_records(records@, 0) {
            Ok(names) => r matches Ok(v) && unit_names(v@) == names,
            Err(m) => r matches Err(ShredError::ValidationFailed(s)) && s@ == m,
        },
{
    let used = records.len();
    let mut names: Vec<Vec<u16>> = Vec::new();
    let mut offset: usize = 0;
    assert(unit_names(names@) =~= Seq::<Seq<u16>>::empty());
    while offset < used
        invariant
            offset <= used,
            used == records@.len(),
            match dir_records(records@, offset as int) {
                Ok(rest) => dir_records(records@, 0) == Ok::<Seq<Seq<u16>>, Seq<char>>(unit_names(names@) + rest),
                Err(m) => dir_records(records@, 0) == Err::<Seq<Seq<u16>>, Seq<char>>(m),
            },
        decreases used - offset,
    {
        if used - offset < 4 {
            return Err(ShredError::ValidationFailed(String::from_str("directory enumeration returned a truncated record")));
        }
        if used - offset < FILE_NAME_FIELD {
            return Err(ShredError::ValidationFailed(String::from_str("directory enumeration returned an invalid name record")));
        }
        let len = read_le_u32(records, offset + NAME_LENGTH_FIELD);
        if len % 2 != 0 || len > (used - offset - FILE_NAME_FIELD) as u64 {
            return Err(ShredError::ValidationFailed(String::from_str("directory enumeration returned an invalid name record")));
        }
        let n = (len / 2) as usize;
        let name = read_utf16(records, offset + FILE_NAME_FIELD, n);
        let ghost before = unit_names(names@);
        let dot = (name.len() == 1 && name[0] == 46) || (name.len() == 2 && name[0] == 46 && name[1] == 46);
        proof {
            if dot {
                assert(name@ =~= seq![46u16] || name@ =~= seq![46u16, 46u16]);
            } else {
                assert(!is_dot_entry(name@)) by {
                    if name@ == seq![46u16] {
                        assert(name@.len() == 1 && name@[0] == 46);
                    }
                    if name@ == seq![46u16, 46u16] {
                        assert(name@.len() == 2 && name@[0] == 46 && name@[1] == 46);
                    }
                }
            }
        }
        if !dot {
            names.push(name);
            assert(unit_names(names@) =~= before.push(name@));
        }
        let next = read_le_u32(records, offset);
        if next == 0 {
            assert(unit_names(names@) =~= unit_names(names@) + Seq::<Seq<u16>>::empty());
            return Ok(names);
        }
        if next > (used - offset) as u64 {
            return Err(ShredError::ValidationFailed(String::from_str("directory enumeration returned an invalid record offset")));
        }
        proof {
            let head: Seq<Seq<u16>> = if is_dot_entry(name@) { Seq::empty() } else { seq![name@] };
            assert(unit_names(names@) =~= before + head);
            match dir_records(records@, offset + next) {
                Ok(rest) => {
                    assert(before + (head + rest) =~= unit_names(names@) + rest);
                },
                Err(m) => {},
            }
        }
        offset = offset + next as usize;
    }
    assert(unit_names(names@) + Seq::<Seq<u16>>::empty() =~= unit_names(names@));
    Ok(names)
}

} // verus!
