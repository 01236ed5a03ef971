//! The drive model and the placeholder reported when detection fails.

use vstd::prelude::*;
use crate::text::{cat, chars_of, string_of};

verus! {

/// Classification of a storage device or mount point.
#[derive(Debug, Clone, Copy, PartialEq, Eq, Structural)]
pub enum DriveType {
    /// NVMe or SATA solid-state drive.
    Ssd,
    /// Spinning hard disk.
    Hdd,
    /// Network share, UNC path or mapped drive.
    Network,
    /// USB-attached solid-state drive.
    UsbSsd,
    /// USB-attached hard disk.
    UsbHdd,
    /// Not detected.
    Unknown,
}

/// What is known of the drive holding a path.
#[derive(Debug, Clone)]
pub struct DriveInfo {
    /// Drive letter (`C:`) or mount key (`/home`).
    pub drive_letter: String,
    pub drive_type: DriveType,
    /// Human-readable label.
    pub label: String,
    /// Capacity in bytes, 0 when unavailable.
    pub total_bytes: u64,
    /// Free space in bytes, 0 when unavailable.
    pub free_bytes: u64,
}

/// `s` without its leading slashes.
pub open spec fn skip_slashes(s: Seq<char>) -> Seq<char>
    decreases s.len(),
{
    if s.len() > 0 && s[0] == '/' { skip_slashes(s.drop_first()) } else { s }
}

/// The characters of `s` before its first slash.
pub open spec fn take_segment(s: Seq<char>) -> Seq<char>
    decreases s.len(),
{
    if s.len() == 0 || s[0] == '/' { Seq::empty() } else { seq![s[0]] + take_segment(s.drop_first()) }
}

/// The mount key of an unknown drive: `/` and the first path segment, `/`
/// alone for the root, `Unknown` for a relative path.
pub open spec fn placeholder_key(path: Seq<char>) -> Seq<char> {
    if path.len() > 0 && path[0] == '/' {
        let first = take_segment(skip_slashes(path));
        if first.len() == 0 { "/"@ } else { "/"@ + first }
    } else {
        "Unknown"@
    }
}

fn first_segment(path: &Vec<char>) -> (r: Vec<char>)
    ensures
        r@ == take_segment(skip_slashes(path@)),
{
    let n = path.len();
    let mut a: usize = 0;
    assert(path@.subrange(0, n as int) =~= path@);
    while a < n && path[a] == '/'
        invariant
            n == path@.len(),
            a <= n,
            skip_slashes(path@) == skip_slashes(path@.subrange(a as int, n as int)),
        decreases n - a,
    {
        assert(path@.subrange(a as int, n as int).drop_first() =~= path@.subrange(a + 1, n as int));
        a = a + 1;
    }
    let ghost rest = path@.subrange(a as int, n as int);
    assert(skip_slashes(path@) == rest);
    let mut out: Vec<char> = Vec::new();
    let mut b: usize = a;
    while b < n && path[b] != '/'
        invariant
            n == path@.len(),
            a <= b <= n,
            rest == path@.subrange(a as int, n as int),
            out@ + take_segment(path@.subrange(b as int, n as int)) == take_segment(rest),
        decreases n - b,
    {
        let ghost tail = path@.subrange(b as int, n as int);
        assert(tail.drop_first() =~= path@.subrange(b + 1, n as int));
        assert(take_segment(tail) == seq![path@[b as int]] + take_segment(tail.drop_first()));
        out.push(path[b]);
        assert(out@ + take_segment(path@.subrange(b + 1, n as int)) =~= take_segment(rest));
        b = b + 1;
    }
    assert(take_segment(path@.subrange(b as int, n as int)) =~= Seq::<char>::empty());
    assert(out@ =~= take_segment(rest));
    out
}

/// The drive reported when nothing could be detected.
pub fn placeholder_info(path: &str) -> (r: DriveInfo)
    ensures
        r.drive_letter@ == placeholder_key(path@),
        r.drive_type == DriveType::Unknown,
        r.label@ == "Unknown"@,
        r.total_bytes == 0,
        r.free_bytes == 0,
{
    let chars = chars_of(path);
    let letter = if chars.len() > 0 && chars[0] == '/' {
        let first = first_segment(&chars);
        if first.len() == 0 {
            String::from_str("/")
        } else {
            let f = string_of(first.as_slice());
            cat("/", f.as_str())
        }
    } else {
        String::from_str("Unknown")
    };
    DriveInfo {
        drive_letter: letter,
        drive_type: DriveType::Unknown,
        label: String::from_str("Unknown"),
        total_bytes: 0,
        free_bytes: 0,
    }
}

/// Drive detection where no platform query exists: the placeholder.
pub fn detect_drive_info(path: &str) -> (r: Result<DriveInfo, String>)
    ensures
        r matches Ok(d) && d.drive_type == DriveType::Unknown && d.drive_letter@ == placeholder_key(path@),
{
    Ok(placeholder_info(path))
}

/// Total and free bytes of a volume's statistics, as `capacity_from` gives them.
pub open spec fn capacity_of(stat: Option<(u64, u64, u64)>) -> (int, int) {
    match stat {
        None => (0, 0),
        Some((frsize, blocks, bfree)) => {
            let f: int = if frsize == 0 { 1 } else { frsize as int };
            (if f * blocks > u64::MAX { u64::MAX as int } else { f * blocks },
             if f * bfree > u64::MAX { u64::MAX as int } else { f * bfree })
        },
    }
}

/// The placeholder drive of a path.
pub open spec fn is_placeholder(d: DriveInfo, path: Seq<char>) -> bool {
    d.drive_letter@ == placeholder_key(path) && d.drive_type == DriveType::Unknown && d.label@ == "Unknown"@
        && d.total_bytes == 0 && d.free_bytes == 0
}

/// Total and free bytes from a volume's fragment size, block count and free
/// block count; zero when they could not be read. A zero fragment size counts
/// as one; products saturate.
pub fn capacity_from(stat: Option<(u64, u64, u64)>) -> (r: (u64, u64))
    ensures
        stat is None ==> r == (0u64, 0u64),
        (r.0 as int, r.1 as int) == capacity_of(stat),
        stat matches Some((frsize, blocks, bfree)) ==> {
            let f: int = if frsize == 0 { 1 } else { frsize as int };
            &&& r.0 == if f * blocks > u64::MAX { u64::MAX as int } else { f * blocks }
            &&& r.1 == if f * bfree > u64::MAX { u64::MAX as int } else { f * bfree }
        },
{
    match stat {
        None => (0, 0),
        Some((frsize, blocks, bfree)) => {
            let f: u64 = if frsize == 0 { 1 } else { frsize };
            let total = match f.checked_mul(blocks) {
                Some(v) => v,
                None => u64::MAX,
            };
            let free = match f.checked_mul(bfree) {
                Some(v) => v,
                None => u64::MAX,
            };
            (total, free)
        },
    }
}

} // verus!
