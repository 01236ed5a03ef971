//! Validation of user-selected paths: shortcuts, network locations, system
//! locations and the application's own directory.

use vstd::prelude::*;
use crate::pathname::{path_starts_with, starts_with_path};
use crate::scan::{split_lines, split_words, string_views, text_lines, words};
use crate::shredder::errors::ShredError;
use crate::shredder::types::HardLinkInfo;
use crate::text::{chars_of, lower_seq, seq_starts_with, str_eq, str_starts_with, to_lower};

verus! {

/// Locations that are never deletion targets, by textual prefix.
pub open spec fn system_paths() -> Seq<Seq<char>> {
    seq![
        "C:\\Windows"@, "C:\\Program Files"@, "C:\\Program Files (x86)"@, "C:\\ProgramData"@,
        "/System"@, "/System/Library"@, "/Applications"@, "/Library"@,
        "/usr"@, "/etc"@, "/bin"@, "/sbin"@, "/boot"@, "/dev"@, "/proc"@, "/sys"@, "/lib"@, "/lib64"@, "/opt"@, "/var"@,
    ]
}

fn system_path_list() -> (r: Vec<&'static str>)
    ensures
        r@.len() == system_paths().len(),
        forall|i: int| 0 <= i < r@.len() ==> (#[trigger] r@[i])@ == system_paths()[i],
{
    vec![
        "C:\\Windows", "C:\\Program Files", "C:\\Program Files (x86)", "C:\\ProgramData",
        "/System", "/System/Library", "/Applications", "/Library",
        "/usr", "/etc", "/bin", "/sbin", "/boot", "/dev", "/proc", "/sys", "/lib", "/lib64", "/opt", "/var",
    ]
}

/// A canonical path without the Windows extended-length prefix.
pub open spec fn strip_extended(p: Seq<char>) -> Seq<char> {
    if seq_starts_with(p, "\\\\?\\"@) { p.subrange(4, p.len() as int) } else { p }
}

/// A canonical path lies in a system location: it begins with one of them,
/// compared without case on Windows.
pub open spec fn in_system_location(canonical: Seq<char>, windows: bool) -> bool {
    let p = strip_extended(canonical);
    exists|k: int| 0 <= k < system_paths().len() && (if windows {
        seq_starts_with(lower_seq(p), lower_seq(#[trigger] system_paths()[k]))
    } else {
        seq_starts_with(p, system_paths()[k])
    })
}

/// The Unix system locations are protected: a canonical path beginning with
/// `/System`, `/Applications`, `/Library`, `/usr`, `/etc`, `/bin`, `/sbin`,
/// `/boot`, `/dev`, `/proc`, `/sys`, `/lib`, `/opt` or `/var` lies in a
/// system location.
pub proof fn lemma_unix_system_locations(canonical: Seq<char>)
    ensures
        (seq_starts_with(canonical, "/System"@) || seq_starts_with(canonical, "/System/Library"@) ||
            seq_starts_with(canonical, "/Applications"@) || seq_starts_with(canonical, "/Library"@) ||
            seq_starts_with(canonical, "/usr"@) || seq_starts_with(canonical, "/etc"@) ||
            seq_starts_with(canonical, "/bin"@) || seq_starts_with(canonical, "/sbin"@) ||
            seq_starts_with(canonical, "/boot"@) || seq_starts_with(canonical, "/dev"@) ||
            seq_starts_with(canonical, "/proc"@) || seq_starts_with(canonical, "/sys"@) ||
            seq_starts_with(canonical, "/lib"@) || seq_starts_with(canonical, "/lib64"@) ||
            seq_starts_with(canonical, "/opt"@) || seq_starts_with(canonical, "/var"@))
            ==> in_system_location(canonical, false),
{
    reveal_strlit("/System");
    reveal_strlit("/System/Library");
    reveal_strlit("/Applications");
    reveal_strlit("/Library");
    reveal_strlit("/usr");
    reveal_strlit("/etc");
    reveal_strlit("/bin");
    reveal_strlit("/sbin");
    reveal_strlit("/boot");
    reveal_strlit("/dev");
    reveal_strlit("/proc");
    reveal_strlit("/sys");
    reveal_strlit("/lib");
    reveal_strlit("/lib64");
    reveal_strlit("/opt");
    reveal_strlit("/var");
    reveal_strlit("\\\\?\\");
    if seq_starts_with(canonical, "/System"@) ||
        seq_starts_with(canonical, "/System/Library"@) ||
        seq_starts_with(canonical, "/Applications"@) ||
        seq_starts_with(canonical, "/Library"@) ||
        seq_starts_with(canonical, "/usr"@) ||
        seq_starts_with(canonical, "/etc"@) ||
        seq_starts_with(canonical, "/bin"@) ||
        seq_starts_with(canonical, "/sbin"@) ||
        seq_starts_with(canonical, "/boot"@) ||
        seq_starts_with(canonical, "/dev"@) ||
        seq_starts_with(canonical, "/proc"@) ||
        seq_starts_with(canonical, "/sys"@) ||
        seq_starts_with(canonical, "/lib"@) ||
        seq_starts_with(canonical, "/lib64"@) ||
        seq_starts_with(canonical, "/opt"@) ||
        seq_starts_with(canonical, "/var"@) {
        if seq_starts_with(canonical, "/System"@) {
            assert(canonical[0] == canonical.subrange(0, 7)[0]);
        }
        if seq_starts_with(canonical, "/System/Library"@) {
            assert(canonical[0] == canonical.subrange(0, 15)[0]);
        }
        if seq_starts_with(canonical, "/Applications"@) {
            assert(canonical[0] == canonical.subrange(0, 13)[0]);
        }
        if seq_starts_with(canonical, "/Library"@) {
            assert(canonical[0] == canonical.subrange(0, 8)[0]);
        }
        if seq_starts_with(canonical, "/usr"@) {
            assert(canonical[0] == canonical.subrange(0, 4)[0]);
        }
        if seq_starts_with(canonical, "/etc"@) {
            assert(canonical[0] == canonical.subrange(0, 4)[0]);
        }
        if seq_starts_with(canonical, "/bin"@) {
            assert(canonical[0] == canonical.subrange(0, 4)[0]);
        }
        if seq_starts_with(canonical, "/sbin"@) {
            assert(canonical[0] == canonical.subrange(0, 5)[0]);
        }
        if seq_starts_with(canonical, "/boot"@) {
            assert(canonical[0] == canonical.subrange(0, 5)[0]);
        }
        if seq_starts_with(canonical, "/dev"@) {
            assert(canonical[0] == canonical.subrange(0, 4)[0]);
        }
        if seq_starts_with(canonical, "/proc"@) {
            assert(canonical[0] == canonical.subrange(0, 5)[0]);
        }
        if seq_starts_with(canonical, "/sys"@) {
            assert(canonical[0] == canonical.subrange(0, 4)[0]);
        }
        if seq_starts_with(canonical, "/lib"@) {
            assert(canonical[0] == canonical.subrange(0, 4)[0]);
        }
        if seq_starts_with(canonical, "/lib64"@) {
            assert(canonical[0] == canonical.subrange(0, 6)[0]);
        }
        if seq_starts_with(canonical, "/opt"@) {
            assert(canonical[0] == canonical.subrange(0, 4)[0]);
        }
        if seq_starts_with(canonical, "/var"@) {
            assert(canonical[0] == canonical.subrange(0, 4)[0]);
        }
        assert(canonical[0] == '/');
        assert(canonical.len() < 4 || canonical.subrange(0, 4)[0] == canonical[0]);
        assert(!seq_starts_with(canonical, "\\\\?\\"@));
        assert(strip_extended(canonical) == canonical);
        assert(system_paths()[4] == "/System"@);
        assert(system_paths()[5] == "/System/Library"@);
        assert(system_paths()[6] == "/Applications"@);
        assert(system_paths()[7] == "/Library"@);
        assert(system_paths()[8] == "/usr"@);
        assert(system_paths()[9] == "/etc"@);
        assert(system_paths()[10] == "/bin"@);
        assert(system_paths()[11] == "/sbin"@);
        assert(system_paths()[12] == "/boot"@);
        assert(system_paths()[13] == "/dev"@);
        assert(system_paths()[14] == "/proc"@);
        assert(system_paths()[15] == "/sys"@);
        assert(system_paths()[16] == "/lib"@);
        assert(system_paths()[17] == "/lib64"@);
        assert(system_paths()[18] == "/opt"@);
        assert(system_paths()[19] == "/var"@);
    }
}

/// Whether a canonical path lies in a system location.
pub fn is_system_path(canonical: &str, windows: bool) -> (r: bool)
    ensures
        r == in_system_location(canonical@, windows),
{
    let all = chars_of(canonical);
    let stripped: String = if str_starts_with(canonical, "\\\\?\\") {
        proof { reveal_strlit("\\\\?\\"); }
        crate::scan::slice_string(&all, 4, all.len())
    } else {
        String::from_str(canonical)
    };
    let ghost p = strip_extended(canonical@);
    assert(stripped@ == p);
    let subject = if windows { to_lower(stripped.as_str()) } else { stripped };
    let list = system_path_list();
    let mut i: usize = 0;
    while i < list.len()
        invariant
            i <= list@.len(),
            list@.len() == system_paths().len(),
            forall|q: int| 0 <= q < list@.len() ==> (#[trigger] list@[q])@ == system_paths()[q],
            subject@ == if windows { lower_seq(p) } else { p },
            p == strip_extended(canonical@),
            forall|k: int| 0 <= k < i ==> !(if windows {
                seq_starts_with(lower_seq(p), lower_seq(#[trigger] system_paths()[k]))
            } else {
                seq_starts_with(p, system_paths()[k])
            }),
        decreases list.len() - i,
    {
        let prefix = if windows { to_lower(list[i]) } else { String::from_str(list[i]) };
        if str_starts_with(subject.as_str(), prefix.as_str()) {
            assert(list@[i as int]@ == system_paths()[i as int]);
            assert(if windows {
                seq_starts_with(lower_seq(p), lower_seq(system_paths()[i as int]))
            } else {
                seq_starts_with(p, system_paths()[i as int])
            });
            return true;
        }
        assert(list@[i as int]@ == system_paths()[i as int]);
        i = i + 1;
    }
    false
}

/// How a selected path is treated: as itself, or as a link whose target
/// would be exposed.
#[derive(Debug, Clone)]
pub enum PathClassification {
    Normal,
    Shortcut { target: String },
}

/// What a no-follow inspection of a path found.
#[derive(Debug, Clone, Copy, PartialEq, Eq, Structural)]
pub enum PathKind {
    File,
    Directory,
    Symlink,
    Other,
}

/// Filesystem queries path validation needs. Errors come already mapped to
/// the shredder's errors. Nothing is assumed of what an implementation returns.
pub trait PathInspector {
    /// The kind of the path, without following links.
    fn inspect(&self, path: &str) -> Result<PathKind, ShredError>;
    /// The target of a symbolic link.
    fn read_link(&self, path: &str) -> Result<String, ShredError>;
    /// The target of a Windows shell shortcut, when the path is one that parses.
    fn shell_shortcut_target(&self, path: &str) -> Option<String>;
    /// Whether the path is on a network location.
    fn is_network(&self, path: &str) -> bool;
    /// The canonical form of the path.
    fn canonicalize(&self, path: &str) -> Result<String, ShredError>;
    /// The canonical directory of the running application, when known.
    fn app_dir(&self) -> Option<String>;
    /// Whether the host is Windows.
    fn is_windows(&self) -> bool;
}

/// Classifies a path as itself or as a shortcut: symbolic links (with their
/// target) and parseable shell shortcuts are shortcuts; everything else,
/// broken shell shortcuts included, is normal.
pub fn classify_path<F: PathInspector>(path: &str, fs: &F) -> (r: Result<PathClassification, ShredError>)
{
    let kind = fs.inspect(path)?;
    if kind == PathKind::Symlink {
        let target = fs.read_link(path)?;
        return Ok(PathClassification::Shortcut { target });
    }
    match fs.shell_shortcut_target(path) {
        Some(target) => Ok(PathClassification::Shortcut { target }),
        None => Ok(PathClassification::Normal),
    }
}

/// The location rules on an inspected, canonicalized path: system locations
/// and the application's own directory are protected; only regular files and
/// directories are targets.
pub fn check_canonical(canonical: String, kind: PathKind, app_dir: Option<&str>, windows: bool) -> (r: Result<(), ShredError>)
    ensures
        in_system_location(canonical@, windows) ==> (r matches Err(ShredError::SystemFile(p)) && p@ == canonical@),
        !in_system_location(canonical@, windows) && (app_dir matches Some(d) && path_starts_with(canonical@, d@))
            ==> (r matches Err(ShredError::SystemFile(p)) && p@ == canonical@),
        r is Ok <==> !in_system_location(canonical@, windows)
            && !(app_dir matches Some(d) && path_starts_with(canonical@, d@))
            && (kind == PathKind::File || kind == PathKind::Directory),
{
    if is_system_path(canonical.as_str(), windows) {
        return Err(ShredError::SystemFile(canonical));
    }
    if let Some(d) = app_dir {
        if starts_with_path(canonical.as_str(), d) {
            return Err(ShredError::SystemFile(canonical));
        }
    }
    match kind {
        PathKind::File | PathKind::Directory => Ok(()),
        _ => Err(ShredError::InvalidPathType(canonical)),
    }
}

/// What a normal path must be to pass, given what was inspected: not empty,
/// not on the network, not a link, not in a protected location, and a
/// regular file or a directory.
pub open spec fn normal_path_allowed(
    path: Seq<char>,
    network: bool,
    kind: PathKind,
    canonical: Seq<char>,
    app_dir: Option<Seq<char>>,
    windows: bool,
) -> bool {
    &&& path.len() > 0
    &&& !network
    &&& kind != PathKind::Symlink
    &&& !in_system_location(canonical, windows)
    &&& !(app_dir matches Some(d) && path_starts_with(canonical, d))
    &&& (kind == PathKind::File || kind == PathKind::Directory)
}

/// The checks on a path classified as normal: not empty, not on the
/// network (checked before canonicalization), still not a link, and not a
/// protected location.
pub fn validate_path_inner<F: PathInspector>(path: &str, fs: &F) -> (r: Result<(), ShredError>)
    ensures
        path@.len() == 0 ==> r matches Err(ShredError::EmptyPath),
        r is Ok ==> exists|kind: PathKind, canonical: Seq<char>, app_dir: Option<Seq<char>>, windows: bool|
            #[trigger] normal_path_allowed(path@, false, kind, canonical, app_dir, windows),
{
    if path.unicode_len() == 0 {
        return Err(ShredError::EmptyPath);
    }
    if fs.is_network(path) {
        return Err(ShredError::NetworkDrive(String::from_str(path)));
    }
    let kind = fs.inspect(path)?;
    if kind == PathKind::Symlink {
        return Err(ShredError::InvalidPathType(String::from_str(path)));
    }
    let canonical = fs.canonicalize(path)?;
    let ghost canonical_text = canonical@;
    let app_dir = fs.app_dir();
    let windows = fs.is_windows();
    let r = match &app_dir {
        Some(d) => check_canonical(canonical, kind, Some(d.as_str()), windows),
        None => check_canonical(canonical, kind, None, windows),
    };
    proof {
        let app_text: Option<Seq<char>> = match app_dir { Some(d) => Some(d@), None => None };
        if r is Ok {
            assert(normal_path_allowed(path@, false, kind, canonical_text, app_text, windows));
        }
    }
    r
}

/// The answer for a path classified as a shortcut to `target`: accepted
/// where shortcuts are allowed, refused with its target otherwise.
pub fn shortcut_verdict(path: &str, allow_shortcut: bool, target: String) -> (r: Result<(), ShredError>)
    ensures
        allow_shortcut ==> r is Ok,
        !allow_shortcut ==> (r matches Err(ShredError::ShortcutDetected { path: p, target: t }) && p@ == path@
            && t@ == target@),
{
    if allow_shortcut {
        Ok(())
    } else {
        Err(ShredError::ShortcutDetected { path: String::from_str(path), target })
    }
}

/// Validates a selected path: an empty path is refused, a shortcut is
/// refused unless shortcuts are allowed, and a normal path must pass the
/// location rules.
pub fn validate_path<F: PathInspector>(path: &str, allow_shortcut: bool, fs: &F) -> (r: Result<(), ShredError>)
    ensures
        path@.len() == 0 ==> r matches Err(ShredError::EmptyPath),
        r is Ok ==> allow_shortcut || exists|kind: PathKind, canonical: Seq<char>, app_dir: Option<Seq<char>>, windows: bool|
            #[trigger] normal_path_allowed(path@, false, kind, canonical, app_dir, windows),
{
    if path.unicode_len() == 0 {
        return Err(ShredError::EmptyPath);
    }
    match classify_path(path, fs)? {
        PathClassification::Normal => validate_path_inner(path, fs),
        PathClassification::Shortcut { target } => shortcut_verdict(path, allow_shortcut, target),
    }
}

/// The link count of a file; one when it could not be read.
pub fn hard_link_info(link_count: Option<u32>) -> (r: HardLinkInfo)
    ensures
        r.link_count == match link_count { Some(c) => c, None => 1u32 },
{
    match link_count {
        Some(c) => HardLinkInfo { link_count: c },
        None => HardLinkInfo { link_count: 1 },
    }
}

/// The filesystem types of network mounts.
pub open spec fn network_fstype(t: Seq<char>) -> bool {
    t == "nfs"@ || t == "nfs4"@ || t == "cifs"@ || t == "smbfs"@ || t == "sshfs"@ || t == "afs"@ || t == "ncp"@
        || t == "ncpfs"@
}

/// The mount table read line by line: the longest mount point that is a
/// textual prefix of the path wins, the first one among equals.
pub open spec fn best_mount(lines: Seq<Seq<char>>, path: Seq<char>, best: (Seq<char>, Seq<char>)) -> (Seq<char>, Seq<char>)
    decreases lines.len(),
{
    if lines.len() == 0 {
        best
    } else {
        let w = words(lines[0]);
        let next = if w.len() >= 3 && seq_starts_with(path, w[1]) && w[1].len() > best.0.len() {
            (w[1], w[2])
        } else {
            best
        };
        best_mount(lines.drop_first(), path, next)
    }
}

/// A path is on a network mount when the mount table's best match for it
/// has a network filesystem type.
pub open spec fn on_network_mount(path: Seq<char>, mounts: Seq<char>) -> bool {
    network_fstype(best_mount(text_lines(mounts), path, (Seq::empty(), Seq::empty())).1)
}

/// The network filesystems: a path whose longest matching mount is NFS
/// (versions 3 and 4), CIFS or SMB, SSHFS, AFS or NetWare is on the
/// network, and one on a local filesystem (ext4, xfs, btrfs, tmpfs, vfat,
/// ntfs) or with no matching mount is not.
pub proof fn lemma_network_filesystems(path: Seq<char>, mounts: Seq<char>)
    ensures
        ({
            let t = best_mount(text_lines(mounts), path, (Seq::empty(), Seq::empty())).1;
            &&& (t == "nfs"@ || t == "nfs4"@ || t == "cifs"@ || t == "smbfs"@ || t == "sshfs"@ || t == "afs"@
                || t == "ncp"@ || t == "ncpfs"@) ==> on_network_mount(path, mounts)
            &&& (t == "ext4"@ || t == "xfs"@ || t == "btrfs"@ || t == "tmpfs"@ || t == "vfat"@ || t == "ntfs"@
                || t.len() == 0) ==> !on_network_mount(path, mounts)
        }),
{
    reveal_strlit("nfs");
    reveal_strlit("nfs4");
    reveal_strlit("cifs");
    reveal_strlit("smbfs");
    reveal_strlit("sshfs");
    reveal_strlit("afs");
    reveal_strlit("ncp");
    reveal_strlit("ncpfs");
    reveal_strlit("ext4");
    reveal_strlit("xfs");
    reveal_strlit("btrfs");
    reveal_strlit("tmpfs");
    reveal_strlit("vfat");
    reveal_strlit("ntfs");
    let t = best_mount(text_lines(mounts), path, (Seq::empty(), Seq::empty())).1;
    if network_fstype(t) {
        assert(t.len() >= 3);
        assert(t[0] == 'n' || t[0] == 'c' || t[0] == 's' || t[0] == 'a');
        assert(t[0] == 'n' ==> t[1] == 'f' || t[1] == 'c');
        if t == "ext4"@ || t == "xfs"@ || t == "btrfs"@ || t == "tmpfs"@ || t == "vfat"@ || t == "ntfs"@ {
            assert(t[0] == 'e' || t[0] == 'x' || t[0] == 'b' || t[0] == 't' || t[0] == 'v' || (t[0] == 'n' && t[1] == 't'));
        }
    }
}

/// The mount table's best match is the longest matching mount point: it is
/// never shorter than any line whose mount point is a prefix of the path,
/// and it is either where the search started or such a line, longer than
/// where the search started.
pub proof fn lemma_best_mount_is_longest(lines: Seq<Seq<char>>, path: Seq<char>, best: (Seq<char>, Seq<char>))
    ensures
        best_mount(lines, path, best).0.len() >= best.0.len(),
        forall|i: int| #![trigger lines[i]] 0 <= i < lines.len() && words(lines[i]).len() >= 3
            && seq_starts_with(path, words(lines[i])[1])
            ==> words(lines[i])[1].len() <= best_mount(lines, path, best).0.len(),
        best_mount(lines, path, best) == best || exists|i: int| #![trigger lines[i]] 0 <= i < lines.len()
            && words(lines[i]).len() >= 3 && seq_starts_with(path, words(lines[i])[1])
            && words(lines[i])[1].len() > best.0.len()
            && best_mount(lines, path, best) == (words(lines[i])[1], words(lines[i])[2]),
    decreases lines.len(),
{
    if lines.len() > 0 {
        let w = words(lines[0]);
        let next = if w.len() >= 3 && seq_starts_with(path, w[1]) && w[1].len() > best.0.len() {
            (w[1], w[2])
        } else {
            best
        };
        let rest = lines.drop_first();
        lemma_best_mount_is_longest(rest, path, next);
        let r = best_mount(lines, path, best);
        assert(r == best_mount(rest, path, next));
        assert forall|i: int| #![trigger lines[i]] 0 <= i < lines.len() && words(lines[i]).len() >= 3
            && seq_starts_with(path, words(lines[i])[1]) implies words(lines[i])[1].len() <= r.0.len() by {
            if i > 0 {
                assert(rest[i - 1] == lines[i]);
            }
        }
        if r != best {
            if r == next {
                assert(0 < lines.len() && words(lines[0]).len() >= 3 && seq_starts_with(path, words(lines[0])[1])
                    && words(lines[0])[1].len() > best.0.len() && r == (words(lines[0])[1], words(lines[0])[2]));
            } else {
                let k = choose|k: int| #![trigger rest[k]] 0 <= k < rest.len()
                    && words(rest[k]).len() >= 3 && seq_starts_with(path, words(rest[k])[1])
                    && words(rest[k])[1].len() > next.0.len()
                    && r == (words(rest[k])[1], words(rest[k])[2]);
                assert(rest[k] == lines[k + 1]);
                assert(0 <= k + 1 < lines.len() && words(lines[k + 1]).len() >= 3
                    && seq_starts_with(path, words(lines[k + 1])[1]) && words(lines[k + 1])[1].len() > best.0.len()
                    && r == (words(lines[k + 1])[1], words(lines[k + 1])[2]));
            }
        }
    }
}

/// The longest mount decides: when one line of the mount table has a
/// non-empty mount point that is a prefix of the path and longer than that
/// of every other such line, the path is on the network exactly as that
/// line's filesystem type says: NFS, CIFS, SMB, SSHFS, AFS and NetWare
/// shares are network mounts, ext4, xfs, btrfs, tmpfs, vfat and ntfs are not.
pub proof fn lemma_longest_mount_decides(path: Seq<char>, mounts: Seq<char>, i: int)
    requires
        0 <= i < text_lines(mounts).len(),
        words(text_lines(mounts)[i]).len() >= 3,
        seq_starts_with(path, words(text_lines(mounts)[i])[1]),
        words(text_lines(mounts)[i])[1].len() > 0,
        forall|j: int| 0 <= j < text_lines(mounts).len() && j != i && words(#[trigger] text_lines(mounts)[j]).len() >= 3
            && seq_starts_with(path, words(text_lines(mounts)[j])[1])
            ==> words(text_lines(mounts)[j])[1].len() < words(text_lines(mounts)[i])[1].len(),
    ensures
        ({
            let t = words(text_lines(mounts)[i])[2];
            &&& (t == "nfs"@ || t == "nfs4"@ || t == "cifs"@ || t == "smbfs"@ || t == "sshfs"@ || t == "afs"@
                || t == "ncp"@ || t == "ncpfs"@) ==> on_network_mount(path, mounts)
            &&& (t == "ext4"@ || t == "xfs"@ || t == "btrfs"@ || t == "tmpfs"@ || t == "vfat"@ || t == "ntfs"@)
                ==> !on_network_mount(path, mounts)
        }),
{
    let lines = text_lines(mounts);
    let start = (Seq::<char>::empty(), Seq::<char>::empty());
    lemma_best_mount_is_longest(lines, path, start);
    let r = best_mount(lines, path, start);
    assert(words(lines[i])[1].len() <= r.0.len());
    assert(r != start);
    let j = choose|j: int| #![trigger lines[j]] 0 <= j < lines.len()
        && words(lines[j]).len() >= 3 && seq_starts_with(path, words(lines[j])[1])
        && words(lines[j])[1].len() > start.0.len()
        && r == (words(lines[j])[1], words(lines[j])[2]);
    if j != i {
        assert(words(lines[j])[1].len() < words(lines[i])[1].len());
        assert(false);
    }
    lemma_network_filesystems(path, mounts);
}

/// Whether the path is on a network mount according to the mount table
/// text (`/proc/mounts`); without a table nothing is.
pub fn is_network_by_mounts(path: &str, mounts: Option<&str>) -> (r: bool)
    ensures
        mounts is None ==> !r,
        mounts matches Some(m) ==> r == on_network_mount(path@, m@),
        mounts matches Some(m) ==> ({
            let t = best_mount(text_lines(m@), path@, (Seq::empty(), Seq::empty())).1;
            (t == "nfs"@ || t == "nfs4"@ || t == "cifs"@ || t == "smbfs"@ || t == "sshfs"@ || t == "afs"@
                || t == "ncp"@ || t == "ncpfs"@) ==> r
        }),
        mounts matches Some(m) && best_mount(text_lines(m@), path@, (Seq::empty(), Seq::empty())).1.len() == 0 ==> !r,
{
    let text = match mounts {
        Some(m) => m,
        None => return false,
    };
    let lines = split_lines(text);
    let mut best_point = String::new();
    let mut best_type = String::new();
    let mut i: usize = 0;
    assert(string_views(lines@).skip(0) =~= string_views(lines@));
    while i < lines.len()
        invariant
            i <= lines@.len(),
            string_views(lines@) == text_lines(text@),
            best_mount(text_lines(text@), path@, (Seq::empty(), Seq::empty()))
                == best_mount(string_views(lines@).skip(i as int), path@, (best_point@, best_type@)),
        decreases lines.len() - i,
    {
        let ghost rest = string_views(lines@).skip(i as int);
        assert(rest.drop_first() =~= string_views(lines@).skip(i + 1));
        assert(rest[0] == lines@[i as int]@);
        let parts = split_words(lines[i].as_str());
        if parts.len() >= 3 {
            assert(string_views(parts@)[1] == parts@[1]@ && string_views(parts@)[2] == parts@[2]@);
            let point = parts[1].as_str();
            if str_starts_with(path, point) && point.unicode_len() > best_point.unicode_len() {
                best_point = parts[1].clone();
                best_type = parts[2].clone();
            }
        }
        i = i + 1;
    }
    proof {
        lemma_network_filesystems(path@, text@);
    }
    let t = best_type.as_str();
    str_eq(t, "nfs") || str_eq(t, "nfs4") || str_eq(t, "cifs") || str_eq(t, "smbfs") || str_eq(t, "sshfs")
        || str_eq(t, "afs") || str_eq(t, "ncp") || str_eq(t, "ncpfs")
}

/// A Windows path is on the network: a UNC path, an extended-length UNC
/// path, or a drive the system reports as remote.
pub open spec fn windows_network_path(path: Seq<char>, remote_drive: bool) -> bool {
    seq_starts_with(path, "\\\\"@) || seq_starts_with(path, "//"@) || seq_starts_with(path, "\\\\?\\UNC\\"@) || remote_drive
}

/// UNC paths (`\\server\share`, `//server/share`) and drives the system
/// reports as remote are on the network.
pub proof fn lemma_unc_paths_are_network(path: Seq<char>, remote_drive: bool)
    ensures
        seq_starts_with(path, "\\\\"@) ==> windows_network_path(path, remote_drive),
        seq_starts_with(path, "//"@) ==> windows_network_path(path, remote_drive),
        remote_drive ==> windows_network_path(path, remote_drive),
{
}

/// Whether a Windows path is on the network.
pub fn is_windows_network_path(path: &str, remote_drive: bool) -> (r: bool)
    ensures
        r == windows_network_path(path@, remote_drive),
{
    str_starts_with(path, "\\\\") || str_starts_with(path, "//") || str_starts_with(path, "\\\\?\\UNC\\") || remote_drive
}

} // verus!
