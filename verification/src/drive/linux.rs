//! Linux drive classification: `df` for device, mount point and filesystem
//! type, sysfs for rotation and removability, `lsblk`/`blkid` for the label.

use vstd::prelude::*;
use crate::drive::info::{capacity_from, capacity_of, is_placeholder, placeholder_info, DriveInfo, DriveType};
use crate::scan::{split_lines, split_words, string_views, text_lines, trim, trim_seq, words};
use crate::text::{cat3, chars_of, seq_starts_with, str_eq, str_starts_with, string_of};

verus! {

/// `s` without its trailing ASCII digits.
pub open spec fn trim_end_digits(s: Seq<char>) -> Seq<char>
    decreases s.len(),
{
    if s.len() > 0 && '0' <= s.last() && s.last() <= '9' { trim_end_digits(s.drop_last()) } else { s }
}

/// `s` without its trailing `p` characters.
pub open spec fn trim_end_p(s: Seq<char>) -> Seq<char>
    decreases s.len(),
{
    if s.len() > 0 && s.last() == 'p' { trim_end_p(s.drop_last()) } else { s }
}

/// The whole block device of a partition device path: `/dev/sda1` gives
/// `sda`, `/dev/nvme0n1p1` gives `nvme0n1`.
pub open spec fn base_device_text(device: Seq<char>) -> Option<Seq<char>> {
    if !seq_starts_with(device, "/dev/"@) {
        None
    } else {
        let name = device.subrange(5, device.len() as int);
        let stripped = trim_end_digits(name);
        if name.len() == 0 {
            None
        } else if stripped.len() < name.len() && stripped.len() > 0 && stripped.last() == 'p'
            && trim_end_p(stripped).len() > 0 {
            Some(trim_end_p(stripped))
        } else if stripped.len() == 0 {
            None
        } else {
            Some(stripped)
        }
    }
}

fn trim_end_while_digit(v: &Vec<char>, end: usize) -> (r: usize)
    requires
        end <= v@.len(),
    ensures
        r <= end,
        v@.subrange(0, r as int) == trim_end_digits(v@.subrange(0, end as int)),
{
    let mut k = end;
    while k > 0 && '0' <= v[k - 1] && v[k - 1] <= '9'
        invariant
            k <= end <= v@.len(),
            trim_end_digits(v@.subrange(0, end as int)) == trim_end_digits(v@.subrange(0, k as int)),
        decreases k,
    {
        assert(v@.subrange(0, k as int).drop_last() =~= v@.subrange(0, k - 1));
        k = k - 1;
    }
    k
}

fn trim_end_while_p(v: &Vec<char>, end: usize) -> (r: usize)
    requires
        end <= v@.len(),
    ensures
        r <= end,
        v@.subrange(0, r as int) == trim_end_p(v@.subrange(0, end as int)),
{
    let mut k = end;
    while k > 0 && v[k - 1] == 'p'
        invariant
            k <= end <= v@.len(),
            trim_end_p(v@.subrange(0, end as int)) == trim_end_p(v@.subrange(0, k as int)),
        decreases k,
    {
        assert(v@.subrange(0, k as int).drop_last() =~= v@.subrange(0, k - 1));
        k = k - 1;
    }
    k
}

/// The whole block device of a partition device path.
pub fn base_device_name(device: &str) -> (r: Option<String>)
    ensures
        match r {
            Some(s) => base_device_text(device@) == Some(s@),
            None => base_device_text(device@) is None,
        },
{
    if !str_starts_with(device, "/dev/") {
        return None;
    }
    proof { reveal_strlit("/dev/"); }
    let all = chars_of(device);
    let mut name: Vec<char> = Vec::new();
    let mut i: usize = 5;
    while i < all.len()
        invariant
            5 <= all@.len(),
            5 <= i <= all@.len(),
            name@ == all@.subrange(5, i as int),
        decreases all.len() - i,
    {
        name.push(all[i]);
        i = i + 1;
    }
    assert(name@ == device@.subrange(5, device@.len() as int));
    if name.len() == 0 {
        return None;
    }
    assert(name@.subrange(0, name@.len() as int) =~= name@);
    let s = trim_end_while_digit(&name, name.len());
    if s < name.len() && s > 0 && name[s - 1] == 'p' {
        let b = trim_end_while_p(&name, s);
        assert(name@.subrange(0, s as int).last() == name@[s - 1]);
        assert(name@.subrange(0, b as int) == trim_end_p(name@.subrange(0, s as int)));
        if b > 0 {
            let v = name.as_slice();
            let mut out: Vec<char> = Vec::new();
            let mut k: usize = 0;
            while k < b
                invariant
                    b <= name@.len(),
                    k <= b,
                    out@ == name@.subrange(0, k as int),
                decreases b - k,
            {
                out.push(name[k]);
                k = k + 1;
            }
            return Some(string_of(out.as_slice()));
        }
    }
    if s == 0 {
        return None;
    }
    let mut out: Vec<char> = Vec::new();
    let mut k: usize = 0;
    while k < s
        invariant
            s <= name@.len(),
            k <= s,
            out@ == name@.subrange(0, k as int),
        decreases s - k,
    {
        out.push(name[k]);
        k = k + 1;
    }
    Some(string_of(out.as_slice()))
}

/// The value of an optionally `+`-signed decimal number of at most 255.
pub open spec fn digits_value(s: Seq<char>) -> int
    decreases s.len(),
{
    if s.len() == 0 { 0 } else { digits_value(s.drop_last()) * 10 + (s.last() as int - '0' as int) }
}

/// Only decimal digits.
pub open spec fn all_digits(s: Seq<char>) -> bool {
    forall|i: int| 0 <= i < s.len() ==> '0' <= #[trigger] s[i] && s[i] <= '9'
}

/// A trimmed sysfs value read as a byte, as the standard library parses one.
pub open spec fn parse_u8_text(text: Seq<char>) -> Option<u8> {
    let t = trim_seq(text);
    let digits = if t.len() > 0 && t[0] == '+' { t.drop_first() } else { t };
    if digits.len() > 0 && all_digits(digits) && digits_value(digits) <= 255 {
        Some(digits_value(digits) as u8)
    } else {
        None
    }
}

/// Reads a sysfs attribute's text as a byte.
pub fn parse_sysfs_u8(text: &str) -> (r: Option<u8>)
    ensures
        r == parse_u8_text(text@),
{
    let t = trim(text);
    let c = chars_of(t.as_str());
    let start: usize = if c.len() > 0 && c[0] == '+' { 1 } else { 0 };
    let ghost digits = if c@.len() > 0 && c@[0] == '+' { c@.drop_first() } else { c@ };
    assert(digits =~= c@.subrange(start as int, c@.len() as int));
    if start >= c.len() {
        return None;
    }
    let mut j: usize = start;
    while j < c.len()
        invariant
            start <= j <= c@.len(),
            digits == c@.subrange(start as int, c@.len() as int),
            c@ == trim_seq(text@),
            digits == (if c@.len() > 0 && c@[0] == '+' { c@.drop_first() } else { c@ }),
            forall|q: int| start <= q < j ==> '0' <= #[trigger] c@[q] && c@[q] <= '9',
        decreases c.len() - j,
    {
        if !('0' <= c[j] && c[j] <= '9') {
            assert(digits[j - start] == c@[j as int]);
            assert(!all_digits(digits));
            return None;
        }
        j = j + 1;
    }
    assert(all_digits(digits)) by {
        assert forall|q: int| 0 <= q < digits.len() implies '0' <= #[trigger] digits[q] && digits[q] <= '9' by {
            assert(digits[q] == c@[start + q]);
        }
    }
    let mut value: u32 = 0;
    let mut i: usize = start;
    while i < c.len()
        invariant
            start <= i <= c@.len(),
            digits == c@.subrange(start as int, c@.len() as int),
            c@ == trim_seq(text@),
            digits == (if c@.len() > 0 && c@[0] == '+' { c@.drop_first() } else { c@ }),
            all_digits(digits),
            value == digits_value(c@.subrange(start as int, i as int)),
            value <= 255,
        decreases c.len() - i,
    {
        let ch = c[i];
        assert(digits[i - start] == ch);
        let d: u32 = (ch as u32) - ('0' as u32);
        let next = value * 10 + d;
        assert(c@.subrange(start as int, i + 1).drop_last() =~= c@.subrange(start as int, i as int));
        if next > 255 {
            proof {
                lemma_digits_grow(digits, (i + 1 - start) as int);
                assert(digits.subrange(0, (i + 1 - start) as int) =~= c@.subrange(start as int, i + 1));
            }
            return None;
        }
        value = next;
        i = i + 1;
    }
    assert(c@.subrange(start as int, c@.len() as int) == digits);
    Some(value as u8)
}

proof fn lemma_digits_grow(s: Seq<char>, k: int)
    requires
        0 <= k <= s.len(),
        all_digits(s),
    ensures
        digits_value(s) >= digits_value(s.subrange(0, k)),
    decreases s.len() - k,
{
    if k < s.len() {
        lemma_digits_grow(s, k + 1);
        assert(s.subrange(0, k + 1).drop_last() =~= s.subrange(0, k));
        assert(digits_value(s.subrange(0, k + 1)) >= digits_value(s.subrange(0, k)) * 10) by {
            assert('0' <= s[k]);
        }
        assert(digits_value(s.subrange(0, k)) >= 0) by {
            lemma_digits_nonneg(s.subrange(0, k));
        }
    } else {
        assert(s.subrange(0, k) =~= s);
    }
}

proof fn lemma_digits_nonneg(s: Seq<char>)
    requires
        all_digits(s),
    ensures
        digits_value(s) >= 0,
    decreases s.len(),
{
    if s.len() > 0 {
        assert(all_digits(s.drop_last()));
        lemma_digits_nonneg(s.drop_last());
    }
}

/// The class of a Linux block device from its rotation and removability.
pub open spec fn linux_class(rotational: Option<u8>, removable: Option<u8>) -> DriveType {
    match (rotational, removable) {
        (Some(0u8), Some(1u8)) => DriveType::UsbSsd,
        (Some(1u8), Some(1u8)) => DriveType::UsbHdd,
        (Some(0u8), _) => DriveType::Ssd,
        (Some(1u8), _) => DriveType::Hdd,
        _ => DriveType::Unknown,
    }
}

/// Rotation decides between solid-state and hard disk, removability between
/// USB and internal: a device that reports no rotation is never classified
/// as a hard disk, one that reports rotation never as solid-state, and one
/// whose rotation is unknown (or not 0 or 1) stays unknown.
pub proof fn lemma_rotation_decides(rotational: Option<u8>, removable: Option<u8>)
    ensures
        rotational == Some(0u8) ==> linux_class(rotational, removable) != DriveType::Hdd
            && linux_class(rotational, removable) != DriveType::UsbHdd,
        rotational == Some(1u8) ==> linux_class(rotational, removable) != DriveType::Ssd
            && linux_class(rotational, removable) != DriveType::UsbSsd,
        rotational == Some(0u8) && removable == Some(1u8) ==> linux_class(rotational, removable) == DriveType::UsbSsd,
        rotational == Some(0u8) && removable != Some(1u8) ==> linux_class(rotational, removable) == DriveType::Ssd,
        rotational == Some(1u8) && removable == Some(1u8) ==> linux_class(rotational, removable) == DriveType::UsbHdd,
        rotational == Some(1u8) && removable != Some(1u8) ==> linux_class(rotational, removable) == DriveType::Hdd,
        rotational != Some(0u8) && rotational != Some(1u8) ==> linux_class(rotational, removable) == DriveType::Unknown,
{
}

/// Classifies a Linux block device.
pub fn linux_drive_type(rotational: Option<u8>, removable: Option<u8>) -> (r: DriveType)
    ensures
        r == linux_class(rotational, removable),
        rotational == Some(0u8) && removable == Some(1u8) ==> r == DriveType::UsbSsd,
        rotational == Some(0u8) && removable != Some(1u8) ==> r == DriveType::Ssd,
        rotational == Some(1u8) && removable == Some(1u8) ==> r == DriveType::UsbHdd,
        rotational == Some(1u8) && removable != Some(1u8) ==> r == DriveType::Hdd,
        rotational != Some(0u8) && rotational != Some(1u8) ==> r == DriveType::Unknown,
{
    proof {
        lemma_rotation_decides(rotational, removable);
    }
    match (rotational, removable) {
        (Some(0), Some(1)) => DriveType::UsbSsd,
        (Some(1), Some(1)) => DriveType::UsbHdd,
        (Some(0), _) => DriveType::Ssd,
        (Some(1), _) => DriveType::Hdd,
        _ => DriveType::Unknown,
    }
}

/// The filesystem types reported as network shares.
pub open spec fn is_network_fstype_text(fstype: Seq<char>) -> bool {
    fstype == "nfs"@ || fstype == "nfs4"@ || fstype == "cifs"@ || fstype == "smb"@ || fstype == "smb2"@
        || fstype == "fuse.sshfs"@
}

/// The network shares: NFS (versions 3 and 4), CIFS and SMB (versions 1
/// and 2) and SSHFS are network filesystems; the common local ones (ext4,
/// xfs, btrfs, tmpfs, vfat, ntfs) are not.
pub proof fn lemma_network_shares(fstype: Seq<char>)
    ensures
        (fstype == "nfs"@ || fstype == "nfs4"@ || fstype == "cifs"@ || fstype == "smb"@ || fstype == "smb2"@
            || fstype == "fuse.sshfs"@) ==> is_network_fstype_text(fstype),
        (fstype == "ext4"@ || fstype == "xfs"@ || fstype == "btrfs"@ || fstype == "tmpfs"@ || fstype == "vfat"@
            || fstype == "ntfs"@ || fstype.len() == 0) ==> !is_network_fstype_text(fstype),
{
    reveal_strlit("nfs");
    reveal_strlit("nfs4");
    reveal_strlit("cifs");
    reveal_strlit("smb");
    reveal_strlit("smb2");
    reveal_strlit("fuse.sshfs");
    reveal_strlit("ext4");
    reveal_strlit("xfs");
    reveal_strlit("btrfs");
    reveal_strlit("tmpfs");
    reveal_strlit("vfat");
    reveal_strlit("ntfs");
    if is_network_fstype_text(fstype) {
        assert(fstype.len() >= 3);
        assert(fstype[0] == 'n' || fstype[0] == 'c' || fstype[0] == 's' || fstype[0] == 'f');
        assert(fstype[0] == 'n' ==> fstype[1] == 'f');
    }
}

/// Whether a filesystem type is a network share.
pub fn is_network_fstype(fstype: &str) -> (r: bool)
    ensures
        r == is_network_fstype_text(fstype@),
        (fstype@ == "nfs"@ || fstype@ == "nfs4"@ || fstype@ == "cifs"@ || fstype@ == "smb"@ || fstype@ == "smb2"@
            || fstype@ == "fuse.sshfs"@) ==> r,
        (fstype@ == "ext4"@ || fstype@ == "xfs"@ || fstype@ == "btrfs"@ || fstype@ == "tmpfs"@ || fstype@ == "vfat"@
            || fstype@ == "ntfs"@ || fstype@.len() == 0) ==> !r,
{
    proof {
        lemma_network_shares(fstype@);
    }
    str_eq(fstype, "nfs") || str_eq(fstype, "nfs4") || str_eq(fstype, "cifs") || str_eq(fstype, "smb")
        || str_eq(fstype, "smb2") || str_eq(fstype, "fuse.sshfs")
}

/// Source device, mount point and filesystem type from `df` output: the
/// first three words of the line after the header.
pub open spec fn df_fields_text(stdout: Seq<char>) -> Option<(Seq<char>, Seq<char>, Seq<char>)> {
    let lines = text_lines(stdout);
    if lines.len() < 2 || trim_seq(lines[1]).len() == 0 {
        None
    } else {
        let w = words(trim_seq(lines[1]));
        if w.len() < 3 { None } else { Some((w[0], w[1], w[2])) }
    }
}

/// Source device, mount point and filesystem type from `df` output.
pub fn parse_df_output(stdout: &str) -> (r: Option<(String, String, String)>)
    ensures
        match r {
            Some((a, b, c)) => df_fields_text(stdout@) == Some((a@, b@, c@)),
            None => df_fields_text(stdout@) is None,
        },
{
    let lines = split_lines(stdout);
    if lines.len() < 2 {
        return None;
    }
    assert(string_views(lines@)[1] == lines@[1]@);
    let line = trim(lines[1].as_str());
    if line.unicode_len() == 0 {
        return None;
    }
    let mut fields = split_words(line.as_str());
    if fields.len() < 3 {
        return None;
    }
    let ghost w = string_views(fields@);
    assert(w[0] == fields@[0]@ && w[1] == fields@[1]@ && w[2] == fields@[2]@);
    let c = fields.remove(2);
    let b = fields.remove(1);
    let a = fields.remove(0);
    Some((a, b, c))
}

/// The label chosen from the `lsblk` and `blkid` answers: the first one that
/// is not blank after trimming, else a generic name.
pub open spec fn label_text(lsblk: Option<Seq<char>>, blkid: Option<Seq<char>>) -> Seq<char> {
    if lsblk is Some && trim_seq(lsblk.unwrap()).len() > 0 {
        trim_seq(lsblk.unwrap())
    } else if blkid is Some && trim_seq(blkid.unwrap()).len() > 0 {
        trim_seq(blkid.unwrap())
    } else {
        "Linux Drive"@
    }
}

/// Queries a Linux host for what drive detection needs. Nothing is assumed
/// of what an implementation returns.
pub trait LinuxDriveProbe {
    /// The output of `df --output=source,target,fstype <path>`, when it succeeded.
    fn df_output(&self, path: &str) -> Option<String>;
    /// The text of a sysfs attribute, when it could be read.
    fn read_sysfs(&self, path: &str) -> Option<String>;
    /// The output of `lsblk -no LABEL <device>`, when it succeeded.
    fn lsblk_label(&self, device: &str) -> Option<String>;
    /// The output of `blkid -s LABEL -o value <device>`, when it succeeded.
    fn blkid_label(&self, device: &str) -> Option<String>;
    /// Fragment size, block count and free block count of the volume, when readable.
    fn volume_stats(&self, path: &str) -> Option<(u64, u64, u64)>;
}

/// The text of an optional answer.
pub open spec fn text_of(o: Option<String>) -> Option<Seq<char>> {
    match o {
        Some(s) => Some(s@),
        None => None,
    }
}

/// The drive the probe answers describe: the `df` output for the path, the
/// sysfs rotational and removable texts of its block device, the `lsblk` and
/// `blkid` label outputs and the volume statistics. Without usable `df`
/// output, or for a source that is not a block device, the placeholder; a
/// network filesystem is a share at its mount point; otherwise the mount
/// point, the class from sysfs, the label and the capacity.
pub open spec fn linux_drive_described(
    d: DriveInfo,
    path: Seq<char>,
    df: Option<Seq<char>>,
    rotational: Option<Seq<char>>,
    removable: Option<Seq<char>>,
    lsblk: Option<Seq<char>>,
    blkid: Option<Seq<char>>,
    stats: Option<(u64, u64, u64)>,
) -> bool {
    match (if df is Some { df_fields_text(df.unwrap()) } else { None }) {
        None => is_placeholder(d, path),
        Some((source, mount, fstype)) => {
            if is_network_fstype_text(fstype) {
                d.drive_letter@ == mount && d.drive_type == DriveType::Network && d.label@ == "Network Share"@
                    && d.total_bytes == 0 && d.free_bytes == 0
            } else if base_device_text(source) is None {
                is_placeholder(d, path)
            } else {
                &&& d.drive_letter@ == mount
                &&& d.drive_type == linux_class(
                    if rotational is Some { parse_u8_text(rotational.unwrap()) } else { None },
                    if removable is Some { parse_u8_text(removable.unwrap()) } else { None },
                )
                &&& d.label@ == label_text(lsblk, blkid)
                &&& (d.total_bytes as int, d.free_bytes as int) == capacity_of(stats)
            }
        },
    }
}

/// The drive described by the probe answers.
pub fn linux_drive_info(
    path: &str,
    df: Option<String>,
    rotational: Option<String>,
    removable: Option<String>,
    lsblk: Option<String>,
    blkid: Option<String>,
    stats: Option<(u64, u64, u64)>,
) -> (r: DriveInfo)
    ensures
        linux_drive_described(r, path@, text_of(df), text_of(rotational), text_of(removable), text_of(lsblk), text_of(blkid), stats),
{
    let (source, mount_point, fstype) = match df {
        Some(out) => match parse_df_output(out.as_str()) {
            Some(fields) => fields,
            None => return placeholder_info(path),
        },
        None => return placeholder_info(path),
    };
    if is_network_fstype(fstype.as_str()) {
        return DriveInfo {
            drive_letter: mount_point,
            drive_type: DriveType::Network,
            label: String::from_str("Network Share"),
            total_bytes: 0,
            free_bytes: 0,
        };
    }
    if base_device_name(source.as_str()).is_none() {
        return placeholder_info(path);
    }
    let rot = match rotational {
        Some(t) => parse_sysfs_u8(t.as_str()),
        None => None,
    };
    let rem = match removable {
        Some(t) => parse_sysfs_u8(t.as_str()),
        None => None,
    };
    let drive_type = linux_drive_type(rot, rem);
    let label = label_from(lsblk, blkid);
    let (total_bytes, free_bytes) = capacity_from(stats);
    DriveInfo { drive_letter: mount_point, drive_type, label, total_bytes, free_bytes }
}

fn label_from(lsblk: Option<String>, blkid: Option<String>) -> (r: String)
    ensures
        r@ == label_text(text_of(lsblk), text_of(blkid)),
{
    if let Some(out) = lsblk {
        let t = trim(out.as_str());
        if t.unicode_len() > 0 {
            return t;
        }
    }
    if let Some(out) = blkid {
        let t = trim(out.as_str());
        if t.unicode_len() > 0 {
            return t;
        }
    }
    String::from_str("Linux Drive")
}

/// Detects the drive holding `path` on Linux. Always succeeds; the drive is
/// the one the probe's answers describe. `blkid` is asked only when `lsblk`
/// gives no label, and sysfs and the volume only for a block device.
pub fn detect_drive_info<P: LinuxDriveProbe>(path: &str, probe: &P) -> (r: Result<DriveInfo, String>)
    ensures
        r matches Ok(d) && (d.drive_type == DriveType::Network ==> d.label@ == "Network Share"@
            && d.total_bytes == 0 && d.free_bytes == 0),
        r matches Ok(d) && exists|df: Option<Seq<char>>, rot: Option<Seq<char>>, rem: Option<Seq<char>>,
            lsblk: Option<Seq<char>>, blkid: Option<Seq<char>>, stats: Option<(u64, u64, u64)>|
            #[trigger] linux_drive_described(d, path@, df, rot, rem, lsblk, blkid, stats),
{
    let df = probe.df_output(path);
    let fields = match &df {
        Some(out) => parse_df_output(out.as_str()),
        None => None,
    };
    let mut rotational: Option<String> = None;
    let mut removable: Option<String> = None;
    let mut lsblk: Option<String> = None;
    let mut blkid: Option<String> = None;
    let mut stats: Option<(u64, u64, u64)> = None;
    if let Some((source, _, fstype)) = &fields {
        if !is_network_fstype(fstype.as_str()) {
            if let Some(base) = base_device_name(source.as_str()) {
                rotational = probe.read_sysfs(cat3("/sys/block/", base.as_str(), "/queue/rotational").as_str());
                removable = probe.read_sysfs(cat3("/sys/block/", base.as_str(), "/removable").as_str());
                lsblk = probe.lsblk_label(source.as_str());
                let blank = match &lsblk {
                    Some(out) => trim(out.as_str()).unicode_len() == 0,
                    None => true,
                };
                if blank {
                    blkid = probe.blkid_label(source.as_str());
                }
                stats = probe.volume_stats(path);
            }
        }
    }
    let d = linux_drive_info(path, df, rotational, removable, lsblk, blkid, stats);
    Ok(d)
}

} // verus!
