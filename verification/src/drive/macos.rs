//! macOS drive classification from `df` and `diskutil info -plist`.

use vstd::prelude::*;
use crate::drive::info::{capacity_from, capacity_of, is_placeholder, placeholder_info, DriveInfo, DriveType};
use crate::scan::{
    find_first, first_index, lemma_first_index_bound, slice_string, split_lines, split_words, string_views, text_lines, trim,
    trim_seq, trim_start_seq, words,
};
use crate::text::{cat3, chars_of, seq_starts_with, str_eq, str_starts_with};

verus! {

/// The key element that introduces a value in a property list.
pub open spec fn key_tag(key: Seq<char>) -> Seq<char> {
    "<key>"@ + key + "</key>"@
}

/// The text of the first `<string>` element after the first occurrence of
/// the key.
pub open spec fn plist_string_text(plist: Seq<char>, key: Seq<char>) -> Option<Seq<char>> {
    match first_index(plist, key_tag(key)) {
        None => None,
        Some(pos) => {
            let rest = plist.subrange(pos + key_tag(key).len(), plist.len() as int);
            match first_index(rest, "<string>"@) {
                None => None,
                Some(s0) => {
                    let start = s0 + "<string>"@.len();
                    match first_index(rest.subrange(start, rest.len() as int), "</string>"@) {
                        None => None,
                        Some(e0) => Some(rest.subrange(start, start + e0)),
                    }
                },
            }
        },
    }
}

fn sub_chars(v: &Vec<char>, from: usize) -> (r: Vec<char>)
    requires
        from <= v@.len(),
    ensures
        r@ == v@.subrange(from as int, v@.len() as int),
{
    let s = slice_string(v, from, v.len());
    chars_of(s.as_str())
}

/// The text of the string value stored under a key of a property list.
pub fn plist_string(plist: &str, key: &str) -> (r: Option<String>)
    ensures
        match r {
            Some(v) => plist_string_text(plist@, key@) == Some(v@),
            None => plist_string_text(plist@, key@) is None,
        },
{
    let p = chars_of(plist);
    let tag_text = cat3("<key>", key, "</key>");
    let tag = chars_of(tag_text.as_str());
    let pos = match find_first(&p, &tag) {
        Some(i) => i,
        None => return None,
    };
    assert(first_index(p@, tag@) == Some(pos as int));
    proof { lemma_first_index_bound(p@, tag@, pos as int); }
    let plen = p.len();
    assert(pos + tag@.len() <= plen);
    let rest = sub_chars(&p, pos + tag.len());
    let open_tag = chars_of("<string>");
    let s0 = match find_first(&rest, &open_tag) {
        Some(i) => i,
        None => return None,
    };
    proof { lemma_first_index_bound(rest@, open_tag@, s0 as int); }
    let rlen = rest.len();
    let start = s0 + open_tag.len();
    let tail = sub_chars(&rest, start);
    let close_tag = chars_of("</string>");
    let e0 = match find_first(&tail, &close_tag) {
        Some(i) => i,
        None => return None,
    };
    proof { lemma_first_index_bound(tail@, close_tag@, e0 as int); }
    let tlen = tail.len();
    Some(slice_string(&rest, start, start + e0))
}

/// The boolean value stored under a key of a property list: the element
/// right after the key, past whitespace.
pub open spec fn plist_bool_text(plist: Seq<char>, key: Seq<char>) -> Option<bool> {
    match first_index(plist, key_tag(key)) {
        None => None,
        Some(pos) => {
            let after = trim_start_seq(plist.subrange(pos + key_tag(key).len(), plist.len() as int));
            if seq_starts_with(after, "<true/>"@) {
                Some(true)
            } else if seq_starts_with(after, "<false/>"@) {
                Some(false)
            } else {
                None
            }
        },
    }
}

fn trim_start_chars(v: &Vec<char>) -> (r: Vec<char>)
    ensures
        r@ == trim_start_seq(v@),
{
    let mut a: usize = 0;
    assert(v@.subrange(0, v@.len() as int) =~= v@);
    while a < v.len() && (v[a] == ' ' || v[a] == '\t' || v[a] == '\n' || v[a] == '\r' || v[a] == '\x0B' || v[a] == '\x0C')
        invariant
            a <= v@.len(),
            trim_start_seq(v@) == trim_start_seq(v@.subrange(a as int, v@.len() as int)),
        decreases v.len() - a,
    {
        assert(v@.subrange(a as int, v@.len() as int).drop_first() =~= v@.subrange(a + 1, v@.len() as int));
        a = a + 1;
    }
    sub_chars(v, a)
}

/// The boolean value stored under a key of a property list.
pub fn plist_bool(plist: &str, key: &str) -> (r: Option<bool>)
    ensures
        r == plist_bool_text(plist@, key@),
{
    let p = chars_of(plist);
    let tag_text = cat3("<key>", key, "</key>");
    let tag = chars_of(tag_text.as_str());
    let pos = match find_first(&p, &tag) {
        Some(i) => i,
        None => return None,
    };
    assert(first_index(p@, tag@) == Some(pos as int));
    proof { lemma_first_index_bound(p@, tag@, pos as int); }
    let plen = p.len();
    assert(pos + tag@.len() <= plen);
    let rest = sub_chars(&p, pos + tag.len());
    let after_chars = trim_start_chars(&rest);
    let after = crate::text::string_of(after_chars.as_slice());
    if str_starts_with(after.as_str(), "<true/>") {
        Some(true)
    } else if str_starts_with(after.as_str(), "<false/>") {
        Some(false)
    } else {
        None
    }
}

/// The class of a macOS volume from its protocol and solid-state flag; a
/// USB volume of unknown kind counts as a hard disk.
pub open spec fn mac_class(protocol: Option<Seq<char>>, solid_state: Option<bool>) -> DriveType {
    if protocol == Some("USB"@) {
        match solid_state {
            Some(true) => DriveType::UsbSsd,
            _ => DriveType::UsbHdd,
        }
    } else {
        match solid_state {
            Some(true) => DriveType::Ssd,
            Some(false) => DriveType::Hdd,
            None => DriveType::Unknown,
        }
    }
}

/// A volume that reports itself solid-state is never classified as a hard
/// disk: an internal one (any protocol but USB) is an SSD, a USB one a USB
/// SSD. One that reports rotating media is a hard disk (USB or internal),
/// a USB volume of unknown kind counts as a USB hard disk, and an internal
/// one of unknown kind stays unknown.
pub proof fn lemma_solid_state_is_never_a_hard_disk(protocol: Option<Seq<char>>, solid_state: Option<bool>)
    ensures
        solid_state == Some(true) ==> mac_class(protocol, solid_state) != DriveType::Hdd
            && mac_class(protocol, solid_state) != DriveType::UsbHdd,
        solid_state == Some(true) && protocol != Some("USB"@) ==> mac_class(protocol, solid_state) == DriveType::Ssd,
        solid_state == Some(true) && protocol == Some("USB"@) ==> mac_class(protocol, solid_state) == DriveType::UsbSsd,
        solid_state == Some(false) && protocol != Some("USB"@) ==> mac_class(protocol, solid_state) == DriveType::Hdd,
        solid_state != Some(true) && protocol == Some("USB"@) ==> mac_class(protocol, solid_state) == DriveType::UsbHdd,
        solid_state is None && protocol != Some("USB"@) ==> mac_class(protocol, solid_state) == DriveType::Unknown,
{
}

/// Classifies a macOS volume.
pub fn mac_drive_type(protocol: Option<&str>, solid_state: Option<bool>) -> (r: DriveType)
    ensures
        r == mac_class(match protocol { Some(p) => Some(p@), None => None }, solid_state),
        solid_state == Some(true) ==> r != DriveType::Hdd && r != DriveType::UsbHdd,
        solid_state == Some(true) && !(protocol matches Some(p) && p@ == "USB"@) ==> r == DriveType::Ssd,
        solid_state == Some(true) && (protocol matches Some(p) && p@ == "USB"@) ==> r == DriveType::UsbSsd,
        solid_state == Some(false) && !(protocol matches Some(p) && p@ == "USB"@) ==> r == DriveType::Hdd,
        solid_state != Some(true) && (protocol matches Some(p) && p@ == "USB"@) ==> r == DriveType::UsbHdd,
        solid_state is None && !(protocol matches Some(p) && p@ == "USB"@) ==> r == DriveType::Unknown,
{
    let usb = match protocol {
        Some(p) => str_eq(p, "USB"),
        None => false,
    };
    if usb {
        match solid_state {
            Some(true) => DriveType::UsbSsd,
            _ => DriveType::UsbHdd,
        }
    } else {
        match solid_state {
            Some(true) => DriveType::Ssd,
            Some(false) => DriveType::Hdd,
            None => DriveType::Unknown,
        }
    }
}

/// The mount point in `df -P` output: the last word of the line after the header.
pub open spec fn df_mount_text(stdout: Seq<char>) -> Option<Seq<char>> {
    let lines = text_lines(stdout);
    if lines.len() < 2 || words(lines[1]).len() == 0 {
        None
    } else {
        Some(words(lines[1]).last())
    }
}

/// The mount point in `df -P` output.
pub fn mount_point_from_df(stdout: &str) -> (r: Option<String>)
    ensures
        match r {
            Some(m) => df_mount_text(stdout@) == Some(m@),
            None => df_mount_text(stdout@) is None,
        },
{
    let lines = split_lines(stdout);
    if lines.len() < 2 {
        return None;
    }
    assert(string_views(lines@)[1] == lines@[1]@);
    let mut fields = split_words(lines[1].as_str());
    if fields.len() == 0 {
        return None;
    }
    let last = fields.len() - 1;
    assert(string_views(fields@)[last as int] == fields@[last as int]@);
    Some(fields.remove(last))
}

/// The filesystem types reported as network shares on macOS.
pub open spec fn is_mac_network_fstype(t: Seq<char>) -> bool {
    t == "nfs"@ || t == "nfs4"@ || t == "smbfs"@ || t == "cifs"@ || t == "afp"@ || t == "webdav"@
}

/// The network shares on macOS: NFS (versions 3 and 4), SMB and CIFS, AFP
/// and WebDAV are network filesystems; the local ones (apfs, hfs, msdos,
/// exfat) are not.
pub proof fn lemma_mac_network_shares(t: Seq<char>)
    ensures
        (t == "nfs"@ || t == "nfs4"@ || t == "smbfs"@ || t == "cifs"@ || t == "afp"@ || t == "webdav"@)
            ==> is_mac_network_fstype(t),
        (t == "apfs"@ || t == "hfs"@ || t == "msdos"@ || t == "exfat"@ || t.len() == 0) ==> !is_mac_network_fstype(t),
{
    reveal_strlit("nfs");
    reveal_strlit("nfs4");
    reveal_strlit("smbfs");
    reveal_strlit("cifs");
    reveal_strlit("afp");
    reveal_strlit("webdav");
    reveal_strlit("apfs");
    reveal_strlit("hfs");
    reveal_strlit("msdos");
    reveal_strlit("exfat");
    if is_mac_network_fstype(t) {
        assert(t.len() >= 3);
        assert(t[0] == 'n' || t[0] == 's' || t[0] == 'c' || t[0] == 'a' || t[0] == 'w');
        assert(t[0] == 'a' ==> t[1] == 'f');
    }
}

/// Whether `df -T` output shows a network filesystem: the second word of the
/// line after the header.
pub open spec fn df_network_text(stdout: Seq<char>) -> bool {
    let lines = text_lines(stdout);
    lines.len() >= 2 && trim_seq(lines[1]).len() > 0 && words(trim_seq(lines[1])).len() >= 2
        && is_mac_network_fstype(words(trim_seq(lines[1]))[1])
}

/// Whether `df -T` output shows a network filesystem.
pub fn network_from_df(stdout: &str) -> (r: bool)
    ensures
        r == df_network_text(stdout@),
{
    let lines = split_lines(stdout);
    if lines.len() < 2 {
        return false;
    }
    assert(string_views(lines@)[1] == lines@[1]@);
    let line = trim(lines[1].as_str());
    if line.unicode_len() == 0 {
        return false;
    }
    let fields = split_words(line.as_str());
    if fields.len() < 2 {
        return false;
    }
    assert(string_views(fields@)[1] == fields@[1]@);
    let t = fields[1].as_str();
    str_eq(t, "nfs") || str_eq(t, "nfs4") || str_eq(t, "smbfs") || str_eq(t, "cifs") || str_eq(t, "afp")
        || str_eq(t, "webdav")
}

/// Queries a macOS host for what drive detection needs. Nothing is assumed
/// of what an implementation returns.
pub trait MacDriveProbe {
    /// The output of `df -P <path>`, when it succeeded.
    fn df_portable(&self, path: &str) -> Option<String>;
    /// The output of `df -T <path>`, when it succeeded.
    fn df_types(&self, path: &str) -> Option<String>;
    /// The output of `diskutil info -plist <mount>`, when it succeeded.
    fn diskutil_plist(&self, mount: &str) -> Option<String>;
    /// Fragment size, block count and free block count of the volume, when readable.
    fn volume_stats(&self, path: &str) -> Option<(u64, u64, u64)>;
}

/// The text of an optional answer.
pub open spec fn answer_text(o: Option<String>) -> Option<Seq<char>> {
    match o {
        Some(s) => Some(s@),
        None => None,
    }
}

/// The drive the probe answers describe: the `df -P` and `df -T` outputs
/// for the path, the `diskutil info -plist` output for its mount point and
/// the volume statistics. Without a mount point, the placeholder; a network
/// filesystem is a share at its mount point; without a property list, an
/// unknown drive named "Macintosh HD"; otherwise the class from the
/// protocol and solid-state keys, the volume name (or "Macintosh HD") and
/// the capacity.
pub open spec fn mac_drive_described(
    d: DriveInfo,
    path: Seq<char>,
    df_portable: Option<Seq<char>>,
    df_types: Option<Seq<char>>,
    plist: Option<Seq<char>>,
    stats: Option<(u64, u64, u64)>,
) -> bool {
    match (if df_portable is Some { df_mount_text(df_portable.unwrap()) } else { None }) {
        None => is_placeholder(d, path),
        Some(mount) => {
            if df_types is Some && df_network_text(df_types.unwrap()) {
                d.drive_letter@ == mount && d.drive_type == DriveType::Network && d.label@ == "Network Share"@
                    && d.total_bytes == 0 && d.free_bytes == 0
            } else {
                &&& d.drive_letter@ == mount
                &&& (d.total_bytes as int, d.free_bytes as int) == capacity_of(stats)
                &&& match plist {
                    None => d.drive_type == DriveType::Unknown && d.label@ == "Macintosh HD"@,
                    Some(pl) => {
                        &&& d.drive_type == mac_class(plist_string_text(pl, "Protocol"@), plist_bool_text(pl, "SolidState"@))
                        &&& d.label@ == match plist_string_text(pl, "VolumeName"@) {
                            Some(v) => v,
                            None => "Macintosh HD"@,
                        }
                    },
                }
            }
        },
    }
}

/// The drive described by the probe answers.
pub fn mac_drive_info(
    path: &str,
    df_portable: Option<String>,
    df_types: Option<String>,
    plist: Option<String>,
    stats: Option<(u64, u64, u64)>,
) -> (r: DriveInfo)
    ensures
        mac_drive_described(r, path@, answer_text(df_portable), answer_text(df_types), answer_text(plist), stats),
{
    let mount_point = match df_portable {
        Some(out) => match mount_point_from_df(out.as_str()) {
            Some(m) => m,
            None => return placeholder_info(path),
        },
        None => return placeholder_info(path),
    };
    let network = match df_types {
        Some(out) => network_from_df(out.as_str()),
        None => false,
    };
    if network {
        return DriveInfo {
            drive_letter: mount_point,
            drive_type: DriveType::Network,
            label: String::from_str("Network Share"),
            total_bytes: 0,
            free_bytes: 0,
        };
    }
    let (total_bytes, free_bytes) = capacity_from(stats);
    let pl = match plist {
        Some(p) => p,
        None => {
            return DriveInfo {
                drive_letter: mount_point,
                drive_type: DriveType::Unknown,
                label: String::from_str("Macintosh HD"),
                total_bytes,
                free_bytes,
            };
        },
    };
    let solid_state = plist_bool(pl.as_str(), "SolidState");
    let protocol = plist_string(pl.as_str(), "Protocol");
    let volume_name = plist_string(pl.as_str(), "VolumeName");
    let drive_type = match &protocol {
        Some(p) => mac_drive_type(Some(p.as_str()), solid_state),
        None => mac_drive_type(None, solid_state),
    };
    let label = match volume_name {
        Some(v) => v,
        None => String::from_str("Macintosh HD"),
    };
    DriveInfo { drive_letter: mount_point, drive_type, label, total_bytes, free_bytes }
}

/// Detects the drive holding `path` on macOS. Always succeeds; the drive is
/// the one the probe's answers describe. The filesystem type and
/// `diskutil` are asked only once a mount point is known, and `diskutil`
/// and the volume only for a local filesystem.
pub fn detect_drive_info<P: MacDriveProbe>(path: &str, probe: &P) -> (r: Result<DriveInfo, String>)
    ensures
        r matches Ok(d) && (d.drive_type == DriveType::Network ==> d.label@ == "Network Share"@
            && d.total_bytes == 0 && d.free_bytes == 0),
        r matches Ok(d) && exists|dp: Option<Seq<char>>, dt: Option<Seq<char>>, pl: Option<Seq<char>>,
            stats: Option<(u64, u64, u64)>|
            #[trigger] mac_drive_described(d, path@, dp, dt, pl, stats),
{
    let df_portable = probe.df_portable(path);
    let mount = match &df_portable {
        Some(out) => mount_point_from_df(out.as_str()),
        None => None,
    };
    let mut df_types: Option<String> = None;
    let mut plist: Option<String> = None;
    let mut stats: Option<(u64, u64, u64)> = None;
    if let Some(m) = &mount {
        df_types = probe.df_types(path);
        let network = match &df_types {
            Some(out) => network_from_df(out.as_str()),
            None => false,
        };
        if !network {
            plist = probe.diskutil_plist(m.as_str());
            stats = probe.volume_stats(path);
        }
    }
    let d = mac_drive_info(path, df_portable, df_types, plist, stats);
    Ok(d)
}

} // verus!
