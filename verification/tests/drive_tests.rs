use std::collections::BTreeMap;

use knockknock::drive::info::capacity_from;
use knockknock::drive::linux::{
    base_device_name, is_network_fstype, linux_drive_type, parse_df_output, parse_sysfs_u8, LinuxDriveProbe,
};
use knockknock::drive::macos::{
    mac_drive_type, mount_point_from_df, network_from_df, plist_bool, plist_string, MacDriveProbe,
};
use knockknock::drive::windows::{drive_root, windows_drive_type, WindowsDriveProbe, DRIVE_FIXED, DRIVE_REMOTE, DRIVE_REMOVABLE};
use knockknock::drive::{detect_drive_info, placeholder_info, DriveType};

struct LinuxHost {
    df: Option<String>,
    sysfs: BTreeMap<String, String>,
    label: Option<String>,
}

impl LinuxDriveProbe for LinuxHost {
    fn df_output(&self, _path: &str) -> Option<String> {
        self.df.clone()
    }
    fn read_sysfs(&self, path: &str) -> Option<String> {
        self.sysfs.get(path).cloned()
    }
    fn lsblk_label(&self, _device: &str) -> Option<String> {
        self.label.clone()
    }
    fn blkid_label(&self, _device: &str) -> Option<String> {
        None
    }
    fn volume_stats(&self, _path: &str) -> Option<(u64, u64, u64)> {
        Some((4096, 100, 25))
    }
}

fn sysfs(device: &str, rotational: &str, removable: &str) -> BTreeMap<String, String> {
    let mut m = BTreeMap::new();
    m.insert(format!("/sys/block/{device}/queue/rotational"), rotational.to_string());
    m.insert(format!("/sys/block/{device}/removable"), removable.to_string());
    m
}

#[test]
fn linux_nvme_partition_is_a_solid_state_drive() {
    let host = LinuxHost {
        df: Some("Filesystem Mounted on Type\n/dev/nvme0n1p2 /home ext4\n".to_string()),
        sysfs: sysfs("nvme0n1", "0\n", "0\n"),
        label: Some("  data \n".to_string()),
    };
    let info = knockknock::drive::linux::detect_drive_info("/home/u/file", &host).unwrap();
    assert_eq!(info.drive_letter, "/home");
    assert_eq!(info.drive_type, DriveType::Ssd);
    assert_eq!(info.label, "data");
    assert_eq!(info.total_bytes, 409600);
    assert_eq!(info.free_bytes, 102400);
}

#[test]
fn linux_removable_rotating_disk_is_a_usb_hard_disk() {
    let host = LinuxHost {
        df: Some("Filesystem Mounted on Type\n/dev/sdb1 /media/usb vfat\n".to_string()),
        sysfs: sysfs("sdb", "1", "1"),
        label: None,
    };
    let info = knockknock::drive::linux::detect_drive_info("/media/usb/x", &host).unwrap();
    assert_eq!(info.drive_type, DriveType::UsbHdd);
    assert_eq!(info.label, "Linux Drive");
}

#[test]
fn linux_network_and_unknown_sources() {
    let nfs = LinuxHost { df: Some("S M T\nserver:/x /mnt/x nfs4\n".to_string()), sysfs: BTreeMap::new(), label: None };
    let info = knockknock::drive::linux::detect_drive_info("/mnt/x/f", &nfs).unwrap();
    assert_eq!(info.drive_type, DriveType::Network);
    assert_eq!(info.label, "Network Share");
    let tmpfs = LinuxHost { df: Some("S M T\ntmpfs /tmp tmpfs\n".to_string()), sysfs: BTreeMap::new(), label: None };
    let info = knockknock::drive::linux::detect_drive_info("/tmp/f", &tmpfs).unwrap();
    assert_eq!(info.drive_type, DriveType::Unknown);
    assert_eq!(info.drive_letter, "/tmp");
    let none = LinuxHost { df: None, sysfs: BTreeMap::new(), label: None };
    let info = knockknock::drive::linux::detect_drive_info("/srv/data/f", &none).unwrap();
    assert_eq!(info.drive_letter, "/srv");
}

#[test]
fn linux_parsing_helpers() {
    assert_eq!(base_device_name("/dev/sda1").as_deref(), Some("sda"));
    assert_eq!(base_device_name("/dev/nvme0n1p1").as_deref(), Some("nvme0n1"));
    assert_eq!(base_device_name("/dev/mmcblk0p2").as_deref(), Some("mmcblk0"));
    assert_eq!(base_device_name("tmpfs"), None);
    assert_eq!(parse_sysfs_u8(" 1\n"), Some(1));
    assert_eq!(parse_sysfs_u8("256"), None);
    assert_eq!(parse_sysfs_u8("x"), None);
    assert_eq!(linux_drive_type(Some(0), Some(1)), DriveType::UsbSsd);
    assert_eq!(linux_drive_type(Some(1), None), DriveType::Hdd);
    assert_eq!(linux_drive_type(None, Some(1)), DriveType::Unknown);
    assert!(is_network_fstype("cifs"));
    assert!(!is_network_fstype("ext4"));
    assert_eq!(
        parse_df_output("h\n  /dev/sda1   /   ext4  \n"),
        Some(("/dev/sda1".to_string(), "/".to_string(), "ext4".to_string()))
    );
    assert_eq!(parse_df_output("header only\n"), None);
}

struct MacHost {
    df_p: Option<String>,
    df_t: Option<String>,
    plist: Option<String>,
}

impl MacDriveProbe for MacHost {
    fn df_portable(&self, _path: &str) -> Option<String> {
        self.df_p.clone()
    }
    fn df_types(&self, _path: &str) -> Option<String> {
        self.df_t.clone()
    }
    fn diskutil_plist(&self, _mount: &str) -> Option<String> {
        self.plist.clone()
    }
    fn volume_stats(&self, _path: &str) -> Option<(u64, u64, u64)> {
        None
    }
}

const PLIST: &str = "<dict><key>Protocol</key><string>USB</string><key>SolidState</key><true/><key>VolumeName</key><string>Stick</string></dict>";

#[test]
fn macos_usb_solid_state_volume() {
    let host = MacHost {
        df_p: Some("Filesystem 512-blocks Used Available Capacity Mounted on\n/dev/disk4s1 100 1 99 1% /Volumes/Stick\n".to_string()),
        df_t: Some("Filesystem Type\n/dev/disk4s1 apfs\n".to_string()),
        plist: Some(PLIST.to_string()),
    };
    let info = knockknock::drive::macos::detect_drive_info("/Volumes/Stick/a", &host).unwrap();
    assert_eq!(info.drive_letter, "/Volumes/Stick");
    assert_eq!(info.drive_type, DriveType::UsbSsd);
    assert_eq!(info.label, "Stick");
    assert_eq!(info.total_bytes, 0);
}

#[test]
fn macos_network_volume_and_missing_plist() {
    let share = MacHost {
        df_p: Some("h\n//srv/share 1 1 1 1% /Volumes/share\n".to_string()),
        df_t: Some("h\n//srv/share smbfs\n".to_string()),
        plist: None,
    };
    let info = knockknock::drive::macos::detect_drive_info("/Volumes/share/a", &share).unwrap();
    assert_eq!(info.drive_type, DriveType::Network);
    let plain = MacHost { df_p: Some("h\n/dev/disk1 1 1 1 1% /\n".to_string()), df_t: None, plist: None };
    let info = knockknock::drive::macos::detect_drive_info("/Users/u/a", &plain).unwrap();
    assert_eq!(info.drive_type, DriveType::Unknown);
    assert_eq!(info.label, "Macintosh HD");
}

#[test]
fn macos_parsing_helpers() {
    assert_eq!(plist_string(PLIST, "Protocol").as_deref(), Some("USB"));
    assert_eq!(plist_string(PLIST, "Missing"), None);
    assert_eq!(plist_bool(PLIST, "SolidState"), Some(true));
    assert_eq!(plist_bool("<key>SolidState</key>\n<false/>", "SolidState"), Some(false));
    assert_eq!(mac_drive_type(Some("USB"), None), DriveType::UsbHdd);
    assert_eq!(mac_drive_type(Some("SATA"), Some(false)), DriveType::Hdd);
    assert_eq!(mac_drive_type(None, None), DriveType::Unknown);
    assert_eq!(mount_point_from_df("h\na b c /mnt\n").as_deref(), Some("/mnt"));
    assert!(network_from_df("h\nx nfs\n"));
    assert!(!network_from_df("h\nx apfs\n"));
}

struct WindowsHost {
    raw: u32,
    seek: Option<bool>,
}

impl WindowsDriveProbe for WindowsHost {
    fn drive_type(&self, _root: &str) -> u32 {
        self.raw
    }
    fn volume_label(&self, _root: &str) -> Option<String> {
        None
    }
    fn free_space(&self, _root: &str) -> (u64, u64) {
        (10, 5)
    }
    fn seek_penalty(&self, _drive_letter: &str) -> Option<bool> {
        self.seek
    }
}

#[test]
fn windows_fixed_removable_and_network_drives() {
    let ssd = knockknock::drive::windows::detect_drive_info("C:\\Users\\u\\a.txt", &WindowsHost { raw: DRIVE_FIXED, seek: Some(false) }).unwrap();
    assert_eq!(ssd.drive_letter, "C:");
    assert_eq!(ssd.drive_type, DriveType::Ssd);
    assert_eq!(ssd.label, "Local Disk");
    assert_eq!((ssd.total_bytes, ssd.free_bytes), (10, 5));
    let usb = knockknock::drive::windows::detect_drive_info("E:\\a", &WindowsHost { raw: DRIVE_REMOVABLE, seek: None }).unwrap();
    assert_eq!(usb.drive_type, DriveType::UsbHdd);
    let unc = knockknock::drive::windows::detect_drive_info("\\\\srv\\share\\a", &WindowsHost { raw: DRIVE_FIXED, seek: None }).unwrap();
    assert_eq!(unc.drive_type, DriveType::Network);
    match knockknock::drive::windows::detect_drive_info("relative\\a", &WindowsHost { raw: DRIVE_FIXED, seek: None }) {
        Err(m) => assert_eq!(m, "Cannot determine drive for path: relative\\a"),
        Ok(_) => panic!("a path without a drive letter has no drive"),
    }
    assert_eq!(windows_drive_type(DRIVE_REMOTE, Some(true)), DriveType::Network);
    assert_eq!(windows_drive_type(DRIVE_FIXED, Some(true)), DriveType::Hdd);
    assert_eq!(drive_root("d:\\x").as_deref(), Some("d:\\"));
    assert_eq!(drive_root("x"), None);
}

#[test]
fn placeholder_keys_and_capacity() {
    assert_eq!(placeholder_info("/home/u/a").drive_letter, "/home");
    assert_eq!(placeholder_info("/").drive_letter, "/");
    assert_eq!(placeholder_info("rel/a").drive_letter, "Unknown");
    assert_eq!(detect_drive_info("//x").unwrap().drive_letter, "/x");
    assert_eq!(capacity_from(None), (0, 0));
    assert_eq!(capacity_from(Some((0, 7, 3))), (7, 3));
    assert_eq!(capacity_from(Some((u64::MAX, 2, 1))), (u64::MAX, u64::MAX));
}

#[test]
fn linux_answers_decide_the_drive() {
    use_linux_answers();
}

fn use_linux_answers() {
    let df = Some("Filesystem Mounted on Type\n/dev/sda2 /home ext4\n".to_string());
    let d = knockknock::drive::linux::linux_drive_info(
        "/home/u/x",
        df.clone(),
        Some("1\n".to_string()),
        Some("0\n".to_string()),
        Some("  Data \n".to_string()),
        None,
        Some((4096, 10, 5)),
    );
    assert_eq!(d.drive_letter, "/home");
    assert_eq!(d.drive_type, knockknock::drive::DriveType::Hdd);
    assert_eq!(d.label, "Data");
    assert_eq!((d.total_bytes, d.free_bytes), (40960, 20480));
    let share = knockknock::drive::linux::linux_drive_info(
        "/mnt/x",
        Some("Filesystem Mounted on Type\nserver:/x /mnt nfs4\n".to_string()),
        None,
        None,
        None,
        None,
        None,
    );
    assert_eq!(share.drive_type, knockknock::drive::DriveType::Network);
    assert_eq!(share.label, "Network Share");
    let none = knockknock::drive::linux::linux_drive_info("/home/u/x", None, None, None, None, None, None);
    assert_eq!(none.drive_type, knockknock::drive::DriveType::Unknown);
    let blank = knockknock::drive::linux::linux_drive_info("/h", df, None, None, Some(" ".to_string()), Some("B".to_string()), None);
    assert_eq!(blank.label, "B");
}

#[test]
fn mac_answers_decide_the_drive() {
    let df_p = Some("Filesystem 512-blocks Used Available Capacity Mounted on\n/dev/disk3s5 100 50 50 50% /System/Volumes/Data\n".to_string());
    let plist = Some(
        "<dict><key>Protocol</key><string>USB</string><key>SolidState</key>\n  <true/><key>VolumeName</key><string>Stick</string></dict>"
            .to_string(),
    );
    let d = knockknock::drive::macos::mac_drive_info("/Users/u/x", df_p.clone(), None, plist, Some((512, 8, 2)));
    assert_eq!(d.drive_letter, "/System/Volumes/Data");
    assert_eq!(d.drive_type, DriveType::UsbSsd);
    assert_eq!(d.label, "Stick");
    assert_eq!((d.total_bytes, d.free_bytes), (4096, 1024));
    let bare = knockknock::drive::macos::mac_drive_info("/Users/u/x", df_p.clone(), None, None, None);
    assert_eq!(bare.drive_type, DriveType::Unknown);
    assert_eq!(bare.label, "Macintosh HD");
    let share = knockknock::drive::macos::mac_drive_info(
        "/Volumes/s/x",
        df_p,
        Some("Filesystem Type 512-blocks\n//srv/s smbfs 100\n".to_string()),
        None,
        None,
    );
    assert_eq!(share.drive_type, DriveType::Network);
    assert_eq!(share.label, "Network Share");
    let none = knockknock::drive::macos::mac_drive_info("/x", None, None, None, None);
    assert_eq!(none.label, "Unknown");
}
