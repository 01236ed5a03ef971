use knockknock::drive::DriveType;
use knockknock::shredder::platform::linux::is_denied_filesystem_magic;
use knockknock::shredder::platform::map_drive_type;
use knockknock::shredder::root_execution::plan::NodeIdentity;
use knockknock::shredder::root_execution::unix::{
    check_child_parent, check_child_volume, check_mutation_parent, check_mutation_target, check_opened_root,
    check_root_component, check_root_path, root_components, same_volume, VolumeIdentity,
};
use knockknock::shredder::ShredError;
use knockknock::shredder::root_execution::windows::{
    access_mask, check_windows_root_drive, check_windows_root_path, role_for, OpenRole, DELETE,
    file_picker_options, folder_picker_options, FOS_ALLOWMULTISELECT, FOS_FILEMUSTEXIST,
    FOS_FORCEFILESYSTEM, FOS_NODEREFERENCELINKS, FOS_PATHMUSTEXIST, FOS_PICKFOLDERS,
};
use knockknock::shredder::types::MediaType;

fn drive_cases() -> [(DriveType, MediaType); 6] {
    [
        (DriveType::Hdd, MediaType::Hdd),
        (DriveType::UsbHdd, MediaType::Hdd),
        (DriveType::Ssd, MediaType::Ssd),
        (DriveType::UsbSsd, MediaType::Ssd),
        (DriveType::Unknown, MediaType::Unknown),
        (DriveType::Network, MediaType::Unknown),
    ]
}

#[test]
fn linux_maps_usb_and_conservative_drive_types() {
    for (drive_type, expected) in drive_cases() {
        assert_eq!(map_drive_type(drive_type), expected);
    }
}

#[test]
fn macos_maps_usb_and_conservative_drive_types() {
    for (drive_type, expected) in drive_cases() {
        assert_eq!(map_drive_type(drive_type), expected);
    }
}

#[test]
fn denies_known_network_fuse_ceph_and_9p_filesystem_magics() {
    for filesystem_type in [
        0x6573_5546u64,
        0x0000_6969,
        0x0000_517B,
        0xFF53_4D42,
        0x00C3_6400,
        0x0102_1997,
    ] {
        assert!(
            is_denied_filesystem_magic(filesystem_type),
            "filesystem magic {filesystem_type:#x} must be denied"
        );
    }
}

#[test]
fn allows_a_local_filesystem_magic() {
    assert!(!is_denied_filesystem_magic(0x0000_EF53));
}

#[test]
fn detects_mount_crossing_through_the_volume_policy_seam() {
    let same = VolumeIdentity::new(7);
    let different = VolumeIdentity::new(8);
    assert!(same_volume(same, same));
    assert!(!same_volume(same, different));
}

#[test]
fn folder_picker_options_are_non_resolving_multi_path_filesystem_folders() {
    let options = folder_picker_options();
    assert_ne!(options & FOS_PICKFOLDERS, 0);
    assert_ne!(options & FOS_NODEREFERENCELINKS, 0);
    assert_ne!(options & FOS_FORCEFILESYSTEM, 0);
    assert_ne!(options & FOS_PATHMUSTEXIST, 0);
}

#[test]
fn file_picker_options_allow_multiple_raw_filesystem_paths() {
    let options = file_picker_options();
    assert_ne!(options & FOS_ALLOWMULTISELECT, 0);
    assert_ne!(options & FOS_FILEMUSTEXIST, 0);
    assert_ne!(options & FOS_NODEREFERENCELINKS, 0);
    assert_ne!(options & FOS_PATHMUSTEXIST, 0);
}

const RESERVED_NAMES: &[&str] = &[
    "CON", "PRN", "AUX", "NUL", "COM1", "COM2", "COM3", "COM4", "COM5", "COM6", "COM7", "COM8",
    "COM9", "LPT1", "LPT2", "LPT3", "LPT4", "LPT5", "LPT6", "LPT7", "LPT8", "LPT9",
];

#[test]
fn generates_16_chars() {
    let n = knockknock::shredder::platform::common::generate_random_name();
    assert_eq!(n.len(), 16);
}

#[test]
fn generates_alphanumeric() {
    for _ in 0..100 {
        let n = knockknock::shredder::platform::common::generate_random_name();
        assert!(n.chars().all(|c| c.is_ascii_alphanumeric()), "Non-alphanumeric char in {:?}", n);
    }
}

#[test]
fn never_returns_reserved_name() {
    for _ in 0..1000 {
        let n = knockknock::shredder::platform::common::generate_random_name();
        let upper = n.to_uppercase();
        assert!(!RESERVED_NAMES.contains(&upper.as_str()), "Generated reserved name {:?}", n);
    }
}

#[test]
fn allows_a_local_filesystem_magic_and_fixture_root() {
    assert!(!is_denied_filesystem_magic(0x0000_EF53)); // ext4

    // The fixture root's filesystem type as statfs reports it for ext4.
    knockknock::shredder::platform::linux::ensure_local_volume("/tmp/fixture", Ok(0x0000_EF53))
        .expect("temporary fixture is local");
}

fn refusal<T: std::fmt::Debug>(r: Result<T, ShredError>) -> String {
    match r {
        Err(ShredError::ValidationFailed(m)) => m,
        other => panic!("expected a validation refusal, got {other:?}"),
    }
}

#[test]
fn root_paths_must_be_absolute_and_normal() {
    assert_eq!(refusal(check_root_path("home/u/x")), "secure Unix root must be absolute");
    assert_eq!(refusal(check_root_path("/home/u/../x")), "secure Unix root contains a non-normal component");
    assert!(check_root_path("/").is_ok());
    assert!(check_root_path("/home/u/./x").is_ok());
    assert_eq!(refusal(root_components("/")), "filesystem roots are not safe execution targets");
    assert_eq!(root_components("/home/u/./x//y/").unwrap(), vec!["home", "u", "x", "y"]);
}

#[test]
fn the_root_walk_refuses_files_links_and_mount_crossings() {
    let dir = NodeIdentity::directory(1, 7);
    let file = NodeIdentity::regular(2, 7);
    let other_volume = NodeIdentity::directory(3, 8);
    assert!(check_root_component(&dir, false, &dir).is_ok());
    assert!(check_root_component(&file, true, &dir).is_ok());
    assert_eq!(refusal(check_root_component(&file, false, &dir)), "root path component is not a directory");
    assert_eq!(refusal(check_root_component(&other_volume, false, &dir)), "mount crossing detected while opening root");
    assert_eq!(refusal(check_opened_root(&NodeIdentity::link(4, 7))), "symlink root is not a safe execution target");
    assert!(check_opened_root(&file).is_ok());
}

#[test]
fn children_and_mutations_need_unchanged_identities() {
    let dir = NodeIdentity::directory(1, 7);
    let moved = NodeIdentity::directory(9, 7);
    let file = NodeIdentity::regular(2, 7);
    assert!(check_child_parent(&dir, &dir).is_ok());
    assert_eq!(refusal(check_child_parent(&file, &file)), "child open parent is not a directory");
    assert_eq!(refusal(check_child_parent(&dir, &moved)), "child open parent identity changed");
    assert_eq!(refusal(check_child_volume(&dir, &NodeIdentity::regular(2, 8))), "mount crossing detected while opening child");
    assert!(check_child_volume(&dir, &file).is_ok());
    assert!(check_mutation_parent(&dir, Some(dir), &dir).is_ok());
    assert_eq!(refusal(check_mutation_parent(&file, Some(file), &file)), "secure mutation parent is not a directory");
    assert_eq!(refusal(check_mutation_parent(&dir, None, &dir)), "mutation parent identity mismatch");
    assert_eq!(refusal(check_mutation_parent(&dir, Some(moved), &dir)), "mutation parent identity mismatch");
    assert!(check_mutation_target(&file, &file).is_ok());
    assert_eq!(
        refusal(check_mutation_target(&NodeIdentity::regular(5, 7), &file)),
        "mutation target identity mismatch"
    );
}

fn dir_record(next: u32, name: &[u16]) -> Vec<u8> {
    let mut r = vec![0u8; 104];
    r[0..4].copy_from_slice(&next.to_le_bytes());
    r[60..64].copy_from_slice(&((name.len() * 2) as u32).to_le_bytes());
    for unit in name {
        r.extend_from_slice(&unit.to_le_bytes());
    }
    r
}

#[test]
fn directory_records_give_names_without_dot_entries() {
    let mut bytes = dir_record(112, &[46]);
    bytes.resize(112, 0);
    bytes.extend(dir_record(0, &[97, 98]));
    let names = knockknock::shredder::root_execution::windows::parse_dir_records(&bytes).unwrap();
    assert_eq!(names, vec![vec![97u16, 98u16]]);
    let parent_then_end = dir_record(0, &[46, 46]);
    assert!(knockknock::shredder::root_execution::windows::parse_dir_records(&parent_then_end).unwrap().is_empty());
    assert!(knockknock::shredder::root_execution::windows::parse_dir_records(&[]).unwrap().is_empty());
}

#[test]
fn malformed_directory_records_are_refused() {
    let parse = knockknock::shredder::root_execution::windows::parse_dir_records;
    assert_eq!(refusal(parse(&[1, 2, 3])), "directory enumeration returned a truncated record");
    assert_eq!(refusal(parse(&[0u8; 50])), "directory enumeration returned an invalid name record");
    let mut odd = dir_record(0, &[97]);
    odd[60] = 3;
    odd.push(0);
    assert_eq!(refusal(parse(&odd)), "directory enumeration returned an invalid name record");
    let far = dir_record(500, &[97]);
    assert_eq!(refusal(parse(&far)), "directory enumeration returned an invalid record offset");
}

#[test]
fn only_the_root_itself_is_opened_with_delete_rights() {
    assert_eq!(role_for(0, 3), OpenRole::Traverse);
    assert_eq!(role_for(1, 3), OpenRole::RenameParent);
    assert_eq!(role_for(2, 3), OpenRole::Destructive);
    assert_eq!(role_for(0, 1), OpenRole::Destructive);
    assert_eq!(access_mask(OpenRole::Traverse), 0x0010_0081);
    assert_eq!(access_mask(OpenRole::RenameParent), 0x0010_00C3);
    assert_eq!(access_mask(OpenRole::Destructive), 0x0011_0183);
    assert_eq!(access_mask(OpenRole::RenameParent) & DELETE, 0);
}

#[test]
fn windows_roots_are_absolute_fixed_drive_paths() {
    let (drive, names) = check_windows_root_path("C:\\Users\\u\\.\\Docs").unwrap();
    assert_eq!(drive, 'C');
    assert_eq!(names, vec!["Users".to_string(), "u".to_string(), "Docs".to_string()]);
    assert!(matches!(check_windows_root_path("\\\\server\\share\\x"), Err(ShredError::NetworkDrive(_))));
    assert_eq!(refusal(check_windows_root_path("Users\\u")), "secure Windows root must be an absolute fixed-drive path");
    assert_eq!(refusal(check_windows_root_path("C:Users")), "secure Windows root must be an absolute fixed-drive path");
    assert_eq!(refusal(check_windows_root_path("C:\\Users\\..\\x")), "secure Windows root contains a non-normal component");
    assert_eq!(refusal(check_windows_root_path("D:\\")), "filesystem roots are not safe execution targets");
    assert!(check_windows_root_drive("C:\\x", 3).is_ok());
    assert!(matches!(check_windows_root_drive("Z:\\x", 4), Err(ShredError::NetworkDrive(_))));
    assert_eq!(refusal(check_windows_root_drive("E:\\x", 2)), "only fixed local Windows volumes are safe execution roots");
}
