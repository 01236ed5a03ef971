use knockknock::paths::{app_root_from, data_dir_in};
use knockknock::shredder::algorithms::{all_algorithms, dod_pass_pattern};
use knockknock::shredder::platform::common::generate_random_name;
use knockknock::shredder::platform::{linux, macos, HostPlatform};
use knockknock::shredder::types::PatternType;
use knockknock::shredder::validation::{hard_link_info, is_network_by_mounts, is_windows_network_path};
use knockknock::shredder::ShredError;

#[test]
fn application_roots_per_platform() {
    assert_eq!(app_root_from("/opt/kk/knockknock", HostPlatform::Linux, None), Ok("/opt/kk".to_string()));
    assert_eq!(
        app_root_from("/tmp/.mount_abc/usr/bin/knockknock", HostPlatform::Linux, Some("/home/u/Apps/kk.AppImage")),
        Ok("/home/u/Apps".to_string())
    );
    assert_eq!(
        app_root_from("/tmp/.mount_abc/usr/bin/knockknock", HostPlatform::Linux, None),
        Err("AppImage is not running from a mounted location.\nSet APPIMAGE=/path/to/file.AppImage and relaunch.".to_string())
    );
    assert_eq!(
        app_root_from("/Users/u/Apps/KnockKnock.app/Contents/MacOS/knockknock", HostPlatform::MacOs, None),
        Ok("/Users/u/Apps".to_string())
    );
    assert_eq!(app_root_from("/knockknock", HostPlatform::MacOs, None), Err("Cannot resolve .app bundle root".to_string()));
    assert_eq!(app_root_from("", HostPlatform::Windows, None), Err("Executable has no parent directory".to_string()));
    assert_eq!(data_dir_in("/opt/kk"), "/opt/kk/KnockKnock-data");
}

#[test]
fn algorithms_are_listed_in_index_order() {
    let algorithms = all_algorithms();
    assert_eq!(algorithms.len(), 3);
    assert_eq!(algorithms[1].name, "DoD 5220.22-M");
    assert!(algorithms[1].has_fixed_pattern_sequence);
    assert!(algorithms.iter().enumerate().all(|(i, a)| a.index == i && a.default_passes <= a.max_passes));
    assert_eq!(dod_pass_pattern(0), PatternType::Zeros);
    assert_eq!(dod_pass_pattern(4), PatternType::Ones);
    assert_eq!(dod_pass_pattern(5), PatternType::Random);
}

#[test]
fn random_names_are_sixteen_alphanumerics_and_vary() {
    let a = generate_random_name();
    let b = generate_random_name();
    assert_eq!(a.len(), 16);
    assert!(a.chars().all(|c| c.is_ascii_alphanumeric()));
    assert_ne!(a, b);
}

#[test]
fn network_locations_from_the_mount_table() {
    let mounts = "/dev/sda1 / ext4 rw 0 0\nserver:/export /mnt/nfs nfs4 rw 0 0\n/dev/sdb1 /mnt/nfs/local ext4 rw 0 0\n";
    assert!(is_network_by_mounts("/mnt/nfs/a", Some(mounts)));
    assert!(!is_network_by_mounts("/mnt/nfs/local/a", Some(mounts)));
    assert!(!is_network_by_mounts("/home/a", Some(mounts)));
    assert!(!is_network_by_mounts("/mnt/nfs/a", None));
    assert!(is_windows_network_path("\\\\server\\share", false));
    assert!(is_windows_network_path("Z:\\x", true));
    assert!(!is_windows_network_path("C:\\x", false));
    assert_eq!(hard_link_info(None).link_count, 1);
    assert_eq!(hard_link_info(Some(3)).link_count, 3);
}

#[test]
fn local_volume_rules() {
    assert!(linux::ensure_local_volume("/x", Ok(0xEF53)).is_ok());
    assert!(matches!(linux::ensure_local_volume("/x", Ok(0x6969)), Err(ShredError::NetworkDrive(p)) if p == "/x"));
    assert!(macos::ensure_local_volume("/x", Ok(macos::MNT_LOCAL)).is_ok());
    assert!(matches!(macos::ensure_local_volume("/x", Ok(0)), Err(ShredError::NetworkDrive(_))));
    assert!(matches!(macos::ensure_local_volume("/x", Err(ShredError::EmptyPath)), Err(ShredError::EmptyPath)));
}

#[test]
fn shred_error_messages() {
    assert_eq!(ShredError::EmptyPath.message(), "Empty path");
    assert_eq!(
        ShredError::HardLinkBlocked { path: "/a".to_string(), count: 2 }.message(),
        "hard link blocked at /a: link count 2"
    );
    assert_eq!(
        ShredError::VerificationFailed { path: "/a".to_string(), pass: 3 }.message(),
        "Verification failed at /a on pass 3"
    );
    assert_eq!(
        ShredError::IoError { path: "/a".to_string(), kind: "Other".to_string(), message: "boom".to_string() }.message(),
        "I/O error at /a: Other: boom"
    );
}
