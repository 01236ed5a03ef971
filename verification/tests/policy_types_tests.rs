use knockknock::shredder::engine::pass_plan;
use knockknock::shredder::logging::{obfuscate_path, LogObfuscation};
use knockknock::shredder::types::{
    validate_storage_for_method, DeletionMethod, DeletionPolicy, MediaType, PatternType, WriteCheck,
};
use knockknock::shredder::ShredError;

#[test]
fn pass_plan_automatic_is_single_random() {
    assert_eq!(pass_plan(DeletionMethod::Automatic), vec![PatternType::Random]);
}

#[test]
fn pass_plan_legacy_is_zeros_ones_random() {
    assert_eq!(
        pass_plan(DeletionMethod::LegacyThreePass),
        vec![PatternType::Zeros, PatternType::Ones, PatternType::Random]
    );
}

#[test]
fn none_returns_full_path() {
    assert_eq!(
        obfuscate_path("/home/user/secret.txt", LogObfuscation::Off, 1),
        "/home/user/secret.txt"
    );
}

#[test]
fn numbered_returns_index_label() {
    assert_eq!(obfuscate_path("/home/user/secret.txt", LogObfuscation::Numbered, 42), "File_42");
}

#[test]
fn partial_mask_short_path_returns_stars() {
    assert_eq!(obfuscate_path("a.txt", LogObfuscation::PartialMask, 1), "***");
}

#[test]
fn partial_mask_long_path_masks_middle() {
    let result = obfuscate_path("/home/user/secret.txt", LogObfuscation::PartialMask, 0);
    assert!(result.starts_with("/ho"));
    assert!(result.contains("***"));
    assert!(result.ends_with("t.txt"));
}

#[test]
fn partial_mask_keeps_exactly_three_and_five_characters() {
    assert_eq!(obfuscate_path("/home/user/secret.txt", LogObfuscation::PartialMask, 0), "/ho***t.txt");
    assert_eq!(obfuscate_path("12345678", LogObfuscation::PartialMask, 0), "***");
    assert_eq!(obfuscate_path("123456789", LogObfuscation::PartialMask, 0), "123***56789");
}

#[test]
fn numbered_label_of_zero() {
    assert_eq!(obfuscate_path("x", LogObfuscation::Numbered, 0), "File_0");
}

#[test]
fn default_policy_is_automatic_with_spot_check() {
    let default = DeletionPolicy::default();
    assert_eq!(
        default,
        DeletionPolicy {
            method: DeletionMethod::Automatic,
            write_check: WriteCheck::Spot,
        }
    );
}

#[test]
fn total_passes_matches_method() {
    let automatic = DeletionPolicy {
        method: DeletionMethod::Automatic,
        write_check: WriteCheck::Off,
    };
    let legacy = DeletionPolicy {
        method: DeletionMethod::LegacyThreePass,
        write_check: WriteCheck::Off,
    };
    assert_eq!(automatic.total_passes(), 1);
    assert_eq!(legacy.total_passes(), 3);
    assert!(!automatic.requires_hdd());
    assert!(legacy.requires_hdd());
}

#[test]
fn plan_length_matches_total_passes() {
    for method in [DeletionMethod::Automatic, DeletionMethod::LegacyThreePass] {
        let policy = DeletionPolicy { method, write_check: WriteCheck::Full };
        let plan = pass_plan(method);
        assert_eq!(plan.len() as u32, policy.total_passes());
        assert_eq!(*plan.last().unwrap(), PatternType::Random);
    }
}

#[test]
fn stored_settings_name_obfuscation_modes() {
    use_modes();
}

fn use_modes() {
    assert_eq!(knockknock::shredder::logging::obfuscation_from_setting("numbered"), LogObfuscation::Numbered);
    assert_eq!(knockknock::shredder::logging::obfuscation_from_setting("partial_mask"), LogObfuscation::PartialMask);
    assert_eq!(knockknock::shredder::logging::obfuscation_from_setting("none"), LogObfuscation::Off);
    assert_eq!(knockknock::shredder::logging::obfuscation_from_setting("Numbered"), LogObfuscation::Off);
}

#[test]
fn validate_storage_for_method_allows_legacy_only_on_hdd() {
    assert!(validate_storage_for_method(DeletionMethod::LegacyThreePass, MediaType::Hdd).is_ok());

    for media in [MediaType::Ssd, MediaType::Unknown] {
        match validate_storage_for_method(DeletionMethod::LegacyThreePass, media) {
            Err(ShredError::UnsupportedStorageForMethod { path, method, media: got }) => {
                assert!(path.is_empty());
                assert_eq!(method, DeletionMethod::LegacyThreePass);
                assert_eq!(got, media);
            }
            other => panic!("expected UnsupportedStorageForMethod, got {other:?}"),
        }
    }

    for media in [MediaType::Ssd, MediaType::Hdd, MediaType::Unknown] {
        assert!(validate_storage_for_method(DeletionMethod::Automatic, media).is_ok());
    }
}
