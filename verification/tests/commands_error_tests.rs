use knockknock::commands::error::ShredErrorDto;
use knockknock::shredder::ShredError;

#[test]
fn dto_from_file_not_found() {
    let err = ShredError::FileNotFound("/tmp/missing.txt".to_string());
    let dto = ShredErrorDto::from_error(&err);
    assert_eq!(dto.error_type, "FileNotFound");
    assert!(dto.path.is_some());
    assert!(!dto.actionable.is_empty());
}

#[test]
fn dto_from_empty_path_has_no_path() {
    let err = ShredError::EmptyPath;
    let dto = ShredErrorDto::from_error(&err);
    assert_eq!(dto.error_type, "EmptyPath");
    assert!(dto.path.is_none());
    assert!(!dto.actionable.is_empty());
}

#[test]
fn every_variant_has_an_actionable_message() {
    let cases = vec![
        ShredError::FileNotFound("a".to_string()),
        ShredError::PermissionDenied("a".to_string()),
        ShredError::FileLocked { path: "a".to_string(), process: "x".into() },
        ShredError::IoError { path: "a".to_string(), kind: "Other".into(), message: "boom".into() },
        ShredError::VerificationFailed { path: "a".to_string(), pass: 1 },
        ShredError::NetworkDrive("a".to_string()),
        ShredError::SystemFile("a".to_string()),
        ShredError::ShortcutDetected { path: "a".to_string(), target: "b".to_string() },
        ShredError::InvalidPathType("a".to_string()),
        ShredError::EmptyPath,
    ];
    for err in cases {
        let dto = ShredErrorDto::from_error(&err);
        assert!(
            !dto.actionable.is_empty(),
            "Missing actionable message for variant producing error_type={}",
            dto.error_type
        );
    }
}

#[test]
fn dto_carries_the_error_message_and_path() {
    let err = ShredError::PermissionDenied("C:\\secret.txt".to_string());
    let dto = ShredErrorDto::from_error(&err);
    assert_eq!(dto.error_type, "PermissionDenied");
    assert_eq!(dto.message, "Permission denied: C:\\secret.txt");
    assert_eq!(dto.path.as_deref(), Some("C:\\secret.txt"));
}
