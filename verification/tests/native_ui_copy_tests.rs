use knockknock::native_ui_copy::{
    NOTIFICATION_CLIPBOARD_CLEARED_BODY, NOTIFICATION_CLIPBOARD_CLEARED_TITLE,
    NOTIFICATION_CLIPBOARD_ERROR_BODY, NOTIFICATION_CLIPBOARD_ERROR_TITLE,
    NOTIFICATION_OPERATION_IN_PROGRESS_BODY, NOTIFICATION_OPERATION_IN_PROGRESS_TITLE,
    STARTUP_ERROR_TITLE, STARTUP_WRITABLE_LOCATION_GUIDANCE, TRAY_CLEAR_CLIPBOARD,
    TRAY_DELETE_SELECTED, TRAY_QUIT, TRAY_SETTINGS, TRAY_TOGGLE_WINDOW, TRAY_TOOLTIP,
};

#[test]
fn tray_copy_matches_expected_values() {
    assert_eq!(TRAY_TOOLTIP, "KnockKnock — Local Data Deletion");
    assert_eq!(TRAY_DELETE_SELECTED, "Delete Selected Targets");
    assert_eq!(TRAY_CLEAR_CLIPBOARD, "Clear Clipboard");
    assert_eq!(TRAY_TOGGLE_WINDOW, "Show/Hide Window");
    assert_eq!(TRAY_SETTINGS, "Settings");
    assert_eq!(TRAY_QUIT, "Quit");
}

#[test]
fn notification_copy_matches_expected_values() {
    assert_eq!(NOTIFICATION_OPERATION_IN_PROGRESS_TITLE, "Operation in progress");
    assert_eq!(
        NOTIFICATION_OPERATION_IN_PROGRESS_BODY,
        "A deletion operation is already in progress."
    );
    assert_eq!(NOTIFICATION_CLIPBOARD_CLEARED_TITLE, "Clipboard cleared");
    assert_eq!(
        NOTIFICATION_CLIPBOARD_CLEARED_BODY,
        "Current clipboard contents were cleared."
    );
    assert_eq!(NOTIFICATION_CLIPBOARD_ERROR_TITLE, "Clipboard error");
    assert_eq!(
        NOTIFICATION_CLIPBOARD_ERROR_BODY,
        "Could not access the system clipboard."
    );
}

#[test]
fn startup_copy_matches_expected_values() {
    assert_eq!(STARTUP_ERROR_TITLE, "KnockKnock — Startup Error");
    assert_eq!(
        STARTUP_WRITABLE_LOCATION_GUIDANCE,
        "Move KnockKnock to a writable folder such as Desktop, Documents, or ~/Applications, then start it again."
    );
}
