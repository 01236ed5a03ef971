//! Fixed user-interface text of the tray menu, notifications and startup errors.

use vstd::prelude::*;

verus! {

pub const TRAY_TOOLTIP: &'static str = "KnockKnock — Local Data Deletion";

pub const TRAY_DELETE_SELECTED: &'static str = "Delete Selected Targets";
pub const TRAY_CLEAR_CLIPBOARD: &'static str = "Clear Clipboard";
pub const TRAY_TOGGLE_WINDOW: &'static str = "Show/Hide Window";
pub const TRAY_SETTINGS: &'static str = "Settings";
pub const TRAY_QUIT: &'static str = "Quit";

pub const NOTIFICATION_OPERATION_IN_PROGRESS_TITLE: &'static str = "Operation in progress";
pub const NOTIFICATION_OPERATION_IN_PROGRESS_BODY: &'static str = "A deletion operation is already in progress.";

pub const NOTIFICATION_CLIPBOARD_CLEARED_TITLE: &'static str = "Clipboard cleared";
pub const NOTIFICATION_CLIPBOARD_CLEARED_BODY: &'static str = "Current clipboard contents were cleared.";

pub const NOTIFICATION_CLIPBOARD_ERROR_TITLE: &'static str = "Clipboard error";
pub const NOTIFICATION_CLIPBOARD_ERROR_BODY: &'static str = "Could not access the system clipboard.";

pub const STARTUP_ERROR_TITLE: &'static str = "KnockKnock — Startup Error";
pub const STARTUP_WRITABLE_LOCATION_GUIDANCE: &'static str =
    "Move KnockKnock to a writable folder such as Desktop, Documents, or ~/Applications, then start it again.";

} // verus!
