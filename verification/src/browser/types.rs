//! Browser data model shared with the user interface.

use vstd::prelude::*;
use crate::shredder::types::{DeletionMethod, WriteCheck};

verus! {

/// One profile directory of an installed browser.
#[derive(Debug, Clone)]
pub struct BrowserProfile {
    pub id: String,
    pub name: String,
    pub path: String,
    pub size: u64,
    pub selected: bool,
}

/// An installed browser with at least one profile.
#[derive(Debug, Clone)]
pub struct DetectedBrowser {
    pub id: String,
    pub name: String,
    pub icon: String,
    pub running_state: BrowserRunningStatus,
    pub profiles: Vec<BrowserProfile>,
}

/// Whether cleanup of a browser's local data can be permitted. Only `Closed`
/// permits it; `Running` and `Unknown` both block it.
#[derive(Debug, Clone, Copy, PartialEq, Eq, Structural)]
pub enum BrowserRunningStatus {
    Closed,
    Running,
    Unknown,
}

/// A kind of browser data that can be removed.
#[derive(Debug, Clone, Copy, PartialEq, Eq, Structural)]
pub enum BrowserDataType {
    Profile,
    Cache,
    Cookies,
    History,
    Passwords,
    Extensions,
}

/// Request to destroy selected data of one browser profile. Consent to
/// destruction is never consent to deleting data while the browser runs.
#[derive(Debug, Clone)]
pub struct BrowserShredRequest {
    /// Configured browser identity, checked against the browser table.
    pub browser_id: String,
    pub browser_name: String,
    pub profile_path: String,
    pub data_types: Vec<BrowserDataType>,
    pub method: DeletionMethod,
    pub write_check: WriteCheck,
}

/// Request for the current running state of an already discovered browser.
#[derive(Debug, Clone)]
pub struct BrowserRunningCheck {
    pub browser_id: String,
    pub profile_paths: Vec<String>,
}

/// Current running state of one browser.
#[derive(Debug, Clone)]
pub struct BrowserRunningState {
    pub browser_id: String,
    pub state: BrowserRunningStatus,
}

} // verus!
