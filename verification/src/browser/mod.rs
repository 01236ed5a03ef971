//! Installed-browser discovery, running-state checks and profile data collection.

pub mod types;
pub mod paths;
pub mod detection;
pub mod process;
pub mod collect;

pub use types::{
    BrowserDataType, BrowserProfile, BrowserRunningCheck, BrowserRunningState, BrowserRunningStatus,
    BrowserShredRequest, DetectedBrowser,
};
