//! Verified core of a local data deletion utility.

mod clock;
pub mod text;
pub mod pathname;
pub mod scan;
pub mod shredder;
pub mod browser;
pub mod drive;
pub mod pin;
pub mod vault;
pub mod native_ui_copy;
pub mod commands;
pub mod paths;
