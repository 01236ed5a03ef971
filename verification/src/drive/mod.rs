//! Storage-device classification of the volume a path lives on.

pub mod info;
pub mod linux;
pub mod macos;
pub mod windows;

pub use info::{detect_drive_info, placeholder_info, DriveInfo, DriveType};
