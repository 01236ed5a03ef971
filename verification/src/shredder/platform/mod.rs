//! Platform glue: media classification of a path and local-volume checks.

pub mod common;
pub mod dispatch;
pub mod linux;
pub mod macos;
pub mod windows;

pub use dispatch::{create_platform_io, map_drive_type, HostIo, HostPlatform, PlatformIo};
