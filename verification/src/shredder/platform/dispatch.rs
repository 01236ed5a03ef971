//! The storage class of a path on the host platform.

use vstd::prelude::*;
use crate::drive::info::DriveType;
use crate::drive::linux::LinuxDriveProbe;
use crate::drive::macos::MacDriveProbe;
use crate::drive::windows::WindowsDriveProbe;
use crate::shredder::errors::ShredError;
use crate::shredder::root_execution::plan::MediaClassifier;
use crate::shredder::types::MediaType;

verus! {

/// The storage class a drive class counts as: USB drives by their medium,
/// network and unknown drives conservatively as unknown.
pub open spec fn media_of(drive_type: DriveType) -> MediaType {
    match drive_type {
        DriveType::Hdd | DriveType::UsbHdd => MediaType::Hdd,
        DriveType::Ssd | DriveType::UsbSsd => MediaType::Ssd,
        DriveType::Network | DriveType::Unknown => MediaType::Unknown,
    }
}

/// The storage class a drive class counts as.
pub fn map_drive_type(drive_type: DriveType) -> (r: MediaType)
    ensures
        r == media_of(drive_type),
{
    match drive_type {
        DriveType::Hdd | DriveType::UsbHdd => MediaType::Hdd,
        DriveType::Ssd | DriveType::UsbSsd => MediaType::Ssd,
        DriveType::Network | DriveType::Unknown => MediaType::Unknown,
    }
}

/// Only confirmed magnetic drives count as magnetic storage.
pub proof fn lemma_only_hard_disks_are_hdd(drive_type: DriveType)
    ensures
        media_of(drive_type) == MediaType::Hdd <==> (drive_type == DriveType::Hdd || drive_type == DriveType::UsbHdd),
{
}

/// Tells the storage class of a path. Nothing is assumed of what an
/// implementation returns.
pub trait PlatformIo {
    fn detect_media_type(&self, path: &str) -> Result<MediaType, ShredError>;
}

/// The desktop systems the application runs on.
#[derive(Debug, Clone, Copy, PartialEq, Eq, Structural)]
pub enum HostPlatform {
    Linux,
    MacOs,
    Windows,
}

/// The platform glue of the host system.
pub struct HostIo<P> {
    os: HostPlatform,
    probe: P,
}

/// The platform glue of a host system, querying it through `probe`.
pub fn create_platform_io<P: LinuxDriveProbe + MacDriveProbe + WindowsDriveProbe>(os: HostPlatform, probe: P) -> (r: HostIo<P>)
    ensures
        r.platform() == os,
{
    HostIo { os, probe }
}

impl<P> HostIo<P> {
    /// The host system.
    pub closed spec fn platform(&self) -> HostPlatform {
        self.os
    }
}

impl<P: LinuxDriveProbe + MacDriveProbe + WindowsDriveProbe> PlatformIo for HostIo<P> {
    /// The storage class of the drive holding the path; a drive that cannot
    /// be detected is of unknown class. Never an error.
    fn detect_media_type(&self, path: &str) -> (r: Result<MediaType, ShredError>)
        ensures
            r is Ok,
    {
        let detected = match self.os {
            HostPlatform::Linux => crate::drive::linux::detect_drive_info(path, &self.probe),
            HostPlatform::MacOs => crate::drive::macos::detect_drive_info(path, &self.probe),
            HostPlatform::Windows => crate::drive::windows::detect_drive_info(path, &self.probe),
        };
        match detected {
            Ok(info) => Ok(map_drive_type(info.drive_type)),
            Err(_) => Ok(MediaType::Unknown),
        }
    }
}

impl<P: LinuxDriveProbe + MacDriveProbe + WindowsDriveProbe> MediaClassifier for HostIo<P> {
    /// The storage class of the drive holding the path; never an error.
    fn classify(&self, path: &str) -> (r: Result<MediaType, ShredError>)
        ensures
            r is Ok,
    {
        self.detect_media_type(path)
    }
}

} // verus!
