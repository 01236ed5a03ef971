//! Windows: the media query.

use vstd::prelude::*;
use crate::drive::windows::WindowsDriveProbe;
use crate::shredder::errors::ShredError;
use crate::shredder::platform::dispatch::{map_drive_type, PlatformIo};
use crate::shredder::types::MediaType;

verus! {

/// The Windows platform glue.
pub struct WindowsIo<P: WindowsDriveProbe> {
    probe: P,
}

impl<P: WindowsDriveProbe> WindowsIo<P> {
    /// Glue querying the host through `probe`.
    pub fn new(probe: P) -> (r: Self)
        ensures
            r.probe() == probe,
    {
        WindowsIo { probe }
    }

    /// The probe the glue queries.
    pub closed spec fn probe(&self) -> P {
        self.probe
    }
}

impl<P: WindowsDriveProbe> PlatformIo for WindowsIo<P> {
    /// The storage class of the drive; a path without a drive is of unknown class.
    fn detect_media_type(&self, path: &str) -> (r: Result<MediaType, ShredError>)
        ensures
            r is Ok,
    {
        match crate::drive::windows::detect_drive_info(path, &self.probe) {
            Ok(info) => Ok(map_drive_type(info.drive_type)),
            Err(_) => Ok(MediaType::Unknown),
        }
    }
}

} // verus!
