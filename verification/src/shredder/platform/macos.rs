//! macOS: local-volume check by mount flags, and the media query.

use vstd::prelude::*;
use crate::drive::macos::MacDriveProbe;
use crate::shredder::errors::ShredError;
use crate::shredder::platform::dispatch::{map_drive_type, PlatformIo};
use crate::shredder::types::MediaType;

verus! {

/// The `statfs` flag of a local volume.
pub const MNT_LOCAL: u32 = 0x0000_1000;

/// The local-volume rule on macOS, given the volume's mount flags as a
/// `statfs` reported them: a volume without the local flag is refused.
pub fn ensure_local_volume(path: &str, flags: Result<u32, ShredError>) -> (r: Result<(), ShredError>)
    ensures
        flags matches Err(e) ==> r == Err::<(), ShredError>(e),
        flags matches Ok(f) ==> (r is Ok <==> f & MNT_LOCAL != 0),
        flags matches Ok(f) ==> (f & MNT_LOCAL == 0 ==> (r matches Err(ShredError::NetworkDrive(p)) && p@ == path@)),
{
    let f = flags?;
    if f & MNT_LOCAL == 0 {
        return Err(ShredError::NetworkDrive(String::from_str(path)));
    }
    Ok(())
}

/// The macOS platform glue.
pub struct MacOsIo<P: MacDriveProbe> {
    probe: P,
}

impl<P: MacDriveProbe> MacOsIo<P> {
    /// Glue querying the host through `probe`.
    pub fn new(probe: P) -> (r: Self)
        ensures
            r.probe() == probe,
    {
        MacOsIo { probe }
    }

    /// The probe the glue queries.
    pub closed spec fn probe(&self) -> P {
        self.probe
    }
}

impl<P: MacDriveProbe> PlatformIo for MacOsIo<P> {
    fn detect_media_type(&self, path: &str) -> (r: Result<MediaType, ShredError>)
        ensures
            r is Ok,
    {
        match crate::drive::macos::detect_drive_info(path, &self.probe) {
            Ok(info) => Ok(map_drive_type(info.drive_type)),
            Err(_) => Ok(MediaType::Unknown),
        }
    }
}

} // verus!
