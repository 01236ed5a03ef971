//! Linux: local-volume check by filesystem magic, and the media query.

use vstd::prelude::*;
use crate::drive::linux::LinuxDriveProbe;
use crate::shredder::errors::ShredError;
use crate::shredder::platform::dispatch::{map_drive_type, PlatformIo};
use crate::shredder::types::MediaType;

verus! {

/// The filesystem magics of network and user-space filesystems: AFS, Coda,
/// CIFS, SMB2, NCP, FUSE, NFS, SMB, Ceph and 9p.
pub open spec fn denied_magic(t: u64) -> bool {
    t == 0x5346_414F || t == 0x7375_7245 || t == 0xFF53_4D42 || t == 0xFE53_4D42 || t == 0x0000_564C
        || t == 0x6573_5546 || t == 0x0000_6969 || t == 0x0000_517B || t == 0x00C3_6400 || t == 0x0102_1997
}

/// Network and user-space volumes are refused and local ones are not: AFS
/// (0x5346414F), Coda (0x73757245), NCP (0x564C), NFS (0x6969), SMB
/// (0x517B), CIFS (0xFF534D42), SMB2 (0xFE534D42), FUSE (0x65735546), Ceph
/// (0x00C36400) and 9p (0x01021997) are denied; ext4
/// (0xEF53), XFS (0x58465342), Btrfs (0x9123683E) and tmpfs (0x01021994)
/// are not.
pub proof fn lemma_network_volumes_denied(t: u64)
    ensures
        t == 0x5346_414F || t == 0x7375_7245 || t == 0x564C || t == 0x6969 || t == 0x517B || t == 0xFF53_4D42 || t == 0xFE53_4D42 || t == 0x6573_5546 || t == 0x00C3_6400
            || t == 0x0102_1997 ==> denied_magic(t),
        t == 0xEF53 || t == 0x5846_5342 || t == 0x9123_683E || t == 0x0102_1994 ==> !denied_magic(t),
{
}

/// Whether a filesystem magic belongs to a network or user-space filesystem.
pub fn is_denied_filesystem_magic(filesystem_type: u64) -> (r: bool)
    ensures
        r == denied_magic(filesystem_type),
{
    let denied: Vec<u64> = vec![
        0x5346_414F, 0x7375_7245, 0xFF53_4D42, 0xFE53_4D42, 0x0000_564C, 0x6573_5546, 0x0000_6969, 0x0000_517B,
        0x00C3_6400, 0x0102_1997,
    ];
    let mut i: usize = 0;
    while i < denied.len()
        invariant
            i <= denied@.len(),
            denied@ == seq![0x5346_414Fu64, 0x7375_7245, 0xFF53_4D42, 0xFE53_4D42, 0x0000_564C, 0x6573_5546, 0x0000_6969, 0x0000_517B, 0x00C3_6400, 0x0102_1997],
            forall|k: int| 0 <= k < i ==> denied@[k] != filesystem_type,
        decreases denied.len() - i,
    {
        if denied[i] == filesystem_type {
            return true;
        }
        i = i + 1;
    }
    false
}

/// The local-volume rule on Linux, given the volume's filesystem magic as a
/// `statfs` reported it: network and user-space filesystems are refused.
pub fn ensure_local_volume(path: &str, filesystem_type: Result<u64, ShredError>) -> (r: Result<(), ShredError>)
    ensures
        filesystem_type matches Err(e) ==> r == Err::<(), ShredError>(e),
        filesystem_type matches Ok(t) ==> (r is Ok <==> !denied_magic(t)),
        filesystem_type matches Ok(t) ==> (denied_magic(t) ==> (r matches Err(ShredError::NetworkDrive(p)) && p@ == path@)),
{
    let t = filesystem_type?;
    if is_denied_filesystem_magic(t) {
        return Err(ShredError::NetworkDrive(String::from_str(path)));
    }
    Ok(())
}

/// The Linux platform glue.
pub struct LinuxIo<P: LinuxDriveProbe> {
    probe: P,
}

impl<P: LinuxDriveProbe> LinuxIo<P> {
    /// Glue querying the host through `probe`.
    pub fn new(probe: P) -> (r: Self)
        ensures
            r.probe() == probe,
    {
        LinuxIo { probe }
    }

    /// The probe the glue queries.
    pub closed spec fn probe(&self) -> P {
        self.probe
    }
}

impl<P: LinuxDriveProbe> PlatformIo for LinuxIo<P> {
    fn detect_media_type(&self, path: &str) -> (r: Result<MediaType, ShredError>)
        ensures
            r is Ok,
    {
        match crate::drive::linux::detect_drive_info(path, &self.probe) {
            Ok(info) => Ok(map_drive_type(info.drive_type)),
            Err(_) => Ok(MediaType::Unknown),
        }
    }
}

} // verus!
