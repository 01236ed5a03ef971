//! Where the portable data folder lives: next to the executable (next to the
//! `.app` bundle on macOS, next to the AppImage file on Linux).

use vstd::prelude::*;
use crate::pathname::{join, join_path, parent_of, parent_path};
use crate::shredder::platform::dispatch::HostPlatform;
use crate::text::{owned, seq_starts_with, str_starts_with};

verus! {

/// The parent of an optional path.
pub open spec fn parent_of_opt(p: Option<Seq<char>>) -> Option<Seq<char>> {
    match p {
        Some(q) => parent_of(q),
        None => None,
    }
}

/// The error reported when an executable has no parent directory.
pub open spec fn no_parent_message() -> Seq<char> {
    "Executable has no parent directory"@
}

/// The error reported when the `.app` bundle root cannot be found.
pub open spec fn no_bundle_message() -> Seq<char> {
    "Cannot resolve .app bundle root"@
}

/// The error reported when a Linux executable runs from a temporary
/// AppImage mount without the AppImage's own location.
pub open spec fn unmounted_appimage_message() -> Seq<char> {
    "AppImage is not running from a mounted location.\nSet APPIMAGE=/path/to/file.AppImage and relaunch."@
}

/// The application root for an executable path: its directory, or on macOS
/// the directory holding the `.app` bundle (three levels further up). On
/// Linux the directory of the AppImage file wins when it has one, and an
/// executable under a temporary AppImage mount is refused.
pub open spec fn app_root_of(exe: Seq<char>, os: HostPlatform, appimage: Option<Seq<char>>) -> Result<Seq<char>, Seq<char>> {
    match parent_of(exe) {
        None => Err(no_parent_message()),
        Some(dir) => match os {
            HostPlatform::MacOs => match parent_of_opt(parent_of_opt(parent_of(dir))) {
                Some(root) => Ok(root),
                None => Err(no_bundle_message()),
            },
            HostPlatform::Linux => match parent_of_opt(appimage) {
                Some(root) => Ok(root),
                None => if seq_starts_with(dir, "/tmp/.mount_"@) {
                    Err(unmounted_appimage_message())
                } else {
                    Ok(dir)
                },
            },
            HostPlatform::Windows => Ok(dir),
        },
    }
}

/// The text of an optional string.
pub open spec fn opt_text(s: Option<&str>) -> Option<Seq<char>> {
    match s {
        Some(t) => Some(t@),
        None => None,
    }
}

/// The application root for the executable at `exe` on `os`, given the
/// AppImage location the environment names, if any.
pub fn app_root_from(exe: &str, os: HostPlatform, appimage: Option<&str>) -> (r: Result<String, String>)
    ensures
        match app_root_of(exe@, os, opt_text(appimage)) {
            Ok(root) => r matches Ok(s) && s@ == root,
            Err(m) => r matches Err(s) && s@ == m,
        },
{
    let dir = match parent_path(exe) {
        Some(d) => d,
        None => return Err(owned("Executable has no parent directory")),
    };
    match os {
        HostPlatform::MacOs => {
            let up = match parent_path(dir.as_str()) {
                Some(a) => match parent_path(a.as_str()) {
                    Some(b) => parent_path(b.as_str()),
                    None => None,
                },
                None => None,
            };
            match up {
                Some(root) => Ok(root),
                None => Err(owned("Cannot resolve .app bundle root")),
            }
        },
        HostPlatform::Linux => {
            if let Some(a) = appimage {
                if let Some(root) = parent_path(a) {
                    return Ok(root);
                }
            }
            if str_starts_with(dir.as_str(), "/tmp/.mount_") {
                Err(owned("AppImage is not running from a mounted location.\nSet APPIMAGE=/path/to/file.AppImage and relaunch."))
            } else {
                Ok(dir)
            }
        },
        HostPlatform::Windows => Ok(dir),
    }
}

/// The data folder inside an application root.
pub fn data_dir_in(root: &str) -> (r: String)
    ensures
        r@ == join_path(root@, "KnockKnock-data"@),
{
    join(root, "KnockKnock-data")
}

} // verus!
