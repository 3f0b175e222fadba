//! Request and response shapes of the HTTP surface around the throttle.
//!
//! The handlers that fill these from the network and the filesystem live with
//! the I/O; the types themselves carry plain values, and the compute parts of
//! the handlers that produce them are verified here.

use vstd::prelude::*;

verus! {

/// Identity record served by the device-info endpoint.
pub struct DeviceInfo {
    pub name: String,
    pub platform: String,
    pub ip: String,
    pub port: u16,
}

/// Query for the directory-listing endpoint: the directory to list.
pub struct FileListQuery {
    pub path: String,
}

/// One row of a directory listing.
pub struct FileEntry {
    pub name: String,
    pub is_dir: bool,
    pub size: u64,
    pub modified: u64,
}

/// Query naming one file, for the download and delete endpoints.
pub struct FilePathQuery {
    pub path: String,
}

/// Body of a directory-creation request.
pub struct MkdirRequest {
    pub path: String,
}

/// Body of a rename request.
pub struct RenameRequest {
    pub old_path: String,
    pub new_path: String,
}

/// Installer files available for download, by platform name.
pub struct InstallerInfo {
    pub available: Vec<String>,
}

impl DeviceInfo {
    /// Builds the identity record from the results of the hostname and
    /// local-address lookups: a lookup that failed is reported as "unknown".
    pub fn from_lookups(name: Option<String>, ip: Option<String>, platform: String, port: u16) -> (d:
        DeviceInfo)
        ensures
            d.platform@ == platform@,
            d.port == port,
            match name {
                Some(n) => d.name@ == n@,
                None => d.name@ == "unknown"@,
            },
            match ip {
                Some(i) => d.ip@ == i@,
                None => d.ip@ == "unknown"@,
            },
    {
        let name = match name {
            Some(n) => n,
            None => "unknown".to_owned(),
        };
        let ip = match ip {
            Some(i) => i,
            None => "unknown".to_owned(),
        };
        DeviceInfo { name, platform, ip, port }
    }
}

} // verus!
