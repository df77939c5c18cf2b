//! The per-platform filesystem scan for a mounted camera volume. Only the
//! platforms' stubs live here; the platform dispatch and the transport
//! probing around them are the caller's concern.

use vstd::prelude::*;
use crate::error::AppError;

verus! {

/// A mounted camera volume: where its files are reached, and the identifier
/// the dedup cache keys on.
pub struct CameraInfo {
    pub mount_point: String,
    pub device_id: String,
}

/// The Linux filesystem scan. Not implemented: it reports an unsupported-OS
/// error rather than guessing at mount points.
pub fn scan_for_camera_fs_linux() -> (r: Result<CameraInfo, AppError>)
    ensures
        r matches Err(AppError::UnsupportedOS(m)) && m@
            == "Linux camera support not implemented yet"@,
{
    Err(AppError::UnsupportedOS("Linux camera support not implemented yet".to_owned()))
}

/// The Windows filesystem scan. Not implemented: it reports an
/// unsupported-OS error rather than guessing at drive letters.
pub fn scan_for_camera_fs_windows() -> (r: Result<CameraInfo, AppError>)
    ensures
        r matches Err(AppError::UnsupportedOS(m)) && m@
            == "Windows camera support not implemented yet"@,
{
    Err(AppError::UnsupportedOS("Windows camera support not implemented yet".to_owned()))
}

} // verus!
