//! The error taxonomy of the sync engine, and its mapping to UI statuses.
//!
//! Failures of outside collaborators (HTTP transport, filesystem, JSON) are
//! carried as plain text plus the distinctions the status mapping needs.

use vstd::prelude::*;
use vstd::string::*;
use crate::ipc::IoFailure;
use crate::ipc::IpcStatus;
use crate::strutil::spec_decimal_digits;
use crate::strutil::u64_to_string;

verus! {

/// Every failure the sync engine can report.
pub enum AppError {
    /// No OAuth configuration is stored; login must run first.
    OAuthConfigNotFound,
    AuthenticationFailed(String),
    /// The device code expired before the user authorized the client.
    DeviceCodeExpired,
    NotAuthenticated,
    /// An API call failed with an HTTP status.
    ApiRequest { status: u16, message: String },
    ApiNotInitialized,
    ApiParseFailed(String),
    CacheRead { file: String, kind: IoFailure },
    CacheWrite { file: String, kind: IoFailure },
    CacheNotFound(String),
    CameraNotFound,
    CameraUnavailable,
    CameraOperation(String),
    UnsupportedOS(String),
    UploadFailed(String),
    /// A transport-level network failure, with the distinctions the status
    /// mapping needs.
    Network { message: String, timeout: bool, connect: bool },
    NetworkTimeout,
    JsonSerialization(String),
    Io(IoFailure),
    InvalidArgument(String),
    Conflict(String),
    Internal(String),
}

impl AppError {
    /// The status this error presents to the UI layer.
    pub open spec fn spec_to_ipc_status(self) -> IpcStatus {
        match self {
            AppError::NotAuthenticated
            | AppError::OAuthConfigNotFound
            | AppError::AuthenticationFailed(_)
            | AppError::DeviceCodeExpired => IpcStatus::NotAuthenticated,
            AppError::ApiRequest { status, .. } => if status == 401 {
                IpcStatus::NotAuthenticated
            } else if status == 403 {
                IpcStatus::NotAuthorized
            } else if status == 404 {
                IpcStatus::NotFound
            } else if status == 409 {
                IpcStatus::Conflict
            } else if status == 418 {
                IpcStatus::ImATeapot
            } else if status == 503 {
                IpcStatus::Unavailable
            } else if 400 <= status <= 499 {
                IpcStatus::InvalidArgument
            } else {
                IpcStatus::InternalError
            },
            AppError::CacheNotFound(_) | AppError::CameraNotFound => IpcStatus::NotFound,
            AppError::InvalidArgument(_) => IpcStatus::InvalidArgument,
            AppError::Conflict(_) => IpcStatus::Conflict,
            AppError::ApiNotInitialized
            | AppError::CameraUnavailable
            | AppError::NetworkTimeout => IpcStatus::Unavailable,
            AppError::Network { timeout, connect, .. } => if timeout || connect {
                IpcStatus::Unavailable
            } else {
                IpcStatus::InternalError
            },
            AppError::Io(kind) => IpcStatus::spec_from_io(kind),
            AppError::CacheRead { kind, .. } => IpcStatus::spec_from_io(kind),
            AppError::CacheWrite { kind, .. } => IpcStatus::spec_from_io(kind),
            _ => IpcStatus::InternalError,
        }
    }

    /// Map this error to the status presented to the UI layer.
    pub fn to_ipc_status(&self) -> (r: IpcStatus)
        ensures
            r == self.spec_to_ipc_status(),
    {
        match self {
            AppError::NotAuthenticated
            | AppError::OAuthConfigNotFound
            | AppError::AuthenticationFailed(_)
            | AppError::DeviceCodeExpired => IpcStatus::NotAuthenticated,
            AppError::ApiRequest { status, .. } => {
                let s = *status;
                if s == 401 {
                    IpcStatus::NotAuthenticated
                } else if s == 403 {
                    IpcStatus::NotAuthorized
                } else if s == 404 {
                    IpcStatus::NotFound
                } else if s == 409 {
                    IpcStatus::Conflict
                } else if s == 418 {
                    IpcStatus::ImATeapot
                } else if s == 503 {
                    IpcStatus::Unavailable
                } else if 400 <= s && s <= 499 {
                    IpcStatus::InvalidArgument
                } else {
                    IpcStatus::InternalError
                }
            },
            AppError::CacheNotFound(_) | AppError::CameraNotFound => IpcStatus::NotFound,
            AppError::InvalidArgument(_) => IpcStatus::InvalidArgument,
            AppError::Conflict(_) => IpcStatus::Conflict,
            AppError::ApiNotInitialized
            | AppError::CameraUnavailable
            | AppError::NetworkTimeout => IpcStatus::Unavailable,
            AppError::Network { timeout, connect, .. } => {
                if *timeout || *connect {
                    IpcStatus::Unavailable
                } else {
                    IpcStatus::InternalError
                }
            },
            AppError::Io(kind) => IpcStatus::from_io(*kind),
            AppError::CacheRead { kind, .. } => IpcStatus::from_io(*kind),
            AppError::CacheWrite { kind, .. } => IpcStatus::from_io(*kind),
            AppError::ApiParseFailed(_)
            | AppError::CameraOperation(_)
            | AppError::UnsupportedOS(_)
            | AppError::UploadFailed(_)
            | AppError::JsonSerialization(_)
            | AppError::Internal(_) => IpcStatus::InternalError,
        }
    }
}

impl AppError {
    /// The error's message text.
    pub open spec fn spec_message(self) -> Seq<char> {
        match self {
            AppError::OAuthConfigNotFound => "OAuth configuration not found. Please run login first."@,
            AppError::AuthenticationFailed(s) => "Authentication failed: "@ + s@,
            AppError::DeviceCodeExpired => "Device code expired. Please try again."@,
            AppError::NotAuthenticated => "Not authenticated. Please log in."@,
            AppError::ApiRequest { status, message } => "API request failed: "@
                + spec_decimal_digits(status as int) + " - "@ + message@,
            AppError::ApiNotInitialized => "API not initialized. Please authenticate first."@,
            AppError::ApiParseFailed(s) => "Failed to parse API response: "@ + s@,
            AppError::CacheRead { file, kind } => "Failed to read cache file '"@ + file@ + "': "@
                + kind.spec_message(),
            AppError::CacheWrite { file, kind } => "Failed to write cache file '"@ + file@
                + "': "@ + kind.spec_message(),
            AppError::CacheNotFound(s) => "Cache file not found: "@ + s@,
            AppError::CameraNotFound => "No camera found"@,
            AppError::CameraUnavailable => "Camera unavailable (possibly claimed by another app)"@,
            AppError::CameraOperation(s) => "Camera operation failed: "@ + s@,
            AppError::UnsupportedOS(s) => "Unsupported OS: "@ + s@,
            AppError::UploadFailed(s) => "Upload failed: "@ + s@,
            AppError::Network { message, .. } => "Network request failed: "@ + message@,
            AppError::NetworkTimeout => "Network timeout"@,
            AppError::JsonSerialization(s) => "JSON serialization failed: "@ + s@,
            AppError::Io(kind) => "I/O error: "@ + kind.spec_message(),
            AppError::InvalidArgument(s) => "Invalid argument: "@ + s@,
            AppError::Conflict(s) => "Resource conflict: "@ + s@,
            AppError::Internal(s) => "Internal error: "@ + s@,
        }
    }

    /// The error's message text.
    pub fn message(&self) -> (r: String)
        ensures
            r@ == self.spec_message(),
    {
        match self {
            AppError::OAuthConfigNotFound => "OAuth configuration not found. Please run login first.".to_owned(),
            AppError::AuthenticationFailed(s) => "Authentication failed: ".to_owned().concat(
                s.as_str(),
            ),
            AppError::DeviceCodeExpired => "Device code expired. Please try again.".to_owned(),
            AppError::NotAuthenticated => "Not authenticated. Please log in.".to_owned(),
            AppError::ApiRequest { status, message } => {
                let digits = u64_to_string(*status as u64);
                "API request failed: ".to_owned().concat(digits.as_str()).concat(" - ").concat(
                    message.as_str(),
                )
            },
            AppError::ApiNotInitialized => "API not initialized. Please authenticate first.".to_owned(),
            AppError::ApiParseFailed(s) => "Failed to parse API response: ".to_owned().concat(
                s.as_str(),
            ),
            AppError::CacheRead { file, kind } => "Failed to read cache file '".to_owned().concat(
                file.as_str(),
            ).concat("': ").concat(kind.message()),
            AppError::CacheWrite { file, kind } => "Failed to write cache file '".to_owned()
                .concat(file.as_str()).concat("': ").concat(kind.message()),
            AppError::CacheNotFound(s) => "Cache file not found: ".to_owned().concat(s.as_str()),
            AppError::CameraNotFound => "No camera found".to_owned(),
            AppError::CameraUnavailable => "Camera unavailable (possibly claimed by another app)".to_owned(),
            AppError::CameraOperation(s) => "Camera operation failed: ".to_owned().concat(
                s.as_str(),
            ),
            AppError::UnsupportedOS(s) => "Unsupported OS: ".to_owned().concat(s.as_str()),
            AppError::UploadFailed(s) => "Upload failed: ".to_owned().concat(s.as_str()),
            AppError::Network { message, .. } => "Network request failed: ".to_owned().concat(
                message.as_str(),
            ),
            AppError::NetworkTimeout => "Network timeout".to_owned(),
            AppError::JsonSerialization(s) => "JSON serialization failed: ".to_owned().concat(
                s.as_str(),
            ),
            AppError::Io(kind) => "I/O error: ".to_owned().concat(kind.message()),
            AppError::InvalidArgument(s) => "Invalid argument: ".to_owned().concat(s.as_str()),
            AppError::Conflict(s) => "Resource conflict: ".to_owned().concat(s.as_str()),
            AppError::Internal(s) => "Internal error: ".to_owned().concat(s.as_str()),
        }
    }
}

} // verus!
