//! Status codes and error records crossing the boundary to the UI layer.

use vstd::prelude::*;

verus! {

/// Status of a response handed to the UI layer.
#[derive(Clone, Copy, Debug, PartialEq, Eq, Hash, Structural)]
pub enum IpcStatus {
    Success,
    Accepted,
    InvalidArgument,
    Conflict,
    NotAuthenticated,
    NotAuthorized,
    NotFound,
    ImATeapot,
    Unavailable,
    InternalError,
}

/// The commands the UI layer may invoke.
#[derive(Clone, Copy, Debug, PartialEq, Eq, Hash, Structural)]
pub enum IpcCommand {
    MakeRequest,
    Login,
    Logout,
    GetCamera,
    GetFiles,
    GetSettings,
    UploadFiles,
}

/// The classes of I/O failure the status mapping distinguishes.
#[derive(Clone, Copy, Debug, PartialEq, Eq, Structural)]
pub enum IoFailure {
    NotFound,
    PermissionDenied,
    ConnectionRefused,
    ConnectionReset,
    Other,
}

impl IoFailure {
    /// A short description of the failure class.
    pub open spec fn spec_message(self) -> Seq<char> {
        match self {
            IoFailure::NotFound => "not found"@,
            IoFailure::PermissionDenied => "permission denied"@,
            IoFailure::ConnectionRefused => "connection refused"@,
            IoFailure::ConnectionReset => "connection reset"@,
            IoFailure::Other => "I/O error"@,
        }
    }

    /// A short description of the failure class.
    pub fn message(&self) -> (r: &'static str)
        ensures
            r@ == self.spec_message(),
    {
        match self {
            IoFailure::NotFound => "not found",
            IoFailure::PermissionDenied => "permission denied",
            IoFailure::ConnectionRefused => "connection refused",
            IoFailure::ConnectionReset => "connection reset",
            IoFailure::Other => "I/O error",
        }
    }
}

impl IpcStatus {
    /// The status an I/O failure maps to.
    pub open spec fn spec_from_io(kind: IoFailure) -> IpcStatus {
        match kind {
            IoFailure::NotFound => IpcStatus::NotFound,
            IoFailure::PermissionDenied => IpcStatus::NotAuthorized,
            IoFailure::ConnectionRefused => IpcStatus::Unavailable,
            IoFailure::ConnectionReset => IpcStatus::Unavailable,
            IoFailure::Other => IpcStatus::InternalError,
        }
    }

    /// Map an I/O failure to the status presented to the UI layer.
    pub fn from_io(kind: IoFailure) -> (r: IpcStatus)
        ensures
            r == IpcStatus::spec_from_io(kind),
    {
        match kind {
            IoFailure::NotFound => IpcStatus::NotFound,
            IoFailure::PermissionDenied => IpcStatus::NotAuthorized,
            IoFailure::ConnectionRefused => IpcStatus::Unavailable,
            IoFailure::ConnectionReset => IpcStatus::Unavailable,
            IoFailure::Other => IpcStatus::InternalError,
        }
    }

    /// The default human-readable text for this status.
    pub open spec fn spec_default_message(self) -> Seq<char> {
        match self {
            IpcStatus::Success => "Ok"@,
            IpcStatus::Accepted => "Accepted"@,
            IpcStatus::InvalidArgument => "Invalid argument"@,
            IpcStatus::Conflict => "Conflict"@,
            IpcStatus::NotAuthenticated => "User not logged in"@,
            IpcStatus::NotAuthorized => "User not authorized"@,
            IpcStatus::NotFound => "Resource not found"@,
            IpcStatus::ImATeapot => "\u{1fad6}"@,
            IpcStatus::Unavailable => "Resource Unavailable"@,
            IpcStatus::InternalError => "Internal Error. Please Contact OpenSpace"@,
        }
    }

    /// The default human-readable text for this status.
    pub fn default_message(&self) -> (r: &'static str)
        ensures
            r@ == self.spec_default_message(),
    {
        match self {
            IpcStatus::Success => "Ok",
            IpcStatus::Accepted => "Accepted",
            IpcStatus::InvalidArgument => "Invalid argument",
            IpcStatus::Conflict => "Conflict",
            IpcStatus::NotAuthenticated => "User not logged in",
            IpcStatus::NotAuthorized => "User not authorized",
            IpcStatus::NotFound => "Resource not found",
            IpcStatus::ImATeapot => "\u{1fad6}",
            IpcStatus::Unavailable => "Resource Unavailable",
            IpcStatus::InternalError => "Internal Error. Please Contact OpenSpace",
        }
    }
}

/// An error whose status was fixed by the caller rather than derived.
pub struct IpcError {
    pub status: IpcStatus,
    pub message: String,
}

impl IpcError {
    /// An error with an explicit status and message.
    pub fn new(status: IpcStatus, message: String) -> (r: IpcError)
        ensures
            r.status == status,
            r.message == message,
    {
        IpcError { status, message }
    }

    /// An error from the engine's taxonomy, with its derived status and
    /// its message text.
    pub fn from_app_error(error: crate::error::AppError) -> (r: IpcError)
        ensures
            r.status == error.spec_to_ipc_status(),
            r.message@ == error.spec_message(),
    {
        let status = error.to_ipc_status();
        IpcError { status, message: error.message() }
    }

    /// The status of this error.
    pub fn status(&self) -> (r: IpcStatus)
        ensures
            r == self.status,
    {
        self.status
    }

    /// The error message.
    pub fn message(&self) -> (r: &str)
        ensures
            r@ == self.message@,
    {
        self.message.as_str()
    }
}

/// A bare message, as the body of an error response.
pub struct ErrorMessageWrapper {
    pub message: String,
}

impl vstd::std_specs::convert::FromSpecImpl<String> for ErrorMessageWrapper {
    open spec fn obeys_from_spec() -> bool {
        true
    }

    open spec fn from_spec(msg: String) -> Self {
        ErrorMessageWrapper { message: msg }
    }
}

impl From<String> for ErrorMessageWrapper {
    fn from(msg: String) -> Self {
        ErrorMessageWrapper { message: msg }
    }
}

} // verus!
