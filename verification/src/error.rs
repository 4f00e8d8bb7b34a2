//! The error taxonomy of the capture engine.

use vstd::prelude::*;
use vstd::std_specs::convert::FromSpecImpl;

verus! {

/// Why a session could not be opened.
#[derive(Debug, Clone, Copy, PartialEq, Eq, Structural)]
pub enum ConnectError {
    /// The display server did not answer.
    Unreachable,
    /// The address cannot be handed to the display server as a C string.
    InvalidAddress,
}

/// Why a window's geometry could not be read.
#[derive(Debug, Clone, Copy, PartialEq, Eq, Structural)]
pub enum GeometryError {
    /// The window is invalid or was destroyed.
    QueryFailed,
}

/// Why a capture source names no rectangle.
#[derive(Debug, Clone, Copy, PartialEq, Eq, Structural)]
pub enum ResolveError {
    /// The window is not known to the display server.
    NoSuchWindow,
    /// The monitor index is not below the number of monitors.
    MonitorIndexOutOfRange,
}

/// Possible errors when capturing.
#[derive(Debug, Clone, Copy, PartialEq, Eq, Structural)]
pub enum CaptureError {
    /// The display server returned no image for the request.
    RequestFailed,
    /// The image came in a pixel layout that cannot be decoded.
    WrongPixelLayout,
    /// The display server has no shared-memory extension.
    ShmUnavailable,
    /// The native image or the shared segment could not be allocated.
    AllocFailed,
    /// The display server could not attach the shared segment.
    AttachFailed,
}

/// Any failure met while a capturer is constructed.
#[derive(Debug, Clone, Copy, PartialEq, Eq, Structural)]
pub enum InitError {
    Connect(ConnectError),
    Geometry(GeometryError),
    Resolve(ResolveError),
    Capture(CaptureError),
}

impl CaptureError {
    /// The text of `message`.
    pub open spec fn spec_message(self) -> Seq<char> {
        match self {
            CaptureError::RequestFailed => "XGetImage returned null pointer"@,
            CaptureError::WrongPixelLayout => "Wrong layout"@,
            CaptureError::ShmUnavailable => "No shared memory extension"@,
            CaptureError::AllocFailed => "Shared memory allocation failed"@,
            CaptureError::AttachFailed => "Shared memory attach failed"@,
        }
    }

    /// A short description for logs and panics.
    pub fn message(&self) -> (text: &'static str)
        ensures
            text@ == self.spec_message(),
    {
        match self {
            CaptureError::RequestFailed => "XGetImage returned null pointer",
            CaptureError::WrongPixelLayout => "Wrong layout",
            CaptureError::ShmUnavailable => "No shared memory extension",
            CaptureError::AllocFailed => "Shared memory allocation failed",
            CaptureError::AttachFailed => "Shared memory attach failed",
        }
    }
}

impl From<ConnectError> for InitError {
    fn from(e: ConnectError) -> (r: InitError) {
        InitError::Connect(e)
    }
}

impl FromSpecImpl<ConnectError> for InitError {
    open spec fn obeys_from_spec() -> bool {
        true
    }

    open spec fn from_spec(e: ConnectError) -> InitError {
        InitError::Connect(e)
    }
}

impl From<GeometryError> for InitError {
    fn from(e: GeometryError) -> (r: InitError) {
        InitError::Geometry(e)
    }
}

impl FromSpecImpl<GeometryError> for InitError {
    open spec fn obeys_from_spec() -> bool {
        true
    }

    open spec fn from_spec(e: GeometryError) -> InitError {
        InitError::Geometry(e)
    }
}

impl From<ResolveError> for InitError {
    fn from(e: ResolveError) -> (r: InitError) {
        InitError::Resolve(e)
    }
}

impl FromSpecImpl<ResolveError> for InitError {
    open spec fn obeys_from_spec() -> bool {
        true
    }

    open spec fn from_spec(e: ResolveError) -> InitError {
        InitError::Resolve(e)
    }
}

impl From<CaptureError> for InitError {
    fn from(e: CaptureError) -> (r: InitError) {
        InitError::Capture(e)
    }
}

impl FromSpecImpl<CaptureError> for InitError {
    open spec fn obeys_from_spec() -> bool {
        true
    }

    open spec fn from_spec(e: CaptureError) -> InitError {
        InitError::Capture(e)
    }
}

} // verus!
