//! The session with the display server, as the plain values that the capture
//! logic reads: the screen that was selected and its root window. The handle
//! itself stays with whoever performs the calls.

use vstd::prelude::*;
use vstd::string::StringSliceAdditionalSpecFns;
use crate::error::{ConnectError, GeometryError};
use crate::geometry::Geometry;

verus! {

/// What the display server reported when the session was opened.
#[derive(Debug, Clone, Copy, PartialEq, Eq, Structural)]
pub struct Session {
    /// The default screen of the session.
    pub screen: i32,
    /// The root window of that screen.
    pub root: u64,
}

/// An open session: the numeric screen selector and the root window of that
/// screen.
#[derive(Debug, Clone, Copy, PartialEq, Eq, Structural)]
pub struct DisplayConnection {
    pub screen: i32,
    pub root: u64,
}

/// The answer to a geometry query: a status, zero on failure, and the
/// rectangle that was written back.
#[derive(Debug, Clone, Copy, PartialEq, Eq, Structural)]
pub struct GeometryReply {
    pub status: i32,
    pub x: i32,
    pub y: i32,
    pub width: u32,
    pub height: u32,
}

/// An address can be handed over as a C string when its bytes hold no zero.
pub open spec fn address_is_encodable(address: Option<&str>) -> bool {
    match address {
        None => true,
        Some(text) => !text.spec_bytes().contains(0u8),
    }
}

/// What `DisplayConnection::open` returns.
pub open spec fn spec_open(address: Option<&str>, reached: Option<Session>) -> Result<
    DisplayConnection,
    ConnectError,
> {
    if !address_is_encodable(address) {
        Err(ConnectError::InvalidAddress)
    } else {
        match reached {
            None => Err(ConnectError::Unreachable),
            Some(session) => Ok(DisplayConnection { screen: session.screen, root: session.root }),
        }
    }
}

/// What `DisplayConnection::query_geometry` returns.
pub open spec fn spec_query_geometry(reply: GeometryReply) -> Result<Geometry, GeometryError> {
    if reply.status == 0 {
        Err(GeometryError::QueryFailed)
    } else {
        Ok(Geometry { x: reply.x, y: reply.y, width: reply.width, height: reply.height })
    }
}

impl DisplayConnection {
    /// Checks an address before the session is opened. `None` stands for the
    /// session that the environment names, and is always accepted.
    pub fn check_address(address: Option<&str>) -> (checked: Result<(), ConnectError>)
        ensures
            address_is_encodable(address) ==> checked == Ok::<(), ConnectError>(()),
            !address_is_encodable(address) ==> checked == Err::<(), ConnectError>(
                ConnectError::InvalidAddress,
            ),
    {
        match address {
            None => Ok(()),
            Some(text) => {
                let bytes = text.as_bytes();
                let mut i: usize = 0;
                while i < bytes.len()
                    invariant
                        address == Some(text),
                        i <= bytes@.len(),
                        bytes@ == text.spec_bytes(),
                        forall|j: int| 0 <= j < i ==> bytes@[j] != 0,
                    decreases bytes@.len() - i,
                {
                    if bytes[i] == 0 {
                        assert(bytes@.contains(0u8));
                        return Err(ConnectError::InvalidAddress);
                    }
                    i = i + 1;
                }
                Ok(())
            },
        }
    }

    /// Decides how opening a session ended. `reached` is what the display
    /// server reported, or `None` when it gave no handle. An address that
    /// cannot be encoded is refused whatever was reached.
    pub fn open(address: Option<&str>, reached: Option<Session>) -> (connection: Result<
        DisplayConnection,
        ConnectError,
    >)
        ensures
            connection == spec_open(address, reached),
    {
        match DisplayConnection::check_address(address) {
            Err(e) => Err(e),
            Ok(_) => match reached {
                None => Err(ConnectError::Unreachable),
                Some(session) => Ok(
                    DisplayConnection { screen: session.screen, root: session.root },
                ),
            },
        }
    }

    /// The screen that this session captures from.
    pub fn default_screen(&self) -> (screen: i32)
        ensures
            screen == self.screen,
    {
        self.screen
    }

    /// The root window of the session's screen.
    pub fn root_window(&self) -> (window: u64)
        ensures
            window == self.root,
    {
        self.root
    }

    /// Reads the answer to a geometry query: a zero status means that the
    /// window is invalid or destroyed.
    pub fn query_geometry(reply: &GeometryReply) -> (geometry: Result<Geometry, GeometryError>)
        ensures
            geometry == spec_query_geometry(*reply),
    {
        if reply.status == 0 {
            Err(GeometryError::QueryFailed)
        } else {
            Ok(Geometry { x: reply.x, y: reply.y, width: reply.width, height: reply.height })
        }
    }
}

} // verus!
