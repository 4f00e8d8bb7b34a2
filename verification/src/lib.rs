//! Frame capture core for an X11 session.
//!
//! The library holds the logic of screen capture and none of its calls: a
//! driver talks to the display server and hands over what came back, as
//! plain values.
//!
//! - `connection`: how opening a session and a geometry query ended.
//! - `geometry`, `resolve`: from a capture source to the rectangle to
//!   capture.
//! - `mask`, `pixel`, `color`: from a native pixel layout to canonical
//!   colors.
//! - `frame`: from a native image to a captured image.
//! - `shm`: the life of a frame buffer shared with the display server.
//! - `capturer`: one rectangle of one session and the strategy by which its
//!   frames are taken.
//! - `error`: what can fail.

pub mod capturer;
pub mod color;
pub mod connection;
pub mod error;
pub mod frame;
pub mod geometry;
pub mod mask;
pub mod pixel;
pub mod resolve;
pub mod shm;

pub use crate::capturer::{Capturer, Frame};
pub use crate::color::Bgr8;
pub use crate::error::{CaptureError, InitError};
pub use crate::frame::Image;
pub use crate::geometry::{CaptureSource, Geometry};
