//! The capturer: one resolved rectangle of one session, and the strategy by
//! which its frames are taken.

use vstd::prelude::*;
use crate::color::Bgr8;
use crate::connection::DisplayConnection;
use crate::error::{CaptureError, InitError};
use crate::frame::{
    capture, lemma_capture_shape, reply_value, spec_capture, Image, NativeImage,
};
use crate::geometry::{CaptureSource, Geometry};
use crate::resolve::{resolve, spec_resolve, DisplayReport};
use crate::shm::{spec_outcome, SharedFrameBuffer, ShmAction, ShmEvent, ShmPhase, ShmState};

verus! {

/// A captured frame: in a buffer of its own, or on view in the capturer's
/// shared buffer until the next capture.
#[derive(Debug)]
pub enum Frame<'a> {
    Owned(Image),
    Borrowed(&'a Image),
}

impl<'a> Frame<'a> {
    /// The image that the frame shows.
    pub open spec fn image(self) -> Image {
        match self {
            Frame::Owned(image) => image,
            Frame::Borrowed(image) => *image,
        }
    }

    /// The pixels, row by row from the top, each row from the left.
    pub fn pixels(&self) -> (pixels: &[Bgr8])
        ensures
            pixels@ == self.image()@,
            pixels@.len() == self.image().spec_width() * self.image().spec_height(),
    {
        match self {
            Frame::Owned(image) => image.as_slice(),
            Frame::Borrowed(image) => image.as_slice(),
        }
    }

    /// Width and height, in pixels.
    pub fn dimensions(&self) -> (dimensions: (u32, u32))
        ensures
            dimensions.0 == self.image().spec_width(),
            dimensions.1 == self.image().spec_height(),
    {
        match self {
            Frame::Owned(image) => image.get_dimensions(),
            Frame::Borrowed(image) => image.get_dimensions(),
        }
    }
}

/// The request for the next frame: the window to read from, the rectangle,
/// and whether the image goes into the shared segment.
#[derive(Debug, Clone, Copy, PartialEq, Eq, Structural)]
pub struct ImageRequest {
    pub window: u64,
    pub x: i32,
    pub y: i32,
    pub width: u32,
    pub height: u32,
    pub shared: bool,
}

/// What `capture_frame` gives for a reply: a capturer whose shared buffer is
/// not attached cannot capture, every other one decodes the reply.
pub open spec fn spec_capture_frame(
    shared: Option<ShmState>,
    reply: Option<NativeImage>,
    geometry: Geometry,
) -> Result<Seq<Bgr8>, CaptureError> {
    match shared {
        Some(state) => if state.is_ready() {
            spec_capture(reply, geometry.width, geometry.height)
        } else {
            Err(CaptureError::RequestFailed)
        },
        None => spec_capture(reply, geometry.width, geometry.height),
    }
}

/// The shared state after a capture that succeeded or failed.
pub open spec fn shared_after_capture(shared: Option<ShmState>, succeeded: bool) -> Option<
    ShmState,
> {
    match shared {
        Some(state) => Some(state.after_capture(succeeded)),
        None => None,
    }
}

/// How a capturer takes its frames.
#[derive(Debug)]
enum Strategy {
    /// Each frame is fetched into a buffer of its own.
    Direct { geo: Geometry },
    /// Frames are taken through one buffer shared with the display server.
    Shared { buffer: SharedFrameBuffer },
}

/// Captures frames of one rectangle of the display.
#[derive(Debug)]
pub struct Capturer {
    connection: DisplayConnection,
    strategy: Strategy,
}

impl Capturer {
    /// The rectangle that is captured.
    pub closed spec fn geometry(&self) -> Geometry {
        match self.strategy {
            Strategy::Direct { geo } => geo,
            Strategy::Shared { buffer } => buffer.spec_state().geometry,
        }
    }

    /// The session that is captured from.
    pub closed spec fn connection(&self) -> DisplayConnection {
        self.connection
    }

    /// The state of the shared buffer, for a capturer that has one.
    pub closed spec fn shared_state(&self) -> Option<ShmState> {
        match self.strategy {
            Strategy::Direct { .. } => None,
            Strategy::Shared { buffer } => Some(buffer.spec_state()),
        }
    }

    /// The frame on view in the shared buffer, if there is one.
    pub closed spec fn shared_frame(&self) -> Option<Image> {
        match self.strategy {
            Strategy::Direct { .. } => None,
            Strategy::Shared { buffer } => buffer.spec_frame(),
        }
    }

    /// Makes a capturer that takes each frame into a buffer of its own.
    /// `report` holds what the display server answered to the query that the
    /// source needs.
    pub fn new(
        capture_src: CaptureSource,
        connection: DisplayConnection,
        report: &DisplayReport,
    ) -> (capturer: Result<Capturer, InitError>)
        ensures
            match spec_resolve(capture_src, report.geometry, report.monitors@) {
                Ok(geometry) => {
                    &&& capturer matches Ok(c)
                    &&& c.geometry() == geometry
                    &&& c.connection() == connection
                    &&& c.shared_state() is None
                },
                Err(e) => capturer matches Err(got) && got == InitError::Resolve(e),
            },
    {
        match resolve(report, capture_src) {
            Ok(geo) => Ok(Capturer { connection, strategy: Strategy::Direct { geo } }),
            Err(e) => Err(InitError::Resolve(e)),
        }
    }

    /// Makes a capturer that takes its frames through a shared buffer. The
    /// buffer is not set up yet: the driver performs `next_action` and
    /// reports with `handle` until the action is `Idle`, then reads
    /// `setup_outcome`.
    pub fn with_shared_memory(
        capture_src: CaptureSource,
        connection: DisplayConnection,
        report: &DisplayReport,
    ) -> (capturer: Result<Capturer, InitError>)
        ensures
            match spec_resolve(capture_src, report.geometry, report.monitors@) {
                Ok(geometry) => {
                    &&& capturer matches Ok(c)
                    &&& c.geometry() == geometry
                    &&& c.connection() == connection
                    &&& c.shared_state() == Some(ShmState::initial(geometry))
                    &&& c.shared_frame() is None
                },
                Err(e) => capturer matches Err(got) && got == InitError::Resolve(e),
            },
    {
        match resolve(report, capture_src) {
            Ok(geo) => Ok(
                Capturer {
                    connection,
                    strategy: Strategy::Shared { buffer: SharedFrameBuffer::setup(geo) },
                },
            ),
            Err(e) => Err(InitError::Resolve(e)),
        }
    }

    /// The rectangle that is captured.
    pub fn get_geometry(&self) -> (geometry: Geometry)
        ensures
            geometry == self.geometry(),
    {
        match &self.strategy {
            Strategy::Direct { geo } => *geo,
            Strategy::Shared { buffer } => buffer.state().geometry,
        }
    }

    /// The request to make for the next frame: the capturer's rectangle, read
    /// from the root window of its session.
    pub fn image_request(&self) -> (request: ImageRequest)
        ensures
            request == (ImageRequest {
                window: self.connection().root,
                x: self.geometry().x,
                y: self.geometry().y,
                width: self.geometry().width,
                height: self.geometry().height,
                shared: self.shared_state() is Some,
            }),
    {
        let geo = self.get_geometry();
        let shared = match &self.strategy {
            Strategy::Direct { .. } => false,
            Strategy::Shared { .. } => true,
        };
        ImageRequest {
            window: self.connection.root_window(),
            x: geo.x,
            y: geo.y,
            width: geo.width,
            height: geo.height,
            shared,
        }
    }

    /// Says what the driver has to do next for the shared buffer. A capturer
    /// without one never asks for anything.
    pub fn next_action(&self) -> (action: ShmAction)
        ensures
            action == match self.shared_state() {
                Some(state) => state.spec_next_action(),
                None => ShmAction::Idle,
            },
    {
        match &self.strategy {
            Strategy::Shared { buffer } => buffer.next_action(),
            Strategy::Direct { .. } => ShmAction::Idle,
        }
    }

    /// Takes in what happened when the driver performed an action.
    pub fn handle(&mut self, event: ShmEvent)
        ensures
            final(self).geometry() == old(self).geometry(),
            final(self).connection() == old(self).connection(),
            final(self).shared_state() == match old(self).shared_state() {
                Some(state) => Some(state.after(event)),
                None => None,
            },
            final(self).shared_frame() == if final(self).shared_state() matches Some(state)
                && state.phase == ShmPhase::Captured {
                old(self).shared_frame()
            } else {
                None
            },
    {
        match &mut self.strategy {
            Strategy::Shared { buffer } => {
                buffer.handle(event);
            },
            Strategy::Direct { .. } => {},
        }
    }

    /// How the setup of the capture strategy ended: `None` while the shared
    /// buffer is being set up. A capturer without a shared buffer is ready
    /// from the start.
    pub fn setup_outcome(&self) -> (outcome: Option<Result<(), InitError>>)
        ensures
            outcome == match self.shared_state() {
                None => Some(Ok::<(), InitError>(())),
                Some(state) => match spec_outcome(state) {
                    None => None,
                    Some(Ok(_)) => Some(Ok::<(), InitError>(())),
                    Some(Err(e)) => Some(Err::<(), InitError>(InitError::Capture(e))),
                },
            },
    {
        match &self.strategy {
            Strategy::Direct { .. } => Some(Ok(())),
            Strategy::Shared { buffer } => match buffer.outcome() {
                None => None,
                Some(Ok(_)) => Some(Ok(())),
                Some(Err(e)) => Some(Err(InitError::Capture(e))),
            },
        }
    }

    /// Takes in the reply to the image request and gives the frame: `None`
    /// when the display server returned no image, else the image. The frame
    /// has the capturer's size. With a shared buffer the frame is a view of
    /// the buffer, which the next capture writes over.
    pub fn capture_frame<'a>(&'a mut self, reply: Option<&NativeImage>) -> (frame: Result<
        Frame<'a>,
        CaptureError,
    >)
        ensures
            final(self).geometry() == old(self).geometry(),
            final(self).connection() == old(self).connection(),
            match spec_capture_frame(
                old(self).shared_state(),
                reply_value(reply),
                old(self).geometry(),
            ) {
                Ok(pixels) => {
                    &&& frame matches Ok(f)
                    &&& f.image()@ == pixels
                    &&& pixels.len() == old(self).geometry().area()
                    &&& f.image().spec_width() == old(self).geometry().width
                    &&& f.image().spec_height() == old(self).geometry().height
                    &&& f is Borrowed <==> old(self).shared_state() is Some
                    &&& f is Borrowed ==> final(self).shared_frame() == Some(f.image())
                    &&& final(self).shared_state() == shared_after_capture(
                        old(self).shared_state(),
                        true,
                    )
                },
                Err(e) => {
                    &&& frame matches Err(got)
                    &&& got == e
                    &&& final(self).shared_frame() is None
                    &&& final(self).shared_state() == shared_after_capture(
                        old(self).shared_state(),
                        false,
                    )
                },
            },
    {
        match &mut self.strategy {
            Strategy::Direct { geo } => match capture(reply, geo) {
                Ok(image) => Ok(Frame::Owned(image)),
                Err(e) => Err(e),
            },
            Strategy::Shared { buffer } => {
                let ghost geometry = buffer.spec_state().geometry;
                match buffer.capture(reply) {
                    Err(e) => Err(e),
                    Ok(_) => match buffer.frame() {
                        Some(image) => {
                            proof {
                                lemma_capture_shape(
                                    reply_value(reply),
                                    geometry.width,
                                    geometry.height,
                                );
                            }
                            Ok(Frame::Borrowed(image))
                        },
                        None => Err(CaptureError::RequestFailed),
                    },
                }
            },
        }
    }

    /// Begins the release of what the shared buffer holds. The driver then
    /// performs `next_action` and reports with `handle` until the action is
    /// `Idle`. A capturer without a shared buffer has nothing to release.
    pub fn teardown(&mut self)
        ensures
            final(self).geometry() == old(self).geometry(),
            final(self).connection() == old(self).connection(),
            final(self).shared_frame() is None,
            final(self).shared_state() == match old(self).shared_state() {
                Some(state) => Some(state.torn_down()),
                None => None,
            },
    {
        match &mut self.strategy {
            Strategy::Shared { buffer } => {
                buffer.teardown();
            },
            Strategy::Direct { .. } => {},
        }
    }
}

} // verus!
