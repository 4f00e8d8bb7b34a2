//! The shared-memory capture strategy.
//!
//! A shared frame buffer owns three native resources: the image structure,
//! the memory segment, and the display server's attachment to the segment.
//! This module decides in which order they are acquired and released. The
//! calls themselves are made by a driver: it asks for the next action,
//! performs it, and reports what happened as an event.
//!
//! Setup acquires the image, then the segment, then the attachment. Release
//! always detaches first, then destroys the image, then releases the segment,
//! and skips what is not held. A failed setup step starts the release of what
//! was acquired so far.

use vstd::prelude::*;
use crate::error::CaptureError;
use crate::frame::{capture, reply_value, spec_capture, Image, NativeImage};
use crate::geometry::Geometry;

verus! {

/// Where a shared frame buffer stands in its life.
#[derive(Debug, Clone, Copy, PartialEq, Eq, Structural)]
pub enum ShmPhase {
    /// Nothing was asked of the display server yet.
    Uninitialized,
    /// The display server has the shared-memory extension.
    Probed,
    /// The native image structure exists.
    ImageCreated,
    /// The segment exists and is mapped.
    SegmentAllocated,
    /// The display server is attached; no frame is on view.
    Attached,
    /// The segment holds a captured frame that is on view.
    Captured,
    /// Resources are being released, after a teardown or a failed setup.
    Releasing,
    /// Nothing is held any more. This phase is never left.
    Detached,
}

/// What the driver has to do next.
#[derive(Debug, Clone, Copy, PartialEq, Eq, Structural)]
pub enum ShmAction {
    /// Ask whether the display server has the shared-memory extension.
    QueryExtension,
    /// Create the native image structure for a frame of this size.
    CreateImage { width: u32, height: u32 },
    /// Allocate and map a segment of this many bytes.
    AllocateSegment { size: u64 },
    /// Attach the display server to the segment.
    AttachSegment,
    /// Detach the display server from the segment.
    DetachSegment,
    /// Destroy the native image structure.
    DestroyImage,
    /// Unmap and remove the segment.
    ReleaseSegment,
    /// Nothing: the buffer is ready for captures, or it is gone.
    Idle,
}

/// What happened when the driver performed an action.
#[derive(Debug, Clone, Copy, PartialEq, Eq, Structural)]
pub enum ShmEvent {
    ExtensionQueried { available: bool },
    /// The image was created with this many bytes per row, or not at all.
    ImageCreated { bytes_per_line: Option<u32> },
    SegmentAllocated { ok: bool },
    SegmentAttached { ok: bool },
    SegmentDetached,
    ImageDestroyed,
    SegmentReleased,
}

/// One step in the life of a shared frame buffer: the driver reports an
/// event, a capture succeeds or fails, or teardown is asked for.
pub enum ShmStep {
    Report(ShmEvent),
    Capture { succeeded: bool },
    TearDown,
}

/// The state of a shared frame buffer: its phase, the rectangle it captures,
/// which resources it holds, and the error of a failed setup.
#[derive(Debug, Clone, Copy, PartialEq, Eq, Structural)]
pub struct ShmState {
    pub phase: ShmPhase,
    pub geometry: Geometry,
    pub bytes_per_line: u32,
    pub holds_image: bool,
    pub holds_segment: bool,
    pub attached: bool,
    pub failure: Option<CaptureError>,
}

impl ShmState {
    /// The state before setup.
    pub open spec fn initial(geometry: Geometry) -> ShmState {
        ShmState {
            phase: ShmPhase::Uninitialized,
            geometry,
            bytes_per_line: 0,
            holds_image: false,
            holds_segment: false,
            attached: false,
            failure: None,
        }
    }

    /// Number of native resources held.
    pub open spec fn held(self) -> nat {
        (if self.holds_image {
            1nat
        } else {
            0nat
        }) + (if self.holds_segment {
            1nat
        } else {
            0nat
        }) + (if self.attached {
            1nat
        } else {
            0nat
        })
    }

    /// The phase and the held resources agree.
    pub open spec fn wf(self) -> bool {
        match self.phase {
            ShmPhase::Uninitialized | ShmPhase::Probed | ShmPhase::Detached => self.held() == 0,
            ShmPhase::ImageCreated => self.holds_image && !self.holds_segment && !self.attached,
            ShmPhase::SegmentAllocated => self.holds_image && self.holds_segment && !self.attached,
            ShmPhase::Attached | ShmPhase::Captured => self.held() == 3,
            ShmPhase::Releasing => self.held() > 0 && (self.attached ==> self.holds_image
                && self.holds_segment),
        }
    }

    /// The size of the segment: every row of the image, padding included.
    pub open spec fn segment_size(self) -> nat {
        (self.bytes_per_line * self.geometry.height) as nat
    }

    /// Setup has succeeded and teardown has not begun.
    pub open spec fn is_ready(self) -> bool {
        self.phase == ShmPhase::Attached || self.phase == ShmPhase::Captured
    }

    /// A releasing state that holds nothing more is detached.
    pub open spec fn settled(self) -> ShmState {
        if self.phase == ShmPhase::Releasing && self.held() == 0 {
            ShmState { phase: ShmPhase::Detached, ..self }
        } else {
            self
        }
    }

    /// The state after a setup step failed with `error`: what is held is to
    /// be released.
    pub open spec fn failed(self, error: CaptureError) -> ShmState {
        (ShmState { phase: ShmPhase::Releasing, failure: Some(error), ..self }).settled()
    }

    /// The action that the driver has to perform in this state.
    pub open spec fn spec_next_action(self) -> ShmAction {
        match self.phase {
            ShmPhase::Uninitialized => ShmAction::QueryExtension,
            ShmPhase::Probed => ShmAction::CreateImage {
                width: self.geometry.width,
                height: self.geometry.height,
            },
            ShmPhase::ImageCreated => ShmAction::AllocateSegment {
                size: self.segment_size() as u64,
            },
            ShmPhase::SegmentAllocated => ShmAction::AttachSegment,
            ShmPhase::Attached | ShmPhase::Captured | ShmPhase::Detached => ShmAction::Idle,
            ShmPhase::Releasing => if self.attached {
                ShmAction::DetachSegment
            } else if self.holds_image {
                ShmAction::DestroyImage
            } else if self.holds_segment {
                ShmAction::ReleaseSegment
            } else {
                ShmAction::Idle
            },
        }
    }

    /// The state after `event`. An event that does not answer the action
    /// that this state asks for changes nothing.
    pub open spec fn after(self, event: ShmEvent) -> ShmState {
        match (self.phase, event) {
            (ShmPhase::Uninitialized, ShmEvent::ExtensionQueried { available }) => if available {
                ShmState { phase: ShmPhase::Probed, ..self }
            } else {
                self.failed(CaptureError::ShmUnavailable)
            },
            (ShmPhase::Probed, ShmEvent::ImageCreated { bytes_per_line }) => match bytes_per_line {
                Some(bytes) => ShmState {
                    phase: ShmPhase::ImageCreated,
                    holds_image: true,
                    bytes_per_line: bytes,
                    ..self
                },
                None => self.failed(CaptureError::AllocFailed),
            },
            (ShmPhase::ImageCreated, ShmEvent::SegmentAllocated { ok }) => if ok {
                ShmState { phase: ShmPhase::SegmentAllocated, holds_segment: true, ..self }
            } else {
                self.failed(CaptureError::AllocFailed)
            },
            (ShmPhase::SegmentAllocated, ShmEvent::SegmentAttached { ok }) => if ok {
                ShmState { phase: ShmPhase::Attached, attached: true, ..self }
            } else {
                self.failed(CaptureError::AttachFailed)
            },
            (ShmPhase::Releasing, ShmEvent::SegmentDetached) => if self.attached {
                (ShmState { attached: false, ..self }).settled()
            } else {
                self
            },
            (ShmPhase::Releasing, ShmEvent::ImageDestroyed) => if !self.attached
                && self.holds_image {
                (ShmState { holds_image: false, ..self }).settled()
            } else {
                self
            },
            (ShmPhase::Releasing, ShmEvent::SegmentReleased) => if !self.attached
                && !self.holds_image && self.holds_segment {
                (ShmState { holds_segment: false, ..self }).settled()
            } else {
                self
            },
            _ => self,
        }
    }

    /// The state after teardown was asked for. Asking again changes nothing.
    pub open spec fn torn_down(self) -> ShmState {
        if self.phase == ShmPhase::Releasing || self.phase == ShmPhase::Detached {
            self
        } else {
            (ShmState { phase: ShmPhase::Releasing, ..self }).settled()
        }
    }

    /// The state after a capture into the segment succeeded or failed. A
    /// buffer that is not attached stays as it is.
    pub open spec fn after_capture(self, succeeded: bool) -> ShmState {
        if self.is_ready() {
            ShmState {
                phase: if succeeded {
                    ShmPhase::Captured
                } else {
                    ShmPhase::Attached
                },
                ..self
            }
        } else {
            self
        }
    }

    /// The event by which the driver reports that the release which this
    /// state asks for is done, if it asks for one.
    pub open spec fn release_event(self) -> Option<ShmEvent> {
        match self.spec_next_action() {
            ShmAction::DetachSegment => Some(ShmEvent::SegmentDetached),
            ShmAction::DestroyImage => Some(ShmEvent::ImageDestroyed),
            ShmAction::ReleaseSegment => Some(ShmEvent::SegmentReleased),
            _ => None,
        }
    }

    /// The state after the driver performed the release that this state asks
    /// for, if any.
    pub open spec fn released_once(self) -> ShmState {
        match self.release_event() {
            Some(event) => self.after(event),
            None => self,
        }
    }

    /// The state after one step of the buffer's life.
    pub open spec fn after_step(self, step: ShmStep) -> ShmState {
        match step {
            ShmStep::Report(event) => self.after(event),
            ShmStep::Capture { succeeded } => self.after_capture(succeeded),
            ShmStep::TearDown => self.torn_down(),
        }
    }

    /// The state after a whole history of steps.
    pub open spec fn after_all(self, steps: Seq<ShmStep>) -> ShmState
        decreases steps.len(),
    {
        if steps.len() == 0 {
            self
        } else {
            self.after_all(steps.drop_last()).after_step(steps.last())
        }
    }

    /// The state before setup, for the rectangle to capture.
    pub fn new(geometry: Geometry) -> (state: ShmState)
        ensures
            state == ShmState::initial(geometry),
    {
        ShmState {
            phase: ShmPhase::Uninitialized,
            geometry,
            bytes_per_line: 0,
            holds_image: false,
            holds_segment: false,
            attached: false,
            failure: None,
        }
    }

    fn holds_nothing(&self) -> (nothing: bool)
        ensures
            nothing == (self.held() == 0),
    {
        !self.holds_image && !self.holds_segment && !self.attached
    }

    fn settle(self) -> (state: ShmState)
        ensures
            state == self.settled(),
    {
        if self.phase == ShmPhase::Releasing && self.holds_nothing() {
            ShmState { phase: ShmPhase::Detached, ..self }
        } else {
            self
        }
    }

    fn fail(self, error: CaptureError) -> (state: ShmState)
        ensures
            state == self.failed(error),
    {
        (ShmState { phase: ShmPhase::Releasing, failure: Some(error), ..self }).settle()
    }

    /// Says what the driver has to do next.
    pub fn next_action(&self) -> (action: ShmAction)
        ensures
            action == self.spec_next_action(),
    {
        match self.phase {
            ShmPhase::Uninitialized => ShmAction::QueryExtension,
            ShmPhase::Probed => ShmAction::CreateImage {
                width: self.geometry.width,
                height: self.geometry.height,
            },
            ShmPhase::ImageCreated => {
                proof {
                    assert(self.bytes_per_line * self.geometry.height <= 0xFFFF_FFFF * 0xFFFF_FFFF)
                        by (nonlinear_arith)
                        requires
                            self.bytes_per_line <= 0xFFFF_FFFF,
                            self.geometry.height <= 0xFFFF_FFFF,
                    ;
                }
                ShmAction::AllocateSegment {
                    size: (self.bytes_per_line as u64) * (self.geometry.height as u64),
                }
            },
            ShmPhase::SegmentAllocated => ShmAction::AttachSegment,
            ShmPhase::Attached | ShmPhase::Captured | ShmPhase::Detached => ShmAction::Idle,
            ShmPhase::Releasing => {
                if self.attached {
                    ShmAction::DetachSegment
                } else if self.holds_image {
                    ShmAction::DestroyImage
                } else if self.holds_segment {
                    ShmAction::ReleaseSegment
                } else {
                    ShmAction::Idle
                }
            },
        }
    }

    /// Takes in what happened when the driver performed an action.
    pub fn advance(self, event: ShmEvent) -> (state: ShmState)
        ensures
            state == self.after(event),
    {
        match (self.phase, event) {
            (ShmPhase::Uninitialized, ShmEvent::ExtensionQueried { available }) => {
                if available {
                    ShmState { phase: ShmPhase::Probed, ..self }
                } else {
                    self.fail(CaptureError::ShmUnavailable)
                }
            },
            (ShmPhase::Probed, ShmEvent::ImageCreated { bytes_per_line }) => match bytes_per_line {
                Some(bytes) => ShmState {
                    phase: ShmPhase::ImageCreated,
                    holds_image: true,
                    bytes_per_line: bytes,
                    ..self
                },
                None => self.fail(CaptureError::AllocFailed),
            },
            (ShmPhase::ImageCreated, ShmEvent::SegmentAllocated { ok }) => {
                if ok {
                    ShmState { phase: ShmPhase::SegmentAllocated, holds_segment: true, ..self }
                } else {
                    self.fail(CaptureError::AllocFailed)
                }
            },
            (ShmPhase::SegmentAllocated, ShmEvent::SegmentAttached { ok }) => {
                if ok {
                    ShmState { phase: ShmPhase::Attached, attached: true, ..self }
                } else {
                    self.fail(CaptureError::AttachFailed)
                }
            },
            (ShmPhase::Releasing, ShmEvent::SegmentDetached) => {
                if self.attached {
                    (ShmState { attached: false, ..self }).settle()
                } else {
                    self
                }
            },
            (ShmPhase::Releasing, ShmEvent::ImageDestroyed) => {
                if !self.attached && self.holds_image {
                    (ShmState { holds_image: false, ..self }).settle()
                } else {
                    self
                }
            },
            (ShmPhase::Releasing, ShmEvent::SegmentReleased) => {
                if !self.attached && !self.holds_image && self.holds_segment {
                    (ShmState { holds_segment: false, ..self }).settle()
                } else {
                    self
                }
            },
            _ => self,
        }
    }

    /// Begins the release of everything that is held.
    pub fn tear_down(self) -> (state: ShmState)
        ensures
            state == self.torn_down(),
    {
        if self.phase == ShmPhase::Releasing || self.phase == ShmPhase::Detached {
            self
        } else {
            (ShmState { phase: ShmPhase::Releasing, ..self }).settle()
        }
    }

    /// Takes in whether a capture into the segment succeeded.
    pub fn note_capture(self, succeeded: bool) -> (state: ShmState)
        ensures
            state == self.after_capture(succeeded),
    {
        if self.ready() {
            ShmState {
                phase: if succeeded {
                    ShmPhase::Captured
                } else {
                    ShmPhase::Attached
                },
                ..self
            }
        } else {
            self
        }
    }

    /// Whether setup has succeeded and teardown has not begun.
    pub fn ready(&self) -> (yes: bool)
        ensures
            yes == self.is_ready(),
    {
        self.phase == ShmPhase::Attached || self.phase == ShmPhase::Captured
    }
}

/// How setup ended, once it has ended: `Ok` when the buffer is attached, the
/// error of the step that failed otherwise.
pub open spec fn spec_outcome(state: ShmState) -> Option<Result<(), CaptureError>> {
    if state.is_ready() {
        Some(Ok(()))
    } else {
        match state.failure {
            Some(error) => Some(Err(error)),
            None => None,
        }
    }
}

/// A frame buffer in memory shared with the display server. It is set up
/// once for one rectangle and then used for every capture of it. The frame it
/// shows is the last one captured: each capture writes over the one before.
#[derive(Debug)]
pub struct SharedFrameBuffer {
    state: ShmState,
    frame: Option<Image>,
}

impl SharedFrameBuffer {
    /// The lifecycle state of the buffer.
    pub closed spec fn spec_state(&self) -> ShmState {
        self.state
    }

    /// The frame on view: there is one from a successful capture until the
    /// next capture or the teardown.
    pub closed spec fn spec_frame(&self) -> Option<Image> {
        if self.state.phase == ShmPhase::Captured {
            self.frame
        } else {
            None
        }
    }

    /// Begins the setup of a buffer for `geometry`. Nothing is acquired yet:
    /// the driver performs `next_action` and reports with `handle` until the
    /// action is `Idle`, then reads `outcome`.
    pub fn setup(geometry: Geometry) -> (buffer: SharedFrameBuffer)
        ensures
            buffer.spec_state() == ShmState::initial(geometry),
            buffer.spec_frame() is None,
    {
        SharedFrameBuffer { state: ShmState::new(geometry), frame: None }
    }

    /// The lifecycle state of the buffer.
    pub fn state(&self) -> (state: ShmState)
        ensures
            state == self.spec_state(),
    {
        self.state
    }

    /// Says what the driver has to do next.
    pub fn next_action(&self) -> (action: ShmAction)
        ensures
            action == self.spec_state().spec_next_action(),
    {
        self.state.next_action()
    }

    /// Takes in what happened when the driver performed an action.
    pub fn handle(&mut self, event: ShmEvent)
        ensures
            final(self).spec_state() == old(self).spec_state().after(event),
            final(self).spec_frame() == if final(self).spec_state().phase == ShmPhase::Captured {
                old(self).spec_frame()
            } else {
                None
            },
    {
        self.state = self.state.advance(event);
    }

    /// How setup ended: `None` while it is under way or was never begun.
    pub fn outcome(&self) -> (outcome: Option<Result<(), CaptureError>>)
        ensures
            outcome == spec_outcome(self.spec_state()),
    {
        if self.state.ready() {
            Some(Ok(()))
        } else {
            match self.state.failure {
                Some(error) => Some(Err(error)),
                None => None,
            }
        }
    }

    /// Takes in the reply to a request to capture into the segment: `None`
    /// when the display server refused, else the segment's content. The frame
    /// is decoded into the buffer of the frame before it, which it replaces.
    /// A buffer that is not attached gives `RequestFailed`.
    pub fn capture(&mut self, reply: Option<&NativeImage>) -> (captured: Result<(), CaptureError>)
        ensures
            !old(self).spec_state().is_ready() ==> captured == Err::<(), CaptureError>(
                CaptureError::RequestFailed,
            ) && final(self).spec_state() == old(self).spec_state() && final(self).spec_frame()
                is None,
            old(self).spec_state().is_ready() ==> match spec_capture(
                reply_value(reply),
                old(self).spec_state().geometry.width,
                old(self).spec_state().geometry.height,
            ) {
                Ok(pixels) => {
                    &&& captured is Ok
                    &&& final(self).spec_state() == old(self).spec_state().after_capture(true)
                    &&& final(self).spec_frame() matches Some(f)
                    &&& f@ == pixels
                    &&& f.spec_width() == old(self).spec_state().geometry.width
                    &&& f.spec_height() == old(self).spec_state().geometry.height
                },
                Err(e) => captured == Err::<(), CaptureError>(e) && final(self).spec_state()
                    == old(self).spec_state().after_capture(false) && final(self).spec_frame()
                    is None,
            },
    {
        if !self.state.ready() {
            return Err(CaptureError::RequestFailed);
        }
        let geometry = self.state.geometry;
        // the frame on view ends here
        self.state = self.state.note_capture(false);
        let reusable: Option<Image> = match self.frame.take() {
            Some(frame) => {
                let (width, height) = frame.get_dimensions();
                if width == geometry.width && height == geometry.height {
                    Some(frame)
                } else {
                    None
                }
            },
            None => None,
        };
        match reusable {
            Some(frame) => {
                let (frame, stored) = frame.overwrite(reply);
                self.frame = Some(frame);
                match stored {
                    Ok(_) => {
                        self.state = self.state.note_capture(true);
                        Ok(())
                    },
                    Err(e) => Err(e),
                }
            },
            None => match capture(reply, &geometry) {
                Ok(frame) => {
                    self.frame = Some(frame);
                    self.state = self.state.note_capture(true);
                    Ok(())
                },
                Err(e) => Err(e),
            },
        }
    }

    /// The frame on view, if there is one.
    pub fn frame(&self) -> (frame: Option<&Image>)
        ensures
            match frame {
                Some(f) => self.spec_frame() == Some(*f),
                None => self.spec_frame() is None,
            },
    {
        if self.state.phase == ShmPhase::Captured {
            self.frame.as_ref()
        } else {
            None
        }
    }

    /// Begins the release of everything that the buffer holds. The driver
    /// then performs `next_action` and reports with `handle` until the action
    /// is `Idle`. A second teardown changes nothing.
    pub fn teardown(&mut self)
        ensures
            final(self).spec_state() == old(self).spec_state().torn_down(),
            final(self).spec_frame() is None,
    {
        self.state = self.state.tear_down();
        self.frame = None;
    }
}

/// No step breaks the agreement of phase and held resources: not an event,
/// not a teardown, not a capture.
pub proof fn lemma_step_keeps_wf(state: ShmState, event: ShmEvent)
    requires
        state.wf(),
    ensures
        state.after(event).wf(),
        state.torn_down().wf(),
        state.after_capture(true).wf(),
        state.after_capture(false).wf(),
{
}

/// Whatever happens to a buffer, in whatever order and however many captures
/// succeed or fail, it never holds anything that its phase does not account
/// for; once detached it holds nothing.
pub proof fn lemma_run_keeps_wf(geometry: Geometry, steps: Seq<ShmStep>)
    ensures
        ShmState::initial(geometry).after_all(steps).wf(),
        ShmState::initial(geometry).after_all(steps).phase == ShmPhase::Detached
            ==> ShmState::initial(geometry).after_all(steps).held() == 0,
    decreases steps.len(),
{
    if steps.len() > 0 {
        lemma_run_keeps_wf(geometry, steps.drop_last());
        let before = ShmState::initial(geometry).after_all(steps.drop_last());
        match steps.last() {
            ShmStep::Report(event) => lemma_step_keeps_wf(before, event),
            _ => lemma_step_keeps_wf(before, ShmEvent::SegmentDetached),
        }
    }
}

/// No life of a buffer leaks: after any history, a teardown followed by the
/// releases that the buffer asks for, at most three, leaves nothing held.
pub proof fn lemma_every_life_ends_clean(geometry: Geometry, steps: Seq<ShmStep>)
    ensures
        ({
            let last = ShmState::initial(geometry).after_all(steps);
            let end = last.torn_down().released_once().released_once().released_once();
            &&& end.phase == ShmPhase::Detached
            &&& end.held() == 0
            &&& end.spec_next_action() == ShmAction::Idle
        }),
{
    lemma_run_keeps_wf(geometry, steps);
    lemma_teardown_releases_everything(ShmState::initial(geometry).after_all(steps));
}

/// A setup that the driver carries through has an outcome: when nothing but
/// the driver's reports happened to a buffer and it asks for nothing more,
/// it is attached or it names the error of the step that failed, and in the
/// second case nothing is held any more.
pub proof fn lemma_setup_ends_with_outcome(geometry: Geometry, steps: Seq<ShmStep>)
    requires
        forall|i: int| 0 <= i < steps.len() ==> steps[i] is Report,
    ensures
        ({
            let last = ShmState::initial(geometry).after_all(steps);
            &&& last.phase == ShmPhase::Releasing || last.phase == ShmPhase::Detached
                ==> last.failure is Some
            &&& last.spec_next_action() == ShmAction::Idle ==> spec_outcome(last) is Some
            &&& last.spec_next_action() == ShmAction::Idle && !last.is_ready() ==> last.held() == 0
        }),
    decreases steps.len(),
{
    lemma_run_keeps_wf(geometry, steps);
    if steps.len() > 0 {
        lemma_setup_ends_with_outcome(geometry, steps.drop_last());
    }
}

/// A release is taken at most once: the event of a release either changes
/// nothing, or it is the one that the state asks for and lowers the number of
/// held resources by one.
pub proof fn lemma_release_is_exact(state: ShmState, event: ShmEvent)
    requires
        state.wf(),
        event is SegmentDetached || event is ImageDestroyed || event is SegmentReleased,
    ensures
        state.after(event) == state || state.after(event).held() + 1 == state.held(),
        state.after(event) != state ==> state.release_event() == Some(event),
{
}

/// The detached phase is never left and nothing is acquired in it.
pub proof fn lemma_detached_is_terminal(state: ShmState, event: ShmEvent)
    requires
        state.phase == ShmPhase::Detached,
    ensures
        state.after(event) == state,
        state.torn_down() == state,
        state.after_capture(true) == state,
        state.after_capture(false) == state,
        state.spec_next_action() == ShmAction::Idle,
{
}

/// From every reachable state, a teardown followed by the releases that the
/// buffer asks for ends, after at most three of them, with nothing held. The
/// error of a failed setup is kept.
pub proof fn lemma_teardown_releases_everything(state: ShmState)
    requires
        state.wf(),
    ensures
        ({
            let end = state.torn_down().released_once().released_once().released_once();
            &&& end.phase == ShmPhase::Detached
            &&& end.held() == 0
            &&& end.failure == state.failure
            &&& end.geometry == state.geometry
        }),
{
}

/// A buffer that is attached is released in this order: the display server
/// is detached, the image is destroyed, the segment is released.
pub proof fn lemma_teardown_order(state: ShmState)
    requires
        state.wf(),
        state.is_ready(),
    ensures
        ({
            let first = state.torn_down();
            let second = first.released_once();
            let third = second.released_once();
            &&& first.spec_next_action() == ShmAction::DetachSegment
            &&& second.spec_next_action() == ShmAction::DestroyImage
            &&& third.spec_next_action() == ShmAction::ReleaseSegment
            &&& third.released_once().phase == ShmPhase::Detached
        }),
{
}

/// A setup in which every step succeeds ends attached, with all three
/// resources held and a segment of `bytes_per_line * height` bytes asked for.
pub proof fn lemma_setup_succeeds(geometry: Geometry, bytes_per_line: u32)
    ensures
        ({
            let probed = ShmState::initial(geometry).after(
                ShmEvent::ExtensionQueried { available: true },
            );
            let created = probed.after(
                ShmEvent::ImageCreated { bytes_per_line: Some(bytes_per_line) },
            );
            let allocated = created.after(ShmEvent::SegmentAllocated { ok: true });
            let attached = allocated.after(ShmEvent::SegmentAttached { ok: true });
            &&& ShmState::initial(geometry).spec_next_action() == ShmAction::QueryExtension
            &&& probed.spec_next_action() == ShmAction::CreateImage {
                width: geometry.width,
                height: geometry.height,
            }
            &&& created.spec_next_action() == ShmAction::AllocateSegment {
                size: (bytes_per_line * geometry.height) as u64,
            }
            &&& allocated.spec_next_action() == ShmAction::AttachSegment
            &&& attached.phase == ShmPhase::Attached
            &&& attached.held() == 3
            &&& attached.failure is None
        }),
{
}

/// A setup step that fails names its error and leaves only releases to do:
/// no extension is `ShmUnavailable`, no image or no segment is `AllocFailed`,
/// a refused attachment is `AttachFailed`.
pub proof fn lemma_setup_failure(state: ShmState, event: ShmEvent)
    requires
        state.wf(),
    ensures
        state.phase == ShmPhase::Uninitialized && event == (ShmEvent::ExtensionQueried {
            available: false,
        }) ==> state.after(event).failure == Some(CaptureError::ShmUnavailable)
            && state.after(event).phase == ShmPhase::Detached,
        state.phase == ShmPhase::Probed && event == (ShmEvent::ImageCreated {
            bytes_per_line: None,
        }) ==> state.after(event).failure == Some(CaptureError::AllocFailed) && state.after(
            event,
        ).phase == ShmPhase::Detached,
        state.phase == ShmPhase::ImageCreated && event == (ShmEvent::SegmentAllocated {
            ok: false,
        }) ==> state.after(event).failure == Some(CaptureError::AllocFailed) && state.after(
            event,
        ).phase == ShmPhase::Releasing,
        state.phase == ShmPhase::SegmentAllocated && event == (ShmEvent::SegmentAttached {
            ok: false,
        }) ==> state.after(event).failure == Some(CaptureError::AttachFailed) && state.after(
            event,
        ).phase == ShmPhase::Releasing,
        state.after(event).phase == ShmPhase::Releasing ==> state.after(event).spec_next_action()
            != ShmAction::Idle,
{
}

} // verus!
