//! Turning a capture source into the rectangle to capture.
//!
//! Resolution needs at most one answer from the display server. `query_for`
//! says which one, the caller obtains it, and `resolve` decides on what came
//! back.

use vstd::prelude::*;
use crate::error::{GeometryError, ResolveError};
use crate::geometry::{CaptureSource, Geometry};

verus! {

/// What has to be asked of the display server before a source can be
/// resolved.
#[derive(Debug, Clone, Copy, PartialEq, Eq, Structural)]
pub enum ServerQuery {
    /// The source names its rectangle itself.
    Nothing,
    /// The geometry of the root window of the default screen.
    RootGeometry,
    /// The geometry of the given window.
    WindowGeometry(u64),
    /// The monitors attached to the root window, in the server's order.
    Monitors,
}

/// What the display server answered. A field that was not asked for keeps
/// its empty value: a failed geometry, no monitors.
#[derive(Debug)]
pub struct DisplayReport {
    pub geometry: Result<Geometry, GeometryError>,
    pub monitors: Vec<Geometry>,
}

/// The query that `source` needs.
pub open spec fn spec_query_for(source: CaptureSource) -> ServerQuery {
    match source {
        CaptureSource::Region { .. } => ServerQuery::Nothing,
        CaptureSource::Monitor(_) => ServerQuery::Monitors,
        CaptureSource::Desktop => ServerQuery::RootGeometry,
        CaptureSource::Window(id) => ServerQuery::WindowGeometry(id),
    }
}

/// The rectangle that `source` names, given the server's answers.
pub open spec fn spec_resolve(
    source: CaptureSource,
    geometry: Result<Geometry, GeometryError>,
    monitors: Seq<Geometry>,
) -> Result<Geometry, ResolveError> {
    match source {
        CaptureSource::Region { x, y, width, height } => Ok(Geometry { x, y, width, height }),
        CaptureSource::Monitor(index) => if index < monitors.len() {
            Ok(monitors[index as int])
        } else {
            Err(ResolveError::MonitorIndexOutOfRange)
        },
        CaptureSource::Desktop | CaptureSource::Window(_) => match geometry {
            Ok(g) => Ok(g),
            Err(_) => Err(ResolveError::NoSuchWindow),
        },
    }
}

impl DisplayReport {
    /// The report of a server that was asked nothing.
    pub fn empty() -> (report: DisplayReport)
        ensures
            report.geometry == Err::<Geometry, GeometryError>(GeometryError::QueryFailed),
            report.monitors@ == Seq::<Geometry>::empty(),
    {
        DisplayReport { geometry: Err(GeometryError::QueryFailed), monitors: Vec::new() }
    }
}

/// Says what to ask the display server in order to resolve `source`.
pub fn query_for(source: &CaptureSource) -> (query: ServerQuery)
    ensures
        query == spec_query_for(*source),
{
    match source {
        CaptureSource::Region { .. } => ServerQuery::Nothing,
        CaptureSource::Monitor(_) => ServerQuery::Monitors,
        CaptureSource::Desktop => ServerQuery::RootGeometry,
        CaptureSource::Window(id) => ServerQuery::WindowGeometry(*id),
    }
}

/// Resolves `source` against the server's answers. A region is passed
/// through as it is, without a look at the screen's bounds. A monitor is
/// taken from the enumeration as it is. The desktop and a window take the
/// geometry that was reported for them.
pub fn resolve(report: &DisplayReport, source: CaptureSource) -> (geometry: Result<
    Geometry,
    ResolveError,
>)
    ensures
        geometry == spec_resolve(source, report.geometry, report.monitors@),
{
    match source {
        CaptureSource::Region { x, y, width, height } => Ok(Geometry { x, y, width, height }),
        CaptureSource::Monitor(index) => {
            if index < report.monitors.len() {
                Ok(report.monitors[index])
            } else {
                Err(ResolveError::MonitorIndexOutOfRange)
            }
        },
        CaptureSource::Desktop | CaptureSource::Window(_) => match report.geometry {
            Ok(g) => Ok(g),
            Err(_) => Err(ResolveError::NoSuchWindow),
        },
    }
}

} // verus!
