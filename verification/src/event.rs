//! The events of the supervised service: as the process runner reports them,
//! and as the relay dispatches on them.

use crate::text::{decode_lossy, utf8_lossy};
use vstd::prelude::*;

verus! {

/// The output stream a line was written to.
#[derive(Clone, Copy, Debug, PartialEq, Eq, Structural)]
pub enum Stream {
    Stdout,
    Stderr,
}

/// What the process runner reports: raw bytes of one line of output, an
/// error of the runner itself, the end of the process, or something this
/// crate does not know.
#[derive(Debug, PartialEq, Eq)]
pub enum RawEvent {
    Stdout(Vec<u8>),
    Stderr(Vec<u8>),
    Error(String),
    Terminated { code: Option<i32>, signal: Option<i32> },
    Other,
}

/// The model of [`RawEvent`] that the contracts speak of.
pub enum RawEventView {
    Stdout(Seq<u8>),
    Stderr(Seq<u8>),
    Error(Seq<char>),
    Terminated { code: Option<i32>, signal: Option<i32> },
    Other,
}

impl View for RawEvent {
    type V = RawEventView;

    open spec fn view(&self) -> RawEventView {
        match *self {
            RawEvent::Stdout(bytes) => RawEventView::Stdout(bytes@),
            RawEvent::Stderr(bytes) => RawEventView::Stderr(bytes@),
            RawEvent::Error(message) => RawEventView::Error(message@),
            RawEvent::Terminated { code, signal } => RawEventView::Terminated { code, signal },
            RawEvent::Other => RawEventView::Other,
        }
    }
}

impl DeepView for RawEvent {
    type V = RawEventView;

    open spec fn deep_view(&self) -> RawEventView {
        self@
    }
}

/// An event of the service: a line of output, or the end of the process
/// with its exit code and the signal that ended it, as far as known.
#[derive(Debug, PartialEq, Eq)]
pub enum ServiceEvent {
    Output { stream: Stream, line: String },
    Terminated { code: Option<i32>, signal: Option<i32> },
}

/// The model of [`ServiceEvent`] that the contracts speak of.
pub enum ServiceEventView {
    Output { stream: Stream, line: Seq<char> },
    Terminated { code: Option<i32>, signal: Option<i32> },
}

impl View for ServiceEvent {
    type V = ServiceEventView;

    open spec fn view(&self) -> ServiceEventView {
        match *self {
            ServiceEvent::Output { stream, line } => ServiceEventView::Output {
                stream,
                line: line@,
            },
            ServiceEvent::Terminated { code, signal } => ServiceEventView::Terminated {
                code,
                signal,
            },
        }
    }
}

impl DeepView for ServiceEvent {
    type V = ServiceEventView;

    open spec fn deep_view(&self) -> ServiceEventView {
        self@
    }
}

/// The service event that a raw event stands for, if any: output bytes are
/// decoded lossily, the end of the process is passed on, everything else is
/// of no concern to the relay.
pub open spec fn decode_model(raw: RawEventView) -> Option<ServiceEventView> {
    match raw {
        RawEventView::Stdout(bytes) => Some(
            ServiceEventView::Output { stream: Stream::Stdout, line: utf8_lossy(bytes) },
        ),
        RawEventView::Stderr(bytes) => Some(
            ServiceEventView::Output { stream: Stream::Stderr, line: utf8_lossy(bytes) },
        ),
        RawEventView::Terminated { code, signal } => Some(
            ServiceEventView::Terminated { code, signal },
        ),
        RawEventView::Error(_) => None,
        RawEventView::Other => None,
    }
}

/// Whether handling `raw` touches the registry, so that its lock is needed.
pub open spec fn needs_registry_model(raw: RawEventView) -> bool {
    raw is Terminated
}

impl RawEvent {
    /// Whether the relay needs the registry to handle this event. It does
    /// for the end of the process and for nothing else.
    pub fn needs_registry(&self) -> (needed: bool)
        ensures
            needed == needs_registry_model(self@),
    {
        match self {
            RawEvent::Terminated { .. } => true,
            _ => false,
        }
    }

    /// Turns the raw event into the service event it stands for.
    pub fn decode(self) -> (event: Option<ServiceEvent>)
        ensures
            event.deep_view() == decode_model(self@),
    {
        match self {
            RawEvent::Stdout(bytes) => Some(
                ServiceEvent::Output { stream: Stream::Stdout, line: decode_lossy(bytes.as_slice()) },
            ),
            RawEvent::Stderr(bytes) => Some(
                ServiceEvent::Output { stream: Stream::Stderr, line: decode_lossy(bytes.as_slice()) },
            ),
            RawEvent::Terminated { code, signal } => Some(
                ServiceEvent::Terminated { code, signal },
            ),
            RawEvent::Error(_) => None,
            RawEvent::Other => None,
        }
    }
}

} // verus!
