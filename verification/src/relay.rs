//! The event relay: a receiver with two states that turns the events of the
//! service into notifications for the user interface, and empties the
//! registry when the service ends.

use crate::event::{decode_model, RawEvent, RawEventView, ServiceEvent, ServiceEventView, Stream};
use crate::registry::SidecarState;
use crate::text::{trim, trimmed};
use vstd::prelude::*;

verus! {

/// The state of the relay. `Stopped` is final.
#[derive(Clone, Copy, Debug, PartialEq, Eq, Structural)]
pub enum RelayState {
    Relaying,
    Stopped,
}

/// The level at which a dispatched event is logged.
#[derive(Clone, Copy, Debug, PartialEq, Eq, Structural)]
pub enum Severity {
    Info,
    Warning,
    Error,
}

/// A notification for the user interface.
#[derive(Debug, PartialEq, Eq)]
pub enum Notification {
    /// A trimmed line of standard output.
    Output { line: String },
    /// A trimmed line of standard error.
    Error { line: String },
    /// The end of the process.
    Terminated { code: Option<i32>, signal: Option<i32> },
}

/// The model of [`Notification`] that the contracts speak of.
pub enum NotificationView {
    Output { line: Seq<char> },
    Error { line: Seq<char> },
    Terminated { code: Option<i32>, signal: Option<i32> },
}

impl View for Notification {
    type V = NotificationView;

    open spec fn view(&self) -> NotificationView {
        match *self {
            Notification::Output { line } => NotificationView::Output { line: line@ },
            Notification::Error { line } => NotificationView::Error { line: line@ },
            Notification::Terminated { code, signal } => NotificationView::Terminated {
                code,
                signal,
            },
        }
    }
}

/// The name of the channel on which a notification goes out.
pub open spec fn channel_model(notification: NotificationView) -> Seq<char> {
    match notification {
        NotificationView::Output { .. } => "python-sidecar-output"@,
        NotificationView::Error { .. } => "python-sidecar-error"@,
        NotificationView::Terminated { .. } => "python-sidecar-terminated"@,
    }
}

impl Notification {
    /// The name of the channel on which this notification goes out.
    pub fn channel(&self) -> (name: &'static str)
        ensures
            name@ == channel_model(self@),
    {
        match self {
            Notification::Output { .. } => "python-sidecar-output",
            Notification::Error { .. } => "python-sidecar-error",
            Notification::Terminated { .. } => "python-sidecar-terminated",
        }
    }
}

/// What the relay does with one event: the level to log it at and the
/// notification to forward. Delivery is for the caller and is best effort.
#[derive(Debug, PartialEq, Eq)]
pub struct Dispatch {
    pub severity: Severity,
    pub notification: Notification,
}

/// The model of [`Dispatch`] that the contracts speak of.
pub struct DispatchView {
    pub severity: Severity,
    pub notification: NotificationView,
}

impl View for Dispatch {
    type V = DispatchView;

    open spec fn view(&self) -> DispatchView {
        DispatchView { severity: self.severity, notification: self.notification@ }
    }
}

impl DeepView for Dispatch {
    type V = DispatchView;

    open spec fn deep_view(&self) -> DispatchView {
        self@
    }
}

/// The dispatch of an event: standard output is logged as information and
/// forwarded trimmed, standard error is logged as an error and forwarded
/// trimmed on a channel of its own, the end of the process is logged as a
/// warning and forwarded with its exit code.
pub open spec fn dispatch_model(event: ServiceEventView) -> DispatchView {
    match event {
        ServiceEventView::Output { stream: Stream::Stdout, line } => DispatchView {
            severity: Severity::Info,
            notification: NotificationView::Output { line: trimmed(line) },
        },
        ServiceEventView::Output { stream: Stream::Stderr, line } => DispatchView {
            severity: Severity::Error,
            notification: NotificationView::Error { line: trimmed(line) },
        },
        ServiceEventView::Terminated { code, signal } => DispatchView {
            severity: Severity::Warning,
            notification: NotificationView::Terminated { code, signal },
        },
    }
}

/// Computes the dispatch of `event`.
pub fn dispatch(event: &ServiceEvent) -> (out: Dispatch)
    ensures
        out@ == dispatch_model(event@),
{
    match event {
        ServiceEvent::Output { stream, line } => {
            let text = String::from_str(trim(line.as_str()));
            match stream {
                Stream::Stdout => Dispatch {
                    severity: Severity::Info,
                    notification: Notification::Output { line: text },
                },
                Stream::Stderr => Dispatch {
                    severity: Severity::Error,
                    notification: Notification::Error { line: text },
                },
            }
        },
        ServiceEvent::Terminated { code, signal } => Dispatch {
            severity: Severity::Warning,
            notification: Notification::Terminated { code: *code, signal: *signal },
        },
    }
}

/// The state of a relaying relay after `event`: the end of the process
/// stops it, output does not.
pub open spec fn after_event(event: ServiceEventView) -> RelayState {
    if event is Terminated {
        RelayState::Stopped
    } else {
        RelayState::Relaying
    }
}

/// Handles one event in the state `Relaying`. `slot` is the registry if its
/// lock could be taken, and `None` if not. The end of the process empties
/// the registry, whether or not it still held the handle, and stops the
/// relay; output leaves the registry as it is.
pub fn relay_event<K>(event: ServiceEvent, slot: Option<&mut SidecarState<K>>) -> (out: (
    RelayState,
    Dispatch,
))
    ensures
        out.0 == after_event(event@),
        out.1@ == dispatch_model(event@),
        match slot {
            Some(registry) => *final(registry) == if event@ is Terminated {
                registry.cleared()
            } else {
                *registry
            },
            None => true,
        },
{
    let out = dispatch(&event);
    match event {
        ServiceEvent::Terminated { .. } => {
            match slot {
                Some(registry) => {
                    registry.clear();
                },
                None => {},
            }
            (RelayState::Stopped, out)
        },
        ServiceEvent::Output { .. } => (RelayState::Relaying, out),
    }
}

/// One step of the relay. `input` is the next raw event, or `None` when the
/// stream has closed. A stopped relay stays stopped and does nothing. A
/// relaying one stops when the stream closes or the process ends, passes
/// over raw events that stand for no service event, and dispatches the rest.
pub open spec fn relay_model(state: RelayState, input: Option<RawEventView>) -> (
    RelayState,
    Option<DispatchView>,
) {
    match state {
        RelayState::Stopped => (RelayState::Stopped, None),
        RelayState::Relaying => match input {
            None => (RelayState::Stopped, None),
            Some(raw) => match decode_model(raw) {
                None => (RelayState::Relaying, None),
                Some(event) => (after_event(event), Some(dispatch_model(event))),
            },
        },
    }
}

/// Whether the step empties the registry: it does when a relaying relay
/// learns of the end of the process.
pub open spec fn clears_registry(state: RelayState, input: Option<RawEventView>) -> bool {
    &&& state is Relaying
    &&& input matches Some(raw)
    &&& raw is Terminated
}

/// Makes one step of the relay. `slot` is the registry if its lock could be
/// taken, and `None` if not; the lock is needed only where
/// `RawEvent::needs_registry` says so.
pub fn relay_step<K>(
    state: RelayState,
    input: Option<RawEvent>,
    slot: Option<&mut SidecarState<K>>,
) -> (out: (RelayState, Option<Dispatch>))
    ensures
        (out.0, out.1.deep_view()) == relay_model(state, input.deep_view()),
        match slot {
            Some(registry) => *final(registry) == if clears_registry(state, input.deep_view()) {
                registry.cleared()
            } else {
                *registry
            },
            None => true,
        },
{
    match state {
        RelayState::Stopped => (RelayState::Stopped, None),
        RelayState::Relaying => match input {
            None => (RelayState::Stopped, None),
            Some(raw) => match raw.decode() {
                None => (RelayState::Relaying, None),
                Some(event) => {
                    let (next, out) = relay_event(event, slot);
                    (next, Some(out))
                },
            },
        },
    }
}

/// The state of the relay after the inputs `inputs`, started in `state`.
pub open spec fn relay_run(state: RelayState, inputs: Seq<Option<RawEventView>>) -> RelayState
    decreases inputs.len(),
{
    if inputs.len() == 0 {
        state
    } else {
        relay_model(relay_run(state, inputs.drop_last()), inputs.last()).0
    }
}

/// Once a relaying relay has handled the end of the process with the
/// registry at hand, the slot is empty, whatever it held before.
pub proof fn termination_empties_registry<K>(
    slot: SidecarState<K>,
    code: Option<i32>,
    signal: Option<i32>,
)
    ensures
        clears_registry(
            RelayState::Relaying,
            Some(RawEventView::Terminated { code, signal }),
        ),
        slot.cleared().is_empty(),
        relay_model(RelayState::Relaying, Some(RawEventView::Terminated { code, signal })).0
            == RelayState::Stopped,
{
}

/// A stopped relay dispatches nothing, leaves the registry alone and stays
/// stopped, whatever arrives.
pub proof fn stopped_is_final(input: Option<RawEventView>)
    ensures
        relay_model(RelayState::Stopped, input) == (RelayState::Stopped, None::<DispatchView>),
        !clears_registry(RelayState::Stopped, input),
{
}

/// The end of the process is the last event that is dispatched: once the
/// relay has seen it, or the stream has closed, it is stopped after every
/// further input.
pub proof fn nothing_after_termination(inputs: Seq<Option<RawEventView>>, i: int)
    requires
        0 <= i < inputs.len(),
        inputs[i] is None || inputs[i]->0 is Terminated,
    ensures
        relay_run(RelayState::Relaying, inputs) == RelayState::Stopped,
    decreases inputs.len(),
{
    let before = relay_run(RelayState::Relaying, inputs.drop_last());
    if i == inputs.len() - 1 {
    } else {
        nothing_after_termination(inputs.drop_last(), i);
    }
}

} // verus!
