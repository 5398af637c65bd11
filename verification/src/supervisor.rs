//! The process supervisor: what to launch, and what to do once the attempt
//! to launch it has succeeded or failed.

use crate::registry::{ServiceHandle, SidecarState};
use crate::relay::RelayState;
use crate::text::{decimal, decimal_text, join};
use vstd::prelude::*;

verus! {

/// The port that the backend service listens on unless told otherwise.
pub const DEFAULT_PORT: u16 = 8000;

/// The executable to launch, by its logical name, and its arguments.
#[derive(Debug, PartialEq, Eq)]
pub struct LaunchPlan {
    pub program: String,
    pub args: Vec<String>,
}

/// The model of [`LaunchPlan`] that the contracts speak of.
pub struct LaunchPlanView {
    pub program: Seq<char>,
    pub args: Seq<Seq<char>>,
}

impl View for LaunchPlan {
    type V = LaunchPlanView;

    open spec fn view(&self) -> LaunchPlanView {
        LaunchPlanView { program: self.program@, args: self.args.deep_view() }
    }
}

/// The launch of the backend service on `port`: the executable
/// `python-sidecar` with the arguments `port` and the port number.
pub open spec fn launch_model(port: u16) -> LaunchPlanView {
    LaunchPlanView {
        program: "python-sidecar"@,
        args: seq!["port"@, decimal_text(port as nat)],
    }
}

/// Says how to launch the backend service on `port`.
pub fn launch_plan(port: u16) -> (plan: LaunchPlan)
    ensures
        plan@ == launch_model(port),
{
    let mut args: Vec<String> = Vec::new();
    args.push(String::from_str("port"));
    args.push(decimal(port as u32));
    let plan = LaunchPlan { program: String::from_str("python-sidecar"), args };
    assert(plan@.args =~= launch_model(port).args);
    plan
}

/// How the attempt to launch the service ended.
#[derive(Debug, PartialEq, Eq)]
pub enum SpawnReport<K> {
    /// The command could not be made; `detail` says why.
    CommandRejected { detail: String },
    /// The command was made but the process did not start.
    SpawnFailed { detail: String },
    /// The process runs.
    Started { handle: ServiceHandle<K> },
}

impl<K> SpawnReport<K> {
    /// Whether the supervisor needs the registry to act on this report. It
    /// does for a started process and for nothing else.
    pub fn needs_registry(&self) -> (needed: bool)
        ensures
            needed == (*self is Started),
    {
        match self {
            SpawnReport::Started { .. } => true,
            _ => false,
        }
    }
}

/// A service under supervision.
#[derive(Clone, Copy, Debug, PartialEq, Eq, Structural)]
pub struct Supervision {
    /// The process identifier of the service.
    pub pid: u32,
    /// Whether its handle went into the registry. Where it did not, the
    /// registry is stale: a warning is due, and the service runs on.
    pub stored: bool,
    /// The state in which the relay for this service starts.
    pub relay: RelayState,
}

/// The message of the error for a command that could not be made.
pub open spec fn command_error(detail: Seq<char>) -> Seq<char> {
    "Failed to create sidecar command: "@ + detail
}

/// The message of the error for a process that did not start.
pub open spec fn spawn_error(detail: Seq<char>) -> Seq<char> {
    "Failed to spawn sidecar: "@ + detail
}

/// Acts on a launch report. `slot` is the registry if its lock could
/// be taken, and `None` if not. A started process is put under supervision:
/// its handle goes into the registry where that is at hand, over whatever
/// the slot held, and is let go where it is not. A failed launch gives the
/// error message and changes nothing.
pub fn supervise<K>(report: SpawnReport<K>, slot: Option<&mut SidecarState<K>>) -> (outcome: Result<
    Supervision,
    String,
>)
    ensures
        match report {
            SpawnReport::Started { handle } => {
                &&& outcome == Ok::<Supervision, String>(
                    Supervision {
                        pid: handle.pid,
                        stored: slot is Some,
                        relay: RelayState::Relaying,
                    },
                )
                &&& slot matches Some(registry) ==> *final(registry) == registry.stored(handle)
            },
            SpawnReport::CommandRejected { detail } => {
                &&& outcome matches Err(message) && message@ == command_error(detail@)
                &&& slot matches Some(registry) ==> *final(registry) == *registry
            },
            SpawnReport::SpawnFailed { detail } => {
                &&& outcome matches Err(message) && message@ == spawn_error(detail@)
                &&& slot matches Some(registry) ==> *final(registry) == *registry
            },
        },
{
    match report {
        SpawnReport::Started { handle } => {
            let pid = handle.pid;
            match slot {
                Some(registry) => {
                    registry.store(handle);
                    Ok(Supervision { pid, stored: true, relay: RelayState::Relaying })
                },
                None => Ok(Supervision { pid, stored: false, relay: RelayState::Relaying }),
            }
        },
        SpawnReport::CommandRejected { detail } => Err(
            join("Failed to create sidecar command: ", detail.as_str()),
        ),
        SpawnReport::SpawnFailed { detail } => Err(
            join("Failed to spawn sidecar: ", detail.as_str()),
        ),
    }
}

} // verus!
