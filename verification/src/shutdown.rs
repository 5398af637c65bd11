//! The shutdown handler: on a close request it takes the handle out of the
//! registry and says how the process is to be terminated.

use crate::registry::{ServiceHandle, SidecarState};
use crate::text::{decimal, decimal_text};
use vstd::prelude::*;

verus! {

/// How a process is terminated on the platform at hand, chosen once at
/// start-up.
#[derive(Clone, Copy, Debug, PartialEq, Eq, Structural)]
pub enum KillStrategy {
    /// A kill request on the handle also ends the descendants.
    Signal,
    /// Only an external utility ends the whole process tree.
    TreeKill,
}

/// Process creation flag that gives the utility no visible console window.
pub const CREATE_NO_WINDOW: u32 = 0x0800_0000;

/// One invocation of the tree-kill utility.
#[derive(Debug, PartialEq, Eq)]
pub struct KillCommand {
    pub program: String,
    pub args: Vec<String>,
    pub creation_flags: u32,
}

/// The model of [`KillCommand`] that the contracts speak of.
pub struct KillCommandView {
    pub program: Seq<char>,
    pub args: Seq<Seq<char>>,
    pub creation_flags: u32,
}

impl View for KillCommand {
    type V = KillCommandView;

    open spec fn view(&self) -> KillCommandView {
        KillCommandView {
            program: self.program@,
            args: self.args.deep_view(),
            creation_flags: self.creation_flags,
        }
    }
}

/// The invocation that ends the process `pid` and all its descendants by
/// force: `taskkill /PID <pid> /F /T`, without a console window.
pub open spec fn tree_kill_model(pid: u32) -> KillCommandView {
    KillCommandView {
        program: "taskkill"@,
        args: seq!["/PID"@, decimal_text(pid as nat), "/F"@, "/T"@],
        creation_flags: CREATE_NO_WINDOW,
    }
}

/// Builds the tree-kill invocation for the process `pid`.
pub fn tree_kill_command(pid: u32) -> (command: KillCommand)
    ensures
        command@ == tree_kill_model(pid),
{
    let mut args: Vec<String> = Vec::new();
    args.push(String::from_str("/PID"));
    args.push(decimal(pid));
    args.push(String::from_str("/F"));
    args.push(String::from_str("/T"));
    let command = KillCommand {
        program: String::from_str("taskkill"),
        args,
        creation_flags: CREATE_NO_WINDOW,
    };
    assert(command@.args =~= tree_kill_model(pid).args);
    command
}

/// What the caller has to do after a close request.
#[derive(Debug, PartialEq, Eq)]
pub enum ShutdownAction<K> {
    /// The slot was empty or out of reach: nothing is terminated.
    Nothing,
    /// Send a kill request through the handle.
    Signal { handle: ServiceHandle<K> },
    /// Run `command`, then let go of the handle.
    TreeKill { handle: ServiceHandle<K>, command: KillCommand },
}

/// The model of [`ShutdownAction`] that the contracts speak of.
pub enum ShutdownActionView<K> {
    Nothing,
    Signal { handle: ServiceHandle<K> },
    TreeKill { handle: ServiceHandle<K>, command: KillCommandView },
}

impl<K> View for ShutdownAction<K> {
    type V = ShutdownActionView<K>;

    open spec fn view(&self) -> ShutdownActionView<K> {
        match *self {
            ShutdownAction::Nothing => ShutdownActionView::Nothing,
            ShutdownAction::Signal { handle } => ShutdownActionView::Signal { handle },
            ShutdownAction::TreeKill { handle, command } => ShutdownActionView::TreeKill {
                handle,
                command: command@,
            },
        }
    }
}

/// The action that a close request calls for, given what the slot held.
pub open spec fn shutdown_model<K>(
    held: Option<ServiceHandle<K>>,
    strategy: KillStrategy,
) -> ShutdownActionView<K> {
    match held {
        None => ShutdownActionView::Nothing,
        Some(handle) => match strategy {
            KillStrategy::Signal => ShutdownActionView::Signal { handle },
            KillStrategy::TreeKill => ShutdownActionView::TreeKill {
                handle,
                command: tree_kill_model(handle.pid),
            },
        },
    }
}

/// Handles a close request. `slot` is the registry if its lock could be
/// taken, and `None` if not. With the registry at hand its handle is taken
/// out, so that the slot is empty afterwards whatever it held, and the action
/// says how to terminate that process. Without it nothing is done.
pub fn handle_close_request<K>(
    slot: Option<&mut SidecarState<K>>,
    strategy: KillStrategy,
) -> (action: ShutdownAction<K>)
    ensures
        match slot {
            Some(registry) => {
                &&& *final(registry) == registry.cleared()
                &&& action@ == shutdown_model(registry.child, strategy)
            },
            None => action@ == ShutdownActionView::<K>::Nothing,
        },
{
    match slot {
        None => ShutdownAction::Nothing,
        Some(registry) => match registry.take() {
            None => ShutdownAction::Nothing,
            Some(handle) => match strategy {
                KillStrategy::Signal => ShutdownAction::Signal { handle },
                KillStrategy::TreeKill => {
                    let command = tree_kill_command(handle.pid);
                    ShutdownAction::TreeKill { handle, command }
                },
            },
        },
    }
}

/// A close request leaves the slot empty, so one that follows it finds the
/// slot empty and terminates nothing, whatever the strategy.
pub proof fn second_close_request_does_nothing<K>(slot: SidecarState<K>, strategy: KillStrategy)
    ensures
        slot.cleared().is_empty(),
        shutdown_model(slot.cleared().child, strategy) == ShutdownActionView::<K>::Nothing,
        slot.cleared().cleared() == slot.cleared(),
{
}

} // verus!
