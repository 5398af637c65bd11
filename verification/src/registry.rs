//! The registry: one slot that is empty or holds the handle of the one
//! supervised service. Callers guard it with a lock and hand the functions of
//! this crate exclusive access for the length of one store, clear or take.

use vstd::prelude::*;

verus! {

/// One running backend process: its process identifier and the capability
/// `K` to terminate it. A handle is moved, never copied.
#[derive(Debug, PartialEq, Eq)]
pub struct ServiceHandle<K> {
    pub pid: u32,
    pub control: K,
}

/// The registry slot.
#[derive(Debug, PartialEq, Eq)]
pub struct SidecarState<K> {
    pub child: Option<ServiceHandle<K>>,
}

impl<K> SidecarState<K> {
    /// The handles that the slot holds.
    pub open spec fn handles(self) -> Seq<ServiceHandle<K>> {
        match self.child {
            Some(handle) => seq![handle],
            None => Seq::empty(),
        }
    }

    pub open spec fn is_empty(self) -> bool {
        self.child is None
    }

    /// The empty slot.
    pub open spec fn vacant() -> Self {
        SidecarState { child: None }
    }

    /// The slot after `handle` was stored in it.
    pub open spec fn stored(self, handle: ServiceHandle<K>) -> Self {
        SidecarState { child: Some(handle) }
    }

    /// The slot after a clear, which is also the slot after a take.
    pub open spec fn cleared(self) -> Self {
        Self::vacant()
    }

    /// The empty slot that an application starts with.
    pub fn new() -> (slot: Self)
        ensures
            slot == Self::vacant(),
    {
        SidecarState { child: None }
    }

    /// Puts `handle` into the slot. A handle that was there is overwritten.
    pub fn store(&mut self, handle: ServiceHandle<K>)
        ensures
            *final(self) == old(self).stored(handle),
    {
        self.child = Some(handle);
    }

    /// Empties the slot, whether or not it held a handle.
    pub fn clear(&mut self)
        ensures
            *final(self) == old(self).cleared(),
    {
        self.child = None;
    }

    /// Empties the slot and hands out what it held.
    pub fn take(&mut self) -> (taken: Option<ServiceHandle<K>>)
        ensures
            taken == old(self).child,
            *final(self) == old(self).cleared(),
    {
        self.child.take()
    }

    /// Whether the slot holds a handle.
    pub fn is_occupied(&self) -> (occupied: bool)
        ensures
            occupied == !self.is_empty(),
    {
        self.child.is_some()
    }

    /// The process identifier of the handle in the slot, if there is one.
    pub fn pid(&self) -> (pid: Option<u32>)
        ensures
            pid == match self.child {
                Some(handle) => Some(handle.pid),
                None => None,
            },
    {
        match &self.child {
            Some(handle) => Some(handle.pid),
            None => None,
        }
    }
}

impl<K> Default for SidecarState<K> {
    fn default() -> (slot: Self)
        ensures
            slot == Self::vacant(),
    {
        SidecarState { child: None }
    }
}

/// Whatever was done to it, the slot never holds more than one handle.
pub proof fn at_most_one_handle<K>(slot: SidecarState<K>)
    ensures
        slot.handles().len() <= 1,
        slot.is_empty() <==> slot.handles().len() == 0,
{
}

/// A store into an occupied slot replaces the handle: the slot still holds
/// exactly one, the new one.
pub proof fn store_overwrites<K>(slot: SidecarState<K>, first: ServiceHandle<K>, second: ServiceHandle<K>)
    ensures
        slot.stored(first).stored(second).handles() == seq![second],
{
}

/// Clearing twice in a row leaves the slot as clearing once does.
pub proof fn clear_is_idempotent<K>(slot: SidecarState<K>)
    ensures
        slot.cleared().cleared() == slot.cleared(),
        slot.cleared().is_empty(),
{
}

} // verus!
