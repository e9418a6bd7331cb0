//! The heap arena registrar: a one-time, order-dependent handoff of the
//! initialized controller window to the process-wide allocator.

use crate::controller::ControllerSession;
use vstd::prelude::*;

verus! {

/// The allocator's backing arena. Starts unregistered; exactly one
/// controller session may ever be handed to it — registering twice is a
/// programming error, ruled out by the precondition, and the registered
/// state can never be cleared again.
pub struct HeapArena {
    base_address: u32,
    size: u64,
    registered: bool,
}

impl HeapArena {
    /// Whether the arena has received its one-time registration.
    pub closed spec fn spec_registered(&self) -> bool {
        self.registered
    }

    /// The base address handed over at registration.
    pub closed spec fn spec_base(&self) -> u32 {
        self.base_address
    }

    /// The size handed over at registration.
    pub closed spec fn spec_size(&self) -> u64 {
        self.size
    }

    /// An empty, unregistered arena.
    pub fn new() -> (arena: HeapArena)
        ensures
            !arena.spec_registered(),
    {
        HeapArena { base_address: 0, size: 0, registered: false }
    }

    /// The one-time handoff: consumes the initialized controller session and
    /// records its window as the allocator's backing store. Must run after
    /// the controller bring-up succeeded and before any task is scheduled;
    /// calling it a second time is forbidden.
    pub fn register(&mut self, session: ControllerSession)
        requires
            !old(self).spec_registered(),
            session.initialized,
        ensures
            final(self).spec_registered(),
            final(self).spec_base() == session.base_address,
            final(self).spec_size() == session.size,
    {
        self.base_address = session.base_address;
        self.size = session.size;
        self.registered = true;
    }

    /// Whether the one-time registration has happened yet.
    pub fn registered(&self) -> (r: bool)
        ensures
            r == self.spec_registered(),
    {
        self.registered
    }

    /// The registered window, for the shell that installs it as the
    /// allocator's backing store.
    pub fn arena(&self) -> (w: (u32, u64))
        requires
            self.spec_registered(),
        ensures
            w.0 == self.spec_base(),
            w.1 == self.spec_size(),
    {
        (self.base_address, self.size)
    }
}

} // verus!
