//! Handles to running subscriber loops, and the liveness flags behind them.
//!
//! A loop owns a boolean flag for as long as it runs. A handle names the
//! loop without owning anything: through it the flag can be read and
//! lowered, and once the loop is gone the handle only ever reads "closed".
//! The flags live in a registry, one cell per loop that was ever started;
//! the number of a cell is the identity of its handle. A flag that was
//! lowered is never raised again: every operation keeps closed handles closed.

use vstd::prelude::*;

verus! {

/// What the flag of one loop says.
#[derive(Debug, Clone, Copy, PartialEq, Eq, Structural)]
pub enum Liveness {
    /// The loop runs and nobody asked it to stop.
    Running,
    /// The loop was asked to stop and has not yet gone.
    Stopping,
    /// The loop is gone, and its flag with it.
    Exited,
}

/// Handle to a subscriber loop.
///
/// Two handles are equal exactly when they name the same loop.
#[derive(Debug, Clone, Copy, PartialEq, Eq, Hash, Structural)]
pub struct SubscriberHandle {
    /// Identity used for hashing and comparison; the first loop has 1.
    subscriber_id: u64,
}

/// The liveness flags of all loops that were started through it.
pub struct LivenessRegistry {
    /// The cell of the loop with identity `k` is at index `k - 1`.
    cells: Vec<Liveness>,
}

impl SubscriberHandle {
    /// The identity of the loop that the handle names.
    pub closed spec fn id(self) -> u64 {
        self.subscriber_id
    }

    /// The identity of the loop that the handle names.
    pub fn subscriber_id(&self) -> (id: u64)
        ensures
            id == self.id(),
    {
        self.subscriber_id
    }

    /// Equal identities make equal handles.
    pub proof fn lemma_equal_by_identity(self, other: SubscriberHandle)
        ensures
            self == other <==> self.id() == other.id(),
    {
    }

    /// Starts the bookkeeping of a new loop: a flag that reads "running" and
    /// a handle with an identity that no earlier handle of this registry has.
    /// All other flags stay as they are. Gives `None`, and changes nothing,
    /// only when every identity has been handed out.
    pub fn new(registry: &mut LivenessRegistry) -> (handle: Option<SubscriberHandle>)
        ensures
            handle == old(registry).next_handle(),
            old(registry).issued_count() < u64::MAX <==> handle.is_some(),
            handle.is_none() ==> *final(registry) == *old(registry),
            handle.is_some() ==> {
                let h = handle.unwrap();
                &&& h.id() == old(registry).issued_count() + 1
                &&& !old(registry).issued(h)
                &&& final(registry).issued_count() == old(registry).issued_count() + 1
                &&& final(registry).state_of(h) == Liveness::Running
                &&& forall|other: SubscriberHandle|
                    other != h ==> final(registry).state_of(other) == old(registry).state_of(other)
            },
            forall|other: SubscriberHandle|
                old(registry).issued(other) && old(registry).closed(other) ==> final(
                    registry
                ).closed(other),
    {
        let count = registry.cells.len() as u64;
        if count == u64::MAX {
            return None;
        }
        registry.cells.push(Liveness::Running);
        let handle = SubscriberHandle { subscriber_id: count + 1 };
        proof {
            assert forall|other: SubscriberHandle| other != handle implies registry.state_of(
                other,
            ) == old(registry).state_of(other) by {
                if old(registry).issued(other) {
                    let at = other.subscriber_id - 1;
                    assert(registry.cells@[at] == old(registry).cells@[at]);
                }
            }
        }
        Some(handle)
    }

    /// Whether the loop is closed or set to be closed: true once the loop
    /// has exited, and as soon as its flag was lowered.
    pub fn is_closed(&self, registry: &LivenessRegistry) -> (closed: bool)
        ensures
            closed == registry.closed(*self),
    {
        match registry.lookup(*self) {
            Liveness::Running => false,
            _ => true,
        }
    }

    /// Asks the loop to stop. Lowers the flag of a running loop and does
    /// nothing to a loop that is stopping or gone. Other loops are not
    /// touched, and afterwards the handle reads "closed".
    pub fn close(&self, registry: &mut LivenessRegistry)
        ensures
            final(registry).closed(*self),
            final(registry).state_of(*self) == (if old(registry).state_of(*self)
                == Liveness::Running {
                Liveness::Stopping
            } else {
                old(registry).state_of(*self)
            }),
            final(registry).issued_count() == old(registry).issued_count(),
            forall|other: SubscriberHandle|
                other != *self ==> final(registry).state_of(other) == old(registry).state_of(other),
            forall|other: SubscriberHandle|
                old(registry).closed(other) ==> final(registry).closed(other),
    {
        match registry.lookup(*self) {
            Liveness::Running => registry.store(*self, Liveness::Stopping),
            _ => {},
        }
    }
}

impl LivenessRegistry {
    /// How many handles were handed out.
    pub closed spec fn issued_count(&self) -> nat {
        self.cells@.len()
    }

    /// The handle that the next new loop gets, while identities are left.
    pub closed spec fn next_handle(&self) -> Option<SubscriberHandle> {
        if self.cells@.len() < u64::MAX {
            Some(SubscriberHandle { subscriber_id: (self.cells@.len() + 1) as u64 })
        } else {
            None
        }
    }

    /// The next handle has the identity that follows the number of handles
    /// handed out so far, and there is one as long as identities are left.
    pub proof fn lemma_next_handle(&self)
        ensures
            self.next_handle().is_some() <==> self.issued_count() < u64::MAX,
            self.next_handle().is_some() ==> self.next_handle().unwrap().id()
                == self.issued_count() + 1,
            self.next_handle().is_some() ==> !self.issued(self.next_handle().unwrap()),
    {
    }

    /// A flag that exists belongs to a handle that this registry handed out:
    /// whatever reads as running or stopping was issued here.
    pub proof fn lemma_flag_means_issued(&self, handle: SubscriberHandle)
        ensures
            self.state_of(handle) != Liveness::Exited ==> self.issued(handle),
    {
    }

    /// Whether the handle was handed out by this registry.
    pub open spec fn issued(&self, handle: SubscriberHandle) -> bool {
        1 <= handle.id() <= self.issued_count()
    }

    /// What the flag behind the handle says. A handle that this registry
    /// never handed out has no flag, which reads as a loop that is gone.
    pub closed spec fn state_of(&self, handle: SubscriberHandle) -> Liveness {
        if 1 <= handle.subscriber_id <= self.cells@.len() {
            self.cells@[handle.subscriber_id - 1]
        } else {
            Liveness::Exited
        }
    }

    /// Whether the handle reads "closed": its loop is gone or was asked to
    /// stop.
    pub open spec fn closed(&self, handle: SubscriberHandle) -> bool {
        self.state_of(handle) != Liveness::Running
    }

    /// A registry without any loop.
    pub fn new() -> (registry: LivenessRegistry)
        ensures
            registry.issued_count() == 0,
            forall|handle: SubscriberHandle| registry.closed(handle),
    {
        LivenessRegistry { cells: Vec::new() }
    }

    /// What the flag behind the handle says.
    pub fn lookup(&self, handle: SubscriberHandle) -> (state: Liveness)
        ensures
            state == self.state_of(handle),
    {
        let id = handle.subscriber_id;
        if id >= 1 && id - 1 < self.cells.len() as u64 {
            self.cells[(id - 1) as usize]
        } else {
            Liveness::Exited
        }
    }

    /// Marks the loop as gone: its flag no longer exists. Does nothing for a
    /// handle that was never handed out; other loops are not touched.
    pub fn retire(&mut self, handle: SubscriberHandle)
        ensures
            final(self).state_of(handle) == Liveness::Exited,
            final(self).issued_count() == old(self).issued_count(),
            forall|other: SubscriberHandle|
                other != handle ==> final(self).state_of(other) == old(self).state_of(other),
            forall|other: SubscriberHandle| old(self).closed(other) ==> final(self).closed(other),
    {
        self.store(handle, Liveness::Exited);
    }

    /// Writes the flag of a handle that was handed out.
    fn store(&mut self, handle: SubscriberHandle, state: Liveness)
        ensures
            old(self).issued(handle) ==> final(self).state_of(handle) == state,
            !old(self).issued(handle) ==> final(self).state_of(handle) == Liveness::Exited,
            final(self).issued_count() == old(self).issued_count(),
            forall|other: SubscriberHandle|
                other != handle ==> final(self).state_of(other) == old(self).state_of(other),
    {
        let id = handle.subscriber_id;
        if id >= 1 && id - 1 < self.cells.len() as u64 {
            self.cells.set((id - 1) as usize, state);
        }
    }
}

} // verus!
