//! The state of a guard, as contracts speak of it.

use crate::error::WrongThreadAccess;
use crate::thread_id::ThreadId;
use vstd::prelude::*;

verus! {

/// What a guard is at one moment: who owns it, and what its slot holds.
///
/// The slot is full from the binding until the payload is taken out or
/// released, and empty from then on. The owner never changes.
pub struct GuardState<T> {
    /// The thread that bound the payload.
    pub owner: ThreadId,
    /// The payload, or nothing once it has left the guard.
    pub payload: Option<T>,
}

impl<T> GuardState<T> {
    /// The state of a guard that `owner` has just made around `value`.
    pub open spec fn bound(value: T, owner: ThreadId) -> Self {
        GuardState { owner, payload: Some(value) }
    }

    /// Whether the payload has left the guard.
    pub open spec fn taken(self) -> bool {
        self.payload is None
    }

    /// The payload of a guard whose slot is full.
    pub open spec fn value(self) -> T
        recommends
            !self.taken(),
    {
        self.payload->0
    }

    /// Whether `thread` is the owner.
    pub open spec fn usable_from(self, thread: ThreadId) -> bool {
        thread == self.owner
    }

    /// Whether `thread` may reach the payload: it is the owner, and the
    /// payload is still here.
    pub open spec fn accessible_from(self, thread: ThreadId) -> bool {
        self.usable_from(thread) && !self.taken()
    }

    /// What the thread check answers to `thread`: it passes the owner and
    /// reports every other thread.
    pub open spec fn access_by(self, thread: ThreadId) -> Result<(), WrongThreadAccess> {
        if thread == self.owner {
            Ok(())
        } else {
            Err(WrongThreadAccess { caller: thread, owner: self.owner })
        }
    }

    /// The state once the payload has been replaced by `value`.
    pub open spec fn holding(self, value: T) -> Self {
        GuardState { owner: self.owner, payload: Some(value) }
    }

    /// The state once the payload has left the guard.
    pub open spec fn emptied(self) -> Self {
        GuardState { owner: self.owner, payload: None }
    }

    /// What the end of the guard answers to `thread`. Only a payload that is
    /// still here and whose release may run code is checked; a guard with
    /// nothing to release ends on any thread.
    pub open spec fn teardown_verdict(self, needs_drop: bool, thread: ThreadId) -> Result<
        (),
        WrongThreadAccess,
    > {
        if needs_drop && !self.taken() {
            self.access_by(thread)
        } else {
            Ok(())
        }
    }

    /// Whether the end of the guard on `thread` releases the payload: there is
    /// one, its release may run code, and `thread` owns it.
    pub open spec fn releases_on(self, needs_drop: bool, thread: ThreadId) -> bool {
        needs_drop && !self.taken() && thread == self.owner
    }

    /// The state after the guard was asked to end on `thread`: empty where the
    /// payload was released, unchanged where there was nothing to release or
    /// the thread was refused.
    pub open spec fn after_teardown(self, needs_drop: bool, thread: ThreadId) -> Self {
        if self.releases_on(needs_drop, thread) {
            self.emptied()
        } else {
            self
        }
    }
}

} // verus!
