//! What holds of every guard, whatever it holds and whoever asks.

use crate::error::WrongThreadAccess;
use crate::state::GuardState;
use crate::thread_id::ThreadId;
use vstd::prelude::*;

verus! {

/// The thread that binds a value owns the guard and may use it: it passes the
/// thread check and reaches the payload.
pub proof fn law_binder_owns<T>(value: T, owner: ThreadId)
    ensures
        GuardState::bound(value, owner).owner == owner,
        GuardState::bound(value, owner).usable_from(owner),
        GuardState::bound(value, owner).accessible_from(owner),
        GuardState::bound(value, owner).access_by(owner) == Ok::<(), WrongThreadAccess>(()),
{
}

/// A thread other than the owner is refused whatever reaches the payload: the
/// thread check reports it, with itself and the owner, and no access is open
/// to it. It is still told that it may not use the guard, and the end of a
/// guard on it releases nothing.
pub proof fn law_stranger_is_refused<T>(guard: GuardState<T>, stranger: ThreadId, needs_drop: bool)
    requires
        stranger != guard.owner,
    ensures
        guard.access_by(stranger) == Err::<(), WrongThreadAccess>(
            WrongThreadAccess { caller: stranger, owner: guard.owner },
        ),
        !guard.usable_from(stranger),
        !guard.accessible_from(stranger),
        !guard.releases_on(needs_drop, stranger),
        guard.after_teardown(needs_drop, stranger) == guard,
        guard.teardown_verdict(needs_drop, stranger) is Err <==> needs_drop && !guard.taken(),
{
}

/// Only the owner passes the thread check, and it always does.
pub proof fn law_owner_alone_passes<T>(guard: GuardState<T>, thread: ThreadId)
    ensures
        guard.access_by(thread) is Ok <==> thread == guard.owner,
        guard.usable_from(thread) <==> thread == guard.owner,
{
}

/// Taking out of a fresh guard, on the thread that made it, gives back the
/// value that was bound.
pub proof fn law_round_trip<T>(value: T, owner: ThreadId)
    ensures
        GuardState::bound(value, owner).accessible_from(owner),
        GuardState::bound(value, owner).value() == value,
        GuardState::bound(value, owner).emptied().taken(),
{
}

/// A guard whose payload has left it releases nothing when it ends, on any
/// thread and for any payload type, and no thread is refused.
pub proof fn law_no_second_release<T>(guard: GuardState<T>, needs_drop: bool, thread: ThreadId)
    requires
        guard.taken(),
    ensures
        guard.teardown_verdict(needs_drop, thread) == Ok::<(), WrongThreadAccess>(()),
        !guard.releases_on(needs_drop, thread),
        guard.after_teardown(needs_drop, thread) == guard,
{
}

/// A payload whose release runs no code is behind no check when the guard
/// ends: any thread may end the guard.
pub proof fn law_trivial_release_is_open<T>(guard: GuardState<T>, thread: ThreadId)
    ensures
        guard.teardown_verdict(false, thread) == Ok::<(), WrongThreadAccess>(()),
        guard.after_teardown(false, thread) == guard,
{
}

/// The owner is fixed for the life of a guard: writing the payload, taking it
/// out and ending the guard all keep it, so asking for the owner, or whether a
/// thread may use the guard, is answered the same before and after.
pub proof fn law_owner_is_fixed<T>(
    guard: GuardState<T>,
    value: T,
    needs_drop: bool,
    thread: ThreadId,
    asker: ThreadId,
)
    ensures
        guard.holding(value).owner == guard.owner,
        guard.emptied().owner == guard.owner,
        guard.after_teardown(needs_drop, thread).owner == guard.owner,
        guard.holding(value).usable_from(asker) == guard.usable_from(asker),
        guard.emptied().usable_from(asker) == guard.usable_from(asker),
        guard.after_teardown(needs_drop, thread).usable_from(asker) == guard.usable_from(asker),
{
}

/// The end of a guard empties the slot exactly when it releases the payload,
/// and it refuses exactly the threads that would have to release a payload
/// they do not own.
pub proof fn law_teardown_outcomes<T>(guard: GuardState<T>, needs_drop: bool, thread: ThreadId)
    ensures
        guard.teardown_verdict(needs_drop, thread) is Err <==> needs_drop && !guard.taken()
            && thread != guard.owner,
        guard.teardown_verdict(needs_drop, thread) is Err ==> guard.teardown_verdict(
            needs_drop,
            thread,
        ) == guard.access_by(thread),
        guard.releases_on(needs_drop, thread) ==> guard.teardown_verdict(needs_drop, thread) is Ok
            && guard.after_teardown(needs_drop, thread).taken(),
        guard.after_teardown(needs_drop, thread).after_teardown(needs_drop, thread)
            == guard.after_teardown(needs_drop, thread),
{
}

} // verus!
