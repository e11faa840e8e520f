//! Bind a value to a thread.

use crate::error::WrongThreadAccess;
use crate::state::GuardState;
use crate::thread_id::ThreadId;
use vstd::prelude::*;
use vstd::string::StringExecFns;

verus! {

/// Binds the value to the thread `current`.
pub fn thread_bound<T>(value: T, current: ThreadId) -> (bound: ThreadBound<T>)
    ensures
        bound@ == GuardState::bound(value, current),
{
    ThreadBound::new(value, current)
}

/// Allows access to a value only from the thread that created this.
///
/// The guard holds the payload and the identity of its owner, nothing that
/// belongs to a thread, so the guard itself may travel. Every operation that
/// reaches the payload names the thread that performs it and is open to the
/// owner alone: for any other thread [`ThreadBound::check`] reports the
/// violation. Asking who owns the value, asking whether a thread may use it
/// and writing the diagnostic form are open to every thread.
///
/// The payload sits in a slot that is full until the value is taken out or
/// released; after that the guard owns nothing.
pub struct ThreadBound<T> {
    value: Option<T>,
    thread_id: ThreadId,
}

impl<T> View for ThreadBound<T> {
    type V = GuardState<T>;

    closed spec fn view(&self) -> GuardState<T> {
        GuardState { owner: self.thread_id, payload: self.value }
    }
}

/// `std::mem::needs_drop`: whether dropping a `T` may run code. The answer
/// belongs to the type and the compiler, so nothing is claimed of it.
#[verifier::external_body]
fn payload_needs_drop<T>() -> (needed: bool) {
    std::mem::needs_drop::<T>()
}

/// The `{:?}` form of a value, as its type's `Debug` writes it. The text is the
/// payload type's own, so nothing is claimed of it.
#[verifier::external_body]
fn debug_form<T: core::fmt::Debug>(value: &T) -> (s: String) {
    format!("{:?}", value)
}

/// `Hash::hash`: feeds a value to a hasher as its type's `Hash` does. Both are
/// the caller's, so nothing is claimed of the hasher afterwards.
#[verifier::external_body]
fn feed_hasher<T: core::hash::Hash, H: core::hash::Hasher>(value: &T, state: &mut H) {
    value.hash(state)
}

/// The diagnostic form of a guard: its name, the owner, and the payload's own
/// diagnostic form where one is given.
pub open spec fn debug_text(owner: ThreadId, payload: Option<Seq<char>>) -> Seq<char> {
    match payload {
        Some(form) => "ThreadBound { thread_id: "@ + owner.text() + ", value: "@ + form + " }"@,
        None => "ThreadBound { thread_id: "@ + owner.text() + " }"@,
    }
}

/// Writes the diagnostic form of a guard of `owner`, with the payload's form
/// where the caller could obtain it.
pub fn write_debug(owner: ThreadId, payload: Option<&str>) -> (s: String)
    ensures
        s@ == debug_text(
            owner,
            match payload {
                Some(form) => Some(form@),
                None => None,
            },
        ),
{
    let mut s = String::from_str("ThreadBound { thread_id: ");
    s.append(owner.debug_string().as_str());
    if let Some(form) = payload {
        s.append(", value: ");
        s.append(form);
    }
    s.append(" }");
    s
}

impl<T> ThreadBound<T> {
    /// Binds the value to the thread `current`.
    pub fn new(value: T, current: ThreadId) -> (bound: Self)
        ensures
            bound@ == GuardState::bound(value, current),
    {
        Self { value: Some(value), thread_id: current }
    }

    /// The id of the thread that is allowed to access the inner value.
    ///
    /// Any thread may ask.
    pub fn thread_id(this: &Self) -> (id: ThreadId)
        ensures
            id == this@.owner,
    {
        this.thread_id
    }

    /// Whether the value is usable from the thread `current`.
    ///
    /// Any thread may ask.
    pub fn is_usable(this: &Self, current: ThreadId) -> (usable: bool)
        ensures
            usable == this@.usable_from(current),
    {
        current == this.thread_id
    }

    /// Whether the payload has left the guard.
    pub fn is_taken(this: &Self) -> (taken: bool)
        ensures
            taken == this@.taken(),
    {
        this.value.is_none()
    }

    /// The thread check that stands before every access to the payload: it
    /// passes the owner and reports every other thread, with the thread that
    /// asked and the owner.
    pub fn check(&self, current: ThreadId) -> (verdict: Result<(), WrongThreadAccess>)
        ensures
            verdict == self@.access_by(current),
    {
        if Self::is_usable(self, current) {
            Ok(())
        } else {
            Err(WrongThreadAccess { caller: current, owner: self.thread_id })
        }
    }

    /// Shared access to the payload, for the owner.
    pub fn deref(&self, current: ThreadId) -> (value: &T)
        requires
            self@.accessible_from(current),
        ensures
            *value == self@.value(),
    {
        self.value.as_ref().unwrap()
    }

    /// Exclusive access to the payload, for the owner. What the caller writes
    /// through the reference is the payload afterwards.
    pub fn deref_mut(&mut self, current: ThreadId) -> (value: &mut T)
        requires
            old(self)@.accessible_from(current),
        ensures
            *value == old(self)@.value(),
            final(self)@ == old(self)@.holding(*final(value)),
    {
        self.value.as_mut().unwrap()
    }

    /// Shared access to the payload, for the owner.
    pub fn borrow(&self, current: ThreadId) -> (value: &T)
        requires
            self@.accessible_from(current),
        ensures
            *value == self@.value(),
    {
        self.deref(current)
    }

    /// Exclusive access to the payload, for the owner. What the caller writes
    /// through the reference is the payload afterwards.
    pub fn borrow_mut(&mut self, current: ThreadId) -> (value: &mut T)
        requires
            old(self)@.accessible_from(current),
        ensures
            *value == old(self)@.value(),
            final(self)@ == old(self)@.holding(*final(value)),
    {
        self.deref_mut(current)
    }

    /// A guard of the same owner around a clone of the payload.
    ///
    /// Cloning hands the owner on and does not make the calling thread one.
    pub fn clone(&self, current: ThreadId) -> (copy: Self) where T: Clone
        requires
            self@.accessible_from(current),
        ensures
            copy@.owner == self@.owner,
            !copy@.taken(),
            cloned(self@.value(), copy@.value()),
    {
        Self { value: Some(self.deref(current).clone()), thread_id: self.thread_id }
    }

    /// Binds the payload type's default value to the thread `current`.
    pub fn default(current: ThreadId) -> (bound: Self) where T: Default
        ensures
            bound@.owner == current,
            !bound@.taken(),
            call_ensures(T::default, (), bound@.value()),
    {
        Self::new(T::default(), current)
    }

    /// Whether the payloads of two guards of one owner are equal, as the
    /// payload type compares them.
    pub fn eq(&self, other: &Self, current: ThreadId) -> (equal: bool) where T: PartialEq
        requires
            self@.accessible_from(current),
            other@.accessible_from(current),
        ensures
            call_ensures(T::eq, (&self@.value(), &other@.value()), equal),
    {
        self.deref(current).eq(other.deref(current))
    }

    /// Whether the payload equals a bare value, as the payload type compares
    /// them. The bare value is not checked.
    pub fn eq_value(&self, other: &T, current: ThreadId) -> (equal: bool) where T: PartialEq
        requires
            self@.accessible_from(current),
        ensures
            call_ensures(T::eq, (&self@.value(), other), equal),
    {
        self.deref(current).eq(other)
    }

    /// How the payloads of two guards of one owner compare, as the payload
    /// type orders them, where it does.
    pub fn partial_cmp(&self, other: &Self, current: ThreadId) -> (order: Option<
        core::cmp::Ordering,
    >) where T: PartialOrd
        requires
            self@.accessible_from(current),
            other@.accessible_from(current),
        ensures
            call_ensures(T::partial_cmp, (&self@.value(), &other@.value()), order),
    {
        self.deref(current).partial_cmp(other.deref(current))
    }

    /// How the payload compares with a bare value, as the payload type orders
    /// them, where it does. The bare value is not checked.
    pub fn partial_cmp_value(&self, other: &T, current: ThreadId) -> (order: Option<
        core::cmp::Ordering,
    >) where T: PartialOrd
        requires
            self@.accessible_from(current),
        ensures
            call_ensures(T::partial_cmp, (&self@.value(), other), order),
    {
        self.deref(current).partial_cmp(other)
    }

    /// How the payloads of two guards of one owner compare in the payload
    /// type's total order.
    pub fn cmp(&self, other: &Self, current: ThreadId) -> (order: core::cmp::Ordering) where T: Ord
        requires
            self@.accessible_from(current),
            other@.accessible_from(current),
        ensures
            call_ensures(T::cmp, (&self@.value(), &other@.value()), order),
    {
        self.deref(current).cmp(other.deref(current))
    }

    /// Feeds the payload to `state`, as the payload type hashes it.
    pub fn hash<H: core::hash::Hasher>(&self, state: &mut H, current: ThreadId) where
        T: core::hash::Hash,

        requires
            self@.accessible_from(current),
    {
        feed_hasher(self.deref(current), state)
    }

    /// The payload as its type displays it.
    pub fn display_string(&self, current: ThreadId) -> (s: String) where T: core::fmt::Display
        requires
            self@.accessible_from(current),
        ensures
            vstd::string::to_string_from_display_ensures::<T>(&self@.value(), s),
    {
        self.deref(current).to_string()
    }

    /// The diagnostic form of the guard, for any thread: the owner always, the
    /// payload only where `current` may reach it.
    pub fn debug_string(&self, current: ThreadId) -> (s: String) where T: core::fmt::Debug
        ensures
            !self@.accessible_from(current) ==> s@ == debug_text(self@.owner, None),
            self@.accessible_from(current) ==> exists|form: Seq<char>|
                s@ == debug_text(self@.owner, Some(form)),
    {
        if Self::is_usable(self, current) && !Self::is_taken(self) {
            let form = debug_form(self.deref(current));
            write_debug(self.thread_id, Some(form.as_str()))
        } else {
            write_debug(self.thread_id, None)
        }
    }

    /// Takes the payload out through a mutable reference and leaves the slot
    /// empty. The guard keeps its owner.
    pub fn take(this: &mut Self, current: ThreadId) -> (value: T)
        requires
            old(this)@.accessible_from(current),
        ensures
            value == old(this)@.value(),
            final(this)@ == old(this)@.emptied(),
    {
        this.value.take().unwrap()
    }

    /// Takes the inner value out.
    ///
    /// Only the owner may do so, and only while the payload is here.
    pub fn into_inner(this: Self, current: ThreadId) -> (value: T)
        requires
            this@.accessible_from(current),
        ensures
            value == this@.value(),
    {
        let mut this = this;
        Self::take(&mut this, current)
    }

    /// Ends the guard on the thread `current`, given whether releasing a
    /// payload of this type may run code.
    ///
    /// A payload that is still here and needs releasing is released by its
    /// owner; any other thread is reported and the payload stays where it is.
    /// A guard with nothing to release ends on any thread and is left as it
    /// was.
    pub fn teardown_with(this: &mut Self, needs_drop: bool, current: ThreadId) -> (verdict: Result<
        (),
        WrongThreadAccess,
    >)
        ensures
            verdict == old(this)@.teardown_verdict(needs_drop, current),
            final(this)@ == old(this)@.after_teardown(needs_drop, current),
    {
        if needs_drop && !Self::is_taken(this) {
            match this.check(current) {
                Ok(()) => {
                    this.value = None;
                },
                Err(e) => {
                    return Err(e);
                },
            }
        }
        Ok(())
    }

    /// Ends the guard on the thread `current`; whether the payload needs
    /// releasing is asked of its type.
    pub fn teardown(this: &mut Self, current: ThreadId) -> (verdict: Result<(), WrongThreadAccess>)
        ensures
            ({
                &&& verdict == old(this)@.teardown_verdict(true, current)
                &&& final(this)@ == old(this)@.after_teardown(true, current)
            }) || ({
                &&& verdict == old(this)@.teardown_verdict(false, current)
                &&& final(this)@ == old(this)@.after_teardown(false, current)
            }),
    {
        Self::teardown_with(this, payload_needs_drop::<T>(), current)
    }
}

} // verus!
