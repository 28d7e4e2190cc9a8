//! A single owner of a heap value together with cheap non-owning copies.
//!
//! The owner is a `StrongPtr`; `to_weak` hands out `WeakPtr`s to the same
//! value. Releasing the owner invalidates every weak pointer made from it:
//! from then on they refuse access instead of reading a value whose owner is
//! gone.
//!
//! Whether the owner lives is kept in a `Liveness` that the owner and its
//! weak pointers share. `Liveness` and `read_checked` say exactly what a
//! read gives for each state; the pointers apply them to the state that is
//! there at the moment of the call.

use std::sync::Arc;
use vstd::prelude::*;
use vstd::rwlock::{RwLock, RwLockPredicate};

verus! {

/// A weak pointer was used after its owner was released.
#[derive(Clone, Copy, Debug, PartialEq, Eq, Structural)]
pub struct DanglingAccess;

/// A pointer was asked to be of a type that it is not.
#[derive(Clone, Copy, Debug, PartialEq, Eq, Structural)]
pub struct InvalidCast;

/// Whether an owner lives that was given up `given_up` times: it does until
/// it is given up for the first time.
pub open spec fn lives(given_up: nat) -> bool {
    given_up == 0
}

/// Given up is for good: whatever happens to an owner after it was given
/// up, it does not live again.
pub proof fn lemma_gone_for_good(given_up: nat, later: nat)
    requires
        !lives(given_up),
    ensures
        !lives(given_up + later),
{
}

/// What a read of `value` gives under an owner that lives or does not: the
/// value while it lives, and `DanglingAccess` once it does not. The value is
/// not looked at where the owner is gone.
pub fn read_checked<'a, T>(alive: bool, value: &'a T) -> (read: Result<&'a T, DanglingAccess>)
    ensures
        alive ==> read == Ok::<&T, DanglingAccess>(value),
        !alive ==> read == Err::<&T, DanglingAccess>(DanglingAccess),
{
    if alive {
        Ok(value)
    } else {
        Err(DanglingAccess)
    }
}

/// Whether an owner lives, together with the record of how often it was
/// given up. The record exists for the proof only.
pub struct Liveness {
    alive: bool,
    given_up: Ghost<nat>,
}

impl Liveness {
    /// How often the owner was given up.
    pub closed spec fn given_up(&self) -> nat {
        self.given_up@
    }

    /// Whether the owner lives.
    pub closed spec fn spec_is_alive(&self) -> bool {
        self.alive
    }

    /// The record is true: the owner lives exactly if it was never given
    /// up.
    pub closed spec fn wf(&self) -> bool {
        self.alive == lives(self.given_up@)
    }

    /// What a true record says, in the open.
    pub proof fn lemma_record(&self)
        requires
            self.wf(),
        ensures
            self.is_alive() == lives(self.given_up()),
    {
    }

    /// The liveness of an owner that was just made: it lives.
    pub fn new() -> (liveness: Liveness)
        ensures
            liveness.wf(),
            liveness.is_alive(),
            liveness.given_up() == 0,
    {
        Liveness { alive: true, given_up: Ghost(0) }
    }

    /// Whether the owner lives.
    #[verifier::when_used_as_spec(spec_is_alive)]
    pub fn is_alive(&self) -> (alive: bool)
        ensures
            alive == self.spec_is_alive(),
    {
        self.alive
    }

    /// Gives the owner up. It does not live from now on, whatever it was
    /// before.
    pub fn give_up(&mut self)
        requires
            old(self).wf(),
        ensures
            final(self).wf(),
            !final(self).is_alive(),
            final(self).given_up() == old(self).given_up() + 1,
    {
        self.alive = false;
        self.given_up = Ghost((self.given_up@ + 1) as nat);
    }

    /// A read of `value` under this owner: the value while the owner
    /// lives, and `DanglingAccess` once it was given up.
    pub fn read<'a, T>(&self, value: &'a T) -> (read: Result<&'a T, DanglingAccess>)
        ensures
            self.is_alive() ==> read == Ok::<&T, DanglingAccess>(value),
            !self.is_alive() ==> read == Err::<&T, DanglingAccess>(DanglingAccess),
    {
        read_checked(self.alive, value)
    }
}

/// What the lock of a liveness keeps: one whose record is true.
pub struct TrueRecord;

impl RwLockPredicate<Liveness> for TrueRecord {
    open spec fn inv(self, liveness: Liveness) -> bool {
        liveness.wf()
    }
}

/// The owner of a value.
pub struct StrongPtr<T> {
    alive: Arc<RwLock<Liveness, TrueRecord>>,
    value: Arc<T>,
}

/// A non-owning copy of a `StrongPtr`.
pub struct WeakPtr<T> {
    alive: Arc<RwLock<Liveness, TrueRecord>>,
    value: Arc<T>,
}

impl<T> StrongPtr<T> {
    /// The value owned.
    pub closed spec fn value(&self) -> T {
        *self.value
    }

    /// Whether `weak` was made from this owner.
    pub closed spec fn owns(&self, weak: &WeakPtr<T>) -> bool {
        weak.alive == self.alive && weak.value == self.value
    }

    /// Moves `value` to the heap and owns it.
    pub fn new(value: T) -> (owner: StrongPtr<T>)
        ensures
            owner.value() == value,
    {
        let alive = RwLock::<Liveness, TrueRecord>::new(Liveness::new(), Ghost(TrueRecord));
        StrongPtr { alive: Arc::new(alive), value: Arc::new(value) }
    }

    /// A non-owning copy that reads the same value.
    pub fn to_weak(&self) -> (weak: WeakPtr<T>)
        ensures
            self.owns(&weak),
            weak.value() == self.value(),
    {
        WeakPtr { alive: self.alive.clone(), value: self.value.clone() }
    }

    /// The value. The owner can always read it.
    pub fn get(&self) -> (value: &T)
        ensures
            *value == self.value(),
    {
        &*self.value
    }

    /// Gives the ownership up, as `Liveness::give_up` does on the liveness
    /// that the weak pointers share. Every weak pointer made from this owner
    /// is invalid from now on.
    pub fn release(self) {
        let (mut liveness, guard) = self.alive.acquire_write();
        liveness.give_up();
        guard.release_write(liveness);
    }
}

impl<T: Default> Default for StrongPtr<T> {
    /// The owner of a default value, whatever `T` takes that to be.
    fn default() -> (owner: StrongPtr<T>)
        ensures
            T::default.ensures((), owner.value()),
    {
        StrongPtr::new(T::default())
    }
}

impl<T> WeakPtr<T> {
    /// The value that this pointer reads while its owner lives.
    pub closed spec fn value(&self) -> T {
        *self.value
    }

    /// Whether two weak pointers were made from the same owner.
    pub closed spec fn same_owner(&self, other: &WeakPtr<T>) -> bool {
        self.alive == other.alive && self.value == other.value
    }

    /// Whether the owner has not been released yet, at this moment: what
    /// `Liveness::is_alive` says of the liveness that is there then.
    pub fn is_alive(&self) -> bool {
        let guard = self.alive.acquire_read();
        let alive = guard.borrow().is_alive();
        guard.release_read();
        alive
    }

    /// The value, if the owner still lives at this moment: what
    /// `Liveness::read` gives on the liveness that is there then. The value
    /// read is the owner's, and nothing but a released owner refuses the
    /// read.
    pub fn get(&self) -> (value: Result<&T, DanglingAccess>)
        ensures
            value matches Ok(read) ==> *read == self.value(),
    {
        let guard = self.alive.acquire_read();
        let read = guard.borrow().read(&*self.value);
        guard.release_read();
        read
    }
}

impl<T> Clone for WeakPtr<T> {
    /// Another weak pointer of the same owner.
    fn clone(&self) -> (copy: WeakPtr<T>)
        ensures
            copy.same_owner(self),
            copy.value() == self.value(),
    {
        WeakPtr { alive: self.alive.clone(), value: self.value.clone() }
    }
}

} // verus!
