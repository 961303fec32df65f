use vstd::prelude::*;

use crate::error::Error;

verus! {

/// The two states of a lock's flag.
#[derive(Debug, Clone, Copy, PartialEq, Eq, Structural)]
pub enum LockState {
    Unlocked,
    Locked,
}

/// Whether an acquisition attempt on a lock in state `s` succeeds.
pub open spec fn acquires(s: LockState) -> bool {
    s == LockState::Unlocked
}

/// The state after an acquisition attempt, whether or not it succeeded.
pub open spec fn after_attempt(s: LockState) -> LockState {
    LockState::Locked
}

/// The state after `n` acquisition attempts starting from `s`.
pub open spec fn after_attempts(s: LockState, n: nat) -> LockState
    decreases n,
{
    if n == 0 {
        s
    } else {
        after_attempt(after_attempts(s, (n - 1) as nat))
    }
}

/// The state after a guard is released.
pub open spec fn after_release(s: LockState) -> LockState {
    LockState::Unlocked
}

/// A non-blocking, single-owner lock over a value, for a single core whose
/// only concurrency is an interrupt handler re-entering the same code: the
/// caller masks interrupts around `try_lock` and `release`, and the flag does
/// the rest. It is not re-entrant: a second acquisition before the guard is
/// released fails with `LockContention` instead of waiting.
pub struct Mutex<T> {
    locked: bool,
    value: Option<T>,
    id: Ghost<int>,
}

/// Exclusive access to the value of a locked `Mutex`, until it is handed back
/// to that same lock with `Mutex::release`.
pub struct MutexGuard<T> {
    value: T,
    lock_id: Ghost<int>,
}

impl<T> Mutex<T> {
    #[verifier::type_invariant]
    spec fn held_while_unlocked(self) -> bool {
        self.locked <==> self.value is None
    }

    /// The state of the lock's flag.
    pub closed spec fn state(&self) -> LockState {
        if self.locked {
            LockState::Locked
        } else {
            LockState::Unlocked
        }
    }

    /// Identifies the lock, so that a guard goes back to the lock it came from.
    pub closed spec fn id(&self) -> int {
        self.id@
    }

    /// The protected value, while no guard has it.
    pub closed spec fn contents(&self) -> T
        recommends
            self.state() == LockState::Unlocked,
    {
        self.value->Some_0
    }

    /// An unlocked lock over `value`.
    pub fn new(value: T) -> (r: Mutex<T>)
        ensures
            r.state() == LockState::Unlocked,
            r.contents() == value,
    {
        Mutex { locked: false, value: Some(value), id: Ghost(0) }
    }

    /// Whether the lock is held.
    pub fn is_locked(&self) -> (r: bool)
        ensures
            r == (self.state() == LockState::Locked),
    {
        self.locked
    }

    /// Takes the lock if it is free, handing out the value in a guard; fails
    /// with `LockContention`, changing nothing, if it is already held.
    pub fn try_lock(&mut self) -> (r: Result<MutexGuard<T>, Error>)
        ensures
            r is Ok <==> acquires(old(self).state()),
            final(self).state() == after_attempt(old(self).state()),
            final(self).id() == old(self).id(),
            acquires(old(self).state()) ==> r->Ok_0.value() == old(self).contents()
                && r->Ok_0.lock_id() == old(self).id(),
            !acquires(old(self).state()) ==> r == Err::<MutexGuard<T>, Error>(Error::LockContention)
                && *final(self) == *old(self),
    {
        proof {
            use_type_invariant(&*self);
        }
        if self.locked {
            return Err(Error::LockContention);
        }
        let mut taken = Mutex { locked: true, value: None, id: self.id };
        std::mem::swap(self, &mut taken);
        match taken.value {
            Some(value) => Ok(MutexGuard { value, lock_id: taken.id }),
            None => Err(Error::LockContention),
        }
    }

    /// Hands the guard's value back to the lock it was taken from, and frees
    /// the lock.
    pub fn release(&mut self, guard: MutexGuard<T>)
        requires
            old(self).state() == LockState::Locked,
            guard.lock_id() == old(self).id(),
        ensures
            final(self).id() == old(self).id(),
            final(self).state() == after_release(old(self).state()),
            final(self).contents() == guard.value(),
    {
        *self = Mutex { locked: false, value: Some(guard.value), id: self.id };
    }
}

impl<T> MutexGuard<T> {
    /// The value the guard gives access to.
    pub closed spec fn value(&self) -> T {
        self.value
    }

    /// The lock the guard was taken from.
    pub closed spec fn lock_id(&self) -> int {
        self.lock_id@
    }

    pub fn get(&self) -> (r: &T)
        ensures
            *r == self.value(),
    {
        &self.value
    }

    pub fn get_mut(&mut self) -> (r: &mut T)
        ensures
            *r == old(self).value(),
            final(self).value() == *final(r),
            final(self).lock_id() == old(self).lock_id(),
    {
        &mut self.value
    }
}

/// A lock admits only its two states; an attempt succeeds exactly when the
/// lock was free, and leaves it held either way; and releasing the guard frees
/// the lock, however many attempts failed while it was held.
pub proof fn lemma_lock_states(s: LockState, n: nat)
    ensures
        s == LockState::Unlocked || s == LockState::Locked,
        acquires(s) <==> s == LockState::Unlocked,
        n > 0 ==> after_attempts(s, n) == LockState::Locked,
        forall|k: nat| 0 < k <= n ==> !acquires(#[trigger] after_attempts(s, k)),
        after_release(after_attempts(s, n)) == LockState::Unlocked,
    decreases n,
{
    if n > 0 {
        lemma_lock_states(s, (n - 1) as nat);
    }
}

} // verus!
