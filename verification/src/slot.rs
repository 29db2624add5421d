//! Take-once slots: shared cells that hand a resource over exactly once.

use vstd::prelude::*;

verus! {

/// Why a registry operation was refused.
#[derive(Clone, Copy, Debug, PartialEq, Eq, Structural)]
pub enum RegistryError {
    /// A deposit found the slot already filled.
    Occupied,
    /// A take found nothing in the slot: it was never filled, or its content
    /// has been taken before.
    Vacant,
}

/// A shared cell that is either empty or holds one resource.
pub enum Slot<T> {
    Vacant,
    Held(T),
}

impl<T> Slot<T> {
    /// What a take hands to the caller.
    pub open spec fn taken(self) -> Result<T, RegistryError> {
        match self {
            Slot::Held(value) => Ok(value),
            Slot::Vacant => Err(RegistryError::Vacant),
        }
    }

    /// The slot a take leaves behind.
    pub open spec fn after_take(self) -> Slot<T> {
        Slot::Vacant
    }

    /// The answer to a deposit.
    pub open spec fn deposited(self) -> Result<(), RegistryError> {
        match self {
            Slot::Vacant => Ok(()),
            Slot::Held(_) => Err(RegistryError::Occupied),
        }
    }

    /// The slot a deposit of `value` leaves behind.
    pub open spec fn after_deposit(self, value: T) -> Slot<T> {
        match self {
            Slot::Vacant => Slot::Held(value),
            Slot::Held(_) => self,
        }
    }

    /// An empty slot.
    pub fn new() -> (slot: Self)
        ensures
            slot is Vacant,
    {
        Slot::Vacant
    }

    /// Whether the slot is empty.
    pub fn is_vacant(&self) -> (vacant: bool)
        ensures
            vacant == (self is Vacant),
    {
        match self {
            Slot::Vacant => true,
            Slot::Held(_) => false,
        }
    }

    /// Stores `value` in an empty slot. A filled slot is left as it is and the
    /// deposit is refused.
    pub fn deposit(&mut self, value: T) -> (outcome: Result<(), RegistryError>)
        ensures
            outcome == old(self).deposited(),
            *final(self) == old(self).after_deposit(value),
    {
        if self.is_vacant() {
            *self = Slot::Held(value);
            Ok(())
        } else {
            Err(RegistryError::Occupied)
        }
    }

    /// Reads and clears the slot in one step. The content moves to the caller;
    /// the slot is empty afterwards, so a later take is refused.
    pub fn take(&mut self) -> (outcome: Result<T, RegistryError>)
        ensures
            outcome == old(self).taken(),
            *final(self) == old(self).after_take(),
    {
        let mut content: Slot<T> = Slot::Vacant;
        core::mem::swap(self, &mut content);
        match content {
            Slot::Held(value) => Ok(value),
            Slot::Vacant => Err(RegistryError::Vacant),
        }
    }
}

/// Task-local storage and shared slot after the first-call guard of a task
/// has run: a task that owns its resource keeps it and leaves the slot alone,
/// any other takes what the slot holds.
pub open spec fn claimed<T>(local: Option<T>, shared: Slot<T>) -> (Option<T>, Slot<T>) {
    match local {
        Some(_) => (local, shared),
        None => match shared {
            Slot::Held(value) => (Some(value), Slot::Vacant),
            Slot::Vacant => (None, Slot::Vacant),
        },
    }
}

/// Ownership leaves a slot once: whatever a slot held, the take after a take
/// is refused, and the slot stays empty.
pub proof fn take_happens_once<T>(slot: Slot<T>)
    ensures
        slot.after_take().taken() == Err::<T, RegistryError>(RegistryError::Vacant),
        slot.after_take().after_take() == slot.after_take(),
{
}

/// What went into an empty slot is what the next take hands out.
pub proof fn take_returns_deposit<T>(slot: Slot<T>, value: T)
    requires
        slot is Vacant,
    ensures
        slot.deposited() is Ok,
        slot.after_deposit(value).taken() == Ok::<T, RegistryError>(value),
{
}

/// A task claims its resource once: after a claim that succeeded, every
/// further claim succeeds without touching the shared slot.
pub proof fn claim_is_idempotent<T>(local: Option<T>, shared: Slot<T>, later: Slot<T>)
    requires
        claimed(local, shared).0 is Some,
    ensures
        claimed(claimed(local, shared).0, later) == (claimed(local, shared).0, later),
{
}

} // verus!
