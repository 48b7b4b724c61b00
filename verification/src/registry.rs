//! The single-slot holder of the one live upgraded connection.

use vstd::prelude::*;

verus! {

/// Holds at most one connection of type `C`.
///
/// The registry never closes a connection by itself: the one that a new
/// upgrade replaces is handed back to the caller, who drops or closes it.
/// Callers that share a registry between threads keep it behind one lock,
/// so every method below sees the slot alone.
pub struct Registry<C> {
    slot: Option<C>,
}

/// What a notification does: the connection to write to and the bytes to
/// write.
pub struct Delivery<'a, C> {
    pub connection: &'a mut C,
    pub payload: &'a [u8],
}

impl<C> Registry<C> {
    /// The connection held, if any.
    pub closed spec fn view(&self) -> Option<C> {
        self.slot
    }

    /// The slot after `connection` was stored over `slot`.
    pub open spec fn stored(slot: Option<C>, connection: C) -> Option<C> {
        Some(connection)
    }

    /// The connection that a notification is delivered to when the slot
    /// holds `slot`: the held one, or none.
    pub open spec fn target(slot: Option<C>) -> Option<C> {
        slot
    }

    /// An empty registry.
    pub fn new() -> (registry: Self)
        ensures
            registry@ is None,
    {
        Registry { slot: None }
    }

    /// Says whether a connection is held.
    pub fn is_connected(&self) -> (held: bool)
        ensures
            held == (self@ is Some),
    {
        self.slot.is_some()
    }

    /// Installs `connection`, replacing any previous one, which is returned.
    pub fn store(&mut self, connection: C) -> (previous: Option<C>)
        ensures
            final(self)@ == Self::stored(old(self)@, connection),
            previous == old(self)@,
    {
        let previous = self.slot.take();
        self.slot = Some(connection);
        previous
    }

    /// Prepares the write of `payload` to the held connection.
    ///
    /// With no connection held there is nothing to do: the result is `None`
    /// and the registry is unchanged. Otherwise the result lends out the one
    /// held connection together with the payload; whatever the caller's write
    /// does to that connection, it stays the one in the slot.
    pub fn notify<'a>(&'a mut self, payload: &'a [u8]) -> (delivery: Option<Delivery<'a, C>>)
        ensures
            Self::target(old(self)@) is None ==> delivery is None && final(self)@ == old(self)@,
            Self::target(old(self)@) is Some ==> delivery is Some
                && *delivery.unwrap().connection == Self::target(old(self)@).unwrap()
                && delivery.unwrap().payload@ == payload@
                && final(self)@ == Some(*final(delivery.unwrap().connection)),
    {
        match self.slot.as_mut() {
            None => None,
            Some(connection) => Some(Delivery { connection, payload }),
        }
    }
}

/// Of two connections stored one after the other, a notification reaches
/// the second and only the second, whatever the slot held before.
pub proof fn lemma_last_store_wins<C>(slot: Option<C>, first: C, second: C)
    ensures
        Registry::<C>::target(Registry::<C>::stored(Registry::<C>::stored(slot, first), second))
            == Some(second),
{
}

/// A notification on an empty slot has no target.
pub proof fn lemma_empty_slot_has_no_target<C>()
    ensures
        Registry::<C>::target(None) is None,
{
}

} // verus!
