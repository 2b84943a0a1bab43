use vstd::prelude::*;

use crate::ready::ReadyQueue;

verus! {

/// Single-slot, overwrite-on-register notification handle.
///
/// A consumer registers interest by storing the identifier of its task; a
/// producer signals "data may be ready" by firing the cell, which enqueues
/// the stored identifier on the executor's ready-queue and clears the slot.
/// Registering a new identifier silently replaces any previous one, and
/// firing an empty cell is a safe no-op, so a wake-up is delivered at most
/// once per registration.
pub struct WakeCell {
    slot: Option<u64>,
}

/// What registering an identifier leaves in the slot: the new identifier,
/// whatever was stored before.
pub open spec fn register_model(slot: Option<u64>, id: u64) -> Option<u64> {
    Some(id)
}

/// What firing does to the slot and the ready-queue: an empty slot changes
/// nothing; a full slot is cleared and its identifier is enqueued, provided
/// the ready-queue has room.
pub open spec fn fire_model(slot: Option<u64>, ready: Seq<u64>, bound: nat) -> (Option<
    u64,
>, Seq<u64>) {
    match slot {
        None => (None, ready),
        Some(id) => (
            None,
            if ready.len() < bound {
                ready.push(id)
            } else {
                ready
            },
        ),
    }
}

impl WakeCell {
    /// The identifier currently registered, if any.
    pub closed spec fn view(&self) -> Option<u64> {
        self.slot
    }

    pub fn new() -> (r: WakeCell)
        ensures
            r@ is None,
    {
        WakeCell { slot: None }
    }

    /// Store an identifier, replacing any previous registration.
    pub fn register(&mut self, id: u64)
        ensures
            final(self)@ == register_model(old(self)@, id),
    {
        self.slot = Some(id);
    }

    /// Clear the slot, returning what was registered.
    pub fn take(&mut self) -> (r: Option<u64>)
        ensures
            final(self)@ is None,
            r == old(self)@,
    {
        self.slot.take()
    }

    /// Invoke and clear the registered handle: enqueue its identifier as
    /// ready.  Firing an empty cell does nothing.  Delivery depends on the
    /// bounded ready-queue having room: with it full, the wake-up is
    /// dropped, and the result reports whether the identifier was actually
    /// enqueued.
    pub fn fire(&mut self, ready: &mut ReadyQueue) -> (delivered: bool)
        requires
            old(ready).wf(),
        ensures
            final(ready).wf(),
            final(ready).bound() == old(ready).bound(),
            (final(self)@, final(ready)@) == fire_model(old(self)@, old(ready)@, old(ready).bound()),
            delivered == (old(self)@ is Some && old(ready)@.len() < old(ready).bound()),
    {
        match self.slot.take() {
            None => false,
            Some(id) => ready.enqueue(id),
        }
    }
}

/// No lost wake-ups: once an identifier is registered, one fire delivers it
/// to the ready-queue exactly once and clears the cell, whatever was
/// registered before; a second fire delivers nothing further.  The
/// delivery needs room in the bounded ready-queue (the premise below):
/// with the queue full, `fire_model` drops the wake-up and `fire` reports
/// it as not delivered.
pub proof fn lemma_no_lost_wakeup(slot: Option<u64>, ready: Seq<u64>, bound: nat, id: u64)
    requires
        ready.len() < bound,
    ensures
        ({
            let (slot1, ready1) = fire_model(register_model(slot, id), ready, bound);
            &&& ready1 == ready.push(id)
            &&& slot1 is None
            &&& fire_model(slot1, ready1, bound) == (slot1, ready1)
        }),
{
}

} // verus!
