//! The watch loop's bookkeeping: one count and one push per write event.

use crate::registry::{Delivery, Registry};
use vstd::prelude::*;

verus! {

/// What the file watcher reports about the watched file.
#[derive(Clone, Copy, Debug, PartialEq, Eq)]
pub enum WatchEvent {
    /// The file was written.
    Write,
    /// Anything else: created, removed, renamed, rescanned, failed.
    Other,
}

/// The frame that tells the page to reload: one final text frame of five
/// bytes.
pub const RELOAD_FRAME: [u8; 7] = [0x81, 0x05, 0x48, 0x65, 0x6c, 0x6c, 0x6f];

/// The reload frame as a sequence of bytes.
pub open spec fn reload_payload() -> Seq<u8> {
    seq![0x81u8, 0x05u8, 0x48u8, 0x65u8, 0x6cu8, 0x6cu8, 0x6fu8]
}

/// Says whether an event counts as a modification.
pub open spec fn counts(event: WatchEvent) -> bool {
    event is Write
}

/// The counter after one event.
pub open spec fn step(count: nat, event: WatchEvent) -> nat {
    if counts(event) {
        count + 1
    } else {
        count
    }
}

/// The number of notifications attempted for one event.
pub open spec fn attempts_for(event: WatchEvent) -> nat {
    if counts(event) {
        1
    } else {
        0
    }
}

/// The number of write events in a run of events.
pub open spec fn writes_in(events: Seq<WatchEvent>) -> nat
    decreases events.len(),
{
    if events.len() == 0 {
        0
    } else {
        writes_in(events.drop_last()) + if counts(events.last()) { 1nat } else { 0nat }
    }
}

/// The counter after a run of events, taken one by one.
pub open spec fn count_after(start: nat, events: Seq<WatchEvent>) -> nat
    decreases events.len(),
{
    if events.len() == 0 {
        start
    } else {
        step(count_after(start, events.drop_last()), events.last())
    }
}

/// The number of notifications attempted over a run of events.
pub open spec fn attempts_during(events: Seq<WatchEvent>) -> nat
    decreases events.len(),
{
    if events.len() == 0 {
        0
    } else {
        attempts_during(events.drop_last()) + attempts_for(events.last())
    }
}

/// The modification counter of the watch loop.
pub struct WatchLoop {
    modifications: u64,
}

impl WatchLoop {
    /// The number of write events observed so far.
    pub closed spec fn view(&self) -> nat {
        self.modifications as nat
    }

    /// A loop that has observed nothing.
    pub fn new() -> (watch: Self)
        ensures
            watch@ == 0,
    {
        WatchLoop { modifications: 0 }
    }

    /// The number of write events observed so far.
    pub fn modifications(&self) -> (count: u64)
        ensures
            count == self@,
    {
        self.modifications
    }

    /// Takes one event from the watcher.
    ///
    /// A write event adds one to the counter and makes one notification with
    /// the reload frame, which reaches the held connection or, with none
    /// held, nobody. Any other event changes nothing.
    pub fn observe<'a, C>(&mut self, event: WatchEvent, registry: &'a mut Registry<C>) -> (delivery:
        Option<Delivery<'a, C>>)
        requires
            counts(event) ==> old(self)@ < u64::MAX,
        ensures
            final(self)@ == step(old(self)@, event),
            attempts_for(event) == 0 ==> delivery is None && final(registry)@ == old(registry)@,
            attempts_for(event) == 1 && Registry::<C>::target(old(registry)@) is None
                ==> delivery is None && final(registry)@ == old(registry)@,
            attempts_for(event) == 1 && Registry::<C>::target(old(registry)@) is Some
                ==> delivery is Some
                && *delivery.unwrap().connection == Registry::<C>::target(old(registry)@).unwrap()
                && delivery.unwrap().payload@ == reload_payload()
                && final(registry)@ == Some(*final(delivery.unwrap().connection)),
    {
        match event {
            WatchEvent::Write => {
                self.modifications = self.modifications + 1;
                registry.notify(reload_frame())
            },
            WatchEvent::Other => None,
        }
    }
}

/// The reload frame.
pub fn reload_frame() -> (frame: &'static [u8])
    ensures
        frame@ == reload_payload(),
{
    let frame: &'static [u8; 7] = &RELOAD_FRAME;
    frame.as_slice()
}

/// A run of events raises the counter by exactly the number of write events
/// in it, and makes exactly as many notification attempts: one per write,
/// none merged.
pub proof fn lemma_every_write_counts(start: nat, events: Seq<WatchEvent>)
    ensures
        count_after(start, events) == start + writes_in(events),
        attempts_during(events) == writes_in(events),
    decreases events.len(),
{
    if events.len() > 0 {
        lemma_every_write_counts(start, events.drop_last());
    }
}

} // verus!
