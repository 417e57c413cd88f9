//! The hub ties the fresh-id allocator to the registry and carries the
//! cross-component invariant that every registered id was handed out by the
//! allocator, so a newly allocated id is always fresh and registration never
//! collides. The hub sits behind one mutual-exclusion lock; the fan-out
//! itself runs on a snapshot after the lock is released.

use vstd::prelude::*;
use hyper_tungstenite::tungstenite::Message;
use tokio::sync::mpsc::UnboundedReceiver;
use tokio::sync::mpsc::UnboundedSender;
use crate::registry::Entry;
use crate::registry::Registry;
use crate::registry::distinct_ids;
use crate::registry::has_id;
use crate::registry::senders_of;
use crate::registry::without_id;
use crate::exts::new_message_channel;
use crate::exts::send_message;

verus! {

/// Hands out process-unique, monotonically increasing connection ids.
/// An id, once returned, is never returned again.
pub struct IdAllocator {
    next: usize,
}

impl IdAllocator {
    /// The id the allocator would hand out next; every id handed out so far
    /// is strictly below it.
    pub closed spec fn next_id(self) -> usize {
        self.next
    }

    /// Starts allocating at 1, as connection ids are counted from 1.
    pub fn new() -> (r: IdAllocator)
        ensures
            r.next_id() == 1usize,
    {
        IdAllocator { next: 1 }
    }

    /// Whether another id can still be handed out.
    pub fn has_room(&self) -> (r: bool)
        ensures
            r == (self.next_id() < usize::MAX),
    {
        self.next < usize::MAX
    }

    /// Returns a fresh id: strictly below every id handed out later, and at
    /// or above every id handed out before.
    pub fn fresh_id(&mut self) -> (id: usize)
        requires
            old(self).next_id() < usize::MAX,
        ensures
            id == old(self).next_id(),
            final(self).next_id() == old(self).next_id() + 1,
    {
        let id = self.next;
        self.next = self.next + 1;
        id
    }
}

/// The registry together with the id allocator, guarded as one unit.
pub struct Hub {
    ids: IdAllocator,
    registry: Registry,
}

impl Hub {
    /// The registered entries, in registration order.
    pub closed spec fn entries(&self) -> Seq<Entry> {
        self.registry@
    }

    /// The id the next connection will receive.
    pub closed spec fn next_id(&self) -> usize {
        self.ids.next_id()
    }

    /// Well-formed: no id registered twice, and every registered id lies
    /// below the allocator's next id, so a fresh id never collides.
    pub open spec fn wf(&self) -> bool {
        &&& distinct_ids(self.entries())
        &&& forall|i: int|
            0 <= i < self.entries().len() ==> (#[trigger] self.entries()[i]).0 < self.next_id()
    }

    /// An empty hub: nothing registered, ids counted from 1.
    pub fn new() -> (r: Hub)
        ensures
            r.wf(),
            r.entries() == Seq::<Entry>::empty(),
            r.next_id() == 1usize,
    {
        Hub { ids: IdAllocator::new(), registry: Registry::new() }
    }

    /// How many connections are registered.
    pub fn len(&self) -> (n: usize)
        ensures
            n == self.entries().len(),
    {
        self.registry.len()
    }

    /// Whether `id` is currently registered.
    pub fn contains(&self, id: usize) -> (r: bool)
        ensures
            r == has_id(self.entries(), id),
    {
        self.registry.contains(id)
    }

    /// Whether another id can still be allocated. False only once the
    /// allocator has exhausted the id space, so `connect` may be called
    /// exactly when this holds.
    pub fn can_connect(&self) -> (r: bool)
        ensures
            r == (self.next_id() < usize::MAX),
    {
        self.ids.has_room()
    }

    /// Opens a session: allocates a fresh id, creates that connection's
    /// outbound queue, registers the producer half, and returns the id with
    /// the consumer half for the forwarder loop. The id was not registered
    /// before the call and is registered after it.
    pub fn connect(&mut self) -> (r: (usize, UnboundedReceiver<Message>))
        requires
            old(self).wf(),
            old(self).next_id() < usize::MAX,
        ensures
            final(self).wf(),
            r.0 == old(self).next_id(),
            !has_id(old(self).entries(), r.0),
            final(self).entries().len() == old(self).entries().len() + 1,
            final(self).entries() == old(self).entries().push(final(self).entries().last()),
            final(self).entries().last().0 == r.0,
            has_id(final(self).entries(), r.0),
            final(self).next_id() == old(self).next_id() + 1,
    {
        let id = self.ids.fresh_id();
        let (tx, rx) = new_message_channel();
        proof {
            assert(!has_id(self.registry@, id));
        }
        self.registry.register(id, tx);
        (id, rx)
    }

    /// Closes a session: removes its id from the registry. Runs
    /// unconditionally on inbound-loop exit and is a safe no-op if the id was
    /// never registered. The allocator is untouched: a freed id is never
    /// handed out again.
    pub fn disconnect(&mut self, id: usize)
        requires
            old(self).wf(),
        ensures
            final(self).wf(),
            final(self).entries() == without_id(old(self).entries(), id),
            !has_id(old(self).entries(), id) ==> final(self).entries() == old(self).entries(),
            !has_id(final(self).entries(), id),
            final(self).next_id() == old(self).next_id(),
    {
        self.registry.deregister(id);
        proof {
            crate::registry::lemma_without_id_keeps_entries(old(self).entries(), id);
            assert(forall|i: int|
                0 <= i < self.entries().len() ==> (#[trigger] self.entries()[i]).0
                    < self.next_id()) by {
                assert(forall|e: Entry|
                    old(self).entries().contains(e) ==> e.0 < self.next_id());
            }
        }
    }

    /// A point-in-time copy of the sender halves of every registered
    /// connection except `x`, in registration order. Taken under the hub's
    /// lock; the fan-out on the returned handles happens after release.
    pub fn snapshot_excluding(&self, x: usize) -> (r: Vec<UnboundedSender<Message>>)
        ensures
            r@ == senders_of(without_id(self.entries(), x)),
    {
        self.registry.snapshot_excluding(x)
    }
}

/// Fans one message out to a snapshot of peer senders, best effort: each
/// handle is sent one copy of the message, a failed send (the peer's consumer
/// half is already gone) is skipped without retry and without aborting the
/// rest, and no send blocks. Returns how many sends were accepted.
pub fn broadcast(senders: &Vec<UnboundedSender<Message>>, msg: &Message) -> (delivered: usize)
    ensures
        delivered <= senders@.len(),
{
    let n = senders.len();
    let mut delivered: usize = 0;
    let mut i: usize = 0;
    while i < n
        invariant
            n == senders@.len(),
            0 <= i <= n,
            delivered <= i,
        decreases n - i,
    {
        let copy = msg.clone();
        if send_message(&senders[i], copy) {
            delivered = delivered + 1;
        }
        i = i + 1;
    }
    delivered
}

} // verus!
