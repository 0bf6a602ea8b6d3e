//! The mailbox: a bounded FIFO queue between the submitting request layer
//! and the workers.
//!
//! Units of work are delivered in submission order.  When the queue is at
//! capacity a further submission fails fast instead of growing unbounded;
//! the dispatcher surfaces that as `Overloaded`.

use vstd::prelude::*;

verus! {

/// The mailbox was at capacity at submission time.
#[derive(Clone, Copy, Debug, PartialEq, Eq, Structural)]
pub struct MailboxFull;

/// A bounded FIFO queue.  Generic over the item type: the queue discipline
/// does not depend on the unit-of-work kinds.
pub struct Mailbox<T> {
    items: Vec<T>,
    capacity: usize,
}

impl<T> Mailbox<T> {
    /// The queued items, oldest first.
    pub closed spec fn queue(&self) -> Seq<T> {
        self.items@
    }

    /// The fixed bound on how many items may be queued at once.
    pub closed spec fn capacity_spec(&self) -> int {
        self.capacity as int
    }

    /// Well-formedness: the queue never exceeds its capacity.
    pub open spec fn wf(&self) -> bool {
        self.queue().len() <= self.capacity_spec()
    }

    /// An empty mailbox with the given capacity.
    pub fn with_capacity(capacity: usize) -> (r: Self)
        ensures
            r.wf(),
            r.queue() == Seq::<T>::empty(),
            r.capacity_spec() == capacity,
    {
        Mailbox { items: Vec::new(), capacity }
    }

    /// Append an item, or fail fast when the mailbox is at capacity.
    /// Nothing is ever lost: on success the item is at the back of the
    /// queue, on failure the queue is unchanged and the caller is told.
    pub fn enqueue(&mut self, item: T) -> (r: Result<(), MailboxFull>)
        requires
            old(self).wf(),
        ensures
            final(self).wf(),
            final(self).capacity_spec() == old(self).capacity_spec(),
            old(self).queue().len() < old(self).capacity_spec() ==> (r matches Ok(u)
                && final(self).queue() == old(self).queue().push(item)),
            old(self).queue().len() == old(self).capacity_spec() ==> (r matches Err(f)
                && final(self).queue() == old(self).queue()),
    {
        if self.items.len() < self.capacity {
            self.items.push(item);
            Ok(())
        } else {
            Err(MailboxFull)
        }
    }

    /// Take the oldest queued item, if any.
    pub fn dequeue(&mut self) -> (r: Option<T>)
        requires
            old(self).wf(),
        ensures
            final(self).wf(),
            final(self).capacity_spec() == old(self).capacity_spec(),
            old(self).queue().len() == 0 ==> (r matches None && final(self).queue() == old(
                self,
            ).queue()),
            old(self).queue().len() > 0 ==> (r matches Some(item) && item == old(
                self,
            ).queue().first() && final(self).queue() == old(self).queue().drop_first()),
    {
        if self.items.len() > 0 {
            let item = self.items.remove(0);
            proof {
                assert(self.items@ =~= old(self).queue().drop_first());
            }
            Some(item)
        } else {
            None
        }
    }

    /// How many items are queued.
    pub fn len(&self) -> (r: usize)
        ensures
            r == self.queue().len(),
    {
        self.items.len()
    }
}

} // verus!
