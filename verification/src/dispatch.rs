//! The dispatcher facade: the handle the request layer holds.
//!
//! `submit` turns a unit of work into a ticket for a completion slot and
//! enqueues it into the bounded mailbox without blocking the caller; a
//! worker later takes the oldest unit, checks a connection out of the
//! resource pool, executes the operation, returns the connection whatever
//! the outcome, and writes the outcome to the unit's completion slot
//! exactly once.  Every accepted submission is resolved; a resolved slot is
//! never written again.
//!
//! `worker_step` is one worker processing one unit of work; which of the
//! interchangeable workers runs it does not affect the outcome.  The
//! `fault` argument is the environment's word that the connection turned
//! out to be corrupted mid-operation: the worker then discards the
//! connection instead of returning it and reports a plain operation
//! failure, so the internal corruption kind never reaches a caller.

use vstd::prelude::*;

use crate::mailbox::Mailbox;
use crate::messages::{surfaceable, task_models, Failure, Message, NewTask, Outcome};
use crate::pool::{pool_wf, PoolModel, ResourcePool};
use crate::store::{
    has_task, inserted_task, store_wf, toggled, StoreModel, TaskStore,
};

verus! {

/// Startup configuration: how many workers to run, how many storage
/// connections they share, and how many submitted-but-undispatched units
/// of work may wait in the mailbox.
#[derive(Clone, Copy, Debug)]
pub struct Config {
    pub worker_count: usize,
    pub pool_capacity: usize,
    pub mailbox_capacity: usize,
}

/// A queued unit of work together with the ticket of its completion slot.
pub struct Envelope {
    pub ticket: usize,
    pub msg: Message,
}

/// One completion slot: written exactly once, by the worker that executes
/// the unit of work it was created for.
pub enum SlotState {
    /// The unit of work is still queued.
    Pending,
    /// The unit of work was executed and this is its outcome.
    Resolved(Outcome),
}

/// The mathematical state of the whole subsystem.
#[verifier::ext_equal]
pub ghost struct DispatcherModel {
    pub queue: Seq<Envelope>,
    pub mailbox_capacity: int,
    pub slots: Seq<SlotState>,
    pub pool: PoolModel,
    pub store: StoreModel,
    pub worker_count: int,
}

/// Whether some queued envelope carries the given ticket.
pub open spec fn queued_ticket(q: Seq<Envelope>, t: int) -> bool {
    exists|i: int| 0 <= i < q.len() && (#[trigger] q[i]).ticket == t
}

/// Well-formedness of the subsystem: pool and store are well formed, the
/// mailbox respects its bound, every queued ticket points at a pending
/// slot, no ticket is queued twice, every pending slot is queued (nothing
/// is ever silently dropped), and no resolved slot carries the internal
/// corruption kind.
pub open spec fn dispatcher_wf(m: DispatcherModel) -> bool {
    &&& pool_wf(m.pool)
    &&& store_wf(m.store)
    &&& m.queue.len() <= m.mailbox_capacity
    &&& forall|i: int| 0 <= i < m.queue.len() ==> (#[trigger] m.queue[i]).ticket < m.slots.len()
    &&& forall|i: int|
        0 <= i < m.queue.len() ==> m.slots[(#[trigger] m.queue[i]).ticket as int] is Pending
    &&& forall|i: int, j: int|
        0 <= i < m.queue.len() && 0 <= j < m.queue.len() && i != j
            ==> (#[trigger] m.queue[i]).ticket != (#[trigger] m.queue[j]).ticket
    &&& forall|t: int|
        0 <= t < m.slots.len() && (#[trigger] m.slots[t]) is Pending ==> queued_ticket(m.queue, t)
    &&& forall|t: int|
        0 <= t < m.slots.len() ==> ((#[trigger] m.slots[t]) matches SlotState::Resolved(out)
            ==> surfaceable(out))
}

/// What executing one unit of work against storage means: the new storage
/// state and the outcome, for each message kind.  Exact, given that a
/// well-formed store has distinct ids.
pub open spec fn op_rel(s0: StoreModel, msg: Message, s1: StoreModel, out: Outcome) -> bool {
    match msg {
        Message::Create(c) => {
            if s0.next_id < i32::MAX {
                &&& s1.tasks == s0.tasks.push(inserted_task(s0, c.description@))
                &&& s1.next_id == s0.next_id + 1
                &&& out == Outcome::Done
            } else {
                s1 == s0 && out == Outcome::Failed(Failure::OperationFailed)
            }
        },
        Message::All(a) => {
            &&& s1 == s0
            &&& out matches Outcome::Tasks(ts) && task_models(ts@) == s0.tasks
        },
        Message::Toggle(t) => {
            if has_task(s0.tasks, t.id as int) {
                &&& s1.next_id == s0.next_id
                &&& out == Outcome::Done
                &&& exists|i: int|
                    0 <= i < s0.tasks.len() && (#[trigger] s0.tasks[i]).id == t.id as int
                        && s1.tasks == s0.tasks.update(i, toggled(s0.tasks[i]))
            } else {
                s1 == s0 && out == Outcome::Failed(Failure::OperationFailed)
            }
        },
        Message::Delete(d) => {
            if has_task(s0.tasks, d.id as int) {
                &&& s1.next_id == s0.next_id
                &&& out == Outcome::Done
                &&& exists|i: int|
                    0 <= i < s0.tasks.len() && (#[trigger] s0.tasks[i]).id == d.id as int
                        && s1.tasks == s0.tasks.remove(i)
            } else {
                s1 == s0 && out == Outcome::Failed(Failure::OperationFailed)
            }
        },
    }
}

/// Execute one unit of work against storage, translating each per-kind
/// result into the one outcome its completion slot will carry.  Always
/// produces an outcome fit to surface: this is where a worker's error
/// translation lives.
pub fn execute(store: &mut TaskStore, msg: Message) -> (out: Outcome)
    requires
        old(store).wf(),
    ensures
        final(store).wf(),
        op_rel(old(store)@, msg, final(store)@, out),
        surfaceable(out),
{
    match msg {
        Message::Create(c) => {
            match store.insert(NewTask { description: c.description }) {
                Ok(u) => Outcome::Done,
                Err(f) => Outcome::Failed(f),
            }
        },
        Message::All(a) => Outcome::Tasks(store.all()),
        Message::Toggle(t) => {
            match store.toggle_with_id(t.id) {
                Ok(u) => Outcome::Done,
                Err(f) => Outcome::Failed(f),
            }
        },
        Message::Delete(d) => {
            match store.delete_with_id(d.id) {
                Ok(u) => Outcome::Done,
                Err(f) => Outcome::Failed(f),
            }
        },
    }
}

/// What an accepted submission does: a fresh pending slot, an envelope at
/// the back of the queue, everything else untouched.
pub open spec fn submit_rel(
    m0: DispatcherModel,
    msg: Message,
    m1: DispatcherModel,
    t: usize,
) -> bool {
    &&& t == m0.slots.len()
    &&& m1.slots == m0.slots.push(SlotState::Pending)
    &&& m1.queue == m0.queue.push(Envelope { ticket: t, msg })
    &&& m1.mailbox_capacity == m0.mailbox_capacity
    &&& m1.worker_count == m0.worker_count
    &&& m1.pool == m0.pool
    &&& m1.store == m0.store
}

/// What one worker step does to the subsystem when the queue is not empty:
/// the oldest unit leaves the queue and exactly its slot is resolved.  With
/// no free connection the unit fails as `ResourceUnavailable`; on a
/// corrupted connection it fails as `OperationFailed` and the connection is
/// gone from the pool; otherwise the domain operation runs and the
/// connection comes back.
pub open spec fn worker_step_rel(
    m0: DispatcherModel,
    fault: bool,
    m1: DispatcherModel,
    t: usize,
) -> bool {
    &&& m0.queue.len() > 0
    &&& t == m0.queue.first().ticket
    &&& m1.queue == m0.queue.drop_first()
    &&& m1.mailbox_capacity == m0.mailbox_capacity
    &&& m1.worker_count == m0.worker_count
    &&& m1.slots.len() == m0.slots.len()
    &&& forall|j: int|
        0 <= j < m0.slots.len() && j != t ==> #[trigger] m1.slots[j] == m0.slots[j]
    &&& m1.pool.capacity == m0.pool.capacity
    &&& if m0.pool.available.len() == 0 {
        &&& m1.slots[t as int] == SlotState::Resolved(
            Outcome::Failed(Failure::ResourceUnavailable),
        )
        &&& m1.store == m0.store
        &&& m1.pool == m0.pool
    } else if fault {
        &&& m1.slots[t as int] == SlotState::Resolved(Outcome::Failed(Failure::OperationFailed))
        &&& m1.store == m0.store
        &&& m1.pool.available == m0.pool.available.drop_last()
        &&& m1.pool.checked_out == m0.pool.checked_out
    } else {
        &&& m1.pool == m0.pool
        &&& (m1.slots[t as int] matches SlotState::Resolved(out) && op_rel(
            m0.store,
            m0.queue.first().msg,
            m1.store,
            out,
        ))
    }
}

/// Law: an accepted submission registers exactly one fresh pending slot —
/// its ticket is queued, its slot is pending, and every slot that existed
/// before is untouched.
pub proof fn lemma_submit_registers_pending(
    m0: DispatcherModel,
    msg: Message,
    m1: DispatcherModel,
    t: usize,
)
    requires
        submit_rel(m0, msg, m1, t),
    ensures
        m1.slots.len() == m0.slots.len() + 1,
        m1.slots[t as int] is Pending,
        queued_ticket(m1.queue, t as int),
        forall|j: int| 0 <= j < m0.slots.len() ==> #[trigger] m1.slots[j] == m0.slots[j],
{
    assert(m1.queue[m0.queue.len() as int].ticket == t);
}

/// Law: resolution is exactly once — a worker step resolves precisely the
/// slot of the unit of work it took: that slot was pending before and is
/// resolved after, and every other slot keeps its state, so a slot once
/// resolved is never written again and no other submission is touched.
pub proof fn lemma_step_resolves_exactly_once(
    m0: DispatcherModel,
    fault: bool,
    m1: DispatcherModel,
    t: usize,
)
    requires
        dispatcher_wf(m0),
        worker_step_rel(m0, fault, m1, t),
    ensures
        m0.slots[t as int] is Pending,
        m1.slots[t as int] is Resolved,
        forall|j: int|
            0 <= j < m0.slots.len() && j != t ==> #[trigger] m1.slots[j] == m0.slots[j],
{
    assert(m0.queue[0].ticket == t);
    assert(m0.slots[m0.queue[0].ticket as int] is Pending);
}

/// Law: whatever a worker writes for a create on a non-empty description
/// is either plain success or `OperationFailed` — the unit of work is
/// never silently dropped and no internal failure kind leaks.
pub proof fn lemma_create_resolves_success_or_failure(
    s0: StoreModel,
    msg: Message,
    s1: StoreModel,
    out: Outcome,
)
    requires
        store_wf(s0),
        msg is Create,
        op_rel(s0, msg, s1, out),
    ensures
        out == Outcome::Done || out == Outcome::Failed(Failure::OperationFailed),
{
}

/// The dispatcher facade: the single shared instance the request layer
/// holds, built once at startup and passed explicitly.
pub struct Dispatcher {
    worker_count: usize,
    mailbox: Mailbox<Envelope>,
    slots: Vec<SlotState>,
    pool: ResourcePool,
    store: TaskStore,
}

impl View for Dispatcher {
    type V = DispatcherModel;

    closed spec fn view(&self) -> DispatcherModel {
        DispatcherModel {
            queue: self.mailbox.queue(),
            mailbox_capacity: self.mailbox.capacity_spec(),
            slots: self.slots@,
            pool: self.pool@,
            store: self.store@,
            worker_count: self.worker_count as int,
        }
    }
}

impl Dispatcher {
    /// Well-formedness of this dispatcher.
    pub open spec fn wf(&self) -> bool {
        dispatcher_wf(self@)
    }

    /// Build the subsystem from its startup configuration: an empty
    /// mailbox, no completion slots, a full connection pool, empty
    /// storage.
    pub fn new(config: Config) -> (r: Self)
        ensures
            r.wf(),
            r@.queue.len() == 0,
            r@.slots.len() == 0,
            r@.mailbox_capacity == config.mailbox_capacity,
            r@.worker_count == config.worker_count,
            r@.pool.capacity == config.pool_capacity,
            r@.pool.available.len() == config.pool_capacity,
            r@.store.tasks.len() == 0,
            r@.store.next_id == 1,
    {
        Dispatcher {
            worker_count: config.worker_count,
            mailbox: Mailbox::with_capacity(config.mailbox_capacity),
            slots: Vec::new(),
            pool: ResourcePool::with_capacity(config.pool_capacity),
            store: TaskStore::new(),
        }
    }

    /// How many workers the configuration asks for.
    pub fn worker_count(&self) -> (r: usize)
        ensures
            r == self@.worker_count,
    {
        self.worker_count
    }

    /// How many units of work are queued but not yet dispatched.
    pub fn queued_count(&self) -> (r: usize)
        ensures
            r == self@.queue.len(),
    {
        self.mailbox.len()
    }

    /// How many completion slots exist (one per accepted submission).
    pub fn slot_count(&self) -> (r: usize)
        ensures
            r == self@.slots.len(),
    {
        self.slots.len()
    }

    /// How many connections are currently free in the pool.
    pub fn free_connections(&self) -> (r: usize)
        ensures
            r == self@.pool.available.len(),
    {
        self.pool.free_connections()
    }

    /// Submit a unit of work.  Never blocks: either the unit is queued and
    /// the ticket of its fresh completion slot is returned, or the mailbox
    /// is at capacity and submission fails fast as `Overloaded`, leaving
    /// the subsystem exactly as it was.
    pub fn submit(&mut self, msg: Message) -> (r: Result<usize, Failure>)
        requires
            old(self).wf(),
        ensures
            final(self).wf(),
            old(self)@.queue.len() < old(self)@.mailbox_capacity ==> (r matches Ok(t)
                && submit_rel(old(self)@, msg, final(self)@, t)),
            old(self)@.queue.len() >= old(self)@.mailbox_capacity ==> (r matches Err(f) && f
                == Failure::Overloaded && final(self)@ == old(self)@),
    {
        let ticket = self.slots.len();
        match self.mailbox.enqueue(Envelope { ticket, msg }) {
            Err(full) => Err(Failure::Overloaded),
            Ok(u) => {
                self.slots.push(SlotState::Pending);
                proof {
                    let m0 = old(self)@;
                    let m1 = self@;
                    assert forall|t: int|
                        0 <= t < m1.slots.len() && (#[trigger] m1.slots[t]) is Pending implies queued_ticket(
                        m1.queue,
                        t,
                    ) by {
                        if t < m0.slots.len() {
                            assert(m0.slots[t] is Pending);
                            let i = choose|i: int|
                                0 <= i < m0.queue.len() && (#[trigger] m0.queue[i]).ticket == t;
                            assert(m1.queue[i].ticket == t);
                        } else {
                            assert(m1.queue[m0.queue.len() as int].ticket == t);
                        }
                    }
                }
                Ok(ticket)
            },
        }
    }

    /// One worker takes the oldest queued unit of work, runs it against a
    /// pooled connection, and resolves its completion slot: exactly once,
    /// and only its own.  Returns the resolved ticket, or `None` when the
    /// queue was empty and nothing changed.
    pub fn worker_step(&mut self, fault: bool) -> (r: Option<usize>)
        requires
            old(self).wf(),
        ensures
            final(self).wf(),
            old(self)@.queue.len() == 0 ==> (r matches None && final(self)@ == old(self)@),
            old(self)@.queue.len() > 0 ==> (r matches Some(t) && worker_step_rel(
                old(self)@,
                fault,
                final(self)@,
                t,
            )),
    {
        let env = match self.mailbox.dequeue() {
            None => {
                return None;
            },
            Some(env) => env,
        };
        let ticket = env.ticket;
        let outcome: Outcome = match self.pool.acquire() {
            Err(busy) => Outcome::Failed(Failure::ResourceUnavailable),
            Ok(conn) => {
                if fault {
                    self.pool.discard(conn);
                    proof {
                        assert(self.pool@.checked_out =~= old(self)@.pool.checked_out);
                    }
                    Outcome::Failed(Failure::OperationFailed)
                } else {
                    let out = execute(&mut self.store, env.msg);
                    self.pool.release(conn);
                    proof {
                        assert(self.pool@.available =~= old(self)@.pool.available);
                        assert(self.pool@.checked_out =~= old(self)@.pool.checked_out);
                    }
                    out
                }
            },
        };
        proof {
            assert(old(self)@.queue[0].ticket == ticket);
            assert(ticket < self.slots@.len());
            if !fault && old(self)@.pool.available.len() > 0 {
                assert(self.pool@ =~= old(self)@.pool);
            }
        }
        self.slots[ticket] = SlotState::Resolved(outcome);
        proof {
            let m0 = old(self)@;
            let m1 = self@;
            assert forall|t: int|
                0 <= t < m1.slots.len() && (#[trigger] m1.slots[t]) is Pending implies queued_ticket(
                m1.queue,
                t,
            ) by {
                assert(m0.slots[t] is Pending);
                let i = choose|i: int|
                    0 <= i < m0.queue.len() && (#[trigger] m0.queue[i]).ticket == t;
                assert(i != 0);
                assert(m1.queue[i - 1].ticket == t);
            }
        }
        Some(ticket)
    }

    /// Run worker steps until the mailbox is empty.  Every completion slot
    /// is then resolved: no accepted submission is dropped, and slots that
    /// were already resolved keep their outcome untouched.
    pub fn drain(&mut self)
        requires
            old(self).wf(),
        ensures
            final(self).wf(),
            final(self)@.queue.len() == 0,
            final(self)@.slots.len() == old(self)@.slots.len(),
            final(self)@.mailbox_capacity == old(self)@.mailbox_capacity,
            final(self)@.worker_count == old(self)@.worker_count,
            final(self)@.pool == old(self)@.pool,
            forall|t: int|
                0 <= t < old(self)@.slots.len() && (#[trigger] old(self)@.slots[t]) is Resolved
                    ==> final(self)@.slots[t] == old(self)@.slots[t],
            forall|t: int|
                0 <= t < final(self)@.slots.len() ==> (#[trigger] final(self)@.slots[t])
                    is Resolved,
    {
        let ghost m0 = self@;
        while self.queued_count() > 0
            invariant
                self.wf(),
                self@.slots.len() == m0.slots.len(),
                self@.mailbox_capacity == m0.mailbox_capacity,
                self@.worker_count == m0.worker_count,
                self@.pool == m0.pool,
                forall|t: int|
                    0 <= t < m0.slots.len() && (#[trigger] m0.slots[t]) is Resolved ==> self@
                        .slots[t] == m0.slots[t],
            decreases self@.queue.len(),
        {
            let r = self.worker_step(false);
        }
        proof {
            assert forall|t: int| 0 <= t < self@.slots.len() implies (#[trigger] self@.slots[t])
                is Resolved by {
                if self@.slots[t] is Pending {
                    assert(queued_ticket(self@.queue, t));
                }
            }
        }
    }

    /// The outcome of a submission, once a worker has resolved it; `None`
    /// while it is still queued or for a ticket never handed out.  Reading
    /// does not change the slot.
    pub fn result_of(&self, ticket: usize) -> (r: Option<&Outcome>)
        ensures
            ticket < self@.slots.len() ==> (self@.slots[ticket as int]
                matches SlotState::Resolved(out) ==> (r matches Some(o) && *o == out)),
            (ticket >= self@.slots.len() || self@.slots[ticket as int] is Pending) ==> r is None,
    {
        if ticket < self.slots.len() {
            match &self.slots[ticket] {
                SlotState::Resolved(out) => Some(out),
                SlotState::Pending => None,
            }
        } else {
            None
        }
    }
}

} // verus!
