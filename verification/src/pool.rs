//! The resource pool: a fixed-capacity set of reusable storage connections.
//!
//! Capacity is fixed at construction and never grows, which bounds the
//! maximum concurrent storage load independent of request volume.  A
//! connection is owned exclusively by whichever worker currently holds it
//! and must be returned (or deliberately discarded) exactly once per
//! successful acquire.
//!
//! `acquire` models the outcome a worker sees after the configured wait
//! bound: a connection when one is free, `Busy` otherwise.

use vstd::prelude::*;

verus! {

/// An opaque, stateful handle to durable storage.  Not clonable: ownership
/// of the value is ownership of the connection.
pub struct Connection {
    id: usize,
}

impl View for Connection {
    type V = int;

    closed spec fn view(&self) -> int {
        self.id as int
    }
}

/// The pool's wait bound was exceeded with every connection checked out.
#[derive(Clone, Copy, Debug, PartialEq, Eq, Structural)]
pub struct Busy;

/// The mathematical state of a pool: the ids of the connections still
/// available (last is the next to be handed out) and the ids currently
/// checked out.
#[verifier::ext_equal]
pub ghost struct PoolModel {
    pub capacity: int,
    pub available: Seq<int>,
    pub checked_out: Set<int>,
}

/// Well-formedness of a pool state: connection ids are in range and
/// distinct, no id is both available and checked out, and together they
/// never exceed the fixed capacity.
pub open spec fn pool_wf(m: PoolModel) -> bool {
    &&& m.checked_out.finite()
    &&& m.available.len() + m.checked_out.len() <= m.capacity
    &&& forall|i: int| 0 <= i < m.available.len() ==> 0 <= #[trigger] m.available[i] < m.capacity
    &&& forall|i: int, j: int|
        0 <= i < m.available.len() && 0 <= j < m.available.len() && i != j
            ==> #[trigger] m.available[i] != #[trigger] m.available[j]
    &&& forall|id: int| #[trigger] m.checked_out.contains(id) ==> 0 <= id < m.capacity
    &&& forall|i: int|
        0 <= i < m.available.len() ==> !m.checked_out.contains(#[trigger] m.available[i])
}

/// A fixed-capacity pool of reusable storage connections.
pub struct ResourcePool {
    capacity: usize,
    available: Vec<Connection>,
    checked_out: Ghost<Set<int>>,
}

impl View for ResourcePool {
    type V = PoolModel;

    closed spec fn view(&self) -> PoolModel {
        PoolModel {
            capacity: self.capacity as int,
            available: self.available@.map_values(|c: Connection| c@),
            checked_out: self.checked_out@,
        }
    }
}

impl ResourcePool {
    /// Well-formedness of this pool.
    pub open spec fn wf(&self) -> bool {
        pool_wf(self@)
    }

    /// Build a pool that eagerly holds `capacity` connections, none checked
    /// out.
    pub fn with_capacity(capacity: usize) -> (r: Self)
        ensures
            r.wf(),
            r@.capacity == capacity,
            r@.available.len() == capacity,
            r@.checked_out == Set::<int>::empty(),
    {
        let mut available: Vec<Connection> = Vec::new();
        let mut i: usize = 0;
        while i < capacity
            invariant
                i <= capacity,
                available@.len() == i,
                forall|j: int| 0 <= j < i ==> (#[trigger] available@[j])@ == j,
            decreases capacity - i,
        {
            available.push(Connection { id: i });
            i += 1;
        }
        let r = ResourcePool { capacity, available, checked_out: Ghost(Set::empty()) };
        proof {
            assert forall|a: int, b: int|
                0 <= a < r@.available.len() && 0 <= b < r@.available.len() && a != b implies r@
                .available[a] != r@.available[b] by {
                assert(r@.available[a] == a);
                assert(r@.available[b] == b);
            }
        }
        r
    }

    /// Check out a connection, or report `Busy` when every connection is
    /// taken at the end of the wait bound.
    pub fn acquire(&mut self) -> (r: Result<Connection, Busy>)
        requires
            old(self).wf(),
        ensures
            final(self).wf(),
            final(self)@.capacity == old(self)@.capacity,
            old(self)@.available.len() > 0 ==> {
                &&& r matches Ok(c) && c@ == old(self)@.available.last()
                &&& final(self)@.available == old(self)@.available.drop_last()
                &&& final(self)@.checked_out == old(self)@.checked_out.insert(
                    old(self)@.available.last(),
                )
            },
            old(self)@.available.len() == 0 ==> (r matches Err(b) && final(self)@ == old(self)@),
    {
        match self.available.pop() {
            Some(conn) => {
                proof {
                    self.checked_out@ = self.checked_out@.insert(conn@);
                    let m0 = old(self)@;
                    assert(self@.available =~= m0.available.drop_last());
                    assert(conn@ == m0.available.last());
                    assert(self@.checked_out.len() <= m0.checked_out.len() + 1);
                    assert forall|i: int| 0 <= i < self@.available.len() implies !self@
                        .checked_out.contains(#[trigger] self@.available[i]) by {
                        assert(self@.available[i] == m0.available[i]);
                        assert(m0.available[i] != m0.available[m0.available.len() - 1]);
                    }
                }
                Ok(conn)
            },
            None => {
                proof {
                    assert(self@ =~= old(self)@);
                }
                Err(Busy)
            },
        }
    }

    /// Return a checked-out connection to the available set.  The returned
    /// connection becomes the next one `acquire` hands out, so a released
    /// connection is always available to a subsequent acquire.
    pub fn release(&mut self, conn: Connection)
        requires
            old(self).wf(),
            old(self)@.checked_out.contains(conn@),
        ensures
            final(self).wf(),
            final(self)@.capacity == old(self)@.capacity,
            final(self)@.available == old(self)@.available.push(conn@),
            final(self)@.checked_out == old(self)@.checked_out.remove(conn@),
            final(self)@.available.len() > 0,
            final(self)@.available.last() == conn@,
    {
        proof {
            self.checked_out@ = self.checked_out@.remove(conn@);
        }
        self.available.push(conn);
        proof {
            assert(self@.available =~= old(self)@.available.push(conn@));
        }
    }

    /// Drop a connection found corrupted mid-operation instead of returning
    /// it, deliberately shrinking effective capacity (fail-safe, no retry).
    pub fn discard(&mut self, conn: Connection)
        requires
            old(self).wf(),
            old(self)@.checked_out.contains(conn@),
        ensures
            final(self).wf(),
            final(self)@.capacity == old(self)@.capacity,
            final(self)@.available == old(self)@.available,
            final(self)@.checked_out == old(self)@.checked_out.remove(conn@),
    {
        proof {
            self.checked_out@ = self.checked_out@.remove(conn@);
        }
    }

    /// How many connections are currently free.
    pub fn free_connections(&self) -> (r: usize)
        ensures
            r == self@.available.len(),
    {
        self.available.len()
    }

    /// The fixed capacity this pool was built with.
    pub fn capacity(&self) -> (r: usize)
        ensures
            r == self@.capacity,
    {
        self.capacity
    }
}

/// In a well-formed pool the number of connections concurrently checked out
/// never exceeds the fixed capacity, whatever sequence of acquires,
/// releases and discards produced the state.
pub proof fn lemma_checked_out_bounded(m: PoolModel)
    requires
        pool_wf(m),
    ensures
        m.checked_out.len() <= m.capacity,
{
}

/// In a well-formed pool, releasing any checked-out connection leaves a
/// well-formed pool in which that connection is available again — and it
/// is exactly the one the next acquire hands out.  No successful
/// acquire/operation/release cycle can leak a connection.
pub proof fn lemma_released_connection_reacquired(m: PoolModel, c: int)
    requires
        pool_wf(m),
        m.checked_out.contains(c),
    ensures
        ({
            let released = PoolModel {
                capacity: m.capacity,
                available: m.available.push(c),
                checked_out: m.checked_out.remove(c),
            };
            &&& pool_wf(released)
            &&& released.available.len() > 0
            &&& released.available.last() == c
        }),
{
    let released = PoolModel {
        capacity: m.capacity,
        available: m.available.push(c),
        checked_out: m.checked_out.remove(c),
    };
    assert forall|i: int, j: int|
        0 <= i < released.available.len() && 0 <= j < released.available.len() && i != j implies #[trigger] released
        .available[i] != #[trigger] released.available[j] by {
        if i < m.available.len() && j < m.available.len() {
            assert(m.available[i] != m.available[j]);
        }
    }
}

} // verus!
