//! The value that a pool keeps in each of its slots.

use vstd::prelude::*;

verus! {

/// What a pool slot holds.
///
/// A slot is `Live` from the moment a connection was opened, or a liveness
/// probe answered, until a round trip fails. From then on it is `Broken`: it
/// carries no connection, nothing turns it back into `Live`, and the pool has
/// to drop it and open a new connection.
#[derive(Debug)]
pub enum PooledConnection<C> {
    /// An open connection that no round trip has failed on yet.
    Live(C),
    /// The slot must be discarded; there is no connection left in it.
    Broken,
}

impl<C> PooledConnection<C> {
    /// Whether the slot is the `Broken` sentinel, as a fact about the value.
    pub open spec fn broken(self) -> bool {
        self is Broken
    }

    /// The cheap check a pool makes before it spends a round trip on a slot:
    /// true exactly for the `Broken` sentinel. The slot is only read, so
    /// asking again gives the same answer.
    pub fn is_broken(&self) -> (b: bool)
        ensures
            b == self.broken(),
    {
        match self {
            PooledConnection::Live(_) => false,
            PooledConnection::Broken => true,
        }
    }

    /// Takes the connection out of a live slot, to send something over it.
    /// A broken slot has none to give, so callers check `is_broken` first.
    pub fn into_live(self) -> (conn: C)
        requires
            self is Live,
        ensures
            self == PooledConnection::Live(conn),
    {
        match self {
            PooledConnection::Live(conn) => conn,
            PooledConnection::Broken => vstd::pervasive::unreached(),
        }
    }
}

} // verus!
