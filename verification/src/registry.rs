//! The set of open reload connections. The accept loop inserts one
//! connection at a time; a refresh trigger removes every connection in one
//! step, and dropping the removed handles is the reload signal. The
//! registry tracks membership only; callers guard it with a lock when the
//! two loops share it.

use vstd::prelude::*;

verus! {

/// The open connections, in acceptance order.
pub struct ConnectionRegistry<T> {
    conns: Vec<T>,
}

impl<T> ConnectionRegistry<T> {
    /// The connections currently registered.
    pub closed spec fn view(self) -> Seq<T> {
        self.conns@
    }

    /// An empty registry.
    pub fn new() -> (r: ConnectionRegistry<T>)
        ensures
            r@.len() == 0,
    {
        ConnectionRegistry { conns: Vec::new() }
    }

    /// How many connections are registered.
    pub fn len(&self) -> (n: usize)
        ensures
            n == self@.len(),
    {
        self.conns.len()
    }

    /// Register one accepted connection; every other one stays.
    pub fn insert(&mut self, conn: T)
        ensures
            final(self)@ == old(self)@.push(conn),
    {
        self.conns.push(conn);
    }

    /// Remove every connection in one step and hand all of them back, each
    /// exactly once: none is lost, none is doubled, and none remains.
    pub fn drain_all(&mut self) -> (out: Vec<T>)
        ensures
            final(self)@.len() == 0,
            out@ == old(self)@,
    {
        let mut out: Vec<T> = Vec::new();
        core::mem::swap(&mut out, &mut self.conns);
        out
    }
}

} // verus!
