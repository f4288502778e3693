//! Synchronous use of sessions whose own interface is asynchronous.
use vstd::prelude::*;

verus! {

/// Sessions that are driven synchronously, which is possible as long as their
/// Diffie-Hellman operations never wait.
pub struct SyncSessions<S> {
    /// The asynchronous sessions: the very state that is driven synchronously.
    pub asynchronous: S,
}

/// Makes sessions available for synchronous use.
pub fn into_sync<S>(sessions: S) -> (sync: SyncSessions<S>)
    ensures
        sync.asynchronous == sessions,
{
    SyncSessions { asynchronous: sessions }
}

impl<S> SyncSessions<S> {
    /// Borrows the asynchronous sessions. What is done to them through the
    /// borrow is done to these sessions.
    pub fn as_mut(&mut self) -> (inner: &mut S)
        ensures
            *inner == old(self).asynchronous,
            final(self).asynchronous == *final(inner),
    {
        &mut self.asynchronous
    }
}

} // verus!
