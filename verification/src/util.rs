//! A cloneable handle to one lock-guarded byte buffer: a shared in-memory
//! sink that several owners can append to and drain.
//!
//! The per-connection pipeline deliberately owns its accumulation buffer
//! exclusively (see [`crate::adapter`]); this utility is for the cases where
//! a writer and a drainer genuinely live in different owners and hand bytes
//! over through a single exclusive exchange.

use vstd::prelude::*;
use vstd::rwlock::RwLock;
use std::sync::Arc;

verus! {

/// A shared, reference-counted, lock-guarded byte buffer.  Clones are
/// handles to the same buffer: bytes written through one handle are drained
/// through any other.
pub struct WritableArcRwLock {
    /// The shared lock around the buffer.
    pub inner: Arc<RwLock<Vec<u8>, spec_fn(Vec<u8>) -> bool>>,
}

impl WritableArcRwLock {
    /// The lock admits every buffer content, so writers and drainers can
    /// always release it.
    pub open spec fn wf(self) -> bool {
        forall|v: Vec<u8>| #[trigger] (self.inner.pred())(v)
    }

    /// A fresh shared buffer holding `t`.
    pub fn new(t: Vec<u8>) -> (s: Self)
        ensures
            s.wf(),
    {
        let lock = RwLock::<Vec<u8>, spec_fn(Vec<u8>) -> bool>::new(
            t,
            Ghost(|v: Vec<u8>| true),
        );
        WritableArcRwLock { inner: Arc::new(lock) }
    }

    /// Another handle to the same shared buffer.
    ///
    /// Relies on `std::sync::Arc::clone`: the clone refers to the same
    /// allocation, hence to the very same lock.
    #[verifier::external_body]
    pub fn clone(&self) -> (s: Self)
        ensures
            s.inner == self.inner,
    {
        WritableArcRwLock { inner: Arc::clone(&self.inner) }
    }

    /// Appends `buf` to the shared buffer and reports how many bytes were
    /// written: all of them, as an in-memory sink never writes short.
    pub fn write(&self, buf: &[u8]) -> (n: usize)
        requires
            self.wf(),
        ensures
            n == buf@.len(),
    {
        let (mut data, handle) = self.inner.acquire_write();
        let mut i: usize = 0;
        while i < buf.len()
            invariant
                i <= buf@.len(),
            decreases buf@.len() - i,
        {
            data.push(buf[i]);
            i += 1;
        }
        handle.release_write(data);
        i
    }

    /// Drains the shared buffer: takes whatever bytes are there in one
    /// exclusive exchange, leaving it empty.  What comes out depends on
    /// what the other handles wrote, so nothing more can be promised of it.
    pub fn take(&self) -> (r: Vec<u8>)
        requires
            self.wf(),
    {
        let (data, handle) = self.inner.acquire_write();
        handle.release_write(Vec::new());
        data
    }
}

} // verus!
