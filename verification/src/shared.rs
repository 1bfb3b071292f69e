//! The shared state store as the two flows see it: one lock guarding
//! the (version, payload) pair as a single unit.
//!
//! The HTTP side and every broadcast session hold a reference to one
//! `SharedStore`; they never call each other, and rendezvous only here.
//! All access goes through the lock, so no partial update is ever
//! observable: a reader holds the whole pair while it copies it, and a
//! writer replaces payload and version in one critical section.

use vstd::prelude::*;
use vstd::rwlock::RwLock;
use crate::router::Router;
use crate::store::StoreState;

verus! {

/// The single shared store: a lock-guarded (version, payload) pair.
pub struct SharedStore {
    lock: RwLock<StoreState, spec_fn(StoreState) -> bool>,
}

impl SharedStore {
    /// Every state is storable: the lock serves purely as the mutual
    /// exclusion that keeps the pair atomic.
    #[verifier::type_invariant]
    spec fn wf(&self) -> bool {
        forall|v: StoreState| #[trigger] self.lock.inv(v)
    }

    /// The store every process starts from: version 0, empty payload.
    pub fn new() -> (s: SharedStore) {
        let st = StoreState::new();
        SharedStore { lock: RwLock::new(st, Ghost(|v: StoreState| true)) }
    }

    /// A consistent snapshot. Both fields are copied out of the one
    /// state held while the read lock is held; a writer is excluded for
    /// the whole pair, so no reader ever observes a version without its
    /// payload or a payload without its version.
    pub fn snapshot(&self) -> (r: (u32, String)) {
        let handle = self.lock.acquire_read();
        let r = handle.borrow().read();
        handle.release_read();
        r
    }
}

impl Router {
    /// Serve one request against the shared store: take the write lock,
    /// run the verified request path on the state held exclusively, and
    /// release. Concurrent requests are serialized by the lock in an
    /// arbitrary order; the answer is always the fixed main page.
    pub fn serve(&self, store: &SharedStore, path: &str) -> (body: String)
        ensures
            body@ == self.main_page@,
    {
        proof {
            use_type_invariant(store);
        }
        let (mut st, handle) = store.lock.acquire_write();
        let body = self.handle_request(&mut st, path);
        handle.release_write(st);
        body
    }
}

} // verus!
