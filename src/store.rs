use std::sync::Arc;
use vstd::prelude::*;
use vstd::rwlock::RwLock;

use crate::namemap::NameMap;
use crate::snapshot::Snapshot;

verus! {

/// A value that a store may hold.
pub trait Valid {
    spec fn valid(&self) -> bool;
}

impl Valid for Snapshot {
    open spec fn valid(&self) -> bool {
        self.wf()
    }
}

impl<V: View> Valid for NameMap<V> {
    open spec fn valid(&self) -> bool {
        self.wf()
    }
}

/// A shared value behind a read-write lock. Readers take a reference-counted
/// handle to the whole current value; a writer replaces it whole, with a
/// value built beforehand, so no reader sees a value in part replaced.
///
/// A store is made with a condition that every value put into it must meet;
/// every value read from it meets it too.
#[verifier::reject_recursive_types(T)]
pub struct Store<T> {
    lock: RwLock<Arc<T>, spec_fn(Arc<T>) -> bool>,
    admitted: Ghost<spec_fn(T) -> bool>,
}

impl<T> Store<T> {
    /// The condition that every value of the store meets.
    pub closed spec fn admits(&self) -> spec_fn(T) -> bool {
        self.admitted@
    }

    pub closed spec fn wf(&self) -> bool {
        self.lock.pred() == (|a: Arc<T>| (self.admitted@)(*a))
    }

    /// A store that holds `initial` and admits only values that meet `inv`.
    pub fn with_invariant(initial: T, Ghost(inv): Ghost<spec_fn(T) -> bool>) -> (r: Self)
        requires
            inv(initial),
        ensures
            r.wf(),
            r.admits() == inv,
    {
        let ghost pred = |a: Arc<T>| inv(*a);
        Store { lock: RwLock::new(Arc::new(initial), Ghost(pred)), admitted: Ghost(inv) }
    }

    /// A handle to the current value.
    pub fn read(&self) -> (r: Arc<T>)
        requires
            self.wf(),
        ensures
            (self.admits())(*r),
    {
        let handle = self.lock.acquire_read();
        let v = handle.borrow().clone();
        handle.release_read();
        v
    }

    /// Replaces the current value by `new` and hands back the one it replaced.
    pub fn swap(&self, new: Arc<T>) -> (prev: Arc<T>)
        requires
            self.wf(),
            (self.admits())(*new),
        ensures
            (self.admits())(*prev),
    {
        let (prev, handle) = self.lock.acquire_write();
        handle.release_write(new);
        prev
    }
}

/// The condition of a store of valid values.
pub open spec fn valid_fn<T: Valid>() -> spec_fn(T) -> bool {
    |v: T| v.valid()
}

impl<T: Valid> Store<T> {
    /// A store that holds `initial` and admits only valid values.
    pub fn new(initial: T) -> (r: Self)
        requires
            initial.valid(),
        ensures
            r.wf(),
            r.admits() == valid_fn::<T>(),
    {
        Store::with_invariant(initial, Ghost(valid_fn::<T>()))
    }
}

} // verus!
