//! Shared ring buffer: the same circular-index storage as the single-owner
//! queue, guarded by a verified reader-writer lock for all structural
//! mutation, plus an independently maintained atomic counter that mirrors the
//! element count so count-only queries never take the lock.
//!
//! The lock's invariant pins every value it can ever store to the same
//! well-formedness that the single-owner queue maintains, and each mutating
//! operation applies the same verified transition to the locked state that
//! the single-owner queue applies to its own. What no contract here can
//! promise is a relation between two separate lock acquisitions: between any
//! two operations another thread may have run, so contracts on the shared
//! queue speak about the snapshot an operation works on, not about a
//! sequence of calls.

use vstd::prelude::*;
use vstd::rwlock::ReadHandle;
use vstd::rwlock::RwLock;
use vstd::rwlock::RwLockPredicate;

use std::sync::atomic::AtomicUsize;
use std::sync::atomic::Ordering;

use crate::queue_data::QueueData;
use crate::typed_queue::newest_index;
use crate::typed_queue::QueueError;
use crate::typed_queue::TypedQueue;

verus! {

/// Lock invariant for the protected queue state: only well-formed
/// bookkeeping can ever be stored in the lock, so every acquisition — by any
/// thread, in any interleaving — sees a well-formed queue.
pub(crate) struct QueuePred;

impl<T: Copy, const N: usize> RwLockPredicate<QueueData<T, N>> for QueuePred {
    closed spec fn inv(self, v: QueueData<T, N>) -> bool {
        v.wf()
    }
}

/// Read access to one element of a shared queue, holding the queue's lock
/// for its whole lifetime: while the guard is alive, no thread can pop or
/// overwrite the borrowed slot, because every structural mutation must
/// acquire the same lock for writing. Other read-only guards may coexist.
///
/// The guard exposes the element with [`RefGuard::value`] and must be given
/// back with [`RefGuard::release`]; a guard that is merely dropped keeps its
/// read lock held, and any later mutating operation on the queue would block
/// forever. Callers must treat a guard as a short-lived resource.
pub struct RefGuard<'a, T: Copy, const CAPACITY: usize> {
    handle: ReadHandle<'a, QueueData<T, CAPACITY>, QueuePred>,
    index: usize,
}

impl<'a, T: Copy, const CAPACITY: usize> RefGuard<'a, T, CAPACITY> {
    /// Snapshot of the queue contents, oldest first, fixed for as long as
    /// the guard holds the lock.
    pub closed spec fn contents(&self) -> Seq<T> {
        self.handle@.contents()
    }

    /// Position in `contents()` of the element the next overwriting push
    /// would replace if the snapshot is full; equals `contents().len()`
    /// otherwise. The most recently written element sits immediately before
    /// this position, cyclically (see `newest_index`).
    pub closed spec fn overwrite_cursor(&self) -> nat {
        self.handle@.cursor()
    }

    /// The element the guard gives access to.
    pub closed spec fn element(&self) -> T {
        self.handle@.buffer@[self.index as int]
    }

    /// The guard refers to a live slot of a well-formed snapshot.
    pub closed spec fn wf(&self) -> bool {
        &&& self.handle@.wf()
        &&& self.index < self.handle@.buffer@.len()
    }

    /// Bundle an acquired read lock with the slot it grants access to.
    fn new(handle: ReadHandle<'a, QueueData<T, CAPACITY>, QueuePred>, index: usize) -> (g: Self)
        requires
            handle@.wf(),
            index < handle@.buffer@.len(),
        ensures
            g.wf(),
            g.contents() == handle@.contents(),
            g.overwrite_cursor() == handle@.cursor(),
            g.element() == handle@.buffer@[index as int],
    {
        RefGuard { handle, index }
    }

    /// Read the element. The reference borrows the guard, so it cannot
    /// outlive the lock protecting it.
    pub fn value(&self) -> (r: &T)
        requires
            self.wf(),
        ensures
            *r == self.element(),
    {
        let data = self.handle.borrow();
        &data.buffer[self.index]
    }

    /// Give the element back, releasing the queue's lock so that mutating
    /// operations can proceed.
    pub fn release(self) {
        let RefGuard { handle, index: _ } = self;
        handle.release_read();
    }
}

/// Fixed-capacity FIFO queue of `CAPACITY` elements of type `T` that may be
/// shared between threads. All structural mutation is serialized by one
/// reader-writer lock; `is_full`, `is_empty` and `size` read only the atomic
/// count mirror and never block.
pub struct ThreadSafeTypedQueue<T: Copy, const CAPACITY: usize> {
    /// Mirror of the element count of the locked state, rewritten by every
    /// mutating operation while it still holds the lock. Reading it outside
    /// the lock is best-effort: the value is never torn, but it may already
    /// be stale by the time the caller acts on it. This is a deliberate
    /// trade of linearizability for zero contention on count-only queries;
    /// no retry loop is used to close the gap.
    size: AtomicUsize,
    /// The circular-index storage, guarded for all structural access.
    protected_data: RwLock<QueueData<T, CAPACITY>, QueuePred>,
}

impl<T: Copy, const CAPACITY: usize> ThreadSafeTypedQueue<T, CAPACITY> {
    /// Create a new, empty shared queue.
    pub fn new() -> (q: Self)
        ensures
            q.inv(),
    {
        ThreadSafeTypedQueue {
            size: AtomicUsize::new(0),
            protected_data: RwLock::new(QueueData::new(), Ghost(QueuePred)),
        }
    }

    /// Borrow the oldest element of the queue without removing it, locking
    /// out mutation for as long as the returned guard lives. Fails with
    /// `QueueEmpty` (releasing the lock at once) if the queue is empty at
    /// the moment the lock is held.
    pub fn front(&self) -> (r: Result<RefGuard<'_, T, CAPACITY>, QueueError>)
        requires
            self.inv(),
        ensures
            r matches Ok(g) ==> {
                &&& g.wf()
                &&& g.contents().len() > 0
                &&& g.element() == g.contents()[0]
            },
            r matches Err(e) ==> e == QueueError::QueueEmpty,
    {
        let handle = self.protected_data.acquire_read();
        if handle.borrow().is_empty() {
            handle.release_read();
            return Err(QueueError::QueueEmpty);
        }
        let index = handle.borrow().head;
        Ok(RefGuard::new(handle, index))
    }

    /// Borrow the most recently written element of the queue without
    /// removing it, locking out mutation for as long as the returned guard
    /// lives. Fails with `QueueEmpty` (releasing the lock at once) if the
    /// queue is empty at the moment the lock is held.
    pub fn back(&self) -> (r: Result<RefGuard<'_, T, CAPACITY>, QueueError>)
        requires
            self.inv(),
        ensures
            r matches Ok(g) ==> {
                &&& g.wf()
                &&& g.contents().len() > 0
                &&& g.element() == g.contents()[newest_index(
                    g.contents().len(),
                    g.overwrite_cursor(),
                )]
            },
            r matches Err(e) ==> e == QueueError::QueueEmpty,
    {
        let handle = self.protected_data.acquire_read();
        if handle.borrow().is_empty() {
            handle.release_read();
            return Err(QueueError::QueueEmpty);
        }
        let tail = handle.borrow().tail;
        let index = if tail == 0 {
            CAPACITY - 1
        } else {
            tail - 1
        };
        Ok(RefGuard::new(handle, index))
    }
}

impl<T: Copy, const CAPACITY: usize> Default for ThreadSafeTypedQueue<T, CAPACITY> {
    /// The default shared queue is a new, empty one.
    fn default() -> (q: Self)
        ensures
            q.inv(),
    {
        ThreadSafeTypedQueue::new()
    }
}

impl<T: Copy, const CAPACITY: usize> TypedQueue<T> for ThreadSafeTypedQueue<T, CAPACITY> {
    /// The lock is configured with the queue predicate, so whatever value an
    /// acquisition returns is well-formed ring bookkeeping.
    closed spec fn inv(&self) -> bool {
        self.protected_data.pred() == QueuePred
    }

    open spec fn cap(&self) -> nat {
        CAPACITY as nat
    }

    fn push(&mut self, input: T) -> (r: Result<(), QueueError>) {
        self.push_ref(&input)
    }

    fn push_overwrite(&mut self, input: T) -> (r: Result<(), QueueError>) {
        self.push_ref_overwrite(&input)
    }

    fn push_ref(&mut self, input: &T) -> (r: Result<(), QueueError>) {
        let (mut data, write_handle) = self.protected_data.acquire_write();
        let r = data.push_back(input);
        let count = data.len();
        self.size.store(count, Ordering::Relaxed);
        write_handle.release_write(data);
        r
    }

    fn push_ref_overwrite(&mut self, input: &T) -> (r: Result<(), QueueError>) {
        let (mut data, write_handle) = self.protected_data.acquire_write();
        let r = data.overwrite_back(input);
        let count = data.len();
        self.size.store(count, Ordering::Relaxed);
        write_handle.release_write(data);
        r
    }

    fn pop(&mut self) -> (r: Result<T, QueueError>) {
        let (mut data, write_handle) = self.protected_data.acquire_write();
        let r = data.pop_front();
        let count = data.len();
        self.size.store(count, Ordering::Relaxed);
        write_handle.release_write(data);
        r
    }

    fn pop_ref(&mut self, output: &mut T) -> (r: Result<(), QueueError>) {
        match self.pop() {
            Ok(value) => {
                *output = value;
                Ok(())
            },
            Err(e) => Err(e),
        }
    }

    // The count-only queries below read the atomic mirror and never acquire
    // the lock: the answer may be stale by the time the caller acts on it,
    // since another thread may complete a push or pop in between. Protecting
    // them would not help a caller, which is why their contracts promise
    // nothing about the returned count.

    fn is_full(&self) -> (r: bool) {
        self.size() == CAPACITY
    }

    fn is_empty(&self) -> (r: bool) {
        self.size() == 0
    }

    fn size(&self) -> (r: usize) {
        self.size.load(Ordering::Relaxed)
    }

    fn capacity(&self) -> (r: usize) {
        CAPACITY
    }
}

/// Capacity invariant for the shared queue: the lock only ever stores
/// well-formed states, so any snapshot a guard observes — whatever other
/// threads did before it — holds at most `CAPACITY` elements.
pub proof fn lemma_shared_capacity_invariant<T: Copy, const CAPACITY: usize>(
    g: &RefGuard<'_, T, CAPACITY>,
)
    requires
        g.wf(),
    ensures
        g.contents().len() <= CAPACITY,
{
}

} // verus!
