//! The capability contract that every queue implementation honours, together
//! with the shared error vocabulary.

use vstd::prelude::*;

verus! {

/// Why a queue operation failed.
#[derive(Debug, Clone, Eq, PartialEq)]
pub enum QueueError {
    /// A pop, front or back operation failed because the queue holds no
    /// live elements.
    QueueEmpty,
    /// A non-overwriting push failed because the queue is at capacity.
    QueueFull,
    /// Shared variant only: the lock protecting the queue was abandoned by a
    /// thread that terminated abnormally mid-mutation, so the buffer state
    /// cannot be trusted. The shared implementation in this crate uses a
    /// verified lock that cannot be poisoned, so none of its operations
    /// actually produce this value; it remains part of the shared error
    /// vocabulary for implementations whose lock can be abandoned.
    MutexPoisoned,
}

/// Position, in the live sequence of a queue, of the most recently written
/// element, given the queue's length and its overwrite cursor. The cursor is
/// the position the next overwriting push on a full queue would replace, so
/// the newest element sits immediately before it, cyclically.
pub open spec fn newest_index(len: nat, cursor: nat) -> int {
    if cursor == 0 {
        len - 1
    } else {
        cursor - 1
    }
}

/// Contract for a fixed-capacity queue storing elements of one type in FIFO
/// order, with overwriting and non-overwriting insertion. The contract here
/// states only what every implementation can honour; each implementation
/// strengthens these clauses where its representation allows. In particular
/// the single-owner queue pins the exact FIFO behaviour of every operation,
/// while the shared queue's count-only queries are best-effort reads that
/// deliberately promise nothing (see `ThreadSafeTypedQueue`).
pub trait TypedQueue<T: Copy>: Sized {
    /// Validity invariant that construction establishes and every operation
    /// preserves.
    spec fn inv(&self) -> bool;

    /// The fixed capacity: the greatest number of elements the queue can
    /// hold, chosen at construction and invariant for the queue's lifetime.
    spec fn cap(&self) -> nat;

    /// Push an element by value. Fails with `QueueFull`, mutating nothing,
    /// if the queue is at capacity.
    fn push(&mut self, input: T) -> (r: Result<(), QueueError>)
        requires
            old(self).inv(),
        ensures
            final(self).inv(),
            final(self).cap() == old(self).cap(),
            r matches Err(e) ==> e == QueueError::QueueFull,
    ;

    /// Push an element by value; when the queue is full, overwrite the slot
    /// at the overwrite cursor instead of failing. Always succeeds.
    fn push_overwrite(&mut self, input: T) -> (r: Result<(), QueueError>)
        requires
            old(self).inv(),
            old(self).cap() > 0,
        ensures
            final(self).inv(),
            final(self).cap() == old(self).cap(),
            r is Ok,
    ;

    /// Push an element by reference, avoiding one copy for large element
    /// types. Fails with `QueueFull`, mutating nothing, if the queue is at
    /// capacity.
    fn push_ref(&mut self, input: &T) -> (r: Result<(), QueueError>)
        requires
            old(self).inv(),
        ensures
            final(self).inv(),
            final(self).cap() == old(self).cap(),
            r matches Err(e) ==> e == QueueError::QueueFull,
    ;

    /// Push an element by reference; when the queue is full, overwrite the
    /// slot at the overwrite cursor instead of failing. Always succeeds.
    fn push_ref_overwrite(&mut self, input: &T) -> (r: Result<(), QueueError>)
        requires
            old(self).inv(),
            old(self).cap() > 0,
        ensures
            final(self).inv(),
            final(self).cap() == old(self).cap(),
            r is Ok,
    ;

    /// Remove and return the oldest element. Fails with `QueueEmpty`,
    /// mutating nothing, if the queue holds no elements.
    fn pop(&mut self) -> (r: Result<T, QueueError>)
        requires
            old(self).inv(),
        ensures
            final(self).inv(),
            final(self).cap() == old(self).cap(),
            r matches Err(e) ==> e == QueueError::QueueEmpty,
    ;

    /// Remove the oldest element, writing it into caller-supplied storage
    /// instead of returning it by value. Fails with `QueueEmpty`, mutating
    /// nothing and leaving `output` untouched, if the queue holds no
    /// elements.
    fn pop_ref(&mut self, output: &mut T) -> (r: Result<(), QueueError>)
        requires
            old(self).inv(),
        ensures
            final(self).inv(),
            final(self).cap() == old(self).cap(),
            r matches Err(e) ==> e == QueueError::QueueEmpty && *final(output) == *old(output),
    ;

    /// Whether the queue is at capacity.
    fn is_full(&self) -> bool
        requires
            self.inv(),
    ;

    /// Whether the queue holds no elements.
    fn is_empty(&self) -> bool
        requires
            self.inv(),
    ;

    /// The current number of live elements.
    fn size(&self) -> usize
        requires
            self.inv(),
    ;

    /// The maximum number of elements the queue can hold.
    fn capacity(&self) -> (r: usize)
        requires
            self.inv(),
        ensures
            r as nat == self.cap(),
    ;
}

} // verus!
