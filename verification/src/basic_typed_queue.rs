//! Single-owner ring buffer: the baseline implementation with exclusive
//! access and no internal synchronization. The caller's exclusive ownership
//! (enforced by the borrow checker) stands in for locking, so a borrowed
//! `front`/`back` reference rules out concurrent mutation at compile time.

use vstd::prelude::*;

use crate::queue_data::QueueData;
use crate::typed_queue::newest_index;
use crate::typed_queue::QueueError;
use crate::typed_queue::TypedQueue;

verus! {

/// Fixed-capacity FIFO queue of `CAPACITY` elements of type `T`, owned by a
/// single caller. Its abstract state, written `self@`, is the sequence of
/// live elements oldest first; every operation's contract pins how it moves
/// that sequence.
#[derive(Clone, Debug)]
pub struct BasicTypedQueue<T: Copy, const CAPACITY: usize> {
    data: QueueData<T, CAPACITY>,
}

impl<T: Copy, const CAPACITY: usize> View for BasicTypedQueue<T, CAPACITY> {
    type V = Seq<T>;

    /// The live elements, oldest first.
    closed spec fn view(&self) -> Seq<T> {
        self.data.contents()
    }
}

impl<T: Copy, const CAPACITY: usize> BasicTypedQueue<T, CAPACITY> {
    /// Position in `self@` of the element the next overwriting push replaces
    /// while the queue is full; it equals `self@.len()` whenever the queue is
    /// not full. The most recently written element sits immediately before
    /// this position, cyclically (see `newest_index`).
    pub closed spec fn overwrite_cursor(&self) -> nat {
        self.data.cursor()
    }

    /// Create a new, empty queue for the specified type and capacity.
    pub fn new() -> (q: Self)
        ensures
            q.inv(),
            q@ == Seq::<T>::empty(),
            q.overwrite_cursor() == 0,
    {
        BasicTypedQueue { data: QueueData::new() }
    }

    /// Borrow the oldest element without removing it; fails with `QueueEmpty`
    /// on an empty queue.
    pub fn front(&self) -> (r: Result<&T, QueueError>)
        requires
            self.inv(),
        ensures
            self@.len() == 0 ==> (r matches Err(e) && e == QueueError::QueueEmpty),
            self@.len() > 0 ==> (r matches Ok(p) && *p == self@[0]),
    {
        self.data.front_ref()
    }

    /// Borrow the most recently written element without removing it; fails
    /// with `QueueEmpty` on an empty queue.
    pub fn back(&self) -> (r: Result<&T, QueueError>)
        requires
            self.inv(),
        ensures
            self@.len() == 0 ==> (r matches Err(e) && e == QueueError::QueueEmpty),
            self@.len() > 0 ==> (r matches Ok(p) && *p == self@[newest_index(
                self@.len(),
                self.overwrite_cursor(),
            )]),
    {
        self.data.back_ref()
    }
}

impl<T: Copy, const CAPACITY: usize> Default for BasicTypedQueue<T, CAPACITY> {
    /// The default queue is a new, empty one.
    fn default() -> (q: Self)
        ensures
            q.inv(),
            q@ == Seq::<T>::empty(),
            q.overwrite_cursor() == 0,
    {
        BasicTypedQueue::new()
    }
}

impl<T: Copy, const CAPACITY: usize> TypedQueue<T> for BasicTypedQueue<T, CAPACITY> {
    /// Structural well-formedness of the ring bookkeeping; established by
    /// construction and preserved by every operation.
    closed spec fn inv(&self) -> bool {
        self.data.wf()
    }

    open spec fn cap(&self) -> nat {
        CAPACITY as nat
    }

    fn push(&mut self, input: T) -> (r: Result<(), QueueError>)
        ensures
            old(self)@.len() < CAPACITY ==> {
                &&& r is Ok
                &&& final(self)@ == old(self)@.push(input)
                &&& final(self).overwrite_cursor() == if old(self)@.len() + 1 < CAPACITY {
                    old(self)@.len() + 1
                } else {
                    0
                }
            },
            old(self)@.len() == CAPACITY ==> r == Err::<(), QueueError>(QueueError::QueueFull)
                && *final(self) == *old(self),
    {
        self.push_ref(&input)
    }

    fn push_overwrite(&mut self, input: T) -> (r: Result<(), QueueError>)
        ensures
            old(self)@.len() < CAPACITY ==> {
                &&& final(self)@ == old(self)@.push(input)
                &&& final(self).overwrite_cursor() == if old(self)@.len() + 1 < CAPACITY {
                    old(self)@.len() + 1
                } else {
                    0
                }
            },
            old(self)@.len() == CAPACITY ==> {
                &&& final(self)@ == old(self)@.update(old(self).overwrite_cursor() as int, input)
                &&& final(self).overwrite_cursor() == if old(self).overwrite_cursor() + 1
                    < CAPACITY {
                    old(self).overwrite_cursor() + 1
                } else {
                    0
                }
            },
    {
        self.push_ref_overwrite(&input)
    }

    fn push_ref(&mut self, input: &T) -> (r: Result<(), QueueError>)
        ensures
            old(self)@.len() < CAPACITY ==> {
                &&& r is Ok
                &&& final(self)@ == old(self)@.push(*input)
                &&& final(self).overwrite_cursor() == if old(self)@.len() + 1 < CAPACITY {
                    old(self)@.len() + 1
                } else {
                    0
                }
            },
            old(self)@.len() == CAPACITY ==> r == Err::<(), QueueError>(QueueError::QueueFull)
                && *final(self) == *old(self),
    {
        self.data.push_back(input)
    }

    fn push_ref_overwrite(&mut self, input: &T) -> (r: Result<(), QueueError>)
        ensures
            old(self)@.len() < CAPACITY ==> {
                &&& final(self)@ == old(self)@.push(*input)
                &&& final(self).overwrite_cursor() == if old(self)@.len() + 1 < CAPACITY {
                    old(self)@.len() + 1
                } else {
                    0
                }
            },
            old(self)@.len() == CAPACITY ==> {
                &&& final(self)@ == old(self)@.update(old(self).overwrite_cursor() as int, *input)
                &&& final(self).overwrite_cursor() == if old(self).overwrite_cursor() + 1
                    < CAPACITY {
                    old(self).overwrite_cursor() + 1
                } else {
                    0
                }
            },
    {
        self.data.overwrite_back(input)
    }

    fn pop(&mut self) -> (r: Result<T, QueueError>)
        ensures
            old(self)@.len() == 0 ==> r == Err::<T, QueueError>(QueueError::QueueEmpty)
                && *final(self) == *old(self),
            old(self)@.len() > 0 ==> {
                &&& r == Ok::<T, QueueError>(old(self)@[0])
                &&& final(self)@ == old(self)@.skip(1)
                &&& final(self).overwrite_cursor() == final(self)@.len()
            },
    {
        self.data.pop_front()
    }

    fn pop_ref(&mut self, output: &mut T) -> (r: Result<(), QueueError>)
        ensures
            old(self)@.len() == 0 ==> r == Err::<(), QueueError>(QueueError::QueueEmpty)
                && *final(self) == *old(self) && *final(output) == *old(output),
            old(self)@.len() > 0 ==> {
                &&& r is Ok
                &&& *final(output) == old(self)@[0]
                &&& final(self)@ == old(self)@.skip(1)
                &&& final(self).overwrite_cursor() == final(self)@.len()
            },
    {
        match self.data.pop_front() {
            Ok(value) => {
                *output = value;
                Ok(())
            },
            Err(e) => Err(e),
        }
    }

    fn is_full(&self) -> (r: bool)
        ensures
            r == (self@.len() == CAPACITY),
    {
        self.data.is_full()
    }

    fn is_empty(&self) -> (r: bool)
        ensures
            r == (self@.len() == 0),
    {
        self.data.is_empty()
    }

    fn size(&self) -> (r: usize)
        ensures
            r == self@.len(),
    {
        self.data.len()
    }

    fn capacity(&self) -> (r: usize)
    {
        CAPACITY
    }
}

/// Capacity invariant: however a well-formed queue was reached, the number of
/// live elements never exceeds the capacity.
pub proof fn lemma_capacity_invariant<T: Copy, const CAPACITY: usize>(
    q: &BasicTypedQueue<T, CAPACITY>,
)
    requires
        q.inv(),
    ensures
        q@.len() <= q.cap(),
{
}

} // verus!
