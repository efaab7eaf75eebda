//! Circular-index storage and the bookkeeping logic shared by both queue
//! variants: the single-owner queue wraps it directly, the shared queue keeps
//! it behind a lock.

use vstd::prelude::*;

use crate::typed_queue::QueueError;

verus! {

/// Index of the slot `offset` places after slot `base` in a ring of `n`
/// slots. Meaningful for `0 <= base < n` and `0 <= offset <= n`.
pub(crate) open spec fn ring_add(base: int, offset: int, n: int) -> int {
    if base + offset < n {
        base + offset
    } else {
        base + offset - n
    }
}

/// How many slots ahead of slot `b` slot `a` sits in a ring of `n` slots.
/// Meaningful for `0 <= a < n` and `0 <= b < n`.
pub(crate) open spec fn ring_sub(a: int, b: int, n: int) -> int {
    if a >= b {
        a - b
    } else {
        a - b + n
    }
}

/// Fixed-capacity circular storage of `N` slots holding `T`, with the
/// head/tail/size bookkeeping that partitions it into live and dead slots.
///
/// `buffer` holds the slots that have been written at least once; it grows on
/// demand up to `N` entries, so a queue never allocates space for slots it
/// has not yet used and never needs a default value for `T`. Slots of
/// `buffer` outside the live region hold stale values that are never read.
#[derive(Clone, Debug)]
pub(crate) struct QueueData<T: Copy, const N: usize> {
    /// Slot holding the oldest live element (the next to pop).
    pub(crate) head: usize,
    /// Slot the next insertion writes.
    pub(crate) tail: usize,
    /// Number of live elements.
    pub(crate) size: usize,
    /// The slots themselves, lazily grown up to `N` entries.
    pub(crate) buffer: Vec<T>,
}

impl<T: Copy, const N: usize> QueueData<T, N> {
    /// The live elements, oldest first.
    pub(crate) open spec fn contents(&self) -> Seq<T> {
        Seq::new(self.size as nat, |i: int| self.buffer@[ring_add(self.head as int, i, N as int)])
    }

    /// Structural invariant: indices stay in range, the live region is the
    /// `size` slots starting at `head`, every live slot has been written, and
    /// `tail` marks the next slot to fill. While the queue is full, repeated
    /// overwriting pushes let `tail` advance through the live region without
    /// moving `head`; whenever the queue is not full, `tail` is exactly
    /// `size` slots past `head`.
    pub(crate) open spec fn wf(&self) -> bool {
        &&& self.size as nat <= N as nat
        &&& self.buffer@.len() <= N as nat
        &&& (N == 0 ==> self.head == 0 && self.tail == 0)
        &&& (N > 0 ==> self.head < N && self.tail < N)
        &&& (self.size < N ==> self.tail as int == ring_add(
            self.head as int,
            self.size as int,
            N as int,
        ))
        &&& (self.size == N ==> self.buffer@.len() == N as nat)
        &&& (self.buffer@.len() < N as nat ==> self.tail as nat == self.buffer@.len()
            && self.head + self.size == self.tail)
    }

    /// Position, in the live sequence, of the slot at `tail`: the element the
    /// next overwriting push on a full queue replaces. Equals `size` whenever
    /// the queue is not full.
    pub(crate) open spec fn cursor(&self) -> nat {
        if self.size < N {
            self.size as nat
        } else {
            ring_sub(self.tail as int, self.head as int, N as int) as nat
        }
    }

    /// A queue starts empty, with head and tail on slot zero and no slot yet
    /// written.
    pub(crate) fn new() -> (q: Self)
        ensures
            q.wf(),
            q.contents() == Seq::<T>::empty(),
            q.cursor() == 0,
    {
        let q = QueueData { head: 0, tail: 0, size: 0, buffer: Vec::new() };
        proof {
            assert(q.contents() =~= Seq::<T>::empty());
        }
        q
    }

    /// Current number of live elements.
    pub(crate) fn len(&self) -> (r: usize)
        requires
            self.wf(),
        ensures
            r == self.contents().len(),
    {
        self.size
    }

    /// Whether the queue is at capacity.
    pub(crate) fn is_full(&self) -> (r: bool)
        requires
            self.wf(),
        ensures
            r == (self.contents().len() == N),
    {
        self.size == N
    }

    /// Whether the queue holds no elements.
    pub(crate) fn is_empty(&self) -> (r: bool)
        requires
            self.wf(),
        ensures
            r == (self.contents().len() == 0),
    {
        self.size == 0
    }

    /// Insert at `tail` if the queue is not full; fail without mutating
    /// otherwise.
    pub(crate) fn push_back(&mut self, input: &T) -> (r: Result<(), QueueError>)
        requires
            old(self).wf(),
        ensures
            final(self).wf(),
            old(self).contents().len() < N ==> {
                &&& r is Ok
                &&& final(self).contents() == old(self).contents().push(*input)
                &&& final(self).cursor() == if old(self).contents().len() + 1 < N {
                    old(self).contents().len() + 1
                } else {
                    0
                }
            },
            old(self).contents().len() == N ==> r == Err::<(), QueueError>(QueueError::QueueFull)
                && *final(self) == *old(self),
    {
        if self.size == N {
            return Err(QueueError::QueueFull);
        }
        if self.tail == self.buffer.len() {
            self.buffer.push(*input);
        } else {
            self.buffer[self.tail] = *input;
        }
        self.tail = if self.tail + 1 == N {
            0
        } else {
            self.tail + 1
        };
        self.size = self.size + 1;
        proof {
            assert(self.contents() =~= old(self).contents().push(*input));
        }
        Ok(())
    }

    /// Insert at `tail` unconditionally: when the queue is full this
    /// overwrites the live element at the overwrite cursor and advances
    /// `tail` by one slot without moving `head`, so consecutive overwrites on
    /// a full queue consume the live region oldest first.
    pub(crate) fn overwrite_back(&mut self, input: &T) -> (r: Result<(), QueueError>)
        requires
            old(self).wf(),
            N > 0,
        ensures
            final(self).wf(),
            r is Ok,
            old(self).contents().len() < N ==> {
                &&& final(self).contents() == old(self).contents().push(*input)
                &&& final(self).cursor() == if old(self).contents().len() + 1 < N {
                    old(self).contents().len() + 1
                } else {
                    0
                }
            },
            old(self).contents().len() == N ==> {
                &&& final(self).contents() == old(self).contents().update(old(self).cursor() as int, *input)
                &&& final(self).cursor() == if old(self).cursor() + 1 < N {
                    old(self).cursor() + 1
                } else {
                    0
                }
            },
    {
        if self.size < N {
            return self.push_back(input);
        }
        self.buffer[self.tail] = *input;
        self.tail = if self.tail + 1 == N {
            0
        } else {
            self.tail + 1
        };
        proof {
            assert(self.contents() =~= old(self).contents().update(old(self).cursor() as int, *input));
        }
        Ok(())
    }

    /// Remove and return the element at `head`; fail without mutating if the
    /// queue is empty. Popping also resynchronises `tail` with the live
    /// region, closing the gap that overwriting pushes on a full queue may
    /// have opened.
    pub(crate) fn pop_front(&mut self) -> (r: Result<T, QueueError>)
        requires
            old(self).wf(),
        ensures
            final(self).wf(),
            old(self).contents().len() == 0 ==> r == Err::<T, QueueError>(QueueError::QueueEmpty)
                && *final(self) == *old(self),
            old(self).contents().len() > 0 ==> {
                &&& r == Ok::<T, QueueError>(old(self).contents()[0])
                &&& final(self).contents() == old(self).contents().skip(1)
                &&& final(self).cursor() == final(self).contents().len()
            },
    {
        if self.size == 0 {
            return Err(QueueError::QueueEmpty);
        }
        let value = self.buffer[self.head];
        if self.size == N {
            self.tail = self.head;
        }
        self.head = if self.head + 1 == N {
            0
        } else {
            self.head + 1
        };
        self.size = self.size - 1;
        proof {
            assert(self.contents() =~= old(self).contents().skip(1));
        }
        Ok(value)
    }

    /// Borrow the oldest live element; fail if the queue is empty.
    pub(crate) fn front_ref(&self) -> (r: Result<&T, QueueError>)
        requires
            self.wf(),
        ensures
            self.contents().len() == 0 ==> (r matches Err(e) && e == QueueError::QueueEmpty),
            self.contents().len() > 0 ==> (r matches Ok(p) && *p == self.contents()[0]),
    {
        if self.size == 0 {
            return Err(QueueError::QueueEmpty);
        }
        Ok(&self.buffer[self.head])
    }

    /// Borrow the most recently written live element, the one just before
    /// `tail` cyclically; fail if the queue is empty.
    pub(crate) fn back_ref(&self) -> (r: Result<&T, QueueError>)
        requires
            self.wf(),
        ensures
            self.contents().len() == 0 ==> (r matches Err(e) && e == QueueError::QueueEmpty),
            self.contents().len() > 0 ==> (r matches Ok(p) && *p == self.contents()[
                crate::typed_queue::newest_index(self.contents().len(), self.cursor())
            ]),
    {
        if self.size == 0 {
            return Err(QueueError::QueueEmpty);
        }
        let back_idx = if self.tail == 0 {
            N - 1
        } else {
            self.tail - 1
        };
        Ok(&self.buffer[back_idx])
    }
}

} // verus!
