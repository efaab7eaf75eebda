//! Behaviour of the shared (lock-protected) queue, exercised from a single
//! thread: the FIFO semantics must match the single-owner baseline.

use typed_queue::QueueError;
use typed_queue::ThreadSafeTypedQueue;
use typed_queue::TypedQueue;

// Arbitrary queue size for tests
const SIZE: usize = 16;

const VALUE: u32 = 123;

#[test]
fn thread_safe_typed_queue_push_pop() {
    let mut queue = ThreadSafeTypedQueue::<u32, SIZE>::default();

    for n in 0..SIZE {
        assert!(queue.push(n as u32).is_ok())
    }

    for n in 0..SIZE {
        let output = queue.pop();
        assert!(output.is_ok());
        assert_eq!(output.unwrap(), n as u32);
    }
}

#[test]
fn thread_safe_typed_queue_push_overwrite_pop() {
    let mut queue = ThreadSafeTypedQueue::<u32, SIZE>::default();

    for n in 0..SIZE {
        assert!(queue.push(n as u32).is_ok())
    }

    // Overwrite oldest element (0) with SIZE
    assert!(queue.push_overwrite(SIZE as u32).is_ok());

    let output = queue.pop();
    assert!(output.is_ok());
    assert_eq!(output.unwrap(), SIZE as u32);
}

#[test]
fn thread_safe_typed_queue_push_ref_pop_ref() {
    let mut queue = ThreadSafeTypedQueue::<u32, SIZE>::default();

    for n in 0..SIZE {
        assert!(queue.push_ref(&(n as u32)).is_ok())
    }

    for n in 0..SIZE {
        let mut output: u32 = 0;
        let res = queue.pop_ref(&mut output);
        assert!(res.is_ok());
        assert_eq!(output, n as u32);
    }
}

#[test]
fn thread_safe_typed_queue_push_ref_overwrite_pop() {
    let mut queue = ThreadSafeTypedQueue::<u32, SIZE>::default();

    for n in 0..SIZE {
        assert!(queue.push_ref(&(n as u32)).is_ok())
    }

    // Overwrite oldest element (0) with SIZE
    assert!(queue.push_ref_overwrite(&(SIZE as u32)).is_ok());

    let mut output: u32 = 0;
    let res = queue.pop_ref(&mut output);
    assert!(res.is_ok());
    assert_eq!(output, SIZE as u32);
}

#[test]
fn thread_safe_typed_queue_wrap() {
    let mut queue = ThreadSafeTypedQueue::<u32, SIZE>::default();

    // push/pop half capacity to move head/tail to SIZE/2
    for n in 0..SIZE / 2 {
        assert!(queue.push(n as u32).is_ok());
    }

    for _ in 0..SIZE / 2 {
        assert!(queue.pop().is_ok());
    }

    // Now perform full push/pop check to verify wrap logic
    for n in 0..SIZE {
        assert!(queue.push(n as u32).is_ok())
    }

    for n in 0..SIZE {
        let output = queue.pop();
        assert!(output.is_ok());
        assert_eq!(output.unwrap(), n as u32);
    }
}

#[test]
fn thread_safe_typed_queue_front_back() {
    let mut queue = ThreadSafeTypedQueue::<u32, SIZE>::default();
    assert!(matches!(queue.front(), Err(QueueError::QueueEmpty)));
    assert!(matches!(queue.back(), Err(QueueError::QueueEmpty)));

    assert!(queue.push(VALUE).is_ok());

    let front = queue.front().unwrap();
    assert_eq!(*front.value(), VALUE);
    front.release();

    let back = queue.back().unwrap();
    assert_eq!(*back.value(), VALUE);
    back.release();

    let front_ref_guard = queue.front().unwrap();
    assert_eq!(*front_ref_guard.value(), VALUE);

    // The guard holds the queue's lock: a mutating call made while it is
    // alive would block until the guard is released.
    println!("{}", *front_ref_guard.value());
    front_ref_guard.release();
}

#[test]
fn thread_safe_typed_queue_empty_full() {
    let mut queue = ThreadSafeTypedQueue::<u32, SIZE>::default();
    assert!(queue.is_empty());

    for n in 0..SIZE {
        assert!(!queue.is_full());
        assert!(queue.push(n as u32).is_ok());
        assert!(!queue.is_empty());
    }

    assert!(queue.is_full());
    let res = queue.push(0);
    assert!(res.is_err());
    assert_eq!(res.unwrap_err(), QueueError::QueueFull);

    for _ in 0..SIZE {
        assert!(!queue.is_empty());
        assert!(queue.pop().is_ok());
        assert!(!queue.is_full());
    }

    let output = queue.pop();
    assert!(output.is_err());
    assert_eq!(output.unwrap_err(), QueueError::QueueEmpty);
}

#[test]
fn thread_safe_typed_queue_size() {
    let mut queue = ThreadSafeTypedQueue::<u32, SIZE>::default();

    for n in 0..SIZE {
        assert_eq!(n, queue.size());
        assert!(queue.push(n as u32).is_ok());
    }

    for n in 0..SIZE {
        assert_eq!((SIZE - n), queue.size());
        assert!(queue.pop().is_ok());
    }
}

#[test]
fn thread_safe_typed_queue_capacity() {
    let queue = ThreadSafeTypedQueue::<u32, SIZE>::default();
    assert_eq!(queue.capacity(), SIZE);

    let smaller_queue = ThreadSafeTypedQueue::<u32, { SIZE - 1 }>::default();
    assert_eq!(smaller_queue.capacity(), SIZE - 1);
}
