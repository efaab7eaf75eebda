//! Behaviour of the queue API as seen through the crate root.

use typed_queue::BasicTypedQueue;
use typed_queue::QueueError;
use typed_queue::TypedQueue;

// Arbitrary queue size for tests
const SIZE: usize = 16;

const VALUE: u32 = 123;

#[test]
fn new() {
    let queue = BasicTypedQueue::<u32, SIZE>::new();
    println!("{:?}", queue);
}

#[test]
fn default() {
    let queue = BasicTypedQueue::<u32, SIZE>::default();
    println!("{:?}", queue);
}

#[test]
fn lib_push_pop() {
    let mut queue = BasicTypedQueue::<u32, SIZE>::default();

    for n in 0..SIZE {
        assert!(queue.push(n as u32).is_ok())
    }

    for n in 0..SIZE {
        let output = queue.pop();
        assert!(output.is_ok());
        assert_eq!(output.unwrap(), n as u32);
    }
}

#[test]
fn lib_push_ref_pop_ref() {
    let mut queue = BasicTypedQueue::<u32, SIZE>::default();

    for n in 0..SIZE {
        assert!(queue.push_ref(&(n as u32)).is_ok())
    }

    for n in 0..SIZE {
        let mut output: u32 = 0;
        let res = queue.pop_ref(&mut output);
        assert!(res.is_ok());
        assert_eq!(output, n as u32);
    }
}

#[test]
fn lib_wrap() {
    let mut queue = BasicTypedQueue::<u32, SIZE>::default();

    // push/pop half capacity to move head/tail to SIZE/2
    for n in 0..SIZE / 2 {
        assert!(queue.push(n as u32).is_ok());
    }

    for _ in 0..SIZE / 2 {
        assert!(queue.pop().is_ok());
    }

    // Now perform full push/pop check to verify wrap logic
    for n in 0..SIZE {
        assert!(queue.push(n as u32).is_ok())
    }

    for n in 0..SIZE {
        let output = queue.pop();
        assert!(output.is_ok());
        assert_eq!(output.unwrap(), n as u32);
    }
}

#[test]
fn lib_front_back() {
    let mut queue = BasicTypedQueue::<u32, SIZE>::default();
    assert_eq!(queue.front().unwrap_err(), QueueError::QueueEmpty);
    assert_eq!(queue.back().unwrap_err(), QueueError::QueueEmpty);

    assert!(queue.push(VALUE).is_ok());
    assert_eq!(*queue.front().unwrap(), VALUE);
    assert_eq!(*queue.back().unwrap(), VALUE);
}

#[test]
fn lib_empty_full() {
    let mut queue = BasicTypedQueue::<u32, SIZE>::default();
    assert!(queue.is_empty());

    for n in 0..SIZE {
        assert!(!queue.is_full());
        assert!(queue.push(n as u32).is_ok());
        assert!(!queue.is_empty());
    }

    assert!(queue.is_full());
    let res = queue.push(0);
    assert!(res.is_err());
    assert_eq!(res.unwrap_err(), QueueError::QueueFull);

    for _ in 0..SIZE {
        assert!(!queue.is_empty());
        assert!(queue.pop().is_ok());
        assert!(!queue.is_full());
    }

    let output = queue.pop();
    assert!(output.is_err());
    assert_eq!(output.unwrap_err(), QueueError::QueueEmpty);
}

#[test]
fn lib_size() {
    let mut queue = BasicTypedQueue::<u32, SIZE>::default();

    for n in 0..SIZE {
        assert_eq!(n, queue.size());
        assert!(queue.push(n as u32).is_ok());
    }

    for n in 0..SIZE {
        assert_eq!((SIZE - n), queue.size());
        assert!(queue.pop().is_ok());
    }
}

#[test]
fn lib_capacity() {
    let queue = BasicTypedQueue::<u32, SIZE>::default();
    assert_eq!(queue.capacity(), SIZE);

    let smaller_queue = BasicTypedQueue::<u32, { SIZE - 1 }>::default();
    assert_eq!(smaller_queue.capacity(), SIZE - 1);
}
