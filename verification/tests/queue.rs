//! The bounded FIFO on its own.

use multipart_write::queue::TaskQueue;

#[test]
fn test_fifo_order() {
    let mut q: TaskQueue<u32> = TaskQueue::new(3);
    assert!(q.is_empty());
    assert!(q.has_remaining());
    q.push_back(10);
    q.push_back(20);
    q.push_back(30);
    assert_eq!(q.len(), 3);
    assert!(!q.has_remaining());
    assert_eq!(*q.front(), 10);
    assert_eq!(q.pop_front(), 10);
    assert_eq!(q.pop_front(), 20);
    assert_eq!(q.pop_front(), 30);
    assert!(q.is_empty());
}

#[test]
fn test_push_front_restores_head() {
    let mut q: TaskQueue<u32> = TaskQueue::new(3);
    q.push_back(1);
    q.push_back(2);
    let head = q.pop_front();
    assert_eq!(head, 1);
    // a retried task goes back ahead of every later one
    q.push_front(head);
    assert_eq!(*q.front(), 1);
    assert_eq!(q.pop_front(), 1);
    assert_eq!(q.pop_front(), 2);
}

#[test]
fn test_clear_discards_everything() {
    let mut q: TaskQueue<u32> = TaskQueue::new(2);
    q.push_back(5);
    q.push_back(6);
    q.clear();
    assert!(q.is_empty());
    assert_eq!(q.capacity(), 2);
    assert!(q.has_remaining());
}
