use may::blocker::{Blocker, Wake};
use may::sync::spsc::{InnerQueue, TryRecvError};

#[test]
fn blocker_coroutine_tag() {
    let b = Blocker::new_coroutine(8);
    assert!(!b.is_thread());
    assert_eq!(b.unpark(), Wake::Coroutine(8));
    assert_eq!(Blocker::new_coroutine(6).into_coroutine(), 6);
}

#[test]
fn blocker_thread_tag() {
    let b = Blocker::new_thread(8);
    assert!(b.is_thread());
    assert_eq!(b.unpark(), Wake::Thread(8));
    assert_eq!(Blocker::new_thread(0).into_thread(), 0);
    assert_eq!(Blocker::new_thread(1024).into_thread(), 1024);
}

#[test]
fn queue_starts_empty_and_open() {
    let mut q = InnerQueue::<i32>::new();
    assert_eq!(q.try_recv(), Err(TryRecvError::Empty));
    assert!(!q.is_ready());
    assert!(!q.has_waiter());
}

#[test]
fn queue_fifo_interleaved() {
    let mut q = InnerQueue::<i32>::new();
    assert_eq!(q.send(1), Ok(None));
    assert_eq!(q.send(2), Ok(None));
    assert_eq!(q.try_recv(), Ok(1));
    assert_eq!(q.send(3), Ok(None));
    assert_eq!(q.try_recv(), Ok(2));
    assert_eq!(q.try_recv(), Ok(3));
    assert_eq!(q.try_recv(), Err(TryRecvError::Empty));
}

#[test]
fn queue_send_after_port_drop_returns_item() {
    let mut q = InnerQueue::<i32>::new();
    q.send(1).unwrap();
    q.send(4).unwrap();
    let drained = q.drop_port();
    assert_eq!(drained.into_iter().collect::<Vec<i32>>(), vec![1, 4]);
    assert_eq!(q.try_recv(), Err(TryRecvError::Empty));
    assert_eq!(q.send(2), Err(2));
    assert_eq!(q.send(3), Err(3));
}

#[test]
fn queue_drains_then_disconnects() {
    let mut q = InnerQueue::<i32>::new();
    q.send(7).unwrap();
    q.send(8).unwrap();
    assert_eq!(q.drop_chan(), None);
    assert_eq!(q.try_recv(), Ok(7));
    assert_eq!(q.recv(Blocker::new_thread(0)), Ok(8));
    assert_eq!(q.try_recv(), Err(TryRecvError::Disconnected));
    assert_eq!(q.recv(Blocker::new_thread(0)), Err(TryRecvError::Disconnected));
    assert!(!q.has_waiter());
}

#[test]
fn subscribe_then_send_wakes_once() {
    let mut q = InnerQueue::<i32>::new();
    assert_eq!(q.recv(Blocker::new_coroutine(4)), Err(TryRecvError::Empty));
    assert!(q.has_waiter());
    assert_eq!(q.send(5), Ok(Some(Blocker::new_coroutine(4))));
    assert!(!q.has_waiter());
    assert_eq!(q.send(6), Ok(None));
    assert_eq!(q.drop_chan(), None);
    assert_eq!(q.try_recv(), Ok(5));
    assert_eq!(q.try_recv(), Ok(6));
}

#[test]
fn subscribe_when_ready_resumes_at_once() {
    let mut q = InnerQueue::<i32>::new();
    q.send(1).unwrap();
    assert_eq!(q.subscribe(Blocker::new_coroutine(2)), Some(Blocker::new_coroutine(2)));
    assert!(!q.has_waiter());
}

#[test]
fn sender_drop_wakes_waiter() {
    let mut q = InnerQueue::<i32>::new();
    assert_eq!(q.subscribe(Blocker::new_thread(2)), None);
    assert_eq!(q.take_waiter(), Some(Blocker::new_thread(2)));
    assert_eq!(q.subscribe(Blocker::new_thread(2)), None);
    assert_eq!(q.drop_chan(), Some(Blocker::new_thread(2)));
    assert_eq!(q.drop_chan(), None);
    assert!(q.is_ready());
    assert_eq!(q.subscribe(Blocker::new_thread(4)), Some(Blocker::new_thread(4)));
}
